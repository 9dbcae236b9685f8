//! The catalog of images.

use vstd::prelude::*;
use vstd::string::*;

#[allow(unused_imports)]
use crate::create::boot_init_for;
use crate::error::{invalid_argument, CoreError, VmmErrorKind};
#[allow(unused_imports)]
use crate::error::{string_view, unit_view, ErrorView};
use crate::names::{
    infer_image_format, oci_source_path, validate_host_path, validate_image_kind,
    validate_resource_name,
};
#[allow(unused_imports)]
use crate::names::{
    accepted_names_are_valid, accepted_names_stay_in_their_directory, host_path_verdict,
    image_format_of, image_kind_of, name_verdict, oci_source, source_paths_carry_one_scheme,
    valid_name,
};
use crate::path::{extension, join};
#[allow(unused_imports)]
use crate::path::{
    climbs, extension_of, file_name_of, is_absolute_path, joined, last_index, last_segment,
};
use crate::records::ImageRecord;
use crate::requests::{ExportImageRequest, ExportImageResult, ImportImageRequest};
use crate::settings::{HuskerCore, Platform, StorageLayout};
use crate::text::str_eq;
#[allow(unused_imports)]
use crate::text::{has_suffix, occurs_at, opt_view, split_on};
use crate::time::Timestamp;

verus! {

/// What is wrong with a request to import an image, or the kind of image that it
/// asks for.
pub open spec fn import_verdict(req: ImportImageRequest, is_symlink: bool) -> Result<
    Seq<char>,
    ErrorView,
> {
    match name_verdict("image"@, req.name@) {
        Err(e) => Err(e),
        Ok(_) => match host_path_verdict("import source"@, req.source_path@, is_symlink) {
            Err(e) => Err(e),
            Ok(_) => image_kind_of(opt_view(req.kind)),
        },
    }
}

/// Check a request to import an image. Returns the kind of image.
pub fn check_import(req: &ImportImageRequest, is_symlink: bool) -> (r: Result<String, CoreError>)
    ensures
        string_view(r) == import_verdict(*req, is_symlink),
{
    match validate_resource_name("image", req.name.as_str()) {
        Err(e) => { return Err(e); },
        Ok(_) => {},
    }
    match validate_host_path("import source", req.source_path.as_str(), is_symlink) {
        Err(e) => { return Err(e); },
        Ok(_) => {},
    }
    validate_image_kind(
        match &req.kind {
            Some(k) => Some(k.as_str()),
            None => None,
        },
    )
}

/// The directory of the catalog.
pub open spec fn catalog_of(images_dir: Seq<char>) -> Seq<char> {
    joined(images_dir, "catalog"@)
}

/// The directory of the catalog.
pub fn catalog_dir(storage: &StorageLayout) -> (r: String)
    ensures
        r@ == catalog_of(storage.images_dir@),
{
    join(storage.images_dir.as_str(), "catalog")
}

/// The name of an imported image's file: it keeps the extension of its source.
pub open spec fn image_file_name(name: Seq<char>, source: Seq<char>) -> Seq<char> {
    name + "."@ + (match extension_of(source) {
        Some(ext) => ext,
        None => "ext4"@,
    })
}

/// The file of an imported image.
pub fn image_file(storage: &StorageLayout, name: &str, source: &str) -> (r: String)
    ensures
        r@ == joined(catalog_of(storage.images_dir@), image_file_name(name@, source@)),
{
    let ext = match extension(source) {
        Some(e) => e,
        None => "ext4".to_owned(),
    };
    join(catalog_dir(storage).as_str(), name.to_owned().concat(".").concat(ext.as_str()).as_str())
}

/// The format of an imported image: the one asked for; else qcow2 for a cloud
/// image, and what the extension of its source says for another.
pub open spec fn chosen_format(req: ImportImageRequest, kind: Seq<char>) -> Seq<char> {
    match req.format {
        Some(f) => f@,
        None => if kind == "cloud-image"@ {
            "qcow2"@
        } else {
            image_format_of(req.source_path@)
        },
    }
}

/// The record of an image that was imported so.
pub open spec fn is_image(
    r: ImageRecord,
    images_dir: Seq<char>,
    req: ImportImageRequest,
    kind: String,
    size_bytes: u64,
    id: u128,
    now: Timestamp,
) -> bool {
    &&& r.id == id && r.name == req.name && r.source_path == req.source_path
    &&& r.kind == kind && r.boot_init is None && r.size_bytes == size_bytes && r.created_at == now
    &&& r.file_path@ == joined(
        catalog_of(images_dir),
        image_file_name(req.name@, req.source_path@),
    )
    &&& r.format@ == chosen_format(req, kind@)
}

/// An image is recorded as what it is: under its name and kind, from its source, as big as
/// its file, in the format that was asked for or else the one that fits; and it says nothing
/// about how to boot it.
pub proof fn images_are_recorded_as_imported(
    r: ImageRecord,
    images_dir: Seq<char>,
    req: ImportImageRequest,
    kind: String,
    size_bytes: u64,
    id: u128,
    now: Timestamp,
)
    requires
        is_image(r, images_dir, req, kind, size_bytes, id, now),
    ensures
        r.id == id && r.name == req.name && r.source_path == req.source_path && r.kind == kind,
        r.size_bytes == size_bytes && r.created_at == now && r.boot_init is None,
        req.format matches Some(f) ==> r.format@ == f@,
        req.format is None && kind@ == "cloud-image"@ ==> r.format@ == "qcow2"@,
        req.format is None && kind@ != "cloud-image"@ ==> r.format@ == image_format_of(
            req.source_path@,
        ),
        has_suffix(r.file_path@, req.name@ + "."@ + image_extension(req.source_path@)),
{
    let file = image_file_name(req.name@, req.source_path@);
    let path = r.file_path@;
    assert(file == req.name@ + "."@ + image_extension(req.source_path@));
    assert(path.subrange(path.len() - file.len(), path.len() as int) =~= file);
}

/// The extension that an imported file keeps, ext4 where its source has none.
pub open spec fn image_extension(source: Seq<char>) -> Seq<char> {
    match extension_of(source) {
        Some(ext) => ext,
        None => "ext4"@,
    }
}

/// An image is imported exactly where its name is usable, its source is a plain absolute
/// path and no symlink, and its kind is known; and then as the kind that was asked for, a
/// rootfs by default.
pub proof fn imports_are_refused_for_cause(req: ImportImageRequest, is_symlink: bool)
    ensures
        import_verdict(req, is_symlink) is Ok <==> valid_name(req.name@) && is_absolute_path(
            req.source_path@,
        ) && !climbs(req.source_path@) && !is_symlink && (req.kind is None || opt_view(req.kind)
            == Some("rootfs"@) || opt_view(req.kind) == Some("cloud-image"@)),
        import_verdict(req, is_symlink) matches Ok(kind) ==> (req.kind is None ==> kind
            == "rootfs"@) && (req.kind is Some ==> opt_view(req.kind) == Some(kind)),
        import_verdict(req, is_symlink) matches Err(e) ==> e is InvalidArgument,
{
    accepted_names_are_valid("image"@, req.name@);
}

/// The record of an image that was just copied into the catalog.
pub fn new_image(
    storage: &StorageLayout,
    req: ImportImageRequest,
    kind: String,
    size_bytes: u64,
    id: u128,
    now: Timestamp,
) -> (r: ImageRecord)
    ensures
        is_image(r, storage.images_dir@, req, kind, size_bytes, id, now),
{
    let file_path = image_file(storage, req.name.as_str(), req.source_path.as_str());
    let format = match req.format {
        Some(f) => f,
        None => {
            if str_eq(kind.as_str(), "cloud-image") {
                "qcow2".to_owned()
            } else {
                infer_image_format(req.source_path.as_str())
            }
        },
    };
    ImageRecord {
        id,
        name: req.name,
        source_path: req.source_path,
        file_path,
        format,
        kind,
        boot_init: None,
        size_bytes,
        created_at: now,
    }
}

/// What is wrong with a request to import an OCI image, if anything.
pub open spec fn oci_import_verdict(core: HuskerCore, platform: Platform, name: Seq<char>) -> Result<
    (),
    ErrorView,
> {
    if platform == Platform::Macos {
        Err(
            ErrorView::Vmm(
                VmmErrorKind::Unsupported,
                "OCI image import is only supported on Linux"@,
            ),
        )
    } else if name_verdict("image"@, name) is Err {
        name_verdict("image"@, name)
    } else if core.embedded_agent@.len() == 0 {
        Err(
            ErrorView::InvalidArgument(
                "OCI import needs the embedded guest agent; build the daemon with `make build-agent` (or set HUSKER_EMBED_AGENT_BIN) first"@,
            ),
        )
    } else {
        Ok(())
    }
}

/// An OCI image is imported exactly where the host can boot it: on Linux, under a usable
/// name, by a daemon that has an agent to put into it.
pub proof fn oci_imports_need_linux_and_an_agent(
    core: HuskerCore,
    platform: Platform,
    name: Seq<char>,
)
    ensures
        oci_import_verdict(core, platform, name) is Ok <==> platform == Platform::Linux
            && valid_name(name) && core.embedded_agent@.len() > 0,
        platform == Platform::Macos ==> oci_import_verdict(core, platform, name)->Err_0 is Vmm,
        platform == Platform::Linux && oci_import_verdict(core, platform, name) is Err
            ==> oci_import_verdict(core, platform, name)->Err_0 is InvalidArgument,
{
    accepted_names_are_valid("image"@, name);
}

/// Check a request to import an OCI image, before its name is looked up.
pub fn check_oci_import(core: &HuskerCore, platform: Platform, name: &str) -> (r: Result<
    (),
    CoreError,
>)
    ensures
        unit_view(r) == oci_import_verdict(*core, platform, name@),
{
    if platform == Platform::Macos {
        return Err(
            CoreError::Vmm(
                VmmErrorKind::Unsupported,
                "OCI image import is only supported on Linux".to_owned(),
            ),
        );
    }
    match validate_resource_name("image", name) {
        Err(e) => { return Err(e); },
        Ok(_) => {},
    }
    if core.embedded_agent.len() == 0 {
        return Err(
            invalid_argument(
                "OCI import needs the embedded guest agent; build the daemon with `make build-agent` (or set HUSKER_EMBED_AGENT_BIN) first",
            ),
        );
    }
    Ok(())
}

/// The file of an image that is made from an OCI image.
pub fn oci_image_file(storage: &StorageLayout, name: &str) -> (r: String)
    ensures
        r@ == joined(catalog_of(storage.images_dir@), name@ + ".ext4"@),
{
    join(catalog_dir(storage).as_str(), name.to_owned().concat(".ext4").as_str())
}

/// The record of an image that was made from an OCI image so.
pub open spec fn is_oci_image(
    r: ImageRecord,
    images_dir: Seq<char>,
    name: Seq<char>,
    reference: Seq<char>,
    size_bytes: u64,
    id: u128,
    now: Timestamp,
) -> bool {
    &&& r.id == id && r.name@ == name && r.size_bytes == size_bytes && r.created_at == now
    &&& r.source_path@ == oci_source(reference)
    &&& r.file_path@ == joined(catalog_of(images_dir), name + ".ext4"@)
    &&& r.format@ == "ext4"@ && r.kind@ == "rootfs"@
    &&& opt_view(r.boot_init) == Some("/usr/local/bin/husker-agent"@)
}

/// What was made from an OCI image is a rootfs that the injected agent boots: a VM that is
/// created from its file is started by the agent. Its source is the reference, behind its
/// scheme.
pub proof fn oci_images_boot_into_the_agent(
    r: ImageRecord,
    images_dir: Seq<char>,
    name: Seq<char>,
    reference: Seq<char>,
    size_bytes: u64,
    id: u128,
    now: Timestamp,
)
    requires
        is_oci_image(r, images_dir, name, reference, size_bytes, id, now),
    ensures
        boot_init_for(seq![r], r.file_path@) == Some("/usr/local/bin/husker-agent"@),
        r.kind@ == "rootfs"@ && r.format@ == "ext4"@,
        r.id == id && r.name@ == name && r.size_bytes == size_bytes && r.created_at == now,
        occurs_at(r.source_path@, "oci://"@, 0),
        r.source_path@ == oci_source(reference),
        has_suffix(r.file_path@, name + ".ext4"@),
{
    source_paths_carry_one_scheme(reference);
    let file = name + ".ext4"@;
    let path = r.file_path@;
    assert(path.subrange(path.len() - file.len(), path.len() as int) =~= file);
}

/// The record of an image that was just made from an OCI image. It has no init of
/// its own, so the injected agent boots it.
pub fn new_oci_image(
    storage: &StorageLayout,
    name: &str,
    reference: &str,
    size_bytes: u64,
    id: u128,
    now: Timestamp,
) -> (r: ImageRecord)
    ensures
        is_oci_image(r, storage.images_dir@, name@, reference@, size_bytes, id, now),
{
    ImageRecord {
        id,
        name: name.to_owned(),
        source_path: oci_source_path(reference),
        file_path: oci_image_file(storage, name),
        format: "ext4".to_owned(),
        kind: "rootfs".to_owned(),
        boot_init: Some("/usr/local/bin/husker-agent".to_owned()),
        size_bytes,
        created_at: now,
    }
}

/// Whether an image can be exported to where a request says.
pub fn check_export(req: &ExportImageRequest, is_symlink: bool) -> (r: Result<(), CoreError>)
    ensures
        unit_view(r) == host_path_verdict(
            "export destination"@,
            req.destination_path@,
            is_symlink,
        ),
{
    validate_host_path("export destination", req.destination_path.as_str(), is_symlink)
}

/// What exporting an image is answered.
pub open spec fn export_of(
    image: ImageRecord,
    req: ExportImageRequest,
    size_bytes: u64,
) -> ExportImageResult {
    ExportImageResult { name: image.name, destination_path: req.destination_path, size_bytes }
}

/// An export tells which image went where, and how much of it.
pub proof fn exports_tell_what_went_where(
    image: ImageRecord,
    req: ExportImageRequest,
    size_bytes: u64,
)
    ensures
        export_of(image, req, size_bytes).name == image.name,
        export_of(image, req, size_bytes).destination_path == req.destination_path,
        export_of(image, req, size_bytes).size_bytes == size_bytes,
{
}

/// What exporting an image is answered.
pub fn exported(image: &ImageRecord, req: ExportImageRequest, size_bytes: u64) -> (r:
    ExportImageResult)
    ensures
        r == export_of(*image, req, size_bytes),
{
    ExportImageResult { name: image.name.clone(), destination_path: req.destination_path, size_bytes }
}

proof fn last_segments_are_segments(segments: Seq<Seq<char>>)
    ensures
        last_segment(segments) is Some ==> segments.contains(last_segment(segments)->0),
    decreases segments.len(),
{
    if segments.len() > 0 {
        let rest = segments.drop_last();
        last_segments_are_segments(rest);
        if last_segment(rest) is Some {
            let i = choose|i: int| 0 <= i < rest.len() && rest[i] == last_segment(rest)->0;
            assert(segments[i] == rest[i]);
        }
        assert(segments[segments.len() - 1] == segments.last());
    }
}

proof fn last_index_bounds(s: Seq<char>, c: char)
    ensures
        -1 <= last_index(s, c) < s.len(),
    decreases s.len(),
{
    if s.len() > 0 {
        last_index_bounds(s.drop_last(), c);
    }
}

/// An imported image's file lies in the catalog itself, whatever its name and its
/// source: the name of the file is no path.
pub proof fn imported_files_stay_in_the_catalog(
    images_dir: Seq<char>,
    req: ImportImageRequest,
    is_symlink: bool,
)
    requires
        import_verdict(req, is_symlink) is Ok,
    ensures
        !image_file_name(req.name@, req.source_path@).contains('/'),
        joined(catalog_of(images_dir), image_file_name(req.name@, req.source_path@))
            == catalog_of(images_dir) + "/"@ + image_file_name(req.name@, req.source_path@),
{
    let name = req.name@;
    let source = req.source_path@;
    accepted_names_stay_in_their_directory("image"@, name);
    reveal_strlit(".");
    reveal_strlit("ext4");
    let ext = match extension_of(source) {
        Some(e) => e,
        None => "ext4"@,
    };
    if extension_of(source) is Some {
        let segments = split_on(source, '/');
        last_segments_are_segments(segments);
        let f = file_name_of(source)->0;
        let i = choose|i: int| 0 <= i < segments.len() && segments[i] == f;
        crate::path::pieces_hold_no_separator(source, '/', i);
        last_index_bounds(f, '.');
        assert forall|j: int| 0 <= j < ext.len() implies ext[j] != '/' by {
            assert(ext[j] == f[j + last_index(f, '.') + 1]);
        }
    }
    let file = image_file_name(name, source);
    assert forall|j: int| 0 <= j < file.len() implies file[j] != '/' by {
        if j < name.len() {
            assert(file[j] == name[j]);
            assert(name.contains(name[j]));
        } else if j == name.len() {
            assert(file[j] == "."@[0]);
        } else {
            assert(file[j] == ext[j - name.len() - 1]);
        }
    }
    reveal_strlit("catalog");
    assert("catalog"@.last() == 'g' && "catalog"@[0] == 'c');
    assert(catalog_of(images_dir).last() == 'g');
}

} // verus!
