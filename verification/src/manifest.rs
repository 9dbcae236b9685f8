//! The manifest of a suspend slot: what a suspended VM was captured with.

use vstd::prelude::*;

use crate::error::CoreError;
#[allow(unused_imports)]
use crate::error::{unit_view, ErrorView};
use crate::records::VmRecord;
use crate::text::str_eq;
#[allow(unused_imports)]
use crate::text::{has_suffix, occurs_at, stands_between};
use vstd::string::*;

verus! {

/// The value of a manifest's field.
#[derive(Debug)]
pub enum Field {
    Text(String),
    Number(u32),
}

/// A [`Field`] with its text as a sequence of characters.
pub ghost enum FieldView {
    Text(Seq<char>),
    Number(u32),
}

impl View for Field {
    type V = FieldView;

    open spec fn view(&self) -> FieldView {
        match *self {
            Field::Text(t) => FieldView::Text(t@),
            Field::Number(n) => FieldView::Number(n),
        }
    }
}

/// The view of a list of fields.
pub open spec fn field_views(v: Seq<(String, Field)>) -> Seq<(Seq<char>, FieldView)> {
    v.map_values(|f: (String, Field)| (f.0@, f.1@))
}

/// No two fields share their name.
pub open spec fn names_differ(fields: Seq<(Seq<char>, FieldView)>) -> bool {
    forall|i: int, j: int|
        0 <= i < fields.len() && 0 <= j < fields.len() && (#[trigger] fields[i]).0 == (
        #[trigger] fields[j]).0 ==> i == j
}

/// What `serde_json::to_vec_pretty` makes of an object with these fields.
pub uninterp spec fn object_json(fields: Seq<(Seq<char>, FieldView)>) -> Seq<u8>;

/// What `serde_json::from_slice` and `Value::get` find under `key` in a document:
/// the text there, nothing where there is no text, or why the document cannot be
/// read.
pub uninterp spec fn text_in_json(json: Seq<u8>, key: Seq<char>) -> Result<
    Option<Seq<char>>,
    Seq<char>,
>;

/// Every text among the fields is found in the document under its name.
pub open spec fn texts_read_back(json: Seq<u8>, fields: Seq<(Seq<char>, FieldView)>) -> bool {
    forall|i: int|
        0 <= i < fields.len() && (#[trigger] fields[i]).1 is Text ==> text_in_json(
            json,
            fields[i].0,
        ) == Ok::<Option<Seq<char>>, Seq<char>>(Some(fields[i].1->Text_0))
}

/// `serde_json::to_vec_pretty` on an object with these fields, which it always can
/// write. Where no two fields share their name, reading the document back finds
/// each text under its name.
#[verifier::external_body]
fn write_object(fields: Vec<(String, Field)>) -> (r: Vec<u8>)
    ensures
        r@ == object_json(field_views(fields@)),
        names_differ(field_views(fields@)) ==> texts_read_back(r@, field_views(fields@)),
{
    let convert = |f: (String, Field)| match f.1 {
        Field::Text(t) => (f.0, serde_json::Value::from(t)),
        Field::Number(n) => (f.0, serde_json::Value::from(n)),
    };
    let object: serde_json::Map<String, serde_json::Value> = fields.into_iter().map(convert).collect();
    serde_json::to_vec_pretty(&object).expect("manifest serializes")
}

/// The view of what was found in a document.
pub open spec fn found_view(r: Result<Option<String>, String>) -> Result<
    Option<Seq<char>>,
    Seq<char>,
> {
    match r {
        Ok(o) => Ok(crate::text::opt_view(o)),
        Err(e) => Err(e@),
    }
}

/// `serde_json::from_slice` on a document, then `Value::get` and `Value::as_str`
/// on what it holds under `key`.
#[verifier::external_body]
fn read_text(json: &Vec<u8>, key: &str) -> (r: Result<Option<String>, String>)
    ensures
        found_view(r) == text_in_json(json@, key@),
{
    match serde_json::from_slice::<serde_json::Value>(json) {
        Ok(v) => Ok(v.get(key).and_then(|x| x.as_str()).map(|s| s.to_string())),
        Err(e) => Err(e.to_string()),
    }
}

/// The fields of a suspended VM's manifest.
pub open spec fn manifest_fields(
    record: VmRecord,
    backend: Seq<char>,
    vmm_version: Seq<char>,
) -> Seq<(Seq<char>, FieldView)> {
    seq![
        ("kind"@, FieldView::Text("full"@)),
        ("backend"@, FieldView::Text(backend)),
        ("vmm_version"@, FieldView::Text(vmm_version)),
        ("vcpu_count"@, FieldView::Number(record.vcpu_count)),
        ("mem_size_mib"@, FieldView::Number(record.mem_size_mib)),
        ("vsock_cid"@, FieldView::Number(record.vsock_cid)),
        ("rootfs_path"@, FieldView::Text(record.rootfs_path@)),
    ]
}

/// No two fields of a manifest share their name.
proof fn manifest_names_differ(record: VmRecord, backend: Seq<char>, vmm_version: Seq<char>)
    ensures
        names_differ(manifest_fields(record, backend, vmm_version)),
{
    reveal_strlit("kind");
    reveal_strlit("backend");
    reveal_strlit("vmm_version");
    reveal_strlit("vcpu_count");
    reveal_strlit("mem_size_mib");
    reveal_strlit("vsock_cid");
    reveal_strlit("rootfs_path");
    assert("kind"@.len() == 4 && "backend"@.len() == 7 && "vcpu_count"@.len() == 10);
    assert("mem_size_mib"@.len() == 12 && "vsock_cid"@.len() == 9);
    assert("vmm_version"@[0] == 'v' && "rootfs_path"@[0] == 'r');
    let f = manifest_fields(record, backend, vmm_version);
    assert forall|i: int, j: int|
        0 <= i < f.len() && 0 <= j < f.len() && (#[trigger] f[i]).0 == (#[trigger] f[j]).0 implies i
        == j by {
        assert(f[i].0.len() == f[j].0.len());
        assert(f[i].0[0] == f[j].0[0]);
    }
}

/// The manifest of a VM that is being suspended: its shape, and the backend and
/// version that captured it. Reading it back names that backend.
pub fn suspend_manifest(record: &VmRecord, backend: String, vmm_version: String) -> (r: Vec<u8>)
    ensures
        r@ == object_json(manifest_fields(*record, backend@, vmm_version@)),
        text_in_json(r@, "backend"@) == Ok::<Option<Seq<char>>, Seq<char>>(Some(backend@)),
        text_in_json(r@, "vmm_version"@) == Ok::<Option<Seq<char>>, Seq<char>>(Some(vmm_version@)),
        text_in_json(r@, "rootfs_path"@) == Ok::<Option<Seq<char>>, Seq<char>>(
            Some(record.rootfs_path@),
        ),
        text_in_json(r@, "kind"@) == Ok::<Option<Seq<char>>, Seq<char>>(Some("full"@)),
{
    let mut fields: Vec<(String, Field)> = Vec::new();
    fields.push(("kind".to_owned(), Field::Text("full".to_owned())));
    fields.push(("backend".to_owned(), Field::Text(backend)));
    fields.push(("vmm_version".to_owned(), Field::Text(vmm_version)));
    fields.push(("vcpu_count".to_owned(), Field::Number(record.vcpu_count)));
    fields.push(("mem_size_mib".to_owned(), Field::Number(record.mem_size_mib)));
    fields.push(("vsock_cid".to_owned(), Field::Number(record.vsock_cid)));
    fields.push(("rootfs_path".to_owned(), Field::Text(record.rootfs_path.clone())));
    proof {
        assert(field_views(fields@) =~= manifest_fields(*record, backend@, vmm_version@));
        manifest_names_differ(*record, backend@, vmm_version@);
        assert(field_views(fields@)[1].1 == FieldView::Text(backend@));
        assert(field_views(fields@)[1].0 == "backend"@);
        assert(field_views(fields@)[0].1 == FieldView::Text("full"@));
        assert(field_views(fields@)[2].1 == FieldView::Text(vmm_version@));
        assert(field_views(fields@)[6].1 == FieldView::Text(record.rootfs_path@));
    }
    write_object(fields)
}

/// Whether a VM may be restored from a slot, by what its manifest says under
/// `backend`: it has to name the backend that the VM is recorded with.
pub open spec fn backend_verdict(
    found: Result<Option<Seq<char>>, Seq<char>>,
    vmm: Seq<char>,
) -> Result<(), ErrorView> {
    match found {
        Err(e) => Err(ErrorView::InvalidArgument("invalid suspend manifest: "@ + e)),
        Ok(named) => {
            let backend = match named {
                Some(b) => b,
                None => ""@,
            };
            if backend == vmm {
                Ok(())
            } else {
                Err(
                    ErrorView::InvalidArgument(
                        "suspend snapshot backend '"@ + backend + "' does not match VM backend '"@
                            + vmm + "'"@,
                    ),
                )
            }
        },
    }
}

/// Judge what a manifest says under `backend`.
pub fn judge_backend(found: Result<Option<String>, String>, vmm: &str) -> (r: Result<
    (),
    CoreError,
>)
    ensures
        unit_view(r) == backend_verdict(found_view(found), vmm@),
{
    match found {
        Err(e) => Err(
            CoreError::InvalidArgument(
                "invalid suspend manifest: ".to_owned().concat(e.as_str()),
            ),
        ),
        Ok(named) => {
            let backend = match named {
                Some(b) => b,
                None => "".to_owned(),
            };
            if str_eq(backend.as_str(), vmm) {
                Ok(())
            } else {
                Err(
                    CoreError::InvalidArgument(
                        "suspend snapshot backend '".to_owned().concat(backend.as_str()).concat(
                            "' does not match VM backend '",
                        ).concat(vmm).concat("'"),
                    ),
                )
            }
        },
    }
}

/// Whether a VM may be restored from the slot with this manifest.
pub fn check_manifest(manifest: &Vec<u8>, vmm: &str) -> (r: Result<(), CoreError>)
    ensures
        unit_view(r) == backend_verdict(text_in_json(manifest@, "backend"@), vmm@),
{
    judge_backend(read_text(manifest, "backend"), vmm)
}

/// A VM that the recorded backend has captured can be restored from its slot; one
/// that another backend captured cannot.
pub proof fn captured_vms_can_be_restored(manifest: Seq<u8>, backend: Seq<char>, vmm: Seq<char>)
    requires
        text_in_json(manifest, "backend"@) == Ok::<Option<Seq<char>>, Seq<char>>(Some(backend)),
    ensures
        backend_verdict(text_in_json(manifest, "backend"@), vmm) is Ok <==> backend == vmm,
{
}

/// A manifest tells each part of the VM's shape under its own name, and no name twice: what
/// stands under a name is that part and nothing else.
pub proof fn manifests_tell_the_shape_of_their_vm(
    record: VmRecord,
    backend: Seq<char>,
    vmm_version: Seq<char>,
    i: int,
)
    requires
        0 <= i < manifest_fields(record, backend, vmm_version).len(),
    ensures
        ({
            let fields = manifest_fields(record, backend, vmm_version);
            let (name, value) = fields[i];
            &&& fields.len() == 7
            &&& name == "kind"@ ==> value == FieldView::Text("full"@)
            &&& name == "backend"@ ==> value == FieldView::Text(backend)
            &&& name == "vmm_version"@ ==> value == FieldView::Text(vmm_version)
            &&& name == "vcpu_count"@ ==> value == FieldView::Number(record.vcpu_count)
            &&& name == "mem_size_mib"@ ==> value == FieldView::Number(record.mem_size_mib)
            &&& name == "vsock_cid"@ ==> value == FieldView::Number(record.vsock_cid)
            &&& name == "rootfs_path"@ ==> value == FieldView::Text(record.rootfs_path@)
            &&& name == "kind"@ || name == "backend"@ || name == "vmm_version"@ || name
                == "vcpu_count"@ || name == "mem_size_mib"@ || name == "vsock_cid"@ || name
                == "rootfs_path"@
            &&& names_differ(fields)
        }),
{
    manifest_names_differ(record, backend, vmm_version);
    let f = manifest_fields(record, backend, vmm_version);
    assert(f[0].0 == "kind"@ && f[1].0 == "backend"@ && f[2].0 == "vmm_version"@ && f[3].0
        == "vcpu_count"@ && f[4].0 == "mem_size_mib"@ && f[5].0 == "vsock_cid"@ && f[6].0
        == "rootfs_path"@);
}

/// A slot whose manifest cannot be read is refused with the reason, one that names no
/// backend is refused to every VM that has one, and one that names another is refused with
/// both names.
pub proof fn slots_are_refused_with_the_reason(
    found: Result<Option<Seq<char>>, Seq<char>>,
    vmm: Seq<char>,
)
    ensures
        backend_verdict(found, vmm) matches Err(e) ==> e is InvalidArgument,
        found matches Err(why) ==> backend_verdict(found, vmm) is Err && has_suffix(
            backend_verdict(found, vmm)->Err_0->InvalidArgument_0,
            why,
        ),
        found == Ok::<Option<Seq<char>>, Seq<char>>(None) && vmm.len() > 0 ==> backend_verdict(
            found,
            vmm,
        ) is Err,
        found matches Ok(Some(backend)) ==> (backend_verdict(found, vmm) is Ok <==> backend == vmm)
            && (backend != vmm ==> occurs_at(
            backend_verdict(found, vmm)->Err_0->InvalidArgument_0,
            backend,
            "suspend snapshot backend '"@.len() as int,
        ) && has_suffix(backend_verdict(found, vmm)->Err_0->InvalidArgument_0, vmm + "'"@)),
{
    reveal_strlit("");
    match found {
        Err(why) => {
            let t = "invalid suspend manifest: "@ + why;
            assert(t.subrange(t.len() - why.len(), t.len() as int) =~= why);
        },
        Ok(None) => {},
        Ok(Some(backend)) => {
            let front = "suspend snapshot backend '"@;
            let middle = "' does not match VM backend '"@;
            let t = front + backend + middle + vmm + "'"@;
            let end = vmm + "'"@;
            stands_between(front, backend, middle + vmm + "'"@);
            assert(t =~= front + backend + (middle + vmm + "'"@));
            assert(t.subrange(t.len() - end.len(), t.len() as int) =~= end);
        },
    }
}

} // verus!
