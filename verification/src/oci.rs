//! Turning a flattened OCI image into a bootable one: what is accepted, how large it
//! gets, and where the guest runtime is put.

use vstd::prelude::*;
use vstd::string::*;

use crate::error::CoreError;
#[allow(unused_imports)]
use crate::error::ErrorView;
use crate::path::{is_absolute, join, naming_parts, without_root};
#[allow(unused_imports)]
use crate::path::{
    is_absolute_path, joined, joining_adds_one_segment, naming_segments, segments_of, unrooted,
};
use crate::text::{decimal_string, str_eq};
#[allow(unused_imports)]
use crate::text::{decimal, has_suffix, occurs, occurs_at, opt_view, split_on, stands_at_the_end, stands_between, views};

verus! {

/// Maximum apparent size accepted from a flattened OCI filesystem tree: 8 GiB.
/// This is a decompression-bomb guard in addition to the compressed blob cap.
pub const MAX_ROOTFS_BYTES: u64 = 8_589_934_592;

/// The room that an image gets at least: 512 MiB.
pub const MIN_HEADROOM: u64 = 536_870_912;

/// What the metadata and the journal of the filesystem take: 64 MiB.
pub const EXT4_BASE: u64 = 67_108_864;

/// A request to make an image.
#[derive(Debug, Clone, Copy)]
pub struct OciMaterializationRequest<'a> {
    pub reference: &'a str,
    pub destination: &'a str,
    pub guest_agent: &'a [u8],
}

/// An image that was made.
#[derive(Debug, Clone, Copy, PartialEq, Eq, Structural)]
pub struct MaterializedOciImage {
    pub size_bytes: u64,
}

/// Why an image could not be made.
#[derive(Debug)]
pub enum OciMaterializationError {
    MissingGuestAgent,
    UnsupportedArchitecture(String),
    WorkDirectory(String),
    Pull { reference: String, source: String },
    Runtime(String),
    SizeTask(String),
    RootfsTooLarge { actual: u64, limit: u64 },
    Storage(String),
}

/// An [`OciMaterializationError`] with its texts as sequences of characters.
pub ghost enum OciErrorView {
    MissingGuestAgent,
    UnsupportedArchitecture(Seq<char>),
    WorkDirectory(Seq<char>),
    Pull { reference: Seq<char>, source: Seq<char> },
    Runtime(Seq<char>),
    SizeTask(Seq<char>),
    RootfsTooLarge { actual: u64, limit: u64 },
    Storage(Seq<char>),
}

impl View for OciMaterializationError {
    type V = OciErrorView;

    open spec fn view(&self) -> OciErrorView {
        match *self {
            OciMaterializationError::MissingGuestAgent => OciErrorView::MissingGuestAgent,
            OciMaterializationError::UnsupportedArchitecture(a) => {
                OciErrorView::UnsupportedArchitecture(a@)
            },
            OciMaterializationError::WorkDirectory(a) => OciErrorView::WorkDirectory(a@),
            OciMaterializationError::Pull { reference, source } => OciErrorView::Pull {
                reference: reference@,
                source: source@,
            },
            OciMaterializationError::Runtime(a) => OciErrorView::Runtime(a@),
            OciMaterializationError::SizeTask(a) => OciErrorView::SizeTask(a@),
            OciMaterializationError::RootfsTooLarge { actual, limit } => {
                OciErrorView::RootfsTooLarge { actual, limit }
            },
            OciMaterializationError::Storage(a) => OciErrorView::Storage(a@),
        }
    }
}

/// What an error says.
pub open spec fn oci_message(e: OciErrorView) -> Seq<char> {
    match e {
        OciErrorView::MissingGuestAgent => "OCI import requires a non-empty embedded guest agent"@,
        OciErrorView::UnsupportedArchitecture(a) => {
            "unsupported host architecture for OCI import: "@ + a
        },
        OciErrorView::WorkDirectory(a) => "create OCI work directory: "@ + a,
        OciErrorView::Pull { reference, source } => "pull "@ + reference + ": "@ + source,
        OciErrorView::Runtime(a) => "inject guest runtime: "@ + a,
        OciErrorView::SizeTask(a) => "measure extracted rootfs: "@ + a,
        OciErrorView::RootfsTooLarge { actual, limit } => "imported rootfs is "@ + decimal(
            actual as nat,
        ) + " bytes, over the "@ + decimal(limit as nat) + "-byte limit"@,
        OciErrorView::Storage(a) => a,
    }
}

impl OciMaterializationError {
    /// What the error says.
    pub fn message(&self) -> (r: String)
        ensures
            r@ == oci_message(self@),
    {
        match self {
            OciMaterializationError::MissingGuestAgent => {
                "OCI import requires a non-empty embedded guest agent".to_owned()
            },
            OciMaterializationError::UnsupportedArchitecture(a) => {
                "unsupported host architecture for OCI import: ".to_owned().concat(a.as_str())
            },
            OciMaterializationError::WorkDirectory(a) => {
                "create OCI work directory: ".to_owned().concat(a.as_str())
            },
            OciMaterializationError::Pull { reference, source } => {
                "pull ".to_owned().concat(reference.as_str()).concat(": ").concat(source.as_str())
            },
            OciMaterializationError::Runtime(a) => {
                "inject guest runtime: ".to_owned().concat(a.as_str())
            },
            OciMaterializationError::SizeTask(a) => {
                "measure extracted rootfs: ".to_owned().concat(a.as_str())
            },
            OciMaterializationError::RootfsTooLarge { actual, limit } => {
                "imported rootfs is ".to_owned().concat(decimal_string(*actual).as_str()).concat(
                    " bytes, over the ",
                ).concat(decimal_string(*limit).as_str()).concat("-byte limit")
            },
            OciMaterializationError::Storage(a) => a.clone(),
        }
    }
}

/// What failing to make an image is reported as.
pub open spec fn oci_failure(e: OciErrorView) -> ErrorView {
    match e {
        OciErrorView::Pull { .. } | OciErrorView::RootfsTooLarge { .. }
        | OciErrorView::MissingGuestAgent | OciErrorView::UnsupportedArchitecture(_) => {
            ErrorView::InvalidArgument(oci_message(e))
        },
        OciErrorView::WorkDirectory(_) | OciErrorView::Runtime(_) | OciErrorView::SizeTask(_) => {
            ErrorView::Io(oci_message(e))
        },
        OciErrorView::Storage(text) => ErrorView::Storage(text),
    }
}

/// What the caller can mend, another reference or another host, is an invalid argument; what
/// the host failed at is not. Whatever is reported says what the failure said.
pub proof fn oci_failures_are_told_apart(e: OciErrorView)
    ensures
        oci_failure(e) is InvalidArgument <==> e is Pull || e is RootfsTooLarge
            || e is MissingGuestAgent || e is UnsupportedArchitecture,
        oci_failure(e) is Io <==> e is WorkDirectory || e is Runtime || e is SizeTask,
        oci_failure(e) is Storage <==> e is Storage,
        oci_failure(e) matches ErrorView::InvalidArgument(m) ==> m == oci_message(e),
        oci_failure(e) matches ErrorView::Io(m) ==> m == oci_message(e),
        oci_failure(e) matches ErrorView::Storage(m) ==> m == oci_message(e),
{
}

/// A message holds what the failure is about: the reference and the reason of a pull, both
/// sizes of a tree that is too large, in this order, and the reason of any other.
pub proof fn oci_messages_tell_what_happened(
    reference: Seq<char>,
    reason: Seq<char>,
    actual: u64,
    limit: u64,
)
    ensures
        occurs(oci_message(OciErrorView::Pull { reference, source: reason }), reference),
        has_suffix(oci_message(OciErrorView::Pull { reference, source: reason }), reason),
        occurs_at(
            oci_message(OciErrorView::RootfsTooLarge { actual, limit }),
            decimal(actual as nat),
            "imported rootfs is "@.len() as int,
        ),
        occurs_at(
            oci_message(OciErrorView::RootfsTooLarge { actual, limit }),
            decimal(limit as nat),
            ("imported rootfs is "@ + decimal(actual as nat) + " bytes, over the "@).len() as int,
        ),
        has_suffix(oci_message(OciErrorView::UnsupportedArchitecture(reason)), reason),
        has_suffix(oci_message(OciErrorView::WorkDirectory(reason)), reason),
        has_suffix(oci_message(OciErrorView::Runtime(reason)), reason),
        has_suffix(oci_message(OciErrorView::SizeTask(reason)), reason),
        oci_message(OciErrorView::Storage(reason)) == reason,
{
    let pull = oci_message(OciErrorView::Pull { reference, source: reason });
    stands_between("pull "@, reference, ": "@ + reason);
    assert(pull =~= "pull "@ + reference + (": "@ + reason));
    stands_at_the_end("pull "@ + reference + ": "@, reason);
    let large = oci_message(OciErrorView::RootfsTooLarge { actual, limit });
    let a = decimal(actual as nat);
    let l = decimal(limit as nat);
    let front = "imported rootfs is "@;
    let middle = " bytes, over the "@;
    stands_between(front, a, middle + l + "-byte limit"@);
    assert(large =~= front + a + (middle + l + "-byte limit"@));
    stands_between(front + a + middle, l, "-byte limit"@);
    stands_at_the_end("unsupported host architecture for OCI import: "@, reason);
    stands_at_the_end("create OCI work directory: "@, reason);
    stands_at_the_end("inject guest runtime: "@, reason);
    stands_at_the_end("measure extracted rootfs: "@, reason);
}

/// What failing to make an image is reported as: what the caller can mend is an
/// invalid argument.
pub fn map_oci_materialization_error(error: OciMaterializationError) -> (r: CoreError)
    ensures
        r@ == oci_failure(error@),
{
    let text = error.message();
    match error {
        OciMaterializationError::Pull { .. } => CoreError::InvalidArgument(text),
        OciMaterializationError::RootfsTooLarge { .. } => CoreError::InvalidArgument(text),
        OciMaterializationError::MissingGuestAgent => CoreError::InvalidArgument(text),
        OciMaterializationError::UnsupportedArchitecture(_) => CoreError::InvalidArgument(text),
        OciMaterializationError::WorkDirectory(_) => CoreError::Io(text),
        OciMaterializationError::Runtime(_) => CoreError::Io(text),
        OciMaterializationError::SizeTask(_) => CoreError::Io(text),
        OciMaterializationError::Storage(t) => CoreError::Storage(t),
    }
}

/// What OCI calls an architecture.
pub open spec fn architecture_of(host: Seq<char>) -> Result<Seq<char>, OciErrorView> {
    if host == "x86_64"@ {
        Ok("amd64"@)
    } else if host == "aarch64"@ {
        Ok("arm64"@)
    } else {
        Err(OciErrorView::UnsupportedArchitecture(host))
    }
}

/// The two architectures that images are pulled for are not mixed up, and any other is
/// refused by its name.
pub proof fn architectures_are_not_mixed_up(host: Seq<char>)
    ensures
        host == "x86_64"@ ==> architecture_of(host) == Ok::<Seq<char>, OciErrorView>("amd64"@),
        host == "aarch64"@ ==> architecture_of(host) == Ok::<Seq<char>, OciErrorView>("arm64"@),
        host != "x86_64"@ && host != "aarch64"@ ==> architecture_of(host) == Err::<
            Seq<char>,
            OciErrorView,
        >(OciErrorView::UnsupportedArchitecture(host)),
{
    reveal_strlit("x86_64");
    reveal_strlit("aarch64");
    assert("x86_64"@.len() != "aarch64"@.len());
}

/// What is wrong with a request for an image, or the architecture to pull.
pub open spec fn request_verdict(
    agent: Seq<u8>,
    destination: Seq<char>,
    destination_exists: bool,
    host: Seq<char>,
) -> Result<Seq<char>, OciErrorView> {
    if agent.len() == 0 {
        Err(OciErrorView::MissingGuestAgent)
    } else if destination_exists {
        Err(OciErrorView::Storage("OCI image destination already exists: "@ + destination))
    } else {
        architecture_of(host)
    }
}

/// An image is made exactly where there is an agent to put into it, nothing at its
/// destination, and a host that it can be pulled for. What is at the destination is told by
/// its path.
pub proof fn images_are_not_written_over(
    agent: Seq<u8>,
    destination: Seq<char>,
    destination_exists: bool,
    host: Seq<char>,
)
    ensures
        request_verdict(agent, destination, destination_exists, host) is Ok <==> agent.len() > 0
            && !destination_exists && (host == "x86_64"@ || host == "aarch64"@),
        agent.len() == 0 ==> request_verdict(agent, destination, destination_exists, host)->Err_0
            is MissingGuestAgent,
        agent.len() > 0 && destination_exists ==> request_verdict(
            agent,
            destination,
            destination_exists,
            host,
        )->Err_0 is Storage && has_suffix(
            request_verdict(agent, destination, destination_exists, host)->Err_0->Storage_0,
            destination,
        ),
{
    stands_at_the_end("OCI image destination already exists: "@, destination);
}

/// The size that an image gets, or that its tree is too large.
pub open spec fn sizing(tree_size: u64) -> Result<int, OciErrorView> {
    if tree_size > MAX_ROOTFS_BYTES {
        Err(OciErrorView::RootfsTooLarge { actual: tree_size, limit: MAX_ROOTFS_BYTES })
    } else {
        Ok(image_size(tree_size as int))
    }
}

/// The view of the size of an image.
pub open spec fn sizing_view(r: Result<MaterializedOciImage, OciMaterializationError>) -> Result<
    int,
    OciErrorView,
> {
    match r {
        Ok(image) => Ok(image.size_bytes as int),
        Err(e) => Err(e@),
    }
}

/// A tree of up to 8 GiB is taken, and a larger one is refused with both sizes. A tree of up
/// to 512 MiB gets 576 MiB on top; a larger one is doubled and gets 64 MiB.
pub proof fn images_are_sized_by_their_tree(tree_size: u64)
    ensures
        sizing(tree_size) is Ok <==> tree_size <= 8 * 1024 * 1024 * 1024,
        sizing(tree_size) matches Err(e) ==> e is RootfsTooLarge && e->actual == tree_size
            && e->limit == 8 * 1024 * 1024 * 1024,
        tree_size <= 512 * 1024 * 1024 ==> sizing(tree_size) == Ok::<int, OciErrorView>(
            tree_size + 576 * 1024 * 1024,
        ),
        512 * 1024 * 1024 <= tree_size <= 8 * 1024 * 1024 * 1024 ==> sizing(tree_size) == Ok::<
            int,
            OciErrorView,
        >(2 * tree_size + 64 * 1024 * 1024),
{
}

/// The view of an architecture, or of why there is none.
pub open spec fn architecture_view(r: Result<&'static str, OciMaterializationError>) -> Result<
    Seq<char>,
    OciErrorView,
> {
    match r {
        Ok(a) => Ok(a@),
        Err(e) => Err(e@),
    }
}

/// What OCI calls the architecture of this host.
pub fn oci_architecture(host_architecture: &str) -> (r: Result<
    &'static str,
    OciMaterializationError,
>)
    ensures
        architecture_view(r) == architecture_of(host_architecture@),
{
    if str_eq(host_architecture, "x86_64") {
        Ok("amd64")
    } else if str_eq(host_architecture, "aarch64") {
        Ok("arm64")
    } else {
        Err(OciMaterializationError::UnsupportedArchitecture(host_architecture.to_owned()))
    }
}

/// Makes images on this host.
#[derive(Debug, Clone, Copy)]
pub struct LocalOciImageMaterializer;

impl Default for LocalOciImageMaterializer {
    fn default() -> (r: LocalOciImageMaterializer)
        ensures
            r == LocalOciImageMaterializer,
    {
        LocalOciImageMaterializer
    }
}

impl LocalOciImageMaterializer {
    /// Check a request before anything is pulled or written. Returns the architecture
    /// to pull. There is nothing to boot without an agent, and what is at the
    /// destination stays.
    pub fn check_request(
        &self,
        request: &OciMaterializationRequest<'_>,
        destination_exists: bool,
        host_architecture: &str,
    ) -> (r: Result<&'static str, OciMaterializationError>)
        ensures
            architecture_view(r) == request_verdict(
                request.guest_agent@,
                request.destination@,
                destination_exists,
                host_architecture@,
            ),
    {
        if request.guest_agent.len() == 0 {
            return Err(OciMaterializationError::MissingGuestAgent);
        }
        if destination_exists {
            return Err(
                OciMaterializationError::Storage(
                    "OCI image destination already exists: ".to_owned().concat(
                        request.destination,
                    ),
                ),
            );
        }
        oci_architecture(host_architecture)
    }

    /// Decide on the size of an image, by that of its tree. A tree that is too large
    /// is refused before anything is built.
    pub fn size_image(&self, tree_size: u64) -> (r: Result<
        MaterializedOciImage,
        OciMaterializationError,
    >)
        ensures
            sizing_view(r) == sizing(tree_size),
    {
        if tree_size > MAX_ROOTFS_BYTES {
            return Err(
                OciMaterializationError::RootfsTooLarge {
                    actual: tree_size,
                    limit: MAX_ROOTFS_BYTES,
                },
            );
        }
        Ok(MaterializedOciImage { size_bytes: rootfs_image_size(tree_size) })
    }
}

/// The size of an image whose tree takes this much.
pub open spec fn image_size(tree: int) -> int {
    tree + (if tree >= MIN_HEADROOM {
        tree
    } else {
        MIN_HEADROOM as int
    }) + EXT4_BASE
}

/// Size an imported OCI rootfs: the tree itself, growth headroom (the tree
/// again, floored at 512 MiB), and a 64 MiB base for ext4 metadata/journal.
pub fn rootfs_image_size(tree_size: u64) -> (r: u64)
    requires
        image_size(tree_size as int) <= u64::MAX,
    ensures
        r == image_size(tree_size as int),
{
    let headroom: u64 = if tree_size >= MIN_HEADROOM {
        tree_size
    } else {
        MIN_HEADROOM
    };
    tree_size + headroom + EXT4_BASE
}

/// An image always has room to grow: at least as much as its tree takes, and never
/// less than the least headroom.
pub proof fn images_have_room(tree: int)
    requires
        tree >= 0,
    ensures
        image_size(tree) >= 2 * tree,
        image_size(tree) - tree >= MIN_HEADROOM + EXT4_BASE,
{
}

// ---------------------------------------------------------------------------
// Where the guest runtime is put
// ---------------------------------------------------------------------------

/// `path` leads to `root` or to something below it: both begin at the root of the
/// file system or neither does, the segments of `root` come first, and nothing climbs.
pub open spec fn lies_within(root: Seq<char>, path: Seq<char>) -> bool {
    let r = segments_of(root);
    let p = segments_of(path);
    &&& is_absolute_path(root) == is_absolute_path(path)
    &&& r.is_prefix_of(p)
    &&& forall|i: int| r.len() <= i < p.len() ==> #[trigger] p[i] != ".."@
}

/// Whether a path leads to a directory or to something below it.
pub fn is_within(root: &str, path: &str) -> (b: bool)
    ensures
        b == lies_within(root@, path@),
{
    let r = naming_parts(root);
    let p = naming_parts(path);
    let ghost rs = segments_of(root@);
    let ghost ps = segments_of(path@);
    if is_absolute(root) != is_absolute(path) || r.len() > p.len() {
        return false;
    }
    proof {
        assert(views(r@).len() == r@.len() && views(p@).len() == p@.len());
    }
    let mut i: usize = 0;
    while i < p.len()
        invariant
            i <= p@.len(),
            r@.len() <= p@.len(),
            views(r@) == rs,
            rs == segments_of(root@),
            views(p@) == ps,
            ps == segments_of(path@),
            rs.len() == r@.len(),
            ps.len() == p@.len(),
            forall|k: int| 0 <= k < i && k < rs.len() ==> rs[k] == ps[k],
            forall|k: int| rs.len() <= k < i ==> #[trigger] ps[k] != ".."@,
        decreases p.len() - i,
    {
        proof {
            assert(ps[i as int] == p@[i as int]@);
        }
        if i < r.len() {
            proof {
                assert(rs[i as int] == r@[i as int]@);
            }
            if !str_eq(r[i].as_str(), p[i].as_str()) {
                proof {
                    if rs.is_prefix_of(ps) {
                        assert(ps.subrange(0, rs.len() as int)[i as int] == ps[i as int]);
                    }
                }
                return false;
            }
        } else if str_eq(p[i].as_str(), "..") {
            return false;
        }
        i += 1;
    }
    proof {
        assert(rs =~= ps.subrange(0, rs.len() as int));
    }
    true
}

/// A directory holds itself and whatever can be named in it, but nothing above it; and what
/// lies within a directory of it lies within it too.
pub proof fn directories_hold_what_is_named_in_them(
    root: Seq<char>,
    directory: Seq<char>,
    name: Seq<char>,
)
    ensures
        lies_within(root, root),
        lies_within(root, directory) && plain_name(name) ==> lies_within(
            root,
            joined(directory, name),
        ),
        !lies_within(root, joined(root, ".."@)),
        plain_name(name) ==> !lies_within(joined(root, name), root),
{
    root_is_within(root);
    if lies_within(root, directory) && plain_name(name) {
        entries_are_within(root, directory, name);
    }
    reveal_strlit("..");
    reveal_strlit(".");
    assert(!".."@.contains('/'));
    assert(".."@.len() == 2);
    joining_adds_one_segment(root, ".."@);
    let up = segments_of(joined(root, ".."@));
    assert(up[segments_of(root).len() as int] == ".."@);
    if plain_name(name) {
        joining_adds_one_segment(root, name);
    }
}

/// Where a link inside an image leads, as the guest sees it.
pub open spec fn link_leads_to(root: Seq<char>, directory: Seq<char>, target: Seq<char>) -> Seq<
    char,
> {
    if is_absolute_path(target) {
        joined(root, unrooted(target))
    } else {
        joined(directory, target)
    }
}

proof fn unrooting_leaves_no_root(path: Seq<char>)
    ensures
        !is_absolute_path(unrooted(path)),
    decreases path.len(),
{
    if path.len() > 0 && path[0] == '/' {
        unrooting_leaves_no_root(path.skip(1));
    }
}

/// Whatever it says, a link never leads out of the image by an absolute target: the target
/// counts from the image's root, and only one that is not absolute counts from where the
/// link stands.
pub proof fn links_count_from_the_images_root(
    root: Seq<char>,
    directory: Seq<char>,
    name: Seq<char>,
)
    requires
        plain_name(name),
    ensures
        link_leads_to(root, directory, "/"@ + name) == joined(root, name),
        lies_within(root, link_leads_to(root, directory, "/"@ + name)),
        link_leads_to(root, directory, name) == joined(directory, name),
        occurs_at(link_leads_to(root, directory, "/"@ + name), root, 0),
        occurs_at(link_leads_to(root, directory, name), directory, 0),
        occurs_at(link_leads_to(root, directory, "/"@ + name + "/"@ + name), root, 0),
{
    reveal_strlit("/");
    assert(name[0] != '/') by {
        assert(name.contains(name[0]));
    }
    assert(("/"@ + name).skip(1) =~= name);
    assert(unrooted(name) == name);
    assert(unrooted("/"@ + name) == unrooted(("/"@ + name).skip(1)));
    root_is_within(root);
    entries_are_within(root, root, name);
    assert(joined(root, name).subrange(0, root.len() as int) =~= root);
    assert(joined(directory, name).subrange(0, directory.len() as int) =~= directory);
    let long = "/"@ + name + "/"@ + name;
    unrooting_leaves_no_root(long);
    assert(link_leads_to(root, directory, long).subrange(0, root.len() as int) =~= root);
}

/// Where a link inside an image leads, as the guest sees it: an absolute target counts
/// from the image's root, another one from the directory of the link.
pub fn link_candidate(root: &str, directory: &str, target: &str) -> (r: String)
    ensures
        r@ == link_leads_to(root@, directory@, target@),
{
    if is_absolute(target) {
        join(root, without_root(target).as_str())
    } else {
        join(directory, target)
    }
}

/// What is found on the way to a file.
#[derive(Debug)]
pub enum Found {
    Directory,
    /// A link. Where it leads, with all links resolved, if it leads anywhere, and
    /// whether that is a directory.
    Link { resolved: Option<String>, is_dir: bool },
    Other,
    Missing,
}

/// What has to be done on the way to a file.
#[derive(Clone, Copy, PartialEq, Eq, Debug, Structural)]
pub enum WayStep {
    /// There is a directory to go on from.
    GoOn,
    /// Put a directory in the place of what is there.
    Replace,
    /// Make the directory.
    Make,
}

/// The way to a file that is put into an image. The image is not trusted: none of its
/// links is followed out of it.
pub struct Way {
    root: String,
    canonical: String,
    current: String,
    directories: Vec<String>,
    at: usize,
    file: String,
}

/// A name that leads to an entry of the directory itself.
pub open spec fn plain_name(s: Seq<char>) -> bool {
    s.len() > 0 && !s.contains('/') && s != "."@ && s != ".."@
}

/// The path goes up somewhere.
pub open spec fn path_climbs(relative: Seq<char>) -> bool {
    exists|i: int|
        0 <= i < segments_of(relative).len() && #[trigger] segments_of(relative)[i] == ".."@
}

/// The directories on the way to a file, and the name of the file.
pub open spec fn way_to(relative: Seq<char>) -> (Seq<Seq<char>>, Seq<char>) {
    let parts = segments_of(relative);
    if parts.len() == 0 {
        (Seq::empty(), Seq::empty())
    } else {
        (parts.drop_last(), parts.last())
    }
}

/// The way to an entry of a directory goes through that directory, and ends at the entry.
pub proof fn ways_lead_through_every_directory(directory: Seq<char>, name: Seq<char>)
    requires
        plain_name(name),
    ensures
        way_to(joined(directory, name)).0 == segments_of(directory),
        way_to(joined(directory, name)).1 == name,
        path_climbs(directory) <==> path_climbs(joined(directory, name)),
{
    joining_adds_one_segment(directory, name);
    let d = segments_of(directory);
    let p = segments_of(joined(directory, name));
    assert(p.drop_last() =~= d);
    if path_climbs(directory) {
        let i = choose|i: int| 0 <= i < d.len() && #[trigger] d[i] == ".."@;
        assert(p[i] == ".."@);
    }
    if path_climbs(joined(directory, name)) {
        let i = choose|i: int| 0 <= i < p.len() && #[trigger] p[i] == ".."@;
        assert(d[i] == ".."@);
    }
}

/// Where the way goes on, and what has to be done for it, by what was found at the next
/// directory.
pub open spec fn step_to(
    found: Found,
    canonical: Seq<char>,
    place: Seq<char>,
    name: Seq<char>,
) -> (Seq<char>, WayStep) {
    match found {
        Found::Link { resolved: Some(path), is_dir: true } if lies_within(canonical, path@) => (
            path@,
            WayStep::GoOn,
        ),
        Found::Directory => (joined(place, name), WayStep::GoOn),
        Found::Missing => (joined(place, name), WayStep::Make),
        _ => (joined(place, name), WayStep::Replace),
    }
}

/// A directory is gone through, a missing one is made, and whatever else stands in the way
/// is replaced, with one exception: a link to a directory of the image is followed. No link
/// is followed out of the image.
pub proof fn links_are_not_followed_out_of_the_image(
    found: Found,
    canonical: Seq<char>,
    place: Seq<char>,
    name: Seq<char>,
)
    ensures
        found is Directory ==> step_to(found, canonical, place, name) == (
            joined(place, name),
            WayStep::GoOn,
        ),
        found is Missing ==> step_to(found, canonical, place, name) == (
            joined(place, name),
            WayStep::Make,
        ),
        found is Other ==> step_to(found, canonical, place, name) == (
            joined(place, name),
            WayStep::Replace,
        ),
        found matches Found::Link { resolved, is_dir } ==> if is_dir && resolved is Some
            && lies_within(canonical, resolved->0@) {
            step_to(found, canonical, place, name) == (resolved->0@, WayStep::GoOn)
        } else {
            step_to(found, canonical, place, name) == (joined(place, name), WayStep::Replace)
        },
{
}

impl Way {
    #[verifier::type_invariant]
    spec fn well_formed(self) -> bool {
        &&& self.at <= self.directories@.len()
        &&& forall|i: int|
            0 <= i < self.directories@.len() ==> plain_name((#[trigger] self.directories@[i])@)
        &&& self.file@.len() == 0 || plain_name(self.file@)
        &&& lies_within(self.root@, self.current@) || lies_within(self.canonical@, self.current@)
    }

    /// The directory that was reached.
    pub closed spec fn place(self) -> Seq<char> {
        self.current@
    }

    /// The image's root, and the same with all links resolved.
    pub closed spec fn roots(self) -> (Seq<char>, Seq<char>) {
        (self.root@, self.canonical@)
    }

    /// The directories that are still to be gone through.
    pub closed spec fn ahead(self) -> Seq<Seq<char>> {
        views(self.directories@).skip(self.at as int)
    }

    /// The name of the file.
    pub closed spec fn file_name(self) -> Seq<char> {
        self.file@
    }

    /// Begin at the root of an image; `canonical` is the same path with all links
    /// resolved. Nothing comes of a path that climbs.
    pub fn begin(root: &str, canonical: &str, relative: &str) -> (r: Option<Way>)
        ensures
            r is Some <==> !path_climbs(relative@),
            r matches Some(w) ==> {
                &&& w.place() == root@
                &&& w.roots() == (root@, canonical@)
                &&& (w.ahead(), w.file_name()) == way_to(relative@)
            },
    {
        let mut parts = naming_parts(relative);
        let ghost all = segments_of(relative@);
        let ghost whole = parts@;
        let mut i: usize = 0;
        proof {
            assert(views(whole).len() == whole.len());
        }
        while i < parts.len()
            invariant
                i <= parts@.len(),
                parts@ == whole,
                views(parts@) == all,
                all == segments_of(relative@),
                all.len() == whole.len(),
                forall|k: int| 0 <= k < i ==> plain_name((#[trigger] parts@[k])@),
            decreases parts.len() - i,
        {
            proof {
                assert(all[i as int] == parts@[i as int]@);
                crate::path::naming_segments_are_plain(relative@, i as int);
            }
            if str_eq(parts[i].as_str(), "..") {
                return None;
            }
            i += 1;
        }
        proof {
            assert forall|k: int| 0 <= k < all.len() implies #[trigger] all[k] != ".."@ by {
                assert(all[k] == parts@[k]@);
                assert(plain_name(parts@[k]@));
            }
            root_is_within(root@);
        }
        let file = match parts.pop() {
            Some(f) => f,
            None => String::new(),
        };
        proof {
            if all.len() > 0 {
                assert(views(parts@) =~= all.drop_last());
                assert(whole[whole.len() - 1]@ == all.last());
                assert(plain_name(whole[whole.len() - 1]@));
            }
            assert forall|k: int| 0 <= k < parts@.len() implies plain_name((#[trigger] parts@[k])@)
                by {
                assert(parts@[k] == whole[k]);
            }
            assert(views(parts@).skip(0) =~= views(parts@));
        }
        let w = Way {
            root: root.to_owned(),
            canonical: canonical.to_owned(),
            current: root.to_owned(),
            directories: parts,
            at: 0,
            file,
        };
        Some(w)
    }

    /// The next directory to look at.
    pub fn next_directory(&self) -> (r: Option<String>)
        ensures
            opt_view(r) == (if self.ahead().len() == 0 {
                None
            } else {
                Some(joined(self.place(), self.ahead()[0]))
            }),
    {
        proof {
            use_type_invariant(self);
            assert(views(self.directories@).len() == self.directories@.len());
        }
        if self.at < self.directories.len() {
            proof {
                assert(views(self.directories@).skip(self.at as int)[0] == views(
                    self.directories@,
                )[self.at as int]);
            }
            Some(join(self.current.as_str(), self.directories[self.at].as_str()))
        } else {
            None
        }
    }

    /// Go on to the next directory, by what was found there. A link is followed where
    /// it leads to a directory of the image: a distribution with a merged `/usr` has
    /// such links, and would be broken without them. Any other link is replaced.
    pub fn advance(&mut self, found: Found) -> (r: WayStep)
        requires
            old(self).ahead().len() > 0,
        ensures
            final(self).ahead() == old(self).ahead().skip(1),
            final(self).roots() == old(self).roots(),
            final(self).file_name() == old(self).file_name(),
            lies_within(final(self).roots().0, final(self).place()) || lies_within(
                final(self).roots().1,
                final(self).place(),
            ),
            (final(self).place(), r) == step_to(
                found,
                old(self).roots().1,
                old(self).place(),
                old(self).ahead()[0],
            ),
    {
        proof {
            use_type_invariant(&*self);
            assert(views(self.directories@).len() == self.directories@.len());
            assert(self.ahead()[0] == views(self.directories@)[self.at as int]);
            assert(plain_name(self.directories@[self.at as int]@));
        }
        let ghost before = self.ahead();
        let next = join(self.current.as_str(), self.directories[self.at].as_str());
        proof {
            let name = self.directories@[self.at as int]@;
            if lies_within(self.root@, self.current@) {
                entries_are_within(self.root@, self.current@, name);
            }
            if lies_within(self.canonical@, self.current@) {
                entries_are_within(self.canonical@, self.current@, name);
            }
            assert(views(self.directories@).skip(self.at + 1) =~= before.skip(1));
        }
        let total: usize = self.directories.len();
        proof {
            assert(self.at < total);
        }
        let at: usize = self.at + 1;
        let step: WayStep;
        let mut place = next;
        match found {
            Found::Directory => {
                step = WayStep::GoOn;
            },
            Found::Link { resolved, is_dir } => match resolved {
                Some(path) => {
                    if is_dir && is_within(self.canonical.as_str(), path.as_str()) {
                        place = path;
                        step = WayStep::GoOn;
                    } else {
                        step = WayStep::Replace;
                    }
                },
                None => {
                    step = WayStep::Replace;
                },
            },
            Found::Other => {
                step = WayStep::Replace;
            },
            Found::Missing => {
                step = WayStep::Make;
            },
        }
        self.current = place;
        self.at = at;
        step
    }

    /// The file, once its directory was reached.
    pub fn target(&self) -> (r: String)
        requires
            self.ahead().len() == 0,
        ensures
            r@ == joined(self.place(), self.file_name()),
            self.file_name().len() > 0 ==> lies_within(self.roots().0, r@) || lies_within(
                self.roots().1,
                r@,
            ),
    {
        proof {
            use_type_invariant(self);
            if self.file@.len() > 0 {
                if lies_within(self.root@, self.current@) {
                    entries_are_within(self.root@, self.current@, self.file@);
                }
                if lies_within(self.canonical@, self.current@) {
                    entries_are_within(self.canonical@, self.current@, self.file@);
                }
            }
        }
        join(self.current.as_str(), self.file.as_str())
    }
}

proof fn root_is_within(root: Seq<char>)
    ensures
        lies_within(root, root),
{
    let r = segments_of(root);
    assert(r =~= r.subrange(0, r.len() as int));
}

/// An entry of a directory lies within whatever the directory lies within.
proof fn entries_are_within(root: Seq<char>, directory: Seq<char>, name: Seq<char>)
    requires
        lies_within(root, directory),
        plain_name(name),
    ensures
        lies_within(root, joined(directory, name)),
{
    joining_adds_one_segment(directory, name);
    let r = segments_of(root);
    let d = segments_of(directory);
    let p = segments_of(joined(directory, name));
    assert(r =~= p.subrange(0, r.len() as int)) by {
        assert(r =~= d.subrange(0, r.len() as int));
        assert forall|i: int| 0 <= i < r.len() implies r[i] == p[i] by {
            assert(r[i] == d.subrange(0, r.len() as int)[i]);
        }
    }
    assert forall|i: int| r.len() <= i < p.len() implies #[trigger] p[i] != ".."@ by {
        if i < d.len() {
            assert(p[i] == d[i]);
        }
    }
}

/// One thing that is put into an image so that it boots into the guest agent. Paths are
/// relative to the image's root.
#[derive(Debug, Clone, Copy)]
pub enum RuntimeEntry<'a> {
    File { path: &'static str, bytes: &'a [u8], mode: u32 },
    Link { path: &'static str, target: &'static str },
}

/// A [`RuntimeEntry`] with its texts as sequences of characters.
pub ghost enum RuntimeView {
    File { path: Seq<char>, bytes: Seq<u8>, mode: u32 },
    Link { path: Seq<char>, target: Seq<char> },
}

impl View for RuntimeEntry<'_> {
    type V = RuntimeView;

    open spec fn view(&self) -> RuntimeView {
        match *self {
            RuntimeEntry::File { path, bytes, mode } => RuntimeView::File {
                path: path@,
                bytes: bytes@,
                mode,
            },
            RuntimeEntry::Link { path, target } => RuntimeView::Link {
                path: path@,
                target: target@,
            },
        }
    }
}

/// The agent, which can be executed.
pub open spec fn agent_file(agent: Seq<u8>) -> RuntimeView {
    RuntimeView::File { path: "usr/local/bin/husker-agent"@, bytes: agent, mode: 0o755 }
}

/// What the image wants to run.
pub open spec fn config_file(config_json: Seq<u8>) -> RuntimeView {
    RuntimeView::File { path: "etc/husker/oci-config.json"@, bytes: config_json, mode: 0o644 }
}

/// The agent in the place of the init program.
pub open spec fn init_link() -> RuntimeView {
    RuntimeView::Link { path: "sbin/init"@, target: "/usr/local/bin/husker-agent"@ }
}

/// An image boots into its agent: the init program is a link to where the agent is put, the
/// agent can be executed and is what was handed in, and so is the configuration, which can
/// be read by all and is kept apart from it.
pub proof fn images_boot_into_their_agent(agent: Seq<u8>, config_json: Seq<u8>)
    ensures
        init_link()->target == "/"@ + agent_file(agent)->File_path,
        init_link()->Link_path == "sbin/init"@,
        agent_file(agent)->bytes == agent,
        agent_file(agent)->mode == 0o755,
        config_file(config_json)->bytes == config_json,
        config_file(config_json)->mode == 0o644,
        config_file(config_json)->File_path != agent_file(agent)->File_path,
        config_file(config_json)->File_path == "etc/husker/oci-config.json"@,
{
    reveal_strlit("/usr/local/bin/husker-agent");
    reveal_strlit("usr/local/bin/husker-agent");
    reveal_strlit("etc/husker/oci-config.json");
    reveal_strlit("/");
    assert("/usr/local/bin/husker-agent"@ =~= "/"@ + "usr/local/bin/husker-agent"@);
    assert("etc/husker/oci-config.json"@[0] != "usr/local/bin/husker-agent"@[0]);
}

/// What is put into an image, in order: the agent, which can be executed, what the
/// image wants to run, and the agent in the place of the init program.
pub fn guest_runtime<'a>(agent: &'a [u8], config_json: &'a [u8]) -> (r: [RuntimeEntry<'a>; 3])
    ensures
        r@[0]@ == agent_file(agent@),
        r@[1]@ == config_file(config_json@),
        r@[2]@ == init_link(),
{
    [
        RuntimeEntry::File { path: "usr/local/bin/husker-agent", bytes: agent, mode: 0o755 },
        RuntimeEntry::File { path: "etc/husker/oci-config.json", bytes: config_json, mode: 0o644 },
        RuntimeEntry::Link { path: "sbin/init", target: "/usr/local/bin/husker-agent" },
    ]
}

} // verus!
