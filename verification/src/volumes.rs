//! Named volumes, which outlive the VMs that they are attached to.

use vstd::prelude::*;
use vstd::string::*;

use crate::error::CoreError;
#[allow(unused_imports)]
use crate::error::{unit_view, ErrorView};
use crate::names::validate_resource_name;
#[allow(unused_imports)]
use crate::names::{name_char, name_verdict, valid_name};
use crate::path::join;
#[allow(unused_imports)]
use crate::path::joined;
use crate::records::VolumeRecord;
use crate::requests::CreateVolumeRequest;
use crate::settings::StorageLayout;
#[allow(unused_imports)]
use crate::text::opt_str_view;
use crate::time::Timestamp;

verus! {

/// Whether the name of a new volume can be used.
pub fn check_volume_name(req: &CreateVolumeRequest) -> (r: Result<(), CoreError>)
    ensures
        unit_view(r) == name_verdict("volume"@, req.name@),
{
    validate_resource_name("volume", req.name.as_str())
}

/// The file of a volume.
pub open spec fn volume_of(volumes_dir: Seq<char>, name: Seq<char>) -> Seq<char> {
    joined(volumes_dir, name + ".img"@)
}

/// The file of a volume.
pub fn volume_file(storage: &StorageLayout, name: &str) -> (r: String)
    ensures
        r@ == volume_of(storage.volumes_dir@, name@),
{
    join(storage.volumes_dir.as_str(), name.to_owned().concat(".img").as_str())
}

/// The record of a volume that was asked for so.
pub open spec fn is_volume(
    r: VolumeRecord,
    volumes_dir: Seq<char>,
    req: CreateVolumeRequest,
    id: u128,
    now: Timestamp,
) -> bool {
    &&& r.id == id && r.name == req.name && r.size_bytes == req.size_bytes && r.created_at == now
    &&& r.file_path@ == volume_of(volumes_dir, req.name@)
}

/// What is wrong with deleting a volume that this VM holds, if one does.
pub open spec fn unused_verdict(name: Seq<char>, holder: Option<Seq<char>>) -> Result<
    (),
    ErrorView,
> {
    match holder {
        Some(vm) => Err(ErrorView::VolumeAttached { volume: name, vm }),
        None => Ok(()),
    }
}

/// A volume is recorded as it was asked for, and keeps its data in a file of its own among
/// the volumes, by its name.
pub proof fn volumes_have_files_of_their_own(
    r: VolumeRecord,
    dir: Seq<char>,
    req: CreateVolumeRequest,
    id: u128,
    now: Timestamp,
    other: Seq<char>,
)
    requires
        is_volume(r, dir, req, id, now),
        dir.len() > 0,
        dir.last() != '/',
        valid_name(req.name@),
        valid_name(other),
    ensures
        r.id == id && r.name == req.name && r.size_bytes == req.size_bytes && r.created_at == now,
        r.file_path@ == dir + "/"@ + req.name@ + ".img"@,
        other != req.name@ ==> volume_of(dir, other) != r.file_path@,
{
    reveal_strlit("/");
    reveal_strlit(".img");
    let name = req.name@;
    assert(name_char(name[0]) && name_char(other[0]));
    assert((name + ".img"@)[0] == name[0]);
    assert((other + ".img"@)[0] == other[0]);
    let a = volume_of(dir, name);
    let b = volume_of(dir, other);
    assert(a =~= dir + "/"@ + name + ".img"@);
    assert(b =~= dir + "/"@ + other + ".img"@);
    if a == b {
        let n = dir.len() as int;
        assert(a.subrange(n + 1, a.len() - 4) =~= name);
        assert(a.subrange(n + 1, a.len() - 4) =~= other);
    }
}

/// A volume is deleted exactly where no VM holds it; the refusal names both.
pub proof fn held_volumes_are_not_deleted(name: Seq<char>, holder: Option<Seq<char>>)
    ensures
        unused_verdict(name, holder) is Ok <==> holder is None,
        holder matches Some(vm) ==> unused_verdict(name, holder)->Err_0 == (
        ErrorView::VolumeAttached { volume: name, vm }),
{
}

/// The record of a volume whose image was just made.
pub fn new_volume(
    storage: &StorageLayout,
    req: CreateVolumeRequest,
    id: u128,
    now: Timestamp,
) -> (r: VolumeRecord)
    ensures
        is_volume(r, storage.volumes_dir@, req, id, now),
{
    let file_path = volume_file(storage, req.name.as_str());
    VolumeRecord { id, name: req.name, file_path, size_bytes: req.size_bytes, created_at: now }
}

/// Whether a volume can be deleted: not while a VM holds it.
pub fn check_volume_unused(name: &str, holder: Option<&str>) -> (r: Result<(), CoreError>)
    ensures
        unit_view(r) == unused_verdict(name@, opt_str_view(holder)),
{
    match holder {
        Some(vm) => Err(CoreError::VolumeAttached { volume: name.to_owned(), vm: vm.to_owned() }),
        None => Ok(()),
    }
}

} // verus!
