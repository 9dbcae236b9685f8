//! Snapshots: copies of the root filesystem of a stopped VM.

use vstd::prelude::*;
use vstd::string::*;

use crate::error::{invalid_state, CoreError};
#[allow(unused_imports)]
use crate::error::{unit_view, ErrorView};
use crate::names::validate_resource_name;
#[allow(unused_imports)]
use crate::names::{name_char, name_verdict, valid_name};
use crate::path::join;
#[allow(unused_imports)]
use crate::path::joined;
use crate::records::{Lifecycle, SnapshotRecord, VmRecord};
use crate::requests::{CreateSnapshotRequest, CreateVmRequest, RestoreSnapshotRequest};
#[allow(unused_imports)]
use crate::requests::{bare_request, pair_views, VmRequestView};
use crate::settings::StorageLayout;
#[allow(unused_imports)]
use crate::text::opt_view;
use crate::time::Timestamp;

verus! {

/// What is wrong with copying this VM, if anything.
pub open spec fn source_verdict(vm: VmRecord) -> Result<(), ErrorView> {
    if vm.stage() == Lifecycle::Stopped {
        Ok(())
    } else {
        Err(ErrorView::InvalidState { name: vm.name@, actual: vm.state@, expected: "stopped"@ })
    }
}

/// Only a VM whose disk nobody writes to is copied: a stopped one. Any other is told its
/// own state.
pub proof fn only_stopped_vms_are_copied(vm: VmRecord)
    ensures
        source_verdict(vm) is Ok <==> vm.stage() == Lifecycle::Stopped,
        source_verdict(vm) matches Err(e) ==> e == (ErrorView::InvalidState {
            name: vm.name@,
            actual: vm.state@,
            expected: "stopped"@,
        }),
{
}

/// Whether the VM can be copied: only a stopped one can.
pub fn check_snapshot_source(vm: &VmRecord) -> (r: Result<(), CoreError>)
    ensures
        unit_view(r) == source_verdict(*vm),
{
    if vm.lifecycle() != Lifecycle::Stopped {
        return Err(invalid_state(vm.name.as_str(), vm.state.as_str(), "stopped"));
    }
    Ok(())
}

/// The root filesystem of a VM.
pub open spec fn rootfs_of(vms_dir: Seq<char>, vm: Seq<char>) -> Seq<char> {
    joined(joined(vms_dir, vm), "rootfs.ext4"@)
}

/// The root filesystem of a VM.
pub fn rootfs_file(storage: &StorageLayout, vm: &str) -> (r: String)
    ensures
        r@ == rootfs_of(storage.vms_dir@, vm@),
{
    join(join(storage.vms_dir.as_str(), vm).as_str(), "rootfs.ext4")
}

/// The file of a snapshot.
pub open spec fn snapshot_of(images_dir: Seq<char>, name: Seq<char>) -> Seq<char> {
    joined(joined(images_dir, "snapshots"@), name + ".ext4"@)
}

/// The file of a snapshot.
pub fn snapshot_file(storage: &StorageLayout, name: &str) -> (r: String)
    ensures
        r@ == snapshot_of(storage.images_dir@, name@),
{
    join(
        join(storage.images_dir.as_str(), "snapshots").as_str(),
        name.to_owned().concat(".ext4").as_str(),
    )
}

/// The record of a snapshot that was asked for so.
pub open spec fn is_snapshot(
    r: SnapshotRecord,
    images_dir: Seq<char>,
    req: CreateSnapshotRequest,
    id: u128,
    now: Timestamp,
) -> bool {
    &&& r.id == id && r.name == req.name && r.source_vm_name == req.vm && r.created_at == now
    &&& r.file_path@ == snapshot_of(images_dir, req.name@)
}

/// The request that a snapshot's file is restored by.
pub open spec fn restore_of(file: Seq<char>, req: RestoreSnapshotRequest) -> VmRequestView {
    VmRequestView {
        kernel_path: Some(req.kernel_path@),
        rootfs_path: Some(file),
        vcpu_count: req.vcpu_count,
        mem_size_mib: req.mem_size_mib,
        initrd_path: opt_view(req.initrd_path),
        userdata: opt_view(req.userdata),
        env: pair_views(req.env@),
        ..bare_request(req.name@)
    }
}

/// What a snapshot was taken into is what is restored: a VM that is restored from its
/// record boots its file, under the name and with the kernel, the size and the script that
/// were asked for.
pub proof fn snapshots_are_restored_from_their_file(
    r: SnapshotRecord,
    images_dir: Seq<char>,
    taken: CreateSnapshotRequest,
    id: u128,
    now: Timestamp,
    req: RestoreSnapshotRequest,
)
    requires
        is_snapshot(r, images_dir, taken, id, now),
    ensures
        r.id == id && r.name == taken.name && r.source_vm_name == taken.vm && r.created_at == now,
        ({
            let vm = restore_of(r.file_path@, req);
            &&& vm.rootfs_path == Some(snapshot_of(images_dir, taken.name@))
            &&& vm.kernel_path == Some(req.kernel_path@)
            &&& vm.name == req.name@
            &&& vm.vcpu_count == req.vcpu_count && vm.mem_size_mib == req.mem_size_mib
            &&& vm.initrd_path == opt_view(req.initrd_path)
            &&& vm.userdata == opt_view(req.userdata) && vm.env == pair_views(req.env@)
            &&& vm.cloud_image is None && vm.volume is None && vm.vmm is None && vm.network is None
            &&& vm.mounts.len() == 0 && vm.idle is None && vm.idle_timeout_secs is None
        }),
{
}

/// Snapshots and VMs have files of their own: a snapshot's stands among the snapshots by
/// its name, a VM's root filesystem in the VM's directory.
pub proof fn files_go_by_their_names(dir: Seq<char>, name: Seq<char>, other: Seq<char>)
    requires
        dir.len() > 0,
        dir.last() != '/',
        valid_name(name),
        valid_name(other),
    ensures
        snapshot_of(dir, name) == dir + "/snapshots/"@ + name + ".ext4"@,
        rootfs_of(dir, name) == dir + "/"@ + name + "/rootfs.ext4"@,
        name != other ==> snapshot_of(dir, name) != snapshot_of(dir, other),
        name != other ==> rootfs_of(dir, name) != rootfs_of(dir, other),
{
    reveal_strlit("snapshots");
    reveal_strlit("/snapshots/");
    reveal_strlit(".ext4");
    reveal_strlit("rootfs.ext4");
    reveal_strlit("/rootfs.ext4");
    reveal_strlit("/");
    names_are_relative(name);
    names_are_relative(other);
    assert("snapshots"@.last() == 's' && "snapshots"@[0] == 's');
    assert("rootfs.ext4"@[0] == 'r');
    let a = name + ".ext4"@;
    assert(a[0] == name[0]);
    let b = other + ".ext4"@;
    assert(b[0] == other[0]);
    let inner = dir + "/"@ + "snapshots"@;
    assert(inner.last() == 's');
    assert(snapshot_of(dir, name) =~= dir + "/snapshots/"@ + name + ".ext4"@);
    assert(snapshot_of(dir, other) =~= dir + "/snapshots/"@ + other + ".ext4"@);
    let own = dir + "/"@ + name;
    assert(own.last() == name.last());
    let theirs = dir + "/"@ + other;
    assert(theirs.last() == other.last());
    assert(rootfs_of(dir, name) =~= dir + "/"@ + name + "/rootfs.ext4"@);
    assert(rootfs_of(dir, other) =~= dir + "/"@ + other + "/rootfs.ext4"@);
    let n = dir.len() as int;
    if snapshot_of(dir, name) == snapshot_of(dir, other) {
        let s = snapshot_of(dir, name);
        assert(s.subrange(n + 11, s.len() - 5) =~= name);
        assert(s.subrange(n + 11, s.len() - 5) =~= other);
    }
    if rootfs_of(dir, name) == rootfs_of(dir, other) {
        let s = rootfs_of(dir, name);
        assert(s.subrange(n + 1, s.len() - 12) =~= name);
        assert(s.subrange(n + 1, s.len() - 12) =~= other);
    }
}

proof fn names_are_relative(name: Seq<char>)
    requires
        valid_name(name),
    ensures
        name[0] != '/',
        name.last() != '/',
{
    assert(name_char(name[0]));
    assert(name_char(name[name.len() - 1]));
}

/// The record of a snapshot that was just taken.
pub fn new_snapshot(
    storage: &StorageLayout,
    req: CreateSnapshotRequest,
    id: u128,
    now: Timestamp,
) -> (r: SnapshotRecord)
    ensures
        is_snapshot(r, storage.images_dir@, req, id, now),
{
    let file_path = snapshot_file(storage, req.name.as_str());
    SnapshotRecord { id, name: req.name, source_vm_name: req.vm, file_path, created_at: now }
}

/// The VM that a snapshot is restored into, unless its name cannot be used: a plain
/// VM whose rootfs is the snapshot's file.
pub fn restore_request(snapshot_file: &str, req: RestoreSnapshotRequest) -> (r: CreateVmRequest)
    ensures
        r@ == restore_of(snapshot_file@, req),
{
    let mut r = CreateVmRequest::default();
    r.name = req.name;
    r.kernel_path = Some(req.kernel_path);
    r.rootfs_path = Some(snapshot_file.to_owned());
    r.vcpu_count = req.vcpu_count;
    r.mem_size_mib = req.mem_size_mib;
    r.initrd_path = req.initrd_path;
    r.userdata = req.userdata;
    r.env = req.env;
    r
}

/// Whether the name of a new snapshot can be used.
pub fn check_snapshot_name(req: &CreateSnapshotRequest) -> (r: Result<(), CoreError>)
    ensures
        unit_view(r) == name_verdict("snapshot"@, req.name@),
{
    validate_resource_name("snapshot", req.name.as_str())
}

/// Whether the name of the VM that a snapshot is restored into can be used.
pub fn check_restore_name(req: &RestoreSnapshotRequest) -> (r: Result<(), CoreError>)
    ensures
        unit_view(r) == name_verdict("vm"@, req.name@),
{
    validate_resource_name("vm", req.name.as_str())
}

} // verus!
