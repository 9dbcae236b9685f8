//! Forking a suspended VM into a new running one with a host identity of its own.

use vstd::prelude::*;
use vstd::string::*;

use crate::create::tap_name;
#[allow(unused_imports)]
use crate::create::{tap_of, taps_are_distinct};
use crate::error::{invalid_argument, invalid_state, AgentErrorKind, CoreError, VmmErrorKind};
#[allow(unused_imports)]
use crate::error::{unit_view, ErrorView};
use crate::ipv4::Ipv4;
#[allow(unused_imports)]
use crate::ipv4::dotted;
use crate::ledger::AllocatedResources;
#[allow(unused_imports)]
use crate::ledger::{nothing_held, rollback_of, LedgerView, ReleaseView};
use crate::lifecycle::{supports_snapshot, RestoreTarget};
#[allow(unused_imports)]
use crate::lifecycle::captures_state;
use crate::names::validate_resource_name;
#[allow(unused_imports)]
use crate::names::{accepted_names_are_valid, name_verdict, valid_name};
use crate::records::{Lifecycle, VmRecord};
#[allow(unused_imports)]
use crate::records::VmView;
use crate::settings::{HuskerCore, StorageLayout};
use crate::snapshots::rootfs_file;
#[allow(unused_imports)]
use crate::snapshots::rootfs_of;
use crate::text::{copy_texts, str_eq};
#[allow(unused_imports)]
use crate::text::{decimal, views};
use crate::time::Timestamp;

verus! {

/// What is wrong with the names of a fork, if anything.
pub open spec fn fork_names_verdict(source_name: Seq<char>, fork_name: Seq<char>) -> Result<
    (),
    ErrorView,
> {
    if name_verdict("vm"@, fork_name) is Err {
        name_verdict("vm"@, fork_name)
    } else if source_name == fork_name {
        Err(ErrorView::InvalidArgument("fork name must differ from the source name"@))
    } else {
        Ok(())
    }
}

/// What is wrong with forking this VM, if anything.
pub open spec fn fork_source_verdict(
    source_name: Seq<char>,
    source: VmRecord,
    fork_name: Seq<char>,
    fork_exists: bool,
) -> Result<(), ErrorView> {
    if source.stage() != Lifecycle::Suspended {
        Err(
            ErrorView::InvalidState {
                name: source_name,
                actual: source.state@,
                expected: "suspended"@,
            },
        )
    } else if !captures_state(source.vmm@) {
        Err(
            ErrorView::Vmm(
                VmmErrorKind::Unsupported,
                "backend '"@ + source.vmm@ + "' does not support fork"@,
            ),
        )
    } else if source.network@ != "nat"@ {
        Err(ErrorView::InvalidArgument("fork is only supported for NAT-mode VMs"@))
    } else if source.volume is Some {
        Err(
            ErrorView::InvalidArgument(
                "cannot fork a VM with an attached volume (the fork would share the source's writable volume)"@,
            ),
        )
    } else if fork_exists {
        Err(ErrorView::VmAlreadyExists(fork_name))
    } else {
        Ok(())
    }
}

/// Check the names of a fork before they are used to build any path.
pub fn check_fork_names(source_name: &str, fork_name: &str) -> (r: Result<(), CoreError>)
    ensures
        unit_view(r) == fork_names_verdict(source_name@, fork_name@),
{
    match validate_resource_name("vm", fork_name) {
        Ok(_) => {},
        Err(e) => { return Err(e); },
    }
    if str_eq(source_name, fork_name) {
        return Err(invalid_argument("fork name must differ from the source name"));
    }
    Ok(())
}

/// Check that a VM can be forked: it is suspended, its backend can fork, it sits
/// behind NAT, no volume would be shared, and the new name is free.
pub fn check_fork_source(
    source_name: &str,
    source: &VmRecord,
    fork_name: &str,
    fork_exists: bool,
) -> (r: Result<(), CoreError>)
    ensures
        unit_view(r) == fork_source_verdict(source_name@, *source, fork_name@, fork_exists),
{
    if source.lifecycle() != Lifecycle::Suspended {
        return Err(invalid_state(source_name, source.state.as_str(), "suspended"));
    }
    if !supports_snapshot(source.vmm.as_str()) {
        return Err(
            CoreError::Vmm(
                VmmErrorKind::Unsupported,
                "backend '".to_owned().concat(source.vmm.as_str()).concat(
                    "' does not support fork",
                ),
            ),
        );
    }
    if !str_eq(source.network.as_str(), "nat") {
        return Err(invalid_argument("fork is only supported for NAT-mode VMs"));
    }
    if source.volume.is_some() {
        return Err(
            invalid_argument(
                "cannot fork a VM with an attached volume (the fork would share the source's writable volume)",
            ),
        );
    }
    if fork_exists {
        return Err(CoreError::VmAlreadyExists(fork_name.to_owned()));
    }
    Ok(())
}

/// The answer to a fork on a host whose backend has no snapshots.
pub open spec fn unsupported_fork(fork_name: Seq<char>) -> ErrorView {
    match name_verdict("vm"@, fork_name) {
        Err(v) => v,
        Ok(_) => ErrorView::Vmm(
            VmmErrorKind::Unsupported,
            "fork is only supported on Linux (Firecracker)"@,
        ),
    }
}

/// A VM can be forked under a usable name that is not its own and that no VM has, while it
/// is suspended, on a backend that captures full state, behind NAT and without a volume;
/// and it can be forked nowhere else. An unusable name is refused as one wherever it is
/// given.
pub proof fn forks_need_a_suspended_source_and_a_free_name(
    source: VmRecord,
    fork_name: Seq<char>,
    fork_exists: bool,
)
    ensures
        fork_names_verdict(source.name@, fork_name) is Ok <==> valid_name(fork_name) && fork_name
            != source.name@,
        fork_source_verdict(source.name@, source, fork_name, fork_exists) is Ok <==> source.stage()
            == Lifecycle::Suspended && captures_state(source.vmm@) && source.network@ == "nat"@
            && source.volume is None && !fork_exists,
        source.stage() != Lifecycle::Suspended ==> fork_source_verdict(
            source.name@,
            source,
            fork_name,
            fork_exists,
        )->Err_0 is InvalidState,
        unsupported_fork(fork_name) is Vmm <==> valid_name(fork_name),
        !valid_name(fork_name) ==> unsupported_fork(fork_name) == fork_names_verdict(
            source.name@,
            fork_name,
        )->Err_0 && unsupported_fork(fork_name) is InvalidArgument,
{
    accepted_names_are_valid("vm"@, fork_name);
}

/// The answer to a fork on a host whose backend has no snapshots: unsafe names are
/// rejected as everywhere, then the fork itself.
pub fn fork_unsupported(fork_name: &str) -> (e: CoreError)
    ensures
        e@ == unsupported_fork(fork_name@),
{
    match validate_resource_name("vm", fork_name) {
        Err(e) => e,
        Ok(_) => CoreError::Vmm(
            VmmErrorKind::Unsupported,
            "fork is only supported on Linux (Firecracker)".to_owned(),
        ),
    }
}

/// What a fork is recorded as: running, with the shape and the disks of its
/// source, an identity of its own, and none of the source's policies.
pub open spec fn fork_of(
    source: VmRecord,
    fork_name: Seq<char>,
    id: u128,
    pid: Option<u32>,
    cid: u32,
    guest_ip: Ipv4,
    gateway: Ipv4,
    now: Timestamp,
) -> VmView {
    VmView {
        id,
        name: fork_name,
        state: "running"@,
        pid,
        vcpu_count: source.vcpu_count,
        mem_size_mib: source.mem_size_mib,
        vsock_cid: cid,
        tap_device: Some(tap_of(cid)),
        host_ip: Some(dotted(gateway)),
        guest_ip: Some(dotted(guest_ip)),
        kernel_path: source.kernel_path@,
        rootfs_path: source.rootfs_path@,
        created_at: now,
        updated_at: now,
        userdata: None,
        userdata_status: None,
        userdata_env: None,
        service_id: None,
        service_ordinal: None,
        vmm: source.vmm@,
        boot_mode: source.boot_mode@,
        balloon: false,
        volume: None,
        network: "nat"@,
        last_activity_at: now,
        suspended_at: None,
        idle_timeout_secs: None,
        suspend_ttl_secs: None,
        auto_resume: true,
        forked_from: Some(source.id),
    }
}

/// Write down a fork that has just been restored.
pub fn build_fork_record(
    source: &VmRecord,
    fork_name: &str,
    id: u128,
    pid: Option<u32>,
    cid: u32,
    guest_ip: &Ipv4,
    gateway: &Ipv4,
    now: Timestamp,
) -> (r: VmRecord)
    ensures
        r@ == fork_of(*source, fork_name@, id, pid, cid, *guest_ip, *gateway, now),
{
    VmRecord {
        id,
        name: fork_name.to_owned(),
        state: "running".to_owned(),
        pid,
        vcpu_count: source.vcpu_count,
        mem_size_mib: source.mem_size_mib,
        vsock_cid: cid,
        tap_device: Some(tap_name(cid)),
        host_ip: Some(gateway.text()),
        guest_ip: Some(guest_ip.text()),
        kernel_path: source.kernel_path.clone(),
        rootfs_path: source.rootfs_path.clone(),
        created_at: now,
        updated_at: now,
        userdata: None,
        userdata_status: None,
        userdata_env: None,
        service_id: None,
        service_ordinal: None,
        vmm: source.vmm.clone(),
        boot_mode: source.boot_mode.clone(),
        balloon: false,
        volume: None,
        network: "nat".to_owned(),
        last_activity_at: now,
        suspended_at: None,
        idle_timeout_secs: None,
        suspend_ttl_secs: None,
        auto_resume: true,
        forked_from: Some(source.id),
    }
}

/// What the source's snapshot is restored into for a fork.
pub open spec fn is_fork_target(
    r: RestoreTarget,
    storage: StorageLayout,
    source: VmRecord,
    fork_name: Seq<char>,
    id: u128,
    cid: u32,
) -> bool {
    r matches RestoreTarget::Fork {
        id: i,
        name,
        vcpu_count,
        mem_size_mib,
        vsock_cid,
        tap_device,
        source_rootfs,
        fork_rootfs,
    } && i == id && name@ == fork_name && vcpu_count == source.vcpu_count && mem_size_mib
        == source.mem_size_mib && vsock_cid == cid && tap_device@ == tap_of(cid) && source_rootfs@
        == rootfs_of(storage.vms_dir@, source.name@) && fork_rootfs@ == rootfs_of(
        storage.vms_dir@,
        fork_name,
    )
}

/// Restore the source's snapshot into a fork: of the source's size, bound to its own
/// TAP, on its own copy of the source's disk.
pub fn fork_target(
    storage: &StorageLayout,
    source: &VmRecord,
    fork_name: &str,
    id: u128,
    cid: u32,
) -> (r: RestoreTarget)
    ensures
        is_fork_target(r, *storage, *source, fork_name@, id, cid),
{
    RestoreTarget::Fork {
        id,
        name: fork_name.to_owned(),
        vcpu_count: source.vcpu_count,
        mem_size_mib: source.mem_size_mib,
        vsock_cid: cid,
        tap_device: tap_name(cid),
        source_rootfs: rootfs_file(storage, source.name.as_str()),
        fork_rootfs: rootfs_file(storage, fork_name),
    }
}

/// A guest's place in the network.
#[derive(Debug)]
pub struct NetworkIdentity {
    pub interface: String,
    pub address: String,
    pub prefix_len: u8,
    pub gateway: String,
    pub mac: String,
    pub dns: Vec<String>,
}

/// The place in the network that a fork is given.
pub open spec fn is_fork_identity(
    r: NetworkIdentity,
    core: HuskerCore,
    address: Ipv4,
    prefix_len: u8,
    gateway: Ipv4,
    mac: Seq<char>,
) -> bool {
    &&& r.interface@ == "eth0"@
    &&& r.address@ == dotted(address)
    &&& r.prefix_len == prefix_len
    &&& r.gateway@ == dotted(gateway)
    &&& r.mac@ == mac
    &&& views(r.dns@) == views(core.dns_servers@)
}

/// The place in the network that a fork is given instead of its source's.
pub fn fork_identity(
    core: &HuskerCore,
    address: &Ipv4,
    prefix_len: u8,
    gateway: &Ipv4,
    mac: &str,
) -> (r: NetworkIdentity)
    ensures
        is_fork_identity(r, *core, *address, prefix_len, *gateway, mac@),
{
    NetworkIdentity {
        interface: "eth0".to_owned(),
        address: address.text(),
        prefix_len,
        gateway: gateway.text(),
        mac: mac.to_owned(),
        dns: copy_texts(&core.dns_servers),
    }
}

// ---------------------------------------------------------------------------
// The steps of a fork
// ---------------------------------------------------------------------------

/// The steps of a fork, in the order in which they are taken.
#[derive(Debug, Clone, Copy, PartialEq, Eq, Structural)]
pub enum ForkStep {
    AllocateIp,
    /// Lease a vsock context id.
    BeginLease,
    /// Note the TAP and the address on the lease.
    NoteLease,
    CreateTap,
    CreateDir,
    CloneRootfs,
    /// Restore the source's snapshot into the fork.
    Restore,
    /// Give the guest its own network identity.
    Rehome,
    /// Attach the TAP to the bridge.
    AttachTap,
    Insert,
    Done,
    Failed,
}

/// The place of a step in the order of a fork.
pub open spec fn fork_place(step: ForkStep) -> int {
    match step {
        ForkStep::AllocateIp => 0,
        ForkStep::BeginLease => 1,
        ForkStep::NoteLease => 2,
        ForkStep::CreateTap => 3,
        ForkStep::CreateDir => 4,
        ForkStep::CloneRootfs => 5,
        ForkStep::Restore => 6,
        ForkStep::Rehome => 7,
        ForkStep::AttachTap => 8,
        ForkStep::Insert => 9,
        ForkStep::Done => 10,
        ForkStep::Failed => 11,
    }
}

/// The step that follows when a step succeeds.
pub open spec fn fork_next(step: ForkStep) -> ForkStep {
    match step {
        ForkStep::AllocateIp => ForkStep::BeginLease,
        ForkStep::BeginLease => ForkStep::NoteLease,
        ForkStep::NoteLease => ForkStep::CreateTap,
        ForkStep::CreateTap => ForkStep::CreateDir,
        ForkStep::CreateDir => ForkStep::CloneRootfs,
        ForkStep::CloneRootfs => ForkStep::Restore,
        ForkStep::Restore => ForkStep::Rehome,
        ForkStep::Rehome => ForkStep::AttachTap,
        ForkStep::AttachTap => ForkStep::Insert,
        ForkStep::Insert => ForkStep::Done,
        ForkStep::Done => ForkStep::Done,
        ForkStep::Failed => ForkStep::Failed,
    }
}

/// How a step of a fork came out.
#[derive(Debug)]
pub enum ForkOutcome {
    Passed,
    TookIp(Ipv4),
    /// A lease, with the context id that comes with it.
    TookLease { id: u128, cid: u32 },
    TookDir(String),
    TookVm(u128),
    Refused,
}

/// An outcome is one that the step can have.
pub open spec fn fork_outcome_fits(step: ForkStep, outcome: ForkOutcome) -> bool {
    match outcome {
        ForkOutcome::Refused => step != ForkStep::Done && step != ForkStep::Failed,
        ForkOutcome::TookIp(_) => step == ForkStep::AllocateIp,
        ForkOutcome::TookLease { id: _, cid: _ } => step == ForkStep::BeginLease,
        ForkOutcome::TookDir(_) => step == ForkStep::CreateDir,
        ForkOutcome::TookVm(_) => step == ForkStep::Restore,
        ForkOutcome::Passed => step != ForkStep::AllocateIp && step != ForkStep::BeginLease && step
            != ForkStep::CreateDir && step != ForkStep::Restore && step != ForkStep::Done && step
            != ForkStep::Failed,
    }
}

/// The ledger after a step of a fork came out so. The TAP is booked before it is
/// created: a creation that fails half-way is undone too.
pub open spec fn fork_booked(l: LedgerView, step: ForkStep, outcome: ForkOutcome) -> LedgerView {
    match outcome {
        ForkOutcome::Passed => if step == ForkStep::NoteLease {
            LedgerView { tap_name: Some(tap_of(l.cid->0)), ..l }
        } else {
            l
        },
        ForkOutcome::TookIp(ip) => LedgerView { guest_ip: Some(ip), ..l },
        ForkOutcome::TookLease { id, cid } => LedgerView { cid: Some(cid), lease: Some(id), ..l },
        ForkOutcome::TookDir(d) => LedgerView { vm_dir: Some(d@), ..l },
        ForkOutcome::TookVm(id) => LedgerView { vm_id: Some(id), ..l },
        ForkOutcome::Refused => l,
    }
}

/// The ledger holds exactly what the steps before `step` take.
pub open spec fn fork_holds(step: ForkStep, l: LedgerView) -> bool {
    &&& l.guest_ip is Some <==> fork_place(step) > 0
    &&& l.cid is Some <==> fork_place(step) > 1
    &&& l.lease is Some <==> fork_place(step) > 1
    &&& l.tap_name is Some <==> fork_place(step) > 2
    &&& l.vm_dir is Some <==> fork_place(step) > 4
    &&& l.vm_id is Some <==> fork_place(step) > 6
}

/// The source's lock is needed at this step.
pub open spec fn needs_source(step: ForkStep) -> bool {
    fork_place(step) <= fork_place(ForkStep::Restore)
}

/// A fork under way.
#[derive(Debug)]
pub struct Forking {
    pub step: ForkStep,
    /// The step that failed, once one has.
    pub failed_at: Option<ForkStep>,
    pub resources: AllocatedResources,
}

impl Forking {
    /// The ledger holds exactly what the steps before the due, or the failed, one
    /// took.
    pub open spec fn wf(self) -> bool {
        if self.step == ForkStep::Failed {
            &&& self.failed_at is Some
            &&& self.failed_at->0 != ForkStep::Failed
            &&& self.failed_at->0 != ForkStep::Done
            &&& fork_holds(self.failed_at->0, self.resources@)
        } else {
            &&& self.failed_at is None
            &&& fork_holds(self.step, self.resources@)
        }
    }

    /// Nothing is taken yet.
    pub fn begin() -> (r: Forking)
        ensures
            r.wf(),
            r.step == ForkStep::AllocateIp && r.resources@ == nothing_held(),
    {
        Forking {
            step: ForkStep::AllocateIp,
            failed_at: None,
            resources: AllocatedResources::default(),
        }
    }

    fn following(&self) -> (r: ForkStep)
        ensures
            r == fork_next(self.step),
    {
        match self.step {
            ForkStep::AllocateIp => ForkStep::BeginLease,
            ForkStep::BeginLease => ForkStep::NoteLease,
            ForkStep::NoteLease => ForkStep::CreateTap,
            ForkStep::CreateTap => ForkStep::CreateDir,
            ForkStep::CreateDir => ForkStep::CloneRootfs,
            ForkStep::CloneRootfs => ForkStep::Restore,
            ForkStep::Restore => ForkStep::Rehome,
            ForkStep::Rehome => ForkStep::AttachTap,
            ForkStep::AttachTap => ForkStep::Insert,
            ForkStep::Insert => ForkStep::Done,
            ForkStep::Done => ForkStep::Done,
            ForkStep::Failed => ForkStep::Failed,
        }
    }

    /// Book how the due step came out, and move on to the next one.
    pub fn advance(&mut self, outcome: ForkOutcome)
        requires
            old(self).wf(),
            fork_outcome_fits(old(self).step, outcome),
        ensures
            final(self).wf(),
            final(self).resources@ == fork_booked(old(self).resources@, old(self).step, outcome),
            outcome is Refused ==> final(self).step == ForkStep::Failed && final(self).failed_at
                == Some(old(self).step),
            outcome !is Refused ==> final(self).step == fork_next(old(self).step),
            outcome !is Refused ==> final(self).failed_at is None,
    {
        let next = self.following();
        match outcome {
            ForkOutcome::Refused => {
                self.failed_at = Some(self.step);
                self.step = ForkStep::Failed;
                return;
            },
            ForkOutcome::Passed => {
                if self.step == ForkStep::NoteLease {
                    if let Some(cid) = self.resources.cid {
                        self.resources.tap_name = Some(tap_name(cid));
                    }
                }
            },
            ForkOutcome::TookIp(ip) => {
                self.resources.guest_ip = Some(ip);
            },
            ForkOutcome::TookLease { id, cid } => {
                self.resources.cid = Some(cid);
                self.resources.host_resource_lease_id = Some(id);
            },
            ForkOutcome::TookDir(dir) => {
                self.resources.vm_dir = Some(dir);
            },
            ForkOutcome::TookVm(id) => {
                self.resources.vm_id = Some(id);
            },
        }
        self.step = next;
    }

    /// Whether the source's lock is still needed: until the snapshot is restored,
    /// the source's disk is moved aside.
    pub fn holds_source(&self) -> (r: bool)
        ensures
            r == needs_source(self.step),
    {
        match self.step {
            ForkStep::AllocateIp => true,
            ForkStep::BeginLease => true,
            ForkStep::NoteLease => true,
            ForkStep::CreateTap => true,
            ForkStep::CreateDir => true,
            ForkStep::CloneRootfs => true,
            ForkStep::Restore => true,
            _ => false,
        }
    }
}

/// However a fork fails, what it took is given back, a TAP that may be half created
/// among it, and the lease that vouched for it last.
pub proof fn failed_forks_leave_nothing_behind(f: Forking)
    requires
        f.wf(),
        f.step == ForkStep::Failed,
    ensures
        ({
            let l = f.resources@;
            let at = fork_place(f.failed_at->0);
            let back = rollback_of(l);
            &&& at > 0 <==> back.contains(ReleaseView::FreeIp(l.guest_ip->0))
            &&& at > 1 <==> back.contains(ReleaseView::FreeCid(l.cid->0))
            &&& at > 1 <==> back.contains(ReleaseView::ReleaseLease(l.lease->0))
            &&& at > 1 ==> back.last() == ReleaseView::ReleaseLease(l.lease->0)
            &&& at >= fork_place(ForkStep::CreateTap) <==> back.contains(
                ReleaseView::DeleteTap(l.tap_name->0),
            )
            &&& at > 4 <==> back.contains(ReleaseView::RemoveDir(l.vm_dir->0))
            &&& at > 6 <==> back.contains(ReleaseView::DestroyVm(l.vm_id->0))
        }),
{
    let l = f.resources@;
    let back = rollback_of(l);
    if l.vm_id is Some {
        assert(back[0] == ReleaseView::DestroyVm(l.vm_id->0));
    }
    let n = if l.vm_id is Some { 1int } else { 0 };
    if l.vm_dir is Some {
        assert(back[n] == ReleaseView::RemoveDir(l.vm_dir->0));
    }
    let m = n + if l.vm_dir is Some { 1int } else { 0 };
    if l.tap_name is Some {
        assert(back[m] == ReleaseView::RemoveForwards(l.tap_name->0));
        assert(back[m + 1] == ReleaseView::DeleteTap(l.tap_name->0));
    }
    let k = m + if l.tap_name is Some { 2int } else { 0 };
    if l.cid is Some {
        assert(back[k] == ReleaseView::FreeCid(l.cid->0));
    }
    let j = k + if l.cid is Some { 1int } else { 0 };
    if l.guest_ip is Some {
        assert(back[j] == ReleaseView::FreeIp(l.guest_ip->0));
    }
    if l.lease is Some {
        assert(back[back.len() - 1] == ReleaseView::ReleaseLease(l.lease->0));
    }
}

/// A fork never joins the bridge with its source's identity: its TAP is attached
/// only right after the guest was given its own.
pub proof fn forks_are_rehomed_before_they_join(step: ForkStep)
    ensures
        fork_next(step) == ForkStep::AttachTap <==> step == ForkStep::Rehome,
        fork_place(ForkStep::CreateTap) < fork_place(ForkStep::Rehome) < fork_place(
            ForkStep::AttachTap,
        ),
{
}

/// The steps of a fork come in this order: an address, a lease on a context id that is
/// noted before anything goes by it, the TAP, the directory and the disk, the restore, the
/// guest's own identity, the bridge, and the record last. No step is skipped or repeated,
/// and the source's lock is kept up to the restore and no longer.
pub proof fn forks_take_their_steps_in_order(step: ForkStep)
    ensures
        step != ForkStep::Done && step != ForkStep::Failed ==> fork_place(fork_next(step))
            == fork_place(step) + 1,
        fork_next(step) == ForkStep::Done <==> step == ForkStep::Insert || step == ForkStep::Done,
        fork_place(ForkStep::AllocateIp) < fork_place(ForkStep::BeginLease) < fork_place(
            ForkStep::NoteLease,
        ) < fork_place(ForkStep::CreateTap) < fork_place(ForkStep::CreateDir) < fork_place(
            ForkStep::CloneRootfs,
        ) < fork_place(ForkStep::Restore) < fork_place(ForkStep::Rehome) < fork_place(
            ForkStep::AttachTap,
        ) < fork_place(ForkStep::Insert),
        needs_source(ForkStep::CloneRootfs) && needs_source(ForkStep::Restore),
        !needs_source(ForkStep::Rehome) && !needs_source(ForkStep::Insert),
        needs_source(fork_next(step)) ==> needs_source(step),
{
}

/// A fork books what it took and nothing else, and its TAP goes by the context id that it
/// leased itself.
pub proof fn forks_book_what_they_take(l: LedgerView, step: ForkStep, outcome: ForkOutcome)
    ensures
        ({
            let b = fork_booked(l, step, outcome);
            &&& outcome matches ForkOutcome::TookIp(ip) ==> b == (LedgerView {
                guest_ip: Some(ip),
                ..l
            })
            &&& outcome matches ForkOutcome::TookLease { id, cid } ==> b.lease == Some(id) && b.cid
                == Some(cid) && b == (LedgerView { lease: b.lease, cid: b.cid, ..l })
            &&& outcome matches ForkOutcome::TookDir(d) ==> b == (LedgerView {
                vm_dir: Some(d@),
                ..l
            })
            &&& outcome matches ForkOutcome::TookVm(id) ==> b == (LedgerView {
                vm_id: Some(id),
                ..l
            })
            &&& outcome is Refused ==> b == l
            &&& outcome is Passed && step != ForkStep::NoteLease ==> b == l
            &&& outcome is Passed && step == ForkStep::NoteLease && l.cid is Some ==> b == (
            LedgerView { tap_name: Some("husker"@ + decimal(l.cid->0 as nat)), ..l })
        }),
{
}

/// A fork lives on its own TAP and in its own place in the network. The TAP in its record
/// is the one that its steps booked and that its snapshot was restored onto, and it is not
/// its source's, whose context id is another. The address in its record is the one that
/// its guest is given. Its disk is its own copy of the source's.
pub proof fn forks_live_on_their_own_tap(
    source: VmRecord,
    fork_name: Seq<char>,
    id: u128,
    pid: Option<u32>,
    cid: u32,
    guest_ip: Ipv4,
    gateway: Ipv4,
    now: Timestamp,
    storage: StorageLayout,
    target: RestoreTarget,
    core: HuskerCore,
    prefix_len: u8,
    mac: Seq<char>,
    place: NetworkIdentity,
    booked: LedgerView,
)
    requires
        is_fork_target(target, storage, source, fork_name, id, cid),
        is_fork_identity(place, core, guest_ip, prefix_len, gateway, mac),
        booked.cid == Some(cid),
    ensures
        ({
            let fork = fork_of(source, fork_name, id, pid, cid, guest_ip, gateway, now);
            &&& fork.vsock_cid == cid
            &&& fork.tap_device == Some("husker"@ + decimal(cid as nat))
            &&& fork.tap_device == fork_booked(
                booked,
                ForkStep::NoteLease,
                ForkOutcome::Passed,
            ).tap_name
            &&& fork.tap_device != Some(tap_of(source.vsock_cid)) || cid == source.vsock_cid
            &&& fork.guest_ip == Some(place.address@) && fork.host_ip == Some(place.gateway@)
            &&& place.mac@ == mac && place.prefix_len == prefix_len && place.interface@ == "eth0"@
            &&& views(place.dns@) == views(core.dns_servers@)
            &&& target matches RestoreTarget::Fork {
                id: i,
                name,
                vcpu_count,
                mem_size_mib,
                vsock_cid,
                tap_device,
                source_rootfs,
                fork_rootfs,
            } && i == fork.id && name@ == fork.name && vcpu_count == fork.vcpu_count
                && mem_size_mib == fork.mem_size_mib && vsock_cid == fork.vsock_cid && Some(
                tap_device@,
            ) == fork.tap_device && source_rootfs@ == rootfs_of(storage.vms_dir@, source.name@)
                && fork_rootfs@ == rootfs_of(storage.vms_dir@, fork.name)
        }),
{
    taps_are_distinct(cid, source.vsock_cid);
}

/// A fork is recorded as running, as big as its source and booted as it was, from now on,
/// and with nothing of the source's that would be shared or run twice: no volume, no
/// script, no service, no policy.
pub proof fn forks_are_recorded_as_what_they_are(
    source: VmRecord,
    fork_name: Seq<char>,
    id: u128,
    pid: Option<u32>,
    cid: u32,
    guest_ip: Ipv4,
    gateway: Ipv4,
    now: Timestamp,
)
    ensures
        ({
            let fork = fork_of(source, fork_name, id, pid, cid, guest_ip, gateway, now);
            &&& fork.id == id && fork.name == fork_name && fork.pid == pid
            &&& fork.state == "running"@ && fork.network == "nat"@
            &&& fork.guest_ip == Some(dotted(guest_ip)) && fork.host_ip == Some(dotted(gateway))
            &&& fork.vcpu_count == source.vcpu_count && fork.mem_size_mib == source.mem_size_mib
            &&& fork.kernel_path == source.kernel_path@ && fork.rootfs_path == source.rootfs_path@
            &&& fork.vmm == source.vmm@ && fork.boot_mode == source.boot_mode@
            &&& fork.created_at == now && fork.updated_at == now && fork.last_activity_at == now
            &&& fork.userdata is None && fork.userdata_status is None && fork.userdata_env is None
            &&& fork.service_id is None && fork.service_ordinal is None
            &&& fork.volume is None && !fork.balloon
            &&& fork.suspended_at is None && fork.idle_timeout_secs is None && fork.suspend_ttl_secs
                is None && fork.auto_resume
            &&& fork.forked_from == Some(source.id)
        }),
{
}

/// A fork of a VM that could be forked runs under its own name and identity, and
/// leaves no doubt about where it came from.
pub proof fn forks_have_their_own_identity(
    source: VmRecord,
    fork_name: Seq<char>,
    id: u128,
    pid: Option<u32>,
    cid: u32,
    guest_ip: Ipv4,
    gateway: Ipv4,
    now: Timestamp,
)
    requires
        fork_names_verdict(source.name@, fork_name) is Ok,
    ensures
        ({
            let fork = fork_of(source, fork_name, id, pid, cid, guest_ip, gateway, now);
            &&& fork.name != source.name@
            &&& fork.forked_from == Some(source.id)
            &&& fork.volume is None
            &&& fork.service_id is None
            &&& fork.idle_timeout_secs is None
        }),
{
}

// ---------------------------------------------------------------------------
// Re-homing the guest
// ---------------------------------------------------------------------------

/// How an attempt to give the guest its own network identity came out, and what
/// follows.
#[derive(Debug)]
pub enum Rehoming {
    /// The guest has its identity.
    Done,
    /// Try again after a pause.
    Retry,
    /// There is no point in trying again.
    GiveUp(CoreError),
}

/// Milliseconds that pass between two attempts.
pub const REHOME_RETRY_MILLIS: u64 = 300;

/// Seconds after which no further attempt is made.
pub const REHOME_DEADLINE_SECS: u64 = 10;

/// What follows an attempt to give the guest its own network identity.
pub open spec fn follows_rehoming(
    attempt: Result<(), CoreError>,
    deadline_passed: bool,
    r: Rehoming,
) -> bool {
    match attempt {
        Ok(_) => r is Done,
        Err(e) => if e matches CoreError::Agent(AgentErrorKind::UnexpectedResponse, _) {
            r is GiveUp && r->GiveUp_0@ == ErrorView::InvalidArgument(
                "fork requires live network reconfiguration, but the guest agent does not support it; rebuild the source VM's rootfs with a current husker-agent, then suspend it again before forking"@,
            )
        } else if deadline_passed {
            r is GiveUp && r->GiveUp_0 == e
        } else {
            r is Retry
        },
    }
}

/// A guest that took its identity is done with, one that does not know how is given up at
/// once, and any other is tried again while there is time. What is given up in the end is
/// told as it failed.
pub proof fn rehoming_is_tried_while_it_may_help(
    attempt: Result<(), CoreError>,
    deadline_passed: bool,
    r: Rehoming,
)
    requires
        follows_rehoming(attempt, deadline_passed, r),
    ensures
        r is Done <==> attempt is Ok,
        r is Retry ==> !deadline_passed,
        attempt matches Err(e) ==> {
            let too_old = e is Agent && e->Agent_0 == AgentErrorKind::UnexpectedResponse;
            &&& too_old ==> r is GiveUp && r->GiveUp_0@ is InvalidArgument
            &&& !too_old ==> (r is GiveUp <==> deadline_passed)
            &&& !too_old && r is GiveUp ==> r->GiveUp_0 == e
        },
        REHOME_RETRY_MILLIS * 10 < REHOME_DEADLINE_SECS * 1000,
{
}

/// Decide what follows an attempt to give the guest its own network identity. An
/// agent that does not understand the request is too old: trying again cannot
/// help. Any other failure is tried again until the deadline.
pub fn after_rehome_attempt(attempt: Result<(), CoreError>, deadline_passed: bool) -> (r: Rehoming)
    ensures
        follows_rehoming(attempt, deadline_passed, r),
{
    match attempt {
        Ok(_) => Rehoming::Done,
        Err(CoreError::Agent(AgentErrorKind::UnexpectedResponse, _)) => Rehoming::GiveUp(
            invalid_argument(
                "fork requires live network reconfiguration, but the guest agent does not support it; rebuild the source VM's rootfs with a current husker-agent, then suspend it again before forking",
            ),
        ),
        Err(e) => {
            if deadline_passed {
                Rehoming::GiveUp(e)
            } else {
                Rehoming::Retry
            }
        },
    }
}

} // verus!
