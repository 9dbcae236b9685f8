//! Taking a VM down for good, and giving back what crashed VMs and interrupted
//! creations still hold.

use vstd::prelude::*;
use vstd::string::*;

use crate::activity::forget_baselines;
#[allow(unused_imports)]
use crate::activity::{baselines_forgotten, forgotten, forward_comment};
use crate::error::{CoreError, StateError, VmmErrorKind};
#[allow(unused_imports)]
use crate::error::{unit_view, ErrorView, StateErrorView};
use crate::ipv4::{parse_ipv4, Ipv4};
#[allow(unused_imports)]
use crate::ipv4::{dotted, dotted_notation_is_unique};
use crate::logs::{boot_log_path, serial_log_path, suspend_slot_dir, userdata_log_path};
#[allow(unused_imports)]
use crate::logs::{runtime_file, slot_dir};
use crate::path::join;
#[allow(unused_imports)]
use crate::path::joined;
use crate::records::VmRecord;
use crate::settings::HuskerCore;
#[allow(unused_imports)]
use crate::text::opt_view;

verus! {

/// One thing that is taken down when a VM is destroyed.
#[derive(Debug)]
pub enum Teardown {
    /// Remove the kernel's forwards on the TAP.
    RemoveForwards(String),
    /// Delete the TAP; that detaches it from the bridge.
    DeleteTap(String),
    /// Free the address.
    FreeIp(Ipv4),
    /// Close listeners that would wake the VM.
    CloseListeners(u128),
    /// Free the vsock context id.
    FreeCid(u32),
    /// Delete the records of the VM's forwards.
    DeleteForwardRows(u128),
    /// Remove a directory with everything in it.
    RemoveDir(String),
    /// Remove a file.
    RemoveFile(String),
    /// Delete the VM's record.
    DeleteRecord(u128),
}

/// A [`Teardown`] with its texts as sequences of characters.
pub ghost enum TeardownView {
    RemoveForwards(Seq<char>),
    DeleteTap(Seq<char>),
    FreeIp(Ipv4),
    CloseListeners(u128),
    FreeCid(u32),
    DeleteForwardRows(u128),
    RemoveDir(Seq<char>),
    RemoveFile(Seq<char>),
    DeleteRecord(u128),
}

impl View for Teardown {
    type V = TeardownView;

    open spec fn view(&self) -> TeardownView {
        match *self {
            Teardown::RemoveForwards(t) => TeardownView::RemoveForwards(t@),
            Teardown::DeleteTap(t) => TeardownView::DeleteTap(t@),
            Teardown::FreeIp(ip) => TeardownView::FreeIp(ip),
            Teardown::CloseListeners(id) => TeardownView::CloseListeners(id),
            Teardown::FreeCid(c) => TeardownView::FreeCid(c),
            Teardown::DeleteForwardRows(id) => TeardownView::DeleteForwardRows(id),
            Teardown::RemoveDir(d) => TeardownView::RemoveDir(d@),
            Teardown::RemoveFile(f) => TeardownView::RemoveFile(f@),
            Teardown::DeleteRecord(id) => TeardownView::DeleteRecord(id),
        }
    }
}

/// The views of a list of teardowns.
pub open spec fn teardown_views(v: Seq<Teardown>) -> Seq<TeardownView> {
    v.map_values(|t: Teardown| t@)
}

/// A failure of this teardown ends the destruction; the others are best effort.
pub open spec fn must_succeed(t: TeardownView) -> bool {
    t is FreeCid || t is DeleteForwardRows || t is DeleteRecord
}

/// The address that a recorded text stands for.
pub open spec fn address_in(text: Option<Seq<char>>, ip: Ipv4) -> bool {
    text == Some(dotted(ip))
}

/// What is taken down of a VM on its network side.
pub open spec fn network_teardown(vm: VmRecord, ip: Option<Ipv4>) -> Seq<TeardownView> {
    let tap = match vm.tap_device {
        Some(t) => seq![TeardownView::RemoveForwards(t@), TeardownView::DeleteTap(t@)],
        None => seq![],
    };
    let address = match ip {
        Some(a) => seq![TeardownView::FreeIp(a)],
        None => seq![],
    };
    tap + address
}

/// What is taken down when a VM is destroyed, in order: the network, the
/// listeners, what others could trip over, the files, and at last the record.
pub open spec fn destruction(
    vm: VmRecord,
    ip: Option<Ipv4>,
    vms_dir: Seq<char>,
    runtime_dir: Seq<char>,
    data_dir: Seq<char>,
) -> Seq<TeardownView> {
    network_teardown(vm, ip) + seq![
        TeardownView::CloseListeners(vm.id),
        TeardownView::FreeCid(vm.vsock_cid),
        TeardownView::DeleteForwardRows(vm.id),
        TeardownView::RemoveDir(joined(vms_dir, vm.name@)),
        TeardownView::RemoveFile(runtime_file(runtime_dir, vm.id, ".serial.log"@)),
        TeardownView::RemoveFile(runtime_file(runtime_dir, vm.id, ".userdata.log"@)),
        TeardownView::RemoveFile(runtime_file(runtime_dir, vm.id, ".boot.log"@)),
        TeardownView::RemoveDir(slot_dir(data_dir, vm.id)),
        TeardownView::DeleteRecord(vm.id),
    ]
}

/// `ip` is the address that the VM is recorded with, if it is recorded with one.
pub open spec fn recorded_address(vm: VmRecord, ip: Option<Ipv4>) -> bool {
    match ip {
        Some(a) => address_in(crate::text::opt_view(vm.guest_ip), a),
        None => forall|a: Ipv4| !#[trigger] address_in(crate::text::opt_view(vm.guest_ip), a),
    }
}

/// The address that a VM is recorded with, where it can be read.
pub fn guest_address(vm: &VmRecord) -> (r: Option<Ipv4>)
    ensures
        recorded_address(*vm, r),
{
    match &vm.guest_ip {
        Some(text) => {
            let ip = parse_ipv4(text.as_str());
            proof {
                if ip is None {
                    assert forall|a: Ipv4| !#[trigger] address_in(
                        crate::text::opt_view(vm.guest_ip),
                        a,
                    ) by {
                        assert(text@ != dotted(a));
                    }
                }
            }
            ip
        },
        None => None,
    }
}

/// What the backend's answer to being asked to destroy a VM means for its destruction.
pub open spec fn destroyed_by_backend(outcome: Result<(), (VmmErrorKind, String)>) -> Result<
    (),
    ErrorView,
> {
    match outcome {
        Ok(_) => Ok(()),
        Err(e) => if e.0 == VmmErrorKind::VmNotFound {
            Ok(())
        } else {
            Err(ErrorView::Vmm(e.0, e.1@))
        },
    }
}

/// A destruction goes on where the backend has no process any more: it destroyed it, or
/// knows of none. Where the backend failed, nothing is taken from under a process that may
/// live, and its failure is told as it was.
pub proof fn destructions_stop_at_a_living_process(outcome: Result<(), (VmmErrorKind, String)>)
    ensures
        outcome is Ok ==> destroyed_by_backend(outcome) is Ok,
        outcome matches Err(e) ==> (destroyed_by_backend(outcome) is Ok <==> e.0
            == VmmErrorKind::VmNotFound),
        outcome matches Err(e) ==> e.0 != VmmErrorKind::VmNotFound ==> destroyed_by_backend(outcome)
            == Err::<(), ErrorView>(ErrorView::Vmm(e.0, e.1@)),
{
}

/// Whether the destruction goes on after the backend was asked to destroy the VM:
/// a VM that the backend no longer tracks is as good as destroyed.
pub fn backend_destroyed(outcome: Result<(), (VmmErrorKind, String)>) -> (r: Result<(), CoreError>)
    ensures
        unit_view(r) == destroyed_by_backend(outcome),
{
    match outcome {
        Ok(_) => Ok(()),
        Err((kind, text)) => {
            if kind == VmmErrorKind::VmNotFound {
                Ok(())
            } else {
                Err(CoreError::Vmm(kind, text))
            }
        },
    }
}

/// Everything that is taken down when a VM is destroyed, in order.
pub fn destroy_vm(core: &HuskerCore, vm: &VmRecord) -> (r: Vec<Teardown>)
    ensures
        exists|ip: Option<Ipv4>| #[trigger]
            recorded_address(*vm, ip) && teardown_views(r@) == destruction(
                *vm,
                ip,
                core.storage.vms_dir@,
                core.runtime_dir@,
                core.storage.data_dir@,
            ),
{
    let mut r: Vec<Teardown> = Vec::new();
    let ip = guest_address(vm);
    if let Some(tap) = &vm.tap_device {
        r.push(Teardown::RemoveForwards(tap.clone()));
        r.push(Teardown::DeleteTap(tap.clone()));
    }
    if let Some(a) = ip {
        r.push(Teardown::FreeIp(a));
    }
    r.push(Teardown::CloseListeners(vm.id));
    r.push(Teardown::FreeCid(vm.vsock_cid));
    r.push(Teardown::DeleteForwardRows(vm.id));
    r.push(Teardown::RemoveDir(join(core.storage.vms_dir.as_str(), vm.name.as_str())));
    r.push(Teardown::RemoveFile(serial_log_path(core.runtime_dir.as_str(), vm.id)));
    r.push(Teardown::RemoveFile(userdata_log_path(core.runtime_dir.as_str(), vm.id)));
    r.push(Teardown::RemoveFile(boot_log_path(core.runtime_dir.as_str(), vm.id)));
    r.push(Teardown::RemoveDir(suspend_slot_dir(core.storage.data_dir.as_str(), vm.id)));
    r.push(Teardown::DeleteRecord(vm.id));
    proof {
        assert(teardown_views(r@) =~= destruction(
            *vm,
            ip,
            core.storage.vms_dir@,
            core.runtime_dir@,
            core.storage.data_dir@,
        ));
        assert(recorded_address(*vm, ip));
    }
    r
}

/// Whether a failure of this teardown ends the destruction.
pub fn is_fatal(t: &Teardown) -> (r: bool)
    ensures
        r == must_succeed(t@),
{
    match t {
        Teardown::FreeCid(_) => true,
        Teardown::DeleteForwardRows(_) => true,
        Teardown::DeleteRecord(_) => true,
        _ => false,
    }
}

/// A VM's record goes last, so that nothing of a VM outlives the record by which it
/// could be found and destroyed again.
pub proof fn the_record_goes_last(
    vm: VmRecord,
    ip: Option<Ipv4>,
    vms_dir: Seq<char>,
    runtime_dir: Seq<char>,
    data_dir: Seq<char>,
)
    ensures
        destruction(vm, ip, vms_dir, runtime_dir, data_dir).last() == TeardownView::DeleteRecord(
            vm.id,
        ),
        forall|i: int|
            0 <= i < destruction(vm, ip, vms_dir, runtime_dir, data_dir).len() - 1
                ==> !(#[trigger] destruction(vm, ip, vms_dir, runtime_dir, data_dir)[i] is DeleteRecord),
{
    let d = destruction(vm, ip, vms_dir, runtime_dir, data_dir);
    let n = network_teardown(vm, ip);
    assert forall|i: int| 0 <= i < d.len() - 1 implies !(#[trigger] d[i] is DeleteRecord) by {
        if i < n.len() {
            assert(d[i] == n[i]);
        }
    }
}

/// Everything that a VM holds on the host is among what is taken down.
pub proof fn nothing_of_a_vm_is_left(
    vm: VmRecord,
    ip: Option<Ipv4>,
    vms_dir: Seq<char>,
    runtime_dir: Seq<char>,
    data_dir: Seq<char>,
)
    ensures
        ({
            let d = destruction(vm, ip, vms_dir, runtime_dir, data_dir);
            &&& vm.tap_device matches Some(t) ==> d.contains(TeardownView::DeleteTap(t@))
                && d.contains(TeardownView::RemoveForwards(t@))
            &&& ip matches Some(a) ==> d.contains(TeardownView::FreeIp(a))
            &&& d.contains(TeardownView::FreeCid(vm.vsock_cid))
            &&& d.contains(TeardownView::RemoveDir(joined(vms_dir, vm.name@)))
            &&& d.contains(TeardownView::RemoveDir(slot_dir(data_dir, vm.id)))
            &&& d.contains(TeardownView::DeleteForwardRows(vm.id))
            &&& d.contains(TeardownView::CloseListeners(vm.id))
            &&& d.contains(TeardownView::RemoveFile(runtime_file(runtime_dir, vm.id, ".serial.log"@)))
            &&& d.contains(
                TeardownView::RemoveFile(runtime_file(runtime_dir, vm.id, ".userdata.log"@)),
            )
            &&& d.contains(TeardownView::RemoveFile(runtime_file(runtime_dir, vm.id, ".boot.log"@)))
            &&& d.contains(TeardownView::DeleteRecord(vm.id))
        }),
{
    let d = destruction(vm, ip, vms_dir, runtime_dir, data_dir);
    let n = network_teardown(vm, ip);
    let k = n.len() as int;
    assert(d[k] == TeardownView::CloseListeners(vm.id));
    assert(d[k + 4] == TeardownView::RemoveFile(runtime_file(runtime_dir, vm.id, ".serial.log"@)));
    assert(d[k + 5] == TeardownView::RemoveFile(
        runtime_file(runtime_dir, vm.id, ".userdata.log"@),
    ));
    assert(d[k + 6] == TeardownView::RemoveFile(runtime_file(runtime_dir, vm.id, ".boot.log"@)));
    assert(d[k + 8] == TeardownView::DeleteRecord(vm.id));
    assert(d[k + 1] == TeardownView::FreeCid(vm.vsock_cid));
    assert(d[k + 2] == TeardownView::DeleteForwardRows(vm.id));
    assert(d[k + 3] == TeardownView::RemoveDir(joined(vms_dir, vm.name@)));
    assert(d[k + 7] == TeardownView::RemoveDir(slot_dir(data_dir, vm.id)));
    if let Some(t) = vm.tap_device {
        assert(d[0] == TeardownView::RemoveForwards(t@));
        assert(d[1] == TeardownView::DeleteTap(t@));
    }
    if let Some(a) = ip {
        assert(d[k - 1] == TeardownView::FreeIp(a));
    }
}

/// The bookkeeping of a VM was dropped.
pub open spec fn forgot_vm(
    before: HuskerCore,
    vm: VmRecord,
    ports: Seq<u16>,
    after: HuskerCore,
) -> bool {
    &&& after.clocks@ == forgotten(before.clocks@, vm.id)
    &&& after.active_sessions@ == before.active_sessions@.remove(vm.id)
    &&& match vm.tap_device {
        Some(tap) => baselines_forgotten(
            before.network_counters@,
            after.network_counters@,
            tap@,
            ports,
        ),
        None => after.network_counters == before.network_counters,
    }
    &&& after == (HuskerCore {
        clocks: after.clocks,
        active_sessions: after.active_sessions,
        network_counters: after.network_counters,
        ..before
    })
}

/// Nothing is remembered of a VM that was destroyed: no clock, no session and no baseline of
/// its forwards. Everything that is remembered of another stays, and so do the settings.
pub proof fn nothing_is_remembered_of_destroyed_vms(
    before: HuskerCore,
    vm: VmRecord,
    ports: Seq<u16>,
    after: HuskerCore,
    other: u128,
    i: int,
)
    requires
        forgot_vm(before, vm, ports, after),
        other != vm.id,
    ensures
        !after.clocks@.control_plane.dom().contains(vm.id),
        !after.clocks@.network.dom().contains(vm.id),
        !after.active_sessions@.dom().contains(vm.id),
        vm.tap_device is Some && 0 <= i < ports.len() ==> !after.network_counters@.dom().contains(
            forward_comment(vm.tap_device->0@, ports[i]),
        ),
        vm.tap_device is None ==> after.network_counters == before.network_counters,
        after.active_sessions@.dom().contains(other) <==> before.active_sessions@.dom().contains(
            other,
        ),
        before.active_sessions@.dom().contains(other) ==> after.active_sessions@[other]
            == before.active_sessions@[other],
        after.clocks@.control_plane.dom().contains(other)
            <==> before.clocks@.control_plane.dom().contains(other),
        after.clocks@.network.dom().contains(other) <==> before.clocks@.network.dom().contains(
            other,
        ),
        after.idle_metrics == before.idle_metrics && after.storage == before.storage,
{
    if vm.tap_device is Some && 0 <= i < ports.len() {
        assert(forward_comment(vm.tap_device->0@, ports[i]) == forward_comment(
            vm.tap_device->0@,
            ports[i],
        ));
    }
}

impl HuskerCore {
    /// Drop the bookkeeping of a VM that is destroyed: its clocks, its sessions and
    /// the traffic baselines of its forwards.
    pub fn forget_vm(&mut self, vm: &VmRecord, ports: &Vec<u16>)
        ensures
            forgot_vm(*old(self), *vm, ports@, *final(self)),
    {
        if let Some(tap) = &vm.tap_device {
            forget_baselines(&mut self.network_counters, tap.as_str(), ports);
        }
        self.clocks.forget(vm.id);
        self.active_sessions.forget(vm.id);
    }
}

/// What taking down a TAP came to, by how its parts went.
pub open spec fn tap_removal(
    egress: Result<(), String>,
    forwards: Result<(), String>,
    tap: Result<(), String>,
) -> Result<(), ErrorView> {
    if egress is Err {
        Err(ErrorView::Network(egress->Err_0@))
    } else if forwards is Err {
        Err(ErrorView::Network(forwards->Err_0@))
    } else if tap is Err {
        Err(ErrorView::Network(tap->Err_0@))
    } else {
        Ok(())
    }
}

/// A TAP is gone where all of it is, and else what failed first is told.
pub proof fn taps_are_gone_when_all_of_them_is(
    egress: Result<(), String>,
    forwards: Result<(), String>,
    tap: Result<(), String>,
)
    ensures
        tap_removal(egress, forwards, tap) is Ok <==> egress is Ok && forwards is Ok && tap is Ok,
        egress matches Err(e) ==> tap_removal(egress, forwards, tap) == Err::<(), ErrorView>(
            ErrorView::Network(e@),
        ),
        egress is Ok ==> (forwards matches Err(e) ==> tap_removal(egress, forwards, tap) == Err::<
            (),
            ErrorView,
        >(ErrorView::Network(e@))),
        egress is Ok && forwards is Ok ==> (tap matches Err(e) ==> tap_removal(egress, forwards, tap)
            == Err::<(), ErrorView>(ErrorView::Network(e@))),
{
}

/// What taking down a TAP came to: the egress policy, the forwards and the TAP are
/// all attempted, and the first of them that failed is reported.
pub fn tap_removed(
    egress: Result<(), String>,
    forwards: Result<(), String>,
    tap: Result<(), String>,
) -> (r: Result<(), CoreError>)
    ensures
        unit_view(r) == tap_removal(egress, forwards, tap),
{
    if let Err(e) = egress {
        return Err(CoreError::Network(e));
    }
    if let Err(e) = forwards {
        return Err(CoreError::Network(e));
    }
    if let Err(e) = tap {
        return Err(CoreError::Network(e));
    }
    Ok(())
}

/// The address to free once the kernel's resources of a VM are gone, or that there is
/// something in its place that is none.
pub open spec fn released_address(vm: VmRecord, r: Result<Option<Ipv4>, CoreError>) -> bool {
    match r {
        Ok(ip) => recorded_address(vm, ip) && (ip is None ==> vm.guest_ip is None),
        Err(e) => vm.guest_ip is Some && recorded_address(vm, None) && e@ == ErrorView::State(
            StateErrorView::CorruptData {
                column: "vms.guest_ip"@,
                message: "invalid IPv4 address syntax"@,
            },
        ),
    }
}

/// The address that is freed is the one that the record spells. A VM without one frees none,
/// and a text that spells none is never passed over: the data are corrupt, and that is told.
pub proof fn released_addresses_are_the_recorded_ones(
    vm: VmRecord,
    r: Result<Option<Ipv4>, CoreError>,
    a: Ipv4,
)
    requires
        released_address(vm, r),
    ensures
        opt_view(vm.guest_ip) == Some(dotted(a)) ==> r == Ok::<Option<Ipv4>, CoreError>(Some(a)),
        vm.guest_ip is None ==> r == Ok::<Option<Ipv4>, CoreError>(None),
        r is Err ==> r->Err_0@ is State && r->Err_0@->State_0 is CorruptData
            && r->Err_0@->State_0->column == "vms.guest_ip"@,
        r is Err ==> opt_view(vm.guest_ip) != Some(dotted(a)),
{
    match r {
        Ok(ip) => {
            addresses_are_what_the_record_spells(vm, ip, ip, a);
        },
        Err(_) => {
            assert(!address_in(opt_view(vm.guest_ip), a));
        },
    }
}

/// The address to free once the kernel's resources of a VM are gone; a recorded
/// text that is no address is corrupt data.
pub fn release_vm_host_network(vm: &VmRecord) -> (r: Result<Option<Ipv4>, CoreError>)
    ensures
        released_address(*vm, r),
{
    match guest_address(vm) {
        Some(ip) => Ok(Some(ip)),
        None => {
            if vm.guest_ip.is_some() {
                Err(
                    CoreError::State(
                        StateError::CorruptData {
                            column: "vms.guest_ip".to_owned(),
                            message: "invalid IPv4 address syntax".to_owned(),
                        },
                    ),
                )
            } else {
                Ok(None)
            }
        },
    }
}

/// What is taken down of an abandoned VM whose record stays.
pub open spec fn reclamation(vm: VmRecord, ip: Option<Ipv4>) -> Seq<TeardownView> {
    network_teardown(vm, ip).push(TeardownView::DeleteForwardRows(vm.id))
}

/// Reclaiming a VM takes its network side down and the records of its forwards, all that
/// belongs to it and nothing of another VM's, and leaves its record, its files and its
/// context id.
pub proof fn reclaiming_takes_the_network_only(vm: VmRecord, ip: Option<Ipv4>, t: TeardownView)
    ensures
        reclamation(vm, ip).contains(t) <==> match t {
            TeardownView::RemoveForwards(tap) => opt_view(vm.tap_device) == Some(tap),
            TeardownView::DeleteTap(tap) => opt_view(vm.tap_device) == Some(tap),
            TeardownView::FreeIp(a) => ip == Some(a),
            TeardownView::DeleteForwardRows(id) => id == vm.id,
            _ => false,
        },
        reclamation(vm, ip).last() == TeardownView::DeleteForwardRows(vm.id),
        vm.tap_device is Some ==> reclamation(vm, ip)[0] is RemoveForwards,
{
    let r = reclamation(vm, ip);
    let k = if vm.tap_device is Some { 2int } else { 0 };
    if vm.tap_device is Some {
        assert(r[0] == TeardownView::RemoveForwards(vm.tap_device->0@));
        assert(r[1] == TeardownView::DeleteTap(vm.tap_device->0@));
    }
    if ip is Some {
        assert(r[k] == TeardownView::FreeIp(ip->0));
    }
    assert(r[r.len() - 1] == TeardownView::DeleteForwardRows(vm.id));
    if r.contains(t) {
        let i = choose|i: int| 0 <= i < r.len() && r[i] == t;
        assert(i < k || i == k || i == k + 1);
    }
}

/// What is taken down of an abandoned VM whose record stays: its network side and
/// the records of its forwards.
pub fn reclaim(vm: &VmRecord) -> (r: Vec<Teardown>)
    ensures
        exists|ip: Option<Ipv4>| #[trigger]
            recorded_address(*vm, ip) && teardown_views(r@) == reclamation(*vm, ip),
{
    let mut r: Vec<Teardown> = Vec::new();
    let ip = guest_address(vm);
    if let Some(tap) = &vm.tap_device {
        r.push(Teardown::RemoveForwards(tap.clone()));
        r.push(Teardown::DeleteTap(tap.clone()));
    }
    if let Some(a) = ip {
        r.push(Teardown::FreeIp(a));
    }
    r.push(Teardown::DeleteForwardRows(vm.id));
    proof {
        assert(teardown_views(r@) =~= network_teardown(*vm, ip).push(
            TeardownView::DeleteForwardRows(vm.id),
        ));
        assert(recorded_address(*vm, ip));
    }
    r
}

/// A VM without its network identity.
pub open spec fn stripped(vm: VmRecord) -> VmRecord {
    VmRecord { tap_device: None, host_ip: None, guest_ip: None, ..vm }
}

/// A reclaimed VM has no network identity left, and is otherwise the VM that it was.
pub proof fn reclaimed_vms_keep_all_but_their_network(vm: VmRecord)
    ensures
        stripped(vm).tap_device is None && stripped(vm).host_ip is None && stripped(vm).guest_ip
            is None,
        stripped(vm) == (VmRecord {
            tap_device: stripped(vm).tap_device,
            host_ip: stripped(vm).host_ip,
            guest_ip: stripped(vm).guest_ip,
            ..vm
        }),
{
}

/// An abandoned VM after its host resources were reclaimed: still recorded, without
/// a network identity.
pub fn without_network(vm: &VmRecord) -> (r: VmRecord)
    ensures
        r == stripped(*vm),
{
    let mut r = vm.clone();
    r.tap_device = None;
    r.host_ip = None;
    r.guest_ip = None;
    r
}

/// What was reclaimed once is not reclaimed again, and destroying it later frees
/// nothing on the network side twice.
pub proof fn reclaiming_is_done_once(
    vm: VmRecord,
    now: crate::time::Timestamp,
    grace_secs: int,
)
    ensures
        ({
            let r = stripped(vm);
            &&& !crate::policy::reclaimable(r, now, grace_secs)
            &&& network_teardown(r, None) =~= Seq::empty()
            &&& recorded_address(r, None)
        }),
{
}

/// A destruction touches nothing but the VM's own: its TAP, its address, its id, its
/// directory and slot, its three logs and its records.
pub proof fn destructions_touch_only_their_vm(
    vm: VmRecord,
    ip: Option<Ipv4>,
    vms_dir: Seq<char>,
    runtime_dir: Seq<char>,
    data_dir: Seq<char>,
    t: TeardownView,
)
    requires
        destruction(vm, ip, vms_dir, runtime_dir, data_dir).contains(t),
    ensures
        match t {
            TeardownView::RemoveForwards(tap) => opt_view(vm.tap_device) == Some(tap),
            TeardownView::DeleteTap(tap) => opt_view(vm.tap_device) == Some(tap),
            TeardownView::FreeIp(a) => ip == Some(a),
            TeardownView::CloseListeners(id) => id == vm.id,
            TeardownView::FreeCid(c) => c == vm.vsock_cid,
            TeardownView::DeleteForwardRows(id) => id == vm.id,
            TeardownView::RemoveDir(d) => d == joined(vms_dir, vm.name@) || d == slot_dir(
                data_dir,
                vm.id,
            ),
            TeardownView::RemoveFile(f) => f == runtime_file(runtime_dir, vm.id, ".serial.log"@) || f
                == runtime_file(runtime_dir, vm.id, ".userdata.log"@) || f == runtime_file(
                runtime_dir,
                vm.id,
                ".boot.log"@,
            ),
            TeardownView::DeleteRecord(id) => id == vm.id,
        },
{
    let d = destruction(vm, ip, vms_dir, runtime_dir, data_dir);
    let n = network_teardown(vm, ip);
    let i = choose|i: int| 0 <= i < d.len() && d[i] == t;
    if i < n.len() {
        assert(d[i] == n[i]);
        let k = if vm.tap_device is Some { 2int } else { 0 };
        assert(i < k || i == k);
    } else {
        let j = i - n.len();
        assert(j == 0 || j == 1 || j == 2 || j == 3 || j == 4 || j == 5 || j == 6 || j == 7 || j == 8);
    }
}

/// A destruction ends early only where what is left would mislead: the context id, the
/// records of the forwards and the VM's own record have to go. All else is best effort.
pub proof fn only_records_are_worth_failing_for(t: TeardownView)
    ensures
        must_succeed(t) <==> t is FreeCid || t is DeleteForwardRows || t is DeleteRecord,
        t is RemoveFile || t is RemoveDir || t is DeleteTap || t is RemoveForwards || t is FreeIp || t
            is CloseListeners ==> !must_succeed(t),
{
}

/// The forwards on a TAP go before the TAP, and the network before everything else.
pub proof fn networks_go_first(
    vm: VmRecord,
    ip: Option<Ipv4>,
    vms_dir: Seq<char>,
    runtime_dir: Seq<char>,
    data_dir: Seq<char>,
)
    requires
        vm.tap_device is Some,
    ensures
        destruction(vm, ip, vms_dir, runtime_dir, data_dir)[0] == TeardownView::RemoveForwards(
            vm.tap_device->0@,
        ),
        destruction(vm, ip, vms_dir, runtime_dir, data_dir)[1] == TeardownView::DeleteTap(
            vm.tap_device->0@,
        ),
        ip matches Some(a) ==> destruction(vm, ip, vms_dir, runtime_dir, data_dir)[2]
            == TeardownView::FreeIp(a),
{
}

/// A VM has one address at most, the one that its record spells.
pub proof fn addresses_are_what_the_record_spells(
    vm: VmRecord,
    ip: Option<Ipv4>,
    other: Option<Ipv4>,
    a: Ipv4,
)
    requires
        recorded_address(vm, ip),
    ensures
        opt_view(vm.guest_ip) == Some(dotted(a)) ==> ip == Some(a),
        vm.guest_ip is None ==> ip is None,
        recorded_address(vm, other) ==> other == ip,
{
    if let Some(b) = ip {
        if dotted(a) == dotted(b) {
            dotted_notation_is_unique(a, b);
        }
        if let Some(c) = other {
            if dotted(c) == dotted(b) {
                dotted_notation_is_unique(c, b);
            }
        }
    } else {
        assert(!address_in(opt_view(vm.guest_ip), a));
    }
}

} // verus!
