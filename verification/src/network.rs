//! Forwarded ports, guest addresses and memory balloons: what is asked of a VM
//! while it exists.

use vstd::prelude::*;
use vstd::string::*;

use crate::error::{invalid_state, CoreError, StateError};
#[allow(unused_imports)]
use crate::error::{unit_view, ErrorView, StateErrorView};
use crate::ipv4::{is_plausible_guest_ip, parse_ipv4, Ipv4};
#[allow(unused_imports)]
use crate::ipv4::{dotted, plausible_guest};
use crate::records::{Lifecycle, PortForwardRecord, VmRecord};
use crate::requests::PortForwardReconcile;
use crate::settings::Platform;
use crate::text::{opt_is, str_eq};
#[allow(unused_imports)]
use crate::text::{opt_str_view, opt_view};
use crate::time::Timestamp;

verus! {

// ---------------------------------------------------------------------------
// Guest addresses
// ---------------------------------------------------------------------------

/// The VM's address is assigned inside the guest and has to be asked for: it runs,
/// boots through EFI firmware, and has none yet.
pub open spec fn address_unknown(vm: VmRecord) -> bool {
    vm.guest_ip is None && vm.stage() == Lifecycle::Running && vm.boot_mode@ == "efi"@
}

/// Whether the guest has to be asked for its address.
pub fn wants_guest_ip(vm: &VmRecord) -> (r: bool)
    ensures
        r == address_unknown(*vm),
{
    vm.guest_ip.is_none() && vm.lifecycle() == Lifecycle::Running && str_eq(
        vm.boot_mode.as_str(),
        "efi",
    )
}

/// The address that the guest reports is one that the host may act on.
pub open spec fn acceptable_report(reported: Option<Seq<char>>, ip: Ipv4) -> bool {
    reported == Some(dotted(ip)) && plausible_guest(ip)
}

/// The record after the guest reported this, and whether it changed.
pub open spec fn discovered(
    before: VmRecord,
    reported: Option<Seq<char>>,
    after: VmRecord,
    changed: bool,
) -> bool {
    &&& changed <==> address_unknown(before) && exists|ip: Ipv4| #[trigger]
        acceptable_report(reported, ip)
    &&& changed ==> opt_view(after.guest_ip) == reported
    &&& changed ==> after == (VmRecord { guest_ip: after.guest_ip, ..before })
    &&& !changed ==> after == before
}

/// A guest is believed only about an address that it may have, only while it runs under EFI
/// firmware and none is known. An address that is known is never overwritten, and nothing
/// but the address is taken over.
pub proof fn guests_report_their_address_once(
    before: VmRecord,
    ip: Ipv4,
    after: VmRecord,
    changed: bool,
)
    requires
        discovered(before, Some(dotted(ip)), after, changed),
    ensures
        before.guest_ip is Some ==> !changed && after == before,
        before.stage() != Lifecycle::Running || before.boot_mode@ != "efi"@ ==> !changed,
        !plausible_guest(ip) ==> !changed && after == before,
        before.guest_ip is None && before.stage() == Lifecycle::Running && before.boot_mode@
            == "efi"@ && plausible_guest(ip) ==> changed && opt_view(after.guest_ip) == Some(
            dotted(ip),
        ),
        after.id == before.id && after.tap_device == before.tap_device && after.state
            == before.state,
{
    if changed {
        let other = choose|other: Ipv4| #[trigger] acceptable_report(Some(dotted(ip)), other);
        crate::ipv4::dotted_notation_is_unique(other, ip);
    }
    if plausible_guest(ip) {
        assert(acceptable_report(Some(dotted(ip)), ip));
    }
}

/// Take over the address that the guest reports, where the host may act on it. The
/// guest is not trusted: a loopback, link-local, multicast, unspecified or
/// broadcast address is ignored, and so is what is no address. Returns whether the
/// record now has an address that has to be stored.
pub fn discover_guest_ip(vm: &mut VmRecord, reported: Option<&str>) -> (r: bool)
    ensures
        discovered(*old(vm), crate::text::opt_str_view(reported), *final(vm), r),
{
    if !wants_guest_ip(vm) {
        return false;
    }
    match reported {
        None => false,
        Some(text) => match parse_ipv4(text) {
            Some(ip) => {
                proof {
                    assert forall|other: Ipv4| acceptable_report(Some(text@), other) implies other
                        == ip by {
                        crate::ipv4::dotted_notation_is_unique(other, ip);
                    }
                }
                if is_plausible_guest_ip(&ip) {
                    proof {
                        assert(acceptable_report(crate::text::opt_str_view(reported), ip));
                    }
                    vm.guest_ip = Some(ip.text());
                    true
                } else {
                    false
                }
            },
            None => {
                proof {
                    assert forall|other: Ipv4| !acceptable_report(Some(text@), other) by {
                        assert(text@ != dotted(other));
                    }
                }
                false
            },
        },
    }
}

// ---------------------------------------------------------------------------
// Forwarded ports
// ---------------------------------------------------------------------------

/// What adding a forward takes.
#[derive(Debug)]
pub enum ForwardPlan {
    /// The forward exists already.
    Existing(PortForwardRecord),
    /// Add it, from the host to this address, over this TAP.
    Add { guest_ip: Ipv4, tap: String },
}

/// The address that a forward is asked to be bound to.
#[derive(Debug)]
pub struct BindAddress {
    pub text: String,
    /// It stands for all addresses.
    pub unspecified: bool,
}

/// The forward already leads from this port of the host to that port of the guest.
pub open spec fn same_ports(pf: PortForwardRecord, host_port: u16, guest_port: u16) -> bool {
    pf.host_port == host_port && pf.guest_port == guest_port
}

/// What is wrong with a VM that a forward is to lead to over nftables, if anything.
pub open spec fn forward_fault(
    name: Seq<char>,
    vm: VmRecord,
    bind: Option<BindAddress>,
) -> Option<ErrorView> {
    if vm.network@ == "bridged"@ {
        Some(
            ErrorView::InvalidArgument(
                "VM '"@ + name
                    + "' uses bridged networking and is directly on the LAN; port forwards apply to NAT VMs only"@,
            ),
        )
    } else if bind is Some && !bind->0.unspecified {
        Some(
            ErrorView::InvalidArgument(
                "--bind "@ + bind->0.text@
                    + " is not supported on the Linux nftables backend; forwards are reachable on all host interfaces"@,
            ),
        )
    } else if vm.guest_ip is None {
        Some(ErrorView::VmNotFound(name + ": no guest IP"@))
    } else if forall|ip: Ipv4| vm.guest_ip->0@ != #[trigger] dotted(ip) {
        Some(ErrorView::VmNotFound(name + ": invalid guest IP"@))
    } else if vm.tap_device is None {
        Some(ErrorView::VmNotFound(name + ": no TAP device"@))
    } else {
        None
    }
}

/// The first of the forwards for which the test holds, if any.
pub open spec fn first_match(
    existing: Seq<PortForwardRecord>,
    fits: spec_fn(PortForwardRecord) -> bool,
) -> Option<PortForwardRecord>
    decreases existing.len(),
{
    if existing.len() == 0 {
        None
    } else if fits(existing[0]) {
        Some(existing[0])
    } else {
        first_match(existing.skip(1), fits)
    }
}

/// What adding a forward over nftables takes.
pub open spec fn is_forward_plan(
    name: Seq<char>,
    vm: VmRecord,
    host_port: u16,
    guest_port: u16,
    bind: Option<BindAddress>,
    existing: Seq<PortForwardRecord>,
    r: Result<ForwardPlan, CoreError>,
) -> bool {
    match forward_fault(name, vm, bind) {
        Some(e) => r is Err && r->Err_0@ == e,
        None => r is Ok && match first_match(
            existing,
            |pf: PortForwardRecord| same_ports(pf, host_port, guest_port),
        ) {
            Some(pf) => r->Ok_0 == ForwardPlan::Existing(pf),
            None => r->Ok_0 is Add && dotted(r->Ok_0->guest_ip) == vm.guest_ip->0@ && r->Ok_0->tap@
                == vm.tap_device->0@,
        },
    }
}

proof fn first_matches_fit(
    existing: Seq<PortForwardRecord>,
    fits: spec_fn(PortForwardRecord) -> bool,
    i: int,
)
    ensures
        first_match(existing, fits) matches Some(pf) ==> fits(pf) && existing.contains(pf),
        0 <= i < existing.len() && fits(existing[i]) ==> first_match(existing, fits) is Some,
    decreases existing.len(),
{
    if existing.len() > 0 {
        let rest = existing.skip(1);
        first_matches_fit(rest, fits, i - 1);
        if 0 < i < existing.len() {
            assert(rest[i - 1] == existing[i]);
        }
        if fits(existing[0]) {
            assert(existing[0] == existing[0]);
        } else if first_match(rest, fits) is Some {
            let pf = first_match(rest, fits)->0;
            let j = choose|j: int| 0 <= j < rest.len() && rest[j] == pf;
            assert(existing[j + 1] == pf);
        }
    }
}

/// A forward over the kernel leads to the VM's own address, over its own TAP. It is refused
/// to a VM on the LAN, to one without an address or a TAP, and where it is to be bound to
/// one address of the host. One that exists between the same two ports is not added again.
pub proof fn kernel_forwards_lead_to_their_vm(
    name: Seq<char>,
    vm: VmRecord,
    host_port: u16,
    guest_port: u16,
    bind: Option<BindAddress>,
    existing: Seq<PortForwardRecord>,
    r: Result<ForwardPlan, CoreError>,
    ip: Ipv4,
    i: int,
)
    requires
        is_forward_plan(name, vm, host_port, guest_port, bind, existing, r),
        opt_view(vm.guest_ip) == Some(dotted(ip)),
    ensures
        r is Ok <==> vm.network@ != "bridged"@ && (bind is None || bind->0.unspecified)
            && vm.tap_device is Some,
        vm.network@ == "bridged"@ ==> r->Err_0@ is InvalidArgument,
        r matches Ok(ForwardPlan::Add { guest_ip, tap }) ==> guest_ip == ip && Some(tap@)
            == opt_view(vm.tap_device),
        r matches Ok(ForwardPlan::Existing(pf)) ==> pf.host_port == host_port && pf.guest_port
            == guest_port && existing.contains(pf),
        r is Ok && 0 <= i < existing.len() && existing[i].host_port == host_port
            && existing[i].guest_port == guest_port ==> r->Ok_0 is Existing,
{
    assert(vm.guest_ip->0@ == dotted(ip));
    let fits = |pf: PortForwardRecord| same_ports(pf, host_port, guest_port);
    first_matches_fit(existing, fits, i);
    if let Ok(ForwardPlan::Add { guest_ip, tap }) = r {
        crate::ipv4::dotted_notation_is_unique(guest_ip, ip);
    }
}

/// Decide what adding a forward over nftables takes. Adding a forward that exists
/// already is a no-op.
pub fn plan_port_forward(
    name: &str,
    vm: &VmRecord,
    host_port: u16,
    guest_port: u16,
    bind: &Option<BindAddress>,
    existing: &Vec<PortForwardRecord>,
) -> (r: Result<ForwardPlan, CoreError>)
    ensures
        is_forward_plan(name@, *vm, host_port, guest_port, *bind, existing@, r),
{
    if str_eq(vm.network.as_str(), "bridged") {
        return Err(
            CoreError::InvalidArgument(
                "VM '".to_owned().concat(name).concat(
                    "' uses bridged networking and is directly on the LAN; port forwards apply to NAT VMs only",
                ),
            ),
        );
    }
    if let Some(b) = bind {
        if !b.unspecified {
            return Err(
                CoreError::InvalidArgument(
                    "--bind ".to_owned().concat(b.text.as_str()).concat(
                        " is not supported on the Linux nftables backend; forwards are reachable on all host interfaces",
                    ),
                ),
            );
        }
    }
    let text = match &vm.guest_ip {
        Some(t) => t,
        None => { return Err(CoreError::VmNotFound(name.to_owned().concat(": no guest IP"))); },
    };
    let guest_ip = match parse_ipv4(text.as_str()) {
        Some(ip) => ip,
        None => {
            return Err(CoreError::VmNotFound(name.to_owned().concat(": invalid guest IP")));
        },
    };
    let tap = match &vm.tap_device {
        Some(t) => t,
        None => { return Err(CoreError::VmNotFound(name.to_owned().concat(": no TAP device"))); },
    };
    let ghost fits = |pf: PortForwardRecord| same_ports(pf, host_port, guest_port);
    let mut i: usize = 0;
    proof {
        assert(existing@.skip(0) == existing@);
    }
    while i < existing.len()
        invariant
            i <= existing@.len(),
            fits == (|pf: PortForwardRecord| same_ports(pf, host_port, guest_port)),
            forward_fault(name@, *vm, *bind) is None,
            first_match(existing@.skip(i as int), fits) == first_match(existing@, fits),
        decreases existing.len() - i,
    {
        if existing[i].host_port == host_port && existing[i].guest_port == guest_port {
            return Ok(ForwardPlan::Existing(existing[i].clone()));
        }
        proof {
            assert(existing@.skip(i as int).skip(1) == existing@.skip(i + 1));
        }
        i += 1;
    }
    Ok(ForwardPlan::Add { guest_ip, tap: tap.clone() })
}

/// What is wrong with a VM that a forward is to lead to over the userspace proxy,
/// if anything.
pub open spec fn proxy_fault(name: Seq<char>, vm: VmRecord) -> Option<ErrorView> {
    if vm.stage() != Lifecycle::Running {
        Some(
            ErrorView::InvalidState { name, actual: vm.state@, expected: "running"@ },
        )
    } else if vm.guest_ip is None {
        Some(
            ErrorView::InvalidState {
                name,
                actual: "running without a discovered guest IP"@,
                expected: "running with a guest IP"@,
            },
        )
    } else if forall|ip: Ipv4| vm.guest_ip->0@ != #[trigger] dotted(ip) {
        Some(ErrorView::InvalidArgument(name + ": invalid guest IP"@))
    } else {
        None
    }
}

/// The forward leads between these ports and is bound to this address.
pub open spec fn same_binding(
    pf: PortForwardRecord,
    host_port: u16,
    guest_port: u16,
    bind: Seq<char>,
) -> bool {
    same_ports(pf, host_port, guest_port) && opt_view(pf.bind_addr) == Some(bind)
}

/// What adding a forward over the userspace proxy takes.
pub open spec fn is_proxy_plan(
    name: Seq<char>,
    vm: VmRecord,
    host_port: u16,
    guest_port: u16,
    bind: Seq<char>,
    existing: Seq<PortForwardRecord>,
    r: Result<Result<PortForwardRecord, Ipv4>, CoreError>,
) -> bool {
    match proxy_fault(name, vm) {
        Some(e) => r is Err && r->Err_0@ == e,
        None => r is Ok && match first_match(
            existing,
            |pf: PortForwardRecord| same_binding(pf, host_port, guest_port, bind),
        ) {
            Some(pf) => r->Ok_0 == Ok::<PortForwardRecord, Ipv4>(pf),
            None => r->Ok_0 is Err && dotted(r->Ok_0->Err_0) == vm.guest_ip->0@,
        },
    }
}

/// A forward over the proxy leads to the VM's own address, while it runs. One that exists
/// between the same ports is not added again, if it is bound to the same address; bound to
/// another it is another forward.
pub proof fn proxy_forwards_lead_to_their_vm(
    name: Seq<char>,
    vm: VmRecord,
    host_port: u16,
    guest_port: u16,
    bind: Seq<char>,
    existing: Seq<PortForwardRecord>,
    r: Result<Result<PortForwardRecord, Ipv4>, CoreError>,
    ip: Ipv4,
    i: int,
)
    requires
        is_proxy_plan(name, vm, host_port, guest_port, bind, existing, r),
    ensures
        vm.stage() != Lifecycle::Running || vm.guest_ip is None ==> r is Err && r->Err_0@
            is InvalidState,
        vm.stage() == Lifecycle::Running && opt_view(vm.guest_ip) == Some(dotted(ip)) ==> r is Ok
            && (r->Ok_0 is Err ==> r->Ok_0->Err_0 == ip),
        r matches Ok(Ok(pf)) ==> pf.host_port == host_port && pf.guest_port == guest_port
            && opt_view(pf.bind_addr) == Some(bind) && existing.contains(pf),
        r is Ok && 0 <= i < existing.len() && existing[i].host_port == host_port
            && existing[i].guest_port == guest_port && opt_view(existing[i].bind_addr) == Some(bind)
            ==> r->Ok_0 is Ok,
{
    let fits = |pf: PortForwardRecord| same_binding(pf, host_port, guest_port, bind);
    first_matches_fit(existing, fits, i);
    if opt_view(vm.guest_ip) == Some(dotted(ip)) {
        assert(vm.guest_ip->0@ == dotted(ip));
        if r is Ok && r->Ok_0 is Err {
            crate::ipv4::dotted_notation_is_unique(r->Ok_0->Err_0, ip);
        }
    }
}

/// Decide what adding a forward over the userspace proxy takes: the address to
/// relay to, or the forward that exists already with the same ports and the same
/// binding.
pub fn plan_proxy_forward(
    name: &str,
    vm: &VmRecord,
    host_port: u16,
    guest_port: u16,
    bind: &str,
    existing: &Vec<PortForwardRecord>,
) -> (r: Result<Result<PortForwardRecord, Ipv4>, CoreError>)
    ensures
        is_proxy_plan(name@, *vm, host_port, guest_port, bind@, existing@, r),
{
    if vm.lifecycle() != Lifecycle::Running {
        return Err(invalid_state(name, vm.state.as_str(), "running"));
    }
    let text = match &vm.guest_ip {
        Some(t) => t,
        None => {
            return Err(
                invalid_state(
                    name,
                    "running without a discovered guest IP",
                    "running with a guest IP",
                ),
            );
        },
    };
    let guest_ip = match parse_ipv4(text.as_str()) {
        Some(ip) => ip,
        None => {
            return Err(CoreError::InvalidArgument(name.to_owned().concat(": invalid guest IP")));
        },
    };
    let ghost fits = |pf: PortForwardRecord| same_binding(pf, host_port, guest_port, bind@);
    let mut i: usize = 0;
    proof {
        assert(existing@.skip(0) == existing@);
    }
    while i < existing.len()
        invariant
            i <= existing@.len(),
            fits == (|pf: PortForwardRecord| same_binding(pf, host_port, guest_port, bind@)),
            proxy_fault(name@, *vm) is None,
            first_match(existing@.skip(i as int), fits) == first_match(existing@, fits),
        decreases existing.len() - i,
    {
        if existing[i].host_port == host_port && existing[i].guest_port == guest_port && opt_is(
            &existing[i].bind_addr,
            bind,
        ) {
            return Ok(Ok(existing[i].clone()));
        }
        proof {
            assert(existing@.skip(i as int).skip(1) == existing@.skip(i + 1));
        }
        i += 1;
    }
    Ok(Err(guest_ip))
}

/// The record of a forward that was added so.
pub open spec fn is_new_forward(
    r: PortForwardRecord,
    vm_id: u128,
    host_port: u16,
    guest_port: u16,
    bind_addr: Option<String>,
    now: Timestamp,
) -> bool {
    &&& r.id == 0 && r.vm_id == vm_id && r.host_port == host_port && r.guest_port == guest_port
    &&& r.protocol@ == "tcp"@ && r.bind_addr == bind_addr && r.created_at == now
}

/// A forward that was added is found again: it is the VM's own, leads between its ports, and
/// is not added a second time with the same binding.
pub proof fn added_forwards_are_found_again(
    r: PortForwardRecord,
    vm_id: u128,
    host_port: u16,
    guest_port: u16,
    bind: String,
    now: Timestamp,
)
    requires
        is_new_forward(r, vm_id, host_port, guest_port, Some(bind), now),
    ensures
        r.vm_id == vm_id && r.host_port == host_port && r.guest_port == guest_port,
        same_ports(r, host_port, guest_port),
        same_binding(r, host_port, guest_port, bind@),
        forwards_port(seq![r], host_port),
        r.protocol@ == "tcp"@ && r.created_at == now,
{
    assert(seq![r][0].host_port == host_port);
}

/// What failing to record a forward over the kernel is reported as.
pub open spec fn forward_insert_failure(e: StateErrorView) -> ErrorView {
    match e {
        StateErrorView::PortAlreadyForwarded(port) => ErrorView::PortForwardConflict(port),
        other => ErrorView::State(other),
    }
}

/// What failing to record a forward over the proxy is reported as.
pub open spec fn proxy_insert_failure(bound: u16, e: StateErrorView) -> ErrorView {
    match e {
        StateErrorView::PortAlreadyForwarded(_) => ErrorView::PortForwardConflict(bound),
        other => ErrorView::State(other),
    }
}

/// What failing to bind a port of the host is reported as.
pub open spec fn bind_failure(host_port: u16, failure: BindFailure) -> ErrorView {
    match failure {
        BindFailure::InUse => ErrorView::PortForwardConflict(host_port),
        BindFailure::PermissionDenied => ErrorView::PortForwardDenied(host_port),
        BindFailure::Other(text) => ErrorView::Io(text@),
    }
}

/// A port that is taken is a conflict about that port, whoever finds out; one that may not
/// be bound is denied; any other failure is told as it is.
pub proof fn taken_ports_are_conflicts(port: u16, bound: u16, e: StateErrorView, f: BindFailure)
    ensures
        forward_insert_failure(StateErrorView::PortAlreadyForwarded(port))
            == ErrorView::PortForwardConflict(port),
        proxy_insert_failure(bound, StateErrorView::PortAlreadyForwarded(port))
            == ErrorView::PortForwardConflict(bound),
        e !is PortAlreadyForwarded ==> forward_insert_failure(e) == ErrorView::State(e)
            && proxy_insert_failure(bound, e) == ErrorView::State(e),
        bind_failure(port, BindFailure::InUse) == ErrorView::PortForwardConflict(port),
        bind_failure(port, BindFailure::PermissionDenied) == ErrorView::PortForwardDenied(port),
        f matches BindFailure::Other(text) ==> bind_failure(port, f) == ErrorView::Io(text@),
{
}

/// The record of a forward that was just added.
pub fn new_port_forward(
    vm_id: u128,
    host_port: u16,
    guest_port: u16,
    bind_addr: Option<String>,
    now: Timestamp,
) -> (r: PortForwardRecord)
    ensures
        is_new_forward(r, vm_id, host_port, guest_port, bind_addr, now),
{
    PortForwardRecord {
        id: 0,
        vm_id,
        host_port,
        guest_port,
        protocol: "tcp".to_owned(),
        bind_addr,
        created_at: now,
    }
}

/// What failing to record a forward is reported as: a port that is forwarded
/// already is a conflict.
pub fn forward_insert_error(e: StateError) -> (r: CoreError)
    ensures
        r@ == forward_insert_failure(e@),
{
    match e {
        StateError::PortAlreadyForwarded(port) => CoreError::PortForwardConflict(port),
        other => CoreError::State(other),
    }
}

/// What failing to record a forward of the userspace proxy is reported as: the
/// conflict is about the port that was bound, whichever port the catalog names.
pub fn proxy_insert_error(bound: u16, e: StateError) -> (r: CoreError)
    ensures
        r@ == proxy_insert_failure(bound, e@),
{
    match e {
        StateError::PortAlreadyForwarded(_) => CoreError::PortForwardConflict(bound),
        other => CoreError::State(other),
    }
}

/// Why a host port could not be bound.
#[derive(Debug)]
pub enum BindFailure {
    InUse,
    PermissionDenied,
    Other(String),
}

/// What failing to bind a host port is reported as.
pub fn bind_error(host_port: u16, failure: BindFailure) -> (r: CoreError)
    ensures
        r@ == bind_failure(host_port, failure),
{
    match failure {
        BindFailure::InUse => CoreError::PortForwardConflict(host_port),
        BindFailure::PermissionDenied => CoreError::PortForwardDenied(host_port),
        BindFailure::Other(text) => CoreError::Io(text),
    }
}

/// The TAP that a VM's forwards run over, or that it has none.
pub open spec fn tap_verdict(name: Seq<char>, vm: VmRecord) -> Result<Seq<char>, ErrorView> {
    match vm.tap_device {
        Some(t) => Ok(t@),
        None => Err(ErrorView::VmNotFound(name + ": no TAP device"@)),
    }
}

/// A TAP or an error, with the texts as sequences of characters.
pub open spec fn tap_view<'a>(r: Result<&'a str, CoreError>) -> Result<Seq<char>, ErrorView> {
    match r {
        Ok(t) => Ok(t@),
        Err(e) => Err(e@),
    }
}

/// Forwards run over the VM's own TAP; a VM without one is told by its name.
pub proof fn forwards_run_over_their_own_tap(name: Seq<char>, vm: VmRecord)
    ensures
        tap_verdict(name, vm) is Ok <==> vm.tap_device is Some,
        tap_verdict(name, vm) matches Ok(t) ==> opt_view(vm.tap_device) == Some(t),
        tap_verdict(name, vm) matches Err(e) ==> e is VmNotFound && crate::text::occurs_at(
            e->VmNotFound_0,
            name,
            0,
        ),
{
    assert((name + ": no TAP device"@).subrange(0, name.len() as int) =~= name);
}

/// The TAP that a VM's forwards run over.
pub fn forward_tap<'a>(name: &str, vm: &'a VmRecord) -> (r: Result<&'a str, CoreError>)
    ensures
        tap_view(r) == tap_verdict(name@, *vm),
{
    match &vm.tap_device {
        Some(t) => Ok(t.as_str()),
        None => Err(CoreError::VmNotFound(name.to_owned().concat(": no TAP device"))),
    }
}

/// One of the forwards uses this port of the host.
pub open spec fn forwards_port(s: Seq<PortForwardRecord>, host_port: u16) -> bool {
    exists|i: int| 0 <= i < s.len() && (#[trigger] s[i]).host_port == host_port
}

/// Whether one of the VM's forwards uses this port of the host. Only such a forward
/// may be removed on the VM's behalf.
pub fn owns_forward(existing: &Vec<PortForwardRecord>, host_port: u16) -> (r: bool)
    ensures
        r == forwards_port(existing@, host_port),
{
    let mut i: usize = 0;
    while i < existing.len()
        invariant
            i <= existing@.len(),
            forall|k: int| 0 <= k < i ==> (#[trigger] existing@[k]).host_port != host_port,
        decreases existing.len() - i,
    {
        if existing[i].host_port == host_port {
            return true;
        }
        i += 1;
    }
    false
}

/// What removing a forward takes.
#[derive(Debug, Clone, Copy)]
pub struct ForwardRemoval<'a> {
    /// Remove the kernel's rule for the port on this TAP.
    pub tap: Option<&'a str>,
    /// The forward is the VM's own: close its listener, where it has one, and delete its
    /// record. Records go by the port alone, so another VM's would go otherwise.
    pub owned: bool,
}

/// What removing a forward on behalf of a VM takes: the kernel's rule on which TAP, and
/// whether the forward is the VM's own.
pub open spec fn removal_plan(
    name: Seq<char>,
    vm: VmRecord,
    platform: Platform,
    own: Seq<PortForwardRecord>,
    host_port: u16,
) -> Result<(Option<Seq<char>>, bool), ErrorView> {
    let owned = forwards_port(own, host_port);
    if platform == Platform::Macos {
        Ok((None, owned))
    } else {
        match vm.tap_device {
            Some(tap) => Ok((Some(tap@), owned)),
            None => Err(ErrorView::VmNotFound(name + ": no TAP device"@)),
        }
    }
}

/// A planned removal, with its texts as sequences of characters.
pub open spec fn removal_view<'a>(r: Result<ForwardRemoval<'a>, CoreError>) -> Result<
    (Option<Seq<char>>, bool),
    ErrorView,
> {
    match r {
        Ok(removal) => Ok((opt_str_view(removal.tap), removal.owned)),
        Err(e) => Err(e@),
    }
}

/// A removal deletes a record only where the VM owns a forward of that port, and takes a
/// rule of the kernel down only on the VM's own TAP. Only a VM on the kernel's side without
/// a TAP is refused.
pub proof fn removals_go_by_ownership(
    name: Seq<char>,
    vm: VmRecord,
    platform: Platform,
    own: Seq<PortForwardRecord>,
    host_port: u16,
)
    ensures
        ({
            let r = removal_plan(name, vm, platform, own, host_port);
            &&& r is Ok <==> platform == Platform::Macos || vm.tap_device is Some
            &&& r matches Err(e) ==> e is VmNotFound
            &&& r matches Ok(p) ==> (p.1 <==> exists|i: int|
                0 <= i < own.len() && (#[trigger] own[i]).host_port == host_port)
            &&& platform == Platform::Linux && r is Ok ==> r->Ok_0.0 == opt_view(vm.tap_device)
            &&& platform == Platform::Macos ==> r->Ok_0.0 is None
        }),
{
}

/// Plan the removal of a forward on behalf of a VM; `own` are the VM's forwards. There
/// is nothing to delete where the port is not forwarded to the VM.
pub fn plan_forward_removal<'a>(
    name: &str,
    vm: &'a VmRecord,
    platform: Platform,
    own: &Vec<PortForwardRecord>,
    host_port: u16,
) -> (r: Result<ForwardRemoval<'a>, CoreError>)
    ensures
        removal_view(r) == removal_plan(name@, *vm, platform, own@, host_port),
{
    let tap = match platform {
        Platform::Linux => match forward_tap(name, vm) {
            Ok(t) => Some(t),
            Err(e) => { return Err(e); },
        },
        Platform::Macos => None,
    };
    Ok(ForwardRemoval { tap, owned: owns_forward(own, host_port) })
}

/// The forwards of one VM among those of all.
pub open spec fn forwards_of(all: Seq<PortForwardRecord>, vm: u128) -> Seq<PortForwardRecord> {
    all.filter(|pf: PortForwardRecord| pf.vm_id == vm)
}

/// No port of the host is forwarded twice.
pub open spec fn one_forward_per_port(all: Seq<PortForwardRecord>) -> bool {
    forall|i: int, j: int|
        0 <= i < j < all.len() ==> (#[trigger] all[i]).host_port != (#[trigger] all[j]).host_port
}

/// The forwards of all VMs once the removal of one on behalf of this VM was carried out.
pub open spec fn forwards_without(
    all: Seq<PortForwardRecord>,
    vm: u128,
    host_port: u16,
) -> Seq<PortForwardRecord> {
    if forwards_port(forwards_of(all, vm), host_port) {
        all.filter(|pf: PortForwardRecord| pf.host_port != host_port)
    } else {
        all
    }
}

proof fn kept_is_wanted(
    s: Seq<PortForwardRecord>,
    wanted: spec_fn(PortForwardRecord) -> bool,
    x: PortForwardRecord,
)
    ensures
        s.filter(wanted).contains(x) <==> s.contains(x) && wanted(x),
    decreases s.len(),
{
    reveal(Seq::filter);
    if s.len() > 0 {
        let head = s.drop_last();
        kept_is_wanted(head, wanted, x);
        let f = head.filter(wanted);
        if s.contains(x) {
            let i = choose|i: int| 0 <= i < s.len() && s[i] == x;
            if i < head.len() {
                assert(head[i] == x);
            }
        }
        if head.contains(x) {
            let i = choose|i: int| 0 <= i < head.len() && head[i] == x;
            assert(s[i] == x);
        }
        if f.contains(x) {
            let i = choose|i: int| 0 <= i < f.len() && f[i] == x;
            assert(f.push(s.last())[i] == x);
        }
        assert(f.push(s.last())[f.len() as int] == s.last());
        assert(s[s.len() - 1] == s.last());
        if wanted(s.last()) && f.push(s.last()).contains(x) && x != s.last() {
            let i = choose|i: int| 0 <= i < f.push(s.last()).len() && f.push(s.last())[i] == x;
            assert(f[i] == x);
        }
    }
}

proof fn filtering_more_first(
    s: Seq<PortForwardRecord>,
    first: spec_fn(PortForwardRecord) -> bool,
    second: spec_fn(PortForwardRecord) -> bool,
)
    requires
        forall|i: int| 0 <= i < s.len() && second(#[trigger] s[i]) ==> first(s[i]),
    ensures
        s.filter(first).filter(second) == s.filter(second),
    decreases s.len(),
{
    reveal(Seq::filter);
    if s.len() > 0 {
        let head = s.drop_last();
        assert forall|i: int| 0 <= i < head.len() && second(#[trigger] head[i]) implies first(
            head[i],
        ) by {
            assert(head[i] == s[i]);
        }
        filtering_more_first(head, first, second);
        assert(s[s.len() - 1] == s.last());
        let f = head.filter(first);
        assert(f.push(s.last()).drop_last() =~= f);
    }
}

/// Removing a forward on behalf of one VM leaves those of every other VM as they were.
/// The VM itself has none for the port any more, and keeps its others.
pub proof fn removals_stay_with_their_vm(
    all: Seq<PortForwardRecord>,
    vm: u128,
    other: u128,
    host_port: u16,
)
    requires
        one_forward_per_port(all),
        other != vm,
    ensures
        forwards_of(forwards_without(all, vm, host_port), other) == forwards_of(all, other),
        !forwards_port(forwards_of(forwards_without(all, vm, host_port), vm), host_port),
        forall|pf: PortForwardRecord|
            pf.host_port != host_port ==> (#[trigger] forwards_without(
                all,
                vm,
                host_port,
            ).contains(pf) <==> all.contains(pf)),
{
    let own = forwards_of(all, vm);
    let mine = |pf: PortForwardRecord| pf.vm_id == vm;
    let theirs = |pf: PortForwardRecord| pf.vm_id == other;
    let rest = |pf: PortForwardRecord| pf.host_port != host_port;
    let after = forwards_without(all, vm, host_port);
    if forwards_port(own, host_port) {
        let k = choose|k: int| 0 <= k < own.len() && (#[trigger] own[k]).host_port == host_port;
        assert(own.contains(own[k]));
        kept_is_wanted(all, mine, own[k]);
        let at = choose|i: int| 0 <= i < all.len() && all[i] == own[k];
        assert forall|i: int| 0 <= i < all.len() && theirs(#[trigger] all[i]) implies rest(
            all[i],
        ) by {
            if all[i].host_port == host_port && i != at {
                assert(all[i].host_port != all[at].host_port);
            }
        }
        filtering_more_first(all, rest, theirs);
        let left = forwards_of(after, vm);
        assert forall|i: int| 0 <= i < left.len() implies (#[trigger] left[i]).host_port
            != host_port by {
            assert(left.contains(left[i]));
            kept_is_wanted(after, mine, left[i]);
            kept_is_wanted(all, rest, left[i]);
        }
        assert forall|pf: PortForwardRecord| pf.host_port != host_port implies (
        #[trigger] after.contains(pf) <==> all.contains(pf)) by {
            kept_is_wanted(all, rest, pf);
        }
    }
}

/// What happens at startup to the forwards of a VM.
#[derive(Debug)]
pub enum ForwardRestore {
    /// The VM is suspended: the kernel's forwards would lead nowhere and bypass
    /// the listeners that wake it.
    Suspended,
    /// There is nothing to forward to.
    Skip,
    /// Put them back up, to this address, over this TAP.
    Restore { guest_ip: Ipv4, tap: String },
}

/// There is a way for the kernel to forward to a VM: an address that can be read, over
/// a TAP.
pub open spec fn has_route(vm: VmRecord) -> bool {
    vm.tap_device is Some && vm.guest_ip is Some && exists|ip: Ipv4|
        vm.guest_ip->0@ == #[trigger] dotted(ip)
}

/// The way that the kernel forwards to a VM, if there is one.
pub open spec fn is_route(vm: VmRecord, r: Option<(Ipv4, String)>) -> bool {
    &&& r is Some <==> has_route(vm)
    &&& r matches Some(route) ==> dotted(route.0) == vm.guest_ip->0@ && route.1@
        == vm.tap_device->0@
}

/// What happens at startup to the forwards of a VM.
pub open spec fn is_restore(vm: VmRecord, r: ForwardRestore) -> bool {
    &&& r is Suspended <==> vm.stage() == Lifecycle::Suspended
    &&& r is Restore <==> kernel_forwards(vm)
    &&& r matches ForwardRestore::Restore { guest_ip, tap } ==> dotted(guest_ip)
        == vm.guest_ip->0@ && tap@ == vm.tap_device->0@
}

/// The address that listeners of a VM relay to, if they can.
pub open spec fn is_listener_target(vm: VmRecord, r: Option<Ipv4>) -> bool {
    &&& r matches Some(ip) ==> vm.tap_device is Some && opt_view(vm.guest_ip) == Some(dotted(ip))
    &&& r is None ==> vm.tap_device is None || forall|ip: Ipv4|
        opt_view(vm.guest_ip) != Some(#[trigger] dotted(ip))
}

/// Whichever way a VM's ports lead to it, they lead to its own address, over its own TAP. A
/// suspended VM's forwards stay down, and any other's come up where it has both.
pub proof fn ports_lead_to_their_own_vm(
    vm: VmRecord,
    ip: Ipv4,
    route: Option<(Ipv4, String)>,
    restore: ForwardRestore,
    target: Option<Ipv4>,
)
    requires
        is_route(vm, route),
        is_restore(vm, restore),
        is_listener_target(vm, target),
        opt_view(vm.guest_ip) == Some(dotted(ip)),
    ensures
        route is Some <==> vm.tap_device is Some,
        route matches Some(w) ==> w.0 == ip && Some(w.1@) == opt_view(vm.tap_device),
        vm.stage() == Lifecycle::Suspended ==> restore is Suspended,
        vm.stage() != Lifecycle::Suspended && vm.tap_device is Some ==> restore is Restore,
        vm.stage() != Lifecycle::Suspended && vm.tap_device is None ==> restore is Skip,
        restore matches ForwardRestore::Restore { guest_ip, tap } ==> guest_ip == ip && Some(tap@)
            == opt_view(vm.tap_device),
        vm.tap_device is Some ==> target == Some(ip),
        vm.tap_device is None ==> target is None,
{
    assert(vm.guest_ip->0@ == dotted(ip));
    if let Some(w) = route {
        crate::ipv4::dotted_notation_is_unique(w.0, ip);
    }
    if let ForwardRestore::Restore { guest_ip, tap } = restore {
        crate::ipv4::dotted_notation_is_unique(guest_ip, ip);
    }
    if let Some(t) = target {
        crate::ipv4::dotted_notation_is_unique(t, ip);
    }
}

/// The address and the TAP that the kernel forwards to a VM by. A VM that wakes up from
/// a suspend gets its forwards back by it.
pub fn forward_route(vm: &VmRecord) -> (r: Option<(Ipv4, String)>)
    ensures
        is_route(*vm, r),
{
    match (&vm.guest_ip, &vm.tap_device) {
        (Some(text), Some(tap)) => match parse_ipv4(text.as_str()) {
            Some(guest_ip) => Some((guest_ip, tap.clone())),
            None => None,
        },
        _ => None,
    }
}

/// The kernel forwards the VM's ports after a restart: it is not suspended, and
/// there is an address and a TAP to forward to.
pub open spec fn kernel_forwards(vm: VmRecord) -> bool {
    vm.stage() != Lifecycle::Suspended && has_route(vm)
}

/// Decide what happens at startup to the forwards of a VM.
pub fn restore_forwards(vm: &VmRecord) -> (r: ForwardRestore)
    ensures
        is_restore(*vm, r),
{
    if vm.lifecycle() == Lifecycle::Suspended {
        return ForwardRestore::Suspended;
    }
    match forward_route(vm) {
        Some((guest_ip, tap)) => ForwardRestore::Restore { guest_ip, tap },
        None => ForwardRestore::Skip,
    }
}

/// The count with one more suspended VM.
pub open spec fn with_suspended(c: PortForwardReconcile) -> PortForwardReconcile {
    PortForwardReconcile { skipped_suspended: (c.skipped_suspended + 1) as usize, ..c }
}

/// The count with one more forward that is back up.
pub open spec fn with_restored(c: PortForwardReconcile) -> PortForwardReconcile {
    PortForwardReconcile { restored: (c.restored + 1) as usize, ..c }
}

/// Suspended VMs and restored forwards are counted apart.
pub proof fn forwards_are_counted_apart(c: PortForwardReconcile)
    requires
        c.skipped_suspended < usize::MAX,
        c.restored < usize::MAX,
    ensures
        with_suspended(c).skipped_suspended == c.skipped_suspended + 1,
        with_suspended(c).restored == c.restored,
        with_restored(c).restored == c.restored + 1,
        with_restored(c).skipped_suspended == c.skipped_suspended,
{
}

impl PortForwardReconcile {
    /// Count a VM whose forwards were left down because it is suspended.
    pub fn count_suspended(&mut self)
        requires
            old(self).skipped_suspended < usize::MAX,
        ensures
            *final(self) == with_suspended(*old(self)),
    {
        self.skipped_suspended = self.skipped_suspended + 1;
    }

    /// Count a forward that was put back up.
    pub fn count_restored(&mut self)
        requires
            old(self).restored < usize::MAX,
        ensures
            *final(self) == with_restored(*old(self)),
    {
        self.restored = self.restored + 1;
    }
}

/// The VM waits for a connection to wake it: it is suspended, wakes up by itself,
/// and has forwarded ports.
pub open spec fn waits_for_connection(vm: VmRecord, forwards: nat) -> bool {
    vm.stage() == Lifecycle::Suspended && vm.auto_resume && forwards > 0
}

/// Whether listeners have to be bound again for a VM after a restart.
pub fn needs_resume_listeners(vm: &VmRecord, forwards: usize) -> (r: bool)
    ensures
        r == waits_for_connection(*vm, forwards as nat),
{
    vm.lifecycle() == Lifecycle::Suspended && vm.auto_resume && forwards > 0
}

/// The address that listeners of a VM relay to, unless it has no TAP or no readable
/// address.
pub fn listener_target(vm: &VmRecord) -> (r: Option<Ipv4>)
    ensures
        is_listener_target(*vm, r),
{
    if vm.tap_device.is_none() {
        return None;
    }
    match &vm.guest_ip {
        Some(text) => parse_ipv4(text.as_str()),
        None => None,
    }
}

/// After a restart a VM's ports lead to it in one way only: through the kernel, or
/// through listeners that wake it, never through both. A kernel rule beside a
/// listener would take the connection before the listener saw it.
pub proof fn ports_lead_one_way(vm: VmRecord, forwards: nat)
    ensures
        !(kernel_forwards(vm) && waits_for_connection(vm, forwards)),
{
}

/// Listeners wait for a VM exactly where it is suspended, wakes up by itself and has a port
/// to connect to.
pub proof fn only_sleepers_that_wake_are_listened_for(vm: VmRecord, forwards: nat)
    ensures
        vm.stage() != Lifecycle::Suspended || !vm.auto_resume || forwards == 0
            ==> !waits_for_connection(vm, forwards),
        vm.stage() == Lifecycle::Suspended && vm.auto_resume && forwards != 0
            ==> waits_for_connection(vm, forwards),
{
}

/// What is wrong with resizing a VM's balloon, if anything.
pub open spec fn balloon_verdict(name: Seq<char>, vm: VmRecord) -> Result<(), ErrorView> {
    if !vm.balloon {
        Err(ErrorView::InvalidArgument("VM '"@ + name + "' was created without --balloon"@))
    } else if vm.stage() != Lifecycle::Running {
        Err(ErrorView::InvalidState { name, actual: vm.state@, expected: "running"@ })
    } else {
        Ok(())
    }
}

/// A balloon is resized exactly where there is one, in a VM that runs.
pub proof fn balloons_are_resized_in_running_vms(name: Seq<char>, vm: VmRecord)
    ensures
        balloon_verdict(name, vm) is Ok <==> vm.balloon && vm.stage() == Lifecycle::Running,
        !vm.balloon ==> balloon_verdict(name, vm)->Err_0 is InvalidArgument,
        vm.balloon && vm.stage() != Lifecycle::Running ==> balloon_verdict(name, vm)->Err_0
            is InvalidState,
{
}

/// Whether a VM's memory balloon can be resized: it has one, and it runs.
pub fn check_balloon(name: &str, vm: &VmRecord) -> (r: Result<(), CoreError>)
    ensures
        unit_view(r) == balloon_verdict(name@, *vm),
{
    if !vm.balloon {
        return Err(
            CoreError::InvalidArgument(
                "VM '".to_owned().concat(name).concat("' was created without --balloon"),
            ),
        );
    }
    if vm.lifecycle() != Lifecycle::Running {
        return Err(invalid_state(name, vm.state.as_str(), "running"));
    }
    Ok(())
}

/// What keeps a forward from being added is told with the VM's name: over the proxy the
/// state that it is in and the one that it ought to be in, over the kernel what it lacks. A
/// binding that is not supported is told by its address.
pub proof fn refused_forwards_are_told_with_the_reason(
    name: Seq<char>,
    vm: VmRecord,
    bind: Option<BindAddress>,
    ip: Ipv4,
)
    ensures
        vm.stage() != Lifecycle::Running ==> proxy_fault(name, vm) == Some(
            ErrorView::InvalidState { name, actual: vm.state@, expected: "running"@ },
        ),
        vm.stage() == Lifecycle::Running && vm.guest_ip is None ==> proxy_fault(name, vm) == Some(
            ErrorView::InvalidState {
                name,
                actual: "running without a discovered guest IP"@,
                expected: "running with a guest IP"@,
            },
        ),
        vm.stage() == Lifecycle::Running && opt_view(vm.guest_ip) == Some(dotted(ip))
            ==> proxy_fault(name, vm) is None,
        vm.network@ == "bridged"@ ==> forward_fault(name, vm, bind) is Some && crate::text::occurs(
            forward_fault(name, vm, bind)->0->InvalidArgument_0,
            name,
        ),
        vm.network@ != "bridged"@ && bind is Some && !bind->0.unspecified ==> forward_fault(
            name,
            vm,
            bind,
        ) is Some && crate::text::occurs(
            forward_fault(name, vm, bind)->0->InvalidArgument_0,
            bind->0.text@,
        ),
        vm.network@ != "bridged"@ && bind is None && vm.guest_ip is None ==> forward_fault(
            name,
            vm,
            bind,
        ) == Some(ErrorView::VmNotFound(name + ": no guest IP"@)),
        vm.network@ != "bridged"@ && bind is None && opt_view(vm.guest_ip) == Some(dotted(ip))
            && vm.tap_device is None ==> forward_fault(name, vm, bind) == Some(
            ErrorView::VmNotFound(name + ": no TAP device"@),
        ),
{
    crate::text::stands_between(
        "VM '"@,
        name,
        "' uses bridged networking and is directly on the LAN; port forwards apply to NAT VMs only"@,
    );
    if bind is Some {
        crate::text::stands_between(
            "--bind "@,
            bind->0.text@,
            " is not supported on the Linux nftables backend; forwards are reachable on all host interfaces"@,
        );
    }
    if opt_view(vm.guest_ip) == Some(dotted(ip)) {
        assert(vm.guest_ip->0@ == dotted(ip));
    }
}

} // verus!
