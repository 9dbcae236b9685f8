//! The idle policy: when a VM is suspended for want of use, when a suspended VM
//! is reaped, and when a stopped one no longer deserves its host resources.

use vstd::prelude::*;

use crate::records::{Lifecycle, VmRecord};
use crate::text::str_eq;
use crate::time::Timestamp;
#[allow(unused_imports)]
use crate::time::{whole_seconds, NANOS_PER_SEC};

verus! {

/// Idle-policy defaults from daemon config, applied to opted-in VMs.
#[derive(Debug, Clone, Copy)]
pub struct IdlePolicyConfig {
    pub poll_interval_secs: u64,
    pub default_idle_timeout_secs: u64,
    pub default_suspend_ttl_secs: u64,
    pub default_auto_resume: bool,
}

/// The idle policy of a daemon that was told none.
pub open spec fn default_idle_policy() -> IdlePolicyConfig {
    IdlePolicyConfig {
        poll_interval_secs: 30,
        default_idle_timeout_secs: 1800,
        default_suspend_ttl_secs: 0,
        default_auto_resume: true,
    }
}

impl Default for IdlePolicyConfig {
    fn default() -> (r: IdlePolicyConfig)
        ensures
            r == default_idle_policy(),
    {
        IdlePolicyConfig {
            poll_interval_secs: 30,
            default_idle_timeout_secs: 1800,
            default_suspend_ttl_secs: 0,
            default_auto_resume: true,
        }
    }
}

/// Decision produced by [`evaluate_policy`] for the idle-policy poll loop.
#[derive(Debug, Clone, Copy, PartialEq, Eq, Structural)]
pub enum PolicyAction {
    /// No action: policy disabled, ineligible VM, or thresholds not met.
    Nothing,
    /// The VM has been idle past `idle_timeout_secs`; suspend it.
    Suspend,
    /// The VM has been suspended past `suspend_ttl_secs` and is safe to reap.
    Reap,
}

/// The policy has a say over the VM: it is opted in, runs on a backend that can
/// capture its full state, no other lifecycle manages it, and nobody uses it.
pub open spec fn policy_applies(record: VmRecord, has_active_session: bool) -> bool {
    &&& record.idle_timeout_secs is Some
    &&& record.vmm@ == "firecracker"@
    &&& record.service_id is None
    &&& record.forked_from is None
    &&& !has_active_session
}

/// A running VM has been idle for its whole window.
pub open spec fn idle_expired(record: VmRecord, idle_for: Option<u128>) -> bool {
    idle_for is Some && idle_for->0 as int / (NANOS_PER_SEC as int) >= record.idle_timeout_secs->0
}

/// A suspended VM has outlived its time to live, and nothing depends on it.
pub open spec fn ttl_expired(record: VmRecord, now: Timestamp, has_live_fork: bool) -> bool {
    &&& record.suspend_ttl_secs is Some
    &&& record.suspend_ttl_secs->0 > 0
    &&& record.volume is None
    &&& !has_live_fork
    &&& record.suspended_at is Some
    &&& whole_seconds(now@ - record.suspended_at->0@) >= record.suspend_ttl_secs->0
}

/// What the idle policy decides.
pub open spec fn policy_of(
    record: VmRecord,
    now: Timestamp,
    idle_for: Option<u128>,
    has_active_session: bool,
    has_live_fork: bool,
) -> PolicyAction {
    if !policy_applies(record, has_active_session) {
        PolicyAction::Nothing
    } else if record.stage() == Lifecycle::Running && idle_expired(record, idle_for) {
        PolicyAction::Suspend
    } else if record.stage() == Lifecycle::Suspended && ttl_expired(record, now, has_live_fork) {
        PolicyAction::Reap
    } else {
        PolicyAction::Nothing
    }
}

/// Pure idle-policy decision. All time and refcount inputs are resolved by the
/// caller, so this function reads no clock and touches no I/O. `idle_for` is how
/// long the VM has been idle, in nanoseconds.
pub fn evaluate_policy(
    record: &VmRecord,
    now: Timestamp,
    idle_for: Option<u128>,
    has_active_session: bool,
    has_live_fork: bool,
) -> (r: PolicyAction)
    ensures
        r == policy_of(*record, now, idle_for, has_active_session, has_live_fork),
{
    // Not opted in, wrong backend, or managed by another lifecycle: never act.
    let idle_timeout: u64 = match record.idle_timeout_secs {
        Some(t) => t,
        None => { return PolicyAction::Nothing; },
    };
    if !str_eq(record.vmm.as_str(), "firecracker") {
        return PolicyAction::Nothing;
    }
    if record.service_id.is_some() || record.forked_from.is_some() {
        return PolicyAction::Nothing;
    }
    // An open session or relay (or a mid-wake connection) shields both branches.
    if has_active_session {
        return PolicyAction::Nothing;
    }
    match record.lifecycle() {
        Lifecycle::Running => match idle_for {
            Some(d) => {
                if crate::time::nanos_to_secs(d) >= idle_timeout as u128 {
                    PolicyAction::Suspend
                } else {
                    PolicyAction::Nothing
                }
            },
            None => PolicyAction::Nothing,
        },
        Lifecycle::Suspended => {
            let ttl: u64 = match record.suspend_ttl_secs {
                Some(t) => t,
                None => 0,
            };
            if ttl == 0 || record.volume.is_some() || has_live_fork {
                return PolicyAction::Nothing;
            }
            match record.suspended_at {
                Some(since) => {
                    if now.seconds_since(&since) as i128 >= ttl as i128 {
                        PolicyAction::Reap
                    } else {
                        PolicyAction::Nothing
                    }
                },
                None => PolicyAction::Nothing,
            }
        },
        _ => PolicyAction::Nothing,
    }
}

/// The policy never touches a VM that somebody uses, that is not opted in, whose
/// backend cannot capture its full state, or that a service or a fork owns.
pub proof fn policy_leaves_others_alone(
    record: VmRecord,
    now: Timestamp,
    idle_for: Option<u128>,
    has_active_session: bool,
    has_live_fork: bool,
)
    requires
        has_active_session || record.idle_timeout_secs is None || record.vmm@ != "firecracker"@
            || record.service_id is Some || record.forked_from is Some,
    ensures
        policy_of(record, now, idle_for, has_active_session, has_live_fork)
            == PolicyAction::Nothing,
{
}

/// Only a running VM is ever suspended, and only a suspended one is ever reaped:
/// what is suspended is not reaped by the same verdict.
pub proof fn policy_acts_on_the_right_stage(
    record: VmRecord,
    now: Timestamp,
    idle_for: Option<u128>,
    has_active_session: bool,
    has_live_fork: bool,
)
    ensures
        policy_of(record, now, idle_for, has_active_session, has_live_fork)
            == PolicyAction::Suspend ==> record.stage() == Lifecycle::Running,
        policy_of(record, now, idle_for, has_active_session, has_live_fork) == PolicyAction::Reap
            ==> record.stage() == Lifecycle::Suspended && record.volume is None && !has_live_fork,
{
}

/// Being idle for longer never saves a VM: once the policy would suspend it, it
/// still would after a longer idle time.
pub proof fn suspension_is_monotone(
    record: VmRecord,
    now: Timestamp,
    shorter: u128,
    longer: u128,
    has_live_fork: bool,
)
    requires
        shorter <= longer,
        policy_of(record, now, Some(shorter), false, has_live_fork) == PolicyAction::Suspend,
    ensures
        policy_of(record, now, Some(longer), false, has_live_fork) == PolicyAction::Suspend,
{
    assert(shorter as int / (NANOS_PER_SEC as int) <= longer as int / (NANOS_PER_SEC as int))
        by (nonlinear_arith)
        requires
            shorter <= longer,
            NANOS_PER_SEC == 1_000_000_000,
    ;
}

/// A suspended VM without a time to live, or with one of zero, is never reaped.
pub proof fn no_ttl_means_never_reaped(
    record: VmRecord,
    now: Timestamp,
    idle_for: Option<u128>,
    has_active_session: bool,
    has_live_fork: bool,
)
    requires
        record.suspend_ttl_secs is None || record.suspend_ttl_secs->0 == 0,
    ensures
        policy_of(record, now, idle_for, has_active_session, has_live_fork) != PolicyAction::Reap,
{
}

/// A VM is reaped only once it has been suspended for its whole time to live, however
/// long that is.
pub proof fn vms_live_out_their_ttl(
    record: VmRecord,
    now: Timestamp,
    idle_for: Option<u128>,
    has_active_session: bool,
    has_live_fork: bool,
)
    requires
        policy_of(record, now, idle_for, has_active_session, has_live_fork) == PolicyAction::Reap,
    ensures
        record.suspended_at is Some,
        record.suspend_ttl_secs is Some,
        now@ - record.suspended_at->0@ >= record.suspend_ttl_secs->0 * NANOS_PER_SEC,
{
}

/// A VM that stopped for good and still holds host network resources, in no
/// service and with nothing to resume, for at least `grace_secs` seconds.
pub open spec fn reclaimable(vm: VmRecord, now: Timestamp, grace_secs: int) -> bool {
    &&& vm.stage() == Lifecycle::Stopped || vm.stage() == Lifecycle::Failed
    &&& vm.service_id is None
    &&& vm.suspended_at is None
    &&& vm.tap_device is Some || vm.guest_ip is Some || vm.host_ip is Some
    &&& now@ - vm.updated_at@ >= grace_secs * NANOS_PER_SEC
}

/// Whether a VM is a reclaimable resource leak: a genuinely abandoned stopped VM
/// still holding host network resources.
///
/// Service instances are left to the reconciler, suspended VMs keep what they
/// need for a resume, and a VM that stopped less than `grace_secs` ago is left
/// for its owner to look at.
pub fn is_reclaimable_leak(vm: &VmRecord, now: Timestamp, grace_secs: i64) -> (r: bool)
    ensures
        r == reclaimable(*vm, now, grace_secs as int),
{
    let stage = vm.lifecycle();
    let terminal = stage == Lifecycle::Stopped || stage == Lifecycle::Failed;
    let holds = vm.tap_device.is_some() || vm.guest_ip.is_some() || vm.host_ip.is_some();
    terminal && vm.service_id.is_none() && vm.suspended_at.is_none() && holds && now.at_least_after(
        &vm.updated_at,
        grace_secs,
    )
}

/// Idle-policy action counters, exposed to metrics.
#[derive(Debug, Clone, Copy, PartialEq, Eq, Structural)]
pub struct IdleMetrics {
    /// VMs auto-suspended for exceeding `idle_timeout_secs`.
    pub suspended_total: u64,
    /// Suspended VMs auto-resumed by a control-plane touch (exec/shell/API).
    pub auto_resumed_control_plane_total: u64,
    /// Suspended VMs auto-resumed by an inbound port-forward connection.
    pub auto_resumed_connect_total: u64,
    /// Suspended VMs reaped for exceeding `suspend_ttl_secs`.
    pub reaped_total: u64,
}

/// The counters after a VM was woken: by a connection, or by a touch of the control plane.
pub open spec fn woken(metrics: IdleMetrics, by_connection: bool) -> IdleMetrics {
    if by_connection {
        IdleMetrics {
            auto_resumed_connect_total: metrics.auto_resumed_connect_total.wrapping_add(1),
            ..metrics
        }
    } else {
        IdleMetrics {
            auto_resumed_control_plane_total: metrics.auto_resumed_control_plane_total.wrapping_add(
                1,
            ),
            ..metrics
        }
    }
}

/// The counters with one more suspend.
pub open spec fn one_more_suspended(metrics: IdleMetrics) -> IdleMetrics {
    IdleMetrics { suspended_total: metrics.suspended_total.wrapping_add(1), ..metrics }
}

/// The counters with one more reap.
pub open spec fn one_more_reaped(metrics: IdleMetrics) -> IdleMetrics {
    IdleMetrics { reaped_total: metrics.reaped_total.wrapping_add(1), ..metrics }
}

/// Suspends and reaps are counted apart, and neither among the wakes.
pub proof fn suspends_and_reaps_are_counted_apart(metrics: IdleMetrics)
    requires
        metrics.suspended_total < u64::MAX,
        metrics.reaped_total < u64::MAX,
    ensures
        one_more_suspended(metrics).suspended_total == metrics.suspended_total + 1,
        one_more_suspended(metrics).reaped_total == metrics.reaped_total,
        one_more_reaped(metrics).reaped_total == metrics.reaped_total + 1,
        one_more_reaped(metrics).suspended_total == metrics.suspended_total,
        one_more_suspended(metrics).auto_resumed_connect_total
            == metrics.auto_resumed_connect_total,
        one_more_suspended(metrics).auto_resumed_control_plane_total
            == metrics.auto_resumed_control_plane_total,
        one_more_reaped(metrics).auto_resumed_connect_total == metrics.auto_resumed_connect_total,
        one_more_reaped(metrics).auto_resumed_control_plane_total
            == metrics.auto_resumed_control_plane_total,
{
}

/// What wakes a VM is counted under what it was: connections and touches apart, and neither
/// among suspends or reaps.
pub proof fn wakes_are_counted_by_their_cause(metrics: IdleMetrics)
    requires
        metrics.auto_resumed_connect_total < u64::MAX,
        metrics.auto_resumed_control_plane_total < u64::MAX,
    ensures
        woken(metrics, true).auto_resumed_connect_total == metrics.auto_resumed_connect_total + 1,
        woken(metrics, true).auto_resumed_control_plane_total
            == metrics.auto_resumed_control_plane_total,
        woken(metrics, false).auto_resumed_control_plane_total
            == metrics.auto_resumed_control_plane_total + 1,
        woken(metrics, false).auto_resumed_connect_total == metrics.auto_resumed_connect_total,
        forall|c: bool|
            (#[trigger] woken(metrics, c)).suspended_total == metrics.suspended_total && woken(
                metrics,
                c,
            ).reaped_total == metrics.reaped_total,
{
}

impl Default for IdleMetrics {
    fn default() -> (r: IdleMetrics)
        ensures
            r == (IdleMetrics {
                suspended_total: 0,
                auto_resumed_control_plane_total: 0,
                auto_resumed_connect_total: 0,
                reaped_total: 0,
            }),
    {
        IdleMetrics {
            suspended_total: 0,
            auto_resumed_control_plane_total: 0,
            auto_resumed_connect_total: 0,
            reaped_total: 0,
        }
    }
}

impl IdleMetrics {
    /// An idle VM was suspended.
    pub fn count_suspended(&mut self)
        ensures
            *final(self) == one_more_suspended(*old(self)),
    {
        self.suspended_total = self.suspended_total.wrapping_add(1);
    }

    /// A suspended VM was resumed by a touch of the control plane.
    pub fn count_touched(&mut self)
        ensures
            *final(self) == woken(*old(self), false),
    {
        self.auto_resumed_control_plane_total =
        self.auto_resumed_control_plane_total.wrapping_add(1);
    }

    /// A suspended VM was resumed by a connection.
    pub fn count_connected(&mut self)
        ensures
            *final(self) == woken(*old(self), true),
    {
        self.auto_resumed_connect_total = self.auto_resumed_connect_total.wrapping_add(1);
    }

    /// A suspended VM was reaped.
    pub fn count_reaped(&mut self)
        ensures
            *final(self) == one_more_reaped(*old(self)),
    {
        self.reaped_total = self.reaped_total.wrapping_add(1);
    }
}

/// A running VM that the policy covers is suspended exactly once it has been idle for its
/// whole window, to the nanosecond, and never while nothing is known of its use.
pub proof fn idle_vms_are_suspended_after_their_window(
    vm: VmRecord,
    now: Timestamp,
    idle_for: Option<u128>,
    has_live_fork: bool,
)
    requires
        vm.stage() == Lifecycle::Running,
        vm.idle_timeout_secs is Some,
        vm.vmm@ == "firecracker"@,
        vm.service_id is None,
        vm.forked_from is None,
    ensures
        ({
            let action = policy_of(vm, now, idle_for, false, has_live_fork);
            &&& action == PolicyAction::Suspend <==> idle_for is Some && idle_for->0
                >= vm.idle_timeout_secs->0 * 1_000_000_000
            &&& action != PolicyAction::Suspend ==> action == PolicyAction::Nothing
        }),
{
    if idle_for is Some {
        let d = idle_for->0 as int;
        let w = vm.idle_timeout_secs->0 as int;
        assert(d / 1_000_000_000 >= w <==> d >= w * 1_000_000_000) by (nonlinear_arith)
            requires
                d >= 0,
                w >= 0,
        ;
    }
}

/// A suspended VM that the policy covers is reaped exactly once it has been suspended for
/// its whole time to live, if it has one and neither a volume nor a living fork needs it.
pub proof fn expired_vms_are_reaped(
    vm: VmRecord,
    now: Timestamp,
    idle_for: Option<u128>,
    has_live_fork: bool,
)
    requires
        vm.stage() == Lifecycle::Suspended,
        vm.idle_timeout_secs is Some,
        vm.vmm@ == "firecracker"@,
        vm.service_id is None,
        vm.forked_from is None,
    ensures
        ({
            let action = policy_of(vm, now, idle_for, false, has_live_fork);
            &&& action == PolicyAction::Reap <==> vm.volume is None && !has_live_fork
                && vm.suspended_at is Some && vm.suspend_ttl_secs is Some && vm.suspend_ttl_secs->0
                != 0 && now@ - vm.suspended_at->0@ >= vm.suspend_ttl_secs->0 * 1_000_000_000
            &&& action != PolicyAction::Reap ==> action == PolicyAction::Nothing
        }),
{
    if vm.suspended_at is Some && vm.suspend_ttl_secs is Some {
        let d = now@ - vm.suspended_at->0@;
        let w = vm.suspend_ttl_secs->0 as int;
        if d >= 0 {
            assert(d / 1_000_000_000 >= w <==> d >= w * 1_000_000_000) by (nonlinear_arith)
                requires
                    d >= 0,
                    w >= 0,
            ;
        } else {
            assert((-d) / 1_000_000_000 >= 0) by (nonlinear_arith)
                requires
                    d < 0,
            ;
        }
    }
}

/// What has stopped for good keeps its network for the grace period and no longer. A VM
/// that may still be needed keeps it for ever: one that lives, one of a service, and one
/// that was suspended.
pub proof fn only_abandoned_vms_are_reclaimed(
    vm: VmRecord,
    now: Timestamp,
    later: Timestamp,
    grace_secs: int,
)
    ensures
        vm.stage() != Lifecycle::Stopped && vm.stage() != Lifecycle::Failed ==> !reclaimable(
            vm,
            now,
            grace_secs,
        ),
        vm.service_id is Some || vm.suspended_at is Some ==> !reclaimable(vm, now, grace_secs),
        vm.tap_device is None && vm.guest_ip is None && vm.host_ip is None ==> !reclaimable(
            vm,
            now,
            grace_secs,
        ),
        now@ - vm.updated_at@ < grace_secs * 1_000_000_000 ==> !reclaimable(vm, now, grace_secs),
        now@ <= later@ && reclaimable(vm, now, grace_secs) ==> reclaimable(vm, later, grace_secs),
        (vm.stage() == Lifecycle::Stopped || vm.stage() == Lifecycle::Failed) && vm.service_id
            is None && vm.suspended_at is None && vm.tap_device is Some && now@ - vm.updated_at@
            >= grace_secs * 1_000_000_000 ==> reclaimable(vm, now, grace_secs),
        (vm.stage() == Lifecycle::Stopped || vm.stage() == Lifecycle::Failed) && vm.service_id
            is None && vm.suspended_at is None && (vm.guest_ip is Some || vm.host_ip is Some) && now@
            - vm.updated_at@ >= grace_secs * 1_000_000_000 ==> reclaimable(vm, now, grace_secs),
{
}

/// A daemon that was told nothing suspends an opted-in VM after half an hour, wakes it
/// again when it is needed, and never reaps it. It looks often enough to notice in time.
pub proof fn untold_daemons_suspend_and_never_reap()
    ensures
        default_idle_policy().default_idle_timeout_secs == 30 * 60,
        default_idle_policy().default_suspend_ttl_secs == 0,
        default_idle_policy().default_auto_resume,
        0 < default_idle_policy().poll_interval_secs * 10
            < default_idle_policy().default_idle_timeout_secs,
        default_idle_policy().poll_interval_secs * 2 == 60,
{
}

} // verus!
