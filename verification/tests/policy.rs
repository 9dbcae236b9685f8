use chrono::{DateTime, Duration, Utc};
use husker_core::policy::{
    evaluate_policy, is_reclaimable_leak, IdleMetrics, IdlePolicyConfig, PolicyAction,
};
use husker_core::records::VmRecord;
use husker_core::time::Timestamp;

const GRACE_SECS: i64 = 300;

fn at(t: DateTime<Utc>) -> Timestamp {
    Timestamp::new(t.timestamp(), t.timestamp_subsec_nanos()).unwrap()
}

fn now() -> Timestamp {
    at(Utc::now())
}

fn secs(n: u64) -> Option<u128> {
    Some(n as u128 * 1_000_000_000)
}

/// A minimal VM that the policy covers: running, on Firecracker, without service,
/// fork or volume, and with no idle policy set.
fn sample_vm_record(name: &str) -> VmRecord {
    let now = now();
    VmRecord {
        id: uuid::Uuid::new_v4().as_u128(),
        name: name.into(),
        state: "running".into(),
        pid: None,
        vcpu_count: 1,
        mem_size_mib: 128,
        vsock_cid: 3,
        tap_device: None,
        host_ip: None,
        guest_ip: None,
        kernel_path: "/boot/vmlinux".into(),
        rootfs_path: "/images/rootfs.ext4".into(),
        created_at: now,
        updated_at: now,
        userdata: None,
        userdata_status: None,
        userdata_env: None,
        service_id: None,
        service_ordinal: None,
        vmm: "firecracker".into(),
        boot_mode: "direct".into(),
        balloon: false,
        volume: None,
        network: "nat".into(),
        last_activity_at: now,
        suspended_at: None,
        idle_timeout_secs: None,
        suspend_ttl_secs: None,
        auto_resume: true,
        forked_from: None,
    }
}

fn running(idle_timeout: Option<u64>) -> VmRecord {
    let mut r = sample_vm_record("v");
    r.state = "running".into();
    r.vmm = "firecracker".into();
    r.idle_timeout_secs = idle_timeout;
    r
}

#[test]
fn running_idle_past_threshold_suspends() {
    let r = running(Some(60));
    let a = evaluate_policy(&r, now(), secs(61), false, false);
    assert!(matches!(a, PolicyAction::Suspend));
}

#[test]
fn running_idle_timeout_zero_suspends_immediately() {
    // A timeout of zero means "as soon as idle", not "disabled".
    let r = running(Some(0));
    let a = evaluate_policy(&r, now(), secs(0), false, false);
    assert!(matches!(a, PolicyAction::Suspend));
}

#[test]
fn running_below_threshold_does_nothing() {
    let r = running(Some(60));
    assert!(matches!(
        evaluate_policy(&r, now(), secs(10), false, false),
        PolicyAction::Nothing
    ));
}

#[test]
fn active_session_shields_from_suspend() {
    let r = running(Some(60));
    assert!(matches!(
        evaluate_policy(&r, now(), None, true, false),
        PolicyAction::Nothing
    ));
}

#[test]
fn no_policy_never_acts() {
    let r = running(None);
    assert!(matches!(
        evaluate_policy(&r, now(), secs(999), false, false),
        PolicyAction::Nothing
    ));
}

#[test]
fn non_firecracker_never_acts() {
    let mut r = running(Some(1));
    r.vmm = "qemu".into();
    assert!(matches!(
        evaluate_policy(&r, now(), secs(99), false, false),
        PolicyAction::Nothing
    ));
}

#[test]
fn service_or_fork_vm_never_acts() {
    let mut svc = running(Some(1));
    svc.service_id = Some(uuid::Uuid::new_v4().as_u128());
    assert!(matches!(
        evaluate_policy(&svc, now(), secs(99), false, false),
        PolicyAction::Nothing
    ));
    let mut fork = running(Some(1));
    fork.forked_from = Some(uuid::Uuid::new_v4().as_u128());
    assert!(matches!(
        evaluate_policy(&fork, now(), secs(99), false, false),
        PolicyAction::Nothing
    ));
}

#[test]
fn suspended_past_ttl_reaps_when_eligible() {
    let mut r = running(Some(60));
    r.state = "suspended".into();
    r.suspend_ttl_secs = Some(100);
    r.suspended_at = Some(at(Utc::now() - Duration::seconds(101)));
    assert!(matches!(
        evaluate_policy(&r, now(), None, false, false),
        PolicyAction::Reap
    ));
}

#[test]
fn suspended_with_live_fork_or_volume_or_null_ts_not_reaped() {
    let base = || {
        let mut r = running(Some(60));
        r.state = "suspended".into();
        r.suspend_ttl_secs = Some(100);
        r.suspended_at = Some(at(Utc::now() - Duration::seconds(101)));
        r
    };
    // live fork
    assert!(matches!(
        evaluate_policy(&base(), now(), None, false, true),
        PolicyAction::Nothing
    ));
    // volume
    let mut vol = base();
    vol.volume = Some("data".into());
    assert!(matches!(
        evaluate_policy(&vol, now(), None, false, false),
        PolicyAction::Nothing
    ));
    // null timestamp
    let mut nots = base();
    nots.suspended_at = None;
    assert!(matches!(
        evaluate_policy(&nots, now(), None, false, false),
        PolicyAction::Nothing
    ));
    // active session
    let active = base();
    assert!(matches!(
        evaluate_policy(&active, now(), None, true, false),
        PolicyAction::Nothing
    ));
}

#[test]
fn suspended_never_reaps_when_ttl_unset_or_zero() {
    // A suspended VM that is eligible in every other way, and long past any TTL.
    let base = || {
        let mut r = running(Some(60));
        r.state = "suspended".into();
        r.suspended_at = Some(at(Utc::now() - Duration::seconds(999)));
        r
    };
    let mut unset = base();
    unset.suspend_ttl_secs = None;
    assert!(matches!(
        evaluate_policy(&unset, now(), None, false, false),
        PolicyAction::Nothing
    ));
    let mut zero = base();
    zero.suspend_ttl_secs = Some(0);
    assert!(matches!(
        evaluate_policy(&zero, now(), None, false, false),
        PolicyAction::Nothing
    ));
}

#[test]
fn idle_policy_config_default_values() {
    let cfg = IdlePolicyConfig::default();
    assert_eq!(cfg.poll_interval_secs, 30);
    assert_eq!(cfg.default_idle_timeout_secs, 1800);
    assert_eq!(cfg.default_suspend_ttl_secs, 0);
    assert!(cfg.default_auto_resume);
}

#[test]
fn the_idle_threshold_is_inclusive() {
    let r = running(Some(60));
    let just_below = Some(60 * 1_000_000_000u128 - 1);
    assert_eq!(evaluate_policy(&r, now(), just_below, false, false), PolicyAction::Nothing);
    assert_eq!(evaluate_policy(&r, now(), secs(60), false, false), PolicyAction::Suspend);
    // More idleness never takes a suspension back.
    assert_eq!(evaluate_policy(&r, now(), secs(6000), false, false), PolicyAction::Suspend);
}

#[test]
fn the_ttl_is_inclusive_and_counts_whole_seconds() {
    let mut r = running(Some(60));
    r.state = "suspended".into();
    r.suspend_ttl_secs = Some(100);
    r.suspended_at = Timestamp::new(1_000, 500_000_000);
    let short = Timestamp::new(1_100, 499_999_999).unwrap();
    let exact = Timestamp::new(1_100, 500_000_000).unwrap();
    assert_eq!(evaluate_policy(&r, short, None, false, false), PolicyAction::Nothing);
    assert_eq!(evaluate_policy(&r, exact, None, false, false), PolicyAction::Reap);
}

#[test]
fn only_running_and_suspended_vms_are_acted_on() {
    for state in ["paused", "suspending", "stopped", "failed", "creating"] {
        let mut r = running(Some(0));
        r.state = state.into();
        r.suspend_ttl_secs = Some(1);
        r.suspended_at = Timestamp::new(0, 0);
        assert_eq!(evaluate_policy(&r, now(), secs(99), false, false), PolicyAction::Nothing);
    }
}

#[test]
fn metrics_count_each_action() {
    let mut m = IdleMetrics::default();
    m.count_suspended();
    m.count_suspended();
    m.count_touched();
    m.count_connected();
    m.count_connected();
    m.count_connected();
    m.count_reaped();
    assert_eq!(m.suspended_total, 2);
    assert_eq!(m.auto_resumed_control_plane_total, 1);
    assert_eq!(m.auto_resumed_connect_total, 3);
    assert_eq!(m.reaped_total, 1);
}

/// A stopped VM that still holds all of its host's resources.
fn base_vm() -> VmRecord {
    let mut vm = sample_vm_record("vm");
    vm.state = "stopped".into();
    vm.tap_device = Some("tap-vm".into());
    vm.host_ip = Some("192.0.2.1".into());
    vm.guest_ip = Some("192.0.2.2".into());
    vm
}

/// A stopped VM whose resources were leaked long ago is reclaimable.
fn stopped_long_ago() -> VmRecord {
    let mut vm = base_vm();
    vm.updated_at = at(Utc::now() - Duration::seconds(600));
    vm
}

#[test]
fn abandoned_stopped_vm_is_reclaimable() {
    assert!(is_reclaimable_leak(&stopped_long_ago(), now(), GRACE_SECS));
}

#[test]
fn failed_state_is_also_reclaimable() {
    let mut vm = stopped_long_ago();
    vm.state = "failed".into();
    assert!(is_reclaimable_leak(&vm, now(), GRACE_SECS));
}

#[test]
fn running_or_paused_vm_is_never_reclaimed() {
    for state in ["running", "paused", "creating", "suspended"] {
        let mut vm = stopped_long_ago();
        vm.state = state.into();
        assert!(
            !is_reclaimable_leak(&vm, now(), GRACE_SECS),
            "state {state} must not be reclaimed"
        );
    }
}

#[test]
fn recently_stopped_vm_is_within_grace() {
    let mut vm = base_vm();
    vm.updated_at = at(Utc::now() - Duration::seconds(60)); // < 300s grace
    assert!(!is_reclaimable_leak(&vm, now(), GRACE_SECS));
}

#[test]
fn exactly_at_grace_boundary_is_reclaimable() {
    let now = Utc::now();
    let mut vm = base_vm();
    vm.updated_at = at(now - Duration::seconds(GRACE_SECS)); // now - updated_at == grace, `>=` holds
    assert!(is_reclaimable_leak(&vm, at(now), GRACE_SECS));
}

#[test]
fn a_nanosecond_short_of_the_grace_is_too_early() {
    let now = Utc::now();
    let mut vm = base_vm();
    vm.updated_at = at(now - Duration::seconds(GRACE_SECS) + Duration::nanoseconds(1));
    assert!(!is_reclaimable_leak(&vm, at(now), GRACE_SECS));
}

#[test]
fn service_instance_is_left_to_the_reconciler() {
    let mut vm = stopped_long_ago();
    vm.service_id = Some(uuid::Uuid::new_v4().as_u128());
    assert!(!is_reclaimable_leak(&vm, now(), GRACE_SECS));
}

#[test]
fn suspended_vm_keeps_its_resources_for_resume() {
    let mut vm = stopped_long_ago();
    vm.suspended_at = Some(at(Utc::now() - Duration::seconds(600)));
    assert!(!is_reclaimable_leak(&vm, now(), GRACE_SECS));
}

#[test]
fn vm_without_host_resources_has_nothing_to_reclaim() {
    let mut vm = stopped_long_ago();
    vm.tap_device = None;
    vm.host_ip = None;
    vm.guest_ip = None;
    assert!(!is_reclaimable_leak(&vm, now(), GRACE_SECS));
}

#[test]
fn a_lingering_guest_ip_alone_is_still_reclaimable() {
    let mut vm = stopped_long_ago();
    vm.tap_device = None;
    vm.host_ip = None;
    // guest_ip still set -> the IP allocation is leaked.
    assert!(is_reclaimable_leak(&vm, now(), GRACE_SECS));
}

#[test]
fn the_longest_ttl_is_never_over() {
    let mut r = running(Some(60));
    r.state = "suspended".into();
    let now = now();
    r.suspended_at = Some(now);
    r.suspend_ttl_secs = Some(u64::MAX);
    assert!(matches!(evaluate_policy(&r, now, None, false, false), PolicyAction::Nothing));
    r.suspend_ttl_secs = Some(i64::MAX as u64 + 1);
    let later = Timestamp::new(now.secs() + 1_000_000_000, 0).unwrap();
    assert!(matches!(evaluate_policy(&r, later, None, false, false), PolicyAction::Nothing));
    r.suspend_ttl_secs = Some(1_000_000);
    assert!(matches!(evaluate_policy(&r, later, None, false, false), PolicyAction::Reap));
}
