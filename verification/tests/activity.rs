use husker_core::activity::{
    forget_baselines, forward_key, refresh_network_activity, ActiveSessions, ActivityClocks,
    CounterTable,
};
use husker_core::policy::PolicyAction;
use husker_core::records::VmRecord;
use husker_core::settings::{HuskerCore, StorageLayout};
use husker_core::time::Timestamp;

const SEC: u128 = 1_000_000_000;

fn t(secs: i64) -> Timestamp {
    Timestamp::new(secs, 0).unwrap()
}

fn vm(id: u128) -> VmRecord {
    VmRecord {
        id,
        name: "idle".into(),
        state: "running".into(),
        pid: None,
        vcpu_count: 1,
        mem_size_mib: 128,
        vsock_cid: 3,
        tap_device: Some("husker3".into()),
        host_ip: None,
        guest_ip: None,
        kernel_path: "/boot/vmlinux".into(),
        rootfs_path: "/images/rootfs.ext4".into(),
        created_at: t(0),
        updated_at: t(0),
        userdata: None,
        userdata_status: None,
        userdata_env: None,
        service_id: None,
        service_ordinal: None,
        vmm: "firecracker".into(),
        boot_mode: "direct".into(),
        balloon: false,
        volume: None,
        network: "nat".into(),
        last_activity_at: t(0),
        suspended_at: None,
        idle_timeout_secs: Some(1),
        suspend_ttl_secs: Some(1),
        auto_resume: true,
        forked_from: None,
    }
}

fn daemon() -> HuskerCore {
    HuskerCore::new(
        StorageLayout {
            data_dir: "/data".into(),
            state_dir: "/state".into(),
            images_dir: "/data/images".into(),
            vms_dir: "/state/vms".into(),
            kernels_dir: "/data/kernels".into(),
            volumes_dir: "/state/volumes".into(),
            sentinel_path: "/data/.mounted".into(),
        },
        "husker0".into(),
        vec![],
        "/run/husker".into(),
    )
}

#[test]
fn active_session_guard_increments_and_decrements() {
    let mut core = daemon();
    let id = uuid::Uuid::new_v4().as_u128();
    assert_eq!(core.active_session_count(id), 0);
    core.begin_session(id);
    assert_eq!(core.active_session_count(id), 1);
    core.begin_session(id);
    assert_eq!(core.active_session_count(id), 2);
    core.end_session(id);
    core.end_session(id);
    assert_eq!(core.active_session_count(id), 0);
}

#[test]
fn guard_decrements_even_when_dropped_early() {
    let mut core = daemon();
    let id = uuid::Uuid::new_v4().as_u128();
    core.begin_session(id);
    assert_eq!(core.active_session_count(id), 1);
    core.end_session(id);
    assert_eq!(core.active_session_count(id), 0);
}

#[test]
fn sessions_of_one_vm_leave_the_others_alone() {
    let mut s = ActiveSessions::new();
    s.begin_session(1);
    s.begin_session(2);
    s.begin_session(2);
    s.end_session(1);
    assert_eq!(s.active_session_count(1), 0);
    assert_eq!(s.active_session_count(2), 2);
    s.forget(2);
    assert_eq!(s.active_session_count(2), 0);
    // Closing a session that nobody holds changes nothing.
    s.end_session(2);
    assert_eq!(s.active_session_count(2), 0);
}

#[test]
fn the_later_of_the_two_clocks_counts() {
    let mut clocks = ActivityClocks::new();
    let record = vm(7);
    clocks.note_activity(7, 10 * SEC);
    clocks.mark_network_active(7, 25 * SEC);
    assert_eq!(clocks.idle_for(&record, 0, 30 * SEC, t(1000)), Some(5 * SEC));
    clocks.note_activity(7, 28 * SEC);
    assert_eq!(clocks.idle_for(&record, 0, 30 * SEC, t(1000)), Some(2 * SEC));
    assert_eq!(clocks.network_last_active_elapsed(7, 30 * SEC), Some(5 * SEC));
    assert_eq!(clocks.network_last_active_elapsed(8, 30 * SEC), None);
}

#[test]
fn without_clocks_the_recorded_activity_counts() {
    let clocks = ActivityClocks::new();
    let mut record = vm(7);
    record.last_activity_at = t(990);
    assert_eq!(clocks.idle_for(&record, 0, 30 * SEC, t(1000)), Some(10 * SEC));
    // A record from the future counts as just used.
    record.last_activity_at = t(2000);
    assert_eq!(clocks.idle_for(&record, 0, 30 * SEC, t(1000)), Some(0));
}

#[test]
fn pinned_and_sleeping_vms_are_not_idle() {
    let clocks = ActivityClocks::new();
    let mut record = vm(7);
    assert_eq!(clocks.idle_for(&record, 1, 30 * SEC, t(1000)), None);
    record.state = "suspended".into();
    assert_eq!(clocks.idle_for(&record, 0, 30 * SEC, t(1000)), None);
}

#[test]
fn seeding_starts_both_clocks() {
    let mut clocks = ActivityClocks::new();
    clocks.seed_activity(7, 30 * SEC);
    assert_eq!(clocks.idle_for(&vm(7), 0, 30 * SEC, t(1000)), Some(0));
    assert_eq!(clocks.network_last_active_elapsed(7, 31 * SEC), Some(SEC));
    clocks.forget(7);
    assert_eq!(clocks.network_last_active_elapsed(7, 31 * SEC), None);
}

#[test]
fn forwards_are_keyed_by_tap_and_port() {
    assert_eq!(forward_key("husker3", 8080), "husker-pf:husker3:8080");
}

#[test]
fn grown_counters_are_traffic_once() {
    let mut baseline = CounterTable::new();
    let mut read = CounterTable::new();
    let ports = vec![80u16, 443];
    // Nothing was read: no traffic, and zero becomes the baseline.
    assert!(!refresh_network_activity(&mut baseline, &read, "tap0", &ports));
    read.insert(forward_key("tap0", 443), (3, 180));
    assert!(refresh_network_activity(&mut baseline, &read, "tap0", &ports));
    assert_eq!(baseline.get(&forward_key("tap0", 443)), (3, 180));
    // The same counters again are no traffic.
    assert!(!refresh_network_activity(&mut baseline, &read, "tap0", &ports));
    // Counters of another TAP do not count.
    read.insert(forward_key("tap1", 443), (99, 9900));
    assert!(!refresh_network_activity(&mut baseline, &read, "tap0", &ports));
    // Counters that fell (the rule was put up anew) are no traffic either.
    read.insert(forward_key("tap0", 443), (1, 60));
    assert!(!refresh_network_activity(&mut baseline, &read, "tap0", &ports));
    assert_eq!(baseline.get(&forward_key("tap0", 443)), (1, 60));
    forget_baselines(&mut baseline, "tap0", &ports);
    assert_eq!(baseline.get(&forward_key("tap0", 443)), (0, 0));
}

#[test]
fn an_idle_vm_is_suspended_and_later_reaped() {
    let mut core = daemon();
    let mut record = vm(7);
    let read = CounterTable::new();
    core.note_activity(7, 0);
    core.mark_network_active(7, 0);
    assert_eq!(
        core.first_look(&record, &vec![], &read, false, 5 * SEC, t(5)),
        PolicyAction::Suspend
    );
    assert!(core.confirms_suspend(&record, &vec![], &read, false, 5 * SEC, t(5)));
    record.state = "suspended".into();
    record.suspended_at = Some(t(5));
    assert_eq!(
        core.first_look(&record, &vec![], &read, false, 10 * SEC, t(10)),
        PolicyAction::Reap
    );
    assert!(core.confirms_reap(&record, false, t(10)));
    // A fork that still lives off the snapshot keeps it.
    assert!(!core.confirms_reap(&record, true, t(10)));
}

#[test]
fn tick_does_not_suspend_when_session_open() {
    let mut core = daemon();
    let mut record = vm(7);
    record.suspend_ttl_secs = Some(0);
    let read = CounterTable::new();
    core.note_activity(7, 0);
    core.begin_session(7);
    assert_eq!(
        core.first_look(&record, &vec![], &read, false, 5 * SEC, t(5)),
        PolicyAction::Nothing
    );
    assert!(!core.confirms_suspend(&record, &vec![], &read, false, 5 * SEC, t(5)));
}

#[test]
fn late_traffic_calls_a_suspension_off() {
    let mut core = daemon();
    let record = vm(7);
    let ports = vec![8080u16];
    let mut read = CounterTable::new();
    core.note_activity(7, 0);
    core.mark_network_active(7, 0);
    assert_eq!(
        core.first_look(&record, &ports, &read, false, 5 * SEC, t(5)),
        PolicyAction::Suspend
    );
    read.insert(forward_key("husker3", 8080), (1, 60));
    assert!(!core.confirms_suspend(&record, &ports, &read, false, 5 * SEC, t(5)));
}

#[test]
fn vms_without_a_policy_are_not_even_looked_at() {
    let mut core = daemon();
    let mut record = vm(7);
    record.idle_timeout_secs = None;
    let mut read = CounterTable::new();
    read.insert(forward_key("husker3", 8080), (1, 60));
    assert_eq!(
        core.first_look(&record, &vec![8080], &read, false, 5 * SEC, t(5)),
        PolicyAction::Nothing
    );
    assert_eq!(core.network_last_active_elapsed(7, 5 * SEC), None);
}

#[test]
fn distances_in_time_are_exact() {
    let a = Timestamp::new(10, 250_000_000).unwrap();
    let b = Timestamp::new(12, 0).unwrap();
    assert_eq!(b.nanos_since(&a), 1_750_000_000);
    assert_eq!(a.nanos_since(&b), 0);
    assert_eq!(b.seconds_since(&a), 1);
    assert_eq!(a.seconds_since(&b), -1);
    assert!(b.at_least_after(&a, 1));
    assert!(!b.at_least_after(&a, 2));
    assert!(a.before(&b));
    assert!(!b.before(&a));
    assert_eq!((a.secs(), a.nanos()), (10, 250_000_000));
    let before_epoch = Timestamp::new(-1, 999_999_999).unwrap();
    assert_eq!(t(0).nanos_since(&before_epoch), 1);
    assert!(Timestamp::new(0, 1_000_000_000).is_none());
    assert!(Timestamp::new(i64::MAX, 0).is_none());
    let far = Timestamp::new(8_210_266_876_799, 999_999_999).unwrap();
    assert_eq!(far.seconds_since(&t(0)), 8_210_266_876_799);
}

#[test]
fn tick_suspends_idle_vm_and_reaps_expired() {
    let mut core = daemon();
    let mut record = vm(7);
    let read = CounterTable::new();
    core.note_activity(7, 0);
    core.mark_network_active(7, 0);
    let first = core.first_look(&record, &vec![], &read, false, 5 * SEC, t(5));
    let action = core.second_look(first, &record, &vec![], &read, false, 5 * SEC, t(5));
    assert_eq!(action, PolicyAction::Suspend);
    core.count_action(action, true);
    assert_eq!((core.idle_metrics.suspended_total, core.idle_metrics.reaped_total), (1, 0));
    record.state = "suspended".into();
    record.suspended_at = Some(t(5));
    let first = core.first_look(&record, &vec![], &read, false, 10 * SEC, t(10));
    let action = core.second_look(first, &record, &vec![], &read, false, 10 * SEC, t(10));
    assert_eq!(action, PolicyAction::Reap);
    // What fails is not counted.
    core.count_action(action, false);
    assert_eq!((core.idle_metrics.suspended_total, core.idle_metrics.reaped_total), (1, 0));
    core.count_action(action, true);
    assert_eq!((core.idle_metrics.suspended_total, core.idle_metrics.reaped_total), (1, 1));
    core.count_action(PolicyAction::Nothing, true);
    assert_eq!((core.idle_metrics.suspended_total, core.idle_metrics.reaped_total), (1, 1));
}

#[test]
fn the_second_look_has_the_last_word() {
    let mut core = daemon();
    let mut record = vm(7);
    let read = CounterTable::new();
    core.note_activity(7, 0);
    core.mark_network_active(7, 0);
    core.begin_session(7);
    let action =
        core.second_look(PolicyAction::Suspend, &record, &vec![], &read, false, 5 * SEC, t(5));
    assert_eq!(action, PolicyAction::Nothing);
    core.end_session(7);
    // A VM that woke up in between is not reaped, and one that the first look left alone
    // is left alone.
    for first in [PolicyAction::Reap, PolicyAction::Nothing] {
        let action = core.second_look(first, &record, &vec![], &read, false, 5 * SEC, t(5));
        assert_eq!(action, PolicyAction::Nothing);
    }
    record.state = "suspended".into();
    record.suspended_at = Some(t(0));
    let action =
        core.second_look(PolicyAction::Reap, &record, &vec![], &read, true, 5 * SEC, t(5));
    assert_eq!(action, PolicyAction::Nothing);
}

#[test]
fn woken_vms_start_their_clocks_anew() {
    let mut core = daemon();
    let record = vm(7);
    core.note_activity(7, 0);
    core.mark_network_active(7, 0);
    core.network_counters.insert(forward_key("husker3", 8080), (3, 180));
    core.network_counters.insert(forward_key("husker4", 8080), (5, 300));
    core.reset_activity(&record, &vec![8080], 5 * SEC);
    assert_eq!(core.network_last_active_elapsed(7, 6 * SEC), Some(SEC));
    assert_eq!(core.network_counters.get(&forward_key("husker3", 8080)), (0, 0));
    assert_eq!(core.network_counters.get(&forward_key("husker4", 8080)), (5, 300));
    let read = CounterTable::new();
    let first = core.first_look(&record, &vec![8080], &read, false, 5 * SEC, t(5));
    assert_eq!(first, PolicyAction::Nothing);
}
