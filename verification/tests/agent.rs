use husker_core::agent::{
    not_ready, probe_result, require_running, wake_for_agent, AttemptOutcome, ReadyStep, ReadyWait,
};
use husker_core::error::{AgentErrorKind, CoreError, StateError, VmmErrorKind};
use husker_core::proxy::{
    after_accept_failure, drains_on, AcceptFailure, AcceptStep, DirectIpDialer, ForwardTable,
    Listener, ResumeDialer, DRAIN_CAP,
};
use husker_core::records::VmRecord;
use husker_core::settings::{HuskerCore, StorageLayout};
use husker_core::time::Timestamp;
use husker_core::userdata::{
    cancelled, finished_status, job_script, UserdataJobs, UserdataRunGuard, UserdataStatus,
};

const MS: u128 = 1_000_000;

fn t(secs: i64) -> Timestamp {
    Timestamp::new(secs, 0).unwrap()
}

fn vm(state: &str) -> VmRecord {
    VmRecord {
        id: 7,
        name: "na".into(),
        state: state.into(),
        pid: None,
        vcpu_count: 1,
        mem_size_mib: 128,
        vsock_cid: 3,
        tap_device: None,
        host_ip: None,
        guest_ip: None,
        kernel_path: "/k".into(),
        rootfs_path: "/r".into(),
        created_at: t(0),
        updated_at: t(0),
        userdata: Some("echo hi".into()),
        userdata_status: Some("pending".into()),
        userdata_env: None,
        service_id: None,
        service_ordinal: None,
        vmm: "firecracker".into(),
        boot_mode: "direct".into(),
        balloon: false,
        volume: None,
        network: "nat".into(),
        last_activity_at: t(0),
        suspended_at: None,
        idle_timeout_secs: None,
        suspend_ttl_secs: None,
        auto_resume: true,
        forked_from: None,
    }
}

#[test]
fn agent_connect_on_suspended_no_auto_resume_errors() {
    let mut rec = vm("suspended");
    rec.auto_resume = false;
    let err = wake_for_agent("na", &rec).unwrap_err();
    assert!(
        matches!(err, CoreError::InvalidState { .. }),
        "a suspended VM without auto_resume must be reported as InvalidState, got: {err:?}"
    );
}

#[test]
fn suspended_vms_wake_for_the_agent() {
    assert!(wake_for_agent("na", &vm("suspended")).unwrap());
    assert!(!wake_for_agent("na", &vm("running")).unwrap());
    assert!(!wake_for_agent("na", &vm("stopped")).unwrap());
    assert!(require_running("na", &vm("running")).is_ok());
    assert!(matches!(
        require_running("na", &vm("stopped")),
        Err(CoreError::InvalidState { actual, .. }) if actual == "stopped"
    ));
}

#[test]
fn agent_use_pins_and_is_recorded_sparingly() {
    let mut core = HuskerCore::new(
        StorageLayout {
            data_dir: "/d".into(),
            state_dir: "/s".into(),
            images_dir: "/d/i".into(),
            vms_dir: "/s/v".into(),
            kernels_dir: "/d/k".into(),
            volumes_dir: "/s/o".into(),
            sentinel_path: "/d/.m".into(),
        },
        "husker0".into(),
        vec![],
        "/run".into(),
    );
    assert!(!core.pin_for_agent(&vm("running"), 1, t(29)));
    assert!(core.pin_for_agent(&vm("running"), 1, t(30)));
    assert_eq!(core.active_session_count(7), 2);
}

#[test]
fn pauses_double_up_to_two_seconds() {
    let mut wait = ReadyWait::begin(60_000 * MS, 0);
    let mut now = 0;
    let mut pauses = vec![];
    loop {
        match wait.after_attempt(AttemptOutcome::TimedOut, now) {
            ReadyStep::Pause(p) => {
                pauses.push(p / MS);
                now += p;
            }
            ReadyStep::GiveUp => break,
            other => panic!("unexpected {other:?}"),
        }
    }
    assert_eq!(&pauses[..6], &[200, 400, 800, 1600, 2000, 2000]);
    assert!(now < 60_000 * MS);
}

#[test]
fn a_pong_ends_the_wait_and_a_hard_error_too() {
    let mut wait = ReadyWait::begin(1_000 * MS, 0);
    assert!(matches!(wait.after_attempt(AttemptOutcome::Ponged, 5), ReadyStep::Ready));
    let hard = CoreError::VmNotFound("na".into());
    assert!(matches!(
        wait.after_attempt(AttemptOutcome::Failed(hard), 5),
        ReadyStep::Fail(CoreError::VmNotFound(_))
    ));
}

#[test]
fn probes_tell_not_yet_from_never() {
    assert!(probe_result(AttemptOutcome::Ponged).unwrap());
    assert!(!probe_result(AttemptOutcome::TimedOut).unwrap());
    let soft = CoreError::Agent(AgentErrorKind::NotReady, "x".into());
    assert!(!probe_result(AttemptOutcome::Failed(soft)).unwrap());
    assert!(probe_result(AttemptOutcome::Failed(CoreError::VmNotFound("na".into()))).is_err());
    let unsupported = CoreError::Vmm(VmmErrorKind::Unsupported, "x".into());
    assert!(!probe_result(AttemptOutcome::Failed(unsupported)).unwrap());
}

#[test]
fn scripts_run_once_per_vm() {
    let mut jobs = UserdataJobs::default();
    assert!(jobs.accepts(7));
    let first = jobs.claim_and_insert(7, true).unwrap();
    assert!(!jobs.accepts(7));
    assert!(jobs.claim_and_insert(7, true).is_none());
    assert!(jobs.claim_and_insert(8, false).is_none());
    assert_eq!(jobs.take(7), Some(first));
    let second = jobs.claim_and_insert(7, true).unwrap();
    assert_ne!(first, second);
    // A job that ends late does not take its successor out.
    assert!(!jobs.remove_if_current(7, first));
    assert!(jobs.remove_if_current(7, second));
    assert_eq!(jobs.take(7), None);
    jobs.claim_and_insert(9, true).unwrap();
    let left = jobs.close_and_take_all();
    assert_eq!(left.len(), 1);
    assert_eq!(left[0].0, 9);
    assert!(!jobs.accepts(7));
    assert!(jobs.claim_and_insert(7, true).is_none());
}

#[test]
fn only_the_same_vm_runs_its_script() {
    assert_eq!(job_script(7, &vm("running"), true).as_deref(), Some("echo hi"));
    assert_eq!(job_script(8, &vm("running"), true), None);
    assert_eq!(job_script(7, &vm("suspended"), true), None);
    assert_eq!(job_script(7, &vm("suspended"), false).as_deref(), Some("echo hi"));
    assert_eq!(finished_status(0), UserdataStatus::Completed);
    assert_eq!(finished_status(1), UserdataStatus::Failed);
    assert_eq!(finished_status(-1), UserdataStatus::Failed);
    assert!(matches!(cancelled("na"), CoreError::UserdataCancelled(n) if n == "na"));
}

#[test]
fn interrupted_runs_go_back_to_pending() {
    let mut guard = UserdataRunGuard::new();
    assert!(guard.restores_pending());
    assert!(guard.finish(7, Err(StateError::Other("locked".into()))).is_err());
    assert!(guard.restores_pending());
    assert!(guard.finish(7, Ok(true)).is_ok());
    assert!(!guard.restores_pending());
    let mut guard = UserdataRunGuard::new();
    assert!(matches!(guard.finish(7, Ok(false)), Err(CoreError::Io(m)) if m.contains("changed while")));
    assert!(!guard.restores_pending());
}

#[test]
fn accept_failures_are_told_apart() {
    assert_eq!(after_accept_failure(AcceptFailure::Interrupted), AcceptStep::Retry);
    assert_eq!(after_accept_failure(AcceptFailure::Aborted), AcceptStep::Retry);
    assert_eq!(after_accept_failure(AcceptFailure::WouldBlock), AcceptStep::Empty);
    assert_eq!(after_accept_failure(AcceptFailure::Other), AcceptStep::Fail);
    assert!(drains_on(0, true));
    assert!(drains_on(DRAIN_CAP - 1, true));
    assert!(!drains_on(DRAIN_CAP, true));
    assert!(!drains_on(3, false));
}

#[test]
fn one_listener_per_port_and_vm() {
    let mut table = ForwardTable::new();
    let a = Listener { vm: 1, port: 80, handle: 10 };
    let b = Listener { vm: 1, port: 81, handle: 11 };
    let c = Listener { vm: 2, port: 82, handle: 12 };
    assert_eq!(table.add_listener(a), None);
    assert_eq!(table.add_listener(b), None);
    assert_eq!(table.add_listener(c), None);
    let again = Listener { vm: 1, port: 80, handle: 13 };
    assert_eq!(table.add_listener(again), Some(a));
    assert_eq!(table.stop(1, 82), None);
    assert_eq!(table.stop(1, 81), Some(b));
    assert_eq!(table.stop_all(1), vec![again]);
    assert_eq!(table.stop_all(1), vec![]);
    assert_eq!(table.stop(2, 82), Some(c));
}

#[test]
fn resume_dialers_know_whom_to_wake() {
    let dialer = ResumeDialer::new(DirectIpDialer, "web".to_string(), 5u8);
    assert_eq!(dialer.vm_name(), "web");
    assert_eq!(*dialer.resume(), 5);
    let _inner: &DirectIpDialer = dialer.inner();
}

#[test]
fn a_silent_agent_is_reported_with_the_boot() {
    let e = not_ready(30, "; see the console");
    assert!(matches!(
        e,
        CoreError::Agent(AgentErrorKind::NotReady, text)
            if text == "agent not ready after 30s; see the console"
    ));
}
