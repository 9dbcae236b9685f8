use husker_core::destroy::{
    backend_destroyed, destroy_vm, is_fatal, reclaim, release_vm_host_network, tap_removed,
    without_network, Teardown,
};
use husker_core::error::{AgentErrorKind, CoreError, StateError, VmmErrorKind};
use husker_core::fork::{
    after_rehome_attempt, build_fork_record, check_fork_names, check_fork_source, fork_identity,
    fork_target, fork_unsupported, ForkOutcome, ForkStep, Forking, Rehoming,
};
use husker_core::ids::short_id;
use husker_core::ipv4::Ipv4;
use husker_core::leases::{
    first_lease_step, leftover_dir_error, next_lease_step, HostResourceLease, LeaseStep,
};
use husker_core::ledger::{
    is_due, rollback_create, CreateShape, CreateStep, Creation, Release, StepOutcome,
};
use husker_core::lifecycle::{
    drains, first_resume_step, is_vmm_of, next_resume_step, next_suspend_step, orphan_candidate,
    pause_vm, reconcile_suspended, refresh_vm_liveness, require_snapshot_support, resume_target,
    resume_vm, stop_vm, suspend_shape, suspend_vm, woke_from_suspend, PauseAction, ResumeAction, ResumeStep,
    RestoreTarget, StopAction, SuspendAction, SuspendStep,
};
use husker_core::logs::{
    boot_failure_detail, needs_rotation, resolv_conf, resolv_conf_written, rotation_start,
    serial_log_path, suspend_slot_dir, tail_last_lines, userdata_log, Unmounted, LOG_ROTATE_KEEP,
};
use husker_core::manifest::{check_manifest, suspend_manifest};
use husker_core::records::{Lifecycle, VmRecord};
use husker_core::settings::{HuskerCore, StorageLayout};
use husker_core::time::Timestamp;
use husker_core::vz::{VzCreation, VzOutcome, VzStep};

fn t(secs: i64) -> Timestamp {
    Timestamp::new(secs, 0).unwrap()
}

fn ip(d: u8) -> Ipv4 {
    Ipv4 { a: 172, b: 20, c: 0, d }
}

fn vm(state: &str) -> VmRecord {
    VmRecord {
        id: 0x0123_4567_89ab_cdef_0123_4567_89ab_cdef,
        name: "web".into(),
        state: state.into(),
        pid: Some(4242),
        vcpu_count: 2,
        mem_size_mib: 256,
        vsock_cid: 5,
        tap_device: Some("husker5".into()),
        host_ip: Some("172.20.0.1".into()),
        guest_ip: Some("172.20.0.2".into()),
        kernel_path: "/k".into(),
        rootfs_path: "/r".into(),
        created_at: t(0),
        updated_at: t(0),
        userdata: None,
        userdata_status: None,
        userdata_env: None,
        service_id: None,
        service_ordinal: None,
        vmm: "firecracker".into(),
        boot_mode: "direct".into(),
        balloon: false,
        volume: None,
        network: "nat".into(),
        last_activity_at: t(0),
        suspended_at: None,
        idle_timeout_secs: None,
        suspend_ttl_secs: None,
        auto_resume: true,
        forked_from: None,
    }
}

fn daemon() -> HuskerCore {
    HuskerCore::new(
        StorageLayout {
            data_dir: "/data".into(),
            state_dir: "/state".into(),
            images_dir: "/data/images".into(),
            vms_dir: "/state/vms".into(),
            kernels_dir: "/data/kernels".into(),
            volumes_dir: "/state/volumes".into(),
            sentinel_path: "/data/.mounted".into(),
        },
        "husker0".into(),
        vec![],
        "/run/husker".into(),
    )
}

#[test]
fn requests_are_answered_by_state() {
    assert_eq!(stop_vm(&vm("running"), "web").unwrap(), StopAction::StopProcess);
    assert_eq!(stop_vm(&vm("suspended"), "web").unwrap(), StopAction::DiscardSlot);
    assert_eq!(stop_vm(&vm("stopped"), "web").unwrap(), StopAction::Nothing);
    assert_eq!(pause_vm(&vm("running"), "web").unwrap(), PauseAction::PauseProcess);
    assert_eq!(pause_vm(&vm("paused"), "web").unwrap(), PauseAction::Nothing);
    assert_eq!(suspend_vm(&vm("paused"), "web").unwrap(), SuspendAction::Capture);
    assert_eq!(suspend_vm(&vm("suspended"), "web").unwrap(), SuspendAction::Nothing);
    assert_eq!(resume_vm(&vm("paused"), "web").unwrap(), ResumeAction::Unpause);
    assert_eq!(resume_vm(&vm("suspended"), "web").unwrap(), ResumeAction::Restore);
    assert_eq!(resume_vm(&vm("running"), "web").unwrap(), ResumeAction::Nothing);
    assert!(matches!(
        pause_vm(&vm("stopped"), "web"),
        Err(CoreError::InvalidState { name, actual, expected })
            if name == "web" && actual == "stopped" && expected == "running"
    ));
    assert!(suspend_vm(&vm("stopped"), "web").is_err());
    assert!(resume_vm(&vm("stopped"), "web").is_err());
    assert!(stop_vm(&vm("creating"), "web").is_err());
}

#[test]
fn only_a_restore_wakes_from_suspend() {
    assert!(woke_from_suspend(ResumeAction::Restore));
    assert!(!woke_from_suspend(ResumeAction::Unpause));
    assert!(!woke_from_suspend(ResumeAction::Nothing));
}

#[test]
fn an_undisturbed_suspend_runs_through() {
    let shape = suspend_shape(&vm("running"), 1);
    let mut step = SuspendStep::MarkSuspending;
    let mut taken = vec![step];
    while step != SuspendStep::Done && step != SuspendStep::Failed {
        step = next_suspend_step(&shape, step, true);
        taken.push(step);
    }
    assert_eq!(
        taken,
        vec![
            SuspendStep::MarkSuspending,
            SuspendStep::Pause,
            SuspendStep::CreateSlot,
            SuspendStep::Snapshot,
            SuspendStep::WriteManifest,
            SuspendStep::KillProcess,
            SuspendStep::MarkSuspended,
            SuspendStep::StampSuspendedAt,
            SuspendStep::InstallListeners,
            SuspendStep::RemoveForwards,
            SuspendStep::Done,
        ]
    );
}

#[test]
fn a_failed_capture_is_undone() {
    let shape = suspend_shape(&vm("running"), 0);
    let mut step = next_suspend_step(&shape, SuspendStep::Snapshot, false);
    let mut taken = vec![step];
    while step != SuspendStep::Failed {
        step = next_suspend_step(&shape, step, true);
        taken.push(step);
    }
    assert_eq!(
        taken,
        vec![
            SuspendStep::RemoveSlot,
            SuspendStep::Unpause,
            SuspendStep::RestoreState,
            SuspendStep::Failed,
        ]
    );
}

#[test]
fn resume_from_paused_does_not_touch_suspend_lifecycle_state() {
    let action = resume_vm(&vm("paused"), "web").unwrap();
    let mut step = first_resume_step(action);
    let mut taken = vec![step];
    while step != ResumeStep::Done && step != ResumeStep::Failed {
        step = next_resume_step(action, step, true);
        taken.push(step);
    }
    assert!(taken.contains(&ResumeStep::MarkRunning));
    assert!(!taken.contains(&ResumeStep::ClearSuspendedAt));
    assert!(!taken.contains(&ResumeStep::RemoveSlot));
}

#[test]
fn a_restore_puts_forwards_up_before_it_closes_listeners() {
    let action = ResumeAction::Restore;
    let mut step = first_resume_step(action);
    let mut taken = vec![step];
    while step != ResumeStep::Done && step != ResumeStep::Failed {
        step = next_resume_step(action, step, true);
        taken.push(step);
    }
    let at = |s: ResumeStep| taken.iter().position(|x| *x == s).unwrap();
    assert!(at(ResumeStep::CheckManifest) < at(ResumeStep::RestoreProcess));
    assert!(at(ResumeStep::RestoreForwards) < at(ResumeStep::DrainListeners));
    assert!(taken.contains(&ResumeStep::ClearSuspendedAt));
    assert_eq!(
        next_resume_step(action, ResumeStep::CheckManifest, false),
        ResumeStep::Failed
    );
}

#[test]
fn interrupted_suspends_are_settled_by_their_slot() {
    assert_eq!(
        reconcile_suspended(&vm("suspending"), true, true, true),
        Some(Lifecycle::Suspended)
    );
    for (a, b, c) in [(false, true, true), (true, false, true), (true, true, false)] {
        assert_eq!(reconcile_suspended(&vm("suspending"), a, b, c), Some(Lifecycle::Stopped));
    }
    assert_eq!(reconcile_suspended(&vm("suspended"), true, true, true), None);
}

#[test]
fn dead_processes_leave_stopped_vms() {
    let (fresh, changed) = refresh_vm_liveness(&vm("running"), false);
    assert!(changed);
    assert_eq!((fresh.state.as_str(), fresh.pid), ("stopped", None));
    let (fresh, changed) = refresh_vm_liveness(&vm("running"), true);
    assert!(!changed);
    assert_eq!((fresh.state.as_str(), fresh.pid), ("running", Some(4242)));
    let (fresh, changed) = refresh_vm_liveness(&vm("suspended"), false);
    assert!(!changed);
    assert_eq!(fresh.state, "suspended");
}

#[test]
fn only_identified_processes_are_reaped() {
    assert_eq!(orphan_candidate(&vm("running")), Some(4242));
    assert_eq!(orphan_candidate(&vm("stopped")), None);
    let id = vm("running").id;
    assert!(is_vmm_of("firecracker --id 01234567-89ab-cdef-0123-456789abcdef", id));
    assert!(!is_vmm_of("firecracker --id 01234567-89ab-cdef-0123-456789abcdee", id));
    assert!(!is_vmm_of("sleep 1000", id));
    assert_eq!(short_id(id), "01234567");
    assert!(drains(&vm("paused")));
    assert!(!drains(&vm("suspended")));
}

#[test]
fn only_firecracker_captures_state() {
    assert!(require_snapshot_support(&vm("running")).is_ok());
    let mut q = vm("running");
    q.vmm = "qemu".into();
    assert!(matches!(
        require_snapshot_support(&q),
        Err(CoreError::Vmm(VmmErrorKind::Unsupported, _))
    ));
}

#[test]
fn manifests_name_the_backend_that_wrote_them() {
    let m = suspend_manifest(&vm("running"), "firecracker".into(), "1.7.0".into());
    assert!(check_manifest(&m, "firecracker").is_ok());
    let other = check_manifest(&m, "qemu").unwrap_err();
    assert_eq!(
        other.message(),
        "invalid argument: suspend snapshot backend 'firecracker' does not match VM backend 'qemu'"
    );
    assert!(check_manifest(&b"not json".to_vec(), "firecracker").is_err());
    assert!(check_manifest(&b"{}".to_vec(), "firecracker").is_err());
    let value: serde_json::Value = serde_json::from_slice(&m).unwrap();
    assert_eq!(value.get("backend").and_then(|v| v.as_str()), Some("firecracker"));
    assert_eq!(value.get("vmm_version").and_then(|v| v.as_str()), Some("1.7.0"));
}

#[test]
fn tail_last_lines_returns_last_n_and_handles_missing_or_empty() {
    // Empty / whitespace-only content -> None.
    assert!(tail_last_lines("\n\n  \n", 5).is_none());
    assert!(tail_last_lines("", 5).is_none());
    // More lines than requested -> only the last N, trailing blank trimmed.
    assert_eq!(tail_last_lines("a\nb\nc\nd\ne\n", 2).unwrap(), "d\ne");
    // Fewer lines than requested -> all of them.
    assert_eq!(tail_last_lines("a\nb\nc\nd\ne\n", 20).unwrap(), "a\nb\nc\nd\ne");
    assert_eq!(tail_last_lines("a\r\nb\r\n", 2).unwrap(), "a\nb");
}

#[test]
fn rotation_keeps_the_last_bytes() {
    let len = 12 * 1024 * 1024;
    assert!(needs_rotation("test.serial.log", len));
    assert!(!needs_rotation("test.serial.log", 10 * 1024 * 1024));
    assert!(!needs_rotation("test.log", len));
    assert_eq!(rotation_start(len, LOG_ROTATE_KEEP), Some(len - LOG_ROTATE_KEEP));
    assert_eq!(rotation_start(1024, LOG_ROTATE_KEEP), None);
}

#[test]
fn boot_failures_show_the_console() {
    let detail = boot_failure_detail("web", &Some("Kernel panic".into()));
    assert_eq!(
        detail,
        "\n--- guest serial console (last 20 lines) ---\nKernel panic\nhint: run `husker logs --source serial web` for the full guest console"
    );
    let detail = boot_failure_detail("web", &Some("x: disagrees about version of symbol y".into()));
    assert!(detail.contains("rebuild the rootfs"));
    assert!(boot_failure_detail("web", &None).contains("no output yet"));
    assert_eq!(serial_log_path("/run/h", 1), "/run/h/00000000-0000-0000-0000-000000000001.serial.log");
    assert!(suspend_slot_dir("/data", 1).contains("00000000-0000-0000-0000-000000000001"));
}

#[test]
fn guest_files_are_written_as_their_readers_want_them() {
    assert_eq!(
        resolv_conf(&vec!["1.1.1.1".into(), "9.9.9.9".into()]),
        "nameserver 1.1.1.1\nnameserver 9.9.9.9\n"
    );
    assert_eq!(resolv_conf(&vec![]), "");
    assert_eq!(userdata_log("out", ""), "out");
    assert_eq!(userdata_log("out", "err"), "out\n[stderr]\nerr");
    assert_eq!(userdata_log("out\n", "err"), "out\n[stderr]\nerr");
    assert_eq!(userdata_log("", "err"), "[stderr]\nerr");
    assert!(resolv_conf_written(Ok(()), Unmounted::Clean).is_ok());
    assert!(resolv_conf_written(Ok(()), Unmounted::Failed).is_err());
    // What went wrong first is what is told.
    assert!(matches!(
        resolv_conf_written(Err("write".into()), Unmounted::Failed),
        Err(CoreError::Storage(m)) if m == "write"
    ));
}

#[test]
fn creations_take_their_steps_in_order() {
    let mut c = Creation::begin(CreateShape { nat: true, cloud: false, dns: true });
    assert_eq!(c.step, CreateStep::AllocateIp);
    c.advance(StepOutcome::TookIp(ip(2)));
    assert_eq!(c.step, CreateStep::AllocateCid);
    c.advance(StepOutcome::TookCid(5));
    assert_eq!(c.step, CreateStep::CreateTap);
    c.advance(StepOutcome::TookTap("husker5".into()));
    assert_eq!(c.step, CreateStep::AttachTap);
    c.advance(StepOutcome::Passed);
    assert_eq!(c.step, CreateStep::ClearDir);
    c.advance(StepOutcome::TookDir("/state/vms/web".into()));
    assert_eq!(c.step, CreateStep::FindVolume);
    c.advance(StepOutcome::Passed);
    assert_eq!(c.step, CreateStep::CloneRootfs);
    c.advance(StepOutcome::Passed);
    assert_eq!(c.step, CreateStep::InjectResolvConf);
    c.advance(StepOutcome::Passed);
    assert_eq!(c.step, CreateStep::Assemble);
    c.advance(StepOutcome::Passed);
    assert_eq!(c.step, CreateStep::StartVm);
    c.advance(StepOutcome::TookVm(77));
    assert_eq!(c.step, CreateStep::Insert);
    c.advance(StepOutcome::Refused);
    assert_eq!((c.step, c.failed_at), (CreateStep::Failed, Some(CreateStep::Insert)));
    let undo = rollback_create(c.resources);
    assert_eq!(undo.len(), 6);
    assert!(matches!(&undo[0], Release::DestroyVm(77)));
    assert!(matches!(&undo[1], Release::RemoveDir(d) if d == "/state/vms/web"));
    assert!(matches!(&undo[2], Release::RemoveForwards(tap) if tap == "husker5"));
    assert!(matches!(&undo[3], Release::DeleteTap(tap) if tap == "husker5"));
    assert!(matches!(&undo[4], Release::FreeCid(5)));
    assert!(matches!(&undo[5], Release::FreeIp(a) if *a == ip(2)));
}

#[test]
fn early_failures_give_back_only_what_was_taken() {
    let mut c = Creation::begin(CreateShape { nat: false, cloud: true, dns: false });
    assert_eq!(c.step, CreateStep::AllocateCid);
    c.advance(StepOutcome::TookCid(6));
    c.advance(StepOutcome::Refused);
    let undo = rollback_create(c.resources);
    assert_eq!(undo.len(), 1);
    assert!(matches!(&undo[0], Release::FreeCid(6)));
}

#[test]
fn cloud_image_failures_on_macos_roll_the_directory_back() {
    let mut c = VzCreation::begin(true);
    let mut steps = vec![c.step];
    while c.step != VzStep::PrepareDisk {
        let outcome = match c.step {
            VzStep::AllocateCid => VzOutcome::TookCid(3),
            VzStep::MakeDir => VzOutcome::TookDir("/state/vms/mac".into()),
            _ => VzOutcome::Passed,
        };
        c.advance(outcome);
        steps.push(c.step);
    }
    assert!(steps.contains(&VzStep::CheckImage));
    c.advance(VzOutcome::Refused);
    assert_eq!(c.step, VzStep::Failed);
    let undo = rollback_create(c.resources);
    assert_eq!(undo.len(), 2);
    assert!(matches!(&undo[0], Release::RemoveDir(d) if d == "/state/vms/mac"));
    assert!(matches!(&undo[1], Release::FreeCid(3)));
}

#[test]
fn destroying_takes_everything_down_and_the_record_last() {
    let steps = destroy_vm(&daemon(), &vm("running"));
    assert!(matches!(steps.last(), Some(Teardown::DeleteRecord(_))));
    assert!(steps.iter().any(|s| matches!(s, Teardown::DeleteTap(t) if t == "husker5")));
    assert!(steps.iter().any(|s| matches!(s, Teardown::FreeIp(a) if *a == ip(2))));
    assert!(steps.iter().any(|s| matches!(s, Teardown::FreeCid(5))));
    assert!(steps.iter().any(|s| matches!(s, Teardown::RemoveDir(d) if d == "/state/vms/web")));
    assert!(steps.iter().any(|s| matches!(s, Teardown::CloseListeners(_))));
    let fatal = steps.iter().filter(|s| is_fatal(s)).count();
    assert!(fatal >= 1 && fatal < steps.len());
    let mut bare = vm("stopped");
    bare.tap_device = None;
    bare.guest_ip = None;
    let steps = destroy_vm(&daemon(), &bare);
    assert!(!steps.iter().any(|s| matches!(s, Teardown::DeleteTap(_) | Teardown::FreeIp(_))));
}

#[test]
fn a_missing_process_does_not_stop_a_destroy() {
    assert!(backend_destroyed(Ok(())).is_ok());
    assert!(backend_destroyed(Err((VmmErrorKind::VmNotFound, "gone".into()))).is_ok());
    assert!(matches!(
        backend_destroyed(Err((VmmErrorKind::Other, "stuck".into()))),
        Err(CoreError::Vmm(VmmErrorKind::Other, m)) if m == "stuck"
    ));
}

#[test]
fn leaks_are_reclaimed_once() {
    let steps = reclaim(&vm("stopped"));
    assert!(steps.iter().any(|s| matches!(s, Teardown::DeleteTap(_))));
    assert!(!steps.iter().any(|s| matches!(s, Teardown::DeleteRecord(_))));
    let after = without_network(&vm("stopped"));
    assert!(after.tap_device.is_none() && after.host_ip.is_none() && after.guest_ip.is_none());
    assert_eq!(after.name, "web");
    assert_eq!(release_vm_host_network(&vm("stopped")).unwrap(), Some(ip(2)));
    assert_eq!(release_vm_host_network(&after).unwrap(), None);
    let mut corrupt = vm("stopped");
    corrupt.guest_ip = Some("zzz".into());
    assert!(matches!(
        release_vm_host_network(&corrupt),
        Err(CoreError::State(StateError::CorruptData { .. }))
    ));
    assert!(tap_removed(Ok(()), Ok(()), Ok(())).is_ok());
    assert!(matches!(
        tap_removed(Ok(()), Err("f".into()), Err("t".into())),
        Err(CoreError::Network(m)) if m == "f"
    ));
}

#[test]
fn forgetting_a_vm_forgets_its_activity() {
    let mut core = daemon();
    let record = vm("running");
    core.note_activity(record.id, 1);
    core.mark_network_active(record.id, 1);
    core.begin_session(record.id);
    core.forget_vm(&record, &vec![8080]);
    assert_eq!(core.active_session_count(record.id), 0);
    assert_eq!(core.network_last_active_elapsed(record.id, 2), None);
}

#[test]
fn fork_records_forked_from() {
    let source = vm("suspended");
    let fork = build_fork_record(&source, "web-2", 9, Some(7), 6, &ip(6), &ip(5), t(50));
    assert_eq!(fork.forked_from, Some(source.id));
    assert_eq!(fork.name, "web-2");
    assert_eq!(fork.id, 9);
    assert_eq!(fork.vsock_cid, 6);
    assert_eq!(fork.state, "running");
    assert_eq!(fork.guest_ip.as_deref(), Some("172.20.0.6"));
    assert_eq!(fork.host_ip.as_deref(), Some("172.20.0.5"));
    assert_eq!(fork.created_at, t(50));
    assert_eq!((fork.vcpu_count, fork.mem_size_mib), (2, 256));
}

#[test]
fn snapshots_wake_up_as_themselves_or_as_forks() {
    let source = vm("suspended");
    assert!(matches!(
        resume_target(&source),
        RestoreTarget::Resume { id, name, vcpu_count: 2, mem_size_mib: 256, vsock_cid: 5 }
            if id == source.id && name == "web"
    ));
    let core = daemon();
    match fork_target(&core.storage, &source, "web-2", 9, 6) {
        RestoreTarget::Fork { id, name, vsock_cid, tap_device, source_rootfs, fork_rootfs, .. } => {
            assert_eq!((id, name.as_str(), vsock_cid), (9, "web-2", 6));
            assert_eq!(tap_device, "husker6");
            assert_eq!(source_rootfs, "/state/vms/web/rootfs.ext4");
            assert_eq!(fork_rootfs, "/state/vms/web-2/rootfs.ext4");
        }
        other => panic!("expected a fork, got {other:?}"),
    }
    let identity = fork_identity(&core, &ip(6), 30, &ip(5), "02:00:00:00:00:06");
    assert_eq!(identity.interface, "eth0");
    assert_eq!((identity.address.as_str(), identity.gateway.as_str()), ("172.20.0.6", "172.20.0.5"));
    assert_eq!((identity.prefix_len, identity.mac.as_str()), (30, "02:00:00:00:00:06"));
    assert!(identity.dns.is_empty());
    assert_eq!(Lifecycle::Suspending.as_str(), "suspending");
    assert_eq!(vm(Lifecycle::Failed.as_str()).lifecycle(), Lifecycle::Failed);
}

#[test]
fn forks_come_from_suspended_nat_vms() {
    assert!(check_fork_names("web", "web-2").is_ok());
    assert!(check_fork_names("web", "web").is_err());
    assert!(check_fork_names("web", "we b").is_err());
    let source = vm("suspended");
    assert!(check_fork_source("web", &source, "web-2", false).is_ok());
    assert!(matches!(
        check_fork_source("web", &source, "web-2", true),
        Err(CoreError::VmAlreadyExists(n)) if n == "web-2"
    ));
    assert!(matches!(
        check_fork_source("web", &vm("running"), "web-2", false),
        Err(CoreError::InvalidState { .. })
    ));
    let with = |f: fn(&mut VmRecord)| {
        let mut v = vm("suspended");
        f(&mut v);
        check_fork_source("web", &v, "web-2", false)
    };
    assert!(with(|v| v.network = "bridged".into()).is_err());
    assert!(with(|v| v.volume = Some("data".into())).is_err());
    assert!(matches!(
        with(|v| v.vmm = "qemu".into()),
        Err(CoreError::Vmm(VmmErrorKind::Unsupported, _))
    ));
    assert!(matches!(fork_unsupported("web-2"), CoreError::Vmm(VmmErrorKind::Unsupported, _)));
}

#[test]
fn forks_join_the_bridge_after_they_are_rehomed() {
    let mut f = Forking::begin();
    let mut steps = vec![f.step];
    while f.step != ForkStep::Done && f.step != ForkStep::Failed {
        let outcome = match f.step {
            ForkStep::AllocateIp => ForkOutcome::TookIp(ip(6)),
            ForkStep::BeginLease => ForkOutcome::TookLease { id: 77, cid: 6 },
            ForkStep::CreateDir => ForkOutcome::TookDir("/state/vms/web-2".into()),
            ForkStep::Restore => ForkOutcome::TookVm(9),
            _ => ForkOutcome::Passed,
        };
        f.advance(outcome);
        steps.push(f.step);
    }
    let at = |s: ForkStep| steps.iter().position(|x| *x == s).unwrap();
    assert_eq!(f.step, ForkStep::Done);
    assert!(at(ForkStep::Rehome) < at(ForkStep::AttachTap));
    assert!(at(ForkStep::AttachTap) < at(ForkStep::Insert));
}

#[test]
fn old_agents_cannot_be_rehomed() {
    assert!(matches!(after_rehome_attempt(Ok(()), false), Rehoming::Done));
    let refused = || Err(CoreError::Io("refused".into()));
    assert!(matches!(after_rehome_attempt(refused(), false), Rehoming::Retry));
    assert!(matches!(after_rehome_attempt(refused(), true), Rehoming::GiveUp(CoreError::Io(_))));
    let old = Err(CoreError::Agent(AgentErrorKind::UnexpectedResponse, "?".into()));
    assert!(matches!(
        after_rehome_attempt(old, false),
        Rehoming::GiveUp(CoreError::InvalidArgument(_))
    ));
}

#[test]
fn leases_go_after_what_they_stand_for() {
    let mut lease = HostResourceLease {
        id: 1,
        vm_name: "web".into(),
        vsock_cid: 5,
        tap_device: Some("husker5".into()),
    };
    assert_eq!(first_lease_step(&lease), LeaseStep::RemoveTap);
    assert_eq!(next_lease_step(LeaseStep::RemoveTap, true), LeaseStep::RemoveDir);
    assert_eq!(next_lease_step(LeaseStep::RemoveDir, true), LeaseStep::Release);
    assert_eq!(next_lease_step(LeaseStep::Release, true), LeaseStep::Done);
    for step in [LeaseStep::RemoveTap, LeaseStep::RemoveDir, LeaseStep::Release] {
        assert_eq!(next_lease_step(step, false), LeaseStep::Failed);
    }
    lease.tap_device = None;
    assert_eq!(first_lease_step(&lease), LeaseStep::RemoveDir);
    assert_eq!(
        leftover_dir_error("/d", "busy").message(),
        "I/O error: remove interrupted VM directory /d: busy"
    );
}

#[test]
fn failed_forks_keep_their_lease_to_the_last() {
    let mut f = Forking::begin();
    while f.step != ForkStep::Done && f.step != ForkStep::Failed {
        let outcome = match f.step {
            ForkStep::AllocateIp => ForkOutcome::TookIp(ip(6)),
            ForkStep::BeginLease => ForkOutcome::TookLease { id: 77, cid: 6 },
            ForkStep::CreateDir => ForkOutcome::TookDir("/state/vms/web-2".into()),
            ForkStep::Restore => ForkOutcome::TookVm(9),
            ForkStep::Insert => ForkOutcome::Refused,
            _ => ForkOutcome::Passed,
        };
        f.advance(outcome);
    }
    assert_eq!(f.step, ForkStep::Failed);
    let undo = rollback_create(f.resources);
    assert!(matches!(undo.last(), Some(Release::ReleaseLease(77))));
    let lease = undo.last().unwrap();
    assert!(is_due(lease, true));
    // The lease stays where something else could not be given back.
    assert!(!is_due(lease, false));
    assert!(undo[..undo.len() - 1].iter().all(|r| is_due(r, false)));
}
