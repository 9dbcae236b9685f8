use husker_core::diagnostics::{
    build_diagnostics, cgroup_controllers_path, forwarding_enabled, free_bytes, lists_controllers,
    report_is_fresh, CheckResult, CheckStatus, DiagnosticsInput, DiagnosticsReport, FreeSpace,
    HostFacts, ReflinkProbe,
};
use husker_core::settings::{HuskerCore, Platform, StorageLayout};

fn storage(data: &str, state: &str) -> StorageLayout {
    StorageLayout {
        data_dir: data.into(),
        state_dir: state.into(),
        images_dir: format!("{data}/images"),
        vms_dir: format!("{state}/vms"),
        kernels_dir: format!("{data}/kernels"),
        volumes_dir: format!("{state}/volumes"),
        sentinel_path: format!("{data}/.mounted"),
    }
}

fn input(storage: &StorageLayout) -> DiagnosticsInput<'_> {
    DiagnosticsInput {
        storage,
        storage_volume: false,
        embedded_agent_present: true,
        host_interface: None,
        resource_limits_requested: false,
    }
}

fn space(bytes: u64, gib: &str) -> Option<FreeSpace> {
    Some(FreeSpace { bytes, gib: gib.into() })
}

/// A fresh host: everything is there but kernels and a mounted volume.
fn facts() -> HostFacts {
    HostFacts {
        reflink: ReflinkProbe::Supported,
        data_dir_free: space(50 << 30, "50.0"),
        state_dir_free: space(50 << 30, "50.0"),
        firecracker_on_path: true,
        kvm_present: true,
        qemu_img_on_path: true,
        default_kernel_present: false,
        vhost_vsock_present: true,
        ip_forwarding: true,
        nft_on_path: true,
        uplink_present: true,
        mkfs_xfs_on_path: true,
        rsync_on_path: true,
        sentinel_present: false,
        cgroup_v2: true,
        controllers_delegated: true,
    }
}

fn named<'a>(report: &'a DiagnosticsReport, name: &str) -> Option<&'a CheckResult> {
    report.checks.iter().find(|c| c.name == name)
}

#[test]
fn build_diagnostics_reports_reflink_and_free_space() {
    let storage = storage("/srv/husker", "/srv/husker");
    let report = build_diagnostics(&input(&storage), Platform::Linux, &facts());
    // Always includes the reflink and free-space checks by name.
    assert!(report.checks.iter().any(|c| c.name == "data-dir reflink"));
    assert!(report.checks.iter().any(|c| c.name == "data-dir free space"));
    // storage_volume=false => the mount check must be absent entirely.
    assert!(
        !report.checks.iter().any(|c| c.name == "storage volume mount"),
        "mount check must not appear when storage_volume=false"
    );
    // state_dir == data_dir => no separate state-dir free-space check.
    assert!(
        !report.checks.iter().any(|c| c.name == "state-dir free space"),
        "state-dir check must not appear when state_dir == data_dir"
    );
}

#[test]
fn build_diagnostics_fails_when_volume_flag_set_but_unmounted() {
    let storage = storage("/srv/husker", "/srv/husker");
    // No sentinel file present => the mount check must fail.
    let input = DiagnosticsInput { storage_volume: true, ..input(&storage) };
    let report = build_diagnostics(&input, Platform::Linux, &facts());
    let mount = named(&report, "storage volume mount")
        .expect("mount check present when storage_volume=true");
    assert_eq!(mount.status, CheckStatus::Fail);
    assert!(report.has_failure());
}

#[test]
fn build_diagnostics_warns_on_missing_embedded_agent() {
    let storage = storage("/srv/husker", "/srv/husker");
    let input = DiagnosticsInput { embedded_agent_present: false, ..input(&storage) };
    let report = build_diagnostics(&input, Platform::Linux, &facts());
    let agent = named(&report, "embedded agent").expect("embedded agent check present");
    // A missing agent is advisory (Warn), never a hard failure.
    assert_eq!(agent.status, CheckStatus::Warn);
    assert_ne!(agent.status, CheckStatus::Fail);
}

#[test]
fn build_diagnostics_reports_embedded_agent_ok_and_missing_kernel() {
    let storage = storage("/srv/husker", "/srv/husker");
    let report = build_diagnostics(&input(&storage), Platform::Linux, &facts());
    let agent = named(&report, "embedded agent").expect("embedded agent check present");
    assert_eq!(agent.status, CheckStatus::Okay);
    // No kernel file => the default-images check warns.
    let images = named(&report, "default boot images").expect("default boot images check present");
    assert_eq!(images.status, CheckStatus::Warn);
}

#[test]
fn build_diagnostics_checks_state_dir_when_split_from_data_dir() {
    let storage = storage("/srv/husker", "/var/husker");
    let report = build_diagnostics(&input(&storage), Platform::Linux, &facts());
    assert!(
        report.checks.iter().any(|c| c.name == "state-dir free space"),
        "state-dir check must appear when state_dir != data_dir"
    );
}

#[test]
fn build_diagnostics_reports_cgroup_readiness_when_requested() {
    let storage = storage("/srv/husker", "/srv/husker");
    let input = DiagnosticsInput { resource_limits_requested: true, ..input(&storage) };
    let report = build_diagnostics(&input, Platform::Linux, &facts());
    assert!(
        report.checks.iter().any(|c| c.name == "cgroup limits"),
        "cgroup readiness check must appear when resource_limits is requested"
    );
}

#[test]
fn check_status_severity_orders_ok_warn_fail() {
    assert_eq!(CheckStatus::Okay.severity(), 0);
    assert_eq!(CheckStatus::Warn.severity(), 1);
    assert_eq!(CheckStatus::Fail.severity(), 2);
    // Ordering is the metrics/alerting contract: `>= 2` selects failures,
    // `>= 1` selects anything not-ok.
    assert!(CheckStatus::Fail.severity() > CheckStatus::Warn.severity());
    assert!(CheckStatus::Warn.severity() > CheckStatus::Okay.severity());
}

#[test]
fn broken_hosts_fail() {
    let storage = storage("/srv/husker", "/srv/husker");
    let status = |facts: HostFacts, name: &str| {
        let report = build_diagnostics(&input(&storage), Platform::Linux, &facts);
        named(&report, name).unwrap().status
    };
    assert_eq!(status(facts(), "backend"), CheckStatus::Okay);
    assert_eq!(status(HostFacts { kvm_present: false, ..facts() }, "backend"), CheckStatus::Fail);
    assert_eq!(
        status(HostFacts { firecracker_on_path: false, ..facts() }, "backend"),
        CheckStatus::Fail
    );
    assert_eq!(
        status(
            HostFacts { reflink: ReflinkProbe::Failed("read-only".into()), ..facts() },
            "data-dir reflink"
        ),
        CheckStatus::Fail
    );
    assert_eq!(
        status(HostFacts { reflink: ReflinkProbe::FullCopy, ..facts() }, "data-dir reflink"),
        CheckStatus::Warn
    );
    assert_eq!(status(HostFacts { data_dir_free: None, ..facts() }, "data-dir free space"), CheckStatus::Fail);
    let tight = HostFacts { data_dir_free: space((1 << 30) - 1, "1.0"), ..facts() };
    assert_eq!(status(tight, "data-dir free space"), CheckStatus::Warn);
    let enough = HostFacts { data_dir_free: space(1 << 30, "1.0"), ..facts() };
    assert_eq!(status(enough, "data-dir free space"), CheckStatus::Okay);
    assert_eq!(
        status(HostFacts { ip_forwarding: false, ..facts() }, "guest NAT egress"),
        CheckStatus::Fail
    );
    assert_eq!(
        status(HostFacts { nft_on_path: false, ..facts() }, "guest NAT egress"),
        CheckStatus::Warn
    );
    assert_eq!(
        status(HostFacts { rsync_on_path: false, ..facts() }, "migration helpers"),
        CheckStatus::Warn
    );
}

#[test]
fn macos_hosts_are_asked_other_questions() {
    let storage = storage("/srv/husker", "/srv/husker");
    let no_kvm = HostFacts { kvm_present: false, firecracker_on_path: false, ..facts() };
    let report = build_diagnostics(&input(&storage), Platform::Macos, &no_kvm);
    assert_eq!(named(&report, "backend").unwrap().status, CheckStatus::Okay);
    assert!(named(&report, "vhost_vsock").is_none());
    assert!(!report.has_failure());
}

#[test]
fn a_missing_uplink_is_named() {
    let storage = storage("/srv/husker", "/srv/husker");
    let input = DiagnosticsInput { host_interface: Some("eth9"), ..input(&storage) };
    let gone = HostFacts { uplink_present: false, ..facts() };
    let report = build_diagnostics(&input, Platform::Linux, &gone);
    assert_eq!(
        named(&report, "guest NAT egress").unwrap().message,
        "host_interface eth9 not found (guests get no WAN/DNS)"
    );
}

#[test]
fn the_daemon_describes_itself() {
    let core = HuskerCore::new(storage("/d", "/s"), "husker0".into(), vec![], "/run".into())
        .with_host_interface("eth0".into())
        .with_resource_limits(true);
    let input = core.diagnostics_input();
    assert_eq!(input.host_interface, Some("eth0"));
    assert!(input.resource_limits_requested);
    assert!(!input.embedded_agent_present);
    assert_eq!(input.storage.data_dir, "/d");
}

#[test]
fn host_files_are_read_as_the_kernel_writes_them() {
    assert!(forwarding_enabled("1\n"));
    assert!(!forwarding_enabled("0\n"));
    assert!(!forwarding_enabled(""));
    assert_eq!(
        cgroup_controllers_path("12:cpu:/x\n0::/system.slice/husker.service\n").as_deref(),
        Some("/sys/fs/cgroup/system.slice/husker.service/cgroup.controllers")
    );
    assert_eq!(cgroup_controllers_path("12:cpu:/x\n"), None);
    assert!(lists_controllers("cpuset cpu io memory pids"));
    assert!(!lists_controllers("io memory pids"));
    assert_eq!(free_bytes(10, 4096), 40960);
    assert_eq!(free_bytes(u64::MAX, 2), u64::MAX);
}

#[test]
fn reports_are_cached_for_a_minute() {
    assert!(report_is_fresh(0));
    assert!(report_is_fresh(59_999_999_999));
    assert!(!report_is_fresh(60_000_000_000));
}
