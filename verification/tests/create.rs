use husker_core::create::{
    build_vm_config, build_vm_record, check_cloud_boot, fill_defaults, find_boot_init, kernel_args,
    parse_mounts, plan_create, replace_existing, require_boot_files, require_direct_paths,
    require_unattached, resolve_cloud_image, resolve_initrd, resolve_rootfs_arg, resolve_vmm_kind,
    seed_spec, tap_name, uefi_boot, volume_attachment, BootDisk, HostIdentity, RootfsSource,
};
use husker_core::env::{load_env, store_env};
use husker_core::error::{CoreError, Resource, StateError};
use husker_core::ipv4::Ipv4;
use husker_core::records::{
    BootMode, HostShare, ImageRecord, ServiceTag, VmInfo, VmRecord, VmmKind, VolumeRecord,
};
use husker_core::requests::{CreateVmRequest, DaemonProfile};
use husker_core::settings::{HuskerCore, StorageLayout};
use husker_core::time::Timestamp;
use husker_core::vz::{
    build_vz_config, build_vz_record, check_vz_cloud, check_vz_request, check_vz_volume,
    require_vz_paths, vz_seed_spec,
};

fn t(secs: i64) -> Timestamp {
    Timestamp::new(secs, 0).unwrap()
}

fn storage() -> StorageLayout {
    StorageLayout {
        data_dir: "/data".into(),
        state_dir: "/state".into(),
        images_dir: "/data/images".into(),
        vms_dir: "/state/vms".into(),
        kernels_dir: "/data/kernels".into(),
        volumes_dir: "/state/volumes".into(),
        sentinel_path: "/data/.mounted".into(),
    }
}

fn daemon() -> HuskerCore {
    HuskerCore::new(storage(), "husker0".into(), vec![], "/run/husker".into())
}

fn argument(e: CoreError) -> String {
    match e {
        CoreError::InvalidArgument(m) => m,
        other => panic!("expected InvalidArgument, got {other:?}"),
    }
}

fn record(name: &str, state: &str) -> VmRecord {
    VmRecord {
        id: 9,
        name: name.into(),
        state: state.into(),
        pid: None,
        vcpu_count: 1,
        mem_size_mib: 128,
        vsock_cid: 3,
        tap_device: None,
        host_ip: None,
        guest_ip: None,
        kernel_path: "/boot/vmlinux".into(),
        rootfs_path: "/images/rootfs.ext4".into(),
        created_at: t(0),
        updated_at: t(0),
        userdata: None,
        userdata_status: None,
        userdata_env: None,
        service_id: None,
        service_ordinal: None,
        vmm: "firecracker".into(),
        boot_mode: "direct".into(),
        balloon: false,
        volume: None,
        network: "nat".into(),
        last_activity_at: t(0),
        suspended_at: None,
        idle_timeout_secs: None,
        suspend_ttl_secs: None,
        auto_resume: true,
        forked_from: None,
    }
}

#[test]
fn resolve_vmm_kind_uses_daemon_default_when_unspecified() {
    // With nothing asked for, the record must name the backend that will run.
    assert_eq!(
        resolve_vmm_kind(None, false, false, VmmKind::Qemu).unwrap(),
        VmmKind::Qemu
    );
    assert_eq!(
        resolve_vmm_kind(None, false, false, VmmKind::Firecracker).unwrap(),
        VmmKind::Firecracker
    );
}

#[test]
fn resolve_vmm_kind_explicit_request_overrides_default() {
    assert_eq!(
        resolve_vmm_kind(Some("firecracker"), false, false, VmmKind::Qemu).unwrap(),
        VmmKind::Firecracker
    );
    // An unparseable backend string is rejected, not silently defaulted.
    assert!(resolve_vmm_kind(Some("xen"), false, false, VmmKind::Qemu).is_err());
}

#[test]
fn resolve_vmm_kind_auto_selects_qemu_for_host_shares() {
    assert_eq!(
        resolve_vmm_kind(None, false, true, VmmKind::Firecracker).unwrap(),
        VmmKind::Qemu
    );
    // An explicit backend still wins even with shares.
    assert_eq!(
        resolve_vmm_kind(Some("firecracker"), false, true, VmmKind::Qemu).unwrap(),
        VmmKind::Firecracker
    );
}

#[test]
fn resolve_vmm_kind_cloud_is_always_qemu() {
    assert_eq!(
        resolve_vmm_kind(None, true, false, VmmKind::Firecracker).unwrap(),
        VmmKind::Qemu
    );
}

#[test]
fn create_vm_request_defaults_cloud_fields_to_none() {
    let req = CreateVmRequest { name: "v".into(), ..Default::default() };
    assert!(req.kernel_path.is_none());
    assert!(req.rootfs_path.is_none());
    assert!(req.cloud_image.is_none());
    assert!(req.disk_size.is_none());
    assert!(req.ssh_authorized_keys.is_empty());
    assert!(!req.balloon, "balloon must default to false");
}

#[test]
fn create_vm_request_volume_defaults_to_none() {
    let req = CreateVmRequest { name: "v".into(), ..Default::default() };
    assert!(req.volume.is_none(), "volume must default to None");
}

#[test]
fn create_rejects_idle_policy_on_non_firecracker() {
    let core = daemon().with_default_vmm_kind(VmmKind::Qemu);
    let req = CreateVmRequest {
        name: "q1".into(),
        kernel_path: Some("/k/vmlinux".into()),
        rootfs_path: Some("/k/rootfs.ext4".into()),
        idle_timeout_secs: Some(60),
        ..Default::default()
    };
    let err = plan_create(&core, &req).unwrap_err();
    assert!(
        matches!(err, CoreError::InvalidArgument(ref msg) if msg.contains("firecracker")),
        "expected InvalidArgument mentioning firecracker, got {err:?}"
    );
}

#[test]
fn idle_defaults_fill_what_an_opted_in_request_leaves_open() {
    let core = daemon();
    let req = CreateVmRequest { name: "i".into(), idle: Some(true), ..Default::default() };
    let plan = plan_create(&core, &req).unwrap();
    assert_eq!(plan.idle_timeout_secs, Some(1800));
    // A default TTL of zero means "never", so none is set.
    assert_eq!(plan.suspend_ttl_secs, None);
    assert!(plan.auto_resume);
    assert_eq!(plan.vmm, VmmKind::Firecracker);
    assert!(!plan.bridged);
    let none = plan_create(&core, &CreateVmRequest { name: "i".into(), ..Default::default() });
    assert_eq!(none.unwrap().idle_timeout_secs, None);
}

#[test]
fn bridged_rejects_without_cloud_image() {
    let core = daemon().with_lan_bridge(Some("br-lan".into()));
    let req = CreateVmRequest {
        name: "vm1".into(),
        kernel_path: Some("/k/vmlinux".into()),
        rootfs_path: Some("/k/rootfs.ext4".into()),
        cloud_image: None,
        network: Some("bridged".into()),
        ..Default::default()
    };
    let err = plan_create(&core, &req).unwrap_err();
    assert!(
        matches!(err, CoreError::InvalidArgument(ref msg) if msg.contains("cloud-image")),
        "expected InvalidArgument mentioning cloud-image, got {err:?}"
    );
}

#[test]
fn bridged_rejects_without_lan_bridge() {
    let req = CreateVmRequest {
        name: "vm2".into(),
        cloud_image: Some("/images/ubuntu.qcow2".into()),
        network: Some("bridged".into()),
        ..Default::default()
    };
    let err = plan_create(&daemon(), &req).unwrap_err();
    assert!(
        matches!(err, CoreError::InvalidArgument(ref msg) if msg.contains("lan_bridge")),
        "expected InvalidArgument mentioning lan_bridge, got {err:?}"
    );
}

#[test]
fn bridged_rejected_on_non_linux_net() {
    let req = CreateVmRequest {
        name: "vm3".into(),
        cloud_image: Some("/images/ubuntu.qcow2".into()),
        network: Some("bridged".into()),
        ..Default::default()
    };
    let err = check_vz_request(&req).unwrap_err();
    assert!(
        matches!(err, CoreError::InvalidArgument(ref msg) if msg.contains("Linux")),
        "expected InvalidArgument mentioning Linux, got {err:?}"
    );
}

#[test]
fn cloud_image_with_volume_rejected() {
    let req = CreateVmRequest {
        name: "vm-vol".into(),
        cloud_image: Some("/images/test.qcow2".into()),
        volume: Some("data".into()),
        ..Default::default()
    };
    assert!(check_vz_request(&req).is_ok());
    let err = check_vz_volume(&req).unwrap_err();
    assert!(
        matches!(err, CoreError::InvalidArgument(ref msg) if msg.contains("volume")),
        "expected InvalidArgument mentioning volume, got {err:?}"
    );
}

#[test]
fn cloud_image_with_empty_agent_rejected() {
    let err = check_vz_cloud(daemon().embedded_agent_present(), None, 1).unwrap_err();
    assert!(
        matches!(err, CoreError::InvalidArgument(ref msg) if msg.contains("embedded guest agent")),
        "expected InvalidArgument mentioning embedded guest agent, got {err:?}"
    );
    assert!(check_vz_cloud(true, None, 1).is_ok());
}

#[test]
fn disks_do_not_shrink_below_their_image() {
    assert!(check_vz_cloud(true, Some(10), 10).is_ok());
    assert!(check_vz_cloud(true, Some(9), 10).is_err());
}

#[test]
fn default_images_fill_missing_kernel_and_rootfs() {
    let core = daemon().with_default_images(
        Some("/data/vmlinux".into()),
        Some("/data/rootfs.ext4".into()),
        None,
    );
    let req = CreateVmRequest { name: "test-defaults".into(), ..Default::default() };
    let filled = fill_defaults(&core, req);
    assert_eq!(filled.kernel_path.as_deref(), Some("/data/vmlinux"));
    assert_eq!(filled.rootfs_path.as_deref(), Some("/data/rootfs.ext4"));
    assert!(require_boot_files(&filled).is_ok());
}

#[test]
fn defaults_leave_explicit_and_cloud_requests_alone() {
    let core = daemon().with_default_images(
        Some("/data/vmlinux".into()),
        Some("/data/rootfs.ext4".into()),
        None,
    );
    let explicit = fill_defaults(
        &core,
        CreateVmRequest { name: "e".into(), kernel_path: Some("/my/k".into()), ..Default::default() },
    );
    assert_eq!(explicit.kernel_path.as_deref(), Some("/my/k"));
    assert_eq!(explicit.rootfs_path.as_deref(), Some("/data/rootfs.ext4"));
    let cloud = fill_defaults(
        &core,
        CreateVmRequest { name: "c".into(), cloud_image: Some("u".into()), ..Default::default() },
    );
    assert!(cloud.kernel_path.is_none());
    assert!(cloud.rootfs_path.is_none());
}

#[test]
fn missing_kernel_without_defaults_returns_invalid_argument() {
    let req = CreateVmRequest { name: "test-no-defaults".into(), ..Default::default() };
    let err = require_boot_files(&fill_defaults(&daemon(), req)).unwrap_err();
    assert!(
        matches!(err, CoreError::InvalidArgument(ref msg) if msg.contains("no kernel specified")),
        "expected InvalidArgument with 'no kernel specified', got: {err:?}"
    );
}

#[test]
fn resolve_rootfs_arg_handles_paths_names_and_unknowns() {
    // A catalog image name resolves to its file path.
    let named = Some("/var/lib/husker/images/catalog/myimg.ext4".to_string());
    match resolve_rootfs_arg("myimg", false, named, None).unwrap() {
        RootfsSource::File(p) => assert_eq!(p, "/var/lib/husker/images/catalog/myimg.ext4"),
        other => panic!("expected a file, got {other:?}"),
    }
    // An existing file is used as-is.
    match resolve_rootfs_arg("/tmp/real.ext4", true, None, None).unwrap() {
        RootfsSource::File(p) => assert_eq!(p, "/tmp/real.ext4"),
        other => panic!("expected a file, got {other:?}"),
    }
    // A path-shaped argument that doesn't exist is passed through.
    match resolve_rootfs_arg("/no/such/file.ext4", false, None, None).unwrap() {
        RootfsSource::File(p) => assert_eq!(p, "/no/such/file.ext4"),
        other => panic!("expected a file, got {other:?}"),
    }
    // A bare unknown name is a clear error.
    let err = resolve_rootfs_arg("nope", false, None, None).unwrap_err();
    assert!(matches!(err, CoreError::InvalidArgument(_)), "got {err:?}");
}

#[test]
fn image_references_are_imported_once() {
    match resolve_rootfs_arg("python:3.12-alpine", false, None, None).unwrap() {
        RootfsSource::Import { name, reference } => {
            assert_eq!(name, "python-3.12-alpine");
            assert_eq!(reference, "python:3.12-alpine");
        }
        other => panic!("expected an import, got {other:?}"),
    }
    let imported = Some("/cat/python-3.12-alpine.ext4".to_string());
    match resolve_rootfs_arg("python:3.12-alpine", false, None, imported).unwrap() {
        RootfsSource::File(p) => assert_eq!(p, "/cat/python-3.12-alpine.ext4"),
        other => panic!("expected a file, got {other:?}"),
    }
}

#[test]
fn prepare_cloud_disk_errors_on_missing_ovmf() {
    let err = uefi_boot("/x/missing-code.fd", false, "/x/missing-vars.fd", false).unwrap_err();
    assert!(matches!(err, CoreError::InvalidArgument(_)), "got {err:?}");
    assert!(uefi_boot("/x/code.fd", true, "/x/missing-vars.fd", false).is_err());
    match uefi_boot("/x/CODE.fd", true, "/x/VARS.fd", true).unwrap() {
        BootMode::Uefi { ovmf_code, ovmf_vars_template } => {
            assert_eq!(ovmf_code, "/x/CODE.fd");
            assert_eq!(ovmf_vars_template, "/x/VARS.fd");
        }
        other => panic!("expected Uefi, got {other:?}"),
    }
}

#[test]
fn cloud_boot_needs_qemu_and_the_agent() {
    assert!(check_cloud_boot(None, true).is_ok());
    assert!(check_cloud_boot(Some("qemu"), true).is_ok());
    assert!(matches!(check_cloud_boot(Some("firecracker"), true), Err(CoreError::InvalidArgument(_))));
    assert!(check_cloud_boot(None, false).is_err());
}

#[test]
fn with_uefi_firmware_sets_both_paths() {
    let core = daemon().with_uefi_firmware("/fw/OVMF_CODE_4M.fd".into(), "/fw/OVMF_VARS_4M.fd".into());
    assert_eq!(core.ovmf_code_path, "/fw/OVMF_CODE_4M.fd");
    assert_eq!(core.ovmf_vars_template_path, "/fw/OVMF_VARS_4M.fd");
}

#[test]
fn with_embedded_agent_available_without_linux_net() {
    let core = daemon().with_embedded_agent(b"fake-agent".to_vec());
    assert_eq!(core.embedded_agent, b"fake-agent");
    assert!(core.embedded_agent_present());
}

#[test]
fn settings_are_kept_as_given() {
    let core = daemon()
        .with_storage_volume(true)
        .with_resource_limits(true)
        .with_host_interface("eth0".into())
        .with_default_resources(Some(512), Some(4))
        .with_profiles(vec![("small".into(), Default::default())]);
    assert!(core.storage_volume());
    assert!(core.resource_limits());
    assert_eq!(core.host_interface(), Some("eth0"));
    assert_eq!(core.default_resources(), (Some(512), Some(4)));
    assert_eq!(core.profiles().len(), 1);
    assert_eq!(core.storage_config().data_dir, "/data");
    assert_eq!(core.idle_policy().poll_interval_secs, 30);
    assert_eq!(core.idle_metrics().reaped_total, 0);
    assert_eq!(core.with_host_interface(String::new()).host_interface(), None);
}

#[test]
fn only_stopped_namesakes_are_replaced() {
    assert!(!replace_existing("v", None, true).unwrap());
    assert!(replace_existing("v", Some(&record("v", "stopped")), true).unwrap());
    assert!(replace_existing("v", Some(&record("v", "failed")), true).unwrap());
    assert!(matches!(
        replace_existing("v", Some(&record("v", "running")), true),
        Err(CoreError::VmAlreadyExists(n)) if n == "v"
    ));
    assert!(matches!(
        replace_existing("v", Some(&record("v", "stopped")), false),
        Err(CoreError::VmAlreadyExists(_))
    ));
}

#[test]
fn volumes_attach_to_one_vm() {
    let volume = VolumeRecord {
        id: 1,
        name: "data".into(),
        file_path: "/state/volumes/data.img".into(),
        size_bytes: 1024,
        created_at: t(0),
    };
    assert_eq!(
        volume_attachment("data", Ok(volume)).unwrap(),
        ("data".to_string(), "/state/volumes/data.img".to_string())
    );
    let missing = volume_attachment("gone", Err(StateError::NotFoundByName(Resource::Volume)));
    assert_eq!(argument(missing.unwrap_err()), "volume 'gone' not found");
    let broken = volume_attachment("gone", Err(StateError::Other("disk I/O error".into())));
    assert!(matches!(broken, Err(CoreError::State(StateError::Other(m))) if m == "disk I/O error"));
    assert!(require_unattached("data", None).is_ok());
    assert_eq!(
        argument(require_unattached("data", Some("other")).unwrap_err()),
        "volume 'data' is already attached to VM 'other'"
    );
}

fn image(name: &str, file: &str, boot_init: Option<&str>) -> ImageRecord {
    ImageRecord {
        id: 1,
        name: name.into(),
        source_path: "oci://x".into(),
        file_path: file.into(),
        format: "ext4".into(),
        kind: "rootfs".into(),
        boot_init: boot_init.map(|s| s.into()),
        size_bytes: 1,
        created_at: t(0),
    }
}

#[test]
fn the_catalog_knows_how_an_image_boots() {
    let images = vec![
        image("a", "/c/a.ext4", None),
        image("b", "/c/b.ext4", Some("/usr/local/bin/husker-agent")),
    ];
    assert_eq!(find_boot_init(&images, "/c/b.ext4").as_deref(), Some("/usr/local/bin/husker-agent"));
    assert_eq!(find_boot_init(&images, "/c/a.ext4"), None);
    assert_eq!(find_boot_init(&images, "/c/z.ext4"), None);
    let mut cloud = image("u", "/c/u.qcow2", None);
    cloud.kind = "cloud-image".into();
    assert_eq!(resolve_cloud_image("u", false, Ok(cloud)).unwrap(), "/c/u.qcow2");
    let rootfs = image("a", "/c/a.ext4", None);
    assert_eq!(
        argument(resolve_cloud_image("a", false, Ok(rootfs)).unwrap_err()),
        "catalog image 'a' has kind 'rootfs', not 'cloud-image'"
    );
    let gone = || Err(StateError::NotFoundByName(Resource::Image));
    assert_eq!(resolve_cloud_image("/x.qcow2", true, gone()).unwrap(), "/x.qcow2");
    let unknown = resolve_cloud_image("u", false, Err(StateError::NotFoundByName(Resource::Image)));
    assert!(argument(unknown.unwrap_err()).contains("neither an existing file nor a catalog image"));
}

#[test]
fn initrds_are_taken_in_order() {
    let none: Option<String> = None;
    let some = |s: &str| Some(s.to_string());
    assert_eq!(resolve_initrd(&some("/e"), &some("/d"), true, "/c", true).as_deref(), Some("/e"));
    assert_eq!(resolve_initrd(&none, &some("/d"), true, "/c", true).as_deref(), Some("/d"));
    assert_eq!(resolve_initrd(&none, &some("/d"), false, "/c", true).as_deref(), Some("/c"));
    assert_eq!(resolve_initrd(&none, &none, true, "/c", false), None);
}

#[test]
fn mounts_are_numbered_and_never_links() {
    let specs = vec!["/srv/a".to_string(), "/srv/b:/b:ro".to_string()];
    let shares = parse_mounts(&specs, &vec![false, false]).unwrap();
    assert_eq!(shares[0].tag, "fs0");
    assert_eq!(shares[1].tag, "fs1");
    assert!(shares[1].read_only);
    assert!(argument(parse_mounts(&specs, &vec![false, true]).unwrap_err()).contains("symlink"));
    assert!(parse_mounts(&vec!["srv".to_string()], &vec![false]).is_err());
}

fn ip(a: u8, b: u8, c: u8, d: u8) -> Ipv4 {
    Ipv4 { a, b, c, d }
}

#[test]
fn seeds_tell_of_a_static_address_behind_nat_only() {
    let core = HuskerCore::new(storage(), "husker0".into(), vec!["1.1.1.1".into()], "/r".into())
        .with_embedded_agent(vec![7, 7]);
    let mut req = CreateVmRequest::default();
    req.name = "web".into();
    req.ssh_authorized_keys = vec!["ssh-ed25519 AAAA".into()];
    let mut host = HostIdentity {
        cid: 5,
        mac: "02:00:00:00:00:05".into(),
        guest_ip: Some(ip(10, 0, 0, 5)),
        gateway: ip(10, 0, 0, 1),
        netmask: ip(255, 255, 255, 0),
    };
    let seed = seed_spec(&core, &req, &host, 24, true);
    assert_eq!((seed.hostname.as_str(), seed.instance_id.as_str()), ("web", "web"));
    assert_eq!(seed.agent, [7, 7]);
    assert_eq!(seed.ssh_authorized_keys, ["ssh-ed25519 AAAA"]);
    assert!(seed.mount_volume);
    let network = seed.network.unwrap();
    assert_eq!((network.address, network.gateway), (ip(10, 0, 0, 5), ip(10, 0, 0, 1)));
    assert_eq!((network.prefix_len, network.dns), (24, vec!["1.1.1.1".to_string()]));
    host.guest_ip = None;
    assert!(seed_spec(&core, &req, &host, 24, false).network.is_none());
    let vz = vz_seed_spec(&core, &req);
    assert!(vz.network.is_none() && !vz.mount_volume && vz.hostname == "web");
}

#[test]
fn the_kernel_is_told_its_network_and_shares() {
    let shares = vec![HostShare {
        host: "/srv/work".into(),
        guest: "/build".into(),
        read_only: true,
        tag: "fs0".into(),
    }];
    let line = kernel_args(
        &ip(172, 20, 0, 2),
        &ip(172, 20, 0, 1),
        &ip(255, 255, 255, 0),
        false,
        Some("/usr/local/bin/husker-agent"),
        &shares,
    );
    assert!(line.contains("ip=172.20.0.2::172.20.0.1:255.255.255.0::eth0:off"), "{line}");
    assert!(line.contains("init=/usr/local/bin/husker-agent husker.init=1"), "{line}");
    assert!(line.contains("fs0"), "{line}");
    assert!(line.contains("/build"), "{line}");
}

#[test]
fn a_nat_vm_is_assembled_from_plan_and_host() {
    let core = daemon().with_default_resources(Some(512), None);
    let req = CreateVmRequest {
        name: "web".into(),
        kernel_path: Some("/k".into()),
        rootfs_path: Some("/r".into()),
        env: vec![("A".into(), "b".into())],
        userdata: Some("echo hi".into()),
        ..Default::default()
    };
    assert!(require_direct_paths(&req).is_ok());
    let plan = plan_create(&core, &req).unwrap();
    let host = HostIdentity {
        cid: 5,
        mac: "02:00:00:00:00:05".into(),
        guest_ip: Some(ip(172, 20, 0, 6)),
        gateway: ip(172, 20, 0, 5),
        netmask: ip(255, 255, 255, 252),
    };
    let disk = BootDisk {
        path: "/state/vms/web/rootfs.ext4".into(),
        boot: BootMode::DirectKernel,
        seed_path: None,
    };
    let config = build_vm_config(&core, &req, &plan, &host, disk, None, None, None, vec![]);
    assert_eq!(config.name, "web");
    assert_eq!(config.vcpu_count, 1);
    assert_eq!(config.mem_size_mib, 512);
    assert_eq!(config.kernel_path, "/k");
    assert_eq!(config.rootfs_path, "/state/vms/web/rootfs.ext4");
    assert_eq!(config.vsock_cid, 5);
    assert_eq!(config.tap_device.as_deref(), Some(tap_name(5).as_str()));
    assert_eq!(config.guest_mac.as_deref(), Some("02:00:00:00:00:05"));
    assert_eq!(config.vmm, Some(VmmKind::Firecracker));
    let info = VmInfo { id: 77, state: "running".into(), pid: Some(4242), vcpu_count: 1, mem_size_mib: 512 };
    let tag = ServiceTag { service_id: 8, ordinal: 2 };
    let rec = build_vm_record(&req, &plan, &host, info, Some(tag), "", None, t(100));
    assert_eq!(rec.id, 77);
    assert_eq!(rec.pid, Some(4242));
    assert_eq!(rec.tap_device.as_deref(), Some("husker5"));
    assert_eq!(rec.host_ip.as_deref(), Some("172.20.0.5"));
    assert_eq!(rec.guest_ip.as_deref(), Some("172.20.0.6"));
    assert_eq!(rec.service_id, Some(8));
    assert_eq!(rec.service_ordinal, Some(2));
    assert_eq!(rec.userdata_status.as_deref(), Some("pending"));
    assert_eq!(rec.userdata_env.as_deref(), Some("[[\"A\",\"b\"]]"));
    assert_eq!(rec.boot_mode, "direct");
    assert_eq!(rec.network, "nat");
    assert_eq!(rec.created_at, t(100));
}

#[test]
fn environments_survive_storage() {
    assert_eq!(store_env(&vec![]), None);
    let env = vec![("FOO".to_string(), "bar \"baz\"".to_string()), ("\u{e9}".into(), "".into())];
    let stored = store_env(&env);
    assert_eq!(load_env(&stored), env);
    assert_eq!(load_env(&None), vec![]);
    assert_eq!(load_env(&Some("not json".into())), vec![]);
    assert_eq!(load_env(&Some("[[\"only one\"]]".into())), vec![]);
}

#[test]
fn a_macos_vm_is_assembled() {
    let req = CreateVmRequest {
        name: "mac".into(),
        kernel_path: Some("/k".into()),
        rootfs_path: Some("/r".into()),
        ..Default::default()
    };
    assert!(require_vz_paths(&req).is_ok());
    assert!(require_vz_paths(&CreateVmRequest { name: "n".into(), ..Default::default() }).is_err());
    let config = build_vz_config(&daemon(), &req, 3, "/state/vms/mac", None, None);
    assert_eq!(config.vsock_cid, 3);
    assert!(config.tap_device.is_none());
    assert!(config.vmm.is_none());
    let info = VmInfo { id: 5, state: "running".into(), pid: None, vcpu_count: 1, mem_size_mib: 128 };
    let rec = build_vz_record(&req, 3, info, None, "", None, t(1));
    assert_eq!(rec.vmm, "apple_vz");
    assert_eq!(rec.network, "nat");
    assert_eq!(rec.guest_ip, None);
}

#[test]
fn the_last_profile_of_a_name_counts() {
    let sized = |cpus: u32| DaemonProfile { cpus: Some(cpus), ..DaemonProfile::default() };
    let core = daemon().with_profiles(vec![
        ("small".into(), sized(1)),
        ("large".into(), sized(8)),
        ("small".into(), sized(2)),
    ]);
    assert_eq!(core.profiles().len(), 2);
    let cpus = |name: &str| core.profiles().iter().find(|(n, _)| n == name).unwrap().1.cpus;
    assert_eq!(cpus("small"), Some(2));
    assert_eq!(cpus("large"), Some(8));
}

#[test]
fn nothing_is_counted_at_first() {
    let core = daemon();
    let m = core.idle_metrics();
    assert_eq!((m.suspended_total, m.reaped_total), (0, 0));
    assert_eq!((m.auto_resumed_control_plane_total, m.auto_resumed_connect_total), (0, 0));
}
