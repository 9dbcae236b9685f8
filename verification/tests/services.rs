use husker_core::error::{CoreError, Resource, StateError};
use husker_core::pools::{
    check_pool, checkout_name, ensure_vm_is_not_pool_template, member_name, new_pool,
    next_pool_step, pool_insert_error, template_error, template_lookup_error, template_request,
    PoolStep,
};
use husker_core::records::{HostGroupRecord, PoolRecord, ServiceRecord, VmRecord, VolumeRecord};
use husker_core::requests::{
    CreateHostGroupRequest, CreatePoolRequest, CreateServiceRequest, ReconcileOutcome,
};
use husker_core::services::{
    better_survivor, check_deleted, check_scale, check_template, claim_instance, instance_request,
    new_host_group, new_service, plan_service, prepare_service, service_stored, Reconciliation,
    Upkeep,
};
use husker_core::settings::{HuskerCore, Platform, StorageLayout};
use husker_core::time::Timestamp;

fn t(secs: i64) -> Timestamp {
    Timestamp::new(secs, 0).unwrap()
}

fn daemon() -> HuskerCore {
    HuskerCore::new(
        StorageLayout {
            data_dir: "/data".into(),
            state_dir: "/state".into(),
            images_dir: "/data/images".into(),
            vms_dir: "/state/vms".into(),
            kernels_dir: "/data/kernels".into(),
            volumes_dir: "/state/volumes".into(),
            sentinel_path: "/data/.mounted".into(),
        },
        "husker0".into(),
        vec![],
        "/run/husker".into(),
    )
}

fn service() -> ServiceRecord {
    ServiceRecord {
        id: uuid::Uuid::new_v4().as_u128(),
        name: "svc".into(),
        host_group_id: None,
        desired_instances: 1,
        image: None,
        kernel_path: "/boot/vmlinux".into(),
        rootfs_path: "/images/rootfs.ext4".into(),
        initrd_path: None,
        vcpu_count: None,
        mem_size_mib: None,
        userdata: None,
        userdata_env: None,
        created_at: t(0),
        updated_at: t(0),
        cloud_image: None,
        disk_size: None,
        balloon: false,
        volume: None,
    }
}

#[test]
fn instance_request_direct_sets_kernel_and_rootfs() {
    let svc = ServiceRecord {
        vcpu_count: Some(2),
        mem_size_mib: Some(256),
        userdata: Some("echo hi".into()),
        userdata_env: Some(r#"[["FOO","bar"]]"#.into()),
        ..service()
    };
    let req = instance_request(&svc, "svc-0");
    assert_eq!(req.name, "svc-0");
    assert_eq!(req.kernel_path.as_deref(), Some("/boot/vmlinux"));
    assert_eq!(req.rootfs_path.as_deref(), Some("/images/rootfs.ext4"));
    assert!(req.cloud_image.is_none());
    assert!(req.disk_size.is_none());
    assert_eq!(req.vcpu_count, Some(2));
    assert_eq!(req.mem_size_mib, Some(256));
    assert_eq!(req.userdata.as_deref(), Some("echo hi"));
    assert_eq!(req.env, vec![("FOO".to_string(), "bar".to_string())]);
    assert!(!req.balloon);
}

#[test]
fn instance_request_direct_balloon_propagates() {
    let svc = ServiceRecord {
        vcpu_count: Some(1),
        mem_size_mib: Some(128),
        balloon: true,
        ..service()
    };
    let req = instance_request(&svc, "svc-0");
    assert!(req.balloon, "balloon should be forwarded from service record");
}

#[test]
fn instance_request_cloud_sets_image_fields() {
    let svc = ServiceRecord {
        name: "cloudsvc".into(),
        kernel_path: "".into(),
        rootfs_path: "".into(),
        vcpu_count: Some(2),
        mem_size_mib: Some(2048),
        cloud_image: Some("ubuntu-2404".into()),
        disk_size: Some(10 * 1024 * 1024 * 1024),
        balloon: true,
        ..service()
    };
    let req = instance_request(&svc, "cloudsvc-0");
    assert_eq!(req.name, "cloudsvc-0");
    assert!(req.kernel_path.is_none(), "cloud arm must not set kernel_path");
    assert!(req.rootfs_path.is_none(), "cloud arm must not set rootfs_path");
    assert_eq!(req.cloud_image.as_deref(), Some("ubuntu-2404"));
    assert_eq!(req.disk_size, Some(10 * 1024 * 1024 * 1024));
    assert_eq!(req.vcpu_count, Some(2));
    assert_eq!(req.mem_size_mib, Some(2048));
    assert!(req.balloon, "balloon forwarded from cloud service");
}

#[test]
fn instance_request_threads_volume_cloud() {
    let svc = ServiceRecord {
        kernel_path: "".into(),
        rootfs_path: "".into(),
        cloud_image: Some("u24".into()),
        volume: Some("data".into()),
        ..service()
    };
    let req = instance_request(&svc, "svc-0");
    assert_eq!(
        req.volume.as_deref(),
        Some("data"),
        "volume must be forwarded to cloud instance request"
    );
}

#[test]
fn instance_request_threads_volume_direct() {
    let svc = ServiceRecord { volume: Some("persist".into()), ..service() };
    let req = instance_request(&svc, "svc-0");
    assert_eq!(
        req.volume.as_deref(),
        Some("persist"),
        "volume must be forwarded to direct instance request"
    );
}

fn request(name: &str) -> CreateServiceRequest {
    CreateServiceRequest {
        name: name.into(),
        host_group: None,
        desired_instances: Some(1),
        image: None,
        rootfs_path: Some("/tmp/rootfs.ext4".into()),
        kernel_path: Some("/tmp/vmlinux".into()),
        initrd_path: None,
        vcpu_count: None,
        mem_size_mib: None,
        userdata: None,
        env: vec![],
        cloud_image: None,
        disk_size: None,
        balloon: false,
        volume: None,
    }
}

#[test]
fn create_service_volume_with_multiple_instances_rejected() {
    let req = CreateServiceRequest {
        desired_instances: Some(2),
        volume: Some("data".into()),
        ..request("svc-vol-multi")
    };
    let err = plan_service(&daemon(), Platform::Linux, &req).unwrap_err();
    assert!(
        matches!(err, CoreError::InvalidArgument(_)),
        "volume + multiple instances must be InvalidArgument, got: {err:?}"
    );
    assert!(
        err.message().contains("exclusive"),
        "error must explain volumes are exclusive-attach, got: {}",
        err.message()
    );
}

#[test]
fn scale_service_with_volume_beyond_one_instance_rejected() {
    let req = CreateServiceRequest { volume: Some("data".into()), ..request("svc-vol-scale") };
    let plan = plan_service(&daemon(), Platform::Linux, &req).unwrap();
    let record = new_service(req, plan, 1, None, t(0));
    assert_eq!(record.desired_instances, 1);
    let err = check_scale("svc-vol-scale", &record, 2).unwrap_err();
    assert!(
        matches!(err, CoreError::InvalidArgument(_)),
        "scaling a volume-backed service beyond 1 must be InvalidArgument, got: {err:?}"
    );
    assert!(check_scale("svc-vol-scale", &record, 1).is_ok());
    assert!(check_scale("svc-vol-scale", &record, 0).is_ok());
}

#[test]
fn service_with_cloud_image_rejected_on_macos() {
    let req = CreateServiceRequest {
        kernel_path: None,
        rootfs_path: None,
        cloud_image: Some("/images/ubuntu.qcow2".into()),
        desired_instances: None,
        ..request("svc-cloud")
    };
    let err = plan_service(&daemon(), Platform::Macos, &req).unwrap_err();
    assert!(
        matches!(err, CoreError::InvalidArgument(ref msg) if msg.contains("macOS")),
        "expected InvalidArgument mentioning macOS, got {err:?}"
    );
    assert!(plan_service(&daemon(), Platform::Linux, &req).is_ok());
}

#[test]
fn create_service_uses_daemon_default_images() {
    let core = daemon().with_default_images(
        Some("/data/vmlinux".into()),
        Some("/data/rootfs.ext4".into()),
        None,
    );
    let req = CreateServiceRequest {
        desired_instances: Some(0),
        rootfs_path: None,
        kernel_path: None,
        ..request("svc-defaults")
    };
    let plan = plan_service(&core, Platform::Linux, &req).unwrap();
    assert_eq!(plan.kernel, "/data/vmlinux");
    assert_eq!(plan.rootfs, "/data/rootfs.ext4");
    assert_eq!(plan.desired_instances, 0);
    let bare = plan_service(&daemon(), Platform::Linux, &req).unwrap_err();
    assert!(bare.message().contains("service requires a"), "{}", bare.message());
}

#[test]
fn host_groups_have_proper_names() {
    let group = new_host_group(
        CreateHostGroupRequest { name: "edge".into(), description: Some("d".into()) },
        4,
        t(1),
        t(2),
    )
    .unwrap();
    assert_eq!((group.id, group.name.as_str(), group.description.as_deref()), (4, "edge", Some("d")));
    assert_eq!((group.created_at, group.updated_at), (t(1), t(2)));
    let bad = CreateHostGroupRequest { name: "ed/ge".into(), description: None };
    assert!(matches!(new_host_group(bad, 4, t(1), t(1)), Err(CoreError::InvalidArgument(_))));
}

fn instance(id: u128, ordinal: u32, state: &str, created: i64) -> VmRecord {
    VmRecord {
        id,
        name: format!("svc-{ordinal}"),
        state: state.into(),
        pid: None,
        vcpu_count: 1,
        mem_size_mib: 128,
        vsock_cid: 3,
        tap_device: None,
        host_ip: None,
        guest_ip: None,
        kernel_path: "/k".into(),
        rootfs_path: "/r".into(),
        created_at: t(created),
        updated_at: t(created),
        userdata: None,
        userdata_status: None,
        userdata_env: None,
        service_id: Some(1),
        service_ordinal: Some(ordinal),
        vmm: "firecracker".into(),
        boot_mode: "direct".into(),
        balloon: false,
        volume: None,
        network: "nat".into(),
        last_activity_at: t(created),
        suspended_at: None,
        idle_timeout_secs: None,
        suspend_ttl_secs: None,
        auto_resume: true,
        forked_from: None,
    }
}

#[test]
fn running_instances_are_preferred_then_the_newest() {
    let running = instance(1, 0, "running", 10);
    let stopped = instance(2, 0, "stopped", 20);
    let newer = instance(3, 0, "running", 30);
    assert!(better_survivor(&running, &stopped));
    assert!(!better_survivor(&stopped, &running));
    // Exactly one of two distinct candidates is the better one.
    assert!(better_survivor(&newer, &running) != better_survivor(&running, &newer));
    assert!(!better_survivor(&running, &running));
}

#[test]
fn a_service_is_brought_to_its_wanted_size() {
    let svc = ServiceRecord { desired_instances: 3, ..service() };
    let mut r = Reconciliation::begin(&svc);
    // The better of two VMs of one ordinal stays; the other goes.
    assert!(r.look_at(instance(1, 0, "stopped", 10)).is_none());
    assert_eq!(r.look_at(instance(2, 0, "running", 5)).map(|vm| vm.id), Some(1));
    assert!(r.look_at(instance(3, 1, "stopped", 5)).is_none());
    assert!(r.look_at(instance(5, 7, "running", 5)).is_none());
    assert!(r.look_at(instance(4, 5, "running", 5)).is_none());
    assert!(matches!(r.upkeep(0), Upkeep::Keep));
    assert!(matches!(r.upkeep(1), Upkeep::Replace(vm) if vm.id == 3));
    assert!(matches!(r.upkeep(2), Upkeep::Create));
    let mut gone: Vec<u128> = r.excess().iter().map(|vm| vm.id).collect();
    gone.sort();
    assert_eq!(gone, vec![4, 5]);
}

#[test]
fn a_settled_service_is_left_alone() {
    let svc = ServiceRecord { desired_instances: 2, ..service() };
    let mut r = Reconciliation::begin(&svc);
    assert!(r.look_at(instance(1, 1, "running", 10)).is_none());
    assert!(r.look_at(instance(2, 0, "running", 10)).is_none());
    assert!(matches!(r.upkeep(0), Upkeep::Keep));
    assert!(matches!(r.upkeep(1), Upkeep::Keep));
    assert!(r.excess().is_empty());
}

#[test]
fn names_of_others_are_not_taken() {
    let svc = service();
    assert_eq!(claim_instance(&svc, 4, None).unwrap(), "svc-4");
    let mut stranger = instance(9, 4, "running", 0);
    stranger.service_id = None;
    let (name, message) = claim_instance(&svc, 4, Some(&stranger)).unwrap_err();
    assert_eq!(name, "svc-4");
    assert!(!message.is_empty());
    assert!(check_template(&svc).is_ok());
}

#[test]
fn deletion_reports_what_could_not_be_destroyed() {
    let mut outcome = ReconcileOutcome::default();
    outcome.note_created("svc-0".into());
    outcome.note_destroyed("svc-1".into());
    assert!(check_deleted("svc", &outcome).is_ok());
    outcome.note_failed("svc-2".into(), "busy".into());
    assert_eq!(outcome.created, vec!["svc-0".to_string()]);
    assert_eq!(outcome.destroyed, vec!["svc-1".to_string()]);
    let err = check_deleted("svc", &outcome).unwrap_err();
    assert!(matches!(err, CoreError::ServiceOperationFailed(ref m) if m.contains("svc")), "{err:?}");
}

fn pool_request(name: &str) -> CreatePoolRequest {
    CreatePoolRequest {
        name: name.into(),
        rootfs_path: Some("/r".into()),
        kernel_path: Some("/k".into()),
        initrd_path: None,
        vcpu_count: Some(2),
        mem_size_mib: None,
    }
}

fn pool() -> PoolRecord {
    new_pool(pool_request("ci"), &instance(7, 0, "suspended", 0), 5, t(3))
}

#[test]
fn pools_are_built_around_a_template() {
    assert!(check_pool(&pool_request("ci"), false).is_ok());
    assert!(matches!(check_pool(&pool_request("ci"), true), Err(CoreError::PoolAlreadyExists(n)) if n == "ci"));
    assert!(matches!(check_pool(&pool_request("c i"), false), Err(CoreError::InvalidArgument(_))));
    let template = template_request(&pool_request("ci"));
    assert_eq!(template.rootfs_path.as_deref(), Some("/r"));
    assert_eq!(template.vcpu_count, Some(2));
    let pool = pool();
    assert_eq!((pool.id, pool.template_vm_id, pool.name.as_str()), (5, 7, "ci"));
    assert_eq!(pool.created_at, t(3));
}

#[test]
fn failed_pools_give_their_template_up() {
    assert_eq!(next_pool_step(PoolStep::CreateTemplate, true), PoolStep::Warm);
    assert_eq!(next_pool_step(PoolStep::CreateTemplate, false), PoolStep::Failed);
    for step in [PoolStep::Warm, PoolStep::Suspend, PoolStep::Record] {
        assert_eq!(next_pool_step(step, false), PoolStep::DestroyTemplate);
    }
    assert_eq!(next_pool_step(PoolStep::Warm, true), PoolStep::Suspend);
    assert_eq!(next_pool_step(PoolStep::Suspend, true), PoolStep::Record);
    assert_eq!(next_pool_step(PoolStep::Record, true), PoolStep::Done);
    assert_eq!(next_pool_step(PoolStep::DestroyTemplate, true), PoolStep::Failed);
}

#[test]
fn members_are_named_after_their_pool() {
    assert_eq!(member_name("ci", Some("mine"), 0), "mine");
    let id = 0x0123_4567_89ab_cdef_0123_4567_89ab_cdefu128;
    assert_eq!(member_name("ci", None, id), "ci-01234567");
    let one = checkout_name("ci", None);
    let two = checkout_name("ci", None);
    assert_ne!(one, two);
    assert!(one.starts_with("ci-"));
    assert_eq!(one.len(), "ci-".len() + 8);
    assert_eq!(checkout_name("ci", Some("mine")), "mine");
}

#[test]
fn templates_belong_to_their_pool() {
    let vm = instance(7, 0, "suspended", 0);
    assert!(ensure_vm_is_not_pool_template(&vm, None).is_ok());
    assert!(matches!(
        ensure_vm_is_not_pool_template(&vm, Some(&pool())),
        Err(CoreError::PoolTemplateOwned { vm, pool }) if vm == "svc-0" && pool == "ci"
    ));
    assert!(matches!(
        template_lookup_error(&pool(), StateError::NotFound(Resource::Vm)),
        CoreError::PoolTemplateUnavailable { pool, template: 7 } if pool == "ci"
    ));
    assert!(matches!(
        pool_insert_error("ci", "tmpl", StateError::AlreadyExists(Resource::Pool, "ci".into())),
        CoreError::PoolAlreadyExists(n) if n == "ci"
    ));
    assert!(matches!(
        template_error("ci", CoreError::VmAlreadyExists("x".into())),
        CoreError::PoolAlreadyExists(n) if n == "ci"
    ));
    assert!(matches!(
        template_error("ci", CoreError::Io("x".into())),
        CoreError::Io(m) if m == "x"
    ));
    assert!(matches!(
        pool_insert_error("ci", "tmpl", StateError::PoolTemplateOwned("other".into())),
        CoreError::PoolTemplateOwned { vm, pool } if vm == "tmpl" && pool == "other"
    ));
}

fn prepared(
    req: CreateServiceRequest,
    group: Option<Result<HostGroupRecord, StateError>>,
    volume: Option<Result<VolumeRecord, StateError>>,
    file: Result<(), String>,
) -> Result<ServiceRecord, CoreError> {
    prepare_service(&daemon(), Platform::Linux, req, group, volume, file, 42, t(3))
}

fn volume(name: &str) -> VolumeRecord {
    VolumeRecord {
        id: 5,
        name: name.into(),
        file_path: "/state/volumes/data.ext4".into(),
        size_bytes: 1 << 20,
        created_at: t(0),
    }
}

#[test]
fn create_service_unknown_volume_fails_eagerly() {
    let req =
        CreateServiceRequest { volume: Some("no-such-volume".into()), ..request("svc-bad-vol") };
    let missing = Some(Err(StateError::NotFoundByName(Resource::Volume)));
    let err = prepared(req, None, missing, Ok(())).unwrap_err();
    assert!(
        matches!(err, CoreError::InvalidArgument(_)),
        "unknown volume must fail eagerly, got: {err:?}"
    );
    let msg = err.message();
    assert!(
        msg.contains("no-such-volume"),
        "error message must contain the volume name, got: {msg}"
    );
}

#[test]
fn services_are_prepared_from_what_was_looked_up() {
    let req = CreateServiceRequest {
        host_group: Some("edge".into()),
        volume: Some("data".into()),
        desired_instances: None,
        ..request("web")
    };
    let group = HostGroupRecord {
        id: 9,
        name: "edge".into(),
        description: None,
        created_at: t(0),
        updated_at: t(0),
    };
    let record = prepared(req, Some(Ok(group)), Some(Ok(volume("data"))), Ok(())).unwrap();
    assert_eq!((record.id, record.name.as_str(), record.desired_instances), (42, "web", 1));
    assert_eq!(record.host_group_id, Some(9));
    assert_eq!(record.volume.as_deref(), Some("data"));
    assert_eq!(record.created_at, t(3));
    assert_eq!(record.rootfs_path, "/tmp/rootfs.ext4");
    // Once stored it is answered; a namesake is in the way.
    assert!(matches!(
        service_stored(record, Err(StateError::AlreadyExists(Resource::Service, "web".into()))),
        Err(CoreError::ServiceAlreadyExists(n)) if n == "web"
    ));
    let record = prepared(request("web"), None, None, Ok(())).unwrap();
    assert_eq!(service_stored(record, Ok(())).unwrap().id, 42);
}

#[test]
fn services_are_refused_before_anything_is_stored() {
    let grouped = CreateServiceRequest { host_group: Some("edge".into()), ..request("web") };
    let missing = Some(Err(StateError::NotFoundByName(Resource::HostGroup)));
    assert!(matches!(
        prepared(grouped, missing, None, Ok(())),
        Err(CoreError::HostGroupNotFound(n)) if n == "edge"
    ));
    let backed = || CreateServiceRequest { volume: Some("data".into()), ..request("web") };
    assert!(matches!(
        prepared(backed(), None, Some(Ok(volume("data"))), Err("no such file".into())),
        Err(CoreError::Storage(m)) if m == "no such file"
    ));
    let many = CreateServiceRequest { desired_instances: Some(2), ..backed() };
    assert!(matches!(
        prepared(many, None, Some(Ok(volume("data"))), Ok(())),
        Err(CoreError::InvalidArgument(_))
    ));
}
