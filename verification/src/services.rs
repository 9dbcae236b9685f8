//! Services: a number of identical VMs that the orchestrator keeps running, and the
//! host groups that they belong to.

use vstd::multiset::Multiset;
use vstd::prelude::*;
use vstd::seq_lib::*;
use vstd::string::*;

use crate::create::volume_attachment;
use crate::env::{load_env, store_env};
#[allow(unused_imports)]
use crate::env::{loaded_env, stored_env};
use crate::error::{
    insert_error, invalid_argument, lookup_error, CoreError, Resource, StateError,
};
#[allow(unused_imports)]
use crate::error::{insert_verdict, unit_view, ErrorView, StateErrorView};
use crate::names::{instance_name, validate_resource_name, validate_service_instance_names};
#[allow(unused_imports)]
use crate::names::{
    accepted_names_are_valid, instance_names_are_distinct, instance_of, name_verdict, valid_name,
};
use crate::records::{HostGroupRecord, Lifecycle, ServiceRecord, VmRecord, VolumeRecord};
use crate::requests::{
    CreateHostGroupRequest, CreateServiceRequest, CreateVmRequest, ReconcileOutcome,
};
#[allow(unused_imports)]
use crate::requests::{bare_request, pair_views, VmRequestView};
use crate::settings::{HuskerCore, Platform};
use crate::text::decimal_string;
#[allow(unused_imports)]
use crate::text::{decimal, has_suffix, occurs, opt_view, stands_between};
use crate::time::Timestamp;

verus! {

// ---------------------------------------------------------------------------
// Host groups
// ---------------------------------------------------------------------------

/// The record of a new host group, unless its name cannot be used.
pub open spec fn is_new_group(
    req: CreateHostGroupRequest,
    id: u128,
    created_at: Timestamp,
    updated_at: Timestamp,
    r: Result<HostGroupRecord, CoreError>,
) -> bool {
    match name_verdict("host group"@, req.name@) {
        Err(e) => r is Err && r->Err_0@ == e,
        Ok(_) => r == Ok::<HostGroupRecord, CoreError>(
            HostGroupRecord {
                id,
                name: req.name,
                description: req.description,
                created_at,
                updated_at,
            },
        ),
    }
}

/// A host group is recorded as it was asked for, exactly where its name can be used.
pub proof fn groups_are_recorded_as_asked_for(
    req: CreateHostGroupRequest,
    id: u128,
    created_at: Timestamp,
    updated_at: Timestamp,
    r: Result<HostGroupRecord, CoreError>,
)
    requires
        is_new_group(req, id, created_at, updated_at, r),
    ensures
        r is Ok <==> valid_name(req.name@),
        r matches Ok(g) ==> g.id == id && g.name == req.name && g.description == req.description
            && g.created_at == created_at && g.updated_at == updated_at,
        r is Err ==> r->Err_0@ is InvalidArgument,
{
    accepted_names_are_valid("host group"@, req.name@);
}

/// The record of a new host group, unless its name cannot be used.
pub fn new_host_group(
    req: CreateHostGroupRequest,
    id: u128,
    created_at: Timestamp,
    updated_at: Timestamp,
) -> (r: Result<HostGroupRecord, CoreError>)
    ensures
        is_new_group(req, id, created_at, updated_at, r),
{
    match validate_resource_name("host group", req.name.as_str()) {
        Err(e) => Err(e),
        Ok(_) => Ok(
            HostGroupRecord {
                id,
                name: req.name,
                description: req.description,
                created_at,
                updated_at,
            },
        ),
    }
}

// ---------------------------------------------------------------------------
// Creating, scaling and deleting
// ---------------------------------------------------------------------------

/// What is wrong with the number of instances of a service, if anything: the last
/// instance needs a valid name.
pub open spec fn instances_verdict(name: Seq<char>, desired: u32) -> Result<(), ErrorView> {
    if desired > 0 {
        name_verdict("service instance"@, instance_of(name, (desired - 1) as nat))
    } else {
        Ok(())
    }
}

/// How many instances a request asks for: one, unless it says otherwise.
pub open spec fn desired_of(req: CreateServiceRequest) -> u32 {
    match req.desired_instances {
        Some(n) => n,
        None => 1,
    }
}

/// What is wrong with a request for a service, if anything.
pub open spec fn service_fault(
    core: HuskerCore,
    platform: Platform,
    req: CreateServiceRequest,
) -> Option<ErrorView> {
    let desired = desired_of(req);
    if name_verdict("service"@, req.name@) is Err {
        Some(name_verdict("service"@, req.name@)->Err_0)
    } else if instances_verdict(req.name@, desired) is Err {
        Some(instances_verdict(req.name@, desired)->Err_0)
    } else if req.volume is Some && desired > 1 {
        Some(
            ErrorView::InvalidArgument(
                "service '"@ + req.name@ + "' requests "@ + decimal(desired as nat)
                    + " instances with volume '"@ + req.volume->0@
                    + "': volumes are exclusive-attach, so a volume-backed service is limited to 1 instance"@,
            ),
        )
    } else if platform == Platform::Macos && req.cloud_image is Some {
        Some(
            ErrorView::InvalidArgument("cloud-image services are not yet supported on macOS"@),
        )
    } else if req.cloud_image is None && req.rootfs_path is None && core.default_rootfs is None {
        Some(
            ErrorView::InvalidArgument(
                "service requires a rootfs (--image or --rootfs) or --cloud-image, and the daemon has no default rootfs"@,
            ),
        )
    } else if req.cloud_image is None && req.kernel_path is None && core.default_kernel is None {
        Some(
            ErrorView::InvalidArgument(
                "service requires a kernel, and the daemon has no default kernel"@,
            ),
        )
    } else {
        None
    }
}

/// The path that a service boots from: the request's own, else the daemon's
/// default, which a cloud image does without.
pub open spec fn boot_path(
    requested: Option<String>,
    default: Option<String>,
    cloud: bool,
) -> Seq<char> {
    match requested {
        Some(p) => p@,
        None => if cloud || default is None {
            Seq::empty()
        } else {
            default->0@
        },
    }
}

fn resolve_path(requested: &Option<String>, default: &Option<String>, cloud: bool) -> (r: Option<
    String,
>)
    ensures
        r is None <==> requested is None && !cloud && default is None,
        r matches Some(p) ==> p@ == boot_path(*requested, *default, cloud),
{
    match requested {
        Some(p) => Some(p.clone()),
        None => {
            if cloud {
                Some(String::new())
            } else {
                default.clone()
            }
        },
    }
}

/// A request for a service is refused for cause and for no other reason: an unusable name,
/// for itself or for its last instance, a volume for several instances, a cloud image where
/// there is no support, or no files to boot from where no cloud image brings them.
pub proof fn services_are_refused_for_cause(
    core: HuskerCore,
    platform: Platform,
    req: CreateServiceRequest,
)
    ensures
        ({
            let n = match req.desired_instances {
                Some(n) => n,
                None => 1,
            };
            let cloud = req.cloud_image is Some;
            service_fault(core, platform, req) is None <==> {
                &&& valid_name(req.name@)
                &&& n > 0 ==> valid_name(req.name@ + "-"@ + decimal((n - 1) as nat))
                &&& req.volume is Some ==> n <= 1
                &&& cloud ==> platform != Platform::Macos
                &&& !cloud ==> req.rootfs_path is Some || core.default_rootfs is Some
                &&& !cloud ==> req.kernel_path is Some || core.default_kernel is Some
            }
        }),
        service_fault(core, platform, req) matches Some(e) ==> e is InvalidArgument,
        req.desired_instances is Some ==> Some(desired_of(req)) == req.desired_instances,
        req.desired_instances is None ==> desired_of(req) == 1,
{
    accepted_names_are_valid("service"@, req.name@);
    if desired_of(req) > 0 {
        accepted_names_are_valid(
            "service instance"@,
            instance_of(req.name@, (desired_of(req) - 1) as nat),
        );
    }
}

/// A service boots what it was asked to boot; the daemon's default comes in only where
/// nothing was named and no cloud image boots.
pub proof fn services_boot_what_was_named(
    requested: Option<String>,
    default: Option<String>,
    cloud: bool,
)
    ensures
        requested is Some ==> Some(boot_path(requested, default, cloud)) == opt_view(requested),
        requested is None && cloud ==> boot_path(requested, default, cloud).len() == 0,
        requested is None && !cloud && default is Some ==> Some(
            boot_path(requested, default, cloud),
        ) == opt_view(default),
{
}

/// What a valid request for a service boots.
#[derive(Debug)]
pub struct ServicePlan {
    pub desired_instances: u32,
    pub rootfs: String,
    pub kernel: String,
}

/// Check a request for a service, and fill in the daemon's defaults: the client
/// leaves out the paths it does not care about.
pub fn plan_service(core: &HuskerCore, platform: Platform, req: &CreateServiceRequest) -> (r:
    Result<ServicePlan, CoreError>)
    ensures
        match service_fault(*core, platform, *req) {
            Some(e) => r is Err && r->Err_0@ == e,
            None => r is Ok && r->Ok_0.desired_instances == desired_of(*req)
                && r->Ok_0.rootfs@ == boot_path(
                req.rootfs_path,
                core.default_rootfs,
                req.cloud_image is Some,
            ) && r->Ok_0.kernel@ == boot_path(
                req.kernel_path,
                core.default_kernel,
                req.cloud_image is Some,
            ),
        },
{
    match validate_resource_name("service", req.name.as_str()) {
        Err(e) => { return Err(e); },
        Ok(_) => {},
    }
    let desired: u32 = match req.desired_instances {
        Some(n) => n,
        None => 1,
    };
    match validate_service_instance_names(req.name.as_str(), desired) {
        Err(e) => { return Err(e); },
        Ok(_) => {},
    }
    if let Some(volume) = &req.volume {
        if desired > 1 {
            return Err(
                CoreError::InvalidArgument(
                    "service '".to_owned().concat(req.name.as_str()).concat("' requests ").concat(
                        decimal_string(desired as u64).as_str(),
                    ).concat(" instances with volume '").concat(volume.as_str()).concat(
                        "': volumes are exclusive-attach, so a volume-backed service is limited to 1 instance",
                    ),
                ),
            );
        }
    }
    let cloud = req.cloud_image.is_some();
    if platform == Platform::Macos && cloud {
        return Err(invalid_argument("cloud-image services are not yet supported on macOS"));
    }
    let rootfs = match resolve_path(&req.rootfs_path, &core.default_rootfs, cloud) {
        Some(p) => p,
        None => {
            return Err(
                invalid_argument(
                    "service requires a rootfs (--image or --rootfs) or --cloud-image, and the daemon has no default rootfs",
                ),
            );
        },
    };
    let kernel = match resolve_path(&req.kernel_path, &core.default_kernel, cloud) {
        Some(p) => p,
        None => {
            return Err(
                invalid_argument("service requires a kernel, and the daemon has no default kernel"),
            );
        },
    };
    Ok(ServicePlan { desired_instances: desired, rootfs, kernel })
}

/// The record of a new service.
pub fn new_service(
    req: CreateServiceRequest,
    plan: ServicePlan,
    id: u128,
    host_group_id: Option<u128>,
    now: Timestamp,
) -> (r: ServiceRecord)
    ensures
        opt_view(r.userdata_env) == stored_env(pair_views(req.env@)),
        r == (ServiceRecord {
            id,
            name: req.name,
            host_group_id,
            desired_instances: plan.desired_instances,
            image: req.image,
            kernel_path: plan.kernel,
            rootfs_path: plan.rootfs,
            initrd_path: req.initrd_path,
            vcpu_count: req.vcpu_count,
            mem_size_mib: req.mem_size_mib,
            userdata: req.userdata,
            userdata_env: r.userdata_env,
            created_at: now,
            updated_at: now,
            cloud_image: req.cloud_image,
            disk_size: req.disk_size,
            balloon: req.balloon,
            volume: req.volume,
        }),
        loaded_env(opt_view(r.userdata_env)) == pair_views(req.env@),
{
    let userdata_env = store_env(&req.env);
    ServiceRecord {
        id,
        name: req.name,
        host_group_id,
        desired_instances: plan.desired_instances,
        image: req.image,
        kernel_path: plan.kernel,
        rootfs_path: plan.rootfs,
        initrd_path: req.initrd_path,
        vcpu_count: req.vcpu_count,
        mem_size_mib: req.mem_size_mib,
        userdata: req.userdata,
        userdata_env,
        created_at: now,
        updated_at: now,
        cloud_image: req.cloud_image,
        disk_size: req.disk_size,
        balloon: req.balloon,
        volume: req.volume,
    }
}

/// What is wrong with a request for a service, if anything, once its host group and its
/// volume were looked up: `group` and `volume` are what looking up the names that the
/// request holds gave, and `volume_file` tells whether the volume's file is sound.
pub open spec fn preparation_fault(
    core: HuskerCore,
    platform: Platform,
    req: CreateServiceRequest,
    group: Option<Result<HostGroupRecord, StateError>>,
    volume: Option<Result<VolumeRecord, StateError>>,
    volume_file: Result<(), String>,
) -> Option<ErrorView> {
    if service_fault(core, platform, req) is Some {
        service_fault(core, platform, req)
    } else if req.host_group is Some && group->0 is Err {
        let e = group->0->Err_0@;
        Some(
            if e == StateErrorView::NotFoundByName(Resource::HostGroup) {
                ErrorView::HostGroupNotFound(req.host_group->0@)
            } else {
                ErrorView::State(e)
            },
        )
    } else if req.volume is Some && volume->0 is Err {
        let e = volume->0->Err_0@;
        Some(
            if e == StateErrorView::NotFoundByName(Resource::Volume) {
                ErrorView::InvalidArgument("volume '"@ + req.volume->0@ + "' not found"@)
            } else {
                ErrorView::State(e)
            },
        )
    } else if req.volume is Some && volume_file is Err {
        Some(ErrorView::Storage(volume_file->Err_0@))
    } else {
        None
    }
}

/// What a service is recorded as that was asked for so.
pub open spec fn service_for(
    core: HuskerCore,
    req: CreateServiceRequest,
    host_group_id: Option<u128>,
    id: u128,
    now: Timestamp,
    r: ServiceRecord,
) -> bool {
    let cloud = req.cloud_image is Some;
    &&& r.rootfs_path@ == boot_path(req.rootfs_path, core.default_rootfs, cloud)
    &&& r.kernel_path@ == boot_path(req.kernel_path, core.default_kernel, cloud)
    &&& opt_view(r.userdata_env) == stored_env(pair_views(req.env@))
    &&& r == (ServiceRecord {
        id,
        name: req.name,
        host_group_id,
        desired_instances: desired_of(req),
        image: req.image,
        kernel_path: r.kernel_path,
        rootfs_path: r.rootfs_path,
        initrd_path: req.initrd_path,
        vcpu_count: req.vcpu_count,
        mem_size_mib: req.mem_size_mib,
        userdata: req.userdata,
        userdata_env: r.userdata_env,
        created_at: now,
        updated_at: now,
        cloud_image: req.cloud_image,
        disk_size: req.disk_size,
        balloon: req.balloon,
        volume: req.volume,
    })
}

/// A service is recorded as it was asked for: under its name, with its number of instances,
/// its size, its script and its devices, in the group that was found for it, and from the
/// files that it boots.
pub proof fn services_are_recorded_as_asked_for(
    core: HuskerCore,
    req: CreateServiceRequest,
    host_group_id: Option<u128>,
    id: u128,
    now: Timestamp,
    r: ServiceRecord,
)
    requires
        service_for(core, req, host_group_id, id, now, r),
    ensures
        r.id == id && r.name == req.name && r.host_group_id == host_group_id,
        req.desired_instances is Some ==> Some(r.desired_instances) == req.desired_instances,
        req.desired_instances is None ==> r.desired_instances == 1,
        r.image == req.image && r.cloud_image == req.cloud_image && r.disk_size == req.disk_size,
        r.initrd_path == req.initrd_path,
        r.vcpu_count == req.vcpu_count && r.mem_size_mib == req.mem_size_mib,
        r.userdata == req.userdata && r.balloon == req.balloon && r.volume == req.volume,
        r.userdata_env is None <==> req.env@.len() == 0,
        r.created_at == now && r.updated_at == now,
        req.rootfs_path matches Some(p) ==> r.rootfs_path@ == p@,
        req.kernel_path matches Some(p) ==> r.kernel_path@ == p@,
        req.rootfs_path is None && req.cloud_image is None && core.default_rootfs is Some ==> Some(
            r.rootfs_path@,
        ) == opt_view(core.default_rootfs),
        req.kernel_path is None && req.cloud_image is None && core.default_kernel is Some ==> Some(
            r.kernel_path@,
        ) == opt_view(core.default_kernel),
{
    assert(opt_view(r.userdata_env) is None <==> r.userdata_env is None);
    assert(pair_views(req.env@).len() == req.env@.len());
}

/// The id of the group that was found, if one was asked for.
pub open spec fn group_id(group: Option<Result<HostGroupRecord, StateError>>) -> Option<u128> {
    match group {
        Some(Ok(g)) => Some(g.id),
        _ => None,
    }
}

/// Check a request for a service against all that was looked up for it, before anything
/// is recorded. Returns the record to store.
pub fn prepare_service(
    core: &HuskerCore,
    platform: Platform,
    req: CreateServiceRequest,
    group: Option<Result<HostGroupRecord, StateError>>,
    volume: Option<Result<VolumeRecord, StateError>>,
    volume_file: Result<(), String>,
    id: u128,
    now: Timestamp,
) -> (r: Result<ServiceRecord, CoreError>)
    requires
        group is Some <==> req.host_group is Some,
        volume is Some <==> req.volume is Some,
    ensures
        match preparation_fault(*core, platform, req, group, volume, volume_file) {
            Some(e) => r is Err && r->Err_0@ == e,
            None => r is Ok && service_for(*core, req, group_id(group), id, now, r->Ok_0),
        },
{
    let plan = match plan_service(core, platform, &req) {
        Ok(p) => p,
        Err(e) => { return Err(e); },
    };
    let mut host_group_id: Option<u128> = None;
    if let (Some(name), Some(found)) = (&req.host_group, group) {
        match found {
            Ok(g) => {
                host_group_id = Some(g.id);
            },
            Err(e) => {
                return Err(lookup_error(Resource::HostGroup, name.as_str(), e));
            },
        }
    }
    if let (Some(name), Some(found)) = (&req.volume, volume) {
        match volume_attachment(name.as_str(), found) {
            Ok(_) => {},
            Err(e) => { return Err(e); },
        }
        match volume_file {
            Ok(_) => {},
            Err(text) => { return Err(CoreError::Storage(text)); },
        }
    }
    Ok(new_service(req, plan, id, host_group_id, now))
}

/// What creating a service is answered.
pub open spec fn creation_answer(
    record: ServiceRecord,
    stored: Result<(), StateError>,
    r: Result<ServiceRecord, CoreError>,
) -> bool {
    match stored {
        Ok(_) => r == Ok::<ServiceRecord, CoreError>(record),
        Err(e) => r is Err && r->Err_0@ == insert_verdict(Resource::Service, e@),
    }
}

/// A service that was stored is answered with its own record, and one that was not is never:
/// a name that is taken is told as that.
pub proof fn stored_services_are_answered(
    record: ServiceRecord,
    stored: Result<(), StateError>,
    r: Result<ServiceRecord, CoreError>,
    name: Seq<char>,
)
    requires
        creation_answer(record, stored, r),
    ensures
        r is Ok <==> stored is Ok,
        r matches Ok(s) ==> s == record,
        stored is Err && stored->Err_0@ == StateErrorView::AlreadyExists(Resource::Service, name)
            ==> r->Err_0@ == ErrorView::ServiceAlreadyExists(name),
{
}

/// A request that is sound in itself is refused further only for what was looked up: its
/// group or its volume that is missing or could not be looked up, or the volume's file. Each
/// is told by its name or its reason, and what was not asked for does not matter. The group
/// that is recorded is the one that was found.
pub proof fn services_need_their_group_and_volume(
    core: HuskerCore,
    platform: Platform,
    req: CreateServiceRequest,
    group: Option<Result<HostGroupRecord, StateError>>,
    volume: Option<Result<VolumeRecord, StateError>>,
    volume_file: Result<(), String>,
)
    requires
        group is Some <==> req.host_group is Some,
        volume is Some <==> req.volume is Some,
    ensures
        ({
            let fault = preparation_fault(core, platform, req, group, volume, volume_file);
            let sound = service_fault(core, platform, req) is None;
            &&& !sound ==> fault == service_fault(core, platform, req)
            &&& fault is None <==> sound && (group is None || group->0 is Ok) && (volume is None
                || volume->0 is Ok && volume_file is Ok)
            &&& sound && group is Some && group->0 is Err && group->0->Err_0@
                == StateErrorView::NotFoundByName(Resource::HostGroup) ==> fault == Some(
                ErrorView::HostGroupNotFound(req.host_group->0@),
            )
            &&& fault is None && volume is Some ==> volume_file is Ok
            &&& sound && (group is None || group->0 is Ok) && volume is Some && volume->0 is Ok
                && volume_file is Err ==> fault == Some(ErrorView::Storage(volume_file->Err_0@))
            &&& group matches Some(Ok(g)) ==> group_id(group) == Some(g.id)
            &&& group is None ==> group_id(group) is None
        }),
{
}

/// What creating a service is answered, once it was tried to store its record.
pub fn service_stored(record: ServiceRecord, stored: Result<(), StateError>) -> (r: Result<
    ServiceRecord,
    CoreError,
>)
    ensures
        creation_answer(record, stored, r),
{
    match stored {
        Ok(_) => Ok(record),
        Err(e) => Err(insert_error(Resource::Service, e)),
    }
}

/// What is wrong with scaling a service to this number of instances, if anything.
pub open spec fn scale_verdict(name: Seq<char>, svc: ServiceRecord, desired: u32) -> Result<
    (),
    ErrorView,
> {
    if instances_verdict(name, desired) is Err {
        instances_verdict(name, desired)
    } else if svc.volume is Some && desired > 1 {
        Err(
            ErrorView::InvalidArgument(
                "cannot scale service '"@ + name + "' to "@ + decimal(desired as nat)
                    + " instances with volume '"@ + svc.volume->0@
                    + "': volumes are exclusive-attach, so a volume-backed service is limited to 1 instance"@,
            ),
        )
    } else {
        Ok(())
    }
}

/// A service scales to every number for which its last instance has a usable name, and to
/// one at most if it has a volume. Scaling to none always works.
pub proof fn services_scale_within_their_names_and_volumes(
    name: Seq<char>,
    svc: ServiceRecord,
    desired: u32,
)
    ensures
        scale_verdict(name, svc, desired) is Ok <==> (desired == 0 || valid_name(
            name + "-"@ + decimal((desired - 1) as nat),
        )) && (svc.volume is None || desired <= 1),
        scale_verdict(name, svc, desired) matches Err(e) ==> e is InvalidArgument,
{
    if desired > 0 {
        accepted_names_are_valid(
            "service instance"@,
            instance_of(name, (desired - 1) as nat),
        );
    }
}

/// Whether a service can be scaled to this number of instances.
pub fn check_scale(name: &str, svc: &ServiceRecord, desired: u32) -> (r: Result<(), CoreError>)
    ensures
        unit_view(r) == scale_verdict(name@, *svc, desired),
{
    match validate_service_instance_names(name, desired) {
        Err(e) => { return Err(e); },
        Ok(_) => {},
    }
    if let Some(volume) = &svc.volume {
        if desired > 1 {
            return Err(
                CoreError::InvalidArgument(
                    "cannot scale service '".to_owned().concat(name).concat("' to ").concat(
                        decimal_string(desired as u64).as_str(),
                    ).concat(" instances with volume '").concat(volume.as_str()).concat(
                        "': volumes are exclusive-attach, so a volume-backed service is limited to 1 instance",
                    ),
                ),
            );
        }
    }
    Ok(())
}

/// What deleting a service is answered, by the instances that could not be torn down.
pub open spec fn deletion_verdict(name: Seq<char>, failed: Seq<(String, String)>) -> Result<
    (),
    ErrorView,
> {
    if failed.len() > 0 {
        Err(
            ErrorView::ServiceOperationFailed(
                "cannot delete service '"@ + name + "': instance "@ + failed[0].0@
                    + " cleanup failed: "@ + failed[0].1@,
            ),
        )
    } else {
        Ok(())
    }
}

/// A service is deleted exactly where none of its instances is left; else the caller is
/// told why the first of them is.
pub proof fn services_go_after_their_instances(name: Seq<char>, failed: Seq<(String, String)>)
    ensures
        deletion_verdict(name, failed) is Ok <==> failed.len() == 0,
        failed.len() > 0 ==> deletion_verdict(name, failed)->Err_0 is ServiceOperationFailed
            && occurs(
            deletion_verdict(name, failed)->Err_0->ServiceOperationFailed_0,
            failed[0].0@,
        ) && has_suffix(
            deletion_verdict(name, failed)->Err_0->ServiceOperationFailed_0,
            failed[0].1@,
        ),
{
    if failed.len() > 0 {
        let text = deletion_verdict(name, failed)->Err_0->ServiceOperationFailed_0;
        let head = "cannot delete service '"@ + name + "': instance "@;
        let who = failed[0].0@;
        let why = failed[0].1@;
        stands_between(head, who, " cleanup failed: "@ + why);
        assert(text =~= head + who + (" cleanup failed: "@ + why));
        assert(text.subrange(text.len() - why.len(), text.len() as int) =~= why);
    }
}

/// What deleting a service is answered, once its instances were torn down: where
/// one of them could not be, the service stays and the first failure is reported.
pub fn check_deleted(name: &str, outcome: &ReconcileOutcome) -> (r: Result<(), CoreError>)
    ensures
        unit_view(r) == deletion_verdict(name@, outcome.failed@),
{
    if outcome.failed.len() > 0 {
        return Err(
            CoreError::ServiceOperationFailed(
                "cannot delete service '".to_owned().concat(name).concat("': instance ").concat(
                    outcome.failed[0].0.as_str(),
                ).concat(" cleanup failed: ").concat(outcome.failed[0].1.as_str()),
            ),
        );
    }
    Ok(())
}

// ---------------------------------------------------------------------------
// Instances
// ---------------------------------------------------------------------------

/// What an instance of a service is created from. A cloud image boots by itself;
/// otherwise the recorded rootfs and kernel are used. The balloon and the volume
/// carry over, so that a replacement has the same devices.
pub open spec fn request_of(svc: ServiceRecord, name: Seq<char>) -> VmRequestView {
    let common = VmRequestView {
        vcpu_count: svc.vcpu_count,
        mem_size_mib: svc.mem_size_mib,
        userdata: opt_view(svc.userdata),
        env: loaded_env(opt_view(svc.userdata_env)),
        balloon: svc.balloon,
        volume: opt_view(svc.volume),
        ..bare_request(name)
    };
    match svc.cloud_image {
        Some(image) => VmRequestView {
            cloud_image: Some(image@),
            disk_size: svc.disk_size,
            ..common
        },
        None => VmRequestView {
            kernel_path: Some(svc.kernel_path@),
            rootfs_path: Some(svc.rootfs_path@),
            initrd_path: opt_view(svc.initrd_path),
            ..common
        },
    }
}

/// Every instance gets what its service is: the script and its environment, the size, the
/// balloon and the volume, whether it boots from a cloud image or from a kernel; and the
/// service's own image, disk, kernel, rootfs and initrd, where it boots from such. It is
/// asked for under the name it was given, and nothing else is asked for it.
pub proof fn instances_are_what_their_service_is(svc: ServiceRecord, name: Seq<char>)
    ensures
        ({
            let r = request_of(svc, name);
            &&& r.name == name
            &&& r.userdata == opt_view(svc.userdata)
            &&& r.env == loaded_env(opt_view(svc.userdata_env))
            &&& r.vcpu_count == svc.vcpu_count && r.mem_size_mib == svc.mem_size_mib
            &&& r.balloon == svc.balloon
            &&& r.volume == opt_view(svc.volume)
            &&& r.cloud_image == opt_view(svc.cloud_image)
            &&& svc.cloud_image is Some ==> r.disk_size == svc.disk_size && r.kernel_path is None
                && r.rootfs_path is None && r.initrd_path is None
            &&& svc.cloud_image is None ==> r.kernel_path == Some(svc.kernel_path@)
                && r.rootfs_path == Some(svc.rootfs_path@) && r.initrd_path == opt_view(
                svc.initrd_path,
            ) && r.disk_size is None
            &&& r.vmm is None && r.network is None && r.mounts.len() == 0
            &&& r.ssh_authorized_keys.len() == 0
            &&& r.idle is None && r.idle_timeout_secs is None && r.suspend_ttl_secs is None
                && r.auto_resume is None
        }),
{
}

/// Two instances of a service differ in nothing but their names.
pub proof fn instances_differ_in_name_only(svc: ServiceRecord, a: Seq<char>, b: Seq<char>)
    ensures
        request_of(svc, b) == (VmRequestView { name: b, ..request_of(svc, a) }),
{
}

/// Build the create request for one service instance.
pub fn instance_request(svc: &ServiceRecord, name: &str) -> (r: CreateVmRequest)
    ensures
        r@ == request_of(*svc, name@),
{
    instance_request_with(svc, name, load_env(&svc.userdata_env))
}

/// Build the create request for one service instance, with this environment.
pub fn instance_request_with(svc: &ServiceRecord, name: &str, env: Vec<(String, String)>) -> (r:
    CreateVmRequest)
    ensures
        r@ == (VmRequestView { env: pair_views(env@), ..request_of(*svc, name@) }),
{
    let mut r = CreateVmRequest::default();
    r.name = name.to_owned();
    r.vcpu_count = svc.vcpu_count;
    r.mem_size_mib = svc.mem_size_mib;
    r.userdata = svc.userdata.clone();
    r.env = env;
    r.balloon = svc.balloon;
    r.volume = svc.volume.clone();
    match &svc.cloud_image {
        Some(image) => {
            r.cloud_image = Some(image.clone());
            r.disk_size = svc.disk_size;
        },
        None => {
            r.kernel_path = Some(svc.kernel_path.clone());
            r.rootfs_path = Some(svc.rootfs_path.clone());
            r.initrd_path = svc.initrd_path.clone();
        },
    }
    r
}

/// The name of the instance to create, or the name and the complaint where a VM that is
/// not the service's own has it.
pub open spec fn claim(svc: ServiceRecord, ordinal: u32, existing: Option<VmRecord>) -> Result<
    Seq<char>,
    (Seq<char>, Seq<char>),
> {
    let name = instance_of(svc.name@, ordinal as nat);
    match existing {
        Some(vm) if vm.service_id != Some(svc.id) => Err(
            (name, "name owned by a non-service VM"@),
        ),
        _ => Ok(name),
    }
}

/// What claiming a name gave, with the texts as sequences of characters.
pub open spec fn claim_view(r: Result<String, (String, String)>) -> Result<
    Seq<char>,
    (Seq<char>, Seq<char>),
> {
    match r {
        Ok(s) => Ok(s@),
        Err((a, b)) => Err((a@, b@)),
    }
}

/// A service takes the name of an instance exactly where it is free or its own VM's; a VM
/// of another service, or of none, is never touched. Instances are named after their
/// service and their ordinal, so no two claim the same name.
pub proof fn services_touch_only_their_own_vms(
    svc: ServiceRecord,
    ordinal: u32,
    other: u32,
    existing: Option<VmRecord>,
)
    ensures
        claim(svc, ordinal, existing) is Ok <==> existing is None || existing->0.service_id == Some(
            svc.id,
        ),
        claim(svc, ordinal, existing) matches Ok(name) ==> name == svc.name@ + "-"@ + decimal(
            ordinal as nat,
        ),
        claim(svc, ordinal, existing) matches Err(e) ==> e.0 == svc.name@ + "-"@ + decimal(
            ordinal as nat,
        ),
        ordinal != other ==> claim(svc, ordinal, None) != claim(svc, other, None),
{
    if ordinal != other {
        instance_names_are_distinct(svc.name@, ordinal as nat, svc.name@, other as nat);
    }
}

/// The name of the instance to create, unless a VM that is not the service's own
/// has it: such a VM is never touched.
pub fn claim_instance(svc: &ServiceRecord, ordinal: u32, existing: Option<&VmRecord>) -> (r: Result<
    String,
    (String, String),
>)
    ensures
        claim_view(r) == claim(
            *svc,
            ordinal,
            match existing {
                Some(vm) => Some(*vm),
                None => None,
            },
        ),
{
    let name = instance_name(svc.name.as_str(), ordinal);
    if let Some(vm) = existing {
        let own = match vm.service_id {
            Some(id) => id == svc.id,
            None => false,
        };
        if !own {
            return Err((name, "name owned by a non-service VM".to_owned()));
        }
    }
    Ok(name)
}

/// There is nothing to create instances of a service from.
pub open spec fn lacks_template(svc: ServiceRecord) -> bool {
    svc.rootfs_path@.len() == 0 && svc.cloud_image is None
}

/// What was recorded of a request that was accepted can always be instantiated, unless the
/// path of its rootfs, or of the daemon's, is empty.
pub proof fn accepted_services_have_a_template(
    core: HuskerCore,
    platform: Platform,
    req: CreateServiceRequest,
    host_group_id: Option<u128>,
    id: u128,
    now: Timestamp,
    r: ServiceRecord,
)
    requires
        service_fault(core, platform, req) is None,
        service_for(core, req, host_group_id, id, now, r),
        req.rootfs_path matches Some(p) ==> p@.len() > 0,
        core.default_rootfs matches Some(p) ==> p@.len() > 0,
    ensures
        !lacks_template(r),
        r.cloud_image is Some || r.rootfs_path@.len() > 0,
        r.cloud_image is None && r.rootfs_path@.len() == 0 ==> lacks_template(r),
{
}

/// A service has nothing to create instances from exactly where it has neither a rootfs nor
/// a cloud image.
pub proof fn templates_are_a_rootfs_or_a_cloud_image(svc: ServiceRecord)
    ensures
        !lacks_template(svc) <==> svc.rootfs_path@.len() > 0 || svc.cloud_image is Some,
{
}

/// Whether there is anything to create instances of a service from; if not, this
/// is what its reconciliation reports.
pub fn check_template(svc: &ServiceRecord) -> (r: Result<(), (String, String)>)
    ensures
        r is Err <==> lacks_template(*svc),
        r matches Err(e) ==> e.0@ == svc.name@ && e.1@ == "service has no rootfs template"@,
{
    let chars = crate::text::to_chars(svc.rootfs_path.as_str());
    if chars.len() == 0 && svc.cloud_image.is_none() {
        Err((svc.name.clone(), "service has no rootfs template".to_owned()))
    } else {
        Ok(())
    }
}

/// One more instance was noted as created.
pub open spec fn created_noted(
    before: ReconcileOutcome,
    name: String,
    after: ReconcileOutcome,
) -> bool {
    &&& after.created@ == before.created@.push(name)
    &&& after.destroyed == before.destroyed
    &&& after.failed == before.failed
}

/// One more instance was noted as destroyed.
pub open spec fn destroyed_noted(
    before: ReconcileOutcome,
    name: String,
    after: ReconcileOutcome,
) -> bool {
    &&& after.destroyed@ == before.destroyed@.push(name)
    &&& after.created == before.created
    &&& after.failed == before.failed
}

/// One more instance was noted as failed.
pub open spec fn failed_noted(
    before: ReconcileOutcome,
    name: String,
    message: String,
    after: ReconcileOutcome,
) -> bool {
    &&& after.failed@ == before.failed@.push((name, message))
    &&& after.created == before.created
    &&& after.destroyed == before.destroyed
}

/// What happened to an instance is noted once, under what it was, behind what was noted
/// before, and a failure with its reason.
pub proof fn outcomes_are_noted_apart(
    start: ReconcileOutcome,
    a: String,
    one: ReconcileOutcome,
    b: String,
    two: ReconcileOutcome,
    c: String,
    why: String,
    three: ReconcileOutcome,
)
    requires
        created_noted(start, a, one),
        destroyed_noted(one, b, two),
        failed_noted(two, c, why, three),
    ensures
        three.created@.len() == start.created@.len() + 1 && three.created@.last() == a,
        three.destroyed@.len() == start.destroyed@.len() + 1 && three.destroyed@.last() == b,
        three.failed@.len() == start.failed@.len() + 1 && three.failed@.last() == (c, why),
        three.created@.drop_last() =~= start.created@,
        three.destroyed@.drop_last() =~= start.destroyed@,
        three.failed@.drop_last() =~= start.failed@,
{
}

impl ReconcileOutcome {
    /// An instance was created.
    pub fn note_created(&mut self, name: String)
        ensures
            created_noted(*old(self), name, *final(self)),
    {
        self.created.push(name);
    }

    /// An instance was destroyed.
    pub fn note_destroyed(&mut self, name: String)
        ensures
            destroyed_noted(*old(self), name, *final(self)),
    {
        self.destroyed.push(name);
    }

    /// An instance could not be created or destroyed.
    pub fn note_failed(&mut self, name: String, message: String)
        ensures
            failed_noted(*old(self), name, message, *final(self)),
    {
        self.failed.push((name, message));
    }
}

// ---------------------------------------------------------------------------
// Reconciliation
// ---------------------------------------------------------------------------

/// Of two VMs with the same ordinal, `candidate` is the one to keep: a running one
/// rather than another, then the older, then the one with the lower id.
pub open spec fn better(candidate: VmRecord, current: VmRecord) -> bool {
    let c = candidate.stage() == Lifecycle::Running;
    let o = current.stage() == Lifecycle::Running;
    if c != o {
        c
    } else if candidate.created_at@ != current.created_at@ {
        candidate.created_at@ < current.created_at@
    } else {
        candidate.id < current.id
    }
}

/// True if `candidate` is a better survivor than `current` for the same ordinal:
/// prefer `running`, then oldest `created_at`, then lowest `id`.
pub fn better_survivor(candidate: &VmRecord, current: &VmRecord) -> (r: bool)
    ensures
        r == better(*candidate, *current),
{
    let c = candidate.lifecycle() == Lifecycle::Running;
    let o = current.lifecycle() == Lifecycle::Running;
    if c != o {
        return c;
    }
    if candidate.created_at.before(&current.created_at) {
        return true;
    }
    if current.created_at.before(&candidate.created_at) {
        return false;
    }
    candidate.id < current.id
}

/// Of two VMs with the same ordinal a running one stays rather than one that does not run,
/// whatever their ages; of two that run, or two that do not, the older; and of two of the
/// same age the one with the lower id.
pub proof fn running_then_older_vms_stay(a: VmRecord, b: VmRecord)
    ensures
        a.stage() == Lifecycle::Running && b.stage() != Lifecycle::Running ==> better(a, b)
            && !better(b, a),
        (a.stage() == Lifecycle::Running <==> b.stage() == Lifecycle::Running) && a.created_at@
            < b.created_at@ ==> better(a, b) && !better(b, a),
        (a.stage() == Lifecycle::Running <==> b.stage() == Lifecycle::Running) && a.created_at@
            == b.created_at@ && a.id < b.id ==> better(a, b) && !better(b, a),
{
}

/// Preference among survivors is a strict total order on VMs with different ids:
/// which of them stays does not depend on the order in which they are looked at.
pub proof fn preference_is_a_strict_total_order(a: VmRecord, b: VmRecord, c: VmRecord)
    ensures
        !better(a, a),
        !(better(a, b) && better(b, a)),
        better(a, b) && better(b, c) ==> better(a, c),
        a.id != b.id ==> better(a, b) || better(b, a),
{
}

/// The ordinal of a survivor.
pub open spec fn ordinal(vm: VmRecord) -> int {
    vm.service_ordinal->0 as int
}

/// One VM at most for each ordinal, in ascending order.
pub open spec fn settled(s: Seq<VmRecord>) -> bool {
    &&& forall|i: int| 0 <= i < s.len() ==> (#[trigger] s[i]).service_ordinal is Some
    &&& forall|i: int, j: int|
        0 <= i < j < s.len() ==> ordinal(#[trigger] s[i]) < ordinal(#[trigger] s[j])
}

/// How many survivors come before `o`.
pub open spec fn rank(s: Seq<VmRecord>, o: int) -> int
    decreases s.len(),
{
    if s.len() == 0 || ordinal(s[0]) >= o {
        0
    } else {
        1 + rank(s.skip(1), o)
    }
}

/// The survivors once `vm` was looked at too, and the VM that has to go for it, if
/// any. One without an ordinal is an orphan.
pub open spec fn admitted(s: Seq<VmRecord>, vm: VmRecord) -> (Seq<VmRecord>, Option<VmRecord>) {
    if vm.service_ordinal is None {
        (s, Some(vm))
    } else {
        let k = rank(s, ordinal(vm));
        if k < s.len() && ordinal(s[k]) == ordinal(vm) {
            if better(vm, s[k]) {
                (s.update(k, vm), Some(s[k]))
            } else {
                (s, Some(vm))
            }
        } else {
            (s.insert(k, vm), None)
        }
    }
}

/// The survivors among the VMs.
pub open spec fn survivors(vms: Seq<VmRecord>) -> Seq<VmRecord>
    decreases vms.len(),
{
    if vms.len() == 0 {
        Seq::empty()
    } else {
        admitted(survivors(vms.drop_last()), vms.last()).0
    }
}

/// The VMs that have to go, in the order in which that turns out.
pub open spec fn losers(vms: Seq<VmRecord>) -> Seq<VmRecord>
    decreases vms.len(),
{
    if vms.len() == 0 {
        Seq::empty()
    } else {
        match admitted(survivors(vms.drop_last()), vms.last()).1 {
            Some(vm) => losers(vms.drop_last()).push(vm),
            None => losers(vms.drop_last()),
        }
    }
}

proof fn rank_bounds(s: Seq<VmRecord>, o: int)
    requires
        settled(s),
    ensures
        0 <= rank(s, o) <= s.len(),
        forall|i: int| 0 <= i < rank(s, o) ==> ordinal(#[trigger] s[i]) < o,
        forall|i: int| rank(s, o) <= i < s.len() ==> ordinal(#[trigger] s[i]) >= o,
    decreases s.len(),
{
    if s.len() > 0 && ordinal(s[0]) < o {
        let t = s.skip(1);
        assert forall|i: int, j: int| 0 <= i < j < t.len() implies ordinal(#[trigger] t[i])
            < ordinal(#[trigger] t[j]) by {
            assert(t[i] == s[i + 1] && t[j] == s[j + 1]);
        }
        assert forall|i: int| 0 <= i < t.len() implies (#[trigger] t[i]).service_ordinal is Some by {
            assert(t[i] == s[i + 1]);
        }
        rank_bounds(t, o);
        assert forall|i: int| 0 <= i < rank(s, o) implies ordinal(#[trigger] s[i]) < o by {
            if i > 0 {
                assert(t[i - 1] == s[i]);
            }
        }
        assert forall|i: int| rank(s, o) <= i < s.len() implies ordinal(#[trigger] s[i]) >= o by {
            assert(t[i - 1] == s[i]);
        }
    }
}

proof fn rank_is(s: Seq<VmRecord>, o: int, k: int)
    requires
        settled(s),
        0 <= k <= s.len(),
        forall|i: int| 0 <= i < k ==> ordinal(#[trigger] s[i]) < o,
        k < s.len() ==> ordinal(s[k]) >= o,
    ensures
        rank(s, o) == k,
{
    rank_bounds(s, o);
    let r = rank(s, o);
    if r < k {
        assert(ordinal(s[r]) < o);
    }
    if k < r {
        assert(ordinal(s[k]) < o);
    }
}

fn find_ordinal(v: &Vec<VmRecord>, o: u32) -> (k: usize)
    requires
        settled(v@),
    ensures
        k == rank(v@, o as int),
{
    let mut k: usize = 0;
    while k < v.len()
        invariant
            k <= v@.len(),
            settled(v@),
            forall|i: int| 0 <= i < k ==> ordinal(#[trigger] v@[i]) < o,
        decreases v.len() - k,
    {
        if !has_ordinal_below(&v[k], o) {
            proof {
                rank_is(v@, o as int, k as int);
            }
            return k;
        }
        k += 1;
    }
    proof {
        rank_is(v@, o as int, k as int);
    }
    k
}

fn has_ordinal_below(vm: &VmRecord, o: u32) -> (r: bool)
    requires
        vm.service_ordinal is Some,
    ensures
        r == (ordinal(*vm) < o),
{
    match vm.service_ordinal {
        Some(x) => x < o,
        None => false,
    }
}

fn has_ordinal(vm: &VmRecord, o: u32) -> (r: bool)
    requires
        vm.service_ordinal is Some,
    ensures
        r == (ordinal(*vm) == o),
{
    match vm.service_ordinal {
        Some(x) => x == o,
        None => false,
    }
}

/// What is to be done about one ordinal of a service.
#[derive(Debug)]
pub enum Upkeep {
    /// Its VM runs.
    Keep,
    /// Its VM does not run: destroy it, and then create another.
    Replace(VmRecord),
    /// There is none: create it.
    Create,
}

/// What has become known of the VMs of a service while it is brought to its desired
/// number of instances.
pub struct Reconciliation {
    survivors: Vec<VmRecord>,
    desired: u32,
}

impl View for Reconciliation {
    type V = Seq<VmRecord>;

    closed spec fn view(&self) -> Seq<VmRecord> {
        self.survivors@
    }
}

impl Reconciliation {
    #[verifier::type_invariant]
    spec fn well_formed(self) -> bool {
        settled(self.survivors@)
    }

    /// How many instances there should be.
    pub closed spec fn target(self) -> u32 {
        self.desired
    }

    /// Nothing is known yet.
    pub fn begin(svc: &ServiceRecord) -> (r: Reconciliation)
        ensures
            r@ == Seq::<VmRecord>::empty(),
            r.target() == svc.desired_instances,
    {
        Reconciliation { survivors: Vec::new(), desired: svc.desired_instances }
    }

    /// Look at one of the service's VMs, as it is now. Returns the VM that has to be
    /// destroyed, if any: an orphan, or the worse of two with the same ordinal.
    pub fn look_at(&mut self, vm: VmRecord) -> (r: Option<VmRecord>)
        ensures
            final(self)@ == admitted(old(self)@, vm).0,
            r == admitted(old(self)@, vm).1,
            final(self).target() == old(self).target(),
    {
        proof {
            use_type_invariant(&*self);
        }
        let o: u32 = match vm.service_ordinal {
            None => { return Some(vm); },
            Some(o) => o,
        };
        let ghost s = self.survivors@;
        let k = find_ordinal(&self.survivors, o);
        proof {
            rank_bounds(s, o as int);
        }
        let mut v: Vec<VmRecord> = Vec::new();
        std::mem::swap(&mut v, &mut self.survivors);
        let r: Option<VmRecord>;
        if k < v.len() && has_ordinal(&v[k], o) {
            if better_survivor(&vm, &v[k]) {
                let loser = v[k].clone();
                v.set(k, vm);
                r = Some(loser);
                proof {
                    assert forall|i: int, j: int| 0 <= i < j < v@.len() implies ordinal(
                        #[trigger] v@[i],
                    ) < ordinal(#[trigger] v@[j]) by {
                        assert(ordinal(s[i]) < ordinal(s[j]));
                    }
                }
            } else {
                r = Some(vm);
            }
        } else {
            v.insert(k, vm);
            r = None;
            proof {
                assert(v@ == s.insert(k as int, vm));
                assert forall|i: int| 0 <= i < v@.len() implies (#[trigger] v@[i]).service_ordinal
                    is Some by {
                    if i < k {
                        assert(v@[i] == s[i]);
                    } else if i > k {
                        assert(v@[i] == s[i - 1]);
                    }
                }
                assert forall|i: int, j: int| 0 <= i < j < v@.len() implies ordinal(
                    #[trigger] v@[i],
                ) < ordinal(#[trigger] v@[j]) by {
                    let a = if i < k { i } else { i - 1 };
                    let b = if j < k { j } else { j - 1 };
                    if i != k {
                        assert(v@[i] == s[a]);
                    }
                    if j != k {
                        assert(v@[j] == s[b]);
                    }
                }
            }
        }
        self.survivors = v;
        r
    }

    /// What is to be done about one of the ordinals that there should be.
    pub fn upkeep(&self, o: u32) -> (r: Upkeep)
        ensures
            r == upkeep_of(self@, o),
    {
        proof {
            use_type_invariant(self);
        }
        let k = find_ordinal(&self.survivors, o);
        proof {
            rank_bounds(self.survivors@, o as int);
        }
        if k < self.survivors.len() && has_ordinal(&self.survivors[k], o) {
            if self.survivors[k].lifecycle() == Lifecycle::Running {
                return Upkeep::Keep;
            }
            return Upkeep::Replace(self.survivors[k].clone());
        }
        Upkeep::Create
    }

    /// The survivors that there should not be, in ascending order.
    pub fn excess(&self) -> (r: Vec<VmRecord>)
        ensures
            r@ == excess_of(self@, self.target()),
    {
        proof {
            use_type_invariant(self);
        }
        let ghost s = self.survivors@;
        let mut k: usize = find_ordinal(&self.survivors, self.desired);
        proof {
            rank_bounds(s, self.desired as int);
        }
        let ghost from = k as int;
        let mut r: Vec<VmRecord> = Vec::new();
        while k < self.survivors.len()
            invariant
                0 <= from <= k <= self.survivors@.len(),
                self.survivors@ == s,
                r@ == s.subrange(from, k as int),
            decreases self.survivors.len() - k,
        {
            r.push(self.survivors[k].clone());
            proof {
                assert(s.subrange(from, k + 1) == s.subrange(from, k as int).push(s[k as int]));
            }
            k += 1;
        }
        proof {
            assert(s.subrange(from, k as int) == s.skip(from));
        }
        r
    }
}

/// What is to be done about the ordinal `o`.
pub open spec fn upkeep_of(s: Seq<VmRecord>, o: u32) -> Upkeep {
    let k = rank(s, o as int);
    if k < s.len() && ordinal(s[k]) == o {
        if s[k].stage() == Lifecycle::Running {
            Upkeep::Keep
        } else {
            Upkeep::Replace(s[k])
        }
    } else {
        Upkeep::Create
    }
}

/// The survivors that there should not be.
pub open spec fn excess_of(s: Seq<VmRecord>, desired: u32) -> Seq<VmRecord> {
    s.skip(rank(s, desired as int))
}

proof fn admitting_settles(s: Seq<VmRecord>, vm: VmRecord)
    requires
        settled(s),
    ensures
        settled(admitted(s, vm).0),
{
    if vm.service_ordinal is Some {
        let o = ordinal(vm);
        rank_bounds(s, o);
        let k = rank(s, o);
        let t = admitted(s, vm).0;
        if k < s.len() && ordinal(s[k]) == o {
            if better(vm, s[k]) {
                assert forall|i: int, j: int| 0 <= i < j < t.len() implies ordinal(#[trigger] t[i])
                    < ordinal(#[trigger] t[j]) by {
                    assert(ordinal(s[i]) < ordinal(s[j]));
                }
            }
        } else {
            assert forall|i: int| 0 <= i < t.len() implies (#[trigger] t[i]).service_ordinal
                is Some by {
                if i < k {
                    assert(t[i] == s[i]);
                } else if i > k {
                    assert(t[i] == s[i - 1]);
                }
            }
            assert forall|i: int, j: int| 0 <= i < j < t.len() implies ordinal(#[trigger] t[i])
                < ordinal(#[trigger] t[j]) by {
                let a = if i < k { i } else { i - 1 };
                let b = if j < k { j } else { j - 1 };
                if i != k {
                    assert(t[i] == s[a]);
                }
                if j != k {
                    assert(t[j] == s[b]);
                }
            }
        }
    }
}

/// However the VMs are looked at, one at most survives for each ordinal.
pub proof fn survivors_are_settled(vms: Seq<VmRecord>)
    ensures
        settled(survivors(vms)),
    decreases vms.len(),
{
    if vms.len() > 0 {
        survivors_are_settled(vms.drop_last());
        admitting_settles(survivors(vms.drop_last()), vms.last());
    }
}

proof fn inserting_adds_one(s: Seq<VmRecord>, k: int, vm: VmRecord)
    requires
        0 <= k <= s.len(),
    ensures
        s.insert(k, vm).to_multiset() == s.to_multiset().insert(vm),
{
    let t = s.insert(k, vm);
    to_multiset_remove(t, k);
    assert(t.remove(k) =~= s);
    to_multiset_contains(t, vm);
    assert(t[k] == vm);
    assert(t.to_multiset() =~= s.to_multiset().insert(vm));
}

proof fn replacing_trades_one(s: Seq<VmRecord>, k: int, vm: VmRecord)
    requires
        0 <= k < s.len(),
    ensures
        s.update(k, vm).to_multiset().insert(s[k]) == s.to_multiset().insert(vm),
{
    let t = s.update(k, vm);
    to_multiset_remove(t, k);
    to_multiset_remove(s, k);
    assert(t.remove(k) =~= s.remove(k));
    to_multiset_contains(t, vm);
    to_multiset_contains(s, s[k]);
    assert(t[k] == vm);
    assert(s.contains(s[k]));
    let m = t.to_multiset();
    let n = s.to_multiset();
    assert forall|x: VmRecord| #[trigger] m.insert(s[k]).count(x) == n.insert(vm).count(x) by {
        assert(m.remove(vm).count(x) == n.remove(s[k]).count(x));
    }
    assert(m.insert(s[k]) =~= n.insert(vm));
}

/// No VM is lost sight of, and none is counted twice: each of them survives or has
/// to go.
pub proof fn vms_survive_or_go(vms: Seq<VmRecord>)
    ensures
        vms.to_multiset() == survivors(vms).to_multiset().add(losers(vms).to_multiset()),
    decreases vms.len(),
{
    if vms.len() == 0 {
        to_multiset_len(vms);
        to_multiset_len(survivors(vms));
        to_multiset_len(losers(vms));
        assert(vms =~= Seq::empty());
        assert(vms.to_multiset() =~= survivors(vms).to_multiset().add(losers(vms).to_multiset()))
            by {
            assert(Seq::<VmRecord>::empty().to_multiset().len() == 0);
            assert(Seq::<VmRecord>::empty().to_multiset() =~= Multiset::empty());
        }
    } else {
        let rest = vms.drop_last();
        let vm = vms.last();
        let s = survivors(rest);
        let l = losers(rest);
        vms_survive_or_go(rest);
        survivors_are_settled(rest);
        assert(vms =~= rest.push(vm));
        to_multiset_build(rest, vm);
        match admitted(s, vm).1 {
            Some(x) => {
                to_multiset_build(l, x);
            },
            None => {},
        }
        if vm.service_ordinal is Some {
            let k = rank(s, ordinal(vm));
            rank_bounds(s, ordinal(vm));
            if k < s.len() && ordinal(s[k]) == ordinal(vm) {
                if better(vm, s[k]) {
                    replacing_trades_one(s, k, vm);
                }
            } else {
                inserting_adds_one(s, k, vm);
            }
        }
        let m = survivors(vms).to_multiset();
        let n = losers(vms).to_multiset();
        let ms = s.to_multiset();
        let ml = l.to_multiset();
        assert forall|x: VmRecord| #[trigger] vms.to_multiset().count(x) == m.add(n).count(x) by {
            assert(rest.to_multiset().count(x) == ms.add(ml).count(x));
            assert(ms.add(ml).count(x) == ms.count(x) + ml.count(x));
            assert(m.add(n).count(x) == m.count(x) + n.count(x));
            assert(rest.to_multiset().insert(vm).count(x) == rest.to_multiset().count(x) + (if x
                == vm {
                1int
            } else {
                0
            }));
            if vm.service_ordinal is Some {
                let k = rank(s, ordinal(vm));
                if k < s.len() && ordinal(s[k]) == ordinal(vm) {
                    if better(vm, s[k]) {
                        assert(m.insert(s[k]).count(x) == ms.insert(vm).count(x));
                        assert(n == ml.insert(s[k]));
                    } else {
                        assert(n == ml.insert(vm));
                    }
                } else {
                    assert(m == ms.insert(vm));
                }
            } else {
                assert(n == ml.insert(vm));
            }
        }
        assert(vms.to_multiset() =~= m.add(n));
    }
}

/// A survivor is one of the VMs.
proof fn survivors_are_vms(vms: Seq<VmRecord>, k: int)
    requires
        0 <= k < survivors(vms).len(),
    ensures
        vms.contains(survivors(vms)[k]),
{
    let vm = survivors(vms)[k];
    vms_survive_or_go(vms);
    assert(survivors(vms).contains(vm));
    to_multiset_contains(survivors(vms), vm);
    to_multiset_contains(vms, vm);
}

/// For each ordinal the best VM survives: none of those with the ordinal is better
/// than the one that stays.
pub proof fn the_best_survive(vms: Seq<VmRecord>, i: int)
    requires
        0 <= i < vms.len(),
        vms[i].service_ordinal is Some,
    ensures
        exists|k: int|
            0 <= k < survivors(vms).len() && ordinal(#[trigger] survivors(vms)[k]) == ordinal(
                vms[i],
            ) && !better(vms[i], survivors(vms)[k]),
    decreases vms.len(),
{
    let rest = vms.drop_last();
    let vm = vms.last();
    let s = survivors(rest);
    let t = survivors(vms);
    survivors_are_settled(rest);
    let r = rank(s, ordinal(vm));
    if vm.service_ordinal is Some {
        rank_bounds(s, ordinal(vm));
    }
    if i < rest.len() {
        assert(rest[i] == vms[i]);
        the_best_survive(rest, i);
        let k = choose|k: int|
            0 <= k < s.len() && ordinal(#[trigger] s[k]) == ordinal(rest[i]) && !better(
                rest[i],
                s[k],
            );
        if vm.service_ordinal is None {
            assert(t[k] == s[k]);
        } else if r < s.len() && ordinal(s[r]) == ordinal(vm) {
            if better(vm, s[r]) && k == r {
                assert(t[k] == vm);
            } else {
                assert(t[k] == s[k]);
            }
        } else {
            let j = if k < r { k } else { k + 1 };
            assert(t[j] == s[k]);
        }
    } else {
        assert(t[r] == vm || ordinal(s[r]) == ordinal(vm));
        if r < s.len() && ordinal(s[r]) == ordinal(vm) && !better(vm, s[r]) {
            assert(t[r] == s[r]);
        } else {
            assert(t[r] == vm);
        }
    }
}

/// The reconciliation tells the VM to go.
pub open spec fn told_to_go(vms: Seq<VmRecord>, desired: u32, vm: VmRecord) -> bool {
    let s = survivors(vms);
    ||| losers(vms).contains(vm)
    ||| excess_of(s, desired).contains(vm)
    ||| exists|o: u32| o < desired && #[trigger] upkeep_of(s, o) == Upkeep::Replace(vm)
}

/// The VM that stands for an ordinal once the reconciliation was carried out, where
/// `new` gives the VMs that are created.
pub open spec fn stands_for(vms: Seq<VmRecord>, new: spec_fn(u32) -> VmRecord, o: u32) -> VmRecord {
    let s = survivors(vms);
    match upkeep_of(s, o) {
        Upkeep::Keep => s[rank(s, o as int)],
        _ => new(o),
    }
}

/// Reconciliation converges: once it was carried out, each ordinal below the desired
/// number of instances is backed by one running VM, and every other VM of the
/// service was told to go.
pub proof fn reconciliation_converges(
    vms: Seq<VmRecord>,
    desired: u32,
    new: spec_fn(u32) -> VmRecord,
    o: u32,
    i: int,
)
    requires
        forall|p: u32|
            p < desired ==> (#[trigger] new(p)).service_ordinal == Some(p) && new(p).stage()
                == Lifecycle::Running,
        0 <= i < vms.len(),
    ensures
        o < desired ==> stands_for(vms, new, o).service_ordinal == Some(o) && stands_for(
            vms,
            new,
            o,
        ).stage() == Lifecycle::Running,
        told_to_go(vms, desired, vms[i]) || exists|p: u32|
            p < desired && vms[i] == #[trigger] stands_for(vms, new, p),
{
    let s = survivors(vms);
    survivors_are_settled(vms);
    rank_bounds(s, o as int);
    vms_survive_or_go(vms);
    let vm = vms[i];
    if !losers(vms).contains(vm) {
        assert(vms.contains(vm));
        to_multiset_contains(vms, vm);
        to_multiset_contains(losers(vms), vm);
        to_multiset_contains(s, vm);
        assert(s.contains(vm));
        let k = choose|k: int| 0 <= k < s.len() && s[k] == vm;
        rank_bounds(s, desired as int);
        if ordinal(vm) >= desired {
            let e = excess_of(s, desired);
            assert(e[k - rank(s, desired as int)] == vm);
        } else {
            let p = vm.service_ordinal->0;
            rank_is(s, p as int, k);
            if vm.stage() == Lifecycle::Running {
                assert(stands_for(vms, new, p) == vm);
            } else {
                assert(upkeep_of(s, p) == Upkeep::Replace(vm));
            }
        }
    }
}

/// A VM that stays is not told to go.
pub proof fn kept_vms_are_left_alone(vms: Seq<VmRecord>, desired: u32, o: u32)
    requires
        vms.no_duplicates(),
        o < desired,
        upkeep_of(survivors(vms), o) is Keep,
    ensures
        !told_to_go(vms, desired, survivors(vms)[rank(survivors(vms), o as int)]),
{
    let s = survivors(vms);
    let vm = s[rank(s, o as int)];
    survivors_are_settled(vms);
    rank_bounds(s, o as int);
    rank_bounds(s, desired as int);
    vms_survive_or_go(vms);
    vms.lemma_multiset_has_no_duplicates();
    assert(s.contains(vm));
    to_multiset_contains(s, vm);
    to_multiset_contains(losers(vms), vm);
    to_multiset_contains(vms, vm);
    let m = s.to_multiset();
    let n = losers(vms).to_multiset();
    assert(m.add(n).count(vm) == m.count(vm) + n.count(vm));
    assert(vms.to_multiset().contains(vm));
    assert(!losers(vms).contains(vm));
    let e = excess_of(s, desired);
    assert forall|j: int| 0 <= j < e.len() implies #[trigger] e[j] != vm by {
        assert(e[j] == s[j + rank(s, desired as int)]);
        assert(ordinal(e[j]) >= desired);
    }
}

/// One of the VMs has the ordinal.
pub open spec fn is_backed(vms: Seq<VmRecord>, o: u32) -> bool {
    exists|i: int| 0 <= i < vms.len() && ordinal(#[trigger] vms[i]) == o
}

/// A service is as it should be: one running VM for each ordinal that there should
/// be, and no other.
pub open spec fn converged(vms: Seq<VmRecord>, desired: u32) -> bool {
    &&& forall|i: int|
        0 <= i < vms.len() ==> (#[trigger] vms[i]).service_ordinal is Some && ordinal(vms[i])
            < desired && vms[i].stage() == Lifecycle::Running
    &&& forall|i: int, j: int|
        0 <= i < j < vms.len() ==> ordinal(#[trigger] vms[i]) != ordinal(#[trigger] vms[j])
    &&& forall|o: u32| o < desired ==> #[trigger] is_backed(vms, o)
}

proof fn distinct_ordinals_lose_nothing(vms: Seq<VmRecord>)
    requires
        forall|i: int| 0 <= i < vms.len() ==> (#[trigger] vms[i]).service_ordinal is Some,
        forall|i: int, j: int|
            0 <= i < j < vms.len() ==> ordinal(#[trigger] vms[i]) != ordinal(#[trigger] vms[j]),
    ensures
        losers(vms).len() == 0,
    decreases vms.len(),
{
    if vms.len() > 0 {
        let rest = vms.drop_last();
        let s = survivors(rest);
        assert forall|i: int, j: int| 0 <= i < j < rest.len() implies ordinal(#[trigger] rest[i])
            != ordinal(#[trigger] rest[j]) by {
            assert(rest[i] == vms[i] && rest[j] == vms[j]);
        }
        assert forall|i: int| 0 <= i < rest.len() implies (#[trigger] rest[i]).service_ordinal
            is Some by {
            assert(rest[i] == vms[i]);
        }
        distinct_ordinals_lose_nothing(rest);
        survivors_are_settled(rest);
        let k = rank(s, ordinal(vms.last()));
        rank_bounds(s, ordinal(vms.last()));
        if k < s.len() && ordinal(s[k]) == ordinal(vms.last()) {
            survivors_are_vms(rest, k);
            let i = choose|i: int| 0 <= i < rest.len() && rest[i] == s[k];
            assert(vms[i] == s[k]);
        }
        assert(vms[vms.len() - 1] == vms.last());
    }
}

/// Reconciling a service that is as it should be does nothing.
pub proof fn converged_services_are_left_alone(vms: Seq<VmRecord>, desired: u32, o: u32)
    requires
        converged(vms, desired),
    ensures
        losers(vms).len() == 0,
        excess_of(survivors(vms), desired).len() == 0,
        o < desired ==> upkeep_of(survivors(vms), o) is Keep,
{
    let s = survivors(vms);
    distinct_ordinals_lose_nothing(vms);
    survivors_are_settled(vms);
    rank_bounds(s, desired as int);
    let d = rank(s, desired as int);
    if d < s.len() {
        survivors_are_vms(vms, d);
        let i = choose|i: int| 0 <= i < vms.len() && vms[i] == s[d];
        assert(ordinal(vms[i]) < desired);
    }
    if o < desired {
        assert(is_backed(vms, o));
        let i = choose|i: int| 0 <= i < vms.len() && ordinal(#[trigger] vms[i]) == o;
        the_best_survive(vms, i);
        let k = choose|k: int|
            0 <= k < s.len() && ordinal(#[trigger] s[k]) == ordinal(vms[i]) && !better(
                vms[i],
                s[k],
            );
        rank_is(s, o as int, k);
        survivors_are_vms(vms, k);
        let j = choose|j: int| 0 <= j < vms.len() && vms[j] == s[k];
        assert(vms[j].stage() == Lifecycle::Running);
    }
}

// ---------------------------------------------------------------------------
// All services and VMs
// ---------------------------------------------------------------------------

/// The services and the VMs on record.
pub ghost struct Store {
    pub services: Seq<ServiceRecord>,
    pub vms: Seq<VmRecord>,
}

/// No two services have the same name.
pub open spec fn services_are_named_apart(s: Seq<ServiceRecord>) -> bool {
    forall|i: int, j: int| 0 <= i < j < s.len() ==> (#[trigger] s[i]).name@ != (#[trigger] s[j]).name@
}

/// One of the services has the name.
pub open spec fn has_service(s: Seq<ServiceRecord>, name: Seq<char>) -> bool {
    exists|i: int| 0 <= i < s.len() && (#[trigger] s[i]).name@ == name
}

/// The service with the name, where there is one.
pub open spec fn service_named(s: Seq<ServiceRecord>, name: Seq<char>) -> ServiceRecord {
    s[choose|i: int| 0 <= i < s.len() && (#[trigger] s[i]).name@ == name]
}

/// What creating a service comes to: the answer, and the store after it, before any
/// instance is created. `stored` tells how storing the record goes, where it comes to
/// that. Instances are created only where the answer is the service.
pub open spec fn service_creation(
    core: HuskerCore,
    platform: Platform,
    req: CreateServiceRequest,
    group: Option<Result<HostGroupRecord, StateError>>,
    volume: Option<Result<VolumeRecord, StateError>>,
    volume_file: Result<(), String>,
    id: u128,
    now: Timestamp,
    stored: Result<(), StateError>,
    before: Store,
    r: Result<ServiceRecord, ErrorView>,
    after: Store,
) -> bool {
    match preparation_fault(core, platform, req, group, volume, volume_file) {
        Some(e) => r == Err::<ServiceRecord, ErrorView>(e) && after == before,
        None => match stored {
            Err(e) => r == Err::<ServiceRecord, ErrorView>(
                insert_verdict(Resource::Service, e@),
            ) && after == before,
            Ok(_) => r is Ok && service_for(core, req, group_id(group), id, now, r->Ok_0) && after
                == (Store { services: before.services.push(r->Ok_0), vms: before.vms }),
        },
    }
}

/// Creating a service is all or nothing. Where it is refused, the services and the VMs
/// on record are as before. Where it succeeds, the service is found under its name, with
/// the number of instances that was asked for, and with one at most if it has a volume.
/// A volume for several instances is refused as a fault of the request, and so is one
/// that nobody knows.
pub proof fn services_are_created_whole(
    core: HuskerCore,
    platform: Platform,
    req: CreateServiceRequest,
    group: Option<Result<HostGroupRecord, StateError>>,
    volume: Option<Result<VolumeRecord, StateError>>,
    volume_file: Result<(), String>,
    id: u128,
    now: Timestamp,
    stored: Result<(), StateError>,
    before: Store,
    r: Result<ServiceRecord, ErrorView>,
    after: Store,
)
    requires
        service_creation(
            core,
            platform,
            req,
            group,
            volume,
            volume_file,
            id,
            now,
            stored,
            before,
            r,
            after,
        ),
        services_are_named_apart(before.services),
        stored is Ok ==> !has_service(before.services, req.name@),
    ensures
        r is Err ==> after == before,
        r matches Ok(rec) ==> {
            &&& services_are_named_apart(after.services)
            &&& has_service(after.services, rec.name@)
            &&& service_named(after.services, rec.name@) == rec
            &&& rec.name == req.name && rec.id == id
            &&& rec.desired_instances == desired_of(req)
            &&& rec.volume == req.volume
            &&& rec.volume is Some ==> rec.desired_instances <= 1
            &&& after.vms == before.vms
        },
        name_verdict("service"@, req.name@) is Ok && instances_verdict(
            req.name@,
            desired_of(req),
        ) is Ok && req.volume is Some && desired_of(req) > 1 ==> r is Err && r->Err_0
            is InvalidArgument,
        service_fault(core, platform, req) is None && (req.host_group is Some ==> group->0 is Ok)
            && req.volume is Some && volume->0 is Err && volume->0->Err_0@
            == StateErrorView::NotFoundByName(Resource::Volume) ==> r == Err::<
            ServiceRecord,
            ErrorView,
        >(ErrorView::InvalidArgument("volume '"@ + req.volume->0@ + "' not found"@)),
{
    if r is Ok {
        let rec = r->Ok_0;
        let all = after.services;
        let n = before.services.len() as int;
        assert(all[n] == rec);
        assert forall|i: int, j: int| 0 <= i < j < all.len() implies (#[trigger] all[i]).name@ != (
        #[trigger] all[j]).name@ by {
            assert(all[i] == before.services[i]);
            if j < n {
                assert(all[j] == before.services[j]);
            }
        }
        let k = choose|i: int| 0 <= i < all.len() && (#[trigger] all[i]).name@ == rec.name@;
        if k != n {
            assert(all[k].name@ != all[n].name@);
        }
    }
}

/// No volume is shared: a service that has one has one instance at most, and no two VMs
/// hold the same.
pub open spec fn volumes_are_apart(store: Store) -> bool {
    &&& forall|i: int|
        0 <= i < store.services.len() && (#[trigger] store.services[i]).volume is Some
            ==> store.services[i].desired_instances <= 1
    &&& forall|i: int, j: int|
        0 <= i < j < store.vms.len() && (#[trigger] store.vms[i]).volume is Some && (
        #[trigger] store.vms[j]).volume is Some ==> store.vms[i].volume->0@
            != store.vms[j].volume->0@
}

/// One of the VMs holds the volume.
pub open spec fn is_held(vms: Seq<VmRecord>, volume: Seq<char>) -> bool {
    exists|i: int| 0 <= i < vms.len() && opt_view((#[trigger] vms[i]).volume) == Some(volume)
}

/// A new service keeps volumes unshared, whatever services and VMs are on record.
pub proof fn new_services_share_no_volume(
    core: HuskerCore,
    platform: Platform,
    req: CreateServiceRequest,
    host_group_id: Option<u128>,
    id: u128,
    now: Timestamp,
    svc: ServiceRecord,
    store: Store,
)
    requires
        volumes_are_apart(store),
        service_fault(core, platform, req) is None,
        service_for(core, req, host_group_id, id, now, svc),
    ensures
        volumes_are_apart(Store { services: store.services.push(svc), ..store }),
{
    let s = Store { services: store.services.push(svc), ..store };
    assert forall|i: int|
        0 <= i < s.services.len() && (#[trigger] s.services[i]).volume
            is Some implies s.services[i].desired_instances <= 1 by {
        if i < store.services.len() {
            assert(s.services[i] == store.services[i]);
        }
    }
}

/// Scaling a service keeps volumes unshared, whatever services and VMs are on record:
/// `scaled` is the service with its new number of instances.
pub proof fn scaled_services_share_no_volume(
    store: Store,
    at: int,
    desired: u32,
    scaled: ServiceRecord,
)
    requires
        volumes_are_apart(store),
        0 <= at < store.services.len(),
        scale_verdict(store.services[at].name@, store.services[at], desired) is Ok,
        scaled == (ServiceRecord { desired_instances: desired, ..store.services[at] }),
    ensures
        volumes_are_apart(Store { services: store.services.update(at, scaled), ..store }),
{
    let s = Store { services: store.services.update(at, scaled), ..store };
    assert forall|i: int|
        0 <= i < s.services.len() && (#[trigger] s.services[i]).volume
            is Some implies s.services[i].desired_instances <= 1 by {
        if i != at {
            assert(s.services[i] == store.services[i]);
        }
    }
}

/// A new VM keeps volumes unshared, whatever services and VMs are on record: it takes a
/// volume only where no VM holds it, and a fork takes none.
pub proof fn new_vms_share_no_volume(store: Store, vm: VmRecord)
    requires
        volumes_are_apart(store),
        vm.volume is None || !is_held(store.vms, vm.volume->0@),
    ensures
        volumes_are_apart(Store { vms: store.vms.push(vm), ..store }),
{
    let s = Store { vms: store.vms.push(vm), ..store };
    assert forall|i: int, j: int|
        0 <= i < j < s.vms.len() && (#[trigger] s.vms[i]).volume is Some && (
        #[trigger] s.vms[j]).volume is Some implies s.vms[i].volume->0@ != s.vms[j].volume->0@ by {
        assert(s.vms[i] == store.vms[i]);
        if j < store.vms.len() {
            assert(s.vms[j] == store.vms[j]);
        } else if store.vms[i].volume->0@ == vm.volume->0@ {
            assert(opt_view(store.vms[i].volume) == Some(vm.volume->0@));
        }
    }
}

/// A VM that goes frees its volume, and the volumes of the others stay unshared.
pub proof fn destroyed_vms_free_their_volume(store: Store, at: int)
    requires
        volumes_are_apart(store),
        0 <= at < store.vms.len(),
    ensures
        volumes_are_apart(Store { vms: store.vms.remove(at), ..store }),
        store.vms[at].volume is Some ==> !is_held(store.vms.remove(at), store.vms[at].volume->0@),
{
    let s = Store { vms: store.vms.remove(at), ..store };
    assert forall|i: int, j: int|
        0 <= i < j < s.vms.len() && (#[trigger] s.vms[i]).volume is Some && (
        #[trigger] s.vms[j]).volume is Some implies s.vms[i].volume->0@ != s.vms[j].volume->0@ by {
        let a = if i < at { i } else { i + 1 };
        let b = if j < at { j } else { j + 1 };
        assert(s.vms[i] == store.vms[a] && s.vms[j] == store.vms[b]);
    }
    if store.vms[at].volume is Some && is_held(s.vms, store.vms[at].volume->0@) {
        let v = store.vms[at].volume->0@;
        let i = choose|i: int| 0 <= i < s.vms.len() && opt_view((#[trigger] s.vms[i]).volume) == Some(v);
        let a = if i < at { i } else { i + 1 };
        assert(s.vms[i] == store.vms[a]);
        if a < at {
            assert(store.vms[a].volume->0@ != store.vms[at].volume->0@);
        } else {
            assert(store.vms[at].volume->0@ != store.vms[a].volume->0@);
        }
    }
}

/// Each wanted ordinal is looked after by what stands for it: a running VM is kept, one
/// that does not run is replaced, and where there is none one is created. Whatever has an
/// ordinal that is not wanted has to go, and nothing else of the survivors.
pub proof fn ordinals_are_looked_after(s: Seq<VmRecord>, desired: u32, o: u32, k: int)
    requires
        settled(s),
        0 <= k < s.len(),
    ensures
        ordinal(s[k]) == o && s[k].stage() == Lifecycle::Running ==> upkeep_of(s, o) is Keep,
        ordinal(s[k]) == o && s[k].stage() != Lifecycle::Running ==> upkeep_of(s, o)
            == Upkeep::Replace(s[k]),
        upkeep_of(s, o) is Create <==> forall|i: int|
            0 <= i < s.len() ==> ordinal(#[trigger] s[i]) != o,
        excess_of(s, desired).contains(s[k]) <==> ordinal(s[k]) >= desired,
{
    rank_bounds(s, o as int);
    rank_bounds(s, desired as int);
    let r = rank(s, o as int);
    if ordinal(s[k]) == o {
        rank_is(s, o as int, k);
    }
    if upkeep_of(s, o) is Create {
        assert forall|i: int| 0 <= i < s.len() implies ordinal(#[trigger] s[i]) != o by {
            if ordinal(s[i]) == o {
                rank_is(s, o as int, i);
            }
        }
    }
    let d = rank(s, desired as int);
    let e = excess_of(s, desired);
    if ordinal(s[k]) >= desired {
        assert(k >= d);
        assert(e[k - d] == s[k]);
    }
    if e.contains(s[k]) {
        let j = choose|j: int| 0 <= j < e.len() && e[j] == s[k];
        assert(e[j] == s[j + d]);
    }
}

/// A VM that is looked at stays as the only one of its ordinal, or has to go for a better
/// one, or a worse one has to go for it; one without an ordinal always has to go.
pub proof fn looking_keeps_the_better_vm(s: Seq<VmRecord>, vm: VmRecord, k: int)
    requires
        settled(s),
        0 <= k < s.len(),
    ensures
        vm.service_ordinal is None ==> admitted(s, vm) == (s, Some(vm)),
        vm.service_ordinal is Some && ordinal(s[k]) == ordinal(vm) && better(vm, s[k])
            ==> admitted(s, vm).1 == Some(s[k]) && admitted(s, vm).0.contains(vm),
        vm.service_ordinal is Some && ordinal(s[k]) == ordinal(vm) && !better(vm, s[k])
            ==> admitted(s, vm) == (s, Some(vm)),
        vm.service_ordinal is Some && (forall|i: int|
            0 <= i < s.len() ==> ordinal(#[trigger] s[i]) != ordinal(vm)) ==> admitted(s, vm).1
            is None && admitted(s, vm).0.contains(vm),
{
    if vm.service_ordinal is Some {
        let o = ordinal(vm);
        rank_bounds(s, o);
        let r = rank(s, o);
        if ordinal(s[k]) == o {
            rank_is(s, o, k);
            assert(s.update(k, vm)[k] == vm);
        } else {
            assert(s.insert(r, vm)[r] == vm);
        }
    }
}

} // verus!
