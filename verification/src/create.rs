//! Creating a VM: what is decided before any host resource is touched, in which
//! order the resources are taken, what the VM is started with and recorded as,
//! and what is given back when a step fails.

use vstd::prelude::*;
use vstd::string::*;

use crate::env::store_env;
#[allow(unused_imports)]
use crate::env::stored_env;
use crate::error::{
    invalid_argument, CoreError, Resource, StateError, VmmErrorKind,
};
#[allow(unused_imports)]
use crate::error::{string_view, unit_view, ErrorView, StateErrorView};
use crate::ipv4::Ipv4;
#[allow(unused_imports)]
use crate::ipv4::dotted;
use crate::mount::parse_mount_spec;
#[allow(unused_imports)]
use crate::mount::mount_of;
use crate::names::{
    apply_boot_init, looks_like_path, oci_ref_to_catalog_name, validate_host_path,
    validate_network_mode,
};
#[allow(unused_imports)]
use crate::names::{
    catalog_name, host_path_verdict, network_mode_of, path_shaped, some_word_begins, with_boot_init,
};
use crate::policy::IdlePolicyConfig;
use crate::records::{
    BootMode, HostShare, ImageRecord, Lifecycle, ServiceTag, VmConfig, VmInfo, VmRecord, VmmKind,
    VolumeRecord,
};
#[allow(unused_imports)]
use crate::records::{share_views, vmm_name, BootView, ConfigView, ShareView, VmView};
use crate::requests::CreateVmRequest;
#[allow(unused_imports)]
use crate::requests::{pair_views, VmRequestView};
use crate::settings::HuskerCore;
use crate::text::{contains_char, copy_texts, decimal_string, str_eq};
#[allow(unused_imports)]
use crate::text::{
    decimal, decimal_is_digits, decimal_is_injective, has_suffix, is_digit, occurs, occurs_at,
    opt_str_view, opt_view, stands_at_the_end, stands_between, views,
};
use crate::time::Timestamp;

verus! {

// ---------------------------------------------------------------------------
// The backend and the idle policy
// ---------------------------------------------------------------------------

/// The backend that is called `name`.
pub open spec fn backend_named(name: Seq<char>) -> Result<VmmKind, ErrorView> {
    if name == "firecracker"@ {
        Ok(VmmKind::Firecracker)
    } else if name == "qemu"@ {
        Ok(VmmKind::Qemu)
    } else {
        Err(ErrorView::Vmm(VmmErrorKind::UnknownBackend, "unknown VMM backend '"@ + name + "'"@))
    }
}

/// A result over a backend, with the error's texts as sequences of characters.
pub open spec fn backend_view(r: Result<VmmKind, CoreError>) -> Result<VmmKind, ErrorView> {
    match r {
        Ok(k) => Ok(k),
        Err(e) => Err(e@),
    }
}

/// The backend that is called `name`.
pub fn parse_backend(name: &str) -> (r: Result<VmmKind, CoreError>)
    ensures
        backend_view(r) == backend_named(name@),
{
    if str_eq(name, "firecracker") {
        Ok(VmmKind::Firecracker)
    } else if str_eq(name, "qemu") {
        Ok(VmmKind::Qemu)
    } else {
        Err(
            CoreError::Vmm(
                VmmErrorKind::UnknownBackend,
                "unknown VMM backend '".to_owned().concat(name).concat("'"),
            ),
        )
    }
}

/// The backend that a new VM runs on.
pub open spec fn chosen_backend(
    requested: Option<Seq<char>>,
    is_cloud: bool,
    has_host_shares: bool,
    default: VmmKind,
) -> Result<VmmKind, ErrorView> {
    if is_cloud {
        Ok(VmmKind::Qemu)
    } else {
        match requested {
            Some(name) => backend_named(name),
            None => Ok(if has_host_shares { VmmKind::Qemu } else { default }),
        }
    }
}

/// A cloud image runs on QEMU whatever was asked for. Any other VM runs on the backend that
/// was asked for by its name, also with shares; without a name, shares take it to QEMU, and
/// it runs on the daemon's default otherwise. Only an unknown name is refused.
pub proof fn backends_are_chosen_by_need_and_name(
    requested: Option<Seq<char>>,
    is_cloud: bool,
    has_host_shares: bool,
    default: VmmKind,
    kind: VmmKind,
)
    ensures
        is_cloud ==> chosen_backend(requested, is_cloud, has_host_shares, default) == Ok::<
            VmmKind,
            ErrorView,
        >(VmmKind::Qemu),
        !is_cloud && requested is None && has_host_shares ==> chosen_backend(
            requested,
            is_cloud,
            has_host_shares,
            default,
        ) == Ok::<VmmKind, ErrorView>(VmmKind::Qemu),
        !is_cloud && requested is None && !has_host_shares ==> chosen_backend(
            requested,
            is_cloud,
            has_host_shares,
            default,
        ) == Ok::<VmmKind, ErrorView>(default),
        !is_cloud && requested is Some ==> (chosen_backend(
            requested,
            is_cloud,
            has_host_shares,
            default,
        ) == Ok::<VmmKind, ErrorView>(kind) ==> requested == Some(vmm_name(kind))),
        chosen_backend(requested, is_cloud, has_host_shares, default) is Err ==> requested is Some
            && requested != Some("firecracker"@) && requested != Some("qemu"@),
{
    reveal_strlit("firecracker");
    reveal_strlit("qemu");
    assert("firecracker"@.len() != "qemu"@.len());
}

/// Resolve the backend kind to persist for a new VM. Cloud images boot under QEMU
/// only; host shares need QEMU unless a backend was asked for; an omitted backend
/// is the daemon's default.
pub fn resolve_vmm_kind(
    req_vmm: Option<&str>,
    is_cloud: bool,
    has_host_shares: bool,
    default: VmmKind,
) -> (r: Result<VmmKind, CoreError>)
    ensures
        backend_view(r) == chosen_backend(
            opt_str_view(req_vmm),
            is_cloud,
            has_host_shares,
            default,
        ),
{
    if is_cloud {
        return Ok(VmmKind::Qemu);
    }
    match req_vmm {
        Some(s) => parse_backend(s),
        None => Ok(if has_host_shares { VmmKind::Qemu } else { default }),
    }
}

/// What is settled about a VM before any host resource is touched.
#[derive(Debug, Clone, Copy, PartialEq, Eq, Structural)]
pub struct CreatePlan {
    /// The VM hangs directly on the LAN instead of behind the host's NAT.
    pub bridged: bool,
    pub vmm: VmmKind,
    pub idle_timeout_secs: Option<u64>,
    pub suspend_ttl_secs: Option<u64>,
    pub auto_resume: bool,
}

/// The idle window that a request opts into: an explicit one, also one of zero, or
/// the default behind the bare flag.
pub open spec fn idle_window(req: VmRequestView, idle: IdlePolicyConfig) -> Option<u64> {
    if req.idle_timeout_secs is Some {
        req.idle_timeout_secs
    } else if req.idle == Some(true) {
        Some(idle.default_idle_timeout_secs)
    } else {
        None
    }
}

/// The time to live that an opted-in VM is suspended with.
pub open spec fn suspend_ttl(req: VmRequestView, idle: IdlePolicyConfig) -> Option<u64> {
    if req.suspend_ttl_secs is Some {
        req.suspend_ttl_secs
    } else if idle.default_suspend_ttl_secs > 0 {
        Some(idle.default_suspend_ttl_secs)
    } else {
        None
    }
}

/// What is settled about a VM before any host resource is touched, or the first
/// thing that is wrong with the request.
pub open spec fn planned(
    req: VmRequestView,
    has_lan_bridge: bool,
    default_vmm: VmmKind,
    idle: IdlePolicyConfig,
) -> Result<CreatePlan, ErrorView> {
    let mode = network_mode_of(req.network);
    let backend = chosen_backend(
        req.vmm,
        req.cloud_image is Some,
        req.mounts.len() > 0,
        default_vmm,
    );
    let window = idle_window(req, idle);
    if mode is Err {
        Err(mode->Err_0)
    } else if mode->Ok_0 == "bridged"@ && req.cloud_image is None {
        Err(
            ErrorView::InvalidArgument(
                "bridged networking requires --cloud-image (microVM guests have no DHCP client)"@,
            ),
        )
    } else if mode->Ok_0 == "bridged"@ && !has_lan_bridge {
        Err(
            ErrorView::InvalidArgument(
                "bridged networking requires the lan_bridge config option"@,
            ),
        )
    } else if backend is Err {
        Err(backend->Err_0)
    } else if window is Some && backend->Ok_0 != VmmKind::Firecracker {
        Err(
            ErrorView::InvalidArgument(
                "idle policy requires a full-state snapshot backend (firecracker)"@,
            ),
        )
    } else {
        Ok(
            CreatePlan {
                bridged: mode->Ok_0 == "bridged"@,
                vmm: backend->Ok_0,
                idle_timeout_secs: window,
                suspend_ttl_secs: if window is Some { suspend_ttl(req, idle) } else { None },
                auto_resume: if window is Some && req.auto_resume is Some {
                    req.auto_resume->0
                } else if window is Some {
                    idle.default_auto_resume
                } else {
                    true
                },
            },
        )
    }
}

/// A result over a plan, with the error's texts as sequences of characters.
pub open spec fn plan_view(r: Result<CreatePlan, CoreError>) -> Result<CreatePlan, ErrorView> {
    match r {
        Ok(p) => Ok(p),
        Err(e) => Err(e@),
    }
}

fn as_str_opt(o: &Option<String>) -> (r: Option<&str>)
    ensures
        opt_str_view(r) == opt_view(*o),
{
    match o {
        Some(s) => Some(s.as_str()),
        None => None,
    }
}

/// Settle everything about a VM that can be settled before a host resource is
/// touched.
pub fn plan_create(core: &HuskerCore, req: &CreateVmRequest) -> (r: Result<CreatePlan, CoreError>)
    ensures
        plan_view(r) == planned(
            req@,
            core.lan_bridge is Some,
            core.default_vmm_kind,
            core.idle_policy,
        ),
{
    let mode = match validate_network_mode(as_str_opt(&req.network)) {
        Ok(m) => m,
        Err(e) => { return Err(e); },
    };
    let bridged = str_eq(mode, "bridged");
    if bridged {
        if req.cloud_image.is_none() {
            return Err(
                invalid_argument(
                    "bridged networking requires --cloud-image (microVM guests have no DHCP client)",
                ),
            );
        }
        if core.lan_bridge.is_none() {
            return Err(
                invalid_argument("bridged networking requires the lan_bridge config option"),
            );
        }
    }
    let vmm = match resolve_vmm_kind(
        as_str_opt(&req.vmm),
        req.cloud_image.is_some(),
        req.mounts.len() > 0,
        core.default_vmm_kind,
    ) {
        Ok(k) => k,
        Err(e) => { return Err(e); },
    };
    let idle_timeout_secs: Option<u64> = match req.idle_timeout_secs {
        Some(t) => Some(t),
        None => match req.idle {
            Some(true) => Some(core.idle_policy.default_idle_timeout_secs),
            _ => None,
        },
    };
    if idle_timeout_secs.is_some() && vmm != VmmKind::Firecracker {
        return Err(
            invalid_argument("idle policy requires a full-state snapshot backend (firecracker)"),
        );
    }
    if idle_timeout_secs.is_none() {
        return Ok(
            CreatePlan {
                bridged,
                vmm,
                idle_timeout_secs: None,
                suspend_ttl_secs: None,
                auto_resume: true,
            },
        );
    }
    let suspend_ttl_secs: Option<u64> = match req.suspend_ttl_secs {
        Some(t) => Some(t),
        None => if core.idle_policy.default_suspend_ttl_secs > 0 {
            Some(core.idle_policy.default_suspend_ttl_secs)
        } else {
            None
        },
    };
    let auto_resume = match req.auto_resume {
        Some(a) => a,
        None => core.idle_policy.default_auto_resume,
    };
    Ok(CreatePlan { bridged, vmm, idle_timeout_secs, suspend_ttl_secs, auto_resume })
}

/// Whatever is planned holds together: an idle policy only on a backend that can
/// capture full state, a bridged VM only from a cloud image, a cloud image only
/// under QEMU, and no time to live without an idle policy.
pub proof fn plans_hold_together(
    req: VmRequestView,
    has_lan_bridge: bool,
    default_vmm: VmmKind,
    idle: IdlePolicyConfig,
)
    requires
        planned(req, has_lan_bridge, default_vmm, idle) is Ok,
    ensures
        ({
            let plan = planned(req, has_lan_bridge, default_vmm, idle)->Ok_0;
            &&& plan.idle_timeout_secs is Some ==> plan.vmm == VmmKind::Firecracker
            &&& plan.bridged ==> req.cloud_image is Some && has_lan_bridge
            &&& req.cloud_image is Some ==> plan.vmm == VmmKind::Qemu
            &&& plan.idle_timeout_secs is None ==> plan.suspend_ttl_secs is None
                && plan.auto_resume
        }),
{
}

/// What a request says about a VM's idle policy is kept: an explicit window, also one of
/// zero, is the VM's window, and only the bare flag brings in the daemon's default. So it
/// is with the time to live and with waking up, which matter to an opted-in VM alone.
pub proof fn explicit_idle_settings_win(
    req: VmRequestView,
    has_lan_bridge: bool,
    default_vmm: VmmKind,
    idle: IdlePolicyConfig,
)
    requires
        planned(req, has_lan_bridge, default_vmm, idle) is Ok,
    ensures
        ({
            let plan = planned(req, has_lan_bridge, default_vmm, idle)->Ok_0;
            &&& req.idle_timeout_secs is Some ==> plan.idle_timeout_secs == req.idle_timeout_secs
            &&& req.idle_timeout_secs is None && req.idle == Some(true) ==> plan.idle_timeout_secs
                == Some(idle.default_idle_timeout_secs)
            &&& req.idle_timeout_secs is None && req.idle != Some(true) ==> plan.idle_timeout_secs
                is None
            &&& plan.idle_timeout_secs is Some && req.suspend_ttl_secs is Some
                ==> plan.suspend_ttl_secs == req.suspend_ttl_secs
            &&& plan.idle_timeout_secs is Some && req.suspend_ttl_secs is None
                && idle.default_suspend_ttl_secs != 0 ==> plan.suspend_ttl_secs == Some(
                idle.default_suspend_ttl_secs,
            )
            &&& plan.idle_timeout_secs is Some && req.suspend_ttl_secs is None
                && idle.default_suspend_ttl_secs == 0 ==> plan.suspend_ttl_secs is None
            &&& plan.idle_timeout_secs is Some ==> (plan.auto_resume <==> (req.auto_resume == Some(
                true,
            ) || req.auto_resume is None && idle.default_auto_resume))
        }),
{
}

/// A VM runs on the backend that was asked for by name, and hangs on the LAN exactly where
/// that was asked for. Without a name, shares bring it to QEMU, and nothing else takes it
/// from the daemon's own backend.
pub proof fn plans_follow_the_request(
    req: VmRequestView,
    has_lan_bridge: bool,
    default_vmm: VmmKind,
    idle: IdlePolicyConfig,
)
    requires
        planned(req, has_lan_bridge, default_vmm, idle) is Ok,
    ensures
        ({
            let plan = planned(req, has_lan_bridge, default_vmm, idle)->Ok_0;
            &&& plan.bridged <==> req.network == Some("bridged"@)
            &&& !plan.bridged <==> req.network is None || req.network == Some("nat"@)
            &&& req.cloud_image is None && req.vmm is Some ==> vmm_name(plan.vmm) == req.vmm->0
            &&& req.cloud_image is None && req.vmm is None && req.mounts.len() > 0 ==> plan.vmm
                == VmmKind::Qemu
            &&& req.cloud_image is None && req.vmm is None && req.mounts.len() == 0 ==> plan.vmm
                == default_vmm
        }),
{
    reveal_strlit("bridged");
    reveal_strlit("nat");
    assert("nat"@.len() != "bridged"@.len());
}

/// A request is refused for cause, and for no other reason: a network mode that nobody
/// knows, a bridge without a cloud image or without a LAN to bridge to, a backend that
/// nobody knows, or an idle policy where the VM would not run on Firecracker.
pub proof fn plans_are_refused_for_cause(
    req: VmRequestView,
    has_lan_bridge: bool,
    default_vmm: VmmKind,
    idle: IdlePolicyConfig,
)
    ensures
        ({
            let cloud = req.cloud_image is Some;
            let bridged = req.network == Some("bridged"@);
            let firecracker = !cloud && (req.vmm == Some("firecracker"@) || req.vmm is None
                && req.mounts.len() == 0 && default_vmm == VmmKind::Firecracker);
            planned(req, has_lan_bridge, default_vmm, idle) is Err <==> {
                ||| req.network is Some && !bridged && req.network != Some("nat"@)
                ||| bridged && !cloud
                ||| bridged && !has_lan_bridge
                ||| !cloud && req.vmm is Some && req.vmm != Some("firecracker"@) && req.vmm != Some(
                    "qemu"@,
                )
                ||| (req.idle_timeout_secs is Some || req.idle == Some(true)) && !firecracker
            }
        }),
{
    reveal_strlit("bridged");
    reveal_strlit("nat");
    reveal_strlit("firecracker");
    reveal_strlit("qemu");
    assert("nat"@.len() != "bridged"@.len());
    assert("firecracker"@.len() != "qemu"@.len());
}

/// Every backend is known by the name that it is recorded under, and no two share one.
pub proof fn backends_are_known_by_their_names(kind: VmmKind, name: Seq<char>)
    ensures
        backend_named(vmm_name(kind)) == Ok::<VmmKind, ErrorView>(kind),
        backend_named(name) matches Ok(k) ==> vmm_name(k) == name,
        backend_named(name) matches Err(e) ==> e is Vmm && e->Vmm_0 == VmmErrorKind::UnknownBackend,
        vmm_name(VmmKind::Firecracker) == "firecracker"@,
        vmm_name(VmmKind::Qemu) == "qemu"@,
{
    reveal_strlit("firecracker");
    reveal_strlit("qemu");
    assert("firecracker"@.len() != "qemu"@.len());
}

// ---------------------------------------------------------------------------
// The name, the kernel and the rootfs
// ---------------------------------------------------------------------------

/// What becomes of a VM that has the requested name, by the stage that it is in.
pub open spec fn replacement(name: Seq<char>, existing: Option<Lifecycle>, allowed: bool) -> Result<
    bool,
    ErrorView,
> {
    match existing {
        None => Ok(false),
        Some(stage) => if allowed && (stage == Lifecycle::Stopped || stage == Lifecycle::Failed) {
            Ok(true)
        } else {
            Err(ErrorView::VmAlreadyExists(name))
        },
    }
}

/// A result over a flag, with the error's texts as sequences of characters.
pub open spec fn flag_view(r: Result<bool, CoreError>) -> Result<bool, ErrorView> {
    match r {
        Ok(b) => Ok(b),
        Err(e) => Err(e@),
    }
}

/// Only what has ended makes way, and only where the caller allows it. A free name needs
/// no way made, and a VM that may still live never loses its name.
pub proof fn living_vms_keep_their_names(
    name: Seq<char>,
    existing: Option<Lifecycle>,
    allowed: bool,
)
    ensures
        existing is None ==> replacement(name, existing, allowed) == Ok::<bool, ErrorView>(false),
        replacement(name, existing, allowed) == Ok::<bool, ErrorView>(true) <==> allowed && (existing
            == Some(Lifecycle::Stopped) || existing == Some(Lifecycle::Failed)),
        existing is Some && !allowed ==> replacement(name, existing, allowed) == Err::<
            bool,
            ErrorView,
        >(ErrorView::VmAlreadyExists(name)),
        existing is Some && replacement(name, existing, allowed) is Ok ==> replacement(
            name,
            existing,
            allowed,
        )->Ok_0,
{
}

/// Whether a VM that has the requested name makes way: a stopped or failed one
/// does where the caller allows it (`true`: destroy it first), any other stays.
pub fn replace_existing(
    name: &str,
    existing: Option<&VmRecord>,
    replace_existing_stopped: bool,
) -> (r: Result<bool, CoreError>)
    ensures
        flag_view(r) == replacement(
            name@,
            match existing {
                Some(vm) => Some(vm.stage()),
                None => None,
            },
            replace_existing_stopped,
        ),
{
    match existing {
        None => Ok(false),
        Some(vm) => {
            let stage = vm.lifecycle();
            if replace_existing_stopped && (stage == Lifecycle::Stopped || stage
                == Lifecycle::Failed) {
                Ok(true)
            } else {
                Err(CoreError::VmAlreadyExists(name.to_owned()))
            }
        },
    }
}

/// A request with the daemon's own kernel and rootfs where it names none. Cloud
/// images bring their own.
pub open spec fn with_defaults(
    req: VmRequestView,
    kernel: Option<Seq<char>>,
    rootfs: Option<Seq<char>>,
) -> VmRequestView {
    if req.cloud_image is Some {
        req
    } else {
        VmRequestView {
            kernel_path: if req.kernel_path is Some { req.kernel_path } else { kernel },
            rootfs_path: if req.rootfs_path is Some { req.rootfs_path } else { rootfs },
            ..req
        }
    }
}

/// Fill daemon defaults for any path the client omitted.
pub fn fill_defaults(core: &HuskerCore, req: CreateVmRequest) -> (r: CreateVmRequest)
    ensures
        r@ == with_defaults(
            req@,
            opt_view(core.default_kernel),
            opt_view(core.default_rootfs),
        ),
{
    let mut r = req;
    if r.cloud_image.is_none() {
        if r.kernel_path.is_none() {
            r.kernel_path = core.default_kernel.clone();
        }
        if r.rootfs_path.is_none() {
            r.rootfs_path = core.default_rootfs.clone();
        }
    }
    r
}

/// What is wrong with the files that a request boots from, if anything.
pub open spec fn boot_files_verdict(req: VmRequestView) -> Result<(), ErrorView> {
    if req.cloud_image is Some {
        Ok(())
    } else if req.kernel_path is None {
        Err(
            ErrorView::InvalidArgument(
                "no kernel specified and the daemon has no default kernel; pass --kernel, or run `husker images pull` on the daemon host"@,
            ),
        )
    } else if req.rootfs_path is None {
        Err(
            ErrorView::InvalidArgument(
                "no rootfs specified and the daemon has no default rootfs; pass a rootfs path, or run `husker images pull` on the daemon host"@,
            ),
        )
    } else {
        Ok(())
    }
}

/// What is wrong with the files that a direct-kernel disk is prepared from, if anything.
pub open spec fn direct_paths_verdict(req: VmRequestView) -> Result<(), ErrorView> {
    if req.rootfs_path is None {
        Err(ErrorView::InvalidArgument("rootfs_path is required for direct-kernel boot"@))
    } else if req.kernel_path is None {
        Err(ErrorView::InvalidArgument("kernel_path is required for direct-kernel boot"@))
    } else {
        Ok(())
    }
}

/// A VM boots from a cloud image, or from a kernel and a rootfs that are both known: by the
/// request itself, or by the daemon that filled in its defaults. What passes the first check
/// passes the second.
pub proof fn vms_boot_from_known_files(
    req: VmRequestView,
    kernel: Option<Seq<char>>,
    rootfs: Option<Seq<char>>,
)
    ensures
        boot_files_verdict(req) is Ok <==> req.cloud_image is Some || req.kernel_path is Some
            && req.rootfs_path is Some,
        direct_paths_verdict(req) is Ok <==> req.kernel_path is Some && req.rootfs_path is Some,
        boot_files_verdict(req) matches Err(e) ==> e is InvalidArgument,
        direct_paths_verdict(req) matches Err(e) ==> e is InvalidArgument,
        boot_files_verdict(with_defaults(req, kernel, rootfs)) is Ok <==> req.cloud_image is Some
            || (req.kernel_path is Some || kernel is Some) && (req.rootfs_path is Some || rootfs
            is Some),
{
}

/// Reject a direct-kernel boot without a kernel or without a rootfs.
pub fn require_boot_files(req: &CreateVmRequest) -> (r: Result<(), CoreError>)
    ensures
        unit_view(r) == boot_files_verdict(req@),
{
    if req.cloud_image.is_some() {
        return Ok(());
    }
    if req.kernel_path.is_none() {
        return Err(
            invalid_argument(
                "no kernel specified and the daemon has no default kernel; pass --kernel, or run `husker images pull` on the daemon host",
            ),
        );
    }
    if req.rootfs_path.is_none() {
        return Err(
            invalid_argument(
                "no rootfs specified and the daemon has no default rootfs; pass a rootfs path, or run `husker images pull` on the daemon host",
            ),
        );
    }
    Ok(())
}

/// Reject a direct-kernel boot whose rootfs or kernel is still not known when its
/// disk is prepared.
pub fn require_direct_paths(req: &CreateVmRequest) -> (r: Result<(), CoreError>)
    ensures
        unit_view(r) == direct_paths_verdict(req@),
{
    if req.rootfs_path.is_none() {
        return Err(invalid_argument("rootfs_path is required for direct-kernel boot"));
    }
    if req.kernel_path.is_none() {
        return Err(invalid_argument("kernel_path is required for direct-kernel boot"));
    }
    Ok(())
}

/// What a rootfs argument leads to.
#[derive(Debug)]
pub enum RootfsSource {
    /// A file on the host.
    File(String),
    /// An image that is imported first, under this catalog name.
    Import { name: String, reference: String },
}

/// A [`RootfsSource`] with its texts as sequences of characters.
pub ghost enum RootfsSourceView {
    File(Seq<char>),
    Import { name: Seq<char>, reference: Seq<char> },
}

impl View for RootfsSource {
    type V = RootfsSourceView;

    open spec fn view(&self) -> RootfsSourceView {
        match *self {
            RootfsSource::File(p) => RootfsSourceView::File(p@),
            RootfsSource::Import { name, reference } => RootfsSourceView::Import {
                name: name@,
                reference: reference@,
            },
        }
    }
}

/// What a rootfs argument leads to: an existing or path-shaped one to the file
/// itself, the name of a catalog image to that image's file, an OCI reference to
/// the image that was imported from it before or is imported now.
pub open spec fn rootfs_source(
    arg: Seq<char>,
    is_file: bool,
    named: Option<Seq<char>>,
    imported: Option<Seq<char>>,
) -> Result<RootfsSourceView, ErrorView> {
    if is_file || path_shaped(arg) {
        Ok(RootfsSourceView::File(arg))
    } else if named is Some {
        Ok(RootfsSourceView::File(named->0))
    } else if arg.contains(':') || arg.contains('/') {
        Ok(
            match imported {
                Some(file) => RootfsSourceView::File(file),
                None => RootfsSourceView::Import { name: catalog_name(arg), reference: arg },
            },
        )
    } else {
        Err(
            ErrorView::InvalidArgument(
                "'"@ + arg
                    + "' is not a rootfs path, a catalog image, or an OCI reference; pass a path, a catalog image name, or a reference like 'repo:tag'"@,
            ),
        )
    }
}

/// The view of where a rootfs argument leads.
pub open spec fn rootfs_source_view(r: Result<RootfsSource, CoreError>) -> Result<
    RootfsSourceView,
    ErrorView,
> {
    match r {
        Ok(s) => Ok(s@),
        Err(e) => Err(e@),
    }
}

/// Resolve a `run`/`job` rootfs argument. `named` is the file of the catalog image
/// called `arg`, `imported` that of the one called by the argument's catalog name.
pub fn resolve_rootfs_arg(
    arg: &str,
    is_file: bool,
    named: Option<String>,
    imported: Option<String>,
) -> (r: Result<RootfsSource, CoreError>)
    ensures
        rootfs_source_view(r) == rootfs_source(arg@, is_file, opt_view(named), opt_view(imported)),
{
    if is_file || looks_like_path(arg) {
        return Ok(RootfsSource::File(arg.to_owned()));
    }
    match named {
        Some(file) => Ok(RootfsSource::File(file)),
        None => {
            if contains_char(arg, ':') || contains_char(arg, '/') {
                match imported {
                    Some(file) => Ok(RootfsSource::File(file)),
                    None => Ok(
                        RootfsSource::Import {
                            name: oci_ref_to_catalog_name(arg),
                            reference: arg.to_owned(),
                        },
                    ),
                }
            } else {
                Err(
                    CoreError::InvalidArgument(
                        "'".to_owned().concat(arg).concat(
                            "' is not a rootfs path, a catalog image, or an OCI reference; pass a path, a catalog image name, or a reference like 'repo:tag'",
                        ),
                    ),
                )
            }
        },
    }
}

// ---------------------------------------------------------------------------
// Volumes, cloud images, initrds and mounts
// ---------------------------------------------------------------------------

/// The name and the file of the volume that a request attaches, from what looking
/// it up by name gave.
pub open spec fn attachment(name: Seq<char>, found: Result<VolumeRecord, StateError>) -> Result<
    (Seq<char>, Seq<char>),
    ErrorView,
> {
    match found {
        Ok(v) => Ok((v.name@, v.file_path@)),
        Err(e) => Err(
            if e@ == StateErrorView::NotFoundByName(Resource::Volume) {
                ErrorView::InvalidArgument("volume '"@ + name + "' not found"@)
            } else {
                ErrorView::State(e@)
            },
        ),
    }
}

/// A result over two texts, with the texts as sequences of characters.
pub open spec fn two_texts_view(r: Result<(String, String), CoreError>) -> Result<
    (Seq<char>, Seq<char>),
    ErrorView,
> {
    match r {
        Ok((a, b)) => Ok((a@, b@)),
        Err(e) => Err(e@),
    }
}

/// A volume is attached by its own name and file. One that nobody knows is a fault of the
/// request, which is told its name; any other failure is the store's.
pub proof fn volumes_are_attached_as_recorded(
    name: Seq<char>,
    found: Result<VolumeRecord, StateError>,
)
    ensures
        ({
            let r = attachment(name, found);
            &&& r is Ok <==> found is Ok
            &&& found matches Ok(v) ==> r->Ok_0.0 == v.name@ && r->Ok_0.1 == v.file_path@
            &&& found matches Err(e) ==> if e@ == StateErrorView::NotFoundByName(Resource::Volume) {
                r->Err_0 is InvalidArgument && occurs(r->Err_0->InvalidArgument_0, name)
            } else {
                r->Err_0 == ErrorView::State(e@)
            }
        }),
{
    stands_between("volume '"@, name, "' not found"@);
}

/// What is wrong with attaching a volume that this VM holds already, if one does.
pub open spec fn holder_verdict(volume: Seq<char>, holder: Option<Seq<char>>) -> Result<
    (),
    ErrorView,
> {
    match holder {
        Some(vm) => Err(
            ErrorView::InvalidArgument(
                "volume '"@ + volume + "' is already attached to VM '"@ + vm + "'"@,
            ),
        ),
        None => Ok(()),
    }
}

/// A volume is attached exactly where no VM holds it; the refusal names both.
pub proof fn held_volumes_are_not_attached(volume: Seq<char>, holder: Option<Seq<char>>)
    ensures
        holder_verdict(volume, holder) is Ok <==> holder is None,
        holder matches Some(vm) ==> holder_verdict(volume, holder)->Err_0 is InvalidArgument
            && occurs(holder_verdict(volume, holder)->Err_0->InvalidArgument_0, volume) && occurs(
            holder_verdict(volume, holder)->Err_0->InvalidArgument_0,
            vm,
        ),
{
    if holder is Some {
        let vm = holder->0;
        let text = holder_verdict(volume, holder)->Err_0->InvalidArgument_0;
        stands_between("volume '"@, volume, "' is already attached to VM '"@ + vm + "'"@);
        assert(text =~= "volume '"@ + volume + ("' is already attached to VM '"@ + vm + "'"@));
        stands_between("volume '"@ + volume + "' is already attached to VM '"@, vm, "'"@);
    }
}

/// The name and the file of the volume that a request attaches, from what looking
/// it up by name gave.
pub fn volume_attachment(name: &str, found: Result<VolumeRecord, StateError>) -> (r: Result<
    (String, String),
    CoreError,
>)
    ensures
        two_texts_view(r) == attachment(name@, found),
{
    match found {
        Ok(v) => Ok((v.name, v.file_path)),
        Err(StateError::NotFoundByName(Resource::Volume)) => Err(
            CoreError::InvalidArgument("volume '".to_owned().concat(name).concat("' not found")),
        ),
        Err(other) => Err(CoreError::State(other)),
    }
}

/// A volume is attached to one VM at most: reject it while another VM holds it.
pub fn require_unattached(volume: &str, holder: Option<&str>) -> (r: Result<(), CoreError>)
    ensures
        unit_view(r) == holder_verdict(volume@, opt_str_view(holder)),
{
    match holder {
        Some(vm) => Err(
            CoreError::InvalidArgument(
                "volume '".to_owned().concat(volume).concat("' is already attached to VM '").concat(
                    vm,
                ).concat("'"),
            ),
        ),
        None => Ok(()),
    }
}

/// The file that a request boots as a cloud image: an existing file of that path wins;
/// otherwise it is that of a catalog image, from what looking it up by name gave.
pub open spec fn cloud_image_file(
    image: Seq<char>,
    exists: bool,
    found: Result<ImageRecord, StateError>,
) -> Result<Seq<char>, ErrorView> {
    match found {
        _ if exists => Ok(image),
        Ok(rec) => if rec.kind@ == "cloud-image"@ {
            Ok(rec.file_path@)
        } else {
            Err(
                ErrorView::InvalidArgument(
                    "catalog image '"@ + image + "' has kind '"@ + rec.kind@
                        + "', not 'cloud-image'"@,
                ),
            )
        },
        Err(e) => if e@ == StateErrorView::NotFoundByName(Resource::Image) {
            Err(
                ErrorView::InvalidArgument(
                    "cloud image '"@ + image
                        + "' is neither an existing file nor a catalog image (register one with `husker image import --kind cloud-image`)"@,
                ),
            )
        } else {
            Err(ErrorView::State(e@))
        },
    }
}

/// Resolve a cloud-image argument: an existing file, or else the name of a catalog
/// image of kind "cloud-image".
pub fn resolve_cloud_image(
    image: &str,
    exists: bool,
    found: Result<ImageRecord, StateError>,
) -> (r: Result<String, CoreError>)
    ensures
        string_view(r) == cloud_image_file(image@, exists, found),
{
    if exists {
        return Ok(image.to_owned());
    }
    match found {
        Ok(rec) => {
            if str_eq(rec.kind.as_str(), "cloud-image") {
                Ok(rec.file_path)
            } else {
                Err(
                    CoreError::InvalidArgument(
                        "catalog image '".to_owned().concat(image).concat("' has kind '").concat(
                            rec.kind.as_str(),
                        ).concat("', not 'cloud-image'"),
                    ),
                )
            }
        },
        Err(StateError::NotFoundByName(Resource::Image)) => Err(
            CoreError::InvalidArgument(
                "cloud image '".to_owned().concat(image).concat(
                    "' is neither an existing file nor a catalog image (register one with `husker image import --kind cloud-image`)",
                ),
            ),
        ),
        Err(other) => Err(CoreError::State(other)),
    }
}

/// What is wrong with booting a cloud image, if anything.
pub open spec fn cloud_boot_verdict(vmm: Option<Seq<char>>, agent_present: bool) -> Result<
    (),
    ErrorView,
> {
    if vmm is Some && backend_named(vmm->0) is Err {
        Err(backend_named(vmm->0)->Err_0)
    } else if vmm is Some && backend_named(vmm->0) != Ok::<VmmKind, ErrorView>(VmmKind::Qemu) {
        Err(ErrorView::InvalidArgument("cloud-image boot requires the QEMU backend (--vmm qemu)"@))
    } else if !agent_present {
        Err(
            ErrorView::InvalidArgument(
                "cloud-image support needs the embedded guest agent; build the daemon with `make build-agent` (or set HUSKER_EMBED_AGENT_BIN) first"@,
            ),
        )
    } else {
        Ok(())
    }
}

/// A cloud image boots where the daemon has an agent for its seed and nobody asked for
/// another backend than QEMU, and nowhere else.
pub proof fn cloud_images_boot_under_qemu_with_an_agent(
    vmm: Option<Seq<char>>,
    agent_present: bool,
)
    ensures
        cloud_boot_verdict(vmm, agent_present) is Ok <==> agent_present && (vmm is None || vmm
            == Some("qemu"@)),
        vmm == Some("firecracker"@) ==> cloud_boot_verdict(vmm, agent_present)->Err_0
            is InvalidArgument,
{
    reveal_strlit("firecracker");
    reveal_strlit("qemu");
    assert("firecracker"@.len() != "qemu"@.len());
}

/// What a cloud image needs before its disk is prepared: no other backend asked
/// for than QEMU, and a guest agent to put into the seed.
pub fn check_cloud_boot(req_vmm: Option<&str>, agent_present: bool) -> (r: Result<(), CoreError>)
    ensures
        unit_view(r) == cloud_boot_verdict(opt_str_view(req_vmm), agent_present),
{
    if let Some(v) = req_vmm {
        match parse_backend(v) {
            Ok(kind) => {
                if kind != VmmKind::Qemu {
                    return Err(
                        invalid_argument("cloud-image boot requires the QEMU backend (--vmm qemu)"),
                    );
                }
            },
            Err(e) => { return Err(e); },
        }
    }
    if !agent_present {
        return Err(
            invalid_argument(
                "cloud-image support needs the embedded guest agent; build the daemon with `make build-agent` (or set HUSKER_EMBED_AGENT_BIN) first",
            ),
        );
    }
    Ok(())
}

/// The boot mode of a prepared cloud disk with this firmware.
pub open spec fn uefi_with(code: Seq<char>, vars: Seq<char>) -> BootView {
    BootView::Uefi { ovmf_code: code, ovmf_vars_template: vars }
}

/// Firmware code is taken for code, and the template of its variables for that.
pub proof fn firmware_is_not_mixed_up(code: Seq<char>, vars: Seq<char>)
    ensures
        uefi_with(code, vars) matches BootView::Uefi { ovmf_code, ovmf_vars_template } && ovmf_code
            == code && ovmf_vars_template == vars,
{
}

/// The boot mode of a prepared cloud disk, or the complaint that the firmware is
/// not on the host.
pub fn uefi_boot(
    ovmf_code: &str,
    code_exists: bool,
    ovmf_vars_template: &str,
    vars_exists: bool,
) -> (r: Result<BootMode, CoreError>)
    ensures
        code_exists && vars_exists ==> r is Ok && r->Ok_0@ == uefi_with(
            ovmf_code@,
            ovmf_vars_template@,
        ),
        !(code_exists && vars_exists) ==> r is Err && r->Err_0@ == ErrorView::InvalidArgument(
            "OVMF firmware missing (need "@ + ovmf_code@ + " and "@ + ovmf_vars_template@
                + "); install the host OVMF package"@,
        ),
{
    if !code_exists || !vars_exists {
        return Err(
            CoreError::InvalidArgument(
                "OVMF firmware missing (need ".to_owned().concat(ovmf_code).concat(" and ").concat(
                    ovmf_vars_template,
                ).concat("); install the host OVMF package"),
            ),
        );
    }
    Ok(
        BootMode::Uefi {
            ovmf_code: ovmf_code.to_owned(),
            ovmf_vars_template: ovmf_vars_template.to_owned(),
        },
    )
}

/// How the booting rootfs wants to be started: as the first catalog image that has
/// this file says.
pub open spec fn boot_init_for(images: Seq<ImageRecord>, rootfs: Seq<char>) -> Option<Seq<char>>
    decreases images.len(),
{
    if images.len() == 0 {
        None
    } else if images[0].file_path@ == rootfs {
        opt_view(images[0].boot_init)
    } else {
        boot_init_for(images.skip(1), rootfs)
    }
}

/// How the booting rootfs wants to be started, by the catalog.
pub fn find_boot_init(images: &Vec<ImageRecord>, rootfs: &str) -> (r: Option<String>)
    ensures
        opt_view(r) == boot_init_for(images@, rootfs@),
{
    let mut i: usize = 0;
    proof {
        assert(images@.skip(0) == images@);
    }
    while i < images.len()
        invariant
            i <= images@.len(),
            boot_init_for(images@.skip(i as int), rootfs@) == boot_init_for(images@, rootfs@),
        decreases images.len() - i,
    {
        if str_eq(images[i].file_path.as_str(), rootfs) {
            return images[i].boot_init.clone();
        }
        proof {
            assert(images@.skip(i as int).skip(1) == images@.skip(i + 1));
        }
        i += 1;
    }
    None
}

/// The initrd that a VM boots with: the one that was asked for, else the daemon's
/// default where it exists, else the conventional one where it exists.
pub open spec fn chosen_initrd(
    explicit: Option<Seq<char>>,
    default: Option<Seq<char>>,
    default_exists: bool,
    conventional: Seq<char>,
    conventional_exists: bool,
) -> Option<Seq<char>> {
    if explicit is Some {
        explicit
    } else if default is Some && default_exists {
        default
    } else if conventional_exists {
        Some(conventional)
    } else {
        None
    }
}

/// The initrd that a VM boots with.
pub fn resolve_initrd(
    explicit: &Option<String>,
    default: &Option<String>,
    default_exists: bool,
    conventional: &str,
    conventional_exists: bool,
) -> (r: Option<String>)
    ensures
        opt_view(r) == chosen_initrd(
            opt_view(*explicit),
            opt_view(*default),
            default_exists,
            conventional@,
            conventional_exists,
        ),
{
    if explicit.is_some() {
        return explicit.clone();
    }
    if default.is_some() && default_exists {
        return default.clone();
    }
    if conventional_exists {
        Some(conventional.to_owned())
    } else {
        None
    }
}

/// What the mount specs come to: the shares in order, or what is wrong with the
/// first one that cannot be had. `links[i]` tells whether the i-th host path is a
/// symlink.
pub open spec fn shares_of(specs: Seq<Seq<char>>, links: Seq<bool>) -> Result<
    Seq<ShareView>,
    ErrorView,
>
    decreases specs.len(),
{
    if specs.len() == 0 {
        Ok(Seq::empty())
    } else {
        let head = shares_of(specs.drop_last(), links);
        let i = specs.len() - 1;
        let last = mount_of(specs.last(), i as nat);
        if head is Err {
            head
        } else if last is Err {
            Err(ErrorView::InvalidArgument(last->Err_0))
        } else {
            let verdict = host_path_verdict("mount"@, last->Ok_0.host, links[i]);
            if verdict is Err {
                Err(verdict->Err_0)
            } else {
                Ok(head->Ok_0.push(last->Ok_0))
            }
        }
    }
}

proof fn faulty_prefix_is_faulty(specs: Seq<Seq<char>>, links: Seq<bool>, n: int)
    requires
        0 <= n <= specs.len(),
        shares_of(specs.take(n), links) is Err,
    ensures
        shares_of(specs, links) == shares_of(specs.take(n), links),
    decreases specs.len(),
{
    if n < specs.len() {
        assert(specs.drop_last().take(n) == specs.take(n));
        faulty_prefix_is_faulty(specs.drop_last(), links, n);
    } else {
        assert(specs.take(n) == specs);
    }
}

/// Parse and validate the host-mount specs of a request.
pub fn parse_mounts(specs: &Vec<String>, links: &Vec<bool>) -> (r: Result<
    Vec<HostShare>,
    CoreError,
>)
    requires
        links@.len() == specs@.len(),
    ensures
        match r {
            Ok(v) => shares_of(views(specs@), links@) == Ok::<Seq<ShareView>, ErrorView>(
                share_views(v@),
            ),
            Err(e) => shares_of(views(specs@), links@) == Err::<Seq<ShareView>, ErrorView>(e@),
        },
{
    let mut shares: Vec<HostShare> = Vec::new();
    let mut i: usize = 0;
    proof {
        assert(share_views(shares@) =~= Seq::empty());
        assert(views(specs@).take(0) =~= Seq::empty());
    }
    while i < specs.len()
        invariant
            i <= specs@.len() == links@.len(),
            shares_of(views(specs@).take(i as int), links@) == Ok::<Seq<ShareView>, ErrorView>(
                share_views(shares@),
            ),
        decreases specs.len() - i,
    {
        proof {
            let head = views(specs@).take(i + 1);
            assert(head.drop_last() == views(specs@).take(i as int));
            assert(head.last() == specs@[i as int]@);
            assert(head.len() - 1 == i);
        }
        let share = match parse_mount_spec(specs[i].as_str(), i) {
            Ok(s) => s,
            Err(m) => {
                proof {
                    faulty_prefix_is_faulty(views(specs@), links@, i + 1);
                }
                return Err(CoreError::InvalidArgument(m));
            },
        };
        match validate_host_path("mount", share.host.as_str(), links[i]) {
            Ok(_) => {},
            Err(e) => {
                proof {
                    faulty_prefix_is_faulty(views(specs@), links@, i + 1);
                }
                return Err(e);
            },
        }
        let ghost before = share_views(shares@);
        shares.push(share);
        proof {
            assert(share_views(shares@) =~= before.push(share@));
        }
        i += 1;
    }
    proof {
        assert(views(specs@).take(specs@.len() as int) == views(specs@));
    }
    Ok(shares)
}

// ---------------------------------------------------------------------------
// What the VM is started with, and what it is recorded as
// ---------------------------------------------------------------------------

/// The host-side identity of a VM.
#[derive(Debug)]
pub struct HostIdentity {
    pub cid: u32,
    pub mac: String,
    /// The address behind the host's NAT; a bridged VM has none.
    pub guest_ip: Option<Ipv4>,
    pub gateway: Ipv4,
    pub netmask: Ipv4,
}

/// The TAP device of the VM with this id.
pub open spec fn tap_of(cid: u32) -> Seq<char> {
    "husker"@ + decimal(cid as nat)
}

/// The TAP device of the VM with this id.
pub fn tap_name(cid: u32) -> (r: String)
    ensures
        r@ == tap_of(cid),
{
    "husker".to_owned().concat(decimal_string(cid as u64).as_str())
}

/// The bridge that a VM's TAP is attached to.
pub open spec fn bridge_of(core: HuskerCore, plan: CreatePlan) -> Seq<char> {
    if plan.bridged { core.lan_bridge->0@ } else { core.bridge_name@ }
}

/// A VM that asked for the LAN hangs on the LAN's bridge, and no other does.
pub proof fn vms_hang_on_the_bridge_they_asked_for(core: HuskerCore, plan: CreatePlan)
    requires
        plan.bridged ==> core.lan_bridge is Some,
    ensures
        plan.bridged ==> Some(bridge_of(core, plan)) == opt_view(core.lan_bridge),
        !plan.bridged ==> bridge_of(core, plan) == core.bridge_name@,
{
}

/// The bridge that a VM's TAP is attached to.
pub fn bridge_for<'a>(core: &'a HuskerCore, plan: &CreatePlan) -> (r: &'a str)
    requires
        plan.bridged ==> core.lan_bridge is Some,
    ensures
        r@ == bridge_of(*core, *plan),
{
    if plan.bridged {
        match &core.lan_bridge {
            Some(b) => b.as_str(),
            None => core.bridge_name.as_str(),
        }
    } else {
        core.bridge_name.as_str()
    }
}

/// The static network that a cloud image is told of at its first boot.
#[derive(Debug)]
pub struct SeedNetwork {
    pub address: Ipv4,
    pub prefix_len: u8,
    pub gateway: Ipv4,
    pub dns: Vec<String>,
}

/// What a cloud-init seed is made from.
#[derive(Debug)]
pub struct SeedSpec {
    pub agent: Vec<u8>,
    pub hostname: String,
    pub instance_id: String,
    pub ssh_authorized_keys: Vec<String>,
    pub network: Option<SeedNetwork>,
    pub mount_volume: bool,
}

/// A [`SeedNetwork`] with its texts as sequences of characters.
pub ghost struct SeedNetworkView {
    pub address: Ipv4,
    pub prefix_len: u8,
    pub gateway: Ipv4,
    pub dns: Seq<Seq<char>>,
}

/// A [`SeedSpec`] with its texts as sequences of characters.
pub ghost struct SeedView {
    pub agent: Seq<u8>,
    pub hostname: Seq<char>,
    pub instance_id: Seq<char>,
    pub ssh_authorized_keys: Seq<Seq<char>>,
    pub network: Option<SeedNetworkView>,
    pub mount_volume: bool,
}

impl View for SeedSpec {
    type V = SeedView;

    open spec fn view(&self) -> SeedView {
        SeedView {
            agent: self.agent@,
            hostname: self.hostname@,
            instance_id: self.instance_id@,
            ssh_authorized_keys: views(self.ssh_authorized_keys@),
            network: match self.network {
                Some(n) => Some(
                    SeedNetworkView {
                        address: n.address,
                        prefix_len: n.prefix_len,
                        gateway: n.gateway,
                        dns: views(n.dns@),
                    },
                ),
                None => None,
            },
            mount_volume: self.mount_volume,
        }
    }
}

/// What the seed of a cloud image is made from. One behind the host's NAT is told its
/// address, so that it does not wait for DHCP; any other gets its address from DHCP,
/// and is told nothing.
pub open spec fn seed_of(
    req: VmRequestView,
    agent: Seq<u8>,
    guest_ip: Option<Ipv4>,
    prefix_len: u8,
    gateway: Ipv4,
    dns: Seq<Seq<char>>,
    mount_volume: bool,
) -> SeedView {
    SeedView {
        agent,
        hostname: req.name,
        instance_id: req.name,
        ssh_authorized_keys: req.ssh_authorized_keys,
        network: match guest_ip {
            Some(address) => Some(SeedNetworkView { address, prefix_len, gateway, dns }),
            None => None,
        },
        mount_volume,
    }
}

/// Say what the seed of a cloud image is made from.
pub fn seed_spec(
    core: &HuskerCore,
    req: &CreateVmRequest,
    host: &HostIdentity,
    prefix_len: u8,
    mount_volume: bool,
) -> (r: SeedSpec)
    ensures
        r@ == seed_of(
            req@,
            core.embedded_agent@,
            host.guest_ip,
            prefix_len,
            host.gateway,
            views(core.dns_servers@),
            mount_volume,
        ),
{
    let network = match host.guest_ip {
        Some(address) => Some(
            SeedNetwork {
                address,
                prefix_len,
                gateway: host.gateway,
                dns: copy_texts(&core.dns_servers),
            },
        ),
        None => None,
    };
    SeedSpec {
        agent: core.embedded_agent.clone(),
        hostname: req.name.clone(),
        instance_id: req.name.clone(),
        ssh_authorized_keys: copy_texts(&req.ssh_authorized_keys),
        network,
        mount_volume,
    }
}

/// The words that tell the guest which shares to mount where.
pub open spec fn share_words(shares: Seq<ShareView>) -> Seq<char>
    decreases shares.len(),
{
    if shares.len() == 0 {
        Seq::empty()
    } else {
        let s = shares.last();
        share_words(shares.drop_last()) + (" husker.share="@ + s.tag + "="@ + s.guest + (
        if s.read_only { ":ro"@ } else { ""@ }))
    }
}

/// The kernel command line of a direct-kernel VM behind NAT.
pub open spec fn kernel_command_line(
    ip: Ipv4,
    gateway: Ipv4,
    netmask: Ipv4,
    has_initrd: bool,
    boot_init: Option<Seq<char>>,
    shares: Seq<ShareView>,
) -> Seq<char> {
    let root = if has_initrd { ""@ } else { " root=/dev/vda rw"@ };
    let base = "console=ttyS0 reboot=k panic=1 pci=off"@ + root + " ip="@ + dotted(ip) + "::"@
        + dotted(gateway) + ":"@ + dotted(netmask) + "::eth0:off"@;
    with_boot_init(base, boot_init) + share_words(shares)
}

/// The kernel command line of a direct-kernel VM behind NAT: the console, the
/// static address, the root disk where no initrd mounts it, the way to start the
/// image, and one word per share.
pub fn kernel_args(
    ip: &Ipv4,
    gateway: &Ipv4,
    netmask: &Ipv4,
    has_initrd: bool,
    boot_init: Option<&str>,
    shares: &Vec<HostShare>,
) -> (r: String)
    ensures
        r@ == kernel_command_line(
            *ip,
            *gateway,
            *netmask,
            has_initrd,
            opt_str_view(boot_init),
            share_views(shares@),
        ),
{
    let root = if has_initrd { "" } else { " root=/dev/vda rw" };
    let base = "console=ttyS0 reboot=k panic=1 pci=off".to_owned().concat(root).concat(
        " ip=",
    ).concat(ip.text().as_str()).concat("::").concat(gateway.text().as_str()).concat(":").concat(
        netmask.text().as_str(),
    ).concat("::eth0:off");
    let mut args = apply_boot_init(base.as_str(), boot_init);
    let ghost start = args@;
    let mut i: usize = 0;
    proof {
        assert(share_views(shares@).take(0) =~= Seq::empty());
        assert(start + share_words(Seq::empty()) =~= start);
    }
    while i < shares.len()
        invariant
            i <= shares@.len(),
            args@ == start + share_words(share_views(shares@).take(i as int)),
        decreases shares.len() - i,
    {
        let suffix = if shares[i].read_only { ":ro" } else { "" };
        let word = " husker.share=".to_owned().concat(shares[i].tag.as_str()).concat("=").concat(
            shares[i].guest.as_str(),
        ).concat(suffix);
        args.append(word.as_str());
        proof {
            let head = share_views(shares@).take(i + 1);
            assert(head.drop_last() == share_views(shares@).take(i as int));
            assert(head.last() == shares@[i as int]@);
            assert(args@ =~= start + share_words(head));
        }
        i += 1;
    }
    proof {
        assert(share_views(shares@).take(shares@.len() as int) == share_views(shares@));
    }
    args
}

/// `explicit` where it is there, else the daemon's default, else the built-in one.
pub open spec fn or_default(explicit: Option<u32>, default: Option<u32>, built_in: u32) -> u32 {
    match explicit {
        Some(n) => n,
        None => match default {
            Some(n) => n,
            None => built_in,
        },
    }
}

/// `explicit` where it is there, else the daemon's default, else the built-in one.
pub fn pick(explicit: Option<u32>, default: Option<u32>, built_in: u32) -> (r: u32)
    ensures
        r == or_default(explicit, default, built_in),
{
    match explicit {
        Some(n) => n,
        None => match default {
            Some(n) => n,
            None => built_in,
        },
    }
}

/// The disk that a VM boots from.
#[derive(Debug)]
pub struct BootDisk {
    pub path: String,
    pub boot: BootMode,
    pub seed_path: Option<String>,
}

/// What a backend is asked to start: a direct-kernel VM gets a kernel command
/// line, a cloud image none.
pub open spec fn vm_config_of(
    req: VmRequestView,
    plan: CreatePlan,
    default_cpus: Option<u32>,
    default_memory: Option<u32>,
    host: HostIdentity,
    disk: BootDisk,
    initrd: Option<Seq<char>>,
    boot_init: Option<Seq<char>>,
    volume_path: Option<Seq<char>>,
    shares: Seq<ShareView>,
) -> ConfigView {
    let cloud = req.cloud_image is Some;
    ConfigView {
        name: req.name,
        vcpu_count: or_default(req.vcpu_count, default_cpus, 1),
        mem_size_mib: or_default(req.mem_size_mib, default_memory, 128),
        kernel_path: if cloud || req.kernel_path is None { ""@ } else { req.kernel_path->0 },
        rootfs_path: disk.path@,
        kernel_args: if cloud {
            None
        } else {
            Some(
                kernel_command_line(
                    host.guest_ip->0,
                    host.gateway,
                    host.netmask,
                    initrd is Some,
                    boot_init,
                    shares,
                ),
            )
        },
        initrd_path: initrd,
        vsock_cid: host.cid,
        tap_device: Some(tap_of(host.cid)),
        guest_mac: Some(host.mac@),
        vmm: Some(plan.vmm),
        boot: disk.boot@,
        seed_path: opt_view(disk.seed_path),
        balloon: req.balloon,
        volume_path,
        host_shares: shares,
    }
}

/// A path, or an empty one.
pub fn path_or_empty(o: &Option<String>) -> (r: String)
    ensures
        r@ == (if o is Some { o->0@ } else { ""@ }),
{
    match o {
        Some(s) => s.clone(),
        None => "".to_owned(),
    }
}

/// Assemble what a backend is asked to start.
pub fn build_vm_config(
    core: &HuskerCore,
    req: &CreateVmRequest,
    plan: &CreatePlan,
    host: &HostIdentity,
    disk: BootDisk,
    initrd: Option<String>,
    boot_init: Option<&str>,
    volume_path: Option<String>,
    shares: Vec<HostShare>,
) -> (r: VmConfig)
    requires
        req@.cloud_image is None ==> host.guest_ip is Some,
    ensures
        r@ == vm_config_of(
            req@,
            *plan,
            core.default_cpus,
            core.default_memory,
            *host,
            disk,
            opt_view(initrd),
            opt_str_view(boot_init),
            opt_view(volume_path),
            share_views(shares@),
        ),
{
    let cloud = req.cloud_image.is_some();
    let args = if cloud {
        None
    } else {
        match &host.guest_ip {
            Some(ip) => Some(
                kernel_args(
                    ip,
                    &host.gateway,
                    &host.netmask,
                    initrd.is_some(),
                    boot_init,
                    &shares,
                ),
            ),
            None => None,
        }
    };
    let kernel_path = if cloud { "".to_owned() } else { path_or_empty(&req.kernel_path) };
    VmConfig {
        name: req.name.clone(),
        vcpu_count: pick(req.vcpu_count, core.default_cpus, 1),
        mem_size_mib: pick(req.mem_size_mib, core.default_memory, 128),
        kernel_path,
        rootfs_path: disk.path,
        kernel_args: args,
        initrd_path: initrd,
        vsock_cid: host.cid,
        tap_device: Some(tap_name(host.cid)),
        guest_mac: Some(host.mac.clone()),
        vmm: Some(plan.vmm),
        boot: disk.boot,
        seed_path: disk.seed_path,
        balloon: req.balloon,
        volume_path,
        host_shares: shares,
    }
}

/// What a VM is recorded as that a backend has just started. A cloud image's
/// record names the image that it came from in place of a kernel and a rootfs.
pub open spec fn record_of(
    req: VmRequestView,
    plan: CreatePlan,
    host: HostIdentity,
    info: VmInfo,
    tags: Option<ServiceTag>,
    cloud_source: Seq<char>,
    volume: Option<Seq<char>>,
    now: Timestamp,
) -> VmView {
    let cloud = req.cloud_image is Some;
    VmView {
        id: info.id,
        name: req.name,
        state: info.state@,
        pid: info.pid,
        vcpu_count: info.vcpu_count,
        mem_size_mib: info.mem_size_mib,
        vsock_cid: host.cid,
        tap_device: Some(tap_of(host.cid)),
        host_ip: if plan.bridged { None } else { Some(dotted(host.gateway)) },
        guest_ip: if plan.bridged || host.guest_ip is None {
            None
        } else {
            Some(dotted(host.guest_ip->0))
        },
        kernel_path: if cloud || req.kernel_path is None { ""@ } else { req.kernel_path->0 },
        rootfs_path: if cloud {
            cloud_source
        } else if req.rootfs_path is Some {
            req.rootfs_path->0
        } else {
            ""@
        },
        created_at: now,
        updated_at: now,
        userdata: req.userdata,
        userdata_status: if req.userdata is Some { Some("pending"@) } else { None },
        userdata_env: stored_env(req.env),
        service_id: match tags {
            Some(t) => Some(t.service_id),
            None => None,
        },
        service_ordinal: match tags {
            Some(t) => Some(t.ordinal),
            None => None,
        },
        vmm: vmm_name(plan.vmm),
        boot_mode: if cloud { "uefi"@ } else { "direct"@ },
        balloon: req.balloon,
        volume,
        network: if plan.bridged { "bridged"@ } else { "nat"@ },
        last_activity_at: now,
        suspended_at: None,
        idle_timeout_secs: plan.idle_timeout_secs,
        suspend_ttl_secs: plan.suspend_ttl_secs,
        auto_resume: plan.auto_resume,
        forked_from: None,
    }
}

/// Write down a VM that a backend has just started.
pub fn build_vm_record(
    req: &CreateVmRequest,
    plan: &CreatePlan,
    host: &HostIdentity,
    info: VmInfo,
    tags: Option<ServiceTag>,
    cloud_source: &str,
    volume: Option<String>,
    now: Timestamp,
) -> (r: VmRecord)
    ensures
        r@ == record_of(
            req@,
            *plan,
            *host,
            info,
            tags,
            cloud_source@,
            opt_view(volume),
            now,
        ),
{
    let cloud = req.cloud_image.is_some();
    let guest_ip = if plan.bridged {
        None
    } else {
        match &host.guest_ip {
            Some(ip) => Some(ip.text()),
            None => None,
        }
    };
    let host_ip = if plan.bridged { None } else { Some(host.gateway.text()) };
    let kernel_path = if cloud { "".to_owned() } else { path_or_empty(&req.kernel_path) };
    let rootfs_path = if cloud { cloud_source.to_owned() } else { path_or_empty(&req.rootfs_path) };
    let userdata_status = if req.userdata.is_some() { Some("pending".to_owned()) } else { None };
    VmRecord {
        id: info.id,
        name: req.name.clone(),
        state: info.state,
        pid: info.pid,
        vcpu_count: info.vcpu_count,
        mem_size_mib: info.mem_size_mib,
        vsock_cid: host.cid,
        tap_device: Some(tap_name(host.cid)),
        host_ip,
        guest_ip,
        kernel_path,
        rootfs_path,
        created_at: now,
        updated_at: now,
        userdata: req.userdata.clone(),
        userdata_status,
        userdata_env: store_env(&req.env),
        service_id: match tags {
            Some(t) => Some(t.service_id),
            None => None,
        },
        service_ordinal: match tags {
            Some(t) => Some(t.ordinal),
            None => None,
        },
        vmm: plan.vmm.as_str().to_owned(),
        boot_mode: if cloud { "uefi".to_owned() } else { "direct".to_owned() },
        balloon: req.balloon,
        volume,
        network: if plan.bridged { "bridged".to_owned() } else { "nat".to_owned() },
        last_activity_at: now,
        suspended_at: None,
        idle_timeout_secs: plan.idle_timeout_secs,
        suspend_ttl_secs: plan.suspend_ttl_secs,
        auto_resume: plan.auto_resume,
        forked_from: None,
    }
}

// ---------------------------------------------------------------------------
// What is promised of a VM's start
// ---------------------------------------------------------------------------

/// Defaults fill gaps, and nothing else: what a request names is kept, a cloud image brings
/// its own files, and no other part of the request changes.
pub proof fn defaults_fill_gaps_only(
    req: VmRequestView,
    kernel: Option<Seq<char>>,
    rootfs: Option<Seq<char>>,
)
    ensures
        ({
            let r = with_defaults(req, kernel, rootfs);
            &&& req.cloud_image is Some ==> r == req
            &&& req.kernel_path is Some ==> r.kernel_path == req.kernel_path
            &&& req.rootfs_path is Some ==> r.rootfs_path == req.rootfs_path
            &&& req.cloud_image is None && req.kernel_path is None ==> r.kernel_path == kernel
            &&& req.cloud_image is None && req.rootfs_path is None ==> r.rootfs_path == rootfs
            &&& r == (VmRequestView {
                kernel_path: r.kernel_path,
                rootfs_path: r.rootfs_path,
                ..req
            })
            &&& with_defaults(r, kernel, rootfs) == r
        }),
{
}

/// Where a rootfs argument leads. An argument that names a file, or looks like a path, is
/// never looked up. A catalog image goes before a reference. Only a reference that was not
/// imported before is imported, as itself, under its catalog name.
pub proof fn rootfs_arguments_lead_where_they_say(
    arg: Seq<char>,
    is_file: bool,
    named: Option<Seq<char>>,
    imported: Option<Seq<char>>,
)
    ensures
        ({
            let r = rootfs_source(arg, is_file, named, imported);
            let reference = arg.contains(':') || arg.contains('/');
            &&& is_file || occurs_at(arg, "/"@, 0) || occurs_at(arg, "./"@, 0) || occurs_at(
                arg,
                "../"@,
                0,
            ) ==> r == Ok::<RootfsSourceView, ErrorView>(RootfsSourceView::File(arg))
            &&& !is_file && !path_shaped(arg) && named is Some ==> r == Ok::<
                RootfsSourceView,
                ErrorView,
            >(RootfsSourceView::File(named->0))
            &&& !is_file && !path_shaped(arg) && named is None && reference && imported is Some
                ==> r == Ok::<RootfsSourceView, ErrorView>(RootfsSourceView::File(imported->0))
            &&& r matches Ok(RootfsSourceView::Import { name, reference: from }) ==> from == arg
                && name.len() == arg.len() && reference && named is None && imported is None
                && !is_file
            &&& !is_file && !path_shaped(arg) && named is None && reference && imported is None
                ==> r is Ok && r->Ok_0 is Import
            &&& r is Err <==> !is_file && !path_shaped(arg) && named is None && !reference
            &&& r matches Err(e) ==> e is InvalidArgument
        }),
{
    reveal_strlit("/");
}

/// A cloud image is an existing file, or else the file of a catalog image of that kind; any
/// other catalog image is refused, and so is a name that nobody knows.
pub proof fn cloud_images_are_files_of_their_kind(
    image: Seq<char>,
    exists: bool,
    found: Result<ImageRecord, StateError>,
)
    ensures
        ({
            let r = cloud_image_file(image, exists, found);
            &&& exists ==> r == Ok::<Seq<char>, ErrorView>(image)
            &&& !exists && found is Ok ==> (r is Ok <==> found->Ok_0.kind@ == "cloud-image"@)
            &&& !exists && r is Ok ==> found is Ok && r->Ok_0 == found->Ok_0.file_path@
            &&& !exists && found is Ok && r is Err ==> r->Err_0 is InvalidArgument
            &&& !exists && found is Err && found->Err_0@ == StateErrorView::NotFoundByName(
                Resource::Image,
            ) ==> r is Err && r->Err_0 is InvalidArgument
            &&& !exists && found is Err && found->Err_0@ != StateErrorView::NotFoundByName(
                Resource::Image,
            ) ==> r == Err::<Seq<char>, ErrorView>(ErrorView::State(found->Err_0@))
        }),
{
}

/// How an image wants to be started is what the first catalog image with its file says;
/// images with other files have no say.
pub proof fn boot_inits_come_from_the_booting_image(
    images: Seq<ImageRecord>,
    rootfs: Seq<char>,
    k: int,
)
    requires
        0 <= k <= images.len(),
        forall|i: int| 0 <= i < k ==> (#[trigger] images[i]).file_path@ != rootfs,
    ensures
        k < images.len() && images[k].file_path@ == rootfs ==> boot_init_for(images, rootfs)
            == opt_view(images[k].boot_init),
        k == images.len() ==> boot_init_for(images, rootfs) is None,
    decreases images.len(),
{
    if k > 0 {
        let rest = images.skip(1);
        assert(images[0].file_path@ != rootfs);
        assert forall|i: int| 0 <= i < k - 1 implies (#[trigger] rest[i]).file_path@ != rootfs by {
            assert(rest[i] == images[i + 1]);
        }
        boot_inits_come_from_the_booting_image(rest, rootfs, k - 1);
        if k < images.len() {
            assert(rest[k - 1] == images[k]);
        }
    }
}

/// An initrd that was asked for is used, whether or not it is there; others are used only
/// where they are there, the daemon's own before the conventional one.
pub proof fn explicit_initrds_win(
    explicit: Option<Seq<char>>,
    default: Option<Seq<char>>,
    default_exists: bool,
    conventional: Seq<char>,
    conventional_exists: bool,
)
    ensures
        ({
            let r = chosen_initrd(
                explicit,
                default,
                default_exists,
                conventional,
                conventional_exists,
            );
            let own = default is Some && default_exists;
            &&& explicit is Some ==> r == explicit
            &&& explicit is None && own ==> r == default
            &&& explicit is None && !own && conventional_exists ==> r == Some(conventional)
            &&& explicit is None && !own && !conventional_exists ==> r is None
        }),
{
}

/// A request's mounts become one share each, in order, tagged by their place; what one
/// mount spec says does not depend on the others. They are refused where one of them is.
pub proof fn every_mount_becomes_its_share(specs: Seq<Seq<char>>, links: Seq<bool>)
    requires
        links.len() == specs.len(),
    ensures
        shares_of(specs, links) matches Ok(shares) ==> shares.len() == specs.len() && forall|i: int|
            0 <= i < specs.len() ==> mount_of(#[trigger] specs[i], i as nat) == Ok::<
                ShareView,
                Seq<char>,
            >(shares[i]) && !links[i],
        (forall|i: int|
            0 <= i < specs.len() ==> mount_of(#[trigger] specs[i], i as nat) is Ok
                && host_path_verdict(
                "mount"@,
                mount_of(specs[i], i as nat)->Ok_0.host,
                links[i],
            ) is Ok) <==> shares_of(specs, links) is Ok,
    decreases specs.len(),
{
    if specs.len() > 0 {
        let rest = specs.drop_last();
        let n = rest.len() as int;
        let fewer = links.drop_last();
        every_mount_becomes_its_share(rest, fewer);
        links_behind_do_not_matter(rest, links, fewer);
        assert forall|i: int| 0 <= i < n implies rest[i] == #[trigger] specs[i] && fewer[i]
            == links[i] by {}
        if shares_of(specs, links) is Ok {
            assert forall|i: int| 0 <= i < specs.len() implies mount_of(
                #[trigger] specs[i],
                i as nat,
            ) == Ok::<ShareView, Seq<char>>(shares_of(specs, links)->Ok_0[i]) && !links[i] by {
                if i < n {
                    assert(rest[i] == specs[i]);
                }
            }
            assert forall|i: int| 0 <= i < specs.len() implies mount_of(
                #[trigger] specs[i],
                i as nat,
            ) is Ok && host_path_verdict(
                "mount"@,
                mount_of(specs[i], i as nat)->Ok_0.host,
                links[i],
            ) is Ok by {
                if i < n {
                    assert(rest[i] == specs[i] && fewer[i] == links[i]);
                    assert(mount_of(rest[i], i as nat) is Ok);
                }
            }
        }
        if forall|i: int|
            0 <= i < specs.len() ==> mount_of(#[trigger] specs[i], i as nat) is Ok
                && host_path_verdict(
                "mount"@,
                mount_of(specs[i], i as nat)->Ok_0.host,
                links[i],
            ) is Ok {
            assert forall|i: int| 0 <= i < n implies mount_of(#[trigger] rest[i], i as nat) is Ok
                && host_path_verdict(
                "mount"@,
                mount_of(rest[i], i as nat)->Ok_0.host,
                fewer[i],
            ) is Ok by {
                assert(rest[i] == specs[i] && fewer[i] == links[i]);
            }
            assert(mount_of(specs[n], n as nat) is Ok);
        }
    }
}

proof fn links_behind_do_not_matter(specs: Seq<Seq<char>>, a: Seq<bool>, b: Seq<bool>)
    requires
        a.len() >= specs.len(),
        b.len() >= specs.len(),
        forall|i: int| 0 <= i < specs.len() ==> #[trigger] a[i] == b[i],
    ensures
        shares_of(specs, a) == shares_of(specs, b),
    decreases specs.len(),
{
    if specs.len() > 0 {
        links_behind_do_not_matter(specs.drop_last(), a, b);
        assert(a[specs.len() - 1] == b[specs.len() - 1]);
    }
}

/// Every context id has a TAP device of its own, whose name tells whose it is.
pub proof fn taps_are_distinct(a: u32, b: u32)
    ensures
        occurs_at(tap_of(a), "husker"@, 0),
        a != b ==> tap_of(a) != tap_of(b),
{
    reveal_strlit("husker");
    assert(tap_of(a).subrange(0, 6) =~= "husker"@);
    if tap_of(a) == tap_of(b) {
        assert(tap_of(a).skip(6) =~= decimal(a as nat));
        assert(tap_of(b).skip(6) =~= decimal(b as nat));
        decimal_is_injective(a as nat, b as nat);
    }
}

/// A seed carries the daemon's agent and the caller's keys, names the machine after its
/// VM, and tells it its address exactly where it has one behind the host's NAT.
pub proof fn seeds_introduce_the_vm(
    req: VmRequestView,
    agent: Seq<u8>,
    guest_ip: Option<Ipv4>,
    prefix_len: u8,
    gateway: Ipv4,
    dns: Seq<Seq<char>>,
    mount_volume: bool,
)
    ensures
        ({
            let seed = seed_of(req, agent, guest_ip, prefix_len, gateway, dns, mount_volume);
            &&& seed.agent == agent
            &&& seed.hostname == req.name && seed.instance_id == req.name
            &&& seed.ssh_authorized_keys == req.ssh_authorized_keys
            &&& seed.network is Some <==> guest_ip is Some
            &&& seed.network matches Some(n) ==> Some(n.address) == guest_ip && n.prefix_len
                == prefix_len && n.gateway == gateway && n.dns == dns
            &&& seed.mount_volume <==> mount_volume
        }),
{
}

/// The words of several shares stand one behind the other, each as it would alone.
pub proof fn shares_are_told_one_by_one(shares: Seq<ShareView>, s: ShareView)
    ensures
        share_words(Seq::empty()) == Seq::<char>::empty(),
        share_words(shares.push(s)) == share_words(shares) + share_words(seq![s]),
{
    assert(shares.push(s).drop_last() =~= shares);
    assert(seq![s].drop_last() =~= Seq::empty());
    assert(seq![s].last() == s);
    assert(share_words(seq![s].drop_last()) =~= Seq::empty());
    assert(share_words(shares.push(s)) =~= share_words(shares) + share_words(seq![s]));
}

proof fn words_of_one_share(s: ShareView)
    ensures
        share_words(seq![s]) == " husker.share="@ + s.tag + "="@ + s.guest + (if s.read_only {
            ":ro"@
        } else {
            Seq::empty()
        }),
{
    reveal_strlit("");
    assert(seq![s].drop_last() =~= Seq::empty());
    assert(seq![s].last() == s);
    assert(share_words(Seq::empty()) == Seq::<char>::empty());
    let word = " husker.share="@ + s.tag + "="@ + s.guest;
    if s.read_only {
        assert(share_words(seq![s]) =~= word + ":ro"@);
    } else {
        assert(""@ =~= Seq::empty());
        assert(share_words(seq![s]) =~= word + Seq::empty());
    }
}

proof fn ends_stand_behind_the_equals_sign(front: Seq<char>, guest: Seq<char>)
    requires
        front.len() > 0,
        front.last() == '=',
        has_suffix(front + guest, ":ro"@),
    ensures
        has_suffix(guest, ":ro"@),
{
    reveal_strlit(":ro");
    let all = front + guest;
    let n = all.len() as int;
    let g = guest.len() as int;
    let end = all.subrange(n - 3, n);
    assert(end == ":ro"@);
    assert(end[0] == ':' && end[1] == 'r' && end[2] == 'o');
    assert(all[n - 3] == ':' && all[n - 2] == 'r' && all[n - 1] == 'o');
    if g < 3 {
        assert(all[n - g - 1] == front.last());
    }
    assert(guest.subrange(g - 3, g) =~= end);
}

/// The guest is told a share's tag and where to mount it, and that it is read-only exactly
/// where it is.
pub proof fn read_only_shares_are_told_apart(s: ShareView)
    ensures
        occurs_at(share_words(seq![s]), " husker.share="@ + s.tag + "="@ + s.guest, 0),
        s.read_only ==> share_words(seq![s]) == " husker.share="@ + s.tag + "="@ + s.guest + ":ro"@,
        !s.read_only ==> share_words(seq![s]) == " husker.share="@ + s.tag + "="@ + s.guest,
        !has_suffix(s.guest, ":ro"@) ==> (has_suffix(share_words(seq![s]), ":ro"@)
            <==> s.read_only),
{
    words_of_one_share(s);
    let front = " husker.share="@ + s.tag + "="@;
    let word = front + s.guest;
    let all = share_words(seq![s]);
    assert(all.subrange(0, word.len() as int) =~= word);
    if s.read_only {
        stands_at_the_end(word, ":ro"@);
    } else {
        assert(word + Seq::empty() =~= word);
        if has_suffix(all, ":ro"@) {
            reveal_strlit("=");
            assert(front.last() == '=');
            ends_stand_behind_the_equals_sign(front, s.guest);
        }
    }
}

/// The kernel is told to mount its root disk itself exactly where no initrd does.
pub proof fn kernels_mount_their_root_without_an_initrd(
    ip: Ipv4,
    gateway: Ipv4,
    netmask: Ipv4,
    has_initrd: bool,
)
    ensures
        ({
            let line = kernel_command_line(ip, gateway, netmask, has_initrd, None, Seq::empty());
            &&& occurs(line, " root=/dev/vda rw"@) <==> !has_initrd
            &&& occurs_at(line, "console=ttyS0 reboot=k panic=1 pci=off"@, 0)
            &&& has_suffix(
                line,
                " ip="@ + dotted(ip) + "::"@ + dotted(gateway) + ":"@ + dotted(netmask)
                    + "::eth0:off"@,
            )
        }),
{
    let line = kernel_command_line(ip, gateway, netmask, has_initrd, None, Seq::empty());
    let first = "console=ttyS0 reboot=k panic=1 pci=off"@;
    let root = " root=/dev/vda rw"@;
    let address = " ip="@ + dotted(ip) + "::"@ + dotted(gateway) + ":"@ + dotted(netmask)
        + "::eth0:off"@;
    if has_initrd {
        reveal_strlit("");
        assert(""@ =~= Seq::empty());
        assert(line =~= first + address);
        commands_hold_no_slash(ip, gateway, netmask);
        reveal_strlit(" root=/dev/vda rw");
        if occurs(line, root) {
            let i = choose|i: int| occurs_at(line, root, i);
            assert(line.subrange(i, i + root.len())[6] == '/');
            assert(line[i + 6] == '/');
        }
        assert(line.subrange(0, first.len() as int) =~= first);
        assert(line.subrange(line.len() - address.len(), line.len() as int) =~= address);
    } else {
        assert(line =~= first + root + address);
        stands_between(first, root, address);
        assert(line.subrange(0, first.len() as int) =~= first);
        assert(line.subrange(line.len() - address.len(), line.len() as int) =~= address);
    }
}

/// How an image wants to be started, and the shares, are only ever added to the kernel's
/// command line.
pub proof fn kernel_command_lines_only_grow(
    ip: Ipv4,
    gateway: Ipv4,
    netmask: Ipv4,
    has_initrd: bool,
    boot_init: Option<Seq<char>>,
    shares: Seq<ShareView>,
)
    ensures
        ({
            let bare = kernel_command_line(ip, gateway, netmask, has_initrd, None, Seq::empty());
            let line = kernel_command_line(ip, gateway, netmask, has_initrd, boot_init, shares);
            &&& line == with_boot_init(bare, boot_init) + share_words(shares)
            &&& occurs_at(line, bare, 0)
            &&& !has_initrd ==> occurs(line, " root=/dev/vda rw"@)
        }),
{
    let bare = kernel_command_line(ip, gateway, netmask, has_initrd, None, Seq::empty());
    let line = kernel_command_line(ip, gateway, netmask, has_initrd, boot_init, shares);
    assert(bare + Seq::<char>::empty() =~= bare);
    assert(share_words(Seq::empty()) == Seq::<char>::empty());
    assert(line.subrange(0, bare.len() as int) =~= bare);
    kernels_mount_their_root_without_an_initrd(ip, gateway, netmask, has_initrd);
    if !has_initrd {
        let root = " root=/dev/vda rw"@;
        let i = choose|i: int| occurs_at(bare, root, i);
        assert(line.subrange(i, i + root.len()) =~= bare.subrange(i, i + root.len()));
        assert(occurs_at(line, root, i));
    }
}

/// An image that wants to be started its own way is: the kernel is told its init, and the
/// agent that it runs under one.
pub proof fn kernels_start_the_images_own_init(
    ip: Ipv4,
    gateway: Ipv4,
    netmask: Ipv4,
    has_initrd: bool,
    boot_init: Seq<char>,
    shares: Seq<ShareView>,
)
    ensures
        occurs(
            kernel_command_line(ip, gateway, netmask, has_initrd, Some(boot_init), shares),
            " init="@ + boot_init + " husker.init=1"@,
        ),
{
    let bare = kernel_command_line(ip, gateway, netmask, has_initrd, None, Seq::empty());
    let line = kernel_command_line(ip, gateway, netmask, has_initrd, Some(boot_init), shares);
    let word = " init="@ + boot_init + " husker.init=1"@;
    assert(bare + Seq::<char>::empty() =~= bare);
    assert(share_words(Seq::empty()) == Seq::<char>::empty());
    commands_name_no_init(ip, gateway, netmask, has_initrd);
    assert(line =~= bare + word + share_words(shares));
    stands_between(bare, word, share_words(shares));
}

proof fn commands_name_no_init(ip: Ipv4, gateway: Ipv4, netmask: Ipv4, has_initrd: bool)
    ensures
        !some_word_begins(
            kernel_command_line(ip, gateway, netmask, has_initrd, None, Seq::empty()),
            "init="@,
        ),
{
    reveal_strlit("console=ttyS0 reboot=k panic=1 pci=off");
    reveal_strlit(" root=/dev/vda rw");
    reveal_strlit("");
    reveal_strlit(" ip=");
    reveal_strlit("::");
    reveal_strlit(":");
    reveal_strlit("::eth0:off");
    reveal_strlit("init=");
    let line = kernel_command_line(ip, gateway, netmask, has_initrd, None, Seq::empty());
    let a = "console=ttyS0 reboot=k panic=1 pci=off"@;
    let root = if has_initrd { ""@ } else { " root=/dev/vda rw"@ };
    let tail = dotted(ip) + "::"@ + dotted(gateway) + ":"@ + dotted(netmask) + "::eth0:off"@;
    assert(line =~= a + root + " ip="@ + tail);
    addresses_hold_digits_and_dots(ip, 'i');
    addresses_hold_digits_and_dots(gateway, 'i');
    addresses_hold_digits_and_dots(netmask, 'i');
    let b = "::eth0:off"@;
    assert forall|k: int| 0 <= k < b.len() implies b[k] != 'i' by {
        assert(k == 0 || k == 1 || k == 2 || k == 3 || k == 4 || k == 5 || k == 6 || k == 7 || k == 8
            || k == 9);
    }
    assert(!tail.contains('i'));
    assert forall|k: int| 0 <= k < root.len() implies root[k] != 'i' by {
        assert(k == 0 || k == 1 || k == 2 || k == 3 || k == 4 || k == 5 || k == 6 || k == 7 || k == 8
            || k == 9 || k == 10 || k == 11 || k == 12 || k == 13 || k == 14 || k == 15 || k == 16);
    }
    if some_word_begins(line, "init="@) {
        let i = choose|i: int| #[trigger]
            occurs_at(line, "init="@, i) && (i == 0 || crate::text::is_space(line[i - 1]));
        let word = line.subrange(i, i + 5);
        assert(word[0] == 'i' && word[1] == 'n');
        assert(line[i] == 'i' && line[i + 1] == 'n');
        if i < a.len() {
            assert(a[i] == 'i');
            assert(i == 0 || i == 1 || i == 2 || i == 3 || i == 4 || i == 5 || i == 6 || i == 7 || i
                == 8 || i == 9 || i == 10 || i == 11 || i == 12 || i == 13 || i == 14 || i == 15
                || i == 16 || i == 17 || i == 18 || i == 19 || i == 20 || i == 21 || i == 22 || i
                == 23 || i == 24 || i == 25 || i == 26 || i == 27 || i == 28 || i == 29 || i == 30
                || i == 31 || i == 32 || i == 33 || i == 34 || i == 35 || i == 36 || i == 37);
            assert(line[i + 1] == a[i + 1]);
        } else if i < a.len() + root.len() {
            assert(line[i] == root[i - a.len()]);
        } else {
            let j = i - a.len() - root.len();
            if j < 4 {
                assert(line[i] == " ip="@[j]);
                assert(j == 0 || j == 1 || j == 2 || j == 3);
                assert(line[i + 1] == " ip="@[j + 1]);
            } else {
                assert(line[i] == tail[j - 4]);
            }
        }
    }
}

proof fn commands_hold_no_slash(ip: Ipv4, gateway: Ipv4, netmask: Ipv4)
    ensures
        !("console=ttyS0 reboot=k panic=1 pci=off"@ + (" ip="@ + dotted(ip) + "::"@ + dotted(gateway)
            + ":"@ + dotted(netmask) + "::eth0:off"@)).contains('/'),
{
    reveal_strlit("console=ttyS0 reboot=k panic=1 pci=off");
    reveal_strlit(" ip=");
    reveal_strlit("::");
    reveal_strlit(":");
    reveal_strlit("::eth0:off");
    let a = "console=ttyS0 reboot=k panic=1 pci=off"@;
    assert forall|i: int| 0 <= i < a.len() implies a[i] != '/' by {
        assert(i == 0 || i == 1 || i == 2 || i == 3 || i == 4 || i == 5 || i == 6 || i == 7 || i == 8
            || i == 9 || i == 10 || i == 11 || i == 12 || i == 13 || i == 14 || i == 15 || i == 16
            || i == 17 || i == 18 || i == 19 || i == 20 || i == 21 || i == 22 || i == 23 || i == 24
            || i == 25 || i == 26 || i == 27 || i == 28 || i == 29 || i == 30 || i == 31 || i == 32
            || i == 33 || i == 34 || i == 35 || i == 36 || i == 37);
    }
    let b = "::eth0:off"@;
    assert forall|i: int| 0 <= i < b.len() implies b[i] != '/' by {
        assert(i == 0 || i == 1 || i == 2 || i == 3 || i == 4 || i == 5 || i == 6 || i == 7 || i == 8
            || i == 9);
    }
    addresses_hold_digits_and_dots(ip, '/');
    addresses_hold_digits_and_dots(gateway, '/');
    addresses_hold_digits_and_dots(netmask, '/');
}

proof fn addresses_hold_digits_and_dots(ip: Ipv4, c: char)
    requires
        !is_digit(c),
        c != '.',
    ensures
        !dotted(ip).contains(c),
{
    reveal_strlit(".");
    decimal_is_digits(ip.a as nat);
    decimal_is_digits(ip.b as nat);
    decimal_is_digits(ip.c as nat);
    decimal_is_digits(ip.d as nat);
    assert(!decimal(ip.a as nat).contains(c));
    assert(!decimal(ip.b as nat).contains(c));
    assert(!decimal(ip.c as nat).contains(c));
    assert(!decimal(ip.d as nat).contains(c));
}

/// A backend is asked to start what was requested: the name, the devices and the shares of
/// the request, on the disk that was prepared, under the identity that was allocated. What
/// the request leaves open comes from the daemon, or else is built in. A direct-kernel VM
/// is told about every share; a cloud image boots without a kernel.
pub proof fn backends_start_what_was_requested(
    req: VmRequestView,
    plan: CreatePlan,
    default_cpus: Option<u32>,
    default_memory: Option<u32>,
    host: HostIdentity,
    disk: BootDisk,
    initrd: Option<Seq<char>>,
    boot_init: Option<Seq<char>>,
    volume_path: Option<Seq<char>>,
    shares: Seq<ShareView>,
)
    ensures
        ({
            let c = vm_config_of(
                req,
                plan,
                default_cpus,
                default_memory,
                host,
                disk,
                initrd,
                boot_init,
                volume_path,
                shares,
            );
            &&& c.name == req.name
            &&& req.vcpu_count is Some ==> Some(c.vcpu_count) == req.vcpu_count
            &&& req.vcpu_count is None && default_cpus is Some ==> Some(c.vcpu_count)
                == default_cpus
            &&& req.vcpu_count is None && default_cpus is None ==> c.vcpu_count == 1
            &&& req.mem_size_mib is Some ==> Some(c.mem_size_mib) == req.mem_size_mib
            &&& req.mem_size_mib is None && default_memory is Some ==> Some(c.mem_size_mib)
                == default_memory
            &&& req.mem_size_mib is None && default_memory is None ==> c.mem_size_mib == 128
            &&& c.rootfs_path == disk.path@ && c.boot == disk.boot@ && c.seed_path == opt_view(
                disk.seed_path,
            )
            &&& c.kernel_args is Some <==> req.cloud_image is None
            &&& req.cloud_image is None && req.kernel_path is Some ==> Some(c.kernel_path)
                == req.kernel_path
            &&& req.cloud_image is Some ==> c.kernel_path == ""@
            &&& c.initrd_path == initrd
            &&& c.vsock_cid == host.cid && c.tap_device == Some(tap_of(c.vsock_cid))
            &&& c.guest_mac == Some(host.mac@)
            &&& c.vmm == Some(plan.vmm)
            &&& c.balloon == req.balloon
            &&& c.volume_path == volume_path
            &&& c.host_shares == shares
            &&& req.cloud_image is None && host.guest_ip is Some ==> occurs_at(
                c.kernel_args->0,
                kernel_command_line(
                    host.guest_ip->0,
                    host.gateway,
                    host.netmask,
                    initrd is Some,
                    None,
                    Seq::empty(),
                ),
                0,
            ) && has_suffix(c.kernel_args->0, share_words(shares))
            &&& req.cloud_image is None && boot_init is Some ==> occurs(
                c.kernel_args->0,
                " init="@ + boot_init->0 + " husker.init=1"@,
            )
        }),
{
    if req.cloud_image is None {
        let ip = host.guest_ip->0;
        let bare = kernel_command_line(
            ip,
            host.gateway,
            host.netmask,
            initrd is Some,
            None,
            Seq::empty(),
        );
        let line = kernel_command_line(
            ip,
            host.gateway,
            host.netmask,
            initrd is Some,
            boot_init,
            shares,
        );
        kernel_command_lines_only_grow(
            ip,
            host.gateway,
            host.netmask,
            initrd is Some,
            boot_init,
            shares,
        );
        if boot_init is Some {
            kernels_start_the_images_own_init(
                ip,
                host.gateway,
                host.netmask,
                initrd is Some,
                boot_init->0,
                shares,
            );
        }
        let words = share_words(shares);
        assert(line.subrange(line.len() - words.len(), line.len() as int) =~= words);
    }
}

/// A VM is recorded as it was started: what the backend reports of it, the identity that
/// was allocated, everything that the request and the plan say, and that its script is
/// still to run if it has one. A VM on the LAN has no address behind the NAT.
pub proof fn records_tell_what_was_started(
    req: VmRequestView,
    plan: CreatePlan,
    host: HostIdentity,
    info: VmInfo,
    tags: Option<ServiceTag>,
    cloud_source: Seq<char>,
    volume: Option<Seq<char>>,
    now: Timestamp,
)
    ensures
        ({
            let vm = record_of(req, plan, host, info, tags, cloud_source, volume, now);
            &&& vm.id == info.id && vm.state == info.state@ && vm.pid == info.pid
            &&& vm.vcpu_count == info.vcpu_count && vm.mem_size_mib == info.mem_size_mib
            &&& vm.name == req.name && vm.balloon == req.balloon && vm.volume == volume
            &&& vm.vsock_cid == host.cid && vm.tap_device == Some(tap_of(vm.vsock_cid))
            &&& plan.bridged ==> vm.network == "bridged"@ && vm.guest_ip is None && vm.host_ip
                is None
            &&& !plan.bridged ==> vm.network == "nat"@ && vm.host_ip == Some(dotted(host.gateway))
            &&& !plan.bridged && host.guest_ip is Some ==> vm.guest_ip == Some(
                dotted(host.guest_ip->0),
            )
            &&& req.cloud_image is Some ==> vm.boot_mode == "uefi"@ && vm.rootfs_path
                == cloud_source && vm.kernel_path == ""@
            &&& req.cloud_image is None ==> vm.boot_mode == "direct"@
            &&& req.cloud_image is None && req.kernel_path is Some ==> Some(vm.kernel_path)
                == req.kernel_path
            &&& req.cloud_image is None && req.rootfs_path is Some ==> Some(vm.rootfs_path)
                == req.rootfs_path
            &&& vm.userdata == req.userdata
            &&& vm.userdata is Some ==> vm.userdata_status == Some("pending"@)
            &&& vm.userdata is None ==> vm.userdata_status is None
            &&& vm.userdata_env is None <==> req.env.len() == 0
            &&& tags matches Some(tag) ==> vm.service_id == Some(tag.service_id)
                && vm.service_ordinal == Some(tag.ordinal)
            &&& tags is None ==> vm.service_id is None && vm.service_ordinal is None
            &&& backend_named(vm.vmm) == Ok::<VmmKind, ErrorView>(plan.vmm)
            &&& vm.idle_timeout_secs == plan.idle_timeout_secs
            &&& vm.suspend_ttl_secs == plan.suspend_ttl_secs
            &&& vm.auto_resume == plan.auto_resume
            &&& vm.forked_from is None && vm.suspended_at is None
            &&& vm.created_at == now && vm.updated_at == now && vm.last_activity_at == now
        }),
{
    backends_are_known_by_their_names(plan.vmm, vmm_name(plan.vmm));
}

} // verus!
