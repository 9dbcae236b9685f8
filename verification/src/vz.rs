//! Creating a VM on macOS, where the Virtualization framework provides the network.

use vstd::prelude::*;
use vstd::string::*;

use crate::create::{path_or_empty, pick, SeedSpec};
#[allow(unused_imports)]
use crate::create::{or_default, SeedView};
use crate::env::store_env;
#[allow(unused_imports)]
use crate::env::stored_env;
use crate::error::{invalid_argument, CoreError};
#[allow(unused_imports)]
use crate::error::{unit_view, ErrorView};
use crate::ledger::AllocatedResources;
#[allow(unused_imports)]
use crate::ledger::{nothing_held, rollback_of, LedgerView, ReleaseView};
use crate::names::validate_network_mode;
#[allow(unused_imports)]
use crate::names::network_mode_of;
use crate::path::join;
#[allow(unused_imports)]
use crate::path::joined;
use crate::records::{BootMode, ServiceTag, VmConfig, VmInfo, VmRecord};
#[allow(unused_imports)]
use crate::records::{share_views, BootView, ConfigView, ShareView, VmView};
use crate::requests::CreateVmRequest;
#[allow(unused_imports)]
use crate::requests::VmRequestView;
use crate::settings::HuskerCore;
use crate::text::{copy_texts, decimal_string, str_eq};
#[allow(unused_imports)]
use crate::text::{
    decimal, has_suffix, occurs, occurs_at, opt_str_view, opt_view, stands_at_the_end, stands_between,
};
use crate::time::Timestamp;

verus! {

/// What is wrong with a request, before anything is allocated for it.
pub open spec fn vz_verdict(req: VmRequestView) -> Result<(), ErrorView> {
    match network_mode_of(req.network) {
        Err(e) => Err(e),
        Ok(mode) => if mode == "bridged"@ {
            Err(ErrorView::InvalidArgument("bridged networking is only supported on Linux"@))
        } else if req.idle_timeout_secs is Some || req.idle == Some(true) {
            Err(
                ErrorView::InvalidArgument(
                    "idle policy requires a full-state snapshot backend (firecracker)"@,
                ),
            )
        } else {
            Ok(())
        },
    }
}

/// Check a request before anything is allocated for it: there is no bridge to put a VM
/// on, and no snapshot to suspend it into.
pub fn check_vz_request(req: &CreateVmRequest) -> (r: Result<(), CoreError>)
    ensures
        unit_view(r) == vz_verdict(req@),
{
    let mode = match validate_network_mode(
        match &req.network {
            Some(n) => Some(n.as_str()),
            None => None,
        },
    ) {
        Ok(m) => m,
        Err(e) => { return Err(e); },
    };
    if str_eq(mode, "bridged") {
        return Err(invalid_argument("bridged networking is only supported on Linux"));
    }
    let idle = match req.idle {
        Some(b) => b,
        None => false,
    };
    if req.idle_timeout_secs.is_some() || idle {
        return Err(
            invalid_argument("idle policy requires a full-state snapshot backend (firecracker)"),
        );
    }
    Ok(())
}

/// A request is taken exactly where it asks for NAT, or for no network in particular, and for
/// no idle policy.
pub proof fn vz_requests_are_refused_for_cause(req: VmRequestView)
    ensures
        vz_verdict(req) is Ok <==> (req.network is None || req.network == Some("nat"@))
            && req.idle_timeout_secs is None && req.idle != Some(true),
        vz_verdict(req) matches Err(e) ==> e is InvalidArgument,
        req.network == Some("bridged"@) ==> vz_verdict(req) == Err::<(), ErrorView>(
            ErrorView::InvalidArgument("bridged networking is only supported on Linux"@),
        ),
{
    reveal_strlit("nat");
    reveal_strlit("bridged");
    assert("nat"@.len() != "bridged"@.len());
}

/// What is wrong with the volume of a request, if anything.
pub open spec fn vz_volume_verdict(req: VmRequestView) -> Result<(), ErrorView> {
    if req.cloud_image is Some && req.volume is Some {
        Err(
            ErrorView::InvalidArgument(
                "--volume with --cloud-image is not yet supported on macOS"@,
            ),
        )
    } else {
        Ok(())
    }
}

/// What a cloud image lacks, if anything.
pub open spec fn vz_cloud_verdict(
    agent_present: bool,
    disk_size: Option<u64>,
    virtual_size: u64,
) -> Result<(), ErrorView> {
    if !agent_present {
        Err(
            ErrorView::InvalidArgument(
                "cloud-image VMs need the embedded guest agent; this build has none (Apple Silicon builds embed it; rebuild via make install)"@,
            ),
        )
    } else if disk_size is Some && disk_size->0 < virtual_size {
        Err(
            ErrorView::InvalidArgument(
                "--disk-size "@ + decimal(disk_size->0 as nat)
                    + " is smaller than the image's virtual size "@ + decimal(virtual_size as nat),
            ),
        )
    } else {
        Ok(())
    }
}

/// What a direct-kernel boot lacks, if anything.
pub open spec fn vz_paths_verdict(req: VmRequestView) -> Result<(), ErrorView> {
    if req.kernel_path is None {
        Err(ErrorView::InvalidArgument("kernel_path is required for direct-kernel boot"@))
    } else if req.rootfs_path is None {
        Err(ErrorView::InvalidArgument("rootfs_path is required for direct-kernel boot"@))
    } else {
        Ok(())
    }
}

/// What the seed of a cloud image is made from.
pub open spec fn vz_seed_of(agent: Seq<u8>, req: VmRequestView) -> SeedView {
    SeedView {
        agent,
        hostname: req.name,
        instance_id: req.name,
        ssh_authorized_keys: req.ssh_authorized_keys,
        network: None,
        mount_volume: false,
    }
}

/// A VM boots either from a kernel and a rootfs, both of which have to be named, or from a
/// cloud image, which needs an agent, a disk that is not smaller than itself, and no volume
/// beside it. A disk that is too small is told with both sizes.
pub proof fn vz_boots_need_what_they_boot_from(
    req: VmRequestView,
    agent_present: bool,
    disk_size: Option<u64>,
    virtual_size: u64,
)
    ensures
        vz_volume_verdict(req) is Ok <==> req.cloud_image is None || req.volume is None,
        vz_paths_verdict(req) is Ok <==> req.kernel_path is Some && req.rootfs_path is Some,
        vz_cloud_verdict(agent_present, disk_size, virtual_size) is Ok <==> agent_present && (
        disk_size matches Some(size) ==> size >= virtual_size),
        vz_volume_verdict(req) matches Err(e) ==> e is InvalidArgument,
        vz_paths_verdict(req) matches Err(e) ==> e is InvalidArgument,
        vz_cloud_verdict(agent_present, disk_size, virtual_size) matches Err(e) ==> e
            is InvalidArgument,
        req.kernel_path is None ==> vz_paths_verdict(req)->Err_0->InvalidArgument_0
            == "kernel_path is required for direct-kernel boot"@,
        req.kernel_path is Some && req.rootfs_path is None ==> vz_paths_verdict(
            req,
        )->Err_0->InvalidArgument_0 == "rootfs_path is required for direct-kernel boot"@,
        agent_present && disk_size is Some && disk_size->0 < virtual_size ==> occurs_at(
            vz_cloud_verdict(agent_present, disk_size, virtual_size)->Err_0->InvalidArgument_0,
            decimal(disk_size->0 as nat),
            "--disk-size "@.len() as int,
        ) && has_suffix(
            vz_cloud_verdict(agent_present, disk_size, virtual_size)->Err_0->InvalidArgument_0,
            decimal(virtual_size as nat),
        ),
{
    if disk_size is Some {
        let d = decimal(disk_size->0 as nat);
        let v = decimal(virtual_size as nat);
        let m = " is smaller than the image's virtual size "@;
        stands_between("--disk-size "@, d, m + v);
        assert("--disk-size "@ + d + m + v =~= "--disk-size "@ + d + (m + v));
        stands_at_the_end("--disk-size "@ + d + m, v);
    }
}

/// A seed carries the daemon's agent and the caller's keys, and introduces the VM by its own
/// name. It tells of no address and mounts no volume.
pub proof fn vz_seeds_introduce_the_vm(agent: Seq<u8>, req: VmRequestView)
    ensures
        vz_seed_of(agent, req).agent == agent,
        vz_seed_of(agent, req).hostname == req.name,
        vz_seed_of(agent, req).instance_id == req.name,
        vz_seed_of(agent, req).ssh_authorized_keys == req.ssh_authorized_keys,
        vz_seed_of(agent, req).network is None,
        !vz_seed_of(agent, req).mount_volume,
{
}

/// Reject a volume beside a cloud image.
pub fn check_vz_volume(req: &CreateVmRequest) -> (r: Result<(), CoreError>)
    ensures
        unit_view(r) == vz_volume_verdict(req@),
{
    if req.cloud_image.is_some() && req.volume.is_some() {
        return Err(
            invalid_argument("--volume with --cloud-image is not yet supported on macOS"),
        );
    }
    Ok(())
}

/// What a cloud image needs before its disk is converted: an agent for the seed, and a
/// disk that is not to be smaller than the image. `virtual_size` is asked for only
/// where a size is requested.
pub fn check_vz_cloud(agent_present: bool, disk_size: Option<u64>, virtual_size: u64) -> (r: Result<
    (),
    CoreError,
>)
    ensures
        unit_view(r) == vz_cloud_verdict(agent_present, disk_size, virtual_size),
{
    if !agent_present {
        return Err(
            invalid_argument(
                "cloud-image VMs need the embedded guest agent; this build has none (Apple Silicon builds embed it; rebuild via make install)",
            ),
        );
    }
    if let Some(size) = disk_size {
        if size < virtual_size {
            return Err(
                CoreError::InvalidArgument(
                    "--disk-size ".to_owned().concat(decimal_string(size).as_str()).concat(
                        " is smaller than the image's virtual size ",
                    ).concat(decimal_string(virtual_size).as_str()),
                ),
            );
        }
    }
    Ok(())
}

/// Reject a direct-kernel boot without a kernel or without a rootfs.
pub fn require_vz_paths(req: &CreateVmRequest) -> (r: Result<(), CoreError>)
    ensures
        unit_view(r) == vz_paths_verdict(req@),
{
    if req.kernel_path.is_none() {
        return Err(invalid_argument("kernel_path is required for direct-kernel boot"));
    }
    if req.rootfs_path.is_none() {
        return Err(invalid_argument("rootfs_path is required for direct-kernel boot"));
    }
    Ok(())
}

/// Say what the seed of a cloud image is made from. The framework's network hands out
/// addresses by DHCP, so the seed tells of none.
pub fn vz_seed_spec(core: &HuskerCore, req: &CreateVmRequest) -> (r: SeedSpec)
    ensures
        r@ == vz_seed_of(core.embedded_agent@, req@),
{
    SeedSpec {
        agent: core.embedded_agent.clone(),
        hostname: req.name.clone(),
        instance_id: req.name.clone(),
        ssh_authorized_keys: copy_texts(&req.ssh_authorized_keys),
        network: None,
        mount_volume: false,
    }
}

/// What the framework is asked to start. A cloud image boots through EFI from a
/// converted disk; another VM boots its kernel from a copy of its rootfs.
pub open spec fn vz_config_of(
    req: VmRequestView,
    default_cpus: Option<u32>,
    default_memory: Option<u32>,
    cid: u32,
    vm_dir: Seq<char>,
    initrd: Option<Seq<char>>,
    volume_path: Option<Seq<char>>,
) -> ConfigView {
    let common = ConfigView {
        name: req.name,
        vcpu_count: or_default(req.vcpu_count, default_cpus, 1),
        mem_size_mib: or_default(req.mem_size_mib, default_memory, 128),
        kernel_path: ""@,
        rootfs_path: joined(vm_dir, "disk.raw"@),
        kernel_args: None,
        initrd_path: None,
        vsock_cid: cid,
        tap_device: None,
        guest_mac: None,
        vmm: None,
        boot: BootView::Efi { variable_store: joined(vm_dir, "nvram.bin"@) },
        seed_path: Some(joined(vm_dir, "seed.img"@)),
        balloon: req.balloon,
        volume_path: None,
        host_shares: Seq::empty(),
    };
    if req.cloud_image is Some {
        common
    } else {
        ConfigView {
            kernel_path: if req.kernel_path is Some {
                req.kernel_path->0
            } else {
                ""@
            },
            rootfs_path: joined(vm_dir, "rootfs.ext4"@),
            kernel_args: Some("console=hvc0 root=/dev/vda rw init=/sbin/init"@),
            initrd_path: initrd,
            boot: BootView::DirectKernel,
            seed_path: None,
            volume_path,
            ..common
        }
    }
}

/// The framework starts what was requested: the VM's own name, size and id, no TAP, and
/// either the request's kernel on a copy of its rootfs, with the initrd and the volume, or
/// the converted disk through EFI, with a seed and without any of these. All of the VM's
/// files lie in its directory.
pub proof fn the_framework_starts_what_was_requested(
    req: VmRequestView,
    default_cpus: Option<u32>,
    default_memory: Option<u32>,
    cid: u32,
    vm_dir: Seq<char>,
    initrd: Option<Seq<char>>,
    volume_path: Option<Seq<char>>,
)
    ensures
        ({
            let c = vz_config_of(
                req,
                default_cpus,
                default_memory,
                cid,
                vm_dir,
                initrd,
                volume_path,
            );
            &&& c.name == req.name && c.vsock_cid == cid && c.balloon == req.balloon
            &&& c.tap_device is None && c.guest_mac is None && c.host_shares.len() == 0
            &&& req.vcpu_count matches Some(n) ==> c.vcpu_count == n
            &&& req.mem_size_mib matches Some(n) ==> c.mem_size_mib == n
            &&& req.vcpu_count is None && default_cpus is Some ==> Some(c.vcpu_count)
                == default_cpus
            &&& req.mem_size_mib is None && default_memory is Some ==> Some(c.mem_size_mib)
                == default_memory
            &&& req.vcpu_count is None && default_cpus is None ==> c.vcpu_count == 1
            &&& req.mem_size_mib is None && default_memory is None ==> c.mem_size_mib == 128
            &&& req.cloud_image is Some ==> {
                &&& c.boot == (BootView::Efi { variable_store: joined(vm_dir, "nvram.bin"@) })
                &&& c.rootfs_path == joined(vm_dir, "disk.raw"@)
                &&& c.seed_path == Some(joined(vm_dir, "seed.img"@))
                &&& c.kernel_path.len() == 0 && c.kernel_args is None && c.initrd_path is None
                &&& c.volume_path is None
            }
            &&& req.cloud_image is None ==> {
                &&& c.boot is DirectKernel
                &&& c.rootfs_path == joined(vm_dir, "rootfs.ext4"@)
                &&& req.kernel_path matches Some(k) ==> c.kernel_path == k
                &&& c.kernel_args is Some && occurs(c.kernel_args->0, "root=/dev/vda"@)
                    && has_suffix(c.kernel_args->0, "init=/sbin/init"@)
                &&& c.initrd_path == initrd && c.volume_path == volume_path && c.seed_path is None
            }
        }),
{
    reveal_strlit("");
    reveal_strlit("console=hvc0 root=/dev/vda rw init=/sbin/init");
    reveal_strlit("root=/dev/vda");
    reveal_strlit("init=/sbin/init");
    let args = "console=hvc0 root=/dev/vda rw init=/sbin/init"@;
    assert(args.subrange(13, 26) =~= "root=/dev/vda"@);
    assert(occurs_at(args, "root=/dev/vda"@, 13));
    assert(args.subrange(30, 45) =~= "init=/sbin/init"@);
}

/// Assemble what the framework is asked to start.
pub fn build_vz_config(
    core: &HuskerCore,
    req: &CreateVmRequest,
    cid: u32,
    vm_dir: &str,
    initrd: Option<String>,
    volume_path: Option<String>,
) -> (r: VmConfig)
    ensures
        r@ == vz_config_of(
            req@,
            core.default_cpus,
            core.default_memory,
            cid,
            vm_dir@,
            opt_view(initrd),
            opt_view(volume_path),
        ),
{
    let cloud = req.cloud_image.is_some();
    let r = VmConfig {
        name: req.name.clone(),
        vcpu_count: pick(req.vcpu_count, core.default_cpus, 1),
        mem_size_mib: pick(req.mem_size_mib, core.default_memory, 128),
        kernel_path: if cloud {
            "".to_owned()
        } else {
            path_or_empty(&req.kernel_path)
        },
        rootfs_path: if cloud {
            join(vm_dir, "disk.raw")
        } else {
            join(vm_dir, "rootfs.ext4")
        },
        kernel_args: if cloud {
            None
        } else {
            Some("console=hvc0 root=/dev/vda rw init=/sbin/init".to_owned())
        },
        initrd_path: if cloud {
            None
        } else {
            initrd
        },
        vsock_cid: cid,
        tap_device: None,
        guest_mac: None,
        vmm: None,
        boot: if cloud {
            BootMode::Efi { variable_store: join(vm_dir, "nvram.bin") }
        } else {
            BootMode::DirectKernel
        },
        seed_path: if cloud {
            Some(join(vm_dir, "seed.img"))
        } else {
            None
        },
        balloon: req.balloon,
        volume_path: if cloud {
            None
        } else {
            volume_path
        },
        host_shares: Vec::new(),
    };
    proof {
        assert(share_views(r.host_shares@) =~= Seq::<ShareView>::empty());
    }
    r
}

/// What a VM is recorded as that the framework has just started.
pub open spec fn vz_record_of(
    req: VmRequestView,
    cid: u32,
    info: VmInfo,
    tags: Option<ServiceTag>,
    cloud_source: Seq<char>,
    volume: Option<Seq<char>>,
    now: Timestamp,
) -> VmView {
    let cloud = req.cloud_image is Some;
    VmView {
        id: info.id,
        name: req.name,
        state: info.state@,
        pid: info.pid,
        vcpu_count: info.vcpu_count,
        mem_size_mib: info.mem_size_mib,
        vsock_cid: cid,
        tap_device: None,
        host_ip: None,
        guest_ip: None,
        kernel_path: if cloud || req.kernel_path is None {
            ""@
        } else {
            req.kernel_path->0
        },
        rootfs_path: if cloud {
            cloud_source
        } else if req.rootfs_path is Some {
            req.rootfs_path->0
        } else {
            ""@
        },
        created_at: now,
        updated_at: now,
        userdata: req.userdata,
        userdata_status: if req.userdata is Some {
            Some("pending"@)
        } else {
            None
        },
        userdata_env: stored_env(req.env),
        service_id: match tags {
            Some(t) => Some(t.service_id),
            None => None,
        },
        service_ordinal: match tags {
            Some(t) => Some(t.ordinal),
            None => None,
        },
        vmm: "apple_vz"@,
        boot_mode: if cloud {
            "efi"@
        } else {
            "direct"@
        },
        balloon: req.balloon,
        volume: if cloud {
            None
        } else {
            volume
        },
        network: "nat"@,
        last_activity_at: now,
        suspended_at: None,
        idle_timeout_secs: None,
        suspend_ttl_secs: None,
        auto_resume: true,
        forked_from: None,
    }
}

/// A record tells what was started, under the request's name and with what the framework
/// says of it. A cloud image is recorded with its source and EFI, another VM with its own
/// kernel, rootfs and volume. A script waits to be run. There is no address, no TAP and no
/// idle policy, and the VM belongs to the service that it was tagged with.
pub proof fn vz_records_tell_what_was_started(
    req: VmRequestView,
    cid: u32,
    info: VmInfo,
    tags: Option<ServiceTag>,
    cloud_source: Seq<char>,
    volume: Option<Seq<char>>,
    now: Timestamp,
)
    ensures
        ({
            let r = vz_record_of(req, cid, info, tags, cloud_source, volume, now);
            &&& r.id == info.id && r.state == info.state@ && r.pid == info.pid
            &&& r.vcpu_count == info.vcpu_count && r.mem_size_mib == info.mem_size_mib
            &&& r.name == req.name && r.vsock_cid == cid && r.balloon == req.balloon
            &&& r.tap_device is None && r.host_ip is None && r.guest_ip is None
            &&& r.created_at == now && r.updated_at == now && r.last_activity_at == now
            &&& r.userdata == req.userdata && r.userdata_env == stored_env(req.env)
            &&& r.userdata_status is Some <==> req.userdata is Some
            &&& r.userdata_status matches Some(s) ==> s == "pending"@
            &&& tags matches Some(t) ==> r.service_id == Some(t.service_id) && r.service_ordinal
                == Some(t.ordinal)
            &&& tags is None ==> r.service_id is None && r.service_ordinal is None
            &&& r.vmm == "apple_vz"@ && r.network == "nat"@
            &&& r.boot_mode == "efi"@ <==> req.cloud_image is Some
            &&& r.boot_mode == "direct"@ <==> req.cloud_image is None
            &&& req.cloud_image is Some ==> r.rootfs_path == cloud_source && r.kernel_path.len()
                == 0 && r.volume is None
            &&& req.cloud_image is None ==> r.volume == volume
            &&& req.cloud_image is None && req.kernel_path is Some ==> r.kernel_path
                == req.kernel_path->0
            &&& req.cloud_image is None && req.rootfs_path is Some ==> r.rootfs_path
                == req.rootfs_path->0
            &&& r.idle_timeout_secs is None && r.suspend_ttl_secs is None && r.suspended_at is None
            &&& r.auto_resume && r.forked_from is None
        }),
{
    reveal_strlit("");
    reveal_strlit("efi");
    reveal_strlit("direct");
    assert("efi"@.len() != "direct"@.len());
}

/// Write down a VM that the framework has just started.
pub fn build_vz_record(
    req: &CreateVmRequest,
    cid: u32,
    info: VmInfo,
    tags: Option<ServiceTag>,
    cloud_source: &str,
    volume: Option<String>,
    now: Timestamp,
) -> (r: VmRecord)
    ensures
        r@ == vz_record_of(req@, cid, info, tags, cloud_source@, opt_view(volume), now),
{
    let cloud = req.cloud_image.is_some();
    VmRecord {
        id: info.id,
        name: req.name.clone(),
        state: info.state,
        pid: info.pid,
        vcpu_count: info.vcpu_count,
        mem_size_mib: info.mem_size_mib,
        vsock_cid: cid,
        tap_device: None,
        host_ip: None,
        guest_ip: None,
        kernel_path: if cloud {
            "".to_owned()
        } else {
            path_or_empty(&req.kernel_path)
        },
        rootfs_path: if cloud {
            cloud_source.to_owned()
        } else {
            path_or_empty(&req.rootfs_path)
        },
        created_at: now,
        updated_at: now,
        userdata: req.userdata.clone(),
        userdata_status: if req.userdata.is_some() {
            Some("pending".to_owned())
        } else {
            None
        },
        userdata_env: store_env(&req.env),
        service_id: match tags {
            Some(t) => Some(t.service_id),
            None => None,
        },
        service_ordinal: match tags {
            Some(t) => Some(t.ordinal),
            None => None,
        },
        vmm: "apple_vz".to_owned(),
        boot_mode: if cloud {
            "efi".to_owned()
        } else {
            "direct".to_owned()
        },
        balloon: req.balloon,
        volume: if cloud {
            None
        } else {
            volume
        },
        network: "nat".to_owned(),
        last_activity_at: now,
        suspended_at: None,
        idle_timeout_secs: None,
        suspend_ttl_secs: None,
        auto_resume: true,
        forked_from: None,
    }
}

// ---------------------------------------------------------------------------
// The steps
// ---------------------------------------------------------------------------

/// The steps of creating a VM, in order: first those of every VM, then those of a cloud
/// image or those of a direct-kernel VM, then again those of every VM.
#[derive(Debug, Clone, Copy, PartialEq, Eq, Structural)]
pub enum VzStep {
    AllocateCid,
    /// Remove a directory that an earlier VM of the name left behind.
    ClearDir,
    /// Find the cloud image, and check it.
    CheckImage,
    /// Make the VM's directory.
    MakeDir,
    /// Convert the image, and grow the disk.
    PrepareDisk,
    WriteSeed,
    /// Copy the rootfs into the VM's directory.
    CloneRootfs,
    FindVolume,
    StartVm,
    Insert,
    Done,
    Failed,
}

/// What a step took from the host, if it succeeded.
#[derive(Debug)]
pub enum VzOutcome {
    Passed,
    TookCid(u32),
    TookDir(String),
    TookVm(u128),
    Refused,
}

/// The step that follows.
pub open spec fn vz_step_after(cloud: bool, step: VzStep) -> VzStep {
    match step {
        VzStep::AllocateCid => VzStep::ClearDir,
        VzStep::ClearDir => if cloud {
            VzStep::CheckImage
        } else {
            VzStep::CloneRootfs
        },
        VzStep::CheckImage => VzStep::MakeDir,
        VzStep::MakeDir => VzStep::PrepareDisk,
        VzStep::PrepareDisk => VzStep::WriteSeed,
        VzStep::WriteSeed => VzStep::StartVm,
        VzStep::CloneRootfs => VzStep::FindVolume,
        VzStep::FindVolume => VzStep::StartVm,
        VzStep::StartVm => VzStep::Insert,
        VzStep::Insert => VzStep::Done,
        VzStep::Done => VzStep::Done,
        VzStep::Failed => VzStep::Failed,
    }
}

/// What is held after a step with this outcome.
pub open spec fn vz_booked(l: LedgerView, outcome: VzOutcome) -> LedgerView {
    match outcome {
        VzOutcome::TookCid(c) => LedgerView { cid: Some(c), ..l },
        VzOutcome::TookDir(d) => LedgerView { vm_dir: Some(d@), ..l },
        VzOutcome::TookVm(id) => LedgerView { vm_id: Some(id), ..l },
        _ => l,
    }
}

/// What a step took is booked under what it is, and nothing else changes in the books. A
/// refused step takes nothing.
pub proof fn vz_creations_book_what_they_take(l: LedgerView, outcome: VzOutcome)
    ensures
        ({
            let b = vz_booked(l, outcome);
            &&& outcome matches VzOutcome::TookCid(c) ==> b.cid == Some(c) && b == (LedgerView {
                cid: b.cid,
                ..l
            })
            &&& outcome matches VzOutcome::TookDir(d) ==> b.vm_dir == Some(d@) && b == (
            LedgerView { vm_dir: b.vm_dir, ..l })
            &&& outcome matches VzOutcome::TookVm(id) ==> b.vm_id == Some(id) && b == (
            LedgerView { vm_id: b.vm_id, ..l })
            &&& outcome is Passed || outcome is Refused ==> b == l
        }),
{
}

/// The steps of a creation come in this order. A cloud image is checked before a directory is
/// made for it, its disk is prepared and then seeded; any other rootfs is copied before its
/// volume is found. The VM is started only when its disk is ready, and recorded only when it
/// was started.
pub proof fn vz_creations_take_their_steps_in_order(cloud: bool, s: VzStep)
    ensures
        vz_step_after(cloud, s) == VzStep::ClearDir <==> s == VzStep::AllocateCid,
        vz_step_after(cloud, s) == VzStep::CheckImage <==> s == VzStep::ClearDir && cloud,
        vz_step_after(cloud, s) == VzStep::CloneRootfs <==> s == VzStep::ClearDir && !cloud,
        vz_step_after(cloud, s) == VzStep::MakeDir <==> s == VzStep::CheckImage,
        vz_step_after(cloud, s) == VzStep::PrepareDisk <==> s == VzStep::MakeDir,
        vz_step_after(cloud, s) == VzStep::WriteSeed <==> s == VzStep::PrepareDisk,
        vz_step_after(cloud, s) == VzStep::FindVolume <==> s == VzStep::CloneRootfs,
        vz_step_after(cloud, s) == VzStep::StartVm <==> s == VzStep::WriteSeed || s
            == VzStep::FindVolume,
        vz_step_after(cloud, s) == VzStep::Insert <==> s == VzStep::StartVm,
        vz_step_after(cloud, s) == VzStep::Done <==> s == VzStep::Insert || s == VzStep::Done,
        vz_step_after(cloud, s) != VzStep::AllocateCid,
{
}

/// The outcome is one that the step can have.
pub open spec fn vz_outcome_fits(step: VzStep, outcome: VzOutcome) -> bool {
    match outcome {
        VzOutcome::Refused => step != VzStep::Done && step != VzStep::Failed,
        VzOutcome::TookCid(_) => step == VzStep::AllocateCid,
        VzOutcome::TookDir(_) => step == VzStep::MakeDir || step == VzStep::CloneRootfs,
        VzOutcome::TookVm(_) => step == VzStep::StartVm,
        VzOutcome::Passed => step == VzStep::ClearDir || step == VzStep::CheckImage || step
            == VzStep::PrepareDisk || step == VzStep::WriteSeed || step == VzStep::FindVolume
            || step == VzStep::Insert,
    }
}

/// What is held before a step.
pub open spec fn vz_holds(step: VzStep, l: LedgerView) -> bool {
    &&& l.guest_ip is None && l.tap_name is None && l.lease is None
    &&& l.cid is Some <==> step != VzStep::AllocateCid
    &&& l.vm_dir is Some <==> (step == VzStep::PrepareDisk || step == VzStep::WriteSeed || step
        == VzStep::FindVolume || step == VzStep::StartVm || step == VzStep::Insert || step
        == VzStep::Done)
    &&& l.vm_id is Some <==> (step == VzStep::Insert || step == VzStep::Done)
}

/// A VM being created.
#[derive(Debug)]
pub struct VzCreation {
    pub cloud: bool,
    pub step: VzStep,
    pub failed_at: Option<VzStep>,
    pub resources: AllocatedResources,
}

impl VzCreation {
    /// The books are in order.
    pub open spec fn wf(self) -> bool {
        if self.step == VzStep::Failed {
            &&& self.failed_at is Some
            &&& self.failed_at->0 != VzStep::Failed
            &&& self.failed_at->0 != VzStep::Done
            &&& vz_holds(self.failed_at->0, self.resources@)
        } else {
            &&& self.failed_at is None
            &&& vz_holds(self.step, self.resources@)
        }
    }

    /// Begin to create a VM.
    pub fn begin(cloud: bool) -> (r: VzCreation)
        ensures
            r.wf(),
            r.cloud == cloud && r.step == VzStep::AllocateCid && r.resources@ == nothing_held(),
    {
        VzCreation {
            cloud,
            step: VzStep::AllocateCid,
            failed_at: None,
            resources: AllocatedResources::default(),
        }
    }

    fn following(&self) -> (r: VzStep)
        ensures
            r == vz_step_after(self.cloud, self.step),
    {
        match self.step {
            VzStep::AllocateCid => VzStep::ClearDir,
            VzStep::ClearDir => if self.cloud {
                VzStep::CheckImage
            } else {
                VzStep::CloneRootfs
            },
            VzStep::CheckImage => VzStep::MakeDir,
            VzStep::MakeDir => VzStep::PrepareDisk,
            VzStep::PrepareDisk => VzStep::WriteSeed,
            VzStep::WriteSeed => VzStep::StartVm,
            VzStep::CloneRootfs => VzStep::FindVolume,
            VzStep::FindVolume => VzStep::StartVm,
            VzStep::StartVm => VzStep::Insert,
            VzStep::Insert => VzStep::Done,
            VzStep::Done => VzStep::Done,
            VzStep::Failed => VzStep::Failed,
        }
    }

    /// Enter what a step gave. A refused step ends the creation; what was taken until
    /// then has to be given back.
    pub fn advance(&mut self, outcome: VzOutcome)
        requires
            old(self).wf(),
            vz_outcome_fits(old(self).step, outcome),
        ensures
            final(self).wf(),
            final(self).cloud == old(self).cloud,
            outcome is Refused ==> final(self).step == VzStep::Failed && final(self).failed_at
                == Some(old(self).step),
            !(outcome is Refused) ==> final(self).step == vz_step_after(
                old(self).cloud,
                old(self).step,
            ),
            final(self).resources@ == vz_booked(old(self).resources@, outcome),
    {
        match outcome {
            VzOutcome::Refused => {
                self.failed_at = Some(self.step);
                self.step = VzStep::Failed;
                return;
            },
            VzOutcome::Passed => {},
            VzOutcome::TookCid(c) => {
                self.resources.cid = Some(c);
            },
            VzOutcome::TookDir(d) => {
                self.resources.vm_dir = Some(d);
            },
            VzOutcome::TookVm(id) => {
                self.resources.vm_id = Some(id);
            },
        }
        self.step = self.following();
    }
}

/// A creation that failed gives back exactly what it had taken: the id once it was
/// allocated, the directory once it was made, the VM once it was started.
pub proof fn failed_vz_creations_leave_nothing_behind(c: VzCreation)
    requires
        c.wf(),
        c.step == VzStep::Failed,
    ensures
        ({
            let at = c.failed_at->0;
            let releases = rollback_of(c.resources@);
            let made = at == VzStep::PrepareDisk || at == VzStep::WriteSeed || at
                == VzStep::FindVolume || at == VzStep::StartVm || at == VzStep::Insert;
            &&& at != VzStep::AllocateCid <==> releases.contains(
                ReleaseView::FreeCid(c.resources@.cid->0),
            )
            &&& made <==> releases.contains(ReleaseView::RemoveDir(c.resources@.vm_dir->0))
            &&& at == VzStep::Insert <==> releases.contains(
                ReleaseView::DestroyVm(c.resources@.vm_id->0),
            )
            &&& releases.len() == (if at == VzStep::AllocateCid {
                0int
            } else if !made {
                1
            } else if at != VzStep::Insert {
                2
            } else {
                3
            })
        }),
{
    let l = c.resources@;
    let releases = rollback_of(l);
    let at = c.failed_at->0;
    let vms = if l.vm_id is Some { 1int } else { 0 };
    let dirs = if l.vm_dir is Some { 1int } else { 0 };
    if l.vm_id is Some {
        assert(releases[0] == ReleaseView::DestroyVm(l.vm_id->0));
    }
    if l.vm_dir is Some {
        assert(releases[vms] == ReleaseView::RemoveDir(l.vm_dir->0));
    }
    if l.cid is Some {
        assert(releases[vms + dirs] == ReleaseView::FreeCid(l.cid->0));
    }
}

/// The steps of a creation that are left.
pub open spec fn vz_left(step: VzStep) -> nat {
    match step {
        VzStep::AllocateCid => 8,
        VzStep::ClearDir => 7,
        VzStep::CheckImage => 6,
        VzStep::MakeDir => 5,
        VzStep::PrepareDisk => 4,
        VzStep::WriteSeed => 3,
        VzStep::CloneRootfs => 4,
        VzStep::FindVolume => 3,
        VzStep::StartVm => 2,
        VzStep::Insert => 1,
        VzStep::Done => 0,
        VzStep::Failed => 0,
    }
}

/// A creation ends: each step leaves fewer.
pub proof fn vz_creations_end(cloud: bool, step: VzStep)
    requires
        step != VzStep::Done,
        step != VzStep::Failed,
    ensures
        vz_left(vz_step_after(cloud, step)) < vz_left(step),
{
}

} // verus!
