//! The records that the state store keeps and the requests that callers make.

use vstd::prelude::*;

use crate::time::Timestamp;
use crate::text::str_eq;
#[allow(unused_imports)]
use crate::text::opt_view;

verus! {

/// A VM as the state store keeps it.
#[derive(Debug)]
pub struct VmRecord {
    pub id: u128,
    pub name: String,
    pub state: String,
    pub pid: Option<u32>,
    pub vcpu_count: u32,
    pub mem_size_mib: u32,
    pub vsock_cid: u32,
    pub tap_device: Option<String>,
    pub host_ip: Option<String>,
    pub guest_ip: Option<String>,
    pub kernel_path: String,
    pub rootfs_path: String,
    pub created_at: Timestamp,
    pub updated_at: Timestamp,
    pub userdata: Option<String>,
    pub userdata_status: Option<String>,
    pub userdata_env: Option<String>,
    pub service_id: Option<u128>,
    pub service_ordinal: Option<u32>,
    pub vmm: String,
    pub boot_mode: String,
    pub balloon: bool,
    pub volume: Option<String>,
    pub network: String,
    pub last_activity_at: Timestamp,
    pub suspended_at: Option<Timestamp>,
    pub idle_timeout_secs: Option<u64>,
    pub suspend_ttl_secs: Option<u64>,
    pub auto_resume: bool,
    pub forked_from: Option<u128>,
}

impl Clone for VmRecord {
    fn clone(&self) -> (r: VmRecord)
        ensures
            r == *self,
    {
        VmRecord {
            id: self.id,
            name: self.name.clone(),
            state: self.state.clone(),
            pid: self.pid,
            vcpu_count: self.vcpu_count,
            mem_size_mib: self.mem_size_mib,
            vsock_cid: self.vsock_cid,
            tap_device: self.tap_device.clone(),
            host_ip: self.host_ip.clone(),
            guest_ip: self.guest_ip.clone(),
            kernel_path: self.kernel_path.clone(),
            rootfs_path: self.rootfs_path.clone(),
            created_at: self.created_at,
            updated_at: self.updated_at,
            userdata: self.userdata.clone(),
            userdata_status: self.userdata_status.clone(),
            userdata_env: self.userdata_env.clone(),
            service_id: self.service_id,
            service_ordinal: self.service_ordinal,
            vmm: self.vmm.clone(),
            boot_mode: self.boot_mode.clone(),
            balloon: self.balloon,
            volume: self.volume.clone(),
            network: self.network.clone(),
            last_activity_at: self.last_activity_at,
            suspended_at: self.suspended_at,
            idle_timeout_secs: self.idle_timeout_secs,
            suspend_ttl_secs: self.suspend_ttl_secs,
            auto_resume: self.auto_resume,
            forked_from: self.forked_from,
        }
    }
}

/// A [`VmRecord`] with its texts as sequences of characters.
pub ghost struct VmView {
    pub id: u128,
    pub name: Seq<char>,
    pub state: Seq<char>,
    pub pid: Option<u32>,
    pub vcpu_count: u32,
    pub mem_size_mib: u32,
    pub vsock_cid: u32,
    pub tap_device: Option<Seq<char>>,
    pub host_ip: Option<Seq<char>>,
    pub guest_ip: Option<Seq<char>>,
    pub kernel_path: Seq<char>,
    pub rootfs_path: Seq<char>,
    pub created_at: Timestamp,
    pub updated_at: Timestamp,
    pub userdata: Option<Seq<char>>,
    pub userdata_status: Option<Seq<char>>,
    pub userdata_env: Option<Seq<char>>,
    pub service_id: Option<u128>,
    pub service_ordinal: Option<u32>,
    pub vmm: Seq<char>,
    pub boot_mode: Seq<char>,
    pub balloon: bool,
    pub volume: Option<Seq<char>>,
    pub network: Seq<char>,
    pub last_activity_at: Timestamp,
    pub suspended_at: Option<Timestamp>,
    pub idle_timeout_secs: Option<u64>,
    pub suspend_ttl_secs: Option<u64>,
    pub auto_resume: bool,
    pub forked_from: Option<u128>,
}

impl View for VmRecord {
    type V = VmView;

    open spec fn view(&self) -> VmView {
        VmView {
            id: self.id,
            name: self.name@,
            state: self.state@,
            pid: self.pid,
            vcpu_count: self.vcpu_count,
            mem_size_mib: self.mem_size_mib,
            vsock_cid: self.vsock_cid,
            tap_device: opt_view(self.tap_device),
            host_ip: opt_view(self.host_ip),
            guest_ip: opt_view(self.guest_ip),
            kernel_path: self.kernel_path@,
            rootfs_path: self.rootfs_path@,
            created_at: self.created_at,
            updated_at: self.updated_at,
            userdata: opt_view(self.userdata),
            userdata_status: opt_view(self.userdata_status),
            userdata_env: opt_view(self.userdata_env),
            service_id: self.service_id,
            service_ordinal: self.service_ordinal,
            vmm: self.vmm@,
            boot_mode: self.boot_mode@,
            balloon: self.balloon,
            volume: opt_view(self.volume),
            network: self.network@,
            last_activity_at: self.last_activity_at,
            suspended_at: self.suspended_at,
            idle_timeout_secs: self.idle_timeout_secs,
            suspend_ttl_secs: self.suspend_ttl_secs,
            auto_resume: self.auto_resume,
            forked_from: self.forked_from,
        }
    }
}

/// Where a VM stands in its life, as far as the orchestrator tells states apart.
#[derive(Clone, Copy, PartialEq, Eq, Debug, Structural)]
pub enum Lifecycle {
    Running,
    Paused,
    Suspending,
    Suspended,
    Stopped,
    Failed,
    /// Any other recorded state.
    Other,
}

/// The stage of life that a recorded state stands for.
pub open spec fn lifecycle_of(state: Seq<char>) -> Lifecycle {
    if state == "running"@ {
        Lifecycle::Running
    } else if state == "paused"@ {
        Lifecycle::Paused
    } else if state == "suspending"@ {
        Lifecycle::Suspending
    } else if state == "suspended"@ {
        Lifecycle::Suspended
    } else if state == "stopped"@ {
        Lifecycle::Stopped
    } else if state == "failed"@ {
        Lifecycle::Failed
    } else {
        Lifecycle::Other
    }
}

/// The stage of life that a recorded state stands for.
pub fn lifecycle(state: &str) -> (r: Lifecycle)
    ensures
        r == lifecycle_of(state@),
{
    if str_eq(state, "running") {
        Lifecycle::Running
    } else if str_eq(state, "paused") {
        Lifecycle::Paused
    } else if str_eq(state, "suspending") {
        Lifecycle::Suspending
    } else if str_eq(state, "suspended") {
        Lifecycle::Suspended
    } else if str_eq(state, "stopped") {
        Lifecycle::Stopped
    } else if str_eq(state, "failed") {
        Lifecycle::Failed
    } else {
        Lifecycle::Other
    }
}

/// The name under which a stage of life is recorded. [`Lifecycle::Other`] has no
/// name of its own.
pub open spec fn state_name(l: Lifecycle) -> Seq<char> {
    match l {
        Lifecycle::Running => "running"@,
        Lifecycle::Paused => "paused"@,
        Lifecycle::Suspending => "suspending"@,
        Lifecycle::Suspended => "suspended"@,
        Lifecycle::Stopped => "stopped"@,
        Lifecycle::Failed => "failed"@,
        Lifecycle::Other => ""@,
    }
}

impl Lifecycle {
    /// The state that this stage of life is recorded as.
    pub fn as_str(self) -> (r: &'static str)
        ensures
            r@ == state_name(self),
    {
        match self {
            Lifecycle::Running => "running",
            Lifecycle::Paused => "paused",
            Lifecycle::Suspending => "suspending",
            Lifecycle::Suspended => "suspended",
            Lifecycle::Stopped => "stopped",
            Lifecycle::Failed => "failed",
            Lifecycle::Other => "",
        }
    }
}

/// Every recorded stage of life is read back as itself: no two share a name.
pub proof fn lifecycle_names_are_distinct(l: Lifecycle)
    ensures
        lifecycle_of(state_name(l)) == l,
{
    reveal_strlit("running");
    reveal_strlit("paused");
    reveal_strlit("suspending");
    reveal_strlit("suspended");
    reveal_strlit("stopped");
    reveal_strlit("failed");
    reveal_strlit("");
    assert("paused"@[0] == 'p');
    assert("failed"@[0] == 'f');
    assert("running"@[0] == 'r');
    assert("stopped"@[0] == 's');
    assert("suspended"@.len() == 9 && "suspending"@.len() == 10);
    assert("running"@.len() == 7 && "paused"@.len() == 6);
    assert(""@.len() == 0);
}

impl VmRecord {
    /// The stage of life that the VM is recorded in.
    pub open spec fn stage(self) -> Lifecycle {
        lifecycle_of(self.state@)
    }

    /// The stage of life that the VM is recorded in.
    pub fn lifecycle(&self) -> (r: Lifecycle)
        ensures
            r == self.stage(),
    {
        lifecycle(self.state.as_str())
    }
}

/// A service: a number of like VMs that the reconciler keeps running.
#[derive(Debug)]
pub struct ServiceRecord {
    pub id: u128,
    pub name: String,
    pub host_group_id: Option<u128>,
    pub desired_instances: u32,
    pub image: Option<String>,
    pub kernel_path: String,
    pub rootfs_path: String,
    pub initrd_path: Option<String>,
    pub vcpu_count: Option<u32>,
    pub mem_size_mib: Option<u32>,
    pub userdata: Option<String>,
    pub userdata_env: Option<String>,
    pub created_at: Timestamp,
    pub updated_at: Timestamp,
    pub cloud_image: Option<String>,
    pub disk_size: Option<u64>,
    pub balloon: bool,
    pub volume: Option<String>,
}

/// A host group.
#[derive(Debug)]
pub struct HostGroupRecord {
    pub id: u128,
    pub name: String,
    pub description: Option<String>,
    pub created_at: Timestamp,
    pub updated_at: Timestamp,
}

/// A hot pool: a suspended template VM that fresh VMs are forked from.
#[derive(Debug)]
pub struct PoolRecord {
    pub id: u128,
    pub name: String,
    pub template_vm_id: u128,
    pub rootfs_path: String,
    pub kernel_path: String,
    pub initrd_path: Option<String>,
    pub vcpu_count: Option<u32>,
    pub mem_size_mib: Option<u32>,
    pub created_at: Timestamp,
    pub updated_at: Timestamp,
}

/// A snapshot of a stopped VM's disk.
#[derive(Debug)]
pub struct SnapshotRecord {
    pub id: u128,
    pub name: String,
    pub source_vm_name: String,
    pub file_path: String,
    pub created_at: Timestamp,
}

/// An image in the catalog.
#[derive(Debug)]
pub struct ImageRecord {
    pub id: u128,
    pub name: String,
    pub source_path: String,
    pub file_path: String,
    pub format: String,
    pub kind: String,
    pub boot_init: Option<String>,
    pub size_bytes: u64,
    pub created_at: Timestamp,
}

/// A persistent volume.
#[derive(Debug)]
pub struct VolumeRecord {
    pub id: u128,
    pub name: String,
    pub file_path: String,
    pub size_bytes: u64,
    pub created_at: Timestamp,
}

/// A secret as it is stored: encrypted.
#[derive(Debug)]
pub struct SecretRecord {
    pub id: u128,
    pub name: String,
    pub ciphertext: Vec<u8>,
    pub nonce: Vec<u8>,
    pub created_at: Timestamp,
    pub updated_at: Timestamp,
}

/// A port of the host that leads to a port of a guest.
#[derive(Debug)]
pub struct PortForwardRecord {
    pub id: i64,
    pub vm_id: u128,
    pub host_port: u16,
    pub guest_port: u16,
    pub protocol: String,
    pub bind_addr: Option<String>,
    pub created_at: Timestamp,
}

impl Clone for PortForwardRecord {
    fn clone(&self) -> (r: PortForwardRecord)
        ensures
            r == *self,
    {
        PortForwardRecord {
            id: self.id,
            vm_id: self.vm_id,
            host_port: self.host_port,
            guest_port: self.guest_port,
            protocol: self.protocol.clone(),
            bind_addr: self.bind_addr.clone(),
            created_at: self.created_at,
        }
    }
}

/// What a VMM backend tells of a VM that it has started.
#[derive(Debug)]
pub struct VmInfo {
    pub id: u128,
    pub state: String,
    pub pid: Option<u32>,
    pub vcpu_count: u32,
    pub mem_size_mib: u32,
}

/// The VMM backends.
#[derive(Clone, Copy, PartialEq, Eq, Debug, Structural)]
pub enum VmmKind {
    Firecracker,
    Qemu,
}

/// The name that a backend is recorded and requested under.
pub open spec fn vmm_name(kind: VmmKind) -> Seq<char> {
    match kind {
        VmmKind::Firecracker => "firecracker"@,
        VmmKind::Qemu => "qemu"@,
    }
}

impl VmmKind {
    /// The name that the backend is recorded and requested under.
    pub fn as_str(self) -> (r: &'static str)
        ensures
            r@ == vmm_name(self),
    {
        match self {
            VmmKind::Firecracker => "firecracker",
            VmmKind::Qemu => "qemu",
        }
    }
}

/// A host directory that a guest sees.
#[derive(Debug)]
pub struct HostShare {
    pub host: String,
    pub guest: String,
    pub read_only: bool,
    pub tag: String,
}

/// How a VM boots.
#[derive(Debug)]
pub enum BootMode {
    /// From a kernel on the host.
    DirectKernel,
    /// Through OVMF firmware, under QEMU.
    Uefi { ovmf_code: String, ovmf_vars_template: String },
    /// Through EFI firmware with its own variable store, under Apple VZ.
    Efi { variable_store: String },
}

/// A VM as a backend is asked to start it.
#[derive(Debug)]
pub struct VmConfig {
    pub name: String,
    pub vcpu_count: u32,
    pub mem_size_mib: u32,
    pub kernel_path: String,
    pub rootfs_path: String,
    pub kernel_args: Option<String>,
    pub initrd_path: Option<String>,
    pub vsock_cid: u32,
    pub tap_device: Option<String>,
    pub guest_mac: Option<String>,
    pub vmm: Option<VmmKind>,
    pub boot: BootMode,
    pub seed_path: Option<String>,
    pub balloon: bool,
    pub volume_path: Option<String>,
    pub host_shares: Vec<HostShare>,
}

/// A [`BootMode`] with its texts as sequences of characters.
pub ghost enum BootView {
    DirectKernel,
    Uefi { ovmf_code: Seq<char>, ovmf_vars_template: Seq<char> },
    Efi { variable_store: Seq<char> },
}

impl View for BootMode {
    type V = BootView;

    open spec fn view(&self) -> BootView {
        match *self {
            BootMode::DirectKernel => BootView::DirectKernel,
            BootMode::Uefi { ovmf_code, ovmf_vars_template } => BootView::Uefi {
                ovmf_code: ovmf_code@,
                ovmf_vars_template: ovmf_vars_template@,
            },
            BootMode::Efi { variable_store } => BootView::Efi { variable_store: variable_store@ },
        }
    }
}

/// A [`HostShare`] with its texts as sequences of characters.
pub ghost struct ShareView {
    pub host: Seq<char>,
    pub guest: Seq<char>,
    pub read_only: bool,
    pub tag: Seq<char>,
}

impl View for HostShare {
    type V = ShareView;

    open spec fn view(&self) -> ShareView {
        ShareView {
            host: self.host@,
            guest: self.guest@,
            read_only: self.read_only,
            tag: self.tag@,
        }
    }
}

/// The views of a list of shares.
pub open spec fn share_views(v: Seq<HostShare>) -> Seq<ShareView> {
    v.map_values(|s: HostShare| s@)
}

/// A [`VmConfig`] with its texts as sequences of characters.
pub ghost struct ConfigView {
    pub name: Seq<char>,
    pub vcpu_count: u32,
    pub mem_size_mib: u32,
    pub kernel_path: Seq<char>,
    pub rootfs_path: Seq<char>,
    pub kernel_args: Option<Seq<char>>,
    pub initrd_path: Option<Seq<char>>,
    pub vsock_cid: u32,
    pub tap_device: Option<Seq<char>>,
    pub guest_mac: Option<Seq<char>>,
    pub vmm: Option<VmmKind>,
    pub boot: BootView,
    pub seed_path: Option<Seq<char>>,
    pub balloon: bool,
    pub volume_path: Option<Seq<char>>,
    pub host_shares: Seq<ShareView>,
}

impl View for VmConfig {
    type V = ConfigView;

    open spec fn view(&self) -> ConfigView {
        ConfigView {
            name: self.name@,
            vcpu_count: self.vcpu_count,
            mem_size_mib: self.mem_size_mib,
            kernel_path: self.kernel_path@,
            rootfs_path: self.rootfs_path@,
            kernel_args: opt_view(self.kernel_args),
            initrd_path: opt_view(self.initrd_path),
            vsock_cid: self.vsock_cid,
            tap_device: opt_view(self.tap_device),
            guest_mac: opt_view(self.guest_mac),
            vmm: self.vmm,
            boot: self.boot@,
            seed_path: opt_view(self.seed_path),
            balloon: self.balloon,
            volume_path: opt_view(self.volume_path),
            host_shares: share_views(self.host_shares@),
        }
    }
}

/// Service ownership stamped onto an instance VM at creation time.
#[derive(Debug, Clone, Copy)]
pub struct ServiceTag {
    pub service_id: u128,
    pub ordinal: u32,
}

/// A recorded state means what it says, letter by letter; any other text means none of the
/// known stages.
pub proof fn states_mean_what_they_say(state: Seq<char>)
    ensures
        lifecycle_of(state) == Lifecycle::Running <==> state == "running"@,
        lifecycle_of(state) == Lifecycle::Paused <==> state == "paused"@,
        lifecycle_of(state) == Lifecycle::Suspending <==> state == "suspending"@,
        lifecycle_of(state) == Lifecycle::Suspended <==> state == "suspended"@,
        lifecycle_of(state) == Lifecycle::Stopped <==> state == "stopped"@,
        lifecycle_of(state) == Lifecycle::Failed <==> state == "failed"@,
{
    lifecycle_names_are_distinct(Lifecycle::Running);
    lifecycle_names_are_distinct(Lifecycle::Paused);
    lifecycle_names_are_distinct(Lifecycle::Suspending);
    lifecycle_names_are_distinct(Lifecycle::Suspended);
    lifecycle_names_are_distinct(Lifecycle::Stopped);
    lifecycle_names_are_distinct(Lifecycle::Failed);
}

/// Each backend is recorded under its own name.
pub proof fn backends_are_recorded_under_their_names(kind: VmmKind)
    ensures
        vmm_name(kind) == "firecracker"@ <==> kind == VmmKind::Firecracker,
        vmm_name(kind) == "qemu"@ <==> kind == VmmKind::Qemu,
{
    reveal_strlit("firecracker");
    reveal_strlit("qemu");
    assert("firecracker"@.len() != "qemu"@.len());
}

} // verus!
