//! The requests that callers make of the orchestrator, and what it answers.

use vstd::prelude::*;

#[allow(unused_imports)]
use crate::text::{opt_view, views};
use crate::time::Timestamp;

verus! {

/// The view of a list of pairs of strings.
pub open spec fn pair_views(v: Seq<(String, String)>) -> Seq<(Seq<char>, Seq<char>)> {
    v.map_values(|p: (String, String)| (p.0@, p.1@))
}

/// A named VM preset as exposed by the daemon via its API.
///
/// Fields mirror the client-side `Profile` type. All fields are optional;
/// explicit CLI flags always override profile values.
///
/// `ssh_keys` is intentionally absent: the daemon cannot hand clients readable
/// key files, and client code must not attempt to read daemon-host paths.
/// SSH keys for cloud-init must come from a local profile or an explicit
/// `--ssh-key` flag.
#[derive(Debug)]
pub struct DaemonProfile {
    pub cloud_image: Option<String>,
    pub rootfs: Option<String>,
    pub kernel: Option<String>,
    pub initrd: Option<String>,
    pub cpus: Option<u32>,
    pub memory: Option<u32>,
    pub disk_size: Option<String>,
    pub vmm: Option<String>,
    pub env: Vec<String>,
    pub balloon: Option<bool>,
    pub idle_timeout_secs: Option<u64>,
    pub suspend_ttl_secs: Option<u64>,
    pub auto_resume: Option<bool>,
    pub volume: Option<String>,
    pub mounts: Vec<String>,
    pub network: Option<String>,
}

/// Parameters for creating a new VM.
#[derive(Debug)]
pub struct CreateVmRequest {
    pub name: String,
    /// Kernel for direct-kernel boot. Required unless `cloud_image` is set.
    pub kernel_path: Option<String>,
    /// Root filesystem for direct-kernel boot. Required unless `cloud_image` is set.
    pub rootfs_path: Option<String>,
    pub vcpu_count: Option<u32>,
    pub mem_size_mib: Option<u32>,
    /// Path to an initramfs/initrd image (needed for kernels with modular drivers).
    pub initrd_path: Option<String>,
    /// Userdata script to execute after VM boots.
    pub userdata: Option<String>,
    /// Environment variables to pass to the userdata script.
    pub env: Vec<(String, String)>,
    /// Backend to run this VM on: "firecracker" (default) or "qemu". Omit to
    /// use the daemon's configured default.
    pub vmm: Option<String>,
    /// Boot a stock cloud image (qcow2) as a full UEFI VM. Holds the base image
    /// path on the host. Implies the QEMU backend; `kernel_path`/`rootfs_path` are ignored.
    pub cloud_image: Option<String>,
    /// Grow the cloud-image disk to this many bytes before boot (cloud-image only).
    pub disk_size: Option<u64>,
    /// SSH public keys to authorize for the cloud image's default user via
    /// cloud-init (cloud-image only; ignored for direct-kernel boot).
    pub ssh_authorized_keys: Vec<String>,
    /// Opt the VM into a virtio memory balloon device. When true, the balloon
    /// device is installed at boot and `set_balloon` can resize it at runtime.
    pub balloon: bool,
    /// Named persistent volume to attach as the second disk (/dev/vdb in the guest).
    /// Exactly one VM may hold a given volume at a time.
    pub volume: Option<String>,
    /// Network mode: "nat" (default) or "bridged". Bridged requires a cloud image
    /// and a configured `lan_bridge`; the VM's TAP is attached directly to the
    /// host LAN bridge and DHCP assigns its address.
    pub network: Option<String>,
    /// Host directories to share into the guest over virtiofs.
    /// Each entry is a `host:guest[:ro]` spec (e.g. `/srv/work:/build:ro`).
    /// Supported on Linux with the direct-kernel boot path only.
    pub mounts: Vec<String>,
    /// Enable idle policy using the daemon default window (the bare `--idle` flag).
    pub idle: Option<bool>,
    /// Explicit idle window in seconds (0 = suspend as soon as idle). Requires
    /// the Firecracker backend (full-state snapshot/restore).
    pub idle_timeout_secs: Option<u64>,
    /// Seconds a suspended VM may sit idle before it is reaped. None/0 = never reap.
    pub suspend_ttl_secs: Option<u64>,
    /// Whether the VM auto-resumes on activity/connect while suspended. Only
    /// meaningful when the idle policy is enabled.
    pub auto_resume: Option<bool>,
}

/// Parameters for creating a host group.
#[derive(Debug)]
pub struct CreateHostGroupRequest {
    pub name: String,
    pub description: Option<String>,
}

/// Parameters for creating a service.
#[derive(Debug)]
pub struct CreateServiceRequest {
    pub name: String,
    pub host_group: Option<String>,
    pub desired_instances: Option<u32>,
    pub image: Option<String>,
    pub rootfs_path: Option<String>,
    pub kernel_path: Option<String>,
    pub initrd_path: Option<String>,
    pub vcpu_count: Option<u32>,
    pub mem_size_mib: Option<u32>,
    pub userdata: Option<String>,
    pub env: Vec<(String, String)>,
    /// Boot a stock cloud image. When set, `kernel_path` and `rootfs_path` are optional.
    pub cloud_image: Option<String>,
    /// Grow the cloud-image disk to this many bytes (cloud-image only).
    pub disk_size: Option<u64>,
    /// Opt each instance into a virtio memory balloon device.
    pub balloon: bool,
    /// Named persistent volume to attach to each instance as the second disk.
    pub volume: Option<String>,
}

/// Parameters for creating a hot pool: a pre-warmed, suspended template VM that
/// `run`/`job` fork fresh VMs from. Direct-kernel / Firecracker only.
#[derive(Debug)]
pub struct CreatePoolRequest {
    pub name: String,
    pub rootfs_path: Option<String>,
    pub kernel_path: Option<String>,
    pub initrd_path: Option<String>,
    pub vcpu_count: Option<u32>,
    pub mem_size_mib: Option<u32>,
}

/// Parameters for creating a snapshot.
#[derive(Debug)]
pub struct CreateSnapshotRequest {
    pub name: String,
    pub vm: String,
}

/// Parameters for restoring a snapshot into a new VM.
#[derive(Debug)]
pub struct RestoreSnapshotRequest {
    pub name: String,
    pub kernel_path: String,
    pub vcpu_count: Option<u32>,
    pub mem_size_mib: Option<u32>,
    pub initrd_path: Option<String>,
    pub userdata: Option<String>,
    pub env: Vec<(String, String)>,
}

/// Parameters for importing an image into husker's image catalog.
#[derive(Debug)]
pub struct ImportImageRequest {
    pub name: String,
    pub source_path: String,
    pub format: Option<String>,
    /// Image kind: "rootfs" (default) or "cloud-image" (qcow2 for UEFI boot).
    pub kind: Option<String>,
}

/// Parameters for exporting a catalog image.
#[derive(Debug)]
pub struct ExportImageRequest {
    pub destination_path: String,
}

/// Result payload returned after exporting an image.
#[derive(Debug)]
pub struct ExportImageResult {
    pub name: String,
    pub destination_path: String,
    pub size_bytes: u64,
}

/// Parameters for creating a persistent volume.
#[derive(Debug)]
pub struct CreateVolumeRequest {
    pub name: String,
    /// Disk size in bytes. The image is created as a sparse ext4 file of this size.
    pub size_bytes: u64,
}

/// Parameters for creating a secret.
#[derive(Debug)]
pub struct CreateSecretRequest {
    pub name: String,
    pub value: String,
}

/// Parameters for rotating an existing secret's value.
#[derive(Debug)]
pub struct RotateSecretRequest {
    pub value: String,
}

/// Public metadata for a secret.
#[derive(Debug)]
pub struct SecretMetadata {
    pub id: u128,
    pub name: String,
    pub created_at: Timestamp,
    pub updated_at: Timestamp,
}

/// Decrypted secret payload returned by reveal operations.
#[derive(Debug)]
pub struct RevealedSecret {
    pub name: String,
    pub value: String,
    pub updated_at: Timestamp,
}

impl Default for DaemonProfile {
    fn default() -> (r: DaemonProfile)
        ensures
            r.cloud_image is None && r.rootfs is None && r.kernel is None && r.initrd is None,
            r.cpus is None && r.memory is None && r.disk_size is None && r.vmm is None,
            r.env@.len() == 0 && r.balloon is None && r.idle_timeout_secs is None,
            r.suspend_ttl_secs is None && r.auto_resume is None && r.volume is None,
            r.mounts@.len() == 0 && r.network is None,
    {
        DaemonProfile {
            cloud_image: None,
            rootfs: None,
            kernel: None,
            initrd: None,
            cpus: None,
            memory: None,
            disk_size: None,
            vmm: None,
            env: Vec::new(),
            balloon: None,
            idle_timeout_secs: None,
            suspend_ttl_secs: None,
            auto_resume: None,
            volume: None,
            mounts: Vec::new(),
            network: None,
        }
    }
}

/// A [`CreateVmRequest`] with its texts as sequences of characters.
pub ghost struct VmRequestView {
    pub name: Seq<char>,
    pub kernel_path: Option<Seq<char>>,
    pub rootfs_path: Option<Seq<char>>,
    pub vcpu_count: Option<u32>,
    pub mem_size_mib: Option<u32>,
    pub initrd_path: Option<Seq<char>>,
    pub userdata: Option<Seq<char>>,
    pub env: Seq<(Seq<char>, Seq<char>)>,
    pub vmm: Option<Seq<char>>,
    pub cloud_image: Option<Seq<char>>,
    pub disk_size: Option<u64>,
    pub ssh_authorized_keys: Seq<Seq<char>>,
    pub balloon: bool,
    pub volume: Option<Seq<char>>,
    pub network: Option<Seq<char>>,
    pub mounts: Seq<Seq<char>>,
    pub idle: Option<bool>,
    pub idle_timeout_secs: Option<u64>,
    pub suspend_ttl_secs: Option<u64>,
    pub auto_resume: Option<bool>,
}

impl View for CreateVmRequest {
    type V = VmRequestView;

    open spec fn view(&self) -> VmRequestView {
        VmRequestView {
            name: self.name@,
            kernel_path: opt_view(self.kernel_path),
            rootfs_path: opt_view(self.rootfs_path),
            vcpu_count: self.vcpu_count,
            mem_size_mib: self.mem_size_mib,
            initrd_path: opt_view(self.initrd_path),
            userdata: opt_view(self.userdata),
            env: pair_views(self.env@),
            vmm: opt_view(self.vmm),
            cloud_image: opt_view(self.cloud_image),
            disk_size: self.disk_size,
            ssh_authorized_keys: views(self.ssh_authorized_keys@),
            balloon: self.balloon,
            volume: opt_view(self.volume),
            network: opt_view(self.network),
            mounts: views(self.mounts@),
            idle: self.idle,
            idle_timeout_secs: self.idle_timeout_secs,
            suspend_ttl_secs: self.suspend_ttl_secs,
            auto_resume: self.auto_resume,
        }
    }
}

/// A request that asks for nothing but a VM of this name.
pub open spec fn bare_request(name: Seq<char>) -> VmRequestView {
    VmRequestView {
        name,
        kernel_path: None,
        rootfs_path: None,
        vcpu_count: None,
        mem_size_mib: None,
        initrd_path: None,
        userdata: None,
        env: Seq::empty(),
        vmm: None,
        cloud_image: None,
        disk_size: None,
        ssh_authorized_keys: Seq::empty(),
        balloon: false,
        volume: None,
        network: None,
        mounts: Seq::empty(),
        idle: None,
        idle_timeout_secs: None,
        suspend_ttl_secs: None,
        auto_resume: None,
    }
}

/// A bare request leaves everything but the name to the daemon: it asks for no image, no
/// size, no script, no disk, no share, no network and no idle policy.
pub proof fn bare_requests_ask_for_a_name_only(name: Seq<char>)
    ensures
        ({
            let r = bare_request(name);
            &&& r.name == name
            &&& r.kernel_path is None && r.rootfs_path is None && r.initrd_path is None
            &&& r.cloud_image is None && r.disk_size is None && r.vmm is None
            &&& r.vcpu_count is None && r.mem_size_mib is None && !r.balloon
            &&& r.userdata is None && r.env.len() == 0 && r.ssh_authorized_keys.len() == 0
            &&& r.volume is None && r.mounts.len() == 0 && r.network is None
            &&& r.idle is None && r.idle_timeout_secs is None && r.suspend_ttl_secs is None
                && r.auto_resume is None
        }),
{
}

impl Default for CreateVmRequest {
    fn default() -> (r: CreateVmRequest)
        ensures
            r@ == bare_request(Seq::empty()),
    {
        let r = CreateVmRequest {
            name: String::new(),
            kernel_path: None,
            rootfs_path: None,
            vcpu_count: None,
            mem_size_mib: None,
            initrd_path: None,
            userdata: None,
            env: Vec::new(),
            vmm: None,
            cloud_image: None,
            disk_size: None,
            ssh_authorized_keys: Vec::new(),
            balloon: false,
            volume: None,
            network: None,
            mounts: Vec::new(),
            idle: None,
            idle_timeout_secs: None,
            suspend_ttl_secs: None,
            auto_resume: None,
        };
        proof {
            assert(r@.env =~= Seq::empty());
            assert(r@.ssh_authorized_keys =~= Seq::empty());
            assert(r@.mounts =~= Seq::empty());
        }
        r
    }
}

/// What restoring the port forwards at startup came to.
#[derive(Debug, Clone, Copy, PartialEq, Eq, Structural)]
pub struct PortForwardReconcile {
    /// Number of port-forward DNAT rules successfully re-added.
    pub restored: usize,
    /// Number of VMs skipped because they were suspended (no live guest to route
    /// DNAT to; their listeners are re-installed separately).
    pub skipped_suspended: usize,
}

impl Default for PortForwardReconcile {
    fn default() -> (r: PortForwardReconcile)
        ensures
            r == (PortForwardReconcile { restored: 0, skipped_suspended: 0 }),
    {
        PortForwardReconcile { restored: 0, skipped_suspended: 0 }
    }
}

/// Result of one reconcile pass over a single service.
#[derive(Debug)]
pub struct ReconcileOutcome {
    pub created: Vec<String>,
    pub destroyed: Vec<String>,
    /// (instance_name, error_message) for instances that could not be created/destroyed.
    pub failed: Vec<(String, String)>,
}

impl Default for ReconcileOutcome {
    fn default() -> (r: ReconcileOutcome)
        ensures
            r.created@.len() == 0 && r.destroyed@.len() == 0 && r.failed@.len() == 0,
    {
        ReconcileOutcome { created: Vec::new(), destroyed: Vec::new(), failed: Vec::new() }
    }
}

} // verus!
