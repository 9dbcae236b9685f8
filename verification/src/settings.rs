//! The orchestrator's settings and its bookkeeping of what its VMs do.

use vstd::prelude::*;

use crate::activity::{ActiveSessions, ActivityClocks, CounterTable};
use crate::policy::{IdleMetrics, IdlePolicyConfig};
use crate::records::VmmKind;
use crate::requests::DaemonProfile;
use crate::text::str_eq;
#[allow(unused_imports)]
use crate::text::opt_str_view;

verus! {

/// What the daemon runs on.
#[derive(Clone, Copy, PartialEq, Eq, Debug, Structural)]
pub enum Platform {
    /// With NAT, bridges and kernel port forwards.
    Linux,
    /// With the Virtualization framework and a userspace port proxy.
    Macos,
}

/// Where the daemon keeps its files.
#[derive(Debug)]
pub struct StorageLayout {
    pub data_dir: String,
    pub state_dir: String,
    pub images_dir: String,
    pub vms_dir: String,
    pub kernels_dir: String,
    pub volumes_dir: String,
    pub sentinel_path: String,
}

/// Core orchestrator: the settings that decide what it does with a request, and
/// the memory of what its VMs have been doing.
pub struct HuskerCore {
    pub storage: StorageLayout,
    /// Whether the data dir is a mounted reflink storage volume (config flag).
    pub storage_volume: bool,
    /// Whether cgroup v2 resource limits are requested (config flag).
    pub resource_limits: bool,
    pub ovmf_code_path: String,
    pub ovmf_vars_template_path: String,
    pub embedded_agent: Vec<u8>,
    pub bridge_name: String,
    pub lan_bridge: Option<String>,
    pub dns_servers: Vec<String>,
    /// Host uplink interface for guest NAT egress, empty where it is not known.
    pub host_interface: String,
    /// Backend kind to persist when a create request omits one.
    pub default_vmm_kind: VmmKind,
    /// Default kernel used when a create request omits one.
    pub default_kernel: Option<String>,
    /// Default rootfs used when a create request omits one.
    pub default_rootfs: Option<String>,
    /// Default initrd used when a create request omits one.
    pub default_initrd: Option<String>,
    /// Default memory (MiB) applied when a create request omits it.
    pub default_memory: Option<u32>,
    /// Default vCPU count applied when a create request omits it.
    pub default_cpus: Option<u32>,
    /// Named VM presets exposed to clients.
    pub profiles: Vec<(String, DaemonProfile)>,
    pub runtime_dir: String,
    /// When each VM was last used.
    pub clocks: ActivityClocks,
    /// Last-seen counters per forward.
    pub network_counters: CounterTable,
    /// Open sessions per VM.
    pub active_sessions: ActiveSessions,
    /// Idle-policy defaults applied to opted-in VMs.
    pub idle_policy: IdlePolicyConfig,
    /// Idle-policy action counters.
    pub idle_metrics: IdleMetrics,
}

/// No two presets have the same name.
pub open spec fn one_per_name(s: Seq<(String, DaemonProfile)>) -> bool {
    forall|i: int, j: int| 0 <= i < j < s.len() ==> (#[trigger] s[i]).0@ != (#[trigger] s[j]).0@
}

/// The presets by name: of several with the same name the last counts.
pub open spec fn presets(s: Seq<(String, DaemonProfile)>) -> Map<Seq<char>, DaemonProfile>
    decreases s.len(),
{
    if s.len() == 0 {
        Map::empty()
    } else {
        presets(s.drop_last()).insert(s.last().0@, s.last().1)
    }
}

/// One of the presets has the name.
pub open spec fn has_preset(s: Seq<(String, DaemonProfile)>, name: Seq<char>) -> bool {
    exists|i: int| 0 <= i < s.len() && (#[trigger] s[i]).0@ == name
}

proof fn presets_domain(s: Seq<(String, DaemonProfile)>, name: Seq<char>)
    ensures
        presets(s).dom().contains(name) <==> has_preset(s, name),
    decreases s.len(),
{
    if s.len() > 0 {
        let head = s.drop_last();
        presets_domain(head, name);
        if has_preset(head, name) {
            let i = choose|i: int| 0 <= i < head.len() && (#[trigger] head[i]).0@ == name;
            assert(s[i].0@ == name);
        }
        if has_preset(s, name) {
            let i = choose|i: int| 0 <= i < s.len() && (#[trigger] s[i]).0@ == name;
            if i < head.len() {
                assert(head[i].0@ == name);
            }
        }
        assert(s[s.len() - 1].0@ == s.last().0@);
    }
}

fn knows_preset(v: &Vec<(String, DaemonProfile)>, name: &str) -> (r: bool)
    ensures
        r == has_preset(v@, name@),
{
    let mut i: usize = 0;
    while i < v.len()
        invariant
            i <= v@.len(),
            forall|k: int| 0 <= k < i ==> (#[trigger] v@[k]).0@ != name@,
        decreases v.len() - i,
    {
        if str_eq(v[i].0.as_str(), name) {
            return true;
        }
        i += 1;
    }
    false
}

fn last_per_name(all: Vec<(String, DaemonProfile)>) -> (r: Vec<(String, DaemonProfile)>)
    ensures
        one_per_name(r@),
        presets(r@) == presets(all@),
{
    let mut rest = all;
    let mut kept: Vec<(String, DaemonProfile)> = Vec::new();
    proof {
        assert(presets(rest@).union_prefer_right(presets(kept@)) =~= presets(all@));
    }
    while rest.len() > 0
        invariant
            one_per_name(kept@),
            presets(rest@).union_prefer_right(presets(kept@)) == presets(all@),
        decreases rest.len(),
    {
        let ghost before = rest@;
        let ghost so_far = kept@;
        match rest.pop() {
            Some(e) => {
                proof {
                    assert(rest@ == before.drop_last());
                    assert(e == before.last());
                    presets_domain(so_far, e.0@);
                }
                if !knows_preset(&kept, e.0.as_str()) {
                    kept.push(e);
                    proof {
                        assert(kept@.drop_last() =~= so_far);
                        assert forall|i: int, j: int| 0 <= i < j < kept@.len() implies (
                        #[trigger] kept@[i]).0@ != (#[trigger] kept@[j]).0@ by {
                            assert(kept@[i] == so_far[i]);
                            if j < so_far.len() {
                                assert(kept@[j] == so_far[j]);
                            }
                        }
                    }
                }
                proof {
                    assert(presets(rest@).union_prefer_right(presets(kept@)) =~= presets(
                        before,
                    ).union_prefer_right(presets(so_far)));
                }
            },
            None => {},
        }
    }
    proof {
        assert(presets(rest@).union_prefer_right(presets(kept@)) =~= presets(kept@));
    }
    kept
}

/// A core with the built-in defaults.
pub open spec fn is_fresh_core(
    r: HuskerCore,
    storage: StorageLayout,
    bridge_name: String,
    dns_servers: Vec<String>,
    runtime_dir: String,
) -> bool {
    &&& r.storage == storage && r.bridge_name == bridge_name && r.dns_servers == dns_servers
    &&& r.runtime_dir == runtime_dir
    &&& !r.storage_volume && !r.resource_limits
    &&& r.ovmf_code_path@ == "/usr/share/OVMF/OVMF_CODE_4M.fd"@
    &&& r.ovmf_vars_template_path@ == "/usr/share/OVMF/OVMF_VARS_4M.fd"@
    &&& r.embedded_agent@.len() == 0
    &&& r.lan_bridge is None && r.host_interface@ == Seq::<char>::empty()
    &&& r.default_vmm_kind == VmmKind::Firecracker
    &&& r.default_kernel is None && r.default_rootfs is None && r.default_initrd is None
    &&& r.default_memory is None && r.default_cpus is None
    &&& r.profiles@.len() == 0
    &&& r.clocks@.control_plane == Map::<u128, u128>::empty()
    &&& r.clocks@.network == Map::<u128, u128>::empty()
    &&& r.network_counters@ == Map::<Seq<char>, (u64, u64)>::empty()
    &&& r.active_sessions@ == Map::<u128, u64>::empty()
    &&& r.idle_policy == (IdlePolicyConfig {
        poll_interval_secs: 30,
        default_idle_timeout_secs: 1800,
        default_suspend_ttl_secs: 0,
        default_auto_resume: true,
    })
    &&& r.idle_metrics == (IdleMetrics {
        suspended_total: 0,
        auto_resumed_control_plane_total: 0,
        auto_resumed_connect_total: 0,
        reaped_total: 0,
    })
}

/// A core that was told nothing further remembers no use of any VM, has counted nothing,
/// knows no images, presets, uplink or LAN bridge, starts Firecracker, suspends VMs after
/// half an hour, wakes them again and never reaps them.
pub proof fn fresh_cores_presume_nothing(
    r: HuskerCore,
    storage: StorageLayout,
    bridge_name: String,
    dns_servers: Vec<String>,
    runtime_dir: String,
    vm: u128,
    name: Seq<char>,
)
    requires
        is_fresh_core(r, storage, bridge_name, dns_servers, runtime_dir),
    ensures
        r.storage == storage && r.bridge_name == bridge_name && r.dns_servers == dns_servers
            && r.runtime_dir == runtime_dir,
        !r.clocks@.control_plane.dom().contains(vm) && !r.clocks@.network.dom().contains(vm),
        !r.active_sessions@.dom().contains(vm) && !r.network_counters@.dom().contains(name),
        !has_preset(r.profiles@, name),
        images_known(r) == (None::<String>, None::<String>, None::<String>),
        resources_known(r) == (None::<u32>, None::<u32>),
        uplink_of(r) is None && r.lan_bridge is None && r.embedded_agent@.len() == 0,
        !r.storage_volume && !r.resource_limits,
        r.default_vmm_kind == VmmKind::Firecracker,
        r.idle_policy.poll_interval_secs == 30,
        r.idle_policy.default_idle_timeout_secs == 30 * 60,
        r.idle_policy.default_suspend_ttl_secs == 0 && r.idle_policy.default_auto_resume,
        r.idle_metrics.suspended_total == 0 && r.idle_metrics.reaped_total == 0,
        r.idle_metrics.auto_resumed_connect_total == 0
            && r.idle_metrics.auto_resumed_control_plane_total == 0,
        r.ovmf_code_path@ != r.ovmf_vars_template_path@,
        r.ovmf_code_path@ == "/usr/share/OVMF/OVMF_CODE_4M.fd"@,
        r.ovmf_vars_template_path@ == "/usr/share/OVMF/OVMF_VARS_4M.fd"@,
{
    reveal_strlit("/usr/share/OVMF/OVMF_CODE_4M.fd");
    reveal_strlit("/usr/share/OVMF/OVMF_VARS_4M.fd");
    assert("/usr/share/OVMF/OVMF_CODE_4M.fd"@[21] != "/usr/share/OVMF/OVMF_VARS_4M.fd"@[21]);
}

/// The default kernel, rootfs and initrd.
pub open spec fn images_known(core: HuskerCore) -> (Option<String>, Option<String>, Option<String>) {
    (core.default_kernel, core.default_rootfs, core.default_initrd)
}

/// The default memory and vCPU count.
pub open spec fn resources_known(core: HuskerCore) -> (Option<u32>, Option<u32>) {
    (core.default_memory, core.default_cpus)
}

/// The uplink, where one is known.
pub open spec fn uplink_of(core: HuskerCore) -> Option<Seq<char>> {
    if core.host_interface@.len() == 0 {
        None
    } else {
        Some(core.host_interface@)
    }
}

/// The core with this firmware.
pub open spec fn given_firmware(core: HuskerCore, code: String, vars: String) -> HuskerCore {
    HuskerCore { ovmf_code_path: code, ovmf_vars_template_path: vars, ..core }
}

/// The core with this agent.
pub open spec fn given_agent(core: HuskerCore, agent: Vec<u8>) -> HuskerCore {
    HuskerCore { embedded_agent: agent, ..core }
}

/// The core on a storage volume, or not.
pub open spec fn given_volume(core: HuskerCore, enabled: bool) -> HuskerCore {
    HuskerCore { storage_volume: enabled, ..core }
}

/// The core with limits requested, or not.
pub open spec fn given_limits(core: HuskerCore, requested: bool) -> HuskerCore {
    HuskerCore { resource_limits: requested, ..core }
}

/// The core with this uplink.
pub open spec fn given_uplink(core: HuskerCore, host_interface: String) -> HuskerCore {
    HuskerCore { host_interface, ..core }
}

/// The core with these default images.
pub open spec fn given_images(
    core: HuskerCore,
    kernel: Option<String>,
    rootfs: Option<String>,
    initrd: Option<String>,
) -> HuskerCore {
    HuskerCore { default_kernel: kernel, default_rootfs: rootfs, default_initrd: initrd, ..core }
}

/// The core with this default memory and vCPU count.
pub open spec fn given_resources(
    core: HuskerCore,
    memory: Option<u32>,
    cpus: Option<u32>,
) -> HuskerCore {
    HuskerCore { default_memory: memory, default_cpus: cpus, ..core }
}

/// The core with this default backend.
pub open spec fn given_backend(core: HuskerCore, kind: VmmKind) -> HuskerCore {
    HuskerCore { default_vmm_kind: kind, ..core }
}

/// The core with this LAN bridge.
pub open spec fn given_lan_bridge(core: HuskerCore, lan_bridge: Option<String>) -> HuskerCore {
    HuskerCore { lan_bridge, ..core }
}

/// The core with this idle policy.
pub open spec fn given_policy(core: HuskerCore, policy: IdlePolicyConfig) -> HuskerCore {
    HuskerCore { idle_policy: policy, ..core }
}

/// Images and resources are found again where they were set, each under its own name, and
/// setting them changes neither the firmware nor the uplink.
pub proof fn defaults_are_found_where_they_were_set(
    core: HuskerCore,
    kernel: Option<String>,
    rootfs: Option<String>,
    initrd: Option<String>,
    memory: Option<u32>,
    cpus: Option<u32>,
)
    ensures
        ({
            let r = given_resources(given_images(core, kernel, rootfs, initrd), memory, cpus);
            &&& images_known(r) == (kernel, rootfs, initrd)
            &&& resources_known(r) == (memory, cpus)
            &&& r.default_kernel == kernel && r.default_rootfs == rootfs && r.default_initrd
                == initrd
            &&& r.default_memory == memory && r.default_cpus == cpus
            &&& r.ovmf_code_path == core.ovmf_code_path && r.ovmf_vars_template_path
                == core.ovmf_vars_template_path
            &&& uplink_of(r) == uplink_of(core) && r.lan_bridge == core.lan_bridge
            &&& r.storage == core.storage && r.idle_policy == core.idle_policy
        }),
{
}

/// What was set last is what counts, and each setting leaves the others alone: the order in
/// which a core is told about them makes no difference.
pub proof fn settings_do_not_disturb_each_other(
    core: HuskerCore,
    code: String,
    vars: String,
    agent: Vec<u8>,
    enabled: bool,
    requested: bool,
    uplink: String,
    kind: VmmKind,
    lan: Option<String>,
    policy: IdlePolicyConfig,
)
    ensures
        ({
            let a = given_policy(
                given_lan_bridge(
                    given_backend(
                        given_uplink(
                            given_limits(
                                given_volume(
                                    given_agent(given_firmware(core, code, vars), agent),
                                    enabled,
                                ),
                                requested,
                            ),
                            uplink,
                        ),
                        kind,
                    ),
                    lan,
                ),
                policy,
            );
            let b = given_firmware(
                given_agent(
                    given_volume(
                        given_limits(
                            given_uplink(
                                given_backend(given_lan_bridge(given_policy(core, policy), lan), kind),
                                uplink,
                            ),
                            requested,
                        ),
                        enabled,
                    ),
                    agent,
                ),
                code,
                vars,
            );
            &&& a == b
            &&& a.ovmf_code_path == code && a.ovmf_vars_template_path == vars
            &&& a.embedded_agent == agent
            &&& a.storage_volume == enabled && a.resource_limits == requested
            &&& uplink@.len() > 0 ==> uplink_of(a) == Some(uplink@)
            &&& uplink@.len() == 0 ==> uplink_of(a) is None
            &&& a.default_vmm_kind == kind && a.lan_bridge == lan && a.idle_policy == policy
            &&& images_known(a) == images_known(core) && resources_known(a) == resources_known(core)
            &&& a.storage == core.storage && a.bridge_name == core.bridge_name && a.profiles
                == core.profiles
        }),
{
}

/// Of several presets with one name the last counts, and the others are untouched by it.
pub proof fn last_presets_count(s: Seq<(String, DaemonProfile)>, e: (String, DaemonProfile), name: Seq<char>)
    ensures
        presets(s.push(e)).dom().contains(e.0@) && presets(s.push(e))[e.0@] == e.1,
        name != e.0@ ==> (presets(s.push(e)).dom().contains(name) <==> presets(s).dom().contains(
            name,
        )),
        name != e.0@ && presets(s).dom().contains(name) ==> presets(s.push(e))[name]
            == presets(s)[name],
        presets(s).dom().contains(name) <==> has_preset(s, name),
{
    assert(s.push(e).drop_last() =~= s);
    presets_domain(s, name);
}

impl HuskerCore {
    /// A core with the built-in defaults.
    pub fn new(
        storage: StorageLayout,
        bridge_name: String,
        dns_servers: Vec<String>,
        runtime_dir: String,
    ) -> (r: HuskerCore)
        ensures
            is_fresh_core(r, storage, bridge_name, dns_servers, runtime_dir),
    {
        HuskerCore {
            storage,
            storage_volume: false,
            resource_limits: false,
            ovmf_code_path: "/usr/share/OVMF/OVMF_CODE_4M.fd".to_owned(),
            ovmf_vars_template_path: "/usr/share/OVMF/OVMF_VARS_4M.fd".to_owned(),
            embedded_agent: Vec::new(),
            bridge_name,
            lan_bridge: None,
            dns_servers,
            host_interface: String::new(),
            default_vmm_kind: VmmKind::Firecracker,
            default_kernel: None,
            default_rootfs: None,
            default_initrd: None,
            default_memory: None,
            default_cpus: None,
            profiles: Vec::new(),
            runtime_dir,
            clocks: ActivityClocks::new(),
            network_counters: CounterTable::new(),
            active_sessions: ActiveSessions::new(),
            idle_policy: IdlePolicyConfig::default(),
            idle_metrics: IdleMetrics::default(),
        }
    }

    /// Set the UEFI firmware paths used for cloud-image boot.
    pub fn with_uefi_firmware(self, code: String, vars_template: String) -> (r: HuskerCore)
        ensures
            r == given_firmware(self, code, vars_template),
    {
        let mut r = self;
        r.ovmf_code_path = code;
        r.ovmf_vars_template_path = vars_template;
        r
    }

    /// Set the guest agent that is put into imported and cloud images.
    pub fn with_embedded_agent(self, agent: Vec<u8>) -> (r: HuskerCore)
        ensures
            r == given_agent(self, agent),
    {
        let mut r = self;
        r.embedded_agent = agent;
        r
    }

    /// Declare that the data dir is a mounted storage volume.
    pub fn with_storage_volume(self, enabled: bool) -> (r: HuskerCore)
        ensures
            r == given_volume(self, enabled),
    {
        let mut r = self;
        r.storage_volume = enabled;
        r
    }

    /// Declare that resource limits are requested.
    pub fn with_resource_limits(self, requested: bool) -> (r: HuskerCore)
        ensures
            r == given_limits(self, requested),
    {
        let mut r = self;
        r.resource_limits = requested;
        r
    }

    /// Set the host uplink interface.
    pub fn with_host_interface(self, host_interface: String) -> (r: HuskerCore)
        ensures
            r == given_uplink(self, host_interface),
    {
        let mut r = self;
        r.host_interface = host_interface;
        r
    }

    /// Set the kernel, rootfs and initrd used when a request omits them.
    pub fn with_default_images(
        self,
        kernel: Option<String>,
        rootfs: Option<String>,
        initrd: Option<String>,
    ) -> (r: HuskerCore)
        ensures
            r == given_images(self, kernel, rootfs, initrd),
    {
        let mut r = self;
        r.default_kernel = kernel;
        r.default_rootfs = rootfs;
        r.default_initrd = initrd;
        r
    }

    /// Set the memory and vCPU count used when a request omits them.
    pub fn with_default_resources(self, memory: Option<u32>, cpus: Option<u32>) -> (r: HuskerCore)
        ensures
            r == given_resources(self, memory, cpus),
    {
        let mut r = self;
        r.default_memory = memory;
        r.default_cpus = cpus;
        r
    }

    /// Set the named VM presets. Of several with the same name the last counts.
    pub fn with_profiles(self, profiles: Vec<(String, DaemonProfile)>) -> (r: HuskerCore)
        ensures
            one_per_name(r.profiles@),
            presets(r.profiles@) == presets(profiles@),
            r == (HuskerCore { profiles: r.profiles, ..self }),
    {
        let mut r = self;
        r.profiles = last_per_name(profiles);
        r
    }

    /// Set the backend kind to persist when a request omits one.
    pub fn with_default_vmm_kind(self, kind: VmmKind) -> (r: HuskerCore)
        ensures
            r == given_backend(self, kind),
    {
        let mut r = self;
        r.default_vmm_kind = kind;
        r
    }

    /// Set the LAN bridge that bridged VMs are attached to.
    pub fn with_lan_bridge(self, lan_bridge: Option<String>) -> (r: HuskerCore)
        ensures
            r == given_lan_bridge(self, lan_bridge),
    {
        let mut r = self;
        r.lan_bridge = lan_bridge;
        r
    }

    /// Set the idle-policy defaults.
    pub fn with_idle_policy(self, policy: IdlePolicyConfig) -> (r: HuskerCore)
        ensures
            r == given_policy(self, policy),
    {
        let mut r = self;
        r.idle_policy = policy;
        r
    }

    /// The host uplink interface, where one is known.
    pub fn host_interface(&self) -> (r: Option<&str>)
        ensures
            opt_str_view(r) == uplink_of(*self),
    {
        if self.host_interface.as_str().is_empty() {
            None
        } else {
            Some(self.host_interface.as_str())
        }
    }

    /// Whether this build carries a guest agent.
    pub fn embedded_agent_present(&self) -> (r: bool)
        ensures
            r == (self.embedded_agent@.len() > 0),
    {
        self.embedded_agent.len() > 0
    }

    /// The memory and vCPU defaults.
    pub fn default_resources(&self) -> (r: (Option<u32>, Option<u32>))
        ensures
            r == resources_known(*self),
    {
        (self.default_memory, self.default_cpus)
    }

    /// Whether the data dir is a mounted storage volume.
    pub fn storage_volume(&self) -> (r: bool)
        ensures
            r == self.storage_volume,
    {
        self.storage_volume
    }

    /// Whether resource limits are requested.
    pub fn resource_limits(&self) -> (r: bool)
        ensures
            r == self.resource_limits,
    {
        self.resource_limits
    }

    /// The named VM presets.
    pub fn profiles(&self) -> (r: &Vec<(String, DaemonProfile)>)
        ensures
            *r == self.profiles,
    {
        &self.profiles
    }

    /// The idle-policy defaults.
    pub fn idle_policy(&self) -> (r: &IdlePolicyConfig)
        ensures
            *r == self.idle_policy,
    {
        &self.idle_policy
    }

    /// The idle-policy action counters.
    pub fn idle_metrics(&self) -> (r: &IdleMetrics)
        ensures
            *r == self.idle_metrics,
    {
        &self.idle_metrics
    }

    /// The storage configuration this core was built with.
    pub fn storage_config(&self) -> (r: &StorageLayout)
        ensures
            *r == self.storage,
    {
        &self.storage
    }
}

} // verus!
