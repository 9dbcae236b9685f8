//! Host diagnostics: what is checked before VMs are expected to run.

use vstd::prelude::*;
use vstd::string::*;

#[allow(unused_imports)]
use crate::logs::lines_of;
use crate::logs::strip_cr;
use crate::path::{join, same_path, without_root};
#[allow(unused_imports)]
use crate::path::{joined, same_paths, unrooted};
use crate::settings::{HuskerCore, Platform, StorageLayout};
use crate::text::{contains, from_chars, is_space_char, split, starts_with, to_chars};
#[allow(unused_imports)]
use crate::text::{
    has_suffix, is_space, occurs, occurs_at, opt_str_view, opt_view, split_on, stands_at_the_end, stands_between, views,
};

verus! {

/// How long a diagnostics report is served from the cache.
pub const DIAGNOSTICS_CACHE_TTL_SECS: u64 = 60;

/// Below this, the free space of the data directory is worth a warning: 1 GiB.
pub const DATA_DIR_TIGHT: u64 = 1_073_741_824;

/// Below this, the free space of the state directory is worth a warning: it holds
/// only the database and the runtime files. 256 MiB.
pub const STATE_DIR_TIGHT: u64 = 268_435_456;

/// Severity of a single diagnostic check.
#[derive(Clone, Copy, PartialEq, Eq, Debug, Structural)]
pub enum CheckStatus {
    Okay,
    Warn,
    Fail,
}

impl CheckStatus {
    /// The place of the status in the order of severity.
    pub open spec fn rank(self) -> u8 {
        match self {
            CheckStatus::Okay => 0,
            CheckStatus::Warn => 1,
            CheckStatus::Fail => 2,
        }
    }

    /// Numeric severity for metrics/alerting: 0 = ok, 1 = warn, 2 = fail.
    /// Ordered so `>= 2` selects hard failures and `>= 1` selects anything
    /// not-ok.
    pub fn severity(self) -> (r: u8)
        ensures
            r == self.rank(),
            r >= 2 <==> self == CheckStatus::Fail,
            r >= 1 <==> self != CheckStatus::Okay,
    {
        match self {
            CheckStatus::Okay => 0,
            CheckStatus::Warn => 1,
            CheckStatus::Fail => 2,
        }
    }
}

/// One diagnostic check result.
#[derive(Debug)]
pub struct CheckResult {
    pub name: String,
    pub status: CheckStatus,
    pub message: String,
}

/// A [`CheckResult`] with its texts as sequences of characters.
pub ghost struct CheckView {
    pub name: Seq<char>,
    pub status: CheckStatus,
    pub message: Seq<char>,
}

impl View for CheckResult {
    type V = CheckView;

    open spec fn view(&self) -> CheckView {
        CheckView { name: self.name@, status: self.status, message: self.message@ }
    }
}

/// The views of the checks.
pub open spec fn check_views(v: Seq<CheckResult>) -> Seq<CheckView> {
    v.map_values(|c: CheckResult| c@)
}

/// Full host diagnostics report.
#[derive(Debug)]
pub struct DiagnosticsReport {
    pub checks: Vec<CheckResult>,
}

impl DiagnosticsReport {
    /// True if any check is a hard failure (warnings do not count).
    pub fn has_failure(&self) -> (r: bool)
        ensures
            r == exists|i: int|
                0 <= i < self.checks@.len() && #[trigger] self.checks@[i].status
                    == CheckStatus::Fail,
    {
        let mut i: usize = 0;
        while i < self.checks.len()
            invariant
                i <= self.checks@.len(),
                forall|k: int|
                    0 <= k < i ==> #[trigger] self.checks@[k].status != CheckStatus::Fail,
            decreases self.checks.len() - i,
        {
            if self.checks[i].status == CheckStatus::Fail {
                return true;
            }
            i += 1;
        }
        false
    }
}

// ---------------------------------------------------------------------------
// What the host is like
// ---------------------------------------------------------------------------

/// Inputs to [`build_diagnostics`]: the storage layout plus the daemon-config
/// facts the host checks need.
pub struct DiagnosticsInput<'a> {
    /// Storage layout (data dir, state dir, derived image/vm dirs).
    pub storage: &'a StorageLayout,
    /// Whether the data dir is a mounted reflink storage volume (config flag).
    pub storage_volume: bool,
    /// Whether this binary carries an embedded guest agent. Cloud-image VMs need
    /// it at create time; a missing agent is a silent footgun until then.
    pub embedded_agent_present: bool,
    /// Configured host uplink interface for guest NAT egress (Linux). `None` when
    /// unknown, e.g. the macOS backend, which NATs internally via VZ.
    pub host_interface: Option<&'a str>,
    /// Whether the daemon is configured with resource_limits; gates the cgroup readiness check.
    pub resource_limits_requested: bool,
}

/// What trying a copy-on-write clone gave.
#[derive(Debug)]
pub enum ReflinkProbe {
    Supported,
    FullCopy,
    Failed(String),
}

/// The free space of a file system.
#[derive(Debug)]
pub struct FreeSpace {
    pub bytes: u64,
    /// The same in GiB, to one decimal.
    pub gib: String,
}

/// What was found out about the host.
#[derive(Debug)]
pub struct HostFacts {
    pub reflink: ReflinkProbe,
    pub data_dir_free: Option<FreeSpace>,
    pub state_dir_free: Option<FreeSpace>,
    pub firecracker_on_path: bool,
    pub kvm_present: bool,
    pub qemu_img_on_path: bool,
    pub default_kernel_present: bool,
    pub vhost_vsock_present: bool,
    pub ip_forwarding: bool,
    pub nft_on_path: bool,
    /// The configured uplink exists.
    pub uplink_present: bool,
    pub mkfs_xfs_on_path: bool,
    pub rsync_on_path: bool,
    pub sentinel_present: bool,
    pub cgroup_v2: bool,
    pub controllers_delegated: bool,
}

/// So many blocks of this size, in bytes, as far as they can be counted.
pub open spec fn bytes_of(blocks: u64, block_size: u64) -> int {
    if blocks * block_size > u64::MAX {
        u64::MAX as int
    } else {
        blocks * block_size
    }
}

/// Free space is the number of the blocks times their size, unless that cannot be counted:
/// what is counted is never more than there is, and as much as can be.
pub proof fn space_is_counted_in_full(blocks: u64, block_size: u64)
    ensures
        blocks * block_size <= u64::MAX ==> bytes_of(blocks, block_size) == blocks * block_size,
        blocks * block_size > u64::MAX ==> bytes_of(blocks, block_size) == u64::MAX,
        bytes_of(blocks, block_size) <= blocks * block_size,
        bytes_of(blocks, 1) == blocks,
{
}

/// The free space of a file system, in bytes.
pub fn free_bytes(available_blocks: u64, block_size: u64) -> (r: u64)
    ensures
        r == bytes_of(available_blocks, block_size),
{
    match available_blocks.checked_mul(block_size) {
        Some(n) => n,
        None => u64::MAX,
    }
}

/// The text is `1` within white space.
pub open spec fn says_one(text: Seq<char>) -> bool {
    exists|i: int|
        0 <= i < text.len() && #[trigger] text[i] == '1' && forall|j: int|
            0 <= j < text.len() && j != i ==> is_space(#[trigger] text[j])
}

/// Only a one says one: with white space around it, but with nothing else, and without it
/// nothing does.
pub proof fn only_one_says_one(text: Seq<char>, i: int, before: char, after: char)
    ensures
        says_one(seq!['1']),
        is_space(before) && is_space(after) ==> says_one(seq![before, '1', after]),
        0 <= i < text.len() && text[i] != '1' && !is_space(text[i]) ==> !says_one(text),
        !text.contains('1') ==> !says_one(text),
        says_one(text) && is_space(after) ==> says_one(text.push(after)),
{
    assert(seq!['1'][0] == '1');
    assert(seq![before, '1', after][1] == '1');
    if says_one(text) {
        let w = choose|w: int|
            0 <= w < text.len() && #[trigger] text[w] == '1' && forall|j: int|
                0 <= j < text.len() && j != w ==> is_space(#[trigger] text[j]);
        assert(text.contains(text[w]));
        if is_space(after) {
            let t = text.push(after);
            assert(t[w] == '1');
            assert forall|j: int| 0 <= j < t.len() && j != w implies is_space(#[trigger] t[j]) by {
                if j < text.len() {
                    assert(t[j] == text[j]);
                }
            }
        }
    }
}

/// Whether the kernel forwards packets, by what its switch says.
pub fn forwarding_enabled(text: &str) -> (r: bool)
    ensures
        r == says_one(text@),
{
    let v = to_chars(text);
    let mut i: usize = 0;
    while i < v.len() && is_space_char(v[i])
        invariant
            i <= v@.len(),
            v@ == text@,
            forall|k: int| 0 <= k < i ==> is_space(#[trigger] v@[k]),
        decreases v.len() - i,
    {
        i += 1;
    }
    if i == v.len() || v[i] != '1' {
        proof {
            if says_one(text@) {
                let w = choose|w: int|
                    0 <= w < text@.len() && #[trigger] text@[w] == '1' && forall|j: int|
                        0 <= j < text@.len() && j != w ==> is_space(#[trigger] text@[j]);
                assert(!is_space('1'));
                if i < v@.len() {
                    assert(!is_space(text@[i as int]));
                }
            }
        }
        return false;
    }
    let mut j: usize = i + 1;
    while j < v.len()
        invariant
            i < j <= v@.len(),
            v@ == text@,
            v@[i as int] == '1',
            forall|k: int| 0 <= k < j && k != i ==> is_space(#[trigger] v@[k]),
        decreases v.len() - j,
    {
        if !is_space_char(v[j]) {
            proof {
                if says_one(text@) {
                    let w = choose|w: int|
                        0 <= w < text@.len() && #[trigger] text@[w] == '1' && forall|k: int|
                            0 <= k < text@.len() && k != w ==> is_space(#[trigger] text@[k]);
                    assert(!is_space('1'));
                    assert(!is_space(text@[i as int]));
                    assert(!is_space(text@[j as int]));
                }
            }
            return false;
        }
        j += 1;
    }
    true
}

/// What follows the prefix in the first of the lines that begins with it.
pub open spec fn first_with_prefix(lines: Seq<Seq<char>>, prefix: Seq<char>) -> Option<Seq<char>>
    decreases lines.len(),
{
    if lines.len() == 0 {
        None
    } else if occurs_at(lines[0], prefix, 0) {
        Some(lines[0].skip(prefix.len() as int))
    } else {
        first_with_prefix(lines.skip(1), prefix)
    }
}

/// The file that lists the controllers of the process whose cgroups these are.
pub open spec fn controllers_file(cgroups: Seq<char>) -> Option<Seq<char>> {
    match first_with_prefix(lines_of(cgroups), "0::"@) {
        Some(rel) => Some(
            joined(joined("/sys/fs/cgroup"@, unrooted(rel)), "cgroup.controllers"@),
        ),
        None => None,
    }
}

proof fn first_lines_count(lines: Seq<Seq<char>>, prefix: Seq<char>, k: int)
    requires
        0 <= k < lines.len(),
        occurs_at(lines[k], prefix, 0),
        forall|j: int| 0 <= j < k ==> !occurs_at(#[trigger] lines[j], prefix, 0),
    ensures
        first_with_prefix(lines, prefix) == Some(lines[k].skip(prefix.len() as int)),
    decreases lines.len(),
{
    if k > 0 {
        let rest = lines.skip(1);
        assert forall|j: int| 0 <= j < k - 1 implies !occurs_at(#[trigger] rest[j], prefix, 0) by {
            assert(rest[j] == lines[j + 1]);
        }
        assert(rest[k - 1] == lines[k]);
        first_lines_count(rest, prefix, k - 1);
    }
}

proof fn other_lines_do_not_count(lines: Seq<Seq<char>>, prefix: Seq<char>)
    requires
        forall|j: int| 0 <= j < lines.len() ==> !occurs_at(#[trigger] lines[j], prefix, 0),
    ensures
        first_with_prefix(lines, prefix) is None,
    decreases lines.len(),
{
    if lines.len() > 0 {
        let rest = lines.skip(1);
        assert forall|j: int| 0 <= j < rest.len() implies !occurs_at(#[trigger] rest[j], prefix, 0)
            by {
            assert(rest[j] == lines[j + 1]);
        }
        other_lines_do_not_count(rest, prefix);
    }
}

/// The controllers of a process are listed below the unified hierarchy, in the group that
/// the first line of the unified kind names. Without such a line there is no list.
pub proof fn controllers_are_listed_in_the_processs_group(cgroups: Seq<char>, k: int)
    ensures
        0 <= k < lines_of(cgroups).len() && occurs_at(lines_of(cgroups)[k], "0::"@, 0) && (forall|
            j: int,
        |
            0 <= j < k ==> !occurs_at(#[trigger] lines_of(cgroups)[j], "0::"@, 0))
            ==> controllers_file(cgroups) == Some(
            joined(
                joined("/sys/fs/cgroup"@, unrooted(lines_of(cgroups)[k].skip(3))),
                "cgroup.controllers"@,
            ),
        ),
        (forall|j: int|
            0 <= j < lines_of(cgroups).len() ==> !occurs_at(
                #[trigger] lines_of(cgroups)[j],
                "0::"@,
                0,
            )) ==> controllers_file(cgroups) is None,
        controllers_file(cgroups) matches Some(f) ==> has_suffix(f, "cgroup.controllers"@),
{
    reveal_strlit("0::");
    reveal_strlit("cgroup.controllers");
    let lines = lines_of(cgroups);
    if 0 <= k < lines.len() && occurs_at(lines[k], "0::"@, 0) && (forall|j: int|
        0 <= j < k ==> !occurs_at(#[trigger] lines[j], "0::"@, 0)) {
        first_lines_count(lines, "0::"@, k);
    }
    if forall|j: int| 0 <= j < lines.len() ==> !occurs_at(#[trigger] lines[j], "0::"@, 0) {
        other_lines_do_not_count(lines, "0::"@);
    }
    if let Some(f) = controllers_file(cgroups) {
        let end = "cgroup.controllers"@;
        assert(f.subrange(f.len() - end.len(), f.len() as int) =~= end);
    }
}

/// Memory and CPU can be limited.
pub open spec fn limits_can_be_set(controllers: Seq<char>) -> bool {
    occurs(controllers, "memory"@) && occurs(controllers, "cpu"@)
}

/// Limits need both controllers: neither of the two is enough.
pub proof fn limits_need_both_controllers(controllers: Seq<char>)
    ensures
        limits_can_be_set(controllers) ==> occurs(controllers, "memory"@),
        limits_can_be_set(controllers) ==> occurs(controllers, "cpu"@),
        occurs(controllers, "memory"@) && occurs(controllers, "cpu"@) ==> limits_can_be_set(
            controllers,
        ),
{
}

/// The file that lists the controllers of a process, from the list of its cgroups.
/// The controllers that can be enabled are listed there both before and after the
/// daemon has moved itself into a leaf.
pub fn cgroup_controllers_path(cgroups: &str) -> (r: Option<String>)
    ensures
        opt_view(r) == controllers_file(cgroups@),
{
    let pieces = split(cgroups, '\n');
    let ghost lines = lines_of(cgroups@);
    let total = pieces.len();
    let mut i: usize = 0;
    proof {
        assert(lines.skip(0) == lines);
        assert(views(pieces@).len() == pieces@.len());
    }
    while i < total
        invariant
            i <= total == pieces@.len(),
            views(pieces@) == split_on(cgroups@, '\n'),
            lines == lines_of(cgroups@),
            lines.len() == total,
            first_with_prefix(lines.skip(i as int), "0::"@) == first_with_prefix(lines, "0::"@),
        decreases total - i,
    {
        let line = if i + 1 < total { strip_cr(&pieces[i]) } else { pieces[i].clone() };
        proof {
            assert(views(pieces@)[i as int] == pieces@[i as int]@);
            assert(lines.skip(i as int)[0] == lines[i as int]);
            assert(lines[i as int] == line@);
            assert(lines.skip(i as int).skip(1) == lines.skip(i + 1));
        }
        if starts_with(line.as_str(), "0::") {
            let v = to_chars(line.as_str());
            proof {
                reveal_strlit("0::");
                assert(v@.subrange(3, v@.len() as int) == line@.skip(3));
            }
            let rel = from_chars(&v, 3, v.len());
            return Some(
                join(
                    join("/sys/fs/cgroup", without_root(rel.as_str()).as_str()).as_str(),
                    "cgroup.controllers",
                ),
            );
        }
        i += 1;
    }
    None
}

/// Whether memory and CPU can be limited, by the list of controllers.
pub fn lists_controllers(controllers: &str) -> (r: bool)
    ensures
        r == limits_can_be_set(controllers@),
{
    contains(controllers, "memory") && contains(controllers, "cpu")
}

// ---------------------------------------------------------------------------
// The checks
// ---------------------------------------------------------------------------

fn check(name: &str, status: CheckStatus, message: String) -> (r: CheckResult)
    ensures
        r@ == (CheckView { name: name@, status, message: message@ }),
{
    CheckResult { name: name.to_owned(), status, message }
}

/// Whether clones of images cost a full copy.
pub open spec fn reflink_check(probe: ReflinkProbe) -> CheckView {
    let (status, message) = match probe {
        ReflinkProbe::Supported => (CheckStatus::Okay, "copy-on-write clones supported"@),
        ReflinkProbe::FullCopy => (
            CheckStatus::Warn,
            "no reflink: every VM pays a full rootfs copy. Run `husker setup storage`."@,
        ),
        ReflinkProbe::Failed(e) => (CheckStatus::Fail, "data dir not writable: "@ + e@),
    };
    CheckView { name: "data-dir reflink"@, status, message }
}

fn check_reflink(probe: &ReflinkProbe) -> (r: CheckResult)
    ensures
        r@ == reflink_check(*probe),
{
    match probe {
        ReflinkProbe::Supported => check(
            "data-dir reflink",
            CheckStatus::Okay,
            "copy-on-write clones supported".to_owned(),
        ),
        ReflinkProbe::FullCopy => check(
            "data-dir reflink",
            CheckStatus::Warn,
            "no reflink: every VM pays a full rootfs copy. Run `husker setup storage`.".to_owned(),
        ),
        ReflinkProbe::Failed(e) => check(
            "data-dir reflink",
            CheckStatus::Fail,
            "data dir not writable: ".to_owned().concat(e.as_str()),
        ),
    }
}

/// Whether a directory has room.
pub open spec fn space_check(
    name: Seq<char>,
    free: Option<FreeSpace>,
    tight: u64,
    unknown: Seq<char>,
) -> CheckView {
    match free {
        Some(f) => CheckView {
            name,
            status: if f.bytes < tight {
                CheckStatus::Warn
            } else {
                CheckStatus::Okay
            },
            message: f.gib@ + " GiB free"@,
        },
        None => CheckView { name, status: CheckStatus::Fail, message: unknown },
    }
}

fn check_space(name: &str, free: &Option<FreeSpace>, tight: u64, unknown: &str) -> (r: CheckResult)
    ensures
        r@ == space_check(name@, *free, tight, unknown@),
{
    match free {
        Some(f) => check(
            name,
            if f.bytes < tight {
                CheckStatus::Warn
            } else {
                CheckStatus::Okay
            },
            f.gib.clone().concat(" GiB free"),
        ),
        None => check(name, CheckStatus::Fail, unknown.to_owned()),
    }
}

/// Whether the backend can run VMs.
pub open spec fn backend_check(platform: Platform, facts: HostFacts) -> CheckView {
    let (status, message) = match platform {
        Platform::Linux => if !facts.firecracker_on_path {
            (CheckStatus::Fail, "firecracker not on PATH"@)
        } else if !facts.kvm_present {
            (CheckStatus::Fail, "/dev/kvm missing"@)
        } else {
            (CheckStatus::Okay, "firecracker + /dev/kvm present"@)
        },
        Platform::Macos => if facts.qemu_img_on_path {
            (CheckStatus::Okay, "Apple Virtualization.framework + qemu-img present"@)
        } else {
            (
                CheckStatus::Warn,
                "Apple Virtualization.framework present; qemu-img missing (cloud images need it)"@,
            )
        },
    };
    CheckView { name: "backend"@, status, message }
}

fn check_backend(platform: Platform, facts: &HostFacts) -> (r: CheckResult)
    ensures
        r@ == backend_check(platform, *facts),
{
    match platform {
        Platform::Linux => {
            if !facts.firecracker_on_path {
                check("backend", CheckStatus::Fail, "firecracker not on PATH".to_owned())
            } else if !facts.kvm_present {
                check("backend", CheckStatus::Fail, "/dev/kvm missing".to_owned())
            } else {
                check("backend", CheckStatus::Okay, "firecracker + /dev/kvm present".to_owned())
            }
        },
        Platform::Macos => {
            if facts.qemu_img_on_path {
                check(
                    "backend",
                    CheckStatus::Okay,
                    "Apple Virtualization.framework + qemu-img present".to_owned(),
                )
            } else {
                check(
                    "backend",
                    CheckStatus::Warn,
                    "Apple Virtualization.framework present; qemu-img missing (cloud images need it)".to_owned(),
                )
            }
        },
    }
}

/// Whether cloud images get an agent.
pub open spec fn agent_check(present: bool) -> CheckView {
    if present {
        CheckView {
            name: "embedded agent"@,
            status: CheckStatus::Okay,
            message: "guest agent embedded in this binary"@,
        }
    } else {
        CheckView {
            name: "embedded agent"@,
            status: CheckStatus::Warn,
            message: "no embedded agent: cloud-image VMs will fail at create (rebuild with HUSKER_EMBED_AGENT_BIN)"@,
        }
    }
}

fn check_agent(present: bool) -> (r: CheckResult)
    ensures
        r@ == agent_check(present),
{
    if present {
        check(
            "embedded agent",
            CheckStatus::Okay,
            "guest agent embedded in this binary".to_owned(),
        )
    } else {
        check(
            "embedded agent",
            CheckStatus::Warn,
            "no embedded agent: cloud-image VMs will fail at create (rebuild with HUSKER_EMBED_AGENT_BIN)".to_owned(),
        )
    }
}

/// Whether there is a kernel that VMs fall back to.
pub open spec fn kernel_check(kernels_dir: Seq<char>, present: bool) -> CheckView {
    if present {
        CheckView {
            name: "default boot images"@,
            status: CheckStatus::Okay,
            message: "default kernel present at "@ + joined(kernels_dir, "vmlinux"@),
        }
    } else {
        CheckView {
            name: "default boot images"@,
            status: CheckStatus::Warn,
            message: "no default kernel (run `husker image pull`)"@,
        }
    }
}

fn check_kernel(kernels_dir: &str, present: bool) -> (r: CheckResult)
    ensures
        r@ == kernel_check(kernels_dir@, present),
{
    if present {
        check(
            "default boot images",
            CheckStatus::Okay,
            "default kernel present at ".to_owned().concat(join(kernels_dir, "vmlinux").as_str()),
        )
    } else {
        check(
            "default boot images",
            CheckStatus::Warn,
            "no default kernel (run `husker image pull`)".to_owned(),
        )
    }
}

/// Whether QEMU and mounts can reach the agent.
pub open spec fn vsock_check(present: bool) -> CheckView {
    if present {
        CheckView {
            name: "vhost_vsock"@,
            status: CheckStatus::Okay,
            message: "/dev/vhost-vsock present"@,
        }
    } else {
        CheckView {
            name: "vhost_vsock"@,
            status: CheckStatus::Warn,
            message: "/dev/vhost-vsock missing (QEMU backend + --mount jobs need it: modprobe vhost_vsock)"@,
        }
    }
}

fn check_vsock(present: bool) -> (r: CheckResult)
    ensures
        r@ == vsock_check(present),
{
    if present {
        check("vhost_vsock", CheckStatus::Okay, "/dev/vhost-vsock present".to_owned())
    } else {
        check(
            "vhost_vsock",
            CheckStatus::Warn,
            "/dev/vhost-vsock missing (QEMU backend + --mount jobs need it: modprobe vhost_vsock)".to_owned(),
        )
    }
}

/// Whether guests reach the outside. An unknown uplink is not looked for.
pub open spec fn egress_check(uplink: Option<Seq<char>>, facts: HostFacts) -> CheckView {
    let (status, message) = if uplink is Some && !facts.uplink_present {
        (
            CheckStatus::Fail,
            "host_interface "@ + uplink->0 + " not found (guests get no WAN/DNS)"@,
        )
    } else if !facts.ip_forwarding {
        (
            CheckStatus::Fail,
            "IP forwarding disabled (sysctl net.ipv4.ip_forward=1 for guest egress)"@,
        )
    } else if !facts.nft_on_path {
        (CheckStatus::Warn, "nft not on PATH (husker programs guest NAT via nftables)"@)
    } else {
        (
            CheckStatus::Okay,
            match uplink {
                Some(u) => "uplink "@ + u + ", IP forwarding on, nftables present"@,
                None => "IP forwarding on, nftables present"@,
            },
        )
    };
    CheckView { name: "guest NAT egress"@, status, message }
}

fn check_egress(uplink: Option<&str>, facts: &HostFacts) -> (r: CheckResult)
    ensures
        r@ == egress_check(opt_str_view(uplink), *facts),
{
    if let Some(u) = uplink {
        if !facts.uplink_present {
            return check(
                "guest NAT egress",
                CheckStatus::Fail,
                "host_interface ".to_owned().concat(u).concat(
                    " not found (guests get no WAN/DNS)",
                ),
            );
        }
    }
    if !facts.ip_forwarding {
        return check(
            "guest NAT egress",
            CheckStatus::Fail,
            "IP forwarding disabled (sysctl net.ipv4.ip_forward=1 for guest egress)".to_owned(),
        );
    }
    if !facts.nft_on_path {
        return check(
            "guest NAT egress",
            CheckStatus::Warn,
            "nft not on PATH (husker programs guest NAT via nftables)".to_owned(),
        );
    }
    check(
        "guest NAT egress",
        CheckStatus::Okay,
        match uplink {
            Some(u) => "uplink ".to_owned().concat(u).concat(
                ", IP forwarding on, nftables present",
            ),
            None => "IP forwarding on, nftables present".to_owned(),
        },
    )
}

/// Whether something is there, in a word.
pub open spec fn presence(there: bool) -> Seq<char> {
    if there {
        "present"@
    } else {
        "missing"@
    }
}

fn presence_word(there: bool) -> (r: &'static str)
    ensures
        r@ == presence(there),
{
    if there {
        "present"
    } else {
        "missing"
    }
}

/// Whether the storage can be migrated.
pub open spec fn helpers_check(mkfs: bool, rsync: bool) -> CheckView {
    CheckView {
        name: "migration helpers"@,
        status: if mkfs && rsync {
            CheckStatus::Okay
        } else {
            CheckStatus::Warn
        },
        message: "mkfs.xfs: "@ + presence(mkfs) + ", rsync: "@ + presence(rsync),
    }
}

fn check_helpers(mkfs: bool, rsync: bool) -> (r: CheckResult)
    ensures
        r@ == helpers_check(mkfs, rsync),
{
    check(
        "migration helpers",
        if mkfs && rsync {
            CheckStatus::Okay
        } else {
            CheckStatus::Warn
        },
        "mkfs.xfs: ".to_owned().concat(presence_word(mkfs)).concat(", rsync: ").concat(
            presence_word(rsync),
        ),
    )
}

/// Whether the storage volume is mounted.
pub open spec fn volume_check(sentinel: Seq<char>, mounted: bool) -> CheckView {
    if mounted {
        CheckView {
            name: "storage volume mount"@,
            status: CheckStatus::Okay,
            message: "storage loopback mounted"@,
        }
    } else {
        CheckView {
            name: "storage volume mount"@,
            status: CheckStatus::Fail,
            message: "storage_volume set but loopback not mounted (sentinel "@ + sentinel
                + " missing)"@,
        }
    }
}

fn check_volume(sentinel: &str, mounted: bool) -> (r: CheckResult)
    ensures
        r@ == volume_check(sentinel@, mounted),
{
    if mounted {
        check("storage volume mount", CheckStatus::Okay, "storage loopback mounted".to_owned())
    } else {
        check(
            "storage volume mount",
            CheckStatus::Fail,
            "storage_volume set but loopback not mounted (sentinel ".to_owned().concat(
                sentinel,
            ).concat(" missing)"),
        )
    }
}

/// Whether resource limits can be enforced.
pub open spec fn cgroup_check(platform: Platform, facts: HostFacts) -> CheckView {
    let (status, message) = match platform {
        Platform::Linux => if !facts.cgroup_v2 {
            (CheckStatus::Fail, "cgroup v2 unified hierarchy not mounted"@)
        } else if !facts.controllers_delegated {
            (
                CheckStatus::Fail,
                "memory/cpu controllers not delegated (add Delegate=yes to husker.service)"@,
            )
        } else {
            (CheckStatus::Okay, "cgroup v2 + memory/cpu controllers delegated"@)
        },
        Platform::Macos => (
            CheckStatus::Warn,
            "resource limits (cgroups) are enforced only on Linux (Firecracker/QEMU); ignored on this platform"@,
        ),
    };
    CheckView { name: "cgroup limits"@, status, message }
}

fn check_cgroups(platform: Platform, facts: &HostFacts) -> (r: CheckResult)
    ensures
        r@ == cgroup_check(platform, *facts),
{
    match platform {
        Platform::Linux => {
            if !facts.cgroup_v2 {
                check(
                    "cgroup limits",
                    CheckStatus::Fail,
                    "cgroup v2 unified hierarchy not mounted".to_owned(),
                )
            } else if !facts.controllers_delegated {
                check(
                    "cgroup limits",
                    CheckStatus::Fail,
                    "memory/cpu controllers not delegated (add Delegate=yes to husker.service)".to_owned(),
                )
            } else {
                check(
                    "cgroup limits",
                    CheckStatus::Okay,
                    "cgroup v2 + memory/cpu controllers delegated".to_owned(),
                )
            }
        },
        Platform::Macos => check(
            "cgroup limits",
            CheckStatus::Warn,
            "resource limits (cgroups) are enforced only on Linux (Firecracker/QEMU); ignored on this platform".to_owned(),
        ),
    }
}

/// The check, where there is a reason for it.
pub open spec fn check_if(reason: bool, check: CheckView) -> Seq<CheckView> {
    if reason {
        seq![check]
    } else {
        Seq::empty()
    }
}

/// All checks of a host, in order.
pub open spec fn checks_of(input: DiagnosticsInput, platform: Platform, facts: HostFacts) -> Seq<
    CheckView,
> {
    let storage = input.storage;
    let linux = platform == Platform::Linux;
    seq![reflink_check(facts.reflink)] + seq![
        space_check(
            "data-dir free space"@,
            facts.data_dir_free,
            DATA_DIR_TIGHT,
            "cannot stat data dir"@,
        ),
    ] + check_if(
        !same_paths(storage.state_dir@, storage.data_dir@),
        space_check(
            "state-dir free space"@,
            facts.state_dir_free,
            STATE_DIR_TIGHT,
            "cannot stat state dir"@,
        ),
    ) + seq![backend_check(platform, facts)] + seq![agent_check(input.embedded_agent_present)]
        + seq![kernel_check(storage.kernels_dir@, facts.default_kernel_present)] + check_if(
        linux,
        vsock_check(facts.vhost_vsock_present),
    ) + check_if(linux, egress_check(opt_str_view(input.host_interface), facts))
        + seq![helpers_check(facts.mkfs_xfs_on_path, facts.rsync_on_path)] + check_if(
        input.storage_volume,
        volume_check(storage.sentinel_path@, facts.sentinel_present),
    ) + check_if(input.resource_limits_requested, cgroup_check(platform, facts))
}

fn add_check(checks: &mut Vec<CheckResult>, c: CheckResult)
    ensures
        check_views(final(checks)@) == check_views(old(checks)@) + seq![c@],
{
    let ghost before = checks@;
    checks.push(c);
    proof {
        assert(check_views(before.push(c)) =~= check_views(before) + seq![c@]);
    }
}

/// Build the host diagnostics report from what was found out about the host.
pub fn build_diagnostics(input: &DiagnosticsInput<'_>, platform: Platform, facts: &HostFacts) -> (r:
    DiagnosticsReport)
    ensures
        check_views(r.checks@) == checks_of(*input, platform, *facts),
{
    let storage = input.storage;
    let mut checks: Vec<CheckResult> = Vec::new();
    proof {
        assert(check_views(checks@) =~= Seq::empty());
        assert(Seq::empty() + seq![reflink_check(facts.reflink)] =~= seq![
            reflink_check(facts.reflink),
        ]);
    }
    add_check(&mut checks, check_reflink(&facts.reflink));
    add_check(
        &mut checks,
        check_space(
            "data-dir free space",
            &facts.data_dir_free,
            DATA_DIR_TIGHT,
            "cannot stat data dir",
        ),
    );
    let ghost before = check_views(checks@);
    if !same_path(storage.state_dir.as_str(), storage.data_dir.as_str()) {
        add_check(
            &mut checks,
            check_space(
                "state-dir free space",
                &facts.state_dir_free,
                STATE_DIR_TIGHT,
                "cannot stat state dir",
            ),
        );
    }
    proof {
        assert(before + Seq::<CheckView>::empty() =~= before);
    }
    add_check(&mut checks, check_backend(platform, facts));
    add_check(&mut checks, check_agent(input.embedded_agent_present));
    add_check(
        &mut checks,
        check_kernel(storage.kernels_dir.as_str(), facts.default_kernel_present),
    );
    let ghost before = check_views(checks@);
    if platform == Platform::Linux {
        add_check(&mut checks, check_vsock(facts.vhost_vsock_present));
        add_check(&mut checks, check_egress(input.host_interface, facts));
    }
    proof {
        assert(before + Seq::<CheckView>::empty() =~= before);
    }
    add_check(&mut checks, check_helpers(facts.mkfs_xfs_on_path, facts.rsync_on_path));
    let ghost before = check_views(checks@);
    if input.storage_volume {
        add_check(
            &mut checks,
            check_volume(storage.sentinel_path.as_str(), facts.sentinel_present),
        );
    }
    proof {
        assert(before + Seq::<CheckView>::empty() =~= before);
    }
    let ghost before = check_views(checks@);
    if input.resource_limits_requested {
        add_check(&mut checks, check_cgroups(platform, facts));
    }
    proof {
        assert(before + Seq::<CheckView>::empty() =~= before);
    }
    DiagnosticsReport { checks }
}

/// What the diagnostics of a daemon look at.
pub open spec fn is_input_of(core: HuskerCore, input: DiagnosticsInput) -> bool {
    &&& input.storage == core.storage && input.storage_volume == core.storage_volume
    &&& input.embedded_agent_present == (core.embedded_agent@.len() > 0)
    &&& opt_str_view(input.host_interface) == (if core.host_interface@.len() == 0 {
        None
    } else {
        Some(core.host_interface@)
    })
    &&& input.resource_limits_requested == core.resource_limits
}

/// Diagnostics look at the daemon as it is configured: an empty agent is none, and an
/// uplink without a name is not known.
pub proof fn diagnostics_look_at_their_daemon(core: HuskerCore, input: DiagnosticsInput)
    requires
        is_input_of(core, input),
    ensures
        input.embedded_agent_present <==> core.embedded_agent@.len() != 0,
        input.host_interface is None <==> core.host_interface@.len() == 0,
        input.host_interface matches Some(u) ==> u@ == core.host_interface@,
        input.storage == core.storage,
        input.storage_volume <==> core.storage_volume,
        input.resource_limits_requested <==> core.resource_limits,
{
}

impl HuskerCore {
    /// What the diagnostics of this daemon look at.
    pub fn diagnostics_input<'a>(&'a self) -> (r: DiagnosticsInput<'a>)
        ensures
            is_input_of(*self, r),
    {
        DiagnosticsInput {
            storage: &self.storage,
            storage_volume: self.storage_volume,
            embedded_agent_present: self.embedded_agent_present(),
            host_interface: self.host_interface(),
            resource_limits_requested: self.resource_limits,
        }
    }
}

/// A report of this age is still served.
pub open spec fn is_fresh(age_nanos: u128) -> bool {
    age_nanos < DIAGNOSTICS_CACHE_TTL_SECS * 1_000_000_000
}

/// A report is served for one minute, and not a moment longer.
pub proof fn reports_are_served_for_a_minute(age_nanos: u128)
    ensures
        is_fresh(age_nanos) <==> age_nanos < 60_000_000_000,
        is_fresh(0),
{
}

/// Whether a report of this age is still served: it spares the host a probe at every
/// scrape.
pub fn report_is_fresh(age_nanos: u128) -> (r: bool)
    ensures
        r == is_fresh(age_nanos),
{
    age_nanos < DIAGNOSTICS_CACHE_TTL_SECS as u128 * 1_000_000_000
}

/// What keeps VMs from running on the host.
pub open spec fn is_broken(input: DiagnosticsInput, platform: Platform, facts: HostFacts) -> bool {
    ||| facts.reflink is Failed
    ||| facts.data_dir_free is None
    ||| !same_paths(input.storage.state_dir@, input.storage.data_dir@) && facts.state_dir_free is None
    ||| platform == Platform::Linux && !(facts.firecracker_on_path && facts.kvm_present)
    ||| platform == Platform::Linux && (input.host_interface is Some && !facts.uplink_present
        || !facts.ip_forwarding)
    ||| input.storage_volume && !facts.sentinel_present
    ||| input.resource_limits_requested && platform == Platform::Linux && !(facts.cgroup_v2
        && facts.controllers_delegated)
}

/// One of the checks is a hard failure.
pub open spec fn fails(checks: Seq<CheckView>) -> bool {
    exists|i: int| 0 <= i < checks.len() && #[trigger] checks[i].status == CheckStatus::Fail
}

proof fn sums_fail_like_their_parts(a: Seq<CheckView>, b: Seq<CheckView>)
    ensures
        fails(a + b) <==> fails(a) || fails(b),
{
    if fails(a) {
        let i = choose|i: int| 0 <= i < a.len() && #[trigger] a[i].status == CheckStatus::Fail;
        assert((a + b)[i].status == CheckStatus::Fail);
    }
    if fails(b) {
        let i = choose|i: int| 0 <= i < b.len() && #[trigger] b[i].status == CheckStatus::Fail;
        assert((a + b)[a.len() + i].status == CheckStatus::Fail);
    }
    if fails(a + b) {
        let i = choose|i: int|
            0 <= i < (a + b).len() && #[trigger] (a + b)[i].status == CheckStatus::Fail;
        if i < a.len() {
            assert(a[i].status == CheckStatus::Fail);
        } else {
            assert(b[i - a.len()].status == CheckStatus::Fail);
        }
    }
}

proof fn single_checks_fail(c: CheckView)
    ensures
        fails(seq![c]) <==> c.status == CheckStatus::Fail,
        !fails(Seq::empty()),
{
    if c.status == CheckStatus::Fail {
        assert(seq![c][0].status == CheckStatus::Fail);
    }
}

/// A report shows a hard failure exactly where something keeps VMs from running as
/// configured; what merely costs time or a feature is a warning.
pub proof fn reports_fail_on_broken_hosts(
    input: DiagnosticsInput,
    platform: Platform,
    facts: HostFacts,
)
    ensures
        fails(checks_of(input, platform, facts)) <==> is_broken(input, platform, facts),
{
    let storage = input.storage;
    let linux = platform == Platform::Linux;
    let c0 = reflink_check(facts.reflink);
    let c1 = space_check(
        "data-dir free space"@,
        facts.data_dir_free,
        DATA_DIR_TIGHT,
        "cannot stat data dir"@,
    );
    let c2 = space_check(
        "state-dir free space"@,
        facts.state_dir_free,
        STATE_DIR_TIGHT,
        "cannot stat state dir"@,
    );
    let c3 = backend_check(platform, facts);
    let c4 = agent_check(input.embedded_agent_present);
    let c5 = kernel_check(storage.kernels_dir@, facts.default_kernel_present);
    let c6 = vsock_check(facts.vhost_vsock_present);
    let c7 = egress_check(opt_str_view(input.host_interface), facts);
    let c8 = helpers_check(facts.mkfs_xfs_on_path, facts.rsync_on_path);
    let c9 = volume_check(storage.sentinel_path@, facts.sentinel_present);
    let c10 = cgroup_check(platform, facts);
    single_checks_fail(c0);
    single_checks_fail(c1);
    single_checks_fail(c2);
    single_checks_fail(c3);
    single_checks_fail(c4);
    single_checks_fail(c5);
    single_checks_fail(c6);
    single_checks_fail(c7);
    single_checks_fail(c8);
    single_checks_fail(c9);
    single_checks_fail(c10);
    let s1 = seq![c0] + seq![c1];
    let s2 = s1 + check_if(!same_paths(storage.state_dir@, storage.data_dir@), c2);
    let s3 = s2 + seq![c3];
    let s4 = s3 + seq![c4];
    let s5 = s4 + seq![c5];
    let s6 = s5 + check_if(linux, c6);
    let s7 = s6 + check_if(linux, c7);
    let s8 = s7 + seq![c8];
    let s9 = s8 + check_if(input.storage_volume, c9);
    sums_fail_like_their_parts(seq![c0], seq![c1]);
    sums_fail_like_their_parts(s1, check_if(!same_paths(storage.state_dir@, storage.data_dir@), c2));
    sums_fail_like_their_parts(s2, seq![c3]);
    sums_fail_like_their_parts(s3, seq![c4]);
    sums_fail_like_their_parts(s4, seq![c5]);
    sums_fail_like_their_parts(s5, check_if(linux, c6));
    sums_fail_like_their_parts(s6, check_if(linux, c7));
    sums_fail_like_their_parts(s7, seq![c8]);
    sums_fail_like_their_parts(s8, check_if(input.storage_volume, c9));
    sums_fail_like_their_parts(s9, check_if(input.resource_limits_requested, c10));
}

/// What was found out decides how severe a check is. A directory is fine only with the room
/// that it needs, and a failure only where nothing is known of it; what a feature lacks is a
/// warning.
pub proof fn checks_are_as_severe_as_what_was_found(
    probe: ReflinkProbe,
    name: Seq<char>,
    free: Option<FreeSpace>,
    tight: u64,
    unknown: Seq<char>,
    present: bool,
    other: bool,
    dir: Seq<char>,
)
    ensures
        reflink_check(probe).status == CheckStatus::Okay <==> probe is Supported,
        reflink_check(probe).status == CheckStatus::Fail <==> probe is Failed,
        probe matches ReflinkProbe::Failed(e) ==> has_suffix(reflink_check(probe).message, e@),
        space_check(name, free, tight, unknown).name == name,
        space_check(name, free, tight, unknown).status == CheckStatus::Fail <==> free is None,
        space_check(name, free, tight, unknown).status == CheckStatus::Okay <==> free is Some
            && free->0.bytes >= tight,
        free matches Some(f) ==> occurs_at(
            space_check(name, free, tight, unknown).message,
            f.gib@,
            0,
        ),
        free is None ==> space_check(name, free, tight, unknown).message == unknown,
        agent_check(present).status == CheckStatus::Okay <==> present,
        agent_check(present).status == CheckStatus::Warn <==> !present,
        kernel_check(dir, present).status == CheckStatus::Okay <==> present,
        kernel_check(dir, present).status == CheckStatus::Warn <==> !present,
        present ==> has_suffix(kernel_check(dir, present).message, joined(dir, "vmlinux"@)),
        vsock_check(present).status == CheckStatus::Okay <==> present,
        vsock_check(present).status == CheckStatus::Warn <==> !present,
        helpers_check(present, other).status == CheckStatus::Okay <==> present && other,
        helpers_check(present, other).status == CheckStatus::Warn <==> !(present && other),
        volume_check(dir, present).status == CheckStatus::Okay <==> present,
        volume_check(dir, present).status == CheckStatus::Fail <==> !present,
        !present ==> occurs(volume_check(dir, present).message, dir),
{
    if let ReflinkProbe::Failed(e) = probe {
        stands_at_the_end("data dir not writable: "@, e@);
    }
    if let Some(f) = free {
        let m = space_check(name, free, tight, unknown).message;
        assert(m.subrange(0, f.gib@.len() as int) =~= f.gib@);
    }
    stands_at_the_end("default kernel present at "@, joined(dir, "vmlinux"@));
    stands_between(
        "storage_volume set but loopback not mounted (sentinel "@,
        dir,
        " missing)"@,
    );
}

/// Each helper is told with its own presence.
pub proof fn helpers_are_told_apart(mkfs: bool, rsync: bool)
    ensures
        presence(true) == "present"@ && presence(false) == "missing"@,
        occurs_at(
            helpers_check(mkfs, rsync).message,
            presence(mkfs),
            "mkfs.xfs: "@.len() as int,
        ),
        has_suffix(helpers_check(mkfs, rsync).message, ", rsync: "@ + presence(rsync)),
{
    stands_between("mkfs.xfs: "@, presence(mkfs), ", rsync: "@ + presence(rsync));
    assert(helpers_check(mkfs, rsync).message =~= "mkfs.xfs: "@ + presence(mkfs) + (", rsync: "@
        + presence(rsync)));
    stands_at_the_end("mkfs.xfs: "@ + presence(mkfs), ", rsync: "@ + presence(rsync));
}

/// Each platform's backend needs its own tools: on Linux the hypervisor and its device, or
/// nothing runs; on macOS only cloud images need one. Limits are enforced on Linux alone.
pub proof fn backends_need_their_tools(platform: Platform, facts: HostFacts)
    ensures
        platform == Platform::Linux ==> (backend_check(platform, facts).status == CheckStatus::Okay
            <==> facts.firecracker_on_path && facts.kvm_present) && backend_check(
            platform,
            facts,
        ).status != CheckStatus::Warn,
        platform == Platform::Macos ==> (backend_check(platform, facts).status == CheckStatus::Okay
            <==> facts.qemu_img_on_path) && backend_check(platform, facts).status
            != CheckStatus::Fail,
        platform == Platform::Linux && !facts.firecracker_on_path ==> backend_check(
            platform,
            facts,
        ).message == "firecracker not on PATH"@,
        platform == Platform::Linux && facts.firecracker_on_path && !facts.kvm_present
            ==> backend_check(platform, facts).message == "/dev/kvm missing"@,
        platform == Platform::Linux ==> (cgroup_check(platform, facts).status == CheckStatus::Okay
            <==> facts.cgroup_v2 && facts.controllers_delegated) && cgroup_check(
            platform,
            facts,
        ).status != CheckStatus::Warn,
        platform == Platform::Macos ==> cgroup_check(platform, facts).status == CheckStatus::Warn,
{
}

/// Guests reach the outside where packets are forwarded and the uplink, if one is known, is
/// there; without the tool that programs it, that is worth a warning. A missing uplink is
/// told by its name.
pub proof fn guests_need_an_uplink_and_forwarding(uplink: Option<Seq<char>>, facts: HostFacts)
    ensures
        egress_check(uplink, facts).status == CheckStatus::Fail <==> uplink is Some
            && !facts.uplink_present || !facts.ip_forwarding,
        egress_check(uplink, facts).status == CheckStatus::Okay <==> (uplink is Some
            ==> facts.uplink_present) && facts.ip_forwarding && facts.nft_on_path,
        uplink is Some && !facts.uplink_present ==> occurs(
            egress_check(uplink, facts).message,
            uplink->0,
        ),
        uplink is Some && egress_check(uplink, facts).status == CheckStatus::Okay ==> occurs(
            egress_check(uplink, facts).message,
            uplink->0,
        ),
{
    if let Some(u) = uplink {
        stands_between("host_interface "@, u, " not found (guests get no WAN/DNS)"@);
        stands_between("uplink "@, u, ", IP forwarding on, nftables present"@);
    }
}

/// Severities are told apart and grow with what they stand for.
pub proof fn severities_grow(a: CheckStatus, b: CheckStatus)
    ensures
        CheckStatus::Okay.rank() < CheckStatus::Warn.rank() < CheckStatus::Fail.rank(),
        a.rank() == b.rank() ==> a == b,
        CheckStatus::Okay.rank() == 0,
{
}

proof fn parts_of_a_sum(a: Seq<CheckView>, b: Seq<CheckView>, c: CheckView)
    ensures
        (a + b).contains(c) <==> a.contains(c) || b.contains(c),
{
    if a.contains(c) {
        let i = choose|i: int| 0 <= i < a.len() && a[i] == c;
        assert((a + b)[i] == c);
    }
    if b.contains(c) {
        let i = choose|i: int| 0 <= i < b.len() && b[i] == c;
        assert((a + b)[a.len() + i] == c);
    }
    if (a + b).contains(c) {
        let i = choose|i: int| 0 <= i < (a + b).len() && (a + b)[i] == c;
        if i < a.len() {
            assert(a[i] == c);
        } else {
            assert(b[i - a.len()] == c);
        }
    }
}

proof fn reasons_decide(reason: bool, c: CheckView)
    ensures
        check_if(reason, c).len() == (if reason { 1nat } else { 0nat }),
        reason ==> check_if(reason, c).contains(c),
        seq![c].contains(c),
{
    assert(seq![c][0] == c);
}

/// A report holds the checks that there is a reason for, and no others: six on every host,
/// two more on Linux, and one each for a state directory of its own, a storage volume and
/// requested limits. Directories are tight below 1 GiB and 256 MiB.
pub proof fn reports_hold_what_there_is_reason_for(
    input: DiagnosticsInput,
    platform: Platform,
    facts: HostFacts,
)
    ensures
        ({
            let all = checks_of(input, platform, facts);
            let storage = input.storage;
            let apart = !same_paths(storage.state_dir@, storage.data_dir@);
            &&& all.len() == 6 + (if apart { 1int } else { 0 }) + (if platform == Platform::Linux {
                2int
            } else {
                0
            }) + (if input.storage_volume { 1int } else { 0 }) + (
            if input.resource_limits_requested { 1int } else { 0 })
            &&& all.contains(reflink_check(facts.reflink))
            &&& all.contains(
                space_check(
                    "data-dir free space"@,
                    facts.data_dir_free,
                    (1024 * 1024 * 1024) as u64,
                    "cannot stat data dir"@,
                ),
            )
            &&& apart ==> all.contains(
                space_check(
                    "state-dir free space"@,
                    facts.state_dir_free,
                    (256 * 1024 * 1024) as u64,
                    "cannot stat state dir"@,
                ),
            )
            &&& all.contains(backend_check(platform, facts))
            &&& all.contains(agent_check(input.embedded_agent_present))
            &&& all.contains(kernel_check(storage.kernels_dir@, facts.default_kernel_present))
            &&& platform == Platform::Linux ==> all.contains(
                vsock_check(facts.vhost_vsock_present),
            ) && all.contains(egress_check(opt_str_view(input.host_interface), facts))
            &&& all.contains(helpers_check(facts.mkfs_xfs_on_path, facts.rsync_on_path))
            &&& input.storage_volume ==> all.contains(
                volume_check(storage.sentinel_path@, facts.sentinel_present),
            )
            &&& input.resource_limits_requested ==> all.contains(cgroup_check(platform, facts))
        }),
{
    broadcast use parts_are_held;

    let storage = input.storage;
    let linux = platform == Platform::Linux;
    let apart = !same_paths(storage.state_dir@, storage.data_dir@);
    reasons_decide(true, reflink_check(facts.reflink));
    reasons_decide(
        apart,
        space_check(
            "data-dir free space"@,
            facts.data_dir_free,
            DATA_DIR_TIGHT,
            "cannot stat data dir"@,
        ),
    );
    reasons_decide(
        apart,
        space_check(
            "state-dir free space"@,
            facts.state_dir_free,
            STATE_DIR_TIGHT,
            "cannot stat state dir"@,
        ),
    );
    reasons_decide(true, backend_check(platform, facts));
    reasons_decide(true, agent_check(input.embedded_agent_present));
    reasons_decide(true, kernel_check(storage.kernels_dir@, facts.default_kernel_present));
    reasons_decide(linux, vsock_check(facts.vhost_vsock_present));
    reasons_decide(linux, egress_check(opt_str_view(input.host_interface), facts));
    reasons_decide(true, helpers_check(facts.mkfs_xfs_on_path, facts.rsync_on_path));
    reasons_decide(
        input.storage_volume,
        volume_check(storage.sentinel_path@, facts.sentinel_present),
    );
    reasons_decide(input.resource_limits_requested, cgroup_check(platform, facts));
}

broadcast proof fn parts_are_held(a: Seq<CheckView>, b: Seq<CheckView>, c: CheckView)
    ensures
        #[trigger] (a + b).contains(c) <==> a.contains(c) || b.contains(c),
{
    parts_of_a_sum(a, b, c);
}

/// A check has one name, whatever was found: reports of different hosts can be compared check
/// by check.
pub proof fn checks_keep_their_names(
    probe: ReflinkProbe,
    platform: Platform,
    facts: HostFacts,
    uplink: Option<Seq<char>>,
    present: bool,
    other: bool,
    dir: Seq<char>,
)
    ensures
        reflink_check(probe).name == "data-dir reflink"@,
        backend_check(platform, facts).name == "backend"@,
        agent_check(present).name == "embedded agent"@,
        kernel_check(dir, present).name == "default boot images"@,
        vsock_check(present).name == "vhost_vsock"@,
        egress_check(uplink, facts).name == "guest NAT egress"@,
        helpers_check(present, other).name == "migration helpers"@,
        volume_check(dir, present).name == "storage volume mount"@,
        cgroup_check(platform, facts).name == "cgroup limits"@,
{
}

/// What a check says fits what was found: what is there is told as there, and what is
/// missing with what it is missed for.
pub proof fn checks_say_what_was_found(dir: Seq<char>)
    ensures
        agent_check(true).message == "guest agent embedded in this binary"@,
        occurs(agent_check(false).message, "cloud-image VMs will fail at create"@),
        vsock_check(true).message == "/dev/vhost-vsock present"@,
        occurs(vsock_check(false).message, "modprobe vhost_vsock"@),
        kernel_check(dir, false).message == "no default kernel (run `husker image pull`)"@,
        volume_check(dir, true).message == "storage loopback mounted"@,
        reflink_check(ReflinkProbe::Supported).message == "copy-on-write clones supported"@,
        occurs(reflink_check(ReflinkProbe::FullCopy).message, "husker setup storage"@),
{
    reveal_strlit("no embedded agent: cloud-image VMs will fail at create (rebuild with HUSKER_EMBED_AGENT_BIN)");
    reveal_strlit("cloud-image VMs will fail at create");
    reveal_strlit("/dev/vhost-vsock missing (QEMU backend + --mount jobs need it: modprobe vhost_vsock)");
    reveal_strlit("modprobe vhost_vsock");
    reveal_strlit("no reflink: every VM pays a full rootfs copy. Run `husker setup storage`.");
    reveal_strlit("husker setup storage");
    let a = agent_check(false).message;
    assert(a.subrange(19, 54) =~= "cloud-image VMs will fail at create"@);
    assert(occurs_at(a, "cloud-image VMs will fail at create"@, 19));
    let v = vsock_check(false).message;
    assert(v.subrange(63, 83) =~= "modprobe vhost_vsock"@);
    assert(occurs_at(v, "modprobe vhost_vsock"@, 63));
    let r = reflink_check(ReflinkProbe::FullCopy).message;
    assert(r.subrange(51, 71) =~= "husker setup storage"@);
    assert(occurs_at(r, "husker setup storage"@, 51));
}

} // verus!
