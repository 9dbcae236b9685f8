//! The host resources that a VM takes while it is created or forked, the order in
//! which it takes them, and what is given back when a step fails.

use vstd::prelude::*;

use crate::ipv4::Ipv4;

verus! {

/// Tracks resources allocated during VM creation for rollback on failure.
#[derive(Debug)]
pub struct AllocatedResources {
    pub guest_ip: Option<Ipv4>,
    pub cid: Option<u32>,
    pub tap_name: Option<String>,
    pub vm_dir: Option<String>,
    pub vm_id: Option<u128>,
    /// The lease that vouches for what a fork takes until its record does.
    pub host_resource_lease_id: Option<u128>,
}

/// One resource that a VM takes, by what it takes to give it back.
#[derive(Debug)]
pub enum Release {
    /// Destroy the VM in its backend.
    DestroyVm(u128),
    /// Remove the VM's directory.
    RemoveDir(String),
    /// Remove the port forwards of the TAP.
    RemoveForwards(String),
    /// Delete the TAP.
    DeleteTap(String),
    /// Free the vsock context id.
    FreeCid(u32),
    /// Free the address.
    FreeIp(Ipv4),
    /// Give up the lease that vouches for the others.
    ReleaseLease(u128),
}

/// A [`Release`] with its texts as sequences of characters.
pub ghost enum ReleaseView {
    DestroyVm(u128),
    RemoveDir(Seq<char>),
    RemoveForwards(Seq<char>),
    DeleteTap(Seq<char>),
    FreeCid(u32),
    FreeIp(Ipv4),
    ReleaseLease(u128),
}

impl View for Release {
    type V = ReleaseView;

    open spec fn view(&self) -> ReleaseView {
        match *self {
            Release::DestroyVm(id) => ReleaseView::DestroyVm(id),
            Release::RemoveDir(d) => ReleaseView::RemoveDir(d@),
            Release::RemoveForwards(t) => ReleaseView::RemoveForwards(t@),
            Release::DeleteTap(t) => ReleaseView::DeleteTap(t@),
            Release::FreeCid(c) => ReleaseView::FreeCid(c),
            Release::FreeIp(ip) => ReleaseView::FreeIp(ip),
            Release::ReleaseLease(id) => ReleaseView::ReleaseLease(id),
        }
    }
}

/// The views of a list of releases.
pub open spec fn release_views(v: Seq<Release>) -> Seq<ReleaseView> {
    v.map_values(|r: Release| r@)
}

/// A ledger with its texts as sequences of characters.
pub ghost struct LedgerView {
    pub guest_ip: Option<Ipv4>,
    pub cid: Option<u32>,
    pub tap_name: Option<Seq<char>>,
    pub vm_dir: Option<Seq<char>>,
    pub vm_id: Option<u128>,
    pub lease: Option<u128>,
}

impl View for AllocatedResources {
    type V = LedgerView;

    open spec fn view(&self) -> LedgerView {
        LedgerView {
            guest_ip: self.guest_ip,
            cid: self.cid,
            tap_name: crate::text::opt_view(self.tap_name),
            vm_dir: crate::text::opt_view(self.vm_dir),
            vm_id: self.vm_id,
            lease: self.host_resource_lease_id,
        }
    }
}

/// A ledger that holds nothing.
pub open spec fn nothing_held() -> LedgerView {
    LedgerView { guest_ip: None, cid: None, tap_name: None, vm_dir: None, vm_id: None, lease: None }
}

impl Default for AllocatedResources {
    fn default() -> (r: AllocatedResources)
        ensures
            r@ == nothing_held(),
    {
        AllocatedResources {
            guest_ip: None,
            cid: None,
            tap_name: None,
            vm_dir: None,
            vm_id: None,
            host_resource_lease_id: None,
        }
    }
}

/// What it takes to give back everything that a ledger holds: the VM, its
/// directory, its TAP with the forwards on it, its context id, its address, and the
/// lease that vouched for them.
pub open spec fn rollback_of(l: LedgerView) -> Seq<ReleaseView> {
    let vm = match l.vm_id {
        Some(id) => seq![ReleaseView::DestroyVm(id)],
        None => seq![],
    };
    let dir = match l.vm_dir {
        Some(d) => seq![ReleaseView::RemoveDir(d)],
        None => seq![],
    };
    let tap = match l.tap_name {
        Some(t) => seq![ReleaseView::RemoveForwards(t), ReleaseView::DeleteTap(t)],
        None => seq![],
    };
    let cid = match l.cid {
        Some(c) => seq![ReleaseView::FreeCid(c)],
        None => seq![],
    };
    let ip = match l.guest_ip {
        Some(a) => seq![ReleaseView::FreeIp(a)],
        None => seq![],
    };
    let lease = match l.lease {
        Some(id) => seq![ReleaseView::ReleaseLease(id)],
        None => seq![],
    };
    vm + dir + tap + cid + ip + lease
}

/// When a resource is taken, among those that a creation takes. Forwards come onto a TAP
/// once it is there. A lease vouches for all the others, and counts as the first.
pub open spec fn turn(r: ReleaseView) -> int {
    match r {
        ReleaseView::ReleaseLease(_) => -1,
        ReleaseView::FreeIp(_) => 0,
        ReleaseView::FreeCid(_) => 1,
        ReleaseView::DeleteTap(_) => 2,
        ReleaseView::RemoveForwards(_) => 3,
        ReleaseView::RemoveDir(_) => 4,
        ReleaseView::DestroyVm(_) => 5,
    }
}

/// Resources are given back in the reverse of the order in which they are taken, so
/// that nothing is taken away from under what still uses it.
pub proof fn rollbacks_run_in_reverse(l: LedgerView, i: int, j: int)
    requires
        0 <= i < j < rollback_of(l).len(),
    ensures
        turn(rollback_of(l)[i]) > turn(rollback_of(l)[j]),
{
}

/// Roll back partially allocated resources in reverse order.
pub fn rollback_create(resources: AllocatedResources) -> (r: Vec<Release>)
    ensures
        release_views(r@) == rollback_of(resources@),
{
    let mut r: Vec<Release> = Vec::new();
    if let Some(id) = resources.vm_id {
        r.push(Release::DestroyVm(id));
    }
    if let Some(dir) = resources.vm_dir {
        r.push(Release::RemoveDir(dir));
    }
    if let Some(tap) = resources.tap_name {
        r.push(Release::RemoveForwards(tap.clone()));
        r.push(Release::DeleteTap(tap));
    }
    if let Some(cid) = resources.cid {
        r.push(Release::FreeCid(cid));
    }
    if let Some(ip) = resources.guest_ip {
        r.push(Release::FreeIp(ip));
    }
    if let Some(id) = resources.host_resource_lease_id {
        r.push(Release::ReleaseLease(id));
    }
    proof {
        assert(release_views(r@) =~= rollback_of(resources@));
    }
    r
}

/// A release is carried out: any is, but that of a lease only where all the others
/// succeeded.
pub open spec fn due(r: ReleaseView, all_gone: bool) -> bool {
    r is ReleaseLease ==> all_gone
}

/// Whether a release is carried out; `all_gone` tells whether all those before it
/// succeeded. A lease stays where something is left, so that the next start finds it.
pub fn is_due(release: &Release, all_gone: bool) -> (r: bool)
    ensures
        r == due(release@, all_gone),
{
    match release {
        Release::ReleaseLease(_) => all_gone,
        _ => true,
    }
}

/// The release at this place was carried out and succeeded, where `went` tells how each
/// of them goes.
pub open spec fn given_back(back: Seq<ReleaseView>, went: Seq<bool>, i: int) -> bool {
    went[i] && due(back[i], forall|j: int| 0 <= j < i ==> #[trigger] went[j])
}

/// A lease is given up last, and only once everything that it vouched for was given
/// back.
pub proof fn leases_outlast_the_rollback(l: LedgerView, went: Seq<bool>, i: int, j: int)
    requires
        0 <= i < rollback_of(l).len(),
        rollback_of(l)[i] is ReleaseLease,
        given_back(rollback_of(l), went, i),
        0 <= j < i,
    ensures
        i == rollback_of(l).len() - 1,
        given_back(rollback_of(l), went, j),
{
    assert(went[j]);
    rollbacks_run_in_reverse(l, j, i);
}

/// The steps of a creation, in the order in which they are taken.
#[derive(Debug, Clone, Copy, PartialEq, Eq, Structural)]
pub enum CreateStep {
    /// Take an address (behind NAT only).
    AllocateIp,
    /// Take a vsock context id.
    AllocateCid,
    /// Create the TAP device.
    CreateTap,
    /// Attach the TAP to the bridge.
    AttachTap,
    /// Make way for the VM's directory.
    ClearDir,
    /// Look up the volume and see that nobody holds it.
    FindVolume,
    /// Find the cloud image (cloud images only).
    ResolveImage,
    /// Prepare the cloud disk (cloud images only).
    PrepareDisk,
    /// Write the cloud-init seed (cloud images only).
    WriteSeed,
    /// Clone the rootfs (direct-kernel boot only).
    CloneRootfs,
    /// Write the resolver configuration into the rootfs (direct-kernel boot only,
    /// and only where there are servers to write).
    InjectResolvConf,
    /// Parse the mounts and assemble the configuration.
    Assemble,
    /// Start the VM in its backend.
    StartVm,
    /// Record the VM.
    Insert,
    /// The VM exists.
    Done,
    /// A step failed.
    Failed,
}

/// What decides which steps a creation has.
#[derive(Debug, Clone, Copy, PartialEq, Eq, Structural)]
pub struct CreateShape {
    pub nat: bool,
    pub cloud: bool,
    pub dns: bool,
}

/// The first step of a creation.
pub open spec fn first_step(shape: CreateShape) -> CreateStep {
    if shape.nat { CreateStep::AllocateIp } else { CreateStep::AllocateCid }
}

/// The step that follows when a step succeeds.
pub open spec fn step_after(shape: CreateShape, step: CreateStep) -> CreateStep {
    match step {
        CreateStep::AllocateIp => CreateStep::AllocateCid,
        CreateStep::AllocateCid => CreateStep::CreateTap,
        CreateStep::CreateTap => CreateStep::AttachTap,
        CreateStep::AttachTap => CreateStep::ClearDir,
        CreateStep::ClearDir => CreateStep::FindVolume,
        CreateStep::FindVolume => if shape.cloud {
            CreateStep::ResolveImage
        } else {
            CreateStep::CloneRootfs
        },
        CreateStep::ResolveImage => CreateStep::PrepareDisk,
        CreateStep::PrepareDisk => CreateStep::WriteSeed,
        CreateStep::WriteSeed => CreateStep::Assemble,
        CreateStep::CloneRootfs => if shape.dns {
            CreateStep::InjectResolvConf
        } else {
            CreateStep::Assemble
        },
        CreateStep::InjectResolvConf => CreateStep::Assemble,
        CreateStep::Assemble => CreateStep::StartVm,
        CreateStep::StartVm => CreateStep::Insert,
        CreateStep::Insert => CreateStep::Done,
        CreateStep::Done => CreateStep::Done,
        CreateStep::Failed => CreateStep::Failed,
    }
}

/// How a step came out.
#[derive(Debug)]
pub enum StepOutcome {
    /// The step succeeded and took nothing.
    Passed,
    TookIp(Ipv4),
    TookCid(u32),
    TookTap(String),
    TookDir(String),
    TookVm(u128),
    /// The step failed.
    Refused,
}

/// An outcome is one that the step can have: what it takes if it succeeds, or a
/// refusal.
pub open spec fn outcome_fits(step: CreateStep, outcome: StepOutcome) -> bool {
    match outcome {
        StepOutcome::Refused => step != CreateStep::Done && step != CreateStep::Failed,
        StepOutcome::TookIp(_) => step == CreateStep::AllocateIp,
        StepOutcome::TookCid(_) => step == CreateStep::AllocateCid,
        StepOutcome::TookTap(_) => step == CreateStep::CreateTap,
        StepOutcome::TookDir(_) => step == CreateStep::ClearDir,
        StepOutcome::TookVm(_) => step == CreateStep::StartVm,
        StepOutcome::Passed => step != CreateStep::AllocateIp && step != CreateStep::AllocateCid
            && step != CreateStep::CreateTap && step != CreateStep::ClearDir && step
            != CreateStep::StartVm && step != CreateStep::Done && step != CreateStep::Failed,
    }
}

/// The ledger after a step came out so.
pub open spec fn booked(l: LedgerView, outcome: StepOutcome) -> LedgerView {
    match outcome {
        StepOutcome::Passed => l,
        StepOutcome::TookIp(ip) => LedgerView { guest_ip: Some(ip), ..l },
        StepOutcome::TookCid(c) => LedgerView { cid: Some(c), ..l },
        StepOutcome::TookTap(t) => LedgerView { tap_name: Some(t@), ..l },
        StepOutcome::TookDir(d) => LedgerView { vm_dir: Some(d@), ..l },
        StepOutcome::TookVm(id) => LedgerView { vm_id: Some(id), ..l },
        StepOutcome::Refused => l,
    }
}

/// The place of a step in the order of a creation.
pub open spec fn place(step: CreateStep) -> int {
    match step {
        CreateStep::AllocateIp => 0,
        CreateStep::AllocateCid => 1,
        CreateStep::CreateTap => 2,
        CreateStep::AttachTap => 3,
        CreateStep::ClearDir => 4,
        CreateStep::FindVolume => 5,
        CreateStep::ResolveImage => 6,
        CreateStep::PrepareDisk => 7,
        CreateStep::WriteSeed => 8,
        CreateStep::CloneRootfs => 9,
        CreateStep::InjectResolvConf => 10,
        CreateStep::Assemble => 11,
        CreateStep::StartVm => 12,
        CreateStep::Insert => 13,
        CreateStep::Done => 14,
        CreateStep::Failed => 15,
    }
}

/// The ledger holds exactly what the steps before `step` take.
pub open spec fn holds_up_to(shape: CreateShape, step: CreateStep, l: LedgerView) -> bool {
    &&& step == CreateStep::AllocateIp ==> shape.nat
    &&& l.guest_ip is Some <==> shape.nat && place(step) > 0
    &&& l.cid is Some <==> place(step) > 1
    &&& l.tap_name is Some <==> place(step) > 2
    &&& l.vm_dir is Some <==> place(step) > 4
    &&& l.vm_id is Some <==> place(step) > 12
    &&& l.lease is None
}

/// A creation under way: the step that is due and what was taken so far.
#[derive(Debug)]
pub struct Creation {
    pub shape: CreateShape,
    pub step: CreateStep,
    /// The step that failed, once one has.
    pub failed_at: Option<CreateStep>,
    pub resources: AllocatedResources,
}

impl Creation {
    /// While steps are due the ledger holds exactly what the steps before took;
    /// after a failure it holds exactly what the steps before the failed one took.
    pub open spec fn wf(self) -> bool {
        if self.step == CreateStep::Failed {
            &&& self.failed_at is Some
            &&& self.failed_at->0 != CreateStep::Failed
            &&& self.failed_at->0 != CreateStep::Done
            &&& holds_up_to(self.shape, self.failed_at->0, self.resources@)
        } else {
            &&& self.failed_at is None
            &&& holds_up_to(self.shape, self.step, self.resources@)
        }
    }

    /// Nothing is taken yet.
    pub fn begin(shape: CreateShape) -> (r: Creation)
        ensures
            r.wf(),
            r.shape == shape && r.step == first_step(shape) && r.resources@ == nothing_held(),
    {
        Creation {
            shape,
            step: if shape.nat { CreateStep::AllocateIp } else { CreateStep::AllocateCid },
            failed_at: None,
            resources: AllocatedResources::default(),
        }
    }

    fn following(&self) -> (r: CreateStep)
        ensures
            r == step_after(self.shape, self.step),
    {
        match self.step {
            CreateStep::AllocateIp => CreateStep::AllocateCid,
            CreateStep::AllocateCid => CreateStep::CreateTap,
            CreateStep::CreateTap => CreateStep::AttachTap,
            CreateStep::AttachTap => CreateStep::ClearDir,
            CreateStep::ClearDir => CreateStep::FindVolume,
            CreateStep::FindVolume => if self.shape.cloud {
                CreateStep::ResolveImage
            } else {
                CreateStep::CloneRootfs
            },
            CreateStep::ResolveImage => CreateStep::PrepareDisk,
            CreateStep::PrepareDisk => CreateStep::WriteSeed,
            CreateStep::WriteSeed => CreateStep::Assemble,
            CreateStep::CloneRootfs => if self.shape.dns {
                CreateStep::InjectResolvConf
            } else {
                CreateStep::Assemble
            },
            CreateStep::InjectResolvConf => CreateStep::Assemble,
            CreateStep::Assemble => CreateStep::StartVm,
            CreateStep::StartVm => CreateStep::Insert,
            CreateStep::Insert => CreateStep::Done,
            CreateStep::Done => CreateStep::Done,
            CreateStep::Failed => CreateStep::Failed,
        }
    }

    /// Book how the due step came out, and move on to the next one.
    pub fn advance(&mut self, outcome: StepOutcome)
        requires
            old(self).wf(),
            outcome_fits(old(self).step, outcome),
        ensures
            final(self).wf(),
            final(self).shape == old(self).shape,
            final(self).resources@ == booked(old(self).resources@, outcome),
            outcome is Refused ==> final(self).step == CreateStep::Failed && final(self).failed_at
                == Some(old(self).step),
            outcome !is Refused ==> final(self).step == step_after(
                old(self).shape,
                old(self).step,
            ) && final(self).failed_at is None,
    {
        let next = self.following();
        match outcome {
            StepOutcome::Refused => {
                self.failed_at = Some(self.step);
                self.step = CreateStep::Failed;
                return;
            },
            StepOutcome::Passed => {},
            StepOutcome::TookIp(ip) => {
                self.resources.guest_ip = Some(ip);
            },
            StepOutcome::TookCid(cid) => {
                self.resources.cid = Some(cid);
            },
            StepOutcome::TookTap(tap) => {
                self.resources.tap_name = Some(tap);
            },
            StepOutcome::TookDir(dir) => {
                self.resources.vm_dir = Some(dir);
            },
            StepOutcome::TookVm(id) => {
                self.resources.vm_id = Some(id);
            },
        }
        self.step = next;
    }
}

/// However a creation fails, nothing that it took is left behind and nothing else
/// is touched: what is given back is what the steps before the failed one took,
/// each once.
pub proof fn failed_creations_leave_nothing_behind(c: Creation)
    requires
        c.wf(),
        c.step == CreateStep::Failed,
    ensures
        ({
            let l = c.resources@;
            let at = place(c.failed_at->0);
            let back = rollback_of(l);
            &&& c.shape.nat && at > 0 <==> back.contains(ReleaseView::FreeIp(l.guest_ip->0))
            &&& at > 1 <==> back.contains(ReleaseView::FreeCid(l.cid->0))
            &&& at > 2 <==> back.contains(ReleaseView::DeleteTap(l.tap_name->0))
            &&& at > 4 <==> back.contains(ReleaseView::RemoveDir(l.vm_dir->0))
            &&& at > 12 <==> back.contains(ReleaseView::DestroyVm(l.vm_id->0))
        }),
        rollback_of(c.resources@).no_duplicates(),
{
    let l = c.resources@;
    let back = rollback_of(l);
    if l.vm_id is Some {
        assert(back[0] == ReleaseView::DestroyVm(l.vm_id->0));
    }
    let n = if l.vm_id is Some { 1int } else { 0 };
    if l.vm_dir is Some {
        assert(back[n] == ReleaseView::RemoveDir(l.vm_dir->0));
    }
    let m = n + if l.vm_dir is Some { 1int } else { 0 };
    if l.tap_name is Some {
        assert(back[m] == ReleaseView::RemoveForwards(l.tap_name->0));
        assert(back[m + 1] == ReleaseView::DeleteTap(l.tap_name->0));
    }
    let k = m + if l.tap_name is Some { 2int } else { 0 };
    if l.cid is Some {
        assert(back[k] == ReleaseView::FreeCid(l.cid->0));
    }
    let j = k + if l.cid is Some { 1int } else { 0 };
    if l.guest_ip is Some {
        assert(back[j] == ReleaseView::FreeIp(l.guest_ip->0));
    }
}

/// Every step that succeeds brings a creation closer to its end, so it ends after
/// fourteen steps at most.
pub proof fn creations_end(shape: CreateShape, step: CreateStep)
    requires
        step != CreateStep::Done,
        step != CreateStep::Failed,
    ensures
        place(step) < place(step_after(shape, step)) <= place(CreateStep::Done),
{
}

/// A rollback gives back exactly what is held: each resource once, by its own name, with
/// the forwards of a TAP ahead of the TAP itself; where nothing is held there is nothing to
/// give back.
pub proof fn rollbacks_give_back_what_is_held(l: LedgerView, r: ReleaseView)
    ensures
        rollback_of(nothing_held()).len() == 0,
        rollback_of(l).contains(r) <==> match r {
            ReleaseView::DestroyVm(id) => l.vm_id == Some(id),
            ReleaseView::RemoveDir(d) => l.vm_dir == Some(d),
            ReleaseView::RemoveForwards(t) => l.tap_name == Some(t),
            ReleaseView::DeleteTap(t) => l.tap_name == Some(t),
            ReleaseView::FreeCid(c) => l.cid == Some(c),
            ReleaseView::FreeIp(a) => l.guest_ip == Some(a),
            ReleaseView::ReleaseLease(id) => l.lease == Some(id),
        },
{
    let vm = match l.vm_id {
        Some(id) => seq![ReleaseView::DestroyVm(id)],
        None => seq![],
    };
    let dir = match l.vm_dir {
        Some(d) => seq![ReleaseView::RemoveDir(d)],
        None => seq![],
    };
    let tap = match l.tap_name {
        Some(t) => seq![ReleaseView::RemoveForwards(t), ReleaseView::DeleteTap(t)],
        None => seq![],
    };
    let cid = match l.cid {
        Some(c) => seq![ReleaseView::FreeCid(c)],
        None => seq![],
    };
    let ip = match l.guest_ip {
        Some(a) => seq![ReleaseView::FreeIp(a)],
        None => seq![],
    };
    let lease = match l.lease {
        Some(id) => seq![ReleaseView::ReleaseLease(id)],
        None => seq![],
    };
    assert(rollback_of(l) == vm + dir + tap + cid + ip + lease);
    stands_in_either(vm + dir + tap + cid + ip, lease, r);
    stands_in_either(vm + dir + tap + cid, ip, r);
    stands_in_either(vm + dir + tap, cid, r);
    stands_in_either(vm + dir, tap, r);
    stands_in_either(vm, dir, r);
    stands_in_one_or_two(vm, r);
    stands_in_one_or_two(dir, r);
    stands_in_one_or_two(tap, r);
    stands_in_one_or_two(cid, r);
    stands_in_one_or_two(ip, r);
    stands_in_one_or_two(lease, r);
}

proof fn stands_in_either(a: Seq<ReleaseView>, b: Seq<ReleaseView>, r: ReleaseView)
    ensures
        (a + b).contains(r) <==> a.contains(r) || b.contains(r),
{
    if a.contains(r) {
        let i = choose|i: int| 0 <= i < a.len() && a[i] == r;
        assert((a + b)[i] == r);
    }
    if b.contains(r) {
        let i = choose|i: int| 0 <= i < b.len() && b[i] == r;
        assert((a + b)[a.len() + i] == r);
    }
}

proof fn stands_in_one_or_two(s: Seq<ReleaseView>, r: ReleaseView)
    requires
        s.len() <= 2,
    ensures
        s.contains(r) <==> s.len() > 0 && s[0] == r || s.len() > 1 && s[1] == r,
{
}

/// Everything is given back whatever failed before it, but for a lease, which stays where
/// anything is left.
pub proof fn only_leases_wait_for_the_others(r: ReleaseView, all_gone: bool)
    ensures
        due(r, true),
        !due(r, false) <==> r is ReleaseLease,
{
}

/// What a step takes is booked as what it is, and nothing that was booked before is lost; a
/// step that takes nothing, or fails, books nothing.
pub proof fn creations_book_what_they_take(l: LedgerView, outcome: StepOutcome)
    ensures
        ({
            let b = booked(l, outcome);
            &&& outcome matches StepOutcome::TookIp(ip) ==> b.guest_ip == Some(ip) && b == (
            LedgerView { guest_ip: b.guest_ip, ..l })
            &&& outcome matches StepOutcome::TookCid(c) ==> b.cid == Some(c) && b == (LedgerView {
                cid: b.cid,
                ..l
            })
            &&& outcome matches StepOutcome::TookTap(t) ==> b.tap_name == Some(t@) && b == (
            LedgerView { tap_name: b.tap_name, ..l })
            &&& outcome matches StepOutcome::TookDir(d) ==> b.vm_dir == Some(d@) && b == (
            LedgerView { vm_dir: b.vm_dir, ..l })
            &&& outcome matches StepOutcome::TookVm(id) ==> b.vm_id == Some(id) && b == (
            LedgerView { vm_id: b.vm_id, ..l })
            &&& outcome is Passed || outcome is Refused ==> b == l
        }),
{
}

/// The steps of a creation come in this order. A VM behind NAT takes an address first. The
/// TAP is created before it is attached, the directory made before a disk is put into it,
/// the disk is ready before the VM is assembled, and the record comes last. A cloud image
/// is found, prepared and seeded; any other rootfs is cloned, and told its resolvers where
/// there are any.
pub proof fn creations_take_their_steps_in_order(shape: CreateShape, s: CreateStep)
    ensures
        first_step(shape) == CreateStep::AllocateIp <==> shape.nat,
        first_step(shape) == CreateStep::AllocateCid <==> !shape.nat,
        s != CreateStep::Done && s != CreateStep::Failed ==> place(step_after(shape, s)) > place(s),
        step_after(shape, s) == CreateStep::AllocateCid <==> s == CreateStep::AllocateIp,
        step_after(shape, s) == CreateStep::CreateTap <==> s == CreateStep::AllocateCid,
        step_after(shape, s) == CreateStep::AttachTap <==> s == CreateStep::CreateTap,
        step_after(shape, s) == CreateStep::ClearDir <==> s == CreateStep::AttachTap,
        step_after(shape, s) == CreateStep::FindVolume <==> s == CreateStep::ClearDir,
        step_after(shape, s) == CreateStep::ResolveImage <==> s == CreateStep::FindVolume
            && shape.cloud,
        step_after(shape, s) == CreateStep::CloneRootfs <==> s == CreateStep::FindVolume
            && !shape.cloud,
        step_after(shape, s) == CreateStep::PrepareDisk <==> s == CreateStep::ResolveImage,
        step_after(shape, s) == CreateStep::WriteSeed <==> s == CreateStep::PrepareDisk,
        step_after(shape, s) == CreateStep::InjectResolvConf <==> s == CreateStep::CloneRootfs
            && shape.dns,
        step_after(shape, s) == CreateStep::Assemble <==> s == CreateStep::WriteSeed || s
            == CreateStep::InjectResolvConf || s == CreateStep::CloneRootfs && !shape.dns,
        step_after(shape, s) == CreateStep::StartVm <==> s == CreateStep::Assemble,
        step_after(shape, s) == CreateStep::Insert <==> s == CreateStep::StartVm,
        step_after(shape, s) == CreateStep::Done <==> s == CreateStep::Insert || s
            == CreateStep::Done,
        place(CreateStep::CreateTap) < place(CreateStep::AttachTap) < place(CreateStep::ClearDir)
            < place(CreateStep::FindVolume) < place(CreateStep::StartVm) < place(CreateStep::Insert),
{
}

} // verus!
