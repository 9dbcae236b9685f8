//! Userdata: the script that runs once in a new VM, and the background jobs that run
//! it.

use vstd::prelude::*;
use vstd::string::*;

use crate::error::{CoreError, StateError};
#[allow(unused_imports)]
use crate::error::{unit_view, ErrorView, StateErrorView};
use crate::ids::id_text;
#[allow(unused_imports)]
use crate::ids::hyphenated;
use crate::records::{Lifecycle, VmRecord};
#[allow(unused_imports)]
use crate::text::{occurs, opt_view, stands_between};

verus! {

/// How far the userdata of a VM has got.
#[derive(Clone, Copy, PartialEq, Eq, Debug, Structural)]
pub enum UserdataStatus {
    Pending,
    Running,
    Completed,
    Failed,
}

/// What came of a script that left with this code.
pub open spec fn came_of(exit_code: i32) -> UserdataStatus {
    if exit_code == 0 {
        UserdataStatus::Completed
    } else {
        UserdataStatus::Failed
    }
}

/// The script that a job runs, if any.
pub open spec fn script_of(id: u128, current: VmRecord, must_run: bool) -> Option<Seq<char>> {
    if current.id != id || (must_run && current.stage() != Lifecycle::Running) {
        None
    } else {
        opt_view(current.userdata)
    }
}

/// A script is completed exactly where it left with zero, and failed exactly where it did
/// not.
pub proof fn scripts_complete_with_zero(exit_code: i32)
    ensures
        came_of(exit_code) == UserdataStatus::Completed <==> exit_code == 0,
        came_of(exit_code) == UserdataStatus::Failed <==> exit_code != 0,
{
}

/// A job runs its own VM's script and no other's: not that of a later VM of the same name,
/// and, where it needs a running VM, not that of one at rest.
pub proof fn jobs_run_their_own_vms_script(id: u128, current: VmRecord, must_run: bool)
    ensures
        current.id != id ==> script_of(id, current, must_run) is None,
        must_run && current.stage() != Lifecycle::Running ==> script_of(id, current, must_run)
            is None,
        current.id == id && !must_run ==> script_of(id, current, must_run) == opt_view(
            current.userdata,
        ),
        current.id == id && current.stage() == Lifecycle::Running ==> script_of(
            id,
            current,
            must_run,
        ) == opt_view(current.userdata),
{
}

/// The status that a script leaves behind.
pub fn finished_status(exit_code: i32) -> (r: UserdataStatus)
    ensures
        r == came_of(exit_code),
{
    if exit_code == 0 {
        UserdataStatus::Completed
    } else {
        UserdataStatus::Failed
    }
}

/// The script that a job for the VM with this id runs, if any: `current` is the VM that
/// has the name now. A job that was meant for an earlier VM of the same name does not
/// start, nor does one that needs a running VM and finds another.
pub fn job_script(id: u128, current: &VmRecord, must_run: bool) -> (r: Option<String>)
    ensures
        opt_view(r) == script_of(id, *current, must_run),
{
    if current.id != id {
        return None;
    }
    if must_run && current.lifecycle() != Lifecycle::Running {
        return None;
    }
    current.userdata.clone()
}

// ---------------------------------------------------------------------------
// Jobs
// ---------------------------------------------------------------------------

/// The jobs by the VMs that they run for.
pub open spec fn jobs_of(entries: Seq<(u128, u64)>) -> Map<u128, u64>
    decreases entries.len(),
{
    if entries.len() == 0 {
        Map::empty()
    } else {
        jobs_of(entries.drop_last()).insert(entries.last().0, entries.last().1)
    }
}

/// No two entries are for the same VM.
pub open spec fn one_per_vm(entries: Seq<(u128, u64)>) -> bool {
    forall|i: int, j: int|
        0 <= i < j < entries.len() ==> (#[trigger] entries[i]).0 != (#[trigger] entries[j]).0
}

proof fn jobs_domain(entries: Seq<(u128, u64)>, id: u128)
    ensures
        jobs_of(entries).dom().contains(id) <==> exists|i: int|
            0 <= i < entries.len() && (#[trigger] entries[i]).0 == id,
    decreases entries.len(),
{
    if entries.len() > 0 {
        let rest = entries.drop_last();
        jobs_domain(rest, id);
        if jobs_of(rest).dom().contains(id) {
            let i = choose|i: int| 0 <= i < rest.len() && (#[trigger] rest[i]).0 == id;
            assert(entries[i].0 == id);
        }
        if exists|i: int| 0 <= i < entries.len() && (#[trigger] entries[i]).0 == id {
            let i = choose|i: int| 0 <= i < entries.len() && (#[trigger] entries[i]).0 == id;
            if i < rest.len() {
                assert(rest[i].0 == id);
            }
        }
        assert(entries[entries.len() - 1] == entries.last());
    }
}

proof fn jobs_value(entries: Seq<(u128, u64)>, i: int)
    requires
        one_per_vm(entries),
        0 <= i < entries.len(),
    ensures
        jobs_of(entries).dom().contains(entries[i].0),
        jobs_of(entries)[entries[i].0] == entries[i].1,
    decreases entries.len(),
{
    let rest = entries.drop_last();
    if i < rest.len() {
        assert(entries.last() == entries[entries.len() - 1]);
        assert(rest[i] == entries[i]);
        assert(one_per_vm(rest)) by {
            assert forall|a: int, b: int| 0 <= a < b < rest.len() implies (#[trigger] rest[a]).0
                != (#[trigger] rest[b]).0 by {
                assert(rest[a] == entries[a] && rest[b] == entries[b]);
            }
        }
        jobs_value(rest, i);
    }
}

proof fn removing_one(entries: Seq<(u128, u64)>, i: int)
    requires
        one_per_vm(entries),
        0 <= i < entries.len(),
    ensures
        one_per_vm(entries.remove(i)),
        jobs_of(entries.remove(i)) =~= jobs_of(entries).remove(entries[i].0),
{
    let left = entries.remove(i);
    let id = entries[i].0;
    assert(one_per_vm(left)) by {
        assert forall|a: int, b: int| 0 <= a < b < left.len() implies (#[trigger] left[a]).0 != (
        #[trigger] left[b]).0 by {
            let x = if a < i { a } else { a + 1 };
            let y = if b < i { b } else { b + 1 };
            assert(left[a] == entries[x] && left[b] == entries[y]);
        }
    }
    let m = jobs_of(left);
    let n = jobs_of(entries).remove(id);
    assert forall|k: u128| #[trigger] m.dom().contains(k) <==> n.dom().contains(k) by {
        jobs_domain(left, k);
        jobs_domain(entries, k);
        if m.dom().contains(k) {
            let a = choose|a: int| 0 <= a < left.len() && (#[trigger] left[a]).0 == k;
            let x = if a < i { a } else { a + 1 };
            assert(left[a] == entries[x]);
            assert(entries[x].0 == k);
        }
        if n.dom().contains(k) {
            let x = choose|x: int| 0 <= x < entries.len() && (#[trigger] entries[x]).0 == k;
            let a = if x < i { x } else { x - 1 };
            assert(left[a] == entries[x]);
        }
    }
    assert forall|k: u128| #[trigger] m.dom().contains(k) implies m[k] == n[k] by {
        jobs_domain(left, k);
        let a = choose|a: int| 0 <= a < left.len() && (#[trigger] left[a]).0 == k;
        let x = if a < i { a } else { a + 1 };
        assert(left[a] == entries[x]);
        jobs_value(left, a);
        jobs_value(entries, x);
        jobs_domain(entries, k);
    }
}

/// Ownership boundary for background userdata execution.
///
/// A job is registered before it is allowed to begin, so shutdown cannot miss one.
/// Each job has a token of its own: the end of an old job cannot remove a newer one
/// for the same VM.
#[derive(Debug)]
pub struct UserdataJobs {
    next_token: u64,
    accepting: bool,
    entries: Vec<(u128, u64)>,
}

/// What is known of the jobs.
pub ghost struct JobsView {
    pub next_token: u64,
    pub accepting: bool,
    pub jobs: Map<u128, u64>,
}

/// A job for the VM can be registered.
pub open spec fn can_register(jobs: JobsView, id: u128) -> bool {
    jobs.accepting && jobs.next_token < u64::MAX && !jobs.jobs.dom().contains(id)
}

/// A job was registered, or not: the token that was given out, and the jobs before and
/// after.
pub open spec fn registered(
    before: JobsView,
    id: u128,
    claimed: bool,
    token: Option<u64>,
    after: JobsView,
) -> bool {
    &&& token is Some <==> claimed && can_register(before, id)
    &&& token matches Some(t) ==> t == before.next_token && after == (JobsView {
        next_token: (t + 1) as u64,
        accepting: true,
        jobs: before.jobs.insert(id, t),
    })
    &&& token is None ==> after == before
}

/// A job that ended was removed, or not.
pub open spec fn ended(
    before: JobsView,
    id: u128,
    token: u64,
    removed: bool,
    after: JobsView,
) -> bool {
    &&& removed == (before.jobs.dom().contains(id) && before.jobs[id] == token)
    &&& removed ==> after == (JobsView { jobs: before.jobs.remove(id), ..before })
    &&& !removed ==> after == before
}

/// A VM's job was taken, if it had one.
pub open spec fn taken(before: JobsView, id: u128, job: Option<u64>, after: JobsView) -> bool {
    &&& job == (if before.jobs.dom().contains(id) {
        Some(before.jobs[id])
    } else {
        None
    })
    &&& after == (JobsView { jobs: before.jobs.remove(id), ..before })
}

/// Taking a VM's job gives its token, leaves the VM without a job, and touches no other
/// VM's. The end of the job that was taken changes nothing any more.
pub proof fn taken_jobs_are_gone(
    before: JobsView,
    id: u128,
    other: u128,
    job: Option<u64>,
    after: JobsView,
    removed: bool,
    left: JobsView,
)
    requires
        taken(before, id, job, after),
        job is Some ==> ended(after, id, job->0, removed, left),
        other != id,
    ensures
        job is Some <==> before.jobs.dom().contains(id),
        job matches Some(t) ==> t == before.jobs[id] && !removed && left == after,
        !after.jobs.dom().contains(id),
        after.jobs.dom().contains(other) <==> before.jobs.dom().contains(other),
        before.jobs.dom().contains(other) ==> after.jobs[other] == before.jobs[other],
        after.accepting == before.accepting && after.next_token == before.next_token,
{
}

/// The jobs before any was registered.
pub open spec fn no_jobs() -> JobsView {
    JobsView { next_token: 1, accepting: true, jobs: Map::empty() }
}

/// The jobs once no more are accepted.
pub open spec fn closed_jobs(before: JobsView) -> JobsView {
    JobsView { next_token: before.next_token, accepting: false, jobs: Map::empty() }
}

/// A VM has one job at a time. While it has one, no other is registered for it; once that
/// one is taken, or has ended, another can be. The jobs of other VMs are not touched, and
/// a job ends only under its own token.
pub proof fn vms_have_one_job_at_a_time(
    before: JobsView,
    id: u128,
    other: u128,
    claimed: bool,
    token: Option<u64>,
    after: JobsView,
    ending: u64,
    removed: bool,
    left: JobsView,
)
    requires
        registered(before, id, claimed, token, after),
        ended(after, id, ending, removed, left),
        other != id,
    ensures
        before.jobs.dom().contains(id) ==> token is None && after == before,
        !claimed ==> token is None,
        claimed && before.accepting && before.next_token < u64::MAX && !before.jobs.dom().contains(
            id,
        ) ==> token is Some,
        token matches Some(t) ==> after.jobs.dom().contains(id) && after.jobs[id] == t
            && !can_register(after, id) && after.next_token > t,
        token matches Some(t) ==> (removed <==> ending == t),
        removed ==> !left.jobs.dom().contains(id),
        removed && after.accepting && after.next_token < u64::MAX ==> can_register(left, id),
        !removed ==> left == after,
        left.jobs.dom().contains(other) <==> before.jobs.dom().contains(other),
        before.jobs.dom().contains(other) ==> left.jobs[other] == before.jobs[other],
{
}

/// Once jobs are closed, none is accepted, and none is left behind. Before any was
/// registered, every VM's can be.
pub proof fn closed_jobs_accept_none(before: JobsView, id: u128)
    ensures
        !can_register(closed_jobs(before), id),
        !closed_jobs(before).jobs.dom().contains(id),
        can_register(no_jobs(), id),
        !no_jobs().jobs.dom().contains(id),
{
}

impl View for UserdataJobs {
    type V = JobsView;

    closed spec fn view(&self) -> JobsView {
        JobsView {
            next_token: self.next_token,
            accepting: self.accepting,
            jobs: jobs_of(self.entries@),
        }
    }
}

impl Default for UserdataJobs {
    fn default() -> (r: UserdataJobs)
        ensures
            r@ == no_jobs(),
    {
        UserdataJobs { next_token: 1, accepting: true, entries: Vec::new() }
    }
}

impl UserdataJobs {
    #[verifier::type_invariant]
    spec fn well_formed(self) -> bool {
        &&& one_per_vm(self.entries@)
        &&& forall|i: int|
            0 <= i < self.entries@.len() ==> (#[trigger] self.entries@[i]).1 < self.next_token
    }

    fn position(&self, id: u128) -> (r: Option<usize>)
        ensures
            r matches Some(i) ==> i < self.entries@.len() && self.entries@[i as int].0 == id,
            r is None ==> forall|i: int|
                0 <= i < self.entries@.len() ==> (#[trigger] self.entries@[i]).0 != id,
    {
        let mut i: usize = 0;
        while i < self.entries.len()
            invariant
                i <= self.entries@.len(),
                forall|k: int| 0 <= k < i ==> (#[trigger] self.entries@[k]).0 != id,
            decreases self.entries.len() - i,
        {
            if self.entries[i].0 == id {
                return Some(i);
            }
            i += 1;
        }
        None
    }

    /// Whether a job for the VM can be registered: jobs are still accepted, there is
    /// none for it, and there is a token left.
    pub fn accepts(&self, id: u128) -> (r: bool)
        ensures
            r == can_register(self@, id),
    {
        proof {
            jobs_domain(self.entries@, id);
        }
        self.accepting && self.next_token < u64::MAX && self.position(id).is_none()
    }

    /// Register a job for the VM, where its script was still waiting to be run:
    /// `claimed` tells whether the stored status went from pending to running. Returns
    /// the job's token.
    pub fn claim_and_insert(&mut self, id: u128, claimed: bool) -> (r: Option<u64>)
        ensures
            registered(old(self)@, id, claimed, r, final(self)@),
            forall|v: u128| #[trigger]
                old(self)@.jobs.dom().contains(v) ==> old(self)@.jobs[v] < old(self)@.next_token,
    {
        proof {
            use_type_invariant(&*self);
            assert forall|v: u128| #[trigger] self@.jobs.dom().contains(v) implies self@.jobs[v]
                < self@.next_token by {
                jobs_domain(self.entries@, v);
                let i = choose|i: int|
                    0 <= i < self.entries@.len() && (#[trigger] self.entries@[i]).0 == v;
                jobs_value(self.entries@, i);
            }
        }
        if !claimed || !self.accepts(id) {
            return None;
        }
        let ghost before = self.entries@;
        proof {
            jobs_domain(before, id);
        }
        let token: u64 = self.next_token;
        self.next_token = token + 1;
        let mut entries: Vec<(u128, u64)> = Vec::new();
        std::mem::swap(&mut entries, &mut self.entries);
        entries.push((id, token));
        proof {
            assert(entries@.drop_last() =~= before);
            assert forall|a: int, b: int| 0 <= a < b < entries@.len() implies (#[trigger] entries@[a]).0
                != (#[trigger] entries@[b]).0 by {
                assert(entries@[a] == before[a]);
                if b < before.len() {
                    assert(entries@[b] == before[b]);
                }
            }
        }
        self.entries = entries;
        Some(token)
    }

    fn drop_entry(&mut self, i: usize) -> (r: u64)
        requires
            i < old(self).entries@.len(),
        ensures
            r == old(self).entries@[i as int].1,
            final(self)@ == (JobsView {
                jobs: old(self)@.jobs.remove(old(self).entries@[i as int].0),
                ..old(self)@
            }),
    {
        proof {
            use_type_invariant(&*self);
        }
        let ghost before = self.entries@;
        let mut entries: Vec<(u128, u64)> = Vec::new();
        std::mem::swap(&mut entries, &mut self.entries);
        let e = entries.remove(i);
        proof {
            removing_one(before, i as int);
            assert forall|k: int| 0 <= k < entries@.len() implies (#[trigger] entries@[k]).1
                < self.next_token by {
                let x = if k < i { k } else { k + 1 };
                assert(entries@[k] == before[x]);
            }
        }
        self.entries = entries;
        e.1
    }

    /// Remove the VM's job if it is still the one with this token. Returns whether it
    /// was.
    pub fn remove_if_current(&mut self, id: u128, token: u64) -> (r: bool)
        ensures
            ended(old(self)@, id, token, r, final(self)@),
    {
        proof {
            use_type_invariant(&*self);
            jobs_domain(self.entries@, id);
        }
        match self.position(id) {
            Some(i) => {
                proof {
                    jobs_value(self.entries@, i as int);
                }
                if self.entries[i].1 == token {
                    self.drop_entry(i);
                    true
                } else {
                    false
                }
            },
            None => false,
        }
    }

    /// Take the VM's job, to cancel it.
    pub fn take(&mut self, id: u128) -> (r: Option<u64>)
        ensures
            taken(old(self)@, id, r, final(self)@),
    {
        proof {
            use_type_invariant(&*self);
            jobs_domain(self.entries@, id);
        }
        match self.position(id) {
            Some(i) => {
                proof {
                    jobs_value(self.entries@, i as int);
                }
                Some(self.drop_entry(i))
            },
            None => {
                proof {
                    assert(self@.jobs.remove(id) =~= self@.jobs);
                }
                None
            },
        }
    }

    /// Accept no more jobs, and take all that there are.
    pub fn close_and_take_all(&mut self) -> (r: Vec<(u128, u64)>)
        ensures
            one_per_vm(r@),
            jobs_of(r@) == old(self)@.jobs,
            final(self)@ == closed_jobs(old(self)@),
    {
        proof {
            use_type_invariant(&*self);
        }
        self.accepting = false;
        let mut entries: Vec<(u128, u64)> = Vec::new();
        std::mem::swap(&mut entries, &mut self.entries);
        entries
    }
}

/// A job that ends late leaves the newer job of its VM alone: when the newer one was
/// registered, the earlier token had been given out already, and none is given out
/// twice.
pub proof fn late_jobs_leave_newer_ones_alone(earlier: u64, before: JobsView, after: JobsView, id: u128)
    requires
        earlier < before.next_token < u64::MAX,
        after == (JobsView {
            next_token: (before.next_token + 1) as u64,
            accepting: true,
            jobs: before.jobs.insert(id, before.next_token),
        }),
    ensures
        !(after.jobs.dom().contains(id) && after.jobs[id] == earlier),
{
}

// ---------------------------------------------------------------------------
// The stored status
// ---------------------------------------------------------------------------

/// The stored status after it was asked to go from one value to another, and whether
/// it did.
pub open spec fn transition(stored: UserdataStatus, from: UserdataStatus, to: UserdataStatus) -> (
    UserdataStatus,
    bool,
) {
    if stored == from {
        (to, true)
    } else {
        (stored, false)
    }
}

/// What settling the status of a script is answered.
pub open spec fn settling(vm: u128, went: Result<bool, StateError>) -> Result<(), ErrorView> {
    match went {
        Ok(true) => Ok(()),
        Ok(false) => Err(
            ErrorView::Io(
                "userdata status for VM "@ + hyphenated(vm)
                    + " changed while execution was active"@,
            ),
        ),
        Err(e) => Err(ErrorView::State(e@)),
    }
}

/// The status is still to be settled after it was tried.
pub open spec fn still_armed(armed: bool, went: Result<bool, StateError>) -> bool {
    armed && went is Err
}

/// Once the store answered, the status is settled, whether it went or was found changed;
/// while the store fails, it is still to be put back. Settling succeeds exactly where the
/// status went.
pub proof fn answers_settle_a_run(vm: u128, went: Result<bool, StateError>)
    ensures
        settling(vm, went) is Ok <==> went == Ok::<bool, StateError>(true),
        went is Ok ==> !still_armed(true, went),
        went is Err ==> still_armed(true, went) && settling(vm, went)->Err_0 is State,
        went == Ok::<bool, StateError>(false) ==> settling(vm, went)->Err_0 is Io
            && occurs(settling(vm, went)->Err_0->Io_0, hyphenated(vm)),
        !still_armed(false, went),
{
    stands_between(
        "userdata status for VM "@,
        hyphenated(vm),
        " changed while execution was active"@,
    );
}

/// Only a status that stands where it is expected to changes, and to what was asked for;
/// any other is kept.
pub proof fn transitions_start_where_expected(
    stored: UserdataStatus,
    from: UserdataStatus,
    to: UserdataStatus,
)
    ensures
        transition(stored, from, to).1 <==> stored == from,
        transition(stored, from, to).1 ==> transition(stored, from, to).0 == to,
        !transition(stored, from, to).1 ==> transition(stored, from, to).0 == stored,
        stored == UserdataStatus::Running ==> status_after_run(stored, Some(to)) == to
            && status_after_run(stored, None) == UserdataStatus::Pending,
        stored != UserdataStatus::Running ==> status_after_run(stored, Some(to)) == stored
            && status_after_run(stored, None) == stored,
{
}

/// Whoever runs a script settles its status: either with what came of it, or, where
/// the run was cut short, by making it pending again.
#[derive(Debug)]
pub struct UserdataRunGuard {
    armed: bool,
}

impl UserdataRunGuard {
    /// The status is still to be settled.
    pub closed spec fn is_armed(self) -> bool {
        self.armed
    }

    /// A script begins to run.
    pub fn new() -> (r: UserdataRunGuard)
        ensures
            r.is_armed(),
    {
        UserdataRunGuard { armed: true }
    }

    /// The script is done, and the stored status was asked to go from running to what
    /// came of it: `went` tells whether it did.
    pub fn finish(&mut self, vm: u128, went: Result<bool, StateError>) -> (r: Result<(), CoreError>)
        ensures
            final(self).is_armed() == still_armed(old(self).is_armed(), went),
            unit_view(r) == settling(vm, went),
    {
        match went {
            Ok(true) => {
                self.armed = false;
                Ok(())
            },
            Ok(false) => {
                self.armed = false;
                Err(
                    CoreError::Io(
                        "userdata status for VM ".to_owned().concat(id_text(vm).as_str()).concat(
                            " changed while execution was active",
                        ),
                    ),
                )
            },
            Err(e) => Err(CoreError::State(e)),
        }
    }

    /// Whether the stored status has to go back from running to pending when the run
    /// is over.
    pub fn restores_pending(&self) -> (r: bool)
        ensures
            r == self.is_armed(),
    {
        self.armed
    }
}

/// The status once a run is over. `settled` is what came of the script, if the run got
/// that far and the store took it.
pub open spec fn status_after_run(stored: UserdataStatus, settled: Option<UserdataStatus>) -> UserdataStatus {
    match settled {
        Some(s) => transition(stored, UserdataStatus::Running, s).0,
        None => transition(stored, UserdataStatus::Running, UserdataStatus::Pending).0,
    }
}

/// No run leaves its script marked as running: it is completed, failed, or pending
/// once more.
pub proof fn runs_settle_their_status(stored: UserdataStatus, settled: Option<UserdataStatus>)
    requires
        settled matches Some(s) ==> s == UserdataStatus::Completed || s == UserdataStatus::Failed,
    ensures
        status_after_run(stored, settled) != UserdataStatus::Running,
{
}

/// A script is claimed by one caller only: once the status went from pending to
/// running, nobody else gets it to.
pub proof fn scripts_are_claimed_once(stored: UserdataStatus)
    ensures
        ({
            let first = transition(stored, UserdataStatus::Pending, UserdataStatus::Running);
            let second = transition(first.0, UserdataStatus::Pending, UserdataStatus::Running);
            !(first.1 && second.1)
        }),
{
}

/// What waiting for a job is answered, if it was cancelled.
pub fn cancelled(name: &str) -> (e: CoreError)
    ensures
        e@ == ErrorView::UserdataCancelled(name@),
{
    CoreError::UserdataCancelled(name.to_owned())
}

} // verus!
