//! Reaching the guest agent: waking the VM, pinning it, and waiting for the agent to
//! answer.

use vstd::prelude::*;
use vstd::string::*;

#[allow(unused_imports)]
use crate::activity::{session_opened, sessions_of, touched};
use crate::error::{invalid_state, AgentErrorKind, CoreError};
#[allow(unused_imports)]
use crate::error::{unit_view, ErrorView};
use crate::records::{Lifecycle, VmRecord};
use crate::settings::HuskerCore;
use crate::text::decimal_string;
#[allow(unused_imports)]
use crate::text::{decimal, has_suffix, occurs_at, stands_at_the_end, stands_between};
use crate::time::Timestamp;
#[allow(unused_imports)]
use crate::time::whole_seconds;

verus! {

/// How long one attempt to reach the agent may take, in nanoseconds.
pub const AGENT_ATTEMPT_NANOS: u128 = 2_000_000_000;

/// How long the first pause between two attempts is, in nanoseconds.
pub const FIRST_BACKOFF_NANOS: u128 = 200_000_000;

/// How long a pause between two attempts is at most, in nanoseconds.
pub const MAX_BACKOFF_NANOS: u128 = 2_000_000_000;

/// How old the recorded time of the last touch may get before it is written again, in
/// seconds.
pub const TOUCH_DEBOUNCE_SECS: i64 = 30;

/// Whether a VM has to be resumed before its agent can be reached.
pub open spec fn wake_verdict(name: Seq<char>, vm: VmRecord) -> Result<bool, ErrorView> {
    if vm.stage() != Lifecycle::Suspended {
        Ok(false)
    } else if vm.auto_resume {
        Ok(true)
    } else {
        Err(ErrorView::InvalidState { name, actual: vm.state@, expected: "running"@ })
    }
}

/// What is wrong with a VM that ought to run, if anything.
pub open spec fn running_verdict(name: Seq<char>, vm: VmRecord) -> Result<(), ErrorView> {
    if vm.stage() == Lifecycle::Running {
        Ok(())
    } else {
        Err(ErrorView::InvalidState { name, actual: vm.state@, expected: "running"@ })
    }
}

/// A flag or an error, with the error's texts as sequences of characters.
pub open spec fn flag_verdict(r: Result<bool, CoreError>) -> Result<bool, ErrorView> {
    match r {
        Ok(b) => Ok(b),
        Err(e) => Err(e@),
    }
}

/// Only a suspended VM that wakes by itself is woken for its agent; one that does not is
/// left asleep, and that is told with its state. Any other VM is left as it is.
pub proof fn only_sleepers_that_wake_are_woken(name: Seq<char>, vm: VmRecord)
    ensures
        wake_verdict(name, vm) == Ok::<bool, ErrorView>(true) <==> vm.stage()
            == Lifecycle::Suspended && vm.auto_resume,
        wake_verdict(name, vm) is Err <==> vm.stage() == Lifecycle::Suspended && !vm.auto_resume,
        wake_verdict(name, vm) matches Err(e) ==> e is InvalidState && e->InvalidState_name == name
            && e->actual == vm.state@,
        running_verdict(name, vm) is Ok <==> vm.stage() == Lifecycle::Running,
        running_verdict(name, vm) matches Err(e) ==> e is InvalidState && e->InvalidState_name
            == name && e->actual == vm.state@ && e->expected == "running"@,
{
}

/// Whether a VM has to be resumed before its agent can be reached. A suspended VM that
/// does not wake by itself stays asleep.
pub fn wake_for_agent(name: &str, vm: &VmRecord) -> (r: Result<bool, CoreError>)
    ensures
        flag_verdict(r) == wake_verdict(name@, *vm),
{
    if vm.lifecycle() == Lifecycle::Suspended {
        if vm.auto_resume {
            Ok(true)
        } else {
            Err(invalid_state(name, vm.state.as_str(), "running"))
        }
    } else {
        Ok(false)
    }
}

/// Reject a VM that does not run.
pub fn require_running(name: &str, vm: &VmRecord) -> (r: Result<(), CoreError>)
    ensures
        unit_view(r) == running_verdict(name@, *vm),
{
    if vm.lifecycle() != Lifecycle::Running {
        return Err(invalid_state(name, vm.state.as_str(), "running"));
    }
    Ok(())
}

/// The recorded time of the last touch has got too old.
pub open spec fn touch_is_stale(now: int, last: int) -> bool {
    whole_seconds(now - last) >= TOUCH_DEBOUNCE_SECS
}

/// A touch is written again exactly where the last one that was lies half a minute back or
/// longer. Times are in nanoseconds.
pub proof fn touches_are_written_every_half_minute(now: int, last: int)
    ensures
        now - last >= 30_000_000_000 <==> touch_is_stale(now, last),
{
    let d: int = now - last;
    assert(d >= 0 ==> (d / 1_000_000_000 >= 30 <==> d >= 30_000_000_000));
}

impl HuskerCore {
    /// Pin a VM before its agent is dialed: the touch counts as use, and the session
    /// keeps the VM from being suspended under the connection. Returns whether the
    /// recorded time of the last touch has got too old, and has to be written again.
    pub fn pin_for_agent(&mut self, vm: &VmRecord, tick: u128, now: Timestamp) -> (r: bool)
        requires
            sessions_of(old(self).active_sessions@, vm.id) < u64::MAX,
        ensures
            r == touch_is_stale(now@, vm.last_activity_at@),
            final(self).active_sessions@ == session_opened(old(self).active_sessions@, vm.id),
            final(self).clocks@ == touched(old(self).clocks@, vm.id, tick),
            *final(self) == (HuskerCore {
                clocks: final(self).clocks,
                active_sessions: final(self).active_sessions,
                ..*old(self)
            }),
    {
        self.clocks.note_activity(vm.id, tick);
        self.active_sessions.begin_session(vm.id);
        now.seconds_since(&vm.last_activity_at) >= TOUCH_DEBOUNCE_SECS
    }
}

/// What one attempt to reach the agent gave.
#[derive(Debug)]
pub enum AttemptOutcome {
    /// The agent answered.
    Ponged,
    /// The attempt failed.
    Failed(CoreError),
    /// There was no answer in time.
    TimedOut,
}

/// The failure is one of the connection: the agent may not be up yet. Any other is
/// one of the VM's state, which waiting does not mend.
pub open spec fn is_transient(e: ErrorView) -> bool {
    e is Vmm || e is Agent
}

fn transient(e: &CoreError) -> (r: bool)
    ensures
        r == is_transient(e@),
{
    match e {
        CoreError::Vmm(_, _) => true,
        CoreError::Agent(_, _) => true,
        _ => false,
    }
}

/// What a readiness probe answers.
pub open spec fn probed(outcome: AttemptOutcome) -> Result<bool, CoreError> {
    match outcome {
        AttemptOutcome::Ponged => Ok(true),
        AttemptOutcome::TimedOut => Ok(false),
        AttemptOutcome::Failed(e) => if is_transient(e@) {
            Ok(false)
        } else {
            Err(e)
        },
    }
}

/// What follows an attempt that is over now, when the next pause would be this long and no
/// attempt begins after the deadline.
pub open spec fn step_after(outcome: AttemptOutcome, now: int, pause: u128, ends: int) -> ReadyStep {
    match outcome {
        AttemptOutcome::Ponged => ReadyStep::Ready,
        AttemptOutcome::Failed(e) if !is_transient(e@) => ReadyStep::Fail(e),
        _ => if now + pause >= ends {
            ReadyStep::GiveUp
        } else {
            ReadyStep::Pause(pause)
        },
    }
}

/// When no further attempt is begun.
pub open spec fn deadline_of(timeout: u128, now: u128) -> int {
    if timeout >= AGENT_ATTEMPT_NANOS {
        now + timeout - AGENT_ATTEMPT_NANOS
    } else {
        now as int
    }
}

/// An agent is up exactly where it answered. A failure that is not of the connection is
/// told as it is and ends the wait at once; one that is, and an answer that did not come,
/// are waited out. Nobody gives up on an agent that answered, nor while another attempt can
/// begin before the deadline, and no pause reaches it.
pub proof fn agents_are_up_when_they_answer(
    outcome: AttemptOutcome,
    now: int,
    pause: u128,
    ends: int,
)
    ensures
        probed(outcome) == Ok::<bool, CoreError>(true) <==> outcome is Ponged,
        step_after(outcome, now, pause, ends) is Ready <==> outcome is Ponged,
        probed(outcome) is Err <==> step_after(outcome, now, pause, ends) is Fail,
        outcome is TimedOut ==> probed(outcome) == Ok::<bool, CoreError>(false),
        outcome matches AttemptOutcome::Failed(e) ==> (e@ is Agent || e@ is Vmm ==> probed(outcome)
            == Ok::<bool, CoreError>(false)) && (!(e@ is Agent || e@ is Vmm) ==> probed(outcome)
            == Err::<bool, CoreError>(e) && step_after(outcome, now, pause, ends)
            == ReadyStep::Fail(e)),
        step_after(outcome, now, pause, ends) is GiveUp ==> now + pause >= ends,
        step_after(outcome, now, pause, ends) matches ReadyStep::Pause(p) ==> p == pause && now + p
            < ends,
        outcome is TimedOut && now + pause < ends ==> step_after(outcome, now, pause, ends)
            is Pause,
{
}

/// A wait begins its last attempt so early that the attempt fits into the timeout, and
/// where it could not, at once. One attempt takes two seconds at most, and pauses double
/// from a fifth of a second to two seconds. Times are in nanoseconds.
pub proof fn waits_leave_time_for_an_attempt(timeout: u128, now: u128, pause: u128)
    requires
        200_000_000 <= pause <= 2_000_000_000,
    ensures
        timeout >= 2_000_000_000 ==> deadline_of(timeout, now) + 2_000_000_000 == now + timeout,
        timeout < 2_000_000_000 ==> deadline_of(timeout, now) == now,
        nth_pause(0) == 200_000_000,
        pause <= 1_000_000_000 ==> longer_pause(pause) == 2 * pause,
        pause >= 1_000_000_000 ==> longer_pause(pause) == 2_000_000_000,
{
}

/// What a readiness probe answers: whether the agent is up, or that the VM is gone.
pub fn probe_result(outcome: AttemptOutcome) -> (r: Result<bool, CoreError>)
    ensures
        r == probed(outcome),
{
    match outcome {
        AttemptOutcome::Ponged => Ok(true),
        AttemptOutcome::TimedOut => Ok(false),
        AttemptOutcome::Failed(e) => {
            if transient(&e) {
                Ok(false)
            } else {
                Err(e)
            }
        },
    }
}

/// What follows an attempt to reach the agent.
#[derive(Debug)]
pub enum ReadyStep {
    /// The agent is up.
    Ready,
    /// Waiting is of no use.
    Fail(CoreError),
    /// Pause for this long, in nanoseconds, and try again.
    Pause(u128),
    /// The agent did not come up in time.
    GiveUp,
}

/// What an agent that did not come up in time is reported as.
pub open spec fn not_ready_failure(timeout_secs: u64, detail: Seq<char>) -> ErrorView {
    ErrorView::Agent(
        AgentErrorKind::NotReady,
        "agent not ready after "@ + decimal(timeout_secs as nat) + "s"@ + detail,
    )
}

/// An agent that did not come up is told with how long it was waited for and with all that
/// is known of the boot; the failure itself is one that waiting may mend.
pub proof fn late_agents_are_told_with_the_boot(timeout_secs: u64, detail: Seq<char>)
    ensures
        not_ready_failure(timeout_secs, detail) matches ErrorView::Agent(kind, text) && kind
            == AgentErrorKind::NotReady && has_suffix(text, detail) && occurs_at(
            text,
            decimal(timeout_secs as nat),
            "agent not ready after "@.len() as int,
        ),
        is_transient(not_ready_failure(timeout_secs, detail)),
{
    let d = decimal(timeout_secs as nat);
    let front = "agent not ready after "@;
    stands_between(front, d, "s"@ + detail);
    assert(front + d + "s"@ + detail =~= front + d + ("s"@ + detail));
    stands_at_the_end(front + d + "s"@, detail);
}

/// What an agent that did not come up in time is reported as, with what is known of the
/// boot.
pub fn not_ready(timeout_secs: u64, detail: &str) -> (e: CoreError)
    ensures
        e@ == not_ready_failure(timeout_secs, detail@),
{
    CoreError::Agent(
        AgentErrorKind::NotReady,
        "agent not ready after ".to_owned().concat(decimal_string(timeout_secs).as_str()).concat(
            "s",
        ).concat(detail),
    )
}

/// A wait for the agent. Times are in nanoseconds.
pub struct ReadyWait {
    backoff: u128,
    deadline: u128,
}

/// The next pause.
pub open spec fn longer_pause(backoff: u128) -> u128 {
    if backoff * 2 > MAX_BACKOFF_NANOS {
        MAX_BACKOFF_NANOS
    } else {
        (backoff * 2) as u128
    }
}

impl ReadyWait {
    #[verifier::type_invariant]
    spec fn well_formed(self) -> bool {
        FIRST_BACKOFF_NANOS <= self.backoff <= MAX_BACKOFF_NANOS
    }

    /// How long the next pause is.
    pub closed spec fn pause(self) -> u128 {
        self.backoff
    }

    /// When no further attempt is begun.
    pub closed spec fn ends(self) -> u128 {
        self.deadline
    }

    /// Begin to wait. The time that a last attempt may take is set aside, so that the
    /// whole wait takes about `timeout`.
    pub fn begin(timeout: u128, now: u128) -> (r: ReadyWait)
        requires
            now + timeout <= u128::MAX,
        ensures
            r.pause() == FIRST_BACKOFF_NANOS,
            r.ends() == deadline_of(timeout, now),
    {
        let rest: u128 = if timeout >= AGENT_ATTEMPT_NANOS {
            timeout - AGENT_ATTEMPT_NANOS
        } else {
            0
        };
        ReadyWait { backoff: FIRST_BACKOFF_NANOS, deadline: now + rest }
    }

    /// Decide what follows an attempt. Only failures of the connection are waited
    /// out, and only as long as another attempt can begin before the deadline.
    pub fn after_attempt(&mut self, outcome: AttemptOutcome, now: u128) -> (r: ReadyStep)
        requires
            now + MAX_BACKOFF_NANOS <= u128::MAX,
        ensures
            final(self).ends() == old(self).ends(),
            r == step_after(outcome, now as int, old(self).pause(), old(self).ends() as int),
            r is Pause ==> final(self).pause() == longer_pause(old(self).pause()),
            !(r is Pause) ==> final(self).pause() == old(self).pause(),
            FIRST_BACKOFF_NANOS <= old(self).pause() <= MAX_BACKOFF_NANOS,
    {
        proof {
            use_type_invariant(&*self);
        }
        match outcome {
            AttemptOutcome::Ponged => {
                return ReadyStep::Ready;
            },
            AttemptOutcome::Failed(e) => {
                if !transient(&e) {
                    return ReadyStep::Fail(e);
                }
            },
            AttemptOutcome::TimedOut => {},
        }
        if now + self.backoff >= self.deadline {
            return ReadyStep::GiveUp;
        }
        let pause: u128 = self.backoff;
        self.backoff = if pause * 2 > MAX_BACKOFF_NANOS {
            MAX_BACKOFF_NANOS
        } else {
            pause * 2
        };
        ReadyStep::Pause(pause)
    }
}

/// A wait keeps to its timeout: where an attempt follows a pause that took no longer
/// than asked for, and the attempt takes no longer than it may, the wait is over by
/// the timeout.
pub proof fn waits_keep_to_their_timeout(
    started: int,
    timeout: int,
    ends: int,
    now: int,
    pause: int,
)
    requires
        timeout >= AGENT_ATTEMPT_NANOS,
        ends == started + timeout - AGENT_ATTEMPT_NANOS,
        now + pause < ends,
    ensures
        now + pause + AGENT_ATTEMPT_NANOS < started + timeout,
{
}

/// The pauses of a wait, one after the other.
pub open spec fn nth_pause(n: nat) -> u128
    decreases n,
{
    if n == 0 {
        FIRST_BACKOFF_NANOS
    } else {
        longer_pause(nth_pause((n - 1) as nat))
    }
}

/// Pauses grow, but never beyond the longest.
pub proof fn pauses_grow_to_a_limit(n: nat)
    ensures
        FIRST_BACKOFF_NANOS <= nth_pause(n) <= nth_pause(n + 1) <= MAX_BACKOFF_NANOS,
        n >= 4 ==> nth_pause(n) == MAX_BACKOFF_NANOS,
    decreases n,
{
    if n > 0 {
        pauses_grow_to_a_limit((n - 1) as nat);
        if n == 4 {
            reveal_with_fuel(nth_pause, 6);
        }
    }
}

} // verus!
