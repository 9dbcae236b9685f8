//! Stopping, pausing, suspending and resuming: what a VM in a given state is
//! taken through, step by step, and what a failed step leads to.

use vstd::prelude::*;
use vstd::string::*;

use crate::activity::forget_baselines;
#[allow(unused_imports)]
use crate::activity::{baselines_forgotten, seeded};
use crate::error::{invalid_state, CoreError, VmmErrorKind};
#[allow(unused_imports)]
use crate::error::{unit_view, ErrorView};
use crate::ids::id_text;
#[allow(unused_imports)]
use crate::ids::hyphenated;
#[allow(unused_imports)]
use crate::records::lifecycle_names_are_distinct;
use crate::records::{Lifecycle, VmRecord};
use crate::settings::HuskerCore;
use crate::text::{contains, str_eq};
#[allow(unused_imports)]
use crate::text::{occurs, stands_between};

verus! {

/// What stopping a VM takes.
#[derive(Debug, Clone, Copy, PartialEq, Eq, Structural)]
pub enum StopAction {
    /// Stop the process, then record the VM as stopped.
    StopProcess,
    /// The process is gone already: discard the suspend slot, then record the VM
    /// as stopped.
    DiscardSlot,
    /// The VM is stopped already.
    Nothing,
}

/// What pausing a VM takes.
#[derive(Debug, Clone, Copy, PartialEq, Eq, Structural)]
pub enum PauseAction {
    /// Pause the process, then record the VM as paused.
    PauseProcess,
    /// The VM is paused already.
    Nothing,
}

/// What suspending a VM takes.
#[derive(Debug, Clone, Copy, PartialEq, Eq, Structural)]
pub enum SuspendAction {
    /// Capture the VM's state and end its process.
    Capture,
    /// The VM is suspended already.
    Nothing,
}

/// What resuming a VM takes.
#[derive(Debug, Clone, Copy, PartialEq, Eq, Structural)]
pub enum ResumeAction {
    /// Let the paused process run on.
    Unpause,
    /// Restore the captured state.
    Restore,
    /// The VM is running already.
    Nothing,
}

/// What stopping a VM in this stage takes.
pub open spec fn stop_action(stage: Lifecycle) -> Option<StopAction> {
    match stage {
        Lifecycle::Running => Some(StopAction::StopProcess),
        Lifecycle::Paused => Some(StopAction::StopProcess),
        Lifecycle::Stopped => Some(StopAction::Nothing),
        Lifecycle::Suspended => Some(StopAction::DiscardSlot),
        _ => None,
    }
}

/// What pausing a VM in this stage takes.
pub open spec fn pause_action(stage: Lifecycle) -> Option<PauseAction> {
    match stage {
        Lifecycle::Running => Some(PauseAction::PauseProcess),
        Lifecycle::Paused => Some(PauseAction::Nothing),
        _ => None,
    }
}

/// What suspending a VM in this stage takes.
pub open spec fn suspend_action(stage: Lifecycle) -> Option<SuspendAction> {
    match stage {
        Lifecycle::Running => Some(SuspendAction::Capture),
        Lifecycle::Paused => Some(SuspendAction::Capture),
        Lifecycle::Suspended => Some(SuspendAction::Nothing),
        _ => None,
    }
}

/// What resuming a VM in this stage takes.
pub open spec fn resume_action(stage: Lifecycle) -> Option<ResumeAction> {
    match stage {
        Lifecycle::Paused => Some(ResumeAction::Unpause),
        Lifecycle::Suspended => Some(ResumeAction::Restore),
        Lifecycle::Running => Some(ResumeAction::Nothing),
        _ => None,
    }
}

/// The error for a VM that is not in a state to be `expected`.
pub open spec fn wrong_state(record: VmRecord, name: Seq<char>, expected: Seq<char>) -> ErrorView {
    ErrorView::InvalidState { name, actual: record.state@, expected }
}

/// Decide what stopping a VM takes. Stopping a stopped VM is a no-op.
pub fn stop_vm(record: &VmRecord, name: &str) -> (r: Result<StopAction, CoreError>)
    ensures
        action_view(r) == stop_verdict(*record, name@),
{
    match record.lifecycle() {
        Lifecycle::Running => Ok(StopAction::StopProcess),
        Lifecycle::Paused => Ok(StopAction::StopProcess),
        Lifecycle::Stopped => Ok(StopAction::Nothing),
        Lifecycle::Suspended => Ok(StopAction::DiscardSlot),
        _ => Err(invalid_state(name, record.state.as_str(), "running or paused")),
    }
}

/// Decide what pausing a VM takes. Pausing a paused VM is a no-op.
pub fn pause_vm(record: &VmRecord, name: &str) -> (r: Result<PauseAction, CoreError>)
    ensures
        action_view(r) == pause_verdict(*record, name@),
{
    match record.lifecycle() {
        Lifecycle::Running => Ok(PauseAction::PauseProcess),
        Lifecycle::Paused => Ok(PauseAction::Nothing),
        _ => Err(invalid_state(name, record.state.as_str(), "running")),
    }
}

/// Decide what suspending a VM takes. Suspending a suspended VM is a no-op.
pub fn suspend_vm(record: &VmRecord, name: &str) -> (r: Result<SuspendAction, CoreError>)
    ensures
        action_view(r) == suspend_verdict(*record, name@),
{
    match record.lifecycle() {
        Lifecycle::Running => Ok(SuspendAction::Capture),
        Lifecycle::Paused => Ok(SuspendAction::Capture),
        Lifecycle::Suspended => Ok(SuspendAction::Nothing),
        _ => Err(invalid_state(name, record.state.as_str(), "running or paused")),
    }
}

/// Decide what resuming a VM takes. Resuming a running VM is a no-op.
pub fn resume_vm(record: &VmRecord, name: &str) -> (r: Result<ResumeAction, CoreError>)
    ensures
        action_view(r) == resume_verdict(*record, name@),
{
    match record.lifecycle() {
        Lifecycle::Paused => Ok(ResumeAction::Unpause),
        Lifecycle::Suspended => Ok(ResumeAction::Restore),
        Lifecycle::Running => Ok(ResumeAction::Nothing),
        _ => Err(invalid_state(name, record.state.as_str(), "paused or suspended")),
    }
}

/// A resume that took this action woke a suspended VM.
pub open spec fn woke(action: ResumeAction) -> bool {
    action == ResumeAction::Restore
}

/// What a VM's stage takes. A process is stopped, paused or captured only where there is
/// one; a suspended VM has none, so stopping it discards what was captured, and resuming it
/// restores that. Whoever is there already is left alone, and nothing else can be done to
/// a VM that is starting, suspending, stopped or failed.
pub proof fn stages_decide_what_is_done(stage: Lifecycle)
    ensures
        stop_action(stage) == Some(StopAction::StopProcess) <==> stage == Lifecycle::Running || stage
            == Lifecycle::Paused,
        stop_action(stage) == Some(StopAction::DiscardSlot) <==> stage == Lifecycle::Suspended,
        stop_action(stage) == Some(StopAction::Nothing) <==> stage == Lifecycle::Stopped,
        pause_action(stage) == Some(PauseAction::PauseProcess) <==> stage == Lifecycle::Running,
        pause_action(stage) == Some(PauseAction::Nothing) <==> stage == Lifecycle::Paused,
        suspend_action(stage) == Some(SuspendAction::Capture) <==> stage == Lifecycle::Running
            || stage == Lifecycle::Paused,
        suspend_action(stage) == Some(SuspendAction::Nothing) <==> stage == Lifecycle::Suspended,
        resume_action(stage) == Some(ResumeAction::Unpause) <==> stage == Lifecycle::Paused,
        resume_action(stage) == Some(ResumeAction::Restore) <==> stage == Lifecycle::Suspended,
        resume_action(stage) == Some(ResumeAction::Nothing) <==> stage == Lifecycle::Running,
        resume_action(stage) matches Some(a) ==> (woke(a) <==> stage == Lifecycle::Suspended),
{
}

/// An action or an error, with the error's texts as sequences of characters.
pub open spec fn action_view<A>(r: Result<A, CoreError>) -> Result<A, ErrorView> {
    match r {
        Ok(a) => Ok(a),
        Err(e) => Err(e@),
    }
}

/// What a stop does to a VM, or that the VM is not in a state for it.
pub open spec fn stop_verdict(record: VmRecord, name: Seq<char>) -> Result<StopAction, ErrorView> {
    match stop_action(record.stage()) {
        Some(a) => Ok(a),
        None => Err(wrong_state(record, name, "running or paused"@)),
    }
}

/// What a pause does to a VM, or that the VM is not in a state for it.
pub open spec fn pause_verdict(record: VmRecord, name: Seq<char>) -> Result<PauseAction, ErrorView> {
    match pause_action(record.stage()) {
        Some(a) => Ok(a),
        None => Err(wrong_state(record, name, "running"@)),
    }
}

/// What a suspend does to a VM, or that the VM is not in a state for it.
pub open spec fn suspend_verdict(record: VmRecord, name: Seq<char>) -> Result<SuspendAction, ErrorView> {
    match suspend_action(record.stage()) {
        Some(a) => Ok(a),
        None => Err(wrong_state(record, name, "running or paused"@)),
    }
}

/// What a resume does to a VM, or that the VM is not in a state for it.
pub open spec fn resume_verdict(record: VmRecord, name: Seq<char>) -> Result<ResumeAction, ErrorView> {
    match resume_action(record.stage()) {
        Some(a) => Ok(a),
        None => Err(wrong_state(record, name, "paused or suspended"@)),
    }
}

/// Each operation is refused exactly in the states that it has no action for, and tells the
/// states that it has one for.
pub proof fn refusals_tell_what_was_expected(record: VmRecord, name: Seq<char>)
    ensures
        stop_verdict(record, name) is Ok <==> stop_action(record.stage()) is Some,
        stop_verdict(record, name) matches Err(e) ==> e == (ErrorView::InvalidState {
            name,
            actual: record.state@,
            expected: "running or paused"@,
        }),
        pause_verdict(record, name) matches Err(e) ==> e == (ErrorView::InvalidState {
            name,
            actual: record.state@,
            expected: "running"@,
        }),
        suspend_verdict(record, name) matches Err(e) ==> e == (ErrorView::InvalidState {
            name,
            actual: record.state@,
            expected: "running or paused"@,
        }),
        resume_verdict(record, name) matches Err(e) ==> e == (ErrorView::InvalidState {
            name,
            actual: record.state@,
            expected: "paused or suspended"@,
        }),
        pause_verdict(record, name) is Ok <==> pause_action(record.stage()) is Some,
        suspend_verdict(record, name) is Ok <==> suspend_action(record.stage()) is Some,
        resume_verdict(record, name) is Ok <==> resume_action(record.stage()) is Some,
{
}

/// A VM in the wrong state is told apart by its own state and by the one that it should be
/// in.
pub proof fn wrong_states_are_told(record: VmRecord, name: Seq<char>, expected: Seq<char>)
    ensures
        wrong_state(record, name, expected) matches ErrorView::InvalidState {
            name: n,
            actual,
            expected: e,
        } && n == name && actual == record.state@ && e == expected,
{
}

/// Whether a resume that took this action woke a suspended VM. Neither a race with
/// another resume nor the end of a pause counts.
pub fn woke_from_suspend(action: ResumeAction) -> (r: bool)
    ensures
        r == woke(action),
{
    action == ResumeAction::Restore
}

/// The stage that a VM is in after a stop, pause, suspend or resume that did not
/// fail.
pub open spec fn after_stop(stage: Lifecycle) -> Lifecycle {
    if stop_action(stage) is Some { Lifecycle::Stopped } else { stage }
}

/// The stage that a VM is in after a pause that did not fail.
pub open spec fn after_pause(stage: Lifecycle) -> Lifecycle {
    if pause_action(stage) is Some { Lifecycle::Paused } else { stage }
}

/// The stage that a VM is in after a suspend that did not fail.
pub open spec fn after_suspend(stage: Lifecycle) -> Lifecycle {
    if suspend_action(stage) is Some { Lifecycle::Suspended } else { stage }
}

/// The stage that a VM is in after a resume that did not fail.
pub open spec fn after_resume(stage: Lifecycle) -> Lifecycle {
    if resume_action(stage) is Some { Lifecycle::Running } else { stage }
}

/// Stop, pause, suspend and resume are idempotent: done once, doing them again
/// takes nothing.
pub proof fn transitions_are_idempotent(stage: Lifecycle)
    ensures
        stop_action(stage) is Some ==> stop_action(after_stop(stage)) == Some(StopAction::Nothing),
        pause_action(stage) is Some ==> pause_action(after_pause(stage)) == Some(
            PauseAction::Nothing,
        ),
        suspend_action(stage) is Some ==> suspend_action(after_suspend(stage)) == Some(
            SuspendAction::Nothing,
        ),
        resume_action(stage) is Some ==> resume_action(after_resume(stage)) == Some(
            ResumeAction::Nothing,
        ),
{
}

/// What was paused or suspended can be resumed, and a resume brings it back to
/// running.
pub proof fn resume_undoes_pause_and_suspend(stage: Lifecycle)
    requires
        stage == Lifecycle::Running,
    ensures
        after_resume(after_pause(stage)) == stage,
        after_resume(after_suspend(stage)) == stage,
{
}

/// The backend can capture a VM's full state, and fork VMs from it.
pub open spec fn captures_state(vmm: Seq<char>) -> bool {
    vmm == "firecracker"@
}

/// Whether the backend can capture a VM's full state.
pub fn supports_snapshot(vmm: &str) -> (r: bool)
    ensures
        r == captures_state(vmm@),
{
    str_eq(vmm, "firecracker")
}

/// What is wrong with suspending a VM on this backend, if anything.
pub open spec fn snapshot_verdict(vmm: Seq<char>) -> Result<(), ErrorView> {
    if captures_state(vmm) {
        Ok(())
    } else {
        Err(
            ErrorView::Vmm(
                VmmErrorKind::Unsupported,
                "backend '"@ + vmm + "' does not support suspend (full-state snapshot)"@,
            ),
        )
    }
}

/// Firecracker captures full state, and no other backend does; a suspend elsewhere is
/// unsupported.
pub proof fn only_firecracker_captures_state(vmm: Seq<char>)
    ensures
        captures_state(vmm) <==> vmm == "firecracker"@,
        snapshot_verdict(vmm) is Ok <==> vmm == "firecracker"@,
        snapshot_verdict(vmm) matches Err(e) ==> e is Vmm && e->Vmm_0 == VmmErrorKind::Unsupported,
{
}

/// Reject a suspend before anything is paused where the backend cannot capture
/// full state.
pub fn require_snapshot_support(record: &VmRecord) -> (r: Result<(), CoreError>)
    ensures
        unit_view(r) == snapshot_verdict(record.vmm@),
{
    if supports_snapshot(record.vmm.as_str()) {
        Ok(())
    } else {
        Err(
            CoreError::Vmm(
                VmmErrorKind::Unsupported,
                "backend '".to_owned().concat(record.vmm.as_str()).concat(
                    "' does not support suspend (full-state snapshot)",
                ),
            ),
        )
    }
}

// ---------------------------------------------------------------------------
// Suspending, step by step
// ---------------------------------------------------------------------------

/// The steps of a suspend.
#[derive(Debug, Clone, Copy, PartialEq, Eq, Structural)]
pub enum SuspendStep {
    /// Record the VM as suspending, before anything is paused or captured.
    MarkSuspending,
    /// Pause the process (where the VM was running).
    Pause,
    /// Create the suspend slot.
    CreateSlot,
    /// Capture the state into the slot.
    Snapshot,
    /// Write the slot's manifest.
    WriteManifest,
    /// End the process.
    KillProcess,
    /// Record the VM as suspended.
    MarkSuspended,
    /// Record since when.
    StampSuspendedAt,
    /// Bind listeners that wake the VM on its forwarded ports.
    InstallListeners,
    /// Take the kernel's forwards down.
    RemoveForwards,
    /// The VM is suspended.
    Done,
    /// Undo: remove the slot.
    RemoveSlot,
    /// Undo: let the process run on (where this suspend paused it).
    Unpause,
    /// Undo: record the VM in the state that it was in.
    RestoreState,
    /// The suspend failed.
    Failed,
}

/// What decides which steps a suspend has.
#[derive(Debug, Clone, Copy, PartialEq, Eq, Structural)]
pub struct SuspendShape {
    /// The VM was running, so the suspend pauses it itself.
    pub was_running: bool,
    /// The VM wakes up by itself and has forwarded ports to wake up on.
    pub wakes_on_connect: bool,
}

/// The step that follows, by whether this one succeeded. Undoing goes on whatever
/// happens, and so does the network's transition: both are best effort.
pub open spec fn suspend_next(shape: SuspendShape, step: SuspendStep, ok: bool) -> SuspendStep {
    match step {
        SuspendStep::MarkSuspending => if !ok {
            SuspendStep::Failed
        } else if shape.was_running {
            SuspendStep::Pause
        } else {
            SuspendStep::CreateSlot
        },
        SuspendStep::Pause => if ok { SuspendStep::CreateSlot } else { SuspendStep::RemoveSlot },
        SuspendStep::CreateSlot => if ok { SuspendStep::Snapshot } else { SuspendStep::RemoveSlot },
        SuspendStep::Snapshot => if ok {
            SuspendStep::WriteManifest
        } else {
            SuspendStep::RemoveSlot
        },
        SuspendStep::WriteManifest => if ok {
            SuspendStep::KillProcess
        } else {
            SuspendStep::RemoveSlot
        },
        SuspendStep::KillProcess => if ok {
            SuspendStep::MarkSuspended
        } else {
            SuspendStep::Failed
        },
        SuspendStep::MarkSuspended => if ok {
            SuspendStep::StampSuspendedAt
        } else {
            SuspendStep::Failed
        },
        SuspendStep::StampSuspendedAt => if !ok {
            SuspendStep::Failed
        } else if shape.wakes_on_connect {
            SuspendStep::InstallListeners
        } else {
            SuspendStep::RemoveForwards
        },
        SuspendStep::InstallListeners => SuspendStep::RemoveForwards,
        SuspendStep::RemoveForwards => SuspendStep::Done,
        SuspendStep::Done => SuspendStep::Done,
        SuspendStep::RemoveSlot => if shape.was_running {
            SuspendStep::Unpause
        } else {
            SuspendStep::RestoreState
        },
        SuspendStep::Unpause => SuspendStep::RestoreState,
        SuspendStep::RestoreState => SuspendStep::Failed,
        SuspendStep::Failed => SuspendStep::Failed,
    }
}

/// The step that follows, by whether this one succeeded.
pub fn next_suspend_step(shape: &SuspendShape, step: SuspendStep, ok: bool) -> (r: SuspendStep)
    ensures
        r == suspend_next(*shape, step, ok),
{
    match step {
        SuspendStep::MarkSuspending => if !ok {
            SuspendStep::Failed
        } else if shape.was_running {
            SuspendStep::Pause
        } else {
            SuspendStep::CreateSlot
        },
        SuspendStep::Pause => if ok { SuspendStep::CreateSlot } else { SuspendStep::RemoveSlot },
        SuspendStep::CreateSlot => if ok { SuspendStep::Snapshot } else { SuspendStep::RemoveSlot },
        SuspendStep::Snapshot => if ok {
            SuspendStep::WriteManifest
        } else {
            SuspendStep::RemoveSlot
        },
        SuspendStep::WriteManifest => if ok {
            SuspendStep::KillProcess
        } else {
            SuspendStep::RemoveSlot
        },
        SuspendStep::KillProcess => if ok {
            SuspendStep::MarkSuspended
        } else {
            SuspendStep::Failed
        },
        SuspendStep::MarkSuspended => if ok {
            SuspendStep::StampSuspendedAt
        } else {
            SuspendStep::Failed
        },
        SuspendStep::StampSuspendedAt => if !ok {
            SuspendStep::Failed
        } else if shape.wakes_on_connect {
            SuspendStep::InstallListeners
        } else {
            SuspendStep::RemoveForwards
        },
        SuspendStep::InstallListeners => SuspendStep::RemoveForwards,
        SuspendStep::RemoveForwards => SuspendStep::Done,
        SuspendStep::Done => SuspendStep::Done,
        SuspendStep::RemoveSlot => if shape.was_running {
            SuspendStep::Unpause
        } else {
            SuspendStep::RestoreState
        },
        SuspendStep::Unpause => SuspendStep::RestoreState,
        SuspendStep::RestoreState => SuspendStep::Failed,
        SuspendStep::Failed => SuspendStep::Failed,
    }
}

/// The shape of the suspend of a VM in this stage, with that many forwarded ports.
pub open spec fn shape_of(stage: Lifecycle, auto_resume: bool, forwards: int) -> SuspendShape {
    SuspendShape {
        was_running: stage == Lifecycle::Running,
        wakes_on_connect: auto_resume && forwards > 0,
    }
}

/// A suspend pauses only what runs, and leaves listeners only where the VM wakes up by
/// itself and there is a port to connect to.
pub proof fn suspends_fit_their_vm(stage: Lifecycle, auto_resume: bool, forwards: int)
    requires
        forwards >= 0,
    ensures
        ({
            let shape = shape_of(stage, auto_resume, forwards);
            &&& suspend_next(shape, SuspendStep::MarkSuspending, true) == SuspendStep::Pause <==> stage
                == Lifecycle::Running
            &&& suspend_next(shape, SuspendStep::StampSuspendedAt, true)
                == SuspendStep::InstallListeners <==> auto_resume && forwards != 0
        }),
{
}

/// Once a VM is suspended and stamped, its suspend succeeds however the network's
/// transition goes; and once a capture failed, undoing goes to its end however its steps
/// go: the slot goes, a process that was paused for the suspend runs on, and the recorded
/// state comes back.
pub proof fn best_efforts_do_not_stop_a_suspend(shape: SuspendShape, a: bool, b: bool)
    ensures
        suspend_next(shape, SuspendStep::InstallListeners, a) == SuspendStep::RemoveForwards,
        suspend_next(shape, SuspendStep::RemoveForwards, a) == SuspendStep::Done,
        !shape.wakes_on_connect ==> suspend_next(shape, SuspendStep::StampSuspendedAt, true)
            == SuspendStep::RemoveForwards,
        shape.was_running ==> suspend_next(
            shape,
            suspend_next(shape, SuspendStep::RemoveSlot, a),
            b,
        ) == SuspendStep::RestoreState && suspend_next(shape, SuspendStep::RemoveSlot, a)
            == SuspendStep::Unpause,
        !shape.was_running ==> suspend_next(shape, SuspendStep::RemoveSlot, a)
            == SuspendStep::RestoreState,
        suspend_next(shape, SuspendStep::RestoreState, a) == SuspendStep::Failed,
        forall|s: SuspendStep| #[trigger]
            capturing(s) ==> suspend_next(shape, s, false) == SuspendStep::RemoveSlot,
        suspend_next(shape, SuspendStep::MarkSuspending, false) == SuspendStep::Failed,
        suspend_next(shape, SuspendStep::KillProcess, false) == SuspendStep::Failed,
        suspend_next(shape, SuspendStep::MarkSuspended, false) == SuspendStep::Failed,
        suspend_next(shape, SuspendStep::StampSuspendedAt, false) == SuspendStep::Failed,
{
}

/// The shape of the suspend of this VM, with that many forwarded ports.
pub fn suspend_shape(record: &VmRecord, forwards: usize) -> (r: SuspendShape)
    ensures
        r == shape_of(record.stage(), record.auto_resume, forwards as int),
{
    SuspendShape {
        was_running: record.lifecycle() == Lifecycle::Running,
        wakes_on_connect: record.auto_resume && forwards > 0,
    }
}

/// What a suspend changes in the world.
pub ghost struct SuspendWorld {
    /// The recorded stage.
    pub recorded: Lifecycle,
    /// The stage of the process: running, paused, or stopped for ended.
    pub process: Lifecycle,
    /// A complete slot lies on disk: state and manifest.
    pub slot_complete: bool,
    /// The recorded time of the suspend is set.
    pub stamped: bool,
    /// The kernel forwards the VM's ports.
    pub forwarded: bool,
    /// Listeners wait on the VM's ports.
    pub listening: bool,
}

/// The world before a suspend of a VM that was running or paused.
pub open spec fn before_suspend(shape: SuspendShape) -> SuspendWorld {
    let stage = if shape.was_running { Lifecycle::Running } else { Lifecycle::Paused };
    SuspendWorld {
        recorded: stage,
        process: stage,
        slot_complete: false,
        stamped: false,
        forwarded: true,
        listening: false,
    }
}

/// What a step that succeeds changes.
pub open spec fn suspend_effect(
    shape: SuspendShape,
    step: SuspendStep,
    w: SuspendWorld,
) -> SuspendWorld {
    match step {
        SuspendStep::MarkSuspending => SuspendWorld { recorded: Lifecycle::Suspending, ..w },
        SuspendStep::Pause => SuspendWorld { process: Lifecycle::Paused, ..w },
        SuspendStep::WriteManifest => SuspendWorld { slot_complete: true, ..w },
        SuspendStep::KillProcess => SuspendWorld { process: Lifecycle::Stopped, ..w },
        SuspendStep::MarkSuspended => SuspendWorld { recorded: Lifecycle::Suspended, ..w },
        SuspendStep::StampSuspendedAt => SuspendWorld { stamped: true, ..w },
        SuspendStep::InstallListeners => SuspendWorld { listening: true, ..w },
        SuspendStep::RemoveForwards => SuspendWorld { forwarded: false, ..w },
        SuspendStep::RemoveSlot => SuspendWorld { slot_complete: false, ..w },
        SuspendStep::Unpause => SuspendWorld { process: Lifecycle::Running, ..w },
        SuspendStep::RestoreState => SuspendWorld {
            recorded: before_suspend(shape).recorded,
            ..w
        },
        _ => w,
    }
}

/// The step that is due and the world after these outcomes, from this step on. A
/// step that fails changes nothing.
pub open spec fn suspend_run(
    shape: SuspendShape,
    step: SuspendStep,
    w: SuspendWorld,
    outcomes: Seq<bool>,
) -> (SuspendStep, SuspendWorld)
    decreases outcomes.len(),
{
    if outcomes.len() == 0 {
        (step, w)
    } else {
        let ok = outcomes[0];
        suspend_run(
            shape,
            suspend_next(shape, step, ok),
            if ok { suspend_effect(shape, step, w) } else { w },
            outcomes.skip(1),
        )
    }
}

/// The step is one that captures the VM's state.
pub open spec fn capturing(step: SuspendStep) -> bool {
    step == SuspendStep::Pause || step == SuspendStep::CreateSlot || step == SuspendStep::Snapshot
        || step == SuspendStep::WriteManifest
}

/// The world is one in which `step` can be due.
pub open spec fn suspend_invariant(
    shape: SuspendShape,
    step: SuspendStep,
    w: SuspendWorld,
) -> bool {
    let start = before_suspend(shape);
    match step {
        SuspendStep::MarkSuspending => w == start,
        SuspendStep::Pause => shape.was_running && w == (SuspendWorld {
            recorded: Lifecycle::Suspending,
            ..start
        }),
        SuspendStep::CreateSlot | SuspendStep::Snapshot | SuspendStep::WriteManifest => w == (
        SuspendWorld { recorded: Lifecycle::Suspending, process: Lifecycle::Paused, ..start }),
        SuspendStep::KillProcess => w == (SuspendWorld {
            recorded: Lifecycle::Suspending,
            process: Lifecycle::Paused,
            slot_complete: true,
            ..start
        }),
        SuspendStep::MarkSuspended => w == (SuspendWorld {
            recorded: Lifecycle::Suspending,
            process: Lifecycle::Stopped,
            slot_complete: true,
            ..start
        }),
        SuspendStep::StampSuspendedAt => w == (SuspendWorld {
            recorded: Lifecycle::Suspended,
            process: Lifecycle::Stopped,
            slot_complete: true,
            ..start
        }),
        SuspendStep::InstallListeners | SuspendStep::RemoveForwards | SuspendStep::Done => {
            &&& w.recorded == Lifecycle::Suspended
            &&& w.process == Lifecycle::Stopped
            &&& w.slot_complete
            &&& w.stamped
        },
        SuspendStep::RemoveSlot | SuspendStep::Unpause | SuspendStep::RestoreState => {
            &&& w.recorded == Lifecycle::Suspending
            &&& w.process == Lifecycle::Running || w.process == Lifecycle::Paused
            &&& !w.slot_complete
        },
        SuspendStep::Failed => true,
    }
}

/// At every step the world is one that the step can meet. In particular the VM is
/// recorded as suspending from before its process is paused until its complete
/// slot is on disk and the process is gone, so that an interruption in between is
/// recognised at the next start.
pub proof fn suspend_keeps_its_invariant(
    shape: SuspendShape,
    step: SuspendStep,
    w: SuspendWorld,
    ok: bool,
)
    requires
        suspend_invariant(shape, step, w),
    ensures
        suspend_invariant(
            shape,
            suspend_next(shape, step, ok),
            if ok { suspend_effect(shape, step, w) } else { w },
        ),
{
}

/// A suspend whose steps all succeed ends with the VM recorded as suspended and
/// stamped, its process ended, a complete slot on disk, no forwards left in the
/// kernel, and listeners on its ports exactly where it wakes up by itself.
pub proof fn undisturbed_suspends_succeed(shape: SuspendShape, outcomes: Seq<bool>)
    requires
        outcomes.len() == 10,
        forall|i: int| 0 <= i < outcomes.len() ==> #[trigger] outcomes[i],
    ensures
        suspend_run(
            shape,
            SuspendStep::MarkSuspending,
            before_suspend(shape),
            outcomes,
        ) == (
            SuspendStep::Done,
            SuspendWorld {
                recorded: Lifecycle::Suspended,
                process: Lifecycle::Stopped,
                slot_complete: true,
                stamped: true,
                forwarded: false,
                listening: shape.wakes_on_connect,
            },
        ),
{
    reveal_with_fuel(suspend_run, 11);
    let o1 = outcomes.skip(1);
    let o2 = o1.skip(1);
    let o3 = o2.skip(1);
    let o4 = o3.skip(1);
    let o5 = o4.skip(1);
    let o6 = o5.skip(1);
    let o7 = o6.skip(1);
    let o8 = o7.skip(1);
    let o9 = o8.skip(1);
    let o10 = o9.skip(1);
    assert(outcomes[0] && outcomes[1] && outcomes[2] && outcomes[3] && outcomes[4] && outcomes[5]
        && outcomes[6] && outcomes[7] && outcomes[8] && outcomes[9]);
    assert(o1[0] && o2[0] && o3[0] && o4[0] && o5[0] && o6[0] && o7[0] && o8[0] && o9[0]);
    assert(o10.len() == 0);
}

/// A suspend whose capture fails changes nothing, provided that undoing succeeds:
/// the VM is recorded in the state that it was in, its process runs or is paused
/// as it was, and no slot is left.
pub proof fn failed_captures_change_nothing(
    shape: SuspendShape,
    step: SuspendStep,
    w: SuspendWorld,
)
    requires
        capturing(step),
        suspend_invariant(shape, step, w),
    ensures
        suspend_run(shape, step, w, seq![false, true, true, true]) == (
            SuspendStep::Failed,
            before_suspend(shape),
        ),
{
    reveal_with_fuel(suspend_run, 5);
    let o = seq![false, true, true, true];
    let o1 = o.skip(1);
    let o2 = o1.skip(1);
    let o3 = o2.skip(1);
    let o4 = o3.skip(1);
    assert(!o[0] && o1[0] && o2[0] && o3[0] && o4.len() == 0);
}

/// The VM's ports are never deaf: listeners are bound before the kernel's forwards
/// are taken down.
pub proof fn ports_are_never_deaf(shape: SuspendShape)
    requires
        shape.wakes_on_connect,
    ensures
        suspend_next(shape, SuspendStep::StampSuspendedAt, true) == SuspendStep::InstallListeners,
        forall|s: SuspendStep, ok: bool| #[trigger]
            suspend_next(shape, s, ok) == SuspendStep::RemoveForwards ==> s
                == SuspendStep::InstallListeners,
{
}

/// What an interrupted suspend is recovered to: a complete slot can be resumed,
/// without one the memory is lost and the VM counts as stopped.
pub open spec fn recovered_stage(slot_complete: bool) -> Lifecycle {
    if slot_complete { Lifecycle::Suspended } else { Lifecycle::Stopped }
}

/// What becomes of a VM in this stage at startup, by which files of its slot exist.
pub open spec fn recovery(
    stage: Lifecycle,
    manifest: bool,
    memory: bool,
    vmstate: bool,
) -> Option<Lifecycle> {
    if stage == Lifecycle::Suspending {
        Some(recovered_stage(manifest && memory && vmstate))
    } else {
        None
    }
}

/// Only an interrupted suspend is settled at startup. It counts as suspended where nothing
/// of its slot is missing, so that it can be resumed, and as stopped where anything is.
pub proof fn only_complete_slots_are_resumed(
    stage: Lifecycle,
    manifest: bool,
    memory: bool,
    vmstate: bool,
)
    ensures
        stage != Lifecycle::Suspending ==> recovery(stage, manifest, memory, vmstate) is None,
        stage == Lifecycle::Suspending && (!manifest || !memory || !vmstate) ==> recovery(
            stage,
            manifest,
            memory,
            vmstate,
        ) == Some(Lifecycle::Stopped),
        stage == Lifecycle::Suspending && manifest && memory && vmstate ==> recovery(
            stage,
            manifest,
            memory,
            vmstate,
        ) == Some(Lifecycle::Suspended),
{
}

/// Decide what becomes of a VM at startup that was interrupted mid-suspend, by
/// which files of its slot exist; other VMs are left alone.
pub fn reconcile_suspended(
    record: &VmRecord,
    manifest: bool,
    memory: bool,
    vmstate: bool,
) -> (r: Option<Lifecycle>)
    ensures
        r == recovery(record.stage(), manifest, memory, vmstate),
{
    if record.lifecycle() != Lifecycle::Suspending {
        return None;
    }
    Some(
        if manifest && memory && vmstate {
            Lifecycle::Suspended
        } else {
            Lifecycle::Stopped
        },
    )
}

/// Wherever a suspend is interrupted between its first and its last write of the
/// recorded state, the recovery tells the truth: the VM counts as suspended only
/// where a complete slot can be resumed, and as stopped only where none can.
pub proof fn interrupted_suspends_recover(shape: SuspendShape, step: SuspendStep, w: SuspendWorld)
    requires
        suspend_invariant(shape, step, w),
        capturing(step) || step == SuspendStep::KillProcess || step == SuspendStep::MarkSuspended,
    ensures
        w.recorded == Lifecycle::Suspending,
        recovered_stage(w.slot_complete) == Lifecycle::Suspended <==> step
            == SuspendStep::KillProcess || step == SuspendStep::MarkSuspended,
{
}

// ---------------------------------------------------------------------------
// Resuming, step by step
// ---------------------------------------------------------------------------

/// The steps of a resume.
#[derive(Debug, Clone, Copy, PartialEq, Eq, Structural)]
pub enum ResumeStep {
    /// Let the paused process run on.
    Unpause,
    /// Read the slot's manifest and see that its backend fits.
    CheckManifest,
    /// Restore the captured state into a process.
    RestoreProcess,
    /// Record the VM as running.
    MarkRunning,
    /// Remove the slot.
    RemoveSlot,
    /// Put the kernel's forwards back up.
    RestoreForwards,
    /// Serve what is queued on the listeners and close them.
    DrainListeners,
    /// Forget the traffic baselines and start the idle clocks anew.
    ResetActivity,
    /// Record the activity.
    TouchActivity,
    /// Clear the recorded time of the suspend.
    ClearSuspendedAt,
    /// The VM runs.
    Done,
    /// The resume failed.
    Failed,
}

/// The first step of a resume that takes this action.
pub open spec fn resume_first(action: ResumeAction) -> ResumeStep {
    match action {
        ResumeAction::Unpause => ResumeStep::Unpause,
        ResumeAction::Restore => ResumeStep::CheckManifest,
        ResumeAction::Nothing => ResumeStep::Done,
    }
}

/// The step that follows, by whether this one succeeded. A resume from a pause
/// touches neither the network nor the idle clocks.
pub open spec fn resume_next(action: ResumeAction, step: ResumeStep, ok: bool) -> ResumeStep {
    match step {
        ResumeStep::Unpause => if ok { ResumeStep::MarkRunning } else { ResumeStep::Failed },
        ResumeStep::CheckManifest => if ok {
            ResumeStep::RestoreProcess
        } else {
            ResumeStep::Failed
        },
        ResumeStep::RestoreProcess => if ok {
            ResumeStep::MarkRunning
        } else {
            ResumeStep::Failed
        },
        ResumeStep::MarkRunning => if !ok {
            ResumeStep::Failed
        } else if action == ResumeAction::Restore {
            ResumeStep::RemoveSlot
        } else {
            ResumeStep::Done
        },
        ResumeStep::RemoveSlot => ResumeStep::RestoreForwards,
        ResumeStep::RestoreForwards => ResumeStep::DrainListeners,
        ResumeStep::DrainListeners => ResumeStep::ResetActivity,
        ResumeStep::ResetActivity => ResumeStep::TouchActivity,
        ResumeStep::TouchActivity => ResumeStep::ClearSuspendedAt,
        ResumeStep::ClearSuspendedAt => if ok { ResumeStep::Done } else { ResumeStep::Failed },
        ResumeStep::Done => ResumeStep::Done,
        ResumeStep::Failed => ResumeStep::Failed,
    }
}

/// The first step of a resume that takes this action.
pub fn first_resume_step(action: ResumeAction) -> (r: ResumeStep)
    ensures
        r == resume_first(action),
{
    match action {
        ResumeAction::Unpause => ResumeStep::Unpause,
        ResumeAction::Restore => ResumeStep::CheckManifest,
        ResumeAction::Nothing => ResumeStep::Done,
    }
}

/// The step that follows, by whether this one succeeded.
pub fn next_resume_step(action: ResumeAction, step: ResumeStep, ok: bool) -> (r: ResumeStep)
    ensures
        r == resume_next(action, step, ok),
{
    match step {
        ResumeStep::Unpause => if ok { ResumeStep::MarkRunning } else { ResumeStep::Failed },
        ResumeStep::CheckManifest => if ok {
            ResumeStep::RestoreProcess
        } else {
            ResumeStep::Failed
        },
        ResumeStep::RestoreProcess => if ok {
            ResumeStep::MarkRunning
        } else {
            ResumeStep::Failed
        },
        ResumeStep::MarkRunning => if !ok {
            ResumeStep::Failed
        } else if action == ResumeAction::Restore {
            ResumeStep::RemoveSlot
        } else {
            ResumeStep::Done
        },
        ResumeStep::RemoveSlot => ResumeStep::RestoreForwards,
        ResumeStep::RestoreForwards => ResumeStep::DrainListeners,
        ResumeStep::DrainListeners => ResumeStep::ResetActivity,
        ResumeStep::ResetActivity => ResumeStep::TouchActivity,
        ResumeStep::TouchActivity => ResumeStep::ClearSuspendedAt,
        ResumeStep::ClearSuspendedAt => if ok { ResumeStep::Done } else { ResumeStep::Failed },
        ResumeStep::Done => ResumeStep::Done,
        ResumeStep::Failed => ResumeStep::Failed,
    }
}

/// The steps after `step` where the k-th outcome is `outcomes[k]`.
pub open spec fn resume_run(
    action: ResumeAction,
    step: ResumeStep,
    outcomes: Seq<bool>,
) -> ResumeStep
    decreases outcomes.len(),
{
    if outcomes.len() == 0 {
        step
    } else {
        resume_run(action, resume_next(action, step, outcomes[0]), outcomes.skip(1))
    }
}

/// A step that belongs to waking up from a suspend, not to the end of a pause.
pub open spec fn wakes_up(step: ResumeStep) -> bool {
    match step {
        ResumeStep::CheckManifest => true,
        ResumeStep::RestoreProcess => true,
        ResumeStep::RemoveSlot => true,
        ResumeStep::RestoreForwards => true,
        ResumeStep::DrainListeners => true,
        ResumeStep::ResetActivity => true,
        ResumeStep::TouchActivity => true,
        ResumeStep::ClearSuspendedAt => true,
        _ => false,
    }
}

/// However a resume from a pause goes, it never touches the network, the idle
/// clocks or the recorded time of a suspend.
pub proof fn unpausing_touches_no_suspend_state(outcomes: Seq<bool>)
    ensures
        !wakes_up(resume_run(ResumeAction::Unpause, ResumeStep::Unpause, outcomes)),
{
    unpause_stays_plain(ResumeStep::Unpause, outcomes);
}

proof fn unpause_stays_plain(step: ResumeStep, outcomes: Seq<bool>)
    requires
        !wakes_up(step),
    ensures
        !wakes_up(resume_run(ResumeAction::Unpause, step, outcomes)),
    decreases outcomes.len(),
{
    if outcomes.len() > 0 {
        unpause_stays_plain(
            resume_next(ResumeAction::Unpause, step, outcomes[0]),
            outcomes.skip(1),
        );
    }
}

/// The kernel's forwards are back up before the listeners are drained, so a
/// connection always finds one of the two.
pub proof fn forwards_return_before_listeners_go(action: ResumeAction)
    ensures
        forall|s: ResumeStep, ok: bool| #[trigger]
            resume_next(action, s, ok) == ResumeStep::DrainListeners && s
                != ResumeStep::DrainListeners ==> s == ResumeStep::RestoreForwards,
{
}

/// What a resume changes in the world, beside what a suspend had changed.
pub ghost struct ResumeWorld {
    pub vm: SuspendWorld,
    /// Both idle clocks were started anew.
    pub clocks_fresh: bool,
    /// The activity is on record.
    pub touched: bool,
}

/// The world before a restore: what a suspend left, with listeners on the VM's ports
/// where it wakes up by itself.
pub open spec fn before_restore(listening: bool) -> ResumeWorld {
    ResumeWorld {
        vm: SuspendWorld {
            recorded: Lifecycle::Suspended,
            process: Lifecycle::Stopped,
            slot_complete: true,
            stamped: true,
            forwarded: false,
            listening,
        },
        clocks_fresh: false,
        touched: false,
    }
}

/// What a step of a resume that succeeds changes.
pub open spec fn resume_effect(step: ResumeStep, w: ResumeWorld) -> ResumeWorld {
    let vm = w.vm;
    match step {
        ResumeStep::Unpause | ResumeStep::RestoreProcess => ResumeWorld {
            vm: SuspendWorld { process: Lifecycle::Running, ..vm },
            ..w
        },
        ResumeStep::MarkRunning => ResumeWorld {
            vm: SuspendWorld { recorded: Lifecycle::Running, ..vm },
            ..w
        },
        ResumeStep::RemoveSlot => ResumeWorld {
            vm: SuspendWorld { slot_complete: false, ..vm },
            ..w
        },
        ResumeStep::RestoreForwards => ResumeWorld {
            vm: SuspendWorld { forwarded: true, ..vm },
            ..w
        },
        ResumeStep::DrainListeners => ResumeWorld {
            vm: SuspendWorld { listening: false, ..vm },
            ..w
        },
        ResumeStep::ResetActivity => ResumeWorld { clocks_fresh: true, ..w },
        ResumeStep::TouchActivity => ResumeWorld { touched: true, ..w },
        ResumeStep::ClearSuspendedAt => ResumeWorld {
            vm: SuspendWorld { stamped: false, ..vm },
            ..w
        },
        ResumeStep::CheckManifest | ResumeStep::Done | ResumeStep::Failed => w,
    }
}

/// The step and the world that a resume comes to from `step` where the k-th outcome is
/// `outcomes[k]`.
pub open spec fn resume_course(
    action: ResumeAction,
    step: ResumeStep,
    w: ResumeWorld,
    outcomes: Seq<bool>,
) -> (ResumeStep, ResumeWorld)
    decreases outcomes.len(),
{
    if outcomes.len() == 0 {
        (step, w)
    } else {
        resume_course(
            action,
            resume_next(action, step, outcomes[0]),
            if outcomes[0] { resume_effect(step, w) } else { w },
            outcomes.skip(1),
        )
    }
}

/// A restore whose steps all succeed ends with the VM recorded as running and its
/// process running, the slot and the recorded time of the suspend gone, the forwards
/// back in the kernel, the listeners closed, and both idle clocks started anew. It
/// undoes the suspend: but for the clocks, the world is as it was before.
pub proof fn undisturbed_restores_succeed(listening: bool, outcomes: Seq<bool>)
    requires
        outcomes.len() == 9,
        forall|i: int| 0 <= i < outcomes.len() ==> #[trigger] outcomes[i],
    ensures
        resume_course(
            ResumeAction::Restore,
            resume_first(ResumeAction::Restore),
            before_restore(listening),
            outcomes,
        ) == (
            ResumeStep::Done,
            ResumeWorld {
                vm: SuspendWorld {
                    recorded: Lifecycle::Running,
                    process: Lifecycle::Running,
                    slot_complete: false,
                    stamped: false,
                    forwarded: true,
                    listening: false,
                },
                clocks_fresh: true,
                touched: true,
            },
        ),
        resume_course(
            ResumeAction::Restore,
            resume_first(ResumeAction::Restore),
            before_restore(listening),
            outcomes,
        ).1.vm == before_suspend(SuspendShape { was_running: true, wakes_on_connect: listening }),
{
    reveal_with_fuel(resume_course, 10);
    let o1 = outcomes.skip(1);
    let o2 = o1.skip(1);
    let o3 = o2.skip(1);
    let o4 = o3.skip(1);
    let o5 = o4.skip(1);
    let o6 = o5.skip(1);
    let o7 = o6.skip(1);
    let o8 = o7.skip(1);
    let o9 = o8.skip(1);
    assert(outcomes[0] && outcomes[1] && outcomes[2] && outcomes[3] && outcomes[4] && outcomes[5]
        && outcomes[6] && outcomes[7] && outcomes[8]);
    assert(o1[0] && o2[0] && o3[0] && o4[0] && o5[0] && o6[0] && o7[0] && o8[0]);
    assert(o9.len() == 0);
}

/// A restore whose process does not come up, for want of a manifest that fits or of a
/// backend that takes the snapshot, leaves the VM suspended: it can be tried again.
pub proof fn failed_restores_change_nothing(w: ResumeWorld)
    ensures
        resume_course(ResumeAction::Restore, ResumeStep::CheckManifest, w, seq![false]) == (
            ResumeStep::Failed,
            w,
        ),
        resume_course(ResumeAction::Restore, ResumeStep::CheckManifest, w, seq![true, false]) == (
            ResumeStep::Failed,
            w,
        ),
{
    reveal_with_fuel(resume_course, 3);
    assert(seq![false].skip(1).len() == 0);
    let o = seq![true, false].skip(1);
    assert(o[0] == false && o.skip(1).len() == 0);
}

impl HuskerCore {
    /// Start both idle clocks of a VM that woke up anew, and forget what its forwards
    /// carried before: their counters start from zero again.
    pub fn reset_activity(&mut self, vm: &VmRecord, ports: &Vec<u16>, tick: u128)
        ensures
            final(self).clocks@ == seeded(old(self).clocks@, vm.id, tick),
            match vm.tap_device {
                Some(tap) => baselines_forgotten(
                    old(self).network_counters@,
                    final(self).network_counters@,
                    tap@,
                    ports@,
                ),
                None => final(self).network_counters == old(self).network_counters,
            },
            *final(self) == (HuskerCore {
                clocks: final(self).clocks,
                network_counters: final(self).network_counters,
                ..*old(self)
            }),
    {
        if let Some(tap) = &vm.tap_device {
            forget_baselines(&mut self.network_counters, tap.as_str(), ports);
        }
        self.clocks.seed_activity(vm.id, tick);
    }
}

/// A resume fails where its process does not come up, where the VM cannot be recorded as
/// running, or where the time of its suspend cannot be cleared, and nowhere else: the slot,
/// the network and the clocks are best effort. An unpause is done once the VM is recorded.
/// A running VM needs no step at all.
pub proof fn resumes_fail_for_cause(action: ResumeAction, step: ResumeStep)
    ensures
        step != ResumeStep::Failed ==> resume_next(action, step, true) != ResumeStep::Failed,
        step != ResumeStep::Failed ==> (resume_next(action, step, false) == ResumeStep::Failed <==> {
            ||| step == ResumeStep::Unpause
            ||| step == ResumeStep::CheckManifest
            ||| step == ResumeStep::RestoreProcess
            ||| step == ResumeStep::MarkRunning
            ||| step == ResumeStep::ClearSuspendedAt
        }),
        resume_next(ResumeAction::Unpause, ResumeStep::MarkRunning, true) == ResumeStep::Done,
        resume_first(ResumeAction::Unpause) == ResumeStep::Unpause,
        resume_next(ResumeAction::Unpause, ResumeStep::Unpause, true) == ResumeStep::MarkRunning,
        resume_first(ResumeAction::Restore) == ResumeStep::CheckManifest,
        resume_first(ResumeAction::Nothing) == ResumeStep::Done,
        resume_next(action, step, true) == ResumeStep::RestoreProcess ==> step
            == ResumeStep::CheckManifest,
{
}

// ---------------------------------------------------------------------------
// Liveness
// ---------------------------------------------------------------------------

/// A record after the backend was asked whether the process lives: a VM that is
/// recorded as live but whose process is gone has stopped. Its network identity
/// stays with it.
pub open spec fn refreshed(vm: VmRecord, alive: bool, r: VmRecord) -> bool {
    if (vm.stage() == Lifecycle::Running || vm.stage() == Lifecycle::Paused) && !alive {
        &&& r.state@ == "stopped"@
        &&& r.pid is None
        &&& r == (VmRecord { state: r.state, pid: None, ..vm })
    } else {
        r == vm
    }
}

/// The VM is recorded as one with a live process.
pub open spec fn is_live(stage: Lifecycle) -> bool {
    stage == Lifecycle::Running || stage == Lifecycle::Paused
}

/// A VM in this stage has died behind the daemon's back.
pub open spec fn has_died(stage: Lifecycle, alive: bool) -> bool {
    is_live(stage) && !alive
}

/// The process that a previous daemon may have left behind.
pub open spec fn orphan_of(record: VmRecord) -> Option<u32> {
    if is_live(record.stage()) { record.pid } else { None }
}

/// A VM whose process is gone counts as stopped, and keeps all but its state and its
/// process; one whose process lives, or that should have none, stays as it is recorded.
pub proof fn dead_vms_count_as_stopped(vm: VmRecord, alive: bool, r: VmRecord)
    requires
        refreshed(vm, alive, r),
    ensures
        (vm.stage() == Lifecycle::Running || vm.stage() == Lifecycle::Paused) && !alive ==> r.stage()
            == Lifecycle::Stopped && r.pid is None && has_died(vm.stage(), alive),
        alive || (vm.stage() != Lifecycle::Running && vm.stage() != Lifecycle::Paused) ==> r == vm
            && !has_died(vm.stage(), alive),
        r.id == vm.id && r.name == vm.name && r.vsock_cid == vm.vsock_cid && r.tap_device
            == vm.tap_device && r.guest_ip == vm.guest_ip && r.host_ip == vm.host_ip,
        r.service_id == vm.service_id && r.service_ordinal == vm.service_ordinal && r.volume
            == vm.volume && r.userdata == vm.userdata && r.userdata_status == vm.userdata_status,
{
    lifecycle_names_are_distinct(Lifecycle::Stopped);
}

/// A VM has a process to drain, or to look for after a crash, exactly where it runs or is
/// paused; one that is suspended, stopped, failed or on its way has none.
pub proof fn only_live_vms_have_a_process(record: VmRecord)
    ensures
        is_live(record.stage()) <==> record.stage() == Lifecycle::Running || record.stage()
            == Lifecycle::Paused,
        record.stage() == Lifecycle::Running || record.stage() == Lifecycle::Paused ==> orphan_of(
            record,
        ) == record.pid,
        record.stage() != Lifecycle::Running && record.stage() != Lifecycle::Paused ==> orphan_of(
            record,
        ) is None,
        is_live(record.stage()) <==> stop_action(record.stage()) == Some(StopAction::StopProcess),
{
}

/// Refresh a record against the backend's live view. Returns the record as it
/// stands now, and whether it has to be recorded as stopped.
pub fn refresh_vm_liveness(vm: &VmRecord, alive: bool) -> (r: (VmRecord, bool))
    ensures
        refreshed(*vm, alive, r.0),
        r.1 == has_died(vm.stage(), alive),
{
    let stage = vm.lifecycle();
    if (stage != Lifecycle::Running && stage != Lifecycle::Paused) || alive {
        return (vm.clone(), false);
    }
    let mut updated = vm.clone();
    updated.state = "stopped".to_owned();
    updated.pid = None;
    (updated, true)
}

/// Whether a VM is taken down when the daemon shuts down: it has a live process.
pub fn drains(record: &VmRecord) -> (r: bool)
    ensures
        r == is_live(record.stage()),
{
    let stage = record.lifecycle();
    stage == Lifecycle::Running || stage == Lifecycle::Paused
}

/// The process to look for at startup that a previous daemon may have left behind:
/// that of a VM which is still recorded as live.
pub fn orphan_candidate(record: &VmRecord) -> (r: Option<u32>)
    ensures
        r == orphan_of(*record),
{
    if drains(record) {
        record.pid
    } else {
        None
    }
}

/// The command line is that of a process that was started for the VM.
pub open spec fn started_for(cmdline: Seq<char>, id: u128) -> bool {
    occurs(cmdline, hyphenated(id))
}

/// A VM's process is known by the VM's id, wherever that stands in its command line; a
/// command line without the id is another's.
pub proof fn processes_are_known_by_their_vms_id(before: Seq<char>, after: Seq<char>, id: u128)
    ensures
        started_for(before + hyphenated(id) + after, id),
        before.len() < hyphenated(id).len() ==> !started_for(before, id),
{
    stands_between(before, hyphenated(id), after);
}

/// Whether a process is the VMM of a VM, by its command line: the backends have the
/// VM's id in the paths that they are started with. An unrelated process that got the
/// same pid is told apart by this, and left alone.
pub fn is_vmm_of(cmdline: &str, id: u128) -> (r: bool)
    ensures
        r == started_for(cmdline@, id),
{
    contains(cmdline, id_text(id).as_str())
}

// ---------------------------------------------------------------------------
// What a snapshot is restored into
// ---------------------------------------------------------------------------

/// What a snapshot is restored into.
#[derive(Debug)]
pub enum RestoreTarget {
    /// The VM that was captured.
    Resume {
        id: u128,
        name: String,
        vcpu_count: u32,
        mem_size_mib: u32,
        vsock_cid: u32,
    },
    /// A new VM beside it.
    Fork {
        id: u128,
        name: String,
        vcpu_count: u32,
        mem_size_mib: u32,
        vsock_cid: u32,
        tap_device: String,
        source_rootfs: String,
        fork_rootfs: String,
    },
}

/// What a suspended VM is restored into.
pub open spec fn own_target(vm: VmRecord) -> RestoreTarget {
    RestoreTarget::Resume {
        id: vm.id,
        name: vm.name,
        vcpu_count: vm.vcpu_count,
        mem_size_mib: vm.mem_size_mib,
        vsock_cid: vm.vsock_cid,
    }
}

/// A VM wakes up as itself: under its own id, name and context id, as big as it was.
pub proof fn vms_wake_up_as_themselves(vm: VmRecord)
    ensures
        own_target(vm) matches RestoreTarget::Resume {
            id,
            name,
            vcpu_count,
            mem_size_mib,
            vsock_cid,
        } && id == vm.id && name == vm.name && vcpu_count == vm.vcpu_count && mem_size_mib
            == vm.mem_size_mib && vsock_cid == vm.vsock_cid,
{
}

/// Restore a suspended VM in place: it wakes up as itself.
pub fn resume_target(vm: &VmRecord) -> (r: RestoreTarget)
    ensures
        r == own_target(*vm),
{
    RestoreTarget::Resume {
        id: vm.id,
        name: vm.name.clone(),
        vcpu_count: vm.vcpu_count,
        mem_size_mib: vm.mem_size_mib,
        vsock_cid: vm.vsock_cid,
    }
}

} // verus!
