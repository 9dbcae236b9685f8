//! Leases: what a creation had taken from the host when the daemon died before the VM
//! was recorded.

use vstd::prelude::*;
use vstd::string::*;

use crate::error::CoreError;
#[allow(unused_imports)]
use crate::error::ErrorView;
#[allow(unused_imports)]
use crate::text::{has_suffix, occurs, stands_between};

verus! {

/// What an interrupted creation may have left behind.
#[derive(Debug)]
pub struct HostResourceLease {
    pub id: u128,
    pub vm_name: String,
    pub vsock_cid: u32,
    pub tap_device: Option<String>,
}

/// The steps of recovering a lease.
#[derive(Clone, Copy, PartialEq, Eq, Debug, Structural)]
pub enum LeaseStep {
    /// Take the TAP down, with its rules.
    RemoveTap,
    /// Remove the VM's directory; one that is not there counts as removed.
    RemoveDir,
    /// Forget the lease.
    Release,
    Done,
    Failed,
}

/// The first step.
pub open spec fn lease_first(lease: HostResourceLease) -> LeaseStep {
    if lease.tap_device is Some {
        LeaseStep::RemoveTap
    } else {
        LeaseStep::RemoveDir
    }
}

/// What follows a step, by whether it succeeded.
pub open spec fn lease_next(step: LeaseStep, succeeded: bool) -> LeaseStep {
    if !succeeded && !(step is Done) {
        LeaseStep::Failed
    } else {
        match step {
            LeaseStep::RemoveTap => LeaseStep::RemoveDir,
            LeaseStep::RemoveDir => LeaseStep::Release,
            LeaseStep::Release => LeaseStep::Done,
            LeaseStep::Done => LeaseStep::Done,
            LeaseStep::Failed => LeaseStep::Failed,
        }
    }
}

/// The first step of recovering a lease.
pub fn first_lease_step(lease: &HostResourceLease) -> (r: LeaseStep)
    ensures
        r == lease_first(*lease),
{
    if lease.tap_device.is_some() {
        LeaseStep::RemoveTap
    } else {
        LeaseStep::RemoveDir
    }
}

/// What follows a step of recovering a lease.
pub fn next_lease_step(step: LeaseStep, succeeded: bool) -> (r: LeaseStep)
    ensures
        r == lease_next(step, succeeded),
{
    match step {
        LeaseStep::Done => LeaseStep::Done,
        LeaseStep::Failed => LeaseStep::Failed,
        LeaseStep::RemoveTap => if succeeded {
            LeaseStep::RemoveDir
        } else {
            LeaseStep::Failed
        },
        LeaseStep::RemoveDir => if succeeded {
            LeaseStep::Release
        } else {
            LeaseStep::Failed
        },
        LeaseStep::Release => if succeeded {
            LeaseStep::Done
        } else {
            LeaseStep::Failed
        },
    }
}

/// Where the recovery of a lease gets to, given how each step went.
pub open spec fn lease_run(lease: HostResourceLease, went: Seq<bool>) -> LeaseStep
    decreases went.len(),
{
    if went.len() == 0 {
        lease_first(lease)
    } else {
        lease_next(lease_run(lease, went.drop_last()), went.last())
    }
}

/// The step was gone through with success.
pub open spec fn lease_did(lease: HostResourceLease, went: Seq<bool>, step: LeaseStep) -> bool
    decreases went.len(),
{
    went.len() > 0 && (lease_did(lease, went.drop_last(), step) || (lease_run(
        lease,
        went.drop_last(),
    ) == step && went.last()))
}

/// A lease is forgotten only once everything that it stands for is gone, so that a
/// recovery that failed can be tried again.
pub proof fn leases_outlive_their_resources(lease: HostResourceLease, went: Seq<bool>)
    ensures
        lease_run(lease, went) == LeaseStep::Release || lease_run(lease, went) == LeaseStep::Done
            ==> lease_did(lease, went, LeaseStep::RemoveDir) && (lease.tap_device is Some
            ==> lease_did(lease, went, LeaseStep::RemoveTap)),
        lease_run(lease, went) == LeaseStep::RemoveDir && lease.tap_device is Some ==> lease_did(
            lease,
            went,
            LeaseStep::RemoveTap,
        ),
    decreases went.len(),
{
    if went.len() > 0 {
        leases_outlive_their_resources(lease, went.drop_last());
    }
}

/// What failing to remove an interrupted VM's directory is reported as.
pub open spec fn leftover(dir: Seq<char>, error: Seq<char>) -> ErrorView {
    ErrorView::Io("remove interrupted VM directory "@ + dir + ": "@ + error)
}

/// A directory that could not be removed is told with the reason.
pub proof fn leftovers_are_told_with_the_reason(dir: Seq<char>, error: Seq<char>)
    ensures
        leftover(dir, error) is Io,
        occurs(leftover(dir, error)->Io_0, dir),
        has_suffix(leftover(dir, error)->Io_0, error),
{
    let text = leftover(dir, error)->Io_0;
    stands_between("remove interrupted VM directory "@, dir, ": "@ + error);
    assert(text =~= "remove interrupted VM directory "@ + dir + (": "@ + error));
    assert(text.subrange(text.len() - error.len(), text.len() as int) =~= error);
}

/// A recovery without a fault goes through: the TAP, where there is one, the directory, and
/// the lease at last. Any fault ends it.
pub proof fn undisturbed_recoveries_succeed(lease: HostResourceLease, step: LeaseStep)
    ensures
        lease_first(lease) == LeaseStep::RemoveTap <==> lease.tap_device is Some,
        lease_first(lease) == LeaseStep::RemoveDir <==> lease.tap_device is None,
        lease_next(LeaseStep::RemoveTap, true) == LeaseStep::RemoveDir,
        lease_next(LeaseStep::RemoveDir, true) == LeaseStep::Release,
        lease_next(LeaseStep::Release, true) == LeaseStep::Done,
        step != LeaseStep::Done ==> lease_next(step, false) == LeaseStep::Failed,
        lease_next(LeaseStep::Failed, true) == LeaseStep::Failed,
{
}

/// What failing to remove an interrupted VM's directory is reported as.
pub fn leftover_dir_error(dir: &str, error: &str) -> (e: CoreError)
    ensures
        e@ == leftover(dir@, error@),
{
    CoreError::Io(
        "remove interrupted VM directory ".to_owned().concat(dir).concat(": ").concat(error),
    )
}

} // verus!
