//! Stopping a process tree: gently first, then by force.
//!
//! The tree is asked to terminate and given a bounded time to do so;
//! where it has not ended by then it is killed and waited for once more.
//! Whatever the processes do, the stop comes to an end.

use vstd::prelude::*;

verus! {

/// Milliseconds granted to the tree to end after it was asked to, and
/// again after it was killed.
pub const STOP_TIMEOUT_MS: u64 = 2000;

/// Milliseconds waited after a kill, so that the ports of the tree are
/// free again.
pub const SETTLE_MS: u64 = 100;

/// What is done to a process tree that is stopped.
#[derive(Clone, Copy, Debug, PartialEq, Eq, Structural)]
pub enum StopStep {
    /// Ask the process group to terminate.
    Terminate,
    /// Kill the process group.
    Kill,
    /// Kill the process itself: it leads no group that could be
    /// signalled.
    KillProcess,
    /// Wait until the process has ended, for the given time at most.
    Await { timeout_ms: u64 },
    /// Wait until the process has ended, however long it takes. The
    /// process was killed, so that it does end.
    Reap,
    /// Sleep for the given time.
    Settle { ms: u64 },
}

/// Where the stop of a process tree stands.
#[derive(Clone, Copy, Debug, PartialEq, Eq, Structural)]
pub enum StopStage {
    /// Nothing was done yet.
    Begin,
    /// The group was asked to terminate.
    Asked,
    /// The process is waited for, after it was asked.
    Waiting,
    /// The group was killed.
    Killed,
    /// The process is waited for, after it was killed.
    WaitingAfterKill,
    /// The process itself was killed.
    KilledProcess,
    /// The stop has come to an end.
    Finished,
}

/// What is done at a stage, and the stage that follows. `has_group`
/// says whether the process leads a group that can be signalled;
/// `exited` says whether the last wait saw the process end.
pub open spec fn stop_step(stage: StopStage, has_group: bool, exited: bool) -> (
    Option<StopStep>,
    StopStage,
) {
    match stage {
        StopStage::Begin => if has_group {
            (Some(StopStep::Terminate), StopStage::Asked)
        } else {
            (Some(StopStep::KillProcess), StopStage::KilledProcess)
        },
        StopStage::Asked => (
            Some(StopStep::Await { timeout_ms: STOP_TIMEOUT_MS }),
            StopStage::Waiting,
        ),
        StopStage::Waiting => if exited {
            (None, StopStage::Finished)
        } else {
            (Some(StopStep::Kill), StopStage::Killed)
        },
        StopStage::Killed => (
            Some(StopStep::Await { timeout_ms: STOP_TIMEOUT_MS }),
            StopStage::WaitingAfterKill,
        ),
        StopStage::WaitingAfterKill => (
            Some(StopStep::Settle { ms: SETTLE_MS }),
            StopStage::Finished,
        ),
        StopStage::KilledProcess => (Some(StopStep::Reap), StopStage::Finished),
        StopStage::Finished => (None, StopStage::Finished),
    }
}

/// Decides what is done next to a process tree that is stopped.
pub fn next_stop_step(stage: StopStage, has_group: bool, exited: bool) -> (r: (
    Option<StopStep>,
    StopStage,
))
    ensures
        r == stop_step(stage, has_group, exited),
{
    match stage {
        StopStage::Begin => {
            if has_group {
                (Some(StopStep::Terminate), StopStage::Asked)
            } else {
                (Some(StopStep::KillProcess), StopStage::KilledProcess)
            }
        },
        StopStage::Asked => (
            Some(StopStep::Await { timeout_ms: STOP_TIMEOUT_MS }),
            StopStage::Waiting,
        ),
        StopStage::Waiting => {
            if exited {
                (None, StopStage::Finished)
            } else {
                (Some(StopStep::Kill), StopStage::Killed)
            }
        },
        StopStage::Killed => (
            Some(StopStep::Await { timeout_ms: STOP_TIMEOUT_MS }),
            StopStage::WaitingAfterKill,
        ),
        StopStage::WaitingAfterKill => (
            Some(StopStep::Settle { ms: SETTLE_MS }),
            StopStage::Finished,
        ),
        StopStage::KilledProcess => (Some(StopStep::Reap), StopStage::Finished),
        StopStage::Finished => (None, StopStage::Finished),
    }
}

/// Number of steps that are left at most from a stage on.
pub open spec fn steps_left(stage: StopStage) -> nat {
    match stage {
        StopStage::Begin => 5,
        StopStage::Asked => 4,
        StopStage::Waiting => 3,
        StopStage::Killed => 2,
        StopStage::WaitingAfterKill => 1,
        StopStage::KilledProcess => 1,
        StopStage::Finished => 0,
    }
}

/// Milliseconds that the timed steps from a stage on take at most.
pub open spec fn time_left_ms(stage: StopStage) -> nat {
    match stage {
        StopStage::Begin => 4100,
        StopStage::Asked => 4100,
        StopStage::Waiting => 2100,
        StopStage::Killed => 2100,
        StopStage::WaitingAfterKill => 100,
        StopStage::KilledProcess => 0,
        StopStage::Finished => 0,
    }
}

/// The time that a step takes at most, where it is timed.
pub open spec fn step_time_ms(step: Option<StopStep>) -> nat {
    match step {
        Some(StopStep::Await { timeout_ms }) => timeout_ms as nat,
        Some(StopStep::Settle { ms }) => ms as nat,
        _ => 0,
    }
}

/// The stop of a process tree comes to an end: every step brings the end
/// nearer, and the timed steps of a group that can be signalled take
/// little more than four seconds in all, whatever the processes do.
pub proof fn lemma_stop_ends(stage: StopStage, has_group: bool, exited: bool)
    ensures
        stage != StopStage::Finished ==> steps_left(stop_step(stage, has_group, exited).1)
            < steps_left(stage),
        step_time_ms(stop_step(stage, has_group, exited).0) + time_left_ms(
            stop_step(stage, has_group, exited).1,
        ) <= time_left_ms(stage),
        stop_step(stage, has_group, exited).0 is None <==> stop_step(stage, has_group, exited).1
            == StopStage::Finished && (stage == StopStage::Finished || stage == StopStage::Waiting),
        has_group ==> stop_step(stage, has_group, exited).0 != Some(StopStep::Reap) || stage
            == StopStage::KilledProcess,
{
}

} // verus!
