//! What a supervision sequence, or one of its stages, came to.

use vstd::prelude::*;

verus! {

/// The outcome of a supervision sequence or of its launch stage. One is
/// produced per application launch and handed to whoever reveals the
/// interface.
#[derive(Clone, Copy, Debug, PartialEq, Eq)]
pub enum SupervisionOutcome {
    /// A backend was already listening and answered within the budget.
    AlreadyRunning,
    /// A backend process was spawned; nothing is known of its readiness yet.
    Started,
    /// The backend could not be spawned.
    StartFailed,
    /// The spawned backend answered within the budget.
    ReadyWithinBudget,
    /// No probe within the budget found the backend live.
    TimedOut,
}

impl SupervisionOutcome {
    /// Whether the outcome tells of a backend that answers.
    pub open spec fn ready(self) -> bool {
        self is AlreadyRunning || self is ReadyWithinBudget
    }

    /// Whether the outcome tells of a startup that failed for good.
    pub open spec fn failed(self) -> bool {
        self is StartFailed || self is TimedOut
    }

    /// Whether the outcome tells of a backend that answers.
    pub fn is_ready(&self) -> (ready: bool)
        ensures
            ready == self.ready(),
    {
        match self {
            SupervisionOutcome::AlreadyRunning => true,
            SupervisionOutcome::ReadyWithinBudget => true,
            _ => false,
        }
    }

    /// Whether the outcome tells of a startup that failed for good.
    pub fn is_failed(&self) -> (failed: bool)
        ensures
            failed == self.failed(),
    {
        match self {
            SupervisionOutcome::StartFailed => true,
            SupervisionOutcome::TimedOut => true,
            _ => false,
        }
    }
}

} // verus!
