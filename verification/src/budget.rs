//! The retry budget that bounds how long the shell waits for its backend.

use vstd::prelude::*;

verus! {

/// Attempts allowed when nothing else is configured.
pub const DEFAULT_MAX_ATTEMPTS: u32 = 30;

/// Rest after a failed probe when nothing else is configured, in
/// milliseconds.
pub const DEFAULT_INTERVAL_MS: u64 = 1000;

/// How often the backend is probed, and how long the worker rests after a
/// probe that found nothing. A budget always allows at least one attempt;
/// the rest may be zero.
#[derive(Clone, Copy, Debug, PartialEq, Eq)]
pub struct RetryBudget {
    max_attempts: u32,
    interval_ms: u64,
}

impl RetryBudget {
    #[verifier::type_invariant]
    spec fn allows_an_attempt(self) -> bool {
        self.max_attempts >= 1
    }

    /// The number of probes the budget allows.
    pub closed spec fn attempts(self) -> u32 {
        self.max_attempts
    }

    /// The rest after a failed probe, in milliseconds.
    pub closed spec fn interval(self) -> u64 {
        self.interval_ms
    }

    /// The longest time a wait under this budget can rest, in milliseconds:
    /// one rest after each allowed attempt.
    pub open spec fn worst_case_wait(self) -> nat {
        (self.attempts() * self.interval()) as nat
    }

    /// A budget of `max_attempts` probes with `interval_ms` milliseconds of
    /// rest after each failed one; `None` when no attempt would be allowed.
    pub fn new(max_attempts: u32, interval_ms: u64) -> (budget: Option<RetryBudget>)
        ensures
            budget is Some <==> max_attempts >= 1,
            budget matches Some(b) ==> b.attempts() == max_attempts && b.interval()
                == interval_ms,
    {
        if max_attempts >= 1 {
            Some(RetryBudget { max_attempts, interval_ms })
        } else {
            None
        }
    }

    /// The number of probes the budget allows, which is never zero.
    pub fn max_attempts(&self) -> (n: u32)
        ensures
            n == self.attempts(),
            n >= 1,
    {
        proof {
            use_type_invariant(self);
        }
        self.max_attempts
    }

    /// The rest after a failed probe, in milliseconds.
    pub fn interval_ms(&self) -> (ms: u64)
        ensures
            ms == self.interval(),
    {
        self.interval_ms
    }

    /// The longest time a wait under this budget can rest, in milliseconds.
    pub fn worst_case_wait_ms(&self) -> (ms: u128)
        ensures
            ms == self.worst_case_wait(),
    {
        let attempts: u128 = self.max_attempts as u128;
        let interval: u128 = self.interval_ms as u128;
        assert(attempts * interval <= 0xffff_ffff * 0xffff_ffff_ffff_ffff) by (nonlinear_arith)
            requires
                0 <= attempts <= 0xffff_ffff,
                0 <= interval <= 0xffff_ffff_ffff_ffff,
        ;
        attempts * interval
    }
}

impl Default for RetryBudget {
    /// Thirty attempts, one second apart.
    fn default() -> (budget: RetryBudget)
        ensures
            budget.attempts() == DEFAULT_MAX_ATTEMPTS,
            budget.interval() == DEFAULT_INTERVAL_MS,
    {
        RetryBudget { max_attempts: DEFAULT_MAX_ATTEMPTS, interval_ms: DEFAULT_INTERVAL_MS }
    }
}

} // verus!
