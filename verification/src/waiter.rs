//! The readiness waiter: a bounded polling loop, written as a state machine
//! whose caller performs the probes and the rests.

use crate::budget::RetryBudget;
use crate::probe::PROBE_TIMEOUT_MS;
use vstd::pervasive::unreached;
use vstd::prelude::*;

verus! {

/// Where a wait stands.
#[derive(Clone, Copy, Debug, PartialEq, Eq)]
pub enum WaitState {
    /// Probe number `attempt`, counted from one, is under way.
    Probing { attempt: u32 },
    /// Probe number `attempt` found nothing and the rest after it is under
    /// way.
    Resting { attempt: u32 },
    /// The wait is over after `attempts` probes.
    Finished { ready: bool, attempts: u32 },
}

/// What the caller reports back to the waiter.
#[derive(Clone, Copy, Debug, PartialEq, Eq)]
pub enum WaitEvent {
    /// The probe that was asked for has ended.
    Probed { live: bool },
    /// The rest that was asked for is over.
    Rested,
}

/// What the waiter asks of its caller.
#[derive(Clone, Copy, Debug, PartialEq, Eq)]
pub enum WaitAction {
    /// Probe the endpoint once, for at most `timeout_ms` milliseconds.
    Probe { timeout_ms: u64 },
    /// Rest for `ms` milliseconds.
    Sleep { ms: u64 },
    /// The wait is over.
    Finish { ready: bool },
    /// The event answered nothing that was asked; nothing changed.
    Nothing,
}

/// The state in which every wait begins: the first probe is due at once.
pub open spec fn wait_start() -> WaitState {
    WaitState::Probing { attempt: 1 }
}

/// The waiter's transition relation. A live probe ends the wait at once. A
/// failed probe is followed by a rest, and a rest by the next probe as long
/// as the budget allows one. Any other event changes nothing.
pub open spec fn wait_transition(budget: RetryBudget, state: WaitState, event: WaitEvent) -> (
    WaitState,
    WaitAction,
) {
    match (state, event) {
        (WaitState::Probing { attempt }, WaitEvent::Probed { live }) => {
            if live {
                (
                    WaitState::Finished { ready: true, attempts: attempt },
                    WaitAction::Finish { ready: true },
                )
            } else {
                (WaitState::Resting { attempt }, WaitAction::Sleep { ms: budget.interval() })
            }
        },
        (WaitState::Resting { attempt }, WaitEvent::Rested) => {
            if attempt < budget.attempts() {
                (
                    WaitState::Probing { attempt: (attempt + 1) as u32 },
                    WaitAction::Probe { timeout_ms: PROBE_TIMEOUT_MS },
                )
            } else {
                (
                    WaitState::Finished { ready: false, attempts: attempt },
                    WaitAction::Finish { ready: false },
                )
            }
        },
        _ => (state, WaitAction::Nothing),
    }
}

/// What Verus sees of a [`Waiter`].
pub struct WaiterView {
    pub budget: RetryBudget,
    pub state: WaitState,
}

/// A wait for the backend under a retry budget.
#[derive(Clone, Copy, Debug)]
pub struct Waiter {
    budget: RetryBudget,
    state: WaitState,
}

impl View for Waiter {
    type V = WaiterView;

    closed spec fn view(&self) -> WaiterView {
        WaiterView { budget: self.budget, state: self.state }
    }
}

impl Waiter {
    /// A wait that has just begun. Its first probe is due at once, so the
    /// caller starts by probing.
    pub fn new(budget: RetryBudget) -> (waiter: Waiter)
        ensures
            waiter@.budget == budget,
            waiter@.state == wait_start(),
    {
        Waiter { budget, state: WaitState::Probing { attempt: 1 } }
    }

    /// Where the wait stands.
    pub fn state(&self) -> (state: WaitState)
        ensures
            state == self@.state,
    {
        self.state
    }

    /// The budget the wait runs under.
    pub fn budget(&self) -> (budget: RetryBudget)
        ensures
            budget == self@.budget,
    {
        self.budget
    }

    /// Takes the caller's report and says what to do next.
    pub fn step(&mut self, event: WaitEvent) -> (action: WaitAction)
        ensures
            final(self)@.budget == old(self)@.budget,
            (final(self)@.state, action) == wait_transition(
                old(self)@.budget,
                old(self)@.state,
                event,
            ),
    {
        match (self.state, event) {
            (WaitState::Probing { attempt }, WaitEvent::Probed { live }) => {
                if live {
                    self.state = WaitState::Finished { ready: true, attempts: attempt };
                    WaitAction::Finish { ready: true }
                } else {
                    self.state = WaitState::Resting { attempt };
                    WaitAction::Sleep { ms: self.budget.interval_ms() }
                }
            },
            (WaitState::Resting { attempt }, WaitEvent::Rested) => {
                if attempt < self.budget.max_attempts() {
                    self.state = WaitState::Probing { attempt: attempt + 1 };
                    WaitAction::Probe { timeout_ms: PROBE_TIMEOUT_MS }
                } else {
                    self.state = WaitState::Finished { ready: false, attempts: attempt };
                    WaitAction::Finish { ready: false }
                }
            },
            _ => WaitAction::Nothing,
        }
    }
}

/// What a wait came to.
#[derive(Clone, Copy, Debug, PartialEq, Eq)]
pub struct WaitReport {
    /// Whether a probe found the backend live.
    pub ready: bool,
    /// The number of probes that were made.
    pub attempts: u32,
    /// The time spent resting between and after probes, in milliseconds.
    pub slept_ms: u128,
}

/// Whether probe number `i`, counted from zero, finds the backend live when
/// the endpoint behaves as `probes` says. Past the end of the script the
/// endpoint is closed.
pub open spec fn live_at(probes: Seq<bool>, i: int) -> bool {
    0 <= i < probes.len() && probes[i]
}

impl WaitReport {
    /// Whether this is the report of a wait under `budget` against an
    /// endpoint that answers the probes as `probes` says.
    ///
    /// The wait ends with the first live probe and makes no probe after it.
    /// If none of the allowed probes is live, every one of them is made. A
    /// rest follows each failed probe, the last one too.
    pub open spec fn follows(self, budget: RetryBudget, probes: Seq<bool>) -> bool {
        &&& 1 <= self.attempts <= budget.attempts()
        &&& forall|i: int| 0 <= i < self.attempts - 1 ==> !live_at(probes, i)
        &&& self.ready == live_at(probes, self.attempts - 1)
        &&& !self.ready ==> self.attempts == budget.attempts()
        &&& self.ready ==> self.slept_ms == (self.attempts - 1) * budget.interval()
        &&& !self.ready ==> self.slept_ms == budget.worst_case_wait()
    }
}

/// A budget and a script leave room for one report only.
pub proof fn lemma_report_unique(
    budget: RetryBudget,
    probes: Seq<bool>,
    one: WaitReport,
    other: WaitReport,
)
    requires
        one.follows(budget, probes),
        other.follows(budget, probes),
    ensures
        one == other,
{
    if one.attempts < other.attempts {
        assert(!live_at(probes, one.attempts - 1));
    } else if other.attempts < one.attempts {
        assert(!live_at(probes, other.attempts - 1));
    }
}

/// A wait against an endpoint that never opens makes every probe that the
/// budget allows, no more, and rests after each before it gives up.
pub proof fn lemma_closed_endpoint_exhausts_budget(
    budget: RetryBudget,
    probes: Seq<bool>,
    report: WaitReport,
)
    requires
        report.follows(budget, probes),
        forall|i: int| 0 <= i < budget.attempts() ==> !live_at(probes, i),
    ensures
        !report.ready,
        report.attempts == budget.attempts(),
        report.slept_ms == budget.worst_case_wait(),
{
}

/// Readiness is found on attempt `n` exactly when the endpoint is live at
/// that probe, was not live at any probe before it, and the budget allows
/// `n` attempts.
pub proof fn lemma_ready_on_first_live_probe(
    budget: RetryBudget,
    probes: Seq<bool>,
    report: WaitReport,
    n: int,
)
    requires
        report.follows(budget, probes),
    ensures
        (report.ready && report.attempts == n) <==> (1 <= n <= budget.attempts() && live_at(
            probes,
            n - 1,
        ) && forall|i: int| 0 <= i < n - 1 ==> !live_at(probes, i)),
{
    if 1 <= n <= budget.attempts() && live_at(probes, n - 1) && (forall|i: int|
        0 <= i < n - 1 ==> !live_at(probes, i)) {
        if report.attempts < n {
            assert(!live_at(probes, report.attempts - 1));
        }
    }
}

/// Runs a whole wait against an endpoint that answers the probes as
/// `probes` says, one entry per probe in order.
pub fn wait_ready(budget: RetryBudget, probes: &Vec<bool>) -> (report: WaitReport)
    ensures
        report.follows(budget, probes@),
{
    let mut waiter = Waiter::new(budget);
    let max_attempts = budget.max_attempts();
    let interval_ms = budget.interval_ms();
    let mut attempts: u32 = 1;
    let mut slept_ms: u128 = 0;
    loop
        invariant
            waiter@.budget == budget,
            waiter@.state == (WaitState::Probing { attempt: attempts }),
            max_attempts == budget.attempts(),
            1 <= attempts <= max_attempts,
            forall|i: int| 0 <= i < attempts - 1 ==> !live_at(probes@, i),
            interval_ms == budget.interval(),
            slept_ms == (attempts - 1) * interval_ms,
        decreases max_attempts - attempts,
    {
        let position: usize = (attempts - 1) as usize;
        let live = position < probes.len() && probes[position];
        match waiter.step(WaitEvent::Probed { live }) {
            WaitAction::Finish { ready } => {
                return WaitReport { ready, attempts, slept_ms };
            },
            WaitAction::Sleep { ms } => {
                assert((attempts - 1) * interval_ms + interval_ms == attempts * interval_ms
                    <= 0xffff_ffff * 0xffff_ffff_ffff_ffff) by (nonlinear_arith)
                    requires
                        0 <= interval_ms <= 0xffff_ffff_ffff_ffff,
                        1 <= attempts <= 0xffff_ffff,
                ;
                slept_ms = slept_ms + ms as u128;
                match waiter.step(WaitEvent::Rested) {
                    WaitAction::Probe { timeout_ms: _ } => {
                        attempts = attempts + 1;
                    },
                    WaitAction::Finish { ready } => {
                        return WaitReport { ready, attempts, slept_ms };
                    },
                    _ => {
                        return unreached();
                    },
                }
            },
            _ => {
                return unreached();
            },
        }
    }
}

} // verus!
