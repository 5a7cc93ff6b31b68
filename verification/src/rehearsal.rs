//! A whole supervision sequence, run against a backend whose behaviour is
//! written down beforehand.

use crate::budget::RetryBudget;
use crate::endpoint::Endpoint;
use crate::launcher::{LaunchResult, LaunchState, SpawnReply};
use crate::orchestrator::{Action, Event, Orchestrator, Phase, Supervision};
use crate::outcome::SupervisionOutcome;
use crate::waiter::{lemma_report_unique, live_at, WaitReport, WaitState};
use vstd::pervasive::unreached;
use vstd::prelude::*;

verus! {

/// How the world around the orchestrator behaves during one run.
#[derive(Clone, Debug, PartialEq, Eq)]
pub struct World {
    /// Whether the launcher's pre-check finds a backend that already
    /// answers.
    pub precheck_live: bool,
    /// What the system answers if it is asked to spawn the backend.
    pub spawn_reply: SpawnReply,
    /// What the waiter's probes find, one entry per probe in order; past
    /// the end the endpoint is closed.
    pub probes: Vec<bool>,
}

/// What a run came to and what it asked of the world.
#[derive(Clone, Copy, Debug, PartialEq, Eq)]
pub struct RunReport {
    /// The outcome that was handed on with the reveal.
    pub outcome: SupervisionOutcome,
    /// The terminal phase in which the run ended.
    pub phase: Phase,
    /// What the launch came to.
    pub launch: LaunchResult,
    /// What the wait came to; `None` when the launch failed and nothing was
    /// waited for.
    pub wait: Option<WaitReport>,
    /// The number of spawns that were asked for.
    pub spawns: u32,
    /// The number of probes that were asked for, the pre-check included.
    pub probes: u64,
}

impl World {
    /// What the launch comes to in this world.
    pub open spec fn launch(self) -> LaunchResult {
        if self.precheck_live {
            LaunchResult::Skipped
        } else {
            LaunchResult::of_reply(self.spawn_reply)
        }
    }
}

impl RunReport {
    /// Whether this is the report of a run under `budget` in `world`.
    ///
    /// The launch is skipped when the pre-check is live, and otherwise asks
    /// for exactly one spawn. A failed spawn ends the run at once, without
    /// any wait. Otherwise the wait runs as the budget and the probes say,
    /// and decides between ready and timed out.
    pub open spec fn follows(self, budget: RetryBudget, world: World) -> bool {
        &&& self.launch == world.launch()
        &&& self.spawns == (if world.precheck_live {
            0u32
        } else {
            1u32
        })
        &&& self.launch is Failed ==> {
            &&& self.wait is None
            &&& self.outcome == SupervisionOutcome::StartFailed
            &&& self.phase == Phase::Failed
            &&& self.probes == 1
        }
        &&& !(self.launch is Failed) ==> {
            &&& self.wait matches Some(wait)
            &&& wait.follows(budget, world.probes@)
            &&& self.probes == 1 + wait.attempts
            &&& self.outcome == (if !wait.ready {
                SupervisionOutcome::TimedOut
            } else if world.precheck_live {
                SupervisionOutcome::AlreadyRunning
            } else {
                SupervisionOutcome::ReadyWithinBudget
            })
            &&& self.phase == (if wait.ready {
                Phase::Ready
            } else {
                Phase::Failed
            })
        }
    }
}

/// A budget and a world leave room for one report only.
pub proof fn lemma_run_report_unique(
    budget: RetryBudget,
    world: World,
    one: RunReport,
    other: RunReport,
)
    requires
        one.follows(budget, world),
        other.follows(budget, world),
    ensures
        one == other,
{
    if !(one.launch is Failed) {
        lemma_report_unique(budget, world.probes@, one.wait->0, other.wait->0);
    }
}

/// Runs a whole supervision sequence for the backend `executable` at
/// `endpoint` under `budget`, in a world that behaves as `world` says: the
/// orchestrator is started and every action it asks for is answered from
/// `world`, until it asks for the reveal. The report tells what was handed
/// on with that reveal and what was asked of the world before it.
pub fn supervise(endpoint: Endpoint, executable: String, budget: RetryBudget, world: &World) -> (report:
    RunReport)
    ensures
        report.follows(budget, *world),
{
    let mut orchestrator = Orchestrator::new(endpoint, executable, budget);
    let max_attempts = budget.max_attempts();
    let interval_ms = budget.interval_ms();
    orchestrator.step(Event::Start);
    let mut spawns: u32 = 0;
    let mut action = orchestrator.step(Event::Probed { live: world.precheck_live });
    if let Action::Spawn = action {
        spawns = 1;
        action = orchestrator.step(Event::SpawnEnded(world.spawn_reply));
    }
    let launch = match orchestrator.launch_state() {
        LaunchState::Settled(result) => result,
        _ => unreached(),
    };
    if let Action::Reveal { outcome } = action {
        return RunReport {
            outcome,
            phase: orchestrator.phase(),
            launch,
            wait: None,
            spawns,
            probes: 1,
        };
    }
    let mut attempts: u32 = 1;
    let mut slept_ms: u128 = 0;
    loop
        invariant
            orchestrator@.budget == budget,
            orchestrator@.state == (Supervision {
                phase: Phase::Waiting,
                launch: LaunchState::Settled(launch),
                wait: WaitState::Probing { attempt: attempts },
                outcome: None,
            }),
            launch == world.launch(),
            !(launch is Failed),
            spawns == (if world.precheck_live {
                0u32
            } else {
                1u32
            }),
            max_attempts == budget.attempts(),
            interval_ms == budget.interval(),
            1 <= attempts <= max_attempts,
            forall|i: int| 0 <= i < attempts - 1 ==> !live_at(world.probes@, i),
            slept_ms == (attempts - 1) * interval_ms,
        decreases max_attempts - attempts,
    {
        let position: usize = (attempts - 1) as usize;
        let live = position < world.probes.len() && world.probes[position];
        match orchestrator.step(Event::Probed { live }) {
            Action::Reveal { outcome } => {
                return RunReport {
                    outcome,
                    phase: orchestrator.phase(),
                    launch,
                    wait: Some(WaitReport { ready: true, attempts, slept_ms }),
                    spawns,
                    probes: 1 + attempts as u64,
                };
            },
            Action::Sleep { ms } => {
                assert((attempts - 1) * interval_ms + interval_ms == attempts * interval_ms
                    <= 0xffff_ffff * 0xffff_ffff_ffff_ffff) by (nonlinear_arith)
                    requires
                        0 <= interval_ms <= 0xffff_ffff_ffff_ffff,
                        1 <= attempts <= 0xffff_ffff,
                ;
                slept_ms = slept_ms + ms as u128;
                match orchestrator.step(Event::Rested) {
                    Action::Probe { timeout_ms: _ } => {
                        attempts = attempts + 1;
                    },
                    Action::Reveal { outcome } => {
                        return RunReport {
                            outcome,
                            phase: orchestrator.phase(),
                            launch,
                            wait: Some(WaitReport { ready: false, attempts, slept_ms }),
                            spawns,
                            probes: 1 + attempts as u64,
                        };
                    },
                    _ => {
                        return unreached();
                    },
                }
            },
            _ => {
                return unreached();
            },
        }
    }
}

} // verus!
