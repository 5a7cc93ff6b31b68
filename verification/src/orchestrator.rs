//! The startup orchestrator: launch the backend, wait for it, and reveal the
//! interface whatever came of it. Written as a state machine whose caller
//! probes, spawns, rests and reveals.

use crate::budget::RetryBudget;
use crate::endpoint::Endpoint;
use crate::launcher::{
    launch_start, launch_transition, ChildProcessHandle, LaunchAction, LaunchEvent, LaunchResult,
    LaunchState, Launcher, SpawnReply, SpawnRequest,
};
use crate::outcome::SupervisionOutcome;
use crate::probe::PROBE_TIMEOUT_MS;
use crate::waiter::{wait_start, wait_transition, WaitAction, WaitEvent, WaitState, Waiter};
use vstd::prelude::*;

verus! {

/// The phases of a supervision sequence. `Ready` and `Failed` are terminal.
#[derive(Clone, Copy, Debug, PartialEq, Eq)]
pub enum Phase {
    Idle,
    Launching,
    Waiting,
    Ready,
    Failed,
}

impl Phase {
    /// Whether no transition leaves the phase.
    pub open spec fn terminal(self) -> bool {
        self is Ready || self is Failed
    }
}

/// What the caller reports to the orchestrator.
#[derive(Clone, Copy, Debug, PartialEq, Eq)]
pub enum Event {
    /// The application has come up and supervision is to begin.
    Start,
    /// The probe that was asked for has ended.
    Probed { live: bool },
    /// The spawn that was asked for has ended.
    SpawnEnded(SpawnReply),
    /// The rest that was asked for is over.
    Rested,
}

/// What the orchestrator asks of its caller.
#[derive(Clone, Copy, Debug, PartialEq, Eq)]
pub enum Action {
    /// Probe the endpoint once, for at most `timeout_ms` milliseconds.
    Probe { timeout_ms: u64 },
    /// Spawn the backend, as [`Orchestrator::command`] says.
    Spawn,
    /// Rest for `ms` milliseconds, away from the thread that owns the
    /// interface.
    Sleep { ms: u64 },
    /// Supervision is over: hand on the outcome, show the main surface and
    /// dismiss the transitional one.
    Reveal { outcome: SupervisionOutcome },
    /// The event answered nothing that was asked; nothing changed.
    Nothing,
}

/// The state of a supervision sequence.
pub struct Supervision {
    pub phase: Phase,
    pub launch: LaunchState,
    pub wait: WaitState,
    /// The outcome, once a terminal phase is reached.
    pub outcome: Option<SupervisionOutcome>,
}

/// The state in which every supervision sequence begins.
pub open spec fn initial() -> Supervision {
    Supervision { phase: Phase::Idle, launch: launch_start(), wait: wait_start(), outcome: None }
}

/// The part of an event that concerns the launcher, if any.
pub open spec fn launch_event(event: Event) -> Option<LaunchEvent> {
    match event {
        Event::Probed { live } => Some(LaunchEvent::Probed { live }),
        Event::SpawnEnded(reply) => Some(LaunchEvent::SpawnEnded(reply)),
        _ => None,
    }
}

/// The part of an event that concerns the waiter, if any.
pub open spec fn wait_event(event: Event) -> Option<WaitEvent> {
    match event {
        Event::Probed { live } => Some(WaitEvent::Probed { live }),
        Event::Rested => Some(WaitEvent::Rested),
        _ => None,
    }
}

/// The outcome of a wait that has ended, given how the launch had ended.
/// A backend that never answered has timed out whoever started it; one that
/// answers was either there before or came up within the budget.
pub open spec fn wait_outcome(launch: LaunchState, ready: bool) -> SupervisionOutcome {
    if !ready {
        SupervisionOutcome::TimedOut
    } else if launch == LaunchState::Settled(LaunchResult::Skipped) {
        SupervisionOutcome::AlreadyRunning
    } else {
        SupervisionOutcome::ReadyWithinBudget
    }
}

/// The orchestrator's transition relation.
///
/// `Start` moves an idle sequence into the launch, which begins with the
/// pre-check probe. While launching, events go to the launcher: a failed
/// spawn ends the sequence at once, any other settlement begins the wait
/// with its first probe. While waiting, events go to the waiter, and the
/// end of the wait ends the sequence. Every end asks for the reveal. An
/// event that answers nothing changes nothing, and nothing leaves a
/// terminal phase.
pub open spec fn transition(budget: RetryBudget, s: Supervision, event: Event) -> (
    Supervision,
    Action,
) {
    match s.phase {
        Phase::Idle => match event {
            Event::Start => (
                Supervision { phase: Phase::Launching, ..s },
                Action::Probe { timeout_ms: PROBE_TIMEOUT_MS },
            ),
            _ => (s, Action::Nothing),
        },
        Phase::Launching => match launch_event(event) {
            Some(e) => {
                let (launch, action) = launch_transition(s.launch, e);
                match action {
                    LaunchAction::Spawn => (Supervision { launch, ..s }, Action::Spawn),
                    LaunchAction::Settle(LaunchResult::Failed(_)) => (
                        Supervision {
                            phase: Phase::Failed,
                            launch,
                            outcome: Some(SupervisionOutcome::StartFailed),
                            ..s
                        },
                        Action::Reveal { outcome: SupervisionOutcome::StartFailed },
                    ),
                    LaunchAction::Settle(_) => (
                        Supervision { phase: Phase::Waiting, launch, ..s },
                        Action::Probe { timeout_ms: PROBE_TIMEOUT_MS },
                    ),
                    LaunchAction::Nothing => (s, Action::Nothing),
                }
            },
            None => (s, Action::Nothing),
        },
        Phase::Waiting => match wait_event(event) {
            Some(e) => {
                let (wait, action) = wait_transition(budget, s.wait, e);
                match action {
                    WaitAction::Probe { timeout_ms } => (
                        Supervision { wait, ..s },
                        Action::Probe { timeout_ms },
                    ),
                    WaitAction::Sleep { ms } => (Supervision { wait, ..s }, Action::Sleep { ms }),
                    WaitAction::Finish { ready } => {
                        let outcome = wait_outcome(s.launch, ready);
                        (
                            Supervision {
                                phase: if ready {
                                    Phase::Ready
                                } else {
                                    Phase::Failed
                                },
                                wait,
                                outcome: Some(outcome),
                                ..s
                            },
                            Action::Reveal { outcome },
                        )
                    },
                    WaitAction::Nothing => (s, Action::Nothing),
                }
            },
            None => (s, Action::Nothing),
        },
        Phase::Ready => (s, Action::Nothing),
        Phase::Failed => (s, Action::Nothing),
    }
}

/// What Verus sees of an [`Orchestrator`].
pub struct OrchestratorView {
    pub endpoint: Endpoint,
    pub executable: Seq<char>,
    pub budget: RetryBudget,
    pub state: Supervision,
}

/// The supervision of one backend for one application launch.
#[derive(Debug)]
pub struct Orchestrator {
    phase: Phase,
    launcher: Launcher,
    waiter: Waiter,
    outcome: Option<SupervisionOutcome>,
}

impl View for Orchestrator {
    type V = OrchestratorView;

    closed spec fn view(&self) -> OrchestratorView {
        OrchestratorView {
            endpoint: self.launcher@.endpoint,
            executable: self.launcher@.executable,
            budget: self.waiter@.budget,
            state: Supervision {
                phase: self.phase,
                launch: self.launcher@.state,
                wait: self.waiter@.state,
                outcome: self.outcome,
            },
        }
    }
}

impl Orchestrator {
    /// An idle supervision of the backend `executable` at `endpoint`, which
    /// will wait under `budget`.
    pub fn new(endpoint: Endpoint, executable: String, budget: RetryBudget) -> (orchestrator:
        Orchestrator)
        ensures
            orchestrator@.endpoint == endpoint,
            orchestrator@.executable == executable@,
            orchestrator@.budget == budget,
            orchestrator@.state == initial(),
    {
        Orchestrator {
            phase: Phase::Idle,
            launcher: Launcher::new(endpoint, executable),
            waiter: Waiter::new(budget),
            outcome: None,
        }
    }

    /// The phase the sequence is in.
    pub fn phase(&self) -> (phase: Phase)
        ensures
            phase == self@.state.phase,
    {
        self.phase
    }

    /// Whether the sequence has ended.
    pub fn is_terminal(&self) -> (terminal: bool)
        ensures
            terminal == self@.state.phase.terminal(),
    {
        match self.phase {
            Phase::Ready => true,
            Phase::Failed => true,
            _ => false,
        }
    }

    /// The outcome, once the sequence has ended.
    pub fn outcome(&self) -> (outcome: Option<SupervisionOutcome>)
        ensures
            outcome == self@.state.outcome,
    {
        self.outcome
    }

    /// Where the launch stands.
    pub fn launch_state(&self) -> (state: LaunchState)
        ensures
            state == self@.state.launch,
    {
        self.launcher.state()
    }

    /// Where the wait stands.
    pub fn wait_state(&self) -> (state: WaitState)
        ensures
            state == self@.state.wait,
    {
        self.waiter.state()
    }

    /// The spawned backend, if this sequence spawned one.
    pub fn child(&self) -> (child: Option<ChildProcessHandle>)
        ensures
            child == match self@.state.launch {
                LaunchState::Settled(LaunchResult::Spawned(handle)) => Some(handle),
                _ => None,
            },
    {
        match self.launcher.state() {
            LaunchState::Settled(LaunchResult::Spawned(handle)) => Some(handle),
            _ => None,
        }
    }

    /// The endpoint that is probed.
    pub fn endpoint(&self) -> (endpoint: Endpoint)
        ensures
            endpoint == self@.endpoint,
    {
        self.launcher.endpoint()
    }

    /// The budget the wait runs under.
    pub fn budget(&self) -> (budget: RetryBudget)
        ensures
            budget == self@.budget,
    {
        self.waiter.budget()
    }

    /// What to spawn when the orchestrator asks for it.
    pub fn command(&self) -> (request: SpawnRequest)
        ensures
            request.executable@ == self@.executable,
            request.args@.map_values(|s: String| s@) == self@.endpoint.launch_args_text(),
    {
        self.launcher.command()
    }

    /// Takes the caller's report and says what to do next.
    pub fn step(&mut self, event: Event) -> (action: Action)
        ensures
            final(self)@.endpoint == old(self)@.endpoint,
            final(self)@.executable == old(self)@.executable,
            final(self)@.budget == old(self)@.budget,
            (final(self)@.state, action) == transition(old(self)@.budget, old(self)@.state, event),
    {
        match self.phase {
            Phase::Idle => match event {
                Event::Start => {
                    self.phase = Phase::Launching;
                    Action::Probe { timeout_ms: PROBE_TIMEOUT_MS }
                },
                _ => Action::Nothing,
            },
            Phase::Launching => {
                let forwarded = match event {
                    Event::Probed { live } => Some(LaunchEvent::Probed { live }),
                    Event::SpawnEnded(reply) => Some(LaunchEvent::SpawnEnded(reply)),
                    _ => None,
                };
                match forwarded {
                    Some(e) => match self.launcher.step(e) {
                        LaunchAction::Spawn => Action::Spawn,
                        LaunchAction::Settle(LaunchResult::Failed(_)) => {
                            self.phase = Phase::Failed;
                            self.outcome = Some(SupervisionOutcome::StartFailed);
                            Action::Reveal { outcome: SupervisionOutcome::StartFailed }
                        },
                        LaunchAction::Settle(_) => {
                            self.phase = Phase::Waiting;
                            Action::Probe { timeout_ms: PROBE_TIMEOUT_MS }
                        },
                        LaunchAction::Nothing => Action::Nothing,
                    },
                    None => Action::Nothing,
                }
            },
            Phase::Waiting => {
                let forwarded = match event {
                    Event::Probed { live } => Some(WaitEvent::Probed { live }),
                    Event::Rested => Some(WaitEvent::Rested),
                    _ => None,
                };
                match forwarded {
                    Some(e) => match self.waiter.step(e) {
                        WaitAction::Probe { timeout_ms } => Action::Probe { timeout_ms },
                        WaitAction::Sleep { ms } => Action::Sleep { ms },
                        WaitAction::Finish { ready } => {
                            let outcome = if !ready {
                                SupervisionOutcome::TimedOut
                            } else {
                                match self.launcher.state() {
                                    LaunchState::Settled(LaunchResult::Skipped) => {
                                        SupervisionOutcome::AlreadyRunning
                                    },
                                    _ => SupervisionOutcome::ReadyWithinBudget,
                                }
                            };
                            self.phase = if ready {
                                Phase::Ready
                            } else {
                                Phase::Failed
                            };
                            self.outcome = Some(outcome);
                            Action::Reveal { outcome }
                        },
                        WaitAction::Nothing => Action::Nothing,
                    },
                    None => Action::Nothing,
                }
            },
            Phase::Ready => Action::Nothing,
            Phase::Failed => Action::Nothing,
        }
    }
}

} // verus!
