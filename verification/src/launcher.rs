//! The process launcher: spawn the backend unless one already answers.
//! Written as a state machine whose caller performs the probe and the spawn.

use crate::endpoint::Endpoint;
use crate::outcome::SupervisionOutcome;
use vstd::pervasive::unreached;
use vstd::prelude::*;

verus! {

/// The spawned backend process, as far as the shell needs to know it. The
/// process itself is kept by the caller for the application's lifetime and
/// is never stopped from here.
#[derive(Clone, Copy, Debug, PartialEq, Eq)]
pub struct ChildProcessHandle {
    pub pid: u32,
}

/// Why the backend could not be spawned.
#[derive(Clone, Copy, Debug, PartialEq, Eq)]
pub enum SpawnFailure {
    /// The executable is not where the packaging says it is.
    Missing,
    /// The executable may not be run.
    Unauthorized,
    /// The system has no room for another process.
    Exhausted,
    /// Any other refusal.
    Other,
}

/// What the system answered to the request to spawn the backend.
#[derive(Clone, Copy, Debug, PartialEq, Eq)]
pub enum SpawnReply {
    Started { pid: u32 },
    Failed { reason: SpawnFailure },
}

/// What the launcher came to.
#[derive(Clone, Copy, Debug, PartialEq, Eq)]
pub enum LaunchResult {
    /// A backend already answered; nothing was spawned.
    Skipped,
    /// The backend was spawned.
    Spawned(ChildProcessHandle),
    /// The spawn failed. It is reported and never tried again.
    Failed(SpawnFailure),
}

impl LaunchResult {
    /// The outcome that the launch stage reports.
    pub open spec fn outcome_of(self) -> SupervisionOutcome {
        match self {
            LaunchResult::Skipped => SupervisionOutcome::AlreadyRunning,
            LaunchResult::Spawned(_) => SupervisionOutcome::Started,
            LaunchResult::Failed(_) => SupervisionOutcome::StartFailed,
        }
    }

    /// The result that follows from the system's answer to a spawn.
    pub open spec fn of_reply(reply: SpawnReply) -> LaunchResult {
        match reply {
            SpawnReply::Started { pid } => LaunchResult::Spawned(ChildProcessHandle { pid }),
            SpawnReply::Failed { reason } => LaunchResult::Failed(reason),
        }
    }

    /// The outcome that the launch stage reports.
    pub fn outcome(&self) -> (outcome: SupervisionOutcome)
        ensures
            outcome == self.outcome_of(),
    {
        match self {
            LaunchResult::Skipped => SupervisionOutcome::AlreadyRunning,
            LaunchResult::Spawned(_) => SupervisionOutcome::Started,
            LaunchResult::Failed(_) => SupervisionOutcome::StartFailed,
        }
    }
}

/// Where a launch stands.
#[derive(Clone, Copy, Debug, PartialEq, Eq)]
pub enum LaunchState {
    /// The probe that tells whether a backend already answers is under way.
    Prechecking,
    /// Nothing answered and the spawn is under way.
    Spawning,
    /// The launch is over.
    Settled(LaunchResult),
}

/// What the caller reports back to the launcher.
#[derive(Clone, Copy, Debug, PartialEq, Eq)]
pub enum LaunchEvent {
    /// The probe that was asked for has ended.
    Probed { live: bool },
    /// The spawn that was asked for has ended.
    SpawnEnded(SpawnReply),
}

/// What the launcher asks of its caller.
#[derive(Clone, Copy, Debug, PartialEq, Eq)]
pub enum LaunchAction {
    /// Spawn the backend, as [`Launcher::command`] says.
    Spawn,
    /// The launch is over.
    Settle(LaunchResult),
    /// The event answered nothing that was asked; nothing changed.
    Nothing,
}

/// The state in which every launch begins: the pre-check probe is due at
/// once.
pub open spec fn launch_start() -> LaunchState {
    LaunchState::Prechecking
}

/// The launcher's transition relation. A live pre-check settles the launch
/// without a spawn. A failed pre-check asks for the spawn, and the system's
/// answer to it settles the launch either way. Any other event changes
/// nothing; in particular a settled launch never asks for anything again.
pub open spec fn launch_transition(state: LaunchState, event: LaunchEvent) -> (
    LaunchState,
    LaunchAction,
) {
    match (state, event) {
        (LaunchState::Prechecking, LaunchEvent::Probed { live }) => {
            if live {
                (LaunchState::Settled(LaunchResult::Skipped), LaunchAction::Settle(LaunchResult::Skipped))
            } else {
                (LaunchState::Spawning, LaunchAction::Spawn)
            }
        },
        (LaunchState::Spawning, LaunchEvent::SpawnEnded(reply)) => (
            LaunchState::Settled(LaunchResult::of_reply(reply)),
            LaunchAction::Settle(LaunchResult::of_reply(reply)),
        ),
        _ => (state, LaunchAction::Nothing),
    }
}

/// The executable to spawn and the arguments to spawn it with.
#[derive(Clone, Debug, PartialEq, Eq)]
pub struct SpawnRequest {
    /// The logical name that the packaging maps to the backend's binary.
    pub executable: String,
    pub args: Vec<String>,
}

/// What Verus sees of a [`Launcher`].
pub struct LauncherView {
    pub endpoint: Endpoint,
    pub executable: Seq<char>,
    pub state: LaunchState,
}

/// A launch of the backend for one endpoint.
#[derive(Debug)]
pub struct Launcher {
    endpoint: Endpoint,
    executable: String,
    state: LaunchState,
}

impl View for Launcher {
    type V = LauncherView;

    closed spec fn view(&self) -> LauncherView {
        LauncherView { endpoint: self.endpoint, executable: self.executable@, state: self.state }
    }
}

impl Launcher {
    /// A launch that has just begun. Its pre-check is due at once, so the
    /// caller starts by probing the endpoint.
    pub fn new(endpoint: Endpoint, executable: String) -> (launcher: Launcher)
        ensures
            launcher@.endpoint == endpoint,
            launcher@.executable == executable@,
            launcher@.state == launch_start(),
    {
        Launcher { endpoint, executable, state: LaunchState::Prechecking }
    }

    /// Where the launch stands.
    pub fn state(&self) -> (state: LaunchState)
        ensures
            state == self@.state,
    {
        self.state
    }

    /// The endpoint the backend is launched for.
    pub fn endpoint(&self) -> (endpoint: Endpoint)
        ensures
            endpoint == self@.endpoint,
    {
        self.endpoint
    }

    /// What to spawn when the launcher asks for it: the executable the
    /// launcher was made with, told to bind the endpoint's port.
    pub fn command(&self) -> (request: SpawnRequest)
        ensures
            request.executable@ == self@.executable,
            request.args@.map_values(|s: String| s@) == self@.endpoint.launch_args_text(),
    {
        SpawnRequest { executable: self.executable.clone(), args: self.endpoint.launch_args() }
    }

    /// Takes the caller's report and says what to do next.
    pub fn step(&mut self, event: LaunchEvent) -> (action: LaunchAction)
        ensures
            final(self)@.endpoint == old(self)@.endpoint,
            final(self)@.executable == old(self)@.executable,
            (final(self)@.state, action) == launch_transition(old(self)@.state, event),
    {
        match (self.state, event) {
            (LaunchState::Prechecking, LaunchEvent::Probed { live }) => {
                if live {
                    self.state = LaunchState::Settled(LaunchResult::Skipped);
                    LaunchAction::Settle(LaunchResult::Skipped)
                } else {
                    self.state = LaunchState::Spawning;
                    LaunchAction::Spawn
                }
            },
            (LaunchState::Spawning, LaunchEvent::SpawnEnded(reply)) => {
                let result = match reply {
                    SpawnReply::Started { pid } => LaunchResult::Spawned(ChildProcessHandle { pid }),
                    SpawnReply::Failed { reason } => LaunchResult::Failed(reason),
                };
                self.state = LaunchState::Settled(result);
                LaunchAction::Settle(result)
            },
            _ => LaunchAction::Nothing,
        }
    }
}

/// What a launch came to, and how many processes it asked for.
#[derive(Clone, Copy, Debug, PartialEq, Eq)]
pub struct LaunchReport {
    pub result: LaunchResult,
    /// The number of spawns that were asked for: none or one.
    pub spawns: u32,
}

/// Runs a whole launch in a world where the pre-check finds the backend
/// live or not, as `precheck_live` says, and where the system would answer
/// a spawn with `spawn_reply`.
///
/// A backend that already answers is never joined by a second one: the
/// launch is skipped and nothing is spawned. Otherwise exactly one spawn is
/// asked for, and its answer decides between spawned and failed.
pub fn ensure_started(
    endpoint: Endpoint,
    executable: String,
    precheck_live: bool,
    spawn_reply: SpawnReply,
) -> (report: LaunchReport)
    ensures
        precheck_live ==> report.result == LaunchResult::Skipped && report.spawns == 0,
        !precheck_live ==> report.result == LaunchResult::of_reply(spawn_reply) && report.spawns
            == 1,
{
    let mut launcher = Launcher::new(endpoint, executable);
    match launcher.step(LaunchEvent::Probed { live: precheck_live }) {
        LaunchAction::Settle(result) => LaunchReport { result, spawns: 0 },
        LaunchAction::Spawn => {
            match launcher.step(LaunchEvent::SpawnEnded(spawn_reply)) {
                LaunchAction::Settle(result) => LaunchReport { result, spawns: 1 },
                _ => unreached(),
            }
        },
        LaunchAction::Nothing => unreached(),
    }
}

} // verus!
