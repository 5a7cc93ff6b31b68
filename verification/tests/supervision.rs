use desktop_shell::budget::RetryBudget;
use desktop_shell::endpoint::Endpoint;
use desktop_shell::launcher::{
    ChildProcessHandle, LaunchResult, LaunchState, SpawnFailure, SpawnReply,
};
use desktop_shell::orchestrator::{Action, Event, Orchestrator, Phase};
use desktop_shell::outcome::SupervisionOutcome;
use desktop_shell::rehearsal::{supervise, RunReport, World};
use desktop_shell::waiter::{WaitReport, WaitState};

const BACKEND: &str = "lightweight_server";

fn budget(max_attempts: u32, interval_ms: u64) -> RetryBudget {
    RetryBudget::new(max_attempts, interval_ms).expect("a budget with at least one attempt")
}

fn orchestrator(max_attempts: u32, interval_ms: u64) -> Orchestrator {
    Orchestrator::new(Endpoint::default(), BACKEND.to_string(), budget(max_attempts, interval_ms))
}

/// What a run asked for, by kind.
#[derive(Debug, Default, PartialEq, Eq)]
struct Asked {
    probes: u32,
    spawns: u32,
    rests: u32,
    rested_ms: u64,
    reveals: Vec<SupervisionOutcome>,
    nothing: u32,
}

fn feed(orchestrator: &mut Orchestrator, events: &[Event]) -> (Asked, Vec<Action>) {
    let mut asked = Asked::default();
    let mut actions = Vec::new();
    for event in events {
        let action = orchestrator.step(*event);
        match action {
            Action::Probe { .. } => asked.probes += 1,
            Action::Spawn => asked.spawns += 1,
            Action::Sleep { ms } => {
                asked.rests += 1;
                asked.rested_ms += ms;
            }
            Action::Reveal { outcome } => asked.reveals.push(outcome),
            Action::Nothing => asked.nothing += 1,
        }
        actions.push(action);
    }
    (asked, actions)
}

#[test]
fn new_orchestrator_is_idle() {
    let orchestrator = orchestrator(30, 1000);
    assert_eq!(orchestrator.phase(), Phase::Idle);
    assert!(!orchestrator.is_terminal());
    assert_eq!(orchestrator.outcome(), None);
    assert_eq!(orchestrator.child(), None);
    assert_eq!(orchestrator.launch_state(), LaunchState::Prechecking);
    assert_eq!(orchestrator.wait_state(), WaitState::Probing { attempt: 1 });
    assert_eq!(orchestrator.endpoint(), Endpoint::default());
    assert_eq!(orchestrator.budget(), budget(30, 1000));
    let command = orchestrator.command();
    assert_eq!(command.executable, "lightweight_server");
    assert_eq!(command.args, vec!["--port".to_string(), "8000".to_string()]);
}

#[test]
fn failed_start_is_revealed_at_once() {
    let mut orchestrator = orchestrator(30, 1000);
    assert_eq!(orchestrator.step(Event::Start), Action::Probe { timeout_ms: 1000 });
    assert_eq!(orchestrator.phase(), Phase::Launching);
    assert_eq!(orchestrator.step(Event::Probed { live: false }), Action::Spawn);
    assert_eq!(orchestrator.phase(), Phase::Launching);
    assert_eq!(
        orchestrator.step(Event::SpawnEnded(SpawnReply::Failed { reason: SpawnFailure::Missing })),
        Action::Reveal { outcome: SupervisionOutcome::StartFailed }
    );
    assert_eq!(orchestrator.phase(), Phase::Failed);
    assert!(orchestrator.is_terminal());
    assert_eq!(orchestrator.outcome(), Some(SupervisionOutcome::StartFailed));
    assert_eq!(orchestrator.child(), None);
    // The worker is not left waiting: nothing is asked for any more.
    assert_eq!(orchestrator.wait_state(), WaitState::Probing { attempt: 1 });
    for event in [Event::Start, Event::Probed { live: true }, Event::Rested] {
        assert_eq!(orchestrator.step(event), Action::Nothing);
        assert_eq!(orchestrator.phase(), Phase::Failed);
    }
}

#[test]
fn failed_start_in_a_scripted_world() {
    let world = World {
        precheck_live: false,
        spawn_reply: SpawnReply::Failed { reason: SpawnFailure::Unauthorized },
        probes: vec![true, true, true],
    };
    let report = supervise(Endpoint::default(), BACKEND.to_string(), budget(30, 1000), &world);
    assert_eq!(
        report,
        RunReport {
            outcome: SupervisionOutcome::StartFailed,
            phase: Phase::Failed,
            launch: LaunchResult::Failed(SpawnFailure::Unauthorized),
            wait: None,
            spawns: 1,
            probes: 1,
        }
    );
}

#[test]
fn backend_that_never_answers_times_out_after_the_full_budget() {
    let mut orchestrator = orchestrator(3, 200);
    let mut events = vec![
        Event::Start,
        Event::Probed { live: false },
        Event::SpawnEnded(SpawnReply::Started { pid: 99 }),
    ];
    for _ in 0..2 {
        events.push(Event::Probed { live: false });
        events.push(Event::Rested);
    }
    events.push(Event::Probed { live: false });
    let (asked, actions) = feed(&mut orchestrator, &events);
    // Nothing is revealed before the last rest is over.
    assert!(asked.reveals.is_empty());
    assert_eq!(asked.rested_ms, 600);
    assert_eq!(actions.last(), Some(&Action::Sleep { ms: 200 }));
    assert_eq!(orchestrator.phase(), Phase::Waiting);
    assert_eq!(
        orchestrator.step(Event::Rested),
        Action::Reveal { outcome: SupervisionOutcome::TimedOut }
    );
    assert_eq!(orchestrator.phase(), Phase::Failed);
    assert_eq!(orchestrator.outcome(), Some(SupervisionOutcome::TimedOut));
    assert_eq!(orchestrator.child(), Some(ChildProcessHandle { pid: 99 }));
    assert_eq!(orchestrator.wait_state(), WaitState::Finished { ready: false, attempts: 3 });
    // One pre-check and three probes of the wait.
    assert_eq!(asked.probes, 4);
    assert_eq!(asked.spawns, 1);
}

#[test]
fn timeout_in_a_scripted_world() {
    let world = World {
        precheck_live: false,
        spawn_reply: SpawnReply::Started { pid: 7 },
        probes: vec![false; 40],
    };
    let report = supervise(Endpoint::default(), BACKEND.to_string(), budget(30, 1000), &world);
    assert_eq!(
        report,
        RunReport {
            outcome: SupervisionOutcome::TimedOut,
            phase: Phase::Failed,
            launch: LaunchResult::Spawned(ChildProcessHandle { pid: 7 }),
            wait: Some(WaitReport { ready: false, attempts: 30, slept_ms: 30_000 }),
            spawns: 1,
            probes: 31,
        }
    );
}

#[test]
fn running_backend_that_stops_answering_times_out() {
    let world = World {
        precheck_live: true,
        spawn_reply: SpawnReply::Started { pid: 7 },
        probes: vec![],
    };
    let report = supervise(Endpoint::default(), BACKEND.to_string(), budget(2, 5), &world);
    assert_eq!(
        report,
        RunReport {
            outcome: SupervisionOutcome::TimedOut,
            phase: Phase::Failed,
            launch: LaunchResult::Skipped,
            wait: Some(WaitReport { ready: false, attempts: 2, slept_ms: 10 }),
            spawns: 0,
            probes: 3,
        }
    );
}

#[test]
fn running_backend_is_found_without_a_spawn() {
    let mut orchestrator = orchestrator(30, 1000);
    assert_eq!(orchestrator.step(Event::Start), Action::Probe { timeout_ms: 1000 });
    assert_eq!(orchestrator.step(Event::Probed { live: true }), Action::Probe { timeout_ms: 1000 });
    assert_eq!(orchestrator.phase(), Phase::Waiting);
    assert_eq!(orchestrator.launch_state(), LaunchState::Settled(LaunchResult::Skipped));
    assert_eq!(
        orchestrator.step(Event::Probed { live: true }),
        Action::Reveal { outcome: SupervisionOutcome::AlreadyRunning }
    );
    assert_eq!(orchestrator.phase(), Phase::Ready);
    assert_eq!(orchestrator.outcome(), Some(SupervisionOutcome::AlreadyRunning));
    assert_eq!(orchestrator.child(), None);

    let world = World {
        precheck_live: true,
        spawn_reply: SpawnReply::Failed { reason: SpawnFailure::Missing },
        probes: vec![true],
    };
    let report = supervise(Endpoint::default(), BACKEND.to_string(), budget(30, 1000), &world);
    assert_eq!(
        report,
        RunReport {
            outcome: SupervisionOutcome::AlreadyRunning,
            phase: Phase::Ready,
            launch: LaunchResult::Skipped,
            wait: Some(WaitReport { ready: true, attempts: 1, slept_ms: 0 }),
            spawns: 0,
            probes: 2,
        }
    );
}

#[test]
fn spawned_backend_that_is_up_at_once_is_ready_on_attempt_one() {
    let world = World {
        precheck_live: false,
        spawn_reply: SpawnReply::Started { pid: 31337 },
        probes: vec![true],
    };
    let report = supervise(Endpoint::default(), BACKEND.to_string(), budget(30, 1000), &world);
    assert_eq!(
        report,
        RunReport {
            outcome: SupervisionOutcome::ReadyWithinBudget,
            phase: Phase::Ready,
            launch: LaunchResult::Spawned(ChildProcessHandle { pid: 31337 }),
            wait: Some(WaitReport { ready: true, attempts: 1, slept_ms: 0 }),
            spawns: 1,
            probes: 2,
        }
    );
}

#[test]
fn spawned_backend_becomes_ready_within_budget() {
    let world = World {
        precheck_live: false,
        spawn_reply: SpawnReply::Started { pid: 5 },
        probes: vec![false, false, false, true],
    };
    let report = supervise(Endpoint::default(), BACKEND.to_string(), budget(5, 1000), &world);
    assert_eq!(report.outcome, SupervisionOutcome::ReadyWithinBudget);
    assert_eq!(report.phase, Phase::Ready);
    assert_eq!(report.wait, Some(WaitReport { ready: true, attempts: 4, slept_ms: 3000 }));
    assert_eq!(report.probes, 5);
    assert_eq!(report.spawns, 1);
}

#[test]
fn stray_events_change_nothing() {
    let mut orchestrator = orchestrator(2, 10);
    for event in [
        Event::Probed { live: true },
        Event::Rested,
        Event::SpawnEnded(SpawnReply::Started { pid: 1 }),
    ] {
        assert_eq!(orchestrator.step(event), Action::Nothing);
        assert_eq!(orchestrator.phase(), Phase::Idle);
    }
    orchestrator.step(Event::Start);
    for event in [Event::Start, Event::Rested, Event::SpawnEnded(SpawnReply::Started { pid: 1 })] {
        assert_eq!(orchestrator.step(event), Action::Nothing);
        assert_eq!(orchestrator.phase(), Phase::Launching);
        assert_eq!(orchestrator.launch_state(), LaunchState::Prechecking);
    }
    orchestrator.step(Event::Probed { live: false });
    for event in [Event::Start, Event::Rested, Event::Probed { live: true }] {
        assert_eq!(orchestrator.step(event), Action::Nothing);
        assert_eq!(orchestrator.launch_state(), LaunchState::Spawning);
    }
    orchestrator.step(Event::SpawnEnded(SpawnReply::Started { pid: 1 }));
    for event in [Event::Start, Event::Rested, Event::SpawnEnded(SpawnReply::Started { pid: 2 })] {
        assert_eq!(orchestrator.step(event), Action::Nothing);
        assert_eq!(orchestrator.phase(), Phase::Waiting);
        assert_eq!(orchestrator.wait_state(), WaitState::Probing { attempt: 1 });
    }
    assert_eq!(orchestrator.child(), Some(ChildProcessHandle { pid: 1 }));
}

/// A small generator of event sequences, so that many orders are tried.
fn scrambled_events(seed: u64, len: usize) -> Vec<Event> {
    let mut state = seed.wrapping_mul(6364136223846793005).wrapping_add(1442695040888963407);
    let mut events = Vec::with_capacity(len);
    for _ in 0..len {
        state = state.wrapping_mul(6364136223846793005).wrapping_add(1442695040888963407);
        let event = match (state >> 33) % 7 {
            0 => Event::Start,
            1 => Event::Probed { live: true },
            2 | 3 => Event::Probed { live: false },
            4 => Event::SpawnEnded(SpawnReply::Started { pid: (state >> 40) as u32 }),
            5 => Event::SpawnEnded(SpawnReply::Failed { reason: SpawnFailure::Exhausted }),
            _ => Event::Rested,
        };
        events.push(event);
    }
    events
}

#[test]
fn no_order_of_events_spawns_twice_or_reveals_twice() {
    for seed in 0..500u64 {
        let max_attempts = (seed % 4) as u32 + 1;
        let mut orchestrator = orchestrator(max_attempts, 10);
        let events = scrambled_events(seed, 60);
        let (asked, actions) = feed(&mut orchestrator, &events);
        assert!(asked.spawns <= 1);
        assert!(asked.probes <= 1 + max_attempts);
        assert!(asked.rests <= max_attempts);
        assert!(asked.rested_ms as u128 <= budget(max_attempts, 10).worst_case_wait_ms());
        if orchestrator.is_terminal() {
            assert_eq!(asked.reveals.len(), 1);
            assert_eq!(Some(asked.reveals[0]), orchestrator.outcome());
            assert_ne!(asked.reveals[0], SupervisionOutcome::Started);
            let at = actions
                .iter()
                .position(|action| matches!(action, Action::Reveal { .. }))
                .expect("a reveal");
            assert!(actions[at + 1..].iter().all(|action| *action == Action::Nothing));
        } else {
            assert_eq!(asked.reveals.len(), 0);
            assert_eq!(orchestrator.outcome(), None);
        }
        if orchestrator.launch_state() == LaunchState::Settled(LaunchResult::Skipped) {
            assert_eq!(asked.spawns, 0);
        }
        match orchestrator.outcome() {
            Some(SupervisionOutcome::TimedOut) => {
                assert_eq!(asked.probes, 1 + max_attempts);
                assert_eq!(asked.rests, max_attempts);
                assert_eq!(asked.rested_ms, 10 * max_attempts as u64);
            }
            Some(SupervisionOutcome::StartFailed) => {
                assert_eq!(asked.probes, 1);
                assert_eq!(asked.rests, 0);
                assert_eq!(asked.spawns, 1);
            }
            _ => {}
        }
        match orchestrator.phase() {
            Phase::Ready => assert!(orchestrator.outcome().expect("an outcome").is_ready()),
            Phase::Failed => assert!(orchestrator.outcome().expect("an outcome").is_failed()),
            _ => {}
        }
    }
}

#[test]
fn answered_runs_end_within_three_steps_and_two_per_attempt() {
    for max_attempts in 1..6u32 {
        for precheck_live in [false, true] {
            let mut orchestrator = orchestrator(max_attempts, 1);
            let mut steps = 0u32;
            let mut action = orchestrator.step(Event::Start);
            steps += 1;
            let mut launching = true;
            loop {
                let event = match action {
                    Action::Probe { .. } if launching => {
                        launching = false;
                        Event::Probed { live: precheck_live }
                    }
                    Action::Probe { .. } => Event::Probed { live: false },
                    Action::Spawn => Event::SpawnEnded(SpawnReply::Started { pid: 1 }),
                    Action::Sleep { .. } => Event::Rested,
                    Action::Reveal { outcome } => {
                        assert_eq!(outcome, SupervisionOutcome::TimedOut);
                        break;
                    }
                    Action::Nothing => panic!("an answer was ignored"),
                };
                action = orchestrator.step(event);
                steps += 1;
            }
            assert!(orchestrator.is_terminal());
            assert!(steps <= 3 + 2 * max_attempts);
            let expected = if precheck_live { 2 } else { 3 } + 2 * max_attempts;
            assert_eq!(steps, expected);
        }
    }
}
