use desktop_shell::budget::{RetryBudget, DEFAULT_INTERVAL_MS, DEFAULT_MAX_ATTEMPTS};
use desktop_shell::probe::{ConnectAttempt, PROBE_TIMEOUT_MS};
use desktop_shell::waiter::{wait_ready, WaitAction, WaitEvent, WaitReport, WaitState, Waiter};

fn budget(max_attempts: u32, interval_ms: u64) -> RetryBudget {
    RetryBudget::new(max_attempts, interval_ms).expect("a budget with at least one attempt")
}

/// Drives a waiter against an endpoint that opens at `opens_at_ms`, with
/// probes that take `probe_ms` each, and returns the report and the number
/// of probes and rests that were made.
fn wait_against_clock(
    budget: RetryBudget,
    opens_at_ms: Option<u64>,
    probe_ms: u64,
) -> (bool, u32, u32, u64) {
    let mut waiter = Waiter::new(budget);
    let mut clock: u64 = 0;
    let mut probes: u32 = 1;
    let mut rests: u32 = 0;
    loop {
        let live = match opens_at_ms {
            Some(at) => clock >= at,
            None => false,
        };
        clock += probe_ms;
        match waiter.step(WaitEvent::Probed { live }) {
            WaitAction::Finish { ready } => return (ready, probes, rests, clock),
            WaitAction::Sleep { ms } => {
                clock += ms;
                rests += 1;
            }
            other => panic!("a probe was answered with {:?}", other),
        }
        match waiter.step(WaitEvent::Rested) {
            WaitAction::Probe { timeout_ms } => {
                assert_eq!(timeout_ms, PROBE_TIMEOUT_MS);
                probes += 1;
            }
            WaitAction::Finish { ready } => return (ready, probes, rests, clock),
            other => panic!("a rest was answered with {:?}", other),
        }
    }
}

#[test]
fn budget_needs_at_least_one_attempt() {
    assert!(RetryBudget::new(0, 1000).is_none());
    assert!(RetryBudget::new(0, 0).is_none());
    let one = RetryBudget::new(1, 0).expect("one attempt is allowed");
    assert_eq!(one.max_attempts(), 1);
    assert_eq!(one.interval_ms(), 0);
}

#[test]
fn default_budget_is_thirty_attempts_one_second_apart() {
    let budget = RetryBudget::default();
    assert_eq!(budget.max_attempts(), 30);
    assert_eq!(budget.interval_ms(), 1000);
    assert_eq!(DEFAULT_MAX_ATTEMPTS, 30);
    assert_eq!(DEFAULT_INTERVAL_MS, 1000);
    assert_eq!(budget.worst_case_wait_ms(), 30_000);
}

#[test]
fn worst_case_wait_is_attempts_times_interval() {
    assert_eq!(budget(3, 0).worst_case_wait_ms(), 0);
    assert_eq!(budget(5, 1000).worst_case_wait_ms(), 5000);
    assert_eq!(budget(7, 250).worst_case_wait_ms(), 1750);
    assert_eq!(
        budget(u32::MAX, u64::MAX).worst_case_wait_ms(),
        (u32::MAX as u128) * (u64::MAX as u128)
    );
}

#[test]
fn only_a_connection_counts_as_live() {
    assert!(ConnectAttempt::Connected.is_live());
    assert!(!ConnectAttempt::Refused.is_live());
    assert!(!ConnectAttempt::TimedOut.is_live());
    assert!(!ConnectAttempt::Failed.is_live());
    assert_eq!(PROBE_TIMEOUT_MS, 1000);
}

#[test]
fn closed_endpoint_is_probed_exactly_three_times() {
    let report = wait_ready(budget(3, 0), &vec![]);
    assert_eq!(report, WaitReport { ready: false, attempts: 3, slept_ms: 0 });
    let report = wait_ready(budget(3, 0), &vec![false, false, false, true]);
    assert_eq!(report, WaitReport { ready: false, attempts: 3, slept_ms: 0 });

    let (ready, probes, rests, clock) = wait_against_clock(budget(3, 0), None, 0);
    assert!(!ready);
    assert_eq!(probes, 3);
    assert_eq!(rests, 3);
    assert_eq!(clock, 0);
}

#[test]
fn closed_endpoint_exhausts_the_default_budget() {
    let report = wait_ready(RetryBudget::default(), &vec![false; 64]);
    assert_eq!(report, WaitReport { ready: false, attempts: 30, slept_ms: 30_000 });
}

#[test]
fn first_probe_can_succeed() {
    let report = wait_ready(budget(30, 1000), &vec![true]);
    assert_eq!(report, WaitReport { ready: true, attempts: 1, slept_ms: 0 });
}

#[test]
fn readiness_is_found_on_the_first_live_probe() {
    let report = wait_ready(budget(5, 1000), &vec![false, false, true, false, true]);
    assert_eq!(report, WaitReport { ready: true, attempts: 3, slept_ms: 2000 });
    let report = wait_ready(budget(5, 1000), &vec![false, false, false, false, true]);
    assert_eq!(report, WaitReport { ready: true, attempts: 5, slept_ms: 4000 });
    let report = wait_ready(budget(5, 1000), &vec![false, false, false, false, false, true]);
    assert_eq!(report, WaitReport { ready: false, attempts: 5, slept_ms: 5000 });
}

#[test]
fn endpoint_opening_after_two_and_a_half_seconds() {
    // Probes that take no time fire at 0, 1, 2 and 3 seconds.
    let (ready, probes, rests, _) = wait_against_clock(budget(5, 1000), Some(2500), 0);
    assert!(ready);
    assert_eq!(probes, 4);
    assert_eq!(rests, 3);
    // Probes that take half a second fire at 0, 1.5 and 3 seconds.
    let (ready, probes, _, _) = wait_against_clock(budget(5, 1000), Some(2500), 500);
    assert!(ready);
    assert_eq!(probes, 3);
    // However long a probe takes, up to its timeout, it is attempt 3 or 4.
    for probe_ms in [0, 100, 250, 499, 500, 750, 1000] {
        let (ready, probes, _, _) = wait_against_clock(budget(5, 1000), Some(2500), probe_ms);
        assert!(ready);
        assert!(probes == 3 || probes == 4, "found on attempt {}", probes);
    }
}

#[test]
fn timed_out_wait_rests_for_the_whole_budget() {
    let (ready, probes, rests, clock) = wait_against_clock(budget(4, 250), None, 0);
    assert!(!ready);
    assert_eq!(probes, 4);
    assert_eq!(rests, 4);
    assert_eq!(clock, 1000);
}

#[test]
fn waiter_walks_through_its_states() {
    let mut waiter = Waiter::new(budget(2, 10));
    assert_eq!(waiter.state(), WaitState::Probing { attempt: 1 });
    assert_eq!(waiter.budget(), budget(2, 10));
    assert_eq!(waiter.step(WaitEvent::Probed { live: false }), WaitAction::Sleep { ms: 10 });
    assert_eq!(waiter.state(), WaitState::Resting { attempt: 1 });
    assert_eq!(waiter.step(WaitEvent::Rested), WaitAction::Probe { timeout_ms: 1000 });
    assert_eq!(waiter.state(), WaitState::Probing { attempt: 2 });
    assert_eq!(waiter.step(WaitEvent::Probed { live: false }), WaitAction::Sleep { ms: 10 });
    assert_eq!(waiter.step(WaitEvent::Rested), WaitAction::Finish { ready: false });
    assert_eq!(waiter.state(), WaitState::Finished { ready: false, attempts: 2 });
}

#[test]
fn waiter_ignores_what_it_did_not_ask_for() {
    let mut waiter = Waiter::new(budget(2, 10));
    assert_eq!(waiter.step(WaitEvent::Rested), WaitAction::Nothing);
    assert_eq!(waiter.state(), WaitState::Probing { attempt: 1 });
    assert_eq!(waiter.step(WaitEvent::Probed { live: false }), WaitAction::Sleep { ms: 10 });
    assert_eq!(waiter.step(WaitEvent::Probed { live: true }), WaitAction::Nothing);
    assert_eq!(waiter.state(), WaitState::Resting { attempt: 1 });
    assert_eq!(waiter.step(WaitEvent::Rested), WaitAction::Probe { timeout_ms: 1000 });
    assert_eq!(waiter.step(WaitEvent::Probed { live: true }), WaitAction::Finish { ready: true });
    assert_eq!(waiter.state(), WaitState::Finished { ready: true, attempts: 2 });
    assert_eq!(waiter.step(WaitEvent::Probed { live: true }), WaitAction::Nothing);
    assert_eq!(waiter.step(WaitEvent::Rested), WaitAction::Nothing);
    assert_eq!(waiter.state(), WaitState::Finished { ready: true, attempts: 2 });
}
