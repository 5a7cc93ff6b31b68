//! Whole runs of the orchestrator: what holds of every sequence of events,
//! whatever the caller reports and in whatever order.

use crate::budget::RetryBudget;
use crate::launcher::{LaunchResult, LaunchState};
use crate::orchestrator::{initial, transition, Action, Event, Phase, Supervision};
use crate::outcome::SupervisionOutcome;
use crate::waiter::WaitState;
use vstd::prelude::*;

verus! {

/// The state after `events` have been reported in order from state `s`, and
/// the actions that were asked for on the way, one per event.
pub open spec fn run(budget: RetryBudget, s: Supervision, events: Seq<Event>) -> (
    Supervision,
    Seq<Action>,
)
    decreases events.len(),
{
    if events.len() == 0 {
        (s, Seq::empty())
    } else {
        let (next, action) = transition(budget, s, events[0]);
        let (end, rest) = run(budget, next, events.drop_first());
        (end, seq![action] + rest)
    }
}

/// The number of spawns among `actions`.
pub open spec fn spawns(actions: Seq<Action>) -> nat
    decreases actions.len(),
{
    if actions.len() == 0 {
        0
    } else {
        (if actions[0] is Spawn {
            1nat
        } else {
            0nat
        }) + spawns(actions.drop_first())
    }
}

/// The number of reveals among `actions`.
pub open spec fn reveals(actions: Seq<Action>) -> nat
    decreases actions.len(),
{
    if actions.len() == 0 {
        0
    } else {
        (if actions[0] is Reveal {
            1nat
        } else {
            0nat
        }) + reveals(actions.drop_first())
    }
}

/// The number of probes among `actions`.
pub open spec fn probes(actions: Seq<Action>) -> nat
    decreases actions.len(),
{
    if actions.len() == 0 {
        0
    } else {
        (if actions[0] is Probe {
            1nat
        } else {
            0nat
        }) + probes(actions.drop_first())
    }
}

/// The time that `actions` ask to rest, in milliseconds.
pub open spec fn rest_time(actions: Seq<Action>) -> nat
    decreases actions.len(),
{
    if actions.len() == 0 {
        0
    } else {
        (match actions[0] {
            Action::Sleep { ms } => ms as nat,
            _ => 0nat,
        }) + rest_time(actions.drop_first())
    }
}

/// The outcome carried by the first reveal among `actions`, if there is one.
pub open spec fn revealed(actions: Seq<Action>) -> Option<SupervisionOutcome>
    decreases actions.len(),
{
    if actions.len() == 0 {
        None
    } else {
        match actions[0] {
            Action::Reveal { outcome } => Some(outcome),
            _ => revealed(actions.drop_first()),
        }
    }
}

/// The launch state of a backend that was found running.
pub open spec fn launch_skipped() -> LaunchState {
    LaunchState::Settled(LaunchResult::Skipped)
}

/// Whether the launch has settled on a backend to wait for.
pub open spec fn launched(launch: LaunchState) -> bool {
    launch matches LaunchState::Settled(result) && !(result is Failed)
}

/// What holds of every state that a run from the initial state passes
/// through. Each phase fixes how far the launch and the wait have come, the
/// probes never outnumber the budget, and an outcome is there exactly in
/// the terminal phases, where it agrees with the phase.
pub open spec fn consistent(budget: RetryBudget, s: Supervision) -> bool {
    match s.phase {
        Phase::Idle => s.launch is Prechecking && s.wait == (WaitState::Probing { attempt: 1 })
            && s.outcome is None,
        Phase::Launching => (s.launch is Prechecking || s.launch is Spawning) && s.wait == (
        WaitState::Probing { attempt: 1 }) && s.outcome is None,
        Phase::Waiting => launched(s.launch) && s.outcome is None && match s.wait {
            WaitState::Probing { attempt } => 1 <= attempt <= budget.attempts(),
            WaitState::Resting { attempt } => 1 <= attempt <= budget.attempts(),
            WaitState::Finished { .. } => false,
        },
        Phase::Ready => launched(s.launch) && s.outcome == Some(
            if s.launch == LaunchState::Settled(LaunchResult::Skipped) {
                SupervisionOutcome::AlreadyRunning
            } else {
                SupervisionOutcome::ReadyWithinBudget
            },
        ) && match s.wait {
            WaitState::Finished { ready, attempts } => ready && 1 <= attempts <= budget.attempts(),
            _ => false,
        },
        Phase::Failed => if launched(s.launch) {
            s.outcome == Some(SupervisionOutcome::TimedOut) && s.wait == (WaitState::Finished {
                ready: false,
                attempts: budget.attempts(),
            })
        } else {
            s.launch matches LaunchState::Settled(LaunchResult::Failed(_)) && s.outcome == Some(
                SupervisionOutcome::StartFailed,
            ) && s.wait == (WaitState::Probing { attempt: 1 })
        },
    }
}

/// The spawns that a run from `s` can still ask for.
pub open spec fn spawns_left(s: Supervision) -> nat {
    if s.phase is Idle || (s.phase is Launching && s.launch is Prechecking) {
        1
    } else {
        0
    }
}

/// The probes that a run from `s` can still ask for.
pub open spec fn probes_left(budget: RetryBudget, s: Supervision) -> nat {
    match s.phase {
        Phase::Idle => (1 + budget.attempts()) as nat,
        Phase::Launching => budget.attempts() as nat,
        Phase::Waiting => match s.wait {
            WaitState::Probing { attempt } => (budget.attempts() - attempt) as nat,
            WaitState::Resting { attempt } => (budget.attempts() - attempt) as nat,
            WaitState::Finished { .. } => 0,
        },
        _ => 0,
    }
}

/// The rests that a run from `s` can still ask for.
pub open spec fn rests_left(budget: RetryBudget, s: Supervision) -> nat {
    match s.phase {
        Phase::Idle => budget.attempts() as nat,
        Phase::Launching => budget.attempts() as nat,
        Phase::Waiting => match s.wait {
            WaitState::Probing { attempt } => (budget.attempts() - attempt + 1) as nat,
            WaitState::Resting { attempt } => (budget.attempts() - attempt) as nat,
            WaitState::Finished { .. } => 0,
        },
        _ => 0,
    }
}

/// The initial state is consistent.
pub proof fn lemma_initial_consistent(budget: RetryBudget)
    ensures
        consistent(budget, initial()),
{
}

/// Every transition keeps the state consistent.
pub proof fn lemma_transition_consistent(budget: RetryBudget, s: Supervision, event: Event)
    requires
        budget.attempts() >= 1,
        consistent(budget, s),
    ensures
        consistent(budget, transition(budget, s, event).0),
{
}

/// Every run from a consistent state ends in a consistent state and yields
/// one action per event.
pub proof fn lemma_run_consistent(budget: RetryBudget, s: Supervision, events: Seq<Event>)
    requires
        budget.attempts() >= 1,
        consistent(budget, s),
    ensures
        consistent(budget, run(budget, s, events).0),
        run(budget, s, events).1.len() == events.len(),
    decreases events.len(),
{
    if events.len() > 0 {
        lemma_transition_consistent(budget, s, events[0]);
        lemma_run_consistent(budget, transition(budget, s, events[0]).0, events.drop_first());
    }
}

/// A run asks for no more spawns than its first state leaves room for.
pub proof fn lemma_spawns_bounded(budget: RetryBudget, s: Supervision, events: Seq<Event>)
    ensures
        spawns(run(budget, s, events).1) <= spawns_left(s),
    decreases events.len(),
{
    if events.len() > 0 {
        let (next, action) = transition(budget, s, events[0]);
        let rest = run(budget, next, events.drop_first()).1;
        lemma_spawns_bounded(budget, next, events.drop_first());
        assert((seq![action] + rest).drop_first() =~= rest);
    }
}

/// Once the launch has settled, no event changes what it settled on.
pub proof fn lemma_settled_launch_stays(budget: RetryBudget, s: Supervision, events: Seq<Event>)
    requires
        s.launch is Settled,
    ensures
        run(budget, s, events).0.launch == s.launch,
    decreases events.len(),
{
    if events.len() > 0 {
        lemma_settled_launch_stays(budget, transition(budget, s, events[0]).0, events.drop_first());
    }
}

/// At most one backend process per application launch: whatever is
/// reported, and in whatever order, a run from the initial state asks for
/// at most one spawn.
pub proof fn theorem_at_most_one_spawn(budget: RetryBudget, events: Seq<Event>)
    ensures
        spawns(run(budget, initial(), events).1) <= 1,
{
    lemma_spawns_bounded(budget, initial(), events);
}

/// A backend that already answers is never joined by a second one: when
/// the pre-check finds the backend live, the launch is skipped, and no
/// spawn is asked for then or at any later event.
pub proof fn theorem_live_precheck_never_spawns(budget: RetryBudget, later: Seq<Event>)
    ensures
        ({
            let events = seq![Event::Start, Event::Probed { live: true }] + later;
            let (end, actions) = run(budget, initial(), events);
            end.launch == LaunchState::Settled(LaunchResult::Skipped) && spawns(actions) == 0
        }),
{
    let events = seq![Event::Start, Event::Probed { live: true }] + later;
    let (s1, a1) = transition(budget, initial(), events[0]);
    let (s2, a2) = transition(budget, s1, events[1]);
    let tail = run(budget, s2, later).1;
    assert(events.drop_first()[0] == events[1]);
    assert(events.drop_first().drop_first() =~= later);
    assert(run(budget, s1, events.drop_first()) == (run(budget, s2, later).0, seq![a2] + tail));
    assert(run(budget, initial(), events).1 == seq![a1] + (seq![a2] + tail));
    assert((seq![a1] + (seq![a2] + tail)).drop_first() =~= seq![a2] + tail);
    assert((seq![a2] + tail).drop_first() =~= tail);
    assert(spawns(seq![a2] + tail) == spawns(tail));
    lemma_spawns_bounded(budget, s2, later);
    lemma_settled_launch_stays(budget, s2, later);
}

/// A terminal state is left by no event and asks for nothing any more.
pub proof fn lemma_terminal_is_final(budget: RetryBudget, s: Supervision, events: Seq<Event>)
    requires
        s.phase.terminal(),
    ensures
        run(budget, s, events).0 == s,
        forall|i: int|
            0 <= i < run(budget, s, events).1.len() ==> #[trigger] run(budget, s, events).1[i]
                is Nothing,
        reveals(run(budget, s, events).1) == 0,
        revealed(run(budget, s, events).1) is None,
        run(budget, s, events).1.len() == events.len(),
    decreases events.len(),
{
    if events.len() > 0 {
        let (next, action) = transition(budget, s, events[0]);
        let rest = run(budget, next, events.drop_first()).1;
        lemma_terminal_is_final(budget, next, events.drop_first());
        assert((seq![action] + rest).drop_first() =~= rest);
    }
}

/// A run asks for the reveal exactly when it enters a terminal phase, and
/// the reveal carries the outcome that the state then holds.
pub proof fn lemma_reveals_counted(budget: RetryBudget, s: Supervision, events: Seq<Event>)
    requires
        !s.phase.terminal(),
    ensures
        ({
            let (end, actions) = run(budget, s, events);
            &&& actions.len() == events.len()
            &&& reveals(actions) == (if end.phase.terminal() {
                1nat
            } else {
                0nat
            })
            &&& end.phase.terminal() ==> revealed(actions) == end.outcome
            &&& !end.phase.terminal() ==> revealed(actions) is None
            &&& forall|i: int, j: int|
                0 <= i < j < actions.len() && #[trigger] actions[i] is Reveal
                    ==> #[trigger] actions[j] is Nothing
        }),
    decreases events.len(),
{
    if events.len() > 0 {
        let (next, action) = transition(budget, s, events[0]);
        let (end, rest) = run(budget, next, events.drop_first());
        let actions = seq![action] + rest;
        assert(actions.drop_first() =~= rest);
        if next.phase.terminal() {
            lemma_terminal_is_final(budget, next, events.drop_first());
            assert(action is Reveal);
        } else {
            lemma_reveals_counted(budget, next, events.drop_first());
            assert(!(action is Reveal));
        }
        assert forall|i: int, j: int|
            0 <= i < j < actions.len() && #[trigger] actions[i] is Reveal implies #[trigger] actions[j]
            is Nothing by {
            assert(actions[j] == rest[j - 1]);
            if i > 0 {
                assert(actions[i] == rest[i - 1]);
            }
        }
    }
}

/// The interface is revealed exactly once, and never early: a run from the
/// initial state asks for one reveal if it has reached a terminal phase and
/// for none if it has not. The reveal carries the outcome that the final
/// state holds, and every action after it asks for nothing.
pub proof fn theorem_reveal_exactly_once(budget: RetryBudget, events: Seq<Event>)
    requires
        budget.attempts() >= 1,
    ensures
        ({
            let (end, actions) = run(budget, initial(), events);
            &&& reveals(actions) == (if end.phase.terminal() {
                1nat
            } else {
                0nat
            })
            &&& revealed(actions) == end.outcome
            &&& end.outcome is Some <==> end.phase.terminal()
            &&& forall|i: int, j: int|
                0 <= i < j < actions.len() && #[trigger] actions[i] is Reveal
                    ==> #[trigger] actions[j] is Nothing
        }),
{
    lemma_reveals_counted(budget, initial(), events);
    lemma_run_consistent(budget, initial(), events);
}

/// The outcome agrees with the phase in which the run ended. A run that
/// ends ready found the backend already running or ready within the
/// budget; one that ends failed could not start it or timed out. A failed
/// start is never waited on, and a timeout comes only after every probe of
/// the budget was made.
pub proof fn theorem_outcome_matches_phase(budget: RetryBudget, events: Seq<Event>)
    requires
        budget.attempts() >= 1,
    ensures
        ({
            let end = run(budget, initial(), events).0;
            &&& end.phase is Ready <==> (end.outcome matches Some(o) && o.ready())
            &&& end.phase is Failed <==> (end.outcome matches Some(o) && o.failed())
            &&& end.outcome == Some(SupervisionOutcome::AlreadyRunning) ==> end.launch
                == LaunchState::Settled(LaunchResult::Skipped)
            &&& end.outcome == Some(SupervisionOutcome::StartFailed) ==> end.wait == (
            WaitState::Probing { attempt: 1 })
            &&& end.outcome == Some(SupervisionOutcome::TimedOut) ==> end.wait == (
            WaitState::Finished { ready: false, attempts: budget.attempts() })
        }),
{
    lemma_run_consistent(budget, initial(), events);
}

/// A run asks for no more probes than its first state leaves room for.
pub proof fn lemma_probes_bounded(budget: RetryBudget, s: Supervision, events: Seq<Event>)
    requires
        budget.attempts() >= 1,
        consistent(budget, s),
    ensures
        probes(run(budget, s, events).1) <= probes_left(budget, s),
    decreases events.len(),
{
    if events.len() > 0 {
        let (next, action) = transition(budget, s, events[0]);
        let rest = run(budget, next, events.drop_first()).1;
        lemma_transition_consistent(budget, s, events[0]);
        lemma_probes_bounded(budget, next, events.drop_first());
        assert((seq![action] + rest).drop_first() =~= rest);
    }
}

/// A run rests for no longer than its first state leaves room for.
pub proof fn lemma_rest_bounded(budget: RetryBudget, s: Supervision, events: Seq<Event>)
    requires
        budget.attempts() >= 1,
        consistent(budget, s),
    ensures
        rest_time(run(budget, s, events).1) <= rests_left(budget, s) * budget.interval(),
    decreases events.len(),
{
    if events.len() > 0 {
        let (next, action) = transition(budget, s, events[0]);
        let rest = run(budget, next, events.drop_first()).1;
        lemma_transition_consistent(budget, s, events[0]);
        lemma_rest_bounded(budget, next, events.drop_first());
        assert((seq![action] + rest).drop_first() =~= rest);
        let before = rests_left(budget, s);
        let after = rests_left(budget, next);
        let interval = budget.interval();
        if action is Sleep {
            assert(after * interval + interval == before * interval) by (nonlinear_arith)
                requires
                    after + 1 == before,
            ;
        } else {
            assert(after * interval <= before * interval) by (nonlinear_arith)
                requires
                    after <= before,
                    interval >= 0,
            ;
        }
    }
}

/// The wait is bounded: whatever is reported, a run from the initial state
/// asks for at most one probe more than the budget allows attempts, the
/// one more being the launcher's pre-check, and rests for no longer than
/// the budget's attempts times its interval.
pub proof fn theorem_probes_and_rest_bounded(budget: RetryBudget, events: Seq<Event>)
    requires
        budget.attempts() >= 1,
    ensures
        probes(run(budget, initial(), events).1) <= 1 + budget.attempts(),
        rest_time(run(budget, initial(), events).1) <= budget.worst_case_wait(),
{
    lemma_probes_bounded(budget, initial(), events);
    lemma_rest_bounded(budget, initial(), events);
}

/// Whether `event` is the report that state `s` is waiting for.
pub open spec fn answers(s: Supervision, event: Event) -> bool {
    match s.phase {
        Phase::Idle => event is Start,
        Phase::Launching => match s.launch {
            LaunchState::Prechecking => event is Probed,
            LaunchState::Spawning => event is SpawnEnded,
            LaunchState::Settled(_) => false,
        },
        Phase::Waiting => match s.wait {
            WaitState::Probing { .. } => event is Probed,
            WaitState::Resting { .. } => event is Rested,
            WaitState::Finished { .. } => false,
        },
        _ => false,
    }
}

/// Whether, on a run from `s`, each of `events` answers what was asked
/// before it, up to the point where a terminal phase is reached.
pub open spec fn well_answered(budget: RetryBudget, s: Supervision, events: Seq<Event>) -> bool
    decreases events.len(),
{
    s.phase.terminal() || events.len() == 0 || (answers(s, events[0]) && well_answered(
        budget,
        transition(budget, s, events[0]).0,
        events.drop_first(),
    ))
}

/// The number of answers after which a run from `s` has ended at the
/// latest.
pub open spec fn steps_left(budget: RetryBudget, s: Supervision) -> nat {
    match s.phase {
        Phase::Idle => (3 + 2 * budget.attempts()) as nat,
        Phase::Launching => match s.launch {
            LaunchState::Prechecking => (2 + 2 * budget.attempts()) as nat,
            _ => (1 + 2 * budget.attempts()) as nat,
        },
        Phase::Waiting => match s.wait {
            WaitState::Probing { attempt } => (2 * (budget.attempts() - attempt) + 2) as nat,
            WaitState::Resting { attempt } => (2 * (budget.attempts() - attempt) + 1) as nat,
            WaitState::Finished { .. } => 0,
        },
        _ => 0,
    }
}

/// Every answer brings the end nearer.
pub proof fn lemma_answer_makes_progress(budget: RetryBudget, s: Supervision, event: Event)
    requires
        budget.attempts() >= 1,
        consistent(budget, s),
        !s.phase.terminal(),
        answers(s, event),
    ensures
        steps_left(budget, transition(budget, s, event).0) < steps_left(budget, s),
{
}

/// A well-answered run from `s` that is at least as long as `s` leaves
/// steps has ended.
pub proof fn lemma_enough_answers_end(budget: RetryBudget, s: Supervision, events: Seq<Event>)
    requires
        budget.attempts() >= 1,
        consistent(budget, s),
        well_answered(budget, s, events),
        events.len() >= steps_left(budget, s),
    ensures
        run(budget, s, events).0.phase.terminal(),
    decreases events.len(),
{
    if s.phase.terminal() {
        lemma_terminal_is_final(budget, s, events);
    } else {
        assert(steps_left(budget, s) > 0);
        let next = transition(budget, s, events[0]).0;
        lemma_answer_makes_progress(budget, s, events[0]);
        lemma_transition_consistent(budget, s, events[0]);
        lemma_enough_answers_end(budget, next, events.drop_first());
    }
}

/// The interface is always revealed in the end, whatever the backend does:
/// once the caller has answered what was asked three times and twice for
/// each attempt of the budget, the run has reached a terminal phase and
/// has asked for the reveal exactly once.
pub proof fn theorem_always_reveals(budget: RetryBudget, events: Seq<Event>)
    requires
        budget.attempts() >= 1,
        well_answered(budget, initial(), events),
        events.len() >= 3 + 2 * budget.attempts(),
    ensures
        run(budget, initial(), events).0.phase.terminal(),
        reveals(run(budget, initial(), events).1) == 1,
{
    lemma_enough_answers_end(budget, initial(), events);
    lemma_reveals_counted(budget, initial(), events);
}

/// At most one supervision sequence per application launch: once a
/// sequence has been started, a further `Start` changes nothing and asks
/// for nothing.
pub proof fn theorem_start_only_once(budget: RetryBudget, s: Supervision)
    requires
        !(s.phase is Idle),
    ensures
        transition(budget, s, Event::Start) == (s, Action::Nothing),
{
}

/// Once a spawn has been asked for, the launch never settles on skipped.
pub proof fn lemma_spawning_never_skips(budget: RetryBudget, s: Supervision, events: Seq<Event>)
    requires
        s.launch != launch_skipped(),
        !(s.launch is Prechecking),
    ensures
        run(budget, s, events).0.launch != launch_skipped(),
    decreases events.len(),
{
    if events.len() > 0 {
        lemma_spawning_never_skips(budget, transition(budget, s, events[0]).0, events.drop_first());
    }
}

/// A run whose launch was skipped has asked for no spawn.
pub proof fn lemma_skipped_launch_spawned_nothing(
    budget: RetryBudget,
    s: Supervision,
    events: Seq<Event>,
)
    requires
        run(budget, s, events).0.launch == launch_skipped(),
    ensures
        spawns(run(budget, s, events).1) == 0,
    decreases events.len(),
{
    if events.len() > 0 {
        let (next, action) = transition(budget, s, events[0]);
        let rest = run(budget, next, events.drop_first()).1;
        assert((seq![action] + rest).drop_first() =~= rest);
        if action is Spawn {
            lemma_spawning_never_skips(budget, next, events.drop_first());
        } else {
            lemma_skipped_launch_spawned_nothing(budget, next, events.drop_first());
        }
    }
}

/// No second backend beside one that answers: whatever is reported, and in
/// whatever order, a run from the initial state whose launch was skipped
/// has asked for no spawn at all.
pub proof fn theorem_skipped_launch_never_spawns(budget: RetryBudget, events: Seq<Event>)
    requires
        run(budget, initial(), events).0.launch == launch_skipped(),
    ensures
        spawns(run(budget, initial(), events).1) == 0,
{
    lemma_skipped_launch_spawned_nothing(budget, initial(), events);
}

/// A run that ends in a timeout has, from `s` on, asked for every probe
/// and every rest that `s` left room for.
pub proof fn lemma_timeout_uses_what_is_left(budget: RetryBudget, s: Supervision, events: Seq<Event>)
    requires
        budget.attempts() >= 1,
        consistent(budget, s),
        run(budget, s, events).0.outcome == Some(SupervisionOutcome::TimedOut),
    ensures
        probes(run(budget, s, events).1) == probes_left(budget, s),
        rest_time(run(budget, s, events).1) == rests_left(budget, s) * budget.interval(),
    decreases events.len(),
{
    if s.phase.terminal() {
        lemma_terminal_is_final(budget, s, events);
        lemma_nothing_asked_counts_nothing(run(budget, s, events).1);
    } else {
        assert(events.len() > 0);
        let (next, action) = transition(budget, s, events[0]);
        let rest = run(budget, next, events.drop_first()).1;
        assert((seq![action] + rest).drop_first() =~= rest);
        lemma_transition_consistent(budget, s, events[0]);
        lemma_timeout_uses_what_is_left(budget, next, events.drop_first());
        if next.phase.terminal() {
            lemma_terminal_is_final(budget, next, events.drop_first());
        }
        let before = rests_left(budget, s);
        let after = rests_left(budget, next);
        let interval = budget.interval();
        if action is Sleep {
            assert(after * interval + interval == before * interval) by (nonlinear_arith)
                requires
                    after + 1 == before,
            ;
        } else if !next.phase.terminal() {
            assert(after == before);
        } else {
            assert(before == 0);
            assert(before * interval == 0) by (nonlinear_arith)
                requires
                    before == 0,
            ;
        }
    }
}

/// Actions that all ask for nothing hold no probe, no spawn and no rest.
pub proof fn lemma_nothing_asked_counts_nothing(actions: Seq<Action>)
    requires
        forall|i: int| 0 <= i < actions.len() ==> #[trigger] actions[i] is Nothing,
    ensures
        probes(actions) == 0,
        spawns(actions) == 0,
        rest_time(actions) == 0,
    decreases actions.len(),
{
    if actions.len() > 0 {
        assert(actions[0] is Nothing);
        assert forall|i: int| 0 <= i < actions.drop_first().len() implies #[trigger] actions.drop_first()[i]
            is Nothing by {
            assert(actions.drop_first()[i] == actions[i + 1]);
        }
        lemma_nothing_asked_counts_nothing(actions.drop_first());
    }
}

/// A timeout is revealed only after the full budget has elapsed: a run
/// from the initial state that ends in a timeout has asked for the
/// pre-check and for every probe that the budget allows, and has rested for
/// the budget's attempts times its interval, no less.
pub proof fn theorem_timeout_takes_full_budget(budget: RetryBudget, events: Seq<Event>)
    requires
        budget.attempts() >= 1,
        run(budget, initial(), events).0.outcome == Some(SupervisionOutcome::TimedOut),
    ensures
        probes(run(budget, initial(), events).1) == 1 + budget.attempts(),
        rest_time(run(budget, initial(), events).1) == budget.worst_case_wait(),
{
    lemma_timeout_uses_what_is_left(budget, initial(), events);
}

/// A run that ends in a failed start has never waited: from `s` on it has
/// asked for no rest, and for no probe but the pre-check.
pub proof fn lemma_failed_start_never_waits(budget: RetryBudget, s: Supervision, events: Seq<Event>)
    requires
        budget.attempts() >= 1,
        consistent(budget, s),
        run(budget, s, events).0.outcome == Some(SupervisionOutcome::StartFailed),
    ensures
        rest_time(run(budget, s, events).1) == 0,
        probes(run(budget, s, events).1) == (if s.phase is Idle {
            1nat
        } else {
            0nat
        }),
    decreases events.len(),
{
    if s.phase.terminal() {
        lemma_terminal_is_final(budget, s, events);
        lemma_nothing_asked_counts_nothing(run(budget, s, events).1);
    } else if s.phase is Waiting {
        lemma_settled_launch_stays(budget, s, events);
        lemma_run_consistent(budget, s, events);
    } else {
        assert(events.len() > 0);
        let (next, action) = transition(budget, s, events[0]);
        let rest = run(budget, next, events.drop_first()).1;
        assert((seq![action] + rest).drop_first() =~= rest);
        lemma_transition_consistent(budget, s, events[0]);
        if next.phase is Waiting {
            lemma_settled_launch_stays(budget, next, events.drop_first());
            lemma_run_consistent(budget, next, events.drop_first());
        } else {
            lemma_failed_start_never_waits(budget, next, events.drop_first());
        }
    }
}

/// A failed start leaves no worker waiting: a run from the initial state
/// that ends in a failed start has asked for the pre-check and one spawn,
/// and for no further probe and no rest.
pub proof fn theorem_failed_start_never_waits(budget: RetryBudget, events: Seq<Event>)
    requires
        budget.attempts() >= 1,
        run(budget, initial(), events).0.outcome == Some(SupervisionOutcome::StartFailed),
    ensures
        probes(run(budget, initial(), events).1) == 1,
        rest_time(run(budget, initial(), events).1) == 0,
        spawns(run(budget, initial(), events).1) <= 1,
{
    lemma_failed_start_never_waits(budget, initial(), events);
    lemma_spawns_bounded(budget, initial(), events);
}

} // verus!
