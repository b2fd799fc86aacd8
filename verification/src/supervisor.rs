//! The restart loop of one supervised unit, as a state machine.
//!
//! A supervisor never touches the operating system. Each call of
//! [`Supervisor::step`] takes what the caller observed (the shutdown signal
//! and the outcome of the action it was last asked to perform) and answers
//! with the next action. The caller performs it and comes back.

use vstd::prelude::*;

verus! {

/// Time between two polls of a unit, in milliseconds.
pub const POLL_PERIOD_MS: u64 = 100;

/// Where a supervisor stands in its loop.
#[derive(Debug, Clone, Copy, PartialEq, Eq, Structural)]
pub enum Phase {
    /// Nothing was asked of the caller yet.
    Created,
    /// The start on entry was asked for and not yet answered.
    StartingAtEntry,
    /// A start inside the loop was asked for and not yet answered.
    Restarting,
    /// A poll of the live handle was asked for and not yet answered.
    Polling,
    /// The pause between two cycles was asked for and not yet over.
    Sleeping,
    /// The stop of the live handle was asked for and not yet answered.
    Stopping,
    /// The shutdown signal was seen and the handle, if any, let go.
    Finished,
}

/// What the caller reports to a supervisor.
#[derive(Debug, Clone, Copy, PartialEq, Eq, Structural)]
pub enum Event {
    /// The pause is over; also the event to begin with.
    Woke,
    /// A start succeeded; the number identifies the new handle.
    Started(u32),
    /// A start failed.
    StartFailed,
    /// A poll found the worker alive.
    StillRunning,
    /// A poll found that the worker has exited, with whatever code.
    Exited,
    /// A poll could not tell.
    PollFailed,
    /// A stop succeeded.
    Stopped,
    /// A stop failed.
    StopFailed,
}

/// What a supervisor asks of the caller.
#[derive(Debug, Clone, Copy, PartialEq, Eq, Structural)]
pub enum Action {
    /// Start a worker from the unit's descriptor.
    Start,
    /// Ask the live handle, without blocking, whether the worker has exited.
    Poll,
    /// Ask the live handle to stop, without waiting for the exit.
    Stop,
    /// Pause for that many milliseconds.
    Sleep(u64),
    /// Leave the loop: the supervisor is done.
    Finish,
}

/// Mathematical state of a supervisor.
pub ghost struct UnitState {
    pub phase: Phase,
    pub handle: Option<u32>,
}

impl UnitState {
    /// The state before the first step.
    pub open spec fn fresh() -> UnitState {
        UnitState { phase: Phase::Created, handle: None }
    }

    /// The phase and the handle agree: a poll or a stop is outstanding only
    /// on a live handle, and no handle is held while one is being started,
    /// before the first step, or after the last.
    pub open spec fn wf(self) -> bool {
        match self.phase {
            Phase::Created | Phase::StartingAtEntry | Phase::Restarting | Phase::Finished => self.handle is None,
            Phase::Polling | Phase::Stopping => self.handle is Some,
            Phase::Sleeping => true,
        }
    }

    /// The shutdown signal was seen: the unit is stopping or has finished.
    pub open spec fn shutting_down(self) -> bool {
        self.phase == Phase::Stopping || self.phase == Phase::Finished
    }
}

/// Whether `event` is an answer to the action that is outstanding in `phase`.
pub open spec fn answers(phase: Phase, event: Event) -> bool {
    match phase {
        Phase::Created | Phase::Finished => true,
        Phase::StartingAtEntry | Phase::Restarting => event is Started || event == Event::StartFailed,
        Phase::Polling => event == Event::StillRunning || event == Event::Exited || event == Event::PollFailed,
        Phase::Sleeping => event == Event::Woke,
        Phase::Stopping => event == Event::Stopped || event == Event::StopFailed,
    }
}

/// The action that is outstanding in `phase`: what is asked again when the
/// caller reports something that answers nothing.
pub open spec fn pending(phase: Phase) -> Action {
    match phase {
        Phase::Created | Phase::StartingAtEntry | Phase::Restarting => Action::Start,
        Phase::Polling => Action::Poll,
        Phase::Sleeping => Action::Sleep(POLL_PERIOD_MS),
        Phase::Stopping => Action::Stop,
        Phase::Finished => Action::Finish,
    }
}

/// Whether a unit that holds `handle` and is told `polled` is without a
/// worker: it has no handle, or the worker has exited, or the poll failed.
pub open spec fn worker_gone(handle: Option<u32>, polled: Event) -> bool {
    handle is None || polled == Event::Exited || polled == Event::PollFailed
}

/// The decision at the top of a cycle, for a unit that holds `handle`.
///
/// A raised shutdown signal comes first: the handle is stopped if there is
/// one, and the loop ends. Otherwise an enabled unit polls its handle, or
/// starts one if it has none; a disabled unit only sleeps.
pub open spec fn cycle(handle: Option<u32>, enabled: bool, shutdown: bool) -> (UnitState, Action) {
    if shutdown {
        if handle is Some {
            (UnitState { phase: Phase::Stopping, handle }, Action::Stop)
        } else {
            (UnitState { phase: Phase::Finished, handle: None }, Action::Finish)
        }
    } else if enabled {
        if handle is Some {
            (UnitState { phase: Phase::Polling, handle }, Action::Poll)
        } else {
            (UnitState { phase: Phase::Restarting, handle: None }, Action::Start)
        }
    } else {
        (UnitState { phase: Phase::Sleeping, handle }, Action::Sleep(POLL_PERIOD_MS))
    }
}

/// One step of the restart loop: the state after `event`, and the action
/// asked for next.
///
/// `enabled` is the unit's descriptor as it stands now, `shutdown` the
/// shutdown signal as the caller read it for this step. The signal is
/// looked at only at the top of a cycle. An event that does not answer the
/// outstanding action leaves the state as it is and has that action asked
/// again; only a start is not asked again of a unit that has been disabled
/// in the meantime.
pub open spec fn next(s: UnitState, enabled: bool, shutdown: bool, event: Event) -> (UnitState, Action) {
    match s.phase {
        Phase::Created => {
            if enabled {
                (UnitState { phase: Phase::StartingAtEntry, handle: None }, Action::Start)
            } else {
                cycle(s.handle, enabled, shutdown)
            }
        },
        Phase::StartingAtEntry => match event {
            Event::Started(id) => cycle(Some(id), enabled, shutdown),
            Event::StartFailed => cycle(None, enabled, shutdown),
            _ => if enabled {
                (s, pending(s.phase))
            } else {
                (UnitState { phase: Phase::Sleeping, handle: None }, Action::Sleep(POLL_PERIOD_MS))
            },
        },
        Phase::Restarting => match event {
            Event::Started(id) => (
                UnitState { phase: Phase::Sleeping, handle: Some(id) },
                Action::Sleep(POLL_PERIOD_MS),
            ),
            Event::StartFailed => (
                UnitState { phase: Phase::Sleeping, handle: None },
                Action::Sleep(POLL_PERIOD_MS),
            ),
            _ => if enabled {
                (s, pending(s.phase))
            } else {
                (UnitState { phase: Phase::Sleeping, handle: None }, Action::Sleep(POLL_PERIOD_MS))
            },
        },
        Phase::Polling => match event {
            Event::StillRunning => (
                UnitState { phase: Phase::Sleeping, handle: s.handle },
                Action::Sleep(POLL_PERIOD_MS),
            ),
            Event::Exited | Event::PollFailed => if enabled {
                (UnitState { phase: Phase::Restarting, handle: None }, Action::Start)
            } else {
                (UnitState { phase: Phase::Sleeping, handle: None }, Action::Sleep(POLL_PERIOD_MS))
            },
            _ => (s, pending(s.phase)),
        },
        Phase::Sleeping => match event {
            Event::Woke => cycle(s.handle, enabled, shutdown),
            _ => (s, pending(s.phase)),
        },
        Phase::Stopping => match event {
            Event::Stopped | Event::StopFailed => (
                UnitState { phase: Phase::Finished, handle: None },
                Action::Finish,
            ),
            _ => (s, pending(s.phase)),
        },
        Phase::Finished => (s, pending(s.phase)),
    }
}

/// What the caller hands to one step.
pub ghost struct Input {
    pub enabled: bool,
    pub shutdown: bool,
    pub event: Event,
}

/// The state that `inputs`, taken in order, lead to from `s`.
pub open spec fn run(s: UnitState, inputs: Seq<Input>) -> UnitState
    decreases inputs.len(),
{
    if inputs.len() == 0 {
        s
    } else {
        let last = inputs.last();
        next(run(s, inputs.drop_last()), last.enabled, last.shutdown, last.event).0
    }
}

/// The action that step `at` of the run asks for.
pub open spec fn action_at(s: UnitState, inputs: Seq<Input>, at: int) -> Action
    recommends
        0 <= at < inputs.len(),
{
    let input = inputs[at];
    next(run(s, inputs.take(at)), input.enabled, input.shutdown, input.event).1
}

/// An upper bound on the steps that a unit in `phase` still takes once the
/// shutdown signal is raised and every action is answered.
pub open spec fn steps_to_finish(phase: Phase) -> nat {
    match phase {
        Phase::Finished => 0,
        Phase::Stopping => 1,
        Phase::Sleeping | Phase::StartingAtEntry => 2,
        Phase::Restarting | Phase::Created => 3,
        Phase::Polling => 4,
    }
}

/// A run of `at + 1` inputs is the run of the first `at`, then one step.
pub proof fn lemma_run_unfolds(s: UnitState, inputs: Seq<Input>, at: int)
    requires
        0 <= at < inputs.len(),
    ensures
        run(s, inputs.take(at + 1)) == next(
            run(s, inputs.take(at)),
            inputs[at].enabled,
            inputs[at].shutdown,
            inputs[at].event,
        ).0,
        run(s, inputs.take(0)) == s,
{
    assert(inputs.take(at + 1).drop_last() =~= inputs.take(at));
    assert(inputs.take(at + 1).last() == inputs[at]);
}

/// A step keeps phase and handle in agreement. It asks for a start only of
/// an enabled unit that holds no handle, so a unit never has two at a time,
/// and it takes up a handle only as the answer to a start.
pub proof fn law_step_keeps_one_handle(s: UnitState, enabled: bool, shutdown: bool, event: Event)
    requires
        s.wf(),
    ensures
        next(s, enabled, shutdown, event).0.wf(),
        next(s, enabled, shutdown, event).1 == Action::Start ==> enabled && next(
            s,
            enabled,
            shutdown,
            event,
        ).0.handle is None,
        next(s, enabled, shutdown, event).0.handle is Some ==> next(s, enabled, shutdown, event).0.handle
            == s.handle || ((s.phase == Phase::StartingAtEntry || s.phase == Phase::Restarting)
            && event == Event::Started(next(s, enabled, shutdown, event).0.handle->0)),
{
}

/// Phase and handle agree in every state that a run leads to, whatever the
/// unit is told.
pub proof fn law_run_keeps_one_handle(s: UnitState, inputs: Seq<Input>)
    requires
        s.wf(),
    ensures
        run(s, inputs).wf(),
    decreases inputs.len(),
{
    if inputs.len() > 0 {
        law_run_keeps_one_handle(s, inputs.drop_last());
        let last = inputs.last();
        law_step_keeps_one_handle(run(s, inputs.drop_last()), last.enabled, last.shutdown, last.event);
    }
}

/// An enabled unit that wakes with a live handle and no shutdown signal
/// polls it, and if the poll shows that the worker has exited, or fails,
/// the very next action is the start of a replacement: no pause comes
/// between the exit being seen and the restart, whatever the signal does in
/// between. A worker that is alive is polled again one period later.
pub proof fn law_exit_is_answered_by_restart(s: UnitState, shutdown_after: bool, polled: Event)
    requires
        s.wf(),
        s.phase == Phase::Sleeping,
        s.handle is Some,
        polled == Event::Exited || polled == Event::PollFailed || polled == Event::StillRunning,
    ensures
        next(s, true, false, Event::Woke).1 == Action::Poll,
        polled != Event::StillRunning ==> next(
            next(s, true, false, Event::Woke).0,
            true,
            shutdown_after,
            polled,
        ) == (UnitState { phase: Phase::Restarting, handle: None }, Action::Start),
        polled == Event::StillRunning ==> next(
            next(s, true, false, Event::Woke).0,
            true,
            shutdown_after,
            polled,
        ) == (s, Action::Sleep(POLL_PERIOD_MS)),
{
}

/// The number of starts asked for in the first `upto` steps of a run.
pub open spec fn starts_asked(s: UnitState, inputs: Seq<Input>, upto: int) -> nat
    decreases upto,
{
    if upto <= 0 {
        0
    } else {
        starts_asked(s, inputs, upto - 1) + if action_at(s, inputs, upto - 1) == Action::Start {
            1nat
        } else {
            0nat
        }
    }
}

/// The number of times, in the first `upto` steps of a run, that a poll was
/// answered with the worker's exit or with a failure.
pub open spec fn exits_seen(s: UnitState, inputs: Seq<Input>, upto: int) -> nat
    decreases upto,
{
    if upto <= 0 {
        0
    } else {
        let before = run(s, inputs.take(upto - 1));
        let event = inputs[upto - 1].event;
        exits_seen(s, inputs, upto - 1) + if before.phase == Phase::Polling && (event == Event::Exited || event
            == Event::PollFailed) {
            1nat
        } else {
            0nat
        }
    }
}

/// A unit is started once, and once more for every exit. In a run from the
/// start of a unit that stays enabled, with no shutdown, every action
/// answered and every start succeeding, the starts asked for at any point
/// are the exits seen so far and one: a worker that crashes `n` times is
/// started `n + 1` times, one that never crashes exactly once.
pub proof fn law_one_start_per_exit_and_one(inputs: Seq<Input>, upto: int)
    requires
        1 <= upto <= inputs.len(),
        forall|i: int|
            0 <= i < inputs.len() ==> {
                &&& (#[trigger] inputs[i]).enabled
                &&& !inputs[i].shutdown
                &&& inputs[i].event != Event::StartFailed
                &&& answers(run(UnitState::fresh(), inputs.take(i)).phase, inputs[i].event)
            },
    ensures
        starts_asked(UnitState::fresh(), inputs, upto) == exits_seen(UnitState::fresh(), inputs, upto) + 1,
        run(UnitState::fresh(), inputs.take(upto)).handle is None <==> action_at(
            UnitState::fresh(),
            inputs,
            upto - 1,
        ) == Action::Start,
    decreases upto,
{
    let fresh = UnitState::fresh();
    lemma_run_unfolds(fresh, inputs, upto - 1);
    law_run_keeps_one_handle(fresh, inputs.take(upto - 1));
    let before = run(fresh, inputs.take(upto - 1));
    assert(inputs[upto - 1].enabled && !inputs[upto - 1].shutdown && inputs[upto - 1].event
        != Event::StartFailed && answers(before.phase, inputs[upto - 1].event));
    if upto > 1 {
        law_one_start_per_exit_and_one(inputs, upto - 1);
        lemma_run_unfolds(fresh, inputs, upto - 2);
        law_run_keeps_one_handle(fresh, inputs.take(upto - 2));
        let earlier = run(fresh, inputs.take(upto - 2));
        assert(inputs[upto - 2].enabled && !inputs[upto - 2].shutdown && inputs[upto - 2].event
            != Event::StartFailed && answers(earlier.phase, inputs[upto - 2].event));
    } else {
        assert(inputs.take(0) =~= Seq::<Input>::empty());
        assert(starts_asked(fresh, inputs, 0) == 0);
        assert(exits_seen(fresh, inputs, 0) == 0);
    }
}

/// An enabled unit without a handle asks for a start at every cycle until
/// one succeeds, and pauses one period between two attempts.
pub proof fn law_failed_start_is_retried_each_cycle(s: UnitState, shutdown_after: bool)
    requires
        s.wf(),
        s.phase == Phase::Sleeping,
        s.handle is None,
    ensures
        next(s, true, false, Event::Woke).1 == Action::Start,
        next(next(s, true, false, Event::Woke).0, true, shutdown_after, Event::StartFailed) == (
            s,
            Action::Sleep(POLL_PERIOD_MS),
        ),
{
}

/// A unit that is disabled throughout never asks for a start and never
/// holds a handle, whatever it is told.
pub proof fn law_disabled_unit_never_starts(inputs: Seq<Input>)
    requires
        forall|i: int| 0 <= i < inputs.len() ==> !(#[trigger] inputs[i]).enabled,
    ensures
        forall|i: int|
            0 <= i < inputs.len() ==> #[trigger] action_at(UnitState::fresh(), inputs, i) != Action::Start,
        forall|k: int|
            0 <= k <= inputs.len() ==> (#[trigger] run(UnitState::fresh(), inputs.take(k))).handle is None,
{
    assert forall|k: int| 0 <= k <= inputs.len() implies (#[trigger] run(
        UnitState::fresh(),
        inputs.take(k),
    )).handle is None by {
        lemma_disabled_prefix(inputs, k);
    }
    assert forall|i: int| 0 <= i < inputs.len() implies #[trigger] action_at(
        UnitState::fresh(),
        inputs,
        i,
    ) != Action::Start by {
        lemma_disabled_prefix(inputs, i);
    }
}

proof fn lemma_disabled_prefix(inputs: Seq<Input>, k: int)
    requires
        forall|i: int| 0 <= i < inputs.len() ==> !(#[trigger] inputs[i]).enabled,
        0 <= k <= inputs.len(),
    ensures
        run(UnitState::fresh(), inputs.take(k)).handle is None,
        run(UnitState::fresh(), inputs.take(k)).phase == Phase::Created || run(
            UnitState::fresh(),
            inputs.take(k),
        ).phase == Phase::Sleeping || run(UnitState::fresh(), inputs.take(k)).phase == Phase::Finished,
    decreases k,
{
    if k > 0 {
        lemma_disabled_prefix(inputs, k - 1);
        lemma_run_unfolds(UnitState::fresh(), inputs, k - 1);
    } else {
        assert(inputs.take(0) =~= Seq::<Input>::empty());
    }
}

/// A unit that is disabled while it runs asks for no further start, and
/// keeps the handle it has, unpolled, until the shutdown signal is seen.
pub proof fn law_disabling_stops_restarts(s: UnitState, shutdown: bool, event: Event)
    requires
        s.wf(),
    ensures
        next(s, false, shutdown, event).1 != Action::Start,
        s.phase == Phase::Sleeping && event == Event::Woke && !shutdown ==> next(s, false, shutdown, event)
            == (s, Action::Sleep(POLL_PERIOD_MS)),
{
}

/// At the top of a cycle a raised shutdown signal is obeyed at once: the
/// unit asks for the stop of its handle, or finishes if it has none.
pub proof fn law_shutdown_is_seen_at_cycle_top(s: UnitState, enabled: bool)
    requires
        s.wf(),
        s.phase == Phase::Sleeping,
    ensures
        next(s, enabled, true, Event::Woke).0.shutting_down(),
        s.handle is Some ==> next(s, enabled, true, Event::Woke) == (
            UnitState { phase: Phase::Stopping, handle: s.handle },
            Action::Stop,
        ),
        s.handle is None ==> next(s, enabled, true, Event::Woke) == (
            UnitState { phase: Phase::Finished, handle: None },
            Action::Finish,
        ),
{
}

/// A raised shutdown signal is seen within one period: a unit that is
/// asked to sleep while the signal is up obeys the signal as soon as it
/// wakes, so that not more than one pause lies between the raising of the
/// signal and the unit's stop.
pub proof fn law_shutdown_is_seen_within_one_period(
    s: UnitState,
    enabled: bool,
    event: Event,
    enabled_after: bool,
)
    requires
        s.wf(),
        next(s, enabled, true, event).1 is Sleep,
    ensures
        next(s, enabled, true, event).1 == Action::Sleep(POLL_PERIOD_MS),
        next(s, enabled, true, event).0.phase == Phase::Sleeping,
        next(next(s, enabled, true, event).0, enabled_after, true, Event::Woke).0.shutting_down(),
        next(next(s, enabled, true, event).0, enabled_after, true, Event::Woke).1 == Action::Stop || next(
            next(s, enabled, true, event).0,
            enabled_after,
            true,
            Event::Woke,
        ).1 == Action::Finish,
{
}

/// Whether a start is under way that was decided on before the shutdown
/// signal could be looked at: the start on entry, which comes before the
/// first cycle; the restart that follows a poll, whose cycle began before;
/// and a start that was asked for and is asked again.
pub open spec fn start_under_way(s: UnitState, event: Event) -> bool {
    ||| s.phase == Phase::Created
    ||| s.phase == Phase::Polling && (event == Event::Exited || event == Event::PollFailed)
    ||| (s.phase == Phase::StartingAtEntry || s.phase == Phase::Restarting) && !answers(s.phase, event)
}

/// With the shutdown signal up, a start is asked for only where one is
/// under way already, and of an enabled unit it is asked for there. In
/// every other step the raised signal keeps the unit from starting.
pub proof fn law_no_new_start_under_shutdown(s: UnitState, enabled: bool, event: Event)
    requires
        s.wf(),
    ensures
        next(s, enabled, true, event).1 == Action::Start <==> enabled && start_under_way(s, event),
{
}

/// With the shutdown signal up and every action answered, a unit asks for
/// at most one start: the one that was under way when the signal rose.
pub proof fn law_one_start_at_most_under_shutdown(s: UnitState, inputs: Seq<Input>, first: int, second: int)
    requires
        s.wf(),
        0 <= first <= second < inputs.len(),
        forall|i: int|
            0 <= i < inputs.len() ==> (#[trigger] inputs[i]).shutdown && answers(
                run(s, inputs.take(i)).phase,
                inputs[i].event,
            ),
        action_at(s, inputs, first) == Action::Start,
        action_at(s, inputs, second) == Action::Start,
    ensures
        first == second,
{
    if first < second {
        let before = run(s, inputs.take(first));
        law_run_keeps_one_handle(s, inputs.take(first));
        lemma_run_unfolds(s, inputs, first);
        assert(inputs[first].shutdown && answers(before.phase, inputs[first].event));
        lemma_answered_step(before, inputs[first].enabled, inputs[first].event);
        let starting = run(s, inputs.take(first + 1));
        lemma_run_unfolds(s, inputs, first + 1);
        assert(inputs[first + 1].shutdown && answers(starting.phase, inputs[first + 1].event));
        lemma_answered_step(starting, inputs[first + 1].enabled, inputs[first + 1].event);
        if first + 1 < second {
            lemma_spent_prefix(s, inputs, first + 2, second);
            let later = run(s, inputs.take(second));
            assert(inputs[second].shutdown && answers(later.phase, inputs[second].event));
            lemma_answered_step(later, inputs[second].enabled, inputs[second].event);
        }
    }
}

/// Whether a unit in `phase` has its last start behind it once the
/// shutdown signal is up.
spec fn spent(phase: Phase) -> bool {
    phase == Phase::Sleeping || phase == Phase::Stopping || phase == Phase::Finished
}

/// What one answered step does while the shutdown signal is up: a start
/// is followed by its answer, and after the answer no start is asked for
/// again.
proof fn lemma_answered_step(s: UnitState, enabled: bool, event: Event)
    requires
        s.wf(),
        answers(s.phase, event),
    ensures
        next(s, enabled, true, event).0.wf(),
        next(s, enabled, true, event).1 == Action::Start ==> next(s, enabled, true, event).0.phase
            == Phase::StartingAtEntry || next(s, enabled, true, event).0.phase == Phase::Restarting,
        s.phase == Phase::StartingAtEntry || s.phase == Phase::Restarting || spent(s.phase) ==> next(
            s,
            enabled,
            true,
            event,
        ).1 != Action::Start && spent(next(s, enabled, true, event).0.phase),
{
}

proof fn lemma_spent_prefix(s: UnitState, inputs: Seq<Input>, from: int, to: int)
    requires
        s.wf(),
        0 <= from <= to <= inputs.len(),
        forall|i: int|
            0 <= i < inputs.len() ==> (#[trigger] inputs[i]).shutdown && answers(
                run(s, inputs.take(i)).phase,
                inputs[i].event,
            ),
        spent(run(s, inputs.take(from)).phase),
    ensures
        run(s, inputs.take(to)).wf(),
        spent(run(s, inputs.take(to)).phase),
    decreases to - from,
{
    if from < to {
        lemma_spent_prefix(s, inputs, from, to - 1);
        lemma_run_unfolds(s, inputs, to - 1);
        let before = run(s, inputs.take(to - 1));
        assert(inputs[to - 1].shutdown && answers(before.phase, inputs[to - 1].event));
        lemma_answered_step(before, inputs[to - 1].enabled, inputs[to - 1].event);
    } else {
        law_run_keeps_one_handle(s, inputs.take(from));
    }
}

/// Once a unit has seen the shutdown signal it never asks for a start
/// again and never takes up a new handle, whatever it is told; and it is
/// finished as soon as its stop is answered, whether the stop succeeded or
/// not.
pub proof fn law_no_start_after_shutdown_seen(s: UnitState, inputs: Seq<Input>)
    requires
        s.wf(),
        s.shutting_down(),
    ensures
        forall|i: int| 0 <= i < inputs.len() ==> #[trigger] action_at(s, inputs, i) != Action::Start,
        forall|k: int|
            0 <= k <= inputs.len() ==> {
                let after = #[trigger] run(s, inputs.take(k));
                after.shutting_down() && (after.handle is None || after.handle == s.handle)
            },
        forall|enabled: bool, shutdown: bool, event: Event|
            s.phase == Phase::Stopping && (event == Event::Stopped || event == Event::StopFailed) ==> #[trigger] next(
                s,
                enabled,
                shutdown,
                event,
            ) == (UnitState { phase: Phase::Finished, handle: None }, Action::Finish),
{
    assert forall|k: int| 0 <= k <= inputs.len() implies {
        let after = #[trigger] run(s, inputs.take(k));
        after.shutting_down() && (after.handle is None || after.handle == s.handle)
    } by {
        lemma_shutting_down_prefix(s, inputs, k);
    }
    assert forall|i: int| 0 <= i < inputs.len() implies #[trigger] action_at(s, inputs, i)
        != Action::Start by {
        lemma_shutting_down_prefix(s, inputs, i);
    }
}

proof fn lemma_shutting_down_prefix(s: UnitState, inputs: Seq<Input>, k: int)
    requires
        s.wf(),
        s.shutting_down(),
        0 <= k <= inputs.len(),
    ensures
        run(s, inputs.take(k)).wf(),
        run(s, inputs.take(k)).shutting_down(),
        run(s, inputs.take(k)).handle is None || run(s, inputs.take(k)).handle == s.handle,
    decreases k,
{
    if k > 0 {
        lemma_shutting_down_prefix(s, inputs, k - 1);
        lemma_run_unfolds(s, inputs, k - 1);
    } else {
        assert(inputs.take(0) =~= Seq::<Input>::empty());
    }
}

/// With the shutdown signal raised and every action answered, a unit is
/// finished after at most four steps, wherever it stood when the signal
/// rose.
pub proof fn law_unit_finishes_after_shutdown(s: UnitState, inputs: Seq<Input>)
    requires
        s.wf(),
        inputs.len() >= 4,
        forall|i: int|
            0 <= i < inputs.len() ==> (#[trigger] inputs[i]).shutdown && answers(
                run(s, inputs.take(i)).phase,
                inputs[i].event,
            ),
    ensures
        run(s, inputs).phase == Phase::Finished,
{
    lemma_countdown(s, inputs, inputs.len() as int);
    assert(inputs.take(inputs.len() as int) =~= inputs);
}

proof fn lemma_countdown(s: UnitState, inputs: Seq<Input>, k: int)
    requires
        s.wf(),
        0 <= k <= inputs.len(),
        forall|i: int|
            0 <= i < inputs.len() ==> (#[trigger] inputs[i]).shutdown && answers(
                run(s, inputs.take(i)).phase,
                inputs[i].event,
            ),
    ensures
        run(s, inputs.take(k)).wf(),
        steps_to_finish(run(s, inputs.take(k)).phase) + k <= 4 || run(s, inputs.take(k)).phase
            == Phase::Finished,
    decreases k,
{
    if k > 0 {
        lemma_countdown(s, inputs, k - 1);
        lemma_run_unfolds(s, inputs, k - 1);
        assert(inputs[k - 1].shutdown);
    } else {
        assert(inputs.take(0) =~= Seq::<Input>::empty());
    }
}

/// Restart loop of one unit: the phase it is in and the handle it holds.
#[derive(Debug)]
pub struct Supervisor {
    phase: Phase,
    handle: Option<u32>,
}

impl View for Supervisor {
    type V = UnitState;

    closed spec fn view(&self) -> UnitState {
        UnitState { phase: self.phase, handle: self.handle }
    }
}

impl Supervisor {
    #[verifier::type_invariant]
    spec fn inv(self) -> bool {
        self@.wf()
    }

    /// A supervisor that has not begun: no handle, nothing asked yet.
    pub fn new() -> (s: Supervisor)
        ensures
            s@ == UnitState::fresh(),
    {
        Supervisor { phase: Phase::Created, handle: None }
    }

    /// The phase the supervisor is in.
    pub fn phase(&self) -> (phase: Phase)
        ensures
            phase == self@.phase,
            self@.wf(),
    {
        proof {
            use_type_invariant(self);
        }
        self.phase
    }

    /// The handle the supervisor holds, if any.
    pub fn handle(&self) -> (handle: Option<u32>)
        ensures
            handle == self@.handle,
            self@.wf(),
    {
        proof {
            use_type_invariant(self);
        }
        self.handle
    }

    /// Whether the supervisor has left its loop.
    pub fn is_finished(&self) -> (finished: bool)
        ensures
            finished == (self@.phase == Phase::Finished),
    {
        self.phase == Phase::Finished
    }

    /// Takes the outcome of a start attempt: the new handle, or none where
    /// the start failed. A failure is not raised; the unit goes on without
    /// a handle. Either way the unit is then between two cycles.
    pub fn start(&mut self, spawned: Option<u32>)
        ensures
            final(self)@ == (UnitState { phase: Phase::Sleeping, handle: spawned }),
    {
        *self = Supervisor { phase: Phase::Sleeping, handle: spawned };
    }

    /// Takes the outcome of a poll and tells whether the unit is without a
    /// worker, so that a start is due. That is so where it holds no handle
    /// to begin with, whatever the poll says; and where the worker has
    /// exited, with whatever code, or the poll failed, which count alike:
    /// the handle is then let go. Either way the unit is then between two
    /// cycles.
    pub fn try_restart(&mut self, polled: Event) -> (gone: bool)
        ensures
            gone == worker_gone(old(self)@.handle, polled),
            final(self)@ == (UnitState {
                phase: Phase::Sleeping,
                handle: if gone {
                    None
                } else {
                    old(self)@.handle
                },
            }),
    {
        let gone = match polled {
            Event::Exited | Event::PollFailed => true,
            _ => self.handle.is_none(),
        };
        let handle = if gone {
            None
        } else {
            self.handle
        };
        *self = Supervisor { phase: Phase::Sleeping, handle };
        gone
    }

    /// Obeys the shutdown signal and tells whether there is a handle to
    /// stop. With a handle the unit waits for the stop to be answered;
    /// without one it is finished.
    pub fn kill(&mut self) -> (stop: bool)
        ensures
            stop == old(self)@.handle is Some,
            final(self)@ == cycle(old(self)@.handle, true, true).0,
            final(self)@.shutting_down(),
    {
        let handle = self.handle;
        if handle.is_some() {
            *self = Supervisor { phase: Phase::Stopping, handle };
            true
        } else {
            *self = Supervisor { phase: Phase::Finished, handle: None };
            false
        }
    }

    /// The decision at the top of a cycle.
    fn begin_cycle(&mut self, enabled: bool, shutdown: bool) -> (action: Action)
        ensures
            (final(self)@, action) == cycle(old(self)@.handle, enabled, shutdown),
    {
        if shutdown {
            if self.kill() {
                Action::Stop
            } else {
                Action::Finish
            }
        } else if enabled {
            let handle = self.handle;
            if handle.is_some() {
                *self = Supervisor { phase: Phase::Polling, handle };
                Action::Poll
            } else {
                *self = Supervisor { phase: Phase::Restarting, handle: None };
                Action::Start
            }
        } else {
            *self = Supervisor { phase: Phase::Sleeping, handle: self.handle };
            Action::Sleep(POLL_PERIOD_MS)
        }
    }

    /// Goes on after a start that was asked for while the unit has since
    /// been disabled, or repeats the request.
    fn repeat_start(&mut self, enabled: bool) -> (action: Action)
        requires
            old(self)@.phase == Phase::StartingAtEntry || old(self)@.phase == Phase::Restarting,
        ensures
            (final(self)@, action) == (if enabled {
                (old(self)@, Action::Start)
            } else {
                (UnitState { phase: Phase::Sleeping, handle: None }, Action::Sleep(POLL_PERIOD_MS))
            }),
    {
        if enabled {
            Action::Start
        } else {
            self.start(None);
            Action::Sleep(POLL_PERIOD_MS)
        }
    }

    /// Takes one step of the restart loop.
    ///
    /// `event` is the outcome of the action that the last step asked for
    /// (`Woke` to begin with), `enabled` the unit's descriptor as it stands,
    /// `shutdown` the shutdown signal as read for this step. The answer is
    /// the action to perform next. An event that answers nothing leaves the
    /// supervisor where it is and has the outstanding action asked again.
    pub fn step(&mut self, enabled: bool, shutdown: bool, event: Event) -> (action: Action)
        ensures
            (final(self)@, action) == next(old(self)@, enabled, shutdown, event),
            old(self)@.wf(),
            final(self)@.wf(),
    {
        proof {
            use_type_invariant(&*self);
        }
        match self.phase {
            Phase::Created => {
                if enabled {
                    *self = Supervisor { phase: Phase::StartingAtEntry, handle: None };
                    Action::Start
                } else {
                    self.begin_cycle(enabled, shutdown)
                }
            },
            Phase::StartingAtEntry => match event {
                Event::Started(id) => {
                    self.start(Some(id));
                    self.begin_cycle(enabled, shutdown)
                },
                Event::StartFailed => {
                    self.start(None);
                    self.begin_cycle(enabled, shutdown)
                },
                _ => self.repeat_start(enabled),
            },
            Phase::Restarting => match event {
                Event::Started(id) => {
                    self.start(Some(id));
                    Action::Sleep(POLL_PERIOD_MS)
                },
                Event::StartFailed => {
                    self.start(None);
                    Action::Sleep(POLL_PERIOD_MS)
                },
                _ => self.repeat_start(enabled),
            },
            Phase::Polling => match event {
                Event::StillRunning | Event::Exited | Event::PollFailed => {
                    if self.try_restart(event) && enabled {
                        *self = Supervisor { phase: Phase::Restarting, handle: None };
                        Action::Start
                    } else {
                        Action::Sleep(POLL_PERIOD_MS)
                    }
                },
                _ => Action::Poll,
            },
            Phase::Sleeping => match event {
                Event::Woke => self.begin_cycle(enabled, shutdown),
                _ => Action::Sleep(POLL_PERIOD_MS),
            },
            Phase::Stopping => match event {
                Event::Stopped | Event::StopFailed => {
                    *self = Supervisor { phase: Phase::Finished, handle: None };
                    Action::Finish
                },
                _ => Action::Stop,
            },
            Phase::Finished => Action::Finish,
        }
    }
}

} // verus!
