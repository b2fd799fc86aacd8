//! The whole supervisor in one piece: the bridge to the host, the set of
//! units, and the shutdown signal between them.
//!
//! Only the bridge raises the signal, and every unit reads it at each of
//! its steps. The bridge learns from the set itself whether all units have
//! finished, so the host is told that the service has stopped only when
//! they have.

use crate::host::{ControlEvent, ServiceStatus};
use crate::monitor_service::{
    bridge_next, run_service, running_status, BridgeEvent, BridgeState, BridgeStep,
    Lifecycle, LifecycleBridge, LoopEnd,
};
use crate::scheduler::{all_done, set_next, Slot, TaskSet, UnitModel};
use crate::supervisor::{Action, Event, Phase};
use vstd::prelude::*;

verus! {

/// Mathematical state of the supervisor.
pub ghost struct EngineState {
    pub bridge: BridgeState,
    pub units: Seq<UnitModel>,
    pub shutdown: bool,
}

/// One thing that happens to the supervisor.
pub ghost enum Turn {
    /// The bridge takes a step.
    Host { control: BridgeEvent },
    /// The unit at `unit` takes a step, with the shutdown signal as it
    /// stands.
    Unit { unit: int, event: Event },
    /// The unit at `unit` is disabled.
    Disable { unit: int },
}

impl EngineState {
    /// The state at the start: the service runs, the signal is down.
    pub open spec fn fresh(units: Seq<UnitModel>) -> EngineState {
        EngineState { bridge: BridgeState::fresh(), units, shutdown: false }
    }

    /// Whether a stop is pending or done.
    pub open spec fn stopping(self) -> bool {
        self.bridge.lifecycle == Lifecycle::StopPending || self.bridge.lifecycle == Lifecycle::Stopped
    }

    /// The signal is up exactly from the moment the host's stop request
    /// was taken, and a stopped service has no unit left in its loop.
    pub open spec fn wf(self) -> bool {
        &&& self.bridge.wf()
        &&& self.shutdown == self.stopping()
        &&& self.bridge.lifecycle == Lifecycle::Stopped ==> all_done(self.units)
    }
}

/// The supervisor after `turn`.
pub open spec fn engine_next(s: EngineState, turn: Turn) -> EngineState {
    match turn {
        Turn::Host { control } => {
            let (bridge, step) = bridge_next(s.bridge, control, all_done(s.units));
            EngineState { bridge, units: s.units, shutdown: s.shutdown || step.raise_shutdown }
        },
        Turn::Unit { unit, event } => EngineState {
            bridge: s.bridge,
            units: set_next(s.units, Slot::Step { unit, shutdown: s.shutdown, event }),
            shutdown: s.shutdown,
        },
        Turn::Disable { unit } => EngineState {
            bridge: s.bridge,
            units: set_next(s.units, Slot::Disable { unit }),
            shutdown: s.shutdown,
        },
    }
}

/// What the bridge asks of the caller in `turn`; nothing in a turn that is
/// not the bridge's.
pub open spec fn engine_tells(s: EngineState, turn: Turn) -> BridgeStep {
    match turn {
        Turn::Host { control } => bridge_next(s.bridge, control, all_done(s.units)).1,
        _ => BridgeStep::quiet(),
    }
}

/// What a unit asks of the caller in `turn`; nothing in a turn that is not
/// a unit's step.
pub open spec fn engine_asks(s: EngineState, turn: Turn) -> Option<Action> {
    match turn {
        Turn::Unit { unit, event } => if 0 <= unit < s.units.len() {
            s.units[unit].asks(Slot::Step { unit, shutdown: s.shutdown, event })
        } else {
            None
        },
        _ => None,
    }
}

/// The supervisor after the turns of `turns`, in order.
pub open spec fn engine_run(s: EngineState, turns: Seq<Turn>) -> EngineState
    decreases turns.len(),
{
    if turns.len() == 0 {
        s
    } else {
        engine_next(engine_run(s, turns.drop_last()), turns.last())
    }
}

/// A run of `at + 1` turns is the run of the first `at`, then one more.
pub proof fn lemma_engine_run_unfolds(s: EngineState, turns: Seq<Turn>, at: int)
    requires
        0 <= at < turns.len(),
    ensures
        engine_run(s, turns.take(at + 1)) == engine_next(engine_run(s, turns.take(at)), turns[at]),
        engine_run(s, turns.take(0)) == s,
{
    assert(turns.take(at + 1).drop_last() =~= turns.take(at));
    assert(turns.take(at + 1).last() == turns[at]);
    assert(turns.take(0) =~= Seq::<Turn>::empty());
}

/// A turn keeps the supervisor well-formed, never lowers the shutdown
/// signal, and raises it only in the bridge's answer to a stop request.
pub proof fn law_turn_keeps_order(s: EngineState, turn: Turn)
    requires
        s.wf(),
    ensures
        engine_next(s, turn).wf(),
        s.shutdown ==> engine_next(s, turn).shutdown,
        engine_next(s, turn).shutdown && !s.shutdown ==> turn == (Turn::Host {
            control: BridgeEvent::Control(ControlEvent::Stop),
        }),
        engine_next(s, turn).units.len() == s.units.len(),
{
    match turn {
        Turn::Host { control } => {},
        Turn::Unit { unit, event } => {
            let after = engine_next(s, turn).units;
            if s.bridge.lifecycle == Lifecycle::Stopped {
                assert forall|i: int| 0 <= i < after.len() implies (#[trigger] after[i]).state.phase
                    == Phase::Finished by {
                    assert(s.units[i].state.phase == Phase::Finished);
                }
            }
        },
        Turn::Disable { unit } => {
            let after = engine_next(s, turn).units;
            if s.bridge.lifecycle == Lifecycle::Stopped {
                assert forall|i: int| 0 <= i < after.len() implies (#[trigger] after[i]).state.phase
                    == Phase::Finished by {
                    assert(s.units[i].state.phase == Phase::Finished);
                }
            }
        },
    }
}

/// Every state that a run leads to is in order, with as many units as at
/// the start, and the shutdown signal, once up, is up in all of them.
pub proof fn law_run_keeps_order(s: EngineState, turns: Seq<Turn>)
    requires
        s.wf(),
    ensures
        engine_run(s, turns).wf(),
        engine_run(s, turns).units.len() == s.units.len(),
        s.shutdown ==> engine_run(s, turns).shutdown,
    decreases turns.len(),
{
    if turns.len() > 0 {
        law_run_keeps_order(s, turns.drop_last());
        law_turn_keeps_order(engine_run(s, turns.drop_last()), turns.last());
    }
}

/// The host is never told that the service has stopped while a unit is
/// still in its loop. In a run from the start, with whatever units: at
/// the turn in which the bridge reports the stop, a stop is pending, the
/// shutdown signal is up, and every unit has finished.
pub proof fn law_stopped_means_every_unit_finished(units: Seq<UnitModel>, turns: Seq<Turn>, at: int)
    requires
        0 <= at < turns.len(),
        engine_tells(engine_run(EngineState::fresh(units), turns.take(at)), turns[at]).reports_stopped(),
    ensures
        engine_run(EngineState::fresh(units), turns.take(at)).bridge.lifecycle == Lifecycle::StopPending,
        engine_run(EngineState::fresh(units), turns.take(at)).shutdown,
        all_done(engine_run(EngineState::fresh(units), turns.take(at)).units),
{
    law_run_keeps_order(EngineState::fresh(units), turns.take(at));
}

/// Once the host is told that the service has stopped, nothing moves any
/// more: in every later turn every unit is finished and asks for nothing
/// but to leave its loop, and the host is told nothing further.
pub proof fn law_nothing_moves_after_stopped(units: Seq<UnitModel>, turns: Seq<Turn>, at: int, later: int)
    requires
        0 <= at < later < turns.len(),
        engine_tells(engine_run(EngineState::fresh(units), turns.take(at)), turns[at]).reports_stopped(),
    ensures
        all_done(engine_run(EngineState::fresh(units), turns.take(later)).units),
        engine_tells(engine_run(EngineState::fresh(units), turns.take(later)), turns[later]).report is None,
        !engine_tells(engine_run(EngineState::fresh(units), turns.take(later)), turns[later]).raise_shutdown,
        engine_asks(engine_run(EngineState::fresh(units), turns.take(later)), turns[later]) is Some
            ==> engine_asks(engine_run(EngineState::fresh(units), turns.take(later)), turns[later]) == Some(
            Action::Finish,
        ),
{
    let fresh = EngineState::fresh(units);
    law_run_keeps_order(fresh, turns.take(at));
    lemma_engine_run_unfolds(fresh, turns, at);
    let after = engine_run(fresh, turns.take(at + 1));
    assert(after.bridge.lifecycle == Lifecycle::Stopped);
    lemma_stopped_stays(fresh, turns, at + 1, later);
    let then = engine_run(fresh, turns.take(later));
    match turns[later] {
        Turn::Unit { unit, event } => {
            if 0 <= unit < then.units.len() {
                assert(then.units[unit].state.phase == Phase::Finished);
            }
        },
        _ => {},
    }
}

proof fn lemma_stopped_stays(s: EngineState, turns: Seq<Turn>, from: int, to: int)
    requires
        s.wf(),
        0 <= from <= to <= turns.len(),
        engine_run(s, turns.take(from)).bridge.lifecycle == Lifecycle::Stopped,
    ensures
        engine_run(s, turns.take(to)).wf(),
        engine_run(s, turns.take(to)).bridge.lifecycle == Lifecycle::Stopped,
        all_done(engine_run(s, turns.take(to)).units),
    decreases to - from,
{
    if from < to {
        lemma_stopped_stays(s, turns, from, to - 1);
        lemma_engine_run_unfolds(s, turns, to - 1);
        law_turn_keeps_order(engine_run(s, turns.take(to - 1)), turns[to - 1]);
    } else {
        law_run_keeps_order(s, turns.take(from));
    }
}

/// Once the shutdown signal is up, a unit that comes to the top of its
/// cycle does not start or poll anything: it asks for the stop of its
/// handle, or leaves its loop.
pub proof fn law_units_obey_the_signal(s: EngineState, unit: int)
    requires
        s.wf(),
        s.shutdown,
        0 <= unit < s.units.len(),
        s.units[unit].state.wf(),
        s.units[unit].state.phase == Phase::Sleeping,
    ensures
        engine_asks(s, Turn::Unit { unit, event: Event::Woke }) == Some(
            if s.units[unit].state.handle is Some {
                Action::Stop
            } else {
                Action::Finish
            },
        ),
        engine_next(s, Turn::Unit { unit, event: Event::Woke }).units[unit].state.shutting_down(),
{
}

/// The supervisor: the bridge, the units, and the shutdown signal.
#[derive(Debug)]
pub struct Engine {
    bridge: LifecycleBridge,
    tasks: TaskSet,
    shutdown: bool,
}

impl View for Engine {
    type V = EngineState;

    closed spec fn view(&self) -> EngineState {
        EngineState { bridge: self.bridge@, units: self.tasks@, shutdown: self.shutdown }
    }
}

impl Engine {
    /// The units of the supervisor, in order.
    pub closed spec fn tasks_spec(&self) -> TaskSet {
        self.tasks
    }

    /// A supervisor for `tasks`, and the report to make to the host before
    /// anything else: that the service is running.
    pub fn new(tasks: TaskSet) -> (entry: (Engine, ServiceStatus))
        ensures
            entry.0@ == EngineState::fresh(tasks@),
            entry.0@.wf(),
            entry.0.tasks_spec() == tasks,
            entry.1 == running_status(),
    {
        let (bridge, first) = run_service();
        (Engine { bridge, tasks, shutdown: false }, first)
    }

    /// Whether the shutdown signal is up.
    pub fn shutdown(&self) -> (raised: bool)
        ensures
            raised == self@.shutdown,
    {
        self.shutdown
    }

    /// The units, to look at.
    pub fn tasks(&self) -> (tasks: &TaskSet)
        ensures
            *tasks == self.tasks_spec(),
            tasks@ == self@.units,
    {
        &self.tasks
    }

    /// The lifecycle state that the host was last told.
    pub fn lifecycle(&self) -> (lifecycle: Lifecycle)
        ensures
            lifecycle == self@.bridge.lifecycle,
    {
        self.bridge.lifecycle()
    }

    /// Why the bridge has left its loop, if it has.
    pub fn ended(&self) -> (ended: Option<LoopEnd>)
        ensures
            ended == self@.bridge.ended,
    {
        self.bridge.ended()
    }

    /// Has the bridge take one step on `event`, and answers with what is to
    /// be done for it. The units are left alone; the signal goes up where
    /// the step says so, and never down.
    pub fn control(&mut self, event: BridgeEvent) -> (step: BridgeStep)
        ensures
            final(self)@ == engine_next(old(self)@, Turn::Host { control: event }),
            step == engine_tells(old(self)@, Turn::Host { control: event }),
            final(self).tasks_spec() == old(self).tasks_spec(),
            step.reports_stopped() ==> all_done(final(self)@.units),
            old(self)@.wf() ==> final(self)@.wf(),
    {
        let all = self.tasks.all_finished();
        let step = self.bridge.step(event, all);
        if step.raise_shutdown {
            self.shutdown = true;
        }
        step
    }

    /// Has the unit at `index` take one step of its restart loop, with the
    /// shutdown signal as it stands, and answers with the action to
    /// perform for it; `None` where there is no such unit. Nothing else
    /// changes.
    pub fn unit(&mut self, index: usize, event: Event) -> (action: Option<Action>)
        ensures
            final(self)@ == engine_next(old(self)@, Turn::Unit { unit: index as int, event }),
            action == engine_asks(old(self)@, Turn::Unit { unit: index as int, event }),
            final(self).tasks_spec().units().len() == old(self).tasks_spec().units().len(),
            forall|i: int|
                0 <= i < old(self).tasks_spec().units().len() ==> (#[trigger] final(self).tasks_spec().units()[i])
                    .same_descriptor(&old(self).tasks_spec().units()[i]),
            forall|i: int|
                0 <= i < old(self).tasks_spec().units().len() && i != index
                    ==> #[trigger] final(self).tasks_spec().units()[i] == old(self).tasks_spec().units()[i],
            old(self)@.wf() ==> final(self)@.wf(),
    {
        proof {
            if self@.wf() {
                law_turn_keeps_order(self@, Turn::Unit { unit: index as int, event });
            }
        }
        self.tasks.run(index, self.shutdown, event)
    }

    /// Disables the unit at `index`, if there is one. Nothing else
    /// changes: not the rest of its descriptor, not its loop, no other
    /// unit, not the bridge, not the signal.
    pub fn disable(&mut self, index: usize)
        ensures
            final(self)@ == engine_next(old(self)@, Turn::Disable { unit: index as int }),
            final(self).tasks_spec().units().len() == old(self).tasks_spec().units().len(),
            index < old(self).tasks_spec().units().len() ==> final(self).tasks_spec().units()[index as int]
                .disabled_descriptor(&old(self).tasks_spec().units()[index as int]),
            forall|i: int|
                0 <= i < old(self).tasks_spec().units().len() && i != index
                    ==> #[trigger] final(self).tasks_spec().units()[i] == old(self).tasks_spec().units()[i],
            old(self)@.wf() ==> final(self)@.wf(),
    {
        proof {
            if self@.wf() {
                law_turn_keeps_order(self@, Turn::Disable { unit: index as int });
            }
        }
        self.tasks.disable(index);
    }
}

} // verus!
