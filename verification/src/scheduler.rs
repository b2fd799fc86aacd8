//! The set of supervised units. Every unit runs its own restart loop; the
//! set only hands each step to the unit it is meant for, and tells when
//! all of them have finished.

use crate::child_proc::ChildProcess;
use crate::child_service::ChildServiceControl;
use crate::proc_config::ProcessConfigState;
use crate::supervisor::{next, Action, Event, Phase, UnitState};
use vstd::prelude::*;

verus! {

/// A supervised unit: a spawned process or a host-managed service.
#[derive(Debug)]
pub enum Unit {
    Process(ChildProcess),
    Service(ChildServiceControl),
}

/// What the set's decisions depend on in one unit.
pub ghost struct UnitModel {
    pub enabled: bool,
    pub state: UnitState,
}

/// One thing that happens to a set of units.
pub ghost enum Slot {
    /// The unit at `unit` takes a step.
    Step { unit: int, shutdown: bool, event: Event },
    /// The unit at `unit` is disabled.
    Disable { unit: int },
}

impl Slot {
    /// The unit that the slot is meant for.
    pub open spec fn unit(self) -> int {
        match self {
            Slot::Step { unit, .. } => unit,
            Slot::Disable { unit } => unit,
        }
    }
}

impl UnitModel {
    /// The unit after one of its own steps.
    pub open spec fn stepped(self, shutdown: bool, event: Event) -> UnitModel {
        UnitModel { enabled: self.enabled, state: next(self.state, self.enabled, shutdown, event).0 }
    }

    /// The unit once it is disabled: its loop stays where it is.
    pub open spec fn disabled(self) -> UnitModel {
        UnitModel { enabled: false, state: self.state }
    }

    /// The unit after `slot`, which is meant for it.
    pub open spec fn after(self, slot: Slot) -> UnitModel {
        match slot {
            Slot::Step { shutdown, event, .. } => self.stepped(shutdown, event),
            Slot::Disable { .. } => self.disabled(),
        }
    }

    /// What the unit asks for in answer to `slot`, which is meant for it.
    pub open spec fn asks(self, slot: Slot) -> Option<Action> {
        match slot {
            Slot::Step { shutdown, event, .. } => Some(
                next(self.state, self.enabled, shutdown, event).1,
            ),
            Slot::Disable { .. } => None,
        }
    }
}

/// The set after `slot`: the unit that the slot is meant for has changed,
/// and only that one. A slot for a unit that is not there changes nothing.
pub open spec fn set_next(units: Seq<UnitModel>, slot: Slot) -> Seq<UnitModel> {
    if 0 <= slot.unit() < units.len() {
        units.update(slot.unit(), units[slot.unit()].after(slot))
    } else {
        units
    }
}

/// The set after the slots of `schedule`, in order.
pub open spec fn set_run(units: Seq<UnitModel>, schedule: Seq<Slot>) -> Seq<UnitModel>
    decreases schedule.len(),
{
    if schedule.len() == 0 {
        units
    } else {
        set_next(set_run(units, schedule.drop_last()), schedule.last())
    }
}

/// What slot `at` of the schedule is answered with.
pub open spec fn set_asks(units: Seq<UnitModel>, schedule: Seq<Slot>, at: int) -> Option<Action>
    recommends
        0 <= at < schedule.len(),
{
    let before = set_run(units, schedule.take(at));
    let slot = schedule[at];
    if 0 <= slot.unit() < before.len() {
        before[slot.unit()].asks(slot)
    } else {
        None
    }
}

/// Whether every unit of the set has left its loop.
pub open spec fn all_done(units: Seq<UnitModel>) -> bool {
    forall|i: int| 0 <= i < units.len() ==> (#[trigger] units[i]).state.phase == Phase::Finished
}

/// A run of `at + 1` slots is the run of the first `at`, then one more.
pub proof fn lemma_set_run_unfolds(units: Seq<UnitModel>, schedule: Seq<Slot>, at: int)
    requires
        0 <= at < schedule.len(),
    ensures
        set_run(units, schedule.take(at + 1)) == set_next(set_run(units, schedule.take(at)), schedule[at]),
        set_run(units, schedule.take(0)) == units,
        set_run(units, schedule.take(at)).len() == units.len(),
    decreases at,
{
    assert(schedule.take(at + 1).drop_last() =~= schedule.take(at));
    assert(schedule.take(at + 1).last() == schedule[at]);
    assert(schedule.take(0) =~= Seq::<Slot>::empty());
    if at > 0 {
        lemma_set_run_unfolds(units, schedule, at - 1);
    }
}

/// What happens to one unit leaves every other unit as it was.
pub proof fn law_slot_touches_one_unit(units: Seq<UnitModel>, slot: Slot, other: int)
    requires
        0 <= other < units.len(),
        other != slot.unit(),
    ensures
        set_next(units, slot).len() == units.len(),
        set_next(units, slot)[other] == units[other],
{
}

/// A unit behaves alike in any company. Take two sets that hold the same
/// unit at `unit`, and differ elsewhere as they may: in how many other
/// units there are, in whether those are enabled, in where they stand.
/// Under one schedule, which may step, crash, restart or disable the
/// others at will, the unit goes through the same states in both sets and
/// is asked for the same actions at the same slots.
pub proof fn law_unit_is_isolated(a: Seq<UnitModel>, b: Seq<UnitModel>, schedule: Seq<Slot>, unit: int)
    requires
        0 <= unit < a.len(),
        unit < b.len(),
        a[unit] == b[unit],
    ensures
        forall|k: int|
            0 <= k <= schedule.len() ==> (#[trigger] set_run(a, schedule.take(k)))[unit] == set_run(
                b,
                schedule.take(k),
            )[unit],
        forall|k: int|
            0 <= k < schedule.len() && schedule[k].unit() == unit ==> #[trigger] set_asks(a, schedule, k)
                == set_asks(b, schedule, k),
{
    assert forall|k: int| 0 <= k <= schedule.len() implies (#[trigger] set_run(
        a,
        schedule.take(k),
    ))[unit] == set_run(b, schedule.take(k))[unit] by {
        lemma_isolated_prefix(a, b, schedule, unit, k);
    }
    assert forall|k: int| 0 <= k < schedule.len() && schedule[k].unit() == unit implies #[trigger] set_asks(
        a,
        schedule,
        k,
    ) == set_asks(b, schedule, k) by {
        lemma_isolated_prefix(a, b, schedule, unit, k);
    }
}

proof fn lemma_isolated_prefix(a: Seq<UnitModel>, b: Seq<UnitModel>, schedule: Seq<Slot>, unit: int, k: int)
    requires
        0 <= unit < a.len(),
        unit < b.len(),
        a[unit] == b[unit],
        0 <= k <= schedule.len(),
    ensures
        set_run(a, schedule.take(k)).len() == a.len(),
        set_run(b, schedule.take(k)).len() == b.len(),
        set_run(a, schedule.take(k))[unit] == set_run(b, schedule.take(k))[unit],
    decreases k,
{
    if k > 0 {
        lemma_isolated_prefix(a, b, schedule, unit, k - 1);
        lemma_set_run_unfolds(a, schedule, k - 1);
        lemma_set_run_unfolds(b, schedule, k - 1);
    } else {
        assert(schedule.take(0) =~= Seq::<Slot>::empty());
    }
}

impl Unit {
    /// Whether the unit is to be supervised.
    pub open spec fn enabled(&self) -> bool {
        match self {
            Unit::Process(process) => process.enabled(),
            Unit::Service(service) => service.enabled,
        }
    }

    /// State of the unit's restart loop.
    pub open spec fn task(&self) -> UnitState {
        match self {
            Unit::Process(process) => process.task(),
            Unit::Service(service) => service.task(),
        }
    }

    /// What the set's decisions depend on in the unit.
    pub open spec fn model(&self) -> UnitModel {
        UnitModel { enabled: self.enabled(), state: self.task() }
    }

    /// Whether two units are of one kind and have the same descriptor.
    pub open spec fn same_descriptor(&self, other: &Unit) -> bool {
        match (self, other) {
            (Unit::Process(mine), Unit::Process(theirs)) => mine.config == theirs.config,
            (Unit::Service(mine), Unit::Service(theirs)) => {
                &&& mine.name == theirs.name
                &&& mine.enabled == theirs.enabled
                &&& mine.request_access == theirs.request_access
                &&& mine.service_access == theirs.service_access
            },
            _ => false,
        }
    }

    /// The descriptor once the unit is disabled: nothing else in it changes.
    pub open spec fn disabled_descriptor(&self, before: &Unit) -> bool {
        match (self, before) {
            (Unit::Process(mine), Unit::Process(theirs)) => {
                &&& mine.config.program == theirs.config.program
                &&& mine.config.args == theirs.config.args
                &&& mine.config.cwd == theirs.config.cwd
                &&& mine.config.pid == theirs.config.pid
                &&& mine.config.state == ProcessConfigState::Disabled
            },
            (Unit::Service(mine), Unit::Service(theirs)) => {
                &&& mine.name == theirs.name
                &&& !mine.enabled
                &&& mine.request_access == theirs.request_access
                &&& mine.service_access == theirs.service_access
            },
            _ => false,
        }
    }

    /// Takes one step of the unit's restart loop and answers with the
    /// action to perform next. The descriptor is left alone.
    pub fn run(&mut self, exit_flag: bool, event: Event) -> (action: Action)
        ensures
            final(self).model() == old(self).model().stepped(exit_flag, event),
            action == next(old(self).task(), old(self).enabled(), exit_flag, event).1,
            final(self).same_descriptor(old(self)),
            final(self).task().wf(),
    {
        match self {
            Unit::Process(process) => process.run(exit_flag, event),
            Unit::Service(service) => service.run(exit_flag, event),
        }
    }

    /// Disables the unit. Its loop stays where it is: it asks for no
    /// further start, and a handle that it holds is kept until shutdown.
    pub fn disable(&mut self)
        ensures
            final(self).model() == old(self).model().disabled(),
            final(self).disabled_descriptor(old(self)),
    {
        match self {
            Unit::Process(process) => {
                process.config.state = ProcessConfigState::Disabled;
            },
            Unit::Service(service) => {
                service.enabled = false;
            },
        }
    }

    /// Whether the unit has left its loop.
    pub fn is_finished(&self) -> (finished: bool)
        ensures
            finished == (self.task().phase == Phase::Finished),
    {
        match self {
            Unit::Process(process) => process.is_finished(),
            Unit::Service(service) => service.is_finished(),
        }
    }
}

/// The supervised units, each with its own restart loop.
#[derive(Debug)]
pub struct TaskSet {
    units: Vec<Unit>,
}

impl View for TaskSet {
    type V = Seq<UnitModel>;

    open spec fn view(&self) -> Seq<UnitModel> {
        self.units().map_values(|unit: Unit| unit.model())
    }
}

impl TaskSet {
    /// The units of the set, in order.
    pub closed spec fn units(&self) -> Seq<Unit> {
        self.units@
    }

    /// A set of the given units, in their order.
    pub fn new(units: Vec<Unit>) -> (tasks: TaskSet)
        ensures
            tasks.units() == units@,
    {
        TaskSet { units }
    }

    /// The number of units.
    pub fn len(&self) -> (len: usize)
        ensures
            len == self.units().len(),
    {
        self.units.len()
    }

    /// The unit at `index`, if there is one.
    pub fn get(&self, index: usize) -> (unit: Option<&Unit>)
        ensures
            index < self.units().len() ==> unit == Some(&self.units()[index as int]),
            index >= self.units().len() ==> unit is None,
    {
        if index < self.units.len() {
            Some(&self.units[index])
        } else {
            None
        }
    }

    /// Hands the units back, in order.
    pub fn into_units(self) -> (units: Vec<Unit>)
        ensures
            units@ == self.units(),
    {
        self.units
    }

    /// Has the unit at `index` take one step of its restart loop, and
    /// answers with the action to perform for it; `None` where there is no
    /// such unit. No other unit changes, and no descriptor.
    pub fn run(&mut self, index: usize, exit_flag: bool, event: Event) -> (action: Option<Action>)
        ensures
            final(self)@ == set_next(
                old(self)@,
                Slot::Step { unit: index as int, shutdown: exit_flag, event },
            ),
            action == (if index < old(self)@.len() {
                old(self)@[index as int].asks(Slot::Step { unit: index as int, shutdown: exit_flag, event })
            } else {
                None
            }),
            final(self).units().len() == old(self).units().len(),
            forall|i: int|
                0 <= i < old(self).units().len() ==> (#[trigger] final(self).units()[i]).same_descriptor(
                    &old(self).units()[i],
                ),
            forall|i: int|
                0 <= i < old(self).units().len() && i != index ==> #[trigger] final(self).units()[i]
                    == old(self).units()[i],
    {
        if index < self.units.len() {
            let action = self.units[index].run(exit_flag, event);
            assert(self@ =~= set_next(
                old(self)@,
                Slot::Step { unit: index as int, shutdown: exit_flag, event },
            ));
            Some(action)
        } else {
            None
        }
    }

    /// Disables the unit at `index`, if there is one. No other unit
    /// changes.
    pub fn disable(&mut self, index: usize)
        ensures
            final(self)@ == set_next(old(self)@, Slot::Disable { unit: index as int }),
            final(self).units().len() == old(self).units().len(),
            index < old(self).units().len() ==> final(self).units()[index as int].disabled_descriptor(
                &old(self).units()[index as int],
            ),
            forall|i: int|
                0 <= i < old(self).units().len() && i != index ==> #[trigger] final(self).units()[i]
                    == old(self).units()[i],
    {
        if index < self.units.len() {
            self.units[index].disable();
            assert(self@ =~= set_next(old(self)@, Slot::Disable { unit: index as int }));
        }
    }

    /// For each unit, whether it has left its loop.
    pub fn finished(&self) -> (flags: Vec<bool>)
        ensures
            flags@.len() == self@.len(),
            forall|i: int|
                0 <= i < flags@.len() ==> #[trigger] flags@[i] == (self@[i].state.phase == Phase::Finished),
    {
        let mut flags: Vec<bool> = Vec::new();
        let mut i: usize = 0;
        while i < self.units.len()
            invariant
                i <= self.units@.len(),
                flags@.len() == i,
                forall|j: int|
                    0 <= j < i ==> #[trigger] flags@[j] == (self.units@[j].task().phase == Phase::Finished),
            decreases self.units@.len() - i,
        {
            flags.push(self.units[i].is_finished());
            i = i + 1;
        }
        flags
    }

    /// Whether every unit has left its loop.
    pub fn all_finished(&self) -> (done: bool)
        ensures
            done == all_done(self@),
    {
        let mut i: usize = 0;
        while i < self.units.len()
            invariant
                i <= self.units@.len(),
                forall|j: int| 0 <= j < i ==> (#[trigger] self@[j]).state.phase == Phase::Finished,
            decreases self.units@.len() - i,
        {
            if !self.units[i].is_finished() {
                assert(self@[i as int].state.phase != Phase::Finished);
                return false;
            }
            i = i + 1;
        }
        true
    }
}

} // verus!
