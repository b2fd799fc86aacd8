//! A supervised process: its descriptor and its restart loop.

use crate::proc_config::{ProcessConfig, ProcessConfigState, ProcessConfigView};
use crate::scheduler::{TaskSet, Unit};
use crate::supervisor::{cycle, next, worker_gone, Action, Event, Phase, Supervisor, UnitState};
use vstd::prelude::*;

verus! {

/// One supervised process: its descriptor, and the restart loop that holds
/// the handle of the live worker. The loop is driven through
/// [`ChildProcess::run`].
#[derive(Debug)]
pub struct ChildProcess {
    pub config: ProcessConfig,
    pub child: Supervisor,
}

impl ChildProcess {
    /// State of the unit's restart loop.
    pub open spec fn task(&self) -> UnitState {
        self.child@
    }

    /// Whether the unit is to be supervised.
    pub open spec fn enabled(&self) -> bool {
        self.config.enabled()
    }

    /// A unit for an enabled descriptor made of the three values, not yet
    /// begun.
    pub fn _new(program: &str, args: Vec<String>, workdir: String) -> (unit: ChildProcess)
        ensures
            unit.config@ == (ProcessConfigView {
                program: program@,
                args: args.deep_view(),
                cwd: workdir@,
                state: ProcessConfigState::Enabled,
                pid: 0,
            }),
            unit.task() == UnitState::fresh(),
    {
        ChildProcess {
            config: ProcessConfig {
                program: program.to_owned(),
                args,
                cwd: workdir,
                state: ProcessConfigState::Enabled,
                pid: 0,
            },
            child: Supervisor::new(),
        }
    }

    /// A unit for `config`, not yet begun: it holds no handle.
    pub fn from_config(config: ProcessConfig) -> (unit: ChildProcess)
        ensures
            unit.config == config,
            unit.task() == UnitState::fresh(),
    {
        ChildProcess { config, child: Supervisor::new() }
    }

    /// The handle of the live worker, if the unit holds one.
    pub fn child(&self) -> (handle: Option<u32>)
        ensures
            handle == self.task().handle,
            self.task().wf(),
    {
        self.child.handle()
    }

    /// Whether the unit has left its loop.
    pub fn is_finished(&self) -> (finished: bool)
        ensures
            finished == (self.task().phase == Phase::Finished),
    {
        self.child.is_finished()
    }

    /// Takes one step of the unit's restart loop and answers with the
    /// action to perform next.
    ///
    /// `exit_flag` is the shutdown signal as read for this step, `event`
    /// the outcome of the action that the last step asked for (`Woke` to
    /// begin with). The unit is enabled as its descriptor says at the time
    /// of the call. The descriptor is left alone.
    pub fn run(&mut self, exit_flag: bool, event: Event) -> (action: Action)
        ensures
            final(self).config == old(self).config,
            (final(self).task(), action) == next(old(self).task(), old(self).enabled(), exit_flag, event),
            old(self).task().wf(),
            final(self).task().wf(),
    {
        let enabled = self.config.is_valid();
        self.child.step(enabled, exit_flag, event)
    }

    /// Takes the outcome of a start attempt: the new handle, or none where
    /// the start failed. A failure is not raised; the unit goes on without
    /// a handle. For callers that run the loop themselves.
    pub fn start(&mut self, spawned: Option<u32>)
        ensures
            final(self).config == old(self).config,
            final(self).task() == (UnitState { phase: Phase::Sleeping, handle: spawned }),
    {
        self.child.start(spawned);
    }

    /// Takes the outcome of a poll and tells whether a start is due: the
    /// unit is enabled and is without a worker, because it holds no handle,
    /// or the worker has exited, with whatever code, or the poll failed. A
    /// handle whose worker is gone is let go, of a disabled unit too. For
    /// callers that run the loop themselves.
    pub fn try_restart(&mut self, polled: Event) -> (restart: bool)
        ensures
            final(self).config == old(self).config,
            restart == (old(self).enabled() && worker_gone(old(self).task().handle, polled)),
            final(self).task() == (UnitState {
                phase: Phase::Sleeping,
                handle: if worker_gone(old(self).task().handle, polled) {
                    None
                } else {
                    old(self).task().handle
                },
            }),
    {
        let enabled = self.config.is_valid();
        let gone = self.child.try_restart(polled);
        enabled && gone
    }

    /// Obeys the shutdown signal and tells whether there is a handle to
    /// stop. The stop is best effort: the unit is finished once it is
    /// answered, whatever the answer. For callers that run the loop
    /// themselves.
    pub fn kill(&mut self) -> (stop: bool)
        ensures
            final(self).config == old(self).config,
            stop == old(self).task().handle is Some,
            final(self).task().shutting_down(),
            final(self).task() == cycle(old(self).task().handle, true, true).0,
    {
        self.child.kill()
    }
}

/// Puts the units under supervision: one task per unit, in the order of the
/// list, none of them begun.
pub fn run_processes(list: Vec<ChildProcess>) -> (tasks: TaskSet)
    ensures
        tasks.units() == list@.map_values(|unit: ChildProcess| Unit::Process(unit)),
{
    let mut units: Vec<Unit> = Vec::new();
    let ghost all = list@;
    for unit in it: list.into_iter()
        invariant
            it.seq() == all,
            units@.len() == it.index(),
            forall|i: int| 0 <= i < units@.len() ==> units@[i] == Unit::Process(all[i]),
    {
        units.push(Unit::Process(unit));
    }
    let tasks = TaskSet::new(units);
    assert(tasks.units() =~= all.map_values(|unit: ChildProcess| Unit::Process(unit)));
    tasks
}

} // verus!
