//! A supervised host-managed service: its descriptor, the requests that
//! keep it running, and its restart loop.

use crate::host::{
    ServiceCommand, ServiceRequest, ServiceState, ACCESS_PAUSE_CONTINUE, ACCESS_QUERY_STATUS,
    ACCESS_START, ACCESS_STOP, MANAGER_CONNECT,
};
use crate::scheduler::{TaskSet, Unit};
use crate::supervisor::{next, Action, Event, Phase, Supervisor, UnitState};
use vstd::prelude::*;

verus! {

/// Name of the web server's service.
pub const APACHE_SERVICE_NAME: &'static str = "APPRO_Apache";

/// Name of the database's service.
pub const MYSQL_SERVICE_NAME: &'static str = "APPRO_MySQL";

/// One supervised service: its name, whether it is enabled, the rights to
/// connect to the service manager and to open the service with, and the
/// restart loop.
#[derive(Debug)]
pub struct ChildServiceControl {
    pub name: String,
    pub enabled: bool,
    pub request_access: u32,
    pub service_access: u32,
    pub service: Supervisor,
}

impl ChildServiceControl {
    /// State of the unit's restart loop.
    pub open spec fn task(&self) -> UnitState {
        self.service@
    }

    /// An enabled unit for the service `name`, not yet begun. To start the
    /// service the caller connects to the service manager and opens the
    /// service with the rights to query, start, stop, pause and continue
    /// it; the unit exists whether or not that succeeds.
    pub fn new(name: &str) -> (unit: ChildServiceControl)
        ensures
            unit.name@ == name@,
            unit.enabled,
            unit.request_access == MANAGER_CONNECT,
            unit.service_access == ACCESS_QUERY_STATUS | ACCESS_START | ACCESS_STOP
                | ACCESS_PAUSE_CONTINUE,
            unit.task() == UnitState::fresh(),
    {
        ChildServiceControl {
            name: name.to_owned(),
            enabled: true,
            request_access: MANAGER_CONNECT,
            service_access: ACCESS_QUERY_STATUS | ACCESS_START | ACCESS_STOP | ACCESS_PAUSE_CONTINUE,
            service: Supervisor::new(),
        }
    }

    /// Decides, from the answer to a status query, whether a start request
    /// is to be sent: it is, unless the service is running.
    pub fn start<E>(&self, queried: Result<ServiceState, E>) -> (decision: Result<
        Option<ServiceRequest>,
        E,
    >)
        ensures
            decision == ServiceCommand::Start.after_query(queried),
    {
        ServiceCommand::Start.request(queried)
    }

    /// Decides, from the answer to a status query, whether a stop request
    /// is to be sent: it is, unless the service is stopped.
    pub fn stop<E>(&self, queried: Result<ServiceState, E>) -> (decision: Result<
        Option<ServiceRequest>,
        E,
    >)
        ensures
            decision == ServiceCommand::Stop.after_query(queried),
    {
        ServiceCommand::Stop.request(queried)
    }

    /// Decides, from the answer to a status query, whether a pause request
    /// is to be sent: it is, unless the service is paused.
    pub fn pause<E>(&self, queried: Result<ServiceState, E>) -> (decision: Result<
        Option<ServiceRequest>,
        E,
    >)
        ensures
            decision == ServiceCommand::Pause.after_query(queried),
    {
        ServiceCommand::Pause.request(queried)
    }

    /// Decides, from the answer to a status query, whether a continue
    /// request is to be sent: it is, unless the service is running.
    pub fn resume<E>(&self, queried: Result<ServiceState, E>) -> (decision: Result<
        Option<ServiceRequest>,
        E,
    >)
        ensures
            decision == ServiceCommand::Resume.after_query(queried),
    {
        ServiceCommand::Resume.request(queried)
    }

    /// Reads the answer to a status query as the outcome of a poll: a
    /// running service is alive, one in any other state counts as exited,
    /// and a query that failed is a failed poll.
    pub fn status<E>(&self, queried: &Result<ServiceState, E>) -> (polled: Event)
        ensures
            polled == poll_outcome(*queried),
    {
        match queried {
            Ok(ServiceState::Running) => Event::StillRunning,
            Ok(_) => Event::Exited,
            Err(_) => Event::PollFailed,
        }
    }

    /// Reads the outcome of a start attempt as the event to hand to the
    /// loop. Opening the service is part of the attempt: a service that
    /// cannot be opened, or asked, or started, is a failed start, which is
    /// not raised and is tried again at the next cycle.
    pub fn started<E>(&self, attempted: &Result<(), E>) -> (event: Event)
        ensures
            event == start_outcome(*attempted),
    {
        match attempted {
            Ok(_) => Event::Started(SERVICE_HANDLE),
            Err(_) => Event::StartFailed,
        }
    }

    /// Whether the unit has left its loop.
    pub fn is_finished(&self) -> (finished: bool)
        ensures
            finished == (self.task().phase == Phase::Finished),
    {
        self.service.is_finished()
    }

    /// Takes one step of the unit's restart loop and answers with the
    /// action to perform next.
    ///
    /// `exit_flag` is the shutdown signal as read for this step, `event`
    /// the outcome of the action that the last step asked for (`Woke` to
    /// begin with). The descriptor is left alone.
    pub fn run(&mut self, exit_flag: bool, event: Event) -> (action: Action)
        ensures
            final(self).name == old(self).name,
            final(self).enabled == old(self).enabled,
            final(self).request_access == old(self).request_access,
            final(self).service_access == old(self).service_access,
            (final(self).task(), action) == next(old(self).task(), old(self).enabled, exit_flag, event),
            old(self).task().wf(),
            final(self).task().wf(),
    {
        let enabled = self.enabled;
        self.service.step(enabled, exit_flag, event)
    }
}

/// The outcome of a poll that a status query stands for.
pub open spec fn poll_outcome<E>(queried: Result<ServiceState, E>) -> Event {
    match queried {
        Ok(current) => if current == ServiceState::Running {
            Event::StillRunning
        } else {
            Event::Exited
        },
        Err(_) => Event::PollFailed,
    }
}

/// The number that stands for the handle of a service: the service manager
/// knows a service by its name, so one number serves for all.
pub const SERVICE_HANDLE: u32 = 0;

/// The event that the outcome of a start attempt stands for. An attempt is
/// all of opening the service, asking for its state, and sending the start
/// request where one is due; where any of it fails, the start has failed.
pub open spec fn start_outcome<E>(attempted: Result<(), E>) -> Event {
    match attempted {
        Ok(_) => Event::Started(SERVICE_HANDLE),
        Err(_) => Event::StartFailed,
    }
}

/// The names of the known services: the web server's and the database's,
/// in that order.
pub open spec fn known_services() -> Seq<Seq<char>> {
    seq![APACHE_SERVICE_NAME@, MYSQL_SERVICE_NAME@]
}

/// The units of the known services, in order, none of them begun. There is
/// a unit for each, whether or not the service can be opened at the time:
/// a service that cannot be opened is a start that fails, and the unit's
/// loop tries again at every cycle.
pub fn get_services() -> (list: Vec<ChildServiceControl>)
    ensures
        list@.len() == known_services().len(),
        forall|i: int|
            0 <= i < list@.len() ==> {
                &&& (#[trigger] list@[i]).name@ == known_services()[i]
                &&& list@[i].enabled
                &&& list@[i].task() == UnitState::fresh()
                &&& list@[i].request_access == MANAGER_CONNECT
                &&& list@[i].service_access == ACCESS_QUERY_STATUS | ACCESS_START | ACCESS_STOP
                    | ACCESS_PAUSE_CONTINUE
            },
{
    let mut list: Vec<ChildServiceControl> = Vec::new();
    list.push(ChildServiceControl::new(APACHE_SERVICE_NAME));
    list.push(ChildServiceControl::new(MYSQL_SERVICE_NAME));
    list
}

/// Puts the services under supervision: one task per unit, in the order of
/// the list, none of them begun.
pub fn run_services(list: Vec<ChildServiceControl>) -> (tasks: TaskSet)
    ensures
        tasks.units() == list@.map_values(|unit: ChildServiceControl| Unit::Service(unit)),
{
    let mut units: Vec<Unit> = Vec::new();
    let ghost all = list@;
    for unit in it: list.into_iter()
        invariant
            it.seq() == all,
            units@.len() == it.index(),
            forall|i: int| 0 <= i < units@.len() ==> units@[i] == Unit::Service(all[i]),
    {
        units.push(Unit::Service(unit));
    }
    let tasks = TaskSet::new(units);
    assert(tasks.units() =~= all.map_values(|unit: ChildServiceControl| Unit::Service(unit)));
    tasks
}

} // verus!
