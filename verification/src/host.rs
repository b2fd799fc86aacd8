//! The host's service manager, as far as the supervisor talks to it: the
//! states it reports, the rights it grants, and the requests it takes. All
//! of it is plain data; the calls themselves are the caller's.

use vstd::prelude::*;

verus! {

/// Right to connect to the service manager.
pub const MANAGER_CONNECT: u32 = 0x0001;

/// Right to register a new service with the service manager.
pub const MANAGER_CREATE_SERVICE: u32 = 0x0002;

/// Right to change a service's configuration.
pub const ACCESS_CHANGE_CONFIG: u32 = 0x0002;

/// Right to ask a service for its status.
pub const ACCESS_QUERY_STATUS: u32 = 0x0004;

/// Right to start a service.
pub const ACCESS_START: u32 = 0x0010;

/// Right to stop a service.
pub const ACCESS_STOP: u32 = 0x0020;

/// Right to pause a service and to let it continue.
pub const ACCESS_PAUSE_CONTINUE: u32 = 0x0040;

/// Right to have a service report its status at once.
pub const ACCESS_INTERROGATE: u32 = 0x0080;

/// Right to remove a service.
pub const ACCESS_DELETE: u32 = 0x0001_0000;

/// A service that runs in a process of its own.
pub const TYPE_OWN_PROCESS: u32 = 0x0010;

/// The service takes a stop request.
pub const ACCEPT_STOP: u32 = 0x0001;

/// The service takes pause and continue requests.
pub const ACCEPT_PAUSE_CONTINUE: u32 = 0x0002;

/// Seconds to let a service settle after a request was sent to it.
pub const SETTLE_SECS: u64 = 1;

/// State of a service as the service manager reports it.
#[derive(Debug, Clone, Copy, PartialEq, Eq, Structural)]
pub enum ServiceState {
    Stopped,
    StartPending,
    StopPending,
    Running,
    ContinuePending,
    PausePending,
    Paused,
}

/// A control event that the host sends to a service.
#[derive(Debug, Clone, Copy, PartialEq, Eq, Structural)]
pub enum ControlEvent {
    /// Report the current status; a sign of life is all that is asked.
    Interrogate,
    /// Continue after a pause.
    Continue,
    /// Pause.
    Pause,
    /// Stop.
    Stop,
    /// Any other control event.
    Other,
}

/// A status report to the host.
#[derive(Debug, Clone, Copy, PartialEq, Eq, Structural)]
pub struct ServiceStatus {
    /// Kind of service, as the host numbers it.
    pub service_type: u32,
    /// State that the service is in.
    pub current_state: ServiceState,
    /// Control events that the service takes from now on.
    pub controls_accepted: u32,
    /// Exit code of the service; zero while nothing went wrong.
    pub exit_code: u32,
    /// Progress of a pending operation; zero when none is pending.
    pub checkpoint: u32,
    /// Seconds that the pending operation is expected to take.
    pub wait_hint_secs: u64,
    /// Process of the service; not known to the service itself.
    pub process_id: Option<u32>,
}

/// A request that changes the state of a service.
#[derive(Debug, Clone, Copy, PartialEq, Eq, Structural)]
pub enum ServiceCommand {
    Start,
    Stop,
    Pause,
    Resume,
}

/// A request to send, and the pause to make once it is sent.
#[derive(Debug, Clone, Copy, PartialEq, Eq, Structural)]
pub struct ServiceRequest {
    pub command: ServiceCommand,
    pub settle_secs: u64,
}

impl ServiceCommand {
    /// The state that the command brings a service to.
    pub open spec fn target(self) -> ServiceState {
        match self {
            ServiceCommand::Start | ServiceCommand::Resume => ServiceState::Running,
            ServiceCommand::Stop => ServiceState::Stopped,
            ServiceCommand::Pause => ServiceState::Paused,
        }
    }

    /// The right that sending the command takes.
    pub open spec fn right(self) -> u32 {
        match self {
            ServiceCommand::Start => ACCESS_START,
            ServiceCommand::Stop => ACCESS_STOP,
            ServiceCommand::Pause | ServiceCommand::Resume => ACCESS_PAUSE_CONTINUE,
        }
    }

    /// What is to be sent to a service that reports `current`: nothing
    /// where it is in the command's target state already, the command
    /// otherwise.
    pub open spec fn due(self, current: ServiceState) -> Option<ServiceRequest> {
        if current == self.target() {
            None
        } else {
            Some(ServiceRequest { command: self, settle_secs: SETTLE_SECS })
        }
    }

    /// What follows a status query made on behalf of the command: a query
    /// that failed hands its failure on and nothing is sent.
    pub open spec fn after_query<E>(self, queried: Result<ServiceState, E>) -> Result<
        Option<ServiceRequest>,
        E,
    > {
        match queried {
            Ok(current) => Ok(self.due(current)),
            Err(failure) => Err(failure),
        }
    }

    /// Decides, from the answer to a status query, whether the command is
    /// to be sent.
    pub fn request<E>(self, queried: Result<ServiceState, E>) -> (decision: Result<
        Option<ServiceRequest>,
        E,
    >)
        ensures
            decision == self.after_query(queried),
    {
        match queried {
            Ok(current) => {
                let target = match self {
                    ServiceCommand::Start | ServiceCommand::Resume => ServiceState::Running,
                    ServiceCommand::Stop => ServiceState::Stopped,
                    ServiceCommand::Pause => ServiceState::Paused,
                };
                if current == target {
                    Ok(None)
                } else {
                    Ok(Some(ServiceRequest { command: self, settle_secs: SETTLE_SECS }))
                }
            },
            Err(failure) => Err(failure),
        }
    }
}

} // verus!
