//! The commands of the operator: installing and removing the supervisor's
//! own service, and starting, stopping, pausing and continuing it. The
//! library says which service to open with which rights, and what to send
//! once the service has told its state; the calls are the caller's.

use crate::host::{
    ServiceCommand, ServiceRequest, ServiceState, ACCESS_CHANGE_CONFIG, ACCESS_DELETE,
    ACCESS_INTERROGATE, ACCESS_PAUSE_CONTINUE, ACCESS_QUERY_STATUS, ACCESS_START, ACCESS_STOP,
    MANAGER_CONNECT, MANAGER_CREATE_SERVICE, TYPE_OWN_PROCESS,
};
use crate::SERVICE_NAME;
use vstd::prelude::*;

verus! {

/// Name of the supervisor's service as the host shows it.
pub const SERVICE_DISPLAY_NAME: &'static str = "A1 Супервизор АП-ПРО";

/// What the host shows as the description of the supervisor's service.
pub const SERVICE_DESC: &'static str = "Контроль сервисов АП";

/// The argument that tells the program that the host has started it as a
/// service.
pub const LAUNCH_ARGUMENT: &'static str = "runservice";

/// When the host starts a service.
#[derive(Debug, Clone, Copy, PartialEq, Eq, Structural)]
pub enum ServiceStartType {
    AutoStart,
    OnDemand,
    Disabled,
}

/// What the host does when a service fails to start.
#[derive(Debug, Clone, Copy, PartialEq, Eq, Structural)]
pub enum ServiceErrorControl {
    Critical,
    Ignore,
    Normal,
    Severe,
}

/// A service to open: its name, the rights to connect to the service
/// manager with, and the rights to open the service with.
#[derive(Debug)]
pub struct ServiceControl {
    pub name: String,
    pub request_access: u32,
    pub service_access: u32,
}

/// What the host is told of a service that is to be registered.
#[derive(Debug)]
pub struct ServiceInfo {
    pub name: String,
    pub display_name: String,
    pub service_type: u32,
    pub start_type: ServiceStartType,
    pub error_control: ServiceErrorControl,
    pub executable_path: String,
    pub launch_arguments: Vec<String>,
    pub dependencies: Vec<String>,
    pub account_name: Option<String>,
    pub account_password: Option<String>,
}

/// How to register the supervisor's service: the rights to connect to the
/// service manager with, what to tell it, the rights to create the service
/// with, and the description to set on it afterwards.
#[derive(Debug)]
pub struct Installation {
    pub request_access: u32,
    pub info: ServiceInfo,
    pub service_access: u32,
    pub description: String,
}

impl ServiceControl {
    /// The service `name`, to be opened with the rights to query, start
    /// and stop it.
    pub fn new(name: &str) -> (control: ServiceControl)
        ensures
            control.name@ == name@,
            control.request_access == MANAGER_CONNECT,
            control.service_access == ACCESS_QUERY_STATUS | ACCESS_START | ACCESS_STOP,
    {
        ServiceControl {
            name: name.to_owned(),
            request_access: MANAGER_CONNECT,
            service_access: ACCESS_QUERY_STATUS | ACCESS_START | ACCESS_STOP,
        }
    }

    /// Decides, from the answer to a status query, whether a start request
    /// is to be sent: it is, unless the service is running.
    pub fn start<E>(&self, queried: Result<ServiceState, E>) -> (decision: Result<
        Option<ServiceRequest>,
        E,
    >)
        ensures
            decision == ServiceCommand::Start.after_query(queried),
    {
        ServiceCommand::Start.request(queried)
    }

    /// Decides, from the answer to a status query, whether a stop request
    /// is to be sent: it is, unless the service is stopped.
    pub fn stop<E>(&self, queried: Result<ServiceState, E>) -> (decision: Result<
        Option<ServiceRequest>,
        E,
    >)
        ensures
            decision == ServiceCommand::Stop.after_query(queried),
    {
        ServiceCommand::Stop.request(queried)
    }

    /// Decides, from the answer to a status query, whether a pause request
    /// is to be sent: it is, unless the service is paused.
    pub fn pause<E>(&self, queried: Result<ServiceState, E>) -> (decision: Result<
        Option<ServiceRequest>,
        E,
    >)
        ensures
            decision == ServiceCommand::Pause.after_query(queried),
    {
        ServiceCommand::Pause.request(queried)
    }

    /// Decides, from the answer to a status query, whether a continue
    /// request is to be sent: it is, unless the service is running.
    pub fn resume<E>(queried: Result<ServiceState, E>) -> (decision: Result<Option<ServiceRequest>, E>)
        ensures
            decision == ServiceCommand::Resume.after_query(queried),
    {
        ServiceCommand::Resume.request(queried)
    }

    /// The supervisor's own service, to be opened for showing its status:
    /// with the rights to query and to interrogate it.
    pub fn status() -> (control: ServiceControl)
        ensures
            control.name@ == SERVICE_NAME@,
            control.request_access == MANAGER_CONNECT,
            control.service_access == ACCESS_QUERY_STATUS | ACCESS_INTERROGATE,
    {
        get_service(MANAGER_CONNECT, ACCESS_INTERROGATE)
    }
}

/// The supervisor's own service, to be opened for a purpose that takes the
/// rights `service_access`: the right to query the status is added, since
/// every command asks for the state first.
pub fn get_service(request_access: u32, service_access: u32) -> (control: ServiceControl)
    ensures
        control.name@ == SERVICE_NAME@,
        control.request_access == request_access,
        control.service_access == ACCESS_QUERY_STATUS | service_access,
{
    ServiceControl {
        name: SERVICE_NAME.to_owned(),
        request_access,
        service_access: ACCESS_QUERY_STATUS | service_access,
    }
}

/// The supervisor's own service, to be opened for sending `command`.
pub fn service_for(command: ServiceCommand) -> (control: ServiceControl)
    ensures
        control.name@ == SERVICE_NAME@,
        control.request_access == MANAGER_CONNECT,
        control.service_access == ACCESS_QUERY_STATUS | command.right(),
{
    let right = match command {
        ServiceCommand::Start => ACCESS_START,
        ServiceCommand::Stop => ACCESS_STOP,
        ServiceCommand::Pause | ServiceCommand::Resume => ACCESS_PAUSE_CONTINUE,
    };
    get_service(MANAGER_CONNECT, right)
}

/// The arguments that the supervisor's service is started with.
pub fn launch_arguments() -> (arguments: Vec<String>)
    ensures
        arguments.deep_view() == seq![LAUNCH_ARGUMENT@],
{
    let mut arguments: Vec<String> = Vec::new();
    arguments.push(LAUNCH_ARGUMENT.to_owned());
    proof {
        assert(arguments.deep_view() =~= seq![LAUNCH_ARGUMENT@]);
    }
    arguments
}

/// Decides, from the answer to a status query, whether the supervisor's
/// service is to be started: it is, unless it is running.
pub fn start<E>(queried: Result<ServiceState, E>) -> (decision: Result<Option<ServiceRequest>, E>)
    ensures
        decision == ServiceCommand::Start.after_query(queried),
{
    ServiceCommand::Start.request(queried)
}

/// Decides, from the answer to a status query, whether the supervisor's
/// service is to be stopped: it is, unless it is stopped.
pub fn stop<E>(queried: Result<ServiceState, E>) -> (decision: Result<Option<ServiceRequest>, E>)
    ensures
        decision == ServiceCommand::Stop.after_query(queried),
{
    ServiceCommand::Stop.request(queried)
}

/// Decides, from the answer to a status query, whether the supervisor's
/// service is to be paused: it is, unless it is paused.
pub fn pause<E>(queried: Result<ServiceState, E>) -> (decision: Result<Option<ServiceRequest>, E>)
    ensures
        decision == ServiceCommand::Pause.after_query(queried),
{
    ServiceCommand::Pause.request(queried)
}

/// Decides, from the answer to a status query, whether the supervisor's
/// service is to be continued: it is, unless it is running.
pub fn resume<E>(queried: Result<ServiceState, E>) -> (decision: Result<Option<ServiceRequest>, E>)
    ensures
        decision == ServiceCommand::Resume.after_query(queried),
{
    ServiceCommand::Resume.request(queried)
}

/// The supervisor's own service, to be opened for showing its status: with
/// the rights to query and to interrogate it.
pub fn status() -> (control: ServiceControl)
    ensures
        control.name@ == SERVICE_NAME@,
        control.request_access == MANAGER_CONNECT,
        control.service_access == ACCESS_QUERY_STATUS | ACCESS_INTERROGATE,
{
    get_service(MANAGER_CONNECT, ACCESS_INTERROGATE)
}

/// Says how to register the supervisor as a service that runs the program
/// at `executable_path`: in a process of its own, started with the system
/// and with the launch argument, under the system account, with no
/// dependencies.
pub fn install(executable_path: String) -> (plan: Installation)
    ensures
        plan.request_access == MANAGER_CONNECT | MANAGER_CREATE_SERVICE,
        plan.service_access == ACCESS_CHANGE_CONFIG,
        plan.description@ == SERVICE_DESC@,
        plan.info.name@ == SERVICE_NAME@,
        plan.info.display_name@ == SERVICE_DISPLAY_NAME@,
        plan.info.service_type == TYPE_OWN_PROCESS,
        plan.info.start_type == ServiceStartType::AutoStart,
        plan.info.error_control == ServiceErrorControl::Normal,
        plan.info.executable_path == executable_path,
        plan.info.launch_arguments.deep_view() == seq![LAUNCH_ARGUMENT@],
        plan.info.dependencies@.len() == 0,
        plan.info.account_name is None,
        plan.info.account_password is None,
{
    Installation {
        request_access: MANAGER_CONNECT | MANAGER_CREATE_SERVICE,
        info: ServiceInfo {
            name: SERVICE_NAME.to_owned(),
            display_name: SERVICE_DISPLAY_NAME.to_owned(),
            service_type: TYPE_OWN_PROCESS,
            start_type: ServiceStartType::AutoStart,
            error_control: ServiceErrorControl::Normal,
            executable_path,
            launch_arguments: launch_arguments(),
            dependencies: Vec::new(),
            account_name: None,
            account_password: None,
        },
        service_access: ACCESS_CHANGE_CONFIG,
        description: SERVICE_DESC.to_owned(),
    }
}

/// The supervisor's own service, to be opened for removing it: with the
/// rights to query, stop and delete it.
pub fn service_to_remove() -> (control: ServiceControl)
    ensures
        control.name@ == SERVICE_NAME@,
        control.request_access == MANAGER_CONNECT,
        control.service_access == ACCESS_QUERY_STATUS | ACCESS_STOP | ACCESS_DELETE,
{
    ServiceControl {
        name: SERVICE_NAME.to_owned(),
        request_access: MANAGER_CONNECT,
        service_access: ACCESS_QUERY_STATUS | ACCESS_STOP | ACCESS_DELETE,
    }
}

/// Decides, from the answer to a status query, what is to be sent to the
/// supervisor's service before it is deleted: a stop request, unless it is
/// stopped. A query that failed hands its failure on, and the service is
/// not deleted.
pub fn uninstall<E>(queried: Result<ServiceState, E>) -> (decision: Result<Option<ServiceRequest>, E>)
    ensures
        decision == ServiceCommand::Stop.after_query(queried),
{
    ServiceCommand::Stop.request(queried)
}

} // verus!
