//! Keeps a fixed set of worker units (spawned processes and host-managed
//! services) alive, and shuts them down in step with the host's service
//! lifecycle.
//!
//! The library holds every decision of the supervisor as a function from a
//! state and an observation to the next state and the action to perform.
//! Spawning, polling, killing, sleeping and talking to the service manager
//! are left to the caller, which reports back what happened.
//!
//! - [`proc_config`]: the descriptors of the supervised processes.
//! - [`supervisor`]: the restart loop of one unit, and what holds of it.
//! - [`child_proc`], [`child_service`]: a process and a service as units.
//! - [`scheduler`]: the set of units, each on its own.
//! - [`monitor_service`]: the bridge to the host's service lifecycle.
//! - [`engine`]: bridge, units and shutdown signal in one piece.
//! - [`host`], [`control`]: the service manager's vocabulary, and the
//!   operator's commands on the supervisor's own service.
//! - [`logger`]: the lines of the log.

pub mod child_proc;
pub mod child_service;
pub mod control;
pub mod engine;
pub mod host;
pub mod logger;
pub mod monitor_service;
pub mod proc_config;
pub mod scheduler;
pub mod supervisor;

use vstd::prelude::*;

verus! {

/// Name under which the supervisor itself is registered as a service.
pub const SERVICE_NAME: &'static str = "servicers";

} // verus!
