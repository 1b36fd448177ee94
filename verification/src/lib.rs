//! Fleet lifecycle orchestration for short-lived groups of cloud instances.
//!
//! The library holds the decisions of a run: which request comes next, what a
//! provider's answer means, and what the run reports in the end. It performs
//! no I/O itself; a driver carries out each `Action` and reports back with an
//! `Event`.

pub mod machine;
pub mod error;
pub mod registry;
pub mod fleet;
pub mod protocol;
pub mod transport;
pub mod model;
pub mod reachable;
pub mod orchestrator;
pub mod laws;

pub use crate::error::{DuplicateGroupError, RunError, TerminationWarning};
pub use crate::fleet::{Fleet, FleetGroup};
pub use crate::machine::{is_instance_ready, InstanceReport, InstanceState, Machine};
pub use crate::orchestrator::Orchestrator;
pub use crate::protocol::{Action, Event, Stage};
pub use crate::registry::{Group, MachineSetup, TsunamiBuilder};
