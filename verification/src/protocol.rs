//! What passes between the orchestrator and its driver: the driver reports an
//! `Event`, the orchestrator answers with the `Action` to carry out next.

use crate::error::{RunError, RunErrorView, TerminationWarning};
use crate::fleet::{Fleet, FleetGroupView};
use crate::machine::{InstanceReport, InstanceReportView};
use vstd::prelude::*;

verus! {

/// Seconds to wait before an instance that was not ready is queried again.
pub const POLL_BACKOFF_SECS: u64 = 5;

/// Where a run stands.
#[derive(Clone, Copy, Debug, PartialEq, Eq, Structural)]
pub enum Stage {
    /// Nothing has been requested yet.
    Idle,
    /// The launch request for group `group` is out.
    Launching { group: usize },
    /// Instance `machine` of group `group` is being polled; `polls` answers said
    /// "not ready" so far, and `sleeping` tells whether the backoff is running.
    AwaitingReady { group: usize, machine: usize, polls: u32, sleeping: bool },
    /// Machine `machine` of group `group` is being connected to and set up.
    Configuring { group: usize, machine: usize },
    /// The workload has the fleet.
    Running,
    /// The termination request is out.
    Terminating,
    /// The run is over.
    Done,
}

/// Mathematical value of a `Stage`.
pub enum Phase {
    Idle,
    Launching { group: int },
    AwaitingReady { group: int, machine: int, polls: int, sleeping: bool },
    Configuring { group: int, machine: int },
    Running,
    Terminating,
    Done,
}

impl View for Stage {
    type V = Phase;

    open spec fn view(&self) -> Phase {
        match *self {
            Stage::Idle => Phase::Idle,
            Stage::Launching { group } => Phase::Launching { group: group as int },
            Stage::AwaitingReady { group, machine, polls, sleeping } => Phase::AwaitingReady {
                group: group as int,
                machine: machine as int,
                polls: polls as int,
                sleeping: sleeping,
            },
            Stage::Configuring { group, machine } => Phase::Configuring {
                group: group as int,
                machine: machine as int,
            },
            Stage::Running => Phase::Running,
            Stage::Terminating => Phase::Terminating,
            Stage::Done => Phase::Done,
        }
    }
}

/// What the driver reports.
#[derive(Debug)]
pub enum Event<S> {
    /// The run is to begin.
    Start,
    /// The provider created instances and assigned these ids.
    Launched { instance_ids: Vec<String> },
    /// The provider refused to create instances.
    LaunchFailed { cause: String },
    /// The provider answered a status query with these reports.
    Described { instances: Vec<InstanceReport> },
    /// A status query failed.
    DescribeFailed { cause: String },
    /// The backoff interval has passed.
    Slept,
    /// A session was opened and the setup routine succeeded on it.
    Configured { session: S },
    /// No session could be opened.
    ConnectFailed { cause: String },
    /// The setup routine failed.
    SetupFailed { cause: String },
    /// The workload returned success.
    WorkloadSucceeded,
    /// The workload returned a failure.
    WorkloadFailed { cause: String },
    /// The provider accepted the termination request.
    Terminated,
    /// The termination request failed.
    TerminateFailed { cause: String },
}

/// Mathematical value of an `Event`.
pub enum EventView<S> {
    Start,
    Launched { instance_ids: Seq<Seq<char>> },
    LaunchFailed { cause: Seq<char> },
    Described { instances: Seq<InstanceReportView> },
    DescribeFailed { cause: Seq<char> },
    Slept,
    Configured { session: S },
    ConnectFailed { cause: Seq<char> },
    SetupFailed { cause: Seq<char> },
    WorkloadSucceeded,
    WorkloadFailed { cause: Seq<char> },
    Terminated,
    TerminateFailed { cause: Seq<char> },
}

impl<S> View for Event<S> {
    type V = EventView<S>;

    open spec fn view(&self) -> EventView<S> {
        match *self {
            Event::Start => EventView::Start,
            Event::Launched { instance_ids } => EventView::Launched {
                instance_ids: instance_ids.deep_view(),
            },
            Event::LaunchFailed { cause } => EventView::LaunchFailed { cause: cause@ },
            Event::Described { instances } => EventView::Described {
                instances: instances.deep_view(),
            },
            Event::DescribeFailed { cause } => EventView::DescribeFailed { cause: cause@ },
            Event::Slept => EventView::Slept,
            Event::Configured { session } => EventView::Configured { session: session },
            Event::ConnectFailed { cause } => EventView::ConnectFailed { cause: cause@ },
            Event::SetupFailed { cause } => EventView::SetupFailed { cause: cause@ },
            Event::WorkloadSucceeded => EventView::WorkloadSucceeded,
            Event::WorkloadFailed { cause } => EventView::WorkloadFailed { cause: cause@ },
            Event::Terminated => EventView::Terminated,
            Event::TerminateFailed { cause } => EventView::TerminateFailed { cause: cause@ },
        }
    }
}

/// What the driver is to do next.
#[derive(Debug)]
pub enum Action<S> {
    /// Create `number` instances for group `group` in one request, tagged with `name`.
    Launch {
        group: usize,
        name: String,
        number: u16,
        instance_type: String,
        ami: String,
        key_name: String,
    },
    /// Query the status of this instance.
    Describe { instance_id: String },
    /// Wait this long, then report `Slept`.
    Sleep { seconds: u64 },
    /// Open a session to `endpoint` with the key in `key_file`, and run the setup
    /// routine of group `group` on it.
    Configure { group: usize, name: String, endpoint: String, key_file: String },
    /// Hand the fleet to the workload.
    Workload { fleet: Fleet<S> },
    /// Terminate these instances in one request.
    Terminate { instance_ids: Vec<String> },
    /// The run is over with this result.
    Finish { result: Result<(), RunError>, warning: Option<TerminationWarning> },
    /// The event did not fit the stage; nothing changed and nothing is to be done.
    Ignored,
}

/// Mathematical value of an `Action`.
pub enum ActionView<S> {
    Launch {
        group: int,
        name: Seq<char>,
        number: u16,
        instance_type: Seq<char>,
        ami: Seq<char>,
        key_name: Seq<char>,
    },
    Describe { instance_id: Seq<char> },
    Sleep { seconds: u64 },
    Configure { group: int, name: Seq<char>, endpoint: Seq<char>, key_file: Seq<char> },
    Workload { fleet: Seq<FleetGroupView<S>> },
    Terminate { instance_ids: Seq<Seq<char>> },
    Finish { result: Result<(), RunErrorView>, warning: Option<Seq<char>> },
    Ignored,
}

/// Mathematical value of a run's result.
pub open spec fn result_view(result: Result<(), RunError>) -> Result<(), RunErrorView> {
    match result {
        Ok(_) => Ok(()),
        Err(error) => Err(error@),
    }
}

impl<S> View for Action<S> {
    type V = ActionView<S>;

    open spec fn view(&self) -> ActionView<S> {
        match *self {
            Action::Launch { group, name, number, instance_type, ami, key_name } => ActionView::Launch {
                group: group as int,
                name: name@,
                number: number,
                instance_type: instance_type@,
                ami: ami@,
                key_name: key_name@,
            },
            Action::Describe { instance_id } => ActionView::Describe { instance_id: instance_id@ },
            Action::Sleep { seconds } => ActionView::Sleep { seconds: seconds },
            Action::Configure { group, name, endpoint, key_file } => ActionView::Configure {
                group: group as int,
                name: name@,
                endpoint: endpoint@,
                key_file: key_file@,
            },
            Action::Workload { fleet } => ActionView::Workload { fleet: fleet@ },
            Action::Terminate { instance_ids } => ActionView::Terminate {
                instance_ids: instance_ids.deep_view(),
            },
            Action::Finish { result, warning } => ActionView::Finish {
                result: result_view(result),
                warning: warning.deep_view(),
            },
            Action::Ignored => ActionView::Ignored,
        }
    }
}

} // verus!
