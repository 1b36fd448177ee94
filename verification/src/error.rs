//! The failures that end a run, each with the place in the lifecycle where it arose.

use vstd::prelude::*;
use vstd::string::StringExecFns;

verus! {

/// A group name was registered twice.
#[derive(Debug, Clone, PartialEq, Eq)]
pub struct DuplicateGroupError {
    pub name: String,
}

impl View for DuplicateGroupError {
    type V = Seq<char>;

    open spec fn view(&self) -> Seq<char> {
        self.name@
    }
}

/// Teardown did not go through. The run's result stands as it was.
#[derive(Debug, Clone, PartialEq, Eq)]
pub struct TerminationWarning {
    pub cause: String,
}

impl View for TerminationWarning {
    type V = Seq<char>;

    open spec fn view(&self) -> Seq<char> {
        self.cause@
    }
}

impl DeepView for TerminationWarning {
    type V = Seq<char>;

    open spec fn deep_view(&self) -> Seq<char> {
        self@
    }
}

/// A fatal failure of a run.
#[derive(Debug, PartialEq, Eq)]
pub enum RunError {
    /// The provider refused the request to create a group's instances.
    LaunchRejected { group: String, cause: String },
    /// The provider answered with something other than the requested number of
    /// fresh, distinct instance ids.
    LaunchUnfulfilled { group: String },
    /// A status query failed.
    ReadinessQuery { instance_id: String, cause: String },
    /// An instance was still not ready when its allowance of queries was spent.
    ReadinessTimeout { instance_id: String },
    /// A ready machine came back under another id than the one asked for.
    InvariantViolation { instance_id: String },
    /// No session could be opened to a machine.
    Connect { group: String, address: String, cause: String },
    /// A group's setup routine failed on a machine.
    Setup { group: String, address: String, cause: String },
    /// The workload failed.
    Workload { cause: String },
}

/// Mathematical value of a `RunError`.
pub enum RunErrorView {
    LaunchRejected { group: Seq<char>, cause: Seq<char> },
    LaunchUnfulfilled { group: Seq<char> },
    ReadinessQuery { instance_id: Seq<char>, cause: Seq<char> },
    ReadinessTimeout { instance_id: Seq<char> },
    InvariantViolation { instance_id: Seq<char> },
    Connect { group: Seq<char>, address: Seq<char>, cause: Seq<char> },
    Setup { group: Seq<char>, address: Seq<char>, cause: Seq<char> },
    Workload { cause: Seq<char> },
}

impl View for RunError {
    type V = RunErrorView;

    open spec fn view(&self) -> RunErrorView {
        match *self {
            RunError::LaunchRejected { group, cause } => RunErrorView::LaunchRejected {
                group: group@,
                cause: cause@,
            },
            RunError::LaunchUnfulfilled { group } => RunErrorView::LaunchUnfulfilled {
                group: group@,
            },
            RunError::ReadinessQuery { instance_id, cause } => RunErrorView::ReadinessQuery {
                instance_id: instance_id@,
                cause: cause@,
            },
            RunError::ReadinessTimeout { instance_id } => RunErrorView::ReadinessTimeout {
                instance_id: instance_id@,
            },
            RunError::InvariantViolation { instance_id } => RunErrorView::InvariantViolation {
                instance_id: instance_id@,
            },
            RunError::Connect { group, address, cause } => RunErrorView::Connect {
                group: group@,
                address: address@,
                cause: cause@,
            },
            RunError::Setup { group, address, cause } => RunErrorView::Setup {
                group: group@,
                address: address@,
                cause: cause@,
            },
            RunError::Workload { cause } => RunErrorView::Workload { cause: cause@ },
        }
    }
}

impl DeepView for RunError {
    type V = RunErrorView;

    open spec fn deep_view(&self) -> RunErrorView {
        self@
    }
}

impl RunErrorView {
    /// The text that names the failure and where it arose.
    pub open spec fn message(self) -> Seq<char> {
        match self {
            RunErrorView::LaunchRejected { group, cause } => "failed to launch "@ + group
                + " machines: "@ + cause,
            RunErrorView::LaunchUnfulfilled { group } => "launch of "@ + group
                + " machines was not fulfilled"@,
            RunErrorView::ReadinessQuery { instance_id, cause } => "failed to query instance "@
                + instance_id + ": "@ + cause,
            RunErrorView::ReadinessTimeout { instance_id } => "instance "@ + instance_id
                + " did not become ready in time"@,
            RunErrorView::InvariantViolation { instance_id } => "a machine was reported ready in place of instance "@
                + instance_id,
            RunErrorView::Connect { group, address, cause } => "failed to ssh to "@ + group
                + " machine "@ + address + ": "@ + cause,
            RunErrorView::Setup { group, address, cause } => "setup procedure for "@ + group
                + " machine "@ + address + " failed: "@ + cause,
            RunErrorView::Workload { cause } => "tsunami main routine failed: "@ + cause,
        }
    }
}

fn literal(text: &str) -> (owned: String)
    ensures
        owned@ == text@,
{
    text.to_owned()
}

impl Clone for RunError {
    fn clone(&self) -> (copy: Self)
        ensures
            copy@ == self@,
    {
        match self {
            RunError::LaunchRejected { group, cause } => RunError::LaunchRejected {
                group: group.clone(),
                cause: cause.clone(),
            },
            RunError::LaunchUnfulfilled { group } => RunError::LaunchUnfulfilled {
                group: group.clone(),
            },
            RunError::ReadinessQuery { instance_id, cause } => RunError::ReadinessQuery {
                instance_id: instance_id.clone(),
                cause: cause.clone(),
            },
            RunError::ReadinessTimeout { instance_id } => RunError::ReadinessTimeout {
                instance_id: instance_id.clone(),
            },
            RunError::InvariantViolation { instance_id } => RunError::InvariantViolation {
                instance_id: instance_id.clone(),
            },
            RunError::Connect { group, address, cause } => RunError::Connect {
                group: group.clone(),
                address: address.clone(),
                cause: cause.clone(),
            },
            RunError::Setup { group, address, cause } => RunError::Setup {
                group: group.clone(),
                address: address.clone(),
                cause: cause.clone(),
            },
            RunError::Workload { cause } => RunError::Workload { cause: cause.clone() },
        }
    }
}

impl RunError {
    /// The text that names the failure and where it arose.
    pub fn message(&self) -> (text: String)
        ensures
            text@ == self@.message(),
    {
        match self {
            RunError::LaunchRejected { group, cause } => literal("failed to launch ").concat(
                group.as_str(),
            ).concat(" machines: ").concat(cause.as_str()),
            RunError::LaunchUnfulfilled { group } => literal("launch of ").concat(
                group.as_str(),
            ).concat(" machines was not fulfilled"),
            RunError::ReadinessQuery { instance_id, cause } => literal(
                "failed to query instance ",
            ).concat(instance_id.as_str()).concat(": ").concat(cause.as_str()),
            RunError::ReadinessTimeout { instance_id } => literal("instance ").concat(
                instance_id.as_str(),
            ).concat(" did not become ready in time"),
            RunError::InvariantViolation { instance_id } => literal(
                "a machine was reported ready in place of instance ",
            ).concat(instance_id.as_str()),
            RunError::Connect { group, address, cause } => literal("failed to ssh to ").concat(
                group.as_str(),
            ).concat(" machine ").concat(address.as_str()).concat(": ").concat(cause.as_str()),
            RunError::Setup { group, address, cause } => literal("setup procedure for ").concat(
                group.as_str(),
            ).concat(" machine ").concat(address.as_str()).concat(" failed: ").concat(
                cause.as_str(),
            ),
            RunError::Workload { cause } => literal("tsunami main routine failed: ").concat(
                cause.as_str(),
            ),
        }
    }
}

} // verus!
