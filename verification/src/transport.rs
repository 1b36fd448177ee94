//! Rules of the secure-shell transport: where to connect, which key to use,
//! when a failed connection is tried again, and how a failed command is told.

use vstd::prelude::*;
use vstd::string::StringExecFns;

verus! {

/// TCP connections tried again after the first one failed.
pub const CONNECT_RETRIES: u32 = 1;

/// Seconds to wait before a TCP connection is tried again.
pub const CONNECT_RETRY_DELAY_SECS: u64 = 10;

/// The host and port to connect to for a machine at `address`.
pub open spec fn endpoint_of(address: Seq<char>) -> Seq<char> {
    address + ":22"@
}

/// The private-key file that belongs to the key called `key_name`.
pub open spec fn key_file_of(key_name: Seq<char>) -> Seq<char> {
    key_name + ".pem"@
}

pub fn ssh_endpoint(address: &str) -> (endpoint: String)
    ensures
        endpoint@ == endpoint_of(address@),
{
    address.to_owned().concat(":22")
}

pub fn key_file(key_name: &str) -> (file: String)
    ensures
        file@ == key_file_of(key_name@),
{
    key_name.to_owned().concat(".pem")
}

/// The account that sessions log in to.
pub fn login_user() -> (user: &'static str)
    ensures
        user@ == "ec2-user"@,
{
    "ec2-user"
}

/// The step of opening a session that failed.
#[derive(Clone, Copy, Debug, PartialEq, Eq, Structural)]
pub enum ConnectFailure {
    /// The TCP connection was not established.
    Tcp,
    /// The session could not be created or the handshake failed.
    Handshake,
    /// The key was not accepted.
    Authentication,
}

impl ConnectFailure {
    /// What is said of a session that could not be opened for this reason.
    pub open spec fn wording(self) -> Seq<char> {
        match self {
            ConnectFailure::Tcp => "failed to connect to ssh port"@,
            ConnectFailure::Handshake => "failed to perform ssh handshake"@,
            ConnectFailure::Authentication => "failed to authenticate ssh session"@,
        }
    }
}

/// A session that could not be opened.
#[derive(Debug, Clone, PartialEq, Eq)]
pub struct ConnectError {
    pub failure: ConnectFailure,
    pub cause: String,
}

/// Mathematical value of a `ConnectError`.
pub struct ConnectErrorView {
    pub failure: ConnectFailure,
    pub cause: Seq<char>,
}

impl View for ConnectError {
    type V = ConnectErrorView;

    open spec fn view(&self) -> ConnectErrorView {
        ConnectErrorView { failure: self.failure, cause: self.cause@ }
    }
}

impl ConnectErrorView {
    /// The text that names the failed step, followed by the cause.
    pub open spec fn message(self) -> Seq<char> {
        self.failure.wording() + ": "@ + self.cause
    }
}

impl ConnectError {
    pub fn new(failure: ConnectFailure, cause: &str) -> (error: Self)
        ensures
            error@ == (ConnectErrorView { failure: failure, cause: cause@ }),
    {
        ConnectError { failure: failure, cause: cause.to_owned() }
    }

    pub fn message(&self) -> (text: String)
        ensures
            text@ == self@.message(),
    {
        let wording: &str = match self.failure {
            ConnectFailure::Tcp => "failed to connect to ssh port",
            ConnectFailure::Handshake => "failed to perform ssh handshake",
            ConnectFailure::Authentication => "failed to authenticate ssh session",
        };
        wording.to_owned().concat(": ").concat(self.cause.as_str())
    }
}

/// What to do after a step of opening a session failed.
#[derive(Clone, Copy, Debug, PartialEq, Eq, Structural)]
pub enum ConnectStep {
    /// Wait, then try the TCP connection again.
    RetryAfter { seconds: u64 },
    /// Report the failure.
    GiveUp,
}

/// Only a failed TCP connection is tried again, and only while fewer than
/// `CONNECT_RETRIES` retries were made.
pub open spec fn connect_step(failure: ConnectFailure, retries_made: u32) -> ConnectStep {
    if failure == ConnectFailure::Tcp && retries_made < CONNECT_RETRIES {
        ConnectStep::RetryAfter { seconds: CONNECT_RETRY_DELAY_SECS }
    } else {
        ConnectStep::GiveUp
    }
}

/// Decides what follows a failed step of opening a session, given how many
/// retries were made before it.
pub fn after_connect_failure(failure: ConnectFailure, retries_made: u32) -> (step: ConnectStep)
    ensures
        step == connect_step(failure, retries_made),
{
    match failure {
        ConnectFailure::Tcp => {
            if retries_made < CONNECT_RETRIES {
                ConnectStep::RetryAfter { seconds: CONNECT_RETRY_DELAY_SECS }
            } else {
                ConnectStep::GiveUp
            }
        },
        _ => ConnectStep::GiveUp,
    }
}

/// The steps of running one command, in order.
#[derive(Clone, Copy, Debug, PartialEq, Eq, Structural)]
pub enum ExecStage {
    OpenChannel,
    Execute,
    ReadOutput,
    AwaitClose,
}

/// The kinds of failure of a command.
#[derive(Clone, Copy, Debug, PartialEq, Eq, Structural)]
pub enum ExecErrorKind {
    /// The channel could not be opened or the command could not be sent.
    Transport,
    /// The command ran, but its output could not be read.
    OutputRead,
    /// The command never reached a completed state.
    NeverCompleted,
}

impl ExecStage {
    /// The kind of failure that a failure at this step is.
    pub open spec fn kind(self) -> ExecErrorKind {
        match self {
            ExecStage::OpenChannel => ExecErrorKind::Transport,
            ExecStage::Execute => ExecErrorKind::Transport,
            ExecStage::ReadOutput => ExecErrorKind::OutputRead,
            ExecStage::AwaitClose => ExecErrorKind::NeverCompleted,
        }
    }

    /// The step that follows this one; the output is read before the close is awaited.
    pub open spec fn following(self) -> Option<ExecStage> {
        match self {
            ExecStage::OpenChannel => Some(ExecStage::Execute),
            ExecStage::Execute => Some(ExecStage::ReadOutput),
            ExecStage::ReadOutput => Some(ExecStage::AwaitClose),
            ExecStage::AwaitClose => None,
        }
    }

    /// What is said of a command that failed at this step, before and after
    /// the command's text.
    pub open spec fn wording(self) -> (Seq<char>, Seq<char>) {
        match self {
            ExecStage::OpenChannel => ("failed to create ssh channel for command '"@, "'"@),
            ExecStage::Execute => ("failed to execute command '"@, "'"@),
            ExecStage::ReadOutput => ("failed to read results of command '"@, "'"@),
            ExecStage::AwaitClose => ("command '"@, "' never completed"@),
        }
    }

    /// The step that a command begins with.
    pub fn first() -> (stage: ExecStage)
        ensures
            stage == ExecStage::OpenChannel,
    {
        ExecStage::OpenChannel
    }

    pub fn error_kind(self) -> (kind: ExecErrorKind)
        ensures
            kind == self.kind(),
    {
        match self {
            ExecStage::OpenChannel => ExecErrorKind::Transport,
            ExecStage::Execute => ExecErrorKind::Transport,
            ExecStage::ReadOutput => ExecErrorKind::OutputRead,
            ExecStage::AwaitClose => ExecErrorKind::NeverCompleted,
        }
    }

    pub fn next(self) -> (stage: Option<ExecStage>)
        ensures
            stage == self.following(),
    {
        match self {
            ExecStage::OpenChannel => Some(ExecStage::Execute),
            ExecStage::Execute => Some(ExecStage::ReadOutput),
            ExecStage::ReadOutput => Some(ExecStage::AwaitClose),
            ExecStage::AwaitClose => None,
        }
    }
}

/// A command that failed.
#[derive(Debug, Clone, PartialEq, Eq)]
pub struct ExecError {
    pub stage: ExecStage,
    pub command: String,
    pub cause: String,
}

/// Mathematical value of an `ExecError`.
pub struct ExecErrorView {
    pub stage: ExecStage,
    pub command: Seq<char>,
    pub cause: Seq<char>,
}

impl View for ExecError {
    type V = ExecErrorView;

    open spec fn view(&self) -> ExecErrorView {
        ExecErrorView { stage: self.stage, command: self.command@, cause: self.cause@ }
    }
}

impl ExecErrorView {
    /// The text that names the failed step and the command, followed by the cause.
    pub open spec fn message(self) -> Seq<char> {
        self.stage.wording().0 + self.command + self.stage.wording().1 + ": "@ + self.cause
    }
}

impl ExecError {
    /// The failure of `command` at `stage` for the reason `cause`.
    pub fn new(stage: ExecStage, command: &str, cause: &str) -> (error: Self)
        ensures
            error@ == (ExecErrorView { stage: stage, command: command@, cause: cause@ }),
    {
        ExecError { stage: stage, command: command.to_owned(), cause: cause.to_owned() }
    }

    pub fn kind(&self) -> (kind: ExecErrorKind)
        ensures
            kind == self@.stage.kind(),
    {
        self.stage.error_kind()
    }

    pub fn message(&self) -> (text: String)
        ensures
            text@ == self@.message(),
    {
        let (before, after): (&str, &str) = match self.stage {
            ExecStage::OpenChannel => ("failed to create ssh channel for command '", "'"),
            ExecStage::Execute => ("failed to execute command '", "'"),
            ExecStage::ReadOutput => ("failed to read results of command '", "'"),
            ExecStage::AwaitClose => ("command '", "' never completed"),
        };
        before.to_owned().concat(self.command.as_str()).concat(after).concat(": ").concat(
            self.cause.as_str(),
        )
    }
}

} // verus!
