use tsunami::transport::{
    after_connect_failure, key_file, login_user, ssh_endpoint, ConnectError, ConnectFailure,
    ConnectStep, ExecError, ExecErrorKind, ExecStage, CONNECT_RETRIES, CONNECT_RETRY_DELAY_SECS,
};

#[test]
fn endpoint_is_the_address_on_port_22() {
    assert_eq!(ssh_endpoint("ec2-1.example.com"), "ec2-1.example.com:22");
    assert_eq!(ssh_endpoint(""), ":22");
}

#[test]
fn key_file_is_the_key_name_with_pem() {
    assert_eq!(key_file("key1"), "key1.pem");
    assert_eq!(key_file(""), ".pem");
}

#[test]
fn sessions_log_in_as_the_default_account() {
    assert_eq!(login_user(), "ec2-user");
}

#[test]
fn first_tcp_failure_is_retried_after_ten_seconds() {
    assert_eq!(CONNECT_RETRIES, 1);
    assert_eq!(CONNECT_RETRY_DELAY_SECS, 10);
    assert_eq!(
        after_connect_failure(ConnectFailure::Tcp, 0),
        ConnectStep::RetryAfter { seconds: 10 }
    );
}

#[test]
fn second_tcp_failure_gives_up() {
    assert_eq!(after_connect_failure(ConnectFailure::Tcp, 1), ConnectStep::GiveUp);
    assert_eq!(after_connect_failure(ConnectFailure::Tcp, 2), ConnectStep::GiveUp);
    assert_eq!(after_connect_failure(ConnectFailure::Tcp, u32::MAX), ConnectStep::GiveUp);
}

#[test]
fn handshake_and_authentication_failures_are_not_retried() {
    assert_eq!(after_connect_failure(ConnectFailure::Handshake, 0), ConnectStep::GiveUp);
    assert_eq!(after_connect_failure(ConnectFailure::Authentication, 0), ConnectStep::GiveUp);
    assert_eq!(after_connect_failure(ConnectFailure::Authentication, 1), ConnectStep::GiveUp);
}

#[test]
fn connect_error_names_the_failed_step() {
    assert_eq!(
        ConnectError::new(ConnectFailure::Tcp, "timed out").message(),
        "failed to connect to ssh port: timed out"
    );
    assert_eq!(
        ConnectError::new(ConnectFailure::Handshake, "eof").message(),
        "failed to perform ssh handshake: eof"
    );
    assert_eq!(
        ConnectError::new(ConnectFailure::Authentication, "bad key").message(),
        "failed to authenticate ssh session: bad key"
    );
    let e = ConnectError::new(ConnectFailure::Tcp, "timed out");
    assert_eq!(e.failure, ConnectFailure::Tcp);
    assert_eq!(e.cause, "timed out");
}

#[test]
fn command_steps_come_in_order() {
    assert_eq!(ExecStage::first(), ExecStage::OpenChannel);
    assert_eq!(ExecStage::OpenChannel.next(), Some(ExecStage::Execute));
    assert_eq!(ExecStage::Execute.next(), Some(ExecStage::ReadOutput));
    assert_eq!(ExecStage::ReadOutput.next(), Some(ExecStage::AwaitClose));
    assert_eq!(ExecStage::AwaitClose.next(), None);
}

#[test]
fn command_failures_are_told_apart() {
    assert_eq!(ExecStage::OpenChannel.error_kind(), ExecErrorKind::Transport);
    assert_eq!(ExecStage::Execute.error_kind(), ExecErrorKind::Transport);
    assert_eq!(ExecStage::ReadOutput.error_kind(), ExecErrorKind::OutputRead);
    assert_eq!(ExecStage::AwaitClose.error_kind(), ExecErrorKind::NeverCompleted);
    assert_eq!(ExecError::new(ExecStage::ReadOutput, "date", "eof").kind(), ExecErrorKind::OutputRead);
}

#[test]
fn command_error_names_step_and_command() {
    let e = ExecError::new(ExecStage::OpenChannel, "date", "closed");
    assert_eq!(e.stage, ExecStage::OpenChannel);
    assert_eq!(e.command, "date");
    assert_eq!(e.cause, "closed");
    assert_eq!(e.message(), "failed to create ssh channel for command 'date': closed");
    assert_eq!(
        ExecError::new(ExecStage::Execute, "date", "closed").message(),
        "failed to execute command 'date': closed"
    );
    assert_eq!(
        ExecError::new(ExecStage::ReadOutput, "cat /etc/hostname", "eof").message(),
        "failed to read results of command 'cat /etc/hostname': eof"
    );
    assert_eq!(
        ExecError::new(ExecStage::AwaitClose, "date", "timeout").message(),
        "command 'date' never completed: timeout"
    );
}
