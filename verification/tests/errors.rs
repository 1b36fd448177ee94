use tsunami::RunError;

fn s(text: &str) -> String {
    text.to_string()
}

#[test]
fn launch_rejected_message() {
    let e = RunError::LaunchRejected { group: s("server"), cause: s("quota") };
    assert_eq!(e.message(), "failed to launch server machines: quota");
}

#[test]
fn launch_unfulfilled_message() {
    let e = RunError::LaunchUnfulfilled { group: s("client") };
    assert_eq!(e.message(), "launch of client machines was not fulfilled");
}

#[test]
fn readiness_query_message() {
    let e = RunError::ReadinessQuery { instance_id: s("i-1"), cause: s("throttled") };
    assert_eq!(e.message(), "failed to query instance i-1: throttled");
}

#[test]
fn readiness_timeout_message() {
    let e = RunError::ReadinessTimeout { instance_id: s("i-1") };
    assert_eq!(e.message(), "instance i-1 did not become ready in time");
}

#[test]
fn invariant_violation_message() {
    let e = RunError::InvariantViolation { instance_id: s("i-1") };
    assert_eq!(e.message(), "a machine was reported ready in place of instance i-1");
}

#[test]
fn connect_message() {
    let e = RunError::Connect { group: s("server"), address: s("h.example.com"), cause: s("refused") };
    assert_eq!(e.message(), "failed to ssh to server machine h.example.com: refused");
}

#[test]
fn setup_message() {
    let e = RunError::Setup { group: s("server"), address: s("h.example.com"), cause: s("exit 1") };
    assert_eq!(e.message(), "setup procedure for server machine h.example.com failed: exit 1");
}

#[test]
fn workload_message() {
    let e = RunError::Workload { cause: s("boom") };
    assert_eq!(e.message(), "tsunami main routine failed: boom");
}

#[test]
fn clone_of_an_error_is_equal_to_it() {
    let all = vec![
        RunError::LaunchRejected { group: s("g"), cause: s("c") },
        RunError::LaunchUnfulfilled { group: s("g") },
        RunError::ReadinessQuery { instance_id: s("i"), cause: s("c") },
        RunError::ReadinessTimeout { instance_id: s("i") },
        RunError::InvariantViolation { instance_id: s("i") },
        RunError::Connect { group: s("g"), address: s("a"), cause: s("c") },
        RunError::Setup { group: s("g"), address: s("a"), cause: s("c") },
        RunError::Workload { cause: s("c") },
    ];
    for e in &all {
        assert_eq!(&e.clone(), e);
    }
}
