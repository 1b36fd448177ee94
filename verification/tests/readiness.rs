use tsunami::{is_instance_ready, InstanceReport, InstanceState, Machine};

fn full(id: &str, state: InstanceState) -> InstanceReport {
    InstanceReport {
        instance_id: Some(id.to_string()),
        instance_type: Some("t2.micro".to_string()),
        private_ip: Some("10.0.0.7".to_string()),
        public_dns: Some("ec2-7.example.com".to_string()),
        key_name: Some("key1".to_string()),
        state: Some(state),
    }
}

fn ready(reports: Vec<InstanceReport>) -> Option<Machine<u32>> {
    is_instance_ready::<u32>(&reports)
}

#[test]
fn running_and_complete_is_ready() {
    let m = ready(vec![full("i-7", InstanceState::Running)]).unwrap();
    assert_eq!(m.instance_id, "i-7");
    assert_eq!(m.instance_type, "t2.micro");
    assert_eq!(m.private_ip, "10.0.0.7");
    assert_eq!(m.public_dns, "ec2-7.example.com");
    assert_eq!(m.key_name, "key1");
    assert_eq!(m.ssh, None);
}

#[test]
fn pending_is_not_ready() {
    assert!(ready(vec![full("i-7", InstanceState::Pending)]).is_none());
}

#[test]
fn every_state_but_running_is_not_ready() {
    for state in [
        InstanceState::Pending,
        InstanceState::ShuttingDown,
        InstanceState::Terminated,
        InstanceState::Stopping,
        InstanceState::Stopped,
        InstanceState::Unknown,
    ] {
        assert!(ready(vec![full("i-7", state)]).is_none());
    }
}

#[test]
fn no_report_is_not_ready() {
    assert!(ready(Vec::new()).is_none());
}

#[test]
fn running_without_public_address_is_not_ready() {
    let mut r = full("i-7", InstanceState::Running);
    r.public_dns = None;
    assert!(ready(vec![r]).is_none());
}

#[test]
fn running_with_empty_public_address_is_not_ready() {
    let mut r = full("i-7", InstanceState::Running);
    r.public_dns = Some(String::new());
    assert!(ready(vec![r]).is_none());
}

#[test]
fn each_missing_attribute_makes_not_ready() {
    let mut r = full("i-7", InstanceState::Running);
    r.instance_id = None;
    assert!(ready(vec![r]).is_none());
    let mut r = full("i-7", InstanceState::Running);
    r.instance_type = None;
    assert!(ready(vec![r]).is_none());
    let mut r = full("i-7", InstanceState::Running);
    r.private_ip = None;
    assert!(ready(vec![r]).is_none());
    let mut r = full("i-7", InstanceState::Running);
    r.key_name = None;
    assert!(ready(vec![r]).is_none());
    let mut r = full("i-7", InstanceState::Running);
    r.state = None;
    assert!(ready(vec![r]).is_none());
}

#[test]
fn each_empty_attribute_makes_not_ready() {
    let mut r = full("i-7", InstanceState::Running);
    r.instance_id = Some(String::new());
    assert!(ready(vec![r]).is_none());
    let mut r = full("i-7", InstanceState::Running);
    r.instance_type = Some(String::new());
    assert!(ready(vec![r]).is_none());
    let mut r = full("i-7", InstanceState::Running);
    r.private_ip = Some(String::new());
    assert!(ready(vec![r]).is_none());
    let mut r = full("i-7", InstanceState::Running);
    r.key_name = Some(String::new());
    assert!(ready(vec![r]).is_none());
}

#[test]
fn complete_report_that_is_not_running_is_passed_over() {
    let m = ready(vec![full("i-1", InstanceState::Stopped), full("i-2", InstanceState::Running)])
        .unwrap();
    assert_eq!(m.instance_id, "i-2");
}

#[test]
fn incomplete_report_ends_the_reading() {
    let mut broken = full("i-1", InstanceState::Pending);
    broken.private_ip = None;
    assert!(ready(vec![broken, full("i-2", InstanceState::Running)]).is_none());
}

#[test]
fn first_running_report_wins() {
    let m = ready(vec![full("i-1", InstanceState::Running), full("i-2", InstanceState::Running)])
        .unwrap();
    assert_eq!(m.instance_id, "i-1");
}

#[test]
fn report_tells_whether_it_is_complete_and_running() {
    let r = full("i-1", InstanceState::Pending);
    assert!(r.is_complete());
    assert!(!r.is_running());
    let mut r = full("i-1", InstanceState::Running);
    assert!(r.is_running());
    r.key_name = None;
    assert!(!r.is_complete());
    assert!(r.is_running());
}
