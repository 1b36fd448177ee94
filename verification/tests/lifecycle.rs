use std::collections::HashMap;

use tsunami::{
    Action, Event, Fleet, InstanceReport, InstanceState, MachineSetup, Orchestrator, RunError,
    Stage, TerminationWarning, TsunamiBuilder,
};

/// A provider and transport that answer from a script.
struct World {
    next_id: u32,
    /// Status queries that say "pending" before an instance is reported running.
    pending_polls: u32,
    /// Instances that never leave "pending".
    stuck: Vec<String>,
    /// Queries seen per instance.
    queries: HashMap<String, u32>,
    launches: Vec<(String, u16, String, String, String)>,
    key_of: HashMap<String, String>,
    sleeps: Vec<u64>,
    configured: Vec<(String, String, String)>,
    /// The endpoint at which setup fails, if any.
    setup_fails_at: Option<String>,
    /// The endpoint at which the connection fails, if any.
    connect_fails_at: Option<String>,
    next_session: u32,
    workload_calls: u32,
    workload_fails: bool,
    terminations: Vec<Vec<String>>,
    terminate_fails: bool,
}

fn world() -> World {
    World {
        next_id: 0,
        pending_polls: 0,
        stuck: Vec::new(),
        queries: HashMap::new(),
        launches: Vec::new(),
        key_of: HashMap::new(),
        sleeps: Vec::new(),
        configured: Vec::new(),
        setup_fails_at: None,
        connect_fails_at: None,
        next_session: 100,
        workload_calls: 0,
        workload_fails: false,
        terminations: Vec::new(),
        terminate_fails: false,
    }
}

fn report(id: &str, key: &str, state: InstanceState) -> InstanceReport {
    InstanceReport {
        instance_id: Some(id.to_string()),
        instance_type: Some("t2.micro".to_string()),
        private_ip: Some(format!("10.0.0.{}", &id[2..])),
        public_dns: Some(format!("{}.example.com", id)),
        key_name: Some(key.to_string()),
        state: Some(state),
    }
}

/// Carries out actions until the run finishes, and returns what it reported
/// together with the fleet as the workload saw it.
fn drive(
    run: &mut Orchestrator<&'static str, u32>,
    w: &mut World,
) -> (Result<(), RunError>, Option<TerminationWarning>, Option<Fleet<u32>>) {
    let mut seen: Option<Fleet<u32>> = None;
    let mut action = run.step(Event::Start);
    loop {
        let event = match action {
            Action::Launch { group: _, name, number, instance_type, ami, key_name } => {
                let mut ids = Vec::new();
                for _ in 0..number {
                    w.next_id += 1;
                    let id = format!("i-{}", w.next_id);
                    w.key_of.insert(id.clone(), key_name.clone());
                    ids.push(id);
                }
                w.launches.push((name, number, instance_type, ami, key_name));
                Event::Launched { instance_ids: ids }
            }
            Action::Describe { instance_id } => {
                let n = w.queries.entry(instance_id.clone()).or_insert(0);
                *n += 1;
                let key = w.key_of[&instance_id].clone();
                let state = if w.stuck.contains(&instance_id) || *n <= w.pending_polls {
                    InstanceState::Pending
                } else {
                    InstanceState::Running
                };
                Event::Described { instances: vec![report(&instance_id, &key, state)] }
            }
            Action::Sleep { seconds } => {
                w.sleeps.push(seconds);
                Event::Slept
            }
            Action::Configure { group, name, endpoint, key_file } => {
                assert!(run.setup_routine(group).is_some());
                w.configured.push((name, endpoint.clone(), key_file));
                if w.connect_fails_at.as_deref() == Some(endpoint.as_str()) {
                    Event::ConnectFailed { cause: "connection refused".to_string() }
                } else if w.setup_fails_at.as_deref() == Some(endpoint.as_str()) {
                    Event::SetupFailed { cause: "exit status 1".to_string() }
                } else {
                    w.next_session += 1;
                    Event::Configured { session: w.next_session }
                }
            }
            Action::Workload { fleet } => {
                w.workload_calls += 1;
                seen = Some(fleet);
                if w.workload_fails {
                    Event::WorkloadFailed { cause: "benchmark crashed".to_string() }
                } else {
                    Event::WorkloadSucceeded
                }
            }
            Action::Terminate { instance_ids } => {
                w.terminations.push(instance_ids);
                if w.terminate_fails {
                    Event::TerminateFailed { cause: "throttled".to_string() }
                } else {
                    Event::Terminated
                }
            }
            Action::Finish { result, warning } => return (result, warning, seen),
            Action::Ignored => panic!("the driver sent an event that did not fit"),
        };
        action = run.step(event);
    }
}

fn server_and_clients() -> TsunamiBuilder<&'static str> {
    let mut b = TsunamiBuilder::default();
    b.add_set("server", 1, MachineSetup::new("t2.small", "ami-1", "setup server", "key1")).unwrap();
    b.add_set("client", 2, MachineSetup::new("t2.micro", "ami-2", "setup client", "key2")).unwrap();
    b
}

fn ids(list: &[&str]) -> Vec<String> {
    list.iter().map(|s| s.to_string()).collect()
}

#[test]
fn server_and_two_clients_run_to_success() {
    let mut run = server_and_clients().run::<u32>();
    let mut w = world();
    w.pending_polls = 1;
    let (result, warning, fleet) = drive(&mut run, &mut w);
    assert_eq!(result, Ok(()));
    assert_eq!(warning, None);
    assert_eq!(run.stage(), Stage::Done);
    assert_eq!(
        w.launches,
        vec![
            ("server".to_string(), 1, "t2.small".to_string(), "ami-1".to_string(), "key1".to_string()),
            ("client".to_string(), 2, "t2.micro".to_string(), "ami-2".to_string(), "key2".to_string()),
        ]
    );
    // each instance was pending once, so each was slept on once, for five seconds
    assert_eq!(w.sleeps, vec![5, 5, 5]);
    for id in ["i-1", "i-2", "i-3"] {
        assert_eq!(w.queries[id], 2);
    }
    let fleet = fleet.unwrap();
    assert_eq!(w.workload_calls, 1);
    assert_eq!(fleet.len(), 2);
    assert_eq!(fleet.get("server").unwrap()[0].private_ip, "10.0.0.1");
    assert_eq!(fleet.get("server").unwrap().len(), 1);
    assert_eq!(fleet.get("client").unwrap().len(), 2);
    assert!(fleet.get("database").is_none());
    assert_eq!(w.terminations, vec![ids(&["i-1", "i-2", "i-3"])]);
}

#[test]
fn fleet_has_the_registry_groups_and_counts() {
    let mut b: TsunamiBuilder<&'static str> = TsunamiBuilder::default();
    b.add_set("a", 3, MachineSetup::new("t2.micro", "ami", "s", "k")).unwrap();
    b.add_set("b", 1, MachineSetup::new("t2.micro", "ami", "s", "k")).unwrap();
    b.add_set("c", 2, MachineSetup::new("t2.micro", "ami", "s", "k")).unwrap();
    let mut run = b.run::<u32>();
    let mut w = world();
    let (result, _, fleet) = drive(&mut run, &mut w);
    assert_eq!(result, Ok(()));
    let fleet = fleet.unwrap();
    let names: Vec<&str> = fleet.groups.iter().map(|g| g.name.as_str()).collect();
    assert_eq!(names, vec!["a", "b", "c"]);
    let counts: Vec<usize> = fleet.groups.iter().map(|g| g.machines.len()).collect();
    assert_eq!(counts, vec![3, 1, 2]);
    let mut seen: Vec<String> = Vec::new();
    for group in &fleet.groups {
        for machine in &group.machines {
            assert!(!machine.instance_id.is_empty());
            assert!(!seen.contains(&machine.instance_id));
            seen.push(machine.instance_id.clone());
        }
    }
    assert_eq!(seen, ids(&["i-1", "i-2", "i-3", "i-4", "i-5", "i-6"]));
}

#[test]
fn machines_stand_in_the_group_they_were_launched_for() {
    let mut run = server_and_clients().run::<u32>();
    let mut w = world();
    let (_, _, fleet) = drive(&mut run, &mut w);
    let fleet = fleet.unwrap();
    let server: Vec<&str> =
        fleet.get("server").unwrap().iter().map(|m| m.instance_id.as_str()).collect();
    let client: Vec<&str> =
        fleet.get("client").unwrap().iter().map(|m| m.instance_id.as_str()).collect();
    assert_eq!(server, vec!["i-1"]);
    assert_eq!(client, vec!["i-2", "i-3"]);
    assert_eq!(fleet.get("server").unwrap()[0].key_name, "key1");
    assert_eq!(fleet.get("client").unwrap()[1].public_dns, "i-3.example.com");
}

#[test]
fn every_machine_has_its_session_when_the_workload_runs() {
    let mut run = server_and_clients().run::<u32>();
    let mut w = world();
    let (_, _, fleet) = drive(&mut run, &mut w);
    let fleet = fleet.unwrap();
    assert_eq!(fleet.get("server").unwrap()[0].ssh, Some(101));
    assert_eq!(fleet.get("client").unwrap()[0].ssh, Some(102));
    assert_eq!(fleet.get("client").unwrap()[1].ssh, Some(103));
    assert_eq!(
        w.configured,
        vec![
            ("server".to_string(), "i-1.example.com:22".to_string(), "key1.pem".to_string()),
            ("client".to_string(), "i-2.example.com:22".to_string(), "key2.pem".to_string()),
            ("client".to_string(), "i-3.example.com:22".to_string(), "key2.pem".to_string()),
        ]
    );
}

#[test]
fn failed_workload_still_terminates_everything_once() {
    let mut run = server_and_clients().run::<u32>();
    let mut w = world();
    w.workload_fails = true;
    let (result, warning, _) = drive(&mut run, &mut w);
    assert_eq!(result, Err(RunError::Workload { cause: "benchmark crashed".to_string() }));
    assert_eq!(warning, None);
    assert_eq!(w.workload_calls, 1);
    assert_eq!(w.terminations, vec![ids(&["i-1", "i-2", "i-3"])]);
}

#[test]
fn stuck_instance_times_out_and_everything_is_terminated() {
    let mut b = server_and_clients();
    b.set_max_polls(3);
    let mut run = b.run::<u32>();
    let mut w = world();
    w.stuck.push("i-2".to_string());
    let (result, _, fleet) = drive(&mut run, &mut w);
    assert_eq!(result, Err(RunError::ReadinessTimeout { instance_id: "i-2".to_string() }));
    assert!(fleet.is_none());
    assert_eq!(w.queries["i-1"], 1);
    assert_eq!(w.queries["i-2"], 3);
    assert!(!w.queries.contains_key("i-3"));
    assert_eq!(w.sleeps, vec![5, 5]);
    assert_eq!(w.workload_calls, 0);
    assert_eq!(w.terminations, vec![ids(&["i-1", "i-2", "i-3"])]);
}

#[test]
fn setup_failure_on_second_machine_names_group_and_address() {
    let mut run = server_and_clients().run::<u32>();
    let mut w = world();
    // the second machine of the group "client"
    w.setup_fails_at = Some("i-3.example.com:22".to_string());
    let (result, _, fleet) = drive(&mut run, &mut w);
    let expected = RunError::Setup {
        group: "client".to_string(),
        address: "i-3.example.com".to_string(),
        cause: "exit status 1".to_string(),
    };
    assert_eq!(result, Err(expected.clone()));
    assert_eq!(
        expected.message(),
        "setup procedure for client machine i-3.example.com failed: exit status 1"
    );
    assert!(fleet.is_none());
    assert_eq!(w.workload_calls, 0);
    assert_eq!(w.configured.len(), 3);
    assert_eq!(w.terminations, vec![ids(&["i-1", "i-2", "i-3"])]);
}

#[test]
fn setup_failure_on_first_machine_terminates_machines_never_set_up() {
    let mut run = server_and_clients().run::<u32>();
    let mut w = world();
    w.setup_fails_at = Some("i-1.example.com:22".to_string());
    let (result, _, _) = drive(&mut run, &mut w);
    assert!(matches!(result, Err(RunError::Setup { .. })));
    assert_eq!(w.configured.len(), 1);
    assert_eq!(w.terminations, vec![ids(&["i-1", "i-2", "i-3"])]);
}

#[test]
fn connect_failure_names_group_and_address() {
    let mut run = server_and_clients().run::<u32>();
    let mut w = world();
    w.connect_fails_at = Some("i-2.example.com:22".to_string());
    let (result, _, _) = drive(&mut run, &mut w);
    let expected = RunError::Connect {
        group: "client".to_string(),
        address: "i-2.example.com".to_string(),
        cause: "connection refused".to_string(),
    };
    assert_eq!(result, Err(expected.clone()));
    assert_eq!(
        expected.message(),
        "failed to ssh to client machine i-2.example.com: connection refused"
    );
    assert_eq!(w.terminations, vec![ids(&["i-1", "i-2", "i-3"])]);
}

#[test]
fn failed_termination_is_a_warning_only() {
    let mut run = server_and_clients().run::<u32>();
    let mut w = world();
    w.terminate_fails = true;
    let (result, warning, _) = drive(&mut run, &mut w);
    assert_eq!(result, Ok(()));
    assert_eq!(warning, Some(TerminationWarning { cause: "throttled".to_string() }));
    assert_eq!(w.terminations.len(), 1);
}

#[test]
fn failed_termination_keeps_the_workload_failure() {
    let mut run = server_and_clients().run::<u32>();
    let mut w = world();
    w.workload_fails = true;
    w.terminate_fails = true;
    let (result, warning, _) = drive(&mut run, &mut w);
    assert_eq!(result, Err(RunError::Workload { cause: "benchmark crashed".to_string() }));
    assert_eq!(warning, Some(TerminationWarning { cause: "throttled".to_string() }));
}

#[test]
fn empty_registry_runs_the_workload_on_an_empty_fleet() {
    let b: TsunamiBuilder<&'static str> = TsunamiBuilder::default();
    let mut run = b.run::<u32>();
    let mut w = world();
    let (result, _, fleet) = drive(&mut run, &mut w);
    assert_eq!(result, Ok(()));
    assert_eq!(fleet.unwrap().len(), 0);
    assert_eq!(w.launches.len(), 0);
    assert_eq!(w.terminations, vec![Vec::<String>::new()]);
}

#[test]
fn group_of_zero_machines_is_launched_and_stays_empty() {
    let mut b: TsunamiBuilder<&'static str> = TsunamiBuilder::default();
    b.add_set("none", 0, MachineSetup::new("t2.micro", "ami", "s", "k")).unwrap();
    b.add_set("one", 1, MachineSetup::new("t2.micro", "ami", "s", "k")).unwrap();
    b.add_set("nil", 0, MachineSetup::new("t2.micro", "ami", "s", "k")).unwrap();
    let mut run = b.run::<u32>();
    let mut w = world();
    let (result, _, fleet) = drive(&mut run, &mut w);
    assert_eq!(result, Ok(()));
    let fleet = fleet.unwrap();
    assert_eq!(w.launches.len(), 3);
    assert_eq!(fleet.get("none").unwrap().len(), 0);
    assert_eq!(fleet.get("one").unwrap().len(), 1);
    assert_eq!(fleet.get("nil").unwrap().len(), 0);
    assert_eq!(w.configured.len(), 1);
    assert_eq!(w.terminations, vec![ids(&["i-1"])]);
}

#[test]
fn without_a_bound_polling_goes_on() {
    let mut b: TsunamiBuilder<&'static str> = TsunamiBuilder::default();
    b.add_set("a", 1, MachineSetup::new("t2.micro", "ami", "s", "k")).unwrap();
    let mut run = b.run::<u32>();
    let mut w = world();
    w.pending_polls = 50;
    let (result, _, _) = drive(&mut run, &mut w);
    assert_eq!(result, Ok(()));
    assert_eq!(w.queries["i-1"], 51);
    assert_eq!(w.sleeps.len(), 50);
}

#[test]
fn bound_of_polls_is_not_hit_by_an_instance_ready_in_time() {
    let mut b: TsunamiBuilder<&'static str> = TsunamiBuilder::default();
    b.add_set("a", 2, MachineSetup::new("t2.micro", "ami", "s", "k")).unwrap();
    b.set_max_polls(3);
    let mut run = b.run::<u32>();
    let mut w = world();
    w.pending_polls = 2;
    let (result, _, _) = drive(&mut run, &mut w);
    assert_eq!(result, Ok(()));
    assert_eq!(w.queries["i-1"], 3);
    assert_eq!(w.queries["i-2"], 3);
}
