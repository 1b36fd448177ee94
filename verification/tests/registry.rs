use tsunami::{DuplicateGroupError, MachineSetup, TsunamiBuilder};

fn template(tag: u8) -> MachineSetup<u8> {
    MachineSetup::new("t2.micro", "ami-0440d3b780d96b29d", tag, "key1")
}

#[test]
fn new_registry_is_empty_with_an_hour_of_duration() {
    let b: TsunamiBuilder<u8> = TsunamiBuilder::default();
    assert_eq!(b.len(), 0);
    assert_eq!(b.max_duration(), 60);
}

#[test]
fn template_keeps_what_it_was_given() {
    let t = MachineSetup::new("t2.medium", "ami-1", 9u8, "key7");
    assert_eq!(t.instance_type(), "t2.medium");
    assert_eq!(t.ami(), "ami-1");
    assert_eq!(*t.setup(), 9);
    assert_eq!(t.key_name(), "key7");
}

#[test]
fn groups_are_kept_in_the_order_added() {
    let mut b = TsunamiBuilder::default();
    assert_eq!(b.add_set("server", 1, template(1)), Ok(()));
    assert_eq!(b.add_set("client", 3, template(2)), Ok(()));
    assert_eq!(b.len(), 2);
    let (groups, minutes, polls) = b.into_parts();
    assert_eq!(groups[0].name, "server");
    assert_eq!(groups[0].number, 1);
    assert_eq!(*groups[0].setup.setup(), 1);
    assert_eq!(groups[1].name, "client");
    assert_eq!(groups[1].number, 3);
    assert_eq!(*groups[1].setup.setup(), 2);
    assert_eq!(minutes, 60);
    assert_eq!(polls, None);
}

#[test]
fn duplicate_name_is_refused_and_nothing_changes() {
    let mut b = TsunamiBuilder::default();
    assert_eq!(b.add_set("server", 1, template(1)), Ok(()));
    assert_eq!(
        b.add_set("server", 5, template(2)),
        Err(DuplicateGroupError { name: "server".to_string() })
    );
    assert_eq!(b.len(), 1);
    let (groups, _, _) = b.into_parts();
    assert_eq!(groups[0].number, 1);
    assert_eq!(*groups[0].setup.setup(), 1);
}

#[test]
fn names_differ_by_case() {
    let mut b = TsunamiBuilder::default();
    assert_eq!(b.add_set("server", 1, template(1)), Ok(()));
    assert_eq!(b.add_set("Server", 1, template(1)), Ok(()));
    assert_eq!(b.add_set("", 1, template(1)), Ok(()));
    assert!(b.add_set("", 1, template(1)).is_err());
    assert_eq!(b.len(), 3);
}

#[test]
fn max_duration_is_kept_in_minutes() {
    let mut b: TsunamiBuilder<u8> = TsunamiBuilder::default();
    b.set_max_duration(2);
    assert_eq!(b.max_duration(), 120);
    b.set_max_duration(0);
    assert_eq!(b.max_duration(), 0);
    b.set_max_duration(255);
    assert_eq!(b.max_duration(), 15300);
}

#[test]
fn max_duration_is_handed_to_the_run_and_changes_nothing_else() {
    let mut b = TsunamiBuilder::default();
    b.add_set("server", 1, template(1)).unwrap();
    b.set_max_duration(3);
    assert_eq!(b.len(), 1);
    let run = b.run::<u32>();
    assert_eq!(run.max_duration(), 180);
}

#[test]
fn max_polls_is_recorded() {
    let mut b: TsunamiBuilder<u8> = TsunamiBuilder::default();
    b.set_max_polls(3);
    let (_, minutes, polls) = b.into_parts();
    assert_eq!(minutes, 60);
    assert_eq!(polls, Some(3));
}
