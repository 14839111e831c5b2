use instance_registry::config::InstanceConfig;
use instance_registry::manager::InstanceManager;
use instance_registry::plan::CreatePlan;
use instance_registry::plan::eula_content;

fn make_config(name: &str) -> InstanceConfig {
    InstanceConfig {
        name: name.to_string(),
        version: "1.18.1".to_string(),
        flavour: "vanilla".to_string(),
        url: "https://example.invalid/server.jar".to_string(),
        uuid: None,
        min_ram: 1024,
        max_ram: 4096,
    }
}

fn create(manager: &mut InstanceManager, name: &str) -> String {
    let plan = manager.plan_create(make_config(name)).unwrap();
    manager.register_instance(plan).unwrap()
}

#[test]
fn create_registers_and_returns_identifier() {
    let mut manager = InstanceManager::new("/srv/".to_string());
    let plan = manager.plan_create(make_config("Survival")).unwrap();
    assert_eq!(plan.name, "Survival");
    assert_eq!(plan.instance_path, "/srv/Survival/");
    assert_eq!(plan.jar_path(), "/srv/Survival/server.jar");
    assert_eq!(plan.eula_path(), "/srv/Survival/eula.txt");
    assert_eq!(plan.uuid.len(), 36);
    assert_eq!(plan.config.name, "Survival");
    assert_eq!(plan.config.uuid.clone().unwrap(), plan.uuid);
    assert_eq!(plan.config.min_ram, 1024);
    assert_eq!(plan.config.max_ram, 4096);
    let expected = plan.uuid.clone();
    let uuid = manager.register_instance(plan).unwrap();
    assert_eq!(uuid, expected);
    assert!(manager.contains_instance(&uuid));
    assert_eq!(manager.instance_count(), 1);
}

#[test]
fn survival_scenario() {
    let mut manager = InstanceManager::new("/srv/".to_string());
    let first = create(&mut manager, "Survival");
    assert!(manager.contains_instance(&first));
    assert_eq!(
        eula_content(),
        "#generated by Lodestone\neula=true\n"
    );
    let err = manager.plan_create(make_config("Survival")).unwrap_err();
    assert_eq!(err.message(), "Survival already exists as an instance");
    assert_eq!(manager.instance_count(), 1);
}

#[test]
fn identifiers_are_distinct() {
    let mut manager = InstanceManager::new("/srv/".to_string());
    let first = create(&mut manager, "Alpha");
    let second = create(&mut manager, "Beta");
    assert_ne!(first, second);
    assert_eq!(manager.instance_count(), 2);
}

#[test]
fn interleaved_creates_one_succeeds() {
    let mut manager = InstanceManager::new("/srv/".to_string());
    // Both plans are made before either registers, as two overlapping
    // creation requests would do.
    let plan_a = manager.plan_create(make_config("Shared")).unwrap();
    let plan_b = manager.plan_create(make_config("Shared")).unwrap();
    manager.register_instance(plan_a).unwrap();
    let err = manager.register_instance(plan_b).unwrap_err();
    assert_eq!(err.message(), "Shared already exists as an instance");
    assert_eq!(manager.instance_count(), 1);
}

#[test]
fn register_identifier_collision() {
    let mut manager = InstanceManager::new("/srv/".to_string());
    let plan = manager.plan_create(make_config("Alpha")).unwrap();
    let taken = plan.uuid.clone();
    manager.register_instance(plan).unwrap();
    let colliding = CreatePlan {
        uuid: taken,
        name: "Beta".to_string(),
        instance_path: "/srv/Beta/".to_string(),
        config: make_config("Beta"),
    };
    let err = manager.register_instance(colliding).unwrap_err();
    assert_eq!(err.message(), "identifier already exists as an instance");
    assert_eq!(manager.instance_count(), 1);
}

#[test]
fn sanitize_strips_path_separators() {
    let mut manager = InstanceManager::new("/srv/".to_string());
    let plan = manager.plan_create(make_config("My/World")).unwrap();
    assert_eq!(plan.name, "MyWorld");
    assert_eq!(plan.instance_path, "/srv/MyWorld/");
}

#[test]
fn delete_unknown_not_found() {
    let mut manager = InstanceManager::new("/srv/".to_string());
    let uuid = create(&mut manager, "Alpha");
    let err = manager.delete_instance("no-such-identifier".to_string()).unwrap_err();
    assert_eq!(err.message(), "instance not found");
    assert_eq!(manager.instance_count(), 1);
    assert!(manager.contains_instance(&uuid));
}

#[test]
fn delete_removes_from_registry() {
    let mut manager = InstanceManager::new("/srv/".to_string());
    let uuid = create(&mut manager, "Alpha");
    let plan = manager.delete_instance(uuid.clone()).unwrap();
    assert_eq!(plan.uuid, uuid);
    assert_eq!(plan.directory_path, "/srv/Alpha");
    // The entry is gone the moment deletion returns, whatever becomes of the
    // remaining teardown of the directory tree.
    assert!(!manager.contains_instance(&uuid));
    assert_eq!(manager.instance_count(), 0);
    // The freed name can be used again.
    let plan = manager.plan_create(make_config("Alpha")).unwrap();
    manager.register_instance(plan).unwrap();
    assert_eq!(manager.instance_count(), 1);
}

#[test]
fn send_command_unknown_not_found() {
    let manager = InstanceManager::new("/srv/".to_string());
    let err = manager
        .send_command("no-such-identifier".to_string(), "say hi".to_string())
        .unwrap_err();
    assert_eq!(err.message(), "cannot send command to instance as it does not exist");
}

#[test]
fn send_command_without_channel_fails_delivery() {
    let mut manager = InstanceManager::new("/srv/".to_string());
    let uuid = create(&mut manager, "Alpha");
    let err = manager.send_command(uuid, "say hi".to_string()).unwrap_err();
    assert_eq!(err.message(), "failed to send command to instance");
}

#[test]
fn send_command_appends_line_terminator() {
    let mut manager = InstanceManager::new("/srv/".to_string());
    let uuid = create(&mut manager, "Alpha");
    manager.set_channel_active(&uuid, true).unwrap();
    let payload = manager.send_command(uuid.clone(), "say hi".to_string()).unwrap();
    assert_eq!(payload, "say hi\n");
    manager.set_channel_active(&uuid, false).unwrap();
    let err = manager.send_command(uuid, "say hi".to_string()).unwrap_err();
    assert_eq!(err.message(), "failed to send command to instance");
}

#[test]
fn set_channel_active_unknown_not_found() {
    let mut manager = InstanceManager::new("/srv/".to_string());
    let err = manager
        .set_channel_active(&"no-such-identifier".to_string(), true)
        .unwrap_err();
    assert_eq!(err.message(), "instance not found");
}

#[test]
fn clone_conflict_when_derived_name_taken() {
    let mut manager = InstanceManager::new("/srv/".to_string());
    let uuid = create(&mut manager, "Survival");
    create(&mut manager, "Survival_copy");
    let err = manager.clone_instance(uuid).unwrap_err();
    assert_eq!(err.message(), "Survival_copy already exists as an instance");
    assert_eq!(manager.instance_count(), 2);
}

#[test]
fn clone_is_a_stub_otherwise() {
    let mut manager = InstanceManager::new("/srv/".to_string());
    let uuid = create(&mut manager, "Survival");
    // No derived-name conflict: the clone succeeds without producing a new
    // instance.
    manager.clone_instance(uuid).unwrap();
    assert_eq!(manager.instance_count(), 1);
    // An unknown identifier falls through the precondition check.
    manager.clone_instance("no-such-identifier".to_string()).unwrap();
    assert_eq!(manager.instance_count(), 1);
}

#[test]
fn start_stop_resolution() {
    let mut manager = InstanceManager::new("/srv/".to_string());
    let uuid = create(&mut manager, "Alpha");
    manager.start_instance(&uuid).unwrap();
    manager.stop_instance(&uuid).unwrap();
    let missing = "no-such-identifier".to_string();
    let err = manager.start_instance(&missing).unwrap_err();
    assert_eq!(err.message(), "instance cannot be started as it does not exist");
    let err = manager.stop_instance(&missing).unwrap_err();
    assert_eq!(err.message(), "instance cannot be stopped as it does not exist");
}
