use vm_registry::errors::RegistryError;
use vm_registry::record::{Addresses, RunType, SystemAppType, VmDescriptor, VmState, VmType};
use vm_registry::registry::{ConnectStep, DriverOutcome, Registry};

fn descriptor(
    name: &str,
    run_type: RunType,
    ip: &str,
    vsock: &str,
    xdg_run: Option<&str>,
    mime_type: Option<&str>,
) -> VmDescriptor {
    VmDescriptor {
        name: name.to_string(),
        vm_type: VmType { system_app: SystemAppType::System, run_type },
        addresses: Addresses { ip: ip.to_string(), vsock: vsock.to_string() },
        xdg_run: xdg_run.map(|s| s.to_string()),
        mime_type: mime_type.map(|s| s.to_string()),
    }
}

/// Drives a freshly registered VM to `Running`.
fn run_vm(registry: &mut Registry, name: &str) {
    let name = name.to_string();
    registry.begin_run(&name).expect("begin_run");
    registry
        .complete_run(&name, DriverOutcome::Completed)
        .expect("complete_run");
}

#[test]
fn test_register_vm() {
    let mut registry = Registry::new();
    let vm = descriptor(
        "test_vm",
        RunType::LongRun,
        "127.0.0.1",
        "vsock_value",
        Some("xdg_value"),
        Some("mime_value"),
    );
    let rec = registry.register(vm).expect("register");
    assert_eq!(rec.name, "test_vm");
    assert_eq!(rec.addresses.ip, "127.0.0.1");
    assert_eq!(rec.addresses.vsock, "vsock_value");
    assert_eq!(rec.xdg_run.as_deref(), Some("xdg_value"));
    assert_eq!(rec.mime_type.as_deref(), Some("mime_value"));
    assert_eq!(rec.state, VmState::Registered);
    assert_eq!(rec.version, 0);
}

#[test]
fn test_run_vm() {
    let mut registry = Registry::new();
    let vm = descriptor(
        "run_test_vm",
        RunType::LongRun,
        "127.0.0.1",
        "vsock_value",
        None,
        None,
    );
    registry.register(vm).expect("register");

    let name = "run_test_vm".to_string();
    let marked = registry.begin_run(&name).expect("begin_run");
    assert_eq!(marked.state, VmState::Starting);
    assert_eq!(marked.version, 1);
    registry
        .complete_run(&name, DriverOutcome::Completed)
        .expect("complete_run");
    let rec = registry.status(&name).expect("status");
    assert_eq!(rec.state, VmState::Running);
    assert_eq!(rec.version, 2);
}

#[test]
fn test_list_vms() {
    let mut registry = Registry::new();
    assert!(registry.list().is_empty());
    assert_eq!(registry.count(), 0);

    let vm = descriptor("a", RunType::LongRun, "10.0.0.8", "vs8", None, None);
    registry.register(vm).expect("register");
    let listed = registry.list();
    assert_eq!(listed.len(), 1);
    assert_eq!(listed[0].name, "a");
    assert_eq!(registry.list_names(), vec!["a".to_string()]);
}

#[test]
fn full_lifecycle_scenario() {
    let mut registry = Registry::new();
    let vm = descriptor("vm1", RunType::LongRun, "10.0.0.1", "vsock1", None, None);
    registry.register(vm).expect("register");
    let name = "vm1".to_string();

    run_vm(&mut registry, "vm1");
    assert_eq!(registry.status(&name).unwrap().state, VmState::Running);

    match registry.begin_connect(&name).expect("begin_connect") {
        ConnectStep::DriverNeeded => {}
        ConnectStep::AlreadyConnected(_) => panic!("not yet connected"),
    }
    let info = registry
        .complete_connect(&name, DriverOutcome::Completed)
        .expect("complete_connect");
    assert_eq!(info.name, "vm1");
    assert_eq!(info.ip, "10.0.0.1");
    assert_eq!(info.vsock, "vsock1");
    assert_eq!(registry.status(&name).unwrap().state, VmState::Connected);

    let prior = registry.begin_stop(&name).expect("begin_stop");
    assert_eq!(prior, VmState::Connected);
    registry
        .complete_stop(&name, DriverOutcome::Completed, prior)
        .expect("complete_stop");
    assert_eq!(registry.status(&name).unwrap().state, VmState::Stopped);

    registry.unregister(&name).expect("unregister");
    assert!(registry.list().iter().all(|r| r.name != "vm1"));
    assert!(registry.list_names().iter().all(|n| n != "vm1"));
}

#[test]
fn duplicate_name_rejected() {
    let mut registry = Registry::new();
    let first = descriptor("dup", RunType::LongRun, "10.0.0.2", "vs2", None, None);
    registry.register(first).expect("register");
    let second = descriptor("dup", RunType::LongRun, "10.0.0.3", "vs3", None, None);
    assert_eq!(registry.register(second).unwrap_err(), RegistryError::DuplicateName);
    assert_eq!(registry.count(), 1);
}

#[test]
fn address_conflict_rejected() {
    let mut registry = Registry::new();
    let first = descriptor("one", RunType::LongRun, "10.0.0.4", "vs4", None, None);
    registry.register(first).expect("register");

    let same_ip = descriptor("two", RunType::LongRun, "10.0.0.4", "vs5", None, None);
    assert_eq!(registry.register(same_ip).unwrap_err(), RegistryError::AddressConflict);

    let same_vsock = descriptor("three", RunType::LongRun, "10.0.0.6", "vs4", None, None);
    assert_eq!(registry.register(same_vsock).unwrap_err(), RegistryError::AddressConflict);

    assert_eq!(registry.count(), 1);
}

#[test]
fn unregister_then_status_is_not_found() {
    let mut registry = Registry::new();
    let vm = descriptor("gone", RunType::LongRun, "10.0.0.7", "vs7", None, None);
    registry.register(vm).expect("register");
    let name = "gone".to_string();
    registry.unregister(&name).expect("unregister");
    assert_eq!(registry.status(&name).unwrap_err(), RegistryError::NotFound);
}

#[test]
fn connect_twice_is_idempotent() {
    let mut registry = Registry::new();
    let vm = descriptor("conn", RunType::LongRun, "10.0.0.9", "vs9", None, None);
    registry.register(vm).expect("register");
    let name = "conn".to_string();
    run_vm(&mut registry, "conn");
    registry
        .complete_connect(&name, DriverOutcome::Completed)
        .expect("complete_connect");
    let version_connected = registry.status(&name).unwrap().version;

    for _ in 0..2 {
        match registry.begin_connect(&name).expect("begin_connect") {
            ConnectStep::AlreadyConnected(info) => {
                assert_eq!(info.ip, "10.0.0.9");
                assert_eq!(info.vsock, "vs9");
            }
            ConnectStep::DriverNeeded => panic!("already connected"),
        }
        assert_eq!(registry.status(&name).unwrap().version, version_connected);
    }
}

#[test]
fn register_status_round_trip() {
    let mut registry = Registry::new();
    let vm = descriptor(
        "rt",
        RunType::OneShot,
        "10.0.1.1",
        "vs11",
        Some("xdg"),
        None,
    );
    registry.register(vm).expect("register");
    let rec = registry.status(&"rt".to_string()).expect("status");
    assert_eq!(rec.name, "rt");
    assert_eq!(rec.vm_type.system_app, SystemAppType::System);
    assert_eq!(rec.vm_type.run_type, RunType::OneShot);
    assert_eq!(rec.addresses.ip, "10.0.1.1");
    assert_eq!(rec.addresses.vsock, "vs11");
    assert_eq!(rec.xdg_run.as_deref(), Some("xdg"));
    assert_eq!(rec.mime_type, None);
    assert_eq!(rec.state, VmState::Registered);
    assert_eq!(rec.version, 0);
}

#[test]
fn duplicate_run_requests_are_rejected() {
    let mut registry = Registry::new();
    let vm = descriptor("busy", RunType::LongRun, "10.0.1.2", "vs12", None, None);
    registry.register(vm).expect("register");
    let name = "busy".to_string();

    registry.begin_run(&name).expect("begin_run");
    assert_eq!(
        registry.begin_run(&name).unwrap_err(),
        RegistryError::TransitionInProgress
    );

    registry
        .complete_run(&name, DriverOutcome::Completed)
        .expect("complete_run");
    assert_eq!(registry.begin_run(&name).unwrap_err(), RegistryError::AlreadyRunning);
    assert_eq!(registry.status(&name).unwrap().state, VmState::Running);
}

#[test]
fn driver_failure_reverts_run() {
    let mut registry = Registry::new();
    let vm = descriptor("flaky", RunType::LongRun, "10.0.1.3", "vs13", None, None);
    registry.register(vm).expect("register");
    let name = "flaky".to_string();

    registry.begin_run(&name).expect("begin_run");
    assert_eq!(
        registry.complete_run(&name, DriverOutcome::Failed).unwrap_err(),
        RegistryError::DriverFailure
    );
    assert_eq!(registry.status(&name).unwrap().state, VmState::Registered);

    registry.begin_run(&name).expect("begin_run");
    assert_eq!(
        registry.complete_run(&name, DriverOutcome::TimedOut).unwrap_err(),
        RegistryError::Timeout
    );
    assert_eq!(registry.status(&name).unwrap().state, VmState::Registered);
}

#[test]
fn driver_failure_reverts_stop() {
    let mut registry = Registry::new();
    let vm = descriptor("sticky", RunType::LongRun, "10.0.1.4", "vs14", None, None);
    registry.register(vm).expect("register");
    let name = "sticky".to_string();
    run_vm(&mut registry, "sticky");
    registry
        .complete_connect(&name, DriverOutcome::Completed)
        .expect("complete_connect");

    let prior = registry.begin_stop(&name).expect("begin_stop");
    assert_eq!(prior, VmState::Connected);
    assert_eq!(
        registry
            .complete_stop(&name, DriverOutcome::Failed, prior)
            .unwrap_err(),
        RegistryError::DriverFailure
    );
    assert_eq!(registry.status(&name).unwrap().state, VmState::Connected);
}

#[test]
fn one_shot_exit_stops_the_vm() {
    let mut registry = Registry::new();
    let vm = descriptor("once", RunType::OneShot, "10.0.1.5", "vs15", None, None);
    registry.register(vm).expect("register");
    let name = "once".to_string();
    run_vm(&mut registry, "once");

    registry.notify_exit(&name).expect("notify_exit");
    assert_eq!(registry.status(&name).unwrap().state, VmState::Stopped);
}

#[test]
fn long_run_ignores_exit_signal() {
    let mut registry = Registry::new();
    let vm = descriptor("steady", RunType::LongRun, "10.0.1.6", "vs16", None, None);
    registry.register(vm).expect("register");
    let name = "steady".to_string();
    run_vm(&mut registry, "steady");

    assert_eq!(registry.notify_exit(&name).unwrap_err(), RegistryError::InvalidTransition);
    assert_eq!(registry.status(&name).unwrap().state, VmState::Running);
}

#[test]
fn illegal_requests_leave_record_unchanged() {
    let mut registry = Registry::new();
    let vm = descriptor("still", RunType::LongRun, "10.0.1.7", "vs17", None, None);
    registry.register(vm).expect("register");
    let name = "still".to_string();

    // stop on a freshly registered VM
    assert_eq!(registry.begin_stop(&name).unwrap_err(), RegistryError::InvalidState);
    // connect on a VM that is not running
    assert_eq!(
        registry.begin_connect(&name).unwrap_err(),
        RegistryError::NotRunning
    );
    let rec = registry.status(&name).unwrap();
    assert_eq!(rec.state, VmState::Registered);
    assert_eq!(rec.version, 0);

    // unregister outside Registered/Stopped
    run_vm(&mut registry, "still");
    assert_eq!(registry.unregister(&name).unwrap_err(), RegistryError::InvalidState);
    assert_eq!(registry.status(&name).unwrap().state, VmState::Running);

    // run on a VM that already stopped
    let prior = registry.begin_stop(&name).expect("begin_stop");
    registry
        .complete_stop(&name, DriverOutcome::Completed, prior)
        .expect("complete_stop");
    assert_eq!(registry.begin_run(&name).unwrap_err(), RegistryError::InvalidTransition);
    assert_eq!(
        registry.begin_connect(&name).unwrap_err(),
        RegistryError::NotRunning
    );

    let absent = "nobody".to_string();
    assert_eq!(registry.begin_run(&absent).unwrap_err(), RegistryError::NotFound);
    assert_eq!(registry.unregister(&absent).unwrap_err(), RegistryError::NotFound);
}

#[test]
fn versions_increase_with_every_persisted_mutation() {
    let mut registry = Registry::new();
    let vm = descriptor("counted", RunType::LongRun, "10.0.1.8", "vs18", None, None);
    registry.register(vm).expect("register");
    let name = "counted".to_string();

    assert_eq!(registry.status(&name).unwrap().version, 0);
    registry.begin_run(&name).expect("begin_run");
    assert_eq!(registry.status(&name).unwrap().version, 1);
    registry
        .complete_run(&name, DriverOutcome::Completed)
        .expect("complete_run");
    assert_eq!(registry.status(&name).unwrap().version, 2);
    registry
        .complete_connect(&name, DriverOutcome::Completed)
        .expect("complete_connect");
    assert_eq!(registry.status(&name).unwrap().version, 3);
    let prior = registry.begin_stop(&name).expect("begin_stop");
    assert_eq!(registry.status(&name).unwrap().version, 4);
    registry
        .complete_stop(&name, DriverOutcome::Completed, prior)
        .expect("complete_stop");
    assert_eq!(registry.status(&name).unwrap().version, 5);
}
