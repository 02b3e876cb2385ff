use vm_registry::errors::{RegistryError, TransitionError};
use vm_registry::record::{Addresses, RunType, SystemAppType, VmRecord, VmState, VmType};
use vm_registry::state_machine::{transition, Action};
use vm_registry::store::{Store, StoreError};

fn vm_type(run_type: RunType) -> VmType {
    VmType { system_app: SystemAppType::App, run_type }
}

fn record(name: &str, ip: &str, vsock: &str, state: VmState, version: u64) -> VmRecord {
    VmRecord {
        name: name.to_string(),
        vm_type: vm_type(RunType::LongRun),
        addresses: Addresses { ip: ip.to_string(), vsock: vsock.to_string() },
        xdg_run: None,
        mime_type: None,
        state,
        version,
    }
}

#[test]
fn transition_table_run() {
    let vt = vm_type(RunType::LongRun);
    assert_eq!(transition(VmState::Registered, Action::Run, vt), Ok(VmState::Starting));
    assert_eq!(
        transition(VmState::Starting, Action::Run, vt),
        Err(TransitionError::TransitionInProgress)
    );
    assert_eq!(
        transition(VmState::Running, Action::Run, vt),
        Err(TransitionError::AlreadyRunning)
    );
    assert_eq!(
        transition(VmState::Connected, Action::Run, vt),
        Err(TransitionError::AlreadyRunning)
    );
    assert_eq!(
        transition(VmState::Stopped, Action::Run, vt),
        Err(TransitionError::InvalidTransition)
    );
}

#[test]
fn transition_table_connect() {
    let vt = vm_type(RunType::LongRun);
    assert_eq!(transition(VmState::Running, Action::Connect, vt), Ok(VmState::Connected));
    assert_eq!(transition(VmState::Connected, Action::Connect, vt), Ok(VmState::Connected));
    assert_eq!(
        transition(VmState::Stopped, Action::Connect, vt),
        Err(TransitionError::NotRunning)
    );
    assert_eq!(
        transition(VmState::Registered, Action::Connect, vt),
        Err(TransitionError::NotRunning)
    );
    assert_eq!(
        transition(VmState::Starting, Action::Connect, vt),
        Err(TransitionError::TransitionInProgress)
    );
}

#[test]
fn transition_table_stop_and_unregister() {
    let vt = vm_type(RunType::LongRun);
    assert_eq!(transition(VmState::Running, Action::Stop, vt), Ok(VmState::Stopping));
    assert_eq!(transition(VmState::Connected, Action::Stop, vt), Ok(VmState::Stopping));
    assert_eq!(
        transition(VmState::Registered, Action::Stop, vt),
        Err(TransitionError::InvalidState)
    );
    assert_eq!(
        transition(VmState::Stopping, Action::Stop, vt),
        Err(TransitionError::TransitionInProgress)
    );
    assert_eq!(
        transition(VmState::Registered, Action::Unregister, vt),
        Ok(VmState::Unregistered)
    );
    assert_eq!(
        transition(VmState::Stopped, Action::Unregister, vt),
        Ok(VmState::Unregistered)
    );
    assert_eq!(
        transition(VmState::Running, Action::Unregister, vt),
        Err(TransitionError::InvalidState)
    );
}

#[test]
fn transition_errors_map_to_registry_errors() {
    assert_eq!(
        TransitionError::TransitionInProgress.to_registry_error(),
        RegistryError::TransitionInProgress
    );
    assert_eq!(
        TransitionError::AlreadyRunning.to_registry_error(),
        RegistryError::AlreadyRunning
    );
    assert_eq!(TransitionError::NotRunning.to_registry_error(), RegistryError::NotRunning);
    assert_eq!(TransitionError::InvalidState.to_registry_error(), RegistryError::InvalidState);
    assert_eq!(
        TransitionError::InvalidTransition.to_registry_error(),
        RegistryError::InvalidTransition
    );
}

#[test]
fn http_status_mapping() {
    assert_eq!(RegistryError::NotFound.http_status(), 404);
    assert_eq!(RegistryError::DuplicateName.http_status(), 409);
    assert_eq!(RegistryError::AddressConflict.http_status(), 409);
    assert_eq!(RegistryError::InvalidTransition.http_status(), 409);
    assert_eq!(RegistryError::TransitionInProgress.http_status(), 409);
    assert_eq!(RegistryError::AlreadyRunning.http_status(), 409);
    assert_eq!(RegistryError::NotRunning.http_status(), 409);
    assert_eq!(RegistryError::InvalidState.http_status(), 409);
    assert_eq!(RegistryError::ConcurrentModification.http_status(), 409);
    assert_eq!(RegistryError::DriverFailure.http_status(), 500);
    assert_eq!(RegistryError::StoreUnavailable.http_status(), 500);
    assert_eq!(RegistryError::Timeout.http_status(), 504);
}

#[test]
fn error_kinds_are_stable() {
    assert_eq!(RegistryError::NotFound.kind(), "not_found");
    assert_eq!(RegistryError::DuplicateName.kind(), "duplicate_name");
    assert_eq!(RegistryError::AddressConflict.kind(), "address_conflict");
    assert_eq!(RegistryError::ConcurrentModification.kind(), "concurrent_modification");
    assert_eq!(RegistryError::DriverFailure.kind(), "driver_failure");
    assert_eq!(RegistryError::Timeout.kind(), "timeout");
    assert_eq!(RegistryError::StoreUnavailable.kind(), "store_unavailable");
}

#[test]
fn error_messages_name_the_cause() {
    assert_eq!(
        RegistryError::DuplicateName.message(),
        "a VM with this name is already registered"
    );
    assert_eq!(RegistryError::NotFound.message(), "no VM is registered under this name");
    assert_eq!(RegistryError::AlreadyRunning.message(), "the VM is already running");
}

#[test]
fn store_put_get_delete() {
    let mut store = Store::new();
    assert_eq!(store.count(), 0);

    let name = "kv".to_string();
    store
        .put_new(record("kv", "10.1.0.1", "v1", VmState::Registered, 0))
        .expect("put_new");
    assert_eq!(store.count(), 1);

    let read = store.get(&name).expect("stored");
    assert_eq!(read.name, "kv");
    assert_eq!(read.version, 0);

    assert_eq!(
        store
            .put_new(record("kv", "10.1.0.2", "v2", VmState::Registered, 0))
            .unwrap_err(),
        StoreError::AlreadyExists
    );

    store.delete(&name).expect("delete");
    assert!(store.get(&name).is_none());
    assert_eq!(store.delete(&name).unwrap_err(), StoreError::NotFound);
}

#[test]
fn store_compare_and_swap_guards_versions() {
    let mut store = Store::new();
    let name = "cas".to_string();
    store
        .put_new(record("cas", "10.1.0.3", "v3", VmState::Registered, 0))
        .expect("put_new");

    // stale expected version: rejected, record untouched
    assert_eq!(
        store
            .compare_and_swap(&name, 7, record("cas", "10.1.0.3", "v3", VmState::Starting, 8))
            .unwrap_err(),
        StoreError::VersionConflict
    );
    assert_eq!(store.get(&name).unwrap().state, VmState::Registered);

    // matching expected version: the new record replaces the old
    store
        .compare_and_swap(&name, 0, record("cas", "10.1.0.3", "v3", VmState::Starting, 1))
        .expect("compare_and_swap");
    let read = store.get(&name).unwrap();
    assert_eq!(read.state, VmState::Starting);
    assert_eq!(read.version, 1);

    // unknown name
    assert_eq!(
        store
            .compare_and_swap(
                &"ghost".to_string(),
                0,
                record("ghost", "10.1.0.4", "v4", VmState::Registered, 1)
            )
            .unwrap_err(),
        StoreError::NotFound
    );
}

#[test]
fn store_lists_keys_in_order() {
    let mut store = Store::new();
    store
        .put_new(record("first", "10.1.0.5", "v5", VmState::Registered, 0))
        .expect("put_new");
    store
        .put_new(record("second", "10.1.0.6", "v6", VmState::Registered, 0))
        .expect("put_new");
    assert_eq!(store.list_keys(), vec!["first".to_string(), "second".to_string()]);
    let all = store.snapshot();
    assert_eq!(all.len(), 2);
    assert_eq!(all[0].name, "first");
    assert_eq!(all[1].name, "second");
}

#[test]
fn record_duplicate_copies_every_field() {
    let rec = record("copyme", "10.1.0.7", "v7", VmState::Running, 4);
    let copy = rec.duplicate();
    assert_eq!(copy.name, rec.name);
    assert_eq!(copy.vm_type, rec.vm_type);
    assert_eq!(copy.addresses.ip, rec.addresses.ip);
    assert_eq!(copy.addresses.vsock, rec.addresses.vsock);
    assert_eq!(copy.xdg_run, rec.xdg_run);
    assert_eq!(copy.mime_type, rec.mime_type);
    assert_eq!(copy.state, rec.state);
    assert_eq!(copy.version, rec.version);
}
