//! Error taxonomy of the registry, and its mapping to HTTP status codes.

use vstd::prelude::*;

verus! {

/// The errors that the pure lifecycle state machine can report.
#[derive(Clone, Copy, PartialEq, Eq, Structural, Debug)]
pub enum TransitionError {
    /// A transient `Starting`/`Stopping` marker is held by an in-flight
    /// operation; the caller must retry once it resolves.
    TransitionInProgress,
    /// `run` was requested for a VM that is already running.
    AlreadyRunning,
    /// `connect` was requested for a VM that is not running.
    NotRunning,
    /// The record's state does not admit the request at all
    /// (`stop` on a freshly registered VM, `unregister` outside
    /// `Registered`/`Stopped`).
    InvalidState,
    /// No edge of the transition table matches the request.
    InvalidTransition,
}

/// The errors that registry operations surface to their callers.
#[derive(Clone, Copy, PartialEq, Eq, Structural, Debug)]
pub enum RegistryError {
    /// `register` found a live record under the same name.
    DuplicateName,
    /// `register` found a live record sharing an ip or vsock address.
    AddressConflict,
    /// No record exists under the requested name.
    NotFound,
    InvalidTransition,
    TransitionInProgress,
    AlreadyRunning,
    NotRunning,
    InvalidState,
    /// The optimistic-concurrency check failed, or the version counter can
    /// no longer increase.
    ConcurrentModification,
    /// The VM driver reported a failure; the record keeps its last
    /// known-good state.
    DriverFailure,
    /// The VM driver exceeded its deadline; the record keeps its last
    /// known-good state.
    Timeout,
    /// The durable store could not be reached.
    StoreUnavailable,
}

impl TransitionError {
    /// The registry error corresponding to this state-machine error.
    pub open spec fn spec_to_registry_error(self) -> RegistryError {
        match self {
            TransitionError::TransitionInProgress => RegistryError::TransitionInProgress,
            TransitionError::AlreadyRunning => RegistryError::AlreadyRunning,
            TransitionError::NotRunning => RegistryError::NotRunning,
            TransitionError::InvalidState => RegistryError::InvalidState,
            TransitionError::InvalidTransition => RegistryError::InvalidTransition,
        }
    }

    /// Maps a state-machine error to the registry error surfaced to callers.
    pub fn to_registry_error(self) -> (r: RegistryError)
        ensures
            r == self.spec_to_registry_error(),
    {
        match self {
            TransitionError::TransitionInProgress => RegistryError::TransitionInProgress,
            TransitionError::AlreadyRunning => RegistryError::AlreadyRunning,
            TransitionError::NotRunning => RegistryError::NotRunning,
            TransitionError::InvalidState => RegistryError::InvalidState,
            TransitionError::InvalidTransition => RegistryError::InvalidTransition,
        }
    }
}

impl RegistryError {
    /// The HTTP status code the transport reports for this error:
    /// 404 for a missing record, 409 for conflicts and rejected transitions,
    /// 504 for a driver deadline, 500 for driver or store failures.
    pub open spec fn spec_http_status(self) -> u16 {
        match self {
            RegistryError::NotFound => 404,
            RegistryError::DuplicateName => 409,
            RegistryError::AddressConflict => 409,
            RegistryError::InvalidTransition => 409,
            RegistryError::TransitionInProgress => 409,
            RegistryError::AlreadyRunning => 409,
            RegistryError::NotRunning => 409,
            RegistryError::InvalidState => 409,
            RegistryError::ConcurrentModification => 409,
            RegistryError::Timeout => 504,
            RegistryError::DriverFailure => 500,
            RegistryError::StoreUnavailable => 500,
        }
    }

    /// Returns the HTTP status code for this error.
    pub fn http_status(&self) -> (s: u16)
        ensures
            s == self.spec_http_status(),
    {
        match self {
            RegistryError::NotFound => 404,
            RegistryError::DuplicateName => 409,
            RegistryError::AddressConflict => 409,
            RegistryError::InvalidTransition => 409,
            RegistryError::TransitionInProgress => 409,
            RegistryError::AlreadyRunning => 409,
            RegistryError::NotRunning => 409,
            RegistryError::InvalidState => 409,
            RegistryError::ConcurrentModification => 409,
            RegistryError::Timeout => 504,
            RegistryError::DriverFailure => 500,
            RegistryError::StoreUnavailable => 500,
        }
    }

    /// The stable machine-readable kind of this error.
    pub open spec fn spec_kind(self) -> Seq<char> {
        match self {
            RegistryError::DuplicateName => "duplicate_name"@,
            RegistryError::AddressConflict => "address_conflict"@,
            RegistryError::NotFound => "not_found"@,
            RegistryError::InvalidTransition => "invalid_transition"@,
            RegistryError::TransitionInProgress => "transition_in_progress"@,
            RegistryError::AlreadyRunning => "already_running"@,
            RegistryError::NotRunning => "not_running"@,
            RegistryError::InvalidState => "invalid_state"@,
            RegistryError::ConcurrentModification => "concurrent_modification"@,
            RegistryError::DriverFailure => "driver_failure"@,
            RegistryError::Timeout => "timeout"@,
            RegistryError::StoreUnavailable => "store_unavailable"@,
        }
    }

    /// The human-readable message of this error.
    pub open spec fn spec_message(self) -> Seq<char> {
        match self {
            RegistryError::DuplicateName => "a VM with this name is already registered"@,
            RegistryError::AddressConflict => "a live VM already holds this ip or vsock address"@,
            RegistryError::NotFound => "no VM is registered under this name"@,
            RegistryError::InvalidTransition => "the VM's state does not allow this request"@,
            RegistryError::TransitionInProgress => "another transition is in flight; retry once it resolves"@,
            RegistryError::AlreadyRunning => "the VM is already running"@,
            RegistryError::NotRunning => "the VM is not running"@,
            RegistryError::InvalidState => "the VM's state does not admit this request"@,
            RegistryError::ConcurrentModification => "the record changed underneath this request"@,
            RegistryError::DriverFailure => "the VM driver failed; the record keeps its last known-good state"@,
            RegistryError::Timeout => "the VM driver exceeded its deadline"@,
            RegistryError::StoreUnavailable => "the durable store could not be reached"@,
        }
    }

    /// Returns the human-readable message of this error.
    pub fn message(&self) -> (m: &'static str)
        ensures
            m@ == self.spec_message(),
    {
        match self {
            RegistryError::DuplicateName => "a VM with this name is already registered",
            RegistryError::AddressConflict => "a live VM already holds this ip or vsock address",
            RegistryError::NotFound => "no VM is registered under this name",
            RegistryError::InvalidTransition => "the VM's state does not allow this request",
            RegistryError::TransitionInProgress => "another transition is in flight; retry once it resolves",
            RegistryError::AlreadyRunning => "the VM is already running",
            RegistryError::NotRunning => "the VM is not running",
            RegistryError::InvalidState => "the VM's state does not admit this request",
            RegistryError::ConcurrentModification => "the record changed underneath this request",
            RegistryError::DriverFailure => "the VM driver failed; the record keeps its last known-good state",
            RegistryError::Timeout => "the VM driver exceeded its deadline",
            RegistryError::StoreUnavailable => "the durable store could not be reached",
        }
    }

    /// Returns the stable machine-readable kind of this error.
    pub fn kind(&self) -> (k: &'static str)
        ensures
            k@ == self.spec_kind(),
    {
        match self {
            RegistryError::DuplicateName => "duplicate_name",
            RegistryError::AddressConflict => "address_conflict",
            RegistryError::NotFound => "not_found",
            RegistryError::InvalidTransition => "invalid_transition",
            RegistryError::TransitionInProgress => "transition_in_progress",
            RegistryError::AlreadyRunning => "already_running",
            RegistryError::NotRunning => "not_running",
            RegistryError::InvalidState => "invalid_state",
            RegistryError::ConcurrentModification => "concurrent_modification",
            RegistryError::DriverFailure => "driver_failure",
            RegistryError::Timeout => "timeout",
            RegistryError::StoreUnavailable => "store_unavailable",
        }
    }
}

} // verus!
