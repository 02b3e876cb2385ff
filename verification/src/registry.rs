//! The VM registry: the coordinator that owns every record, validates each
//! request against the lifecycle state machine, and persists the outcome
//! through the store adapter's compare-and-swap.
//!
//! `run`, `connect` and `stop` need a driver side effect, so each splits in
//! two: the `begin` half validates the request and, for `run` and `stop`,
//! persists the transient marker; the caller then performs the driver call
//! and hands its outcome to the `complete` half, which settles the marker
//! into the stable target state or reverts it. The caller is expected to
//! serialize mutating operations per name (the coordination token); the
//! versioned compare-and-swap in the store remains the cross-process guard.

use vstd::prelude::*;
use crate::errors::{RegistryError, TransitionError};
use crate::record::{
    ConnectionInfo, ConnectionInfoModel, RecordModel, VmDescriptor, VmRecord, VmState, RunType,
};
use crate::state_machine::{spec_transition, transition, Action};
use crate::store::{
    addrs_free, addrs_unique, lookup, names_unique, remove_record, replace_record, states_live,
    lemma_lookup_name, lemma_lookup_none_absent,
    lemma_lookup_some_index, lemma_remove_at, lemma_replace_at, Store,
};

verus! {

/// How a driver call ended: it completed, it failed, or its deadline
/// passed.
#[derive(Clone, Copy, PartialEq, Eq, Structural, Debug)]
pub enum DriverOutcome {
    Completed,
    Failed,
    TimedOut,
}

/// What `begin_connect` decides: the VM is already connected (and the
/// existing connection is handed back), or the driver must establish one.
#[derive(Debug)]
pub enum ConnectStep {
    AlreadyConnected(ConnectionInfo),
    DriverNeeded,
}

/// The ghost image of [`ConnectStep`].
pub ghost enum ConnectDecision {
    AlreadyConnected(ConnectionInfoModel),
    DriverNeeded,
}

impl View for ConnectStep {
    type V = ConnectDecision;

    open spec fn view(&self) -> ConnectDecision {
        match self {
            ConnectStep::AlreadyConnected(info) => ConnectDecision::AlreadyConnected(info@),
            ConnectStep::DriverNeeded => ConnectDecision::DriverNeeded,
        }
    }
}

/// The record `c` one committed transition later: state `next`, version one
/// higher, every other field untouched.
pub open spec fn advanced(c: RecordModel, next: VmState) -> RecordModel {
    RecordModel { state: next, version: (c.version + 1) as u64, ..c }
}

/// The connection information of record `c`.
pub open spec fn connection_of(c: RecordModel) -> ConnectionInfoModel {
    ConnectionInfoModel { name: c.name, ip: c.addresses.ip, vsock: c.addresses.vsock }
}

/// What registration does: a fresh record at version 0 in state
/// `Registered`, unless the name is taken or an address collides with a
/// live record.
pub open spec fn spec_register(s: Seq<RecordModel>, d: crate::record::DescriptorModel) -> (Seq<
    RecordModel,
>, Result<RecordModel, RegistryError>) {
    if lookup(s, d.name) is Some {
        (s, Err(RegistryError::DuplicateName))
    } else if !addrs_free(s, d.addresses) {
        (s, Err(RegistryError::AddressConflict))
    } else {
        let m = RecordModel {
            name: d.name,
            vm_type: d.vm_type,
            addresses: d.addresses,
            xdg_run: d.xdg_run,
            mime_type: d.mime_type,
            state: VmState::Registered,
            version: 0,
        };
        (s.push(m), Ok(m))
    }
}

/// What beginning a `run` does: a legal request persists the `Starting`
/// marker; an illegal one changes nothing.
pub open spec fn spec_begin_run(s: Seq<RecordModel>, name: Seq<char>) -> (Seq<RecordModel>, Result<
    RecordModel,
    RegistryError,
>) {
    match lookup(s, name) {
        None => (s, Err(RegistryError::NotFound)),
        Some(c) => match spec_transition(c.state, Action::Run, c.vm_type) {
            Err(te) => (s, Err(te.spec_to_registry_error())),
            Ok(next) => if c.version == u64::MAX {
                (s, Err(RegistryError::ConcurrentModification))
            } else {
                (replace_record(s, name, advanced(c, next)), Ok(advanced(c, next)))
            },
        },
    }
}

/// What completing a `run` does: the driver's success settles `Starting`
/// into `Running`; a failure or timeout reverts the marker to `Registered`
/// and surfaces the driver error.
pub open spec fn spec_complete_run(
    s: Seq<RecordModel>,
    name: Seq<char>,
    outcome: DriverOutcome,
) -> (Seq<RecordModel>, Result<(), RegistryError>) {
    match lookup(s, name) {
        None => (s, Err(RegistryError::NotFound)),
        Some(c) => if c.state != VmState::Starting {
            (s, Err(RegistryError::InvalidTransition))
        } else if c.version == u64::MAX {
            (s, Err(RegistryError::ConcurrentModification))
        } else {
            match outcome {
                DriverOutcome::Completed => (
                    replace_record(s, name, advanced(c, VmState::Running)),
                    Ok(()),
                ),
                DriverOutcome::Failed => (
                    replace_record(s, name, advanced(c, VmState::Registered)),
                    Err(RegistryError::DriverFailure),
                ),
                DriverOutcome::TimedOut => (
                    replace_record(s, name, advanced(c, VmState::Registered)),
                    Err(RegistryError::Timeout),
                ),
            }
        },
    }
}

/// What beginning a `connect` does: nothing is ever written. A connected
/// VM answers with its existing connection; a running one asks for a
/// driver call; anything else is rejected.
pub open spec fn spec_begin_connect(s: Seq<RecordModel>, name: Seq<char>) -> Result<
    ConnectDecision,
    RegistryError,
> {
    match lookup(s, name) {
        None => Err(RegistryError::NotFound),
        Some(c) => match spec_transition(c.state, Action::Connect, c.vm_type) {
            Err(te) => Err(te.spec_to_registry_error()),
            Ok(_) => if c.state == VmState::Connected {
                Ok(ConnectDecision::AlreadyConnected(connection_of(c)))
            } else {
                Ok(ConnectDecision::DriverNeeded)
            },
        },
    }
}

/// What completing a `connect` does: the driver's success commits
/// `Running` to `Connected` and hands back the connection; a failure or
/// timeout changes nothing, as `connect` holds no transient marker.
pub open spec fn spec_complete_connect(
    s: Seq<RecordModel>,
    name: Seq<char>,
    outcome: DriverOutcome,
) -> (Seq<RecordModel>, Result<ConnectionInfoModel, RegistryError>) {
    match lookup(s, name) {
        None => (s, Err(RegistryError::NotFound)),
        Some(c) => if c.state != VmState::Running {
            (s, Err(RegistryError::InvalidTransition))
        } else if c.version == u64::MAX {
            (s, Err(RegistryError::ConcurrentModification))
        } else {
            match outcome {
                DriverOutcome::Completed => (
                    replace_record(s, name, advanced(c, VmState::Connected)),
                    Ok(connection_of(c)),
                ),
                DriverOutcome::Failed => (s, Err(RegistryError::DriverFailure)),
                DriverOutcome::TimedOut => (s, Err(RegistryError::Timeout)),
            }
        },
    }
}

/// What beginning a `stop` does: a legal request persists the `Stopping`
/// marker and hands back the stable state it left, for the completion to
/// revert to if the driver fails.
pub open spec fn spec_begin_stop(s: Seq<RecordModel>, name: Seq<char>) -> (Seq<RecordModel>, Result<
    VmState,
    RegistryError,
>) {
    match lookup(s, name) {
        None => (s, Err(RegistryError::NotFound)),
        Some(c) => match spec_transition(c.state, Action::Stop, c.vm_type) {
            Err(te) => (s, Err(te.spec_to_registry_error())),
            Ok(next) => if c.version == u64::MAX {
                (s, Err(RegistryError::ConcurrentModification))
            } else {
                (replace_record(s, name, advanced(c, next)), Ok(c.state))
            },
        },
    }
}

/// What completing a `stop` does: the driver's success settles `Stopping`
/// into `Stopped`; a failure or timeout reverts the marker to the prior
/// stable state handed back by `begin_stop`.
pub open spec fn spec_complete_stop(
    s: Seq<RecordModel>,
    name: Seq<char>,
    outcome: DriverOutcome,
    prior: VmState,
) -> (Seq<RecordModel>, Result<(), RegistryError>) {
    match lookup(s, name) {
        None => (s, Err(RegistryError::NotFound)),
        Some(c) => if c.state != VmState::Stopping {
            (s, Err(RegistryError::InvalidTransition))
        } else if prior != VmState::Running && prior != VmState::Connected {
            (s, Err(RegistryError::InvalidState))
        } else if c.version == u64::MAX {
            (s, Err(RegistryError::ConcurrentModification))
        } else {
            match outcome {
                DriverOutcome::Completed => (
                    replace_record(s, name, advanced(c, VmState::Stopped)),
                    Ok(()),
                ),
                DriverOutcome::Failed => (
                    replace_record(s, name, advanced(c, prior)),
                    Err(RegistryError::DriverFailure),
                ),
                DriverOutcome::TimedOut => (
                    replace_record(s, name, advanced(c, prior)),
                    Err(RegistryError::Timeout),
                ),
            }
        },
    }
}

/// What a one-shot VM's completion signal does: `Running` settles into
/// `Stopped` on its own; any other record rejects the signal.
pub open spec fn spec_notify_exit(s: Seq<RecordModel>, name: Seq<char>) -> (Seq<RecordModel>, Result<
    (),
    RegistryError,
>) {
    match lookup(s, name) {
        None => (s, Err(RegistryError::NotFound)),
        Some(c) => if c.state != VmState::Running || c.vm_type.run_type != RunType::OneShot {
            (s, Err(RegistryError::InvalidTransition))
        } else if c.version == u64::MAX {
            (s, Err(RegistryError::ConcurrentModification))
        } else {
            (replace_record(s, name, advanced(c, VmState::Stopped)), Ok(()))
        },
    }
}

/// What unregistration does: a record in `Registered` or `Stopped` is
/// removed entirely; anything else is rejected untouched.
pub open spec fn spec_unregister(s: Seq<RecordModel>, name: Seq<char>) -> (Seq<RecordModel>, Result<
    (),
    RegistryError,
>) {
    match lookup(s, name) {
        None => (s, Err(RegistryError::NotFound)),
        Some(c) => match spec_transition(c.state, Action::Unregister, c.vm_type) {
            Err(te) => (s, Err(te.spec_to_registry_error())),
            Ok(_) => (remove_record(s, name), Ok(())),
        },
    }
}

/// Replacing the record under `name` with one that keeps its name and
/// addresses, and stays live, preserves every registry invariant.
pub proof fn lemma_update_preserves(s: Seq<RecordModel>, name: Seq<char>, m: RecordModel)
    requires
        names_unique(s),
        addrs_unique(s),
        states_live(s),
        lookup(s, name) is Some,
        m.name == lookup(s, name).unwrap().name,
        m.addresses == lookup(s, name).unwrap().addresses,
        m.state != VmState::Unregistered,
    ensures
        names_unique(replace_record(s, name, m)),
        addrs_unique(replace_record(s, name, m)),
        states_live(replace_record(s, name, m)),
{
    lemma_lookup_some_index(s, name);
    let i = choose|i: int|
        0 <= i < s.len() && s[i] == lookup(s, name).unwrap() && s[i].name == name && (forall|
            j: int,
        | 0 <= j < i ==> s[j].name != name);
    lemma_replace_at(s, name, m, i);
    let t = s.update(i, m);
    assert forall|k: int, l: int| 0 <= k < l < t.len() implies t[k].name != t[l].name
        && t[k].addresses.ip != t[l].addresses.ip && t[k].addresses.vsock
        != t[l].addresses.vsock by {
        assert(s[k].name != s[l].name);
        assert(s[k].addresses.ip != s[l].addresses.ip);
        assert(s[k].addresses.vsock != s[l].addresses.vsock);
    }
    assert forall|k: int| 0 <= k < t.len() implies t[k].state != VmState::Unregistered by {
        assert(s[k].state != VmState::Unregistered);
    }
}

/// Appending a record under a fresh name with fresh addresses, in a live
/// state, preserves every registry invariant.
pub proof fn lemma_push_preserves(s: Seq<RecordModel>, m: RecordModel)
    requires
        names_unique(s),
        addrs_unique(s),
        states_live(s),
        lookup(s, m.name) is None,
        addrs_free(s, m.addresses),
        m.state != VmState::Unregistered,
    ensures
        names_unique(s.push(m)),
        addrs_unique(s.push(m)),
        states_live(s.push(m)),
{
    lemma_lookup_none_absent(s, m.name);
    let t = s.push(m);
    assert forall|k: int, l: int| 0 <= k < l < t.len() implies t[k].name != t[l].name
        && t[k].addresses.ip != t[l].addresses.ip && t[k].addresses.vsock
        != t[l].addresses.vsock by {
        if l < s.len() {
            assert(s[k].name != s[l].name);
            assert(s[k].addresses.ip != s[l].addresses.ip);
            assert(s[k].addresses.vsock != s[l].addresses.vsock);
        } else {
            assert(t[l] == m);
            assert(s[k].name != m.name);
            assert(s[k].addresses.ip != m.addresses.ip);
            assert(s[k].addresses.vsock != m.addresses.vsock);
        }
    }
}

/// Removing the record under `name` preserves every registry invariant.
#[verifier::rlimit(50)]
pub proof fn lemma_remove_preserves(s: Seq<RecordModel>, name: Seq<char>)
    requires
        names_unique(s),
        addrs_unique(s),
        states_live(s),
        lookup(s, name) is Some,
    ensures
        names_unique(remove_record(s, name)),
        addrs_unique(remove_record(s, name)),
        states_live(remove_record(s, name)),
{
    lemma_lookup_some_index(s, name);
    let i = choose|i: int|
        0 <= i < s.len() && s[i] == lookup(s, name).unwrap() && s[i].name == name && (forall|
            j: int,
        | 0 <= j < i ==> s[j].name != name);
    lemma_remove_at(s, name, i);
    let t = s.remove(i);
    assert forall|k: int, l: int| 0 <= k < l < t.len() implies t[k].name != t[l].name
        && t[k].addresses.ip != t[l].addresses.ip && t[k].addresses.vsock
        != t[l].addresses.vsock by {
        let k0 = if k < i {
            k
        } else {
            k + 1
        };
        let l0 = if l < i {
            l
        } else {
            l + 1
        };
        assert(t[k] == s[k0]);
        assert(t[l] == s[l0]);
        assert(s[k0].name != s[l0].name);
        assert(s[k0].addresses.ip != s[l0].addresses.ip);
        assert(s[k0].addresses.vsock != s[l0].addresses.vsock);
    }
    assert forall|k: int| 0 <= k < t.len() implies t[k].state != VmState::Unregistered by {
        let k0 = if k < i {
            k
        } else {
            k + 1
        };
        assert(t[k] == s[k0]);
    }
}

/// The registry: sole owner of all VM records, reached through the
/// lifecycle operations below and nothing else.
pub struct Registry {
    store: Store,
}

impl View for Registry {
    type V = Seq<RecordModel>;

    closed spec fn view(&self) -> Seq<RecordModel> {
        self.store@
    }
}

impl Registry {
    /// The registry's invariant: one record per name, addresses unique
    /// across all live records, and no terminal state ever stored.
    pub open spec fn inv(self) -> bool {
        names_unique(self@) && addrs_unique(self@) && states_live(self@)
    }

    /// Creates an empty registry.
    pub fn new() -> (r: Registry)
        ensures
            r.inv(),
            r@ == Seq::<RecordModel>::empty(),
    {
        Registry { store: Store::new() }
    }

    /// Commits one transition of the record under `name`: writes the
    /// record back in state `next` with the version raised by one, through
    /// the store's compare-and-swap against the version just read.
    fn commit(&mut self, name: &String, cur: VmRecord, next: VmState) -> (rec: VmRecord)
        requires
            old(self).inv(),
            lookup(old(self)@, name@) == Some(cur@),
            cur@.version < u64::MAX,
            next != VmState::Unregistered,
        ensures
            final(self).inv(),
            final(self)@ == replace_record(old(self)@, name@, advanced(cur@, next)),
            rec@ == advanced(cur@, next),
    {
        proof {
            lemma_lookup_name(old(self)@, name@);
        }
        let ghost c = cur@;
        let expected = cur.version;
        let mut nr = cur;
        nr.state = next;
        nr.version = expected + 1;
        let out = nr.duplicate();
        match self.store.compare_and_swap(name, expected, nr) {
            Ok(()) => {
                proof {
                    lemma_update_preserves(old(self)@, name@, advanced(c, next));
                }
                out
            },
            Err(_) => vstd::pervasive::unreached(),
        }
    }

    /// Registers a fresh VM: a new record at version 0 in state
    /// `Registered`, rejected when the name is taken or an address
    /// collides with a live record.
    pub fn register(&mut self, desc: VmDescriptor) -> (r: Result<VmRecord, RegistryError>)
        requires
            old(self).inv(),
        ensures
            final(self).inv(),
            final(self)@ == spec_register(old(self)@, desc@).0,
            match r {
                Ok(rec) => spec_register(old(self)@, desc@).1 == Ok::<RecordModel, RegistryError>(
                    rec@,
                ),
                Err(e) => spec_register(old(self)@, desc@).1 == Err::<RecordModel, RegistryError>(
                    e,
                ),
            },
    {
        match self.store.get(&desc.name) {
            Some(_) => {
                return Err(RegistryError::DuplicateName);
            },
            None => {},
        }
        if !self.store.addresses_free(&desc.addresses) {
            return Err(RegistryError::AddressConflict);
        }
        let rec = VmRecord {
            name: desc.name,
            vm_type: desc.vm_type,
            addresses: desc.addresses,
            xdg_run: desc.xdg_run,
            mime_type: desc.mime_type,
            state: VmState::Registered,
            version: 0,
        };
        let out = rec.duplicate();
        let ghost m = rec@;
        match self.store.put_new(rec) {
            Ok(()) => {
                proof {
                    lemma_push_preserves(old(self)@, m);
                }
                Ok(out)
            },
            Err(_) => vstd::pervasive::unreached(),
        }
    }

    /// Begins `run`: validates the request and persists the `Starting`
    /// marker, handing back the record the driver is to start.
    pub fn begin_run(&mut self, name: &String) -> (r: Result<VmRecord, RegistryError>)
        requires
            old(self).inv(),
        ensures
            final(self).inv(),
            final(self)@ == spec_begin_run(old(self)@, name@).0,
            match r {
                Ok(rec) => spec_begin_run(old(self)@, name@).1 == Ok::<RecordModel, RegistryError>(
                    rec@,
                ),
                Err(e) => spec_begin_run(old(self)@, name@).1 == Err::<RecordModel, RegistryError>(
                    e,
                ),
            },
    {
        let cur = match self.store.get(name) {
            None => {
                return Err(RegistryError::NotFound);
            },
            Some(c) => c,
        };
        match transition(cur.state, Action::Run, cur.vm_type) {
            Err(te) => Err(te.to_registry_error()),
            Ok(next) => {
                if cur.version == u64::MAX {
                    return Err(RegistryError::ConcurrentModification);
                }
                let rec = self.commit(name, cur, next);
                Ok(rec)
            },
        }
    }

    /// Completes `run` with the driver's outcome: success settles the
    /// record into `Running`; failure or timeout reverts the marker to
    /// `Registered` and surfaces the driver error.
    pub fn complete_run(&mut self, name: &String, outcome: DriverOutcome) -> (r: Result<
        (),
        RegistryError,
    >)
        requires
            old(self).inv(),
        ensures
            final(self).inv(),
            final(self)@ == spec_complete_run(old(self)@, name@, outcome).0,
            r == spec_complete_run(old(self)@, name@, outcome).1,
    {
        let cur = match self.store.get(name) {
            None => {
                return Err(RegistryError::NotFound);
            },
            Some(c) => c,
        };
        if cur.state != VmState::Starting {
            return Err(RegistryError::InvalidTransition);
        }
        if cur.version == u64::MAX {
            return Err(RegistryError::ConcurrentModification);
        }
        match outcome {
            DriverOutcome::Completed => {
                let _ = self.commit(name, cur, VmState::Running);
                Ok(())
            },
            DriverOutcome::Failed => {
                let _ = self.commit(name, cur, VmState::Registered);
                Err(RegistryError::DriverFailure)
            },
            DriverOutcome::TimedOut => {
                let _ = self.commit(name, cur, VmState::Registered);
                Err(RegistryError::Timeout)
            },
        }
    }

    /// Begins `connect` without writing anything: an already connected VM
    /// answers with its existing connection, a running one asks the caller
    /// for a driver call.
    pub fn begin_connect(&self, name: &String) -> (r: Result<ConnectStep, RegistryError>)
        ensures
            match r {
                Ok(step) => spec_begin_connect(self@, name@) == Ok::<
                    ConnectDecision,
                    RegistryError,
                >(step@),
                Err(e) => spec_begin_connect(self@, name@) == Err::<
                    ConnectDecision,
                    RegistryError,
                >(e),
            },
    {
        let cur = match self.store.get(name) {
            None => {
                return Err(RegistryError::NotFound);
            },
            Some(c) => c,
        };
        match transition(cur.state, Action::Connect, cur.vm_type) {
            Err(te) => Err(te.to_registry_error()),
            Ok(_) => {
                if cur.state == VmState::Connected {
                    Ok(ConnectStep::AlreadyConnected(ConnectionInfo {
                        name: cur.name,
                        ip: cur.addresses.ip,
                        vsock: cur.addresses.vsock,
                    }))
                } else {
                    Ok(ConnectStep::DriverNeeded)
                }
            },
        }
    }

    /// Completes `connect` with the driver's outcome: success commits
    /// `Running` to `Connected` and hands back the connection; failure or
    /// timeout leaves the record untouched.
    pub fn complete_connect(&mut self, name: &String, outcome: DriverOutcome) -> (r: Result<
        ConnectionInfo,
        RegistryError,
    >)
        requires
            old(self).inv(),
        ensures
            final(self).inv(),
            final(self)@ == spec_complete_connect(old(self)@, name@, outcome).0,
            match r {
                Ok(info) => spec_complete_connect(old(self)@, name@, outcome).1 == Ok::<
                    ConnectionInfoModel,
                    RegistryError,
                >(info@),
                Err(e) => spec_complete_connect(old(self)@, name@, outcome).1 == Err::<
                    ConnectionInfoModel,
                    RegistryError,
                >(e),
            },
    {
        let cur = match self.store.get(name) {
            None => {
                return Err(RegistryError::NotFound);
            },
            Some(c) => c,
        };
        if cur.state != VmState::Running {
            return Err(RegistryError::InvalidTransition);
        }
        if cur.version == u64::MAX {
            return Err(RegistryError::ConcurrentModification);
        }
        match outcome {
            DriverOutcome::Completed => {
                let rec = self.commit(name, cur, VmState::Connected);
                Ok(ConnectionInfo {
                    name: rec.name,
                    ip: rec.addresses.ip,
                    vsock: rec.addresses.vsock,
                })
            },
            DriverOutcome::Failed => Err(RegistryError::DriverFailure),
            DriverOutcome::TimedOut => Err(RegistryError::Timeout),
        }
    }

    /// Begins `stop`: validates the request, persists the `Stopping`
    /// marker, and hands back the stable state it left, which the
    /// completion reverts to if the driver fails.
    pub fn begin_stop(&mut self, name: &String) -> (r: Result<VmState, RegistryError>)
        requires
            old(self).inv(),
        ensures
            final(self).inv(),
            final(self)@ == spec_begin_stop(old(self)@, name@).0,
            r == spec_begin_stop(old(self)@, name@).1,
    {
        let cur = match self.store.get(name) {
            None => {
                return Err(RegistryError::NotFound);
            },
            Some(c) => c,
        };
        match transition(cur.state, Action::Stop, cur.vm_type) {
            Err(te) => Err(te.to_registry_error()),
            Ok(next) => {
                if cur.version == u64::MAX {
                    return Err(RegistryError::ConcurrentModification);
                }
                let prior = cur.state;
                let _ = self.commit(name, cur, next);
                Ok(prior)
            },
        }
    }

    /// Completes `stop` with the driver's outcome: success settles the
    /// record into `Stopped`; failure or timeout reverts the marker to the
    /// prior stable state handed back by `begin_stop`.
    pub fn complete_stop(
        &mut self,
        name: &String,
        outcome: DriverOutcome,
        prior: VmState,
    ) -> (r: Result<(), RegistryError>)
        requires
            old(self).inv(),
        ensures
            final(self).inv(),
            final(self)@ == spec_complete_stop(old(self)@, name@, outcome, prior).0,
            r == spec_complete_stop(old(self)@, name@, outcome, prior).1,
    {
        let cur = match self.store.get(name) {
            None => {
                return Err(RegistryError::NotFound);
            },
            Some(c) => c,
        };
        if cur.state != VmState::Stopping {
            return Err(RegistryError::InvalidTransition);
        }
        if !(prior == VmState::Running || prior == VmState::Connected) {
            return Err(RegistryError::InvalidState);
        }
        if cur.version == u64::MAX {
            return Err(RegistryError::ConcurrentModification);
        }
        match outcome {
            DriverOutcome::Completed => {
                let _ = self.commit(name, cur, VmState::Stopped);
                Ok(())
            },
            DriverOutcome::Failed => {
                let _ = self.commit(name, cur, prior);
                Err(RegistryError::DriverFailure)
            },
            DriverOutcome::TimedOut => {
                let _ = self.commit(name, cur, prior);
                Err(RegistryError::Timeout)
            },
        }
    }

    /// Applies a one-shot VM's completion signal: `Running` settles into
    /// `Stopped` without a client request.
    pub fn notify_exit(&mut self, name: &String) -> (r: Result<(), RegistryError>)
        requires
            old(self).inv(),
        ensures
            final(self).inv(),
            final(self)@ == spec_notify_exit(old(self)@, name@).0,
            r == spec_notify_exit(old(self)@, name@).1,
    {
        let cur = match self.store.get(name) {
            None => {
                return Err(RegistryError::NotFound);
            },
            Some(c) => c,
        };
        if cur.state != VmState::Running || cur.vm_type.run_type != RunType::OneShot {
            return Err(RegistryError::InvalidTransition);
        }
        if cur.version == u64::MAX {
            return Err(RegistryError::ConcurrentModification);
        }
        let _ = self.commit(name, cur, VmState::Stopped);
        Ok(())
    }

    /// Unregisters a VM in `Registered` or `Stopped`, removing its record
    /// entirely.
    pub fn unregister(&mut self, name: &String) -> (r: Result<(), RegistryError>)
        requires
            old(self).inv(),
        ensures
            final(self).inv(),
            final(self)@ == spec_unregister(old(self)@, name@).0,
            r == spec_unregister(old(self)@, name@).1,
    {
        let cur = match self.store.get(name) {
            None => {
                return Err(RegistryError::NotFound);
            },
            Some(c) => c,
        };
        match transition(cur.state, Action::Unregister, cur.vm_type) {
            Err(te) => Err(te.to_registry_error()),
            Ok(_) => {
                proof {
                    lemma_remove_preserves(old(self)@, name@);
                }
                match self.store.delete(name) {
                    Ok(()) => Ok(()),
                    Err(_) => vstd::pervasive::unreached(),
                }
            },
        }
    }

    /// Reads the record under `name` without touching it.
    pub fn status(&self, name: &String) -> (r: Result<VmRecord, RegistryError>)
        ensures
            match r {
                Ok(rec) => lookup(self@, name@) == Some(rec@),
                Err(e) => e == RegistryError::NotFound && lookup(self@, name@) is None,
            },
    {
        match self.store.get(name) {
            Some(c) => Ok(c),
            None => Err(RegistryError::NotFound),
        }
    }

    /// Copies out a snapshot of every record, in store order.
    pub fn list(&self) -> (r: Vec<VmRecord>)
        ensures
            r@.len() == self@.len(),
            forall|i: int| 0 <= i < r@.len() ==> r@[i]@ == self@[i],
    {
        self.store.snapshot()
    }

    /// Lists the names of all records, in store order.
    pub fn list_names(&self) -> (r: Vec<String>)
        ensures
            r@.len() == self@.len(),
            forall|i: int| 0 <= i < r@.len() ==> r@[i]@ == self@[i].name,
    {
        self.store.list_keys()
    }

    /// How many VMs are registered.
    pub fn count(&self) -> (n: usize)
        ensures
            n == self@.len(),
    {
        self.store.count()
    }
}

} // verus!
