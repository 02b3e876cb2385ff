//! The registry's laws: what holds of every sequence of operations, proved
//! once and for all over the operations' functional specifications.

use vstd::prelude::*;
use crate::errors::RegistryError;
use crate::record::{DescriptorModel, RecordModel, VmState};
use crate::registry::{
    advanced, connection_of, spec_begin_connect, spec_begin_run, spec_begin_stop,
    spec_complete_connect, spec_complete_run, spec_complete_stop, spec_notify_exit, spec_register,
    spec_unregister, ConnectDecision, DriverOutcome,
};
use crate::state_machine::table_edge;
use crate::store::{
    addrs_free, lookup, names_unique, replace_record, lemma_lookup_name, lemma_lookup_push,
    lemma_lookup_remove, lemma_lookup_replace,
};

verus! {

/// How one record may change across a single registry operation: it stays
/// as it is, appears freshly registered at version 0, vanishes out of
/// `Registered` or `Stopped`, or moves along one edge of the transition
/// table with its version raised by one and everything else untouched.
pub open spec fn record_step_ok(pre: Option<RecordModel>, post: Option<RecordModel>) -> bool {
    match (pre, post) {
        (None, None) => true,
        (None, Some(b)) => b.state == VmState::Registered && b.version == 0,
        (Some(a), None) => a.state == VmState::Registered || a.state == VmState::Stopped,
        (Some(a), Some(b)) => b == a || (b.name == a.name && b.vm_type == a.vm_type && b.addresses
            == a.addresses && b.xdg_run == a.xdg_run && b.mime_type == a.mime_type && b.version
            == a.version + 1 && table_edge(a.state, b.state, a.vm_type.run_type)),
    }
}

/// A committed transition of the record under `name` along a table edge is
/// a legal step for every record at once.
proof fn lemma_step_replace(s: Seq<RecordModel>, name: Seq<char>, next: VmState)
    requires
        lookup(s, name) is Some,
        table_edge(lookup(s, name).unwrap().state, next, lookup(s, name).unwrap().vm_type.run_type),
        lookup(s, name).unwrap().version < u64::MAX,
    ensures
        forall|n: Seq<char>| #![auto]
            record_step_ok(
                lookup(s, n),
                lookup(replace_record(s, name, advanced(lookup(s, name).unwrap(), next)), n),
            ),
{
    let c = lookup(s, name).unwrap();
    lemma_lookup_name(s, name);
    assert forall|n: Seq<char>| #![auto]
        record_step_ok(
            lookup(s, n),
            lookup(replace_record(s, name, advanced(c, next)), n),
        ) by {
        lemma_lookup_replace(s, name, advanced(c, next), n);
    }
}

/// Registration changes no record but the new one, which appears in
/// `Registered` at version 0.
pub proof fn lemma_register_follows_table(s: Seq<RecordModel>, d: DescriptorModel)
    ensures
        forall|n: Seq<char>| #![auto]
            record_step_ok(lookup(s, n), lookup(spec_register(s, d).0, n)),
{
    if lookup(s, d.name) is None && addrs_free(s, d.addresses) {
        let m = spec_register(s, d).1.unwrap();
        assert forall|n: Seq<char>| #![auto]
            record_step_ok(lookup(s, n), lookup(spec_register(s, d).0, n)) by {
            lemma_lookup_push(s, m, n);
        }
    }
}

/// A begun `run` moves only the named record, and only along the table.
pub proof fn lemma_begin_run_follows_table(s: Seq<RecordModel>, name: Seq<char>)
    ensures
        forall|n: Seq<char>| #![auto]
            record_step_ok(lookup(s, n), lookup(spec_begin_run(s, name).0, n)),
{
    if spec_begin_run(s, name).1 is Ok {
        lemma_step_replace(s, name, VmState::Starting);
    }
}

/// A completed or reverted `run` moves only the named record, and only
/// along the table.
pub proof fn lemma_complete_run_follows_table(
    s: Seq<RecordModel>,
    name: Seq<char>,
    outcome: DriverOutcome,
)
    ensures
        forall|n: Seq<char>| #![auto]
            record_step_ok(lookup(s, n), lookup(spec_complete_run(s, name, outcome).0, n)),
{
    if lookup(s, name) matches Some(c) && c.state == VmState::Starting && c.version < u64::MAX {
        match outcome {
            DriverOutcome::Completed => lemma_step_replace(s, name, VmState::Running),
            DriverOutcome::Failed => lemma_step_replace(s, name, VmState::Registered),
            DriverOutcome::TimedOut => lemma_step_replace(s, name, VmState::Registered),
        }
    }
}

/// A committed `connect` moves only the named record, and only along the
/// table.
pub proof fn lemma_complete_connect_follows_table(
    s: Seq<RecordModel>,
    name: Seq<char>,
    outcome: DriverOutcome,
)
    ensures
        forall|n: Seq<char>| #![auto]
            record_step_ok(lookup(s, n), lookup(spec_complete_connect(s, name, outcome).0, n)),
{
    if lookup(s, name) matches Some(c) && c.state == VmState::Running && c.version < u64::MAX
        && outcome == DriverOutcome::Completed {
        lemma_step_replace(s, name, VmState::Connected);
    }
}

/// A begun `stop` moves only the named record, and only along the table.
pub proof fn lemma_begin_stop_follows_table(s: Seq<RecordModel>, name: Seq<char>)
    ensures
        forall|n: Seq<char>| #![auto]
            record_step_ok(lookup(s, n), lookup(spec_begin_stop(s, name).0, n)),
{
    if spec_begin_stop(s, name).1 is Ok {
        lemma_step_replace(s, name, VmState::Stopping);
    }
}

/// A completed or reverted `stop` moves only the named record, and only
/// along the table.
pub proof fn lemma_complete_stop_follows_table(
    s: Seq<RecordModel>,
    name: Seq<char>,
    outcome: DriverOutcome,
    prior: VmState,
)
    ensures
        forall|n: Seq<char>| #![auto]
            record_step_ok(lookup(s, n), lookup(spec_complete_stop(s, name, outcome, prior).0, n)),
{
    if lookup(s, name) matches Some(c) && c.state == VmState::Stopping && (prior
        == VmState::Running || prior == VmState::Connected) && c.version < u64::MAX {
        match outcome {
            DriverOutcome::Completed => lemma_step_replace(s, name, VmState::Stopped),
            DriverOutcome::Failed => lemma_step_replace(s, name, prior),
            DriverOutcome::TimedOut => lemma_step_replace(s, name, prior),
        }
    }
}

/// A one-shot completion signal moves only the named record, and only
/// along the table.
pub proof fn lemma_notify_exit_follows_table(s: Seq<RecordModel>, name: Seq<char>)
    ensures
        forall|n: Seq<char>| #![auto]
            record_step_ok(lookup(s, n), lookup(spec_notify_exit(s, name).0, n)),
{
    if spec_notify_exit(s, name).1 is Ok {
        lemma_step_replace(s, name, VmState::Stopped);
    }
}

/// Unregistration removes only the named record, and only out of
/// `Registered` or `Stopped`.
pub proof fn lemma_unregister_follows_table(s: Seq<RecordModel>, name: Seq<char>)
    requires
        names_unique(s),
    ensures
        forall|n: Seq<char>| #![auto]
            record_step_ok(lookup(s, n), lookup(spec_unregister(s, name).0, n)),
{
    if spec_unregister(s, name).1 is Ok {
        lemma_lookup_name(s, name);
        assert forall|n: Seq<char>| #![auto]
            record_step_ok(lookup(s, n), lookup(spec_unregister(s, name).0, n)) by {
            lemma_lookup_remove(s, name, n);
        }
    }
}

/// A request the state machine rejects leaves the store byte for byte as
/// it was; among completions, only a driver failure or timeout writes (it
/// reverts the transient marker).
pub proof fn lemma_rejected_requests_change_nothing(
    s: Seq<RecordModel>,
    name: Seq<char>,
    d: DescriptorModel,
    outcome: DriverOutcome,
    prior: VmState,
)
    ensures
        spec_register(s, d).1 is Err ==> spec_register(s, d).0 == s,
        spec_begin_run(s, name).1 is Err ==> spec_begin_run(s, name).0 == s,
        spec_begin_stop(s, name).1 is Err ==> spec_begin_stop(s, name).0 == s,
        spec_unregister(s, name).1 is Err ==> spec_unregister(s, name).0 == s,
        spec_notify_exit(s, name).1 is Err ==> spec_notify_exit(s, name).0 == s,
        (spec_complete_run(s, name, outcome).1 matches Err(e) && e != RegistryError::DriverFailure
            && e != RegistryError::Timeout) ==> spec_complete_run(s, name, outcome).0 == s,
        (spec_complete_stop(s, name, outcome, prior).1 matches Err(e) && e
            != RegistryError::DriverFailure && e != RegistryError::Timeout) ==> spec_complete_stop(
            s,
            name,
            outcome,
            prior,
        ).0 == s,
        spec_complete_connect(s, name, outcome).1 is Err ==> spec_complete_connect(
            s,
            name,
            outcome,
        ).0 == s,
{
}

/// Serialized duplicate `run` requests: once one `run` has begun, a second
/// sees `TransitionInProgress` and changes nothing; once the driver's
/// success is committed, the record is `Running` and a further `run` sees
/// `AlreadyRunning` and changes nothing. Exactly the one call that begun
/// the run reaches the driver and commits.
pub proof fn lemma_concurrent_run_serialized(s: Seq<RecordModel>, name: Seq<char>)
    requires
        spec_begin_run(s, name).1 matches Ok(m) && m.version < u64::MAX,
    ensures
        ({
            let s1 = spec_begin_run(s, name).0;
            &&& spec_begin_run(s1, name).1 == Err::<RecordModel, RegistryError>(
                RegistryError::TransitionInProgress,
            )
            &&& spec_begin_run(s1, name).0 == s1
            &&& spec_complete_run(s1, name, DriverOutcome::Completed).1 == Ok::<
                (),
                RegistryError,
            >(())
            &&& {
                let s2 = spec_complete_run(s1, name, DriverOutcome::Completed).0;
                &&& lookup(s2, name) matches Some(r) && r.state == VmState::Running
                &&& spec_begin_run(s2, name).1 == Err::<RecordModel, RegistryError>(
                    RegistryError::AlreadyRunning,
                )
                &&& spec_begin_run(s2, name).0 == s2
            }
        }),
{
    let c = lookup(s, name).unwrap();
    lemma_lookup_name(s, name);
    let m1 = advanced(c, VmState::Starting);
    let s1 = replace_record(s, name, m1);
    lemma_lookup_replace(s, name, m1, name);
    let m2 = advanced(m1, VmState::Running);
    lemma_lookup_replace(s1, name, m2, name);
}

/// Registrations with colliding addresses and different names: once the
/// first has succeeded, the second is rejected and changes nothing, so at
/// most one of them succeeds.
pub proof fn lemma_register_conflict(s: Seq<RecordModel>, d1: DescriptorModel, d2: DescriptorModel)
    requires
        spec_register(s, d1).1 is Ok,
        d2.name != d1.name,
        d2.addresses.ip == d1.addresses.ip || d2.addresses.vsock == d1.addresses.vsock,
    ensures
        spec_register(spec_register(s, d1).0, d2).1 is Err,
        spec_register(spec_register(s, d1).0, d2).0 == spec_register(s, d1).0,
{
    let m1 = spec_register(s, d1).1.unwrap();
    let s1 = s.push(m1);
    lemma_lookup_push(s, m1, d2.name);
    if lookup(s1, d2.name) is None {
        assert(s1[s.len() as int] == m1);
        assert(!addrs_free(s1, d2.addresses));
    }
}

/// An unregistered name answers every following `status` with nothing
/// found, until a new registration takes it.
pub proof fn lemma_unregister_then_status(s: Seq<RecordModel>, name: Seq<char>)
    requires
        names_unique(s),
        spec_unregister(s, name).1 is Ok,
    ensures
        lookup(spec_unregister(s, name).0, name) is None,
{
    lemma_lookup_remove(s, name, name);
}

/// `connect` on an already connected VM succeeds with the existing
/// connection and writes nothing; as `begin_connect` never writes, two
/// such calls in succession both succeed and neither changes any version.
pub proof fn lemma_connect_idempotent(s: Seq<RecordModel>, name: Seq<char>)
    requires
        lookup(s, name) matches Some(c) && c.state == VmState::Connected,
    ensures
        spec_begin_connect(s, name) == Ok::<ConnectDecision, RegistryError>(
            ConnectDecision::AlreadyConnected(connection_of(lookup(s, name).unwrap())),
        ),
{
}

/// Round trip: a successful registration stores, under the submitted
/// name, exactly the submitted descriptor, at version 0 in state
/// `Registered`.
pub proof fn lemma_register_round_trip(s: Seq<RecordModel>, d: DescriptorModel)
    requires
        spec_register(s, d).1 is Ok,
    ensures
        lookup(spec_register(s, d).0, d.name) == Some(spec_register(s, d).1.unwrap()),
        spec_register(s, d).1.unwrap() == (RecordModel {
            name: d.name,
            vm_type: d.vm_type,
            addresses: d.addresses,
            xdg_run: d.xdg_run,
            mime_type: d.mime_type,
            state: VmState::Registered,
            version: 0,
        }),
{
    lemma_lookup_push(s, spec_register(s, d).1.unwrap(), d.name);
}

} // verus!

