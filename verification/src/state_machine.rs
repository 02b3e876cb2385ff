//! The pure lifecycle state machine: which client action is legal from
//! which state, and which edges a record may move along at all.

use vstd::prelude::*;
use crate::record::{RunType, VmState, VmType};
use crate::errors::TransitionError;

verus! {

/// A client-facing lifecycle action.
#[derive(Clone, Copy, PartialEq, Eq, Structural, Debug)]
pub enum Action {
    Run,
    Connect,
    Stop,
    Unregister,
}

/// The state a legal action moves a record into, or the error rejecting it.
///
/// `run` and `stop` first enter their transient marker (`Starting`,
/// `Stopping`); the driver's completion settles the marker into the stable
/// target. `connect` has no marker: it commits `Running` to `Connected`
/// directly, and re-connecting an already connected VM is a no-op success.
/// A connected VM counts as running, so `run` on it reports `AlreadyRunning`.
/// `unregister` is only legal from `Registered` or `Stopped` and targets the
/// terminal `Unregistered`, upon which the record is removed.
pub open spec fn spec_transition(current: VmState, action: Action, vm_type: VmType) -> Result<
    VmState,
    TransitionError,
> {
    match action {
        Action::Run => match current {
            VmState::Registered => Ok(VmState::Starting),
            VmState::Starting => Err(TransitionError::TransitionInProgress),
            VmState::Running => Err(TransitionError::AlreadyRunning),
            VmState::Connected => Err(TransitionError::AlreadyRunning),
            VmState::Stopping => Err(TransitionError::TransitionInProgress),
            VmState::Stopped => Err(TransitionError::InvalidTransition),
            VmState::Unregistered => Err(TransitionError::InvalidTransition),
        },
        Action::Connect => match current {
            VmState::Running => Ok(VmState::Connected),
            VmState::Connected => Ok(VmState::Connected),
            VmState::Starting => Err(TransitionError::TransitionInProgress),
            VmState::Stopping => Err(TransitionError::TransitionInProgress),
            VmState::Registered => Err(TransitionError::NotRunning),
            VmState::Stopped => Err(TransitionError::NotRunning),
            VmState::Unregistered => Err(TransitionError::InvalidTransition),
        },
        Action::Stop => match current {
            VmState::Running => Ok(VmState::Stopping),
            VmState::Connected => Ok(VmState::Stopping),
            VmState::Registered => Err(TransitionError::InvalidState),
            VmState::Starting => Err(TransitionError::TransitionInProgress),
            VmState::Stopping => Err(TransitionError::TransitionInProgress),
            VmState::Stopped => Err(TransitionError::InvalidTransition),
            VmState::Unregistered => Err(TransitionError::InvalidTransition),
        },
        Action::Unregister => match current {
            VmState::Registered => Ok(VmState::Unregistered),
            VmState::Stopped => Ok(VmState::Unregistered),
            _ => Err(TransitionError::InvalidState),
        },
    }
}

/// Decides whether `action` is legal from `current`, and where it leads.
pub fn transition(current: VmState, action: Action, vm_type: VmType) -> (r: Result<
    VmState,
    TransitionError,
>)
    ensures
        r == spec_transition(current, action, vm_type),
{
    match action {
        Action::Run => match current {
            VmState::Registered => Ok(VmState::Starting),
            VmState::Starting => Err(TransitionError::TransitionInProgress),
            VmState::Running => Err(TransitionError::AlreadyRunning),
            VmState::Connected => Err(TransitionError::AlreadyRunning),
            VmState::Stopping => Err(TransitionError::TransitionInProgress),
            VmState::Stopped => Err(TransitionError::InvalidTransition),
            VmState::Unregistered => Err(TransitionError::InvalidTransition),
        },
        Action::Connect => match current {
            VmState::Running => Ok(VmState::Connected),
            VmState::Connected => Ok(VmState::Connected),
            VmState::Starting => Err(TransitionError::TransitionInProgress),
            VmState::Stopping => Err(TransitionError::TransitionInProgress),
            VmState::Registered => Err(TransitionError::NotRunning),
            VmState::Stopped => Err(TransitionError::NotRunning),
            VmState::Unregistered => Err(TransitionError::InvalidTransition),
        },
        Action::Stop => match current {
            VmState::Running => Ok(VmState::Stopping),
            VmState::Connected => Ok(VmState::Stopping),
            VmState::Registered => Err(TransitionError::InvalidState),
            VmState::Starting => Err(TransitionError::TransitionInProgress),
            VmState::Stopping => Err(TransitionError::TransitionInProgress),
            VmState::Stopped => Err(TransitionError::InvalidTransition),
            VmState::Unregistered => Err(TransitionError::InvalidTransition),
        },
        Action::Unregister => match current {
            VmState::Registered => Ok(VmState::Unregistered),
            VmState::Stopped => Ok(VmState::Unregistered),
            _ => Err(TransitionError::InvalidState),
        },
    }
}

/// The edges of the transition table, completion signals and
/// failure-path reverts included:
/// `run` enters `Starting` and settles into `Running`, or reverts to
/// `Registered`; `connect` commits `Running` to `Connected`; `stop` enters
/// `Stopping` from either running state and settles into `Stopped`, or
/// reverts; a one-shot VM's completion signal moves `Running` to `Stopped`;
/// `unregister` leaves `Registered` or `Stopped` for the terminal state.
pub open spec fn table_edge(from: VmState, to: VmState, run_type: RunType) -> bool {
    ||| (from == VmState::Registered && to == VmState::Starting)
    ||| (from == VmState::Starting && to == VmState::Running)
    ||| (from == VmState::Starting && to == VmState::Registered)
    ||| (from == VmState::Running && to == VmState::Connected)
    ||| (from == VmState::Running && to == VmState::Stopping)
    ||| (from == VmState::Connected && to == VmState::Stopping)
    ||| (from == VmState::Stopping && to == VmState::Stopped)
    ||| (from == VmState::Stopping && to == VmState::Running)
    ||| (from == VmState::Stopping && to == VmState::Connected)
    ||| (from == VmState::Running && to == VmState::Stopped && run_type == RunType::OneShot)
    ||| (from == VmState::Registered && to == VmState::Unregistered)
    ||| (from == VmState::Stopped && to == VmState::Unregistered)
}

/// Every state the state machine accepts an action into is either the
/// current state again (the idempotent re-connect) or lies on an edge of
/// the transition table.
pub proof fn lemma_transition_in_table(current: VmState, action: Action, vm_type: VmType)
    ensures
        spec_transition(current, action, vm_type) matches Ok(next) ==> (next == current
            || table_edge(current, next, vm_type.run_type)),
{
}

} // verus!
