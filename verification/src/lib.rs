//! A lifecycle registry for named virtual machines.
//!
//! The registry owns the authoritative record of every known VM, enforces
//! legal lifecycle transitions through a pure state machine, and keeps all
//! records behind a versioned key-value store with compare-and-swap writes.

pub mod errors;
pub mod laws;
pub mod record;
pub mod registry;
pub mod state_machine;
pub mod store;
