//! A readiness-gate synchronization primitive and a catalog of the three
//! classic ways to use it: a correct predicate-guarded handoff, a
//! lock-ordering deadlock, and a lost-wakeup race.
//!
//! The crate has three layers:
//!
//! * [`model`] — a small-step interleaving model of the two-thread
//!   handoff, and [`laws`] — the behavioural guarantees of each protocol
//!   variant, stated and proved over it for every scheduling: the correct
//!   handoff always terminates, the lock-ordering variant deadlocks, the
//!   unlocked-notify variant genuinely races.
//! * [`gate_std`] and [`gate_parking`] — the executable gate itself, once
//!   per locking backend, behind thin trusted wrappers for the lock and
//!   condition-variable primitives.
//! * [`protocol`] — the harness side: scenario phases, observed outcomes,
//!   and the classification of repeated trials.

use vstd::prelude::*;

pub mod gate_parking;
pub mod gate_std;
pub mod laws;
pub mod model;
pub mod protocol;

verus! {

} // verus!
