//! The readiness gate over the `parking_lot` backend.
//!
//! Same protocol logic as [`crate::gate_std`], over the non-poisoning
//! fast-path backend: `parking_lot::Mutex<bool>` under a
//! `parking_lot::Condvar`, plus the Deadlocking policy's unrelated
//! secondary `Mutex<i32>`. `parking_lot` locks cannot be poisoned, so the
//! two backends satisfy one and the same contract: every operation either
//! succeeds or the process is lost.
//!
//! As in the std backend, the executable Lost-Wakeup defect only signals;
//! see [`crate::gate_std`] on why the unsynchronized flag write exists
//! only in the model.

use vstd::prelude::*;

use crate::protocol::Variant;
use crate::protocol::flag_is_unset;

verus! {

/// Verus-facing declaration of `lock_api::Mutex`, the struct behind
/// `parking_lot::Mutex`.
#[verifier::external_type_specification]
#[verifier::external_body]
#[verifier::reject_recursive_types(R)]
#[verifier::reject_recursive_types(T)]
pub struct ExLockApiMutex<R, T: ?Sized>(lock_api::Mutex<R, T>);

/// An opaque holder for a `parking_lot::MutexGuard<'a, bool>`: holds the
/// primary lock from acquisition until dropped. It exists because Verus
/// refuses the declaration of `lock_api::MutexGuard` itself (it cannot
/// process the struct's `R: RawMutex` bound), so the guard travels through
/// verified code inside this opaque struct instead.
#[verifier::external_body]
pub struct FlagGuard<'a> {
    inner: parking_lot::MutexGuard<'a, bool>,
}

/// An opaque holder for a `parking_lot::MutexGuard<'a, i32>`: holds the
/// secondary lock from acquisition until dropped. Same reason to exist as
/// [`FlagGuard`].
#[verifier::external_body]
pub struct SecondaryGuard<'a> {
    inner: parking_lot::MutexGuard<'a, i32>,
}

/// Verus-facing declaration of `parking_lot::RawMutex`, the raw lock that
/// instantiates the structs above.
#[verifier::external_type_specification]
#[verifier::external_body]
pub struct ExPlRawMutex(parking_lot::RawMutex);

/// Verus-facing declaration of `parking_lot::Condvar`.
#[verifier::external_type_specification]
#[verifier::external_body]
pub struct ExPlCondvar(parking_lot::Condvar);

/// Relies on `parking_lot::Mutex::new` (`lock_api::Mutex::new`): wraps the
/// value in a fresh, unlocked mutex.
#[verifier::external_body]
fn pl_mutex_new<T>(value: T) -> parking_lot::Mutex<T> {
    parking_lot::Mutex::new(value)
}

/// Relies on `parking_lot::Mutex::lock` (`lock_api::Mutex::lock`): blocks
/// until the calling thread holds the lock exclusively, then hands out the
/// guard; the lock is released when the guard is dropped. No poisoning
/// exists in this backend.
#[verifier::external_body]
fn pl_lock_flag<'a>(m: &'a parking_lot::Mutex<bool>) -> FlagGuard<'a> {
    FlagGuard { inner: m.lock() }
}

/// Relies on `parking_lot::Mutex::lock` (`lock_api::Mutex::lock`), exactly
/// as [`pl_lock_flag`] does, for the Deadlocking policy's secondary lock.
#[verifier::external_body]
fn pl_lock_secondary<'a>(m: &'a parking_lot::Mutex<i32>) -> SecondaryGuard<'a> {
    SecondaryGuard { inner: m.lock() }
}

/// Relies on the `DerefMut` impl of `lock_api::MutexGuard`: writes the
/// value the guard protects, under the guard's lock.
#[verifier::external_body]
fn pl_guard_set<'a>(guard: &mut FlagGuard<'a>, value: bool) {
    *guard.inner = value;
}

/// Relies on `parking_lot::Condvar::wait_while`: atomically releases the
/// guard's lock and blocks; every wakeup reacquires the lock and re-checks
/// the predicate under it, and the call returns only once the predicate
/// came back false — here, only once the guarded flag was read as set
/// (with the flag already set on entry it returns without ever blocking).
/// The flag value it leaves behind, read under the lock, is therefore
/// `true`.
#[verifier::external_body]
fn pl_wait_while_unset<'a>(condvar: &parking_lot::Condvar, guard: FlagGuard<'a>) -> (observed:
    bool)
    ensures
        observed,
{
    let mut g = guard.inner;
    condvar.wait_while(&mut g, |ready: &mut bool| flag_is_unset(ready));
    *g
}

/// Relies on `parking_lot::Condvar::notify_one`: wakes one thread blocked
/// on this condition variable if there is one; a notification sent with no
/// thread blocked is discarded, not queued.
#[verifier::external_body]
fn pl_condvar_notify_one(condvar: &parking_lot::Condvar) {
    condvar.notify_one();
}

/// Relies on `parking_lot::Condvar::new`: a fresh condition variable with
/// nobody waiting on it.
#[verifier::external_body]
fn pl_condvar_new() -> parking_lot::Condvar {
    parking_lot::Condvar::new()
}

/// A readiness gate over `parking_lot`: a flag under its primary lock, a
/// condition variable bound to that lock, and — for the Deadlocking policy
/// only — an unrelated secondary lock guarding an unrelated integer.
///
/// A gate is built once with the flag unset, shared by one waiter and one
/// notifier for a single handoff, and then discarded; there is no reset.
pub struct ParkingLotReadyGate {
    policy: Variant,
    flag: parking_lot::Mutex<bool>,
    ready: parking_lot::Condvar,
    secondary: Option<parking_lot::Mutex<i32>>,
}

impl ParkingLotReadyGate {
    /// A gate carries the secondary lock exactly when its policy is the
    /// Deadlocking one.
    pub closed spec fn wf(&self) -> bool {
        self.policy is Deadlocking <==> self.secondary is Some
    }

    /// Which wait/notify policy this gate follows.
    pub closed spec fn policy(&self) -> Variant {
        self.policy
    }

    /// A fresh gate for one handoff under the given policy: flag unset,
    /// nobody waiting.
    pub fn new(policy: Variant) -> (gate: ParkingLotReadyGate)
        ensures
            gate.wf(),
            gate.policy() == policy,
    {
        ParkingLotReadyGate {
            policy,
            flag: pl_mutex_new(false),
            ready: pl_condvar_new(),
            secondary: if policy == Variant::Deadlocking {
                Some(pl_mutex_new(1i32))
            } else {
                None
            },
        }
    }

    /// The one correct way to make a gate ready: take the primary lock,
    /// set the flag under it, signal one waiter, release the lock.
    fn set_and_signal(&self) {
        let mut guard = pl_lock_flag(&self.flag);
        pl_guard_set(&mut guard, true);
        pl_condvar_notify_one(&self.ready);
    }

    /// The correct-style wait primitive: take the primary lock and block
    /// until the flag is read as set under it, tolerating spurious wakeups
    /// and signals that raced ahead. Returns the flag value it observed
    /// under the lock when it decided to return — always `true`.
    fn wait_until_ready(&self) -> (observed: bool)
        ensures
            observed,
    {
        let guard = pl_lock_flag(&self.flag);
        pl_wait_while_unset(&self.ready, guard)
    }

    /// The policy's `wait`. Correct and Lost-Wakeup: the predicate-guarded
    /// wait alone. Deadlocking: the same wait, but with the unrelated
    /// secondary lock taken first and held across the whole call —
    /// including the blocking condition wait, which releases only the
    /// primary lock.
    ///
    /// Never returns with the flag read as unset: this is the no-spurious-
    /// early-return guarantee of the wait loop.
    pub fn wait(&self) -> (observed: bool)
        requires
            self.wf(),
        ensures
            observed,
    {
        match self.policy {
            Variant::Deadlocking => {
                let _held = pl_lock_secondary(self.secondary.as_ref().unwrap());
                let observed = self.wait_until_ready();
                observed
                // `_held` drops here: the secondary lock outlives the wait.
            },
            _ => self.wait_until_ready(),
        }
    }

    /// The policy's `notify`. Correct: set-and-signal under the primary
    /// lock. Deadlocking: the same, but only after taking the secondary
    /// lock, held until return — so a waiter parked while holding that
    /// lock shuts the notifier out forever. Lost-Wakeup: the deliberate
    /// defect — only the signal, sent with no lock held and without
    /// writing the flag, so a waiter that has not parked yet loses it.
    pub fn notify(&self)
        requires
            self.wf(),
    {
        match self.policy {
            Variant::Correct => self.set_and_signal(),
            Variant::Deadlocking => {
                let _held = pl_lock_secondary(self.secondary.as_ref().unwrap());
                self.set_and_signal();
                // `_held` drops here: the secondary lock outlives the notify.
            },
            Variant::LostWakeup => pl_condvar_notify_one(&self.ready),
        }
    }
}

} // verus!
