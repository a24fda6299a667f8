//! The readiness gate over the standard library's blocking-mutex backend.
//!
//! The flag sits inside a `std::sync::Mutex<bool>` with a
//! `std::sync::Condvar` bound to it; the Deadlocking policy adds the
//! unrelated secondary `Mutex<i32>` it needs for its lock-ordering hazard.
//! Each lock and condition-variable operation is a thin trusted wrapper;
//! a gate's own logic — which locks are taken, in which order, what is
//! written, when the signal is sent — is verified.
//!
//! One deliberate asymmetry with [`crate::model`]: the model's Lost-Wakeup
//! notifier also writes the flag without the lock, because only that
//! unsynchronized write makes both outcomes of the race expressible, while
//! a safe program cannot write a mutex-guarded flag without holding its
//! mutex. The executable defect therefore drops the write altogether and
//! only signals, exactly as a gate misused this way would.
//!
//! Lock poisoning — a previous holder that panicked — is treated as an
//! unrecoverable fault of the whole process, never as an error that a
//! gate reports or hides.

use vstd::prelude::*;

use crate::protocol::Variant;
use crate::protocol::flag_is_unset;

verus! {

/// Verus-facing declaration of `std::sync::Mutex`.
#[verifier::external_type_specification]
#[verifier::external_body]
#[verifier::reject_recursive_types(T)]
pub struct ExMutex<T: ?Sized>(std::sync::Mutex<T>);

/// Verus-facing declaration of `std::sync::MutexGuard`.
#[verifier::external_type_specification]
#[verifier::external_body]
#[verifier::reject_recursive_types(T)]
pub struct ExMutexGuard<'a, T: ?Sized + 'a>(std::sync::MutexGuard<'a, T>);

/// Verus-facing declaration of `std::sync::Condvar`.
#[verifier::external_type_specification]
#[verifier::external_body]
pub struct ExCondvar(std::sync::Condvar);

/// Relies on `std::sync::Mutex::new`: wraps the value in a fresh, unlocked
/// mutex.
#[verifier::external_body]
fn mutex_new<T>(value: T) -> std::sync::Mutex<T> {
    std::sync::Mutex::new(value)
}

/// Relies on `std::sync::Mutex::lock`: blocks until the calling thread
/// holds the lock exclusively, then hands out the guard; the lock is
/// released when the guard is dropped. A poisoned lock is an unrecoverable
/// process fault, so acquisition of one panics instead of returning.
#[verifier::external_body]
fn mutex_lock<'a, T>(m: &'a std::sync::Mutex<T>) -> std::sync::MutexGuard<'a, T> {
    m.lock().expect("gate lock poisoned: unrecoverable fault")
}

/// Relies on the `DerefMut` impl of `std::sync::MutexGuard`: writes the
/// value the guard protects, under the guard's lock.
#[verifier::external_body]
fn guard_set<'a>(guard: &mut std::sync::MutexGuard<'a, bool>, value: bool) {
    **guard = value;
}

/// Relies on `std::sync::Condvar::wait_while`: atomically releases the
/// guard's lock and blocks; every wakeup reacquires the lock and re-checks
/// the predicate under it, and the call returns only once the predicate
/// came back false — here, only once the guarded flag was read as set
/// (with the flag already set on entry it returns without ever blocking).
/// The flag value it leaves behind, read under the lock, is therefore
/// `true`. A poisoned lock panics, as everywhere in this gate.
#[verifier::external_body]
fn wait_while_unset<'a>(
    condvar: &std::sync::Condvar,
    guard: std::sync::MutexGuard<'a, bool>,
) -> (observed: bool)
    ensures
        observed,
{
    let g = condvar.wait_while(guard, |ready: &mut bool| flag_is_unset(ready)).expect(
        "gate lock poisoned: unrecoverable fault",
    );
    *g
}

/// Relies on `std::sync::Condvar::notify_one`: wakes one thread blocked on
/// this condition variable if there is one; a notification sent with no
/// thread blocked is discarded, not queued.
#[verifier::external_body]
fn condvar_notify_one(condvar: &std::sync::Condvar) {
    condvar.notify_one();
}

/// Relies on `std::sync::Condvar::new`: a fresh condition variable with
/// nobody waiting on it.
#[verifier::external_body]
fn condvar_new() -> std::sync::Condvar {
    std::sync::Condvar::new()
}

/// A readiness gate over `std::sync`: a flag under its primary lock, a
/// condition variable bound to that lock, and — for the Deadlocking policy
/// only — an unrelated secondary lock guarding an unrelated integer.
///
/// A gate is built once with the flag unset, shared by one waiter and one
/// notifier for a single handoff, and then discarded; there is no reset.
pub struct StdReadyGate {
    policy: Variant,
    flag: std::sync::Mutex<bool>,
    ready: std::sync::Condvar,
    secondary: Option<std::sync::Mutex<i32>>,
}

impl StdReadyGate {
    /// A gate carries the secondary lock exactly when its policy is the
    /// Deadlocking one.
    pub closed spec fn wf(&self) -> bool {
        self.policy is Deadlocking <==> self.secondary is Some
    }

    /// Which wait/notify policy this gate follows.
    pub closed spec fn policy(&self) -> Variant {
        self.policy
    }

    /// A fresh gate for one handoff under the given policy: flag unset,
    /// nobody waiting.
    pub fn new(policy: Variant) -> (gate: StdReadyGate)
        ensures
            gate.wf(),
            gate.policy() == policy,
    {
        StdReadyGate {
            policy,
            flag: mutex_new(false),
            ready: condvar_new(),
            secondary: if policy == Variant::Deadlocking {
                Some(mutex_new(1i32))
            } else {
                None
            },
        }
    }

    /// The one correct way to make a gate ready: take the primary lock,
    /// set the flag under it, signal one waiter, release the lock.
    fn set_and_signal(&self) {
        let mut guard = mutex_lock(&self.flag);
        guard_set(&mut guard, true);
        condvar_notify_one(&self.ready);
    }

    /// The correct-style wait primitive: take the primary lock and block
    /// until the flag is read as set under it, tolerating spurious wakeups
    /// and signals that raced ahead. Returns the flag value it observed
    /// under the lock when it decided to return — always `true`.
    fn wait_until_ready(&self) -> (observed: bool)
        ensures
            observed,
    {
        let guard = mutex_lock(&self.flag);
        wait_while_unset(&self.ready, guard)
    }

    /// The policy's `wait`. Correct and Lost-Wakeup: the predicate-guarded
    /// wait alone. Deadlocking: the same wait, but with the unrelated
    /// secondary lock taken first and held across the whole call —
    /// including the blocking condition wait, which releases only the
    /// primary lock.
    ///
    /// Never returns with the flag read as unset: this is the no-spurious-
    /// early-return guarantee of the wait loop.
    pub fn wait(&self) -> (observed: bool)
        requires
            self.wf(),
        ensures
            observed,
    {
        match self.policy {
            Variant::Deadlocking => {
                let _held = mutex_lock(self.secondary.as_ref().unwrap());
                let observed = self.wait_until_ready();
                observed
                // `held` drops here: the secondary lock outlives the wait.
            },
            _ => self.wait_until_ready(),
        }
    }

    /// The policy's `notify`. Correct: set-and-signal under the primary
    /// lock. Deadlocking: the same, but only after taking the secondary
    /// lock, held until return — so a waiter parked while holding that
    /// lock shuts the notifier out forever. Lost-Wakeup: the deliberate
    /// defect — only the signal, sent with no lock held and without
    /// writing the flag, so a waiter that has not parked yet loses it.
    pub fn notify(&self)
        requires
            self.wf(),
    {
        match self.policy {
            Variant::Correct => self.set_and_signal(),
            Variant::Deadlocking => {
                let _held = mutex_lock(self.secondary.as_ref().unwrap());
                self.set_and_signal();
                // `held` drops here: the secondary lock outlives the notify.
            },
            Variant::LostWakeup => condvar_notify_one(&self.ready),
        }
    }
}

} // verus!
