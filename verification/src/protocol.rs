//! Protocol variants, observed outcomes, and the harness state machine.
//!
//! A scenario pits one waiter thread against one notifier thread over a
//! single readiness gate. The harness spawns the waiter, sends the
//! notification from the spawning thread, and joins the waiter under a
//! wall-clock bound; the only things it ever observes are which phase the
//! scenario is in and whether the bounded join succeeded.

use vstd::prelude::*;

verus! {

/// The three wait/notify policies a scenario can exercise.
#[derive(Clone, Copy, PartialEq, Eq, Structural, Debug)]
pub enum Variant {
    /// Flag set and signalled under the primary lock; wait re-checks in a loop.
    Correct,
    /// Both sides take an unrelated secondary lock first and hold it across
    /// the whole operation, including the blocking condition wait.
    Deadlocking,
    /// The notifier touches the flag and the condition variable without ever
    /// holding the primary lock.
    LostWakeup,
}

/// What the harness observed of one scenario run.
#[derive(Clone, Copy, PartialEq, Eq, Structural, Debug)]
pub enum Outcome {
    /// The waiter returned before the join deadline.
    Completed,
    /// The join deadline passed with the waiter still blocked.
    TimedOut,
}

/// The wait loop's predicate: a gate's flag is still unset, so the
/// waiter must (or must keep) waiting. Both backends hand this to their
/// condition wait to re-check under the lock after every wakeup.
pub fn flag_is_unset(value: &bool) -> (r: bool)
    ensures
        r == !*value,
{
    !*value
}

/// Where a single two-thread scenario stands, as the harness drives it.
#[derive(Clone, Copy, PartialEq, Eq, Structural, Debug)]
pub enum HarnessPhase {
    /// Nothing has happened yet.
    NotStarted,
    /// The waiter thread has been spawned against the shared gate.
    WaiterSpawned,
    /// The spawning thread has run the variant's `notify`.
    NotifySent,
    /// The bounded join returned: the waiter came back in time.
    Completed,
    /// The join deadline passed with the waiter still blocked; the waiter
    /// thread is abandoned, never forcibly terminated.
    TimedOut,
}

/// What the harness just did or observed.
#[derive(Clone, Copy, PartialEq, Eq, Structural, Debug)]
pub enum HarnessEvent {
    /// The waiter thread was spawned.
    SpawnWaiter,
    /// `notify` was run on the spawning thread.
    SendNotify,
    /// The join returned within its bound.
    JoinReturned,
    /// The join bound expired first.
    JoinDeadlineExceeded,
}

/// The harness transition relation: spawn, then notify, then a bounded
/// join that either returns or expires. An event out of order changes
/// nothing.
pub open spec fn spec_harness_step(phase: HarnessPhase, event: HarnessEvent) -> HarnessPhase {
    match (phase, event) {
        (HarnessPhase::NotStarted, HarnessEvent::SpawnWaiter) => HarnessPhase::WaiterSpawned,
        (HarnessPhase::WaiterSpawned, HarnessEvent::SendNotify) => HarnessPhase::NotifySent,
        (HarnessPhase::NotifySent, HarnessEvent::JoinReturned) => HarnessPhase::Completed,
        (HarnessPhase::NotifySent, HarnessEvent::JoinDeadlineExceeded) => HarnessPhase::TimedOut,
        _ => phase,
    }
}

/// Exec mirror of [`spec_harness_step`]; the embedding application feeds
/// it what it did and observed, and it decides the phase.
pub fn harness_step(phase: HarnessPhase, event: HarnessEvent) -> (next: HarnessPhase)
    ensures
        next == spec_harness_step(phase, event),
{
    match (phase, event) {
        (HarnessPhase::NotStarted, HarnessEvent::SpawnWaiter) => HarnessPhase::WaiterSpawned,
        (HarnessPhase::WaiterSpawned, HarnessEvent::SendNotify) => HarnessPhase::NotifySent,
        (HarnessPhase::NotifySent, HarnessEvent::JoinReturned) => HarnessPhase::Completed,
        (HarnessPhase::NotifySent, HarnessEvent::JoinDeadlineExceeded) => HarnessPhase::TimedOut,
        _ => phase,
    }
}

/// The outcome a finished scenario reports; `None` while it still runs.
pub fn phase_outcome(phase: HarnessPhase) -> (r: Option<Outcome>)
    ensures
        r == (match phase {
            HarnessPhase::Completed => Some(Outcome::Completed),
            HarnessPhase::TimedOut => Some(Outcome::TimedOut),
            _ => None::<Outcome>,
        }),
{
    match phase {
        HarnessPhase::Completed => Some(Outcome::Completed),
        HarnessPhase::TimedOut => Some(Outcome::TimedOut),
        _ => None,
    }
}

/// How a batch of repeated trials came out.
#[derive(Clone, Copy, PartialEq, Eq, Structural, Debug)]
pub enum TrialsReport {
    /// Every trial completed within its bound.
    AllCompleted,
    /// Every trial timed out.
    AllTimedOut,
    /// Both outcomes were observed: the scenario is nondeterministic.
    Mixed,
}

/// Classify a non-empty batch of observed outcomes: deterministic
/// completion, deterministic timeout, or both outcomes seen.
pub fn classify(outcomes: &Vec<Outcome>) -> (r: TrialsReport)
    requires
        outcomes@.len() >= 1,
    ensures
        (r is AllCompleted <==> forall|i: int|
            0 <= i < outcomes@.len() ==> outcomes@[i] is Completed),
        (r is AllTimedOut <==> forall|i: int|
            0 <= i < outcomes@.len() ==> outcomes@[i] is TimedOut),
        (r is Mixed <==> ((exists|i: int| 0 <= i < outcomes@.len() && outcomes@[i] is Completed)
            && (exists|i: int| 0 <= i < outcomes@.len() && outcomes@[i] is TimedOut))),
{
    let mut seen_completed = false;
    let mut seen_timed_out = false;
    let mut k: usize = 0;
    while k < outcomes.len()
        invariant
            k <= outcomes@.len(),
            seen_completed <==> (exists|i: int| 0 <= i < k && outcomes@[i] is Completed),
            seen_timed_out <==> (exists|i: int| 0 <= i < k && outcomes@[i] is TimedOut),
        decreases outcomes@.len() - k,
    {
        match outcomes[k] {
            Outcome::Completed => {
                seen_completed = true;
            },
            Outcome::TimedOut => {
                seen_timed_out = true;
            },
        }
        k = k + 1;
    }
    proof {
        // An outcome is one of exactly two kinds.
        assert(forall|i: int|
            0 <= i < outcomes@.len() ==> ((#[trigger] outcomes@[i]) is Completed || outcomes@[i]
                is TimedOut));
        // At least one outcome exists, so a batch that saw no completion
        // (or no timeout) has a concrete witness at the front.
        if !seen_completed {
            assert(outcomes@[0] is TimedOut);
        }
        if !seen_timed_out {
            assert(outcomes@[0] is Completed);
        }
    }
    if seen_completed && seen_timed_out {
        TrialsReport::Mixed
    } else if seen_completed {
        TrialsReport::AllCompleted
    } else {
        TrialsReport::AllTimedOut
    }
}

/// The report each variant owes the harness: the Correct handoff always
/// completes, the Deadlocking one always times out, and the Lost-Wakeup
/// one must show both outcomes across enough perturbed trials.
pub fn expected_report(v: Variant) -> (r: TrialsReport)
    ensures
        v is Correct ==> r is AllCompleted,
        v is Deadlocking ==> r is AllTimedOut,
        v is LostWakeup ==> r is Mixed,
{
    match v {
        Variant::Correct => TrialsReport::AllCompleted,
        Variant::Deadlocking => TrialsReport::AllTimedOut,
        Variant::LostWakeup => TrialsReport::Mixed,
    }
}

} // verus!
