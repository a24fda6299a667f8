//! The guarantees of the three protocol variants, proved over the model.
//!
//! Everything here quantifies over schedules: each public proof function
//! states one behavioural law of [`crate::model`] for every way the
//! scheduler can interleave the waiter and the notifier.

use vstd::prelude::*;

use crate::model::Holder;
use crate::model::NotifierAt;
use crate::model::State;
use crate::model::Thread;
use crate::model::WaiterAt;
use crate::model::is_complete;
use crate::model::is_deadlocked;
use crate::model::is_stuck;
use crate::model::spec_init;
use crate::model::spec_run;
use crate::model::spec_run_from;
use crate::model::spec_step;
use crate::protocol::Variant;

verus! {

/// What holds of every state a scenario can reach from its initial state,
/// for any variant: the lock-holding bookkeeping matches the program
/// counters, the flag is set exactly once the notifier has written it, it
/// is never cleared, and the wait loop's re-check discipline is reflected
/// in the waiter's counters.
pub open spec fn inv(s: State) -> bool {
    // The primary lock is held by the waiter exactly between its
    // acquisition and its park or return.
    &&& (s.primary is Waiter <==> (s.waiter is HasPrimary || s.waiter is CheckedUnset))
    // The notifier holds the primary lock exactly across its write and
    // signal — except in the Lost-Wakeup variant, which never takes it.
    &&& (s.primary is Notifier <==> (!(s.variant is LostWakeup) && (s.notifier is HasPrimary
        || s.notifier is FlagSet || s.notifier is Signalled)))
    // Only the Deadlocking variant touches the secondary lock.
    &&& (!(s.variant is Deadlocking) ==> s.secondary is Free && !(s.waiter is HasSecondary)
        && !(s.notifier is HasSecondary))
    // In the Deadlocking variant each side takes the secondary lock first
    // and holds it until its whole operation returns — in particular the
    // waiter holds it across the park.
    &&& (s.variant is Deadlocking ==> (s.secondary is Waiter <==> (s.waiter is HasSecondary
        || s.waiter is HasPrimary || s.waiter is CheckedUnset || s.waiter is Parked
        || s.waiter is Woken)))
    &&& (s.variant is Deadlocking ==> (s.secondary is Notifier <==> (s.notifier is HasSecondary
        || s.notifier is HasPrimary || s.notifier is FlagSet || s.notifier is Signalled)))
    // The Lost-Wakeup notifier goes straight from its unsynchronized write
    // to its signal to returning.
    &&& (s.variant is LostWakeup ==> !(s.notifier is HasSecondary) && !(s.notifier is HasPrimary)
        && !(s.notifier is Signalled))
    // The flag is set exactly once the notifier has written it, and stays.
    &&& (s.flag <==> (s.notifier is FlagSet || s.notifier is Signalled || s.notifier is Done))
    // The waiter returns only after reading the flag as set.
    &&& (s.waiter is Done ==> s.flag)
    // Under the lock discipline a check that saw the flag unset cannot be
    // overtaken by the write before the park; without the lock it can.
    &&& (!(s.variant is LostWakeup) && s.waiter is CheckedUnset ==> !s.flag)
    // Under the lock discipline a signal cannot have been sent while the
    // waiter is still parked: it would have woken it.
    &&& (!(s.variant is LostWakeup) && s.waiter is Parked ==> !(s.notifier is Signalled)
        && !(s.notifier is Done))
    // A wakeup happens only after the flag was written.
    &&& (s.waiter is Woken ==> s.flag)
}

/// The initial state of every variant satisfies the invariant.
pub proof fn lemma_init_inv(v: Variant)
    ensures
        inv(spec_init(v)),
{
}

/// One scheduling slot preserves the invariant.
pub proof fn lemma_step_inv(s: State, t: Thread)
    requires
        inv(s),
    ensures
        inv(spec_step(s, t)),
{
}

/// A completed scenario stays completed, slot after slot.
pub proof fn lemma_step_keeps_complete(s: State, t: Thread)
    requires
        is_complete(s),
    ensures
        is_complete(spec_step(s, t)),
{
}

/// Every state reached from an invariant state satisfies the invariant.
pub proof fn lemma_run_from_inv(s: State, sched: Seq<Thread>)
    requires
        inv(s),
    ensures
        inv(spec_run_from(s, sched)),
    decreases sched.len(),
{
    if sched.len() > 0 {
        lemma_step_inv(s, sched[0]);
        lemma_run_from_inv(spec_step(s, sched[0]), sched.subrange(1, sched.len() as int));
    }
}

/// Every state a scenario reaches satisfies the invariant.
pub proof fn lemma_run_inv(v: Variant, sched: Seq<Thread>)
    ensures
        inv(spec_run(v, sched)),
{
    lemma_init_inv(v);
    lemma_run_from_inv(spec_init(v), sched);
}

/// How many steps the waiter still has before it in the Correct variant.
pub open spec fn correct_waiter_rank(s: State) -> nat {
    match s.waiter {
        WaiterAt::Start => if s.flag {
            2
        } else {
            5
        },
        WaiterAt::HasSecondary => 0,
        WaiterAt::HasPrimary => if s.flag {
            1
        } else {
            4
        },
        WaiterAt::CheckedUnset => 3,
        WaiterAt::Parked => 2,
        WaiterAt::Woken => 2,
        WaiterAt::Done => 0,
    }
}

/// How many steps the notifier still has before it in the Correct variant.
pub open spec fn correct_notifier_rank(s: State) -> nat {
    match s.notifier {
        NotifierAt::Start => 4,
        NotifierAt::HasSecondary => 0,
        NotifierAt::HasPrimary => 3,
        NotifierAt::FlagSet => 2,
        NotifierAt::Signalled => 1,
        NotifierAt::Done => 0,
    }
}

/// A bound on the scheduling slots a Correct scenario can consume before
/// both threads have returned.
pub open spec fn correct_rank(s: State) -> nat {
    correct_waiter_rank(s) + correct_notifier_rank(s)
}

/// In the Correct variant some thread can always move until the handoff is
/// complete: no reachable state is a deadlock.
pub proof fn lemma_correct_never_deadlocks(s: State)
    requires
        inv(s),
        s.variant is Correct,
        !is_complete(s),
    ensures
        !is_stuck(s),
{
}

/// Until the handoff is complete, every scheduling slot of the Correct
/// variant brings the step bound strictly down.
pub proof fn lemma_correct_rank_decreases(s: State, t: Thread)
    requires
        inv(s),
        s.variant is Correct,
        !is_complete(s),
    ensures
        correct_rank(spec_step(s, t)) < correct_rank(s),
{
}

/// The Correct variant completes under every schedule long enough for both
/// threads to run to their ends — nine slots cover the waiter's five
/// steps and the notifier's four: the handoff cannot be lost, whichever
/// side gets there first. This is the termination guarantee.
pub proof fn lemma_correct_always_completes(sched: Seq<Thread>)
    requires
        sched.len() >= 9,
    ensures
        is_complete(spec_run(Variant::Correct, sched)),
{
    lemma_init_inv(Variant::Correct);
    lemma_correct_completes_from(spec_init(Variant::Correct), sched);
}

/// Workhorse for [`lemma_correct_always_completes`]: from any reachable
/// Correct state, a schedule at least as long as the remaining step bound
/// completes the scenario.
proof fn lemma_correct_completes_from(s: State, sched: Seq<Thread>)
    requires
        inv(s),
        s.variant is Correct,
        sched.len() >= correct_rank(s),
    ensures
        is_complete(spec_run_from(s, sched)),
    decreases sched.len(),
{
    if is_complete(s) {
        lemma_complete_forever(s, sched);
    } else {
        // Not complete, so the waiter still has steps before it and some
        // thread is runnable: the first slot makes real progress.
        let s2 = spec_step(s, sched[0]);
        lemma_correct_rank_decreases(s, sched[0]);
        lemma_step_inv(s, sched[0]);
        lemma_correct_completes_from(s2, sched.subrange(1, sched.len() as int));
    }
}

/// A completed scenario stays completed under any further schedule.
pub proof fn lemma_complete_forever(s: State, sched: Seq<Thread>)
    requires
        is_complete(s),
    ensures
        is_complete(spec_run_from(s, sched)),
    decreases sched.len(),
{
    if sched.len() > 0 {
        lemma_step_keeps_complete(s, sched[0]);
        lemma_complete_forever(spec_step(s, sched[0]), sched.subrange(1, sched.len() as int));
    }
}

/// Once set, the readiness flag never reverts: no step of any thread, in
/// any variant, clears it.
pub proof fn lemma_flag_never_reverts(s: State, t: Thread)
    requires
        s.flag,
    ensures
        spec_step(s, t).flag,
{
}

/// Once set, the readiness flag stays set for the rest of any schedule.
pub proof fn lemma_flag_stays_set(s: State, sched: Seq<Thread>)
    requires
        s.flag,
    ensures
        spec_run_from(s, sched).flag,
    decreases sched.len(),
{
    if sched.len() > 0 {
        lemma_flag_never_reverts(s, sched[0]);
        lemma_flag_stays_set(spec_step(s, sched[0]), sched.subrange(1, sched.len() as int));
    }
}

/// Which variant a scenario follows never changes while it runs.
pub proof fn lemma_run_from_keeps_variant(s: State, sched: Seq<Thread>)
    ensures
        spec_run_from(s, sched).variant == s.variant,
    decreases sched.len(),
{
    if sched.len() > 0 {
        lemma_run_from_keeps_variant(spec_step(s, sched[0]), sched.subrange(1, sched.len() as int));
    }
}

/// A stuck state is a fixed point: no schedule moves it.
pub proof fn lemma_stuck_forever(s: State, sched: Seq<Thread>)
    requires
        is_stuck(s),
    ensures
        spec_run_from(s, sched) == s,
    decreases sched.len(),
{
    if sched.len() > 0 {
        assert(spec_step(s, sched[0]) == s);
        lemma_stuck_forever(s, sched.subrange(1, sched.len() as int));
    }
}

/// What holds from the moment the Deadlocking waiter has taken the
/// secondary lock: the notifier is shut out of its very first step, so the
/// flag is never written and the waiter can never return.
pub open spec fn deadlock_trap(s: State) -> bool {
    &&& s.variant is Deadlocking
    &&& s.secondary is Waiter
    &&& s.notifier is Start
    &&& !s.flag
    &&& (s.waiter is HasSecondary || s.waiter is HasPrimary || s.waiter is CheckedUnset
        || s.waiter is Parked)
}

/// Once trapped, one more slot leaves the scenario trapped: the waiter
/// marches into the condition wait still holding the secondary lock, and
/// the notifier stays blocked on that lock.
pub proof fn lemma_deadlock_trap_step(s: State, t: Thread)
    requires
        deadlock_trap(s),
    ensures
        deadlock_trap(spec_step(s, t)),
{
}

/// A trapped scenario never completes, whatever the rest of the schedule.
proof fn lemma_deadlock_trap_run(s: State, sched: Seq<Thread>)
    requires
        deadlock_trap(s),
    ensures
        deadlock_trap(spec_run_from(s, sched)),
    decreases sched.len(),
{
    if sched.len() > 0 {
        lemma_deadlock_trap_step(s, sched[0]);
        lemma_deadlock_trap_run(spec_step(s, sched[0]), sched.subrange(1, sched.len() as int));
    }
}

/// The Deadlocking variant never completes under any schedule whose first
/// slot goes to the waiter — that is, whenever the waiter wins the race
/// for the secondary lock. (If the notifier wins that race instead, it
/// runs its whole `notify` first and the waiter then returns at once; the
/// deterministic timeout the harness observes is the run where the waiter,
/// spawned first, takes the secondary lock first.)
pub proof fn lemma_deadlocking_never_completes(sched: Seq<Thread>)
    requires
        sched.len() >= 1,
        sched[0] is Waiter,
    ensures
        !is_complete(spec_run(Variant::Deadlocking, sched)),
{
    let s0 = spec_init(Variant::Deadlocking);
    let s1 = spec_step(s0, sched[0]);
    assert(deadlock_trap(s1));
    lemma_deadlock_trap_run(s1, sched.subrange(1, sched.len() as int));
}

/// Moreover the trapped scenario ends in a genuine deadlock: once the
/// waiter is parked, neither thread can ever move again, yet the waiter
/// has not returned — exactly what the harness reports as a timeout.
pub proof fn lemma_deadlocking_gets_stuck(sched: Seq<Thread>)
    requires
        sched.len() >= 1,
        sched[0] is Waiter,
    ensures
        ({
            let s = spec_run(Variant::Deadlocking, sched);
            s.waiter is Parked ==> is_stuck(s) && !is_complete(s)
        }),
{
    let s0 = spec_init(Variant::Deadlocking);
    let s1 = spec_step(s0, sched[0]);
    assert(deadlock_trap(s1));
    lemma_deadlock_trap_run(s1, sched.subrange(1, sched.len() as int));
}

/// Secondary lock exclusivity: in the Deadlocking variant, whenever the
/// waiter sits parked inside the condition wait, it is the holder of the
/// secondary lock — any probe for that lock from outside would block.
pub proof fn lemma_parked_waiter_holds_secondary(sched: Seq<Thread>)
    ensures
        ({
            let s = spec_run(Variant::Deadlocking, sched);
            s.waiter is Parked ==> s.secondary is Waiter && !(s.secondary is Free)
        }),
{
    lemma_run_inv(Variant::Deadlocking, sched);
    lemma_run_from_keeps_variant(spec_init(Variant::Deadlocking), sched);
}

/// A schedule under which the Lost-Wakeup handoff succeeds: the notifier
/// writes the flag and signals into the void before the waiter ever takes
/// the lock, and the waiter then reads the flag as set and never parks.
pub open spec fn lost_wakeup_lucky_schedule() -> Seq<Thread> {
    seq![Thread::Notifier, Thread::Notifier, Thread::Waiter, Thread::Waiter]
}

/// A schedule under which the Lost-Wakeup handoff hangs: the waiter reads
/// the flag as unset under the lock, and — in the window before it parks,
/// open because the notifier holds nothing — the flag write and the signal
/// both land. Nobody is parked, so the signal is lost, and the waiter then
/// parks with no further signal ever to come.
pub open spec fn lost_wakeup_unlucky_schedule() -> Seq<Thread> {
    seq![Thread::Waiter, Thread::Waiter, Thread::Notifier, Thread::Notifier, Thread::Waiter]
}

/// Favourable scheduling lets the Lost-Wakeup scenario complete.
pub proof fn lemma_lost_wakeup_can_complete()
    ensures
        is_complete(spec_run(Variant::LostWakeup, lost_wakeup_lucky_schedule())),
{
    reveal_with_fuel(spec_run_from, 6);
}

/// Unfavourable scheduling loses the wakeup for good: the scenario is
/// deadlocked — the waiter parked forever although the flag is set — and
/// no continuation of the schedule can complete it.
pub proof fn lemma_lost_wakeup_can_hang(ext: Seq<Thread>)
    ensures
        ({
            let s = spec_run(Variant::LostWakeup, lost_wakeup_unlucky_schedule());
            is_deadlocked(s) && s.flag && !is_complete(spec_run_from(s, ext))
        }),
{
    reveal_with_fuel(spec_run_from, 7);
    let s = spec_run(Variant::LostWakeup, lost_wakeup_unlucky_schedule());
    lemma_stuck_forever(s, ext);
}

/// Lost-wakeup nondeterminism: from one and the same initial state, one
/// schedule completes the handoff while another hangs it forever. No
/// fixed timeout classifies this variant the way it classifies the other
/// two; only repetition can.
pub proof fn lemma_lost_wakeup_nondeterministic(ext: Seq<Thread>)
    ensures
        is_complete(spec_run(Variant::LostWakeup, lost_wakeup_lucky_schedule())),
        !is_complete(
            spec_run_from(spec_run(Variant::LostWakeup, lost_wakeup_unlucky_schedule()), ext),
        ),
{
    lemma_lost_wakeup_can_complete();
    lemma_lost_wakeup_can_hang(ext);
}

/// The state after a completed Correct handoff, with the notifier poised
/// to run its whole `notify` a second time.
pub open spec fn renotify_start() -> State {
    State {
        variant: Variant::Correct,
        flag: true,
        primary: Holder::Free,
        secondary: Holder::Free,
        waiter: WaiterAt::Done,
        notifier: NotifierAt::Start,
    }
}

/// What holds throughout a second `notify` on the Correct variant: the
/// waiter stays returned, the flag stays set.
pub open spec fn renotify_inv(s: State) -> bool {
    &&& s.variant is Correct
    &&& s.flag
    &&& s.waiter is Done
    &&& s.secondary is Free
    &&& (s.primary is Notifier <==> (s.notifier is HasPrimary || s.notifier is FlagSet
        || s.notifier is Signalled))
    &&& !(s.primary is Waiter)
    &&& !(s.notifier is HasSecondary)
}

/// One slot of a second `notify` preserves [`renotify_inv`] and, until the
/// notifier has returned, brings its remaining steps strictly down.
proof fn lemma_renotify_step(s: State, t: Thread)
    requires
        renotify_inv(s),
    ensures
        renotify_inv(spec_step(s, t)),
        !(s.notifier is Done) ==> correct_notifier_rank(spec_step(s, t))
            < correct_notifier_rank(s),
{
}

/// From any state of a second `notify`, a schedule at least as long as the
/// notifier's remaining steps finishes it, harming nothing.
proof fn lemma_renotify_from(s: State, sched: Seq<Thread>)
    requires
        renotify_inv(s),
        sched.len() >= correct_notifier_rank(s),
    ensures
        renotify_inv(spec_run_from(s, sched)),
        spec_run_from(s, sched).notifier is Done,
    decreases sched.len(),
{
    if s.notifier is Done {
        lemma_stuck_forever(s, sched);
    } else {
        lemma_renotify_step(s, sched[0]);
        lemma_renotify_from(spec_step(s, sched[0]), sched.subrange(1, sched.len() as int));
    }
}

/// Predicate idempotence: running `notify` on the Correct variant a second
/// time, after the flag is already set and the waiter has already
/// returned, leaves the waiter returned and the flag set under every
/// schedule, and the second `notify` itself returns within its own step
/// bound — its signal finds nobody to unblock and does nothing.
pub proof fn lemma_correct_renotify_harmless(sched: Seq<Thread>)
    ensures
        ({
            let s = spec_run_from(renotify_start(), sched);
            s.waiter is Done && s.flag && (sched.len() >= 4 ==> s.notifier is Done)
        }),
{
    if sched.len() >= 4 {
        lemma_renotify_from(renotify_start(), sched);
    } else {
        lemma_renotify_any(renotify_start(), sched);
    }
}

/// [`renotify_inv`] alone is preserved by every schedule, of any length.
proof fn lemma_renotify_any(s: State, sched: Seq<Thread>)
    requires
        renotify_inv(s),
    ensures
        renotify_inv(spec_run_from(s, sched)),
    decreases sched.len(),
{
    if sched.len() > 0 {
        lemma_renotify_step(s, sched[0]);
        lemma_renotify_any(spec_step(s, sched[0]), sched.subrange(1, sched.len() as int));
    }
}

/// No spurious early return, for every variant and every schedule: when
/// `wait` has returned, the last thing the waiter read under the primary
/// lock was the flag, set.
pub proof fn lemma_wait_returns_only_ready(v: Variant, sched: Seq<Thread>)
    ensures
        ({
            let s = spec_run(v, sched);
            s.waiter is Done ==> s.flag
        }),
{
    lemma_run_inv(v, sched);
}

} // verus!
