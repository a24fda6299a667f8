//! A small-step interleaving model of one readiness handoff.
//!
//! Exactly two threads take part: the waiter, which performs the variant's
//! `wait`, and the notifier, which performs its `notify`. Every statement
//! that touches shared state — taking or releasing a lock, reading or
//! writing the flag, parking on the condition variable, signalling it — is
//! one atomic step, and a schedule is the sequence of choices an operating
//! system makes between the two threads.
//!
//! A schedule entry names a thread; if that thread cannot move (it is
//! parked, blocked on a lock, or finished), the slot falls to the other
//! thread, and if neither can move the state stays put. The scheduler may
//! therefore order runnable threads arbitrarily, but never idles while some
//! thread is runnable; the guarantees proved in [`crate::laws`] quantify
//! over every such schedule.
//!
//! The condition variable is modelled exactly as the backends document it:
//! a signal wakes a parked waiter and is lost — not queued — when nobody is
//! parked. A wakeup happens only on a signal; the predicate re-check that
//! the wait loop performs after every wakeup is the waiter's own
//! `CheckedUnset`/`HasPrimary` steps. The check of the flag and the park
//! that follows it are separate steps, while the park itself atomically
//! releases the primary lock; this is the window in which a notifier that
//! signals without holding the primary lock can lose its wakeup.

use vstd::prelude::*;

use crate::protocol::Outcome;
use crate::protocol::Variant;

verus! {

/// One of the two threads of a scenario.
#[derive(Clone, Copy, PartialEq, Eq, Structural, Debug)]
pub enum Thread {
    Waiter,
    Notifier,
}

/// Who holds a lock.
#[derive(Clone, Copy, PartialEq, Eq, Structural, Debug)]
pub enum Holder {
    Free,
    Waiter,
    Notifier,
}

/// Where the waiter stands in its `wait` call.
#[derive(Clone, Copy, PartialEq, Eq, Structural, Debug)]
pub enum WaiterAt {
    /// Has not reached the first lock acquisition.
    Start,
    /// Holds the secondary lock (Deadlocking variant only).
    HasSecondary,
    /// Holds the primary lock, about to read the flag.
    HasPrimary,
    /// Read the flag as unset under the primary lock; the next step parks.
    CheckedUnset,
    /// Parked on the condition variable; the primary lock was released
    /// atomically with parking. Only a signal can move the waiter on.
    Parked,
    /// Woken by a signal, waiting to reacquire the primary lock.
    Woken,
    /// `wait` returned; the flag was read as set under the primary lock.
    Done,
}

/// Where the notifier stands in its `notify` call.
#[derive(Clone, Copy, PartialEq, Eq, Structural, Debug)]
pub enum NotifierAt {
    /// Has not reached its first action.
    Start,
    /// Holds the secondary lock (Deadlocking variant only).
    HasSecondary,
    /// Holds the primary lock (Correct and Deadlocking variants).
    HasPrimary,
    /// Has written the flag; the next step signals.
    FlagSet,
    /// Has signalled, still holding the primary lock.
    Signalled,
    /// `notify` returned; every lock it took has been released.
    Done,
}

/// The whole shared and thread-local state of one scenario.
#[derive(Clone, Copy, PartialEq, Eq, Structural, Debug)]
pub struct State {
    /// Which wait/notify policy both threads follow.
    pub variant: Variant,
    /// The readiness flag guarded by the primary lock.
    pub flag: bool,
    /// The primary lock, which the condition variable is bound to.
    pub primary: Holder,
    /// The unrelated secondary lock (used by the Deadlocking variant only).
    pub secondary: Holder,
    /// The waiter's program counter.
    pub waiter: WaiterAt,
    /// The notifier's program counter.
    pub notifier: NotifierAt,
}

/// The state a scenario of the given variant starts in.
pub open spec fn spec_init(v: Variant) -> State {
    State {
        variant: v,
        flag: false,
        primary: Holder::Free,
        secondary: Holder::Free,
        waiter: WaiterAt::Start,
        notifier: NotifierAt::Start,
    }
}

/// Whether the waiter can take a step: it is not finished, not parked, and
/// not blocked on a lock someone else holds.
pub open spec fn waiter_enabled(s: State) -> bool {
    match s.waiter {
        WaiterAt::Start => if s.variant is Deadlocking {
            s.secondary is Free
        } else {
            s.primary is Free
        },
        WaiterAt::HasSecondary => s.primary is Free,
        WaiterAt::HasPrimary => true,
        WaiterAt::CheckedUnset => true,
        WaiterAt::Parked => false,
        WaiterAt::Woken => s.primary is Free,
        WaiterAt::Done => false,
    }
}

/// The waiter's next state, meaningful when it is enabled.
pub open spec fn waiter_step(s: State) -> State
    recommends
        waiter_enabled(s),
{
    match s.waiter {
        WaiterAt::Start => if s.variant is Deadlocking {
            State { secondary: Holder::Waiter, waiter: WaiterAt::HasSecondary, ..s }
        } else {
            State { primary: Holder::Waiter, waiter: WaiterAt::HasPrimary, ..s }
        },
        WaiterAt::HasSecondary => State {
            primary: Holder::Waiter,
            waiter: WaiterAt::HasPrimary,
            ..s
        },
        WaiterAt::HasPrimary => if s.flag {
            // The flag is set: return, dropping every guard still held.
            State {
                primary: Holder::Free,
                secondary: if s.variant is Deadlocking { Holder::Free } else { s.secondary },
                waiter: WaiterAt::Done,
                ..s
            }
        } else {
            State { waiter: WaiterAt::CheckedUnset, ..s }
        },
        // Park: release the primary lock and block, atomically. The
        // secondary lock, where held, stays held across the whole wait.
        WaiterAt::CheckedUnset => State { primary: Holder::Free, waiter: WaiterAt::Parked, ..s },
        WaiterAt::Parked => s,
        WaiterAt::Woken => State { primary: Holder::Waiter, waiter: WaiterAt::HasPrimary, ..s },
        WaiterAt::Done => s,
    }
}

/// Whether the notifier can take a step.
pub open spec fn notifier_enabled(s: State) -> bool {
    match s.notifier {
        NotifierAt::Start => match s.variant {
            Variant::Correct => s.primary is Free,
            Variant::Deadlocking => s.secondary is Free,
            Variant::LostWakeup => true,
        },
        NotifierAt::HasSecondary => s.primary is Free,
        NotifierAt::HasPrimary => true,
        NotifierAt::FlagSet => true,
        NotifierAt::Signalled => true,
        NotifierAt::Done => false,
    }
}

/// The notifier's next state, meaningful when it is enabled.
///
/// The Lost-Wakeup notifier touches neither lock: it writes the flag and
/// signals with nothing held, so both steps can interleave freely with the
/// waiter's check and park.
pub open spec fn notifier_step(s: State) -> State
    recommends
        notifier_enabled(s),
{
    match s.notifier {
        NotifierAt::Start => match s.variant {
            Variant::Correct => State {
                primary: Holder::Notifier,
                notifier: NotifierAt::HasPrimary,
                ..s
            },
            Variant::Deadlocking => State {
                secondary: Holder::Notifier,
                notifier: NotifierAt::HasSecondary,
                ..s
            },
            Variant::LostWakeup => State { flag: true, notifier: NotifierAt::FlagSet, ..s },
        },
        NotifierAt::HasSecondary => State {
            primary: Holder::Notifier,
            notifier: NotifierAt::HasPrimary,
            ..s
        },
        NotifierAt::HasPrimary => State { flag: true, notifier: NotifierAt::FlagSet, ..s },
        // Signal: wake the waiter if and only if it is parked right now; a
        // signal with nobody parked is lost, not queued.
        NotifierAt::FlagSet => State {
            waiter: if s.waiter is Parked { WaiterAt::Woken } else { s.waiter },
            notifier: if s.variant is LostWakeup { NotifierAt::Done } else { NotifierAt::Signalled },
            ..s
        },
        NotifierAt::Signalled => State {
            primary: Holder::Free,
            secondary: if s.variant is Deadlocking { Holder::Free } else { s.secondary },
            notifier: NotifierAt::Done,
            ..s
        },
        NotifierAt::Done => s,
    }
}

/// Whether the named thread can take a step.
pub open spec fn thread_enabled(s: State, t: Thread) -> bool {
    match t {
        Thread::Waiter => waiter_enabled(s),
        Thread::Notifier => notifier_enabled(s),
    }
}

/// The named thread's next state.
pub open spec fn thread_step(s: State, t: Thread) -> State {
    match t {
        Thread::Waiter => waiter_step(s),
        Thread::Notifier => notifier_step(s),
    }
}

/// The thread a schedule entry does not name.
pub open spec fn other(t: Thread) -> Thread {
    match t {
        Thread::Waiter => Thread::Notifier,
        Thread::Notifier => Thread::Waiter,
    }
}

/// One scheduling slot: the named thread runs if it can, a slot offered to
/// a blocked thread falls to the other thread, and with both threads
/// blocked or finished nothing moves.
pub open spec fn spec_step(s: State, t: Thread) -> State {
    if thread_enabled(s, t) {
        thread_step(s, t)
    } else if thread_enabled(s, other(t)) {
        thread_step(s, other(t))
    } else {
        s
    }
}

/// The state after handing out the slots of `sched` in order, from `s`.
pub open spec fn spec_run_from(s: State, sched: Seq<Thread>) -> State
    decreases sched.len(),
{
    if sched.len() == 0 {
        s
    } else {
        spec_run_from(spec_step(s, sched[0]), sched.subrange(1, sched.len() as int))
    }
}

/// The state a scenario of variant `v` reaches under schedule `sched`.
pub open spec fn spec_run(v: Variant, sched: Seq<Thread>) -> State {
    spec_run_from(spec_init(v), sched)
}

/// The scenario is complete once the waiter has returned from `wait`.
pub open spec fn is_complete(s: State) -> bool {
    s.waiter is Done
}

/// Neither thread can ever move again: every further schedule leaves the
/// state exactly as it is.
pub open spec fn is_stuck(s: State) -> bool {
    !waiter_enabled(s) && !notifier_enabled(s)
}

/// A deadlock is being stuck before the waiter has returned.
pub open spec fn is_deadlocked(s: State) -> bool {
    is_stuck(s) && !is_complete(s)
}

/// Exec mirror of [`spec_init`].
pub fn init(v: Variant) -> (s: State)
    ensures
        s == spec_init(v),
{
    State {
        variant: v,
        flag: false,
        primary: Holder::Free,
        secondary: Holder::Free,
        waiter: WaiterAt::Start,
        notifier: NotifierAt::Start,
    }
}

/// Exec mirror of [`waiter_enabled`].
pub fn waiter_can_move(s: &State) -> (b: bool)
    ensures
        b == waiter_enabled(*s),
{
    match s.waiter {
        WaiterAt::Start => if s.variant == Variant::Deadlocking {
            s.secondary == Holder::Free
        } else {
            s.primary == Holder::Free
        },
        WaiterAt::HasSecondary => s.primary == Holder::Free,
        WaiterAt::HasPrimary => true,
        WaiterAt::CheckedUnset => true,
        WaiterAt::Parked => false,
        WaiterAt::Woken => s.primary == Holder::Free,
        WaiterAt::Done => false,
    }
}

/// Exec mirror of [`notifier_enabled`].
pub fn notifier_can_move(s: &State) -> (b: bool)
    ensures
        b == notifier_enabled(*s),
{
    match s.notifier {
        NotifierAt::Start => match s.variant {
            Variant::Correct => s.primary == Holder::Free,
            Variant::Deadlocking => s.secondary == Holder::Free,
            Variant::LostWakeup => true,
        },
        NotifierAt::HasSecondary => s.primary == Holder::Free,
        NotifierAt::HasPrimary => true,
        NotifierAt::FlagSet => true,
        NotifierAt::Signalled => true,
        NotifierAt::Done => false,
    }
}

/// Exec mirror of [`waiter_step`].
fn waiter_move(s: State) -> (r: State)
    ensures
        r == waiter_step(s),
{
    match s.waiter {
        WaiterAt::Start => if s.variant == Variant::Deadlocking {
            State { secondary: Holder::Waiter, waiter: WaiterAt::HasSecondary, ..s }
        } else {
            State { primary: Holder::Waiter, waiter: WaiterAt::HasPrimary, ..s }
        },
        WaiterAt::HasSecondary => State {
            primary: Holder::Waiter,
            waiter: WaiterAt::HasPrimary,
            ..s
        },
        WaiterAt::HasPrimary => if s.flag {
            State {
                primary: Holder::Free,
                secondary: if s.variant == Variant::Deadlocking { Holder::Free } else { s.secondary },
                waiter: WaiterAt::Done,
                ..s
            }
        } else {
            State { waiter: WaiterAt::CheckedUnset, ..s }
        },
        WaiterAt::CheckedUnset => State { primary: Holder::Free, waiter: WaiterAt::Parked, ..s },
        WaiterAt::Parked => s,
        WaiterAt::Woken => State { primary: Holder::Waiter, waiter: WaiterAt::HasPrimary, ..s },
        WaiterAt::Done => s,
    }
}

/// Exec mirror of [`notifier_step`].
fn notifier_move(s: State) -> (r: State)
    ensures
        r == notifier_step(s),
{
    match s.notifier {
        NotifierAt::Start => match s.variant {
            Variant::Correct => State {
                primary: Holder::Notifier,
                notifier: NotifierAt::HasPrimary,
                ..s
            },
            Variant::Deadlocking => State {
                secondary: Holder::Notifier,
                notifier: NotifierAt::HasSecondary,
                ..s
            },
            Variant::LostWakeup => State { flag: true, notifier: NotifierAt::FlagSet, ..s },
        },
        NotifierAt::HasSecondary => State {
            primary: Holder::Notifier,
            notifier: NotifierAt::HasPrimary,
            ..s
        },
        NotifierAt::HasPrimary => State { flag: true, notifier: NotifierAt::FlagSet, ..s },
        NotifierAt::FlagSet => State {
            waiter: if s.waiter == WaiterAt::Parked { WaiterAt::Woken } else { s.waiter },
            notifier: if s.variant == Variant::LostWakeup {
                NotifierAt::Done
            } else {
                NotifierAt::Signalled
            },
            ..s
        },
        NotifierAt::Signalled => State {
            primary: Holder::Free,
            secondary: if s.variant == Variant::Deadlocking { Holder::Free } else { s.secondary },
            notifier: NotifierAt::Done,
            ..s
        },
        NotifierAt::Done => s,
    }
}

/// Exec mirror of [`spec_step`]: hand one scheduling slot to `t`.
pub fn step(s: State, t: Thread) -> (r: State)
    ensures
        r == spec_step(s, t),
{
    let named_enabled = match t {
        Thread::Waiter => waiter_can_move(&s),
        Thread::Notifier => notifier_can_move(&s),
    };
    if named_enabled {
        match t {
            Thread::Waiter => waiter_move(s),
            Thread::Notifier => notifier_move(s),
        }
    } else {
        match t {
            Thread::Waiter => if notifier_can_move(&s) {
                notifier_move(s)
            } else {
                s
            },
            Thread::Notifier => if waiter_can_move(&s) {
                waiter_move(s)
            } else {
                s
            },
        }
    }
}

/// Appending one slot to a schedule runs it last.
proof fn lemma_run_from_snoc(s: State, sched: Seq<Thread>, t: Thread)
    ensures
        spec_run_from(s, sched.push(t)) == spec_step(spec_run_from(s, sched), t),
    decreases sched.len(),
{
    if sched.len() == 0 {
        assert(sched.push(t)[0] == t);
        assert(sched.push(t).subrange(1, 1) =~= Seq::<Thread>::empty());
        assert(spec_run_from(spec_step(s, t), Seq::<Thread>::empty()) == spec_step(s, t));
    } else {
        let rest = sched.subrange(1, sched.len() as int);
        assert(sched.push(t)[0] == sched[0]);
        assert(sched.push(t).subrange(1, sched.push(t).len() as int) =~= rest.push(t));
        assert(spec_run_from(s, sched.push(t)) == spec_run_from(
            spec_step(s, sched[0]),
            rest.push(t),
        ));
        lemma_run_from_snoc(spec_step(s, sched[0]), rest, t);
        assert(spec_run_from(s, sched) == spec_run_from(spec_step(s, sched[0]), rest));
    }
}

/// Run a whole schedule from the initial state of variant `v`.
pub fn run(v: Variant, schedule: &Vec<Thread>) -> (r: State)
    ensures
        r == spec_run(v, schedule@),
{
    let mut s = init(v);
    let mut i: usize = 0;
    while i < schedule.len()
        invariant
            i <= schedule.len(),
            s == spec_run_from(spec_init(v), schedule@.subrange(0, i as int)),
        decreases schedule.len() - i,
    {
        proof {
            lemma_run_from_snoc(spec_init(v), schedule@.subrange(0, i as int), schedule@[i as int]);
            assert(schedule@.subrange(0, i as int).push(schedule@[i as int]) =~= schedule@.subrange(
                0,
                i as int + 1,
            ));
        }
        s = step(s, schedule[i]);
        i = i + 1;
    }
    proof {
        assert(schedule@.subrange(0, schedule@.len() as int) =~= schedule@);
    }
    s
}

/// What a harness with this schedule as its time budget would report: the
/// run completed, or the budget passed first.
pub fn observe(s: &State) -> (r: Outcome)
    ensures
        r == (if is_complete(*s) {
            Outcome::Completed
        } else {
            Outcome::TimedOut
        }),
{
    if s.waiter == WaiterAt::Done {
        Outcome::Completed
    } else {
        Outcome::TimedOut
    }
}

} // verus!
