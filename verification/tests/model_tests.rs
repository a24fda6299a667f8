//! Exercises the interleaving model on concrete schedules.

use readygate::model::{init, observe, run, step, Holder, NotifierAt, State, Thread, WaiterAt};
use readygate::protocol::{Outcome, Variant};

fn completed(v: Variant, schedule: Vec<Thread>) -> bool {
    let s = run(v, &schedule);
    observe(&s) == Outcome::Completed
}

#[test]
fn correct_completes_when_waiter_runs_first() {
    let mut schedule = vec![Thread::Waiter; 9];
    assert!(completed(Variant::Correct, schedule.clone()));
    // And with plenty of extra slots nothing changes.
    schedule.extend([Thread::Notifier; 20]);
    assert!(completed(Variant::Correct, schedule));
}

#[test]
fn correct_completes_when_notifier_runs_first() {
    assert!(completed(Variant::Correct, vec![Thread::Notifier; 9]));
}

#[test]
fn correct_completes_under_alternating_schedules() {
    let mut alternating = Vec::new();
    for k in 0..12 {
        alternating.push(if k % 2 == 0 { Thread::Waiter } else { Thread::Notifier });
    }
    assert!(completed(Variant::Correct, alternating));
}

#[test]
fn correct_notify_first_means_waiter_never_parks() {
    // The notifier runs its whole notify; the waiter then sees the flag on
    // its first check and returns in two steps of its own.
    let s = run(
        Variant::Correct,
        &vec![
            Thread::Notifier,
            Thread::Notifier,
            Thread::Notifier,
            Thread::Notifier,
            Thread::Waiter,
            Thread::Waiter,
        ],
    );
    assert_eq!(s.waiter, WaiterAt::Done);
    assert_eq!(s.notifier, NotifierAt::Done);
    assert!(s.flag);
}

#[test]
fn deadlocking_times_out_whenever_waiter_takes_secondary_first() {
    // Any schedule whose first slot goes to the waiter traps the scenario.
    let mut schedule = vec![Thread::Waiter];
    for k in 0..40 {
        schedule.push(if k % 3 == 0 { Thread::Notifier } else { Thread::Waiter });
    }
    let s = run(Variant::Deadlocking, &schedule);
    assert_eq!(observe(&s), Outcome::TimedOut);
    // The waiter sits parked, still holding the secondary lock; the
    // notifier never got past its first acquisition.
    assert_eq!(s.waiter, WaiterAt::Parked);
    assert_eq!(s.secondary, Holder::Waiter);
    assert_eq!(s.notifier, NotifierAt::Start);
    assert!(!s.flag);
}

#[test]
fn deadlocking_completes_when_notifier_wins_the_race() {
    // The one family of schedules outside the deadlock guarantee: the
    // notifier finishes its whole notify before the waiter starts.
    assert!(completed(Variant::Deadlocking, vec![Thread::Notifier; 12]));
}

#[test]
fn lost_wakeup_is_nondeterministic_across_schedules() {
    // Favourable: flag written and signal lost harmlessly before the
    // waiter ever looks.
    let lucky = vec![Thread::Notifier, Thread::Notifier, Thread::Waiter, Thread::Waiter];
    assert!(completed(Variant::LostWakeup, lucky));

    // Unfavourable: the signal lands between the waiter's check and its
    // park, so it is lost and the waiter parks forever.
    let unlucky = vec![
        Thread::Waiter,
        Thread::Waiter,
        Thread::Notifier,
        Thread::Notifier,
        Thread::Waiter,
    ];
    let s = run(Variant::LostWakeup, &unlucky);
    assert_eq!(observe(&s), Outcome::TimedOut);
    assert_eq!(s.waiter, WaiterAt::Parked);
    assert_eq!(s.notifier, NotifierAt::Done);
    // The flag did get written: the handoff is lost even though readiness
    // was, in fact, reached.
    assert!(s.flag);

    // And no amount of further scheduling rescues it.
    let mut extended = unlucky.clone();
    extended.extend([Thread::Waiter; 30]);
    extended.extend([Thread::Notifier; 30]);
    let hung = run(Variant::LostWakeup, &extended);
    assert_eq!(observe(&hung), Outcome::TimedOut);
    assert_eq!(hung, s);
}

#[test]
fn lost_wakeup_signal_delivered_while_parked_completes() {
    // The waiter parks first; the notifier's signal then finds it parked
    // and wakes it, and the re-check sees the flag set.
    let schedule = vec![
        Thread::Waiter,
        Thread::Waiter,
        Thread::Waiter,
        Thread::Notifier,
        Thread::Notifier,
        Thread::Waiter,
        Thread::Waiter,
        Thread::Waiter,
    ];
    assert!(completed(Variant::LostWakeup, schedule));
}

#[test]
fn waiter_done_always_has_flag_set() {
    // No spurious early return, spot-checked across a spread of schedules
    // and variants: a completed waiter always left a set flag behind.
    let variants = [Variant::Correct, Variant::Deadlocking, Variant::LostWakeup];
    for &v in &variants {
        for seed in 0u32..64 {
            let mut schedule = Vec::new();
            for k in 0..14 {
                let bit = (seed >> (k % 6)) & 1 == 0;
                schedule.push(if bit { Thread::Waiter } else { Thread::Notifier });
            }
            let s = run(v, &schedule);
            if s.waiter == WaiterAt::Done {
                assert!(s.flag);
            }
        }
    }
}

#[test]
fn slot_for_a_blocked_thread_falls_to_the_other() {
    // After the correct waiter parks, a slot named for it moves the
    // notifier instead.
    let s = run(Variant::Correct, &vec![Thread::Waiter, Thread::Waiter, Thread::Waiter]);
    assert_eq!(s.waiter, WaiterAt::Parked);
    assert_eq!(s.notifier, NotifierAt::Start);
    let after = step(s, Thread::Waiter);
    assert_eq!(after.waiter, WaiterAt::Parked);
    assert_eq!(after.notifier, NotifierAt::HasPrimary);
}

#[test]
fn initial_state_is_idle_and_unset() {
    let s = init(Variant::Correct);
    assert_eq!(
        s,
        State {
            variant: Variant::Correct,
            flag: false,
            primary: Holder::Free,
            secondary: Holder::Free,
            waiter: WaiterAt::Start,
            notifier: NotifierAt::Start,
        }
    );
}
