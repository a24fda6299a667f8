//! Exercises the harness state machine and the trial classifier.

use readygate::protocol::{
    classify, expected_report, flag_is_unset, harness_step, phase_outcome, HarnessEvent,
    HarnessPhase, Outcome, TrialsReport, Variant,
};

#[test]
fn harness_walks_spawn_notify_join() {
    let idle = HarnessPhase::NotStarted;
    let spawned = harness_step(idle, HarnessEvent::SpawnWaiter);
    assert_eq!(spawned, HarnessPhase::WaiterSpawned);
    let notified = harness_step(spawned, HarnessEvent::SendNotify);
    assert_eq!(notified, HarnessPhase::NotifySent);
    let done = harness_step(notified, HarnessEvent::JoinReturned);
    assert_eq!(done, HarnessPhase::Completed);
    let hung = harness_step(notified, HarnessEvent::JoinDeadlineExceeded);
    assert_eq!(hung, HarnessPhase::TimedOut);
}

#[test]
fn harness_ignores_events_out_of_order() {
    assert_eq!(
        harness_step(HarnessPhase::NotStarted, HarnessEvent::SendNotify),
        HarnessPhase::NotStarted
    );
    assert_eq!(
        harness_step(HarnessPhase::WaiterSpawned, HarnessEvent::JoinReturned),
        HarnessPhase::WaiterSpawned
    );
    assert_eq!(
        harness_step(HarnessPhase::Completed, HarnessEvent::SpawnWaiter),
        HarnessPhase::Completed
    );
    assert_eq!(
        harness_step(HarnessPhase::TimedOut, HarnessEvent::JoinReturned),
        HarnessPhase::TimedOut
    );
}

#[test]
fn phase_outcome_is_set_only_when_terminal() {
    assert_eq!(phase_outcome(HarnessPhase::NotStarted), None);
    assert_eq!(phase_outcome(HarnessPhase::WaiterSpawned), None);
    assert_eq!(phase_outcome(HarnessPhase::NotifySent), None);
    assert_eq!(phase_outcome(HarnessPhase::Completed), Some(Outcome::Completed));
    assert_eq!(phase_outcome(HarnessPhase::TimedOut), Some(Outcome::TimedOut));
}

#[test]
fn classify_all_completed() {
    let outcomes = vec![Outcome::Completed; 5];
    assert_eq!(classify(&outcomes), TrialsReport::AllCompleted);
}

#[test]
fn classify_all_timed_out() {
    let outcomes = vec![Outcome::TimedOut; 3];
    assert_eq!(classify(&outcomes), TrialsReport::AllTimedOut);
}

#[test]
fn classify_mixed() {
    let outcomes = vec![
        Outcome::TimedOut,
        Outcome::Completed,
        Outcome::TimedOut,
        Outcome::TimedOut,
    ];
    assert_eq!(classify(&outcomes), TrialsReport::Mixed);
}

#[test]
fn classify_single_trial() {
    assert_eq!(classify(&vec![Outcome::Completed]), TrialsReport::AllCompleted);
    assert_eq!(classify(&vec![Outcome::TimedOut]), TrialsReport::AllTimedOut);
}

#[test]
fn each_variant_owes_its_report() {
    assert_eq!(expected_report(Variant::Correct), TrialsReport::AllCompleted);
    assert_eq!(expected_report(Variant::Deadlocking), TrialsReport::AllTimedOut);
    assert_eq!(expected_report(Variant::LostWakeup), TrialsReport::Mixed);
}

#[test]
fn wait_predicate_is_the_flag_negated() {
    assert!(flag_is_unset(&false));
    assert!(!flag_is_unset(&true));
}
