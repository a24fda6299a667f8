//! Exercises the two executable gate backends: single-threaded fast paths
//! and real two-thread handoffs of the Correct policy, with a bounded
//! join.
//!
//! Scenarios that genuinely block forever — the Deadlocking policy under
//! concurrency, a parked Lost-Wakeup waiter — cannot run here: scoped
//! threads must be joined, and a deadlocked thread never can be. The
//! interleaving model's tests cover those runs; the embedding application
//! runs them for real with abandoned threads.

use std::sync::mpsc;
use std::time::Duration;
use std::time::Instant;

use crossbeam_utils::thread as scoped;
use readygate::gate_parking::ParkingLotReadyGate;
use readygate::gate_std::StdReadyGate;
use readygate::protocol::{harness_step, HarnessEvent, HarnessPhase, Variant};

/// Busy-wait: give another thread time to reach its condition wait.
fn pause(ms: u64) {
    let start = Instant::now();
    while start.elapsed() < Duration::from_millis(ms) {}
}

#[test]
fn std_correct_notify_first_returns_at_once() {
    let gate = StdReadyGate::new(Variant::Correct);
    gate.notify();
    assert!(gate.wait());
}

#[test]
fn std_correct_second_notify_is_harmless() {
    let gate = StdReadyGate::new(Variant::Correct);
    gate.notify();
    gate.notify();
    assert!(gate.wait());
    gate.notify();
}

#[test]
fn std_deadlocking_sequential_use_completes() {
    // With no concurrency the lock ordering cannot bite: notify releases
    // both locks before wait takes them.
    let gate = StdReadyGate::new(Variant::Deadlocking);
    gate.notify();
    assert!(gate.wait());
}

#[test]
fn parking_correct_notify_first_returns_at_once() {
    let gate = ParkingLotReadyGate::new(Variant::Correct);
    gate.notify();
    assert!(gate.wait());
}

#[test]
fn parking_correct_second_notify_is_harmless() {
    let gate = ParkingLotReadyGate::new(Variant::Correct);
    gate.notify();
    gate.notify();
    assert!(gate.wait());
    gate.notify();
}

#[test]
fn parking_deadlocking_sequential_use_completes() {
    let gate = ParkingLotReadyGate::new(Variant::Deadlocking);
    gate.notify();
    assert!(gate.wait());
}

#[test]
fn parking_lost_wakeup_signal_alone_disturbs_nothing() {
    // A lost-wakeup notify with nobody waiting: the signal is discarded.
    let gate = ParkingLotReadyGate::new(Variant::LostWakeup);
    gate.notify();
    gate.notify();
}

#[test]
fn std_correct_two_threads_complete_with_waiter_parked() {
    // The waiter parks first; the signal must wake it.
    let gate = StdReadyGate::new(Variant::Correct);
    scoped::scope(|scope| {
        let waiter = scope.spawn(|_| gate.wait());
        pause(100);
        gate.notify();
        assert!(waiter.join().unwrap());
    })
    .unwrap();
}

#[test]
fn std_correct_two_threads_complete_racing() {
    // No pause: spawn and notify race, and the handoff must still land.
    for _ in 0..100 {
        let gate = StdReadyGate::new(Variant::Correct);
        scoped::scope(|scope| {
            let waiter = scope.spawn(|_| gate.wait());
            gate.notify();
            assert!(waiter.join().unwrap());
        })
        .unwrap();
    }
}

#[test]
fn std_correct_scenario_reports_completed() {
    // The full harness walk: spawn, notify, join under a bound.
    let gate = StdReadyGate::new(Variant::Correct);
    let mut phase = HarnessPhase::NotStarted;
    let gate_ref = &gate;
    scoped::scope(|scope| {
        let (done_tx, done_rx) = mpsc::channel();
        scope.spawn(move |_| {
            let observed = gate_ref.wait();
            done_tx.send(observed).unwrap();
        });
        phase = harness_step(phase, HarnessEvent::SpawnWaiter);
        pause(50);
        gate.notify();
        phase = harness_step(phase, HarnessEvent::SendNotify);
        phase = match done_rx.recv_timeout(Duration::from_secs(2)) {
            Ok(observed) => {
                assert!(observed);
                harness_step(phase, HarnessEvent::JoinReturned)
            }
            Err(_) => harness_step(phase, HarnessEvent::JoinDeadlineExceeded),
        };
    })
    .unwrap();
    assert_eq!(phase, HarnessPhase::Completed);
}

#[test]
fn parking_correct_two_threads_complete_with_waiter_parked() {
    let gate = ParkingLotReadyGate::new(Variant::Correct);
    scoped::scope(|scope| {
        let waiter = scope.spawn(|_| gate.wait());
        pause(100);
        gate.notify();
        assert!(waiter.join().unwrap());
    })
    .unwrap();
}

#[test]
fn parking_correct_two_threads_complete_racing() {
    for _ in 0..100 {
        let gate = ParkingLotReadyGate::new(Variant::Correct);
        scoped::scope(|scope| {
            let waiter = scope.spawn(|_| gate.wait());
            gate.notify();
            assert!(waiter.join().unwrap());
        })
        .unwrap();
    }
}
