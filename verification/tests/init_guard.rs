use gmod_hook::guard::InitGuard;
use gmod_hook::rtx_handler::RTXHandler;
use std::sync::{Arc, Mutex};

fn enter_and_release(count: u32) {
    let mut guard = InitGuard::new();
    assert!(!guard.has_fired());
    let mut runs = 0;
    for _ in 0..count {
        if guard.enter() {
            runs += 1;
        }
    }
    assert_eq!(runs, 1);
    assert!(guard.has_fired());
    assert_eq!(guard.holders(), count);
    for release in 1..=count {
        assert_eq!(guard.release(), release == count, "release {} of {}", release, count);
    }
    assert_eq!(guard.holders(), 0);
}

#[test]
fn one_entry_runs_once_and_tears_down_on_its_release() {
    enter_and_release(1);
}

#[test]
fn two_entries_run_once_and_tear_down_on_the_second_release() {
    enter_and_release(2);
}

#[test]
fn ten_entries_run_once_and_tear_down_on_the_tenth_release() {
    enter_and_release(10);
}

/// Callers that share the guard behind a lock and come in and go out in
/// the order that `schedule` gives: `true` for an entry, `false` for a
/// release.
fn enter_in_turns(schedule: &[bool]) -> (u32, u32) {
    let guard = Arc::new(Mutex::new(InitGuard::new()));
    let callers: Vec<Arc<Mutex<InitGuard>>> = schedule.iter().map(|_| Arc::clone(&guard)).collect();
    let mut runs = 0;
    let mut teardowns = 0;
    for (caller, enters) in callers.iter().zip(schedule) {
        let mut guard = caller.lock().unwrap();
        if *enters {
            if guard.enter() {
                runs += 1;
            }
        } else if guard.release() {
            assert_eq!(guard.holders(), 0);
            teardowns += 1;
        }
    }
    (runs, teardowns)
}

#[test]
fn entries_of_many_callers_run_the_action_once() {
    assert_eq!(enter_in_turns(&[true, false]), (1, 1));
    assert_eq!(enter_in_turns(&[true, true, false, false]), (1, 1));
    assert_eq!(enter_in_turns(&[true, true, false]), (1, 0));
    let mut schedule = vec![true; 10];
    schedule.extend(vec![false; 9]);
    assert_eq!(enter_in_turns(&schedule), (1, 0));
    schedule.push(false);
    assert_eq!(enter_in_turns(&schedule), (1, 1));
    let nested = [true, true, false, true, true, false, false, true, false, false];
    assert_eq!(enter_in_turns(&nested), (1, 1));
}

#[test]
fn release_without_a_holder_changes_nothing() {
    let mut guard = InitGuard::new();
    assert!(!guard.release());
    assert_eq!(guard.holders(), 0);
    assert!(!guard.has_fired());
    assert!(guard.enter());
    assert!(guard.release());
    assert!(!guard.release());
    assert_eq!(guard.holders(), 0);
}

#[test]
fn latch_stays_open_after_the_teardown() {
    let mut guard = InitGuard::new();
    assert!(guard.enter());
    assert!(guard.release());
    assert!(!guard.enter());
    assert!(guard.has_fired());
    assert_eq!(guard.holders(), 1);
    assert!(guard.release());
}

#[test]
fn handler_sets_up_on_the_first_firing_only() {
    let mut handler = RTXHandler::new();
    assert!(handler.startup());
    assert!(!handler.startup());
    assert!(!handler.startup());
    assert!(!handler.shutdown());
    assert!(!handler.shutdown());
    assert!(handler.shutdown());
    assert!(!handler.shutdown());
}
