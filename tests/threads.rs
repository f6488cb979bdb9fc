use std::cell::Cell;

use raii_thread::{JoinSlot, Readiness};

/// A stand-in for a thread's join primitive: the work's outcome, and whether
/// the work has returned yet.
struct Simulated<'a, T> {
    done: &'a Cell<bool>,
    outcome: Result<T, String>,
}

fn finished<T>(h: &Simulated<'_, T>) -> bool {
    h.done.get()
}

fn wait<T>(h: Simulated<'_, T>) -> Result<T, String> {
    h.done.set(true);
    h.outcome
}

#[test]
fn slow_work_is_running_then_joins_with_its_value() {
    let done = Cell::new(false);
    let mut s = JoinSlot::new(Simulated { done: &done, outcome: Ok(42i32) });
    assert!(!s.is_finished(finished));
    done.set(true);
    assert!(s.is_finished(finished));
    assert_eq!(s.join(wait), Ok(42));
    assert!(s.is_finished(finished));
}

#[test]
fn join_gives_back_exactly_the_value() {
    for v in [0u64, 1, u64::MAX] {
        let done = Cell::new(false);
        let mut s = JoinSlot::new(Simulated { done: &done, outcome: Ok(v) });
        assert_eq!(s.join(wait), Ok(v));
        assert!(done.get());
    }
}

#[test]
fn failed_work_fails_its_join_with_the_payload() {
    let done = Cell::new(false);
    let mut s = JoinSlot::new(Simulated::<u8> { done: &done, outcome: Err("boom".to_string()) });
    let r = s.join(wait);
    assert!(r.unwrap_err().contains("boom"));
}

#[test]
fn failed_work_is_reported_by_the_release() {
    let done = Cell::new(false);
    let mut s = JoinSlot::new(Simulated::<u8> { done: &done, outcome: Err("boom".to_string()) });
    let r = s.release(wait);
    assert_eq!(r, Some("boom".to_string()));
    assert!(done.get());
}

#[test]
fn release_waits_for_unjoined_work() {
    let done = Cell::new(false);
    let mut s = JoinSlot::new(Simulated { done: &done, outcome: Ok(()) });
    assert_eq!(s.release(wait), None);
    assert!(done.get());
}

#[test]
fn poll_is_pending_until_the_work_is_done() {
    let done = Cell::new(false);
    let mut s = JoinSlot::new(Simulated { done: &done, outcome: Ok(5u8) });
    assert!(matches!(s.poll(finished, wait), Readiness::Pending));
    assert!(matches!(s.poll(finished, wait), Readiness::Pending));
    done.set(true);
    match s.poll(finished, wait) {
        Readiness::Ready(r) => assert_eq!(r, Ok(5)),
        Readiness::Pending => panic!("finished work was not joined"),
    }
    assert!(!s.is_held());
}

#[test]
fn leaked_primitive_outlives_the_slot() {
    let done = Cell::new(false);
    let mut s = JoinSlot::new(Simulated { done: &done, outcome: Ok(7u8) });
    let h = s.leak();
    assert_eq!(s.release(wait), None);
    assert!(!done.get());
    drop(s);
    assert!(!finished(&h));
    assert_eq!(wait(h), Ok(7));
}
