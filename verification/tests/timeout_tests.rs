use kywasmtime::error::{Elapsed, OverflowError};
use kywasmtime::time::Instant;
use kywasmtime::timeout::{checked_timeout, timeout, timeout_at, TimeoutPoll, TimeoutState};
use std::time::Duration;

fn at(us: u64) -> Instant {
    Instant::from_raw_us(us)
}

#[test]
fn timeout_sets_the_deadline_after_the_duration() {
    let t = timeout(at(1_000_000), Duration::from_millis(500));
    assert_eq!(t.deadline(), at(1_500_000));
    assert_eq!(t.state(), TimeoutState::Running);
    assert_eq!(timeout_at(at(77)).deadline(), at(77));
}

#[test]
fn a_value_before_the_deadline_is_ok() {
    let mut t = timeout_at(at(5_000));
    assert_eq!(t.poll(Some(42), at(1_000)), TimeoutPoll::Resolved(Ok(42)));
    assert_eq!(t.state(), TimeoutState::Completed);
}

#[test]
fn a_value_in_the_turn_of_the_deadline_is_ok() {
    let mut t = timeout_at(at(5_000));
    assert_eq!(t.poll(Some("done"), at(5_000)), TimeoutPoll::Resolved(Ok("done")));
    let mut late = timeout_at(at(5_000));
    late.registered(2);
    late.fired();
    assert_eq!(late.poll(Some(1u8), at(9_000)), TimeoutPoll::Resolved(Ok(1u8)));
    assert_eq!(late.state(), TimeoutState::Completed);
}

#[test]
fn a_pending_operation_at_the_deadline_is_elapsed() {
    let mut t = timeout_at(at(5_000));
    assert_eq!(t.poll(None::<u32>, at(5_000)), TimeoutPoll::Resolved(Err(Elapsed)));
    assert_eq!(t.state(), TimeoutState::Elapsed);
    assert!(!t.can_poll(false, at(6_000)));
    assert!(!t.can_poll(true, at(6_000)));
}

#[test]
fn a_pending_operation_before_the_deadline_waits() {
    let mut t = timeout_at(at(5_000));
    assert!(t.can_poll(false, at(1_000)));
    assert_eq!(t.poll(None::<u32>, at(1_000)), TimeoutPoll::Register { delay_ms: 4 });
    t.registered(6);
    assert_eq!(t.poll(None::<u32>, at(2_000)), TimeoutPoll::Pending);
    assert_eq!(t.state(), TimeoutState::Running);
    t.fired();
    assert_eq!(t.poll(None::<u32>, at(5_000)), TimeoutPoll::Resolved(Err(Elapsed)));
}

#[test]
fn timeout_cancel_hands_back_a_pending_handle_once() {
    let mut t = timeout_at(at(5_000));
    assert_eq!(t.cancel(), None);
    t.registered(6);
    assert_eq!(t.cancel(), Some(6));
    assert_eq!(t.cancel(), None);
    let mut fired = timeout_at(at(5_000));
    fired.registered(7);
    fired.fired();
    assert_eq!(fired.cancel(), None);
}

#[test]
fn a_far_deadline_can_be_polled_only_with_a_value() {
    let t = timeout_at(at(u64::MAX));
    assert!(t.can_poll(true, at(0)));
    assert!(!t.can_poll(false, at(0)));
}

#[test]
fn checked_timeout_refuses_a_deadline_out_of_range() {
    let near_end = at(u64::MAX - 10);
    assert_eq!(checked_timeout(near_end, Duration::from_micros(11)).err(), Some(OverflowError));
    let t = checked_timeout(near_end, Duration::from_micros(10)).ok().map(|t| t.deadline());
    assert_eq!(t, Some(at(u64::MAX)));
}

#[test]
fn elapsed_is_a_plain_marker() {
    let e = Elapsed;
    let copy = e;
    assert_eq!(e, copy);
    assert_eq!(format!("{:?}", e), "Elapsed");
}
