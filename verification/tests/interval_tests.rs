use kywasmtime::error::OverflowError;
use kywasmtime::interval::{interval, interval_at, Interval, MissedTickBehavior, TickPoll};
use kywasmtime::time::Instant;
use std::time::Duration;

const T0: u64 = 10_000_000;

fn at(us: u64) -> Instant {
    Instant::from_raw_us(us)
}

#[test]
fn the_default_policy_is_burst() {
    assert_eq!(MissedTickBehavior::default(), MissedTickBehavior::Burst);
    let i = Interval::new(at(T0), Duration::from_secs(1));
    assert_eq!(i.missed_tick_behavior(), MissedTickBehavior::Burst);
    assert_eq!(i.period(), Duration::from_secs(1));
    assert_eq!(i.deadline(), at(T0));
}

#[test]
fn next_timeout_burst() {
    let p = Duration::from_secs(1);
    let b = MissedTickBehavior::Burst;
    assert_eq!(b.next_timeout(at(T0), at(T0 + 2_500_000), p), at(T0 + 1_000_000));
    assert_eq!(b.next_timeout(at(T0), at(T0), p), at(T0 + 1_000_000));
}

#[test]
fn next_timeout_delay() {
    let p = Duration::from_secs(1);
    let d = MissedTickBehavior::Delay;
    assert_eq!(d.next_timeout(at(T0), at(T0 + 2_500_000), p), at(T0 + 3_500_000));
    assert_eq!(d.next_timeout(at(T0), at(T0), p), at(T0 + 1_000_000));
}

#[test]
fn next_timeout_skip() {
    let p = Duration::from_secs(1);
    let s = MissedTickBehavior::Skip;
    assert_eq!(s.next_timeout(at(T0), at(T0 + 2_500_000), p), at(T0 + 3_000_000));
    assert_eq!(s.next_timeout(at(T0), at(T0), p), at(T0 + 1_000_000));
    assert_eq!(s.next_timeout(at(T0), at(T0 + 999_999), p), at(T0 + 1_000_000));
    assert_eq!(s.next_timeout(at(T0), at(T0 + 1_000_000), p), at(T0 + 2_000_000));
    assert_eq!(s.next_timeout(at(T0), at(T0 + 2_000_000), p), at(T0 + 3_000_000));
}

#[test]
fn checked_next_timeout_says_where_none_is_defined() {
    let p = Duration::from_secs(1);
    let end = at(u64::MAX - 10);
    assert_eq!(MissedTickBehavior::Burst.checked_next_timeout(end, at(0), p), None);
    assert_eq!(MissedTickBehavior::Burst.checked_next_timeout(at(0), end, p), Some(at(1_000_000)));
    assert_eq!(MissedTickBehavior::Delay.checked_next_timeout(at(0), end, p), None);
    assert_eq!(MissedTickBehavior::Delay.checked_next_timeout(end, at(0), p), Some(at(1_000_000)));
    let skip = MissedTickBehavior::Skip;
    assert_eq!(skip.checked_next_timeout(at(0), end, p), None);
    assert_eq!(skip.checked_next_timeout(at(5), at(4), p), None);
    assert_eq!(skip.checked_next_timeout(at(0), at(4), Duration::ZERO), None);
    assert_eq!(skip.checked_next_timeout(at(0), at(4), Duration::from_nanos(999)), None);
    assert_eq!(skip.checked_next_timeout(at(0), at(4), Duration::MAX), None);
    assert_eq!(skip.checked_next_timeout(at(0), at(4), Duration::from_micros(3)), Some(at(6)));
}

#[test]
fn burst_catches_up_tick_by_tick() {
    let mut i = interval_at(at(T0), Duration::from_secs(1));
    let now = at(T0 + 2_500_000);
    assert!(i.can_tick(now));
    assert_eq!(i.poll_tick(now), TickPoll::Ready(at(T0)));
    assert_eq!(i.poll_tick(now), TickPoll::Ready(at(T0 + 1_000_000)));
    assert_eq!(i.poll_tick(now), TickPoll::Ready(at(T0 + 2_000_000)));
    assert_eq!(i.poll_tick(now), TickPoll::Register { delay_ms: 500 });
    assert_eq!(i.deadline(), at(T0 + 3_000_000));
    i.registered(1);
    assert_eq!(i.poll_tick(now), TickPoll::Pending);
    i.fired();
    assert_eq!(i.poll_tick(at(T0 + 3_000_000)), TickPoll::Ready(at(T0 + 3_000_000)));
}

#[test]
fn delay_restarts_from_the_late_tick() {
    let mut i = interval_at(at(T0), Duration::from_secs(1));
    i.set_missed_tick_behavior(MissedTickBehavior::Delay);
    let now = at(T0 + 2_500_000);
    assert_eq!(i.poll_tick(now), TickPoll::Ready(at(T0)));
    assert_eq!(i.deadline(), at(T0 + 3_500_000));
    assert_eq!(i.poll_tick(now), TickPoll::Register { delay_ms: 1000 });
    assert_eq!(i.poll_tick(at(T0 + 3_500_000)), TickPoll::Ready(at(T0 + 3_500_000)));
    assert_eq!(i.deadline(), at(T0 + 4_500_000));
}

#[test]
fn skip_goes_on_at_the_next_grid_point() {
    let mut i = interval_at(at(T0), Duration::from_secs(1));
    i.set_missed_tick_behavior(MissedTickBehavior::Skip);
    let now = at(T0 + 2_500_000);
    assert_eq!(i.poll_tick(now), TickPoll::Ready(at(T0)));
    assert_eq!(i.deadline(), at(T0 + 3_000_000));
    assert_eq!(i.poll_tick(now), TickPoll::Register { delay_ms: 500 });
    assert_eq!(i.poll_tick(at(T0 + 3_000_000)), TickPoll::Ready(at(T0 + 3_000_000)));
    assert_eq!(i.deadline(), at(T0 + 4_000_000));
}

#[test]
fn the_first_tick_of_an_interval_is_due_at_once() {
    let mut i = interval(at(T0), Duration::from_millis(20));
    assert_eq!(i.poll_tick(at(T0)), TickPoll::Ready(at(T0)));
    assert_eq!(i.poll_tick(at(T0)), TickPoll::Register { delay_ms: 20 });
}

#[test]
fn a_tick_leaves_no_callback_behind() {
    let mut i = interval_at(at(T0 + 1_000), Duration::from_secs(1));
    assert_eq!(i.poll_tick(at(T0)), TickPoll::Register { delay_ms: 1 });
    i.registered(5);
    i.fired();
    assert_eq!(i.poll_tick(at(T0 + 1_000)), TickPoll::Ready(at(T0 + 1_000)));
    assert_eq!(i.cancel(), None);
}

#[test]
fn interval_reset_counts_from_now() {
    let mut i = interval_at(at(T0), Duration::from_secs(1));
    assert_eq!(i.reset(at(T0 + 300_000)), None);
    assert_eq!(i.deadline(), at(T0 + 1_300_000));
    assert_eq!(i.poll_tick(at(T0 + 300_000)), TickPoll::Register { delay_ms: 1000 });
    i.registered(11);
    assert_eq!(i.reset(at(T0 + 400_000)), Some(11));
    assert_eq!(i.deadline(), at(T0 + 1_400_000));
}

#[test]
fn interval_cancel_hands_back_a_pending_handle_once() {
    let mut i = interval_at(at(T0 + 5_000), Duration::from_secs(1));
    i.registered(4);
    assert_eq!(i.cancel(), Some(4));
    assert_eq!(i.cancel(), None);
}

#[test]
fn a_new_policy_holds_from_the_next_tick() {
    let mut i = interval_at(at(T0), Duration::from_secs(1));
    i.set_missed_tick_behavior(MissedTickBehavior::Skip);
    assert_eq!(i.missed_tick_behavior(), MissedTickBehavior::Skip);
    assert_eq!(i.deadline(), at(T0));
    assert_eq!(i.poll_tick(at(T0 + 1_200_000)), TickPoll::Ready(at(T0)));
    i.set_missed_tick_behavior(MissedTickBehavior::Burst);
    assert_eq!(i.deadline(), at(T0 + 2_000_000));
    assert_eq!(i.poll_tick(at(T0 + 3_100_000)), TickPoll::Ready(at(T0 + 2_000_000)));
    assert_eq!(i.deadline(), at(T0 + 3_000_000));
}

#[test]
fn can_tick_refuses_what_poll_tick_cannot_answer() {
    let mut skip = interval_at(at(T0), Duration::ZERO);
    skip.set_missed_tick_behavior(MissedTickBehavior::Skip);
    assert!(!skip.can_tick(at(T0)));
    assert!(skip.can_tick(at(T0 - 1)));
    let burst = interval_at(at(u64::MAX), Duration::from_micros(1));
    assert!(!burst.can_tick(at(u64::MAX)));
    assert!(!burst.can_tick(at(0)));
}

#[test]
fn try_poll_tick_leaves_the_interval_alone_where_it_cannot_answer() {
    let mut i = interval_at(at(u64::MAX), Duration::from_micros(1));
    assert_eq!(i.try_poll_tick(at(u64::MAX)), None);
    assert_eq!(i.deadline(), at(u64::MAX));
    let mut j = interval_at(at(T0), Duration::from_secs(1));
    assert_eq!(j.try_poll_tick(at(T0)), Some(TickPoll::Ready(at(T0))));
    assert_eq!(j.try_poll_tick(at(T0 + 1)), Some(TickPoll::Register { delay_ms: 999 }));
}

#[test]
fn checked_reset_refuses_a_deadline_out_of_range() {
    let mut i = interval_at(at(T0 + 5_000), Duration::from_secs(1));
    i.registered(4);
    assert_eq!(i.checked_reset(at(u64::MAX)), Err(OverflowError));
    assert_eq!(i.deadline(), at(T0 + 5_000));
    assert_eq!(i.checked_reset(at(T0)), Ok(Some(4)));
    assert_eq!(i.deadline(), at(T0 + 1_000_000));
    assert_eq!(i.checked_reset(at(T0)), Ok(None));
}

#[test]
fn a_burst_has_no_cap() {
    let mut i = interval_at(at(T0), Duration::from_millis(1));
    let now = at(T0 + 1_000_000);
    for k in 0..=1000u64 {
        assert_eq!(i.poll_tick(now), TickPoll::Ready(at(T0 + k * 1_000)));
    }
    assert_eq!(i.poll_tick(now), TickPoll::Register { delay_ms: 1 });
}
