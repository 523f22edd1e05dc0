//! A periodic tick on top of one reused sleep, and the three ways to go on
//! after ticks were missed.

use crate::duration::duration_micros;
use crate::error::OverflowError;
use crate::sleep::{Sleep, SleepModel, SleepPoll, SleepState};
use crate::time::{micros_u64, Instant};
use core::time::Duration;
use vstd::arithmetic::div_mod::lemma_fundamental_div_mod;
use vstd::prelude::*;

verus! {

/// How an interval goes on where the consumer fell behind its ticks.
#[derive(Debug, Copy, Clone, PartialEq, Eq, Structural)]
pub enum MissedTickBehavior {
    /// Keep the schedule: the missed ticks come at once, one after another.
    Burst,
    /// Count the period anew from the time of the late tick.
    Delay,
    /// Drop the missed ticks and go on at the next point of the schedule.
    Skip,
}

impl Default for MissedTickBehavior {
    fn default() -> (b: MissedTickBehavior)
        ensures
            b == MissedTickBehavior::Burst,
    {
        MissedTickBehavior::Burst
    }
}

impl MissedTickBehavior {
    /// Whether the deadline after `timeout` exists: it is representable,
    /// and for `Skip` the period is at least a microsecond and `now` is not
    /// before `timeout`.
    pub open spec fn next_defined(self, timeout: Instant, now: Instant, period: Duration) -> bool {
        match self {
            MissedTickBehavior::Burst => timeout.can_add(period),
            MissedTickBehavior::Delay => now.can_add(period),
            MissedTickBehavior::Skip => duration_micros(period) > 0 && timeout@ <= now@
                && now.can_add(period),
        }
    }

    /// The deadline that follows the tick scheduled for `timeout`, that tick
    /// being seen at `now`.
    pub open spec fn next(self, timeout: Instant, now: Instant, period: Duration) -> Instant {
        match self {
            MissedTickBehavior::Burst => timeout.plus(period),
            MissedTickBehavior::Delay => now.plus(period),
            MissedTickBehavior::Skip => {
                let p = duration_micros(period) as int;
                Instant((now@ + p - (now@ - timeout@) % p) as u64)
            },
        }
    }

    /// The deadline that follows the tick scheduled for `timeout`.
    pub fn next_timeout(&self, timeout: Instant, now: Instant, period: Duration) -> (next: Instant)
        requires
            self.next_defined(timeout, now, period),
        ensures
            next == self.next(timeout, now, period),
    {
        match self {
            MissedTickBehavior::Burst => timeout.checked_add(period).unwrap(),
            MissedTickBehavior::Delay => now.checked_add(period).unwrap(),
            MissedTickBehavior::Skip => {
                let now_us: u64 = now.raw_us();
                let period_us: u64 = micros_u64(period).unwrap();
                let timeout_us: u64 = timeout.raw_us();
                let next: u64 = now_us + period_us - ((now_us - timeout_us) % period_us);
                Instant::from_raw_us(next)
            },
        }
    }

    /// As `next_timeout`, for any arguments: `None` where no next deadline
    /// is defined.
    pub fn checked_next_timeout(&self, timeout: Instant, now: Instant, period: Duration) -> (r:
        Option<Instant>)
        ensures
            r.is_some() <==> self.next_defined(timeout, now, period),
            r.is_some() ==> r.unwrap() == self.next(timeout, now, period),
    {
        let defined = match self {
            MissedTickBehavior::Burst => timeout.checked_add(period).is_some(),
            MissedTickBehavior::Delay => now.checked_add(period).is_some(),
            MissedTickBehavior::Skip => match micros_u64(period) {
                Some(p) => p > 0 && timeout.raw_us() <= now.raw_us() && now.checked_add(
                    period,
                ).is_some(),
                None => false,
            },
        };
        if defined {
            Some(self.next_timeout(timeout, now, period))
        } else {
            None
        }
    }
}

/// With `Skip` the next deadline is the first point of the schedule
/// `timeout`, `timeout + period`, `timeout + 2 * period`, ... that lies
/// after `now`.
pub proof fn lemma_skip_next_grid_point(timeout: Instant, now: Instant, period: Duration)
    requires
        MissedTickBehavior::Skip.next_defined(timeout, now, period),
    ensures
        ({
            let p = duration_micros(period) as int;
            let next = MissedTickBehavior::Skip.next(timeout, now, period);
            &&& next@ == timeout@ + ((now@ - timeout@) / p + 1) * p
            &&& now@ < next@ <= now@ + p
        }),
{
    let p = duration_micros(period) as int;
    let x = now@ - timeout@;
    lemma_fundamental_div_mod(x, p);
    assert((x / p + 1) * p == p * (x / p) + p) by (nonlinear_arith);
    assert(0 <= x % p < p) by (nonlinear_arith)
        requires
            p > 0,
    ;
}

/// With `Burst` the next deadline is one period after the last, whatever
/// the time; with `Delay` it is one period after the present.
pub proof fn lemma_burst_and_delay(timeout: Instant, now: Instant, period: Duration)
    ensures
        MissedTickBehavior::Burst.next_defined(timeout, now, period)
            ==> MissedTickBehavior::Burst.next(timeout, now, period)@ == timeout@ + duration_micros(
            period,
        ),
        MissedTickBehavior::Delay.next_defined(timeout, now, period)
            ==> MissedTickBehavior::Delay.next(timeout, now, period)@ == now@ + duration_micros(
            period,
        ),
{
}

/// What a poll of an interval answers.
#[derive(Debug, Copy, Clone, PartialEq, Eq, Structural)]
pub enum TickPoll {
    /// A tick is due: the time that it was scheduled for.
    Ready(Instant),
    /// A callback is registered and has not run: wait for it.
    Pending,
    /// Register a callback with the host, to run after `delay_ms`
    /// milliseconds, report its handle with `Interval::registered`, and wait.
    Register { delay_ms: i32 },
}

/// An interval as the contracts see it. The deadline of `sleep` is the time
/// that the next tick is scheduled for.
pub struct IntervalModel {
    pub sleep: SleepModel,
    pub period: Duration,
    pub behavior: MissedTickBehavior,
}

impl IntervalModel {
    /// An interval that no poll has seen yet, its first tick due at `start`.
    pub open spec fn fresh(start: Instant, period: Duration) -> IntervalModel {
        IntervalModel {
            sleep: SleepModel::fresh(start),
            period,
            behavior: MissedTickBehavior::Burst,
        }
    }

    /// Whether a poll at `now` can be answered: the sleep can be polled,
    /// and where a tick is due the deadline after it is defined.
    pub open spec fn can_tick(self, now: Instant) -> bool {
        &&& self.sleep.can_poll(now)
        &&& self.sleep.poll(now) == SleepPoll::Ready ==> self.behavior.next_defined(
            self.sleep.deadline,
            now,
            self.period,
        )
    }

    /// The answer to a poll at `now`.
    pub open spec fn poll_tick(self, now: Instant) -> TickPoll {
        match self.sleep.poll(now) {
            SleepPoll::Ready => TickPoll::Ready(self.sleep.deadline),
            SleepPoll::Pending => TickPoll::Pending,
            SleepPoll::Register { delay_ms } => TickPoll::Register { delay_ms },
        }
    }

    /// The interval after a poll at `now`: where a tick was due, the sleep
    /// starts anew with the next deadline.
    pub open spec fn polled(self, now: Instant) -> IntervalModel {
        if self.sleep.poll(now) == SleepPoll::Ready {
            IntervalModel {
                sleep: SleepModel::fresh(self.behavior.next(self.sleep.deadline, now, self.period)),
                ..self
            }
        } else {
            self
        }
    }
}

/// A periodic tick.
#[derive(Debug)]
pub struct Interval {
    sleep: Sleep,
    period: Duration,
    missed_tick_behavior: MissedTickBehavior,
}

impl View for Interval {
    type V = IntervalModel;

    closed spec fn view(&self) -> IntervalModel {
        IntervalModel {
            sleep: self.sleep@,
            period: self.period,
            behavior: self.missed_tick_behavior,
        }
    }
}

impl Interval {
    pub fn new(start: Instant, period: Duration) -> (i: Interval)
        ensures
            i@ == IntervalModel::fresh(start, period),
    {
        Interval {
            sleep: Sleep::new(start),
            period,
            missed_tick_behavior: MissedTickBehavior::default(),
        }
    }

    pub fn period(&self) -> (p: Duration)
        ensures
            p == self@.period,
    {
        self.period
    }

    /// The time that the next tick is scheduled for.
    pub fn deadline(&self) -> (d: Instant)
        ensures
            d == self@.sleep.deadline,
    {
        self.sleep.deadline()
    }

    /// Whether `poll_tick` may be called at `now`.
    pub fn can_tick(&self, now: Instant) -> (ok: bool)
        ensures
            ok == self@.can_tick(now),
    {
        if !self.sleep.can_poll(now) {
            return false;
        }
        match self.sleep.poll(now) {
            SleepPoll::Ready => self.missed_tick_behavior.checked_next_timeout(
                self.sleep.deadline(),
                now,
                self.period,
            ).is_some(),
            _ => true,
        }
    }

    /// Polls the interval, the clock reading `now`. Where the sleep is
    /// ready, the tick is the time that it was scheduled for, not `now`,
    /// and the sleep is reset to the deadline that the policy gives; no
    /// callback is left to cancel then.
    pub fn poll_tick(&mut self, now: Instant) -> (r: TickPoll)
        requires
            old(self)@.can_tick(now),
        ensures
            r == old(self)@.poll_tick(now),
            final(self)@ == old(self)@.polled(now),
    {
        match self.sleep.poll(now) {
            SleepPoll::Pending => TickPoll::Pending,
            SleepPoll::Register { delay_ms } => TickPoll::Register { delay_ms },
            SleepPoll::Ready => {
                let timeout = self.sleep.deadline();
                let next = self.missed_tick_behavior.next_timeout(timeout, now, self.period);
                let stale = self.sleep.reset(next);
                assert(stale.is_none());
                TickPoll::Ready(timeout)
            },
        }
    }

    /// As `poll_tick`, at any time: `None`, and the interval unchanged,
    /// where `poll_tick` cannot answer.
    pub fn try_poll_tick(&mut self, now: Instant) -> (r: Option<TickPoll>)
        ensures
            r.is_some() <==> old(self)@.can_tick(now),
            r.is_some() ==> r.unwrap() == old(self)@.poll_tick(now) && final(self)@ == old(
                self,
            )@.polled(now),
            r.is_none() ==> final(self)@ == old(self)@,
    {
        if self.can_tick(now) {
            Some(self.poll_tick(now))
        } else {
            None
        }
    }

    /// Starts the schedule anew: the next tick is due one period after
    /// `now`. Returns the handle that the caller must hand back to the host,
    /// as `Sleep::cancel` does.
    pub fn reset(&mut self, now: Instant) -> (handle: Option<i32>)
        requires
            now.can_add(old(self)@.period),
        ensures
            handle == old(self)@.sleep.to_cancel(),
            final(self)@ == (IntervalModel {
                sleep: SleepModel::fresh(now.plus(old(self)@.period)),
                ..old(self)@
            }),
    {
        let next = now.checked_add(self.period).unwrap();
        self.sleep.reset(next)
    }

    /// As `reset`, at any time: where the next deadline would not be
    /// representable the interval stays as it is.
    pub fn checked_reset(&mut self, now: Instant) -> (r: Result<Option<i32>, OverflowError>)
        ensures
            r.is_ok() <==> now.can_add(old(self)@.period),
            r.is_ok() ==> r.unwrap() == old(self)@.sleep.to_cancel() && final(self)@
                == (IntervalModel {
                sleep: SleepModel::fresh(now.plus(old(self)@.period)),
                ..old(self)@
            }),
            r.is_err() ==> final(self)@ == old(self)@,
    {
        if now.checked_add(self.period).is_some() {
            Ok(self.reset(now))
        } else {
            Err(OverflowError)
        }
    }

    pub fn missed_tick_behavior(&self) -> (b: MissedTickBehavior)
        ensures
            b == self@.behavior,
    {
        self.missed_tick_behavior
    }

    /// Sets the policy. The deadline that is already set stays.
    pub fn set_missed_tick_behavior(&mut self, behavior: MissedTickBehavior)
        ensures
            final(self)@ == (IntervalModel { behavior, ..old(self)@ }),
    {
        self.missed_tick_behavior = behavior;
    }

    /// Records the handle that the host returned for the callback.
    pub fn registered(&mut self, handle: i32)
        requires
            old(self)@.sleep.state == SleepState::Unregistered,
        ensures
            final(self)@ == (IntervalModel {
                sleep: old(self)@.sleep.registered(handle),
                ..old(self)@
            }),
    {
        self.sleep.registered(handle);
    }

    /// Records that the host has run a callback.
    pub fn fired(&mut self)
        ensures
            final(self)@ == (IntervalModel { sleep: old(self)@.sleep.fired(), ..old(self)@ }),
    {
        self.sleep.fired();
    }

    /// Gives up the registration, as `Sleep::cancel` does.
    pub fn cancel(&mut self) -> (handle: Option<i32>)
        ensures
            handle == old(self)@.sleep.to_cancel(),
            final(self)@ == (IntervalModel { sleep: old(self)@.sleep.cancelled(), ..old(self)@ }),
    {
        self.sleep.cancel()
    }
}

/// An interval whose first tick is due at `start` and the following ones a
/// `period` apart.
pub fn interval_at(start: Instant, period: Duration) -> (i: Interval)
    ensures
        i@ == IntervalModel::fresh(start, period),
{
    Interval::new(start, period)
}

/// An interval whose first tick is due at once, the clock reading `now`.
pub fn interval(now: Instant, period: Duration) -> (i: Interval)
    ensures
        i@ == IntervalModel::fresh(now, period),
{
    interval_at(now, period)
}

/// A consumer that is late for a tick of a `Burst` interval gets the ticks
/// of the unchanged schedule: the tick due at the deadline, and, as long as
/// the next deadline is not after the present, the next one at once.
pub proof fn lemma_burst_keeps_schedule(i: IntervalModel, now: Instant)
    requires
        i.behavior == MissedTickBehavior::Burst,
        i.sleep.state == SleepState::Unregistered,
        i.sleep.deadline@ <= now@,
        i.can_tick(now),
    ensures
        i.poll_tick(now) == TickPoll::Ready(i.sleep.deadline),
        i.polled(now).sleep == SleepModel::fresh(i.sleep.deadline.plus(i.period)),
        i.sleep.deadline@ + duration_micros(i.period) <= now@ ==> i.polled(now).poll_tick(now)
            == TickPoll::Ready(i.sleep.deadline.plus(i.period)),
{
}

/// After a tick of a `Delay` or `Skip` interval the next deadline is after
/// the present, unless the period is shorter than a microsecond: the next
/// poll does not give a tick at once.
pub proof fn lemma_delay_and_skip_do_not_burst(i: IntervalModel, now: Instant)
    requires
        i.behavior != MissedTickBehavior::Burst,
        i.sleep.poll(now) == SleepPoll::Ready,
        i.can_tick(now),
        duration_micros(i.period) > 0,
    ensures
        i.polled(now).sleep.state == SleepState::Unregistered,
        i.polled(now).sleep.deadline@ > now@,
        i.polled(now).sleep.poll(now) is Register,
{
    if i.behavior == MissedTickBehavior::Skip {
        lemma_skip_next_grid_point(i.sleep.deadline, now, i.period);
    }
}

} // verus!
