//! A race between an operation and a deadline. The operation itself stays
//! with the caller, who polls it first and hands in what came of that.

use crate::error::{Elapsed, OverflowError};
use crate::sleep::{sleep_until, Sleep, SleepModel, SleepPoll, SleepState};
use crate::time::Instant;
use core::time::Duration;
use vstd::prelude::*;

verus! {

/// How far a race has come. The two last states are final.
#[derive(Debug, Copy, Clone, PartialEq, Eq, Structural)]
pub enum TimeoutState {
    /// Neither the operation nor the deadline has come in.
    Running,
    /// The operation came in first, or together with the deadline.
    Completed,
    /// The deadline came in first.
    Elapsed,
}

/// What a poll of a race answers.
#[derive(Debug, PartialEq, Eq)]
pub enum TimeoutPoll<V> {
    /// The race is over: the operation's value, or `Elapsed`.
    Resolved(Result<V, Elapsed>),
    /// A callback is registered and has not run: wait for it, or for the
    /// operation.
    Pending,
    /// Register a callback with the host, to run after `delay_ms`
    /// milliseconds, report its handle with `Timeout::registered`, and wait.
    Register { delay_ms: i32 },
}

/// A race as the contracts see it.
pub struct TimeoutModel {
    pub sleep: SleepModel,
    pub state: TimeoutState,
}

impl TimeoutModel {
    /// A race that no poll has seen yet.
    pub open spec fn fresh(deadline: Instant) -> TimeoutModel {
        TimeoutModel { sleep: SleepModel::fresh(deadline), state: TimeoutState::Running }
    }

    /// Whether a poll at `now` can be answered: the race is still on, and
    /// the sleep can be polled where it will be, which is where the
    /// operation has not come in.
    pub open spec fn can_poll(self, completed: bool, now: Instant) -> bool {
        &&& self.state == TimeoutState::Running
        &&& !completed ==> self.sleep.can_poll(now)
    }

    /// The answer to a poll at `now`, a poll of the operation having given
    /// `inner`. The operation is looked at first: its value wins over a
    /// deadline that is reached in the same turn.
    pub open spec fn poll<V>(self, inner: Option<V>, now: Instant) -> TimeoutPoll<V> {
        match inner {
            Some(value) => TimeoutPoll::Resolved(Ok(value)),
            None => match self.sleep.poll(now) {
                SleepPoll::Ready => TimeoutPoll::Resolved(Err(Elapsed)),
                SleepPoll::Pending => TimeoutPoll::Pending,
                SleepPoll::Register { delay_ms } => TimeoutPoll::Register { delay_ms },
            },
        }
    }

    /// The state of the race after that poll.
    pub open spec fn state_after(self, completed: bool, now: Instant) -> TimeoutState {
        if completed {
            TimeoutState::Completed
        } else if self.sleep.poll(now) == SleepPoll::Ready {
            TimeoutState::Elapsed
        } else {
            TimeoutState::Running
        }
    }
}

/// A race between an operation and a deadline.
#[must_use]
#[derive(Debug)]
pub struct Timeout {
    sleep: Sleep,
    state: TimeoutState,
}

impl View for Timeout {
    type V = TimeoutModel;

    closed spec fn view(&self) -> TimeoutModel {
        TimeoutModel { sleep: self.sleep@, state: self.state }
    }
}

impl Timeout {
    pub fn new(sleep: Sleep) -> (t: Timeout)
        ensures
            t@ == (TimeoutModel { sleep: sleep@, state: TimeoutState::Running }),
    {
        Timeout { sleep, state: TimeoutState::Running }
    }

    pub fn deadline(&self) -> (d: Instant)
        ensures
            d == self@.sleep.deadline,
    {
        self.sleep.deadline()
    }

    pub fn state(&self) -> (s: TimeoutState)
        ensures
            s == self@.state,
    {
        self.state
    }

    /// Whether `poll` may be called at `now` with an operation that has, or
    /// has not, come in.
    pub fn can_poll(&self, completed: bool, now: Instant) -> (ok: bool)
        ensures
            ok == self@.can_poll(completed, now),
    {
        self.state == TimeoutState::Running && (completed || self.sleep.can_poll(now))
    }

    /// Polls the race, the clock reading `now`. `inner` is what the caller's
    /// poll of the operation gave: its value, or `None` where it is still
    /// pending. With a value the race is over and the sleep is not polled;
    /// without one the sleep decides.
    pub fn poll<V>(&mut self, inner: Option<V>, now: Instant) -> (r: TimeoutPoll<V>)
        requires
            old(self)@.can_poll(inner.is_some(), now),
        ensures
            r == old(self)@.poll(inner, now),
            final(self)@ == (TimeoutModel {
                state: old(self)@.state_after(inner.is_some(), now),
                ..old(self)@
            }),
    {
        match inner {
            Some(value) => {
                self.state = TimeoutState::Completed;
                TimeoutPoll::Resolved(Ok(value))
            },
            None => match self.sleep.poll(now) {
                SleepPoll::Ready => {
                    self.state = TimeoutState::Elapsed;
                    TimeoutPoll::Resolved(Err(Elapsed))
                },
                SleepPoll::Pending => TimeoutPoll::Pending,
                SleepPoll::Register { delay_ms } => TimeoutPoll::Register { delay_ms },
            },
        }
    }

    /// Records the handle that the host returned for the callback.
    pub fn registered(&mut self, handle: i32)
        requires
            old(self)@.sleep.state == SleepState::Unregistered,
        ensures
            final(self)@ == (TimeoutModel {
                sleep: old(self)@.sleep.registered(handle),
                ..old(self)@
            }),
    {
        self.sleep.registered(handle);
    }

    /// Records that the host has run a callback.
    pub fn fired(&mut self)
        ensures
            final(self)@ == (TimeoutModel { sleep: old(self)@.sleep.fired(), ..old(self)@ }),
    {
        self.sleep.fired();
    }

    /// Gives up the registration, as `Sleep::cancel` does.
    pub fn cancel(&mut self) -> (handle: Option<i32>)
        ensures
            handle == old(self)@.sleep.to_cancel(),
            final(self)@ == (TimeoutModel { sleep: old(self)@.sleep.cancelled(), ..old(self)@ }),
    {
        self.sleep.cancel()
    }
}

/// A race against the deadline `deadline`.
pub fn timeout_at(deadline: Instant) -> (t: Timeout)
    ensures
        t@ == TimeoutModel::fresh(deadline),
{
    Timeout::new(sleep_until(deadline))
}

/// A race against a deadline `duration` after `now`.
pub fn timeout(now: Instant, duration: Duration) -> (t: Timeout)
    requires
        now.can_add(duration),
    ensures
        t@ == TimeoutModel::fresh(now.plus(duration)),
{
    Timeout::new(crate::sleep::sleep(now, duration))
}

/// As `timeout`, for any duration: an error where the deadline would not be
/// representable.
pub fn checked_timeout(now: Instant, duration: Duration) -> (r: Result<Timeout, OverflowError>)
    ensures
        r.is_ok() <==> now.can_add(duration),
        r.is_ok() ==> r.unwrap()@ == TimeoutModel::fresh(now.plus(duration)),
{
    if now.checked_add(duration).is_some() {
        Ok(timeout(now, duration))
    } else {
        Err(OverflowError)
    }
}

/// An operation that has come in wins the race, whatever the clock reads
/// and whether or not the callback has run; one that has not loses it
/// exactly where the sleep is ready. A race resolves to one of the two.
pub proof fn lemma_value_wins_the_turn<V>(t: TimeoutModel, value: V, now: Instant)
    ensures
        t.poll(Some(value), now) == TimeoutPoll::Resolved(Ok::<V, Elapsed>(value)),
        t.state_after(true, now) == TimeoutState::Completed,
        t.poll(None::<V>, now) == TimeoutPoll::Resolved(Err::<V, Elapsed>(Elapsed))
            <==> t.sleep.poll(now) == SleepPoll::Ready,
        t.state_after(false, now) == TimeoutState::Elapsed <==> t.sleep.poll(now)
            == SleepPoll::Ready,
        t.state_after(false, now) != TimeoutState::Completed,
{
}

} // verus!
