//! A one-shot sleep: it becomes ready once the clock has reached its
//! deadline. The host's timer is not called from here. A poll is told the
//! time and answers with what the caller is to do; the caller reports back
//! the handle that the host gave and the firing of the callback.

use crate::duration::duration_micros;
use crate::error::OverflowError;
use crate::time::Instant;
use core::time::Duration;
use vstd::prelude::*;

verus! {

/// Where a sleep stands with the host's timer. The handle is the one that
/// the host returned for the callback.
#[derive(Debug, Copy, Clone, PartialEq, Eq, Structural)]
pub enum SleepState {
    /// No callback is registered.
    Unregistered,
    /// A callback is registered and has not run.
    Registered(i32),
    /// The registered callback has run.
    Fired(i32),
}

/// What a poll of a sleep answers.
#[derive(Debug, Copy, Clone, PartialEq, Eq, Structural)]
pub enum SleepPoll {
    /// The deadline is reached.
    Ready,
    /// A callback is registered and has not run: wait for it.
    Pending,
    /// Register a callback with the host, to run after `delay_ms`
    /// milliseconds, report its handle with `Sleep::registered`, and wait.
    Register { delay_ms: i32 },
}

/// A sleep as the contracts see it.
pub struct SleepModel {
    pub deadline: Instant,
    pub state: SleepState,
}

impl SleepModel {
    /// A sleep that no poll has seen yet.
    pub open spec fn fresh(deadline: Instant) -> SleepModel {
        SleepModel { deadline, state: SleepState::Unregistered }
    }

    /// The whole milliseconds from `now` to the deadline.
    pub open spec fn remaining_ms(self, now: Instant) -> nat {
        self.deadline.micros_since(now) / 1000
    }

    /// Whether a poll at `now` can be answered: where a callback would have
    /// to be registered, its delay fits the host's signed 32 bits.
    pub open spec fn can_poll(self, now: Instant) -> bool {
        self.state == SleepState::Unregistered && now@ < self.deadline@ ==> self.remaining_ms(now)
            <= i32::MAX
    }

    /// The answer to a poll at `now`.
    pub open spec fn poll(self, now: Instant) -> SleepPoll {
        match self.state {
            SleepState::Unregistered => if now@ >= self.deadline@ {
                SleepPoll::Ready
            } else {
                SleepPoll::Register { delay_ms: self.remaining_ms(now) as i32 }
            },
            SleepState::Registered(_) => SleepPoll::Pending,
            SleepState::Fired(_) => SleepPoll::Ready,
        }
    }

    /// The sleep once the host has returned `handle`.
    pub open spec fn registered(self, handle: i32) -> SleepModel {
        SleepModel { state: SleepState::Registered(handle), ..self }
    }

    /// The sleep once the host has run a callback: a registered one has
    /// fired, and nothing else changes.
    pub open spec fn fired(self) -> SleepModel {
        match self.state {
            SleepState::Registered(handle) => SleepModel {
                state: SleepState::Fired(handle),
                ..self
            },
            _ => self,
        }
    }

    /// The handle that a cancellation has to hand back to the host: that of
    /// a callback which is registered and has not run.
    pub open spec fn to_cancel(self) -> Option<i32> {
        match self.state {
            SleepState::Registered(handle) => Some(handle),
            _ => None,
        }
    }

    /// The sleep after a cancellation.
    pub open spec fn cancelled(self) -> SleepModel {
        SleepModel { state: SleepState::Unregistered, ..self }
    }

    /// The sleep after a reset to `deadline`.
    pub open spec fn reset(self, deadline: Instant) -> SleepModel {
        SleepModel::fresh(deadline)
    }
}

/// A sleep: a deadline, and where it stands with the host's timer.
#[must_use]
#[derive(Debug)]
pub struct Sleep {
    deadline: Instant,
    state: SleepState,
}

impl View for Sleep {
    type V = SleepModel;

    closed spec fn view(&self) -> SleepModel {
        SleepModel { deadline: self.deadline, state: self.state }
    }
}

impl Sleep {
    pub fn new(deadline: Instant) -> (s: Sleep)
        ensures
            s@ == SleepModel::fresh(deadline),
    {
        Sleep { deadline, state: SleepState::Unregistered }
    }

    pub fn deadline(&self) -> (d: Instant)
        ensures
            d == self@.deadline,
    {
        self.deadline
    }

    pub fn state(&self) -> (s: SleepState)
        ensures
            s == self@.state,
    {
        self.state
    }

    /// Whether `poll` may be called at `now`.
    pub fn can_poll(&self, now: Instant) -> (ok: bool)
        ensures
            ok == self@.can_poll(now),
    {
        match self.state {
            SleepState::Unregistered => {
                now.0 >= self.deadline.0 || (self.deadline.0 - now.0) / 1000 <= 0x7fff_ffff
            },
            _ => true,
        }
    }

    /// Polls the sleep, the clock reading `now`. With no callback registered
    /// it is ready where the deadline is reached, and asks for a callback
    /// after the remaining whole milliseconds where it is not. With one
    /// registered it is ready once the callback has run.
    pub fn poll(&self, now: Instant) -> (r: SleepPoll)
        requires
            self@.can_poll(now),
        ensures
            r == self@.poll(now),
    {
        match self.state {
            SleepState::Unregistered => {
                if now.0 >= self.deadline.0 {
                    SleepPoll::Ready
                } else {
                    let remaining = self.deadline.duration_since(now);
                    let millis: u128 = remaining.as_millis();
                    SleepPoll::Register { delay_ms: millis as i32 }
                }
            },
            SleepState::Registered(_) => SleepPoll::Pending,
            SleepState::Fired(_) => SleepPoll::Ready,
        }
    }

    /// Records the handle that the host returned for the callback.
    pub fn registered(&mut self, handle: i32)
        requires
            old(self)@.state == SleepState::Unregistered,
        ensures
            final(self)@ == old(self)@.registered(handle),
    {
        self.state = SleepState::Registered(handle);
    }

    /// Records that the host has run a callback.
    pub fn fired(&mut self)
        ensures
            final(self)@ == old(self)@.fired(),
    {
        if let SleepState::Registered(handle) = self.state {
            self.state = SleepState::Fired(handle);
        }
    }

    /// Gives up the registration. Returns the handle that the caller must
    /// hand back to the host: that of a callback which has not run. Where
    /// none is registered, or it has run, there is nothing to hand back.
    pub fn cancel(&mut self) -> (handle: Option<i32>)
        ensures
            handle == old(self)@.to_cancel(),
            final(self)@ == old(self)@.cancelled(),
    {
        let handle = match self.state {
            SleepState::Registered(handle) => Some(handle),
            _ => None,
        };
        self.state = SleepState::Unregistered;
        handle
    }

    /// Cancels as `cancel` does and sets a new deadline; the next poll
    /// registers anew where it has to.
    pub fn reset(&mut self, deadline: Instant) -> (handle: Option<i32>)
        ensures
            handle == old(self)@.to_cancel(),
            final(self)@ == old(self)@.reset(deadline),
    {
        let handle = self.cancel();
        self.deadline = deadline;
        handle
    }
}

/// A sleep that is ready once the clock reads `deadline` or more.
pub fn sleep_until(deadline: Instant) -> (s: Sleep)
    ensures
        s@ == SleepModel::fresh(deadline),
{
    Sleep::new(deadline)
}

/// A sleep that is ready once `duration` has passed, the clock now reading
/// `now`.
pub fn sleep(now: Instant, duration: Duration) -> (s: Sleep)
    requires
        now.can_add(duration),
    ensures
        s@ == SleepModel::fresh(now.plus(duration)),
{
    sleep_until(now.checked_add(duration).unwrap())
}

/// As `sleep`, for any duration: an error where the deadline would not be
/// representable.
pub fn checked_sleep(now: Instant, duration: Duration) -> (r: Result<Sleep, OverflowError>)
    ensures
        r.is_ok() <==> now.can_add(duration),
        r.is_ok() ==> r.unwrap()@ == SleepModel::fresh(now.plus(duration)),
{
    if now.checked_add(duration).is_some() {
        Ok(sleep(now, duration))
    } else {
        Err(OverflowError)
    }
}

/// A sleep for `d` is not ready before the clock has moved on by the whole
/// microseconds of `d`, and is ready from then on, for as long as no host
/// callback is involved.
pub proof fn lemma_sleep_ready_when_elapsed(start: Instant, d: Duration, now: Instant)
    requires
        start.can_add(d),
        start@ <= now@,
    ensures
        SleepModel::fresh(start.plus(d)).poll(now) == SleepPoll::Ready <==> now.micros_since(start)
            >= duration_micros(d),
{
}

/// Whatever its state, a sleep whose callback has not run is ready only
/// where the clock has reached the deadline. It asks for a callback only
/// while none is registered, so that at most one is ever live, and the
/// delay that it asks for is the time that remains, in whole milliseconds.
pub proof fn lemma_ready_means_reached_or_fired(s: SleepModel, now: Instant)
    requires
        s.can_poll(now),
    ensures
        s.poll(now) == SleepPoll::Ready ==> now@ >= s.deadline@ || s.state is Fired,
        s.poll(now) matches SleepPoll::Register { delay_ms } ==> {
            &&& s.state == SleepState::Unregistered
            &&& now@ < s.deadline@
            &&& delay_ms == (s.deadline@ - now@) / 1000
        },
        s.state is Registered ==> s.poll(now) == SleepPoll::Pending,
{
}

/// A sleep whose deadline is not after the present is ready at its first
/// poll, and no callback is asked for.
pub proof fn lemma_past_deadline_ready_at_once(deadline: Instant, now: Instant)
    requires
        deadline@ <= now@,
    ensures
        SleepModel::fresh(deadline).can_poll(now),
        SleepModel::fresh(deadline).poll(now) == SleepPoll::Ready,
{
}

/// A cancellation hands back a handle exactly where a callback is
/// registered and has not run, and a second cancellation hands back none.
pub proof fn lemma_cancel_at_most_once(s: SleepModel)
    ensures
        s.to_cancel().is_some() <==> s.state is Registered,
        s.state matches SleepState::Registered(handle) ==> s.to_cancel() == Some(handle),
        s.fired().to_cancel().is_none(),
        s.cancelled().to_cancel().is_none(),
        s.cancelled().state == SleepState::Unregistered,
{
}

} // verus!
