//! Points in time, counted in microseconds, and the arithmetic between them
//! and `Duration`. Reading the clock is left to the caller: every function
//! here that needs the present time takes it as an argument.

use crate::duration::{duration_micros, duration_nanos};
use core::time::Duration;
use vstd::prelude::*;

verus! {

/// A reading of the monotonic clock: microseconds from an arbitrary origin.
#[derive(Debug, Copy, Clone, PartialEq, Eq, PartialOrd, Ord, Structural)]
pub struct Instant(pub u64);

impl View for Instant {
    type V = nat;

    open spec fn view(&self) -> nat {
        self.0 as nat
    }
}

impl Instant {
    /// The microseconds from `earlier` to `self`, or zero where `earlier` is
    /// the later of the two.
    pub open spec fn micros_since(self, earlier: Instant) -> nat {
        if self@ >= earlier@ {
            (self@ - earlier@) as nat
        } else {
            0
        }
    }

    /// Whether `self` moved forward by `duration` is still representable.
    pub open spec fn can_add(self, duration: Duration) -> bool {
        self@ + duration_micros(duration) <= u64::MAX
    }

    /// Whether `self` moved back by `duration` is still representable.
    pub open spec fn can_sub(self, duration: Duration) -> bool {
        duration_micros(duration) <= self@
    }

    /// `self` moved forward by the whole microseconds of `duration`.
    pub open spec fn plus(self, duration: Duration) -> Instant
        recommends
            self.can_add(duration),
    {
        Instant((self@ + duration_micros(duration)) as u64)
    }

    /// `self` moved back by the whole microseconds of `duration`.
    pub open spec fn minus(self, duration: Duration) -> Instant
        recommends
            self.can_sub(duration),
    {
        Instant((self@ - duration_micros(duration)) as u64)
    }

    pub fn from_raw_us(us: u64) -> (r: Instant)
        ensures
            r@ == us,
    {
        Instant(us)
    }

    pub fn raw_us(&self) -> (us: u64)
        ensures
            us == self@,
    {
        self.0
    }

    /// The time from `earlier` to `self`, zero where `earlier` is later.
    pub fn duration_since(&self, earlier: Instant) -> (d: Duration)
        ensures
            duration_nanos(d) == self.micros_since(earlier) * 1000,
    {
        match self.checked_duration_since(earlier) {
            Some(d) => d,
            None => Duration::from_micros(0),
        }
    }

    /// The time from `earlier` to `self`, or `None` where `earlier` is later.
    pub fn checked_duration_since(&self, earlier: Instant) -> (r: Option<Duration>)
        ensures
            r.is_some() <==> earlier@ <= self@,
            r.is_some() ==> duration_nanos(r.unwrap()) == (self@ - earlier@) * 1000,
    {
        if self.0 >= earlier.0 {
            Some(Duration::from_micros(self.0 - earlier.0))
        } else {
            None
        }
    }

    /// The time from `earlier` to `self`, zero where `earlier` is later.
    pub fn saturating_duration_since(&self, earlier: Instant) -> (d: Duration)
        ensures
            duration_nanos(d) == self.micros_since(earlier) * 1000,
    {
        match self.checked_duration_since(earlier) {
            Some(d) => d,
            None => Duration::from_micros(0),
        }
    }

    /// The time that has passed since `self`, the clock now reading `now`.
    pub fn elapsed(&self, now: Instant) -> (d: Duration)
        ensures
            duration_nanos(d) == now.micros_since(*self) * 1000,
    {
        now.duration_since(*self)
    }

    /// `self` moved forward by `duration`, or `None` where the result would
    /// not fit in 64 bits of microseconds.
    pub fn checked_add(&self, duration: Duration) -> (r: Option<Instant>)
        ensures
            r.is_some() <==> self.can_add(duration),
            r.is_some() ==> r.unwrap() == self.plus(duration),
    {
        match micros_u64(duration) {
            Some(us) => {
                if us <= u64::MAX - self.0 {
                    Some(Instant(self.0 + us))
                } else {
                    None
                }
            },
            None => None,
        }
    }

    /// `self` moved back by `duration`, or `None` where the result would lie
    /// before the clock's origin.
    pub fn checked_sub(&self, duration: Duration) -> (r: Option<Instant>)
        ensures
            r.is_some() <==> self.can_sub(duration),
            r.is_some() ==> r.unwrap() == self.minus(duration),
    {
        match micros_u64(duration) {
            Some(us) => {
                if us <= self.0 {
                    Some(Instant(self.0 - us))
                } else {
                    None
                }
            },
            None => None,
        }
    }
}

impl core::ops::Add<Duration> for Instant {
    type Output = Instant;

    /// `self` moved forward by `other`. The sum must be representable.
    fn add(self, other: Duration) -> (r: Instant) {
        self.checked_add(other).unwrap()
    }
}

impl vstd::std_specs::ops::AddSpecImpl<Duration> for Instant {
    open spec fn obeys_add_spec() -> bool {
        true
    }

    open spec fn add_req(self, other: Duration) -> bool {
        self.can_add(other)
    }

    open spec fn add_spec(self, other: Duration) -> Instant {
        self.plus(other)
    }
}

impl core::ops::Sub<Duration> for Instant {
    type Output = Instant;

    /// `self` moved back by `other`. The difference must be representable.
    fn sub(self, other: Duration) -> (r: Instant) {
        self.checked_sub(other).unwrap()
    }
}

impl vstd::std_specs::ops::SubSpecImpl<Duration> for Instant {
    open spec fn obeys_sub_spec() -> bool {
        true
    }

    open spec fn sub_req(self, other: Duration) -> bool {
        self.can_sub(other)
    }

    open spec fn sub_spec(self, other: Duration) -> Instant {
        self.minus(other)
    }
}

impl core::ops::Sub<Instant> for Instant {
    type Output = Duration;

    /// The time from `other` to `self`, zero where `other` is later.
    fn sub(self, other: Instant) -> (d: Duration)
        ensures
            duration_nanos(d) == self.micros_since(other) * 1000,
    {
        self.duration_since(other)
    }
}

impl vstd::std_specs::ops::SubSpecImpl<Instant> for Instant {
    /// A `Duration` cannot be written down in a contract, so the result is
    /// described by the `ensures` of `sub` and not by `sub_spec`.
    open spec fn obeys_sub_spec() -> bool {
        false
    }

    open spec fn sub_req(self, other: Instant) -> bool {
        true
    }

    open spec fn sub_spec(self, other: Instant) -> Duration {
        arbitrary()
    }
}

/// The whole microseconds of `duration` as a `u64`, where they fit in one.
pub fn micros_u64(duration: Duration) -> (r: Option<u64>)
    ensures
        r.is_some() <==> duration_micros(duration) <= u64::MAX,
        r.is_some() ==> r.unwrap() == duration_micros(duration),
{
    let us: u128 = duration.as_micros();
    if us <= 0xffff_ffff_ffff_ffff_u128 {
        Some(us as u64)
    } else {
        None
    }
}

/// Adding a duration to an instant and taking the time since the instant
/// gives the duration back, to the microsecond: exactly so for a duration
/// of whole microseconds.
pub proof fn lemma_add_then_since(a: Instant, d: Duration)
    requires
        a.can_add(d),
    ensures
        a.plus(d).micros_since(a) == duration_micros(d),
        duration_nanos(d) % 1000 == 0 ==> a.plus(d).micros_since(a) * 1000 == duration_nanos(d),
{
}

/// Subtracting a duration from an instant and adding it again gives the
/// instant back.
pub proof fn lemma_sub_then_add(a: Instant, d: Duration)
    requires
        a.can_sub(d),
    ensures
        a.minus(d).can_add(d),
        a.minus(d).plus(d) == a,
{
}

/// The wall-clock count at the Unix epoch, midnight UTC on 1 January 1970.
pub const UNIX_EPOCH_US: u64 = 0;

/// A reading of the wall clock: microseconds since the Unix epoch. The wall
/// clock may be set back, so a later reading may be the smaller.
#[derive(Debug, Copy, Clone, PartialEq, Eq, PartialOrd, Ord, Structural)]
pub struct SystemTime(pub u64);

impl View for SystemTime {
    type V = nat;

    open spec fn view(&self) -> nat {
        self.0 as nat
    }
}

impl SystemTime {
    /// The Unix epoch itself.
    pub fn unix_epoch() -> (r: SystemTime)
        ensures
            r@ == UNIX_EPOCH_US,
    {
        SystemTime(UNIX_EPOCH_US)
    }

    /// Whether `self` moved forward by `duration` is still representable.
    pub open spec fn can_add(self, duration: Duration) -> bool {
        self@ + duration_micros(duration) <= u64::MAX
    }

    /// Whether `self` moved back by `duration` is still representable.
    pub open spec fn can_sub(self, duration: Duration) -> bool {
        duration_micros(duration) <= self@
    }

    /// `self` moved forward by the whole microseconds of `duration`.
    pub open spec fn plus(self, duration: Duration) -> SystemTime
        recommends
            self.can_add(duration),
    {
        SystemTime((self@ + duration_micros(duration)) as u64)
    }

    /// `self` moved back by the whole microseconds of `duration`.
    pub open spec fn minus(self, duration: Duration) -> SystemTime
        recommends
            self.can_sub(duration),
    {
        SystemTime((self@ - duration_micros(duration)) as u64)
    }

    /// The time from `earlier` to `self`. Where `earlier` is in fact the
    /// later, the error holds the time from `self` to `earlier`.
    pub fn duration_since(&self, earlier: SystemTime) -> (r: Result<Duration, SystemTimeError>)
        ensures
            r.is_err() <==> earlier@ > self@,
            r.is_ok() ==> duration_nanos(r.unwrap()) == (self@ - earlier@) * 1000,
            r.is_err() ==> duration_nanos(r.unwrap_err().gap()) == (earlier@ - self@) * 1000,
    {
        if self.0 < earlier.0 {
            return Err(SystemTimeError(Duration::from_micros(earlier.0 - self.0)));
        }
        Ok(Duration::from_micros(self.0 - earlier.0))
    }

    /// The time that has passed since `self`, the wall clock now reading
    /// `now`; an error where the clock has been set back behind `self`.
    pub fn elapsed(&self, now: SystemTime) -> (r: Result<Duration, SystemTimeError>)
        ensures
            r.is_err() <==> self@ > now@,
            r.is_ok() ==> duration_nanos(r.unwrap()) == (now@ - self@) * 1000,
            r.is_err() ==> duration_nanos(r.unwrap_err().gap()) == (self@ - now@) * 1000,
    {
        now.duration_since(*self)
    }

    /// `self` moved forward by `duration`, or `None` where the result would
    /// not fit in 64 bits of microseconds.
    pub fn checked_add(&self, duration: Duration) -> (r: Option<SystemTime>)
        ensures
            r.is_some() <==> self.can_add(duration),
            r.is_some() ==> r.unwrap() == self.plus(duration),
    {
        match micros_u64(duration) {
            Some(us) => {
                if us <= u64::MAX - self.0 {
                    Some(SystemTime(self.0 + us))
                } else {
                    None
                }
            },
            None => None,
        }
    }

    /// `self` moved back by `duration`, or `None` where the result would lie
    /// before the epoch.
    pub fn checked_sub(&self, duration: Duration) -> (r: Option<SystemTime>)
        ensures
            r.is_some() <==> self.can_sub(duration),
            r.is_some() ==> r.unwrap() == self.minus(duration),
    {
        match micros_u64(duration) {
            Some(us) => {
                if us <= self.0 {
                    Some(SystemTime(self.0 - us))
                } else {
                    None
                }
            },
            None => None,
        }
    }
}

impl core::ops::Add<Duration> for SystemTime {
    type Output = SystemTime;

    /// `self` moved forward by `other`. The sum must be representable.
    fn add(self, other: Duration) -> (r: SystemTime) {
        self.checked_add(other).unwrap()
    }
}

impl vstd::std_specs::ops::AddSpecImpl<Duration> for SystemTime {
    open spec fn obeys_add_spec() -> bool {
        true
    }

    open spec fn add_req(self, other: Duration) -> bool {
        self.can_add(other)
    }

    open spec fn add_spec(self, other: Duration) -> SystemTime {
        self.plus(other)
    }
}

impl core::ops::Sub<Duration> for SystemTime {
    type Output = SystemTime;

    /// `self` moved back by `other`. The difference must be representable.
    fn sub(self, other: Duration) -> (r: SystemTime) {
        self.checked_sub(other).unwrap()
    }
}

impl vstd::std_specs::ops::SubSpecImpl<Duration> for SystemTime {
    open spec fn obeys_sub_spec() -> bool {
        true
    }

    open spec fn sub_req(self, other: Duration) -> bool {
        self.can_sub(other)
    }

    open spec fn sub_spec(self, other: Duration) -> SystemTime {
        self.minus(other)
    }
}

/// What `SystemTime::duration_since` returns where its argument is the later
/// of the two times: it holds how much later.
#[derive(Debug, Copy, Clone)]
pub struct SystemTimeError(Duration);

impl SystemTimeError {
    /// The time by which the argument was later.
    pub closed spec fn gap(&self) -> Duration {
        self.0
    }

    /// The time by which the argument was later.
    pub fn duration(&self) -> (d: Duration)
        ensures
            d == self.gap(),
    {
        self.0
    }

    /// A sentence that says what went wrong.
    pub fn message(&self) -> (s: &'static str)
        ensures
            s@ == "second time provided was later than self"@,
    {
        "second time provided was later than self"
    }
}

} // verus!
