//! Timers for a host that offers only a callback timer and a clock: a
//! one-shot sleep, a periodic interval and a deadline race, each written as
//! a state machine that is told the time and answers with what to do next.

pub mod duration;
pub mod error;
pub mod interval;
pub mod sleep;
pub mod time;
pub mod timeout;

pub use error::{Elapsed, OverflowError};
pub use interval::{interval, interval_at, Interval, MissedTickBehavior, TickPoll};
pub use sleep::{checked_sleep, sleep, sleep_until, Sleep, SleepPoll, SleepState};
pub use timeout::{checked_timeout, timeout, timeout_at, Timeout, TimeoutPoll, TimeoutState};
pub use time::{Instant, SystemTime, SystemTimeError, UNIX_EPOCH_US};
