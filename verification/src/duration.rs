//! What the library assumes of `core::time::Duration`.
//!
//! A `Duration` is opaque to the verifier. Its length is given a name here,
//! and the three std functions that the library calls are described over
//! that name. Nothing in this file is proved.

use core::time::Duration;
use vstd::prelude::*;

verus! {

/// The length of a `Duration`, in whole nanoseconds.
pub uninterp spec fn duration_nanos(d: Duration) -> nat;

/// The whole microseconds in a `Duration`.
pub open spec fn duration_micros(d: Duration) -> nat {
    duration_nanos(d) / 1000
}

/// The whole milliseconds in a `Duration`.
pub open spec fn duration_millis(d: Duration) -> nat {
    duration_nanos(d) / 1_000_000
}

/// `Duration::from_micros`: the result lasts exactly `micros` microseconds.
pub assume_specification[ Duration::from_micros ](micros: u64) -> (d: Duration)
    ensures
        duration_nanos(d) == micros * 1000,
;

/// `Duration::as_micros`: the whole microseconds that the duration holds,
/// what is left of a microsecond being dropped.
pub assume_specification[ Duration::as_micros ](d: &Duration) -> (micros: u128)
    ensures
        micros == duration_micros(*d),
;

/// `Duration::as_millis`: the whole milliseconds that the duration holds,
/// what is left of a millisecond being dropped.
pub assume_specification[ Duration::as_millis ](d: &Duration) -> (millis: u128)
    ensures
        millis == duration_millis(*d),
;

} // verus!
