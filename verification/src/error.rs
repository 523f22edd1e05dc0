use vstd::prelude::*;

verus! {

/// The outcome of a deadline race in which the deadline came first.
#[derive(Copy, Clone, Debug, PartialEq, Eq, PartialOrd, Ord, Hash, Structural)]
pub struct Elapsed;

/// A point in time that was asked for lies outside the 64 bits of
/// microseconds that an `Instant` holds.
#[derive(Copy, Clone, Debug, PartialEq, Eq, Structural)]
pub struct OverflowError;

} // verus!
