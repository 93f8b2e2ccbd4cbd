use vstd::prelude::*;

use crate::interval::IntervalError;
use crate::non_empty::NonEmpty;

verus! {

/// Create a value from a pair of intervals.
pub trait FromIntervals<S, T>: Sized {
    /// Creates a value from a pair of intervals.
    fn from_intervals(s: &NonEmpty<S>, t: &NonEmpty<T>) -> Self;
}

/// Create a value from a pair of intervals, under a domain order that may
/// leave some endpoint comparisons undefined.
pub trait TryFromIntervals<S, T>: Sized {
    /// Creates a value from a pair of intervals.
    fn try_from_intervals(s: &NonEmpty<S>, t: &NonEmpty<T>) -> Result<Self, IntervalError>;
}

} // verus!
