use vstd::prelude::*;

use crate::interval::IntervalError;

verus! {

/// Create a value from a pair of ranges.
pub trait FromRanges<S, T>: Sized {
    /// Creates a value from a pair of ranges, rejecting a pair in which either
    /// range is empty.
    fn from_ranges(s: S, t: T) -> Result<Self, IntervalError>;
}

} // verus!
