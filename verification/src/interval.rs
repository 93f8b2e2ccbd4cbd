mod interval;
mod interval_from;
mod interval_full;
mod interval_to;

pub use self::interval::Interval;
pub use self::interval_from::IntervalFrom;
pub use self::interval_full::IntervalFull;
pub use self::interval_to::IntervalTo;

use vstd::prelude::*;

verus! {

/// Error type specific to Allen's interval algebra.
#[derive(Clone, Copy, Debug, Hash, Eq, PartialEq, Ord, PartialOrd, Structural)]
pub enum IntervalError {
    /// Empty intervals are invalid with respect to Allen's interval algebra.
    EmptyInterval,
    /// Could not obtain a total order.
    AmbiguousOrder,
}

} // verus!
