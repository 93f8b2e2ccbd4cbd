use vstd::prelude::*;

use crate::interval::{Interval, IntervalFrom, IntervalFull, IntervalTo};
use crate::non_empty::NonEmpty;

verus! {

/// An endpoint of an interval of time.
#[derive(Clone, Copy, Debug, Hash, Eq, PartialEq)]
pub enum Bound<T> {
    /// A finite endpoint.
    ///
    /// Indicates that there is a bound in this direction.
    Bounded(T),
    /// An infinite endpoint.
    ///
    /// Indicates that there is no bound in this direction: on the start side
    /// it acts as minus infinity, on the end side as plus infinity.
    Unbounded,
}

/// The endpoints of an interval of time.
#[derive(Clone, Copy, Debug, Hash, Eq, PartialEq)]
pub struct Bounds<T> {
    /// Start index bound.
    pub start: Bound<T>,
    /// End index bound.
    pub end: Bound<T>,
}

/// The bounds of an interval value, as a specification value.
pub open spec fn spec_bounds_of<I: IntervalBounds<T>, T>(iv: I) -> Bounds<T> {
    Bounds { start: iv.spec_start_bound(), end: iv.spec_end_bound() }
}

/// `IntervalBounds` is implemented by the crate's built-in interval types.
pub trait IntervalBounds<T> {
    /// The start bound, as a specification value.
    spec fn spec_start_bound(&self) -> Bound<T>;

    /// The end bound, as a specification value.
    spec fn spec_end_bound(&self) -> Bound<T>;

    /// Start index bound.
    ///
    /// Returns the start value as a [`Bound<T>`].
    fn start_bound(&self) -> (r: Bound<T>)
        ensures
            r == self.spec_start_bound(),
    ;

    /// End index bound.
    ///
    /// Returns the end value as a [`Bound<T>`].
    fn end_bound(&self) -> (r: Bound<T>)
        ensures
            r == self.spec_end_bound(),
    ;

    /// Index bounds.
    ///
    /// Returns the start and end bounds as a [`Bounds<T>`].
    fn bounds(&self) -> (r: Bounds<T>)
        ensures
            r == (Bounds { start: self.spec_start_bound(), end: self.spec_end_bound() }),
    {
        Bounds { start: self.start_bound(), end: self.end_bound() }
    }
}

impl<I, T> IntervalBounds<T> for NonEmpty<I> where I: IntervalBounds<T> {
    open spec fn spec_start_bound(&self) -> Bound<T> {
        self.0.spec_start_bound()
    }

    open spec fn spec_end_bound(&self) -> Bound<T> {
        self.0.spec_end_bound()
    }

    fn start_bound(&self) -> Bound<T> {
        self.0.start_bound()
    }

    fn end_bound(&self) -> Bound<T> {
        self.0.end_bound()
    }
}

impl<T> IntervalBounds<T> for Interval<T> where T: Copy {
    open spec fn spec_start_bound(&self) -> Bound<T> {
        Bound::Bounded(self.start)
    }

    open spec fn spec_end_bound(&self) -> Bound<T> {
        Bound::Bounded(self.end)
    }

    fn start_bound(&self) -> Bound<T> {
        Bound::Bounded(self.start)
    }

    fn end_bound(&self) -> Bound<T> {
        Bound::Bounded(self.end)
    }
}

impl<T> IntervalBounds<T> for IntervalFrom<T> where T: Copy {
    open spec fn spec_start_bound(&self) -> Bound<T> {
        Bound::Bounded(self.start)
    }

    open spec fn spec_end_bound(&self) -> Bound<T> {
        Bound::Unbounded
    }

    fn start_bound(&self) -> Bound<T> {
        Bound::Bounded(self.start)
    }

    fn end_bound(&self) -> Bound<T> {
        Bound::Unbounded
    }
}

impl<T> IntervalBounds<T> for IntervalTo<T> where T: Copy {
    open spec fn spec_start_bound(&self) -> Bound<T> {
        Bound::Unbounded
    }

    open spec fn spec_end_bound(&self) -> Bound<T> {
        Bound::Bounded(self.end)
    }

    fn start_bound(&self) -> Bound<T> {
        Bound::Unbounded
    }

    fn end_bound(&self) -> Bound<T> {
        Bound::Bounded(self.end)
    }
}

impl<T> IntervalBounds<T> for IntervalFull {
    open spec fn spec_start_bound(&self) -> Bound<T> {
        Bound::Unbounded
    }

    open spec fn spec_end_bound(&self) -> Bound<T> {
        Bound::Unbounded
    }

    fn start_bound(&self) -> Bound<T> {
        Bound::Unbounded
    }

    fn end_bound(&self) -> Bound<T> {
        Bound::Unbounded
    }
}

} // verus!
