use vstd::prelude::*;

use core::ops::RangeFull;

use crate::non_empty::NonEmpty;
use crate::relation::{Contains, Equals, Finishes, Meets, Overlaps, Precedes, Starts};
use crate::interval::{Interval, IntervalFrom, IntervalTo};

verus! {

/// An unbounded interval (`..`).
#[derive(Clone, Copy, Debug, Hash, Eq, PartialEq, Structural)]
pub struct IntervalFull;

impl From<RangeFull> for IntervalFull {
    fn from(_value: RangeFull) -> Self {
        Self
    }
}

impl vstd::std_specs::convert::FromSpecImpl<RangeFull> for IntervalFull {
    open spec fn obeys_from_spec() -> bool {
        true
    }

    open spec fn from_spec(_v: RangeFull) -> Self {
        IntervalFull
    }
}

impl From<IntervalFull> for RangeFull {
    fn from(_value: IntervalFull) -> Self {
        RangeFull
    }
}

impl vstd::std_specs::convert::FromSpecImpl<IntervalFull> for RangeFull {
    open spec fn obeys_from_spec() -> bool {
        true
    }

    open spec fn from_spec(_v: IntervalFull) -> Self {
        RangeFull
    }
}

impl Precedes<NonEmpty<IntervalFull>> for NonEmpty<IntervalFull> {

}

impl Meets<NonEmpty<IntervalFull>> for NonEmpty<IntervalFull> {

}

impl Overlaps<NonEmpty<IntervalFull>> for NonEmpty<IntervalFull> {

}

impl Starts<NonEmpty<IntervalFull>> for NonEmpty<IntervalFull> {

}

impl Contains<NonEmpty<IntervalFull>> for NonEmpty<IntervalFull> {

}

impl Finishes<NonEmpty<IntervalFull>> for NonEmpty<IntervalFull> {

}

impl Equals<NonEmpty<IntervalFull>> for NonEmpty<IntervalFull> {
    fn equals(&self, _other: &NonEmpty<IntervalFull>) -> (r: bool)
        ensures
            r == true,
    {
        true
    }
}

impl<T> Precedes<NonEmpty<IntervalTo<T>>> for NonEmpty<IntervalFull> {

}

impl<T> Meets<NonEmpty<IntervalTo<T>>> for NonEmpty<IntervalFull> {

}

impl<T> Overlaps<NonEmpty<IntervalTo<T>>> for NonEmpty<IntervalFull> {

}

impl<T> Starts<NonEmpty<IntervalTo<T>>> for NonEmpty<IntervalFull> {

}

impl<T> Contains<NonEmpty<IntervalTo<T>>> for NonEmpty<IntervalFull> {

}

impl<T> Finishes<NonEmpty<IntervalTo<T>>> for NonEmpty<IntervalFull> {

}

impl<T> Equals<NonEmpty<IntervalTo<T>>> for NonEmpty<IntervalFull> {

}

impl<T> Precedes<NonEmpty<IntervalFrom<T>>> for NonEmpty<IntervalFull> {

}

impl<T> Meets<NonEmpty<IntervalFrom<T>>> for NonEmpty<IntervalFull> {

}

impl<T> Overlaps<NonEmpty<IntervalFrom<T>>> for NonEmpty<IntervalFull> {

}

impl<T> Starts<NonEmpty<IntervalFrom<T>>> for NonEmpty<IntervalFull> {

}

impl<T> Contains<NonEmpty<IntervalFrom<T>>> for NonEmpty<IntervalFull> {

}

impl<T> Finishes<NonEmpty<IntervalFrom<T>>> for NonEmpty<IntervalFull> {
    fn is_finished_by(&self, other: &NonEmpty<IntervalFrom<T>>) -> (r: bool)
        ensures
            r == true,
    {
        true
    }
}

impl<T> Equals<NonEmpty<IntervalFrom<T>>> for NonEmpty<IntervalFull> {

}

impl<T> Precedes<NonEmpty<Interval<T>>> for NonEmpty<IntervalFull> {

}

impl<T> Meets<NonEmpty<Interval<T>>> for NonEmpty<IntervalFull> {

}

impl<T> Overlaps<NonEmpty<Interval<T>>> for NonEmpty<IntervalFull> {

}

impl<T> Starts<NonEmpty<Interval<T>>> for NonEmpty<IntervalFull> {

}

impl<T> Contains<NonEmpty<Interval<T>>> for NonEmpty<IntervalFull> {
    fn contains(&self, _other: &NonEmpty<Interval<T>>) -> (r: bool)
        ensures
            r == true,
    {
        true
    }
}

impl<T> Finishes<NonEmpty<Interval<T>>> for NonEmpty<IntervalFull> {

}

impl<T> Equals<NonEmpty<Interval<T>>> for NonEmpty<IntervalFull> {

}

} // verus!
