use vstd::prelude::*;

use core::ops::{RangeTo, RangeToInclusive};

use vstd::std_specs::cmp::{PartialEqIs, PartialEqSpec, PartialOrdIs, PartialOrdSpec};

use crate::non_empty::NonEmpty;
use crate::relation::{Contains, Equals, Finishes, Meets, Overlaps, Precedes, Starts};
use crate::interval::{Interval, IntervalFrom, IntervalFull};

verus! {

/// An interval only bounded exclusively, or inclusively above (`..end`, or `..=end`).
///
/// The interval `..end` contains all values with `x < end`, if `T` is a discrete domain,
/// or `x <= end`, if `T` is a continuous domain.
#[derive(Clone, Copy, Debug, Hash, Eq, PartialEq)]
pub struct IntervalTo<T> {
    /// The upper bound of the interval (exclusive, or inclusive).
    pub end: T,
}

impl<T> From<RangeTo<T>> for IntervalTo<T> {
    fn from(value: RangeTo<T>) -> Self {
        Self { end: value.end }
    }
}

impl<T> vstd::std_specs::convert::FromSpecImpl<RangeTo<T>> for IntervalTo<T> {
    open spec fn obeys_from_spec() -> bool {
        true
    }

    open spec fn from_spec(v: RangeTo<T>) -> Self {
        IntervalTo { end: v.end }
    }
}

impl<T> From<IntervalTo<T>> for RangeTo<T> {
    fn from(value: IntervalTo<T>) -> Self {
        RangeTo { end: value.end }
    }
}

impl<T> vstd::std_specs::convert::FromSpecImpl<IntervalTo<T>> for RangeTo<T> {
    open spec fn obeys_from_spec() -> bool {
        true
    }

    open spec fn from_spec(v: IntervalTo<T>) -> Self {
        RangeTo { end: v.end }
    }
}

impl<T> From<RangeToInclusive<T>> for IntervalTo<T> {
    fn from(value: RangeToInclusive<T>) -> Self {
        let end = value.end;
        Self { end }
    }
}

impl<T> vstd::std_specs::convert::FromSpecImpl<RangeToInclusive<T>> for IntervalTo<T> {
    open spec fn obeys_from_spec() -> bool {
        true
    }

    open spec fn from_spec(v: RangeToInclusive<T>) -> Self {
        IntervalTo { end: v.end }
    }
}

impl<T> From<IntervalTo<T>> for RangeToInclusive<T> {
    fn from(value: IntervalTo<T>) -> Self {
        RangeToInclusive { end: value.end }
    }
}

impl<T> vstd::std_specs::convert::FromSpecImpl<IntervalTo<T>> for RangeToInclusive<T> {
    open spec fn obeys_from_spec() -> bool {
        true
    }

    open spec fn from_spec(v: IntervalTo<T>) -> Self {
        RangeToInclusive { end: v.end }
    }
}

impl<T> Precedes<NonEmpty<IntervalFull>> for NonEmpty<IntervalTo<T>> {

}

impl<T> Meets<NonEmpty<IntervalFull>> for NonEmpty<IntervalTo<T>> {

}

impl<T> Overlaps<NonEmpty<IntervalFull>> for NonEmpty<IntervalTo<T>> {

}

impl<T> Starts<NonEmpty<IntervalFull>> for NonEmpty<IntervalTo<T>> {

}

impl<T> Contains<NonEmpty<IntervalFull>> for NonEmpty<IntervalTo<T>> {

}

impl<T> Finishes<NonEmpty<IntervalFull>> for NonEmpty<IntervalTo<T>> {

}

impl<T> Equals<NonEmpty<IntervalFull>> for NonEmpty<IntervalTo<T>> {

}

impl<T> Precedes<NonEmpty<IntervalTo<T>>> for NonEmpty<IntervalTo<T>> {

}

impl<T> Meets<NonEmpty<IntervalTo<T>>> for NonEmpty<IntervalTo<T>> {

}

impl<T> Overlaps<NonEmpty<IntervalTo<T>>> for NonEmpty<IntervalTo<T>> {

}

impl<T> Starts<NonEmpty<IntervalTo<T>>> for NonEmpty<IntervalTo<T>> where T: PartialOrd {
    fn starts(&self, other: &NonEmpty<IntervalTo<T>>) -> (r: bool)
        ensures
            T::obeys_partial_cmp_spec() ==> r == (self.0.end.is_lt(&other.0.end)),
    {
        self.0.end.lt(&other.0.end)
    }
    fn is_started_by(&self, other: &NonEmpty<IntervalTo<T>>) -> (r: bool)
        ensures
            T::obeys_partial_cmp_spec() ==> r == (other.0.end.is_lt(&self.0.end)),
    {
        other.0.end.lt(&self.0.end)
    }
}

impl<T> Contains<NonEmpty<IntervalTo<T>>> for NonEmpty<IntervalTo<T>> {

}

impl<T> Finishes<NonEmpty<IntervalTo<T>>> for NonEmpty<IntervalTo<T>> {

}

impl<T> Equals<NonEmpty<IntervalTo<T>>> for NonEmpty<IntervalTo<T>> where T: PartialOrd {
    fn equals(&self, other: &NonEmpty<IntervalTo<T>>) -> (r: bool)
        ensures
            T::obeys_eq_spec() ==> r == (self.0.end.is_eq(&other.0.end)),
    {
        self.0.end.eq(&other.0.end)
    }
}

impl<T> Precedes<NonEmpty<IntervalFrom<T>>> for NonEmpty<IntervalTo<T>> where T: PartialOrd {
    fn precedes(&self, other: &NonEmpty<IntervalFrom<T>>) -> (r: bool)
        ensures
            T::obeys_partial_cmp_spec() ==> r == (self.0.end.is_lt(&other.0.start)),
    {
        self.0.end.lt(&other.0.start)
    }
}

impl<T> Meets<NonEmpty<IntervalFrom<T>>> for NonEmpty<IntervalTo<T>> where T: PartialOrd {
    fn meets(&self, other: &NonEmpty<IntervalFrom<T>>) -> (r: bool)
        ensures
            T::obeys_eq_spec() ==> r == (self.0.end.is_eq(&other.0.start)),
    {
        self.0.end.eq(&other.0.start)
    }
}

impl<T> Overlaps<NonEmpty<IntervalFrom<T>>> for NonEmpty<IntervalTo<T>> where T: PartialOrd {
    fn overlaps(&self, other: &NonEmpty<IntervalFrom<T>>) -> (r: bool)
        ensures
            T::obeys_partial_cmp_spec() ==> r == (self.0.end.is_gt(&other.0.start)),
    {
        self.0.end.gt(&other.0.start)
    }
}

impl<T> Starts<NonEmpty<IntervalFrom<T>>> for NonEmpty<IntervalTo<T>> {

}

impl<T> Contains<NonEmpty<IntervalFrom<T>>> for NonEmpty<IntervalTo<T>> {

}

impl<T> Finishes<NonEmpty<IntervalFrom<T>>> for NonEmpty<IntervalTo<T>> {

}

impl<T> Equals<NonEmpty<IntervalFrom<T>>> for NonEmpty<IntervalTo<T>> {

}

impl<T> Precedes<NonEmpty<Interval<T>>> for NonEmpty<IntervalTo<T>> where T: PartialOrd {
    fn precedes(&self, other: &NonEmpty<Interval<T>>) -> (r: bool)
        ensures
            T::obeys_partial_cmp_spec() ==> r == (self.0.end.is_lt(&other.0.start)),
    {
        self.0.end.lt(&other.0.start)
    }
}

impl<T> Meets<NonEmpty<Interval<T>>> for NonEmpty<IntervalTo<T>> where T: PartialOrd {
    fn meets(&self, other: &NonEmpty<Interval<T>>) -> (r: bool)
        ensures
            T::obeys_eq_spec() ==> r == (self.0.end.is_eq(&other.0.start)),
    {
        self.0.end.eq(&other.0.start)
    }
}

impl<T> Overlaps<NonEmpty<Interval<T>>> for NonEmpty<IntervalTo<T>> where T: PartialOrd {
    fn overlaps(&self, other: &NonEmpty<Interval<T>>) -> (r: bool)
        ensures
            T::obeys_partial_cmp_spec() ==> r == (self.0.end.is_gt(&other.0.start) && self.0.end.is_lt(&other.0.end)),
    {
        self.0.end.gt(&other.0.start) && self.0.end.lt(&other.0.end)
    }
}

impl<T> Starts<NonEmpty<Interval<T>>> for NonEmpty<IntervalTo<T>> where T: PartialOrd {
    fn is_started_by(&self, other: &NonEmpty<Interval<T>>) -> (r: bool)
        ensures
            T::obeys_partial_cmp_spec() ==> r == (other.0.end.is_lt(&self.0.end)),
    {
        other.0.end.lt(&self.0.end)
    }
}

impl<T> Contains<NonEmpty<Interval<T>>> for NonEmpty<IntervalTo<T>> where T: PartialOrd {
    fn contains(&self, other: &NonEmpty<Interval<T>>) -> (r: bool)
        ensures
            T::obeys_partial_cmp_spec() ==> r == (self.0.end.is_gt(&other.0.end)),
    {
        self.0.end.gt(&other.0.end)
    }
}

impl<T> Finishes<NonEmpty<Interval<T>>> for NonEmpty<IntervalTo<T>> where T: PartialOrd {
    fn is_finished_by(&self, other: &NonEmpty<Interval<T>>) -> (r: bool)
        ensures
            T::obeys_eq_spec() ==> r == (other.0.end.is_eq(&self.0.end)),
    {
        other.0.end.eq(&self.0.end)
    }
}

impl<T> Equals<NonEmpty<Interval<T>>> for NonEmpty<IntervalTo<T>> {

}

} // verus!
