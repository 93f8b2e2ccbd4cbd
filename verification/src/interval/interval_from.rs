use vstd::prelude::*;

use core::ops::RangeFrom;

use vstd::std_specs::cmp::{PartialEqIs, PartialEqSpec, PartialOrdIs, PartialOrdSpec};

use crate::non_empty::NonEmpty;
use crate::relation::{Contains, Equals, Finishes, Meets, Overlaps, Precedes, Starts};
use crate::interval::{Interval, IntervalFull, IntervalTo};

verus! {

/// An interval only bounded inclusively below (`start..`).
///
/// The `IntervalFrom { start }` contains all values with `x >= start`.
#[derive(Clone, Copy, Debug, Hash, Eq, PartialEq)]
pub struct IntervalFrom<T> {
    /// The lower bound of the interval (inclusive).
    pub start: T,
}

impl<T> From<RangeFrom<T>> for IntervalFrom<T> {
    fn from(value: RangeFrom<T>) -> Self {
        let RangeFrom { start } = value;
        Self { start }
    }
}

impl<T> vstd::std_specs::convert::FromSpecImpl<RangeFrom<T>> for IntervalFrom<T> {
    open spec fn obeys_from_spec() -> bool {
        true
    }

    open spec fn from_spec(v: RangeFrom<T>) -> Self {
        IntervalFrom { start: v.start }
    }
}

impl<T> From<IntervalFrom<T>> for RangeFrom<T> {
    fn from(value: IntervalFrom<T>) -> Self {
        let IntervalFrom { start } = value;
        RangeFrom { start }
    }
}

impl<T> vstd::std_specs::convert::FromSpecImpl<IntervalFrom<T>> for RangeFrom<T> {
    open spec fn obeys_from_spec() -> bool {
        true
    }

    open spec fn from_spec(v: IntervalFrom<T>) -> Self {
        RangeFrom { start: v.start }
    }
}

impl<T> Precedes<NonEmpty<IntervalFull>> for NonEmpty<IntervalFrom<T>> {

}

impl<T> Meets<NonEmpty<IntervalFull>> for NonEmpty<IntervalFrom<T>> {

}

impl<T> Overlaps<NonEmpty<IntervalFull>> for NonEmpty<IntervalFrom<T>> {

}

impl<T> Starts<NonEmpty<IntervalFull>> for NonEmpty<IntervalFrom<T>> {

}

impl<T> Contains<NonEmpty<IntervalFull>> for NonEmpty<IntervalFrom<T>> {

}

impl<T> Finishes<NonEmpty<IntervalFull>> for NonEmpty<IntervalFrom<T>> {
    fn finishes(&self, _other: &NonEmpty<IntervalFull>) -> (r: bool)
        ensures
            r == true,
    {
        true
    }
}

impl<T> Equals<NonEmpty<IntervalFull>> for NonEmpty<IntervalFrom<T>> {

}

impl<T> Precedes<NonEmpty<IntervalTo<T>>> for NonEmpty<IntervalFrom<T>> where T: PartialOrd {
    fn is_preceded_by(&self, other: &NonEmpty<IntervalTo<T>>) -> (r: bool)
        ensures
            T::obeys_partial_cmp_spec() ==> r == (other.0.end.is_lt(&self.0.start)),
    {
        other.0.end.lt(&self.0.start)
    }
}

impl<T> Meets<NonEmpty<IntervalTo<T>>> for NonEmpty<IntervalFrom<T>> where T: PartialOrd {
    fn is_met_by(&self, other: &NonEmpty<IntervalTo<T>>) -> (r: bool)
        ensures
            T::obeys_eq_spec() ==> r == (other.0.end.is_eq(&self.0.start)),
    {
        other.0.end.eq(&self.0.start)
    }
}

impl<T> Overlaps<NonEmpty<IntervalTo<T>>> for NonEmpty<IntervalFrom<T>> where T: PartialOrd {
    fn is_overlapped_by(&self, other: &NonEmpty<IntervalTo<T>>) -> (r: bool)
        ensures
            T::obeys_partial_cmp_spec() ==> r == (other.0.end.is_gt(&self.0.start)),
    {
        other.0.end.gt(&self.0.start)
    }
}

impl<T> Starts<NonEmpty<IntervalTo<T>>> for NonEmpty<IntervalFrom<T>> {

}

impl<T> Contains<NonEmpty<IntervalTo<T>>> for NonEmpty<IntervalFrom<T>> {

}

impl<T> Finishes<NonEmpty<IntervalTo<T>>> for NonEmpty<IntervalFrom<T>> {

}

impl<T> Equals<NonEmpty<IntervalTo<T>>> for NonEmpty<IntervalFrom<T>> {

}

impl<T> Precedes<NonEmpty<IntervalFrom<T>>> for NonEmpty<IntervalFrom<T>> {

}

impl<T> Meets<NonEmpty<IntervalFrom<T>>> for NonEmpty<IntervalFrom<T>> {

}

impl<T> Overlaps<NonEmpty<IntervalFrom<T>>> for NonEmpty<IntervalFrom<T>> {

}

impl<T> Starts<NonEmpty<IntervalFrom<T>>> for NonEmpty<IntervalFrom<T>> {

}

impl<T> Contains<NonEmpty<IntervalFrom<T>>> for NonEmpty<IntervalFrom<T>> {

}

impl<T> Finishes<NonEmpty<IntervalFrom<T>>> for NonEmpty<IntervalFrom<T>> where T: PartialOrd {
    fn finishes(&self, other: &NonEmpty<IntervalFrom<T>>) -> (r: bool)
        ensures
            T::obeys_partial_cmp_spec() ==> r == (self.0.start.is_gt(&other.0.start)),
    {
        self.0.start.gt(&other.0.start)
    }
    fn is_finished_by(&self, other: &NonEmpty<IntervalFrom<T>>) -> (r: bool)
        ensures
            T::obeys_partial_cmp_spec() ==> r == (other.0.start.is_gt(&self.0.start)),
    {
        other.0.start.gt(&self.0.start)
    }
}

impl<T> Equals<NonEmpty<IntervalFrom<T>>> for NonEmpty<IntervalFrom<T>> where T: PartialOrd {
    fn equals(&self, other: &NonEmpty<IntervalFrom<T>>) -> (r: bool)
        ensures
            T::obeys_eq_spec() ==> r == (self.0.start.is_eq(&other.0.start)),
    {
        self.0.start.eq(&other.0.start)
    }
}

impl<T> Precedes<NonEmpty<Interval<T>>> for NonEmpty<IntervalFrom<T>> where T: PartialOrd {
    fn is_preceded_by(&self, other: &NonEmpty<Interval<T>>) -> (r: bool)
        ensures
            T::obeys_partial_cmp_spec() ==> r == (other.0.end.is_lt(&self.0.start)),
    {
        other.0.end.lt(&self.0.start)
    }
}

impl<T> Meets<NonEmpty<Interval<T>>> for NonEmpty<IntervalFrom<T>> where T: PartialOrd {
    fn is_met_by(&self, other: &NonEmpty<Interval<T>>) -> (r: bool)
        ensures
            T::obeys_eq_spec() ==> r == (other.0.end.is_eq(&self.0.start)),
    {
        other.0.end.eq(&self.0.start)
    }
}

impl<T> Overlaps<NonEmpty<Interval<T>>> for NonEmpty<IntervalFrom<T>> where T: PartialOrd {
    fn is_overlapped_by(&self, other: &NonEmpty<Interval<T>>) -> (r: bool)
        ensures
            T::obeys_partial_cmp_spec() ==> r == (other.0.start.is_lt(&self.0.start) && self.0.start.is_lt(&other.0.end)),
    {
        other.0.start.lt(&self.0.start) && self.0.start.lt(&other.0.end)
    }
}

impl<T> Starts<NonEmpty<Interval<T>>> for NonEmpty<IntervalFrom<T>> where T: PartialOrd {
    fn is_started_by(&self, other: &NonEmpty<Interval<T>>) -> (r: bool)
        ensures
            T::obeys_eq_spec() ==> r == (other.0.start.is_eq(&self.0.start)),
    {
        other.0.start.eq(&self.0.start)
    }
}

impl<T> Contains<NonEmpty<Interval<T>>> for NonEmpty<IntervalFrom<T>> where T: PartialOrd {
    fn contains(&self, other: &NonEmpty<Interval<T>>) -> (r: bool)
        ensures
            T::obeys_partial_cmp_spec() ==> r == (self.0.start.is_lt(&other.0.start)),
    {
        self.0.start.lt(&other.0.start)
    }
}

impl<T> Finishes<NonEmpty<Interval<T>>> for NonEmpty<IntervalFrom<T>> where T: PartialOrd {
    fn finishes(&self, other: &NonEmpty<Interval<T>>) -> (r: bool)
        ensures
            T::obeys_partial_cmp_spec() ==> r == (self.0.start.is_gt(&other.0.start)),
    {
        self.0.start.gt(&other.0.start)
    }
    fn is_finished_by(&self, other: &NonEmpty<Interval<T>>) -> (r: bool)
        ensures
            T::obeys_partial_cmp_spec() ==> r == (other.0.start.is_gt(&self.0.start)),
    {
        other.0.start.gt(&self.0.start)
    }
}

impl<T> Equals<NonEmpty<Interval<T>>> for NonEmpty<IntervalFrom<T>> where T: PartialOrd {
    fn equals(&self, other: &NonEmpty<Interval<T>>) -> (r: bool)
        ensures
            T::obeys_eq_spec() ==> r == (self.0.start.is_eq(&other.0.start)),
    {
        self.0.start.eq(&other.0.start)
    }
}

} // verus!
