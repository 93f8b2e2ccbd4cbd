use vstd::prelude::*;

use core::ops::{Range, RangeInclusive};

use vstd::std_specs::cmp::{PartialEqIs, PartialEqSpec, PartialOrdIs, PartialOrdSpec};

use crate::non_empty::NonEmpty;
use crate::relation::{Contains, Equals, Finishes, Meets, Overlaps, Precedes, Starts};
use crate::interval::{IntervalFrom, IntervalFull, IntervalTo};

verus! {

/// A (half-open) interval bounded inclusively below
/// and either exclusively or inclusively above.
///
/// - exclusively above (`start..end`) in discrete domains.
/// - inclusively above (`start..=end`) in continuous domains.
///
/// The interval `Interval { start, end }` contains all values with `start <= x < end`,
/// if `T` is a discrete domain, or `start <= x <= end`, if `T` is a continuous domain.
///
/// It is empty if `start >= end`, if `T` is a discrete domain,
/// or `start > end` if `T` is a continuous domain.
#[derive(Clone, Copy, Debug, Hash, Eq, PartialEq)]
pub struct Interval<T> {
    /// The lower bound of the interval (inclusive).
    pub start: T,
    /// The upper bound of the interval (exclusive, or inclusive).
    pub end: T,
}

impl<T> From<Range<T>> for Interval<T> {
    fn from(value: Range<T>) -> Self {
        let Range { start, end } = value;
        Self { start, end }
    }
}

impl<T> vstd::std_specs::convert::FromSpecImpl<Range<T>> for Interval<T> {
    open spec fn obeys_from_spec() -> bool {
        true
    }

    open spec fn from_spec(v: Range<T>) -> Self {
        Interval { start: v.start, end: v.end }
    }
}

impl<T> From<Interval<T>> for Range<T> {
    fn from(value: Interval<T>) -> Self {
        Range { start: value.start, end: value.end }
    }
}

impl<T> vstd::std_specs::convert::FromSpecImpl<Interval<T>> for Range<T> {
    open spec fn obeys_from_spec() -> bool {
        true
    }

    open spec fn from_spec(v: Interval<T>) -> Self {
        Range { start: v.start, end: v.end }
    }
}

impl<T: Copy> From<RangeInclusive<T>> for Interval<T> {
    fn from(value: RangeInclusive<T>) -> Self {
        let start = *value.start();
        let end = *value.end();
        Self { start, end }
    }
}

impl<T: Copy> vstd::std_specs::convert::FromSpecImpl<RangeInclusive<T>> for Interval<T> {
    open spec fn obeys_from_spec() -> bool {
        true
    }

    open spec fn from_spec(v: RangeInclusive<T>) -> Self {
        Interval { start: v@.start, end: v@.end }
    }
}

impl<T: Copy> From<Interval<T>> for RangeInclusive<T> {
    fn from(value: Interval<T>) -> (r: Self)
        ensures
            r@.start == value.start,
            r@.end == value.end,
    {
        RangeInclusive::new(value.start, value.end)
    }
}

impl<T: Copy> vstd::std_specs::convert::FromSpecImpl<Interval<T>> for RangeInclusive<T> {
    open spec fn obeys_from_spec() -> bool {
        false
    }

    open spec fn from_spec(v: Interval<T>) -> Self {
        choose|r: RangeInclusive<T>| r@.start == v.start && r@.end == v.end
    }
}

impl<T> Precedes<NonEmpty<IntervalFull>> for NonEmpty<Interval<T>> {

}

impl<T> Meets<NonEmpty<IntervalFull>> for NonEmpty<Interval<T>> {

}

impl<T> Overlaps<NonEmpty<IntervalFull>> for NonEmpty<Interval<T>> {

}

impl<T> Starts<NonEmpty<IntervalFull>> for NonEmpty<Interval<T>> {

}

impl<T> Contains<NonEmpty<IntervalFull>> for NonEmpty<Interval<T>> {
    fn is_contained_by(&self, other: &NonEmpty<IntervalFull>) -> (r: bool)
        ensures
            r == true,
    {
        true
    }
}

impl<T> Finishes<NonEmpty<IntervalFull>> for NonEmpty<Interval<T>> {

}

impl<T> Equals<NonEmpty<IntervalFull>> for NonEmpty<Interval<T>> {

}

impl<T> Precedes<NonEmpty<IntervalTo<T>>> for NonEmpty<Interval<T>> where T: PartialOrd {
    fn is_preceded_by(&self, other: &NonEmpty<IntervalTo<T>>) -> (r: bool)
        ensures
            T::obeys_partial_cmp_spec() ==> r == (other.0.end.is_lt(&self.0.start)),
    {
        other.0.end.lt(&self.0.start)
    }
}

impl<T> Meets<NonEmpty<IntervalTo<T>>> for NonEmpty<Interval<T>> where T: PartialOrd {
    fn is_met_by(&self, other: &NonEmpty<IntervalTo<T>>) -> (r: bool)
        ensures
            T::obeys_eq_spec() ==> r == (other.0.end.is_eq(&self.0.start)),
    {
        other.0.end.eq(&self.0.start)
    }
}

impl<T> Overlaps<NonEmpty<IntervalTo<T>>> for NonEmpty<Interval<T>> where T: PartialOrd {
    fn is_overlapped_by(&self, other: &NonEmpty<IntervalTo<T>>) -> (r: bool)
        ensures
            T::obeys_partial_cmp_spec() ==> r == (other.0.end.is_gt(&self.0.start) && other.0.end.is_lt(&self.0.end)),
    {
        other.0.end.gt(&self.0.start) && other.0.end.lt(&self.0.end)
    }
}

impl<T> Starts<NonEmpty<IntervalTo<T>>> for NonEmpty<Interval<T>> where T: PartialOrd {
    fn starts(&self, other: &NonEmpty<IntervalTo<T>>) -> (r: bool)
        ensures
            T::obeys_partial_cmp_spec() ==> r == (self.0.end.is_lt(&other.0.end)),
    {
        self.0.end.lt(&other.0.end)
    }
    fn is_started_by(&self, other: &NonEmpty<IntervalTo<T>>) -> (r: bool)
        ensures
            T::obeys_partial_cmp_spec() ==> r == (other.0.end.is_lt(&self.0.end)),
    {
        other.0.end.lt(&self.0.end)
    }
}

impl<T> Contains<NonEmpty<IntervalTo<T>>> for NonEmpty<Interval<T>> where T: PartialOrd {
    fn is_contained_by(&self, other: &NonEmpty<IntervalTo<T>>) -> (r: bool)
        ensures
            T::obeys_partial_cmp_spec() ==> r == (other.0.end.is_gt(&self.0.end)),
    {
        other.0.end.gt(&self.0.end)
    }
}

impl<T> Finishes<NonEmpty<IntervalTo<T>>> for NonEmpty<Interval<T>> where T: PartialOrd {
    fn finishes(&self, other: &NonEmpty<IntervalTo<T>>) -> (r: bool)
        ensures
            T::obeys_eq_spec() ==> r == (self.0.end.is_eq(&other.0.end)),
    {
        self.0.end.eq(&other.0.end)
    }
    fn is_finished_by(&self, other: &NonEmpty<IntervalTo<T>>) -> (r: bool)
        ensures
            T::obeys_eq_spec() ==> r == (other.0.end.is_eq(&self.0.end)),
    {
        other.0.end.eq(&self.0.end)
    }
}

impl<T> Equals<NonEmpty<IntervalTo<T>>> for NonEmpty<Interval<T>> {

}

impl<T> Precedes<NonEmpty<IntervalFrom<T>>> for NonEmpty<Interval<T>> where T: PartialOrd {
    fn precedes(&self, other: &NonEmpty<IntervalFrom<T>>) -> (r: bool)
        ensures
            T::obeys_partial_cmp_spec() ==> r == (self.0.end.is_lt(&other.0.start)),
    {
        self.0.end.lt(&other.0.start)
    }
}

impl<T> Meets<NonEmpty<IntervalFrom<T>>> for NonEmpty<Interval<T>> where T: PartialOrd {
    fn meets(&self, other: &NonEmpty<IntervalFrom<T>>) -> (r: bool)
        ensures
            T::obeys_eq_spec() ==> r == (self.0.end.is_eq(&other.0.start)),
    {
        self.0.end.eq(&other.0.start)
    }
}

impl<T> Overlaps<NonEmpty<IntervalFrom<T>>> for NonEmpty<Interval<T>> where T: PartialOrd {
    fn overlaps(&self, other: &NonEmpty<IntervalFrom<T>>) -> (r: bool)
        ensures
            T::obeys_partial_cmp_spec() ==> r == (self.0.start.is_lt(&other.0.start) && other.0.start.is_lt(&self.0.end)),
    {
        self.0.start.lt(&other.0.start) && other.0.start.lt(&self.0.end)
    }
}

impl<T> Starts<NonEmpty<IntervalFrom<T>>> for NonEmpty<Interval<T>> where T: PartialOrd {
    fn starts(&self, other: &NonEmpty<IntervalFrom<T>>) -> (r: bool)
        ensures
            T::obeys_eq_spec() ==> r == (self.0.start.is_eq(&other.0.start)),
    {
        self.0.start.eq(&other.0.start)
    }
}

impl<T> Contains<NonEmpty<IntervalFrom<T>>> for NonEmpty<Interval<T>> where T: PartialOrd {
    fn is_contained_by(&self, other: &NonEmpty<IntervalFrom<T>>) -> (r: bool)
        ensures
            T::obeys_partial_cmp_spec() ==> r == (other.0.start.is_lt(&self.0.start)),
    {
        other.0.start.lt(&self.0.start)
    }
}

impl<T> Finishes<NonEmpty<IntervalFrom<T>>> for NonEmpty<Interval<T>> where T: PartialOrd {
    fn finishes(&self, other: &NonEmpty<IntervalFrom<T>>) -> (r: bool)
        ensures
            T::obeys_partial_cmp_spec() ==> r == (self.0.start.is_gt(&other.0.start)),
    {
        self.0.start.gt(&other.0.start)
    }
    fn is_finished_by(&self, other: &NonEmpty<IntervalFrom<T>>) -> (r: bool)
        ensures
            T::obeys_partial_cmp_spec() ==> r == (other.0.start.is_gt(&self.0.start)),
    {
        other.0.start.gt(&self.0.start)
    }
}

impl<T> Equals<NonEmpty<IntervalFrom<T>>> for NonEmpty<Interval<T>> {

}

impl<T> Precedes<NonEmpty<Interval<T>>> for NonEmpty<Interval<T>> where T: PartialOrd {
    fn precedes(&self, other: &NonEmpty<Interval<T>>) -> (r: bool)
        ensures
            T::obeys_partial_cmp_spec() ==> r == (self.0.end.is_lt(&other.0.start)),
    {
        self.0.end.lt(&other.0.start)
    }
    fn is_preceded_by(&self, other: &NonEmpty<Interval<T>>) -> (r: bool)
        ensures
            T::obeys_partial_cmp_spec() ==> r == (other.0.end.is_lt(&self.0.start)),
    {
        other.0.end.lt(&self.0.start)
    }
}

impl<T> Meets<NonEmpty<Interval<T>>> for NonEmpty<Interval<T>> where T: PartialOrd {
    fn meets(&self, other: &NonEmpty<Interval<T>>) -> (r: bool)
        ensures
            T::obeys_eq_spec() ==> r == (self.0.end.is_eq(&other.0.start)),
    {
        self.0.end.eq(&other.0.start)
    }
    fn is_met_by(&self, other: &NonEmpty<Interval<T>>) -> (r: bool)
        ensures
            T::obeys_eq_spec() ==> r == (other.0.end.is_eq(&self.0.start)),
    {
        other.0.end.eq(&self.0.start)
    }
}

impl<T> Overlaps<NonEmpty<Interval<T>>> for NonEmpty<Interval<T>> where T: PartialOrd {
    fn overlaps(&self, other: &NonEmpty<Interval<T>>) -> (r: bool)
        ensures
            T::obeys_partial_cmp_spec() ==> r == (self.0.start.is_lt(&other.0.start) && other.0.start.is_lt(&self.0.end) && self.0.end.is_lt(&other.0.end)),
    {
        self.0.start.lt(&other.0.start) && other.0.start.lt(&self.0.end) && self.0.end.lt(&other.0.end)
    }
    fn is_overlapped_by(&self, other: &NonEmpty<Interval<T>>) -> (r: bool)
        ensures
            T::obeys_partial_cmp_spec() ==> r == (other.0.start.is_lt(&self.0.start) && self.0.start.is_lt(&other.0.end) && other.0.end.is_lt(&self.0.end)),
    {
        other.0.start.lt(&self.0.start) && self.0.start.lt(&other.0.end) && other.0.end.lt(&self.0.end)
    }
}

impl<T> Starts<NonEmpty<Interval<T>>> for NonEmpty<Interval<T>> where T: PartialOrd {
    fn starts(&self, other: &NonEmpty<Interval<T>>) -> (r: bool)
        ensures
            T::obeys_partial_cmp_spec() && T::obeys_eq_spec() ==> r == (self.0.start.is_eq(&other.0.start) && self.0.end.is_lt(&other.0.end)),
    {
        self.0.start.eq(&other.0.start) && self.0.end.lt(&other.0.end)
    }
    fn is_started_by(&self, other: &NonEmpty<Interval<T>>) -> (r: bool)
        ensures
            T::obeys_partial_cmp_spec() && T::obeys_eq_spec() ==> r == (other.0.start.is_eq(&self.0.start) && other.0.end.is_lt(&self.0.end)),
    {
        other.0.start.eq(&self.0.start) && other.0.end.lt(&self.0.end)
    }
}

impl<T> Contains<NonEmpty<Interval<T>>> for NonEmpty<Interval<T>> where T: PartialOrd {
    fn contains(&self, other: &NonEmpty<Interval<T>>) -> (r: bool)
        ensures
            T::obeys_partial_cmp_spec() ==> r == (self.0.start.is_lt(&other.0.start) && self.0.end.is_gt(&other.0.end)),
    {
        self.0.start.lt(&other.0.start) && self.0.end.gt(&other.0.end)
    }
    fn is_contained_by(&self, other: &NonEmpty<Interval<T>>) -> (r: bool)
        ensures
            T::obeys_partial_cmp_spec() ==> r == (other.0.start.is_lt(&self.0.start) && other.0.end.is_gt(&self.0.end)),
    {
        other.0.start.lt(&self.0.start) && other.0.end.gt(&self.0.end)
    }
}

impl<T> Finishes<NonEmpty<Interval<T>>> for NonEmpty<Interval<T>> where T: PartialOrd {
    fn finishes(&self, other: &NonEmpty<Interval<T>>) -> (r: bool)
        ensures
            T::obeys_partial_cmp_spec() && T::obeys_eq_spec() ==> r == (self.0.start.is_gt(&other.0.start) && self.0.end.is_eq(&other.0.end)),
    {
        self.0.start.gt(&other.0.start) && self.0.end.eq(&other.0.end)
    }
    fn is_finished_by(&self, other: &NonEmpty<Interval<T>>) -> (r: bool)
        ensures
            T::obeys_partial_cmp_spec() && T::obeys_eq_spec() ==> r == (other.0.start.is_gt(&self.0.start) && other.0.end.is_eq(&self.0.end)),
    {
        other.0.start.gt(&self.0.start) && other.0.end.eq(&self.0.end)
    }
}

impl<T> Equals<NonEmpty<Interval<T>>> for NonEmpty<Interval<T>> where T: PartialOrd {
    fn equals(&self, other: &NonEmpty<Interval<T>>) -> (r: bool)
        ensures
            T::obeys_eq_spec() ==> r == (self.0.start.is_eq(&other.0.start) && self.0.end.is_eq(&other.0.end)),
    {
        self.0.start.eq(&other.0.start) && self.0.end.eq(&other.0.end)
    }
}

} // verus!
