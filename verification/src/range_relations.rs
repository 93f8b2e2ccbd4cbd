//! Allen relations over the standard library's plain range types.
//!
//! A range with a missing side stands for an interval that is unbounded on
//! that side; since plain ranges carry no bound tags, the missing side is read
//! as the extreme value of the domain. Every method demands that both ranges
//! are valid, i.e. non-empty in the sense of [`crate::ValidateInterval`].

use vstd::prelude::*;

use vstd::std_specs::cmp::{PartialEqIs, PartialEqSpec, PartialOrdIs, PartialOrdSpec};

use core::ops::{Range, RangeFrom, RangeFull, RangeInclusive, RangeTo, RangeToInclusive};

use crate::bounded::Bounded;
use crate::validator::{IntervalValidator, ValidateInterval};

verus! {

/// Extension methods for Allen relations over plain ranges.
pub trait RangeRelations<R, T>: Sized where T: PartialOrd + Bounded {
    /// Returns `true` iff `self` precedes `other`.
    ///
    /// ```plain
    /// self:  ┌────────┐
    /// other:            └────────┘
    /// ```
    fn precedes(&self, _other: &R) -> (r: bool) where
        IntervalValidator: ValidateInterval<Self> + ValidateInterval<R>,

        requires
            (IntervalValidator).valid_spec(self),
            (IntervalValidator).valid_spec(_other),
        default_ensures
            r == false,
    {
        false
    }

    /// Returns `true` iff `self` is preceded by `other`.
    ///
    /// ```plain
    /// self:             ┌────────┐
    /// other: └────────┘
    /// ```
    fn is_preceded_by(&self, _other: &R) -> (r: bool) where
        IntervalValidator: ValidateInterval<Self> + ValidateInterval<R>,

        requires
            (IntervalValidator).valid_spec(self),
            (IntervalValidator).valid_spec(_other),
        default_ensures
            r == false,
    {
        false
    }

    /// Returns `true` iff `self` meets `other`.
    ///
    /// ```plain
    /// self:  ┌────────┐
    /// other:          └────────┘
    /// ```
    fn meets(&self, _other: &R) -> (r: bool) where
        IntervalValidator: ValidateInterval<Self> + ValidateInterval<R>,

        requires
            (IntervalValidator).valid_spec(self),
            (IntervalValidator).valid_spec(_other),
        default_ensures
            r == false,
    {
        false
    }

    /// Returns `true` iff `self` is met by `other`.
    ///
    /// ```plain
    /// self:           ┌────────┐
    /// other: └────────┘
    /// ```
    fn is_met_by(&self, _other: &R) -> (r: bool) where
        IntervalValidator: ValidateInterval<Self> + ValidateInterval<R>,

        requires
            (IntervalValidator).valid_spec(self),
            (IntervalValidator).valid_spec(_other),
        default_ensures
            r == false,
    {
        false
    }

    /// Returns `true` iff `self` overlaps `other`.
    ///
    /// ```plain
    /// self:  ┌────────┐
    /// other:      └────────┘
    /// ```
    fn overlaps(&self, _other: &R) -> (r: bool) where
        IntervalValidator: ValidateInterval<Self> + ValidateInterval<R>,

        requires
            (IntervalValidator).valid_spec(self),
            (IntervalValidator).valid_spec(_other),
        default_ensures
            r == false,
    {
        false
    }

    /// Returns `true` iff `self` is overlapped by `other`.
    ///
    /// ```plain
    /// self:       ┌────────┐
    /// other: └────────┘
    /// ```
    fn is_overlapped_by(&self, _other: &R) -> (r: bool) where
        IntervalValidator: ValidateInterval<Self> + ValidateInterval<R>,

        requires
            (IntervalValidator).valid_spec(self),
            (IntervalValidator).valid_spec(_other),
        default_ensures
            r == false,
    {
        false
    }

    /// Returns `true` iff `self` starts `other`.
    ///
    /// ```plain
    /// self:  ┌────────┐
    /// other: └────────────────┘
    /// ```
    fn starts(&self, _other: &R) -> (r: bool) where
        IntervalValidator: ValidateInterval<Self> + ValidateInterval<R>,

        requires
            (IntervalValidator).valid_spec(self),
            (IntervalValidator).valid_spec(_other),
        default_ensures
            r == false,
    {
        false
    }

    /// Returns `true` iff `self` is started by `other`.
    ///
    /// ```plain
    /// self:  ┌────────────────┐
    /// other: └────────┘
    /// ```
    fn is_started_by(&self, _other: &R) -> (r: bool) where
        IntervalValidator: ValidateInterval<Self> + ValidateInterval<R>,

        requires
            (IntervalValidator).valid_spec(self),
            (IntervalValidator).valid_spec(_other),
        default_ensures
            r == false,
    {
        false
    }

    /// Returns `true` iff `self` contains `other`.
    ///
    /// ```plain
    /// self:  ┌────────────────┐
    /// other:     └────────┘
    /// ```
    fn encloses(&self, _other: &R) -> (r: bool) where
        IntervalValidator: ValidateInterval<Self> + ValidateInterval<R>,

        requires
            (IntervalValidator).valid_spec(self),
            (IntervalValidator).valid_spec(_other),
        default_ensures
            r == false,
    {
        false
    }

    /// Returns `true` iff `self` is contained by `other`.
    ///
    /// ```plain
    /// self:      ┌────────┐
    /// other: └────────────────┘
    /// ```
    fn is_enclosed_by(&self, _other: &R) -> (r: bool) where
        IntervalValidator: ValidateInterval<Self> + ValidateInterval<R>,

        requires
            (IntervalValidator).valid_spec(self),
            (IntervalValidator).valid_spec(_other),
        default_ensures
            r == false,
    {
        false
    }

    /// Returns `true` iff `self` finishes `other`.
    ///
    /// ```plain
    /// self:          ┌────────┐
    /// other: └────────────────┘
    /// ```
    fn finishes(&self, _other: &R) -> (r: bool) where
        IntervalValidator: ValidateInterval<Self> + ValidateInterval<R>,

        requires
            (IntervalValidator).valid_spec(self),
            (IntervalValidator).valid_spec(_other),
        default_ensures
            r == false,
    {
        false
    }

    /// Returns `true` iff `self` is finished by `other`.
    ///
    /// ```plain
    /// self:  ┌────────────────┐
    /// other:         └────────┘
    /// ```
    fn is_finished_by(&self, _other: &R) -> (r: bool) where
        IntervalValidator: ValidateInterval<Self> + ValidateInterval<R>,

        requires
            (IntervalValidator).valid_spec(self),
            (IntervalValidator).valid_spec(_other),
        default_ensures
            r == false,
    {
        false
    }

    /// Returns `true` iff `self` equals `other`.
    ///
    /// ```plain
    /// self:  ┌────────┐
    /// other: └────────┘
    /// ```
    fn equals(&self, _other: &R) -> (r: bool) where
        IntervalValidator: ValidateInterval<Self> + ValidateInterval<R>,

        requires
            (IntervalValidator).valid_spec(self),
            (IntervalValidator).valid_spec(_other),
        default_ensures
            r == false,
    {
        false
    }

}

impl<T> RangeRelations<RangeFull, T> for RangeFull where T: PartialOrd + Bounded {
    fn equals(&self, _other: &RangeFull) -> (r: bool) where
        IntervalValidator: ValidateInterval<Self> + ValidateInterval<RangeFull>,
    {
        true
    }
}

impl<T> RangeRelations<RangeTo<T>, T> for RangeFull where T: PartialOrd + Bounded {
    fn starts(&self, other: &RangeTo<T>) -> (r: bool) where
        IntervalValidator: ValidateInterval<Self> + ValidateInterval<RangeTo<T>>,

        ensures
            T::obeys_partial_cmp_spec() ==> r == (T::spec_max_value().is_lt(&other.end)),
    {
        let max = T::max_value();
        max.lt(&other.end)
    }

    fn is_started_by(&self, other: &RangeTo<T>) -> (r: bool) where
        IntervalValidator: ValidateInterval<Self> + ValidateInterval<RangeTo<T>>,

        ensures
            T::obeys_partial_cmp_spec() ==> r == (other.end.is_lt(&T::spec_max_value())),
    {
        let max = T::max_value();
        other.end.lt(&max)
    }

    fn equals(&self, other: &RangeTo<T>) -> (r: bool) where
        IntervalValidator: ValidateInterval<Self> + ValidateInterval<RangeTo<T>>,

        ensures
            T::obeys_eq_spec() ==> r == (T::spec_max_value().is_eq(&other.end)),
    {
        let max = T::max_value();
        max.eq(&other.end)
    }
}

impl<T> RangeRelations<RangeToInclusive<T>, T> for RangeFull where T: PartialOrd + Bounded {
    fn starts(&self, other: &RangeToInclusive<T>) -> (r: bool) where
        IntervalValidator: ValidateInterval<Self> + ValidateInterval<RangeToInclusive<T>>,

        ensures
            T::obeys_partial_cmp_spec() ==> r == (T::spec_max_value().is_lt(&other.end)),
    {
        let max = T::max_value();
        max.lt(&other.end)
    }

    fn is_started_by(&self, other: &RangeToInclusive<T>) -> (r: bool) where
        IntervalValidator: ValidateInterval<Self> + ValidateInterval<RangeToInclusive<T>>,

        ensures
            T::obeys_partial_cmp_spec() ==> r == (other.end.is_lt(&T::spec_max_value())),
    {
        let max = T::max_value();
        other.end.lt(&max)
    }

    fn equals(&self, other: &RangeToInclusive<T>) -> (r: bool) where
        IntervalValidator: ValidateInterval<Self> + ValidateInterval<RangeToInclusive<T>>,

        ensures
            T::obeys_eq_spec() ==> r == (T::spec_max_value().is_eq(&other.end)),
    {
        let max = T::max_value();
        max.eq(&other.end)
    }
}

impl<T> RangeRelations<RangeFrom<T>, T> for RangeFull where T: PartialOrd + Bounded {
    fn finishes(&self, other: &RangeFrom<T>) -> (r: bool) where
        IntervalValidator: ValidateInterval<Self> + ValidateInterval<RangeFrom<T>>,

        ensures
            T::obeys_partial_cmp_spec() ==> r == (T::spec_min_value().is_lt(&other.start)),
    {
        let min = T::min_value();
        min.lt(&other.start)
    }

    fn is_finished_by(&self, other: &RangeFrom<T>) -> (r: bool) where
        IntervalValidator: ValidateInterval<Self> + ValidateInterval<RangeFrom<T>>,

        ensures
            T::obeys_partial_cmp_spec() ==> r == (other.start.is_gt(&T::spec_min_value())),
    {
        let min = T::min_value();
        other.start.gt(&min)
    }

    fn equals(&self, other: &RangeFrom<T>) -> (r: bool) where
        IntervalValidator: ValidateInterval<Self> + ValidateInterval<RangeFrom<T>>,

        ensures
            T::obeys_eq_spec() ==> r == (T::spec_min_value().is_eq(&other.start)),
    {
        let min = T::min_value();
        min.eq(&other.start)
    }
}

impl<T> RangeRelations<Range<T>, T> for RangeFull where T: PartialOrd + Bounded {
    fn is_met_by(&self, other: &Range<T>) -> (r: bool) where
        IntervalValidator: ValidateInterval<Self> + ValidateInterval<Range<T>>,

        ensures
            T::obeys_eq_spec() ==> r == (other.end.is_eq(&T::spec_min_value())),
    {
        let min = T::min_value();
        other.end.eq(&min)
    }

    fn is_started_by(&self, other: &Range<T>) -> (r: bool) where
        IntervalValidator: ValidateInterval<Self> + ValidateInterval<Range<T>>,

        ensures
            T::obeys_partial_cmp_spec() && T::obeys_eq_spec() ==> r == (other.start.is_eq(&T::spec_min_value()) && other.end.is_lt(&T::spec_max_value())),
    {
        let min = T::min_value();
        let max = T::max_value();
        other.start.eq(&min) && other.end.lt(&max)
    }

    fn encloses(&self, other: &Range<T>) -> (r: bool) where
        IntervalValidator: ValidateInterval<Self> + ValidateInterval<Range<T>>,

        ensures
            T::obeys_partial_cmp_spec() ==> r == (T::spec_min_value().is_lt(&other.start) && T::spec_max_value().is_gt(&other.end)),
    {
        let min = T::min_value();
        let max = T::max_value();
        min.lt(&other.start) && max.gt(&other.end)
    }

    fn is_finished_by(&self, other: &Range<T>) -> (r: bool) where
        IntervalValidator: ValidateInterval<Self> + ValidateInterval<Range<T>>,

        ensures
            T::obeys_partial_cmp_spec() && T::obeys_eq_spec() ==> r == (other.start.is_gt(&T::spec_min_value()) && other.end.is_eq(&T::spec_max_value())),
    {
        let min = T::min_value();
        let max = T::max_value();
        other.start.gt(&min) && other.end.eq(&max)
    }

    fn equals(&self, other: &Range<T>) -> (r: bool) where
        IntervalValidator: ValidateInterval<Self> + ValidateInterval<Range<T>>,

        ensures
            T::obeys_eq_spec() ==> r == (T::spec_min_value().is_eq(&other.start) && T::spec_max_value().is_eq(&other.end)),
    {
        let min = T::min_value();
        let max = T::max_value();
        min.eq(&other.start) && max.eq(&other.end)
    }
}

impl<T> RangeRelations<RangeInclusive<T>, T> for RangeFull where T: PartialOrd + Bounded {
    fn is_started_by(&self, other: &RangeInclusive<T>) -> (r: bool) where
        IntervalValidator: ValidateInterval<Self> + ValidateInterval<RangeInclusive<T>>,

        ensures
            T::obeys_partial_cmp_spec() && T::obeys_eq_spec() ==> r == (other@.start.is_eq(&T::spec_min_value()) && other@.end.is_lt(&T::spec_max_value())),
    {
        let min = T::min_value();
        let max = T::max_value();
        other.start().eq(&min) && other.end().lt(&max)
    }

    fn encloses(&self, other: &RangeInclusive<T>) -> (r: bool) where
        IntervalValidator: ValidateInterval<Self> + ValidateInterval<RangeInclusive<T>>,

        ensures
            T::obeys_partial_cmp_spec() ==> r == (T::spec_min_value().is_lt(&other@.start) && T::spec_max_value().is_gt(&other@.end)),
    {
        let min = T::min_value();
        let max = T::max_value();
        min.lt(other.start()) && max.gt(other.end())
    }

    fn is_finished_by(&self, other: &RangeInclusive<T>) -> (r: bool) where
        IntervalValidator: ValidateInterval<Self> + ValidateInterval<RangeInclusive<T>>,

        ensures
            T::obeys_partial_cmp_spec() && T::obeys_eq_spec() ==> r == (other@.start.is_gt(&T::spec_min_value()) && other@.end.is_eq(&T::spec_max_value())),
    {
        let min = T::min_value();
        let max = T::max_value();
        other.start().gt(&min) && other.end().eq(&max)
    }

    fn equals(&self, other: &RangeInclusive<T>) -> (r: bool) where
        IntervalValidator: ValidateInterval<Self> + ValidateInterval<RangeInclusive<T>>,

        ensures
            T::obeys_eq_spec() ==> r == (T::spec_min_value().is_eq(&other@.start) && T::spec_max_value().is_eq(&other@.end)),
    {
        let min = T::min_value();
        let max = T::max_value();
        min.eq(other.start()) && max.eq(other.end())
    }
}

impl<T> RangeRelations<RangeFull, T> for RangeTo<T> where T: PartialOrd + Bounded {
    fn starts(&self, other: &RangeFull) -> (r: bool) where
        IntervalValidator: ValidateInterval<Self> + ValidateInterval<RangeFull>,

        ensures
            T::obeys_partial_cmp_spec() ==> r == (self.end.is_lt(&T::spec_max_value())),
    {
        let max = T::max_value();
        self.end.lt(&max)
    }

    fn is_started_by(&self, other: &RangeFull) -> (r: bool) where
        IntervalValidator: ValidateInterval<Self> + ValidateInterval<RangeFull>,

        ensures
            T::obeys_partial_cmp_spec() ==> r == (T::spec_max_value().is_lt(&self.end)),
    {
        let max = T::max_value();
        max.lt(&self.end)
    }

    fn equals(&self, other: &RangeFull) -> (r: bool) where
        IntervalValidator: ValidateInterval<Self> + ValidateInterval<RangeFull>,

        ensures
            T::obeys_eq_spec() ==> r == (self.end.is_eq(&T::spec_max_value())),
    {
        let max = T::max_value();
        self.end.eq(&max)
    }
}

impl<T> RangeRelations<RangeTo<T>, T> for RangeTo<T> where T: PartialOrd + Bounded {
    fn starts(&self, other: &RangeTo<T>) -> (r: bool) where
        IntervalValidator: ValidateInterval<Self> + ValidateInterval<RangeTo<T>>,

        ensures
            T::obeys_partial_cmp_spec() ==> r == (self.end.is_lt(&other.end)),
    {
        self.end.lt(&other.end)
    }

    fn is_started_by(&self, other: &RangeTo<T>) -> (r: bool) where
        IntervalValidator: ValidateInterval<Self> + ValidateInterval<RangeTo<T>>,

        ensures
            T::obeys_partial_cmp_spec() ==> r == (other.end.is_lt(&self.end)),
    {
        other.end.lt(&self.end)
    }

    fn equals(&self, other: &RangeTo<T>) -> (r: bool) where
        IntervalValidator: ValidateInterval<Self> + ValidateInterval<RangeTo<T>>,

        ensures
            T::obeys_eq_spec() ==> r == (self.end.is_eq(&other.end)),
    {
        self.end.eq(&other.end)
    }
}

impl<T> RangeRelations<RangeFrom<T>, T> for RangeTo<T> where T: PartialOrd + Bounded {
    fn precedes(&self, other: &RangeFrom<T>) -> (r: bool) where
        IntervalValidator: ValidateInterval<Self> + ValidateInterval<RangeFrom<T>>,

        ensures
            T::obeys_partial_cmp_spec() ==> r == (self.end.is_lt(&other.start)),
    {
        self.end.lt(&other.start)
    }

    fn meets(&self, other: &RangeFrom<T>) -> (r: bool) where
        IntervalValidator: ValidateInterval<Self> + ValidateInterval<RangeFrom<T>>,

        ensures
            T::obeys_eq_spec() ==> r == (self.end.is_eq(&other.start)),
    {
        self.end.eq(&other.start)
    }

    fn overlaps(&self, other: &RangeFrom<T>) -> (r: bool) where
        IntervalValidator: ValidateInterval<Self> + ValidateInterval<RangeFrom<T>>,

        ensures
            T::obeys_partial_cmp_spec() ==> r == (self.end.is_gt(&other.start) && self.end.is_lt(&T::spec_max_value())),
    {
        let max = T::max_value();
        self.end.gt(&other.start) && self.end.lt(&max)
    }

    fn is_finished_by(&self, other: &RangeFrom<T>) -> (r: bool) where
        IntervalValidator: ValidateInterval<Self> + ValidateInterval<RangeFrom<T>>,

        ensures
            T::obeys_partial_cmp_spec() && T::obeys_eq_spec() ==> r == (other.start.is_gt(&T::spec_min_value()) && T::spec_max_value().is_eq(&self.end)),
    {
        let min = T::min_value();
        let max = T::max_value();
        other.start.gt(&min) && max.eq(&self.end)
    }

    fn equals(&self, other: &RangeFrom<T>) -> (r: bool) where
        IntervalValidator: ValidateInterval<Self> + ValidateInterval<RangeFrom<T>>,

        ensures
            T::obeys_eq_spec() ==> r == (T::spec_min_value().is_eq(&other.start) && self.end.is_eq(&T::spec_max_value())),
    {
        let min = T::min_value();
        let max = T::max_value();
        min.eq(&other.start) && self.end.eq(&max)
    }
}

impl<T> RangeRelations<Range<T>, T> for RangeTo<T> where T: PartialOrd + Bounded {
    fn precedes(&self, other: &Range<T>) -> (r: bool) where
        IntervalValidator: ValidateInterval<Self> + ValidateInterval<Range<T>>,

        ensures
            T::obeys_partial_cmp_spec() ==> r == (self.end.is_lt(&other.start)),
    {
        self.end.lt(&other.start)
    }

    fn meets(&self, other: &Range<T>) -> (r: bool) where
        IntervalValidator: ValidateInterval<Self> + ValidateInterval<Range<T>>,

        ensures
            T::obeys_eq_spec() ==> r == (self.end.is_eq(&other.start)),
    {
        self.end.eq(&other.start)
    }

    fn is_met_by(&self, other: &Range<T>) -> (r: bool) where
        IntervalValidator: ValidateInterval<Self> + ValidateInterval<Range<T>>,

        ensures
            T::obeys_eq_spec() ==> r == (other.end.is_eq(&T::spec_min_value())),
    {
        let min = T::min_value();
        other.end.eq(&min)
    }

    fn overlaps(&self, other: &Range<T>) -> (r: bool) where
        IntervalValidator: ValidateInterval<Self> + ValidateInterval<Range<T>>,

        ensures
            T::obeys_partial_cmp_spec() ==> r == (self.end.is_gt(&other.start) && self.end.is_lt(&other.end)),
    {
        self.end.gt(&other.start) && self.end.lt(&other.end)
    }

    fn is_started_by(&self, other: &Range<T>) -> (r: bool) where
        IntervalValidator: ValidateInterval<Self> + ValidateInterval<Range<T>>,

        ensures
            T::obeys_partial_cmp_spec() && T::obeys_eq_spec() ==> r == (other.start.is_eq(&T::spec_min_value()) && other.end.is_lt(&self.end)),
    {
        let min = T::min_value();
        other.start.eq(&min) && other.end.lt(&self.end)
    }

    fn is_finished_by(&self, other: &Range<T>) -> (r: bool) where
        IntervalValidator: ValidateInterval<Self> + ValidateInterval<Range<T>>,

        ensures
            T::obeys_partial_cmp_spec() && T::obeys_eq_spec() ==> r == (other.start.is_gt(&T::spec_min_value()) && other.end.is_eq(&self.end)),
    {
        let min = T::min_value();
        other.start.gt(&min) && other.end.eq(&self.end)
    }

    fn equals(&self, other: &Range<T>) -> (r: bool) where
        IntervalValidator: ValidateInterval<Self> + ValidateInterval<Range<T>>,

        ensures
            T::obeys_eq_spec() ==> r == (T::spec_min_value().is_eq(&other.start) && self.end.is_eq(&other.end)),
    {
        let min = T::min_value();
        min.eq(&other.start) && self.end.eq(&other.end)
    }
}

impl<T> RangeRelations<RangeFull, T> for RangeToInclusive<T> where T: PartialOrd + Bounded {
    fn starts(&self, other: &RangeFull) -> (r: bool) where
        IntervalValidator: ValidateInterval<Self> + ValidateInterval<RangeFull>,

        ensures
            T::obeys_partial_cmp_spec() ==> r == (self.end.is_lt(&T::spec_max_value())),
    {
        let max = T::max_value();
        self.end.lt(&max)
    }

    fn is_started_by(&self, other: &RangeFull) -> (r: bool) where
        IntervalValidator: ValidateInterval<Self> + ValidateInterval<RangeFull>,

        ensures
            T::obeys_partial_cmp_spec() ==> r == (T::spec_max_value().is_lt(&self.end)),
    {
        let max = T::max_value();
        max.lt(&self.end)
    }

    fn equals(&self, other: &RangeFull) -> (r: bool) where
        IntervalValidator: ValidateInterval<Self> + ValidateInterval<RangeFull>,

        ensures
            T::obeys_eq_spec() ==> r == (self.end.is_eq(&T::spec_max_value())),
    {
        let max = T::max_value();
        self.end.eq(&max)
    }
}

impl<T> RangeRelations<RangeToInclusive<T>, T> for RangeToInclusive<T> where T: PartialOrd + Bounded {
    fn starts(&self, other: &RangeToInclusive<T>) -> (r: bool) where
        IntervalValidator: ValidateInterval<Self> + ValidateInterval<RangeToInclusive<T>>,

        ensures
            T::obeys_partial_cmp_spec() ==> r == (self.end.is_lt(&other.end)),
    {
        self.end.lt(&other.end)
    }

    fn is_started_by(&self, other: &RangeToInclusive<T>) -> (r: bool) where
        IntervalValidator: ValidateInterval<Self> + ValidateInterval<RangeToInclusive<T>>,

        ensures
            T::obeys_partial_cmp_spec() ==> r == (other.end.is_lt(&self.end)),
    {
        other.end.lt(&self.end)
    }

    fn equals(&self, other: &RangeToInclusive<T>) -> (r: bool) where
        IntervalValidator: ValidateInterval<Self> + ValidateInterval<RangeToInclusive<T>>,

        ensures
            T::obeys_eq_spec() ==> r == (self.end.is_eq(&other.end)),
    {
        self.end.eq(&other.end)
    }
}

impl<T> RangeRelations<RangeFrom<T>, T> for RangeToInclusive<T> where T: PartialOrd + Bounded {
    fn precedes(&self, other: &RangeFrom<T>) -> (r: bool) where
        IntervalValidator: ValidateInterval<Self> + ValidateInterval<RangeFrom<T>>,

        ensures
            T::obeys_partial_cmp_spec() ==> r == (self.end.is_lt(&other.start)),
    {
        self.end.lt(&other.start)
    }

    fn meets(&self, other: &RangeFrom<T>) -> (r: bool) where
        IntervalValidator: ValidateInterval<Self> + ValidateInterval<RangeFrom<T>>,

        ensures
            T::obeys_eq_spec() ==> r == (self.end.is_eq(&other.start)),
    {
        self.end.eq(&other.start)
    }

    fn overlaps(&self, other: &RangeFrom<T>) -> (r: bool) where
        IntervalValidator: ValidateInterval<Self> + ValidateInterval<RangeFrom<T>>,

        ensures
            T::obeys_partial_cmp_spec() ==> r == (self.end.is_gt(&other.start) && self.end.is_lt(&T::spec_max_value())),
    {
        let max = T::max_value();
        self.end.gt(&other.start) && self.end.lt(&max)
    }

    fn is_finished_by(&self, other: &RangeFrom<T>) -> (r: bool) where
        IntervalValidator: ValidateInterval<Self> + ValidateInterval<RangeFrom<T>>,

        ensures
            T::obeys_partial_cmp_spec() && T::obeys_eq_spec() ==> r == (other.start.is_gt(&T::spec_min_value()) && T::spec_max_value().is_eq(&self.end)),
    {
        let min = T::min_value();
        let max = T::max_value();
        other.start.gt(&min) && max.eq(&self.end)
    }

    fn equals(&self, other: &RangeFrom<T>) -> (r: bool) where
        IntervalValidator: ValidateInterval<Self> + ValidateInterval<RangeFrom<T>>,

        ensures
            T::obeys_eq_spec() ==> r == (T::spec_min_value().is_eq(&other.start) && self.end.is_eq(&T::spec_max_value())),
    {
        let min = T::min_value();
        let max = T::max_value();
        min.eq(&other.start) && self.end.eq(&max)
    }
}

impl<T> RangeRelations<RangeInclusive<T>, T> for RangeToInclusive<T> where T: PartialOrd + Bounded {
    fn precedes(&self, other: &RangeInclusive<T>) -> (r: bool) where
        IntervalValidator: ValidateInterval<Self> + ValidateInterval<RangeInclusive<T>>,

        ensures
            T::obeys_partial_cmp_spec() ==> r == (self.end.is_lt(&other@.start)),
    {
        self.end.lt(other.start())
    }

    fn is_preceded_by(&self, other: &RangeInclusive<T>) -> (r: bool) where
        IntervalValidator: ValidateInterval<Self> + ValidateInterval<RangeInclusive<T>>,

        ensures
            T::obeys_partial_cmp_spec() ==> r == (other@.end.is_lt(&T::spec_min_value())),
    {
        let min = T::min_value();
        other.end().lt(&min)
    }

    fn meets(&self, other: &RangeInclusive<T>) -> (r: bool) where
        IntervalValidator: ValidateInterval<Self> + ValidateInterval<RangeInclusive<T>>,

        ensures
            T::obeys_eq_spec() ==> r == (self.end.is_eq(&other@.start)),
    {
        self.end.eq(other.start())
    }

    fn is_met_by(&self, other: &RangeInclusive<T>) -> (r: bool) where
        IntervalValidator: ValidateInterval<Self> + ValidateInterval<RangeInclusive<T>>,

        ensures
            T::obeys_eq_spec() ==> r == (other@.end.is_eq(&T::spec_min_value())),
    {
        let min = T::min_value();
        other.end().eq(&min)
    }

    fn overlaps(&self, other: &RangeInclusive<T>) -> (r: bool) where
        IntervalValidator: ValidateInterval<Self> + ValidateInterval<RangeInclusive<T>>,

        ensures
            T::obeys_partial_cmp_spec() ==> r == (self.end.is_gt(&other@.start) && self.end.is_lt(&other@.end)),
    {
        self.end.gt(other.start()) && self.end.lt(other.end())
    }

    fn is_started_by(&self, other: &RangeInclusive<T>) -> (r: bool) where
        IntervalValidator: ValidateInterval<Self> + ValidateInterval<RangeInclusive<T>>,

        ensures
            T::obeys_partial_cmp_spec() && T::obeys_eq_spec() ==> r == (other@.start.is_eq(&T::spec_min_value()) && other@.end.is_lt(&self.end)),
    {
        let min = T::min_value();
        other.start().eq(&min) && other.end().lt(&self.end)
    }

    fn encloses(&self, other: &RangeInclusive<T>) -> (r: bool) where
        IntervalValidator: ValidateInterval<Self> + ValidateInterval<RangeInclusive<T>>,

        ensures
            T::obeys_partial_cmp_spec() ==> r == (T::spec_min_value().is_lt(&other@.start) && self.end.is_gt(&other@.end)),
    {
        let min = T::min_value();
        min.lt(other.start()) && self.end.gt(other.end())
    }

    fn is_finished_by(&self, other: &RangeInclusive<T>) -> (r: bool) where
        IntervalValidator: ValidateInterval<Self> + ValidateInterval<RangeInclusive<T>>,

        ensures
            T::obeys_partial_cmp_spec() && T::obeys_eq_spec() ==> r == (other@.start.is_gt(&T::spec_min_value()) && other@.end.is_eq(&self.end)),
    {
        let min = T::min_value();
        other.start().gt(&min) && other.end().eq(&self.end)
    }

    fn equals(&self, other: &RangeInclusive<T>) -> (r: bool) where
        IntervalValidator: ValidateInterval<Self> + ValidateInterval<RangeInclusive<T>>,

        ensures
            T::obeys_eq_spec() ==> r == (T::spec_min_value().is_eq(&other@.start) && self.end.is_eq(&other@.end)),
    {
        let min = T::min_value();
        min.eq(other.start()) && self.end.eq(other.end())
    }
}

impl<T> RangeRelations<RangeFull, T> for RangeFrom<T> where T: PartialOrd + Bounded {
    fn finishes(&self, other: &RangeFull) -> (r: bool) where
        IntervalValidator: ValidateInterval<Self> + ValidateInterval<RangeFull>,

        ensures
            T::obeys_partial_cmp_spec() ==> r == (self.start.is_gt(&T::spec_min_value())),
    {
        let min = T::min_value();
        self.start.gt(&min)
    }

    fn is_finished_by(&self, other: &RangeFull) -> (r: bool) where
        IntervalValidator: ValidateInterval<Self> + ValidateInterval<RangeFull>,

        ensures
            T::obeys_partial_cmp_spec() ==> r == (T::spec_min_value().is_lt(&self.start)),
    {
        let min = T::min_value();
        min.lt(&self.start)
    }

    fn equals(&self, other: &RangeFull) -> (r: bool) where
        IntervalValidator: ValidateInterval<Self> + ValidateInterval<RangeFull>,

        ensures
            T::obeys_eq_spec() ==> r == (self.start.is_eq(&T::spec_min_value())),
    {
        let min = T::min_value();
        self.start.eq(&min)
    }
}

impl<T> RangeRelations<RangeTo<T>, T> for RangeFrom<T> where T: PartialOrd + Bounded {
    fn is_preceded_by(&self, other: &RangeTo<T>) -> (r: bool) where
        IntervalValidator: ValidateInterval<Self> + ValidateInterval<RangeTo<T>>,

        ensures
            T::obeys_partial_cmp_spec() ==> r == (other.end.is_lt(&self.start)),
    {
        other.end.lt(&self.start)
    }

    fn is_met_by(&self, other: &RangeTo<T>) -> (r: bool) where
        IntervalValidator: ValidateInterval<Self> + ValidateInterval<RangeTo<T>>,

        ensures
            T::obeys_eq_spec() ==> r == (other.end.is_eq(&self.start)),
    {
        other.end.eq(&self.start)
    }

    fn is_overlapped_by(&self, other: &RangeTo<T>) -> (r: bool) where
        IntervalValidator: ValidateInterval<Self> + ValidateInterval<RangeTo<T>>,

        ensures
            T::obeys_partial_cmp_spec() ==> r == (other.end.is_gt(&self.start) && other.end.is_lt(&T::spec_max_value())),
    {
        let max = T::max_value();
        other.end.gt(&self.start) && other.end.lt(&max)
    }

    fn finishes(&self, other: &RangeTo<T>) -> (r: bool) where
        IntervalValidator: ValidateInterval<Self> + ValidateInterval<RangeTo<T>>,

        ensures
            T::obeys_partial_cmp_spec() && T::obeys_eq_spec() ==> r == (self.start.is_gt(&T::spec_min_value()) && T::spec_max_value().is_eq(&other.end)),
    {
        let min = T::min_value();
        let max = T::max_value();
        self.start.gt(&min) && max.eq(&other.end)
    }

    fn equals(&self, other: &RangeTo<T>) -> (r: bool) where
        IntervalValidator: ValidateInterval<Self> + ValidateInterval<RangeTo<T>>,

        ensures
            T::obeys_eq_spec() ==> r == (self.start.is_eq(&T::spec_min_value()) && T::spec_max_value().is_eq(&other.end)),
    {
        let min = T::min_value();
        let max = T::max_value();
        self.start.eq(&min) && max.eq(&other.end)
    }
}

impl<T> RangeRelations<RangeToInclusive<T>, T> for RangeFrom<T> where T: PartialOrd + Bounded {
    fn is_preceded_by(&self, other: &RangeToInclusive<T>) -> (r: bool) where
        IntervalValidator: ValidateInterval<Self> + ValidateInterval<RangeToInclusive<T>>,

        ensures
            T::obeys_partial_cmp_spec() ==> r == (other.end.is_lt(&self.start)),
    {
        other.end.lt(&self.start)
    }

    fn is_met_by(&self, other: &RangeToInclusive<T>) -> (r: bool) where
        IntervalValidator: ValidateInterval<Self> + ValidateInterval<RangeToInclusive<T>>,

        ensures
            T::obeys_eq_spec() ==> r == (other.end.is_eq(&self.start)),
    {
        other.end.eq(&self.start)
    }

    fn is_overlapped_by(&self, other: &RangeToInclusive<T>) -> (r: bool) where
        IntervalValidator: ValidateInterval<Self> + ValidateInterval<RangeToInclusive<T>>,

        ensures
            T::obeys_partial_cmp_spec() ==> r == (other.end.is_gt(&self.start) && other.end.is_lt(&T::spec_max_value())),
    {
        let max = T::max_value();
        other.end.gt(&self.start) && other.end.lt(&max)
    }

    fn finishes(&self, other: &RangeToInclusive<T>) -> (r: bool) where
        IntervalValidator: ValidateInterval<Self> + ValidateInterval<RangeToInclusive<T>>,

        ensures
            T::obeys_partial_cmp_spec() && T::obeys_eq_spec() ==> r == (self.start.is_gt(&T::spec_min_value()) && T::spec_max_value().is_eq(&other.end)),
    {
        let min = T::min_value();
        let max = T::max_value();
        self.start.gt(&min) && max.eq(&other.end)
    }

    fn equals(&self, other: &RangeToInclusive<T>) -> (r: bool) where
        IntervalValidator: ValidateInterval<Self> + ValidateInterval<RangeToInclusive<T>>,

        ensures
            T::obeys_eq_spec() ==> r == (self.start.is_eq(&T::spec_min_value()) && T::spec_max_value().is_eq(&other.end)),
    {
        let min = T::min_value();
        let max = T::max_value();
        self.start.eq(&min) && max.eq(&other.end)
    }
}

impl<T> RangeRelations<RangeFrom<T>, T> for RangeFrom<T> where T: PartialOrd + Bounded {
    fn finishes(&self, other: &RangeFrom<T>) -> (r: bool) where
        IntervalValidator: ValidateInterval<Self> + ValidateInterval<RangeFrom<T>>,

        ensures
            T::obeys_partial_cmp_spec() ==> r == (self.start.is_gt(&other.start)),
    {
        self.start.gt(&other.start)
    }

    fn is_finished_by(&self, other: &RangeFrom<T>) -> (r: bool) where
        IntervalValidator: ValidateInterval<Self> + ValidateInterval<RangeFrom<T>>,

        ensures
            T::obeys_partial_cmp_spec() ==> r == (other.start.is_gt(&self.start)),
    {
        other.start.gt(&self.start)
    }

    fn equals(&self, other: &RangeFrom<T>) -> (r: bool) where
        IntervalValidator: ValidateInterval<Self> + ValidateInterval<RangeFrom<T>>,

        ensures
            T::obeys_eq_spec() ==> r == (self.start.is_eq(&other.start)),
    {
        self.start.eq(&other.start)
    }
}

impl<T> RangeRelations<Range<T>, T> for RangeFrom<T> where T: PartialOrd + Bounded {
    fn is_preceded_by(&self, other: &Range<T>) -> (r: bool) where
        IntervalValidator: ValidateInterval<Self> + ValidateInterval<Range<T>>,

        ensures
            T::obeys_partial_cmp_spec() ==> r == (other.end.is_lt(&self.start)),
    {
        other.end.lt(&self.start)
    }

    fn is_met_by(&self, other: &Range<T>) -> (r: bool) where
        IntervalValidator: ValidateInterval<Self> + ValidateInterval<Range<T>>,

        ensures
            T::obeys_eq_spec() ==> r == (other.end.is_eq(&self.start)),
    {
        other.end.eq(&self.start)
    }

    fn is_overlapped_by(&self, other: &Range<T>) -> (r: bool) where
        IntervalValidator: ValidateInterval<Self> + ValidateInterval<Range<T>>,

        ensures
            T::obeys_partial_cmp_spec() ==> r == (other.start.is_lt(&self.start) && self.start.is_lt(&other.end) && other.end.is_lt(&T::spec_max_value())),
    {
        let max = T::max_value();
        other.start.lt(&self.start) && self.start.lt(&other.end) && other.end.lt(&max)
    }

    fn is_started_by(&self, other: &Range<T>) -> (r: bool) where
        IntervalValidator: ValidateInterval<Self> + ValidateInterval<Range<T>>,

        ensures
            T::obeys_partial_cmp_spec() && T::obeys_eq_spec() ==> r == (other.start.is_eq(&self.start) && other.end.is_lt(&T::spec_max_value())),
    {
        let max = T::max_value();
        other.start.eq(&self.start) && other.end.lt(&max)
    }

    fn encloses(&self, other: &Range<T>) -> (r: bool) where
        IntervalValidator: ValidateInterval<Self> + ValidateInterval<Range<T>>,

        ensures
            T::obeys_partial_cmp_spec() ==> r == (self.start.is_lt(&other.start) && T::spec_max_value().is_gt(&other.end)),
    {
        let max = T::max_value();
        self.start.lt(&other.start) && max.gt(&other.end)
    }

    fn finishes(&self, other: &Range<T>) -> (r: bool) where
        IntervalValidator: ValidateInterval<Self> + ValidateInterval<Range<T>>,

        ensures
            T::obeys_partial_cmp_spec() && T::obeys_eq_spec() ==> r == (self.start.is_gt(&other.start) && T::spec_max_value().is_eq(&other.end)),
    {
        let max = T::max_value();
        self.start.gt(&other.start) && max.eq(&other.end)
    }

    fn is_finished_by(&self, other: &Range<T>) -> (r: bool) where
        IntervalValidator: ValidateInterval<Self> + ValidateInterval<Range<T>>,

        ensures
            T::obeys_partial_cmp_spec() && T::obeys_eq_spec() ==> r == (other.start.is_gt(&self.start) && other.end.is_eq(&T::spec_max_value())),
    {
        let max = T::max_value();
        other.start.gt(&self.start) && other.end.eq(&max)
    }

    fn equals(&self, other: &Range<T>) -> (r: bool) where
        IntervalValidator: ValidateInterval<Self> + ValidateInterval<Range<T>>,

        ensures
            T::obeys_eq_spec() ==> r == (self.start.is_eq(&other.start) && T::spec_max_value().is_eq(&other.end)),
    {
        let max = T::max_value();
        self.start.eq(&other.start) && max.eq(&other.end)
    }
}

impl<T> RangeRelations<RangeInclusive<T>, T> for RangeFrom<T> where T: PartialOrd + Bounded {
    fn is_preceded_by(&self, other: &RangeInclusive<T>) -> (r: bool) where
        IntervalValidator: ValidateInterval<Self> + ValidateInterval<RangeInclusive<T>>,

        ensures
            T::obeys_partial_cmp_spec() ==> r == (other@.end.is_lt(&self.start)),
    {
        other.end().lt(&self.start)
    }

    fn is_met_by(&self, other: &RangeInclusive<T>) -> (r: bool) where
        IntervalValidator: ValidateInterval<Self> + ValidateInterval<RangeInclusive<T>>,

        ensures
            T::obeys_eq_spec() ==> r == (other@.end.is_eq(&self.start)),
    {
        other.end().eq(&self.start)
    }

    fn is_overlapped_by(&self, other: &RangeInclusive<T>) -> (r: bool) where
        IntervalValidator: ValidateInterval<Self> + ValidateInterval<RangeInclusive<T>>,

        ensures
            T::obeys_partial_cmp_spec() ==> r == (other@.start.is_lt(&self.start) && self.start.is_lt(&other@.end) && other@.end.is_lt(&T::spec_max_value())),
    {
        let max = T::max_value();
        other.start().lt(&self.start) && self.start.lt(other.end()) && other.end().lt(&max)
    }

    fn is_started_by(&self, other: &RangeInclusive<T>) -> (r: bool) where
        IntervalValidator: ValidateInterval<Self> + ValidateInterval<RangeInclusive<T>>,

        ensures
            T::obeys_partial_cmp_spec() && T::obeys_eq_spec() ==> r == (other@.start.is_eq(&self.start) && other@.end.is_lt(&T::spec_max_value())),
    {
        let max = T::max_value();
        other.start().eq(&self.start) && other.end().lt(&max)
    }

    fn encloses(&self, other: &RangeInclusive<T>) -> (r: bool) where
        IntervalValidator: ValidateInterval<Self> + ValidateInterval<RangeInclusive<T>>,

        ensures
            T::obeys_partial_cmp_spec() ==> r == (self.start.is_lt(&other@.start) && T::spec_max_value().is_gt(&other@.end)),
    {
        let max = T::max_value();
        self.start.lt(other.start()) && max.gt(other.end())
    }

    fn finishes(&self, other: &RangeInclusive<T>) -> (r: bool) where
        IntervalValidator: ValidateInterval<Self> + ValidateInterval<RangeInclusive<T>>,

        ensures
            T::obeys_partial_cmp_spec() && T::obeys_eq_spec() ==> r == (self.start.is_gt(&other@.start) && T::spec_max_value().is_eq(&other@.end)),
    {
        let max = T::max_value();
        self.start.gt(other.start()) && max.eq(other.end())
    }

    fn is_finished_by(&self, other: &RangeInclusive<T>) -> (r: bool) where
        IntervalValidator: ValidateInterval<Self> + ValidateInterval<RangeInclusive<T>>,

        ensures
            T::obeys_partial_cmp_spec() && T::obeys_eq_spec() ==> r == (other@.start.is_gt(&self.start) && other@.end.is_eq(&T::spec_max_value())),
    {
        let max = T::max_value();
        other.start().gt(&self.start) && other.end().eq(&max)
    }

    fn equals(&self, other: &RangeInclusive<T>) -> (r: bool) where
        IntervalValidator: ValidateInterval<Self> + ValidateInterval<RangeInclusive<T>>,

        ensures
            T::obeys_eq_spec() ==> r == (self.start.is_eq(&other@.start) && T::spec_max_value().is_eq(&other@.end)),
    {
        let max = T::max_value();
        self.start.eq(other.start()) && max.eq(other.end())
    }
}

impl<T> RangeRelations<RangeFull, T> for Range<T> where T: PartialOrd + Bounded {
    fn meets(&self, other: &RangeFull) -> (r: bool) where
        IntervalValidator: ValidateInterval<Self> + ValidateInterval<RangeFull>,

        ensures
            T::obeys_eq_spec() ==> r == (self.end.is_eq(&T::spec_min_value())),
    {
        let min = T::min_value();
        self.end.eq(&min)
    }

    fn starts(&self, other: &RangeFull) -> (r: bool) where
        IntervalValidator: ValidateInterval<Self> + ValidateInterval<RangeFull>,

        ensures
            T::obeys_partial_cmp_spec() && T::obeys_eq_spec() ==> r == (self.start.is_eq(&T::spec_min_value()) && self.end.is_lt(&T::spec_max_value())),
    {
        let min = T::min_value();
        let max = T::max_value();
        self.start.eq(&min) && self.end.lt(&max)
    }

    fn is_enclosed_by(&self, other: &RangeFull) -> (r: bool) where
        IntervalValidator: ValidateInterval<Self> + ValidateInterval<RangeFull>,

        ensures
            T::obeys_partial_cmp_spec() ==> r == (T::spec_min_value().is_lt(&self.start) && T::spec_max_value().is_gt(&self.end)),
    {
        let min = T::min_value();
        let max = T::max_value();
        min.lt(&self.start) && max.gt(&self.end)
    }

    fn finishes(&self, other: &RangeFull) -> (r: bool) where
        IntervalValidator: ValidateInterval<Self> + ValidateInterval<RangeFull>,

        ensures
            T::obeys_partial_cmp_spec() && T::obeys_eq_spec() ==> r == (self.start.is_gt(&T::spec_min_value()) && self.end.is_eq(&T::spec_max_value())),
    {
        let min = T::min_value();
        let max = T::max_value();
        self.start.gt(&min) && self.end.eq(&max)
    }

    fn equals(&self, other: &RangeFull) -> (r: bool) where
        IntervalValidator: ValidateInterval<Self> + ValidateInterval<RangeFull>,

        ensures
            T::obeys_eq_spec() ==> r == (self.start.is_eq(&T::spec_min_value()) && self.end.is_eq(&T::spec_max_value())),
    {
        let min = T::min_value();
        let max = T::max_value();
        self.start.eq(&min) && self.end.eq(&max)
    }
}

impl<T> RangeRelations<RangeTo<T>, T> for Range<T> where T: PartialOrd + Bounded {
    fn is_preceded_by(&self, other: &RangeTo<T>) -> (r: bool) where
        IntervalValidator: ValidateInterval<Self> + ValidateInterval<RangeTo<T>>,

        ensures
            T::obeys_partial_cmp_spec() ==> r == (other.end.is_lt(&self.start)),
    {
        other.end.lt(&self.start)
    }

    fn meets(&self, other: &RangeTo<T>) -> (r: bool) where
        IntervalValidator: ValidateInterval<Self> + ValidateInterval<RangeTo<T>>,

        ensures
            T::obeys_eq_spec() ==> r == (self.end.is_eq(&T::spec_min_value())),
    {
        let min = T::min_value();
        self.end.eq(&min)
    }

    fn is_met_by(&self, other: &RangeTo<T>) -> (r: bool) where
        IntervalValidator: ValidateInterval<Self> + ValidateInterval<RangeTo<T>>,

        ensures
            T::obeys_eq_spec() ==> r == (other.end.is_eq(&self.start)),
    {
        other.end.eq(&self.start)
    }

    fn is_overlapped_by(&self, other: &RangeTo<T>) -> (r: bool) where
        IntervalValidator: ValidateInterval<Self> + ValidateInterval<RangeTo<T>>,

        ensures
            T::obeys_partial_cmp_spec() ==> r == (other.end.is_gt(&self.start) && other.end.is_lt(&self.end)),
    {
        other.end.gt(&self.start) && other.end.lt(&self.end)
    }

    fn starts(&self, other: &RangeTo<T>) -> (r: bool) where
        IntervalValidator: ValidateInterval<Self> + ValidateInterval<RangeTo<T>>,

        ensures
            T::obeys_partial_cmp_spec() && T::obeys_eq_spec() ==> r == (self.start.is_eq(&T::spec_min_value()) && self.end.is_lt(&other.end)),
    {
        let min = T::min_value();
        self.start.eq(&min) && self.end.lt(&other.end)
    }

    fn finishes(&self, other: &RangeTo<T>) -> (r: bool) where
        IntervalValidator: ValidateInterval<Self> + ValidateInterval<RangeTo<T>>,

        ensures
            T::obeys_partial_cmp_spec() && T::obeys_eq_spec() ==> r == (self.start.is_gt(&T::spec_min_value()) && self.end.is_eq(&other.end)),
    {
        let min = T::min_value();
        self.start.gt(&min) && self.end.eq(&other.end)
    }

    fn equals(&self, other: &RangeTo<T>) -> (r: bool) where
        IntervalValidator: ValidateInterval<Self> + ValidateInterval<RangeTo<T>>,

        ensures
            T::obeys_eq_spec() ==> r == (self.start.is_eq(&T::spec_min_value()) && self.end.is_eq(&other.end)),
    {
        let min = T::min_value();
        self.start.eq(&min) && self.end.eq(&other.end)
    }
}

impl<T> RangeRelations<RangeFrom<T>, T> for Range<T> where T: PartialOrd + Bounded {
    fn precedes(&self, other: &RangeFrom<T>) -> (r: bool) where
        IntervalValidator: ValidateInterval<Self> + ValidateInterval<RangeFrom<T>>,

        ensures
            T::obeys_partial_cmp_spec() ==> r == (self.end.is_lt(&other.start)),
    {
        self.end.lt(&other.start)
    }

    fn meets(&self, other: &RangeFrom<T>) -> (r: bool) where
        IntervalValidator: ValidateInterval<Self> + ValidateInterval<RangeFrom<T>>,

        ensures
            T::obeys_eq_spec() ==> r == (self.end.is_eq(&other.start)),
    {
        self.end.eq(&other.start)
    }

    fn overlaps(&self, other: &RangeFrom<T>) -> (r: bool) where
        IntervalValidator: ValidateInterval<Self> + ValidateInterval<RangeFrom<T>>,

        ensures
            T::obeys_partial_cmp_spec() ==> r == (self.start.is_lt(&other.start) && other.start.is_lt(&self.end) && self.end.is_lt(&T::spec_max_value())),
    {
        let max = T::max_value();
        self.start.lt(&other.start) && other.start.lt(&self.end) && self.end.lt(&max)
    }

    fn starts(&self, other: &RangeFrom<T>) -> (r: bool) where
        IntervalValidator: ValidateInterval<Self> + ValidateInterval<RangeFrom<T>>,

        ensures
            T::obeys_partial_cmp_spec() && T::obeys_eq_spec() ==> r == (self.start.is_eq(&other.start) && self.end.is_lt(&T::spec_max_value())),
    {
        let max = T::max_value();
        self.start.eq(&other.start) && self.end.lt(&max)
    }

    fn is_enclosed_by(&self, other: &RangeFrom<T>) -> (r: bool) where
        IntervalValidator: ValidateInterval<Self> + ValidateInterval<RangeFrom<T>>,

        ensures
            T::obeys_partial_cmp_spec() ==> r == (other.start.is_lt(&self.start) && T::spec_max_value().is_gt(&self.end)),
    {
        let max = T::max_value();
        other.start.lt(&self.start) && max.gt(&self.end)
    }

    fn finishes(&self, other: &RangeFrom<T>) -> (r: bool) where
        IntervalValidator: ValidateInterval<Self> + ValidateInterval<RangeFrom<T>>,

        ensures
            T::obeys_partial_cmp_spec() && T::obeys_eq_spec() ==> r == (self.start.is_gt(&other.start) && self.end.is_eq(&T::spec_max_value())),
    {
        let max = T::max_value();
        self.start.gt(&other.start) && self.end.eq(&max)
    }

    fn is_finished_by(&self, other: &RangeFrom<T>) -> (r: bool) where
        IntervalValidator: ValidateInterval<Self> + ValidateInterval<RangeFrom<T>>,

        ensures
            T::obeys_partial_cmp_spec() && T::obeys_eq_spec() ==> r == (other.start.is_gt(&self.start) && T::spec_max_value().is_eq(&self.end)),
    {
        let max = T::max_value();
        other.start.gt(&self.start) && max.eq(&self.end)
    }

    fn equals(&self, other: &RangeFrom<T>) -> (r: bool) where
        IntervalValidator: ValidateInterval<Self> + ValidateInterval<RangeFrom<T>>,

        ensures
            T::obeys_eq_spec() ==> r == (self.start.is_eq(&other.start) && self.end.is_eq(&T::spec_max_value())),
    {
        let max = T::max_value();
        self.start.eq(&other.start) && self.end.eq(&max)
    }
}

impl<T> RangeRelations<Range<T>, T> for Range<T> where T: PartialOrd + Bounded {
    fn precedes(&self, other: &Range<T>) -> (r: bool) where
        IntervalValidator: ValidateInterval<Self> + ValidateInterval<Range<T>>,

        ensures
            T::obeys_partial_cmp_spec() ==> r == (self.end.is_lt(&other.start)),
    {
        self.end.lt(&other.start)
    }

    fn is_preceded_by(&self, other: &Range<T>) -> (r: bool) where
        IntervalValidator: ValidateInterval<Self> + ValidateInterval<Range<T>>,

        ensures
            T::obeys_partial_cmp_spec() ==> r == (other.end.is_lt(&self.start)),
    {
        other.end.lt(&self.start)
    }

    fn meets(&self, other: &Range<T>) -> (r: bool) where
        IntervalValidator: ValidateInterval<Self> + ValidateInterval<Range<T>>,

        ensures
            T::obeys_eq_spec() ==> r == (self.end.is_eq(&other.start)),
    {
        self.end.eq(&other.start)
    }

    fn is_met_by(&self, other: &Range<T>) -> (r: bool) where
        IntervalValidator: ValidateInterval<Self> + ValidateInterval<Range<T>>,

        ensures
            T::obeys_eq_spec() ==> r == (other.end.is_eq(&self.start)),
    {
        other.end.eq(&self.start)
    }

    fn overlaps(&self, other: &Range<T>) -> (r: bool) where
        IntervalValidator: ValidateInterval<Self> + ValidateInterval<Range<T>>,

        ensures
            T::obeys_partial_cmp_spec() ==> r == (self.start.is_lt(&other.start) && other.start.is_lt(&self.end) && self.end.is_lt(&other.end)),
    {
        self.start.lt(&other.start) && other.start.lt(&self.end) && self.end.lt(&other.end)
    }

    fn is_overlapped_by(&self, other: &Range<T>) -> (r: bool) where
        IntervalValidator: ValidateInterval<Self> + ValidateInterval<Range<T>>,

        ensures
            T::obeys_partial_cmp_spec() ==> r == (other.start.is_lt(&self.start) && self.start.is_lt(&other.end) && other.end.is_lt(&self.end)),
    {
        other.start.lt(&self.start) && self.start.lt(&other.end) && other.end.lt(&self.end)
    }

    fn starts(&self, other: &Range<T>) -> (r: bool) where
        IntervalValidator: ValidateInterval<Self> + ValidateInterval<Range<T>>,

        ensures
            T::obeys_partial_cmp_spec() && T::obeys_eq_spec() ==> r == (self.start.is_eq(&other.start) && self.end.is_lt(&other.end)),
    {
        self.start.eq(&other.start) && self.end.lt(&other.end)
    }

    fn is_started_by(&self, other: &Range<T>) -> (r: bool) where
        IntervalValidator: ValidateInterval<Self> + ValidateInterval<Range<T>>,

        ensures
            T::obeys_partial_cmp_spec() && T::obeys_eq_spec() ==> r == (other.start.is_eq(&self.start) && other.end.is_lt(&self.end)),
    {
        other.start.eq(&self.start) && other.end.lt(&self.end)
    }

    fn encloses(&self, other: &Range<T>) -> (r: bool) where
        IntervalValidator: ValidateInterval<Self> + ValidateInterval<Range<T>>,

        ensures
            T::obeys_partial_cmp_spec() ==> r == (self.start.is_lt(&other.start) && self.end.is_gt(&other.end)),
    {
        self.start.lt(&other.start) && self.end.gt(&other.end)
    }

    fn is_enclosed_by(&self, other: &Range<T>) -> (r: bool) where
        IntervalValidator: ValidateInterval<Self> + ValidateInterval<Range<T>>,

        ensures
            T::obeys_partial_cmp_spec() ==> r == (other.start.is_lt(&self.start) && other.end.is_gt(&self.end)),
    {
        other.start.lt(&self.start) && other.end.gt(&self.end)
    }

    fn finishes(&self, other: &Range<T>) -> (r: bool) where
        IntervalValidator: ValidateInterval<Self> + ValidateInterval<Range<T>>,

        ensures
            T::obeys_partial_cmp_spec() && T::obeys_eq_spec() ==> r == (self.start.is_gt(&other.start) && self.end.is_eq(&other.end)),
    {
        self.start.gt(&other.start) && self.end.eq(&other.end)
    }

    fn is_finished_by(&self, other: &Range<T>) -> (r: bool) where
        IntervalValidator: ValidateInterval<Self> + ValidateInterval<Range<T>>,

        ensures
            T::obeys_partial_cmp_spec() && T::obeys_eq_spec() ==> r == (other.start.is_gt(&self.start) && other.end.is_eq(&self.end)),
    {
        other.start.gt(&self.start) && other.end.eq(&self.end)
    }

    fn equals(&self, other: &Range<T>) -> (r: bool) where
        IntervalValidator: ValidateInterval<Self> + ValidateInterval<Range<T>>,

        ensures
            T::obeys_eq_spec() ==> r == (self.start.is_eq(&other.start) && self.end.is_eq(&other.end)),
    {
        self.start.eq(&other.start) && self.end.eq(&other.end)
    }
}

impl<T> RangeRelations<RangeFull, T> for RangeInclusive<T> where T: PartialOrd + Bounded {
    fn starts(&self, other: &RangeFull) -> (r: bool) where
        IntervalValidator: ValidateInterval<Self> + ValidateInterval<RangeFull>,

        ensures
            T::obeys_partial_cmp_spec() && T::obeys_eq_spec() ==> r == (self@.start.is_eq(&T::spec_min_value()) && self@.end.is_lt(&T::spec_max_value())),
    {
        let min = T::min_value();
        let max = T::max_value();
        self.start().eq(&min) && self.end().lt(&max)
    }

    fn is_enclosed_by(&self, other: &RangeFull) -> (r: bool) where
        IntervalValidator: ValidateInterval<Self> + ValidateInterval<RangeFull>,

        ensures
            T::obeys_partial_cmp_spec() ==> r == (T::spec_min_value().is_lt(&self@.start) && T::spec_max_value().is_gt(&self@.end)),
    {
        let min = T::min_value();
        let max = T::max_value();
        min.lt(self.start()) && max.gt(self.end())
    }

    fn finishes(&self, other: &RangeFull) -> (r: bool) where
        IntervalValidator: ValidateInterval<Self> + ValidateInterval<RangeFull>,

        ensures
            T::obeys_partial_cmp_spec() && T::obeys_eq_spec() ==> r == (self@.start.is_gt(&T::spec_min_value()) && self@.end.is_eq(&T::spec_max_value())),
    {
        let min = T::min_value();
        let max = T::max_value();
        self.start().gt(&min) && self.end().eq(&max)
    }

    fn equals(&self, other: &RangeFull) -> (r: bool) where
        IntervalValidator: ValidateInterval<Self> + ValidateInterval<RangeFull>,

        ensures
            T::obeys_eq_spec() ==> r == (self@.start.is_eq(&T::spec_min_value()) && self@.end.is_eq(&T::spec_max_value())),
    {
        let min = T::min_value();
        let max = T::max_value();
        self.start().eq(&min) && self.end().eq(&max)
    }
}

impl<T> RangeRelations<RangeToInclusive<T>, T> for RangeInclusive<T> where T: PartialOrd + Bounded {
    fn precedes(&self, other: &RangeToInclusive<T>) -> (r: bool) where
        IntervalValidator: ValidateInterval<Self> + ValidateInterval<RangeToInclusive<T>>,

        ensures
            T::obeys_partial_cmp_spec() ==> r == (self@.end.is_lt(&T::spec_min_value())),
    {
        let min = T::min_value();
        self.end().lt(&min)
    }

    fn is_preceded_by(&self, other: &RangeToInclusive<T>) -> (r: bool) where
        IntervalValidator: ValidateInterval<Self> + ValidateInterval<RangeToInclusive<T>>,

        ensures
            T::obeys_partial_cmp_spec() ==> r == (other.end.is_lt(&self@.start)),
    {
        other.end.lt(self.start())
    }

    fn meets(&self, other: &RangeToInclusive<T>) -> (r: bool) where
        IntervalValidator: ValidateInterval<Self> + ValidateInterval<RangeToInclusive<T>>,

        ensures
            T::obeys_eq_spec() ==> r == (self@.end.is_eq(&T::spec_min_value())),
    {
        let min = T::min_value();
        self.end().eq(&min)
    }

    fn is_met_by(&self, other: &RangeToInclusive<T>) -> (r: bool) where
        IntervalValidator: ValidateInterval<Self> + ValidateInterval<RangeToInclusive<T>>,

        ensures
            T::obeys_eq_spec() ==> r == (other.end.is_eq(&self@.start)),
    {
        other.end.eq(self.start())
    }

    fn is_overlapped_by(&self, other: &RangeToInclusive<T>) -> (r: bool) where
        IntervalValidator: ValidateInterval<Self> + ValidateInterval<RangeToInclusive<T>>,

        ensures
            T::obeys_partial_cmp_spec() ==> r == (other.end.is_gt(&self@.start) && other.end.is_lt(&self@.end)),
    {
        other.end.gt(self.start()) && other.end.lt(self.end())
    }

    fn starts(&self, other: &RangeToInclusive<T>) -> (r: bool) where
        IntervalValidator: ValidateInterval<Self> + ValidateInterval<RangeToInclusive<T>>,

        ensures
            T::obeys_partial_cmp_spec() && T::obeys_eq_spec() ==> r == (self@.start.is_eq(&T::spec_min_value()) && self@.end.is_lt(&other.end)),
    {
        let min = T::min_value();
        self.start().eq(&min) && self.end().lt(&other.end)
    }

    fn is_enclosed_by(&self, other: &RangeToInclusive<T>) -> (r: bool) where
        IntervalValidator: ValidateInterval<Self> + ValidateInterval<RangeToInclusive<T>>,

        ensures
            T::obeys_partial_cmp_spec() ==> r == (T::spec_min_value().is_lt(&self@.start) && other.end.is_gt(&self@.end)),
    {
        let min = T::min_value();
        min.lt(self.start()) && other.end.gt(self.end())
    }

    fn finishes(&self, other: &RangeToInclusive<T>) -> (r: bool) where
        IntervalValidator: ValidateInterval<Self> + ValidateInterval<RangeToInclusive<T>>,

        ensures
            T::obeys_partial_cmp_spec() && T::obeys_eq_spec() ==> r == (self@.start.is_gt(&T::spec_min_value()) && self@.end.is_eq(&other.end)),
    {
        let min = T::min_value();
        self.start().gt(&min) && self.end().eq(&other.end)
    }

    fn equals(&self, other: &RangeToInclusive<T>) -> (r: bool) where
        IntervalValidator: ValidateInterval<Self> + ValidateInterval<RangeToInclusive<T>>,

        ensures
            T::obeys_eq_spec() ==> r == (self@.start.is_eq(&T::spec_min_value()) && self@.end.is_eq(&other.end)),
    {
        let min = T::min_value();
        self.start().eq(&min) && self.end().eq(&other.end)
    }
}

impl<T> RangeRelations<RangeFrom<T>, T> for RangeInclusive<T> where T: PartialOrd + Bounded {
    fn precedes(&self, other: &RangeFrom<T>) -> (r: bool) where
        IntervalValidator: ValidateInterval<Self> + ValidateInterval<RangeFrom<T>>,

        ensures
            T::obeys_partial_cmp_spec() ==> r == (self@.end.is_lt(&other.start)),
    {
        self.end().lt(&other.start)
    }

    fn meets(&self, other: &RangeFrom<T>) -> (r: bool) where
        IntervalValidator: ValidateInterval<Self> + ValidateInterval<RangeFrom<T>>,

        ensures
            T::obeys_eq_spec() ==> r == (self@.end.is_eq(&other.start)),
    {
        self.end().eq(&other.start)
    }

    fn overlaps(&self, other: &RangeFrom<T>) -> (r: bool) where
        IntervalValidator: ValidateInterval<Self> + ValidateInterval<RangeFrom<T>>,

        ensures
            T::obeys_partial_cmp_spec() ==> r == (self@.start.is_lt(&other.start) && other.start.is_lt(&self@.end) && self@.end.is_lt(&T::spec_max_value())),
    {
        let max = T::max_value();
        self.start().lt(&other.start) && other.start.lt(self.end()) && self.end().lt(&max)
    }

    fn starts(&self, other: &RangeFrom<T>) -> (r: bool) where
        IntervalValidator: ValidateInterval<Self> + ValidateInterval<RangeFrom<T>>,

        ensures
            T::obeys_partial_cmp_spec() && T::obeys_eq_spec() ==> r == (self@.start.is_eq(&other.start) && self@.end.is_lt(&T::spec_max_value())),
    {
        let max = T::max_value();
        self.start().eq(&other.start) && self.end().lt(&max)
    }

    fn is_enclosed_by(&self, other: &RangeFrom<T>) -> (r: bool) where
        IntervalValidator: ValidateInterval<Self> + ValidateInterval<RangeFrom<T>>,

        ensures
            T::obeys_partial_cmp_spec() ==> r == (other.start.is_lt(&self@.start) && T::spec_max_value().is_gt(&self@.end)),
    {
        let max = T::max_value();
        other.start.lt(self.start()) && max.gt(self.end())
    }

    fn finishes(&self, other: &RangeFrom<T>) -> (r: bool) where
        IntervalValidator: ValidateInterval<Self> + ValidateInterval<RangeFrom<T>>,

        ensures
            T::obeys_partial_cmp_spec() && T::obeys_eq_spec() ==> r == (self@.start.is_gt(&other.start) && self@.end.is_eq(&T::spec_max_value())),
    {
        let max = T::max_value();
        self.start().gt(&other.start) && self.end().eq(&max)
    }

    fn is_finished_by(&self, other: &RangeFrom<T>) -> (r: bool) where
        IntervalValidator: ValidateInterval<Self> + ValidateInterval<RangeFrom<T>>,

        ensures
            T::obeys_partial_cmp_spec() && T::obeys_eq_spec() ==> r == (other.start.is_gt(&self@.start) && T::spec_max_value().is_eq(&self@.end)),
    {
        let max = T::max_value();
        other.start.gt(self.start()) && max.eq(self.end())
    }

    fn equals(&self, other: &RangeFrom<T>) -> (r: bool) where
        IntervalValidator: ValidateInterval<Self> + ValidateInterval<RangeFrom<T>>,

        ensures
            T::obeys_eq_spec() ==> r == (self@.start.is_eq(&other.start) && self@.end.is_eq(&T::spec_max_value())),
    {
        let max = T::max_value();
        self.start().eq(&other.start) && self.end().eq(&max)
    }
}

impl<T> RangeRelations<RangeInclusive<T>, T> for RangeInclusive<T> where T: PartialOrd + Bounded {
    fn precedes(&self, other: &RangeInclusive<T>) -> (r: bool) where
        IntervalValidator: ValidateInterval<Self> + ValidateInterval<RangeInclusive<T>>,

        ensures
            T::obeys_partial_cmp_spec() ==> r == (self@.end.is_lt(&other@.start)),
    {
        self.end().lt(other.start())
    }

    fn is_preceded_by(&self, other: &RangeInclusive<T>) -> (r: bool) where
        IntervalValidator: ValidateInterval<Self> + ValidateInterval<RangeInclusive<T>>,

        ensures
            T::obeys_partial_cmp_spec() ==> r == (other@.end.is_lt(&self@.start)),
    {
        other.end().lt(self.start())
    }

    fn meets(&self, other: &RangeInclusive<T>) -> (r: bool) where
        IntervalValidator: ValidateInterval<Self> + ValidateInterval<RangeInclusive<T>>,

        ensures
            T::obeys_eq_spec() ==> r == (self@.end.is_eq(&other@.start)),
    {
        self.end().eq(other.start())
    }

    fn is_met_by(&self, other: &RangeInclusive<T>) -> (r: bool) where
        IntervalValidator: ValidateInterval<Self> + ValidateInterval<RangeInclusive<T>>,

        ensures
            T::obeys_eq_spec() ==> r == (other@.end.is_eq(&self@.start)),
    {
        other.end().eq(self.start())
    }

    fn overlaps(&self, other: &RangeInclusive<T>) -> (r: bool) where
        IntervalValidator: ValidateInterval<Self> + ValidateInterval<RangeInclusive<T>>,

        ensures
            T::obeys_partial_cmp_spec() ==> r == (self@.start.is_lt(&other@.start) && other@.start.is_lt(&self@.end) && self@.end.is_lt(&other@.end)),
    {
        self.start().lt(other.start()) && other.start().lt(self.end()) && self.end().lt(other.end())
    }

    fn is_overlapped_by(&self, other: &RangeInclusive<T>) -> (r: bool) where
        IntervalValidator: ValidateInterval<Self> + ValidateInterval<RangeInclusive<T>>,

        ensures
            T::obeys_partial_cmp_spec() ==> r == (other@.start.is_lt(&self@.start) && self@.start.is_lt(&other@.end) && other@.end.is_lt(&self@.end)),
    {
        other.start().lt(self.start()) && self.start().lt(other.end()) && other.end().lt(self.end())
    }

    fn starts(&self, other: &RangeInclusive<T>) -> (r: bool) where
        IntervalValidator: ValidateInterval<Self> + ValidateInterval<RangeInclusive<T>>,

        ensures
            T::obeys_partial_cmp_spec() && T::obeys_eq_spec() ==> r == (self@.start.is_eq(&other@.start) && self@.end.is_lt(&other@.end)),
    {
        self.start().eq(other.start()) && self.end().lt(other.end())
    }

    fn is_started_by(&self, other: &RangeInclusive<T>) -> (r: bool) where
        IntervalValidator: ValidateInterval<Self> + ValidateInterval<RangeInclusive<T>>,

        ensures
            T::obeys_partial_cmp_spec() && T::obeys_eq_spec() ==> r == (other@.start.is_eq(&self@.start) && other@.end.is_lt(&self@.end)),
    {
        other.start().eq(self.start()) && other.end().lt(self.end())
    }

    fn encloses(&self, other: &RangeInclusive<T>) -> (r: bool) where
        IntervalValidator: ValidateInterval<Self> + ValidateInterval<RangeInclusive<T>>,

        ensures
            T::obeys_partial_cmp_spec() ==> r == (self@.start.is_lt(&other@.start) && self@.end.is_gt(&other@.end)),
    {
        self.start().lt(other.start()) && self.end().gt(other.end())
    }

    fn is_enclosed_by(&self, other: &RangeInclusive<T>) -> (r: bool) where
        IntervalValidator: ValidateInterval<Self> + ValidateInterval<RangeInclusive<T>>,

        ensures
            T::obeys_partial_cmp_spec() ==> r == (other@.start.is_lt(&self@.start) && other@.end.is_gt(&self@.end)),
    {
        other.start().lt(self.start()) && other.end().gt(self.end())
    }

    fn finishes(&self, other: &RangeInclusive<T>) -> (r: bool) where
        IntervalValidator: ValidateInterval<Self> + ValidateInterval<RangeInclusive<T>>,

        ensures
            T::obeys_partial_cmp_spec() && T::obeys_eq_spec() ==> r == (self@.start.is_gt(&other@.start) && self@.end.is_eq(&other@.end)),
    {
        self.start().gt(other.start()) && self.end().eq(other.end())
    }

    fn is_finished_by(&self, other: &RangeInclusive<T>) -> (r: bool) where
        IntervalValidator: ValidateInterval<Self> + ValidateInterval<RangeInclusive<T>>,

        ensures
            T::obeys_partial_cmp_spec() && T::obeys_eq_spec() ==> r == (other@.start.is_gt(&self@.start) && other@.end.is_eq(&self@.end)),
    {
        other.start().gt(self.start()) && other.end().eq(self.end())
    }

    fn equals(&self, other: &RangeInclusive<T>) -> (r: bool) where
        IntervalValidator: ValidateInterval<Self> + ValidateInterval<RangeInclusive<T>>,

        ensures
            T::obeys_eq_spec() ==> r == (self@.start.is_eq(&other@.start) && self@.end.is_eq(&other@.end)),
    {
        self.start().eq(other.start()) && self.end().eq(other.end())
    }
}

} // verus!
