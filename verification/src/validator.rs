//! Validation of ranges with respect to Allen's interval algebra.
//!
//! A range over a plain std range type is read with its missing sides standing
//! for the extreme values of the domain; it is valid when the interval it
//! denotes is non-empty.

use vstd::prelude::*;

use vstd::std_specs::cmp::{PartialOrdIs, PartialOrdSpec};

use core::ops::{Range, RangeFrom, RangeFull, RangeInclusive, RangeTo, RangeToInclusive};

use crate::bounded::Bounded;
use crate::interval::IntervalError;

verus! {

/// A type for validating intervals with respect to Allen's interval algebra.
pub struct IntervalValidator;

/// A trait for validating intervals with respect to Allen's interval algebra.
pub trait ValidateInterval<T> {
    /// Whether the outcome of `validate_interval` is pinned down: the domain's
    /// comparison must itself be specified.
    spec fn valid_obeys() -> bool;

    /// Whether the interval is valid, i.e. non-empty.
    spec fn valid_spec(&self, interval: &T) -> bool;

    /// Validates an interval with respect to Allen's interval algebra.
    ///
    /// Empty intervals are invalid as their relations are undefined.
    fn validate_interval(&self, interval: &T) -> (r: Result<(), IntervalError>)
        ensures
            Self::valid_obeys() ==> r == (if self.valid_spec(interval) {
                Ok::<(), IntervalError>(())
            } else {
                Err(IntervalError::EmptyInterval)
            }),
    ;
}

impl ValidateInterval<RangeFull> for IntervalValidator {
    open spec fn valid_obeys() -> bool {
        true
    }

    open spec fn valid_spec(&self, _interval: &RangeFull) -> bool {
        true
    }

    fn validate_interval(&self, _interval: &RangeFull) -> Result<(), IntervalError> {
        Ok(())
    }
}

impl<U: PartialOrd + Bounded> ValidateInterval<RangeTo<U>> for IntervalValidator {
    open spec fn valid_obeys() -> bool {
        U::obeys_partial_cmp_spec()
    }

    open spec fn valid_spec(&self, interval: &RangeTo<U>) -> bool {
        !interval.end.is_le(&U::spec_min_value())
    }

    fn validate_interval(&self, interval: &RangeTo<U>) -> Result<(), IntervalError> {
        let min = U::min_value();
        if interval.end.le(&min) {
            Err(IntervalError::EmptyInterval)
        } else {
            Ok(())
        }
    }
}

impl<U: PartialOrd + Bounded> ValidateInterval<RangeToInclusive<U>> for IntervalValidator {
    open spec fn valid_obeys() -> bool {
        U::obeys_partial_cmp_spec()
    }

    open spec fn valid_spec(&self, interval: &RangeToInclusive<U>) -> bool {
        !interval.end.is_le(&U::spec_min_value())
    }

    fn validate_interval(&self, interval: &RangeToInclusive<U>) -> Result<(), IntervalError> {
        let min = U::min_value();
        if interval.end.le(&min) {
            Err(IntervalError::EmptyInterval)
        } else {
            Ok(())
        }
    }
}

impl<U: PartialOrd + Bounded> ValidateInterval<RangeFrom<U>> for IntervalValidator {
    open spec fn valid_obeys() -> bool {
        U::obeys_partial_cmp_spec()
    }

    open spec fn valid_spec(&self, interval: &RangeFrom<U>) -> bool {
        !interval.start.is_ge(&U::spec_max_value())
    }

    fn validate_interval(&self, interval: &RangeFrom<U>) -> Result<(), IntervalError> {
        let max = U::max_value();
        if interval.start.ge(&max) {
            Err(IntervalError::EmptyInterval)
        } else {
            Ok(())
        }
    }
}

impl<U: PartialOrd + Bounded> ValidateInterval<Range<U>> for IntervalValidator {
    open spec fn valid_obeys() -> bool {
        U::obeys_partial_cmp_spec()
    }

    open spec fn valid_spec(&self, interval: &Range<U>) -> bool {
        &&& !interval.start.is_ge(&interval.end)
        &&& !interval.start.is_ge(&U::spec_max_value())
        &&& !interval.end.is_le(&U::spec_min_value())
    }

    fn validate_interval(&self, interval: &Range<U>) -> Result<(), IntervalError> {
        let min = U::min_value();
        let max = U::max_value();
        if interval.start.ge(&interval.end) || interval.start.ge(&max) || interval.end.le(&min) {
            Err(IntervalError::EmptyInterval)
        } else {
            Ok(())
        }
    }
}

impl<U: PartialOrd + Bounded> ValidateInterval<RangeInclusive<U>> for IntervalValidator {
    open spec fn valid_obeys() -> bool {
        U::obeys_partial_cmp_spec()
    }

    open spec fn valid_spec(&self, interval: &RangeInclusive<U>) -> bool {
        &&& !interval@.start.is_ge(&interval@.end)
        &&& !interval@.start.is_ge(&U::spec_max_value())
        &&& !interval@.end.is_le(&U::spec_min_value())
    }

    fn validate_interval(&self, interval: &RangeInclusive<U>) -> Result<(), IntervalError> {
        let min = U::min_value();
        let max = U::max_value();
        if interval.start().ge(interval.end()) || interval.start().ge(&max) || interval.end().le(
            &min,
        ) {
            Err(IntervalError::EmptyInterval)
        } else {
            Ok(())
        }
    }
}

} // verus!
