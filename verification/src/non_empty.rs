use vstd::prelude::*;

use core::cmp::Ordering;

use vstd::std_specs::cmp::PartialOrdSpec;

use crate::interval::{Interval, IntervalError, IntervalFrom, IntervalFull, IntervalTo};

verus! {

/// An interval that is known not to be empty.
///
/// Intervals with two finite endpoints are screened by `try_from`, which
/// rejects those whose start does not lie strictly below their end; intervals
/// with an unbounded side are never empty and convert with `from`.
#[derive(Clone, Copy, Debug, Hash, Eq, PartialEq, Ord, PartialOrd)]
pub struct NonEmpty<T>(pub T);

impl<T: PartialOrd> TryFrom<Interval<T>> for NonEmpty<Interval<T>> {
    type Error = IntervalError;

    fn try_from(value: Interval<T>) -> Result<Self, Self::Error> {
        match value.start.partial_cmp(&value.end) {
            Some(Ordering::Less) => Ok(Self(value)),
            Some(Ordering::Equal) => Err(IntervalError::EmptyInterval),
            Some(Ordering::Greater) => Err(IntervalError::EmptyInterval),
            None => Err(IntervalError::AmbiguousOrder),
        }
    }
}

impl<T: PartialOrd> vstd::std_specs::convert::TryFromSpecImpl<Interval<T>> for NonEmpty<Interval<T>> {
    open spec fn obeys_try_from_spec() -> bool {
        T::obeys_partial_cmp_spec()
    }

    open spec fn try_from_spec(v: Interval<T>) -> Result<Self, Self::Error> {
        match v.start.partial_cmp_spec(&v.end) {
            Some(Ordering::Less) => Ok(NonEmpty(v)),
            Some(Ordering::Equal) => Err(IntervalError::EmptyInterval),
            Some(Ordering::Greater) => Err(IntervalError::EmptyInterval),
            None => Err(IntervalError::AmbiguousOrder),
        }
    }
}

impl<T> From<IntervalTo<T>> for NonEmpty<IntervalTo<T>> {
    fn from(value: IntervalTo<T>) -> Self {
        Self(value)
    }
}

impl<T> vstd::std_specs::convert::FromSpecImpl<IntervalTo<T>> for NonEmpty<IntervalTo<T>> {
    open spec fn obeys_from_spec() -> bool {
        true
    }

    open spec fn from_spec(v: IntervalTo<T>) -> Self {
        NonEmpty(v)
    }
}

impl<T> From<IntervalFrom<T>> for NonEmpty<IntervalFrom<T>> {
    fn from(value: IntervalFrom<T>) -> Self {
        Self(value)
    }
}

impl<T> vstd::std_specs::convert::FromSpecImpl<IntervalFrom<T>> for NonEmpty<IntervalFrom<T>> {
    open spec fn obeys_from_spec() -> bool {
        true
    }

    open spec fn from_spec(v: IntervalFrom<T>) -> Self {
        NonEmpty(v)
    }
}

impl From<IntervalFull> for NonEmpty<IntervalFull> {
    fn from(value: IntervalFull) -> Self {
        Self(value)
    }
}

impl vstd::std_specs::convert::FromSpecImpl<IntervalFull> for NonEmpty<IntervalFull> {
    open spec fn obeys_from_spec() -> bool {
        true
    }

    open spec fn from_spec(v: IntervalFull) -> Self {
        NonEmpty(v)
    }
}

} // verus!
