//! Classification of pairs of the standard library's range types.
//!
//! A range type with a missing side stands for an interval that is unbounded
//! on that side; since plain ranges carry no bound tags, the missing side is
//! read as the extreme value of the domain. Range types of the discrete
//! family (`..e`, `s..e`) pair with each other and with `s..` and `..`, those
//! of the non-discrete family (`..=e`, `s..=e`) likewise; a pair that mixes
//! the two end-bound styles is not classifiable.

use vstd::prelude::*;

use vstd::std_specs::cmp::PartialOrdSpec;

use core::cmp::Ordering;

use core::ops::{Range, RangeFrom, RangeFull, RangeInclusive, RangeTo, RangeToInclusive};

use crate::atomic::{Bb, Be, Eb, Ee};
use crate::atomic_relations::{spec_atomic_relations, AtomicRelations};
use crate::bounded::Bounded;
use crate::from_ranges::FromRanges;
use crate::interval::IntervalError;
use crate::relation::{spec_classify, Relation};

verus! {

/// The relation of the interval with finite endpoints `(s_start, s_end)`
/// against the one with `(t_start, t_end)`: the classification of their atomic
/// relations, or the error that computing those raised.
pub open spec fn spec_relation_from_endpoints<T: PartialOrd>(
    s_start: T,
    s_end: T,
    t_start: T,
    t_end: T,
) -> Result<Relation, IntervalError> {
    match spec_atomic_relations(s_start, s_end, t_start, t_end) {
        Ok(a) => Ok(spec_classify(a.bb, a.be, a.eb, a.ee)),
        Err(e) => Err(e),
    }
}

fn relation_of_endpoints<T>(s: (&T, &T), t: (&T, &T)) -> (r: Result<
    Relation,
    IntervalError,
>) where T: PartialOrd + Bounded
    ensures
        T::obeys_partial_cmp_spec() ==> r == spec_relation_from_endpoints(*s.0, *s.1, *t.0, *t.1),
{
    match AtomicRelations::new(s, t) {
        Ok(a) => Ok(Relation::from_atomic_relations(Bb(a.bb), Be(a.be), Eb(a.eb), Ee(a.ee))),
        Err(e) => Err(e),
    }
}

impl FromRanges<RangeFull, RangeFull> for Relation {
    fn from_ranges(_s: RangeFull, _t: RangeFull) -> (r: Result<Self, IntervalError>)
        ensures
            r == Ok::<Relation, IntervalError>(Relation::Equals),
    {
        Ok(
            Relation::from_atomic_relations(
                Bb(Ordering::Equal),
                Be(Ordering::Less),
                Eb(Ordering::Greater),
                Ee(Ordering::Equal),
            ),
        )
    }
}

impl<T> FromRanges<RangeFull, RangeTo<T>> for Relation where T: PartialOrd + Bounded {
    fn from_ranges(_s: RangeFull, t: RangeTo<T>) -> (r: Result<Self, IntervalError>)
        ensures
            T::obeys_partial_cmp_spec() ==> r == spec_relation_from_endpoints(
                T::spec_min_value(),
                T::spec_max_value(),
                T::spec_min_value(),
                t.end,
            ),
    {
        let min = T::min_value();
        let max = T::max_value();
        relation_of_endpoints((&min, &max), (&min, &t.end))
    }
}

impl<T> FromRanges<RangeFull, RangeToInclusive<T>> for Relation where T: PartialOrd + Bounded {
    fn from_ranges(_s: RangeFull, t: RangeToInclusive<T>) -> (r: Result<Self, IntervalError>)
        ensures
            T::obeys_partial_cmp_spec() ==> r == spec_relation_from_endpoints(
                T::spec_min_value(),
                T::spec_max_value(),
                T::spec_min_value(),
                t.end,
            ),
    {
        let min = T::min_value();
        let max = T::max_value();
        relation_of_endpoints((&min, &max), (&min, &t.end))
    }
}

impl<T> FromRanges<RangeFull, RangeFrom<T>> for Relation where T: PartialOrd + Bounded {
    fn from_ranges(_s: RangeFull, t: RangeFrom<T>) -> (r: Result<Self, IntervalError>)
        ensures
            T::obeys_partial_cmp_spec() ==> r == spec_relation_from_endpoints(
                T::spec_min_value(),
                T::spec_max_value(),
                t.start,
                T::spec_max_value(),
            ),
    {
        let min = T::min_value();
        let max = T::max_value();
        relation_of_endpoints((&min, &max), (&t.start, &max))
    }
}

impl<T> FromRanges<RangeFull, Range<T>> for Relation where T: PartialOrd + Bounded {
    fn from_ranges(_s: RangeFull, t: Range<T>) -> (r: Result<Self, IntervalError>)
        ensures
            T::obeys_partial_cmp_spec() ==> r == spec_relation_from_endpoints(
                T::spec_min_value(),
                T::spec_max_value(),
                t.start,
                t.end,
            ),
    {
        let min = T::min_value();
        let max = T::max_value();
        relation_of_endpoints((&min, &max), (&t.start, &t.end))
    }
}

impl<T> FromRanges<RangeFull, RangeInclusive<T>> for Relation where T: PartialOrd + Bounded {
    fn from_ranges(_s: RangeFull, t: RangeInclusive<T>) -> (r: Result<Self, IntervalError>)
        ensures
            T::obeys_partial_cmp_spec() ==> r == spec_relation_from_endpoints(
                T::spec_min_value(),
                T::spec_max_value(),
                t@.start,
                t@.end,
            ),
    {
        let min = T::min_value();
        let max = T::max_value();
        relation_of_endpoints((&min, &max), (t.start(), t.end()))
    }
}

impl<T> FromRanges<RangeTo<T>, RangeFull> for Relation where T: PartialOrd + Bounded {
    fn from_ranges(s: RangeTo<T>, _t: RangeFull) -> (r: Result<Self, IntervalError>)
        ensures
            T::obeys_partial_cmp_spec() ==> r == spec_relation_from_endpoints(
                T::spec_min_value(),
                s.end,
                T::spec_min_value(),
                T::spec_max_value(),
            ),
    {
        let min = T::min_value();
        let max = T::max_value();
        relation_of_endpoints((&min, &s.end), (&min, &max))
    }
}

impl<T> FromRanges<RangeTo<T>, RangeTo<T>> for Relation where T: PartialOrd + Bounded {
    fn from_ranges(s: RangeTo<T>, t: RangeTo<T>) -> (r: Result<Self, IntervalError>)
        ensures
            T::obeys_partial_cmp_spec() ==> r == spec_relation_from_endpoints(
                T::spec_min_value(),
                s.end,
                T::spec_min_value(),
                t.end,
            ),
    {
        let min = T::min_value();
        relation_of_endpoints((&min, &s.end), (&min, &t.end))
    }
}

impl<T> FromRanges<RangeTo<T>, RangeFrom<T>> for Relation where T: PartialOrd + Bounded {
    fn from_ranges(s: RangeTo<T>, t: RangeFrom<T>) -> (r: Result<Self, IntervalError>)
        ensures
            T::obeys_partial_cmp_spec() ==> r == spec_relation_from_endpoints(
                T::spec_min_value(),
                s.end,
                t.start,
                T::spec_max_value(),
            ),
    {
        let min = T::min_value();
        let max = T::max_value();
        relation_of_endpoints((&min, &s.end), (&t.start, &max))
    }
}

impl<T> FromRanges<RangeTo<T>, Range<T>> for Relation where T: PartialOrd + Bounded {
    fn from_ranges(s: RangeTo<T>, t: Range<T>) -> (r: Result<Self, IntervalError>)
        ensures
            T::obeys_partial_cmp_spec() ==> r == spec_relation_from_endpoints(
                T::spec_min_value(),
                s.end,
                t.start,
                t.end,
            ),
    {
        let min = T::min_value();
        relation_of_endpoints((&min, &s.end), (&t.start, &t.end))
    }
}

impl<T> FromRanges<RangeToInclusive<T>, RangeFull> for Relation where T: PartialOrd + Bounded {
    fn from_ranges(s: RangeToInclusive<T>, _t: RangeFull) -> (r: Result<Self, IntervalError>)
        ensures
            T::obeys_partial_cmp_spec() ==> r == spec_relation_from_endpoints(
                T::spec_min_value(),
                s.end,
                T::spec_min_value(),
                T::spec_max_value(),
            ),
    {
        let min = T::min_value();
        let max = T::max_value();
        relation_of_endpoints((&min, &s.end), (&min, &max))
    }
}

impl<T> FromRanges<RangeToInclusive<T>, RangeToInclusive<T>> for Relation where T: PartialOrd + Bounded {
    fn from_ranges(s: RangeToInclusive<T>, t: RangeToInclusive<T>) -> (r: Result<Self, IntervalError>)
        ensures
            T::obeys_partial_cmp_spec() ==> r == spec_relation_from_endpoints(
                T::spec_min_value(),
                s.end,
                T::spec_min_value(),
                t.end,
            ),
    {
        let min = T::min_value();
        relation_of_endpoints((&min, &s.end), (&min, &t.end))
    }
}

impl<T> FromRanges<RangeToInclusive<T>, RangeFrom<T>> for Relation where T: PartialOrd + Bounded {
    fn from_ranges(s: RangeToInclusive<T>, t: RangeFrom<T>) -> (r: Result<Self, IntervalError>)
        ensures
            T::obeys_partial_cmp_spec() ==> r == spec_relation_from_endpoints(
                T::spec_min_value(),
                s.end,
                t.start,
                T::spec_max_value(),
            ),
    {
        let min = T::min_value();
        let max = T::max_value();
        relation_of_endpoints((&min, &s.end), (&t.start, &max))
    }
}

impl<T> FromRanges<RangeToInclusive<T>, RangeInclusive<T>> for Relation where T: PartialOrd + Bounded {
    fn from_ranges(s: RangeToInclusive<T>, t: RangeInclusive<T>) -> (r: Result<Self, IntervalError>)
        ensures
            T::obeys_partial_cmp_spec() ==> r == spec_relation_from_endpoints(
                T::spec_min_value(),
                s.end,
                t@.start,
                t@.end,
            ),
    {
        let min = T::min_value();
        relation_of_endpoints((&min, &s.end), (t.start(), t.end()))
    }
}

impl<T> FromRanges<RangeFrom<T>, RangeFull> for Relation where T: PartialOrd + Bounded {
    fn from_ranges(s: RangeFrom<T>, _t: RangeFull) -> (r: Result<Self, IntervalError>)
        ensures
            T::obeys_partial_cmp_spec() ==> r == spec_relation_from_endpoints(
                s.start,
                T::spec_max_value(),
                T::spec_min_value(),
                T::spec_max_value(),
            ),
    {
        let min = T::min_value();
        let max = T::max_value();
        relation_of_endpoints((&s.start, &max), (&min, &max))
    }
}

impl<T> FromRanges<RangeFrom<T>, RangeTo<T>> for Relation where T: PartialOrd + Bounded {
    fn from_ranges(s: RangeFrom<T>, t: RangeTo<T>) -> (r: Result<Self, IntervalError>)
        ensures
            T::obeys_partial_cmp_spec() ==> r == spec_relation_from_endpoints(
                s.start,
                T::spec_max_value(),
                T::spec_min_value(),
                t.end,
            ),
    {
        let min = T::min_value();
        let max = T::max_value();
        relation_of_endpoints((&s.start, &max), (&min, &t.end))
    }
}

impl<T> FromRanges<RangeFrom<T>, RangeToInclusive<T>> for Relation where T: PartialOrd + Bounded {
    fn from_ranges(s: RangeFrom<T>, t: RangeToInclusive<T>) -> (r: Result<Self, IntervalError>)
        ensures
            T::obeys_partial_cmp_spec() ==> r == spec_relation_from_endpoints(
                s.start,
                T::spec_max_value(),
                T::spec_min_value(),
                t.end,
            ),
    {
        let min = T::min_value();
        let max = T::max_value();
        relation_of_endpoints((&s.start, &max), (&min, &t.end))
    }
}

impl<T> FromRanges<RangeFrom<T>, RangeFrom<T>> for Relation where T: PartialOrd + Bounded {
    fn from_ranges(s: RangeFrom<T>, t: RangeFrom<T>) -> (r: Result<Self, IntervalError>)
        ensures
            T::obeys_partial_cmp_spec() ==> r == spec_relation_from_endpoints(
                s.start,
                T::spec_max_value(),
                t.start,
                T::spec_max_value(),
            ),
    {
        let max = T::max_value();
        relation_of_endpoints((&s.start, &max), (&t.start, &max))
    }
}

impl<T> FromRanges<RangeFrom<T>, Range<T>> for Relation where T: PartialOrd + Bounded {
    fn from_ranges(s: RangeFrom<T>, t: Range<T>) -> (r: Result<Self, IntervalError>)
        ensures
            T::obeys_partial_cmp_spec() ==> r == spec_relation_from_endpoints(
                s.start,
                T::spec_max_value(),
                t.start,
                t.end,
            ),
    {
        let max = T::max_value();
        relation_of_endpoints((&s.start, &max), (&t.start, &t.end))
    }
}

impl<T> FromRanges<RangeFrom<T>, RangeInclusive<T>> for Relation where T: PartialOrd + Bounded {
    fn from_ranges(s: RangeFrom<T>, t: RangeInclusive<T>) -> (r: Result<Self, IntervalError>)
        ensures
            T::obeys_partial_cmp_spec() ==> r == spec_relation_from_endpoints(
                s.start,
                T::spec_max_value(),
                t@.start,
                t@.end,
            ),
    {
        let max = T::max_value();
        relation_of_endpoints((&s.start, &max), (t.start(), t.end()))
    }
}

impl<T> FromRanges<Range<T>, RangeFull> for Relation where T: PartialOrd + Bounded {
    fn from_ranges(s: Range<T>, _t: RangeFull) -> (r: Result<Self, IntervalError>)
        ensures
            T::obeys_partial_cmp_spec() ==> r == spec_relation_from_endpoints(
                s.start,
                s.end,
                T::spec_min_value(),
                T::spec_max_value(),
            ),
    {
        let min = T::min_value();
        let max = T::max_value();
        relation_of_endpoints((&s.start, &s.end), (&min, &max))
    }
}

impl<T> FromRanges<Range<T>, RangeTo<T>> for Relation where T: PartialOrd + Bounded {
    fn from_ranges(s: Range<T>, t: RangeTo<T>) -> (r: Result<Self, IntervalError>)
        ensures
            T::obeys_partial_cmp_spec() ==> r == spec_relation_from_endpoints(
                s.start,
                s.end,
                T::spec_min_value(),
                t.end,
            ),
    {
        let min = T::min_value();
        relation_of_endpoints((&s.start, &s.end), (&min, &t.end))
    }
}

impl<T> FromRanges<Range<T>, RangeFrom<T>> for Relation where T: PartialOrd + Bounded {
    fn from_ranges(s: Range<T>, t: RangeFrom<T>) -> (r: Result<Self, IntervalError>)
        ensures
            T::obeys_partial_cmp_spec() ==> r == spec_relation_from_endpoints(
                s.start,
                s.end,
                t.start,
                T::spec_max_value(),
            ),
    {
        let max = T::max_value();
        relation_of_endpoints((&s.start, &s.end), (&t.start, &max))
    }
}

impl<T> FromRanges<Range<T>, Range<T>> for Relation where T: PartialOrd + Bounded {
    fn from_ranges(s: Range<T>, t: Range<T>) -> (r: Result<Self, IntervalError>)
        ensures
            T::obeys_partial_cmp_spec() ==> r == spec_relation_from_endpoints(
                s.start,
                s.end,
                t.start,
                t.end,
            ),
    {
        relation_of_endpoints((&s.start, &s.end), (&t.start, &t.end))
    }
}

impl<T> FromRanges<RangeInclusive<T>, RangeFull> for Relation where T: PartialOrd + Bounded {
    fn from_ranges(s: RangeInclusive<T>, _t: RangeFull) -> (r: Result<Self, IntervalError>)
        ensures
            T::obeys_partial_cmp_spec() ==> r == spec_relation_from_endpoints(
                s@.start,
                s@.end,
                T::spec_min_value(),
                T::spec_max_value(),
            ),
    {
        let min = T::min_value();
        let max = T::max_value();
        relation_of_endpoints((s.start(), s.end()), (&min, &max))
    }
}

impl<T> FromRanges<RangeInclusive<T>, RangeToInclusive<T>> for Relation where T: PartialOrd + Bounded {
    fn from_ranges(s: RangeInclusive<T>, t: RangeToInclusive<T>) -> (r: Result<Self, IntervalError>)
        ensures
            T::obeys_partial_cmp_spec() ==> r == spec_relation_from_endpoints(
                s@.start,
                s@.end,
                T::spec_min_value(),
                t.end,
            ),
    {
        let min = T::min_value();
        relation_of_endpoints((s.start(), s.end()), (&min, &t.end))
    }
}

impl<T> FromRanges<RangeInclusive<T>, RangeFrom<T>> for Relation where T: PartialOrd + Bounded {
    fn from_ranges(s: RangeInclusive<T>, t: RangeFrom<T>) -> (r: Result<Self, IntervalError>)
        ensures
            T::obeys_partial_cmp_spec() ==> r == spec_relation_from_endpoints(
                s@.start,
                s@.end,
                t.start,
                T::spec_max_value(),
            ),
    {
        let max = T::max_value();
        relation_of_endpoints((s.start(), s.end()), (&t.start, &max))
    }
}

impl<T> FromRanges<RangeInclusive<T>, RangeInclusive<T>> for Relation where T: PartialOrd + Bounded {
    fn from_ranges(s: RangeInclusive<T>, t: RangeInclusive<T>) -> (r: Result<Self, IntervalError>)
        ensures
            T::obeys_partial_cmp_spec() ==> r == spec_relation_from_endpoints(
                s@.start,
                s@.end,
                t@.start,
                t@.end,
            ),
    {
        relation_of_endpoints((s.start(), s.end()), (t.start(), t.end()))
    }
}

} // verus!
