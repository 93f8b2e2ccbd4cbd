//! Classification of pairs of the crate's own interval types.

use vstd::prelude::*;

use vstd::std_specs::cmp::{OrdSpec, PartialOrdSpec};

use core::cmp::Ordering;

use crate::atomic::{Bb, Be, Eb, Ee};
use crate::bound::spec_bounds_of;
use crate::from_intervals::{FromIntervals, TryFromIntervals};
use crate::interval::{Interval, IntervalError, IntervalFrom, IntervalFull, IntervalTo};
use crate::non_empty::NonEmpty;
use crate::bound::IntervalBounds;
use crate::relation::{spec_relation_from_bounds, spec_try_relation_from_bounds, Relation};

verus! {

impl FromIntervals<IntervalFull, IntervalFull> for Relation {
    fn from_intervals(_s: &NonEmpty<IntervalFull>, _t: &NonEmpty<IntervalFull>) -> (r: Self)
        ensures
            r == Relation::Equals,
    {
        let bb = Bb(Ordering::Equal);
        let be = Be(Ordering::Less);
        let eb = Eb(Ordering::Greater);
        let ee = Ee(Ordering::Equal);
        Self::from_atomic_relations(bb, be, eb, ee)
    }
}

impl TryFromIntervals<IntervalFull, IntervalFull> for Relation {
    fn try_from_intervals(_s: &NonEmpty<IntervalFull>, _t: &NonEmpty<IntervalFull>) -> (r: Result<
        Self,
        IntervalError,
    >)
        ensures
            r == Ok::<Relation, IntervalError>(Relation::Equals),
    {
        let bb = Bb(Ordering::Equal);
        let be = Be(Ordering::Less);
        let eb = Eb(Ordering::Greater);
        let ee = Ee(Ordering::Equal);
        Ok(Self::from_atomic_relations(bb, be, eb, ee))
    }
}

impl<T> FromIntervals<IntervalFull, IntervalTo<T>> for Relation where T: Ord + Copy {
    fn from_intervals(s: &NonEmpty<IntervalFull>, t: &NonEmpty<IntervalTo<T>>) -> (r: Self)
        ensures
            T::obeys_cmp_spec() ==> r == spec_relation_from_bounds(
                spec_bounds_of(s.0),
                spec_bounds_of(t.0),
            ),
    {
        Self::from_bounds(&s.0.bounds(), &t.0.bounds())
    }
}

impl<T> TryFromIntervals<IntervalFull, IntervalTo<T>> for Relation where T: PartialOrd + Copy {
    fn try_from_intervals(s: &NonEmpty<IntervalFull>, t: &NonEmpty<IntervalTo<T>>) -> (r: Result<
        Self,
        IntervalError,
    >)
        ensures
            T::obeys_partial_cmp_spec() ==> r == spec_try_relation_from_bounds(
                spec_bounds_of(s.0),
                spec_bounds_of(t.0),
            ),
    {
        Self::try_from_bounds(&s.0.bounds(), &t.0.bounds())
    }
}

impl<T> FromIntervals<IntervalFull, IntervalFrom<T>> for Relation where T: Ord + Copy {
    fn from_intervals(s: &NonEmpty<IntervalFull>, t: &NonEmpty<IntervalFrom<T>>) -> (r: Self)
        ensures
            T::obeys_cmp_spec() ==> r == spec_relation_from_bounds(
                spec_bounds_of(s.0),
                spec_bounds_of(t.0),
            ),
    {
        Self::from_bounds(&s.0.bounds(), &t.0.bounds())
    }
}

impl<T> TryFromIntervals<IntervalFull, IntervalFrom<T>> for Relation where T: PartialOrd + Copy {
    fn try_from_intervals(s: &NonEmpty<IntervalFull>, t: &NonEmpty<IntervalFrom<T>>) -> (r: Result<
        Self,
        IntervalError,
    >)
        ensures
            T::obeys_partial_cmp_spec() ==> r == spec_try_relation_from_bounds(
                spec_bounds_of(s.0),
                spec_bounds_of(t.0),
            ),
    {
        Self::try_from_bounds(&s.0.bounds(), &t.0.bounds())
    }
}

impl<T> FromIntervals<IntervalFull, Interval<T>> for Relation where T: Ord + Copy {
    fn from_intervals(s: &NonEmpty<IntervalFull>, t: &NonEmpty<Interval<T>>) -> (r: Self)
        ensures
            T::obeys_cmp_spec() ==> r == spec_relation_from_bounds(
                spec_bounds_of(s.0),
                spec_bounds_of(t.0),
            ),
    {
        Self::from_bounds(&s.0.bounds(), &t.0.bounds())
    }
}

impl<T> TryFromIntervals<IntervalFull, Interval<T>> for Relation where T: PartialOrd + Copy {
    fn try_from_intervals(s: &NonEmpty<IntervalFull>, t: &NonEmpty<Interval<T>>) -> (r: Result<
        Self,
        IntervalError,
    >)
        ensures
            T::obeys_partial_cmp_spec() ==> r == spec_try_relation_from_bounds(
                spec_bounds_of(s.0),
                spec_bounds_of(t.0),
            ),
    {
        Self::try_from_bounds(&s.0.bounds(), &t.0.bounds())
    }
}

impl<T> FromIntervals<IntervalTo<T>, IntervalFull> for Relation where T: Ord + Copy {
    fn from_intervals(s: &NonEmpty<IntervalTo<T>>, t: &NonEmpty<IntervalFull>) -> (r: Self)
        ensures
            T::obeys_cmp_spec() ==> r == spec_relation_from_bounds(
                spec_bounds_of(s.0),
                spec_bounds_of(t.0),
            ),
    {
        Self::from_bounds(&s.0.bounds(), &t.0.bounds())
    }
}

impl<T> TryFromIntervals<IntervalTo<T>, IntervalFull> for Relation where T: PartialOrd + Copy {
    fn try_from_intervals(s: &NonEmpty<IntervalTo<T>>, t: &NonEmpty<IntervalFull>) -> (r: Result<
        Self,
        IntervalError,
    >)
        ensures
            T::obeys_partial_cmp_spec() ==> r == spec_try_relation_from_bounds(
                spec_bounds_of(s.0),
                spec_bounds_of(t.0),
            ),
    {
        Self::try_from_bounds(&s.0.bounds(), &t.0.bounds())
    }
}

impl<T> FromIntervals<IntervalTo<T>, IntervalTo<T>> for Relation where T: Ord + Copy {
    fn from_intervals(s: &NonEmpty<IntervalTo<T>>, t: &NonEmpty<IntervalTo<T>>) -> (r: Self)
        ensures
            T::obeys_cmp_spec() ==> r == spec_relation_from_bounds(
                spec_bounds_of(s.0),
                spec_bounds_of(t.0),
            ),
    {
        Self::from_bounds(&s.0.bounds(), &t.0.bounds())
    }
}

impl<T> TryFromIntervals<IntervalTo<T>, IntervalTo<T>> for Relation where T: PartialOrd + Copy {
    fn try_from_intervals(s: &NonEmpty<IntervalTo<T>>, t: &NonEmpty<IntervalTo<T>>) -> (r: Result<
        Self,
        IntervalError,
    >)
        ensures
            T::obeys_partial_cmp_spec() ==> r == spec_try_relation_from_bounds(
                spec_bounds_of(s.0),
                spec_bounds_of(t.0),
            ),
    {
        Self::try_from_bounds(&s.0.bounds(), &t.0.bounds())
    }
}

impl<T> FromIntervals<IntervalTo<T>, IntervalFrom<T>> for Relation where T: Ord + Copy {
    fn from_intervals(s: &NonEmpty<IntervalTo<T>>, t: &NonEmpty<IntervalFrom<T>>) -> (r: Self)
        ensures
            T::obeys_cmp_spec() ==> r == spec_relation_from_bounds(
                spec_bounds_of(s.0),
                spec_bounds_of(t.0),
            ),
    {
        Self::from_bounds(&s.0.bounds(), &t.0.bounds())
    }
}

impl<T> TryFromIntervals<IntervalTo<T>, IntervalFrom<T>> for Relation where T: PartialOrd + Copy {
    fn try_from_intervals(s: &NonEmpty<IntervalTo<T>>, t: &NonEmpty<IntervalFrom<T>>) -> (r: Result<
        Self,
        IntervalError,
    >)
        ensures
            T::obeys_partial_cmp_spec() ==> r == spec_try_relation_from_bounds(
                spec_bounds_of(s.0),
                spec_bounds_of(t.0),
            ),
    {
        Self::try_from_bounds(&s.0.bounds(), &t.0.bounds())
    }
}

impl<T> FromIntervals<IntervalTo<T>, Interval<T>> for Relation where T: Ord + Copy {
    fn from_intervals(s: &NonEmpty<IntervalTo<T>>, t: &NonEmpty<Interval<T>>) -> (r: Self)
        ensures
            T::obeys_cmp_spec() ==> r == spec_relation_from_bounds(
                spec_bounds_of(s.0),
                spec_bounds_of(t.0),
            ),
    {
        Self::from_bounds(&s.0.bounds(), &t.0.bounds())
    }
}

impl<T> TryFromIntervals<IntervalTo<T>, Interval<T>> for Relation where T: PartialOrd + Copy {
    fn try_from_intervals(s: &NonEmpty<IntervalTo<T>>, t: &NonEmpty<Interval<T>>) -> (r: Result<
        Self,
        IntervalError,
    >)
        ensures
            T::obeys_partial_cmp_spec() ==> r == spec_try_relation_from_bounds(
                spec_bounds_of(s.0),
                spec_bounds_of(t.0),
            ),
    {
        Self::try_from_bounds(&s.0.bounds(), &t.0.bounds())
    }
}

impl<T> FromIntervals<IntervalFrom<T>, IntervalFull> for Relation where T: Ord + Copy {
    fn from_intervals(s: &NonEmpty<IntervalFrom<T>>, t: &NonEmpty<IntervalFull>) -> (r: Self)
        ensures
            T::obeys_cmp_spec() ==> r == spec_relation_from_bounds(
                spec_bounds_of(s.0),
                spec_bounds_of(t.0),
            ),
    {
        Self::from_bounds(&s.0.bounds(), &t.0.bounds())
    }
}

impl<T> TryFromIntervals<IntervalFrom<T>, IntervalFull> for Relation where T: PartialOrd + Copy {
    fn try_from_intervals(s: &NonEmpty<IntervalFrom<T>>, t: &NonEmpty<IntervalFull>) -> (r: Result<
        Self,
        IntervalError,
    >)
        ensures
            T::obeys_partial_cmp_spec() ==> r == spec_try_relation_from_bounds(
                spec_bounds_of(s.0),
                spec_bounds_of(t.0),
            ),
    {
        Self::try_from_bounds(&s.0.bounds(), &t.0.bounds())
    }
}

impl<T> FromIntervals<IntervalFrom<T>, IntervalTo<T>> for Relation where T: Ord + Copy {
    fn from_intervals(s: &NonEmpty<IntervalFrom<T>>, t: &NonEmpty<IntervalTo<T>>) -> (r: Self)
        ensures
            T::obeys_cmp_spec() ==> r == spec_relation_from_bounds(
                spec_bounds_of(s.0),
                spec_bounds_of(t.0),
            ),
    {
        Self::from_bounds(&s.0.bounds(), &t.0.bounds())
    }
}

impl<T> TryFromIntervals<IntervalFrom<T>, IntervalTo<T>> for Relation where T: PartialOrd + Copy {
    fn try_from_intervals(s: &NonEmpty<IntervalFrom<T>>, t: &NonEmpty<IntervalTo<T>>) -> (r: Result<
        Self,
        IntervalError,
    >)
        ensures
            T::obeys_partial_cmp_spec() ==> r == spec_try_relation_from_bounds(
                spec_bounds_of(s.0),
                spec_bounds_of(t.0),
            ),
    {
        Self::try_from_bounds(&s.0.bounds(), &t.0.bounds())
    }
}

impl<T> FromIntervals<IntervalFrom<T>, IntervalFrom<T>> for Relation where T: Ord + Copy {
    fn from_intervals(s: &NonEmpty<IntervalFrom<T>>, t: &NonEmpty<IntervalFrom<T>>) -> (r: Self)
        ensures
            T::obeys_cmp_spec() ==> r == spec_relation_from_bounds(
                spec_bounds_of(s.0),
                spec_bounds_of(t.0),
            ),
    {
        Self::from_bounds(&s.0.bounds(), &t.0.bounds())
    }
}

impl<T> TryFromIntervals<IntervalFrom<T>, IntervalFrom<T>> for Relation where T: PartialOrd + Copy {
    fn try_from_intervals(s: &NonEmpty<IntervalFrom<T>>, t: &NonEmpty<IntervalFrom<T>>) -> (r: Result<
        Self,
        IntervalError,
    >)
        ensures
            T::obeys_partial_cmp_spec() ==> r == spec_try_relation_from_bounds(
                spec_bounds_of(s.0),
                spec_bounds_of(t.0),
            ),
    {
        Self::try_from_bounds(&s.0.bounds(), &t.0.bounds())
    }
}

impl<T> FromIntervals<IntervalFrom<T>, Interval<T>> for Relation where T: Ord + Copy {
    fn from_intervals(s: &NonEmpty<IntervalFrom<T>>, t: &NonEmpty<Interval<T>>) -> (r: Self)
        ensures
            T::obeys_cmp_spec() ==> r == spec_relation_from_bounds(
                spec_bounds_of(s.0),
                spec_bounds_of(t.0),
            ),
    {
        Self::from_bounds(&s.0.bounds(), &t.0.bounds())
    }
}

impl<T> TryFromIntervals<IntervalFrom<T>, Interval<T>> for Relation where T: PartialOrd + Copy {
    fn try_from_intervals(s: &NonEmpty<IntervalFrom<T>>, t: &NonEmpty<Interval<T>>) -> (r: Result<
        Self,
        IntervalError,
    >)
        ensures
            T::obeys_partial_cmp_spec() ==> r == spec_try_relation_from_bounds(
                spec_bounds_of(s.0),
                spec_bounds_of(t.0),
            ),
    {
        Self::try_from_bounds(&s.0.bounds(), &t.0.bounds())
    }
}

impl<T> FromIntervals<Interval<T>, IntervalFull> for Relation where T: Ord + Copy {
    fn from_intervals(s: &NonEmpty<Interval<T>>, t: &NonEmpty<IntervalFull>) -> (r: Self)
        ensures
            T::obeys_cmp_spec() ==> r == spec_relation_from_bounds(
                spec_bounds_of(s.0),
                spec_bounds_of(t.0),
            ),
    {
        Self::from_bounds(&s.0.bounds(), &t.0.bounds())
    }
}

impl<T> TryFromIntervals<Interval<T>, IntervalFull> for Relation where T: PartialOrd + Copy {
    fn try_from_intervals(s: &NonEmpty<Interval<T>>, t: &NonEmpty<IntervalFull>) -> (r: Result<
        Self,
        IntervalError,
    >)
        ensures
            T::obeys_partial_cmp_spec() ==> r == spec_try_relation_from_bounds(
                spec_bounds_of(s.0),
                spec_bounds_of(t.0),
            ),
    {
        Self::try_from_bounds(&s.0.bounds(), &t.0.bounds())
    }
}

impl<T> FromIntervals<Interval<T>, IntervalTo<T>> for Relation where T: Ord + Copy {
    fn from_intervals(s: &NonEmpty<Interval<T>>, t: &NonEmpty<IntervalTo<T>>) -> (r: Self)
        ensures
            T::obeys_cmp_spec() ==> r == spec_relation_from_bounds(
                spec_bounds_of(s.0),
                spec_bounds_of(t.0),
            ),
    {
        Self::from_bounds(&s.0.bounds(), &t.0.bounds())
    }
}

impl<T> TryFromIntervals<Interval<T>, IntervalTo<T>> for Relation where T: PartialOrd + Copy {
    fn try_from_intervals(s: &NonEmpty<Interval<T>>, t: &NonEmpty<IntervalTo<T>>) -> (r: Result<
        Self,
        IntervalError,
    >)
        ensures
            T::obeys_partial_cmp_spec() ==> r == spec_try_relation_from_bounds(
                spec_bounds_of(s.0),
                spec_bounds_of(t.0),
            ),
    {
        Self::try_from_bounds(&s.0.bounds(), &t.0.bounds())
    }
}

impl<T> FromIntervals<Interval<T>, IntervalFrom<T>> for Relation where T: Ord + Copy {
    fn from_intervals(s: &NonEmpty<Interval<T>>, t: &NonEmpty<IntervalFrom<T>>) -> (r: Self)
        ensures
            T::obeys_cmp_spec() ==> r == spec_relation_from_bounds(
                spec_bounds_of(s.0),
                spec_bounds_of(t.0),
            ),
    {
        Self::from_bounds(&s.0.bounds(), &t.0.bounds())
    }
}

impl<T> TryFromIntervals<Interval<T>, IntervalFrom<T>> for Relation where T: PartialOrd + Copy {
    fn try_from_intervals(s: &NonEmpty<Interval<T>>, t: &NonEmpty<IntervalFrom<T>>) -> (r: Result<
        Self,
        IntervalError,
    >)
        ensures
            T::obeys_partial_cmp_spec() ==> r == spec_try_relation_from_bounds(
                spec_bounds_of(s.0),
                spec_bounds_of(t.0),
            ),
    {
        Self::try_from_bounds(&s.0.bounds(), &t.0.bounds())
    }
}

impl<T> FromIntervals<Interval<T>, Interval<T>> for Relation where T: Ord + Copy {
    fn from_intervals(s: &NonEmpty<Interval<T>>, t: &NonEmpty<Interval<T>>) -> (r: Self)
        ensures
            T::obeys_cmp_spec() ==> r == spec_relation_from_bounds(
                spec_bounds_of(s.0),
                spec_bounds_of(t.0),
            ),
    {
        Self::from_bounds(&s.0.bounds(), &t.0.bounds())
    }
}

impl<T> TryFromIntervals<Interval<T>, Interval<T>> for Relation where T: PartialOrd + Copy {
    fn try_from_intervals(s: &NonEmpty<Interval<T>>, t: &NonEmpty<Interval<T>>) -> (r: Result<
        Self,
        IntervalError,
    >)
        ensures
            T::obeys_partial_cmp_spec() ==> r == spec_try_relation_from_bounds(
                spec_bounds_of(s.0),
                spec_bounds_of(t.0),
            ),
    {
        Self::try_from_bounds(&s.0.bounds(), &t.0.bounds())
    }
}

} // verus!
