//! The four atomic endpoint comparators.
//!
//! Each comparator orders one bound of interval `s` against one bound of
//! interval `t`. Two finite bounds compare by the domain's own order; an
//! unbounded bound compares as the extreme value appropriate to its role,
//! so a missing start acts as minus infinity and a missing end as plus
//! infinity, without materializing any sentinel value of the domain.

use vstd::prelude::*;

use vstd::std_specs::cmp::{OrdSpec, PartialOrdSpec};

use core::cmp::Ordering;

use crate::bound::Bound;
use crate::interval::IntervalError;

verus! {

/// Ordering of the start bound of `s` and the start bound of `t`: an unbounded
/// start lies strictly below every finite bound, and two unbounded starts are
/// equal.
pub open spec fn spec_bb<T: Ord>(s: Bound<T>, t: Bound<T>) -> Ordering {
    match (s, t) {
        (Bound::Bounded(a), Bound::Bounded(b)) => a.cmp_spec(&b),
        (Bound::Bounded(_), Bound::Unbounded) => Ordering::Greater,
        (Bound::Unbounded, Bound::Bounded(_)) => Ordering::Less,
        (Bound::Unbounded, Bound::Unbounded) => Ordering::Equal,
    }
}

/// Ordering of the start bound of `s` and the end bound of `t`: whenever
/// either side is unbounded, a start bound lies strictly below an end bound.
pub open spec fn spec_be<T: Ord>(s: Bound<T>, t: Bound<T>) -> Ordering {
    match (s, t) {
        (Bound::Bounded(a), Bound::Bounded(b)) => a.cmp_spec(&b),
        (Bound::Bounded(_), Bound::Unbounded) => Ordering::Less,
        (Bound::Unbounded, Bound::Bounded(_)) => Ordering::Less,
        (Bound::Unbounded, Bound::Unbounded) => Ordering::Less,
    }
}

/// Ordering of the end bound of `s` and the start bound of `t`: whenever
/// either side is unbounded, an end bound lies strictly above a start bound.
pub open spec fn spec_eb<T: Ord>(s: Bound<T>, t: Bound<T>) -> Ordering {
    match (s, t) {
        (Bound::Bounded(a), Bound::Bounded(b)) => a.cmp_spec(&b),
        (Bound::Bounded(_), Bound::Unbounded) => Ordering::Greater,
        (Bound::Unbounded, Bound::Bounded(_)) => Ordering::Greater,
        (Bound::Unbounded, Bound::Unbounded) => Ordering::Greater,
    }
}

/// Ordering of the end bound of `s` and the end bound of `t`: an unbounded end
/// lies strictly above every finite bound, and two unbounded ends are equal.
pub open spec fn spec_ee<T: Ord>(s: Bound<T>, t: Bound<T>) -> Ordering {
    match (s, t) {
        (Bound::Bounded(a), Bound::Bounded(b)) => a.cmp_spec(&b),
        (Bound::Bounded(_), Bound::Unbounded) => Ordering::Less,
        (Bound::Unbounded, Bound::Bounded(_)) => Ordering::Greater,
        (Bound::Unbounded, Bound::Unbounded) => Ordering::Equal,
    }
}

/// As [`spec_bb`], over a partial order: `None` when two finite bounds have no
/// defined order.
pub open spec fn spec_try_bb<T: PartialOrd>(s: Bound<T>, t: Bound<T>) -> Option<Ordering> {
    match (s, t) {
        (Bound::Bounded(a), Bound::Bounded(b)) => a.partial_cmp_spec(&b),
        (Bound::Bounded(_), Bound::Unbounded) => Some(Ordering::Greater),
        (Bound::Unbounded, Bound::Bounded(_)) => Some(Ordering::Less),
        (Bound::Unbounded, Bound::Unbounded) => Some(Ordering::Equal),
    }
}

/// As [`spec_be`], over a partial order.
pub open spec fn spec_try_be<T: PartialOrd>(s: Bound<T>, t: Bound<T>) -> Option<Ordering> {
    match (s, t) {
        (Bound::Bounded(a), Bound::Bounded(b)) => a.partial_cmp_spec(&b),
        (Bound::Bounded(_), Bound::Unbounded) => Some(Ordering::Less),
        (Bound::Unbounded, Bound::Bounded(_)) => Some(Ordering::Less),
        (Bound::Unbounded, Bound::Unbounded) => Some(Ordering::Less),
    }
}

/// As [`spec_eb`], over a partial order.
pub open spec fn spec_try_eb<T: PartialOrd>(s: Bound<T>, t: Bound<T>) -> Option<Ordering> {
    match (s, t) {
        (Bound::Bounded(a), Bound::Bounded(b)) => a.partial_cmp_spec(&b),
        (Bound::Bounded(_), Bound::Unbounded) => Some(Ordering::Greater),
        (Bound::Unbounded, Bound::Bounded(_)) => Some(Ordering::Greater),
        (Bound::Unbounded, Bound::Unbounded) => Some(Ordering::Greater),
    }
}

/// As [`spec_ee`], over a partial order.
pub open spec fn spec_try_ee<T: PartialOrd>(s: Bound<T>, t: Bound<T>) -> Option<Ordering> {
    match (s, t) {
        (Bound::Bounded(a), Bound::Bounded(b)) => a.partial_cmp_spec(&b),
        (Bound::Bounded(_), Bound::Unbounded) => Some(Ordering::Less),
        (Bound::Unbounded, Bound::Bounded(_)) => Some(Ordering::Greater),
        (Bound::Unbounded, Bound::Unbounded) => Some(Ordering::Equal),
    }
}

/// Ordering of the start bound of interval `s` and the start bound of interval `t`.
#[derive(Clone, Copy, Debug, Hash, Eq, PartialEq, Ord, PartialOrd)]
pub struct Bb(pub Ordering);

impl Bb {
    /// Compares two start bounds under a total order.
    pub fn from_bounds<T>(s: &Bound<T>, t: &Bound<T>) -> (r: Self) where T: Ord
        ensures
            T::obeys_cmp_spec() ==> r.0 == spec_bb(*s, *t),
    {
        Self(
            match (s, t) {
                (Bound::Bounded(s), Bound::Bounded(t)) => s.cmp(t),
                (Bound::Bounded(_), Bound::Unbounded) => Ordering::Greater,
                (Bound::Unbounded, Bound::Bounded(_)) => Ordering::Less,
                (Bound::Unbounded, Bound::Unbounded) => Ordering::Equal,
            },
        )
    }

    /// Compares two start bounds under a partial order, failing where the
    /// order leaves a pair of finite bounds unordered.
    pub fn try_from_bounds<T>(s: &Bound<T>, t: &Bound<T>) -> (r: Result<
        Self,
        IntervalError,
    >) where T: PartialOrd
        ensures
            T::obeys_partial_cmp_spec() ==> r == match spec_try_bb(*s, *t) {
                Some(o) => Ok::<Bb, IntervalError>(Bb(o)),
                None => Err(IntervalError::AmbiguousOrder),
            },
    {
        match (s, t) {
            (Bound::Bounded(s), Bound::Bounded(t)) => match s.partial_cmp(t) {
                Some(o) => Ok(Bb(o)),
                None => Err(IntervalError::AmbiguousOrder),
            },
            (Bound::Bounded(_), Bound::Unbounded) => Ok(Bb(Ordering::Greater)),
            (Bound::Unbounded, Bound::Bounded(_)) => Ok(Bb(Ordering::Less)),
            (Bound::Unbounded, Bound::Unbounded) => Ok(Bb(Ordering::Equal)),
        }
    }
}

/// Ordering of the start bound of interval `s` and the end bound of interval `t`.
#[derive(Clone, Copy, Debug, Hash, Eq, PartialEq, Ord, PartialOrd)]
pub struct Be(pub Ordering);

impl Be {
    /// Compares a start bound against an end bound under a total order.
    pub fn from_bounds<T>(s: &Bound<T>, t: &Bound<T>) -> (r: Self) where T: Ord
        ensures
            T::obeys_cmp_spec() ==> r.0 == spec_be(*s, *t),
    {
        Self(
            match (s, t) {
                (Bound::Bounded(s), Bound::Bounded(t)) => s.cmp(t),
                (Bound::Bounded(_), Bound::Unbounded) => Ordering::Less,
                (Bound::Unbounded, Bound::Bounded(_)) => Ordering::Less,
                (Bound::Unbounded, Bound::Unbounded) => Ordering::Less,
            },
        )
    }

    /// Compares a start bound against an end bound under a partial order,
    /// failing where the order leaves a pair of finite bounds unordered.
    pub fn try_from_bounds<T>(s: &Bound<T>, t: &Bound<T>) -> (r: Result<
        Self,
        IntervalError,
    >) where T: PartialOrd
        ensures
            T::obeys_partial_cmp_spec() ==> r == match spec_try_be(*s, *t) {
                Some(o) => Ok::<Be, IntervalError>(Be(o)),
                None => Err(IntervalError::AmbiguousOrder),
            },
    {
        match (s, t) {
            (Bound::Bounded(s), Bound::Bounded(t)) => match s.partial_cmp(t) {
                Some(o) => Ok(Be(o)),
                None => Err(IntervalError::AmbiguousOrder),
            },
            (Bound::Bounded(_), Bound::Unbounded) => Ok(Be(Ordering::Less)),
            (Bound::Unbounded, Bound::Bounded(_)) => Ok(Be(Ordering::Less)),
            (Bound::Unbounded, Bound::Unbounded) => Ok(Be(Ordering::Less)),
        }
    }
}

/// Ordering of the end bound of interval `s` and the start bound of interval `t`.
#[derive(Clone, Copy, Debug, Hash, Eq, PartialEq, Ord, PartialOrd)]
pub struct Eb(pub Ordering);

impl Eb {
    /// Compares an end bound against a start bound under a total order.
    pub fn from_bounds<T>(s: &Bound<T>, t: &Bound<T>) -> (r: Self) where T: Ord
        ensures
            T::obeys_cmp_spec() ==> r.0 == spec_eb(*s, *t),
    {
        Self(
            match (s, t) {
                (Bound::Bounded(s), Bound::Bounded(t)) => s.cmp(t),
                (Bound::Bounded(_), Bound::Unbounded) => Ordering::Greater,
                (Bound::Unbounded, Bound::Bounded(_)) => Ordering::Greater,
                (Bound::Unbounded, Bound::Unbounded) => Ordering::Greater,
            },
        )
    }

    /// Compares an end bound against a start bound under a partial order,
    /// failing where the order leaves a pair of finite bounds unordered.
    pub fn try_from_bounds<T>(s: &Bound<T>, t: &Bound<T>) -> (r: Result<
        Self,
        IntervalError,
    >) where T: PartialOrd
        ensures
            T::obeys_partial_cmp_spec() ==> r == match spec_try_eb(*s, *t) {
                Some(o) => Ok::<Eb, IntervalError>(Eb(o)),
                None => Err(IntervalError::AmbiguousOrder),
            },
    {
        match (s, t) {
            (Bound::Bounded(s), Bound::Bounded(t)) => match s.partial_cmp(t) {
                Some(o) => Ok(Eb(o)),
                None => Err(IntervalError::AmbiguousOrder),
            },
            (Bound::Bounded(_), Bound::Unbounded) => Ok(Eb(Ordering::Greater)),
            (Bound::Unbounded, Bound::Bounded(_)) => Ok(Eb(Ordering::Greater)),
            (Bound::Unbounded, Bound::Unbounded) => Ok(Eb(Ordering::Greater)),
        }
    }
}

/// Ordering of the end bound of interval `s` and the end bound of interval `t`.
#[derive(Clone, Copy, Debug, Hash, Eq, PartialEq, Ord, PartialOrd)]
pub struct Ee(pub Ordering);

impl Ee {
    /// Compares two end bounds under a total order.
    pub fn from_bounds<T>(s: &Bound<T>, t: &Bound<T>) -> (r: Self) where T: Ord
        ensures
            T::obeys_cmp_spec() ==> r.0 == spec_ee(*s, *t),
    {
        Self(
            match (s, t) {
                (Bound::Bounded(s), Bound::Bounded(t)) => s.cmp(t),
                (Bound::Bounded(_), Bound::Unbounded) => Ordering::Less,
                (Bound::Unbounded, Bound::Bounded(_)) => Ordering::Greater,
                (Bound::Unbounded, Bound::Unbounded) => Ordering::Equal,
            },
        )
    }

    /// Compares two end bounds under a partial order, failing where the order
    /// leaves a pair of finite bounds unordered.
    pub fn try_from_bounds<T>(s: &Bound<T>, t: &Bound<T>) -> (r: Result<
        Self,
        IntervalError,
    >) where T: PartialOrd
        ensures
            T::obeys_partial_cmp_spec() ==> r == match spec_try_ee(*s, *t) {
                Some(o) => Ok::<Ee, IntervalError>(Ee(o)),
                None => Err(IntervalError::AmbiguousOrder),
            },
    {
        match (s, t) {
            (Bound::Bounded(s), Bound::Bounded(t)) => match s.partial_cmp(t) {
                Some(o) => Ok(Ee(o)),
                None => Err(IntervalError::AmbiguousOrder),
            },
            (Bound::Bounded(_), Bound::Unbounded) => Ok(Ee(Ordering::Less)),
            (Bound::Unbounded, Bound::Bounded(_)) => Ok(Ee(Ordering::Greater)),
            (Bound::Unbounded, Bound::Unbounded) => Ok(Ee(Ordering::Equal)),
        }
    }
}

} // verus!
