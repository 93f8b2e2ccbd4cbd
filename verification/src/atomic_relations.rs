use vstd::prelude::*;

use vstd::std_specs::cmp::{PartialOrdIs, PartialOrdSpec};

use core::cmp::Ordering;

use crate::bounded::Bounded;
use crate::interval::IntervalError;

verus! {

/// A type describing the possible atomic relations between two intervals
/// (e.g. `s` and `t`).
///
/// Each interval `s` is described by its two endpoints `b(s)` and `e(s)`, and
/// the four orderings between the endpoints of `s` and `t` are jointly
/// sufficient to determine the relation between the intervals:
///
/// - `bb` orders `b(s)` against `b(t)`,
/// - `be` orders `b(s)` against `e(t)`,
/// - `eb` orders `e(s)` against `b(t)`,
/// - `ee` orders `e(s)` against `e(t)`.
#[derive(Clone, Copy, Debug, Hash, Eq, PartialEq)]
pub struct AtomicRelations {
    /// Ordering of `b(s)` against `b(t)`.
    pub bb: Ordering,
    /// Ordering of `b(s)` against `e(t)`.
    pub be: Ordering,
    /// Ordering of `e(s)` against `b(t)`.
    pub eb: Ordering,
    /// Ordering of `e(s)` against `e(t)`.
    pub ee: Ordering,
}

/// The atomic relations of two intervals given by their finite endpoints:
/// an interval whose start does not lie strictly below its end is rejected as
/// empty, and a pair of endpoints without a defined order makes the outcome
/// ambiguous.
pub open spec fn spec_atomic_relations<T: PartialOrd>(
    s_start: T,
    s_end: T,
    t_start: T,
    t_end: T,
) -> Result<AtomicRelations, IntervalError> {
    if s_start.is_ge(&s_end) || t_start.is_ge(&t_end) {
        Err(IntervalError::EmptyInterval)
    } else {
        match (
            s_start.partial_cmp_spec(&t_start),
            s_start.partial_cmp_spec(&t_end),
            s_end.partial_cmp_spec(&t_start),
            s_end.partial_cmp_spec(&t_end),
        ) {
            (Some(bb), Some(be), Some(eb), Some(ee)) => Ok(AtomicRelations { bb, be, eb, ee }),
            _ => Err(IntervalError::AmbiguousOrder),
        }
    }
}

impl AtomicRelations {
    /// Computes the atomic relations between the intervals `s` and `t`, each
    /// given as its pair of finite endpoints.
    pub fn new<T>(s: (&T, &T), t: (&T, &T)) -> (r: Result<Self, IntervalError>) where
        T: PartialOrd + Bounded,

        ensures
            T::obeys_partial_cmp_spec() ==> r == spec_atomic_relations(*s.0, *s.1, *t.0, *t.1),
    {
        let (s_start, s_end) = s;
        let (t_start, t_end) = t;
        if s_start.ge(s_end) || t_start.ge(t_end) {
            return Err(IntervalError::EmptyInterval);
        }
        let bb = match s_start.partial_cmp(t_start) {
            Some(o) => o,
            None => {
                return Err(IntervalError::AmbiguousOrder);
            },
        };
        let be = match s_start.partial_cmp(t_end) {
            Some(o) => o,
            None => {
                return Err(IntervalError::AmbiguousOrder);
            },
        };
        let eb = match s_end.partial_cmp(t_start) {
            Some(o) => o,
            None => {
                return Err(IntervalError::AmbiguousOrder);
            },
        };
        let ee = match s_end.partial_cmp(t_end) {
            Some(o) => o,
            None => {
                return Err(IntervalError::AmbiguousOrder);
            },
        };
        Ok(Self { bb, be, eb, ee })
    }

    /// Returns the ordering between `s`'s start bound and `t`'s start bound.
    pub fn bb(&self) -> (r: Ordering)
        ensures
            r == self.bb,
    {
        self.bb
    }

    /// Returns the ordering between `s`'s start bound and `t`'s end bound.
    pub fn be(&self) -> (r: Ordering)
        ensures
            r == self.be,
    {
        self.be
    }

    /// Returns the ordering between `s`'s end bound and `t`'s start bound.
    pub fn eb(&self) -> (r: Ordering)
        ensures
            r == self.eb,
    {
        self.eb
    }

    /// Returns the ordering between `s`'s end bound and `t`'s end bound.
    pub fn ee(&self) -> (r: Ordering)
        ensures
            r == self.ee,
    {
        self.ee
    }
}

} // verus!
