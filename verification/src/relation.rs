mod contains;
mod intervals;
mod ranges;
mod equals;
mod finishes;
mod meets;
mod overlaps;
mod precedes;
mod starts;

pub use self::contains::Contains;
pub use self::ranges::spec_relation_from_endpoints;
pub use self::equals::Equals;
pub use self::finishes::Finishes;
pub use self::meets::Meets;
pub use self::overlaps::Overlaps;
pub use self::precedes::Precedes;
pub use self::starts::Starts;

use vstd::prelude::*;

use vstd::std_specs::cmp::{OrdSpec, PartialOrdSpec};

use core::cmp::Ordering;

use crate::atomic::{
    spec_bb, spec_be, spec_eb, spec_ee, spec_try_bb, spec_try_be, spec_try_eb, spec_try_ee, Bb, Be,
    Eb, Ee,
};
use crate::bound::Bounds;
use crate::interval::IntervalError;

verus! {

/// The relation between two intervals given by their bounds, under a total
/// order on the domain.
pub open spec fn spec_relation_from_bounds<T: Ord>(s: Bounds<T>, t: Bounds<T>) -> Relation {
    spec_classify(
        spec_bb(s.start, t.start),
        spec_be(s.start, t.end),
        spec_eb(s.end, t.start),
        spec_ee(s.end, t.end),
    )
}

/// The relation between two intervals given by their bounds, under a partial
/// order on the domain: the classification fails exactly when one of the four
/// endpoint comparisons is undefined.
pub open spec fn spec_try_relation_from_bounds<T: PartialOrd>(s: Bounds<T>, t: Bounds<T>) -> Result<
    Relation,
    IntervalError,
> {
    match (
        spec_try_bb(s.start, t.start),
        spec_try_be(s.start, t.end),
        spec_try_eb(s.end, t.start),
        spec_try_ee(s.end, t.end),
    ) {
        (Some(bb), Some(be), Some(eb), Some(ee)) => Ok(spec_classify(bb, be, eb, ee)),
        _ => Err(IntervalError::AmbiguousOrder),
    }
}

/// The rank of a relation in the fixed total order on relations.
///
/// Relations are ranked by the degree to which `s` begins before `t`, and then
/// within that by the degree to which `s` ends before `t`.
#[derive(Clone, Copy, Debug, Hash, Eq, PartialEq, Structural)]
pub enum RelationOrder {
    /// Rank of "s precedes t".
    Precedes,
    /// Rank of "s meets t".
    Meets,
    /// Rank of "s overlaps t".
    Overlaps,
    /// Rank of "s is finished by t".
    IsFinishedBy,
    /// Rank of "s contains t".
    Contains,
    /// Rank of "s starts t".
    Starts,
    /// Rank of "s equals t".
    Equals,
    /// Rank of "s is started by t".
    IsStartedBy,
    /// Rank of "s is contained by t".
    IsContainedBy,
    /// Rank of "s finishes t".
    Finishes,
    /// Rank of "s is overlapped by t".
    IsOverlappedBy,
    /// Rank of "s is met by t".
    IsMetBy,
    /// Rank of "s is preceded by t".
    IsPrecededBy,
}

/// A type describing the possible relations between two intervals (e.g. `s` and `t`).
///
/// The relations are comparable (via `partial_cmp`) by the degree to which `s` begins
/// before `t` and then within that by the degree to which `s` ends before `t`.
///
/// Six pairs of the relations are converses. For example, the converse of
/// "s precedes t" is "t is preceded by s"; whenever the first relation is true,
/// its converse is true also. The thirteenth, "s equals t", is its own converse.
#[derive(Clone, Copy, Debug, Hash, Eq, PartialEq, Structural)]
pub enum Relation {
    /// `Precedes { is_inverted: false }`:
    ///
    /// ```plain
    /// s: ┌────────┐
    /// t:            └────────┘
    /// ```
    ///
    /// `Precedes { is_inverted: true }`:
    ///
    /// ```plain
    /// s:            ┌────────┐
    /// t: └────────┘
    /// ```
    Precedes {
        /// `true` iff the relation is inverted, otherwise `false`.
        ///
        /// - `false` => "s precedes t"
        /// - `true` => "s is preceded by t"
        is_inverted: bool,
    },
    /// `Meets { is_inverted: false }`:
    ///
    /// ```plain
    /// s: ┌────────┐
    /// t:          └────────┘
    /// ```
    ///
    /// `Meets { is_inverted: true }`:
    ///
    /// ```plain
    /// s:          ┌────────┐
    /// t: └────────┘
    /// ```
    Meets {
        /// `true` iff the relation is inverted, otherwise `false`.
        ///
        /// - `false` => "s meets t"
        /// - `true` => "s is met by t"
        is_inverted: bool,
    },
    /// `Overlaps { is_inverted: false }`:
    ///
    /// ```plain
    /// s: ┌────────┐
    /// t:      └────────┘
    /// ```
    ///
    /// `Overlaps { is_inverted: true }`:
    ///
    /// ```plain
    /// s:      ┌────────┐
    /// t: └────────┘
    /// ```
    Overlaps {
        /// `true` iff the relation is inverted, otherwise `false`.
        ///
        /// - `false` => "s overlaps t"
        /// - `true` => "s is overlapped by t"
        is_inverted: bool,
    },
    /// `Finishes { is_inverted: false }`:
    ///
    /// ```plain
    /// s:         ┌────────┐
    /// t: └────────────────┘
    /// ```
    ///
    /// `Finishes { is_inverted: true }`:
    ///
    /// ```plain
    /// s: ┌────────────────┐
    /// t:         └────────┘
    /// ```
    Finishes {
        /// `true` iff the relation is inverted, otherwise `false`.
        ///
        /// - `false` => "s finishes t"
        /// - `true` => "s is finished by t"
        is_inverted: bool,
    },
    /// `Contains { is_inverted: false }`:
    ///
    /// ```plain
    /// s: ┌────────────────┐
    /// t:     └────────┘
    /// ```
    ///
    /// `Contains { is_inverted: true }`:
    ///
    /// ```plain
    /// s:     ┌────────┐
    /// t: └────────────────┘
    /// ```
    Contains {
        /// `true` iff the relation is inverted, otherwise `false`.
        ///
        /// - `false` => "s contains t"
        /// - `true` => "s is contained by t"
        is_inverted: bool,
    },
    /// `Starts { is_inverted: false }`:
    ///
    /// ```plain
    /// s: ┌────────┐
    /// t: └────────────────┘
    /// ```
    ///
    /// `Starts { is_inverted: true }`:
    ///
    /// ```plain
    /// s: ┌────────────────┐
    /// t: └────────┘
    /// ```
    Starts {
        /// `true` iff the relation is inverted, otherwise `false`.
        ///
        /// - `false` => "s starts t"
        /// - `true` => "s is started by t"
        is_inverted: bool,
    },
    /// `Equals`:
    ///
    /// ```plain
    /// s: ┌────────┐
    /// t: └────────┘
    /// ```
    Equals,
}

/// The converse of a relation: the relation that holds of `(t, s)` whenever
/// the given one holds of `(s, t)`.
pub open spec fn spec_converse(r: Relation) -> Relation {
    match r {
        Relation::Precedes { is_inverted } => Relation::Precedes { is_inverted: !is_inverted },
        Relation::Meets { is_inverted } => Relation::Meets { is_inverted: !is_inverted },
        Relation::Overlaps { is_inverted } => Relation::Overlaps { is_inverted: !is_inverted },
        Relation::Finishes { is_inverted } => Relation::Finishes { is_inverted: !is_inverted },
        Relation::Contains { is_inverted } => Relation::Contains { is_inverted: !is_inverted },
        Relation::Starts { is_inverted } => Relation::Starts { is_inverted: !is_inverted },
        Relation::Equals => Relation::Equals,
    }
}

/// The relation determined by the four atomic endpoint orderings, decided in
/// priority order: `bb` orders the two start bounds, `be` orders `s`'s start
/// against `t`'s end, `eb` orders `s`'s end against `t`'s start, and `ee`
/// orders the two end bounds.
pub open spec fn spec_classify(bb: Ordering, be: Ordering, eb: Ordering, ee: Ordering) -> Relation {
    match (bb, be, eb, ee) {
        (_, _, Ordering::Less, _) => Relation::Precedes { is_inverted: false },
        (_, Ordering::Greater, _, _) => Relation::Precedes { is_inverted: true },
        (_, _, Ordering::Equal, _) => Relation::Meets { is_inverted: false },
        (_, Ordering::Equal, _, _) => Relation::Meets { is_inverted: true },
        (Ordering::Greater, _, _, Ordering::Equal) => Relation::Finishes { is_inverted: false },
        (Ordering::Less, _, _, Ordering::Equal) => Relation::Finishes { is_inverted: true },
        (Ordering::Equal, _, _, Ordering::Less) => Relation::Starts { is_inverted: false },
        (Ordering::Equal, _, _, Ordering::Greater) => Relation::Starts { is_inverted: true },
        (Ordering::Less, _, _, Ordering::Greater) => Relation::Contains { is_inverted: false },
        (Ordering::Greater, _, _, Ordering::Less) => Relation::Contains { is_inverted: true },
        (Ordering::Equal, _, _, Ordering::Equal) => Relation::Equals,
        (Ordering::Less, _, Ordering::Greater, Ordering::Less) => Relation::Overlaps {
            is_inverted: false,
        },
        (Ordering::Greater, Ordering::Less, _, Ordering::Greater) => Relation::Overlaps {
            is_inverted: true,
        },
    }
}

impl Relation {
    /// Classifies the relation of the interval with bounds `s` against the one
    /// with bounds `t`, under a total order on the domain.
    pub fn from_bounds<T>(s: &Bounds<T>, t: &Bounds<T>) -> (r: Self) where T: Ord
        ensures
            T::obeys_cmp_spec() ==> r == spec_relation_from_bounds(*s, *t),
    {
        let bb = Bb::from_bounds(&s.start, &t.start);
        let be = Be::from_bounds(&s.start, &t.end);
        let eb = Eb::from_bounds(&s.end, &t.start);
        let ee = Ee::from_bounds(&s.end, &t.end);
        Self::from_atomic_relations(bb, be, eb, ee)
    }

    /// Classifies the relation of the interval with bounds `s` against the one
    /// with bounds `t`, under a partial order on the domain: fails with
    /// `AmbiguousOrder` exactly when one of the four endpoint comparisons is
    /// undefined.
    pub fn try_from_bounds<T>(s: &Bounds<T>, t: &Bounds<T>) -> (r: Result<
        Self,
        IntervalError,
    >) where T: PartialOrd
        ensures
            T::obeys_partial_cmp_spec() ==> r == spec_try_relation_from_bounds(*s, *t),
    {
        let bb = match Bb::try_from_bounds(&s.start, &t.start) {
            Ok(o) => o,
            Err(e) => {
                return Err(e);
            },
        };
        let be = match Be::try_from_bounds(&s.start, &t.end) {
            Ok(o) => o,
            Err(e) => {
                return Err(e);
            },
        };
        let eb = match Eb::try_from_bounds(&s.end, &t.start) {
            Ok(o) => o,
            Err(e) => {
                return Err(e);
            },
        };
        let ee = match Ee::try_from_bounds(&s.end, &t.end) {
            Ok(o) => o,
            Err(e) => {
                return Err(e);
            },
        };
        Ok(Self::from_atomic_relations(bb, be, eb, ee))
    }

    /// Maps the four atomic endpoint orderings to the relation they determine.
    ///
    /// Each of Allen's relations is a boolean combination of atomic endpoint
    /// orderings, and the guarded branches are tried from the most to the
    /// least discriminating one, so the relation is decided from the minimum
    /// necessary subset of the four orderings.
    pub fn from_atomic_relations(bb: Bb, be: Be, eb: Eb, ee: Ee) -> (r: Self)
        ensures
            r == spec_classify(bb.0, be.0, eb.0, ee.0),
    {
        match (bb.0, be.0, eb.0, ee.0) {
            (_, _, Ordering::Less, _) => Self::Precedes { is_inverted: false },
            (_, Ordering::Greater, _, _) => Self::Precedes { is_inverted: true },
            (_, _, Ordering::Equal, _) => Self::Meets { is_inverted: false },
            (_, Ordering::Equal, _, _) => Self::Meets { is_inverted: true },
            (Ordering::Greater, _, _, Ordering::Equal) => Self::Finishes { is_inverted: false },
            (Ordering::Less, _, _, Ordering::Equal) => Self::Finishes { is_inverted: true },
            (Ordering::Equal, _, _, Ordering::Less) => Self::Starts { is_inverted: false },
            (Ordering::Equal, _, _, Ordering::Greater) => Self::Starts { is_inverted: true },
            (Ordering::Less, _, _, Ordering::Greater) => Self::Contains { is_inverted: false },
            (Ordering::Greater, _, _, Ordering::Less) => Self::Contains { is_inverted: true },
            (Ordering::Equal, _, _, Ordering::Equal) => Self::Equals,
            (Ordering::Less, _, Ordering::Greater, Ordering::Less) => Self::Overlaps {
                is_inverted: false,
            },
            (Ordering::Greater, Ordering::Less, _, Ordering::Greater) => Self::Overlaps {
                is_inverted: true,
            },
        }
    }

    /// Returns the relation's rank in the fixed total order.
    pub open spec fn spec_order(self) -> RelationOrder {
        match self {
            Relation::Precedes { is_inverted: false } => RelationOrder::Precedes,
            Relation::Precedes { is_inverted: true } => RelationOrder::IsPrecededBy,
            Relation::Meets { is_inverted: false } => RelationOrder::Meets,
            Relation::Meets { is_inverted: true } => RelationOrder::IsMetBy,
            Relation::Overlaps { is_inverted: false } => RelationOrder::Overlaps,
            Relation::Overlaps { is_inverted: true } => RelationOrder::IsOverlappedBy,
            Relation::Finishes { is_inverted: false } => RelationOrder::Finishes,
            Relation::Finishes { is_inverted: true } => RelationOrder::IsFinishedBy,
            Relation::Contains { is_inverted: false } => RelationOrder::Contains,
            Relation::Contains { is_inverted: true } => RelationOrder::IsContainedBy,
            Relation::Starts { is_inverted: false } => RelationOrder::Starts,
            Relation::Starts { is_inverted: true } => RelationOrder::IsStartedBy,
            Relation::Equals => RelationOrder::Equals,
        }
    }

    /// Returns the relation's rank in the fixed total order.
    pub fn order(&self) -> (r: RelationOrder)
        ensures
            r == self.spec_order(),
    {
        match self {
            Relation::Precedes { is_inverted: false } => RelationOrder::Precedes,
            Relation::Precedes { is_inverted: true } => RelationOrder::IsPrecededBy,
            Relation::Meets { is_inverted: false } => RelationOrder::Meets,
            Relation::Meets { is_inverted: true } => RelationOrder::IsMetBy,
            Relation::Overlaps { is_inverted: false } => RelationOrder::Overlaps,
            Relation::Overlaps { is_inverted: true } => RelationOrder::IsOverlappedBy,
            Relation::Finishes { is_inverted: false } => RelationOrder::Finishes,
            Relation::Finishes { is_inverted: true } => RelationOrder::IsFinishedBy,
            Relation::Contains { is_inverted: false } => RelationOrder::Contains,
            Relation::Contains { is_inverted: true } => RelationOrder::IsContainedBy,
            Relation::Starts { is_inverted: false } => RelationOrder::Starts,
            Relation::Starts { is_inverted: true } => RelationOrder::IsStartedBy,
            Relation::Equals => RelationOrder::Equals,
        }
    }

    /// The relation's position in the fixed total order, as a number:
    /// `Precedes` is ranked 0 and `IsPrecededBy` is ranked 12.
    pub open spec fn spec_rank(self) -> int {
        match self.spec_order() {
            RelationOrder::Precedes => 0,
            RelationOrder::Meets => 1,
            RelationOrder::Overlaps => 2,
            RelationOrder::IsFinishedBy => 3,
            RelationOrder::Contains => 4,
            RelationOrder::Starts => 5,
            RelationOrder::Equals => 6,
            RelationOrder::IsStartedBy => 7,
            RelationOrder::IsContainedBy => 8,
            RelationOrder::Finishes => 9,
            RelationOrder::IsOverlappedBy => 10,
            RelationOrder::IsMetBy => 11,
            RelationOrder::IsPrecededBy => 12,
        }
    }

    fn rank(&self) -> (r: u8)
        ensures
            r as int == self.spec_rank(),
    {
        match self.order() {
            RelationOrder::Precedes => 0,
            RelationOrder::Meets => 1,
            RelationOrder::Overlaps => 2,
            RelationOrder::IsFinishedBy => 3,
            RelationOrder::Contains => 4,
            RelationOrder::Starts => 5,
            RelationOrder::Equals => 6,
            RelationOrder::IsStartedBy => 7,
            RelationOrder::IsContainedBy => 8,
            RelationOrder::Finishes => 9,
            RelationOrder::IsOverlappedBy => 10,
            RelationOrder::IsMetBy => 11,
            RelationOrder::IsPrecededBy => 12,
        }
    }

    /// Returns the relation's converse.
    pub fn as_converse(&self) -> (r: Self)
        ensures
            r == spec_converse(*self),
    {
        match self {
            Self::Precedes { is_inverted } => Self::Precedes { is_inverted: !is_inverted },
            Self::Meets { is_inverted } => Self::Meets { is_inverted: !is_inverted },
            Self::Overlaps { is_inverted } => Self::Overlaps { is_inverted: !is_inverted },
            Self::Finishes { is_inverted } => Self::Finishes { is_inverted: !is_inverted },
            Self::Contains { is_inverted } => Self::Contains { is_inverted: !is_inverted },
            Self::Starts { is_inverted } => Self::Starts { is_inverted: !is_inverted },
            Self::Equals => Self::Equals,
        }
    }
}

impl PartialOrd for Relation {
    fn partial_cmp(&self, other: &Self) -> (r: Option<Ordering>) {
        let a = self.rank();
        let b = other.rank();
        if a < b {
            Some(Ordering::Less)
        } else if a > b {
            Some(Ordering::Greater)
        } else {
            Some(Ordering::Equal)
        }
    }
}

impl vstd::std_specs::cmp::PartialOrdSpecImpl for Relation {
    open spec fn obeys_partial_cmp_spec() -> bool {
        true
    }

    open spec fn partial_cmp_spec(&self, other: &Self) -> Option<Ordering> {
        if self.spec_rank() < other.spec_rank() {
            Some(Ordering::Less)
        } else if self.spec_rank() > other.spec_rank() {
            Some(Ordering::Greater)
        } else {
            Some(Ordering::Equal)
        }
    }
}

} // verus!
