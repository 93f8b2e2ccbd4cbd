//! Allen's interval algebra over one-dimensional intervals.
//!
//! Thirteen distinct, exhaustive, qualitative relations can hold between two
//! non-empty intervals (precedes, meets, overlaps, starts, finishes, contains,
//! equals, and their converses). The classifier derives the relation from the
//! four orderings between the intervals' endpoints; endpoints may be finite or
//! unbounded, and unbounded endpoints compare as the extreme value appropriate
//! to their role (a missing start acts as minus infinity, a missing end as
//! plus infinity).
//!
//! Classification is defined only for non-empty intervals: an interval with
//! two finite endpoints must have its start strictly below its end, and the
//! classifier rejects a pair with an empty interval as `EmptyInterval`. Over a
//! domain with only a partial order it rejects a pair whose endpoints it
//! cannot order as `AmbiguousOrder`.
//!
//! The laws of the algebra — that exactly one of the thirteen relations holds
//! of every valid pair, that the eager and the short-circuited reading of the
//! decision table agree, that the converse is an involution fixing only
//! `Equals`, and that exchanging the two intervals yields the converse
//! relation — are stated and proved in [`laws`](self).

mod atomic;
mod atomic_relations;
mod bound;
mod bounded;
mod discreteness;
mod from_intervals;
mod from_ranges;
mod interval;
mod laws;
mod non_empty;
mod range_relations;
mod ranges;
mod relation;
mod validator;

pub use self::atomic::{
    spec_bb, spec_be, spec_eb, spec_ee, spec_try_bb, spec_try_be, spec_try_eb, spec_try_ee, Bb, Be,
    Eb, Ee,
};
pub use self::atomic_relations::{spec_atomic_relations, AtomicRelations};
pub use self::bound::{spec_bounds_of, Bound, Bounds, IntervalBounds};
pub use self::bounded::Bounded;
pub use self::discreteness::{Discrete, Discreteness, NonDiscrete};
pub use self::from_intervals::{FromIntervals, TryFromIntervals};
pub use self::from_ranges::FromRanges;
pub use self::interval::{Interval, IntervalError, IntervalFrom, IntervalFull, IntervalTo};
pub use self::laws::{
    lemma_bounds_consistent, lemma_classification_total, lemma_cmp_linear_int,
    lemma_conditions_exclusive, lemma_converse_fixpoint, lemma_converse_involution,
    lemma_endpoints_classified, lemma_endpoints_swap, lemma_lazy_eager_agree,
    lemma_predicates_match_classifier,
    lemma_relation_order_total, lemma_swap_consistency, lemma_swap_relation, spec_cmp_linear, spec_cmp_total, spec_condition, spec_eq_consistent,
    spec_consistent, spec_flip, spec_nonempty,
};
pub use self::non_empty::NonEmpty;
pub use self::range_relations::RangeRelations;
pub use self::relation::{
    spec_classify, spec_converse, spec_relation_from_bounds, spec_relation_from_endpoints,
    spec_try_relation_from_bounds, Contains, Equals, Finishes, Meets, Overlaps, Precedes, Relation,
    RelationOrder, Starts,
};
pub use self::validator::{IntervalValidator, ValidateInterval};
