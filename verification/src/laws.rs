//! The algebraic laws of the classifier, stated over the four atomic endpoint
//! orderings and proved once and for all.
//!
//! A tuple of orderings `(bb, be, eb, ee)` is *consistent* when it can arise
//! from two non-empty intervals over a totally ordered domain. Exactly
//! thirteen tuples are consistent, one for each relation, and the laws below
//! hold on all of them.

use vstd::prelude::*;

use vstd::std_specs::cmp::{OrdSpec, PartialEqIs, PartialEqSpec, PartialOrdIs, PartialOrdSpec};

use core::cmp::Ordering;

use crate::atomic::{spec_bb, spec_be, spec_eb, spec_ee};
use crate::bound::{Bound, Bounds};
use crate::interval::IntervalError;
use crate::relation::{
    spec_classify, spec_converse, spec_relation_from_bounds, spec_relation_from_endpoints, Relation,
};

verus! {

/// The ordering with its operands exchanged.
pub open spec fn spec_flip(o: Ordering) -> Ordering {
    match o {
        Ordering::Less => Ordering::Greater,
        Ordering::Equal => Ordering::Equal,
        Ordering::Greater => Ordering::Less,
    }
}

/// The defining condition of each relation, as a plain (unordered) predicate
/// over the four atomic endpoint orderings. On consistent tuples exactly one
/// of the thirteen conditions is true.
pub open spec fn spec_condition(
    r: Relation,
    bb: Ordering,
    be: Ordering,
    eb: Ordering,
    ee: Ordering,
) -> bool {
    match r {
        Relation::Precedes { is_inverted: false } => eb == Ordering::Less,
        Relation::Precedes { is_inverted: true } => be == Ordering::Greater,
        Relation::Meets { is_inverted: false } => eb == Ordering::Equal,
        Relation::Meets { is_inverted: true } => be == Ordering::Equal,
        Relation::Finishes { is_inverted: false } => ee == Ordering::Equal && bb
            == Ordering::Greater,
        Relation::Finishes { is_inverted: true } => ee == Ordering::Equal && bb == Ordering::Less,
        Relation::Starts { is_inverted: false } => bb == Ordering::Equal && ee == Ordering::Less,
        Relation::Starts { is_inverted: true } => bb == Ordering::Equal && ee == Ordering::Greater,
        Relation::Contains { is_inverted: false } => bb == Ordering::Less && ee
            == Ordering::Greater,
        Relation::Contains { is_inverted: true } => bb == Ordering::Greater && ee == Ordering::Less,
        Relation::Equals => bb == Ordering::Equal && ee == Ordering::Equal,
        Relation::Overlaps { is_inverted: false } => bb == Ordering::Less && eb
            == Ordering::Greater && ee == Ordering::Less,
        Relation::Overlaps { is_inverted: true } => bb == Ordering::Greater && be == Ordering::Less
            && ee == Ordering::Greater,
    }
}

/// Whether the tuple of atomic orderings can arise from two non-empty
/// intervals over a totally ordered domain: writing `b(s) < e(s)` and
/// `b(t) < e(t)` for non-emptiness, each clause is forced by transitivity.
pub open spec fn spec_consistent(bb: Ordering, be: Ordering, eb: Ordering, ee: Ordering) -> bool {
    &&& (bb != Ordering::Greater ==> be == Ordering::Less)
    &&& (ee != Ordering::Greater ==> be == Ordering::Less)
    &&& (bb != Ordering::Less ==> eb == Ordering::Greater)
    &&& (ee != Ordering::Less ==> eb == Ordering::Greater)
}

/// The lazy, priority-ordered decision table and the eager evaluation of the
/// thirteen plain conditions agree: on every consistent tuple, the classifier
/// returns `r` exactly when `r`'s own condition is true.
pub proof fn lemma_lazy_eager_agree(bb: Ordering, be: Ordering, eb: Ordering, ee: Ordering)
    requires
        spec_consistent(bb, be, eb, ee),
    ensures
        forall|r: Relation| spec_condition(r, bb, be, eb, ee) <==> spec_classify(bb, be, eb, ee)
            == r,
{
}

/// On every consistent tuple exactly one of the thirteen conditions is true:
/// the one of the relation that the classifier returns.
pub proof fn lemma_conditions_exclusive(bb: Ordering, be: Ordering, eb: Ordering, ee: Ordering)
    requires
        spec_consistent(bb, be, eb, ee),
    ensures
        spec_condition(spec_classify(bb, be, eb, ee), bb, be, eb, ee),
        forall|r1: Relation, r2: Relation|
            spec_condition(r1, bb, be, eb, ee) && spec_condition(r2, bb, be, eb, ee) ==> r1 == r2,
{
    lemma_lazy_eager_agree(bb, be, eb, ee);
}

/// Exchanging the two intervals flips each atomic ordering and swaps the roles
/// of `be` and `eb`; on consistent tuples the classifier then returns the
/// converse relation.
pub proof fn lemma_swap_consistency(bb: Ordering, be: Ordering, eb: Ordering, ee: Ordering)
    requires
        spec_consistent(bb, be, eb, ee),
    ensures
        spec_classify(spec_flip(bb), spec_flip(eb), spec_flip(be), spec_flip(ee)) == spec_converse(
            spec_classify(bb, be, eb, ee),
        ),
{
}

/// Whether the domain's comparison behaves as a linear order: exchanging the
/// operands flips the outcome, strict order is transitive, and equal values
/// compare alike against every third value. The comparisons of the integer
/// primitives all qualify.
pub open spec fn spec_cmp_linear<T: Ord>() -> bool {
    &&& forall|a: T, b: T| #[trigger] a.cmp_spec(&b) == spec_flip(b.cmp_spec(&a))
    &&& forall|a: T, b: T, c: T|
        #![trigger a.cmp_spec(&b), b.cmp_spec(&c)]
        a.cmp_spec(&b) == Ordering::Less && b.cmp_spec(&c) == Ordering::Less ==> a.cmp_spec(&c)
            == Ordering::Less
    &&& forall|a: T, b: T, c: T|
        #![trigger a.cmp_spec(&b), b.cmp_spec(&c)]
        a.cmp_spec(&b) == Ordering::Equal ==> a.cmp_spec(&c) == b.cmp_spec(&c)
}

/// Whether an interval given by its bounds is non-empty: its start bound lies
/// strictly below its end bound, an unbounded side counting as the extreme
/// value of its role.
pub open spec fn spec_nonempty<T: Ord>(iv: Bounds<T>) -> bool {
    spec_be(iv.start, iv.end) == Ordering::Less
}

/// The comparisons of the integer primitives behave as a total linear order.
pub proof fn lemma_cmp_linear_int()
    ensures
        spec_cmp_linear::<u8>(),
        spec_cmp_linear::<u16>(),
        spec_cmp_linear::<u32>(),
        spec_cmp_linear::<u64>(),
        spec_cmp_linear::<u128>(),
        spec_cmp_linear::<usize>(),
        spec_cmp_linear::<i8>(),
        spec_cmp_linear::<i16>(),
        spec_cmp_linear::<i32>(),
        spec_cmp_linear::<i64>(),
        spec_cmp_linear::<i128>(),
        spec_cmp_linear::<isize>(),
        spec_cmp_total::<u8>(),
        spec_cmp_total::<u16>(),
        spec_cmp_total::<u32>(),
        spec_cmp_total::<u64>(),
        spec_cmp_total::<u128>(),
        spec_cmp_total::<usize>(),
        spec_cmp_total::<i8>(),
        spec_cmp_total::<i16>(),
        spec_cmp_total::<i32>(),
        spec_cmp_total::<i64>(),
        spec_cmp_total::<i128>(),
        spec_cmp_total::<isize>(),
        spec_eq_consistent::<u8>(),
        spec_eq_consistent::<u16>(),
        spec_eq_consistent::<u32>(),
        spec_eq_consistent::<u64>(),
        spec_eq_consistent::<u128>(),
        spec_eq_consistent::<usize>(),
        spec_eq_consistent::<i8>(),
        spec_eq_consistent::<i16>(),
        spec_eq_consistent::<i32>(),
        spec_eq_consistent::<i64>(),
        spec_eq_consistent::<i128>(),
        spec_eq_consistent::<isize>(),
{
}

/// The four atomic orderings of two non-empty intervals over a linear order
/// form a consistent tuple.
pub proof fn lemma_bounds_consistent<T: Ord>(s: Bounds<T>, t: Bounds<T>)
    requires
        spec_cmp_linear::<T>(),
        spec_nonempty(s),
        spec_nonempty(t),
    ensures
        spec_consistent(
            spec_bb(s.start, t.start),
            spec_be(s.start, t.end),
            spec_eb(s.end, t.start),
            spec_ee(s.end, t.end),
        ),
{
}

/// Totality and exclusivity: for every pair of non-empty intervals over a
/// linear order, exactly one of the thirteen conditions holds of the four
/// atomic orderings, and the classifier returns exactly that relation.
pub proof fn lemma_classification_total<T: Ord>(s: Bounds<T>, t: Bounds<T>)
    requires
        spec_cmp_linear::<T>(),
        spec_nonempty(s),
        spec_nonempty(t),
    ensures
        spec_condition(
            spec_relation_from_bounds(s, t),
            spec_bb(s.start, t.start),
            spec_be(s.start, t.end),
            spec_eb(s.end, t.start),
            spec_ee(s.end, t.end),
        ),
        forall|r1: Relation, r2: Relation|
            spec_condition(
                r1,
                spec_bb(s.start, t.start),
                spec_be(s.start, t.end),
                spec_eb(s.end, t.start),
                spec_ee(s.end, t.end),
            ) && spec_condition(
                r2,
                spec_bb(s.start, t.start),
                spec_be(s.start, t.end),
                spec_eb(s.end, t.start),
                spec_ee(s.end, t.end),
            ) ==> r1 == r2,
{
    lemma_bounds_consistent(s, t);
    lemma_conditions_exclusive(
        spec_bb(s.start, t.start),
        spec_be(s.start, t.end),
        spec_eb(s.end, t.start),
        spec_ee(s.end, t.end),
    );
}

/// Swap consistency: classifying the two intervals in the opposite
/// order gives the converse relation.
pub proof fn lemma_swap_relation<T: Ord>(s: Bounds<T>, t: Bounds<T>)
    requires
        spec_cmp_linear::<T>(),
        spec_nonempty(s),
        spec_nonempty(t),
    ensures
        spec_relation_from_bounds(t, s) == spec_converse(spec_relation_from_bounds(s, t)),
{
    lemma_bounds_consistent(s, t);
    assert(spec_bb(t.start, s.start) == spec_flip(spec_bb(s.start, t.start)));
    assert(spec_be(t.start, s.end) == spec_flip(spec_eb(s.end, t.start)));
    assert(spec_eb(t.end, s.start) == spec_flip(spec_be(s.start, t.end)));
    assert(spec_ee(t.end, s.end) == spec_flip(spec_ee(s.end, t.end)));
    lemma_swap_consistency(
        spec_bb(s.start, t.start),
        spec_be(s.start, t.end),
        spec_eb(s.end, t.start),
        spec_ee(s.end, t.end),
    );
}

/// Whether the domain's partial comparison is in fact the total one: it is
/// defined everywhere and agrees with `cmp`. The comparisons of the integer
/// primitives all qualify.
pub open spec fn spec_cmp_total<T: Ord>() -> bool {
    forall|a: T, b: T| #[trigger] a.partial_cmp_spec(&b) == Some(a.cmp_spec(&b))
}

/// For finite endpoints over a total order: the
/// classification succeeds exactly on the pairs of non-empty intervals, where
/// it returns the relation of the intervals' bounds, and rejects a pair with
/// an empty interval in either position as empty.
pub proof fn lemma_endpoints_classified<T: Ord>(s_start: T, s_end: T, t_start: T, t_end: T)
    requires
        spec_cmp_linear::<T>(),
        spec_cmp_total::<T>(),
    ensures
        s_start.is_lt(&s_end) && t_start.is_lt(&t_end) ==> spec_relation_from_endpoints(
            s_start,
            s_end,
            t_start,
            t_end,
        ) == Ok::<Relation, IntervalError>(
            spec_relation_from_bounds(
                (Bounds { start: Bound::Bounded(s_start), end: Bound::Bounded(s_end) }),
                (Bounds { start: Bound::Bounded(t_start), end: Bound::Bounded(t_end) }),
            ),
        ),
        !(s_start.is_lt(&s_end) && t_start.is_lt(&t_end)) ==> spec_relation_from_endpoints(
            s_start,
            s_end,
            t_start,
            t_end,
        ) == Err::<Relation, IntervalError>(IntervalError::EmptyInterval),
{
}

/// Swap consistency for finite endpoints over a total order: classifying the two
/// non-empty intervals in the opposite order gives the converse relation.
pub proof fn lemma_endpoints_swap<T: Ord>(s_start: T, s_end: T, t_start: T, t_end: T)
    requires
        spec_cmp_linear::<T>(),
        spec_cmp_total::<T>(),
        s_start.is_lt(&s_end),
        t_start.is_lt(&t_end),
    ensures
        spec_relation_from_endpoints(t_start, t_end, s_start, s_end) == match (
        spec_relation_from_endpoints(s_start, s_end, t_start, t_end)) {
            Ok(r) => Ok::<Relation, IntervalError>(spec_converse(r)),
            Err(e) => Err(e),
        },
{
    let s = Bounds { start: Bound::Bounded(s_start), end: Bound::Bounded(s_end) };
    let t = Bounds { start: Bound::Bounded(t_start), end: Bound::Bounded(t_end) };
    lemma_endpoints_classified(s_start, s_end, t_start, t_end);
    lemma_endpoints_classified(t_start, t_end, s_start, s_end);
    lemma_swap_relation(s, t);
}

/// Whether the domain's equality agrees with its comparison: two values are
/// equal exactly when they compare as equal. The integer primitives all
/// qualify.
pub open spec fn spec_eq_consistent<T: Ord>() -> bool {
    forall|a: T, b: T| #[trigger] a.eq_spec(&b) <==> a.cmp_spec(&b) == Ordering::Equal
}

/// The direct relation predicates on two non-empty intervals with finite
/// endpoints agree with the classifier: each predicate holds exactly when the
/// classifier returns the corresponding relation. Since the classifier returns
/// one relation, exactly one of the seven predicates (or the converse of an
/// asymmetric one) holds of every such pair.
pub proof fn lemma_predicates_match_classifier<T: Ord>(s_start: T, s_end: T, t_start: T, t_end: T)
    requires
        spec_cmp_linear::<T>(),
        spec_cmp_total::<T>(),
        spec_eq_consistent::<T>(),
        s_start.is_lt(&s_end),
        t_start.is_lt(&t_end),
    ensures
        s_end.is_lt(&t_start) <==> spec_relation_from_endpoints(s_start, s_end, t_start, t_end)
            == Ok::<Relation, IntervalError>(Relation::Precedes { is_inverted: false }),
        s_end.is_eq(&t_start) <==> spec_relation_from_endpoints(s_start, s_end, t_start, t_end)
            == Ok::<Relation, IntervalError>(Relation::Meets { is_inverted: false }),
        (s_start.is_lt(&t_start) && t_start.is_lt(&s_end) && s_end.is_lt(&t_end))
            <==> spec_relation_from_endpoints(s_start, s_end, t_start, t_end) == Ok::<
            Relation,
            IntervalError,
        >(Relation::Overlaps { is_inverted: false }),
        (s_start.is_eq(&t_start) && s_end.is_lt(&t_end)) <==> spec_relation_from_endpoints(
            s_start,
            s_end,
            t_start,
            t_end,
        ) == Ok::<Relation, IntervalError>(Relation::Starts { is_inverted: false }),
        (s_start.is_lt(&t_start) && s_end.is_gt(&t_end)) <==> spec_relation_from_endpoints(
            s_start,
            s_end,
            t_start,
            t_end,
        ) == Ok::<Relation, IntervalError>(Relation::Contains { is_inverted: false }),
        (s_start.is_gt(&t_start) && s_end.is_eq(&t_end)) <==> spec_relation_from_endpoints(
            s_start,
            s_end,
            t_start,
            t_end,
        ) == Ok::<Relation, IntervalError>(Relation::Finishes { is_inverted: false }),
        (s_start.is_eq(&t_start) && s_end.is_eq(&t_end)) <==> spec_relation_from_endpoints(
            s_start,
            s_end,
            t_start,
            t_end,
        ) == Ok::<Relation, IntervalError>(Relation::Equals),
{
    let s = Bounds { start: Bound::Bounded(s_start), end: Bound::Bounded(s_end) };
    let t = Bounds { start: Bound::Bounded(t_start), end: Bound::Bounded(t_end) };
    lemma_endpoints_classified(s_start, s_end, t_start, t_end);
    lemma_bounds_consistent(s, t);
    lemma_lazy_eager_agree(
        spec_bb(s.start, t.start),
        spec_be(s.start, t.end),
        spec_eb(s.end, t.start),
        spec_ee(s.end, t.end),
    );
}

/// The fixed priority on relations is a total order: every two relations
/// compare, they compare equal exactly when they are the same relation, and
/// exchanging the operands flips the outcome.
pub proof fn lemma_relation_order_total(r1: Relation, r2: Relation)
    ensures
        r1.partial_cmp_spec(&r2) matches Some(_),
        r1.partial_cmp_spec(&r2) == Some(Ordering::Equal) <==> r1 == r2,
        r1.partial_cmp_spec(&r2) == Some(Ordering::Less) <==> r2.partial_cmp_spec(&r1) == Some(
            Ordering::Greater,
        ),
{
}

/// Taking the converse twice gives the relation back.
pub proof fn lemma_converse_involution(r: Relation)
    ensures
        spec_converse(spec_converse(r)) == r,
{
}

/// `Equals` is the only relation that is its own converse.
pub proof fn lemma_converse_fixpoint(r: Relation)
    ensures
        spec_converse(Relation::Equals) == Relation::Equals,
        r != Relation::Equals ==> spec_converse(r) != r,
{
}

} // verus!
