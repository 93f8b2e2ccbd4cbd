use core::cmp::Ordering;
use core::cmp::Ordering::{Equal, Greater, Less};

use allen_interval_relations::{
    AtomicRelations, Bb, Be, Bound, Bounded, Bounds, Eb, Ee, FromRanges, Interval, IntervalBounds,
    IntervalError, IntervalFrom, IntervalFull, IntervalTo, NonEmpty, Relation, RelationOrder,
};

const PAIRS: [(Relation, (i32, i32)); 13] = [
    (Relation::Precedes { is_inverted: false }, (2, 4)),
    (Relation::Meets { is_inverted: false }, (2, 5)),
    (Relation::Overlaps { is_inverted: false }, (2, 6)),
    (Relation::Finishes { is_inverted: true }, (3, 8)),
    (Relation::Contains { is_inverted: false }, (3, 9)),
    (Relation::Starts { is_inverted: false }, (5, 6)),
    (Relation::Equals, (5, 8)),
    (Relation::Starts { is_inverted: true }, (5, 9)),
    (Relation::Contains { is_inverted: true }, (6, 7)),
    (Relation::Finishes { is_inverted: false }, (6, 8)),
    (Relation::Overlaps { is_inverted: true }, (6, 9)),
    (Relation::Meets { is_inverted: true }, (8, 9)),
    (Relation::Precedes { is_inverted: true }, (9, 10)),
];

#[test]
fn thirteen_distinct_relations() {
    // Against the fixed interval 5..8, each of the thirteen relations arises
    // from exactly one of the sample intervals, and no two samples agree.
    let mut seen = Vec::new();
    for (expected, (start, end)) in PAIRS {
        let relation = Relation::from_ranges(start..end, 5..8).unwrap();
        assert_eq!(relation, expected);
        assert!(!seen.contains(&relation));
        seen.push(relation);
    }
    assert_eq!(seen.len(), 13);
}

#[test]
fn swap_consistency() {
    // Classifying the swapped pair gives the converse relation, on every
    // sample pair and in both directions.
    for (_, (start, end)) in PAIRS {
        let forward = Relation::from_ranges(start..end, 5..8).unwrap();
        let backward = Relation::from_ranges(5..8, start..end).unwrap();
        assert_eq!(backward, forward.as_converse());
        assert_eq!(forward, backward.as_converse());
    }
}

#[test]
fn converse_involution() {
    for (relation, _) in PAIRS {
        assert_eq!(relation.as_converse().as_converse(), relation);
    }
}

#[test]
fn converse_fixpoint() {
    assert_eq!(Relation::Equals.as_converse(), Relation::Equals);
    for (relation, _) in PAIRS {
        if relation != Relation::Equals {
            assert_ne!(relation.as_converse(), relation);
        }
    }
}

#[test]
fn classifier_table() {
    // The thirteen consistent tuples of atomic orderings, mapped through the
    // priority-ordered decision table.
    let classify = |bb, be, eb, ee| Relation::from_atomic_relations(Bb(bb), Be(be), Eb(eb), Ee(ee));

    assert_eq!(classify(Less, Less, Less, Less), Relation::Precedes { is_inverted: false });
    assert_eq!(classify(Less, Less, Equal, Less), Relation::Meets { is_inverted: false });
    assert_eq!(classify(Less, Less, Greater, Less), Relation::Overlaps { is_inverted: false });
    assert_eq!(classify(Less, Less, Greater, Equal), Relation::Finishes { is_inverted: true });
    assert_eq!(classify(Less, Less, Greater, Greater), Relation::Contains { is_inverted: false });
    assert_eq!(classify(Equal, Less, Greater, Less), Relation::Starts { is_inverted: false });
    assert_eq!(classify(Equal, Less, Greater, Equal), Relation::Equals);
    assert_eq!(classify(Equal, Less, Greater, Greater), Relation::Starts { is_inverted: true });
    assert_eq!(classify(Greater, Less, Greater, Less), Relation::Contains { is_inverted: true });
    assert_eq!(classify(Greater, Less, Greater, Equal), Relation::Finishes { is_inverted: false });
    assert_eq!(classify(Greater, Less, Greater, Greater), Relation::Overlaps { is_inverted: true });
    assert_eq!(classify(Greater, Equal, Greater, Greater), Relation::Meets { is_inverted: true });
    assert_eq!(classify(Greater, Greater, Greater, Greater), Relation::Precedes {
        is_inverted: true,
    });
}

#[test]
fn literal_scenarios() {
    assert_eq!(
        Relation::from_ranges(2..4, 5..8),
        Ok(Relation::Precedes { is_inverted: false })
    );
    assert_eq!(Relation::from_ranges(2..5, 5..8), Ok(Relation::Meets { is_inverted: false }));
    assert_eq!(Relation::from_ranges(2..6, 5..8), Ok(Relation::Overlaps { is_inverted: false }));
    assert_eq!(Relation::from_ranges(4..7, 4..8), Ok(Relation::Starts { is_inverted: false }));
    assert_eq!(Relation::from_ranges(3..7, 4..6), Ok(Relation::Contains { is_inverted: false }));
    assert_eq!(Relation::from_ranges(4..7, 3..7), Ok(Relation::Finishes { is_inverted: false }));
    assert_eq!(Relation::from_ranges(4..6, 4..6), Ok(Relation::Equals));
}

#[test]
fn meets_at_the_boundary() {
    // The half-open (discrete) and the closed (continuous) reading agree on a
    // shared boundary value; pairs that mix the two end-bound styles are not
    // classifiable at all.
    assert_eq!(Relation::from_ranges(..5, 5..), Ok(Relation::Meets { is_inverted: false }));
    assert_eq!(Relation::from_ranges(..=5, 5..), Ok(Relation::Meets { is_inverted: false }));
    assert_eq!(Relation::from_ranges(..4, 5..), Ok(Relation::Precedes { is_inverted: false }));
    assert_eq!(Relation::from_ranges(..=4, 5..), Ok(Relation::Precedes { is_inverted: false }));
}

#[test]
fn empty_interval_rejection() {
    assert_eq!(Relation::from_ranges(5..5, 1..3), Err(IntervalError::EmptyInterval));
    assert_eq!(Relation::from_ranges(1..3, 5..5), Err(IntervalError::EmptyInterval));
    assert_eq!(Relation::from_ranges(5..4, 1..3), Err(IntervalError::EmptyInterval));
    assert_eq!(Relation::from_ranges(1..3, 5..4), Err(IntervalError::EmptyInterval));
    assert_eq!(Relation::from_ranges(5..=5, 1..=3), Err(IntervalError::EmptyInterval));
    assert_eq!(Relation::from_ranges(1..=3, 5..=5), Err(IntervalError::EmptyInterval));
    assert_eq!(
        AtomicRelations::new((&5, &5), (&1, &3)),
        Err(IntervalError::EmptyInterval)
    );
    assert_eq!(
        AtomicRelations::new((&1, &3), (&5, &5)),
        Err(IntervalError::EmptyInterval)
    );
}

#[test]
fn ambiguous_order() {
    let s = Bounds { start: Bound::Bounded(f64::NAN), end: Bound::Bounded(1.0) };
    let t = Bounds { start: Bound::Bounded(2.0), end: Bound::Bounded(3.0) };
    assert_eq!(Relation::try_from_bounds(&s, &t), Err(IntervalError::AmbiguousOrder));

    let s = Bounds { start: Bound::Bounded(0.5), end: Bound::Bounded(1.5) };
    assert_eq!(
        Relation::try_from_bounds(&s, &t),
        Ok(Relation::Precedes { is_inverted: false })
    );
}

#[test]
fn atomic_relations_getters() {
    let atomics = AtomicRelations::new((&2, &6), (&5, &8)).unwrap();
    assert_eq!(atomics.bb(), Ordering::Less);
    assert_eq!(atomics.be(), Ordering::Less);
    assert_eq!(atomics.eb(), Ordering::Greater);
    assert_eq!(atomics.ee(), Ordering::Less);
}

#[test]
fn relation_total_order() {
    let ranked = [
        Relation::Precedes { is_inverted: false },
        Relation::Meets { is_inverted: false },
        Relation::Overlaps { is_inverted: false },
        Relation::Finishes { is_inverted: true },
        Relation::Contains { is_inverted: false },
        Relation::Starts { is_inverted: false },
        Relation::Equals,
        Relation::Starts { is_inverted: true },
        Relation::Contains { is_inverted: true },
        Relation::Finishes { is_inverted: false },
        Relation::Overlaps { is_inverted: true },
        Relation::Meets { is_inverted: true },
        Relation::Precedes { is_inverted: true },
    ];
    for window in ranked.windows(2) {
        assert!(window[0] < window[1]);
    }
    for relation in ranked {
        assert_eq!(relation.partial_cmp(&relation), Some(Ordering::Equal));
    }
}

#[test]
fn relation_ranks() {
    assert_eq!(Relation::Precedes { is_inverted: false }.order(), RelationOrder::Precedes);
    assert_eq!(Relation::Precedes { is_inverted: true }.order(), RelationOrder::IsPrecededBy);
    assert_eq!(Relation::Meets { is_inverted: false }.order(), RelationOrder::Meets);
    assert_eq!(Relation::Meets { is_inverted: true }.order(), RelationOrder::IsMetBy);
    assert_eq!(Relation::Overlaps { is_inverted: false }.order(), RelationOrder::Overlaps);
    assert_eq!(Relation::Overlaps { is_inverted: true }.order(), RelationOrder::IsOverlappedBy);
    assert_eq!(Relation::Finishes { is_inverted: false }.order(), RelationOrder::Finishes);
    assert_eq!(Relation::Finishes { is_inverted: true }.order(), RelationOrder::IsFinishedBy);
    assert_eq!(Relation::Contains { is_inverted: false }.order(), RelationOrder::Contains);
    assert_eq!(Relation::Contains { is_inverted: true }.order(), RelationOrder::IsContainedBy);
    assert_eq!(Relation::Starts { is_inverted: false }.order(), RelationOrder::Starts);
    assert_eq!(Relation::Starts { is_inverted: true }.order(), RelationOrder::IsStartedBy);
    assert_eq!(Relation::Equals.order(), RelationOrder::Equals);
}

#[test]
fn bounded_extremes() {
    assert_eq!(<i32 as Bounded>::min_value(), i32::MIN);
    assert_eq!(<i32 as Bounded>::max_value(), i32::MAX);
    assert_eq!(<u8 as Bounded>::min_value(), 0);
    assert_eq!(<u8 as Bounded>::max_value(), 255);
    assert_eq!(<isize as Bounded>::min_value(), isize::MIN);
    assert_eq!(<isize as Bounded>::max_value(), isize::MAX);
}

#[test]
fn interval_bounds() {
    let iv = Interval { start: 1, end: 4 };
    assert_eq!(iv.start_bound(), Bound::Bounded(1));
    assert_eq!(iv.end_bound(), Bound::Bounded(4));
    let bounds = iv.bounds();
    assert_eq!(bounds.start, Bound::Bounded(1));
    assert_eq!(bounds.end, Bound::Bounded(4));

    let from = IntervalFrom { start: 1 };
    assert_eq!(from.start_bound(), Bound::Bounded(1));
    assert_eq!(from.end_bound(), Bound::<i32>::Unbounded);

    let to = IntervalTo { end: 4 };
    assert_eq!(to.start_bound(), Bound::<i32>::Unbounded);
    assert_eq!(to.end_bound(), Bound::Bounded(4));

    let full = IntervalFull;
    assert_eq!(
        IntervalBounds::<i32>::start_bound(&full),
        Bound::<i32>::Unbounded
    );
    assert_eq!(IntervalBounds::<i32>::end_bound(&full), Bound::<i32>::Unbounded);

    let wrapped = NonEmpty(Interval { start: 1, end: 4 });
    assert_eq!(wrapped.start_bound(), Bound::Bounded(1));
    assert_eq!(wrapped.end_bound(), Bound::Bounded(4));
}

#[test]
fn range_conversions() {
    assert_eq!(Interval::from(1..4), Interval { start: 1, end: 4 });
    assert_eq!(core::ops::Range::from(Interval { start: 1, end: 4 }), 1..4);
    assert_eq!(Interval::from(1..=4), Interval { start: 1, end: 4 });
    assert_eq!(
        core::ops::RangeInclusive::from(Interval { start: 1, end: 4 }),
        1..=4
    );
    assert_eq!(IntervalFrom::from(1..), IntervalFrom { start: 1 });
    assert_eq!(core::ops::RangeFrom::from(IntervalFrom { start: 1 }), 1..);
    assert_eq!(IntervalTo::from(..4), IntervalTo { end: 4 });
    assert_eq!(core::ops::RangeTo::from(IntervalTo { end: 4 }), ..4);
    assert_eq!(IntervalTo::from(..=4), IntervalTo { end: 4 });
    assert_eq!(core::ops::RangeToInclusive::from(IntervalTo { end: 4 }), ..=4);
    assert_eq!(IntervalFull::from(..), IntervalFull);
}
