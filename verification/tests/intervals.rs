use allen_interval_relations::{
    Contains, Equals, Finishes, FromIntervals, Interval, IntervalError, IntervalFrom, IntervalFull,
    IntervalTo, Meets, NonEmpty, Overlaps, Precedes, Relation, Starts,
};

#[test]
fn tests_converses() {
    let symmetric_relations = [Relation::Equals];

    for relation in symmetric_relations {
        let first_converse = relation.as_converse();
        assert_eq!(relation, first_converse);

        let second_converse = first_converse.as_converse();
        assert_eq!(relation, second_converse);
    }

    let asymmetric_relations = [
        Relation::Precedes { is_inverted: false },
        Relation::Meets { is_inverted: false },
        Relation::Overlaps { is_inverted: false },
        Relation::Finishes { is_inverted: false },
        Relation::Contains { is_inverted: false },
        Relation::Starts { is_inverted: false },
    ];

    for relation in asymmetric_relations {
        let first_converse = relation.as_converse();
        assert_ne!(relation, first_converse);

        let second_converse = first_converse.as_converse();
        assert_eq!(relation, second_converse);
    }
}

#[test]
fn non_empty() {
    let min = isize::MIN;
    let mid = 0;
    let max = isize::MAX;

    assert_eq!(
        NonEmpty::try_from(Interval {
            start: min,
            end: min
        }),
        Err(IntervalError::EmptyInterval)
    );
    assert_eq!(
        NonEmpty::try_from(Interval {
            start: mid,
            end: mid
        }),
        Err(IntervalError::EmptyInterval)
    );
    assert_eq!(
        NonEmpty::try_from(Interval {
            start: max,
            end: max
        }),
        Err(IntervalError::EmptyInterval)
    );

    assert_eq!(
        NonEmpty::try_from(Interval {
            start: max,
            end: mid
        }),
        Err(IntervalError::EmptyInterval)
    );
    assert_eq!(
        NonEmpty::try_from(Interval {
            start: mid,
            end: min
        }),
        Err(IntervalError::EmptyInterval)
    );

    assert_eq!(
        NonEmpty::try_from(Interval {
            start: min,
            end: mid
        }),
        Ok(NonEmpty(Interval {
            start: min,
            end: mid
        }))
    );
    assert_eq!(
        NonEmpty::try_from(Interval {
            start: mid,
            end: max
        }),
        Ok(NonEmpty(Interval {
            start: mid,
            end: max
        }))
    );
}

#[test]
fn precedes_interval_to_vs_interval_from() {
    let s: NonEmpty<_> = IntervalTo { end: 4 }.try_into().unwrap();
    let t: NonEmpty<_> = IntervalFrom { start: 5 }.try_into().unwrap();

    assert_eq!(Relation::from_intervals(&s, &t), Relation::Precedes { is_inverted: false });
    assert_eq!(Relation::from_intervals(&t, &s), Relation::Precedes { is_inverted: true });

    assert!(s.precedes(&t));
    assert!(t.is_preceded_by(&s));
}

#[test]
fn precedes_interval_to_vs_interval() {
    let s: NonEmpty<_> = IntervalTo { end: 4 }.try_into().unwrap();
    let t: NonEmpty<_> = Interval { start: 5, end: 8 }.try_into().unwrap();

    assert_eq!(Relation::from_intervals(&s, &t), Relation::Precedes { is_inverted: false });
    assert_eq!(Relation::from_intervals(&t, &s), Relation::Precedes { is_inverted: true });

    assert!(s.precedes(&t));
    assert!(t.is_preceded_by(&s));
}

#[test]
fn precedes_interval_vs_interval_from() {
    let s: NonEmpty<_> = Interval { start: 1, end: 4 }.try_into().unwrap();
    let t: NonEmpty<_> = IntervalFrom { start: 5 }.try_into().unwrap();

    assert_eq!(Relation::from_intervals(&s, &t), Relation::Precedes { is_inverted: false });
    assert_eq!(Relation::from_intervals(&t, &s), Relation::Precedes { is_inverted: true });

    assert!(s.precedes(&t));
    assert!(t.is_preceded_by(&s));
}

#[test]
fn precedes_interval_vs_interval() {
    let s: NonEmpty<_> = Interval { start: 1, end: 4 }.try_into().unwrap();
    let t: NonEmpty<_> = Interval { start: 5, end: 8 }.try_into().unwrap();

    assert_eq!(Relation::from_intervals(&s, &t), Relation::Precedes { is_inverted: false });
    assert_eq!(Relation::from_intervals(&t, &s), Relation::Precedes { is_inverted: true });

    assert!(s.precedes(&t));
    assert!(t.is_preceded_by(&s));
}

#[test]
fn meets_interval_to_vs_interval_from() {
    let s: NonEmpty<_> = IntervalTo { end: 5 }.try_into().unwrap();
    let t: NonEmpty<_> = IntervalFrom { start: 5 }.try_into().unwrap();

    assert_eq!(Relation::from_intervals(&s, &t), Relation::Meets { is_inverted: false });
    assert_eq!(Relation::from_intervals(&t, &s), Relation::Meets { is_inverted: true });

    assert!(s.meets(&t));
    assert!(t.is_met_by(&s));
}

#[test]
fn meets_interval_to_vs_interval() {
    let s: NonEmpty<_> = IntervalTo { end: 5 }.try_into().unwrap();
    let t: NonEmpty<_> = Interval { start: 5, end: 8 }.try_into().unwrap();

    assert_eq!(Relation::from_intervals(&s, &t), Relation::Meets { is_inverted: false });
    assert_eq!(Relation::from_intervals(&t, &s), Relation::Meets { is_inverted: true });

    assert!(s.meets(&t));
    assert!(t.is_met_by(&s));
}

#[test]
fn meets_interval_vs_interval_from() {
    let s: NonEmpty<_> = Interval { start: 1, end: 5 }.try_into().unwrap();
    let t: NonEmpty<_> = IntervalFrom { start: 5 }.try_into().unwrap();

    assert_eq!(Relation::from_intervals(&s, &t), Relation::Meets { is_inverted: false });
    assert_eq!(Relation::from_intervals(&t, &s), Relation::Meets { is_inverted: true });

    assert!(s.meets(&t));
    assert!(t.is_met_by(&s));
}

#[test]
fn meets_interval_vs_interval() {
    let s: NonEmpty<_> = Interval { start: 1, end: 5 }.try_into().unwrap();
    let t: NonEmpty<_> = Interval { start: 5, end: 9 }.try_into().unwrap();

    assert_eq!(Relation::from_intervals(&s, &t), Relation::Meets { is_inverted: false });
    assert_eq!(Relation::from_intervals(&t, &s), Relation::Meets { is_inverted: true });

    assert!(s.meets(&t));
    assert!(t.is_met_by(&s));
}

#[test]
fn overlaps_interval_to_vs_interval_from() {
    let s: NonEmpty<_> = IntervalTo { end: 6 }.try_into().unwrap();
    let t: NonEmpty<_> = IntervalFrom { start: 4 }.try_into().unwrap();

    assert_eq!(Relation::from_intervals(&s, &t), Relation::Overlaps { is_inverted: false });
    assert_eq!(Relation::from_intervals(&t, &s), Relation::Overlaps { is_inverted: true });

    assert!(s.overlaps(&t));
    assert!(t.is_overlapped_by(&s));
}

#[test]
fn overlaps_interval_to_vs_interval() {
    let s: NonEmpty<_> = IntervalTo { end: 5 }.try_into().unwrap();
    let t: NonEmpty<_> = Interval { start: 4, end: 7 }.try_into().unwrap();

    assert_eq!(Relation::from_intervals(&s, &t), Relation::Overlaps { is_inverted: false });
    assert_eq!(Relation::from_intervals(&t, &s), Relation::Overlaps { is_inverted: true });

    assert!(s.overlaps(&t));
    assert!(t.is_overlapped_by(&s));
}

#[test]
fn overlaps_interval_vs_interval_from() {
    let s: NonEmpty<_> = Interval { start: 3, end: 6 }.try_into().unwrap();
    let t: NonEmpty<_> = IntervalFrom { start: 4 }.try_into().unwrap();

    assert_eq!(Relation::from_intervals(&s, &t), Relation::Overlaps { is_inverted: false });
    assert_eq!(Relation::from_intervals(&t, &s), Relation::Overlaps { is_inverted: true });

    assert!(s.overlaps(&t));
    assert!(t.is_overlapped_by(&s));
}

#[test]
fn overlaps_interval_vs_interval() {
    let s: NonEmpty<_> = Interval { start: 3, end: 6 }.try_into().unwrap();
    let t: NonEmpty<_> = Interval { start: 4, end: 7 }.try_into().unwrap();

    assert_eq!(Relation::from_intervals(&s, &t), Relation::Overlaps { is_inverted: false });
    assert_eq!(Relation::from_intervals(&t, &s), Relation::Overlaps { is_inverted: true });

    assert!(s.overlaps(&t));
    assert!(t.is_overlapped_by(&s));
}

#[test]
fn starts_interval_vs_interval_from() {
    let s: NonEmpty<_> = Interval { start: 4, end: 7 }.try_into().unwrap();
    let t: NonEmpty<_> = IntervalFrom { start: 4 }.try_into().unwrap();

    assert_eq!(Relation::from_intervals(&s, &t), Relation::Starts { is_inverted: false });
    assert_eq!(Relation::from_intervals(&t, &s), Relation::Starts { is_inverted: true });

    assert!(s.starts(&t));
    assert!(t.is_started_by(&s));
}

#[test]
fn starts_interval_vs_interval() {
    let s: NonEmpty<_> = Interval { start: 4, end: 7 }.try_into().unwrap();
    let t: NonEmpty<_> = Interval { start: 4, end: 8 }.try_into().unwrap();

    assert_eq!(Relation::from_intervals(&s, &t), Relation::Starts { is_inverted: false });
    assert_eq!(Relation::from_intervals(&t, &s), Relation::Starts { is_inverted: true });

    assert!(s.starts(&t));
    assert!(t.is_started_by(&s));
}

#[test]
fn contains_interval_full_vs_interval() {
    let s: NonEmpty<_> = IntervalFull.try_into().unwrap();
    let t: NonEmpty<_> = Interval { start: 4, end: 6 }.try_into().unwrap();

    assert_eq!(Relation::from_intervals(&s, &t), Relation::Contains { is_inverted: false });
    assert_eq!(Relation::from_intervals(&t, &s), Relation::Contains { is_inverted: true });

    assert!(s.contains(&t));
    assert!(t.is_contained_by(&s));
}

#[test]
fn contains_interval_to_vs_interval() {
    let s: NonEmpty<_> = IntervalTo { end: 6 }.try_into().unwrap();
    let t: NonEmpty<_> = Interval { start: 2, end: 5 }.try_into().unwrap();

    assert_eq!(Relation::from_intervals(&s, &t), Relation::Contains { is_inverted: false });
    assert_eq!(Relation::from_intervals(&t, &s), Relation::Contains { is_inverted: true });

    assert!(s.contains(&t));
    assert!(t.is_contained_by(&s));
}

#[test]
fn contains_interval_from_vs_interval() {
    let s: NonEmpty<_> = IntervalFrom { start: 3 }.try_into().unwrap();
    let t: NonEmpty<_> = Interval { start: 4, end: 7 }.try_into().unwrap();

    assert_eq!(Relation::from_intervals(&s, &t), Relation::Contains { is_inverted: false });
    assert_eq!(Relation::from_intervals(&t, &s), Relation::Contains { is_inverted: true });

    assert!(s.contains(&t));
    assert!(t.is_contained_by(&s));
}

#[test]
fn contains_interval_vs_interval() {
    let s: NonEmpty<_> = Interval { start: 3, end: 7 }.try_into().unwrap();
    let t: NonEmpty<_> = Interval { start: 4, end: 6 }.try_into().unwrap();

    assert_eq!(Relation::from_intervals(&s, &t), Relation::Contains { is_inverted: false });
    assert_eq!(Relation::from_intervals(&t, &s), Relation::Contains { is_inverted: true });

    assert!(s.contains(&t));
    assert!(t.is_contained_by(&s));
}

#[test]
fn finishes_interval_vs_interval_to() {
    let s: NonEmpty<_> = Interval { start: 4, end: 7 }.try_into().unwrap();
    let t: NonEmpty<_> = IntervalTo { end: 7 }.try_into().unwrap();

    assert_eq!(Relation::from_intervals(&s, &t), Relation::Finishes { is_inverted: false });
    assert_eq!(Relation::from_intervals(&t, &s), Relation::Finishes { is_inverted: true });

    assert!(s.finishes(&t));
    assert!(t.is_finished_by(&s));
}

#[test]
fn finishes_interval_vs_interval() {
    let s: NonEmpty<_> = Interval { start: 4, end: 7 }.try_into().unwrap();
    let t: NonEmpty<_> = Interval { start: 3, end: 7 }.try_into().unwrap();

    assert_eq!(Relation::from_intervals(&s, &t), Relation::Finishes { is_inverted: false });
    assert_eq!(Relation::from_intervals(&t, &s), Relation::Finishes { is_inverted: true });

    assert!(s.finishes(&t));
    assert!(t.is_finished_by(&s));
}

#[test]
fn equals_interval_full_vs_interval_full() {
    let s: NonEmpty<_> = IntervalFull.try_into().unwrap();
    let t: NonEmpty<_> = IntervalFull.try_into().unwrap();

    assert_eq!(Relation::from_intervals(&s, &t), Relation::Equals);
    assert_eq!(Relation::from_intervals(&t, &s), Relation::Equals);

    assert!(s.equals(&t));
    assert!(t.equals(&s));
}

#[test]
fn equals_interval_to_vs_interval_to() {
    let s: NonEmpty<_> = IntervalTo { end: 7 }.try_into().unwrap();
    let t: NonEmpty<_> = IntervalTo { end: 7 }.try_into().unwrap();

    assert_eq!(Relation::from_intervals(&s, &t), Relation::Equals);
    assert_eq!(Relation::from_intervals(&t, &s), Relation::Equals);

    assert!(s.equals(&t));
    assert!(t.equals(&s));
}

#[test]
fn equals_interval_from_vs_interval_from() {
    let s: NonEmpty<_> = IntervalFrom { start: 3 }.try_into().unwrap();
    let t: NonEmpty<_> = IntervalFrom { start: 3 }.try_into().unwrap();

    assert_eq!(Relation::from_intervals(&s, &t), Relation::Equals);
    assert_eq!(Relation::from_intervals(&t, &s), Relation::Equals);

    assert!(s.equals(&t));
    assert!(t.equals(&s));
}

#[test]
fn equals_interval_vs_interval() {
    let s: NonEmpty<_> = Interval { start: 3, end: 7 }.try_into().unwrap();
    let t: NonEmpty<_> = Interval { start: 3, end: 7 }.try_into().unwrap();

    assert_eq!(Relation::from_intervals(&s, &t), Relation::Equals);
    assert_eq!(Relation::from_intervals(&t, &s), Relation::Equals);

    assert!(s.equals(&t));
    assert!(t.equals(&s));
}

