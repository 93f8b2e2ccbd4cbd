use core::cmp::Ordering;

use allen_interval_relations::{Bb, Be, Bound, Eb, Ee};

#[test]
fn bb_bounded_bounded() {
    assert_eq!(
        Bb::from_bounds(&Bound::Bounded(isize::MIN), &Bound::Bounded(0)),
        Bb(Ordering::Less)
    );
    assert_eq!(
        Bb::from_bounds(&Bound::Bounded(0), &Bound::Bounded(0)),
        Bb(Ordering::Equal)
    );
    assert_eq!(
        Bb::from_bounds(&Bound::Bounded(isize::MAX), &Bound::Bounded(0)),
        Bb(Ordering::Greater)
    );
}

#[test]
fn bb_bounded_unbounded() {
    assert_eq!(
        Bb::from_bounds(&Bound::Bounded(isize::MIN), &Bound::Unbounded),
        Bb(Ordering::Greater)
    );
    assert_eq!(
        Bb::from_bounds(&Bound::Bounded(0), &Bound::Unbounded),
        Bb(Ordering::Greater)
    );
    assert_eq!(
        Bb::from_bounds(&Bound::Bounded(isize::MAX), &Bound::Unbounded),
        Bb(Ordering::Greater)
    );
}

#[test]
fn bb_unbounded_bounded() {
    assert_eq!(
        Bb::from_bounds(&Bound::Unbounded, &Bound::Bounded(isize::MIN)),
        Bb(Ordering::Less)
    );
    assert_eq!(
        Bb::from_bounds(&Bound::Unbounded, &Bound::Bounded(0)),
        Bb(Ordering::Less)
    );
    assert_eq!(
        Bb::from_bounds(&Bound::Unbounded, &Bound::Bounded(isize::MAX)),
        Bb(Ordering::Less)
    );
}

#[test]
fn bb_unbounded_unbounded() {
    assert_eq!(
        Bb::from_bounds::<isize>(&Bound::Unbounded, &Bound::Unbounded),
        Bb(Ordering::Equal)
    );
}

#[test]
fn be_bounded_bounded() {
    assert_eq!(
        Be::from_bounds(&Bound::Bounded(isize::MIN), &Bound::Bounded(0)),
        Be(Ordering::Less)
    );
    assert_eq!(
        Be::from_bounds(&Bound::Bounded(0), &Bound::Bounded(0)),
        Be(Ordering::Equal)
    );
    assert_eq!(
        Be::from_bounds(&Bound::Bounded(isize::MAX), &Bound::Bounded(0)),
        Be(Ordering::Greater)
    );
}

#[test]
fn be_bounded_unbounded() {
    assert_eq!(
        Be::from_bounds(&Bound::Bounded(isize::MIN), &Bound::Unbounded),
        Be(Ordering::Less)
    );
    assert_eq!(
        Be::from_bounds(&Bound::Bounded(0), &Bound::Unbounded),
        Be(Ordering::Less)
    );
    assert_eq!(
        Be::from_bounds(&Bound::Bounded(isize::MAX), &Bound::Unbounded),
        Be(Ordering::Less)
    );
}

#[test]
fn be_unbounded_bounded() {
    assert_eq!(
        Be::from_bounds(&Bound::Unbounded, &Bound::Bounded(isize::MIN)),
        Be(Ordering::Less)
    );
    assert_eq!(
        Be::from_bounds(&Bound::Unbounded, &Bound::Bounded(0)),
        Be(Ordering::Less)
    );
    assert_eq!(
        Be::from_bounds(&Bound::Unbounded, &Bound::Bounded(isize::MAX)),
        Be(Ordering::Less)
    );
}

#[test]
fn be_unbounded_unbounded() {
    assert_eq!(
        Be::from_bounds::<isize>(&Bound::Unbounded, &Bound::Unbounded),
        Be(Ordering::Less)
    );
}

#[test]
fn eb_bounded_bounded() {
    assert_eq!(
        Eb::from_bounds(&Bound::Bounded(isize::MIN), &Bound::Bounded(0)),
        Eb(Ordering::Less)
    );
    assert_eq!(
        Eb::from_bounds(&Bound::Bounded(0), &Bound::Bounded(0)),
        Eb(Ordering::Equal)
    );
    assert_eq!(
        Eb::from_bounds(&Bound::Bounded(isize::MAX), &Bound::Bounded(0)),
        Eb(Ordering::Greater)
    );
}

#[test]
fn eb_bounded_unbounded() {
    assert_eq!(
        Eb::from_bounds(&Bound::Bounded(isize::MIN), &Bound::Unbounded),
        Eb(Ordering::Greater)
    );
    assert_eq!(
        Eb::from_bounds(&Bound::Bounded(0), &Bound::Unbounded),
        Eb(Ordering::Greater)
    );
    assert_eq!(
        Eb::from_bounds(&Bound::Bounded(isize::MAX), &Bound::Unbounded),
        Eb(Ordering::Greater)
    );
}

#[test]
fn eb_unbounded_bounded() {
    assert_eq!(
        Eb::from_bounds(&Bound::Unbounded, &Bound::Bounded(isize::MIN)),
        Eb(Ordering::Greater)
    );
    assert_eq!(
        Eb::from_bounds(&Bound::Unbounded, &Bound::Bounded(0)),
        Eb(Ordering::Greater)
    );
    assert_eq!(
        Eb::from_bounds(&Bound::Unbounded, &Bound::Bounded(isize::MAX)),
        Eb(Ordering::Greater)
    );
}

#[test]
fn eb_unbounded_unbounded() {
    assert_eq!(
        Eb::from_bounds::<isize>(&Bound::Unbounded, &Bound::Unbounded),
        Eb(Ordering::Greater)
    );
}

#[test]
fn ee_bounded_bounded() {
    assert_eq!(
        Ee::from_bounds(&Bound::Bounded(isize::MIN), &Bound::Bounded(0)),
        Ee(Ordering::Less)
    );
    assert_eq!(
        Ee::from_bounds(&Bound::Bounded(0), &Bound::Bounded(0)),
        Ee(Ordering::Equal)
    );
    assert_eq!(
        Ee::from_bounds(&Bound::Bounded(isize::MAX), &Bound::Bounded(0)),
        Ee(Ordering::Greater)
    );
}

#[test]
fn ee_bounded_unbounded() {
    assert_eq!(
        Ee::from_bounds(&Bound::Bounded(isize::MIN), &Bound::Unbounded),
        Ee(Ordering::Less)
    );
    assert_eq!(
        Ee::from_bounds(&Bound::Bounded(0), &Bound::Unbounded),
        Ee(Ordering::Less)
    );
    assert_eq!(
        Ee::from_bounds(&Bound::Bounded(isize::MAX), &Bound::Unbounded),
        Ee(Ordering::Less)
    );
}

#[test]
fn ee_unbounded_bounded() {
    assert_eq!(
        Ee::from_bounds(&Bound::Unbounded, &Bound::Bounded(isize::MIN)),
        Ee(Ordering::Greater)
    );
    assert_eq!(
        Ee::from_bounds(&Bound::Unbounded, &Bound::Bounded(0)),
        Ee(Ordering::Greater)
    );
    assert_eq!(
        Ee::from_bounds(&Bound::Unbounded, &Bound::Bounded(isize::MAX)),
        Ee(Ordering::Greater)
    );
}

#[test]
fn ee_unbounded_unbounded() {
    assert_eq!(
        Ee::from_bounds::<isize>(&Bound::Unbounded, &Bound::Unbounded),
        Ee(Ordering::Equal)
    );
}
