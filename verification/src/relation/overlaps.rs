use vstd::prelude::*;

verus! {

/// Methods for checking for an "overlaps" relation between intervals.
///
/// The provided methods return `false`: a pair of interval types for which the
/// relation can never hold keeps them, and a pair for which it depends on the
/// endpoints overrides them with an exact contract.
pub trait Overlaps<T>: Sized {
    /// Returns `true` iff `self` overlaps `other`.
    ///
    /// ```plain
    /// self:  ┌────────┐
    /// other:      └────────┘
    /// ```
    fn overlaps(&self, _other: &T) -> (r: bool)
        default_ensures
            r == false,
    {
        false
    }

    /// Returns `true` iff `self` is overlapped by `other`.
    ///
    /// ```plain
    /// self:       ┌────────┐
    /// other: └────────┘
    /// ```
    fn is_overlapped_by(&self, _other: &T) -> (r: bool)
        default_ensures
            r == false,
    {
        false
    }
}

} // verus!
