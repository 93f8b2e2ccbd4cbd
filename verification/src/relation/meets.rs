use vstd::prelude::*;

verus! {

/// Methods for checking for a "meets" relation between intervals.
///
/// The provided methods return `false`: a pair of interval types for which the
/// relation can never hold keeps them, and a pair for which it depends on the
/// endpoints overrides them with an exact contract.
pub trait Meets<T>: Sized {
    /// Returns `true` iff `self` meets `other`.
    ///
    /// ```plain
    /// self:  ┌────────┐
    /// other:          └────────┘
    /// ```
    fn meets(&self, _other: &T) -> (r: bool)
        default_ensures
            r == false,
    {
        false
    }

    /// Returns `true` iff `self` is met by `other`.
    ///
    /// ```plain
    /// self:           ┌────────┐
    /// other: └────────┘
    /// ```
    fn is_met_by(&self, _other: &T) -> (r: bool)
        default_ensures
            r == false,
    {
        false
    }
}

} // verus!
