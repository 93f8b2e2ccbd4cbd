use vstd::prelude::*;

verus! {

/// Methods for checking for a "precedes" relation between intervals.
///
/// The provided methods return `false`: a pair of interval types for which the
/// relation can never hold keeps them, and a pair for which it depends on the
/// endpoints overrides `precedes` with an exact contract.
pub trait Precedes<T>: Sized {
    /// Returns `true` iff `self` precedes `other`.
    ///
    /// ```plain
    /// self:  ┌────────┐
    /// other:            └────────┘
    /// ```
    fn precedes(&self, _other: &T) -> (r: bool)
        default_ensures
            r == false,
    {
        false
    }

    /// Returns `true` iff `self` is preceded by `other`.
    ///
    /// ```plain
    /// self:             ┌────────┐
    /// other: └────────┘
    /// ```
    /// Returns `true` iff `self` is preceded by `other`.
    ///
    /// ```plain
    /// self:             ┌────────┐
    /// other: └────────┘
    /// ```
    fn is_preceded_by(&self, _other: &T) -> (r: bool)
        default_ensures
            r == false,
    {
        false
    }
}

} // verus!
