use vstd::prelude::*;

verus! {

/// Methods for checking for a "starts" relation between intervals.
///
/// The provided methods return `false`: a pair of interval types for which the
/// relation can never hold keeps them, and a pair for which it depends on the
/// endpoints overrides them with an exact contract.
pub trait Starts<T>: Sized {
    /// Returns `true` iff `self` starts `other`.
    ///
    /// ```plain
    /// self:  ┌────────┐
    /// other: └────────────────┘
    /// ```
    fn starts(&self, _other: &T) -> (r: bool)
        default_ensures
            r == false,
    {
        false
    }

    /// Returns `true` iff `self` is started by `other`.
    ///
    /// ```plain
    /// self:  ┌────────────────┐
    /// other: └────────┘
    /// ```
    fn is_started_by(&self, _other: &T) -> (r: bool)
        default_ensures
            r == false,
    {
        false
    }
}

} // verus!
