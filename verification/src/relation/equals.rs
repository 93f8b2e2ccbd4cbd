use vstd::prelude::*;

verus! {

/// Methods for checking for an "equals" relation between intervals.
///
/// The provided method returns `false`: a pair of interval types for which the
/// relation can never hold keeps it, and a pair for which it depends on the
/// endpoints overrides it with an exact contract.
pub trait Equals<T>: Sized {
    /// Returns `true` iff `self` equals `other`.
    ///
    /// ```plain
    /// self:  ┌────────┐
    /// other: └────────┘
    /// ```
    fn equals(&self, _other: &T) -> (r: bool)
        default_ensures
            r == false,
    {
        false
    }
}

} // verus!
