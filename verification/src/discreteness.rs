use vstd::prelude::*;

verus! {

/// A phantom type to denote whether range bounds represent discrete or
/// non-discrete times.
pub trait Discreteness {
}

/// A phantom type for non-discrete time ranges (e.g. `RangeInclusive<T>`),
/// whose intervals are conventionally closed at both ends.
#[derive(Clone, Copy, Debug, Hash, Eq, PartialEq)]
pub struct NonDiscrete;

impl Discreteness for NonDiscrete {

}

/// A phantom type for discrete time ranges (e.g. `Range<T>`), whose intervals
/// are conventionally half-open: closed below and open above.
#[derive(Clone, Copy, Debug, Hash, Eq, PartialEq)]
pub struct Discrete;

impl Discreteness for Discrete {

}

} // verus!
