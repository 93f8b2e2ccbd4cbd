//! Declarations of the standard library's range types that vstd leaves
//! unspecified, so that they can stand in signatures and fields.
//!
//! `Range` and `RangeInclusive` are already declared by vstd; the four below
//! are plain structs whose public fields carry all their state, so declaring
//! them exposes those fields to specifications without further assumptions.
//! The two accessors of `RangeInclusive` are given the contracts that the
//! standard library documents for them.

use vstd::prelude::*;

use core::ops::{RangeFrom, RangeFull, RangeInclusive, RangeTo, RangeToInclusive};

verus! {

/// Relies on core::ops::RangeTo being a plain struct with the public field `end`.
#[verifier::external_type_specification]
#[verifier::reject_recursive_types(Idx)]
pub struct ExRangeTo<Idx>(RangeTo<Idx>);

/// Relies on core::ops::RangeToInclusive being a plain struct with the public field `end`.
#[verifier::external_type_specification]
#[verifier::reject_recursive_types(Idx)]
pub struct ExRangeToInclusive<Idx>(RangeToInclusive<Idx>);

/// Relies on core::ops::RangeFrom being a plain struct with the public field `start`.
#[verifier::external_type_specification]
#[verifier::reject_recursive_types(Idx)]
pub struct ExRangeFrom<Idx>(RangeFrom<Idx>);

/// Relies on core::ops::RangeFull being a plain unit struct.
#[verifier::external_type_specification]
pub struct ExRangeFull(RangeFull);

/// Relies on RangeInclusive::start: it returns the lower bound of the range
/// (inclusive), which `new` stored and nothing mutates.
pub assume_specification<Idx>[ RangeInclusive::<Idx>::start ](r: &RangeInclusive<Idx>) -> (ret:
    &Idx)
    ensures
        *ret == r@.start,
;

/// Relies on RangeInclusive::end: it returns the upper bound of the range
/// (inclusive), which `new` stored and nothing mutates.
pub assume_specification<Idx>[ RangeInclusive::<Idx>::end ](r: &RangeInclusive<Idx>) -> (ret: &Idx)
    ensures
        *ret == r@.end,
;

} // verus!
