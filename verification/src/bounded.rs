//! Types with a smallest and a largest representable value.

use vstd::prelude::*;

verus! {

/// Numbers which have upper and lower bounds.
///
/// The extreme values stand in for unbounded endpoints when an interval over a
/// plain range type is compared: a missing start is read as `min_value` and a
/// missing end as `max_value`.
pub trait Bounded: Sized {
    /// The smallest value this type can represent, as a specification value.
    spec fn spec_min_value() -> Self;

    /// The largest value this type can represent, as a specification value.
    spec fn spec_max_value() -> Self;

    /// Returns the smallest value this type can represent.
    fn min_value() -> (r: Self)
        ensures
            r == Self::spec_min_value(),
    ;

    /// Returns the largest value this type can represent.
    fn max_value() -> (r: Self)
        ensures
            r == Self::spec_max_value(),
    ;
}

impl Bounded for u8 {
    open spec fn spec_min_value() -> Self {
        u8::MIN
    }

    open spec fn spec_max_value() -> Self {
        u8::MAX
    }

    fn min_value() -> Self {
        u8::MIN
    }

    fn max_value() -> Self {
        u8::MAX
    }
}

impl Bounded for u16 {
    open spec fn spec_min_value() -> Self {
        u16::MIN
    }

    open spec fn spec_max_value() -> Self {
        u16::MAX
    }

    fn min_value() -> Self {
        u16::MIN
    }

    fn max_value() -> Self {
        u16::MAX
    }
}

impl Bounded for u32 {
    open spec fn spec_min_value() -> Self {
        u32::MIN
    }

    open spec fn spec_max_value() -> Self {
        u32::MAX
    }

    fn min_value() -> Self {
        u32::MIN
    }

    fn max_value() -> Self {
        u32::MAX
    }
}

impl Bounded for u64 {
    open spec fn spec_min_value() -> Self {
        u64::MIN
    }

    open spec fn spec_max_value() -> Self {
        u64::MAX
    }

    fn min_value() -> Self {
        u64::MIN
    }

    fn max_value() -> Self {
        u64::MAX
    }
}

impl Bounded for u128 {
    open spec fn spec_min_value() -> Self {
        u128::MIN
    }

    open spec fn spec_max_value() -> Self {
        u128::MAX
    }

    fn min_value() -> Self {
        u128::MIN
    }

    fn max_value() -> Self {
        u128::MAX
    }
}

impl Bounded for usize {
    open spec fn spec_min_value() -> Self {
        usize::MIN
    }

    open spec fn spec_max_value() -> Self {
        usize::MAX
    }

    fn min_value() -> Self {
        usize::MIN
    }

    fn max_value() -> Self {
        usize::MAX
    }
}

impl Bounded for i8 {
    open spec fn spec_min_value() -> Self {
        i8::MIN
    }

    open spec fn spec_max_value() -> Self {
        i8::MAX
    }

    fn min_value() -> Self {
        i8::MIN
    }

    fn max_value() -> Self {
        i8::MAX
    }
}

impl Bounded for i16 {
    open spec fn spec_min_value() -> Self {
        i16::MIN
    }

    open spec fn spec_max_value() -> Self {
        i16::MAX
    }

    fn min_value() -> Self {
        i16::MIN
    }

    fn max_value() -> Self {
        i16::MAX
    }
}

impl Bounded for i32 {
    open spec fn spec_min_value() -> Self {
        i32::MIN
    }

    open spec fn spec_max_value() -> Self {
        i32::MAX
    }

    fn min_value() -> Self {
        i32::MIN
    }

    fn max_value() -> Self {
        i32::MAX
    }
}

impl Bounded for i64 {
    open spec fn spec_min_value() -> Self {
        i64::MIN
    }

    open spec fn spec_max_value() -> Self {
        i64::MAX
    }

    fn min_value() -> Self {
        i64::MIN
    }

    fn max_value() -> Self {
        i64::MAX
    }
}

impl Bounded for i128 {
    open spec fn spec_min_value() -> Self {
        i128::MIN
    }

    open spec fn spec_max_value() -> Self {
        i128::MAX
    }

    fn min_value() -> Self {
        i128::MIN
    }

    fn max_value() -> Self {
        i128::MAX
    }
}

impl Bounded for isize {
    open spec fn spec_min_value() -> Self {
        isize::MIN
    }

    open spec fn spec_max_value() -> Self {
        isize::MAX
    }

    fn min_value() -> Self {
        isize::MIN
    }

    fn max_value() -> Self {
        isize::MAX
    }
}

} // verus!
