//! Types with a zero.

use vstd::prelude::*;

verus! {

/// A type with a zero.
pub trait Zero: Sized {
    /// The zero of the type.
    spec fn zero_value() -> Self;

    fn zero() -> (r: Self)
        ensures
            r == Self::zero_value(),
    ;
}

impl Zero for usize {
    open spec fn zero_value() -> Self {
        0
    }

    fn zero() -> (r: Self) {
        0
    }
}

} // verus!
