use vstd::prelude::*;

verus! {

/// Element types for which the all-zero bit pattern is a legal value, given
/// here as an explicit zero element. `ArrayCStyle::zeroed` fills every slot
/// of a fresh array with this value.
pub trait Zeroable: Sized {
    /// The zero element, as specifications see it.
    spec fn zero_spec() -> Self;

    /// Returns the zero element.
    fn zero() -> (r: Self)
        ensures
            r == Self::zero_spec(),
    ;
}

impl Zeroable for u8 {
    open spec fn zero_spec() -> u8 {
        0
    }

    fn zero() -> (r: u8) {
        0
    }
}

impl Zeroable for i32 {
    open spec fn zero_spec() -> i32 {
        0
    }

    fn zero() -> (r: i32) {
        0
    }
}

impl Zeroable for u64 {
    open spec fn zero_spec() -> u64 {
        0
    }

    fn zero() -> (r: u64) {
        0
    }
}

impl Zeroable for usize {
    open spec fn zero_spec() -> usize {
        0
    }

    fn zero() -> (r: usize) {
        0
    }
}

} // verus!
