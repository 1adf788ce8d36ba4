use vstd::prelude::*;

verus! {

/// A field element of the Starknet prime field, held as two 128-bit halves
/// (`hi` holds the most significant bits).
#[derive(Clone, Copy, Debug, PartialEq, Eq, Structural, Hash)]
pub struct Felt {
    pub hi: u128,
    pub lo: u128,
}

impl Felt {
    /// The integer that this element stands for.
    pub open spec fn value(self) -> int {
        self.hi as int * 0x1_0000_0000_0000_0000_0000_0000_0000_0000 + self.lo as int
    }

    /// The element with the given small value.
    pub fn from_u64(v: u64) -> (r: Felt)
        ensures
            r.value() == v as int,
            r.hi == 0,
    {
        Felt { hi: 0, lo: v as u128 }
    }

    /// The zero element.
    pub fn zero() -> (r: Felt)
        ensures
            r.value() == 0,
            r.hi == 0 && r.lo == 0,
    {
        Felt { hi: 0, lo: 0 }
    }
}

} // verus!
