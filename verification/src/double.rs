use vstd::prelude::*;

verus! {

/// An IEEE 754 binary64 number, held by its bit pattern.
///
/// The binding hands such numbers through without computing on them, so it
/// keeps the 64 bits and nothing else. Two values are equal when their bits
/// are equal.
#[derive(Debug, Clone, Copy, PartialEq, Eq, Structural)]
pub struct Double {
    pub bits: u64,
}

impl Double {
    /// The number with the given bit pattern.
    pub fn from_bits(bits: u64) -> (value: Self)
        ensures
            value.bits == bits,
    {
        Double { bits }
    }

    /// The bit pattern of this number.
    pub fn to_bits(self) -> (bits: u64)
        ensures
            bits == self.bits,
    {
        self.bits
    }

    /// Positive zero, whose bits are all clear.
    pub fn zero() -> (value: Self)
        ensures
            value.bits == 0,
    {
        Double { bits: 0 }
    }
}

} // verus!
