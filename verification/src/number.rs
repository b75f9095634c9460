//! Numbers that the context takes in binary floating point, held by the bits
//! of their encoding.
use vstd::prelude::*;

verus! {

/// A number in the 32-bit binary format of IEEE 754, held as its bits.
///
/// Two values are equal when their bits are: the two zeros differ, and a
/// not-a-number equals itself.
#[derive(Clone, Copy, Debug, PartialEq, Eq, Structural)]
pub struct Float32 {
    pub bits: u32,
}

impl Float32 {
    /// The number with the given encoding.
    pub fn from_bits(bits: u32) -> (x: Float32)
        ensures
            x.bits == bits,
    {
        Float32 { bits }
    }

    /// The encoding of the number.
    pub fn to_bits(self) -> (bits: u32)
        ensures
            bits == self.bits,
    {
        self.bits
    }
}

/// A number in the 64-bit binary format of IEEE 754, held as its bits.
///
/// Two values are equal when their bits are: the two zeros differ, and a
/// not-a-number equals itself.
#[derive(Clone, Copy, Debug, PartialEq, Eq, Structural)]
pub struct Float64 {
    pub bits: u64,
}

impl Float64 {
    /// The number with the given encoding.
    pub fn from_bits(bits: u64) -> (x: Float64)
        ensures
            x.bits == bits,
    {
        Float64 { bits }
    }

    /// The encoding of the number.
    pub fn to_bits(self) -> (bits: u64)
        ensures
            bits == self.bits,
    {
        self.bits
    }
}

} // verus!
