use vstd::prelude::*;

verus! {

/// Bit pattern of the IEEE 64-bit encoding of positive infinity, the
/// engine's default upper bound for fresh problems.
pub const INFINITY_BITS: u64 = 0x7FF0_0000_0000_0000;

/// A real-valued quantity carried across the native boundary by its exact
/// 64-bit encoding.
///
/// This layer never computes on such a value: it only stores it and hands
/// it to the engine unchanged, so the encoding is kept opaque here and the
/// contracts speak of the bits alone.
#[derive(Clone, Copy, PartialEq, Eq, Structural, Debug)]
pub struct RealValue {
    pub bits: u64,
}

impl RealValue {
    /// Wraps a 64-bit encoding, unchanged.
    pub fn from_bits(bits: u64) -> (r: RealValue)
        ensures
            r.bits == bits,
    {
        RealValue { bits }
    }

    /// The encoding held by this value, unchanged.
    pub fn to_bits(&self) -> (r: u64)
        ensures
            r == self.bits,
    {
        self.bits
    }

    /// Positive infinity.
    pub fn infinity() -> (r: RealValue)
        ensures
            r.bits == INFINITY_BITS,
    {
        RealValue { bits: INFINITY_BITS }
    }
}

} // verus!
