use vstd::prelude::*;

verus! {

// Bit patterns of the IEEE-754 double-precision values that the decision
// logic needs by name.
pub const ZERO_BITS: u64 = 0x0000_0000_0000_0000;
pub const NEG_ZERO_BITS: u64 = 0x8000_0000_0000_0000;
pub const ONE_BITS: u64 = 0x3FF0_0000_0000_0000;
pub const TWELVE_BITS: u64 = 0x4028_0000_0000_0000;
/// Bits of positive infinity: exponent all ones, mantissa zero. Every positive
/// finite double has a smaller bit pattern, and every NaN pattern, stripped of
/// its sign bit, has a larger one.
pub const POS_INFINITY_BITS: u64 = 0x7FF0_0000_0000_0000;
/// All bits but the sign bit.
pub const MAGNITUDE_MASK: u64 = 0x7FFF_FFFF_FFFF_FFFF;

/// A double-precision value as the machine carries it: its IEEE-754 bit
/// pattern. The arithmetic on these values is floating point, which the
/// verified library does not perform; callers compute with doubles and hand
/// the resulting bit patterns in. What the library itself decides about a
/// value - is it zero, is it strictly positive, is its magnitude within a
/// tolerance - is decided here, on the bits, with the comparison semantics
/// of doubles spelled out.
#[derive(Clone, Copy, PartialEq, Eq, Structural, Debug)]
pub struct Double {
    pub bits: u64,
}

/// `x == 0.0` on doubles holds exactly for the two zero bit patterns: zeros of
/// both signs compare equal to zero, no other value does, and NaN compares
/// equal to nothing.
pub open spec fn is_zero(a: u64) -> bool {
    a == ZERO_BITS || a == NEG_ZERO_BITS
}

/// `x > 0.0` on doubles: the positive reals and positive infinity order
/// exactly as their bit patterns, from the smallest subnormal (pattern 1) up
/// to positive infinity; both zeros compare not-greater; every pattern with
/// the sign bit set is negative or NaN; and every comparison with NaN is
/// false.
pub open spec fn is_positive(a: u64) -> bool {
    1 <= a <= POS_INFINITY_BITS
}

/// NaN: exponent all ones and a nonzero mantissa, whatever the sign bit.
pub open spec fn is_nan(a: u64) -> bool {
    (a & MAGNITUDE_MASK) > POS_INFINITY_BITS
}

/// The absolute value of a double clears the sign bit and changes nothing
/// else, for every input: zeros, infinities and NaN included.
pub open spec fn abs_of(a: u64) -> u64 {
    a & MAGNITUDE_MASK
}

impl Double {
    /// The value whose bit pattern is `bits`.
    pub fn from_bits(bits: u64) -> (r: Double)
        ensures
            r.bits == bits,
    {
        Double { bits }
    }

    /// The bit pattern of this value.
    pub fn to_bits(&self) -> (r: u64)
        ensures
            r == self.bits,
    {
        self.bits
    }

    /// Whether this value compares equal to zero: true of both zero bit
    /// patterns, false of everything else, NaN included.
    pub fn is_zero(&self) -> (r: bool)
        ensures
            r == is_zero(self.bits),
    {
        self.bits == ZERO_BITS || self.bits == NEG_ZERO_BITS
    }

    /// Whether this value compares strictly greater than zero.
    pub fn is_positive(&self) -> (r: bool)
        ensures
            r == is_positive(self.bits),
    {
        1 <= self.bits && self.bits <= POS_INFINITY_BITS
    }

    /// The absolute value: the sign bit cleared, nothing else changed.
    pub fn abs(&self) -> (r: Double)
        ensures
            r.bits == abs_of(self.bits),
    {
        Double { bits: self.bits & MAGNITUDE_MASK }
    }
}

} // verus!
