//! Single-precision numbers seen through their bits.

use vstd::prelude::*;

verus! {

/// Mask of every bit but the sign.
pub const MAGNITUDE_MASK: u32 = 0x7fff_ffff;

/// Mask of the eight exponent bits; also the representation of positive infinity.
pub const EXPONENT_MASK: u32 = 0x7f80_0000;

/// Representation of positive zero.
pub const ZERO_BITS: u32 = 0;

/// Representation of one.
pub const ONE_BITS: u32 = 0x3f80_0000;

/// The sign bit of a representation: 0 or 1.
pub open spec fn sign_field(bits: u32) -> u32 {
    bits / 0x8000_0000u32
}

/// The eight exponent bits of a representation: 0 to 255.
pub open spec fn exponent_field(bits: u32) -> u32 {
    (bits / 0x80_0000u32) % 0x100u32
}

/// The twenty-three fraction bits of a representation.
pub open spec fn fraction_field(bits: u32) -> u32 {
    bits % 0x80_0000u32
}

/// A single-precision IEEE 754 number, held by its representation: from the
/// top, one sign bit, eight exponent bits and twenty-three fraction bits.
///
/// The derived `==` compares representations. Two numbers are compared with
/// [`Scalar::same_value`].
#[derive(Clone, Copy, Debug, PartialEq, Eq, Structural)]
pub struct Scalar {
    pub bits: u32,
}

impl Scalar {
    /// Not a number: the exponent is all ones and the fraction is not zero.
    pub open spec fn spec_is_nan(self) -> bool {
        exponent_field(self.bits) == 255 && fraction_field(self.bits) != 0
    }

    /// Neither infinite nor NaN: the exponent is not all ones.
    pub open spec fn spec_is_finite(self) -> bool {
        exponent_field(self.bits) != 255
    }

    /// Positive or negative zero.
    pub open spec fn spec_is_zero(self) -> bool {
        exponent_field(self.bits) == 0 && fraction_field(self.bits) == 0
    }

    /// Greater than zero; positive infinity counts, NaN does not.
    pub open spec fn spec_is_positive(self) -> bool {
        sign_field(self.bits) == 0 && !self.spec_is_nan() && !self.spec_is_zero()
    }

    /// Equality of numbers: NaN equals nothing, the two zeros equal each
    /// other, and any other two values are equal when their bits are.
    pub open spec fn spec_same_value(self, other: Scalar) -> bool {
        &&& !self.spec_is_nan()
        &&& !other.spec_is_nan()
        &&& (self.bits == other.bits || (self.spec_is_zero() && other.spec_is_zero()))
    }

    /// The number with the representation `bits`.
    pub fn from_bits(bits: u32) -> (s: Scalar)
        ensures
            s.bits == bits,
    {
        Scalar { bits }
    }

    /// The representation of the number.
    pub fn to_bits(self) -> (bits: u32)
        ensures
            bits == self.bits,
    {
        self.bits
    }

    /// Positive zero.
    pub fn zero() -> (s: Scalar)
        ensures
            s.bits == ZERO_BITS,
            s.spec_is_zero(),
            s.spec_is_finite(),
    {
        assert(exponent_field(ZERO_BITS) == 0 && fraction_field(ZERO_BITS) == 0) by (bit_vector);
        Scalar { bits: ZERO_BITS }
    }

    /// The number one.
    pub fn one() -> (s: Scalar)
        ensures
            s.bits == ONE_BITS,
            s.spec_is_finite(),
            s.spec_is_positive(),
    {
        assert(sign_field(ONE_BITS) == 0 && exponent_field(ONE_BITS) == 127 && fraction_field(
            ONE_BITS,
        ) == 0) by (bit_vector);
        Scalar { bits: ONE_BITS }
    }

    /// Whether this is NaN.
    #[verifier::when_used_as_spec(spec_is_nan)]
    pub fn is_nan(self) -> (r: bool)
        ensures
            r == self.spec_is_nan(),
    {
        let b: u32 = self.bits;
        assert(((b & MAGNITUDE_MASK) > EXPONENT_MASK) == (exponent_field(b) == 255
            && fraction_field(b) != 0)) by (bit_vector);
        b & MAGNITUDE_MASK > EXPONENT_MASK
    }

    /// Whether this is neither infinite nor NaN.
    #[verifier::when_used_as_spec(spec_is_finite)]
    pub fn is_finite(self) -> (r: bool)
        ensures
            r == self.spec_is_finite(),
    {
        let b: u32 = self.bits;
        assert(((b & EXPONENT_MASK) != EXPONENT_MASK) == (exponent_field(b) != 255))
            by (bit_vector);
        b & EXPONENT_MASK != EXPONENT_MASK
    }

    /// Whether this is zero, of either sign.
    #[verifier::when_used_as_spec(spec_is_zero)]
    pub fn is_zero(self) -> (r: bool)
        ensures
            r == self.spec_is_zero(),
    {
        let b: u32 = self.bits;
        assert(((b & MAGNITUDE_MASK) == 0) == (exponent_field(b) == 0 && fraction_field(b) == 0))
            by (bit_vector);
        b & MAGNITUDE_MASK == 0
    }

    /// Whether this is greater than zero.
    #[verifier::when_used_as_spec(spec_is_positive)]
    pub fn is_positive(self) -> (r: bool)
        ensures
            r == self.spec_is_positive(),
    {
        let b: u32 = self.bits;
        assert((0 < b && b <= EXPONENT_MASK) == (sign_field(b) == 0 && !(exponent_field(b) == 255
            && fraction_field(b) != 0) && !(exponent_field(b) == 0 && fraction_field(b) == 0)))
            by (bit_vector);
        0 < b && b <= EXPONENT_MASK
    }

    /// Whether this and `other` are the same number.
    #[verifier::when_used_as_spec(spec_same_value)]
    pub fn same_value(self, other: Scalar) -> (r: bool)
        ensures
            r == self.spec_same_value(other),
    {
        if self.is_nan() || other.is_nan() {
            false
        } else {
            self.bits == other.bits || (self.is_zero() && other.is_zero())
        }
    }
}

} // verus!
