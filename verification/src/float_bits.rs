//! Single-precision numbers carried by their IEEE-754 bit pattern.
//!
//! The layout model keeps every `f32` of a template as the bit pattern that
//! `f32::to_bits` gives, so that a template passes through the library
//! unchanged; the few comparisons the library makes on such a number are
//! stated over the IEEE-754 fields of the pattern.
use vstd::prelude::*;

verus! {

/// The bit pattern of an IEEE-754 single-precision number (`f32::to_bits`).
#[derive(Clone, Copy, Debug, PartialEq, Eq, Structural)]
pub struct F32Bits(pub u32);

impl F32Bits {
    /// The sign bit is set.
    pub open spec fn sign_set(self) -> bool {
        self.0 >= 0x8000_0000
    }

    /// The biased exponent field.
    pub open spec fn exponent(self) -> nat {
        ((self.0 as nat) / 0x80_0000) % 0x100
    }

    /// The fraction field.
    pub open spec fn fraction(self) -> nat {
        (self.0 as nat) % 0x80_0000
    }

    /// The pattern is a NaN.
    pub open spec fn is_nan(self) -> bool {
        self.exponent() == 0xff && self.fraction() != 0
    }

    /// The pattern is `+0.0` or `-0.0`.
    pub open spec fn is_zero(self) -> bool {
        (self.0 as nat) % 0x8000_0000 == 0
    }

    /// The number compares `<= 0.0`: a zero, or a negative number or
    /// negative infinity; never a NaN.
    pub open spec fn at_most_zero(self) -> bool {
        !self.is_nan() && (self.is_zero() || self.sign_set())
    }

    /// `x <= 0.0`.
    pub fn is_at_most_zero(self) -> (r: bool)
        ensures
            r == self.at_most_zero(),
    {
        let b = self.0;
        let nan = (b / 0x80_0000) % 0x100 == 0xff && b % 0x80_0000 != 0;
        !nan && (b % 0x8000_0000 == 0 || b >= 0x8000_0000)
    }
}

} // verus!
