//! Floating-point numbers that are only carried, and tested for their sign.
use crate::expr::semantics::{pow2, single_magnitude, single_value};
use crate::expr::{narrow, single, wide, Scalar};
use vstd::prelude::*;

verus! {

/// A single-precision number, as its bits.
#[derive(Clone, Copy, Debug, PartialEq, Eq, Structural)]
pub struct Single {
    pub bits: u32,
}

/// A double-precision number, as its bits.
#[derive(Clone, Copy, Debug, PartialEq, Eq, Structural)]
pub struct Double {
    pub bits: u64,
}

impl Single {
    /// Greater than zero: the sign bit is clear, and the number is neither zero
    /// nor a NaN.
    pub open spec fn positive(self) -> bool {
        0 < self.bits <= 0x7f80_0000
    }

    /// Greater than zero.
    pub fn is_positive(&self) -> (r: bool)
        ensures
            r == self.positive(),
    {
        0 < self.bits && self.bits <= 0x7f80_0000
    }

    /// At most zero: zero of either sign, or negative and no NaN.
    pub open spec fn at_most_zero(self) -> bool {
        self.bits == 0 || 0x8000_0000 <= self.bits <= 0xff80_0000
    }

    /// At most zero.
    pub fn is_at_most_zero(&self) -> (r: bool)
        ensures
            r == self.at_most_zero(),
    {
        self.bits == 0 || (0x8000_0000 <= self.bits && self.bits <= 0xff80_0000)
    }

    /// The number, recorded.
    pub fn scalar(&self) -> (r: Scalar)
        ensures
            r == single(self.bits),
    {
        Scalar::float(self.bits)
    }
}

impl Double {
    /// The number rounded to single precision, recorded.
    pub fn scalar(&self) -> (r: Scalar)
        ensures
            r == narrow(self.bits),
    {
        Scalar::narrowed(self.bits)
    }

    /// The number itself, recorded.
    pub fn wide(&self) -> (r: Scalar)
        ensures
            r == wide(self.bits),
    {
        Scalar::wide(self.bits)
    }
}

/// Powers of two are positive.
pub proof fn lemma_pow2_positive(e: int)
    ensures
        pow2(e) > 0real,
    decreases (if e < 0 { -e } else { e }),
{
    if e > 0 {
        lemma_pow2_positive(e - 1);
    } else if e < 0 {
        lemma_pow2_positive(e + 1);
    }
}

/// The test on the bits decides the sign of the number.
pub proof fn lemma_positive(x: Single)
    requires
        x.bits % 0x8000_0000 < 0x7f80_0000,
    ensures
        x.positive() == (single_value(x.bits) > 0real),
        x.at_most_zero() == (single_value(x.bits) <= 0real),
{
    let bits = x.bits;
    let exponent = (bits / 0x80_0000) % 256;
    let fraction = bits % 0x80_0000;
    lemma_pow2_positive(-149);
    lemma_pow2_positive(exponent - 150);
    let scale = if exponent == 0 { pow2(-149) } else { pow2(exponent - 150) };
    let mantissa = if exponent == 0 { fraction as int } else { 0x80_0000 + fraction };
    assert(single_magnitude(bits) == mantissa as real * scale);
    assert(mantissa > 0 ==> mantissa as real * scale > 0real) by (nonlinear_arith)
        requires
            scale > 0real,
    ;
    assert(mantissa == 0 ==> mantissa as real * scale == 0real) by (nonlinear_arith);
    assert(mantissa == 0 <==> bits % 0x8000_0000 == 0) by {
        assert(exponent == 0 && fraction == 0 <==> bits % 0x8000_0000 == 0) by (bit_vector)
            requires
                exponent == (bits / 0x80_0000) % 256,
                fraction == bits % 0x80_0000,
        ;
    }
}

} // verus!
