//! The vectors, matrices and small helpers that the kernels are written with.
use crate::expr::{decimal, whole, Scalar, Test};
use vstd::prelude::*;

pub(crate) mod algebra;
pub mod mat;
pub mod meaning;
pub mod parts;
pub mod sym;
pub mod vec;

pub use mat::{Mat2x3, Mat3};
pub use sym::{Sym2, Sym3};
pub use vec::{Pad, Quat, Vec2, Vec3A};

verus! {

/// A rectangle of tiles: the minimum belongs to it, the maximum does not.
#[derive(Clone, Copy, Debug, PartialEq, Eq, Structural)]
pub struct TileBbox {
    pub min_x: u32,
    pub min_y: u32,
    pub max_x: u32,
    pub max_y: u32,
}

/// A rectangle in pixel coordinates.
pub struct PixelRect {
    pub min_x: Scalar,
    pub min_y: Scalar,
    pub max_x: Scalar,
    pub max_y: Scalar,
}

pub open spec fn spec_ut_sigma_scale() -> Scalar {
    decimal(17_320_508, (-7) as i32)
}

/// The distance factor of the sigma points: the square root of the dimension.
#[verifier::when_used_as_spec(spec_ut_sigma_scale)]
pub fn ut_sigma_scale() -> (r: Scalar)
    ensures
        r == ut_sigma_scale(),
{
    Scalar::lit(17_320_508, -7)
}

pub open spec fn spec_ut_weight_mean_center() -> Scalar {
    whole(0)
}

/// The weight of the centre in the mean.
#[verifier::when_used_as_spec(spec_ut_weight_mean_center)]
pub fn ut_weight_mean_center() -> (r: Scalar)
    ensures
        r == ut_weight_mean_center(),
{
    Scalar::num(0)
}

pub open spec fn spec_ut_weight_cov_center() -> Scalar {
    whole(2)
}

/// The weight of the centre in the covariance.
#[verifier::when_used_as_spec(spec_ut_weight_cov_center)]
pub fn ut_weight_cov_center() -> (r: Scalar)
    ensures
        r == ut_weight_cov_center(),
{
    Scalar::num(2)
}

pub open spec fn spec_ut_weight_outer() -> Scalar {
    whole(1) / whole(6)
}

/// The weight of every other sigma point, in the mean and in the covariance.
#[verifier::when_used_as_spec(spec_ut_weight_outer)]
pub fn ut_weight_outer() -> (r: Scalar)
    ensures
        r == ut_weight_outer(),
{
    Scalar::num(1) / Scalar::num(6)
}

pub open spec fn spec_sigmoid(x: &Scalar) -> Scalar {
    whole(1) / (whole(1) + (-*x).exp())
}

/// The logistic function.
#[verifier::when_used_as_spec(spec_sigmoid)]
pub fn sigmoid(x: &Scalar) -> (r: Scalar)
    ensures
        r == sigmoid(x),
{
    Scalar::num(1) / (Scalar::num(1) + x.neg().exp())
}

pub open spec fn spec_is_finite_f32(x: &Scalar) -> Test {
    x.finite()
}

/// The traced number is neither infinite nor NaN.
#[verifier::when_used_as_spec(spec_is_finite_f32)]
pub fn is_finite_f32(x: &Scalar) -> (r: Test)
    ensures
        r == is_finite_f32(x),
{
    x.finite()
}

/// The exponent field of a single-precision number with the given bits.
pub open spec fn exponent_field(bits: u32) -> int {
    (bits as int / 0x80_0000) % 0x100
}

/// Whether the single-precision number with these bits is finite: infinities
/// and NaNs are the numbers whose exponent field is all ones.
pub fn is_finite_bits(bits: u32) -> (r: bool)
    ensures
        r == (exponent_field(bits) != 0xFF),
{
    assert((bits >> 23u32) & 0xFFu32 == (bits / 0x80_0000) % 0x100) by (bit_vector);
    ((bits >> 23u32) & 0xFFu32) != 0xFFu32
}

pub open spec fn spec_calc_sigma(
    px: &Scalar,
    py: &Scalar,
    conic: &Sym2,
    xy_x: &Scalar,
    xy_y: &Scalar,
) -> Scalar {
    let dx = *px - *xy_x;
    let dy = *py - *xy_y;
    decimal(5, (-1) as i32) * (conic.c00 * dx * dx + conic.c11 * dy * dy) + conic.c01 * dx * dy
}

/// Half the quadratic form of `conic` at the offset of the pixel from the centre.
#[verifier::when_used_as_spec(spec_calc_sigma)]
pub fn calc_sigma(
    px: &Scalar,
    py: &Scalar,
    conic: &Sym2,
    xy_x: &Scalar,
    xy_y: &Scalar,
) -> (r: Scalar)
    ensures
        r == calc_sigma(px, py, conic, xy_x, xy_y),
{
    let dx = px - xy_x;
    let dy = py - xy_y;
    Scalar::lit(5, -1) * (&conic.c00 * &dx * &dx + &conic.c11 * &dy * &dy) + &conic.c01 * &dx * &dy
}

} // verus!
