//! Symmetric matrices of traced numbers, kept by their upper triangle.
use crate::cube::mat::spec_from_cols;
use crate::cube::{Mat2x3, Mat3, Pad, Vec2, Vec3A};
use crate::expr::{whole, Scalar, Test};
use vstd::prelude::*;

verus! {

/// A symmetric matrix of order two.
pub struct Sym2 {
    pub c00: Scalar,
    pub c01: Scalar,
    pub c11: Scalar,
}

impl Sym2 {
    pub open spec fn spec_col0(&self) -> Vec2 {
        Vec2 { x: self.c00, y: self.c01 }
    }

    pub open spec fn spec_col1(&self) -> Vec2 {
        Vec2 { x: self.c01, y: self.c11 }
    }

    pub open spec fn spec_mul_vec2(&self, v: &Vec2) -> Vec2 {
        self.col0().scale(&v.x).add(&self.col1().scale(&v.y))
    }

    pub open spec fn spec_scale(&self, s: &Scalar) -> Sym2 {
        Sym2 { c00: self.c00 * *s, c01: self.c01 * *s, c11: self.c11 * *s }
    }

    pub open spec fn spec_max_abs(&self) -> Scalar {
        self.c00.abs().max(&self.c11.abs()).max(&self.c01.abs())
    }

    pub open spec fn spec_mul_mat2x3(&self, n: &Mat2x3) -> Mat2x3 {
        Mat2x3 { c0: self.mul_vec2(&n.c0), c1: self.mul_vec2(&n.c1), c2: self.mul_vec2(&n.c2) }
    }

    pub open spec fn spec_inverse(&self) -> Sym2 {
        let det = self.c00 * self.c11 - self.c01 * self.c01;
        let inv_det = det.gt(&whole(0)).select(&(whole(1) / det), &whole(0));
        Sym2 { c00: self.c11 * inv_det, c01: -self.c01 * inv_det, c11: self.c00 * inv_det }
    }

    pub open spec fn spec_det2_strict(&self) -> Scalar {
        self.c00 * self.c11 - self.c01 * self.c01
    }

    pub open spec fn spec_is_finite(&self) -> Test {
        self.c00.finite().and(&self.c11.finite()).and(&self.c01.finite())
    }

    /// Column 0.
    #[verifier::when_used_as_spec(spec_col0)]
    pub fn col0(&self) -> (r: Vec2)
        ensures
            r == self.col0(),
    {
        Vec2::new(self.c00.clone(), self.c01.clone())
    }

    /// Column 1.
    #[verifier::when_used_as_spec(spec_col1)]
    pub fn col1(&self) -> (r: Vec2)
        ensures
            r == self.col1(),
    {
        Vec2::new(self.c01.clone(), self.c11.clone())
    }

    /// `M * v`.
    #[verifier::when_used_as_spec(spec_mul_vec2)]
    pub fn mul_vec2(&self, v: &Vec2) -> (r: Vec2)
        ensures
            r == self.mul_vec2(v),
    {
        self.col0().scale(&v.x).add(&self.col1().scale(&v.y))
    }

    /// Every entry times `s`.
    #[verifier::when_used_as_spec(spec_scale)]
    pub fn scale(&self, s: &Scalar) -> (r: Sym2)
        ensures
            r == self.scale(s),
    {
        Sym2 { c00: &self.c00 * s, c01: &self.c01 * s, c11: &self.c11 * s }
    }

    /// The largest magnitude among the entries.
    #[verifier::when_used_as_spec(spec_max_abs)]
    pub fn max_abs(&self) -> (r: Scalar)
        ensures
            r == self.max_abs(),
    {
        self.c00.abs().max(&self.c11.abs()).max(&self.c01.abs())
    }

    /// `M * N`, column by column.
    #[verifier::when_used_as_spec(spec_mul_mat2x3)]
    pub fn mul_mat2x3(&self, n: &Mat2x3) -> (r: Mat2x3)
        ensures
            r == self.mul_mat2x3(n),
    {
        Mat2x3 { c0: self.mul_vec2(&n.c0), c1: self.mul_vec2(&n.c1), c2: self.mul_vec2(&n.c2) }
    }

    /// The inverse where the determinant is positive, else the zero matrix.
    #[verifier::when_used_as_spec(spec_inverse)]
    pub fn inverse(&self) -> (r: Sym2)
        ensures
            r == self.inverse(),
    {
        let det = &self.c00 * &self.c11 - &self.c01 * &self.c01;
        let zero = Scalar::num(0);
        let inv_det = det.gt(&zero).select(&(Scalar::num(1) / &det), &zero);
        Sym2 { c00: &self.c11 * &inv_det, c01: self.c01.neg() * &inv_det,
            c11: &self.c00 * &inv_det }
    }

    /// The determinant, as the difference of two products that are each rounded on their own.
    #[verifier::when_used_as_spec(spec_det2_strict)]
    pub fn det2_strict(&self) -> (r: Scalar)
        ensures
            r == self.det2_strict(),
    {
        let ad = &self.c00 * &self.c11;
        let bc = &self.c01 * &self.c01;
        ad - bc
    }

    /// Every entry is finite.
    #[verifier::when_used_as_spec(spec_is_finite)]
    pub fn is_finite(&self) -> (r: Test)
        ensures
            r == self.is_finite(),
    {
        self.c00.finite().and(&self.c11.finite()).and(&self.c01.finite())
    }
}

impl Clone for Sym2 {
    fn clone(&self) -> (r: Self)
        ensures
            r == *self,
    {
        Sym2 { c00: self.c00.clone(), c01: self.c01.clone(), c11: self.c11.clone() }
    }
}

/// A symmetric matrix of order three.
pub struct Sym3 {
    pub c00: Scalar,
    pub c01: Scalar,
    pub c02: Scalar,
    pub c11: Scalar,
    pub c12: Scalar,
    pub c22: Scalar,
}

impl Sym3 {
    pub open spec fn spec_row0(&self) -> Vec3A {
        Vec3A { x: self.c00, y: self.c01, z: self.c02, pad: Pad::Zero }
    }

    pub open spec fn spec_row1(&self) -> Vec3A {
        Vec3A { x: self.c01, y: self.c11, z: self.c12, pad: Pad::Zero }
    }

    pub open spec fn spec_row2(&self) -> Vec3A {
        Vec3A { x: self.c02, y: self.c12, z: self.c22, pad: Pad::Zero }
    }

    pub open spec fn spec_mul_vec3(&self, v: &Vec3A) -> Vec3A {
        self.row0().scale(&v.x).add(&self.row1().scale(&v.y)).add(&self.row2().scale(&v.z))
    }

    pub open spec fn spec_scale(&self, s: &Scalar) -> Sym3 {
        Sym3 {
            c00: self.c00 * *s,
            c01: self.c01 * *s,
            c02: self.c02 * *s,
            c11: self.c11 * *s,
            c12: self.c12 * *s,
            c22: self.c22 * *s,
        }
    }

    pub open spec fn spec_mul_mat3(&self, m: &Mat3) -> Mat3 {
        spec_from_cols(
            &self.mul_vec3(&m.col0()),
            &self.mul_vec3(&m.col1()),
            &self.mul_vec3(&m.col2()),
        )
    }

    pub open spec fn spec_congruence(&self, m: &Mat3) -> Sym3 {
        let sr0 = self.mul_vec3(&m.row0());
        let sr1 = self.mul_vec3(&m.row1());
        let sr2 = self.mul_vec3(&m.row2());
        Sym3 {
            c00: m.row0().dot(&sr0),
            c01: m.row0().dot(&sr1),
            c02: m.row0().dot(&sr2),
            c11: m.row1().dot(&sr1),
            c12: m.row1().dot(&sr2),
            c22: m.row2().dot(&sr2),
        }
    }

    pub open spec fn spec_transpose_congruence(&self, m: &Mat3) -> Sym3 {
        let sc0 = self.mul_vec3(&m.col0());
        let sc1 = self.mul_vec3(&m.col1());
        let sc2 = self.mul_vec3(&m.col2());
        Sym3 {
            c00: m.col0().dot(&sc0),
            c01: m.col0().dot(&sc1),
            c02: m.col0().dot(&sc2),
            c11: m.col1().dot(&sc1),
            c12: m.col1().dot(&sc2),
            c22: m.col2().dot(&sc2),
        }
    }

    /// Row 0.
    #[verifier::when_used_as_spec(spec_row0)]
    pub fn row0(&self) -> (r: Vec3A)
        ensures
            r == self.row0(),
    {
        Vec3A::new(self.c00.clone(), self.c01.clone(), self.c02.clone())
    }

    /// Row 1.
    #[verifier::when_used_as_spec(spec_row1)]
    pub fn row1(&self) -> (r: Vec3A)
        ensures
            r == self.row1(),
    {
        Vec3A::new(self.c01.clone(), self.c11.clone(), self.c12.clone())
    }

    /// Row 2.
    #[verifier::when_used_as_spec(spec_row2)]
    pub fn row2(&self) -> (r: Vec3A)
        ensures
            r == self.row2(),
    {
        Vec3A::new(self.c02.clone(), self.c12.clone(), self.c22.clone())
    }

    /// `M * v`.
    #[verifier::when_used_as_spec(spec_mul_vec3)]
    pub fn mul_vec3(&self, v: &Vec3A) -> (r: Vec3A)
        ensures
            r == self.mul_vec3(v),
    {
        self.row0().scale(&v.x).add(&self.row1().scale(&v.y)).add(&self.row2().scale(&v.z))
    }

    /// Every entry times `s`.
    #[verifier::when_used_as_spec(spec_scale)]
    pub fn scale(&self, s: &Scalar) -> (r: Sym3)
        ensures
            r == self.scale(s),
    {
        Sym3 {
            c00: &self.c00 * s,
            c01: &self.c01 * s,
            c02: &self.c02 * s,
            c11: &self.c11 * s,
            c12: &self.c12 * s,
            c22: &self.c22 * s,
        }
    }

    /// `S * M`, column by column.
    #[verifier::when_used_as_spec(spec_mul_mat3)]
    pub fn mul_mat3(&self, m: &Mat3) -> (r: Mat3)
        ensures
            r == self.mul_mat3(m),
    {
        Mat3::from_cols(
            &self.mul_vec3(&m.col0()),
            &self.mul_vec3(&m.col1()),
            &self.mul_vec3(&m.col2()),
        )
    }

    /// `M * S * M^T`, which is symmetric.
    #[verifier::when_used_as_spec(spec_congruence)]
    pub fn congruence(&self, m: &Mat3) -> (r: Sym3)
        ensures
            r == self.congruence(m),
    {
        let sr0 = self.mul_vec3(&m.row0());
        let sr1 = self.mul_vec3(&m.row1());
        let sr2 = self.mul_vec3(&m.row2());
        Sym3 {
            c00: m.row0().dot(&sr0),
            c01: m.row0().dot(&sr1),
            c02: m.row0().dot(&sr2),
            c11: m.row1().dot(&sr1),
            c12: m.row1().dot(&sr2),
            c22: m.row2().dot(&sr2),
        }
    }

    /// `M^T * S * M`, which is symmetric.
    #[verifier::when_used_as_spec(spec_transpose_congruence)]
    pub fn transpose_congruence(&self, m: &Mat3) -> (r: Sym3)
        ensures
            r == self.transpose_congruence(m),
    {
        let sc0 = self.mul_vec3(&m.col0());
        let sc1 = self.mul_vec3(&m.col1());
        let sc2 = self.mul_vec3(&m.col2());
        Sym3 {
            c00: m.col0().dot(&sc0),
            c01: m.col0().dot(&sc1),
            c02: m.col0().dot(&sc2),
            c11: m.col1().dot(&sc1),
            c12: m.col1().dot(&sc2),
            c22: m.col2().dot(&sc2),
        }
    }
}

impl Clone for Sym3 {
    fn clone(&self) -> (r: Self)
        ensures
            r == *self,
    {
        Sym3 { c00: self.c00.clone(), c01: self.c01.clone(), c02: self.c02.clone(),
            c11: self.c11.clone(), c12: self.c12.clone(), c22: self.c22.clone() }
    }
}

} // verus!
