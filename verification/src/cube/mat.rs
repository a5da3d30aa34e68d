//! Matrices of traced numbers.
use crate::cube::{Pad, Sym2, Sym3, Vec2, Vec3A};
use crate::expr::Scalar;
use vstd::prelude::*;

verus! {

/// A matrix of three rows and three columns; `c1_z` is column 1, row z.
pub struct Mat3 {
    pub c0_x: Scalar,
    pub c0_y: Scalar,
    pub c0_z: Scalar,
    pub c1_x: Scalar,
    pub c1_y: Scalar,
    pub c1_z: Scalar,
    pub c2_x: Scalar,
    pub c2_y: Scalar,
    pub c2_z: Scalar,
}

/// The matrix with the given columns.
pub open spec fn spec_from_cols(c0: &Vec3A, c1: &Vec3A, c2: &Vec3A) -> Mat3 {
    Mat3 {
        c0_x: c0.x,
        c0_y: c0.y,
        c0_z: c0.z,
        c1_x: c1.x,
        c1_y: c1.y,
        c1_z: c1.z,
        c2_x: c2.x,
        c2_y: c2.y,
        c2_z: c2.z,
    }
}

impl Mat3 {
    pub open spec fn spec_col0(&self) -> Vec3A {
        Vec3A { x: self.c0_x, y: self.c0_y, z: self.c0_z, pad: Pad::Zero }
    }

    pub open spec fn spec_col1(&self) -> Vec3A {
        Vec3A { x: self.c1_x, y: self.c1_y, z: self.c1_z, pad: Pad::Zero }
    }

    pub open spec fn spec_col2(&self) -> Vec3A {
        Vec3A { x: self.c2_x, y: self.c2_y, z: self.c2_z, pad: Pad::Zero }
    }

    pub open spec fn spec_row0(&self) -> Vec3A {
        Vec3A { x: self.c0_x, y: self.c1_x, z: self.c2_x, pad: Pad::Zero }
    }

    pub open spec fn spec_row1(&self) -> Vec3A {
        Vec3A { x: self.c0_y, y: self.c1_y, z: self.c2_y, pad: Pad::Zero }
    }

    pub open spec fn spec_row2(&self) -> Vec3A {
        Vec3A { x: self.c0_z, y: self.c1_z, z: self.c2_z, pad: Pad::Zero }
    }

    pub open spec fn spec_mul_vec3(&self, v: &Vec3A) -> Vec3A {
        self.col0().scale(&v.x).add(&self.col1().scale(&v.y)).add(&self.col2().scale(&v.z))
    }

    pub open spec fn spec_transpose_mul_vec3(&self, v: &Vec3A) -> Vec3A {
        Vec3A { x: self.col0().dot(v), y: self.col1().dot(v), z: self.col2().dot(v),
            pad: Pad::Zero }
    }

    pub open spec fn spec_mul_mat3(&self, n: &Mat3) -> Mat3 {
        spec_from_cols(
            &self.mul_vec3(&n.col0()),
            &self.mul_vec3(&n.col1()),
            &self.mul_vec3(&n.col2()),
        )
    }

    pub open spec fn spec_mul_diag(&self, s: &Vec3A) -> Mat3 {
        spec_from_cols(
            &self.col0().scale(&s.x),
            &self.col1().scale(&s.y),
            &self.col2().scale(&s.z),
        )
    }

    pub open spec fn spec_outer_product_self(&self) -> Sym3 {
        let r0 = self.row0();
        let r1 = self.row1();
        let r2 = self.row2();
        Sym3 {
            c00: r0.dot(&r0),
            c01: r0.dot(&r1),
            c02: r0.dot(&r2),
            c11: r1.dot(&r1),
            c12: r1.dot(&r2),
            c22: r2.dot(&r2),
        }
    }

    /// The matrix with the given columns.
    pub fn from_cols(c0: &Vec3A, c1: &Vec3A, c2: &Vec3A) -> (r: Mat3)
        ensures
            r == spec_from_cols(c0, c1, c2),
    {
        Mat3 {
            c0_x: c0.x.clone(),
            c0_y: c0.y.clone(),
            c0_z: c0.z.clone(),
            c1_x: c1.x.clone(),
            c1_y: c1.y.clone(),
            c1_z: c1.z.clone(),
            c2_x: c2.x.clone(),
            c2_y: c2.y.clone(),
            c2_z: c2.z.clone(),
        }
    }

    /// Column 0.
    #[verifier::when_used_as_spec(spec_col0)]
    pub fn col0(&self) -> (r: Vec3A)
        ensures
            r == self.col0(),
    {
        Vec3A::new(self.c0_x.clone(), self.c0_y.clone(), self.c0_z.clone())
    }

    /// Column 1.
    #[verifier::when_used_as_spec(spec_col1)]
    pub fn col1(&self) -> (r: Vec3A)
        ensures
            r == self.col1(),
    {
        Vec3A::new(self.c1_x.clone(), self.c1_y.clone(), self.c1_z.clone())
    }

    /// Column 2.
    #[verifier::when_used_as_spec(spec_col2)]
    pub fn col2(&self) -> (r: Vec3A)
        ensures
            r == self.col2(),
    {
        Vec3A::new(self.c2_x.clone(), self.c2_y.clone(), self.c2_z.clone())
    }

    /// Row 0.
    #[verifier::when_used_as_spec(spec_row0)]
    pub fn row0(&self) -> (r: Vec3A)
        ensures
            r == self.row0(),
    {
        Vec3A::new(self.c0_x.clone(), self.c1_x.clone(), self.c2_x.clone())
    }

    /// Row 1.
    #[verifier::when_used_as_spec(spec_row1)]
    pub fn row1(&self) -> (r: Vec3A)
        ensures
            r == self.row1(),
    {
        Vec3A::new(self.c0_y.clone(), self.c1_y.clone(), self.c2_y.clone())
    }

    /// Row 2.
    #[verifier::when_used_as_spec(spec_row2)]
    pub fn row2(&self) -> (r: Vec3A)
        ensures
            r == self.row2(),
    {
        Vec3A::new(self.c0_z.clone(), self.c1_z.clone(), self.c2_z.clone())
    }

    /// `M * v`.
    #[verifier::when_used_as_spec(spec_mul_vec3)]
    pub fn mul_vec3(&self, v: &Vec3A) -> (r: Vec3A)
        ensures
            r == self.mul_vec3(v),
    {
        self.col0().scale(&v.x).add(&self.col1().scale(&v.y)).add(&self.col2().scale(&v.z))
    }

    /// `M^T * v`: the inner product of each column with `v`.
    #[verifier::when_used_as_spec(spec_transpose_mul_vec3)]
    pub fn transpose_mul_vec3(&self, v: &Vec3A) -> (r: Vec3A)
        ensures
            r == self.transpose_mul_vec3(v),
    {
        Vec3A::new(self.col0().dot(v), self.col1().dot(v), self.col2().dot(v))
    }

    /// `M * N`, column by column.
    #[verifier::when_used_as_spec(spec_mul_mat3)]
    pub fn mul_mat3(&self, n: &Mat3) -> (r: Mat3)
        ensures
            r == self.mul_mat3(n),
    {
        Mat3::from_cols(
            &self.mul_vec3(&n.col0()),
            &self.mul_vec3(&n.col1()),
            &self.mul_vec3(&n.col2()),
        )
    }

    /// `M * diag(s)`: each column times its own factor.
    #[verifier::when_used_as_spec(spec_mul_diag)]
    pub fn mul_diag(&self, s: &Vec3A) -> (r: Mat3)
        ensures
            r == self.mul_diag(s),
    {
        Mat3::from_cols(
            &self.col0().scale(&s.x),
            &self.col1().scale(&s.y),
            &self.col2().scale(&s.z),
        )
    }

    /// `M * M^T`, which is symmetric.
    #[verifier::when_used_as_spec(spec_outer_product_self)]
    pub fn outer_product_self(&self) -> (r: Sym3)
        ensures
            r == self.outer_product_self(),
    {
        let r0 = self.row0();
        let r1 = self.row1();
        let r2 = self.row2();
        Sym3 {
            c00: r0.dot(&r0),
            c01: r0.dot(&r1),
            c02: r0.dot(&r2),
            c11: r1.dot(&r1),
            c12: r1.dot(&r2),
            c22: r2.dot(&r2),
        }
    }
}

impl Clone for Mat3 {
    fn clone(&self) -> (r: Self)
        ensures
            r == *self,
    {
        Mat3 { c0_x: self.c0_x.clone(), c0_y: self.c0_y.clone(), c0_z: self.c0_z.clone(),
            c1_x: self.c1_x.clone(), c1_y: self.c1_y.clone(), c1_z: self.c1_z.clone(),
            c2_x: self.c2_x.clone(), c2_y: self.c2_y.clone(), c2_z: self.c2_z.clone() }
    }
}

/// A matrix of two rows and three columns, kept by columns.
pub struct Mat2x3 {
    pub c0: Vec2,
    pub c1: Vec2,
    pub c2: Vec2,
}

impl Mat2x3 {
    pub open spec fn spec_mul_vec3(&self, v: &Vec3A) -> Vec2 {
        self.c0.scale(&v.x).add(&self.c1.scale(&v.y)).add(&self.c2.scale(&v.z))
    }

    pub open spec fn spec_mul_mat3(&self, n: &Mat3) -> Mat2x3 {
        Mat2x3 {
            c0: self.mul_vec3(&n.col0()),
            c1: self.mul_vec3(&n.col1()),
            c2: self.mul_vec3(&n.col2()),
        }
    }

    pub open spec fn spec_row0(&self) -> Vec3A {
        Vec3A { x: self.c0.x, y: self.c1.x, z: self.c2.x, pad: Pad::Zero }
    }

    pub open spec fn spec_row1(&self) -> Vec3A {
        Vec3A { x: self.c0.y, y: self.c1.y, z: self.c2.y, pad: Pad::Zero }
    }

    pub open spec fn spec_transpose_congruence_sym2(&self, sym: &Sym2) -> Sym3 {
        let sc0 = sym.mul_vec2(&self.c0);
        let sc1 = sym.mul_vec2(&self.c1);
        let sc2 = sym.mul_vec2(&self.c2);
        Sym3 {
            c00: self.c0.dot(&sc0),
            c01: self.c0.dot(&sc1),
            c02: self.c0.dot(&sc2),
            c11: self.c1.dot(&sc1),
            c12: self.c1.dot(&sc2),
            c22: self.c2.dot(&sc2),
        }
    }

    pub open spec fn spec_transpose_mul_vec2(&self, v: &Vec2) -> Vec3A {
        self.row0().scale(&v.x).add(&self.row1().scale(&v.y))
    }

    pub open spec fn spec_gram_matrix(&self) -> Sym2 {
        Sym2 {
            c00: self.c0.x * self.c0.x + self.c1.x * self.c1.x + self.c2.x * self.c2.x,
            c01: self.c0.x * self.c0.y + self.c1.x * self.c1.y + self.c2.x * self.c2.y,
            c11: self.c0.y * self.c0.y + self.c1.y * self.c1.y + self.c2.y * self.c2.y,
        }
    }

    /// `M * v`.
    #[verifier::when_used_as_spec(spec_mul_vec3)]
    pub fn mul_vec3(&self, v: &Vec3A) -> (r: Vec2)
        ensures
            r == self.mul_vec3(v),
    {
        self.c0.scale(&v.x).add(&self.c1.scale(&v.y)).add(&self.c2.scale(&v.z))
    }

    /// `M * N`, column by column.
    #[verifier::when_used_as_spec(spec_mul_mat3)]
    pub fn mul_mat3(&self, n: &Mat3) -> (r: Mat2x3)
        ensures
            r == self.mul_mat3(n),
    {
        Mat2x3 {
            c0: self.mul_vec3(&n.col0()),
            c1: self.mul_vec3(&n.col1()),
            c2: self.mul_vec3(&n.col2()),
        }
    }

    /// Row 0.
    #[verifier::when_used_as_spec(spec_row0)]
    pub fn row0(&self) -> (r: Vec3A)
        ensures
            r == self.row0(),
    {
        Vec3A::new(self.c0.x(), self.c1.x(), self.c2.x())
    }

    /// Row 1.
    #[verifier::when_used_as_spec(spec_row1)]
    pub fn row1(&self) -> (r: Vec3A)
        ensures
            r == self.row1(),
    {
        Vec3A::new(self.c0.y(), self.c1.y(), self.c2.y())
    }

    /// `M^T * S * M`.
    #[verifier::when_used_as_spec(spec_transpose_congruence_sym2)]
    pub fn transpose_congruence_sym2(&self, sym: &Sym2) -> (r: Sym3)
        ensures
            r == self.transpose_congruence_sym2(sym),
    {
        let sc0 = sym.mul_vec2(&self.c0);
        let sc1 = sym.mul_vec2(&self.c1);
        let sc2 = sym.mul_vec2(&self.c2);
        Sym3 {
            c00: self.c0.dot(&sc0),
            c01: self.c0.dot(&sc1),
            c02: self.c0.dot(&sc2),
            c11: self.c1.dot(&sc1),
            c12: self.c1.dot(&sc2),
            c22: self.c2.dot(&sc2),
        }
    }

    /// `M^T * v`.
    #[verifier::when_used_as_spec(spec_transpose_mul_vec2)]
    pub fn transpose_mul_vec2(&self, v: &Vec2) -> (r: Vec3A)
        ensures
            r == self.transpose_mul_vec2(v),
    {
        self.row0().scale(&v.x).add(&self.row1().scale(&v.y))
    }

    /// `M * M^T`.
    #[verifier::when_used_as_spec(spec_gram_matrix)]
    pub fn gram_matrix(&self) -> (r: Sym2)
        ensures
            r == self.gram_matrix(),
    {
        Sym2 {
            c00: &self.c0.x * &self.c0.x + &self.c1.x * &self.c1.x + &self.c2.x * &self.c2.x,
            c01: &self.c0.x * &self.c0.y + &self.c1.x * &self.c1.y + &self.c2.x * &self.c2.y,
            c11: &self.c0.y * &self.c0.y + &self.c1.y * &self.c1.y + &self.c2.y * &self.c2.y,
        }
    }
}

impl Clone for Mat2x3 {
    fn clone(&self) -> (r: Self)
        ensures
            r == *self,
    {
        Mat2x3 { c0: self.c0.clone(), c1: self.c1.clone(), c2: self.c2.clone() }
    }
}

} // verus!
