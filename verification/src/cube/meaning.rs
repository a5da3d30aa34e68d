//! What vectors and matrices of traced numbers denote over the reals, and the
//! laws of their operations.
use crate::cube::algebra::{
    adjoint2, adjoint3, gram_row, half_form, inverse_undone, product_row, rotation_columns, unit3,
    unit4,
};
use crate::cube::{calc_sigma, Mat2x3, Mat3, Quat, Sym2, Sym3, Vec2, Vec3A};
use crate::expr::Scalar;
use crate::expr::algebra::{mul_comm, reciprocal, root_positive};
use crate::expr::semantics::{group_value, pow10, Model};
use vstd::prelude::*;

verus! {

/// A vector of two reals.
pub struct RVec2 {
    pub x: real,
    pub y: real,
}

/// A vector of three reals.
pub struct RVec3 {
    pub x: real,
    pub y: real,
    pub z: real,
}

/// A quaternion of reals.
pub struct RQuat {
    pub w: real,
    pub x: real,
    pub y: real,
    pub z: real,
}

/// A matrix of three columns of three reals.
pub struct RMat3 {
    pub c0: RVec3,
    pub c1: RVec3,
    pub c2: RVec3,
}

/// A matrix of three columns of two reals.
pub struct RMat2x3 {
    pub c0: RVec2,
    pub c1: RVec2,
    pub c2: RVec2,
}

/// A symmetric matrix of order two.
pub struct RSym2 {
    pub c00: real,
    pub c01: real,
    pub c11: real,
}

/// A symmetric matrix of order three.
pub struct RSym3 {
    pub c00: real,
    pub c01: real,
    pub c02: real,
    pub c11: real,
    pub c12: real,
    pub c22: real,
}

impl RVec2 {
    pub open spec fn plus(self, o: RVec2) -> RVec2 {
        RVec2 { x: self.x + o.x, y: self.y + o.y }
    }

    pub open spec fn minus(self, o: RVec2) -> RVec2 {
        RVec2 { x: self.x - o.x, y: self.y - o.y }
    }

    pub open spec fn times(self, s: real) -> RVec2 {
        RVec2 { x: self.x * s, y: self.y * s }
    }

    pub open spec fn dot(self, o: RVec2) -> real {
        self.x * o.x + self.y * o.y
    }
}

impl RVec3 {
    pub open spec fn plus(self, o: RVec3) -> RVec3 {
        RVec3 { x: self.x + o.x, y: self.y + o.y, z: self.z + o.z }
    }

    pub open spec fn minus(self, o: RVec3) -> RVec3 {
        RVec3 { x: self.x - o.x, y: self.y - o.y, z: self.z - o.z }
    }

    pub open spec fn times(self, s: real) -> RVec3 {
        RVec3 { x: self.x * s, y: self.y * s, z: self.z * s }
    }

    pub open spec fn dot(self, o: RVec3) -> real {
        self.x * o.x + self.y * o.y + self.z * o.z
    }
}

impl RQuat {
    pub open spec fn plus(self, o: RQuat) -> RQuat {
        RQuat { w: self.w + o.w, x: self.x + o.x, y: self.y + o.y, z: self.z + o.z }
    }

    pub open spec fn minus(self, o: RQuat) -> RQuat {
        RQuat { w: self.w - o.w, x: self.x - o.x, y: self.y - o.y, z: self.z - o.z }
    }

    pub open spec fn times(self, s: real) -> RQuat {
        RQuat { w: self.w * s, x: self.x * s, y: self.y * s, z: self.z * s }
    }

    pub open spec fn dot(self, o: RQuat) -> real {
        self.w * o.w + self.x * o.x + self.y * o.y + self.z * o.z
    }
}

impl RMat3 {
    /// The matrix times a vector.
    pub open spec fn apply(self, v: RVec3) -> RVec3 {
        self.c0.times(v.x).plus(self.c1.times(v.y)).plus(self.c2.times(v.z))
    }

    /// The transposed matrix times a vector.
    pub open spec fn apply_transpose(self, v: RVec3) -> RVec3 {
        RVec3 { x: self.c0.dot(v), y: self.c1.dot(v), z: self.c2.dot(v) }
    }

    /// The sum of the products of the entries.
    pub open spec fn inner(self, o: RMat3) -> real {
        self.c0.dot(o.c0) + self.c1.dot(o.c1) + self.c2.dot(o.c2)
    }
}

impl RMat2x3 {
    /// The matrix times a vector.
    pub open spec fn apply(self, v: RVec3) -> RVec2 {
        self.c0.times(v.x).plus(self.c1.times(v.y)).plus(self.c2.times(v.z))
    }

    /// The transposed matrix times a vector.
    pub open spec fn apply_transpose(self, v: RVec2) -> RVec3 {
        RVec3 { x: self.c0.dot(v), y: self.c1.dot(v), z: self.c2.dot(v) }
    }

    /// Every entry times a number.
    pub open spec fn times(self, s: real) -> RMat2x3 {
        RMat2x3 { c0: self.c0.times(s), c1: self.c1.times(s), c2: self.c2.times(s) }
    }
}

impl RSym2 {
    /// The matrix times a vector.
    pub open spec fn apply(self, v: RVec2) -> RVec2 {
        RVec2 { x: self.c00 * v.x + self.c01 * v.y, y: self.c01 * v.x + self.c11 * v.y }
    }

    pub open spec fn det(self) -> real {
        self.c00 * self.c11 - self.c01 * self.c01
    }

    /// The sum of the products of the entries, those off the diagonal twice.
    pub open spec fn inner(self, o: RSym2) -> real {
        self.c00 * o.c00 + 2real * self.c01 * o.c01 + self.c11 * o.c11
    }
}

impl RMat3 {
    pub open spec fn row0(self) -> RVec3 {
        RVec3 { x: self.c0.x, y: self.c1.x, z: self.c2.x }
    }

    pub open spec fn row1(self) -> RVec3 {
        RVec3 { x: self.c0.y, y: self.c1.y, z: self.c2.y }
    }

    pub open spec fn row2(self) -> RVec3 {
        RVec3 { x: self.c0.z, y: self.c1.z, z: self.c2.z }
    }

    /// Each column scaled.
    pub open spec fn diag(self, s: RVec3) -> RMat3 {
        RMat3 { c0: self.c0.times(s.x), c1: self.c1.times(s.y), c2: self.c2.times(s.z) }
    }

    /// `R * S * R^T`.
    pub open spec fn sandwich(self, s: RSym3) -> RSym3 {
        RSym3 {
            c00: self.row0().dot(s.apply(self.row0())),
            c01: self.row0().dot(s.apply(self.row1())),
            c02: self.row0().dot(s.apply(self.row2())),
            c11: self.row1().dot(s.apply(self.row1())),
            c12: self.row1().dot(s.apply(self.row2())),
            c22: self.row2().dot(s.apply(self.row2())),
        }
    }

    /// `R^T * S * R`.
    pub open spec fn pull(self, s: RSym3) -> RSym3 {
        RSym3 {
            c00: self.c0.dot(s.apply(self.c0)),
            c01: self.c0.dot(s.apply(self.c1)),
            c02: self.c0.dot(s.apply(self.c2)),
            c11: self.c1.dot(s.apply(self.c1)),
            c12: self.c1.dot(s.apply(self.c2)),
            c22: self.c2.dot(s.apply(self.c2)),
        }
    }
}

impl RMat2x3 {
    pub open spec fn row0(self) -> RVec3 {
        RVec3 { x: self.c0.x, y: self.c1.x, z: self.c2.x }
    }

    pub open spec fn row1(self) -> RVec3 {
        RVec3 { x: self.c0.y, y: self.c1.y, z: self.c2.y }
    }

    /// `J * S * J^T`.
    pub open spec fn sandwich(self, s: RSym3) -> RSym2 {
        RSym2 {
            c00: self.row0().dot(s.apply(self.row0())),
            c01: self.row0().dot(s.apply(self.row1())),
            c11: self.row1().dot(s.apply(self.row1())),
        }
    }

    /// How fast `J * S * J^T` changes with `J`, which changes at the rate `d`.
    pub open spec fn sandwich_rate(self, d: RMat2x3, s: RSym3) -> RSym2 {
        RSym2 {
            c00: 2real * d.row0().dot(s.apply(self.row0())),
            c01: d.row0().dot(s.apply(self.row1())) + d.row1().dot(s.apply(self.row0())),
            c11: 2real * d.row1().dot(s.apply(self.row1())),
        }
    }

    /// `J^T * V * J`.
    pub open spec fn pull(self, v: RSym2) -> RSym3 {
        RSym3 {
            c00: self.c0.dot(v.apply(self.c0)),
            c01: self.c0.dot(v.apply(self.c1)),
            c02: self.c0.dot(v.apply(self.c2)),
            c11: self.c1.dot(v.apply(self.c1)),
            c12: self.c1.dot(v.apply(self.c2)),
            c22: self.c2.dot(v.apply(self.c2)),
        }
    }
}

impl RSym3 {
    /// The matrix times a vector.
    pub open spec fn apply(self, v: RVec3) -> RVec3 {
        RVec3 {
            x: self.c00 * v.x + self.c01 * v.y + self.c02 * v.z,
            y: self.c01 * v.x + self.c11 * v.y + self.c12 * v.z,
            z: self.c02 * v.x + self.c12 * v.y + self.c22 * v.z,
        }
    }

    /// The sum of the products of the entries, those off the diagonal twice.
    pub open spec fn inner(self, o: RSym3) -> real {
        self.c00 * o.c00 + self.c11 * o.c11 + self.c22 * o.c22 + 2real * (self.c01 * o.c01) + 2real
            * (self.c02 * o.c02) + 2real * (self.c12 * o.c12)
    }

    /// The matrix times each column of another.
    pub open spec fn times(self, p: RMat3) -> RMat3 {
        RMat3 { c0: self.apply(p.c0), c1: self.apply(p.c1), c2: self.apply(p.c2) }
    }

    pub open spec fn scaled(self, k: real) -> RSym3 {
        RSym3 {
            c00: self.c00 * k,
            c01: self.c01 * k,
            c02: self.c02 * k,
            c11: self.c11 * k,
            c12: self.c12 * k,
            c22: self.c22 * k,
        }
    }
}

impl Vec2 {
    /// What it denotes.
    pub open spec fn value(self, m: Model) -> RVec2 {
        RVec2 {
            x: self.x.value(m),
            y: self.y.value(m),
        }
    }
}

impl Vec2 {
    /// How fast it changes.
    pub open spec fn rate(self, m: Model) -> RVec2 {
        RVec2 {
            x: self.x.rate(m),
            y: self.y.rate(m),
        }
    }
}

impl Vec3A {
    /// What it denotes.
    pub open spec fn value(self, m: Model) -> RVec3 {
        RVec3 {
            x: self.x.value(m),
            y: self.y.value(m),
            z: self.z.value(m),
        }
    }
}

impl Vec3A {
    /// How fast it changes.
    pub open spec fn rate(self, m: Model) -> RVec3 {
        RVec3 {
            x: self.x.rate(m),
            y: self.y.rate(m),
            z: self.z.rate(m),
        }
    }
}

impl Quat {
    /// What it denotes.
    pub open spec fn value(self, m: Model) -> RQuat {
        RQuat {
            w: self.w.value(m),
            x: self.x.value(m),
            y: self.y.value(m),
            z: self.z.value(m),
        }
    }
}

impl Quat {
    /// How fast it changes.
    pub open spec fn rate(self, m: Model) -> RQuat {
        RQuat {
            w: self.w.rate(m),
            x: self.x.rate(m),
            y: self.y.rate(m),
            z: self.z.rate(m),
        }
    }
}

impl Sym2 {
    /// What it denotes.
    pub open spec fn value(self, m: Model) -> RSym2 {
        RSym2 {
            c00: self.c00.value(m),
            c01: self.c01.value(m),
            c11: self.c11.value(m),
        }
    }
}

impl Sym2 {
    /// How fast it changes.
    pub open spec fn rate(self, m: Model) -> RSym2 {
        RSym2 {
            c00: self.c00.rate(m),
            c01: self.c01.rate(m),
            c11: self.c11.rate(m),
        }
    }
}

impl Sym3 {
    /// What it denotes.
    pub open spec fn value(self, m: Model) -> RSym3 {
        RSym3 {
            c00: self.c00.value(m),
            c01: self.c01.value(m),
            c02: self.c02.value(m),
            c11: self.c11.value(m),
            c12: self.c12.value(m),
            c22: self.c22.value(m),
        }
    }
}

impl Sym3 {
    /// How fast it changes.
    pub open spec fn rate(self, m: Model) -> RSym3 {
        RSym3 {
            c00: self.c00.rate(m),
            c01: self.c01.rate(m),
            c02: self.c02.rate(m),
            c11: self.c11.rate(m),
            c12: self.c12.rate(m),
            c22: self.c22.rate(m),
        }
    }
}

impl Mat3 {
    /// What it denotes.
    pub open spec fn value(self, m: Model) -> RMat3 {
        RMat3 {
            c0: self.col0().value(m),
            c1: self.col1().value(m),
            c2: self.col2().value(m),
        }
    }
}

impl Mat2x3 {
    /// What it denotes.
    pub open spec fn value(self, m: Model) -> RMat2x3 {
        RMat2x3 { c0: self.c0.value(m), c1: self.c1.value(m), c2: self.c2.value(m) }
    }
}

impl Mat3 {
    /// How fast it changes.
    pub open spec fn rate(self, m: Model) -> RMat3 {
        RMat3 {
            c0: self.col0().rate(m),
            c1: self.col1().rate(m),
            c2: self.col2().rate(m),
        }
    }
}

impl Mat2x3 {
    /// How fast it changes.
    pub open spec fn rate(self, m: Model) -> RMat2x3 {
        RMat2x3 { c0: self.c0.rate(m), c1: self.c1.rate(m), c2: self.c2.rate(m) }
    }
}

/// Addition, subtraction, scaling and the inner product of vectors mean what
/// they say.
pub proof fn lemma_vec3_ops(a: Vec3A, b: Vec3A, s: Scalar, m: Model)
    ensures
        a.add(&b).value(m) == a.value(m).plus(b.value(m)),
        a.sub(&b).value(m) == a.value(m).minus(b.value(m)),
        a.scale(&s).value(m) == a.value(m).times(s.value(m)),
        a.dot(&b).value(m) == a.value(m).dot(b.value(m)),
{
    broadcast use group_value;

}

/// The same of vectors of two.
pub proof fn lemma_vec2_ops(a: Vec2, b: Vec2, s: Scalar, m: Model)
    ensures
        a.add(&b).value(m) == a.value(m).plus(b.value(m)),
        a.scale(&s).value(m) == a.value(m).times(s.value(m)),
        a.dot(&b).value(m) == a.value(m).dot(b.value(m)),
{
    broadcast use group_value;

}

/// A normalized vector has unit length.
pub proof fn lemma_normalize_vec3(v: Vec3A, m: Model)
    requires
        m.sound(),
        v.value(m).dot(v.value(m)) > 0real,
    ensures
        v.normalize().value(m).dot(v.normalize().value(m)) == 1real,
{
    let a = v.value(m);
    let n = a.dot(a);
    let l = (m.sqrt)(n);
    root_positive(l, n);
    let i = 1real / l;
    reciprocal(l);
    assert(v.normalize().value(m) == a.times(i)) by {
        broadcast use group_value;

    }
    unit3(a.x, a.y, a.z, l, i);
}

/// A normalized quaternion has unit length.
pub proof fn lemma_normalize_quat(q: Quat, m: Model)
    requires
        m.sound(),
        q.value(m).dot(q.value(m)) > 0real,
    ensures
        q.normalize().value(m).dot(q.normalize().value(m)) == 1real,
{
    let a = q.value(m);
    let n = a.dot(a);
    let l = (m.sqrt)(n);
    root_positive(l, n);
    let i = 1real / l;
    reciprocal(l);
    assert(q.normalize().value(m) == a.times(i)) by {
        broadcast use group_value;

    }
    unit4(a.w, a.x, a.y, a.z, l, i);
}

/// A matrix applies to a vector, and its transpose, as they should.
pub proof fn lemma_mat3_apply(a: Mat3, v: Vec3A, m: Model)
    ensures
        a.mul_vec3(&v).value(m) == a.value(m).apply(v.value(m)),
        a.transpose_mul_vec3(&v).value(m) == a.value(m).apply_transpose(v.value(m)),
{
    broadcast use group_value;

}

/// The product of two matrices is the one after the other.
pub proof fn lemma_mat3_product(a: Mat3, b: Mat3, v: RVec3, m: Model)
    ensures
        a.mul_mat3(&b).value(m).apply(v) == a.value(m).apply(b.value(m).apply(v)),
{
    lemma_mat3_apply(a, b.col0(), m);
    lemma_mat3_apply(a, b.col1(), m);
    lemma_mat3_apply(a, b.col2(), m);
    let p = a.value(m);
    let q = b.value(m);
    assert(a.mul_mat3(&b).value(m).c0 == p.apply(q.c0));
    assert(a.mul_mat3(&b).value(m).c1 == p.apply(q.c1));
    assert(a.mul_mat3(&b).value(m).c2 == p.apply(q.c2));
    product_row_of(p.c0.x, p.c1.x, p.c2.x, q, v);
    product_row_of(p.c0.y, p.c1.y, p.c2.y, q, v);
    product_row_of(p.c0.z, p.c1.z, p.c2.z, q, v);
}

proof fn product_row_of(a: real, b: real, c: real, q: RMat3, v: RVec3)
    ensures
        (a * q.c0.x + b * q.c0.y + c * q.c0.z) * v.x + (a * q.c1.x + b * q.c1.y + c * q.c1.z) * v.y
            + (a * q.c2.x + b * q.c2.y + c * q.c2.z) * v.z == a * q.apply(v).x + b * q.apply(v).y
            + c * q.apply(v).z,
{
    product_row(
        a,
        b,
        c,
        q.c0.x,
        q.c0.y,
        q.c0.z,
        q.c1.x,
        q.c1.y,
        q.c1.z,
        q.c2.x,
        q.c2.y,
        q.c2.z,
        v.x,
        v.y,
        v.z,
    );
}

/// The transpose is the adjoint.
pub proof fn lemma_mat3_adjoint(p: RMat3, v: RVec3, w: RVec3)
    ensures
        p.apply(v).dot(w) == v.dot(p.apply_transpose(w)),
{
    adjoint3(
        p.c0.x,
        p.c0.y,
        p.c0.z,
        p.c1.x,
        p.c1.y,
        p.c1.z,
        p.c2.x,
        p.c2.y,
        p.c2.z,
        v.x,
        v.y,
        v.z,
        w.x,
        w.y,
        w.z,
    );
}

/// The transpose of a matrix of two rows is its adjoint.
pub proof fn lemma_mat2x3_adjoint(p: RMat2x3, v: RVec3, w: RVec2)
    ensures
        p.apply(v).dot(w) == v.dot(p.apply_transpose(w)),
{
    adjoint2(p.c0.x, p.c0.y, p.c1.x, p.c1.y, p.c2.x, p.c2.y, v.x, v.y, v.z, w.x, w.y);
}

proof fn gram_row_of(a: real, b: real, c: real, p: RMat3, v: RVec3)
    ensures
        (a * p.c0.x + b * p.c1.x + c * p.c2.x) * v.x + (a * p.c0.y + b * p.c1.y + c * p.c2.y) * v.y
            + (a * p.c0.z + b * p.c1.z + c * p.c2.z) * v.z == a * p.c0.dot(v) + b * p.c1.dot(v) + c
            * p.c2.dot(v),
{
    gram_row(
        a,
        b,
        c,
        p.c0.x,
        p.c0.y,
        p.c0.z,
        p.c1.x,
        p.c1.y,
        p.c1.z,
        p.c2.x,
        p.c2.y,
        p.c2.z,
        v.x,
        v.y,
        v.z,
    );
}

/// `M * M^T` applies the transpose first, then the matrix.
pub proof fn lemma_outer_product_self(a: Mat3, v: RVec3, m: Model)
    ensures
        a.outer_product_self().value(m).apply(v) == a.value(m).apply(
            a.value(m).apply_transpose(v),
        ),
{
    let p = a.value(m);
    let r = a.outer_product_self().value(m);
    assert(r == outer(p)) by {
        broadcast use group_value;

    }
    gram_row_of(p.c0.x, p.c1.x, p.c2.x, p, v);
    gram_row_of(p.c0.y, p.c1.y, p.c2.y, p, v);
    gram_row_of(p.c0.z, p.c1.z, p.c2.z, p, v);
    mul_comm(p.c0.x, p.c0.y);
    mul_comm(p.c1.x, p.c1.y);
    mul_comm(p.c2.x, p.c2.y);
    mul_comm(p.c0.x, p.c0.z);
    mul_comm(p.c1.x, p.c1.z);
    mul_comm(p.c2.x, p.c2.z);
    mul_comm(p.c0.y, p.c0.z);
    mul_comm(p.c1.y, p.c1.z);
    mul_comm(p.c2.y, p.c2.z);
}

/// The matrix times its transpose.
pub open spec fn outer(p: RMat3) -> RSym3 {
    RSym3 {
        c00: p.c0.x * p.c0.x + p.c1.x * p.c1.x + p.c2.x * p.c2.x,
        c01: p.c0.x * p.c0.y + p.c1.x * p.c1.y + p.c2.x * p.c2.y,
        c02: p.c0.x * p.c0.z + p.c1.x * p.c1.z + p.c2.x * p.c2.z,
        c11: p.c0.y * p.c0.y + p.c1.y * p.c1.y + p.c2.y * p.c2.y,
        c12: p.c0.y * p.c0.z + p.c1.y * p.c1.z + p.c2.y * p.c2.z,
        c22: p.c0.z * p.c0.z + p.c1.z * p.c1.z + p.c2.z * p.c2.z,
    }
}

/// The inverse of a matrix with a positive determinant undoes it; every other
/// matrix gets zeros.
pub proof fn lemma_sym2_inverse(s: Sym2, v: RVec2, m: Model)
    ensures
        s.value(m).det() > 0real ==> s.value(m).apply(s.inverse().value(m).apply(v)) == v
            && s.inverse().value(m).apply(s.value(m).apply(v)) == v,
        s.value(m).det() <= 0real ==> s.inverse().value(m) == (RSym2 {
            c00: 0real,
            c01: 0real,
            c11: 0real,
        }),
{
    let p = s.value(m);
    let d = p.det();
    let i = if d > 0real {
        1real / d
    } else {
        0real
    };
    let q = s.inverse().value(m);
    assert(q == (RSym2 { c00: p.c11 * i, c01: (-p.c01) * i, c11: p.c00 * i })) by {
        broadcast use group_value;

    }
    if d > 0real {
        reciprocal(d);
        inverse_undone(p.c00, p.c01, p.c11, i, v.x, v.y);
    }
}

/// The matrix of a unit quaternion keeps lengths and angles: its columns are unit
/// vectors at right angles.
pub proof fn lemma_unit_quat_is_isometry(q: Quat, m: Model)
    requires
        q.value(m).dot(q.value(m)) == 1real,
    ensures
        ({
            let r = q.to_mat3().value(m);
            &&& r.c0.dot(r.c0) == 1real
            &&& r.c1.dot(r.c1) == 1real
            &&& r.c2.dot(r.c2) == 1real
            &&& r.c0.dot(r.c1) == 0real
            &&& r.c0.dot(r.c2) == 0real
            &&& r.c1.dot(r.c2) == 0real
        }),
{
    let p = q.value(m);
    let r = q.to_mat3().value(m);
    assert(r == rotation(p)) by {
        broadcast use group_value;

    }
    rotation_columns(p.w, p.x, p.y, p.z);
}

/// The rotation matrix of a quaternion.
pub open spec fn rotation(q: RQuat) -> RMat3 {
    RMat3 {
        c0: RVec3 {
            x: 1real - 2real * (q.y * q.y + q.z * q.z),
            y: 2real * (q.x * q.y + q.w * q.z),
            z: 2real * (q.x * q.z - q.w * q.y),
        },
        c1: RVec3 {
            x: 2real * (q.x * q.y - q.w * q.z),
            y: 1real - 2real * (q.x * q.x + q.z * q.z),
            z: 2real * (q.y * q.z + q.w * q.x),
        },
        c2: RVec3 {
            x: 2real * (q.x * q.z + q.w * q.y),
            y: 2real * (q.y * q.z - q.w * q.x),
            z: 1real - 2real * (q.x * q.x + q.y * q.y),
        },
    }
}

/// The congruences of symmetric matrices mean what they say.
pub proof fn lemma_congruence(s: Sym3, a: Mat3, j: Mat2x3, v: Sym2, k: Scalar, m: Model)
    ensures
        s.congruence(&a).value(m) == a.value(m).sandwich(s.value(m)),
        s.transpose_congruence(&a).value(m) == a.value(m).pull(s.value(m)),
        j.transpose_congruence_sym2(&v).value(m) == j.value(m).pull(v.value(m)),
        s.scale(&k).value(m) == s.value(m).scaled(k.value(m)),
        s.mul_mat3(&a).value(m) == s.value(m).times(a.value(m)),
{
    broadcast use group_value;

    let sv = s.value(m);
    let av = a.value(m);
    let jv = j.value(m);
    let vv = v.value(m);
    assert(s.mul_vec3(&a.row0()).value(m) == sv.apply(av.row0()));
    assert(s.mul_vec3(&a.row1()).value(m) == sv.apply(av.row1()));
    assert(s.mul_vec3(&a.row2()).value(m) == sv.apply(av.row2()));
    assert(s.mul_vec3(&a.col0()).value(m) == sv.apply(av.c0));
    assert(s.mul_vec3(&a.col1()).value(m) == sv.apply(av.c1));
    assert(s.mul_vec3(&a.col2()).value(m) == sv.apply(av.c2));
    assert(v.mul_vec2(&j.c0).value(m) == vv.apply(jv.c0));
    assert(v.mul_vec2(&j.c1).value(m) == vv.apply(jv.c1));
    assert(v.mul_vec2(&j.c2).value(m) == vv.apply(jv.c2));
}

/// The exponent of a splat is half the quadratic form of its conic.
pub proof fn lemma_calc_sigma(
    px: Scalar,
    py: Scalar,
    conic: Sym2,
    xy_x: Scalar,
    xy_y: Scalar,
    m: Model,
)
    ensures
        ({
            let d = RVec2 { x: px.value(m) - xy_x.value(m), y: py.value(m) - xy_y.value(m) };
            2real * calc_sigma(&px, &py, &conic, &xy_x, &xy_y).value(m) == conic.value(m).apply(
                d,
            ).dot(d)
        }),
{
    let (dx, dy) = (px.value(m) - xy_x.value(m), py.value(m) - xy_y.value(m));
    let c = conic.value(m);
    assert(pow10(0) == 1real);
    assert(pow10(-1) == pow10(0) / 10real);
    let half = 5real * pow10(-1);
    assert(calc_sigma(&px, &py, &conic, &xy_x, &xy_y).value(m) == half * (c.c00 * dx * dx + c.c11
        * dy * dy) + c.c01 * dx * dy) by {
        broadcast use group_value;

    }
    half_form(c.c00, c.c01, c.c11, half, dx, dy);
}

} // verus!
