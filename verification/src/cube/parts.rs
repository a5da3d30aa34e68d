//! The parts of vectors and matrices, and what is computed from them, entry by entry.
use crate::cube::algebra::turned;
use crate::cube::meaning::{rotation, RMat2x3, RQuat, RSym2, RVec3};
use crate::cube::{Mat2x3, Mat3, Quat, Sym2, Sym3, Vec2, Vec3A};
use crate::expr::algebra::{reciprocal, same_root};
use crate::expr::semantics::{group_value, Model};
use crate::expr::Scalar;
use vstd::prelude::*;

verus! {

/// The entry in a row and a column of a matrix of three rows.
pub open spec fn entry(a: Mat3, row: int, column: int, m: Model) -> real {
    let p = a.value(m);
    let c = if column == 0 {
        p.c0
    } else if column == 1 {
        p.c1
    } else {
        p.c2
    };
    if row == 0 {
        c.x
    } else if row == 1 {
        c.y
    } else {
        c.z
    }
}

/// The columns and rows of a matrix hold its entries, and scaling by a diagonal scales
/// each column by its own number.
pub proof fn lemma_mat3_parts(a: Mat3, s: Vec3A, m: Model)
    ensures
        a.col0().value(m) == (RVec3 {
            x: entry(a, 0, 0, m),
            y: entry(a, 1, 0, m),
            z: entry(a, 2, 0, m),
        }),
        a.col1().value(m) == (RVec3 {
            x: entry(a, 0, 1, m),
            y: entry(a, 1, 1, m),
            z: entry(a, 2, 1, m),
        }),
        a.col2().value(m) == (RVec3 {
            x: entry(a, 0, 2, m),
            y: entry(a, 1, 2, m),
            z: entry(a, 2, 2, m),
        }),
        a.row0().value(m) == (RVec3 {
            x: entry(a, 0, 0, m),
            y: entry(a, 0, 1, m),
            z: entry(a, 0, 2, m),
        }),
        a.row1().value(m) == (RVec3 {
            x: entry(a, 1, 0, m),
            y: entry(a, 1, 1, m),
            z: entry(a, 1, 2, m),
        }),
        a.row2().value(m) == (RVec3 {
            x: entry(a, 2, 0, m),
            y: entry(a, 2, 1, m),
            z: entry(a, 2, 2, m),
        }),
        a.mul_diag(&s).value(m).c0 == a.value(m).c0.times(s.value(m).x),
        a.mul_diag(&s).value(m).c1 == a.value(m).c1.times(s.value(m).y),
        a.mul_diag(&s).value(m).c2 == a.value(m).c2.times(s.value(m).z),
{
    broadcast use group_value;

}

/// A matrix of two rows applies to vectors and to the columns of matrices as it should,
/// and so does its transpose.
pub proof fn lemma_mat2x3_ops(a: Mat2x3, b: Mat3, v: Vec3A, w: Vec2, m: Model)
    ensures
        a.mul_vec3(&v).value(m) == a.value(m).apply(v.value(m)),
        a.transpose_mul_vec2(&w).value(m) == a.value(m).apply_transpose(w.value(m)),
        a.mul_mat3(&b).value(m) == (RMat2x3 {
            c0: a.value(m).apply(b.value(m).c0),
            c1: a.value(m).apply(b.value(m).c1),
            c2: a.value(m).apply(b.value(m).c2),
        }),
        a.row0().value(m) == (RVec3 {
            x: a.value(m).c0.x,
            y: a.value(m).c1.x,
            z: a.value(m).c2.x,
        }),
        a.row1().value(m) == (RVec3 {
            x: a.value(m).c0.y,
            y: a.value(m).c1.y,
            z: a.value(m).c2.y,
        }),
{
    broadcast use group_value;

}

/// The Gram matrix of a matrix of two rows holds the inner products of its rows.
pub proof fn lemma_gram_matrix(a: Mat2x3, m: Model)
    ensures
        ({
            let g = a.gram_matrix().value(m);
            let p = a.value(m);
            let (r, s) = (
                RVec3 { x: p.c0.x, y: p.c1.x, z: p.c2.x },
                RVec3 { x: p.c0.y, y: p.c1.y, z: p.c2.y },
            );
            &&& g.c00 == r.dot(r)
            &&& g.c01 == r.dot(s)
            &&& g.c11 == s.dot(s)
        }),
{
    broadcast use group_value;

}

/// The operations on symmetric matrices of order two, entry by entry. The largest entry
/// is the largest in size, whatever its sign.
pub proof fn lemma_sym2_ops(s: Sym2, k: Scalar, v: Vec2, a: Mat2x3, m: Model)
    ensures
        s.col0().value(m).x == s.value(m).c00,
        s.col0().value(m).y == s.value(m).c01,
        s.col1().value(m).x == s.value(m).c01,
        s.col1().value(m).y == s.value(m).c11,
        s.mul_vec2(&v).value(m) == s.value(m).apply(v.value(m)),
        s.scale(&k).value(m) == (RSym2 {
            c00: s.value(m).c00 * k.value(m),
            c01: s.value(m).c01 * k.value(m),
            c11: s.value(m).c11 * k.value(m),
        }),
        s.det2_strict().value(m) == s.value(m).c00 * s.value(m).c11 - s.value(m).c01
            * s.value(m).c01,
        s.mul_mat2x3(&a).value(m) == (RMat2x3 {
            c0: s.value(m).apply(a.value(m).c0),
            c1: s.value(m).apply(a.value(m).c1),
            c2: s.value(m).apply(a.value(m).c2),
        }),
        ({
            let most = s.max_abs().value(m);
            let p = s.value(m);
            &&& -most <= p.c00 <= most
            &&& -most <= p.c01 <= most
            &&& -most <= p.c11 <= most
            &&& most == p.c00 || most == -p.c00 || most == p.c01 || most == -p.c01 || most
                == p.c11 || most == -p.c11
        }),
{
    broadcast use group_value;

}

/// The operations on symmetric matrices of order three.
pub proof fn lemma_sym3_ops(s: Sym3, v: Vec3A, m: Model)
    ensures
        s.row0().value(m) == (RVec3 {
            x: s.value(m).c00,
            y: s.value(m).c01,
            z: s.value(m).c02,
        }),
        s.row1().value(m) == (RVec3 {
            x: s.value(m).c01,
            y: s.value(m).c11,
            z: s.value(m).c12,
        }),
        s.row2().value(m) == (RVec3 {
            x: s.value(m).c02,
            y: s.value(m).c12,
            z: s.value(m).c22,
        }),
        s.mul_vec3(&v).value(m) == s.value(m).apply(v.value(m)),
{
    broadcast use group_value;

}

/// The operations on quaternions, component by component.
pub proof fn lemma_quat_ops(a: Quat, b: Quat, s: Scalar, m: Model)
    ensures
        a.dot(&b).value(m) == a.value(m).dot(b.value(m)),
        a.scale(&s).value(m) == a.value(m).times(s.value(m)),
{
    broadcast use group_value;

}

/// The product of two quaternions.
pub open spec fn hamilton(a: RQuat, b: RQuat) -> RQuat {
    RQuat {
        w: a.w * b.w - a.x * b.x - a.y * b.y - a.z * b.z,
        x: a.w * b.x + a.x * b.w + a.y * b.z - a.z * b.y,
        y: a.w * b.y + a.y * b.w + a.z * b.x - a.x * b.z,
        z: a.w * b.z + a.z * b.w + a.x * b.y - a.y * b.x,
    }
}

/// A vector as a quaternion without a real part.
pub open spec fn pure(v: RVec3) -> RQuat {
    RQuat { w: 0real, x: v.x, y: v.y, z: v.z }
}

/// The matrix of a unit quaternion turns vectors as the quaternion does: the quaternion
/// times a vector is the turned vector times the quaternion.
pub proof fn lemma_quat_turns(q: Quat, v: RVec3, m: Model)
    requires
        q.value(m).dot(q.value(m)) == 1real,
    ensures
        hamilton(q.value(m), pure(v)) == hamilton(
            pure(q.to_mat3().value(m).apply(v)),
            q.value(m),
        ),
{
    let p = q.value(m);
    let r = q.to_mat3().value(m);
    assert(r == rotation(p)) by {
        broadcast use group_value;

    }
    let t = r.apply(v);
    turned(p.w, p.x, p.y, p.z, v.x, v.y, v.z);
    assert(p.w * 0real == 0real && p.x * 0real == 0real && p.y * 0real == 0real && p.z * 0real
        == 0real);
    assert(0real * p.w == 0real && 0real * p.x == 0real && 0real * p.y == 0real && 0real * p.z
        == 0real);
}

/// A normalized vector times its length is the vector again: it keeps its direction.
pub proof fn lemma_normalize_keeps_direction(v: Vec3A, len: real, m: Model)
    requires
        m.sound(),
        len > 0real,
        len * len == v.value(m).dot(v.value(m)),
    ensures
        v.length().value(m) == len,
        v.normalize().value(m).times(len) == v.value(m),
{
    broadcast use group_value;

    let a = v.value(m);
    let n = a.dot(a);
    assert(n > 0real) by (nonlinear_arith)
        requires
            n == len * len,
            len > 0real,
    ;
    same_root((m.sqrt)(n), len, n);
    let i = 1real / len;
    reciprocal(len);
    assert(v.length().value(m) == len);
    assert(v.normalize().value(m) == a.times(i));
    undone(a.x, i, len);
    undone(a.y, i, len);
    undone(a.z, i, len);
}

/// The same of a quaternion.
pub proof fn lemma_normalize_quat_keeps_direction(q: Quat, len: real, m: Model)
    requires
        m.sound(),
        len > 0real,
        len * len == q.value(m).dot(q.value(m)),
    ensures
        q.normalize().value(m).times(len) == q.value(m),
{
    broadcast use group_value;

    let b = q.value(m);
    let n = b.dot(b);
    assert(n > 0real) by (nonlinear_arith)
        requires
            n == len * len,
            len > 0real,
    ;
    same_root((m.sqrt)(n), len, n);
    let j = 1real / len;
    reciprocal(len);
    assert(q.normalize().value(m) == b.times(j));
    undone(b.w, j, len);
    undone(b.x, j, len);
    undone(b.y, j, len);
    undone(b.z, j, len);
}

proof fn undone(a: real, i: real, l: real)
    requires
        l * i == 1real,
    ensures
        (a * i) * l == a,
{
    assert((a * i) * l == a) by (nonlinear_arith)
        requires
            l * i == 1real,
    ;
}

} // verus!
