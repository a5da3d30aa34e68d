//! The backward kernels return gradients: each pulls a gradient back so that it
//! pairs with the rate of change of the inputs as the given gradient pairs with
//! the rate of change of the outputs.
use crate::cube::meaning::{RMat3, RQuat, RSym2, RVec3};
use crate::cube::{sigmoid, Mat3, Quat, Sym2, Vec3A};
use crate::expr::Scalar;
use crate::expr::algebra::{
    div_undone, mul_assoc, mul_comm, mul_eq, mul_front, mul_swap, product_not_zero, reciprocal,
    root_positive,
};
use crate::expr::semantics::{group_rate, group_value, pow10, Model};
use crate::kernels::algebra::{
    direction_pairing, half_twice, inverse_cube, inverse_pairing, logistic_pairing,
    negative_quotient, normalize_pairing, normalize_tangent, rotation_pairing,
};
use crate::kernels::project_backwards::{
    apply_normalize_vjp, conic_vjp, quat_to_mat_vjp, raw_opacity_vjp, view_direction,
    view_direction_vjp,
};
use vstd::prelude::*;

verus! {

/// How fast the rotation matrix of a quaternion changes.
pub open spec fn rotation_rate(q: RQuat, d: RQuat) -> RMat3 {
    RMat3 {
        c0: RVec3 {
            x: 0real - 2real * ((d.y * q.y + q.y * d.y) + (d.z * q.z + q.z * d.z)),
            y: 2real * ((d.x * q.y + q.x * d.y) + (d.w * q.z + q.w * d.z)),
            z: 2real * ((d.x * q.z + q.x * d.z) - (d.w * q.y + q.w * d.y)),
        },
        c1: RVec3 {
            x: 2real * ((d.x * q.y + q.x * d.y) - (d.w * q.z + q.w * d.z)),
            y: 0real - 2real * ((d.x * q.x + q.x * d.x) + (d.z * q.z + q.z * d.z)),
            z: 2real * ((d.y * q.z + q.y * d.z) + (d.w * q.x + q.w * d.x)),
        },
        c2: RVec3 {
            x: 2real * ((d.x * q.z + q.x * d.z) + (d.w * q.y + q.w * d.y)),
            y: 2real * ((d.y * q.z + q.y * d.z) - (d.w * q.x + q.w * d.x)),
            z: 0real - 2real * ((d.x * q.x + q.x * d.x) + (d.y * q.y + q.y * d.y)),
        },
    }
}

proof fn lemma_rotation_rate(q: Quat, m: Model)
    ensures
        q.to_mat3().rate(m) == rotation_rate(q.value(m), q.rate(m)),
{
    broadcast use {group_value, group_rate};

    let r = rotation_rate(q.value(m), q.rate(m));
    let t = q.to_mat3();
    assert(t.c0_x.rate(m) == r.c0.x);
    assert(t.c0_y.rate(m) == r.c0.y);
    assert(t.c0_z.rate(m) == r.c0.z);
    assert(t.c1_x.rate(m) == r.c1.x);
    assert(t.c1_y.rate(m) == r.c1.y);
    assert(t.c1_z.rate(m) == r.c1.z);
    assert(t.c2_x.rate(m) == r.c2.x);
    assert(t.c2_y.rate(m) == r.c2.y);
    assert(t.c2_z.rate(m) == r.c2.z);
}

/// [`quat_to_mat_vjp`] is the gradient of the rotation matrix of a quaternion.
pub proof fn lemma_quat_to_mat_vjp(q: Quat, v_r: Mat3, m: Model)
    ensures
        v_r.value(m).inner(q.to_mat3().rate(m)) == quat_to_mat_vjp(&q, &v_r).value(m).dot(
            q.rate(m),
        ),
{
    let p = q.value(m);
    let d = q.rate(m);
    let v = v_r.value(m);
    lemma_rotation_rate(q, m);
    assert(quat_to_mat_vjp(&q, &v_r).value(m) == (RQuat {
        w: 2real * (p.x * (v.c1.z - v.c2.y) + p.y * (v.c2.x - v.c0.z) + p.z * (v.c0.y - v.c1.x)),
        x: 2real * (-2real * p.x * (v.c1.y + v.c2.z) + p.y * (v.c0.y + v.c1.x)
            + p.z * (v.c0.z + v.c2.x) + p.w * (v.c1.z - v.c2.y)),
        y: 2real * (p.x * (v.c0.y + v.c1.x) - 2real * p.y * (v.c0.x + v.c2.z)
            + p.z * (v.c1.z + v.c2.y) + p.w * (v.c2.x - v.c0.z)),
        z: 2real * (p.x * (v.c0.z + v.c2.x) + p.y * (v.c1.z + v.c2.y)
            - 2real * p.z * (v.c0.x + v.c1.y) + p.w * (v.c0.y - v.c1.x)),
    })) by {
        broadcast use group_value;

    }
    rotation_pairing(
        p.w, p.x, p.y, p.z, d.w, d.x, d.y, d.z, v.c0.x, v.c0.y, v.c0.z, v.c1.x, v.c1.y, v.c1.z,
        v.c2.x, v.c2.y, v.c2.z,
    );
}

/// The rate of a reciprocal.
pub proof fn lemma_reciprocal_rate(e: real, d: real)
    requires
        e != 0real,
    ensures
        (0real * e - 1real * d) / (e * e) == -(d * ((1real / e) * (1real / e))),
{
    product_not_zero(e, e);
    reciprocal(e);
    div_undone(0real * e - 1real * d, e * e);
    negative_quotient((0real * e - 1real * d) / (e * e), e, d, 1real / e);
}

/// [`conic_vjp`] is the gradient of the conic, the inverse of the covariance, as
/// long as that has a positive determinant.
pub proof fn lemma_conic_vjp(cov: Sym2, v_conics: Vec3A, m: Model)
    requires
        cov.value(m).det() > 0real,
    ensures
        ({
            let v = v_conics.value(m);
            let p = cov.inverse().rate(m);
            v.x * p.c00 + v.y * p.c01 + v.z * p.c11 == conic_vjp(&cov, &v_conics).value(m).inner(
                cov.rate(m),
            )
        }),
{
    let c = cov.value(m);
    let d = cov.rate(m);
    let v = v_conics.value(m);
    let det = c.det();
    let i = 1real / det;
    let ddet = (d.c00 * c.c11 + c.c00 * d.c11) - (d.c01 * c.c01 + c.c01 * d.c01);
    let di = (0real * det - 1real * ddet) / (det * det);
    let p = cov.inverse().rate(m);
    assert(p == (RSym2 {
        c00: d.c11 * i + c.c11 * di,
        c01: (-d.c01) * i + (-c.c01) * di,
        c11: d.c00 * i + c.c00 * di,
    })) by {
        broadcast use {group_value, group_rate};

    }
    reciprocal(det);
    lemma_reciprocal_rate(det, ddet);
    let half = 5real * pow10(-1);
    assert(pow10(0) == 1real);
    assert(pow10(-1) == pow10(0) / 10real);
    let u = v.x;
    let w = v.z;
    let y = v.y * half;
    let n = cov.inverse();
    let nv = n.value(m);
    assert(nv == (RSym2 { c00: c.c11 * i, c01: (-c.c01) * i, c11: c.c00 * i })) by {
        broadcast use group_value;

    }
    let g = conic_vjp(&cov, &v_conics).value(m);
    assert(g == (RSym2 {
        c00: ((-nv.c00) * u + (-nv.c01) * y) * nv.c00 + ((-nv.c00) * y + (-nv.c01) * w) * nv.c01,
        c01: ((-nv.c01) * u + (-nv.c11) * y) * nv.c00 + ((-nv.c01) * y + (-nv.c11) * w) * nv.c01,
        c11: ((-nv.c01) * u + (-nv.c11) * y) * nv.c01 + ((-nv.c01) * y + (-nv.c11) * w) * nv.c11,
    })) by {
        broadcast use group_value;

    }
    inverse_pairing(c.c00, c.c01, c.c11, i, di, d.c00, d.c01, d.c11, u, y, w);
    half_twice(v.y, half, p.c01);
}

/// The rate of a square root.
pub(crate) proof fn root_rate(dl: real, l: real, i: real, dn: real)
    requires
        dl * (2real * l) == dn,
        l * i == 1real,
    ensures
        2real * dl == dn * i,
{
    assert(dl * (2real * l) == 2real * (dl * l)) by {
        mul_front(dl, 2real, l);
    }
    assert(dn * i == i * dn) by {
        mul_comm(dn, i);
    }
    assert(2real * (dl * l * i) == i * dn) by {
        mul_eq(i, dl * (2real * l), i, dn);
        mul_eq(i, dl * (2real * l), i, 2real * (dl * l));
        mul_front(i, 2real, dl * l);
        mul_comm(i, dl);
        mul_assoc(i, dl, l);
        mul_swap(dl, i, l);
    }
    assert(dl * l * i == dl) by {
        mul_eq(dl, l * i, dl, 1real);
        mul_assoc(dl, l, i);
    }
}

/// What [`apply_normalize_vjp`] denotes.
proof fn lemma_normalize_vjp_value(q: Quat, g: Quat, m: Model)
    ensures
        ({
            let a = q.value(m);
            let gv = g.value(m);
            let n = a.dot(a);
            let inv = 1real / ((m.sqrt)(n) * n);
            apply_normalize_vjp(&q, &g).value(m) == (RQuat {
                w: ((((a.w * a.w + a.x * a.x + a.y * a.y + a.z * a.z) - a.w * a.w) * gv.w
                    + ((-a.w) * a.x) * gv.x + ((-a.y) * a.w) * gv.y + ((-a.w) * a.z) * gv.z) * inv),
                x: ((((-a.w) * a.x) * gv.w + ((a.w * a.w + a.x * a.x + a.y * a.y + a.z * a.z)
                    - a.x * a.x) * gv.x + ((-a.x) * a.y) * gv.y + ((-a.x) * a.z) * gv.z) * inv),
                y: ((((-a.y) * a.w) * gv.w + ((-a.x) * a.y) * gv.x
                    + ((a.w * a.w + a.x * a.x + a.y * a.y + a.z * a.z) - a.y * a.y) * gv.y
                    + ((-a.y) * a.z) * gv.z) * inv),
                z: ((((-a.w) * a.z) * gv.w + ((-a.x) * a.z) * gv.x + ((-a.y) * a.z) * gv.y
                    + ((a.w * a.w + a.x * a.x + a.y * a.y + a.z * a.z) - a.z * a.z) * gv.z) * inv),
            })
        }),
{
    broadcast use group_value;

    let a = q.value(m);
    let gv = g.value(m);
    let n = a.dot(a);
    let inv = 1real / ((m.sqrt)(n) * n);
    let r = apply_normalize_vjp(&q, &g);
    assert(r.w.value(m) == ((((a.w * a.w + a.x * a.x + a.y * a.y + a.z * a.z) - a.w * a.w) * gv.w
        + ((-a.w) * a.x) * gv.x + ((-a.y) * a.w) * gv.y + ((-a.w) * a.z) * gv.z) * inv));
    assert(r.x.value(m) == ((((-a.w) * a.x) * gv.w
        + ((a.w * a.w + a.x * a.x + a.y * a.y + a.z * a.z) - a.x * a.x) * gv.x
        + ((-a.x) * a.y) * gv.y + ((-a.x) * a.z) * gv.z) * inv));
    assert(r.y.value(m) == ((((-a.y) * a.w) * gv.w + ((-a.x) * a.y) * gv.x
        + ((a.w * a.w + a.x * a.x + a.y * a.y + a.z * a.z) - a.y * a.y) * gv.y
        + ((-a.y) * a.z) * gv.z) * inv));
    assert(r.z.value(m) == ((((-a.w) * a.z) * gv.w + ((-a.x) * a.z) * gv.x + ((-a.y) * a.z) * gv.y
        + ((a.w * a.w + a.x * a.x + a.y * a.y + a.z * a.z) - a.z * a.z) * gv.z) * inv));
}

/// [`apply_normalize_vjp`] is the gradient of the normalized quaternion.
pub proof fn lemma_apply_normalize_vjp(q: Quat, g: Quat, m: Model)
    requires
        m.sound(),
        q.value(m).dot(q.value(m)) > 0real,
    ensures
        g.value(m).dot(q.normalize().rate(m))
            == apply_normalize_vjp(&q, &g).value(m).dot(q.rate(m)),
{
    let a = q.value(m);
    let d = q.rate(m);
    let gv = g.value(m);
    let n = a.dot(a);
    let l = (m.sqrt)(n);
    root_positive(l, n);
    let i = 1real / l;
    reciprocal(l);
    let dn = (d.w * a.w + a.w * d.w) + (d.x * a.x + a.x * d.x) + (d.y * a.y + a.y * d.y)
        + (d.z * a.z
        + a.z * d.z);
    let dl = dn / (2real * l);
    div_undone(dn, 2real * l);
    root_rate(dl, l, i, dn);
    let ri = (0real * l - 1real * dl) / (l * l);
    lemma_reciprocal_rate(l, dl);
    product_not_zero(l, n);
    let inv = 1real / (l * n);
    reciprocal(l * n);
    mul_comm(l * n, inv);
    inverse_cube(inv, l, i, n);
    assert(q.normalize().rate(m) == (RQuat {
        w: d.w * i + a.w * ri,
        x: d.x * i + a.x * ri,
        y: d.y * i + a.y * ri,
        z: d.z * i + a.z * ri,
    })) by {
        broadcast use {group_value, group_rate};

    }
    lemma_normalize_vjp_value(q, g, m);
    normalize_pairing(
        a.w, a.x, a.y, a.z, d.w, d.x, d.y, d.z, gv.w, gv.x, gv.y, gv.z, i, dl, ri, inv,
    );
}

/// Moving a quaternion along itself changes nothing, so the gradient has no part
/// in that direction.
pub proof fn lemma_normalize_vjp_is_tangent(q: Quat, g: Quat, m: Model)
    ensures
        q.value(m).dot(apply_normalize_vjp(&q, &g).value(m)) == 0real,
{
    let a = q.value(m);
    let gv = g.value(m);
    let n = a.dot(a);
    lemma_normalize_vjp_value(q, g, m);
    normalize_tangent(
        a.w, a.x, a.y, a.z, gv.w, gv.x, gv.y, gv.z, 1real / ((m.sqrt)(n) * n),
    );
}

/// [`view_direction_vjp`] is the gradient of the view direction, for a splat that
/// is not where the camera is.
pub proof fn lemma_view_direction_vjp(mean: Vec3A, camera_pos: Vec3A, v_v: Vec3A, m: Model)
    requires
        m.sound(),
        camera_pos.rate(m) == (RVec3 { x: 0real, y: 0real, z: 0real }),
        ({
            let u = mean.value(m).minus(camera_pos.value(m));
            u.dot(u) > 0real
        }),
    ensures
        ({
            let view = view_direction(&mean, &camera_pos);
            v_v.value(m).dot(view.0.rate(m)) == view_direction_vjp(&view, &v_v).value(m).dot(
                mean.rate(m),
            )
        }),
{
    let view = view_direction(&mean, &camera_pos);
    let u = mean.value(m).minus(camera_pos.value(m));
    let d = mean.rate(m);
    let g = v_v.value(m);
    let n = u.dot(u);
    let l = (m.sqrt)(n);
    root_positive(l, n);
    let i = 1real / l;
    reciprocal(l);
    let dn = (d.x * u.x + u.x * d.x) + (d.y * u.y + u.y * d.y) + (d.z * u.z + u.z * d.z);
    let dl = dn / (2real * l);
    div_undone(dn, 2real * l);
    root_rate(dl, l, i, dn);
    let ri = (0real * l - 1real * dl) / (l * l);
    lemma_reciprocal_rate(l, dl);
    assert(view.0.rate(m) == (RVec3 {
        x: d.x * i + u.x * ri,
        y: d.y * i + u.y * ri,
        z: d.z * i + u.z * ri,
    })) by {
        broadcast use {group_value, group_rate};

        let w = mean.sub(&camera_pos);
        assert(w.value(m) == u);
        assert(w.rate(m) == d);
        assert(w.length().value(m) == l);
        assert(w.length().rate(m) == dl);
    }
    let s = (u.x * i) * g.x + (u.y * i) * g.y + (u.z * i) * g.z;
    assert(view_direction_vjp(&view, &v_v).value(m) == (RVec3 {
        x: (g.x - (u.x * i) * s) * i,
        y: (g.y - (u.y * i) * s) * i,
        z: (g.z - (u.z * i) * s) * i,
    })) by {
        broadcast use group_value;

        assert(view.0.value(m) == u.times(i));
        assert(view.1.value(m) == l);
    }
    direction_pairing(u.x, u.y, u.z, d.x, d.y, d.z, g.x, g.y, g.z, i, dl, ri);
}

/// [`raw_opacity_vjp`] is the gradient of the opacity, of which `filter_comp` is
/// kept.
pub proof fn lemma_raw_opacity_vjp(raw_opac: Scalar, filter_comp: Scalar, v_alpha: Scalar, m: Model)
    requires
        m.sound(),
    ensures
        (filter_comp.value(m) * v_alpha.value(m)) * sigmoid(&raw_opac).rate(m) == raw_opacity_vjp(
            &raw_opac,
            &filter_comp,
            &v_alpha,
        ).value(m) * raw_opac.rate(m),
{
    let x = raw_opac.value(m);
    let d = raw_opac.rate(m);
    let e = (m.exp)(-x);
    let t = 1real + e;
    assert(t > 0real);
    let i = 1real / t;
    reciprocal(t);
    let re = e * (-d);
    assert(sigmoid(&raw_opac).value(m) == i) by {
        broadcast use group_value;

    }
    assert(sigmoid(&raw_opac).rate(m) == (0real * t - 1real * re) / (t * t)) by {
        broadcast use {group_value, group_rate};

    }
    lemma_reciprocal_rate(t, re);
    let (f, a) = (filter_comp.value(m), v_alpha.value(m));
    assert(raw_opacity_vjp(&raw_opac, &filter_comp, &v_alpha).value(m) == f * a * i * (1real - i))
        by {
        broadcast use group_value;

    }
    logistic_pairing(f, a, e, i, d, re);
}

} // verus!
