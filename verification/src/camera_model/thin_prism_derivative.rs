//! The Jacobian of the thin-prism fisheye model is the derivative of its
//! projection, and its backward function returns gradients.
use crate::camera_model::derivative::{
    camera_is_fixed, entry_grads, image_second, lemma_covariance_pairing, lemma_jacobian_rate,
    lemma_kb4_jacobian, lemma_mean_grad, lemma_vjp_value, mean_grad, off_axis, polar,
};
use crate::camera_model::kannala_brandt_4::{
    calculate_project_jacobian_kb4, calculate_projection_vjp_kb4, project_kb4,
};
use crate::camera_model::prism_algebra::{
    displacement_u, displacement_u_rate, displacement_v, displacement_v_rate, pairing_of_sum,
    shift_depth_rate, shift_pairing, shift_rate, shift_slope_rate, slope_rates,
};
use crate::camera_model::thin_prism_fisheye::{
    calculate_project_jacobian_tpf, calculate_projection_vjp_tpf, project_tpf, thin_prism_polys,
};
use crate::camera_model::{PinholeParams, ProjectUniforms, ThinPrismFisheyeParams};
use crate::cube::meaning::{RVec2, RVec3};
use crate::cube::{Mat2x3, Sym2, Sym3, Vec2, Vec3A};
use crate::expr::algebra::{dist_add, div_is_mul};
use crate::expr::semantics::{group_rate, group_value, Model};
use crate::expr::{whole, Scalar};
use crate::kernels::gradients::lemma_reciprocal_rate;
use crate::kernels::unscented::image_rate as pair_rate;
use vstd::prelude::*;

verus! {

/// The camera does not change.
pub open spec fn prism_is_fixed(
    pinhole_params: PinholeParams,
    max_theta: Scalar,
    params: ThinPrismFisheyeParams<Scalar>,
    m: Model,
) -> bool {
    &&& camera_is_fixed(pinhole_params, max_theta, params.kb4, m)
    &&& params.p1.constant(m)
    &&& params.p2.constant(m)
    &&& params.sx1.constant(m)
    &&& params.sy1.constant(m)
}

/// The thin-prism model moves the image of the Kannala-Brandt model, in units of
/// the focal lengths, by the tangential and the thin-prism term of `(x / z, y / z)`.
pub proof fn lemma_tpf_displacement(
    point: Vec3A,
    pinhole_params: PinholeParams,
    max_theta: Scalar,
    params: ThinPrismFisheyeParams<Scalar>,
    m: Model,
)
    requires
        point.value(m).z != 0real,
    ensures
        ({
            let p = point.value(m);
            let (u, v) = (p.x / p.z, p.y / p.z);
            let r2 = u * u + v * v;
            let (p1, p2) = (params.p1.value(m), params.p2.value(m));
            let (sx1, sy1) = (params.sx1.value(m), params.sy1.value(m));
            let kb4 = project_kb4(&point, &pinhole_params, &max_theta, &params.kb4);
            let image = project_tpf(&point, &pinhole_params, &max_theta, &params);
            &&& image.0.value(m) == kb4.0.value(m) + pinhole_params.fx.value(m) * (2real * p1 * (u
                * v) + p2 * (r2 + 2real * (u * u)) + sx1 * r2)
            &&& image.1.value(m) == kb4.1.value(m) + pinhole_params.fy.value(m) * (2real * p2 * (u
                * v) + p1 * (r2 + 2real * (v * v)) + sy1 * r2)
        }),
{
    let p = point.value(m);
    let q = 1real / p.z;
    div_is_mul(p.x, p.z);
    div_is_mul(p.y, p.z);
    let (p1, p2) = (params.p1.value(m), params.p2.value(m));
    displacement_u(pinhole_params.fx.value(m), p1, p2, params.sx1.value(m), p.x, p.y, q);
    displacement_v(pinhole_params.fy.value(m), p1, p2, params.sy1.value(m), p.x, p.y, q);
    broadcast use group_value;

}

/// The displacement along one axis with its derivatives: its value before it is
/// divided by the squared depth, its slopes and its second derivatives.
pub struct Shift {
    pub n: real,
    pub nx: real,
    pub ny: real,
    pub n00: real,
    pub n01: real,
    pub n11: real,
}

pub open spec fn shift_u(params: ThinPrismFisheyeParams<Scalar>, p: RVec3, m: Model) -> Shift {
    let (a, b, s) = (params.p1.value(m), params.p2.value(m), params.sx1.value(m));
    let (x, y) = (p.x, p.y);
    Shift {
        n: 2real * a * (x * y) + b * (3real * (x * x) + y * y) + s * (x * x + y * y),
        nx: 2real * (a * y + (3real * b + s) * x),
        ny: 2real * (a * x + (b + s) * y),
        n00: 6real * b + 2real * s,
        n01: 2real * a,
        n11: 2real * b + 2real * s,
    }
}

pub open spec fn shift_v(params: ThinPrismFisheyeParams<Scalar>, p: RVec3, m: Model) -> Shift {
    let (a, b, s) = (params.p1.value(m), params.p2.value(m), params.sy1.value(m));
    let (x, y) = (p.x, p.y);
    Shift {
        n: 2real * b * (x * y) + a * (x * x + 3real * (y * y)) + s * (x * x + y * y),
        nx: 2real * (b * y + (a + s) * x),
        ny: 2real * (b * x + (3real * a + s) * y),
        n00: 2real * a + 2real * s,
        n01: 2real * b,
        n11: 6real * a + 2real * s,
    }
}

/// The polynomials of the displacement.
proof fn lemma_poly_values(point: Vec3A, params: ThinPrismFisheyeParams<Scalar>, m: Model)
    ensures
        ({
            let n = thin_prism_polys(&point.x, &point.y, &params);
            let u = shift_u(params, point.value(m), m);
            let v = shift_v(params, point.value(m), m);
            &&& n.nu.value(m) == u.n
            &&& n.dnu_dx.value(m) == u.nx
            &&& n.dnu_dy.value(m) == u.ny
            &&& n.nv.value(m) == v.n
            &&& n.dnv_dx.value(m) == v.nx
            &&& n.dnv_dy.value(m) == v.ny
        }),
{
    broadcast use group_value;

}

/// The polynomials of the displacement, and how fast they change.
proof fn lemma_polys(point: Vec3A, params: ThinPrismFisheyeParams<Scalar>, m: Model)
    requires
        params.p1.constant(m),
        params.p2.constant(m),
        params.sx1.constant(m),
        params.sy1.constant(m),
    ensures
        ({
            let n = thin_prism_polys(&point.x, &point.y, &params);
            let p = point.value(m);
            let d = point.rate(m);
            let u = shift_u(params, p, m);
            let v = shift_v(params, p, m);
            &&& n.nu.value(m) == u.n
            &&& n.nu.rate(m) == u.nx * d.x + u.ny * d.y
            &&& n.dnu_dx.value(m) == u.nx
            &&& n.dnu_dx.rate(m) == u.n00 * d.x + u.n01 * d.y
            &&& n.dnu_dy.value(m) == u.ny
            &&& n.dnu_dy.rate(m) == u.n01 * d.x + u.n11 * d.y
            &&& n.nv.value(m) == v.n
            &&& n.nv.rate(m) == v.nx * d.x + v.ny * d.y
            &&& n.dnv_dx.value(m) == v.nx
            &&& n.dnv_dx.rate(m) == v.n00 * d.x + v.n01 * d.y
            &&& n.dnv_dy.value(m) == v.ny
            &&& n.dnv_dy.rate(m) == v.n01 * d.x + v.n11 * d.y
        }),
{
    let p = point.value(m);
    let d = point.rate(m);
    let (a, b) = (params.p1.value(m), params.p2.value(m));
    let (sx, sy) = (params.sx1.value(m), params.sy1.value(m));
    displacement_u_rate(a, b, sx, p.x, p.y, d.x, d.y);
    displacement_v_rate(a, b, sy, p.x, p.y, d.x, d.y);
    slope_rates(a, b, sx, p.x, p.y, d.x, d.y);
    slope_rates(a, b, sy, p.x, p.y, d.x, d.y);
    broadcast use {group_value, group_rate};

    let n = thin_prism_polys(&point.x, &point.y, &params);
    let x2r = d.x * p.x + p.x * d.x;
    let y2r = d.y * p.y + p.y * d.y;
    let xyr = d.x * p.y + p.x * d.y;
    let two_p1 = whole(2) * params.p1;
    let two_p2 = whole(2) * params.p2;
    let xs = whole(3) * params.p2 + params.sx1;
    let ys = whole(3) * params.p1 + params.sy1;
    let (xt, yt) = (params.p2 + params.sx1, params.p1 + params.sy1);
    assert(two_p1.rate(m) == 0real && two_p2.rate(m) == 0real);
    assert(xs.rate(m) == 0real && ys.rate(m) == 0real);
    let x2 = point.x * point.x;
    let y2 = point.y * point.y;
    let xy = point.x * point.y;
    assert(x2.rate(m) == x2r && y2.rate(m) == y2r && xy.rate(m) == xyr);
    assert((two_p1 * xy).rate(m) == 2real * a * xyr);
    assert((two_p2 * xy).rate(m) == 2real * b * xyr);
    assert((whole(3) * x2 + y2).rate(m) == 3real * x2r + y2r);
    assert((x2 + whole(3) * y2).rate(m) == x2r + 3real * y2r);
    assert((xs * point.x).rate(m) == (3real * b + sx) * d.x);
    assert((ys * point.y).rate(m) == (3real * a + sy) * d.y);
    assert((xt * point.y).rate(m) == (b + sx) * d.y);
    assert((yt * point.x).rate(m) == (a + sy) * d.x);
    assert(n.nu.rate(m) == 2real * a * xyr + b * (3real * x2r + y2r) + sx * (x2r + y2r));
    assert(n.nv.rate(m) == 2real * b * xyr + a * (x2r + 3real * y2r) + sy * (x2r + y2r));
    assert(n.dnu_dx.rate(m) == 2real * (a * d.y + (3real * b + sx) * d.x));
    assert(n.dnu_dy.rate(m) == 2real * (a * d.x + (b + sx) * d.y));
    assert(n.dnv_dx.rate(m) == 2real * (b * d.y + (a + sy) * d.x));
    assert(n.dnv_dy.rate(m) == 2real * (b * d.x + (3real * a + sy) * d.y));
}

/// The derivatives of the displacement along one axis, `q` being the reciprocal of
/// the depth.
pub open spec fn shift_row(f: real, s: Shift, q: real) -> RVec3 {
    RVec3 {
        x: f * s.nx * (q * q),
        y: f * s.ny * (q * q),
        z: -2real * f * s.n * ((q * q) * q),
    }
}

/// The second derivatives of the displacement along one axis, before the focal
/// length.
pub struct ShiftSecond {
    pub h00: real,
    pub h01: real,
    pub h02: real,
    pub h11: real,
    pub h12: real,
    pub h22: real,
}

pub open spec fn shift_second(s: Shift, q: real) -> ShiftSecond {
    let q3 = (q * q) * q;
    ShiftSecond {
        h00: s.n00 * (q * q),
        h01: s.n01 * (q * q),
        h02: -2real * s.nx * q3,
        h11: s.n11 * (q * q),
        h12: -2real * s.ny * q3,
        h22: 6real * s.n * ((q * q) * (q * q)),
    }
}

/// The rates of the displacement along one axis, and of its derivatives.
pub(crate) proof fn lemma_shift_rates(f: real, s: Shift, q: real, dq: real, d: RVec3)
    requires
        dq == -(d.z * (q * q)),
    ensures
        ({
            let r = shift_row(f, s, q);
            let h = shift_second(s, q);
            let q2r = dq * q + q * dq;
            let q3r = q2r * q + (q * q) * dq;
            let nr = s.nx * d.x + s.ny * d.y;
            &&& (f * nr) * (q * q) + (f * s.n) * q2r == r.x * d.x + r.y * d.y + r.z * d.z
            &&& (f * (s.n00 * d.x + s.n01 * d.y)) * (q * q) + (f * s.nx) * q2r == (f * h.h00) * d.x
                + (f * h.h01) * d.y + (f * h.h02) * d.z
            &&& (f * (s.n01 * d.x + s.n11 * d.y)) * (q * q) + (f * s.ny) * q2r == (f * h.h01) * d.x
                + (f * h.h11) * d.y + (f * h.h12) * d.z
            &&& (-2real * f * nr) * ((q * q) * q) + (-2real * f * s.n) * q3r == (f * h.h02) * d.x
                + (f * h.h12) * d.y + (f * h.h22) * d.z
        }),
{
    let nr = s.nx * d.x + s.ny * d.y;
    shift_rate(f, s.n, nr, s.nx, s.ny, q, dq, d.x, d.y, d.z);
    shift_slope_rate(
        f,
        s.nx,
        s.n00 * d.x + s.n01 * d.y,
        s.n00,
        s.n01,
        q,
        dq,
        d.x,
        d.y,
        d.z,
    );
    shift_slope_rate(
        f,
        s.ny,
        s.n01 * d.x + s.n11 * d.y,
        s.n01,
        s.n11,
        q,
        dq,
        d.x,
        d.y,
        d.z,
    );
    shift_depth_rate(f, s.n, nr, s.nx, s.ny, q, dq, d.x, d.y, d.z);
}

/// What the Jacobian denotes: that of the Kannala-Brandt part, plus the derivatives
/// of the displacement.
pub proof fn lemma_tpf_jacobian_value(
    point: Vec3A,
    pinhole_params: PinholeParams,
    max_theta: Scalar,
    params: ThinPrismFisheyeParams<Scalar>,
    m: Model,
)
    ensures
        ({
            let p = point.value(m);
            let q = 1real / p.z;
            let ru = shift_row(pinhole_params.fx.value(m), shift_u(params, p, m), q);
            let rv = shift_row(pinhole_params.fy.value(m), shift_v(params, p, m), q);
            let k = calculate_project_jacobian_kb4(
                &point,
                &pinhole_params,
                &max_theta,
                &params.kb4,
            ).value(m);
            let j = calculate_project_jacobian_tpf(
                &point,
                &pinhole_params,
                &max_theta,
                &params,
            ).value(m);
            &&& j.c0 == (RVec2 { x: k.c0.x + ru.x, y: k.c0.y + rv.x })
            &&& j.c1 == (RVec2 { x: k.c1.x + ru.y, y: k.c1.y + rv.y })
            &&& j.c2 == (RVec2 { x: k.c2.x + ru.z, y: k.c2.y + rv.z })
        }),
{
    lemma_poly_values(point, params, m);
    broadcast use group_value;

    let p = point.value(m);
    let q = 1real / p.z;
    let n = thin_prism_polys(&point.x, &point.y, &params);
    let inv_z = whole(1) / point.z;
    let inv_z2 = inv_z * inv_z;
    let inv_z3 = inv_z2 * inv_z;
    let (fx, fy) = (pinhole_params.fx, pinhole_params.fy);
    assert(inv_z2.value(m) == q * q && inv_z3.value(m) == (q * q) * q);
    let ru = shift_row(fx.value(m), shift_u(params, p, m), q);
    let rv = shift_row(fy.value(m), shift_v(params, p, m), q);
    assert((fx * n.dnu_dx * inv_z2).value(m) == ru.x);
    assert((fx * n.dnu_dy * inv_z2).value(m) == ru.y);
    assert((whole((-2) as i64) * fx * n.nu * inv_z3).value(m) == ru.z);
    assert((fy * n.dnv_dx * inv_z2).value(m) == rv.x);
    assert((fy * n.dnv_dy * inv_z2).value(m) == rv.y);
    assert((whole((-2) as i64) * fy * n.nv * inv_z3).value(m) == rv.z);
}

/// The Jacobian is that of the Kannala-Brandt part plus the derivatives of the
/// displacement, and so is its rate.
proof fn lemma_tpf_parts(
    point: Vec3A,
    pinhole_params: PinholeParams,
    max_theta: Scalar,
    params: ThinPrismFisheyeParams<Scalar>,
    m: Model,
)
    requires
        prism_is_fixed(pinhole_params, max_theta, params, m),
        point.value(m).z != 0real,
    ensures
        ({
            let p = point.value(m);
            let d = point.rate(m);
            let q = 1real / p.z;
            let (fx, fy) = (pinhole_params.fx.value(m), pinhole_params.fy.value(m));
            let u = shift_u(params, p, m);
            let v = shift_v(params, p, m);
            let ru = shift_row(fx, u, q);
            let rv = shift_row(fy, v, q);
            let hu = shift_second(u, q);
            let hv = shift_second(v, q);
            let k = calculate_project_jacobian_kb4(
                &point,
                &pinhole_params,
                &max_theta,
                &params.kb4,
            );
            let j = calculate_project_jacobian_tpf(&point, &pinhole_params, &max_theta, &params);
            let ki = project_kb4(&point, &pinhole_params, &max_theta, &params.kb4);
            let image = project_tpf(&point, &pinhole_params, &max_theta, &params);
            let (jv, kv) = (j.value(m), k.value(m));
            let (jr, kr) = (j.rate(m), k.rate(m));
            &&& image.0.rate(m) == ki.0.rate(m) + (ru.x * d.x + ru.y * d.y + ru.z * d.z)
            &&& image.1.rate(m) == ki.1.rate(m) + (rv.x * d.x + rv.y * d.y + rv.z * d.z)
            &&& jv.c0 == (RVec2 { x: kv.c0.x + ru.x, y: kv.c0.y + rv.x })
            &&& jv.c1 == (RVec2 { x: kv.c1.x + ru.y, y: kv.c1.y + rv.y })
            &&& jv.c2 == (RVec2 { x: kv.c2.x + ru.z, y: kv.c2.y + rv.z })
            &&& jr.c0.x == kr.c0.x + ((fx * hu.h00) * d.x + (fx * hu.h01) * d.y + (fx * hu.h02)
                * d.z)
            &&& jr.c1.x == kr.c1.x + ((fx * hu.h01) * d.x + (fx * hu.h11) * d.y + (fx * hu.h12)
                * d.z)
            &&& jr.c2.x == kr.c2.x + ((fx * hu.h02) * d.x + (fx * hu.h12) * d.y + (fx * hu.h22)
                * d.z)
            &&& jr.c0.y == kr.c0.y + ((fy * hv.h00) * d.x + (fy * hv.h01) * d.y + (fy * hv.h02)
                * d.z)
            &&& jr.c1.y == kr.c1.y + ((fy * hv.h01) * d.x + (fy * hv.h11) * d.y + (fy * hv.h12)
                * d.z)
            &&& jr.c2.y == kr.c2.y + ((fy * hv.h02) * d.x + (fy * hv.h12) * d.y + (fy * hv.h22)
                * d.z)
        }),
{
    let p = point.value(m);
    let d = point.rate(m);
    let q = 1real / p.z;
    let dq = (0real * p.z - 1real * d.z) / (p.z * p.z);
    let (fx, fy) = (pinhole_params.fx.value(m), pinhole_params.fy.value(m));
    let u = shift_u(params, p, m);
    let v = shift_v(params, p, m);
    lemma_reciprocal_rate(p.z, d.z);
    lemma_polys(point, params, m);
    lemma_shift_rates(fx, u, q, dq, d);
    lemma_shift_rates(fy, v, q, dq, d);
    broadcast use {group_value, group_rate};

    let n = thin_prism_polys(&point.x, &point.y, &params);
    let inv_z = whole(1) / point.z;
    let inv_z2 = inv_z * inv_z;
    let inv_z3 = inv_z2 * inv_z;
    let q2r = dq * q + q * dq;
    let q3r = q2r * q + (q * q) * dq;
    assert(inv_z.value(m) == q && inv_z.rate(m) == dq);
    assert(inv_z2.value(m) == q * q && inv_z2.rate(m) == q2r);
    assert(inv_z3.value(m) == (q * q) * q && inv_z3.rate(m) == q3r);
    let su = pinhole_params.fx * n.nu * inv_z2;
    assert(su.rate(m) == (fx * (u.nx * d.x + u.ny * d.y)) * (q * q) + (fx * u.n) * q2r);
    let au = pinhole_params.fx * n.dnu_dx * inv_z2;
    let bu = pinhole_params.fx * n.dnu_dy * inv_z2;
    let cu = whole((-2) as i64) * pinhole_params.fx * n.nu * inv_z3;
    assert(au.value(m) == shift_row(fx, u, q).x);
    assert(bu.value(m) == shift_row(fx, u, q).y);
    assert(cu.value(m) == shift_row(fx, u, q).z);
    assert(au.rate(m) == (fx * (u.n00 * d.x + u.n01 * d.y)) * (q * q) + (fx * u.nx) * q2r);
    assert(bu.rate(m) == (fx * (u.n01 * d.x + u.n11 * d.y)) * (q * q) + (fx * u.ny) * q2r);
    assert(cu.rate(m) == (-2real * fx * (u.nx * d.x + u.ny * d.y)) * ((q * q) * q) + (-2real
        * fx * u.n) * q3r);
    let sv = pinhole_params.fy * n.nv * inv_z2;
    assert(sv.rate(m) == (fy * (v.nx * d.x + v.ny * d.y)) * (q * q) + (fy * v.n) * q2r);
    let av = pinhole_params.fy * n.dnv_dx * inv_z2;
    let bv = pinhole_params.fy * n.dnv_dy * inv_z2;
    let cv = whole((-2) as i64) * pinhole_params.fy * n.nv * inv_z3;
    assert(av.value(m) == shift_row(fy, v, q).x);
    assert(bv.value(m) == shift_row(fy, v, q).y);
    assert(cv.value(m) == shift_row(fy, v, q).z);
    assert(av.rate(m) == (fy * (v.n00 * d.x + v.n01 * d.y)) * (q * q) + (fy * v.nx) * q2r);
    assert(bv.rate(m) == (fy * (v.n01 * d.x + v.n11 * d.y)) * (q * q) + (fy * v.ny) * q2r);
    assert(cv.rate(m) == (-2real * fy * (v.nx * d.x + v.ny * d.y)) * ((q * q) * q) + (-2real
        * fy * v.n) * q3r);
}

/// Off the axis and away from the camera's plane, [`calculate_project_jacobian_tpf`]
/// is the derivative of [`project_tpf`].
pub proof fn lemma_tpf_jacobian(
    point: Vec3A,
    pinhole_params: PinholeParams,
    max_theta: Scalar,
    params: ThinPrismFisheyeParams<Scalar>,
    m: Model,
)
    requires
        m.sound(),
        prism_is_fixed(pinhole_params, max_theta, params, m),
        off_axis(point.value(m), m),
        point.value(m).z != 0real,
    ensures
        pair_rate(project_tpf(&point, &pinhole_params, &max_theta, &params), m)
            == calculate_project_jacobian_tpf(
            &point,
            &pinhole_params,
            &max_theta,
            &params,
        ).value(m).apply(point.rate(m)),
{
    let p = point.value(m);
    let d = point.rate(m);
    let q = 1real / p.z;
    let ru = shift_row(pinhole_params.fx.value(m), shift_u(params, p, m), q);
    let rv = shift_row(pinhole_params.fy.value(m), shift_v(params, p, m), q);
    let k = calculate_project_jacobian_kb4(
        &point,
        &pinhole_params,
        &max_theta,
        &params.kb4,
    ).value(m);
    lemma_kb4_jacobian(point, pinhole_params, max_theta, params.kb4, m);
    lemma_tpf_parts(point, pinhole_params, max_theta, params, m);
    dist_add(k.c0.x, ru.x, d.x);
    dist_add(k.c1.x, ru.y, d.y);
    dist_add(k.c2.x, ru.z, d.z);
    dist_add(k.c0.y, rv.x, d.x);
    dist_add(k.c1.y, rv.y, d.y);
    dist_add(k.c2.y, rv.z, d.z);
}

/// The part of the gradient that comes from the displacement.
pub open spec fn shift_grad(
    fx: real,
    fy: real,
    wu: RVec3,
    wv: RVec3,
    hu: ShiftSecond,
    hv: ShiftSecond,
) -> RVec3 {
    RVec3 {
        x: fx * (wu.x * hu.h00 + wu.y * hu.h01 + wu.z * hu.h02) + fy * (wv.x * hv.h00 + wv.y
            * hv.h01 + wv.z * hv.h02),
        y: fx * (wu.x * hu.h01 + wu.y * hu.h11 + wu.z * hu.h12) + fy * (wv.x * hv.h01 + wv.y
            * hv.h11 + wv.z * hv.h12),
        z: fx * (wu.x * hu.h02 + wu.y * hu.h12 + wu.z * hu.h22) + fy * (wv.x * hv.h02 + wv.y
            * hv.h12 + wv.z * hv.h22),
    }
}

/// What [`calculate_projection_vjp_tpf`] adds to the Kannala-Brandt part.
pub(crate) proof fn lemma_tpf_vjp_value(
    jac: Mat2x3,
    mean_c: Vec3A,
    cov_c: Sym3,
    u: ProjectUniforms,
    v_cov2d: Sym2,
    v_mean2d: Vec2,
    params: ThinPrismFisheyeParams<Scalar>,
    m: Model,
)
    ensures
        ({
            let p = mean_c.value(m);
            let q = 1real / p.z;
            let (wu, wv) = entry_grads(jac.value(m), cov_c.value(m), v_cov2d.value(m));
            calculate_projection_vjp_tpf(
                &jac,
                &mean_c,
                &cov_c,
                &u,
                &v_cov2d,
                &v_mean2d,
                &params,
            ).value(m) == calculate_projection_vjp_kb4(
                &jac,
                &mean_c,
                &cov_c,
                &u,
                &v_cov2d,
                &v_mean2d,
                &params.kb4,
            ).value(m).plus(
                shift_grad(
                    u.pinhole_params.fx.value(m),
                    u.pinhole_params.fy.value(m),
                    wu,
                    wv,
                    shift_second(shift_u(params, p, m), q),
                    shift_second(shift_v(params, p, m), q),
                ),
            )
        }),
{
    let p = mean_c.value(m);
    let q = 1real / p.z;
    let su = shift_u(params, p, m);
    let sv = shift_v(params, p, m);
    let hu = shift_second(su, q);
    let hv = shift_second(sv, q);
    let (wu, wv) = entry_grads(jac.value(m), cov_c.value(m), v_cov2d.value(m));
    lemma_poly_values(mean_c, params, m);
    broadcast use group_value;

    let n = thin_prism_polys(&mean_c.x, &mean_c.y, &params);
    let inv_z = whole(1) / mean_c.z;
    let inv_z2 = inv_z * inv_z;
    let inv_z3 = inv_z2 * inv_z;
    let inv_z4 = inv_z2 * inv_z2;
    assert(inv_z2.value(m) == q * q);
    let two = whole(2);
    let six = whole(6);
    let neg = whole((-2) as i64);
    let h_u_00 = (six * params.p2 + two * params.sx1) * inv_z2;
    let h_u_01 = two * params.p1 * inv_z2;
    let h_u_11 = (two * params.p2 + two * params.sx1) * inv_z2;
    let h_u_02 = neg * n.dnu_dx * inv_z3;
    let h_u_12 = neg * n.dnu_dy * inv_z3;
    let h_u_22 = six * n.nu * inv_z4;
    let h_v_00 = (two * params.p1 + two * params.sy1) * inv_z2;
    let h_v_01 = two * params.p2 * inv_z2;
    let h_v_11 = (six * params.p1 + two * params.sy1) * inv_z2;
    let h_v_02 = neg * n.dnv_dx * inv_z3;
    let h_v_12 = neg * n.dnv_dy * inv_z3;
    let h_v_22 = six * n.nv * inv_z4;
    assert(h_u_00.value(m) == hu.h00 && h_u_01.value(m) == hu.h01 && h_u_11.value(m) == hu.h11);
    assert(h_u_02.value(m) == hu.h02 && h_u_12.value(m) == hu.h12 && h_u_22.value(m) == hu.h22);
    assert(h_v_00.value(m) == hv.h00 && h_v_01.value(m) == hv.h01 && h_v_11.value(m) == hv.h11);
    assert(h_v_02.value(m) == hv.h02 && h_v_12.value(m) == hv.h12 && h_v_22.value(m) == hv.h22);
    let tmp = v_cov2d.mul_mat2x3(&jac);
    let tu = tmp.row0();
    let tv = tmp.row1();
    let vj_u0 = two * tu.dot(&cov_c.row0());
    let vj_u1 = two * tu.dot(&cov_c.row1());
    let vj_u2 = two * tu.dot(&cov_c.row2());
    let vj_v0 = two * tv.dot(&cov_c.row0());
    let vj_v1 = two * tv.dot(&cov_c.row1());
    let vj_v2 = two * tv.dot(&cov_c.row2());
    assert(vj_u0.value(m) == wu.x && vj_u1.value(m) == wu.y && vj_u2.value(m) == wu.z);
    assert(vj_v0.value(m) == wv.x && vj_v1.value(m) == wv.y && vj_v2.value(m) == wv.z);
    let (fx, fy) = (u.pinhole_params.fx, u.pinhole_params.fy);
    let g = shift_grad(fx.value(m), fy.value(m), wu, wv, hu, hv);
    let v_mx = fx * (vj_u0 * h_u_00 + vj_u1 * h_u_01 + vj_u2 * h_u_02) + fy * (vj_v0 * h_v_00
        + vj_v1 * h_v_01 + vj_v2 * h_v_02);
    let v_my = fx * (vj_u0 * h_u_01 + vj_u1 * h_u_11 + vj_u2 * h_u_12) + fy * (vj_v0 * h_v_01
        + vj_v1 * h_v_11 + vj_v2 * h_v_12);
    let v_mz = fx * (vj_u0 * h_u_02 + vj_u1 * h_u_12 + vj_u2 * h_u_22) + fy * (vj_v0 * h_v_02
        + vj_v1 * h_v_12 + vj_v2 * h_v_22);
    assert(v_mx.value(m) == g.x);
    assert(v_my.value(m) == g.y);
    assert(v_mz.value(m) == g.z);
}

/// Off the axis and away from the camera's plane, [`calculate_projection_vjp_tpf`]
/// returns the gradient with respect to the mean: of its image, and of the
/// projected covariance, which the mean reaches through the Jacobian.
pub proof fn lemma_tpf_vjp(
    mean_c: Vec3A,
    cov_c: Sym3,
    u: ProjectUniforms,
    v_cov2d: Sym2,
    v_mean2d: Vec2,
    params: ThinPrismFisheyeParams<Scalar>,
    m: Model,
)
    requires
        m.sound(),
        prism_is_fixed(u.pinhole_params, u.half_max_render_fov, params, m),
        off_axis(mean_c.value(m), m),
        mean_c.value(m).z != 0real,
    ensures
        ({
            let jac = calculate_project_jacobian_tpf(
                &mean_c,
                &u.pinhole_params,
                &u.half_max_render_fov,
                &params,
            );
            let image = project_tpf(&mean_c, &u.pinhole_params, &u.half_max_render_fov, &params);
            calculate_projection_vjp_tpf(
                &jac,
                &mean_c,
                &cov_c,
                &u,
                &v_cov2d,
                &v_mean2d,
                &params,
            ).value(m).dot(mean_c.rate(m)) == v_mean2d.value(m).dot(pair_rate(image, m))
                + v_cov2d.value(m).inner(
                jac.value(m).sandwich_rate(jac.rate(m), cov_c.value(m)),
            )
        }),
{
    let pin = u.pinhole_params;
    let fov = u.half_max_render_fov;
    let jac = calculate_project_jacobian_tpf(&mean_c, &pin, &fov, &params);
    let kac = calculate_project_jacobian_kb4(&mean_c, &pin, &fov, &params.kb4);
    let p = mean_c.value(m);
    let d = mean_c.rate(m);
    let q = 1real / p.z;
    let (fx, fy) = (pin.fx.value(m), pin.fy.value(m));
    let hu = shift_second(shift_u(params, p, m), q);
    let hv = shift_second(shift_v(params, p, m), q);
    let e = image_second(
        p,
        polar(p, d, m),
        fx,
        fy,
        params.kb4.k1.value(m),
        params.kb4.k2.value(m),
        params.kb4.k3.value(m),
        params.kb4.k4.value(m),
        fov.value(m),
        m,
    );
    let j = jac.value(m);
    let jr = jac.rate(m);
    let kr = kac.rate(m);
    let n = v_mean2d.value(m);
    let (wu, wv) = entry_grads(j, cov_c.value(m), v_cov2d.value(m));
    lemma_tpf_jacobian(mean_c, pin, fov, params, m);
    lemma_tpf_parts(mean_c, pin, fov, params, m);
    lemma_jacobian_rate(mean_c, pin, fov, params.kb4, m);
    lemma_vjp_value(jac, mean_c, cov_c, u, v_cov2d, v_mean2d, params.kb4, m);
    lemma_tpf_vjp_value(jac, mean_c, cov_c, u, v_cov2d, v_mean2d, params, m);
    lemma_covariance_pairing(j, jr, cov_c.value(m), v_cov2d.value(m));
    lemma_mean_grad(j, n, wu, wv, e, d);
    let g = shift_grad(fx, fy, wu, wv, hu, hv);
    shift_pairing(
        fx, fy, wu.x, wu.y, wu.z, wv.x, wv.y, wv.z, hu.h00, hu.h01, hu.h02, hu.h11, hu.h12, hu.h22,
        hv.h00, hv.h01, hv.h02, hv.h11, hv.h12, hv.h22, d.x, d.y, d.z,
    );
    let su0 = (fx * hu.h00) * d.x + (fx * hu.h01) * d.y + (fx * hu.h02) * d.z;
    let su1 = (fx * hu.h01) * d.x + (fx * hu.h11) * d.y + (fx * hu.h12) * d.z;
    let su2 = (fx * hu.h02) * d.x + (fx * hu.h12) * d.y + (fx * hu.h22) * d.z;
    let sv0 = (fy * hv.h00) * d.x + (fy * hv.h01) * d.y + (fy * hv.h02) * d.z;
    let sv1 = (fy * hv.h01) * d.x + (fy * hv.h11) * d.y + (fy * hv.h12) * d.z;
    let sv2 = (fy * hv.h02) * d.x + (fy * hv.h12) * d.y + (fy * hv.h22) * d.z;
    pairing_of_sum(
        wu.x, wv.x, wu.y, wv.y, wu.z, wv.z, kr.c0.x, kr.c0.y, kr.c1.x, kr.c1.y, kr.c2.x, kr.c2.y,
        su0, sv0, su1, sv1, su2, sv2,
    );
    let k = mean_grad(j, n, wu, wv, e);
    dist_add(k.x, g.x, d.x);
    dist_add(k.y, g.y, d.y);
    dist_add(k.z, g.z, d.z);
}

} // verus!
