//! How the fisheye models behave along the ray of a point: its image depends on the
//! direction alone, so the Jacobian annihilates the point, shrinks with distance,
//! and fixes how the backward functions act along the ray.
use crate::camera_model::derivative::{
    angle_second, axis_second, bent, bent_rate, curvature, direction_x, direction_y, distance,
    distance_second, entry_grads, fisheye_jacobian, image_second, lemma_axis_rates, lemma_bent,
    lemma_covariance_pairing, lemma_directions, lemma_distance_second, lemma_jacobian_value,
    lemma_mean_grad, lemma_polar, lemma_second_rates, lemma_vjp_value, off_axis, polar, slope,
    slopes,
};
use crate::camera_model::kannala_brandt_4::{
    calculate_project_jacobian_kb4, calculate_projection_vjp_kb4,
};
use crate::camera_model::prism_algebra::{pairing_of_sum, shift_pairing};
use crate::camera_model::ray_algebra::{
    negated_pairing, prism_euler_u, prism_euler_v, prism_ray, prism_ray_rates, prism_scaled_row,
    prism_scaled_u, prism_scaled_v, ray_angle, ray_angle_rates, ray_bend, ray_direction, ray_entry,
    ray_pinhole, ray_reciprocals, ray_root, ray_row_u, ray_row_v, ray_slope, scaled_angle,
    scaled_depth_angle, scaled_entry, scaled_entry_across, scaled_entry_depth,
    scaled_inverse_square, scaled_pinhole, scaled_reciprocal, scaled_square, symmetric_form,
    twice_inner, vanishing_form, vanishing_prism_u, vanishing_prism_v, vanishing_row,
    vanishing_second, vanishing_shift, vanishing_shift_weights,
};
use crate::camera_model::thin_prism_derivative::{
    lemma_shift_rates, lemma_tpf_jacobian_value, lemma_tpf_vjp_value, shift_grad, shift_row,
    shift_second, shift_u, shift_v, Shift,
};
use crate::camera_model::thin_prism_fisheye::{
    calculate_project_jacobian_tpf, calculate_projection_vjp_tpf,
};
use crate::camera_model::{
    KannalaBrandt4Params, PinholeParams, ProjectUniforms, ThinPrismFisheyeParams,
};
use crate::cube::meaning::{RMat2x3, RSym2, RSym3, RVec2, RVec3};
use crate::cube::{Mat2x3, Sym2, Sym3, Vec2, Vec3A};
use crate::expr::algebra::{dist_add, mul_comm, reciprocal};
use crate::expr::semantics::{group_value, pow10, value_add, Model};
use crate::expr::{decimal, whole, Scalar};
use vstd::prelude::*;

verus! {

/// Stretching both legs leaves the angle alone.
pub open spec fn same_angle(m: Model, s: real, y: real, x: real) -> bool {
    (m.atan2)(s * y, s * x) == (m.atan2)(y, x)
}

impl Model {
    /// The angle of a point depends on its direction alone.
    pub open spec fn angular(self) -> bool {
        forall|s: real, y: real, x: real| s > 0real ==> #[trigger] same_angle(self, s, y, x)
    }
}

/// What the Jacobian denotes near the axis: that of a pinhole.
pub open spec fn pinhole_jacobian(p: RVec3, fx: real, fy: real) -> RMat2x3 {
    let q = 1real / p.z;
    RMat2x3 {
        c0: RVec2 { x: fx * q, y: 0real },
        c1: RVec2 { x: 0real, y: fy * q },
        c2: RVec2 { x: (-(fx * q)) * p.x * q, y: (-(fy * q)) * p.y * q },
    }
}

/// Near the axis the Jacobian denotes [`pinhole_jacobian`].
proof fn lemma_pinhole_jacobian(
    point: Vec3A,
    pinhole_params: PinholeParams,
    max_theta: Scalar,
    params: KannalaBrandt4Params<Scalar>,
    m: Model,
)
    requires
        !off_axis(point.value(m), m),
        point.value(m).z != 0real,
    ensures
        calculate_project_jacobian_kb4(&point, &pinhole_params, &max_theta, &params).value(m)
            == pinhole_jacobian(
            point.value(m),
            pinhole_params.fx.value(m),
            pinhole_params.fy.value(m),
        ),
{
    let r = (point.x * point.x + point.y * point.y).sqrt();
    assert(r.lt(&decimal(1, (-6) as i32)).holds(m)) by {
        broadcast use group_value;

        assert(1real * pow10(-6) == pow10(-6));
    }
    broadcast use group_value;

}

/// The derivatives of the limited angle annihilate the point.
proof fn lemma_angle_along_ray(p: RVec3, d: RVec3, max: real, m: Model)
    requires
        m.sound(),
        off_axis(p, m),
    ensures
        ({
            let e = bent(p, d, max, m);
            e.tx * p.x + e.ty * p.y + e.tz * p.z == 0real
        }),
{
    let o = polar(p, d, m);
    lemma_polar(p, d, m);
    ray_angle(p.x, p.y, p.z, o.r, o.i, o.b);
}

/// The image of a point does not change along its ray, so
/// [`calculate_project_jacobian_kb4`] maps the point itself to zero.
pub proof fn lemma_kb4_jacobian_along_ray(
    point: Vec3A,
    pinhole_params: PinholeParams,
    max_theta: Scalar,
    params: KannalaBrandt4Params<Scalar>,
    m: Model,
)
    requires
        m.sound(),
        off_axis(point.value(m), m) || point.value(m).z != 0real,
    ensures
        calculate_project_jacobian_kb4(
            &point,
            &pinhole_params,
            &max_theta,
            &params,
        ).value(m).apply(point.value(m)) == (RVec2 { x: 0real, y: 0real }),
{
    let p = point.value(m);
    let d = point.rate(m);
    let (fx, fy) = (pinhole_params.fx.value(m), pinhole_params.fy.value(m));
    if off_axis(p, m) {
        let (k1, k2, k3, k4) = (
            params.k1.value(m),
            params.k2.value(m),
            params.k3.value(m),
            params.k4.value(m),
        );
        let e = bent(p, d, max_theta.value(m), m);
        let i = polar(p, d, m).i;
        let w = distance(k1, k2, k3, k4, e.t);
        let q = slope(k1, k2, k3, k4, e.t);
        let c = i * i * i;
        lemma_angle_along_ray(p, d, max_theta.value(m), m);
        lemma_jacobian_value(point, pinhole_params, max_theta, params, m);
        ray_row_u(fx, q, e.tx, e.ty, e.tz, w, p.x, p.y, p.z, i, c);
        ray_row_v(fy, q, e.tx, e.ty, e.tz, w, p.x, p.y, p.z, i, c);
    } else {
        let q = 1real / p.z;
        lemma_pinhole_jacobian(point, pinhole_params, max_theta, params, m);
        reciprocal(p.z);
        mul_comm(p.z, q);
        ray_pinhole(fx, q, p.x, p.z);
        ray_pinhole(fy, q, p.y, p.z);
    }
}

/// How the quantities of a fisheye projection change when the point moves along
/// its ray: lengths grow, their reciprocals shrink, and the angle stays.
proof fn lemma_polar_scales(p: RVec3, e: RVec3, d: RVec3, s: real, m: Model)
    requires
        m.sound(),
        m.angular(),
        s > 0real,
        off_axis(p, m),
        off_axis(p.times(s), m),
    ensures
        ({
            let o = polar(p, d, m);
            let g = polar(p.times(s), e, m);
            let u = 1real / s;
            &&& s * u == 1real
            &&& g.r == s * o.r
            &&& g.i == o.i * u
            &&& g.b == o.b * (u * u)
            &&& (m.atan2)(g.r, p.z * s) == (m.atan2)(o.r, p.z)
        }),
{
    let o = polar(p, d, m);
    let g = polar(p.times(s), e, m);
    let u = 1real / s;
    reciprocal(s);
    lemma_polar(p, d, m);
    lemma_polar(p.times(s), e, m);
    mul_comm(s, p.x);
    mul_comm(s, p.y);
    mul_comm(s, p.z);
    scaled_square(s, p.x, p.y, o.r);
    let (gr, sr) = (g.r, s * o.r);
    let or = o.r;
    assert(s * or > 0real) by (nonlinear_arith)
        requires
            s > 0real,
            or > 0real,
    ;
    assert(gr == sr) by (nonlinear_arith)
        requires
            gr * gr == sr * sr,
            gr > 0real,
            sr > 0real,
    ;
    scaled_reciprocal(s, u, o.r, o.i, g.i);
    scaled_inverse_square(s, u, p.x, p.y, p.z, o.b, g.b);
    assert(same_angle(m, s, o.r, p.z));
}

/// Moving a point along its ray, [`calculate_project_jacobian_kb4`] shrinks as the
/// distance grows, as long as both points are imaged in the same way: off the axis,
/// or both by the pinhole that stands in there.
pub proof fn lemma_kb4_jacobian_scales(
    point: Vec3A,
    farther: Vec3A,
    s: real,
    pinhole_params: PinholeParams,
    max_theta: Scalar,
    params: KannalaBrandt4Params<Scalar>,
    m: Model,
)
    requires
        m.sound(),
        m.angular(),
        s > 0real,
        farther.value(m) == point.value(m).times(s),
        off_axis(farther.value(m), m) == off_axis(point.value(m), m),
        off_axis(point.value(m), m) || point.value(m).z != 0real,
    ensures
        calculate_project_jacobian_kb4(&farther, &pinhole_params, &max_theta, &params).value(m)
            == calculate_project_jacobian_kb4(
            &point,
            &pinhole_params,
            &max_theta,
            &params,
        ).value(m).times(1real / s),
{
    let p = point.value(m);
    let d = point.rate(m);
    let h = farther.value(m);
    let b = farther.rate(m);
    let max = max_theta.value(m);
    let (fx, fy) = (pinhole_params.fx.value(m), pinhole_params.fy.value(m));
    let u = 1real / s;
    mul_comm(s, p.x);
    mul_comm(s, p.y);
    mul_comm(s, p.z);
    if off_axis(p, m) {
        let (k1, k2, k3, k4) = (
            params.k1.value(m),
            params.k2.value(m),
            params.k3.value(m),
            params.k4.value(m),
        );
        let o = polar(p, d, m);
        let e = bent(p, d, max, m);
        let g = bent(h, b, max, m);
        lemma_polar_scales(p, b, d, s, m);
        let w = distance(k1, k2, k3, k4, e.t);
        let q = slope(k1, k2, k3, k4, e.t);
        assert(g.t == e.t);
        scaled_angle(s, u, p.x, p.z, o.b, o.i);
        scaled_angle(s, u, p.y, p.z, o.b, o.i);
        scaled_depth_angle(s, u, o.r, o.b);
        assert(u * 0real == 0real);
        assert(g.tx == u * e.tx && g.ty == u * e.ty && g.tz == u * e.tz);
        lemma_jacobian_value(point, pinhole_params, max_theta, params, m);
        lemma_jacobian_value(farther, pinhole_params, max_theta, params, m);
        let j = fisheye_jacobian(p, d, fx, fy, w, q, e, o.i);
        let k = fisheye_jacobian(h, b, fx, fy, w, q, g, o.i * u);
        scaled_entry(s, u, fx, q, e.tx, p.x, o.i, w, p.y, p.y);
        scaled_entry_across(s, u, fy, q, e.tx, p.y, o.i, w, p.x, p.y);
        scaled_entry_across(s, u, fx, q, e.ty, p.x, o.i, w, p.x, p.y);
        scaled_entry(s, u, fy, q, e.ty, p.y, o.i, w, p.x, p.x);
        scaled_entry_depth(s, u, fx, q, e.tz, p.x, o.i);
        scaled_entry_depth(s, u, fy, q, e.tz, p.y, o.i);
        mul_comm(u, j.c0.x);
        mul_comm(u, j.c0.y);
        mul_comm(u, j.c1.x);
        mul_comm(u, j.c1.y);
        mul_comm(u, j.c2.x);
        mul_comm(u, j.c2.y);
        assert(k.c0.x == j.c0.x * u && k.c0.y == j.c0.y * u);
        assert(k.c1.x == j.c1.x * u && k.c1.y == j.c1.y * u);
        assert(k.c2.x == j.c2.x * u && k.c2.y == j.c2.y * u);
    } else {
        let q = 1real / p.z;
        let g = 1real / h.z;
        lemma_depth_scales(p.z, s);
        lemma_pinhole_jacobian(point, pinhole_params, max_theta, params, m);
        lemma_pinhole_jacobian(farther, pinhole_params, max_theta, params, m);
        let j = pinhole_jacobian(p, fx, fy);
        scaled_pinhole(s, u, fx, q, p.x);
        scaled_pinhole(s, u, fy, q, p.y);
        mul_comm(u, j.c0.x);
        mul_comm(u, j.c1.y);
        mul_comm(u, j.c2.x);
        mul_comm(u, j.c2.y);
    }
}

/// The reciprocal of a stretched depth.
proof fn lemma_depth_scales(z: real, s: real)
    requires
        z != 0real,
        s > 0real,
    ensures
        z * s != 0real,
        s * (1real / s) == 1real,
        1real / (z * s) == (1real / z) * (1real / s),
{
    let q = 1real / z;
    let u = 1real / s;
    reciprocal(s);
    reciprocal(z);
    assert(z * s != 0real) by (nonlinear_arith)
        requires
            z != 0real,
            s > 0real,
    ;
    reciprocal(z * s);
    mul_comm(s, z);
    scaled_reciprocal(s, u, z, q, 1real / (z * s));
}

/// The rates of the quantities of a fisheye projection as the point moves out along
/// its ray.
proof fn lemma_polar_along_ray(p: RVec3, m: Model)
    requires
        m.sound(),
        off_axis(p, m),
    ensures
        ({
            let o = polar(p, p, m);
            &&& o.dr == o.r
            &&& o.di == -o.i
            &&& o.db == -2real * o.b
            &&& o.dth == 0real
        }),
{
    let o = polar(p, p, m);
    lemma_polar(p, p, m);
    ray_root(p.x, p.y, o.r, o.i, o.dr);
    ray_reciprocals(p.x, p.y, p.z, o.r, o.i, o.b, o.dr, o.di, o.db);
}

/// The second derivatives of the image, applied to the point, are the first ones
/// with their signs turned: the first derivatives shrink as the distance grows.
proof fn lemma_second_along_ray(
    p: RVec3,
    d: RVec3,
    fx: real,
    fy: real,
    k1: real,
    k2: real,
    k3: real,
    k4: real,
    max: real,
    m: Model,
)
    requires
        m.sound(),
        off_axis(p, m),
    ensures
        ({
            let e = bent(p, d, max, m);
            let j = fisheye_jacobian(
                p,
                d,
                fx,
                fy,
                distance(k1, k2, k3, k4, e.t),
                slope(k1, k2, k3, k4, e.t),
                e,
                polar(p, d, m).i,
            );
            let h = image_second(p, polar(p, d, m), fx, fy, k1, k2, k3, k4, max, m);
            &&& h.u.d00 * p.x + h.u.d01 * p.y + h.u.d02 * p.z == -j.c0.x
            &&& h.u.d10 * p.x + h.u.d11 * p.y + h.u.d12 * p.z == -j.c1.x
            &&& h.u.d20 * p.x + h.u.d21 * p.y + h.u.d22 * p.z == -j.c2.x
            &&& h.v.d00 * p.x + h.v.d01 * p.y + h.v.d02 * p.z == -j.c0.y
            &&& h.v.d10 * p.x + h.v.d11 * p.y + h.v.d12 * p.z == -j.c1.y
            &&& h.v.d20 * p.x + h.v.d21 * p.y + h.v.d22 * p.z == -j.c2.y
        }),
{
    let o = polar(p, p, m);
    let e = bent(p, p, max, m);
    let f = bent_rate(p, p, max, m);
    let t = distance(k1, k2, k3, k4, e.t);
    let q = slope(k1, k2, k3, k4, e.t);
    let k = curvature(k1, k2, k3, k4, e.t);
    let s = slopes(p, o, q, k, max, m);
    let g = distance_second(s, angle_second(p, o));
    lemma_polar_along_ray(p, m);
    lemma_directions(p, p, m);
    lemma_second_rates(p, p, m);
    lemma_distance_second(p, p, q, k, max, m);
    lemma_bent(p, p, max, m);
    lemma_angle_along_ray(p, p, max, m);
    ray_slope(q, e.tx, e.ty, e.tz, p.x, p.y, p.z);
    ray_angle_rates(p.x, p.z, o.r, o.i, o.b, o.dr, o.di, o.db);
    ray_angle_rates(p.y, p.z, o.r, o.i, o.b, o.dr, o.di, o.db);
    ray_bend(p.y, p.y, o.i, o.di);
    ray_bend(p.x, p.y, o.i, o.di);
    ray_bend(p.x, p.x, o.i, o.di);
    ray_direction(p.x, o.i, o.di);
    ray_direction(p.y, o.i, o.di);
    assert(e.dt == 0real);
    assert(f.tx == -e.tx && f.ty == -e.ty && f.tz == -e.tz);
    assert(k * 0real == 0real);
    let g0r = (k * e.dt) * e.tx + q * f.tx;
    let g1r = (k * e.dt) * e.ty + q * f.ty;
    let g2r = (k * e.dt) * e.tz + q * f.tz;
    let g0 = s.p1 * s.ax;
    let g1 = s.p1 * s.ay;
    let g2 = s.p1 * s.az;
    lemma_negated_product(q, e.tx);
    lemma_negated_product(q, e.ty);
    lemma_negated_product(q, e.tz);
    assert(g0r == -g0 && g1r == -g1 && g2r == -g2);
    let c = o.i * o.i * o.i;
    let dc = (o.di * o.i + o.i * o.di) * o.i + (o.i * o.i) * o.di;
    let nx = direction_x(p, o.i);
    let ny = direction_y(p, o.i);
    let xwr = p.x * o.i + p.x * o.di;
    let ywr = p.y * o.i + p.y * o.di;
    let xxr = (p.y * p.y + p.y * p.y) * c + (p.y * p.y) * dc;
    let xyr = (-(p.x * p.y + p.x * p.y)) * c + (-(p.x * p.y)) * dc;
    let yyr = (p.x * p.x + p.x * p.x) * c + (p.x * p.x) * dc;
    lemma_axis_rates(fx, nx, xwr, xxr, xyr, t, 0real, s, g, g0r, g1r, g2r, p);
    lemma_axis_rates(fy, ny, ywr, xyr, yyr, t, 0real, s, g, g0r, g1r, g2r, p);
    ray_entry(fx, g0, g0r, nx.w, xwr, t, 0real, nx.bx, xxr);
    ray_entry(fx, g1, g1r, nx.w, xwr, t, 0real, nx.by, xyr);
    ray_entry(fx, g2, g2r, nx.w, xwr, t, 0real, nx.by, xyr);
    ray_entry(fy, g0, g0r, ny.w, ywr, t, 0real, ny.bx, xyr);
    ray_entry(fy, g1, g1r, ny.w, ywr, t, 0real, ny.by, yyr);
    ray_entry(fy, g2, g2r, ny.w, ywr, t, 0real, ny.by, yyr);
    let h = image_second(p, o, fx, fy, k1, k2, k3, k4, max, m);
    assert(h.u == axis_second(fx, nx, t, s, g));
    assert(h.v == axis_second(fy, ny, t, s, g));
    assert(h == image_second(p, polar(p, d, m), fx, fy, k1, k2, k3, k4, max, m));
    let j = fisheye_jacobian(p, d, fx, fy, t, q, e, o.i);
    assert(j.c0.x == fx * (g0 * nx.w + t * nx.bx));
    assert(j.c1.x == fx * (g1 * nx.w + t * nx.by));
    assert(j.c2.x == fx * (g2 * nx.w));
    assert(j.c0.y == fy * (g0 * ny.w + t * ny.bx));
    assert(j.c1.y == fy * (g1 * ny.w + t * ny.by));
    assert(j.c2.y == fy * (g2 * ny.w));
}

/// A product takes the sign of its factor.
proof fn lemma_negated_product(a: real, b: real)
    ensures
        a * (-b) == -(a * b),
{
    assert(a * (-b) == -(a * b)) by (nonlinear_arith);
}

/// The gradient of the entries of the Jacobian, paired with the entries of a matrix.
pub open spec fn pairing(wu: RVec3, wv: RVec3, d: RMat2x3) -> real {
    wu.x * d.c0.x + wv.x * d.c0.y + wu.y * d.c1.x + wv.y * d.c1.y + wu.z * d.c2.x + wv.z * d.c2.y
}

/// Growing the Jacobian grows what it makes of a covariance at twice the rate.
proof fn lemma_pairing_with_itself(j: RMat2x3, c: RSym3, v: RSym2)
    ensures
        ({
            let (wu, wv) = entry_grads(j, c, v);
            pairing(wu, wv, j) == 2real * v.inner(j.sandwich(c))
        }),
{
    let (a, b) = (j.row0(), j.row1());
    let s = j.sandwich(c);
    lemma_covariance_pairing(j, j, c, v);
    symmetric_form(
        a.x, a.y, a.z, b.x, b.y, b.z, c.c00, c.c01, c.c02, c.c11, c.c12, c.c22,
    );
    twice_inner(v.c00, v.c01, v.c11, s.c00, s.c01, b.dot(c.apply(a)), s.c11);
}

/// How [`calculate_projection_vjp_kb4`] acts along the ray, for any Jacobian that it
/// is handed.
proof fn lemma_vjp_on_point(
    jac: Mat2x3,
    mean_c: Vec3A,
    cov_c: Sym3,
    u: ProjectUniforms,
    v_cov2d: Sym2,
    v_mean2d: Vec2,
    params: KannalaBrandt4Params<Scalar>,
    m: Model,
)
    requires
        m.sound(),
        off_axis(mean_c.value(m), m),
    ensures
        ({
            let p = mean_c.value(m);
            let k = calculate_project_jacobian_kb4(
                &mean_c,
                &u.pinhole_params,
                &u.half_max_render_fov,
                &params,
            ).value(m);
            let (wu, wv) = entry_grads(jac.value(m), cov_c.value(m), v_cov2d.value(m));
            calculate_projection_vjp_kb4(
                &jac,
                &mean_c,
                &cov_c,
                &u,
                &v_cov2d,
                &v_mean2d,
                &params,
            ).value(m).dot(p) == v_mean2d.value(m).dot(jac.value(m).apply(p)) - pairing(wu, wv, k)
        }),
{
    let p = mean_c.value(m);
    let d = mean_c.rate(m);
    let (fx, fy) = (u.pinhole_params.fx.value(m), u.pinhole_params.fy.value(m));
    let (k1, k2, k3, k4) = (
        params.k1.value(m),
        params.k2.value(m),
        params.k3.value(m),
        params.k4.value(m),
    );
    let max = u.half_max_render_fov.value(m);
    let e = image_second(p, polar(p, d, m), fx, fy, k1, k2, k3, k4, max, m);
    let (wu, wv) = entry_grads(jac.value(m), cov_c.value(m), v_cov2d.value(m));
    let k = calculate_project_jacobian_kb4(
        &mean_c,
        &u.pinhole_params,
        &u.half_max_render_fov,
        &params,
    ).value(m);
    lemma_vjp_value(jac, mean_c, cov_c, u, v_cov2d, v_mean2d, params, m);
    lemma_jacobian_value(mean_c, u.pinhole_params, u.half_max_render_fov, params, m);
    lemma_second_along_ray(p, d, fx, fy, k1, k2, k3, k4, max, m);
    lemma_mean_grad(jac.value(m), v_mean2d.value(m), wu, wv, e, p);
    negated_pairing(
        wu.x, wv.x, wu.y, wv.y, wu.z, wv.z, k.c0.x, k.c0.y, k.c1.x, k.c1.y, k.c2.x, k.c2.y,
    );
}

/// Off the axis, along its ray the gradient that [`calculate_projection_vjp_kb4`]
/// returns does not depend on that of the image, and shrinks the projected
/// covariance at twice the rate at which the distance grows.
pub proof fn lemma_kb4_vjp_along_ray(
    mean_c: Vec3A,
    cov_c: Sym3,
    u: ProjectUniforms,
    v_cov2d: Sym2,
    v_mean2d: Vec2,
    params: KannalaBrandt4Params<Scalar>,
    m: Model,
)
    requires
        m.sound(),
        off_axis(mean_c.value(m), m),
    ensures
        ({
            let jac = calculate_project_jacobian_kb4(
                &mean_c,
                &u.pinhole_params,
                &u.half_max_render_fov,
                &params,
            );
            calculate_projection_vjp_kb4(
                &jac,
                &mean_c,
                &cov_c,
                &u,
                &v_cov2d,
                &v_mean2d,
                &params,
            ).value(m).dot(mean_c.value(m)) == -2real * v_cov2d.value(m).inner(
                jac.value(m).sandwich(cov_c.value(m)),
            )
        }),
{
    let pin = u.pinhole_params;
    let fov = u.half_max_render_fov;
    let jac = calculate_project_jacobian_kb4(&mean_c, &pin, &fov, &params);
    let n = v_mean2d.value(m);
    lemma_kb4_jacobian_along_ray(mean_c, pin, fov, params, m);
    lemma_vjp_on_point(jac, mean_c, cov_c, u, v_cov2d, v_mean2d, params, m);
    lemma_pairing_with_itself(jac.value(m), cov_c.value(m), v_cov2d.value(m));
    assert(n.x * 0real == 0real && n.y * 0real == 0real);
}

/// No gradient of the covariance leaves none of the entries of the Jacobian.
proof fn lemma_no_entry_grads(j: RMat2x3, c: RSym3, v: RSym2)
    requires
        v == (RSym2 { c00: 0real, c01: 0real, c11: 0real }),
    ensures
        entry_grads(j, c, v).0 == (RVec3 { x: 0real, y: 0real, z: 0real }),
        entry_grads(j, c, v).1 == (RVec3 { x: 0real, y: 0real, z: 0real }),
{
    let (a, b) = (j.row0(), j.row1());
    vanishing_form(v.c00, v.c01, a.x, b.x, a.y, b.y, a.z, b.z, c.c00, c.c01, c.c02);
    vanishing_form(v.c00, v.c01, a.x, b.x, a.y, b.y, a.z, b.z, c.c01, c.c11, c.c12);
    vanishing_form(v.c00, v.c01, a.x, b.x, a.y, b.y, a.z, b.z, c.c02, c.c12, c.c22);
    vanishing_form(v.c01, v.c11, a.x, b.x, a.y, b.y, a.z, b.z, c.c00, c.c01, c.c02);
    vanishing_form(v.c01, v.c11, a.x, b.x, a.y, b.y, a.z, b.z, c.c01, c.c11, c.c12);
    vanishing_form(v.c01, v.c11, a.x, b.x, a.y, b.y, a.z, b.z, c.c02, c.c12, c.c22);
}

/// A product with a factor that denotes zero denotes zero.
proof fn lemma_vanishing_product(a: Scalar, m: Model)
    requires
        a.value(m) == 0real,
    ensures
        forall|b: Scalar| #[trigger] (a * b).value(m) == 0real,
{
    assert forall|b: Scalar| #[trigger] (a * b).value(m) == 0real by {
        let (x, y) = (a.value(m), b.value(m));
        assert(x * y == 0real) by (nonlinear_arith)
            requires
                x == 0real,
        ;
        broadcast use group_value;

    }
}

/// Without a gradient of the covariance, [`calculate_projection_vjp_kb4`] carries the
/// gradient of the image back through the Jacobian that it is handed, and does
/// nothing else.
pub proof fn lemma_kb4_vjp_of_image(
    jac: Mat2x3,
    mean_c: Vec3A,
    cov_c: Sym3,
    u: ProjectUniforms,
    v_cov2d: Sym2,
    v_mean2d: Vec2,
    params: KannalaBrandt4Params<Scalar>,
    m: Model,
)
    requires
        v_cov2d.value(m) == (RSym2 { c00: 0real, c01: 0real, c11: 0real }),
    ensures
        calculate_projection_vjp_kb4(
            &jac,
            &mean_c,
            &cov_c,
            &u,
            &v_cov2d,
            &v_mean2d,
            &params,
        ).value(m) == jac.value(m).apply_transpose(v_mean2d.value(m)),
{
    let j = jac.value(m);
    let n = v_mean2d.value(m);
    let (wu, wv) = entry_grads(j, cov_c.value(m), v_cov2d.value(m));
    lemma_no_entry_grads(j, cov_c.value(m), v_cov2d.value(m));
    let tmp = v_cov2d.mul_mat2x3(&jac);
    let tu = tmp.row0();
    let tv = tmp.row1();
    let vj_u0 = whole(2) * tu.dot(&cov_c.row0());
    let vj_u1 = whole(2) * tu.dot(&cov_c.row1());
    let vj_u2 = whole(2) * tu.dot(&cov_c.row2());
    let vj_v0 = whole(2) * tv.dot(&cov_c.row0());
    let vj_v1 = whole(2) * tv.dot(&cov_c.row1());
    let vj_v2 = whole(2) * tv.dot(&cov_c.row2());
    assert(vj_u0.value(m) == wu.x && vj_u1.value(m) == wu.y && vj_u2.value(m) == wu.z) by {
        broadcast use group_value;

    }
    assert(vj_v0.value(m) == wv.x && vj_v1.value(m) == wv.y && vj_v2.value(m) == wv.z) by {
        broadcast use group_value;

    }
    lemma_vanishing_product(vj_u0, m);
    lemma_vanishing_product(vj_u1, m);
    lemma_vanishing_product(vj_u2, m);
    lemma_vanishing_product(vj_v0, m);
    lemma_vanishing_product(vj_v1, m);
    lemma_vanishing_product(vj_v2, m);
    let r = calculate_projection_vjp_kb4(&jac, &mean_c, &cov_c, &u, &v_cov2d, &v_mean2d, &params);
    assert(r.value(m) == (RVec3 {
        x: v_mean2d.dot(&jac.c0).value(m),
        y: v_mean2d.dot(&jac.c1).value(m),
        z: v_mean2d.dot(&jac.c2).value(m),
    })) by {
        broadcast use value_add;

    }
    broadcast use group_value;

    mul_comm(n.x, j.c0.x);
    mul_comm(n.y, j.c0.y);
    mul_comm(n.x, j.c1.x);
    mul_comm(n.y, j.c1.y);
    mul_comm(n.x, j.c2.x);
    mul_comm(n.y, j.c2.y);
}

/// The displacement along one axis grows with the square of the distance.
pub open spec fn is_quadratic(s: Shift, p: RVec3) -> bool {
    &&& s.nx * p.x + s.ny * p.y == 2real * s.n
    &&& s.n00 * p.x + s.n01 * p.y == s.nx
    &&& s.n01 * p.x + s.n11 * p.y == s.ny
}

/// So do both displacements of the model.
proof fn lemma_shifts_are_quadratic(params: ThinPrismFisheyeParams<Scalar>, p: RVec3, m: Model)
    ensures
        is_quadratic(shift_u(params, p, m), p),
        is_quadratic(shift_v(params, p, m), p),
{
    let (a, b) = (params.p1.value(m), params.p2.value(m));
    prism_euler_u(a, b, params.sx1.value(m), p.x, p.y);
    prism_euler_v(a, b, params.sy1.value(m), p.x, p.y);
}

/// The derivatives of a displacement annihilate the point, and applying the second
/// ones to it turns the signs of the first.
proof fn lemma_shift_along_ray(f: real, s: Shift, p: RVec3)
    requires
        is_quadratic(s, p),
        p.z != 0real,
    ensures
        ({
            let q = 1real / p.z;
            let r = shift_row(f, s, q);
            let h = shift_second(s, q);
            &&& r.dot(p) == 0real
            &&& (f * h.h00) * p.x + (f * h.h01) * p.y + (f * h.h02) * p.z == -r.x
            &&& (f * h.h01) * p.x + (f * h.h11) * p.y + (f * h.h12) * p.z == -r.y
            &&& (f * h.h02) * p.x + (f * h.h12) * p.y + (f * h.h22) * p.z == -r.z
        }),
{
    let q = 1real / p.z;
    let dq = -(p.z * (q * q));
    reciprocal(p.z);
    mul_comm(p.z, q);
    let z = p.z;
    assert(z * (q * q) == q) by (nonlinear_arith)
        requires
            z * q == 1real,
    ;
    prism_ray(f, s.n, s.nx, s.ny, q, p.x, p.y, p.z);
    lemma_shift_rates(f, s, q, dq, p);
    prism_ray_rates(f, s.n, s.nx, 2real * s.n, q, dq);
    prism_ray_rates(f, s.n, s.ny, 2real * s.n, q, dq);
}

/// The image of a point does not change along its ray, so
/// [`calculate_project_jacobian_tpf`] maps the point itself to zero.
pub proof fn lemma_tpf_jacobian_along_ray(
    point: Vec3A,
    pinhole_params: PinholeParams,
    max_theta: Scalar,
    params: ThinPrismFisheyeParams<Scalar>,
    m: Model,
)
    requires
        m.sound(),
        point.value(m).z != 0real,
    ensures
        calculate_project_jacobian_tpf(
            &point,
            &pinhole_params,
            &max_theta,
            &params,
        ).value(m).apply(point.value(m)) == (RVec2 { x: 0real, y: 0real }),
{
    let p = point.value(m);
    let q = 1real / p.z;
    let (fx, fy) = (pinhole_params.fx.value(m), pinhole_params.fy.value(m));
    let (su, sv) = (shift_u(params, p, m), shift_v(params, p, m));
    let ru = shift_row(fx, su, q);
    let rv = shift_row(fy, sv, q);
    let k = calculate_project_jacobian_kb4(
        &point,
        &pinhole_params,
        &max_theta,
        &params.kb4,
    ).value(m);
    lemma_kb4_jacobian_along_ray(point, pinhole_params, max_theta, params.kb4, m);
    lemma_tpf_jacobian_value(point, pinhole_params, max_theta, params, m);
    lemma_shifts_are_quadratic(params, p, m);
    lemma_shift_along_ray(fx, su, p);
    lemma_shift_along_ray(fy, sv, p);
    dist_add(k.c0.x, ru.x, p.x);
    dist_add(k.c1.x, ru.y, p.y);
    dist_add(k.c2.x, ru.z, p.z);
    dist_add(k.c0.y, rv.x, p.x);
    dist_add(k.c1.y, rv.y, p.y);
    dist_add(k.c2.y, rv.z, p.z);
}

/// Moving a point along its ray, [`calculate_project_jacobian_tpf`] shrinks as the
/// distance grows, as long as both points are imaged in the same way.
pub proof fn lemma_tpf_jacobian_scales(
    point: Vec3A,
    farther: Vec3A,
    s: real,
    pinhole_params: PinholeParams,
    max_theta: Scalar,
    params: ThinPrismFisheyeParams<Scalar>,
    m: Model,
)
    requires
        m.sound(),
        m.angular(),
        s > 0real,
        farther.value(m) == point.value(m).times(s),
        off_axis(farther.value(m), m) == off_axis(point.value(m), m),
        point.value(m).z != 0real,
    ensures
        calculate_project_jacobian_tpf(&farther, &pinhole_params, &max_theta, &params).value(m)
            == calculate_project_jacobian_tpf(
            &point,
            &pinhole_params,
            &max_theta,
            &params,
        ).value(m).times(1real / s),
{
    let p = point.value(m);
    let h = farther.value(m);
    let (fx, fy) = (pinhole_params.fx.value(m), pinhole_params.fy.value(m));
    let q = 1real / p.z;
    let u = 1real / s;
    let (a, b) = (params.p1.value(m), params.p2.value(m));
    let (su, sv) = (shift_u(params, p, m), shift_v(params, p, m));
    let ru = shift_row(fx, su, q);
    let rv = shift_row(fy, sv, q);
    let k = calculate_project_jacobian_kb4(
        &point,
        &pinhole_params,
        &max_theta,
        &params.kb4,
    ).value(m);
    lemma_kb4_jacobian_scales(point, farther, s, pinhole_params, max_theta, params.kb4, m);
    lemma_tpf_jacobian_value(point, pinhole_params, max_theta, params, m);
    lemma_tpf_jacobian_value(farther, pinhole_params, max_theta, params, m);
    lemma_depth_scales(p.z, s);
    mul_comm(s, p.x);
    mul_comm(s, p.y);
    mul_comm(s, p.z);
    prism_scaled_u(s, a, b, params.sx1.value(m), p.x, p.y);
    prism_scaled_v(s, a, b, params.sy1.value(m), p.x, p.y);
    prism_scaled_row(s, u, fx, su.n, su.nx, q);
    prism_scaled_row(s, u, fx, su.n, su.ny, q);
    prism_scaled_row(s, u, fy, sv.n, sv.nx, q);
    prism_scaled_row(s, u, fy, sv.n, sv.ny, q);
    let gu = shift_row(fx, shift_u(params, h, m), 1real / h.z);
    let gv = shift_row(fy, shift_v(params, h, m), 1real / h.z);
    assert(gu.x == u * ru.x && gu.y == u * ru.y && gu.z == u * ru.z);
    assert(gv.x == u * rv.x && gv.y == u * rv.y && gv.z == u * rv.z);
    mul_comm(u, ru.x);
    mul_comm(u, ru.y);
    mul_comm(u, ru.z);
    mul_comm(u, rv.x);
    mul_comm(u, rv.y);
    mul_comm(u, rv.z);
    dist_add(k.c0.x, ru.x, u);
    dist_add(k.c1.x, ru.y, u);
    dist_add(k.c2.x, ru.z, u);
    dist_add(k.c0.y, rv.x, u);
    dist_add(k.c1.y, rv.y, u);
    dist_add(k.c2.y, rv.z, u);
}

/// Off the axis and away from the camera's plane, along its ray the gradient that
/// [`calculate_projection_vjp_tpf`] returns does not depend on that of the image,
/// and shrinks the projected covariance at twice the rate at which the distance
/// grows.
pub proof fn lemma_tpf_vjp_along_ray(
    mean_c: Vec3A,
    cov_c: Sym3,
    u: ProjectUniforms,
    v_cov2d: Sym2,
    v_mean2d: Vec2,
    params: ThinPrismFisheyeParams<Scalar>,
    m: Model,
)
    requires
        m.sound(),
        off_axis(mean_c.value(m), m),
        mean_c.value(m).z != 0real,
    ensures
        ({
            let jac = calculate_project_jacobian_tpf(
                &mean_c,
                &u.pinhole_params,
                &u.half_max_render_fov,
                &params,
            );
            calculate_projection_vjp_tpf(
                &jac,
                &mean_c,
                &cov_c,
                &u,
                &v_cov2d,
                &v_mean2d,
                &params,
            ).value(m).dot(mean_c.value(m)) == -2real * v_cov2d.value(m).inner(
                jac.value(m).sandwich(cov_c.value(m)),
            )
        }),
{
    let pin = u.pinhole_params;
    let fov = u.half_max_render_fov;
    let jac = calculate_project_jacobian_tpf(&mean_c, &pin, &fov, &params);
    let j = jac.value(m);
    let k = calculate_project_jacobian_kb4(&mean_c, &pin, &fov, &params.kb4).value(m);
    let p = mean_c.value(m);
    let n = v_mean2d.value(m);
    let q = 1real / p.z;
    let (fx, fy) = (pin.fx.value(m), pin.fy.value(m));
    let (su, sv) = (shift_u(params, p, m), shift_v(params, p, m));
    let (hu, hv) = (shift_second(su, q), shift_second(sv, q));
    let (ru, rv) = (shift_row(fx, su, q), shift_row(fy, sv, q));
    let (wu, wv) = entry_grads(j, cov_c.value(m), v_cov2d.value(m));
    lemma_tpf_jacobian_along_ray(mean_c, pin, fov, params, m);
    lemma_tpf_jacobian_value(mean_c, pin, fov, params, m);
    lemma_vjp_on_point(jac, mean_c, cov_c, u, v_cov2d, v_mean2d, params.kb4, m);
    lemma_tpf_vjp_value(jac, mean_c, cov_c, u, v_cov2d, v_mean2d, params, m);
    lemma_pairing_with_itself(j, cov_c.value(m), v_cov2d.value(m));
    lemma_shifts_are_quadratic(params, p, m);
    lemma_shift_along_ray(fx, su, p);
    lemma_shift_along_ray(fy, sv, p);
    shift_pairing(
        fx, fy, wu.x, wu.y, wu.z, wv.x, wv.y, wv.z, hu.h00, hu.h01, hu.h02, hu.h11, hu.h12, hu.h22,
        hv.h00, hv.h01, hv.h02, hv.h11, hv.h12, hv.h22, p.x, p.y, p.z,
    );
    negated_pairing(
        wu.x, wv.x, wu.y, wv.y, wu.z, wv.z, ru.x, rv.x, ru.y, rv.y, ru.z, rv.z,
    );
    pairing_of_sum(
        wu.x, wv.x, wu.y, wv.y, wu.z, wv.z, k.c0.x, k.c0.y, k.c1.x, k.c1.y, k.c2.x, k.c2.y, ru.x,
        rv.x, ru.y, rv.y, ru.z, rv.z,
    );
    let g = shift_grad(fx, fy, wu, wv, hu, hv);
    let r = calculate_projection_vjp_kb4(
        &jac,
        &mean_c,
        &cov_c,
        &u,
        &v_cov2d,
        &v_mean2d,
        &params.kb4,
    ).value(m);
    dist_add(r.x, g.x, p.x);
    dist_add(r.y, g.y, p.y);
    dist_add(r.z, g.z, p.z);
    assert(n.x * 0real == 0real && n.y * 0real == 0real);
}

/// Without a gradient of the covariance, [`calculate_projection_vjp_tpf`] carries the
/// gradient of the image back through the Jacobian that it is handed, and does
/// nothing else.
pub proof fn lemma_tpf_vjp_of_image(
    jac: Mat2x3,
    mean_c: Vec3A,
    cov_c: Sym3,
    u: ProjectUniforms,
    v_cov2d: Sym2,
    v_mean2d: Vec2,
    params: ThinPrismFisheyeParams<Scalar>,
    m: Model,
)
    requires
        v_cov2d.value(m) == (RSym2 { c00: 0real, c01: 0real, c11: 0real }),
    ensures
        calculate_projection_vjp_tpf(
            &jac,
            &mean_c,
            &cov_c,
            &u,
            &v_cov2d,
            &v_mean2d,
            &params,
        ).value(m) == jac.value(m).apply_transpose(v_mean2d.value(m)),
{
    let p = mean_c.value(m);
    let q = 1real / p.z;
    let (fx, fy) = (u.pinhole_params.fx.value(m), u.pinhole_params.fy.value(m));
    let hu = shift_second(shift_u(params, p, m), q);
    let hv = shift_second(shift_v(params, p, m), q);
    let (wu, wv) = entry_grads(jac.value(m), cov_c.value(m), v_cov2d.value(m));
    lemma_kb4_vjp_of_image(jac, mean_c, cov_c, u, v_cov2d, v_mean2d, params.kb4, m);
    lemma_tpf_vjp_value(jac, mean_c, cov_c, u, v_cov2d, v_mean2d, params, m);
    lemma_no_entry_grads(jac.value(m), cov_c.value(m), v_cov2d.value(m));
    vanishing_shift_weights(
        wu.x, wv.x, wu.y, wv.y, wu.z, wv.z, fx, fy, hu.h00, hv.h00, hu.h01, hv.h01, hu.h02, hv.h02,
    );
    vanishing_shift_weights(
        wu.x, wv.x, wu.y, wv.y, wu.z, wv.z, fx, fy, hu.h01, hv.h01, hu.h11, hv.h11, hu.h12, hv.h12,
    );
    vanishing_shift_weights(
        wu.x, wv.x, wu.y, wv.y, wu.z, wv.z, fx, fy, hu.h02, hv.h02, hu.h12, hv.h12, hu.h22, hv.h22,
    );
    let g = shift_grad(fx, fy, wu, wv, hu, hv);
    assert(g.x == 0real && g.y == 0real && g.z == 0real);
}

/// The tangential and the thin-prism terms vanish.
pub open spec fn has_no_prism(params: ThinPrismFisheyeParams<Scalar>, m: Model) -> bool {
    &&& params.p1.value(m) == 0real
    &&& params.p2.value(m) == 0real
    &&& params.sx1.value(m) == 0real
    &&& params.sy1.value(m) == 0real
}

/// Then nothing is displaced.
proof fn lemma_no_shift(params: ThinPrismFisheyeParams<Scalar>, p: RVec3, m: Model)
    requires
        has_no_prism(params, m),
    ensures
        shift_u(params, p, m) == (Shift {
            n: 0real,
            nx: 0real,
            ny: 0real,
            n00: 0real,
            n01: 0real,
            n11: 0real,
        }),
        shift_v(params, p, m) == shift_u(params, p, m),
{
    let (a, b) = (params.p1.value(m), params.p2.value(m));
    vanishing_prism_u(a, b, params.sx1.value(m), p.x, p.y);
    vanishing_prism_v(a, b, params.sy1.value(m), p.x, p.y);
}

/// Without tangential and thin-prism terms the Jacobian of the thin-prism model is
/// that of its Kannala-Brandt part.
pub proof fn lemma_no_prism_jacobian(
    point: Vec3A,
    pinhole_params: PinholeParams,
    max_theta: Scalar,
    params: ThinPrismFisheyeParams<Scalar>,
    m: Model,
)
    requires
        has_no_prism(params, m),
    ensures
        calculate_project_jacobian_tpf(&point, &pinhole_params, &max_theta, &params).value(m)
            == calculate_project_jacobian_kb4(
            &point,
            &pinhole_params,
            &max_theta,
            &params.kb4,
        ).value(m),
{
    let p = point.value(m);
    let q = 1real / p.z;
    let (fx, fy) = (pinhole_params.fx.value(m), pinhole_params.fy.value(m));
    lemma_tpf_jacobian_value(point, pinhole_params, max_theta, params, m);
    lemma_no_shift(params, p, m);
    let (su, sv) = (shift_u(params, p, m), shift_v(params, p, m));
    vanishing_row(su.n, su.nx, su.ny, fx, q);
    vanishing_row(sv.n, sv.nx, sv.ny, fy, q);
    let ru = shift_row(fx, shift_u(params, p, m), q);
    let rv = shift_row(fy, shift_v(params, p, m), q);
    assert(ru.x == 0real && ru.y == 0real && ru.z == 0real);
    assert(rv.x == 0real && rv.y == 0real && rv.z == 0real);
}

/// Without tangential and thin-prism terms [`calculate_projection_vjp_tpf`] returns
/// what [`calculate_projection_vjp_kb4`] returns.
pub proof fn lemma_no_prism_vjp(
    jac: Mat2x3,
    mean_c: Vec3A,
    cov_c: Sym3,
    u: ProjectUniforms,
    v_cov2d: Sym2,
    v_mean2d: Vec2,
    params: ThinPrismFisheyeParams<Scalar>,
    m: Model,
)
    requires
        has_no_prism(params, m),
    ensures
        calculate_projection_vjp_tpf(
            &jac,
            &mean_c,
            &cov_c,
            &u,
            &v_cov2d,
            &v_mean2d,
            &params,
        ).value(m) == calculate_projection_vjp_kb4(
            &jac,
            &mean_c,
            &cov_c,
            &u,
            &v_cov2d,
            &v_mean2d,
            &params.kb4,
        ).value(m),
{
    let p = mean_c.value(m);
    let q = 1real / p.z;
    let (fx, fy) = (u.pinhole_params.fx.value(m), u.pinhole_params.fy.value(m));
    let (wu, wv) = entry_grads(jac.value(m), cov_c.value(m), v_cov2d.value(m));
    lemma_tpf_vjp_value(jac, mean_c, cov_c, u, v_cov2d, v_mean2d, params, m);
    lemma_no_shift(params, p, m);
    let s = shift_u(params, p, m);
    let hu = shift_second(s, q);
    let hv = shift_second(shift_v(params, p, m), q);
    vanishing_second(s.n, s.nx, s.ny, s.n00, s.n01, s.n11, q);
    assert(hu.h00 == 0real && hu.h01 == 0real && hu.h02 == 0real);
    assert(hu.h11 == 0real && hu.h12 == 0real && hu.h22 == 0real);
    assert(hv == hu);
    vanishing_shift(
        hu.h00, hv.h00, hu.h01, hv.h01, hu.h02, hv.h02, fx, fy, wu.x, wv.x, wu.y, wv.y, wu.z, wv.z,
    );
    vanishing_shift(
        hu.h01, hv.h01, hu.h11, hv.h11, hu.h12, hv.h12, fx, fy, wu.x, wv.x, wu.y, wv.y, wu.z, wv.z,
    );
    vanishing_shift(
        hu.h02, hv.h02, hu.h12, hv.h12, hu.h22, hv.h22, fx, fy, wu.x, wv.x, wu.y, wv.y, wu.z, wv.z,
    );
    let g = shift_grad(fx, fy, wu, wv, hu, hv);
    assert(g.x == 0real);
    assert(g.y == 0real);
    assert(g.z == 0real);
}

} // verus!
