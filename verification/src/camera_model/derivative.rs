//! The Jacobians of the fisheye models are the derivatives of their projections,
//! and their backward functions return gradients.
use crate::camera_model::algebra::{
    angle_rate, angle_x_rate, angle_y_rate, angle_z_rate, bend_xx_rate, bend_xy_rate, bend_yy_rate,
    chain_product, chain_slope, covariance_pairing, depth_relation, direction_x_rate,
    direction_y_rate, distance_rate, entry_x, entry_y, entry_z, gradient_pairing, image_rate,
    image_shape, pinhole_rate, root_times_reciprocal, slope_rate,
};
use crate::camera_model::kannala_brandt_4::{
    calculate_project_jacobian_kb4, calculate_projection_vjp_kb4, project_kb4,
};
use crate::camera_model::{KannalaBrandt4Params, PinholeParams, ProjectUniforms};
use crate::cube::meaning::{RMat2x3, RSym2, RSym3, RVec2, RVec3};
use crate::cube::{Mat2x3, Sym2, Sym3, Vec2, Vec3A};
use crate::expr::algebra::{
    dist_neg, div_is_mul, div_undone, mul_comm, mul_swap, product_not_zero, reciprocal,
};
use crate::expr::semantics::{group_rate, group_value, pow10, Model};
use crate::expr::{decimal, whole, Scalar};
use crate::kernels::gradients::{lemma_reciprocal_rate, root_rate};
use crate::kernels::unscented::image_rate as pair_rate;
use vstd::prelude::*;

verus! {

/// The camera does not change: neither its intrinsics, nor its distortion, nor
/// its field of view.
pub open spec fn camera_is_fixed(
    pinhole_params: PinholeParams,
    max_theta: Scalar,
    params: KannalaBrandt4Params<Scalar>,
    m: Model,
) -> bool {
    &&& pinhole_params.fx.constant(m)
    &&& pinhole_params.fy.constant(m)
    &&& pinhole_params.cx.constant(m)
    &&& pinhole_params.cy.constant(m)
    &&& max_theta.constant(m)
    &&& params.k1.constant(m)
    &&& params.k2.constant(m)
    &&& params.k3.constant(m)
    &&& params.k4.constant(m)
}

/// The distance of a point from the optical axis.
pub open spec fn axis_distance(p: RVec3, m: Model) -> real {
    (m.sqrt)(p.x * p.x + p.y * p.y)
}

/// The point is not so near the axis that the pinhole image stands in.
pub open spec fn off_axis(p: RVec3, m: Model) -> bool {
    axis_distance(p, m) >= pow10(-6)
}

/// The quantities that a fisheye projection is made of, at a point, with their
/// rates: the distance from the axis and its reciprocal, the reciprocal of the
/// squared distance from the camera, and the angle.
pub struct Polar {
    pub r: real,
    pub i: real,
    pub b: real,
    pub dr: real,
    pub di: real,
    pub db: real,
    pub dth: real,
}

pub open spec fn polar(p: RVec3, d: RVec3, m: Model) -> Polar {
    let n = p.x * p.x + p.y * p.y;
    let dn = (d.x * p.x + p.x * d.x) + (d.y * p.y + p.y * d.y);
    let r = (m.sqrt)(n);
    let dr = dn / (2real * r);
    let rho = n + p.z * p.z;
    let drho = dn + (d.z * p.z + p.z * d.z);
    Polar {
        r,
        i: 1real / r,
        b: 1real / rho,
        dr,
        di: (0real * r - 1real * dr) / (r * r),
        db: (0real * rho - 1real * drho) / (rho * rho),
        dth: (p.z * dr - r * d.z) / (p.z * p.z + r * r),
    }
}

/// A millionth is positive.
pub(crate) proof fn lemma_millionth()
    ensures
        pow10(-6) > 0real,
        pow10(-6) >= pow10(-8),
{
    assert(pow10(0) == 1real);
    assert(pow10(-1) == pow10(0) / 10real);
    assert(pow10(-2) == pow10(-1) / 10real);
    assert(pow10(-3) == pow10(-2) / 10real);
    assert(pow10(-4) == pow10(-3) / 10real);
    assert(pow10(-5) == pow10(-4) / 10real);
    assert(pow10(-6) == pow10(-5) / 10real);
    assert(pow10(-7) == pow10(-6) / 10real);
    assert(pow10(-8) == pow10(-7) / 10real);
}

/// A square is not negative.
proof fn lemma_square(x: real)
    ensures
        x * x >= 0real,
{
    assert(x * x >= 0real) by (nonlinear_arith);
}

/// How the quantities of [`Polar`] hang together.
pub(crate) proof fn lemma_polar(p: RVec3, d: RVec3, m: Model)
    requires
        m.sound(),
        off_axis(p, m),
    ensures
        ({
            let o = polar(p, d, m);
            let dn = (d.x * p.x + p.x * d.x) + (d.y * p.y + p.y * d.y);
            &&& o.r > 0real
            &&& o.r * o.r == p.x * p.x + p.y * p.y
            &&& o.r * o.i == 1real
            &&& (p.x * p.x + p.y * p.y) * (o.i * o.i) == 1real
            &&& (p.x * p.x + p.y * p.y + p.z * p.z) * o.b == 1real
            &&& p.z * p.z * (o.b * (o.i * o.i)) == o.i * o.i - o.b
            &&& 2real * o.dr == dn * o.i
            &&& o.di == -(o.dr * (o.i * o.i))
            &&& o.db == -((dn + (d.z * p.z + p.z * d.z)) * (o.b * o.b))
            &&& o.dth == (p.z * o.dr - o.r * d.z) * o.b
        }),
{
    let o = polar(p, d, m);
    let n = p.x * p.x + p.y * p.y;
    let dn = (d.x * p.x + p.x * d.x) + (d.y * p.y + p.y * d.y);
    let rho = n + p.z * p.z;
    let drho = dn + (d.z * p.z + p.z * d.z);
    lemma_millionth();
    lemma_square(p.x);
    lemma_square(p.y);
    lemma_square(p.z);
    assert(o.r * o.r == n);
    product_not_zero(o.r, o.r);
    reciprocal(o.r);
    root_times_reciprocal(p.x, p.y, o.r, o.i);
    assert(n > 0real);
    assert(rho > 0real);
    reciprocal(rho);
    depth_relation(p.x, p.y, p.z, o.i, o.b);
    div_undone(dn, 2real * o.r);
    root_rate(o.dr, o.r, o.i, dn);
    lemma_reciprocal_rate(o.r, o.dr);
    lemma_reciprocal_rate(rho, drho);
    assert(p.z * p.z + o.r * o.r == rho);
    div_is_mul(p.z * o.dr - o.r * d.z, rho);
}

/// The angle, its rate, and the slope of the distance from the principal point,
/// once the angle is limited.
pub struct Bent {
    pub t: real,
    pub dt: real,
    pub tx: real,
    pub ty: real,
    pub tz: real,
}

/// The angle of a point, limited to `max`, and its derivatives.
pub open spec fn bent(p: RVec3, d: RVec3, max: real, m: Model) -> Bent {
    let o = polar(p, d, m);
    let raw = (m.atan2)(o.r, p.z);
    if raw > max {
        Bent { t: max, dt: 0real, tx: 0real, ty: 0real, tz: 0real }
    } else {
        Bent {
            t: raw,
            dt: o.dth,
            tx: p.x * p.z * (o.b * o.i),
            ty: p.y * p.z * (o.b * o.i),
            tz: (-o.r) * o.b,
        }
    }
}

/// The rate of the limited angle is what its derivatives give.
pub(crate) proof fn lemma_bent(p: RVec3, d: RVec3, max: real, m: Model)
    requires
        m.sound(),
        off_axis(p, m),
    ensures
        ({
            let e = bent(p, d, max, m);
            e.dt == e.tx * d.x + e.ty * d.y + e.tz * d.z
        }),
{
    let o = polar(p, d, m);
    lemma_polar(p, d, m);
    angle_rate(p.x, p.y, p.z, o.r, o.i, o.b, d.x, d.y, d.z, o.dr);
}

/// The distorted distance of an angle.
pub open spec fn distance(k1: real, k2: real, k3: real, k4: real, t: real) -> real {
    t * (1real + k1 * (t * t) + k2 * ((t * t) * (t * t)) + k3 * (((t * t) * (t * t)) * (t * t)) + k4
        * (((t * t) * (t * t)) * ((t * t) * (t * t))))
}

/// The image of a point under the Kannala-Brandt model: off the axis it lies in the
/// direction of the point, at the distance that the polynomial gives the limited
/// angle; on the axis it is that of a pinhole.
pub proof fn lemma_kb4_image(
    point: Vec3A,
    pinhole_params: PinholeParams,
    max_theta: Scalar,
    params: KannalaBrandt4Params<Scalar>,
    m: Model,
)
    requires
        off_axis(point.value(m), m) || point.value(m).z != 0real,
    ensures
        ({
            let p = point.value(m);
            let r = axis_distance(p, m);
            let raw = (m.atan2)(r, p.z);
            let t = if raw <= max_theta.value(m) {
                raw
            } else {
                max_theta.value(m)
            };
            let (k1, k2) = (params.k1.value(m), params.k2.value(m));
            let (k3, k4) = (params.k3.value(m), params.k4.value(m));
            let (fx, fy) = (pinhole_params.fx.value(m), pinhole_params.fy.value(m));
            let (cx, cy) = (pinhole_params.cx.value(m), pinhole_params.cy.value(m));
            let image = project_kb4(&point, &pinhole_params, &max_theta, &params);
            if off_axis(p, m) {
                let d = distance(k1, k2, k3, k4, t);
                &&& image.0.value(m) == fx * (d * p.x / r) + cx
                &&& image.1.value(m) == fy * (d * p.y / r) + cy
            } else {
                &&& image.0.value(m) == fx * p.x / p.z + cx
                &&& image.1.value(m) == fy * p.y / p.z + cy
            }
        }),
{
    let p = point.value(m);
    let r = axis_distance(p, m);
    let (fx, fy) = (pinhole_params.fx.value(m), pinhole_params.fy.value(m));
    let near = (point.x * point.x + point.y * point.y).sqrt().lt(&decimal(1, (-6) as i32));
    assert(near.holds(m) == !off_axis(p, m)) by {
        broadcast use group_value;

        assert(1real * pow10(-6) == pow10(-6));
    }
    lemma_millionth();
    if off_axis(p, m) {
        let (k1, k2) = (params.k1.value(m), params.k2.value(m));
        let (k3, k4) = (params.k3.value(m), params.k4.value(m));
        let raw = (m.atan2)(r, p.z);
        let t = if raw <= max_theta.value(m) {
            raw
        } else {
            max_theta.value(m)
        };
        let d = distance(k1, k2, k3, k4, t);
        div_is_mul(d * p.x, r);
        div_is_mul(d * p.y, r);
        mul_comm(t * t, (t * t) * (t * t));
    } else {
        div_is_mul(fx * p.x, p.z);
        div_is_mul(fy * p.y, p.z);
    }
    broadcast use group_value;

}

/// The first derivative of [`distance`].
pub open spec fn slope(k1: real, k2: real, k3: real, k4: real, t: real) -> real {
    1real + 3real * k1 * (t * t) + 5real * k2 * ((t * t) * (t * t)) + 7real * k3 * (((t * t) * (t
        * t)) * (t * t)) + 9real * k4 * (((t * t) * (t * t)) * ((t * t) * (t * t)))
}

/// The second derivative of [`distance`].
pub open spec fn curvature(k1: real, k2: real, k3: real, k4: real, t: real) -> real {
    6real * k1 * t + 20real * k2 * t * (t * t) + 42real * k3 * t * ((t * t) * (t * t)) + 72real * k4
        * t * (((t * t) * (t * t)) * (t * t))
}

/// The terms of the angle that the projection and its Jacobian share.
proof fn lemma_angle_terms(point: Vec3A, max_theta: Scalar, m: Model)
    requires
        m.sound(),
        off_axis(point.value(m), m),
    ensures
        ({
            let p = point.value(m);
            let d = point.rate(m);
            let o = polar(p, d, m);
            let e = bent(p, d, max_theta.value(m), m);
            let r = (point.x * point.x + point.y * point.y).sqrt();
            let raw = r.atan2(&point.z);
            let theta = raw.min(&max_theta);
            &&& r.value(m) == o.r
            &&& r.rate(m) == o.dr
            &&& (whole(1) / r).value(m) == o.i
            &&& (whole(1) / r).rate(m) == o.di
            &&& theta.value(m) == e.t
            &&& max_theta.constant(m) ==> theta.rate(m) == e.dt
            &&& raw.gt(&max_theta).holds(m) == ((m.atan2)(o.r, p.z) > max_theta.value(m))
            &&& !r.lt(&decimal(1, (-6) as i32)).holds(m)
        }),
{
    broadcast use {group_value, group_rate};

    let p = point.value(m);
    let d = point.rate(m);
    let o = polar(p, d, m);
    let sq = point.x * point.x + point.y * point.y;
    assert(sq.value(m) == p.x * p.x + p.y * p.y);
    assert(sq.rate(m) == (d.x * p.x + p.x * d.x) + (d.y * p.y + p.y * d.y));
    let r = sq.sqrt();
    assert(r.value(m) == o.r);
    assert(r.rate(m) == o.dr);
    let raw = r.atan2(&point.z);
    assert(raw.value(m) == (m.atan2)(o.r, p.z));
    assert(raw.rate(m) == o.dth);
    assert(1real * pow10(-6) == pow10(-6));
}

/// The distance term and the slope term of the angle.
proof fn lemma_distance_terms(
    theta: Scalar,
    params: KannalaBrandt4Params<Scalar>,
    m: Model,
)
    ensures
        ({
            let fixed = params.k1.constant(m) && params.k2.constant(m) && params.k3.constant(m)
                && params.k4.constant(m);
            let (k1, k2, k3, k4) = (
                params.k1.value(m),
                params.k2.value(m),
                params.k3.value(m),
                params.k4.value(m),
            );
            let t = theta.value(m);
            let dt = theta.rate(m);
            let th2 = theta * theta;
            let th4 = th2 * th2;
            let th6 = th2 * th4;
            let th6b = th4 * th2;
            let th8 = th4 * th4;
            let a = theta * (whole(1) + params.k1 * th2 + params.k2 * th4 + params.k3 * th6
                + params.k4 * th8);
            let b = theta * (whole(1) + params.k1 * th2 + params.k2 * th4 + params.k3 * th6b
                + params.k4 * th8);
            let s = whole(1) + whole(3) * params.k1 * th2 + whole(5) * params.k2 * th4 + whole(7)
                * params.k3 * th6b + whole(9) * params.k4 * th8;
            &&& a.value(m) == distance(k1, k2, k3, k4, t)
            &&& b.value(m) == distance(k1, k2, k3, k4, t)
            &&& s.value(m) == slope(k1, k2, k3, k4, t)
            &&& fixed ==> a.rate(m) == slope(k1, k2, k3, k4, t) * dt
            &&& fixed ==> b.rate(m) == slope(k1, k2, k3, k4, t) * dt
            &&& fixed ==> s.rate(m) == curvature(k1, k2, k3, k4, t) * dt
        }),
{
    let (k1, k2, k3, k4) = (
        params.k1.value(m),
        params.k2.value(m),
        params.k3.value(m),
        params.k4.value(m),
    );
    let t = theta.value(m);
    let dt = theta.rate(m);
    distance_rate(k1, k2, k3, k4, t, dt);
    slope_rate(k1, k2, k3, k4, t, dt);
    broadcast use {group_value, group_rate};

    let th2 = theta * theta;
    let th4 = th2 * th2;
    let th6 = th2 * th4;
    let th6b = th4 * th2;
    let th8 = th4 * th4;
    let r2 = dt * t + t * dt;
    let r4 = r2 * (t * t) + (t * t) * r2;
    assert(th2.value(m) == t * t && th2.rate(m) == r2);
    assert(th4.value(m) == (t * t) * (t * t) && th4.rate(m) == r4);
    assert(th6.rate(m) == r2 * ((t * t) * (t * t)) + (t * t) * r4);
    assert(th6b.rate(m) == r4 * (t * t) + ((t * t) * (t * t)) * r2);
    assert(th8.rate(m) == r4 * ((t * t) * (t * t)) + ((t * t) * (t * t)) * r4);
    let sa = whole(1) + params.k1 * th2 + params.k2 * th4 + params.k3 * th6 + params.k4 * th8;
    let sb = whole(1) + params.k1 * th2 + params.k2 * th4 + params.k3 * th6b + params.k4 * th8;
    assert(sa.value(m) == 1real + k1 * (t * t) + k2 * ((t * t) * (t * t)) + k3 * ((t * t) * ((t * t)
        * (t * t))) + k4 * (((t * t) * (t * t)) * ((t * t) * (t * t))));
    assert(sb.value(m) == 1real + k1 * (t * t) + k2 * ((t * t) * (t * t)) + k3 * (((t * t) * (t
        * t)) * (t * t)) + k4 * (((t * t) * (t * t)) * ((t * t) * (t * t))));
    assert(sa.value(m) == sb.value(m));
    if params.k1.constant(m) && params.k2.constant(m) && params.k3.constant(m)
        && params.k4.constant(m) {
        assert(sa.rate(m) == k1 * r2 + k2 * r4 + k3 * th6.rate(m) + k4 * th8.rate(m));
        assert(sb.rate(m) == k1 * r2 + k2 * r4 + k3 * th6b.rate(m) + k4 * th8.rate(m));
    }
}

/// The directions in the image, and their rates.
pub(crate) proof fn lemma_directions(p: RVec3, d: RVec3, m: Model)
    requires
        m.sound(),
        off_axis(p, m),
    ensures
        ({
            let o = polar(p, d, m);
            let c = o.i * o.i * o.i;
            &&& d.x * o.i + p.x * o.di == (p.y * p.y * c) * d.x + ((-(p.x * p.y)) * c) * d.y
            &&& d.y * o.i + p.y * o.di == ((-(p.x * p.y)) * c) * d.x + (p.x * p.x * c) * d.y
        }),
{
    let o = polar(p, d, m);
    lemma_polar(p, d, m);
    direction_x_rate(p.x, p.y, o.i, d.x, d.y, o.dr, o.di);
    direction_y_rate(p.x, p.y, o.i, d.x, d.y, o.dr, o.di);
}

/// The image rate along one axis: focal length `f`, coordinate `x` with rate `dx`,
/// and the derivatives `bx`, `by` of its direction.
proof fn lemma_axis_image(
    f: real,
    x: real,
    dx: real,
    i: real,
    di: real,
    w: real,
    e: Bent,
    q: real,
    bx: real,
    by: real,
    d: RVec3,
)
    requires
        e.dt == e.tx * d.x + e.ty * d.y + e.tz * d.z,
        dx * i + x * di == bx * d.x + by * d.y,
    ensures
        f * (((q * e.dt) * x + w * dx) * i + (w * x) * di) == (f * ((q * e.tx) * (x * i) + w * bx))
            * d.x + (f * ((q * e.ty) * (x * i) + w * by)) * d.y + (f * ((q * e.tz) * (x * i)))
            * d.z,
{
    image_shape(q * e.dt, x, i, w, dx, di);
    chain_slope(q, e.tx, e.ty, e.tz, e.dt, d.x, d.y, d.z);
    image_rate(
        f,
        x * i,
        dx * i + x * di,
        w,
        q * e.dt,
        q * e.tx,
        q * e.ty,
        q * e.tz,
        bx,
        by,
        d.x,
        d.y,
        d.z,
    );
}

/// What the Jacobian denotes off the axis.
pub open spec fn fisheye_jacobian(
    p: RVec3,
    d: RVec3,
    fx: real,
    fy: real,
    w: real,
    q: real,
    e: Bent,
    i: real,
) -> RMat2x3 {
    let c = i * i * i;
    RMat2x3 {
        c0: RVec2 {
            x: fx * ((q * e.tx) * (p.x * i) + w * (p.y * p.y * c)),
            y: fy * ((q * e.tx) * (p.y * i) + w * ((-(p.x * p.y)) * c)),
        },
        c1: RVec2 {
            x: fx * ((q * e.ty) * (p.x * i) + w * ((-(p.x * p.y)) * c)),
            y: fy * ((q * e.ty) * (p.y * i) + w * (p.x * p.x * c)),
        },
        c2: RVec2 {
            x: fx * ((q * e.tz) * (p.x * i)),
            y: fy * ((q * e.tz) * (p.y * i)),
        },
    }
}

/// The Jacobian off the axis denotes [`fisheye_jacobian`].
pub proof fn lemma_jacobian_value(
    point: Vec3A,
    pinhole_params: PinholeParams,
    max_theta: Scalar,
    params: KannalaBrandt4Params<Scalar>,
    m: Model,
)
    requires
        m.sound(),
        off_axis(point.value(m), m),
    ensures
        ({
            let (k1, k2, k3, k4) = (
                params.k1.value(m),
                params.k2.value(m),
                params.k3.value(m),
                params.k4.value(m),
            );
            let p = point.value(m);
            let d = point.rate(m);
            let e = bent(p, d, max_theta.value(m), m);
            calculate_project_jacobian_kb4(&point, &pinhole_params, &max_theta, &params).value(m)
                == fisheye_jacobian(
                p,
                d,
                pinhole_params.fx.value(m),
                pinhole_params.fy.value(m),
                distance(k1, k2, k3, k4, e.t),
                slope(k1, k2, k3, k4, e.t),
                e,
                polar(p, d, m).i,
            )
        }),
{
    let p = point.value(m);
    let d = point.rate(m);
    let o = polar(p, d, m);
    let e = bent(p, d, max_theta.value(m), m);
    let r2 = point.x * point.x + point.y * point.y;
    let r = r2.sqrt();
    let raw = r.atan2(&point.z);
    let theta = raw.min(&max_theta);
    lemma_angle_terms(point, max_theta, m);
    lemma_distance_terms(theta, params, m);
    broadcast use group_value;

    let inv_r = whole(1) / r;
    let rho2 = r2 + point.z * point.z;
    let inv_rho2 = whole(1) / rho2;
    let sat = raw.gt(&max_theta);
    let zero = whole(0);
    assert(inv_rho2.value(m) == o.b);
    let inv_rho2_r = inv_rho2 * inv_r;
    assert(sat.select(&zero, &(point.x * point.z * inv_rho2_r)).value(m) == e.tx);
    assert(sat.select(&zero, &(point.y * point.z * inv_rho2_r)).value(m) == e.ty);
    assert(sat.select(&zero, &(-r * inv_rho2)).value(m) == e.tz);
    let j = calculate_project_jacobian_kb4(&point, &pinhole_params, &max_theta, &params).value(m);
    let (k1, k2, k3, k4) = (
        params.k1.value(m),
        params.k2.value(m),
        params.k3.value(m),
        params.k4.value(m),
    );
    let f = fisheye_jacobian(
        p,
        d,
        pinhole_params.fx.value(m),
        pinhole_params.fy.value(m),
        distance(k1, k2, k3, k4, e.t),
        slope(k1, k2, k3, k4, e.t),
        e,
        o.i,
    );
    assert(j.c0.x == f.c0.x);
    assert(j.c0.y == f.c0.y);
    assert(j.c1.x == f.c1.x);
    assert(j.c1.y == f.c1.y);
    assert(j.c2.x == f.c2.x);
    assert(j.c2.y == f.c2.y);
}

/// Off the axis, [`calculate_project_jacobian_kb4`] is the derivative of
/// [`project_kb4`]: the image of a moving point moves as the Jacobian says.
pub proof fn lemma_kb4_jacobian(
    point: Vec3A,
    pinhole_params: PinholeParams,
    max_theta: Scalar,
    params: KannalaBrandt4Params<Scalar>,
    m: Model,
)
    requires
        m.sound(),
        camera_is_fixed(pinhole_params, max_theta, params, m),
        off_axis(point.value(m), m),
    ensures
        pair_rate(project_kb4(&point, &pinhole_params, &max_theta, &params), m)
            == calculate_project_jacobian_kb4(
            &point,
            &pinhole_params,
            &max_theta,
            &params,
        ).value(m).apply(point.rate(m)),
{
    let (k1, k2, k3, k4) = (
        params.k1.value(m),
        params.k2.value(m),
        params.k3.value(m),
        params.k4.value(m),
    );
    let p = point.value(m);
    let d = point.rate(m);
    let o = polar(p, d, m);
    let e = bent(p, d, max_theta.value(m), m);
    let w = distance(k1, k2, k3, k4, e.t);
    let q = slope(k1, k2, k3, k4, e.t);
    let r = (point.x * point.x + point.y * point.y).sqrt();
    let theta = r.atan2(&point.z).min(&max_theta);
    lemma_angle_terms(point, max_theta, m);
    lemma_distance_terms(theta, params, m);
    lemma_bent(p, d, max_theta.value(m), m);
    lemma_directions(p, d, m);
    lemma_jacobian_value(point, pinhole_params, max_theta, params, m);
    let (fx, fy) = (pinhole_params.fx.value(m), pinhole_params.fy.value(m));
    let c = o.i * o.i * o.i;
    lemma_axis_image(
        fx,
        p.x,
        d.x,
        o.i,
        o.di,
        w,
        e,
        q,
        p.y * p.y * c,
        (-(p.x * p.y)) * c,
        d,
    );
    lemma_axis_image(
        fy,
        p.y,
        d.y,
        o.i,
        o.di,
        w,
        e,
        q,
        (-(p.x * p.y)) * c,
        p.x * p.x * c,
        d,
    );
    let image = project_kb4(&point, &pinhole_params, &max_theta, &params);
    assert(image.0.rate(m) == fx * (((q * e.dt) * p.x + w * d.x) * o.i + (w * p.x) * o.di)) by {
        broadcast use {group_value, group_rate};

    }
    assert(image.1.rate(m) == fy * (((q * e.dt) * p.y + w * d.y) * o.i + (w * p.y) * o.di)) by {
        broadcast use {group_value, group_rate};

    }
}

/// On the axis, [`calculate_project_jacobian_kb4`] is the derivative of the pinhole
/// image that stands in there.
pub proof fn lemma_kb4_jacobian_on_axis(
    point: Vec3A,
    pinhole_params: PinholeParams,
    max_theta: Scalar,
    params: KannalaBrandt4Params<Scalar>,
    m: Model,
)
    requires
        camera_is_fixed(pinhole_params, max_theta, params, m),
        !off_axis(point.value(m), m),
        point.value(m).z != 0real,
    ensures
        pair_rate(project_kb4(&point, &pinhole_params, &max_theta, &params), m)
            == calculate_project_jacobian_kb4(
            &point,
            &pinhole_params,
            &max_theta,
            &params,
        ).value(m).apply(point.rate(m)),
{
    let p = point.value(m);
    let d = point.rate(m);
    let (fx, fy) = (pinhole_params.fx.value(m), pinhole_params.fy.value(m));
    let q = 1real / p.z;
    let dq = (0real * p.z - 1real * d.z) / (p.z * p.z);
    lemma_reciprocal_rate(p.z, d.z);
    pinhole_rate(fx, p.x, q, d.x, d.z, dq);
    pinhole_rate(fy, p.y, q, d.y, d.z, dq);
    let image = project_kb4(&point, &pinhole_params, &max_theta, &params);
    let j = calculate_project_jacobian_kb4(&point, &pinhole_params, &max_theta, &params).value(m);
    let r = (point.x * point.x + point.y * point.y).sqrt();
    assert(r.lt(&decimal(1, (-6) as i32)).holds(m)) by {
        broadcast use group_value;

        assert(r.value(m) == axis_distance(p, m));
        assert(1real * pow10(-6) == pow10(-6));
    }
    assert(image.0.rate(m) == (fx * d.x) * q + (fx * p.x) * dq) by {
        broadcast use {group_value, group_rate};

    }
    assert(image.1.rate(m) == (fy * d.y) * q + (fy * p.y) * dq) by {
        broadcast use {group_value, group_rate};

    }
    assert(j == (RMat2x3 {
        c0: RVec2 { x: fx * q, y: 0real },
        c1: RVec2 { x: 0real, y: fy * q },
        c2: RVec2 { x: (-(fx * q)) * p.x * q, y: (-(fy * q)) * p.y * q },
    })) by {
        broadcast use group_value;

    }
}

/// The rates of the derivatives of the limited angle.
pub struct BentRate {
    pub tx: real,
    pub ty: real,
    pub tz: real,
}

pub open spec fn bent_rate(p: RVec3, d: RVec3, max: real, m: Model) -> BentRate {
    let o = polar(p, d, m);
    let raw = (m.atan2)(o.r, p.z);
    if raw > max {
        BentRate { tx: 0real, ty: 0real, tz: 0real }
    } else {
        BentRate {
            tx: (d.x * p.z + p.x * d.z) * (o.b * o.i) + (p.x * p.z) * (o.db * o.i + o.b * o.di),
            ty: (d.y * p.z + p.y * d.z) * (o.b * o.i) + (p.y * p.z) * (o.db * o.i + o.b * o.di),
            tz: (-o.dr) * o.b + (-o.r) * o.db,
        }
    }
}

/// A symmetric matrix of second derivatives.
pub struct Second {
    pub h00: real,
    pub h01: real,
    pub h02: real,
    pub h11: real,
    pub h12: real,
    pub h22: real,
}

/// The second derivatives of the angle.
pub open spec fn angle_second(p: RVec3, o: Polar) -> Second {
    let r2 = p.x * p.x + p.y * p.y;
    let rho2 = r2 + p.z * p.z;
    let t3 = 3real * r2 + p.z * p.z;
    let c = o.i * o.i * o.i;
    let bb = o.b * o.b;
    Second {
        h00: p.z * (r2 * rho2 - p.x * p.x * t3) * c * bb,
        h01: (-p.x) * p.y * p.z * t3 * c * bb,
        h02: p.x * (r2 - p.z * p.z) * o.i * bb,
        h11: p.z * (r2 * rho2 - p.y * p.y * t3) * c * bb,
        h12: p.y * (r2 - p.z * p.z) * o.i * bb,
        h22: 2real * p.z * o.r * bb,
    }
}

/// The second derivatives of the directions in the image: across, mixed and
/// along, for the one direction and the other.
pub struct Bend {
    pub x00: real,
    pub x01: real,
    pub x11: real,
    pub y11: real,
}

pub open spec fn bend(p: RVec3, i: real) -> Bend {
    let c = i * i * i;
    let q = c * i * i;
    Bend {
        x00: -3real * p.x * p.y * p.y * q,
        x01: p.y * (2real * p.x * p.x - p.y * p.y) * q,
        x11: p.x * (2real * p.y * p.y - p.x * p.x) * q,
        y11: -3real * p.x * p.x * p.y * q,
    }
}

/// The rates of the derivatives of the angle and of the directions.
pub(crate) proof fn lemma_second_rates(p: RVec3, d: RVec3, m: Model)
    requires
        m.sound(),
        off_axis(p, m),
    ensures
        ({
            let o = polar(p, d, m);
            let h = angle_second(p, o);
            let k = bend(p, o.i);
            let c = o.i * o.i * o.i;
            let dc = (o.di * o.i + o.i * o.di) * o.i + (o.i * o.i) * o.di;
            &&& (d.x * p.z + p.x * d.z) * (o.b * o.i) + (p.x * p.z) * (o.db * o.i + o.b * o.di)
                == h.h00 * d.x + h.h01 * d.y + h.h02 * d.z
            &&& (d.y * p.z + p.y * d.z) * (o.b * o.i) + (p.y * p.z) * (o.db * o.i + o.b * o.di)
                == h.h01 * d.x + h.h11 * d.y + h.h12 * d.z
            &&& (-o.dr) * o.b + (-o.r) * o.db == h.h02 * d.x + h.h12 * d.y + h.h22 * d.z
            &&& (d.y * p.y + p.y * d.y) * c + (p.y * p.y) * dc == k.x00 * d.x + k.x01 * d.y
            &&& (-(d.x * p.y + p.x * d.y)) * c + (-(p.x * p.y)) * dc == k.x01 * d.x + k.x11 * d.y
            &&& (d.x * p.x + p.x * d.x) * c + (p.x * p.x) * dc == k.x11 * d.x + k.y11 * d.y
        }),
{
    let o = polar(p, d, m);
    lemma_polar(p, d, m);
    angle_x_rate(p.x, p.y, p.z, o.i, o.b, d.x, d.y, d.z, o.dr, o.di, o.db);
    angle_y_rate(p.x, p.y, p.z, o.i, o.b, d.x, d.y, d.z, o.dr, o.di, o.db);
    angle_z_rate(p.x, p.y, p.z, o.r, o.i, o.b, d.x, d.y, d.z, o.dr, o.db);
    bend_xx_rate(p.x, p.y, o.i, d.x, d.y, o.dr, o.di);
    bend_xy_rate(p.x, p.y, o.i, d.x, d.y, o.dr, o.di);
    bend_yy_rate(p.x, p.y, o.i, d.x, d.y, o.dr, o.di);
}

/// What the first and the second derivative of the distance contribute: nothing
/// where the angle is limited.
pub struct Slopes {
    pub p1: real,
    pub p2: real,
    pub ax: real,
    pub ay: real,
    pub az: real,
}

pub open spec fn slopes(p: RVec3, o: Polar, q: real, k: real, max: real, m: Model) -> Slopes {
    let raw = (m.atan2)(o.r, p.z);
    Slopes {
        p1: if raw > max {
            0real
        } else {
            q
        },
        p2: if raw > max {
            0real
        } else {
            k
        },
        ax: p.x * p.z * (o.b * o.i),
        ay: p.y * p.z * (o.b * o.i),
        az: (-o.r) * o.b,
    }
}

/// The second derivatives of the distance, as a function of the point.
pub open spec fn distance_second(s: Slopes, h: Second) -> Second {
    Second {
        h00: s.p2 * s.ax * s.ax + s.p1 * h.h00,
        h01: s.p2 * s.ax * s.ay + s.p1 * h.h01,
        h02: s.p2 * s.ax * s.az + s.p1 * h.h02,
        h11: s.p2 * s.ay * s.ay + s.p1 * h.h11,
        h12: s.p2 * s.ay * s.az + s.p1 * h.h12,
        h22: s.p2 * s.az * s.az + s.p1 * h.h22,
    }
}

/// The rates of the derivatives of the distance, `q` being its slope and `k` its
/// curvature.
pub(crate) proof fn lemma_distance_second(p: RVec3, d: RVec3, q: real, k: real, max: real, m: Model)
    requires
        m.sound(),
        off_axis(p, m),
    ensures
        ({
            let o = polar(p, d, m);
            let e = bent(p, d, max, m);
            let f = bent_rate(p, d, max, m);
            let s = slopes(p, o, q, k, max, m);
            let g = distance_second(s, angle_second(p, o));
            &&& s.p1 * s.ax == q * e.tx
            &&& s.p1 * s.ay == q * e.ty
            &&& s.p1 * s.az == q * e.tz
            &&& (k * e.dt) * e.tx + q * f.tx == g.h00 * d.x + g.h01 * d.y + g.h02 * d.z
            &&& (k * e.dt) * e.ty + q * f.ty == g.h01 * d.x + g.h11 * d.y + g.h12 * d.z
            &&& (k * e.dt) * e.tz + q * f.tz == g.h02 * d.x + g.h12 * d.y + g.h22 * d.z
        }),
{
    let o = polar(p, d, m);
    let e = bent(p, d, max, m);
    let f = bent_rate(p, d, max, m);
    let s = slopes(p, o, q, k, max, m);
    let h = angle_second(p, o);
    lemma_second_rates(p, d, m);
    lemma_bent(p, d, max, m);
    if (m.atan2)(o.r, p.z) <= max {
        chain_product(
            k, e.dt, e.tx, q, f.tx, h.h00, h.h01, h.h02, e.tx, e.ty, e.tz, d.x, d.y, d.z,
        );
        chain_product(
            k, e.dt, e.ty, q, f.ty, h.h01, h.h11, h.h12, e.tx, e.ty, e.tz, d.x, d.y, d.z,
        );
        chain_product(
            k, e.dt, e.tz, q, f.tz, h.h02, h.h12, h.h22, e.tx, e.ty, e.tz, d.x, d.y, d.z,
        );
        mul_swap(k, e.tx, e.ty);
        mul_swap(k, e.tx, e.tz);
        mul_swap(k, e.ty, e.tz);
    } else {
        assert(s.p1 == 0real && s.p2 == 0real);
        assert(s.p1 * s.ax == 0real && s.p1 * s.ay == 0real && s.p1 * s.az == 0real);
        assert(q * 0real == 0real);
        assert(k * 0real == 0real);
        let g = distance_second(s, h);
        assert(g.h00 == 0real && g.h01 == 0real && g.h02 == 0real);
        assert(g.h11 == 0real && g.h12 == 0real && g.h22 == 0real);
    }
}

/// The second derivatives of the image along one axis: entry `d01` is that of the
/// derivative by the first coordinate, by the second.
pub struct AxisSecond {
    pub d00: real,
    pub d01: real,
    pub d02: real,
    pub d10: real,
    pub d11: real,
    pub d12: real,
    pub d20: real,
    pub d21: real,
    pub d22: real,
}

/// The direction of an axis, its first and its second derivatives.
pub struct Direction {
    pub w: real,
    pub bx: real,
    pub by: real,
    pub k00: real,
    pub k01: real,
    pub k11: real,
}

pub open spec fn direction_x(p: RVec3, i: real) -> Direction {
    let c = i * i * i;
    let k = bend(p, i);
    Direction {
        w: p.x * i,
        bx: p.y * p.y * c,
        by: (-(p.x * p.y)) * c,
        k00: k.x00,
        k01: k.x01,
        k11: k.x11,
    }
}

pub open spec fn direction_y(p: RVec3, i: real) -> Direction {
    let c = i * i * i;
    let k = bend(p, i);
    Direction {
        w: p.y * i,
        bx: (-(p.x * p.y)) * c,
        by: p.x * p.x * c,
        k00: k.x01,
        k01: k.x11,
        k11: k.y11,
    }
}

pub open spec fn axis_second(f: real, n: Direction, t: real, s: Slopes, g: Second) -> AxisSecond {
    let g0 = s.p1 * s.ax;
    let g1 = s.p1 * s.ay;
    let g2 = s.p1 * s.az;
    AxisSecond {
        d00: f * (g.h00 * n.w + g0 * n.bx + g0 * n.bx + t * n.k00),
        d01: f * (g.h01 * n.w + g0 * n.by + g1 * n.bx + t * n.k01),
        d02: f * (g.h02 * n.w + g2 * n.bx + g0 * 0real),
        d10: f * (g.h01 * n.w + g1 * n.bx + g0 * n.by + t * n.k01),
        d11: f * (g.h11 * n.w + g1 * n.by + g1 * n.by + t * n.k11),
        d12: f * (g.h12 * n.w + g2 * n.by + g1 * 0real),
        d20: f * (g.h02 * n.w + g0 * 0real + g2 * n.bx),
        d21: f * (g.h12 * n.w + g1 * 0real + g2 * n.by),
        d22: f * (g.h22 * n.w),
    }
}

/// The rates of the derivatives of the image along one axis, from the rates of
/// their parts.
pub(crate) proof fn lemma_axis_rates(
    f: real,
    n: Direction,
    wr: real,
    bxr: real,
    byr: real,
    t: real,
    tr: real,
    s: Slopes,
    g: Second,
    g0r: real,
    g1r: real,
    g2r: real,
    d: RVec3,
)
    requires
        wr == n.bx * d.x + n.by * d.y,
        bxr == n.k00 * d.x + n.k01 * d.y,
        byr == n.k01 * d.x + n.k11 * d.y,
        tr == (s.p1 * s.ax) * d.x + (s.p1 * s.ay) * d.y + (s.p1 * s.az) * d.z,
        g0r == g.h00 * d.x + g.h01 * d.y + g.h02 * d.z,
        g1r == g.h01 * d.x + g.h11 * d.y + g.h12 * d.z,
        g2r == g.h02 * d.x + g.h12 * d.y + g.h22 * d.z,
    ensures
        ({
            let e = axis_second(f, n, t, s, g);
            let g0 = s.p1 * s.ax;
            let g1 = s.p1 * s.ay;
            let g2 = s.p1 * s.az;
            &&& f * ((g0r * n.w + g0 * wr) + (tr * n.bx + t * bxr)) == e.d00 * d.x + e.d01 * d.y
                + e.d02 * d.z
            &&& f * ((g1r * n.w + g1 * wr) + (tr * n.by + t * byr)) == e.d10 * d.x + e.d11 * d.y
                + e.d12 * d.z
            &&& f * (g2r * n.w + g2 * wr) == e.d20 * d.x + e.d21 * d.y + e.d22 * d.z
        }),
{
    let g0 = s.p1 * s.ax;
    let g1 = s.p1 * s.ay;
    let g2 = s.p1 * s.az;
    entry_x(
        f, g0r, g0, g1, g2, n.w, wr, tr, t, n.bx, n.by, bxr, g.h00, g.h01, g.h02, n.k00, n.k01, d.x,
        d.y, d.z,
    );
    entry_y(
        f, g1r, g0, g1, g2, n.w, wr, tr, t, n.bx, n.by, byr, g.h01, g.h11, g.h12, n.k01, n.k11, d.x,
        d.y, d.z,
    );
    entry_z(f, g2r, g0, g1, g2, n.w, wr, n.bx, n.by, g.h02, g.h12, g.h22, d.x, d.y, d.z);
}

/// The second derivatives of the image of a point.
pub struct ImageSecond {
    pub u: AxisSecond,
    pub v: AxisSecond,
}

pub open spec fn image_second(
    p: RVec3,
    o: Polar,
    fx: real,
    fy: real,
    k1: real,
    k2: real,
    k3: real,
    k4: real,
    max: real,
    m: Model,
) -> ImageSecond {
    let raw = (m.atan2)(o.r, p.z);
    let t = if raw > max {
        max
    } else {
        raw
    };
    let w = distance(k1, k2, k3, k4, t);
    let s = slopes(
        p,
        o,
        slope(k1, k2, k3, k4, t),
        curvature(k1, k2, k3, k4, t),
        max,
        m,
    );
    let g = distance_second(s, angle_second(p, o));
    ImageSecond {
        u: axis_second(fx, direction_x(p, o.i), w, s, g),
        v: axis_second(fy, direction_y(p, o.i), w, s, g),
    }
}

/// The rate of the Jacobian off the axis is given by the second derivatives.
pub proof fn lemma_jacobian_rate(
    point: Vec3A,
    pinhole_params: PinholeParams,
    max_theta: Scalar,
    params: KannalaBrandt4Params<Scalar>,
    m: Model,
)
    requires
        m.sound(),
        camera_is_fixed(pinhole_params, max_theta, params, m),
        off_axis(point.value(m), m),
    ensures
        ({
            let p = point.value(m);
            let d = point.rate(m);
            let e = image_second(
                p,
                polar(p, d, m),
                pinhole_params.fx.value(m),
                pinhole_params.fy.value(m),
                params.k1.value(m),
                params.k2.value(m),
                params.k3.value(m),
                params.k4.value(m),
                max_theta.value(m),
                m,
            );
            let j = calculate_project_jacobian_kb4(
                &point,
                &pinhole_params,
                &max_theta,
                &params,
            ).rate(m);
            &&& j.c0.x == e.u.d00 * d.x + e.u.d01 * d.y + e.u.d02 * d.z
            &&& j.c1.x == e.u.d10 * d.x + e.u.d11 * d.y + e.u.d12 * d.z
            &&& j.c2.x == e.u.d20 * d.x + e.u.d21 * d.y + e.u.d22 * d.z
            &&& j.c0.y == e.v.d00 * d.x + e.v.d01 * d.y + e.v.d02 * d.z
            &&& j.c1.y == e.v.d10 * d.x + e.v.d11 * d.y + e.v.d12 * d.z
            &&& j.c2.y == e.v.d20 * d.x + e.v.d21 * d.y + e.v.d22 * d.z
        }),
{
    let (k1, k2, k3, k4) = (
        params.k1.value(m),
        params.k2.value(m),
        params.k3.value(m),
        params.k4.value(m),
    );
    let (fx, fy) = (pinhole_params.fx.value(m), pinhole_params.fy.value(m));
    let max = max_theta.value(m);
    let p = point.value(m);
    let d = point.rate(m);
    let o = polar(p, d, m);
    let e = bent(p, d, max, m);
    let f = bent_rate(p, d, max, m);
    let t = distance(k1, k2, k3, k4, e.t);
    let q = slope(k1, k2, k3, k4, e.t);
    let k = curvature(k1, k2, k3, k4, e.t);
    let s = slopes(p, o, q, k, max, m);
    let g = distance_second(s, angle_second(p, o));
    let r2 = point.x * point.x + point.y * point.y;
    let r = r2.sqrt();
    let raw = r.atan2(&point.z);
    let theta = raw.min(&max_theta);
    lemma_polar(p, d, m);
    lemma_angle_terms(point, max_theta, m);
    lemma_distance_terms(theta, params, m);
    lemma_bent(p, d, max, m);
    lemma_directions(p, d, m);
    lemma_second_rates(p, d, m);
    lemma_distance_second(p, d, q, k, max, m);
    chain_slope(q, e.tx, e.ty, e.tz, e.dt, d.x, d.y, d.z);
    let c = o.i * o.i * o.i;
    let dc = (o.di * o.i + o.i * o.di) * o.i + (o.i * o.i) * o.di;
    let nx = direction_x(p, o.i);
    let ny = direction_y(p, o.i);
    let xwr = d.x * o.i + p.x * o.di;
    let ywr = d.y * o.i + p.y * o.di;
    let xxr = (d.y * p.y + p.y * d.y) * c + (p.y * p.y) * dc;
    let xyr = (-(d.x * p.y + p.x * d.y)) * c + (-(p.x * p.y)) * dc;
    let yyr = (d.x * p.x + p.x * d.x) * c + (p.x * p.x) * dc;
    let g0r = (k * e.dt) * e.tx + q * f.tx;
    let g1r = (k * e.dt) * e.ty + q * f.ty;
    let g2r = (k * e.dt) * e.tz + q * f.tz;
    lemma_axis_rates(fx, nx, xwr, xxr, xyr, t, q * e.dt, s, g, g0r, g1r, g2r, d);
    lemma_axis_rates(fy, ny, ywr, xyr, yyr, t, q * e.dt, s, g, g0r, g1r, g2r, d);
    broadcast use {group_value, group_rate};

    let inv_r = whole(1) / r;
    let inv_r3 = inv_r * inv_r * inv_r;
    assert(inv_r3.value(m) == c && inv_r3.rate(m) == dc);
    let rho2 = r2 + point.z * point.z;
    let inv_rho2 = whole(1) / rho2;
    assert(inv_rho2.value(m) == o.b && inv_rho2.rate(m) == o.db);
    let inv_rho2_r = inv_rho2 * inv_r;
    let sat = raw.gt(&max_theta);
    let zero = whole(0);
    let dth_dx = sat.select(&zero, &(point.x * point.z * inv_rho2_r));
    let dth_dy = sat.select(&zero, &(point.y * point.z * inv_rho2_r));
    let dth_dz = sat.select(&zero, &(-r * inv_rho2));
    assert(dth_dx.value(m) == e.tx && dth_dx.rate(m) == f.tx);
    assert(dth_dy.value(m) == e.ty && dth_dy.rate(m) == f.ty);
    assert(dth_dz.value(m) == e.tz && dth_dz.rate(m) == f.tz);
    let th2 = theta * theta;
    let th4 = th2 * th2;
    let th6 = th4 * th2;
    let th8 = th4 * th4;
    let dist = theta * (whole(1) + params.k1 * th2 + params.k2 * th4 + params.k3 * th6 + params.k4
        * th8);
    let slo = whole(1) + whole(3) * params.k1 * th2 + whole(5) * params.k2 * th4 + whole(7)
        * params.k3 * th6 + whole(9) * params.k4 * th8;
    assert(dist.value(m) == t && dist.rate(m) == q * e.dt);
    assert(slo.value(m) == q && slo.rate(m) == k * e.dt);
    let dd_dx = slo * dth_dx;
    let dd_dy = slo * dth_dy;
    let dd_dz = slo * dth_dz;
    assert(dd_dx.value(m) == s.p1 * s.ax && dd_dx.rate(m) == g0r);
    assert(dd_dy.value(m) == s.p1 * s.ay && dd_dy.rate(m) == g1r);
    assert(dd_dz.value(m) == s.p1 * s.az && dd_dz.rate(m) == g2r);
    let xr = point.x * inv_r;
    let yr = point.y * inv_r;
    assert(xr.value(m) == nx.w && xr.rate(m) == xwr);
    assert(yr.value(m) == ny.w && yr.rate(m) == ywr);
    let x2 = point.x * point.x;
    let y2 = point.y * point.y;
    let xy = point.x * point.y;
    let dxr_dx = y2 * inv_r3;
    let dxr_dy = -xy * inv_r3;
    let dyr_dy = x2 * inv_r3;
    assert(dxr_dx.value(m) == nx.bx && dxr_dx.rate(m) == xxr);
    assert(dxr_dy.value(m) == nx.by && dxr_dy.rate(m) == xyr);
    assert(dyr_dy.value(m) == ny.by && dyr_dy.rate(m) == yyr);
    let j = calculate_project_jacobian_kb4(&point, &pinhole_params, &max_theta, &params);
    let g0 = s.p1 * s.ax;
    let g1 = s.p1 * s.ay;
    let g2 = s.p1 * s.az;
    assert(j.c0.x.rate(m) == fx * ((g0r * nx.w + g0 * xwr) + ((q * e.dt) * nx.bx + t * xxr)));
    assert(j.c1.x.rate(m) == fx * ((g1r * nx.w + g1 * xwr) + ((q * e.dt) * nx.by + t * xyr)));
    assert(j.c2.x.rate(m) == fx * (g2r * nx.w + g2 * xwr));
    assert(j.c0.y.rate(m) == fy * ((g0r * ny.w + g0 * ywr) + ((q * e.dt) * ny.bx + t * xyr)));
    assert(j.c1.y.rate(m) == fy * ((g1r * ny.w + g1 * ywr) + ((q * e.dt) * ny.by + t * yyr)));
    assert(j.c2.y.rate(m) == fy * (g2r * ny.w + g2 * ywr));
}

/// The gradient of the entries of the Jacobian, as a traced pair of rows.
pub open spec fn entry_grads(j: RMat2x3, c: RSym3, v: RSym2) -> (RVec3, RVec3) {
    let tu = RVec3 {
        x: v.c00 * j.c0.x + v.c01 * j.c0.y,
        y: v.c00 * j.c1.x + v.c01 * j.c1.y,
        z: v.c00 * j.c2.x + v.c01 * j.c2.y,
    };
    let tv = RVec3 {
        x: v.c01 * j.c0.x + v.c11 * j.c0.y,
        y: v.c01 * j.c1.x + v.c11 * j.c1.y,
        z: v.c01 * j.c2.x + v.c11 * j.c2.y,
    };
    let c0 = RVec3 { x: c.c00, y: c.c01, z: c.c02 };
    let c1 = RVec3 { x: c.c01, y: c.c11, z: c.c12 };
    let c2 = RVec3 { x: c.c02, y: c.c12, z: c.c22 };
    (
        RVec3 { x: 2real * tu.dot(c0), y: 2real * tu.dot(c1), z: 2real * tu.dot(c2) },
        RVec3 { x: 2real * tv.dot(c0), y: 2real * tv.dot(c1), z: 2real * tv.dot(c2) },
    )
}

/// The gradient of the projected covariance pairs with the rate of the Jacobian.
pub proof fn lemma_covariance_pairing(j: RMat2x3, d: RMat2x3, c: RSym3, v: RSym2)
    ensures
        ({
            let (wu, wv) = entry_grads(j, c, v);
            v.inner(j.sandwich_rate(d, c)) == wu.x * d.c0.x + wv.x * d.c0.y + wu.y * d.c1.x + wv.y
                * d.c1.y + wu.z * d.c2.x + wv.z * d.c2.y
        }),
{
    covariance_pairing(
        v.c00, v.c01, v.c11, j.c0.x, j.c0.y, j.c1.x, j.c1.y, j.c2.x, j.c2.y, d.c0.x, d.c0.y, d.c1.x,
        d.c1.y, d.c2.x, d.c2.y, c.c00, c.c01, c.c02, c.c11, c.c12, c.c22,
    );
}

/// The gradient with respect to the mean, from the second derivatives.
pub open spec fn mean_grad(
    j: RMat2x3,
    n: RVec2,
    wu: RVec3,
    wv: RVec3,
    e: ImageSecond,
) -> RVec3 {
    RVec3 {
        x: (n.x * j.c0.x + n.y * j.c0.y) + (wu.x * e.u.d00 + wv.x * e.v.d00) + (wu.y * e.u.d10
            + wv.y * e.v.d10) + (wu.z * e.u.d20 + wv.z * e.v.d20),
        y: (n.x * j.c1.x + n.y * j.c1.y) + (wu.x * e.u.d01 + wv.x * e.v.d01) + (wu.y * e.u.d11
            + wv.y * e.v.d11) + (wu.z * e.u.d21 + wv.z * e.v.d21),
        z: (n.x * j.c2.x + n.y * j.c2.y) + (wu.x * e.u.d02 + wv.x * e.v.d02) + (wu.y * e.u.d12
            + wv.y * e.v.d12) + (wu.z * e.u.d22 + wv.z * e.v.d22),
    }
}

/// The quantities of [`Polar`] at a point that is kept off the axis: one that is nearer than
/// a hundred-millionth counts as that far away.
pub open spec fn kept_off(p: RVec3, d: RVec3, m: Model) -> Polar {
    let o = polar(p, d, m);
    let r = if o.r >= pow10(-8) {
        o.r
    } else {
        pow10(-8)
    };
    Polar { r, i: 1real / r, ..o }
}

/// What [`calculate_projection_vjp_kb4`] denotes for any Jacobian: the gradient by the second
/// derivatives of the image, at the distance from the axis that is kept off it.
pub proof fn lemma_vjp_value_kept_off(
    jac: Mat2x3,
    mean_c: Vec3A,
    cov_c: Sym3,
    u: ProjectUniforms,
    v_cov2d: Sym2,
    v_mean2d: Vec2,
    params: KannalaBrandt4Params<Scalar>,
    m: Model,
)
    ensures
        ({
            let p = mean_c.value(m);
            let d = mean_c.rate(m);
            let e = image_second(
                p,
                kept_off(p, d, m),
                u.pinhole_params.fx.value(m),
                u.pinhole_params.fy.value(m),
                params.k1.value(m),
                params.k2.value(m),
                params.k3.value(m),
                params.k4.value(m),
                u.half_max_render_fov.value(m),
                m,
            );
            let (wu, wv) = entry_grads(jac.value(m), cov_c.value(m), v_cov2d.value(m));
            calculate_projection_vjp_kb4(
                &jac,
                &mean_c,
                &cov_c,
                &u,
                &v_cov2d,
                &v_mean2d,
                &params,
            ).value(m) == mean_grad(jac.value(m), v_mean2d.value(m), wu, wv, e)
        }),
{
    let (k1, k2, k3, k4) = (
        params.k1.value(m),
        params.k2.value(m),
        params.k3.value(m),
        params.k4.value(m),
    );
    let (fx, fy) = (u.pinhole_params.fx.value(m), u.pinhole_params.fy.value(m));
    let max = u.half_max_render_fov.value(m);
    let p = mean_c.value(m);
    let d = mean_c.rate(m);
    let o = kept_off(p, d, m);
    let (mx, my, mz) = (mean_c.x, mean_c.y, mean_c.z);
    let r2 = mx * mx + my * my;
    let root = r2.sqrt();
    let r = root.max(&decimal(1, (-8) as i32));
    let raw = r.atan2(&mz);
    let theta = raw.min(&u.half_max_render_fov);
    let zero = whole(0);
    lemma_distance_terms(theta, params, m);
    let t0 = (m.atan2)(o.r, p.z);
    let t = if t0 > max {
        max
    } else {
        t0
    };
    let w = distance(k1, k2, k3, k4, t);
    let q = slope(k1, k2, k3, k4, t);
    let k = curvature(k1, k2, k3, k4, t);
    let s = slopes(p, o, q, k, max, m);
    let h = angle_second(p, o);
    let g = distance_second(s, h);
    let b = bend(p, o.i);
    let nx = direction_x(p, o.i);
    let ny = direction_y(p, o.i);
    let eu = axis_second(fx, nx, w, s, g);
    let ev = axis_second(fy, ny, w, s, g);
    mul_swap(s.p2, s.ax, s.ay);
    mul_swap(s.p2, s.ax, s.az);
    mul_swap(s.p2, s.ay, s.az);
    dist_neg(p.x, p.y);
    broadcast use group_value;

    assert(1real * pow10(-8) == pow10(-8));
    assert(r.value(m) == o.r);
    assert(raw.value(m) == t0);
    assert(theta.value(m) == t);
    let sat = raw.gt(&u.half_max_render_fov);
    assert(sat.holds(m) == (t0 > max));
    let th2 = theta * theta;
    let th4 = th2 * th2;
    let th6 = th4 * th2;
    let th8 = th4 * th4;
    let theta_d = theta * (whole(1) + params.k1 * th2 + params.k2 * th4 + params.k3 * th6
        + params.k4 * th8);
    assert(theta_d.value(m) == w);
    let p1 = sat.select(
        &zero,
        &(whole(1) + whole(3) * params.k1 * th2 + whole(5) * params.k2 * th4 + whole(7) * params.k3
            * th6 + whole(9) * params.k4 * th8),
    );
    let p2 = sat.select(
        &zero,
        &(whole(6) * params.k1 * theta + whole(20) * params.k2 * theta * th2 + whole(42) * params.k3
            * theta * th4 + whole(72) * params.k4 * theta * th6),
    );
    assert(p1.value(m) == s.p1);
    assert(p2.value(m) == s.p2);
    let inv_r = whole(1) / r;
    let inv_r3 = inv_r * inv_r * inv_r;
    let inv_r5 = inv_r3 * inv_r * inv_r;
    let rho2 = r2 + mz * mz;
    let inv_rho2 = whole(1) / rho2;
    let inv_rho2_sq = inv_rho2 * inv_rho2;
    let inv_rho2_r = inv_rho2 * inv_r;
    assert(inv_r.value(m) == o.i);
    assert(inv_rho2.value(m) == o.b);
    let dth_x = mx * mz * inv_rho2_r;
    let dth_y = my * mz * inv_rho2_r;
    let dth_z = -r * inv_rho2;
    assert(dth_x.value(m) == s.ax);
    assert(dth_y.value(m) == s.ay);
    assert(dth_z.value(m) == s.az);
    let xr = mx * inv_r;
    let yr = my * inv_r;
    let dxr_x = my * my * inv_r3;
    let dxr_y = -mx * my * inv_r3;
    let dyr_x = dxr_y;
    let dyr_y = mx * mx * inv_r3;
    assert(xr.value(m) == nx.w && yr.value(m) == ny.w);
    assert(dxr_x.value(m) == nx.bx);
    assert(dxr_y.value(m) == nx.by);
    assert(dyr_y.value(m) == ny.by);
    let dg_x = p1 * dth_x;
    let dg_y = p1 * dth_y;
    let dg_z = p1 * dth_z;
    let three_r2_z2 = whole(3) * r2 + mz * mz;
    let r2_minus_z2 = r2 - mz * mz;
    let h_th_00 = mz * (r2 * rho2 - mx * mx * three_r2_z2) * inv_r3 * inv_rho2_sq;
    let h_th_11 = mz * (r2 * rho2 - my * my * three_r2_z2) * inv_r3 * inv_rho2_sq;
    let h_th_01 = -mx * my * mz * three_r2_z2 * inv_r3 * inv_rho2_sq;
    let h_th_02 = mx * r2_minus_z2 * inv_r * inv_rho2_sq;
    let h_th_12 = my * r2_minus_z2 * inv_r * inv_rho2_sq;
    let h_th_22 = whole(2) * mz * r * inv_rho2_sq;
    assert(h_th_00.value(m) == h.h00);
    assert(h_th_11.value(m) == h.h11);
    assert(h_th_01.value(m) == h.h01);
    assert(h_th_02.value(m) == h.h02);
    assert(h_th_12.value(m) == h.h12);
    assert(h_th_22.value(m) == h.h22);
    let two_x2_my2 = whole(2) * mx * mx - my * my;
    let two_y2_mx2 = whole(2) * my * my - mx * mx;
    let h_xr_00 = whole((-3) as i64) * mx * my * my * inv_r5;
    let h_xr_01 = my * two_x2_my2 * inv_r5;
    let h_xr_11 = mx * two_y2_mx2 * inv_r5;
    let h_yr_11 = whole((-3) as i64) * mx * mx * my * inv_r5;
    assert(h_xr_00.value(m) == b.x00);
    assert(h_xr_01.value(m) == b.x01);
    assert(h_xr_11.value(m) == b.x11);
    assert(h_yr_11.value(m) == b.y11);
    let g00 = p2 * dth_x * dth_x + p1 * h_th_00;
    assert(g00.value(m) == g.h00);
    let g10 = p2 * dth_y * dth_x + p1 * h_th_01;
    assert(g10.value(m) == g.h01);
    let g20 = p2 * dth_z * dth_x + p1 * h_th_02;
    assert(g20.value(m) == g.h02);
    let g01 = p2 * dth_x * dth_y + p1 * h_th_01;
    assert(g01.value(m) == g.h01);
    let g11 = p2 * dth_y * dth_y + p1 * h_th_11;
    assert(g11.value(m) == g.h11);
    let g21 = p2 * dth_z * dth_y + p1 * h_th_12;
    assert(g21.value(m) == g.h12);
    let g02 = p2 * dth_x * dth_z + p1 * h_th_02;
    assert(g02.value(m) == g.h02);
    let g12 = p2 * dth_y * dth_z + p1 * h_th_12;
    assert(g12.value(m) == g.h12);
    let g22 = p2 * dth_z * dth_z + p1 * h_th_22;
    assert(g22.value(m) == g.h22);
    let d_u00 = u.pinhole_params.fx * (g00 * xr + dg_x * dxr_x + dg_x * dxr_x + theta_d * h_xr_00);
    assert(d_u00.value(m) == eu.d00);
    let d_v00 = u.pinhole_params.fy * (g00 * yr + dg_x * dyr_x + dg_x * dyr_x + theta_d * h_xr_01);
    assert(d_v00.value(m) == ev.d00);
    let d_u10 = u.pinhole_params.fx * (g10 * xr + dg_y * dxr_x + dg_x * dxr_y + theta_d * h_xr_01);
    assert(d_u10.value(m) == eu.d10);
    let d_v10 = u.pinhole_params.fy * (g10 * yr + dg_y * dyr_x + dg_x * dyr_y + theta_d * h_xr_11);
    assert(d_v10.value(m) == ev.d10);
    let d_u20 = u.pinhole_params.fx * (g20 * xr + dg_x * zero + dg_z * dxr_x);
    assert(d_u20.value(m) == eu.d20);
    let d_v20 = u.pinhole_params.fy * (g20 * yr + dg_x * zero + dg_z * dyr_x);
    assert(d_v20.value(m) == ev.d20);
    let d_u01 = u.pinhole_params.fx * (g01 * xr + dg_x * dxr_y + dg_y * dxr_x + theta_d * h_xr_01);
    assert(d_u01.value(m) == eu.d01);
    let d_v01 = u.pinhole_params.fy * (g01 * yr + dg_x * dyr_y + dg_y * dyr_x + theta_d * h_xr_11);
    assert(d_v01.value(m) == ev.d01);
    let d_u11 = u.pinhole_params.fx * (g11 * xr + dg_y * dxr_y + dg_y * dxr_y + theta_d * h_xr_11);
    assert(d_u11.value(m) == eu.d11);
    let d_v11 = u.pinhole_params.fy * (g11 * yr + dg_y * dyr_y + dg_y * dyr_y + theta_d * h_yr_11);
    assert(d_v11.value(m) == ev.d11);
    let d_u21 = u.pinhole_params.fx * (g21 * xr + dg_y * zero + dg_z * dxr_y);
    assert(d_u21.value(m) == eu.d21);
    let d_v21 = u.pinhole_params.fy * (g21 * yr + dg_y * zero + dg_z * dyr_y);
    assert(d_v21.value(m) == ev.d21);
    let d_u02 = u.pinhole_params.fx * (g02 * xr + dg_z * dxr_x + dg_x * zero);
    assert(d_u02.value(m) == eu.d02);
    let d_v02 = u.pinhole_params.fy * (g02 * yr + dg_z * dyr_x + dg_x * zero);
    assert(d_v02.value(m) == ev.d02);
    let d_u12 = u.pinhole_params.fx * (g12 * xr + dg_z * dxr_y + dg_y * zero);
    assert(d_u12.value(m) == eu.d12);
    let d_v12 = u.pinhole_params.fy * (g12 * yr + dg_z * dyr_y + dg_y * zero);
    assert(d_v12.value(m) == ev.d12);
    let d_u22 = u.pinhole_params.fx * (g22 * xr);
    assert(d_u22.value(m) == eu.d22);
    let d_v22 = u.pinhole_params.fy * (g22 * yr);
    assert(d_v22.value(m) == ev.d22);
    let jv = jac.value(m);
    let (wu, wv) = entry_grads(jv, cov_c.value(m), v_cov2d.value(m));
    let tmp = v_cov2d.mul_mat2x3(&jac);
    let tu = tmp.row0();
    let tv = tmp.row1();
    let vj_u0 = whole(2) * tu.dot(&cov_c.row0());
    let vj_u1 = whole(2) * tu.dot(&cov_c.row1());
    let vj_u2 = whole(2) * tu.dot(&cov_c.row2());
    let vj_v0 = whole(2) * tv.dot(&cov_c.row0());
    let vj_v1 = whole(2) * tv.dot(&cov_c.row1());
    let vj_v2 = whole(2) * tv.dot(&cov_c.row2());
    assert(vj_u0.value(m) == wu.x && vj_u1.value(m) == wu.y && vj_u2.value(m) == wu.z);
    assert(vj_v0.value(m) == wv.x && vj_v1.value(m) == wv.y && vj_v2.value(m) == wv.z);
    let r = calculate_projection_vjp_kb4(&jac, &mean_c, &cov_c, &u, &v_cov2d, &v_mean2d, &params);
    let z = mean_grad(jv, v_mean2d.value(m), wu, wv, ImageSecond { u: eu, v: ev });
    assert(r.x.value(m) == z.x);
    assert(r.y.value(m) == z.y);
    assert(r.z.value(m) == z.z);
}

/// What [`calculate_projection_vjp_kb4`] denotes off the axis, for any Jacobian.
pub proof fn lemma_vjp_value(
    jac: Mat2x3,
    mean_c: Vec3A,
    cov_c: Sym3,
    u: ProjectUniforms,
    v_cov2d: Sym2,
    v_mean2d: Vec2,
    params: KannalaBrandt4Params<Scalar>,
    m: Model,
)
    requires
        m.sound(),
        off_axis(mean_c.value(m), m),
    ensures
        ({
            let p = mean_c.value(m);
            let d = mean_c.rate(m);
            let e = image_second(
                p,
                polar(p, d, m),
                u.pinhole_params.fx.value(m),
                u.pinhole_params.fy.value(m),
                params.k1.value(m),
                params.k2.value(m),
                params.k3.value(m),
                params.k4.value(m),
                u.half_max_render_fov.value(m),
                m,
            );
            let (wu, wv) = entry_grads(jac.value(m), cov_c.value(m), v_cov2d.value(m));
            calculate_projection_vjp_kb4(
                &jac,
                &mean_c,
                &cov_c,
                &u,
                &v_cov2d,
                &v_mean2d,
                &params,
            ).value(m) == mean_grad(jac.value(m), v_mean2d.value(m), wu, wv, e)
        }),
{
    let p = mean_c.value(m);
    lemma_millionth();
    assert(kept_off(p, mean_c.rate(m), m) == polar(p, mean_c.rate(m), m));
    lemma_vjp_value_kept_off(jac, mean_c, cov_c, u, v_cov2d, v_mean2d, params, m);
}

/// A gradient made of a Jacobian and second derivatives pairs with the rate of the
/// point as it should.
pub proof fn lemma_mean_grad(
    j: RMat2x3,
    n: RVec2,
    wu: RVec3,
    wv: RVec3,
    e: ImageSecond,
    d: RVec3,
)
    ensures
        n.dot(j.apply(d)) + (wu.x * (e.u.d00 * d.x + e.u.d01 * d.y + e.u.d02 * d.z) + wv.x * (
        e.v.d00 * d.x + e.v.d01 * d.y + e.v.d02 * d.z) + wu.y * (e.u.d10 * d.x + e.u.d11 * d.y
            + e.u.d12 * d.z) + wv.y * (e.v.d10 * d.x + e.v.d11 * d.y + e.v.d12 * d.z) + wu.z * (
        e.u.d20 * d.x + e.u.d21 * d.y + e.u.d22 * d.z) + wv.z * (e.v.d20 * d.x + e.v.d21 * d.y
            + e.v.d22 * d.z)) == mean_grad(j, n, wu, wv, e).dot(d),
{
    gradient_pairing(
        n.x, n.y, j.c0.x, j.c0.y, j.c1.x, j.c1.y, j.c2.x, j.c2.y, wu.x, wu.y, wu.z, wv.x, wv.y,
        wv.z, e.u.d00, e.u.d01, e.u.d02, e.u.d10, e.u.d11, e.u.d12, e.u.d20, e.u.d21, e.u.d22,
        e.v.d00, e.v.d01, e.v.d02, e.v.d10, e.v.d11, e.v.d12, e.v.d20, e.v.d21, e.v.d22, d.x, d.y,
        d.z,
    );
}

/// Off the axis, [`calculate_projection_vjp_kb4`] returns the gradient with respect
/// to the mean: of its image, and of the projected covariance, which the mean
/// reaches through the Jacobian.
pub proof fn lemma_kb4_vjp(
    mean_c: Vec3A,
    cov_c: Sym3,
    u: ProjectUniforms,
    v_cov2d: Sym2,
    v_mean2d: Vec2,
    params: KannalaBrandt4Params<Scalar>,
    m: Model,
)
    requires
        m.sound(),
        camera_is_fixed(u.pinhole_params, u.half_max_render_fov, params, m),
        off_axis(mean_c.value(m), m),
    ensures
        ({
            let jac = calculate_project_jacobian_kb4(
                &mean_c,
                &u.pinhole_params,
                &u.half_max_render_fov,
                &params,
            );
            let image = project_kb4(&mean_c, &u.pinhole_params, &u.half_max_render_fov, &params);
            calculate_projection_vjp_kb4(
                &jac,
                &mean_c,
                &cov_c,
                &u,
                &v_cov2d,
                &v_mean2d,
                &params,
            ).value(m).dot(mean_c.rate(m)) == v_mean2d.value(m).dot(pair_rate(image, m))
                + v_cov2d.value(m).inner(
                jac.value(m).sandwich_rate(jac.rate(m), cov_c.value(m)),
            )
        }),
{
    let jac = calculate_project_jacobian_kb4(
        &mean_c,
        &u.pinhole_params,
        &u.half_max_render_fov,
        &params,
    );
    let p = mean_c.value(m);
    let d = mean_c.rate(m);
    let e = image_second(
        p,
        polar(p, d, m),
        u.pinhole_params.fx.value(m),
        u.pinhole_params.fy.value(m),
        params.k1.value(m),
        params.k2.value(m),
        params.k3.value(m),
        params.k4.value(m),
        u.half_max_render_fov.value(m),
        m,
    );
    let j = jac.value(m);
    let (wu, wv) = entry_grads(j, cov_c.value(m), v_cov2d.value(m));
    lemma_kb4_jacobian(mean_c, u.pinhole_params, u.half_max_render_fov, params, m);
    lemma_jacobian_rate(mean_c, u.pinhole_params, u.half_max_render_fov, params, m);
    lemma_vjp_value(jac, mean_c, cov_c, u, v_cov2d, v_mean2d, params, m);
    lemma_covariance_pairing(j, jac.rate(m), cov_c.value(m), v_cov2d.value(m));
    lemma_mean_grad(j, v_mean2d.value(m), wu, wv, e, d);
}

} // verus!
