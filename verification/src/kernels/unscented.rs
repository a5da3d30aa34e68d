//! The backward pass of the unscented transform returns gradients.
use crate::cube::meaning::{RMat3, RSym2, RVec2, RVec3};
use crate::cube::{
    ut_sigma_scale, ut_weight_cov_center, ut_weight_mean_center, ut_weight_outer, Mat2x3, Mat3,
    Sym2, Vec2, Vec3A,
};
use crate::expr::Scalar;
use crate::expr::algebra::div_undone;
use crate::expr::semantics::{group_rate, group_value, Model};
use crate::kernels::algebra::{
    deviation_pairing, entry_of_sum, mean_pairing, pulled_back, sigma_pairing,
};
use crate::kernels::ut_vjp::{
    sigma_image_vjp, sigma_mean, sigma_point_vjp, sigma_points, SigmaGradients, SigmaImages,
    SigmaJacobians, SigmaPoints,
};
use vstd::prelude::*;

verus! {

/// What a pair of traced numbers denotes.
pub open spec fn image_value(u: (Scalar, Scalar), m: Model) -> RVec2 {
    RVec2 { x: u.0.value(m), y: u.1.value(m) }
}

/// How fast a pair of traced numbers changes.
pub open spec fn image_rate(u: (Scalar, Scalar), m: Model) -> RVec2 {
    RVec2 { x: u.0.rate(m), y: u.1.rate(m) }
}

/// The deviation of an image from the mean, as a traced pair.
pub open spec fn deviation(u: (Scalar, Scalar), mean: Vec2) -> (Scalar, Scalar) {
    (u.0 - mean.x, u.1 - mean.y)
}

/// The weighted outer product of a deviation with itself.
pub open spec fn weighted_outer(w: Scalar, d: (Scalar, Scalar)) -> Sym2 {
    Sym2 { c00: w * (d.0 * d.0), c01: w * (d.0 * d.1), c11: w * (d.1 * d.1) }
}

/// The sum of two matrices.
pub open spec fn sym2_sum(a: Sym2, b: Sym2) -> Sym2 {
    Sym2 { c00: a.c00 + b.c00, c01: a.c01 + b.c01, c11: a.c11 + b.c11 }
}

/// The covariance of the images around their mean.
pub open spec fn sigma_cov(images: &SigmaImages) -> Sym2 {
    let mean = sigma_mean(images);
    let o = ut_weight_outer();
    let s0 = weighted_outer(ut_weight_cov_center(), deviation(images.u0, mean));
    let s1 = sym2_sum(s0, weighted_outer(o, deviation(images.u1, mean)));
    let s2 = sym2_sum(s1, weighted_outer(o, deviation(images.u2, mean)));
    let s3 = sym2_sum(s2, weighted_outer(o, deviation(images.u3, mean)));
    let s4 = sym2_sum(s3, weighted_outer(o, deviation(images.u4, mean)));
    let s5 = sym2_sum(s4, weighted_outer(o, deviation(images.u5, mean)));
    sym2_sum(s5, weighted_outer(o, deviation(images.u6, mean)))
}

/// The gradient of the covariance with respect to one deviation.
pub open spec fn deviation_grad(w: real, v: RSym2, d: RVec2) -> RVec2 {
    RVec2 {
        x: w * (2real * v.c00 * d.x + 2real * v.c01 * d.y),
        y: w * (2real * v.c11 * d.y + 2real * v.c01 * d.x),
    }
}

/// The rate of the weighted outer product of a deviation.
pub open spec fn outer_rate2(w: real, d: RVec2, r: RVec2) -> RSym2 {
    RSym2 {
        c00: w * (r.x * d.x + d.x * r.x),
        c01: w * (r.x * d.y + d.x * r.y),
        c11: w * (r.y * d.y + d.y * r.y),
    }
}

proof fn lemma_deviation_pairing(v: RSym2, w: real, d: RVec2, r: RVec2)
    ensures
        v.inner(outer_rate2(w, d, r)) == deviation_grad(w, v, d).dot(r),
{
    deviation_pairing(v.c00, v.c01, v.c11, w, d.x, d.y, r.x, r.y);
}

/// The weights do not change.
pub(crate) proof fn lemma_weights(m: Model)
    ensures
        ut_weight_mean_center().value(m) == 0real,
        ut_weight_mean_center().rate(m) == 0real,
        ut_weight_cov_center().value(m) == 2real,
        ut_weight_cov_center().rate(m) == 0real,
        ut_weight_outer().value(m) == 1real / 6real,
        ut_weight_outer().rate(m) == 0real,
        ut_sigma_scale().rate(m) == 0real,
{
    broadcast use {group_value, group_rate};

    div_undone(0real * 6real - 1real * 0real, 6real * 6real);
}

proof fn lemma_outer_rate2(w: Scalar, u: (Scalar, Scalar), mean: Vec2, m: Model)
    requires
        w.rate(m) == 0real,
    ensures
        ({
            let d = image_value(u, m).minus(mean.value(m));
            let r = image_rate(u, m).minus(mean.rate(m));
            weighted_outer(w, deviation(u, mean)).rate(m) == outer_rate2(w.value(m), d, r)
        }),
{
    broadcast use {group_value, group_rate};

}

/// The sum of the gradients of the deviations.
pub open spec fn deviation_grads(images: &SigmaImages, v: RSym2, m: Model) -> Seq<RVec2> {
    let mean = sigma_mean(images).value(m);
    let c = ut_weight_cov_center().value(m);
    let o = ut_weight_outer().value(m);
    seq![
        deviation_grad(c, v, image_value(images.u0, m).minus(mean)),
        deviation_grad(o, v, image_value(images.u1, m).minus(mean)),
        deviation_grad(o, v, image_value(images.u2, m).minus(mean)),
        deviation_grad(o, v, image_value(images.u3, m).minus(mean)),
        deviation_grad(o, v, image_value(images.u4, m).minus(mean)),
        deviation_grad(o, v, image_value(images.u5, m).minus(mean)),
        deviation_grad(o, v, image_value(images.u6, m).minus(mean)),
    ]
}

/// What [`sigma_image_vjp`] denotes.
proof fn lemma_sigma_image_vjp_value(
    images: SigmaImages,
    v_mean2d: Vec2,
    v_cov2d: Sym2,
    m: Model,
)
    ensures
        ({
            let r = sigma_image_vjp(&images, &v_mean2d, &v_cov2d);
            let g = deviation_grads(&images, v_cov2d.value(m), m);
            let n = v_mean2d.value(m);
            let a = ut_weight_mean_center().value(m);
            let b = ut_weight_outer().value(m);
            let cx = n.x - (g[0].x + g[1].x + g[2].x + g[3].x + g[4].x + g[5].x + g[6].x);
            let cy = n.y - (g[0].y + g[1].y + g[2].y + g[3].y + g[4].y + g[5].y + g[6].y);
            &&& r.v0.value(m) == (RVec2 { x: g[0].x + a * cx, y: g[0].y + a * cy })
            &&& r.v1.value(m) == (RVec2 { x: g[1].x + b * cx, y: g[1].y + b * cy })
            &&& r.v2.value(m) == (RVec2 { x: g[2].x + b * cx, y: g[2].y + b * cy })
            &&& r.v3.value(m) == (RVec2 { x: g[3].x + b * cx, y: g[3].y + b * cy })
            &&& r.v4.value(m) == (RVec2 { x: g[4].x + b * cx, y: g[4].y + b * cy })
            &&& r.v5.value(m) == (RVec2 { x: g[5].x + b * cx, y: g[5].y + b * cy })
            &&& r.v6.value(m) == (RVec2 { x: g[6].x + b * cx, y: g[6].y + b * cy })
        }),
{
    broadcast use group_value;

    let r = sigma_image_vjp(&images, &v_mean2d, &v_cov2d);
    let mean = sigma_mean(&images);
    let v = v_cov2d.value(m);
    let g = deviation_grads(&images, v, m);
    assert(g.len() == 7);
}

/// [`sigma_image_vjp`] returns the gradients of the mean and covariance of the
/// images with respect to each image.
pub proof fn lemma_sigma_image_vjp(images: SigmaImages, v_mean2d: Vec2, v_cov2d: Sym2, m: Model)
    ensures
        ({
            let r = sigma_image_vjp(&images, &v_mean2d, &v_cov2d);
            v_mean2d.value(m).dot(sigma_mean(&images).rate(m)) + v_cov2d.value(m).inner(
                sigma_cov(&images).rate(m),
            ) == r.v0.value(m).dot(image_rate(images.u0, m))
                + r.v1.value(m).dot(image_rate(images.u1, m)) + r.v2.value(m)
                .dot(image_rate(images.u2, m)) + r.v3.value(m)
                .dot(image_rate(images.u3, m)) + r.v4.value(m)
                .dot(image_rate(images.u4, m)) + r.v5.value(m)
                .dot(image_rate(images.u5, m)) + r.v6.value(m).dot(image_rate(images.u6, m))
        }),
{
    let mean = sigma_mean(&images);
    let mv = mean.value(m);
    let dm = mean.rate(m);
    let v = v_cov2d.value(m);
    let n = v_mean2d.value(m);
    let g = deviation_grads(&images, v, m);
    let c = ut_weight_cov_center();
    let o = ut_weight_outer();
    let a = ut_weight_mean_center().value(m);
    let b = o.value(m);
    lemma_weights(m);
    lemma_sigma_image_vjp_value(images, v_mean2d, v_cov2d, m);
    let d0 = image_rate(images.u0, m);
    let e0 = image_value(images.u0, m).minus(mv);
    lemma_outer_rate2(c, images.u0, mean, m);
    lemma_deviation_pairing(v, c.value(m), e0, d0.minus(dm));
    let t0 = outer_rate2(c.value(m), e0, d0.minus(dm));
    let d1 = image_rate(images.u1, m);
    let e1 = image_value(images.u1, m).minus(mv);
    lemma_outer_rate2(o, images.u1, mean, m);
    lemma_deviation_pairing(v, o.value(m), e1, d1.minus(dm));
    let t1 = outer_rate2(o.value(m), e1, d1.minus(dm));
    let d2 = image_rate(images.u2, m);
    let e2 = image_value(images.u2, m).minus(mv);
    lemma_outer_rate2(o, images.u2, mean, m);
    lemma_deviation_pairing(v, o.value(m), e2, d2.minus(dm));
    let t2 = outer_rate2(o.value(m), e2, d2.minus(dm));
    let d3 = image_rate(images.u3, m);
    let e3 = image_value(images.u3, m).minus(mv);
    lemma_outer_rate2(o, images.u3, mean, m);
    lemma_deviation_pairing(v, o.value(m), e3, d3.minus(dm));
    let t3 = outer_rate2(o.value(m), e3, d3.minus(dm));
    let d4 = image_rate(images.u4, m);
    let e4 = image_value(images.u4, m).minus(mv);
    lemma_outer_rate2(o, images.u4, mean, m);
    lemma_deviation_pairing(v, o.value(m), e4, d4.minus(dm));
    let t4 = outer_rate2(o.value(m), e4, d4.minus(dm));
    let d5 = image_rate(images.u5, m);
    let e5 = image_value(images.u5, m).minus(mv);
    lemma_outer_rate2(o, images.u5, mean, m);
    lemma_deviation_pairing(v, o.value(m), e5, d5.minus(dm));
    let t5 = outer_rate2(o.value(m), e5, d5.minus(dm));
    let d6 = image_rate(images.u6, m);
    let e6 = image_value(images.u6, m).minus(mv);
    lemma_outer_rate2(o, images.u6, mean, m);
    lemma_deviation_pairing(v, o.value(m), e6, d6.minus(dm));
    let t6 = outer_rate2(o.value(m), e6, d6.minus(dm));
    assert(sigma_cov(&images).rate(m) == (RSym2 {
        c00: t0.c00 + t1.c00 + t2.c00 + t3.c00 + t4.c00 + t5.c00 + t6.c00,
        c01: t0.c01 + t1.c01 + t2.c01 + t3.c01 + t4.c01 + t5.c01 + t6.c01,
        c11: t0.c11 + t1.c11 + t2.c11 + t3.c11 + t4.c11 + t5.c11 + t6.c11,
    })) by {
        broadcast use {group_value, group_rate};

    }
    inner_of_sum(v, t0, t1, t2, t3, t4, t5, t6);
    assert(dm.x == a * d0.x + b * (d1.x + d2.x + d3.x + d4.x + d5.x + d6.x)) by {
        broadcast use {group_value, group_rate};

    }
    assert(dm.y == a * d0.y + b * (d1.y + d2.y + d3.y + d4.y + d5.y + d6.y)) by {
        broadcast use {group_value, group_rate};

    }
    mean_pairing(
        g[0].x, g[1].x, g[2].x, g[3].x, g[4].x, g[5].x, g[6].x, d0.x, d1.x, d2.x, d3.x, d4.x, d5.x,
        d6.x, dm.x, n.x, a, b,
    );
    mean_pairing(
        g[0].y, g[1].y, g[2].y, g[3].y, g[4].y, g[5].y, g[6].y, d0.y, d1.y, d2.y, d3.y, d4.y, d5.y,
        d6.y, dm.y, n.y, a, b,
    );
}

proof fn inner_of_sum(
    v: RSym2,
    t0: RSym2,
    t1: RSym2,
    t2: RSym2,
    t3: RSym2,
    t4: RSym2,
    t5: RSym2,
    t6: RSym2,
)
    ensures
        v.inner(
            RSym2 {
                c00: t0.c00 + t1.c00 + t2.c00 + t3.c00 + t4.c00 + t5.c00 + t6.c00,
                c01: t0.c01 + t1.c01 + t2.c01 + t3.c01 + t4.c01 + t5.c01 + t6.c01,
                c11: t0.c11 + t1.c11 + t2.c11 + t3.c11 + t4.c11 + t5.c11 + t6.c11,
            },
        ) == v.inner(t0) + v.inner(t1) + v.inner(t2) + v.inner(t3) + v.inner(t4) + v.inner(t5)
            + v.inner(t6),
{
    entry_of_sum(v.c00, t0.c00, t1.c00, t2.c00, t3.c00, t4.c00, t5.c00, t6.c00);
    entry_of_sum(2real * v.c01, t0.c01, t1.c01, t2.c01, t3.c01, t4.c01, t5.c01, t6.c01);
    entry_of_sum(v.c11, t0.c11, t1.c11, t2.c11, t3.c11, t4.c11, t5.c11, t6.c11);
}

/// A Jacobian's transpose pulls a gradient back.
proof fn lemma_pulled_back(j: Mat2x3, v: Vec2, d: RVec3, m: Model)
    ensures
        v.value(m).dot(j.value(m).apply(d)) == j.transpose_mul_vec2(&v).value(m).dot(d),
{
    let p = j.value(m);
    let w = v.value(m);
    assert(j.transpose_mul_vec2(&v).value(m) == (RVec3 {
        x: p.c0.x * w.x + p.c0.y * w.y,
        y: p.c1.x * w.x + p.c1.y * w.y,
        z: p.c2.x * w.x + p.c2.y * w.y,
    })) by {
        broadcast use group_value;

    }
    pulled_back(
        w.x, w.y, p.c0.x, p.c0.y, p.c1.x, p.c1.y, p.c2.x, p.c2.y, d.x, d.y, d.z,
    );
}

/// The rates of the sigma points: they move with the mean, and with the columns
/// of the square root of the covariance.
pub proof fn lemma_sigma_point_rates(mean_c: Vec3A, ns: Mat3, m: Model)
    ensures
        ({
            let p = sigma_points(&mean_c, &ns);
            let dm = mean_c.rate(m);
            let dn = ns.rate(m);
            let s = ut_sigma_scale().value(m);
            &&& p.p0.rate(m) == dm
            &&& p.p1.rate(m) == dm.plus(dn.c0.times(s))
            &&& p.p2.rate(m) == dm.plus(dn.c1.times(s))
            &&& p.p3.rate(m) == dm.plus(dn.c2.times(s))
            &&& p.p4.rate(m) == dm.minus(dn.c0.times(s))
            &&& p.p5.rate(m) == dm.minus(dn.c1.times(s))
            &&& p.p6.rate(m) == dm.minus(dn.c2.times(s))
        }),
{
    broadcast use {group_value, group_rate};

    lemma_weights(m);
}

/// [`sigma_point_vjp`] pulls the gradients of the images back to the mean and to
/// the square root of the covariance, from which the sigma points are made.
pub proof fn lemma_sigma_point_vjp(
    mean_c: Vec3A,
    ns: Mat3,
    jacobians: SigmaJacobians,
    grads: SigmaGradients,
    m: Model,
)
    ensures
        ({
            let p = sigma_points(&mean_c, &ns);
            let r = sigma_point_vjp(&jacobians, &grads);
            grads.v0.value(m).dot(jacobians.j0.value(m).apply(p.p0.rate(m))) + grads.v1.value(m)
                .dot(jacobians.j1.value(m).apply(p.p1.rate(m))) + grads.v2.value(m)
                .dot(jacobians.j2.value(m).apply(p.p2.rate(m))) + grads.v3.value(m)
                .dot(jacobians.j3.value(m).apply(p.p3.rate(m))) + grads.v4.value(m)
                .dot(jacobians.j4.value(m).apply(p.p4.rate(m))) + grads.v5.value(m)
                .dot(jacobians.j5.value(m).apply(p.p5.rate(m))) + grads.v6.value(m)
                .dot(jacobians.j6.value(m).apply(p.p6.rate(m)))
                == r.0.value(m).dot(mean_c.rate(m)) + r.1.value(m).inner(ns.rate(m))
        }),
{
    let p = sigma_points(&mean_c, &ns);
    let r = sigma_point_vjp(&jacobians, &grads);
    let dm = mean_c.rate(m);
    let dn = ns.rate(m);
    let s = ut_sigma_scale().value(m);
    lemma_sigma_point_rates(mean_c, ns, m);
    lemma_pulled_back(jacobians.j0, grads.v0, p.p0.rate(m), m);
    let q0 = jacobians.j0.transpose_mul_vec2(&grads.v0).value(m);
    lemma_pulled_back(jacobians.j1, grads.v1, p.p1.rate(m), m);
    let q1 = jacobians.j1.transpose_mul_vec2(&grads.v1).value(m);
    lemma_pulled_back(jacobians.j2, grads.v2, p.p2.rate(m), m);
    let q2 = jacobians.j2.transpose_mul_vec2(&grads.v2).value(m);
    lemma_pulled_back(jacobians.j3, grads.v3, p.p3.rate(m), m);
    let q3 = jacobians.j3.transpose_mul_vec2(&grads.v3).value(m);
    lemma_pulled_back(jacobians.j4, grads.v4, p.p4.rate(m), m);
    let q4 = jacobians.j4.transpose_mul_vec2(&grads.v4).value(m);
    lemma_pulled_back(jacobians.j5, grads.v5, p.p5.rate(m), m);
    let q5 = jacobians.j5.transpose_mul_vec2(&grads.v5).value(m);
    lemma_pulled_back(jacobians.j6, grads.v6, p.p6.rate(m), m);
    let q6 = jacobians.j6.transpose_mul_vec2(&grads.v6).value(m);
    assert(r.0.value(m) == q0.plus(q1).plus(q2).plus(q3).plus(q4).plus(q5).plus(q6)) by {
        broadcast use group_value;

    }
    assert(r.1.value(m) == (RMat3 {
        c0: q1.minus(q4).times(s),
        c1: q2.minus(q5).times(s),
        c2: q3.minus(q6).times(s),
    })) by {
        broadcast use group_value;

    }
    sigma_pairing(q0.x, q1.x, q2.x, q3.x, q4.x, q5.x, q6.x, dm.x, dn.c0.x, dn.c1.x, dn.c2.x, s);
    sigma_pairing(q0.y, q1.y, q2.y, q3.y, q4.y, q5.y, q6.y, dm.y, dn.c0.y, dn.c1.y, dn.c2.y, s);
    sigma_pairing(q0.z, q1.z, q2.z, q3.z, q4.z, q5.z, q6.z, dm.z, dn.c0.z, dn.c1.z, dn.c2.z, s);
}

/// The sigma points stand in pairs around the mean.
pub proof fn lemma_sigma_points_are_symmetric(mean_c: Vec3A, ns: Mat3, m: Model)
    ensures
        ({
            let s = sigma_points(&mean_c, &ns);
            let twice = mean_c.value(m).times(2real);
            &&& s.p0.value(m) == mean_c.value(m)
            &&& s.p1.value(m).plus(s.p4.value(m)) == twice
            &&& s.p2.value(m).plus(s.p5.value(m)) == twice
            &&& s.p3.value(m).plus(s.p6.value(m)) == twice
        }),
{
    broadcast use group_value;

}

/// The Jacobians are the derivatives of the projection at every sigma point.
pub open spec fn exact_jacobians(
    points: SigmaPoints,
    images: SigmaImages,
    jacobians: SigmaJacobians,
    m: Model,
) -> bool {
    &&& image_rate(images.u0, m) == jacobians.j0.value(m).apply(points.p0.rate(m))
    &&& image_rate(images.u1, m) == jacobians.j1.value(m).apply(points.p1.rate(m))
    &&& image_rate(images.u2, m) == jacobians.j2.value(m).apply(points.p2.rate(m))
    &&& image_rate(images.u3, m) == jacobians.j3.value(m).apply(points.p3.rate(m))
    &&& image_rate(images.u4, m) == jacobians.j4.value(m).apply(points.p4.rate(m))
    &&& image_rate(images.u5, m) == jacobians.j5.value(m).apply(points.p5.rate(m))
    &&& image_rate(images.u6, m) == jacobians.j6.value(m).apply(points.p6.rate(m))
}

/// The backward pass of the unscented transform returns the gradients of the mean
/// and covariance of the images with respect to the splat's mean and to the square
/// root of its covariance, where the Jacobians are exact.
pub proof fn lemma_unscented_gradient(
    mean_c: Vec3A,
    ns: Mat3,
    images: SigmaImages,
    jacobians: SigmaJacobians,
    v_mean2d: Vec2,
    v_cov2d: Sym2,
    m: Model,
)
    requires
        exact_jacobians(sigma_points(&mean_c, &ns), images, jacobians, m),
    ensures
        ({
            let r = sigma_point_vjp(&jacobians, &sigma_image_vjp(&images, &v_mean2d, &v_cov2d));
            v_mean2d.value(m).dot(sigma_mean(&images).rate(m)) + v_cov2d.value(m).inner(
                sigma_cov(&images).rate(m),
            ) == r.0.value(m).dot(mean_c.rate(m)) + r.1.value(m).inner(ns.rate(m))
        }),
{
    let grads = sigma_image_vjp(&images, &v_mean2d, &v_cov2d);
    lemma_sigma_image_vjp(images, v_mean2d, v_cov2d, m);
    lemma_sigma_point_vjp(mean_c, ns, jacobians, grads, m);
}

} // verus!
