//! The shape of a splat on its way to the image: the square root of its covariance, the
//! points that stand for it, and what is made of their images.
use crate::cube::meaning::{
    lemma_congruence, lemma_mat3_product, outer, RVec3,
};
use crate::cube::{ut_sigma_scale, Mat3, Quat, Vec3A};
use crate::expr::algebra::mul_assoc;
use crate::expr::semantics::{group_value, pow10, Model};
use crate::expr::{decimal, Scalar};
use crate::kernels::project_backwards::camera_covariance;
use crate::kernels::unscented::{lemma_weights, sigma_cov};
use crate::kernels::ut_vjp::{
    sigma_mean, sigma_points, square_root_matrix, wide_clamp, SigmaImages,
};
use vstd::prelude::*;

verus! {

/// The square root of the covariance stretches a vector by the extents, turns it as the
/// splat is turned, and then as the view is.
pub proof fn lemma_square_root(scale: Vec3A, quat: Quat, view_rotation: Mat3, v: RVec3, m: Model)
    ensures
        ({
            let s = scale.value(m);
            let stretched = RVec3 { x: s.x * v.x, y: s.y * v.y, z: s.z * v.z };
            square_root_matrix(&scale, &quat, &view_rotation).value(m).apply(v)
                == view_rotation.value(m).apply(quat.to_mat3().value(m).apply(stretched))
        }),
{
    let s = scale.value(m);
    let stretched = RVec3 { x: s.x * v.x, y: s.y * v.y, z: s.z * v.z };
    let a = view_rotation.mul_mat3(&quat.to_mat3());
    lemma_mat3_product(view_rotation, quat.to_mat3(), stretched, m);
    let p = a.value(m);
    let r = a.mul_diag(&scale).value(m);
    assert(r.c0 == p.c0.times(s.x) && r.c1 == p.c1.times(s.y) && r.c2 == p.c2.times(s.z)) by {
        broadcast use group_value;

    }
    mul_assoc(p.c0.x, s.x, v.x);
    mul_assoc(p.c0.y, s.x, v.x);
    mul_assoc(p.c0.z, s.x, v.x);
    mul_assoc(p.c1.x, s.y, v.y);
    mul_assoc(p.c1.y, s.y, v.y);
    mul_assoc(p.c1.z, s.y, v.y);
    mul_assoc(p.c2.x, s.z, v.z);
    mul_assoc(p.c2.y, s.z, v.z);
    mul_assoc(p.c2.z, s.z, v.z);
    assert(r.apply(v) == p.apply(stretched));
}

/// The covariance in camera space is that of the splat, `m m^T`, seen from the view.
pub proof fn lemma_camera_covariance(mat: Mat3, view_rotation: Mat3, m: Model)
    ensures
        camera_covariance(&mat, &view_rotation).value(m) == view_rotation.value(m).sandwich(
            outer(mat.value(m)),
        ),
{
    assert(mat.outer_product_self().value(m) == outer(mat.value(m))) by {
        broadcast use group_value;

    }
    lemma_congruence(
        mat.outer_product_self(),
        view_rotation,
        arbitrary(),
        arbitrary(),
        arbitrary(),
        m,
    );
}

/// The points that stand for a splat: its mean, and to both sides of it along each column
/// of the square root of the covariance, at the root of three times that column.
pub proof fn lemma_sigma_points(mean_c: Vec3A, ns: Mat3, m: Model)
    ensures
        ({
            let p = sigma_points(&mean_c, &ns);
            let s = ut_sigma_scale().value(m);
            let (mean, n) = (mean_c.value(m), ns.value(m));
            &&& p.p0.value(m) == mean
            &&& p.p1.value(m) == mean.plus(n.c0.times(s))
            &&& p.p2.value(m) == mean.plus(n.c1.times(s))
            &&& p.p3.value(m) == mean.plus(n.c2.times(s))
            &&& p.p4.value(m) == mean.minus(n.c0.times(s))
            &&& p.p5.value(m) == mean.minus(n.c1.times(s))
            &&& p.p6.value(m) == mean.minus(n.c2.times(s))
            &&& s > 0real
            &&& 2_999_999real < 1_000_000real * (s * s) < 3_000_001real
        }),
{
    broadcast use group_value;

    let s = ut_sigma_scale().value(m);
    assert(10_000_000real * s == 17_320_508real) by {
        let d = decimal(17_320_508, (-7) as i32);
        assert(d.value(m) == 17_320_508real * pow10(-7));
        assert(10_000_000real * pow10(-7) == 1real) by {
            reveal_with_fuel(pow10, 9);
        }
    }
    assert(2_999_999real < 1_000_000real * (s * s) < 3_000_001real) by (nonlinear_arith)
        requires
            10_000_000real * s == 17_320_508real,
    ;
}

/// The mean of the images is that of the six around the centre, which itself does not
/// count.
pub proof fn lemma_sigma_mean(images: SigmaImages, m: Model)
    ensures
        ({
            let mean = sigma_mean(&images);
            &&& 6real * mean.x.value(m) == images.u1.0.value(m) + images.u2.0.value(m)
                + images.u3.0.value(m) + images.u4.0.value(m) + images.u5.0.value(m)
                + images.u6.0.value(m)
            &&& 6real * mean.y.value(m) == images.u1.1.value(m) + images.u2.1.value(m)
                + images.u3.1.value(m) + images.u4.1.value(m) + images.u5.1.value(m)
                + images.u6.1.value(m)
        }),
{
    broadcast use group_value;

    lemma_weights(m);
    let sx = images.u1.0.value(m) + images.u2.0.value(m) + images.u3.0.value(m)
        + images.u4.0.value(m) + images.u5.0.value(m) + images.u6.0.value(m);
    let sy = images.u1.1.value(m) + images.u2.1.value(m) + images.u3.1.value(m)
        + images.u4.1.value(m) + images.u5.1.value(m) + images.u6.1.value(m);
    assert(6real * ((1real / 6real) * sx) == sx);
    assert(6real * ((1real / 6real) * sy) == sy);
    assert(0real * images.u0.0.value(m) == 0real && 0real * images.u0.1.value(m) == 0real);
}

/// The product of how far an image is from the mean along two directions.
pub open spec fn off_by(a: Scalar, mean_a: Scalar, b: Scalar, mean_b: Scalar, m: Model) -> real {
    (a.value(m) - mean_a.value(m)) * (b.value(m) - mean_b.value(m))
}

/// The covariance of the images around their mean: two parts of the centre, and a sixth of
/// each of the others.
pub proof fn lemma_sigma_cov(images: SigmaImages, m: Model)
    ensures
        ({
            let mean = sigma_mean(&images);
            let cov = sigma_cov(&images).value(m);
            let xx = |u: (Scalar, Scalar)| off_by(u.0, mean.x, u.0, mean.x, m);
            let xy = |u: (Scalar, Scalar)| off_by(u.0, mean.x, u.1, mean.y, m);
            let yy = |u: (Scalar, Scalar)| off_by(u.1, mean.y, u.1, mean.y, m);
            &&& 6real * cov.c00 == 12real * xx(images.u0) + xx(images.u1) + xx(images.u2) + xx(
                images.u3,
            ) + xx(images.u4) + xx(images.u5) + xx(images.u6)
            &&& 6real * cov.c01 == 12real * xy(images.u0) + xy(images.u1) + xy(images.u2) + xy(
                images.u3,
            ) + xy(images.u4) + xy(images.u5) + xy(images.u6)
            &&& 6real * cov.c11 == 12real * yy(images.u0) + yy(images.u1) + yy(images.u2) + yy(
                images.u3,
            ) + yy(images.u4) + yy(images.u5) + yy(images.u6)
        }),
{
    broadcast use group_value;

    lemma_weights(m);
}

/// The limits under which the perspective Jacobians of the sigma points are taken are out
/// of reach on every side.
pub proof fn lemma_wide_clamp(m: Model)
    ensures
        ({
            let c = wide_clamp();
            &&& c.lim_pos_x.value(m) == 1_000_000_000real
            &&& c.lim_pos_y.value(m) == 1_000_000_000real
            &&& c.lim_neg_x.value(m) == -1_000_000_000real
            &&& c.lim_neg_y.value(m) == -1_000_000_000real
        }),
{
    assert(pow10(9) == 1_000_000_000real) by {
        reveal_with_fuel(pow10, 11);
    }
    let (a, b) = (decimal(1, 9), decimal((-1) as i64, 9));
    assert(a.value(m) == 1real * pow10(9));
    assert(b.value(m) == -1real * pow10(9));
}

} // verus!
