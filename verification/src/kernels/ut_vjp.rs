//! The backward pass of the unscented transform: a splat is represented by
//! seven sigma points, each is projected by the exact camera model, and the
//! mean and covariance of the images stand for the projected splat.
//!
//! No model needs a second derivative here: the projection and its Jacobian
//! are evaluated at every sigma point in place of the mean alone.
use crate::camera_model::{
    calculate_project_jacobian, project, CameraModel, JacobianClampLimits, ProjectUniforms,
};
use crate::cube::mat::spec_from_cols;
use crate::cube::{
    ut_sigma_scale, ut_weight_cov_center, ut_weight_mean_center, ut_weight_outer, Mat2x3, Mat3,
    Quat, Sym2, Vec2, Vec3A,
};
use crate::expr::{decimal, whole, Scalar};
use vstd::prelude::*;

verus! {

/// The sigma points of a splat in camera space: the mean, then the mean moved
/// along each principal axis, forwards and backwards.
pub struct SigmaPoints {
    pub p0: Vec3A,
    pub p1: Vec3A,
    pub p2: Vec3A,
    pub p3: Vec3A,
    pub p4: Vec3A,
    pub p5: Vec3A,
    pub p6: Vec3A,
}

/// One image per sigma point.
pub struct SigmaImages {
    pub u0: (Scalar, Scalar),
    pub u1: (Scalar, Scalar),
    pub u2: (Scalar, Scalar),
    pub u3: (Scalar, Scalar),
    pub u4: (Scalar, Scalar),
    pub u5: (Scalar, Scalar),
    pub u6: (Scalar, Scalar),
}

/// One Jacobian of the projection per sigma point.
pub struct SigmaJacobians {
    pub j0: Mat2x3,
    pub j1: Mat2x3,
    pub j2: Mat2x3,
    pub j3: Mat2x3,
    pub j4: Mat2x3,
    pub j5: Mat2x3,
    pub j6: Mat2x3,
}

/// The gradient with respect to the image of each sigma point.
pub struct SigmaGradients {
    pub v0: Vec2,
    pub v1: Vec2,
    pub v2: Vec2,
    pub v3: Vec2,
    pub v4: Vec2,
    pub v5: Vec2,
    pub v6: Vec2,
}

pub open spec fn spec_wide_clamp() -> JacobianClampLimits {
    JacobianClampLimits {
        lim_pos_x: decimal(1, 9),
        lim_pos_y: decimal(1, 9),
        lim_neg_x: decimal((-1) as i64, 9),
        lim_neg_y: decimal((-1) as i64, 9),
    }
}

/// The limits under which the perspective Jacobians of the sigma points are
/// taken. Some of these points lie far outside the frustum, and the forward
/// pass never clamps them, so neither may the backward pass.
#[verifier::when_used_as_spec(spec_wide_clamp)]
pub fn wide_clamp() -> (r: JacobianClampLimits)
    ensures
        r == wide_clamp(),
{
    JacobianClampLimits {
        lim_pos_x: Scalar::lit(1, 9),
        lim_pos_y: Scalar::lit(1, 9),
        lim_neg_x: Scalar::lit(-1, 9),
        lim_neg_y: Scalar::lit(-1, 9),
    }
}

pub open spec fn spec_square_root_matrix(
    scale: &Vec3A,
    quat: &Quat,
    view_rotation: &Mat3,
) -> Mat3 {
    view_rotation.mul_mat3(&quat.to_mat3()).mul_diag(scale)
}

/// The view-space square root of the covariance: rotation by the view and the splat, then the
/// extent along each axis.
#[verifier::when_used_as_spec(spec_square_root_matrix)]
pub fn square_root_matrix(
    scale: &Vec3A,
    quat: &Quat,
    view_rotation: &Mat3,
) -> (r: Mat3)
    ensures
        r == square_root_matrix(scale, quat, view_rotation),
{
    view_rotation.mul_mat3(&quat.to_mat3()).mul_diag(scale)
}

pub open spec fn spec_sigma_points(
    mean_c: &Vec3A,
    ns: &Mat3,
) -> SigmaPoints {
    let c0 = ns.col0().scale(&ut_sigma_scale());
    let c1 = ns.col1().scale(&ut_sigma_scale());
    let c2 = ns.col2().scale(&ut_sigma_scale());
    SigmaPoints {
        p0: *mean_c,
        p1: mean_c.add(&c0),
        p2: mean_c.add(&c1),
        p3: mean_c.add(&c2),
        p4: mean_c.sub(&c0),
        p5: mean_c.sub(&c1),
        p6: mean_c.sub(&c2),
    }
}

/// The sigma points around a mean, given the square root of the covariance.
#[verifier::when_used_as_spec(spec_sigma_points)]
pub fn sigma_points(
    mean_c: &Vec3A,
    ns: &Mat3,
) -> (r: SigmaPoints)
    ensures
        r == sigma_points(mean_c, ns),
{
    let c0 = ns.col0().scale(&ut_sigma_scale());
    let c1 = ns.col1().scale(&ut_sigma_scale());
    let c2 = ns.col2().scale(&ut_sigma_scale());
    SigmaPoints {
        p0: mean_c.clone(),
        p1: mean_c.add(&c0),
        p2: mean_c.add(&c1),
        p3: mean_c.add(&c2),
        p4: mean_c.sub(&c0),
        p5: mean_c.sub(&c1),
        p6: mean_c.sub(&c2),
    }
}

pub open spec fn spec_project_sigma_points(
    points: &SigmaPoints,
    u: &ProjectUniforms,
    camera_model: &CameraModel<Scalar>,
    perspective: &SigmaImages,
) -> SigmaImages {
    SigmaImages {
        u0: project(&points.p0, &u.pinhole_params, &u.half_max_render_fov, camera_model,
            &perspective.u0),
        u1: project(&points.p1, &u.pinhole_params, &u.half_max_render_fov, camera_model,
            &perspective.u1),
        u2: project(&points.p2, &u.pinhole_params, &u.half_max_render_fov, camera_model,
            &perspective.u2),
        u3: project(&points.p3, &u.pinhole_params, &u.half_max_render_fov, camera_model,
            &perspective.u3),
        u4: project(&points.p4, &u.pinhole_params, &u.half_max_render_fov, camera_model,
            &perspective.u4),
        u5: project(&points.p5, &u.pinhole_params, &u.half_max_render_fov, camera_model,
            &perspective.u5),
        u6: project(&points.p6, &u.pinhole_params, &u.half_max_render_fov, camera_model,
            &perspective.u6),
    }
}

/// The images of the sigma points. `perspective` are the images under the perspective model.
#[verifier::when_used_as_spec(spec_project_sigma_points)]
pub fn project_sigma_points(
    points: &SigmaPoints,
    u: &ProjectUniforms,
    camera_model: &CameraModel<Scalar>,
    perspective: &SigmaImages,
) -> (r: SigmaImages)
    ensures
        r == project_sigma_points(points, u, camera_model, perspective),
{
    SigmaImages {
        u0: project(&points.p0, &u.pinhole_params, &u.half_max_render_fov, camera_model,
            &perspective.u0),
        u1: project(&points.p1, &u.pinhole_params, &u.half_max_render_fov, camera_model,
            &perspective.u1),
        u2: project(&points.p2, &u.pinhole_params, &u.half_max_render_fov, camera_model,
            &perspective.u2),
        u3: project(&points.p3, &u.pinhole_params, &u.half_max_render_fov, camera_model,
            &perspective.u3),
        u4: project(&points.p4, &u.pinhole_params, &u.half_max_render_fov, camera_model,
            &perspective.u4),
        u5: project(&points.p5, &u.pinhole_params, &u.half_max_render_fov, camera_model,
            &perspective.u5),
        u6: project(&points.p6, &u.pinhole_params, &u.half_max_render_fov, camera_model,
            &perspective.u6),
    }
}

pub open spec fn spec_sigma_jacobians(
    points: &SigmaPoints,
    u: &ProjectUniforms,
    camera_model: &CameraModel<Scalar>,
    perspective: &SigmaJacobians,
) -> SigmaJacobians {
    SigmaJacobians {
        j0: calculate_project_jacobian(&points.p0, &u.pinhole_params, &u.half_max_render_fov,
            camera_model, &perspective.j0),
        j1: calculate_project_jacobian(&points.p1, &u.pinhole_params, &u.half_max_render_fov,
            camera_model, &perspective.j1),
        j2: calculate_project_jacobian(&points.p2, &u.pinhole_params, &u.half_max_render_fov,
            camera_model, &perspective.j2),
        j3: calculate_project_jacobian(&points.p3, &u.pinhole_params, &u.half_max_render_fov,
            camera_model, &perspective.j3),
        j4: calculate_project_jacobian(&points.p4, &u.pinhole_params, &u.half_max_render_fov,
            camera_model, &perspective.j4),
        j5: calculate_project_jacobian(&points.p5, &u.pinhole_params, &u.half_max_render_fov,
            camera_model, &perspective.j5),
        j6: calculate_project_jacobian(&points.p6, &u.pinhole_params, &u.half_max_render_fov,
            camera_model, &perspective.j6),
    }
}

/// The Jacobians of the projection at the sigma points. `perspective` are those of the
/// perspective model, taken under [`wide_clamp`].
#[verifier::when_used_as_spec(spec_sigma_jacobians)]
pub fn sigma_jacobians(
    points: &SigmaPoints,
    u: &ProjectUniforms,
    camera_model: &CameraModel<Scalar>,
    perspective: &SigmaJacobians,
) -> (r: SigmaJacobians)
    ensures
        r == sigma_jacobians(points, u, camera_model, perspective),
{
    SigmaJacobians {
        j0: calculate_project_jacobian(&points.p0, &u.pinhole_params, &u.half_max_render_fov,
            camera_model, &perspective.j0),
        j1: calculate_project_jacobian(&points.p1, &u.pinhole_params, &u.half_max_render_fov,
            camera_model, &perspective.j1),
        j2: calculate_project_jacobian(&points.p2, &u.pinhole_params, &u.half_max_render_fov,
            camera_model, &perspective.j2),
        j3: calculate_project_jacobian(&points.p3, &u.pinhole_params, &u.half_max_render_fov,
            camera_model, &perspective.j3),
        j4: calculate_project_jacobian(&points.p4, &u.pinhole_params, &u.half_max_render_fov,
            camera_model, &perspective.j4),
        j5: calculate_project_jacobian(&points.p5, &u.pinhole_params, &u.half_max_render_fov,
            camera_model, &perspective.j5),
        j6: calculate_project_jacobian(&points.p6, &u.pinhole_params, &u.half_max_render_fov,
            camera_model, &perspective.j6),
    }
}

pub open spec fn spec_sigma_mean(
    images: &SigmaImages,
) -> Vec2 {
    let u0x = images.u0.0;
    let u0y = images.u0.1;
    let u1x = images.u1.0;
    let u1y = images.u1.1;
    let u2x = images.u2.0;
    let u2y = images.u2.1;
    let u3x = images.u3.0;
    let u3y = images.u3.1;
    let u4x = images.u4.0;
    let u4y = images.u4.1;
    let u5x = images.u5.0;
    let u5y = images.u5.1;
    let u6x = images.u6.0;
    let u6y = images.u6.1;
    let mean2d_x = ut_weight_mean_center() * u0x
        + ut_weight_outer() * (u1x + u2x + u3x + u4x + u5x + u6x);
    let mean2d_y = ut_weight_mean_center() * u0y
        + ut_weight_outer() * (u1y + u2y + u3y + u4y + u5y + u6y);
    Vec2 { x: mean2d_x, y: mean2d_y }
}

/// The mean of the images.
#[verifier::when_used_as_spec(spec_sigma_mean)]
pub fn sigma_mean(
    images: &SigmaImages,
) -> (r: Vec2)
    ensures
        r == sigma_mean(images),
{
    let u0x = &images.u0.0;
    let u0y = &images.u0.1;
    let u1x = &images.u1.0;
    let u1y = &images.u1.1;
    let u2x = &images.u2.0;
    let u2y = &images.u2.1;
    let u3x = &images.u3.0;
    let u3y = &images.u3.1;
    let u4x = &images.u4.0;
    let u4y = &images.u4.1;
    let u5x = &images.u5.0;
    let u5y = &images.u5.1;
    let u6x = &images.u6.0;
    let u6y = &images.u6.1;
    let mean2d_x = ut_weight_mean_center() * u0x
        + ut_weight_outer() * (u1x + u2x + u3x + u4x + u5x + u6x);
    let mean2d_y = ut_weight_mean_center() * u0y
        + ut_weight_outer() * (u1y + u2y + u3y + u4y + u5y + u6y);
    Vec2 { x: mean2d_x, y: mean2d_y }
}

pub open spec fn spec_sigma_image_vjp(
    images: &SigmaImages,
    v_mean2d: &Vec2,
    v_cov2d: &Sym2,
) -> SigmaGradients {
    let mean2d = sigma_mean(images);
    let u0x = images.u0.0;
    let u0y = images.u0.1;
    let u1x = images.u1.0;
    let u1y = images.u1.1;
    let u2x = images.u2.0;
    let u2y = images.u2.1;
    let u3x = images.u3.0;
    let u3y = images.u3.1;
    let u4x = images.u4.0;
    let u4y = images.u4.1;
    let u5x = images.u5.0;
    let u5y = images.u5.1;
    let u6x = images.u6.0;
    let u6y = images.u6.1;
    let d0x = u0x - mean2d.x;
    let d0y = u0y - mean2d.y;
    let d1x = u1x - mean2d.x;
    let d1y = u1y - mean2d.y;
    let d2x = u2x - mean2d.x;
    let d2y = u2y - mean2d.y;
    let d3x = u3x - mean2d.x;
    let d3y = u3y - mean2d.y;
    let d4x = u4x - mean2d.x;
    let d4y = u4y - mean2d.y;
    let d5x = u5x - mean2d.x;
    let d5y = u5y - mean2d.y;
    let d6x = u6x - mean2d.x;
    let d6y = u6y - mean2d.y;
    let v00 = v_cov2d.c00;
    let v01 = v_cov2d.c01;
    let v11 = v_cov2d.c11;
    let g0x = ut_weight_cov_center() * (whole(2) * v00 * d0x + whole(2) * v01 * d0y);
    let g0y = ut_weight_cov_center() * (whole(2) * v11 * d0y + whole(2) * v01 * d0x);
    let g1x = ut_weight_outer() * (whole(2) * v00 * d1x + whole(2) * v01 * d1y);
    let g1y = ut_weight_outer() * (whole(2) * v11 * d1y + whole(2) * v01 * d1x);
    let g2x = ut_weight_outer() * (whole(2) * v00 * d2x + whole(2) * v01 * d2y);
    let g2y = ut_weight_outer() * (whole(2) * v11 * d2y + whole(2) * v01 * d2x);
    let g3x = ut_weight_outer() * (whole(2) * v00 * d3x + whole(2) * v01 * d3y);
    let g3y = ut_weight_outer() * (whole(2) * v11 * d3y + whole(2) * v01 * d3x);
    let g4x = ut_weight_outer() * (whole(2) * v00 * d4x + whole(2) * v01 * d4y);
    let g4y = ut_weight_outer() * (whole(2) * v11 * d4y + whole(2) * v01 * d4x);
    let g5x = ut_weight_outer() * (whole(2) * v00 * d5x + whole(2) * v01 * d5y);
    let g5y = ut_weight_outer() * (whole(2) * v11 * d5y + whole(2) * v01 * d5x);
    let g6x = ut_weight_outer() * (whole(2) * v00 * d6x + whole(2) * v01 * d6y);
    let g6y = ut_weight_outer() * (whole(2) * v11 * d6y + whole(2) * v01 * d6x);
    let g_sum_x = g0x + g1x + g2x + g3x + g4x + g5x + g6x;
    let g_sum_y = g0y + g1y + g2y + g3y + g4y + g5y + g6y;
    let corr_x = v_mean2d.x - g_sum_x;
    let corr_y = v_mean2d.y - g_sum_y;
    SigmaGradients {
        v0: Vec2 { x: g0x + ut_weight_mean_center() * corr_x,
            y: g0y + ut_weight_mean_center() * corr_y },
        v1: Vec2 { x: g1x + ut_weight_outer() * corr_x, y: g1y + ut_weight_outer() * corr_y },
        v2: Vec2 { x: g2x + ut_weight_outer() * corr_x, y: g2y + ut_weight_outer() * corr_y },
        v3: Vec2 { x: g3x + ut_weight_outer() * corr_x, y: g3y + ut_weight_outer() * corr_y },
        v4: Vec2 { x: g4x + ut_weight_outer() * corr_x, y: g4y + ut_weight_outer() * corr_y },
        v5: Vec2 { x: g5x + ut_weight_outer() * corr_x, y: g5y + ut_weight_outer() * corr_y },
        v6: Vec2 { x: g6x + ut_weight_outer() * corr_x, y: g6y + ut_weight_outer() * corr_y },
    }
}

/// The gradient with respect to each image, given the gradients with respect to their
/// mean and their covariance. `v_cov2d` holds one entry of a symmetric matrix per slot.
/// See [`lemma_sigma_image_vjp`](crate::kernels::unscented::lemma_sigma_image_vjp).
#[verifier::when_used_as_spec(spec_sigma_image_vjp)]
pub fn sigma_image_vjp(
    images: &SigmaImages,
    v_mean2d: &Vec2,
    v_cov2d: &Sym2,
) -> (r: SigmaGradients)
    ensures
        r == sigma_image_vjp(images, v_mean2d, v_cov2d),
{
    let mean2d = sigma_mean(images);
    let u0x = &images.u0.0;
    let u0y = &images.u0.1;
    let u1x = &images.u1.0;
    let u1y = &images.u1.1;
    let u2x = &images.u2.0;
    let u2y = &images.u2.1;
    let u3x = &images.u3.0;
    let u3y = &images.u3.1;
    let u4x = &images.u4.0;
    let u4y = &images.u4.1;
    let u5x = &images.u5.0;
    let u5y = &images.u5.1;
    let u6x = &images.u6.0;
    let u6y = &images.u6.1;
    let d0x = u0x - &mean2d.x;
    let d0y = u0y - &mean2d.y;
    let d1x = u1x - &mean2d.x;
    let d1y = u1y - &mean2d.y;
    let d2x = u2x - &mean2d.x;
    let d2y = u2y - &mean2d.y;
    let d3x = u3x - &mean2d.x;
    let d3y = u3y - &mean2d.y;
    let d4x = u4x - &mean2d.x;
    let d4y = u4y - &mean2d.y;
    let d5x = u5x - &mean2d.x;
    let d5y = u5y - &mean2d.y;
    let d6x = u6x - &mean2d.x;
    let d6y = u6y - &mean2d.y;
    let v00 = &v_cov2d.c00;
    let v01 = &v_cov2d.c01;
    let v11 = &v_cov2d.c11;
    // The covariance as if each deviation were independent. It reaches both off-diagonal slots.
    let g0x = ut_weight_cov_center() * (Scalar::num(2) * v00 * &d0x + Scalar::num(2) * v01 * &d0y);
    let g0y = ut_weight_cov_center() * (Scalar::num(2) * v11 * &d0y + Scalar::num(2) * v01 * &d0x);
    let g1x = ut_weight_outer() * (Scalar::num(2) * v00 * &d1x + Scalar::num(2) * v01 * &d1y);
    let g1y = ut_weight_outer() * (Scalar::num(2) * v11 * &d1y + Scalar::num(2) * v01 * &d1x);
    let g2x = ut_weight_outer() * (Scalar::num(2) * v00 * &d2x + Scalar::num(2) * v01 * &d2y);
    let g2y = ut_weight_outer() * (Scalar::num(2) * v11 * &d2y + Scalar::num(2) * v01 * &d2x);
    let g3x = ut_weight_outer() * (Scalar::num(2) * v00 * &d3x + Scalar::num(2) * v01 * &d3y);
    let g3y = ut_weight_outer() * (Scalar::num(2) * v11 * &d3y + Scalar::num(2) * v01 * &d3x);
    let g4x = ut_weight_outer() * (Scalar::num(2) * v00 * &d4x + Scalar::num(2) * v01 * &d4y);
    let g4y = ut_weight_outer() * (Scalar::num(2) * v11 * &d4y + Scalar::num(2) * v01 * &d4x);
    let g5x = ut_weight_outer() * (Scalar::num(2) * v00 * &d5x + Scalar::num(2) * v01 * &d5y);
    let g5y = ut_weight_outer() * (Scalar::num(2) * v11 * &d5y + Scalar::num(2) * v01 * &d5x);
    let g6x = ut_weight_outer() * (Scalar::num(2) * v00 * &d6x + Scalar::num(2) * v01 * &d6y);
    let g6y = ut_weight_outer() * (Scalar::num(2) * v11 * &d6y + Scalar::num(2) * v01 * &d6x);
    let g_sum_x = &g0x + &g1x + &g2x + &g3x + &g4x + &g5x + &g6x;
    let g_sum_y = &g0y + &g1y + &g2y + &g3y + &g4y + &g5y + &g6y;
    // Every deviation depends on every image through the mean.
    let corr_x = &v_mean2d.x - &g_sum_x;
    let corr_y = &v_mean2d.y - &g_sum_y;
    SigmaGradients {
        v0: Vec2 { x: &g0x + ut_weight_mean_center() * &corr_x,
            y: &g0y + ut_weight_mean_center() * &corr_y },
        v1: Vec2 { x: &g1x + ut_weight_outer() * &corr_x, y: &g1y + ut_weight_outer() * &corr_y },
        v2: Vec2 { x: &g2x + ut_weight_outer() * &corr_x, y: &g2y + ut_weight_outer() * &corr_y },
        v3: Vec2 { x: &g3x + ut_weight_outer() * &corr_x, y: &g3y + ut_weight_outer() * &corr_y },
        v4: Vec2 { x: &g4x + ut_weight_outer() * &corr_x, y: &g4y + ut_weight_outer() * &corr_y },
        v5: Vec2 { x: &g5x + ut_weight_outer() * &corr_x, y: &g5y + ut_weight_outer() * &corr_y },
        v6: Vec2 { x: &g6x + ut_weight_outer() * &corr_x, y: &g6y + ut_weight_outer() * &corr_y },
    }
}

pub open spec fn spec_sigma_point_vjp(
    jacobians: &SigmaJacobians,
    grads: &SigmaGradients,
) -> (Vec3A, Mat3) {
    let vpt0 = jacobians.j0.transpose_mul_vec2(&grads.v0);
    let vpt1 = jacobians.j1.transpose_mul_vec2(&grads.v1);
    let vpt2 = jacobians.j2.transpose_mul_vec2(&grads.v2);
    let vpt3 = jacobians.j3.transpose_mul_vec2(&grads.v3);
    let vpt4 = jacobians.j4.transpose_mul_vec2(&grads.v4);
    let vpt5 = jacobians.j5.transpose_mul_vec2(&grads.v5);
    let vpt6 = jacobians.j6.transpose_mul_vec2(&grads.v6);
    let v_mean_c = vpt0.add(&vpt1).add(&vpt2).add(&vpt3).add(&vpt4).add(&vpt5).add(&vpt6);
    let v_ns_col0 = vpt1.sub(&vpt4).scale(&ut_sigma_scale());
    let v_ns_col1 = vpt2.sub(&vpt5).scale(&ut_sigma_scale());
    let v_ns_col2 = vpt3.sub(&vpt6).scale(&ut_sigma_scale());
    let v_ns = spec_from_cols(&v_ns_col0, &v_ns_col1, &v_ns_col2);
    (v_mean_c, v_ns)
}

/// Pulls the gradients of the images back to the mean and to the square root of the
/// covariance. See
/// [`lemma_sigma_point_vjp`](crate::kernels::unscented::lemma_sigma_point_vjp).
#[verifier::when_used_as_spec(spec_sigma_point_vjp)]
pub fn sigma_point_vjp(
    jacobians: &SigmaJacobians,
    grads: &SigmaGradients,
) -> (r: (Vec3A, Mat3))
    ensures
        r == sigma_point_vjp(jacobians, grads),
{
    let vpt0 = jacobians.j0.transpose_mul_vec2(&grads.v0);
    let vpt1 = jacobians.j1.transpose_mul_vec2(&grads.v1);
    let vpt2 = jacobians.j2.transpose_mul_vec2(&grads.v2);
    let vpt3 = jacobians.j3.transpose_mul_vec2(&grads.v3);
    let vpt4 = jacobians.j4.transpose_mul_vec2(&grads.v4);
    let vpt5 = jacobians.j5.transpose_mul_vec2(&grads.v5);
    let vpt6 = jacobians.j6.transpose_mul_vec2(&grads.v6);
    let v_mean_c = vpt0.add(&vpt1).add(&vpt2).add(&vpt3).add(&vpt4).add(&vpt5).add(&vpt6);
    let v_ns_col0 = vpt1.sub(&vpt4).scale(&ut_sigma_scale());
    let v_ns_col1 = vpt2.sub(&vpt5).scale(&ut_sigma_scale());
    let v_ns_col2 = vpt3.sub(&vpt6).scale(&ut_sigma_scale());
    let v_ns = Mat3::from_cols(&v_ns_col0, &v_ns_col1, &v_ns_col2);
    (v_mean_c, v_ns)
}

pub open spec fn spec_calculate_ut_vjp(
    scale: &Vec3A,
    quat: &Quat,
    mean_c: &Vec3A,
    u: &ProjectUniforms,
    v_mean2d: &Vec2,
    v_cov2d: &Sym2,
    camera_model: &CameraModel<Scalar>,
    perspective: &(SigmaImages, SigmaJacobians),
) -> (Vec3A, Mat3) {
    let ns = square_root_matrix(scale, quat, &u.view_rotation);
    let points = sigma_points(mean_c, &ns);
    let images = project_sigma_points(&points, u, camera_model, &perspective.0);
    let grads = sigma_image_vjp(&images, v_mean2d, v_cov2d);
    let jacobians = sigma_jacobians(&points, u, camera_model, &perspective.1);
    sigma_point_vjp(&jacobians, &grads)
}

/// The gradients with respect to the view-space mean and to the square root of the
/// view-space covariance, given the gradients with respect to the mean and covariance of
/// the images. See
/// [`lemma_unscented_gradient`](crate::kernels::unscented::lemma_unscented_gradient).
#[verifier::when_used_as_spec(spec_calculate_ut_vjp)]
pub fn calculate_ut_vjp(
    scale: &Vec3A,
    quat: &Quat,
    mean_c: &Vec3A,
    u: &ProjectUniforms,
    v_mean2d: &Vec2,
    v_cov2d: &Sym2,
    camera_model: &CameraModel<Scalar>,
    perspective: &(SigmaImages, SigmaJacobians),
) -> (r: (Vec3A, Mat3))
    ensures
        r == calculate_ut_vjp(scale, quat, mean_c, u, v_mean2d, v_cov2d, camera_model, perspective),
{
    let ns = square_root_matrix(scale, quat, &u.view_rotation);
    let points = sigma_points(mean_c, &ns);
    let images = project_sigma_points(&points, u, camera_model, &perspective.0);
    let grads = sigma_image_vjp(&images, v_mean2d, v_cov2d);
    let jacobians = sigma_jacobians(&points, u, camera_model, &perspective.1);
    sigma_point_vjp(&jacobians, &grads)
}

} // verus!
