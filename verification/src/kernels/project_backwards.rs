//! Backward projection: from the gradients that the rasterizer leaves per
//! visible splat to the gradients of the splat's own parameters.
use crate::camera_model::{
    calculate_project_jacobian, calculate_projection_vjp, CameraModel, ProjectUniforms,
};
use crate::cube::mat::spec_from_cols;
use crate::cube::{is_finite_f32, sigmoid, Mat2x3, Mat3, Pad, Quat, Sym2, Sym3, Vec2, Vec3A};
use crate::expr::{decimal, whole, Scalar, Test};
use crate::kernels::ut_vjp::{calculate_ut_vjp, SigmaImages, SigmaJacobians};
use vstd::prelude::*;

verus! {

/// Threads per workgroup.
pub const WG_SIZE: u32 = 256;

pub open spec fn spec_apply_normalize_vjp(
    q: &Quat,
    g: &Quat,
) -> Quat {
    let lsq = q.dot(q);
    let l = lsq.sqrt();
    let inv = whole(1) / (l * lsq);
    let qw = q.w;
    let qx = q.x;
    let qy = q.y;
    let qz = q.z;
    let gw = g.w;
    let gx = g.x;
    let gy = g.y;
    let gz = g.z;
    let cc0 = -qw * qx;
    let cc1 = -qx * qy;
    let cc2 = -qy * qw;
    let cs0 = -qw * qz;
    let cs1 = -qx * qz;
    let cs2 = -qy * qz;
    let q_sqr_w = qw * qw;
    let q_sqr_x = qx * qx;
    let q_sqr_y = qy * qy;
    let q_sqr_z = qz * qz;
    Quat {
        w: ((lsq - q_sqr_w) * gw + cc0 * gx + cc2 * gy + cs0 * gz) * inv,
        x: (cc0 * gw + (lsq - q_sqr_x) * gx + cc1 * gy + cs1 * gz) * inv,
        y: (cc2 * gw + cc1 * gx + (lsq - q_sqr_y) * gy + cs2 * gz) * inv,
        z: (cs0 * gw + cs1 * gx + cs2 * gy + (lsq - q_sqr_z) * gz) * inv,
    }
}

/// Pulls a gradient `g` back through `q / |q|`. See
/// [`lemma_apply_normalize_vjp`](crate::kernels::gradients::lemma_apply_normalize_vjp).
#[verifier::when_used_as_spec(spec_apply_normalize_vjp)]
pub fn apply_normalize_vjp(
    q: &Quat,
    g: &Quat,
) -> (r: Quat)
    ensures
        r == apply_normalize_vjp(q, g),
{
    let lsq = q.dot(q);
    let l = lsq.sqrt();
    let inv = Scalar::num(1) / (&l * &lsq);
    let qw = &q.w;
    let qx = &q.x;
    let qy = &q.y;
    let qz = &q.z;
    let gw = &g.w;
    let gx = &g.x;
    let gy = &g.y;
    let gz = &g.z;
    let cc0 = qw.neg() * qx;
    let cc1 = qx.neg() * qy;
    let cc2 = qy.neg() * qw;
    let cs0 = qw.neg() * qz;
    let cs1 = qx.neg() * qz;
    let cs2 = qy.neg() * qz;
    let q_sqr_w = qw * qw;
    let q_sqr_x = qx * qx;
    let q_sqr_y = qy * qy;
    let q_sqr_z = qz * qz;
    Quat {
        w: ((&lsq - &q_sqr_w) * gw + &cc0 * gx + &cc2 * gy + &cs0 * gz) * &inv,
        x: (&cc0 * gw + (&lsq - &q_sqr_x) * gx + &cc1 * gy + &cs1 * gz) * &inv,
        y: (&cc2 * gw + &cc1 * gx + (&lsq - &q_sqr_y) * gy + &cs2 * gz) * &inv,
        z: (&cs0 * gw + &cs1 * gx + &cs2 * gy + (&lsq - &q_sqr_z) * gz) * &inv,
    }
}

pub open spec fn spec_quat_to_mat_vjp(
    q: &Quat,
    v_r: &Mat3,
) -> Quat {
    let qw = q.w;
    let qx = q.x;
    let qy = q.y;
    let qz = q.z;
    let w_grad = qx * (v_r.c1_z - v_r.c2_y) + qy * (v_r.c2_x - v_r.c0_z)
        + qz * (v_r.c0_y - v_r.c1_x);
    let x_grad = whole((-2) as i64) * qx * (v_r.c1_y + v_r.c2_z) + qy * (v_r.c0_y + v_r.c1_x)
        + qz * (v_r.c0_z + v_r.c2_x) + qw * (v_r.c1_z - v_r.c2_y);
    let y_grad = qx * (v_r.c0_y + v_r.c1_x) - whole(2) * qy * (v_r.c0_x + v_r.c2_z)
        + qz * (v_r.c1_z + v_r.c2_y) + qw * (v_r.c2_x - v_r.c0_z);
    let z_grad = qx * (v_r.c0_z + v_r.c2_x) + qy * (v_r.c1_z + v_r.c2_y)
        - whole(2) * qz * (v_r.c0_x + v_r.c1_y) + qw * (v_r.c0_y - v_r.c1_x);
    Quat {
        w: whole(2) * w_grad,
        x: whole(2) * x_grad,
        y: whole(2) * y_grad,
        z: whole(2) * z_grad,
    }
}

/// Pulls the gradient `v_r` of a rotation matrix back to the quaternion it was made from.
/// See [`lemma_quat_to_mat_vjp`](crate::kernels::gradients::lemma_quat_to_mat_vjp).
#[verifier::when_used_as_spec(spec_quat_to_mat_vjp)]
pub fn quat_to_mat_vjp(
    q: &Quat,
    v_r: &Mat3,
) -> (r: Quat)
    ensures
        r == quat_to_mat_vjp(q, v_r),
{
    let qw = &q.w;
    let qx = &q.x;
    let qy = &q.y;
    let qz = &q.z;
    let w_grad = qx * (&v_r.c1_z - &v_r.c2_y) + qy * (&v_r.c2_x - &v_r.c0_z)
        + qz * (&v_r.c0_y - &v_r.c1_x);
    let x_grad = Scalar::num(-2) * qx * (&v_r.c1_y + &v_r.c2_z) + qy * (&v_r.c0_y + &v_r.c1_x)
        + qz * (&v_r.c0_z + &v_r.c2_x) + qw * (&v_r.c1_z - &v_r.c2_y);
    let y_grad = qx * (&v_r.c0_y + &v_r.c1_x) - Scalar::num(2) * qy * (&v_r.c0_x + &v_r.c2_z)
        + qz * (&v_r.c1_z + &v_r.c2_y) + qw * (&v_r.c2_x - &v_r.c0_z);
    let z_grad = qx * (&v_r.c0_z + &v_r.c2_x) + qy * (&v_r.c1_z + &v_r.c2_y)
        - Scalar::num(2) * qz * (&v_r.c0_x + &v_r.c1_y) + qw * (&v_r.c0_y - &v_r.c1_x);
    Quat {
        w: Scalar::num(2) * &w_grad,
        x: Scalar::num(2) * &x_grad,
        y: Scalar::num(2) * &y_grad,
        z: Scalar::num(2) * &z_grad,
    }
}

pub open spec fn spec_inverse2x2_vjp(
    minv: &Sym2,
    v_minv: &Sym2,
) -> Sym2 {
    let tmp00 = -minv.c00 * v_minv.c00 + -minv.c01 * v_minv.c01;
    let tmp01 = -minv.c01 * v_minv.c00 + -minv.c11 * v_minv.c01;
    let tmp10 = -minv.c00 * v_minv.c01 + -minv.c01 * v_minv.c11;
    let tmp11 = -minv.c01 * v_minv.c01 + -minv.c11 * v_minv.c11;
    Sym2 {
        c00: tmp00 * minv.c00 + tmp10 * minv.c01,
        c01: tmp01 * minv.c00 + tmp11 * minv.c01,
        c11: tmp01 * minv.c01 + tmp11 * minv.c11,
    }
}

/// Pulls the gradient `v_minv` of an inverse back to the matrix, given the inverse `minv`:
/// `-minv * v_minv * minv`.
#[verifier::when_used_as_spec(spec_inverse2x2_vjp)]
pub fn inverse2x2_vjp(
    minv: &Sym2,
    v_minv: &Sym2,
) -> (r: Sym2)
    ensures
        r == inverse2x2_vjp(minv, v_minv),
{
    let tmp00 = minv.c00.neg() * &v_minv.c00 + minv.c01.neg() * &v_minv.c01;
    let tmp01 = minv.c01.neg() * &v_minv.c00 + minv.c11.neg() * &v_minv.c01;
    let tmp10 = minv.c00.neg() * &v_minv.c01 + minv.c01.neg() * &v_minv.c11;
    let tmp11 = minv.c01.neg() * &v_minv.c01 + minv.c11.neg() * &v_minv.c11;
    Sym2 {
        c00: &tmp00 * &minv.c00 + &tmp10 * &minv.c01,
        c01: &tmp01 * &minv.c00 + &tmp11 * &minv.c01,
        c11: &tmp01 * &minv.c01 + &tmp11 * &minv.c11,
    }
}

/// What the rasterizer left for one visible splat: ten numbers, in this order.
pub struct SplatRasterGrads {
    pub mean2d: Vec2,
    pub conics: Vec3A,
    pub color: Vec3A,
    pub alpha: Scalar,
    pub refine: Scalar,
}

/// The ten numbers that start at `base`.
pub open spec fn rasterize_grads_at(grads: Seq<Scalar>, base: int) -> SplatRasterGrads {
    SplatRasterGrads {
        mean2d: Vec2 { x: grads[base], y: grads[base + 1] },
        conics: Vec3A { x: grads[base + 2], y: grads[base + 3], z: grads[base + 4],
            pad: Pad::Zero },
        color: Vec3A { x: grads[base + 5], y: grads[base + 6], z: grads[base + 7], pad: Pad::Zero },
        alpha: grads[base + 8],
        refine: grads[base + 9],
    }
}

pub open spec fn spec_any_grad(
    g: &SplatRasterGrads,
) -> Test {
    let zero = whole(0);
    g.mean2d.x.ne(&zero).or(&g.mean2d.y.ne(&zero)).or(&g.conics.x.ne(&zero))
        .or(&g.conics.y.ne(&zero)).or(&g.conics.z.ne(&zero)).or(&g.color.x.ne(&zero))
        .or(&g.color.y.ne(&zero)).or(&g.color.z.ne(&zero)).or(&g.alpha.ne(&zero))
        .or(&g.refine.ne(&zero))
}

/// Some number that the rasterizer left is not zero: the splat contributed to a pixel.
#[verifier::when_used_as_spec(spec_any_grad)]
pub fn any_grad(
    g: &SplatRasterGrads,
) -> (r: Test)
    ensures
        r == any_grad(g),
{
    let zero = Scalar::num(0);
    g.mean2d.x.ne(&zero).or(&g.mean2d.y.ne(&zero)).or(&g.conics.x.ne(&zero))
        .or(&g.conics.y.ne(&zero)).or(&g.conics.z.ne(&zero)).or(&g.color.x.ne(&zero))
        .or(&g.color.y.ne(&zero)).or(&g.color.z.ne(&zero)).or(&g.alpha.ne(&zero))
        .or(&g.refine.ne(&zero))
}

pub open spec fn spec_view_direction(
    mean: &Vec3A,
    camera_pos: &Vec3A,
) -> (Vec3A, Scalar) {
    let u_world = mean.sub(camera_pos);
    let u_len = u_world.length();
    let v = u_world.scale(&(whole(1) / u_len));
    (v, u_len)
}

/// The unit vector from the camera to the splat, and the distance.
#[verifier::when_used_as_spec(spec_view_direction)]
pub fn view_direction(
    mean: &Vec3A,
    camera_pos: &Vec3A,
) -> (r: (Vec3A, Scalar))
    ensures
        r == view_direction(mean, camera_pos),
{
    let u_world = mean.sub(camera_pos);
    let u_len = u_world.length();
    let v = u_world.scale(&(Scalar::num(1) / &u_len));
    (v, u_len)
}

pub open spec fn spec_view_direction_vjp(
    view: &(Vec3A, Scalar),
    v_v: &Vec3A,
) -> Vec3A {
    let v = view.0;
    let u_len = view.1;
    let v_dot_vv = v.dot(v_v);
    v_v.sub(&v.scale(&v_dot_vv)).scale(&(whole(1) / u_len))
}

/// Pulls the gradient `v_v` of the view direction back to the mean. See
/// [`lemma_view_direction_vjp`](crate::kernels::gradients::lemma_view_direction_vjp).
#[verifier::when_used_as_spec(spec_view_direction_vjp)]
pub fn view_direction_vjp(
    view: &(Vec3A, Scalar),
    v_v: &Vec3A,
) -> (r: Vec3A)
    ensures
        r == view_direction_vjp(view, v_v),
{
    let v = &view.0;
    let u_len = &view.1;
    let v_dot_vv = v.dot(v_v);
    v_v.sub(&v.scale(&v_dot_vv)).scale(&(Scalar::num(1) / u_len))
}

pub open spec fn spec_raw_opacity_vjp(
    raw_opac: &Scalar,
    filter_comp: &Scalar,
    v_alpha: &Scalar,
) -> Scalar {
    let opac_sig = sigmoid(raw_opac);
    *filter_comp * *v_alpha * opac_sig * (whole(1) - opac_sig)
}

/// The gradient of the opacity logit. See
/// [`lemma_raw_opacity_vjp`](crate::kernels::gradients::lemma_raw_opacity_vjp).
#[verifier::when_used_as_spec(spec_raw_opacity_vjp)]
pub fn raw_opacity_vjp(
    raw_opac: &Scalar,
    filter_comp: &Scalar,
    v_alpha: &Scalar,
) -> (r: Scalar)
    ensures
        r == raw_opacity_vjp(raw_opac, filter_comp, v_alpha),
{
    let opac_sig = sigmoid(raw_opac);
    filter_comp * v_alpha * &opac_sig * (Scalar::num(1) - &opac_sig)
}

pub open spec fn spec_clean_refine_weight(
    v_refine: &Scalar,
) -> Scalar {
    let zero = whole(0);
    let refine_clean = is_finite_f32(v_refine).select(v_refine, &zero);
    refine_clean.clamp(&zero, &decimal(1, 32))
}

/// The refinement weight that is kept: finite and not negative.
#[verifier::when_used_as_spec(spec_clean_refine_weight)]
pub fn clean_refine_weight(
    v_refine: &Scalar,
) -> (r: Scalar)
    ensures
        r == clean_refine_weight(v_refine),
{
    let zero = Scalar::num(0);
    let refine_clean = is_finite_f32(v_refine).select(v_refine, &zero);
    refine_clean.clamp(&zero, &Scalar::lit(1, 32))
}

pub open spec fn spec_conic_vjp(
    cov: &Sym2,
    v_conics: &Vec3A,
) -> Sym2 {
    let conic_inv = cov.inverse();
    let v_inv = Sym2 {
        c00: v_conics.x,
        c01: v_conics.y * decimal(5, (-1) as i32),
        c11: v_conics.z,
    };
    inverse2x2_vjp(&conic_inv, &v_inv)
}

/// Pulls the gradient of the conic, the inverse of the covariance, back to the
/// covariance. The off-diagonal gradient of the conic stands for both slots. See
/// [`lemma_conic_vjp`](crate::kernels::gradients::lemma_conic_vjp).
#[verifier::when_used_as_spec(spec_conic_vjp)]
pub fn conic_vjp(
    cov: &Sym2,
    v_conics: &Vec3A,
) -> (r: Sym2)
    ensures
        r == conic_vjp(cov, v_conics),
{
    let conic_inv = cov.inverse();
    let v_inv = Sym2 {
        c00: v_conics.x.clone(),
        c01: &v_conics.y * Scalar::lit(5, -1),
        c11: v_conics.z.clone(),
    };
    inverse2x2_vjp(&conic_inv, &v_inv)
}

pub open spec fn spec_camera_covariance(
    m: &Mat3,
    view_rotation: &Mat3,
) -> Sym3 {
    m.outer_product_self().congruence(view_rotation)
}

/// The covariance in camera space of a splat whose rotation and extent are `m`.
#[verifier::when_used_as_spec(spec_camera_covariance)]
pub fn camera_covariance(
    m: &Mat3,
    view_rotation: &Mat3,
) -> (r: Sym3)
    ensures
        r == camera_covariance(m, view_rotation),
{
    m.outer_product_self().congruence(view_rotation)
}

/// What the perspective models give at the splat: the Jacobian at the mean
/// under the launch's own limits, the gradient that their projection pulls back
/// to the mean, and what they give at the sigma points.
pub struct PerspectiveResults {
    pub jacobian: Mat2x3,
    pub v_mean_c: Vec3A,
    pub sigma: (SigmaImages, SigmaJacobians),
}

pub open spec fn spec_affine_vjp(
    m: &Mat3,
    mean_c: &Vec3A,
    u: &ProjectUniforms,
    v_mean2d: &Vec2,
    v_cov2d: &Sym2,
    camera_model: &CameraModel<Scalar>,
    perspective: &PerspectiveResults,
) -> (Vec3A, Mat3) {
    let cov_c = camera_covariance(m, &u.view_rotation);
    let cam_jac = calculate_project_jacobian(mean_c, &u.pinhole_params, &u.half_max_render_fov,
        camera_model, &perspective.jacobian);
    let v_mean_c = calculate_projection_vjp(&cam_jac, mean_c, &cov_c, u, v_cov2d, v_mean2d,
        camera_model, &perspective.v_mean_c);
    let vcc = cam_jac.transpose_congruence_sym2(v_cov2d);
    let v_m = vcc.transpose_congruence(&u.view_rotation).scale(&whole(2)).mul_mat3(m);
    (Vec3A { x: v_mean_c.x, y: v_mean_c.y, z: v_mean_c.z, pad: Pad::Zero }, v_m)
}

/// The gradients with respect to the camera-space mean and to `m` when the projection is
/// taken as affine around the mean. See
/// [`lemma_affine_gradient`](crate::kernels::splat_gradient::lemma_affine_gradient).
#[verifier::when_used_as_spec(spec_affine_vjp)]
pub fn affine_vjp(
    m: &Mat3,
    mean_c: &Vec3A,
    u: &ProjectUniforms,
    v_mean2d: &Vec2,
    v_cov2d: &Sym2,
    camera_model: &CameraModel<Scalar>,
    perspective: &PerspectiveResults,
) -> (r: (Vec3A, Mat3))
    ensures
        r == affine_vjp(m, mean_c, u, v_mean2d, v_cov2d, camera_model, perspective),
{
    let cov_c = camera_covariance(m, &u.view_rotation);
    let cam_jac = calculate_project_jacobian(mean_c, &u.pinhole_params, &u.half_max_render_fov,
        camera_model, &perspective.jacobian);
    let v_mean_c = calculate_projection_vjp(&cam_jac, mean_c, &cov_c, u, v_cov2d, v_mean2d,
        camera_model, &perspective.v_mean_c);
    let vcc = cam_jac.transpose_congruence_sym2(v_cov2d);
    let v_m = vcc.transpose_congruence(&u.view_rotation).scale(&Scalar::num(2)).mul_mat3(m);
    (Vec3A::new(v_mean_c.x, v_mean_c.y, v_mean_c.z), v_m)
}

pub open spec fn spec_unscented_vjp(
    scale: &Vec3A,
    quat: &Quat,
    mean_c: &Vec3A,
    u: &ProjectUniforms,
    v_mean2d: &Vec2,
    v_cov2d: &Sym2,
    camera_model: &CameraModel<Scalar>,
    perspective: &PerspectiveResults,
) -> (Vec3A, Mat3) {
    let g = calculate_ut_vjp(scale, quat, mean_c, u, v_mean2d, v_cov2d, camera_model,
        &perspective.sigma);
    let vm0 = u.view_rotation.transpose_mul_vec3(&g.1.col0());
    let vm1 = u.view_rotation.transpose_mul_vec3(&g.1.col1());
    let vm2 = u.view_rotation.transpose_mul_vec3(&g.1.col2());
    let v_m = spec_from_cols(&vm0, &vm1, &vm2);
    (Vec3A { x: g.0.x, y: g.0.y, z: g.0.z, pad: Pad::Zero }, v_m)
}

/// The gradients with respect to the camera-space mean and to the rotation and extent
/// when the projection goes through the sigma points. See
/// [`lemma_unscented_vjp`](crate::kernels::splat_gradient::lemma_unscented_vjp).
#[verifier::when_used_as_spec(spec_unscented_vjp)]
pub fn unscented_vjp(
    scale: &Vec3A,
    quat: &Quat,
    mean_c: &Vec3A,
    u: &ProjectUniforms,
    v_mean2d: &Vec2,
    v_cov2d: &Sym2,
    camera_model: &CameraModel<Scalar>,
    perspective: &PerspectiveResults,
) -> (r: (Vec3A, Mat3))
    ensures
        r == unscented_vjp(scale, quat, mean_c, u, v_mean2d, v_cov2d, camera_model, perspective),
{
    let g = calculate_ut_vjp(scale, quat, mean_c, u, v_mean2d, v_cov2d, camera_model,
        &perspective.sigma);
    let vm0 = u.view_rotation.transpose_mul_vec3(&g.1.col0());
    let vm1 = u.view_rotation.transpose_mul_vec3(&g.1.col1());
    let vm2 = u.view_rotation.transpose_mul_vec3(&g.1.col2());
    let v_m = Mat3::from_cols(&vm0, &vm1, &vm2);
    (Vec3A::new(g.0.x, g.0.y, g.0.z), v_m)
}

/// The gradient of a splat's own parameters: position, quaternion and logarithm
/// of the extent.
pub struct TransformGrads {
    pub mean: Vec3A,
    pub quat: Quat,
    pub log_scale: Vec3A,
}

/// The parameters of a splat, as the shared readers give them.
pub struct SplatTransform {
    pub mean: Vec3A,
    pub mean_c: Vec3A,
    pub scale: Vec3A,
    pub quat_unorm: Quat,
}

pub open spec fn spec_transform_vjp(
    splat: &SplatTransform,
    view_rotation: &Mat3,
    v_mean_c: &Vec3A,
    v_m: &Mat3,
    v_mean_from_sh: &Vec3A,
) -> TransformGrads {
    let quat = splat.quat_unorm.normalize();
    let r = quat.to_mat3();
    let v_mean = view_rotation.transpose_mul_vec3(v_mean_c).add(v_mean_from_sh);
    let v_scale_x = r.col0().dot(&v_m.col0()) * splat.scale.x;
    let v_scale_y = r.col1().dot(&v_m.col1()) * splat.scale.y;
    let v_scale_z = r.col2().dot(&v_m.col2()) * splat.scale.z;
    let q_grad = quat_to_mat_vjp(&quat, &v_m.mul_diag(&splat.scale));
    let v_q = apply_normalize_vjp(&splat.quat_unorm, &q_grad);
    TransformGrads {
        mean: v_mean,
        quat: v_q,
        log_scale: Vec3A { x: v_scale_x, y: v_scale_y, z: v_scale_z, pad: Pad::Zero },
    }
}

/// Pulls the gradients of the camera-space mean and of the rotation and extent back to
/// the splat's parameters. `v_mean_from_sh` reaches the mean through the view direction.
/// See [`lemma_transform_vjp`](crate::kernels::chain::lemma_transform_vjp).
#[verifier::when_used_as_spec(spec_transform_vjp)]
pub fn transform_vjp(
    splat: &SplatTransform,
    view_rotation: &Mat3,
    v_mean_c: &Vec3A,
    v_m: &Mat3,
    v_mean_from_sh: &Vec3A,
) -> (r: TransformGrads)
    ensures
        r == transform_vjp(splat, view_rotation, v_mean_c, v_m, v_mean_from_sh),
{
    let quat = splat.quat_unorm.normalize();
    let r = quat.to_mat3();
    let v_mean = view_rotation.transpose_mul_vec3(v_mean_c).add(v_mean_from_sh);
    let v_scale_x = r.col0().dot(&v_m.col0()) * &splat.scale.x;
    let v_scale_y = r.col1().dot(&v_m.col1()) * &splat.scale.y;
    let v_scale_z = r.col2().dot(&v_m.col2()) * &splat.scale.z;
    let q_grad = quat_to_mat_vjp(&quat, &v_m.mul_diag(&splat.scale));
    let v_q = apply_normalize_vjp(&splat.quat_unorm, &q_grad);
    TransformGrads {
        mean: v_mean,
        quat: v_q,
        log_scale: Vec3A { x: v_scale_x, y: v_scale_y, z: v_scale_z, pad: Pad::Zero },
    }
}

/// What the shared helpers give for the splat: the filtered covariance in the
/// image and its compensation, the gradient of the colour with respect to the
/// view direction, and the gradient of the colour with respect to every
/// coefficient.
pub struct SplatHelpers {
    pub cov: Sym2,
    pub filter_comp: Scalar,
    pub v_view_direction: Vec3A,
    pub v_coeffs: Vec<Scalar>,
}

pub open spec fn spec_project_splat_vjp(
    splat: &SplatTransform,
    g: &SplatRasterGrads,
    u: &ProjectUniforms,
    use_ut: bool,
    camera_model: &CameraModel<Scalar>,
    helpers: &SplatHelpers,
    perspective: &PerspectiveResults,
) -> TransformGrads {
    let quat = splat.quat_unorm.normalize();
    let v_cov2d = conic_vjp(&helpers.cov, &g.conics);
    let (v_mean_c, v_m) = if use_ut {
        unscented_vjp(
            &splat.scale,
            &quat,
            &splat.mean_c,
            u,
            &g.mean2d,
            &v_cov2d,
            camera_model,
            perspective,
        )
    } else {
        affine_vjp(
            &quat.to_mat3().mul_diag(&splat.scale),
            &splat.mean_c,
            u,
            &g.mean2d,
            &v_cov2d,
            camera_model,
            perspective,
        )
    };
    let v_mean_from_sh = view_direction_vjp(
        &view_direction(&splat.mean, &u.camera_pos),
        &helpers.v_view_direction,
    );
    transform_vjp(splat, &u.view_rotation, &v_mean_c, &v_m, &v_mean_from_sh)
}

/// The gradients of a splat's parameters, given what the rasterizer left for it. That
/// they are is
/// [`lemma_project_splat_vjp`](crate::kernels::splat_gradient::lemma_project_splat_vjp).
#[verifier::when_used_as_spec(spec_project_splat_vjp)]
pub fn project_splat_vjp(
    splat: &SplatTransform,
    g: &SplatRasterGrads,
    u: &ProjectUniforms,
    use_ut: bool,
    camera_model: &CameraModel<Scalar>,
    helpers: &SplatHelpers,
    perspective: &PerspectiveResults,
) -> (r: TransformGrads)
    ensures
        r == project_splat_vjp(splat, g, u, use_ut, camera_model, helpers, perspective),
{
    let quat = splat.quat_unorm.normalize();
    let v_cov2d = conic_vjp(&helpers.cov, &g.conics);
    let (v_mean_c, v_m) = if use_ut {
        unscented_vjp(
            &splat.scale,
            &quat,
            &splat.mean_c,
            u,
            &g.mean2d,
            &v_cov2d,
            camera_model,
            perspective,
        )
    } else {
        affine_vjp(
            &quat.to_mat3().mul_diag(&splat.scale),
            &splat.mean_c,
            u,
            &g.mean2d,
            &v_cov2d,
            camera_model,
            perspective,
        )
    };
    let v_mean_from_sh = view_direction_vjp(
        &view_direction(&splat.mean, &u.camera_pos),
        &helpers.v_view_direction,
    );
    transform_vjp(splat, &u.view_rotation, &v_mean_c, &v_m, &v_mean_from_sh)
}

impl TransformGrads {
    /// The ten numbers in the order in which the parameters lie in a row.
    pub open spec fn row(self) -> Seq<Scalar> {
        seq![
            self.mean.x,
            self.mean.y,
            self.mean.z,
            self.quat.w,
            self.quat.x,
            self.quat.y,
            self.quat.z,
            self.log_scale.x,
            self.log_scale.y,
            self.log_scale.z,
        ]
    }

    /// The ten numbers in the order in which the parameters lie in a row.
    pub fn to_row(&self) -> (r: Vec<Scalar>)
        ensures
            r@ == self.row(),
    {
        let mut r: Vec<Scalar> = Vec::new();
        r.push(self.mean.x.clone());
        r.push(self.mean.y.clone());
        r.push(self.mean.z.clone());
        r.push(self.quat.w.clone());
        r.push(self.quat.x.clone());
        r.push(self.quat.y.clone());
        r.push(self.quat.z.clone());
        r.push(self.log_scale.x.clone());
        r.push(self.log_scale.y.clone());
        r.push(self.log_scale.z.clone());
        r
    }
}

/// `buffer` with `row` in the place of the numbers from `base` on, where the
/// device finds that `keep` holds.
pub open spec fn masked_row(
    buffer: Seq<Scalar>,
    base: int,
    row: Seq<Scalar>,
    keep: Test,
) -> Seq<Scalar> {
    Seq::new(
        buffer.len(),
        |i: int|
            if base <= i < base + row.len() {
                keep.select(&row[i - base], &buffer[i])
            } else {
                buffer[i]
            },
    )
}

/// Writes `row` from `base` on, where the device finds that `keep` holds.
pub fn write_masked_row(buffer: &mut Vec<Scalar>, base: usize, row: &Vec<Scalar>, keep: &Test)
    requires
        base + row@.len() <= old(buffer)@.len(),
    ensures
        final(buffer)@ == masked_row(old(buffer)@, base as int, row@, *keep),
{
    let len: usize = buffer.len();
    let mut i: usize = 0;
    while i < row.len()
        invariant
            i <= row@.len(),
            base + row@.len() <= len,
            old(buffer)@.len() == len,
            buffer@ == masked_row(old(buffer)@, base as int, row@.take(i as int), *keep),
        decreases row@.len() - i,
    {
        let x = keep.select(&row[i], &buffer[base + i]);
        buffer.set(base + i, x);
        i = i + 1;
    }
    assert(row@.take(row@.len() as int) == row@);
}

/// The dense gradient buffers of one launch.
pub struct SplatGrads {
    pub v_transforms: Vec<Scalar>,
    pub v_coeffs: Vec<Scalar>,
    pub v_raw_opac: Vec<Scalar>,
    pub v_refine_weight: Vec<Scalar>,
}

/// What the launch reads.
pub struct BackwardInputs {
    pub transforms: Vec<Scalar>,
    pub raw_opac: Vec<Scalar>,
    pub global_from_compact_gid: Vec<u32>,
    pub v_rasterize_grads: Vec<Scalar>,
}

impl BackwardInputs {
    /// The visible splat `compact_gid` names a splat whose ten parameters, and
    /// whose ten gradients, are there. Indices on the device have 32 bits.
    pub open spec fn covers(&self, compact_gid: u32) -> bool {
        &&& compact_gid < self.global_from_compact_gid@.len()
        &&& 10 * compact_gid + 10 <= self.v_rasterize_grads@.len() <= u32::MAX
        &&& self.global_from_compact_gid@[compact_gid as int] < self.raw_opac@.len()
        &&& 10 * self.raw_opac@.len() <= self.transforms@.len() <= u32::MAX
    }
}

impl SplatGrads {
    /// There is a place for every splat of the inputs, with `n` numbers for the
    /// coefficients of each.
    pub open spec fn fits(&self, inputs: &BackwardInputs, n: int) -> bool {
        &&& self.v_transforms@.len() == inputs.transforms@.len()
        &&& self.v_raw_opac@.len() == inputs.raw_opac@.len()
        &&& self.v_refine_weight@.len() == inputs.raw_opac@.len()
        &&& self.v_coeffs@.len() == inputs.raw_opac@.len() * n
        &&& self.v_coeffs@.len() <= u32::MAX
    }
}

/// The mean of the splat that lies at `base`.
pub open spec fn mean_at(transforms: Seq<Scalar>, base: int) -> Vec3A {
    Vec3A { x: transforms[base], y: transforms[base + 1], z: transforms[base + 2], pad: Pad::Zero }
}

/// The mean of the splat that lies at `base`.
fn read_mean(transforms: &Vec<Scalar>, base: usize) -> (r: Vec3A)
    requires
        base + 3 <= transforms@.len(),
    ensures
        r == mean_at(transforms@, base as int),
{
    assert(base + 3 <= transforms.len());
    Vec3A {
        x: transforms[base].clone(),
        y: transforms[base + 1].clone(),
        z: transforms[base + 2].clone(),
        pad: Pad::Zero,
    }
}

/// The ten numbers that start at `base`.
fn read_rasterize_grads(grads: &Vec<Scalar>, base: usize) -> (r: SplatRasterGrads)
    requires
        base + 10 <= grads@.len(),
    ensures
        r == rasterize_grads_at(grads@, base as int),
{
    assert(base + 10 <= grads.len());
    SplatRasterGrads {
        mean2d: Vec2 { x: grads[base].clone(), y: grads[base + 1].clone() },
        conics: Vec3A {
            x: grads[base + 2].clone(),
            y: grads[base + 3].clone(),
            z: grads[base + 4].clone(),
            pad: Pad::Zero,
        },
        color: Vec3A {
            x: grads[base + 5].clone(),
            y: grads[base + 6].clone(),
            z: grads[base + 7].clone(),
            pad: Pad::Zero,
        },
        alpha: grads[base + 8].clone(),
        refine: grads[base + 9].clone(),
    }
}

/// What the helpers of the colour are asked for the visible splat `compact_gid`: the
/// direction in which the camera sees it, and the gradient of its colour. Their
/// answers are the gradients of the coefficients and of that direction,
/// [`SplatHelpers::v_coeffs`] and [`SplatHelpers::v_view_direction`].
pub fn sh_request(compact_gid: u32, inputs: &BackwardInputs, u: &ProjectUniforms) -> (r: (
    Vec3A,
    Vec3A,
))
    requires
        inputs.covers(compact_gid),
    ensures
        ({
            let gid = inputs.global_from_compact_gid@[compact_gid as int];
            let mean = mean_at(inputs.transforms@, 10 * gid);
            &&& r.0 == view_direction(&mean, &u.camera_pos).0
            &&& r.1 == rasterize_grads_at(inputs.v_rasterize_grads@, 10 * compact_gid).color
        }),
        ({
            let first = 10 * inputs.global_from_compact_gid@[compact_gid as int];
            let mean = Vec3A {
                x: inputs.transforms@[first],
                y: inputs.transforms@[first + 1],
                z: inputs.transforms@[first + 2],
                pad: Pad::Zero,
            };
            r.0 == view_direction(&mean, &u.camera_pos).0
        }),
        r.1.x == inputs.v_rasterize_grads@[10 * compact_gid + 5],
        r.1.y == inputs.v_rasterize_grads@[10 * compact_gid + 6],
        r.1.z == inputs.v_rasterize_grads@[10 * compact_gid + 7],
{
    let gid: usize = inputs.global_from_compact_gid[compact_gid as usize] as usize;
    let mean = read_mean(&inputs.transforms, gid * 10);
    let g = read_rasterize_grads(&inputs.v_rasterize_grads, compact_gid as usize * 10);
    (view_direction(&mean, &u.camera_pos).0, g.color)
}

/// One thread of the launch: the gradients of the visible splat `compact_gid`.
/// Where the rasterizer left nothing, the buffers keep what they held.
///
/// `splat` is the splat as the shared readers give it, apart from its mean,
/// which is read here. `helpers` holds what the helpers of the colour answered to
/// [`sh_request`].
pub fn project_backwards_kernel(
    compact_gid: u32,
    inputs: &BackwardInputs,
    out: &mut SplatGrads,
    u: &ProjectUniforms,
    use_ut: bool,
    camera_model: &CameraModel<Scalar>,
    splat: &SplatTransform,
    helpers: &SplatHelpers,
    perspective: &PerspectiveResults,
)
    requires
        compact_gid < u.num_visible ==> {
            &&& inputs.covers(compact_gid)
            &&& old(out).fits(inputs, helpers.v_coeffs@.len() as int)
        },
    ensures
        compact_gid >= u.num_visible ==> *final(out) == *old(out),
        compact_gid < u.num_visible ==> {
            let gid = inputs.global_from_compact_gid@[compact_gid as int];
            let g = rasterize_grads_at(inputs.v_rasterize_grads@, 10 * compact_gid);
            let keep = any_grad(&g);
            let at = SplatTransform { mean: mean_at(inputs.transforms@, 10 * gid), ..*splat };
            let row = project_splat_vjp(&at, &g, u, use_ut, camera_model, helpers, perspective);
            &&& final(out).v_transforms@ == masked_row(
                old(out).v_transforms@,
                10 * gid,
                row.row(),
                keep,
            )
            &&& final(out).v_coeffs@ == masked_row(
                old(out).v_coeffs@,
                gid * helpers.v_coeffs@.len(),
                helpers.v_coeffs@,
                keep,
            )
            &&& final(out).v_raw_opac@ == old(out).v_raw_opac@.update(
                gid as int,
                keep.select(
                    &raw_opacity_vjp(
                        &inputs.raw_opac@[gid as int],
                        &helpers.filter_comp,
                        &g.alpha,
                    ),
                    &old(out).v_raw_opac@[gid as int],
                ),
            )
            &&& final(out).v_refine_weight@ == old(out).v_refine_weight@.update(
                gid as int,
                keep.select(
                    &clean_refine_weight(&g.refine),
                    &old(out).v_refine_weight@[gid as int],
                ),
            )
        },
{
    if compact_gid >= u.num_visible {
        return ;
    }
    let gid: usize = inputs.global_from_compact_gid[compact_gid as usize] as usize;
    let g = read_rasterize_grads(&inputs.v_rasterize_grads, compact_gid as usize * 10);
    let keep = any_grad(&g);
    let base: usize = gid * 10;
    let at = SplatTransform {
        mean: read_mean(&inputs.transforms, base),
        mean_c: splat.mean_c.clone(),
        scale: splat.scale.clone(),
        quat_unorm: splat.quat_unorm.clone(),
    };
    let n: usize = helpers.v_coeffs.len();
    assert(gid * n + n <= inputs.raw_opac@.len() * n) by (nonlinear_arith)
        requires
            gid < inputs.raw_opac@.len(),
            n >= 0,
    ;
    write_masked_row(&mut out.v_coeffs, gid * n, &helpers.v_coeffs, &keep);
    let v_opac = keep.select(
        &raw_opacity_vjp(&inputs.raw_opac[gid], &helpers.filter_comp, &g.alpha),
        &out.v_raw_opac[gid],
    );
    out.v_raw_opac.set(gid, v_opac);
    let v_refine = keep.select(&clean_refine_weight(&g.refine), &out.v_refine_weight[gid]);
    out.v_refine_weight.set(gid, v_refine);
    let row = project_splat_vjp(&at, &g, u, use_ut, camera_model, helpers, perspective);
    let cells = row.to_row();
    write_masked_row(&mut out.v_transforms, base, &cells, &keep);
}

} // verus!
