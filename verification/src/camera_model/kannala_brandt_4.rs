//! The Kannala-Brandt fisheye model with four coefficients.
//!
//! A point at the angle `theta` from the optical axis is imaged at the distance
//! `theta * (1 + k1 theta^2 + k2 theta^4 + k3 theta^6 + k4 theta^8)` from the
//! principal point. The polynomial is a fit inside the calibrated field of view
//! only, so the angle is limited to `max_theta` before it is evaluated.
use crate::camera_model::{KannalaBrandt4Params, PinholeParams, ProjectUniforms};
use crate::cube::{Mat2x3, Pad, Sym2, Sym3, Vec2, Vec3A};
use crate::expr::{decimal, whole, Scalar};
use vstd::prelude::*;

verus! {

pub open spec fn spec_project_kb4(
    point: &Vec3A,
    pinhole_params: &PinholeParams,
    max_theta: &Scalar,
    params: &KannalaBrandt4Params<Scalar>,
) -> (Scalar, Scalar) {
    let x = point.x;
    let y = point.y;
    let z = point.z;
    let fx = pinhole_params.fx;
    let fy = pinhole_params.fy;
    let cx = pinhole_params.cx;
    let cy = pinhole_params.cy;
    let k1 = params.k1;
    let k2 = params.k2;
    let k3 = params.k3;
    let k4 = params.k4;
    let inv_z = whole(1) / z;
    let pinhole_u = fx * x * inv_z + cx;
    let pinhole_v = fy * y * inv_z + cy;
    let r = (x * x + y * y).sqrt();
    let theta = r.atan2(&z).min(max_theta);
    let theta2 = theta * theta;
    let theta4 = theta2 * theta2;
    let theta6 = theta2 * theta4;
    let theta8 = theta4 * theta4;
    let d = theta * (whole(1) + k1 * theta2 + k2 * theta4 + k3 * theta6 + k4 * theta8);
    let inv_r = whole(1) / r;
    let fisheye_u = fx * (d * x * inv_r) + cx;
    let fisheye_v = fy * (d * y * inv_r) + cy;
    let near_axis = r.lt(&decimal(1, (-6) as i32));
    (near_axis.select(&pinhole_u, &fisheye_u), near_axis.select(&pinhole_v, &fisheye_v))
}

/// The image of a camera-space point. On the axis, where the direction in the image is
/// undefined, it is the pinhole image.
/// [`lemma_kb4_image`](crate::camera_model::derivative::lemma_kb4_image) says what the
/// image is.
#[verifier::when_used_as_spec(spec_project_kb4)]
pub fn project_kb4(
    point: &Vec3A,
    pinhole_params: &PinholeParams,
    max_theta: &Scalar,
    params: &KannalaBrandt4Params<Scalar>,
) -> (r: (Scalar, Scalar))
    ensures
        r == project_kb4(point, pinhole_params, max_theta, params),
{
    let x = &point.x;
    let y = &point.y;
    let z = &point.z;
    let fx = &pinhole_params.fx;
    let fy = &pinhole_params.fy;
    let cx = &pinhole_params.cx;
    let cy = &pinhole_params.cy;
    let k1 = &params.k1;
    let k2 = &params.k2;
    let k3 = &params.k3;
    let k4 = &params.k4;
    let inv_z = Scalar::num(1) / z;
    let pinhole_u = fx * x * &inv_z + cx;
    let pinhole_v = fy * y * &inv_z + cy;
    let r = (x * x + y * y).sqrt();
    let theta = r.atan2(z).min(max_theta);
    let theta2 = &theta * &theta;
    let theta4 = &theta2 * &theta2;
    let theta6 = &theta2 * &theta4;
    let theta8 = &theta4 * &theta4;
    let d = &theta * (Scalar::num(1) + k1 * &theta2 + k2 * &theta4 + k3 * &theta6 + k4 * &theta8);
    let inv_r = Scalar::num(1) / &r;
    let fisheye_u = fx * (&d * x * &inv_r) + cx;
    let fisheye_v = fy * (&d * y * &inv_r) + cy;
    let near_axis = r.lt(&Scalar::lit(1, -6));
    (near_axis.select(&pinhole_u, &fisheye_u), near_axis.select(&pinhole_v, &fisheye_v))
}

pub open spec fn spec_calculate_project_jacobian_kb4(
    point: &Vec3A,
    pinhole_params: &PinholeParams,
    max_theta: &Scalar,
    params: &KannalaBrandt4Params<Scalar>,
) -> Mat2x3 {
    let x = point.x;
    let y = point.y;
    let z = point.z;
    let fx = pinhole_params.fx;
    let fy = pinhole_params.fy;
    let k1 = params.k1;
    let k2 = params.k2;
    let k3 = params.k3;
    let k4 = params.k4;
    let inv_z = whole(1) / z;
    let x2 = x * x;
    let y2 = y * y;
    let xy = x * y;
    let r2 = x2 + y2;
    let r = r2.sqrt();
    let inv_r = whole(1) / r;
    let inv_r3 = inv_r * inv_r * inv_r;
    let rho2 = r2 + z * z;
    let inv_rho2 = whole(1) / rho2;
    let inv_rho2_r = inv_rho2 * inv_r;
    let theta_raw = r.atan2(&z);
    let theta = theta_raw.min(max_theta);
    let theta2 = theta * theta;
    let theta4 = theta2 * theta2;
    let theta6 = theta4 * theta2;
    let theta8 = theta4 * theta4;
    let d = theta * (whole(1) + k1 * theta2 + k2 * theta4 + k3 * theta6 + k4 * theta8);
    let dd_dtheta = whole(1) + whole(3) * k1 * theta2 + whole(5) * k2 * theta4
        + whole(7) * k3 * theta6 + whole(9) * k4 * theta8;
    let zero = whole(0);
    let theta_saturated = theta_raw.gt(max_theta);
    let dth_dx = theta_saturated.select(&zero, &(x * z * inv_rho2_r));
    let dth_dy = theta_saturated.select(&zero, &(y * z * inv_rho2_r));
    let dth_dz = theta_saturated.select(&zero, &(-r * inv_rho2));
    let dd_dx = dd_dtheta * dth_dx;
    let dd_dy = dd_dtheta * dth_dy;
    let dd_dz = dd_dtheta * dth_dz;
    let xr = x * inv_r;
    let dxr_dx = y2 * inv_r3;
    let dxr_dy = -xy * inv_r3;
    let du_dx = fx * (dd_dx * xr + d * dxr_dx);
    let du_dy = fx * (dd_dy * xr + d * dxr_dy);
    let du_dz = fx * (dd_dz * xr);
    let yr = y * inv_r;
    let dyr_dx = -xy * inv_r3;
    let dyr_dy = x2 * inv_r3;
    let dv_dx = fy * (dd_dx * yr + d * dyr_dx);
    let dv_dy = fy * (dd_dy * yr + d * dyr_dy);
    let dv_dz = fy * (dd_dz * yr);
    let near_axis = r.lt(&decimal(1, (-6) as i32));
    let dx = fx * inv_z;
    let dy = fy * inv_z;
    let pinhole_du_dz = -dx * x * inv_z;
    let pinhole_dv_dz = -dy * y * inv_z;
    Mat2x3 {
        c0: Vec2 { x: near_axis.select(&dx, &du_dx), y: near_axis.select(&zero, &dv_dx) },
        c1: Vec2 { x: near_axis.select(&zero, &du_dy), y: near_axis.select(&dy, &dv_dy) },
        c2: Vec2 {
            x: near_axis.select(&pinhole_du_dz, &du_dz),
            y: near_axis.select(&pinhole_dv_dz, &dv_dz),
        },
    }
}

/// The derivative of the image with respect to the point. Where the angle is limited, it
/// does not change with the point; on the axis this is the derivative of the pinhole
/// image. [`lemma_kb4_jacobian`](crate::camera_model::derivative::lemma_kb4_jacobian)
/// says that it is.
#[verifier::when_used_as_spec(spec_calculate_project_jacobian_kb4)]
pub fn calculate_project_jacobian_kb4(
    point: &Vec3A,
    pinhole_params: &PinholeParams,
    max_theta: &Scalar,
    params: &KannalaBrandt4Params<Scalar>,
) -> (r: Mat2x3)
    ensures
        r == calculate_project_jacobian_kb4(point, pinhole_params, max_theta, params),
{
    let x = &point.x;
    let y = &point.y;
    let z = &point.z;
    let fx = &pinhole_params.fx;
    let fy = &pinhole_params.fy;
    let k1 = &params.k1;
    let k2 = &params.k2;
    let k3 = &params.k3;
    let k4 = &params.k4;
    let inv_z = Scalar::num(1) / z;
    let x2 = x * x;
    let y2 = y * y;
    let xy = x * y;
    let r2 = &x2 + &y2;
    let r = r2.sqrt();
    let inv_r = Scalar::num(1) / &r;
    let inv_r3 = &inv_r * &inv_r * &inv_r;
    let rho2 = &r2 + z * z;
    let inv_rho2 = Scalar::num(1) / &rho2;
    let inv_rho2_r = &inv_rho2 * &inv_r;
    let theta_raw = r.atan2(z);
    let theta = theta_raw.min(max_theta);
    let theta2 = &theta * &theta;
    let theta4 = &theta2 * &theta2;
    let theta6 = &theta4 * &theta2;
    let theta8 = &theta4 * &theta4;
    let d = &theta * (Scalar::num(1) + k1 * &theta2 + k2 * &theta4 + k3 * &theta6 + k4 * &theta8);
    let dd_dtheta = Scalar::num(1) + Scalar::num(3) * k1 * &theta2 + Scalar::num(5) * k2 * &theta4
        + Scalar::num(7) * k3 * &theta6 + Scalar::num(9) * k4 * &theta8;
    let zero = Scalar::num(0);
    let theta_saturated = theta_raw.gt(max_theta);
    let dth_dx = theta_saturated.select(&zero, &(x * z * &inv_rho2_r));
    let dth_dy = theta_saturated.select(&zero, &(y * z * &inv_rho2_r));
    let dth_dz = theta_saturated.select(&zero, &(r.neg() * &inv_rho2));
    let dd_dx = &dd_dtheta * &dth_dx;
    let dd_dy = &dd_dtheta * &dth_dy;
    let dd_dz = &dd_dtheta * &dth_dz;
    let xr = x * &inv_r;
    let dxr_dx = &y2 * &inv_r3;
    let dxr_dy = xy.neg() * &inv_r3;
    let du_dx = fx * (&dd_dx * &xr + &d * &dxr_dx);
    let du_dy = fx * (&dd_dy * &xr + &d * &dxr_dy);
    let du_dz = fx * (&dd_dz * &xr);
    let yr = y * &inv_r;
    let dyr_dx = xy.neg() * &inv_r3;
    let dyr_dy = &x2 * &inv_r3;
    let dv_dx = fy * (&dd_dx * &yr + &d * &dyr_dx);
    let dv_dy = fy * (&dd_dy * &yr + &d * &dyr_dy);
    let dv_dz = fy * (&dd_dz * &yr);
    let near_axis = r.lt(&Scalar::lit(1, -6));
    let dx = fx * &inv_z;
    let dy = fy * &inv_z;
    let pinhole_du_dz = dx.neg() * x * &inv_z;
    let pinhole_dv_dz = dy.neg() * y * &inv_z;
    Mat2x3 {
        c0: Vec2 { x: near_axis.select(&dx, &du_dx), y: near_axis.select(&zero, &dv_dx) },
        c1: Vec2 { x: near_axis.select(&zero, &du_dy), y: near_axis.select(&dy, &dv_dy) },
        c2: Vec2 {
            x: near_axis.select(&pinhole_du_dz, &du_dz),
            y: near_axis.select(&pinhole_dv_dz, &dv_dz),
        },
    }
}

pub open spec fn spec_calculate_projection_vjp_kb4(
    project_jacobian: &Mat2x3,
    mean_c: &Vec3A,
    cov_c: &Sym3,
    u: &ProjectUniforms,
    v_cov2d: &Sym2,
    v_mean2d: &Vec2,
    params: &KannalaBrandt4Params<Scalar>,
) -> Vec3A {
    let fx = u.pinhole_params.fx;
    let fy = u.pinhole_params.fy;
    let max_theta = u.half_max_render_fov;
    let k1 = params.k1;
    let k2 = params.k2;
    let k3 = params.k3;
    let k4 = params.k4;
    let mx = mean_c.x;
    let my = mean_c.y;
    let mz = mean_c.z;
    let r2 = mx * mx + my * my;
    let r = r2.sqrt().max(&decimal(1, (-8) as i32));
    let rho2 = r2 + mz * mz;
    let theta_raw = r.atan2(&mz);
    let theta = theta_raw.min(&max_theta);
    let th2 = theta * theta;
    let th4 = th2 * th2;
    let th6 = th4 * th2;
    let th8 = th4 * th4;
    let theta_d = theta * (whole(1) + k1 * th2 + k2 * th4 + k3 * th6 + k4 * th8);
    let zero = whole(0);
    let theta_saturated = theta_raw.gt(&max_theta);
    let p1 = theta_saturated.select(&zero,
        &(whole(1) + whole(3) * k1 * th2 + whole(5) * k2 * th4 + whole(7) * k3 * th6
        + whole(9) * k4 * th8));
    let p2 = theta_saturated.select(&zero,
        &(whole(6) * k1 * theta + whole(20) * k2 * theta * th2 + whole(42) * k3 * theta * th4
        + whole(72) * k4 * theta * th6));
    let inv_r = whole(1) / r;
    let inv_r3 = inv_r * inv_r * inv_r;
    let inv_r5 = inv_r3 * inv_r * inv_r;
    let inv_rho2 = whole(1) / rho2;
    let inv_rho2_sq = inv_rho2 * inv_rho2;
    let inv_rho2_r = inv_rho2 * inv_r;
    let dth_x = mx * mz * inv_rho2_r;
    let dth_y = my * mz * inv_rho2_r;
    let dth_z = -r * inv_rho2;
    let xr = mx * inv_r;
    let yr = my * inv_r;
    let dxr_x = my * my * inv_r3;
    let dxr_y = -mx * my * inv_r3;
    let dyr_x = dxr_y;
    let dyr_y = mx * mx * inv_r3;
    let dg_x = p1 * dth_x;
    let dg_y = p1 * dth_y;
    let dg_z = p1 * dth_z;
    let tmp = v_cov2d.mul_mat2x3(project_jacobian);
    let tu = tmp.row0();
    let tv = tmp.row1();
    let cov0 = cov_c.row0();
    let cov1 = cov_c.row1();
    let cov2 = cov_c.row2();
    let vj_u0 = whole(2) * tu.dot(&cov0);
    let vj_u1 = whole(2) * tu.dot(&cov1);
    let vj_u2 = whole(2) * tu.dot(&cov2);
    let vj_v0 = whole(2) * tv.dot(&cov0);
    let vj_v1 = whole(2) * tv.dot(&cov1);
    let vj_v2 = whole(2) * tv.dot(&cov2);
    let three_r2_z2 = whole(3) * r2 + mz * mz;
    let r2_minus_z2 = r2 - mz * mz;
    let h_th_00 = mz * (r2 * rho2 - mx * mx * three_r2_z2) * inv_r3 * inv_rho2_sq;
    let h_th_11 = mz * (r2 * rho2 - my * my * three_r2_z2) * inv_r3 * inv_rho2_sq;
    let h_th_01 = -mx * my * mz * three_r2_z2 * inv_r3 * inv_rho2_sq;
    let h_th_02 = mx * r2_minus_z2 * inv_r * inv_rho2_sq;
    let h_th_12 = my * r2_minus_z2 * inv_r * inv_rho2_sq;
    let h_th_22 = whole(2) * mz * r * inv_rho2_sq;
    let two_x2_my2 = whole(2) * mx * mx - my * my;
    let two_y2_mx2 = whole(2) * my * my - mx * mx;
    let h_xr_00 = whole((-3) as i64) * mx * my * my * inv_r5;
    let h_xr_01 = my * two_x2_my2 * inv_r5;
    let h_xr_11 = mx * two_y2_mx2 * inv_r5;
    let h_yr_00 = my * two_x2_my2 * inv_r5;
    let h_yr_01 = mx * two_y2_mx2 * inv_r5;
    let h_yr_11 = whole((-3) as i64) * mx * mx * my * inv_r5;
    let g00 = p2 * dth_x * dth_x + p1 * h_th_00;
    let d_u00 = fx * (g00 * xr + dg_x * dxr_x + dg_x * dxr_x + theta_d * h_xr_00);
    let d_v00 = fy * (g00 * yr + dg_x * dyr_x + dg_x * dyr_x + theta_d * h_yr_00);
    let g10 = p2 * dth_y * dth_x + p1 * h_th_01;
    let d_u10 = fx * (g10 * xr + dg_y * dxr_x + dg_x * dxr_y + theta_d * h_xr_01);
    let d_v10 = fy * (g10 * yr + dg_y * dyr_x + dg_x * dyr_y + theta_d * h_yr_01);
    let g20 = p2 * dth_z * dth_x + p1 * h_th_02;
    let d_u20 = fx * (g20 * xr + dg_x * zero + dg_z * dxr_x);
    let d_v20 = fy * (g20 * yr + dg_x * zero + dg_z * dyr_x);
    let g01 = p2 * dth_x * dth_y + p1 * h_th_01;
    let d_u01 = fx * (g01 * xr + dg_x * dxr_y + dg_y * dxr_x + theta_d * h_xr_01);
    let d_v01 = fy * (g01 * yr + dg_x * dyr_y + dg_y * dyr_x + theta_d * h_yr_01);
    let g11 = p2 * dth_y * dth_y + p1 * h_th_11;
    let d_u11 = fx * (g11 * xr + dg_y * dxr_y + dg_y * dxr_y + theta_d * h_xr_11);
    let d_v11 = fy * (g11 * yr + dg_y * dyr_y + dg_y * dyr_y + theta_d * h_yr_11);
    let g21 = p2 * dth_z * dth_y + p1 * h_th_12;
    let d_u21 = fx * (g21 * xr + dg_y * zero + dg_z * dxr_y);
    let d_v21 = fy * (g21 * yr + dg_y * zero + dg_z * dyr_y);
    let g02 = p2 * dth_x * dth_z + p1 * h_th_02;
    let d_u02 = fx * (g02 * xr + dg_z * dxr_x + dg_x * zero);
    let d_v02 = fy * (g02 * yr + dg_z * dyr_x + dg_x * zero);
    let g12 = p2 * dth_y * dth_z + p1 * h_th_12;
    let d_u12 = fx * (g12 * xr + dg_z * dxr_y + dg_y * zero);
    let d_v12 = fy * (g12 * yr + dg_z * dyr_y + dg_y * zero);
    let g22 = p2 * dth_z * dth_z + p1 * h_th_22;
    let d_u22 = fx * (g22 * xr);
    let d_v22 = fy * (g22 * yr);
    let v_mx = v_mean2d.dot(&project_jacobian.c0) + (vj_u0 * d_u00 + vj_v0 * d_v00)
        + (vj_u1 * d_u10 + vj_v1 * d_v10) + (vj_u2 * d_u20 + vj_v2 * d_v20);
    let v_my = v_mean2d.dot(&project_jacobian.c1) + (vj_u0 * d_u01 + vj_v0 * d_v01)
        + (vj_u1 * d_u11 + vj_v1 * d_v11) + (vj_u2 * d_u21 + vj_v2 * d_v21);
    let v_mz = v_mean2d.dot(&project_jacobian.c2) + (vj_u0 * d_u02 + vj_v0 * d_v02)
        + (vj_u1 * d_u12 + vj_v1 * d_v12) + (vj_u2 * d_u22 + vj_v2 * d_v22);
    Vec3A { x: v_mx, y: v_my, z: v_mz, pad: Pad::Zero }
}

/// The gradient with respect to the mean, given the gradients with respect to the
/// projected mean and the projected covariance `J * cov_c * J^T`, where `J` is the
/// Jacobian at the mean.
/// [`lemma_kb4_vjp`](crate::camera_model::derivative::lemma_kb4_vjp) says of what it is
/// the gradient.
#[verifier::when_used_as_spec(spec_calculate_projection_vjp_kb4)]
pub fn calculate_projection_vjp_kb4(
    project_jacobian: &Mat2x3,
    mean_c: &Vec3A,
    cov_c: &Sym3,
    u: &ProjectUniforms,
    v_cov2d: &Sym2,
    v_mean2d: &Vec2,
    params: &KannalaBrandt4Params<Scalar>,
) -> (r: Vec3A)
    ensures
        r == calculate_projection_vjp_kb4(project_jacobian, mean_c, cov_c, u, v_cov2d, v_mean2d,
            params),
{
    let fx = &u.pinhole_params.fx;
    let fy = &u.pinhole_params.fy;
    let max_theta = &u.half_max_render_fov;
    let k1 = &params.k1;
    let k2 = &params.k2;
    let k3 = &params.k3;
    let k4 = &params.k4;
    let mx = &mean_c.x;
    let my = &mean_c.y;
    let mz = &mean_c.z;
    let r2 = mx * mx + my * my;
    let r = r2.sqrt().max(&Scalar::lit(1, -8));
    let rho2 = &r2 + mz * mz;
    let theta_raw = r.atan2(mz);
    let theta = theta_raw.min(max_theta);
    let th2 = &theta * &theta;
    let th4 = &th2 * &th2;
    let th6 = &th4 * &th2;
    let th8 = &th4 * &th4;
    let theta_d = &theta * (Scalar::num(1) + k1 * &th2 + k2 * &th4 + k3 * &th6 + k4 * &th8);
    let zero = Scalar::num(0);
    let theta_saturated = theta_raw.gt(max_theta);
    // First and second derivative of the polynomial with respect to the angle.
    let p1 = theta_saturated.select(&zero,
        &(Scalar::num(1) + Scalar::num(3) * k1 * &th2 + Scalar::num(5) * k2 * &th4
        + Scalar::num(7) * k3 * &th6 + Scalar::num(9) * k4 * &th8));
    let p2 = theta_saturated.select(&zero,
        &(Scalar::num(6) * k1 * &theta + Scalar::num(20) * k2 * &theta * &th2
        + Scalar::num(42) * k3 * &theta * &th4 + Scalar::num(72) * k4 * &theta * &th6));
    let inv_r = Scalar::num(1) / &r;
    let inv_r3 = &inv_r * &inv_r * &inv_r;
    let inv_r5 = &inv_r3 * &inv_r * &inv_r;
    let inv_rho2 = Scalar::num(1) / &rho2;
    let inv_rho2_sq = &inv_rho2 * &inv_rho2;
    let inv_rho2_r = &inv_rho2 * &inv_r;
    // First derivatives of the angle.
    let dth_x = mx * mz * &inv_rho2_r;
    let dth_y = my * mz * &inv_rho2_r;
    let dth_z = r.neg() * &inv_rho2;
    // The direction in the image and its first derivatives.
    let xr = mx * &inv_r;
    let yr = my * &inv_r;
    let dxr_x = my * my * &inv_r3;
    let dxr_y = mx.neg() * my * &inv_r3;
    let dyr_x = &dxr_y;
    let dyr_y = mx * mx * &inv_r3;
    let dg_x = &p1 * &dth_x;
    let dg_y = &p1 * &dth_y;
    let dg_z = &p1 * &dth_z;
    let tmp = v_cov2d.mul_mat2x3(project_jacobian);
    let tu = tmp.row0();
    let tv = tmp.row1();
    let cov0 = cov_c.row0();
    let cov1 = cov_c.row1();
    let cov2 = cov_c.row2();
    let vj_u0 = Scalar::num(2) * tu.dot(&cov0);
    let vj_u1 = Scalar::num(2) * tu.dot(&cov1);
    let vj_u2 = Scalar::num(2) * tu.dot(&cov2);
    let vj_v0 = Scalar::num(2) * tv.dot(&cov0);
    let vj_v1 = Scalar::num(2) * tv.dot(&cov1);
    let vj_v2 = Scalar::num(2) * tv.dot(&cov2);
    // Second derivatives of the angle.
    let three_r2_z2 = Scalar::num(3) * &r2 + mz * mz;
    let r2_minus_z2 = &r2 - mz * mz;
    let h_th_00 = mz * (&r2 * &rho2 - mx * mx * &three_r2_z2) * &inv_r3 * &inv_rho2_sq;
    let h_th_11 = mz * (&r2 * &rho2 - my * my * &three_r2_z2) * &inv_r3 * &inv_rho2_sq;
    let h_th_01 = mx.neg() * my * mz * &three_r2_z2 * &inv_r3 * &inv_rho2_sq;
    let h_th_02 = mx * &r2_minus_z2 * &inv_r * &inv_rho2_sq;
    let h_th_12 = my * &r2_minus_z2 * &inv_r * &inv_rho2_sq;
    let h_th_22 = Scalar::num(2) * mz * &r * &inv_rho2_sq;
    // Second derivatives of the direction in the image.
    let two_x2_my2 = Scalar::num(2) * mx * mx - my * my;
    let two_y2_mx2 = Scalar::num(2) * my * my - mx * mx;
    let h_xr_00 = Scalar::num(-3) * mx * my * my * &inv_r5;
    let h_xr_01 = my * &two_x2_my2 * &inv_r5;
    let h_xr_11 = mx * &two_y2_mx2 * &inv_r5;
    let h_yr_00 = my * &two_x2_my2 * &inv_r5;
    let h_yr_01 = mx * &two_y2_mx2 * &inv_r5;
    let h_yr_11 = Scalar::num(-3) * mx * mx * my * &inv_r5;
    // Derivatives of the Jacobian, entry (row, j) by coordinate k, as d_{row}{j}{k}.
    let g00 = &p2 * &dth_x * &dth_x + &p1 * &h_th_00;
    let d_u00 = fx * (&g00 * &xr + &dg_x * &dxr_x + &dg_x * &dxr_x + &theta_d * &h_xr_00);
    let d_v00 = fy * (&g00 * &yr + &dg_x * dyr_x + &dg_x * dyr_x + &theta_d * &h_yr_00);
    let g10 = &p2 * &dth_y * &dth_x + &p1 * &h_th_01;
    let d_u10 = fx * (&g10 * &xr + &dg_y * &dxr_x + &dg_x * &dxr_y + &theta_d * &h_xr_01);
    let d_v10 = fy * (&g10 * &yr + &dg_y * dyr_x + &dg_x * &dyr_y + &theta_d * &h_yr_01);
    let g20 = &p2 * &dth_z * &dth_x + &p1 * &h_th_02;
    let d_u20 = fx * (&g20 * &xr + &dg_x * &zero + &dg_z * &dxr_x);
    let d_v20 = fy * (&g20 * &yr + &dg_x * &zero + &dg_z * dyr_x);
    let g01 = &p2 * &dth_x * &dth_y + &p1 * &h_th_01;
    let d_u01 = fx * (&g01 * &xr + &dg_x * &dxr_y + &dg_y * &dxr_x + &theta_d * &h_xr_01);
    let d_v01 = fy * (&g01 * &yr + &dg_x * &dyr_y + &dg_y * dyr_x + &theta_d * &h_yr_01);
    let g11 = &p2 * &dth_y * &dth_y + &p1 * &h_th_11;
    let d_u11 = fx * (&g11 * &xr + &dg_y * &dxr_y + &dg_y * &dxr_y + &theta_d * &h_xr_11);
    let d_v11 = fy * (&g11 * &yr + &dg_y * &dyr_y + &dg_y * &dyr_y + &theta_d * &h_yr_11);
    let g21 = &p2 * &dth_z * &dth_y + &p1 * &h_th_12;
    let d_u21 = fx * (&g21 * &xr + &dg_y * &zero + &dg_z * &dxr_y);
    let d_v21 = fy * (&g21 * &yr + &dg_y * &zero + &dg_z * &dyr_y);
    let g02 = &p2 * &dth_x * &dth_z + &p1 * &h_th_02;
    let d_u02 = fx * (&g02 * &xr + &dg_z * &dxr_x + &dg_x * &zero);
    let d_v02 = fy * (&g02 * &yr + &dg_z * dyr_x + &dg_x * &zero);
    let g12 = &p2 * &dth_y * &dth_z + &p1 * &h_th_12;
    let d_u12 = fx * (&g12 * &xr + &dg_z * &dxr_y + &dg_y * &zero);
    let d_v12 = fy * (&g12 * &yr + &dg_z * &dyr_y + &dg_y * &zero);
    let g22 = &p2 * &dth_z * &dth_z + &p1 * &h_th_22;
    let d_u22 = fx * (&g22 * &xr);
    let d_v22 = fy * (&g22 * &yr);
    let v_mx = v_mean2d.dot(&project_jacobian.c0) + (&vj_u0 * &d_u00 + &vj_v0 * &d_v00)
        + (&vj_u1 * &d_u10 + &vj_v1 * &d_v10) + (&vj_u2 * &d_u20 + &vj_v2 * &d_v20);
    let v_my = v_mean2d.dot(&project_jacobian.c1) + (&vj_u0 * &d_u01 + &vj_v0 * &d_v01)
        + (&vj_u1 * &d_u11 + &vj_v1 * &d_v11) + (&vj_u2 * &d_u21 + &vj_v2 * &d_v21);
    let v_mz = v_mean2d.dot(&project_jacobian.c2) + (&vj_u0 * &d_u02 + &vj_v0 * &d_v02)
        + (&vj_u1 * &d_u12 + &vj_v1 * &d_v12) + (&vj_u2 * &d_u22 + &vj_v2 * &d_v22);
    Vec3A { x: v_mx, y: v_my, z: v_mz, pad: Pad::Zero }
}

} // verus!
