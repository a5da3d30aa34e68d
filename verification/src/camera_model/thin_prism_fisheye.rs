//! The thin-prism fisheye model: Kannala-Brandt distortion plus a tangential
//! and a thin-prism term. With `(u, v) = (x / z, y / z)` and `r^2 = u^2 + v^2`
//! the image of the Kannala-Brandt model moves by
//!
//! ```text
//! 2 p1 u v + p2 (r^2 + 2 u^2) + sx1 r^2
//! 2 p2 u v + p1 (r^2 + 2 v^2) + sy1 r^2
//! ```
//!
//! times the focal lengths.
use crate::camera_model::kannala_brandt_4::{
    calculate_project_jacobian_kb4, calculate_projection_vjp_kb4, project_kb4,
};
use crate::camera_model::{PinholeParams, ProjectUniforms, ThinPrismFisheyeParams};
use crate::cube::{Mat2x3, Pad, Sym2, Sym3, Vec2, Vec3A};
use crate::expr::{whole, Scalar};
use vstd::prelude::*;

verus! {

/// The two displacement polynomials, before they are divided by `z^2`, and
/// their first derivatives.
pub struct ThinPrismPolys {
    pub nu: Scalar,
    pub nv: Scalar,
    pub dnu_dx: Scalar,
    pub dnu_dy: Scalar,
    pub dnv_dx: Scalar,
    pub dnv_dy: Scalar,
}

pub open spec fn spec_thin_prism_polys(
    x: &Scalar,
    y: &Scalar,
    params: &ThinPrismFisheyeParams<Scalar>,
) -> ThinPrismPolys {
    let p1 = params.p1;
    let p2 = params.p2;
    let sx1 = params.sx1;
    let sy1 = params.sy1;
    let x2 = *x * *x;
    let y2 = *y * *y;
    let xy = *x * *y;
    let r2 = x2 + y2;
    ThinPrismPolys {
        nu: whole(2) * p1 * xy + p2 * (whole(3) * x2 + y2) + sx1 * r2,
        nv: whole(2) * p2 * xy + p1 * (x2 + whole(3) * y2) + sy1 * r2,
        dnu_dx: whole(2) * (p1 * *y + (whole(3) * p2 + sx1) * *x),
        dnu_dy: whole(2) * (p1 * *x + (p2 + sx1) * *y),
        dnv_dx: whole(2) * (p2 * *y + (p1 + sy1) * *x),
        dnv_dy: whole(2) * (p2 * *x + (whole(3) * p1 + sy1) * *y),
    }
}

/// The displacement polynomials at `(x, y)`.
#[verifier::when_used_as_spec(spec_thin_prism_polys)]
pub fn thin_prism_polys(
    x: &Scalar,
    y: &Scalar,
    params: &ThinPrismFisheyeParams<Scalar>,
) -> (r: ThinPrismPolys)
    ensures
        r == thin_prism_polys(x, y, params),
{
    let p1 = &params.p1;
    let p2 = &params.p2;
    let sx1 = &params.sx1;
    let sy1 = &params.sy1;
    let x2 = x * x;
    let y2 = y * y;
    let xy = x * y;
    let r2 = &x2 + &y2;
    ThinPrismPolys {
        nu: Scalar::num(2) * p1 * &xy + p2 * (Scalar::num(3) * &x2 + &y2) + sx1 * &r2,
        nv: Scalar::num(2) * p2 * &xy + p1 * (&x2 + Scalar::num(3) * &y2) + sy1 * &r2,
        dnu_dx: Scalar::num(2) * (p1 * y + (Scalar::num(3) * p2 + sx1) * x),
        dnu_dy: Scalar::num(2) * (p1 * x + (p2 + sx1) * y),
        dnv_dx: Scalar::num(2) * (p2 * y + (p1 + sy1) * x),
        dnv_dy: Scalar::num(2) * (p2 * x + (Scalar::num(3) * p1 + sy1) * y),
    }
}

pub open spec fn spec_project_tpf(
    point: &Vec3A,
    pinhole_params: &PinholeParams,
    max_theta: &Scalar,
    params: &ThinPrismFisheyeParams<Scalar>,
) -> (Scalar, Scalar) {
    let x = point.x;
    let y = point.y;
    let z = point.z;
    let fx = pinhole_params.fx;
    let fy = pinhole_params.fy;
    let kb4 = project_kb4(point, pinhole_params, max_theta, &params.kb4);
    let inv_z = whole(1) / z;
    let inv_z2 = inv_z * inv_z;
    let n = thin_prism_polys(&x, &y, params);
    (kb4.0 + fx * n.nu * inv_z2, kb4.1 + fy * n.nv * inv_z2)
}

/// The image of a camera-space point. The displacement is that of
/// [`lemma_tpf_displacement`](crate::camera_model::thin_prism_derivative::lemma_tpf_displacement).
#[verifier::when_used_as_spec(spec_project_tpf)]
pub fn project_tpf(
    point: &Vec3A,
    pinhole_params: &PinholeParams,
    max_theta: &Scalar,
    params: &ThinPrismFisheyeParams<Scalar>,
) -> (r: (Scalar, Scalar))
    ensures
        r == project_tpf(point, pinhole_params, max_theta, params),
{
    let x = &point.x;
    let y = &point.y;
    let z = &point.z;
    let fx = &pinhole_params.fx;
    let fy = &pinhole_params.fy;
    let kb4 = project_kb4(point, pinhole_params, max_theta, &params.kb4);
    let inv_z = Scalar::num(1) / z;
    let inv_z2 = &inv_z * &inv_z;
    let n = thin_prism_polys(x, y, params);
    (&kb4.0 + fx * &n.nu * &inv_z2, &kb4.1 + fy * &n.nv * &inv_z2)
}

pub open spec fn spec_calculate_project_jacobian_tpf(
    point: &Vec3A,
    pinhole_params: &PinholeParams,
    max_theta: &Scalar,
    params: &ThinPrismFisheyeParams<Scalar>,
) -> Mat2x3 {
    let x = point.x;
    let y = point.y;
    let z = point.z;
    let fx = pinhole_params.fx;
    let fy = pinhole_params.fy;
    let kb4_jac = calculate_project_jacobian_kb4(point, pinhole_params, max_theta, &params.kb4);
    let inv_z = whole(1) / z;
    let inv_z2 = inv_z * inv_z;
    let inv_z3 = inv_z2 * inv_z;
    let n = thin_prism_polys(&x, &y, params);
    let add_du_dx = fx * n.dnu_dx * inv_z2;
    let add_du_dy = fx * n.dnu_dy * inv_z2;
    let add_du_dz = whole((-2) as i64) * fx * n.nu * inv_z3;
    let add_dv_dx = fy * n.dnv_dx * inv_z2;
    let add_dv_dy = fy * n.dnv_dy * inv_z2;
    let add_dv_dz = whole((-2) as i64) * fy * n.nv * inv_z3;
    Mat2x3 {
        c0: Vec2 { x: kb4_jac.c0.x + add_du_dx, y: kb4_jac.c0.y + add_dv_dx },
        c1: Vec2 { x: kb4_jac.c1.x + add_du_dy, y: kb4_jac.c1.y + add_dv_dy },
        c2: Vec2 { x: kb4_jac.c2.x + add_du_dz, y: kb4_jac.c2.y + add_dv_dz },
    }
}

/// The derivative of the image with respect to the point. That it is one is
/// [`lemma_tpf_jacobian`](crate::camera_model::thin_prism_derivative::lemma_tpf_jacobian).
#[verifier::when_used_as_spec(spec_calculate_project_jacobian_tpf)]
pub fn calculate_project_jacobian_tpf(
    point: &Vec3A,
    pinhole_params: &PinholeParams,
    max_theta: &Scalar,
    params: &ThinPrismFisheyeParams<Scalar>,
) -> (r: Mat2x3)
    ensures
        r == calculate_project_jacobian_tpf(point, pinhole_params, max_theta, params),
{
    let x = &point.x;
    let y = &point.y;
    let z = &point.z;
    let fx = &pinhole_params.fx;
    let fy = &pinhole_params.fy;
    let kb4_jac = calculate_project_jacobian_kb4(point, pinhole_params, max_theta, &params.kb4);
    let inv_z = Scalar::num(1) / z;
    let inv_z2 = &inv_z * &inv_z;
    let inv_z3 = &inv_z2 * &inv_z;
    let n = thin_prism_polys(x, y, params);
    let add_du_dx = fx * &n.dnu_dx * &inv_z2;
    let add_du_dy = fx * &n.dnu_dy * &inv_z2;
    let add_du_dz = Scalar::num(-2) * fx * &n.nu * &inv_z3;
    let add_dv_dx = fy * &n.dnv_dx * &inv_z2;
    let add_dv_dy = fy * &n.dnv_dy * &inv_z2;
    let add_dv_dz = Scalar::num(-2) * fy * &n.nv * &inv_z3;
    Mat2x3 {
        c0: Vec2 { x: &kb4_jac.c0.x + &add_du_dx, y: &kb4_jac.c0.y + &add_dv_dx },
        c1: Vec2 { x: &kb4_jac.c1.x + &add_du_dy, y: &kb4_jac.c1.y + &add_dv_dy },
        c2: Vec2 { x: &kb4_jac.c2.x + &add_du_dz, y: &kb4_jac.c2.y + &add_dv_dz },
    }
}

pub open spec fn spec_calculate_projection_vjp_tpf(
    project_jacobian: &Mat2x3,
    mean_c: &Vec3A,
    cov_c: &Sym3,
    u: &ProjectUniforms,
    v_cov2d: &Sym2,
    v_mean2d: &Vec2,
    params: &ThinPrismFisheyeParams<Scalar>,
) -> Vec3A {
    let fx = u.pinhole_params.fx;
    let fy = u.pinhole_params.fy;
    let kb4_grad = calculate_projection_vjp_kb4(project_jacobian, mean_c, cov_c, u, v_cov2d,
        v_mean2d, &params.kb4);
    let p1 = params.p1;
    let p2 = params.p2;
    let sx1 = params.sx1;
    let sy1 = params.sy1;
    let mx = mean_c.x;
    let my = mean_c.y;
    let mz = mean_c.z;
    let inv_z = whole(1) / mz;
    let inv_z2 = inv_z * inv_z;
    let inv_z3 = inv_z2 * inv_z;
    let inv_z4 = inv_z2 * inv_z2;
    let n = thin_prism_polys(&mx, &my, params);
    let d2nu_dxx = whole(6) * p2 + whole(2) * sx1;
    let d2nu_dyy = whole(2) * p2 + whole(2) * sx1;
    let d2nu_dxy = whole(2) * p1;
    let d2nv_dxx = whole(2) * p1 + whole(2) * sy1;
    let d2nv_dyy = whole(6) * p1 + whole(2) * sy1;
    let d2nv_dxy = whole(2) * p2;
    let h_u_00 = d2nu_dxx * inv_z2;
    let h_u_01 = d2nu_dxy * inv_z2;
    let h_u_11 = d2nu_dyy * inv_z2;
    let h_u_02 = whole((-2) as i64) * n.dnu_dx * inv_z3;
    let h_u_12 = whole((-2) as i64) * n.dnu_dy * inv_z3;
    let h_u_22 = whole(6) * n.nu * inv_z4;
    let h_v_00 = d2nv_dxx * inv_z2;
    let h_v_01 = d2nv_dxy * inv_z2;
    let h_v_11 = d2nv_dyy * inv_z2;
    let h_v_02 = whole((-2) as i64) * n.dnv_dx * inv_z3;
    let h_v_12 = whole((-2) as i64) * n.dnv_dy * inv_z3;
    let h_v_22 = whole(6) * n.nv * inv_z4;
    let tmp = v_cov2d.mul_mat2x3(project_jacobian);
    let tu = tmp.row0();
    let tv = tmp.row1();
    let cov0 = cov_c.row0();
    let cov1 = cov_c.row1();
    let cov2 = cov_c.row2();
    let vj_u0 = whole(2) * tu.dot(&cov0);
    let vj_u1 = whole(2) * tu.dot(&cov1);
    let vj_u2 = whole(2) * tu.dot(&cov2);
    let vj_v0 = whole(2) * tv.dot(&cov0);
    let vj_v1 = whole(2) * tv.dot(&cov1);
    let vj_v2 = whole(2) * tv.dot(&cov2);
    let v_mx = fx * (vj_u0 * h_u_00 + vj_u1 * h_u_01 + vj_u2 * h_u_02)
        + fy * (vj_v0 * h_v_00 + vj_v1 * h_v_01 + vj_v2 * h_v_02);
    let v_my = fx * (vj_u0 * h_u_01 + vj_u1 * h_u_11 + vj_u2 * h_u_12)
        + fy * (vj_v0 * h_v_01 + vj_v1 * h_v_11 + vj_v2 * h_v_12);
    let v_mz = fx * (vj_u0 * h_u_02 + vj_u1 * h_u_12 + vj_u2 * h_u_22)
        + fy * (vj_v0 * h_v_02 + vj_v1 * h_v_12 + vj_v2 * h_v_22);
    Vec3A { x: kb4_grad.x + v_mx, y: kb4_grad.y + v_my, z: kb4_grad.z + v_mz, pad: Pad::Zero }
}

/// The gradient with respect to the mean, given the gradients with respect to the
/// projected mean and the projected covariance. `project_jacobian` is the whole Jacobian
/// at the mean, of both the Kannala-Brandt part and the displacement. Of what it is the
/// gradient, [`lemma_tpf_vjp`](crate::camera_model::thin_prism_derivative::lemma_tpf_vjp)
/// says.
#[verifier::when_used_as_spec(spec_calculate_projection_vjp_tpf)]
pub fn calculate_projection_vjp_tpf(
    project_jacobian: &Mat2x3,
    mean_c: &Vec3A,
    cov_c: &Sym3,
    u: &ProjectUniforms,
    v_cov2d: &Sym2,
    v_mean2d: &Vec2,
    params: &ThinPrismFisheyeParams<Scalar>,
) -> (r: Vec3A)
    ensures
        r == calculate_projection_vjp_tpf(project_jacobian, mean_c, cov_c, u, v_cov2d, v_mean2d,
            params),
{
    let fx = &u.pinhole_params.fx;
    let fy = &u.pinhole_params.fy;
    let kb4_grad = calculate_projection_vjp_kb4(project_jacobian, mean_c, cov_c, u, v_cov2d,
        v_mean2d, &params.kb4);
    let p1 = &params.p1;
    let p2 = &params.p2;
    let sx1 = &params.sx1;
    let sy1 = &params.sy1;
    let mx = &mean_c.x;
    let my = &mean_c.y;
    let mz = &mean_c.z;
    let inv_z = Scalar::num(1) / mz;
    let inv_z2 = &inv_z * &inv_z;
    let inv_z3 = &inv_z2 * &inv_z;
    let inv_z4 = &inv_z2 * &inv_z2;
    let n = thin_prism_polys(mx, my, params);
    // Second derivatives of the polynomials, which do not depend on the point.
    let d2nu_dxx = Scalar::num(6) * p2 + Scalar::num(2) * sx1;
    let d2nu_dyy = Scalar::num(2) * p2 + Scalar::num(2) * sx1;
    let d2nu_dxy = Scalar::num(2) * p1;
    let d2nv_dxx = Scalar::num(2) * p1 + Scalar::num(2) * sy1;
    let d2nv_dyy = Scalar::num(6) * p1 + Scalar::num(2) * sy1;
    let d2nv_dxy = Scalar::num(2) * p2;
    // Second derivatives of the displacement.
    let h_u_00 = &d2nu_dxx * &inv_z2;
    let h_u_01 = &d2nu_dxy * &inv_z2;
    let h_u_11 = &d2nu_dyy * &inv_z2;
    let h_u_02 = Scalar::num(-2) * &n.dnu_dx * &inv_z3;
    let h_u_12 = Scalar::num(-2) * &n.dnu_dy * &inv_z3;
    let h_u_22 = Scalar::num(6) * &n.nu * &inv_z4;
    let h_v_00 = &d2nv_dxx * &inv_z2;
    let h_v_01 = &d2nv_dxy * &inv_z2;
    let h_v_11 = &d2nv_dyy * &inv_z2;
    let h_v_02 = Scalar::num(-2) * &n.dnv_dx * &inv_z3;
    let h_v_12 = Scalar::num(-2) * &n.dnv_dy * &inv_z3;
    let h_v_22 = Scalar::num(6) * &n.nv * &inv_z4;
    let tmp = v_cov2d.mul_mat2x3(project_jacobian);
    let tu = tmp.row0();
    let tv = tmp.row1();
    let cov0 = cov_c.row0();
    let cov1 = cov_c.row1();
    let cov2 = cov_c.row2();
    let vj_u0 = Scalar::num(2) * tu.dot(&cov0);
    let vj_u1 = Scalar::num(2) * tu.dot(&cov1);
    let vj_u2 = Scalar::num(2) * tu.dot(&cov2);
    let vj_v0 = Scalar::num(2) * tv.dot(&cov0);
    let vj_v1 = Scalar::num(2) * tv.dot(&cov1);
    let vj_v2 = Scalar::num(2) * tv.dot(&cov2);
    let v_mx = fx * (&vj_u0 * &h_u_00 + &vj_u1 * &h_u_01 + &vj_u2 * &h_u_02)
        + fy * (&vj_v0 * &h_v_00 + &vj_v1 * &h_v_01 + &vj_v2 * &h_v_02);
    let v_my = fx * (&vj_u0 * &h_u_01 + &vj_u1 * &h_u_11 + &vj_u2 * &h_u_12)
        + fy * (&vj_v0 * &h_v_01 + &vj_v1 * &h_v_11 + &vj_v2 * &h_v_12);
    let v_mz = fx * (&vj_u0 * &h_u_02 + &vj_u1 * &h_u_12 + &vj_u2 * &h_u_22)
        + fy * (&vj_v0 * &h_v_02 + &vj_v1 * &h_v_12 + &vj_v2 * &h_v_22);
    Vec3A { x: &kb4_grad.x + &v_mx, y: &kb4_grad.y + &v_my, z: &kb4_grad.z + &v_mz, pad: Pad::Zero }
}

} // verus!
