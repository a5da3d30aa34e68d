//! Camera models: how a point in camera space is imaged, and the derivatives
//! that the backward pass needs.
use crate::cube::{Mat2x3, Mat3, Sym2, Sym3, Vec2, Vec3A};
use crate::expr::Scalar;
use vstd::prelude::*;

pub(crate) mod algebra;
pub mod derivative;
pub mod homogeneity;
pub mod kannala_brandt_4;
pub(crate) mod prism_algebra;
pub(crate) mod ray_algebra;
pub mod thin_prism_derivative;
pub mod thin_prism_fisheye;

use kannala_brandt_4::{calculate_project_jacobian_kb4, calculate_projection_vjp_kb4, project_kb4};
use thin_prism_fisheye::{calculate_project_jacobian_tpf, calculate_projection_vjp_tpf, project_tpf};

verus! {

/// Focal lengths and principal point, in pixels.
pub struct PinholeParams {
    pub fx: Scalar,
    pub fy: Scalar,
    pub cx: Scalar,
    pub cy: Scalar,
}

/// The coefficients of the Kannala-Brandt fisheye model.
#[derive(Copy, Debug, PartialEq, Default)]
pub struct KannalaBrandt4Params<T> {
    pub k1: T,
    pub k2: T,
    pub k3: T,
    pub k4: T,
}

impl<T: Copy> Clone for KannalaBrandt4Params<T> {
    fn clone(&self) -> (r: Self)
        ensures
            r == *self,
    {
        *self
    }
}

/// The coefficients of the rational radial model with tangential distortion.
#[derive(Copy, Debug, PartialEq, Default)]
pub struct RadialTangential8Params<T> {
    pub k1: T,
    pub k2: T,
    pub k3: T,
    pub k4: T,
    pub k5: T,
    pub k6: T,
    pub p1: T,
    pub p2: T,
}

impl<T: Copy> Clone for RadialTangential8Params<T> {
    fn clone(&self) -> (r: Self)
        ensures
            r == *self,
    {
        *self
    }
}

/// The coefficients of the thin-prism fisheye model.
#[derive(Copy, Debug, PartialEq, Default)]
pub struct ThinPrismFisheyeParams<T> {
    pub kb4: KannalaBrandt4Params<T>,
    pub p1: T,
    pub p2: T,
    pub sx1: T,
    pub sy1: T,
}

impl<T: Copy> Clone for ThinPrismFisheyeParams<T> {
    fn clone(&self) -> (r: Self)
        ensures
            r == *self,
    {
        *self
    }
}

/// A camera model with its distortion coefficients.
#[derive(Copy, Debug, PartialEq)]
pub enum CameraModel<T> {
    Pinhole,
    KannalaBrandt4(KannalaBrandt4Params<T>),
    RadialTangential8(RadialTangential8Params<T>),
    ThinPrismFisheye(ThinPrismFisheyeParams<T>),
}

impl<T: Copy> Clone for CameraModel<T> {
    fn clone(&self) -> (r: Self)
        ensures
            r == *self,
    {
        *self
    }
}

impl<T> Default for CameraModel<T> {
    fn default() -> (r: Self)
        ensures
            r == CameraModel::<T>::Pinhole,
    {
        CameraModel::Pinhole
    }
}

/// The limits of `x / z` and `y / z` inside which the perspective Jacobian is
/// evaluated.
pub struct JacobianClampLimits {
    pub lim_pos_x: Scalar,
    pub lim_pos_y: Scalar,
    pub lim_neg_x: Scalar,
    pub lim_neg_y: Scalar,
}

impl JacobianClampLimits {
    /// The limits in the order in which a launch takes them.
    pub fn to_launch_object(&self) -> (r: (Scalar, Scalar, Scalar, Scalar))
        ensures
            r == (self.lim_pos_x, self.lim_pos_y, self.lim_neg_x, self.lim_neg_y),
    {
        (
            self.lim_pos_x.clone(),
            self.lim_pos_y.clone(),
            self.lim_neg_x.clone(),
            self.lim_neg_y.clone(),
        )
    }
}

/// What is the same for every splat of one launch.
pub struct ProjectUniforms {
    pub camera_pos: Vec3A,
    pub view_rotation: Mat3,
    pub pinhole_params: PinholeParams,
    pub jacobian_clamp_limits: JacobianClampLimits,
    pub half_max_render_fov: Scalar,
    pub img_w: Scalar,
    pub img_h: Scalar,
    pub total_splats: u32,
    pub num_visible: u32,
}

pub open spec fn spec_project(
    point: &Vec3A,
    pinhole_params: &PinholeParams,
    max_theta: &Scalar,
    camera_model: &CameraModel<Scalar>,
    perspective: &(Scalar, Scalar),
) -> (Scalar, Scalar) {
    match *camera_model {
        CameraModel::KannalaBrandt4(params) => project_kb4(
            point,
            pinhole_params,
            max_theta,
            &params,
        ),
        CameraModel::ThinPrismFisheye(params) => project_tpf(
            point,
            pinhole_params,
            max_theta,
            &params,
        ),
        _ => *perspective,
    }
}

/// The image of a point under any model. `perspective` is its image under the
/// perspective model, for the models that are one (pinhole and
/// radial-tangential).
#[verifier::when_used_as_spec(spec_project)]
pub fn project(
    point: &Vec3A,
    pinhole_params: &PinholeParams,
    max_theta: &Scalar,
    camera_model: &CameraModel<Scalar>,
    perspective: &(Scalar, Scalar),
) -> (r: (Scalar, Scalar))
    ensures
        r == project(point, pinhole_params, max_theta, camera_model, perspective),
        camera_model is Pinhole || camera_model is RadialTangential8 ==> r == *perspective,
        camera_model matches CameraModel::KannalaBrandt4(params) ==> r == project_kb4(
            point,
            pinhole_params,
            max_theta,
            params,
        ),
        camera_model matches CameraModel::ThinPrismFisheye(params) ==> r == project_tpf(
            point,
            pinhole_params,
            max_theta,
            params,
        ),
{
    match camera_model {
        CameraModel::KannalaBrandt4(params) => project_kb4(point, pinhole_params, max_theta,
            params),
        CameraModel::ThinPrismFisheye(params) => project_tpf(
            point,
            pinhole_params,
            max_theta,
            params,
        ),
        CameraModel::Pinhole | CameraModel::RadialTangential8(_) => (
            perspective.0.clone(),
            perspective.1.clone(),
        ),
    }
}

pub open spec fn spec_calculate_project_jacobian(
    point: &Vec3A,
    pinhole_params: &PinholeParams,
    max_theta: &Scalar,
    camera_model: &CameraModel<Scalar>,
    perspective: &Mat2x3,
) -> Mat2x3 {
    match *camera_model {
        CameraModel::KannalaBrandt4(params) => calculate_project_jacobian_kb4(
            point,
            pinhole_params,
            max_theta,
            &params,
        ),
        CameraModel::ThinPrismFisheye(params) => calculate_project_jacobian_tpf(
            point,
            pinhole_params,
            max_theta,
            &params,
        ),
        _ => *perspective,
    }
}

/// The derivative of the image with respect to the point, under any model.
/// `perspective` is the derivative for the perspective models.
#[verifier::when_used_as_spec(spec_calculate_project_jacobian)]
pub fn calculate_project_jacobian(
    point: &Vec3A,
    pinhole_params: &PinholeParams,
    max_theta: &Scalar,
    camera_model: &CameraModel<Scalar>,
    perspective: &Mat2x3,
) -> (r: Mat2x3)
    ensures
        r == calculate_project_jacobian(
            point,
            pinhole_params,
            max_theta,
            camera_model,
            perspective,
        ),
        camera_model is Pinhole || camera_model is RadialTangential8 ==> r == *perspective,
        camera_model matches CameraModel::KannalaBrandt4(params) ==> r
            == calculate_project_jacobian_kb4(point, pinhole_params, max_theta, params),
        camera_model matches CameraModel::ThinPrismFisheye(params) ==> r
            == calculate_project_jacobian_tpf(point, pinhole_params, max_theta, params),
{
    match camera_model {
        CameraModel::KannalaBrandt4(params) => calculate_project_jacobian_kb4(
            point,
            pinhole_params,
            max_theta,
            params,
        ),
        CameraModel::ThinPrismFisheye(params) => calculate_project_jacobian_tpf(
            point,
            pinhole_params,
            max_theta,
            params,
        ),
        CameraModel::Pinhole | CameraModel::RadialTangential8(_) => perspective.clone(),
    }
}

pub open spec fn spec_calculate_projection_vjp(
    projection_jacobian: &Mat2x3,
    mean_c: &Vec3A,
    cov_c: &Sym3,
    u: &ProjectUniforms,
    v_cov2d: &Sym2,
    v_mean2d: &Vec2,
    camera_model: &CameraModel<Scalar>,
    perspective: &Vec3A,
) -> Vec3A {
    match *camera_model {
        CameraModel::KannalaBrandt4(params) => calculate_projection_vjp_kb4(
            projection_jacobian,
            mean_c,
            cov_c,
            u,
            v_cov2d,
            v_mean2d,
            &params,
        ),
        CameraModel::ThinPrismFisheye(params) => calculate_projection_vjp_tpf(
            projection_jacobian,
            mean_c,
            cov_c,
            u,
            v_cov2d,
            v_mean2d,
            &params,
        ),
        _ => *perspective,
    }
}

/// The gradient with respect to the camera-space mean, given the gradients with
/// respect to the projected mean and covariance, under any model.
/// `perspective` is that gradient for the perspective models.
#[verifier::when_used_as_spec(spec_calculate_projection_vjp)]
pub fn calculate_projection_vjp(
    projection_jacobian: &Mat2x3,
    mean_c: &Vec3A,
    cov_c: &Sym3,
    u: &ProjectUniforms,
    v_cov2d: &Sym2,
    v_mean2d: &Vec2,
    camera_model: &CameraModel<Scalar>,
    perspective: &Vec3A,
) -> (r: Vec3A)
    ensures
        r == calculate_projection_vjp(
            projection_jacobian,
            mean_c,
            cov_c,
            u,
            v_cov2d,
            v_mean2d,
            camera_model,
            perspective,
        ),
        camera_model is Pinhole || camera_model is RadialTangential8 ==> r == *perspective,
        camera_model matches CameraModel::KannalaBrandt4(params) ==> r
            == calculate_projection_vjp_kb4(
            projection_jacobian,
            mean_c,
            cov_c,
            u,
            v_cov2d,
            v_mean2d,
            params,
        ),
        camera_model matches CameraModel::ThinPrismFisheye(params) ==> r
            == calculate_projection_vjp_tpf(
            projection_jacobian,
            mean_c,
            cov_c,
            u,
            v_cov2d,
            v_mean2d,
            params,
        ),
{
    match camera_model {
        CameraModel::KannalaBrandt4(params) => calculate_projection_vjp_kb4(
            projection_jacobian,
            mean_c,
            cov_c,
            u,
            v_cov2d,
            v_mean2d,
            params,
        ),
        CameraModel::ThinPrismFisheye(params) => calculate_projection_vjp_tpf(
            projection_jacobian,
            mean_c,
            cov_c,
            u,
            v_cov2d,
            v_mean2d,
            params,
        ),
        CameraModel::Pinhole | CameraModel::RadialTangential8(_) => perspective.clone(),
    }
}

} // verus!
