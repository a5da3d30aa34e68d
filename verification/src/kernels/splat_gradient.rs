//! The backward projection of one splat as a whole: what it returns is the
//! gradient of the image of its mean, of its conic and of the direction it is
//! seen in.
use crate::camera_model::derivative::{camera_is_fixed, lemma_kb4_jacobian, lemma_kb4_vjp, off_axis};
use crate::camera_model::thin_prism_derivative::{lemma_tpf_jacobian, lemma_tpf_vjp, prism_is_fixed};
use crate::camera_model::{
    calculate_project_jacobian, calculate_projection_vjp, project, CameraModel, ProjectUniforms,
};
use crate::cube::meaning::{lemma_mat3_adjoint, lemma_mat3_apply, RMat3, RSym2, RVec2, RVec3};
use crate::cube::{Mat2x3, Mat3, Quat, Sym2, Sym3, Vec2, Vec3A};
use crate::expr::Scalar;
use crate::expr::semantics::{group_rate, group_value, Model};
use crate::kernels::algebra::{dot3_comm, inner2_of_sum, moved_row};
use crate::kernels::chain::{lemma_affine_vjp_matrix, lemma_transform_vjp, splat_matrix};
use crate::kernels::gradients::{lemma_conic_vjp, lemma_view_direction_vjp};
use crate::kernels::project_backwards::{
    affine_vjp, camera_covariance, conic_vjp, project_splat_vjp, unscented_vjp, view_direction,
    view_direction_vjp, PerspectiveResults, SplatHelpers, SplatRasterGrads, SplatTransform,
};
use crate::kernels::unscented::{exact_jacobians, image_rate, lemma_unscented_gradient, sigma_cov};
use crate::kernels::ut_vjp::{
    calculate_ut_vjp, project_sigma_points, sigma_image_vjp, sigma_jacobians, sigma_mean,
    sigma_point_vjp, sigma_points, square_root_matrix, SigmaImages, SigmaPoints,
};
use vstd::prelude::*;

verus! {

pub open spec fn zero3() -> RVec3 {
    RVec3 { x: 0real, y: 0real, z: 0real }
}

/// The view does not change.
pub open spec fn view_is_fixed(u: ProjectUniforms, m: Model) -> bool {
    &&& u.camera_pos.rate(m) == zero3()
    &&& u.view_rotation.rate(m) == (RMat3 { c0: zero3(), c1: zero3(), c2: zero3() })
}

/// The camera does not change, and its model is a fisheye that is smooth at `p`.
pub open spec fn fisheye_is_smooth(
    camera_model: CameraModel<Scalar>,
    u: ProjectUniforms,
    p: RVec3,
    m: Model,
) -> bool {
    match camera_model {
        CameraModel::KannalaBrandt4(params) => {
            &&& camera_is_fixed(u.pinhole_params, u.half_max_render_fov, params, m)
            &&& off_axis(p, m)
        },
        CameraModel::ThinPrismFisheye(params) => {
            &&& prism_is_fixed(u.pinhole_params, u.half_max_render_fov, params, m)
            &&& off_axis(p, m)
            &&& p.z != 0real
        },
        _ => false,
    }
}

/// Under the fisheye models the Jacobian is the derivative of the projection.
pub proof fn lemma_fisheye_jacobian(
    point: Vec3A,
    u: ProjectUniforms,
    camera_model: CameraModel<Scalar>,
    image: (Scalar, Scalar),
    jacobian: Mat2x3,
    m: Model,
)
    requires
        m.sound(),
        fisheye_is_smooth(camera_model, u, point.value(m), m),
    ensures
        image_rate(
            project(&point, &u.pinhole_params, &u.half_max_render_fov, &camera_model, &image),
            m,
        ) == calculate_project_jacobian(
            &point,
            &u.pinhole_params,
            &u.half_max_render_fov,
            &camera_model,
            &jacobian,
        ).value(m).apply(point.rate(m)),
{
    match camera_model {
        CameraModel::KannalaBrandt4(params) => {
            lemma_kb4_jacobian(point, u.pinhole_params, u.half_max_render_fov, params, m);
        },
        CameraModel::ThinPrismFisheye(params) => {
            lemma_tpf_jacobian(point, u.pinhole_params, u.half_max_render_fov, params, m);
        },
        _ => {},
    }
}

/// The gradient that reaches the camera-space mean is that of its image and of
/// the projected covariance, which it moves through the Jacobian. `image` is the
/// image of the mean under the perspective model.
pub open spec fn projection_is_exact(
    mean_c: Vec3A,
    cov_c: Sym3,
    u: ProjectUniforms,
    v_mean2d: Vec2,
    v_cov2d: Sym2,
    camera_model: CameraModel<Scalar>,
    image: (Scalar, Scalar),
    perspective: PerspectiveResults,
    m: Model,
) -> bool {
    let (pin, fov) = (u.pinhole_params, u.half_max_render_fov);
    let jac = calculate_project_jacobian(
        &mean_c,
        &pin,
        &fov,
        &camera_model,
        &perspective.jacobian,
    );
    calculate_projection_vjp(
        &jac,
        &mean_c,
        &cov_c,
        &u,
        &v_cov2d,
        &v_mean2d,
        &camera_model,
        &perspective.v_mean_c,
    ).value(m).dot(mean_c.rate(m)) == v_mean2d.value(m).dot(
        image_rate(project(&mean_c, &pin, &fov, &camera_model, &image), m),
    ) + v_cov2d.value(m).inner(jac.value(m).sandwich_rate(jac.rate(m), cov_c.value(m)))
}

/// Under the fisheye models that gradient is always exact.
pub proof fn lemma_fisheye_is_exact(
    mean_c: Vec3A,
    cov_c: Sym3,
    u: ProjectUniforms,
    v_mean2d: Vec2,
    v_cov2d: Sym2,
    camera_model: CameraModel<Scalar>,
    image: (Scalar, Scalar),
    perspective: PerspectiveResults,
    m: Model,
)
    requires
        m.sound(),
        fisheye_is_smooth(camera_model, u, mean_c.value(m), m),
    ensures
        projection_is_exact(
            mean_c,
            cov_c,
            u,
            v_mean2d,
            v_cov2d,
            camera_model,
            image,
            perspective,
            m,
        ),
{
    match camera_model {
        CameraModel::KannalaBrandt4(params) => {
            lemma_kb4_vjp(mean_c, cov_c, u, v_cov2d, v_mean2d, params, m);
        },
        CameraModel::ThinPrismFisheye(params) => {
            lemma_tpf_vjp(mean_c, cov_c, u, v_cov2d, v_mean2d, params, m);
        },
        _ => {},
    }
}

/// How fast the projected covariance `J * C * J^T` changes.
pub open spec fn projected_rate(
    mat: Mat3,
    mean_c: Vec3A,
    u: ProjectUniforms,
    camera_model: CameraModel<Scalar>,
    perspective: PerspectiveResults,
    m: Model,
) -> RSym2 {
    let cov_c = camera_covariance(&mat, &u.view_rotation);
    let jac = calculate_project_jacobian(
        &mean_c,
        &u.pinhole_params,
        &u.half_max_render_fov,
        &camera_model,
        &perspective.jacobian,
    );
    let a = jac.value(m).sandwich(cov_c.rate(m));
    let b = jac.value(m).sandwich_rate(jac.rate(m), cov_c.value(m));
    RSym2 { c00: a.c00 + b.c00, c01: a.c01 + b.c01, c11: a.c11 + b.c11 }
}

/// How fast the camera-space covariance changes under a view that does not.
proof fn lemma_camera_covariance_rate(mat: Mat3, view_rotation: Mat3, m: Model)
    requires
        view_rotation.rate(m) == (RMat3 { c0: zero3(), c1: zero3(), c2: zero3() }),
    ensures
        camera_covariance(&mat, &view_rotation).rate(m) == view_rotation.value(m).sandwich(
            mat.outer_product_self().rate(m),
        ),
{
    broadcast use {group_value, group_rate};

    let s = mat.outer_product_self();
    let c = camera_covariance(&mat, &view_rotation);
    let sr = s.rate(m);
    let v = view_rotation.value(m);
    let a = view_rotation;
    assert(a.row0().rate(m) == zero3() && a.row1().rate(m) == zero3() && a.row2().rate(m)
        == zero3());
    assert(s.mul_vec3(&a.row0()).x.rate(m) == sr.apply(v.row0()).x);
    assert(s.mul_vec3(&a.row0()).y.rate(m) == sr.apply(v.row0()).y);
    assert(s.mul_vec3(&a.row0()).z.rate(m) == sr.apply(v.row0()).z);
    assert(s.mul_vec3(&a.row1()).x.rate(m) == sr.apply(v.row1()).x);
    assert(s.mul_vec3(&a.row1()).y.rate(m) == sr.apply(v.row1()).y);
    assert(s.mul_vec3(&a.row1()).z.rate(m) == sr.apply(v.row1()).z);
    assert(s.mul_vec3(&a.row2()).x.rate(m) == sr.apply(v.row2()).x);
    assert(s.mul_vec3(&a.row2()).y.rate(m) == sr.apply(v.row2()).y);
    assert(s.mul_vec3(&a.row2()).z.rate(m) == sr.apply(v.row2()).z);
    assert(c.c00.rate(m) == v.row0().dot(sr.apply(v.row0())));
    assert(c.c01.rate(m) == v.row0().dot(sr.apply(v.row1())));
    assert(c.c02.rate(m) == v.row0().dot(sr.apply(v.row2())));
    assert(c.c11.rate(m) == v.row1().dot(sr.apply(v.row1())));
    assert(c.c12.rate(m) == v.row1().dot(sr.apply(v.row2())));
    assert(c.c22.rate(m) == v.row2().dot(sr.apply(v.row2())));
}

/// [`affine_vjp`] returns the gradients of the image of the mean and of the
/// projected covariance, with respect to the camera-space mean and to the rotation
/// and extent.
pub proof fn lemma_affine_gradient(
    mat: Mat3,
    mean_c: Vec3A,
    u: ProjectUniforms,
    v_mean2d: Vec2,
    v_cov2d: Sym2,
    camera_model: CameraModel<Scalar>,
    image: (Scalar, Scalar),
    perspective: PerspectiveResults,
    m: Model,
)
    requires
        view_is_fixed(u, m),
        projection_is_exact(
            mean_c,
            camera_covariance(&mat, &u.view_rotation),
            u,
            v_mean2d,
            v_cov2d,
            camera_model,
            image,
            perspective,
            m,
        ),
    ensures
        ({
            let g = affine_vjp(
                &mat,
                &mean_c,
                &u,
                &v_mean2d,
                &v_cov2d,
                &camera_model,
                &perspective,
            );
            let seen = project(
                &mean_c,
                &u.pinhole_params,
                &u.half_max_render_fov,
                &camera_model,
                &image,
            );
            v_mean2d.value(m).dot(image_rate(seen, m)) + v_cov2d.value(m).inner(
                projected_rate(mat, mean_c, u, camera_model, perspective, m),
            ) == g.0.value(m).dot(mean_c.rate(m)) + g.1.value(m).inner(mat.rate(m))
        }),
{
    let cov_c = camera_covariance(&mat, &u.view_rotation);
    let jac = calculate_project_jacobian(
        &mean_c,
        &u.pinhole_params,
        &u.half_max_render_fov,
        &camera_model,
        &perspective.jacobian,
    );
    lemma_camera_covariance_rate(mat, u.view_rotation, m);
    lemma_affine_vjp_matrix(
        mat,
        mean_c,
        u,
        v_mean2d,
        v_cov2d,
        camera_model,
        perspective,
        m,
    );
    let v = v_cov2d.value(m);
    let a = jac.value(m).sandwich(cov_c.rate(m));
    let b = jac.value(m).sandwich_rate(jac.rate(m), cov_c.value(m));
    inner2_of_sum(v.c00, v.c01, v.c11, a.c00, a.c01, a.c11, b.c00, b.c01, b.c11);
}

/// How fast the view-space square root of the covariance changes: the view turns
/// each column of the splat's own.
proof fn lemma_square_root_rate(scale: Vec3A, quat: Quat, view_rotation: Mat3, m: Model)
    requires
        view_rotation.rate(m) == (RMat3 { c0: zero3(), c1: zero3(), c2: zero3() }),
    ensures
        ({
            let ns = square_root_matrix(&scale, &quat, &view_rotation).rate(m);
            let d = quat.to_mat3().mul_diag(&scale).rate(m);
            let v = view_rotation.value(m);
            &&& ns.c0 == v.apply(d.c0)
            &&& ns.c1 == v.apply(d.c1)
            &&& ns.c2 == v.apply(d.c2)
        }),
{
    let r = quat.to_mat3();
    let mat = r.mul_diag(&scale);
    let a = view_rotation;
    let v = a.value(m);
    let turned = a.mul_mat3(&r);
    let ns = square_root_matrix(&scale, &quat, &view_rotation);
    let (s, t) = (scale.value(m), scale.rate(m));
    let (rv, rr) = (r.value(m), r.rate(m));
    let d = mat.rate(m);
    let nr = ns.rate(m);
    assert(turned.value(m).c0 == v.apply(rv.c0) && turned.value(m).c1 == v.apply(rv.c1)
        && turned.value(m).c2 == v.apply(rv.c2)) by {
        lemma_mat3_apply(a, r.col0(), m);
        lemma_mat3_apply(a, r.col1(), m);
        lemma_mat3_apply(a, r.col2(), m);
    }
    assert(turned.rate(m).c0 == v.apply(rr.c0) && turned.rate(m).c1 == v.apply(rr.c1)
        && turned.rate(m).c2 == v.apply(rr.c2)) by {
        broadcast use {group_value, group_rate};

        assert(a.col0().rate(m) == zero3() && a.col1().rate(m) == zero3() && a.col2().rate(m)
            == zero3());
        assert(turned.c0_x.rate(m) == v.apply(rr.c0).x);
        assert(turned.c0_y.rate(m) == v.apply(rr.c0).y);
        assert(turned.c0_z.rate(m) == v.apply(rr.c0).z);
        assert(turned.c1_x.rate(m) == v.apply(rr.c1).x);
        assert(turned.c1_y.rate(m) == v.apply(rr.c1).y);
        assert(turned.c1_z.rate(m) == v.apply(rr.c1).z);
        assert(turned.c2_x.rate(m) == v.apply(rr.c2).x);
        assert(turned.c2_y.rate(m) == v.apply(rr.c2).y);
        assert(turned.c2_z.rate(m) == v.apply(rr.c2).z);
    }
    let tv = turned.value(m);
    let tr = turned.rate(m);
    assert(nr.c0.x == tr.c0.x * s.x + tv.c0.x * t.x) by {
        broadcast use {group_value, group_rate};

    }
    assert(d.c0.x == rr.c0.x * s.x + rv.c0.x * t.x) by {
        broadcast use {group_value, group_rate};

    }
    assert(nr.c0.y == tr.c0.y * s.x + tv.c0.y * t.x) by {
        broadcast use {group_value, group_rate};

    }
    assert(d.c0.y == rr.c0.y * s.x + rv.c0.y * t.x) by {
        broadcast use {group_value, group_rate};

    }
    assert(nr.c0.z == tr.c0.z * s.x + tv.c0.z * t.x) by {
        broadcast use {group_value, group_rate};

    }
    assert(d.c0.z == rr.c0.z * s.x + rv.c0.z * t.x) by {
        broadcast use {group_value, group_rate};

    }
    moved_row(v.c0.x, v.c1.x, v.c2.x, rr.c0.x, rr.c0.y, rr.c0.z, rv.c0.x, rv.c0.y, rv.c0.z, s.x,
        t.x);
    moved_row(v.c0.y, v.c1.y, v.c2.y, rr.c0.x, rr.c0.y, rr.c0.z, rv.c0.x, rv.c0.y, rv.c0.z, s.x,
        t.x);
    moved_row(v.c0.z, v.c1.z, v.c2.z, rr.c0.x, rr.c0.y, rr.c0.z, rv.c0.x, rv.c0.y, rv.c0.z, s.x,
        t.x);
    assert(nr.c1.x == tr.c1.x * s.y + tv.c1.x * t.y) by {
        broadcast use {group_value, group_rate};

    }
    assert(d.c1.x == rr.c1.x * s.y + rv.c1.x * t.y) by {
        broadcast use {group_value, group_rate};

    }
    assert(nr.c1.y == tr.c1.y * s.y + tv.c1.y * t.y) by {
        broadcast use {group_value, group_rate};

    }
    assert(d.c1.y == rr.c1.y * s.y + rv.c1.y * t.y) by {
        broadcast use {group_value, group_rate};

    }
    assert(nr.c1.z == tr.c1.z * s.y + tv.c1.z * t.y) by {
        broadcast use {group_value, group_rate};

    }
    assert(d.c1.z == rr.c1.z * s.y + rv.c1.z * t.y) by {
        broadcast use {group_value, group_rate};

    }
    moved_row(v.c0.x, v.c1.x, v.c2.x, rr.c1.x, rr.c1.y, rr.c1.z, rv.c1.x, rv.c1.y, rv.c1.z, s.y,
        t.y);
    moved_row(v.c0.y, v.c1.y, v.c2.y, rr.c1.x, rr.c1.y, rr.c1.z, rv.c1.x, rv.c1.y, rv.c1.z, s.y,
        t.y);
    moved_row(v.c0.z, v.c1.z, v.c2.z, rr.c1.x, rr.c1.y, rr.c1.z, rv.c1.x, rv.c1.y, rv.c1.z, s.y,
        t.y);
    assert(nr.c2.x == tr.c2.x * s.z + tv.c2.x * t.z) by {
        broadcast use {group_value, group_rate};

    }
    assert(d.c2.x == rr.c2.x * s.z + rv.c2.x * t.z) by {
        broadcast use {group_value, group_rate};

    }
    assert(nr.c2.y == tr.c2.y * s.z + tv.c2.y * t.z) by {
        broadcast use {group_value, group_rate};

    }
    assert(d.c2.y == rr.c2.y * s.z + rv.c2.y * t.z) by {
        broadcast use {group_value, group_rate};

    }
    assert(nr.c2.z == tr.c2.z * s.z + tv.c2.z * t.z) by {
        broadcast use {group_value, group_rate};

    }
    assert(d.c2.z == rr.c2.z * s.z + rv.c2.z * t.z) by {
        broadcast use {group_value, group_rate};

    }
    moved_row(v.c0.x, v.c1.x, v.c2.x, rr.c2.x, rr.c2.y, rr.c2.z, rv.c2.x, rv.c2.y, rv.c2.z, s.z,
        t.z);
    moved_row(v.c0.y, v.c1.y, v.c2.y, rr.c2.x, rr.c2.y, rr.c2.z, rv.c2.x, rv.c2.y, rv.c2.z, s.z,
        t.z);
    moved_row(v.c0.z, v.c1.z, v.c2.z, rr.c2.x, rr.c2.y, rr.c2.z, rv.c2.x, rv.c2.y, rv.c2.z, s.z,
        t.z);
}

/// The sigma points of a splat.
pub open spec fn splat_points(
    scale: Vec3A,
    quat: Quat,
    mean_c: Vec3A,
    u: ProjectUniforms,
) -> SigmaPoints {
    sigma_points(&mean_c, &square_root_matrix(&scale, &quat, &u.view_rotation))
}

/// The images of the sigma points of a splat.
pub open spec fn splat_images(
    scale: Vec3A,
    quat: Quat,
    mean_c: Vec3A,
    u: ProjectUniforms,
    camera_model: CameraModel<Scalar>,
    perspective: PerspectiveResults,
) -> SigmaImages {
    project_sigma_points(
        &splat_points(scale, quat, mean_c, u),
        &u,
        &camera_model,
        &perspective.sigma.0,
    )
}

/// At the sigma points of a splat the Jacobians are the derivatives of the
/// projection.
pub open spec fn sigma_is_exact(
    scale: Vec3A,
    quat: Quat,
    mean_c: Vec3A,
    u: ProjectUniforms,
    camera_model: CameraModel<Scalar>,
    perspective: PerspectiveResults,
    m: Model,
) -> bool {
    let points = splat_points(scale, quat, mean_c, u);
    exact_jacobians(
        points,
        splat_images(scale, quat, mean_c, u, camera_model, perspective),
        sigma_jacobians(&points, &u, &camera_model, &perspective.sigma.1),
        m,
    )
}

/// The fisheye model is smooth at every sigma point.
pub open spec fn smooth_at_points(
    points: SigmaPoints,
    u: ProjectUniforms,
    camera_model: CameraModel<Scalar>,
    m: Model,
) -> bool {
    &&& fisheye_is_smooth(camera_model, u, points.p0.value(m), m)
    &&& fisheye_is_smooth(camera_model, u, points.p1.value(m), m)
    &&& fisheye_is_smooth(camera_model, u, points.p2.value(m), m)
    &&& fisheye_is_smooth(camera_model, u, points.p3.value(m), m)
    &&& fisheye_is_smooth(camera_model, u, points.p4.value(m), m)
    &&& fisheye_is_smooth(camera_model, u, points.p5.value(m), m)
    &&& fisheye_is_smooth(camera_model, u, points.p6.value(m), m)
}

/// Under the fisheye models the Jacobians at the sigma points are always exact.
pub proof fn lemma_fisheye_sigma_is_exact(
    scale: Vec3A,
    quat: Quat,
    mean_c: Vec3A,
    u: ProjectUniforms,
    camera_model: CameraModel<Scalar>,
    perspective: PerspectiveResults,
    m: Model,
)
    requires
        m.sound(),
        smooth_at_points(splat_points(scale, quat, mean_c, u), u, camera_model, m),
    ensures
        sigma_is_exact(scale, quat, mean_c, u, camera_model, perspective, m),
{
    let points = splat_points(scale, quat, mean_c, u);
    let (i, j) = perspective.sigma;
    lemma_fisheye_jacobian(points.p0, u, camera_model, i.u0, j.j0, m);
    lemma_fisheye_jacobian(points.p1, u, camera_model, i.u1, j.j1, m);
    lemma_fisheye_jacobian(points.p2, u, camera_model, i.u2, j.j2, m);
    lemma_fisheye_jacobian(points.p3, u, camera_model, i.u3, j.j3, m);
    lemma_fisheye_jacobian(points.p4, u, camera_model, i.u4, j.j4, m);
    lemma_fisheye_jacobian(points.p5, u, camera_model, i.u5, j.j5, m);
    lemma_fisheye_jacobian(points.p6, u, camera_model, i.u6, j.j6, m);
}

/// [`unscented_vjp`] returns the gradients of the mean and covariance of the
/// images of the sigma points, with respect to the camera-space mean and to the
/// rotation and extent.
pub proof fn lemma_unscented_vjp(
    scale: Vec3A,
    quat: Quat,
    mean_c: Vec3A,
    u: ProjectUniforms,
    v_mean2d: Vec2,
    v_cov2d: Sym2,
    camera_model: CameraModel<Scalar>,
    perspective: PerspectiveResults,
    m: Model,
)
    requires
        view_is_fixed(u, m),
        sigma_is_exact(scale, quat, mean_c, u, camera_model, perspective, m),
    ensures
        ({
            let g = unscented_vjp(
                &scale,
                &quat,
                &mean_c,
                &u,
                &v_mean2d,
                &v_cov2d,
                &camera_model,
                &perspective,
            );
            let images = splat_images(scale, quat, mean_c, u, camera_model, perspective);
            v_mean2d.value(m).dot(sigma_mean(&images).rate(m)) + v_cov2d.value(m).inner(
                sigma_cov(&images).rate(m),
            ) == g.0.value(m).dot(mean_c.rate(m)) + g.1.value(m).inner(
                quat.to_mat3().mul_diag(&scale).rate(m),
            )
        }),
{
    let a = u.view_rotation;
    let ns = square_root_matrix(&scale, &quat, &a);
    let points = splat_points(scale, quat, mean_c, u);
    let images = splat_images(scale, quat, mean_c, u, camera_model, perspective);
    let jacobians = sigma_jacobians(&points, &u, &camera_model, &perspective.sigma.1);
    let k = calculate_ut_vjp(
        &scale,
        &quat,
        &mean_c,
        &u,
        &v_mean2d,
        &v_cov2d,
        &camera_model,
        &perspective.sigma,
    );
    assert(k == sigma_point_vjp(&jacobians, &sigma_image_vjp(&images, &v_mean2d, &v_cov2d)));
    let g = unscented_vjp(
        &scale,
        &quat,
        &mean_c,
        &u,
        &v_mean2d,
        &v_cov2d,
        &camera_model,
        &perspective,
    );
    let d = quat.to_mat3().mul_diag(&scale).rate(m);
    let v = a.value(m);
    let kv = k.1.value(m);
    lemma_square_root_rate(scale, quat, a, m);
    lemma_unscented_gradient(mean_c, ns, images, jacobians, v_mean2d, v_cov2d, m);
    lemma_mat3_apply(a, k.1.col0(), m);
    lemma_mat3_adjoint(v, d.c0, kv.c0);
    assert(g.1.value(m).c0 == v.apply_transpose(kv.c0));
    dot3_comm(
        kv.c0.x,
        kv.c0.y,
        kv.c0.z,
        v.apply(d.c0).x,
        v.apply(d.c0).y,
        v.apply(d.c0).z,
    );
    dot3_comm(
        d.c0.x,
        d.c0.y,
        d.c0.z,
        v.apply_transpose(kv.c0).x,
        v.apply_transpose(kv.c0).y,
        v.apply_transpose(kv.c0).z,
    );
    lemma_mat3_apply(a, k.1.col1(), m);
    lemma_mat3_adjoint(v, d.c1, kv.c1);
    assert(g.1.value(m).c1 == v.apply_transpose(kv.c1));
    dot3_comm(
        kv.c1.x,
        kv.c1.y,
        kv.c1.z,
        v.apply(d.c1).x,
        v.apply(d.c1).y,
        v.apply(d.c1).z,
    );
    dot3_comm(
        d.c1.x,
        d.c1.y,
        d.c1.z,
        v.apply_transpose(kv.c1).x,
        v.apply_transpose(kv.c1).y,
        v.apply_transpose(kv.c1).z,
    );
    lemma_mat3_apply(a, k.1.col2(), m);
    lemma_mat3_adjoint(v, d.c2, kv.c2);
    assert(g.1.value(m).c2 == v.apply_transpose(kv.c2));
    dot3_comm(
        kv.c2.x,
        kv.c2.y,
        kv.c2.z,
        v.apply(d.c2).x,
        v.apply(d.c2).y,
        v.apply(d.c2).z,
    );
    dot3_comm(
        d.c2.x,
        d.c2.y,
        d.c2.z,
        v.apply_transpose(kv.c2).x,
        v.apply_transpose(kv.c2).y,
        v.apply_transpose(kv.c2).z,
    );
}

/// The parameters of the splat move its camera-space mean through the view, its
/// extent changes by the factor `dl`, and neither its quaternion nor its distance
/// from the camera is zero.
pub open spec fn splat_moves(
    splat: SplatTransform,
    u: ProjectUniforms,
    dl: RVec3,
    m: Model,
) -> bool {
    let s = splat.scale.value(m);
    let away = splat.mean.value(m).minus(u.camera_pos.value(m));
    &&& splat.quat_unorm.value(m).dot(splat.quat_unorm.value(m)) > 0real
    &&& splat.scale.rate(m) == (RVec3 { x: s.x * dl.x, y: s.y * dl.y, z: s.z * dl.z })
    &&& splat.mean_c.rate(m) == u.view_rotation.value(m).apply(splat.mean.rate(m))
    &&& away.dot(away) > 0real
}

/// What the rasterizer's gradients say of a change: of the image of the mean, of
/// the conic, and of the view direction, which the colour depends on.
pub open spec fn raster_change(
    splat: SplatTransform,
    g: SplatRasterGrads,
    u: ProjectUniforms,
    helpers: SplatHelpers,
    image: RVec2,
    m: Model,
) -> real {
    let conic = helpers.cov.inverse().rate(m);
    let v = g.conics.value(m);
    g.mean2d.value(m).dot(image) + (v.x * conic.c00 + v.y * conic.c01 + v.z * conic.c11)
        + helpers.v_view_direction.value(m).dot(
        view_direction(&splat.mean, &u.camera_pos).0.rate(m),
    )
}

/// What the returned gradients say of the same change.
pub open spec fn parameter_change(
    splat: SplatTransform,
    g: SplatRasterGrads,
    u: ProjectUniforms,
    use_ut: bool,
    camera_model: CameraModel<Scalar>,
    helpers: SplatHelpers,
    perspective: PerspectiveResults,
    dl: RVec3,
    m: Model,
) -> real {
    let r = project_splat_vjp(&splat, &g, &u, use_ut, &camera_model, &helpers, &perspective);
    r.mean.value(m).dot(splat.mean.rate(m)) + r.quat.value(m).dot(splat.quat_unorm.rate(m))
        + r.log_scale.value(m).dot(dl)
}

/// [`project_splat_vjp`] returns the gradients of a splat's parameters: for every
/// change of its position, its quaternion and the logarithm of its extent they
/// say what the rasterizer's gradients say. The covariance that `helpers` holds
/// is the projected one up to what does not change, such as a blur.
pub proof fn lemma_project_splat_vjp(
    splat: SplatTransform,
    g: SplatRasterGrads,
    u: ProjectUniforms,
    camera_model: CameraModel<Scalar>,
    helpers: SplatHelpers,
    image: (Scalar, Scalar),
    perspective: PerspectiveResults,
    dl: RVec3,
    m: Model,
)
    requires
        m.sound(),
        view_is_fixed(u, m),
        splat_moves(splat, u, dl, m),
        helpers.cov.value(m).det() > 0real,
        helpers.cov.rate(m) == projected_rate(
            splat_matrix(splat),
            splat.mean_c,
            u,
            camera_model,
            perspective,
            m,
        ),
        projection_is_exact(
            splat.mean_c,
            camera_covariance(&splat_matrix(splat), &u.view_rotation),
            u,
            g.mean2d,
            conic_vjp(&helpers.cov, &g.conics),
            camera_model,
            image,
            perspective,
            m,
        ),
    ensures
        ({
            let seen = project(
                &splat.mean_c,
                &u.pinhole_params,
                &u.half_max_render_fov,
                &camera_model,
                &image,
            );
            raster_change(splat, g, u, helpers, image_rate(seen, m), m) == parameter_change(
                splat,
                g,
                u,
                false,
                camera_model,
                helpers,
                perspective,
                dl,
                m,
            )
        }),
{
    let mat = splat_matrix(splat);
    let v_cov2d = conic_vjp(&helpers.cov, &g.conics);
    let r = affine_vjp(
        &mat,
        &splat.mean_c,
        &u,
        &g.mean2d,
        &v_cov2d,
        &camera_model,
        &perspective,
    );
    let view = view_direction(&splat.mean, &u.camera_pos);
    let from_sh = view_direction_vjp(&view, &helpers.v_view_direction);
    lemma_conic_vjp(helpers.cov, g.conics, m);
    lemma_affine_gradient(
        mat,
        splat.mean_c,
        u,
        g.mean2d,
        v_cov2d,
        camera_model,
        image,
        perspective,
        m,
    );
    lemma_view_direction_vjp(splat.mean, u.camera_pos, helpers.v_view_direction, m);
    lemma_transform_vjp(splat, u.view_rotation, r.0, r.1, from_sh, dl, m);
}

/// The same where the projection goes through the sigma points. The covariance
/// that `helpers` holds is that of their images up to what does not change.
pub proof fn lemma_project_splat_vjp_unscented(
    splat: SplatTransform,
    g: SplatRasterGrads,
    u: ProjectUniforms,
    camera_model: CameraModel<Scalar>,
    helpers: SplatHelpers,
    perspective: PerspectiveResults,
    dl: RVec3,
    m: Model,
)
    requires
        m.sound(),
        view_is_fixed(u, m),
        splat_moves(splat, u, dl, m),
        helpers.cov.value(m).det() > 0real,
        helpers.cov.rate(m) == sigma_cov(
            &splat_images(
                splat.scale,
                splat.quat_unorm.normalize(),
                splat.mean_c,
                u,
                camera_model,
                perspective,
            ),
        ).rate(m),
        sigma_is_exact(
            splat.scale,
            splat.quat_unorm.normalize(),
            splat.mean_c,
            u,
            camera_model,
            perspective,
            m,
        ),
    ensures
        ({
            let seen = sigma_mean(
                &splat_images(
                    splat.scale,
                    splat.quat_unorm.normalize(),
                    splat.mean_c,
                    u,
                    camera_model,
                    perspective,
                ),
            );
            raster_change(splat, g, u, helpers, seen.rate(m), m) == parameter_change(
                splat,
                g,
                u,
                true,
                camera_model,
                helpers,
                perspective,
                dl,
                m,
            )
        }),
{
    let quat = splat.quat_unorm.normalize();
    let v_cov2d = conic_vjp(&helpers.cov, &g.conics);
    let r = unscented_vjp(
        &splat.scale,
        &quat,
        &splat.mean_c,
        &u,
        &g.mean2d,
        &v_cov2d,
        &camera_model,
        &perspective,
    );
    let view = view_direction(&splat.mean, &u.camera_pos);
    let from_sh = view_direction_vjp(&view, &helpers.v_view_direction);
    lemma_conic_vjp(helpers.cov, g.conics, m);
    lemma_unscented_vjp(
        splat.scale,
        quat,
        splat.mean_c,
        u,
        g.mean2d,
        v_cov2d,
        camera_model,
        perspective,
        m,
    );
    lemma_view_direction_vjp(splat.mean, u.camera_pos, helpers.v_view_direction, m);
    lemma_transform_vjp(splat, u.view_rotation, r.0, r.1, from_sh, dl, m);
}

/// Under the fisheye models the gradients of [`project_splat_vjp`] are those of
/// the render, wherever the model is smooth: through the affine projection, and
/// through the sigma points.
pub proof fn lemma_fisheye_splat_gradient(
    splat: SplatTransform,
    g: SplatRasterGrads,
    u: ProjectUniforms,
    use_ut: bool,
    camera_model: CameraModel<Scalar>,
    helpers: SplatHelpers,
    perspective: PerspectiveResults,
    dl: RVec3,
    m: Model,
)
    requires
        m.sound(),
        view_is_fixed(u, m),
        splat_moves(splat, u, dl, m),
        helpers.cov.value(m).det() > 0real,
        !use_ut ==> fisheye_is_smooth(camera_model, u, splat.mean_c.value(m), m),
        use_ut ==> smooth_at_points(
            splat_points(splat.scale, splat.quat_unorm.normalize(), splat.mean_c, u),
            u,
            camera_model,
            m,
        ),
        helpers.cov.rate(m) == seen_cov_rate(splat, u, use_ut, camera_model, perspective, m),
    ensures
        raster_change(
            splat,
            g,
            u,
            helpers,
            seen_rate(splat, u, use_ut, camera_model, perspective, m),
            m,
        ) == parameter_change(splat, g, u, use_ut, camera_model, helpers, perspective, dl, m),
{
    if use_ut {
        lemma_fisheye_sigma_is_exact(
            splat.scale,
            splat.quat_unorm.normalize(),
            splat.mean_c,
            u,
            camera_model,
            perspective,
            m,
        );
        lemma_project_splat_vjp_unscented(
            splat,
            g,
            u,
            camera_model,
            helpers,
            perspective,
            dl,
            m,
        );
    } else {
        let image = perspective.sigma.0.u0;
        lemma_fisheye_is_exact(
            splat.mean_c,
            camera_covariance(&splat_matrix(splat), &u.view_rotation),
            u,
            g.mean2d,
            conic_vjp(&helpers.cov, &g.conics),
            camera_model,
            image,
            perspective,
            m,
        );
        lemma_project_splat_vjp(
            splat,
            g,
            u,
            camera_model,
            helpers,
            image,
            perspective,
            dl,
            m,
        );
    }
}

/// How fast the mean in the image moves: that of the sigma points' images, or the
/// image of the mean.
pub open spec fn seen_rate(
    splat: SplatTransform,
    u: ProjectUniforms,
    use_ut: bool,
    camera_model: CameraModel<Scalar>,
    perspective: PerspectiveResults,
    m: Model,
) -> RVec2 {
    if use_ut {
        sigma_mean(
            &splat_images(
                splat.scale,
                splat.quat_unorm.normalize(),
                splat.mean_c,
                u,
                camera_model,
                perspective,
            ),
        ).rate(m)
    } else {
        image_rate(
            project(
                &splat.mean_c,
                &u.pinhole_params,
                &u.half_max_render_fov,
                &camera_model,
                &perspective.sigma.0.u0,
            ),
            m,
        )
    }
}

/// How fast the covariance in the image changes: that of the sigma points'
/// images, or the projected one.
pub open spec fn seen_cov_rate(
    splat: SplatTransform,
    u: ProjectUniforms,
    use_ut: bool,
    camera_model: CameraModel<Scalar>,
    perspective: PerspectiveResults,
    m: Model,
) -> RSym2 {
    if use_ut {
        sigma_cov(
            &splat_images(
                splat.scale,
                splat.quat_unorm.normalize(),
                splat.mean_c,
                u,
                camera_model,
                perspective,
            ),
        ).rate(m)
    } else {
        projected_rate(splat_matrix(splat), splat.mean_c, u, camera_model, perspective, m)
    }
}

} // verus!
