//! The chain from the gradients of a projected splat to those of its parameters.
use crate::camera_model::{calculate_project_jacobian, CameraModel, ProjectUniforms};
use crate::cube::meaning::{
    lemma_congruence, lemma_mat3_adjoint, lemma_mat3_apply, RMat2x3, RMat3, RSym2, RSym3, RVec3,
};
use crate::cube::{Mat3, Sym2, Vec2, Vec3A};
use crate::expr::semantics::{group_rate, group_value, Model};
use crate::expr::{whole, Scalar};
use crate::kernels::algebra::{
    column_pairing, dot_comm, outer_adjoint, pull2_adjoint, pull3_adjoint, sum_dot,
};
use crate::kernels::gradients::{lemma_apply_normalize_vjp, lemma_quat_to_mat_vjp};
use crate::kernels::project_backwards::{
    affine_vjp, quat_to_mat_vjp, transform_vjp, PerspectiveResults, SplatTransform,
};
use vstd::prelude::*;

verus! {

/// The rotation and extent of a splat, as one matrix.
pub open spec fn splat_matrix(splat: SplatTransform) -> Mat3 {
    splat.quat_unorm.normalize().to_mat3().mul_diag(&splat.scale)
}

/// One column of [`lemma_transform_vjp`].
proof fn lemma_column(v: RVec3, r: RVec3, d: RVec3, s: real, l: real)
    ensures
        v.dot(d.times(s).plus(r.times(s * l))) == v.times(s).dot(d) + (r.dot(v) * s) * l,
{
    column_pairing(v.x, v.y, v.z, r.x, r.y, r.z, d.x, d.y, d.z, s, l);
}

/// [`transform_vjp`] returns the gradients of a splat's parameters: the position,
/// which is seen through the view and by its direction, the quaternion, and the
/// logarithm of the extent, which changes at the rate `dl`.
pub proof fn lemma_transform_vjp(
    splat: SplatTransform,
    view_rotation: Mat3,
    v_mean_c: Vec3A,
    v_m: Mat3,
    v_mean_from_sh: Vec3A,
    dl: RVec3,
    m: Model,
)
    requires
        m.sound(),
        splat.quat_unorm.value(m).dot(splat.quat_unorm.value(m)) > 0real,
        splat.scale.rate(m) == (RVec3 {
            x: splat.scale.value(m).x * dl.x,
            y: splat.scale.value(m).y * dl.y,
            z: splat.scale.value(m).z * dl.z,
        }),
    ensures
        ({
            let g = transform_vjp(&splat, &view_rotation, &v_mean_c, &v_m, &v_mean_from_sh);
            let dm = splat.mean.rate(m);
            v_mean_c.value(m).dot(view_rotation.value(m).apply(dm)) + v_m.value(m).inner(
                splat_matrix(splat).rate(m),
            ) + v_mean_from_sh.value(m).dot(dm) == g.mean.value(m).dot(dm) + g.quat.value(m).dot(
                splat.quat_unorm.rate(m),
            ) + g.log_scale.value(m).dot(dl)
        }),
{
    let g = transform_vjp(&splat, &view_rotation, &v_mean_c, &v_m, &v_mean_from_sh);
    let dm = splat.mean.rate(m);
    let quat = splat.quat_unorm.normalize();
    let rot = quat.to_mat3();
    let r = rot.value(m);
    let dr = rot.rate(m);
    let s = splat.scale.value(m);
    let v = v_m.value(m);
    let scaled = v_m.mul_diag(&splat.scale);
    let q_grad = quat_to_mat_vjp(&quat, &scaled);
    lemma_quat_to_mat_vjp(quat, scaled, m);
    lemma_apply_normalize_vjp(splat.quat_unorm, q_grad, m);
    assert(scaled.value(m) == v.diag(s)) by {
        broadcast use group_value;

    }
    assert(splat_matrix(splat).rate(m) == (RMat3 {
        c0: dr.c0.times(s.x).plus(r.c0.times(s.x * dl.x)),
        c1: dr.c1.times(s.y).plus(r.c1.times(s.y * dl.y)),
        c2: dr.c2.times(s.z).plus(r.c2.times(s.z * dl.z)),
    })) by {
        broadcast use {group_value, group_rate};

    }
    lemma_column(v.c0, r.c0, dr.c0, s.x, dl.x);
    lemma_column(v.c1, r.c1, dr.c1, s.y, dl.y);
    lemma_column(v.c2, r.c2, dr.c2, s.z, dl.z);
    assert(g.log_scale.value(m) == (RVec3 {
        x: r.c0.dot(v.c0) * s.x,
        y: r.c1.dot(v.c1) * s.y,
        z: r.c2.dot(v.c2) * s.z,
    })) by {
        broadcast use group_value;

    }
    lemma_mat3_apply(view_rotation, v_mean_c, m);
    lemma_mat3_adjoint(view_rotation.value(m), dm, v_mean_c.value(m));
    let back = view_rotation.value(m).apply_transpose(v_mean_c.value(m));
    let sh = v_mean_from_sh.value(m);
    assert(g.mean.value(m) == back.plus(sh)) by {
        broadcast use group_value;

    }
    sum_dot(back.x, back.y, back.z, sh.x, sh.y, sh.z, dm.x, dm.y, dm.z);
    dot_comm(dm.x, dm.y, dm.z, back.x, back.y, back.z);
    let seen = view_rotation.value(m).apply(dm);
    let vc = v_mean_c.value(m);
    dot_comm(seen.x, seen.y, seen.z, vc.x, vc.y, vc.z);
}

/// How fast `M * M^T` changes.
pub open spec fn outer_rate(p: RMat3, d: RMat3) -> RSym3 {
    RSym3 {
        c00: (d.c0.x * p.c0.x + p.c0.x * d.c0.x) + (d.c1.x * p.c1.x + p.c1.x * d.c1.x) + (d.c2.x
            * p.c2.x + p.c2.x * d.c2.x),
        c01: (d.c0.x * p.c0.y + p.c0.x * d.c0.y) + (d.c1.x * p.c1.y + p.c1.x * d.c1.y) + (d.c2.x
            * p.c2.y + p.c2.x * d.c2.y),
        c02: (d.c0.x * p.c0.z + p.c0.x * d.c0.z) + (d.c1.x * p.c1.z + p.c1.x * d.c1.z) + (d.c2.x
            * p.c2.z + p.c2.x * d.c2.z),
        c11: (d.c0.y * p.c0.y + p.c0.y * d.c0.y) + (d.c1.y * p.c1.y + p.c1.y * d.c1.y) + (d.c2.y
            * p.c2.y + p.c2.y * d.c2.y),
        c12: (d.c0.y * p.c0.z + p.c0.y * d.c0.z) + (d.c1.y * p.c1.z + p.c1.y * d.c1.z) + (d.c2.y
            * p.c2.z + p.c2.y * d.c2.z),
        c22: (d.c0.z * p.c0.z + p.c0.z * d.c0.z) + (d.c1.z * p.c1.z + p.c1.z * d.c1.z) + (d.c2.z
            * p.c2.z + p.c2.z * d.c2.z),
    }
}

/// [`outer_rate`] is the rate of the outer product.
pub proof fn lemma_outer_rate(a: Mat3, m: Model)
    ensures
        a.outer_product_self().rate(m) == outer_rate(a.value(m), a.rate(m)),
{
    broadcast use {group_value, group_rate};

    let r = outer_rate(a.value(m), a.rate(m));
    let t = a.outer_product_self();
    assert(t.c00.rate(m) == r.c00);
    assert(t.c01.rate(m) == r.c01);
    assert(t.c02.rate(m) == r.c02);
    assert(t.c11.rate(m) == r.c11);
    assert(t.c12.rate(m) == r.c12);
    assert(t.c22.rate(m) == r.c22);
}

proof fn lemma_pull2_adjoint(v: RSym2, j: RMat2x3, c: RSym3)
    ensures
        v.inner(j.sandwich(c)) == j.pull(v).inner(c),
{
    pull2_adjoint(
        v.c00, v.c01, v.c11, j.c0.x, j.c0.y, j.c1.x, j.c1.y, j.c2.x, j.c2.y, c.c00, c.c01, c.c02,
        c.c11, c.c12, c.c22,
    );
}

proof fn lemma_pull3_adjoint(s: RSym3, r: RMat3, c: RSym3)
    ensures
        s.inner(r.sandwich(c)) == r.pull(s).inner(c),
{
    pull3_adjoint(
        s.c00, s.c01, s.c02, s.c11, s.c12, s.c22, r.c0.x, r.c0.y, r.c0.z, r.c1.x, r.c1.y, r.c1.z,
        r.c2.x, r.c2.y, r.c2.z, c.c00, c.c01, c.c02, c.c11, c.c12, c.c22,
    );
}

proof fn lemma_outer_adjoint(s: RSym3, p: RMat3, d: RMat3)
    ensures
        s.inner(outer_rate(p, d)) == s.scaled(2real).times(p).inner(d),
{
    outer_adjoint(
        s.c00, s.c01, s.c02, s.c11, s.c12, s.c22, p.c0.x, p.c0.y, p.c0.z, p.c1.x, p.c1.y, p.c1.z,
        p.c2.x, p.c2.y, p.c2.z, d.c0.x, d.c0.y, d.c0.z, d.c1.x, d.c1.y, d.c1.z, d.c2.x, d.c2.y,
        d.c2.z,
    );
}

/// The second part of [`affine_vjp`] is the gradient of the projected covariance
/// with respect to the rotation and extent, the projection being held.
pub proof fn lemma_affine_vjp_matrix(
    mat: Mat3,
    mean_c: Vec3A,
    u: ProjectUniforms,
    v_mean2d: Vec2,
    v_cov2d: Sym2,
    camera_model: CameraModel<Scalar>,
    perspective: PerspectiveResults,
    m: Model,
)
    ensures
        ({
            let g = affine_vjp(
                &mat,
                &mean_c,
                &u,
                &v_mean2d,
                &v_cov2d,
                &camera_model,
                &perspective,
            );
            let jac = calculate_project_jacobian(
                &mean_c,
                &u.pinhole_params,
                &u.half_max_render_fov,
                &camera_model,
                &perspective.jacobian,
            );
            v_cov2d.value(m).inner(
                jac.value(m).sandwich(
                    u.view_rotation.value(m).sandwich(mat.outer_product_self().rate(m)),
                ),
            ) == g.1.value(m).inner(mat.rate(m))
        }),
{
    let jac = calculate_project_jacobian(
        &mean_c,
        &u.pinhole_params,
        &u.half_max_render_fov,
        &camera_model,
        &perspective.jacobian,
    );
    let g = affine_vjp(&mat, &mean_c, &u, &v_mean2d, &v_cov2d, &camera_model, &perspective);
    let v = v_cov2d.value(m);
    let j = jac.value(m);
    let r = u.view_rotation.value(m);
    let p = mat.value(m);
    let d = mat.rate(m);
    let c = outer_rate(p, d);
    lemma_outer_rate(mat, m);
    lemma_pull2_adjoint(v, j, r.sandwich(c));
    lemma_pull3_adjoint(j.pull(v), r, c);
    lemma_outer_adjoint(r.pull(j.pull(v)), p, d);
    let vcc = jac.transpose_congruence_sym2(&v_cov2d);
    let pulled = vcc.transpose_congruence(&u.view_rotation);
    let two = whole(2);
    lemma_congruence(vcc, u.view_rotation, jac, v_cov2d, two, m);
    lemma_congruence(pulled, mat, jac, v_cov2d, two, m);
    lemma_congruence(pulled.scale(&two), mat, jac, v_cov2d, two, m);
    assert(two.value(m) == 2real) by {
        broadcast use group_value;

    }
}

} // verus!
