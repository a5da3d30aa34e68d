//! What the backward pass writes, in terms of the numbers that the rasterizer left and of
//! the numbers that the splats are made of: the gradients of the render.
use crate::camera_model::{CameraModel, ProjectUniforms};
use crate::cube::meaning::RVec3;
use crate::cube::{sigmoid, Pad, Quat, Vec3A};
use crate::expr::algebra::{reciprocal, same_root};
use crate::expr::semantics::{group_value, pow10, Model};
use crate::expr::{whole, Cond, Scalar};
use crate::kernels::gradients::lemma_raw_opacity_vjp;
use crate::kernels::project_backwards::{
    any_grad, mean_at, view_direction, BackwardInputs, SplatGrads, SplatRasterGrads, SplatTransform,
};
use crate::kernels::splat_gradient::{
    fisheye_is_smooth, lemma_fisheye_splat_gradient, seen_cov_rate, seen_rate, smooth_at_points,
    splat_moves, splat_points, view_is_fixed,
};
use crate::render_bwd::{
    coeff_cell, gid_of, grads_of, row_of_visible, transform_cell, untouched, written,
    VisibleSplat,
};
use vstd::prelude::*;

verus! {

/// The number `k` that the rasterizer left for the visible splat `c`.
pub open spec fn left_for(inputs: &BackwardInputs, c: int, k: int) -> Scalar {
    inputs.v_rasterize_grads@[10 * c + k]
}

/// The number `j` of the splat behind the visible splat `c`.
pub open spec fn parameter(inputs: &BackwardInputs, c: int, j: int) -> Scalar {
    inputs.transforms@[10 * inputs.global_from_compact_gid@[c] as int + j]
}

/// The gradient of the number `j` of the splat behind the visible splat `c`.
pub open spec fn gradient(out: SplatGrads, inputs: &BackwardInputs, c: int, j: int) -> Scalar {
    out.v_transforms@[10 * inputs.global_from_compact_gid@[c] as int + j]
}

/// The ten numbers by name: the position, the quaternion from its real part on, and
/// the extent in logarithms, of which `scale` is what the readers make.
pub open spec fn splat_at(inputs: &BackwardInputs, c: int, mean_c: Vec3A, scale: Vec3A) ->
    SplatTransform {
    SplatTransform {
        mean: Vec3A {
            x: parameter(inputs, c, 0),
            y: parameter(inputs, c, 1),
            z: parameter(inputs, c, 2),
            pad: Pad::Zero,
        },
        mean_c,
        scale,
        quat_unorm: Quat {
            w: parameter(inputs, c, 3),
            x: parameter(inputs, c, 4),
            y: parameter(inputs, c, 5),
            z: parameter(inputs, c, 6),
        },
    }
}

/// The rasterizer left a number that is not zero.
pub open spec fn contributed(inputs: &BackwardInputs, c: int, m: Model) -> bool {
    exists|k: int| 0 <= k < 10 && (#[trigger] left_for(inputs, c, k)).value(m) != 0real
}

proof fn lemma_any_grad(inputs: &BackwardInputs, c: int, m: Model)
    ensures
        any_grad(&grads_of(inputs, c)).holds(m) == contributed(inputs, c, m),
{
    let g = grads_of(inputs, c);
    lemma_some_is_not_zero(g, m);
    assert(g.mean2d.x == left_for(inputs, c, 0));
    assert(g.mean2d.y == left_for(inputs, c, 1));
    assert(g.conics.x == left_for(inputs, c, 2));
    assert(g.conics.y == left_for(inputs, c, 3));
    assert(g.conics.z == left_for(inputs, c, 4));
    assert(g.color.x == left_for(inputs, c, 5));
    assert(g.color.y == left_for(inputs, c, 6));
    assert(g.color.z == left_for(inputs, c, 7));
    assert(g.alpha == left_for(inputs, c, 8));
    assert(g.refine == left_for(inputs, c, 9));
}

proof fn lemma_some_is_not_zero(g: SplatRasterGrads, m: Model)
    ensures
        any_grad(&g).holds(m) == (g.mean2d.x.value(m) != 0real || g.mean2d.y.value(m) != 0real
            || g.conics.x.value(m) != 0real || g.conics.y.value(m) != 0real || g.conics.z.value(m)
            != 0real || g.color.x.value(m) != 0real || g.color.y.value(m) != 0real
            || g.color.z.value(m) != 0real || g.alpha.value(m) != 0real || g.refine.value(m)
            != 0real),
{
    reveal_with_fuel(Cond::holds, 12);
    assert(whole(0).value(m) == 0real);
}

/// The row written for a visible splat is the gradient of what the rasterizer saw of it:
/// paired with how fast each of the splat's ten numbers changes, it gives the change of
/// the image of the mean weighted by the first two numbers that the rasterizer left, that
/// of the conic weighted by the next three, and what the colour makes of the change of
/// the view direction.
pub proof fn lemma_buffer_gradient(
    out: SplatGrads,
    inputs: BackwardInputs,
    u: ProjectUniforms,
    use_ut: bool,
    camera_model: CameraModel<Scalar>,
    visible: VisibleSplat,
    c: int,
    m: Model,
)
    requires
        m.sound(),
        view_is_fixed(u, m),
        written(out, &inputs, &u, use_ut, &camera_model, visible, c),
        contributed(&inputs, c, m),
        visible.helpers.cov.value(m).det() > 0real,
        ({
            let splat = splat_at(&inputs, c, visible.splat.mean_c, visible.splat.scale);
            let growth = RVec3 {
                x: parameter(&inputs, c, 7).rate(m),
                y: parameter(&inputs, c, 8).rate(m),
                z: parameter(&inputs, c, 9).rate(m),
            };
            &&& visible.splat.quat_unorm == splat.quat_unorm
            &&& splat_moves(splat, u, growth, m)
            &&& !use_ut ==> fisheye_is_smooth(camera_model, u, splat.mean_c.value(m), m)
            &&& use_ut ==> smooth_at_points(
                splat_points(splat.scale, splat.quat_unorm.normalize(), splat.mean_c, u),
                u,
                camera_model,
                m,
            )
            &&& visible.helpers.cov.rate(m) == seen_cov_rate(
                splat,
                u,
                use_ut,
                camera_model,
                visible.perspective,
                m,
            )
        }),
    ensures
        ({
            let splat = splat_at(&inputs, c, visible.splat.mean_c, visible.splat.scale);
            let image = seen_rate(splat, u, use_ut, camera_model, visible.perspective, m);
            let conic = visible.helpers.cov.inverse().rate(m);
            let view = view_direction(&splat.mean, &u.camera_pos).0;
            let said = |j: int|
                gradient(out, &inputs, c, j).value(m) * parameter(&inputs, c, j).rate(m);
            said(0) + said(1) + said(2) + said(3) + said(4) + said(5) + said(6) + said(7) + said(8)
                + said(9) == left_for(&inputs, c, 0).value(m) * image.x + left_for(
                &inputs,
                c,
                1,
            ).value(m) * image.y + left_for(&inputs, c, 2).value(m) * conic.c00 + left_for(
                &inputs,
                c,
                3,
            ).value(m) * conic.c01 + left_for(&inputs, c, 4).value(m) * conic.c11
                + visible.helpers.v_view_direction.value(m).dot(view.rate(m))
        }),
{
    let splat = splat_at(&inputs, c, visible.splat.mean_c, visible.splat.scale);
    let growth = RVec3 {
        x: parameter(&inputs, c, 7).rate(m),
        y: parameter(&inputs, c, 8).rate(m),
        z: parameter(&inputs, c, 9).rate(m),
    };
    let g = grads_of(&inputs, c);
    lemma_any_grad(&inputs, c, m);
    lemma_fisheye_splat_gradient(
        splat,
        g,
        u,
        use_ut,
        camera_model,
        visible.helpers,
        visible.perspective,
        growth,
        m,
    );
    let row = row_of_visible(&inputs, &u, use_ut, &camera_model, visible, c);
    assert(splat == (SplatTransform {
        mean: mean_at(inputs.transforms@, 10 * gid_of(&inputs, c)),
        ..visible.splat
    }));
    assert forall|j: int| 0 <= j < 10 implies (#[trigger] gradient(out, &inputs, c, j)).value(m)
        == row[j].value(m) by {
        assert(out.v_transforms@[10 * gid_of(&inputs, c) + j] == transform_cell(
            &inputs,
            &u,
            use_ut,
            &camera_model,
            visible,
            c,
            j,
        ));
        broadcast use group_value;

    }
    let said = |j: int|
        gradient(out, &inputs, c, j).value(m) * parameter(&inputs, c, j).rate(m);
    assert(said(0) == row[0].value(m) * splat.mean.x.rate(m));
    assert(said(1) == row[1].value(m) * splat.mean.y.rate(m));
    assert(said(2) == row[2].value(m) * splat.mean.z.rate(m));
    assert(said(3) == row[3].value(m) * splat.quat_unorm.w.rate(m));
    assert(said(4) == row[4].value(m) * splat.quat_unorm.x.rate(m));
    assert(said(5) == row[5].value(m) * splat.quat_unorm.y.rate(m));
    assert(said(6) == row[6].value(m) * splat.quat_unorm.z.rate(m));
    assert(said(7) == row[7].value(m) * growth.x);
    assert(said(8) == row[8].value(m) * growth.y);
    assert(said(9) == row[9].value(m) * growth.z);
}

/// A visible splat for which the rasterizer left nothing gets no gradient.
pub proof fn lemma_buffer_is_silent(
    out: SplatGrads,
    inputs: BackwardInputs,
    u: ProjectUniforms,
    use_ut: bool,
    camera_model: CameraModel<Scalar>,
    visible: VisibleSplat,
    c: int,
    m: Model,
)
    requires
        written(out, &inputs, &u, use_ut, &camera_model, visible, c),
        forall|k: int| 0 <= k < 10 ==> (#[trigger] left_for(&inputs, c, k)).value(m) == 0real,
    ensures
        forall|j: int|
            0 <= j < 10 ==> (#[trigger] gradient(out, &inputs, c, j)).value(m) == 0real,
        ({
            let gid = inputs.global_from_compact_gid@[c] as int;
            let n = visible.helpers.v_coeffs@.len();
            &&& forall|j: int|
                0 <= j < n ==> (#[trigger] out.v_coeffs@[gid * n + j]).value(m) == 0real
            &&& out.v_raw_opac@[gid].value(m) == 0real
            &&& out.v_refine_weight@[gid].value(m) == 0real
        }),
{
    broadcast use group_value;

    lemma_any_grad(&inputs, c, m);
    assert(pow10(0) == 1real);
    assert forall|j: int| 0 <= j < 10 implies (#[trigger] gradient(out, &inputs, c, j)).value(m)
        == 0real by {
        assert(out.v_transforms@[10 * gid_of(&inputs, c) + j] == transform_cell(
            &inputs,
            &u,
            use_ut,
            &camera_model,
            visible,
            c,
            j,
        ));
    }
    let gid = inputs.global_from_compact_gid@[c] as int;
    let n = visible.helpers.v_coeffs@.len();
    assert forall|j: int| 0 <= j < n implies (#[trigger] out.v_coeffs@[gid * n + j]).value(m)
        == 0real by {
        assert(out.v_coeffs@[gid_of(&inputs, c) * n + j] == coeff_cell(&inputs, visible, c, j));
    }
}

/// The gradient of the opacity comes from the ninth number that the rasterizer left, the
/// refinement weight is the tenth, neither negative nor beyond all measure, and the
/// gradients of the coefficients are what the helpers of the colour answered.
pub proof fn lemma_buffer_opacity(
    out: SplatGrads,
    inputs: BackwardInputs,
    u: ProjectUniforms,
    use_ut: bool,
    camera_model: CameraModel<Scalar>,
    visible: VisibleSplat,
    c: int,
    m: Model,
)
    requires
        m.sound(),
        written(out, &inputs, &u, use_ut, &camera_model, visible, c),
    ensures
        ({
            let gid = inputs.global_from_compact_gid@[c] as int;
            let n = visible.helpers.v_coeffs@.len();
            let raw = inputs.raw_opac@[gid];
            let comp = visible.helpers.filter_comp.value(m);
            let weight = left_for(&inputs, c, 9).value(m);
            &&& out.v_raw_opac@[gid].value(m) * raw.rate(m) == (comp * left_for(
                &inputs,
                c,
                8,
            ).value(m)) * sigmoid(&raw).rate(m)
            &&& weight <= 0real ==> out.v_refine_weight@[gid].value(m) == 0real
            &&& 0real <= weight <= pow10(32) ==> out.v_refine_weight@[gid].value(m) == weight
            &&& weight > pow10(32) ==> out.v_refine_weight@[gid].value(m) == pow10(32)
            &&& contributed(&inputs, c, m) ==> forall|j: int|
                0 <= j < n ==> (#[trigger] out.v_coeffs@[gid * n + j]).value(m)
                    == visible.helpers.v_coeffs@[j].value(m)
        }),
{
    broadcast use group_value;

    lemma_any_grad(&inputs, c, m);
    assert(pow10(0) == 1real);
    let gid = inputs.global_from_compact_gid@[c] as int;
    let n = visible.helpers.v_coeffs@.len();
    let raw = inputs.raw_opac@[gid];
    let comp = visible.helpers.filter_comp;
    let alpha = left_for(&inputs, c, 8);
    lemma_raw_opacity_vjp(raw, comp, alpha, m);
    if !contributed(&inputs, c, m) {
        assert(left_for(&inputs, c, 8).value(m) == 0real);
        assert(left_for(&inputs, c, 9).value(m) == 0real);
        let (k, d) = (comp.value(m), sigmoid(&raw).rate(m));
        assert((k * 0real) * d == 0real) by (nonlinear_arith);
        assert(0real * raw.rate(m) == 0real) by (nonlinear_arith);
    }
    assert forall|j: int|
        contributed(&inputs, c, m) && 0 <= j < n implies (#[trigger] out.v_coeffs@[gid * n
        + j]).value(m) == visible.helpers.v_coeffs@[j].value(m) by {
        assert(out.v_coeffs@[gid_of(&inputs, c) * n + j] == coeff_cell(&inputs, visible, c, j));
    }
    assert(0real < pow10(32)) by {
        reveal_with_fuel(pow10, 34);
    }
    assert(1real * pow10(32) == pow10(32));
}

/// The direction in which the camera sees a splat, times how far away the splat is, leads
/// from the camera to the splat.
pub proof fn lemma_view_direction(mean: Vec3A, camera_pos: Vec3A, len: real, m: Model)
    requires
        m.sound(),
        len > 0real,
        ({
            let dx = mean.x.value(m) - camera_pos.x.value(m);
            let dy = mean.y.value(m) - camera_pos.y.value(m);
            let dz = mean.z.value(m) - camera_pos.z.value(m);
            len * len == dx * dx + dy * dy + dz * dz
        }),
    ensures
        ({
            let view = view_direction(&mean, &camera_pos);
            &&& view.0.x.value(m) * len == mean.x.value(m) - camera_pos.x.value(m)
            &&& view.0.y.value(m) * len == mean.y.value(m) - camera_pos.y.value(m)
            &&& view.0.z.value(m) * len == mean.z.value(m) - camera_pos.z.value(m)
            &&& view.1.value(m) == len
        }),
{
    broadcast use group_value;

    let dx = mean.x.value(m) - camera_pos.x.value(m);
    let dy = mean.y.value(m) - camera_pos.y.value(m);
    let dz = mean.z.value(m) - camera_pos.z.value(m);
    let sq = dx * dx + dy * dy + dz * dz;
    assert(dx * dx >= 0real) by (nonlinear_arith);
    assert(dy * dy >= 0real) by (nonlinear_arith);
    assert(dz * dz >= 0real) by (nonlinear_arith);
    same_root((m.sqrt)(sq), len, sq);
    let i = 1real / len;
    reciprocal(len);
    let view = view_direction(&mean, &camera_pos);
    assert(view.1.value(m) == len);
    assert(view.0.x.value(m) == dx * i && view.0.y.value(m) == dy * i && view.0.z.value(m) == dz
        * i);
    assert((dx * i) * len == dx) by (nonlinear_arith)
        requires
            len * i == 1real,
    ;
    assert((dy * i) * len == dy) by (nonlinear_arith)
        requires
            len * i == 1real,
    ;
    assert((dz * i) * len == dz) by (nonlinear_arith)
        requires
            len * i == 1real,
    ;
}

/// A splat that is not visible gets no gradient.
pub proof fn lemma_untouched_is_zero(out: SplatGrads, n: int, g: int, m: Model)
    requires
        untouched(out, n, g),
    ensures
        forall|j: int|
            0 <= j < 10 ==> (#[trigger] out.v_transforms@[10 * g + j]).value(m) == 0real,
        forall|j: int| 0 <= j < n ==> (#[trigger] out.v_coeffs@[g * n + j]).value(m) == 0real,
        out.v_raw_opac@[g].value(m) == 0real,
        out.v_refine_weight@[g].value(m) == 0real,
{
    assert(whole(0).value(m) == 0real);
}

} // verus!
