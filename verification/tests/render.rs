use brush::camera_model::{CameraModel, KannalaBrandt4Params, PinholeParams, ProjectUniforms};
use brush::cube::{Mat2x3, Mat3, Quat, Sym2, Vec2, Vec3A};
use brush::expr::{Expr, Scalar};
use brush::kernels::project_backwards::{
    BackwardInputs, PerspectiveResults, SplatGrads, SplatHelpers, SplatTransform,
};
use brush::kernels::ut_vjp::{wide_clamp, SigmaImages, SigmaJacobians};
use brush::render_bwd::{
    gradient_shapes, project_bwd, projection_flags, rasterize_launch, register_gradients, sh_coeffs_for_degree,
    AtomicAdd, BackwardParents, RasterPass, SplatRenderMode, VisibleSplat,
};

fn n(x: i64) -> Scalar {
    Scalar::num(x)
}

fn v3(x: i64, y: i64, z: i64) -> Vec3A {
    Vec3A::new(n(x), n(y), n(z))
}

fn is_zero(x: &Scalar) -> bool {
    matches!(&*x.node, Expr::Lit { mantissa: 0, exponent: 0 })
}

#[test]
fn passes_know_what_they_need() {
    assert!(!RasterPass::Forward.bwd_info());
    assert!(RasterPass::Backward.bwd_info());
    assert!(RasterPass::BackwardSmoothCutoff.bwd_info());
    assert!(!RasterPass::Backward.smooth_cutoff());
    assert!(RasterPass::BackwardSmoothCutoff.smooth_cutoff());
}

#[test]
fn tiles_cover_the_image() {
    let l = rasterize_launch(640, 481, 16, 7, true, RasterPass::Backward);
    assert_eq!((l.tiles_x, l.tiles_y, l.rows), (40, 31, 7));
    assert_eq!(l.atomic_add, AtomicAdd::Hardware);
    assert!(!l.smooth_cutoff);
    let l = rasterize_launch(u32::MAX, 0, 16, 0, false, RasterPass::BackwardSmoothCutoff);
    assert_eq!((l.tiles_x, l.tiles_y, l.rows), (1 << 28, 0, 1));
    assert_eq!(l.atomic_add, AtomicAdd::CompareAndSwap);
    assert!(l.smooth_cutoff);
}

#[test]
fn coefficients_and_flags() {
    let counts: Vec<u32> = (0..5).map(sh_coeffs_for_degree).collect();
    assert_eq!(counts, [1, 4, 9, 16, 25]);
    assert_eq!(projection_flags(SplatRenderMode::Default), (false, false));
    assert_eq!(projection_flags(SplatRenderMode::Mip), (true, false));
    assert_eq!(projection_flags(SplatRenderMode::Ut), (false, true));
}

fn zero2x3() -> Mat2x3 {
    let z = || Vec2::new(n(0), n(0));
    Mat2x3 { c0: z(), c1: z(), c2: z() }
}

fn visible() -> VisibleSplat {
    let i = || (n(0), n(0));
    VisibleSplat {
        splat: SplatTransform {
            mean: v3(0, 0, 0),
            mean_c: v3(1, 2, 4),
            scale: v3(1, 1, 1),
            quat_unorm: Quat::new(n(1), n(0), n(0), n(0)),
        },
        helpers: SplatHelpers {
            cov: Sym2 { c00: n(1), c01: n(0), c11: n(1) },
            filter_comp: n(1),
            v_view_direction: v3(0, 0, 0),
            v_coeffs: vec![n(5), n(6), n(7)],
        },
        perspective: PerspectiveResults {
            jacobian: zero2x3(),
            v_mean_c: v3(0, 0, 0),
            sigma: (
                SigmaImages { u0: i(), u1: i(), u2: i(), u3: i(), u4: i(), u5: i(), u6: i() },
                SigmaJacobians {
                    j0: zero2x3(),
                    j1: zero2x3(),
                    j2: zero2x3(),
                    j3: zero2x3(),
                    j4: zero2x3(),
                    j5: zero2x3(),
                    j6: zero2x3(),
                },
            ),
        },
    }
}

fn uniforms(num_visible: u32) -> ProjectUniforms {
    ProjectUniforms {
        camera_pos: v3(0, 0, -9),
        view_rotation: Mat3::from_cols(&v3(1, 0, 0), &v3(0, 1, 0), &v3(0, 0, 1)),
        pinhole_params: PinholeParams { fx: n(1), fy: n(1), cx: n(0), cy: n(0) },
        jacobian_clamp_limits: wide_clamp(),
        half_max_render_fov: n(2),
        img_w: n(10),
        img_h: n(10),
        total_splats: 3,
        num_visible,
    }
}

fn run(gids: Vec<u32>) -> SplatGrads {
    let count = gids.len();
    let inputs = BackwardInputs {
        transforms: (0..30).map(n).collect(),
        raw_opac: vec![n(0), n(0), n(0)],
        global_from_compact_gid: gids,
        v_rasterize_grads: (0..10 * count as i64).map(n).collect(),
    };
    project_bwd(
        &inputs,
        &uniforms(count as u32),
        SplatRenderMode::Default,
        &CameraModel::KannalaBrandt4(KannalaBrandt4Params { k1: n(0), k2: n(0), k3: n(0), k4: n(0) }),
        3,
        &(0..count).map(|_| visible()).collect(),
    )
}

#[test]
fn gradients_of_what_is_not_visible_are_zero() {
    let g = run(vec![2, 0]);
    assert_eq!((g.v_transforms.len(), g.v_coeffs.len()), (30, 9));
    assert_eq!((g.v_raw_opac.len(), g.v_refine_weight.len()), (3, 3));
    assert!(g.v_transforms[10..20].iter().all(is_zero));
    assert!(g.v_coeffs[3..6].iter().all(is_zero));
    assert!(is_zero(&g.v_raw_opac[1]) && is_zero(&g.v_refine_weight[1]));
    for i in [0, 9, 20, 29] {
        assert!(!is_zero(&g.v_transforms[i]));
    }
    assert!(g.v_transforms[0..10].iter().all(|x| matches!(&*x.node, Expr::Select(_, _, _))));
    assert!(!is_zero(&g.v_coeffs[0]) && !is_zero(&g.v_coeffs[8]));
}

#[test]
fn nothing_visible_leaves_zeros() {
    let g = run(Vec::new());
    assert!(g.v_transforms.iter().chain(&g.v_coeffs).all(is_zero));
}

#[test]
fn gradients_are_registered_in_order() {
    let grads = || SplatGrads {
        v_transforms: vec![n(1)],
        v_coeffs: vec![n(2)],
        v_raw_opac: vec![n(3)],
        v_refine_weight: vec![n(4)],
    };
    let r = register_gradients(
        BackwardParents {
            transforms: Some(11),
            refine_weight: Some(12),
            coeffs: Some(13),
            raw_opacity: Some(14),
        },
        grads(),
    );
    let nodes: Vec<u64> = r.iter().map(|x| x.node).collect();
    assert_eq!(nodes, [11, 12, 13, 14]);
    assert!(matches!(&*r[1].grad[0].node, Expr::Lit { mantissa: 4, exponent: 0 }));
    assert!(matches!(&*r[3].grad[0].node, Expr::Lit { mantissa: 3, exponent: 0 }));
    let r = register_gradients(
        BackwardParents { transforms: None, refine_weight: None, coeffs: Some(13), raw_opacity: None },
        grads(),
    );
    assert_eq!(r.len(), 1);
}

#[test]
fn shapes_of_the_gradients() {
    let s = gradient_shapes(7, 2);
    assert_eq!((s.transforms, s.coeffs), ((7, 10), (7, 9, 3)));
    assert_eq!((s.raw_opac, s.refine_weight), (7, 7));
}
