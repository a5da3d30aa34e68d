use brush::camera_model::kannala_brandt_4::{
    calculate_project_jacobian_kb4, calculate_projection_vjp_kb4, project_kb4,
};
use brush::camera_model::thin_prism_fisheye::{
    calculate_project_jacobian_tpf, calculate_projection_vjp_tpf, project_tpf,
};
use brush::camera_model::{
    calculate_project_jacobian, calculate_projection_vjp, project, CameraModel,
    JacobianClampLimits, KannalaBrandt4Params, PinholeParams, ProjectUniforms,
    RadialTangential8Params, ThinPrismFisheyeParams,
};
use brush::cube::{
    ut_weight_cov_center, ut_weight_outer, Mat2x3, Mat3, Quat, Sym2, Sym3, Vec2, Vec3A,
};
use brush::expr::{Cond, Expr, Scalar, Test};
use brush::kernels::project_backwards::{
    any_grad, apply_normalize_vjp, camera_covariance, clean_refine_weight, conic_vjp,
    inverse2x2_vjp, project_backwards_kernel, project_splat_vjp, quat_to_mat_vjp, raw_opacity_vjp,
    sh_request, view_direction, view_direction_vjp, BackwardInputs, PerspectiveResults, SplatGrads,
    SplatHelpers, SplatRasterGrads, SplatTransform,
};
use brush::kernels::project_forward::{
    coverage_guard, frustum_guard, is_visible, power_threshold, project_forward,
    project_forward_kernel, projected_mean, screen_guard, screen_radius, splat_opacity,
    visibility_tests, Candidate, ForwardBuffers, ForwardHelpers, ForwardSplat,
};
use brush::kernels::ut_vjp::{
    project_sigma_points, sigma_mean, sigma_points, square_root_matrix, wide_clamp, SigmaImages,
    SigmaJacobians,
};
use std::collections::HashMap;
use std::rc::Rc;

/// Computes traced numbers in double precision.
struct Eval {
    inputs: Vec<f64>,
    seen: HashMap<String, f64>,
}

impl Eval {
    fn new(inputs: &[f64]) -> Eval {
        Eval { inputs: inputs.to_vec(), seen: HashMap::new() }
    }

    fn num(&mut self, x: &Scalar) -> f64 {
        self.seen.clear();
        self.expr(&x.node)
    }

    fn test(&mut self, t: &Test) -> bool {
        self.seen.clear();
        self.cond(&t.node)
    }

    fn expr(&mut self, e: &Rc<Expr>) -> f64 {
        let key = format!("{:p}", &**e);
        if let Some(v) = self.seen.get(&key) {
            return *v;
        }
        let v = match &**e {
            Expr::Lit { mantissa, exponent } => {
                format!("{mantissa}e{exponent}").parse::<f64>().unwrap()
            }
            Expr::Input(i) => self.inputs[*i as usize],
            Expr::Float(bits) => f32::from_bits(*bits) as f64,
            Expr::Narrow(bits) => f64::from_bits(*bits) as f32 as f64,
            Expr::Wide(bits) => f64::from_bits(*bits),
            Expr::Neg(a) => -self.expr(a),
            Expr::Sqrt(a) => self.expr(a).sqrt(),
            Expr::Exp(a) => self.expr(a).exp(),
            Expr::Ln(a) => self.expr(a).ln(),
            Expr::Abs(a) => self.expr(a).abs(),
            Expr::Round(a) => self.expr(a).round(),
            Expr::Add(a, b) => self.expr(a) + self.expr(b),
            Expr::Sub(a, b) => self.expr(a) - self.expr(b),
            Expr::Mul(a, b) => self.expr(a) * self.expr(b),
            Expr::Div(a, b) => self.expr(a) / self.expr(b),
            Expr::Min(a, b) => self.expr(a).min(self.expr(b)),
            Expr::Max(a, b) => self.expr(a).max(self.expr(b)),
            Expr::Pow(a, b) => self.expr(a).powf(self.expr(b)),
            Expr::Atan2(a, b) => self.expr(a).atan2(self.expr(b)),
            Expr::Clamp(x, lo, hi) => {
                let (x, lo, hi) = (self.expr(x), self.expr(lo), self.expr(hi));
                if x < lo {
                    lo
                } else if x > hi {
                    hi
                } else {
                    x
                }
            }
            Expr::Select(c, a, b) => {
                if self.cond(c) {
                    self.expr(a)
                } else {
                    self.expr(b)
                }
            }
        };
        self.seen.insert(key, v);
        v
    }

    fn cond(&mut self, c: &Rc<Cond>) -> bool {
        match &**c {
            Cond::Lt(a, b) => self.expr(a) < self.expr(b),
            Cond::Le(a, b) => self.expr(a) <= self.expr(b),
            Cond::Gt(a, b) => self.expr(a) > self.expr(b),
            Cond::Ge(a, b) => self.expr(a) >= self.expr(b),
            Cond::Ne(a, b) => self.expr(a) != self.expr(b),
            Cond::Finite(a) => self.expr(a).is_finite(),
            Cond::Not(a) => !self.cond(a),
            Cond::And(a, b) => self.cond(a) && self.cond(b),
            Cond::Or(a, b) => self.cond(a) || self.cond(b),
        }
    }
}

fn close(a: f64, b: f64, tolerance: f64) {
    assert!((a - b).abs() <= tolerance * (1.0 + b.abs()), "{a} is not {b}");
}

const STEP: f64 = 1e-5;

/// The central difference of `f` at `at` in each of the first `count` inputs.
fn differences(f: &Scalar, at: &[f64], count: usize) -> Vec<f64> {
    (0..count)
        .map(|i| {
            let mut up = at.to_vec();
            let mut down = at.to_vec();
            up[i] += STEP;
            down[i] -= STEP;
            (Eval::new(&up).num(f) - Eval::new(&down).num(f)) / (2.0 * STEP)
        })
        .collect()
}

fn n(x: i64) -> Scalar {
    Scalar::num(x)
}

fn f(x: f64) -> Scalar {
    Scalar::lit((x * 1e9).round() as i64, -9)
}

fn v2(x: f64, y: f64) -> Vec2 {
    Vec2::new(f(x), f(y))
}

fn v3(x: f64, y: f64, z: f64) -> Vec3A {
    Vec3A::new(f(x), f(y), f(z))
}

fn input3(first: u32) -> Vec3A {
    Vec3A::new(Scalar::input(first), Scalar::input(first + 1), Scalar::input(first + 2))
}

fn zero2x3() -> Mat2x3 {
    Mat2x3 { c0: v2(0.0, 0.0), c1: v2(0.0, 0.0), c2: v2(0.0, 0.0) }
}

fn pinhole() -> PinholeParams {
    PinholeParams { fx: f(500.0), fy: f(480.0), cx: f(320.0), cy: f(240.0) }
}

fn kb4() -> KannalaBrandt4Params<Scalar> {
    KannalaBrandt4Params { k1: f(0.05), k2: f(-0.02), k3: f(0.004), k4: f(-0.001) }
}

fn tpf() -> ThinPrismFisheyeParams<Scalar> {
    ThinPrismFisheyeParams { kb4: kb4(), p1: f(0.01), p2: f(-0.02), sx1: f(0.003), sy1: f(0.005) }
}

fn view() -> Mat3 {
    Quat::new(f(0.8), f(0.2), f(-0.4), f(0.4)).normalize().to_mat3()
}

fn uniforms() -> ProjectUniforms {
    ProjectUniforms {
        camera_pos: v3(0.5, -0.25, -3.0),
        view_rotation: view(),
        pinhole_params: pinhole(),
        jacobian_clamp_limits: wide_clamp(),
        half_max_render_fov: f(1.5),
        img_w: f(640.0),
        img_h: f(480.0),
        total_splats: 10,
        num_visible: 3,
    }
}

fn perspective() -> PerspectiveResults {
    let image = || (n(0), n(0));
    PerspectiveResults {
        jacobian: zero2x3(),
        v_mean_c: v3(0.0, 0.0, 0.0),
        sigma: (
            SigmaImages {
                u0: image(),
                u1: image(),
                u2: image(),
                u3: image(),
                u4: image(),
                u5: image(),
                u6: image(),
            },
            SigmaJacobians {
                j0: zero2x3(),
                j1: zero2x3(),
                j2: zero2x3(),
                j3: zero2x3(),
                j4: zero2x3(),
                j5: zero2x3(),
                j6: zero2x3(),
            },
        ),
    }
}

fn cov() -> Sym3 {
    Sym3 { c00: f(0.04), c01: f(0.01), c02: f(-0.02), c11: f(0.09), c12: f(0.005), c22: f(0.05) }
}

/// `V . (J C J^T)`, the entry off the diagonal counted twice.
fn pair_cov(v: &Sym2, cov2d: &Sym2) -> Scalar {
    &v.c00 * &cov2d.c00 + n(2) * (&v.c01 * &cov2d.c01) + &v.c11 * &cov2d.c11
}

fn projected_cov(j: &Mat2x3, c: &Sym3) -> Sym2 {
    let (r0, r1) = (j.row0(), j.row1());
    Sym2 {
        c00: r0.dot(&c.mul_vec3(&r0)),
        c01: r0.dot(&c.mul_vec3(&r1)),
        c11: r1.dot(&c.mul_vec3(&r1)),
    }
}

const POINT: [f64; 3] = [0.4, -0.7, 1.8];

#[test]
fn kb4_images_by_its_polynomial() {
    let p = v3(POINT[0], POINT[1], POINT[2]);
    let (u, v) = project_kb4(&p, &pinhole(), &f(1.5), &kb4());
    let r = (POINT[0] * POINT[0] + POINT[1] * POINT[1]).sqrt();
    let t = r.atan2(POINT[2]);
    let d = t * (1.0 + 0.05 * t.powi(2) - 0.02 * t.powi(4) + 0.004 * t.powi(6) - 0.001 * t.powi(8));
    let mut e = Eval::new(&[]);
    close(e.num(&u), 500.0 * d * POINT[0] / r + 320.0, 1e-13);
    close(e.num(&v), 480.0 * d * POINT[1] / r + 240.0, 1e-13);
}

#[test]
fn kb4_limits_the_angle() {
    let p = v3(1.0, 0.0, 0.0);
    let (u, _) = project_kb4(&p, &pinhole(), &f(0.5), &kb4());
    let t: f64 = 0.5;
    let d = t * (1.0 + 0.05 * t.powi(2) - 0.02 * t.powi(4) + 0.004 * t.powi(6) - 0.001 * t.powi(8));
    close(Eval::new(&[]).num(&u), 500.0 * d + 320.0, 1e-13);
}

#[test]
fn kb4_is_a_pinhole_on_the_axis() {
    let p = v3(0.0, 0.0, 2.0);
    let (u, v) = project_kb4(&p, &pinhole(), &f(1.5), &kb4());
    let mut e = Eval::new(&[]);
    assert_eq!([e.num(&u), e.num(&v)], [320.0, 240.0]);
    let j = calculate_project_jacobian_kb4(&p, &pinhole(), &f(1.5), &kb4());
    assert_eq!([e.num(&j.c0.x), e.num(&j.c1.x), e.num(&j.c2.x)], [250.0, 0.0, 0.0]);
    assert_eq!([e.num(&j.c0.y), e.num(&j.c1.y), e.num(&j.c2.y)], [0.0, 240.0, 0.0]);
}

fn check_jacobian(image: &(Scalar, Scalar), j: &Mat2x3) {
    let mut e = Eval::new(&POINT);
    let du = differences(&image.0, &POINT, 3);
    let dv = differences(&image.1, &POINT, 3);
    close(e.num(&j.c0.x), du[0], 1e-7);
    close(e.num(&j.c1.x), du[1], 1e-7);
    close(e.num(&j.c2.x), du[2], 1e-7);
    close(e.num(&j.c0.y), dv[0], 1e-7);
    close(e.num(&j.c1.y), dv[1], 1e-7);
    close(e.num(&j.c2.y), dv[2], 1e-7);
}

#[test]
fn kb4_jacobian_is_the_derivative() {
    let p = input3(0);
    let image = project_kb4(&p, &pinhole(), &f(1.5), &kb4());
    check_jacobian(&image, &calculate_project_jacobian_kb4(&p, &pinhole(), &f(1.5), &kb4()));
}

#[test]
fn tpf_jacobian_is_the_derivative() {
    let p = input3(0);
    let image = project_tpf(&p, &pinhole(), &f(1.5), &tpf());
    check_jacobian(&image, &calculate_project_jacobian_tpf(&p, &pinhole(), &f(1.5), &tpf()));
}

#[test]
fn tpf_moves_the_image_by_its_two_terms() {
    let p = v3(POINT[0], POINT[1], POINT[2]);
    let mut e = Eval::new(&[]);
    let a = project_kb4(&p, &pinhole(), &f(1.5), &kb4());
    let b = project_tpf(&p, &pinhole(), &f(1.5), &tpf());
    let (u, v) = (POINT[0] / POINT[2], POINT[1] / POINT[2]);
    let r2 = u * u + v * v;
    let du = 2.0 * 0.01 * u * v - 0.02 * (r2 + 2.0 * u * u) + 0.003 * r2;
    let dv = 2.0 * -0.02 * u * v + 0.01 * (r2 + 2.0 * v * v) + 0.005 * r2;
    close(e.num(&b.0) - e.num(&a.0), 500.0 * du, 1e-10);
    close(e.num(&b.1) - e.num(&a.1), 480.0 * dv, 1e-10);
}

fn check_gradient(grad: &Vec3A, loss: &Scalar, at: &[f64]) {
    let mut e = Eval::new(at);
    let d = differences(loss, at, 3);
    close(e.num(&grad.x), d[0], 1e-6);
    close(e.num(&grad.y), d[1], 1e-6);
    close(e.num(&grad.z), d[2], 1e-6);
}

#[test]
fn kb4_vjp_is_the_gradient() {
    let p = input3(0);
    let u = uniforms();
    let (v_cov, v_mean) =
        (Sym2 { c00: f(0.3), c01: f(-0.2), c11: f(0.5) }, v2(0.7, -1.1));
    let j = calculate_project_jacobian_kb4(&p, &pinhole(), &u.half_max_render_fov, &kb4());
    let image = project_kb4(&p, &pinhole(), &u.half_max_render_fov, &kb4());
    let loss = &v_mean.x * &image.0
        + &v_mean.y * &image.1
        + pair_cov(&v_cov, &projected_cov(&j, &cov()));
    let g = calculate_projection_vjp_kb4(&j, &p, &cov(), &u, &v_cov, &v_mean, &kb4());
    check_gradient(&g, &loss, &POINT);
}

#[test]
fn tpf_vjp_is_the_gradient() {
    let p = input3(0);
    let u = uniforms();
    let (v_cov, v_mean) =
        (Sym2 { c00: f(0.3), c01: f(-0.2), c11: f(0.5) }, v2(0.7, -1.1));
    let j = calculate_project_jacobian_tpf(&p, &pinhole(), &u.half_max_render_fov, &tpf());
    let image = project_tpf(&p, &pinhole(), &u.half_max_render_fov, &tpf());
    let loss = &v_mean.x * &image.0
        + &v_mean.y * &image.1
        + pair_cov(&v_cov, &projected_cov(&j, &cov()));
    let g = calculate_projection_vjp_tpf(&j, &p, &cov(), &u, &v_cov, &v_mean, &tpf());
    check_gradient(&g, &loss, &POINT);
}

fn entries(j: &Mat2x3) -> [f64; 6] {
    [&j.c0.x, &j.c0.y, &j.c1.x, &j.c1.y, &j.c2.x, &j.c2.y].map(|x| Eval::new(&[]).num(x))
}

/// The matrix times the point.
fn applied(j: &Mat2x3, p: [f64; 3]) -> [f64; 2] {
    let e = entries(j);
    [e[0] * p[0] + e[2] * p[1] + e[4] * p[2], e[1] * p[0] + e[3] * p[1] + e[5] * p[2]]
}

#[test]
fn fisheye_images_stay_along_the_ray() {
    let points = [POINT, [0.4, -0.7, -0.3], [0.0, 0.0, 2.0], [3e-7, -4e-7, 2.0], [3.0, 1.0, 0.1]];
    for [x, y, z] in points {
        for max in [1.5, 0.2] {
            let p = v3(x, y, z);
            let k = calculate_project_jacobian_kb4(&p, &pinhole(), &f(max), &kb4());
            let t = calculate_project_jacobian_tpf(&p, &pinhole(), &f(max), &tpf());
            for j in [k, t] {
                let [u, v] = applied(&j, [x, y, z]);
                close(u, 0.0, 1e-9);
                close(v, 0.0, 1e-9);
            }
        }
    }
}

#[test]
fn fisheye_jacobians_shrink_with_distance() {
    for [x, y, z] in [POINT, [0.4, -0.7, -0.3], [0.0, 0.0, 2.0]] {
        for s in [0.5, 2.0, 3.0] {
            let near = v3(x, y, z);
            let far = v3(s * x, s * y, s * z);
            let pairs = [
                (
                    calculate_project_jacobian_kb4(&near, &pinhole(), &f(1.5), &kb4()),
                    calculate_project_jacobian_kb4(&far, &pinhole(), &f(1.5), &kb4()),
                ),
                (
                    calculate_project_jacobian_tpf(&near, &pinhole(), &f(1.5), &tpf()),
                    calculate_project_jacobian_tpf(&far, &pinhole(), &f(1.5), &tpf()),
                ),
            ];
            for (a, b) in pairs {
                for (a, b) in entries(&a).iter().zip(entries(&b)) {
                    close(b, a / s, 1e-9);
                }
            }
        }
    }
}

fn dot3(v: &Vec3A, p: [f64; 3]) -> f64 {
    let mut e = Eval::new(&[]);
    e.num(&v.x) * p[0] + e.num(&v.y) * p[1] + e.num(&v.z) * p[2]
}

#[test]
fn fisheye_gradients_along_the_ray() {
    let u = uniforms();
    let p = v3(POINT[0], POINT[1], POINT[2]);
    let v_cov = Sym2 { c00: f(0.3), c01: f(-0.2), c11: f(0.5) };
    let k = calculate_project_jacobian_kb4(&p, &pinhole(), &u.half_max_render_fov, &kb4());
    let t = calculate_project_jacobian_tpf(&p, &pinhole(), &u.half_max_render_fov, &tpf());
    let of = |j: &Mat2x3| -2.0 * Eval::new(&[]).num(&pair_cov(&v_cov, &projected_cov(j, &cov())));
    // The gradient of the image makes no difference.
    for v_mean in [v2(0.7, -1.1), v2(0.0, 0.0), v2(-3.0, 5.0)] {
        let g = calculate_projection_vjp_kb4(&k, &p, &cov(), &u, &v_cov, &v_mean, &kb4());
        close(dot3(&g, POINT), of(&k), 1e-9);
        let g = calculate_projection_vjp_tpf(&t, &p, &cov(), &u, &v_cov, &v_mean, &tpf());
        close(dot3(&g, POINT), of(&t), 1e-9);
    }
}

#[test]
fn fisheye_gradients_of_the_image_alone() {
    let u = uniforms();
    let none = Sym2 { c00: f(0.0), c01: f(0.0), c11: f(0.0) };
    let p = v3(POINT[0], POINT[1], POINT[2]);
    let v_mean = v2(0.7, -1.1);
    let k = calculate_project_jacobian_kb4(&p, &pinhole(), &u.half_max_render_fov, &kb4());
    let t = calculate_project_jacobian_tpf(&p, &pinhole(), &u.half_max_render_fov, &tpf());
    let through_k = calculate_projection_vjp_kb4(&k, &p, &cov(), &u, &none, &v_mean, &kb4());
    let through_t = calculate_projection_vjp_tpf(&t, &p, &cov(), &u, &none, &v_mean, &tpf());
    for (j, g) in [(k, through_k), (t, through_t)] {
        let e = entries(&j);
        close(dot3(&g, [1.0, 0.0, 0.0]), 0.7 * e[0] - 1.1 * e[1], 1e-12);
        close(dot3(&g, [0.0, 1.0, 0.0]), 0.7 * e[2] - 1.1 * e[3], 1e-12);
        close(dot3(&g, [0.0, 0.0, 1.0]), 0.7 * e[4] - 1.1 * e[5], 1e-12);
    }
}

#[test]
fn without_prism_terms_the_models_agree() {
    let u = uniforms();
    let bare =
        ThinPrismFisheyeParams { kb4: kb4(), p1: f(0.0), p2: f(0.0), sx1: f(0.0), sy1: f(0.0) };
    let p = v3(POINT[0], POINT[1], POINT[2]);
    let (v_cov, v_mean) = (Sym2 { c00: f(0.3), c01: f(-0.2), c11: f(0.5) }, v2(0.7, -1.1));
    let k = calculate_project_jacobian_kb4(&p, &pinhole(), &u.half_max_render_fov, &kb4());
    let t = calculate_project_jacobian_tpf(&p, &pinhole(), &u.half_max_render_fov, &bare);
    assert_eq!(entries(&k), entries(&t));
    let a = calculate_projection_vjp_kb4(&k, &p, &cov(), &u, &v_cov, &v_mean, &kb4());
    let b = calculate_projection_vjp_tpf(&k, &p, &cov(), &u, &v_cov, &v_mean, &bare);
    for axis in [[1.0, 0.0, 0.0], [0.0, 1.0, 0.0], [0.0, 0.0, 1.0]] {
        assert_eq!(dot3(&a, axis), dot3(&b, axis));
    }
}

#[test]
fn perspective_models_take_what_they_are_given() {
    let p = v3(1.0, 2.0, 4.0);
    let given = (f(7.0), f(8.0));
    let j = Mat2x3 { c0: v2(1.0, 2.0), c1: v2(3.0, 4.0), c2: v2(5.0, 6.0) };
    let rt8 = RadialTangential8Params {
        k1: n(0),
        k2: n(0),
        k3: n(0),
        k4: n(0),
        k5: n(0),
        k6: n(0),
        p1: n(0),
        p2: n(0),
    };
    for model in [CameraModel::Pinhole, CameraModel::RadialTangential8(rt8)] {
        let mut e = Eval::new(&[]);
        let (a, b) = project(&p, &pinhole(), &f(1.5), &model, &given);
        assert_eq!([e.num(&a), e.num(&b)], [7.0, 8.0]);
        let k = calculate_project_jacobian(&p, &pinhole(), &f(1.5), &model, &j);
        assert_eq!(e.num(&k.c2.y), 6.0);
        let g = calculate_projection_vjp(
            &j,
            &p,
            &cov(),
            &uniforms(),
            &Sym2 { c00: n(1), c01: n(1), c11: n(1) },
            &v2(1.0, 1.0),
            &model,
            &v3(9.0, 10.0, 11.0),
        );
        assert_eq!([e.num(&g.x), e.num(&g.y), e.num(&g.z)], [9.0, 10.0, 11.0]);
    }
}

#[test]
fn fisheye_models_image_for_themselves() {
    let p = v3(POINT[0], POINT[1], POINT[2]);
    let given = (f(7.0), f(8.0));
    let mut e = Eval::new(&[]);
    let a = project(&p, &pinhole(), &f(1.5), &CameraModel::KannalaBrandt4(kb4()), &given);
    let b = project_kb4(&p, &pinhole(), &f(1.5), &kb4());
    assert_eq!([e.num(&a.0), e.num(&a.1)], [e.num(&b.0), e.num(&b.1)]);
    let a = project(&p, &pinhole(), &f(1.5), &CameraModel::ThinPrismFisheye(tpf()), &given);
    let b = project_tpf(&p, &pinhole(), &f(1.5), &tpf());
    assert_eq!([e.num(&a.0), e.num(&a.1)], [e.num(&b.0), e.num(&b.1)]);
}

#[test]
fn the_default_model_is_a_pinhole() {
    assert_eq!(CameraModel::<u32>::default(), CameraModel::Pinhole);
}

#[test]
fn clamp_limits_in_launch_order() {
    let limits = JacobianClampLimits { lim_pos_x: n(1), lim_pos_y: n(2), lim_neg_x: n(3), lim_neg_y: n(4) };
    let (a, b, c, d) = limits.to_launch_object();
    let mut e = Eval::new(&[]);
    assert_eq!([e.num(&a), e.num(&b), e.num(&c), e.num(&d)], [1.0, 2.0, 3.0, 4.0]);
}

#[test]
fn wide_limits_never_bind() {
    let w = wide_clamp();
    let mut e = Eval::new(&[]);
    assert_eq!([e.num(&w.lim_pos_x), e.num(&w.lim_neg_y)], [1e9, -1e9]);
}

#[test]
fn rotation_vjp_is_the_gradient() {
    let q = Quat::new(Scalar::input(0), Scalar::input(1), Scalar::input(2), Scalar::input(3));
    let at = [0.7, -0.3, 0.5, 0.4];
    let v_r = Mat3::from_cols(&v3(0.1, 0.2, -0.3), &v3(0.4, -0.5, 0.6), &v3(0.7, 0.8, -0.9));
    let r = q.to_mat3();
    let loss = r.col0().dot(&v_r.col0()) + r.col1().dot(&v_r.col1()) + r.col2().dot(&v_r.col2());
    let g = quat_to_mat_vjp(&q, &v_r);
    let d = differences(&loss, &at, 4);
    let mut e = Eval::new(&at);
    close(e.num(&g.w), d[0], 1e-8);
    close(e.num(&g.x), d[1], 1e-8);
    close(e.num(&g.y), d[2], 1e-8);
    close(e.num(&g.z), d[3], 1e-8);
}

#[test]
fn normalize_vjp_is_the_gradient() {
    let q = Quat::new(Scalar::input(0), Scalar::input(1), Scalar::input(2), Scalar::input(3));
    let at = [0.7, -0.3, 0.5, 0.4];
    let v = Quat::new(f(0.3), f(-0.8), f(0.2), f(1.1));
    let g = apply_normalize_vjp(&q, &v);
    let d = differences(&q.normalize().dot(&v), &at, 4);
    let mut e = Eval::new(&at);
    close(e.num(&g.w), d[0], 1e-8);
    close(e.num(&g.x), d[1], 1e-8);
    close(e.num(&g.y), d[2], 1e-8);
    close(e.num(&g.z), d[3], 1e-8);
    // Scaling the quaternion changes nothing.
    close(e.num(&g.dot(&q)), 0.0, 1e-14);
}

#[test]
fn inverse_vjp_sandwiches() {
    let minv = Sym2 { c00: n(2), c01: n(1), c11: n(3) };
    let v = Sym2 { c00: n(1), c01: n(0), c11: n(0) };
    let g = inverse2x2_vjp(&minv, &v);
    let mut e = Eval::new(&[]);
    assert_eq!([e.num(&g.c00), e.num(&g.c01), e.num(&g.c11)], [-4.0, -2.0, -1.0]);
}

#[test]
fn conic_vjp_is_the_gradient() {
    let s = Sym2 { c00: Scalar::input(0), c01: Scalar::input(1), c11: Scalar::input(2) };
    let at = [2.0, 0.5, 3.0];
    let v = v3(0.3, -0.7, 1.1);
    let conic = s.inverse();
    let loss = &v.x * &conic.c00 + &v.y * &conic.c01 + &v.z * &conic.c11;
    let g = conic_vjp(&s, &v);
    let d = differences(&loss, &at, 3);
    let mut e = Eval::new(&at);
    close(e.num(&g.c00), d[0], 1e-8);
    // The slot off the diagonal holds half of what moving both entries does.
    close(2.0 * e.num(&g.c01), d[1], 1e-8);
    close(e.num(&g.c11), d[2], 1e-8);
}

#[test]
fn view_direction_vjp_is_the_gradient() {
    let camera = v3(0.5, -0.25, -3.0);
    let mean = input3(0);
    let v = v3(0.4, -0.9, 0.3);
    let view = view_direction(&mean, &camera);
    let g = view_direction_vjp(&view, &v);
    check_gradient(&g, &view.0.dot(&v), &POINT);
    let mut e = Eval::new(&POINT);
    close(e.num(&view.0.length()), 1.0, 1e-14);
}

#[test]
fn opacity_vjp_is_the_gradient() {
    let raw = Scalar::input(0);
    let at = [0.3];
    let g = raw_opacity_vjp(&raw, &f(0.9), &f(1.7));
    let loss = splat_opacity(&raw, &f(0.9)) * f(1.7);
    close(Eval::new(&at).num(&g), differences(&loss, &at, 1)[0], 1e-8);
}

#[test]
fn refine_weights_are_cleaned() {
    let w = clean_refine_weight(&Scalar::input(0));
    assert_eq!(Eval::new(&[2.5]).num(&w), 2.5);
    assert_eq!(Eval::new(&[-2.5]).num(&w), 0.0);
    assert_eq!(Eval::new(&[f64::NAN]).num(&w), 0.0);
    assert_eq!(Eval::new(&[f64::INFINITY]).num(&w), 0.0);
}

/// The parameters of a splat: position, quaternion, logarithm of the extent.
const SPLAT: [f64; 10] = [0.3, -0.4, 1.2, 0.9, -0.2, 0.3, 0.5, -1.5, -1.9, -1.2];

fn splat() -> SplatTransform {
    let u = uniforms();
    let mean = input3(0);
    SplatTransform {
        mean_c: u.view_rotation.mul_vec3(&mean.sub(&u.camera_pos)),
        mean,
        scale: Vec3A::new(
            Scalar::input(7).exp(),
            Scalar::input(8).exp(),
            Scalar::input(9).exp(),
        ),
        quat_unorm: Quat::new(
            Scalar::input(3),
            Scalar::input(4),
            Scalar::input(5),
            Scalar::input(6),
        ),
    }
}

fn raster_grads() -> SplatRasterGrads {
    SplatRasterGrads {
        mean2d: v2(0.7, -1.1),
        conics: v3(30.0, -20.0, 50.0),
        color: v3(0.1, 0.2, 0.3),
        alpha: f(0.4),
        refine: f(0.5),
    }
}

fn blurred(c: Sym2) -> Sym2 {
    Sym2 { c00: &c.c00 + f(0.3), c01: c.c01, c11: &c.c11 + f(0.3) }
}

fn check_splat_gradient(
    use_ut: bool,
    model: &CameraModel<Scalar>,
    image: &(Scalar, Scalar),
    cov2d: Sym2,
) {
    let (s, g, u) = (splat(), raster_grads(), uniforms());
    let conic = cov2d.inverse();
    let view = view_direction(&s.mean, &u.camera_pos);
    let v_view = v3(0.4, -0.9, 0.3);
    let loss = &g.mean2d.x * &image.0
        + &g.mean2d.y * &image.1
        + &g.conics.x * &conic.c00
        + &g.conics.y * &conic.c01
        + &g.conics.z * &conic.c11
        + view.0.dot(&v_view);
    let helpers = SplatHelpers {
        cov: cov2d,
        filter_comp: n(1),
        v_view_direction: v_view,
        v_coeffs: Vec::new(),
    };
    let r = project_splat_vjp(&s, &g, &u, use_ut, model, &helpers, &perspective());
    let d = differences(&loss, &SPLAT, 10);
    let mut e = Eval::new(&SPLAT);
    for (x, want) in r.to_row().iter().zip(d) {
        close(e.num(x), want, 1e-5);
    }
}

fn affine_cov(model: &CameraModel<Scalar>) -> Sym2 {
    let (s, u) = (splat(), uniforms());
    let m = s.quat_unorm.normalize().to_mat3().mul_diag(&s.scale);
    let j = calculate_project_jacobian(
        &s.mean_c,
        &u.pinhole_params,
        &u.half_max_render_fov,
        model,
        &zero2x3(),
    );
    blurred(projected_cov(&j, &camera_covariance(&m, &u.view_rotation)))
}

fn affine_image(model: &CameraModel<Scalar>) -> (Scalar, Scalar) {
    let (s, u) = (splat(), uniforms());
    project(&s.mean_c, &u.pinhole_params, &u.half_max_render_fov, model, &(n(0), n(0)))
}

#[test]
fn splat_gradients_through_kb4() {
    let model = CameraModel::KannalaBrandt4(kb4());
    let (image, cov2d) = (affine_image(&model), affine_cov(&model));
    check_splat_gradient(false, &model, &image, cov2d);
}

#[test]
fn splat_gradients_through_tpf() {
    let model = CameraModel::ThinPrismFisheye(tpf());
    let (image, cov2d) = (affine_image(&model), affine_cov(&model));
    check_splat_gradient(false, &model, &image, cov2d);
}

/// The mean and covariance of the images of the sigma points.
fn unscented(model: &CameraModel<Scalar>) -> ((Scalar, Scalar), Sym2) {
    let (s, u) = (splat(), uniforms());
    let ns = square_root_matrix(&s.scale, &s.quat_unorm.normalize(), &u.view_rotation);
    let points = sigma_points(&s.mean_c, &ns);
    let images = project_sigma_points(&points, &u, model, &perspective().sigma.0);
    let mean = sigma_mean(&images);
    let i = &images;
    let (center, six) = (ut_weight_cov_center(), ut_weight_outer());
    let mut c = Sym2 { c00: n(0), c01: n(0), c11: n(0) };
    for (w, p) in [
        (&center, &i.u0),
        (&six, &i.u1),
        (&six, &i.u2),
        (&six, &i.u3),
        (&six, &i.u4),
        (&six, &i.u5),
        (&six, &i.u6),
    ] {
        let (dx, dy) = (&p.0 - &mean.x, &p.1 - &mean.y);
        c = Sym2 {
            c00: &c.c00 + w * (&dx * &dx),
            c01: &c.c01 + w * (&dx * &dy),
            c11: &c.c11 + w * (&dy * &dy),
        };
    }
    ((mean.x, mean.y), blurred(c))
}

#[test]
fn splat_gradients_through_sigma_points() {
    for model in [CameraModel::KannalaBrandt4(kb4()), CameraModel::ThinPrismFisheye(tpf())] {
        let (image, cov2d) = unscented(&model);
        check_splat_gradient(true, &model, &image, cov2d);
    }
}

#[test]
fn sigma_points_stand_around_the_mean() {
    let ns = Mat3::from_cols(&v3(1.0, 0.0, 0.0), &v3(0.0, 2.0, 0.0), &v3(0.0, 0.0, 3.0));
    let s = sigma_points(&v3(1.0, 2.0, 3.0), &ns);
    let mut e = Eval::new(&[]);
    assert_eq!(e.num(&s.p0.y), 2.0);
    close(e.num(&s.p2.y), 2.0 + 2.0 * 1.7320508, 1e-15);
    close(e.num(&s.p5.y), 2.0 - 2.0 * 1.7320508, 1e-15);
    close(e.num(&(&s.p3.z + &s.p6.z)), 6.0, 1e-15);
}

fn numbers(xs: &[f64]) -> Vec<Scalar> {
    xs.iter().map(|x| f(*x)).collect()
}

fn backward_inputs(grads: &[f64; 10]) -> BackwardInputs {
    let mut v_rasterize_grads = numbers(&[9.0; 10]);
    v_rasterize_grads.extend(numbers(grads));
    BackwardInputs {
        transforms: (0..30).map(|i| f(0.1 * i as f64 + 0.05)).collect(),
        raw_opac: numbers(&[0.1, 0.2, 0.3]),
        global_from_compact_gid: vec![0, 2],
        v_rasterize_grads,
    }
}

fn splat_grads() -> SplatGrads {
    SplatGrads {
        v_transforms: numbers(&[-7.0; 30]),
        v_coeffs: numbers(&[-7.0; 6]),
        v_raw_opac: numbers(&[-7.0; 3]),
        v_refine_weight: numbers(&[-7.0; 3]),
    }
}

fn run_backward(compact_gid: u32, grads: &[f64; 10]) -> SplatGrads {
    let inputs = backward_inputs(grads);
    let mut out = splat_grads();
    let helpers = SplatHelpers {
        cov: Sym2 { c00: n(2), c01: n(0), c11: n(2) },
        filter_comp: f(0.5),
        v_view_direction: v3(0.0, 0.0, 0.0),
        v_coeffs: numbers(&[11.0, 12.0]),
    };
    let s = SplatTransform {
        mean: v3(0.0, 0.0, 0.0),
        mean_c: v3(0.3, 0.2, 2.0),
        scale: v3(0.1, 0.2, 0.3),
        quat_unorm: Quat::new(n(1), n(0), n(0), n(0)),
    };
    let mut u = uniforms();
    u.num_visible = 2;
    project_backwards_kernel(
        compact_gid,
        &inputs,
        &mut out,
        &u,
        false,
        &CameraModel::KannalaBrandt4(kb4()),
        &s,
        &helpers,
        &perspective(),
    );
    out
}

#[test]
fn gradients_land_in_the_row_of_the_splat() {
    let out = run_backward(1, &[0.7, -1.1, 3.0, -2.0, 5.0, 0.1, 0.2, 0.3, 0.4, 0.5]);
    let mut e = Eval::new(&[]);
    let coeffs: Vec<f64> = out.v_coeffs.iter().map(|x| e.num(x)).collect();
    assert_eq!(coeffs, [-7.0, -7.0, -7.0, -7.0, 11.0, 12.0]);
    assert_eq!(e.num(&out.v_refine_weight[2]), 0.5);
    assert_eq!(e.num(&out.v_refine_weight[0]), -7.0);
    let s = 1.0 / (1.0 + (-0.3f64).exp());
    close(e.num(&out.v_raw_opac[2]), 0.5 * 0.4 * s * (1.0 - s), 1e-14);
    assert_eq!(e.num(&out.v_raw_opac[1]), -7.0);
    for i in 0..20 {
        assert_eq!(e.num(&out.v_transforms[i]), -7.0);
    }
    for i in 20..30 {
        assert_ne!(e.num(&out.v_transforms[i]), -7.0);
    }
}

#[test]
fn splats_without_gradients_keep_their_rows() {
    let out = run_backward(1, &[0.0; 10]);
    let mut e = Eval::new(&[]);
    for x in out
        .v_transforms
        .iter()
        .chain(&out.v_coeffs)
        .chain(&out.v_raw_opac)
        .chain(&out.v_refine_weight)
    {
        assert_eq!(e.num(x), -7.0);
    }
}

#[test]
fn threads_past_the_visible_splats_do_nothing() {
    let out = run_backward(2, &[1.0; 10]);
    let mut e = Eval::new(&[]);
    assert!(out.v_transforms.iter().all(|x| e.num(x) == -7.0));
    assert!(out.v_refine_weight.iter().all(|x| e.num(x) == -7.0));
}

#[test]
fn any_gradient_counts() {
    let some = |i: usize| {
        let x = |k: usize| if k == i { f(-0.5) } else { n(0) };
        any_grad(&SplatRasterGrads {
            mean2d: Vec2::new(x(0), x(1)),
            conics: Vec3A::new(x(2), x(3), x(4)),
            color: Vec3A::new(x(5), x(6), x(7)),
            alpha: x(8),
            refine: x(9),
        })
    };
    for i in 0..10 {
        assert!(Eval::new(&[]).test(&some(i)));
    }
    assert!(!Eval::new(&[]).test(&some(10)));
}

/// A splat whose numbers are the inputs: mean, extent, quaternion, opacity.
fn forward_splat() -> ForwardSplat {
    ForwardSplat {
        mean_c: input3(0),
        scale: input3(3),
        quat_unorm: Quat::new(
            Scalar::input(6),
            Scalar::input(7),
            Scalar::input(8),
            Scalar::input(9),
        ),
        raw_opac: Scalar::input(10),
    }
}

/// The covariance and the box are inputs too.
fn forward_helpers() -> ForwardHelpers {
    ForwardHelpers {
        ut_mean2d: (f(100.0), f(100.0)),
        cov: Sym2 { c00: Scalar::input(11), c01: Scalar::input(12), c11: Scalar::input(13) },
        filter_comp: n(1),
        extent: (Scalar::input(14), Scalar::input(15)),
        perspective: (Scalar::input(16), Scalar::input(17)),
    }
}

const SEEN: [f64; 18] = [
    0.1, 0.2, 2.0, 0.1, 0.1, 0.1, 1.0, 0.0, 0.0, 0.0, 0.5, 4.0, 0.0, 4.0, 6.0, 6.0, 300.0, 200.0,
];

fn seen_with(changes: &[(usize, f64)]) -> bool {
    let mut at = SEEN;
    for (i, x) in changes {
        at[*i] = *x;
    }
    let t = is_visible(
        &forward_splat(),
        &uniforms(),
        false,
        &CameraModel::Pinhole,
        &forward_helpers(),
    );
    Eval::new(&at).test(&t)
}

#[test]
fn an_ordinary_splat_is_seen() {
    assert!(seen_with(&[]));
}

#[test]
fn splats_that_are_not_seen() {
    // Behind or too near, and too far.
    assert!(!seen_with(&[(2, 0.009)]));
    assert!(!seen_with(&[(2, 1.1e10)]));
    // A quaternion without length, or too long.
    assert!(!seen_with(&[(6, 0.0)]));
    assert!(!seen_with(&[(6, 1e200)]));
    // Too faint.
    assert!(!seen_with(&[(10, -6.0)]));
    // No box, and boxes past each edge.
    assert!(!seen_with(&[(14, -1.0)]));
    assert!(!seen_with(&[(16, -6.0)]));
    assert!(!seen_with(&[(16, 646.0)]));
    assert!(!seen_with(&[(17, -6.0)]));
    assert!(!seen_with(&[(17, 486.0)]));
    assert!(seen_with(&[(16, -5.9)]));
    assert!(seen_with(&[(17, 485.9)]));
}

#[test]
fn nothing_that_is_no_number_is_seen() {
    for i in 0..18 {
        assert!(!seen_with(&[(i, f64::NAN)]), "input {i}");
    }
    for i in [0, 1, 2, 3, 4, 5, 6, 10, 11, 12, 13] {
        assert!(!seen_with(&[(i, f64::INFINITY)]), "input {i}");
    }
}

#[test]
fn fisheyes_are_limited_by_the_angle() {
    let u = uniforms();
    let model = CameraModel::KannalaBrandt4(kb4());
    let guard = frustum_guard(&input3(0), &u, &model);
    assert!(Eval::new(&[1.0, 0.0, 0.1]).test(&guard));
    assert!(!Eval::new(&[1.0, 0.0, 0.05]).test(&guard));
    assert!(!Eval::new(&[0.0, 0.0, -1.0]).test(&guard));
}

#[test]
fn coverage_needs_one_step_of_eight_bits() {
    let c = Sym2 { c00: n(1), c01: n(0), c11: n(1) };
    let guard = coverage_guard(&c, &Scalar::input(0));
    assert!(Eval::new(&[1.0 / 255.0]).test(&guard));
    assert!(!Eval::new(&[0.99 / 255.0]).test(&guard));
    close(Eval::new(&[1.0 / 255.0]).num(&power_threshold(&Scalar::input(0))), 0.0, 1e-14);
}

#[test]
fn screen_radius_is_the_larger_share() {
    let u = uniforms();
    let r = screen_radius(&(f(64.0), f(24.0)), &u);
    close(Eval::new(&[]).num(&r), 0.1, 1e-15);
    let guard = screen_guard(&(f(0.0), f(0.0)), &(f(1.0), f(1.0)), &u);
    assert!(Eval::new(&[]).test(&guard));
}

#[test]
fn the_mean_of_the_sigma_points_is_used() {
    let (s, u, h) = (forward_splat(), uniforms(), forward_helpers());
    let mut e = Eval::new(&SEEN);
    let a = projected_mean(&s, &u, true, &CameraModel::Pinhole, &h);
    let b = projected_mean(&s, &u, false, &CameraModel::Pinhole, &h);
    assert_eq!([e.num(&a.0), e.num(&b.0)], [100.0, 300.0]);
}

fn buffers() -> ForwardBuffers {
    ForwardBuffers {
        global_from_compact_gid: vec![99; 4],
        depths: numbers(&[-1.0; 4]),
        num_visible: 0,
        intersect_counts: vec![0; 4],
        num_intersections: u32::MAX,
        max_radius: numbers(&[-1.0; 4]),
    }
}

#[test]
fn visible_splats_are_compacted() {
    let (s, mut u, h) = (forward_splat(), uniforms(), forward_helpers());
    u.total_splats = 4;
    let mut out = buffers();
    project_forward_kernel(3, true, 5, &s, &u, &h, &mut out);
    project_forward_kernel(0, false, 5, &s, &u, &h, &mut out);
    project_forward_kernel(1, true, 2, &s, &u, &h, &mut out);
    project_forward_kernel(4, true, 2, &s, &u, &h, &mut out);
    assert_eq!(out.num_visible, 2);
    assert_eq!(out.global_from_compact_gid, [3, 1, 99, 99]);
    assert_eq!(out.intersect_counts, [0, 2, 0, 5]);
    assert_eq!(out.num_intersections, 6);
    let mut e = Eval::new(&SEEN);
    assert_eq!(e.num(&out.depths[1]), 2.0);
    assert_eq!(e.num(&out.depths[2]), -1.0);
    close(e.num(&out.max_radius[3]), 6.0 / 480.0, 1e-15);
    assert_eq!(e.num(&out.max_radius[0]), -1.0);
}

#[test]
fn sigma_points_agree_with_the_affine_projection_of_small_splats() {
    let mut small = SPLAT;
    small[7..].copy_from_slice(&[-7.0, -7.5, -6.8]);
    for model in [CameraModel::KannalaBrandt4(kb4()), CameraModel::ThinPrismFisheye(tpf())] {
        let (image, cov2d) = unscented(&model);
        let (want_image, want_cov) = (affine_image(&model), affine_cov(&model));
        let mut e = Eval::new(&small);
        close(e.num(&image.0), e.num(&want_image.0), 1e-4);
        close(e.num(&image.1), e.num(&want_image.1), 1e-4);
        close(e.num(&cov2d.c00), e.num(&want_cov.c00), 1e-3);
        close(e.num(&cov2d.c01), e.num(&want_cov.c01), 1e-3);
        close(e.num(&cov2d.c11), e.num(&want_cov.c11), 1e-3);
    }
}

#[test]
fn the_colour_is_asked_about_in_its_direction() {
    let inputs = backward_inputs(&[0.7, -1.1, 3.0, -2.0, 5.0, 0.1, 0.2, 0.3, 0.4, 0.5]);
    let mut e = Eval::new(&[]);
    // The second visible splat is the third splat: its mean starts at 2.05.
    let (direction, color) = sh_request(1, &inputs, &uniforms());
    let d = [2.05 - 0.5, 2.15 + 0.25, 2.25 + 3.0];
    let len = f64::sqrt(d[0] * d[0] + d[1] * d[1] + d[2] * d[2]);
    close(e.num(&direction.x), d[0] / len, 1e-14);
    close(e.num(&direction.y), d[1] / len, 1e-14);
    close(e.num(&direction.z), d[2] / len, 1e-14);
    assert_eq!([e.num(&color.x), e.num(&color.y), e.num(&color.z)], [0.1, 0.2, 0.3]);
    // The first one has gradients of its own.
    let (direction, color) = sh_request(0, &inputs, &uniforms());
    assert!(e.num(&direction.x) < 0.0);
    assert_eq!([e.num(&color.x), e.num(&color.y), e.num(&color.z)], [9.0, 9.0, 9.0]);
}

/// A splat at this depth: a pinhole camera sees it from a hundredth on.
fn candidate(depth: f64, num_tiles_hit: u32) -> Candidate {
    Candidate {
        splat: ForwardSplat {
            mean_c: v3(0.1, 0.2, depth),
            scale: v3(0.1, 0.1, 0.1),
            quat_unorm: Quat::new(n(1), n(0), n(0), n(0)),
            raw_opac: f(0.5),
        },
        helpers: ForwardHelpers {
            ut_mean2d: (f(100.0), f(100.0)),
            cov: Sym2 { c00: n(4), c01: n(0), c11: n(4) },
            filter_comp: n(1),
            extent: (f(6.4), f(6.0)),
            perspective: (f(300.0), f(200.0)),
        },
        num_tiles_hit,
    }
}

#[test]
fn a_launch_lists_what_is_visible() {
    let candidates: Vec<Candidate> = [(2.0, 5), (-1.0, 7), (3.0, 2), (0.001, 9), (4.0, u32::MAX)]
        .map(|(depth, tiles)| candidate(depth, tiles))
        .into_iter()
        .collect();
    let mut u = uniforms();
    u.total_splats = 5;
    let tests = visibility_tests(&candidates, &u, false, &CameraModel::Pinhole);
    let mut e = Eval::new(&[]);
    let passed: Vec<bool> = tests.iter().map(|t| e.test(t)).collect();
    assert_eq!(passed, [true, false, true, false, true]);
    // The threads come in any order, and some have no splat.
    for order in [vec![0, 1, 2, 3, 4], vec![7, 4, 3, 5, 0, 2, 6, 1]] {
        let mut out = ForwardBuffers {
            global_from_compact_gid: vec![99; 5],
            depths: numbers(&[-1.0; 5]),
            num_visible: 0,
            intersect_counts: vec![0; 5],
            num_intersections: 0,
            max_radius: numbers(&[0.0; 5]),
        };
        project_forward(&order, &passed, &candidates, &u, &mut out);
        let expected: Vec<u32> =
            order.iter().copied().filter(|g| [0, 2, 4].contains(g)).collect();
        assert_eq!(out.num_visible, 3);
        assert_eq!(out.global_from_compact_gid[..3], expected);
        for (k, gid) in expected.iter().enumerate() {
            assert_eq!(e.num(&out.depths[k]), [2.0, -1.0, 3.0, 0.001, 4.0][*gid as usize]);
        }
        assert_eq!(out.intersect_counts, [5, 0, 2, 0, u32::MAX]);
        assert_eq!(out.num_intersections, 6);
        let radii: Vec<f64> = out.max_radius.iter().map(|x| e.num(x)).collect();
        assert_eq!([radii[1], radii[3]], [0.0, 0.0]);
        close(radii[4], 6.0 / 480.0, 1e-15);
    }
}
