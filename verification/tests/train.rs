use brush::config::AlphaMode;
use brush::cube::{Quat, Vec3A};
use brush::expr::{Cond, Expr, Scalar, Test};
use brush::number::{Double, Single};
use brush::train::masks::{degenerate_mask, max_allowed_bounds, prune_masks};
use brush::train::min_scale::{compute_min_scale, floor_is_refreshed};
use brush::train::prune::{surviving_indices, RefineRecord};
use brush::train::record::{AdamState, Momentum, Param, Splats};
use brush::train::refine::{
    count_mask, growth_target, RefineCounts, RefineSession, RefineStats,
};
use brush::train::refine_splats::reset_moment_rows;
use brush::train::schedule::mean_schedule;
use brush::train::split::{
    axis_offset, axis_ratio, child_raw_opacity, decayed_raw_opacity, frac_1_sqrt_2, inv_sigmoid,
    make_child_row, make_parent_update, max_axis_shrink, min_opacity, opacity_decay, read_row,
    split_shape, unit_rotation, TransformRow,
};
use brush::train::step::{
    add_mean_noise, make_sh_lr_scales, make_transform_rates, noise_weight, noised,
    optimizer_epsilon, sample_background_color, NoiseInputs, OptimizerStep, ParamKind, ONE,
};
use brush::train::table::Table;
use brush::train::trainer::{BoundingBox, SplatTrainer, TrainConfig, ViewCam};
use std::collections::HashMap;
use std::rc::Rc;

/// Computes traced numbers in double precision.
struct Eval {
    inputs: Vec<f64>,
    seen: HashMap<String, f64>,
}

impl Eval {
    fn new(inputs: &[f64]) -> Eval {
        Eval { inputs: inputs.to_vec(), seen: HashMap::new() }
    }

    fn num(&mut self, x: &Scalar) -> f64 {
        self.seen.clear();
        self.expr(&x.node)
    }

    fn test(&mut self, t: &Test) -> bool {
        self.seen.clear();
        self.cond(&t.node)
    }

    fn expr(&mut self, e: &Rc<Expr>) -> f64 {
        let key = format!("{:p}", &**e);
        if let Some(v) = self.seen.get(&key) {
            return *v;
        }
        let v = match &**e {
            Expr::Lit { mantissa, exponent } => {
                format!("{mantissa}e{exponent}").parse::<f64>().unwrap()
            }
            Expr::Input(i) => self.inputs[*i as usize],
            Expr::Float(bits) => f32::from_bits(*bits) as f64,
            Expr::Narrow(bits) => f64::from_bits(*bits) as f32 as f64,
            Expr::Wide(bits) => f64::from_bits(*bits),
            Expr::Neg(a) => -self.expr(a),
            Expr::Sqrt(a) => self.expr(a).sqrt(),
            Expr::Exp(a) => self.expr(a).exp(),
            Expr::Ln(a) => self.expr(a).ln(),
            Expr::Abs(a) => self.expr(a).abs(),
            Expr::Round(a) => self.expr(a).round(),
            Expr::Add(a, b) => self.expr(a) + self.expr(b),
            Expr::Sub(a, b) => self.expr(a) - self.expr(b),
            Expr::Mul(a, b) => self.expr(a) * self.expr(b),
            Expr::Div(a, b) => self.expr(a) / self.expr(b),
            Expr::Min(a, b) => self.expr(a).min(self.expr(b)),
            Expr::Max(a, b) => self.expr(a).max(self.expr(b)),
            Expr::Pow(a, b) => self.expr(a).powf(self.expr(b)),
            Expr::Atan2(a, b) => self.expr(a).atan2(self.expr(b)),
            Expr::Clamp(x, lo, hi) => {
                let (x, lo, hi) = (self.expr(x), self.expr(lo), self.expr(hi));
                if x < lo {
                    lo
                } else if x > hi {
                    hi
                } else {
                    x
                }
            }
            Expr::Select(c, a, b) => {
                if self.cond(c) {
                    self.expr(a)
                } else {
                    self.expr(b)
                }
            }
        };
        self.seen.insert(key, v);
        v
    }

    fn cond(&mut self, c: &Rc<Cond>) -> bool {
        match &**c {
            Cond::Lt(a, b) => self.expr(a) < self.expr(b),
            Cond::Le(a, b) => self.expr(a) <= self.expr(b),
            Cond::Gt(a, b) => self.expr(a) > self.expr(b),
            Cond::Ge(a, b) => self.expr(a) >= self.expr(b),
            Cond::Ne(a, b) => self.expr(a) != self.expr(b),
            Cond::Finite(a) => self.expr(a).is_finite(),
            Cond::Not(a) => !self.cond(a),
            Cond::And(a, b) => self.cond(a) && self.cond(b),
            Cond::Or(a, b) => self.cond(a) || self.cond(b),
        }
    }
}

fn close(a: f64, b: f64, tolerance: f64) {
    assert!((a - b).abs() <= tolerance * (1.0 + b.abs()), "{a} is not {b}");
}

fn n(x: i64) -> Scalar {
    Scalar::num(x)
}

fn f(x: f64) -> Scalar {
    Scalar::narrowed(x.to_bits())
}

fn single(x: f32) -> Single {
    Single { bits: x.to_bits() }
}

fn double(x: f64) -> Double {
    Double { bits: x.to_bits() }
}

fn num(x: &Scalar) -> f64 {
    Eval::new(&[]).num(x)
}

fn holds(t: &Test) -> bool {
    Eval::new(&[]).test(t)
}

fn v3(x: f64, y: f64, z: f64) -> Vec3A {
    Vec3A::new(f(x), f(y), f(z))
}

fn nums(row: &[Scalar]) -> Vec<f64> {
    row.iter().map(num).collect()
}

fn table(rows: &[Vec<f64>]) -> Table {
    let mut t = Table::new();
    for row in rows {
        t.push(row.iter().map(|x| f(*x)).collect());
    }
    t
}

fn all(t: &Table) -> Vec<Vec<f64>> {
    t.rows.iter().map(|r| nums(r)).collect()
}

/// Splats whose rows can be told apart: the i-th starts with `10 i`.
fn splats(count: usize) -> Splats {
    let rows: Vec<Vec<f64>> = (0..count)
        .map(|i| {
            let i = 10.0 * i as f64;
            vec![i, i + 1.0, i + 2.0, 1.0, 0.0, 0.0, 0.0, -1.0, -1.0, -1.0]
        })
        .collect();
    let coeffs: Vec<Vec<f64>> = (0..count).map(|i| vec![i as f64, 0.5]).collect();
    let opac: Vec<Vec<f64>> = (0..count).map(|_| vec![0.25]).collect();
    Splats {
        transforms: Param { id: 1, value: table(&rows) },
        sh_coeffs: Param { id: 2, value: table(&coeffs) },
        raw_opacities: Param { id: 3, value: table(&opac) },
    }
}

fn state(rows: usize) -> AdamState {
    let m: Vec<Vec<f64>> = (0..rows).map(|i| vec![i as f64 + 1.0]).collect();
    AdamState {
        momentum: Some(Momentum { moment_1: table(&m), moment_2: table(&m) }),
        scaling: None,
        reduce_moment_2: false,
    }
}

fn config() -> TrainConfig {
    TrainConfig {
        total_train_iters: 1000,
        growth_stop_iter: 500,
        max_splats: 100,
        background_color: (single(0.0), single(0.0), single(0.0)),
        background_noise_strength: single(0.0),
        ssim_weight: single(0.25),
        match_alpha_weight: single(0.5),
        lpips_loss_weight: single(0.0),
        lr_coeffs_sh_scale: single(20.0),
        mean_noise_weight: single(50.0),
        split_at_screen_size: single(0.0),
        growth_grad_threshold: single(0.003),
        growth_select_fraction: single(0.2),
        opac_decay: single(0.004),
        lr_mean: double(0.5),
        lr_mean_end: double(0.125),
        lr_rotation: double(2e-3),
        lr_scale: double(7e-3),
        lr_coeffs_dc: double(2.5e-3),
        lr_opac: double(1.2e-2),
    }
}

fn bounds() -> BoundingBox {
    BoundingBox { center: v3(0.0, 0.0, 0.0), extent: v3(1.0, 2.0, 1.5) }
}

fn trainer(c: TrainConfig) -> SplatTrainer {
    SplatTrainer::new(&c, bounds())
}

#[test]
fn growth_stops_with_training() {
    let t = trainer(TrainConfig { growth_stop_iter: 5000, ..config() });
    assert_eq!(t.config.growth_stop_iter, 1000);
    assert_eq!(trainer(config()).config.growth_stop_iter, 500);
    assert!(t.ssim_enabled);
    assert!(!t.lpips_enabled);
    assert_eq!((t.step_count, t.max_sh_degree), (0, 0));
    let t = trainer(TrainConfig { ssim_weight: single(-1.0), ..config() });
    assert!(!t.ssim_enabled);
}

#[test]
fn signs_of_single_numbers() {
    for x in [1.0f32, 1.0e-45, f32::MAX, f32::INFINITY] {
        assert!(single(x).is_positive());
        assert!(!single(x).is_at_most_zero());
    }
    for x in [0.0f32, -0.0, -1.0, -1.0e-45, f32::NEG_INFINITY] {
        assert!(!single(x).is_positive());
        assert!(single(x).is_at_most_zero());
    }
    assert!(!single(f32::NAN).is_positive());
    assert!(!single(f32::NAN).is_at_most_zero());
    assert!(!single(-f32::NAN).is_at_most_zero());
}

#[test]
fn a_step_plans_its_loss() {
    let mut t = trainer(config());
    let p = t.step(3, true, AlphaMode::Transparent, v3(1.0, 0.0, 0.0), false);
    assert_eq!((num(&p.l1_weight), num(&p.ssim_weight)), (0.75, -0.25));
    assert!(p.match_alpha && !p.mask);
    assert_eq!(num(&p.composite_bg.unwrap().x), 1.0);
    assert_eq!((t.step_count, t.max_sh_degree), (1, 3));
    // A mask is not matched, and a black background is not composited.
    let p = t.step(2, true, AlphaMode::Masked, v3(0.0, 0.0, 0.0), true);
    assert!(!p.match_alpha && p.mask && p.composite_bg.is_none());
    assert_eq!((t.step_count, t.max_sh_degree), (2, 3));
    // An image without alpha has none to match.
    let p = t.step(2, false, AlphaMode::Transparent, v3(1.0, 1.0, 1.0), false);
    assert!(!p.match_alpha && p.composite_bg.is_none());
    let mut t = trainer(TrainConfig { ssim_weight: single(0.0), ..config() });
    let p = t.step(3, false, AlphaMode::Masked, v3(0.0, 0.0, 0.0), true);
    assert_eq!((num(&p.l1_weight), num(&p.ssim_weight)), (1.0, 0.0));
}

#[test]
fn the_loss_adds_up() {
    let t = trainer(config());
    assert_eq!(num(&t.total_loss(true, &n(3), &n(4), &n(100))), 5.0);
    assert_eq!(num(&t.total_loss(false, &n(3), &n(4), &n(100))), 3.0);
    let t = trainer(TrainConfig { lpips_loss_weight: single(0.5), ..config() });
    assert_eq!(num(&t.total_loss(true, &n(3), &n(4), &n(100))), 55.0);
    let s = t.step_stats(7, double(0.5), n(9));
    assert_eq!((s.num_visible, s.lr_mean, s.lr_opac), (7, double(0.5), double(1.2e-2)));
    assert_eq!((s.lr_coeffs, s.lr_scale), (double(2.5e-3), double(7e-3)));
    assert_eq!((s.lr_rotation, num(&s.loss)), (double(2e-3), 9.0));
}

#[test]
fn statistics_start_from_nothing() {
    let mut t = trainer(config());
    t.ensure_refine_record(2);
    let r = t.refine_record.as_ref().unwrap();
    assert_eq!(nums(&r.max_screen_size), [0.0, 0.0]);
    t.ensure_refine_record(5);
    assert_eq!(t.refine_record.unwrap().visible.len(), 2);
}

#[test]
fn rates_of_the_columns() {
    let r = make_transform_rates(&config(), double(0.5));
    assert_eq!(num(&r[2]), 0.5);
    assert_eq!(num(&r[3]), 2e-3f32 as f64);
    assert_eq!(num(&r[6]), 2e-3f32 as f64);
    assert_eq!(num(&r[9]), 7e-3f32 as f64);
    assert_eq!(r.len(), 10);
    assert_eq!(nums(&make_sh_lr_scales(4, single(20.0))), [1.0, 0.05, 0.05, 0.05]);
    assert_eq!(nums(&make_sh_lr_scales(1, single(20.0))), [1.0]);
    assert_eq!(num(&optimizer_epsilon()), 1e-15);
}

#[test]
fn the_optimizer_keeps_its_moments() {
    let mut t = trainer(config());
    t.step(1, false, AlphaMode::Transparent, v3(0.0, 0.0, 0.0), true);
    let steps = t.prepare_optimizer(1, 2, double(0.5));
    assert_eq!(
        steps,
        [
            OptimizerStep { param: ParamKind::Transforms, rate: Double { bits: ONE } },
            OptimizerStep { param: ParamKind::ShCoeffs, rate: double(2.5e-3) },
            OptimizerStep { param: ParamKind::RawOpacities, rate: double(1.2e-2) },
        ]
    );
    // The first time the coefficients of the degree get their factors.
    let sh = t.take_state(2).unwrap();
    assert!(sh.reduce_moment_2 && sh.momentum.is_none());
    assert_eq!(nums(&sh.scaling.unwrap()), [1.0, 0.05, 0.05, 0.05]);
    assert!(t.take_state(2).is_none());
    assert!(t.take_state(3).is_none());
    t.keep_state(1, state(4));
    // The rates are set anew, and the moments stay.
    t.prepare_optimizer(1, 2, double(0.25));
    let s = t.take_state(1).unwrap();
    assert_eq!(num(&s.scaling.unwrap()[0]), 0.25);
    assert!(!s.reduce_moment_2);
    assert_eq!(all(&s.momentum.unwrap().moment_1), [[1.0], [2.0], [3.0], [4.0]]);
    // Only the first time.
    assert!(t.take_state(2).is_none());
}

#[test]
fn noise_moves_positions_only() {
    let inputs = NoiseInputs {
        opacities: vec![f(0.0), f(1.0)],
        visible: vec![n(1), n(1)],
        samples: vec![v3(1.0, -100.0, 0.5), v3(1.0, 1.0, 1.0)],
    };
    let s = add_mean_noise(splats(2), &inputs, double(0.5), single(4.0), &n(3));
    let rows = all(&s.transforms.value);
    assert_eq!(rows[0][..4], [2.0, -2.0, 3.0, 1.0]);
    assert_eq!(rows[1][..4], [10.0, 11.0, 12.0, 1.0]);
    assert_eq!(all(&s.sh_coeffs.value), [[0.0, 0.5], [1.0, 0.5]]);
}

#[test]
fn noise_is_bounded() {
    assert_eq!(num(&noise_weight(&f(0.0), &n(1))), 1.0);
    assert_eq!(num(&noise_weight(&f(0.0), &n(0))), 0.0);
    close(num(&noise_weight(&f(0.5), &n(1))), 0.5f64.powi(150), 1e-60);
    assert_eq!(num(&noised(&n(5), &n(-100), &n(1), &n(2))), 3.0);
    assert_eq!(num(&noised(&n(5), &n(100), &n(0), &n(2))), 5.0);
}

#[test]
fn backgrounds_are_colors() {
    let base = v3(0.5, -1.0, 0.75);
    let noise = v3(0.25, 2.0, 0.5);
    let c = sample_background_color(&base, single(0.0), &noise);
    assert_eq!([num(&c.x), num(&c.y), num(&c.z)], [0.5, 0.0, 0.75]);
    let c = sample_background_color(&base, single(0.5), &noise);
    assert_eq!([num(&c.x), num(&c.y), num(&c.z)], [0.75, 1.0, 1.0]);
}

fn row() -> TransformRow {
    TransformRow {
        mean: v3(1.0, 2.0, 3.0),
        quat: Quat::new(n(0), n(3), n(0), n(4)),
        log_scale: v3(-1.0, -2.0, -0.5),
    }
}

#[test]
fn splits_keep_centroid_and_spread() {
    for cap in [0.0f32, 0.1] {
        let (r, sample) = (row(), v3(0.5, -0.25, 0.125));
        let shape = split_shape(&r, &f(0.4), single(cap));
        let parent = nums(&make_parent_update(&r, &shape, &sample));
        let child = nums(&make_child_row(&r, &shape, &sample));
        let mean = [1.0, 2.0, 3.0];
        let log_scale = [-1.0, -2.0, -0.5f64];
        let o = &shape.offset_local;
        let offset = [num(&o.x), num(&o.y), num(&o.z)];
        for i in 0..3 {
            close(mean[i] + parent[i] + child[i], 2.0 * mean[i], 1e-12);
            close(log_scale[i] + parent[7 + i], child[7 + i], 1e-12);
            let (e, s) = (child[7 + i].exp(), log_scale[i].exp());
            close(e * e + offset[i] * offset[i], s * s, 1e-12);
        }
        assert_eq!(parent[3..7], [0.0, 0.0, 0.0, 0.0]);
        close(child[4], 0.6, 1e-12);
        close(child[6], 0.8, 1e-12);
    }
}

#[test]
fn halves_of_large_splats_meet_the_cap() {
    let frac = std::f32::consts::FRAC_1_SQRT_2 as f64;
    assert_eq!(num(&frac_1_sqrt_2()), frac);
    assert_eq!(num(&max_axis_shrink(&f(0.5), single(0.0))), frac);
    assert_eq!(num(&max_axis_shrink(&f(0.25), single(0.25))), frac);
    close(num(&max_axis_shrink(&f(0.5), single(0.25))), 0.5, 1e-12);
    // The longest axis of the row is the third.
    let shape = split_shape(&row(), &f(0.5), single(0.25));
    close(num(&shape.shrink.z), 0.5, 1e-12);
    assert!(num(&shape.shrink.y) > 0.9);
    let ratio = axis_ratio(&v3(1.0, 2.0, 4.0));
    assert_eq!([num(&ratio.x), num(&ratio.y), num(&ratio.z)], [1.0 / 16.0, 0.25, 1.0]);
    assert_eq!(num(&axis_offset(&f(0.6), &n(10))), 10.0 * (1.0 - (0.6f32 as f64).powi(2)).sqrt());
    let q = unit_rotation(&row().quat);
    assert_eq!([num(&q.x), num(&q.z)], [0.6, 0.8]);
    let zero = unit_rotation(&Quat::new(n(0), n(0), n(0), n(0)));
    assert_eq!(num(&zero.w), 0.0);
}

#[test]
fn rows_are_read_by_name() {
    let r = read_row(&(0..10).map(n).collect());
    assert_eq!([num(&r.mean.z), num(&r.quat.w), num(&r.log_scale.x)], [2.0, 3.0, 7.0]);
}

fn logistic(x: f64) -> f64 {
    1.0 / (1.0 + (-x).exp())
}

#[test]
fn opacities_of_halves() {
    let frac = std::f32::consts::FRAC_1_SQRT_2 as f64;
    let o = logistic(0.3);
    let want = 1.0 - (1.0 - o).powf(frac);
    close(logistic(num(&child_raw_opacity(&f(0.3f32 as f64)))), want, 1e-7);
    close(num(&min_opacity()), 1.0 / 255.0, 1e-15);
    // Faint splats do not vanish, and opaque ones do not stay so.
    close(logistic(num(&child_raw_opacity(&n(-100)))), 1.0 / 255.0, 1e-12);
    close(logistic(num(&child_raw_opacity(&n(30)))), 254.0 / 255.0, 1e-12);
    close(logistic(num(&inv_sigmoid(&f(0.25)))), 0.25, 1e-15);
}

#[test]
fn opacities_decay() {
    let d = |iter| num(&opacity_decay(iter, 1000, single(0.5)));
    assert_eq!([d(0), d(500), d(1000), d(4000)], [0.5, 0.25, 0.0, 0.0]);
    let o = num(&decayed_raw_opacity(&n(0), &f(0.25)));
    close(logistic(o), 0.25, 1e-12);
    let o = num(&decayed_raw_opacity(&n(-10), &f(0.25)));
    close(logistic(o), 1e-12, 1e-15);
}

#[test]
fn moments_of_both_halves_are_reset() {
    let t = reset_moment_rows(table(&[vec![1.0, 2.0], vec![3.0, 4.0], vec![5.0, 6.0]]), &vec![2, 0]);
    assert_eq!(
        all(&t),
        [[0.0, 0.0], [3.0, 4.0], [0.0, 0.0], [0.0, 0.0], [0.0, 0.0]]
    );
}

#[test]
fn floors_go_by_the_nearest_view() {
    let cams = vec![
        ViewCam { center: v3(0.0, 0.0, 4.0), focal: single(2.0) },
        ViewCam { center: v3(0.0, 3.0, 0.0), focal: single(3.0) },
    ];
    let means = vec![v3(0.0, 0.0, 0.0), v3(0.0, 0.0, 4.0)];
    let floor = compute_min_scale(&means, &cams, single(0.25)).unwrap();
    assert_eq!(nums(&floor), [0.5, 0.0]);
    assert!(compute_min_scale(&means, &Vec::new(), single(0.25)).is_none());
    assert!(compute_min_scale(&means, &cams, single(0.0)).is_none());
    assert!(holds(&floor_is_refreshed(899, 1000)));
    assert!(!holds(&floor_is_refreshed(900, 1000)));
    assert!(holds(&floor_is_refreshed(0, 0)));
    assert!(!holds(&floor_is_refreshed(1, 0)));
}

#[test]
fn splats_that_are_dropped() {
    let mut s = splats(6);
    s.transforms.value.rows[1][0] = f(201.0);
    s.transforms.value.rows[2][8] = Scalar::input(0);
    s.sh_coeffs.value.rows[3][1] = Scalar::input(1);
    let mut opac = vec![f(0.5); 6];
    opac[4] = f(0.003);
    let mut scales = vec![v3(0.1, 0.1, 0.1); 6];
    scales[5] = v3(0.1, 0.1, 200.5);
    // A thin splat is kept.
    scales[0] = v3(0.1, 0.1, 0.0);
    assert_eq!(num(&max_allowed_bounds(&bounds())), 200.0);
    let m = prune_masks(&s, &opac, &scales, &bounds());
    let mut e = Eval::new(&[f64::NAN, f64::INFINITY]);
    let prune: Vec<bool> = m.prune.iter().map(|t| e.test(t)).collect();
    assert_eq!(prune, [false, true, true, true, true, true]);
    let bad: Vec<bool> = m.non_finite.iter().map(|t| e.test(t)).collect();
    assert_eq!(bad, [false, false, true, true, false, false]);
}

#[test]
fn splats_that_come_out_unusable() {
    let mut s = splats(3);
    s.transforms.value.rows[1][3] = f(0.0);
    s.raw_opacities.value.rows[2][0] = Scalar::input(0);
    let mut e = Eval::new(&[f64::NAN]);
    let bad: Vec<bool> = degenerate_mask(&s).iter().map(|t| e.test(t)).collect();
    assert_eq!(bad, [false, true, true]);
}

#[test]
fn survivors_keep_their_order() {
    assert_eq!(surviving_indices(&vec![true, false, true, false]), [1, 3]);
    assert_eq!(count_mask(&vec![true, false, true, false]), 2);
    assert_eq!(num(&growth_target(12, single(0.2))), 2.0);
    assert_eq!(num(&growth_target(13, single(0.2))), 3.0);
}

/// A trainer that has taken a step on so many splats.
fn ready(c: TrainConfig, count: usize) -> SplatTrainer {
    let mut t = trainer(c);
    t.ensure_refine_record(count);
    t.prepare_optimizer(1, 2, double(0.5));
    for id in [1, 2, 3] {
        t.keep_state(id, state(count));
    }
    t
}

fn ordinary(count: usize) -> (Vec<Scalar>, Vec<Vec3A>) {
    (vec![f(0.5); count], vec![v3(0.1, 0.1, 0.1); count])
}

fn session(t: &mut SplatTrainer, prune: &[bool]) -> RefineSession {
    let (opac, scales) = ordinary(prune.len());
    let start = t.refine(splats(prune.len()), &opac, &scales);
    assert!(t.optim.is_none() && t.refine_record.is_none());
    assert_eq!(start.masks.prune.len(), prune.len());
    start.prune(&prune.to_vec(), &vec![false; prune.len()])
}

#[test]
fn dropped_splats_leave_every_table() {
    let mut t = ready(config(), 4);
    t.refine_record.as_mut().unwrap().max_screen_size[2] = n(9);
    let s = session(&mut t, &[true, false, false, true]);
    assert_eq!(s.pruned_count, 2);
    assert_eq!(all(&s.splats.sh_coeffs.value), [[1.0, 0.5], [2.0, 0.5]]);
    assert_eq!(num(&s.splats.transforms.value.rows[1][0]), 20.0);
    assert_eq!(nums(&s.refiner.max_screen_size), [0.0, 9.0]);
}

#[test]
fn the_last_splats_are_not_dropped() {
    let s = session(&mut ready(config(), 2), &[true, true]);
    assert_eq!((s.pruned_count, s.splats.num_splats()), (0, 2));
    let s = session(&mut ready(config(), 2), &[false, false]);
    assert_eq!((s.pruned_count, s.splats.num_splats()), (0, 2));
    assert!(s.replacement(&vec![f(0.5); 2]).is_none());
}

#[test]
fn replacements_are_drawn_by_what_was_seen() {
    let mut t = ready(config(), 3);
    t.refine_record.as_mut().unwrap().visible[2] = n(1);
    let s = session(&mut t, &[true, false, false]);
    let draw = s.replacement(&vec![f(0.5), f(0.25)]).unwrap();
    assert_eq!(draw.count, 1);
    assert_eq!(nums(&draw.weights), [0.0, 0.25]);
}

#[test]
fn oversized_splats_are_split_within_the_budget() {
    let c = TrainConfig { max_splats: 7, split_at_screen_size: single(0.5), ..config() };
    let mut s = session(&mut ready(c, 4), &[false; 4]);
    s.add_resampled(&vec![1]);
    // Five are taken; two more fit, and an index that is there costs nothing.
    s.add_oversized(&c, &vec![1, 3, 0, 2]);
    assert_eq!(s.num_split_oversized, 2);
    let p = s.plan(&c);
    let mut inds = p.plan.inds;
    inds.sort();
    assert_eq!(inds, [0, 1, 3]);
    assert_eq!(p.counts.num_added, 3);
    // Without the limit, or without room, nothing is split by size.
    let off = TrainConfig { split_at_screen_size: single(0.0), ..c };
    let mut s = session(&mut ready(off, 4), &[false; 4]);
    s.add_oversized(&off, &vec![0, 1]);
    assert_eq!(s.num_split_oversized, 0);
    let full = TrainConfig { max_splats: 3, ..c };
    let mut s = session(&mut ready(full, 4), &[false; 4]);
    s.add_oversized(&full, &vec![0, 1]);
    assert_eq!(s.num_split_oversized, 0);
}

#[test]
fn growth_is_drawn_by_gradient() {
    let mut t = ready(config(), 2);
    t.refine_record.as_mut().unwrap().refine_weight_norm = vec![f(0.5), f(0.25)];
    let s = session(&mut t, &[false, false]);
    assert_eq!(nums(&s.growth_weights(&vec![n(0), n(1)])), [0.0, 0.25]);
}

#[test]
fn splats_that_are_not_finite_are_counted() {
    let (opac, scales) = ordinary(3);
    let start = ready(config(), 3).refine(splats(3), &opac, &scales);
    let s = start.prune(&vec![true, false, true], &vec![true, false, false]);
    assert_eq!((s.pruned_count, s.num_pruned_non_finite), (2, 1));
}

#[test]
fn growth_has_a_quota() {
    let c = TrainConfig { max_splats: 6, ..config() };
    let s = session(&mut ready(c, 5), &[true, false, false, false, false]);
    // One splat was dropped and is replaced first; two fit under the cap.
    assert_eq!(s.growth_quota(&c, 10, 2), 1);
    assert_eq!(s.growth_quota(&c, 10, 50), 2);
    assert_eq!(s.growth_quota(&c, 10, 1), 0);
    assert_eq!(s.growth_quota(&c, 500, 50), 0);
    let over = TrainConfig { max_splats: 2, ..config() };
    assert_eq!(s.growth_quota(&over, 10, 50), 0);
}

#[test]
fn a_refinement_from_start_to_end() {
    let c = TrainConfig { opac_decay: single(0.0), ..config() };
    let mut t = ready(c, 3);
    t.set_view_cams(vec![ViewCam { center: v3(0.0, 0.0, 0.0), focal: single(1.0) }]);
    let mut s = session(&mut t, &[false, true, false]);
    s.add_resampled(&vec![1]);
    s.add_oversized(&c, &Vec::new());
    s.add_growth(&vec![1, 0, 1]);
    assert_eq!(s.num_split_high_grad, 1);
    let plan = s.plan(&c);
    let samples: Vec<Vec3A> = plan.plan.inds.iter().map(|_| v3(0.5, 0.5, 0.5)).collect();
    let counts = plan.counts;
    assert_eq!(
        counts,
        RefineCounts {
            num_added: 2,
            num_split_oversized: 0,
            num_split_high_grad: 1,
            num_pruned: 1,
            num_pruned_non_finite: 0,
        }
    );
    let out = t.apply_split(plan, &samples, 10);
    assert_eq!(out.num_splats(), 4);
    // Parents move back, children stand ahead.
    let mut xs: Vec<f64> = out.transforms.value.rows.iter().map(|r| num(&r[0])).collect();
    xs.sort_by(|a, b| a.partial_cmp(b).unwrap());
    assert_eq!(xs, [-0.5, 0.5, 19.5, 20.5]);
    let o = logistic(num(&out.raw_opacities.value.rows[0][0]));
    let frac = std::f32::consts::FRAC_1_SQRT_2 as f64;
    close(o, 1.0 - (1.0 - logistic(0.25)).powf(frac), 1e-9);
    let (out, dropped) = t.prune_degenerate(out, &vec![false, false, false, true]);
    assert_eq!((out.num_splats(), dropped), (3, 1));
    let moments = t.take_state(3).unwrap().momentum.unwrap();
    assert_eq!(all(&moments.moment_2), [[0.0], [0.0], [0.0]]);
    let (floor, stats) = t.finish_refine(&out, bounds(), true, counts);
    assert_eq!(floor.unwrap().len(), 3);
    assert_eq!(
        stats,
        RefineStats {
            num_added: 2,
            num_split_oversized: 0,
            num_split_high_grad: 1,
            num_pruned: 1,
            num_pruned_non_finite: 0,
            total_splats: 3,
        }
    );
    assert!(t.finish_refine(&out, bounds(), false, counts).0.is_none());
}

#[test]
fn a_refinement_keeps_to_the_cap() {
    let c = TrainConfig { max_splats: 5, split_at_screen_size: single(0.5), ..config() };
    let mut s = session(&mut ready(c, 4), &[true, false, false, false]);
    s.add_resampled(&vec![2]);
    s.add_oversized(&c, &vec![0, 1, 2]);
    let quota = s.growth_quota(&c, 10, 100);
    assert_eq!(quota, 0);
    let count = s.splats.num_splats();
    assert_eq!(count + s.plan(&c).counts.num_added, 5);
}

#[test]
fn nothing_to_split_changes_no_moments() {
    let c = config();
    let mut t = ready(c, 2);
    let s = session(&mut t, &[false, false]);
    let plan = s.plan(&c);
    let out = t.apply_split(plan, &Vec::new(), 1000);
    assert_eq!(out.num_splats(), 2);
    let m = t.take_state(1).unwrap().momentum.unwrap();
    assert_eq!(all(&m.moment_1), [[1.0], [2.0]]);
    let (out, dropped) = t.prune_degenerate(out, &vec![false, false]);
    assert_eq!((out.num_splats(), dropped), (2, 0));
}

#[test]
fn records_are_made_of_zeros() {
    let r = RefineRecord::new(2);
    assert_eq!(nums(&r.refine_weight_norm), [0.0, 0.0]);
}

#[test]
fn the_rate_falls_from_start_to_end() {
    let mut s = mean_schedule(double(0.5), double(0.125), 2);
    assert_eq!(num(&s.decay), 0.5);
    assert_eq!(num(&s.step()), 0.5);
    assert_eq!(num(&s.step()), 0.25);
    assert_eq!(num(&s.step()), 0.125);
    let mut s = mean_schedule(double(2e-5), double(2e-7), 1000);
    for k in 0..=1000 {
        close(num(&s.rate) / (2e-5 * 0.01f64.powf(f64::from(k) / 1000.0)), 1.0, 1e-9);
        let rate = s.rate.clone();
        assert_eq!(num(&s.step()), num(&rate));
        s.settle(double(num(&s.rate)));
    }
    // Equal rates at both ends never change.
    let mut s = mean_schedule(double(0.3), double(0.3), 7);
    s.step();
    assert_eq!(num(&s.step()), 0.3);
}

#[test]
fn positions_learn_by_the_schedule_and_the_bounds() {
    let mut t = trainer(TrainConfig { total_train_iters: 2, ..config() });
    assert_eq!(num(&t.scheduled_mean_rate(&n(3))), 1.5);
    let next = num(&t.sched_mean.rate);
    t.settle_mean_rate(double(next));
    assert_eq!(num(&t.scheduled_mean_rate(&n(3))), 0.75);
    // The bounds may change on the way.
    assert_eq!(num(&t.scheduled_mean_rate(&n(8))), 1.0);
    // The other rates do not fall.
    assert_eq!(t.config.lr_rotation, double(2e-3));
    assert_eq!(t.config.lr_coeffs_dc, double(2.5e-3));
}

#[test]
fn a_refinement_uses_up_the_statistics() {
    let mut t = trainer(config());
    assert!(t.refine_record.is_none());
    t.ensure_refine_record(2);
    assert!(t.refine_record.is_some());
    let mut t = ready(config(), 2);
    let c = t.config;
    let plan = session(&mut t, &[false, false]).plan(&c);
    let out = t.apply_split(plan, &Vec::new(), 10);
    let counts = RefineCounts {
        num_added: 0,
        num_split_oversized: 0,
        num_split_high_grad: 0,
        num_pruned: 0,
        num_pruned_non_finite: 0,
    };
    t.finish_refine(&out, bounds(), false, counts);
    // Only another step brings new ones.
    assert!(t.refine_record.is_none());
    t.scheduled_mean_rate(&n(1));
    t.prepare_optimizer(1, 2, double(0.5));
    assert!(t.refine_record.is_none());
    t.ensure_refine_record(2);
    assert!(t.refine_record.is_some());
}
