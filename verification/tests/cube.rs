use brush::cube::{
    calc_sigma, is_finite_bits, is_finite_f32, sigmoid, ut_sigma_scale, ut_weight_cov_center,
    ut_weight_mean_center, ut_weight_outer, Mat2x3, Mat3, Quat, Sym2, Sym3, TileBbox, Vec2, Vec3A,
};
use brush::expr::{Cond, Expr, Scalar, Test};
use std::collections::HashMap;
use std::rc::Rc;

/// Computes traced numbers in double precision.
struct Eval {
    inputs: Vec<f64>,
    seen: HashMap<String, f64>,
}

impl Eval {
    fn new(inputs: &[f64]) -> Eval {
        Eval { inputs: inputs.to_vec(), seen: HashMap::new() }
    }

    fn num(&mut self, x: &Scalar) -> f64 {
        self.seen.clear();
        self.expr(&x.node)
    }

    fn test(&mut self, t: &Test) -> bool {
        self.seen.clear();
        self.cond(&t.node)
    }

    fn expr(&mut self, e: &Rc<Expr>) -> f64 {
        let key = format!("{:p}", &**e);
        if let Some(v) = self.seen.get(&key) {
            return *v;
        }
        let v = match &**e {
            Expr::Lit { mantissa, exponent } => {
                format!("{mantissa}e{exponent}").parse::<f64>().unwrap()
            }
            Expr::Input(i) => self.inputs[*i as usize],
            Expr::Float(bits) => f32::from_bits(*bits) as f64,
            Expr::Narrow(bits) => f64::from_bits(*bits) as f32 as f64,
            Expr::Wide(bits) => f64::from_bits(*bits),
            Expr::Neg(a) => -self.expr(a),
            Expr::Sqrt(a) => self.expr(a).sqrt(),
            Expr::Exp(a) => self.expr(a).exp(),
            Expr::Ln(a) => self.expr(a).ln(),
            Expr::Abs(a) => self.expr(a).abs(),
            Expr::Round(a) => self.expr(a).round(),
            Expr::Add(a, b) => self.expr(a) + self.expr(b),
            Expr::Sub(a, b) => self.expr(a) - self.expr(b),
            Expr::Mul(a, b) => self.expr(a) * self.expr(b),
            Expr::Div(a, b) => self.expr(a) / self.expr(b),
            Expr::Min(a, b) => self.expr(a).min(self.expr(b)),
            Expr::Max(a, b) => self.expr(a).max(self.expr(b)),
            Expr::Pow(a, b) => self.expr(a).powf(self.expr(b)),
            Expr::Atan2(a, b) => self.expr(a).atan2(self.expr(b)),
            Expr::Clamp(x, lo, hi) => {
                let (x, lo, hi) = (self.expr(x), self.expr(lo), self.expr(hi));
                if x < lo {
                    lo
                } else if x > hi {
                    hi
                } else {
                    x
                }
            }
            Expr::Select(c, a, b) => {
                if self.cond(c) {
                    self.expr(a)
                } else {
                    self.expr(b)
                }
            }
        };
        self.seen.insert(key, v);
        v
    }

    fn cond(&mut self, c: &Rc<Cond>) -> bool {
        match &**c {
            Cond::Lt(a, b) => self.expr(a) < self.expr(b),
            Cond::Le(a, b) => self.expr(a) <= self.expr(b),
            Cond::Gt(a, b) => self.expr(a) > self.expr(b),
            Cond::Ge(a, b) => self.expr(a) >= self.expr(b),
            Cond::Ne(a, b) => self.expr(a) != self.expr(b),
            Cond::Finite(a) => self.expr(a).is_finite(),
            Cond::Not(a) => !self.cond(a),
            Cond::And(a, b) => self.cond(a) && self.cond(b),
            Cond::Or(a, b) => self.cond(a) || self.cond(b),
        }
    }
}

fn close(a: f64, b: f64, tolerance: f64) {
    assert!((a - b).abs() <= tolerance * (1.0 + b.abs()), "{a} is not {b}");
}

fn n(x: i64) -> Scalar {
    Scalar::num(x)
}

fn v3(x: i64, y: i64, z: i64) -> Vec3A {
    Vec3A::new(n(x), n(y), n(z))
}

fn nums3(v: &Vec3A) -> [f64; 3] {
    let mut e = Eval::new(&[]);
    [e.num(&v.x), e.num(&v.y), e.num(&v.z)]
}

fn nums2(v: &Vec2) -> [f64; 2] {
    let mut e = Eval::new(&[]);
    [e.num(&v.x), e.num(&v.y)]
}

fn nums(x: &Scalar) -> f64 {
    Eval::new(&[]).num(x)
}

fn mat() -> Mat3 {
    Mat3::from_cols(&v3(1, 2, 3), &v3(4, 5, 6), &v3(7, 8, 10))
}

fn sym3() -> Sym3 {
    Sym3 { c00: n(2), c01: n(-1), c02: n(3), c11: n(5), c12: n(1), c22: n(4) }
}

fn sym3_nums(s: &Sym3) -> [f64; 6] {
    [nums(&s.c00), nums(&s.c01), nums(&s.c02), nums(&s.c11), nums(&s.c12), nums(&s.c22)]
}

#[test]
fn literals_are_recorded() {
    assert_eq!(nums(&Scalar::lit(25, -1)), 2.5);
    assert_eq!(nums(&Scalar::float(0x3f80_0000)), 1.0);
    assert_eq!(nums(&Scalar::narrowed(0x3ff8_0000_0000_0000)), 1.5);
    assert!(matches!(&*Scalar::input(7).node, Expr::Input(7)));
    assert_eq!(Eval::new(&[4.0, 9.0]).num(&Scalar::input(1).sqrt()), 3.0);
}

#[test]
fn operators_are_recorded_in_order() {
    let x = n(7) - n(2) * n(3);
    assert_eq!(nums(&x), 1.0);
    match &*x.node {
        Expr::Sub(a, b) => {
            assert!(matches!(&**a, Expr::Lit { mantissa: 7, exponent: 0 }));
            assert!(matches!(&**b, Expr::Mul(_, _)));
        }
        _ => panic!("not a difference"),
    }
    assert_eq!(nums(&(n(1) / n(4))), 0.25);
    assert_eq!(nums(&n(3).neg()), -3.0);
    assert_eq!(nums(&n(-3).abs()), 3.0);
    assert_eq!(nums(&Scalar::lit(25, -1).round()), 3.0);
    assert_eq!(nums(&n(2).pow(&n(10))), 1024.0);
    assert_eq!(nums(&n(2).min(&n(1))), 1.0);
    assert_eq!(nums(&n(2).max(&n(1))), 2.0);
    assert_eq!(nums(&n(5).clamp(&n(0), &n(3))), 3.0);
    assert_eq!(nums(&n(0).exp()), 1.0);
    assert_eq!(nums(&n(1).ln()), 0.0);
    assert_eq!(nums(&n(0).atan2(&n(1))), 0.0);
}

#[test]
fn copies_share_the_node() {
    let x = n(3);
    let y = x.clone();
    assert!(Rc::ptr_eq(&x.node, &y.node));
    let t = x.lt(&y);
    assert!(Rc::ptr_eq(&t.node, &t.clone().node));
}

#[test]
fn tests_are_recorded() {
    let mut e = Eval::new(&[f64::NAN, f64::INFINITY, 1.0]);
    let (nan, inf, one) = (Scalar::input(0), Scalar::input(1), Scalar::input(2));
    assert!(!e.test(&nan.lt(&one)));
    assert!(!e.test(&nan.le(&one)));
    assert!(!e.test(&nan.gt(&one)));
    assert!(!e.test(&nan.ge(&one)));
    assert!(e.test(&nan.ne(&nan)));
    assert!(!e.test(&is_finite_f32(&nan)));
    assert!(!e.test(&is_finite_f32(&inf)));
    assert!(e.test(&is_finite_f32(&one)));
    assert!(e.test(&nan.lt(&one).not()));
    assert!(e.test(&inf.gt(&one).and(&one.le(&one))));
    assert!(e.test(&inf.lt(&one).or(&one.ge(&one))));
    assert_eq!(e.num(&one.lt(&inf).select(&n(4), &n(5))), 4.0);
}

#[test]
fn finite_bits() {
    for x in [0.0f32, -0.0, 1.0, f32::MAX, f32::MIN_POSITIVE, 1.0e-45] {
        assert!(is_finite_bits(x.to_bits()));
    }
    for x in [f32::INFINITY, f32::NEG_INFINITY, f32::NAN, -f32::NAN] {
        assert!(!is_finite_bits(x.to_bits()));
    }
}

#[test]
fn vector_operations() {
    let a = v3(1, 2, 2);
    let b = v3(-3, 5, 7);
    assert_eq!(nums3(&a.add(&b)), [-2.0, 7.0, 9.0]);
    assert_eq!(nums3(&a.sub(&b)), [4.0, -3.0, -5.0]);
    assert_eq!(nums3(&a.scale(&n(3))), [3.0, 6.0, 6.0]);
    assert_eq!(nums(&a.dot(&b)), 21.0);
    assert_eq!(nums(&a.length()), 3.0);
    assert_eq!([nums(&a.x()), nums(&a.y()), nums(&a.z())], [1.0, 2.0, 2.0]);
    let u = nums3(&a.normalize());
    close(u[0] * u[0] + u[1] * u[1] + u[2] * u[2], 1.0, 1e-15);
    close(u[1], 2.0 / 3.0, 1e-15);
    assert!(Eval::new(&[]).test(&a.is_finite()));
    let bad = Vec3A::new(n(1), Scalar::input(0), n(1));
    assert!(!Eval::new(&[f64::NAN]).test(&bad.is_finite()));
    let p = Vec2::new(n(3), n(4));
    let q = Vec2::new(n(-1), n(2));
    assert_eq!(nums2(&p.add(&q)), [2.0, 6.0]);
    assert_eq!(nums2(&p.scale(&n(2))), [6.0, 8.0]);
    assert_eq!(nums(&p.dot(&q)), 5.0);
    assert_eq!([nums(&p.x()), nums(&p.y())], [3.0, 4.0]);
}

#[test]
fn quaternions() {
    let q = Quat::new(n(1), n(2), n(2), n(4));
    assert_eq!([nums(&q.w()), nums(&q.x()), nums(&q.y()), nums(&q.z())], [1.0, 2.0, 2.0, 4.0]);
    assert_eq!(nums(&q.dot(&q)), 25.0);
    assert_eq!(nums(&q.scale(&n(2)).z), 8.0);
    let u = q.normalize();
    close(nums(&u.w), 0.2, 1e-15);
    close(nums(&u.z), 0.8, 1e-15);
    // A half turn around the z axis.
    let r = Quat::new(n(0), n(0), n(0), n(1)).to_mat3();
    assert_eq!(nums3(&r.mul_vec3(&v3(1, 2, 3))), [-1.0, -2.0, 3.0]);
    // A third of a turn around the diagonal.
    let h = Scalar::lit(5, -1);
    let r = Quat::new(h.clone(), h.clone(), h.clone(), h).to_mat3();
    assert_eq!(nums3(&r.mul_vec3(&v3(1, 2, 3))), [3.0, 1.0, 2.0]);
}

#[test]
fn unit_quaternions_keep_lengths() {
    let r = Quat::new(n(1), n(-2), n(3), n(5)).normalize().to_mat3();
    let p = nums3(&r.mul_vec3(&v3(1, 2, 2)));
    close(p[0] * p[0] + p[1] * p[1] + p[2] * p[2], 9.0, 1e-14);
}

#[test]
fn matrices_of_three_columns() {
    let m = mat();
    assert_eq!(nums3(&m.col1()), [4.0, 5.0, 6.0]);
    assert_eq!(nums3(&m.row1()), [2.0, 5.0, 8.0]);
    assert_eq!(nums3(&m.row0()), [1.0, 4.0, 7.0]);
    assert_eq!(nums3(&m.row2()), [3.0, 6.0, 10.0]);
    assert_eq!(nums3(&m.mul_vec3(&v3(1, -1, 2))), [11.0, 13.0, 17.0]);
    assert_eq!(nums3(&m.transpose_mul_vec3(&v3(1, -1, 2))), [5.0, 11.0, 19.0]);
    let p = m.mul_mat3(&m);
    assert_eq!(nums3(&p.col0()), [30.0, 36.0, 45.0]);
    assert_eq!(nums3(&p.col2()), [109.0, 134.0, 169.0]);
    assert_eq!(nums3(&m.mul_diag(&v3(2, 3, 5)).col2()), [35.0, 40.0, 50.0]);
    assert_eq!(sym3_nums(&m.outer_product_self()), [66.0, 78.0, 97.0, 93.0, 116.0, 145.0]);
}

#[test]
fn matrices_are_adjoint_to_their_transposes() {
    let m = mat();
    let (v, w) = (v3(1, -2, 3), v3(4, 5, -6));
    assert_eq!(
        nums(&m.mul_vec3(&v).dot(&w)),
        nums(&v.dot(&m.transpose_mul_vec3(&w)))
    );
}

#[test]
fn matrices_of_two_rows() {
    let j = Mat2x3 {
        c0: Vec2::new(n(1), n(2)),
        c1: Vec2::new(n(3), n(4)),
        c2: Vec2::new(n(5), n(6)),
    };
    assert_eq!(nums3(&j.row0()), [1.0, 3.0, 5.0]);
    assert_eq!(nums3(&j.row1()), [2.0, 4.0, 6.0]);
    assert_eq!(nums2(&j.mul_vec3(&v3(1, 1, 2))), [14.0, 18.0]);
    assert_eq!(nums3(&j.transpose_mul_vec2(&Vec2::new(n(1), n(-1)))), [-1.0, -1.0, -1.0]);
    assert_eq!(nums2(&j.mul_mat3(&mat()).c0), [22.0, 28.0]);
    let g = j.gram_matrix();
    assert_eq!([nums(&g.c00), nums(&g.c01), nums(&g.c11)], [35.0, 44.0, 56.0]);
    let s = Sym2 { c00: n(2), c01: n(1), c11: n(3) };
    assert_eq!(
        sym3_nums(&j.transpose_congruence_sym2(&s)),
        [18.0, 40.0, 62.0, 90.0, 140.0, 218.0]
    );
}

#[test]
fn symmetric_matrices_of_order_two() {
    let s = Sym2 { c00: n(4), c01: n(1), c11: n(2) };
    assert_eq!(nums2(&s.col0()), [4.0, 1.0]);
    assert_eq!(nums2(&s.col1()), [1.0, 2.0]);
    assert_eq!(nums2(&s.mul_vec2(&Vec2::new(n(1), n(2)))), [6.0, 5.0]);
    assert_eq!(nums(&s.scale(&n(3)).c01), 3.0);
    assert_eq!(nums(&s.det2_strict()), 7.0);
    let neg = Sym2 { c00: n(1), c01: n(-9), c11: n(2) };
    assert_eq!(nums(&neg.max_abs()), 9.0);
    let i = s.inverse();
    close(nums(&i.c00), 2.0 / 7.0, 1e-15);
    close(nums(&i.c01), -1.0 / 7.0, 1e-15);
    close(nums(&i.c11), 4.0 / 7.0, 1e-15);
    assert!(Eval::new(&[]).test(&s.is_finite()));
}

#[test]
fn matrices_without_positive_determinant_have_no_inverse() {
    for s in [
        Sym2 { c00: n(1), c01: n(1), c11: n(1) },
        Sym2 { c00: n(1), c01: n(2), c11: n(1) },
    ] {
        let i = s.inverse();
        assert_eq!([nums(&i.c00), nums(&i.c01), nums(&i.c11)], [0.0, 0.0, 0.0]);
    }
}

#[test]
fn symmetric_matrices_of_order_three() {
    let s = sym3();
    assert_eq!(nums3(&s.row1()), [-1.0, 5.0, 1.0]);
    assert_eq!(nums3(&s.row0()), [2.0, -1.0, 3.0]);
    assert_eq!(nums3(&s.row2()), [3.0, 1.0, 4.0]);
    assert_eq!(nums3(&s.mul_vec3(&v3(1, 2, 3))), [9.0, 12.0, 17.0]);
    assert_eq!(nums(&s.scale(&n(2)).c12), 2.0);
    assert_eq!(nums3(&s.mul_mat3(&mat()).col0()), [9.0, 12.0, 17.0]);
    // Congruence with a permutation moves the entries about.
    let p = Mat3::from_cols(&v3(0, 1, 0), &v3(0, 0, 1), &v3(1, 0, 0));
    assert_eq!(sym3_nums(&s.congruence(&p)), [4.0, 3.0, 1.0, 2.0, -1.0, 5.0]);
    assert_eq!(sym3_nums(&s.transpose_congruence(&p)), [5.0, 1.0, -1.0, 4.0, 3.0, 2.0]);
}

#[test]
fn logistic_function() {
    assert_eq!(nums(&sigmoid(&n(0))), 0.5);
    close(nums(&sigmoid(&n(2))), 1.0 / (1.0 + (-2.0f64).exp()), 1e-15);
}

#[test]
fn exponent_of_a_pixel() {
    let conic = Sym2 { c00: n(2), c01: n(1), c11: n(4) };
    // Offsets of 2 and -1: (2 * 4 + 4 * 1) / 2 - 2.
    assert_eq!(nums(&calc_sigma(&n(5), &n(2), &conic, &n(3), &n(3))), 4.0);
}

#[test]
fn sigma_point_weights() {
    close(nums(&ut_sigma_scale()), 3.0f64.sqrt(), 1e-7);
    assert_eq!(nums(&ut_weight_mean_center()), 0.0);
    assert_eq!(nums(&ut_weight_cov_center()), 2.0);
    close(nums(&ut_weight_outer()), 1.0 / 6.0, 1e-7);
}

#[test]
fn tile_boxes_are_plain() {
    let b = TileBbox { min_x: 1, min_y: 2, max_x: 3, max_y: 4 };
    assert_eq!(b, b.clone());
}

#[test]
fn the_padding_lane_is_multiplied_and_added_too() {
    let minus_zero = || Scalar::float((-0.0f32).to_bits());
    let v = Vec3A::new(minus_zero(), minus_zero(), minus_zero());
    // The lanes alone would add up to minus zero.
    let d = nums(&v.dot(&v3(1, 1, 1)));
    assert!(d == 0.0 && d.is_sign_positive());
    // A scaled vector carries its scaled padding.
    let w = v3(0, 0, 0).scale(&n(-1));
    let d = nums(&w.dot(&v3(1, 1, 1)));
    assert!(d == 0.0 && d.is_sign_negative());
    // An infinite factor makes the padding no number.
    let infinite = Scalar::float(f32::INFINITY.to_bits());
    assert!(nums(&v3(1, 0, 0).scale(&infinite).dot(&v3(1, 1, 1))).is_nan());
    assert!(nums(&Vec3A::new(infinite, n(0), n(0)).dot(&v3(1, 1, 1))).is_infinite());
    assert_eq!(nums(&v3(1, 2, 3).add(&v3(1, 1, 1)).sub(&v3(0, 1, 0)).dot(&v3(1, 2, 3))), 18.0);
}

#[test]
fn double_precision_literals_are_recorded() {
    assert_eq!(nums(&Scalar::wide(0.1f64.to_bits())), 0.1);
    assert!(matches!(&*Scalar::wide(7).node, Expr::Wide(7)));
}
