use crate::cube::Pad;
use crate::expr::{decimal, whole, Cond, Expr, Scalar, Test};
use vstd::prelude::*;

verus! {

/// A reading of the inputs, of the rounded numbers and of the transcendental
/// operations over the reals.
/// Each input has a value and a rate of change.
pub struct Model {
    pub input: spec_fn(u32) -> real,
    pub input_rate: spec_fn(u32) -> real,
    pub narrow: spec_fn(u64) -> real,
    pub sqrt: spec_fn(real) -> real,
    pub exp: spec_fn(real) -> real,
    pub ln: spec_fn(real) -> real,
    pub round: spec_fn(real) -> real,
    pub pow: spec_fn(real, real) -> real,
    pub atan2: spec_fn(real, real) -> real,
}

/// Ten to a whole power.
pub open spec fn pow10(e: int) -> real
    decreases (if e < 0 { -e } else { e }),
{
    if e == 0 {
        1real
    } else if e > 0 {
        10real * pow10(e - 1)
    } else {
        pow10(e + 1) / 10real
    }
}

/// Two to a whole power.
pub open spec fn pow2(e: int) -> real
    decreases (if e < 0 { -e } else { e }),
{
    if e == 0 {
        1real
    } else if e > 0 {
        2real * pow2(e - 1)
    } else {
        pow2(e + 1) / 2real
    }
}

/// The magnitude of the single-precision number with the given bits, which
/// neither an infinity nor a NaN has.
pub open spec fn single_magnitude(bits: u32) -> real {
    let exponent = (bits / 0x80_0000) % 256;
    let fraction = bits % 0x80_0000;
    if exponent == 0 {
        fraction as real * pow2(-149)
    } else {
        (0x80_0000 + fraction) as real * pow2(exponent - 150)
    }
}

/// The single-precision number with the given bits.
pub open spec fn single_value(bits: u32) -> real {
    if bits < 0x8000_0000 {
        single_magnitude(bits)
    } else {
        -single_magnitude(bits)
    }
}

/// The magnitude of the double-precision number with the given bits, which
/// neither an infinity nor a NaN has.
pub open spec fn double_magnitude(bits: u64) -> real {
    let exponent = (bits / 0x10_0000_0000_0000) % 2048;
    let fraction = bits % 0x10_0000_0000_0000;
    if exponent == 0 {
        fraction as real * pow2(-1074)
    } else {
        (0x10_0000_0000_0000 + fraction) as real * pow2(exponent - 1075)
    }
}

/// The double-precision number with the given bits.
pub open spec fn double_value(bits: u64) -> real {
    if bits < 0x8000_0000_0000_0000 {
        double_magnitude(bits)
    } else {
        -double_magnitude(bits)
    }
}

impl Expr {
    pub open spec fn value(self, m: Model) -> real
        decreases self,
    {
        match self {
            Expr::Lit { mantissa, exponent } => mantissa as real * pow10(exponent as int),
            Expr::Input(i) => (m.input)(i),
            Expr::Float(bits) => single_value(bits),
            Expr::Narrow(bits) => (m.narrow)(bits),
            Expr::Wide(bits) => double_value(bits),
            Expr::Neg(a) => -a.value(m),
            Expr::Sqrt(a) => (m.sqrt)(a.value(m)),
            Expr::Exp(a) => (m.exp)(a.value(m)),
            Expr::Ln(a) => (m.ln)(a.value(m)),
            Expr::Abs(a) => if a.value(m) < 0real { -a.value(m) } else { a.value(m) },
            Expr::Round(a) => (m.round)(a.value(m)),
            Expr::Pow(a, b) => (m.pow)(a.value(m), b.value(m)),
            Expr::Add(a, b) => a.value(m) + b.value(m),
            Expr::Sub(a, b) => a.value(m) - b.value(m),
            Expr::Mul(a, b) => a.value(m) * b.value(m),
            Expr::Div(a, b) => a.value(m) / b.value(m),
            Expr::Min(a, b) => if a.value(m) <= b.value(m) { a.value(m) } else { b.value(m) },
            Expr::Max(a, b) => if a.value(m) >= b.value(m) { a.value(m) } else { b.value(m) },
            Expr::Atan2(y, x) => (m.atan2)(y.value(m), x.value(m)),
            Expr::Clamp(x, lo, hi) => if x.value(m) < lo.value(m) {
                lo.value(m)
            } else if x.value(m) > hi.value(m) {
                hi.value(m)
            } else {
                x.value(m)
            },
            Expr::Select(c, a, b) => if c.holds(m) { a.value(m) } else { b.value(m) },
        }
    }

    pub open spec fn rate(self, m: Model) -> real
        decreases self,
    {
        match self {
            Expr::Lit { .. } => 0real,
            Expr::Input(i) => (m.input_rate)(i),
            Expr::Float(_) => 0real,
            Expr::Narrow(_) => 0real,
            Expr::Wide(_) => 0real,
            Expr::Neg(a) => -a.rate(m),
            Expr::Sqrt(a) => a.rate(m) / (2real * (m.sqrt)(a.value(m))),
            Expr::Exp(a) => (m.exp)(a.value(m)) * a.rate(m),
            Expr::Ln(a) => a.rate(m) / a.value(m),
            Expr::Abs(a) => if a.value(m) < 0real { -a.rate(m) } else { a.rate(m) },
            Expr::Round(_) => 0real,
            Expr::Pow(a, b) => (m.pow)(a.value(m), b.value(m)) * (b.rate(m) * (m.ln)(a.value(m))
                + b.value(m) * a.rate(m) / a.value(m)),
            Expr::Add(a, b) => a.rate(m) + b.rate(m),
            Expr::Sub(a, b) => a.rate(m) - b.rate(m),
            Expr::Mul(a, b) => a.rate(m) * b.value(m) + a.value(m) * b.rate(m),
            Expr::Div(a, b) => (a.rate(m) * b.value(m) - a.value(m) * b.rate(m)) / (b.value(m)
                * b.value(m)),
            Expr::Min(a, b) => if a.value(m) <= b.value(m) { a.rate(m) } else { b.rate(m) },
            Expr::Max(a, b) => if a.value(m) >= b.value(m) { a.rate(m) } else { b.rate(m) },
            Expr::Atan2(y, x) => (x.value(m) * y.rate(m) - y.value(m) * x.rate(m)) / (x.value(m)
                * x.value(m) + y.value(m) * y.value(m)),
            Expr::Clamp(x, lo, hi) => if x.value(m) < lo.value(m) {
                lo.rate(m)
            } else if x.value(m) > hi.value(m) {
                hi.rate(m)
            } else {
                x.rate(m)
            },
            Expr::Select(c, a, b) => if c.holds(m) { a.rate(m) } else { b.rate(m) },
        }
    }
}

impl Cond {
    pub open spec fn holds(self, m: Model) -> bool
        decreases self,
    {
        match self {
            Cond::Lt(a, b) => a.value(m) < b.value(m),
            Cond::Le(a, b) => a.value(m) <= b.value(m),
            Cond::Gt(a, b) => a.value(m) > b.value(m),
            Cond::Ge(a, b) => a.value(m) >= b.value(m),
            Cond::Ne(a, b) => a.value(m) != b.value(m),
            Cond::Finite(_) => true,
            Cond::Not(c) => !c.holds(m),
            Cond::And(c, d) => c.holds(m) && d.holds(m),
            Cond::Or(c, d) => c.holds(m) || d.holds(m),
        }
    }
}

impl Model {
    /// What the laws rest on: the square root of a number that is not negative
    /// is not negative, and its square is that number; exponentials are positive;
    /// the second power is the square.
    pub open spec fn sound(self) -> bool {
        &&& forall|x: real|
            x >= 0real ==> (#[trigger] (self.sqrt)(x)) >= 0real && (self.sqrt)(x) * (self.sqrt)(x)
                == x
        &&& forall|x: real| #[trigger] (self.exp)(x) > 0real
        &&& forall|x: real| #[trigger] (self.pow)(x, 2real) == x * x
    }
}

impl Scalar {
    /// The number that the graph denotes.
    pub open spec fn value(self, m: Model) -> real {
        self.node.value(m)
    }

    /// The rate of change of that number when every input changes at its own
    /// rate: the chain rule, one operation at a time.
    pub open spec fn rate(self, m: Model) -> real {
        self.node.rate(m)
    }

    /// The number does not change with the inputs.
    pub open spec fn constant(self, m: Model) -> bool {
        self.rate(m) == 0real
    }
}

impl Test {
    /// The test succeeds over the reals.
    pub open spec fn holds(self, m: Model) -> bool {
        self.node.holds(m)
    }
}

/// What each operation does to the values of its operands.
pub broadcast proof fn value_add(a: Scalar, b: Scalar, m: Model)
    ensures
        #[trigger] (a + b).value(m) == a.value(m) + b.value(m),
{
}

pub broadcast proof fn value_sub(a: Scalar, b: Scalar, m: Model)
    ensures
        #[trigger] (a - b).value(m) == a.value(m) - b.value(m),
{
}

pub broadcast proof fn value_mul(a: Scalar, b: Scalar, m: Model)
    ensures
        #[trigger] (a * b).value(m) == a.value(m) * b.value(m),
{
}

pub broadcast proof fn value_div(a: Scalar, b: Scalar, m: Model)
    ensures
        #[trigger] (a / b).value(m) == a.value(m) / b.value(m),
{
}

pub broadcast proof fn value_neg(a: Scalar, m: Model)
    ensures
        #[trigger] (-a).value(m) == -a.value(m),
{
}

pub broadcast proof fn value_sqrt(a: Scalar, m: Model)
    ensures
        #[trigger] a.sqrt().value(m) == (m.sqrt)(a.value(m)),
{
}

pub broadcast proof fn value_exp(a: Scalar, m: Model)
    ensures
        #[trigger] a.exp().value(m) == (m.exp)(a.value(m)),
{
}

pub broadcast proof fn value_ln(a: Scalar, m: Model)
    ensures
        #[trigger] a.ln().value(m) == (m.ln)(a.value(m)),
{
}

pub broadcast proof fn value_abs(a: Scalar, m: Model)
    ensures
        #[trigger] a.abs().value(m) == (if a.value(m) < 0real {
            -a.value(m)
        } else {
            a.value(m)
        }),
{
}

pub broadcast proof fn value_pow(a: Scalar, b: Scalar, m: Model)
    ensures
        #[trigger] a.pow(&b).value(m) == (m.pow)(a.value(m), b.value(m)),
{
}

pub broadcast proof fn value_min(a: Scalar, b: Scalar, m: Model)
    ensures
        #[trigger] a.min(&b).value(m) == (if a.value(m) <= b.value(m) {
            a.value(m)
        } else {
            b.value(m)
        }),
{
}

pub broadcast proof fn value_max(a: Scalar, b: Scalar, m: Model)
    ensures
        #[trigger] a.max(&b).value(m) == (if a.value(m) >= b.value(m) {
            a.value(m)
        } else {
            b.value(m)
        }),
{
}

pub broadcast proof fn value_atan2(y: Scalar, x: Scalar, m: Model)
    ensures
        #[trigger] y.atan2(&x).value(m) == (m.atan2)(y.value(m), x.value(m)),
{
}

pub broadcast proof fn value_clamp(x: Scalar, lo: Scalar, hi: Scalar, m: Model)
    ensures
        #[trigger] x.clamp(&lo, &hi).value(m) == (if x.value(m) < lo.value(m) {
            lo.value(m)
        } else if x.value(m) > hi.value(m) {
            hi.value(m)
        } else {
            x.value(m)
        }),
{
}

pub broadcast proof fn value_select(c: Test, a: Scalar, b: Scalar, m: Model)
    ensures
        #[trigger] c.select(&a, &b).value(m) == (if c.holds(m) {
            a.value(m)
        } else {
            b.value(m)
        }),
{
}

pub broadcast proof fn value_whole(n: i64, m: Model)
    ensures
        #[trigger] whole(n).value(m) == n as real,
{
    assert(pow10(0) == 1real);
}

pub broadcast proof fn value_decimal(mantissa: i64, exponent: i32, m: Model)
    ensures
        #[trigger] decimal(mantissa, exponent).value(m) == mantissa as real * pow10(
            exponent as int,
        ),
{
}

pub broadcast proof fn holds_lt(a: Scalar, b: Scalar, m: Model)
    ensures
        #[trigger] a.lt(&b).holds(m) == (a.value(m) < b.value(m)),
{
}

pub broadcast proof fn holds_le(a: Scalar, b: Scalar, m: Model)
    ensures
        #[trigger] a.le(&b).holds(m) == (a.value(m) <= b.value(m)),
{
}

pub broadcast proof fn holds_gt(a: Scalar, b: Scalar, m: Model)
    ensures
        #[trigger] a.gt(&b).holds(m) == (a.value(m) > b.value(m)),
{
}

pub broadcast proof fn holds_ge(a: Scalar, b: Scalar, m: Model)
    ensures
        #[trigger] a.ge(&b).holds(m) == (a.value(m) >= b.value(m)),
{
}

pub broadcast proof fn holds_ne(a: Scalar, b: Scalar, m: Model)
    ensures
        #[trigger] a.ne(&b).holds(m) == (a.value(m) != b.value(m)),
{
}

pub broadcast proof fn holds_finite(a: Scalar, m: Model)
    ensures
        #[trigger] a.finite().holds(m),
{
}

pub broadcast proof fn holds_not(c: Test, m: Model)
    ensures
        #[trigger] c.not().holds(m) == !c.holds(m),
{
}

pub broadcast proof fn holds_and(c: Test, d: Test, m: Model)
    ensures
        #[trigger] c.and(&d).holds(m) == (c.holds(m) && d.holds(m)),
{
}

pub broadcast proof fn holds_or(c: Test, d: Test, m: Model)
    ensures
        #[trigger] c.or(&d).holds(m) == (c.holds(m) || d.holds(m)),
{
}

/// The lane that pads a vector is zero over the reals, and stays so.
pub proof fn lemma_pad_is_zero(p: &Pad, m: Model)
    ensures
        p.scalar().value(m) == 0real,
        p.scalar().rate(m) == 0real,
    decreases p,
{
    match p {
        Pad::Zero => {},
        Pad::Sum(a, b) => {
            lemma_pad_is_zero(a, m);
            lemma_pad_is_zero(b, m);
        },
        Pad::Difference(a, b) => {
            lemma_pad_is_zero(a, m);
            lemma_pad_is_zero(b, m);
        },
        Pad::Scaled(a, s) => {
            lemma_pad_is_zero(a, m);
            let v = a.scalar().value(m);
            let r = a.scalar().rate(m);
            assert(v * s.value(m) == 0real && r * s.value(m) + v * s.rate(m) == 0real)
                by (nonlinear_arith)
                requires
                    v == 0real,
                    r == 0real,
            ;
        },
    }
}

/// So an inner product is that of the three components.
pub broadcast proof fn value_pads(p: Pad, q: Pad, m: Model)
    ensures
        #[trigger] p.times(&q).value(m) == 0real,
{
    lemma_pad_is_zero(&p, m);
    lemma_pad_is_zero(&q, m);
    assert(0real * 0real == 0real);
}

pub broadcast proof fn rate_pads(p: Pad, q: Pad, m: Model)
    ensures
        #[trigger] p.times(&q).rate(m) == 0real,
{
    lemma_pad_is_zero(&p, m);
    lemma_pad_is_zero(&q, m);
}

pub broadcast group group_value {
    value_add,
    value_sub,
    value_mul,
    value_div,
    value_neg,
    value_sqrt,
    value_exp,
    value_ln,
    value_abs,
    value_pow,
    value_min,
    value_max,
    value_atan2,
    value_clamp,
    value_select,
    value_whole,
    value_decimal,
    holds_lt,
    holds_le,
    holds_gt,
    holds_ge,
    holds_ne,
    holds_finite,
    holds_not,
    holds_and,
    holds_or,
    value_pads,
}

/// What each operation does to the rates of its operands.
pub broadcast proof fn rate_add(a: Scalar, b: Scalar, m: Model)
    ensures
        #[trigger] (a + b).rate(m) == a.rate(m) + b.rate(m),
{
}

pub broadcast proof fn rate_sub(a: Scalar, b: Scalar, m: Model)
    ensures
        #[trigger] (a - b).rate(m) == a.rate(m) - b.rate(m),
{
}

pub broadcast proof fn rate_mul(a: Scalar, b: Scalar, m: Model)
    ensures
        #[trigger] (a * b).rate(m) == a.rate(m) * b.value(m) + a.value(m) * b.rate(m),
{
}

pub broadcast proof fn rate_div(a: Scalar, b: Scalar, m: Model)
    ensures
        #[trigger] (a / b).rate(m) == (a.rate(m) * b.value(m) - a.value(m) * b.rate(m)) / (b.value(
            m,
        ) * b.value(m)),
{
}

pub broadcast proof fn rate_neg(a: Scalar, m: Model)
    ensures
        #[trigger] (-a).rate(m) == -a.rate(m),
{
}

pub broadcast proof fn rate_sqrt(a: Scalar, m: Model)
    ensures
        #[trigger] a.sqrt().rate(m) == a.rate(m) / (2real * (m.sqrt)(a.value(m))),
{
}

pub broadcast proof fn rate_exp(a: Scalar, m: Model)
    ensures
        #[trigger] a.exp().rate(m) == (m.exp)(a.value(m)) * a.rate(m),
{
}

pub broadcast proof fn rate_min(a: Scalar, b: Scalar, m: Model)
    ensures
        #[trigger] a.min(&b).rate(m) == (if a.value(m) <= b.value(m) {
            a.rate(m)
        } else {
            b.rate(m)
        }),
{
}

pub broadcast proof fn rate_atan2(y: Scalar, x: Scalar, m: Model)
    ensures
        #[trigger] y.atan2(&x).rate(m) == (x.value(m) * y.rate(m) - y.value(m) * x.rate(m)) / (
        x.value(m) * x.value(m) + y.value(m) * y.value(m)),
{
}

pub broadcast proof fn rate_select(c: Test, a: Scalar, b: Scalar, m: Model)
    ensures
        #[trigger] c.select(&a, &b).rate(m) == (if c.holds(m) {
            a.rate(m)
        } else {
            b.rate(m)
        }),
{
}

pub broadcast proof fn rate_decimal(mantissa: i64, exponent: i32, m: Model)
    ensures
        #[trigger] decimal(mantissa, exponent).rate(m) == 0real,
{
}

pub broadcast proof fn rate_whole(n: i64, m: Model)
    ensures
        #[trigger] whole(n).rate(m) == 0real,
{
}

pub broadcast group group_rate {
    rate_add,
    rate_sub,
    rate_mul,
    rate_div,
    rate_neg,
    rate_sqrt,
    rate_exp,
    rate_min,
    rate_atan2,
    rate_select,
    rate_decimal,
    rate_whole,
    rate_pads,
}

} // verus!
