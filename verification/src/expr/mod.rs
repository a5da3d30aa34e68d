//! Traced floating-point arithmetic, in single precision except where a schedule is
//! kept in double precision.
//!
//! Kernels do not compute numbers here: they record which operations a device
//! performs, in which order, as a graph of [`Expr`] nodes. A [`Scalar`] is a
//! handle to such a node. The contracts of this crate state the recorded
//! operations exactly, so they hold whatever the rounding of the device is;
//! [`semantics`] gives the graphs their meaning over the real numbers.
use std::rc::Rc;
use vstd::prelude::*;

pub mod algebra;
pub mod ops;
pub mod semantics;

verus! {

/// One recorded operation.
pub enum Expr {
    /// The decimal literal `mantissa * 10^exponent`.
    Lit { mantissa: i64, exponent: i32 },
    /// A number that the launch supplies.
    Input(u32),
    /// The single-precision number with these bits.
    Float(u32),
    /// The double-precision number with these bits, rounded to single precision.
    Narrow(u64),
    /// The double-precision number with these bits, in a recording that is carried
    /// out in double precision.
    Wide(u64),
    Neg(Rc<Expr>),
    Sqrt(Rc<Expr>),
    Exp(Rc<Expr>),
    Ln(Rc<Expr>),
    Abs(Rc<Expr>),
    /// The nearest whole number, halves away from zero.
    Round(Rc<Expr>),
    Add(Rc<Expr>, Rc<Expr>),
    Sub(Rc<Expr>, Rc<Expr>),
    Mul(Rc<Expr>, Rc<Expr>),
    Div(Rc<Expr>, Rc<Expr>),
    Min(Rc<Expr>, Rc<Expr>),
    Max(Rc<Expr>, Rc<Expr>),
    /// The first operand to the power of the second.
    Pow(Rc<Expr>, Rc<Expr>),
    /// The angle of the point whose ordinate comes first.
    Atan2(Rc<Expr>, Rc<Expr>),
    /// The first operand, limited to the range that the other two give.
    Clamp(Rc<Expr>, Rc<Expr>, Rc<Expr>),
    /// The first expression where the condition holds, else the second.
    Select(Rc<Cond>, Rc<Expr>, Rc<Expr>),
}

/// One recorded test.
pub enum Cond {
    Lt(Rc<Expr>, Rc<Expr>),
    Le(Rc<Expr>, Rc<Expr>),
    Gt(Rc<Expr>, Rc<Expr>),
    Ge(Rc<Expr>, Rc<Expr>),
    Ne(Rc<Expr>, Rc<Expr>),
    /// Neither infinite nor NaN.
    Finite(Rc<Expr>),
    Not(Rc<Cond>),
    And(Rc<Cond>, Rc<Cond>),
    Or(Rc<Cond>, Rc<Cond>),
}

/// A handle to a traced number.
pub struct Scalar {
    pub node: Rc<Expr>,
}

/// A handle to a traced test.
pub struct Test {
    pub node: Rc<Cond>,
}

/// `<Rc<T> as Clone>::clone`: another pointer to the same node, so the value
/// behind it is the same.
#[verifier::external_body]
pub(crate) fn share<T>(node: &Rc<T>) -> (r: Rc<T>)
    ensures
        r == *node,
{
    Rc::clone(node)
}

/// The literal `mantissa * 10^exponent`.
pub open spec fn decimal(mantissa: i64, exponent: i32) -> Scalar {
    Scalar { node: Rc::new(Expr::Lit { mantissa, exponent }) }
}

/// The single-precision number with the given bits.
pub open spec fn single(bits: u32) -> Scalar {
    Scalar { node: Rc::new(Expr::Float(bits)) }
}

/// The double-precision number with the given bits, rounded to single precision.
pub open spec fn narrow(bits: u64) -> Scalar {
    Scalar { node: Rc::new(Expr::Narrow(bits)) }
}

/// The double-precision number with the given bits.
pub open spec fn wide(bits: u64) -> Scalar {
    Scalar { node: Rc::new(Expr::Wide(bits)) }
}

/// A whole number.
pub open spec fn whole(n: i64) -> Scalar {
    decimal(n, 0)
}

impl Scalar {
    pub open spec fn spec_add(self, rhs: Scalar) -> Scalar {
        Scalar { node: Rc::new(Expr::Add(self.node, rhs.node)) }
    }

    pub open spec fn spec_sub(self, rhs: Scalar) -> Scalar {
        Scalar { node: Rc::new(Expr::Sub(self.node, rhs.node)) }
    }

    pub open spec fn spec_mul(self, rhs: Scalar) -> Scalar {
        Scalar { node: Rc::new(Expr::Mul(self.node, rhs.node)) }
    }

    pub open spec fn spec_euclidean_or_real_div(self, rhs: Scalar) -> Scalar {
        Scalar { node: Rc::new(Expr::Div(self.node, rhs.node)) }
    }

    pub open spec fn spec_neg(self) -> Scalar {
        Scalar { node: Rc::new(Expr::Neg(self.node)) }
    }

    pub open spec fn spec_sqrt(&self) -> Scalar {
        Scalar { node: Rc::new(Expr::Sqrt(self.node)) }
    }

    pub open spec fn spec_exp(&self) -> Scalar {
        Scalar { node: Rc::new(Expr::Exp(self.node)) }
    }

    pub open spec fn spec_ln(&self) -> Scalar {
        Scalar { node: Rc::new(Expr::Ln(self.node)) }
    }

    pub open spec fn spec_abs(&self) -> Scalar {
        Scalar { node: Rc::new(Expr::Abs(self.node)) }
    }

    pub open spec fn spec_round(&self) -> Scalar {
        Scalar { node: Rc::new(Expr::Round(self.node)) }
    }

    pub open spec fn spec_pow(&self, rhs: &Scalar) -> Scalar {
        Scalar { node: Rc::new(Expr::Pow(self.node, rhs.node)) }
    }

    pub open spec fn spec_min(&self, rhs: &Scalar) -> Scalar {
        Scalar { node: Rc::new(Expr::Min(self.node, rhs.node)) }
    }

    pub open spec fn spec_max(&self, rhs: &Scalar) -> Scalar {
        Scalar { node: Rc::new(Expr::Max(self.node, rhs.node)) }
    }

    pub open spec fn spec_atan2(&self, rhs: &Scalar) -> Scalar {
        Scalar { node: Rc::new(Expr::Atan2(self.node, rhs.node)) }
    }

    pub open spec fn test_lt(&self, rhs: &Scalar) -> Test {
        Test { node: Rc::new(Cond::Lt(self.node, rhs.node)) }
    }

    pub open spec fn test_le(&self, rhs: &Scalar) -> Test {
        Test { node: Rc::new(Cond::Le(self.node, rhs.node)) }
    }

    pub open spec fn test_gt(&self, rhs: &Scalar) -> Test {
        Test { node: Rc::new(Cond::Gt(self.node, rhs.node)) }
    }

    pub open spec fn test_ge(&self, rhs: &Scalar) -> Test {
        Test { node: Rc::new(Cond::Ge(self.node, rhs.node)) }
    }

    pub open spec fn test_ne(&self, rhs: &Scalar) -> Test {
        Test { node: Rc::new(Cond::Ne(self.node, rhs.node)) }
    }

    pub open spec fn test_finite(&self) -> Test {
        Test { node: Rc::new(Cond::Finite(self.node)) }
    }

    pub open spec fn spec_clamp(&self, lo: &Scalar, hi: &Scalar) -> Scalar {
        Scalar { node: Rc::new(Expr::Clamp(self.node, lo.node, hi.node)) }
    }

    /// Records a literal.
    pub fn lit(mantissa: i64, exponent: i32) -> (r: Scalar)
        ensures
            r == decimal(mantissa, exponent),
    {
        Scalar { node: Rc::new(Expr::Lit { mantissa, exponent }) }
    }

    /// Records a whole number.
    pub fn num(n: i64) -> (r: Scalar)
        ensures
            r == whole(n),
    {
        Scalar::lit(n, 0)
    }

    /// A number that the launch supplies under the given index.
    pub fn input(index: u32) -> (r: Scalar)
        ensures
            r == (Scalar { node: Rc::new(Expr::Input(index)) }),
    {
        Scalar { node: Rc::new(Expr::Input(index)) }
    }

    /// The single-precision number with the given bits.
    pub fn float(bits: u32) -> (r: Scalar)
        ensures
            r == single(bits),
    {
        Scalar { node: Rc::new(Expr::Float(bits)) }
    }

    /// The double-precision number with the given bits, rounded to single
    /// precision.
    pub fn narrowed(bits: u64) -> (r: Scalar)
        ensures
            r == narrow(bits),
    {
        Scalar { node: Rc::new(Expr::Narrow(bits)) }
    }

    /// The double-precision number with the given bits.
    pub fn wide(bits: u64) -> (r: Scalar)
        ensures
            r == wide(bits),
    {
        Scalar { node: Rc::new(Expr::Wide(bits)) }
    }

    /// The number with its sign turned.
    pub fn neg(&self) -> (r: Scalar)
        ensures
            r == -*self,
    {
        Scalar { node: Rc::new(Expr::Neg(share(&self.node))) }
    }

    /// The square root.
    #[verifier::when_used_as_spec(spec_sqrt)]
    pub fn sqrt(&self) -> (r: Scalar)
        ensures
            r == self.sqrt(),
    {
        Scalar { node: Rc::new(Expr::Sqrt(share(&self.node))) }
    }

    /// The natural exponential.
    #[verifier::when_used_as_spec(spec_exp)]
    pub fn exp(&self) -> (r: Scalar)
        ensures
            r == self.exp(),
    {
        Scalar { node: Rc::new(Expr::Exp(share(&self.node))) }
    }

    /// The natural logarithm.
    #[verifier::when_used_as_spec(spec_ln)]
    pub fn ln(&self) -> (r: Scalar)
        ensures
            r == self.ln(),
    {
        Scalar { node: Rc::new(Expr::Ln(share(&self.node))) }
    }

    /// The magnitude.
    #[verifier::when_used_as_spec(spec_abs)]
    pub fn abs(&self) -> (r: Scalar)
        ensures
            r == self.abs(),
    {
        Scalar { node: Rc::new(Expr::Abs(share(&self.node))) }
    }

    /// The nearest whole number, halves away from zero.
    #[verifier::when_used_as_spec(spec_round)]
    pub fn round(&self) -> (r: Scalar)
        ensures
            r == self.round(),
    {
        Scalar { node: Rc::new(Expr::Round(share(&self.node))) }
    }

    /// The number to the power of `rhs`.
    #[verifier::when_used_as_spec(spec_pow)]
    pub fn pow(&self, rhs: &Scalar) -> (r: Scalar)
        ensures
            r == self.pow(rhs),
    {
        Scalar { node: Rc::new(Expr::Pow(share(&self.node), share(&rhs.node))) }
    }

    /// The smaller of the two.
    #[verifier::when_used_as_spec(spec_min)]
    pub fn min(&self, rhs: &Scalar) -> (r: Scalar)
        ensures
            r == self.min(rhs),
    {
        Scalar { node: Rc::new(Expr::Min(share(&self.node), share(&rhs.node))) }
    }

    /// The larger of the two.
    #[verifier::when_used_as_spec(spec_max)]
    pub fn max(&self, rhs: &Scalar) -> (r: Scalar)
        ensures
            r == self.max(rhs),
    {
        Scalar { node: Rc::new(Expr::Max(share(&self.node), share(&rhs.node))) }
    }

    /// The angle of the point with ordinate `self` and abscissa `rhs`.
    #[verifier::when_used_as_spec(spec_atan2)]
    pub fn atan2(&self, rhs: &Scalar) -> (r: Scalar)
        ensures
            r == self.atan2(rhs),
    {
        Scalar { node: Rc::new(Expr::Atan2(share(&self.node), share(&rhs.node))) }
    }

    /// Less than.
    #[verifier::when_used_as_spec(test_lt)]
    pub fn lt(&self, rhs: &Scalar) -> (r: Test)
        ensures
            r == self.lt(rhs),
    {
        Test { node: Rc::new(Cond::Lt(share(&self.node), share(&rhs.node))) }
    }

    /// At most.
    #[verifier::when_used_as_spec(test_le)]
    pub fn le(&self, rhs: &Scalar) -> (r: Test)
        ensures
            r == self.le(rhs),
    {
        Test { node: Rc::new(Cond::Le(share(&self.node), share(&rhs.node))) }
    }

    /// Greater than.
    #[verifier::when_used_as_spec(test_gt)]
    pub fn gt(&self, rhs: &Scalar) -> (r: Test)
        ensures
            r == self.gt(rhs),
    {
        Test { node: Rc::new(Cond::Gt(share(&self.node), share(&rhs.node))) }
    }

    /// At least.
    #[verifier::when_used_as_spec(test_ge)]
    pub fn ge(&self, rhs: &Scalar) -> (r: Test)
        ensures
            r == self.ge(rhs),
    {
        Test { node: Rc::new(Cond::Ge(share(&self.node), share(&rhs.node))) }
    }

    /// Different from.
    #[verifier::when_used_as_spec(test_ne)]
    pub fn ne(&self, rhs: &Scalar) -> (r: Test)
        ensures
            r == self.ne(rhs),
    {
        Test { node: Rc::new(Cond::Ne(share(&self.node), share(&rhs.node))) }
    }

    /// Neither infinite nor NaN.
    #[verifier::when_used_as_spec(test_finite)]
    pub fn finite(&self) -> (r: Test)
        ensures
            r == self.finite(),
    {
        Test { node: Rc::new(Cond::Finite(share(&self.node))) }
    }

    /// The number, limited to the range from `lo` to `hi`.
    #[verifier::when_used_as_spec(spec_clamp)]
    pub fn clamp(&self, lo: &Scalar, hi: &Scalar) -> (r: Scalar)
        ensures
            r == self.clamp(lo, hi),
    {
        Scalar {
            node: Rc::new(
                Expr::Clamp(share(&self.node), share(&lo.node), share(&hi.node)),
            ),
        }
    }
}

impl Clone for Scalar {
    fn clone(&self) -> (r: Self)
        ensures
            r == *self,
    {
        Scalar { node: share(&self.node) }
    }
}

impl Test {
    pub open spec fn spec_not(&self) -> Test {
        Test { node: Rc::new(Cond::Not(self.node)) }
    }

    pub open spec fn spec_and(&self, rhs: &Test) -> Test {
        Test { node: Rc::new(Cond::And(self.node, rhs.node)) }
    }

    pub open spec fn spec_or(&self, rhs: &Test) -> Test {
        Test { node: Rc::new(Cond::Or(self.node, rhs.node)) }
    }

    pub open spec fn spec_select(&self, a: &Scalar, b: &Scalar) -> Scalar {
        Scalar { node: Rc::new(Expr::Select(self.node, a.node, b.node)) }
    }

    /// The test fails.
    #[verifier::when_used_as_spec(spec_not)]
    pub fn not(&self) -> (r: Test)
        ensures
            r == self.not(),
    {
        Test { node: Rc::new(Cond::Not(share(&self.node))) }
    }

    /// Both tests succeed.
    #[verifier::when_used_as_spec(spec_and)]
    pub fn and(&self, rhs: &Test) -> (r: Test)
        ensures
            r == self.and(rhs),
    {
        Test { node: Rc::new(Cond::And(share(&self.node), share(&rhs.node))) }
    }

    /// At least one of the tests succeeds.
    #[verifier::when_used_as_spec(spec_or)]
    pub fn or(&self, rhs: &Test) -> (r: Test)
        ensures
            r == self.or(rhs),
    {
        Test { node: Rc::new(Cond::Or(share(&self.node), share(&rhs.node))) }
    }

    /// `a` where the test succeeds, else `b`.
    #[verifier::when_used_as_spec(spec_select)]
    pub fn select(&self, a: &Scalar, b: &Scalar) -> (r: Scalar)
        ensures
            r == self.select(a, b),
    {
        Scalar {
            node: Rc::new(
                Expr::Select(share(&self.node), share(&a.node), share(&b.node)),
            ),
        }
    }
}

impl Clone for Test {
    fn clone(&self) -> (r: Self)
        ensures
            r == *self,
    {
        Test { node: share(&self.node) }
    }
}

} // verus!
