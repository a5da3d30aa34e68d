//! Operators on traced numbers, for handles and for references to them.
use crate::expr::{share, Expr, Scalar};
use std::rc::Rc;
use vstd::prelude::*;

verus! {

impl std::ops::Add for Scalar {
    type Output = Scalar;

    fn add(self, rhs: Scalar) -> (r: Scalar) {
        Scalar { node: Rc::new(Expr::Add(self.node, rhs.node)) }
    }
}

impl vstd::std_specs::ops::AddSpecImpl for Scalar {
    open spec fn obeys_add_spec() -> bool {
        true
    }

    open spec fn add_req(self, rhs: Scalar) -> bool {
        true
    }

    open spec fn add_spec(self, rhs: Scalar) -> Scalar {
        self + rhs
    }
}

impl<'a> std::ops::Add<&'a Scalar> for Scalar {
    type Output = Scalar;

    fn add(self, rhs: &'a Scalar) -> (r: Scalar) {
        Scalar { node: Rc::new(Expr::Add(self.node, share(&rhs.node))) }
    }
}

impl<'a> vstd::std_specs::ops::AddSpecImpl<&'a Scalar> for Scalar {
    open spec fn obeys_add_spec() -> bool {
        true
    }

    open spec fn add_req(self, rhs: &'a Scalar) -> bool {
        true
    }

    open spec fn add_spec(self, rhs: &'a Scalar) -> Scalar {
        self + *rhs
    }
}

impl<'a> std::ops::Add<Scalar> for &'a Scalar {
    type Output = Scalar;

    fn add(self, rhs: Scalar) -> (r: Scalar) {
        Scalar { node: Rc::new(Expr::Add(share(&self.node), rhs.node)) }
    }
}

impl<'a> vstd::std_specs::ops::AddSpecImpl<Scalar> for &'a Scalar {
    open spec fn obeys_add_spec() -> bool {
        true
    }

    open spec fn add_req(self, rhs: Scalar) -> bool {
        true
    }

    open spec fn add_spec(self, rhs: Scalar) -> Scalar {
        *self + rhs
    }
}

impl<'a, 'b> std::ops::Add<&'b Scalar> for &'a Scalar {
    type Output = Scalar;

    fn add(self, rhs: &'b Scalar) -> (r: Scalar) {
        Scalar { node: Rc::new(Expr::Add(share(&self.node), share(&rhs.node))) }
    }
}

impl<'a, 'b> vstd::std_specs::ops::AddSpecImpl<&'b Scalar> for &'a Scalar {
    open spec fn obeys_add_spec() -> bool {
        true
    }

    open spec fn add_req(self, rhs: &'b Scalar) -> bool {
        true
    }

    open spec fn add_spec(self, rhs: &'b Scalar) -> Scalar {
        *self + *rhs
    }
}

impl std::ops::Sub for Scalar {
    type Output = Scalar;

    fn sub(self, rhs: Scalar) -> (r: Scalar) {
        Scalar { node: Rc::new(Expr::Sub(self.node, rhs.node)) }
    }
}

impl vstd::std_specs::ops::SubSpecImpl for Scalar {
    open spec fn obeys_sub_spec() -> bool {
        true
    }

    open spec fn sub_req(self, rhs: Scalar) -> bool {
        true
    }

    open spec fn sub_spec(self, rhs: Scalar) -> Scalar {
        self - rhs
    }
}

impl<'a> std::ops::Sub<&'a Scalar> for Scalar {
    type Output = Scalar;

    fn sub(self, rhs: &'a Scalar) -> (r: Scalar) {
        Scalar { node: Rc::new(Expr::Sub(self.node, share(&rhs.node))) }
    }
}

impl<'a> vstd::std_specs::ops::SubSpecImpl<&'a Scalar> for Scalar {
    open spec fn obeys_sub_spec() -> bool {
        true
    }

    open spec fn sub_req(self, rhs: &'a Scalar) -> bool {
        true
    }

    open spec fn sub_spec(self, rhs: &'a Scalar) -> Scalar {
        self - *rhs
    }
}

impl<'a> std::ops::Sub<Scalar> for &'a Scalar {
    type Output = Scalar;

    fn sub(self, rhs: Scalar) -> (r: Scalar) {
        Scalar { node: Rc::new(Expr::Sub(share(&self.node), rhs.node)) }
    }
}

impl<'a> vstd::std_specs::ops::SubSpecImpl<Scalar> for &'a Scalar {
    open spec fn obeys_sub_spec() -> bool {
        true
    }

    open spec fn sub_req(self, rhs: Scalar) -> bool {
        true
    }

    open spec fn sub_spec(self, rhs: Scalar) -> Scalar {
        *self - rhs
    }
}

impl<'a, 'b> std::ops::Sub<&'b Scalar> for &'a Scalar {
    type Output = Scalar;

    fn sub(self, rhs: &'b Scalar) -> (r: Scalar) {
        Scalar { node: Rc::new(Expr::Sub(share(&self.node), share(&rhs.node))) }
    }
}

impl<'a, 'b> vstd::std_specs::ops::SubSpecImpl<&'b Scalar> for &'a Scalar {
    open spec fn obeys_sub_spec() -> bool {
        true
    }

    open spec fn sub_req(self, rhs: &'b Scalar) -> bool {
        true
    }

    open spec fn sub_spec(self, rhs: &'b Scalar) -> Scalar {
        *self - *rhs
    }
}

impl std::ops::Mul for Scalar {
    type Output = Scalar;

    fn mul(self, rhs: Scalar) -> (r: Scalar) {
        Scalar { node: Rc::new(Expr::Mul(self.node, rhs.node)) }
    }
}

impl vstd::std_specs::ops::MulSpecImpl for Scalar {
    open spec fn obeys_mul_spec() -> bool {
        true
    }

    open spec fn mul_req(self, rhs: Scalar) -> bool {
        true
    }

    open spec fn mul_spec(self, rhs: Scalar) -> Scalar {
        self * rhs
    }
}

impl<'a> std::ops::Mul<&'a Scalar> for Scalar {
    type Output = Scalar;

    fn mul(self, rhs: &'a Scalar) -> (r: Scalar) {
        Scalar { node: Rc::new(Expr::Mul(self.node, share(&rhs.node))) }
    }
}

impl<'a> vstd::std_specs::ops::MulSpecImpl<&'a Scalar> for Scalar {
    open spec fn obeys_mul_spec() -> bool {
        true
    }

    open spec fn mul_req(self, rhs: &'a Scalar) -> bool {
        true
    }

    open spec fn mul_spec(self, rhs: &'a Scalar) -> Scalar {
        self * *rhs
    }
}

impl<'a> std::ops::Mul<Scalar> for &'a Scalar {
    type Output = Scalar;

    fn mul(self, rhs: Scalar) -> (r: Scalar) {
        Scalar { node: Rc::new(Expr::Mul(share(&self.node), rhs.node)) }
    }
}

impl<'a> vstd::std_specs::ops::MulSpecImpl<Scalar> for &'a Scalar {
    open spec fn obeys_mul_spec() -> bool {
        true
    }

    open spec fn mul_req(self, rhs: Scalar) -> bool {
        true
    }

    open spec fn mul_spec(self, rhs: Scalar) -> Scalar {
        *self * rhs
    }
}

impl<'a, 'b> std::ops::Mul<&'b Scalar> for &'a Scalar {
    type Output = Scalar;

    fn mul(self, rhs: &'b Scalar) -> (r: Scalar) {
        Scalar { node: Rc::new(Expr::Mul(share(&self.node), share(&rhs.node))) }
    }
}

impl<'a, 'b> vstd::std_specs::ops::MulSpecImpl<&'b Scalar> for &'a Scalar {
    open spec fn obeys_mul_spec() -> bool {
        true
    }

    open spec fn mul_req(self, rhs: &'b Scalar) -> bool {
        true
    }

    open spec fn mul_spec(self, rhs: &'b Scalar) -> Scalar {
        *self * *rhs
    }
}

impl std::ops::Div for Scalar {
    type Output = Scalar;

    fn div(self, rhs: Scalar) -> (r: Scalar) {
        Scalar { node: Rc::new(Expr::Div(self.node, rhs.node)) }
    }
}

impl vstd::std_specs::ops::DivSpecImpl for Scalar {
    open spec fn obeys_div_spec() -> bool {
        true
    }

    open spec fn div_req(self, rhs: Scalar) -> bool {
        true
    }

    open spec fn div_spec(self, rhs: Scalar) -> Scalar {
        self / rhs
    }
}

impl<'a> std::ops::Div<&'a Scalar> for Scalar {
    type Output = Scalar;

    fn div(self, rhs: &'a Scalar) -> (r: Scalar) {
        Scalar { node: Rc::new(Expr::Div(self.node, share(&rhs.node))) }
    }
}

impl<'a> vstd::std_specs::ops::DivSpecImpl<&'a Scalar> for Scalar {
    open spec fn obeys_div_spec() -> bool {
        true
    }

    open spec fn div_req(self, rhs: &'a Scalar) -> bool {
        true
    }

    open spec fn div_spec(self, rhs: &'a Scalar) -> Scalar {
        self / *rhs
    }
}

impl<'a> std::ops::Div<Scalar> for &'a Scalar {
    type Output = Scalar;

    fn div(self, rhs: Scalar) -> (r: Scalar) {
        Scalar { node: Rc::new(Expr::Div(share(&self.node), rhs.node)) }
    }
}

impl<'a> vstd::std_specs::ops::DivSpecImpl<Scalar> for &'a Scalar {
    open spec fn obeys_div_spec() -> bool {
        true
    }

    open spec fn div_req(self, rhs: Scalar) -> bool {
        true
    }

    open spec fn div_spec(self, rhs: Scalar) -> Scalar {
        *self / rhs
    }
}

impl<'a, 'b> std::ops::Div<&'b Scalar> for &'a Scalar {
    type Output = Scalar;

    fn div(self, rhs: &'b Scalar) -> (r: Scalar) {
        Scalar { node: Rc::new(Expr::Div(share(&self.node), share(&rhs.node))) }
    }
}

impl<'a, 'b> vstd::std_specs::ops::DivSpecImpl<&'b Scalar> for &'a Scalar {
    open spec fn obeys_div_spec() -> bool {
        true
    }

    open spec fn div_req(self, rhs: &'b Scalar) -> bool {
        true
    }

    open spec fn div_spec(self, rhs: &'b Scalar) -> Scalar {
        *self / *rhs
    }
}

} // verus!
