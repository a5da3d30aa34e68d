//! The schedule of the rate at which positions learn: it falls by the same factor
//! from step to step, from one rate at the start to another after training.
use crate::expr::algebra::{div_is_mul, div_undone, mul_assoc, mul_comm};
use crate::expr::semantics::{double_value, group_value, Model};
use crate::expr::{whole, wide, Scalar};
use crate::number::Double;
use vstd::prelude::*;

verus! {

/// The rate of the next step, before it is scaled, and the factor from one step to
/// the next. Both are recordings in double precision.
pub struct MeanSchedule {
    pub rate: Scalar,
    pub decay: Scalar,
}

pub open spec fn spec_mean_schedule(start: Double, end: Double, total_iters: u32) -> MeanSchedule {
    MeanSchedule {
        rate: wide(start.bits),
        decay: (wide(end.bits) / wide(start.bits)).pow(&(whole(1) / whole(total_iters as i64))),
    }
}

/// The schedule from `start` to `end` in so many steps.
#[verifier::when_used_as_spec(spec_mean_schedule)]
pub fn mean_schedule(start: Double, end: Double, total_iters: u32) -> (r: MeanSchedule)
    ensures
        r == mean_schedule(start, end, total_iters),
{
    MeanSchedule {
        rate: start.wide(),
        decay: (end.wide() / start.wide()).pow(
            &(Scalar::num(1) / Scalar::num(total_iters as i64)),
        ),
    }
}

impl MeanSchedule {
    /// The schedule one step on.
    pub open spec fn stepped(self) -> MeanSchedule {
        MeanSchedule { rate: self.rate * self.decay, decay: self.decay }
    }

    /// The schedule after so many steps.
    pub open spec fn after(self, steps: nat) -> MeanSchedule
        decreases steps,
    {
        if steps == 0 {
            self
        } else {
            self.after((steps - 1) as nat).stepped()
        }
    }

    /// The rate of this step, and on to the next.
    pub fn step(&mut self) -> (r: Scalar)
        ensures
            r == old(self).rate,
            *final(self) == old(self).stepped(),
    {
        let r = self.rate.clone();
        self.rate = &self.rate * &self.decay;
        r
    }

    /// Takes the number that the recorded rate came to in its place, so that the
    /// recording does not grow.
    pub fn settle(&mut self, rate: Double)
        ensures
            *final(self) == (MeanSchedule { rate: wide(rate.bits), ..*old(self) }),
    {
        self.rate = rate.wide();
    }
}

impl Model {
    /// Powers of a positive number turn sums into products.
    pub open spec fn powers(self) -> bool {
        &&& forall|x: real| x > 0real ==> #[trigger] (self.pow)(x, 0real) == 1real
        &&& forall|x: real| x > 0real ==> #[trigger] (self.pow)(x, 1real) == x
        &&& forall|x: real, a: real, b: real| x > 0real ==> #[trigger] self.power_of_sum(x, a, b)
    }

    /// The power of a sum is the product of the powers.
    pub open spec fn power_of_sum(self, x: real, a: real, b: real) -> bool {
        (self.pow)(x, a + b) == (self.pow)(x, a) * (self.pow)(x, b)
    }
}

/// The rate of the k-th step is the start times the k-th part of the whole fall:
/// the start at first, and the end after all steps.
pub proof fn lemma_mean_schedule(start: Double, end: Double, total_iters: u32, k: nat, m: Model)
    requires
        m.powers(),
        total_iters > 0,
        double_value(start.bits) > 0real,
        double_value(end.bits) > 0real,
    ensures
        ({
            let a = double_value(start.bits);
            let b = double_value(end.bits);
            let n = total_iters as real;
            let rate = mean_schedule(start, end, total_iters).after(k).rate.value(m);
            &&& rate == a * (m.pow)(b / a, k as real / n)
            &&& k == 0 ==> rate == a
            &&& k == total_iters ==> rate == b
        }),
    decreases k,
{
    broadcast use group_value;

    let a = double_value(start.bits);
    let b = double_value(end.bits);
    let n = total_iters as real;
    let q = b / a;
    div_undone(b, a);
    assert(q > 0real) by (nonlinear_arith)
        requires
            q * a == b,
            a > 0real,
            b > 0real,
    ;
    let s = mean_schedule(start, end, total_iters);
    assert(wide(start.bits).value(m) == a && wide(end.bits).value(m) == b);
    assert(whole(total_iters as i64).value(m) == n);
    assert(s.decay.value(m) == (m.pow)(q, 1real / n));
    lemma_decay_stays(s, k);
    if k == 0 {
        div_is_mul(0real, n);
        assert(0real / n == 0real) by (nonlinear_arith)
            requires
                n > 0real,
        ;
    } else {
        let j = (k - 1) as nat;
        lemma_mean_schedule(start, end, total_iters, j, m);
        lemma_decay_stays(s, j);
        let x = j as real / n;
        let y = 1real / n;
        assert(m.power_of_sum(q, x, y));
        assert(x + y == k as real / n) by (nonlinear_arith)
            requires
                n > 0real,
                x == j as real / n,
                y == 1real / n,
                k as real == j as real + 1real,
        ;
        mul_assoc(a, (m.pow)(q, x), (m.pow)(q, y));
    }
    if k == total_iters {
        assert(k as real / n == 1real) by (nonlinear_arith)
            requires
                n > 0real,
                k as real == n,
        ;
        mul_comm(a, q);
    }
}

/// The factor is the same at every step.
proof fn lemma_decay_stays(s: MeanSchedule, k: nat)
    ensures
        s.after(k).decay == s.decay,
    decreases k,
{
    if k > 0 {
        lemma_decay_stays(s, (k - 1) as nat);
    }
}

} // verus!
