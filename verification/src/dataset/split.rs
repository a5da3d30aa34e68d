//! Taking every so many frames, and setting some aside for evaluation.
use vstd::arithmetic::div_mod::*;
use vstd::prelude::*;

verus! {

/// How many of `n` frames are taken, one in every `step`, `max` at most.
pub open spec fn taken_count(n: int, step: int, max: int) -> int {
    let all = (n + step - 1) / step;
    if all <= max {
        all
    } else {
        max
    }
}

/// The frames that are taken: the first, and then every `step`-th.
pub open spec fn taken_frames(n: int, step: int, max: int) -> Seq<int> {
    Seq::new(taken_count(n, step, max) as nat, |k: int| k * step)
}

/// The frames that are taken: the first, and then every `step`-th, `max` at most.
pub fn take_frames(n: usize, step: usize, max: usize) -> (r: Vec<usize>)
    requires
        step > 0,
    ensures
        r@.map_values(|i: usize| i as int) == taken_frames(n as int, step as int, max as int),
        forall|k: int| 0 <= k < r@.len() ==> #[trigger] r@[k] < n,
{
    let mut r: Vec<usize> = Vec::new();
    let mut next: usize = 0;
    let mut more: bool = n > 0;
    proof {
        lemma_count_at_end(n as int, step as int, 0);
    }
    while more && r.len() < max
        invariant
            step > 0,
            r@.len() <= max,
            more ==> next < n,
            more ==> next == r@.len() * step,
            !more ==> r@.len() == (n + step - 1) / step as int,
            r@.len() <= (n + step - 1) / step as int,
            forall|k: int| 0 <= k < r@.len() ==> #[trigger] r@[k] < n,
            forall|k: int| 0 <= k < r@.len() ==> #[trigger] r@[k] == k * step,
        decreases n - r@.len(), more as int,
    {
        let ghost k = r@.len() as int;
        proof {
            lemma_count_at_end(n as int, step as int, k);
            assert((k + 1) * step == k * step + step) by (nonlinear_arith);
            assert(k <= k * step) by (nonlinear_arith)
                requires
                    k >= 0,
                    step >= 1,
            ;
        }
        r.push(next);
        if n - next > step {
            next = next + step;
            proof {
                lemma_count_at_end(n as int, step as int, k + 1);
            }
        } else {
            more = false;
        }
    }
    assert(r@.map_values(|i: usize| i as int) =~= taken_frames(
        n as int,
        step as int,
        max as int,
    ));
    r
}

/// The frames that are taken are the multiples of `step` among the frames, in order, and
/// all of them but for the limit.
pub proof fn lemma_taken_frames(n: int, step: int, max: int)
    requires
        n >= 0,
        step > 0,
        max >= 0,
    ensures
        ({
            let taken = taken_frames(n, step, max);
            &&& taken.len() <= max
            &&& forall|k: int|
                0 <= k < taken.len() ==> (#[trigger] taken[k]) == k * step && taken[k] < n
            &&& taken.len() < max ==> taken.len() * step >= n
        }),
{
    let taken = taken_frames(n, step, max);
    let all = (n + step - 1) / step;
    lemma_count_at_end(n, step, 0);
    lemma_fundamental_div_mod(n + step - 1, step);
    let m = (n + step - 1) % step;
    assert forall|k: int| 0 <= k < taken.len() implies (#[trigger] taken[k]) == k * step && taken[k]
        < n by {
        assert(k * step < n) by (nonlinear_arith)
            requires
                n + step - 1 == step * all + m,
                0 <= m < step,
                k + 1 <= all,
                step > 0,
        ;
    }
    assert(all * step >= n) by (nonlinear_arith)
        requires
            n + step - 1 == step * all + m,
            0 <= m < step,
            step > 0,
    ;
}

/// Where the multiples of `step` leave `n`.
proof fn lemma_count_at_end(n: int, step: int, k: int)
    requires
        n >= 0,
        step > 0,
        k >= 0,
    ensures
        k * step < n ==> k < (n + step - 1) / step,
        k * step < n && n - k * step <= step ==> k + 1 == (n + step - 1) / step,
        n == 0 ==> (n + step - 1) / step == 0,
        (n + step - 1) / step >= 0,
{
    let q = (n + step - 1) / step;
    let m = (n + step - 1) % step;
    lemma_fundamental_div_mod(n + step - 1, step);
    lemma_div_pos_is_pos(n + step - 1, step);
    assert(n + step - 1 == step * q + m);
    if n == 0 {
        lemma_small_div(step - 1, step);
    }
    if k * step < n {
        assert(k < q) by (nonlinear_arith)
            requires
                n + step - 1 == step * q + m,
                0 <= m < step,
                k * step < n,
                step > 0,
        ;
    }
    if k * step < n && n - k * step <= step {
        assert(k + 1 >= q) by (nonlinear_arith)
            requires
                n + step - 1 == step * q + m,
                0 <= m < step,
                n - k * step <= step,
                step > 0,
        ;
    }
}

proof fn lemma_small_div(a: int, b: int)
    requires
        0 <= a < b,
    ensures
        a / b == 0,
{
    lemma_fundamental_div_mod(a, b);
    lemma_small_mod(a as nat, b as nat);
    assert(b * (a / b) == 0);
    assert(a / b == 0) by (nonlinear_arith)
        requires
            b * (a / b) == 0,
            b > 0,
    ;
}

/// The views at the multiples of `every`, or the others.
pub open spec fn share<V>(views: Seq<V>, every: int, multiples: bool) -> Seq<V>
    decreases views.len(),
{
    if views.len() == 0 {
        Seq::empty()
    } else {
        let before = share(views.drop_last(), every, multiples);
        if ((views.len() - 1) % every == 0) == multiples {
            before.push(views.last())
        } else {
            before
        }
    }
}

/// The training views, then those for evaluation: every so many, if any.
pub open spec fn eval_split<V>(views: Seq<V>, every: Option<usize>) -> (Seq<V>, Seq<V>) {
    match every {
        Some(every) => (share(views, every as int, false), share(views, every as int, true)),
        None => (views, Seq::empty()),
    }
}

/// Sets one in every so many views aside for evaluation, the first among them.
pub fn split_eval_every<V>(views: Vec<V>, every: Option<usize>) -> (r: (Vec<V>, Vec<V>))
    requires
        every matches Some(every) ==> every > 0 || views@.len() == 0,
    ensures
        (r.0@, r.1@) == eval_split(views@, every),
{
    let every = match every {
        Some(every) => every,
        None => {
            return (views, Vec::new());
        },
    };
    let mut train: Vec<V> = Vec::new();
    let mut eval: Vec<V> = Vec::new();
    let ghost all = views@;
    let mut i: usize = 0;
    let n: usize = views.len();
    for view in iter: views
        invariant
            iter.seq() == all,
            i == iter.index(),
            n == all.len(),
            every > 0 || n == 0,
            train@ == share(all.take(i as int), every as int, false),
            eval@ == share(all.take(i as int), every as int, true),
    {
        assert(all.take(i + 1).drop_last() == all.take(i as int));
        assert(all.take(i + 1).last() == view);
        if i % every == 0 {
            eval.push(view);
        } else {
            train.push(view);
        }
        i = i + 1;
    }
    assert(all.take(n as int) == all);
    (train, eval)
}

/// The `k`-th view for evaluation is the view at `k` times `every`.
pub open spec fn is_multiple<V>(views: Seq<V>, every: int, k: int) -> bool {
    0 <= k * every < views.len() && share(views, every, true)[k] == views[k * every]
}

/// The split loses nothing and repeats nothing: the views for evaluation are
/// those at the multiples of `every`, and the others are for training, each in
/// their order.
pub proof fn lemma_split_is_partition<V>(views: Seq<V>, every: int)
    requires
        every > 0,
    ensures
        share(views, every, true).len() + share(views, every, false).len() == views.len(),
        share(views, every, true).to_multiset().add(share(views, every, false).to_multiset())
            == views.to_multiset(),
        share(views, every, true).len() == (views.len() + every - 1) / every,
        forall|k: int|
            0 <= k < share(views, every, true).len() ==> #[trigger] is_multiple(views, every, k),
    decreases views.len(),
{
    broadcast use vstd::seq_lib::group_to_multiset_ensures;

    if views.len() == 0 {
        lemma_count_at_end(0, every, 0);
        assert(share(views, every, true).to_multiset().add(
            share(views, every, false).to_multiset(),
        ) =~= views.to_multiset());
    } else {
        let init = views.drop_last();
        let n = init.len() as int;
        lemma_split_is_partition(init, every);
        let eval = share(init, every, true);
        let train = share(init, every, false);
        assert(views =~= init.push(views.last()));
        assert(share(views, every, true).to_multiset().add(
            share(views, every, false).to_multiset(),
        ) =~= views.to_multiset());
        lemma_fundamental_div_mod(n, every);
        lemma_fundamental_div_mod(n + every - 1, every);
        let q = n / every;
        let m = n % every;
        let p = (n + every - 1) / every;
        let r = (n + every - 1) % every;
        if m == 0 {
            assert(p == q) by (nonlinear_arith)
                requires
                    n == every * q + m,
                    n + every - 1 == every * p + r,
                    0 <= r < every,
                    m == 0,
                    every > 0,
            ;
            assert(n + every == (q + 1) * every + 0) by (nonlinear_arith)
                requires
                    n == every * q + m,
                    m == 0,
            ;
            lemma_fundamental_div_mod_converse(n + every, every, q + 1, 0);
            assert(q * every == n) by (nonlinear_arith)
                requires
                    n == every * q + m,
                    m == 0,
            ;
            assert forall|k: int| 0 <= k < share(views, every, true).len() implies
                #[trigger] is_multiple(views, every, k) by {
                if k < eval.len() {
                    assert(is_multiple(init, every, k));
                } else {
                    assert(k == q);
                    assert(share(views, every, true)[k] == views.last());
                }
            }
        } else {
            assert(p == q + 1) by (nonlinear_arith)
                requires
                    n == every * q + m,
                    n + every - 1 == every * p + r,
                    0 <= r < every,
                    0 < m < every,
                    every > 0,
            ;
            assert(n + every == (q + 1) * every + m) by (nonlinear_arith)
                requires
                    n == every * q + m,
            ;
            lemma_fundamental_div_mod_converse(n + every, every, q + 1, m);
            assert forall|k: int| 0 <= k < share(views, every, true).len() implies
                #[trigger] is_multiple(views, every, k) by {
                assert(is_multiple(init, every, k));
            }
        }
    }
}

/// Where each view goes: with `i = q every + r`, the view `i` is the `q`-th for evaluation
/// where `r` is zero, and otherwise stands among the views for training behind the `i - q
/// - 1` that come before it.
pub proof fn lemma_split_keeps_order<V>(views: Seq<V>, every: int, q: int, r: int)
    requires
        every > 0,
        0 <= q,
        0 <= r < every,
        q * every + r < views.len(),
    ensures
        ({
            let i = q * every + r;
            let eval = share(views, every, true);
            let train = share(views, every, false);
            &&& eval.len() + train.len() == views.len()
            &&& r == 0 ==> q < eval.len() && eval[q] == views[i]
            &&& r > 0 ==> 0 <= i - q - 1 < train.len() && train[i - q - 1] == views[i]
        }),
    decreases views.len(),
{
    let i = q * every + r;
    let init = views.drop_last();
    let last = init.len() as int;
    lemma_split_is_partition(views, every);
    lemma_split_is_partition(init, every);
    lemma_fundamental_div_mod_converse(i, every, q, r);
    assert(0 <= i) by (nonlinear_arith)
        requires
            i == q * every + r,
            q >= 0,
            every > 0,
            r >= 0,
    ;
    if i < last {
        lemma_split_keeps_order(init, every, q, r);
        assert(init[i] == views[i]);
    } else {
        let count = share(init, every, true).len() as int;
        assert(views.last() == views[i]);
        lemma_fundamental_div_mod(i + every - 1, every);
        let p = (i + every - 1) / every;
        let m = (i + every - 1) % every;
        assert(count == p);
        assert(r == 0 ==> p == q) by (nonlinear_arith)
            requires
                i == q * every + r,
                i + every - 1 == every * p + m,
                0 <= m < every,
                0 <= r < every,
        ;
        assert(r > 0 ==> p == q + 1) by (nonlinear_arith)
            requires
                i == q * every + r,
                i + every - 1 == every * p + m,
                0 <= m < every,
                0 <= r < every,
        ;
    }
}

} // verus!
