//! Pruning: dropping the splats that a mask names, in every parameter, in the
//! optimizer's moments and in the statistics.
use crate::expr::Scalar;
use crate::train::collections::OptimRecord;
use crate::train::record::{map_splats_and_opt, AdamState, Splats};
use crate::train::table::{in_range, selected, zero_row, Table};
use vstd::prelude::*;

verus! {

/// What is gathered per splat between two refinements: the largest gradient of
/// its position in the image, its largest extent on screen, and whether it was
/// seen.
pub struct RefineRecord {
    pub refine_weight_norm: Vec<Scalar>,
    pub max_screen_size: Vec<Scalar>,
    pub visible: Vec<Scalar>,
}

/// The numbers that the indices name, in their order.
pub open spec fn picked(column: Seq<Scalar>, inds: Seq<i32>) -> Seq<Scalar> {
    inds.map_values(|i: i32| column[i as int])
}

/// The numbers that the indices name, in their order.
pub fn pick(column: &Vec<Scalar>, inds: &Vec<i32>) -> (r: Vec<Scalar>)
    requires
        in_range(inds@, column@.len()),
    ensures
        r@ == picked(column@, inds@),
        r@.len() == inds@.len(),
        forall|k: int| 0 <= k < inds@.len() ==> #[trigger] r@[k] == column@[inds@[k] as int],
{
    let mut r: Vec<Scalar> = Vec::new();
    let mut i: usize = 0;
    while i < inds.len()
        invariant
            i <= inds@.len(),
            in_range(inds@, column@.len()),
            r@ == picked(column@, inds@.take(i as int)),
        decreases inds@.len() - i,
    {
        r.push(column[inds[i] as usize].clone());
        i = i + 1;
        assert(r@ == picked(column@, inds@.take(i as int)));
    }
    assert(inds@.take(inds@.len() as int) == inds@);
    r
}

/// A column of zeros.
fn zero_column(n: usize) -> (r: Vec<Scalar>)
    ensures
        r@ == zero_row(n as nat),
{
    let mut r: Vec<Scalar> = Vec::new();
    let mut i: usize = 0;
    while i < n
        invariant
            i <= n,
            r@ == zero_row(i as nat),
        decreases n - i,
    {
        r.push(Scalar::num(0));
        i = i + 1;
        assert(r@ =~= zero_row(i as nat));
    }
    r
}

impl RefineRecord {
    /// There is an entry for each of `n` splats.
    pub open spec fn has_rows(&self, n: nat) -> bool {
        &&& self.refine_weight_norm@.len() == n
        &&& self.max_screen_size@.len() == n
        &&& self.visible@.len() == n
    }

    /// `self` holds what `before` holds of the splats that the indices name.
    pub open spec fn kept_from(&self, before: &RefineRecord, inds: Seq<i32>) -> bool {
        &&& self.refine_weight_norm@ == picked(before.refine_weight_norm@, inds)
        &&& self.max_screen_size@ == picked(before.max_screen_size@, inds)
        &&& self.visible@ == picked(before.visible@, inds)
    }

    /// Nothing has been gathered of `n` splats.
    pub fn new(n: usize) -> (r: RefineRecord)
        ensures
            r.refine_weight_norm@ == zero_row(n as nat),
            r.max_screen_size@ == zero_row(n as nat),
            r.visible@ == zero_row(n as nat),
    {
        RefineRecord {
            refine_weight_norm: zero_column(n),
            max_screen_size: zero_column(n),
            visible: zero_column(n),
        }
    }

    /// Keeps the splats that the indices name.
    pub fn keep(self, inds: &Vec<i32>) -> (r: RefineRecord)
        requires
            self.has_rows(self.visible@.len()),
            in_range(inds@, self.visible@.len()),
        ensures
            r.kept_from(&self, inds@),
    {
        RefineRecord {
            refine_weight_norm: pick(&self.refine_weight_norm, inds),
            max_screen_size: pick(&self.max_screen_size, inds),
            visible: pick(&self.visible, inds),
        }
    }
}

/// The indices that the mask does not name, in order.
pub open spec fn survivors(prune: Seq<bool>) -> Seq<i32>
    decreases prune.len(),
{
    if prune.len() == 0 {
        Seq::empty()
    } else {
        let before = survivors(prune.drop_last());
        if prune.last() {
            before
        } else {
            before.push((prune.len() - 1) as i32)
        }
    }
}

/// The survivors are exactly the indices that the mask does not name, each
/// once, in increasing order.
pub proof fn lemma_survivors(prune: Seq<bool>)
    requires
        prune.len() <= i32::MAX,
    ensures
        survivors(prune).len() <= prune.len(),
        in_range(survivors(prune), prune.len()),
        forall|a: int, b: int|
            0 <= a < b < survivors(prune).len() ==> survivors(prune)[a] < survivors(prune)[b],
        survivors(prune).no_duplicates(),
        forall|i: int|
            0 <= i < prune.len() ==> (survivors(prune).contains(i as i32) <==> !(
            #[trigger] prune[i])),
        survivors(prune).len() == prune.len() ==> survivors(prune) == Seq::new(
            prune.len(),
            |i: int| i as i32,
        ),
    decreases prune.len(),
{
    if prune.len() > 0 {
        let init = prune.drop_last();
        lemma_survivors(init);
        let n = init.len() as int;
        let before = survivors(init);
        let s = survivors(prune);
        assert forall|i: int| 0 <= i < prune.len() implies (s.contains(i as i32) <==> !(
        #[trigger] prune[i])) by {
            if i < n {
                assert(init[i] == prune[i]);
                if !prune[i] {
                    let k = choose|k: int| 0 <= k < before.len() && before[k] == i as i32;
                    assert(s[k] == i as i32);
                } else if s.contains(i as i32) {
                    let k = choose|k: int| 0 <= k < s.len() && s[k] == i as i32;
                    assert(k < before.len());
                    assert(before[k] == i as i32);
                }
            } else {
                if !prune[i] {
                    assert(s[s.len() - 1] == i as i32);
                } else if s.contains(i as i32) {
                    let k = choose|k: int| 0 <= k < s.len() && s[k] == i as i32;
                    assert(before[k] == i as i32);
                }
            }
        }
        if s.len() == prune.len() {
            assert(s =~= Seq::new(prune.len(), |i: int| i as i32));
        }
    }
}

/// The indices that the mask does not name, in order.
pub fn surviving_indices(prune: &Vec<bool>) -> (r: Vec<i32>)
    requires
        prune@.len() <= i32::MAX,
    ensures
        r@ == survivors(prune@),
{
    let mut r: Vec<i32> = Vec::new();
    let mut i: usize = 0;
    while i < prune.len()
        invariant
            i <= prune@.len() <= i32::MAX,
            r@ == survivors(prune@.take(i as int)),
        decreases prune@.len() - i,
    {
        assert(prune@.take(i + 1).drop_last() == prune@.take(i as int));
        if !prune[i] {
            r.push(i as i32);
        }
        i = i + 1;
    }
    assert(prune@.take(prune@.len() as int) == prune@);
    r
}

/// `after` holds what `before` holds of the splats that the indices name: their
/// parameters, and the moments of those.
pub open spec fn splats_kept(
    before: Splats,
    record_before: Map<u64, AdamState>,
    after: Splats,
    record_after: Map<u64, AdamState>,
    inds: Seq<i32>,
) -> bool {
    let t = before.transforms.id;
    let s = before.sh_coeffs.id;
    let o = before.raw_opacities.id;
    let keep = |rows: Seq<Seq<Scalar>>| selected(rows, inds);
    &&& after.same_ids(&before)
    &&& after.transforms.value@ == selected(before.transforms.value@, inds)
    &&& after.sh_coeffs.value@ == selected(before.sh_coeffs.value@, inds)
    &&& after.raw_opacities.value@ == selected(before.raw_opacities.value@, inds)
    &&& record_after == record_before.insert(t, record_after[t]).insert(
        s,
        record_after[s],
    ).insert(o, record_after[o])
    &&& record_after[t].mapped(record_before[t], keep)
    &&& record_after[s].mapped(record_before[s], keep)
    &&& record_after[o].mapped(record_before[o], keep)
}

/// Drops the splats that the mask names, unless it names them all, and says how
/// many were dropped.
pub fn prune_points(
    splats: Splats,
    record: &mut OptimRecord,
    refiner: RefineRecord,
    prune: &Vec<bool>,
) -> (r: (Splats, RefineRecord, u32))
    requires
        splats.wf(),
        splats.tracked_by(old(record)@),
        refiner.has_rows(splats.count()),
        prune@.len() == splats.count(),
    ensures
        r.0.wf(),
        r.0.same_ids(&splats),
        r.0.tracked_by(final(record)@),
        r.1.has_rows(r.0.count()),
        ({
            let kept = survivors(prune@);
            if kept.len() == 0 || kept.len() == prune@.len() {
                &&& r == (splats, refiner, 0u32)
                &&& final(record)@ == old(record)@
            } else {
                &&& splats_kept(splats, old(record)@, r.0, final(record)@, kept)
                &&& r.1.kept_from(&refiner, kept)
                &&& r.0.count() == kept.len()
                &&& r.2 == prune@.len() - kept.len()
            }
        }),
{
    let kept = surviving_indices(prune);
    proof {
        lemma_survivors(prune@);
    }
    if kept.len() == 0 || kept.len() == prune.len() {
        return (splats, refiner, 0);
    }
    let start_splats: u32 = splats.num_splats();
    let new_points: u32 = kept.len() as u32;
    let keep = |x: Table| -> (r: Table)
        requires
            in_range(kept@, x@.len()),
        ensures
            r@ == selected(x@, kept@),
        { x.select(&kept) };
    let r = map_splats_and_opt(splats, record, keep, keep, keep, keep, keep, keep);
    let refiner = refiner.keep(&kept);
    (r, refiner, start_splats - new_points)
}

/// What is kept of the splats: each survivor has the parameters and the moments that it had,
/// and the statistics go with it.
pub proof fn lemma_kept_rows(
    before: Splats,
    record_before: Map<u64, AdamState>,
    after: Splats,
    record_after: Map<u64, AdamState>,
    statistics_before: RefineRecord,
    statistics_after: RefineRecord,
    inds: Seq<i32>,
    k: int,
)
    requires
        splats_kept(before, record_before, after, record_after, inds),
        statistics_after.kept_from(&statistics_before, inds),
        0 <= k < inds.len(),
    ensures
        ({
            let i = inds[k] as int;
            &&& after.transforms.value@.len() == inds.len()
            &&& after.transforms.value@[k] == before.transforms.value@[i]
            &&& after.sh_coeffs.value@[k] == before.sh_coeffs.value@[i]
            &&& after.raw_opacities.value@[k] == before.raw_opacities.value@[i]
            &&& statistics_after.refine_weight_norm@[k] == statistics_before.refine_weight_norm@[i]
            &&& statistics_after.max_screen_size@[k] == statistics_before.max_screen_size@[i]
            &&& statistics_after.visible@[k] == statistics_before.visible@[i]
        }),
        forall|id: u64|
            #![trigger record_after[id]]
            id == before.transforms.id || id == before.sh_coeffs.id || id
                == before.raw_opacities.id ==> {
                record_before[id].momentum matches Some(old_moments) ==> {
                    &&& record_after[id].momentum is Some
                    &&& record_after[id].momentum->0.moment_1@[k]
                        == old_moments.moment_1@[inds[k] as int]
                    &&& record_after[id].momentum->0.moment_2@[k]
                        == old_moments.moment_2@[inds[k] as int]
                }
            },
{
}

} // verus!
