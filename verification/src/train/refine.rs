//! Refinement: dead splats are dropped and replaced, splats that are too large
//! are split, and the scene grows where its error is.
//!
//! Several decisions wait for numbers that only the device has. A refinement is
//! therefore a sequence of steps, each of which takes what came back:
//!
//! 1. [`SplatTrainer::refine`] says which splats are to be dropped.
//! 2. [`RefineStart::prune`] drops them.
//! 3. [`RefineSession::replacement`] asks for as many indices as were dropped,
//!    and [`RefineSession::add_resampled`] takes them.
//! 4. [`RefineSession::add_oversized`] takes the splats that are too large.
//! 5. [`RefineSession::growth_quota`] says how many more indices to draw,
//!    [`RefineSession::growth_weights`] by which weights, and
//!    [`RefineSession::add_growth`] takes them.
//! 6. [`RefineSession::plan`] and [`SplatTrainer::apply_split`] split.
//! 7. [`SplatTrainer::prune_degenerate`] drops what came out unusable.
//! 8. [`SplatTrainer::finish_refine`] closes the refinement.
use crate::cube::Vec3A;
use crate::expr::{single, whole, Scalar};
use crate::number::Single;
use crate::train::collections::{IndexSet, OptimRecord};
use crate::train::masks::{prune_masks, pruned, PruneMasks};
use crate::train::min_scale::{compute_min_scale, least_pixel_size, MIN_SCALE_FACTOR};
use crate::train::prune::{prune_points, splats_kept, survivors, RefineRecord};
use crate::train::record::Splats;
use crate::train::refine_splats::{
    child_opacities, child_rows, decayed, opacity_updates, parent_updates, plan_split,
    refine_splats, reset_moments, SplitPlan,
};
use crate::train::split::{opacity_decay, row_of, split_shape};
use crate::train::table::{in_range, scattered, selected};
use crate::train::trainer::{BoundingBox, SplatTrainer, TrainConfig, TrainerCall};
use vstd::prelude::*;

verus! {

/// The bits of the share of the splats that bounds the scene: eight tenths, in
/// single precision.
pub const BOUND_PERCENTILE: u32 = 0x3f4c_cccd;

/// What a refinement starts from, once the trainer has let go of it.
pub struct RefineStart {
    pub splats: Splats,
    pub record: OptimRecord,
    pub refiner: RefineRecord,
    pub masks: PruneMasks,
}

/// A refinement on its way: the splats that are left, and those among them that
/// will be split.
pub struct RefineSession {
    pub splats: Splats,
    pub record: OptimRecord,
    pub refiner: RefineRecord,
    pub split_inds: IndexSet,
    pub pruned_count: u32,
    pub num_pruned_non_finite: u32,
    pub num_split_oversized: u32,
    pub num_split_high_grad: u32,
}

/// Draw as many indices, by these weights, as splats were dropped.
pub struct Replacement {
    pub weights: Vec<Scalar>,
    pub count: u32,
}

/// A refinement that is about to split.
pub struct RefineSplit {
    pub splats: Splats,
    pub record: OptimRecord,
    pub plan: SplitPlan,
    pub counts: RefineCounts,
}

/// How many splats each part of a refinement touched.
#[derive(Clone, Copy, Debug, PartialEq, Eq, Structural)]
pub struct RefineCounts {
    pub num_added: u32,
    pub num_split_oversized: u32,
    pub num_split_high_grad: u32,
    pub num_pruned: u32,
    pub num_pruned_non_finite: u32,
}

/// What a refinement reports.
#[derive(Clone, Copy, Debug, PartialEq, Eq, Structural)]
pub struct RefineStats {
    pub num_added: u32,
    pub num_split_oversized: u32,
    pub num_split_high_grad: u32,
    pub num_pruned: u32,
    pub num_pruned_non_finite: u32,
    pub total_splats: u32,
}

impl SplatTrainer {
    /// A refinement can start: statistics have been gathered, and the optimizer
    /// has taken a step.
    pub open spec fn can_refine(&self, splats: &Splats) -> bool {
        &&& self.refine_record matches Some(refiner) && refiner.has_rows(splats.count())
        &&& self.optim matches Some(record) && splats.tracked_by(record@)
    }

    /// Begins a refinement: the trainer lets go of the statistics and of the
    /// optimizer, and says which splats are to be dropped. This happens whether
    /// or not the scene still grows.
    pub fn refine(
        &mut self,
        splats: Splats,
        opacities: &Vec<Scalar>,
        scales: &Vec<Vec3A>,
    ) -> (r: RefineStart)
        requires
            splats.wf(),
            old(self).can_refine(&splats),
            opacities@.len() == splats.count(),
            scales@.len() == splats.count(),
        ensures
            r.splats == splats,
            r.record == old(self).optim->0,
            r.refiner == old(self).refine_record->0,
            r.masks.prune@ == Seq::new(
                splats.count(),
                |i: int| pruned(&splats, opacities@, scales@, &old(self).bounds, i),
            ),
            r.masks.non_finite@ == Seq::new(splats.count(), |i: int| splats.non_finite(i)),
            *final(self) == (SplatTrainer { refine_record: None, optim: None, ..*old(self) }),
            TrainerCall::Refine.leads(*old(self), *final(self)),
    {
        let refiner = self.refine_record.take().unwrap();
        let record = self.optim.take().unwrap();
        let masks = prune_masks(&splats, opacities, scales, &self.bounds);
        RefineStart { splats, record, refiner, masks }
    }
}

impl RefineStart {
    /// Drops the splats of the mask, unless that would leave none. `non_finite`
    /// says which are not finite.
    pub fn prune(self, prune: &Vec<bool>, non_finite: &Vec<bool>) -> (r: RefineSession)
        requires
            self.splats.wf(),
            self.splats.tracked_by(self.record@),
            self.refiner.has_rows(self.splats.count()),
            prune@.len() == self.splats.count(),
            non_finite@.len() == self.splats.count(),
        ensures
            r.wf(),
            r.splats.same_ids(&self.splats),
            r.split_inds@ == Set::<i32>::empty(),
            r.num_pruned_non_finite == count_set(non_finite@),
            r.num_split_oversized == 0,
            r.num_split_high_grad == 0,
            r.splats.count() + r.pruned_count == self.splats.count(),
            ({
                let kept = survivors(prune@);
                if kept.len() == 0 || kept.len() == prune@.len() {
                    &&& r.splats == self.splats
                    &&& r.refiner == self.refiner
                    &&& r.record@ == self.record@
                    &&& r.pruned_count == 0
                } else {
                    &&& splats_kept(self.splats, self.record@, r.splats, r.record@, kept)
                    &&& r.refiner.kept_from(&self.refiner, kept)
                    &&& r.pruned_count == prune@.len() - kept.len()
                }
            }),
    {
        let num_pruned_non_finite: u32 = count_mask(non_finite);
        let mut record = self.record;
        let (splats, refiner, pruned_count) = prune_points(
            self.splats,
            &mut record,
            self.refiner,
            prune,
        );
        RefineSession {
            splats,
            record,
            refiner,
            split_inds: IndexSet::new(),
            pruned_count,
            num_pruned_non_finite,
            num_split_oversized: 0,
            num_split_high_grad: 0,
        }
    }
}

/// Adds indices from the front until `budget` of them were new.
pub open spec fn insert_within(set: Set<i32>, inds: Seq<i32>, budget: int) -> Set<i32>
    decreases inds.len(),
{
    if inds.len() == 0 || budget <= 0 {
        set
    } else if set.contains(inds[0]) {
        insert_within(set, inds.drop_first(), budget)
    } else {
        insert_within(set.insert(inds[0]), inds.drop_first(), budget - 1)
    }
}

/// `a - b`, or zero where that is negative.
pub open spec fn saturating(a: int, b: int) -> int {
    if a >= b {
        a - b
    } else {
        0
    }
}

/// How many splats there is room for, once the set is split.
pub open spec fn headroom(max_splats: u32, count: nat, set: Set<i32>) -> int {
    saturating(max_splats as int, (count + set.len()) as int)
}

/// How many indices growth draws: the target less what replaced dropped splats,
/// as far as there is room, and none once growth has stopped.
pub open spec fn quota(
    config: TrainConfig,
    iter: u32,
    growth_target: u32,
    pruned_count: u32,
    count: nat,
    set: Set<i32>,
) -> int {
    if iter < config.growth_stop_iter {
        let wanted = saturating(growth_target as int, pruned_count as int);
        let room = headroom(config.max_splats, count, set);
        if wanted <= room {
            wanted
        } else {
            room
        }
    } else {
        0
    }
}

pub open spec fn spec_growth_target(threshold_count: u32, fraction: Single) -> Scalar {
    (whole(threshold_count as i64) * single(fraction.bits)).round()
}

/// How many splats growth aims for, out of those above the threshold.
#[verifier::when_used_as_spec(spec_growth_target)]
pub fn growth_target(threshold_count: u32, fraction: Single) -> (r: Scalar)
    ensures
        r == growth_target(threshold_count, fraction),
{
    (Scalar::num(threshold_count as i64) * fraction.scalar()).round()
}

/// A set of indices below `n` has at most `n` elements.
pub proof fn lemma_bounded_set(set: Set<i32>, n: nat)
    requires
        set.finite(),
        n <= i32::MAX,
        forall|i: i32| #[trigger] set.contains(i) ==> 0 <= i < n,
    ensures
        set.len() <= n,
    decreases n,
{
    if n == 0 {
        assert(set =~= Set::<i32>::empty());
    } else {
        let last = (n - 1) as i32;
        lemma_bounded_set(set.remove(last), (n - 1) as nat);
    }
}

/// What is added within a budget: nothing is lost, at most the budget is new,
/// and all of it comes from the list.
pub proof fn lemma_insert_within(set: Set<i32>, inds: Seq<i32>, budget: int)
    requires
        set.finite(),
        budget >= 0,
    ensures
        insert_within(set, inds, budget).finite(),
        set.subset_of(insert_within(set, inds, budget)),
        set.len() <= insert_within(set, inds, budget).len() <= set.len() + budget,
        forall|i: i32| #[trigger]
            insert_within(set, inds, budget).contains(i) ==> set.contains(i) || inds.contains(i),
        insert_within(set, inds, budget).len() < set.len() + budget ==> inds.to_set().subset_of(
            insert_within(set, inds, budget),
        ),
    decreases inds.len(),
{
    if inds.len() > 0 && budget > 0 {
        let rest = inds.drop_first();
        let end = insert_within(set, inds, budget);
        if set.contains(inds[0]) {
            lemma_insert_within(set, rest, budget);
        } else {
            lemma_insert_within(set.insert(inds[0]), rest, budget - 1);
        }
        assert forall|i: i32| #[trigger] end.contains(i) implies set.contains(i) || inds.contains(
            i,
        ) by {
            if rest.contains(i) {
                let k = choose|k: int| 0 <= k < rest.len() && rest[k] == i;
                assert(inds[k + 1] == i);
            }
            assert(inds.contains(inds[0]));
        }
        if end.len() < set.len() + budget {
            assert forall|i: i32| #[trigger] inds.to_set().contains(i) implies end.contains(i) by {
                let k = choose|k: int| 0 <= k < inds.len() && inds[k] == i;
                if k > 0 {
                    assert(rest[k - 1] == i);
                    assert(rest.to_set().contains(i));
                } else {
                    assert(set.insert(inds[0]).contains(i));
                }
            }
        }
    }
}

/// A list of indices has at least as many entries as it names.
pub proof fn lemma_union_len(set: Set<i32>, inds: Seq<i32>)
    requires
        set.finite(),
    ensures
        set.union(inds.to_set()).finite(),
        set.len() <= set.union(inds.to_set()).len() <= set.len() + inds.len(),
    decreases inds.len(),
{
    if inds.len() == 0 {
        assert(set.union(inds.to_set()) =~= set);
    } else {
        let init = inds.drop_last();
        lemma_union_len(set, init);
        assert(set.union(inds.to_set()) =~= set.union(init.to_set()).insert(inds.last())) by {
            assert forall|i: i32|
                set.union(inds.to_set()).contains(i) == set.union(init.to_set()).insert(
                    inds.last(),
                ).contains(i) by {
                if inds.contains(i) {
                    let k = choose|k: int| 0 <= k < inds.len() && inds[k] == i;
                    if k < init.len() {
                        assert(init[k] == i);
                    }
                }
                if init.contains(i) {
                    let k = choose|k: int| 0 <= k < init.len() && init[k] == i;
                    assert(inds[k] == i);
                }
                assert(inds[inds.len() - 1] == inds.last());
            }
        }
    }
}

impl RefineSession {
    /// The splats and what goes with them agree, and the set names some of them.
    pub open spec fn wf(&self) -> bool {
        &&& self.splats.wf()
        &&& self.splats.tracked_by(self.record@)
        &&& self.refiner.has_rows(self.splats.count())
        &&& self.split_inds@.finite()
        &&& forall|i: i32| #[trigger] self.split_inds@.contains(i) ==> 0 <= i < self.splats.count()
    }

    /// What replaces the dropped splats: as many indices as were dropped, drawn
    /// by opacity among the splats that were seen.
    pub fn replacement(&self, opacities: &Vec<Scalar>) -> (r: Option<Replacement>)
        requires
            self.wf(),
            opacities@.len() == self.splats.count(),
        ensures
            (r is Some) == (self.pruned_count > 0),
            r matches Some(draw) ==> {
                &&& draw.count == self.pruned_count
                &&& draw.weights@ == Seq::new(
                    self.splats.count(),
                    |i: int| opacities@[i] * self.refiner.visible@[i],
                )
            },
    {
        if self.pruned_count == 0 {
            return None;
        }
        let visible = &self.refiner.visible;
        let mut weights: Vec<Scalar> = Vec::new();
        let mut i: usize = 0;
        while i < opacities.len()
            invariant
                i <= opacities@.len(),
                visible@.len() == opacities@.len(),
                weights@ == Seq::new(i as nat, |i: int| opacities@[i] * visible@[i]),
            decreases opacities@.len() - i,
        {
            weights.push(&opacities[i] * &visible[i]);
            i = i + 1;
            assert(weights@ =~= Seq::new(i as nat, |i: int| opacities@[i] * visible@[i]));
        }
        Some(Replacement { weights, count: self.pruned_count })
    }

    /// Adds indices to the set.
    fn extend(&mut self, inds: &Vec<i32>)
        requires
            old(self).wf(),
            in_range(inds@, old(self).splats.count()),
        ensures
            final(self).wf(),
            final(self).split_inds@ == old(self).split_inds@.union(inds@.to_set()),
            *final(self) == (RefineSession { split_inds: final(self).split_inds, ..*old(self) }),
    {
        let mut k: usize = 0;
        while k < inds.len()
            invariant
                k <= inds@.len(),
                old(self).wf(),
                self.wf(),
                in_range(inds@, old(self).splats.count()),
                *self == (RefineSession { split_inds: self.split_inds, ..*old(self) }),
                self.split_inds@ == old(self).split_inds@.union(inds@.take(k as int).to_set()),
            decreases inds@.len() - k,
        {
            let ghost before = self.split_inds@;
            self.split_inds.insert(inds[k]);
            proof {
                let ghost short = inds@.take(k as int);
                let ghost long = inds@.take(k + 1);
                assert forall|i: i32|
                    old(self).split_inds@.union(long.to_set()).contains(i) == before.insert(
                        inds@[k as int],
                    ).contains(i) by {
                    if long.contains(i) {
                        let j = choose|j: int| 0 <= j < long.len() && long[j] == i;
                        if j < k {
                            assert(short[j] == i);
                        }
                    }
                    if short.contains(i) {
                        let j = choose|j: int| 0 <= j < short.len() && short[j] == i;
                        assert(long[j] == i);
                    }
                    assert(long[k as int] == inds@[k as int]);
                }
                assert(self.split_inds@ =~= old(self).split_inds@.union(long.to_set()));
            }
            k = k + 1;
        }
        assert(inds@.take(inds@.len() as int) == inds@);
    }

    /// Takes the indices that replace dropped splats.
    pub fn add_resampled(&mut self, inds: &Vec<i32>)
        requires
            old(self).wf(),
            in_range(inds@, old(self).splats.count()),
        ensures
            final(self).wf(),
            final(self).split_inds@ == old(self).split_inds@.union(inds@.to_set()),
            *final(self) == (RefineSession { split_inds: final(self).split_inds, ..*old(self) }),
    {
        self.extend(inds);
    }

    /// Takes the splats that are too large on screen, as far as there is room,
    /// if splitting by size is on.
    pub fn add_oversized(&mut self, config: &TrainConfig, inds: &Vec<i32>)
        requires
            old(self).wf(),
            in_range(inds@, old(self).splats.count()),
        ensures
            final(self).wf(),
            ({
                let set = old(self).split_inds@;
                let after = if config.split_at_screen_size.positive() {
                    insert_within(
                        set,
                        inds@,
                        headroom(config.max_splats, old(self).splats.count(), set),
                    )
                } else {
                    set
                };
                &&& final(self).split_inds@ == after
                &&& final(self).num_split_oversized == after.len() - set.len()
                &&& *final(self) == (RefineSession {
                    split_inds: final(self).split_inds,
                    num_split_oversized: final(self).num_split_oversized,
                    ..*old(self)
                })
            }),
    {
        let ghost n = self.splats.count();
        let ghost set = self.split_inds@;
        proof {
            lemma_bounded_set(set, n);
        }
        let pre_oversized: usize = self.split_inds.len();
        if config.split_at_screen_size.is_positive() {
            let taken: u32 = self.splats.num_splats() + pre_oversized as u32;
            let mut budget: u32 = config.max_splats.saturating_sub(taken);
            let ghost room = budget as int;
            let mut k: usize = 0;
            assert(inds@.skip(0) == inds@);
            while k < inds.len() && budget > 0
                invariant
                    k <= inds@.len(),
                    old(self).wf(),
                    self.wf(),
                    in_range(inds@, old(self).splats.count()),
                    *self == (RefineSession { split_inds: self.split_inds, ..*old(self) }),
                    insert_within(set, inds@, room) == insert_within(
                        self.split_inds@,
                        inds@.skip(k as int),
                        budget as int,
                    ),
                decreases inds@.len() - k,
            {
                let ghost rest = inds@.skip(k as int);
                assert(rest[0] == inds@[k as int]);
                assert(rest.drop_first() == inds@.skip(k + 1));
                let ghost before = self.split_inds@;
                if self.split_inds.insert(inds[k]) {
                    budget = budget - 1;
                } else {
                    assert(self.split_inds@ =~= before);
                }
                k = k + 1;
            }
            assert(self.split_inds@ == insert_within(set, inds@, room));
            proof {
                lemma_insert_within(set, inds@, room);
            }
        }
        proof {
            lemma_bounded_set(self.split_inds@, n);
        }
        self.num_split_oversized = (self.split_inds.len() - pre_oversized) as u32;
    }

    /// How many indices growth draws.
    pub fn growth_quota(&self, config: &TrainConfig, iter: u32, growth_target: u32) -> (r: u32)
        requires
            self.wf(),
        ensures
            r == quota(
                *config,
                iter,
                growth_target,
                self.pruned_count,
                self.splats.count(),
                self.split_inds@,
            ),
    {
        proof {
            lemma_bounded_set(self.split_inds@, self.splats.count());
        }
        if iter < config.growth_stop_iter {
            let sample_high_grad: u32 = growth_target.saturating_sub(self.pruned_count);
            let cur_splats: u32 = self.splats.num_splats() + self.split_inds.len() as u32;
            let room: u32 = config.max_splats.saturating_sub(cur_splats);
            if sample_high_grad <= room {
                sample_high_grad
            } else {
                room
            }
        } else {
            0
        }
    }

    /// What growth draws by: the gathered gradient of the splats whose gradient is
    /// above the threshold. `above` is one for those and zero for the others.
    pub fn growth_weights(&self, above: &Vec<Scalar>) -> (r: Vec<Scalar>)
        requires
            self.wf(),
            above@.len() == self.splats.count(),
        ensures
            r@ == Seq::new(
                self.splats.count(),
                |i: int| above@[i] * self.refiner.refine_weight_norm@[i],
            ),
    {
        let norm = &self.refiner.refine_weight_norm;
        let mut r: Vec<Scalar> = Vec::new();
        let mut i: usize = 0;
        while i < above.len()
            invariant
                i <= above@.len(),
                norm@.len() == above@.len(),
                r@ == Seq::new(i as nat, |i: int| above@[i] * norm@[i]),
            decreases above@.len() - i,
        {
            r.push(&above[i] * &norm[i]);
            i = i + 1;
            assert(r@ =~= Seq::new(i as nat, |i: int| above@[i] * norm@[i]));
        }
        r
    }

    /// Takes the indices that growth drew.
    pub fn add_growth(&mut self, inds: &Vec<i32>)
        requires
            old(self).wf(),
            in_range(inds@, old(self).splats.count()),
        ensures
            final(self).wf(),
            final(self).split_inds@ == old(self).split_inds@.union(inds@.to_set()),
            final(self).num_split_high_grad == final(self).split_inds@.len()
                - old(self).split_inds@.len(),
            *final(self) == (RefineSession {
                split_inds: final(self).split_inds,
                num_split_high_grad: final(self).num_split_high_grad,
                ..*old(self)
            }),
    {
        let pre_high_grad: usize = self.split_inds.len();
        self.extend(inds);
        proof {
            lemma_union_len(old(self).split_inds@, inds@);
            lemma_bounded_set(self.split_inds@, self.splats.count());
        }
        self.num_split_high_grad = (self.split_inds.len() - pre_high_grad) as u32;
    }

    /// Settles which splats are split, and how.
    pub fn plan(self, config: &TrainConfig) -> (r: RefineSplit)
        requires
            self.wf(),
        ensures
            r.splats == self.splats,
            r.record == self.record,
            r.plan.wf(self.splats.count()),
            r.plan.inds@.to_set() == self.split_inds@,
            r.plan.inds@.len() == self.split_inds@.len(),
            forall|k: int|
                0 <= k < r.plan.inds@.len() ==> #[trigger] r.plan.shapes@[k] == split_shape(
                    &row_of(self.splats.transforms.value@[r.plan.inds@[k] as int]),
                    &self.refiner.max_screen_size@[r.plan.inds@[k] as int],
                    config.split_at_screen_size,
                ),
            r.counts == (RefineCounts {
                num_added: self.split_inds@.len() as u32,
                num_split_oversized: self.num_split_oversized,
                num_split_high_grad: self.num_split_high_grad,
                num_pruned: self.pruned_count,
                num_pruned_non_finite: self.num_pruned_non_finite,
            }),
    {
        proof {
            lemma_bounded_set(self.split_inds@, self.splats.count());
        }
        let refine_count: usize = self.split_inds.len();
        let counts = RefineCounts {
            num_added: refine_count as u32,
            num_split_oversized: self.num_split_oversized,
            num_split_high_grad: self.num_split_high_grad,
            num_pruned: self.pruned_count,
            num_pruned_non_finite: self.num_pruned_non_finite,
        };
        let plan = plan_split(
            &self.splats,
            self.split_inds,
            &self.refiner.max_screen_size,
            config.split_at_screen_size,
        );
        proof {
            plan.inds@.unique_seq_to_set();
        }
        RefineSplit { splats: self.splats, record: self.record, plan, counts }
    }
}

/// How many entries of the mask are set.
pub open spec fn count_set(mask: Seq<bool>) -> int
    decreases mask.len(),
{
    if mask.len() == 0 {
        0
    } else {
        count_set(mask.drop_last()) + if mask.last() {
            1int
        } else {
            0
        }
    }
}

/// How many entries of the mask are set.
pub fn count_mask(mask: &Vec<bool>) -> (r: u32)
    requires
        mask@.len() <= i32::MAX,
    ensures
        r == count_set(mask@),
{
    let mut r: u32 = 0;
    let mut i: usize = 0;
    while i < mask.len()
        invariant
            i <= mask@.len() <= i32::MAX,
            r <= i,
            r == count_set(mask@.take(i as int)),
        decreases mask@.len() - i,
    {
        assert(mask@.take(i + 1).drop_last() == mask@.take(i as int));
        if mask[i] {
            r = r + 1;
        }
        i = i + 1;
    }
    assert(mask@.take(mask@.len() as int) == mask@);
    r
}

/// The counts of two masks add up, and one entry counts where it is set.
pub proof fn lemma_count_set(a: Seq<bool>, b: Seq<bool>)
    ensures
        count_set(a + b) == count_set(a) + count_set(b),
        count_set(seq![true]) == 1,
        count_set(seq![false]) == 0,
        count_set(Seq::<bool>::empty()) == 0,
    decreases b.len(),
{
    assert(seq![true].drop_last() =~= Seq::<bool>::empty());
    assert(seq![false].drop_last() =~= Seq::<bool>::empty());
    assert(count_set(Seq::<bool>::empty()) == 0);
    if b.len() == 0 {
        assert(a + b =~= a);
    } else {
        lemma_count_set(a, b.drop_last());
        assert((a + b).drop_last() =~= a + b.drop_last());
    }
}

/// As many entries survive as are not set.
pub proof fn lemma_count_survivors(mask: Seq<bool>)
    ensures
        survivors(mask).len() + count_set(mask) == mask.len(),
    decreases mask.len(),
{
    if mask.len() > 0 {
        lemma_count_survivors(mask.drop_last());
    }
}

impl SplatTrainer {
    /// Splits the splats of the plan, the halves of the k-th `samples[k]` away
    /// from where it was, lets every opacity decay, and takes the optimizer back.
    pub fn apply_split(&mut self, split: RefineSplit, samples: &Vec<Vec3A>, iter: u32) -> (r:
        Splats)
        requires
            split.splats.wf(),
            split.splats.tracked_by(split.record@),
            split.plan.wf(split.splats.count()),
            samples@.len() == split.plan.inds@.len(),
            split.splats.count() + split.plan.inds@.len() <= i32::MAX,
        ensures
            r.wf(),
            r.same_ids(&split.splats),
            r.count() == split.splats.count() + split.plan.inds@.len(),
            final(self).optim matches Some(record) && r.tracked_by(record@),
            *final(self) == (SplatTrainer { optim: final(self).optim, ..*old(self) }),
            TrainerCall::Other.leads(*old(self), *final(self)),
            ({
                let before = split.splats;
                let plan = split.plan;
                &&& r.transforms.value@ == scattered(
                    before.transforms.value@,
                    plan.inds@,
                    parent_updates(before.transforms.value@, plan, samples@),
                ) + child_rows(before.transforms.value@, plan, samples@)
                &&& r.sh_coeffs.value@ == before.sh_coeffs.value@ + selected(
                    before.sh_coeffs.value@,
                    plan.inds@,
                )
                &&& r.raw_opacities.value@ == decayed(
                    scattered(
                        before.raw_opacities.value@,
                        plan.inds@,
                        opacity_updates(before.raw_opacities.value@, plan.inds@),
                    ) + child_opacities(before.raw_opacities.value@, plan.inds@),
                    opacity_decay(
                        iter,
                        old(self).config.total_train_iters,
                        old(self).config.opac_decay,
                    ),
                )
            }),
            ({
                let before = split.record@;
                let after = final(self).optim->0@;
                let t = split.splats.transforms.id;
                let s = split.splats.sh_coeffs.id;
                let o = split.splats.raw_opacities.id;
                let reset = |rows: Seq<Seq<Scalar>>| reset_moments(rows, split.plan.inds@);
                if split.plan.inds@.len() == 0 {
                    after == before
                } else {
                    &&& after == before.insert(t, after[t]).insert(s, after[s]).insert(o, after[o])
                    &&& after[t].mapped(before[t], reset)
                    &&& after[s].mapped(before[s], reset)
                    &&& after[o].mapped(before[o], reset)
                }
            }),
    {
        let mut record = split.record;
        let r = refine_splats(
            split.splats,
            &mut record,
            &split.plan,
            samples,
            iter,
            self.config.total_train_iters,
            self.config.opac_decay,
        );
        self.optim = Some(record);
        r
    }

    /// Drops the splats that came out of the split unusable, and says how many
    /// the mask names.
    pub fn prune_degenerate(&mut self, splats: Splats, bad: &Vec<bool>) -> (r: (Splats, u32))
        requires
            splats.wf(),
            old(self).optim matches Some(record) && splats.tracked_by(record@),
            bad@.len() == splats.count(),
        ensures
            r.0.wf(),
            r.0.same_ids(&splats),
            r.1 == count_set(bad@),
            final(self).optim matches Some(record) && r.0.tracked_by(record@),
            *final(self) == (SplatTrainer { optim: final(self).optim, ..*old(self) }),
            TrainerCall::Other.leads(*old(self), *final(self)),
            ({
                let kept = survivors(bad@);
                if kept.len() == 0 || kept.len() == bad@.len() {
                    &&& r.0 == splats
                    &&& final(self).optim->0@ == old(self).optim->0@
                } else {
                    splats_kept(
                        splats,
                        old(self).optim->0@,
                        r.0,
                        final(self).optim->0@,
                        kept,
                    )
                }
            }),
    {
        let count: u32 = count_mask(bad);
        proof {
            lemma_count_survivors(bad@);
        }
        if count == 0 {
            return (splats, 0);
        }
        let mut record = self.optim.take().unwrap();
        let placeholder = RefineRecord::new(bad.len());
        let (splats, _placeholder, _dropped) = prune_points(splats, &mut record, placeholder, bad);
        self.optim = Some(record);
        (splats, count)
    }

    /// Closes a refinement: the bounds are those of the splats now, and where
    /// `refresh_floor` holds each splat gets its least extent, if there are views
    /// to take it from.
    pub fn finish_refine(
        &mut self,
        splats: &Splats,
        bounds: BoundingBox,
        refresh_floor: bool,
        counts: RefineCounts,
    ) -> (r: (Option<Vec<Scalar>>, RefineStats))
        requires
            splats.wf(),
        ensures
            *final(self) == (SplatTrainer { bounds, ..*old(self) }),
            TrainerCall::Other.leads(*old(self), *final(self)),
            (r.0 is Some) == (refresh_floor && old(self).view_cams@.len() > 0),
            r.0 matches Some(floor) ==> floor@ == Seq::new(
                splats.count(),
                |i: int|
                    least_pixel_size(splats.mean(i), old(self).view_cams@) * single(
                        MIN_SCALE_FACTOR,
                    ).sqrt(),
            ),
            r.1 == (RefineStats {
                num_added: counts.num_added,
                num_split_oversized: counts.num_split_oversized,
                num_split_high_grad: counts.num_split_high_grad,
                num_pruned: counts.num_pruned,
                num_pruned_non_finite: counts.num_pruned_non_finite,
                total_splats: splats.count() as u32,
            }),
    {
        self.bounds = bounds;
        let floor = if refresh_floor {
            let mut means: Vec<Vec3A> = Vec::new();
            let n: usize = splats.transforms.value.len();
            let mut i: usize = 0;
            while i < n
                invariant
                    i <= n == splats.count(),
                    splats.wf(),
                    means@ == Seq::new(i as nat, |i: int| splats.mean(i)),
                decreases n - i,
            {
                means.push(splats.read_mean(i));
                i = i + 1;
                assert(means@ =~= Seq::new(i as nat, |i: int| splats.mean(i)));
            }
            compute_min_scale(&means, &self.view_cams, Single { bits: MIN_SCALE_FACTOR })
        } else {
            None
        };
        let stats = RefineStats {
            num_added: counts.num_added,
            num_split_oversized: counts.num_split_oversized,
            num_split_high_grad: counts.num_split_high_grad,
            num_pruned: counts.num_pruned,
            num_pruned_non_finite: counts.num_pruned_non_finite,
            total_splats: splats.num_splats(),
        };
        (floor, stats)
    }
}

/// A refinement keeps to the cap: if no more splats are drawn in place of the
/// dropped ones than were dropped, and growth draws no more than its quota, then
/// there are in the end at most as many splats as the cap allows, or as there
/// were before where that was more.
pub proof fn lemma_refine_keeps_cap(
    config: TrainConfig,
    iter: u32,
    count_before: nat,
    pruned_count: u32,
    resampled: Seq<i32>,
    oversized: Seq<i32>,
    growth_target: u32,
    growth: Seq<i32>,
)
    requires
        pruned_count <= count_before,
        resampled.len() <= pruned_count,
        ({
            let count = (count_before - pruned_count) as nat;
            let first = Set::<i32>::empty().union(resampled.to_set());
            let second = if config.split_at_screen_size.positive() {
                insert_within(first, oversized, headroom(config.max_splats, count, first))
            } else {
                first
            };
            growth.len() <= quota(config, iter, growth_target, pruned_count, count, second)
        }),
    ensures
        ({
            let count = (count_before - pruned_count) as nat;
            let first = Set::<i32>::empty().union(resampled.to_set());
            let second = if config.split_at_screen_size.positive() {
                insert_within(first, oversized, headroom(config.max_splats, count, first))
            } else {
                first
            };
            let third = second.union(growth.to_set());
            ||| count + third.len() <= config.max_splats
            ||| count + third.len() <= count_before
        }),
{
    let count = (count_before - pruned_count) as nat;
    lemma_union_len(Set::<i32>::empty(), resampled);
    let first = Set::<i32>::empty().union(resampled.to_set());
    let room = headroom(config.max_splats, count, first);
    lemma_insert_within(first, oversized, room);
    let second = if config.split_at_screen_size.positive() {
        insert_within(first, oversized, room)
    } else {
        first
    };
    lemma_union_len(second, growth);
}

/// Growth has stopped once training has run its course.
pub proof fn lemma_no_growth_after_training(
    trainer: SplatTrainer,
    iter: u32,
    growth_target: u32,
    pruned_count: u32,
    count: nat,
    set: Set<i32>,
)
    requires
        trainer.wf(),
        iter >= trainer.config.total_train_iters,
    ensures
        quota(trainer.config, iter, growth_target, pruned_count, count, set) == 0,
{
}

} // verus!
