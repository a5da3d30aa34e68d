//! Splitting in the tables: parents change in place, children are appended, and
//! the optimizer forgets the moments of both.
use crate::cube::Vec3A;
use crate::expr::Scalar;
use crate::number::Single;
use crate::train::collections::{IndexSet, OptimRecord};
use crate::train::record::{map_splats_and_opt, Param, Splats};
use crate::train::split::{
    child_raw_opacity, child_row, decayed_raw_opacity, make_child_row, make_parent_update,
    opacity_decay, parent_update, read_row, row_of, split_shape, SplitShape,
};
use crate::train::table::{in_range, lemma_scattered, row_neg, scattered, selected, zero_row, Table};
use vstd::prelude::*;

verus! {

/// Which splats are split, in the order in which their children are appended,
/// and how.
pub struct SplitPlan {
    pub inds: Vec<i32>,
    pub shapes: Vec<SplitShape>,
}

impl SplitPlan {
    /// The plan names splats of a table, each once, with a shape for each.
    pub open spec fn wf(&self, n: nat) -> bool {
        &&& in_range(self.inds@, n)
        &&& self.inds@.no_duplicates()
        &&& self.shapes@.len() == self.inds@.len()
    }
}

/// How the splats of the set are split. The order in which they come is left
/// open.
pub fn plan_split(
    splats: &Splats,
    split_inds: IndexSet,
    screen_sizes: &Vec<Scalar>,
    split_at_screen_size: Single,
) -> (r: SplitPlan)
    requires
        splats.wf(),
        screen_sizes@.len() == splats.count(),
        forall|i: i32| #[trigger] split_inds@.contains(i) ==> 0 <= i < splats.count(),
    ensures
        r.wf(splats.count()),
        r.inds@.to_set() == split_inds@,
        forall|k: int|
            0 <= k < r.inds@.len() ==> #[trigger] r.shapes@[k] == split_shape(
                &row_of(splats.transforms.value@[r.inds@[k] as int]),
                &screen_sizes@[r.inds@[k] as int],
                split_at_screen_size,
            ),
{
    let ghost set = split_inds@;
    let inds = split_inds.into_vec();
    proof {
        assert forall|k: int| 0 <= k < inds@.len() implies 0 <= #[trigger] inds@[k]
            < splats.count() by {
            assert(inds@.to_set().contains(inds@[k]));
            assert(set.contains(inds@[k]));
        }
    }
    let mut shapes: Vec<SplitShape> = Vec::new();
    let mut k: usize = 0;
    while k < inds.len()
        invariant
            k <= inds@.len(),
            splats.wf(),
            screen_sizes@.len() == splats.count(),
            in_range(inds@, splats.count()),
            shapes@.len() == k,
            forall|j: int|
                0 <= j < k ==> #[trigger] shapes@[j] == split_shape(
                    &row_of(splats.transforms.value@[inds@[j] as int]),
                    &screen_sizes@[inds@[j] as int],
                    split_at_screen_size,
                ),
        decreases inds@.len() - k,
    {
        let at: usize = inds[k] as usize;
        assert(splats.transforms.value@[at as int].len() == 10);
        let row = read_row(&splats.transforms.value.rows[at]);
        shapes.push(split_shape(&row, &screen_sizes[at], split_at_screen_size));
        k = k + 1;
    }
    SplitPlan { inds, shapes }
}

/// What is added to the rows of the parents.
pub open spec fn parent_updates(
    transforms: Seq<Seq<Scalar>>,
    plan: SplitPlan,
    samples: Seq<Vec3A>,
) -> Seq<Seq<Scalar>> {
    Seq::new(
        plan.inds@.len(),
        |k: int|
            parent_update(row_of(transforms[plan.inds@[k] as int]), plan.shapes@[k], samples[k]),
    )
}

/// The rows of the children.
pub open spec fn child_rows(
    transforms: Seq<Seq<Scalar>>,
    plan: SplitPlan,
    samples: Seq<Vec3A>,
) -> Seq<Seq<Scalar>> {
    Seq::new(
        plan.inds@.len(),
        |k: int| child_row(row_of(transforms[plan.inds@[k] as int]), plan.shapes@[k], samples[k]),
    )
}

/// The opacities of the children.
pub open spec fn child_opacities(opacities: Seq<Seq<Scalar>>, inds: Seq<i32>) -> Seq<
    Seq<Scalar>,
> {
    Seq::new(inds.len(), |k: int| seq![child_raw_opacity(&opacities[inds[k] as int][0])])
}

/// What is added to the opacities of the parents: the difference to that of
/// their children.
pub open spec fn opacity_updates(opacities: Seq<Seq<Scalar>>, inds: Seq<i32>) -> Seq<
    Seq<Scalar>,
> {
    Seq::new(
        inds.len(),
        |k: int|
            {
                let raw = opacities[inds[k] as int][0];
                seq![child_raw_opacity(&raw) - raw]
            },
    )
}

/// The opacities once all have decayed.
pub open spec fn decayed(opacities: Seq<Seq<Scalar>>, minus_opac: Scalar) -> Seq<Seq<Scalar>> {
    opacities.map_values(|row: Seq<Scalar>| seq![decayed_raw_opacity(&row[0], &minus_opac)])
}

/// The moments once the splats are split: those of the parents are taken off
/// themselves, and the children have none.
pub open spec fn reset_moments(rows: Seq<Seq<Scalar>>, inds: Seq<i32>) -> Seq<Seq<Scalar>> {
    scattered(
        rows,
        inds,
        selected(rows, inds).map_values(|row: Seq<Scalar>| row_neg(row)),
    ) + selected(rows, inds).map_values(|row: Seq<Scalar>| zero_row(row.len()))
}

/// The moments once the splats are split.
pub fn reset_moment_rows(rows: Table, inds: &Vec<i32>) -> (r: Table)
    requires
        in_range(inds@, rows@.len()),
        inds@.no_duplicates(),
    ensures
        r@ == reset_moments(rows@, inds@),
{
    let zeros = rows.zeros_like(inds);
    let neg_parent = rows.select(inds).negated();
    let mut x = rows;
    assert forall|k: int| 0 <= k < inds@.len() implies neg_parent@[k].len() == rows@[(
    #[trigger] inds@[k]) as int].len() by {
        assert(selected(rows@, inds@)[k] == rows@[inds@[k] as int]);
    }
    x.scatter_add(inds, &neg_parent);
    x.cat(zeros)
}

/// Every opacity, decayed.
fn decay_opacities(opacities: &Table, minus_opac: &Scalar) -> (r: Table)
    requires
        forall|i: int| 0 <= i < opacities@.len() ==> (#[trigger] opacities@[i]).len() == 1,
    ensures
        r@ == decayed(opacities@, *minus_opac),
{
    let mut r = Table::new();
    let mut i: usize = 0;
    while i < opacities.rows.len()
        invariant
            i <= opacities.rows@.len(),
            forall|i: int| 0 <= i < opacities@.len() ==> (#[trigger] opacities@[i]).len() == 1,
            r@ == decayed(opacities@.take(i as int), *minus_opac),
        decreases opacities.rows@.len() - i,
    {
        assert(opacities@[i as int] == opacities.rows@[i as int]@);
        let mut row: Vec<Scalar> = Vec::new();
        row.push(decayed_raw_opacity(&opacities.rows[i][0], minus_opac));
        assert(row@ =~= seq![decayed_raw_opacity(&opacities@[i as int][0], minus_opac)]);
        r.push(row);
        i = i + 1;
        assert(r@ =~= decayed(opacities@.take(i as int), *minus_opac));
    }
    assert(opacities@.take(opacities@.len() as int) == opacities@);
    r
}

/// Splits the splats of the plan, the halves of the k-th `samples[k]` away from
/// where it was, and lets every opacity decay.
pub fn refine_splats(
    splats: Splats,
    record: &mut OptimRecord,
    plan: &SplitPlan,
    samples: &Vec<Vec3A>,
    iter: u32,
    total_train_iters: u32,
    opac_decay: Single,
) -> (r: Splats)
    requires
        splats.wf(),
        splats.tracked_by(old(record)@),
        plan.wf(splats.count()),
        samples@.len() == plan.inds@.len(),
        splats.count() + plan.inds@.len() <= i32::MAX,
    ensures
        r.wf(),
        r.same_ids(&splats),
        r.tracked_by(final(record)@),
        r.count() == splats.count() + plan.inds@.len(),
        r.transforms.value@ == scattered(
            splats.transforms.value@,
            plan.inds@,
            parent_updates(splats.transforms.value@, *plan, samples@),
        ) + child_rows(splats.transforms.value@, *plan, samples@),
        r.sh_coeffs.value@ == splats.sh_coeffs.value@ + selected(
            splats.sh_coeffs.value@,
            plan.inds@,
        ),
        r.raw_opacities.value@ == decayed(
            scattered(
                splats.raw_opacities.value@,
                plan.inds@,
                opacity_updates(splats.raw_opacities.value@, plan.inds@),
            ) + child_opacities(splats.raw_opacities.value@, plan.inds@),
            opacity_decay(iter, total_train_iters, opac_decay),
        ),
        plan.inds@.len() == 0 ==> final(record)@ == old(record)@,
        plan.inds@.len() > 0 ==> {
            let t = splats.transforms.id;
            let s = splats.sh_coeffs.id;
            let o = splats.raw_opacities.id;
            let reset = |rows: Seq<Seq<Scalar>>| reset_moments(rows, plan.inds@);
            let before = old(record)@;
            let after = final(record)@;
            &&& after == before.insert(t, after[t]).insert(s, after[s]).insert(o, after[o])
            &&& after[t].mapped(before[t], reset)
            &&& after[s].mapped(before[s], reset)
            &&& after[o].mapped(before[o], reset)
        },
{
    let inds = &plan.inds;
    let ghost n = splats.count();
    let mut splats = splats;
    let ghost before = splats;
    proof {
        lemma_scattered(
            before.transforms.value@,
            inds@,
            parent_updates(before.transforms.value@, *plan, samples@),
        );
        lemma_scattered(
            before.raw_opacities.value@,
            inds@,
            opacity_updates(before.raw_opacities.value@, inds@),
        );
    }
    if inds.len() > 0 {
        let mut update = Table::new();
        let mut new_transforms = Table::new();
        let mut new_raw_opac = Table::new();
        let mut difference = Table::new();
        let mut k: usize = 0;
        while k < inds.len()
            invariant
                inds@ == plan.inds@,
                k <= inds@.len(),
                splats == before,
                before.wf(),
                n == before.count(),
                plan.wf(n),
                samples@.len() == plan.inds@.len(),
                update@ == parent_updates(before.transforms.value@, *plan, samples@).take(k as int),
                new_transforms@ == child_rows(before.transforms.value@, *plan, samples@).take(
                    k as int,
                ),
                new_raw_opac@ == child_opacities(before.raw_opacities.value@, inds@).take(
                    k as int,
                ),
                difference@ == opacity_updates(before.raw_opacities.value@, inds@).take(k as int),
            decreases inds@.len() - k,
        {
            let at: usize = inds[k] as usize;
            assert(splats.transforms.value@[at as int].len() == 10);
            assert(splats.raw_opacities.value@[at as int].len() == 1);
            let row = read_row(&splats.transforms.value.rows[at]);
            update.push(make_parent_update(&row, &plan.shapes[k], &samples[k]));
            new_transforms.push(make_child_row(&row, &plan.shapes[k], &samples[k]));
            let raw = &splats.raw_opacities.value.rows[at][0];
            let child = child_raw_opacity(raw);
            let mut diff: Vec<Scalar> = Vec::new();
            diff.push(&child - raw);
            assert(diff@ =~= seq![child - *raw]);
            difference.push(diff);
            let mut opac: Vec<Scalar> = Vec::new();
            opac.push(child);
            assert(opac@ =~= seq![child]);
            new_raw_opac.push(opac);
            k = k + 1;
            assert(update@ =~= parent_updates(before.transforms.value@, *plan, samples@).take(
                k as int,
            ));
            assert(new_transforms@ =~= child_rows(before.transforms.value@, *plan, samples@).take(
                k as int,
            ));
            assert(new_raw_opac@ =~= child_opacities(before.raw_opacities.value@, inds@).take(
                k as int,
            ));
            assert(difference@ =~= opacity_updates(before.raw_opacities.value@, inds@).take(
                k as int,
            ));
        }
        assert(update@ =~= parent_updates(before.transforms.value@, *plan, samples@));
        assert(new_transforms@ =~= child_rows(before.transforms.value@, *plan, samples@));
        assert(new_raw_opac@ =~= child_opacities(before.raw_opacities.value@, inds@));
        assert(difference@ =~= opacity_updates(before.raw_opacities.value@, inds@));
        let cur_sh_coeffs = splats.sh_coeffs.value.select(inds);
        splats.transforms.value.scatter_add(inds, &update);
        splats.raw_opacities.value.scatter_add(inds, &difference);
        proof {
            lemma_rows_after_scatter(before.transforms.value@, inds@, update@, 10);
            lemma_rows_after_scatter(before.raw_opacities.value@, inds@, difference@, 1);
        }
        let append_transforms = |x: Table| -> (r: Table)
            ensures
                r@ == x@ + new_transforms@,
            { x.cat(new_transforms) };
        let append_coeffs = |x: Table| -> (r: Table)
            ensures
                r@ == x@ + cur_sh_coeffs@,
            { x.cat(cur_sh_coeffs) };
        let append_opac = |x: Table| -> (r: Table)
            ensures
                r@ == x@ + new_raw_opac@,
            { x.cat(new_raw_opac) };
        let reset = |x: Table| -> (r: Table)
            requires
                in_range(inds@, x@.len()),
                inds@.no_duplicates(),
            ensures
                r@ == reset_moments(x@, inds@),
            { reset_moment_rows(x, inds) };
        splats = map_splats_and_opt(
            splats,
            record,
            append_transforms,
            append_coeffs,
            append_opac,
            reset,
            reset,
            reset,
        );
        proof {
            assert forall|rows: Seq<Seq<Scalar>>| rows.len() == n implies (
            #[trigger] reset_moments(rows, inds@)).len() == n + inds@.len() by {
                lemma_scattered(
                    rows,
                    inds@,
                    selected(rows, inds@).map_values(|row: Seq<Scalar>| row_neg(row)),
                );
            }
            assert forall|i: int| 0 <= i < splats.transforms.value@.len() implies (
            #[trigger] splats.transforms.value@[i]).len() == 10 by {
                if i >= n {
                    assert(splats.transforms.value@[i] == child_rows(
                        before.transforms.value@,
                        *plan,
                        samples@,
                    )[i - n]);
                }
            }
            assert forall|i: int| 0 <= i < splats.raw_opacities.value@.len() implies (
            #[trigger] splats.raw_opacities.value@[i]).len() == 1 by {
                if i >= n {
                    assert(splats.raw_opacities.value@[i] == child_opacities(
                        before.raw_opacities.value@,
                        inds@,
                    )[i - n]);
                }
            }
        }
    } else {
        assert(splats.transforms.value@ + child_rows(before.transforms.value@, *plan, samples@)
            =~= splats.transforms.value@);
        assert(splats.sh_coeffs.value@ + selected(before.sh_coeffs.value@, inds@)
            =~= splats.sh_coeffs.value@);
        assert(splats.raw_opacities.value@ + child_opacities(before.raw_opacities.value@, inds@)
            =~= splats.raw_opacities.value@);
    }
    let minus_opac = opacity_decay(iter, total_train_iters, opac_decay);
    let raw = decay_opacities(&splats.raw_opacities.value, &minus_opac);
    Splats {
        transforms: splats.transforms,
        sh_coeffs: splats.sh_coeffs,
        raw_opacities: Param { id: splats.raw_opacities.id, value: raw },
    }
}

/// A scatter keeps the width of the rows.
proof fn lemma_rows_after_scatter(
    rows: Seq<Seq<Scalar>>,
    inds: Seq<i32>,
    update: Seq<Seq<Scalar>>,
    width: nat,
)
    requires
        in_range(inds, rows.len()),
        inds.no_duplicates(),
        forall|i: int| 0 <= i < rows.len() ==> (#[trigger] rows[i]).len() == width,
    ensures
        forall|i: int|
            0 <= i < rows.len() ==> (#[trigger] scattered(rows, inds, update)[i]).len() == width,
    decreases inds.len(),
{
    if inds.len() > 0 {
        let init = inds.drop_last();
        assert forall|i: int| 0 <= i < init.len() implies 0 <= #[trigger] init[i] < rows.len() by {
            assert(init[i] == inds[i]);
        }
        lemma_rows_after_scatter(rows, init, update, width);
        lemma_scattered(rows, init, update);
    }
}

} // verus!
