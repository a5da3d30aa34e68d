//! What a refinement leaves: the splats that were split with both their halves, all the
//! others, and how many indices it takes on the way.
use crate::cube::{sigmoid, Vec3A};
use crate::expr::semantics::{group_value, pow10, Model};
use crate::expr::Scalar;
use crate::number::Single;
use crate::train::halves::{is_largest_square, lemma_child_opacity_is_exact, lemma_halves};
use crate::train::meaning::{is_finite, lemma_decayed_opacity, lemma_split_keeps_centroid};
use crate::train::readings::is_limited;
use crate::train::refine::{headroom, insert_within, quota};
use crate::train::refine_splats::{
    child_opacities, child_rows, decayed, opacity_updates, parent_updates, SplitPlan,
};
use crate::train::split::{
    child_raw_opacity, child_row, decayed_raw_opacity, frac_1_sqrt_2, max_axis_shrink,
    parent_update, row_of, split_shape,
};
use crate::train::table::{lemma_scattered, row_sum, scattered, selected};
use crate::train::trainer::TrainConfig;
use vstd::prelude::*;

verus! {

/// The rows after a split. A splat that is not split keeps its row. The k-th that is split
/// stays where it is in the table, moved back by the k-th sample, and its other half stands
/// behind all others in the k-th place, moved ahead by the sample; the first keeps its
/// quaternion, and both have the same extent.
pub proof fn lemma_rows_after_split(
    rows: Seq<Seq<Scalar>>,
    plan: SplitPlan,
    samples: Seq<Vec3A>,
    i: int,
    k: int,
    j: int,
    m: Model,
)
    requires
        plan.wf(rows.len()),
        rows.len() <= i32::MAX,
        forall|i: int| 0 <= i < rows.len() ==> (#[trigger] rows[i]).len() == 10,
        0 <= i < rows.len(),
        0 <= j < 10,
    ensures
        ({
            let after = scattered(rows, plan.inds@, parent_updates(rows, plan, samples))
                + child_rows(rows, plan, samples);
            let n = rows.len() as int;
            &&& after.len() == n + plan.inds@.len()
            &&& !plan.inds@.contains(i as i32) ==> after[i] == rows[i]
            &&& 0 <= k < plan.inds@.len() ==> {
                let p = plan.inds@[k] as int;
                let ahead = seq![samples[k].x, samples[k].y, samples[k].z];
                let before = rows[p][j].value(m);
                &&& j < 3 ==> after[p][j].value(m) == before - ahead[j].value(m)
                &&& j < 3 ==> after[n + k][j].value(m) == before + ahead[j].value(m)
                &&& 3 <= j < 7 ==> after[p][j].value(m) == before
                &&& 7 <= j ==> after[p][j].value(m) == after[n + k][j].value(m)
            }
        }),
{
    let update = parent_updates(rows, plan, samples);
    lemma_scattered(rows, plan.inds@, update);
    if 0 <= k < plan.inds@.len() {
        let p = plan.inds@[k] as int;
        assert(0 <= plan.inds@[k] < rows.len());
        assert(update[k] == parent_update(row_of(rows[p]), plan.shapes@[k], samples[k]));
        lemma_split_keeps_centroid(rows[p], plan.shapes@[k], samples[k], j, m);
        let after = scattered(rows, plan.inds@, update) + child_rows(rows, plan, samples);
        assert(after[p] == row_sum(rows[p], update[k]));
        assert(after[rows.len() + k] == child_rows(rows, plan, samples)[k]);
    }
}

/// The halves of a splat that was split as its own numbers ask for, in the table: the child
/// is turned as the splat was, its quaternion scaled to unit length; along each axis both
/// halves have given up their part of the extent, in proportion to its square, and the
/// shape's offset makes up for it. With `len` the length of the quaternion, `big` the
/// largest of the squared extents and `least` the factor of the longest axis.
pub proof fn lemma_halves_after_split(
    rows: Seq<Seq<Scalar>>,
    plan: SplitPlan,
    samples: Seq<Vec3A>,
    screen_size: Scalar,
    split_at_screen_size: Single,
    len: real,
    big: real,
    k: int,
    j: int,
    m: Model,
)
    requires
        m.sound(),
        m.logarithmic(),
        is_finite(split_at_screen_size),
        plan.wf(rows.len()),
        rows.len() <= i32::MAX,
        forall|i: int| 0 <= i < rows.len() ==> (#[trigger] rows[i]).len() == 10,
        0 <= k < plan.inds@.len(),
        3 <= j < 10,
        ({
            let row = rows[plan.inds@[k] as int];
            &&& plan.shapes@[k] == split_shape(&row_of(row), &screen_size, split_at_screen_size)
            &&& len >= pow10(-32)
            &&& len * len == row[3].value(m) * row[3].value(m) + row[4].value(m) * row[4].value(m)
                + row[5].value(m) * row[5].value(m) + row[6].value(m) * row[6].value(m)
            &&& is_largest_square(
                (m.exp)(row[7].value(m)),
                (m.exp)(row[8].value(m)),
                (m.exp)(row[9].value(m)),
                big,
            )
        }),
    ensures
        ({
            let after = scattered(rows, plan.inds@, parent_updates(rows, plan, samples))
                + child_rows(rows, plan, samples);
            let n = rows.len() as int;
            let p = plan.inds@[k] as int;
            let offset = plan.shapes@[k].offset_local;
            let moved = seq![offset.x, offset.y, offset.z];
            let least = max_axis_shrink(&screen_size, split_at_screen_size).value(m);
            &&& j < 7 ==> after[n + k][j].value(m) * len == rows[p][j].value(m)
            &&& 7 <= j ==> {
                let e = (m.exp)(rows[p][j].value(m));
                let half = (m.exp)(after[n + k][j].value(m));
                let o = moved[j - 7].value(m);
                &&& after[p][j].value(m) == after[n + k][j].value(m)
                &&& (e - half) * big == e * (e * e) * (1real - least)
                &&& half * half + o * o == e * e
                &&& o >= 0real
                &&& 0real < half <= e
            }
        }),
{
    let p = plan.inds@[k] as int;
    assert(0 <= plan.inds@[k] < rows.len());
    lemma_rows_after_split(rows, plan, samples, p, k, j, m);
    let after = scattered(rows, plan.inds@, parent_updates(rows, plan, samples))
        + child_rows(rows, plan, samples);
    lemma_scattered(rows, plan.inds@, parent_updates(rows, plan, samples));
    assert(after[rows.len() + k] == child_row(row_of(rows[p]), plan.shapes@[k], samples[k]));
    lemma_halves(rows[p], screen_size, split_at_screen_size, samples[k], len, big, j, m);
}

/// The colours after a split: every splat keeps its own, and the k-th half has those of
/// the splat that was split.
pub proof fn lemma_colors_after_split(rows: Seq<Seq<Scalar>>, inds: Seq<i32>, i: int, k: int)
    requires
        0 <= i < rows.len(),
        0 <= k < inds.len(),
    ensures
        ({
            let after = rows + selected(rows, inds);
            &&& after.len() == rows.len() + inds.len()
            &&& after[i] == rows[i]
            &&& after[rows.len() + k] == rows[inds[k] as int]
        }),
{
}

/// The opacities after a refinement. A splat that is not split loses what the decay takes.
/// The halves of one that is split let through the same power of what it let through,
/// neither too faint to be kept nor opaque, and lose what the decay takes too.
pub proof fn lemma_opacities_after_split(
    rows: Seq<Seq<Scalar>>,
    inds: Seq<i32>,
    minus_opac: Scalar,
    i: int,
    k: int,
    half: real,
    m: Model,
)
    requires
        m.sound(),
        m.logarithmic(),
        rows.len() <= i32::MAX,
        forall|k: int| 0 <= k < inds.len() ==> 0 <= #[trigger] inds[k] < rows.len(),
        inds.no_duplicates(),
        forall|i: int| 0 <= i < rows.len() ==> (#[trigger] rows[i]).len() == 1,
        0 <= i < rows.len(),
        0 <= k < inds.len() ==> is_limited(
            1real - (m.pow)(
                1real - sigmoid(&rows[inds[k] as int][0]).value(m),
                frac_1_sqrt_2().value(m),
            ),
            1real / 255real,
            254real / 255real,
            half,
        ),
    ensures
        ({
            let after = decayed(
                scattered(rows, inds, opacity_updates(rows, inds)) + child_opacities(rows, inds),
                minus_opac,
            );
            let n = rows.len() as int;
            let tiny = pow10(-12);
            let lost = minus_opac.value(m);
            &&& after.len() == n + inds.len()
            &&& !inds.contains(i as i32) ==> is_limited(
                sigmoid(&rows[i][0]).value(m) - lost,
                tiny,
                1real - tiny,
                sigmoid(&after[i][0]).value(m),
            )
            &&& 0 <= k < inds.len() ==> {
                let p = inds[k] as int;
                &&& is_limited(
                    half - lost,
                    tiny,
                    1real - tiny,
                    sigmoid(&after[p][0]).value(m),
                )
                &&& is_limited(
                    half - lost,
                    tiny,
                    1real - tiny,
                    sigmoid(&after[n + k][0]).value(m),
                )
            }
        }),
{
    broadcast use group_value;

    let update = opacity_updates(rows, inds);
    let n = rows.len() as int;
    lemma_scattered(rows, inds, update);
    let all = scattered(rows, inds, update) + child_opacities(rows, inds);
    let after = decayed(all, minus_opac);
    if !inds.contains(i as i32) {
        assert(after[i] == seq![decayed_raw_opacity(&rows[i][0], &minus_opac)]);
        lemma_decayed_opacity(rows[i][0], minus_opac, m);
    }
    if 0 <= k < inds.len() {
        let p = inds[k] as int;
        assert(0 <= inds[k] < rows.len());
        let raw = rows[p][0];
        let child = child_raw_opacity(&raw);
        assert(rows[p].len() == 1);
        assert(update[k] == seq![child - raw]);
        assert(all[p] == row_sum(rows[p], update[k]));
        assert(all[p][0] == raw + (child - raw));
        assert(all[p][0].value(m) == child.value(m));
        assert(all[n + k] == seq![child]);
        assert(after[p][0] == decayed_raw_opacity(&all[p][0], &minus_opac));
        assert(after[n + k][0] == decayed_raw_opacity(&child, &minus_opac));
        lemma_child_opacity_is_exact(raw, m);
        assert(sigmoid(&child).value(m) == half);
        assert(sigmoid(&all[p][0]).value(m) == half);
        lemma_decayed_opacity(all[p][0], minus_opac, m);
        lemma_decayed_opacity(child, minus_opac, m);
    }
}

/// Growth draws nothing once it has stopped. Before, it draws as many indices as it can
/// without exceeding its target together with those that replace dropped splats, and
/// without exceeding the cap together with the splats there are and those to be split.
pub proof fn lemma_growth_quota(
    config: TrainConfig,
    iter: u32,
    growth_target: u32,
    pruned_count: u32,
    count: nat,
    set: Set<i32>,
)
    ensures
        ({
            let q = quota(config, iter, growth_target, pruned_count, count, set);
            &&& iter >= config.growth_stop_iter ==> q == 0
            &&& q >= 0
            &&& q > 0 ==> q + pruned_count <= growth_target && count + set.len() + q
                <= config.max_splats
            &&& iter < config.growth_stop_iter ==> q + 1 + pruned_count > growth_target || count
                + set.len() + q + 1 > config.max_splats
        }),
{
}

/// The room is what the cap leaves over the splats there are and those to be split, and
/// there is none where these exceed the cap.
pub proof fn lemma_headroom(max_splats: u32, count: nat, set: Set<i32>)
    ensures
        ({
            let room = headroom(max_splats, count, set);
            &&& count + set.len() <= max_splats ==> count + set.len() + room == max_splats
            &&& count + set.len() > max_splats ==> room == 0
        }),
{
}

/// Indices are added from the front, every one up to some place in the list and none
/// after it: the list ends there, or the budget is used up.
pub proof fn lemma_inserted_from_the_front(set: Set<i32>, inds: Seq<i32>, budget: int) -> (cut: int)
    requires
        set.finite(),
        budget >= 0,
    ensures
        0 <= cut <= inds.len(),
        insert_within(set, inds, budget) == set.union(inds.take(cut).to_set()),
        insert_within(set, inds, budget).finite(),
        cut < inds.len() ==> insert_within(set, inds, budget).len() == set.len() + budget,
        insert_within(set, inds, budget).len() <= set.len() + budget,
    decreases inds.len(),
{
    if inds.len() == 0 || budget <= 0 {
        assert(set.union(inds.take(0).to_set()) =~= set);
        0
    } else {
        let rest = inds.drop_first();
        let (next, left) = if set.contains(inds[0]) {
            (set, budget)
        } else {
            (set.insert(inds[0]), budget - 1)
        };
        let c = lemma_inserted_from_the_front(next, rest, left);
        let (long, short) = (inds.take(c + 1), rest.take(c));
        assert forall|i: i32|
            set.union(long.to_set()).contains(i) == next.union(short.to_set()).contains(i) by {
            if long.contains(i) {
                let k = choose|k: int| 0 <= k < long.len() && long[k] == i;
                if k > 0 {
                    assert(short[k - 1] == i);
                }
            }
            if short.contains(i) {
                let k = choose|k: int| 0 <= k < short.len() && short[k] == i;
                assert(long[k + 1] == i);
            }
            assert(long[0] == inds[0]);
        }
        assert(set.union(long.to_set()) =~= next.union(short.to_set()));
        c + 1
    }
}

} // verus!
