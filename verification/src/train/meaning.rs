//! What the formulas of training do over the reals.
use crate::cube::{sigmoid, Vec3A};
use crate::expr::algebra::{
    dist_add, dist_sub_left, div_undone, mul_assoc, mul_comm, mul_eq, mul_swap, reciprocal,
};
use crate::expr::semantics::{group_value, pow10, pow2, single_value, Model};
use crate::expr::{decimal, single, whole, Cond, Scalar};
use crate::kernels::visibility::Machine;
use crate::number::{lemma_positive, Single};
use crate::train::masks::{distance_per_axis, max_allowed_bounds, pruned, row_non_finite};
use crate::train::min_scale::{least_pixel_size, pixel_size};
use crate::train::record::Splats;
use crate::train::refine_splats::reset_moments;
use crate::train::split::{
    axis_offset, axis_ratio, axis_shrink, child_log_scale, child_raw_opacity, child_row,
    decayed_raw_opacity, extent, frac_1_sqrt_2, inv_sigmoid, max_axis_shrink, min_opacity,
    opacity_decay, parent_update, row_of, split_shape, SplitShape, TransformRow,
};
use crate::train::step::{noise_weight, noised, sample_background_color};
use crate::train::table::{in_range, lemma_scattered, row_neg, row_sum, selected, zero_row};
use crate::train::trainer::{BoundingBox, ViewCam};
use vstd::prelude::*;

verus! {

impl Model {
    /// The logarithm undoes the exponential, which turns sums into products.
    pub open spec fn logarithmic(self) -> bool {
        &&& (self.exp)(0real) == 1real
        &&& forall|x: real, y: real|
            y > 0real ==> (self.exp)(x + #[trigger] (self.ln)(y)) == #[trigger] (self.exp)(x) * y
    }
}

proof fn spread(k: real, f: real, s: real)
    requires
        f * f == 1real - k * k,
    ensures
        k * s * (k * s) + f * s * (f * s) == s * s,
{
    assert(k * s * (k * s) == k * k * s * s) by {
        mul_swap(k, s, k);
        mul_assoc(k * s, k, s);
    }
    assert(f * s * (f * s) == f * f * s * s) by {
        mul_swap(f, s, f);
        mul_assoc(f * s, f, s);
    }
    assert(f * f * s * s == s * s - k * k * s * s) by {
        mul_eq(s * s, f * f, s * s, 1real - k * k);
        mul_swap(s, s, f);
        mul_comm(s, f);
        mul_assoc(s * s, f, f);
        mul_swap(f * s, s, f);
        mul_swap(f, s, f);
        dist_sub_left(s * s, 1real, k * k);
        mul_swap(s, s, k);
        mul_comm(s, k);
        mul_assoc(s * s, k, k);
        mul_swap(k * s, s, k);
        mul_swap(k, s, k);
    }
}

proof fn scaled_back(i: real, c: real, v: real)
    requires
        v * i == 1real,
    ensures
        i * c * v == c,
{
    assert(v * i == i * v) by {
        mul_comm(v, i);
    }
    assert(i * c * v == c) by {
        mul_eq(c, v * i, c, 1real);
        mul_eq(c, v * i, c, i * v);
        mul_comm(c, i);
        mul_assoc(c, i, v);
    }
}

pub(crate) proof fn product_range(a: real, b: real)
    requires
        0real <= a <= 1real,
        0real <= b,
    ensures
        0real <= a * b <= b,
{
    assert(0real <= a * b <= b) by (nonlinear_arith)
        requires
            0real <= a <= 1real,
            0real <= b,
    ;
}

pub(crate) proof fn quotient_range(x: real, y: real)
    requires
        0real <= x <= y,
        y > 0real,
    ensures
        0real <= x / y <= 1real,
{
    let q = x / y;
    div_undone(x, y);
    assert(0real <= q <= 1real) by (nonlinear_arith)
        requires
            q * y == x,
            0real <= x <= y,
            y > 0real,
    ;
}

pub(crate) proof fn quotient_positive(x: real, y: real)
    requires
        x > 0real,
        y > 0real,
    ensures
        x / y > 0real,
{
    let q = x / y;
    div_undone(x, y);
    assert(q > 0real) by (nonlinear_arith)
        requires
            q * y == x,
            x > 0real,
            y > 0real,
    ;
}

pub(crate) proof fn square_range(k: real)
    requires
        0real <= k <= 1real,
    ensures
        0real <= k * k <= 1real,
{
    product_range(k, k);
}

/// The single-precision number next to the inverse of the square root of two lies
/// between nothing and one.
pub(crate) proof fn lemma_frac()
    ensures
        0real < single_value(0x3f35_04f3) < 1real,
{
    assert((0x3f35_04f3u32 / 0x80_0000u32) % 256u32 == 126u32) by (bit_vector);
    assert(0x3f35_04f3u32 % 0x80_0000u32 == 0x35_04f3u32) by (bit_vector);
    assert(pow2(-24) == 1real / 16777216real) by {
        reveal_with_fuel(pow2, 26);
    }
}

/// The halves of a split stand at equal distances on either side of the splat that
/// was split, and have the same extent; the parent keeps its rotation and the child
/// has that of the shape.
pub proof fn lemma_split_keeps_centroid(
    row: Seq<Scalar>,
    shape: SplitShape,
    sample: Vec3A,
    j: int,
    m: Model,
)
    requires
        row.len() == 10,
        0 <= j < 10,
    ensures
        ({
            let parent = row_sum(row, parent_update(row_of(row), shape, sample));
            let child = child_row(row_of(row), shape, sample);
            let ahead = seq![sample.x, sample.y, sample.z];
            let turn = seq![
                shape.rotation.w,
                shape.rotation.x,
                shape.rotation.y,
                shape.rotation.z,
            ];
            &&& parent.len() == 10
            &&& child.len() == 10
            &&& j < 3 ==> parent[j].value(m) + child[j].value(m) == 2real * row[j].value(m)
            &&& j < 3 ==> child[j].value(m) == row[j].value(m) + ahead[j].value(m)
            &&& 3 <= j < 7 ==> parent[j].value(m) == row[j].value(m)
            &&& 3 <= j < 7 ==> child[j].value(m) == turn[j - 3].value(m)
            &&& 7 <= j ==> parent[j].value(m) == child[j].value(m)
        }),
{
    broadcast use group_value;

}

/// How far the halves move makes up for how much they shrink: along each axis
/// the spread of both together is that of the splat that was split.
pub proof fn lemma_axis_spread(k: Scalar, scale: Scalar, m: Model)
    requires
        m.sound(),
        0real <= k.value(m) <= 1real,
    ensures
        ({
            let s = scale.value(m);
            let o = axis_offset(&k, &scale).value(m);
            (k.value(m) * s) * (k.value(m) * s) + o * o == s * s
        }),
{
    broadcast use group_value;

    let kv = k.value(m);
    let s = scale.value(m);
    square_range(kv);
    let left = 1real - kv * kv;
    let f = (m.sqrt)(left);
    assert(whole(2).value(m) == 2real);
    assert(k.pow(&whole(2)).value(m) == kv * kv);
    assert(axis_offset(&k, &scale).value(m) == f * s);
    assert(f * f == left);
    spread(kv, f, s);
}

/// The ratios of the squared extents lie between nothing and one.
pub proof fn lemma_axis_ratio(scale: Vec3A, m: Model)
    requires
        m.sound(),
    ensures
        ({
            let r = axis_ratio(&scale).value(m);
            &&& 0real <= r.x <= 1real
            &&& 0real <= r.y <= 1real
            &&& 0real <= r.z <= 1real
        }),
{
    broadcast use group_value;

    let s = scale.value(m);
    assert(s.x * s.x >= 0real) by (nonlinear_arith);
    assert(s.y * s.y >= 0real) by (nonlinear_arith);
    assert(s.z * s.z >= 0real) by (nonlinear_arith);
    let two = whole(2);
    let sx = scale.x.pow(&two);
    let sy = scale.y.pow(&two);
    let sz = scale.z.pow(&two);
    let tiny = decimal(1, (-30) as i32);
    let max = sx.max(&sy).max(&sz).max(&tiny);
    assert(tiny.value(m) > 0real) by {
        lemma_pow10_positive(-30);
        assert(1real * pow10(-30) == pow10(-30));
    }
    assert(sx.value(m) == s.x * s.x && sy.value(m) == s.y * s.y && sz.value(m) == s.z * s.z);
    quotient_range(sx.value(m), max.value(m));
    quotient_range(sy.value(m), max.value(m));
    quotient_range(sz.value(m), max.value(m));
}

/// Powers of ten are positive.
pub(crate) proof fn lemma_pow10_positive(e: int)
    ensures
        pow10(e) > 0real,
    decreases (if e < 0 { -e } else { e }),
{
    if e > 0 {
        lemma_pow10_positive(e - 1);
    } else if e < 0 {
        lemma_pow10_positive(e + 1);
    }
}

/// The limit on the size on screen is a number.
pub open spec fn is_finite(x: Single) -> bool {
    x.bits % 0x8000_0000 < 0x7f80_0000
}

/// The longest axis shrinks by a factor between nothing and one. Where sizes on
/// screen are limited, both halves come out within the limit along it, and a
/// splat whose halves would be within it anyway shrinks no harder than without
/// the limit.
pub proof fn lemma_max_axis_shrink(screen_size: Scalar, split_at_screen_size: Single, m: Model)
    requires
        is_finite(split_at_screen_size),
    ensures
        ({
            let k = max_axis_shrink(&screen_size, split_at_screen_size).value(m);
            let cap = single_value(split_at_screen_size.bits);
            let frac = frac_1_sqrt_2().value(m);
            let seen = screen_size.value(m);
            &&& 0real < k <= frac < 1real
            &&& cap <= 0real ==> k == frac
            &&& cap > 0real && seen >= 0real ==> k * seen <= cap
            &&& cap > 0real && seen >= pow10(-6) && frac * seen <= cap ==> k == frac
        }),
{
    broadcast use group_value;

    lemma_frac();
    lemma_positive(split_at_screen_size);
    let frac = frac_1_sqrt_2().value(m);
    let cap = single_value(split_at_screen_size.bits);
    let seen = screen_size.value(m);
    let tiny = decimal(1, (-6) as i32);
    lemma_pow10_positive(-6);
    assert(tiny.value(m) == pow10(-6));
    if cap > 0real {
        let size = screen_size.max(&tiny);
        let inv = 1real / size.value(m);
        assert(single(split_at_screen_size.bits).value(m) == cap);
        reciprocal(size.value(m));
        quotient_positive(1real, size.value(m));
        let sv = size.value(m);
        let k0 = inv * cap;
        assert(k0 > 0real) by (nonlinear_arith)
            requires
                k0 == inv * cap,
                inv > 0real,
                cap > 0real,
        ;
        scaled_back(inv, cap, sv);
        let k = max_axis_shrink(&screen_size, split_at_screen_size).value(m);
        assert(k == if k0 <= frac { k0 } else { frac });
        if seen >= 0real {
            assert(k * seen <= cap) by (nonlinear_arith)
                requires
                    0real < k <= k0,
                    0real <= seen <= sv,
                    k0 * sv == cap,
            ;
        }
        if seen >= pow10(-6) && frac * seen <= cap {
            assert(k0 >= frac) by (nonlinear_arith)
                requires
                    k0 * sv == cap,
                    frac * sv <= cap,
                    sv > 0real,
            ;
        }
    }
}

/// Every axis shrinks by a factor between that of the longest axis and one.
pub proof fn lemma_axis_shrink(
    ratio: Scalar,
    screen_size: Scalar,
    split_at_screen_size: Single,
    m: Model,
)
    requires
        is_finite(split_at_screen_size),
        0real <= ratio.value(m) <= 1real,
    ensures
        ({
            let k = axis_shrink(&ratio, &screen_size, split_at_screen_size).value(m);
            let least = max_axis_shrink(&screen_size, split_at_screen_size).value(m);
            &&& 0real < least <= k <= 1real
            &&& ratio.value(m) == 1real ==> k == least
            &&& ratio.value(m) == 0real ==> k == 1real
        }),
{
    broadcast use group_value;

    lemma_max_axis_shrink(screen_size, split_at_screen_size, m);
    let least = max_axis_shrink(&screen_size, split_at_screen_size).value(m);
    let r = ratio.value(m);
    product_range(r, 1real - least);
    if r == 0real {
        assert(r * (1real - least) == 0real) by (nonlinear_arith)
            requires
                r == 0real,
        ;
    }
    if r == 1real {
        assert(r * (1real - least) == 1real - least) by (nonlinear_arith)
            requires
                r == 1real,
        ;
    }
}

/// A split keeps the spread along each axis: with `e` the extent of the halves
/// and `o` how far each moves, `e^2 + o^2` is the square of the extent of the
/// splat that was split.
pub proof fn lemma_split_keeps_spread(
    row: TransformRow,
    screen_size: Scalar,
    split_at_screen_size: Single,
    m: Model,
)
    requires
        m.sound(),
        m.logarithmic(),
        is_finite(split_at_screen_size),
    ensures
        ({
            let shape = split_shape(&row, &screen_size, split_at_screen_size);
            let s = extent(&row.log_scale).value(m);
            let e = extent(&child_log_scale(&row.log_scale, &shape.shrink)).value(m);
            let o = shape.offset_local.value(m);
            &&& e.x * e.x + o.x * o.x == s.x * s.x
            &&& e.y * e.y + o.y * o.y == s.y * s.y
            &&& e.z * e.z + o.z * o.z == s.z * s.z
            &&& 0real < e.x <= s.x
            &&& 0real < e.y <= s.y
            &&& 0real < e.z <= s.z
        }),
{
    let scale = extent(&row.log_scale);
    let ratio = axis_ratio(&scale);
    let shape = split_shape(&row, &screen_size, split_at_screen_size);
    lemma_axis_ratio(scale, m);
    lemma_axis_shrink(ratio.x, screen_size, split_at_screen_size, m);
    lemma_axis_shrink(ratio.y, screen_size, split_at_screen_size, m);
    lemma_axis_shrink(ratio.z, screen_size, split_at_screen_size, m);
    lemma_axis_spread(shape.shrink.x, scale.x, m);
    lemma_axis_spread(shape.shrink.y, scale.y, m);
    lemma_axis_spread(shape.shrink.z, scale.z, m);
    lemma_child_extent(row.log_scale.x, shape.shrink.x, m);
    lemma_child_extent(row.log_scale.y, shape.shrink.y, m);
    lemma_child_extent(row.log_scale.z, shape.shrink.z, m);
    assert(scale.x == row.log_scale.x.exp());
}

/// The extent of a half along an axis is that of the splat times the factor.
pub(crate) proof fn lemma_child_extent(log_scale: Scalar, k: Scalar, m: Model)
    requires
        m.sound(),
        m.logarithmic(),
        0real < k.value(m) <= 1real,
    ensures
        ({
            let s = log_scale.exp().value(m);
            let e = (log_scale + k.ln()).exp().value(m);
            &&& e == k.value(m) * s
            &&& 0real < e <= s
        }),
{
    broadcast use group_value;

    let s = log_scale.exp().value(m);
    let kv = k.value(m);
    assert((log_scale + k.ln()).value(m) == log_scale.value(m) + (m.ln)(kv));
    mul_comm(s, kv);
    product_range(kv, s);
    assert(kv * s > 0real) by (nonlinear_arith)
        requires
            kv > 0real,
            s > 0real,
    ;
}

/// The logistic function undoes the logit.
pub proof fn lemma_inv_sigmoid(x: Scalar, m: Model)
    requires
        m.sound(),
        m.logarithmic(),
        0real < x.value(m) < 1real,
    ensures
        sigmoid(&inv_sigmoid(&x)).value(m) == x.value(m),
{
    broadcast use group_value;

    let p = x.value(m);
    let q = 1real - p;
    let odds = p / q;
    quotient_positive(p, q);
    let l = (m.ln)(odds);
    let e = (m.exp)(-l);
    assert((m.exp)(-l + (m.ln)(odds)) == e * odds);
    assert(e * odds == 1real);
    div_undone(p, q);
    assert(sigmoid(&inv_sigmoid(&x)).value(m) == 1real / (1real + e));
    let r = 1real / (1real + e);
    assert(r * (1real + e) == 1real) by {
        div_undone(1real, 1real + e);
    }
    assert((1real + e) * p == 1real) by {
        dist_add(1real, e, p);
        mul_assoc(e, odds, q);
        mul_comm(e * odds, q);
    }
    assert(r == p) by (nonlinear_arith)
        requires
            r * (1real + e) == 1real,
            (1real + e) * p == 1real,
    ;
}

/// Both halves of a split are neither too faint to be kept nor opaque.
pub proof fn lemma_child_opacity(raw_opac: Scalar, m: Model)
    requires
        m.sound(),
        m.logarithmic(),
    ensures
        ({
            let o = sigmoid(&child_raw_opacity(&raw_opac)).value(m);
            let least = min_opacity().value(m);
            &&& 0real < least
            &&& least <= o <= 1real - least
        }),
{
    broadcast use group_value;

    let inv_opac = whole(1) - sigmoid(&raw_opac);
    let new_opac = whole(1) - inv_opac.pow(&frac_1_sqrt_2());
    let x = new_opac.clamp(&min_opacity(), &(whole(1) - min_opacity()));
    assert(min_opacity().value(m) == 1real / 255real);
    lemma_inv_sigmoid(x, m);
}

/// The decay takes `minus_opac` off the opacity, as far as that leaves one.
pub proof fn lemma_decayed_opacity(raw_opac: Scalar, minus_opac: Scalar, m: Model)
    requires
        m.sound(),
        m.logarithmic(),
    ensures
        ({
            let o = sigmoid(&decayed_raw_opacity(&raw_opac, &minus_opac)).value(m);
            let left = sigmoid(&raw_opac).value(m) - minus_opac.value(m);
            let tiny = pow10(-12);
            &&& left < tiny ==> o == tiny
            &&& left > 1real - tiny ==> o == 1real - tiny
            &&& tiny <= left <= 1real - tiny ==> o == left
        }),
{
    broadcast use group_value;

    let tiny = decimal(1, (-12) as i32);
    lemma_pow10_positive(-12);
    assert(tiny.value(m) == pow10(-12));
    assert(2real * pow10(-12) < 1real) by {
        reveal_with_fuel(pow10, 14);
    }
    let x = (sigmoid(&raw_opac) - minus_opac).clamp(&tiny, &(whole(1) - tiny));
    lemma_inv_sigmoid(x, m);
}

/// The decay falls from its full strength at the start to nothing at the end of
/// training, and stays there.
pub proof fn lemma_opacity_decay(iter: u32, total_train_iters: u32, opac_decay: Single, m: Model)
    requires
        total_train_iters > 0,
        single_value(opac_decay.bits) >= 0real,
    ensures
        ({
            let d = opacity_decay(iter, total_train_iters, opac_decay).value(m);
            let full = single_value(opac_decay.bits);
            &&& 0real <= d <= full
            &&& iter == 0 ==> d == full
            &&& iter >= total_train_iters ==> d == 0real
        }),
{
    broadcast use group_value;

    let full = single_value(opac_decay.bits);
    assert(single(opac_decay.bits).value(m) == full);
    let i = iter as real;
    let n = total_train_iters as real;
    let q = i / n;
    assert(whole(iter as i64).value(m) == i);
    assert(whole(total_train_iters as i64).value(m) == n);
    div_undone(i, n);
    if iter == 0 {
        assert(q == 0real) by (nonlinear_arith)
            requires
                q * n == 0real,
                n > 0real,
        ;
    }
    if iter >= total_train_iters {
        assert(q >= 1real) by (nonlinear_arith)
            requires
                q * n == i,
                i >= n,
                n > 0real,
        ;
    }
    let t = if q < 0real { 0real } else if q > 1real { 1real } else { q };
    product_range(1real - t, full);
    mul_comm(full, 1real - t);
    let d = full * (1real - t);
    assert(opacity_decay(iter, total_train_iters, opac_decay).value(m) == d);
    assert(t == 0real ==> d == full) by (nonlinear_arith)
        requires
            d == full * (1real - t),
    ;
    assert(t == 1real ==> d == 0real) by (nonlinear_arith)
        requires
            d == full * (1real - t),
    ;
}

/// Both halves of a split start with no moments.
pub proof fn lemma_split_resets_moments(
    rows: Seq<Seq<Scalar>>,
    inds: Seq<i32>,
    k: int,
    j: int,
    m: Model,
)
    requires
        in_range(inds, rows.len()),
        inds.no_duplicates(),
        0 <= k < inds.len(),
        0 <= j < rows[inds[k] as int].len(),
    ensures
        ({
            let after = reset_moments(rows, inds);
            &&& after.len() == rows.len() + inds.len()
            &&& after[inds[k] as int][j].value(m) == 0real
            &&& after[rows.len() + k][j].value(m) == 0real
        }),
{
    let update = selected(rows, inds).map_values(|row: Seq<Scalar>| row_neg(row));
    let i = inds[k] as int;
    lemma_scattered(rows, inds, update);
    assert(0 <= inds[k] < rows.len());
    assert(update[k] == row_neg(rows[i]));
    let after = reset_moments(rows, inds);
    assert(after[i] == row_sum(rows[i], row_neg(rows[i])));
    assert(after[rows.len() + k] == zero_row(rows[i].len()));
    broadcast use group_value;

}

/// The moments of a splat that is not split stay as they are.
pub proof fn lemma_split_keeps_moments(rows: Seq<Seq<Scalar>>, inds: Seq<i32>, i: int)
    requires
        in_range(inds, rows.len()),
        inds.no_duplicates(),
        0 <= i < rows.len() <= i32::MAX,
        !inds.contains(i as i32),
    ensures
        reset_moments(rows, inds)[i] == rows[i],
{
    let update = selected(rows, inds).map_values(|row: Seq<Scalar>| row_neg(row));
    lemma_scattered(rows, inds, update);
}

/// The floor of a splat goes by the view that is nearest: no view has smaller
/// pixels where the splat is, and one has pixels of that size.
pub proof fn lemma_least_pixel_size(mean: Vec3A, cams: Seq<ViewCam>, m: Model)
    requires
        cams.len() > 0,
    ensures
        forall|v: int|
            0 <= v < cams.len() ==> least_pixel_size(mean, cams).value(m) <= pixel_size(
                &mean,
                &#[trigger] cams[v],
            ).value(m),
        exists|v: int|
            0 <= v < cams.len() && least_pixel_size(mean, cams).value(m) == pixel_size(
                &mean,
                &#[trigger] cams[v],
            ).value(m),
    decreases cams.len(),
{
    broadcast use group_value;

    if cams.len() == 1 {
        assert(least_pixel_size(mean, cams) == pixel_size(&mean, &cams[0]));
    } else {
        let init = cams.drop_last();
        lemma_least_pixel_size(mean, init, m);
        let least = least_pixel_size(mean, init).value(m);
        assert forall|v: int| 0 <= v < cams.len() implies least_pixel_size(mean, cams).value(m)
            <= pixel_size(&mean, &#[trigger] cams[v]).value(m) by {
            if v < init.len() {
                assert(init[v] == cams[v]);
            }
        }
        let v = choose|v: int|
            0 <= v < init.len() && least == pixel_size(&mean, &#[trigger] init[v]).value(m);
        assert(init[v] == cams[v]);
        assert(cams[cams.len() - 1] == cams.last());
    }
}

/// The test on a row finds what is not finite in it, and nothing else.
pub proof fn lemma_row_non_finite(row: Seq<Scalar>, d: Machine)
    requires
        row.len() > 0,
    ensures
        row_non_finite(row).passes(d) == exists|j: int|
            0 <= j < row.len() && !(#[trigger] row[j]).is_usable(d),
    decreases row.len(),
{
    reveal_with_fuel(Cond::passes, 3);
    if row.len() == 1 {
        assert(row_non_finite(row).passes(d) == !row[0].is_usable(d));
    } else {
        let init = row.drop_last();
        lemma_row_non_finite(init, d);
        assert(row[row.len() - 1] == row.last());
        if exists|j: int| 0 <= j < init.len() && !(#[trigger] init[j]).is_usable(d) {
            let j = choose|j: int| 0 <= j < init.len() && !(#[trigger] init[j]).is_usable(d);
            assert(row[j] == init[j]);
        }
        if exists|j: int| 0 <= j < row.len() && !(#[trigger] row[j]).is_usable(d) {
            let j = choose|j: int| 0 <= j < row.len() && !(#[trigger] row[j]).is_usable(d);
            if j < init.len() {
                assert(row[j] == init[j]);
            }
        }
    }
}

/// A splat that a refinement keeps has only finite parameters.
pub proof fn lemma_kept_splats_are_finite(
    splats: Splats,
    opacities: Seq<Scalar>,
    scales: Seq<Vec3A>,
    bounds: BoundingBox,
    i: int,
    d: Machine,
)
    requires
        splats.wf(),
        0 <= i < splats.count(),
        !pruned(&splats, opacities, scales, &bounds, i).passes(d),
    ensures
        forall|j: int| 0 <= j < 10 ==> (#[trigger] splats.transforms.value@[i][j]).is_usable(d),
        forall|j: int|
            0 <= j < splats.sh_coeffs.value@[i].len() ==> (
            #[trigger] splats.sh_coeffs.value@[i][j]).is_usable(d),
        splats.raw_opacities.value@[i][0].is_usable(d),
{
    assert(splats.transforms.value@[i].len() == 10);
    assert(splats.sh_coeffs.value@[i].len() > 0);
    assert(splats.raw_opacities.value@[i].len() == 1);
    lemma_row_non_finite(splats.transforms.value@[i], d);
    lemma_row_non_finite(splats.sh_coeffs.value@[i], d);
    lemma_row_non_finite(splats.raw_opacities.value@[i], d);
    assert(!splats.non_finite(i).passes(d)) by {
        reveal_with_fuel(Cond::passes, 2);
    }
    assert(!row_non_finite(splats.transforms.value@[i]).passes(d)) by {
        reveal_with_fuel(Cond::passes, 3);
    }
    assert(!row_non_finite(splats.sh_coeffs.value@[i]).passes(d)) by {
        reveal_with_fuel(Cond::passes, 3);
    }
    assert(!row_non_finite(splats.raw_opacities.value@[i]).passes(d)) by {
        reveal_with_fuel(Cond::passes, 3);
    }
}

/// A row of reals is finite.
pub(crate) proof fn lemma_reals_are_finite(row: Seq<Scalar>, m: Model)
    ensures
        !row_non_finite(row).holds(m),
    decreases row.len(),
{
    broadcast use group_value;

    if row.len() > 1 {
        lemma_reals_are_finite(row.drop_last(), m);
    }
}

/// However thin a splat is, a refinement keeps it if it can be seen, reaches no
/// further than it may and has not strayed.
pub proof fn lemma_thin_splats_are_kept(
    splats: Splats,
    opacities: Seq<Scalar>,
    scales: Seq<Vec3A>,
    bounds: BoundingBox,
    i: int,
    m: Model,
)
    requires
        opacities[i].value(m) >= min_opacity().value(m),
        ({
            let limit = max_allowed_bounds(&bounds).value(m);
            let s = scales[i].value(m);
            let away = distance_per_axis(&splats.mean(i), &bounds.center).value(m);
            &&& s.x <= limit && s.y <= limit && s.z <= limit
            &&& away.x <= limit && away.y <= limit && away.z <= limit
        }),
    ensures
        !pruned(&splats, opacities, scales, &bounds, i).holds(m),
{
    broadcast use group_value;

    lemma_reals_are_finite(splats.transforms.value@[i], m);
    lemma_reals_are_finite(splats.sh_coeffs.value@[i], m);
    lemma_reals_are_finite(splats.raw_opacities.value@[i], m);
}

/// Noise moves a coordinate by at most the size of the bounds, and leaves it
/// where it is when the splat was not seen.
pub proof fn lemma_noise_is_bounded(
    x: Scalar,
    sample: Scalar,
    weight: Scalar,
    median_scale: Scalar,
    m: Model,
)
    requires
        median_scale.value(m) >= 0real,
    ensures
        ({
            let moved = noised(&x, &sample, &weight, &median_scale).value(m) - x.value(m);
            &&& -median_scale.value(m) <= moved <= median_scale.value(m)
            &&& weight.value(m) == 0real ==> moved == 0real
        }),
{
    broadcast use group_value;

    assert(sample.value(m) * 0real == 0real);
}

/// The weight of the noise is at most that of being seen, and nothing for a splat
/// that was not.
pub proof fn lemma_noise_weight(opacity: Scalar, visible: Scalar, m: Model)
    requires
        visible.value(m) >= 0real,
    ensures
        0real <= noise_weight(&opacity, &visible).value(m) <= visible.value(m),
{
    broadcast use group_value;

    let w = (whole(1) - opacity).pow(&whole(150)).clamp(&whole(0), &whole(1));
    product_range(w.value(m), visible.value(m));
}

/// The background is a colour.
pub proof fn lemma_background_is_a_color(base: Vec3A, strength: Single, noise: Vec3A, m: Model)
    ensures
        ({
            let c = sample_background_color(&base, strength, &noise).value(m);
            &&& 0real <= c.x <= 1real
            &&& 0real <= c.y <= 1real
            &&& 0real <= c.z <= 1real
        }),
{
    broadcast use group_value;

}

} // verus!
