//! The halves of a split, number by number: where they stand, how they are turned, how
//! far they shrink along each axis, and how opaque they are.
use crate::cube::{sigmoid, Quat, Vec3A};
use crate::expr::algebra::{div_undone, reciprocal, same_root};
use crate::expr::semantics::{group_value, pow10, pow2, single_value, Model};
use crate::expr::{decimal, single, whole, Scalar};
use crate::number::{lemma_positive, Single};
use crate::train::meaning::{
    is_finite, lemma_axis_ratio, lemma_axis_shrink, lemma_axis_spread, lemma_child_extent,
    lemma_frac, lemma_inv_sigmoid, lemma_max_axis_shrink, lemma_pow10_positive,
    lemma_split_keeps_centroid,
};
use crate::train::split::{
    axis_offset, axis_ratio, axis_shrink, child_raw_opacity, child_row, extent, frac_1_sqrt_2,
    max_axis_shrink, min_opacity, opacity_decay, parent_update, row_of, split_shape,
    unit_rotation,
};
use crate::train::table::row_sum;
use vstd::prelude::*;

verus! {

pub(crate) proof fn square_is_not_negative(x: real)
    ensures
        x * x >= 0real,
{
    assert(x * x >= 0real) by (nonlinear_arith);
}

/// The unit rotation times the length of the quaternion is the quaternion, component
/// by component; a quaternion shorter than a tiny length counts as that long.
pub proof fn lemma_unit_rotation(q: Quat, len: real, m: Model)
    requires
        m.sound(),
        len >= 0real,
        len * len == q.w.value(m) * q.w.value(m) + q.x.value(m) * q.x.value(m) + q.y.value(m)
            * q.y.value(m) + q.z.value(m) * q.z.value(m),
    ensures
        ({
            let r = unit_rotation(&q);
            let k = if len >= pow10(-32) {
                len
            } else {
                pow10(-32)
            };
            &&& k > 0real
            &&& r.w.value(m) * k == q.w.value(m)
            &&& r.x.value(m) * k == q.x.value(m)
            &&& r.y.value(m) * k == q.y.value(m)
            &&& r.z.value(m) * k == q.z.value(m)
        }),
{
    broadcast use group_value;

    let (w, x, y, z) = (q.w.value(m), q.x.value(m), q.y.value(m), q.z.value(m));
    let sq = w * w + x * x + y * y + z * z;
    square_is_not_negative(w);
    square_is_not_negative(x);
    square_is_not_negative(y);
    square_is_not_negative(z);
    assert(whole(2).value(m) == 2real);
    assert((m.pow)(w, 2real) == w * w);
    assert((m.pow)(x, 2real) == x * x);
    assert((m.pow)(y, 2real) == y * y);
    assert((m.pow)(z, 2real) == z * z);
    same_root((m.sqrt)(sq), len, sq);
    lemma_pow10_positive(-32);
    let tiny = decimal(1, (-32) as i32);
    assert(tiny.value(m) == pow10(-32));
    let k = if len >= pow10(-32) {
        len
    } else {
        pow10(-32)
    };
    div_undone(w, k);
    div_undone(x, k);
    div_undone(y, k);
    div_undone(z, k);
}

/// The inverse of the square root of two, to single precision.
pub proof fn lemma_frac_1_sqrt_2(m: Model)
    ensures
        ({
            let f = frac_1_sqrt_2().value(m);
            &&& f > 0real
            &&& 999_999real < 2_000_000real * (f * f) < 1_000_001real
        }),
{
    broadcast use group_value;

    lemma_frac();
    assert((0x3f35_04f3u32 / 0x80_0000u32) % 256u32 == 126u32) by (bit_vector);
    assert(0x3f35_04f3u32 % 0x80_0000u32 == 0x35_04f3u32) by (bit_vector);
    assert(pow2(-24) == 1real / 16777216real) by {
        reveal_with_fuel(pow2, 26);
    }
    let f = frac_1_sqrt_2().value(m);
    assert(f == single_value(0x3f35_04f3));
    assert(16777216real * f == 11863283real);
    assert(999_999real < 2_000_000real * (f * f) < 1_000_001real) by (nonlinear_arith)
        requires
            16777216real * f == 11863283real,
    ;
}

/// Exactly how far the longest axis shrinks: to the limit on the size on screen, where
/// that asks for more than the usual factor. A splat that is tiny on screen counts as a
/// millionth of the screen.
pub proof fn lemma_longest_axis_meets_limit(
    screen_size: Scalar,
    split_at_screen_size: Single,
    m: Model,
)
    requires
        is_finite(split_at_screen_size),
    ensures
        ({
            let k = max_axis_shrink(&screen_size, split_at_screen_size).value(m);
            let cap = single_value(split_at_screen_size.bits);
            let frac = frac_1_sqrt_2().value(m);
            let seen = if screen_size.value(m) >= pow10(-6) {
                screen_size.value(m)
            } else {
                pow10(-6)
            };
            if cap > 0real && frac * seen > cap {
                k * seen == cap
            } else {
                k == frac
            }
        }),
{
    broadcast use group_value;

    lemma_max_axis_shrink(screen_size, split_at_screen_size, m);
    lemma_positive(split_at_screen_size);
    let cap = single_value(split_at_screen_size.bits);
    let frac = frac_1_sqrt_2().value(m);
    let tiny = decimal(1, (-6) as i32);
    lemma_pow10_positive(-6);
    assert(tiny.value(m) == pow10(-6));
    if cap > 0real {
        let sv = screen_size.max(&tiny).value(m);
        let k0 = 1real / sv * cap;
        let inv = 1real / sv;
        assert(single(split_at_screen_size.bits).value(m) == cap);
        reciprocal(sv);
        assert(k0 * sv == cap) by (nonlinear_arith)
            requires
                k0 == inv * cap,
                sv * inv == 1real,
        ;
        assert(k0 <= frac <==> frac * sv >= cap) by (nonlinear_arith)
            requires
                k0 * sv == cap,
                sv > 0real,
        ;
        assert(k0 == frac <==> frac * sv == cap) by (nonlinear_arith)
            requires
                k0 * sv == cap,
                sv > 0real,
        ;
    }
}

/// The ratio of an axis times the largest squared extent is its own squared extent.
/// Extents whose squares are all tiny are compared with a tiny square.
pub proof fn lemma_axis_ratio_is_exact(scale: Vec3A, big: real, m: Model)
    requires
        m.sound(),
        is_largest_square(scale.x.value(m), scale.y.value(m), scale.z.value(m), big),
    ensures
        ({
            let r = axis_ratio(&scale);
            let (x, y, z) = (scale.x.value(m), scale.y.value(m), scale.z.value(m));
            &&& big > 0real
            &&& r.x.value(m) * big == x * x
            &&& r.y.value(m) * big == y * y
            &&& r.z.value(m) * big == z * z
        }),
{
    broadcast use group_value;

    let (x, y, z) = (scale.x.value(m), scale.y.value(m), scale.z.value(m));
    assert(whole(2).value(m) == 2real);
    assert((m.pow)(x, 2real) == x * x);
    assert((m.pow)(y, 2real) == y * y);
    assert((m.pow)(z, 2real) == z * z);
    lemma_pow10_positive(-30);
    let tiny = decimal(1, (-30) as i32);
    assert(1real * pow10(-30) == pow10(-30));
    assert(tiny.value(m) == pow10(-30));
    div_undone(x * x, big);
    div_undone(y * y, big);
    div_undone(z * z, big);
}

/// `big` is the largest of the three squares, and at least a tiny number.
pub open spec fn is_largest_square(x: real, y: real, z: real, big: real) -> bool {
    &&& big >= x * x
    &&& big >= y * y
    &&& big >= z * z
    &&& big >= pow10(-30)
    &&& big == x * x || big == y * y || big == z * z || big == pow10(-30)
}

/// How much of its extent an axis gives up is in proportion to its ratio.
pub proof fn lemma_axis_shrink_is_linear(
    ratio: Scalar,
    screen_size: Scalar,
    split_at_screen_size: Single,
    m: Model,
)
    ensures
        1real - axis_shrink(&ratio, &screen_size, split_at_screen_size).value(m) == ratio.value(m)
            * (1real - max_axis_shrink(&screen_size, split_at_screen_size).value(m)),
{
    broadcast use group_value;

    let k = max_axis_shrink(&screen_size, split_at_screen_size).value(m);
    assert(-k + 1real == 1real - k);
}

/// The halves move apart, never through one another: how far they move along an axis
/// of positive extent is not negative.
pub proof fn lemma_axis_offset_is_ahead(k: Scalar, scale: Scalar, m: Model)
    requires
        m.sound(),
        scale.value(m) >= 0real,
    ensures
        axis_offset(&k, &scale).value(m) >= 0real,
{
    broadcast use group_value;

    let kv = k.value(m);
    assert(whole(2).value(m) == 2real);
    let left = -(kv * kv) + 1real;
    let f = (m.sqrt)(if left >= 0real { left } else { 0real });
    let s = scale.value(m);
    assert((m.pow)(kv, 2real) == kv * kv);
    assert(axis_offset(&k, &scale).value(m) == f * s);
    assert(f * s >= 0real) by (nonlinear_arith)
        requires
            f >= 0real,
            s >= 0real,
    ;
}

/// The halves of a split in terms of the ten numbers of the splat that was split. With
/// `len` the length of its quaternion, `big` the largest of its squared extents, `e` an
/// extent and `least` the factor of the longest axis:
/// the child is turned as the splat was and the parent stays as it was turned;
/// along each axis both halves have the extent `k e` with `(1 - k) big = e^2 (1 - least)`;
/// and each moves by what makes up for it, `k^2 e^2 + o^2 = e^2` with `o` not negative.
pub proof fn lemma_halves(
    row: Seq<Scalar>,
    screen_size: Scalar,
    split_at_screen_size: Single,
    sample: Vec3A,
    len: real,
    big: real,
    j: int,
    m: Model,
)
    requires
        m.sound(),
        m.logarithmic(),
        is_finite(split_at_screen_size),
        row.len() == 10,
        0 <= j < 10,
        len >= pow10(-32),
        len * len == row[3].value(m) * row[3].value(m) + row[4].value(m) * row[4].value(m)
            + row[5].value(m) * row[5].value(m) + row[6].value(m) * row[6].value(m),
        is_largest_square(
            (m.exp)(row[7].value(m)),
            (m.exp)(row[8].value(m)),
            (m.exp)(row[9].value(m)),
            big,
        ),
    ensures
        ({
            let shape = split_shape(&row_of(row), &screen_size, split_at_screen_size);
            let parent = row_sum(row, parent_update(row_of(row), shape, sample));
            let child = child_row(row_of(row), shape, sample);
            let ahead = seq![sample.x, sample.y, sample.z];
            let moved = seq![shape.offset_local.x, shape.offset_local.y, shape.offset_local.z];
            let least = max_axis_shrink(&screen_size, split_at_screen_size).value(m);
            &&& j < 3 ==> child[j].value(m) == row[j].value(m) + ahead[j].value(m)
                && parent[j].value(m) == row[j].value(m) - ahead[j].value(m)
            &&& 3 <= j < 7 ==> child[j].value(m) * len == row[j].value(m) && parent[j].value(m)
                == row[j].value(m)
            &&& 7 <= j ==> {
                let e = (m.exp)(row[j].value(m));
                let half = (m.exp)(child[j].value(m));
                let o = moved[j - 7].value(m);
                &&& parent[j].value(m) == child[j].value(m)
                &&& (e - half) * big == e * (e * e) * (1real - least)
                &&& half * half + o * o == e * e
                &&& o >= 0real
                &&& 0real < half <= e
            }
        }),
{
    let shape = split_shape(&row_of(row), &screen_size, split_at_screen_size);
    lemma_split_keeps_centroid(row, shape, sample, j, m);
    lemma_pow10_positive(-32);
    lemma_unit_rotation(row_of(row).quat, len, m);
    let scale = extent(&row_of(row).log_scale);
    let ratio = axis_ratio(&scale);
    let least = max_axis_shrink(&screen_size, split_at_screen_size).value(m);
    assert(scale.x.value(m) == (m.exp)(row[7].value(m))) by {
        broadcast use group_value;

    }
    assert(scale.y.value(m) == (m.exp)(row[8].value(m))) by {
        broadcast use group_value;

    }
    assert(scale.z.value(m) == (m.exp)(row[9].value(m))) by {
        broadcast use group_value;

    }
    lemma_axis_ratio(scale, m);
    lemma_axis_ratio_is_exact(scale, big, m);
    if j == 7 {
        lemma_half_extent(row[7], ratio.x, screen_size, split_at_screen_size, big, m);
    } else if j == 8 {
        lemma_half_extent(row[8], ratio.y, screen_size, split_at_screen_size, big, m);
    } else if j == 9 {
        lemma_half_extent(row[9], ratio.z, screen_size, split_at_screen_size, big, m);
    }
}

/// One axis of a half.
proof fn lemma_half_extent(
    log_scale: Scalar,
    ratio: Scalar,
    screen_size: Scalar,
    split_at_screen_size: Single,
    big: real,
    m: Model,
)
    requires
        m.sound(),
        m.logarithmic(),
        is_finite(split_at_screen_size),
        0real <= ratio.value(m) <= 1real,
        ratio.value(m) * big == (m.exp)(log_scale.value(m)) * (m.exp)(log_scale.value(m)),
    ensures
        ({
            let k = axis_shrink(&ratio, &screen_size, split_at_screen_size);
            let least = max_axis_shrink(&screen_size, split_at_screen_size).value(m);
            let e = (m.exp)(log_scale.value(m));
            let half = (m.exp)((log_scale + k.ln()).value(m));
            let o = axis_offset(&k, &log_scale.exp()).value(m);
            &&& (e - half) * big == e * (e * e) * (1real - least)
            &&& half * half + o * o == e * e
            &&& o >= 0real
            &&& 0real < half <= e
        }),
{
    let k = axis_shrink(&ratio, &screen_size, split_at_screen_size);
    let least = max_axis_shrink(&screen_size, split_at_screen_size).value(m);
    lemma_axis_shrink(ratio, screen_size, split_at_screen_size, m);
    lemma_axis_shrink_is_linear(ratio, screen_size, split_at_screen_size, m);
    lemma_child_extent(log_scale, k, m);
    let e = (m.exp)(log_scale.value(m));
    assert(log_scale.exp().value(m) == e);
    lemma_axis_spread(k, log_scale.exp(), m);
    lemma_axis_offset_is_ahead(k, log_scale.exp(), m);
    let half = (m.exp)((log_scale + k.ln()).value(m));
    assert((log_scale + k.ln()).exp().value(m) == half);
    let kv = k.value(m);
    let r = ratio.value(m);
    let d = 1real - least;
    assert((e - half) * big == e * (e * e) * d) by {
        assert(e - half == (r * d) * e) by (nonlinear_arith)
            requires
                half == kv * e,
                1real - kv == r * d,
        ;
        assert(((r * d) * e) * big == e * (r * big) * d) by (nonlinear_arith);
    }
}

/// Both halves of a split let through the power of what the splat let through, unless
/// that is too faint or too opaque.
pub proof fn lemma_child_opacity_is_exact(raw_opac: Scalar, m: Model)
    requires
        m.sound(),
        m.logarithmic(),
    ensures
        ({
            let o = sigmoid(&child_raw_opacity(&raw_opac)).value(m);
            let through = (m.pow)(
                1real - sigmoid(&raw_opac).value(m),
                frac_1_sqrt_2().value(m),
            );
            &&& 255real * (1real - through) < 1real ==> 255real * o == 1real
            &&& 255real * through < 1real ==> 255real * (1real - o) == 1real
            &&& 255real * (1real - through) >= 1real && 255real * through >= 1real ==> 1real - o
                == through
        }),
{
    broadcast use group_value;

    let inv_opac = whole(1) - sigmoid(&raw_opac);
    let new_opac = whole(1) - inv_opac.pow(&frac_1_sqrt_2());
    let x = new_opac.clamp(&min_opacity(), &(whole(1) - min_opacity()));
    assert(min_opacity().value(m) == 1real / 255real);
    lemma_inv_sigmoid(x, m);
}

/// The decay falls in proportion to the iterations that are left.
pub proof fn lemma_opacity_decay_is_linear(
    iter: u32,
    total_train_iters: u32,
    opac_decay: Single,
    m: Model,
)
    requires
        0 < total_train_iters,
        iter <= total_train_iters,
    ensures
        opacity_decay(iter, total_train_iters, opac_decay).value(m) * (total_train_iters as real)
            == single_value(opac_decay.bits) * (total_train_iters as real - iter as real),
{
    broadcast use group_value;

    let full = single_value(opac_decay.bits);
    assert(single(opac_decay.bits).value(m) == full);
    let i = iter as real;
    let n = total_train_iters as real;
    let q = i / n;
    assert(whole(iter as i64).value(m) == i);
    assert(whole(total_train_iters as i64).value(m) == n);
    div_undone(i, n);
    assert(0real <= q <= 1real) by (nonlinear_arith)
        requires
            q * n == i,
            0real <= i <= n,
            n > 0real,
    ;
    let d = full * (1real - q);
    assert(opacity_decay(iter, total_train_iters, opac_decay).value(m) == d);
    assert(d * n == full * (n - i)) by (nonlinear_arith)
        requires
            d == full * (1real - q),
            q * n == i,
    ;
}

} // verus!
