//! What training decides and computes, in terms of the numbers that it reads: which
//! splats are dropped, how small they may be, what the loss is made of, at which rates
//! the parameters learn, and how far the noise moves a splat.
use crate::config::AlphaMode;
use crate::cube::Vec3A;
use crate::expr::algebra::{div_undone, mul_comm, same_root};
use crate::expr::semantics::{double_value, group_value, pow10, pow2, single_value, Model};
use crate::expr::{decimal, narrow, single, whole, Cond, Expr, Scalar};
use crate::kernels::visibility::Machine;
use crate::number::{lemma_positive, Double, Single};
use crate::train::halves::square_is_not_negative;
use crate::train::masks::{degenerate, max_allowed_bounds, pruned, row_non_finite};
use crate::train::meaning::{
    is_finite, lemma_pow10_positive, lemma_reals_are_finite, lemma_row_non_finite,
};
use crate::train::min_scale::{floor_is_refreshed, pixel_size, MIN_SCALE_FACTOR};
use crate::train::record::Splats;
use crate::train::refine::{growth_target, BOUND_PERCENTILE};
use crate::train::split::min_opacity;
use crate::train::step::{
    mean_noise_weight, noise_weight, noised_row, optimizer_epsilon, sample_background_color,
    sh_lr_scales, transform_rates, ONE,
};
use crate::train::trainer::{BoundingBox, SplatTrainer, TrainConfig, ViewCam};
use vstd::prelude::*;

verus! {

/// `big` is the largest of the three numbers.
pub open spec fn is_largest(x: real, y: real, z: real, big: real) -> bool {
    &&& big >= x
    &&& big >= y
    &&& big >= z
    &&& big == x || big == y || big == z
}

/// `x` lies within `limit` of `center`.
pub open spec fn within(x: real, center: real, limit: real) -> bool {
    -limit <= x - center <= limit
}

/// Over the reals a splat is kept exactly when its opacity reaches one step of eight
/// bits, no axis reaches further than a hundred times the longest side of the bounds, and
/// no coordinate is further than that from the centre.
pub proof fn lemma_kept_exactly(
    splats: Splats,
    opacities: Seq<Scalar>,
    scales: Seq<Vec3A>,
    bounds: BoundingBox,
    i: int,
    side: real,
    m: Model,
)
    requires
        is_largest(
            bounds.extent.x.value(m),
            bounds.extent.y.value(m),
            bounds.extent.z.value(m),
            side,
        ),
        side >= 0real,
    ensures
        !pruned(&splats, opacities, scales, &bounds, i).holds(m) <==> {
            let row = splats.transforms.value@[i];
            let limit = 100real * side;
            &&& 255real * opacities[i].value(m) >= 1real
            &&& scales[i].x.value(m) <= limit
            &&& scales[i].y.value(m) <= limit
            &&& scales[i].z.value(m) <= limit
            &&& within(row[0].value(m), bounds.center.x.value(m), limit)
            &&& within(row[1].value(m), bounds.center.y.value(m), limit)
            &&& within(row[2].value(m), bounds.center.z.value(m), limit)
        },
{
    broadcast use group_value;

    lemma_reals_are_finite(splats.transforms.value@[i], m);
    lemma_reals_are_finite(splats.sh_coeffs.value@[i], m);
    lemma_reals_are_finite(splats.raw_opacities.value@[i], m);
    mul_comm(side, 100real);
    assert(whole(100).value(m) == 100real);
    assert(max_allowed_bounds(&bounds).value(m) == side * 100real);
    assert(min_opacity().value(m) == 1real / 255real) by {
        assert(whole(1).value(m) == 1real);
        assert(whole(255).value(m) == 255real);
    }
}

/// A splat has a parameter that the device finds not to be a finite number.
pub open spec fn has_unusable(splats: Splats, i: int, d: Machine) -> bool {
    ||| exists|j: int|
        0 <= j < splats.transforms.value@[i].len() && !(
        #[trigger] splats.transforms.value@[i][j]).is_usable(d)
    ||| exists|j: int|
        0 <= j < splats.sh_coeffs.value@[i].len() && !(
        #[trigger] splats.sh_coeffs.value@[i][j]).is_usable(d)
    ||| exists|j: int|
        0 <= j < splats.raw_opacities.value@[i].len() && !(
        #[trigger] splats.raw_opacities.value@[i][j]).is_usable(d)
}

/// The device drops every splat with a parameter that is not a finite number, and counts
/// exactly those as such. Where every number is one, it drops no other than those that
/// are dropped over the reals.
pub proof fn lemma_dropped_on_device(
    splats: Splats,
    opacities: Seq<Scalar>,
    scales: Seq<Vec3A>,
    bounds: BoundingBox,
    i: int,
    d: Machine,
)
    requires
        splats.wf(),
        0 <= i < splats.count(),
    ensures
        splats.non_finite(i).passes(d) == has_unusable(splats, i, d),
        has_unusable(splats, i, d) ==> pruned(&splats, opacities, scales, &bounds, i).passes(d),
        (forall|e: Expr| !(#[trigger] (d.nan)(e))) ==> pruned(
            &splats,
            opacities,
            scales,
            &bounds,
            i,
        ).passes(d) == (pruned(&splats, opacities, scales, &bounds, i).holds(d.model)
            || has_unusable(splats, i, d)),
{
    assert(splats.transforms.value@[i].len() == 10);
    assert(splats.sh_coeffs.value@[i].len() > 0);
    assert(splats.raw_opacities.value@[i].len() == 1);
    lemma_row_non_finite(splats.transforms.value@[i], d);
    lemma_row_non_finite(splats.sh_coeffs.value@[i], d);
    lemma_row_non_finite(splats.raw_opacities.value@[i], d);
    lemma_reals_are_finite(splats.transforms.value@[i], d.model);
    lemma_reals_are_finite(splats.sh_coeffs.value@[i], d.model);
    lemma_reals_are_finite(splats.raw_opacities.value@[i], d.model);
    let t = row_non_finite(splats.transforms.value@[i]);
    let s = row_non_finite(splats.sh_coeffs.value@[i]);
    let o = row_non_finite(splats.raw_opacities.value@[i]);
    assert(splats.non_finite(i).passes(d) == (t.passes(d) || s.passes(d) || o.passes(d))) by {
        reveal_with_fuel(Cond::passes, 3);
    }
    assert(!splats.non_finite(i).holds(d.model)) by {
        reveal_with_fuel(Cond::holds, 3);
    }
    lemma_pruned_parts(splats, opacities, scales, bounds, i, d);
}

/// The parts of the test, on the device and over the reals.
proof fn lemma_pruned_parts(
    splats: Splats,
    opacities: Seq<Scalar>,
    scales: Seq<Vec3A>,
    bounds: BoundingBox,
    i: int,
    d: Machine,
)
    ensures
        splats.non_finite(i).passes(d) ==> pruned(&splats, opacities, scales, &bounds, i).passes(d),
        (forall|e: Expr| !(#[trigger] (d.nan)(e))) && !splats.non_finite(i).passes(d)
            && !splats.non_finite(i).holds(d.model) ==> pruned(
            &splats,
            opacities,
            scales,
            &bounds,
            i,
        ).passes(d) == pruned(&splats, opacities, scales, &bounds, i).holds(d.model),
        splats.non_finite(i).holds(d.model) || !(forall|e: Expr| !(#[trigger] (d.nan)(e))) || (
        pruned(&splats, opacities, scales, &bounds, i).holds(d.model) ==> pruned(
            &splats,
            opacities,
            scales,
            &bounds,
            i,
        ).passes(d)),
{
    let bad = splats.non_finite(i);
    let (p, h) = (bad.passes(d), bad.holds(d.model));
    reveal_with_fuel(Cond::passes, 6);
    reveal_with_fuel(Cond::holds, 6);
    assert(bad.node.passes(d) == p);
    assert(bad.node.holds(d.model) == h);
}

/// Over the reals a splat comes out of a split unusable exactly when its quaternion is
/// too short to be a rotation.
pub proof fn lemma_degenerate_exactly(splats: Splats, i: int, m: Model)
    requires
        m.sound(),
    ensures
        degenerate(&splats, i).holds(m) <==> {
            let row = splats.transforms.value@[i];
            let (w, x) = (row[3].value(m), row[4].value(m));
            let (y, z) = (row[5].value(m), row[6].value(m));
            1_000_000real * (w * w + x * x + y * y + z * z) < 1real
        },
{
    broadcast use group_value;

    lemma_reals_are_finite(splats.transforms.value@[i], m);
    lemma_reals_are_finite(splats.sh_coeffs.value@[i], m);
    lemma_reals_are_finite(splats.raw_opacities.value@[i], m);
    let row = splats.transforms.value@[i];
    let (w, x) = (row[3].value(m), row[4].value(m));
    let (y, z) = (row[5].value(m), row[6].value(m));
    assert(whole(2).value(m) == 2real);
    assert((m.pow)(w, 2real) == w * w);
    assert((m.pow)(x, 2real) == x * x);
    assert((m.pow)(y, 2real) == y * y);
    assert((m.pow)(z, 2real) == z * z);
    let tiny = decimal(1, (-6) as i32);
    assert(1_000_000real * tiny.value(m) == 1real) by {
        reveal_with_fuel(pow10, 8);
    }
}

/// The size of a pixel times the focal length is the distance from the camera. A focal
/// length that is no more than tiny counts as a tiny one.
pub proof fn lemma_pixel_size(mean: Vec3A, cam: ViewCam, dist: real, m: Model)
    requires
        m.sound(),
        dist >= 0real,
        ({
            let dx = mean.x.value(m) - cam.center.x.value(m);
            let dy = mean.y.value(m) - cam.center.y.value(m);
            let dz = mean.z.value(m) - cam.center.z.value(m);
            dist * dist == dx * dx + dy * dy + dz * dz
        }),
    ensures
        ({
            let f = single_value(cam.focal.bits);
            let focal = if f >= pow10(-6) {
                f
            } else {
                pow10(-6)
            };
            pixel_size(&mean, &cam).value(m) * focal == dist
        }),
{
    broadcast use group_value;

    let dx = mean.x.value(m) - cam.center.x.value(m);
    let dy = mean.y.value(m) - cam.center.y.value(m);
    let dz = mean.z.value(m) - cam.center.z.value(m);
    let sq = dx * dx + dy * dy + dz * dz;
    square_is_not_negative(dx);
    square_is_not_negative(dy);
    square_is_not_negative(dz);
    same_root((m.sqrt)(sq), dist, sq);
    let f = single(cam.focal.bits);
    assert(f.value(m) == single_value(cam.focal.bits));
    let tiny = decimal(1, (-6) as i32);
    lemma_pow10_positive(-6);
    assert(1real * pow10(-6) == pow10(-6));
    assert(tiny.value(m) == pow10(-6));
    let focal = if f.value(m) >= pow10(-6) {
        f.value(m)
    } else {
        pow10(-6)
    };
    div_undone(dist, focal);
}

/// The least extents are computed anew in the first nine tenths of training. Training
/// that has no length counts as one iteration.
pub proof fn lemma_floor_is_refreshed(iter: u32, total_train_iters: u32, m: Model)
    ensures
        floor_is_refreshed(iter, total_train_iters).holds(m) <==> 10 * iter < 9 * (
        if total_train_iters == 0 {
            1
        } else {
            total_train_iters as int
        }),
{
    broadcast use group_value;

    let total = if total_train_iters == 0 {
        1u32
    } else {
        total_train_iters
    };
    let (i, n) = (iter as real, total as real);
    assert(whole(iter as i64).value(m) == i);
    assert(whole(total as i64).value(m) == n);
    let q = i / n;
    div_undone(i, n);
    let most = decimal(9, (-1) as i32);
    assert(pow10(0) == 1real);
    assert(pow10(-1) == pow10(0) / 10real);
    assert(most.value(m) == 9real * pow10(-1));
    assert(10real * most.value(m) == 9real);
    assert(q < most.value(m) <==> 10real * i < 9real * n) by {
        let t = most.value(m);
        assert(q < t <==> q * n < t * n) by (nonlinear_arith)
            requires
                n > 0real,
        ;
        assert(10real * (t * n) == 9real * n) by (nonlinear_arith)
            requires
                10real * t == 9real,
        ;
    }
}

/// The strength of the filter is a tenth, and the share of the splats that bounds the
/// scene eight tenths, each to single precision.
pub proof fn lemma_fractions()
    ensures
        999_999real < 10_000_000real * single_value(MIN_SCALE_FACTOR) < 1_000_001real,
        7_999_999real < 10_000_000real * single_value(BOUND_PERCENTILE) < 8_000_001real,
{
    assert((0x3dcc_cccdu32 / 0x80_0000u32) % 256u32 == 123u32) by (bit_vector);
    assert(0x3dcc_cccdu32 % 0x80_0000u32 == 0x4c_cccdu32) by (bit_vector);
    assert((0x3f4c_cccdu32 / 0x80_0000u32) % 256u32 == 126u32) by (bit_vector);
    assert(0x3f4c_cccdu32 % 0x80_0000u32 == 0x4c_cccdu32) by (bit_vector);
    assert(pow2(-27) == 1real / 134217728real) by {
        reveal_with_fuel(pow2, 29);
    }
    assert(pow2(-24) == 1real / 16777216real) by {
        reveal_with_fuel(pow2, 26);
    }
}

/// `y` is `x`, limited to the range from `lo` to `hi`.
pub open spec fn is_limited(x: real, lo: real, hi: real, y: real) -> bool {
    &&& lo <= x <= hi ==> y == x
    &&& x < lo ==> y == lo
    &&& x > hi ==> y == hi
}

/// Each channel of the background is that of the base colour, plus its own noise where
/// the noise has a strength, limited to the range of colours.
pub proof fn lemma_background(base: Vec3A, strength: Single, noise: Vec3A, m: Model)
    requires
        is_finite(strength),
    ensures
        ({
            let c = sample_background_color(&base, strength, &noise);
            let on = if single_value(strength.bits) > 0real {
                1real
            } else {
                0real
            };
            &&& is_limited(base.x.value(m) + on * noise.x.value(m), 0real, 1real, c.x.value(m))
            &&& is_limited(base.y.value(m) + on * noise.y.value(m), 0real, 1real, c.y.value(m))
            &&& is_limited(base.z.value(m) + on * noise.z.value(m), 0real, 1real, c.z.value(m))
        }),
{
    broadcast use group_value;

    lemma_positive(strength);
    assert(pow10(0) == 1real);
}

/// The weight of the noise: the hundred and fiftieth power of the transparency, limited
/// to the range from nothing to one, for a splat that was seen, at the rate at which
/// positions learn and at the strength of the noise.
pub proof fn lemma_mean_noise_weight(
    opacity: Scalar,
    visible: Scalar,
    lr_mean: Double,
    strength: Single,
    share: real,
    m: Model,
)
    requires
        is_limited((m.pow)(1real - opacity.value(m), 150real), 0real, 1real, share),
    ensures
        noise_weight(&opacity, &visible).value(m) == share * visible.value(m),
        mean_noise_weight(opacity, visible, lr_mean, strength).value(m) == (share * visible.value(
            m,
        )) * ((m.narrow)(lr_mean.bits) * single_value(strength.bits)),
{
    broadcast use group_value;

    assert(whole(150).value(m) == 150real);
    assert(narrow(lr_mean.bits).value(m) == (m.narrow)(lr_mean.bits));
    assert(single(strength.bits).value(m) == single_value(strength.bits));
    assert(pow10(0) == 1real);
}

/// The noise moves each coordinate by its own sample times the weight, limited to the
/// size of the bounds either way, and leaves the other seven numbers alone.
pub proof fn lemma_noised_row(
    row: Seq<Scalar>,
    sample: Vec3A,
    weight: Scalar,
    median_scale: Scalar,
    j: int,
    m: Model,
)
    requires
        row.len() == 10,
        0 <= j < 10,
        median_scale.value(m) >= 0real,
    ensures
        ({
            let r = noised_row(row, sample, weight, median_scale);
            let by = seq![sample.x, sample.y, sample.z];
            let most = median_scale.value(m);
            &&& r.len() == 10
            &&& j < 3 ==> is_limited(
                by[j].value(m) * weight.value(m),
                -most,
                most,
                r[j].value(m) - row[j].value(m),
            )
            &&& 3 <= j ==> r[j] == row[j]
        }),
{
    broadcast use group_value;

}

/// The first three columns learn at the rate of the positions, the next four at that of
/// rotations and the last three at that of extents.
pub proof fn lemma_transform_rates(config: TrainConfig, lr_mean: Double, j: int, m: Model)
    requires
        0 <= j < 10,
    ensures
        ({
            let r = transform_rates(config, lr_mean);
            &&& r.len() == 10
            &&& j < 3 ==> r[j].value(m) == (m.narrow)(lr_mean.bits)
            &&& 3 <= j < 7 ==> r[j].value(m) == (m.narrow)(config.lr_rotation.bits)
            &&& 7 <= j ==> r[j].value(m) == (m.narrow)(config.lr_scale.bits)
        }),
{
}

/// The first coefficient learns at the full rate, the others at the part that the scale
/// asks for.
pub proof fn lemma_sh_lr_scales(num_coeffs: nat, sh_scale: Single, i: int, m: Model)
    requires
        0 <= i < num_coeffs,
        single_value(sh_scale.bits) != 0real,
    ensures
        ({
            let r = sh_lr_scales(num_coeffs, sh_scale);
            &&& r.len() == num_coeffs
            &&& i == 0 ==> r[i].value(m) == 1real
            &&& i > 0 ==> r[i].value(m) * single_value(sh_scale.bits) == 1real
        }),
{
    broadcast use group_value;

    assert(pow10(0) == 1real);
    assert(single(sh_scale.bits).value(m) == single_value(sh_scale.bits));
    div_undone(1real, single_value(sh_scale.bits));
}

/// How the loss is put together. Without structural similarity the absolute differences
/// have the whole weight; with it the similarity counts against the loss by its weight,
/// and the differences have the rest. The background shows behind transparent pixels
/// unless it is black, a mask leaves pixels out, and alpha is matched where the image has
/// one that is no mask and its match has a weight.
pub proof fn lemma_planned_loss(
    trainer: SplatTrainer,
    has_alpha: bool,
    alpha_mode: AlphaMode,
    background: Vec3A,
    background_is_zero: bool,
    m: Model,
)
    requires
        is_finite(trainer.config.match_alpha_weight),
    ensures
        ({
            let r = trainer.planned_loss(has_alpha, alpha_mode, background, background_is_zero);
            let w = single_value(trainer.config.ssim_weight.bits);
            &&& r.l1_weight.value(m) - r.ssim_weight.value(m) == 1real
            &&& r.ssim_weight.value(m) == (if trainer.ssim_enabled {
                -w
            } else {
                0real
            })
            &&& (r.composite_bg is Some) == (has_alpha && !background_is_zero)
            &&& r.composite_bg matches Some(c) ==> c == background
            &&& r.mask == (alpha_mode == AlphaMode::Masked)
            &&& r.match_alpha == (has_alpha && alpha_mode != AlphaMode::Masked && single_value(
                trainer.config.match_alpha_weight.bits,
            ) > 0real)
        }),
{
    broadcast use group_value;

    lemma_positive(trainer.config.match_alpha_weight);
    assert(pow10(0) == 1real);
    assert(single(trainer.config.ssim_weight.bits).value(m) == single_value(
        trainer.config.ssim_weight.bits,
    ));
}

/// The loss is that of the colours, plus the parts that are on, each by its own weight.
pub proof fn lemma_total_loss(
    trainer: SplatTrainer,
    match_alpha: bool,
    color: Scalar,
    alpha: Scalar,
    lpips: Scalar,
    m: Model,
)
    ensures
        ({
            let total = trainer.total_loss(match_alpha, &color, &alpha, &lpips).value(m);
            let of_alpha = single_value(trainer.config.match_alpha_weight.bits) * alpha.value(m);
            let of_lpips = single_value(trainer.config.lpips_loss_weight.bits) * lpips.value(m);
            total == color.value(m) + (if match_alpha {
                of_alpha
            } else {
                0real
            }) + (if trainer.lpips_enabled {
                of_lpips
            } else {
                0real
            })
        }),
{
    broadcast use group_value;

    let a = single_value(trainer.config.match_alpha_weight.bits);
    let l = single_value(trainer.config.lpips_loss_weight.bits);
    assert(single(trainer.config.match_alpha_weight.bits).value(m) == a);
    assert(single(trainer.config.lpips_loss_weight.bits).value(m) == l);
    mul_comm(a, alpha.value(m));
    mul_comm(l, lpips.value(m));
}

/// Growth aims for the share of the splats above the threshold, rounded.
pub proof fn lemma_growth_target(threshold_count: u32, fraction: Single, m: Model)
    ensures
        growth_target(threshold_count, fraction).value(m) == (m.round)(
            threshold_count as real * single_value(fraction.bits),
        ),
{
    broadcast use group_value;

    assert(whole(threshold_count as i64).value(m) == threshold_count as real);
    assert(single(fraction.bits).value(m) == single_value(fraction.bits));
    let share = whole(threshold_count as i64) * single(fraction.bits);
    assert(share.value(m) == threshold_count as real * single_value(fraction.bits));
    assert(share.round().value(m) == (m.round)(share.value(m)));
}

/// The optimizer divides by no less than a tiny number, and its step on the transforms
/// leaves the rates of the columns as they are.
pub proof fn lemma_optimizer_constants(m: Model)
    ensures
        1_000_000_000_000_000real * optimizer_epsilon().value(m) == 1real,
        double_value(ONE) == 1real,
{
    let e = decimal(1, (-15) as i32);
    assert(1_000_000_000_000_000real * pow10(-15) == 1real) by {
        reveal_with_fuel(pow10, 17);
    }
    assert(e.value(m) == 1real * pow10(-15));
    assert((0x3ff0_0000_0000_0000u64 / 0x10_0000_0000_0000u64) % 2048u64 == 1023u64)
        by (bit_vector);
    assert(0x3ff0_0000_0000_0000u64 % 0x10_0000_0000_0000u64 == 0u64) by (bit_vector);
    assert(4503599627370496real * pow2(-52) == 1real) by {
        reveal_with_fuel(pow2, 54);
    }
}

} // verus!
