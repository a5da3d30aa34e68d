//! Splitting: each chosen splat becomes two smaller ones, on either side of
//! where it was.
use crate::cube::{sigmoid, Pad, Quat, Vec3A};
use crate::expr::{decimal, single, whole, Scalar};
use crate::number::Single;
use vstd::prelude::*;

verus! {

/// The ten numbers of a splat's row.
pub struct TransformRow {
    pub mean: Vec3A,
    pub quat: Quat,
    pub log_scale: Vec3A,
}

/// The row's numbers by name.
pub open spec fn row_of(row: Seq<Scalar>) -> TransformRow {
    TransformRow {
        mean: Vec3A { x: row[0], y: row[1], z: row[2], pad: Pad::Zero },
        quat: Quat { w: row[3], x: row[4], y: row[5], z: row[6] },
        log_scale: Vec3A { x: row[7], y: row[8], z: row[9], pad: Pad::Zero },
    }
}

/// The row's numbers by name.
pub fn read_row(row: &Vec<Scalar>) -> (r: TransformRow)
    requires
        row@.len() == 10,
    ensures
        r == row_of(row@),
{
    TransformRow {
        mean: Vec3A { x: row[0].clone(), y: row[1].clone(), z: row[2].clone(), pad: Pad::Zero },
        quat: Quat {
            w: row[3].clone(),
            x: row[4].clone(),
            y: row[5].clone(),
            z: row[6].clone(),
        },
        log_scale: Vec3A { x: row[7].clone(), y: row[8].clone(), z: row[9].clone(),
            pad: Pad::Zero },
    }
}

pub open spec fn spec_frac_1_sqrt_2() -> Scalar {
    single(0x3f35_04f3)
}

/// The single-precision number next to the inverse of the square root of two.
#[verifier::when_used_as_spec(spec_frac_1_sqrt_2)]
pub fn frac_1_sqrt_2() -> (r: Scalar)
    ensures
        r == frac_1_sqrt_2(),
{
    Scalar::float(0x3f35_04f3)
}

pub open spec fn spec_min_opacity() -> Scalar {
    whole(1) / whole(255)
}

/// The opacity below which a splat is dropped: one step of eight bits.
#[verifier::when_used_as_spec(spec_min_opacity)]
pub fn min_opacity() -> (r: Scalar)
    ensures
        r == min_opacity(),
{
    Scalar::num(1) / Scalar::num(255)
}

pub open spec fn spec_inv_sigmoid(
    x: &Scalar,
) -> Scalar {
    (*x / (whole(1) - *x)).ln()
}

/// The logit: the inverse of the logistic function.
#[verifier::when_used_as_spec(spec_inv_sigmoid)]
pub fn inv_sigmoid(
    x: &Scalar,
) -> (r: Scalar)
    ensures
        r == inv_sigmoid(x),
{
    (x / (Scalar::num(1) - x)).ln()
}

pub open spec fn spec_child_raw_opacity(
    raw_opac: &Scalar,
) -> Scalar {
    let inv_opac = whole(1) - sigmoid(raw_opac);
    let new_opac = whole(1) - inv_opac.pow(&frac_1_sqrt_2());
    inv_sigmoid(&new_opac.clamp(&min_opacity(), &(whole(1) - min_opacity())))
}

/// The opacity's logit of both halves: a power of the transmittance, a little more than the half
/// that would keep it for two splats in one place.
#[verifier::when_used_as_spec(spec_child_raw_opacity)]
pub fn child_raw_opacity(
    raw_opac: &Scalar,
) -> (r: Scalar)
    ensures
        r == child_raw_opacity(raw_opac),
{
    let inv_opac = Scalar::num(1) - sigmoid(raw_opac);
    let new_opac = Scalar::num(1) - inv_opac.pow(&frac_1_sqrt_2());
    inv_sigmoid(&new_opac.clamp(&min_opacity(), &(Scalar::num(1) - min_opacity())))
}

pub open spec fn spec_decayed_raw_opacity(
    raw_opac: &Scalar,
    minus_opac: &Scalar,
) -> Scalar {
    let new_opac = sigmoid(raw_opac) - *minus_opac;
    inv_sigmoid(&new_opac.clamp(&decimal(1, (-12) as i32), &(whole(1) - decimal(1, (-12) as i32))))
}

/// The opacity's logit, once `minus_opac` has been taken off the opacity.
#[verifier::when_used_as_spec(spec_decayed_raw_opacity)]
pub fn decayed_raw_opacity(
    raw_opac: &Scalar,
    minus_opac: &Scalar,
) -> (r: Scalar)
    ensures
        r == decayed_raw_opacity(raw_opac, minus_opac),
{
    let new_opac = sigmoid(raw_opac) - minus_opac;
    inv_sigmoid(&new_opac.clamp(&Scalar::lit(1, -12), &(Scalar::num(1) - Scalar::lit(1, -12))))
}

pub open spec fn spec_opacity_decay(
    iter: u32,
    total_train_iters: u32,
    opac_decay: Single,
) -> Scalar {
    let train_t = (whole(iter as i64) / whole(total_train_iters as i64)).clamp(
        &whole(0),
        &whole(1),
    );
    single(opac_decay.bits) * (whole(1) - train_t)
}

/// How much opacity every splat loses at a refinement: less as training goes on.
#[verifier::when_used_as_spec(spec_opacity_decay)]
pub fn opacity_decay(iter: u32, total_train_iters: u32, opac_decay: Single) -> (r: Scalar)
    ensures
        r == opacity_decay(iter, total_train_iters, opac_decay),
{
    let train_t = (Scalar::num(iter as i64) / Scalar::num(total_train_iters as i64)).clamp(
        &Scalar::num(0),
        &Scalar::num(1),
    );
    opac_decay.scalar() * (Scalar::num(1) - train_t)
}

pub open spec fn spec_unit_rotation(
    q: &Quat,
) -> Quat {
    let two = whole(2);
    let magnitude = (q.w.pow(&two) + q.x.pow(&two) + q.y.pow(&two) + q.z.pow(&two)).sqrt()
        .max(&decimal(1, (-32) as i32));
    Quat {
        w: q.w / magnitude,
        x: q.x / magnitude,
        y: q.y / magnitude,
        z: q.z / magnitude,
    }
}

/// The quaternion scaled to unit length, where it has a length.
#[verifier::when_used_as_spec(spec_unit_rotation)]
pub fn unit_rotation(
    q: &Quat,
) -> (r: Quat)
    ensures
        r == unit_rotation(q),
{
    let two = Scalar::num(2);
    let magnitude = (q.w.pow(&two) + q.x.pow(&two) + q.y.pow(&two) + q.z.pow(&two)).sqrt()
        .max(&Scalar::lit(1, -32));
    Quat {
        w: &q.w / &magnitude,
        x: &q.x / &magnitude,
        y: &q.y / &magnitude,
        z: &q.z / &magnitude,
    }
}

pub open spec fn spec_extent(
    log_scale: &Vec3A,
) -> Vec3A {
    Vec3A { x: log_scale.x.exp(), y: log_scale.y.exp(), z: log_scale.z.exp(), pad: Pad::Zero }
}

/// The extent along each axis.
#[verifier::when_used_as_spec(spec_extent)]
pub fn extent(
    log_scale: &Vec3A,
) -> (r: Vec3A)
    ensures
        r == extent(log_scale),
{
    Vec3A { x: log_scale.x.exp(), y: log_scale.y.exp(), z: log_scale.z.exp(), pad: Pad::Zero }
}

pub open spec fn spec_axis_ratio(
    scale: &Vec3A,
) -> Vec3A {
    let two = whole(2);
    let sx = scale.x.pow(&two);
    let sy = scale.y.pow(&two);
    let sz = scale.z.pow(&two);
    let max_scale_sq = sx.max(&sy).max(&sz).max(&decimal(1, (-30) as i32));
    Vec3A { x: sx / max_scale_sq, y: sy / max_scale_sq, z: sz / max_scale_sq, pad: Pad::Zero }
}

/// The square of each extent as a fraction of the largest.
#[verifier::when_used_as_spec(spec_axis_ratio)]
pub fn axis_ratio(
    scale: &Vec3A,
) -> (r: Vec3A)
    ensures
        r == axis_ratio(scale),
{
    let two = Scalar::num(2);
    let sx = scale.x.pow(&two);
    let sy = scale.y.pow(&two);
    let sz = scale.z.pow(&two);
    let max_scale_sq = sx.max(&sy).max(&sz).max(&Scalar::lit(1, -30));
    Vec3A { x: &sx / &max_scale_sq, y: &sy / &max_scale_sq, z: &sz / &max_scale_sq, pad: Pad::Zero }
}

pub open spec fn spec_max_axis_shrink(
    screen_size: &Scalar,
    split_at_screen_size: Single,
) -> Scalar {
    if split_at_screen_size.positive() {
        (whole(1) / screen_size.max(&decimal(1, (-6) as i32)) * single(
            split_at_screen_size.bits,
        )).min(&frac_1_sqrt_2())
    } else {
        frac_1_sqrt_2()
    }
}

/// The factor by which the longest axis shrinks. A splat that is too large on
/// screen shrinks harder, so that its halves come out at the limit.
#[verifier::when_used_as_spec(spec_max_axis_shrink)]
pub fn max_axis_shrink(screen_size: &Scalar, split_at_screen_size: Single) -> (r: Scalar)
    ensures
        r == max_axis_shrink(screen_size, split_at_screen_size),
{
    if split_at_screen_size.is_positive() {
        (Scalar::num(1) / screen_size.max(&Scalar::lit(1, -6))
            * split_at_screen_size.scalar()).min(&frac_1_sqrt_2())
    } else {
        frac_1_sqrt_2()
    }
}

pub open spec fn spec_axis_shrink(
    ratio: &Scalar,
    screen_size: &Scalar,
    split_at_screen_size: Single,
) -> Scalar {
    let k_max = max_axis_shrink(screen_size, split_at_screen_size);
    if split_at_screen_size.positive() {
        -(*ratio * (-k_max + whole(1))) + whole(1)
    } else {
        -(*ratio * (whole(1) - k_max)) + whole(1)
    }
}

/// The factor by which an axis shrinks: that of the longest axis where it is as
/// long, and none where it is short.
#[verifier::when_used_as_spec(spec_axis_shrink)]
pub fn axis_shrink(
    ratio: &Scalar,
    screen_size: &Scalar,
    split_at_screen_size: Single,
) -> (r: Scalar)
    ensures
        r == axis_shrink(ratio, screen_size, split_at_screen_size),
{
    let k_max = max_axis_shrink(screen_size, split_at_screen_size);
    if split_at_screen_size.is_positive() {
        (ratio * (k_max.neg() + Scalar::num(1))).neg() + Scalar::num(1)
    } else {
        (ratio * (Scalar::num(1) - k_max)).neg() + Scalar::num(1)
    }
}

/// How a splat is split: the unit rotation, the factor by which each axis
/// shrinks, and how far the halves move along each axis.
pub struct SplitShape {
    pub rotation: Quat,
    pub shrink: Vec3A,
    pub offset_local: Vec3A,
}

pub open spec fn spec_axis_offset(
    k: &Scalar,
    scale: &Scalar,
) -> Scalar {
    let offset_factor = (-k.pow(&whole(2)) + whole(1)).max(&whole(0)).sqrt();
    offset_factor * *scale
}

/// How far the halves move along an axis, so that the spread along it stays what it was.
#[verifier::when_used_as_spec(spec_axis_offset)]
pub fn axis_offset(
    k: &Scalar,
    scale: &Scalar,
) -> (r: Scalar)
    ensures
        r == axis_offset(k, scale),
{
    let offset_factor = (k.pow(&Scalar::num(2)).neg() + Scalar::num(1)).max(&Scalar::num(0)).sqrt();
    &offset_factor * scale
}

pub open spec fn spec_split_shape(
    row: &TransformRow,
    screen_size: &Scalar,
    split_at_screen_size: Single,
) -> SplitShape {
    let scale = extent(&row.log_scale);
    let ratio = axis_ratio(&scale);
    let kx = axis_shrink(&ratio.x, screen_size, split_at_screen_size);
    let ky = axis_shrink(&ratio.y, screen_size, split_at_screen_size);
    let kz = axis_shrink(&ratio.z, screen_size, split_at_screen_size);
    SplitShape {
        rotation: unit_rotation(&row.quat),
        shrink: Vec3A { x: kx, y: ky, z: kz, pad: Pad::Zero },
        offset_local: Vec3A {
            x: axis_offset(&kx, &scale.x),
            y: axis_offset(&ky, &scale.y),
            z: axis_offset(&kz, &scale.z),
            pad: Pad::Zero,
        },
    }
}

/// How a splat is split.
#[verifier::when_used_as_spec(spec_split_shape)]
pub fn split_shape(
    row: &TransformRow,
    screen_size: &Scalar,
    split_at_screen_size: Single,
) -> (r: SplitShape)
    ensures
        r == split_shape(row, screen_size, split_at_screen_size),
{
    let scale = extent(&row.log_scale);
    let ratio = axis_ratio(&scale);
    let kx = axis_shrink(&ratio.x, screen_size, split_at_screen_size);
    let ky = axis_shrink(&ratio.y, screen_size, split_at_screen_size);
    let kz = axis_shrink(&ratio.z, screen_size, split_at_screen_size);
    let ox = axis_offset(&kx, &scale.x);
    let oy = axis_offset(&ky, &scale.y);
    let oz = axis_offset(&kz, &scale.z);
    SplitShape {
        rotation: unit_rotation(&row.quat),
        shrink: Vec3A { x: kx, y: ky, z: kz, pad: Pad::Zero },
        offset_local: Vec3A { x: ox, y: oy, z: oz, pad: Pad::Zero },
    }
}

pub open spec fn spec_child_log_scale(
    log_scale: &Vec3A,
    shrink: &Vec3A,
) -> Vec3A {
    Vec3A {
        x: log_scale.x + shrink.x.ln(),
        y: log_scale.y + shrink.y.ln(),
        z: log_scale.z + shrink.z.ln(),
        pad: Pad::Zero,
    }
}

/// The logarithm of each extent once it has shrunk.
#[verifier::when_used_as_spec(spec_child_log_scale)]
pub fn child_log_scale(
    log_scale: &Vec3A,
    shrink: &Vec3A,
) -> (r: Vec3A)
    ensures
        r == child_log_scale(log_scale, shrink),
{
    Vec3A {
        x: &log_scale.x + shrink.x.ln(),
        y: &log_scale.y + shrink.y.ln(),
        z: &log_scale.z + shrink.z.ln(),
        pad: Pad::Zero,
    }
}

/// What is added to the parent's row: it moves back by `sample` and shrinks.
pub open spec fn parent_update(row: TransformRow, shape: SplitShape, sample: Vec3A) -> Seq<
    Scalar,
> {
    let new_log_scale = child_log_scale(&row.log_scale, &shape.shrink);
    seq![
        -sample.x,
        -sample.y,
        -sample.z,
        whole(0),
        whole(0),
        whole(0),
        whole(0),
        new_log_scale.x - row.log_scale.x,
        new_log_scale.y - row.log_scale.y,
        new_log_scale.z - row.log_scale.z,
    ]
}

/// The child's row: it stands `sample` ahead of the parent, with the parent's
/// unit rotation, and has shrunk.
pub open spec fn child_row(row: TransformRow, shape: SplitShape, sample: Vec3A) -> Seq<Scalar> {
    let new_log_scale = child_log_scale(&row.log_scale, &shape.shrink);
    seq![
        row.mean.x + sample.x,
        row.mean.y + sample.y,
        row.mean.z + sample.z,
        shape.rotation.w,
        shape.rotation.x,
        shape.rotation.y,
        shape.rotation.z,
        new_log_scale.x,
        new_log_scale.y,
        new_log_scale.z,
    ]
}

/// What is added to the parent's row.
pub fn make_parent_update(row: &TransformRow, shape: &SplitShape, sample: &Vec3A) -> (r: Vec<
    Scalar,
>)
    ensures
        r@ == parent_update(*row, *shape, *sample),
{
    let new_log_scale = child_log_scale(&row.log_scale, &shape.shrink);
    let mut r: Vec<Scalar> = Vec::new();
    r.push(sample.x.neg());
    r.push(sample.y.neg());
    r.push(sample.z.neg());
    r.push(Scalar::num(0));
    r.push(Scalar::num(0));
    r.push(Scalar::num(0));
    r.push(Scalar::num(0));
    r.push(&new_log_scale.x - &row.log_scale.x);
    r.push(&new_log_scale.y - &row.log_scale.y);
    r.push(&new_log_scale.z - &row.log_scale.z);
    r
}

/// The child's row.
pub fn make_child_row(row: &TransformRow, shape: &SplitShape, sample: &Vec3A) -> (r: Vec<Scalar>)
    ensures
        r@ == child_row(*row, *shape, *sample),
{
    let new_log_scale = child_log_scale(&row.log_scale, &shape.shrink);
    let mut r: Vec<Scalar> = Vec::new();
    r.push(&row.mean.x + &sample.x);
    r.push(&row.mean.y + &sample.y);
    r.push(&row.mean.z + &sample.z);
    r.push(shape.rotation.w.clone());
    r.push(shape.rotation.x.clone());
    r.push(shape.rotation.y.clone());
    r.push(shape.rotation.z.clone());
    r.push(new_log_scale.x);
    r.push(new_log_scale.y);
    r.push(new_log_scale.z);
    r
}

} // verus!
