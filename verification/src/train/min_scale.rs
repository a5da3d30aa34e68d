//! The least extent of each splat: a fraction of the size of a pixel in the
//! view that is nearest.
use crate::cube::Vec3A;
use crate::expr::{decimal, single, whole, Scalar, Test};
use crate::number::Single;
use crate::train::trainer::ViewCam;
use vstd::prelude::*;

verus! {

/// The bits of the strength of the filter: a tenth, in single precision.
pub const MIN_SCALE_FACTOR: u32 = 0x3dcc_cccd;

pub open spec fn spec_pixel_size(mean: &Vec3A, cam: &ViewCam) -> Scalar {
    let dx = mean.x - cam.center.x;
    let dy = mean.y - cam.center.y;
    let dz = mean.z - cam.center.z;
    (dx * dx + dy * dy + dz * dz).sqrt() / single(cam.focal.bits).max(&decimal(1, (-6) as i32))
}

/// The size of a pixel of the view at the distance of the splat.
#[verifier::when_used_as_spec(spec_pixel_size)]
pub fn pixel_size(mean: &Vec3A, cam: &ViewCam) -> (r: Scalar)
    ensures
        r == pixel_size(mean, cam),
{
    let dx = &mean.x - &cam.center.x;
    let dy = &mean.y - &cam.center.y;
    let dz = &mean.z - &cam.center.z;
    (&dx * &dx + &dy * &dy + &dz * &dz).sqrt() / cam.focal.scalar().max(&Scalar::lit(1, -6))
}

/// The least of the pixel sizes over the views, of which there is one.
pub open spec fn least_pixel_size(mean: Vec3A, cams: Seq<ViewCam>) -> Scalar
    decreases cams.len(),
{
    if cams.len() <= 1 {
        pixel_size(&mean, &cams[0])
    } else {
        least_pixel_size(mean, cams.drop_last()).min(&pixel_size(&mean, &cams.last()))
    }
}

/// The least of the pixel sizes over the views.
fn min_pixel_size(mean: &Vec3A, cams: &Vec<ViewCam>) -> (r: Scalar)
    requires
        cams@.len() > 0,
    ensures
        r == least_pixel_size(*mean, cams@),
{
    let mut r = pixel_size(mean, &cams[0]);
    let mut v: usize = 1;
    assert(cams@.take(1)[0] == cams@[0]);
    while v < cams.len()
        invariant
            1 <= v <= cams@.len(),
            r == least_pixel_size(*mean, cams@.take(v as int)),
        decreases cams@.len() - v,
    {
        assert(cams@.take(v + 1).drop_last() == cams@.take(v as int));
        r = r.min(&pixel_size(mean, &cams[v]));
        v = v + 1;
    }
    assert(cams@.take(cams@.len() as int) == cams@);
    r
}

/// The least extent of each splat, or nothing where the filter is off or there
/// are no views.
pub fn compute_min_scale(means: &Vec<Vec3A>, view_cams: &Vec<ViewCam>, factor: Single) -> (r:
    Option<Vec<Scalar>>)
    ensures
        (r is Some) == (!factor.at_most_zero() && view_cams@.len() > 0),
        r matches Some(floor) ==> floor@ == means@.map_values(
            |mean: Vec3A| least_pixel_size(mean, view_cams@) * single(factor.bits).sqrt(),
        ),
{
    if factor.is_at_most_zero() || view_cams.len() == 0 {
        return None;
    }
    let mut floor: Vec<Scalar> = Vec::new();
    let mut i: usize = 0;
    while i < means.len()
        invariant
            i <= means@.len(),
            view_cams@.len() > 0,
            floor@ == means@.take(i as int).map_values(
                |mean: Vec3A| least_pixel_size(mean, view_cams@) * single(factor.bits).sqrt(),
            ),
        decreases means@.len() - i,
    {
        floor.push(min_pixel_size(&means[i], view_cams) * factor.scalar().sqrt());
        i = i + 1;
        assert(floor@ =~= means@.take(i as int).map_values(
            |mean: Vec3A| least_pixel_size(mean, view_cams@) * single(factor.bits).sqrt(),
        ));
    }
    assert(means@.take(means@.len() as int) == means@);
    Some(floor)
}

pub open spec fn spec_floor_is_refreshed(iter: u32, total_train_iters: u32) -> Test {
    let total = if total_train_iters == 0 {
        1u32
    } else {
        total_train_iters
    };
    (whole(iter as i64) / whole(total as i64)).lt(&decimal(9, (-1) as i32))
}

/// Whether the least extents are still computed anew: until nine tenths of
/// training, so that the splats settle against a fixed floor.
#[verifier::when_used_as_spec(spec_floor_is_refreshed)]
pub fn floor_is_refreshed(iter: u32, total_train_iters: u32) -> (r: Test)
    ensures
        r == floor_is_refreshed(iter, total_train_iters),
{
    let total: u32 = if total_train_iters == 0 {
        1
    } else {
        total_train_iters
    };
    (Scalar::num(iter as i64) / Scalar::num(total as i64)).lt(&Scalar::lit(9, -1))
}

} // verus!
