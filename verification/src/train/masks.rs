//! Which splats are dropped at a refinement.
use crate::cube::{Pad, Vec3A};
use crate::expr::{decimal, whole, Scalar, Test};
use crate::train::record::Splats;
use crate::train::split::min_opacity;
use crate::train::trainer::BoundingBox;
use vstd::prelude::*;

verus! {

pub open spec fn spec_max_allowed_bounds(bounds: &BoundingBox) -> Scalar {
    bounds.extent.x.max(&bounds.extent.y.max(&bounds.extent.z)) * whole(100)
}

/// How far a splat may reach, and how far it may stray from the centre: a
/// hundred times the longest side of the bounds.
#[verifier::when_used_as_spec(spec_max_allowed_bounds)]
pub fn max_allowed_bounds(bounds: &BoundingBox) -> (r: Scalar)
    ensures
        r == max_allowed_bounds(bounds),
{
    bounds.extent.x.max(&bounds.extent.y.max(&bounds.extent.z)) * Scalar::num(100)
}

pub open spec fn spec_any_greater(v: &Vec3A, limit: &Scalar) -> Test {
    v.x.gt(limit).or(&v.y.gt(limit)).or(&v.z.gt(limit))
}

/// Some coordinate is greater than the limit.
#[verifier::when_used_as_spec(spec_any_greater)]
pub fn any_greater(v: &Vec3A, limit: &Scalar) -> (r: Test)
    ensures
        r == any_greater(v, limit),
{
    v.x.gt(limit).or(&v.y.gt(limit)).or(&v.z.gt(limit))
}

pub open spec fn spec_distance_per_axis(mean: &Vec3A, center: &Vec3A) -> Vec3A {
    Vec3A {
        x: (mean.x - center.x).abs(),
        y: (mean.y - center.y).abs(),
        z: (mean.z - center.z).abs(),
        pad: Pad::Zero,
    }
}

/// The distance from the centre along each axis.
#[verifier::when_used_as_spec(spec_distance_per_axis)]
pub fn distance_per_axis(mean: &Vec3A, center: &Vec3A) -> (r: Vec3A)
    ensures
        r == distance_per_axis(mean, center),
{
    Vec3A {
        x: (&mean.x - &center.x).abs(),
        y: (&mean.y - &center.y).abs(),
        z: (&mean.z - &center.z).abs(),
        pad: Pad::Zero,
    }
}

/// Some number of the row is not finite. The row is not empty.
pub open spec fn row_non_finite(row: Seq<Scalar>) -> Test
    decreases row.len(),
{
    if row.len() <= 1 {
        row[0].finite().not()
    } else {
        row_non_finite(row.drop_last()).or(&row.last().finite().not())
    }
}

/// Some number of the row is not finite.
pub fn test_row_non_finite(row: &Vec<Scalar>) -> (r: Test)
    requires
        row@.len() > 0,
    ensures
        r == row_non_finite(row@),
{
    let mut r = row[0].finite().not();
    let mut j: usize = 1;
    assert(row@.take(1)[0] == row@[0]);
    while j < row.len()
        invariant
            1 <= j <= row@.len(),
            r == row_non_finite(row@.take(j as int)),
        decreases row@.len() - j,
    {
        assert(row@.take(j + 1).drop_last() == row@.take(j as int));
        r = r.or(&row[j].finite().not());
        j = j + 1;
    }
    assert(row@.take(row@.len() as int) == row@);
    r
}

impl Splats {
    /// Some parameter of the splat is not finite.
    pub open spec fn non_finite(&self, i: int) -> Test {
        row_non_finite(self.transforms.value@[i]).or(
            &row_non_finite(self.sh_coeffs.value@[i]),
        ).or(&row_non_finite(self.raw_opacities.value@[i]))
    }

    /// Some parameter of the splat is not finite.
    pub fn test_non_finite(&self, i: usize) -> (r: Test)
        requires
            self.wf(),
            i < self.count(),
        ensures
            r == self.non_finite(i as int),
    {
        assert(self.transforms.value@[i as int].len() == 10);
        assert(self.sh_coeffs.value@[i as int].len() > 0);
        assert(self.raw_opacities.value@[i as int].len() == 1);
        test_row_non_finite(&self.transforms.value.rows[i]).or(
            &test_row_non_finite(&self.sh_coeffs.value.rows[i]),
        ).or(&test_row_non_finite(&self.raw_opacities.value.rows[i]))
    }

    /// The position of the splat.
    pub open spec fn mean(&self, i: int) -> Vec3A {
        let row = self.transforms.value@[i];
        Vec3A { x: row[0], y: row[1], z: row[2], pad: Pad::Zero }
    }

    /// The position of the splat.
    pub fn read_mean(&self, i: usize) -> (r: Vec3A)
        requires
            self.wf(),
            i < self.count(),
        ensures
            r == self.mean(i as int),
    {
        assert(self.transforms.value@[i as int].len() == 10);
        let row = &self.transforms.value.rows[i];
        Vec3A { x: row[0].clone(), y: row[1].clone(), z: row[2].clone(), pad: Pad::Zero }
    }

    /// The squared length of the splat's quaternion.
    pub open spec fn quat_sq_norm(&self, i: int) -> Scalar {
        let row = self.transforms.value@[i];
        let two = whole(2);
        row[3].pow(&two) + row[4].pow(&two) + row[5].pow(&two) + row[6].pow(&two)
    }
}

/// The splat is dropped: it cannot be seen, reaches too far, has strayed too far
/// or is not finite. There is no least extent: a flat splat is a surface.
pub open spec fn pruned(
    splats: &Splats,
    opacities: Seq<Scalar>,
    scales: Seq<Vec3A>,
    bounds: &BoundingBox,
    i: int,
) -> Test {
    let limit = max_allowed_bounds(bounds);
    opacities[i].lt(&min_opacity()).or(&any_greater(&scales[i], &limit)).or(
        &any_greater(&distance_per_axis(&splats.mean(i), &bounds.center), &limit),
    ).or(&splats.non_finite(i))
}

/// The masks of a refinement: which splats are dropped, and which of them
/// because they are not finite.
pub struct PruneMasks {
    pub prune: Vec<Test>,
    pub non_finite: Vec<Test>,
}

/// The masks of a refinement, from the opacities and the extents that the
/// splats have.
pub fn prune_masks(
    splats: &Splats,
    opacities: &Vec<Scalar>,
    scales: &Vec<Vec3A>,
    bounds: &BoundingBox,
) -> (r: PruneMasks)
    requires
        splats.wf(),
        opacities@.len() == splats.count(),
        scales@.len() == splats.count(),
    ensures
        r.prune@ == Seq::new(
            splats.count(),
            |i: int| pruned(splats, opacities@, scales@, bounds, i),
        ),
        r.non_finite@ == Seq::new(splats.count(), |i: int| splats.non_finite(i)),
{
    let limit = max_allowed_bounds(bounds);
    let mut prune: Vec<Test> = Vec::new();
    let mut non_finite: Vec<Test> = Vec::new();
    let n: usize = splats.transforms.value.len();
    let mut i: usize = 0;
    while i < n
        invariant
            i <= n == splats.count(),
            splats.wf(),
            limit == max_allowed_bounds(bounds),
            opacities@.len() == splats.count(),
            scales@.len() == splats.count(),
            prune@ == Seq::new(
                i as nat,
                |i: int| pruned(splats, opacities@, scales@, bounds, i),
            ),
            non_finite@ == Seq::new(i as nat, |i: int| splats.non_finite(i)),
        decreases n - i,
    {
        let bad = splats.test_non_finite(i);
        let mean = splats.read_mean(i);
        let test = opacities[i].lt(&min_opacity()).or(&any_greater(&scales[i], &limit)).or(
            &any_greater(&distance_per_axis(&mean, &bounds.center), &limit),
        ).or(&bad);
        prune.push(test);
        non_finite.push(bad);
        i = i + 1;
        assert(prune@ =~= Seq::new(
            i as nat,
            |i: int| pruned(splats, opacities@, scales@, bounds, i),
        ));
        assert(non_finite@ =~= Seq::new(i as nat, |i: int| splats.non_finite(i)));
    }
    PruneMasks { prune, non_finite }
}

/// The splat came out of a split unusable: not finite, or without a rotation.
pub open spec fn degenerate(splats: &Splats, i: int) -> Test {
    splats.non_finite(i).or(&splats.quat_sq_norm(i).lt(&decimal(1, (-6) as i32)))
}

/// Which splats came out of a split unusable.
pub fn degenerate_mask(splats: &Splats) -> (r: Vec<Test>)
    requires
        splats.wf(),
    ensures
        r@ == Seq::new(splats.count(), |i: int| degenerate(splats, i)),
{
    let mut r: Vec<Test> = Vec::new();
    let n: usize = splats.transforms.value.len();
    let mut i: usize = 0;
    while i < n
        invariant
            i <= n == splats.count(),
            splats.wf(),
            r@ == Seq::new(i as nat, |i: int| degenerate(splats, i)),
        decreases n - i,
    {
        assert(splats.transforms.value@[i as int].len() == 10);
        let row = &splats.transforms.value.rows[i];
        let two = Scalar::num(2);
        let norm = row[3].pow(&two) + row[4].pow(&two) + row[5].pow(&two) + row[6].pow(&two);
        r.push(splats.test_non_finite(i).or(&norm.lt(&Scalar::lit(1, -6))));
        i = i + 1;
        assert(r@ =~= Seq::new(i as nat, |i: int| degenerate(splats, i)));
    }
    r
}

} // verus!
