//! Forward projection: which splats are visible, and the compaction of those.
//!
//! This is the only place where visibility is decided. The guards are phrased
//! positively, so a NaN fails them: no comparison with a NaN holds.
use crate::camera_model::{project, CameraModel, ProjectUniforms};
use crate::cube::{is_finite_f32, sigmoid, Quat, Sym2, Vec3A};
use crate::expr::semantics::Model;
use crate::expr::{decimal, whole, Scalar, Test};
use vstd::prelude::*;
use vstd::set_lib::*;

verus! {

/// Threads per workgroup.
pub const WG_SIZE: u32 = 256;

/// A splat as the shared readers give it: its camera-space mean, its extent, its
/// quaternion before normalization, and the logit of its opacity.
pub struct ForwardSplat {
    pub mean_c: Vec3A,
    pub scale: Vec3A,
    pub quat_unorm: Quat,
    pub raw_opac: Scalar,
}

pub open spec fn spec_off_axis_angle(
    mean_c: &Vec3A,
) -> Scalar {
    let r = (mean_c.x * mean_c.x + mean_c.y * mean_c.y).sqrt();
    r.atan2(&mean_c.z)
}

/// The angle between the optical axis and the ray to the mean.
#[verifier::when_used_as_spec(spec_off_axis_angle)]
pub fn off_axis_angle(
    mean_c: &Vec3A,
) -> (r: Scalar)
    ensures
        r == off_axis_angle(mean_c),
{
    let r = (&mean_c.x * &mean_c.x + &mean_c.y * &mean_c.y).sqrt();
    r.atan2(&mean_c.z)
}

pub open spec fn spec_frustum_guard(
    mean_c: &Vec3A,
    u: &ProjectUniforms,
    camera_model: &CameraModel<Scalar>,
) -> Test {
    match *camera_model {
        CameraModel::Pinhole => mean_c.z.lt(&decimal(1, (-2) as i32)).not(),
        _ => off_axis_angle(mean_c).gt(&u.half_max_render_fov).not(),
    }
}

/// The mean is where the camera model can image it: in front of a pinhole, or
/// within the field of view of the other models.
#[verifier::when_used_as_spec(spec_frustum_guard)]
pub fn frustum_guard(
    mean_c: &Vec3A,
    u: &ProjectUniforms,
    camera_model: &CameraModel<Scalar>,
) -> (r: Test)
    ensures
        r == frustum_guard(mean_c, u, camera_model),
{
    match camera_model {
        CameraModel::Pinhole => mean_c.z.lt(&Scalar::lit(1, -2)).not(),
        CameraModel::KannalaBrandt4(_)
        | CameraModel::RadialTangential8(_)
        | CameraModel::ThinPrismFisheye(_) => off_axis_angle(mean_c).gt(
            &u.half_max_render_fov,
        ).not(),
    }
}

pub open spec fn spec_geometry_guard(
    splat: &ForwardSplat,
    u: &ProjectUniforms,
    camera_model: &CameraModel<Scalar>,
) -> Test {
    let near = splat.mean_c.is_finite().and(&splat.mean_c.z.le(&decimal(1, 10)));
    let qnorm_sq = splat.quat_unorm.dot(&splat.quat_unorm);
    let rotation = qnorm_sq.ge(&decimal(1, (-6) as i32)).and(&is_finite_f32(&qnorm_sq));
    near.and(&frustum_guard(&splat.mean_c, u, camera_model)).and(&splat.scale.is_finite())
        .and(&rotation).and(&is_finite_f32(&splat.raw_opac))
}

/// The splat's own numbers are usable and its mean can be imaged.
#[verifier::when_used_as_spec(spec_geometry_guard)]
pub fn geometry_guard(
    splat: &ForwardSplat,
    u: &ProjectUniforms,
    camera_model: &CameraModel<Scalar>,
) -> (r: Test)
    ensures
        r == geometry_guard(splat, u, camera_model),
{
    let near = splat.mean_c.is_finite().and(&splat.mean_c.z.le(&Scalar::lit(1, 10)));
    let qnorm_sq = splat.quat_unorm.dot(&splat.quat_unorm);
    let rotation = qnorm_sq.ge(&Scalar::lit(1, -6)).and(&is_finite_f32(&qnorm_sq));
    near.and(&frustum_guard(&splat.mean_c, u, camera_model)).and(&splat.scale.is_finite())
        .and(&rotation).and(&is_finite_f32(&splat.raw_opac))
}

pub open spec fn spec_splat_opacity(
    raw_opac: &Scalar,
    filter_comp: &Scalar,
) -> Scalar {
    sigmoid(raw_opac) * *filter_comp
}

/// The opacity, less what the filter spreads out.
#[verifier::when_used_as_spec(spec_splat_opacity)]
pub fn splat_opacity(
    raw_opac: &Scalar,
    filter_comp: &Scalar,
) -> (r: Scalar)
    ensures
        r == splat_opacity(raw_opac, filter_comp),
{
    sigmoid(raw_opac) * filter_comp
}

pub open spec fn spec_coverage_guard(
    cov: &Sym2,
    opac: &Scalar,
) -> Test {
    cov.is_finite().and(&opac.ge(&(whole(1) / whole(255))))
}

/// The splat's covariance in the image is usable and its opacity can be seen.
#[verifier::when_used_as_spec(spec_coverage_guard)]
pub fn coverage_guard(
    cov: &Sym2,
    opac: &Scalar,
) -> (r: Test)
    ensures
        r == coverage_guard(cov, opac),
{
    cov.is_finite().and(&opac.ge(&(Scalar::num(1) / Scalar::num(255))))
}

pub open spec fn spec_power_threshold(
    opac: &Scalar,
) -> Scalar {
    (*opac * whole(255)).ln()
}

/// The exponent at which a splat of this opacity falls below one step of eight bits.
#[verifier::when_used_as_spec(spec_power_threshold)]
pub fn power_threshold(
    opac: &Scalar,
) -> (r: Scalar)
    ensures
        r == power_threshold(opac),
{
    (opac * Scalar::num(255)).ln()
}

pub open spec fn spec_screen_guard(
    mean2d: &(Scalar, Scalar),
    extent: &(Scalar, Scalar),
    u: &ProjectUniforms,
) -> Test {
    let mx = mean2d.0;
    let my = mean2d.1;
    let ex = extent.0;
    let ey = extent.1;
    let zero = whole(0);
    let positive = ex.ge(&zero).and(&ey.ge(&zero));
    let on_screen = (mx + ex).gt(&zero).and(&(mx - ex).lt(&u.img_w)).and(&(my + ey).gt(&zero))
        .and(&(my - ey).lt(&u.img_h));
    positive.and(&on_screen)
}

/// The splat's box, `extent` around `mean2d`, exists and meets the image.
#[verifier::when_used_as_spec(spec_screen_guard)]
pub fn screen_guard(
    mean2d: &(Scalar, Scalar),
    extent: &(Scalar, Scalar),
    u: &ProjectUniforms,
) -> (r: Test)
    ensures
        r == screen_guard(mean2d, extent, u),
{
    let mx = &mean2d.0;
    let my = &mean2d.1;
    let ex = &extent.0;
    let ey = &extent.1;
    let zero = Scalar::num(0);
    let positive = ex.ge(&zero).and(&ey.ge(&zero));
    let on_screen = (mx + ex).gt(&zero).and(&(mx - ex).lt(&u.img_w)).and(&(my + ey).gt(&zero))
        .and(&(my - ey).lt(&u.img_h));
    positive.and(&on_screen)
}

pub open spec fn spec_screen_radius(
    extent: &(Scalar, Scalar),
    u: &ProjectUniforms,
) -> Scalar {
    let ex = extent.0;
    let ey = extent.1;
    (ex / u.img_w).max(&(ey / u.img_h))
}

/// The larger extent, as a fraction of the image.
#[verifier::when_used_as_spec(spec_screen_radius)]
pub fn screen_radius(
    extent: &(Scalar, Scalar),
    u: &ProjectUniforms,
) -> (r: Scalar)
    ensures
        r == screen_radius(extent, u),
{
    let ex = &extent.0;
    let ey = &extent.1;
    (ex / &u.img_w).max(&(ey / &u.img_h))
}

/// What the shared helpers give on the way: the mean and the covariance in the
/// image when the sigma points are used, the covariance when they are not, the
/// filtered covariance with its compensation, and the box around the mean.
pub struct ForwardHelpers {
    pub ut_mean2d: (Scalar, Scalar),
    pub cov: Sym2,
    pub filter_comp: Scalar,
    pub extent: (Scalar, Scalar),
    pub perspective: (Scalar, Scalar),
}

pub open spec fn spec_projected_mean(
    splat: &ForwardSplat,
    u: &ProjectUniforms,
    use_ut: bool,
    camera_model: &CameraModel<Scalar>,
    helpers: &ForwardHelpers,
) -> (Scalar, Scalar) {
    if use_ut {
        helpers.ut_mean2d
    } else {
        project(
            &splat.mean_c,
            &u.pinhole_params,
            &u.half_max_render_fov,
            camera_model,
            &helpers.perspective,
        )
    }
}

/// The mean in the image: that of the sigma points where they are used, else
/// the image of the mean.
#[verifier::when_used_as_spec(spec_projected_mean)]
pub fn projected_mean(
    splat: &ForwardSplat,
    u: &ProjectUniforms,
    use_ut: bool,
    camera_model: &CameraModel<Scalar>,
    helpers: &ForwardHelpers,
) -> (r: (Scalar, Scalar))
    ensures
        r == projected_mean(splat, u, use_ut, camera_model, helpers),
{
    if use_ut {
        (helpers.ut_mean2d.0.clone(), helpers.ut_mean2d.1.clone())
    } else {
        project(
            &splat.mean_c,
            &u.pinhole_params,
            &u.half_max_render_fov,
            camera_model,
            &helpers.perspective,
        )
    }
}

pub open spec fn spec_is_visible(
    splat: &ForwardSplat,
    u: &ProjectUniforms,
    use_ut: bool,
    camera_model: &CameraModel<Scalar>,
    helpers: &ForwardHelpers,
) -> Test {
    let opac = splat_opacity(&splat.raw_opac, &helpers.filter_comp);
    let mean2d = projected_mean(splat, u, use_ut, camera_model, helpers);
    geometry_guard(splat, u, camera_model).and(&coverage_guard(&helpers.cov, &opac)).and(
        &screen_guard(&mean2d, &helpers.extent, u),
    )
}

/// The splat is visible.
#[verifier::when_used_as_spec(spec_is_visible)]
pub fn is_visible(
    splat: &ForwardSplat,
    u: &ProjectUniforms,
    use_ut: bool,
    camera_model: &CameraModel<Scalar>,
    helpers: &ForwardHelpers,
) -> (r: Test)
    ensures
        r == is_visible(splat, u, use_ut, camera_model, helpers),
{
    let opac = splat_opacity(&splat.raw_opac, &helpers.filter_comp);
    let mean2d = projected_mean(splat, u, use_ut, camera_model, helpers);
    geometry_guard(splat, u, camera_model).and(&coverage_guard(&helpers.cov, &opac)).and(
        &screen_guard(&mean2d, &helpers.extent, u),
    )
}

/// What a launch writes. The counters are atomics of 32 bits.
pub struct ForwardBuffers {
    pub global_from_compact_gid: Vec<u32>,
    pub depths: Vec<Scalar>,
    pub num_visible: u32,
    pub intersect_counts: Vec<u32>,
    pub num_intersections: u32,
    pub max_radius: Vec<Scalar>,
}

/// What a launch has found so far: the visible splats in the order in which
/// they were found, with their depths, and what is recorded per splat.
#[verifier::ext_equal]
pub struct Found {
    pub gids: Seq<u32>,
    pub depths: Seq<Scalar>,
    pub intersect_counts: Seq<u32>,
    pub max_radius: Seq<Scalar>,
    pub num_intersections: int,
}

/// What a thread found of a visible splat.
pub struct Visible {
    pub gid: u32,
    pub num_tiles_hit: u32,
    pub depth: Scalar,
    pub radius: Scalar,
}

impl ForwardBuffers {
    /// Indices on the device have 32 bits.
    pub open spec fn wf(&self) -> bool {
        &&& self.num_visible <= self.global_from_compact_gid@.len() <= u32::MAX
        &&& self.depths@.len() == self.global_from_compact_gid@.len()
        &&& self.intersect_counts@.len() == self.max_radius@.len()
    }

    pub open spec fn view(&self) -> Found {
        Found {
            gids: self.global_from_compact_gid@.take(self.num_visible as int),
            depths: self.depths@.take(self.num_visible as int),
            intersect_counts: self.intersect_counts@,
            max_radius: self.max_radius@,
            num_intersections: self.num_intersections as int,
        }
    }
}

impl Found {
    /// One more visible splat.
    pub open spec fn with(self, v: Visible) -> Found {
        Found {
            gids: self.gids.push(v.gid),
            depths: self.depths.push(v.depth),
            intersect_counts: self.intersect_counts.update(v.gid as int, v.num_tiles_hit),
            max_radius: self.max_radius.update(v.gid as int, v.radius),
            num_intersections: (self.num_intersections + v.num_tiles_hit) % 0x1_0000_0000,
        }
    }

    /// One visible splat after the other.
    pub open spec fn with_all(self, vs: Seq<Visible>) -> Found
        decreases vs.len(),
    {
        if vs.len() == 0 {
            self
        } else {
            self.with_all(vs.drop_last()).with(vs.last())
        }
    }
}

/// One thread of the launch. `visible` is whether the device found
/// [`is_visible`] to hold of the splat, `num_tiles_hit` how many tiles it
/// contributes to.
pub fn project_forward_kernel(
    global_gid: u32,
    visible: bool,
    num_tiles_hit: u32,
    splat: &ForwardSplat,
    u: &ProjectUniforms,
    helpers: &ForwardHelpers,
    out: &mut ForwardBuffers,
)
    requires
        old(out).wf(),
        global_gid < u.total_splats && visible ==> {
            &&& global_gid < old(out).intersect_counts@.len()
            &&& old(out).num_visible < old(out).global_from_compact_gid@.len()
        },
    ensures
        final(out).wf(),
        final(out).global_from_compact_gid@.len() == old(out).global_from_compact_gid@.len(),
        !(global_gid < u.total_splats && visible) ==> *final(out) == *old(out),
        global_gid < u.total_splats && visible ==> final(out)@ == old(out)@.with(
            Visible {
                gid: global_gid,
                num_tiles_hit,
                depth: splat.mean_c.z,
                radius: screen_radius(&helpers.extent, u),
            },
        ),
{
    if global_gid >= u.total_splats || !visible {
        return ;
    }
    let gid: usize = global_gid as usize;
    out.intersect_counts.set(gid, num_tiles_hit);
    out.num_intersections = out.num_intersections.wrapping_add(num_tiles_hit);
    out.max_radius.set(gid, screen_radius(&helpers.extent, u));
    let write_id: usize = out.num_visible as usize;
    out.num_visible = out.num_visible.wrapping_add(1);
    out.global_from_compact_gid.set(write_id, global_gid);
    out.depths.set(write_id, splat.mean_c.z.clone());
    proof {
        let n = old(out).num_visible as int;
        let sum = old(out).num_intersections + num_tiles_hit;
        assert(out.global_from_compact_gid@.take(n + 1)
            == old(out).global_from_compact_gid@.take(n).push(global_gid));
        assert(out.depths@.take(n + 1) == old(out).depths@.take(n).push(splat.mean_c.z));
        assert(out.num_intersections == sum % 0x1_0000_0000);
    }
}

/// Whatever the order in which the threads run, every visible splat is listed
/// exactly once, beside its own depth, and its own count and radius are
/// recorded; the counter holds the sum of the counts, as far as 32 bits go.
pub proof fn lemma_compaction(start: Found, vs: Seq<Visible>)
    requires
        start.gids.len() == 0,
        start.depths.len() == 0,
        start.num_intersections == 0,
        start.intersect_counts.len() == start.max_radius.len(),
        forall|i: int| 0 <= i < vs.len() ==> (#[trigger] vs[i]).gid < start.max_radius.len(),
        forall|i: int, j: int|
            0 <= i < j < vs.len() ==> (#[trigger] vs[i]).gid != (#[trigger] vs[j]).gid,
    ensures
        ({
            let end = start.with_all(vs);
            &&& end.gids == vs.map_values(|v: Visible| v.gid)
            &&& end.depths == vs.map_values(|v: Visible| v.depth)
            &&& end.gids.no_duplicates()
            &&& end.intersect_counts.len() == start.intersect_counts.len()
            &&& end.max_radius.len() == start.max_radius.len()
            &&& forall|i: int|
                0 <= i < vs.len() ==> {
                    &&& end.intersect_counts[(#[trigger] vs[i]).gid as int] == vs[i].num_tiles_hit
                    &&& end.max_radius[vs[i].gid as int] == vs[i].radius
                }
            &&& forall|g: int|
                0 <= g < start.max_radius.len() && (forall|i: int|
                    0 <= i < vs.len() ==> (#[trigger] vs[i]).gid != g) ==> {
                    &&& #[trigger] end.intersect_counts[g] == start.intersect_counts[g]
                    &&& end.max_radius[g] == start.max_radius[g]
                }
            &&& end.num_intersections == total_tiles(vs) % 0x1_0000_0000
        }),
    decreases vs.len(),
{
    if vs.len() > 0 {
        let init = vs.drop_last();
        lemma_compaction(start, init);
        let before = start.with_all(init);
        let end = start.with_all(vs);
        assert(end.gids == vs.map_values(|v: Visible| v.gid));
        assert(end.depths == vs.map_values(|v: Visible| v.depth));
        assert forall|i: int| 0 <= i < vs.len() implies {
            &&& end.intersect_counts[(#[trigger] vs[i]).gid as int] == vs[i].num_tiles_hit
            &&& end.max_radius[vs[i].gid as int] == vs[i].radius
        } by {
            if i < init.len() {
                assert(init[i] == vs[i]);
            }
        }
        assert forall|g: int|
            0 <= g < start.max_radius.len() && (forall|i: int|
                0 <= i < vs.len() ==> (#[trigger] vs[i]).gid != g) implies {
            &&& #[trigger] end.intersect_counts[g] == start.intersect_counts[g]
            &&& end.max_radius[g] == start.max_radius[g]
        } by {
            assert(forall|i: int| 0 <= i < init.len() ==> (#[trigger] init[i]) == vs[i]);
            assert(vs[vs.len() - 1].gid != g);
            assert(before.intersect_counts[g] == start.intersect_counts[g]);
        }
        assert(end.gids.no_duplicates()) by {
            assert forall|i: int, j: int|
                0 <= i < end.gids.len() && 0 <= j < end.gids.len() && i != j implies end.gids[i]
                != end.gids[j] by {
                assert(end.gids[i] == vs[i].gid);
                assert(end.gids[j] == vs[j].gid);
            }
        }
    }
}

/// The sum of the counts.
pub open spec fn total_tiles(vs: Seq<Visible>) -> int
    decreases vs.len(),
{
    if vs.len() == 0 {
        0
    } else {
        total_tiles(vs.drop_last()) + vs.last().num_tiles_hit
    }
}

/// The counts of two runs of splats add up, and one splat adds its own.
pub proof fn lemma_total_tiles(a: Seq<Visible>, b: Seq<Visible>, v: Visible)
    ensures
        total_tiles(a + b) == total_tiles(a) + total_tiles(b),
        total_tiles(seq![v]) == v.num_tiles_hit,
        total_tiles(Seq::<Visible>::empty()) == 0,
    decreases b.len(),
{
    assert(seq![v].drop_last() =~= Seq::<Visible>::empty());
    assert(total_tiles(Seq::<Visible>::empty()) == 0);
    if b.len() == 0 {
        assert(a + b =~= a);
    } else {
        lemma_total_tiles(a, b.drop_last(), v);
        assert((a + b).drop_last() =~= a + b.drop_last());
    }
}

/// What the shared readers and helpers give for one splat, and how many tiles it
/// contributes to.
pub struct Candidate {
    pub splat: ForwardSplat,
    pub helpers: ForwardHelpers,
    pub num_tiles_hit: u32,
}

/// What the device is asked of every splat: whether it is visible.
pub fn visibility_tests(
    candidates: &Vec<Candidate>,
    u: &ProjectUniforms,
    use_ut: bool,
    camera_model: &CameraModel<Scalar>,
) -> (r: Vec<Test>)
    ensures
        r@.len() == candidates@.len(),
        forall|g: int|
            0 <= g < r@.len() ==> #[trigger] r@[g] == is_visible(
                &candidates@[g].splat,
                u,
                use_ut,
                camera_model,
                &candidates@[g].helpers,
            ),
{
    let mut r: Vec<Test> = Vec::new();
    let mut i: usize = 0;
    while i < candidates.len()
        invariant
            i <= candidates@.len(),
            r@.len() == i,
            forall|g: int|
                0 <= g < i ==> #[trigger] r@[g] == is_visible(
                    &candidates@[g].splat,
                    u,
                    use_ut,
                    camera_model,
                    &candidates@[g].helpers,
                ),
        decreases candidates@.len() - i,
    {
        let c = &candidates[i];
        r.push(is_visible(&c.splat, u, use_ut, camera_model, &c.helpers));
        i = i + 1;
    }
    r
}

/// The thread of this splat finds it visible.
pub open spec fn passes(gid: u32, passed: Seq<bool>, u: ProjectUniforms) -> bool {
    gid < u.total_splats && passed[gid as int]
}

/// What a thread finds of a visible splat.
pub open spec fn found_by(gid: u32, candidates: Seq<Candidate>, u: ProjectUniforms) -> Visible {
    let c = candidates[gid as int];
    Visible {
        gid,
        num_tiles_hit: c.num_tiles_hit,
        depth: c.splat.mean_c.z,
        radius: screen_radius(&c.helpers.extent, &u),
    }
}

/// What the threads find that run in this order.
pub open spec fn found_in_order(
    order: Seq<u32>,
    passed: Seq<bool>,
    candidates: Seq<Candidate>,
    u: ProjectUniforms,
) -> Seq<Visible>
    decreases order.len(),
{
    if order.len() == 0 {
        Seq::empty()
    } else {
        let before = found_in_order(order.drop_last(), passed, candidates, u);
        if passes(order.last(), passed, u) {
            before.push(found_by(order.last(), candidates, u))
        } else {
            before
        }
    }
}

/// A thread runs once, so it is found once, and whoever passes is found.
proof fn lemma_found_in_order(
    order: Seq<u32>,
    passed: Seq<bool>,
    candidates: Seq<Candidate>,
    u: ProjectUniforms,
)
    requires
        order.no_duplicates(),
    ensures
        ({
            let vs = found_in_order(order, passed, candidates, u);
            &&& vs.len() <= order.len()
            &&& forall|i: int|
                0 <= i < vs.len() ==> {
                    &&& order.contains((#[trigger] vs[i]).gid)
                    &&& passes(vs[i].gid, passed, u)
                    &&& vs[i] == found_by(vs[i].gid, candidates, u)
                }
            &&& forall|i: int, j: int|
                0 <= i < j < vs.len() ==> (#[trigger] vs[i]).gid != (#[trigger] vs[j]).gid
            &&& forall|g: u32| #[trigger]
                order.contains(g) && passes(g, passed, u) ==> exists|i: int|
                    0 <= i < vs.len() && (#[trigger] vs[i]).gid == g
        }),
    decreases order.len(),
{
    if order.len() > 0 {
        let init = order.drop_last();
        let last = order.last();
        let before = found_in_order(init, passed, candidates, u);
        let vs = found_in_order(order, passed, candidates, u);
        lemma_found_in_order(init, passed, candidates, u);
        assert forall|i: int| 0 <= i < before.len() implies order.contains(
            (#[trigger] before[i]).gid,
        ) && before[i].gid != last by {
            let k = init.index_of(before[i].gid);
            assert(order[k] == before[i].gid);
            assert(order[order.len() - 1] == last);
        }
        assert(order[order.len() - 1] == last);
        assert forall|i: int| 0 <= i < vs.len() implies {
            &&& order.contains((#[trigger] vs[i]).gid)
            &&& passes(vs[i].gid, passed, u)
            &&& vs[i] == found_by(vs[i].gid, candidates, u)
        } by {
            if i < before.len() {
                assert(vs[i] == before[i]);
            }
        }
        assert forall|i: int, j: int| 0 <= i < j < vs.len() implies (#[trigger] vs[i]).gid != (
        #[trigger] vs[j]).gid by {
            assert(vs[i] == before[i]);
            if j < before.len() {
                assert(vs[j] == before[j]);
            }
        }
        assert forall|g: u32| #[trigger] order.contains(g) && passes(g, passed, u) implies exists|
            i: int,
        | 0 <= i < vs.len() && (#[trigger] vs[i]).gid == g by {
            if g == last {
                assert(vs[vs.len() - 1].gid == g);
            } else {
                let k = order.index_of(g);
                assert(init[k] == g);
                assert(init.contains(g));
                let i = choose|i: int| 0 <= i < before.len() && (#[trigger] before[i]).gid == g;
                assert(vs[i].gid == g);
            }
        }
    }
}

/// Threads that run later only add to what is found.
proof fn lemma_found_grows(
    order: Seq<u32>,
    passed: Seq<bool>,
    candidates: Seq<Candidate>,
    u: ProjectUniforms,
    k: int,
)
    requires
        0 <= k <= order.len(),
    ensures
        found_in_order(order.take(k), passed, candidates, u).len() <= found_in_order(
            order,
            passed,
            candidates,
            u,
        ).len(),
    decreases order.len() - k,
{
    if k == order.len() {
        assert(order.take(k) == order);
    } else {
        assert(order.take(k + 1).drop_last() == order.take(k));
        lemma_found_grows(order, passed, candidates, u, k + 1);
    }
}

/// Every splat has a thread, and no thread runs twice.
pub open spec fn is_thread_order(order: Seq<u32>, u: ProjectUniforms) -> bool {
    &&& order.no_duplicates()
    &&& forall|g: u32| g < u.total_splats ==> #[trigger] order.contains(g)
}

/// The splats that are listed are those that pass, each once and beside its own
/// depth; the counts and radii of those that pass are recorded, and what stood for
/// the others stays.
pub open spec fn lists_what_passes(
    end: Found,
    start: Found,
    passed: Seq<bool>,
    candidates: Seq<Candidate>,
    u: ProjectUniforms,
) -> bool {
    &&& forall|g: u32| #[trigger] end.gids.contains(g) == passes(g, passed, u)
    &&& end.gids.no_duplicates()
    &&& end.depths.len() == end.gids.len()
    &&& forall|k: int|
        0 <= k < end.gids.len() ==> #[trigger] end.depths[k]
            == candidates[end.gids[k] as int].splat.mean_c.z
    &&& end.intersect_counts.len() == start.intersect_counts.len()
    &&& end.max_radius.len() == start.max_radius.len()
    &&& forall|g: u32|
        g < start.intersect_counts.len() ==> #[trigger] end.intersect_counts[g as int] == (
        if passes(g, passed, u) {
            candidates[g as int].num_tiles_hit
        } else {
            start.intersect_counts[g as int]
        })
    &&& forall|g: u32|
        g < start.max_radius.len() ==> #[trigger] end.max_radius[g as int] == (
        if passes(g, passed, u) {
            screen_radius(&candidates[g as int].helpers.extent, &u)
        } else {
            start.max_radius[g as int]
        })
}

/// No more is found than there are splats, so a list with a place for every splat is
/// long enough.
pub proof fn lemma_found_fits(
    order: Seq<u32>,
    passed: Seq<bool>,
    candidates: Seq<Candidate>,
    u: ProjectUniforms,
)
    requires
        order.no_duplicates(),
    ensures
        found_in_order(order, passed, candidates, u).len() <= u.total_splats,
{
    let vs = found_in_order(order, passed, candidates, u);
    let gids = vs.map_values(|v: Visible| v.gid as int);
    let splats = set_int_range(0, u.total_splats as int);
    lemma_found_in_order(order, passed, candidates, u);
    assert forall|i: int, j: int|
        0 <= i < gids.len() && 0 <= j < gids.len() && i != j implies gids[i] != gids[j] by {
        assert(vs[i].gid != vs[j].gid);
    }
    gids.unique_seq_to_set();
    lemma_int_range(0, u.total_splats as int);
    assert forall|g: int| gids.to_set().contains(g) implies splats.contains(g) by {
        let i = gids.index_of(g);
        assert(passes(vs[i].gid, passed, u));
    }
    lemma_len_subset(gids.to_set(), splats);
}

/// Whatever the order in which the threads run, the launch lists what passes, and the
/// counter holds the sum of the counts, as far as 32 bits go.
pub proof fn lemma_launch(
    start: Found,
    order: Seq<u32>,
    passed: Seq<bool>,
    candidates: Seq<Candidate>,
    u: ProjectUniforms,
)
    requires
        start.gids.len() == 0,
        start.depths.len() == 0,
        start.num_intersections == 0,
        start.intersect_counts.len() == start.max_radius.len(),
        u.total_splats <= start.max_radius.len(),
        is_thread_order(order, u),
    ensures
        ({
            let vs = found_in_order(order, passed, candidates, u);
            let end = start.with_all(vs);
            &&& lists_what_passes(end, start, passed, candidates, u)
            &&& end.num_intersections == total_tiles(vs) % 0x1_0000_0000
        }),
{
    let vs = found_in_order(order, passed, candidates, u);
    let end = start.with_all(vs);
    lemma_found_in_order(order, passed, candidates, u);
    lemma_compaction(start, vs);
    assert forall|g: u32| #[trigger] end.gids.contains(g) == passes(g, passed, u) by {
        if end.gids.contains(g) {
            let k = end.gids.index_of(g);
            assert(end.gids[k] == vs[k].gid);
        }
        if passes(g, passed, u) {
            assert(order.contains(g));
            let i = choose|i: int| 0 <= i < vs.len() && (#[trigger] vs[i]).gid == g;
            assert(end.gids[i] == g);
        }
    }
    assert forall|k: int| 0 <= k < end.gids.len() implies #[trigger] end.depths[k]
        == candidates[end.gids[k] as int].splat.mean_c.z by {
        assert(end.gids[k] == vs[k].gid);
        assert(end.depths[k] == vs[k].depth);
    }
    assert forall|g: u32| g < start.max_radius.len() implies {
        &&& end.intersect_counts[g as int] == if passes(g, passed, u) {
            candidates[g as int].num_tiles_hit
        } else {
            start.intersect_counts[g as int]
        }
        &&& #[trigger] end.max_radius[g as int] == if passes(g, passed, u) {
            screen_radius(&candidates[g as int].helpers.extent, &u)
        } else {
            start.max_radius[g as int]
        }
    } by {
        if passes(g, passed, u) {
            assert(order.contains(g));
            let i = choose|i: int| 0 <= i < vs.len() && (#[trigger] vs[i]).gid == g;
            assert(end.intersect_counts[vs[i].gid as int] == vs[i].num_tiles_hit);
        } else {
            assert forall|i: int| 0 <= i < vs.len() implies (#[trigger] vs[i]).gid != g as int by {
                assert(passes(vs[i].gid, passed, u));
            }
            assert(end.intersect_counts[g as int] == start.intersect_counts[g as int]);
        }
    }
    assert forall|g: u32|
        g < start.intersect_counts.len() implies #[trigger] end.intersect_counts[g as int] == (
    if passes(g, passed, u) {
        candidates[g as int].num_tiles_hit
    } else {
        start.intersect_counts[g as int]
    }) by {
        assert(end.max_radius[g as int] == end.max_radius[g as int]);
    }
}

/// The launch. `order` is the order in which the threads come to write, which the
/// device leaves open: it holds every splat, and may hold threads past the splats.
/// `passed` is what the device answers to [`visibility_tests`].
pub fn project_forward(
    order: &Vec<u32>,
    passed: &Vec<bool>,
    candidates: &Vec<Candidate>,
    u: &ProjectUniforms,
    out: &mut ForwardBuffers,
)
    requires
        old(out).wf(),
        old(out).num_visible == 0,
        old(out).num_intersections == 0,
        u.total_splats <= old(out).intersect_counts@.len(),
        passed@.len() == u.total_splats,
        candidates@.len() == u.total_splats,
        is_thread_order(order@, *u),
        found_in_order(order@, passed@, candidates@, *u).len()
            <= old(out).global_from_compact_gid@.len(),
    ensures
        final(out).wf(),
        final(out)@ == old(out)@.with_all(found_in_order(order@, passed@, candidates@, *u)),
        lists_what_passes(final(out)@, old(out)@, passed@, candidates@, *u),
        final(out).num_intersections == total_tiles(
            found_in_order(order@, passed@, candidates@, *u),
        ) % 0x1_0000_0000,
{
    let ghost start = out@;
    let mut i: usize = 0;
    while i < order.len()
        invariant
            i <= order@.len(),
            out.wf(),
            start.gids.len() == 0,
            start.depths.len() == 0,
            start.num_intersections == 0,
            start.intersect_counts.len() == start.max_radius.len(),
            u.total_splats <= start.max_radius.len(),
            passed@.len() == u.total_splats,
            candidates@.len() == u.total_splats,
            order@.no_duplicates(),
            found_in_order(order@, passed@, candidates@, *u).len()
                <= out.global_from_compact_gid@.len(),
            out@ == start.with_all(
                found_in_order(order@.take(i as int), passed@, candidates@, *u),
            ),
        decreases order@.len() - i,
    {
        let gid: u32 = order[i];
        let ghost done = order@.take(i as int);
        let ghost next = order@.take(i + 1);
        proof {
            assert(next.drop_last() == done);
            assert(next.last() == gid);
            lemma_found_in_order(done, passed@, candidates@, *u);
            lemma_compaction(start, found_in_order(done, passed@, candidates@, *u));
            lemma_found_grows(order@, passed@, candidates@, *u, i + 1);
            assert(out@.gids.len() == out.num_visible);
            assert(out@.intersect_counts == out.intersect_counts@);
        }
        if gid < u.total_splats {
            let c = &candidates[gid as usize];
            assert(*c == candidates@[gid as int]);
            let ghost vs = found_in_order(next, passed@, candidates@, *u);
            project_forward_kernel(
                gid,
                passed[gid as usize],
                c.num_tiles_hit,
                &c.splat,
                u,
                &c.helpers,
                out,
            );
            assert(passes(gid, passed@, *u) ==> vs.drop_last() == found_in_order(
                done,
                passed@,
                candidates@,
                *u,
            ));
        }
        i = i + 1;
    }
    proof {
        assert(order@.take(order@.len() as int) == order@);
        lemma_launch(start, order@, passed@, candidates@, *u);
    }
}

/// Over the reals: the splats that the launch lists are exactly those of which
/// [`is_visible`] holds.
pub proof fn lemma_listed_are_visible(
    start: Found,
    order: Seq<u32>,
    passed: Seq<bool>,
    candidates: Seq<Candidate>,
    u: ProjectUniforms,
    use_ut: bool,
    camera_model: CameraModel<Scalar>,
    m: Model,
)
    requires
        start.gids.len() == 0,
        start.depths.len() == 0,
        start.num_intersections == 0,
        start.intersect_counts.len() == start.max_radius.len(),
        u.total_splats <= start.max_radius.len(),
        is_thread_order(order, u),
        forall|g: u32|
            g < u.total_splats ==> #[trigger] passed[g as int] == is_visible(
                &candidates[g as int].splat,
                &u,
                use_ut,
                &camera_model,
                &candidates[g as int].helpers,
            ).holds(m),
    ensures
        ({
            let end = start.with_all(found_in_order(order, passed, candidates, u));
            forall|g: u32| #[trigger]
                end.gids.contains(g) == (g < u.total_splats && is_visible(
                    &candidates[g as int].splat,
                    &u,
                    use_ut,
                    &camera_model,
                    &candidates[g as int].helpers,
                ).holds(m))
        }),
{
    lemma_launch(start, order, passed, candidates, u);
    let end = start.with_all(found_in_order(order, passed, candidates, u));
    assert forall|g: u32| #[trigger] end.gids.contains(g) == (g < u.total_splats && is_visible(
        &candidates[g as int].splat,
        &u,
        use_ut,
        &camera_model,
        &candidates[g as int].helpers,
    ).holds(m)) by {
        assert(end.gids.contains(g) == passes(g, passed, u));
    }
}

} // verus!
