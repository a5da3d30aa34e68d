//! What the visibility guards let through and what they keep out: among the latter,
//! numbers that are not numbers, and infinities.
use crate::camera_model::homogeneity::same_angle;
use crate::camera_model::{project, CameraModel, ProjectUniforms};
use crate::cube::{sigmoid, Sym2, Vec3A};
use crate::expr::algebra::{dist_add_left, div_undone, mul_comm, same_root};
use crate::expr::semantics::{group_value, pow10, Model};
use crate::expr::{Cond, Expr, Scalar, Test};
use crate::kernels::project_forward::{
    frustum_guard, is_visible, off_axis_angle, power_threshold, projected_mean, screen_radius,
    splat_opacity, ForwardHelpers, ForwardSplat,
};
use vstd::prelude::*;

verus! {

/// A device: which numbers it finds to be no numbers or infinite, and what the
/// others denote.
pub struct Machine {
    pub nan: spec_fn(Expr) -> bool,
    pub infinite: spec_fn(Expr) -> bool,
    pub model: Model,
}

impl Cond {
    /// The device finds that the test succeeds. No comparison with what is no
    /// number does, except that it is unequal to everything.
    pub open spec fn passes(self, d: Machine) -> bool
        decreases self,
    {
        match self {
            Cond::Lt(a, b) => !(d.nan)(*a) && !(d.nan)(*b) && a.value(d.model) < b.value(d.model),
            Cond::Le(a, b) => !(d.nan)(*a) && !(d.nan)(*b) && a.value(d.model) <= b.value(d.model),
            Cond::Gt(a, b) => !(d.nan)(*a) && !(d.nan)(*b) && a.value(d.model) > b.value(d.model),
            Cond::Ge(a, b) => !(d.nan)(*a) && !(d.nan)(*b) && a.value(d.model) >= b.value(d.model),
            Cond::Ne(a, b) => (d.nan)(*a) || (d.nan)(*b) || a.value(d.model) != b.value(d.model),
            Cond::Finite(a) => !(d.nan)(*a) && !(d.infinite)(*a),
            Cond::Not(c) => !c.passes(d),
            Cond::And(c, e) => c.passes(d) && e.passes(d),
            Cond::Or(c, e) => c.passes(d) || e.passes(d),
        }
    }
}

impl Test {
    /// The device finds that the test succeeds.
    pub open spec fn passes(self, d: Machine) -> bool {
        self.node.passes(d)
    }
}

impl Scalar {
    /// The device finds a number here.
    pub open spec fn is_number(self, d: Machine) -> bool {
        !(d.nan)(*self.node)
    }

    /// The device finds a finite number here.
    pub open spec fn is_usable(self, d: Machine) -> bool {
        self.is_number(d) && !(d.infinite)(*self.node)
    }
}

impl Vec3A {
    /// The device finds finite numbers here.
    pub open spec fn is_usable(self, d: Machine) -> bool {
        self.x.is_usable(d) && self.y.is_usable(d) && self.z.is_usable(d)
    }
}

impl Sym2 {
    /// The device finds finite numbers here.
    pub open spec fn is_usable(self, d: Machine) -> bool {
        self.c00.is_usable(d) && self.c01.is_usable(d) && self.c11.is_usable(d)
    }
}

/// Where every number is finite, a test succeeds on the device as it does over
/// the reals.
pub proof fn lemma_passes_is_holds(t: &Cond, d: Machine)
    requires
        forall|e: Expr| !(#[trigger] (d.nan)(e)) && !(d.infinite)(e),
    ensures
        t.passes(d) == t.holds(d.model),
    decreases t,
{
    match t {
        Cond::Not(c) => {
            lemma_passes_is_holds(c, d);
        },
        Cond::And(c, e) => {
            lemma_passes_is_holds(c, d);
            lemma_passes_is_holds(e, d);
        },
        Cond::Or(c, e) => {
            lemma_passes_is_holds(c, d);
            lemma_passes_is_holds(e, d);
        },
        _ => {},
    }
}

/// A splat that is found visible has no number that is not one: its position,
/// extent, opacity, rotation and covariance are finite, and what its box is compared
/// by are numbers.
pub proof fn lemma_visible_is_usable(
    splat: ForwardSplat,
    u: ProjectUniforms,
    use_ut: bool,
    camera_model: CameraModel<Scalar>,
    helpers: ForwardHelpers,
    d: Machine,
)
    requires
        is_visible(&splat, &u, use_ut, &camera_model, &helpers).passes(d),
    ensures
        splat.mean_c.is_usable(d),
        splat.scale.is_usable(d),
        splat.raw_opac.is_usable(d),
        splat.quat_unorm.dot(&splat.quat_unorm).is_usable(d),
        helpers.cov.is_usable(d),
        splat_opacity(&splat.raw_opac, &helpers.filter_comp).is_number(d),
        helpers.extent.0.is_number(d),
        helpers.extent.1.is_number(d),
        ({
            let mean2d = projected_mean(&splat, &u, use_ut, &camera_model, &helpers);
            &&& (mean2d.0 + helpers.extent.0).is_number(d)
            &&& (mean2d.0 - helpers.extent.0).is_number(d)
            &&& (mean2d.1 + helpers.extent.1).is_number(d)
            &&& (mean2d.1 - helpers.extent.1).is_number(d)
        }),
{
    reveal_with_fuel(Cond::passes, 12);
}

proof fn root_of_stretched(r: real, s: real, x: real, y: real)
    requires
        r * r == x * x + y * y,
    ensures
        (s * r) * (s * r) == (s * x) * (s * x) + (s * y) * (s * y),
{
    assert((s * r) * (s * r) == (s * s) * (r * r)) by (nonlinear_arith);
    assert((s * x) * (s * x) == (s * s) * (x * x)) by (nonlinear_arith);
    assert((s * y) * (s * y) == (s * s) * (y * y)) by (nonlinear_arith);
    dist_add_left(s * s, x * x, y * y);
}

proof fn squares_add(x: real, y: real)
    ensures
        x * x + y * y >= 0real,
{
    assert(x * x >= 0real) by (nonlinear_arith);
    assert(y * y >= 0real) by (nonlinear_arith);
}

/// The angle off the optical axis is that of the right triangle whose legs are the
/// distance from the axis and the depth.
pub proof fn lemma_off_axis_angle(p: Vec3A, r: real, m: Model)
    requires
        m.sound(),
        r >= 0real,
        r * r == p.x.value(m) * p.x.value(m) + p.y.value(m) * p.y.value(m),
    ensures
        off_axis_angle(&p).value(m) == (m.atan2)(r, p.z.value(m)),
{
    broadcast use group_value;

    let sq = p.x.value(m) * p.x.value(m) + p.y.value(m) * p.y.value(m);
    squares_add(p.x.value(m), p.y.value(m));
    same_root((m.sqrt)(sq), r, sq);
}

/// Points on one ray from the camera are seen at one angle off the axis.
pub proof fn lemma_off_axis_angle_along_ray(p: Vec3A, q: Vec3A, s: real, m: Model)
    requires
        m.sound(),
        m.angular(),
        s > 0real,
        q.value(m) == p.value(m).times(s),
    ensures
        off_axis_angle(&q).value(m) == off_axis_angle(&p).value(m),
{
    let (x, y, z) = (p.x.value(m), p.y.value(m), p.z.value(m));
    let r = (m.sqrt)(x * x + y * y);
    squares_add(x, y);
    lemma_off_axis_angle(p, r, m);
    mul_comm(s, x);
    mul_comm(s, y);
    mul_comm(s, z);
    root_of_stretched(r, s, x, y);
    assert(s * r >= 0real) by (nonlinear_arith)
        requires
            s > 0real,
            r >= 0real,
    ;
    lemma_off_axis_angle(q, s * r, m);
    assert(same_angle(m, s, r, z));
}

/// A pinhole images what lies at least a hundredth in front of it; every other model
/// images what lies within its field of view.
pub proof fn lemma_frustum_guard(
    p: Vec3A,
    r: real,
    u: ProjectUniforms,
    camera_model: CameraModel<Scalar>,
    m: Model,
)
    requires
        m.sound(),
        r >= 0real,
        r * r == p.x.value(m) * p.x.value(m) + p.y.value(m) * p.y.value(m),
    ensures
        camera_model is Pinhole ==> (frustum_guard(&p, &u, &camera_model).holds(m) <==> 100real
            * p.z.value(m) >= 1real),
        !(camera_model is Pinhole) ==> (frustum_guard(&p, &u, &camera_model).holds(m) <==> (
        m.atan2)(r, p.z.value(m)) <= u.half_max_render_fov.value(m)),
{
    lemma_off_axis_angle(p, r, m);
    reveal_with_fuel(Cond::holds, 3);
    reveal_with_fuel(pow10, 4);
}

/// The logistic function is the reciprocal of one more than the exponential of the
/// opposite.
pub proof fn lemma_sigmoid(x: Scalar, m: Model)
    requires
        m.sound(),
    ensures
        sigmoid(&x).value(m) * (1real + (m.exp)(-x.value(m))) == 1real,
        0real < sigmoid(&x).value(m) < 1real,
{
    broadcast use group_value;

    let e = (m.exp)(-x.value(m));
    assert(e > 0real);
    assert(pow10(0) == 1real);
    assert(sigmoid(&x).value(m) == 1real / (1real + e));
    div_undone(1real, 1real + e);
    let s = sigmoid(&x).value(m);
    assert(0real < s < 1real) by (nonlinear_arith)
        requires
            s * (1real + e) == 1real,
            e > 0real,
    ;
}

/// Over the reals a splat is visible exactly when it can be imaged, its rotation is
/// not degenerate, its opacity reaches one step of eight bits, and its box meets the
/// image.
pub proof fn lemma_visible_exactly(
    splat: ForwardSplat,
    u: ProjectUniforms,
    use_ut: bool,
    camera_model: CameraModel<Scalar>,
    helpers: ForwardHelpers,
    r: real,
    m: Model,
)
    requires
        m.sound(),
        r >= 0real,
        r * r == splat.mean_c.x.value(m) * splat.mean_c.x.value(m) + splat.mean_c.y.value(m)
            * splat.mean_c.y.value(m),
    ensures
        is_visible(&splat, &u, use_ut, &camera_model, &helpers).holds(m) <==> {
            let z = splat.mean_c.z.value(m);
            let (w, x) = (splat.quat_unorm.w.value(m), splat.quat_unorm.x.value(m));
            let (y, k) = (splat.quat_unorm.y.value(m), splat.quat_unorm.z.value(m));
            let (ex, ey) = (helpers.extent.0.value(m), helpers.extent.1.value(m));
            let seen = if use_ut {
                helpers.ut_mean2d
            } else {
                project(
                    &splat.mean_c,
                    &u.pinhole_params,
                    &u.half_max_render_fov,
                    &camera_model,
                    &helpers.perspective,
                )
            };
            let (mx, my) = (seen.0.value(m), seen.1.value(m));
            &&& z <= 10_000_000_000real
            &&& if camera_model is Pinhole {
                100real * z >= 1real
            } else {
                (m.atan2)(r, z) <= u.half_max_render_fov.value(m)
            }
            &&& 1_000_000real * (w * w + x * x + y * y + k * k) >= 1real
            &&& 255real * helpers.filter_comp.value(m) >= 1real + (m.exp)(
                -splat.raw_opac.value(m),
            )
            &&& ex >= 0real
            &&& ey >= 0real
            &&& mx + ex > 0real
            &&& mx - ex < u.img_w.value(m)
            &&& my + ey > 0real
            &&& my - ey < u.img_h.value(m)
        },
{
    broadcast use group_value;

    lemma_frustum_guard(splat.mean_c, r, u, camera_model, m);
    lemma_sigmoid(splat.raw_opac, m);
    reveal_with_fuel(Cond::holds, 12);
    reveal_with_fuel(pow10, 12);
    assert(pow10(10) == 10_000_000_000real);
    assert(1_000_000real * pow10(-6) == 1real);
    let s = sigmoid(&splat.raw_opac).value(m);
    let f = helpers.filter_comp.value(m);
    let e = 1real + (m.exp)(-splat.raw_opac.value(m));
    assert(s * f >= 1real / 255real <==> 255real * f >= e) by {
        assert((s * f) * e == f) by (nonlinear_arith)
            requires
                s * e == 1real,
        ;
        if s * f >= 1real / 255real {
            assert((s * f) * e >= (1real / 255real) * e) by (nonlinear_arith)
                requires
                    s * f >= 1real / 255real,
                    e > 0real,
            ;
        } else {
            assert((s * f) * e < (1real / 255real) * e) by (nonlinear_arith)
                requires
                    s * f < 1real / 255real,
                    e > 0real,
            ;
        }
    }
}

/// The recorded radius is the larger extent, each as a fraction of its side of the
/// image.
pub proof fn lemma_screen_radius(extent: (Scalar, Scalar), u: ProjectUniforms, m: Model)
    requires
        u.img_w.value(m) > 0real,
        u.img_h.value(m) > 0real,
    ensures
        ({
            let k = screen_radius(&extent, &u).value(m);
            let (w, h) = (u.img_w.value(m), u.img_h.value(m));
            &&& k * w >= extent.0.value(m)
            &&& k * h >= extent.1.value(m)
            &&& k * w == extent.0.value(m) || k * h == extent.1.value(m)
        }),
{
    broadcast use group_value;

    let k = screen_radius(&extent, &u).value(m);
    let (w, h) = (u.img_w.value(m), u.img_h.value(m));
    let (a, b) = (extent.0.value(m) / w, extent.1.value(m) / h);
    div_undone(extent.0.value(m), w);
    div_undone(extent.1.value(m), h);
    assert(k * w >= a * w) by (nonlinear_arith)
        requires
            k >= a,
            w > 0real,
    ;
    assert(k * h >= b * h) by (nonlinear_arith)
        requires
            k >= b,
            h > 0real,
    ;
}

/// At the threshold the splat's opacity has fallen to one step of eight bits, where
/// the logarithm undoes the exponential.
pub proof fn lemma_power_threshold(opac: Scalar, m: Model)
    requires
        m.logarithmic(),
        opac.value(m) > 0real,
    ensures
        (m.exp)(power_threshold(&opac).value(m)) == 255real * opac.value(m),
{
    broadcast use group_value;

    let y = opac.value(m) * 255real;
    mul_comm(opac.value(m), 255real);
    assert(pow10(0) == 1real);
    assert(power_threshold(&opac).value(m) == (m.ln)(y));
    assert((m.exp)(0real + (m.ln)(y)) == (m.exp)(0real) * y);
}

/// Where the device finds a number everywhere, it finds a splat visible exactly when
/// the splat is visible over the reals and none of the numbers it is made of is
/// infinite.
pub proof fn lemma_visible_on_device(
    splat: ForwardSplat,
    u: ProjectUniforms,
    use_ut: bool,
    camera_model: CameraModel<Scalar>,
    helpers: ForwardHelpers,
    d: Machine,
)
    requires
        forall|e: Expr| !(#[trigger] (d.nan)(e)),
    ensures
        is_visible(&splat, &u, use_ut, &camera_model, &helpers).passes(d) <==> {
            &&& is_visible(&splat, &u, use_ut, &camera_model, &helpers).holds(d.model)
            &&& splat.mean_c.is_usable(d)
            &&& splat.scale.is_usable(d)
            &&& splat.raw_opac.is_usable(d)
            &&& splat.quat_unorm.dot(&splat.quat_unorm).is_usable(d)
            &&& helpers.cov.is_usable(d)
        },
{
    reveal_with_fuel(Cond::passes, 12);
    reveal_with_fuel(Cond::holds, 12);
}

} // verus!
