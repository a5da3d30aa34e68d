//! The backward pass of a render: the shapes of its buffers, how its kernels are
//! launched, and where the gradients go.
use crate::camera_model::{CameraModel, ProjectUniforms};
use crate::expr::{whole, Scalar, Test};
use crate::kernels::project_backwards::{
    any_grad, clean_refine_weight, masked_row, mean_at, project_backwards_kernel,
    project_splat_vjp, rasterize_grads_at, raw_opacity_vjp, BackwardInputs, PerspectiveResults,
    SplatGrads, SplatHelpers, SplatRasterGrads, SplatTransform,
};
use crate::train::table::zero_row;
use vstd::prelude::*;

verus! {

/// How splats are rendered.
#[derive(Clone, Copy, Debug, PartialEq, Eq, Structural)]
pub enum SplatRenderMode {
    Default,
    /// With an anti-aliasing filter.
    Mip,
    /// Through the unscented transform.
    Ut,
}

/// What a render is for.
#[derive(Clone, Copy, Debug, PartialEq, Eq, Structural)]
pub enum RasterPass {
    /// Only the image is wanted.
    Forward,
    /// Gradients will be wanted.
    Backward,
    /// Gradients will be wanted, of a cutoff without a step.
    BackwardSmoothCutoff,
}

impl RasterPass {
    /// The render keeps what the backward pass needs.
    pub fn bwd_info(&self) -> (r: bool)
        ensures
            r == (*self != RasterPass::Forward),
    {
        match self {
            RasterPass::Forward => false,
            RasterPass::Backward | RasterPass::BackwardSmoothCutoff => true,
        }
    }

    /// The cutoff has no step.
    pub fn smooth_cutoff(&self) -> (r: bool)
        ensures
            r == (*self == RasterPass::BackwardSmoothCutoff),
    {
        match self {
            RasterPass::BackwardSmoothCutoff => true,
            RasterPass::Forward | RasterPass::Backward => false,
        }
    }
}

/// How the rasterizer adds numbers from many threads.
#[derive(Clone, Copy, Debug, PartialEq, Eq, Structural)]
pub enum AtomicAdd {
    /// By the device's own atomic addition.
    Hardware,
    /// By comparing and swapping.
    CompareAndSwap,
}

/// How the rasterizer's backward pass is launched: how many tiles there are each
/// way, how numbers are added, and how many rows the gradients have.
#[derive(Clone, Copy, Debug, PartialEq, Eq, Structural)]
pub struct RasterizeLaunch {
    pub tiles_x: u32,
    pub tiles_y: u32,
    pub atomic_add: AtomicAdd,
    pub rows: usize,
    pub smooth_cutoff: bool,
}

/// `a / b`, rounded up.
pub open spec fn ceiling(a: int, b: int) -> int {
    (a + b - 1) / b
}

fn div_up(a: u32, b: u32) -> (r: u32)
    requires
        b > 0,
    ensures
        r == ceiling(a as int, b as int),
{
    let q: u64 = (a as u64 + b as u64 - 1) / b as u64;
    assert(q <= a) by (nonlinear_arith)
        requires
            q == (a + b - 1) / b as int,
            b > 0,
    ;
    q as u32
}

/// How the rasterizer's backward pass is launched. There is a row of gradients
/// even where nothing is visible.
pub fn rasterize_launch(
    img_w: u32,
    img_h: u32,
    tile_width: u32,
    num_projected: usize,
    hardware_float_atomics: bool,
    pass: RasterPass,
) -> (r: RasterizeLaunch)
    requires
        tile_width > 0,
    ensures
        r.tiles_x == ceiling(img_w as int, tile_width as int),
        r.tiles_y == ceiling(img_h as int, tile_width as int),
        r.atomic_add == (if hardware_float_atomics {
            AtomicAdd::Hardware
        } else {
            AtomicAdd::CompareAndSwap
        }),
        r.rows == (if num_projected == 0 {
            1
        } else {
            num_projected
        }),
        r.smooth_cutoff == (pass == RasterPass::BackwardSmoothCutoff),
{
    RasterizeLaunch {
        tiles_x: div_up(img_w, tile_width),
        tiles_y: div_up(img_h, tile_width),
        atomic_add: if hardware_float_atomics {
            AtomicAdd::Hardware
        } else {
            AtomicAdd::CompareAndSwap
        },
        rows: if num_projected == 0 {
            1
        } else {
            num_projected
        },
        smooth_cutoff: pass.smooth_cutoff(),
    }
}

/// The tiles cover the image, and none lies outside it.
pub proof fn lemma_tiles_cover(size: int, tile_width: int)
    requires
        size >= 0,
        tile_width > 0,
    ensures
        ceiling(size, tile_width) * tile_width >= size,
        (ceiling(size, tile_width) - 1) * tile_width < size,
{
    let q = ceiling(size, tile_width);
    vstd::arithmetic::div_mod::lemma_fundamental_div_mod(size + tile_width - 1, tile_width);
    let m = (size + tile_width - 1) % tile_width;
    assert(q * tile_width >= size && (q - 1) * tile_width < size) by (nonlinear_arith)
        requires
            size + tile_width - 1 == tile_width * q + m,
            0 <= m < tile_width,
    ;
}

/// How many coefficients each colour channel has at a degree.
pub open spec fn sh_coeff_count(degree: int) -> int {
    (degree + 1) * (degree + 1)
}

/// One coefficient at degree zero, and one more degree brings two more than the last did.
pub proof fn lemma_sh_coeff_count(degree: int)
    requires
        degree >= 0,
    ensures
        sh_coeff_count(0) == 1,
        sh_coeff_count(degree + 1) == sh_coeff_count(degree) + 2 * degree + 3,
{
    assert((degree + 2) * (degree + 2) == (degree + 1) * (degree + 1) + 2 * degree + 3)
        by (nonlinear_arith);
}

/// How many coefficients each colour channel has at a degree.
pub fn sh_coeffs_for_degree(degree: u32) -> (r: u32)
    requires
        degree < 0xffff,
    ensures
        r == sh_coeff_count(degree as int),
{
    assert((degree + 1) * (degree + 1) <= u32::MAX) by (nonlinear_arith)
        requires
            degree < 0xffff,
    ;
    (degree + 1) * (degree + 1)
}

/// The shapes of the four gradients: ten numbers, the coefficients of three
/// channels, an opacity and a weight for each splat.
#[derive(Clone, Copy, Debug)]
pub struct GradientShapes {
    pub transforms: (usize, usize),
    pub coeffs: (usize, usize, usize),
    pub raw_opac: usize,
    pub refine_weight: usize,
}

/// The shapes of the gradients of so many splats.
pub fn gradient_shapes(num_points: usize, sh_degree: u32) -> (r: GradientShapes)
    requires
        sh_degree < 0xffff,
    ensures
        r.transforms == (num_points, 10usize),
        r.coeffs.0 == num_points,
        r.coeffs.1 == sh_coeff_count(sh_degree as int),
        r.coeffs.2 == 3,
        r.raw_opac == num_points,
        r.refine_weight == num_points,
{
    GradientShapes {
        transforms: (num_points, 10),
        coeffs: (num_points, sh_coeffs_for_degree(sh_degree) as usize, 3),
        raw_opac: num_points,
        refine_weight: num_points,
    }
}

/// Whether the projection filters, and whether it goes through sigma points.
pub fn projection_flags(render_mode: SplatRenderMode) -> (r: (bool, bool))
    ensures
        r.0 == (render_mode == SplatRenderMode::Mip),
        r.1 == (render_mode == SplatRenderMode::Ut),
{
    match render_mode {
        SplatRenderMode::Default => (false, false),
        SplatRenderMode::Mip => (true, false),
        SplatRenderMode::Ut => (false, true),
    }
}

/// A buffer of zeros.
fn zero_buffer(n: usize) -> (r: Vec<Scalar>)
    ensures
        r@ == zero_row(n as nat),
{
    let mut r: Vec<Scalar> = Vec::new();
    let mut i: usize = 0;
    while i < n
        invariant
            i <= n,
            r@ == zero_row(i as nat),
        decreases n - i,
    {
        r.push(Scalar::num(0));
        i = i + 1;
        assert(r@ =~= zero_row(i as nat));
    }
    r
}

/// What the shared readers and helpers give for one visible splat.
pub struct VisibleSplat {
    pub splat: SplatTransform,
    pub helpers: SplatHelpers,
    pub perspective: PerspectiveResults,
}

/// The splat behind a visible one.
pub open spec fn gid_of(inputs: &BackwardInputs, c: int) -> int {
    inputs.global_from_compact_gid@[c] as int
}

/// What the rasterizer left for a visible splat.
pub open spec fn grads_of(inputs: &BackwardInputs, c: int) -> SplatRasterGrads {
    rasterize_grads_at(inputs.v_rasterize_grads@, 10 * c)
}

/// The row of gradients of a visible splat.
pub open spec fn row_of_visible(
    inputs: &BackwardInputs,
    u: &ProjectUniforms,
    use_ut: bool,
    camera_model: &CameraModel<Scalar>,
    visible: VisibleSplat,
    c: int,
) -> Seq<Scalar> {
    project_splat_vjp(
        &SplatTransform {
            mean: mean_at(inputs.transforms@, 10 * gid_of(inputs, c)),
            ..visible.splat
        },
        &grads_of(inputs, c),
        u,
        use_ut,
        camera_model,
        &visible.helpers,
        &visible.perspective,
    ).row()
}

/// What stands in the column `j` of the transforms of a visible splat.
pub open spec fn transform_cell(
    inputs: &BackwardInputs,
    u: &ProjectUniforms,
    use_ut: bool,
    camera_model: &CameraModel<Scalar>,
    visible: VisibleSplat,
    c: int,
    j: int,
) -> Scalar {
    any_grad(&grads_of(inputs, c)).select(
        &row_of_visible(inputs, u, use_ut, camera_model, visible, c)[j],
        &whole(0),
    )
}

/// What stands in the place `j` of the coefficients of a visible splat.
pub open spec fn coeff_cell(
    inputs: &BackwardInputs,
    visible: VisibleSplat,
    c: int,
    j: int,
) -> Scalar {
    any_grad(&grads_of(inputs, c)).select(&visible.helpers.v_coeffs@[j], &whole(0))
}

/// What stands for the opacity of a visible splat.
pub open spec fn opacity_cell(inputs: &BackwardInputs, visible: VisibleSplat, c: int) -> Scalar {
    any_grad(&grads_of(inputs, c)).select(
        &raw_opacity_vjp(
            &inputs.raw_opac@[gid_of(inputs, c)],
            &visible.helpers.filter_comp,
            &grads_of(inputs, c).alpha,
        ),
        &whole(0),
    )
}

/// What stands for the refinement weight of a visible splat.
pub open spec fn refine_cell(inputs: &BackwardInputs, c: int) -> Scalar {
    any_grad(&grads_of(inputs, c)).select(
        &clean_refine_weight(&grads_of(inputs, c).refine),
        &whole(0),
    )
}

/// The gradients of the visible splat `c` stand in the buffers, where the
/// rasterizer left any.
pub open spec fn written(
    out: SplatGrads,
    inputs: &BackwardInputs,
    u: &ProjectUniforms,
    use_ut: bool,
    camera_model: &CameraModel<Scalar>,
    visible: VisibleSplat,
    c: int,
) -> bool {
    &&& forall|j: int|
        0 <= j < 10 ==> #[trigger] out.v_transforms@[10 * gid_of(inputs, c) + j] == transform_cell(
            inputs,
            u,
            use_ut,
            camera_model,
            visible,
            c,
            j,
        )
    &&& forall|j: int|
        0 <= j < visible.helpers.v_coeffs@.len() ==> #[trigger] out.v_coeffs@[gid_of(inputs, c)
            * visible.helpers.v_coeffs@.len() + j] == coeff_cell(inputs, visible, c, j)
    &&& out.v_raw_opac@[gid_of(inputs, c)] == opacity_cell(inputs, visible, c)
    &&& out.v_refine_weight@[gid_of(inputs, c)] == refine_cell(inputs, c)
}

/// The splat `g` has no gradients in the buffers.
pub open spec fn untouched(out: SplatGrads, n: int, g: int) -> bool {
    &&& forall|j: int| 0 <= j < 10 ==> #[trigger] out.v_transforms@[10 * g + j] == whole(0)
    &&& forall|j: int| 0 <= j < n ==> #[trigger] out.v_coeffs@[g * n + j] == whole(0)
    &&& out.v_raw_opac@[g] == whole(0)
    &&& out.v_refine_weight@[g] == whole(0)
}

/// The row of a splat lies in the buffer.
proof fn lemma_row_fits(g: int, width: int, n: int)
    requires
        0 <= g < n,
        width >= 0,
    ensures
        0 <= g * width,
        g * width + width <= n * width,
{
    assert(g * width + width <= n * width && 0 <= g * width) by (nonlinear_arith)
        requires
            0 <= g < n,
            width >= 0,
    ;
}

/// One thread writes the row of its own splat and leaves the rows of the others.
proof fn lemma_one_thread(
    before: Seq<Scalar>,
    after: Seq<Scalar>,
    width: int,
    g: int,
    row: Seq<Scalar>,
    keep: Test,
    other: int,
)
    requires
        width >= 0,
        row.len() == width,
        g >= 0,
        other >= 0,
        g * width + width <= before.len(),
        other * width + width <= before.len(),
        after == masked_row(before, g * width, row, keep),
    ensures
        other != g ==> forall|j: int|
            0 <= j < width ==> #[trigger] after[other * width + j] == before[other * width + j],
        forall|j: int|
            0 <= j < width ==> #[trigger] after[g * width + j] == keep.select(
                &row[j],
                &before[g * width + j],
            ),
{
    if other != g {
        assert forall|j: int| 0 <= j < width implies #[trigger] after[other * width + j]
            == before[other * width + j] by {
            assert(other * width + j < g * width || other * width + j >= g * width + width)
                by (nonlinear_arith)
                requires
                    other != g,
                    0 <= j < width,
            ;
            assert(0 <= other * width) by (nonlinear_arith)
                requires
                    other >= 0,
                    width >= 0,
            ;
        }
    }
    assert(0 <= g * width) by (nonlinear_arith)
        requires
            g >= 0,
            width >= 0,
    ;
}

/// The gradients of the splats: each visible splat's thread runs on buffers of
/// zeros, and what is not visible, or did not contribute, keeps them.
pub fn project_bwd(
    inputs: &BackwardInputs,
    u: &ProjectUniforms,
    render_mode: SplatRenderMode,
    camera_model: &CameraModel<Scalar>,
    num_coeffs: usize,
    visible: &Vec<VisibleSplat>,
) -> (r: SplatGrads)
    requires
        visible@.len() == u.num_visible,
        inputs.transforms@.len() == 10 * inputs.raw_opac@.len(),
        inputs.raw_opac@.len() * num_coeffs <= u32::MAX,
        forall|c: u32| c < u.num_visible ==> #[trigger] inputs.covers(c),
        forall|c: int|
            0 <= c < visible@.len() ==> (#[trigger] visible@[c]).helpers.v_coeffs@.len()
                == num_coeffs,
        forall|c: int, d: int|
            0 <= c < d < u.num_visible ==> #[trigger] gid_of(inputs, c) != #[trigger] gid_of(
                inputs,
                d,
            ),
    ensures
        r.fits(inputs, num_coeffs as int),
        forall|c: int|
            0 <= c < u.num_visible ==> written(
                r,
                inputs,
                u,
                render_mode == SplatRenderMode::Ut,
                camera_model,
                #[trigger] visible@[c],
                c,
            ),
        forall|g: int|
            0 <= g < inputs.raw_opac@.len() && (forall|c: int|
                0 <= c < u.num_visible ==> #[trigger] gid_of(inputs, c) != g)
                ==> #[trigger] untouched(r, num_coeffs as int, g),
{
    let use_ut: bool = projection_flags(render_mode).1;
    let n: usize = inputs.raw_opac.len();
    let mut out = SplatGrads {
        v_transforms: zero_buffer(inputs.transforms.len()),
        v_coeffs: zero_buffer(n * num_coeffs),
        v_raw_opac: zero_buffer(n),
        v_refine_weight: zero_buffer(n),
    };
    assert forall|g: int| 0 <= g < n implies #[trigger] untouched(out, num_coeffs as int, g) by {
        assert forall|j: int| 0 <= j < num_coeffs implies #[trigger] out.v_coeffs@[g * num_coeffs
            + j] == whole(0) by {
            assert(0 <= g * num_coeffs + j < n * num_coeffs) by (nonlinear_arith)
                requires
                    0 <= g < n,
                    0 <= j < num_coeffs,
            ;
        }
    }
    let mut i: u32 = 0;
    while i < u.num_visible
        invariant
            i <= u.num_visible,
            n == inputs.raw_opac@.len(),
            use_ut == (render_mode == SplatRenderMode::Ut),
            visible@.len() == u.num_visible,
            inputs.transforms@.len() == 10 * inputs.raw_opac@.len(),
            inputs.raw_opac@.len() * num_coeffs <= u32::MAX,
            forall|c: u32| c < u.num_visible ==> #[trigger] inputs.covers(c),
            forall|c: int|
                0 <= c < visible@.len() ==> (#[trigger] visible@[c]).helpers.v_coeffs@.len()
                    == num_coeffs,
            forall|c: int, d: int|
                0 <= c < d < u.num_visible ==> #[trigger] gid_of(inputs, c) != #[trigger] gid_of(
                    inputs,
                    d,
                ),
            out.fits(inputs, num_coeffs as int),
            forall|c: int|
                0 <= c < i ==> written(
                    out,
                    inputs,
                    u,
                    use_ut,
                    camera_model,
                    #[trigger] visible@[c],
                    c,
                ),
            forall|g: int|
                0 <= g < n && (forall|c: int| 0 <= c < i ==> #[trigger] gid_of(inputs, c) != g)
                    ==> #[trigger] untouched(out, num_coeffs as int, g),
        decreases u.num_visible - i,
    {
        let ghost before = out;
        assert(inputs.covers(i));
        let ghost g = gid_of(inputs, i as int);
        let item = &visible[i as usize];
        assert(*item == visible@[i as int]);
        assert(untouched(before, num_coeffs as int, g)) by {
            assert forall|c: int| 0 <= c < i implies #[trigger] gid_of(inputs, c) != g by {
                assert(gid_of(inputs, c) != gid_of(inputs, i as int));
            }
        }
        project_backwards_kernel(
            i,
            inputs,
            &mut out,
            u,
            use_ut,
            camera_model,
            &item.splat,
            &item.helpers,
            &item.perspective,
        );
        proof {
            let keep = any_grad(&grads_of(inputs, i as int));
            let row = row_of_visible(inputs, u, use_ut, camera_model, *item, i as int);
            let w = num_coeffs as int;
            lemma_row_fits(g, w, n as int);
            assert(out.v_transforms@ == masked_row(before.v_transforms@, g * 10, row, keep));
            lemma_one_thread(before.v_transforms@, out.v_transforms@, 10, g, row, keep, g);
            lemma_one_thread(
                before.v_coeffs@,
                out.v_coeffs@,
                w,
                g,
                item.helpers.v_coeffs@,
                keep,
                g,
            );
            assert(written(out, inputs, u, use_ut, camera_model, visible@[i as int], i as int)) by {
                assert forall|j: int| 0 <= j < 10 implies #[trigger] out.v_transforms@[10 * g + j]
                    == keep.select(&row[j], &whole(0)) by {
                    assert(out.v_transforms@[g * 10 + j] == keep.select(
                        &row[j],
                        &before.v_transforms@[g * 10 + j],
                    ));
                    assert(before.v_transforms@[10 * g + j] == whole(0));
                }
            }
            assert forall|c: int| 0 <= c < i + 1 implies written(
                out,
                inputs,
                u,
                use_ut,
                camera_model,
                #[trigger] visible@[c],
                c,
            ) by {
                if c < i {
                    let h = gid_of(inputs, c);
                    assert(h != g);
                    assert(inputs.covers(c as u32));
                    assert(written(before, inputs, u, use_ut, camera_model, visible@[c], c));
                    lemma_row_fits(h, w, n as int);
                    lemma_one_thread(before.v_transforms@, out.v_transforms@, 10, g, row, keep, h);
                    lemma_one_thread(
                        before.v_coeffs@,
                        out.v_coeffs@,
                        w,
                        g,
                        item.helpers.v_coeffs@,
                        keep,
                        h,
                    );
                    assert forall|j: int| 0 <= j < 10 implies #[trigger] out.v_transforms@[10 * h
                        + j] == before.v_transforms@[10 * h + j] by {
                        assert(out.v_transforms@[h * 10 + j] == before.v_transforms@[h * 10 + j]);
                    }
                }
            }
            assert forall|h: int|
                0 <= h < n && (forall|c: int|
                    0 <= c < i + 1 ==> #[trigger] gid_of(inputs, c) != h) implies
                #[trigger] untouched(out, w, h) by {
                assert(gid_of(inputs, i as int) != h);
                assert(untouched(before, w, h));
                lemma_row_fits(h, w, n as int);
                lemma_one_thread(before.v_transforms@, out.v_transforms@, 10, g, row, keep, h);
                lemma_one_thread(
                    before.v_coeffs@,
                    out.v_coeffs@,
                    w,
                    g,
                    item.helpers.v_coeffs@,
                    keep,
                    h,
                );
                assert forall|j: int| 0 <= j < 10 implies #[trigger] out.v_transforms@[10 * h + j]
                    == whole(0) by {
                    assert(out.v_transforms@[h * 10 + j] == before.v_transforms@[h * 10 + j]);
                    assert(before.v_transforms@[10 * h + j] == whole(0));
                }
            }
        }
        i = i + 1;
    }
    out
}

/// The nodes of the graph that a render's gradients go to, where they want any.
#[derive(Clone, Copy, Debug, PartialEq, Eq, Structural)]
pub struct BackwardParents {
    pub transforms: Option<u64>,
    pub refine_weight: Option<u64>,
    pub coeffs: Option<u64>,
    pub raw_opacity: Option<u64>,
}

/// A gradient for a node.
pub struct Registration {
    pub node: u64,
    pub grad: Vec<Scalar>,
}

/// A gradient for a node, where there is one.
pub open spec fn registration(node: Option<u64>, grad: Vec<Scalar>) -> Seq<Registration> {
    match node {
        Some(node) => seq![Registration { node, grad }],
        None => Seq::empty(),
    }
}

fn register(list: &mut Vec<Registration>, node: Option<u64>, grad: Vec<Scalar>)
    ensures
        final(list)@ == old(list)@ + registration(node, grad),
{
    if let Some(node) = node {
        list.push(Registration { node, grad });
    }
    assert(list@ =~= old(list)@ + registration(node, grad));
}

/// Hands each gradient to the node it belongs to.
pub fn register_gradients(parents: BackwardParents, grads: SplatGrads) -> (r: Vec<Registration>)
    ensures
        r@ == registration(parents.transforms, grads.v_transforms) + registration(
            parents.refine_weight,
            grads.v_refine_weight,
        ) + registration(parents.coeffs, grads.v_coeffs) + registration(
            parents.raw_opacity,
            grads.v_raw_opac,
        ),
{
    let mut r: Vec<Registration> = Vec::new();
    register(&mut r, parents.transforms, grads.v_transforms);
    register(&mut r, parents.refine_weight, grads.v_refine_weight);
    register(&mut r, parents.coeffs, grads.v_coeffs);
    register(&mut r, parents.raw_opacity, grads.v_raw_opac);
    assert(r@ =~= registration(parents.transforms, grads.v_transforms) + registration(
        parents.refine_weight,
        grads.v_refine_weight,
    ) + registration(parents.coeffs, grads.v_coeffs) + registration(
        parents.raw_opacity,
        grads.v_raw_opac,
    ));
    r
}

/// The gradient is handed to the node: to it alone, or to none where it wants none.
pub open spec fn is_handed(list: Seq<Registration>, at: int, node: Option<u64>, grad: Vec<
    Scalar,
>) -> bool {
    node matches Some(n) ==> 0 <= at < list.len() && list[at].node == n && list[at].grad == grad
}

/// One for a node that wants a gradient.
pub open spec fn wants(node: Option<u64>) -> int {
    if node is Some {
        1
    } else {
        0
    }
}

/// Each node that wants a gradient is handed its own, in the order of transforms, refinement
/// weight, coefficients and opacity, and there are no others.
pub proof fn lemma_gradients_go_to_their_nodes(parents: BackwardParents, grads: SplatGrads)
    ensures
        ({
            let r = registration(parents.transforms, grads.v_transforms) + registration(
                parents.refine_weight,
                grads.v_refine_weight,
            ) + registration(parents.coeffs, grads.v_coeffs) + registration(
                parents.raw_opacity,
                grads.v_raw_opac,
            );
            let first = wants(parents.transforms);
            let second = first + wants(parents.refine_weight);
            let third = second + wants(parents.coeffs);
            &&& r.len() == third + wants(parents.raw_opacity)
            &&& is_handed(r, 0, parents.transforms, grads.v_transforms)
            &&& is_handed(r, first, parents.refine_weight, grads.v_refine_weight)
            &&& is_handed(r, second, parents.coeffs, grads.v_coeffs)
            &&& is_handed(r, third, parents.raw_opacity, grads.v_raw_opac)
        }),
{
}

} // verus!
