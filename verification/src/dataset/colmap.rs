//! COLMAP reconstructions: which one is loaded, how its cameras are understood,
//! and which of its images become views.
use crate::camera_model::{
    CameraModel, KannalaBrandt4Params, RadialTangential8Params, ThinPrismFisheyeParams,
};
use crate::config::LoadDatasetConfig;
use crate::cube::{Pad, Vec3A};
use crate::dataset::split::{
    eval_split, lemma_taken_frames, split_eval_every, take_frames, taken_count, taken_frames,
};
use crate::dataset::{gets_vignette_mask, synthetic_vignette_mask, FormatError};
use crate::expr::semantics::{group_value, Model};
use crate::expr::{whole, Scalar};
use crate::path::{
    lemma_extension, lemma_parent_and_join, lemma_paths_total, path_before, path_extension,
    path_join, path_parent, PartView, VfsPath,
};
use crate::text::{
    is_name_order, join3, lemma_name_order_unique, push_signed, signed_text, sort_by_name, texts,
};
use std::collections::HashMap;
use vstd::prelude::*;
use vstd::std_specs::hash::*;
use vstd::string::*;

verus! {

/// The camera models of COLMAP.
#[derive(Clone, Copy, Debug, PartialEq, Eq, Structural)]
pub enum ColmapCameraModel {
    SimplePinhole,
    Pinhole,
    SimpleRadial,
    Radial,
    OpenCV,
    OpenCvFishEye,
    FullOpenCV,
    Fov,
    SimpleRadialFisheye,
    RadialFisheye,
    ThinPrismFisheye,
}

/// A camera of a reconstruction. Its parameters begin with the focal lengths and
/// the principal point.
pub struct ColmapCamera<T> {
    pub id: i32,
    pub model: ColmapCameraModel,
    pub params: Vec<T>,
}

/// An image of a reconstruction.
pub struct ColmapImage {
    pub name: String,
    pub camera_id: i32,
}

/// How many parameters a model is read with at least.
pub open spec fn params_needed(model: ColmapCameraModel) -> nat {
    match model {
        ColmapCameraModel::SimplePinhole => 0,
        ColmapCameraModel::Pinhole => 0,
        ColmapCameraModel::Fov => 0,
        ColmapCameraModel::SimpleRadial => 4,
        ColmapCameraModel::SimpleRadialFisheye => 4,
        ColmapCameraModel::Radial => 5,
        ColmapCameraModel::RadialFisheye => 5,
        ColmapCameraModel::OpenCV => 8,
        ColmapCameraModel::OpenCvFishEye => 8,
        ColmapCameraModel::FullOpenCV => 12,
        ColmapCameraModel::ThinPrismFisheye => 12,
    }
}

impl<T> ColmapCamera<T> {
    /// The camera has the parameters that its model is read with.
    pub open spec fn complete(&self) -> bool {
        self.params@.len() >= params_needed(self.model)
    }

    /// Whether the camera has the parameters that its model is read with.
    pub fn has_all_params(&self) -> (r: bool)
        ensures
            r == self.complete(),
    {
        let needed: usize = match self.model {
            ColmapCameraModel::SimplePinhole | ColmapCameraModel::Pinhole | ColmapCameraModel::Fov =>
                0,
            ColmapCameraModel::SimpleRadial | ColmapCameraModel::SimpleRadialFisheye => 4,
            ColmapCameraModel::Radial | ColmapCameraModel::RadialFisheye => 5,
            ColmapCameraModel::OpenCV | ColmapCameraModel::OpenCvFishEye => 8,
            ColmapCameraModel::FullOpenCV | ColmapCameraModel::ThinPrismFisheye => 12,
        };
        self.params.len() >= needed
    }
}

/// The camera model with its coefficients. Those that a model does not have are
/// zero; a model that none of ours can express is taken as a pinhole.
pub open spec fn camera_model_of<T>(model: ColmapCameraModel, p: Seq<T>, zero: T) -> CameraModel<
    T,
> {
    match model {
        ColmapCameraModel::SimplePinhole => CameraModel::Pinhole,
        ColmapCameraModel::Pinhole => CameraModel::Pinhole,
        ColmapCameraModel::Fov => CameraModel::Pinhole,
        ColmapCameraModel::SimpleRadial => CameraModel::RadialTangential8(
            RadialTangential8Params {
                k1: p[3],
                k2: zero,
                k3: zero,
                k4: zero,
                k5: zero,
                k6: zero,
                p1: zero,
                p2: zero,
            },
        ),
        ColmapCameraModel::Radial => CameraModel::RadialTangential8(
            RadialTangential8Params {
                k1: p[3],
                k2: p[4],
                k3: zero,
                k4: zero,
                k5: zero,
                k6: zero,
                p1: zero,
                p2: zero,
            },
        ),
        ColmapCameraModel::OpenCV => CameraModel::RadialTangential8(
            RadialTangential8Params {
                k1: p[4],
                k2: p[5],
                k3: zero,
                k4: zero,
                k5: zero,
                k6: zero,
                p1: p[6],
                p2: p[7],
            },
        ),
        ColmapCameraModel::FullOpenCV => CameraModel::RadialTangential8(
            RadialTangential8Params {
                k1: p[4],
                k2: p[5],
                k3: p[8],
                k4: p[9],
                k5: p[10],
                k6: p[11],
                p1: p[6],
                p2: p[7],
            },
        ),
        ColmapCameraModel::SimpleRadialFisheye => CameraModel::KannalaBrandt4(
            KannalaBrandt4Params { k1: p[3], k2: zero, k3: zero, k4: zero },
        ),
        ColmapCameraModel::RadialFisheye => CameraModel::KannalaBrandt4(
            KannalaBrandt4Params { k1: p[3], k2: p[4], k3: zero, k4: zero },
        ),
        ColmapCameraModel::OpenCvFishEye => CameraModel::KannalaBrandt4(
            KannalaBrandt4Params { k1: p[4], k2: p[5], k3: p[6], k4: p[7] },
        ),
        ColmapCameraModel::ThinPrismFisheye => CameraModel::ThinPrismFisheye(
            ThinPrismFisheyeParams {
                kb4: KannalaBrandt4Params { k1: p[4], k2: p[5], k3: p[8], k4: p[9] },
                p1: p[6],
                p2: p[7],
                sx1: p[10],
                sy1: p[11],
            },
        ),
    }
}

/// The first coefficient of a model, behind its focal lengths and its principal point, and
/// how many coefficients there are.
pub open spec fn coefficients(model: ColmapCameraModel) -> (int, int) {
    match model {
        ColmapCameraModel::SimpleRadial | ColmapCameraModel::SimpleRadialFisheye => (3, 1),
        ColmapCameraModel::Radial | ColmapCameraModel::RadialFisheye => (3, 2),
        ColmapCameraModel::OpenCV | ColmapCameraModel::OpenCvFishEye => (4, 4),
        ColmapCameraModel::FullOpenCV | ColmapCameraModel::ThinPrismFisheye => (4, 8),
        _ => (0, 0),
    }
}

/// The coefficient in a place, or zero where the model has not so many.
pub open spec fn coefficient<T>(model: ColmapCameraModel, p: Seq<T>, place: int, zero: T) -> T {
    if place < coefficients(model).1 {
        p[coefficients(model).0 + place]
    } else {
        zero
    }
}

/// Each coefficient goes where its place in the list puts it: two radial ones, two
/// tangential ones and four more radial ones for perspective lenses; four radial ones for
/// fisheyes; and two radial, two tangential, two radial and two of the prism for fisheyes
/// with a prism. A model needs the parameters up to its last coefficient.
pub proof fn lemma_coefficients_by_place<T>(model: ColmapCameraModel, p: Seq<T>, zero: T)
    ensures
        ({
            let r = camera_model_of(model, p, zero);
            let c = |place: int| coefficient(model, p, place, zero);
            &&& params_needed(model) == coefficients(model).0 + coefficients(model).1
            &&& r is Pinhole <==> coefficients(model).1 == 0
            &&& r is ThinPrismFisheye <==> model is ThinPrismFisheye
            &&& r is KannalaBrandt4 <==> model is SimpleRadialFisheye || model is RadialFisheye
                || model is OpenCvFishEye
            &&& r matches CameraModel::RadialTangential8(q) ==> {
                &&& q.k1 == c(0) && q.k2 == c(1) && q.p1 == c(2) && q.p2 == c(3)
                &&& q.k3 == c(4) && q.k4 == c(5) && q.k5 == c(6) && q.k6 == c(7)
            }
            &&& r matches CameraModel::KannalaBrandt4(q) ==> {
                q.k1 == c(0) && q.k2 == c(1) && q.k3 == c(2) && q.k4 == c(3)
            }
            &&& r matches CameraModel::ThinPrismFisheye(q) ==> {
                &&& q.kb4.k1 == c(0) && q.kb4.k2 == c(1) && q.p1 == c(2) && q.p2 == c(3)
                &&& q.kb4.k3 == c(4) && q.kb4.k4 == c(5) && q.sx1 == c(6) && q.sy1 == c(7)
            }
        }),
{
}

/// The camera model with its coefficients.
pub fn build_camera_model<T: Copy>(colmap_camera: &ColmapCamera<T>, zero: T) -> (r: CameraModel<T>)
    requires
        colmap_camera.complete(),
    ensures
        r == camera_model_of(colmap_camera.model, colmap_camera.params@, zero),
{
    let p = &colmap_camera.params;
    let no_distortion = RadialTangential8Params {
        k1: zero,
        k2: zero,
        k3: zero,
        k4: zero,
        k5: zero,
        k6: zero,
        p1: zero,
        p2: zero,
    };
    let no_fisheye = KannalaBrandt4Params { k1: zero, k2: zero, k3: zero, k4: zero };
    match colmap_camera.model {
        ColmapCameraModel::SimplePinhole | ColmapCameraModel::Pinhole | ColmapCameraModel::Fov =>
            CameraModel::Pinhole,
        ColmapCameraModel::SimpleRadial => CameraModel::RadialTangential8(
            RadialTangential8Params { k1: p[3], ..no_distortion },
        ),
        ColmapCameraModel::Radial => CameraModel::RadialTangential8(
            RadialTangential8Params { k1: p[3], k2: p[4], ..no_distortion },
        ),
        ColmapCameraModel::OpenCV => CameraModel::RadialTangential8(
            RadialTangential8Params { k1: p[4], k2: p[5], p1: p[6], p2: p[7], ..no_distortion },
        ),
        ColmapCameraModel::FullOpenCV => CameraModel::RadialTangential8(
            RadialTangential8Params {
                k1: p[4],
                k2: p[5],
                k3: p[8],
                k4: p[9],
                k5: p[10],
                k6: p[11],
                p1: p[6],
                p2: p[7],
            },
        ),
        ColmapCameraModel::SimpleRadialFisheye => CameraModel::KannalaBrandt4(
            KannalaBrandt4Params { k1: p[3], ..no_fisheye },
        ),
        ColmapCameraModel::RadialFisheye => CameraModel::KannalaBrandt4(
            KannalaBrandt4Params { k1: p[3], k2: p[4], ..no_fisheye },
        ),
        ColmapCameraModel::OpenCvFishEye => CameraModel::KannalaBrandt4(
            KannalaBrandt4Params { k1: p[4], k2: p[5], k3: p[6], k4: p[7] },
        ),
        ColmapCameraModel::ThinPrismFisheye => CameraModel::ThinPrismFisheye(
            ThinPrismFisheyeParams {
                kb4: KannalaBrandt4Params { k1: p[4], k2: p[5], k3: p[8], k4: p[9] },
                p1: p[6],
                p2: p[7],
                sx1: p[10],
                sy1: p[11],
            },
        ),
    }
}

/// The cameras file is binary.
pub open spec fn is_binary(path: Seq<PartView>) -> bool {
    path_extension(path) == Some("bin"@)
}

/// Where the images of a reconstruction are listed: beside its cameras.
pub open spec fn images_file(cameras: Seq<PartView>) -> Seq<PartView> {
    path_join(
        path_parent(cameras)->0,
        seq![
            PartView::Normal(
                if is_binary(cameras) {
                    "images.bin"@
                } else {
                    "images.txt"@
                },
            ),
        ],
    )
}

/// The images are listed in the directory of the cameras, in a file of the same kind.
pub proof fn lemma_images_file(dir: Seq<PartView>, stem: Seq<char>, extension: Seq<char>)
    requires
        stem.len() > 0,
        !extension.contains('.'),
    ensures
        ({
            let cameras = dir.push(PartView::Normal(stem + seq!['.'] + extension));
            &&& is_binary(cameras) <==> extension == "bin"@
            &&& images_file(cameras) == dir.push(
                PartView::Normal(
                    if extension == "bin"@ {
                        "images.bin"@
                    } else {
                        "images.txt"@
                    },
                ),
            )
        }),
{
    lemma_extension(dir, stem, extension);
    lemma_parent_and_join(dir, stem + seq!['.'] + extension, Seq::empty());
    lemma_parent_and_join(dir, "images.bin"@, Seq::empty());
    lemma_parent_and_join(dir, "images.txt"@, Seq::empty());
}

/// Whether the cameras file is binary, and where the images are listed.
pub fn images_path(cameras: &VfsPath) -> (r: (bool, VfsPath))
    requires
        path_parent(cameras@) is Some,
    ensures
        r.0 == is_binary(cameras@),
        r.1@ == images_file(cameras@),
{
    let binary: bool = cameras.has_extension("bin");
    let name = if binary {
        "images.bin"
    } else {
        "images.txt"
    };
    (binary, cameras.sibling(name).unwrap())
}

/// The paths as their components.
pub open spec fn path_views(paths: Seq<VfsPath>) -> Seq<Seq<PartView>> {
    paths.map_values(|p: VfsPath| p@)
}

/// Candidate `a` is a better choice than `b`: it registered more images, or as
/// many and its path comes first.
pub open spec fn better(
    paths: Seq<Seq<PartView>>,
    counts: Seq<Option<usize>>,
    a: int,
    b: int,
) -> bool {
    counts[a]->0 > counts[b]->0 || (counts[a]->0 == counts[b]->0 && path_before(
        paths[a],
        paths[b],
    ))
}

/// Candidate `i` is the choice among those below `n` whose images can be read:
/// none is better, and no earlier one is as good.
pub open spec fn is_best(
    paths: Seq<Seq<PartView>>,
    counts: Seq<Option<usize>>,
    n: int,
    i: int,
) -> bool {
    &&& 0 <= i < n
    &&& counts[i] is Some
    &&& forall|j: int|
        0 <= j < n && j != i && (#[trigger] counts[j]) is Some ==> better(paths, counts, i, j) || (
        i < j && counts[i] == counts[j] && paths[i] == paths[j])
}

/// Candidate `i` has the first path among those below `n`.
pub open spec fn is_first_path(paths: Seq<Seq<PartView>>, n: int, i: int) -> bool {
    &&& 0 <= i < n
    &&& forall|j: int|
        0 <= j < n && j != i ==> path_before(paths[i], #[trigger] paths[j]) || (i < j && paths[i]
            == paths[j])
}

/// The choice registered no fewer images than any other candidate whose images can be
/// read, and its path is the first among those that registered as many.
pub proof fn lemma_best_registered_most(
    paths: Seq<Seq<PartView>>,
    counts: Seq<Option<usize>>,
    n: int,
    i: int,
    j: int,
)
    requires
        is_best(paths, counts, n, i),
        0 <= j < n,
        counts[j] is Some,
    ensures
        counts[i] is Some,
        counts[i]->0 >= counts[j]->0,
        counts[i] == counts[j] ==> paths[i] == paths[j] || path_before(paths[i], paths[j]),
{
}

/// The first path is before every other.
pub proof fn lemma_first_path(paths: Seq<Seq<PartView>>, n: int, i: int, j: int)
    requires
        is_first_path(paths, n, i),
        0 <= j < n,
    ensures
        paths[i] == paths[j] || path_before(paths[i], paths[j]),
{
    lemma_paths_total(paths[i], paths[j]);
}

/// The path is among the candidates, with this count.
pub open spec fn is_candidate(
    paths: Seq<Seq<PartView>>,
    counts: Seq<Option<usize>>,
    path: Seq<PartView>,
    count: Option<usize>,
) -> bool {
    exists|k: int| 0 <= k < paths.len() && (#[trigger] paths[k]) == path && counts[k] == count
}

/// The same candidates, with the same counts, in whatever order.
pub open spec fn same_candidates(
    paths_a: Seq<Seq<PartView>>,
    counts_a: Seq<Option<usize>>,
    paths_b: Seq<Seq<PartView>>,
    counts_b: Seq<Option<usize>>,
) -> bool {
    &&& counts_a.len() == paths_a.len()
    &&& counts_b.len() == paths_b.len()
    &&& forall|k: int|
        0 <= k < paths_a.len() ==> is_candidate(
            paths_b,
            counts_b,
            #[trigger] paths_a[k],
            counts_a[k],
        )
    &&& forall|k: int|
        0 <= k < paths_b.len() ==> is_candidate(
            paths_a,
            counts_a,
            #[trigger] paths_b[k],
            counts_b[k],
        )
}

/// Which reconstruction is picked does not depend on the order in which the files
/// are found.
pub proof fn lemma_selection_ignores_order(
    paths_a: Seq<Seq<PartView>>,
    counts_a: Seq<Option<usize>>,
    paths_b: Seq<Seq<PartView>>,
    counts_b: Seq<Option<usize>>,
    i: int,
    j: int,
)
    requires
        same_candidates(paths_a, counts_a, paths_b, counts_b),
    ensures
        is_best(paths_a, counts_a, paths_a.len() as int, i) && is_best(
            paths_b,
            counts_b,
            paths_b.len() as int,
            j,
        ) ==> paths_a[i] == paths_b[j],
        is_first_path(paths_a, paths_a.len() as int, i) && is_first_path(
            paths_b,
            paths_b.len() as int,
            j,
        ) ==> paths_a[i] == paths_b[j],
{
    if 0 <= i < paths_a.len() && 0 <= j < paths_b.len() {
        lemma_paths_total(paths_a[i], paths_b[j]);
        lemma_paths_total(paths_b[j], paths_a[i]);
        assert(is_candidate(paths_b, counts_b, paths_a[i], counts_a[i]));
        assert(is_candidate(paths_a, counts_a, paths_b[j], counts_b[j]));
        let k = choose|k: int|
            0 <= k < paths_b.len() && (#[trigger] paths_b[k]) == paths_a[i] && counts_b[k]
                == counts_a[i];
        let l = choose|l: int|
            0 <= l < paths_a.len() && (#[trigger] paths_a[l]) == paths_b[j] && counts_a[l]
                == counts_b[j];
        assert(counts_b[k] == counts_a[i] && counts_a[l] == counts_b[j]);
    }
}

/// A path before a second is before every third that the second is before.
proof fn lemma_better_transitive(
    paths: Seq<Seq<PartView>>,
    counts: Seq<Option<usize>>,
    a: int,
    b: int,
    c: int,
)
    requires
        better(paths, counts, a, b),
        better(paths, counts, b, c),
    ensures
        better(paths, counts, a, c),
{
    if counts[a]->0 == counts[b]->0 && counts[b]->0 == counts[c]->0 {
        crate::path::lemma_paths_transitive(paths[a], paths[b], paths[c]);
    }
}

/// Picks the reconstruction to load. COLMAP emits several where the images do
/// not hang together; they share no frame, so the one that registered the most
/// images is taken. `counts` says how many each registered, or that this cannot
/// be read; where that holds of all, the first path is taken, so that loading it
/// reports the error.
pub fn select_colmap_model(candidates: &Vec<VfsPath>, counts: &Vec<Option<usize>>) -> (r: Option<
    usize,
>)
    requires
        counts@.len() == candidates@.len(),
    ensures
        (r is None) == (candidates@.len() == 0),
        candidates@.len() == 1 ==> r == Some(0usize),
        candidates@.len() > 1 ==> {
            let paths = path_views(candidates@);
            if exists|j: int| 0 <= j < counts@.len() && (#[trigger] counts@[j]) is Some {
                is_best(paths, counts@, paths.len() as int, r->0 as int)
            } else {
                is_first_path(paths, paths.len() as int, r->0 as int)
            }
        },
{
    let n: usize = candidates.len();
    if n == 0 {
        return None;
    }
    if n == 1 {
        return Some(0);
    }
    let ghost paths = path_views(candidates@);
    let mut best: Option<usize> = None;
    let mut first: usize = 0;
    let mut i: usize = 0;
    while i < n
        invariant
            i <= n == candidates@.len(),
            n > 1,
            counts@.len() == n,
            paths == path_views(candidates@),
            best is None ==> forall|j: int| 0 <= j < i ==> (#[trigger] counts@[j]) is None,
            best matches Some(b) ==> is_best(paths, counts@, i as int, b as int),
            i > 0 ==> is_first_path(paths, i as int, first as int),
            first < n,
        decreases n - i,
    {
        assert(paths[i as int] == candidates@[i as int]@);
        if i == 0 || candidates[i].is_before(&candidates[first]) {
            if i > 0 {
                assert(paths[first as int] == candidates@[first as int]@);
                assert forall|j: int| 0 <= j < i + 1 && j != i implies path_before(
                    paths[i as int],
                    #[trigger] paths[j],
                ) by {
                    if j != first {
                        if path_before(paths[first as int], paths[j]) {
                            crate::path::lemma_paths_transitive(
                                paths[i as int],
                                paths[first as int],
                                paths[j],
                            );
                        }
                    }
                }
            }
            first = i;
        } else {
            proof {
                assert(paths[first as int] == candidates@[first as int]@);
                lemma_paths_total(paths[i as int], paths[first as int]);
            }
        }
        if let Some(count) = counts[i] {
            match best {
                None => {
                    best = Some(i);
                },
                Some(b) => {
                    assert(paths[b as int] == candidates@[b as int]@);
                    let best_count: usize = counts[b].unwrap();
                    let is_better: bool = count > best_count || (count == best_count
                        && candidates[i].is_before(&candidates[b]));
                    assert(is_better == better(paths, counts@, i as int, b as int));
                    if is_better {
                        assert forall|j: int|
                            0 <= j < i + 1 && j != i && (
                            #[trigger] counts@[j]) is Some implies better(
                            paths,
                            counts@,
                            i as int,
                            j,
                        ) by {
                            if j != b {
                                if better(paths, counts@, b as int, j) {
                                    lemma_better_transitive(
                                        paths,
                                        counts@,
                                        i as int,
                                        b as int,
                                        j,
                                    );
                                }
                            }
                        }
                        best = Some(i);
                    } else {
                        proof {
                            lemma_paths_total(paths[i as int], paths[b as int]);
                        }
                    }
                },
            }
        }
        i = i + 1;
    }
    match best {
        Some(b) => {
            assert(counts@[b as int] is Some);
            Some(b)
        },
        None => Some(first),
    }
}

/// The file at `i` is the first of the list that lies beside the cameras.
pub open spec fn is_first_beside(
    files: Seq<Seq<PartView>>,
    cameras: Seq<PartView>,
    i: int,
) -> bool {
    &&& 0 <= i < files.len()
    &&& path_parent(files[i]) == path_parent(cameras)
    &&& forall|j: int| 0 <= j < i ==> path_parent(#[trigger] files[j]) != path_parent(cameras)
}

/// The first of the files that lies beside the cameras. The points of a
/// reconstruction are looked for among those in text, followed by those in binary.
pub fn find_beside(files: &Vec<VfsPath>, cameras: &VfsPath) -> (r: Option<usize>)
    requires
        path_parent(cameras@) is Some,
    ensures
        r matches Some(i) ==> is_first_beside(path_views(files@), cameras@, i as int),
        r is None ==> forall|j: int|
            0 <= j < files@.len() ==> path_parent((#[trigger] files@[j])@) != path_parent(cameras@),
{
    let dir = cameras.parent().unwrap();
    let mut i: usize = 0;
    while i < files.len()
        invariant
            i <= files@.len(),
            path_parent(cameras@) == Some(dir@),
            forall|j: int|
                0 <= j < i ==> path_parent((#[trigger] files@[j])@) != path_parent(cameras@),
        decreases files@.len() - i,
    {
        let beside: bool = match files[i].parent() {
            Some(p) => p.same_as(&dir),
            None => false,
        };
        if beside {
            assert forall|j: int| 0 <= j < i implies path_parent(
                #[trigger] path_views(files@)[j],
            ) != path_parent(cameras@) by {
                assert(path_parent(files@[j]@) != path_parent(cameras@));
            }
            return Some(i);
        }
        i = i + 1;
    }
    None
}

/// What the file system and the camera say of an image.
#[derive(Clone, Copy, Debug, PartialEq, Eq, Structural)]
pub struct ImageLookup {
    pub found: bool,
    pub has_mask: bool,
    pub camera_is_valid: bool,
}

/// A view of the scene: an image with its camera, and whether it is masked
/// outside the circle of its lens.
#[derive(Copy, Debug)]
pub struct ColmapView<T> {
    pub image: usize,
    pub camera: usize,
    pub camera_model: CameraModel<T>,
    pub synthetic_vignette_mask: bool,
}

impl<T: Copy> Clone for ColmapView<T> {
    fn clone(&self) -> (r: Self)
        ensures
            r == *self,
    {
        *self
    }
}

/// What was made of a reconstruction: the views for training and for evaluation,
/// and what was left out.
pub struct ColmapDataset<T> {
    pub train: Vec<ColmapView<T>>,
    pub eval: Vec<ColmapView<T>>,
    pub warnings: Vec<String>,
}

/// The last camera with this id.
pub open spec fn camera_with_id<T>(cameras: Seq<ColmapCamera<T>>, id: i32) -> Option<int>
    decreases cameras.len(),
{
    if cameras.len() == 0 {
        None
    } else if cameras.last().id == id {
        Some(cameras.len() - 1)
    } else {
        camera_with_id(cameras.drop_last(), id)
    }
}

proof fn lemma_camera_with_id<T>(cameras: Seq<ColmapCamera<T>>, id: i32)
    ensures
        camera_with_id(cameras, id) matches Some(c) ==> 0 <= c < cameras.len() && cameras[c].id
            == id,
        camera_with_id(cameras, id) is None ==> forall|c: int|
            0 <= c < cameras.len() ==> (#[trigger] cameras[c]).id != id,
    decreases cameras.len(),
{
    if cameras.len() > 0 && cameras.last().id != id {
        lemma_camera_with_id(cameras.drop_last(), id);
        assert forall|c: int|
            camera_with_id(cameras, id) is None && 0 <= c < cameras.len() implies (
        #[trigger] cameras[c]).id != id by {
            if c < cameras.len() - 1 {
                assert(cameras.drop_last()[c] == cameras[c]);
            }
        }
    }
}

/// The table holds every id, with the last camera that has it.
pub open spec fn is_camera_table<T>(table: Map<i32, usize>, cameras: Seq<ColmapCamera<T>>) -> bool {
    forall|id: i32|
        #![trigger table.contains_key(id)]
        match camera_with_id(cameras, id) {
            Some(c) => table.contains_key(id) && table[id] == c,
            None => !table.contains_key(id),
        }
}

/// Every id, with the last camera that has it.
fn camera_table<T>(cameras: &Vec<ColmapCamera<T>>) -> (r: HashMap<i32, usize>)
    ensures
        is_camera_table(r@, cameras@),
{
    broadcast use group_hash_axioms;

    let mut r: HashMap<i32, usize> = HashMap::new();
    let mut i: usize = 0;
    while i < cameras.len()
        invariant
            i <= cameras@.len(),
            is_camera_table(r@, cameras@.take(i as int)),
        decreases cameras@.len() - i,
    {
        assert(cameras@.take(i + 1).drop_last() == cameras@.take(i as int));
        r.insert(cameras[i].id, i);
        i = i + 1;
    }
    assert(cameras@.take(cameras@.len() as int) == cameras@);
    r
}

/// The names of the images.
pub open spec fn image_names(images: Seq<ColmapImage>) -> Seq<Seq<char>> {
    images.map_values(|i: ColmapImage| i.name@)
}

/// The camera with this identity, where there is one, has its parameters.
pub open spec fn camera_is_complete<T>(cameras: Seq<ColmapCamera<T>>, id: i32) -> bool {
    camera_with_id(cameras, id) matches Some(c) ==> cameras[c].complete()
}

/// What the loading of views has come to.
pub enum Views<T> {
    /// The views, and what was left out.
    Loaded(Seq<ColmapView<T>>, Seq<Seq<char>>),
    /// An image names a camera that is not there.
    NoCamera(Seq<char>),
}

/// The message on an image whose camera is not there.
pub open spec fn no_camera_message(name: Seq<char>, id: i32) -> Seq<char> {
    "Image '"@ + name + "' references camera ID "@ + signed_text(id as int)
        + " which doesn't exist in camera data"@
}

/// The message on an image that is not there.
pub open spec fn not_found_message(name: Seq<char>) -> Seq<char> {
    "Skipped '"@ + name + "': image file not found"@
}

/// The message on an image whose camera is of no use.
pub open spec fn bad_camera_message(name: Seq<char>) -> Seq<char> {
    "Skipped '"@ + name + "': camera contains nan or inf values"@
}

/// What the images of `selected` come to, one after the other: an image whose
/// camera is not there ends it; one whose file is not there, or whose camera is
/// of no use, is left out with a message; every other is a view.
pub open spec fn loaded_views<T>(
    images: Seq<ColmapImage>,
    cameras: Seq<ColmapCamera<T>>,
    lookups: Seq<ImageLookup>,
    config: LoadDatasetConfig,
    zero: T,
    selected: Seq<int>,
) -> Views<T>
    decreases selected.len(),
{
    if selected.len() == 0 {
        Views::Loaded(Seq::empty(), Seq::empty())
    } else {
        let before = loaded_views(
            images,
            cameras,
            lookups,
            config,
            zero,
            selected.drop_last(),
        );
        match before {
            Views::NoCamera(message) => Views::NoCamera(message),
            Views::Loaded(views, warnings) => {
                let i = selected.last();
                let name = images[i].name@;
                match camera_with_id(cameras, images[i].camera_id) {
                    None => Views::NoCamera(no_camera_message(name, images[i].camera_id)),
                    Some(c) => {
                        let model = camera_model_of(cameras[c].model, cameras[c].params@, zero);
                        if !lookups[i].found {
                            Views::Loaded(views, warnings.push(not_found_message(name)))
                        } else if !lookups[i].camera_is_valid {
                            Views::Loaded(views, warnings.push(bad_camera_message(name)))
                        } else {
                            Views::Loaded(
                                views.push(
                                    ColmapView {
                                        image: i as usize,
                                        camera: c as usize,
                                        camera_model: model,
                                        synthetic_vignette_mask: gets_vignette_mask(
                                            model,
                                            lookups[i].has_mask,
                                            config,
                                        ),
                                    },
                                ),
                                warnings,
                            )
                        }
                    },
                }
            },
        }
    }
}

/// The camera of an id is one that has it, and none after it does.
pub proof fn lemma_camera_of_id<T>(cameras: Seq<ColmapCamera<T>>, id: i32)
    ensures
        (camera_with_id(cameras, id) is None) == (forall|c: int|
            0 <= c < cameras.len() ==> (#[trigger] cameras[c]).id != id),
        camera_with_id(cameras, id) matches Some(c) ==> {
            &&& 0 <= c < cameras.len()
            &&& cameras[c].id == id
            &&& forall|d: int| c < d < cameras.len() ==> (#[trigger] cameras[d]).id != id
        },
    decreases cameras.len(),
{
    if cameras.len() > 0 {
        let init = cameras.drop_last();
        lemma_camera_of_id(init, id);
        assert(cameras[cameras.len() - 1] == cameras.last());
        assert(forall|c: int| 0 <= c < init.len() ==> (#[trigger] init[c]) == cameras[c]);
        if camera_with_id(cameras, id) is None {
            assert forall|c: int| 0 <= c < cameras.len() implies (#[trigger] cameras[c]).id
                != id by {
                if c < init.len() {
                    assert(init[c].id != id);
                }
            }
        }
        if let Some(c) = camera_with_id(cameras, id) {
            assert forall|d: int| c < d < cameras.len() implies (#[trigger] cameras[d]).id
                != id by {
                if d < init.len() {
                    assert(init[d].id != id);
                }
            }
        }
    }
}

/// The view shows its image through the camera that the image names, with the model
/// of that camera, and is masked where that camera is a fisheye, the option is on and
/// the image has no mask of its own.
pub open spec fn shows_its_image<T>(
    view: ColmapView<T>,
    images: Seq<ColmapImage>,
    cameras: Seq<ColmapCamera<T>>,
    lookups: Seq<ImageLookup>,
    config: LoadDatasetConfig,
    zero: T,
) -> bool {
    let i = view.image as int;
    let c = view.camera as int;
    let lens = cameras[c].model;
    &&& 0 <= c < cameras.len()
    &&& cameras[c].id == images[i].camera_id
    &&& forall|d: int| c < d < cameras.len() ==> (#[trigger] cameras[d]).id != images[i].camera_id
    &&& view.camera_model == camera_model_of(lens, cameras[c].params@, zero)
    &&& view.synthetic_vignette_mask == (config.fisheye_vignette_mask && !lookups[i].has_mask && (
    lens is OpenCvFishEye || lens is SimpleRadialFisheye || lens is RadialFisheye
        || lens is ThinPrismFisheye))
}

/// What loading comes to, image by image: every selected image whose file is there
/// and whose camera is of use is a view, in the order of the selection, and every
/// other leaves one message. Loading ends with an error exactly where some selected
/// image names a camera that is not there.
pub proof fn lemma_loaded_views<T>(
    images: Seq<ColmapImage>,
    cameras: Seq<ColmapCamera<T>>,
    lookups: Seq<ImageLookup>,
    config: LoadDatasetConfig,
    zero: T,
    selected: Seq<int>,
)
    requires
        images.len() <= usize::MAX,
        cameras.len() <= usize::MAX,
        forall|k: int| 0 <= k < selected.len() ==> 0 <= #[trigger] selected[k] < images.len(),
    ensures
        ({
            let usable = |i: int| lookups[i].found && lookups[i].camera_is_valid;
            let outcome = loaded_views(images, cameras, lookups, config, zero, selected);
            &&& (outcome is NoCamera) == (exists|k: int|
                0 <= k < selected.len() && camera_with_id(
                    cameras,
                    images[#[trigger] selected[k]].camera_id,
                ) is None)
            &&& outcome matches Views::Loaded(views, warnings) ==> {
                &&& views.map_values(|v: ColmapView<T>| v.image as int) == selected.filter(usable)
                &&& views.len() + warnings.len() == selected.len()
                &&& forall|k: int|
                    0 <= k < views.len() ==> shows_its_image(
                        #[trigger] views[k],
                        images,
                        cameras,
                        lookups,
                        config,
                        zero,
                    )
            }
        }),
    decreases selected.len(),
{
    reveal(Seq::filter);
    let usable = |i: int| lookups[i].found && lookups[i].camera_is_valid;
    let outcome = loaded_views(images, cameras, lookups, config, zero, selected);
    if selected.len() == 0 {
        if let Views::Loaded(views, warnings) = outcome {
            assert(views.map_values(|v: ColmapView<T>| v.image as int) =~= selected.filter(usable));
        }
    } else {
        let init = selected.drop_last();
        let i = selected.last();
        assert(selected[selected.len() - 1] == i);
        assert(forall|k: int| 0 <= k < init.len() ==> (#[trigger] init[k]) == selected[k]);
        lemma_loaded_views(images, cameras, lookups, config, zero, init);
        lemma_camera_of_id(cameras, images[i].camera_id);
        let before = loaded_views(images, cameras, lookups, config, zero, init);
        if before is NoCamera {
            let k = choose|k: int|
                0 <= k < init.len() && camera_with_id(
                    cameras,
                    images[#[trigger] init[k]].camera_id,
                ) is None;
            assert(selected[k] == init[k]);
        }
        if exists|k: int|
            0 <= k < selected.len() && camera_with_id(
                cameras,
                images[#[trigger] selected[k]].camera_id,
            ) is None {
            let k = choose|k: int|
                0 <= k < selected.len() && camera_with_id(
                    cameras,
                    images[#[trigger] selected[k]].camera_id,
                ) is None;
            if k < init.len() {
                assert(init[k] == selected[k]);
            }
        }
        if let Views::Loaded(views, warnings) = outcome {
            assert(views.map_values(|v: ColmapView<T>| v.image as int) =~= selected.filter(usable));
        }
    }
}

/// The cameras of the selected images have their parameters, as far as they are
/// looked at, and views are set aside in steps of zero only where there is none.
pub open spec fn can_load<T>(
    images: Seq<ColmapImage>,
    cameras: Seq<ColmapCamera<T>>,
    lookups: Seq<ImageLookup>,
    config: LoadDatasetConfig,
    zero: T,
    selected: Seq<int>,
) -> bool {
    &&& forall|k: int|
        0 <= k < selected.len() && loaded_views(
            images,
            cameras,
            lookups,
            config,
            zero,
            selected.take(k),
        ) is Loaded ==> camera_is_complete(cameras, images[#[trigger] selected[k]].camera_id)
    &&& config.eval_split_every == Some(0usize) ==> {
        loaded_views(images, cameras, lookups, config, zero, selected) matches Views::Loaded(
            views,
            _,
        ) ==> views.len() == 0
    }
}

/// Whatever is selected, it can be loaded where all cameras have their parameters
/// and no step is zero.
pub proof fn lemma_complete_cameras_can_load<T>(
    images: Seq<ColmapImage>,
    cameras: Seq<ColmapCamera<T>>,
    lookups: Seq<ImageLookup>,
    config: LoadDatasetConfig,
    zero: T,
    selected: Seq<int>,
)
    requires
        forall|c: int| 0 <= c < cameras.len() ==> (#[trigger] cameras[c]).complete(),
        config.eval_split_every != Some(0usize),
    ensures
        can_load(images, cameras, lookups, config, zero, selected),
{
    assert forall|k: int| 0 <= k < selected.len() implies camera_is_complete(
        cameras,
        images[#[trigger] selected[k]].camera_id,
    ) by {
        lemma_camera_with_id(cameras, images[selected[k]].camera_id);
    }
}

/// Once an image's camera is not there, nothing that follows changes the outcome.
proof fn lemma_no_camera_stays<T>(
    images: Seq<ColmapImage>,
    cameras: Seq<ColmapCamera<T>>,
    lookups: Seq<ImageLookup>,
    config: LoadDatasetConfig,
    zero: T,
    selected: Seq<int>,
    k: int,
)
    requires
        0 <= k <= selected.len(),
        loaded_views(images, cameras, lookups, config, zero, selected.take(k)) is NoCamera,
    ensures
        loaded_views(images, cameras, lookups, config, zero, selected) == loaded_views(
            images,
            cameras,
            lookups,
            config,
            zero,
            selected.take(k),
        ),
    decreases selected.len() - k,
{
    if k == selected.len() {
        assert(selected.take(k) == selected);
    } else {
        assert(selected.take(k + 1).drop_last() == selected.take(k));
        lemma_no_camera_stays(images, cameras, lookups, config, zero, selected, k + 1);
    }
}

/// The images that are loaded: in the order of their names, one in every so
/// many, up to a limit.
pub open spec fn selected_images(order: Seq<usize>, config: LoadDatasetConfig) -> Seq<int> {
    let frames = taken_frames(order.len() as int, frame_step(config), frame_limit(config));
    frames.map_values(|f: int| order[f] as int)
}

/// One in every so many frames is loaded.
pub open spec fn frame_step(config: LoadDatasetConfig) -> int {
    match config.subsample_frames {
        Some(step) => step as int,
        None => 1,
    }
}

/// So many frames are loaded at most.
pub open spec fn frame_limit(config: LoadDatasetConfig) -> int {
    match config.max_frames {
        Some(max) => max as int,
        None => usize::MAX as int,
    }
}

/// The frames of a scene that are loaded, by their place.
pub fn choose_frames(n: usize, config: &LoadDatasetConfig) -> (r: Vec<usize>)
    requires
        config.subsample_frames matches Some(step) ==> step > 0,
    ensures
        r@.map_values(|i: usize| i as int) == taken_frames(
            n as int,
            frame_step(*config),
            frame_limit(*config),
        ),
        forall|k: int| 0 <= k < r@.len() ==> #[trigger] r@[k] < n,
        config.subsample_frames is None ==> forall|k: int|
            0 <= k < r@.len() ==> #[trigger] r@[k] == k,
        config.subsample_frames matches Some(step) ==> forall|k: int|
            0 <= k < r@.len() ==> #[trigger] r@[k] == k * step,
        config.max_frames matches Some(max) ==> r@.len() <= max,
        config.subsample_frames is None && config.max_frames is None ==> r@.len() == n,
        config.subsample_frames is None && config.max_frames is Some ==> r@.len() == (if n
            <= config.max_frames->0 {
            n
        } else {
            config.max_frames->0
        }),
{
    proof {
        lemma_taken_frames(n as int, frame_step(*config), frame_limit(*config));
    }
    let step: usize = match config.subsample_frames {
        Some(step) => step as usize,
        None => 1,
    };
    let max: usize = match config.max_frames {
        Some(max) => max,
        None => usize::MAX,
    };
    let r = take_frames(n, step, max);
    proof {
        let taken = taken_frames(n as int, frame_step(*config), frame_limit(*config));
        assert forall|k: int| 0 <= k < r@.len() implies #[trigger] r@[k] == k * frame_step(
            *config,
        ) by {
            assert(r@.map_values(|i: usize| i as int)[k] == taken[k]);
        }
        if config.subsample_frames is None {
            assert(frame_step(*config) == 1);
            assert(taken.len() == taken_count(n as int, 1, frame_limit(*config)));
        }
    }
    r
}

/// The images that are loaded, by their place, in the order in which they are.
pub fn select_images(images: &Vec<ColmapImage>, config: &LoadDatasetConfig) -> (r: Vec<usize>)
    requires
        config.subsample_frames matches Some(step) ==> step > 0,
    ensures
        exists|order: Seq<usize>| #[trigger] is_name_order(image_names(images@), order),
        forall|order: Seq<usize>| #[trigger]
            is_name_order(image_names(images@), order) ==> r@.map_values(|i: usize| i as int)
                == selected_images(order, *config),
        forall|k: int| 0 <= k < r@.len() ==> #[trigger] r@[k] < images@.len(),
{
    let mut names: Vec<String> = Vec::new();
    let mut i: usize = 0;
    while i < images.len()
        invariant
            i <= images@.len(),
            texts(names@) == image_names(images@).take(i as int),
        decreases images@.len() - i,
    {
        let ghost before = texts(names@);
        names.push(images[i].name.clone());
        assert(texts(names@) =~= before.push(image_names(images@)[i as int]));
        i = i + 1;
        assert(image_names(images@).take(i as int) =~= image_names(images@).take(i - 1).push(
            image_names(images@)[i - 1],
        ));
    }
    assert(image_names(images@).take(images@.len() as int) =~= image_names(images@));
    let order = sort_by_name(&names);
    let frames = choose_frames(images.len(), config);
    let ghost selected = selected_images(order@, *config);
    assert(frames@.len() == selected.len()) by {
        assert(frames@.map_values(|i: usize| i as int).len() == selected.len());
    }
    assert forall|k: int| 0 <= k < frames@.len() implies selected[k]
        == order@[(#[trigger] frames@[k]) as int] as int by {
        assert(frames@.map_values(|i: usize| i as int)[k] == frames@[k] as int);
    }
    let mut r: Vec<usize> = Vec::new();
    let mut k: usize = 0;
    while k < frames.len()
        invariant
            k <= frames@.len(),
            r@.len() == k,
            frames@.len() == selected.len(),
            is_name_order(image_names(images@), order@),
            forall|k: int| 0 <= k < frames@.len() ==> #[trigger] frames@[k] < images@.len(),
            forall|k: int|
                0 <= k < frames@.len() ==> selected[k] == order@[(
                #[trigger] frames@[k]) as int] as int,
            forall|j: int|
                0 <= j < k ==> (#[trigger] r@[j]) == selected[j] && r@[j] < images@.len(),
        decreases frames@.len() - k,
    {
        let i: usize = order[frames[k]];
        r.push(i);
        k = k + 1;
    }
    assert(r@.map_values(|i: usize| i as int) =~= selected);
    assert forall|other: Seq<usize>| #[trigger] is_name_order(
        image_names(images@),
        other,
    ) implies other == order@ by {
        lemma_name_order_unique(image_names(images@), other, order@);
    }
    r
}

/// Loads the views of a reconstruction.
#[verifier::rlimit(40)]
pub fn load_dataset_inner<T: Copy>(
    images: &Vec<ColmapImage>,
    cameras: &Vec<ColmapCamera<T>>,
    lookups: &Vec<ImageLookup>,
    config: &LoadDatasetConfig,
    zero: T,
) -> (r: Result<ColmapDataset<T>, FormatError>)
    requires
        lookups@.len() == images@.len(),
        config.subsample_frames matches Some(step) ==> step > 0,
        forall|order: Seq<usize>| #[trigger]
            is_name_order(image_names(images@), order) ==> can_load(
                images@,
                cameras@,
                lookups@,
                *config,
                zero,
                selected_images(order, *config),
            ),
    ensures
        exists|order: Seq<usize>| #[trigger] is_name_order(image_names(images@), order),
        forall|order: Seq<usize>| #[trigger]
            is_name_order(image_names(images@), order) ==> {
                let outcome = loaded_views(
                    images@,
                    cameras@,
                    lookups@,
                    *config,
                    zero,
                    selected_images(order, *config),
                );
                match outcome {
                    Views::NoCamera(message) => {
                        r matches Err(FormatError::InvalidFormat(m)) && m@ == message
                    },
                    Views::Loaded(views, warnings) => {
                        r matches Ok(dataset) && (dataset.train@, dataset.eval@) == eval_split(
                            views,
                            config.eval_split_every,
                        ) && texts(dataset.warnings@) == warnings
                    },
                }
            },
{
    let table = camera_table(cameras);
    let chosen = select_images(images, config);
    let ghost selected = chosen@.map_values(|i: usize| i as int);
    let ghost names_order = choose|order: Seq<usize>| #[trigger]
        is_name_order(image_names(images@), order);
    assert(is_name_order(image_names(images@), names_order));
    assert(selected == selected_images(names_order, *config));
    let mut views: Vec<ColmapView<T>> = Vec::new();
    let mut warnings: Vec<String> = Vec::new();
    let mut k: usize = 0;
    assert(texts(warnings@) =~= Seq::<Seq<char>>::empty());
    assert(views@ =~= Seq::<ColmapView<T>>::empty());
    while k < chosen.len()
        invariant
            k <= chosen@.len(),
            selected == chosen@.map_values(|i: usize| i as int),
            lookups@.len() == images@.len(),
            can_load(images@, cameras@, lookups@, *config, zero, selected),
            forall|k: int| 0 <= k < chosen@.len() ==> #[trigger] chosen@[k] < images@.len(),
            is_name_order(image_names(images@), names_order),
            forall|order: Seq<usize>| #[trigger]
                is_name_order(image_names(images@), order) ==> selected == selected_images(
                    order,
                    *config,
                ),
            is_camera_table(table@, cameras@),
            loaded_views(
                images@,
                cameras@,
                lookups@,
                *config,
                zero,
                selected.take(k as int),
            ) == Views::Loaded(views@, texts(warnings@)),
        decreases chosen@.len() - k,
    {
        broadcast use group_hash_axioms;

        let i: usize = chosen[k];
        assert(selected.take(k + 1).drop_last() == selected.take(k as int));
        assert(selected.take(k + 1).last() == i as int);
        let image = &images[i];
        let id: i32 = image.camera_id;
        assert(table@.contains_key(id) == (camera_with_id(cameras@, id) is Some));
        proof {
            lemma_camera_with_id(cameras@, id);
        }
        match table.get(&id) {
            None => {
                let mut message = join3("Image '", image.name.as_str(), "' references camera ID ");
                push_signed(&mut message, id);
                message.append(" which doesn't exist in camera data");
                assert(message@ =~= no_camera_message(image.name@, id));
                proof {
                    lemma_no_camera_stays(
                        images@,
                        cameras@,
                        lookups@,
                        *config,
                        zero,
                        selected,
                        k + 1,
                    );
                }
                return Err(FormatError::InvalidFormat(message));
            },
            Some(c) => {
                let c: usize = *c;
                let camera_model = build_camera_model(&cameras[c], zero);
                let ghost before = texts(warnings@);
                if !lookups[i].found {
                    let message = join3(
                        "Skipped '",
                        image.name.as_str(),
                        "': image file not found",
                    );
                    warnings.push(message);
                    assert(texts(warnings@) =~= before.push(not_found_message(image.name@)));
                } else if !lookups[i].camera_is_valid {
                    let message = join3(
                        "Skipped '",
                        image.name.as_str(),
                        "': camera contains nan or inf values",
                    );
                    warnings.push(message);
                    assert(texts(warnings@) =~= before.push(bad_camera_message(image.name@)));
                } else {
                    views.push(
                        ColmapView {
                            image: i,
                            camera: c,
                            camera_model,
                            synthetic_vignette_mask: synthetic_vignette_mask(
                                &camera_model,
                                lookups[i].has_mask,
                                config,
                            ),
                        },
                    );
                }
            },
        }
        k = k + 1;
    }
    assert(selected.take(selected.len() as int) == selected);
    let (train, eval) = split_eval_every(views, config.eval_split_every);
    Ok(ColmapDataset { train, eval, warnings })
}

/// The points that splats start from: one in every so many, or none where there
/// are no points.
pub fn choose_points(n: usize, config: &LoadDatasetConfig) -> (r: Option<Vec<usize>>)
    requires
        config.subsample_points matches Some(step) ==> step > 0,
    ensures
        (r is Some) == (n > 0),
        r matches Some(points) ==> points@.map_values(|i: usize| i as int) == taken_frames(
            n as int,
            match config.subsample_points {
                Some(step) => step as int,
                None => 1,
            },
            usize::MAX as int,
        ),
        r matches Some(points) ==> forall|k: int|
            0 <= k < points@.len() ==> #[trigger] points@[k] < n,
{
    if n == 0 {
        return None;
    }
    let step: usize = match config.subsample_points {
        Some(step) => step as usize,
        None => 1,
    };
    Some(take_frames(n, step, usize::MAX))
}

pub open spec fn spec_point_color(r: u8, g: u8, b: u8) -> Vec3A {
    Vec3A {
        x: whole(r as i64) / whole(255),
        y: whole(g as i64) / whole(255),
        z: whole(b as i64) / whole(255),
        pad: Pad::Zero,
    }
}

/// The colour of a point, from zero to one.
#[verifier::when_used_as_spec(spec_point_color)]
pub fn point_color(r: u8, g: u8, b: u8) -> (c: Vec3A)
    ensures
        c == point_color(r, g, b),
{
    Vec3A {
        x: Scalar::num(r as i64) / Scalar::num(255),
        y: Scalar::num(g as i64) / Scalar::num(255),
        z: Scalar::num(b as i64) / Scalar::num(255),
        pad: Pad::Zero,
    }
}

/// A colour channel is the byte as a share of the largest, each channel by its own
/// byte: red, green, blue.
pub proof fn lemma_point_color(r: u8, g: u8, b: u8, m: Model)
    ensures
        ({
            let c = point_color(r, g, b).value(m);
            &&& c.x * 255real == r as real
            &&& c.y * 255real == g as real
            &&& c.z * 255real == b as real
        }),
{
    broadcast use group_value;

    assert(whole(255).value(m) == 255real);
    assert(whole(r as i64).value(m) == r as real);
    assert(whole(g as i64).value(m) == g as real);
    assert(whole(b as i64).value(m) == b as real);
}

/// A point of a reconstruction: where it is, and its colour.
pub struct ColmapPoint<T> {
    pub xyz: (T, T, T),
    pub rgb: (u8, u8, u8),
}

/// What splats start from: three numbers for every position, and a colour each.
pub struct InitialPoints<T> {
    pub means: Vec<T>,
    pub colors: Vec<Vec3A>,
}

/// The positions and colours of the chosen points, in the order in which they were
/// chosen.
pub fn list_points<T: Copy>(
    points: &Vec<ColmapPoint<T>>,
    chosen: &Vec<usize>,
) -> (r: InitialPoints<T>)
    requires
        forall|k: int| 0 <= k < chosen@.len() ==> #[trigger] chosen@[k] < points@.len(),
    ensures
        r.means@.len() == 3 * chosen@.len(),
        r.colors@.len() == chosen@.len(),
        forall|k: int|
            0 <= k < chosen@.len() ==> {
                let p = points@[#[trigger] chosen@[k] as int];
                &&& r.means@[3 * k] == p.xyz.0
                &&& r.means@[3 * k + 1] == p.xyz.1
                &&& r.means@[3 * k + 2] == p.xyz.2
                &&& r.colors@[k] == point_color(p.rgb.0, p.rgb.1, p.rgb.2)
            },
        forall|k: int, m: Model|
            0 <= k < chosen@.len() ==> {
                let rgb = points@[chosen@[k] as int].rgb;
                let c = #[trigger] r.colors@[k].value(m);
                &&& c.x * 255real == rgb.0 as real
                &&& c.y * 255real == rgb.1 as real
                &&& c.z * 255real == rgb.2 as real
            },
{
    let mut means: Vec<T> = Vec::new();
    let mut colors: Vec<Vec3A> = Vec::new();
    let mut i: usize = 0;
    while i < chosen.len()
        invariant
            i <= chosen@.len(),
            forall|k: int| 0 <= k < chosen@.len() ==> #[trigger] chosen@[k] < points@.len(),
            means@.len() == 3 * i,
            colors@.len() == i,
            forall|k: int|
                0 <= k < i ==> {
                    let p = points@[#[trigger] chosen@[k] as int];
                    &&& means@[3 * k] == p.xyz.0
                    &&& means@[3 * k + 1] == p.xyz.1
                    &&& means@[3 * k + 2] == p.xyz.2
                    &&& colors@[k] == point_color(p.rgb.0, p.rgb.1, p.rgb.2)
                },
        decreases chosen@.len() - i,
    {
        let p = &points[chosen[i]];
        means.push(p.xyz.0);
        means.push(p.xyz.1);
        means.push(p.xyz.2);
        colors.push(point_color(p.rgb.0, p.rgb.1, p.rgb.2));
        i = i + 1;
    }
    proof {
        assert forall|k: int, m: Model| 0 <= k < chosen@.len() implies ({
            let rgb = points@[chosen@[k] as int].rgb;
            let c = #[trigger] colors@[k].value(m);
            &&& c.x * 255real == rgb.0 as real
            &&& c.y * 255real == rgb.1 as real
            &&& c.z * 255real == rgb.2 as real
        }) by {
            let rgb = points@[chosen@[k] as int].rgb;
            lemma_point_color(rgb.0, rgb.1, rgb.2, m);
        }
    }
    InitialPoints { means, colors }
}

} // verus!
