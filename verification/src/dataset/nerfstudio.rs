//! Nerfstudio scenes: which files describe one, and how each of its frames
//! becomes a view.
use crate::camera_model::{CameraModel, KannalaBrandt4Params, RadialTangential8Params};
use crate::config::LoadDatasetConfig;
use crate::dataset::colmap::{
    bad_camera_message, choose_frames, frame_limit, frame_step, not_found_message, path_views,
};
use crate::dataset::split::{
    eval_split, is_multiple, lemma_split_is_partition, split_eval_every, taken_frames,
};
use crate::dataset::{gets_vignette_mask, synthetic_vignette_mask, FormatError};
use crate::path::{
    path_ends_with, path_join, path_parent, with_default_extension, PartView, VfsPath,
};
use crate::text::{decimal_text, join3, push_decimal, same_text, texts};
use vstd::prelude::*;
use vstd::string::*;

verus! {

/// What a scene, or a frame of it, says of a camera. What a frame leaves unsaid
/// the scene may say.
pub struct CameraData<T> {
    pub camera_model: Option<String>,
    pub camera_angle_x: Option<T>,
    pub camera_angle_y: Option<T>,
    pub fl_x: Option<T>,
    pub fl_y: Option<T>,
    pub cx: Option<T>,
    pub cy: Option<T>,
    pub w: Option<T>,
    pub h: Option<T>,
    pub k1: Option<T>,
    pub k2: Option<T>,
    pub k3: Option<T>,
    pub k4: Option<T>,
    pub p1: Option<T>,
    pub p2: Option<T>,
}

/// A frame: its camera, the rows of its pose, and its image.
pub struct FrameData<T> {
    pub camera: CameraData<T>,
    pub transform_matrix: Vec<Vec<T>>,
    pub file_path: String,
    pub file: VfsPath,
}

/// A scene.
pub struct JsonScene<T> {
    pub camera: CameraData<T>,
    pub frames: Vec<FrameData<T>>,
}

/// The first if it is there, else the second.
pub open spec fn first_of<T>(a: Option<T>, b: Option<T>) -> Option<T> {
    match a {
        Some(x) => Some(x),
        None => b,
    }
}

fn either<T: Copy>(a: Option<T>, b: Option<T>) -> (r: Option<T>)
    ensures
        r == first_of(a, b),
{
    match a {
        Some(x) => Some(x),
        None => b,
    }
}

/// The number, or zero.
pub open spec fn or_zero<T>(x: Option<T>, zero: T) -> T {
    match x {
        Some(x) => x,
        None => zero,
    }
}

fn unwrap_or_zero<T: Copy>(x: Option<T>, zero: T) -> (r: T)
    ensures
        r == or_zero(x, zero),
{
    match x {
        Some(x) => x,
        None => zero,
    }
}

/// The distortion coefficients.
pub struct Distortion<T> {
    pub k1: Option<T>,
    pub k2: Option<T>,
    pub k3: Option<T>,
    pub k4: Option<T>,
    pub p1: Option<T>,
    pub p2: Option<T>,
}

/// The camera model of a name, or nothing where the name is not known.
pub open spec fn named_model<T>(name: Option<Seq<char>>, d: Distortion<T>, zero: T) -> Option<
    CameraModel<T>,
> {
    match name {
        None => Some(CameraModel::Pinhole),
        Some(name) => if name == "PERSPECTIVE"@ || name == "perspective"@ {
            Some(CameraModel::Pinhole)
        } else if name == "OPENCV"@ || name == "opencv"@ {
            Some(
                CameraModel::RadialTangential8(
                    RadialTangential8Params {
                        k1: or_zero(d.k1, zero),
                        k2: or_zero(d.k2, zero),
                        k3: zero,
                        k4: zero,
                        k5: zero,
                        k6: zero,
                        p1: or_zero(d.p1, zero),
                        p2: or_zero(d.p2, zero),
                    },
                ),
            )
        } else if name == "OPENCV_FISHEYE"@ || name == "opencv_fisheye"@ {
            Some(
                CameraModel::KannalaBrandt4(
                    KannalaBrandt4Params {
                        k1: or_zero(d.k1, zero),
                        k2: or_zero(d.k2, zero),
                        k3: or_zero(d.k3, zero),
                        k4: or_zero(d.k4, zero),
                    },
                ),
            )
        } else {
            None
        },
    }
}

/// The message on a model that is not known.
pub open spec fn unsupported_message(name: Seq<char>) -> Seq<char> {
    "Unsupported nerfstudio camera_model `"@ + name + "`"@
}

/// The name's characters, where there is a name.
pub open spec fn name_text(name: Option<&String>) -> Option<Seq<char>> {
    match name {
        Some(name) => Some(name@),
        None => None,
    }
}

/// The camera model that a scene names, with the coefficients it gives.
pub fn resolve_camera_model<T: Copy>(model_name: Option<&String>, d: &Distortion<T>, zero: T) -> (r:
    Result<CameraModel<T>, FormatError>)
    ensures
        match named_model(name_text(model_name), *d, zero) {
            Some(model) => r == Ok::<CameraModel<T>, FormatError>(model),
            None => r matches Err(FormatError::InvalidCamera(m)) && m@ == unsupported_message(
                model_name->0@,
            ),
        },
{
    match model_name {
        None => Ok(CameraModel::Pinhole),
        Some(name) => {
            let text = name.as_str();
            if same_text(text, "PERSPECTIVE") || same_text(text, "perspective") {
                Ok(CameraModel::Pinhole)
            } else if same_text(text, "OPENCV") || same_text(text, "opencv") {
                Ok(
                    CameraModel::RadialTangential8(
                        RadialTangential8Params {
                            k1: unwrap_or_zero(d.k1, zero),
                            k2: unwrap_or_zero(d.k2, zero),
                            k3: zero,
                            k4: zero,
                            k5: zero,
                            k6: zero,
                            p1: unwrap_or_zero(d.p1, zero),
                            p2: unwrap_or_zero(d.p2, zero),
                        },
                    ),
                )
            } else if same_text(text, "OPENCV_FISHEYE") || same_text(text, "opencv_fisheye") {
                Ok(
                    CameraModel::KannalaBrandt4(
                        KannalaBrandt4Params {
                            k1: unwrap_or_zero(d.k1, zero),
                            k2: unwrap_or_zero(d.k2, zero),
                            k3: unwrap_or_zero(d.k3, zero),
                            k4: unwrap_or_zero(d.k4, zero),
                        },
                    ),
                )
            } else {
                Err(
                    FormatError::InvalidCamera(
                        join3("Unsupported nerfstudio camera_model `", text, "`"),
                    ),
                )
            }
        },
    }
}

/// What a field of view is taken from: an angle, or a focal length.
#[derive(Copy, Debug)]
pub enum FovSource<T> {
    Angle(T),
    Focal(T),
}

impl<T: Copy> Clone for FovSource<T> {
    fn clone(&self) -> (r: Self)
        ensures
            r == *self,
    {
        *self
    }
}

/// What the field of view along one axis is taken from: what the frame says goes
/// before what the scene says, and an angle before a focal length.
pub open spec fn fov_source<T>(
    frame_angle: Option<T>,
    frame_focal: Option<T>,
    scene_angle: Option<T>,
    scene_focal: Option<T>,
) -> Option<FovSource<T>> {
    if let Some(a) = frame_angle {
        Some(FovSource::Angle(a))
    } else if let Some(f) = frame_focal {
        Some(FovSource::Focal(f))
    } else if let Some(a) = scene_angle {
        Some(FovSource::Angle(a))
    } else if let Some(f) = scene_focal {
        Some(FovSource::Focal(f))
    } else {
        None
    }
}

fn choose_fov_source<T: Copy>(
    frame_angle: Option<T>,
    frame_focal: Option<T>,
    scene_angle: Option<T>,
    scene_focal: Option<T>,
) -> (r: Option<FovSource<T>>)
    ensures
        r == fov_source(frame_angle, frame_focal, scene_angle, scene_focal),
{
    if let Some(a) = frame_angle {
        Some(FovSource::Angle(a))
    } else if let Some(f) = frame_focal {
        Some(FovSource::Focal(f))
    } else if let Some(a) = scene_angle {
        Some(FovSource::Angle(a))
    } else if let Some(f) = scene_focal {
        Some(FovSource::Focal(f))
    } else {
        None
    }
}

/// The fields of view of a frame. Where only one is given, the other is that of
/// the same focal length.
#[derive(Copy, Debug)]
pub enum FovPlan<T> {
    Both(FovSource<T>, FovSource<T>),
    OnlyX(FovSource<T>),
    OnlyY(FovSource<T>),
}

impl<T: Copy> Clone for FovPlan<T> {
    fn clone(&self) -> (r: Self)
        ensures
            r == *self,
    {
        *self
    }
}

/// The fields of view of a frame, or nothing where none is given.
pub open spec fn fov_plan<T>(x: Option<FovSource<T>>, y: Option<FovSource<T>>) -> Option<
    FovPlan<T>,
> {
    match (x, y) {
        (None, None) => None,
        (None, Some(y)) => Some(FovPlan::OnlyY(y)),
        (Some(x), None) => Some(FovPlan::OnlyX(x)),
        (Some(x), Some(y)) => Some(FovPlan::Both(x, y)),
    }
}

/// How a frame's camera is built: its model, its fields of view, its principal
/// point (the middle of the image where it is not given) and its size (that of
/// the image where it is not given).
#[derive(Copy, Debug)]
pub struct CameraPlan<T> {
    pub camera_model: CameraModel<T>,
    pub fov: FovPlan<T>,
    pub cx: Option<T>,
    pub cy: Option<T>,
    pub size: Option<(T, T)>,
}

impl<T: Copy> Clone for CameraPlan<T> {
    fn clone(&self) -> (r: Self)
        ensures
            r == *self,
    {
        *self
    }
}

/// The size that is given, where both sides are.
pub open spec fn given_size<T>(w: Option<T>, h: Option<T>) -> Option<(T, T)> {
    match (w, h) {
        (Some(w), Some(h)) => Some((w, h)),
        _ => None,
    }
}

/// The size that is given for a frame.
pub open spec fn frame_size<T>(frame: CameraData<T>, scene: CameraData<T>) -> Option<(T, T)> {
    given_size(first_of(frame.w, scene.w), first_of(frame.h, scene.h))
}

/// The model's name that holds for a frame.
pub open spec fn model_name<T>(frame: CameraData<T>, scene: CameraData<T>) -> Option<Seq<char>> {
    match frame.camera_model {
        Some(name) => Some(name@),
        None => match scene.camera_model {
            Some(name) => Some(name@),
            None => None,
        },
    }
}

/// The coefficients that hold for a frame.
pub open spec fn distortion_of<T>(frame: CameraData<T>, scene: CameraData<T>) -> Distortion<T> {
    Distortion {
        k1: first_of(frame.k1, scene.k1),
        k2: first_of(frame.k2, scene.k2),
        k3: first_of(frame.k3, scene.k3),
        k4: first_of(frame.k4, scene.k4),
        p1: first_of(frame.p1, scene.p1),
        p2: first_of(frame.p2, scene.p2),
    }
}

/// The camera of a frame, or the message of an error.
pub open spec fn planned_camera<T>(frame: CameraData<T>, scene: CameraData<T>, zero: T) -> Result<
    CameraPlan<T>,
    Seq<char>,
> {
    let x = fov_source(
        frame.camera_angle_x,
        frame.fl_x,
        scene.camera_angle_x,
        scene.fl_x,
    );
    let y = fov_source(
        frame.camera_angle_y,
        frame.fl_y,
        scene.camera_angle_y,
        scene.fl_y,
    );
    let name = model_name(frame, scene);
    match named_model(name, distortion_of(frame, scene), zero) {
        None => Err(unsupported_message(name->0)),
        Some(camera_model) => match fov_plan(x, y) {
            None => Err("Must have some kind of focal length"@),
            Some(fov) => Ok(
                CameraPlan {
                    camera_model,
                    fov,
                    cx: first_of(frame.cx, scene.cx),
                    cy: first_of(frame.cy, scene.cy),
                    size: frame_size(frame, scene),
                },
            ),
        },
    }
}

/// The camera model that holds for a frame, with its coefficients.
fn frame_model<T: Copy>(frame: &CameraData<T>, scene: &CameraData<T>, zero: T) -> (r: Result<
    CameraModel<T>,
    FormatError,
>)
    ensures
        match named_model(model_name(*frame, *scene), distortion_of(*frame, *scene), zero) {
            Some(model) => r == Ok::<CameraModel<T>, FormatError>(model),
            None => r matches Err(FormatError::InvalidCamera(m)) && m@ == unsupported_message(
                model_name(*frame, *scene)->0,
            ),
        },
{
    let d = Distortion {
        k1: either(frame.k1, scene.k1),
        k2: either(frame.k2, scene.k2),
        k3: either(frame.k3, scene.k3),
        k4: either(frame.k4, scene.k4),
        p1: either(frame.p1, scene.p1),
        p2: either(frame.p2, scene.p2),
    };
    let name = match &frame.camera_model {
        Some(name) => Some(name),
        None => match &scene.camera_model {
            Some(name) => Some(name),
            None => None,
        },
    };
    assert(name_text(name) == model_name(*frame, *scene));
    resolve_camera_model(name, &d, zero)
}

/// The image of a frame gets a mask outside the circle of its lens.
pub open spec fn frame_gets_vignette_mask<T>(
    frame: CameraData<T>,
    scene: CameraData<T>,
    zero: T,
    has_mask: bool,
    config: LoadDatasetConfig,
) -> bool {
    match named_model(model_name(frame, scene), distortion_of(frame, scene), zero) {
        Some(model) => gets_vignette_mask(model, has_mask, config),
        None => false,
    }
}

/// A frame's image gets a mask exactly where the name of a fisheye holds for it, its own or
/// else the scene's, it has no mask, and the option is on.
pub proof fn lemma_fisheye_frames_get_masks<T>(
    frame: CameraData<T>,
    scene: CameraData<T>,
    zero: T,
    has_mask: bool,
    config: LoadDatasetConfig,
)
    ensures
        ({
            let name = if frame.camera_model is Some {
                frame.camera_model->0@
            } else {
                scene.camera_model->0@
            };
            frame_gets_vignette_mask(frame, scene, zero, has_mask, config) <==> {
                &&& frame.camera_model is Some || scene.camera_model is Some
                &&& name == "OPENCV_FISHEYE"@ || name == "opencv_fisheye"@
                &&& !has_mask
                &&& config.fisheye_vignette_mask
            }
        }),
{
    reveal_strlit("PERSPECTIVE");
    reveal_strlit("perspective");
    reveal_strlit("OPENCV");
    reveal_strlit("opencv");
    reveal_strlit("OPENCV_FISHEYE");
    reveal_strlit("opencv_fisheye");
    assert("OPENCV_FISHEYE"@.len() == 14 && "opencv_fisheye"@.len() == 14);
    assert("PERSPECTIVE"@.len() == 11 && "perspective"@.len() == 11);
    assert("OPENCV"@.len() == 6 && "opencv"@.len() == 6);
}

/// What the horizontal field of view is taken from, where it is given.
pub open spec fn horizontal<T>(fov: FovPlan<T>) -> Option<FovSource<T>> {
    match fov {
        FovPlan::Both(x, _) => Some(x),
        FovPlan::OnlyX(x) => Some(x),
        FovPlan::OnlyY(_) => None,
    }
}

/// What the vertical field of view is taken from, where it is given.
pub open spec fn vertical<T>(fov: FovPlan<T>) -> Option<FovSource<T>> {
    match fov {
        FovPlan::Both(_, y) => Some(y),
        FovPlan::OnlyX(_) => None,
        FovPlan::OnlyY(y) => Some(y),
    }
}

/// The number of the frame, else that of the scene, else zero.
pub open spec fn given_number<T>(frame: Option<T>, scene: Option<T>, zero: T) -> T {
    if frame is Some {
        frame->0
    } else if scene is Some {
        scene->0
    } else {
        zero
    }
}

/// Some angle or focal length is given, along either axis.
pub open spec fn gives_a_field_of_view<T>(frame: CameraData<T>, scene: CameraData<T>) -> bool {
    ||| frame.camera_angle_x is Some
    ||| frame.camera_angle_y is Some
    ||| frame.fl_x is Some
    ||| frame.fl_y is Some
    ||| scene.camera_angle_x is Some
    ||| scene.camera_angle_y is Some
    ||| scene.fl_x is Some
    ||| scene.fl_y is Some
}

/// The model's name is one of those that are understood, or there is none.
pub open spec fn is_known_name(frame: Option<String>, scene: Option<String>) -> bool {
    let known = |name: Seq<char>|
        {
            ||| name == "PERSPECTIVE"@
            ||| name == "perspective"@
            ||| name == "OPENCV"@
            ||| name == "opencv"@
            ||| name == "OPENCV_FISHEYE"@
            ||| name == "opencv_fisheye"@
        };
    if frame is Some {
        known(frame->0@)
    } else {
        scene is Some ==> known(scene->0@)
    }
}

/// The fields of view of a plan are taken along each axis apart: what is given along
/// the other axis makes no difference.
pub proof fn lemma_axes_are_planned_apart<T>(
    frame: CameraData<T>,
    scene: CameraData<T>,
    other_frame: CameraData<T>,
    other_scene: CameraData<T>,
    zero: T,
)
    requires
        planned_camera(frame, scene, zero) is Ok,
        planned_camera(other_frame, other_scene, zero) is Ok,
    ensures
        ({
            let fov = planned_camera(frame, scene, zero)->Ok_0.fov;
            let other = planned_camera(other_frame, other_scene, zero)->Ok_0.fov;
            &&& frame.camera_angle_x == other_frame.camera_angle_x && frame.fl_x
                == other_frame.fl_x && scene.camera_angle_x == other_scene.camera_angle_x
                && scene.fl_x == other_scene.fl_x ==> horizontal(fov) == horizontal(other)
            &&& frame.camera_angle_y == other_frame.camera_angle_y && frame.fl_y
                == other_frame.fl_y && scene.camera_angle_y == other_scene.camera_angle_y
                && scene.fl_y == other_scene.fl_y ==> vertical(fov) == vertical(other)
            &&& frame.camera_angle_x is None && frame.fl_x is None ==> (
            scene.camera_angle_x matches Some(a) ==> horizontal(fov) == Some(
                FovSource::Angle(a),
            ))
            &&& frame.camera_angle_y is None && frame.fl_y is None ==> (
            scene.camera_angle_y matches Some(a) ==> vertical(fov) == Some(FovSource::Angle(a)))
        }),
{
}

/// How a frame's camera is built.
pub fn plan_camera<T: Copy>(frame: &CameraData<T>, scene: &CameraData<T>, zero: T) -> (r: Result<
    CameraPlan<T>,
    FormatError,
>)
    ensures
        match planned_camera(*frame, *scene, zero) {
            Ok(plan) => r == Ok::<CameraPlan<T>, FormatError>(plan),
            Err(message) => r matches Err(FormatError::InvalidCamera(m)) && m@ == message,
        },
        (r is Ok) == (is_known_name(frame.camera_model, scene.camera_model)
            && gives_a_field_of_view(*frame, *scene)),
        r matches Ok(plan) ==> {
            &&& horizontal(plan.fov) == (if frame.camera_angle_x is Some {
                Some(FovSource::Angle(frame.camera_angle_x->0))
            } else if frame.fl_x is Some {
                Some(FovSource::Focal(frame.fl_x->0))
            } else if scene.camera_angle_x is Some {
                Some(FovSource::Angle(scene.camera_angle_x->0))
            } else if scene.fl_x is Some {
                Some(FovSource::Focal(scene.fl_x->0))
            } else {
                None
            })
            &&& vertical(plan.fov) == (if frame.camera_angle_y is Some {
                Some(FovSource::Angle(frame.camera_angle_y->0))
            } else if frame.fl_y is Some {
                Some(FovSource::Focal(frame.fl_y->0))
            } else if scene.camera_angle_y is Some {
                Some(FovSource::Angle(scene.camera_angle_y->0))
            } else if scene.fl_y is Some {
                Some(FovSource::Focal(scene.fl_y->0))
            } else {
                None
            })
            &&& plan.cx == (if frame.cx is Some {
                frame.cx
            } else {
                scene.cx
            })
            &&& plan.cy == (if frame.cy is Some {
                frame.cy
            } else {
                scene.cy
            })
            &&& (plan.size is Some) == ((frame.w is Some || scene.w is Some) && (frame.h is Some
                || scene.h is Some))
            &&& plan.size matches Some((w, h)) ==> {
                &&& Some(w) == (if frame.w is Some {
                    frame.w
                } else {
                    scene.w
                })
                &&& Some(h) == (if frame.h is Some {
                    frame.h
                } else {
                    scene.h
                })
            }
            &&& plan.camera_model matches CameraModel::KannalaBrandt4(k) ==> {
                &&& k.k1 == given_number(frame.k1, scene.k1, zero)
                &&& k.k2 == given_number(frame.k2, scene.k2, zero)
                &&& k.k3 == given_number(frame.k3, scene.k3, zero)
                &&& k.k4 == given_number(frame.k4, scene.k4, zero)
            }
            &&& plan.camera_model matches CameraModel::RadialTangential8(k) ==> {
                &&& k.k1 == given_number(frame.k1, scene.k1, zero)
                &&& k.k2 == given_number(frame.k2, scene.k2, zero)
                &&& k.p1 == given_number(frame.p1, scene.p1, zero)
                &&& k.p2 == given_number(frame.p2, scene.p2, zero)
                &&& k.k3 == zero && k.k4 == zero && k.k5 == zero && k.k6 == zero
            }
        },
{
    let camera_model = match frame_model(frame, scene, zero) {
        Ok(model) => model,
        Err(e) => {
            return Err(e);
        },
    };
    let x = choose_fov_source(
        frame.camera_angle_x,
        frame.fl_x,
        scene.camera_angle_x,
        scene.fl_x,
    );
    let y = choose_fov_source(
        frame.camera_angle_y,
        frame.fl_y,
        scene.camera_angle_y,
        scene.fl_y,
    );
    let fov = match (x, y) {
        (None, None) => {
            return Err(
                FormatError::InvalidCamera("Must have some kind of focal length".to_owned()),
            );
        },
        (None, Some(y)) => FovPlan::OnlyY(y),
        (Some(x), None) => FovPlan::OnlyX(x),
        (Some(x), Some(y)) => FovPlan::Both(x, y),
    };
    let size = match (either(frame.w, scene.w), either(frame.h, scene.h)) {
        (Some(w), Some(h)) => Some((w, h)),
        _ => None,
    };
    Ok(
        CameraPlan {
            camera_model,
            fov,
            cx: either(frame.cx, scene.cx),
            cy: either(frame.cy, scene.cy),
            size,
        },
    )
}

/// How many numbers the rows hold together.
pub open spec fn element_count<T>(rows: Seq<Vec<T>>) -> int
    decreases rows.len(),
{
    if rows.len() == 0 {
        0
    } else {
        element_count(rows.drop_last()) + rows.last()@.len()
    }
}

proof fn lemma_element_count_grows<T>(rows: Seq<Vec<T>>, i: int)
    requires
        0 <= i <= rows.len(),
    ensures
        0 <= element_count(rows.take(i)) <= element_count(rows),
    decreases rows.len(),
{
    if i == rows.len() {
        assert(rows.take(i) == rows);
        if rows.len() > 0 {
            lemma_element_count_grows(rows.drop_last(), i - 1);
            assert(rows.drop_last().take(i - 1) == rows.drop_last());
        }
    } else {
        lemma_element_count_grows(rows.drop_last(), i);
        assert(rows.drop_last().take(i) == rows.take(i));
    }
}

/// The numbers of two runs of rows add up, and one row adds its own.
pub proof fn lemma_element_count<T>(a: Seq<Vec<T>>, b: Seq<Vec<T>>, row: Vec<T>)
    ensures
        element_count(a + b) == element_count(a) + element_count(b),
        element_count(seq![row]) == row@.len(),
        element_count(Seq::<Vec<T>>::empty()) == 0,
    decreases b.len(),
{
    assert(seq![row].drop_last() =~= Seq::<Vec<T>>::empty());
    assert(element_count(Seq::<Vec<T>>::empty()) == 0);
    if b.len() == 0 {
        assert(a + b =~= a);
    } else {
        lemma_element_count(a, b.drop_last(), row);
        assert((a + b).drop_last() =~= a + b.drop_last());
    }
}

/// The message on a pose that is not four by four.
pub open spec fn matrix_message(file_path: Seq<char>, count: nat) -> Seq<char> {
    "frame '"@ + file_path + "' has a "@ + decimal_text(count)
        + "-element transform_matrix, expected a 4x4 (16 elements)"@
}

/// How many numbers the rows hold together.
fn count_elements<T>(rows: &Vec<Vec<T>>) -> (r: u64)
    requires
        element_count(rows@) <= u64::MAX,
    ensures
        r == element_count(rows@),
{
    let mut total: u64 = 0;
    let mut i: usize = 0;
    while i < rows.len()
        invariant
            i <= rows@.len(),
            total == element_count(rows@.take(i as int)),
            element_count(rows@) <= u64::MAX,
        decreases rows@.len() - i,
    {
        proof {
            assert(rows@.take(i + 1).drop_last() == rows@.take(i as int));
            lemma_element_count_grows(rows@, i + 1);
        }
        total = total + rows[i].len() as u64;
        i = i + 1;
    }
    assert(rows@.take(rows@.len() as int) == rows@);
    total
}

/// The pose of a frame is four by four.
pub fn check_matrix<T>(frame: &FrameData<T>) -> (r: Result<(), FormatError>)
    requires
        element_count(frame.transform_matrix@) <= u64::MAX,
    ensures
        (r is Ok) == (element_count(frame.transform_matrix@) == 16),
        r matches Err(e) ==> e matches FormatError::InvalidFormat(m) && m@ == matrix_message(
            frame.file_path@,
            element_count(frame.transform_matrix@) as nat,
        ),
{
    let count: u64 = count_elements(&frame.transform_matrix);
    if count == 16 {
        return Ok(());
    }
    let mut message = join3("frame '", frame.file_path.as_str(), "' has a ");
    push_decimal(&mut message, count);
    message.append("-element transform_matrix, expected a 4x4 (16 elements)");
    assert(message@ =~= matrix_message(frame.file_path@, count as nat));
    Err(FormatError::InvalidFormat(message))
}

/// Where a frame's image is looked for: beside the file that names it.
pub open spec fn image_file(transforms: Seq<PartView>, file: Seq<PartView>) -> Seq<PartView> {
    path_join(path_parent(transforms)->0, file)
}

/// What comes next in reading a scene.
pub enum FrameAction<T> {
    /// Look whether this image of this frame is there.
    FindImage(usize, VfsPath),
    /// Read the size of the image of this frame from this file.
    ReadSize(usize, VfsPath),
    /// Build the camera of this frame, whose image is in this file.
    BuildCamera(usize, VfsPath, CameraPlan<T>),
    /// All frames are read.
    Done,
}

/// What came of the last action.
#[derive(Clone, Copy, Debug, PartialEq, Eq, Structural)]
pub enum FrameEvent {
    /// Reading begins.
    Start,
    ImageFound,
    ImageMissing,
    /// The size of the image is known.
    SizeRead,
    /// The camera is of use, and the image has a mask of its own or not.
    CameraValid { has_mask: bool },
    CameraInvalid,
}

/// A frame that is a view, and whether its image gets a mask outside the circle
/// of its lens.
#[derive(Clone, Copy, Debug, PartialEq, Eq, Structural)]
pub struct FrameView {
    pub frame: usize,
    pub synthetic_vignette_mask: bool,
}

/// The reading of a scene: the configuration, the frames that are read, how far it
/// has come, the frames that are views, and what was left out.
pub struct TransformsReader {
    pub config: LoadDatasetConfig,
    pub chosen: Vec<usize>,
    pub at: usize,
    pub views: Vec<FrameView>,
    pub warnings: Vec<String>,
}

/// The frames of the views.
pub open spec fn view_frames(views: Seq<FrameView>) -> Seq<usize> {
    views.map_values(|v: FrameView| v.frame)
}

/// Every frame is a view or has left one message, in the order of the frames: the
/// message says that its image is missing, or that its camera is of no use.
pub open spec fn accounts_for<T>(
    frames: Seq<usize>,
    views: Seq<usize>,
    warnings: Seq<Seq<char>>,
    scene: Seq<FrameData<T>>,
) -> bool
    decreases frames.len(),
{
    if frames.len() == 0 {
        views.len() == 0 && warnings.len() == 0
    } else {
        let before = frames.drop_last();
        let name = scene[frames.last() as int].file_path@;
        ||| {
            &&& views.len() > 0
            &&& views.last() == frames.last()
            &&& accounts_for(before, views.drop_last(), warnings, scene)
        }
        ||| {
            &&& warnings.len() > 0
            &&& warnings.last() == not_found_message(name) || warnings.last()
                == bad_camera_message(name)
            &&& accounts_for(before, views, warnings.drop_last(), scene)
        }
    }
}

/// `part` is what is left of `whole` when some of it is left out.
pub open spec fn is_subsequence(part: Seq<usize>, whole: Seq<usize>) -> bool
    decreases whole.len(),
{
    if whole.len() == 0 {
        part.len() == 0
    } else {
        ||| is_subsequence(part, whole.drop_last())
        ||| {
            &&& part.len() > 0
            &&& part.last() == whole.last()
            &&& is_subsequence(part.drop_last(), whole.drop_last())
        }
    }
}

/// Where every frame is accounted for, there are as many views and messages as
/// frames, and the views keep the order of the frames.
pub proof fn lemma_views_keep_the_order<T>(
    frames: Seq<usize>,
    views: Seq<usize>,
    warnings: Seq<Seq<char>>,
    scene: Seq<FrameData<T>>,
)
    requires
        accounts_for(frames, views, warnings, scene),
    ensures
        views.len() + warnings.len() == frames.len(),
        is_subsequence(views, frames),
    decreases frames.len(),
{
    if frames.len() > 0 {
        let before = frames.drop_last();
        if views.len() > 0 && views.last() == frames.last() && accounts_for(
            before,
            views.drop_last(),
            warnings,
            scene,
        ) {
            lemma_views_keep_the_order(before, views.drop_last(), warnings, scene);
        } else {
            lemma_views_keep_the_order(before, views, warnings.drop_last(), scene);
        }
    }
}

impl TransformsReader {
    /// The frames that are read are frames of the scene, and each one that was read
    /// is a view or has left a message: the views are in the order of the frames.
    pub open spec fn wf<T>(&self, scene: &JsonScene<T>) -> bool {
        &&& self.at <= self.chosen@.len()
        &&& forall|k: int|
            0 <= k < self.chosen@.len() ==> #[trigger] self.chosen@[k] < scene.frames@.len()
        &&& forall|k: int|
            0 <= k < scene.frames@.len() ==> element_count(
                (#[trigger] scene.frames@[k]).transform_matrix@,
            ) <= u64::MAX
        &&& accounts_for(
            self.chosen@.take(self.at as int),
            view_frames(self.views@),
            texts(self.warnings@),
            scene.frames@,
        )
        &&& self.views@.len() + self.warnings@.len() == self.at
        &&& is_subsequence(view_frames(self.views@), self.chosen@.take(self.at as int))
    }

    /// A reader at the first frame.
    pub fn new<T>(scene: &JsonScene<T>, config: &LoadDatasetConfig) -> (r: TransformsReader)
        requires
            config.subsample_frames matches Some(step) ==> step > 0,
            forall|k: int|
                0 <= k < scene.frames@.len() ==> element_count(
                    (#[trigger] scene.frames@[k]).transform_matrix@,
                ) <= u64::MAX,
        ensures
            r.wf(scene),
            r.chosen@.map_values(|i: usize| i as int) == taken_frames(
                scene.frames@.len() as int,
                frame_step(*config),
                frame_limit(*config),
            ),
            r.config == *config,
            r.at == 0,
            r.views@.len() == 0,
            r.warnings@.len() == 0,
    {
        TransformsReader {
            config: *config,
            chosen: choose_frames(scene.frames.len(), config),
            at: 0,
            views: Vec::new(),
            warnings: Vec::new(),
        }
    }

    /// The event is one that can follow where the reading stands.
    pub open spec fn expects(&self, event: FrameEvent) -> bool {
        event == FrameEvent::Start || self.at < self.chosen@.len()
    }

    /// Asks for the image of the frame it is at, unless all are read or the
    /// frame's pose is not four by four.
    pub open spec fn asks_for_image<T>(
        &self,
        scene: &JsonScene<T>,
        transforms: Seq<PartView>,
        r: Result<FrameAction<T>, FormatError>,
    ) -> bool {
        if self.at == self.chosen@.len() {
            r matches Ok(action) && action is Done
        } else {
            let i = self.chosen@[self.at as int];
            let frame = scene.frames@[i as int];
            let count = element_count(frame.transform_matrix@);
            if count == 16 {
                r matches Ok(FrameAction::FindImage(f, path)) && f == i && path@ == image_file(
                    transforms,
                    frame.file@,
                )
            } else {
                r matches Err(FormatError::InvalidFormat(m)) && m@ == matrix_message(
                    frame.file_path@,
                    count as nat,
                )
            }
        }
    }

    /// Asks for the camera of the frame it is at, unless the frame's model or
    /// field of view is not understood.
    pub open spec fn asks_for_camera<T>(
        &self,
        scene: &JsonScene<T>,
        transforms: Seq<PartView>,
        zero: T,
        r: Result<FrameAction<T>, FormatError>,
    ) -> bool {
        let i = self.chosen@[self.at as int];
        let frame = scene.frames@[i as int];
        match planned_camera(frame.camera, scene.camera, zero) {
            Ok(plan) => {
                r matches Ok(FrameAction::BuildCamera(f, path, p)) && f == i && p == plan && path@
                    == with_default_extension(image_file(transforms, frame.file@), "png"@)
            },
            Err(message) => {
                r matches Err(FormatError::InvalidCamera(m)) && m@ == message
            },
        }
    }

    fn ask_for_camera<T: Copy>(&self, scene: &JsonScene<T>, transforms: &VfsPath, zero: T) -> (r:
        Result<FrameAction<T>, FormatError>)
        requires
            self.wf(scene),
            self.at < self.chosen@.len(),
            path_parent(transforms@) is Some,
        ensures
            self.asks_for_camera(scene, transforms@, zero, r),
    {
        let i: usize = self.chosen[self.at];
        let frame = &scene.frames[i];
        match plan_camera(&frame.camera, &scene.camera, zero) {
            Ok(plan) => {
                let path = transforms.parent().unwrap().join(&frame.file).with_default_extension(
                    "png",
                );
                Ok(FrameAction::BuildCamera(i, path, plan))
            },
            Err(e) => Err(e),
        }
    }

    fn ask_for_image<T>(&self, scene: &JsonScene<T>, transforms: &VfsPath) -> (r: Result<
        FrameAction<T>,
        FormatError,
    >)
        requires
            self.wf(scene),
            path_parent(transforms@) is Some,
        ensures
            self.asks_for_image(scene, transforms@, r),
    {
        if self.at == self.chosen.len() {
            return Ok(FrameAction::Done);
        }
        let i: usize = self.chosen[self.at];
        let frame = &scene.frames[i];
        match check_matrix(frame) {
            Err(e) => Err(e),
            Ok(_) => Ok(
                FrameAction::FindImage(i, transforms.parent().unwrap().join(&frame.file)),
            ),
        }
    }

    /// Takes what came of the last action and says what comes next.
    ///
    /// A frame whose image is missing, or whose camera is of no use, is left out
    /// with a message. The image is looked for under the path as it is named; only
    /// one that is found there and has no extension is then read as a PNG. The size
    /// of an image is read where it is not given. A frame whose pose, model or field
    /// of view is not understood ends the reading. A view of a fisheye lens without
    /// a mask of its own gets one, if the configuration says so. When all is done,
    /// every selected frame is a view or has left one message, and the views are in
    /// the order of the frames.
    pub fn advance<T: Copy>(
        &mut self,
        scene: &JsonScene<T>,
        transforms: &VfsPath,
        event: FrameEvent,
        zero: T,
    ) -> (r: Result<FrameAction<T>, FormatError>)
        requires
            old(self).wf(scene),
            old(self).expects(event),
            path_parent(transforms@) is Some,
        ensures
            final(self).wf(scene),
            final(self).config == old(self).config,
            final(self).chosen == old(self).chosen,
            r matches Ok(FrameAction::Done) ==> {
                let done = *final(self);
                &&& accounts_for(
                    done.chosen@,
                    view_frames(done.views@),
                    texts(done.warnings@),
                    scene.frames@,
                )
                &&& done.views@.len() + done.warnings@.len() == done.chosen@.len()
                &&& is_subsequence(view_frames(done.views@), done.chosen@)
            },
            ({
                let i = old(self).chosen@[old(self).at as int];
                let frame = scene.frames@[i as int];
                match event {
                    FrameEvent::Start => {
                        &&& *final(self) == *old(self)
                        &&& old(self).asks_for_image(scene, transforms@, r)
                    },
                    FrameEvent::ImageFound => {
                        &&& *final(self) == *old(self)
                        &&& if frame_size(frame.camera, scene.camera) is Some {
                            old(self).asks_for_camera(scene, transforms@, zero, r)
                        } else {
                            r matches Ok(FrameAction::ReadSize(f, path)) && f == i && path@
                                == with_default_extension(
                                image_file(transforms@, frame.file@),
                                "png"@,
                            )
                        }
                    },
                    FrameEvent::SizeRead => {
                        &&& *final(self) == *old(self)
                        &&& old(self).asks_for_camera(scene, transforms@, zero, r)
                    },
                    FrameEvent::ImageMissing => {
                        &&& final(self).at == old(self).at + 1
                        &&& final(self).views == old(self).views
                        &&& texts(final(self).warnings@) == texts(old(self).warnings@).push(
                            not_found_message(frame.file_path@),
                        )
                        &&& final(self).asks_for_image(scene, transforms@, r)
                    },
                    FrameEvent::CameraValid { has_mask } => {
                        &&& final(self).at == old(self).at + 1
                        &&& final(self).views@ == old(self).views@.push(
                            FrameView {
                                frame: i,
                                synthetic_vignette_mask: frame_gets_vignette_mask(
                                    frame.camera,
                                    scene.camera,
                                    zero,
                                    has_mask,
                                    old(self).config,
                                ),
                            },
                        )
                        &&& final(self).warnings == old(self).warnings
                        &&& final(self).asks_for_image(scene, transforms@, r)
                    },
                    FrameEvent::CameraInvalid => {
                        &&& final(self).at == old(self).at + 1
                        &&& final(self).views == old(self).views
                        &&& texts(final(self).warnings@) == texts(old(self).warnings@).push(
                            bad_camera_message(frame.file_path@),
                        )
                        &&& final(self).asks_for_image(scene, transforms@, r)
                    },
                }
            }),
    {
        assert(self.chosen@.take(self.chosen@.len() as int) =~= self.chosen@);
        match event {
            FrameEvent::Start => {
                return self.ask_for_image(scene, transforms);
            },
            _ => {},
        }
        let i: usize = self.chosen[self.at];
        let frame = &scene.frames[i];
        let ghost before = texts(self.warnings@);
        match event {
            FrameEvent::ImageFound => {
                let w = either(frame.camera.w, scene.camera.w);
                let h = either(frame.camera.h, scene.camera.h);
                if w.is_some() && h.is_some() {
                    return self.ask_for_camera(scene, transforms, zero);
                }
                let path = transforms.parent().unwrap().join(&frame.file).with_default_extension(
                    "png",
                );
                return Ok(FrameAction::ReadSize(i, path));
            },
            FrameEvent::SizeRead => {
                return self.ask_for_camera(scene, transforms, zero);
            },
            FrameEvent::CameraValid { has_mask } => {
                let mask: bool = match frame_model(&frame.camera, &scene.camera, zero) {
                    Ok(model) => synthetic_vignette_mask(&model, has_mask, &self.config),
                    Err(_) => false,
                };
                self.views.push(FrameView { frame: i, synthetic_vignette_mask: mask });
            },
            FrameEvent::ImageMissing => {
                self.warnings.push(
                    join3("Skipped '", frame.file_path.as_str(), "': image file not found"),
                );
                assert(texts(self.warnings@) =~= before.push(
                    not_found_message(frame.file_path@),
                ));
            },
            _ => {
                self.warnings.push(
                    join3(
                        "Skipped '",
                        frame.file_path.as_str(),
                        "': camera contains nan or inf values",
                    ),
                );
                assert(texts(self.warnings@) =~= before.push(
                    bad_camera_message(frame.file_path@),
                ));
            },
        }
        assert(self.at < self.chosen.len() <= usize::MAX);
        self.at = self.at + 1;
        proof {
            let frames = self.chosen@.take(self.at as int);
            let views = view_frames(self.views@);
            assert(frames.drop_last() =~= self.chosen@.take(old(self).at as int));
            if event is CameraValid {
                assert(views.drop_last() =~= view_frames(old(self).views@));
            } else {
                assert(texts(self.warnings@).drop_last() =~= before);
            }
            lemma_views_keep_the_order(frames, views, texts(self.warnings@), scene.frames@);
        }
        self.ask_for_image(scene, transforms)
    }
}

/// The first file of the list with this name.
pub open spec fn is_first_named(files: Seq<Seq<PartView>>, name: Seq<char>, i: int) -> bool {
    &&& 0 <= i < files.len()
    &&& path_ends_with(files[i], name)
    &&& forall|j: int| 0 <= j < i ==> !path_ends_with(#[trigger] files[j], name)
}

/// The first file of the list with this name.
pub fn find_named(files: &Vec<VfsPath>, name: &str) -> (r: Option<usize>)
    ensures
        r matches Some(i) ==> is_first_named(path_views(files@), name@, i as int),
        r is None ==> forall|j: int|
            0 <= j < files@.len() ==> !path_ends_with((#[trigger] files@[j])@, name@),
{
    let mut i: usize = 0;
    while i < files.len()
        invariant
            i <= files@.len(),
            forall|j: int| 0 <= j < i ==> !path_ends_with((#[trigger] files@[j])@, name@),
        decreases files@.len() - i,
    {
        if files[i].ends_with(name) {
            assert forall|j: int| 0 <= j < i implies !path_ends_with(
                #[trigger] path_views(files@)[j],
                name@,
            ) by {
                assert(!path_ends_with(files@[j]@, name@));
            }
            return Some(i);
        }
        i = i + 1;
    }
    None
}

/// No file of the list has this name.
pub open spec fn none_named(files: Seq<VfsPath>, name: Seq<char>) -> bool {
    forall|j: int| 0 <= j < files.len() ==> !path_ends_with((#[trigger] files[j])@, name)
}

/// The file that describes the views for evaluation, among those in JSON: the
/// one for validation, else the one for tests.
pub fn find_eval_file(json_files: &Vec<VfsPath>) -> (r: Option<usize>)
    ensures
        r matches Some(i) ==> {
            ||| is_first_named(path_views(json_files@), "transforms_val.json"@, i as int)
            ||| none_named(json_files@, "transforms_val.json"@) && is_first_named(
                path_views(json_files@),
                "transforms_test.json"@,
                i as int,
            )
        },
        r is None ==> none_named(json_files@, "transforms_val.json"@) && none_named(
            json_files@,
            "transforms_test.json"@,
        ),
{
    match find_named(json_files, "transforms_val.json") {
        Some(i) => Some(i),
        None => find_named(json_files, "transforms_test.json"),
    }
}

/// The file that describes the scene: the only one in JSON, or else the first
/// named for a scene, or else the first named for training.
pub fn find_transforms_file(
    json_files: &Vec<VfsPath>,
    transforms: &Vec<VfsPath>,
    transforms_train: &Vec<VfsPath>,
) -> (r: Option<VfsPath>)
    ensures
        match (if json_files@.len() == 1 {
            Some(json_files@[0]@)
        } else if transforms@.len() > 0 {
            Some(transforms@[0]@)
        } else if transforms_train@.len() > 0 {
            Some(transforms_train@[0]@)
        } else {
            None
        }) {
            Some(path) => r matches Some(p) && p@ == path,
            None => r is None,
        },
{
    if json_files.len() == 1 {
        Some(json_files[0].copy())
    } else if transforms.len() > 0 {
        Some(transforms[0].copy())
    } else if transforms_train.len() > 0 {
        Some(transforms_train[0].copy())
    } else {
        None
    }
}

/// The views for training, then those for evaluation. Views are set aside for
/// evaluation only where the scene does not bring its own.
pub open spec fn assembled<V>(train: Seq<V>, val: Option<Seq<V>>, every: Option<usize>) -> (
    Seq<V>,
    Seq<V>,
) {
    match val {
        Some(val) => (train, val),
        None => eval_split(train, every),
    }
}

/// The views for training, then those for evaluation.
pub fn assemble_views<V>(train: Vec<V>, val: Option<Vec<V>>, every: Option<usize>) -> (r: (
    Vec<V>,
    Vec<V>,
))
    requires
        every matches Some(every) ==> every > 0 || train@.len() == 0,
    ensures
        (r.0@, r.1@) == assembled(
            train@,
            match val {
                Some(val) => Some(val@),
                None => None,
            },
            every,
        ),
{
    match val {
        Some(val) => (train, val),
        None => split_eval_every(train, every),
    }
}

/// A scene's own views for evaluation are taken as they are, and then every other view is
/// for training. Without them, and without a step, there are no views for evaluation.
pub proof fn lemma_assembled<V>(train: Seq<V>, val: Seq<V>, every: Option<usize>)
    ensures
        assembled(train, Some(val), every) == (train, val),
        assembled(train, None, None) == (train, Seq::<V>::empty()),
        every matches Some(step) ==> step > 0 ==> {
            let r = assembled(train, None, every);
            &&& r.0.len() + r.1.len() == train.len()
            &&& r.1.len() == (train.len() + step - 1) / step as int
            &&& r.1.len() > 0 ==> r.1[0] == train[0]
        },
{
    if let Some(step) = every {
        if step > 0 {
            lemma_split_is_partition(train, step as int);
            let r = assembled(train, None, every);
            if r.1.len() > 0 {
                assert(is_multiple(train, step as int, 0));
            }
        }
    }
}

} // verus!
