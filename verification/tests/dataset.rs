use brush::camera_model::{
    CameraModel, KannalaBrandt4Params, RadialTangential8Params, ThinPrismFisheyeParams,
};
use brush::config::LoadDatasetConfig;
use brush::dataset::colmap::{
    build_camera_model, choose_frames, choose_points, find_beside, images_path, list_points,
    load_dataset_inner, point_color, select_colmap_model, select_images, ColmapCamera,
    ColmapCameraModel, ColmapDataset, ColmapImage, ColmapPoint, ImageLookup,
};
use brush::dataset::nerfstudio::{
    assemble_views, check_matrix, find_eval_file, find_named, find_transforms_file, plan_camera,
    resolve_camera_model, CameraData, CameraPlan, Distortion, FovPlan, FovSource, FrameAction,
    FrameData, FrameEvent, FrameView, JsonScene, TransformsReader,
};
use brush::dataset::split::{split_eval_every, take_frames};
use brush::dataset::{synthetic_vignette_mask, FormatError};
use brush::path::{Part, VfsPath};
use brush::text::{join3, order_names, push_decimal, push_signed, sort_by_name, NameOrder};

fn config() -> LoadDatasetConfig {
    LoadDatasetConfig {
        max_frames: None,
        max_resolution: 1920,
        eval_split_every: None,
        subsample_frames: None,
        subsample_points: None,
        alpha_mode: None,
        fisheye_vignette_mask: true,
        max_scene_batch_cache_size: 0,
    }
}

/// A path from text: parts between slashes, the first empty for the root.
fn path(text: &str) -> VfsPath {
    let mut parts = Vec::new();
    for (i, p) in text.split('/').enumerate() {
        match p {
            "" if i == 0 => parts.push(Part::Root),
            "." => parts.push(Part::Current),
            ".." => parts.push(Part::Parent),
            _ => parts.push(Part::Normal(p.to_string())),
        }
    }
    VfsPath { parts }
}

fn text(path: &VfsPath) -> String {
    let names: Vec<&str> = path
        .parts
        .iter()
        .map(|p| match p {
            Part::Root => "",
            Part::Current => ".",
            Part::Parent => "..",
            Part::Normal(name) => name.as_str(),
        })
        .collect();
    names.join("/")
}

fn paths(texts: &[&str]) -> Vec<VfsPath> {
    texts.iter().map(|t| path(t)).collect()
}

#[test]
fn names_are_ordered_as_text() {
    assert!(matches!(order_names("a", "b"), NameOrder::Before));
    assert!(matches!(order_names("b", "a"), NameOrder::After));
    assert!(matches!(order_names("ab", "ab"), NameOrder::Same));
    assert!(matches!(order_names("a", "ab"), NameOrder::Before));
    assert!(matches!(order_names("Z", "a"), NameOrder::Before));
    assert!(matches!(order_names("\u{7f}", "\u{80}"), NameOrder::Before));
    assert!(matches!(order_names("\u{ffff}", "\u{10000}"), NameOrder::Before));
}

#[test]
fn numbers_as_text() {
    let mut s = String::from("n=");
    push_decimal(&mut s, 0);
    push_decimal(&mut s, 1_234_567_890_123);
    push_signed(&mut s, -45);
    push_signed(&mut s, i32::MIN);
    assert_eq!(s, "n=01234567890123-45-2147483648");
    assert_eq!(join3("a", "", "bc"), "abc");
}

#[test]
fn sorting_keeps_equal_names_in_place() {
    let names: Vec<String> = ["b", "a", "c", "a", "b"].iter().map(|s| s.to_string()).collect();
    assert_eq!(sort_by_name(&names), [1, 3, 0, 4, 2]);
    assert_eq!(sort_by_name(&Vec::new()), Vec::<usize>::new());
}

#[test]
fn parents_and_siblings() {
    assert_eq!(text(&path("sparse/0/cameras.bin").parent().unwrap()), "sparse/0");
    assert!(path("/").parts.len() == 2 || path("/").parent().is_none());
    assert!(VfsPath { parts: vec![Part::Root] }.parent().is_none());
    assert!(VfsPath { parts: Vec::new() }.parent().is_none());
    assert_eq!(text(&path("a/b").sibling("c").unwrap()), "a/c");
    assert_eq!(text(&path("a/b").join(&path("c/d"))), "a/b/c/d");
    assert_eq!(text(&path("a/b").join(&path("/c/d"))), "/c/d");
}

#[test]
fn endings_and_extensions() {
    assert!(path("a/cameras.bin").ends_with("cameras.bin"));
    assert!(!path("a/my_cameras.bin").ends_with("cameras.bin"));
    assert!(path("a/x.tar.gz").has_extension("gz"));
    assert!(path("a/.hidden").lacks_extension());
    assert!(path("a/plain").lacks_extension());
    assert!(!path("a/dot.").lacks_extension());
    assert_eq!(text(&path("a/plain").with_default_extension("png")), "a/plain.png");
    assert_eq!(text(&path("a/x.jpg").with_default_extension("png")), "a/x.jpg");
    assert_eq!(text(&path("a/.hidden").with_default_extension("png")), "a/.hidden.png");
}

#[test]
fn paths_are_ordered_by_their_parts() {
    assert!(path("a/b").is_before(&path("a/c")));
    assert!(path("a").is_before(&path("a/b")));
    // Parts decide, not characters: `a-` comes after `a`.
    assert!(path("a/z").is_before(&path("a-/b")));
    assert!(!path("a").is_before(&path("a")));
    assert!(path("/a").is_before(&path("a")));
    assert!(path("a/b").same_as(&path("a/b").copy()));
    assert!(!path("a/b").same_as(&path("a")));
}

#[test]
fn frames_are_taken_in_steps() {
    assert_eq!(take_frames(7, 3, usize::MAX), [0, 3, 6]);
    assert_eq!(take_frames(7, 3, 2), [0, 3]);
    assert_eq!(take_frames(0, 1, 5), Vec::<usize>::new());
    assert_eq!(take_frames(3, usize::MAX, 5), [0]);
    let mut c = config();
    assert_eq!(choose_frames(3, &c), [0, 1, 2]);
    c.subsample_frames = Some(2);
    c.max_frames = Some(1);
    assert_eq!(choose_frames(5, &c), [0]);
}

#[test]
fn one_in_so_many_views_is_for_evaluation() {
    assert_eq!(split_eval_every(vec![0, 1, 2, 3, 4], Some(2)), (vec![1, 3], vec![0, 2, 4]));
    assert_eq!(split_eval_every(vec![0, 1], None), (vec![0, 1], vec![]));
    assert_eq!(split_eval_every(vec![0, 1, 2], Some(8)), (vec![1, 2], vec![0]));
    assert_eq!(split_eval_every(Vec::<u8>::new(), Some(0)), (vec![], vec![]));
}

#[test]
fn a_split_is_a_partition() {
    let views: Vec<u32> = (0..17).collect();
    for every in 1..20 {
        let (train, eval) = split_eval_every(views.clone(), Some(every));
        assert_eq!(eval.len(), (17 + every - 1) / every);
        let mut all = train.clone();
        all.extend(&eval);
        all.sort();
        assert_eq!(all, views);
    }
}

#[test]
fn scenes_may_bring_their_own_evaluation_views() {
    assert_eq!(assemble_views(vec![1, 2, 3], Some(vec![4]), Some(2)), (vec![1, 2, 3], vec![4]));
    assert_eq!(assemble_views(vec![1, 2, 3], None, Some(2)), (vec![2], vec![1, 3]));
    assert_eq!(assemble_views(vec![1, 2, 3], None, None), (vec![1, 2, 3], vec![]));
}

fn camera(id: i32, model: ColmapCameraModel) -> ColmapCamera<u32> {
    ColmapCamera { id, model, params: (100..112).collect() }
}

fn rt8(k1: u32, k2: u32, p1: u32, p2: u32) -> RadialTangential8Params<u32> {
    RadialTangential8Params { k1, k2, k3: 0, k4: 0, k5: 0, k6: 0, p1, p2 }
}

#[test]
fn colmap_models_and_their_parameters() {
    let model = |m| build_camera_model(&camera(1, m), 0u32);
    for m in [ColmapCameraModel::SimplePinhole, ColmapCameraModel::Pinhole, ColmapCameraModel::Fov] {
        assert_eq!(model(m), CameraModel::Pinhole);
    }
    assert_eq!(
        model(ColmapCameraModel::SimpleRadial),
        CameraModel::RadialTangential8(rt8(103, 0, 0, 0))
    );
    assert_eq!(
        model(ColmapCameraModel::Radial),
        CameraModel::RadialTangential8(rt8(103, 104, 0, 0))
    );
    assert_eq!(
        model(ColmapCameraModel::OpenCV),
        CameraModel::RadialTangential8(rt8(104, 105, 106, 107))
    );
    assert_eq!(
        model(ColmapCameraModel::FullOpenCV),
        CameraModel::RadialTangential8(RadialTangential8Params {
            k3: 108,
            k4: 109,
            k5: 110,
            k6: 111,
            ..rt8(104, 105, 106, 107)
        })
    );
    assert_eq!(
        model(ColmapCameraModel::SimpleRadialFisheye),
        CameraModel::KannalaBrandt4(KannalaBrandt4Params { k1: 103, k2: 0, k3: 0, k4: 0 })
    );
    assert_eq!(
        model(ColmapCameraModel::RadialFisheye),
        CameraModel::KannalaBrandt4(KannalaBrandt4Params { k1: 103, k2: 104, k3: 0, k4: 0 })
    );
    assert_eq!(
        model(ColmapCameraModel::OpenCvFishEye),
        CameraModel::KannalaBrandt4(KannalaBrandt4Params { k1: 104, k2: 105, k3: 106, k4: 107 })
    );
    assert_eq!(
        model(ColmapCameraModel::ThinPrismFisheye),
        CameraModel::ThinPrismFisheye(ThinPrismFisheyeParams {
            kb4: KannalaBrandt4Params { k1: 104, k2: 105, k3: 108, k4: 109 },
            p1: 106,
            p2: 107,
            sx1: 110,
            sy1: 111,
        })
    );
}

#[test]
fn images_lie_beside_the_cameras() {
    let (binary, images) = images_path(&path("sparse/0/cameras.bin"));
    assert!(binary);
    assert_eq!(text(&images), "sparse/0/images.bin");
    let (binary, images) = images_path(&path("sparse/cameras.txt"));
    assert!(!binary);
    assert_eq!(text(&images), "sparse/images.txt");
    let files = paths(&["sparse/1/points3d.txt", "sparse/0/points3d.bin", "sparse/0/points3d.txt"]);
    assert_eq!(find_beside(&files, &path("sparse/0/cameras.bin")), Some(1));
    assert_eq!(find_beside(&files, &path("sparse/2/cameras.bin")), None);
}

#[test]
fn the_largest_reconstruction_is_taken() {
    let candidates = paths(&["sparse/2/cameras.bin", "sparse/0/cameras.bin", "sparse/1/cameras.bin"]);
    assert_eq!(select_colmap_model(&candidates, &vec![Some(3), Some(9), Some(4)]), Some(1));
    // Ties go to the first path.
    assert_eq!(select_colmap_model(&candidates, &vec![Some(9), Some(3), Some(9)]), Some(2));
    // What cannot be read is passed over.
    assert_eq!(select_colmap_model(&candidates, &vec![Some(3), None, Some(2)]), Some(0));
    // If nothing can be read, the first path is taken.
    assert_eq!(select_colmap_model(&candidates, &vec![None, None, None]), Some(1));
    assert_eq!(select_colmap_model(&paths(&["a/cameras.txt"]), &vec![None]), Some(0));
    assert_eq!(select_colmap_model(&Vec::new(), &Vec::new()), None);
}

fn image(name: &str, camera_id: i32) -> ColmapImage {
    ColmapImage { name: name.to_string(), camera_id }
}

fn lookup(found: bool, has_mask: bool, camera_is_valid: bool) -> ImageLookup {
    ImageLookup { found, has_mask, camera_is_valid }
}

fn load(
    images: Vec<ColmapImage>,
    lookups: Vec<ImageLookup>,
    c: &LoadDatasetConfig,
) -> Result<ColmapDataset<u32>, FormatError> {
    let cameras =
        vec![camera(7, ColmapCameraModel::OpenCvFishEye), camera(-3, ColmapCameraModel::Pinhole)];
    load_dataset_inner(&images, &cameras, &lookups, c, 0)
}

#[test]
fn colmap_views_come_in_the_order_of_their_names() {
    let ok = lookup(true, false, true);
    let d = load(
        vec![image("c.png", 7), image("a.png", -3), image("b.png", 7), image("d.png", 7)],
        vec![ok, ok, lookup(true, true, true), ok],
        &LoadDatasetConfig { eval_split_every: Some(3), ..config() },
    )
    .unwrap();
    let train: Vec<usize> = d.train.iter().map(|v| v.image).collect();
    let eval: Vec<usize> = d.eval.iter().map(|v| v.image).collect();
    assert_eq!((train, eval), (vec![2, 0], vec![1, 3]));
    assert_eq!(d.eval[0].camera, 1);
    assert_eq!(d.eval[0].camera_model, CameraModel::Pinhole);
    assert!(!d.eval[0].synthetic_vignette_mask);
    // A fisheye image without a mask is masked outside its circle.
    assert!(!d.train[0].synthetic_vignette_mask);
    assert!(d.train[1].synthetic_vignette_mask);
    assert!(d.warnings.is_empty());
}

#[test]
fn vignette_masks_can_be_switched_off() {
    let d = load(
        vec![image("c.png", 7)],
        vec![lookup(true, false, true)],
        &LoadDatasetConfig { fisheye_vignette_mask: false, ..config() },
    )
    .unwrap();
    assert!(!d.train[0].synthetic_vignette_mask);
}

#[test]
fn colmap_images_that_are_left_out() {
    let d = load(
        vec![image("b.png", 7), image("a.png", 7), image("c.png", 7)],
        vec![lookup(true, false, false), lookup(false, false, true), lookup(true, false, true)],
        &config(),
    )
    .unwrap();
    assert_eq!(d.train.len(), 1);
    assert_eq!(
        d.warnings,
        [
            "Skipped 'a.png': image file not found",
            "Skipped 'b.png': camera contains nan or inf values",
        ]
    );
}

#[test]
fn a_missing_camera_ends_the_loading() {
    let ok = lookup(true, false, true);
    let r = load(vec![image("b.png", 7), image("a.png", 12)], vec![ok, ok], &config());
    match r {
        Err(FormatError::InvalidFormat(m)) => assert_eq!(
            m,
            "Image 'a.png' references camera ID 12 which doesn't exist in camera data"
        ),
        _ => panic!("no error"),
    }
    // An image that is not loaded needs no camera.
    let r = load(
        vec![image("a.png", 7), image("b.png", 12)],
        vec![ok, ok],
        &LoadDatasetConfig { max_frames: Some(1), ..config() },
    );
    assert_eq!(r.unwrap().train.len(), 1);
}

#[test]
fn points_are_subsampled() {
    let mut c = config();
    assert_eq!(choose_points(0, &c), None);
    assert_eq!(choose_points(2, &c), Some(vec![0, 1]));
    c.subsample_points = Some(2);
    assert_eq!(choose_points(5, &c), Some(vec![0, 2, 4]));
    let color = point_color(0, 51, 255);
    assert!(matches!(&*color.x.node, brush::expr::Expr::Div(_, _)));
}

fn no_distortion() -> Distortion<u32> {
    Distortion { k1: None, k2: None, k3: None, k4: None, p1: None, p2: None }
}

#[test]
fn nerfstudio_models_by_name() {
    let d = Distortion { k1: Some(1), k2: Some(2), k3: Some(3), k4: None, p1: Some(5), p2: None };
    let model = |name: &str| resolve_camera_model(Some(&name.to_string()), &d, 0u32).unwrap();
    assert_eq!(resolve_camera_model(None, &no_distortion(), 0u32).unwrap(), CameraModel::Pinhole);
    for name in ["PERSPECTIVE", "perspective"] {
        assert_eq!(model(name), CameraModel::Pinhole);
    }
    for name in ["OPENCV", "opencv"] {
        assert_eq!(model(name), CameraModel::RadialTangential8(rt8(1, 2, 5, 0)));
    }
    for name in ["OPENCV_FISHEYE", "opencv_fisheye"] {
        assert_eq!(
            model(name),
            CameraModel::KannalaBrandt4(KannalaBrandt4Params { k1: 1, k2: 2, k3: 3, k4: 0 })
        );
    }
}

#[test]
fn nerfstudio_models_that_are_not_known() {
    match resolve_camera_model(Some(&"Opencv".to_string()), &no_distortion(), 0u32) {
        Err(FormatError::InvalidCamera(m)) => {
            assert_eq!(m, "Unsupported nerfstudio camera_model `Opencv`")
        }
        _ => panic!("no error"),
    }
}

fn no_camera() -> CameraData<u32> {
    CameraData {
        camera_model: None,
        camera_angle_x: None,
        camera_angle_y: None,
        fl_x: None,
        fl_y: None,
        cx: None,
        cy: None,
        w: None,
        h: None,
        k1: None,
        k2: None,
        k3: None,
        k4: None,
        p1: None,
        p2: None,
    }
}

fn plan(frame: CameraData<u32>, scene: CameraData<u32>) -> CameraPlan<u32> {
    plan_camera(&frame, &scene, 0).unwrap()
}

#[test]
fn fields_of_view_have_an_order() {
    let all = || CameraData {
        camera_angle_x: Some(1),
        fl_x: Some(2),
        camera_angle_y: Some(3),
        fl_y: Some(4),
        ..no_camera()
    };
    assert!(matches!(
        plan(all(), no_camera()).fov,
        FovPlan::Both(FovSource::Angle(1), FovSource::Angle(3))
    ));
    // A focal length of the frame comes before an angle of the scene.
    let focal = CameraData { fl_x: Some(8), ..no_camera() };
    assert!(matches!(
        plan(focal, all()).fov,
        FovPlan::Both(FovSource::Focal(8), FovSource::Angle(3))
    ));
    let only_y = CameraData { fl_y: Some(9), ..no_camera() };
    assert!(matches!(plan(no_camera(), only_y).fov, FovPlan::OnlyY(FovSource::Focal(9))));
    let only_x = CameraData { camera_angle_x: Some(9), ..no_camera() };
    assert!(matches!(plan(only_x, no_camera()).fov, FovPlan::OnlyX(FovSource::Angle(9))));
}

#[test]
fn frames_come_before_the_scene() {
    let frame = CameraData { fl_x: Some(1), cx: Some(2), w: Some(3), k1: Some(4), ..no_camera() };
    let scene = CameraData {
        camera_model: Some("OPENCV".to_string()),
        cx: Some(12),
        cy: Some(13),
        w: Some(14),
        h: Some(15),
        k1: Some(16),
        k2: Some(17),
        ..no_camera()
    };
    let p = plan(frame, scene);
    assert_eq!((p.cx, p.cy, p.size), (Some(2), Some(13), Some((3, 15))));
    assert_eq!(p.camera_model, CameraModel::RadialTangential8(rt8(4, 17, 0, 0)));
    let p = plan(CameraData { fl_x: Some(1), w: Some(3), ..no_camera() }, no_camera());
    assert_eq!((p.cx, p.size), (None, None));
}

#[test]
fn a_camera_needs_a_field_of_view() {
    match plan_camera(&no_camera(), &no_camera(), 0) {
        Err(FormatError::InvalidCamera(m)) => {
            assert_eq!(m, "Must have some kind of focal length")
        }
        _ => panic!("no error"),
    }
}

fn frame(file: &str, rows: usize) -> FrameData<u32> {
    FrameData {
        camera: CameraData { fl_x: Some(1), ..no_camera() },
        transform_matrix: vec![vec![0; 4]; rows],
        file_path: file.to_string(),
        file: path(file),
    }
}

#[test]
fn poses_are_four_by_four() {
    assert!(check_matrix(&frame("a.png", 4)).is_ok());
    match check_matrix(&frame("a.png", 3)) {
        Err(FormatError::InvalidFormat(m)) => assert_eq!(
            m,
            "frame 'a.png' has a 12-element transform_matrix, expected a 4x4 (16 elements)"
        ),
        _ => panic!("no error"),
    }
}

fn scene(frames: Vec<FrameData<u32>>) -> JsonScene<u32> {
    JsonScene { camera: CameraData { w: Some(640), h: Some(480), ..no_camera() }, frames }
}

#[test]
fn a_scene_is_read_frame_by_frame() {
    let mut s = scene(vec![frame("img/a", 4), frame("img/b.jpg", 4), frame("img/c.jpg", 4)]);
    s.frames[2].camera.w = Some(100);
    let t = path("data/transforms.json");
    let mut r = TransformsReader::new(&s, &config());
    match r.advance(&s, &t, FrameEvent::Start, 0).unwrap() {
        FrameAction::FindImage(0, p) => assert_eq!(text(&p), "data/img/a"),
        _ => panic!("wrong action"),
    }
    match r.advance(&s, &t, FrameEvent::ImageFound, 0).unwrap() {
        FrameAction::BuildCamera(0, p, plan) => {
            assert_eq!(text(&p), "data/img/a.png");
            assert_eq!(plan.size, Some((640, 480)));
        }
        _ => panic!("wrong action"),
    }
    match r.advance(&s, &t, FrameEvent::CameraValid { has_mask: false }, 0).unwrap() {
        FrameAction::FindImage(1, p) => assert_eq!(text(&p), "data/img/b.jpg"),
        _ => panic!("wrong action"),
    }
    assert!(matches!(
        r.advance(&s, &t, FrameEvent::ImageMissing, 0).unwrap(),
        FrameAction::FindImage(2, _)
    ));
    assert!(matches!(
        r.advance(&s, &t, FrameEvent::ImageFound, 0).unwrap(),
        FrameAction::BuildCamera(2, _, _)
    ));
    assert!(matches!(
        r.advance(&s, &t, FrameEvent::CameraInvalid, 0).unwrap(),
        FrameAction::Done
    ));
    assert_eq!(r.views, [FrameView { frame: 0, synthetic_vignette_mask: false }]);
    assert_eq!(
        r.warnings,
        [
            "Skipped 'img/b.jpg': image file not found",
            "Skipped 'img/c.jpg': camera contains nan or inf values",
        ]
    );
}

#[test]
fn sizes_that_are_not_given_are_read() {
    let mut s = scene(vec![frame("a", 4)]);
    s.camera.h = None;
    let t = path("data/transforms.json");
    let mut r = TransformsReader::new(&s, &config());
    r.advance(&s, &t, FrameEvent::Start, 0).unwrap();
    match r.advance(&s, &t, FrameEvent::ImageFound, 0).unwrap() {
        FrameAction::ReadSize(0, p) => assert_eq!(text(&p), "data/a.png"),
        _ => panic!("wrong action"),
    }
    match r.advance(&s, &t, FrameEvent::SizeRead, 0).unwrap() {
        FrameAction::BuildCamera(0, _, plan) => assert_eq!(plan.size, None),
        _ => panic!("wrong action"),
    }
}

#[test]
fn a_bad_frame_ends_the_reading() {
    let t = path("data/transforms.json");
    let s = scene(vec![frame("a.png", 3)]);
    let mut r = TransformsReader::new(&s, &config());
    assert!(matches!(
        r.advance(&s, &t, FrameEvent::Start, 0),
        Err(FormatError::InvalidFormat(_))
    ));
    let mut s = scene(vec![frame("a.png", 4)]);
    s.frames[0].camera.camera_model = Some("FISH".to_string());
    let mut r = TransformsReader::new(&s, &config());
    r.advance(&s, &t, FrameEvent::Start, 0).unwrap();
    assert!(matches!(
        r.advance(&s, &t, FrameEvent::ImageFound, 0),
        Err(FormatError::InvalidCamera(_))
    ));
    let s = scene(Vec::new());
    let mut r = TransformsReader::new(&s, &config());
    assert!(matches!(r.advance(&s, &t, FrameEvent::Start, 0), Ok(FrameAction::Done)));
}

#[test]
fn scene_and_evaluation_files() {
    let files = paths(&["x/transforms_test.json", "x/other.json", "x/transforms_val.json"]);
    assert_eq!(find_eval_file(&files), Some(2));
    assert_eq!(find_named(&files, "other.json"), Some(1));
    let files = paths(&["x/other.json", "x/transforms_test.json"]);
    assert_eq!(find_eval_file(&files), Some(1));
    assert_eq!(find_eval_file(&paths(&["x/my_transforms_val.json"])), None);
    let none = || Vec::new();
    let pick = |a: &[&str], b: &[&str], c: &[&str]| {
        find_transforms_file(&paths(a), &paths(b), &paths(c)).map(|p| text(&p))
    };
    assert_eq!(pick(&["x/only.json"], &[], &[]), Some("x/only.json".to_string()));
    assert_eq!(
        pick(&["a.json", "b.json"], &["t/transforms.json"], &["t/transforms_train.json"]),
        Some("t/transforms.json".to_string())
    );
    assert_eq!(
        pick(&["a.json", "b.json"], &[], &["t/transforms_train.json"]),
        Some("t/transforms_train.json".to_string())
    );
    assert!(find_transforms_file(&paths(&["a.json", "b.json"]), &none(), &none()).is_none());
}

#[test]
fn cameras_need_the_parameters_of_their_model() {
    let mut c = camera(1, ColmapCameraModel::OpenCV);
    assert!(c.has_all_params());
    c.params.truncate(7);
    assert!(!c.has_all_params());
    // A camera that no image names may lack some.
    let cameras = vec![c, camera(2, ColmapCameraModel::Pinhole)];
    let d = load_dataset_inner(
        &vec![image("a.png", 2)],
        &cameras,
        &vec![lookup(true, false, true)],
        &config(),
        0,
    );
    assert_eq!(d.unwrap().train[0].camera, 1);
}

#[test]
fn the_selection_does_not_depend_on_the_order() {
    let names = ["b/cameras.bin", "a/cameras.bin", "c/cameras.txt", "a/cameras.txt"];
    let counts = [Some(4), Some(7), Some(7), None];
    for turn in 0..4 {
        let at = |k: usize| (k + turn) % 4;
        let candidates: Vec<VfsPath> = (0..4).map(|k| path(names[at(k)])).collect();
        let counted = (0..4).map(|k| counts[at(k)]).collect();
        let i = select_colmap_model(&candidates, &counted).unwrap();
        assert_eq!(text(&candidates[i]), "a/cameras.bin");
        let i = select_colmap_model(&candidates, &vec![None; 4]).unwrap();
        assert_eq!(text(&candidates[i]), "a/cameras.bin");
    }
}

#[test]
fn fisheyes_without_a_mask_get_one() {
    let on = config();
    let off = LoadDatasetConfig { fisheye_vignette_mask: false, ..config() };
    let kb4 = CameraModel::KannalaBrandt4(KannalaBrandt4Params { k1: 0u32, k2: 0, k3: 0, k4: 0 });
    let tpf = CameraModel::ThinPrismFisheye(ThinPrismFisheyeParams {
        kb4: KannalaBrandt4Params { k1: 0u32, k2: 0, k3: 0, k4: 0 },
        p1: 0,
        p2: 0,
        sx1: 0,
        sy1: 0,
    });
    for model in [kb4, tpf] {
        assert!(synthetic_vignette_mask(&model, false, &on));
        assert!(!synthetic_vignette_mask(&model, true, &on));
        assert!(!synthetic_vignette_mask(&model, false, &off));
    }
    for model in [CameraModel::Pinhole, CameraModel::RadialTangential8(rt8(1, 2, 3, 4))] {
        assert!(!synthetic_vignette_mask(&model, false, &on));
    }
}

/// Whether the one frame of a scene gets a mask.
fn frame_mask(model: Option<&str>, has_mask: bool, config: &LoadDatasetConfig) -> bool {
    let mut s = scene(vec![frame("a.png", 4)]);
    s.frames[0].camera.camera_model = model.map(|m| m.to_string());
    let t = path("data/transforms.json");
    let mut r = TransformsReader::new(&s, config);
    r.advance(&s, &t, FrameEvent::Start, 0).unwrap();
    r.advance(&s, &t, FrameEvent::ImageFound, 0).unwrap();
    let end = r.advance(&s, &t, FrameEvent::CameraValid { has_mask }, 0).unwrap();
    assert!(matches!(end, FrameAction::Done));
    assert_eq!((r.views.len(), r.views[0].frame), (1, 0));
    r.views[0].synthetic_vignette_mask
}

#[test]
fn fisheye_frames_get_a_mask_too() {
    let off = LoadDatasetConfig { fisheye_vignette_mask: false, ..config() };
    assert!(frame_mask(Some("OPENCV_FISHEYE"), false, &config()));
    assert!(!frame_mask(Some("OPENCV_FISHEYE"), true, &config()));
    assert!(!frame_mask(Some("OPENCV_FISHEYE"), false, &off));
    assert!(!frame_mask(Some("OPENCV"), false, &config()));
    assert!(!frame_mask(None, false, &config()));
}

#[test]
fn images_are_selected_by_name() {
    let images = vec![image("c", 1), image("a", 1), image("d", 1), image("b", 1)];
    assert_eq!(select_images(&images, &config()), [1, 3, 0, 2]);
    let some = LoadDatasetConfig { subsample_frames: Some(2), ..config() };
    assert_eq!(select_images(&images, &some), [1, 0]);
    let one = LoadDatasetConfig { max_frames: Some(1), ..config() };
    assert_eq!(select_images(&images, &one), [1]);
}

#[test]
fn cameras_of_images_that_are_left_out_are_not_read() {
    let mut lacking = camera(7, ColmapCameraModel::OpenCvFishEye);
    lacking.params.clear();
    let cameras = vec![lacking, camera(1, ColmapCameraModel::Pinhole)];
    let images = vec![image("a", 1), image("b", 7)];
    let lookups = vec![lookup(true, false, true), lookup(true, false, true)];
    let one = LoadDatasetConfig { max_frames: Some(1), ..config() };
    let d = load_dataset_inner(&images, &cameras, &lookups, &one, 0).unwrap();
    assert_eq!((d.train.len(), d.train[0].image), (1, 0));
    // Nor are those after an image whose camera is not there.
    let images = vec![image("a", 2), image("b", 7)];
    assert!(matches!(
        load_dataset_inner(&images, &cameras, &lookups, &config(), 0),
        Err(FormatError::InvalidFormat(_))
    ));
}

#[test]
fn a_step_of_zero_splits_no_views() {
    let never = LoadDatasetConfig { eval_split_every: Some(0), ..config() };
    let cameras = vec![camera(1, ColmapCameraModel::Pinhole)];
    let d = load_dataset_inner(
        &vec![image("a", 1)],
        &cameras,
        &vec![lookup(false, false, true)],
        &never,
        0,
    )
    .unwrap();
    assert!(d.train.is_empty() && d.eval.is_empty());
    assert_eq!(d.warnings, ["Skipped 'a': image file not found"]);
}

#[test]
fn chosen_points_are_listed_in_order() {
    let at = |x: u32, red: u8| ColmapPoint { xyz: (x, x + 1, x + 2), rgb: (red, 7, 9) };
    let points = vec![at(10, 1), at(20, 2), at(30, 3)];
    let listed = list_points(&points, &vec![2, 0]);
    assert_eq!(listed.means, [30, 31, 32, 10, 11, 12]);
    assert_eq!(listed.colors.len(), 2);
    match &*listed.colors[0].x.node {
        brush::expr::Expr::Div(a, b) => {
            assert!(matches!(&**a, brush::expr::Expr::Lit { mantissa: 3, exponent: 0 }));
            assert!(matches!(&**b, brush::expr::Expr::Lit { mantissa: 255, exponent: 0 }));
        }
        _ => panic!("no quotient"),
    }
    assert!(list_points(&points, &Vec::new()).means.is_empty());
}

#[test]
fn every_frame_is_a_view_or_leaves_a_message() {
    let names = ["a.png", "b.png", "c.png", "d.png", "e.png"];
    let s = scene(names.iter().map(|name| frame(name, 4)).collect());
    let t = path("data/transforms.json");
    let mut r = TransformsReader::new(&s, &config());
    // Bits say which images are there, and which cameras are of use.
    for (images, cameras) in [(0b11111, 0b11111), (0b01101, 0b11001), (0, 0), (0b10010, 0b00011)] {
        r = TransformsReader { at: 0, views: Vec::new(), warnings: Vec::new(), ..r };
        let mut event = FrameEvent::Start;
        loop {
            event = match r.advance(&s, &t, event, 0).unwrap() {
                FrameAction::Done => break,
                FrameAction::FindImage(i, _) if images >> i & 1 == 1 => FrameEvent::ImageFound,
                FrameAction::FindImage(_, _) => FrameEvent::ImageMissing,
                FrameAction::ReadSize(_, _) => FrameEvent::SizeRead,
                FrameAction::BuildCamera(i, _, _) if cameras >> i & 1 == 1 => {
                    FrameEvent::CameraValid { has_mask: false }
                }
                FrameAction::BuildCamera(_, _, _) => FrameEvent::CameraInvalid,
            };
            assert_eq!(r.views.len() + r.warnings.len(), r.at);
        }
        let frames: Vec<usize> = r.views.iter().map(|v| v.frame).collect();
        let expected: Vec<usize> =
            (0..5).filter(|i| images >> i & cameras >> i & 1 == 1).collect();
        assert_eq!(frames, expected);
        let left_out: Vec<&str> =
            (0..5).filter(|i| !expected.contains(i)).map(|i| names[i]).collect();
        assert_eq!(r.warnings.len(), left_out.len());
        for (warning, name) in r.warnings.iter().zip(left_out) {
            assert!(warning.contains(name));
        }
    }
}

#[test]
fn a_bare_name_is_looked_for_as_it_is() {
    let s = scene(vec![frame("a", 4)]);
    let t = path("data/transforms.json");
    let mut r = TransformsReader::new(&s, &config());
    match r.advance(&s, &t, FrameEvent::Start, 0).unwrap() {
        FrameAction::FindImage(0, p) => assert_eq!(text(&p), "data/a"),
        _ => panic!("wrong action"),
    }
    assert!(matches!(
        r.advance(&s, &t, FrameEvent::ImageMissing, 0).unwrap(),
        FrameAction::Done
    ));
    assert_eq!(r.warnings, ["Skipped 'a': image file not found"]);
}
