use brush::config::{
    is_size_text, parse_size, AlphaMode, LoadDatasetConfig, ModelConfig, SizeError,
    DEFAULT_MAX_SCENE_BATCH_CACHE_SIZE,
};

#[test]
fn sizes_with_units() {
    assert_eq!(parse_size("6G"), Ok(6_000_000_000));
    assert_eq!(parse_size("6000M"), Ok(6_000_000_000));
    assert_eq!(parse_size("6000MiB"), Ok(6_291_456_000));
    assert_eq!(parse_size("6000MB"), Ok(6_000_000_000));
    assert_eq!(parse_size("42"), Ok(42));
}

#[test]
fn default_cache_size_is_six_gibibytes() {
    assert_eq!(parse_size(DEFAULT_MAX_SCENE_BATCH_CACHE_SIZE), Ok(6 << 30));
}

#[test]
fn sizes_that_are_none() {
    assert_eq!(parse_size(""), Err(SizeError::Empty));
    assert_eq!(parse_size("six"), Err(SizeError::InvalidDigit));
    assert_eq!(parse_size("18446744073709551616"), Err(SizeError::PosOverflow));
}

#[test]
fn texts_without_a_place_for_rounding() {
    assert!(is_size_text("18446744073709551615"));
    assert!(is_size_text("184467440737095516154"));
    assert!(!is_size_text("184467440737095516155"));
    assert!(!is_size_text("18_446_744_073_709_551_615.9 k"));
    assert!(is_size_text("18446744073709551615e9"));
    assert!(is_size_text("x184467440737095516155"));
    assert!(is_size_text("00"));
}

#[test]
fn model_config_limits_the_degree() {
    assert_eq!(ModelConfig::new(4), Some(ModelConfig { sh_degree: 4 }));
    assert_eq!(ModelConfig::new(0), Some(ModelConfig { sh_degree: 0 }));
    assert_eq!(ModelConfig::new(5), None);
    assert_eq!(ModelConfig::default().sh_degree, 3);
}

#[test]
fn dataset_defaults() {
    let config = LoadDatasetConfig::with_cache_size(7);
    assert_eq!(config.max_frames, None);
    assert_eq!(config.max_resolution, 1920);
    assert_eq!(config.eval_split_every, None);
    assert_eq!(config.subsample_frames, None);
    assert_eq!(config.subsample_points, None);
    assert_eq!(config.alpha_mode, None::<AlphaMode>);
    assert!(config.fisheye_vignette_mask);
    assert_eq!(config.max_scene_batch_cache_size, 7);
}
