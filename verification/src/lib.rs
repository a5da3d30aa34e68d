//! Training of 3D Gaussian splats: camera models, per-splat kernels and their
//! gradients, refinement, and the reading of datasets.
pub mod camera_model;
pub mod config;
pub mod cube;
pub mod dataset;
pub mod expr;
pub mod kernels;
pub mod number;
pub mod path;
pub mod render_bwd;
pub mod render_gradient;
pub mod text;
pub mod train;
