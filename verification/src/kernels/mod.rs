//! The per-splat kernels.
pub(crate) mod algebra;
pub mod chain;
pub mod gradients;
pub mod project_backwards;
pub mod project_forward;
pub mod splat_gradient;
pub mod spread;
pub mod unscented;
pub mod ut_vjp;
pub mod visibility;
