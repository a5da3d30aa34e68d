//! Reading datasets: which files make up a scene, which of its images are used,
//! and for what.
use crate::camera_model::CameraModel;
use crate::config::LoadDatasetConfig;
use vstd::prelude::*;

pub mod colmap;
pub mod nerfstudio;
pub mod split;

verus! {

/// The model is one of a fisheye lens.
pub open spec fn is_fisheye<T>(model: CameraModel<T>) -> bool {
    model is KannalaBrandt4 || model is ThinPrismFisheye
}

/// An image gets a mask outside the circle of its lens where the lens is a fisheye
/// and the option is on, but never over a mask of its own.
pub open spec fn gets_vignette_mask<T>(
    model: CameraModel<T>,
    has_mask: bool,
    config: LoadDatasetConfig,
) -> bool {
    is_fisheye(model) && !has_mask && config.fisheye_vignette_mask
}

/// A mask is made for the fisheye models only, never over one that the image has, and for
/// no image where the option is off; otherwise every image of a fisheye gets one.
pub proof fn lemma_vignette_mask<T>(model: CameraModel<T>, config: LoadDatasetConfig)
    ensures
        !gets_vignette_mask(model, true, config),
        !config.fisheye_vignette_mask ==> !gets_vignette_mask(model, false, config),
        model is Pinhole || model is RadialTangential8 ==> !gets_vignette_mask(
            model,
            false,
            config,
        ),
        config.fisheye_vignette_mask && (model is KannalaBrandt4 || model is ThinPrismFisheye)
            ==> gets_vignette_mask(model, false, config),
{
}

/// Whether an image gets a mask outside the circle of its lens.
pub fn synthetic_vignette_mask<T: Copy>(
    model: &CameraModel<T>,
    has_mask: bool,
    config: &LoadDatasetConfig,
) -> (r: bool)
    ensures
        r == gets_vignette_mask(*model, has_mask, *config),
{
    let fisheye: bool = match model {
        CameraModel::KannalaBrandt4(_) | CameraModel::ThinPrismFisheye(_) => true,
        CameraModel::Pinhole | CameraModel::RadialTangential8(_) => false,
    };
    fisheye && !has_mask && config.fisheye_vignette_mask
}

/// Why a dataset cannot be loaded.
#[derive(Debug)]
pub enum FormatError {
    /// Its files contradict one another, or the format.
    InvalidFormat(String),
    /// A camera is described in a way that is not understood.
    InvalidCamera(String),
}

} // verus!
