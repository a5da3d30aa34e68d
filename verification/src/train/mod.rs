//! Training: the optimization step, and the refinement that prunes and splits
//! splats.
pub mod collections;
pub mod halves;
pub mod masks;
pub mod meaning;
pub mod min_scale;
pub mod outcome;
pub mod prune;
pub mod readings;
pub mod record;
pub mod refine;
pub mod refine_splats;
pub mod schedule;
pub mod split;
pub mod step;
pub mod table;
pub mod trainer;
