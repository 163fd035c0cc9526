//! Distance metrics over fixed-dimensionality points, verified over an
//! abstract coordinate scalar.

pub mod axis;
pub mod distance;
pub mod laws;
