//! Geometric core of a sphere-marching (signed-distance-field) renderer,
//! modelled over exact integer arithmetic.
//!
//! Coordinates are fixed-point values: an `i64` holds a world coordinate
//! scaled by whatever unit the renderer chooses, bounded by `COORD_LIMIT`.
//! Distances are computed with the floor square root, so every distance
//! estimate is the floor of the exact Euclidean value; signs and zeroes of
//! the estimators are exact. Floating-point evaluation is the renderer's
//! concern, not this crate's.

pub mod math;
pub mod geom;
pub mod objects;
