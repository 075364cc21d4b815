//! Points, vectors and colors over fixed-point coordinates.

use vstd::prelude::*;

use crate::math::abs_val;

verus! {

/// Largest coordinate magnitude the model admits. Keeping every coordinate,
/// radius and half-extent within this bound lets every squared norm fit in a
/// `u64` and every distance estimate fit in an `i64`.
pub const COORD_LIMIT: i64 = 1_000_000_000;

/// A position in world space, in fixed-point world units.
#[derive(Clone, Copy, Debug, PartialEq, Eq, Structural)]
pub struct Point3 {
    pub x: i64,
    pub y: i64,
    pub z: i64,
}

/// A direction in world space, in the same units as `Point3`.
#[derive(Clone, Copy, Debug, PartialEq, Eq, Structural)]
pub struct Vec3 {
    pub x: i64,
    pub y: i64,
    pub z: i64,
}

/// An RGB material color, owned by each scene object.
#[derive(Clone, Copy, Debug, PartialEq, Eq, Structural)]
pub struct Color {
    pub red: u8,
    pub green: u8,
    pub blue: u8,
}

impl Point3 {
    /// Every coordinate lies within the model's bound.
    pub open spec fn wf(self) -> bool {
        &&& -COORD_LIMIT <= self.x <= COORD_LIMIT
        &&& -COORD_LIMIT <= self.y <= COORD_LIMIT
        &&& -COORD_LIMIT <= self.z <= COORD_LIMIT
    }

    pub fn new(x: i64, y: i64, z: i64) -> (p: Point3)
        ensures
            p.x == x,
            p.y == y,
            p.z == z,
    {
        Point3 { x, y, z }
    }

    /// Runtime check of `wf`, for callers that assembled a point from
    /// unchecked inputs.
    pub fn in_bounds(&self) -> (b: bool)
        ensures
            b == self.wf(),
    {
        -COORD_LIMIT <= self.x && self.x <= COORD_LIMIT && -COORD_LIMIT <= self.y && self.y
            <= COORD_LIMIT && -COORD_LIMIT <= self.z && self.z <= COORD_LIMIT
    }
}

impl Vec3 {
    pub fn new(x: i64, y: i64, z: i64) -> (v: Vec3)
        ensures
            v.x == x,
            v.y == y,
            v.z == z,
    {
        Vec3 { x, y, z }
    }
}

impl Color {
    pub fn new(red: u8, green: u8, blue: u8) -> (c: Color)
        ensures
            c.red == red,
            c.green == green,
            c.blue == blue,
    {
        Color { red, green, blue }
    }
}

/// The displacement `to - from`, truncated into `i64` components; exact
/// whenever both endpoints are well formed (`lemma_displacement_exact`).
pub open spec fn displacement(from: Point3, to: Point3) -> Vec3 {
    Vec3 { x: (to.x - from.x) as i64, y: (to.y - from.y) as i64, z: (to.z - from.z) as i64 }
}

/// Squared Euclidean norm of a vector.
pub open spec fn norm_sq(v: Vec3) -> int {
    v.x * v.x + v.y * v.y + v.z * v.z
}

/// Squared Euclidean norm of a position, measured from the origin.
pub open spec fn point_norm_sq(p: Point3) -> int {
    p.x * p.x + p.y * p.y + p.z * p.z
}

/// Squared horizontal (y = 0 plane) norm of a position.
pub open spec fn horizontal_norm_sq(p: Point3) -> int {
    p.x * p.x + p.z * p.z
}

/// A squared norm is never negative.
pub proof fn lemma_norm_sq_nonneg(v: Vec3)
    ensures
        norm_sq(v) >= 0,
{
    assert(v.x * v.x >= 0) by (nonlinear_arith);
    assert(v.y * v.y >= 0) by (nonlinear_arith);
    assert(v.z * v.z >= 0) by (nonlinear_arith);
}

/// For well-formed endpoints the displacement components are the exact
/// coordinate differences: no truncation occurs.
pub proof fn lemma_displacement_exact(from: Point3, to: Point3)
    requires
        from.wf(),
        to.wf(),
    ensures
        displacement(from, to).x == to.x - from.x,
        displacement(from, to).y == to.y - from.y,
        displacement(from, to).z == to.z - from.z,
        abs_val(displacement(from, to).x as int) <= 2 * COORD_LIMIT,
        abs_val(displacement(from, to).y as int) <= 2 * COORD_LIMIT,
        abs_val(displacement(from, to).z as int) <= 2 * COORD_LIMIT,
{
}

} // verus!
