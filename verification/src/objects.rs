//! The distance-field object model: a capability trait and its three
//! primitive variants (sphere, horizontal plane, axis-aligned cube).
//!
//! Every distance estimate is the floor of the exact Euclidean value the
//! renderer's design calls for, so the signs and zeroes of the estimators
//! are exact; the fractional part is rounded toward zero by the floor
//! square root and floor division.

use vstd::prelude::*;

use crate::math::abs_val;
use crate::math::sqrt_floor;
use crate::math::isqrt;
use crate::math::abs_diff_i64;
use crate::math::lemma_sqrt_floor_bounds;
use crate::math::lemma_sqrt_floor_unique;
use crate::math::lemma_sqrt_floor_monotonic;
use crate::math::lemma_abs_square;
use crate::geom::COORD_LIMIT;
use crate::geom::Point3;
use crate::geom::Vec3;
use crate::geom::Color;
use crate::geom::displacement;
use crate::geom::norm_sq;
use crate::geom::point_norm_sq;
use crate::geom::horizontal_norm_sq;
use crate::geom::lemma_displacement_exact;
use crate::geom::lemma_norm_sq_nonneg;

verus! {

/// Reflectance is reported in thousandths: this value means every ray is
/// reflected specularly, zero means none is.
pub const REFLECTANCE_SCALE: u64 = 1000;

/// A scene object queryable by the ray-marching traversal loop.
///
/// `distance_estimate` returns `None` exactly on the inputs where the
/// estimator's formula divides by zero; every other query is total. All
/// queries are read-only: a scene of objects may be shared across
/// concurrent rendering workers without synchronization.
pub trait Object: Sized {
    /// The object's geometric parameters lie within the model's bounds.
    spec fn wf(&self) -> bool;

    /// The inputs on which the distance estimator is defined.
    spec fn distance_defined(&self, p: Point3) -> bool;

    /// The exact value of the distance estimate.
    spec fn spec_distance(&self, p: Point3) -> int;

    /// The inputs on which the surface normal is defined.
    spec fn normal_defined(&self, p: Point3) -> bool;

    /// The exact value of the surface normal query.
    spec fn spec_normal(&self, p: Point3) -> Vec3;

    /// The object's material color.
    spec fn spec_color(&self) -> Color;

    /// The variant's diagnostic name.
    spec fn spec_type_name(&self) -> Seq<char>;

    /// The fraction of light reflected specularly, in thousandths;
    /// non-reflective unless a variant overrides it.
    open spec fn spec_reflectance(&self) -> u64 {
        0
    }

    /// Whether the object's geometric parameters lie within the model's
    /// bounds; construction is not guarded, so a caller that assembled an
    /// object from unchecked inputs can test it before querying.
    fn is_well_formed(&self) -> (b: bool)
        ensures
            b == self.wf(),
    ;

    /// Estimated signed distance from `point` to the object's surface;
    /// `None` exactly where the estimator's formula is undefined.
    fn distance_estimate(&self, point: &Point3) -> (r: Option<i64>)
        requires
            self.wf(),
            point.wf(),
        ensures
            r is Some <==> self.distance_defined(*point),
            r matches Some(d) ==> d == self.spec_distance(*point),
    ;

    /// The outward surface normal at (or nearest to) `point`.
    fn get_normal(&self, point: &Point3) -> (n: Vec3)
        requires
            self.wf(),
            point.wf(),
            self.normal_defined(*point),
        ensures
            n == self.spec_normal(*point),
    ;

    /// The object's material color, by reference; the object is its owner.
    fn get_color_ref(&self) -> (c: &Color)
        ensures
            *c == self.spec_color(),
    ;

    /// A stable, static identifier of the concrete variant.
    fn get_type_name(&self) -> (s: &'static str)
        ensures
            s@ == self.spec_type_name(),
    ;

    /// The fraction of light reflected specularly, in thousandths.
    fn get_reflectance(&self) -> (r: u64)
        ensures
            r == self.spec_reflectance(),
    ;
}

/// A sphere: all points at distance `radius` from `centre`.
#[derive(Clone, Copy, Debug)]
pub struct Sphere {
    pub centre: Point3,
    pub radius: i64,
    pub color: Color,
}

impl Object for Sphere {
    open spec fn wf(&self) -> bool {
        &&& self.centre.wf()
        &&& 0 < self.radius <= COORD_LIMIT
    }

    open spec fn distance_defined(&self, p: Point3) -> bool {
        true
    }

    /// Floor of `‖p - centre‖` minus the radius: exact signed distance,
    /// rounded down. Negative inside, zero on the surface (up to the floor),
    /// positive outside.
    open spec fn spec_distance(&self, p: Point3) -> int {
        sqrt_floor(norm_sq(displacement(self.centre, p))) - self.radius
    }

    open spec fn normal_defined(&self, p: Point3) -> bool {
        p != self.centre
    }

    /// The outward direction `p - centre`. Its unit-length scaling is
    /// irrational in general and is left to the floating-point renderer.
    open spec fn spec_normal(&self, p: Point3) -> Vec3 {
        displacement(self.centre, p)
    }

    open spec fn spec_color(&self) -> Color {
        self.color
    }

    open spec fn spec_type_name(&self) -> Seq<char> {
        "Sphere"@
    }

    /// A mirror-like surface: full specular reflection.
    open spec fn spec_reflectance(&self) -> u64 {
        REFLECTANCE_SCALE
    }

    fn is_well_formed(&self) -> (b: bool) {
        self.centre.in_bounds() && 0 < self.radius && self.radius <= COORD_LIMIT
    }

    fn distance_estimate(&self, point: &Point3) -> (r: Option<i64>) {
        let nsq = norm_sq_around(&self.centre, point);
        let root: u64 = isqrt(nsq);
        proof {
            lemma_sqrt_floor_bounds(nsq as int);
            assert(root <= 3_500_000_000) by (nonlinear_arith)
                requires
                    0 <= root,
                    (root as int) * (root as int) <= nsq as int,
                    nsq as int <= 12_000_000_000_000_000_000,
            ;
        }
        Some(root as i64 - self.radius)
    }

    fn get_normal(&self, point: &Point3) -> (n: Vec3) {
        proof {
            lemma_displacement_exact(self.centre, *point);
        }
        Vec3 { x: point.x - self.centre.x, y: point.y - self.centre.y, z: point.z - self.centre.z }
    }

    fn get_color_ref(&self) -> (c: &Color) {
        &self.color
    }

    fn get_type_name(&self) -> (s: &'static str) {
        "Sphere"
    }

    fn get_reflectance(&self) -> (r: u64) {
        REFLECTANCE_SCALE
    }
}

/// An infinite horizontal plane at height `y`.
#[derive(Clone, Copy, Debug)]
pub struct HorizontalPlane {
    pub y: i64,
    pub color: Color,
}

impl Object for HorizontalPlane {
    open spec fn wf(&self) -> bool {
        -COORD_LIMIT <= self.y <= COORD_LIMIT
    }

    /// The estimator divides by the horizontal norm of the query point, so
    /// it is undefined exactly on the vertical axis through the origin.
    open spec fn distance_defined(&self, p: Point3) -> bool {
        !(p.x == 0 && p.z == 0)
    }

    /// `|p.y - y| / sin(a)`, where `a` is the angle between the position
    /// vector of `p` (from the origin) and the vertical axis: an
    /// angle-of-incidence correction that inflates the naive `|p.y - y|`
    /// for grazing rays. The formula assumes the ray originates at the
    /// coordinate origin, which an arbitrary camera need not satisfy; the
    /// assumption is kept as the renderer's design has it. Since
    /// `sin(a) = ‖(p.x, 0, p.z)‖ / ‖p‖`, the estimate is
    /// `|p.y - y| * ‖p‖ / ‖(p.x, 0, p.z)‖`, each part floored.
    open spec fn spec_distance(&self, p: Point3) -> int {
        abs_val(p.y - self.y) * sqrt_floor(point_norm_sq(p)) / sqrt_floor(
            horizontal_norm_sq(p),
        )
    }

    open spec fn normal_defined(&self, p: Point3) -> bool {
        true
    }

    /// A horizontal surface points straight up everywhere.
    open spec fn spec_normal(&self, p: Point3) -> Vec3 {
        Vec3 { x: 0, y: 1, z: 0 }
    }

    open spec fn spec_color(&self) -> Color {
        self.color
    }

    open spec fn spec_type_name(&self) -> Seq<char> {
        "HorizontalPlane"@
    }

    fn is_well_formed(&self) -> (b: bool) {
        -COORD_LIMIT <= self.y && self.y <= COORD_LIMIT
    }

    fn distance_estimate(&self, point: &Point3) -> (r: Option<i64>) {
        let ax: u64 = abs_diff_i64(point.x, 0);
        let ay: u64 = abs_diff_i64(point.y, 0);
        let az: u64 = abs_diff_i64(point.z, 0);
        proof {
            lemma_abs_square(point.x as int);
            lemma_abs_square(point.y as int);
            lemma_abs_square(point.z as int);
            assert((ax as int) * (ax as int) <= 1_000_000_000_000_000_000) by (nonlinear_arith)
                requires
                    0 <= ax as int <= 1_000_000_000,
            ;
            assert((ay as int) * (ay as int) <= 1_000_000_000_000_000_000) by (nonlinear_arith)
                requires
                    0 <= ay as int <= 1_000_000_000,
            ;
            assert((az as int) * (az as int) <= 1_000_000_000_000_000_000) by (nonlinear_arith)
                requires
                    0 <= az as int <= 1_000_000_000,
            ;
        }
        let hsq: u64 = ax * ax + az * az;
        let nsq: u64 = hsq + ay * ay;
        proof {
            if point.x != 0 {
                assert(point.x * point.x > 0) by (nonlinear_arith)
                    requires
                        point.x != 0,
                ;
            }
            if point.z != 0 {
                assert(point.z * point.z > 0) by (nonlinear_arith)
                    requires
                        point.z != 0,
                ;
            }
        }
        if hsq == 0 {
            return None;
        }
        let den: u64 = isqrt(hsq);
        let num: u64 = isqrt(nsq);
        let dy: u64 = abs_diff_i64(point.y, self.y);
        proof {
            lemma_sqrt_floor_bounds(hsq as int);
            lemma_sqrt_floor_bounds(nsq as int);
            assert(num <= 1_800_000_000) by (nonlinear_arith)
                requires
                    0 <= num,
                    (num as int) * (num as int) <= nsq as int,
                    nsq as int <= 3_000_000_000_000_000_000,
            ;
            assert((dy as int) * (num as int) <= 3_600_000_000_000_000_000) by (nonlinear_arith)
                requires
                    0 <= dy as int <= 2_000_000_000,
                    0 <= num as int <= 1_800_000_000,
            ;
        }
        let prod: u64 = dy * num;
        proof {
            assert(den >= 1) by (nonlinear_arith)
                requires
                    hsq as int >= 1,
                    0 <= den as int,
                    (hsq as int) < ((den as int) + 1) * ((den as int) + 1),
            ;
        }
        let q: u64 = prod / den;
        Some(q as i64)
    }

    fn get_normal(&self, point: &Point3) -> (n: Vec3) {
        Vec3 { x: 0, y: 1, z: 0 }
    }

    fn get_color_ref(&self) -> (c: &Color) {
        &self.color
    }

    fn get_type_name(&self) -> (s: &'static str) {
        "HorizontalPlane"
    }

    /// Explicitly non-reflective, whatever the interface's default.
    fn get_reflectance(&self) -> (r: u64) {
        0
    }
}

/// How far one coordinate lies outside a band of half-width `size`
/// around zero; zero inside the band.
pub open spec fn clearance(d: int, size: int) -> int {
    if abs_val(d) > size {
        abs_val(d) - size
    } else {
        0
    }
}

/// Index of the component of largest magnitude: 0, 1 or 2 for x, y or z,
/// the earlier axis winning ties.
pub open spec fn dominant_axis(v: Vec3) -> int {
    if abs_val(v.x as int) >= abs_val(v.y as int) && abs_val(v.x as int) >= abs_val(v.z as int) {
        0
    } else if abs_val(v.y as int) >= abs_val(v.z as int) {
        1
    } else {
        2
    }
}

/// The unit vector in the positive direction of axis 0, 1 or 2.
pub open spec fn axis_unit(i: int) -> Vec3 {
    if i == 0 {
        Vec3 { x: 1, y: 0, z: 0 }
    } else if i == 1 {
        Vec3 { x: 0, y: 1, z: 0 }
    } else {
        Vec3 { x: 0, y: 0, z: 1 }
    }
}

/// A cube of half-extent `size` centered at `centre`, aligned to the
/// world axes.
#[derive(Clone, Copy, Debug)]
pub struct AxisAlignedCube {
    pub centre: Point3,
    pub size: i64,
    pub color: Color,
}

impl AxisAlignedCube {
    /// Sum of the squared per-axis clearances of `p` with respect to the
    /// cube: the squared Euclidean distance from `p` to the cube's solid.
    pub open spec fn spec_clearance_sq(&self, p: Point3) -> int {
        let v = displacement(self.centre, p);
        clearance(v.x as int, self.size as int) * clearance(v.x as int, self.size as int)
            + clearance(v.y as int, self.size as int) * clearance(v.y as int, self.size as int)
            + clearance(v.z as int, self.size as int) * clearance(v.z as int, self.size as int)
    }
}

impl Object for AxisAlignedCube {
    open spec fn wf(&self) -> bool {
        &&& self.centre.wf()
        &&& 0 < self.size <= COORD_LIMIT
    }

    open spec fn distance_defined(&self, p: Point3) -> bool {
        true
    }

    /// Floor of the exact Euclidean distance from `p` to the cube's
    /// exterior surface: zero for every point inside or on the cube (the
    /// estimator does not measure interior depth), exact outside.
    open spec fn spec_distance(&self, p: Point3) -> int {
        sqrt_floor(self.spec_clearance_sq(p))
    }

    open spec fn normal_defined(&self, p: Point3) -> bool {
        true
    }

    /// The positive unit vector along the dominant axis of `p - centre`.
    /// The sign is never flipped to match the side actually hit: a query
    /// on the negative-x face still reports the positive x axis. That is
    /// the renderer's design as it stands, kept here rather than silently
    /// corrected.
    open spec fn spec_normal(&self, p: Point3) -> Vec3 {
        axis_unit(dominant_axis(displacement(self.centre, p)))
    }

    open spec fn spec_color(&self) -> Color {
        self.color
    }

    open spec fn spec_type_name(&self) -> Seq<char> {
        "Cuboid"@
    }

    fn is_well_formed(&self) -> (b: bool) {
        self.centre.in_bounds() && 0 < self.size && self.size <= COORD_LIMIT
    }

    fn distance_estimate(&self, point: &Point3) -> (r: Option<i64>) {
        let cx: u64 = axis_clearance(point.x, self.centre.x, self.size);
        let cy: u64 = axis_clearance(point.y, self.centre.y, self.size);
        let cz: u64 = axis_clearance(point.z, self.centre.z, self.size);
        proof {
            lemma_displacement_exact(self.centre, *point);
            assert((cx as int) * (cx as int) <= 4_000_000_000_000_000_000) by (nonlinear_arith)
                requires
                    0 <= cx as int <= 2_000_000_000,
            ;
            assert((cy as int) * (cy as int) <= 4_000_000_000_000_000_000) by (nonlinear_arith)
                requires
                    0 <= cy as int <= 2_000_000_000,
            ;
            assert((cz as int) * (cz as int) <= 4_000_000_000_000_000_000) by (nonlinear_arith)
                requires
                    0 <= cz as int <= 2_000_000_000,
            ;
        }
        let csq: u64 = cx * cx + cy * cy + cz * cz;
        let root: u64 = isqrt(csq);
        proof {
            lemma_sqrt_floor_bounds(csq as int);
            assert(root <= 3_500_000_000) by (nonlinear_arith)
                requires
                    0 <= root,
                    (root as int) * (root as int) <= csq as int,
                    csq as int <= 12_000_000_000_000_000_000,
            ;
        }
        Some(root as i64)
    }

    fn get_normal(&self, point: &Point3) -> (n: Vec3) {
        let ax: u64 = abs_diff_i64(point.x, self.centre.x);
        let ay: u64 = abs_diff_i64(point.y, self.centre.y);
        let az: u64 = abs_diff_i64(point.z, self.centre.z);
        proof {
            lemma_displacement_exact(self.centre, *point);
        }
        if ax >= ay && ax >= az {
            Vec3 { x: 1, y: 0, z: 0 }
        } else if ay >= az {
            Vec3 { x: 0, y: 1, z: 0 }
        } else {
            Vec3 { x: 0, y: 0, z: 1 }
        }
    }

    fn get_color_ref(&self) -> (c: &Color) {
        &self.color
    }

    fn get_type_name(&self) -> (s: &'static str) {
        "Cuboid"
    }

    /// Keeps the interface's default: non-reflective.
    fn get_reflectance(&self) -> (r: u64) {
        0
    }
}

/// The clearance of coordinate `p` against the band of half-width `size`
/// around coordinate `c`, as an unsigned word.
fn axis_clearance(p: i64, c: i64, size: i64) -> (r: u64)
    requires
        -COORD_LIMIT <= p <= COORD_LIMIT,
        -COORD_LIMIT <= c <= COORD_LIMIT,
        0 < size <= COORD_LIMIT,
    ensures
        r == clearance(p - c, size as int),
        r <= 2_000_000_000,
{
    let d: u64 = abs_diff_i64(p, c);
    if d > size as u64 {
        d - size as u64
    } else {
        0
    }
}

/// Squared norm of `point - centre`, exact: both arguments are well formed,
/// so the sum of the three squares fits a `u64`.
fn norm_sq_around(centre: &Point3, point: &Point3) -> (n: u64)
    requires
        centre.wf(),
        point.wf(),
    ensures
        n == norm_sq(displacement(*centre, *point)),
        n <= 12_000_000_000_000_000_000,
{
    let dx: u64 = abs_diff_i64(point.x, centre.x);
    let dy: u64 = abs_diff_i64(point.y, centre.y);
    let dz: u64 = abs_diff_i64(point.z, centre.z);
    proof {
        lemma_displacement_exact(*centre, *point);
        lemma_abs_square(point.x - centre.x);
        lemma_abs_square(point.y - centre.y);
        lemma_abs_square(point.z - centre.z);
        assert((dx as int) * (dx as int) <= 4_000_000_000_000_000_000) by (nonlinear_arith)
            requires
                0 <= dx as int <= 2_000_000_000,
        ;
        assert((dy as int) * (dy as int) <= 4_000_000_000_000_000_000) by (nonlinear_arith)
            requires
                0 <= dy as int <= 2_000_000_000,
        ;
        assert((dz as int) * (dz as int) <= 4_000_000_000_000_000_000) by (nonlinear_arith)
            requires
                0 <= dz as int <= 2_000_000_000,
        ;
    }
    dx * dx + dy * dy + dz * dz
}

/// A query point whose squared distance from the centre is exactly the
/// squared radius lies on the sphere's surface, and the sphere's distance
/// estimate there is exactly zero.
pub proof fn lemma_sphere_surface_distance_zero(s: Sphere, p: Point3)
    requires
        s.wf(),
        p.wf(),
        norm_sq(displacement(s.centre, p)) == s.radius * s.radius,
    ensures
        s.spec_distance(p) == 0,
{
    assert(s.radius * s.radius < (s.radius + 1) * (s.radius + 1)) by (nonlinear_arith)
        requires
            s.radius >= 0,
    ;
    lemma_sqrt_floor_unique(norm_sq(displacement(s.centre, p)), s.radius as int);
}

/// Strictly inside the sphere the distance estimate is strictly negative.
pub proof fn lemma_sphere_inside_distance_negative(s: Sphere, p: Point3)
    requires
        s.wf(),
        p.wf(),
        norm_sq(displacement(s.centre, p)) < s.radius * s.radius,
    ensures
        s.spec_distance(p) < 0,
{
    let n = norm_sq(displacement(s.centre, p));
    lemma_norm_sq_nonneg(displacement(s.centre, p));
    lemma_sqrt_floor_bounds(n);
    let f = sqrt_floor(n);
    assert(f < s.radius) by (nonlinear_arith)
        requires
            0 <= f,
            0 <= s.radius,
            f * f <= n,
            n < s.radius * s.radius,
    ;
}

/// Outside the sphere the distance estimate is never negative; once the
/// squared distance from the centre reaches `(radius + 1)²` it is strictly
/// positive. (In the band between `radius²` and `(radius + 1)²` the floor
/// rounds the estimate down to zero.)
pub proof fn lemma_sphere_outside_distance_nonneg(s: Sphere, p: Point3)
    requires
        s.wf(),
        p.wf(),
        norm_sq(displacement(s.centre, p)) > s.radius * s.radius,
    ensures
        s.spec_distance(p) >= 0,
        norm_sq(displacement(s.centre, p)) >= (s.radius + 1) * (s.radius + 1)
            ==> s.spec_distance(p) > 0,
{
    let n = norm_sq(displacement(s.centre, p));
    lemma_norm_sq_nonneg(displacement(s.centre, p));
    lemma_sqrt_floor_bounds(n);
    let f = sqrt_floor(n);
    assert(f >= s.radius) by (nonlinear_arith)
        requires
            0 <= f,
            0 <= s.radius,
            s.radius * s.radius < n,
            n < (f + 1) * (f + 1),
    ;
    if n >= (s.radius + 1) * (s.radius + 1) {
        assert(f > s.radius) by (nonlinear_arith)
            requires
                0 <= f,
                0 <= s.radius,
                (s.radius + 1) * (s.radius + 1) <= n,
                n < (f + 1) * (f + 1),
        ;
    }
}

/// Along any straight path toward the sphere's centre the distance
/// estimate never increases: stepping a ray forward by the estimate
/// cannot overshoot the radial distance still to cover.
pub proof fn lemma_sphere_distance_monotone(s: Sphere, near: Point3, far: Point3)
    requires
        s.wf(),
        near.wf(),
        far.wf(),
        norm_sq(displacement(s.centre, near)) <= norm_sq(displacement(s.centre, far)),
    ensures
        s.spec_distance(near) <= s.spec_distance(far),
{
    lemma_norm_sq_nonneg(displacement(s.centre, near));
    lemma_sqrt_floor_monotonic(
        norm_sq(displacement(s.centre, near)),
        norm_sq(displacement(s.centre, far)),
    );
}

/// Away from the centre, the sphere's normal query returns exactly the
/// outward displacement `p - centre`, and that displacement is nonzero;
/// its unit-length scaling is the floating-point renderer's concern.
pub proof fn lemma_sphere_normal_direction(s: Sphere, p: Point3)
    requires
        s.wf(),
        p.wf(),
        p != s.centre,
    ensures
        s.spec_normal(p).x == p.x - s.centre.x,
        s.spec_normal(p).y == p.y - s.centre.y,
        s.spec_normal(p).z == p.z - s.centre.z,
        s.spec_normal(p) != (Vec3 { x: 0, y: 0, z: 0 }),
{
    lemma_displacement_exact(s.centre, p);
}

/// The horizontal plane's normal is the upward unit vector for every
/// query point: below the plane, on it, or above it.
pub proof fn lemma_plane_normal_upward(h: HorizontalPlane, p: Point3)
    ensures
        h.spec_normal(p) == (Vec3 { x: 0, y: 1, z: 0 }),
{
}

/// Wherever it is defined, the plane's angle-corrected estimate is at
/// least the naive height gap `|p.y - y|`: the correction only inflates
/// the step bound, as intended for rays that graze the plane.
pub proof fn lemma_plane_distance_dominates_height_gap(h: HorizontalPlane, p: Point3)
    requires
        h.wf(),
        p.wf(),
        !(p.x == 0 && p.z == 0),
    ensures
        h.spec_distance(p) >= abs_val(p.y - h.y),
{
    let dy = abs_val(p.y - h.y);
    let hsq = horizontal_norm_sq(p);
    let nsq = point_norm_sq(p);
    assert(p.x * p.x >= 0 && p.z * p.z >= 0 && p.y * p.y >= 0) by (nonlinear_arith);
    if p.x != 0 {
        assert(p.x * p.x >= 1) by (nonlinear_arith)
            requires
                p.x != 0,
        ;
    }
    if p.z != 0 {
        assert(p.z * p.z >= 1) by (nonlinear_arith)
            requires
                p.z != 0,
        ;
    }
    let a = sqrt_floor(nsq);
    let b = sqrt_floor(hsq);
    lemma_sqrt_floor_monotonic(hsq, nsq);
    lemma_sqrt_floor_bounds(hsq);
    assert(b >= 1) by (nonlinear_arith)
        requires
            hsq >= 1,
            0 <= b,
            hsq < (b + 1) * (b + 1),
    ;
    assert(dy * a >= dy * b) by (nonlinear_arith)
        requires
            dy >= 0,
            a >= b,
    ;
    vstd::arithmetic::div_mod::lemma_div_is_ordered(dy * b, dy * a, b);
    vstd::arithmetic::div_mod::lemma_div_multiples_vanish(dy, b);
    assert(b * dy == dy * b) by (nonlinear_arith);
}

/// The cube's distance estimate is never negative, and it is zero exactly
/// on the points inside or on the cube: the estimator measures clearance
/// to the cube's exterior, not interior depth.
pub proof fn lemma_cube_distance_zero_iff_inside(c: AxisAlignedCube, p: Point3)
    requires
        c.wf(),
        p.wf(),
    ensures
        c.spec_distance(p) >= 0,
        c.spec_distance(p) == 0 <==> {
            &&& abs_val(p.x - c.centre.x) <= c.size
            &&& abs_val(p.y - c.centre.y) <= c.size
            &&& abs_val(p.z - c.centre.z) <= c.size
        },
{
    lemma_displacement_exact(c.centre, p);
    let v = displacement(c.centre, p);
    let ex = clearance(v.x as int, c.size as int);
    let ey = clearance(v.y as int, c.size as int);
    let ez = clearance(v.z as int, c.size as int);
    let q = c.spec_clearance_sq(p);
    assert(ex * ex >= 0 && ey * ey >= 0 && ez * ez >= 0) by (nonlinear_arith);
    lemma_sqrt_floor_bounds(q);
    if abs_val(p.x - c.centre.x) <= c.size && abs_val(p.y - c.centre.y) <= c.size && abs_val(
        p.z - c.centre.z,
    ) <= c.size {
        assert(q == 0);
    } else {
        assert(ex >= 1 || ey >= 1 || ez >= 1);
        assert(ex >= 1 ==> ex * ex >= 1) by (nonlinear_arith);
        assert(ey >= 1 ==> ey * ey >= 1) by (nonlinear_arith);
        assert(ez >= 1 ==> ez * ez >= 1) by (nonlinear_arith);
        assert(q >= 1);
        let f = sqrt_floor(q);
        assert(f >= 1) by (nonlinear_arith)
            requires
                0 <= f,
                1 <= q,
                q < (f + 1) * (f + 1),
        ;
    }
}

/// The cube's normal query always reports a positive unit axis vector,
/// whichever side of the cube the query point lies on: the sign is never
/// flipped for the negative-facing faces.
pub proof fn lemma_cube_normal_positive_axis(c: AxisAlignedCube, p: Point3)
    ensures
        c.spec_normal(p) == (Vec3 { x: 1, y: 0, z: 0 }) || c.spec_normal(p) == (Vec3 {
            x: 0,
            y: 1,
            z: 0,
        }) || c.spec_normal(p) == (Vec3 { x: 0, y: 0, z: 1 }),
{
}

} // verus!
