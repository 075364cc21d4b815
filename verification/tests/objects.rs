use sdf_objects::geom::Color;
use sdf_objects::geom::Point3;
use sdf_objects::geom::Vec3;
use sdf_objects::math::abs_diff_i64;
use sdf_objects::math::isqrt;
use sdf_objects::objects::AxisAlignedCube;
use sdf_objects::objects::HorizontalPlane;
use sdf_objects::objects::Object;
use sdf_objects::objects::Sphere;
use sdf_objects::objects::REFLECTANCE_SCALE;

fn grey() -> Color {
    Color::new(128, 128, 128)
}

fn sphere(cx: i64, cy: i64, cz: i64, radius: i64) -> Sphere {
    Sphere { centre: Point3::new(cx, cy, cz), radius, color: grey() }
}

fn plane(y: i64) -> HorizontalPlane {
    HorizontalPlane { y, color: grey() }
}

fn cube(cx: i64, cy: i64, cz: i64, size: i64) -> AxisAlignedCube {
    AxisAlignedCube { centre: Point3::new(cx, cy, cz), size, color: grey() }
}

#[test]
fn isqrt_exact_values() {
    assert_eq!(isqrt(0), 0);
    assert_eq!(isqrt(1), 1);
    assert_eq!(isqrt(3), 1);
    assert_eq!(isqrt(4), 2);
    assert_eq!(isqrt(8), 2);
    assert_eq!(isqrt(9), 3);
    assert_eq!(isqrt(1_000_000_000_000_000_000), 1_000_000_000);
    assert_eq!(isqrt(u64::MAX), 4_294_967_295);
}

#[test]
fn abs_diff_covers_extremes() {
    assert_eq!(abs_diff_i64(5, -3), 8);
    assert_eq!(abs_diff_i64(-3, 5), 8);
    assert_eq!(abs_diff_i64(7, 7), 0);
    assert_eq!(abs_diff_i64(i64::MAX, i64::MIN), u64::MAX);
}

#[test]
fn sphere_surface_distance_zero() {
    let s = sphere(0, 0, 0, 100);
    assert_eq!(s.distance_estimate(&Point3::new(100, 0, 0)), Some(0));
    assert_eq!(s.distance_estimate(&Point3::new(60, 80, 0)), Some(0));
    let off = sphere(10, -20, 30, 5);
    assert_eq!(off.distance_estimate(&Point3::new(13, -16, 30)), Some(0));
}

#[test]
fn sphere_inside_distance_negative() {
    let s = sphere(0, 0, 0, 100);
    assert_eq!(s.distance_estimate(&Point3::new(50, 0, 0)), Some(-50));
    assert_eq!(s.distance_estimate(&Point3::new(0, 0, 0)), Some(-100));
}

#[test]
fn sphere_outside_distance_positive() {
    let s = sphere(0, 0, 0, 100);
    assert_eq!(s.distance_estimate(&Point3::new(200, 0, 0)), Some(100));
    assert_eq!(s.distance_estimate(&Point3::new(0, -300, 0)), Some(200));
}

#[test]
fn sphere_distance_floors_fractional_band() {
    // (1, 1, 0) lies outside the unit sphere at distance sqrt(2) - 1; the
    // fixed-point model floors that to zero.
    let s = sphere(0, 0, 0, 1);
    assert_eq!(s.distance_estimate(&Point3::new(1, 1, 0)), Some(0));
}

#[test]
fn sphere_normal_is_displacement() {
    let s = sphere(1, 2, 3, 10);
    let n = s.get_normal(&Point3::new(4, 6, 3));
    assert_eq!(n, Vec3::new(3, 4, 0));
    let below = s.get_normal(&Point3::new(1, 2, -7));
    assert_eq!(below, Vec3::new(0, 0, -10));
}

#[test]
fn sphere_reflectance_full() {
    assert_eq!(sphere(0, 0, 0, 1).get_reflectance(), REFLECTANCE_SCALE);
    assert_eq!(sphere(0, 0, 0, 1).get_reflectance(), 1000);
}

#[test]
fn sphere_type_name() {
    assert_eq!(sphere(0, 0, 0, 1).get_type_name(), "Sphere");
}

#[test]
fn sphere_color_ref() {
    let s = sphere(0, 0, 0, 1);
    assert_eq!(*s.get_color_ref(), grey());
}

#[test]
fn plane_normal_up_everywhere() {
    let h = plane(0);
    let up = Vec3::new(0, 1, 0);
    assert_eq!(h.get_normal(&Point3::new(0, 5, 0)), up);
    assert_eq!(h.get_normal(&Point3::new(3, -4, 7)), up);
    assert_eq!(h.get_normal(&Point3::new(-1, 0, 2)), up);
}

#[test]
fn plane_distance_grazing_inflates_step() {
    // Plane at y = 0, query (3, 4, 0): |dy| = 4, ‖p‖ = 5, horizontal
    // norm = 3, so the angle-corrected estimate is 4 * 5 / 3 = 6 (floored
    // from 20/3), larger than the naive |dy| = 4.
    let h = plane(0);
    assert_eq!(h.distance_estimate(&Point3::new(3, 4, 0)), Some(6));
}

#[test]
fn plane_distance_exact_division() {
    // Plane at y = 0, query (4, 3, 0): 3 * 5 / 4 = 3, exactly.
    let h = plane(0);
    assert_eq!(h.distance_estimate(&Point3::new(4, 3, 0)), Some(3));
}

#[test]
fn plane_distance_from_below() {
    let h = plane(0);
    assert_eq!(h.distance_estimate(&Point3::new(3, -4, 0)), Some(6));
}

#[test]
fn plane_distance_nonzero_height() {
    // Plane at y = 2, query (3, 4, 0): |dy| = 2, so 2 * 5 / 3 = 3.
    let h = plane(2);
    assert_eq!(h.distance_estimate(&Point3::new(3, 4, 0)), Some(3));
}

#[test]
fn plane_distance_undefined_on_vertical_axis() {
    // On the vertical axis through the origin the angle correction divides
    // by zero; the estimator reports no value there.
    let h = plane(0);
    assert_eq!(h.distance_estimate(&Point3::new(0, 5, 0)), None);
    assert_eq!(h.distance_estimate(&Point3::new(0, 0, 0)), None);
    assert_eq!(h.distance_estimate(&Point3::new(0, -5, 0)), None);
}

#[test]
fn plane_reflectance_zero() {
    assert_eq!(plane(0).get_reflectance(), 0);
}

#[test]
fn plane_type_name() {
    assert_eq!(plane(0).get_type_name(), "HorizontalPlane");
}

#[test]
fn plane_color_ref() {
    assert_eq!(*plane(3).get_color_ref(), grey());
}

#[test]
fn cube_distance_outside_face() {
    let c = cube(0, 0, 0, 1);
    assert_eq!(c.distance_estimate(&Point3::new(2, 0, 0)), Some(1));
    assert_eq!(c.distance_estimate(&Point3::new(0, -5, 0)), Some(4));
}

#[test]
fn cube_distance_zero_inside_and_on_surface() {
    let c = cube(0, 0, 0, 2);
    assert_eq!(c.distance_estimate(&Point3::new(1, 1, 1)), Some(0));
    assert_eq!(c.distance_estimate(&Point3::new(2, 0, 0)), Some(0));
    assert_eq!(c.distance_estimate(&Point3::new(0, 0, 0)), Some(0));
}

#[test]
fn cube_distance_to_edge() {
    // Clearances (3, 4, 0) from the unit cube: distance 5, exactly.
    let c = cube(0, 0, 0, 1);
    assert_eq!(c.distance_estimate(&Point3::new(4, 5, 0)), Some(5));
    // Clearances (2, 3, 0): sqrt(13) floors to 3.
    assert_eq!(c.distance_estimate(&Point3::new(3, 4, 0)), Some(3));
}

#[test]
fn cube_normal_positive_face() {
    let c = cube(0, 0, 0, 1);
    assert_eq!(c.get_normal(&Point3::new(3, 0, 0)), Vec3::new(1, 0, 0));
    assert_eq!(c.get_normal(&Point3::new(0, 5, 0)), Vec3::new(0, 1, 0));
    assert_eq!(c.get_normal(&Point3::new(0, 0, -7)), Vec3::new(0, 0, 1));
}

#[test]
fn cube_normal_negative_face_keeps_positive_sign() {
    // A query on the negative-x side still reports (1, 0, 0): the dominant
    // axis is chosen by magnitude and the sign is never flipped. This is
    // the renderer's design as it stands, asserted rather than corrected.
    let c = cube(0, 0, 0, 1);
    assert_eq!(c.get_normal(&Point3::new(-3, 0, 0)), Vec3::new(1, 0, 0));
}

#[test]
fn cube_normal_tie_prefers_earlier_axis() {
    let c = cube(0, 0, 0, 1);
    assert_eq!(c.get_normal(&Point3::new(2, 2, 0)), Vec3::new(1, 0, 0));
    assert_eq!(c.get_normal(&Point3::new(0, 2, 2)), Vec3::new(0, 1, 0));
}

#[test]
fn cube_reflectance_defaults_to_zero() {
    assert_eq!(cube(0, 0, 0, 1).get_reflectance(), 0);
}

#[test]
fn cube_type_name() {
    assert_eq!(cube(0, 0, 0, 1).get_type_name(), "Cuboid");
}

#[test]
fn cube_color_ref() {
    assert_eq!(*cube(0, 0, 0, 1).get_color_ref(), grey());
}

#[test]
fn well_formedness_checks() {
    assert!(sphere(0, 0, 0, 1).is_well_formed());
    assert!(!sphere(0, 0, 0, 0).is_well_formed());
    assert!(!sphere(2_000_000_000, 0, 0, 1).is_well_formed());
    assert!(plane(-1_000_000_000).is_well_formed());
    assert!(!plane(1_000_000_001).is_well_formed());
    assert!(cube(1, 2, 3, 1_000_000_000).is_well_formed());
    assert!(!cube(1, 2, 3, -1).is_well_formed());
    assert!(Point3::new(0, 0, -1_000_000_000).in_bounds());
    assert!(!Point3::new(0, -1_000_000_001, 0).in_bounds());
}
