//! Scenario tests for the vector algebra: exact values for the formulas,
//! the zero-vector guards, and the clamping behavior.

use ship_core::scalar::{HALF_PI_RADS, THREE_HALF_PI_RADS, TWO_PI_RADS};
use ship_core::transform::{combine, Transform};
use ship_core::vec::Vec2;
use ship_core::vectors;

#[test]
fn mag_of_3_4_is_5() {
    // A 3-4-5 triangle comes out exactly in fixed point.
    assert_eq!(Vec2::new(3000, 4000).mag(), 5000);
}

#[test]
fn dir_of_zero_vector_is_zero_vector() {
    assert_eq!(Vec2::origin().dir(), Vec2::origin());
}

#[test]
fn dir_of_nonzero_vector_is_unit() {
    // The magnitude of a versor stays within three thousandths of one.
    for v in [
        Vec2::new(5000, 1200),
        Vec2::new(-333_000, 7000),
        Vec2::new(2, -1900),
        Vec2::new(-1_000_000, -1),
    ] {
        let m = v.dir().mag();
        assert!(997 <= m && m <= 1000);
    }
}

#[test]
fn dir_angle_of_zero_vector_is_none() {
    assert_eq!(Vec2::origin().dir_angle(), None);
}

#[test]
fn dir_angle_on_the_axes() {
    assert_eq!(Vec2::new(1000, 0).dir_angle(), Some(0));
    assert_eq!(Vec2::new(0, 1000).dir_angle(), Some(HALF_PI_RADS));
    assert_eq!(Vec2::new(0, -1000).dir_angle(), Some(THREE_HALF_PI_RADS));
}

#[test]
fn dir_angle_stays_below_a_full_turn_near_the_x_axis() {
    // A vector pointing almost straight down the positive x axis from
    // below: the angle must stay strictly under two pi.
    let a = Vec2::new(1_000_000, -1).dir_angle().unwrap();
    assert!(THREE_HALF_PI_RADS <= a && a < TWO_PI_RADS);
    // And almost straight down: at or just past three half pi.
    let b = Vec2::new(1, -1_000_000).dir_angle().unwrap();
    assert!(THREE_HALF_PI_RADS <= b && b < TWO_PI_RADS);
}

#[test]
fn clamp_mag_lands_close_on_a_skew_vector() {
    // A direction that does not divide evenly still lands within a few
    // thousandths of the requested magnitude.
    let v = Vec2::new(5000, 1200);
    let r = v.clamp_mag(0, 2000);
    let m = r.mag();
    assert!(1988 <= m && m <= 2002);
}

#[test]
fn clamp_mag_reduces_an_oversized_vector() {
    // Magnitude 50, clamped to at most 10: the direction (a 3-4-5
    // triangle) is kept and the magnitude comes out exactly.
    let v = Vec2::new(30_000, 40_000);
    assert_eq!(v.mag(), 50_000);
    let r = v.clamp_mag(0, 10_000);
    assert_eq!(r, Vec2::new(6000, 8000));
    assert_eq!(r.mag(), 10_000);
}

#[test]
fn clamp_mag_raises_an_undersized_vector() {
    let v = Vec2::new(3000, 4000);
    let r = v.clamp_mag(8000, 10_000);
    assert_eq!(r, Vec2::new(4800, 6400));
    assert_eq!(r.mag(), 8000);
}

#[test]
fn clamp_mag_keeps_a_vector_inside_the_band() {
    let v = Vec2::new(3000, 4000);
    assert_eq!(v.clamp_mag(1000, 1_000_000), v);
}

#[test]
fn clamp_on_uses_the_supplied_scalar() {
    // Clamp on the absolute x coordinate instead of the magnitude.
    let v = Vec2::new(30_000, 500);
    let r = v.clamp_on(|w: Vec2| w.x.abs(), 0, 10_000);
    assert_eq!(r, Vec2::new(9990, 160));
    // A vector whose x coordinate is inside the band is untouched, even
    // though its magnitude is beyond it.
    let u = Vec2::new(500, 30_000);
    assert_eq!(u.clamp_on(|w: Vec2| w.x.abs(), 0, 10_000), u);
}

#[test]
fn change_mag_of_origin_takes_the_default_direction() {
    // The canonical default direction is the positive x axis: the result
    // is (m, 0), not the origin.
    assert_eq!(Vec2::origin().change_mag(1000), Vec2::new(1000, 0));
    assert_eq!(Vec2::origin().change_mag(20), Vec2::new(20, 0));
}

#[test]
fn change_mag_keeps_the_direction() {
    assert_eq!(Vec2::new(3000, 4000).change_mag(10_000), Vec2::new(6000, 8000));
}

#[test]
fn change_dir_angle_keeps_the_magnitude() {
    // Thrust of magnitude 20 turned straight down (screen coordinates).
    let v = Vec2::new(20, 0);
    let r = v.change_dir_angle(HALF_PI_RADS);
    assert_eq!(r, Vec2::new(0, 20));
    // And turned back to the right.
    assert_eq!(r.change_dir_angle(0), Vec2::new(20, 0));
}

#[test]
fn with_min_zeroes_a_slow_vector() {
    assert_eq!(Vec2::new(300, 0).with_min(500), Vec2::origin());
    assert_eq!(Vec2::new(600, 0).with_min(500), Vec2::new(600, 0));
}

#[test]
fn free_functions_match_the_methods() {
    let v = Vec2::new(3000, 4000);
    assert_eq!(vectors::magnitude(&v), v.mag());
    assert_eq!(vectors::dir(&v), v.dir());
    assert_eq!(vectors::change_magnitude(v, 500), v.change_mag(500));
    assert_eq!(vectors::clamp_magnitude(v, 0, 1000), v.clamp_mag(0, 1000));
    assert_eq!(vectors::scalar_mul(2000, &v), v.scalar_mul(2000));
    assert_eq!(vectors::add(&v, &Vec2::new(1, 2)), Vec2::new(3001, 4002));
}

#[test]
fn combine_adds_translations() {
    let mut a = Transform::identity();
    a.translate(10, -20);
    let mut b = Transform::identity();
    b.translate(5, 7);
    let c = combine(a, b);
    assert_eq!(c.tx, 15);
    assert_eq!(c.ty, -13);
}
