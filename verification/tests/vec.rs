//! The vector-algebra tests: addition, scaling, direction, magnitude and
//! the angle mapping. One fixed-point unit is `SCALE` (1000), so `2.0`
//! is written `2000`.

use ship_core::scalar::{HALF_PI_RADS, PI_RADS, THREE_HALF_PI_RADS, TWO_PI_RADS};
use ship_core::vec::Vec2;

#[test]
fn vec_simple_float_add() {
    assert_eq!(
        Vec2::new(2000, 2000).vec_add(Vec2::new(2000, 2000)),
        Vec2::new(4000, 4000)
    );
}

#[test]
fn vec_simple_scalar_mul() {
    assert_eq!(Vec2::new(2000, 2000).scalar_mul(3000), Vec2::new(6000, 6000));
}

#[test]
fn vec_dir() {
    // The unit diagonal is (sqrt(2)/2, sqrt(2)/2), about 707 thousandths
    // per coordinate; each result must land within one unit of it.
    let expected: i64 = 707;
    for v in [
        Vec2::new(1000, 1000),
        Vec2::new(2000, 2000),
        Vec2::new(3000, 3000),
        Vec2::new(4000, 4000),
    ] {
        let d = v.dir();
        assert!((d.x - expected).abs() <= 1 && (d.y - expected).abs() <= 1);
    }
}

#[test]
fn vec_mag() {
    // sqrt(2), sqrt(8), sqrt(18) and sqrt(32), in thousandths.
    assert!((Vec2::new(1000, 1000).mag() - 1414).abs() <= 1);
    assert!((Vec2::new(2000, 2000).mag() - 2828).abs() <= 1);
    assert!((Vec2::new(3000, 3000).mag() - 4242).abs() <= 1);
    assert!((Vec2::new(4000, 4000).mag() - 5656).abs() <= 1);
}

#[test]
fn dir_angle_always_positive() {
    // Numbers correspond to quadrants
    let angle1 = Vec2::new(1000, 1000).dir_angle().unwrap();
    let angle2 = Vec2::new(-1000, 1000).dir_angle().unwrap();
    let angle3 = Vec2::new(-1000, -1000).dir_angle().unwrap();
    let angle4 = Vec2::new(1000, -1000).dir_angle().unwrap();

    // All should be positive angles
    assert!(angle1 > 0 && angle2 > 0 && angle3 > 0 && angle4 > 0);
}

#[test]
fn dir_angle_stays_in_quadrant_of_vector() {
    // Numbers correspond to quadrants
    let angle1 = Vec2::new(1000, 1000).dir_angle().unwrap();
    let angle2 = Vec2::new(-1000, 1000).dir_angle().unwrap();
    let angle3 = Vec2::new(-1000, -1000).dir_angle().unwrap();
    let angle4 = Vec2::new(1000, -1000).dir_angle().unwrap();

    // All angles should lie in their respective quadrants
    assert!(0 < angle1 && angle1 < HALF_PI_RADS);
    assert!(HALF_PI_RADS < angle2 && angle2 < PI_RADS);
    assert!(PI_RADS < angle3 && angle3 < THREE_HALF_PI_RADS);
    assert!(THREE_HALF_PI_RADS < angle4 && angle4 < TWO_PI_RADS);
}

#[test]
fn change_mag_of_epsilon_vec_sets_default_position() {
    let angle = Vec2::origin().change_mag(1000).dir_angle().unwrap();

    assert_eq!(angle, 0);
}
