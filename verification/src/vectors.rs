//! Free-function vector operations: the same algebra as the `Vec2`
//! methods, offered in a function-first style. All of them delegate to
//! the methods, so the zero-vector guards apply here too.

use crate::scalar::MAX_COORD;
use crate::vec::{mul_scaled, Vec2};
use vstd::prelude::*;

verus! {

/// Return versor indicating direction of given vector.
pub fn dir(v: &Vec2) -> (r: Vec2)
    requires
        v.in_bounds(),
    ensures
        (r.x as int, r.y as int) == v.dir_spec(),
        r.in_bounds(),
{
    v.dir()
}

/// Clamp vector magnitude.
pub fn clamp_magnitude(v: Vec2, min: i64, max: i64) -> (r: Vec2)
    requires
        v.in_bounds(),
        -MAX_COORD <= min <= MAX_COORD,
        -MAX_COORD <= max <= MAX_COORD,
    ensures
        (r.x as int, r.y as int) == v.clamp_mag_spec(min as int, max as int),
        r.in_bounds(),
{
    v.clamp_mag(min, max)
}

/// Change magnitude of vector.
pub fn change_magnitude(v: Vec2, new_mag: i64) -> (r: Vec2)
    requires
        v.in_bounds(),
        -MAX_COORD <= new_mag <= MAX_COORD,
    ensures
        (r.x as int, r.y as int) == v.change_mag_spec(new_mag as int),
        r.in_bounds(),
{
    v.change_mag(new_mag)
}

/// Calculate magnitude of vector.
pub fn magnitude(v: &Vec2) -> (r: i64)
    requires
        v.in_bounds(),
    ensures
        r == v.mag_spec(),
        0 <= r,
{
    v.mag()
}

/// Calculate multiplication between scalar and vector.
pub fn scalar_mul(s: i64, v: &Vec2) -> (r: Vec2)
    requires
        v.in_bounds(),
        -MAX_COORD <= s <= MAX_COORD,
    ensures
        r.x == mul_scaled(v.x as int, s as int),
        r.y == mul_scaled(v.y as int, s as int),
{
    v.scalar_mul(s)
}

/// Add two vectors together.
pub fn add(lhs: &Vec2, rhs: &Vec2) -> (r: Vec2)
    requires
        lhs.in_bounds(),
        rhs.in_bounds(),
    ensures
        r.x == lhs.x + rhs.x,
        r.y == lhs.y + rhs.y,
{
    Vec2::new(lhs.x + rhs.x, lhs.y + rhs.y)
}

} // verus!
