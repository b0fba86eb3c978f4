//! Geometric 2D vectors over fixed-point scalars: magnitude, direction,
//! angle conversion, clamping and the basic arithmetic.

use crate::scalar;
use crate::scalar::{HALF_PI_RADS, MAX_COORD, PI_RADS, SCALE, TWO_PI_RADS};
use vstd::arithmetic::div_mod::{
    lemma_div_multiples_vanish, lemma_div_of0, lemma_mod_self_0, lemma_small_mod,
};
use vstd::prelude::*;

verus! {

/// Type shared by all elements inside vectors: a fixed-point scalar.
pub type VecEle = i64;

/// Fixed-point radians used to represent angles.
pub type Rads = i64;

/// Zero element.
pub const ZERO_VEC_ELE: i64 = 0;

/// Element which is approximately 0: the smallest positive fixed-point
/// value, playing the role the machine epsilon plays for floats. A
/// magnitude below it counts as "no direction".
pub const EPSILON_VEC_ELE: i64 = 1;

/// Geometric vector of 2 fixed-point coordinates.
#[derive(Clone, Copy, Debug, PartialEq, Eq, Structural)]
pub struct Vec2 {
    pub x: VecEle,
    pub y: VecEle,
}

/// A product scaled back down by `SCALE`: the fixed-point rendering of
/// the real product `(a / SCALE) * (s / SCALE)`.
pub open spec fn mul_scaled(a: int, s: int) -> int {
    scalar::div_trunc(a * s, SCALE as int)
}

/// The magnitude of a pair of integer coordinates.
pub open spec fn mag_of(x: int, y: int) -> int {
    scalar::isqrt_spec(x * x + y * y)
}

/// Relies on num::pow: raising a number to the power 2 multiplies it by
/// itself once.
#[verifier::external_body]
fn sq(a: i64) -> (r: i64)
    requires
        -3_000_000_000 <= a <= 3_000_000_000,
    ensures
        r == a * a,
{
    num::pow(a, 2)
}

impl Vec2 {
    /// Both coordinates lie in the range the fixed-point arithmetic
    /// accepts.
    pub open spec fn in_bounds(self) -> bool {
        &&& -MAX_COORD <= self.x <= MAX_COORD
        &&& -MAX_COORD <= self.y <= MAX_COORD
    }

    /// The squared magnitude.
    pub open spec fn mag_sq(self) -> int {
        self.x * self.x + self.y * self.y
    }

    /// The magnitude: the integer square root of the squared magnitude.
    pub open spec fn mag_spec(self) -> int {
        scalar::isqrt_spec(self.mag_sq())
    }

    /// Create new vector from its two coordinates.
    pub fn new(x: VecEle, y: VecEle) -> (r: Self)
        ensures
            r.x == x,
            r.y == y,
    {
        Vec2 { x, y }
    }

    /// Create the Vec2 denoting the origin.
    pub fn origin() -> (r: Self)
        ensures
            r.x == 0,
            r.y == 0,
    {
        Self::new(ZERO_VEC_ELE, ZERO_VEC_ELE)
    }

    /// Get vector magnitude.
    pub fn mag(&self) -> (r: i64)
        requires
            self.in_bounds(),
        ensures
            r == self.mag_spec(),
            0 <= r <= 2_900_000_000,
            self.x <= r && -self.x <= r,
            self.y <= r && -self.y <= r,
            (r == 0) <==> (self.x == 0 && self.y == 0),
    {
        let xx: i64 = sq(self.x);
        let yy: i64 = sq(self.y);
        proof {
            assert(0 <= self.x * self.x <= 4_000_000_000_000_000_000
                && 0 <= self.y * self.y <= 4_000_000_000_000_000_000) by (nonlinear_arith)
                requires
                    -MAX_COORD <= self.x <= MAX_COORD,
                    -MAX_COORD <= self.y <= MAX_COORD,
                    MAX_COORD == 2_000_000_000,
            ;
        }
        let r: i64 = scalar::isqrt(xx + yy);
        proof {
            let sx = self.x as int;
            let sy = self.y as int;
            let n = self.mag_sq();
            let ax = if sx >= 0 { sx } else { -sx };
            let ay = if sy >= 0 { sy } else { -sy };
            scalar::lemma_isqrt_exact(ax);
            scalar::lemma_isqrt_exact(ay);
            assert(ax * ax == sx * sx && ay * ay == sy * sy && sx * sx >= 0 && sy * sy >= 0)
                by (nonlinear_arith)
                requires
                    ax == if sx >= 0 { sx } else { -sx },
                    ay == if sy >= 0 { sy } else { -sy },
            ;
            scalar::lemma_isqrt_monotone(ax * ax, n);
            scalar::lemma_isqrt_monotone(ay * ay, n);
            scalar::lemma_isqrt_bounds(n);
            assert(r <= 2_900_000_000) by (nonlinear_arith)
                requires
                    0 <= r,
                    r * r <= 8_000_000_000_000_000_000,
            ;
            if self.x == 0 && self.y == 0 {
                assert(sx * sx == 0 && sy * sy == 0) by (nonlinear_arith)
                    requires
                        sx == 0,
                        sy == 0,
                ;
            } else {
                assert(n >= 1) by (nonlinear_arith)
                    requires
                        !(sx == 0 && sy == 0),
                        n == sx * sx + sy * sy,
                ;
                assert(r >= 1) by (nonlinear_arith)
                    requires
                        n >= 1,
                        r >= 0,
                        n < (r + 1) * (r + 1),
                ;
            }
        }
        r
    }

    /// Add to other vector.
    pub fn vec_add(&self, other: Vec2) -> (r: Self)
        requires
            self.in_bounds(),
            other.in_bounds(),
        ensures
            r.x == other.x + self.x,
            r.y == other.y + self.y,
    {
        Vec2::new(other.x + self.x, other.y + self.y)
    }

    /// Multiply with given scalar (a fixed-point value, so the product of
    /// each coordinate is scaled back down by `SCALE`).
    pub fn scalar_mul(&self, s: VecEle) -> (r: Self)
        requires
            self.in_bounds(),
            -3_000_000_000 <= s <= 3_000_000_000,
        ensures
            r.x == mul_scaled(self.x as int, s as int),
            r.y == mul_scaled(self.y as int, s as int),
    {
        proof {
            assert(-6_000_000_000_000_000_000 <= self.x * s <= 6_000_000_000_000_000_000
                && -6_000_000_000_000_000_000 <= self.y * s <= 6_000_000_000_000_000_000)
                by (nonlinear_arith)
                requires
                    -MAX_COORD <= self.x <= MAX_COORD,
                    -MAX_COORD <= self.y <= MAX_COORD,
                    MAX_COORD == 2_000_000_000,
                    -3_000_000_000 <= s <= 3_000_000_000,
            ;
        }
        let rx: i64 = scalar::trunc_div(self.x * s, SCALE);
        let ry: i64 = scalar::trunc_div(self.y * s, SCALE);
        Vec2::new(rx, ry)
    }

    /// The direction versor, component by component: each coordinate
    /// divided by the magnitude, in fixed point; the zero vector keeps no
    /// direction.
    pub open spec fn dir_spec(self) -> (int, int) {
        let m = self.mag_spec();
        if m < EPSILON_VEC_ELE {
            (0, 0)
        } else {
            (scalar::div_trunc(self.x * SCALE, m), scalar::div_trunc(self.y * SCALE, m))
        }
    }

    /// The unit vector at a given angle, component by component: the
    /// cosine and sine of the angle.
    pub open spec fn from_rads_spec(rads: int) -> (int, int) {
        (scalar::cos_spec(rads), scalar::sin_spec(rads))
    }

    /// Get unit vector indicating direction from angle expressed in
    /// fixed-point radians.
    fn from_rads(rads: Rads) -> (r: Vec2)
        ensures
            (r.x as int, r.y as int) == Self::from_rads_spec(rads as int),
            -SCALE <= r.x <= SCALE,
            -SCALE <= r.y <= SCALE,
            r.in_bounds(),
    {
        Vec2::new(scalar::cos_fp(rads), scalar::sin_fp(rads))
    }

    /// Get versor pointing in the direction of self.
    pub fn dir(self) -> (r: Vec2)
        requires
            self.in_bounds(),
        ensures
            (r.x as int, r.y as int) == self.dir_spec(),
            -SCALE <= r.x <= SCALE,
            -SCALE <= r.y <= SCALE,
            r.in_bounds(),
    {
        let m: i64 = self.mag();
        if m < EPSILON_VEC_ELE {
            Vec2::new(ZERO_VEC_ELE, ZERO_VEC_ELE)
        } else {
            let rx: i64 = scalar::trunc_div(self.x * SCALE, m);
            let ry: i64 = scalar::trunc_div(self.y * SCALE, m);
            proof {
                lemma_scaled_component_bounded(self.x as int, m as int);
                lemma_scaled_component_bounded(self.y as int, m as int);
            }
            Vec2::new(rx, ry)
        }
    }

    /// The angle the vector points to, mapped into `[0, 2 pi)` by
    /// quadrant-aware arctangent branching; a vector without direction
    /// has no angle.
    pub open spec fn dir_angle_val(self) -> int {
        let a = scalar::atan_ratio_spec(self.y as int, self.x as int);
        if self.x >= 0 && self.y >= 0 {
            a
        } else if self.x < 0 && self.y >= 0 {
            HALF_PI_RADS - a
        } else if self.x < 0 && self.y < 0 {
            PI_RADS + a
        } else {
            TWO_PI_RADS + a
        }
    }

    /// Get angle associated to direction that vector is pointing to.
    ///
    /// NB. Returns `None` if vector is too small (and hence has no
    /// direction). Any returned angle is nonnegative, below a full turn,
    /// and lies in the closed span of the quadrant of the vector.
    pub fn dir_angle(self) -> (r: Option<Rads>)
        requires
            self.in_bounds(),
        ensures
            r is Some <==> self.mag_spec() >= EPSILON_VEC_ELE,
            r matches Some(a) ==> a == self.dir_angle_val(),
            r matches Some(a) ==> 0 <= a < TWO_PI_RADS,
            r matches Some(a) ==> (self.x >= 0 && self.y >= 0 ==> 0 <= a <= HALF_PI_RADS),
            r matches Some(a) ==> (self.x < 0 && self.y >= 0 ==> HALF_PI_RADS <= a < PI_RADS),
            r matches Some(a) ==> (self.x < 0 && self.y < 0 ==> PI_RADS < a < PI_RADS
                + HALF_PI_RADS),
            r matches Some(a) ==> (self.x >= 0 && self.y < 0 ==> PI_RADS + HALF_PI_RADS <= a
                < TWO_PI_RADS),
    {
        let m: i64 = self.mag();
        if m < EPSILON_VEC_ELE {
            None
        } else {
            let atan: i64 = scalar::atan_ratio(self.y, self.x);
            Some(
                if self.x >= 0 && self.y >= 0 {
                    // First quadrant
                    atan
                } else if self.x < 0 && self.y >= 0 {
                    // Second quadrant
                    HALF_PI_RADS - atan
                } else if self.x < 0 && self.y < 0 {
                    // Third quadrant
                    PI_RADS + atan
                } else {
                    // Fourth quadrant
                    // NB. since `atan` is negative here, the value of the
                    // angle does not reach 2 pi
                    TWO_PI_RADS + atan
                },
            )
        }
    }

    /// A vector with the given magnitude and the direction of `self`,
    /// component by component; a vector without direction defaults to
    /// the positive x axis.
    pub open spec fn change_mag_spec(self, new_mag: int) -> (int, int) {
        if self.mag_spec() < EPSILON_VEC_ELE {
            (mul_scaled(SCALE as int, new_mag), mul_scaled(0, new_mag))
        } else {
            let d = self.dir_spec();
            (mul_scaled(d.0, new_mag), mul_scaled(d.1, new_mag))
        }
    }

    /// Return vector with given magnitude without changing its direction.
    pub fn change_mag(self, new_mag: VecEle) -> (r: Vec2)
        requires
            self.in_bounds(),
            -MAX_COORD <= new_mag <= MAX_COORD,
        ensures
            (r.x as int, r.y as int) == self.change_mag_spec(new_mag as int),
            new_mag >= 0 ==> -new_mag <= r.x <= new_mag && -new_mag <= r.y <= new_mag,
            new_mag < 0 ==> new_mag <= r.x <= -new_mag && new_mag <= r.y <= -new_mag,
            r.in_bounds(),
    {
        let r: Vec2 = if self.mag() < EPSILON_VEC_ELE {
            Vec2::new(SCALE, ZERO_VEC_ELE).scalar_mul(new_mag)
        } else {
            self.dir().scalar_mul(new_mag)
        };
        proof {
            let nm = new_mag as int;
            let b = if nm >= 0 { nm } else { -nm };
            let d = if self.mag_spec() < EPSILON_VEC_ELE {
                (SCALE as int, 0int)
            } else {
                self.dir_spec()
            };
            assert(-(b * SCALE) <= d.0 * nm <= b * SCALE && -(b * SCALE) <= d.1 * nm <= b
                * SCALE) by (nonlinear_arith)
                requires
                    -SCALE <= d.0 <= SCALE,
                    -SCALE <= d.1 <= SCALE,
                    b == if nm >= 0 { nm } else { -nm },
            ;
            scalar::lemma_div_trunc_bound(d.0 * nm, SCALE as int, b);
            scalar::lemma_div_trunc_bound(d.1 * nm, SCALE as int, b);
        }
        r
    }

    /// A vector with the magnitude of `self` and the given direction,
    /// component by component.
    pub open spec fn change_dir_angle_spec(self, new_dir_angle: int) -> (int, int) {
        let u = Self::from_rads_spec(new_dir_angle);
        (mul_scaled(u.0, self.mag_spec()), mul_scaled(u.1, self.mag_spec()))
    }

    /// Return vector with direction as specified and unvaried magnitude.
    pub fn change_dir_angle(self, new_dir_angle: Rads) -> (r: Vec2)
        requires
            self.in_bounds(),
        ensures
            (r.x as int, r.y as int) == self.change_dir_angle_spec(new_dir_angle as int),
            -self.mag_spec() <= r.x <= self.mag_spec(),
            -self.mag_spec() <= r.y <= self.mag_spec(),
    {
        let m: i64 = self.mag();
        let r: Vec2 = Vec2::from_rads(new_dir_angle).scalar_mul(m);
        proof {
            let u = Self::from_rads_spec(new_dir_angle as int);
            assert(-(m * SCALE) <= u.0 * m <= m * SCALE && -(m * SCALE) <= u.1 * m <= m
                * SCALE) by (nonlinear_arith)
                requires
                    -SCALE <= u.0 <= SCALE,
                    -SCALE <= u.1 <= SCALE,
                    0 <= m,
            ;
            scalar::lemma_div_trunc_bound(u.0 * (m as int), SCALE as int, m as int);
            scalar::lemma_div_trunc_bound(u.1 * (m as int), SCALE as int, m as int);
        }
        r
    }

    /// The magnitude clamped into `[min, max]`, component by component:
    /// scaling only, never a change of direction.
    pub open spec fn clamp_mag_spec(self, min: int, max: int) -> (int, int) {
        let m = self.mag_spec();
        if m < min {
            self.change_mag_spec(min)
        } else if m > max {
            self.change_mag_spec(max)
        } else {
            (self.x as int, self.y as int)
        }
    }

    /// Clamp magnitude between given range.
    pub fn clamp_mag(self, min: VecEle, max: VecEle) -> (r: Vec2)
        requires
            self.in_bounds(),
            -MAX_COORD <= min <= MAX_COORD,
            -MAX_COORD <= max <= MAX_COORD,
        ensures
            (r.x as int, r.y as int) == self.clamp_mag_spec(min as int, max as int),
            r.in_bounds(),
            0 <= min <= max ==> -max <= r.x <= max && -max <= r.y <= max,
    {
        let m: i64 = self.mag();
        if m < min {
            self.change_mag(min)
        } else if m > max {
            self.change_mag(max)
        } else {
            self
        }
    }

    /// Clamp on given quantity: like `clamp_mag`, but the scalar held to
    /// the range is computed by the caller-supplied closure rather than
    /// being the magnitude.
    pub fn clamp_on<F: FnOnce(Vec2) -> VecEle>(
        self,
        clamp_value_calculator: F,
        min: VecEle,
        max: VecEle,
    ) -> (r: Vec2)
        requires
            self.in_bounds(),
            -MAX_COORD <= min <= MAX_COORD,
            -MAX_COORD <= max <= MAX_COORD,
            call_requires(clamp_value_calculator, (self,)),
        ensures
            exists|cv: i64|
                {
                    &&& #[trigger] call_ensures(clamp_value_calculator, (self,), cv)
                    &&& (r.x as int, r.y as int) == (if cv < min {
                        self.change_mag_spec(min as int)
                    } else if cv > max {
                        self.change_mag_spec(max as int)
                    } else {
                        (self.x as int, self.y as int)
                    })
                },
            r.in_bounds(),
    {
        let clamp_value: i64 = clamp_value_calculator(self);
        if clamp_value < min {
            self.change_mag(min)
        } else if clamp_value > max {
            self.change_mag(max)
        } else {
            self
        }
    }

    /// Zero the vector out if its magnitude goes under the minimum
    /// specified, component by component.
    pub open spec fn with_min_spec(self, min: int) -> (int, int) {
        if self.mag_spec() < min {
            (0, 0)
        } else {
            (self.x as int, self.y as int)
        }
    }

    /// Set vector to the origin if magnitude goes under minimum
    /// specified.
    pub fn with_min(self, min: VecEle) -> (r: Vec2)
        requires
            self.in_bounds(),
        ensures
            (r.x as int, r.y as int) == self.with_min_spec(min as int),
            r.in_bounds(),
    {
        if self.mag() < min {
            Vec2::origin()
        } else {
            self
        }
    }
}

/// For `|c| <= m`, the scaled quotient `c * SCALE / m` stays within one
/// fixed-point unit: the components of a versor lie in `[-SCALE, SCALE]`.
proof fn lemma_scaled_component_bounded(c: int, m: int)
    requires
        1 <= m,
        -m <= c <= m,
    ensures
        -SCALE <= scalar::div_trunc(c * SCALE, m) <= SCALE,
{
    scalar::lemma_div_trunc_bound(c * SCALE, m, SCALE as int);
}

/// Each coordinate of a vector is bounded by its magnitude.
proof fn lemma_components_within_mag(v: Vec2)
    ensures
        -v.mag_spec() <= v.x <= v.mag_spec(),
        -v.mag_spec() <= v.y <= v.mag_spec(),
        0 <= v.mag_spec(),
        v.mag_spec() * v.mag_spec() <= v.mag_sq(),
        v.mag_sq() < (v.mag_spec() + 1) * (v.mag_spec() + 1),
{
    let sx = v.x as int;
    let sy = v.y as int;
    let n = v.mag_sq();
    let ax = if sx >= 0 { sx } else { -sx };
    let ay = if sy >= 0 { sy } else { -sy };
    scalar::lemma_isqrt_exact(ax);
    scalar::lemma_isqrt_exact(ay);
    assert(ax * ax == sx * sx && ay * ay == sy * sy && sx * sx >= 0 && sy * sy >= 0)
        by (nonlinear_arith)
        requires
            ax == if sx >= 0 { sx } else { -sx },
            ay == if sy >= 0 { sy } else { -sy },
    ;
    scalar::lemma_isqrt_monotone(ax * ax, n);
    scalar::lemma_isqrt_monotone(ay * ay, n);
    scalar::lemma_isqrt_bounds(n);
}

/// Squared-magnitude bounds for a pair of truncating divisions by `w`:
/// scaling a pair of coordinates down can only shrink it, and by less
/// than one unit of the divisor per coordinate.
proof fn lemma_pair_div_sq_bounds(ux: int, uy: int, w: int)
    requires
        1 <= w,
    ensures
        ({
            let cx = scalar::div_trunc(ux, w);
            let cy = scalar::div_trunc(uy, w);
            let ax = if ux >= 0 { ux } else { -ux };
            let ay = if uy >= 0 { uy } else { -uy };
            &&& (cx * cx + cy * cy) * (w * w) <= ux * ux + uy * uy
            &&& ux * ux + uy * uy <= (cx * cx + cy * cy) * (w * w) + 2 * w * (ax + ay) + 2 * (w
                * w)
        }),
{
    let cx = scalar::div_trunc(ux, w);
    let cy = scalar::div_trunc(uy, w);
    let ax = if ux >= 0 { ux } else { -ux };
    let ay = if uy >= 0 { uy } else { -uy };
    let ex = ux - cx * w;
    let ey = uy - cy * w;
    scalar::lemma_div_trunc_error(ux, w);
    scalar::lemma_div_trunc_error(uy, w);
    assert((cx * w) * (cx * w) <= ux * ux && ux * ux <= (cx * w) * (cx * w) + 2 * w * ax + w * w)
        by (nonlinear_arith)
        requires
            1 <= w,
            ex == ux - cx * w,
            ux >= 0 ==> 0 <= ex < w && ex <= ux,
            ux < 0 ==> -w < ex <= 0 && ux <= ex,
            ax == if ux >= 0 { ux } else { -ux },
    ;
    assert((cy * w) * (cy * w) <= uy * uy && uy * uy <= (cy * w) * (cy * w) + 2 * w * ay + w * w)
        by (nonlinear_arith)
        requires
            1 <= w,
            ey == uy - cy * w,
            uy >= 0 ==> 0 <= ey < w && ey <= uy,
            uy < 0 ==> -w < ey <= 0 && uy <= ey,
            ay == if uy >= 0 { uy } else { -uy },
    ;
    assert((cx * w) * (cx * w) == (cx * cx) * (w * w) && (cy * w) * (cy * w) == (cy * cy) * (w
        * w)) by (nonlinear_arith);
    assert((cx * cx + cy * cy) * (w * w) == (cx * cx) * (w * w) + (cy * cy) * (w * w))
        by (nonlinear_arith);
    assert(2 * w * (ax + ay) == 2 * w * ax + 2 * w * ay) by (nonlinear_arith);
}

/// Any vector of magnitude at least one unit has a direction versor whose
/// magnitude is the unit, within three thousandths below it.
pub proof fn lemma_dir_is_unit(v: Vec2)
    requires
        v.in_bounds(),
        v.mag_spec() >= SCALE,
    ensures
        SCALE - 3 <= mag_of(v.dir_spec().0, v.dir_spec().1) <= SCALE,
{
    let x = v.x as int;
    let y = v.y as int;
    let m = v.mag_spec();
    let n = v.mag_sq();
    lemma_components_within_mag(v);
    let cx = scalar::div_trunc(x * SCALE, m);
    let cy = scalar::div_trunc(y * SCALE, m);
    lemma_pair_div_sq_bounds(x * SCALE, y * SCALE, m);
    let s = cx * cx + cy * cy;
    assert((x * SCALE) * (x * SCALE) == 1_000_000 * (x * x) && (y * SCALE) * (y * SCALE)
        == 1_000_000 * (y * y)) by (nonlinear_arith);
    let axs = if x * SCALE >= 0 { x * SCALE } else { -(x * SCALE) };
    let ays = if y * SCALE >= 0 { y * SCALE } else { -(y * SCALE) };
    assert((m + 1) * (m + 1) == m * m + 2 * m + 1) by (nonlinear_arith);
    assert(1_000_000 * (2 * m) <= 2000 * (m * m)) by (nonlinear_arith)
        requires
            m >= 1000,
    ;
    assert(s * (m * m) <= 1_002_000 * (m * m));
    assert(s <= 1_002_000) by (nonlinear_arith)
        requires
            s * (m * m) <= 1_002_000 * (m * m),
            m >= 1,
    ;
    assert(2 * m * (axs + ays) <= 4000 * (m * m)) by (nonlinear_arith)
        requires
            0 <= axs <= 1000 * m,
            0 <= ays <= 1000 * m,
            1 <= m,
    ;
    assert(s * (m * m) >= 995_998 * (m * m));
    assert(s >= 995_998) by (nonlinear_arith)
        requires
            s * (m * m) >= 995_998 * (m * m),
            m >= 1,
    ;
    scalar::lemma_isqrt_monotone(995_998, s);
    scalar::lemma_isqrt_monotone(s, 1_002_000);
    scalar::lemma_isqrt_unique(995_998, 997);
    scalar::lemma_isqrt_unique(1_002_000, 1000);
}

/// A vector without direction acquires its new magnitude along the
/// positive x axis: changing the magnitude of a (near-)zero vector gives
/// exactly `(new_mag, 0)`, never the origin.
pub proof fn lemma_change_mag_default_direction(v: Vec2, nm: int)
    requires
        v.mag_spec() < EPSILON_VEC_ELE,
    ensures
        v.change_mag_spec(nm) == (nm, 0int),
{
    assert(0 * nm == 0) by (nonlinear_arith);
    lemma_div_of0(SCALE as int);
    if nm >= 0 {
        lemma_div_multiples_vanish(nm, SCALE as int);
        assert((SCALE as int) * nm == SCALE * nm);
    } else {
        lemma_div_multiples_vanish(-nm, SCALE as int);
        assert((SCALE as int) * (-nm) == -(SCALE * nm)) by (nonlinear_arith);
    }
}

/// Changing a magnitude really settles on the asked-for magnitude: exact
/// for a vector without direction, and within six thousandths of the
/// request for any vector and target of at least one unit.
pub proof fn lemma_change_mag_settles(v: Vec2, nm: int)
    requires
        v.in_bounds(),
        0 <= nm <= MAX_COORD,
    ensures
        ({
            let r = v.change_mag_spec(nm);
            let rm = mag_of(r.0, r.1);
            &&& v.mag_spec() == 0 ==> rm == nm
            &&& nm == 0 ==> rm == 0
            &&& v.mag_spec() >= SCALE && nm >= SCALE ==> 994 * nm - 1000 <= 1000 * rm <= 1001
                * nm
        }),
{
    let r = v.change_mag_spec(nm);
    let rm = mag_of(r.0, r.1);
    if v.mag_spec() == 0 {
        lemma_change_mag_default_direction(v, nm);
        assert(nm * nm + 0 * 0 == nm * nm) by (nonlinear_arith);
        scalar::lemma_isqrt_exact(nm);
    } else {
        let m = v.mag_spec();
        let x = v.x as int;
        let y = v.y as int;
        lemma_components_within_mag(v);
        let dx = scalar::div_trunc(x * SCALE, m);
        let dy = scalar::div_trunc(y * SCALE, m);
        scalar::lemma_div_trunc_bound(x * SCALE, m, SCALE as int);
        scalar::lemma_div_trunc_bound(y * SCALE, m, SCALE as int);
        if nm == 0 {
            assert(dx * 0 == 0 && dy * 0 == 0) by (nonlinear_arith);
            lemma_div_of0(SCALE as int);
        } else if m >= SCALE && nm >= SCALE {
            lemma_dir_is_unit(v);
            let sd = mag_of(dx, dy);
            let s2 = dx * dx + dy * dy;
            scalar::lemma_isqrt_bounds(s2);
            assert(s2 >= 0) by (nonlinear_arith)
                requires
                    s2 == dx * dx + dy * dy,
            ;
            assert(994_009 <= s2 <= 1_002_000) by (nonlinear_arith)
                requires
                    997 <= sd <= 1000,
                    sd * sd <= s2,
                    s2 < (sd + 1) * (sd + 1),
            ;
            lemma_pair_div_sq_bounds(dx * nm, dy * nm, SCALE as int);
            let cx = scalar::div_trunc(dx * nm, SCALE as int);
            let cy = scalar::div_trunc(dy * nm, SCALE as int);
            let t = cx * cx + cy * cy;
            assert((dx * nm) * (dx * nm) + (dy * nm) * (dy * nm) == s2 * (nm * nm))
                by (nonlinear_arith)
                requires
                    s2 == dx * dx + dy * dy,
            ;
            assert(994_009 * (nm * nm) <= s2 * (nm * nm) <= 1_002_000 * (nm * nm))
                by (nonlinear_arith)
                requires
                    994_009 <= s2 <= 1_002_000,
            ;
            let anx = if dx * nm >= 0 { dx * nm } else { -(dx * nm) };
            let any_ = if dy * nm >= 0 { dy * nm } else { -(dy * nm) };
            assert(0 <= anx <= 1000 * nm && 0 <= any_ <= 1000 * nm) by (nonlinear_arith)
                requires
                    -1000 <= dx <= 1000,
                    -1000 <= dy <= 1000,
                    0 <= nm,
                    anx == if dx * nm >= 0 { dx * nm } else { -(dx * nm) },
                    any_ == if dy * nm >= 0 { dy * nm } else { -(dy * nm) },
            ;
            // upper bound: (1000 rm)^2 <= (1001 nm)^2
            assert(0 <= t) by (nonlinear_arith)
                requires
                    t == cx * cx + cy * cy,
            ;
            scalar::lemma_isqrt_bounds(t);
            assert(rm == scalar::isqrt_spec(t));
            let rmv = scalar::isqrt_spec(t);
            assert(t * 1_000_000 <= 1_002_000 * (nm * nm));
            assert(1000 * rmv <= 1001 * nm) by (nonlinear_arith)
                requires
                    0 <= rmv,
                    0 <= nm,
                    rmv * rmv <= t,
                    t * 1_000_000 <= 1_002_000 * (nm * nm),
            ;
            // lower bound: 10^6 (rm+1)^2 > 990007 nm^2 >= (994 nm)^2
            assert(2 * 1000 * (anx + any_) + 2 * (1000 * 1000) <= 4000 * nm * 1000 + 2_000_000);
            assert(4_000_000 * nm + 2_000_000 <= 4002 * (nm * nm)) by (nonlinear_arith)
                requires
                    nm >= 1000,
            ;
            assert(t * 1_000_000 >= 990_007 * (nm * nm));
            assert(1000 * rmv >= 994 * nm - 1000) by (nonlinear_arith)
                requires
                    0 <= rmv,
                    0 <= nm,
                    t < (rmv + 1) * (rmv + 1),
                    t * 1_000_000 >= 990_007 * (nm * nm),
            ;
        }
    }
}

/// The four canonical key angles map to exact axis versors: the angle
/// convention of the action dispatcher loses nothing to rounding.
pub proof fn lemma_canonical_angles()
    ensures
        Vec2::from_rads_spec(0) == (SCALE as int, 0int),
        Vec2::from_rads_spec(HALF_PI_RADS as int) == (0int, SCALE as int),
        Vec2::from_rads_spec(PI_RADS as int) == (-(SCALE as int), 0int),
        Vec2::from_rads_spec(scalar::THREE_HALF_PI_RADS as int) == (0int, -(SCALE as int)),
{
    let t = TWO_PI_RADS as int;
    lemma_small_mod(0nat, 6284nat);
    lemma_small_mod(1571nat, 6284nat);
    lemma_small_mod(3142nat, 6284nat);
    lemma_small_mod(4713nat, 6284nat);
    lemma_mod_self_0(6284int);
    // One arch of the sine at its three exact points: 0, pi / 2 and pi.
    assert(scalar::sin_arch_spec(0) == 0) by {
        lemma_div_of0(49_360_820int);
    }
    assert(scalar::sin_arch_spec(3142) == 0) by {
        lemma_div_of0(49_360_820int);
    }
    assert(scalar::sin_arch_spec(1571) == 1000) by {
        assert(1571int * (3142 - 1571) == 2_468_041);
        lemma_div_multiples_vanish(1000int, 39_488_656int);
        assert(39_488_656int * 1000 == 39_488_656_000);
    }
    assert(scalar::sin_spec(0) == 0);
    assert(scalar::sin_spec(1571) == 1000);
    assert(scalar::sin_spec(3142) == 0);
    assert(scalar::sin_spec(4713) == -1000);
    assert(scalar::sin_spec(6284) == 0);
}

/// Clamping settles the magnitude into the requested band: above the
/// ceiling it comes back to the ceiling, under the floor it is raised to
/// the floor (both within six thousandths), and in between the vector is
/// returned unchanged.
pub proof fn lemma_clamp_mag_settles(v: Vec2, min: int, max: int)
    requires
        v.in_bounds(),
        0 <= min <= max <= MAX_COORD,
        min == 0 || min >= SCALE,
        max == 0 || max >= SCALE,
        v.mag_spec() == 0 || v.mag_spec() >= SCALE,
    ensures
        ({
            let r = v.clamp_mag_spec(min, max);
            let rm = mag_of(r.0, r.1);
            &&& v.mag_spec() < min ==> 994 * min - 1000 <= 1000 * rm <= 1001 * min
            &&& v.mag_spec() > max ==> 994 * max - 1000 <= 1000 * rm <= 1001 * max
            &&& min <= v.mag_spec() <= max ==> r == (v.x as int, v.y as int)
        }),
{
    let m = v.mag_spec();
    if m < min {
        lemma_change_mag_settles(v, min);
    } else if m > max {
        lemma_change_mag_settles(v, max);
    }
}

} // verus!
