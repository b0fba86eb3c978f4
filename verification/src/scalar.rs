//! Fixed-point scalar arithmetic: the scale constants, an integer square
//! root, and rational approximations of sine and arctangent.
//!
//! A scalar `s: i64` stands for the real number `s / SCALE`; an angle
//! `a: i64` stands for `a / SCALE` radians.

use vstd::arithmetic::mul::{lemma_mul_is_commutative, lemma_mul_nonnegative};
use vstd::arithmetic::div_mod::{
    lemma_add_mod_noop, lemma_div_is_ordered, lemma_div_is_ordered_by_denominator,
    lemma_div_multiples_vanish, lemma_div_nonincreasing, lemma_div_pos_is_pos,
    lemma_fundamental_div_mod, lemma_fundamental_div_mod_converse, lemma_small_mod,
};
use vstd::prelude::*;

verus! {

/// Fixed-point units per real unit (and per radian): the value that plays
/// the role of `1.0`.
pub const SCALE: i64 = 1000;

/// pi in fixed-point radians, rounded to the nearest unit.
pub const PI_RADS: i64 = 3142;

/// pi / 2 in fixed-point radians.
pub const HALF_PI_RADS: i64 = 1571;

/// 3 * pi / 2 in fixed-point radians.
pub const THREE_HALF_PI_RADS: i64 = 4713;

/// 2 * pi in fixed-point radians.
pub const TWO_PI_RADS: i64 = 6284;

/// Largest coordinate magnitude the vector operations accept; keeps every
/// intermediate product of the fixed-point arithmetic inside `i64`.
pub const MAX_COORD: i64 = 2_000_000_000;

/// The integer square root: the largest `r` with `r * r <= n`
/// (and `0` for negative arguments).
pub open spec fn isqrt_spec(n: int) -> int
    decreases n,
{
    if n <= 0 {
        0
    } else {
        let p = isqrt_spec(n - 1);
        if (p + 1) * (p + 1) <= n {
            p + 1
        } else {
            p
        }
    }
}

/// `isqrt_spec(n)` really is the integer square root of `n`.
pub proof fn lemma_isqrt_bounds(n: int)
    requires
        0 <= n,
    ensures
        0 <= isqrt_spec(n),
        isqrt_spec(n) * isqrt_spec(n) <= n,
        n < (isqrt_spec(n) + 1) * (isqrt_spec(n) + 1),
    decreases n,
{
    if n == 0 {
    } else {
        lemma_isqrt_bounds(n - 1);
        let p = isqrt_spec(n - 1);
        if (p + 1) * (p + 1) <= n {
            assert(n < (p + 2) * (p + 2)) by (nonlinear_arith)
                requires
                    0 <= p,
                    n - 1 < (p + 1) * (p + 1),
            ;
        }
    }
}

/// Any `r` between the square-root bounds is the integer square root.
pub proof fn lemma_isqrt_unique(n: int, r: int)
    requires
        0 <= n,
        0 <= r,
        r * r <= n,
        n < (r + 1) * (r + 1),
    ensures
        r == isqrt_spec(n),
{
    lemma_isqrt_bounds(n);
    let s = isqrt_spec(n);
    assert(r == s) by (nonlinear_arith)
        requires
            0 <= r,
            0 <= s,
            r * r <= n,
            n < (r + 1) * (r + 1),
            s * s <= n,
            n < (s + 1) * (s + 1),
    ;
}

/// The integer square root is monotone.
pub proof fn lemma_isqrt_monotone(a: int, b: int)
    requires
        0 <= a <= b,
    ensures
        isqrt_spec(a) <= isqrt_spec(b),
{
    lemma_isqrt_bounds(a);
    lemma_isqrt_bounds(b);
    let ra = isqrt_spec(a);
    let rb = isqrt_spec(b);
    assert(ra <= rb) by (nonlinear_arith)
        requires
            0 <= ra,
            0 <= rb,
            ra * ra <= a,
            a <= b,
            b < (rb + 1) * (rb + 1),
    ;
}

/// The integer square root of a perfect square.
pub proof fn lemma_isqrt_exact(x: int)
    requires
        0 <= x,
    ensures
        isqrt_spec(x * x) == x,
{
    assert(x * x < (x + 1) * (x + 1)) by (nonlinear_arith)
        requires
            0 <= x,
    ;
    assert(0 <= x * x) by (nonlinear_arith)
        requires
            0 <= x,
    ;
    lemma_isqrt_unique(x * x, x);
}

/// Compute the integer square root by bisection.
pub fn isqrt(n: i64) -> (r: i64)
    requires
        0 <= n,
    ensures
        r == isqrt_spec(n as int),
        0 <= r <= 3037000499,
{
    let mut lo: i64 = 0;
    let mut hi: i64 = 3037000500;
    assert(n < (hi as int) * (hi as int)) by (nonlinear_arith)
        requires
            n <= 0x7fffffffffffffff,
            hi == 3037000500,
    ;
    while lo + 1 < hi
        invariant
            0 <= lo < hi <= 3037000500,
            (lo as int) * (lo as int) <= n,
            n < (hi as int) * (hi as int),
        decreases hi - lo,
    {
        let mid: i64 = lo + (hi - lo) / 2;
        assert(lo < mid < hi);
        assert(mid * mid <= 0x7fffffffffffffff) by (nonlinear_arith)
            requires
                0 < mid <= 3037000499,
        ;
        if mid * mid <= n {
            lo = mid;
        } else {
            hi = mid;
        }
    }
    proof {
        lemma_isqrt_unique(n as int, lo as int);
    }
    lo
}

/// Truncating division by a positive divisor, as Rust's `/` computes it
/// for a possibly negative dividend.
pub open spec fn div_trunc(a: int, d: int) -> int {
    if a >= 0 {
        a / d
    } else {
        -((-a) / d)
    }
}

/// Divide, truncating towards zero.
pub fn trunc_div(a: i64, d: i64) -> (r: i64)
    requires
        1 <= d,
        i64::MIN < a,
    ensures
        r == div_trunc(a as int, d as int),
        a >= 0 ==> 0 <= r <= a,
        a < 0 ==> a <= r <= 0,
{
    if a >= 0 {
        proof {
            lemma_div_pos_is_pos(a as int, d as int);
            lemma_div_nonincreasing(a as int, d as int);
        }
        a / d
    } else {
        proof {
            lemma_div_pos_is_pos(-a as int, d as int);
            lemma_div_nonincreasing(-a as int, d as int);
        }
        -((-a) / d)
    }
}

/// Truncating division respects a symmetric bound: if `|a| <= b * d`
/// then `|a / d| <= b`.
pub proof fn lemma_div_trunc_bound(a: int, d: int, b: int)
    requires
        1 <= d,
        0 <= b,
        -(b * d) <= a <= b * d,
    ensures
        -b <= div_trunc(a, d) <= b,
{
    lemma_mul_is_commutative(b, d);
    if a >= 0 {
        lemma_div_pos_is_pos(a, d);
        lemma_div_is_ordered(a, b * d, d);
        lemma_div_multiples_vanish(b, d);
    } else {
        lemma_div_pos_is_pos(-a, d);
        lemma_div_is_ordered(-a, b * d, d);
        lemma_div_multiples_vanish(b, d);
    }
}

/// The error of a truncating division lies between zero and the divisor,
/// on the side of zero: truncation never grows a quotient's magnitude.
pub proof fn lemma_div_trunc_error(a: int, d: int)
    requires
        1 <= d,
    ensures
        ({
            let e = a - div_trunc(a, d) * d;
            &&& a >= 0 ==> 0 <= e < d && e <= a
            &&& a < 0 ==> -d < e <= 0 && a <= e
        }),
{
    if a >= 0 {
        lemma_fundamental_div_mod(a, d);
        lemma_mul_is_commutative(a / d, d);
        lemma_div_pos_is_pos(a, d);
        lemma_mul_nonnegative(a / d, d);
    } else {
        lemma_fundamental_div_mod(-a, d);
        lemma_mul_is_commutative((-a) / d, d);
        lemma_div_pos_is_pos(-a, d);
        lemma_mul_nonnegative((-a) / d, d);
        assert(a - (-((-a) / d)) * d == -((-a) - ((-a) / d) * d)) by (nonlinear_arith);
    }
}

/// The remainder of `a` modulo a positive `m`, always in `[0, m)`,
/// agreeing with the mathematical (Euclidean) remainder.
pub fn euclid_mod(a: i64, m: i64) -> (r: i64)
    requires
        1 <= m <= 100_000,
    ensures
        r == a as int % (m as int),
        0 <= r < m,
{
    let r0: i64 = a % m;
    if r0 < 0 {
        proof {
            // r0 == -((-a) % m); write a == q * m + (r0 + m) to pin a % m.
            let s = (-a) as int % (m as int);
            lemma_fundamental_div_mod(-a as int, m as int);
            let q = (-a) as int / (m as int);
            assert(a as int == (-q - 1) * (m as int) + (m - s)) by (nonlinear_arith)
                requires
                    -a == q * (m as int) + s,
                    m > 0,
            ;
            lemma_fundamental_div_mod_converse(a as int, m as int, -q - 1, m as int - s);
        }
        r0 + m
    } else {
        proof {
            if a < 0 {
                let s = (-a) as int % (m as int);
                lemma_fundamental_div_mod(-a as int, m as int);
                let q = (-a) as int / (m as int);
                assert(a as int == (-q) * (m as int) + 0) by (nonlinear_arith)
                    requires
                        -a == q * (m as int) + s,
                        s == 0,
                ;
                lemma_fundamental_div_mod_converse(a as int, m as int, -q, 0);
            }
        }
        r0
    }
}

/// One arch of the sine: Bhaskara's rational approximation on `[0, pi]`,
/// rendered in fixed point. Exact at `0`, `pi / 2` and `pi`.
pub open spec fn sin_arch_spec(x: int) -> int {
    (16 * (x * (PI_RADS - x)) * SCALE) / (5 * PI_RADS * PI_RADS - 4 * (x * (PI_RADS - x)))
}

/// The sine of an angle in fixed-point radians: the argument is reduced
/// modulo a full turn, and the second half-turn mirrors the first.
pub open spec fn sin_spec(a: int) -> int {
    let x = a % (TWO_PI_RADS as int);
    if x <= PI_RADS {
        sin_arch_spec(x)
    } else {
        -sin_arch_spec(x - PI_RADS)
    }
}

/// The cosine, as the sine shifted a quarter turn.
pub open spec fn cos_spec(a: int) -> int {
    sin_spec(a + HALF_PI_RADS)
}

fn sin_arch(x: i64) -> (r: i64)
    requires
        0 <= x <= PI_RADS,
    ensures
        r == sin_arch_spec(x as int),
        0 <= r <= SCALE,
{
    proof {
        assert(0 <= x * (3142 - x) <= 1571 * 1571) by (nonlinear_arith)
            requires
                0 <= x <= 3142,
        ;
    }
    let p: i64 = x * (PI_RADS - x);
    let num: i64 = 16 * p * SCALE;
    let den: i64 = 5 * PI_RADS * PI_RADS - 4 * p;
    proof {
        assert(num <= SCALE * den) by (nonlinear_arith)
            requires
                0 <= p <= 1571 * 1571,
                num == 16 * p * 1000,
                den == 5 * 3142 * 3142 - 4 * p,
        ;
        lemma_div_pos_is_pos(num as int, den as int);
        lemma_div_is_ordered(num as int, SCALE * den, den as int);
        lemma_div_multiples_vanish(SCALE as int, den as int);
    }
    num / den
}

/// The sine, in fixed point: `SCALE` stands for `1.0`.
pub fn sin_fp(a: i64) -> (r: i64)
    ensures
        r == sin_spec(a as int),
        -SCALE <= r <= SCALE,
{
    let x: i64 = euclid_mod(a, TWO_PI_RADS);
    if x <= PI_RADS {
        sin_arch(x)
    } else {
        -sin_arch(x - PI_RADS)
    }
}

/// The cosine, in fixed point: `SCALE` stands for `1.0`.
pub fn cos_fp(a: i64) -> (r: i64)
    ensures
        r == cos_spec(a as int),
        -SCALE <= r <= SCALE,
{
    let x: i64 = euclid_mod(a, TWO_PI_RADS);
    let r: i64 = sin_fp(x + HALF_PI_RADS);
    proof {
        let t = TWO_PI_RADS as int;
        let h = HALF_PI_RADS as int;
        lemma_small_mod(h as nat, t as nat);
        lemma_add_mod_noop(a as int, h, t);
        lemma_add_mod_noop(a as int % t, h, t);
        lemma_small_mod((a as int % t) as nat, t as nat);
        assert(((x + HALF_PI_RADS) as int) % t == (a as int + h) % t);
    }
    r
}

/// A ratio of two positive scalars as a fixed-point value in `[1, SCALE]`,
/// kept away from zero so that the sign of a nonzero ratio survives
/// rounding.
pub open spec fn unit_ratio_spec(num: int, den: int) -> int {
    let t = (num * SCALE) / den;
    if t == 0 {
        1
    } else {
        t
    }
}

fn unit_ratio(num: i64, den: i64) -> (t: i64)
    requires
        1 <= num <= den <= MAX_COORD,
    ensures
        t == unit_ratio_spec(num as int, den as int),
        1 <= t <= SCALE,
{
    let t: i64 = (num * SCALE) / den;
    proof {
        lemma_div_pos_is_pos((num * SCALE) as int, den as int);
        assert(num * SCALE <= den * SCALE) by (nonlinear_arith)
            requires
                num <= den,
                SCALE == 1000,
        ;
        lemma_div_is_ordered((num * SCALE) as int, den as int * SCALE, den as int);
        lemma_div_multiples_vanish(SCALE as int, den as int);
        assert(den as int * (SCALE as int) == (den * SCALE) as int);
    }
    if t == 0 {
        1
    } else {
        t
    }
}

/// Rational approximation of the arctangent of a ratio in `[0, 1]`:
/// `atan(u) ~ u / (1 + 0.28 u*u)`, rendered in fixed point and nudged up
/// to one unit where rounding would drop a positive ratio to a zero angle.
pub open spec fn atan_unit_spec(t: int) -> int {
    let a = (t * 100_000_000) / (100_000_000 + 28 * t * t);
    if a == 0 && t > 0 {
        1
    } else {
        a
    }
}

fn atan_unit(t: i64) -> (r: i64)
    requires
        0 <= t <= SCALE,
    ensures
        r == atan_unit_spec(t as int),
        0 <= r <= t,
        t > 0 ==> 1 <= r,
{
    proof {
        assert(0 <= 28 * t * t <= 28_000_000) by (nonlinear_arith)
            requires
                0 <= t <= 1000,
        ;
    }
    let den: i64 = 100_000_000 + 28 * t * t;
    let a: i64 = (t * 100_000_000) / den;
    proof {
        lemma_div_pos_is_pos((t * 100_000_000) as int, den as int);
        lemma_div_is_ordered_by_denominator((t * 100_000_000) as int, 100_000_000, den as int);
        lemma_div_multiples_vanish(t as int, 100_000_000);
        assert(100_000_000 * (t as int) == (t * 100_000_000) as int);
    }
    if a == 0 && t > 0 {
        1
    } else {
        a
    }
}

/// The arctangent of the ratio `y / x` in fixed-point radians, in
/// `(-pi/2, pi/2]` by magnitude: quadrant placement is the caller's
/// business, exactly as with a floating-point `atan`.
pub open spec fn atan_ratio_spec(y: int, x: int) -> int {
    if y == 0 {
        0
    } else if x == 0 {
        if y > 0 {
            HALF_PI_RADS as int
        } else {
            -(HALF_PI_RADS as int)
        }
    } else {
        let ay = if y >= 0 { y } else { -y };
        let ax = if x >= 0 { x } else { -x };
        let a = if ay <= ax {
            atan_unit_spec(unit_ratio_spec(ay, ax))
        } else {
            HALF_PI_RADS - atan_unit_spec(unit_ratio_spec(ax, ay))
        };
        if (y > 0) == (x > 0) {
            a
        } else {
            -a
        }
    }
}

/// The arctangent of `y / x`, with the sign of a nonzero ratio preserved:
/// the result is zero exactly when `y` is zero.
pub fn atan_ratio(y: i64, x: i64) -> (r: i64)
    requires
        -MAX_COORD <= y <= MAX_COORD,
        -MAX_COORD <= x <= MAX_COORD,
    ensures
        r == atan_ratio_spec(y as int, x as int),
        y == 0 ==> r == 0,
        x == 0 && y > 0 ==> r == HALF_PI_RADS,
        x == 0 && y < 0 ==> r == -HALF_PI_RADS,
        y != 0 && x != 0 && ((y > 0) == (x > 0)) ==> 1 <= r <= HALF_PI_RADS - 1,
        y != 0 && x != 0 && ((y > 0) != (x > 0)) ==> -(HALF_PI_RADS - 1) <= r <= -1,
{
    if y == 0 {
        0
    } else if x == 0 {
        if y > 0 {
            HALF_PI_RADS
        } else {
            -HALF_PI_RADS
        }
    } else {
        let ay: i64 = if y >= 0 { y } else { -y };
        let ax: i64 = if x >= 0 { x } else { -x };
        let a: i64 = if ay <= ax {
            atan_unit(unit_ratio(ay, ax))
        } else {
            HALF_PI_RADS - atan_unit(unit_ratio(ax, ay))
        };
        if (y > 0) == (x > 0) {
            a
        } else {
            -a
        }
    }
}

} // verus!
