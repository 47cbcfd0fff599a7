//! Fixed-point scalar arithmetic.
//!
//! Every quantity of plot space (coordinates, parameter values, line weights)
//! is carried as a signed count of micro-units: `SCALE` micro-units make one
//! unit.  Scalars accepted from the host shell are clamped into
//! `[-SCALAR_LIMIT, SCALAR_LIMIT]` so that all later arithmetic fits
//! comfortably in the machine integers it runs on.

use vstd::prelude::*;

verus! {

/// Micro-units per plot-space unit.
pub const SCALE: i64 = 1_000_000;

/// Largest magnitude a stored scalar may have, in micro-units
/// (one million plot-space units).
pub const SCALAR_LIMIT: i64 = 1_000_000_000_000;

/// A scalar the library will store: clamped into the representable range.
pub open spec fn in_range(v: int) -> bool {
    -(SCALAR_LIMIT as int) <= v <= SCALAR_LIMIT as int
}

/// The value `v` clamped into `[-SCALAR_LIMIT, SCALAR_LIMIT]`.
pub open spec fn clamped(v: int) -> int {
    if v < -(SCALAR_LIMIT as int) {
        -(SCALAR_LIMIT as int)
    } else if v > SCALAR_LIMIT as int {
        SCALAR_LIMIT as int
    } else {
        v
    }
}

/// Clamp a raw scalar into the representable range.
pub fn clamp_scalar(v: i64) -> (r: i64)
    ensures
        r == clamped(v as int),
        in_range(r as int),
{
    if v < -SCALAR_LIMIT {
        -SCALAR_LIMIT
    } else if v > SCALAR_LIMIT {
        SCALAR_LIMIT
    } else {
        v
    }
}

/// Truncating division (round toward zero), the rounding used by the
/// fixed-point computations in this crate.  Where `a >= 0` this agrees with
/// the mathematical (Euclidean) `/`.
pub open spec fn tdiv(a: int, b: int) -> int
    recommends
        b > 0,
{
    if a >= 0 {
        a / b
    } else {
        -((-a) / b)
    }
}

/// Truncating division of a scalar by a positive divisor.
pub fn div_trunc(a: i64, b: i64) -> (r: i64)
    requires
        b > 0,
        a > i64::MIN,
    ensures
        r == tdiv(a as int, b as int),
{
    if a >= 0 {
        ((a as u64) / (b as u64)) as i64
    } else {
        -((((-a) as u64) / (b as u64)) as i64)
    }
}

/// Truncating division for wide intermediates.
pub fn div_trunc_wide(a: i128, b: i128) -> (r: i128)
    requires
        b > 0,
        a > i128::MIN,
    ensures
        r == tdiv(a as int, b as int),
{
    if a >= 0 {
        ((a as u128) / (b as u128)) as i128
    } else {
        -((((-a) as u128) / (b as u128)) as i128)
    }
}

/// The magnitude of a truncating quotient never exceeds the magnitude of a
/// Euclidean bound: if `|a| <= c * b` then `|tdiv(a, b)| <= c`.
pub proof fn lemma_tdiv_bound(a: int, b: int, c: int)
    requires
        b > 0,
        0 <= c,
        -(b * c) <= a <= b * c,
    ensures
        -c <= tdiv(a, b) <= c,
{
    assert((b * c) / b == c) by {
        vstd::arithmetic::div_mod::lemma_div_multiples_vanish(c, b);
    }
    if a >= 0 {
        assert(a / b <= (b * c) / b) by {
            vstd::arithmetic::div_mod::lemma_div_is_ordered(a, b * c, b);
        }
        assert(a / b >= 0) by {
            vstd::arithmetic::div_mod::lemma_div_pos_is_pos(a, b);
        }
    } else {
        assert((-a) / b <= (b * c) / b) by {
            vstd::arithmetic::div_mod::lemma_div_is_ordered(-a, b * c, b);
        }
        assert((-a) / b >= 0) by {
            vstd::arithmetic::div_mod::lemma_div_pos_is_pos(-a, b);
        }
    }
}

/// Multiplying a truncating quotient back by the divisor cannot overshoot:
/// `|tdiv(a, b) * i| <= |a|` whenever `0 <= i <= b`.
pub proof fn lemma_tdiv_scaled(a: int, b: int, i: int)
    requires
        b > 0,
        0 <= i <= b,
    ensures
        -vstd::math::abs(a) <= tdiv(a, b) * i <= vstd::math::abs(a),
{
    let m = vstd::math::abs(a) as int;
    let q = if a >= 0 { a / b } else { (-a) / b };
    assert(q == m / b);
    assert(q * b <= m) by {
        vstd::arithmetic::div_mod::lemma_fundamental_div_mod(m, b);
        vstd::arithmetic::div_mod::lemma_mod_bound(m, b);
    }
    assert(q >= 0) by {
        vstd::arithmetic::div_mod::lemma_div_pos_is_pos(m, b);
    }
    assert(q * i <= q * b) by (nonlinear_arith)
        requires
            0 <= q,
            0 <= i <= b,
    ;
    assert(0 <= q * i) by (nonlinear_arith)
        requires
            0 <= q,
            0 <= i,
    ;
    if a >= 0 {
        assert(tdiv(a, b) * i == q * i);
    } else {
        assert(tdiv(a, b) * i == -(q * i)) by (nonlinear_arith)
            requires
                tdiv(a, b) == -q,
        ;
    }
}

/// Magnitude bound for a product from magnitude bounds on its factors.
pub proof fn lemma_mul_bounds(a: int, b: int, ma: int, mb: int)
    requires
        0 <= ma,
        0 <= mb,
        -ma <= a <= ma,
        -mb <= b <= mb,
    ensures
        -(ma * mb) <= a * b <= ma * mb,
{
    assert(-(ma * mb) <= a * b <= ma * mb) by (nonlinear_arith)
        requires
            0 <= ma,
            0 <= mb,
            -ma <= a <= ma,
            -mb <= b <= mb,
    ;
}

/// `r` is the integer square root (floor) of `n`.
pub open spec fn is_sqrt_floor(n: int, r: int) -> bool {
    0 <= r && r * r <= n && n < (r + 1) * (r + 1)
}

/// The integer square root of a non-negative `n`.
pub open spec fn sqrt_floor(n: int) -> int {
    choose|r: int| is_sqrt_floor(n, r)
}

/// The integer square root is unique.
pub proof fn lemma_sqrt_floor_unique(n: int, a: int, b: int)
    requires
        is_sqrt_floor(n, a),
        is_sqrt_floor(n, b),
    ensures
        a == b,
{
    if a < b {
        assert((a + 1) * (a + 1) <= b * b) by (nonlinear_arith)
            requires
                0 <= a,
                a < b,
        ;
    }
    if b < a {
        assert((b + 1) * (b + 1) <= a * a) by (nonlinear_arith)
            requires
                0 <= b,
                b < a,
        ;
    }
}

/// Integer square root by bisection.
pub fn isqrt(n: u128) -> (r: u128)
    ensures
        is_sqrt_floor(n as int, r as int),
        r as int == sqrt_floor(n as int),
{
    let mut lo: u128 = 0;
    let mut hi: u128 = 0x1_0000_0000_0000_0000;
    proof {
        assert((hi as int) * (hi as int) > n as int) by (nonlinear_arith)
            requires
                hi == 0x1_0000_0000_0000_0000u128,
                n <= u128::MAX,
        ;
    }
    while hi - lo > 1
        invariant
            0 <= lo < hi <= 0x1_0000_0000_0000_0000u128,
            (lo as int) * (lo as int) <= n as int,
            (n as int) < (hi as int) * (hi as int),
        decreases hi - lo,
    {
        let mid: u128 = lo + (hi - lo) / 2;
        proof {
            assert(mid * mid <= u128::MAX) by (nonlinear_arith)
                requires
                    mid < 0x1_0000_0000_0000_0000u128,
            ;
        }
        if mid * mid <= n {
            lo = mid;
        } else {
            hi = mid;
        }
    }
    proof {
        assert(is_sqrt_floor(n as int, lo as int));
        assert(exists|r: int| is_sqrt_floor(n as int, r));
        lemma_sqrt_floor_unique(n as int, lo as int, sqrt_floor(n as int));
    }
    lo
}

/// A square root bound transfers to each leg: if `dx * dx <= n` then
/// `|dx| <= sqrt_floor(n)`.
pub proof fn lemma_sqrt_floor_dominates(n: int, r: int, dx: int)
    requires
        is_sqrt_floor(n, r),
        dx * dx <= n,
    ensures
        -r <= dx <= r,
{
    if dx > r {
        assert((r + 1) * (r + 1) <= dx * dx) by (nonlinear_arith)
            requires
                0 <= r,
                r < dx,
        ;
    }
    if dx < -r {
        assert((r + 1) * (r + 1) <= dx * dx) by (nonlinear_arith)
            requires
                0 <= r,
                dx < -r,
        ;
    }
}

} // verus!
