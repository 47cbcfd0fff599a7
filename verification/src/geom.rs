//! Points and arrow-head geometry for vectors.
//!
//! A vector primitive is drawn as a body from its origin to its tip plus two
//! wing segments leaving the tip.  Each wing points along the reverse
//! direction of the vector rotated by the fixed head angle (pi/7 radians,
//! about 25.7 degrees), with length `min(0.15, 0.4 * |vector|)` plot units.
//! A vector shorter than the degenerate threshold of one micro-unit
//! (10^-6 plot units, which in this fixed-point representation means the
//! zero vector) gets no head at all.

use vstd::prelude::*;
use crate::num::{
    SCALE, SCALAR_LIMIT, in_range, clamped, clamp_scalar, tdiv, div_trunc_wide, isqrt,
    is_sqrt_floor, sqrt_floor, lemma_sqrt_floor_dominates, lemma_tdiv_bound, lemma_mul_bounds,
};

verus! {

/// A point of plot space, both coordinates in micro-units.
#[derive(Clone, Copy, Debug, PartialEq, Eq, Structural)]
pub struct Point {
    pub x: i64,
    pub y: i64,
}

/// Both coordinates lie in the representable scalar range.
pub open spec fn pt_in_range(p: Point) -> bool {
    in_range(p.x as int) && in_range(p.y as int)
}

/// Both coordinates lie within twice the scalar range (a vector tip, the sum
/// of two representable points, may land here).
pub open spec fn pt_tip_range(p: Point) -> bool {
    -2 * (SCALAR_LIMIT as int) <= p.x as int <= 2 * (SCALAR_LIMIT as int)
        && -2 * (SCALAR_LIMIT as int) <= p.y as int <= 2 * (SCALAR_LIMIT as int)
}

/// Build a point from raw micro-unit coordinates, clamping each into range.
pub fn clamp_point(x: i64, y: i64) -> (p: Point)
    ensures
        p.x == clamped(x as int),
        p.y == clamped(y as int),
        pt_in_range(p),
{
    Point { x: clamp_scalar(x), y: clamp_scalar(y) }
}

/// Componentwise sum of two in-range points: the tip of a vector.
pub fn pt_sum(a: Point, b: Point) -> (t: Point)
    requires
        pt_in_range(a),
        pt_in_range(b),
    ensures
        t.x == a.x + b.x,
        t.y == a.y + b.y,
        pt_tip_range(t),
{
    Point { x: a.x + b.x, y: a.y + b.y }
}

/// Maximum wing length of an arrow head, in micro-units (0.15 plot units).
pub const HEAD_LEN_MAX: i64 = 150_000;

/// Cosine of the arrow-head angle (pi/7 radians), in micro-units.
pub const COS_HEAD: i64 = 900_969;

/// Sine of the arrow-head angle (pi/7 radians), in micro-units.
pub const SIN_HEAD: i64 = 433_884;

/// Squared length of the vector from `o` to `t`, in squared micro-units.
pub open spec fn len_sq(o: Point, t: Point) -> int {
    (t.x - o.x) * (t.x - o.x) + (t.y - o.y) * (t.y - o.y)
}

/// Length of the vector from `o` to `t`, in micro-units (rounded down).
pub open spec fn vec_len(o: Point, t: Point) -> int {
    sqrt_floor(len_sq(o, t))
}

/// Wing length for a vector of length `len`: `0.4 * len`, capped at
/// `HEAD_LEN_MAX`.
pub open spec fn head_len(len: int) -> int {
    vstd::math::min(HEAD_LEN_MAX as int, tdiv(2 * len, 5))
}

/// X component of the unit vector from tip back toward origin, micro-scaled.
pub open spec fn back_unit_x(o: Point, t: Point) -> int {
    tdiv(-(t.x - o.x) * (SCALE as int), vec_len(o, t))
}

/// Y component of the unit vector from tip back toward origin, micro-scaled.
pub open spec fn back_unit_y(o: Point, t: Point) -> int {
    tdiv(-(t.y - o.y) * (SCALE as int), vec_len(o, t))
}

/// X component of the back direction rotated by the head angle
/// (`side` is `1` for one wing, `-1` for the other), micro-scaled.
pub open spec fn wing_dir_x(ux: int, uy: int, side: int) -> int {
    tdiv(ux * (COS_HEAD as int) - side * uy * (SIN_HEAD as int), SCALE as int)
}

/// Y component of the back direction rotated by the head angle, micro-scaled.
pub open spec fn wing_dir_y(ux: int, uy: int, side: int) -> int {
    tdiv(side * ux * (SIN_HEAD as int) + uy * (COS_HEAD as int), SCALE as int)
}

/// X coordinate of a wing endpoint of the arrow head at `t`.
pub open spec fn wing_x(o: Point, t: Point, side: int) -> int {
    let ux = back_unit_x(o, t);
    let uy = back_unit_y(o, t);
    t.x + tdiv(head_len(vec_len(o, t)) * wing_dir_x(ux, uy, side), SCALE as int)
}

/// Y coordinate of a wing endpoint of the arrow head at `t`.
pub open spec fn wing_y(o: Point, t: Point, side: int) -> int {
    let ux = back_unit_x(o, t);
    let uy = back_unit_y(o, t);
    t.y + tdiv(head_len(vec_len(o, t)) * wing_dir_y(ux, uy, side), SCALE as int)
}

/// The two wing endpoints of the arrow head for the vector from `origin` to
/// `tip`, or `None` for a degenerate (sub-threshold) vector.
pub fn arrow_head(origin: Point, tip: Point) -> (h: Option<(Point, Point)>)
    requires
        pt_in_range(origin),
        pt_tip_range(tip),
    ensures
        h is Some <==> len_sq(origin, tip) > 0,
        h matches Some((p1, p2)) ==> {
            &&& p1.x == wing_x(origin, tip, 1)
            &&& p1.y == wing_y(origin, tip, 1)
            &&& p2.x == wing_x(origin, tip, -1)
            &&& p2.y == wing_y(origin, tip, -1)
        },
{
    let dx: i128 = tip.x as i128 - origin.x as i128;
    let dy: i128 = tip.y as i128 - origin.y as i128;
    proof {
        lemma_mul_bounds(dx as int, dx as int, 3_000_000_000_000, 3_000_000_000_000);
        lemma_mul_bounds(dy as int, dy as int, 3_000_000_000_000, 3_000_000_000_000);
        assert(dx * dx >= 0) by (nonlinear_arith);
        assert(dy * dy >= 0) by (nonlinear_arith);
    }
    let nsq_i: i128 = dx * dx + dy * dy;
    if nsq_i == 0 {
        return None;
    }
    let nsq: u128 = nsq_i as u128;
    let len: u128 = isqrt(nsq);
    proof {
        assert(len >= 1) by {
            assert(is_sqrt_floor(nsq as int, len as int));
            if len == 0 {
                assert((nsq as int) < 1);
            }
        }
        assert((len as int) <= 4_500_000_000_000) by {
            if (len as int) > 4_500_000_000_000 {
                assert((len as int) * (len as int) > 18_000_000_000_000_000_000_000_000)
                    by (nonlinear_arith)
                    requires
                        (len as int) > 4_500_000_000_000,
                ;
            }
        }
        lemma_sqrt_floor_dominates(nsq as int, len as int, dx as int);
        lemma_sqrt_floor_dominates(nsq as int, len as int, dy as int);
        assert(vec_len(origin, tip) == len as int) by {
            crate::num::lemma_sqrt_floor_unique(
                nsq as int,
                len as int,
                sqrt_floor(nsq as int),
            );
        }
    }
    let len_w: i128 = len as i128;
    proof {
        lemma_mul_bounds(-dx as int, SCALE as int, 3_000_000_000_000, 1_000_000);
        lemma_mul_bounds(-dy as int, SCALE as int, 3_000_000_000_000, 1_000_000);
        assert(-(len_w * (SCALE as i128)) <= -dx * (SCALE as i128) <= len_w * (SCALE as i128))
            by (nonlinear_arith)
            requires
                -len_w <= dx <= len_w,
                len_w >= 1,
        ;
        assert(-(len_w * (SCALE as i128)) <= -dy * (SCALE as i128) <= len_w * (SCALE as i128))
            by (nonlinear_arith)
            requires
                -len_w <= dy <= len_w,
                len_w >= 1,
        ;
    }
    let ux: i128 = div_trunc_wide(-dx * (SCALE as i128), len_w);
    let uy: i128 = div_trunc_wide(-dy * (SCALE as i128), len_w);
    proof {
        lemma_tdiv_bound(-dx * (SCALE as i128) as int, len_w as int, SCALE as int);
        lemma_tdiv_bound(-dy * (SCALE as i128) as int, len_w as int, SCALE as int);
    }
    let two_fifths: i128 = div_trunc_wide(2 * len_w, 5);
    proof {
        assert(tdiv(2 * len_w as int, 5) >= 0) by {
            vstd::arithmetic::div_mod::lemma_div_pos_is_pos(2 * len_w as int, 5);
        }
    }
    let hl: i128 = if two_fifths > HEAD_LEN_MAX as i128 {
        HEAD_LEN_MAX as i128
    } else {
        two_fifths
    };
    assert(hl as int == head_len(len as int));
    proof {
        lemma_mul_bounds(ux as int, COS_HEAD as int, 1_000_000, 900_969);
        lemma_mul_bounds(uy as int, SIN_HEAD as int, 1_000_000, 433_884);
        lemma_mul_bounds(ux as int, SIN_HEAD as int, 1_000_000, 433_884);
        lemma_mul_bounds(uy as int, COS_HEAD as int, 1_000_000, 900_969);
    }
    let w1x: i128 = wing_component(ux * (COS_HEAD as i128) - uy * (SIN_HEAD as i128));
    let w1y: i128 = wing_component(ux * (SIN_HEAD as i128) + uy * (COS_HEAD as i128));
    let w2x: i128 = wing_component(ux * (COS_HEAD as i128) + uy * (SIN_HEAD as i128));
    let w2y: i128 = wing_component(-(ux * (SIN_HEAD as i128)) + uy * (COS_HEAD as i128));
    proof {
        assert(w1x == wing_dir_x(ux as int, uy as int, 1));
        assert(w1y == wing_dir_y(ux as int, uy as int, 1));
        assert(w2x == wing_dir_x(ux as int, uy as int, -1));
        assert(w2y == wing_dir_y(ux as int, uy as int, -1));
    }
    let p1 = Point {
        x: wing_offset(tip.x, hl, w1x),
        y: wing_offset(tip.y, hl, w1y),
    };
    let p2 = Point {
        x: wing_offset(tip.x, hl, w2x),
        y: wing_offset(tip.y, hl, w2y),
    };
    Some((p1, p2))
}

/// One rotated direction component: a dot product of micro-scaled factors,
/// scaled back down to micro-units.
fn wing_component(dot: i128) -> (w: i128)
    requires
        -2_000_000_000_000 <= dot <= 2_000_000_000_000,
    ensures
        w == tdiv(dot as int, SCALE as int),
        -2_000_000 <= w <= 2_000_000,
{
    let w = div_trunc_wide(dot, SCALE as i128);
    proof {
        lemma_tdiv_bound(dot as int, SCALE as int, 2_000_000);
    }
    w
}

/// A wing endpoint coordinate: the tip coordinate plus the head-length-scaled
/// direction component, scaled back down to micro-units.
fn wing_offset(tip_c: i64, hl: i128, w: i128) -> (c: i64)
    requires
        -2 * (SCALAR_LIMIT as int) <= tip_c as int <= 2 * (SCALAR_LIMIT as int),
        0 <= hl <= HEAD_LEN_MAX as i128,
        -2_000_000 <= w <= 2_000_000,
    ensures
        c as int == tip_c + tdiv(hl as int * w as int, SCALE as int),
{
    proof {
        lemma_mul_bounds(hl as int, w as int, HEAD_LEN_MAX as int, 2_000_000);
        lemma_tdiv_bound(hl as int * w as int, SCALE as int, 300_000);
    }
    let off: i128 = div_trunc_wide(hl * w, SCALE as i128);
    (tip_c as i128 + off) as i64
}

} // verus!
