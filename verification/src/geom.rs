//! Plane vectors, saturating fixed-point arithmetic, and the
//! axis-aligned bounding-box overlap test.

use vstd::prelude::*;

use crate::consts::{DT_LIMIT, POS_LIMIT, SCALE, VEL_LIMIT};

verus! {

/// A point, extent or velocity in the plane, in milli-units.
#[derive(Clone, Copy, Debug, PartialEq, Eq, Structural)]
pub struct Vec2 {
    pub x: i64,
    pub y: i64,
}

/// Absolute value of a mathematical integer.
pub open spec fn abs_spec(v: int) -> int {
    if v >= 0 {
        v
    } else {
        -v
    }
}

/// Clamp `v` into `[lo, hi]`.
pub open spec fn clamp_spec(v: int, lo: int, hi: int) -> int {
    if v < lo {
        lo
    } else if v > hi {
        hi
    } else {
        v
    }
}

/// Distance a velocity `v` covers in `dt` milliseconds, rounded toward
/// zero so that leftward and rightward motion scale alike.
pub open spec fn scaled_spec(v: int, dt: int) -> int {
    if v >= 0 {
        v * dt / (SCALE as int)
    } else {
        -((-v) * dt / (SCALE as int))
    }
}

/// Advance a coordinate by a velocity over `dt` milliseconds, saturating
/// at the world coordinate bound.
pub open spec fn advance_spec(p: int, v: int, dt: int) -> int {
    clamp_spec(p + scaled_spec(v, dt), -(POS_LIMIT as int), POS_LIMIT as int)
}

/// Clamp `v` into `[lo, hi]`.
pub fn clamp_i64(v: i64, lo: i64, hi: i64) -> (r: i64)
    requires
        lo <= hi,
    ensures
        r == clamp_spec(v as int, lo as int, hi as int),
{
    if v < lo {
        lo
    } else if v > hi {
        hi
    } else {
        v
    }
}

/// Distance a velocity `v` covers in `dt` milliseconds.
pub fn scaled(v: i64, dt: i64) -> (r: i64)
    requires
        -VEL_LIMIT <= v <= VEL_LIMIT,
        0 <= dt <= DT_LIMIT,
    ensures
        r == scaled_spec(v as int, dt as int),
        abs_spec(r as int) <= VEL_LIMIT * DT_LIMIT,
{
    let mag: i64 = if v >= 0 {
        v
    } else {
        -v
    };
    proof {
        vstd::arithmetic::mul::lemma_mul_nonnegative(mag as int, dt as int);
        vstd::arithmetic::mul::lemma_mul_inequality(mag as int, VEL_LIMIT as int, dt as int);
        vstd::arithmetic::div_mod::lemma_div_nonincreasing((mag * dt) as int, SCALE as int);
        vstd::arithmetic::div_mod::lemma_div_pos_is_pos((mag * dt) as int, SCALE as int);
    }
    let q = (mag * dt) / SCALE;
    if v >= 0 {
        q
    } else {
        -q
    }
}

/// Advance a coordinate by a velocity over `dt` milliseconds, saturating
/// at the world coordinate bound.
pub fn advance(p: i64, v: i64, dt: i64) -> (r: i64)
    requires
        -POS_LIMIT <= p <= POS_LIMIT,
        -VEL_LIMIT <= v <= VEL_LIMIT,
        0 <= dt <= DT_LIMIT,
    ensures
        r == advance_spec(p as int, v as int, dt as int),
        -POS_LIMIT <= r <= POS_LIMIT,
{
    let d = scaled(v, dt);
    clamp_i64(p + d, -POS_LIMIT, POS_LIMIT)
}

/// Whether two axis-aligned boxes, given by their centers and extents,
/// overlap on both axes at once.
pub open spec fn collides_spec(pa: Vec2, sa: Vec2, pb: Vec2, sb: Vec2) -> bool {
    &&& 2 * abs_spec(pa.x - pb.x) < sa.x + sb.x
    &&& 2 * abs_spec(pa.y - pb.y) < sa.y + sb.y
}

/// The overlap test does not depend on the order of its two boxes.
pub proof fn lemma_collides_symmetric(pa: Vec2, sa: Vec2, pb: Vec2, sb: Vec2)
    ensures
        collides_spec(pa, sa, pb, sb) == collides_spec(pb, sb, pa, sa),
{
}

/// Axis-aligned bounding-box overlap test on box centers and extents.
pub fn collide(pa: Vec2, sa: Vec2, pb: Vec2, sb: Vec2) -> (r: bool)
    requires
        -POS_LIMIT <= pa.x <= POS_LIMIT,
        -POS_LIMIT <= pa.y <= POS_LIMIT,
        -POS_LIMIT <= pb.x <= POS_LIMIT,
        -POS_LIMIT <= pb.y <= POS_LIMIT,
        0 <= sa.x <= POS_LIMIT,
        0 <= sa.y <= POS_LIMIT,
        0 <= sb.x <= POS_LIMIT,
        0 <= sb.y <= POS_LIMIT,
    ensures
        r == collides_spec(pa, sa, pb, sb),
{
    let dx = if pa.x >= pb.x {
        pa.x - pb.x
    } else {
        pb.x - pa.x
    };
    let dy = if pa.y >= pb.y {
        pa.y - pb.y
    } else {
        pb.y - pa.y
    };
    2 * dx < sa.x + sb.x && 2 * dy < sa.y + sb.y
}

} // verus!
