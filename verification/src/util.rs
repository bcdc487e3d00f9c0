//! Fixed-point plane and space vectors, and the truncating division that the
//! coordinate transforms round with.

use vstd::prelude::*;

verus! {

/// Fixed-point scale: this many `i64` steps make one world unit.
pub const UNIT: i64 = 1000;

/// Bound on every camera parameter (projection bounds, scale numerator and
/// denominator, camera translation, viewport origin and size) and on pointer
/// positions. Keeps every intermediate product of the coordinate transforms
/// inside `i128` and their results inside `i64`.
pub const COORD_LIMIT: i64 = 1_000_000;

/// A planar vector: screen position in whole pixels, or world position in
/// thousandths of a world unit.
#[derive(Clone, Copy, PartialEq, Eq, Structural, Debug)]
pub struct Vec2I {
    pub x: i64,
    pub y: i64,
}

/// A spatial vector: planar world position plus draw-order depth `z`, all in
/// thousandths of a world unit.
#[derive(Clone, Copy, PartialEq, Eq, Structural, Debug)]
pub struct Vec3I {
    pub x: i64,
    pub y: i64,
    pub z: i64,
}

/// Drops the draw-order depth, keeping the planar position.
pub fn discard_z(vec: Vec3I) -> (r: Vec2I)
    ensures
        r.x == vec.x,
        r.y == vec.y,
{
    Vec2I { x: vec.x, y: vec.y }
}

/// Attaches a draw-order depth to a planar position.
pub fn add_z(vec: Vec2I, z: i64) -> (r: Vec3I)
    ensures
        r.x == vec.x,
        r.y == vec.y,
        r.z == z,
{
    Vec3I { x: vec.x, y: vec.y, z }
}

/// Division rounding toward zero, as the coordinate transforms use it.
/// Meaningful for positive divisors.
pub open spec fn tdiv(a: int, d: int) -> int {
    if a >= 0 {
        a / d
    } else {
        -((-a) / d)
    }
}

/// Quotients by a positive divisor never grow in magnitude.
pub proof fn lemma_tdiv_bound(a: int, d: int)
    requires
        1 <= d,
    ensures
        a >= 0 ==> 0 <= tdiv(a, d) <= a,
        a < 0 ==> a <= tdiv(a, d) <= 0,
{
    if a >= 0 {
        vstd::arithmetic::div_mod::lemma_div_nonincreasing(a, d);
        vstd::arithmetic::div_mod::lemma_div_pos_is_pos(a, d);
    } else {
        vstd::arithmetic::div_mod::lemma_div_nonincreasing(-a, d);
        vstd::arithmetic::div_mod::lemma_div_pos_is_pos(-a, d);
    }
}

/// Truncating division on wide intermediates.
pub fn div_trunc(a: i128, d: i128) -> (r: i128)
    requires
        1 <= d,
        i128::MIN < a,
    ensures
        r == tdiv(a as int, d as int),
{
    proof {
        lemma_tdiv_bound(a as int, d as int);
    }
    if a >= 0 {
        ((a as u128) / (d as u128)) as i128
    } else {
        let n: u128 = (-a) as u128;
        -((n / (d as u128)) as i128)
    }
}

} // verus!
