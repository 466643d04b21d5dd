//! Fixed-point screen geometry: positions, sizes and speeds are integers in sub-pixel units,
//! and elapsed time is counted in microseconds.
use vstd::arithmetic::div_mod::lemma_div_is_ordered;
use vstd::prelude::*;

verus! {

/// Sub-pixel units in one screen pixel.
pub const UNITS_PER_PIXEL: i64 = 1000;

/// Width of the playing field (1280 pixels).
pub const SCREEN_WIDTH: i64 = 1_280_000;

/// Height of the playing field (720 pixels).
pub const SCREEN_HEIGHT: i64 = 720_000;

pub const MICROS_PER_SECOND: i64 = 1_000_000;

/// Largest speed, in units per second, that the fixed-point model represents.
pub const MAX_SPEED: i64 = 1_000_000_000_000;

/// Bound on the distance covered in one frame: at most `MAX_SPEED` for `u32::MAX` microseconds.
pub const MAX_STEP: i64 = 5_000_000_000_000_000;

/// Bound on any coordinate or size held by an entity.
pub const MAX_COORD: i64 = 100_000_000_000_000_000;

/// A point or a vector of the plane, in units.
#[derive(Clone, Copy, Debug, PartialEq, Eq, Structural)]
pub struct Vec2 {
    pub x: i64,
    pub y: i64,
}

impl Vec2 {
    pub fn new(x: i64, y: i64) -> (r: Vec2)
        ensures
            r.x == x,
            r.y == y,
    {
        Vec2 { x, y }
    }
}

pub open spec fn abs(v: int) -> int {
    if v < 0 {
        -v
    } else {
        v
    }
}

/// Distance covered in `dt` microseconds at `v` units per second, rounded toward zero.
pub open spec fn displacement(v: int, dt: int) -> int {
    if v >= 0 {
        v * dt / (MICROS_PER_SECOND as int)
    } else {
        -((-v) * dt / (MICROS_PER_SECOND as int))
    }
}

pub proof fn lemma_displacement_bounded(v: int, dt: int)
    requires
        abs(v) <= MAX_SPEED,
        0 <= dt <= u32::MAX,
    ensures
        abs(displacement(v, dt)) <= MAX_STEP,
{
    let a = abs(v);
    assert(0 <= a * dt <= MAX_SPEED * (u32::MAX as int)) by (nonlinear_arith)
        requires
            0 <= a <= MAX_SPEED,
            0 <= dt <= u32::MAX,
    ;
    lemma_div_is_ordered(a * dt, MAX_SPEED * (u32::MAX as int), MICROS_PER_SECOND as int);
    lemma_div_is_ordered(0, a * dt, MICROS_PER_SECOND as int);
}

/// Distance covered in `dt` microseconds at `v` units per second.
pub fn displace(v: i64, dt: u32) -> (r: i64)
    requires
        abs(v as int) <= MAX_SPEED,
    ensures
        r == displacement(v as int, dt as int),
        abs(r as int) <= MAX_STEP,
{
    proof {
        lemma_displacement_bounded(v as int, dt as int);
    }
    let a: i128 = if v >= 0 { v as i128 } else { -(v as i128) };
    assert(0 <= a * (dt as i128) <= MAX_SPEED * (u32::MAX as int)) by (nonlinear_arith)
        requires
            0 <= a <= MAX_SPEED,
            0 <= dt <= u32::MAX,
    ;
    let d: i128 = a * (dt as i128) / (MICROS_PER_SECOND as i128);
    if v >= 0 {
        d as i64
    } else {
        -(d as i64)
    }
}

/// Two boxes, each given by its top-left corner and its size, share some area.
/// Boxes that only touch along an edge do not overlap.
pub open spec fn overlaps(a_pos: Vec2, a_size: Vec2, b_pos: Vec2, b_size: Vec2) -> bool {
    &&& a_pos.x < b_pos.x + b_size.x
    &&& b_pos.x < a_pos.x + a_size.x
    &&& a_pos.y < b_pos.y + b_size.y
    &&& b_pos.y < a_pos.y + a_size.y
}

/// Overlap does not depend on which box is named first.
pub proof fn lemma_overlap_symmetric(a_pos: Vec2, a_size: Vec2, b_pos: Vec2, b_size: Vec2)
    ensures
        overlaps(a_pos, a_size, b_pos, b_size) == overlaps(b_pos, b_size, a_pos, a_size),
{
}

/// Boxes that meet along one edge, the right edge of one being the left edge of the other or
/// the bottom edge of one being the top edge of the other, do not overlap.
pub proof fn lemma_edge_contact_is_no_overlap(a_pos: Vec2, a_size: Vec2, b_pos: Vec2, b_size: Vec2)
    requires
        a_pos.x + a_size.x == b_pos.x || b_pos.x + b_size.x == a_pos.x || a_pos.y + a_size.y
            == b_pos.y || b_pos.y + b_size.y == a_pos.y,
    ensures
        !overlaps(a_pos, a_size, b_pos, b_size),
        !overlaps(b_pos, b_size, a_pos, a_size),
{
}

} // verus!
