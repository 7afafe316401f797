use vstd::prelude::*;

verus! {

/// Number of position sub-steps per world unit.  Movement adds
/// `direction * speed * delta` without any division, so positions stay
/// exact; one world unit is `DIR_ONE` (direction scale) times 1000
/// (milliseconds per second) sub-steps.
pub const UNIT: i64 = 1_000_000;

/// Scale of a unit direction vector: a heading vector handed in by the
/// host has components in `[-DIR_ONE, DIR_ONE]`.
pub const DIR_ONE: i64 = 1000;

/// Positions, collider radii and offsets are kept inside
/// `[-POS_LIMIT, POS_LIMIT]` so that squared distances fit in `i128`.
pub const POS_LIMIT: i64 = 0x100_0000_0000_0000;

/// A 2D vector in fixed-point world coordinates.
#[derive(Clone, Copy, PartialEq, Eq, Structural, Debug)]
pub struct Vec2 {
    pub x: i64,
    pub y: i64,
}

pub open spec fn in_bounds(v: Vec2) -> bool {
    &&& -POS_LIMIT <= v.x <= POS_LIMIT
    &&& -POS_LIMIT <= v.y <= POS_LIMIT
}

/// A heading vector handed in by the host: each component within the
/// unit scale.
pub open spec fn dir_in_bounds(d: Vec2) -> bool {
    &&& -DIR_ONE <= d.x <= DIR_ONE
    &&& -DIR_ONE <= d.y <= DIR_ONE
}

/// Largest speed, in world units per second, accepted by a move step.
pub const SPEED_LIMIT: i64 = 1_000_000;

/// The position after one exact move step of `dir * speed * delta`
/// sub-steps.  A step that would leave the world's coordinate range is
/// skipped for this tick: the anomalous entity stands still, the
/// simulation keeps advancing.
pub open spec fn spec_move(pos: Vec2, dir: Vec2, speed: i64, delta: u64) -> Vec2 {
    let nx = pos.x + dir.x * speed * delta;
    let ny = pos.y + dir.y * speed * delta;
    if -POS_LIMIT <= nx <= POS_LIMIT && -POS_LIMIT <= ny <= POS_LIMIT {
        Vec2 { x: nx as i64, y: ny as i64 }
    } else {
        pos
    }
}

/// One exact move step along a heading vector, with no rounding: the
/// translation is the full product `dir * speed * delta`.
pub fn move_along(pos: Vec2, dir: Vec2, speed: i64, delta: u64) -> (r: Vec2)
    requires
        in_bounds(pos),
        dir_in_bounds(dir),
        0 <= speed <= SPEED_LIMIT,
        delta <= crate::timer::DELTA_LIMIT,
    ensures
        r == spec_move(pos, dir, speed, delta),
        in_bounds(r),
{
    proof {
        assert(-0x10_0000_0000 <= dir.x * speed <= 0x10_0000_0000
            && -0x4000_0000_0000_0000 <= (dir.x * speed) * delta <= 0x4000_0000_0000_0000)
            by (nonlinear_arith)
            requires
                -DIR_ONE <= dir.x <= DIR_ONE,
                0 <= speed <= SPEED_LIMIT,
                0 <= delta <= crate::timer::DELTA_LIMIT;
        assert(-0x10_0000_0000 <= dir.y * speed <= 0x10_0000_0000
            && -0x4000_0000_0000_0000 <= (dir.y * speed) * delta <= 0x4000_0000_0000_0000)
            by (nonlinear_arith)
            requires
                -DIR_ONE <= dir.y <= DIR_ONE,
                0 <= speed <= SPEED_LIMIT,
                0 <= delta <= crate::timer::DELTA_LIMIT;
    }
    let nx: i128 = pos.x as i128 + dir.x as i128 * speed as i128 * delta as i128;
    let ny: i128 = pos.y as i128 + dir.y as i128 * speed as i128 * delta as i128;
    if -POS_LIMIT as i128 <= nx && nx <= POS_LIMIT as i128 && -POS_LIMIT as i128 <= ny
        && ny <= POS_LIMIT as i128 {
        Vec2 { x: nx as i64, y: ny as i64 }
    } else {
        pos
    }
}

/// Squared Euclidean distance between two centers.
pub open spec fn sq_dist(p1: Vec2, p2: Vec2) -> int {
    (p1.x - p2.x) * (p1.x - p2.x) + (p1.y - p2.y) * (p1.y - p2.y)
}

/// Two circles overlap when the squared center distance is below the
/// squared radius sum.  This is the sqrt-free form of
/// `dist(p1, p2) < r1 + r2` (see `lemma_overlap_iff_distance`).
pub open spec fn circles_overlap(r1: int, p1: Vec2, r2: int, p2: Vec2) -> bool {
    sq_dist(p1, p2) < (r1 + r2) * (r1 + r2)
}

/// Vector sum, meaningful when the mathematical sum stays in range.
pub open spec fn vec_add(a: Vec2, b: Vec2) -> Vec2 {
    Vec2 { x: (a.x + b.x) as i64, y: (a.y + b.y) as i64 }
}

/// Circle-circle overlap test, without square roots or divisions, so
/// that coincident centers and degenerate (zero or negative) radii are
/// handled without any special case.
pub fn circles_collide(r1: i64, p1: Vec2, r2: i64, p2: Vec2) -> (r: bool)
    requires
        -2 * POS_LIMIT <= r1 <= 2 * POS_LIMIT,
        -2 * POS_LIMIT <= r2 <= 2 * POS_LIMIT,
        -2 * POS_LIMIT <= p1.x <= 2 * POS_LIMIT,
        -2 * POS_LIMIT <= p1.y <= 2 * POS_LIMIT,
        -2 * POS_LIMIT <= p2.x <= 2 * POS_LIMIT,
        -2 * POS_LIMIT <= p2.y <= 2 * POS_LIMIT,
    ensures
        r == circles_overlap(r1 as int, p1, r2 as int, p2),
{
    let dx: i128 = p1.x as i128 - p2.x as i128;
    let dy: i128 = p1.y as i128 - p2.y as i128;
    let radius_sum: i128 = r1 as i128 + r2 as i128;
    proof {
        assert(0 <= dx * dx <= 0x10_0000_0000_0000_0000_0000_0000_0000) by (nonlinear_arith)
            requires -0x400_0000_0000_0000 <= dx <= 0x400_0000_0000_0000;
        assert(0 <= dy * dy <= 0x10_0000_0000_0000_0000_0000_0000_0000) by (nonlinear_arith)
            requires -0x400_0000_0000_0000 <= dy <= 0x400_0000_0000_0000;
        assert(0 <= radius_sum * radius_sum <= 0x10_0000_0000_0000_0000_0000_0000_0000)
            by (nonlinear_arith)
            requires -0x400_0000_0000_0000 <= radius_sum <= 0x400_0000_0000_0000;
    }
    let dist: i128 = dx * dx + dy * dy;
    let max_dist: i128 = radius_sum * radius_sum;
    dist < max_dist
}

/// The overlap predicate is symmetric in its two circles.
pub proof fn lemma_circles_overlap_symmetric(r1: int, p1: Vec2, r2: int, p2: Vec2)
    ensures
        circles_overlap(r1, p1, r2, p2) == circles_overlap(r2, p2, r1, p1),
{
    assert(sq_dist(p1, p2) == sq_dist(p2, p1)) by (nonlinear_arith);
    assert((r1 + r2) * (r1 + r2) == (r2 + r1) * (r2 + r1)) by (nonlinear_arith);
}

/// On non-negative numbers, comparing squares is comparing the numbers.
pub proof fn lemma_sq_lt_iff(a: int, b: int)
    requires
        a >= 0,
        b >= 0,
    ensures
        (a * a < b * b) <==> (a < b),
{
    assert((a * a < b * b) <==> (a < b)) by (nonlinear_arith)
        requires a >= 0 && b >= 0;
}

/// For non-negative radii the overlap predicate holds exactly when the
/// Euclidean center distance (any `d >= 0` with `d * d == sq_dist`) is
/// below the radius sum: the sqrt-based reference statement.
pub proof fn lemma_overlap_iff_distance(r1: int, p1: Vec2, r2: int, p2: Vec2, d: int)
    requires
        r1 + r2 >= 0,
        d >= 0,
        d * d == sq_dist(p1, p2),
    ensures
        circles_overlap(r1, p1, r2, p2) <==> d < r1 + r2,
{
    lemma_sq_lt_iff(d, r1 + r2);
}

} // verus!
