//! Fixed-point scalars.
//!
//! A world coordinate is an `i64` counting steps of `1 / UNIT` world units.
//! Everything the simulation stores stays within `WORLD_LIMIT` of the origin,
//! which leaves room for sums, differences and squared distances in `i64`.

use vstd::prelude::*;

verus! {

/// Fixed-point steps per world unit.
pub const UNIT: i64 = 100_000;

/// Largest magnitude of a stored coordinate (1000 world units).
pub const WORLD_LIMIT: i64 = 100_000_000;

/// Largest magnitude of a stored velocity component (10 world units per tick).
pub const SPEED_LIMIT: i64 = 1_000_000;

/// Stands for "farther than anything" where a nearest distance is sought.
pub const FAR: i64 = 0x7fff_ffff_ffff_ffff;

/// Whether `v` is a coordinate inside the world.
pub open spec fn in_world(v: int) -> bool {
    -WORLD_LIMIT <= v <= WORLD_LIMIT
}

/// Whether `v` is a velocity component within the speed limit.
pub open spec fn in_speed(v: int) -> bool {
    -SPEED_LIMIT <= v <= SPEED_LIMIT
}

/// Magnitude of `v`.
pub open spec fn abs_int(v: int) -> int {
    if v < 0 {
        -v
    } else {
        v
    }
}

/// `v` held to the range from `min` to `max`: a value below `min` gives
/// `min`, any other value above `max` gives `max`.
pub open spec fn clamp_int(v: int, min: int, max: int) -> int {
    if v < min {
        min
    } else if v > max {
        max
    } else {
        v
    }
}

/// `n / d`, rounded toward zero, for a positive divisor.
pub open spec fn div_toward_zero(n: int, d: int) -> int {
    if n >= 0 {
        n / d
    } else {
        -((-n) / d)
    }
}

/// `v * pct / 100`, rounded toward zero.
pub open spec fn percent_of(v: int, pct: int) -> int {
    div_toward_zero(v * pct, 100)
}

/// `v / 2`, rounded toward zero.
pub open spec fn half_of(v: int) -> int {
    div_toward_zero(v, 2)
}

/// The smaller of two numbers.
pub open spec fn min_int(a: int, b: int) -> int {
    if a < b {
        a
    } else {
        b
    }
}

/// Squared Euclidean distance between two points.
pub open spec fn dist_sq_int(ax: int, ay: int, bx: int, by: int) -> int {
    (bx - ax) * (bx - ax) + (by - ay) * (by - ay)
}

/// Keeps a coordinate inside the world.
pub fn to_world(v: i64) -> (r: i64)
    ensures
        r == clamp_int(v as int, -WORLD_LIMIT as int, WORLD_LIMIT as int),
        in_world(r as int),
{
    if v < -WORLD_LIMIT {
        -WORLD_LIMIT
    } else if v > WORLD_LIMIT {
        WORLD_LIMIT
    } else {
        v
    }
}

/// `n / d`, rounded toward zero.
pub fn div_round(n: i64, d: i64) -> (r: i64)
    requires
        d > 0,
        n > i64::MIN,
    ensures
        r == div_toward_zero(n as int, d as int),
{
    if n >= 0 {
        n / d
    } else {
        -((-n) / d)
    }
}

/// `pct` percent of `v`, rounded toward zero.
pub fn percent(v: i64, pct: i64) -> (r: i64)
    requires
        in_world(v as int),
        0 <= pct <= 100,
    ensures
        r == percent_of(v as int, pct as int),
        abs_int(r as int) <= abs_int(v as int),
        v >= 0 ==> r >= 0,
        v <= 0 ==> r <= 0,
{
    if v >= 0 {
        assert(0 <= v * pct <= v * 100) by (nonlinear_arith)
            requires
                0 <= v,
                0 <= pct <= 100,
        ;
        v * pct / 100
    } else {
        assert(0 <= (-v) * pct <= (-v) * 100 && (-v) * pct == -(v * pct)) by (nonlinear_arith)
            requires
                0 <= -v,
                0 <= pct <= 100,
        ;
        -((-v) * pct / 100)
    }
}

/// The square of a number between `-b` and `b` is at most the square of `b`.
pub proof fn lemma_square_bound(d: int, b: int)
    requires
        -b <= d <= b,
    ensures
        0 <= d * d <= b * b,
{
    assert(0 <= d * d <= b * b) by (nonlinear_arith)
        requires
            -b <= d <= b,
    ;
}

/// The squared distance between two points within `2 * WORLD_LIMIT` of the
/// origin is less than `FAR`.
pub proof fn lemma_dist_sq_bound(ax: int, ay: int, bx: int, by: int)
    requires
        -2 * WORLD_LIMIT <= ax <= 2 * WORLD_LIMIT,
        -2 * WORLD_LIMIT <= ay <= 2 * WORLD_LIMIT,
        -2 * WORLD_LIMIT <= bx <= 2 * WORLD_LIMIT,
        -2 * WORLD_LIMIT <= by <= 2 * WORLD_LIMIT,
    ensures
        0 <= dist_sq_int(ax, ay, bx, by) < FAR,
{
    let dx = bx - ax;
    let dy = by - ay;
    lemma_square_bound(dx, 400_000_000);
    lemma_square_bound(dy, 400_000_000);
    assert(dist_sq_int(ax, ay, bx, by) == dx * dx + dy * dy);
}

/// Squared distance between two points that lie within `2 * WORLD_LIMIT` of the origin.
pub fn dist_sq(ax: i64, ay: i64, bx: i64, by: i64) -> (r: i64)
    requires
        -2 * WORLD_LIMIT <= ax <= 2 * WORLD_LIMIT,
        -2 * WORLD_LIMIT <= ay <= 2 * WORLD_LIMIT,
        -2 * WORLD_LIMIT <= bx <= 2 * WORLD_LIMIT,
        -2 * WORLD_LIMIT <= by <= 2 * WORLD_LIMIT,
    ensures
        r == dist_sq_int(ax as int, ay as int, bx as int, by as int),
        0 <= r < FAR,
{
    let dx: i64 = bx - ax;
    let dy: i64 = by - ay;
    proof {
        lemma_square_bound(dx as int, 4 * WORLD_LIMIT as int);
        lemma_square_bound(dy as int, 4 * WORLD_LIMIT as int);
    }
    dx * dx + dy * dy
}

} // verus!
