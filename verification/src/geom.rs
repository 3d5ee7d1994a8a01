//! Plane geometry over integers.
//!
//! Coordinates are in milli-units (thousandths of a world unit) and live in
//! a bounded square arena, so every distance computation fits in the machine
//! integers. Collision tests compare squared Euclidean distances, which is
//! exact; the axis-aligned bounding-box early reject used by the projectile
//! resolver is proved to never change the outcome of the exact test.

use vstd::prelude::*;

verus! {

/// Half-width of the arena, in milli-units.
pub const WORLD_BOUND: i64 = 1_000_000_000;

/// Player body radius, in milli-units.
pub const PLAYER_RADIUS: i64 = 50_000;

/// Enemy body radius, in milli-units.
pub const ENEMY_RADIUS: i64 = 40_000;

/// Radius of an ordinary projectile, in milli-units.
pub const BASE_PROJECTILE_RADIUS: i64 = 15_000;

/// Largest radius a collision test accepts, in milli-units.
pub const MAX_COLLISION_RADIUS: i64 = 100_000_000;

/// A point of the plane, in milli-units.
#[derive(Clone, Copy, Debug, PartialEq, Eq, Structural)]
pub struct Position {
    pub x: i64,
    pub y: i64,
}

/// Whether a point lies inside the arena.
pub open spec fn in_world(p: Position) -> bool {
    &&& -WORLD_BOUND <= p.x <= WORLD_BOUND
    &&& -WORLD_BOUND <= p.y <= WORLD_BOUND
}

/// Squared Euclidean distance between two points.
pub open spec fn dist_sq(a: Position, b: Position) -> int {
    (a.x - b.x) * (a.x - b.x) + (a.y - b.y) * (a.y - b.y)
}

/// Whether `a` and `b` lie within distance `r` of each other (inclusive).
pub open spec fn within_distance(a: Position, b: Position, r: int) -> bool {
    dist_sq(a, b) <= r * r
}

/// Whether `a` and `b` lie strictly within distance `r` of each other.
pub open spec fn strictly_within_distance(a: Position, b: Position, r: int) -> bool {
    dist_sq(a, b) < r * r
}

impl Position {
    pub fn new(x: i64, y: i64) -> (p: Position)
        ensures
            p.x == x,
            p.y == y,
    {
        Position { x, y }
    }

    /// The origin of the arena.
    pub fn origin() -> (p: Position)
        ensures
            p.x == 0,
            p.y == 0,
    {
        Position { x: 0, y: 0 }
    }

    /// Component-wise sum.
    pub fn add(self, other: Position) -> (p: Position)
        requires
            in_world(self),
            in_world(other),
        ensures
            p.x == self.x + other.x,
            p.y == self.y + other.y,
    {
        Position { x: self.x + other.x, y: self.y + other.y }
    }

    /// Component-wise difference.
    pub fn sub(self, other: Position) -> (p: Position)
        requires
            in_world(self),
            in_world(other),
        ensures
            p.x == self.x - other.x,
            p.y == self.y - other.y,
    {
        Position { x: self.x - other.x, y: self.y - other.y }
    }

    /// Scales both components by an integer factor.
    pub fn mul(self, multiplier: i64) -> (p: Position)
        requires
            in_world(self),
            -1_000_000 <= multiplier <= 1_000_000,
        ensures
            p.x == self.x * multiplier,
            p.y == self.y * multiplier,
    {
        proof {
            lemma_mul_bound(self.x as int, multiplier as int, WORLD_BOUND as int, 1_000_000);
            lemma_mul_bound(self.y as int, multiplier as int, WORLD_BOUND as int, 1_000_000);
        }
        Position { x: self.x * multiplier, y: self.y * multiplier }
    }

    /// Clamps the point into the arena, one axis at a time.
    pub fn clamped(self) -> (p: Position)
        ensures
            p.x == clamp_coord(self.x as int),
            p.y == clamp_coord(self.y as int),
            in_world(p),
    {
        Position { x: clamp_coord_exec(self.x), y: clamp_coord_exec(self.y) }
    }

    /// Squared Euclidean distance to `other`.
    pub fn distance_squared(&self, other: &Position) -> (d: u64)
        requires
            in_world(*self),
            in_world(*other),
        ensures
            d == dist_sq(*self, *other),
    {
        distance_squared_exec(*self, *other)
    }

    /// Euclidean distance to `other`, rounded down to whole milli-units.
    pub fn distance(&self, other: &Position) -> (d: u64)
        requires
            in_world(*self),
            in_world(*other),
        ensures
            d * d <= dist_sq(*self, *other) < (d + 1) * (d + 1),
    {
        let sq = distance_squared_exec(*self, *other);
        isqrt(sq)
    }
}

/// A coordinate clamped into the arena.
pub open spec fn clamp_coord(x: int) -> int {
    if x < -WORLD_BOUND {
        -WORLD_BOUND as int
    } else if x > WORLD_BOUND {
        WORLD_BOUND as int
    } else {
        x
    }
}

fn clamp_coord_exec(x: i64) -> (r: i64)
    ensures
        r == clamp_coord(x as int),
{
    if x < -WORLD_BOUND {
        -WORLD_BOUND
    } else if x > WORLD_BOUND {
        WORLD_BOUND
    } else {
        x
    }
}

/// Bounds the product of two bounded factors.
proof fn lemma_mul_bound(a: int, b: int, abound: int, bbound: int)
    requires
        -abound <= a <= abound,
        -bbound <= b <= bbound,
        0 <= abound,
        0 <= bbound,
    ensures
        -abound * bbound <= a * b <= abound * bbound,
{
    assert(-abound * bbound <= a * b <= abound * bbound) by (nonlinear_arith)
        requires
            -abound <= a <= abound,
            -bbound <= b <= bbound,
            0 <= abound,
            0 <= bbound,
    ;
}

fn distance_squared_exec(a: Position, b: Position) -> (d: u64)
    requires
        in_world(a),
        in_world(b),
    ensures
        d == dist_sq(a, b),
{
    let dx = a.x - b.x;
    let dy = a.y - b.y;
    proof {
        lemma_mul_bound(dx as int, dx as int, 2 * WORLD_BOUND as int, 2 * WORLD_BOUND as int);
        lemma_mul_bound(dy as int, dy as int, 2 * WORLD_BOUND as int, 2 * WORLD_BOUND as int);
        assert(dx * dx >= 0) by (nonlinear_arith);
        assert(dy * dy >= 0) by (nonlinear_arith);
    }
    let xx = dx * dx;
    let yy = dy * dy;
    (xx + yy) as u64
}

/// Mathematical floor of the square root.
pub open spec fn floor_sqrt(n: int) -> int
    decreases n,
{
    if n <= 0 {
        0
    } else {
        let r = floor_sqrt(n - 1);
        if (r + 1) * (r + 1) <= n {
            r + 1
        } else {
            r
        }
    }
}

/// `floor_sqrt` is the value sandwiched between the two adjacent squares.
pub proof fn lemma_floor_sqrt_bounds(n: int)
    requires
        0 <= n,
    ensures
        0 <= floor_sqrt(n),
        floor_sqrt(n) * floor_sqrt(n) <= n,
        n < (floor_sqrt(n) + 1) * (floor_sqrt(n) + 1),
    decreases n,
{
    if n == 0 {
    } else {
        lemma_floor_sqrt_bounds(n - 1);
        let r = floor_sqrt(n - 1);
        if (r + 1) * (r + 1) <= n {
            assert(n < (r + 2) * (r + 2)) by (nonlinear_arith)
                requires
                    0 <= r,
                    n - 1 < (r + 1) * (r + 1),
            ;
        }
    }
}

/// Only one value fits between the two adjacent squares.
proof fn lemma_floor_sqrt_unique(n: int, r: int)
    requires
        0 <= n,
        0 <= r,
        r * r <= n,
        n < (r + 1) * (r + 1),
    ensures
        r == floor_sqrt(n),
{
    lemma_floor_sqrt_bounds(n);
    let f = floor_sqrt(n);
    assert(r == f) by (nonlinear_arith)
        requires
            0 <= r,
            0 <= f,
            r * r <= n,
            n < (r + 1) * (r + 1),
            f * f <= n,
            n < (f + 1) * (f + 1),
    ;
}

/// Integer square root: the largest `r` with `r * r <= n`.
pub fn isqrt(n: u64) -> (r: u64)
    ensures
        r * r <= n < (r + 1) * (r + 1),
        r == floor_sqrt(n as int),
{
    let mut lo: u64 = 0;
    let mut hi: u64 = 4_294_967_295;
    proof {
        assert((4_294_967_295u64 + 1) * (4_294_967_295u64 + 1) > u64::MAX) by (nonlinear_arith);
    }
    while lo < hi
        invariant
            lo <= hi <= 4_294_967_295,
            lo * lo <= n,
            n < (hi + 1) * (hi + 1),
        decreases hi - lo,
    {
        let mid = lo + (hi - lo + 1) / 2;
        proof {
            assert(mid * mid <= 4_294_967_295u64 * 4_294_967_295u64) by (nonlinear_arith)
                requires
                    0 <= mid <= 4_294_967_295u64,
            ;
        }
        if mid * mid <= n {
            lo = mid;
        } else {
            hi = mid - 1;
        }
    }
    proof {
        lemma_floor_sqrt_unique(n as int, lo as int);
    }
    lo
}

/// Truncating signed division: the quotient rounded toward zero, as the
/// machine division computes it.
pub open spec fn tz_div(a: int, d: int) -> int {
    if a >= 0 {
        a / d
    } else {
        -((-a) / d)
    }
}

/// Truncating signed division by a positive divisor.
pub fn tz_div_i64(a: i64, d: i64) -> (r: i64)
    requires
        1 <= d,
        -0x7fff_ffff_ffff_ffff <= a,
    ensures
        r == tz_div(a as int, d as int),
{
    if a >= 0 {
        a / d
    } else {
        let m = (-a) / d;
        -m
    }
}

/// The magnitude of a truncating quotient never exceeds the magnitude of
/// the dividend's bound divided down.
pub proof fn lemma_tz_div_bound(a: int, d: int, k: int)
    requires
        1 <= d,
        0 <= k,
        -k <= a <= k,
    ensures
        -(k / d) <= tz_div(a, d) <= k / d,
{
    if a >= 0 {
        assert(0 <= a / d <= k / d) by (nonlinear_arith)
            requires
                1 <= d,
                0 <= a <= k,
        ;
    } else {
        assert(0 <= (-a) / d <= k / d) by (nonlinear_arith)
            requires
                1 <= d,
                0 <= -a <= k,
        ;
    }
}

/// A component `delta` of a vector of length `len`, rescaled so the whole
/// vector has length `step`: the magnitude is `|delta| * step / len` and
/// the sign is kept. The result never exceeds `step` in magnitude.
pub open spec fn scaled_toward(delta: int, step: int, len: int) -> int {
    if delta >= 0 {
        delta * step / len
    } else {
        -((-delta) * step / len)
    }
}

/// Rescales one vector component, as `scaled_toward` describes.
pub fn scale_component(delta: i64, step: u64, len: u64) -> (r: i64)
    requires
        1 <= len <= 0x7fff_ffff_ffff_ffff,
        -(len as int) <= delta <= len as int,
        step <= 0x4000_0000_0000_0000,
    ensures
        r == scaled_toward(delta as int, step as int, len as int),
        -(step as int) <= r <= step as int,
{
    let mag: u128 = if delta >= 0 {
        delta as u128
    } else {
        (-delta) as u128
    };
    proof {
        assert(mag * (step as u128) <= (len as u128) * (step as u128)) by (nonlinear_arith)
            requires
                0 <= mag <= len as u128,
                0 <= step as u128,
        ;
        assert((len as u128) * (step as u128)
            <= 0x7fff_ffff_ffff_ffffu128 * 0x4000_0000_0000_0000u128) by (nonlinear_arith)
            requires
                0 <= len as u128 <= 0x7fff_ffff_ffff_ffffu128,
                0 <= step as u128 <= 0x4000_0000_0000_0000u128,
        ;
    }
    let scaled: u128 = mag * (step as u128) / (len as u128);
    proof {
        assert(mag * step <= len * step) by (nonlinear_arith)
            requires
                0 <= mag <= len,
                0 <= step,
        ;
        vstd::arithmetic::div_mod::lemma_div_is_ordered(
            (mag * step) as int, (len * step) as int, len as int);
        vstd::arithmetic::div_mod::lemma_div_multiples_vanish(step as int, len as int);
    }
    let out = scaled as u64;
    if delta >= 0 {
        out as i64
    } else {
        -(out as i64)
    }
}

/// Whether `a` and `b` lie within distance `radius` of each other
/// (inclusive). The bounding-box early reject mirrors the cheap test the
/// projectile resolver makes before the exact one; the contract shows it
/// never changes the outcome.
pub fn touches(a: Position, b: Position, radius: i64) -> (res: bool)
    requires
        in_world(a),
        in_world(b),
        0 <= radius <= MAX_COLLISION_RADIUS,
    ensures
        res == within_distance(a, b, radius as int),
{
    let dx = if a.x >= b.x { a.x - b.x } else { b.x - a.x };
    let dy = if a.y >= b.y { a.y - b.y } else { b.y - a.y };
    if dx > radius || dy > radius {
        proof {
            lemma_axis_gap_separates(a, b, radius as int);
        }
        return false;
    }
    let sq = distance_squared_exec(a, b);
    proof {
        lemma_mul_bound(radius as int, radius as int, MAX_COLLISION_RADIUS as int,
            MAX_COLLISION_RADIUS as int);
        assert(radius * radius >= 0) by (nonlinear_arith);
    }
    sq <= (radius * radius) as u64
}

/// Whether `a` and `b` lie strictly within distance `radius` of each other.
pub fn touches_strictly(a: Position, b: Position, radius: i64) -> (res: bool)
    requires
        in_world(a),
        in_world(b),
        0 <= radius <= MAX_COLLISION_RADIUS,
    ensures
        res == strictly_within_distance(a, b, radius as int),
{
    let sq = distance_squared_exec(a, b);
    proof {
        lemma_mul_bound(radius as int, radius as int, MAX_COLLISION_RADIUS as int,
            MAX_COLLISION_RADIUS as int);
        assert(radius * radius >= 0) by (nonlinear_arith);
    }
    sq < (radius * radius) as u64
}

/// A gap larger than `r` on either axis already exceeds distance `r`.
proof fn lemma_axis_gap_separates(a: Position, b: Position, r: int)
    requires
        0 <= r,
        (a.x - b.x > r) || (b.x - a.x > r) || (a.y - b.y > r) || (b.y - a.y > r),
    ensures
        !within_distance(a, b, r),
{
    let dx = a.x - b.x;
    let dy = a.y - b.y;
    assert(dx * dx + dy * dy > r * r) by (nonlinear_arith)
        requires
            0 <= r,
            (dx > r) || (-dx > r) || (dy > r) || (-dy > r),
    ;
}

} // verus!
