//! The wave director: spawn cadence, difficulty curves and upgrade-token
//! issuance.
//!
//! When no enemy is left alive, the next wave begins: the wave counter
//! rises, the player earns one upgrade token and the per-wave heal, and
//! `8 + 2 × wave` enemies spawn on an annulus around the player, their
//! stats derived from the wave number. Melee damage grows linearly, the
//! melee cooldown decays multiplicatively, movement and projectile speed
//! grow multiplicatively (capped), and ranged capability follows a
//! wave-gated, partly probabilistic schedule: early waves never have it, a
//! transitional band has a per-wave chance, late waves always have it.

use vstd::prelude::*;
use crate::entity::Enemy;
use crate::entity::EnemyState;
use crate::entity::EnemyStats;
use crate::entity::EntityId;
use crate::entity::Player;
use crate::entity::enemy_wf;
use crate::entity::player_wf;
use crate::geom::Position;
use crate::geom::in_world;
use crate::health::Health;
use crate::health::healed_current;
use crate::rng::Rng;
use crate::stats::PlayerUpgradeCounter;
use crate::stats::SPEED_CAP;
use crate::stats::sat_add_u64;
use crate::timer::Cooldown;

verus! {

/// Inner radius of the enemy spawn annulus, in milli-units.
pub const ENEMY_SPAWN_DIST_MIN: u64 = 400_000;

/// Base melee cooldown of a first-wave enemy, in milliseconds.
pub const ENEMY_BASE_MELEE_COOLDOWN_MS: u32 = 1000;

/// Every enemy's ranged cooldown, in milliseconds.
pub const ENEMY_RANGED_COOLDOWN_MS: u32 = 1500;

/// Ceiling of the multiplicative growth factor, in thousandths.
pub const GROWTH_MILLI_CAP: u64 = 1_000_000_000_000;

/// How many enemies wave `wave` spawns.
pub open spec fn spec_enemies_to_spawn(wave: int) -> int {
    8 + 2 * wave
}

/// Law: wave `wave` spawns exactly `8 + 2 × wave` enemies.
pub fn enemies_to_spawn(wave: u32) -> (n: u64)
    ensures
        n == spec_enemies_to_spawn(wave as int),
{
    8 + 2 * (wave as u64)
}

/// The melee cooldown of wave `wave`'s enemies: one second, shrunk by 5%
/// (rounding down) for every wave past the first.
pub open spec fn melee_cooldown_ms(wave: int) -> int
    decreases wave,
{
    if wave <= 1 {
        ENEMY_BASE_MELEE_COOLDOWN_MS as int
    } else {
        melee_cooldown_ms(wave - 1) * 95 / 100
    }
}

/// The melee cooldown never grows past its base.
pub proof fn lemma_melee_cooldown_bounded(wave: int)
    ensures
        0 <= melee_cooldown_ms(wave) <= ENEMY_BASE_MELEE_COOLDOWN_MS,
    decreases wave,
{
    if wave > 1 {
        lemma_melee_cooldown_bounded(wave - 1);
        let prev = melee_cooldown_ms(wave - 1);
        assert(0 <= prev * 95 / 100 <= prev) by (nonlinear_arith)
            requires
                0 <= prev,
        ;
    }
}

/// The melee cooldown of wave `wave`'s enemies.
pub fn enemy_melee_cooldown(wave: u32) -> (cd: u32)
    requires
        1 <= wave,
    ensures
        cd == melee_cooldown_ms(wave as int),
{
    let mut cd: u32 = ENEMY_BASE_MELEE_COOLDOWN_MS;
    let mut k: u32 = 1;
    while k < wave
        invariant
            1 <= k <= wave,
            cd == melee_cooldown_ms(k as int),
            cd <= ENEMY_BASE_MELEE_COOLDOWN_MS,
        decreases wave - k,
    {
        proof {
            assert(0 <= cd * 95 / 100 <= cd) by (nonlinear_arith)
                requires
                    0 <= cd,
            ;
        }
        cd = cd * 95 / 100;
        k = k + 1;
    }
    cd
}

/// The multiplicative growth factor after `k` waves, in thousandths:
/// 5% compounded per wave (rounding down each step), capped.
pub open spec fn growth_milli(k: int) -> int
    decreases k,
{
    if k <= 0 {
        1000
    } else {
        let prev = growth_milli(k - 1);
        if prev * 105 / 100 <= GROWTH_MILLI_CAP {
            prev * 105 / 100
        } else {
            GROWTH_MILLI_CAP as int
        }
    }
}

/// The growth factor stays between one and its ceiling.
pub proof fn lemma_growth_milli_bounded(k: int)
    ensures
        1000 <= growth_milli(k) <= GROWTH_MILLI_CAP,
    decreases k,
{
    if k > 0 {
        lemma_growth_milli_bounded(k - 1);
        let prev = growth_milli(k - 1);
        assert(prev <= prev * 105 / 100) by (nonlinear_arith)
            requires
                0 <= prev,
        ;
    }
}

/// The growth factor after `k` waves, in thousandths.
pub fn growth_factor_milli(k: u32) -> (g: u64)
    ensures
        g == growth_milli(k as int),
        1000 <= g <= GROWTH_MILLI_CAP,
{
    proof {
        lemma_growth_milli_bounded(0);
    }
    let mut g: u64 = 1000;
    let mut j: u32 = 0;
    while j < k
        invariant
            0 <= j <= k,
            g == growth_milli(j as int),
            1000 <= g <= GROWTH_MILLI_CAP,
        decreases k - j,
    {
        proof {
            lemma_growth_milli_bounded(j + 1);
        }
        let grown = g * 105 / 100;
        if grown <= GROWTH_MILLI_CAP {
            g = grown;
        } else {
            g = GROWTH_MILLI_CAP;
        }
        j = j + 1;
    }
    g
}

/// The shrink factor after `k` waves, in thousandths: 105ths compounded
/// down per wave, rounding down each step.
pub open spec fn shrink_milli(k: int) -> int
    decreases k,
{
    if k <= 0 {
        1000
    } else {
        shrink_milli(k - 1) * 100 / 105
    }
}

/// The shrink factor stays between zero and one.
pub proof fn lemma_shrink_milli_bounded(k: int)
    ensures
        0 <= shrink_milli(k) <= 1000,
    decreases k,
{
    if k > 0 {
        lemma_shrink_milli_bounded(k - 1);
        let prev = shrink_milli(k - 1);
        assert(0 <= prev * 100 / 105 <= prev) by (nonlinear_arith)
            requires
                0 <= prev,
        ;
    }
}

/// The shrink factor after `k` waves, in thousandths.
pub fn shrink_factor_milli(k: u32) -> (g: u64)
    ensures
        g == shrink_milli(k as int),
        g <= 1000,
{
    proof {
        lemma_shrink_milli_bounded(0);
    }
    let mut g: u64 = 1000;
    let mut j: u32 = 0;
    while j < k
        invariant
            0 <= j <= k,
            g == shrink_milli(j as int),
            g <= 1000,
        decreases k - j,
    {
        proof {
            lemma_shrink_milli_bounded(j + 1);
        }
        g = g * 100 / 105;
        j = j + 1;
    }
    g
}

/// A base speed scaled by the growth factor of wave `w`, capped.
pub open spec fn speed_curve(base: int, w: int) -> int {
    if base * growth_milli(w) / 1000 <= SPEED_CAP {
        base * growth_milli(w) / 1000
    } else {
        SPEED_CAP as int
    }
}

/// A base speed scaled by the growth factor of wave `w`, capped.
pub fn enemy_speed(base: u64, w: u32) -> (s: u64)
    requires
        base <= 1_000_000,
    ensures
        s == speed_curve(base as int, w as int),
        s <= SPEED_CAP,
{
    let g = growth_factor_milli(w);
    proof {
        assert(base * g <= 1_000_000u64 * GROWTH_MILLI_CAP) by (nonlinear_arith)
            requires
                0 <= base <= 1_000_000,
                0 <= g <= GROWTH_MILLI_CAP,
        ;
    }
    let scaled = base * g / 1000;
    if scaled <= SPEED_CAP {
        scaled
    } else {
        SPEED_CAP
    }
}

/// The damage a ranged-capable enemy of wave `w` deals: the waves past the
/// fifth, scaled by the whole-number part of the growth factor of the
/// waves past the tenth (a shrink factor below wave ten, making the value
/// zero there).
pub open spec fn enemy_ranged_damage_value(w: int) -> int {
    let factor = if w >= 10 {
        growth_milli(w - 10)
    } else {
        shrink_milli(10 - w)
    };
    (w - 5) * (factor / 1000)
}

/// The ranged damage of one spawned enemy of wave `w`, from three
/// permille rolls: below wave five, none; in the transitional band, a
/// per-wave chance (10% up to wave ten, 8% — both gate rolls must pass —
/// up to wave twenty, 20% at wave twenty); past wave twenty, always the full
/// value.
pub open spec fn enemy_ranged_damage(w: int, roll_a: int, roll_b: int, roll_c: int) -> int {
    if w < 5 {
        0
    } else if w < 10 {
        if roll_a < 900 {
            0
        } else {
            enemy_ranged_damage_value(w)
        }
    } else if w < 20 {
        if roll_b < 800 || roll_c < 600 {
            0
        } else {
            enemy_ranged_damage_value(w)
        }
    } else if w == 20 {
        if roll_b < 800 {
            0
        } else {
            enemy_ranged_damage_value(w)
        }
    } else {
        enemy_ranged_damage_value(w)
    }
}

/// The ranged damage of wave `w` for the given permille rolls.
pub fn enemy_ranged_damage_for_rolls(w: u32, roll_a: u64, roll_b: u64, roll_c: u64)
    -> (d: u64)
    requires
        1 <= w,
        roll_a < 1000,
        roll_b < 1000,
        roll_c < 1000,
    ensures
        d == enemy_ranged_damage(w as int, roll_a as int, roll_b as int, roll_c as int),
        d == 0 || d == enemy_ranged_damage_value(w as int),
        w < 5 ==> d == 0,
        w > 20 ==> d == enemy_ranged_damage_value(w as int),
{
    if w < 5 {
        0
    } else if w < 10 {
        if roll_a < 900 {
            0
        } else {
            compute_ranged_damage_value(w)
        }
    } else if w < 20 {
        if roll_b < 800 || roll_c < 600 {
            0
        } else {
            compute_ranged_damage_value(w)
        }
    } else if w == 20 {
        if roll_b < 800 {
            0
        } else {
            compute_ranged_damage_value(w)
        }
    } else {
        compute_ranged_damage_value(w)
    }
}

/// The full ranged damage of wave `w`.
fn compute_ranged_damage_value(w: u32) -> (d: u64)
    requires
        5 <= w,
    ensures
        d == enemy_ranged_damage_value(w as int),
{
    let factor: u64 = if w >= 10 {
        growth_factor_milli(w - 10)
    } else {
        shrink_factor_milli(10 - w)
    };
    let whole = factor / 1000;
    proof {
        assert(((w - 5) as u64) * whole <= 4_294_967_295u64 * 1_000_000_000u64)
            by (nonlinear_arith)
            requires
                0 <= (w - 5) as u64 <= 4_294_967_295u64,
                0 <= whole <= 1_000_000_000u64,
        ;
    }
    ((w - 5) as u64) * whole
}

/// The point `annulus_point` lands on for a generator in state `state`:
/// three successive draws pick the distance in `[dist_min, dist_max)`,
/// the direction's horizontal component on a fixed-point unit circle, and
/// the vertical sign; the scaled offset is clamped into the arena.
pub open spec fn spec_annulus_point(center: Position, dist_min: int, dist_max: int, state: u64)
    -> Position
{
    let s1 = crate::rng::xorshift_step(state);
    let d = dist_min + (s1 as int) % (dist_max - dist_min);
    let s2 = crate::rng::xorshift_step(s1);
    let axis = (s2 as int) % 2001;
    let s3 = crate::rng::xorshift_step(s2);
    let flip = (s3 as int) % 2;
    let x = axis - 1000;
    let y_mag = crate::geom::floor_sqrt(1_000_000 - x * x);
    let y = if flip == 0 {
        y_mag
    } else {
        -y_mag
    };
    Position {
        x: crate::geom::clamp_coord(center.x + crate::geom::tz_div(x * d, 1000)) as i64,
        y: crate::geom::clamp_coord(center.y + crate::geom::tz_div(y * d, 1000)) as i64,
    }
}

/// The least distance from the annulus centre a spawn can land at when no
/// arena clamping occurs: just under `998/1000` of the inner radius. The
/// fixed-point unit circle is short of unit length by at most two parts
/// in a thousand, and rounding each offset component down costs at most
/// two more milli-units.
pub open spec fn annulus_inner_margin(dist_min: int) -> int {
    if dist_min * 998 / 1000 >= 2 {
        dist_min * 998 / 1000 - 2
    } else {
        0
    }
}

/// A scaled fixed-point unit vector keeps nearly its full scale: with a
/// direction of squared length at least `998_000` (what the fixed-point
/// circle guarantees) and both offset components rounded down, the
/// offset's squared length still reaches the inner margin of the drawn
/// distance.
proof fn lemma_annulus_offset_reaches_inner(a: int, b: int, d: int, dist_min: int,
    ma: int, mb: int)
    requires
        0 <= a <= 1000,
        0 <= b <= 1000,
        998_000 <= a * a + b * b <= 1_000_000,
        0 <= dist_min <= d,
        ma == a * d / 1000,
        mb == b * d / 1000,
    ensures
        ma * ma + mb * mb >= annulus_inner_margin(dist_min) * annulus_inner_margin(dist_min),
{
    let inner = annulus_inner_margin(dist_min);
    let n = a * a + b * b;
    if inner == 0 {
        assert(ma * ma + mb * mb >= 0) by (nonlinear_arith);
    } else {
        // Rounding each component down costs less than one thousandth of
        // the scale.
        vstd::arithmetic::div_mod::lemma_fundamental_div_mod(a * d, 1000);
        vstd::arithmetic::div_mod::lemma_mod_bound(a * d, 1000);
        vstd::arithmetic::div_mod::lemma_fundamental_div_mod(b * d, 1000);
        vstd::arithmetic::div_mod::lemma_mod_bound(b * d, 1000);
        assert(1000 * ma >= a * d - 999 && ma >= 0) by (nonlinear_arith)
            requires
                a * d == 1000 * ma + (a * d) % 1000,
                0 <= (a * d) % 1000 < 1000,
                0 <= a,
                0 <= d,
                ma == a * d / 1000,
        ;
        assert(1000 * mb >= b * d - 999 && mb >= 0) by (nonlinear_arith)
            requires
                b * d == 1000 * mb + (b * d) % 1000,
                0 <= (b * d) % 1000 < 1000,
                0 <= b,
                0 <= d,
                mb == b * d / 1000,
        ;
        // Project the offset onto the direction.
        let p = a * ma + b * mb;
        assert(1000 * p >= d * n - 999 * (a + b)) by (nonlinear_arith)
            requires
                1000 * ma >= a * d - 999,
                1000 * mb >= b * d - 999,
                0 <= a,
                0 <= b,
                n == a * a + b * b,
                p == a * ma + b * mb,
        ;
        assert(a + b <= 1415) by (nonlinear_arith)
            requires
                0 <= a,
                0 <= b,
                a * a + b * b <= 1_000_000,
        ;
        assert(d * n >= dist_min * 998_000) by (nonlinear_arith)
            requires
                0 <= dist_min <= d,
                998_000 <= n,
        ;
        vstd::arithmetic::div_mod::lemma_fundamental_div_mod(998 * dist_min, 1000);
        vstd::arithmetic::div_mod::lemma_mod_bound(998 * dist_min, 1000);
        assert(1000 * inner <= 998 * dist_min - 2000);
        assert(1000 * p >= 1000 * (1000 * inner));
        assert(p >= 1000 * inner);
        // The projection bounds the length (a Cauchy-Schwarz identity,
        // assembled from small distribution steps).
        let u = a * ma;
        let v = b * mb;
        let s = a * mb;
        let w = b * ma;
        assert(u * v == s * w) by (nonlinear_arith)
            requires
                u == a * ma,
                v == b * mb,
                s == a * mb,
                w == b * ma,
        ;
        assert(u * u == (a * a) * (ma * ma)) by (nonlinear_arith)
            requires
                u == a * ma,
        ;
        assert(v * v == (b * b) * (mb * mb)) by (nonlinear_arith)
            requires
                v == b * mb,
        ;
        assert(s * s == (a * a) * (mb * mb)) by (nonlinear_arith)
            requires
                s == a * mb,
        ;
        assert(w * w == (b * b) * (ma * ma)) by (nonlinear_arith)
            requires
                w == b * ma,
        ;
        assert((ma * ma + mb * mb) * (a * a + b * b) == (a * a) * (ma * ma)
            + (a * a) * (mb * mb) + (b * b) * (ma * ma) + (b * b) * (mb * mb))
            by (nonlinear_arith);
        assert((u + v) * (u + v) == u * u + 2 * (u * v) + v * v) by (nonlinear_arith);
        assert((s - w) * (s - w) == s * s - 2 * (s * w) + w * w) by (nonlinear_arith);
        assert((ma * ma + mb * mb) * (a * a + b * b) == (u + v) * (u + v)
            + (s - w) * (s - w));
        assert((s - w) * (s - w) >= 0) by (nonlinear_arith);
        assert(p * p >= (1000 * inner) * (1000 * inner)) by (nonlinear_arith)
            requires
                p >= 1000 * inner,
                1000 * inner >= 0,
        ;
        assert((1000 * inner) * (1000 * inner) == 1_000_000 * (inner * inner))
            by (nonlinear_arith);
        assert((ma * ma + mb * mb) * n >= (inner * inner) * n) by (nonlinear_arith)
            requires
                (ma * ma + mb * mb) * n >= 1_000_000 * (inner * inner),
                n <= 1_000_000,
                inner * inner >= 0,
        ;
        assert(ma * ma + mb * mb >= inner * inner) by (nonlinear_arith)
            requires
                (ma * ma + mb * mb) * n >= (inner * inner) * n,
                n >= 1,
        ;
    }
}

/// A pseudo-random point of the annulus around `center` with the given
/// radii, exactly `spec_annulus_point` of the generator's state: the
/// point stays within `dist_max` of the centre on each axis, and — when
/// the centre is at least `dist_max` from every arena edge, so no
/// clamping can occur — at least the inner margin of `dist_min` away.
pub fn annulus_point(center: Position, dist_min: u64, dist_max: u64, rng: &mut Rng)
    -> (p: Position)
    requires
        in_world(center),
        dist_min < dist_max,
        dist_max <= 100_000_000_000_000,
    ensures
        in_world(p),
        p == spec_annulus_point(center, dist_min as int, dist_max as int, old(rng).state),
        final(rng).state == crate::rng::xorshift_step(crate::rng::xorshift_step(
            crate::rng::xorshift_step(old(rng).state))),
        -(dist_max as int) <= p.x - center.x <= dist_max as int,
        -(dist_max as int) <= p.y - center.y <= dist_max as int,
        crate::geom::dist_sq(p, center) <= dist_max * dist_max,
        (center.x + dist_max <= crate::geom::WORLD_BOUND
            && -crate::geom::WORLD_BOUND <= center.x - dist_max
            && center.y + dist_max <= crate::geom::WORLD_BOUND
            && -crate::geom::WORLD_BOUND <= center.y - dist_max)
            ==> crate::geom::dist_sq(p, center) >= annulus_inner_margin(dist_min as int)
                * annulus_inner_margin(dist_min as int),
{
    let d = dist_min + rng.below(dist_max - dist_min);
    let axis = rng.below(2001);
    let flip = rng.below(2);
    let x: i64 = (axis as i64) - 1000;
    proof {
        assert(0 <= x * x <= 1_000_000) by (nonlinear_arith)
            requires
                -1000 <= x <= 1000,
        ;
    }
    let sq: u64 = 1_000_000 - ((x * x) as u64);
    let y_mag = crate::geom::isqrt(sq);
    proof {
        assert(y_mag <= 1000) by (nonlinear_arith)
            requires
                y_mag * y_mag <= sq,
                sq <= 1_000_000,
        ;
    }
    let y: i64 = if flip == 0 {
        y_mag as i64
    } else {
        -(y_mag as i64)
    };
    proof {
        assert(-1000 * (d as i64) <= x * (d as i64) <= 1000 * (d as i64)
            && -1000 * (d as i64) <= y * (d as i64) <= 1000 * (d as i64))
            by (nonlinear_arith)
            requires
                -1000 <= x <= 1000,
                -1000 <= y <= 1000,
                0 <= d as i64 <= 100_000_000_000_000i64,
        ;
        crate::geom::lemma_tz_div_bound((x * (d as i64)) as int, 1000, 1000 * (d as int));
        crate::geom::lemma_tz_div_bound((y * (d as i64)) as int, 1000, 1000 * (d as int));
        vstd::arithmetic::div_mod::lemma_div_multiples_vanish(d as int, 1000);
    }
    let off_x = crate::geom::tz_div_i64(x * (d as i64), 1000);
    let off_y = crate::geom::tz_div_i64(y * (d as i64), 1000);
    let raw = Position::new(center.x + off_x, center.y + off_y);
    let p = raw.clamped();
    proof {
        // Clamping toward the arena never moves the point further from an
        // in-world centre on either axis.
        assert(-(dist_max as int) <= p.x - center.x <= dist_max as int);
        assert(-(dist_max as int) <= p.y - center.y <= dist_max as int);
        assert(p == spec_annulus_point(center, dist_min as int, dist_max as int,
            old(rng).state));
        // The fixed-point direction has squared length within two parts in
        // a thousand of the unit circle.
        let a = if x >= 0 { x as int } else { -(x as int) };
        let b = y_mag as int;
        assert(a * a == x * x) by (nonlinear_arith)
            requires
                a == x || a == -x,
        ;
        assert(998_000 <= a * a + b * b <= 1_000_000) by (nonlinear_arith)
            requires
                a * a == x * x,
                0 <= a <= 1000,
                0 <= b <= 1000,
                b * b <= 1_000_000 - x * x,
                1_000_000 - x * x < (b + 1) * (b + 1),
        ;
        // The truncating division of each signed component is the sign
        // applied to the magnitude's rounded-down quotient.
        let ma = a * (d as int) / 1000;
        let mb = b * (d as int) / 1000;
        assert(a * (d as int) == x * (d as int) || a * (d as int) == -(x * (d as int)))
            by (nonlinear_arith)
            requires
                a == x || a == -x,
        ;
        assert(x >= 0 ==> x * (d as int) >= 0) by (nonlinear_arith)
            requires
                0 <= d,
        ;
        assert(x < 0 ==> x * (d as int) <= 0) by (nonlinear_arith)
            requires
                0 <= d,
        ;
        assert(off_x == ma || off_x == -ma);
        let bsig = if flip == 0 { b } else { -b };
        assert(bsig == y as int);
        assert(b * (d as int) == y * (d as int) || b * (d as int) == -(y * (d as int)))
            by (nonlinear_arith)
            requires
                b == y || b == -y,
        ;
        assert(y >= 0 ==> y * (d as int) >= 0) by (nonlinear_arith)
            requires
                0 <= d,
        ;
        assert(y < 0 ==> y * (d as int) <= 0) by (nonlinear_arith)
            requires
                0 <= d,
        ;
        assert(off_y == mb || off_y == -mb);
        // Clamping toward the arena shrinks each axis's offset, so the
        // whole offset never exceeds the drawn distance.
        assert(-ma <= p.x - center.x <= ma && -mb <= p.y - center.y <= mb);
        vstd::arithmetic::div_mod::lemma_fundamental_div_mod(a * (d as int), 1000);
        vstd::arithmetic::div_mod::lemma_mod_bound(a * (d as int), 1000);
        vstd::arithmetic::div_mod::lemma_fundamental_div_mod(b * (d as int), 1000);
        vstd::arithmetic::div_mod::lemma_mod_bound(b * (d as int), 1000);
        assert((p.x - center.x) * (p.x - center.x) + (p.y - center.y) * (p.y - center.y)
            <= (dist_max as int) * (dist_max as int)) by (nonlinear_arith)
            requires
                -ma <= p.x - center.x <= ma,
                -mb <= p.y - center.y <= mb,
                0 <= 1000 * ma <= a * (d as int),
                0 <= 1000 * mb <= b * (d as int),
                a * a + b * b <= 1_000_000,
                0 <= a,
                0 <= b,
                0 <= d < dist_max,
        ;
        if center.x + dist_max <= crate::geom::WORLD_BOUND
            && -crate::geom::WORLD_BOUND <= center.x - dist_max
            && center.y + dist_max <= crate::geom::WORLD_BOUND
            && -crate::geom::WORLD_BOUND <= center.y - dist_max {
            // No clamping occurred, so the offset stands as computed.
            assert(p.x - center.x == off_x && p.y - center.y == off_y);
            lemma_annulus_offset_reaches_inner(a, b, d as int, dist_min as int, ma, mb);
            assert(off_x * off_x == ma * ma && off_y * off_y == mb * mb)
                by (nonlinear_arith)
                requires
                    off_x == ma || off_x == -ma,
                    off_y == mb || off_y == -mb,
            ;
        }
    }
    p
}

/// What every enemy spawned for wave `w` looks like: full health scaling
/// linearly with the wave, melee damage `9 + w`, the decayed melee
/// cooldown, the fixed ranged cooldown, capped multiplicative speeds,
/// ranged damage that is either absent or the wave's full value — never
/// present below wave five, always present past wave twenty — attack
/// timers pre-seeded strictly inside their periods (so a fresh wave does
/// not attack in lockstep), and a spawn point within the wave's annulus
/// reach of the player on either axis and, when the player is far enough
/// from every arena edge for no clamping to occur, at least the annulus
/// inner margin away from the player.
pub open spec fn spawned_enemy_ok(e: Enemy, w: int, ppos: Position) -> bool {
    let reach = 800_000 + 20_000 * w;
    &&& -reach <= e.pos.x - ppos.x <= reach
    &&& -reach <= e.pos.y - ppos.y <= reach
    &&& crate::geom::dist_sq(e.pos, ppos) <= reach * reach
    &&& ((ppos.x + reach <= crate::geom::WORLD_BOUND
        && -crate::geom::WORLD_BOUND <= ppos.x - reach
        && ppos.y + reach <= crate::geom::WORLD_BOUND
        && -crate::geom::WORLD_BOUND <= ppos.y - reach)
        ==> crate::geom::dist_sq(e.pos, ppos)
            >= annulus_inner_margin(ENEMY_SPAWN_DIST_MIN as int)
                * annulus_inner_margin(ENEMY_SPAWN_DIST_MIN as int))
    &&& e.health.max_hp == 24 + 2 * w
    &&& e.health.current_hp == e.health.max_hp
    &&& e.stats.close_attack_damage == 9 + w
    &&& e.stats.close_attack_cooldown_ms == melee_cooldown_ms(w)
    &&& e.stats.ranged_attack_cooldown_ms == ENEMY_RANGED_COOLDOWN_MS
    &&& e.stats.ranged_attack_speed == speed_curve(200_000, w)
    &&& e.stats.movement_speed == speed_curve(75_000, w)
    &&& (e.stats.ranged_attack_damage == 0
        || e.stats.ranged_attack_damage == enemy_ranged_damage_value(w))
    &&& (w < 5 ==> e.stats.ranged_attack_damage == 0)
    &&& (w > 20 ==> e.stats.ranged_attack_damage == enemy_ranged_damage_value(w))
    &&& e.state.close_attack_timer.period_ms == e.stats.close_attack_cooldown_ms
    &&& e.state.ranged_attack_timer.period_ms == e.stats.ranged_attack_cooldown_ms
    &&& (e.state.close_attack_timer.period_ms > 0
        ==> e.state.close_attack_timer.elapsed_ms < e.state.close_attack_timer.period_ms)
    &&& (e.state.ranged_attack_timer.period_ms > 0
        ==> e.state.ranged_attack_timer.elapsed_ms < e.state.ranged_attack_timer.period_ms)
    &&& enemy_wf(e)
}

/// The wave director's tick: if any enemy is still alive, nothing
/// happens. Otherwise the wave counter rises by one, the player earns one
/// upgrade token and the per-wave heal, and `8 + 2 × wave` enemies of the
/// new wave spawn around the player, each with a fresh id and attack
/// timers pre-seeded to a pseudo-random point of their periods.
pub fn spawn_wave_if_no_enemies(
    wave: &mut u32,
    upgrades: &mut PlayerUpgradeCounter,
    player: &mut Player,
    enemies: &mut Vec<Enemy>,
    next_id: &mut u64,
    rng: &mut Rng,
)
    requires
        player_wf(*old(player)),
        forall|i: int| 0 <= i < old(enemies)@.len() ==> enemy_wf(#[trigger] old(enemies)@[i]),
        *old(wave) < 0xffff_ffffu32,
        *old(next_id) + spec_enemies_to_spawn(*old(wave) + 1) <= u64::MAX,
    ensures
        player_wf(*final(player)),
        forall|i: int| 0 <= i < final(enemies)@.len() ==> enemy_wf(#[trigger] final(enemies)@[i]),
        old(enemies)@.len() != 0 ==> {
            &&& *final(wave) == *old(wave)
            &&& *final(upgrades) == *old(upgrades)
            &&& *final(player) == *old(player)
            &&& final(enemies)@ == old(enemies)@
            &&& *final(next_id) == *old(next_id)
            &&& *final(rng) == *old(rng)
        },
        old(enemies)@.len() == 0 ==> {
            let w = *old(wave) + 1;
            &&& *final(wave) == w
            &&& final(upgrades).unused_upgrades == sat_add_u64(
                old(upgrades).unused_upgrades as int, 1)
            &&& final(upgrades).attack_upgrades == old(upgrades).attack_upgrades
            &&& final(upgrades).health_upgrades == old(upgrades).health_upgrades
            &&& final(upgrades).speed_upgrades == old(upgrades).speed_upgrades
            &&& final(player).pos == old(player).pos
            &&& final(player).stats == old(player).stats
            &&& final(player).state == old(player).state
            &&& final(player).health.max_hp == old(player).health.max_hp
            &&& final(player).health.current_hp == healed_current(
                old(player).health.max_hp as int,
                old(player).health.current_hp as int,
                old(player).stats.end_of_round_heal as int,
            )
            &&& final(enemies)@.len() == spec_enemies_to_spawn(w as int)
            &&& forall|i: int| 0 <= i < final(enemies)@.len()
                ==> spawned_enemy_ok(#[trigger] final(enemies)@[i], w as int, old(player).pos)
            &&& forall|i: int| 0 <= i < final(enemies)@.len()
                ==> (#[trigger] final(enemies)@[i]).id.raw == *old(next_id) + i
            &&& *final(next_id) == *old(next_id) + spec_enemies_to_spawn(w as int)
        },
{
    if enemies.len() != 0 {
        return;
    }

    *wave = *wave + 1;
    let w = *wave;
    upgrades.add_unused();
    let heal_amount = player.stats.end_of_round_heal;
    player.health.heal(heal_amount);

    let count = enemies_to_spawn(w);
    let melee_cd = enemy_melee_cooldown(w);
    let shot_speed = enemy_speed(200_000, w);
    let move_speed = enemy_speed(75_000, w);
    let melee_damage = 9 + (w as u64);
    let hp = 24 + 2 * (w as u64);
    let dist_max: u64 = 800_000 + 20_000 * (w as u64);
    let ghost base_id = *next_id;

    proof {
        lemma_melee_cooldown_bounded(w as int);
    }

    let mut spawned: u64 = 0;
    while spawned < count
        invariant
            0 <= spawned <= count,
            count == spec_enemies_to_spawn(w as int),
            w == *old(wave) + 1,
            1 <= w,
            base_id + count <= u64::MAX,
            *next_id == base_id + spawned,
            melee_cd == melee_cooldown_ms(w as int),
            melee_cd <= ENEMY_BASE_MELEE_COOLDOWN_MS,
            shot_speed == speed_curve(200_000, w as int),
            move_speed == speed_curve(75_000, w as int),
            shot_speed <= SPEED_CAP,
            move_speed <= SPEED_CAP,
            melee_damage == 9 + w,
            hp == 24 + 2 * w,
            ENEMY_SPAWN_DIST_MIN < dist_max <= 100_000_000_000_000,
            dist_max == 800_000 + 20_000 * (w as int),
            player_wf(*player),
            enemies@.len() == spawned,
            forall|i: int| 0 <= i < enemies@.len()
                ==> spawned_enemy_ok(#[trigger] enemies@[i], w as int, player.pos),
            player.pos == old(player).pos,
            forall|i: int| 0 <= i < enemies@.len()
                ==> (#[trigger] enemies@[i]).id.raw == base_id + i,
        decreases count - spawned,
    {
        let id = EntityId { raw: *next_id };
        *next_id = *next_id + 1;

        let pos = annulus_point(player.pos, ENEMY_SPAWN_DIST_MIN, dist_max, rng);

        let roll_a = rng.below(1000);
        let roll_b = rng.below(1000);
        let roll_c = rng.below(1000);
        let ranged_damage = enemy_ranged_damage_for_rolls(w, roll_a, roll_b, roll_c);

        let stats = EnemyStats::new(melee_damage, melee_cd, ranged_damage,
            ENEMY_RANGED_COOLDOWN_MS, shot_speed, move_speed);
        let state = EnemyState::from_enemy_stats(stats).with_random_ranged_timer(rng);
        enemies.push(Enemy { id, pos, health: Health::new(hp), stats, state });
        spawned = spawned + 1;
    }
}

} // verus!
