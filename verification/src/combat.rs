//! Combat resolution: movement, melee and ranged timers, projectile motion
//! and collision, splash pulses and death bookkeeping.
//!
//! Every system is a plain function over the records it touches, with an
//! exact contract: the sequential systems are specified by folds over the
//! record sequences, mirroring the per-record processing order, so the
//! caller knows the complete final state. The per-tick ordering guarantees
//! (movement before attacks, damage before removal, removal before the
//! wave-spawn decision, the death check last) live in the simulation
//! context that calls these systems.

use vstd::prelude::*;
use crate::entity::Enemy;
use crate::entity::Player;
use crate::entity::Projectile;
use crate::entity::SplashProjectileResidual;
use crate::entity::SplashResidue;
use crate::entity::enemy_wf;
use crate::entity::player_wf;
use crate::entity::projectile_wf;
use crate::geom::ENEMY_RADIUS;
use crate::geom::PLAYER_RADIUS;
use crate::geom::Position;
use crate::geom::clamp_coord;
use crate::geom::dist_sq;
use crate::geom::in_world;
use crate::geom::tz_div;
use crate::geom::within_distance;
use crate::health::damaged_current;
use crate::health::Health;
use crate::timer::Cooldown;

verus! {

/// Melee reach: the two body radii touching, in milli-units.
pub const MELEE_RANGE: i64 = PLAYER_RADIUS + ENEMY_RADIUS;

/// Horizontal distance from the player beyond which a projectile is
/// culled, in milli-units.
pub const PROJECTILE_CULL_X: i64 = 2_000_000;

/// Vertical distance from the player beyond which a projectile is culled,
/// in milli-units.
pub const PROJECTILE_CULL_Y: i64 = 1_500_000;

/// Largest frame delta the simulation accepts, in milliseconds.
pub const MAX_FRAME_MS: u32 = 1_000_000;

/// The movement direction one axis's key pair encodes: positive key alone
/// is `1`, negative key alone is `-1`, both or neither is `0`.
pub open spec fn move_dir(pos_key: bool, neg_key: bool) -> int {
    if pos_key && !neg_key {
        1
    } else if neg_key && !pos_key {
        -1
    } else {
        0
    }
}

/// How far the player moves on each pressed axis this tick: the speed over
/// the frame delta, doubled under a boost, and scaled by `707/1000`
/// (an integer approximation of the reciprocal square root of two) when
/// both axes move.
pub open spec fn movement_step(speed: int, dt: int, boosted: bool, diagonal: bool) -> int {
    let base = speed * dt / 1000;
    let with_boost = if boosted {
        2 * base
    } else {
        base
    };
    if diagonal {
        with_boost * 707 / 1000
    } else {
        with_boost
    }
}

/// The boost window left after `dt` elapses.
pub open spec fn boost_remaining(boost: int, dt: int) -> int {
    if boost > dt {
        boost - dt
    } else {
        0
    }
}

/// The player after one movement tick: the boost window wound down, the
/// position advanced by the held keys and clamped into the arena, and the
/// ranged-attack timer accumulating the frame delta. The melee timer is
/// owned by `player_melee_attack` and untouched here.
pub open spec fn updated_player(p: Player, up: bool, down: bool, left: bool, right: bool,
    dt: int) -> Player {
    let boost2 = boost_remaining(p.state.boost_time_left_ms as int, dt);
    let h = move_dir(right, left);
    let v = move_dir(up, down);
    let step = movement_step(p.stats.movement_speed as int, dt, boost2 > 0, h != 0 && v != 0);
    Player {
        pos: Position {
            x: clamp_coord(p.pos.x + h * step) as i64,
            y: clamp_coord(p.pos.y + v * step) as i64,
        },
        state: crate::entity::PlayerState {
            boost_time_left_ms: boost2 as u32,
            ranged_attack_timer: p.state.ranged_attack_timer.spec_ticked(dt),
            ..p.state
        },
        ..p
    }
}

/// Moves the player by the held movement keys, winds the boost window
/// down, and accumulates time on the ranged-attack timer, exactly as
/// `updated_player` describes.
pub fn update_player(
    player: &mut Player,
    move_up: bool,
    move_down: bool,
    move_left: bool,
    move_right: bool,
    dt_ms: u32,
)
    requires
        player_wf(*old(player)),
        dt_ms <= MAX_FRAME_MS,
    ensures
        player_wf(*final(player)),
        *final(player) == updated_player(*old(player), move_up, move_down, move_left,
            move_right, dt_ms as int),
        final(player).health == old(player).health,
        final(player).stats == old(player).stats,
        final(player).state.close_attack_timer == old(player).state.close_attack_timer,
        final(player).state.current_weapon == old(player).state.current_weapon,
        final(player).state.boost_time_left_ms == boost_remaining(
            old(player).state.boost_time_left_ms as int, dt_ms as int),
        final(player).state.ranged_attack_timer.period_ms
            == old(player).state.ranged_attack_timer.period_ms,
        final(player).state.ranged_attack_timer.elapsed_ms
            == if old(player).state.ranged_attack_timer.elapsed_ms + dt_ms
                < old(player).state.ranged_attack_timer.period_ms {
                old(player).state.ranged_attack_timer.elapsed_ms + dt_ms
            } else {
                old(player).state.ranged_attack_timer.period_ms as int
            },
        ({
            let boosted = boost_remaining(old(player).state.boost_time_left_ms as int,
                dt_ms as int) > 0;
            let h = move_dir(move_right, move_left);
            let v = move_dir(move_up, move_down);
            let step = movement_step(old(player).stats.movement_speed as int, dt_ms as int,
                boosted, h != 0 && v != 0);
            &&& final(player).pos.x == clamp_coord(old(player).pos.x + h * step)
            &&& final(player).pos.y == clamp_coord(old(player).pos.y + v * step)
        }),
{
    // The boost window decays first, so this tick's speed reads the
    // already-decayed remainder.
    if player.state.boost_time_left_ms > dt_ms {
        player.state.boost_time_left_ms = player.state.boost_time_left_ms - dt_ms;
    } else {
        player.state.boost_time_left_ms = 0;
    }
    let boosted = player.state.boost_time_left_ms > 0;

    let h: i64 = if move_right && !move_left {
        1
    } else if move_left && !move_right {
        -1
    } else {
        0
    };
    let v: i64 = if move_up && !move_down {
        1
    } else if move_down && !move_up {
        -1
    } else {
        0
    };

    proof {
        assert(player.stats.movement_speed * dt_ms <= 1_000_000_000_000_000u64)
            by (nonlinear_arith)
            requires
                0 <= player.stats.movement_speed <= crate::stats::SPEED_CAP,
                0 <= dt_ms <= MAX_FRAME_MS,
        ;
    }
    let base: u64 = player.stats.movement_speed * (dt_ms as u64) / 1000;
    let with_boost: u64 = if boosted {
        2 * base
    } else {
        base
    };
    let step: u64 = if h != 0 && v != 0 {
        with_boost * 707 / 1000
    } else {
        with_boost
    };

    proof {
        vstd::arithmetic::div_mod::lemma_div_is_ordered(
            (player.stats.movement_speed * (dt_ms as u64)) as int,
            1_000_000_000_000_000int, 1000);
        assert(base <= 1_000_000_000_000u64);
        assert(with_boost <= 2_000_000_000_000u64);
        if h != 0 && v != 0 {
            vstd::arithmetic::div_mod::lemma_div_is_ordered(
                (with_boost * 707) as int, 1_414_000_000_000_000int, 1000);
        }
        assert(step <= 2_000_000_000_000u64);
        assert(-2_000_000_000_000 <= h * (step as i64) <= 2_000_000_000_000
            && -2_000_000_000_000 <= v * (step as i64) <= 2_000_000_000_000)
            by (nonlinear_arith)
            requires
                -1 <= h <= 1,
                -1 <= v <= 1,
                0 <= step as i64 <= 2_000_000_000_000,
        ;
    }
    let moved_x: i64 = player.pos.x + h * (step as i64);
    let moved_y: i64 = player.pos.y + v * (step as i64);
    player.pos = Position::new(moved_x, moved_y).clamped();

    player.state.ranged_attack_timer.tick(dt_ms);
}

/// An enemy after taking `dmg` melee or projectile damage.
pub open spec fn enemy_damaged(e: Enemy, dmg: int) -> Enemy {
    Enemy {
        health: Health {
            max_hp: e.health.max_hp,
            current_hp: damaged_current(e.health.current_hp as int, dmg) as u64,
        },
        ..e
    }
}

/// The index of the first enemy within melee reach of `ppos`, or `-1`.
pub open spec fn first_melee_target(s: Seq<Enemy>, ppos: Position) -> int
    decreases s.len(),
{
    if s.len() == 0 {
        -1
    } else if within_distance(ppos, s[0].pos, MELEE_RANGE as int) {
        0
    } else {
        let rest = first_melee_target(s.drop_first(), ppos);
        if rest == -1 {
            -1
        } else {
            rest + 1
        }
    }
}

/// What `first_melee_target` finds: `-1` means nothing is in reach, and a
/// real index is the least one in reach.
pub proof fn lemma_first_melee_target(s: Seq<Enemy>, ppos: Position)
    ensures
        first_melee_target(s, ppos) == -1 ==> forall|j: int|
            0 <= j < s.len() ==> !within_distance(ppos, s[j].pos, MELEE_RANGE as int),
        first_melee_target(s, ppos) != -1 ==> {
            let i = first_melee_target(s, ppos);
            &&& 0 <= i < s.len()
            &&& within_distance(ppos, s[i].pos, MELEE_RANGE as int)
            &&& forall|j: int| 0 <= j < i ==> !within_distance(ppos, s[j].pos, MELEE_RANGE as int)
        },
    decreases s.len(),
{
    if s.len() != 0 && !within_distance(ppos, s[0].pos, MELEE_RANGE as int) {
        lemma_first_melee_target(s.drop_first(), ppos);
        assert forall|j: int| 1 <= j < s.len() implies s.drop_first()[j - 1] == s[j] by {}
    }
}

/// The player and the enemies after the player's melee tick: when the
/// melee timer has elapsed and some enemy is within reach, the first such
/// enemy takes the melee damage and the timer resets; otherwise the timer
/// accumulates the frame delta.
pub open spec fn melee_attack_outcome(p: Player, es: Seq<Enemy>, dt: int)
    -> (Player, Seq<Enemy>)
{
    let hit = first_melee_target(es, p.pos);
    if p.state.close_attack_timer.is_ready() && hit != -1 {
        (
            Player {
                state: crate::entity::PlayerState {
                    close_attack_timer: p.state.close_attack_timer.spec_consumed(),
                    ..p.state
                },
                ..p
            },
            es.update(hit, enemy_damaged(es[hit], p.stats.close_attack_damage as int)),
        )
    } else {
        (
            Player {
                state: crate::entity::PlayerState {
                    close_attack_timer: p.state.close_attack_timer.spec_ticked(dt),
                    ..p.state
                },
                ..p
            },
            es,
        )
    }
}

/// The player's melee attack: when the melee timer has elapsed and some
/// enemy is within reach, the first such enemy takes the melee damage and
/// the timer resets; otherwise the timer accumulates the frame delta —
/// exactly `melee_attack_outcome`.
pub fn player_melee_attack(player: &mut Player, enemies: &mut Vec<Enemy>, dt_ms: u32)
    requires
        player_wf(*old(player)),
        forall|i: int| 0 <= i < old(enemies)@.len() ==> enemy_wf(#[trigger] old(enemies)@[i]),
    ensures
        player_wf(*final(player)),
        forall|i: int| 0 <= i < final(enemies)@.len() ==> enemy_wf(#[trigger] final(enemies)@[i]),
        (*final(player), final(enemies)@) == melee_attack_outcome(*old(player), old(enemies)@,
            dt_ms as int),
        final(player).pos == old(player).pos,
        final(player).health == old(player).health,
        final(player).stats == old(player).stats,
        final(player).state.ranged_attack_timer == old(player).state.ranged_attack_timer,
        final(player).state.current_weapon == old(player).state.current_weapon,
        final(player).state.boost_time_left_ms == old(player).state.boost_time_left_ms,
        ({
            let hit = first_melee_target(old(enemies)@, old(player).pos);
            if old(player).state.close_attack_timer.is_ready() && hit != -1 {
                &&& final(enemies)@ == old(enemies)@.update(hit, enemy_damaged(
                    old(enemies)@[hit], old(player).stats.close_attack_damage as int))
                &&& final(player).state.close_attack_timer == (Cooldown {
                    period_ms: old(player).state.close_attack_timer.period_ms,
                    elapsed_ms: 0,
                })
            } else {
                &&& final(enemies)@ == old(enemies)@
                &&& final(player).state.close_attack_timer.period_ms
                    == old(player).state.close_attack_timer.period_ms
                &&& final(player).state.close_attack_timer.elapsed_ms
                    == if old(player).state.close_attack_timer.elapsed_ms + dt_ms
                        < old(player).state.close_attack_timer.period_ms {
                        old(player).state.close_attack_timer.elapsed_ms + dt_ms
                    } else {
                        old(player).state.close_attack_timer.period_ms as int
                    }
            }
        }),
{
    proof {
        lemma_first_melee_target(enemies@, player.pos);
    }
    if player.state.close_attack_timer.ready() {
        let ghost target = first_melee_target(enemies@, player.pos);
        let n = enemies.len();
        let mut i: usize = 0;
        while i < n
            invariant
                n == enemies@.len(),
                0 <= i <= n,
                player_wf(*player),
                *player == *old(player),
                enemies@ == old(enemies)@,
                forall|k: int| 0 <= k < enemies@.len() ==> enemy_wf(#[trigger] enemies@[k]),
                forall|j: int| 0 <= j < i ==> !within_distance(player.pos, enemies@[j].pos,
                    MELEE_RANGE as int),
                target == first_melee_target(enemies@, player.pos),
                player.state.close_attack_timer.is_ready(),
            decreases n - i,
        {
            let e_pos = enemies[i].pos;
            if crate::geom::touches(player.pos, e_pos, MELEE_RANGE) {
                proof {
                    lemma_first_melee_target(enemies@, player.pos);
                    assert(target == i as int);
                }
                let dmg = player.stats.close_attack_damage;
                let mut e = enemies[i];
                e.health.damage(dmg);
                enemies.set(i, e);
                player.state.close_attack_timer.consume();
                return;
            }
            i = i + 1;
        }
        // Timer ready but nothing in reach: the period stays complete, so
        // accumulating the delta leaves the timer at its period.
        player.state.close_attack_timer.tick(dt_ms);
    } else {
        player.state.close_attack_timer.tick(dt_ms);
    }
}

/// A projectile too far from the player to matter any more.
pub open spec fn projectile_culled(p: Projectile, ppos: Position) -> bool {
    ||| p.location.x - ppos.x > PROJECTILE_CULL_X
    ||| ppos.x - p.location.x > PROJECTILE_CULL_X
    ||| p.location.y - ppos.y > PROJECTILE_CULL_Y
    ||| ppos.y - p.location.y > PROJECTILE_CULL_Y
}

/// A projectile after one tick of motion: the velocity integrated over the
/// frame delta, clamped into the arena.
pub open spec fn projectile_moved(p: Projectile, dt: int) -> Projectile {
    Projectile {
        location: Position {
            x: clamp_coord(p.location.x + tz_div(p.velocity.vx * dt, 1000)) as i64,
            y: clamp_coord(p.location.y + tz_div(p.velocity.vy * dt, 1000)) as i64,
        },
        ..p
    }
}

/// All projectiles after one tick of motion, in order: the ones beyond the
/// culling distance disappear, the rest move.
pub open spec fn projectiles_after_motion(s: Seq<Projectile>, ppos: Position, dt: int)
    -> Seq<Projectile>
    decreases s.len(),
{
    if s.len() == 0 {
        Seq::empty()
    } else {
        let prefix = projectiles_after_motion(s.drop_last(), ppos, dt);
        let p = s.last();
        if projectile_culled(p, ppos) {
            prefix
        } else {
            prefix.push(projectile_moved(p, dt))
        }
    }
}

/// Integrates every projectile's motion over the frame delta and culls the
/// ones beyond the culling distance from the player.
pub fn move_projectiles(projectiles: &mut Vec<Projectile>, player_pos: Position, dt_ms: u32)
    requires
        forall|i: int| 0 <= i < old(projectiles)@.len()
            ==> projectile_wf(#[trigger] old(projectiles)@[i]),
        in_world(player_pos),
        dt_ms <= MAX_FRAME_MS,
    ensures
        final(projectiles)@ == projectiles_after_motion(old(projectiles)@, player_pos,
            dt_ms as int),
        forall|i: int| 0 <= i < final(projectiles)@.len()
            ==> projectile_wf(#[trigger] final(projectiles)@[i]),
{
    let n = projectiles.len();
    let mut out: Vec<Projectile> = Vec::new();
    let mut i: usize = 0;
    while i < n
        invariant
            n == old(projectiles)@.len(),
            0 <= i <= n,
            projectiles@ == old(projectiles)@,
            forall|k: int| 0 <= k < n ==> projectile_wf(#[trigger] projectiles@[k]),
            in_world(player_pos),
            dt_ms <= MAX_FRAME_MS,
            out@ == projectiles_after_motion(old(projectiles)@.take(i as int), player_pos,
                dt_ms as int),
            forall|k: int| 0 <= k < out@.len() ==> projectile_wf(#[trigger] out@[k]),
        decreases n - i,
    {
        let p = projectiles[i];
        let dx = if p.location.x >= player_pos.x {
            p.location.x - player_pos.x
        } else {
            player_pos.x - p.location.x
        };
        let dy = if p.location.y >= player_pos.y {
            p.location.y - player_pos.y
        } else {
            player_pos.y - p.location.y
        };
        if !(dx > PROJECTILE_CULL_X || dy > PROJECTILE_CULL_Y) {
            let moved = step_projectile(p, dt_ms);
            out.push(moved);
        }
        proof {
            assert(old(projectiles)@.take(i + 1).drop_last() =~= old(projectiles)@.take(
                i as int));
            assert(old(projectiles)@.take(i + 1).last() == old(projectiles)@[i as int]);
        }
        i = i + 1;
    }
    proof {
        assert(old(projectiles)@.take(n as int) =~= old(projectiles)@);
    }
    *projectiles = out;
}

/// One projectile's motion over the frame delta.
fn step_projectile(p: Projectile, dt_ms: u32) -> (r: Projectile)
    requires
        projectile_wf(p),
        dt_ms <= MAX_FRAME_MS,
    ensures
        r == projectile_moved(p, dt_ms as int),
        projectile_wf(r),
{
    let sx = velocity_step(p.velocity.vx, dt_ms);
    let sy = velocity_step(p.velocity.vy, dt_ms);
    let mut out = p;
    out.location = Position::new(p.location.x + sx, p.location.y + sy).clamped();
    out
}

/// One velocity component integrated over the frame delta, in milli-units.
fn velocity_step(v: i64, dt_ms: u32) -> (r: i64)
    requires
        -crate::entity::VELOCITY_CAP <= v <= crate::entity::VELOCITY_CAP,
        dt_ms <= MAX_FRAME_MS,
    ensures
        r == tz_div(v * dt_ms, 1000),
        -4_000_000_000_000 <= r <= 4_000_000_000_000,
{
    proof {
        assert(-4_000_000_000_000_000i64 <= v * dt_ms <= 4_000_000_000_000_000i64)
            by (nonlinear_arith)
            requires
                -crate::entity::VELOCITY_CAP <= v <= crate::entity::VELOCITY_CAP,
                0 <= dt_ms <= MAX_FRAME_MS,
        ;
        crate::geom::lemma_tz_div_bound(v * dt_ms, 1000, 4_000_000_000_000_000int);
    }
    crate::geom::tz_div_i64(v * (dt_ms as i64), 1000)
}

/// Whether a projectile collides with an enemy it is allowed to hit: the
/// enemy is not the entity struck on the immediately preceding collision,
/// and the two bodies overlap.
pub open spec fn proj_hits_enemy(p: Projectile, e: Enemy) -> bool {
    &&& e.id != p.last_entity_hit
    &&& within_distance(p.location, e.pos, ENEMY_RADIUS + p.radius)
}

/// Whether a splash pulse's numbers are within the simulation's ranges.
pub open spec fn residual_wf(r: SplashProjectileResidual) -> bool {
    &&& in_world(r.pos)
    &&& 0 <= r.radius <= crate::entity::RADIUS_CAP
}

/// The splash pulse a splash-tagged projectile leaves at its point of
/// impact.
pub open spec fn residual_of(p: Projectile) -> SplashProjectileResidual {
    match p.splash {
        Some(s) => SplashProjectileResidual { damage: s.damage, radius: s.range, pos: p.location },
        None => SplashProjectileResidual { damage: 0, radius: 0, pos: p.location },
    }
}

/// One projectile swept over the enemy sequence in order, starting in
/// liveness `alive`: each allowed collision damages that enemy, leaves a
/// splash pulse if the projectile is splash-tagged, and either consumes
/// the projectile (pierce exhausted) or decrements its pierce and records
/// the enemy as last hit. The result is the projectile, whether it
/// survived, the enemies, the pulses left, and how many hits landed.
pub open spec fn proj_scan(p: Projectile, alive: bool, s: Seq<Enemy>)
    -> (Projectile, bool, Seq<Enemy>, Seq<SplashProjectileResidual>, int)
    decreases s.len(),
{
    if s.len() == 0 {
        (p, alive, Seq::<Enemy>::empty(), Seq::<SplashProjectileResidual>::empty(), 0int)
    } else {
        let step = proj_scan(p, alive, s.drop_last());
        let p1 = step.0;
        let a1 = step.1;
        let es = step.2;
        let rs = step.3;
        let h = step.4;
        let e = s.last();
        if a1 && proj_hits_enemy(p1, e) {
            let e2 = enemy_damaged(e, p1.damage as int);
            let rs2 = if p1.splash is Some {
                rs.push(residual_of(p1))
            } else {
                rs
            };
            if p1.pierce_left == 0 {
                (p1, false, es.push(e2), rs2, h + 1)
            } else {
                (
                    Projectile {
                        pierce_left: (p1.pierce_left - 1) as u64,
                        last_entity_hit: e.id,
                        ..p1
                    },
                    true,
                    es.push(e2),
                    rs2,
                    h + 1,
                )
            }
        } else {
            (p1, a1, es.push(e), rs, h)
        }
    }
}

/// In one sweep, a dead projectile hits nothing; a surviving one has spent
/// exactly its hit count in pierce; and a projectile consumed during the
/// sweep landed exactly one hit more than the pierce it entered with.
pub proof fn lemma_scan_hits_bounded(p: Projectile, s: Seq<Enemy>)
    ensures
        ({
            let out = proj_scan(p, true, s);
            &&& 0 <= out.4
            &&& out.1 ==> out.0.pierce_left == p.pierce_left - out.4
            &&& !out.1 ==> out.4 == p.pierce_left + 1
            &&& out.2.len() == s.len()
        }),
    decreases s.len(),
{
    if s.len() != 0 {
        lemma_scan_hits_bounded(p, s.drop_last());
    }
}

/// A projectile sweep touches only enemy health: ids, positions, stats
/// and timers come through unchanged, and health never rises — so a
/// handle recorded in `last_entity_hit` stays valid across the sweep.
pub proof fn lemma_scan_touches_only_health(p: Projectile, alive: bool, s: Seq<Enemy>)
    ensures
        ({
            let out = proj_scan(p, alive, s);
            &&& out.2.len() == s.len()
            &&& forall|i: int| 0 <= i < s.len() ==> {
                let e2 = #[trigger] out.2[i];
                &&& e2.id == s[i].id
                &&& e2.pos == s[i].pos
                &&& e2.stats == s[i].stats
                &&& e2.state == s[i].state
                &&& e2.health.max_hp == s[i].health.max_hp
                &&& e2.health.current_hp <= s[i].health.current_hp
            }
        }),
    decreases s.len(),
{
    if s.len() != 0 {
        lemma_scan_touches_only_health(p, alive, s.drop_last());
    }
}

/// A whole resolution round touches only enemy health, whichever
/// projectiles hit.
pub proof fn lemma_resolution_touches_only_health(ps: Seq<Projectile>, es: Seq<Enemy>)
    ensures
        ({
            let out = resolve_fold(ps, es);
            &&& out.1.len() == es.len()
            &&& forall|i: int| 0 <= i < es.len() ==> {
                let e2 = #[trigger] out.1[i];
                &&& e2.id == es[i].id
                &&& e2.pos == es[i].pos
                &&& e2.stats == es[i].stats
                &&& e2.state == es[i].state
                &&& e2.health.max_hp == es[i].health.max_hp
                &&& e2.health.current_hp <= es[i].health.current_hp
            }
        }),
    decreases ps.len(),
{
    if ps.len() != 0 {
        lemma_resolution_touches_only_health(ps.drop_last(), es);
        let prev = resolve_fold(ps.drop_last(), es);
        lemma_scan_touches_only_health(ps.last(), true, prev.1);
    }
}

/// The hits one projectile lands over successive resolution rounds, each
/// round sweeping the enemies alive at that tick, until the projectile is
/// consumed or the rounds run out.
pub open spec fn lifetime_hits(p: Projectile, rounds: Seq<Seq<Enemy>>) -> int
    decreases rounds.len(),
{
    if rounds.len() == 0 {
        0
    } else {
        let out = proj_scan(p, true, rounds[0]);
        if out.1 {
            out.4 + lifetime_hits(out.0, rounds.drop_first())
        } else {
            out.4
        }
    }
}

/// Law: a projectile carrying `pierce_left = p` lands at most `p + 1` hits
/// over its whole lifetime, however many resolution rounds it survives —
/// so it can damage at most `p + 1` distinct entities before it is
/// destroyed.
pub proof fn lemma_pierce_limits_lifetime_hits(p: Projectile, rounds: Seq<Seq<Enemy>>)
    ensures
        lifetime_hits(p, rounds) <= p.pierce_left + 1,
    decreases rounds.len(),
{
    if rounds.len() != 0 {
        lemma_scan_hits_bounded(p, rounds[0]);
        let out = proj_scan(p, true, rounds[0]);
        if out.1 {
            lemma_pierce_limits_lifetime_hits(out.0, rounds.drop_first());
        }
    }
}

/// Sweeps one projectile over the enemies, applying `proj_scan`'s outcome
/// to the world: damaged enemies are written back, splash pulses are
/// appended, and the projectile comes back only if it survived.
fn resolve_one_projectile(
    proj: Projectile,
    enemies: &mut Vec<Enemy>,
    residuals: &mut Vec<SplashProjectileResidual>,
) -> (survivor: Option<Projectile>)
    requires
        projectile_wf(proj),
        forall|i: int| 0 <= i < old(enemies)@.len() ==> enemy_wf(#[trigger] old(enemies)@[i]),
        forall|i: int| 0 <= i < old(residuals)@.len()
            ==> residual_wf(#[trigger] old(residuals)@[i]),
    ensures
        ({
            let out = proj_scan(proj, true, old(enemies)@);
            &&& final(enemies)@ == out.2
            &&& final(residuals)@ == old(residuals)@ + out.3
            &&& survivor == if out.1 {
                Some(out.0)
            } else {
                Option::<Projectile>::None
            }
        }),
        forall|i: int| 0 <= i < final(enemies)@.len() ==> enemy_wf(#[trigger] final(enemies)@[i]),
        forall|i: int| 0 <= i < final(residuals)@.len()
            ==> residual_wf(#[trigger] final(residuals)@[i]),
        survivor matches Some(sp) ==> projectile_wf(sp) && sp.location == proj.location
            && sp.damage == proj.damage,
{
    let mut cur = proj;
    let mut alive = true;
    let n = enemies.len();
    let mut i: usize = 0;
    while i < n
        invariant
            n == old(enemies)@.len(),
            0 <= i <= n,
            enemies@.len() == n,
            projectile_wf(cur),
            cur.location == proj.location,
            cur.damage == proj.damage,
            cur.radius == proj.radius,
            cur.splash == proj.splash,
            forall|k: int| 0 <= k < enemies@.len() ==> enemy_wf(#[trigger] enemies@[k]),
            forall|k: int| i <= k < n ==> enemies@[k] == old(enemies)@[k],
            forall|k: int| 0 <= k < residuals@.len() ==> residual_wf(#[trigger] residuals@[k]),
            ({
                let out = proj_scan(proj, true, old(enemies)@.take(i as int));
                &&& cur == out.0
                &&& alive == out.1
                &&& enemies@.take(i as int) == out.2
                &&& residuals@ == old(residuals)@ + out.3
            }),
        decreases n - i,
    {
        let ghost pre_enemies = enemies@;
        let e = enemies[i];
        let in_range = crate::geom::touches(cur.location, e.pos, ENEMY_RADIUS + cur.radius);
        if alive && !(e.id == cur.last_entity_hit) && in_range {
            let mut e2 = e;
            e2.health.damage(cur.damage);
            enemies.set(i, e2);
            if cur.splash.is_some() {
                let s = match cur.splash {
                    Some(s) => s,
                    None => crate::entity::SplashStats { damage: 0, range: 0 },
                };
                residuals.push(SplashProjectileResidual {
                    damage: s.damage,
                    radius: s.range,
                    pos: cur.location,
                });
            }
            if cur.pierce_left == 0 {
                alive = false;
            } else {
                cur.pierce_left = cur.pierce_left - 1;
                cur.last_entity_hit = e.id;
            }
        }
        proof {
            assert(old(enemies)@.take(i + 1).drop_last() =~= old(enemies)@.take(i as int));
            assert(old(enemies)@.take(i + 1).last() == old(enemies)@[i as int]);
            assert(enemies@.take(i + 1) =~= enemies@.take(i as int).push(enemies@[i as int]));
            assert(enemies@.take(i as int) =~= pre_enemies.take(i as int));
        }
        i = i + 1;
    }
    proof {
        assert(old(enemies)@.take(n as int) =~= old(enemies)@);
        assert(enemies@.take(n as int) =~= enemies@);
    }
    if alive {
        Some(cur)
    } else {
        None
    }
}

/// All player projectiles resolved against the enemies in order: each
/// projectile sweeps the enemy sequence as the previous projectiles left
/// it; survivors keep their order, and every splash pulse is appended.
pub open spec fn resolve_fold(ps: Seq<Projectile>, es: Seq<Enemy>)
    -> (Seq<Projectile>, Seq<Enemy>, Seq<SplashProjectileResidual>)
    decreases ps.len(),
{
    if ps.len() == 0 {
        (Seq::<Projectile>::empty(), es, Seq::<SplashProjectileResidual>::empty())
    } else {
        let prev = resolve_fold(ps.drop_last(), es);
        let out = proj_scan(ps.last(), true, prev.1);
        (
            if out.1 {
                prev.0.push(out.0)
            } else {
                prev.0
            },
            out.2,
            prev.2 + out.3,
        )
    }
}

/// Resolves every player projectile against the enemies: collisions apply
/// the projectile's damage, splash-tagged projectiles leave a pulse,
/// pierce bookkeeping consumes exhausted projectiles.
pub fn resolve_player_projectiles(
    enemies: &mut Vec<Enemy>,
    projectiles: &mut Vec<Projectile>,
    residuals: &mut Vec<SplashProjectileResidual>,
)
    requires
        forall|i: int| 0 <= i < old(enemies)@.len() ==> enemy_wf(#[trigger] old(enemies)@[i]),
        forall|i: int| 0 <= i < old(projectiles)@.len()
            ==> projectile_wf(#[trigger] old(projectiles)@[i]),
        forall|i: int| 0 <= i < old(residuals)@.len()
            ==> residual_wf(#[trigger] old(residuals)@[i]),
    ensures
        ({
            let out = resolve_fold(old(projectiles)@, old(enemies)@);
            &&& final(projectiles)@ == out.0
            &&& final(enemies)@ == out.1
            &&& final(residuals)@ == old(residuals)@ + out.2
        }),
        forall|i: int| 0 <= i < final(enemies)@.len() ==> enemy_wf(#[trigger] final(enemies)@[i]),
        forall|i: int| 0 <= i < final(projectiles)@.len()
            ==> projectile_wf(#[trigger] final(projectiles)@[i]),
        forall|i: int| 0 <= i < final(residuals)@.len()
            ==> residual_wf(#[trigger] final(residuals)@[i]),
{
    let n = projectiles.len();
    let mut survivors: Vec<Projectile> = Vec::new();
    let mut i: usize = 0;
    while i < n
        invariant
            n == old(projectiles)@.len(),
            0 <= i <= n,
            projectiles@ == old(projectiles)@,
            forall|k: int| 0 <= k < n ==> projectile_wf(#[trigger] projectiles@[k]),
            forall|k: int| 0 <= k < enemies@.len() ==> enemy_wf(#[trigger] enemies@[k]),
            forall|k: int| 0 <= k < survivors@.len() ==> projectile_wf(#[trigger] survivors@[k]),
            forall|k: int| 0 <= k < residuals@.len() ==> residual_wf(#[trigger] residuals@[k]),
            ({
                let out = resolve_fold(old(projectiles)@.take(i as int), old(enemies)@);
                &&& survivors@ == out.0
                &&& enemies@ == out.1
                &&& residuals@ == old(residuals)@ + out.2
            }),
        decreases n - i,
    {
        let p = projectiles[i];
        let survivor = resolve_one_projectile(p, enemies, residuals);
        if let Some(sp) = survivor {
            survivors.push(sp);
        }
        proof {
            assert(old(projectiles)@.take(i + 1).drop_last() =~= old(projectiles)@.take(i as int));
            assert(old(projectiles)@.take(i + 1).last() == old(projectiles)@[i as int]);
        }
        i = i + 1;
    }
    proof {
        assert(old(projectiles)@.take(n as int) =~= old(projectiles)@);
    }
    *projectiles = survivors;
}

/// Distance from the player beyond which an enemy projectile is culled on
/// either axis, in milli-units.
pub const ENEMY_PROJECTILE_CULL: i64 = 3_000_000;

/// Reach of an enemy projectile against the player: the player's body
/// radius plus the ordinary projectile radius, in milli-units.
pub const ENEMY_PROJECTILE_HIT_RANGE: i64 = PLAYER_RADIUS + crate::geom::BASE_PROJECTILE_RADIUS;

/// An enemy projectile too far from the player to matter any more.
pub open spec fn enemy_projectile_culled(p: Projectile, ppos: Position) -> bool {
    ||| p.location.x - ppos.x > ENEMY_PROJECTILE_CULL
    ||| ppos.x - p.location.x > ENEMY_PROJECTILE_CULL
    ||| p.location.y - ppos.y > ENEMY_PROJECTILE_CULL
    ||| ppos.y - p.location.y > ENEMY_PROJECTILE_CULL
}

/// A health pool after taking `dmg` damage.
pub open spec fn health_damaged(h: Health, dmg: int) -> Health {
    Health { max_hp: h.max_hp, current_hp: damaged_current(h.current_hp as int, dmg) as u64 }
}

/// Enemy projectiles resolved against the player in order: far ones are
/// culled, ones strictly within reach damage the player and are consumed,
/// the rest stay.
pub open spec fn enemy_projectiles_fold(s: Seq<Projectile>, ppos: Position, php: Health)
    -> (Seq<Projectile>, Health)
    decreases s.len(),
{
    if s.len() == 0 {
        (Seq::<Projectile>::empty(), php)
    } else {
        let prev = enemy_projectiles_fold(s.drop_last(), ppos, php);
        let p = s.last();
        if enemy_projectile_culled(p, ppos) {
            prev
        } else if crate::geom::strictly_within_distance(p.location, ppos,
            ENEMY_PROJECTILE_HIT_RANGE as int) {
            (prev.0, health_damaged(prev.1, p.damage as int))
        } else {
            (prev.0.push(p), prev.1)
        }
    }
}

/// Resolves every enemy projectile against the player: far ones are
/// culled, ones strictly within reach are consumed and damage the player.
pub fn resolve_enemy_projectiles(player: &mut Player, projectiles: &mut Vec<Projectile>)
    requires
        player_wf(*old(player)),
        forall|i: int| 0 <= i < old(projectiles)@.len()
            ==> projectile_wf(#[trigger] old(projectiles)@[i]),
    ensures
        player_wf(*final(player)),
        final(player).pos == old(player).pos,
        final(player).stats == old(player).stats,
        final(player).state == old(player).state,
        ({
            let out = enemy_projectiles_fold(old(projectiles)@, old(player).pos,
                old(player).health);
            &&& final(projectiles)@ == out.0
            &&& final(player).health == out.1
        }),
        forall|i: int| 0 <= i < final(projectiles)@.len()
            ==> projectile_wf(#[trigger] final(projectiles)@[i]),
{
    let n = projectiles.len();
    let mut out: Vec<Projectile> = Vec::new();
    let mut i: usize = 0;
    while i < n
        invariant
            n == old(projectiles)@.len(),
            0 <= i <= n,
            projectiles@ == old(projectiles)@,
            forall|k: int| 0 <= k < n ==> projectile_wf(#[trigger] projectiles@[k]),
            forall|k: int| 0 <= k < out@.len() ==> projectile_wf(#[trigger] out@[k]),
            player_wf(*player),
            player.pos == old(player).pos,
            player.stats == old(player).stats,
            player.state == old(player).state,
            ({
                let fold = enemy_projectiles_fold(old(projectiles)@.take(i as int),
                    old(player).pos, old(player).health);
                &&& out@ == fold.0
                &&& player.health == fold.1
            }),
        decreases n - i,
    {
        let p = projectiles[i];
        let dx = if p.location.x >= player.pos.x {
            p.location.x - player.pos.x
        } else {
            player.pos.x - p.location.x
        };
        let dy = if p.location.y >= player.pos.y {
            p.location.y - player.pos.y
        } else {
            player.pos.y - p.location.y
        };
        if !(dx > ENEMY_PROJECTILE_CULL || dy > ENEMY_PROJECTILE_CULL) {
            if crate::geom::touches_strictly(p.location, player.pos, ENEMY_PROJECTILE_HIT_RANGE) {
                player.health.damage(p.damage);
            } else {
                out.push(p);
            }
        }
        proof {
            assert(old(projectiles)@.take(i + 1).drop_last() =~= old(projectiles)@.take(i as int));
            assert(old(projectiles)@.take(i + 1).last() == old(projectiles)@[i as int]);
        }
        i = i + 1;
    }
    proof {
        assert(old(projectiles)@.take(n as int) =~= old(projectiles)@);
    }
    *projectiles = out;
}

/// How long the visual mark of a spent splash pulse lingers, in
/// milliseconds.
pub const SPLASH_RESIDUE_MS: u32 = 500;

/// An enemy after one splash pulse: damaged if strictly within the pulse's
/// reach, untouched otherwise.
pub open spec fn splash_enemy(e: Enemy, r: SplashProjectileResidual) -> Enemy {
    if crate::geom::strictly_within_distance(r.pos, e.pos, ENEMY_RADIUS + r.radius) {
        enemy_damaged(e, r.damage as int)
    } else {
        e
    }
}

/// The enemies after every pending splash pulse has fired, in order.
pub open spec fn splashes_fold(rs: Seq<SplashProjectileResidual>, es: Seq<Enemy>) -> Seq<Enemy>
    decreases rs.len(),
{
    if rs.len() == 0 {
        es
    } else {
        splashes_fold(rs.drop_last(), es).map_values(|e: Enemy| splash_enemy(e, rs.last()))
    }
}

/// The fading mark a pulse leaves behind.
pub open spec fn residue_of(r: SplashProjectileResidual) -> SplashResidue {
    SplashResidue {
        timer: Cooldown { period_ms: SPLASH_RESIDUE_MS, elapsed_ms: 0 },
        pos: r.pos,
    }
}

/// Fires every pending splash pulse: each damages all enemies strictly
/// within its reach, exactly once in its lifetime, then expires into a
/// fading mark.
pub fn do_splashes(
    enemies: &mut Vec<Enemy>,
    residuals: &mut Vec<SplashProjectileResidual>,
    residue: &mut Vec<SplashResidue>,
)
    requires
        forall|i: int| 0 <= i < old(enemies)@.len() ==> enemy_wf(#[trigger] old(enemies)@[i]),
        forall|i: int| 0 <= i < old(residuals)@.len()
            ==> residual_wf(#[trigger] old(residuals)@[i]),
    ensures
        final(enemies)@ == splashes_fold(old(residuals)@, old(enemies)@),
        final(residuals)@ == Seq::<SplashProjectileResidual>::empty(),
        final(residue)@ == old(residue)@ + old(residuals)@.map_values(
            |r: SplashProjectileResidual| residue_of(r)),
        forall|i: int| 0 <= i < final(enemies)@.len() ==> enemy_wf(#[trigger] final(enemies)@[i]),
{
    let m = residuals.len();
    let mut j: usize = 0;
    while j < m
        invariant
            m == old(residuals)@.len(),
            0 <= j <= m,
            residuals@ == old(residuals)@,
            forall|k: int| 0 <= k < m ==> residual_wf(#[trigger] residuals@[k]),
            forall|k: int| 0 <= k < enemies@.len() ==> enemy_wf(#[trigger] enemies@[k]),
            enemies@ == splashes_fold(old(residuals)@.take(j as int), old(enemies)@),
            residue@ == old(residue)@ + old(residuals)@.take(j as int).map_values(
                |r: SplashProjectileResidual| residue_of(r)),
        decreases m - j,
    {
        let r = residuals[j];
        let ghost pre = enemies@;
        let n = enemies.len();
        let mut i: usize = 0;
        while i < n
            invariant
                n == enemies@.len(),
                n == pre.len(),
                0 <= i <= n,
                residual_wf(r),
                forall|k: int| 0 <= k < enemies@.len() ==> enemy_wf(#[trigger] enemies@[k]),
                forall|k: int| i <= k < n ==> enemies@[k] == pre[k],
                forall|k: int| 0 <= k < i ==> enemies@[k] == splash_enemy(pre[k], r),
            decreases n - i,
        {
            let e = enemies[i];
            if crate::geom::touches_strictly(r.pos, e.pos, ENEMY_RADIUS + r.radius) {
                let mut e2 = e;
                e2.health.damage(r.damage);
                enemies.set(i, e2);
            }
            i = i + 1;
        }
        residue.push(SplashResidue { timer: Cooldown::new(SPLASH_RESIDUE_MS), pos: r.pos });
        proof {
            assert(enemies@ =~= pre.map_values(|e: Enemy| splash_enemy(e, r)));
            assert(old(residuals)@.take(j + 1).drop_last() =~= old(residuals)@.take(j as int));
            assert(old(residuals)@.take(j + 1).last() == old(residuals)@[j as int]);
            assert(old(residuals)@.take(j + 1).map_values(
                |x: SplashProjectileResidual| residue_of(x)) =~= old(residuals)@.take(
                j as int).map_values(|x: SplashProjectileResidual| residue_of(x)).push(
                residue_of(old(residuals)@[j as int])));
        }
        j = j + 1;
    }
    proof {
        assert(old(residuals)@.take(m as int) =~= old(residuals)@);
    }
    residuals.clear();
}

/// The fading splash marks after one tick: each accumulates the frame
/// delta, and the ones whose lifetime completed disappear.
pub open spec fn residue_after(s: Seq<SplashResidue>, dt: int) -> Seq<SplashResidue>
    decreases s.len(),
{
    if s.len() == 0 {
        Seq::<SplashResidue>::empty()
    } else {
        let prefix = residue_after(s.drop_last(), dt);
        let r = s.last();
        let ticked = SplashResidue {
            timer: Cooldown {
                period_ms: r.timer.period_ms,
                elapsed_ms: if r.timer.elapsed_ms + dt < r.timer.period_ms {
                    (r.timer.elapsed_ms + dt) as u32
                } else {
                    r.timer.period_ms
                },
            },
            pos: r.pos,
        };
        if ticked.timer.is_ready() {
            prefix
        } else {
            prefix.push(ticked)
        }
    }
}

/// Ages the fading splash marks and removes the ones whose lifetime
/// completed.
pub fn handle_residue(residue: &mut Vec<SplashResidue>, dt_ms: u32)
    requires
        dt_ms <= MAX_FRAME_MS,
    ensures
        final(residue)@ == residue_after(old(residue)@, dt_ms as int),
{
    let n = residue.len();
    let mut out: Vec<SplashResidue> = Vec::new();
    let mut i: usize = 0;
    while i < n
        invariant
            n == old(residue)@.len(),
            0 <= i <= n,
            residue@ == old(residue)@,
            dt_ms <= MAX_FRAME_MS,
            out@ == residue_after(old(residue)@.take(i as int), dt_ms as int),
        decreases n - i,
    {
        let mut r = residue[i];
        r.timer.tick(dt_ms);
        if !r.timer.ready() {
            out.push(r);
        }
        proof {
            assert(old(residue)@.take(i + 1).drop_last() =~= old(residue)@.take(i as int));
            assert(old(residue)@.take(i + 1).last() == old(residue)@[i as int]);
        }
        i = i + 1;
    }
    proof {
        assert(old(residue)@.take(n as int) =~= old(residue)@);
    }
    *residue = out;
}

/// A cooldown after one tick: consumed if its action fired, otherwise
/// accumulating the frame delta.
pub open spec fn cooldown_after(c: Cooldown, fired: bool, dt: int) -> Cooldown {
    if fired {
        c.spec_consumed()
    } else {
        c.spec_ticked(dt)
    }
}

/// The offset moving a point `step` milli-units along its direction away
/// from `ppos`: each component is rescaled by `step` over the distance,
/// zero when the two points coincide.
pub open spec fn chase_offset(pos: Position, ppos: Position, step: int) -> (int, int) {
    let len = crate::geom::floor_sqrt(dist_sq(pos, ppos));
    if len == 0 {
        (0int, 0int)
    } else {
        (
            crate::geom::scaled_toward(pos.x - ppos.x, step, len),
            crate::geom::scaled_toward(pos.y - ppos.y, step, len),
        )
    }
}

/// An enemy's position after one tick of chasing the player: moved toward
/// `ppos` by its speed over the frame delta, clamped into the arena.
pub open spec fn chase_step(pos: Position, ppos: Position, speed: int, dt: int) -> Position {
    let off = chase_offset(pos, ppos, speed * dt / 1000);
    Position {
        x: clamp_coord(pos.x - off.0) as i64,
        y: clamp_coord(pos.y - off.1) as i64,
    }
}

/// The velocity of a shot fired from `pos` toward `ppos` at `speed`
/// milli-units per second; zero when the two points coincide.
pub open spec fn shot_velocity(pos: Position, ppos: Position, speed: int) -> crate::entity::Velocity {
    let off = chase_offset(pos, ppos, speed);
    crate::entity::Velocity { vx: (-off.0) as i64, vy: (-off.1) as i64 }
}

/// One enemy's tick against the player at `ppos` whose health is `php`:
/// a ready melee timer within reach lands the melee damage and resets;
/// the enemy then chases the player; and a ready ranged timer with ranged
/// capability fires a projectile at the player from the enemy's new
/// position, keyed to the enemy's own id.
pub open spec fn enemy_step(e: Enemy, ppos: Position, php: Health, dt: int)
    -> (Enemy, Health, Option<Projectile>)
{
    let melee = e.state.close_attack_timer.is_ready() && within_distance(e.pos, ppos,
        MELEE_RANGE as int);
    let php2 = if melee {
        health_damaged(php, e.stats.close_attack_damage as int)
    } else {
        php
    };
    let close2 = cooldown_after(e.state.close_attack_timer, melee, dt);
    let pos2 = chase_step(e.pos, ppos, e.stats.movement_speed as int, dt);
    let shoot = e.stats.ranged_attack_damage > 0 && e.state.ranged_attack_timer.is_ready();
    let ranged2 = cooldown_after(e.state.ranged_attack_timer, shoot, dt);
    let proj = if shoot {
        Some(Projectile {
            damage: e.stats.ranged_attack_damage,
            velocity: shot_velocity(e.pos, ppos, e.stats.ranged_attack_speed as int),
            location: pos2,
            radius: crate::geom::BASE_PROJECTILE_RADIUS,
            pierce_left: 1u64,
            last_entity_hit: e.id,
            splash: Option::<crate::entity::SplashStats>::None,
        })
    } else {
        Option::<Projectile>::None
    };
    (
        Enemy {
            pos: pos2,
            state: crate::entity::EnemyState {
                close_attack_timer: close2,
                ranged_attack_timer: ranged2,
            },
            ..e
        },
        php2,
        proj,
    )
}

/// All enemies ticked in order: melee damage accumulates on the player,
/// and the shots fired are collected in order.
pub open spec fn enemy_wave_fold(s: Seq<Enemy>, ppos: Position, php: Health, dt: int)
    -> (Seq<Enemy>, Health, Seq<Projectile>)
    decreases s.len(),
{
    if s.len() == 0 {
        (Seq::<Enemy>::empty(), php, Seq::<Projectile>::empty())
    } else {
        let prev = enemy_wave_fold(s.drop_last(), ppos, php, dt);
        let st = enemy_step(s.last(), ppos, prev.1, dt);
        (
            prev.0.push(st.0),
            st.1,
            match st.2 {
                Some(p) => prev.2.push(p),
                None => prev.2,
            },
        )
    }
}

/// The enemies' own tick never touches their identity, stats or health:
/// only position and timers move.
pub proof fn lemma_enemy_tick_keeps_identity(s: Seq<Enemy>, ppos: Position, php: Health,
    dt: int)
    ensures
        ({
            let out = enemy_wave_fold(s, ppos, php, dt);
            &&& out.0.len() == s.len()
            &&& forall|i: int| 0 <= i < s.len() ==> {
                let e2 = #[trigger] out.0[i];
                &&& e2.id == s[i].id
                &&& e2.stats == s[i].stats
                &&& e2.health == s[i].health
            }
        }),
    decreases s.len(),
{
    if s.len() != 0 {
        lemma_enemy_tick_keeps_identity(s.drop_last(), ppos, php, dt);
    }
}

/// The two components of `chase_offset`, with the step bounded.
fn chase_components(pos: Position, ppos: Position, step: u64) -> (off: (i64, i64))
    requires
        in_world(pos),
        in_world(ppos),
        step <= 0x4000_0000_0000_0000,
    ensures
        off.0 == chase_offset(pos, ppos, step as int).0,
        off.1 == chase_offset(pos, ppos, step as int).1,
        -(step as int) <= off.0 <= step as int,
        -(step as int) <= off.1 <= step as int,
{
    let sq = pos.distance_squared(&ppos);
    let len = crate::geom::isqrt(sq);
    if len == 0 {
        (0, 0)
    } else {
        let dx = pos.x - ppos.x;
        let dy = pos.y - ppos.y;
        proof {
            assert(sq <= 8_000_000_000_000_000_000u64) by (nonlinear_arith)
                requires
                    sq == (pos.x - ppos.x) * (pos.x - ppos.x)
                        + (pos.y - ppos.y) * (pos.y - ppos.y),
                    -1_000_000_000 <= pos.x <= 1_000_000_000,
                    -1_000_000_000 <= pos.y <= 1_000_000_000,
                    -1_000_000_000 <= ppos.x <= 1_000_000_000,
                    -1_000_000_000 <= ppos.y <= 1_000_000_000,
            ;
            assert(len <= 3_000_000_000u64) by (nonlinear_arith)
                requires
                    len * len <= sq,
                    sq <= 8_000_000_000_000_000_000u64,
            ;
            assert(-(len as int) <= dx <= len as int && -(len as int) <= dy <= len as int)
                by (nonlinear_arith)
                requires
                    dx * dx + dy * dy == sq,
                    sq < (len + 1) * (len + 1),
                    0 <= len,
            ;
        }
        (
            crate::geom::scale_component(dx, step, len),
            crate::geom::scale_component(dy, step, len),
        )
    }
}

/// One enemy's tick, applied to the world: the player's health takes any
/// melee damage, and the shot fired, if any, is returned.
fn step_enemy(e: Enemy, ppos: Position, php: &mut Health, dt_ms: u32)
    -> (out: (Enemy, Option<Projectile>))
    requires
        enemy_wf(e),
        in_world(ppos),
        dt_ms <= MAX_FRAME_MS,
    ensures
        ({
            let st = enemy_step(e, ppos, *old(php), dt_ms as int);
            &&& out.0 == st.0
            &&& *final(php) == st.1
            &&& out.1 == st.2
        }),
        enemy_wf(out.0),
        out.1 matches Some(p) ==> projectile_wf(p),
{
    let mut e2 = e;
    let melee = e.state.close_attack_timer.ready() && crate::geom::touches(e.pos, ppos,
        MELEE_RANGE);
    if melee {
        php.damage(e.stats.close_attack_damage);
        e2.state.close_attack_timer.consume();
    } else {
        e2.state.close_attack_timer.tick(dt_ms);
    }

    proof {
        assert(e.stats.movement_speed * dt_ms <= 1_000_000_000_000_000u64) by (nonlinear_arith)
            requires
                0 <= e.stats.movement_speed <= crate::stats::SPEED_CAP,
                0 <= dt_ms <= MAX_FRAME_MS,
        ;
        vstd::arithmetic::div_mod::lemma_div_is_ordered(
            (e.stats.movement_speed * (dt_ms as u64)) as int, 1_000_000_000_000_000int, 1000);
    }
    let step = e.stats.movement_speed * (dt_ms as u64) / 1000;
    let off = chase_components(e.pos, ppos, step);
    e2.pos = Position::new(e.pos.x - off.0, e.pos.y - off.1).clamped();

    let shoot = e.stats.ranged_attack_damage > 0 && e.state.ranged_attack_timer.ready();
    let proj = if shoot {
        let voff = chase_components(e.pos, ppos, e.stats.ranged_attack_speed);
        e2.state.ranged_attack_timer.consume();
        Some(Projectile {
            damage: e.stats.ranged_attack_damage,
            velocity: crate::entity::Velocity { vx: -voff.0, vy: -voff.1 },
            location: e2.pos,
            radius: crate::geom::BASE_PROJECTILE_RADIUS,
            pierce_left: 1,
            last_entity_hit: e.id,
            splash: None,
        })
    } else {
        e2.state.ranged_attack_timer.tick(dt_ms);
        None
    };
    (e2, proj)
}

/// Ticks every enemy in order: melee attacks land on the player, enemies
/// chase, and ranged-capable enemies with an elapsed timer fire at the
/// player; the shots are appended to `spawned`.
pub fn enemy_update_and_attack(
    player: &mut Player,
    enemies: &mut Vec<Enemy>,
    spawned: &mut Vec<Projectile>,
    dt_ms: u32,
)
    requires
        player_wf(*old(player)),
        forall|i: int| 0 <= i < old(enemies)@.len() ==> enemy_wf(#[trigger] old(enemies)@[i]),
        forall|i: int| 0 <= i < old(spawned)@.len()
            ==> projectile_wf(#[trigger] old(spawned)@[i]),
        dt_ms <= MAX_FRAME_MS,
    ensures
        player_wf(*final(player)),
        final(player).pos == old(player).pos,
        final(player).stats == old(player).stats,
        final(player).state == old(player).state,
        ({
            let fold = enemy_wave_fold(old(enemies)@, old(player).pos, old(player).health,
                dt_ms as int);
            &&& final(enemies)@ == fold.0
            &&& final(player).health == fold.1
            &&& final(spawned)@ == old(spawned)@ + fold.2
        }),
        forall|i: int| 0 <= i < final(enemies)@.len() ==> enemy_wf(#[trigger] final(enemies)@[i]),
        forall|i: int| 0 <= i < final(spawned)@.len()
            ==> projectile_wf(#[trigger] final(spawned)@[i]),
{
    let ppos = player.pos;
    let n = enemies.len();
    let mut i: usize = 0;
    while i < n
        invariant
            n == old(enemies)@.len(),
            0 <= i <= n,
            enemies@.len() == n,
            dt_ms <= MAX_FRAME_MS,
            ppos == old(player).pos,
            player.pos == old(player).pos,
            player.stats == old(player).stats,
            player.state == old(player).state,
            player_wf(*player),
            in_world(ppos),
            forall|k: int| 0 <= k < enemies@.len() ==> enemy_wf(#[trigger] enemies@[k]),
            forall|k: int| i <= k < n ==> enemies@[k] == old(enemies)@[k],
            forall|k: int| 0 <= k < spawned@.len() ==> projectile_wf(#[trigger] spawned@[k]),
            ({
                let fold = enemy_wave_fold(old(enemies)@.take(i as int), ppos,
                    old(player).health, dt_ms as int);
                &&& enemies@.take(i as int) == fold.0
                &&& player.health == fold.1
                &&& spawned@ == old(spawned)@ + fold.2
            }),
        decreases n - i,
    {
        let ghost pre_enemies = enemies@;
        let e = enemies[i];
        let (e2, proj) = step_enemy(e, ppos, &mut player.health, dt_ms);
        enemies.set(i, e2);
        if let Some(p) = proj {
            spawned.push(p);
        }
        proof {
            assert(old(enemies)@.take(i + 1).drop_last() =~= old(enemies)@.take(i as int));
            assert(old(enemies)@.take(i + 1).last() == old(enemies)@[i as int]);
            assert(enemies@.take(i + 1) =~= enemies@.take(i as int).push(enemies@[i as int]));
            assert(enemies@.take(i as int) =~= pre_enemies.take(i as int));
        }
        i = i + 1;
    }
    proof {
        assert(old(enemies)@.take(n as int) =~= old(enemies)@);
        assert(enemies@.take(n as int) =~= enemies@);
    }
}

/// Fixed-point sine, in thousandths, of the milliradian angles the burst
/// volley fans out at; zero for angles outside that set.
pub open spec fn sin_milli_abs(m: int) -> int {
    if m == 0 {
        0
    } else if m == 100 {
        100
    } else if m == 120 {
        120
    } else if m == 150 {
        149
    } else if m == 200 {
        199
    } else if m == 240 {
        238
    } else if m == 300 {
        296
    } else if m == 360 {
        352
    } else if m == 480 {
        462
    } else {
        0
    }
}

/// Fixed-point cosine, in thousandths, of the burst fan angles; one for
/// angles outside that set.
pub open spec fn cos_milli_abs(m: int) -> int {
    if m == 100 {
        995
    } else if m == 120 {
        993
    } else if m == 150 {
        989
    } else if m == 200 {
        980
    } else if m == 240 {
        971
    } else if m == 300 {
        955
    } else if m == 360 {
        936
    } else if m == 480 {
        887
    } else {
        1000
    }
}

/// Signed fixed-point sine: odd in the angle.
pub open spec fn sin_milli(m: int) -> int {
    if m >= 0 {
        sin_milli_abs(m)
    } else {
        -sin_milli_abs(-m)
    }
}

/// Signed fixed-point cosine: even in the angle.
pub open spec fn cos_milli(m: int) -> int {
    if m >= 0 {
        cos_milli_abs(m)
    } else {
        cos_milli_abs(-m)
    }
}

/// A velocity rotated by `mrad` milliradians, in the fixed-point table's
/// resolution.
pub open spec fn rotated_velocity(v: crate::entity::Velocity, mrad: int)
    -> crate::entity::Velocity
{
    let c = cos_milli(mrad);
    let s = sin_milli(mrad);
    crate::entity::Velocity {
        vx: tz_div(v.vx * c - v.vy * s, 1000) as i64,
        vy: tz_div(v.vx * s + v.vy * c, 1000) as i64,
    }
}

/// The fixed-point cosine and sine of `mrad`, in thousandths.
fn trig_milli(mrad: i32) -> (cs: (i64, i64))
    requires
        -1_000_000 <= mrad <= 1_000_000,
    ensures
        cs.0 == cos_milli(mrad as int),
        cs.1 == sin_milli(mrad as int),
        0 <= cs.0 <= 1000,
        -500 <= cs.1 <= 500,
{
    let m: i32 = if mrad >= 0 {
        mrad
    } else {
        -mrad
    };
    let c: i64 = if m == 100 {
        995
    } else if m == 120 {
        993
    } else if m == 150 {
        989
    } else if m == 200 {
        980
    } else if m == 240 {
        971
    } else if m == 300 {
        955
    } else if m == 360 {
        936
    } else if m == 480 {
        887
    } else {
        1000
    };
    let s_abs: i64 = if m == 0 {
        0
    } else if m == 100 {
        100
    } else if m == 120 {
        120
    } else if m == 150 {
        149
    } else if m == 200 {
        199
    } else if m == 240 {
        238
    } else if m == 300 {
        296
    } else if m == 360 {
        352
    } else if m == 480 {
        462
    } else {
        0
    };
    let s: i64 = if mrad >= 0 {
        s_abs
    } else {
        -s_abs
    };
    (c, s)
}

/// Rotates a velocity by `mrad` milliradians using the fixed-point table.
fn rotate_velocity(v: crate::entity::Velocity, mrad: i32) -> (r: crate::entity::Velocity)
    requires
        -2_000_000_000 <= v.vx <= 2_000_000_000,
        -2_000_000_000 <= v.vy <= 2_000_000_000,
        -1_000_000 <= mrad <= 1_000_000,
    ensures
        r == rotated_velocity(v, mrad as int),
        crate::entity::velocity_wf(r),
{
    let (c, s) = trig_milli(mrad);
    proof {
        assert(-2_000_000_000_000i64 <= v.vx * c <= 2_000_000_000_000i64
            && -2_000_000_000_000i64 <= v.vy * c <= 2_000_000_000_000i64
            && -1_000_000_000_000i64 <= v.vx * s <= 1_000_000_000_000i64
            && -1_000_000_000_000i64 <= v.vy * s <= 1_000_000_000_000i64)
            by (nonlinear_arith)
            requires
                -2_000_000_000 <= v.vx <= 2_000_000_000,
                -2_000_000_000 <= v.vy <= 2_000_000_000,
                0 <= c <= 1000,
                -500 <= s <= 500,
        ;
        crate::geom::lemma_tz_div_bound((v.vx * c - v.vy * s) as int, 1000,
            3_000_000_000_000int);
        crate::geom::lemma_tz_div_bound((v.vx * s + v.vy * c) as int, 1000,
            3_000_000_000_000int);
    }
    let ax = v.vx * c - v.vy * s;
    let ay = v.vx * s + v.vy * c;
    crate::entity::Velocity {
        vx: crate::geom::tz_div_i64(ax, 1000),
        vy: crate::geom::tz_div_i64(ay, 1000),
    }
}

/// Whether the player's ranged attack fires this tick: the fire button is
/// held, a pointer position is available and not exactly on the player,
/// and the ranged timer has elapsed.
pub open spec fn ranged_attack_fires(p: Player, input: crate::input::InputSnapshot) -> bool {
    &&& input.fire
    &&& input.aim_valid
    &&& p.state.ranged_attack_timer.is_ready()
    &&& !(input.aim_x == 0 && input.aim_y == 0)
}

/// The projectiles one trigger pull spawns, given the aim vector: the
/// normal mode fires one full-pierce shot; the burst mode fires the whole
/// fanned volley of `burst_pattern`; the splash mode fires one wider,
/// non-piercing, splash-tagged shot. All start at the player and are
/// keyed to the player's id.
pub open spec fn ranged_volley(p: Player, aim_x: int, aim_y: int) -> Seq<Projectile> {
    let w = p.state.current_weapon;
    let speed = p.stats.ranged_attack_speed * crate::stats::speed_percent(w) / 100;
    let off = chase_offset(Position { x: aim_x as i64, y: aim_y as i64 },
        Position { x: 0, y: 0 }, speed);
    let vel = crate::entity::Velocity { vx: off.0 as i64, vy: off.1 as i64 };
    let dmg = crate::stats::weapon_damage(w, p.stats.ranged_attack_damage as int) as u64;
    match w {
        crate::stats::PlayerWeapon::Normal => seq![
            Projectile {
                damage: dmg,
                velocity: vel,
                location: p.pos,
                radius: crate::geom::BASE_PROJECTILE_RADIUS,
                pierce_left: p.stats.ranged_attack_pierce,
                last_entity_hit: crate::entity::player_id(),
                splash: Option::<crate::entity::SplashStats>::None,
            },
        ],
        crate::stats::PlayerWeapon::Burst => crate::stats::burst_pattern(
            p.stats.ranged_attack_damage as int,
            p.stats.ranged_attack_pierce as int,
        ).map_values(|b: crate::stats::BurstInfo| Projectile {
            damage: b.damage,
            velocity: rotated_velocity(vel, b.offset_mrad as int),
            location: p.pos,
            radius: (crate::geom::BASE_PROJECTILE_RADIUS / 2) as i64,
            pierce_left: b.pierce,
            last_entity_hit: crate::entity::player_id(),
            splash: Option::<crate::entity::SplashStats>::None,
        }),
        crate::stats::PlayerWeapon::Splash => seq![
            Projectile {
                damage: dmg,
                velocity: vel,
                location: p.pos,
                radius: (crate::geom::BASE_PROJECTILE_RADIUS * 17 / 10) as i64,
                pierce_left: 0u64,
                last_entity_hit: crate::entity::player_id(),
                splash: Some(crate::entity::SplashStats {
                    damage: crate::stats::splash_damage(w,
                        p.stats.ranged_attack_damage as int) as u64,
                    range: 100_000i64,
                }),
            },
        ],
    }
}

/// The player and the projectiles after one ranged-attack tick: when the
/// attack fires, the ranged timer resets and the active weapon mode's
/// volley is appended; otherwise nothing changes.
pub open spec fn ranged_attack_outcome(p: Player, pp: Seq<Projectile>,
    input: crate::input::InputSnapshot) -> (Player, Seq<Projectile>)
{
    if ranged_attack_fires(p, input) {
        (
            Player {
                state: crate::entity::PlayerState {
                    ranged_attack_timer: p.state.ranged_attack_timer.spec_consumed(),
                    ..p.state
                },
                ..p
            },
            pp + ranged_volley(p, input.aim_x as int, input.aim_y as int),
        )
    } else {
        (p, pp)
    }
}

/// The player's ranged attack: if the fire button is held, a pointer is
/// available off the player, and the ranged timer has elapsed, the timer
/// resets and the active weapon mode's volley spawns toward the pointer;
/// otherwise nothing changes — exactly `ranged_attack_outcome`.
pub fn player_ranged_attack(
    player: &mut Player,
    projectiles: &mut Vec<Projectile>,
    input: &crate::input::InputSnapshot,
)
    requires
        player_wf(*old(player)),
        forall|i: int| 0 <= i < old(projectiles)@.len()
            ==> projectile_wf(#[trigger] old(projectiles)@[i]),
        -1_000_000_000 <= input.aim_x <= 1_000_000_000,
        -1_000_000_000 <= input.aim_y <= 1_000_000_000,
    ensures
        player_wf(*final(player)),
        (*final(player), final(projectiles)@) == ranged_attack_outcome(*old(player),
            old(projectiles)@, *input),
        final(player).pos == old(player).pos,
        final(player).health == old(player).health,
        final(player).stats == old(player).stats,
        final(player).state.close_attack_timer == old(player).state.close_attack_timer,
        final(player).state.current_weapon == old(player).state.current_weapon,
        final(player).state.boost_time_left_ms == old(player).state.boost_time_left_ms,
        !ranged_attack_fires(*old(player), *input) ==> *final(player) == *old(player)
            && final(projectiles)@ == old(projectiles)@,
        ranged_attack_fires(*old(player), *input) ==> {
            &&& final(player).state.ranged_attack_timer
                == old(player).state.ranged_attack_timer.spec_consumed()
            &&& final(projectiles)@ == old(projectiles)@ + ranged_volley(*old(player),
                input.aim_x as int, input.aim_y as int)
        },
        forall|i: int| 0 <= i < final(projectiles)@.len()
            ==> projectile_wf(#[trigger] final(projectiles)@[i]),
{
    if !(input.fire && input.aim_valid) {
        return;
    }
    if !player.state.ranged_attack_timer.ready() {
        return;
    }
    if input.aim_x == 0 && input.aim_y == 0 {
        return;
    }
    player.state.ranged_attack_timer.consume();

    let weapon = player.state.current_weapon;
    let percent = weapon.speed_multiplier();
    proof {
        assert(percent <= 200);
        assert(player.stats.ranged_attack_speed * (percent as u64) <= 200_000_000_000u64)
            by (nonlinear_arith)
            requires
                0 <= player.stats.ranged_attack_speed <= crate::stats::SPEED_CAP,
                0 <= percent <= 200,
        ;
        vstd::arithmetic::div_mod::lemma_div_is_ordered(
            (player.stats.ranged_attack_speed * (percent as u64)) as int,
            200_000_000_000int, 100);
    }
    let speed = player.stats.ranged_attack_speed * (percent as u64) / 100;
    let voff = chase_components(Position::new(input.aim_x, input.aim_y), Position::origin(),
        speed);
    let vel = crate::entity::Velocity { vx: voff.0, vy: voff.1 };
    let dmg = weapon.adjusted_damage(player.stats.ranged_attack_damage);
    let pid = crate::entity::player_entity_id();
    let ghost full_volley = ranged_volley(*old(player), input.aim_x as int, input.aim_y as int);

    match weapon {
        crate::stats::PlayerWeapon::Normal => {
            projectiles.push(Projectile {
                damage: dmg,
                velocity: vel,
                location: player.pos,
                radius: crate::geom::BASE_PROJECTILE_RADIUS,
                pierce_left: player.stats.ranged_attack_pierce,
                last_entity_hit: pid,
                splash: None,
            });
            proof {
                assert(projectiles@ =~= old(projectiles)@ + full_volley);
            }
        },
        crate::stats::PlayerWeapon::Burst => {
            let bursts = crate::stats::distribute_burst(player.stats.ranged_attack_damage,
                player.stats.ranged_attack_pierce);
            let ghost volley = ranged_volley(*old(player), input.aim_x as int,
                input.aim_y as int);
            let ghost pattern = crate::stats::burst_pattern(
                player.stats.ranged_attack_damage as int,
                player.stats.ranged_attack_pierce as int);
            let m = bursts.len();
            proof {
                assert(projectiles@ =~= old(projectiles)@ + volley.take(0));
            }
            let mut j: usize = 0;
            while j < m
                invariant
                    0 <= j <= m,
                    m == bursts@.len(),
                    bursts@ == pattern,
                    m == volley.len(),
                    in_world(player.pos),
                    pid == crate::entity::player_id(),
                    -2_000_000_000 <= vel.vx <= 2_000_000_000,
                    -2_000_000_000 <= vel.vy <= 2_000_000_000,
                    forall|k: int| 0 <= k < m
                        ==> -480 <= (#[trigger] pattern[k]).offset_mrad <= 480,
                    forall|k: int| 0 <= k < m ==> #[trigger] volley[k] == (Projectile {
                        damage: pattern[k].damage,
                        velocity: rotated_velocity(vel, pattern[k].offset_mrad as int),
                        location: player.pos,
                        radius: (crate::geom::BASE_PROJECTILE_RADIUS / 2) as i64,
                        pierce_left: pattern[k].pierce,
                        last_entity_hit: crate::entity::player_id(),
                        splash: Option::<crate::entity::SplashStats>::None,
                    }),
                    projectiles@ == old(projectiles)@ + volley.take(j as int),
                    forall|i: int| 0 <= i < projectiles@.len()
                        ==> projectile_wf(#[trigger] projectiles@[i]),
                decreases m - j,
            {
                let ghost pre_projectiles = projectiles@;
                let b = bursts[j];
                let rv = rotate_velocity(vel, b.offset_mrad);
                let shot = Projectile {
                    damage: b.damage,
                    velocity: rv,
                    location: player.pos,
                    radius: crate::geom::BASE_PROJECTILE_RADIUS / 2,
                    pierce_left: b.pierce,
                    last_entity_hit: pid,
                    splash: None,
                };
                projectiles.push(shot);
                proof {
                    assert(volley.take(j + 1) =~= volley.take(j as int).push(volley[j as int]));
                    assert(shot == volley[j as int]);
                    assert(projectiles@ =~= pre_projectiles.push(volley[j as int]));
                    assert(old(projectiles)@ + volley.take(j + 1) =~= (old(projectiles)@
                        + volley.take(j as int)).push(volley[j as int]));
                }
                j = j + 1;
            }
            proof {
                assert(volley.take(m as int) =~= volley);
            }
        },
        crate::stats::PlayerWeapon::Splash => {
            let splash_dmg = weapon.adjusted_splash_damage(player.stats.ranged_attack_damage);
            projectiles.push(Projectile {
                damage: dmg,
                velocity: vel,
                location: player.pos,
                radius: crate::geom::BASE_PROJECTILE_RADIUS * 17 / 10,
                pierce_left: 0,
                last_entity_hit: pid,
                splash: Some(crate::entity::SplashStats { damage: splash_dmg, range: 100_000 }),
            });
            proof {
                assert(projectiles@ =~= old(projectiles)@ + full_volley);
            }
        },
    }
}

/// Enemies whose health reached zero are removed, the rest keep their
/// order.
pub fn remove_dead_enemies(enemies: &mut Vec<Enemy>)
    requires
        forall|i: int| 0 <= i < old(enemies)@.len() ==> enemy_wf(#[trigger] old(enemies)@[i]),
    ensures
        final(enemies)@ == old(enemies)@.filter(|e: Enemy| e.health.current_hp != 0),
        forall|i: int| 0 <= i < final(enemies)@.len() ==> enemy_wf(#[trigger] final(enemies)@[i]),
        forall|i: int| 0 <= i < final(enemies)@.len()
            ==> (#[trigger] final(enemies)@[i]).health.current_hp != 0,
{
    let n = enemies.len();
    let mut out: Vec<Enemy> = Vec::new();
    let mut i: usize = 0;
    proof {
        reveal(Seq::filter);
    }
    while i < n
        invariant
            n == old(enemies)@.len(),
            0 <= i <= n,
            enemies@ == old(enemies)@,
            forall|k: int| 0 <= k < n ==> enemy_wf(#[trigger] enemies@[k]),
            out@ == old(enemies)@.take(i as int).filter(|e: Enemy| e.health.current_hp != 0),
            forall|k: int| 0 <= k < out@.len() ==> enemy_wf(#[trigger] out@[k]),
            forall|k: int| 0 <= k < out@.len()
                ==> (#[trigger] out@[k]).health.current_hp != 0,
        decreases n - i,
    {
        let e = enemies[i];
        proof {
            reveal(Seq::filter);
            assert(old(enemies)@.take(i + 1).drop_last() =~= old(enemies)@.take(i as int));
            assert(old(enemies)@.take(i + 1).last() == old(enemies)@[i as int]);
        }
        if e.health.current_health() != 0 {
            out.push(e);
        }
        i = i + 1;
    }
    proof {
        assert(old(enemies)@.take(n as int) =~= old(enemies)@);
    }
    *enemies = out;
}

} // verus!
