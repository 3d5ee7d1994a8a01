//! The records the simulation owns: player, enemies, projectiles, splash
//! pulses and power-ups.
//!
//! Each spawned combatant gets an `EntityId` from a counter that never
//! repeats a value, so identity stays valid for the record's whole lifetime
//! and is safely invalidated on despawn — a despawned id simply never
//! matches again. Projectiles use that to avoid hitting the same entity on
//! two consecutive collisions while still piercing through different
//! targets.

use vstd::prelude::*;
use crate::geom::Position;
use crate::geom::in_world;
use crate::health::Health;
use crate::rng::Rng;
use crate::rng::xorshift_step;
use crate::stats::PlayerStats;
use crate::stats::PlayerWeapon;
use crate::stats::SPEED_CAP;
use crate::stats::stats_wf;
use crate::timer::Cooldown;

verus! {

/// Largest magnitude a velocity component may take, in milli-units per
/// second: the speed cap stretched by the largest weapon-mode factor.
pub const VELOCITY_CAP: i64 = 3_000_000_000;

/// Largest body radius a record may carry, in milli-units.
pub const RADIUS_CAP: i64 = 1_000_000;

/// A stable handle to a spawned entity; the simulation never hands out the
/// same id twice.
#[derive(Clone, Copy, Debug, PartialEq, Eq, Structural)]
pub struct EntityId {
    pub raw: u64,
}

/// The id the player's own projectiles are keyed to; enemy ids start
/// above it, so a fresh projectile's last-hit entry matches no enemy.
pub open spec fn player_id() -> EntityId {
    EntityId { raw: 0 }
}

/// The player's entity id.
pub fn player_entity_id() -> (id: EntityId)
    ensures
        id == player_id(),
{
    EntityId { raw: 0 }
}

/// A velocity of the plane, in milli-units per second.
#[derive(Clone, Copy, Debug, PartialEq, Eq, Structural)]
pub struct Velocity {
    pub vx: i64,
    pub vy: i64,
}

/// Whether both velocity components are within the cap.
pub open spec fn velocity_wf(v: Velocity) -> bool {
    &&& -VELOCITY_CAP <= v.vx <= VELOCITY_CAP
    &&& -VELOCITY_CAP <= v.vy <= VELOCITY_CAP
}

/// The splash pulse a projectile leaves on impact.
#[derive(Clone, Copy, Debug, PartialEq, Eq, Structural)]
pub struct SplashStats {
    pub damage: u64,
    /// Pulse radius, in milli-units.
    pub range: i64,
}

/// A projectile in flight.
#[derive(Clone, Copy, Debug, PartialEq, Eq, Structural)]
pub struct Projectile {
    pub damage: u64,
    pub velocity: Velocity,
    pub location: Position,
    /// Body radius, in milli-units.
    pub radius: i64,
    /// How many more entities it may damage after the next hit.
    pub pierce_left: u64,
    /// The entity struck on the immediately preceding collision; never hit
    /// twice in a row.
    pub last_entity_hit: EntityId,
    /// Splash pulse left on impact, for splash-tagged projectiles.
    pub splash: Option<SplashStats>,
}

/// Whether a projectile's numbers are within the simulation's ranges.
pub open spec fn projectile_wf(p: Projectile) -> bool {
    &&& in_world(p.location)
    &&& velocity_wf(p.velocity)
    &&& 0 <= p.radius <= RADIUS_CAP
    &&& (p.splash matches Some(s) ==> 0 <= s.range <= RADIUS_CAP)
}

/// A splash pulse waiting to damage everything in its radius, left at the
/// point of impact.
#[derive(Clone, Copy, Debug, PartialEq, Eq, Structural)]
pub struct SplashProjectileResidual {
    pub damage: u64,
    /// Pulse radius, in milli-units.
    pub radius: i64,
    pub pos: Position,
}

/// The fading mark a spent splash pulse leaves behind until its timer runs
/// out.
#[derive(Clone, Copy, Debug, PartialEq, Eq, Structural)]
pub struct SplashResidue {
    pub timer: Cooldown,
    pub pos: Position,
}

/// An enemy's combat parameters, fixed at spawn from the wave number.
#[derive(Clone, Copy, Debug, PartialEq, Eq, Structural)]
pub struct EnemyStats {
    pub close_attack_damage: u64,
    /// Melee cooldown, in milliseconds.
    pub close_attack_cooldown_ms: u32,
    /// Zero for enemies without ranged capability.
    pub ranged_attack_damage: u64,
    /// Ranged cooldown, in milliseconds.
    pub ranged_attack_cooldown_ms: u32,
    /// Projectile speed, in milli-units per second.
    pub ranged_attack_speed: u64,
    /// Movement speed, in milli-units per second.
    pub movement_speed: u64,
}

impl EnemyStats {
    pub fn new(
        close_attack_damage: u64,
        close_attack_cooldown_ms: u32,
        ranged_attack_damage: u64,
        ranged_attack_cooldown_ms: u32,
        ranged_attack_speed: u64,
        movement_speed: u64,
    ) -> (s: EnemyStats)
        ensures
            s == (EnemyStats {
                close_attack_damage,
                close_attack_cooldown_ms,
                ranged_attack_damage,
                ranged_attack_cooldown_ms,
                ranged_attack_speed,
                movement_speed,
            }),
    {
        EnemyStats {
            close_attack_damage,
            close_attack_cooldown_ms,
            ranged_attack_damage,
            ranged_attack_cooldown_ms,
            ranged_attack_speed,
            movement_speed,
        }
    }
}

/// An enemy's per-entity cooldown progress.
#[derive(Clone, Copy, Debug, PartialEq, Eq, Structural)]
pub struct EnemyState {
    pub close_attack_timer: Cooldown,
    pub ranged_attack_timer: Cooldown,
}

impl EnemyState {
    /// Fresh timers over the stat block's cooldowns.
    pub fn from_enemy_stats(enemy_stats: EnemyStats) -> (s: EnemyState)
        ensures
            s.close_attack_timer == (Cooldown {
                period_ms: enemy_stats.close_attack_cooldown_ms,
                elapsed_ms: 0,
            }),
            s.ranged_attack_timer == (Cooldown {
                period_ms: enemy_stats.ranged_attack_cooldown_ms,
                elapsed_ms: 0,
            }),
    {
        EnemyState {
            close_attack_timer: Cooldown::new(enemy_stats.close_attack_cooldown_ms),
            ranged_attack_timer: Cooldown::new(enemy_stats.ranged_attack_cooldown_ms),
        }
    }

    /// The state after both attack timers are pre-seeded from two
    /// successive draws of the generator in state `state`: each timer's
    /// elapsed time becomes its draw reduced strictly below the period
    /// (a zero-period timer stays at zero), so a freshly spawned wave
    /// does not attack in lockstep.
    pub open spec fn randomized(self, state: u64) -> EnemyState {
        let d1 = xorshift_step(state);
        let d2 = xorshift_step(d1);
        let cp = self.close_attack_timer.period_ms;
        let rp = self.ranged_attack_timer.period_ms;
        EnemyState {
            close_attack_timer: Cooldown {
                period_ms: cp,
                elapsed_ms: if cp == 0 {
                    0u32
                } else {
                    (d1 % (cp as u64)) as u32
                },
            },
            ranged_attack_timer: Cooldown {
                period_ms: rp,
                elapsed_ms: if rp == 0 {
                    0u32
                } else {
                    (d2 % (rp as u64)) as u32
                },
            },
        }
    }

    /// Moves both attack timers to a pseudo-random point strictly inside
    /// their periods, as `randomized` describes, consuming two draws.
    pub fn randomize_ranged_timer(&mut self, rng: &mut Rng)
        ensures
            *final(self) == old(self).randomized(old(rng).state),
            final(rng).state == xorshift_step(xorshift_step(old(rng).state)),
            final(self).close_attack_timer.period_ms
                == old(self).close_attack_timer.period_ms,
            final(self).ranged_attack_timer.period_ms
                == old(self).ranged_attack_timer.period_ms,
            old(self).close_attack_timer.period_ms > 0
                ==> final(self).close_attack_timer.elapsed_ms
                    < final(self).close_attack_timer.period_ms,
            old(self).ranged_attack_timer.period_ms > 0
                ==> final(self).ranged_attack_timer.elapsed_ms
                    < final(self).ranged_attack_timer.period_ms,
            final(self).close_attack_timer.wf(),
            final(self).ranged_attack_timer.wf(),
    {
        let close_period = self.close_attack_timer.period_ms;
        let d1 = rng.next_u64();
        let close_elapsed = if close_period == 0 {
            0
        } else {
            (d1 % (close_period as u64)) as u32
        };
        self.close_attack_timer = Cooldown::with_elapsed(close_period, close_elapsed);
        let ranged_period = self.ranged_attack_timer.period_ms;
        let d2 = rng.next_u64();
        let ranged_elapsed = if ranged_period == 0 {
            0
        } else {
            (d2 % (ranged_period as u64)) as u32
        };
        self.ranged_attack_timer = Cooldown::with_elapsed(ranged_period, ranged_elapsed);
    }

    /// `randomize_ranged_timer` in builder form.
    pub fn with_random_ranged_timer(self, rng: &mut Rng) -> (s: EnemyState)
        ensures
            s == self.randomized(old(rng).state),
            final(rng).state == xorshift_step(xorshift_step(old(rng).state)),
            s.close_attack_timer.period_ms == self.close_attack_timer.period_ms,
            s.ranged_attack_timer.period_ms == self.ranged_attack_timer.period_ms,
            s.close_attack_timer.wf(),
            s.ranged_attack_timer.wf(),
    {
        let mut out = self;
        out.randomize_ranged_timer(rng);
        out
    }
}

/// One live enemy.
#[derive(Clone, Copy, Debug, PartialEq, Eq, Structural)]
pub struct Enemy {
    pub id: EntityId,
    pub pos: Position,
    pub health: Health,
    pub stats: EnemyStats,
    pub state: EnemyState,
}

/// Whether an enemy's numbers are within the simulation's ranges.
pub open spec fn enemy_wf(e: Enemy) -> bool {
    &&& in_world(e.pos)
    &&& e.health.current_hp <= e.health.max_hp
    &&& e.state.close_attack_timer.wf()
    &&& e.state.ranged_attack_timer.wf()
    &&& e.stats.movement_speed <= SPEED_CAP
    &&& e.stats.ranged_attack_speed <= SPEED_CAP
}

/// The player's per-entity state: cooldown progress, the active weapon
/// mode and the remaining speed-boost window.
#[derive(Clone, Copy, Debug, PartialEq, Eq, Structural)]
pub struct PlayerState {
    pub close_attack_timer: Cooldown,
    pub ranged_attack_timer: Cooldown,
    pub current_weapon: PlayerWeapon,
    /// Remaining time of the temporary movement-speed boost, in
    /// milliseconds.
    pub boost_time_left_ms: u32,
}

impl PlayerState {
    /// Fresh timers over the stat block's cooldowns, the default weapon,
    /// no boost.
    pub fn from_player_stats(player_stats: PlayerStats) -> (s: PlayerState)
        ensures
            s == (PlayerState {
                close_attack_timer: Cooldown {
                    period_ms: player_stats.close_attack_cooldown_ms,
                    elapsed_ms: 0,
                },
                ranged_attack_timer: Cooldown {
                    period_ms: player_stats.ranged_attack_cooldown_ms,
                    elapsed_ms: 0,
                },
                current_weapon: PlayerWeapon::Normal,
                boost_time_left_ms: 0,
            }),
    {
        PlayerState {
            close_attack_timer: Cooldown::new(player_stats.close_attack_cooldown_ms),
            ranged_attack_timer: Cooldown::new(player_stats.ranged_attack_cooldown_ms),
            current_weapon: PlayerWeapon::Normal,
            boost_time_left_ms: 0,
        }
    }
}

/// The player record.
#[derive(Clone, Copy, Debug, PartialEq, Eq, Structural)]
pub struct Player {
    pub pos: Position,
    pub health: Health,
    pub stats: PlayerStats,
    pub state: PlayerState,
}

/// Whether the player's numbers are within the simulation's ranges.
pub open spec fn player_wf(p: Player) -> bool {
    &&& in_world(p.pos)
    &&& p.health.current_hp <= p.health.max_hp
    &&& p.state.close_attack_timer.wf()
    &&& p.state.ranged_attack_timer.wf()
    &&& stats_wf(p.stats)
}

/// The player a run starts with: at the origin, 100/100 health, default
/// stats, fresh timers, the default weapon and no boost.
pub open spec fn initial_player() -> Player {
    Player {
        pos: Position { x: 0, y: 0 },
        health: Health { max_hp: 100, current_hp: 100 },
        stats: crate::stats::default_player_stats(),
        state: PlayerState {
            close_attack_timer: Cooldown { period_ms: 1000, elapsed_ms: 0 },
            ranged_attack_timer: Cooldown { period_ms: 150, elapsed_ms: 0 },
            current_weapon: PlayerWeapon::Normal,
            boost_time_left_ms: 0,
        },
    }
}

impl Player {
    /// The player a run starts with: at the origin, 100/100 health,
    /// default stats.
    pub fn spawn() -> (p: Player)
        ensures
            p == initial_player(),
            player_wf(p),
    {
        let stats = PlayerStats::default();
        Player {
            pos: Position::origin(),
            health: Health::new(100),
            stats,
            state: PlayerState::from_player_stats(stats),
        }
    }
}

/// The kinds of power-up.
#[derive(Clone, Copy, Debug, PartialEq, Eq, Structural)]
pub enum PowerUpType {
    Heal,
    Boost,
}

impl PowerUpType {
    /// A pseudo-random kind: an even draw gives a heal, an odd one a boost.
    pub fn random(rng: &mut Rng) -> (k: PowerUpType)
        ensures
            final(rng).state == xorshift_step(old(rng).state),
            k == (if xorshift_step(old(rng).state) % 2 == 0 {
                PowerUpType::Heal
            } else {
                PowerUpType::Boost
            }),
    {
        if rng.below(2) == 0 {
            PowerUpType::Heal
        } else {
            PowerUpType::Boost
        }
    }
}

/// One power-up on the ground, waiting to be collected.
#[derive(Clone, Copy, Debug, PartialEq, Eq, Structural)]
pub struct PowerUp {
    pub kind: PowerUpType,
    /// Age, in milliseconds; drives the pulsing collection radius.
    pub time_since_created_ms: u32,
    pub pos: Position,
}

} // verus!
