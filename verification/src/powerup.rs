//! The power-up system: timed spawning, the pulsing collection radius, and
//! collection on player proximity.
//!
//! A repeating timer drops one power-up at a pseudo-random point of an
//! annulus around the player. Each power-up's collection radius pulses
//! with its age — a bounded oscillation between 12 and 18 units, used only
//! for collision sizing. A power-up whose pulse radius plus the player's
//! radius exceeds the distance to the player is collected and destroyed:
//! a heal restores a fifth of the player's maximum health (capped at the
//! maximum), a boost extends the temporary movement-speed window.

use vstd::prelude::*;
use crate::entity::Player;
use crate::entity::PowerUp;
use crate::entity::PowerUpType;
use crate::entity::player_wf;
use crate::geom::PLAYER_RADIUS;
use crate::geom::Position;
use crate::geom::in_world;
use crate::geom::strictly_within_distance;
use crate::health::Health;
use crate::health::healed_current;
use crate::rng::Rng;
use crate::rng::xorshift_step;
use crate::timer::Cooldown;

verus! {

/// How often a power-up spawns, in milliseconds.
pub const POWER_UP_SPAWN_PERIOD_MS: u32 = 4000;

/// Inner radius of the power-up spawn annulus, in milli-units.
pub const POWER_UP_DIST_MIN: u64 = 300_000;

/// Outer radius of the power-up spawn annulus, in milli-units.
pub const POWER_UP_DIST_MAX: u64 = 800_000;

/// How much a boost power-up extends the speed window, in milliseconds.
pub const BOOST_EXTENSION_MS: u32 = 3000;

/// Period of the pulsing collection radius, in milliseconds.
pub const PULSE_PERIOD_MS: u32 = 1256;

/// A triangle wave of the power-up's age, in thousandths: a fixed-point
/// stand-in for the sine the pulse follows, swinging between minus one and
/// one once per period.
pub open spec fn pulse_wave_milli(t: int) -> int {
    let p = t % (PULSE_PERIOD_MS as int);
    if p < 314 {
        p * 1000 / 314
    } else if p < 942 {
        1000 - (p - 314) * 1000 / 314
    } else {
        -1000 + (p - 942) * 1000 / 314
    }
}

/// The pulsing collection radius at age `t`, in milli-units: fifteen units
/// plus three units of oscillation.
pub open spec fn spec_power_up_radius(t: int) -> int {
    15_000 + 3 * pulse_wave_milli(t)
}

/// The pulsing collection radius at age `time_since_created_ms`: a bounded
/// oscillation between 12 and 18 units.
pub fn power_up_radius(time_since_created_ms: u32) -> (r: i64)
    ensures
        r == spec_power_up_radius(time_since_created_ms as int),
        12_000 <= r <= 18_000,
{
    let p = time_since_created_ms % PULSE_PERIOD_MS;
    let wave: i64 = if p < 314 {
        ((p * 1000) / 314) as i64
    } else if p < 942 {
        1000 - (((p - 314) * 1000) / 314) as i64
    } else {
        -1000 + (((p - 942) * 1000) / 314) as i64
    };
    15_000 + 3 * wave
}

/// Whether a power-up's numbers are within the simulation's ranges.
pub open spec fn power_up_wf(p: PowerUp) -> bool {
    in_world(p.pos)
}

/// The power-up one completed spawn period drops, for a generator in
/// state `state`: three draws place it on the annulus around the player,
/// a fourth picks the kind — an even draw heals, an odd one boosts.
pub open spec fn spawned_power_up(ppos: Position, state: u64) -> PowerUp {
    let s4 = xorshift_step(xorshift_step(xorshift_step(xorshift_step(state))));
    PowerUp {
        kind: if s4 % 2 == 0 {
            PowerUpType::Heal
        } else {
            PowerUpType::Boost
        },
        time_since_created_ms: 0,
        pos: crate::wave::spec_annulus_point(ppos, POWER_UP_DIST_MIN as int,
            POWER_UP_DIST_MAX as int, state),
    }
}

/// Spawns one power-up of a pseudo-random kind at a pseudo-random point of
/// the annulus around the player whenever the spawn timer completes a
/// period: the spawned value is exactly `spawned_power_up` of the
/// generator's state, landing within the outer radius of the player on
/// each axis and — when the player is far enough from every arena edge —
/// at least the inner margin of the annulus away.
pub fn create_power_ups(
    spawn_timer: &mut Cooldown,
    power_ups: &mut Vec<PowerUp>,
    player_pos: Position,
    rng: &mut Rng,
    dt_ms: u32,
)
    requires
        in_world(player_pos),
        forall|i: int| 0 <= i < old(power_ups)@.len()
            ==> power_up_wf(#[trigger] old(power_ups)@[i]),
    ensures
        final(spawn_timer).period_ms == old(spawn_timer).period_ms,
        ({
            let fired = old(spawn_timer).elapsed_ms + dt_ms >= old(spawn_timer).period_ms;
            &&& final(spawn_timer).elapsed_ms == if fired {
                0int
            } else {
                old(spawn_timer).elapsed_ms + dt_ms
            }
            &&& !fired ==> final(power_ups)@ == old(power_ups)@ && *final(rng) == *old(rng)
            &&& fired ==> final(power_ups)@ == old(power_ups)@.push(spawned_power_up(
                player_pos, old(rng).state))
                && final(rng).state == xorshift_step(xorshift_step(xorshift_step(
                    xorshift_step(old(rng).state))))
                && final(power_ups)@.last().time_since_created_ms == 0
                && in_world(final(power_ups)@.last().pos)
                && -(POWER_UP_DIST_MAX as int) <= final(power_ups)@.last().pos.x - player_pos.x
                    <= POWER_UP_DIST_MAX as int
                && -(POWER_UP_DIST_MAX as int) <= final(power_ups)@.last().pos.y - player_pos.y
                    <= POWER_UP_DIST_MAX as int
                && crate::geom::dist_sq(final(power_ups)@.last().pos, player_pos)
                    <= POWER_UP_DIST_MAX * POWER_UP_DIST_MAX
                && ((player_pos.x + POWER_UP_DIST_MAX <= crate::geom::WORLD_BOUND
                    && -crate::geom::WORLD_BOUND <= player_pos.x - POWER_UP_DIST_MAX
                    && player_pos.y + POWER_UP_DIST_MAX <= crate::geom::WORLD_BOUND
                    && -crate::geom::WORLD_BOUND <= player_pos.y - POWER_UP_DIST_MAX)
                    ==> crate::geom::dist_sq(final(power_ups)@.last().pos, player_pos)
                        >= crate::wave::annulus_inner_margin(POWER_UP_DIST_MIN as int)
                            * crate::wave::annulus_inner_margin(POWER_UP_DIST_MIN as int))
        }),
        forall|i: int| 0 <= i < final(power_ups)@.len()
            ==> power_up_wf(#[trigger] final(power_ups)@[i]),
{
    if !spawn_timer.try_consume(dt_ms) {
        return;
    }
    let pos = crate::wave::annulus_point(player_pos, POWER_UP_DIST_MIN, POWER_UP_DIST_MAX, rng);
    let kind = PowerUpType::random(rng);
    let ghost pre = power_ups@;
    power_ups.push(PowerUp { kind, time_since_created_ms: 0, pos });
    proof {
        assert(power_ups@.drop_last() =~= pre);
    }
}

/// A power-up aged by the frame delta, saturating at the type's maximum.
pub open spec fn power_up_aged(p: PowerUp, dt: int) -> PowerUp {
    PowerUp {
        time_since_created_ms: if p.time_since_created_ms + dt <= u32::MAX {
            (p.time_since_created_ms + dt) as u32
        } else {
            u32::MAX
        },
        ..p
    }
}

/// Ages every power-up by the frame delta, driving the pulse along.
pub fn update_power_ups(power_ups: &mut Vec<PowerUp>, dt_ms: u32)
    ensures
        final(power_ups)@ == old(power_ups)@.map_values(
            |p: PowerUp| power_up_aged(p, dt_ms as int)),
{
    let n = power_ups.len();
    let mut i: usize = 0;
    while i < n
        invariant
            n == power_ups@.len(),
            0 <= i <= n,
            forall|k: int| i <= k < n ==> power_ups@[k] == old(power_ups)@[k],
            forall|k: int| 0 <= k < i
                ==> power_ups@[k] == power_up_aged(#[trigger] old(power_ups)@[k], dt_ms as int),
        decreases n - i,
    {
        let mut p = power_ups[i];
        if p.time_since_created_ms <= u32::MAX - dt_ms {
            p.time_since_created_ms = p.time_since_created_ms + dt_ms;
        } else {
            p.time_since_created_ms = u32::MAX;
        }
        power_ups.set(i, p);
        i = i + 1;
    }
    proof {
        assert(power_ups@ =~= old(power_ups)@.map_values(
            |p: PowerUp| power_up_aged(p, dt_ms as int)));
    }
}

/// Whether the player at `ppos` collects this power-up: its pulse radius
/// plus the player's radius exceeds the distance between them.
pub open spec fn power_up_collected(pu: PowerUp, ppos: Position) -> bool {
    strictly_within_distance(pu.pos, ppos,
        PLAYER_RADIUS + spec_power_up_radius(pu.time_since_created_ms as int))
}

/// The power-ups swept in order against the player: collected ones are
/// destroyed, each heal restoring a fifth of the maximum health (capped)
/// and each boost extending the speed window; the rest stay in order. The
/// result is the remaining power-ups, the player's health and the boost
/// window, in milliseconds.
pub open spec fn collect_fold(s: Seq<PowerUp>, ppos: Position, h: Health, boost: int)
    -> (Seq<PowerUp>, Health, int)
    decreases s.len(),
{
    if s.len() == 0 {
        (Seq::<PowerUp>::empty(), h, boost)
    } else {
        let prev = collect_fold(s.drop_last(), ppos, h, boost);
        let pu = s.last();
        if power_up_collected(pu, ppos) {
            match pu.kind {
                PowerUpType::Heal => (
                    prev.0,
                    Health {
                        max_hp: prev.1.max_hp,
                        current_hp: healed_current(prev.1.max_hp as int,
                            prev.1.current_hp as int, prev.1.max_hp as int / 5) as u64,
                    },
                    prev.2,
                ),
                PowerUpType::Boost => (
                    prev.0,
                    prev.1,
                    if prev.2 + BOOST_EXTENSION_MS <= u32::MAX {
                        prev.2 + BOOST_EXTENSION_MS
                    } else {
                        u32::MAX as int
                    },
                ),
            }
        } else {
            (prev.0.push(pu), prev.1, prev.2)
        }
    }
}

/// The player and the remaining power-ups after one collection sweep:
/// `collect_fold` applied to the player's health and boost window.
pub open spec fn collect_outcome(p: Player, pus: Seq<PowerUp>) -> (Player, Seq<PowerUp>) {
    let out = collect_fold(pus, p.pos, p.health, p.state.boost_time_left_ms as int);
    (
        Player {
            health: out.1,
            state: crate::entity::PlayerState {
                boost_time_left_ms: out.2 as u32,
                ..p.state
            },
            ..p
        },
        out.0,
    )
}

/// Collects every power-up within reach of the player, as `collect_fold`
/// describes: heals restore a fifth of the maximum health, boosts extend
/// the speed window, and collected power-ups are destroyed immediately —
/// exactly `collect_outcome`.
pub fn collect_power_ups(player: &mut Player, power_ups: &mut Vec<PowerUp>)
    requires
        player_wf(*old(player)),
        forall|i: int| 0 <= i < old(power_ups)@.len()
            ==> power_up_wf(#[trigger] old(power_ups)@[i]),
    ensures
        player_wf(*final(player)),
        (*final(player), final(power_ups)@) == collect_outcome(*old(player), old(power_ups)@),
        final(player).pos == old(player).pos,
        final(player).stats == old(player).stats,
        final(player).state.close_attack_timer == old(player).state.close_attack_timer,
        final(player).state.ranged_attack_timer == old(player).state.ranged_attack_timer,
        final(player).state.current_weapon == old(player).state.current_weapon,
        ({
            let out = collect_fold(old(power_ups)@, old(player).pos, old(player).health,
                old(player).state.boost_time_left_ms as int);
            &&& final(power_ups)@ == out.0
            &&& final(player).health == out.1
            &&& final(player).state.boost_time_left_ms == out.2
        }),
        forall|i: int| 0 <= i < final(power_ups)@.len()
            ==> power_up_wf(#[trigger] final(power_ups)@[i]),
{
    let ppos = player.pos;
    let n = power_ups.len();
    let mut kept: Vec<PowerUp> = Vec::new();
    let mut i: usize = 0;
    while i < n
        invariant
            n == old(power_ups)@.len(),
            0 <= i <= n,
            power_ups@ == old(power_ups)@,
            forall|k: int| 0 <= k < n ==> power_up_wf(#[trigger] power_ups@[k]),
            forall|k: int| 0 <= k < kept@.len() ==> power_up_wf(#[trigger] kept@[k]),
            ppos == old(player).pos,
            player.pos == old(player).pos,
            player.stats == old(player).stats,
            player.state.close_attack_timer == old(player).state.close_attack_timer,
            player.state.ranged_attack_timer == old(player).state.ranged_attack_timer,
            player.state.current_weapon == old(player).state.current_weapon,
            player_wf(*player),
            ({
                let out = collect_fold(old(power_ups)@.take(i as int), ppos,
                    old(player).health, old(player).state.boost_time_left_ms as int);
                &&& kept@ == out.0
                &&& player.health == out.1
                &&& player.state.boost_time_left_ms == out.2
            }),
        decreases n - i,
    {
        let pu = power_ups[i];
        let radius = power_up_radius(pu.time_since_created_ms);
        if crate::geom::touches_strictly(pu.pos, ppos, PLAYER_RADIUS + radius) {
            match pu.kind {
                PowerUpType::Heal => {
                    let fifth = player.health.max_health() / 5;
                    player.health.heal(fifth);
                },
                PowerUpType::Boost => {
                    if player.state.boost_time_left_ms <= u32::MAX - BOOST_EXTENSION_MS {
                        player.state.boost_time_left_ms =
                            player.state.boost_time_left_ms + BOOST_EXTENSION_MS;
                    } else {
                        player.state.boost_time_left_ms = u32::MAX;
                    }
                },
            }
        } else {
            kept.push(pu);
        }
        proof {
            assert(old(power_ups)@.take(i + 1).drop_last() =~= old(power_ups)@.take(i as int));
            assert(old(power_ups)@.take(i + 1).last() == old(power_ups)@[i as int]);
        }
        i = i + 1;
    }
    proof {
        assert(old(power_ups)@.take(n as int) =~= old(power_ups)@);
    }
    *power_ups = kept;
}

} // verus!
