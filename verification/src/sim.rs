//! The simulation context: one value owning the whole game state, ticked
//! once per frame.
//!
//! A tick first consumes any pending phase-transition request, performing
//! the exit and entry work (`consume_transition`); then the input snapshot
//! is handled for the active phase, raising at most one new request; and
//! only in the running phase, with no request raised, does the combat
//! pipeline run, in this order: player movement and timers, power-ups,
//! the player's ranged attack, projectile motion, projectile collision
//! resolution, splash pulses, enemy melee/movement/ranged, dead-enemy
//! removal, the player's death check, and last the wave-spawn decision —
//! so damage precedes removal, removal precedes the wave decision, and the
//! lose transition is raised in the very tick the player's health reaches
//! zero.

use vstd::prelude::*;
use crate::combat::MAX_FRAME_MS;
use crate::entity::Enemy;
use crate::entity::Player;
use crate::entity::PowerUp;
use crate::entity::Projectile;
use crate::entity::SplashProjectileResidual;
use crate::entity::SplashResidue;
use crate::entity::enemy_wf;
use crate::entity::initial_player;
use crate::entity::player_wf;
use crate::entity::projectile_wf;
use crate::combat::residual_wf;
use crate::input::InputSnapshot;
use crate::phase::GamePhase;
use crate::phase::Transition;
use crate::powerup::POWER_UP_SPAWN_PERIOD_MS;
use crate::powerup::power_up_wf;
use crate::rng::Rng;
use crate::stats::PlayerUpgradeCounter;
use crate::stats::PlayerWeapon;
use crate::stats::PlayerUpgrade;
use crate::timer::Cooldown;
use crate::wave::spec_enemies_to_spawn;

verus! {

/// The whole game state: the phase machine, the session counters, the
/// entity collections and the random source, threaded explicitly rather
/// than held in ambient globals.
pub struct Sim {
    pub phase: GamePhase,
    /// The one-shot transition request, if one is pending; at most one
    /// exists at a time and consumption clears it.
    pub pending: Option<Transition>,
    /// The wave counter of the active session.
    pub wave: u32,
    /// The best wave reached in this process's lifetime.
    pub high_score: u32,
    pub upgrades: PlayerUpgradeCounter,
    /// The player record; present in the running and paused phases.
    pub player: Option<Player>,
    pub enemies: Vec<Enemy>,
    pub player_projectiles: Vec<Projectile>,
    pub enemy_projectiles: Vec<Projectile>,
    /// Splash pulses waiting to fire.
    pub splash_residuals: Vec<SplashProjectileResidual>,
    /// Fading marks of spent pulses.
    pub splash_residue: Vec<SplashResidue>,
    pub power_ups: Vec<PowerUp>,
    pub power_up_spawn_timer: Cooldown,
    pub rng: Rng,
    /// The next entity id to hand out; never reused.
    pub next_id: u64,
}

impl Sim {
    /// Well-formed: the phases that play or pause a run hold a player,
    /// every record is within the simulation's ranges, no enemy outlives
    /// the tick its health reached zero in, and a pending request is a
    /// table edge leaving the active phase.
    pub open spec fn wf(self) -> bool {
        &&& (self.phase is Running || self.phase is Paused) ==> self.player is Some
        &&& (self.player matches Some(p) ==> player_wf(p))
        &&& (forall|i: int| 0 <= i < self.enemies@.len()
            ==> enemy_wf(#[trigger] self.enemies@[i]))
        &&& (forall|i: int| 0 <= i < self.enemies@.len()
            ==> (#[trigger] self.enemies@[i]).health.current_hp != 0)
        &&& (forall|i: int| 0 <= i < self.player_projectiles@.len()
            ==> projectile_wf(#[trigger] self.player_projectiles@[i]))
        &&& (forall|i: int| 0 <= i < self.enemy_projectiles@.len()
            ==> projectile_wf(#[trigger] self.enemy_projectiles@[i]))
        &&& (forall|i: int| 0 <= i < self.splash_residuals@.len()
            ==> residual_wf(#[trigger] self.splash_residuals@[i]))
        &&& (forall|i: int| 0 <= i < self.power_ups@.len()
            ==> power_up_wf(#[trigger] self.power_ups@[i]))
        &&& (self.pending matches Some(t) ==> t.wf() && t.spec_from() == self.phase)
    }

    /// No combat entities: what the menu, guide and lose-screen phases
    /// hold.
    pub open spec fn combat_cleared(self) -> bool {
        &&& self.player is None
        &&& self.enemies@ == Seq::<Enemy>::empty()
        &&& self.player_projectiles@ == Seq::<Projectile>::empty()
        &&& self.enemy_projectiles@ == Seq::<Projectile>::empty()
        &&& self.splash_residuals@ == Seq::<SplashProjectileResidual>::empty()
        &&& self.splash_residue@ == Seq::<SplashResidue>::empty()
        &&& self.power_ups@ == Seq::<PowerUp>::empty()
    }

    /// A freshly started run: wave zero, an empty ledger, the initial
    /// player alone in the arena, a fresh spawn timer and ids starting
    /// over.
    pub open spec fn fresh_run(self) -> bool {
        &&& self.wave == 0
        &&& self.upgrades == PlayerUpgradeCounter::empty()
        &&& self.player == Some(initial_player())
        &&& self.enemies@ == Seq::<Enemy>::empty()
        &&& self.player_projectiles@ == Seq::<Projectile>::empty()
        &&& self.enemy_projectiles@ == Seq::<Projectile>::empty()
        &&& self.splash_residuals@ == Seq::<SplashProjectileResidual>::empty()
        &&& self.splash_residue@ == Seq::<SplashResidue>::empty()
        &&& self.power_ups@ == Seq::<PowerUp>::empty()
        &&& self.power_up_spawn_timer == (Cooldown {
            period_ms: POWER_UP_SPAWN_PERIOD_MS,
            elapsed_ms: 0,
        })
        &&& self.next_id == 1
    }

    /// Everything of the session equal but the phase machine's own two
    /// fields.
    pub open spec fn same_session(self, other: Sim) -> bool {
        &&& self.wave == other.wave
        &&& self.high_score == other.high_score
        &&& self.upgrades == other.upgrades
        &&& self.player == other.player
        &&& self.enemies@ == other.enemies@
        &&& self.player_projectiles@ == other.player_projectiles@
        &&& self.enemy_projectiles@ == other.enemy_projectiles@
        &&& self.splash_residuals@ == other.splash_residuals@
        &&& self.splash_residue@ == other.splash_residue@
        &&& self.power_ups@ == other.power_ups@
        &&& self.power_up_spawn_timer == other.power_up_spawn_timer
        &&& self.rng == other.rng
        &&& self.next_id == other.next_id
    }

    /// A fresh simulation: the game opens on the main menu with no run in
    /// progress and no high score, replaying the stream `seed` names.
    pub fn new(seed: u64) -> (s: Sim)
        ensures
            s.wf(),
            s.phase is MainMenu,
            s.pending is None,
            s.wave == 0,
            s.high_score == 0,
            s.upgrades == PlayerUpgradeCounter::empty(),
            s.combat_cleared(),
            s.rng.state == crate::rng::seeded_state(seed),
            s.next_id == 1,
    {
        Sim {
            phase: GamePhase::MainMenu,
            pending: None,
            wave: 0,
            high_score: 0,
            upgrades: PlayerUpgradeCounter::default(),
            player: None,
            enemies: Vec::new(),
            player_projectiles: Vec::new(),
            enemy_projectiles: Vec::new(),
            splash_residuals: Vec::new(),
            splash_residue: Vec::new(),
            power_ups: Vec::new(),
            power_up_spawn_timer: Cooldown::new(POWER_UP_SPAWN_PERIOD_MS),
            rng: Rng::new(seed),
            next_id: 1,
        }
    }

    /// A fresh simulation seeded from the process-wide entropy source.
    pub fn from_entropy() -> (s: Sim)
        ensures
            s.wf(),
            s.phase is MainMenu,
            s.pending is None,
            s.wave == 0,
            s.high_score == 0,
            s.upgrades == PlayerUpgradeCounter::empty(),
            s.combat_cleared(),
            s.next_id == 1,
    {
        let rng = Rng::from_entropy();
        let mut s = Sim::new(0);
        s.rng = rng;
        s
    }

    /// Despawns everything a run owns.
    fn clear_combat(&mut self)
        ensures
            final(self).combat_cleared(),
            final(self).phase == old(self).phase,
            final(self).pending == old(self).pending,
            final(self).wave == old(self).wave,
            final(self).high_score == old(self).high_score,
            final(self).upgrades == old(self).upgrades,
            final(self).power_up_spawn_timer == old(self).power_up_spawn_timer,
            final(self).rng == old(self).rng,
            final(self).next_id == old(self).next_id,
    {
        self.player = None;
        self.enemies = Vec::new();
        self.player_projectiles = Vec::new();
        self.enemy_projectiles = Vec::new();
        self.splash_residuals = Vec::new();
        self.splash_residue = Vec::new();
        self.power_ups = Vec::new();
    }

    /// Sets the state a run starts in: the initial player at the origin,
    /// wave zero, a reset ledger, empty collections and fresh ids.
    fn start_run(&mut self)
        ensures
            final(self).fresh_run(),
            final(self).phase == old(self).phase,
            final(self).pending == old(self).pending,
            final(self).high_score == old(self).high_score,
            final(self).rng == old(self).rng,
    {
        self.clear_combat();
        self.wave = 0;
        self.upgrades.reset();
        self.player = Some(Player::spawn());
        self.power_up_spawn_timer = Cooldown::new(POWER_UP_SPAWN_PERIOD_MS);
        self.next_id = 1;
    }

    /// Consumes the pending transition request, if any: the active phase
    /// swaps to the request's target and the entry/exit work runs.
    /// Entering the running phase from the menu or the lose screen starts
    /// a fresh run; resuming from pause keeps the session untouched;
    /// entering the lose screen records a new high score when the wave
    /// beats it and despawns the run's entities; returning to the menu
    /// from pause or the lose screen abandons the run. With no pending
    /// request this is a no-op.
    pub fn consume_transition(&mut self)
        requires
            old(self).wf(),
        ensures
            final(self).wf(),
            consume_outcome(*old(self), *final(self)),
            old(self).pending is None ==> final(self).phase == old(self).phase
                && final(self).pending is None
                && final(self).same_session(*old(self)),
            old(self).pending matches Some(t) ==> {
                &&& final(self).pending is None
                &&& final(self).phase == t.spec_to()
                &&& final(self).high_score == if t.spec_to() is LoseScreen
                    && old(self).wave > old(self).high_score {
                    old(self).wave as int
                } else {
                    old(self).high_score as int
                }
                &&& (t.spec_to() is Running && !(t.spec_from() is Paused)
                    ==> final(self).fresh_run())
                &&& (t.spec_from() is Paused && t.spec_to() is Running
                    ==> final(self).same_session(*old(self)))
                &&& (t.spec_to() is Paused ==> final(self).same_session(*old(self)))
                &&& (t.spec_to() is Guide ==> final(self).same_session(*old(self)))
                &&& (t.spec_from() is MainMenu && t.spec_to() is Guide
                    ==> final(self).same_session(*old(self)))
                &&& (t.spec_from() is Guide && t.spec_to() is MainMenu
                    ==> final(self).same_session(*old(self)))
                &&& (t.spec_to() is LoseScreen ==> final(self).combat_cleared()
                    && final(self).wave == old(self).wave
                    && final(self).upgrades == old(self).upgrades)
                &&& ((t.spec_from() is Paused || t.spec_from() is LoseScreen)
                    && t.spec_to() is MainMenu ==> final(self).combat_cleared()
                    && final(self).wave == old(self).wave
                    && final(self).upgrades == old(self).upgrades)
                &&& final(self).rng == old(self).rng
            },
    {
        let pending = self.pending;
        self.pending = None;
        if let Some(t) = pending {
            let from = t.from_phase();
            let to = t.to_phase();
            proof {
                crate::phase::lemma_transition_valid(t);
            }
            self.phase = to;
            match (from, to) {
                (GamePhase::MainMenu, GamePhase::Running) => self.start_run(),
                (GamePhase::LoseScreen, GamePhase::Running) => self.start_run(),
                (GamePhase::Paused, GamePhase::Running) => {},
                (GamePhase::Running, GamePhase::Paused) => {},
                (GamePhase::Running, GamePhase::LoseScreen) => {
                    if self.wave > self.high_score {
                        self.high_score = self.wave;
                    }
                    self.clear_combat();
                },
                (GamePhase::MainMenu, GamePhase::Guide) => {},
                (GamePhase::Guide, GamePhase::MainMenu) => {},
                (GamePhase::Paused, GamePhase::MainMenu) => self.clear_combat(),
                (GamePhase::LoseScreen, GamePhase::MainMenu) => self.clear_combat(),
                _ => {},
            }
        }
    }
}

/// The upgrade the running-phase input picks, given the unspent token
/// balance: nothing without a token; otherwise the health, attack or
/// speed key, in that priority order.
pub open spec fn upgrade_choice(unused: int, input: InputSnapshot) -> Option<PlayerUpgrade> {
    if unused > 0 {
        if input.pick_health_upgrade {
            Some(PlayerUpgrade::HealthUpgrade)
        } else if input.pick_attack_upgrade {
            Some(PlayerUpgrade::AttackUpgrade)
        } else if input.pick_speed_upgrade {
            Some(PlayerUpgrade::SpeedUpgrade)
        } else {
            None
        }
    } else {
        None
    }
}

/// The ledger after the picked upgrade, if any, is paid for and recorded.
pub open spec fn ledger_after(c: PlayerUpgradeCounter, picked: Option<PlayerUpgrade>)
    -> PlayerUpgradeCounter
{
    match picked {
        None => c,
        Some(u) => PlayerUpgradeCounter {
            unused_upgrades: (c.unused_upgrades - 1) as u64,
            attack_upgrades: if u is AttackUpgrade {
                crate::stats::sat_add_u64(c.attack_upgrades as int, 1) as u64
            } else {
                c.attack_upgrades
            },
            health_upgrades: if u is HealthUpgrade {
                crate::stats::sat_add_u64(c.health_upgrades as int, 1) as u64
            } else {
                c.health_upgrades
            },
            speed_upgrades: if u is SpeedUpgrade {
                crate::stats::sat_add_u64(c.speed_upgrades as int, 1) as u64
            } else {
                c.speed_upgrades
            },
        },
    }
}

/// The ranged-attack period after a weapon switch: the base cooldown
/// stretched by the mode's percentage, capped at the type's maximum.
pub open spec fn weapon_cooldown_ms(base: int, w: PlayerWeapon) -> int {
    if base * crate::stats::cooldown_percent(w) / 100 <= u32::MAX {
        base * crate::stats::cooldown_percent(w) / 100
    } else {
        u32::MAX as int
    }
}

/// The player and the ledger after one frame of running-phase input: a
/// weapon-cycle key switches the mode and restarts the ranged timer over
/// the stretched cooldown, and the picked upgrade, if any, is paid for
/// and applied.
pub open spec fn running_input_outcome(p: Player, c: PlayerUpgradeCounter,
    input: InputSnapshot) -> (Player, PlayerUpgradeCounter)
{
    let w2 = if input.weapon_left {
        crate::stats::cycled_left(p.state.current_weapon)
    } else if input.weapon_right {
        crate::stats::cycled_right(p.state.current_weapon)
    } else {
        p.state.current_weapon
    };
    let timer2 = if input.weapon_left || input.weapon_right {
        Cooldown {
            period_ms: weapon_cooldown_ms(p.stats.ranged_attack_cooldown_ms as int, w2) as u32,
            elapsed_ms: 0,
        }
    } else {
        p.state.ranged_attack_timer
    };
    let picked = upgrade_choice(c.unused_upgrades as int, input);
    let applied = match picked {
        Some(u) => crate::stats::upgraded(p.stats, p.health, u),
        None => (p.stats, p.health),
    };
    (
        Player {
            stats: applied.0,
            health: applied.1,
            state: crate::entity::PlayerState {
                current_weapon: w2,
                ranged_attack_timer: timer2,
                ..p.state
            },
            ..p
        },
        ledger_after(c, picked),
    )
}

/// What consuming the pending request does: nothing without one;
/// otherwise the phase swaps to the request's target and the entry/exit
/// work runs — a fresh run on entry from the menu or the lose screen, an
/// untouched session when pausing, resuming or viewing the guide, the
/// high score updated and the run despawned on entry to the lose screen,
/// and the run despawned when abandoning it for the menu.
pub open spec fn consume_outcome(pre: Sim, post: Sim) -> bool {
    match pre.pending {
        None => {
            &&& post.phase == pre.phase
            &&& post.pending is None
            &&& post.same_session(pre)
        },
        Some(t) => {
            &&& post.pending is None
            &&& post.phase == t.spec_to()
            &&& post.high_score == if t.spec_to() is LoseScreen && pre.wave > pre.high_score {
                pre.wave as int
            } else {
                pre.high_score as int
            }
            &&& (t.spec_to() is Running && !(t.spec_from() is Paused) ==> post.fresh_run())
            &&& (t.spec_from() is Paused && t.spec_to() is Running ==> post.same_session(pre))
            &&& (t.spec_to() is Paused ==> post.same_session(pre))
            &&& (t.spec_to() is Guide ==> post.same_session(pre))
            &&& (t.spec_from() is Guide && t.spec_to() is MainMenu ==> post.same_session(pre))
            &&& (t.spec_to() is LoseScreen ==> post.combat_cleared()
                && post.wave == pre.wave && post.upgrades == pre.upgrades)
            &&& ((t.spec_from() is Paused || t.spec_from() is LoseScreen)
                && t.spec_to() is MainMenu ==> post.combat_cleared()
                && post.wave == pre.wave && post.upgrades == pre.upgrades)
            &&& post.rng == pre.rng
        },
    }
}

/// The combat pipeline's full effect on one running frame: starting from
/// the world in `pre` with player `p0` and ledger `ledger0`, the final
/// state is the composition, in order, of player movement, the player's
/// melee attack, power-up aging, spawning and collection, the ranged
/// attack, projectile motion, projectile resolution against enemies and
/// against the player, splash pulses and their fading marks, the enemies'
/// own tick, dead-enemy removal, and then exactly one of: the lose
/// request (the player's health reached zero), the wave director's spawn
/// (no enemy left), or nothing more.
pub open spec fn combat_pipeline_rel(pre: Sim, p0: Player, ledger0: PlayerUpgradeCounter,
    post: Sim, input: InputSnapshot, dt: int) -> bool
{
    let p1 = crate::combat::updated_player(p0, input.move_up, input.move_down, input.move_left,
        input.move_right, dt);
    let melee = crate::combat::melee_attack_outcome(p1, pre.enemies@, dt);
    let p2 = melee.0;
    let es1 = melee.1;
    let aged = pre.power_ups@.map_values(|pu: PowerUp| crate::powerup::power_up_aged(pu, dt));
    let spawn_fired = pre.power_up_spawn_timer.elapsed_ms + dt
        >= pre.power_up_spawn_timer.period_ms;
    let timer2 = Cooldown {
        period_ms: pre.power_up_spawn_timer.period_ms,
        elapsed_ms: if spawn_fired {
            0u32
        } else {
            (pre.power_up_spawn_timer.elapsed_ms + dt) as u32
        },
    };
    let pus2 = if spawn_fired {
        aged.push(crate::powerup::spawned_power_up(p2.pos, pre.rng.state))
    } else {
        aged
    };
    let rng1 = if spawn_fired {
        crate::rng::xorshift_step(crate::rng::xorshift_step(crate::rng::xorshift_step(
            crate::rng::xorshift_step(pre.rng.state))))
    } else {
        pre.rng.state
    };
    let coll = crate::powerup::collect_outcome(p2, pus2);
    let p3 = coll.0;
    let pus3 = coll.1;
    let ranged = crate::combat::ranged_attack_outcome(p3, pre.player_projectiles@, input);
    let p4 = ranged.0;
    let pp1 = ranged.1;
    let pp2 = crate::combat::projectiles_after_motion(pp1, p4.pos, dt);
    let ep1 = crate::combat::projectiles_after_motion(pre.enemy_projectiles@, p4.pos, dt);
    let rv = crate::combat::resolve_fold(pp2, es1);
    let pp3 = rv.0;
    let es2 = rv.1;
    let res1 = pre.splash_residuals@ + rv.2;
    let er = crate::combat::enemy_projectiles_fold(ep1, p4.pos, p4.health);
    let ep2 = er.0;
    let p5 = Player { health: er.1, ..p4 };
    let es3 = crate::combat::splashes_fold(res1, es2);
    let marks1 = pre.splash_residue@ + res1.map_values(
        |r: SplashProjectileResidual| crate::combat::residue_of(r));
    let marks2 = crate::combat::residue_after(marks1, dt);
    let ew = crate::combat::enemy_wave_fold(es3, p5.pos, p5.health, dt);
    let es4 = ew.0;
    let p6 = Player { health: ew.1, ..p5 };
    let ep3 = ep2 + ew.2;
    let es5 = es4.filter(|e: Enemy| e.health.current_hp != 0);
    &&& post.phase == pre.phase
    &&& post.high_score == pre.high_score
    &&& post.player_projectiles@ == pp3
    &&& post.enemy_projectiles@ == ep3
    &&& post.splash_residuals@ == Seq::<SplashProjectileResidual>::empty()
    &&& post.splash_residue@ == marks2
    &&& post.power_ups@ == pus3
    &&& post.power_up_spawn_timer == timer2
    &&& if p6.health.current_hp == 0 {
        &&& post.player == Some(p6)
        &&& post.enemies@ == es5
        &&& post.wave == pre.wave
        &&& post.upgrades == ledger0
        &&& post.next_id == pre.next_id
        &&& post.rng.state == rng1
        &&& crate::phase::is_transition(post.pending, GamePhase::Running,
            GamePhase::LoseScreen)
    } else if es5.len() == 0 {
        let w = pre.wave + 1;
        &&& post.pending is None
        &&& post.wave == w
        &&& post.upgrades.unused_upgrades == crate::stats::sat_add_u64(
            ledger0.unused_upgrades as int, 1)
        &&& post.upgrades.attack_upgrades == ledger0.attack_upgrades
        &&& post.upgrades.health_upgrades == ledger0.health_upgrades
        &&& post.upgrades.speed_upgrades == ledger0.speed_upgrades
        &&& (post.player matches Some(p7) && p7.pos == p6.pos && p7.stats == p6.stats
            && p7.state == p6.state && p7.health.max_hp == p6.health.max_hp
            && p7.health.current_hp == crate::health::healed_current(p6.health.max_hp as int,
                p6.health.current_hp as int, p6.stats.end_of_round_heal as int))
        &&& post.enemies@.len() == spec_enemies_to_spawn(w)
        &&& (forall|i: int| 0 <= i < post.enemies@.len()
            ==> crate::wave::spawned_enemy_ok(#[trigger] post.enemies@[i], w, p6.pos))
        &&& (forall|i: int| 0 <= i < post.enemies@.len()
            ==> (#[trigger] post.enemies@[i]).id.raw == pre.next_id + i)
        &&& post.next_id == pre.next_id + spec_enemies_to_spawn(w)
    } else {
        &&& post.pending is None
        &&& post.player == Some(p6)
        &&& post.enemies@ == es5
        &&& post.wave == pre.wave
        &&& post.upgrades == ledger0
        &&& post.next_id == pre.next_id
        &&& post.rng.state == rng1
    }
}

/// What one frame does once the pending request has been consumed,
/// leaving the state `mid`: the input is handled for the active phase,
/// raising exactly the handler's request; and on a running frame without
/// an escape, the combat pipeline runs.
pub open spec fn phase_step_rel(mid: Sim, post: Sim, input: InputSnapshot, dt: int) -> bool {
    match mid.phase {
        GamePhase::MainMenu => {
            &&& post.phase == mid.phase
            &&& post.same_session(mid)
            &&& (post.pending is Some <==> (input.guide_key || input.confirm))
            &&& (input.guide_key ==> crate::phase::is_transition(post.pending,
                GamePhase::MainMenu, GamePhase::Guide))
            &&& (!input.guide_key && input.confirm ==> crate::phase::is_transition(
                post.pending, GamePhase::MainMenu, GamePhase::Running))
        },
        GamePhase::Guide => {
            &&& post.phase == mid.phase
            &&& post.same_session(mid)
            &&& (post.pending is Some <==> input.escape)
            &&& (input.escape ==> crate::phase::is_transition(post.pending, GamePhase::Guide,
                GamePhase::MainMenu))
        },
        GamePhase::Paused => {
            &&& post.phase == mid.phase
            &&& post.same_session(mid)
            &&& (post.pending is Some <==> (input.home || input.resume))
            &&& (input.home ==> crate::phase::is_transition(post.pending, GamePhase::Paused,
                GamePhase::MainMenu))
            &&& (!input.home && input.resume ==> crate::phase::is_transition(post.pending,
                GamePhase::Paused, GamePhase::Running))
        },
        GamePhase::LoseScreen => {
            &&& post.phase == mid.phase
            &&& post.same_session(mid)
            &&& (post.pending is Some <==> (input.escape || input.confirm))
            &&& (input.escape ==> crate::phase::is_transition(post.pending,
                GamePhase::LoseScreen, GamePhase::MainMenu))
            &&& (!input.escape && input.confirm ==> crate::phase::is_transition(post.pending,
                GamePhase::LoseScreen, GamePhase::Running))
        },
        GamePhase::Running => mid.player matches Some(p0) && ({
            let handled = running_input_outcome(p0, mid.upgrades, input);
            if input.escape {
                &&& post.phase == mid.phase
                &&& crate::phase::is_transition(post.pending, GamePhase::Running,
                    GamePhase::Paused)
                &&& post.player == Some(handled.0)
                &&& post.upgrades == handled.1
                &&& post.wave == mid.wave
                &&& post.high_score == mid.high_score
                &&& post.enemies@ == mid.enemies@
                &&& post.player_projectiles@ == mid.player_projectiles@
                &&& post.enemy_projectiles@ == mid.enemy_projectiles@
                &&& post.splash_residuals@ == mid.splash_residuals@
                &&& post.splash_residue@ == mid.splash_residue@
                &&& post.power_ups@ == mid.power_ups@
                &&& post.power_up_spawn_timer == mid.power_up_spawn_timer
                &&& post.rng == mid.rng
                &&& post.next_id == mid.next_id
            } else {
                combat_pipeline_rel(mid, handled.0, handled.1, post, input, dt)
            }
        }),
    }
}

impl Sim {
    /// Handles running-phase input: a weapon-cycle key switches the mode
    /// and restarts the ranged timer over the stretched cooldown; with an
    /// unspent token, an upgrade key pays one token and permanently
    /// applies that upgrade; and escape raises the pause request.
    pub fn handle_running_input(&mut self, input: &InputSnapshot)
        requires
            old(self).wf(),
            old(self).phase is Running,
            old(self).pending is None,
        ensures
            final(self).wf(),
            final(self).phase == old(self).phase,
            final(self).wave == old(self).wave,
            final(self).high_score == old(self).high_score,
            final(self).enemies@ == old(self).enemies@,
            final(self).player_projectiles@ == old(self).player_projectiles@,
            final(self).enemy_projectiles@ == old(self).enemy_projectiles@,
            final(self).splash_residuals@ == old(self).splash_residuals@,
            final(self).splash_residue@ == old(self).splash_residue@,
            final(self).power_ups@ == old(self).power_ups@,
            final(self).power_up_spawn_timer == old(self).power_up_spawn_timer,
            final(self).rng == old(self).rng,
            final(self).next_id == old(self).next_id,
            input.escape ==> (final(self).pending matches Some(t)
                && t.spec_from() is Running && t.spec_to() is Paused),
            !input.escape ==> final(self).pending is None,
            old(self).player matches Some(p) ==> final(self).player
                == Some(running_input_outcome(p, old(self).upgrades, *input).0)
                && final(self).upgrades
                    == running_input_outcome(p, old(self).upgrades, *input).1,
            ({
                let picked = upgrade_choice(old(self).upgrades.unused_upgrades as int, *input);
                &&& final(self).upgrades == ledger_after(old(self).upgrades, picked)
                &&& old(self).player matches Some(p) ==> final(self).player matches Some(p2)
                    && {
                    let w2 = if input.weapon_left {
                        crate::stats::cycled_left(p.state.current_weapon)
                    } else if input.weapon_right {
                        crate::stats::cycled_right(p.state.current_weapon)
                    } else {
                        p.state.current_weapon
                    };
                    &&& p2.pos == p.pos
                    &&& p2.state.current_weapon == w2
                    &&& p2.state.close_attack_timer == p.state.close_attack_timer
                    &&& p2.state.boost_time_left_ms == p.state.boost_time_left_ms
                    &&& p2.state.ranged_attack_timer
                        == if input.weapon_left || input.weapon_right {
                        Cooldown {
                            period_ms: weapon_cooldown_ms(
                                p.stats.ranged_attack_cooldown_ms as int, w2) as u32,
                            elapsed_ms: 0,
                        }
                    } else {
                        p.state.ranged_attack_timer
                    }
                    &&& (p2.stats, p2.health) == match picked {
                        Some(u) => crate::stats::upgraded(p.stats, p.health, u),
                        None => (p.stats, p.health),
                    }
                }
            }),
    {
        if let Some(pl) = self.player {
            let mut p = pl;
            if input.weapon_left || input.weapon_right {
                if input.weapon_left {
                    p.state.current_weapon.cycle_left();
                } else {
                    p.state.current_weapon.cycle_right();
                }
                let percent = p.state.current_weapon.cooldown_multiplier();
                proof {
                    assert(percent <= 250);
                    assert((p.stats.ranged_attack_cooldown_ms as u64) * (percent as u64)
                        <= 4_294_967_295u64 * 250u64) by (nonlinear_arith)
                        requires
                            0 <= p.stats.ranged_attack_cooldown_ms as u64 <= 4_294_967_295u64,
                            0 <= percent as u64 <= 250u64,
                    ;
                }
                let stretched = (p.stats.ranged_attack_cooldown_ms as u64) * (percent as u64)
                    / 100;
                let period = if stretched <= 0xffff_ffffu64 {
                    stretched as u32
                } else {
                    0xffff_ffffu32
                };
                p.state.ranged_attack_timer.restart(period);
            }

            if self.upgrades.unused_upgrades > 0 {
                let picked: Option<PlayerUpgrade> = if input.pick_health_upgrade {
                    Some(PlayerUpgrade::HealthUpgrade)
                } else if input.pick_attack_upgrade {
                    Some(PlayerUpgrade::AttackUpgrade)
                } else if input.pick_speed_upgrade {
                    Some(PlayerUpgrade::SpeedUpgrade)
                } else {
                    None
                };
                if let Some(u) = picked {
                    self.upgrades.unused_upgrades = self.upgrades.unused_upgrades - 1;
                    self.upgrades.add_upgrade(u);
                    crate::stats::apply_player_upgrade(&mut p.stats, &mut p.health, u);
                }
            }
            self.player = Some(p);
        }

        if input.escape {
            self.pending = Transition::new(GamePhase::Running, GamePhase::Paused);
        } else {
            self.pending = None;
        }
    }

    /// One tick of the combat and progression pipeline, in the documented
    /// order — exactly `combat_pipeline_rel` of the starting state.
    /// Raises the lose request in the very tick the player's health
    /// reaches zero; otherwise, with no enemy left, the wave director
    /// starts the next wave.
    fn combat_tick(&mut self, input: &InputSnapshot, dt_ms: u32)
        requires
            old(self).wf(),
            old(self).phase is Running,
            old(self).pending is None,
            dt_ms <= MAX_FRAME_MS,
            -1_000_000_000 <= input.aim_x <= 1_000_000_000,
            -1_000_000_000 <= input.aim_y <= 1_000_000_000,
            old(self).wave < 0xffff_ffffu32,
            old(self).next_id + spec_enemies_to_spawn(old(self).wave + 1) <= u64::MAX,
        ensures
            final(self).wf(),
            old(self).player matches Some(p0) ==> combat_pipeline_rel(*old(self), p0,
                old(self).upgrades, *final(self), *input, dt_ms as int),
            final(self).phase == old(self).phase,
            final(self).high_score == old(self).high_score,
            final(self).player is Some,
            final(self).player matches Some(p) ==> (p.health.current_hp == 0
                ==> (final(self).pending matches Some(t) && t.spec_from() is Running
                    && t.spec_to() is LoseScreen)),
            final(self).pending matches Some(t) ==> (t.spec_from() is Running
                && t.spec_to() is LoseScreen),
    {
        let pl = match self.player {
            Some(pl) => pl,
            None => {
                return;
            },
        };
        let mut p = pl;

        crate::combat::update_player(&mut p, input.move_up, input.move_down, input.move_left,
            input.move_right, dt_ms);
        crate::combat::player_melee_attack(&mut p, &mut self.enemies, dt_ms);

        crate::powerup::update_power_ups(&mut self.power_ups, dt_ms);
        crate::powerup::create_power_ups(&mut self.power_up_spawn_timer, &mut self.power_ups,
            p.pos, &mut self.rng, dt_ms);
        crate::powerup::collect_power_ups(&mut p, &mut self.power_ups);

        crate::combat::player_ranged_attack(&mut p, &mut self.player_projectiles, input);

        crate::combat::move_projectiles(&mut self.player_projectiles, p.pos, dt_ms);
        crate::combat::move_projectiles(&mut self.enemy_projectiles, p.pos, dt_ms);

        crate::combat::resolve_player_projectiles(&mut self.enemies,
            &mut self.player_projectiles, &mut self.splash_residuals);
        crate::combat::resolve_enemy_projectiles(&mut p, &mut self.enemy_projectiles);

        crate::combat::do_splashes(&mut self.enemies, &mut self.splash_residuals,
            &mut self.splash_residue);
        crate::combat::handle_residue(&mut self.splash_residue, dt_ms);

        crate::combat::enemy_update_and_attack(&mut p, &mut self.enemies,
            &mut self.enemy_projectiles, dt_ms);
        crate::combat::remove_dead_enemies(&mut self.enemies);

        self.player = Some(p);
        self.check_and_resolve_player_death();
        if self.pending.is_none() {
            let mut p2 = match self.player {
                Some(pl2) => pl2,
                None => {
                    return;
                },
            };
            crate::wave::spawn_wave_if_no_enemies(&mut self.wave, &mut self.upgrades, &mut p2,
                &mut self.enemies, &mut self.next_id, &mut self.rng);
            self.player = Some(p2);
        }
    }

    /// The player's death check, run after all of a tick's damage has been
    /// applied: a player at zero health raises the lose request, so the
    /// lose transition is raised no later than the tick health reaches
    /// zero.
    pub fn check_and_resolve_player_death(&mut self)
        requires
            old(self).wf(),
            old(self).phase is Running,
            old(self).pending is None,
        ensures
            final(self).wf(),
            final(self).phase == old(self).phase,
            final(self).same_session(*old(self)),
            (old(self).player matches Some(p) && p.health.current_hp == 0)
                <==> (final(self).pending matches Some(t) && t.spec_from() is Running
                    && t.spec_to() is LoseScreen),
            final(self).pending is None || (final(self).pending matches Some(t)
                && t.spec_from() is Running && t.spec_to() is LoseScreen),
    {
        let dead = match &self.player {
            Some(p) => p.health.current_health() == 0,
            None => false,
        };
        if dead {
            self.pending = Transition::new(GamePhase::Running, GamePhase::LoseScreen);
        }
    }

    /// One frame of the whole game: consume the pending transition,
    /// handle this frame's input for the active phase, and — running,
    /// with no escape pressed — run the combat pipeline. The whole frame
    /// is the composition `consume_outcome` then `phase_step_rel`, so a
    /// caller knows the entry/exit work of a consumed request, exactly
    /// which request this frame's input raises, and the combat pipeline's
    /// complete effect on a running frame. In every phase but the running
    /// one the combat state is left exactly as it was.
    pub fn tick(&mut self, input: &InputSnapshot, dt_ms: u32)
        requires
            old(self).wf(),
            dt_ms <= MAX_FRAME_MS,
            -1_000_000_000 <= input.aim_x <= 1_000_000_000,
            -1_000_000_000 <= input.aim_y <= 1_000_000_000,
            old(self).wave < 0xffff_ffffu32,
            old(self).next_id + spec_enemies_to_spawn(old(self).wave + 1) <= u64::MAX,
        ensures
            final(self).wf(),
            exists|mid: Sim| #[trigger] consume_outcome(*old(self), mid)
                && phase_step_rel(mid, *final(self), *input, dt_ms as int),
            old(self).pending is None && !(old(self).phase is Running)
                ==> final(self).phase == old(self).phase
                    && final(self).same_session(*old(self)),
            old(self).pending matches Some(t) ==> final(self).phase == t.spec_to(),
            old(self).pending is None ==> final(self).phase == old(self).phase,
            final(self).player matches Some(p) ==> ((final(self).phase is Running
                && final(self).pending is None) ==> p.health.current_hp != 0),
    {
        self.consume_transition();
        let ghost mid = *self;
        match self.phase {
            GamePhase::MainMenu => {
                self.pending = crate::phase::handle_menu_input(input);
            },
            GamePhase::Guide => {
                self.pending = crate::phase::handle_guide_input(input);
            },
            GamePhase::Paused => {
                self.pending = crate::phase::handle_paused_input(input);
            },
            GamePhase::LoseScreen => {
                self.pending = crate::phase::handle_lose_screen_input(input);
            },
            GamePhase::Running => {
                self.handle_running_input(input);
                if self.pending.is_none() {
                    self.combat_tick(input, dt_ms);
                }
            },
        }
        proof {
            assert(consume_outcome(*old(self), mid));
            assert(phase_step_rel(mid, *self, *input, dt_ms as int));
        }
    }
}

} // verus!
