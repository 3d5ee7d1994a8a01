//! Combat parameters and the upgrade economy.
//!
//! `PlayerStats` holds the player's combat parameters, mutated only by
//! upgrades; `PlayerWeapon` is the active ranged mode with its damage,
//! cooldown and speed adjustments; `PlayerUpgradeCounter` is the ledger of
//! upgrade tokens earned and spent. Multipliers are integer percentages,
//! durations milliseconds, speeds milli-units per second. Stat growth
//! saturates: additive bumps at the type's maximum, speeds at `SPEED_CAP`.

use vstd::prelude::*;
use crate::health::Health;
use crate::health::healed_current;

verus! {

/// Largest speed a stat may reach, in milli-units per second.
pub const SPEED_CAP: u64 = 1_000_000_000;

/// A sum saturating at the type's maximum.
pub open spec fn sat_add_u64(a: int, b: int) -> int {
    if a + b <= u64::MAX {
        a + b
    } else {
        u64::MAX as int
    }
}

/// A product of a speed with `percent`/100, saturating at `SPEED_CAP`.
pub open spec fn scaled_speed(speed: int, percent: int) -> int {
    if speed * percent / 100 <= SPEED_CAP {
        speed * percent / 100
    } else {
        SPEED_CAP as int
    }
}

/// The player's ranged weapon modes, cycled with dedicated keys.
#[derive(Clone, Copy, Debug, PartialEq, Eq, Structural)]
pub enum PlayerWeapon {
    Normal,
    Burst,
    Splash,
}

/// The mode one step to the left in the cycle.
pub open spec fn cycled_left(w: PlayerWeapon) -> PlayerWeapon {
    match w {
        PlayerWeapon::Normal => PlayerWeapon::Splash,
        PlayerWeapon::Splash => PlayerWeapon::Burst,
        PlayerWeapon::Burst => PlayerWeapon::Normal,
    }
}

/// The mode one step to the right in the cycle.
pub open spec fn cycled_right(w: PlayerWeapon) -> PlayerWeapon {
    match w {
        PlayerWeapon::Normal => PlayerWeapon::Burst,
        PlayerWeapon::Burst => PlayerWeapon::Splash,
        PlayerWeapon::Splash => PlayerWeapon::Normal,
    }
}

impl Default for PlayerWeapon {
    fn default() -> (w: Self)
        ensures
            w == PlayerWeapon::Normal,
    {
        PlayerWeapon::Normal
    }
}

impl PlayerWeapon {
    pub fn cycle_left(&mut self)
        ensures
            *final(self) == cycled_left(*old(self)),
    {
        *self = match self {
            PlayerWeapon::Normal => PlayerWeapon::Splash,
            PlayerWeapon::Splash => PlayerWeapon::Burst,
            PlayerWeapon::Burst => PlayerWeapon::Normal,
        };
    }

    pub fn cycle_right(&mut self)
        ensures
            *final(self) == cycled_right(*old(self)),
    {
        *self = match self {
            PlayerWeapon::Normal => PlayerWeapon::Burst,
            PlayerWeapon::Burst => PlayerWeapon::Splash,
            PlayerWeapon::Splash => PlayerWeapon::Normal,
        };
    }

    /// Ranged-cooldown stretch of this mode, in percent.
    pub fn cooldown_multiplier(&self) -> (percent: u32)
        ensures
            percent == cooldown_percent(*self),
    {
        match self {
            PlayerWeapon::Normal => 120,
            PlayerWeapon::Burst => 180,
            PlayerWeapon::Splash => 250,
        }
    }

    /// Projectile damage of this mode, from the base ranged damage.
    pub fn adjusted_damage(&self, base_damage: u64) -> (d: u64)
        requires
            *self is Normal ==> base_damage >= 3,
        ensures
            d == weapon_damage(*self, base_damage as int),
    {
        match self {
            PlayerWeapon::Normal => base_damage - 3,
            PlayerWeapon::Burst => base_damage,
            PlayerWeapon::Splash => {
                if base_damage <= u64::MAX - 2 {
                    base_damage + 2
                } else {
                    u64::MAX
                }
            },
        }
    }

    /// Projectile-speed factor of this mode, in percent.
    pub fn speed_multiplier(&self) -> (percent: u32)
        ensures
            percent == speed_percent(*self),
    {
        match self {
            PlayerWeapon::Normal => 85,
            PlayerWeapon::Burst => 120,
            PlayerWeapon::Splash => 200,
        }
    }

    /// Damage of the splash pulse this mode leaves on impact; zero for
    /// modes without splash.
    pub fn adjusted_splash_damage(&self, base_damage: u64) -> (d: u64)
        ensures
            d == splash_damage(*self, base_damage as int),
    {
        match self {
            PlayerWeapon::Splash => {
                if base_damage <= u64::MAX / 22 {
                    base_damage * 22 / 10
                } else {
                    u64::MAX
                }
            },
            _ => 0,
        }
    }
}

/// Ranged-cooldown stretch per weapon mode, in percent.
pub open spec fn cooldown_percent(w: PlayerWeapon) -> int {
    match w {
        PlayerWeapon::Normal => 120,
        PlayerWeapon::Burst => 180,
        PlayerWeapon::Splash => 250,
    }
}

/// Projectile damage per weapon mode, from the base ranged damage; the
/// splash bonus saturates at the type's maximum.
pub open spec fn weapon_damage(w: PlayerWeapon, base: int) -> int {
    match w {
        PlayerWeapon::Normal => base - 3,
        PlayerWeapon::Burst => base,
        PlayerWeapon::Splash => sat_add_u64(base, 2),
    }
}

/// Projectile-speed factor per weapon mode, in percent.
pub open spec fn speed_percent(w: PlayerWeapon) -> int {
    match w {
        PlayerWeapon::Normal => 85,
        PlayerWeapon::Burst => 120,
        PlayerWeapon::Splash => 200,
    }
}

/// Splash-pulse damage per weapon mode: 2.2 times the base for splash,
/// saturating at the type's maximum; zero otherwise.
pub open spec fn splash_damage(w: PlayerWeapon, base: int) -> int {
    match w {
        PlayerWeapon::Splash => if base * 22 <= u64::MAX {
            base * 22 / 10
        } else {
            u64::MAX as int
        },
        _ => 0,
    }
}

/// The player's combat parameters, mutated only by upgrades.
#[derive(Clone, Copy, Debug, PartialEq, Eq, Structural)]
pub struct PlayerStats {
    pub close_attack_damage: u64,
    /// Melee cooldown, in milliseconds.
    pub close_attack_cooldown_ms: u32,
    pub ranged_attack_damage: u64,
    /// Ranged cooldown before the weapon-mode stretch, in milliseconds.
    pub ranged_attack_cooldown_ms: u32,
    /// Extra enemies a projectile may hit after its first.
    pub ranged_attack_pierce: u64,
    /// Projectile speed, in milli-units per second.
    pub ranged_attack_speed: u64,
    /// Movement speed, in milli-units per second.
    pub movement_speed: u64,
    /// Healing granted at the end of each cleared wave.
    pub end_of_round_heal: u64,
}

/// The stats a fresh player starts with.
pub open spec fn default_player_stats() -> PlayerStats {
    PlayerStats {
        close_attack_damage: 40,
        close_attack_cooldown_ms: 1000,
        ranged_attack_damage: 6,
        ranged_attack_cooldown_ms: 150,
        ranged_attack_pierce: 4,
        ranged_attack_speed: 450_000,
        movement_speed: 150_000,
        end_of_round_heal: 5,
    }
}

impl Default for PlayerStats {
    fn default() -> (s: Self)
        ensures
            s == default_player_stats(),
    {
        PlayerStats {
            close_attack_damage: 40,
            close_attack_cooldown_ms: 1000,
            ranged_attack_damage: 6,
            ranged_attack_cooldown_ms: 150,
            ranged_attack_pierce: 4,
            ranged_attack_speed: 450_000,
            movement_speed: 150_000,
            end_of_round_heal: 5,
        }
    }
}

/// Whether the stat block is within the ranges the simulation keeps it in:
/// speeds under the cap, and enough base ranged damage to pay the normal
/// mode's flat discount.
pub open spec fn stats_wf(s: PlayerStats) -> bool {
    &&& s.movement_speed <= SPEED_CAP
    &&& s.ranged_attack_speed <= SPEED_CAP
    &&& s.ranged_attack_damage >= 3
    &&& s.ranged_attack_pierce >= 4
}

/// The kinds of permanent upgrade a token can buy.
#[derive(Clone, Copy, Debug, PartialEq, Eq, Structural)]
pub enum PlayerUpgrade {
    HealthUpgrade,
    AttackUpgrade,
    SpeedUpgrade,
}

/// The ledger of upgrade tokens: how many of each kind were taken and how
/// many tokens are still unspent.
#[derive(Clone, Copy, Debug, PartialEq, Eq, Structural)]
pub struct PlayerUpgradeCounter {
    pub attack_upgrades: u64,
    pub health_upgrades: u64,
    pub speed_upgrades: u64,
    pub unused_upgrades: u64,
}

impl Default for PlayerUpgradeCounter {
    fn default() -> (c: Self)
        ensures
            c == PlayerUpgradeCounter::empty(),
    {
        PlayerUpgradeCounter {
            attack_upgrades: 0,
            health_upgrades: 0,
            speed_upgrades: 0,
            unused_upgrades: 0,
        }
    }
}

impl PlayerUpgradeCounter {
    /// The ledger of a fresh session: nothing earned, nothing spent.
    pub open spec fn empty() -> PlayerUpgradeCounter {
        PlayerUpgradeCounter {
            attack_upgrades: 0,
            health_upgrades: 0,
            speed_upgrades: 0,
            unused_upgrades: 0,
        }
    }

    /// Grants one unspent token.
    pub fn add_unused(&mut self)
        ensures
            final(self).unused_upgrades == sat_add_u64(old(self).unused_upgrades as int, 1),
            final(self).attack_upgrades == old(self).attack_upgrades,
            final(self).health_upgrades == old(self).health_upgrades,
            final(self).speed_upgrades == old(self).speed_upgrades,
    {
        if self.unused_upgrades < u64::MAX {
            self.unused_upgrades = self.unused_upgrades + 1;
        }
    }

    /// Records one taken upgrade of the given kind.
    pub fn add_upgrade(&mut self, player_upgrade: PlayerUpgrade)
        ensures
            final(self).unused_upgrades == old(self).unused_upgrades,
            final(self).attack_upgrades == if player_upgrade is AttackUpgrade {
                sat_add_u64(old(self).attack_upgrades as int, 1)
            } else {
                old(self).attack_upgrades as int
            },
            final(self).health_upgrades == if player_upgrade is HealthUpgrade {
                sat_add_u64(old(self).health_upgrades as int, 1)
            } else {
                old(self).health_upgrades as int
            },
            final(self).speed_upgrades == if player_upgrade is SpeedUpgrade {
                sat_add_u64(old(self).speed_upgrades as int, 1)
            } else {
                old(self).speed_upgrades as int
            },
    {
        match player_upgrade {
            PlayerUpgrade::HealthUpgrade => {
                if self.health_upgrades < u64::MAX {
                    self.health_upgrades = self.health_upgrades + 1;
                }
            },
            PlayerUpgrade::SpeedUpgrade => {
                if self.speed_upgrades < u64::MAX {
                    self.speed_upgrades = self.speed_upgrades + 1;
                }
            },
            PlayerUpgrade::AttackUpgrade => {
                if self.attack_upgrades < u64::MAX {
                    self.attack_upgrades = self.attack_upgrades + 1;
                }
            },
        }
    }

    /// Starts the ledger over, as on a new game.
    pub fn reset(&mut self)
        ensures
            *final(self) == PlayerUpgradeCounter::empty(),
    {
        self.attack_upgrades = 0;
        self.health_upgrades = 0;
        self.speed_upgrades = 0;
        self.unused_upgrades = 0;
    }
}

/// What one upgrade does to the player's stats and health:
/// - attack: two more ranged damage, ten more melee damage, one more
///   pierce, a 5% shorter ranged cooldown;
/// - health: a ceiling twenty higher, an immediate fifth-of-max heal, four
///   more per-wave heal;
/// - speed: 15% faster movement, 20% faster projectiles, both capped.
pub open spec fn upgraded(stats: PlayerStats, health: Health, upgrade: PlayerUpgrade)
    -> (PlayerStats, Health)
{
    match upgrade {
        PlayerUpgrade::AttackUpgrade => (
            PlayerStats {
                ranged_attack_damage: sat_add_u64(stats.ranged_attack_damage as int, 2) as u64,
                ranged_attack_cooldown_ms: (stats.ranged_attack_cooldown_ms * 95 / 100) as u32,
                ranged_attack_pierce: sat_add_u64(stats.ranged_attack_pierce as int, 1) as u64,
                close_attack_damage: sat_add_u64(stats.close_attack_damage as int, 10) as u64,
                ..stats
            },
            health,
        ),
        PlayerUpgrade::HealthUpgrade => {
            let new_max = sat_add_u64(health.max_hp as int, 20);
            (
                PlayerStats {
                    end_of_round_heal: sat_add_u64(stats.end_of_round_heal as int, 4) as u64,
                    ..stats
                },
                Health {
                    max_hp: new_max as u64,
                    current_hp: healed_current(new_max, health.current_hp as int,
                        new_max / 5) as u64,
                },
            )
        },
        PlayerUpgrade::SpeedUpgrade => (
            PlayerStats {
                movement_speed: scaled_speed(stats.movement_speed as int, 115) as u64,
                ranged_attack_speed: scaled_speed(stats.ranged_attack_speed as int, 120) as u64,
                ..stats
            },
            health,
        ),
    }
}

/// Applies one upgrade to the player's stats and health, as `upgraded`
/// describes. Upgrades are permanent for the rest of the session.
pub fn apply_player_upgrade(stats: &mut PlayerStats, health: &mut Health, upgrade: PlayerUpgrade)
    requires
        stats_wf(*old(stats)),
    ensures
        stats_wf(*final(stats)),
        (*final(stats), *final(health)) == upgraded(*old(stats), *old(health), upgrade),
{
    match upgrade {
        PlayerUpgrade::AttackUpgrade => {
            if self_lt_max(stats.ranged_attack_damage, 2) {
                stats.ranged_attack_damage = stats.ranged_attack_damage + 2;
            } else {
                stats.ranged_attack_damage = u64::MAX;
            }
            let shrunk = (stats.ranged_attack_cooldown_ms as u64) * 95 / 100;
            stats.ranged_attack_cooldown_ms = shrunk as u32;
            if stats.ranged_attack_pierce < u64::MAX {
                stats.ranged_attack_pierce = stats.ranged_attack_pierce + 1;
            }
            if self_lt_max(stats.close_attack_damage, 10) {
                stats.close_attack_damage = stats.close_attack_damage + 10;
            } else {
                stats.close_attack_damage = u64::MAX;
            }
        },
        PlayerUpgrade::HealthUpgrade => {
            health.add_max_hp(20);
            let fifth = health.max_health() / 5;
            health.heal(fifth);
            if self_lt_max(stats.end_of_round_heal, 4) {
                stats.end_of_round_heal = stats.end_of_round_heal + 4;
            } else {
                stats.end_of_round_heal = u64::MAX;
            }
        },
        PlayerUpgrade::SpeedUpgrade => {
            let faster = stats.movement_speed * 115 / 100;
            stats.movement_speed = if faster <= SPEED_CAP {
                faster
            } else {
                SPEED_CAP
            };
            let faster_shot = stats.ranged_attack_speed * 120 / 100;
            stats.ranged_attack_speed = if faster_shot <= SPEED_CAP {
                faster_shot
            } else {
                SPEED_CAP
            };
        },
    }
}

/// One projectile of a burst volley: its damage, its pierce and its
/// angular offset from the aim direction, in milliradians.
#[derive(Clone, Copy, Debug, PartialEq, Eq, Structural)]
pub struct BurstInfo {
    pub damage: u64,
    pub pierce: u64,
    pub offset_mrad: i32,
}

/// How a burst volley splits the base damage and pierce, keyed by the
/// total throughput `damage * pierce`: a light volley is five shots of a
/// sixth of the total each with pierce two; a middle volley is seven shots
/// of two thirds the damage with a quarter of the pierce; a heavy volley
/// is nine shots of a fifth of the damage with four fewer pierce. The
/// shots fan out at fixed milliradian offsets.
pub open spec fn burst_pattern(damage: int, pierce: int) -> Seq<BurstInfo> {
    let total = damage * pierce;
    if total <= 200 {
        Seq::new(5, |i: int| BurstInfo {
            damage: ((total + 3) / 6) as u64,
            pierce: 2u64,
            offset_mrad: (150 * (i - 2)) as i32,
        })
    } else if total <= 600 {
        Seq::new(7, |i: int| BurstInfo {
            damage: (damage * 2 / 3) as u64,
            pierce: (pierce / 4) as u64,
            offset_mrad: (100 * (i - 3)) as i32,
        })
    } else {
        Seq::new(9, |i: int| BurstInfo {
            damage: (damage / 5) as u64,
            pierce: (pierce - 4) as u64,
            offset_mrad: (120 * (i - 4)) as i32,
        })
    }
}

/// Splits the base ranged damage and pierce into a burst volley, as
/// `burst_pattern` describes.
pub fn distribute_burst(damage: u64, pierce: u64) -> (bursts: Vec<BurstInfo>)
    requires
        damage * pierce > 600 ==> pierce >= 4,
    ensures
        bursts@ == burst_pattern(damage as int, pierce as int),
{
    proof {
        assert((damage as u128) * (pierce as u128) <= 0xffff_ffff_ffff_ffffu128
            * 0xffff_ffff_ffff_ffffu128) by (nonlinear_arith)
            requires
                0 <= damage as u128 <= 0xffff_ffff_ffff_ffffu128,
                0 <= pierce as u128 <= 0xffff_ffff_ffff_ffffu128,
        ;
    }
    let total: u128 = (damage as u128) * (pierce as u128);
    let ghost pattern = burst_pattern(damage as int, pierce as int);
    let mut bursts: Vec<BurstInfo> = Vec::new();
    if total <= 200 {
        let each = (total as u64 + 3) / 6;
        let mut i: usize = 0;
        while i < 5
            invariant
                0 <= i <= 5,
                pattern == burst_pattern(damage as int, pierce as int),
                damage * pierce <= 200,
                each == (damage * pierce + 3) / 6,
                bursts@.len() == i,
                forall|k: int| 0 <= k < i ==> bursts@[k] == pattern[k],
            decreases 5 - i,
        {
            bursts.push(BurstInfo {
                damage: each,
                pierce: 2,
                offset_mrad: 150 * (i as i32 - 2),
            });
            i = i + 1;
        }
        proof {
            assert(bursts@ =~= pattern);
        }
        bursts
    } else if total <= 600 {
        proof {
            assert(damage <= 600 && 1 <= pierce) by (nonlinear_arith)
                requires
                    200 < damage * pierce <= 600,
                    0 <= damage,
                    0 <= pierce,
            ;
        }
        let each = damage * 2 / 3;
        let each_pierce = pierce / 4;
        let mut i: usize = 0;
        while i < 7
            invariant
                0 <= i <= 7,
                pattern == burst_pattern(damage as int, pierce as int),
                200 < damage * pierce <= 600,
                each == damage * 2 / 3,
                each_pierce == pierce / 4,
                bursts@.len() == i,
                forall|k: int| 0 <= k < i ==> bursts@[k] == pattern[k],
            decreases 7 - i,
        {
            bursts.push(BurstInfo {
                damage: each,
                pierce: each_pierce,
                offset_mrad: 100 * (i as i32 - 3),
            });
            i = i + 1;
        }
        proof {
            assert(bursts@ =~= pattern);
        }
        bursts
    } else {
        let each = damage / 5;
        let each_pierce = pierce - 4;
        let mut i: usize = 0;
        while i < 9
            invariant
                0 <= i <= 9,
                pattern == burst_pattern(damage as int, pierce as int),
                damage * pierce > 600,
                each == damage / 5,
                each_pierce == pierce - 4,
                bursts@.len() == i,
                forall|k: int| 0 <= k < i ==> bursts@[k] == pattern[k],
            decreases 9 - i,
        {
            bursts.push(BurstInfo {
                damage: each,
                pierce: each_pierce,
                offset_mrad: 120 * (i as i32 - 4),
            });
            i = i + 1;
        }
        proof {
            assert(bursts@ =~= pattern);
        }
        bursts
    }
}

/// Whether `a + b` stays under the type's maximum.
fn self_lt_max(a: u64, b: u64) -> (r: bool)
    requires
        b >= 1,
    ensures
        r == (a + b <= u64::MAX),
{
    a <= u64::MAX - b
}

} // verus!
