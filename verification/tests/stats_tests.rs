use circles_infinity::health::Health;
use circles_infinity::stats::PlayerStats;
use circles_infinity::stats::PlayerUpgrade;
use circles_infinity::stats::PlayerUpgradeCounter;
use circles_infinity::stats::PlayerWeapon;
use circles_infinity::stats::apply_player_upgrade;
use circles_infinity::stats::distribute_burst;

#[test]
fn default_stats_values() {
    let s = PlayerStats::default();
    assert_eq!(s.close_attack_damage, 40);
    assert_eq!(s.close_attack_cooldown_ms, 1000);
    assert_eq!(s.ranged_attack_damage, 6);
    assert_eq!(s.ranged_attack_cooldown_ms, 150);
    assert_eq!(s.ranged_attack_pierce, 4);
    assert_eq!(s.ranged_attack_speed, 450_000);
    assert_eq!(s.movement_speed, 150_000);
    assert_eq!(s.end_of_round_heal, 5);
}

#[test]
fn weapon_cycles_are_inverse() {
    let mut w = PlayerWeapon::Normal;
    w.cycle_right();
    assert_eq!(w, PlayerWeapon::Burst);
    w.cycle_right();
    assert_eq!(w, PlayerWeapon::Splash);
    w.cycle_right();
    assert_eq!(w, PlayerWeapon::Normal);
    w.cycle_left();
    assert_eq!(w, PlayerWeapon::Splash);
    w.cycle_left();
    assert_eq!(w, PlayerWeapon::Burst);
    w.cycle_left();
    assert_eq!(w, PlayerWeapon::Normal);
}

#[test]
fn weapon_multipliers() {
    assert_eq!(PlayerWeapon::Normal.cooldown_multiplier(), 120);
    assert_eq!(PlayerWeapon::Burst.cooldown_multiplier(), 180);
    assert_eq!(PlayerWeapon::Splash.cooldown_multiplier(), 250);
    assert_eq!(PlayerWeapon::Normal.speed_multiplier(), 85);
    assert_eq!(PlayerWeapon::Burst.speed_multiplier(), 120);
    assert_eq!(PlayerWeapon::Splash.speed_multiplier(), 200);
}

#[test]
fn weapon_adjusted_damage() {
    assert_eq!(PlayerWeapon::Normal.adjusted_damage(6), 3);
    assert_eq!(PlayerWeapon::Burst.adjusted_damage(6), 6);
    assert_eq!(PlayerWeapon::Splash.adjusted_damage(6), 8);
}

#[test]
fn weapon_splash_damage() {
    assert_eq!(PlayerWeapon::Splash.adjusted_splash_damage(10), 22);
    assert_eq!(PlayerWeapon::Normal.adjusted_splash_damage(10), 0);
    assert_eq!(PlayerWeapon::Burst.adjusted_splash_damage(10), 0);
}

#[test]
fn burst_light_volley() {
    let bursts = distribute_burst(6, 4);
    assert_eq!(bursts.len(), 5);
    for (i, b) in bursts.iter().enumerate() {
        assert_eq!(b.damage, (6 * 4 + 3) / 6);
        assert_eq!(b.pierce, 2);
        assert_eq!(b.offset_mrad, 150 * (i as i32 - 2));
    }
}

#[test]
fn burst_middle_volley() {
    let bursts = distribute_burst(50, 10);
    assert_eq!(bursts.len(), 7);
    for (i, b) in bursts.iter().enumerate() {
        assert_eq!(b.damage, 50 * 2 / 3);
        assert_eq!(b.pierce, 2);
        assert_eq!(b.offset_mrad, 100 * (i as i32 - 3));
    }
}

#[test]
fn burst_heavy_volley() {
    let bursts = distribute_burst(100, 10);
    assert_eq!(bursts.len(), 9);
    for (i, b) in bursts.iter().enumerate() {
        assert_eq!(b.damage, 20);
        assert_eq!(b.pierce, 6);
        assert_eq!(b.offset_mrad, 120 * (i as i32 - 4));
    }
}

#[test]
fn attack_upgrade_effects() {
    let mut s = PlayerStats::default();
    let mut h = Health::new(100);
    apply_player_upgrade(&mut s, &mut h, PlayerUpgrade::AttackUpgrade);
    assert_eq!(s.ranged_attack_damage, 8);
    assert_eq!(s.ranged_attack_cooldown_ms, 142);
    assert_eq!(s.ranged_attack_pierce, 5);
    assert_eq!(s.close_attack_damage, 50);
    assert_eq!(h, Health::new(100));
}

#[test]
fn health_upgrade_effects() {
    let mut s = PlayerStats::default();
    let mut h = Health::new(100);
    apply_player_upgrade(&mut s, &mut h, PlayerUpgrade::HealthUpgrade);
    assert_eq!(h.max_hp, 120);
    // The immediate heal is a fifth of the new ceiling, capped at it.
    assert_eq!(h.current_hp, 120);
    assert_eq!(s.end_of_round_heal, 9);
}

#[test]
fn health_upgrade_partial_heal() {
    let mut s = PlayerStats::default();
    let mut h = Health::with_max_and_current(100, 10).unwrap();
    apply_player_upgrade(&mut s, &mut h, PlayerUpgrade::HealthUpgrade);
    assert_eq!(h.max_hp, 120);
    assert_eq!(h.current_hp, 10 + 120 / 5);
}

#[test]
fn speed_upgrade_effects() {
    let mut s = PlayerStats::default();
    let mut h = Health::new(100);
    apply_player_upgrade(&mut s, &mut h, PlayerUpgrade::SpeedUpgrade);
    assert_eq!(s.movement_speed, 150_000 * 115 / 100);
    assert_eq!(s.ranged_attack_speed, 450_000 * 120 / 100);
}

#[test]
fn upgrade_counter_bookkeeping() {
    let mut c = PlayerUpgradeCounter::default();
    c.add_unused();
    c.add_unused();
    assert_eq!(c.unused_upgrades, 2);
    c.add_upgrade(PlayerUpgrade::HealthUpgrade);
    c.add_upgrade(PlayerUpgrade::AttackUpgrade);
    c.add_upgrade(PlayerUpgrade::AttackUpgrade);
    assert_eq!(c.health_upgrades, 1);
    assert_eq!(c.attack_upgrades, 2);
    assert_eq!(c.speed_upgrades, 0);
    c.reset();
    assert_eq!(c, PlayerUpgradeCounter::default());
}
