use circles_infinity::entity::Player;
use circles_infinity::geom::WORLD_BOUND;
use circles_infinity::rng::Rng;
use circles_infinity::stats::PlayerUpgradeCounter;
use circles_infinity::wave::enemies_to_spawn;
use circles_infinity::wave::enemy_melee_cooldown;
use circles_infinity::wave::enemy_ranged_damage_for_rolls;
use circles_infinity::wave::enemy_speed;
use circles_infinity::wave::growth_factor_milli;
use circles_infinity::wave::spawn_wave_if_no_enemies;

#[test]
fn enemy_count_follows_the_wave_formula() {
    assert_eq!(enemies_to_spawn(1), 10);
    assert_eq!(enemies_to_spawn(2), 12);
    assert_eq!(enemies_to_spawn(7), 22);
    assert_eq!(enemies_to_spawn(100), 208);
}

#[test]
fn melee_cooldown_decays_multiplicatively() {
    assert_eq!(enemy_melee_cooldown(1), 1000);
    assert_eq!(enemy_melee_cooldown(2), 950);
    assert_eq!(enemy_melee_cooldown(3), 902);
    assert_eq!(enemy_melee_cooldown(4), 856);
}

#[test]
fn growth_factor_compounds() {
    assert_eq!(growth_factor_milli(0), 1000);
    assert_eq!(growth_factor_milli(1), 1050);
    assert_eq!(growth_factor_milli(2), 1102);
    assert_eq!(growth_factor_milli(3), 1157);
}

#[test]
fn enemy_speeds_scale_with_the_wave() {
    assert_eq!(enemy_speed(75_000, 1), 78_750);
    assert_eq!(enemy_speed(200_000, 1), 210_000);
    assert_eq!(enemy_speed(200_000, 2), 220_400);
}

#[test]
fn early_waves_never_have_ranged_enemies() {
    for roll in [0u64, 500, 999] {
        assert_eq!(enemy_ranged_damage_for_rolls(1, roll, roll, roll), 0);
        assert_eq!(enemy_ranged_damage_for_rolls(4, roll, roll, roll), 0);
    }
}

#[test]
fn transitional_band_is_probabilistic() {
    // In the ten-to-twenty band both gate rolls must pass.
    assert_eq!(enemy_ranged_damage_for_rolls(15, 0, 799, 999), 0);
    assert_eq!(enemy_ranged_damage_for_rolls(15, 0, 800, 599), 0);
    assert_eq!(enemy_ranged_damage_for_rolls(15, 0, 800, 600), 10);
}

#[test]
fn late_waves_always_have_ranged_enemies() {
    for roll in [0u64, 500, 999] {
        assert_eq!(enemy_ranged_damage_for_rolls(25, roll, roll, roll), 40);
    }
    assert!(enemy_ranged_damage_for_rolls(21, 0, 0, 0) > 0);
}

#[test]
fn wave_spawn_populates_the_arena() {
    let mut wave: u32 = 0;
    let mut upgrades = PlayerUpgradeCounter::default();
    let mut player = Player::spawn();
    player.health.set_current_hp(90);
    let mut enemies = Vec::new();
    let mut next_id: u64 = 1;
    let mut rng = Rng::new(42);

    spawn_wave_if_no_enemies(&mut wave, &mut upgrades, &mut player, &mut enemies,
        &mut next_id, &mut rng);

    assert_eq!(wave, 1);
    assert_eq!(upgrades.unused_upgrades, 1);
    // The per-wave heal restored the player's configured amount.
    assert_eq!(player.health.current_hp, 95);
    assert_eq!(enemies.len(), 10);
    assert_eq!(next_id, 11);
    for (i, e) in enemies.iter().enumerate() {
        assert_eq!(e.id.raw, 1 + i as u64);
        assert_eq!(e.health.max_hp, 26);
        assert_eq!(e.health.current_hp, 26);
        assert_eq!(e.stats.close_attack_damage, 10);
        assert_eq!(e.stats.close_attack_cooldown_ms, 1000);
        assert_eq!(e.stats.ranged_attack_damage, 0);
        assert_eq!(e.stats.ranged_attack_cooldown_ms, 1500);
        assert_eq!(e.stats.ranged_attack_speed, 210_000);
        assert_eq!(e.stats.movement_speed, 78_750);
        assert!(e.pos.x.abs() <= WORLD_BOUND && e.pos.y.abs() <= WORLD_BOUND);
        // Spawns land on the annulus: no further than the wave's reach on
        // each axis, no closer than the inner margin of 400 units.
        assert!((e.pos.x - player.pos.x).abs() <= 820_000);
        assert!((e.pos.y - player.pos.y).abs() <= 820_000);
        let dx = e.pos.x - player.pos.x;
        let dy = e.pos.y - player.pos.y;
        let inner = 400_000 * 998 / 1000 - 2;
        assert!(dx * dx + dy * dy >= inner * inner);
        // Attack timers are pre-seeded strictly inside their periods.
        assert!(e.state.close_attack_timer.elapsed_ms < e.state.close_attack_timer.period_ms);
        assert!(e.state.ranged_attack_timer.elapsed_ms < e.state.ranged_attack_timer.period_ms);
    }
}

#[test]
fn wave_spawn_waits_for_a_clear_arena() {
    let mut wave: u32 = 3;
    let mut upgrades = PlayerUpgradeCounter::default();
    let mut player = Player::spawn();
    let mut enemies = Vec::new();
    let mut next_id: u64 = 1;
    let mut rng = Rng::new(7);
    spawn_wave_if_no_enemies(&mut wave, &mut upgrades, &mut player, &mut enemies,
        &mut next_id, &mut rng);
    assert_eq!(wave, 4);
    let live_before = enemies.len();

    // With enemies still alive, a second tick changes nothing.
    spawn_wave_if_no_enemies(&mut wave, &mut upgrades, &mut player, &mut enemies,
        &mut next_id, &mut rng);
    assert_eq!(wave, 4);
    assert_eq!(enemies.len(), live_before);
    assert_eq!(upgrades.unused_upgrades, 1);
}

#[test]
fn wave_spawns_are_seed_deterministic() {
    let mut wave_a: u32 = 0;
    let mut upgrades_a = PlayerUpgradeCounter::default();
    let mut player_a = Player::spawn();
    let mut enemies_a = Vec::new();
    let mut next_a: u64 = 1;
    let mut rng_a = Rng::new(1234);
    spawn_wave_if_no_enemies(&mut wave_a, &mut upgrades_a, &mut player_a, &mut enemies_a,
        &mut next_a, &mut rng_a);

    let mut wave_b: u32 = 0;
    let mut upgrades_b = PlayerUpgradeCounter::default();
    let mut player_b = Player::spawn();
    let mut enemies_b = Vec::new();
    let mut next_b: u64 = 1;
    let mut rng_b = Rng::new(1234);
    spawn_wave_if_no_enemies(&mut wave_b, &mut upgrades_b, &mut player_b, &mut enemies_b,
        &mut next_b, &mut rng_b);

    assert_eq!(enemies_a, enemies_b);
    assert_eq!(rng_a, rng_b);
}
