use circles_infinity::combat::do_splashes;
use circles_infinity::combat::enemy_update_and_attack;
use circles_infinity::combat::handle_residue;
use circles_infinity::combat::move_projectiles;
use circles_infinity::combat::player_melee_attack;
use circles_infinity::combat::player_ranged_attack;
use circles_infinity::combat::remove_dead_enemies;
use circles_infinity::combat::resolve_enemy_projectiles;
use circles_infinity::combat::resolve_player_projectiles;
use circles_infinity::combat::update_player;
use circles_infinity::entity::Enemy;
use circles_infinity::entity::EnemyState;
use circles_infinity::entity::EnemyStats;
use circles_infinity::entity::EntityId;
use circles_infinity::entity::Player;
use circles_infinity::entity::Projectile;
use circles_infinity::entity::Velocity;
use circles_infinity::geom::BASE_PROJECTILE_RADIUS;
use circles_infinity::geom::Position;
use circles_infinity::health::Health;
use circles_infinity::input::InputSnapshot;
use circles_infinity::stats::PlayerWeapon;
use circles_infinity::timer::Cooldown;

fn enemy_at(id: u64, x: i64, y: i64, hp: u64, melee_damage: u64) -> Enemy {
    let stats = EnemyStats::new(melee_damage, 1000, 0, 1500, 200_000, 75_000);
    Enemy {
        id: EntityId { raw: id },
        pos: Position::new(x, y),
        health: Health::new(hp),
        stats,
        state: EnemyState::from_enemy_stats(stats),
    }
}

fn projectile_at(x: i64, y: i64, damage: u64, pierce: u64, last: u64) -> Projectile {
    Projectile {
        damage,
        velocity: Velocity { vx: 0, vy: 0 },
        location: Position::new(x, y),
        radius: BASE_PROJECTILE_RADIUS,
        pierce_left: pierce,
        last_entity_hit: EntityId { raw: last },
        splash: None,
    }
}

#[test]
fn projectile_hit_consumes_at_zero_pierce() {
    let mut enemies = vec![enemy_at(1, 0, 0, 26, 9)];
    let mut projectiles = vec![projectile_at(0, 0, 6, 0, 0)];
    let mut residuals = Vec::new();
    resolve_player_projectiles(&mut enemies, &mut projectiles, &mut residuals);
    assert_eq!(enemies[0].health.current_hp, 20);
    assert!(projectiles.is_empty());
    assert!(residuals.is_empty());
}

#[test]
fn pierce_limits_hits_to_pierce_plus_one() {
    // Three enemies all overlap the projectile, but pierce one allows only
    // two hits before the projectile is consumed.
    let mut enemies = vec![
        enemy_at(1, 0, 0, 26, 9),
        enemy_at(2, 10_000, 0, 26, 9),
        enemy_at(3, -10_000, 0, 26, 9),
    ];
    let mut projectiles = vec![projectile_at(0, 0, 6, 1, 0)];
    let mut residuals = Vec::new();
    resolve_player_projectiles(&mut enemies, &mut projectiles, &mut residuals);
    assert_eq!(enemies[0].health.current_hp, 20);
    assert_eq!(enemies[1].health.current_hp, 20);
    assert_eq!(enemies[2].health.current_hp, 26);
    assert!(projectiles.is_empty());
}

#[test]
fn last_entity_hit_blocks_immediate_rehit() {
    let mut enemies = vec![enemy_at(7, 0, 0, 26, 9)];
    let mut projectiles = vec![projectile_at(0, 0, 6, 2, 7)];
    let mut residuals = Vec::new();
    resolve_player_projectiles(&mut enemies, &mut projectiles, &mut residuals);
    assert_eq!(enemies[0].health.current_hp, 26);
    assert_eq!(projectiles.len(), 1);
    assert_eq!(projectiles[0].pierce_left, 2);
}

#[test]
fn enemy_melee_applies_once_per_elapsed_timer() {
    let mut player = Player::spawn();
    let mut enemies = vec![enemy_at(1, 50_000, 0, 26, 9)];
    enemies[0].state.close_attack_timer = Cooldown::with_elapsed(1000, 1000);
    let mut spawned = Vec::new();
    enemy_update_and_attack(&mut player, &mut enemies, &mut spawned, 16);
    // Exactly one melee application and a timer reset this tick.
    assert_eq!(player.health.current_hp, 91);
    assert_eq!(enemies[0].state.close_attack_timer.elapsed_ms, 0);
    // The next tick finds the timer far from elapsed: no second hit.
    enemy_update_and_attack(&mut player, &mut enemies, &mut spawned, 16);
    assert_eq!(player.health.current_hp, 91);
    assert!(spawned.is_empty());
}

#[test]
fn enemy_out_of_reach_does_not_attack() {
    let mut player = Player::spawn();
    let mut enemies = vec![enemy_at(1, 400_000, 0, 9, 9)];
    enemies[0].state.close_attack_timer = Cooldown::with_elapsed(1000, 1000);
    let mut spawned = Vec::new();
    enemy_update_and_attack(&mut player, &mut enemies, &mut spawned, 16);
    assert_eq!(player.health.current_hp, 100);
    // The enemy chased the player: 75 units/s over 16 ms.
    assert_eq!(enemies[0].pos.x, 400_000 - 75_000 * 16 / 1000);
    assert_eq!(enemies[0].pos.y, 0);
}

#[test]
fn ranged_enemy_fires_at_the_player() {
    let mut player = Player::spawn();
    let stats = EnemyStats::new(9, 1000, 4, 1500, 200_000, 75_000);
    let mut e = Enemy {
        id: EntityId { raw: 5 },
        pos: Position::new(300_000, 0),
        health: Health::new(26),
        stats,
        state: EnemyState::from_enemy_stats(stats),
    };
    e.state.ranged_attack_timer = Cooldown::with_elapsed(1500, 1500);
    let mut enemies = vec![e];
    let mut spawned = Vec::new();
    enemy_update_and_attack(&mut player, &mut enemies, &mut spawned, 16);
    assert_eq!(spawned.len(), 1);
    let shot = spawned[0];
    assert_eq!(shot.damage, 4);
    // Fired straight at the player: leftward at the enemy's shot speed.
    assert_eq!(shot.velocity.vx, -200_000);
    assert_eq!(shot.velocity.vy, 0);
    assert_eq!(shot.pierce_left, 1);
    assert_eq!(shot.last_entity_hit, EntityId { raw: 5 });
    assert_eq!(enemies[0].state.ranged_attack_timer.elapsed_ms, 0);
}

#[test]
fn player_melee_strikes_first_enemy_in_reach() {
    let mut player = Player::spawn();
    player.state.close_attack_timer = Cooldown::with_elapsed(1000, 1000);
    let mut enemies = vec![
        enemy_at(1, 500_000, 0, 60, 9),
        enemy_at(2, 60_000, 0, 60, 9),
        enemy_at(3, 30_000, 0, 60, 9),
    ];
    player_melee_attack(&mut player, &mut enemies, 16);
    assert_eq!(enemies[0].health.current_hp, 60);
    assert_eq!(enemies[1].health.current_hp, 20);
    assert_eq!(enemies[2].health.current_hp, 60);
    assert_eq!(player.state.close_attack_timer.elapsed_ms, 0);
}

#[test]
fn projectiles_move_with_their_velocity() {
    let mut projectiles = vec![Projectile {
        velocity: Velocity { vx: 1_000_000, vy: -500_000 },
        ..projectile_at(0, 0, 6, 0, 0)
    }];
    move_projectiles(&mut projectiles, Position::new(0, 0), 1000);
    assert_eq!(projectiles[0].location, Position::new(1_000_000, -500_000));
}

#[test]
fn far_projectiles_are_culled() {
    let mut projectiles = vec![
        projectile_at(2_500_000, 0, 6, 0, 0),
        projectile_at(0, 100_000, 6, 0, 0),
    ];
    move_projectiles(&mut projectiles, Position::new(0, 0), 16);
    assert_eq!(projectiles.len(), 1);
    assert_eq!(projectiles[0].location.y, 100_000);
}

#[test]
fn enemy_projectile_damages_player_strictly_within_reach() {
    let mut player = Player::spawn();
    let mut projectiles = vec![
        projectile_at(64_999, 0, 12, 1, 5),
        projectile_at(65_000, 0, 12, 1, 5),
    ];
    resolve_enemy_projectiles(&mut player, &mut projectiles);
    // The first is strictly within the 65-unit reach and is consumed; the
    // second sits exactly on the boundary and stays.
    assert_eq!(player.health.current_hp, 88);
    assert_eq!(projectiles.len(), 1);
    assert_eq!(projectiles[0].location.x, 65_000);
}

#[test]
fn splash_projectile_leaves_a_pulse_that_fires_once() {
    let mut enemies = vec![
        enemy_at(1, 0, 0, 60, 9),
        enemy_at(2, 100_000, 0, 60, 9),
    ];
    let mut projectiles = vec![Projectile {
        radius: BASE_PROJECTILE_RADIUS * 17 / 10,
        splash: Some(circles_infinity::entity::SplashStats { damage: 22, range: 100_000 }),
        ..projectile_at(0, 0, 8, 0, 0)
    }];
    let mut residuals = Vec::new();
    resolve_player_projectiles(&mut enemies, &mut projectiles, &mut residuals);
    assert_eq!(enemies[0].health.current_hp, 52);
    assert!(projectiles.is_empty());
    assert_eq!(residuals.len(), 1);
    assert_eq!(residuals[0].damage, 22);
    assert_eq!(residuals[0].radius, 100_000);

    let mut residue = Vec::new();
    do_splashes(&mut enemies, &mut residuals, &mut residue);
    // Both enemies sit within the pulse's reach and take its damage once.
    assert_eq!(enemies[0].health.current_hp, 30);
    assert_eq!(enemies[1].health.current_hp, 38);
    assert!(residuals.is_empty());
    assert_eq!(residue.len(), 1);

    handle_residue(&mut residue, 400);
    assert_eq!(residue.len(), 1);
    handle_residue(&mut residue, 100);
    assert!(residue.is_empty());
}

#[test]
fn dead_enemies_are_removed_in_order() {
    let mut enemies = vec![
        enemy_at(1, 0, 0, 5, 9),
        enemy_at(2, 10_000, 0, 5, 9),
        enemy_at(3, 20_000, 0, 5, 9),
    ];
    enemies[0].health.set_current_hp(0);
    enemies[2].health.set_current_hp(0);
    remove_dead_enemies(&mut enemies);
    assert_eq!(enemies.len(), 1);
    assert_eq!(enemies[0].id, EntityId { raw: 2 });
}

#[test]
fn player_moves_by_held_keys() {
    let mut player = Player::spawn();
    update_player(&mut player, false, false, false, true, 1000);
    assert_eq!(player.pos, Position::new(150_000, 0));
    update_player(&mut player, true, false, false, true, 1000);
    // Diagonal movement is scaled by the fixed-point reciprocal root of 2.
    assert_eq!(player.pos, Position::new(150_000 + 106_050, 106_050));
}

#[test]
fn boost_doubles_movement_while_it_lasts() {
    let mut player = Player::spawn();
    player.state.boost_time_left_ms = 2000;
    update_player(&mut player, false, false, true, false, 1000);
    assert_eq!(player.pos.x, -300_000);
    assert_eq!(player.state.boost_time_left_ms, 1000);
    update_player(&mut player, false, false, true, false, 1000);
    // The boost expired as this tick's delta elapsed.
    assert_eq!(player.pos.x, -450_000);
    assert_eq!(player.state.boost_time_left_ms, 0);
}

#[test]
fn ranged_attack_normal_mode() {
    let mut player = Player::spawn();
    player.state.ranged_attack_timer = Cooldown::with_elapsed(150, 150);
    let mut projectiles = Vec::new();
    let mut input = InputSnapshot::idle();
    input.fire = true;
    input.aim_valid = true;
    input.aim_x = 100_000;
    input.aim_y = 0;
    player_ranged_attack(&mut player, &mut projectiles, &input);
    assert_eq!(projectiles.len(), 1);
    let shot = projectiles[0];
    assert_eq!(shot.damage, 3);
    assert_eq!(shot.velocity, Velocity { vx: 382_500, vy: 0 });
    assert_eq!(shot.pierce_left, 4);
    assert_eq!(shot.radius, BASE_PROJECTILE_RADIUS);
    assert!(shot.splash.is_none());
    assert_eq!(player.state.ranged_attack_timer.elapsed_ms, 0);
}

#[test]
fn ranged_attack_waits_for_the_cooldown() {
    let mut player = Player::spawn();
    let mut projectiles = Vec::new();
    let mut input = InputSnapshot::idle();
    input.fire = true;
    input.aim_valid = true;
    input.aim_x = 100_000;
    player_ranged_attack(&mut player, &mut projectiles, &input);
    assert!(projectiles.is_empty());
}

#[test]
fn ranged_attack_burst_mode_fans_out() {
    let mut player = Player::spawn();
    player.state.current_weapon = PlayerWeapon::Burst;
    player.state.ranged_attack_timer = Cooldown::with_elapsed(150, 150);
    let mut projectiles = Vec::new();
    let mut input = InputSnapshot::idle();
    input.fire = true;
    input.aim_valid = true;
    input.aim_x = 50_000;
    input.aim_y = 0;
    player_ranged_attack(&mut player, &mut projectiles, &input);
    assert_eq!(projectiles.len(), 5);
    // The middle shot of the fan flies straight along the aim.
    let middle = projectiles[2];
    assert_eq!(middle.velocity, Velocity { vx: 540_000, vy: 0 });
    assert_eq!(middle.damage, (6 * 4 + 3) / 6);
    assert_eq!(middle.pierce_left, 2);
    assert_eq!(middle.radius, BASE_PROJECTILE_RADIUS / 2);
    // The outer shots are rotated off the aim axis.
    assert!(projectiles[0].velocity.vy < 0 || projectiles[4].velocity.vy < 0);
    assert!(projectiles[0].velocity.vy != projectiles[4].velocity.vy);
}

#[test]
fn ranged_attack_splash_mode() {
    let mut player = Player::spawn();
    player.state.current_weapon = PlayerWeapon::Splash;
    player.state.ranged_attack_timer = Cooldown::with_elapsed(150, 150);
    let mut projectiles = Vec::new();
    let mut input = InputSnapshot::idle();
    input.fire = true;
    input.aim_valid = true;
    input.aim_x = 0;
    input.aim_y = -80_000;
    player_ranged_attack(&mut player, &mut projectiles, &input);
    assert_eq!(projectiles.len(), 1);
    let shot = projectiles[0];
    assert_eq!(shot.damage, 8);
    assert_eq!(shot.pierce_left, 0);
    assert_eq!(shot.radius, BASE_PROJECTILE_RADIUS * 17 / 10);
    let splash = shot.splash.unwrap();
    assert_eq!(splash.damage, 6 * 22 / 10);
    assert_eq!(splash.range, 100_000);
    assert_eq!(shot.velocity, Velocity { vx: 0, vy: -900_000 });
}
