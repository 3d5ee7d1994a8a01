use circles_infinity::entity::PowerUp;
use circles_infinity::entity::PowerUpType;
use circles_infinity::geom::Position;
use circles_infinity::input::InputSnapshot;
use circles_infinity::phase::GamePhase;
use circles_infinity::phase::Transition;
use circles_infinity::powerup::collect_power_ups;
use circles_infinity::sim::Sim;
use circles_infinity::stats::PlayerWeapon;

#[test]
fn only_the_nine_transitions_exist() {
    let valid = [
        (GamePhase::MainMenu, GamePhase::Running),
        (GamePhase::MainMenu, GamePhase::Guide),
        (GamePhase::Guide, GamePhase::MainMenu),
        (GamePhase::Running, GamePhase::Paused),
        (GamePhase::Running, GamePhase::LoseScreen),
        (GamePhase::Paused, GamePhase::Running),
        (GamePhase::Paused, GamePhase::MainMenu),
        (GamePhase::LoseScreen, GamePhase::Running),
        (GamePhase::LoseScreen, GamePhase::MainMenu),
    ];
    for (from, to) in valid {
        let t = Transition::new(from, to).unwrap();
        assert_eq!(t.from_phase(), from);
        assert_eq!(t.to_phase(), to);
    }
    let invalid = [
        (GamePhase::MainMenu, GamePhase::Paused),
        (GamePhase::MainMenu, GamePhase::LoseScreen),
        (GamePhase::Guide, GamePhase::Running),
        (GamePhase::Guide, GamePhase::Paused),
        (GamePhase::Running, GamePhase::MainMenu),
        (GamePhase::Running, GamePhase::Guide),
        (GamePhase::Paused, GamePhase::LoseScreen),
        (GamePhase::LoseScreen, GamePhase::Guide),
        (GamePhase::MainMenu, GamePhase::MainMenu),
        (GamePhase::Running, GamePhase::Running),
    ];
    for (from, to) in invalid {
        assert!(Transition::new(from, to).is_none());
    }
}

#[test]
fn confirm_on_the_menu_starts_a_fresh_run() {
    let mut sim = Sim::new(3);
    assert_eq!(sim.phase, GamePhase::MainMenu);

    let mut input = InputSnapshot::idle();
    input.confirm = true;
    sim.tick(&input, 16);
    // The request was raised; the next consumption performs the entry.
    sim.consume_transition();

    assert_eq!(sim.phase, GamePhase::Running);
    assert_eq!(sim.wave, 0);
    let player = sim.player.unwrap();
    assert_eq!(player.health.max_hp, 100);
    assert_eq!(player.health.current_hp, 100);
    assert_eq!(player.pos, Position::new(0, 0));
    assert_eq!(sim.upgrades.unused_upgrades, 0);
    assert!(sim.enemies.is_empty());
}

#[test]
fn first_running_tick_spawns_wave_one() {
    let mut sim = Sim::new(3);
    let mut input = InputSnapshot::idle();
    input.confirm = true;
    sim.tick(&input, 16);
    sim.consume_transition();
    let mut player = sim.player.unwrap();
    player.health.set_current_hp(90);
    sim.player = Some(player);

    sim.tick(&InputSnapshot::idle(), 16);

    assert_eq!(sim.wave, 1);
    assert_eq!(sim.enemies.len(), 10);
    assert_eq!(sim.upgrades.unused_upgrades, 1);
    // The per-wave heal restored the configured five points.
    assert_eq!(sim.player.unwrap().health.current_hp, 95);
}

#[test]
fn heal_power_up_restores_a_fifth_of_max() {
    let mut sim = Sim::new(5);
    sim.pending = Transition::new(GamePhase::MainMenu, GamePhase::Running);
    sim.consume_transition();
    let mut player = sim.player.unwrap();
    player.health.set_current_hp(50);
    let mut power_ups = vec![PowerUp {
        kind: PowerUpType::Heal,
        time_since_created_ms: 0,
        pos: Position::new(0, 0),
    }];
    collect_power_ups(&mut player, &mut power_ups);
    assert_eq!(player.health.current_hp, 70);
    assert!(power_ups.is_empty());
}

#[test]
fn heal_power_up_clamps_at_max() {
    let mut sim = Sim::new(5);
    sim.pending = Transition::new(GamePhase::MainMenu, GamePhase::Running);
    sim.consume_transition();
    let mut player = sim.player.unwrap();
    player.health.set_current_hp(95);
    let mut power_ups = vec![PowerUp {
        kind: PowerUpType::Heal,
        time_since_created_ms: 0,
        pos: Position::new(0, 0),
    }];
    collect_power_ups(&mut player, &mut power_ups);
    assert_eq!(player.health.current_hp, 100);
}

#[test]
fn boost_power_up_extends_the_speed_window() {
    let mut sim = Sim::new(5);
    sim.pending = Transition::new(GamePhase::MainMenu, GamePhase::Running);
    sim.consume_transition();
    let mut player = sim.player.unwrap();
    let mut power_ups = vec![PowerUp {
        kind: PowerUpType::Boost,
        time_since_created_ms: 0,
        pos: Position::new(10_000, 0),
    }];
    collect_power_ups(&mut player, &mut power_ups);
    assert_eq!(player.state.boost_time_left_ms, 3000);
    assert!(power_ups.is_empty());
}

#[test]
fn distant_power_up_is_not_collected() {
    let mut sim = Sim::new(5);
    sim.pending = Transition::new(GamePhase::MainMenu, GamePhase::Running);
    sim.consume_transition();
    let mut player = sim.player.unwrap();
    let mut power_ups = vec![PowerUp {
        kind: PowerUpType::Heal,
        time_since_created_ms: 0,
        pos: Position::new(200_000, 0),
    }];
    collect_power_ups(&mut player, &mut power_ups);
    assert_eq!(power_ups.len(), 1);
}

#[test]
fn losing_records_a_new_high_score_only_if_beaten() {
    let mut sim = Sim::new(9);
    sim.pending = Transition::new(GamePhase::MainMenu, GamePhase::Running);
    sim.consume_transition();
    sim.wave = 5;
    sim.high_score = 3;
    sim.pending = Transition::new(GamePhase::Running, GamePhase::LoseScreen);
    sim.consume_transition();
    assert_eq!(sim.phase, GamePhase::LoseScreen);
    assert_eq!(sim.high_score, 5);
    assert!(sim.player.is_none());

    sim.pending = Transition::new(GamePhase::LoseScreen, GamePhase::Running);
    sim.consume_transition();
    sim.wave = 2;
    sim.pending = Transition::new(GamePhase::Running, GamePhase::LoseScreen);
    sim.consume_transition();
    assert_eq!(sim.high_score, 5);
}

#[test]
fn pause_keeps_the_session_and_resume_restores_it() {
    let mut sim = Sim::new(11);
    sim.pending = Transition::new(GamePhase::MainMenu, GamePhase::Running);
    sim.consume_transition();
    sim.tick(&InputSnapshot::idle(), 16);
    assert_eq!(sim.wave, 1);
    let enemies_before = sim.enemies.clone();

    let mut input = InputSnapshot::idle();
    input.escape = true;
    sim.tick(&input, 16);
    sim.consume_transition();
    assert_eq!(sim.phase, GamePhase::Paused);
    assert_eq!(sim.enemies, enemies_before);
    assert_eq!(sim.wave, 1);

    // A paused tick leaves the combat state exactly as it was.
    sim.tick(&InputSnapshot::idle(), 16);
    assert_eq!(sim.enemies, enemies_before);

    let mut resume = InputSnapshot::idle();
    resume.resume = true;
    sim.tick(&resume, 16);
    sim.consume_transition();
    assert_eq!(sim.phase, GamePhase::Running);
    assert_eq!(sim.enemies, enemies_before);
    assert_eq!(sim.wave, 1);
}

#[test]
fn guide_round_trip() {
    let mut sim = Sim::new(13);
    let mut input = InputSnapshot::idle();
    input.guide_key = true;
    sim.tick(&input, 16);
    sim.consume_transition();
    assert_eq!(sim.phase, GamePhase::Guide);

    let mut back = InputSnapshot::idle();
    back.escape = true;
    sim.tick(&back, 16);
    sim.consume_transition();
    assert_eq!(sim.phase, GamePhase::MainMenu);
}

#[test]
fn weapon_switch_restarts_the_ranged_timer() {
    let mut sim = Sim::new(17);
    sim.pending = Transition::new(GamePhase::MainMenu, GamePhase::Running);
    sim.consume_transition();

    let mut input = InputSnapshot::idle();
    input.weapon_right = true;
    sim.handle_running_input(&input);
    let player = sim.player.unwrap();
    assert_eq!(player.state.current_weapon, PlayerWeapon::Burst);
    assert_eq!(player.state.ranged_attack_timer.period_ms, 150 * 180 / 100);
    assert_eq!(player.state.ranged_attack_timer.elapsed_ms, 0);

    let mut left = InputSnapshot::idle();
    left.weapon_left = true;
    sim.handle_running_input(&left);
    let player = sim.player.unwrap();
    assert_eq!(player.state.current_weapon, PlayerWeapon::Normal);
    assert_eq!(player.state.ranged_attack_timer.period_ms, 150 * 120 / 100);
}

#[test]
fn upgrades_cost_one_token_and_are_ignored_broke() {
    let mut sim = Sim::new(19);
    sim.pending = Transition::new(GamePhase::MainMenu, GamePhase::Running);
    sim.consume_transition();

    // Without a token the selection is ignored.
    let mut input = InputSnapshot::idle();
    input.pick_attack_upgrade = true;
    sim.handle_running_input(&input);
    assert_eq!(sim.player.unwrap().stats.ranged_attack_damage, 6);

    sim.upgrades.add_unused();
    sim.handle_running_input(&input);
    assert_eq!(sim.upgrades.unused_upgrades, 0);
    assert_eq!(sim.upgrades.attack_upgrades, 1);
    let stats = sim.player.unwrap().stats;
    assert_eq!(stats.ranged_attack_damage, 8);
    assert_eq!(stats.ranged_attack_pierce, 5);
}

#[test]
fn entropy_seeded_simulation_starts_on_the_menu() {
    let sim = Sim::from_entropy();
    assert_eq!(sim.phase, GamePhase::MainMenu);
    assert!(sim.pending.is_none());
    assert_eq!(sim.wave, 0);
    assert_eq!(sim.high_score, 0);
    assert!(sim.player.is_none());
}

#[test]
fn death_check_raises_the_lose_request_exactly_at_zero() {
    let mut sim = Sim::new(29);
    sim.pending = Transition::new(GamePhase::MainMenu, GamePhase::Running);
    sim.consume_transition();

    sim.check_and_resolve_player_death();
    assert!(sim.pending.is_none());

    let mut player = sim.player.unwrap();
    player.health.set_current_hp(0);
    sim.player = Some(player);
    sim.check_and_resolve_player_death();
    let pending = sim.pending.unwrap();
    assert_eq!(pending.from_phase(), GamePhase::Running);
    assert_eq!(pending.to_phase(), GamePhase::LoseScreen);
}

#[test]
fn identical_seeds_replay_identically() {
    let mut a = Sim::new(42);
    let mut b = Sim::new(42);
    let mut confirm = InputSnapshot::idle();
    confirm.confirm = true;
    a.tick(&confirm, 16);
    b.tick(&confirm, 16);
    for _ in 0..5 {
        a.tick(&InputSnapshot::idle(), 16);
        b.tick(&InputSnapshot::idle(), 16);
    }
    assert_eq!(a.phase, b.phase);
    assert_eq!(a.wave, b.wave);
    assert_eq!(a.enemies, b.enemies);
    assert_eq!(a.rng, b.rng);
}

#[test]
fn player_death_raises_the_lose_transition_that_tick() {
    let mut sim = Sim::new(23);
    sim.pending = Transition::new(GamePhase::MainMenu, GamePhase::Running);
    sim.consume_transition();
    let mut player = sim.player.unwrap();
    player.health.set_current_hp(1);
    sim.player = Some(player);
    // An enemy already in melee reach with an elapsed timer kills this tick.
    let stats = circles_infinity::entity::EnemyStats::new(50, 1000, 0, 1500, 200_000, 75_000);
    let mut state = circles_infinity::entity::EnemyState::from_enemy_stats(stats);
    state.close_attack_timer = circles_infinity::timer::Cooldown::with_elapsed(1000, 1000);
    sim.enemies.push(circles_infinity::entity::Enemy {
        id: circles_infinity::entity::EntityId { raw: 99 },
        pos: Position::new(40_000, 0),
        health: circles_infinity::health::Health::new(1000),
        stats,
        state,
    });

    sim.tick(&InputSnapshot::idle(), 16);

    let pending = sim.pending.unwrap();
    assert_eq!(pending.from_phase(), GamePhase::Running);
    assert_eq!(pending.to_phase(), GamePhase::LoseScreen);

    sim.tick(&InputSnapshot::idle(), 16);
    assert_eq!(sim.phase, GamePhase::LoseScreen);
    assert!(sim.player.is_none());
}
