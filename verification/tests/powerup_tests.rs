use circles_infinity::entity::PowerUp;
use circles_infinity::geom::Position;
use circles_infinity::powerup::POWER_UP_SPAWN_PERIOD_MS;
use circles_infinity::powerup::create_power_ups;
use circles_infinity::powerup::update_power_ups;
use circles_infinity::rng::Rng;
use circles_infinity::timer::Cooldown;

fn dist_sq(a: Position, b: Position) -> i64 {
    let dx = a.x - b.x;
    let dy = a.y - b.y;
    dx * dx + dy * dy
}

#[test]
fn power_up_spawns_on_the_annulus() {
    let player = Position::new(1_000_000, -2_000_000);
    let mut timer = Cooldown::with_elapsed(POWER_UP_SPAWN_PERIOD_MS, POWER_UP_SPAWN_PERIOD_MS);
    let mut power_ups: Vec<PowerUp> = Vec::new();
    let mut rng = Rng::new(77);
    create_power_ups(&mut timer, &mut power_ups, player, &mut rng, 16);

    assert_eq!(power_ups.len(), 1);
    let dropped = power_ups[0];
    assert_eq!(dropped.time_since_created_ms, 0);
    // Within the outer radius on each axis, and no closer than the inner
    // margin of the 300-unit inner radius.
    assert!((dropped.pos.x - player.x).abs() <= 800_000);
    assert!((dropped.pos.y - player.y).abs() <= 800_000);
    let inner = 300_000 * 998 / 1000 - 2;
    assert!(dist_sq(dropped.pos, player) >= inner * inner);
    assert_eq!(timer.elapsed_ms, 0);
}

#[test]
fn power_up_spawn_waits_for_the_timer() {
    let player = Position::new(0, 0);
    let mut timer = Cooldown::new(POWER_UP_SPAWN_PERIOD_MS);
    let mut power_ups: Vec<PowerUp> = Vec::new();
    let mut rng = Rng::new(77);
    create_power_ups(&mut timer, &mut power_ups, player, &mut rng, 16);
    assert!(power_ups.is_empty());
    assert_eq!(timer.elapsed_ms, 16);
    assert_eq!(rng, Rng::new(77));
}

#[test]
fn power_up_spawns_are_seed_deterministic() {
    let player = Position::new(0, 0);
    let mut spawned = Vec::new();
    for _ in 0..2 {
        let mut timer = Cooldown::with_elapsed(POWER_UP_SPAWN_PERIOD_MS,
            POWER_UP_SPAWN_PERIOD_MS);
        let mut power_ups: Vec<PowerUp> = Vec::new();
        let mut rng = Rng::new(4242);
        create_power_ups(&mut timer, &mut power_ups, player, &mut rng, 16);
        spawned.push((power_ups[0], rng));
    }
    assert_eq!(spawned[0].0.kind, spawned[1].0.kind);
    assert_eq!(spawned[0].0.pos, spawned[1].0.pos);
    assert_eq!(spawned[0].1, spawned[1].1);
}

#[test]
fn power_up_ages_with_the_frame_delta() {
    let mut power_ups = vec![PowerUp {
        kind: circles_infinity::entity::PowerUpType::Heal,
        time_since_created_ms: 100,
        pos: Position::new(0, 0),
    }];
    update_power_ups(&mut power_ups, 250);
    assert_eq!(power_ups[0].time_since_created_ms, 350);
}
