use circles_infinity::geom::Position;
use circles_infinity::geom::WORLD_BOUND;
use circles_infinity::geom::isqrt;
use circles_infinity::geom::touches;
use circles_infinity::geom::touches_strictly;
use circles_infinity::powerup::power_up_radius;
use circles_infinity::timer::Cooldown;

#[test]
fn distance_of_three_four_five_triangle() {
    let a = Position::new(0, 0);
    let b = Position::new(3000, 4000);
    assert_eq!(a.distance_squared(&b), 25_000_000);
    assert_eq!(a.distance(&b), 5000);
}

#[test]
fn isqrt_edges() {
    assert_eq!(isqrt(0), 0);
    assert_eq!(isqrt(1), 1);
    assert_eq!(isqrt(3), 1);
    assert_eq!(isqrt(4), 2);
    assert_eq!(isqrt(24), 4);
    assert_eq!(isqrt(25), 5);
    assert_eq!(isqrt(u64::MAX), 4_294_967_295);
}

#[test]
fn touches_is_inclusive() {
    let a = Position::new(0, 0);
    let b = Position::new(90_000, 0);
    assert!(touches(a, b, 90_000));
    assert!(!touches_strictly(a, b, 90_000));
    assert!(touches_strictly(a, b, 90_001));
    assert!(!touches(a, b, 89_999));
}

#[test]
fn touches_far_apart_rejected() {
    let a = Position::new(-500_000, 200_000);
    let b = Position::new(500_000, -300_000);
    assert!(!touches(a, b, 100_000));
}

#[test]
fn position_arithmetic() {
    let a = Position::new(10, -20);
    let b = Position::new(3, 4);
    assert_eq!(a.add(b), Position::new(13, -16));
    assert_eq!(a.sub(b), Position::new(7, -24));
    assert_eq!(b.mul(-5), Position::new(-15, -20));
}

#[test]
fn clamped_stays_inside_the_arena() {
    let p = Position::new(WORLD_BOUND + 5, -WORLD_BOUND - 7).clamped();
    assert_eq!(p, Position::new(WORLD_BOUND, -WORLD_BOUND));
    let q = Position::new(12, 34).clamped();
    assert_eq!(q, Position::new(12, 34));
}

#[test]
fn cooldown_accumulates_and_consumes() {
    let mut c = Cooldown::new(100);
    assert!(!c.ready());
    c.tick(60);
    assert!(!c.ready());
    c.tick(60);
    assert_eq!(c.elapsed_ms, 100);
    assert!(c.ready());
    c.consume();
    assert_eq!(c.elapsed_ms, 0);
    assert!(!c.ready());
}

#[test]
fn cooldown_try_consume_fires_once_per_period() {
    let mut c = Cooldown::new(100);
    assert!(!c.try_consume(99));
    assert!(c.try_consume(1));
    assert_eq!(c.elapsed_ms, 0);
    assert!(!c.try_consume(99));
}

#[test]
fn power_up_radius_oscillates_within_bounds() {
    assert_eq!(power_up_radius(0), 15_000);
    assert_eq!(power_up_radius(314), 18_000);
    assert_eq!(power_up_radius(942), 12_000);
    let mut t: u32 = 0;
    while t < 5000 {
        let r = power_up_radius(t);
        assert!(12_000 <= r && r <= 18_000);
        t += 37;
    }
}
