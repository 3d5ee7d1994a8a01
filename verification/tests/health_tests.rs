use circles_infinity::health::Health;

#[test]
fn new_starts_full() {
    let h = Health::new(100);
    assert_eq!(h.max_health(), 100);
    assert_eq!(h.current_health(), 100);
}

#[test]
fn with_max_and_current_accepts_within_bounds() {
    let h = Health::with_max_and_current(100, 40).unwrap();
    assert_eq!(h.max_hp, 100);
    assert_eq!(h.current_hp, 40);
    assert!(Health::with_max_and_current(50, 50).is_some());
}

#[test]
fn with_max_and_current_rejects_overfull() {
    assert!(Health::with_max_and_current(100, 101).is_none());
    assert!(Health::with_max_and_current(0, 1).is_none());
}

#[test]
fn heal_caps_at_max() {
    let mut h = Health::with_max_and_current(100, 95).unwrap();
    h.heal(10);
    assert_eq!(h.current_hp, 100);
    assert_eq!(h.max_hp, 100);
}

#[test]
fn heal_below_cap_adds_exactly() {
    let mut h = Health::with_max_and_current(100, 40).unwrap();
    h.heal(10);
    assert_eq!(h.current_hp, 50);
}

#[test]
fn heal_huge_amount_still_caps() {
    let mut h = Health::with_max_and_current(100, 1).unwrap();
    h.heal(u64::MAX);
    assert_eq!(h.current_hp, 100);
}

#[test]
fn add_health_ignores_cap() {
    let mut h = Health::new(100);
    h.add_health(50);
    assert_eq!(h.current_hp, 150);
    assert_eq!(h.max_hp, 100);
}

#[test]
fn damage_reports_death_exactly_at_zero() {
    let mut h = Health::new(30);
    assert!(!h.damage(29));
    assert_eq!(h.current_hp, 1);
    assert!(h.damage(1));
    assert_eq!(h.current_hp, 0);
}

#[test]
fn damage_clamps_at_zero() {
    let mut h = Health::new(30);
    assert!(h.damage(1000));
    assert_eq!(h.current_hp, 0);
    assert_eq!(h.max_hp, 30);
}

#[test]
fn damage_on_empty_health_is_death() {
    let mut h = Health::with_max_and_current(30, 0).unwrap();
    assert!(h.damage(0));
    assert_eq!(h.current_hp, 0);
}

#[test]
fn reduce_max_hp_clamps_current_down() {
    let mut h = Health::with_max_and_current(100, 90).unwrap();
    assert!(!h.reduce_max_hp(30));
    assert_eq!(h.max_hp, 70);
    assert_eq!(h.current_hp, 70);
}

#[test]
fn reduce_max_hp_leaves_smaller_current() {
    let mut h = Health::with_max_and_current(100, 20).unwrap();
    assert!(!h.reduce_max_hp(30));
    assert_eq!(h.max_hp, 70);
    assert_eq!(h.current_hp, 20);
}

#[test]
fn reduce_max_hp_to_zero_empties_both() {
    let mut h = Health::new(40);
    assert!(h.reduce_max_hp(40));
    assert_eq!(h.max_hp, 0);
    assert_eq!(h.current_hp, 0);
}

#[test]
fn remove_max_hp_never_touches_current() {
    let mut h = Health::with_max_and_current(100, 80).unwrap();
    assert!(!h.remove_max_hp(50));
    assert_eq!(h.max_hp, 50);
    assert_eq!(h.current_hp, 80);
    assert!(h.remove_max_hp(60));
    assert_eq!(h.max_hp, 0);
    assert_eq!(h.current_hp, 80);
}

#[test]
fn setters_and_swaps() {
    let mut h = Health::new(100);
    h.set_max_hp(200);
    assert_eq!(h.max_hp, 200);
    h.set_current_hp(10);
    assert_eq!(h.current_hp, 10);
    assert_eq!(h.swap_max_hp(300), 200);
    assert_eq!(h.max_hp, 300);
    assert_eq!(h.swap_current_hp(25), 10);
    assert_eq!(h.current_hp, 25);
}
