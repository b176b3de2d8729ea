use rusty_poke::stats::{damage, CombatStats};

#[test]
fn damage_is_attack_minus_defense() {
    assert_eq!(damage(5, 2), 3);
    assert_eq!(damage(10, 0), 10);
}

#[test]
fn damage_is_floored_at_zero() {
    assert_eq!(damage(1, 1), 0);
    assert_eq!(damage(0, 0), 0);
    assert_eq!(damage(2, 7), 0);
}

#[test]
fn new_stats_start_at_full_health() {
    let s = CombatStats::new(5, 1, 1);
    assert_eq!(s.hp, 5);
    assert_eq!(s.max_hp, 5);
    assert_eq!(s.attack, 1);
    assert_eq!(s.defense, 1);
}

#[test]
fn take_damage_subtracts_the_floored_difference() {
    let mut s = CombatStats::new(5, 1, 2);
    s.take_damage(5);
    assert_eq!(s.hp, 2);
    s.take_damage(1);
    assert_eq!(s.hp, 2);
    s.take_damage(7);
    assert_eq!(s.hp, -3);
    assert_eq!(s.max_hp, 5);
}
