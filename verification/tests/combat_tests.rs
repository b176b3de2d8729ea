use rusty_poke::combat::{
    combat_input, end_combat, enemy_for_roll, force_end_combat, process_combat, spawn_enemy,
    Combatant, CombatEvent, EnemySpecies, Entity,
};
use rusty_poke::state::{AppState, StateStack, Transition};
use rusty_poke::stats::CombatStats;

#[test]
fn spawned_enemies_share_stats_and_match_their_sprite() {
    for _ in 0..30 {
        let e = spawn_enemy();
        assert_eq!(e.stats, CombatStats { hp: 5, max_hp: 5, attack: 1, defense: 1 });
        let expected_sprite = match e.species {
            EnemySpecies::Rat => 16,
            EnemySpecies::Snake => 17,
            EnemySpecies::Wolf => 18,
        };
        assert_eq!(e.sprite_index, expected_sprite);
    }
}

#[test]
fn each_roll_selects_its_table_entry() {
    let rat = enemy_for_roll(0);
    assert_eq!(rat.species, EnemySpecies::Rat);
    assert_eq!(rat.sprite_index, 16);

    let snake = enemy_for_roll(1);
    assert_eq!(snake.species, EnemySpecies::Snake);
    assert_eq!(snake.sprite_index, 17);

    let wolf = enemy_for_roll(2);
    assert_eq!(wolf.species, EnemySpecies::Wolf);
    assert_eq!(wolf.sprite_index, 18);
}

#[test]
fn species_names() {
    assert_eq!(EnemySpecies::Rat.name(), "Rat");
    assert_eq!(EnemySpecies::Snake.name(), "Snake");
    assert_eq!(EnemySpecies::Wolf.name(), "Wolf");
}

#[test]
fn attack_input_emits_one_event_naming_both_combatants() {
    let player = Entity(3);
    let enemy = Entity(9);
    assert_eq!(combat_input(false, player, enemy), None);
    assert_eq!(
        combat_input(true, player, enemy),
        Some(CombatEvent { target: enemy, emitter: player })
    );
}

#[test]
fn resolution_damages_the_target_only() {
    let player = Entity(0);
    let enemy = Entity(1);
    let mut combatants = vec![
        Combatant { entity: player, stats: CombatStats { hp: 9, max_hp: 9, attack: 4, defense: 2 } },
        Combatant { entity: enemy, stats: CombatStats { hp: 5, max_hp: 5, attack: 1, defense: 1 } },
    ];
    process_combat(&mut combatants, &CombatEvent { target: enemy, emitter: player });
    assert_eq!(combatants[1].stats.hp, 2);
    assert_eq!(combatants[1].stats.max_hp, 5);
    assert_eq!(combatants[0].stats.hp, 9);

    // Defense at or above attack blocks all damage.
    process_combat(&mut combatants, &CombatEvent { target: player, emitter: enemy });
    assert_eq!(combatants[0].stats.hp, 9);
}

#[test]
fn end_check_pops_combat_once_the_enemy_is_down() {
    let mut stack = StateStack::new(AppState::OverWorld);
    stack.push(AppState::Combat);

    let alive = CombatStats { hp: 1, max_hp: 5, attack: 1, defense: 1 };
    assert!(end_combat(&alive, &mut stack).is_none());
    assert_eq!(stack.current(), AppState::Combat);

    let down = CombatStats { hp: 0, max_hp: 5, attack: 1, defense: 1 };
    let fired = end_combat(&down, &mut stack).unwrap();
    assert_eq!(
        fired,
        vec![
            Transition::Exit(AppState::Combat),
            Transition::Resume(AppState::OverWorld),
        ]
    );
    assert_eq!(stack.current(), AppState::OverWorld);
}

#[test]
fn fleeing_pops_combat_regardless_of_hp() {
    let mut stack = StateStack::new(AppState::OverWorld);
    stack.push(AppState::Combat);
    assert!(force_end_combat(false, &mut stack).is_none());
    assert_eq!(stack.current(), AppState::Combat);

    let fired = force_end_combat(true, &mut stack).unwrap();
    assert_eq!(
        fired,
        vec![
            Transition::Exit(AppState::Combat),
            Transition::Resume(AppState::OverWorld),
        ]
    );
    assert_eq!(stack.current(), AppState::OverWorld);
}
