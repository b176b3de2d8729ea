use rusty_poke::combat::{Enemy, EnemySpecies};
use rusty_poke::game::{
    apply_transition, combat_frame, fadeout_frame, overworld_frame, Game,
};
use rusty_poke::geometry::Vec2;
use rusty_poke::movement::DirectionalInput;
use rusty_poke::state::{AppState, Transition};
use rusty_poke::stats::CombatStats;

fn rows(lines: &[&str]) -> Vec<Vec<char>> {
    lines.iter().map(|l| l.chars().collect()).collect()
}

fn player_stats() -> CombatStats {
    CombatStats { hp: 10, max_hp: 10, attack: 5, defense: 1 }
}

fn no_input() -> DirectionalInput {
    DirectionalInput { up: false, down: false, left: false, right: false }
}

#[test]
fn a_fresh_game_starts_in_the_overworld() {
    let g = Game::new(player_stats(), &rows(&["g~#"]));
    assert_eq!(g.stack.current(), AppState::OverWorld);
    assert_eq!(g.player.position, Vec2 { x: 0, y: 0 });
    assert!(g.player.visible);
    assert!(g.enemy.is_none());
    assert_eq!(g.map.tiles.len(), 3);
}

#[test]
fn overworld_frame_moves_the_player_and_the_camera_follows() {
    let mut g = Game::new(player_stats(), &rows(&["ggg"]));
    let right = DirectionalInput { right: true, ..no_input() };
    let t = overworld_frame(&mut g, right, 100);
    assert!(t.is_none());
    assert_eq!(g.player.position, Vec2 { x: 320, y: 0 });
    assert_eq!(g.camera.position, Vec2 { x: 320, y: 0 });
    assert_eq!(g.stack.current(), AppState::OverWorld);
}

#[test]
fn walking_tall_grass_eventually_triggers_an_encounter() {
    // Three rows of tall grass, wide enough to walk right for a while.
    let line = "~".repeat(60);
    let mut g = Game::new(player_stats(), &rows(&[line.as_str(), line.as_str(), line.as_str()]));
    let right = DirectionalInput { right: true, ..no_input() };

    let mut fired = None;
    for _ in 0..50 {
        if let Some(t) = overworld_frame(&mut g, right, 100) {
            fired = Some(t);
            break;
        }
    }
    // The countdown starts below 5000 units and each frame travels 320.
    let fired = fired.expect("an encounter should fire within 50 frames");
    assert_eq!(
        fired,
        vec![
            Transition::Pause(AppState::OverWorld),
            Transition::Enter(AppState::Fadeout),
        ]
    );
    assert_eq!(g.stack.current(), AppState::Fadeout);
    let config = g.fadeout_config.expect("the fadeout configuration is installed");
    assert_eq!(config.next_state, AppState::Combat);
    assert_eq!(config.fadeout_duration, 500);
    assert_eq!(config.position, g.player.position);
}

#[test]
fn transitions_drive_visibility_enemy_and_overlay() {
    let mut g = Game::new(player_stats(), &rows(&["~~~"]));

    // Triggering an encounter pushes the fadeout; its transitions hide the
    // overworld and spawn the overlay.
    g.player.until_combat.tick(10000);
    let fired = overworld_frame(&mut g, no_input(), 100).unwrap();
    for t in fired {
        apply_transition(&mut g, t);
    }
    assert!(!g.player.visible);
    assert!(!g.map.visible);
    assert!(g.fadeout.is_some());
    assert!(g.fadeout_config.is_none());

    // Running the fadeout to completion replaces it with combat; entering
    // combat spawns the enemy and frames the combat scene.
    let mut fired = None;
    for _ in 0..5 {
        assert!(fired.is_none());
        fired = fadeout_frame(&mut g, 100);
    }
    for t in fired.expect("the fadeout completes after five ticks") {
        apply_transition(&mut g, t);
    }
    assert_eq!(g.stack.current(), AppState::Combat);
    assert!(g.fadeout.is_none());
    let enemy = g.enemy.expect("entering combat spawns the enemy");
    assert_eq!(enemy.stats, CombatStats { hp: 5, max_hp: 5, attack: 1, defense: 1 });
    assert_eq!(g.camera.scale_permille, 500);

    // Leaving combat despawns the enemy and shows the overworld again.
    let fired = combat_frame(&mut g, false, true).unwrap();
    for t in fired {
        apply_transition(&mut g, t);
    }
    assert_eq!(g.stack.current(), AppState::OverWorld);
    assert!(g.enemy.is_none());
    assert!(g.player.visible);
    assert!(g.map.visible);
    assert_eq!(g.camera.scale_permille, 1000);
}

#[test]
fn one_strong_attack_downs_the_enemy_and_pops_combat() {
    let mut g = Game::new(player_stats(), &rows(&["g"]));
    g.stack.push(AppState::Combat);
    g.enemy = Some(Enemy {
        species: EnemySpecies::Rat,
        sprite_index: 16,
        stats: CombatStats { hp: 5, max_hp: 5, attack: 1, defense: 0 },
    });

    // attack 5 against defense 0 leaves the enemy at exactly 0 hp, and the
    // end-of-combat check pops back to the overworld.
    let fired = combat_frame(&mut g, true, false).unwrap();
    assert_eq!(
        fired,
        vec![
            Transition::Exit(AppState::Combat),
            Transition::Resume(AppState::OverWorld),
        ]
    );
    assert_eq!(g.stack.current(), AppState::OverWorld);
    assert!(g.enemy.is_none());
    assert_eq!(g.player_stats.hp, 10);
}

#[test]
fn weak_attacks_chip_the_enemy_down_over_several_frames() {
    let mut g = Game::new(
        CombatStats { hp: 10, max_hp: 10, attack: 2, defense: 1 },
        &rows(&["g"]),
    );
    g.stack.push(AppState::Combat);
    g.enemy = Some(Enemy {
        species: EnemySpecies::Wolf,
        sprite_index: 18,
        stats: CombatStats { hp: 5, max_hp: 5, attack: 1, defense: 1 },
    });

    // Each attack deals max(2 - 1, 0) = 1 damage.
    for expected_hp in [4, 3, 2, 1] {
        let t = combat_frame(&mut g, true, false);
        assert!(t.is_none());
        assert_eq!(g.enemy.unwrap().stats.hp, expected_hp);
    }
    // An idle frame changes nothing.
    assert!(combat_frame(&mut g, false, false).is_none());
    assert_eq!(g.enemy.unwrap().stats.hp, 1);

    let fired = combat_frame(&mut g, true, false).unwrap();
    assert_eq!(
        fired,
        vec![
            Transition::Exit(AppState::Combat),
            Transition::Resume(AppState::OverWorld),
        ]
    );
    assert_eq!(g.stack.current(), AppState::OverWorld);
    assert!(g.enemy.is_none());
}
