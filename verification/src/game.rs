//! The whole game tied together: one state per frame, advanced by an
//! explicit, ordered pipeline of steps, and a dispatch that runs the
//! enter/exit/pause/resume reactions the state stack reports.
//!
//! Everything is single-threaded and tick-driven: a frame runs input
//! sampling, then movement or combat for the current state, then the checks
//! that may change state. The caller runs one frame function per tick,
//! chosen by the current state, and feeds every reported transition to
//! `apply_transition`, in order.

use vstd::prelude::*;

use crate::camera::{camera_follow, set_combat_camera, set_overworld_camera, Camera};
use crate::combat::{
    combat_input, end_combat, force_end_combat, process_combat, spawn_enemy, Combatant, Enemy,
    Entity,
};
use crate::fadeout::{
    create_fadeout, update_fadeout, FadeoutConfigResource, FadeoutStatus, TIME_LIMIT,
};
use crate::geometry::Vec2;
use crate::movement::{
    move_player, pos_in_world, spec_move, spec_velocity, DirectionalInput, DT_LIMIT, SPEED_LIMIT,
    VEL_LIMIT,
};
use crate::player::{check_encounter, hide_player, show_player, spawn_player, Player};
use crate::state::{AppState, StateStack, Transition};
use crate::stats::{spec_damage, CombatStats, STAT_LIMIT};
use crate::tilemap::{hide_map, parse_map, show_map, TileMap, MAP_DIM_LIMIT};

verus! {

/// The full game world: the state stack and every entity the systems touch.
#[derive(Debug)]
pub struct Game {
    pub stack: StateStack,
    pub player: Player,
    pub player_stats: CombatStats,
    pub map: TileMap,
    pub camera: Camera,
    pub enemy: Option<Enemy>,
    pub fadeout: Option<FadeoutStatus>,
    pub fadeout_config: Option<FadeoutConfigResource>,
    pub player_entity: Entity,
    pub enemy_entity: Entity,
}

impl Game {
    /// Every part is well formed, and the two combatant handles differ.
    /// The countdown floor holds between frames (the encounter check resets
    /// an expired countdown before a frame ends) and leaves room for one
    /// frame's maximum travel without underflow.
    pub open spec fn wf(self) -> bool {
        &&& self.stack.wf()
        &&& self.player.wf()
        &&& self.player.until_combat@ >= -(2 * (VEL_LIMIT as int))
        &&& 0 <= self.player.speed.0 <= SPEED_LIMIT
        &&& self.player_stats.wf()
        &&& self.player_stats.hp >= -STAT_LIMIT
        &&& self.map.wf()
        &&& (self.enemy matches Some(e) ==> e.stats.wf() && e.stats.hp >= -STAT_LIMIT)
        &&& (self.fadeout matches Some(f) ==> f.wf())
        &&& (self.fadeout_config matches Some(c) ==> 0 < c.fadeout_duration <= TIME_LIMIT)
        &&& self.player_entity != self.enemy_entity
    }

    /// A fresh game: the overworld is the initial state, the player stands
    /// at the origin with the given statistics, and the map is parsed from
    /// the given glyph grid.
    pub fn new(player_stats: CombatStats, map_rows: &Vec<Vec<char>>) -> (g: Game)
        requires
            player_stats.wf(),
            player_stats.hp >= 0,
            map_rows@.len() <= MAP_DIM_LIMIT,
            forall|i: int|
                0 <= i < map_rows@.len() ==> (#[trigger] map_rows@[i])@.len() <= MAP_DIM_LIMIT,
        ensures
            g.wf(),
            g.stack@ == seq![AppState::OverWorld],
            g.player_stats == player_stats,
            g.map.tiles@ == crate::tilemap::spec_parse(map_rows.deep_view()),
            g.enemy.is_none(),
            g.fadeout.is_none(),
            g.fadeout_config.is_none(),
            g.player.position == (Vec2 { x: 0, y: 0 }),
            g.player.speed == crate::movement::Speed(crate::player::PLAYER_SPEED),
            g.player.sprite_index == crate::player::PLAYER_SPRITE_INDEX,
            g.player.visible,
            g.camera == (Camera { position: Vec2 { x: 0, y: 0 }, scale_permille: 1000 }),
    {
        Game {
            stack: StateStack::new(AppState::OverWorld),
            player: spawn_player(),
            player_stats,
            map: parse_map(map_rows),
            camera: Camera { position: Vec2 { x: 0, y: 0 }, scale_permille: 1000 },
            enemy: None,
            fadeout: None,
            fadeout_config: None,
            player_entity: Entity(0),
            enemy_entity: Entity(1),
        }
    }
}

/// Runs one transition reaction, as the engine's state-change callbacks
/// would: pausing the overworld hides its visuals, resuming shows them and
/// restores its camera, entering combat spawns the enemy and frames the
/// combat scene, leaving combat despawns the enemy, and entering the
/// fadeout consumes the one-shot configuration into a live overlay.
pub fn apply_transition(game: &mut Game, t: Transition)
    requires
        old(game).wf(),
        t == Transition::Enter(AppState::Fadeout) ==> old(game).fadeout_config.is_some(),
    ensures
        final(game).wf(),
        final(game).stack == old(game).stack,
        final(game).player_stats == old(game).player_stats,
        final(game).player_entity == old(game).player_entity,
        final(game).enemy_entity == old(game).enemy_entity,
        final(game).map.tiles == old(game).map.tiles,
        final(game).player.position == old(game).player.position,
        final(game).player.until_combat == old(game).player.until_combat,
        final(game).player.speed == old(game).player.speed,
        final(game).player.sprite_index == old(game).player.sprite_index,
        match t {
            Transition::Pause(AppState::OverWorld) => {
                &&& !final(game).player.visible
                &&& !final(game).map.visible
                &&& final(game).enemy == old(game).enemy
                &&& final(game).fadeout == old(game).fadeout
                &&& final(game).fadeout_config == old(game).fadeout_config
                &&& final(game).camera == old(game).camera
            },
            Transition::Enter(AppState::OverWorld) | Transition::Resume(AppState::OverWorld) => {
                &&& final(game).player.visible
                &&& final(game).map.visible
                &&& final(game).camera == (Camera {
                    position: Vec2 { x: 0, y: 0 },
                    scale_permille: 1000,
                })
                &&& final(game).enemy == old(game).enemy
                &&& final(game).fadeout == old(game).fadeout
                &&& final(game).fadeout_config == old(game).fadeout_config
            },
            Transition::Enter(AppState::Combat) => {
                &&& final(game).enemy matches Some(e) && e.stats == (CombatStats {
                    hp: 5,
                    max_hp: 5,
                    attack: 1,
                    defense: 1,
                }) && e.sprite_index == e.species.spec_sprite_index()
                &&& final(game).camera == (Camera {
                    position: Vec2 { x: 0, y: 0 },
                    scale_permille: 500,
                })
                &&& final(game).fadeout == old(game).fadeout
                &&& final(game).fadeout_config == old(game).fadeout_config
                &&& final(game).player.visible == old(game).player.visible
                &&& final(game).map.visible == old(game).map.visible
            },
            Transition::Resume(AppState::Combat) => {
                &&& final(game).camera == (Camera {
                    position: Vec2 { x: 0, y: 0 },
                    scale_permille: 500,
                })
                &&& final(game).enemy == old(game).enemy
                &&& final(game).fadeout == old(game).fadeout
                &&& final(game).fadeout_config == old(game).fadeout_config
                &&& final(game).player.visible == old(game).player.visible
                &&& final(game).map.visible == old(game).map.visible
            },
            Transition::Exit(AppState::Combat) => {
                &&& final(game).enemy.is_none()
                &&& final(game).fadeout == old(game).fadeout
                &&& final(game).fadeout_config == old(game).fadeout_config
                &&& final(game).camera == old(game).camera
                &&& final(game).player.visible == old(game).player.visible
                &&& final(game).map.visible == old(game).map.visible
            },
            Transition::Enter(AppState::Fadeout) => {
                &&& final(game).fadeout matches Some(f) && f.wf() && f.next_state == old(
                    game,
                ).fadeout_config->Some_0.next_state && f.timer.spec_elapsed() == 0
                &&& final(game).fadeout_config.is_none()
                &&& final(game).enemy == old(game).enemy
                &&& final(game).camera == old(game).camera
                &&& final(game).player.visible == old(game).player.visible
                &&& final(game).map.visible == old(game).map.visible
            },
            _ => {
                &&& final(game).enemy == old(game).enemy
                &&& final(game).fadeout == old(game).fadeout
                &&& final(game).fadeout_config == old(game).fadeout_config
                &&& final(game).camera == old(game).camera
                &&& final(game).player.visible == old(game).player.visible
                &&& final(game).map.visible == old(game).map.visible
            },
        },
{
    match t {
        Transition::Pause(AppState::OverWorld) => {
            hide_player(&mut game.player);
            hide_map(&mut game.map);
        },
        Transition::Enter(AppState::OverWorld) | Transition::Resume(AppState::OverWorld) => {
            show_player(&mut game.player);
            show_map(&mut game.map);
            set_overworld_camera(&mut game.camera);
        },
        Transition::Enter(AppState::Combat) => {
            game.enemy = Some(spawn_enemy());
            set_combat_camera(&mut game.camera);
        },
        Transition::Resume(AppState::Combat) => {
            set_combat_camera(&mut game.camera);
        },
        Transition::Exit(AppState::Combat) => {
            game.enemy = None;
        },
        Transition::Enter(AppState::Fadeout) => {
            game.fadeout = Some(create_fadeout(&mut game.fadeout_config));
        },
        _ => {
        },
    }
}

/// One frame in the overworld, in the engine's declared order: movement
/// with collision resolution and the encounter countdown first, then the
/// camera following the player, then the encounter check. Returns the
/// transitions fired by a triggered encounter.
pub fn overworld_frame(game: &mut Game, input: DirectionalInput, delta_ms: i64) -> (t: Option<
    Vec<Transition>,
>)
    requires
        old(game).wf(),
        old(game).stack@.last() == AppState::OverWorld,
        old(game).stack@.len() < usize::MAX,
        pos_in_world(old(game).player.position),
        0 <= delta_ms <= DT_LIMIT,
    ensures
        final(game).wf(),
        final(game).player_stats == old(game).player_stats,
        final(game).map == old(game).map,
        final(game).enemy == old(game).enemy,
        final(game).fadeout == old(game).fadeout,
        final(game).player.visible == old(game).player.visible,
        final(game).player.speed == old(game).player.speed,
        final(game).player.sprite_index == old(game).player.sprite_index,
        final(game).player.position == spec_move(
            old(game).player.position,
            spec_velocity(input, old(game).player.speed.0 as int, delta_ms as int),
            TileMap::spec_colliders_of(old(game).map.tiles@),
        ),
        final(game).camera.position == final(game).player.position,
        final(game).camera.scale_permille == old(game).camera.scale_permille,
        if encounter_fires(*old(game), input, delta_ms as int) {
            &&& final(game).stack@ == old(game).stack@.push(AppState::Fadeout)
            &&& final(game).fadeout_config == Some(
                FadeoutConfigResource {
                    fadeout_duration: crate::player::ENCOUNTER_FADEOUT_MS,
                    next_state: AppState::Combat,
                    position: final(game).player.position,
                },
            )
            &&& ({
                let tc = final(game).player.until_combat;
                tc.spec_min_range() <= tc@ < tc.spec_max_range()
            })
            &&& t matches Some(fired) && fired@ == seq![
                Transition::Pause(AppState::OverWorld),
                Transition::Enter(AppState::Fadeout),
            ]
        } else {
            &&& final(game).stack == old(game).stack
            &&& final(game).fadeout_config == old(game).fadeout_config
            &&& final(game).player.until_combat@ == timer_after_movement(
                *old(game),
                input,
                delta_ms as int,
            )
            &&& t.is_none()
        },
{
    let colliders = game.map.colliders();
    let encounter_tiles = game.map.encounter_spawns();
    move_player(
        &mut game.player.position,
        game.player.speed,
        &mut game.player.until_combat,
        input,
        &colliders,
        &encounter_tiles,
        delta_ms,
    );
    camera_follow(&mut game.camera, game.player.position);
    check_encounter(
        &mut game.player.until_combat,
        game.player.position,
        &mut game.stack,
        &mut game.fadeout_config,
    )
}

/// Where the player ends up after one overworld frame's movement.
pub open spec fn position_after_movement(g: Game, input: DirectionalInput, delta_ms: int) -> Vec2 {
    spec_move(
        g.player.position,
        spec_velocity(input, g.player.speed.0 as int, delta_ms),
        TileMap::spec_colliders_of(g.map.tiles@),
    )
}

/// The encounter countdown after one overworld frame's movement: advanced
/// by the distance actually travelled while the player ends the frame on an
/// encounter tile, unchanged otherwise.
pub open spec fn timer_after_movement(g: Game, input: DirectionalInput, delta_ms: int) -> int {
    let p = position_after_movement(g, input, delta_ms);
    let travelled = crate::geometry::spec_abs(p.x - g.player.position.x)
        + crate::geometry::spec_abs(p.y - g.player.position.y);
    if crate::movement::on_encounter_tile(
        p,
        TileMap::spec_encounter_spawns_of(g.map.tiles@),
    ) {
        g.player.until_combat@ - travelled
    } else {
        g.player.until_combat@
    }
}

/// Whether this overworld frame triggers an encounter: the countdown is
/// negative once the frame's movement has been accumulated.
pub open spec fn encounter_fires(g: Game, input: DirectionalInput, delta_ms: int) -> bool {
    timer_after_movement(g, input, delta_ms) < 0
}

/// One frame in combat, in the engine's declared order: the flee input
/// first, then the attack input, then resolution of the emitted event, then
/// the end-of-combat check. Returns the transitions fired by a pop of the
/// combat state. Combat is always entered from another state, so the combat
/// state never sits at the bottom of the stack.
pub fn combat_frame(game: &mut Game, attack_pressed: bool, flee_pressed: bool) -> (t: Option<
    Vec<Transition>,
>)
    requires
        old(game).wf(),
        old(game).stack@.last() == AppState::Combat,
        old(game).stack@.len() >= 2,
        old(game).enemy.is_some(),
    ensures
        final(game).wf(),
        final(game).player == old(game).player,
        final(game).player_stats == old(game).player_stats,
        final(game).map == old(game).map,
        final(game).camera == old(game).camera,
        final(game).fadeout == old(game).fadeout,
        final(game).fadeout_config == old(game).fadeout_config,
        if flee_pressed {
            &&& final(game).stack@ == old(game).stack@.drop_last()
            &&& final(game).enemy.is_none()
            &&& t matches Some(fired) && fired@ == seq![
                Transition::Exit(AppState::Combat),
                Transition::Resume(old(game).stack@[old(game).stack@.len() - 2]),
            ]
        } else if attack_pressed {
            let e = old(game).enemy->Some_0;
            let hp_after = e.stats.hp - spec_damage(
                old(game).player_stats.attack as int,
                e.stats.defense as int,
            );
            if hp_after <= 0 {
                &&& final(game).stack@ == old(game).stack@.drop_last()
                &&& final(game).enemy.is_none()
                &&& t matches Some(fired) && fired@ == seq![
                    Transition::Exit(AppState::Combat),
                    Transition::Resume(old(game).stack@[old(game).stack@.len() - 2]),
                ]
            } else {
                &&& final(game).stack == old(game).stack
                &&& (final(game).enemy matches Some(e2) && e2 == (Enemy {
                    stats: CombatStats { hp: hp_after as i32, ..e.stats },
                    ..e
                }))
                &&& t.is_none()
            }
        } else {
            &&& final(game).stack == old(game).stack
            &&& final(game).enemy == old(game).enemy
            &&& t.is_none()
        },
{
    if flee_pressed {
        let fired = force_end_combat(true, &mut game.stack);
        game.enemy = None;
        return fired;
    }
    let event = combat_input(attack_pressed, game.player_entity, game.enemy_entity);
    match event {
        None => None,
        Some(ev) => {
            let enemy = game.enemy.unwrap();
            let mut combatants: Vec<Combatant> = Vec::new();
            combatants.push(Combatant { entity: game.player_entity, stats: game.player_stats });
            combatants.push(Combatant { entity: game.enemy_entity, stats: enemy.stats });
            proof {
                assert(combatants@[0].entity == game.player_entity);
                assert(combatants@[1].entity == game.enemy_entity);
            }
            process_combat(&mut combatants, &ev);
            game.player_stats = combatants[0].stats;
            let new_stats = combatants[1].stats;
            game.enemy = Some(Enemy { stats: new_stats, ..enemy });
            let fired = end_combat(&new_stats, &mut game.stack);
            if fired.is_some() {
                game.enemy = None;
            }
            fired
        },
    }
}

/// One frame in the fadeout state: the overlay's countdown advances, and on
/// completion the configured next state replaces the fadeout on the stack.
/// Returns the transitions fired by that replacement.
pub fn fadeout_frame(game: &mut Game, delta_ms: i64) -> (t: Option<Vec<Transition>>)
    requires
        old(game).wf(),
        0 <= delta_ms <= TIME_LIMIT,
    ensures
        final(game).wf(),
        final(game).player == old(game).player,
        final(game).player_stats == old(game).player_stats,
        final(game).map == old(game).map,
        final(game).camera == old(game).camera,
        final(game).enemy == old(game).enemy,
        final(game).fadeout_config == old(game).fadeout_config,
        match old(game).fadeout {
            None => {
                &&& final(game).fadeout == old(game).fadeout
                &&& final(game).stack == old(game).stack
                &&& t.is_none()
            },
            Some(f) => {
                if f.timer.spec_elapsed() + delta_ms >= f.timer.spec_duration() {
                    &&& final(game).fadeout.is_none()
                    &&& final(game).stack@ == old(game).stack@.update(
                        old(game).stack@.len() - 1,
                        f.next_state,
                    )
                    &&& t matches Some(fired) && fired@ == seq![
                        Transition::Exit(old(game).stack@.last()),
                        Transition::Enter(f.next_state),
                    ]
                } else {
                    &&& (final(game).fadeout matches Some(after)
                        && after.timer.spec_elapsed() == f.timer.spec_elapsed() + delta_ms
                        && after.timer.spec_duration() == f.timer.spec_duration()
                        && after.next_state == f.next_state)
                    &&& final(game).stack == old(game).stack
                    &&& t.is_none()
                }
            },
        },
{
    update_fadeout(&mut game.fadeout, &mut game.stack, delta_ms)
}

} // verus!
