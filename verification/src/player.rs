//! The player: its spawn-time record, its visibility across state changes,
//! and the encounter check that runs after movement each overworld frame.

use vstd::prelude::*;

use crate::fadeout::FadeoutConfigResource;
use crate::geometry::Vec2;
use crate::movement::Speed;
use crate::state::{AppState, StateStack, Transition};
use crate::timer::CombatTimer;

verus! {

/// How long the fadeout that masks an encounter transition runs, in
/// milliseconds.
pub const ENCOUNTER_FADEOUT_MS: i64 = 500;

/// The encounter countdown is reset to a draw from this range, in units of
/// movement distance (20 to 50 logical pixels).
pub const ENCOUNTER_MIN_RANGE: i64 = 2000;

/// See `ENCOUNTER_MIN_RANGE`.
pub const ENCOUNTER_MAX_RANGE: i64 = 5000;

/// The player's movement speed, in units per second (32 logical pixels).
pub const PLAYER_SPEED: i64 = 3200;

/// The sprite-atlas cell that draws the player.
pub const PLAYER_SPRITE_INDEX: usize = 8;

/// The player: position, speed, encounter countdown, sprite and visibility.
#[derive(Debug, Clone, Copy)]
pub struct Player {
    pub position: Vec2,
    pub speed: Speed,
    pub until_combat: CombatTimer,
    pub sprite_index: usize,
    pub visible: bool,
}

impl Player {
    /// The countdown is well formed and carries the encounter range.
    pub open spec fn wf(self) -> bool {
        &&& self.until_combat.wf()
        &&& self.until_combat.spec_min_range() == ENCOUNTER_MIN_RANGE
        &&& self.until_combat.spec_max_range() == ENCOUNTER_MAX_RANGE
    }
}

/// Spawns the player at the origin, visible, at walking speed, with a fresh
/// encounter countdown drawn from the encounter range.
pub fn spawn_player() -> (p: Player)
    ensures
        p.wf(),
        p.position == (Vec2 { x: 0, y: 0 }),
        p.speed == Speed(PLAYER_SPEED),
        p.sprite_index == PLAYER_SPRITE_INDEX,
        p.visible,
        ENCOUNTER_MIN_RANGE <= p.until_combat@ < ENCOUNTER_MAX_RANGE,
{
    Player {
        position: Vec2 { x: 0, y: 0 },
        speed: Speed(PLAYER_SPEED),
        until_combat: CombatTimer::new(ENCOUNTER_MIN_RANGE, ENCOUNTER_MAX_RANGE),
        sprite_index: PLAYER_SPRITE_INDEX,
        visible: true,
    }
}

/// Entering combat hides the player's visuals; the player stays alive, just
/// not rendered, so world state survives the combat interlude.
pub fn hide_player(player: &mut Player)
    ensures
        *final(player) == (Player { visible: false, ..*old(player) }),
{
    player.visible = false;
}

/// Resuming the overworld shows the player again.
pub fn show_player(player: &mut Player)
    ensures
        *final(player) == (Player { visible: true, ..*old(player) }),
{
    player.visible = true;
}

/// The once-per-frame encounter check, run in the overworld after movement:
/// when the countdown has expired, it is reset to a fresh draw, a one-shot
/// fadeout configuration towards combat is installed at the player's
/// position, and the fadeout state is pushed. Returns the fired transitions
/// when that happens.
pub fn check_encounter(
    timer: &mut CombatTimer,
    player_position: Vec2,
    stack: &mut StateStack,
    config: &mut Option<FadeoutConfigResource>,
) -> (t: Option<Vec<Transition>>)
    requires
        old(timer).wf(),
        old(stack).wf(),
        old(stack)@.len() < usize::MAX,
    ensures
        final(timer).wf(),
        final(stack).wf(),
        final(timer).spec_min_range() == old(timer).spec_min_range(),
        final(timer).spec_max_range() == old(timer).spec_max_range(),
        if old(timer)@ < 0 {
            &&& old(timer).spec_min_range() <= final(timer)@ < old(timer).spec_max_range()
            &&& *final(config) == Some(
                FadeoutConfigResource {
                    fadeout_duration: ENCOUNTER_FADEOUT_MS,
                    next_state: AppState::Combat,
                    position: player_position,
                },
            )
            &&& final(stack)@ == old(stack)@.push(AppState::Fadeout)
            &&& t matches Some(fired) && fired@ == seq![
                Transition::Pause(old(stack)@.last()),
                Transition::Enter(AppState::Fadeout),
            ]
        } else {
            &&& *final(timer) == *old(timer)
            &&& *final(config) == *old(config)
            &&& *final(stack) == *old(stack)
            &&& t.is_none()
        },
{
    if timer.is_done() {
        timer.reset();
        *config = Some(
            FadeoutConfigResource {
                fadeout_duration: ENCOUNTER_FADEOUT_MS,
                next_state: AppState::Combat,
                position: player_position,
            },
        );
        let fired = stack.push(AppState::Fadeout);
        Some(fired)
    } else {
        None
    }
}

} // verus!
