//! The camera and the letterbox bars: framing only, no gameplay logic.
//!
//! The camera's scale is held in thousandths (a scale of one is 1000), so
//! the half-scale combat framing is exact in integers.

use vstd::prelude::*;

use crate::geometry::{coord_ok, vec2_ok, Vec2, COORD_LIMIT};
use crate::{WIN_HEIGHT, WIN_SCALE, WIN_WIDTH};

verus! {

/// The 2D camera: where it looks and how far it is zoomed, in thousandths.
#[derive(Debug, Clone, Copy, PartialEq, Eq, Structural)]
pub struct Camera {
    pub position: Vec2,
    pub scale_permille: i64,
}

/// One letterbox bar, with its horizontal placement multiplier: 1 for the
/// bar right of the view, -1 for the bar left of it.
#[derive(Debug, Clone, Copy, PartialEq, Eq, Structural)]
pub struct LetterBox {
    pub x_mul: i64,
    pub position: Vec2,
}

/// The projection scale the camera starts with: the window height in units,
/// divided by twice the display scale factor.
pub fn initial_projection_scale(win_height: i64) -> (r: i64)
    requires
        0 <= win_height,
    ensures
        r == (win_height as int) / ((WIN_SCALE as int) * 2),
{
    win_height / (WIN_SCALE * 2)
}

/// Entering or resuming combat frames the combat scene: the camera moves to
/// the origin and zooms in to half scale.
pub fn set_combat_camera(camera: &mut Camera)
    ensures
        final(camera).position == (Vec2 { x: 0, y: 0 }),
        final(camera).scale_permille == 500,
{
    camera.position = Vec2 { x: 0, y: 0 };
    camera.scale_permille = 500;
}

/// Entering or resuming the overworld restores full-scale framing at the
/// origin.
pub fn set_overworld_camera(camera: &mut Camera)
    ensures
        final(camera).position == (Vec2 { x: 0, y: 0 }),
        final(camera).scale_permille == 1000,
{
    camera.position = Vec2 { x: 0, y: 0 };
    camera.scale_permille = 1000;
}

/// Each overworld frame the camera follows the player's position.
pub fn camera_follow(camera: &mut Camera, player_position: Vec2)
    ensures
        final(camera).position == player_position,
        final(camera).scale_permille == old(camera).scale_permille,
{
    camera.position = player_position;
}

/// Where one letterbox bar sits: beside the camera, pushed out by the
/// window width, pulled back in by a quarter width whenever the camera is
/// zoomed away from full scale.
pub open spec fn spec_letterbox_x(camera: Camera, x_mul: int) -> int {
    let offset_quarter: int = if camera.scale_permille == 1000 {
        0
    } else {
        WIN_WIDTH as int / 4
    };
    camera.position.x + (WIN_WIDTH - offset_quarter) * x_mul
}

/// Repositions one letterbox bar against the camera after every frame.
pub fn update_letterbox(letterbox: &mut LetterBox, camera: &Camera)
    requires
        vec2_ok(camera.position),
        old(letterbox).x_mul == 1 || old(letterbox).x_mul == -1,
    ensures
        final(letterbox).x_mul == old(letterbox).x_mul,
        final(letterbox).position.x == spec_letterbox_x(*camera, old(letterbox).x_mul as int),
        final(letterbox).position.y == camera.position.y,
{
    let offset: i64 = if camera.scale_permille == 1000 {
        0
    } else {
        WIN_WIDTH / 4
    };
    let span = WIN_WIDTH - offset;
    let shift: i64 = if letterbox.x_mul == 1 {
        span
    } else {
        -span
    };
    letterbox.position = Vec2 { x: camera.position.x + shift, y: camera.position.y };
}

/// The two letterbox bars as they are first spawned, beside the origin.
pub fn setup_letterboxing() -> (bars: (LetterBox, LetterBox))
    ensures
        bars.0.x_mul == 1,
        bars.0.position == (Vec2 { x: WIN_WIDTH, y: 0 }),
        bars.1.x_mul == -1,
        bars.1.position.x == -(WIN_WIDTH as int),
        bars.1.position.y == 0,
{
    (
        LetterBox { x_mul: 1, position: Vec2 { x: WIN_WIDTH, y: 0 } },
        LetterBox { x_mul: -1, position: Vec2 { x: -WIN_WIDTH, y: 0 } },
    )
}

} // verus!
