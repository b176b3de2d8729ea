//! Plane geometry in fixed-point units: positions and the axis-aligned
//! box-overlap test that drives collision.

use vstd::prelude::*;

use crate::TILE_SIZE;

verus! {

/// Largest coordinate magnitude the game works with, in units. Keeps every
/// overlap computation inside `i64`.
pub const COORD_LIMIT: i64 = 1000000000000;

/// Side length of the player's collision box, in units: six tenths of a
/// tile.
pub const PLAYER_BOX: i64 = 480;

/// A position or displacement on the map plane, in units.
#[derive(Debug, Clone, Copy, PartialEq, Eq, Structural)]
pub struct Vec2 {
    pub x: i64,
    pub y: i64,
}

/// The coordinate is within the world's coordinate bound.
pub open spec fn coord_ok(c: int) -> bool {
    -COORD_LIMIT <= c <= COORD_LIMIT
}

/// Both coordinates are within the world's coordinate bound.
pub open spec fn vec2_ok(v: Vec2) -> bool {
    coord_ok(v.x as int) && coord_ok(v.y as int)
}

/// The absolute value.
pub open spec fn spec_abs(x: int) -> int {
    if x >= 0 {
        x
    } else {
        -x
    }
}

/// Two square boxes centred at `a` and `b`, with side lengths `a_size` and
/// `b_size`, overlap with positive area on both axes.
pub open spec fn boxes_overlap(a: Vec2, a_size: int, b: Vec2, b_size: int) -> bool {
    &&& 2 * spec_abs(a.x - b.x) < a_size + b_size
    &&& 2 * spec_abs(a.y - b.y) < a_size + b_size
}

/// The player's box at `player_position` overlaps the full tile at
/// `tile_position`.
pub open spec fn spec_collides(player_position: Vec2, tile_position: Vec2) -> bool {
    boxes_overlap(player_position, PLAYER_BOX as int, tile_position, TILE_SIZE as int)
}

/// Tests whether the player's collision box (0.6 of a tile), centred at
/// `player_position`, overlaps the full tile centred at `tile_position`.
pub fn check_collision(player_position: Vec2, tile_position: Vec2) -> (r: bool)
    requires
        vec2_ok(player_position),
        vec2_ok(tile_position),
    ensures
        r == spec_collides(player_position, tile_position),
{
    let dx = if player_position.x >= tile_position.x {
        player_position.x - tile_position.x
    } else {
        tile_position.x - player_position.x
    };
    let dy = if player_position.y >= tile_position.y {
        player_position.y - tile_position.y
    } else {
        tile_position.y - player_position.y
    };
    2 * dx < PLAYER_BOX + TILE_SIZE && 2 * dy < PLAYER_BOX + TILE_SIZE
}

} // verus!
