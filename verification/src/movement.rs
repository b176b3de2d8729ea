//! Player movement: directional input becomes a velocity, resolved one axis
//! at a time against collider tiles so the player can slide along walls, and
//! the distance actually travelled advances the encounter countdown while
//! the player stands on an encounter tile.
//!
//! Collision is a discrete per-tick overlap test, not swept: a large enough
//! per-tick displacement can tunnel through a thin obstacle. That is an
//! accepted limitation of the design.

use vstd::prelude::*;

use crate::geometry::{
    check_collision, coord_ok, spec_abs, spec_collides, vec2_ok, Vec2, COORD_LIMIT,
};
use crate::timer::CombatTimer;

verus! {

/// Largest movement speed, in units per second.
pub const SPEED_LIMIT: i64 = 1000000;

/// Largest frame duration, in milliseconds.
pub const DT_LIMIT: i64 = 1000000;

/// Largest magnitude of a per-frame velocity component, in units:
/// `SPEED_LIMIT * DT_LIMIT / 1000`.
pub const VEL_LIMIT: i64 = 1000000000;

/// Numerator and denominator of the factor a diagonal step is scaled by,
/// approximating `1 / sqrt(2)` so diagonal movement keeps unit speed.
pub const DIAG_NUM: i64 = 707;

/// See `DIAG_NUM`.
pub const DIAG_DEN: i64 = 1000;

/// Movement speed of an entity, in units per second.
#[derive(Debug, Clone, Copy, PartialEq, Eq, Structural)]
pub struct Speed(pub i64);

/// A tile that blocks movement, at its centre position.
#[derive(Debug, Clone, Copy, PartialEq, Eq, Structural)]
pub struct Collider {
    pub position: Vec2,
}

/// A tile on which the encounter countdown advances, at its centre position.
#[derive(Debug, Clone, Copy, PartialEq, Eq, Structural)]
pub struct EncounterSpawn {
    pub position: Vec2,
}

/// The four directional input signals, polled each frame.
#[derive(Debug, Clone, Copy, PartialEq, Eq, Structural)]
pub struct DirectionalInput {
    pub up: bool,
    pub down: bool,
    pub left: bool,
    pub right: bool,
}

/// The horizontal direction asked for: right minus left, in {-1, 0, 1}.
pub open spec fn spec_dir_x(input: DirectionalInput) -> int {
    (if input.right {
        1int
    } else {
        0int
    }) - (if input.left {
        1int
    } else {
        0int
    })
}

/// The vertical direction asked for: up minus down, in {-1, 0, 1}.
pub open spec fn spec_dir_y(input: DirectionalInput) -> int {
    (if input.up {
        1int
    } else {
        0int
    }) - (if input.down {
        1int
    } else {
        0int
    })
}

/// The distance one axis-aligned step covers this frame, in units.
pub open spec fn spec_step(speed: int, delta_ms: int) -> int {
    speed * delta_ms / 1000
}

/// The per-axis step: scaled by about `1 / sqrt(2)` when the input asks for
/// both axes at once, so a diagonal step keeps unit speed.
pub open spec fn spec_axis_step(input: DirectionalInput, speed: int, delta_ms: int) -> int {
    if spec_dir_x(input) != 0 && spec_dir_y(input) != 0 {
        spec_step(speed, delta_ms) * (DIAG_NUM as int) / (DIAG_DEN as int)
    } else {
        spec_step(speed, delta_ms)
    }
}

/// The per-frame velocity the input asks for, in units.
pub open spec fn spec_velocity(input: DirectionalInput, speed: int, delta_ms: int) -> Vec2 {
    Vec2 {
        x: (spec_dir_x(input) * spec_axis_step(input, speed, delta_ms)) as i64,
        y: (spec_dir_y(input) * spec_axis_step(input, speed, delta_ms)) as i64,
    }
}

/// Some collider tile overlaps the player's box at position `p`.
pub open spec fn blocked(p: Vec2, colliders: Seq<Collider>) -> bool {
    exists|i: int| 0 <= i < colliders.len() && spec_collides(p, colliders[i].position)
}

/// Some encounter tile overlaps the player's box at position `p`.
pub open spec fn on_encounter_tile(p: Vec2, tiles: Seq<EncounterSpawn>) -> bool {
    exists|i: int| 0 <= i < tiles.len() && spec_collides(p, tiles[i].position)
}

/// Where a horizontal step by `vx` from `p` ends: at the candidate position
/// unless a collider blocks it, in which case the axis's movement is
/// discarded.
pub open spec fn step_x(p: Vec2, vx: i64, colliders: Seq<Collider>) -> Vec2 {
    let candidate = Vec2 { x: (p.x + vx) as i64, y: p.y };
    if !blocked(candidate, colliders) {
        candidate
    } else {
        p
    }
}

/// Where a vertical step by `vy` from `p` ends; as `step_x`.
pub open spec fn step_y(p: Vec2, vy: i64, colliders: Seq<Collider>) -> Vec2 {
    let candidate = Vec2 { x: p.x, y: (p.y + vy) as i64 };
    if !blocked(candidate, colliders) {
        candidate
    } else {
        p
    }
}

/// Where one frame of movement ends: the horizontal step resolved first,
/// then the vertical step from wherever the horizontal one ended, so the
/// player slides along walls instead of stopping at diagonal contact.
pub open spec fn spec_move(p: Vec2, vel: Vec2, colliders: Seq<Collider>) -> Vec2 {
    step_y(step_x(p, vel.x, colliders), vel.y, colliders)
}

/// All listed positions are within the world's coordinate bound.
pub open spec fn colliders_ok(colliders: Seq<Collider>) -> bool {
    forall|i: int| 0 <= i < colliders.len() ==> vec2_ok(#[trigger] colliders[i].position)
}

/// All listed positions are within the world's coordinate bound.
pub open spec fn encounter_tiles_ok(tiles: Seq<EncounterSpawn>) -> bool {
    forall|i: int| 0 <= i < tiles.len() ==> vec2_ok(#[trigger] tiles[i].position)
}

/// The position sits far enough inside the world bound that one frame of
/// movement cannot leave it.
pub open spec fn pos_in_world(p: Vec2) -> bool {
    &&& -(COORD_LIMIT - VEL_LIMIT) <= p.x <= COORD_LIMIT - VEL_LIMIT
    &&& -(COORD_LIMIT - VEL_LIMIT) <= p.y <= COORD_LIMIT - VEL_LIMIT
}

/// Computes the velocity the directional input asks for this frame: the
/// direction, normalized so a diagonal keeps unit speed, scaled by the
/// movement speed and the frame duration.
pub fn velocity(input: DirectionalInput, speed: Speed, delta_ms: i64) -> (v: Vec2)
    requires
        0 <= speed.0 <= SPEED_LIMIT,
        0 <= delta_ms <= DT_LIMIT,
    ensures
        v == spec_velocity(input, speed.0 as int, delta_ms as int),
        spec_abs(v.x as int) <= VEL_LIMIT,
        spec_abs(v.y as int) <= VEL_LIMIT,
{
    proof {
        assert(0 <= speed.0 * delta_ms <= 1000000000000) by (nonlinear_arith)
            requires
                0 <= speed.0 <= SPEED_LIMIT,
                0 <= delta_ms <= DT_LIMIT,
        ;
        vstd::arithmetic::div_mod::lemma_div_pos_is_pos(speed.0 * delta_ms, 1000);
        vstd::arithmetic::div_mod::lemma_div_is_ordered(
            speed.0 * delta_ms,
            1000000000000,
            1000,
        );
    }
    let step = speed.0 * delta_ms / 1000;
    let dx: i64 = (if input.right {
        1
    } else {
        0
    }) - (if input.left {
        1
    } else {
        0
    });
    let dy: i64 = (if input.up {
        1
    } else {
        0
    }) - (if input.down {
        1
    } else {
        0
    });
    let axis_step = if dx != 0 && dy != 0 {
        proof {
            vstd::arithmetic::div_mod::lemma_div_pos_is_pos(step * 707, 1000);
            vstd::arithmetic::div_mod::lemma_div_is_ordered(step * 707, step * 1000, 1000);
            vstd::arithmetic::div_mod::lemma_div_multiples_vanish(step as int, 1000);
        }
        step * DIAG_NUM / DIAG_DEN
    } else {
        step
    };
    proof {
        assert(-axis_step <= dx * axis_step <= axis_step) by (nonlinear_arith)
            requires
                -1 <= dx <= 1,
                0 <= axis_step,
        ;
        assert(-axis_step <= dy * axis_step <= axis_step) by (nonlinear_arith)
            requires
                -1 <= dy <= 1,
                0 <= axis_step,
        ;
    }
    Vec2 { x: dx * axis_step, y: dy * axis_step }
}

/// Tests whether any collider tile overlaps the player's box at `p`.
pub fn any_collision(p: Vec2, colliders: &Vec<Collider>) -> (r: bool)
    requires
        vec2_ok(p),
        colliders_ok(colliders@),
    ensures
        r == blocked(p, colliders@),
{
    let n = colliders.len();
    let mut i: usize = 0;
    while i < n
        invariant
            n == colliders@.len(),
            i <= n,
            vec2_ok(p),
            colliders_ok(colliders@),
            forall|k: int| 0 <= k < i ==> !spec_collides(p, colliders@[k].position),
        decreases n - i,
    {
        if check_collision(p, colliders[i].position) {
            return true;
        }
        i = i + 1;
    }
    false
}

/// Tests whether any encounter tile overlaps the player's box at `p`.
pub fn any_encounter(p: Vec2, tiles: &Vec<EncounterSpawn>) -> (r: bool)
    requires
        vec2_ok(p),
        encounter_tiles_ok(tiles@),
    ensures
        r == on_encounter_tile(p, tiles@),
{
    let n = tiles.len();
    let mut i: usize = 0;
    while i < n
        invariant
            n == tiles@.len(),
            i <= n,
            vec2_ok(p),
            encounter_tiles_ok(tiles@),
            forall|k: int| 0 <= k < i ==> !spec_collides(p, tiles@[k].position),
        decreases n - i,
    {
        if check_collision(p, tiles[i].position) {
            return true;
        }
        i = i + 1;
    }
    false
}

/// Collision keeps the player off collider tiles: a frame of movement never
/// ends with the player's box overlapping a collider unless it already
/// started there (the position is then unchanged), and whenever a proposed
/// axis position overlaps no collider, that axis's movement is applied.
pub proof fn lemma_collision_blocks_movement(p: Vec2, vel: Vec2, colliders: Seq<Collider>)
    ensures
        blocked(spec_move(p, vel, colliders), colliders) ==> spec_move(p, vel, colliders) == p,
        !blocked(Vec2 { x: (p.x + vel.x) as i64, y: p.y }, colliders) ==> spec_move(
            p,
            vel,
            colliders,
        ).x == (p.x + vel.x) as i64,
        !blocked(
            Vec2 { x: step_x(p, vel.x, colliders).x, y: (p.y + vel.y) as i64 },
            colliders,
        ) ==> spec_move(p, vel, colliders).y == (p.y + vel.y) as i64,
{
}

/// One frame of player movement. The input's velocity is resolved one axis
/// at a time against the collider tiles; while the player's final position
/// overlaps an encounter tile, the encounter countdown advances by the
/// distance actually travelled (the sum of the absolute per-axis
/// displacements applied after collision resolution). An empty collider
/// list is a normal case: movement is then unobstructed.
pub fn move_player(
    position: &mut Vec2,
    speed: Speed,
    timer: &mut CombatTimer,
    input: DirectionalInput,
    colliders: &Vec<Collider>,
    encounter_tiles: &Vec<EncounterSpawn>,
    delta_ms: i64,
)
    requires
        pos_in_world(*old(position)),
        0 <= speed.0 <= SPEED_LIMIT,
        0 <= delta_ms <= DT_LIMIT,
        old(timer).wf(),
        old(timer)@ - 2 * (VEL_LIMIT as int) >= i64::MIN,
        colliders_ok(colliders@),
        encounter_tiles_ok(encounter_tiles@),
    ensures
        *final(position) == spec_move(
            *old(position),
            spec_velocity(input, speed.0 as int, delta_ms as int),
            colliders@,
        ),
        final(timer).wf(),
        final(timer).spec_min_range() == old(timer).spec_min_range(),
        final(timer).spec_max_range() == old(timer).spec_max_range(),
        ({
            let travelled = spec_abs(final(position).x - old(position).x) + spec_abs(
                final(position).y - old(position).y,
            );
            if on_encounter_tile(*final(position), encounter_tiles@) {
                final(timer)@ == old(timer)@ - travelled
            } else {
                *final(timer) == *old(timer)
            }
        }),
{
    let start = *position;
    let vel = velocity(input, speed, delta_ms);

    let candidate_x = Vec2 { x: position.x + vel.x, y: position.y };
    if !any_collision(candidate_x, colliders) {
        position.x = candidate_x.x;
    }

    let candidate_y = Vec2 { x: position.x, y: position.y + vel.y };
    if !any_collision(candidate_y, colliders) {
        position.y = candidate_y.y;
    }

    let dx = if position.x >= start.x {
        position.x - start.x
    } else {
        start.x - position.x
    };
    let dy = if position.y >= start.y {
        position.y - start.y
    } else {
        start.y - position.y
    };
    if any_encounter(*position, encounter_tiles) {
        timer.tick(dx + dy);
    }
}

} // verus!
