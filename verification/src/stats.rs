//! Per-combatant statistics and the damage formula.

use vstd::prelude::*;

verus! {

/// Largest value a single statistic (attack, defense, max_hp) may take.
/// Keeps all combat arithmetic comfortably inside `i32`.
pub const STAT_LIMIT: i32 = 1000000;

/// Damage dealt by an attacker with attack `attack` to a defender with
/// defense `defense`: the difference, floored at zero.
pub open spec fn spec_damage(attack: int, defense: int) -> int {
    if attack - defense > 0 {
        attack - defense
    } else {
        0
    }
}

/// Computes the damage of one attack: `max(attack - defense, 0)`.
pub fn damage(attack: i32, defense: i32) -> (r: i32)
    requires
        attack >= 0,
        defense >= 0,
    ensures
        r == spec_damage(attack as int, defense as int),
{
    if attack > defense {
        attack - defense
    } else {
        0
    }
}

/// Statistics shared by the player and by enemies.
///
/// The intended resting invariant is `0 <= hp <= max_hp`; `hp` may go
/// negative transiently, between an attack being resolved and the
/// end-of-combat check reading it.
#[derive(Debug, Clone, Copy, PartialEq, Eq, Structural)]
pub struct CombatStats {
    pub hp: i32,
    pub max_hp: i32,
    pub attack: i32,
    pub defense: i32,
}

impl CombatStats {
    /// Bounds under which combat arithmetic cannot overflow: attack and
    /// defense are non-negative and capped, and hp never exceeds max_hp.
    pub open spec fn wf(self) -> bool {
        &&& 0 <= self.attack <= STAT_LIMIT
        &&& 0 <= self.defense <= STAT_LIMIT
        &&& 0 <= self.max_hp <= STAT_LIMIT
        &&& self.hp <= self.max_hp
    }

    /// A combatant at full health with the given statistics.
    pub fn new(max_hp: i32, attack: i32, defense: i32) -> (r: Self)
        requires
            0 <= max_hp <= STAT_LIMIT,
            0 <= attack <= STAT_LIMIT,
            0 <= defense <= STAT_LIMIT,
        ensures
            r.wf(),
            r == (CombatStats { hp: max_hp, max_hp, attack, defense }),
    {
        CombatStats { hp: max_hp, max_hp, attack, defense }
    }

    /// Applies one attack with the given attack statistic to these
    /// statistics: hp drops by `max(attack - defense, 0)`.
    pub fn take_damage(&mut self, attack: i32)
        requires
            old(self).wf(),
            0 <= attack <= STAT_LIMIT,
            old(self).hp - attack >= i32::MIN,
        ensures
            final(self).wf(),
            final(self).hp == old(self).hp - spec_damage(attack as int, old(self).defense as int),
            final(self).max_hp == old(self).max_hp,
            final(self).attack == old(self).attack,
            final(self).defense == old(self).defense,
    {
        let d = damage(attack, self.defense);
        self.hp = self.hp - d;
    }
}

} // verus!
