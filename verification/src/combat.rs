//! Turn-based combat: the attack event, its resolution against combatant
//! statistics, the end-of-combat check, and enemy spawning.
//!
//! One frame in the combat state runs, in order: flee input, attack input,
//! resolution of the emitted event, then the end-of-combat check.

use vstd::prelude::*;

use crate::rng::gen_range_i64;
use crate::state::{AppState, StateStack, Transition};
use crate::stats::{spec_damage, CombatStats};

verus! {

/// An opaque handle naming one entity of the game world.
#[derive(Debug, Clone, Copy, PartialEq, Eq, Hash, Structural)]
pub struct Entity(pub u64);


/// A transient attack message: `emitter` attacks `target`. Broadcast on the
/// player's attack input and consumed once by the resolution step of the
/// same frame.
#[derive(Debug, Clone, Copy, PartialEq, Eq, Structural)]
pub struct CombatEvent {
    pub target: Entity,
    pub emitter: Entity,
}

/// One entity together with its combat statistics.
#[derive(Debug, Clone, Copy, PartialEq, Eq, Structural)]
pub struct Combatant {
    pub entity: Entity,
    pub stats: CombatStats,
}

/// The species an enemy can spawn as.
#[derive(Debug, Clone, Copy, PartialEq, Eq, Structural)]
pub enum EnemySpecies {
    Rat,
    Snake,
    Wolf,
}

impl EnemySpecies {
    /// The sprite-atlas cell that draws this species.
    pub open spec fn spec_sprite_index(self) -> int {
        match self {
            EnemySpecies::Rat => 16,
            EnemySpecies::Snake => 17,
            EnemySpecies::Wolf => 18,
        }
    }

    /// The display name of this species.
    pub open spec fn spec_name(self) -> Seq<char> {
        match self {
            EnemySpecies::Rat => "Rat"@,
            EnemySpecies::Snake => "Snake"@,
            EnemySpecies::Wolf => "Wolf"@,
        }
    }

    /// Returns the sprite-atlas cell that draws this species.
    pub fn sprite_index(&self) -> (r: usize)
        ensures
            r == self.spec_sprite_index(),
    {
        match self {
            EnemySpecies::Rat => 16,
            EnemySpecies::Snake => 17,
            EnemySpecies::Wolf => 18,
        }
    }

    /// Returns the display name of this species.
    pub fn name(&self) -> (r: &'static str)
        ensures
            r@ == self.spec_name(),
    {
        match self {
            EnemySpecies::Rat => "Rat",
            EnemySpecies::Snake => "Snake",
            EnemySpecies::Wolf => "Wolf",
        }
    }
}

/// A freshly spawned enemy: its species, the sprite that draws it, and its
/// combat statistics.
#[derive(Debug, Clone, Copy, PartialEq, Eq, Structural)]
pub struct Enemy {
    pub species: EnemySpecies,
    pub sprite_index: usize,
    pub stats: CombatStats,
}

/// The species a drawn roll selects from the fixed table, in table order.
pub open spec fn species_for_roll(roll: int) -> EnemySpecies {
    if roll == 0 {
        EnemySpecies::Rat
    } else if roll == 1 {
        EnemySpecies::Snake
    } else {
        EnemySpecies::Wolf
    }
}

/// Builds the enemy a drawn roll selects: its species from the fixed table,
/// the sprite that draws that species, and the statistics every species
/// currently shares: 5 hp, attack 1, defense 1.
pub fn enemy_for_roll(roll: i64) -> (e: Enemy)
    requires
        0 <= roll < 3,
    ensures
        e.species == species_for_roll(roll as int),
        e.sprite_index == e.species.spec_sprite_index(),
        e.stats == (CombatStats { hp: 5, max_hp: 5, attack: 1, defense: 1 }),
        e.stats.wf(),
{
    let species = if roll == 0 {
        EnemySpecies::Rat
    } else if roll == 1 {
        EnemySpecies::Snake
    } else {
        EnemySpecies::Wolf
    };
    Enemy {
        species,
        sprite_index: species.sprite_index(),
        stats: CombatStats { hp: 5, max_hp: 5, attack: 1, defense: 1 },
    }
}

/// Spawns one enemy with a uniformly drawn species: the enemy of a roll
/// drawn from the table's index range.
pub fn spawn_enemy() -> (e: Enemy)
    ensures
        e.stats == (CombatStats { hp: 5, max_hp: 5, attack: 1, defense: 1 }),
        e.stats.wf(),
        e.sprite_index == e.species.spec_sprite_index(),
{
    enemy_for_roll(gen_range_i64(0, 3))
}

/// Every combatant is well formed and no entity handle appears twice.
pub open spec fn combatants_wf(cs: Seq<Combatant>) -> bool {
    &&& forall|i: int| 0 <= i < cs.len() ==> cs[i].stats.wf()
    &&& forall|i: int, j: int|
        0 <= i < j < cs.len() ==> cs[i].entity != cs[j].entity
}

/// Some combatant carries the given entity handle.
pub open spec fn has_combatant(cs: Seq<Combatant>, e: Entity) -> bool {
    exists|i: int| 0 <= i < cs.len() && cs[i].entity == e
}

/// On the attack input edge, emits the one attack event of this frame:
/// the player attacks the enemy. Without the input, no event.
pub fn combat_input(attack_pressed: bool, player: Entity, enemy: Entity) -> (r: Option<
    CombatEvent,
>)
    ensures
        r == if attack_pressed {
            Some(CombatEvent { target: enemy, emitter: player })
        } else {
            None::<CombatEvent>
        },
{
    if attack_pressed {
        Some(CombatEvent { target: enemy, emitter: player })
    } else {
        None
    }
}

/// Resolves one attack event against the combatant table: the target's hp
/// drops by `max(emitter.attack - target.defense, 0)`; every other record,
/// and every statistic but the target's hp, is unchanged.
///
/// Both named entities must be present and distinct: an event naming a
/// missing combatant is a programmer-invariant violation.
pub fn process_combat(combatants: &mut Vec<Combatant>, event: &CombatEvent)
    requires
        combatants_wf(old(combatants)@),
        has_combatant(old(combatants)@, event.emitter),
        has_combatant(old(combatants)@, event.target),
        event.emitter != event.target,
        forall|i: int, j: int|
            {
                &&& 0 <= i < old(combatants)@.len()
                &&& 0 <= j < old(combatants)@.len()
                &&& old(combatants)@[i].entity == event.emitter
                &&& old(combatants)@[j].entity == event.target
            } ==> old(combatants)@[j].stats.hp - old(combatants)@[i].stats.attack >= i32::MIN,
    ensures
        combatants_wf(final(combatants)@),
        final(combatants)@.len() == old(combatants)@.len(),
        forall|i: int, j: int|
            {
                &&& 0 <= i < old(combatants)@.len()
                &&& 0 <= j < old(combatants)@.len()
                &&& old(combatants)@[i].entity == event.emitter
                &&& old(combatants)@[j].entity == event.target
            } ==> final(combatants)@[j].stats.hp == old(combatants)@[j].stats.hp - spec_damage(
                old(combatants)@[i].stats.attack as int,
                old(combatants)@[j].stats.defense as int,
            ),
        forall|j: int|
            0 <= j < old(combatants)@.len() && old(combatants)@[j].entity != event.target
                ==> final(combatants)@[j] == old(combatants)@[j],
        forall|j: int|
            0 <= j < old(combatants)@.len() && old(combatants)@[j].entity == event.target ==> {
                &&& final(combatants)@[j].entity == old(combatants)@[j].entity
                &&& final(combatants)@[j].stats.max_hp == old(combatants)@[j].stats.max_hp
                &&& final(combatants)@[j].stats.attack == old(combatants)@[j].stats.attack
                &&& final(combatants)@[j].stats.defense == old(combatants)@[j].stats.defense
            },
{
    let emitter_idx = find_combatant(combatants, event.emitter);
    let target_idx = find_combatant(combatants, event.target);
    let attack = combatants[emitter_idx].stats.attack;
    combatants[target_idx].stats.take_damage(attack);
}

/// Finds the index of the combatant carrying the given entity handle, which
/// must be present.
fn find_combatant(combatants: &Vec<Combatant>, e: Entity) -> (idx: usize)
    requires
        has_combatant(combatants@, e),
    ensures
        idx < combatants@.len(),
        combatants@[idx as int].entity == e,
{
    let n = combatants.len();
    let mut idx: usize = 0;
    while idx < n && combatants[idx].entity.0 != e.0
        invariant
            n == combatants@.len(),
            idx <= n,
            forall|k: int| 0 <= k < idx ==> combatants@[k].entity != e,
        decreases n - idx,
    {
        idx = idx + 1;
    }
    proof {
        if idx == n {
            let w = choose|i: int| 0 <= i < combatants@.len() && combatants@[i].entity == e;
            assert(combatants@[w].entity != e);
        }
    }
    idx
}

/// The end-of-combat check: once the enemy's hp has dropped to zero or
/// below, pops the combat state and reports the fired transitions; with the
/// enemy still alive, does nothing.
///
/// The combat state never sits at the bottom of the stack, so a finished
/// combat always has a state below it to resume.
pub fn end_combat(enemy_stats: &CombatStats, stack: &mut StateStack) -> (r: Option<
    Vec<Transition>,
>)
    requires
        old(stack).wf(),
        enemy_stats.hp <= 0 ==> old(stack)@.len() >= 2,
    ensures
        final(stack).wf(),
        match r {
            Some(t) => {
                &&& enemy_stats.hp <= 0
                &&& final(stack)@ == old(stack)@.drop_last()
                &&& t@ == seq![
                    Transition::Exit(old(stack)@.last()),
                    Transition::Resume(old(stack)@[old(stack)@.len() - 2]),
                ]
            },
            None => {
                &&& enemy_stats.hp > 0
                &&& *final(stack) == *old(stack)
            },
        },
{
    if enemy_stats.hp <= 0 {
        Some(stack.pop().unwrap())
    } else {
        None
    }
}

/// The flee input: on its edge, pops the combat state unconditionally, with
/// no damage or penalty; the fired transitions are reported. The combat
/// state never sits at the bottom of the stack.
pub fn force_end_combat(flee_pressed: bool, stack: &mut StateStack) -> (r: Option<
    Vec<Transition>,
>)
    requires
        old(stack).wf(),
        flee_pressed ==> old(stack)@.len() >= 2,
    ensures
        final(stack).wf(),
        match r {
            Some(t) => {
                &&& flee_pressed
                &&& final(stack)@ == old(stack)@.drop_last()
                &&& t@ == seq![
                    Transition::Exit(old(stack)@.last()),
                    Transition::Resume(old(stack)@[old(stack)@.len() - 2]),
                ]
            },
            None => {
                &&& !flee_pressed
                &&& *final(stack) == *old(stack)
            },
        },
{
    if flee_pressed {
        Some(stack.pop().unwrap())
    } else {
        None
    }
}

} // verus!
