//! Per-entity combat attributes and the damage resolution formula.

use vstd::prelude::*;

verus! {

/// Bound on every stat value that the engine takes in.  It exists only so
/// that the damage and growth arithmetic provably fits in `isize` on every
/// target; real encounters use single-digit values.
pub const STAT_LIMIT: isize = 100_000_000;

/// Combat attributes carried by the player and by each enemy.
///
/// The resolution engine keeps `health` at zero or above (it clamps on
/// defeat).  `health <= max_health` is not maintained: stat growth raises
/// both bounds together and damage never touches `max_health`.
#[derive(Clone, Copy, Debug, PartialEq, Eq, Structural)]
pub struct CombatStats {
    pub health: isize,
    pub max_health: isize,
    pub attack: isize,
    pub defense: isize,
}

impl CombatStats {
    /// Every stat is non-negative.  The resolution and reward engines
    /// preserve this; upper bounds are preconditions, not invariants,
    /// because the unclamped damage formula can push `health` past any
    /// fixed cap (see `spec_resolve`).
    pub open spec fn non_negative(self) -> bool {
        &&& 0 <= self.health
        &&& 0 <= self.max_health
        &&& 0 <= self.attack
        &&& 0 <= self.defense
    }

    /// Every stat is within the engine's working range.
    pub open spec fn in_range(self) -> bool {
        &&& 0 <= self.health <= STAT_LIMIT
        &&& 0 <= self.max_health <= STAT_LIMIT
        &&& 0 <= self.attack <= STAT_LIMIT
        &&& 0 <= self.defense <= STAT_LIMIT
    }

    pub fn new(health: isize, max_health: isize, attack: isize, defense: isize) -> (r: CombatStats)
        ensures
            r == (CombatStats { health, max_health, attack, defense }),
    {
        CombatStats { health, max_health, attack, defense }
    }

    /// Runtime mirror of `in_range`, for callers outside the verified world.
    pub fn check_in_range(&self) -> (r: bool)
        ensures
            r == self.in_range(),
    {
        0 <= self.health && self.health <= STAT_LIMIT && 0 <= self.max_health
            && self.max_health <= STAT_LIMIT && 0 <= self.attack && self.attack <= STAT_LIMIT
            && 0 <= self.defense && self.defense <= STAT_LIMIT
    }
}

/// The stats a fresh player entity starts the game with.
pub fn player_starting_stats() -> (r: CombatStats)
    ensures
        r == (CombatStats { health: 10, max_health: 10, attack: 2, defense: 1 }),
        r.in_range(),
{
    CombatStats { health: 10, max_health: 10, attack: 2, defense: 1 }
}

/// The stats a freshly spawned bat enemy carries.
pub fn bat_stats() -> (r: CombatStats)
    ensures
        r == (CombatStats { health: 3, max_health: 3, attack: 2, defense: 1 }),
        r.in_range(),
{
    CombatStats { health: 3, max_health: 3, attack: 2, defense: 1 }
}

/// What one attack leaves the target's health at: the defender's defense is
/// subtracted from the incoming damage before the hit lands, and the result
/// is clamped at zero.  The difference `damage - defense` is deliberately
/// not clamped below at zero, so an attack weaker than the target's defense
/// raises its health; the engine keeps that behaviour of the damage rule
/// as it stands rather than silently correcting it.
pub open spec fn spec_resolve(health: int, damage: int, defense: int) -> int {
    if health - (damage - defense) >= 0 {
        health - (damage - defense)
    } else {
        0
    }
}

/// Damage resolution: `max(health - (damage - defense), 0)`.
pub fn resolve(health: isize, damage: isize, defense: isize) -> (new_health: isize)
    requires
        -STAT_LIMIT <= health <= STAT_LIMIT,
        -STAT_LIMIT <= damage <= STAT_LIMIT,
        -STAT_LIMIT <= defense <= STAT_LIMIT,
    ensures
        new_health == spec_resolve(health as int, damage as int, defense as int),
        0 <= new_health,
{
    let hit: isize = damage - defense;
    let dropped: isize = health - hit;
    if dropped >= 0 {
        dropped
    } else {
        0
    }
}

} // verus!
