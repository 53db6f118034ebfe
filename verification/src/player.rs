//! The player's progression: accumulated experience and level-ups.

use vstd::prelude::*;

use crate::stats::CombatStats;

verus! {

/// How much experience triggers a level-up.
pub const LEVEL_UP_EXP: usize = 50;

/// How much each stat grows on a level-up.
pub const LEVEL_UP_GROWTH: isize = 2;

/// The player, as combat sees them: whether they currently act in the
/// world, and the experience gathered so far.
#[derive(Clone, Copy, Debug, PartialEq, Eq, Structural)]
pub struct Player {
    pub active: bool,
    pub exp: usize,
}

/// What granting experience leaves behind: the new player, the new stats,
/// and whether a level-up occurred.  The threshold is checked once, not in
/// a loop, so one very large award past twice the threshold still yields a
/// single level-up and leaves the rest banked above the threshold; the
/// engine keeps that behaviour of the growth rule as it stands.
pub open spec fn spec_give_exp(player: Player, stats: CombatStats, amount: usize) -> (
    Player,
    CombatStats,
    bool,
) {
    let gathered: int = player.exp + amount;
    if gathered >= LEVEL_UP_EXP {
        (
            Player { exp: (gathered - LEVEL_UP_EXP) as usize, ..player },
            CombatStats {
                health: (stats.health + LEVEL_UP_GROWTH) as isize,
                max_health: (stats.max_health + LEVEL_UP_GROWTH) as isize,
                attack: (stats.attack + LEVEL_UP_GROWTH) as isize,
                defense: (stats.defense + LEVEL_UP_GROWTH) as isize,
            },
            true,
        )
    } else {
        (Player { exp: gathered as usize, ..player }, stats, false)
    }
}

impl Player {
    /// A fresh player has no experience and acts in the world.
    pub fn new() -> (r: Player)
        ensures
            r.active,
            r.exp == 0,
    {
        Player { active: true, exp: 0 }
    }

    /// Accumulate experience and apply threshold-based stat growth:
    /// the award is added to the gathered experience, and if the total
    /// reaches the threshold, every stat grows, the threshold is deducted
    /// once, and the call reports a level-up.
    pub fn give_exp(&mut self, exp: usize, stats: &mut CombatStats) -> (leveled_up: bool)
        requires
            old(self).exp + exp <= usize::MAX,
            old(self).exp + exp >= LEVEL_UP_EXP ==> {
                &&& old(stats).health + LEVEL_UP_GROWTH <= isize::MAX
                &&& old(stats).max_health + LEVEL_UP_GROWTH <= isize::MAX
                &&& old(stats).attack + LEVEL_UP_GROWTH <= isize::MAX
                &&& old(stats).defense + LEVEL_UP_GROWTH <= isize::MAX
            },
        ensures
            (*final(self), *final(stats), leveled_up) == spec_give_exp(
                *old(self),
                *old(stats),
                exp,
            ),
            leveled_up == (old(self).exp + exp >= LEVEL_UP_EXP),
            final(self).active == old(self).active,
    {
        self.exp = self.exp + exp;
        if self.exp >= LEVEL_UP_EXP {
            stats.health = stats.health + LEVEL_UP_GROWTH;
            stats.max_health = stats.max_health + LEVEL_UP_GROWTH;
            stats.attack = stats.attack + LEVEL_UP_GROWTH;
            stats.defense = stats.defense + LEVEL_UP_GROWTH;
            self.exp = self.exp - LEVEL_UP_EXP;
            return true;
        }
        false
    }
}

} // verus!
