//! Fight events and the single-slot mailbox that carries them.

use vstd::prelude::*;

use crate::state::CombatState;

verus! {

/// Which combatant an attack is aimed at.  An encounter holds exactly one
/// player and at most one enemy, so a plain tag is a full entity reference.
#[derive(Clone, Copy, Debug, PartialEq, Eq, Structural)]
pub enum Target {
    Player,
    Enemy,
}

/// A queued fact describing one pending attack: who is hit, how hard, and
/// which state the machine moves to once the hit is resolved (unless the
/// hit is lethal, which routes to `Reward` instead).
#[derive(Clone, Copy, Debug, PartialEq, Eq, Structural)]
pub struct FightEvent {
    pub target: Target,
    pub damage_amount: isize,
    pub next_state: CombatState,
}

/// What posting an event leaves in the slot: the first event of a tick
/// wins and later ones are silently dropped.
pub open spec fn spec_posted(slot: Option<FightEvent>, event: FightEvent) -> Option<FightEvent> {
    match slot {
        Some(first) => Some(first),
        None => Some(event),
    }
}

/// An explicit single-slot mailbox for fight events.  At most one attack
/// can be pending; the resolution engine drains the slot every tick, so
/// the policy "process the first event, drop the rest" is a stated
/// invariant of this type rather than an accident of iteration order.
#[derive(Clone, Copy, Debug, PartialEq, Eq)]
pub struct FightMailbox {
    pub slot: Option<FightEvent>,
}

impl FightMailbox {
    /// A fresh mailbox is empty.
    pub fn new() -> (r: FightMailbox)
        ensures
            r.slot.is_none(),
    {
        FightMailbox { slot: None }
    }

    /// Post an event.  If one is already pending it stays and the new one
    /// is dropped.
    pub fn post(&mut self, event: FightEvent)
        ensures
            final(self).slot == spec_posted(old(self).slot, event),
    {
        if self.slot.is_none() {
            self.slot = Some(event);
        }
    }

    /// Drain the slot, handing out the pending event if there was one.
    pub fn take(&mut self) -> (r: Option<FightEvent>)
        ensures
            r == old(self).slot,
            final(self).slot.is_none(),
    {
        let taken: Option<FightEvent> = self.slot;
        self.slot = None;
        taken
    }
}

} // verus!
