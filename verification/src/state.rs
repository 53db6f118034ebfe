//! The combat state machine's discriminant and the surrounding game modes.

use vstd::prelude::*;

verus! {

/// The modes the surrounding game runs in.  Combat itself never switches
/// directly between them: it asks the screen-transition collaborator to
/// fade, always with no target, which pops back to the mode that was active
/// before the encounter.
#[derive(Clone, Copy, Debug, PartialEq, Eq, Hash, Structural)]
pub enum GameState {
    StartMenu,
    Overworld,
    Combat,
}

/// Where the combat state machine stands.  `PlayerTurn` is the initial
/// state, `Exiting` the terminal one.
///
/// The enemy's turn is split into two states instead of one state carrying
/// a fired-already flag: `EnemyTurnPending` means the automatic enemy
/// attack has not been triggered yet, `EnemyTurnFired` that it has been
/// enqueued and is waiting to be resolved.  The split makes "fire at most
/// once per cycle" an ordinary state-machine edge.
#[derive(Clone, Copy, Debug, PartialEq, Eq, Hash, Structural)]
pub enum CombatState {
    PlayerTurn,
    PlayerAttack,
    EnemyTurnPending,
    EnemyTurnFired,
    EnemyAttack,
    Reward,
    Exiting,
}

impl CombatState {
    /// The two states during which an attack's visual effect is playing.
    /// While one of them holds, no turn transition may occur until the
    /// effect window elapses.
    pub open spec fn is_attack_effect(self) -> bool {
        self == CombatState::PlayerAttack || self == CombatState::EnemyAttack
    }
}

} // verus!
