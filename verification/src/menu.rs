//! The action menu: a single selection cycling over a fixed option set.

use vstd::prelude::*;

verus! {

/// How many options the combat menu holds.
pub const MENU_COUNT: i32 = 2;

/// The actions the player can pick during their turn, in menu order.
#[derive(Clone, Copy, Debug, PartialEq, Eq, Structural)]
pub enum CombatMenuOption {
    Fight,
    Run,
}

/// The menu position of an option: `Fight` is first, `Run` second.
pub open spec fn spec_menu_index(option: CombatMenuOption) -> int {
    match option {
        CombatMenuOption::Fight => 0,
        CombatMenuOption::Run => 1,
    }
}

/// The option at a menu position.
pub open spec fn spec_menu_option(index: int) -> CombatMenuOption {
    if index == 0 {
        CombatMenuOption::Fight
    } else {
        CombatMenuOption::Run
    }
}

/// Where one frame's selection input moves the selection: one step left,
/// one step right, both (cancelling out), or neither, with wraparound over
/// the two options.
pub open spec fn spec_moved_selection(
    current: CombatMenuOption,
    left: bool,
    right: bool,
) -> CombatMenuOption {
    let delta: int = (if right { 1int } else { 0int }) - (if left { 1int } else { 0int });
    spec_menu_option((spec_menu_index(current) + delta + MENU_COUNT as int) % (MENU_COUNT as int))
}

/// The player's current choice in the combat action menu.
#[derive(Clone, Copy, Debug, PartialEq, Eq, Structural)]
pub struct CombatMenuSelection {
    pub selected: CombatMenuOption,
}

impl CombatMenuSelection {
    /// A fresh menu starts on `Fight`.
    pub fn new() -> (r: CombatMenuSelection)
        ensures
            r.selected == CombatMenuOption::Fight,
    {
        CombatMenuSelection { selected: CombatMenuOption::Fight }
    }

    /// Move the selection one step with wraparound:
    /// `new_index == (old_index + direction + MENU_COUNT) % MENU_COUNT`.
    pub fn advance(&mut self, direction: i32)
        requires
            direction == -1 || direction == 1,
        ensures
            spec_menu_index(final(self).selected) == (spec_menu_index(old(self).selected)
                + direction + MENU_COUNT as int) % (MENU_COUNT as int),
    {
        let index: i32 = match self.selected {
            CombatMenuOption::Fight => 0,
            CombatMenuOption::Run => 1,
        };
        let moved: i32 = (index + direction + MENU_COUNT) % MENU_COUNT;
        self.selected = if moved == 0 {
            CombatMenuOption::Fight
        } else {
            CombatMenuOption::Run
        };
    }

    /// Whether a menu button should be drawn highlighted: exactly the one
    /// holding the current selection.
    pub fn is_selected(&self, option: CombatMenuOption) -> (r: bool)
        ensures
            r == (self.selected == option),
    {
        self.selected == option
    }

    /// Apply one frame's selection input, a left edge and a right edge,
    /// each moving the selection one step if pressed.
    pub fn apply(&mut self, left: bool, right: bool)
        ensures
            final(self).selected == spec_moved_selection(old(self).selected, left, right),
    {
        if left {
            self.advance(-1);
        }
        if right {
            self.advance(1);
        }
    }
}

} // verus!
