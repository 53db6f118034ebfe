//! The attack-effect timer: timed visual feedback that gates turn
//! transitions.  Time is carried in whole milliseconds.

use vstd::prelude::*;

verus! {

/// How long either attacker's effect window lasts.
pub const ATTACK_DURATION_MS: u32 = 700;

/// The cadence of the hit flash: while the player's attack plays, the
/// enemy sprite is toggled in and out of view on this period.
pub const FLASH_INTERVAL_MS: u32 = 100;

/// The largest frame delta the engine accepts in one tick.  It exists only
/// so that the timer arithmetic provably fits in `u32`; real frames are a
/// few dozen milliseconds.
pub const MAX_TICK_MS: u32 = 100_000_000;

/// Whether the enemy sprite is shown at a given point of the player's
/// attack effect: a square wave over the flash interval, visible for the
/// first half of each period.
pub open spec fn spec_flash_visible(elapsed_ms: u32) -> bool {
    !(elapsed_ms % FLASH_INTERVAL_MS > FLASH_INTERVAL_MS / 2)
}

/// Tracks how far the current attack effect has played.  Re-armed at zero
/// each time either attacker's effect window begins; the shake amplitude
/// and flash colours drawn from it are the renderer's business, while the
/// engine owns the elapsed time and the completion decision.
#[derive(Clone, Copy, Debug, PartialEq, Eq, Structural)]
pub struct AttackEffects {
    pub elapsed_ms: u32,
}

impl AttackEffects {
    /// The elapsed time stays inside the effect window.
    pub open spec fn wf(self) -> bool {
        self.elapsed_ms < ATTACK_DURATION_MS
    }

    /// A fresh tracker sits at the start of the window.
    pub fn new() -> (r: AttackEffects)
        ensures
            r.elapsed_ms == 0,
            r.wf(),
    {
        AttackEffects { elapsed_ms: 0 }
    }

    /// Re-arm the tracker for a new effect window.
    pub fn reset(&mut self)
        ensures
            final(self).elapsed_ms == 0,
            final(self).wf(),
    {
        self.elapsed_ms = 0;
    }

    /// Advance the tracker by one frame's elapsed time.  Returns whether
    /// the effect window completed during this frame; on completion the
    /// tracker wraps, keeping the overshoot, like a repeating timer.
    pub fn tick(&mut self, delta_ms: u32) -> (finished: bool)
        requires
            old(self).wf(),
            delta_ms <= MAX_TICK_MS,
        ensures
            finished == (old(self).elapsed_ms + delta_ms >= ATTACK_DURATION_MS),
            finished ==> final(self).elapsed_ms == (old(self).elapsed_ms + delta_ms) % (
            ATTACK_DURATION_MS as int),
            !finished ==> final(self).elapsed_ms == old(self).elapsed_ms + delta_ms,
            final(self).wf(),
    {
        let advanced: u32 = self.elapsed_ms + delta_ms;
        if advanced >= ATTACK_DURATION_MS {
            self.elapsed_ms = advanced % ATTACK_DURATION_MS;
            true
        } else {
            self.elapsed_ms = advanced;
            false
        }
    }

    /// Whether the enemy sprite is shown right now during the player's
    /// attack flash.
    pub fn flash_visible(&self) -> (r: bool)
        ensures
            r == spec_flash_visible(self.elapsed_ms),
    {
        !(self.elapsed_ms % FLASH_INTERVAL_MS > FLASH_INTERVAL_MS / 2)
    }
}

} // verus!
