//! One combat encounter from entry to exit: the state machine, the event
//! pipeline, and the per-tick schedule that orders its parts.
//!
//! Each frame the caller hands the session one tick: the frame's input
//! edges and elapsed time.  Within a tick the parts run in a fixed,
//! explicit order — commands (menu, reward confirmation, the enemy-turn
//! trigger), then damage resolution, then the reward on a lethal hit, then
//! the attack-effect timer — so the timer always observes the state the
//! resolution step just committed, and the resolution engine is the sole
//! mutator of combat stats.

use vstd::prelude::*;

use crate::effects::ATTACK_DURATION_MS;
use crate::effects::AttackEffects;
use crate::effects::MAX_TICK_MS;
use crate::effects::spec_flash_visible;
use crate::events::FightEvent;
use crate::events::FightMailbox;
use crate::events::Target;
use crate::events::spec_posted;
use crate::menu::CombatMenuOption;
use crate::menu::CombatMenuSelection;
use crate::menu::spec_moved_selection;
use crate::player::LEVEL_UP_EXP;
use crate::player::LEVEL_UP_GROWTH;
use crate::player::Player;
use crate::player::spec_give_exp;
use crate::state::CombatState;
use crate::state::GameState;
use crate::stats::CombatStats;
use crate::stats::STAT_LIMIT;
use crate::stats::resolve;
use crate::stats::spec_resolve;

verus! {

/// The experience awarded for a victory; a flat engine constant.
pub const REWARD_EXP: usize = 30;

/// One frame's input, polled as just-pressed edges.
#[derive(Clone, Copy, Debug, PartialEq, Eq, Structural)]
pub struct CombatInput {
    pub select_left: bool,
    pub select_right: bool,
    pub confirm: bool,
}

/// A request to the screen-transition collaborator: fade, then switch to
/// the given mode, or pop back to the previously active mode if no target
/// is given.  Combat only ever requests the pop.
#[derive(Clone, Copy, Debug, PartialEq, Eq)]
pub struct FadeRequest {
    pub next_state: Option<GameState>,
}

/// The faults a tick can surface.  A missing combatant is an unrecoverable
/// precondition violation — the encounter cannot exist without exactly one
/// player and one enemy — fatal to the encounter but not to the process.
#[derive(Clone, Copy, Debug, PartialEq, Eq, Structural)]
pub enum CombatError {
    InvariantViolation,
}

/// What one tick asks of the session's collaborators.  Fields left at
/// `None` (or `false`) ask for nothing.
#[derive(Clone, Copy, Debug, PartialEq, Eq)]
pub struct TickOutput {
    /// Ask the screen-transition collaborator to fade out.
    pub fade: Option<FadeRequest>,
    /// Refresh a combatant's displayed health counter.
    pub health_display: Option<(Target, isize)>,
    /// Display the victory banner with the experience earned.
    pub reward_display: Option<usize>,
    /// Display the level-up notice beside the victory banner.
    pub level_up_display: bool,
    /// Show or hide the enemy sprite (the hit flash).
    pub enemy_visible: Option<bool>,
    /// How far the screen-shake effect has played, in milliseconds of the
    /// effect window; the camera derives its horizontal jitter from it.
    pub shake_elapsed_ms: Option<u32>,
}

/// One combat encounter's entire state, explicitly owned: created at
/// combat entry, dropped at combat exit, never ambient.
#[derive(Clone, Copy, Debug, PartialEq, Eq)]
pub struct CombatSession {
    pub state: CombatState,
    pub menu: CombatMenuSelection,
    pub mailbox: FightMailbox,
    pub effects: AttackEffects,
    pub player: Player,
    pub player_stats: CombatStats,
    pub enemy_stats: Option<CombatStats>,
}

/// The stats of the combatant an event is aimed at, if that combatant
/// is present.
pub open spec fn spec_target_stats(s: CombatSession, target: Target) -> Option<CombatStats> {
    match target {
        Target::Player => Some(s.player_stats),
        Target::Enemy => s.enemy_stats,
    }
}

/// The session with the addressed combatant's stats replaced.
pub open spec fn spec_with_target_stats(
    s: CombatSession,
    target: Target,
    stats: CombatStats,
) -> CombatSession {
    match target {
        Target::Player => CombatSession { player_stats: stats, ..s },
        Target::Enemy => CombatSession { enemy_stats: Some(stats), ..s },
    }
}

/// The command step.  During the player's turn the menu moves and a
/// confirmation either enqueues the player's attack (`Fight`) or requests
/// the exit fade without touching the state machine (`Run`).  While the
/// reward screen shows, a confirmation leaves combat.  In
/// `EnemyTurnPending` the automatic enemy attack is enqueued exactly once
/// and the machine moves to `EnemyTurnFired` so it cannot fire again.
/// `None` stands for a missing enemy where one is required.
pub open spec fn spec_commands(s: CombatSession, input: CombatInput) -> Option<
    (CombatSession, Option<FadeRequest>),
> {
    if s.state == CombatState::PlayerTurn {
        let moved = spec_moved_selection(s.menu.selected, input.select_left, input.select_right);
        let s1 = CombatSession { menu: CombatMenuSelection { selected: moved }, ..s };
        if input.confirm {
            if moved == CombatMenuOption::Fight {
                if s1.enemy_stats is Some {
                    let event = FightEvent {
                        target: Target::Enemy,
                        damage_amount: s1.player_stats.attack,
                        next_state: CombatState::PlayerAttack,
                    };
                    Some(
                        (
                            CombatSession {
                                mailbox: FightMailbox { slot: spec_posted(s1.mailbox.slot, event) },
                                ..s1
                            },
                            None,
                        ),
                    )
                } else {
                    None
                }
            } else {
                Some((s1, Some(FadeRequest { next_state: None })))
            }
        } else {
            Some((s1, None))
        }
    } else if s.state == CombatState::Reward {
        if input.confirm {
            Some(
                (
                    CombatSession { state: CombatState::Exiting, ..s },
                    Some(FadeRequest { next_state: None }),
                ),
            )
        } else {
            Some((s, None))
        }
    } else if s.state == CombatState::EnemyTurnPending {
        match s.enemy_stats {
            Some(enemy) => {
                let event = FightEvent {
                    target: Target::Player,
                    damage_amount: enemy.attack,
                    next_state: CombatState::EnemyAttack,
                };
                Some(
                    (
                        CombatSession {
                            state: CombatState::EnemyTurnFired,
                            mailbox: FightMailbox { slot: spec_posted(s.mailbox.slot, event) },
                            ..s
                        },
                        None,
                    ),
                )
            },
            None => None,
        }
    } else {
        Some((s, None))
    }
}

/// The damage resolution step: drain the mailbox, and if an event was
/// pending, land the hit on its target, clamped at zero.  A lethal hit
/// routes the machine to `Reward`; otherwise it moves to the event's
/// declared next state, re-arming the attack-effect timer when that state
/// opens an effect window.  The result carries the refreshed health
/// display and whether the hit was lethal.
pub open spec fn spec_resolution(s: CombatSession) -> Option<
    (CombatSession, Option<(Target, isize)>, bool),
> {
    match s.mailbox.slot {
        None => Some((s, None, false)),
        Some(event) => {
            let drained = CombatSession { mailbox: FightMailbox { slot: None }, ..s };
            match spec_target_stats(s, event.target) {
                None => None,
                Some(stats) => {
                    let new_health = spec_resolve(
                        stats.health as int,
                        event.damage_amount as int,
                        stats.defense as int,
                    );
                    let written = spec_with_target_stats(
                        drained,
                        event.target,
                        CombatStats { health: new_health as isize, ..stats },
                    );
                    let lethal = new_health == 0;
                    let s2 = if lethal {
                        CombatSession { state: CombatState::Reward, ..written }
                    } else if event.next_state.is_attack_effect() {
                        CombatSession {
                            state: event.next_state,
                            effects: AttackEffects { elapsed_ms: 0 },
                            ..written
                        }
                    } else {
                        CombatSession { state: event.next_state, ..written }
                    };
                    Some((s2, Some((event.target, new_health as isize)), lethal))
                },
            }
        },
    }
}

/// The reward step, taken once on entering `Reward`: award the flat
/// experience and apply any level-up to the player's stats.
pub open spec fn spec_reward(s: CombatSession) -> (CombatSession, usize, bool) {
    let (player, stats, leveled) = spec_give_exp(s.player, s.player_stats, REWARD_EXP);
    (CombatSession { player: player, player_stats: stats, ..s }, REWARD_EXP, leveled)
}

/// The attack-effect step.  While an effect window is open the timer
/// advances; during the player's attack the enemy sprite flashes, during
/// the enemy's attack the screen shakes.  When the window completes the
/// sprite is forced visible and the machine advances — to the enemy's
/// pending turn after the player's attack, back to the player's turn after
/// the enemy's.  `None` stands for a missing enemy sprite.
pub open spec fn spec_effects_step(s: CombatSession, delta_ms: u32) -> Option<
    (CombatSession, Option<bool>, Option<u32>),
> {
    if s.state.is_attack_effect() {
        if s.enemy_stats is None {
            None
        } else {
            let advanced: int = s.effects.elapsed_ms + delta_ms;
            let finished = advanced >= ATTACK_DURATION_MS;
            let new_elapsed: u32 = if finished {
                (advanced % (ATTACK_DURATION_MS as int)) as u32
            } else {
                advanced as u32
            };
            let ticked = CombatSession { effects: AttackEffects { elapsed_ms: new_elapsed }, ..s };
            if finished {
                let next = if s.state == CombatState::PlayerAttack {
                    CombatState::EnemyTurnPending
                } else {
                    CombatState::PlayerTurn
                };
                let shake = if s.state == CombatState::EnemyAttack {
                    Some(ATTACK_DURATION_MS)
                } else {
                    None
                };
                Some((CombatSession { state: next, ..ticked }, Some(true), shake))
            } else if s.state == CombatState::PlayerAttack {
                Some((ticked, Some(spec_flash_visible(new_elapsed)), None))
            } else {
                Some((ticked, None, Some(new_elapsed)))
            }
        }
    } else {
        Some((s, None, None))
    }
}

/// One whole tick: commands, then damage resolution, then the reward on a
/// lethal hit, then the attack effects.  `None` stands for a missing
/// combatant somewhere along the way.
pub open spec fn spec_tick(s: CombatSession, input: CombatInput, delta_ms: u32) -> Option<
    (CombatSession, TickOutput),
> {
    match spec_commands(s, input) {
        None => None,
        Some((s1, fade)) => match spec_resolution(s1) {
            None => None,
            Some((s2, health_display, lethal)) => {
                let (s3, reward_display, level_up_display): (CombatSession, Option<usize>, bool) =
                    if lethal {
                    let (sr, exp, leveled) = spec_reward(s2);
                    (sr, Some(exp), leveled)
                } else {
                    (s2, None, false)
                };
                match spec_effects_step(s3, delta_ms) {
                    None => None,
                    Some(
                        (s4, enemy_visible, shake_elapsed_ms),
                    ) => Some(
                        (
                            s4,
                            TickOutput {
                                fade,
                                health_display,
                                reward_display,
                                level_up_display,
                                enemy_visible,
                                shake_elapsed_ms,
                            },
                        ),
                    ),
                }
            },
        },
    }
}

impl CombatSession {
    /// The session's running invariant: stats never go negative, the
    /// effect timer stays inside its window, and a pending event's damage
    /// is a stat some combatant produced.
    pub open spec fn wf(self) -> bool {
        &&& self.player_stats.non_negative()
        &&& (self.enemy_stats matches Some(enemy) ==> enemy.non_negative())
        &&& self.effects.wf()
        &&& (self.mailbox.slot matches Some(event) ==> 0 <= event.damage_amount <= STAT_LIMIT)
    }

    /// The working range a tick asks of its caller: every stat within the
    /// engine's bound and room to bank one more reward.  Not an invariant
    /// — the unclamped damage formula can push health past any fixed cap
    /// — so the caller re-checks it before each tick.
    pub open spec fn in_range(self) -> bool {
        &&& self.player_stats.in_range()
        &&& (self.enemy_stats matches Some(enemy) ==> enemy.in_range())
        &&& self.player.exp + REWARD_EXP <= usize::MAX
    }

    /// Open an encounter: the player faces one freshly spawned enemy, the
    /// menu rests on `Fight`, no attack is pending, and it is the player's
    /// turn.
    pub fn new(player: Player, player_stats: CombatStats, enemy_stats: CombatStats) -> (r:
        CombatSession)
        ensures
            r == (CombatSession {
                state: CombatState::PlayerTurn,
                menu: CombatMenuSelection { selected: CombatMenuOption::Fight },
                mailbox: FightMailbox { slot: None },
                effects: AttackEffects { elapsed_ms: 0 },
                player,
                player_stats,
                enemy_stats: Some(enemy_stats),
            }),
            player_stats.non_negative() && enemy_stats.non_negative() ==> r.wf(),
    {
        CombatSession {
            state: CombatState::PlayerTurn,
            menu: CombatMenuSelection::new(),
            mailbox: FightMailbox::new(),
            effects: AttackEffects::new(),
            player,
            player_stats,
            enemy_stats: Some(enemy_stats),
        }
    }

    /// Remove the enemy entity, as combat teardown does on exit.
    pub fn despawn_enemy(&mut self)
        ensures
            *final(self) == (CombatSession { enemy_stats: None, ..*old(self) }),
    {
        self.enemy_stats = None;
    }

    /// Runtime mirror of `wf`, for callers outside the verified world.
    pub fn check_wf(&self) -> (r: bool)
        ensures
            r == self.wf(),
    {
        let stats_ok: bool = self.player_stats.health >= 0 && self.player_stats.max_health >= 0
            && self.player_stats.attack >= 0 && self.player_stats.defense >= 0;
        let enemy_ok: bool = match self.enemy_stats {
            Some(enemy) => enemy.health >= 0 && enemy.max_health >= 0 && enemy.attack >= 0
                && enemy.defense >= 0,
            None => true,
        };
        let mailbox_ok: bool = match self.mailbox.slot {
            Some(event) => 0 <= event.damage_amount && event.damage_amount <= STAT_LIMIT,
            None => true,
        };
        stats_ok && enemy_ok && mailbox_ok && self.effects.elapsed_ms < ATTACK_DURATION_MS
    }

    /// Runtime mirror of `in_range`, for callers outside the verified
    /// world.
    pub fn check_in_range(&self) -> (r: bool)
        ensures
            r == self.in_range(),
    {
        let enemy_ok: bool = match self.enemy_stats {
            Some(enemy) => enemy.check_in_range(),
            None => true,
        };
        self.player_stats.check_in_range() && enemy_ok && self.player.exp <= usize::MAX - REWARD_EXP
    }

    /// The command step of one tick; see `spec_commands`.
    pub fn apply_commands(&mut self, input: CombatInput) -> (r: Result<
        Option<FadeRequest>,
        CombatError,
    >)
        ensures
            (match spec_commands(*old(self), input) {
                Some((s1, fade)) => r == Ok::<Option<FadeRequest>, CombatError>(fade) && *final(self)
                    == s1,
                None => r == Err::<Option<FadeRequest>, CombatError>(CombatError::InvariantViolation)
                    && *final(self) == *old(self),
            }),
    {
        let saved: CombatSession = *self;
        match self.state {
            CombatState::PlayerTurn => {
                self.menu.apply(input.select_left, input.select_right);
                if input.confirm {
                    match self.menu.selected {
                        CombatMenuOption::Fight => {
                            if self.enemy_stats.is_some() {
                                self.mailbox.post(
                                    FightEvent {
                                        target: Target::Enemy,
                                        damage_amount: self.player_stats.attack,
                                        next_state: CombatState::PlayerAttack,
                                    },
                                );
                                Ok(None)
                            } else {
                                *self = saved;
                                Err(CombatError::InvariantViolation)
                            }
                        },
                        CombatMenuOption::Run => Ok(Some(FadeRequest { next_state: None })),
                    }
                } else {
                    Ok(None)
                }
            },
            CombatState::Reward => {
                if input.confirm {
                    self.state = CombatState::Exiting;
                    Ok(Some(FadeRequest { next_state: None }))
                } else {
                    Ok(None)
                }
            },
            CombatState::EnemyTurnPending => {
                match self.enemy_stats {
                    Some(enemy) => {
                        self.mailbox.post(
                            FightEvent {
                                target: Target::Player,
                                damage_amount: enemy.attack,
                                next_state: CombatState::EnemyAttack,
                            },
                        );
                        self.state = CombatState::EnemyTurnFired;
                        Ok(None)
                    },
                    None => Err(CombatError::InvariantViolation),
                }
            },
            _ => Ok(None),
        }
    }

    /// The damage resolution step of one tick; see `spec_resolution`.
    pub fn resolve_damage(&mut self) -> (r: Result<(Option<(Target, isize)>, bool), CombatError>)
        requires
            old(self).wf(),
            old(self).player_stats.in_range(),
            (old(self).enemy_stats matches Some(enemy) ==> enemy.in_range()),
        ensures
            (match spec_resolution(*old(self)) {
                Some((s1, health_display, lethal)) => r == Ok::<
                    (Option<(Target, isize)>, bool),
                    CombatError,
                >((health_display, lethal)) && *final(self) == s1,
                None => r == Err::<(Option<(Target, isize)>, bool), CombatError>(
                    CombatError::InvariantViolation,
                ) && *final(self) == *old(self),
            }),
    {
        let saved: CombatSession = *self;
        let taken: Option<FightEvent> = self.mailbox.take();
        match taken {
            None => Ok((None, false)),
            Some(event) => {
                let stats: CombatStats = match event.target {
                    Target::Player => self.player_stats,
                    Target::Enemy => {
                        match self.enemy_stats {
                            Some(enemy) => enemy,
                            None => {
                                *self = saved;
                                return Err(CombatError::InvariantViolation);
                            },
                        }
                    },
                };
                let new_health: isize = resolve(stats.health, event.damage_amount, stats.defense);
                let updated: CombatStats = CombatStats { health: new_health, ..stats };
                match event.target {
                    Target::Player => {
                        self.player_stats = updated;
                    },
                    Target::Enemy => {
                        self.enemy_stats = Some(updated);
                    },
                }
                let lethal: bool = new_health == 0;
                if lethal {
                    self.state = CombatState::Reward;
                } else {
                    self.state = event.next_state;
                    if event.next_state == CombatState::PlayerAttack || event.next_state
                        == CombatState::EnemyAttack {
                        self.effects.reset();
                    }
                }
                Ok((Some((event.target, new_health)), lethal))
            },
        }
    }

    /// The reward step, taken once on entering `Reward`; see `spec_reward`.
    /// Returns the experience awarded and whether a level-up occurred.
    pub fn give_reward(&mut self) -> (r: (usize, bool))
        requires
            old(self).player.exp + REWARD_EXP <= usize::MAX,
            old(self).player.exp + REWARD_EXP >= LEVEL_UP_EXP ==> {
                &&& old(self).player_stats.health + LEVEL_UP_GROWTH <= isize::MAX
                &&& old(self).player_stats.max_health + LEVEL_UP_GROWTH <= isize::MAX
                &&& old(self).player_stats.attack + LEVEL_UP_GROWTH <= isize::MAX
                &&& old(self).player_stats.defense + LEVEL_UP_GROWTH <= isize::MAX
            },
        ensures
            ({
                let (s1, exp, leveled) = spec_reward(*old(self));
                &&& *final(self) == s1
                &&& r == (exp, leveled)
            }),
    {
        let leveled_up: bool = self.player.give_exp(REWARD_EXP, &mut self.player_stats);
        (REWARD_EXP, leveled_up)
    }

    /// The attack-effect step of one tick; see `spec_effects_step`.
    pub fn advance_effects(&mut self, delta_ms: u32) -> (r: Result<
        (Option<bool>, Option<u32>),
        CombatError,
    >)
        requires
            old(self).effects.wf(),
            delta_ms <= MAX_TICK_MS,
        ensures
            (match spec_effects_step(*old(self), delta_ms) {
                Some((s1, enemy_visible, shake_elapsed_ms)) => r == Ok::<
                    (Option<bool>, Option<u32>),
                    CombatError,
                >((enemy_visible, shake_elapsed_ms)) && *final(self) == s1,
                None => r == Err::<(Option<bool>, Option<u32>), CombatError>(
                    CombatError::InvariantViolation,
                ) && *final(self) == *old(self),
            }),
    {
        if self.state == CombatState::PlayerAttack || self.state == CombatState::EnemyAttack {
            if self.enemy_stats.is_none() {
                return Err(CombatError::InvariantViolation);
            }
            let was_player_attack: bool = self.state == CombatState::PlayerAttack;
            let finished: bool = self.effects.tick(delta_ms);
            if finished {
                self.state = if was_player_attack {
                    CombatState::EnemyTurnPending
                } else {
                    CombatState::PlayerTurn
                };
                let shake: Option<u32> = if was_player_attack {
                    None
                } else {
                    Some(ATTACK_DURATION_MS)
                };
                Ok((Some(true), shake))
            } else if was_player_attack {
                let visible: bool = self.effects.flash_visible();
                Ok((Some(visible), None))
            } else {
                Ok((None, Some(self.effects.elapsed_ms)))
            }
        } else {
            Ok((None, None))
        }
    }

    /// One frame of the encounter, the explicit sequential pipeline:
    /// commands, damage resolution, the reward on a lethal hit, attack
    /// effects.  On a missing combatant the session is left untouched and
    /// the tick reports the fault.
    pub fn tick(&mut self, input: CombatInput, delta_ms: u32) -> (r: Result<
        TickOutput,
        CombatError,
    >)
        requires
            old(self).wf(),
            old(self).in_range(),
            delta_ms <= MAX_TICK_MS,
        ensures
            (match spec_tick(*old(self), input, delta_ms) {
                Some((s1, output)) => r == Ok::<TickOutput, CombatError>(output) && *final(self)
                    == s1,
                None => r == Err::<TickOutput, CombatError>(CombatError::InvariantViolation)
                    && *final(self) == *old(self),
            }),
            r.is_ok() ==> final(self).wf(),
    {
        let mut work: CombatSession = *self;
        let fade: Option<FadeRequest> = match work.apply_commands(input) {
            Ok(fade) => fade,
            Err(violation) => {
                return Err(violation);
            },
        };
        let (health_display, lethal): (Option<(Target, isize)>, bool) = match work.resolve_damage() {
            Ok(resolved) => resolved,
            Err(violation) => {
                return Err(violation);
            },
        };
        let (reward_display, level_up_display): (Option<usize>, bool) = if lethal {
            let (exp, leveled_up): (usize, bool) = work.give_reward();
            (Some(exp), leveled_up)
        } else {
            (None, false)
        };
        let (enemy_visible, shake_elapsed_ms): (Option<bool>, Option<u32>) = match work
            .advance_effects(delta_ms) {
            Ok(effects_out) => effects_out,
            Err(violation) => {
                return Err(violation);
            },
        };
        *self = work;
        Ok(
            TickOutput {
                fade,
                health_display,
                reward_display,
                level_up_display,
                enemy_visible,
                shake_elapsed_ms,
            },
        )
    }
}

/// Confirming `Fight` never stalls: from the player's turn with `Fight`
/// selected and the enemy present, the confirming tick itself lands in
/// `Reward` (lethal hit), or in `EnemyTurnPending` (the frame swallowed
/// the whole effect window), or in `PlayerAttack` — and from there any one
/// later tick whose frame time completes the effect window reaches
/// `EnemyTurnPending`, whatever is pressed meanwhile.  So within two
/// effect-timer cycles the machine reaches exactly one of
/// `EnemyTurnPending` or `Reward`.
pub proof fn lemma_fight_always_resolves(
    s: CombatSession,
    input: CombatInput,
    first_delta: u32,
    later_input: CombatInput,
    later_delta: u32,
)
    requires
        s.wf(),
        s.state == CombatState::PlayerTurn,
        s.menu.selected == CombatMenuOption::Fight,
        s.mailbox.slot is None,
        s.enemy_stats is Some,
        !input.select_left,
        !input.select_right,
        input.confirm,
        first_delta <= MAX_TICK_MS,
        ATTACK_DURATION_MS <= later_delta <= MAX_TICK_MS,
    ensures
        spec_tick(s, input, first_delta) is Some,
        ({
            let (s1, _) = spec_tick(s, input, first_delta).unwrap();
            ||| s1.state == CombatState::Reward
            ||| s1.state == CombatState::EnemyTurnPending
            ||| {
                &&& s1.state == CombatState::PlayerAttack
                &&& spec_tick(s1, later_input, later_delta) is Some
                &&& spec_tick(s1, later_input, later_delta).unwrap().0.state
                    == CombatState::EnemyTurnPending
            }
        }),
{
}

/// Selecting `Run` during the player's turn requests the exit fade at
/// once: no fight event is enqueued, no stats change, and the state
/// machine is not touched.
pub proof fn lemma_run_requests_exit(s: CombatSession, input: CombatInput, delta_ms: u32)
    requires
        s.state == CombatState::PlayerTurn,
        s.menu.selected == CombatMenuOption::Run,
        s.mailbox.slot is None,
        !input.select_left,
        !input.select_right,
        input.confirm,
    ensures
        spec_tick(s, input, delta_ms) is Some,
        ({
            let (s1, output) = spec_tick(s, input, delta_ms).unwrap();
            &&& output.fade == Some(FadeRequest { next_state: None })
            &&& output.health_display is None
            &&& s1.mailbox.slot is None
            &&& s1.state == s.state
            &&& s1.player_stats == s.player_stats
            &&& s1.enemy_stats == s.enemy_stats
            &&& s1.player == s.player
        }),
{
}

} // verus!
