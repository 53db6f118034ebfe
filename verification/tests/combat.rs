use combat_engine::effects::AttackEffects;
use combat_engine::events::{FightEvent, FightMailbox, Target};
use combat_engine::menu::{CombatMenuOption, CombatMenuSelection};
use combat_engine::player::Player;
use combat_engine::session::{CombatError, CombatInput, CombatSession, FadeRequest};
use combat_engine::state::CombatState;
use combat_engine::stats::{bat_stats, player_starting_stats, resolve, CombatStats};

fn idle() -> CombatInput {
    CombatInput { select_left: false, select_right: false, confirm: false }
}

fn confirm() -> CombatInput {
    CombatInput { select_left: false, select_right: false, confirm: true }
}

fn fresh_session(enemy: CombatStats) -> CombatSession {
    CombatSession::new(Player::new(), player_starting_stats(), enemy)
}

#[test]
fn resolve_matches_formula() {
    assert_eq!(resolve(3, 2, 1), 2);
    assert_eq!(resolve(1, 3, 1), 0);
    assert_eq!(resolve(10, 0, 0), 10);
    assert_eq!(resolve(5, 20, 1), 0);
    assert_eq!(resolve(0, 0, 0), 0);
}

#[test]
fn resolve_can_heal_when_defense_exceeds_damage() {
    // The unclamped formula: defense above incoming damage raises health.
    assert_eq!(resolve(3, 1, 4), 6);
    assert_eq!(resolve(0, 0, 2), 2);
}

#[test]
fn menu_wraps_around() {
    let mut menu = CombatMenuSelection::new();
    assert_eq!(menu.selected, CombatMenuOption::Fight);
    menu.advance(1);
    assert_eq!(menu.selected, CombatMenuOption::Run);
    menu.advance(1);
    assert_eq!(menu.selected, CombatMenuOption::Fight);
    menu.advance(-1);
    assert_eq!(menu.selected, CombatMenuOption::Run);
    menu.advance(-1);
    assert_eq!(menu.selected, CombatMenuOption::Fight);
}

#[test]
fn menu_both_directions_cancel() {
    let mut menu = CombatMenuSelection::new();
    menu.apply(true, true);
    assert_eq!(menu.selected, CombatMenuOption::Fight);
    menu.apply(true, false);
    assert_eq!(menu.selected, CombatMenuOption::Run);
    assert!(menu.is_selected(CombatMenuOption::Run));
    assert!(!menu.is_selected(CombatMenuOption::Fight));
    menu.apply(false, true);
    assert_eq!(menu.selected, CombatMenuOption::Fight);
}

#[test]
fn give_exp_crossing_threshold_levels_up() {
    let mut player = Player { active: true, exp: 25 };
    let mut stats = CombatStats::new(10, 10, 2, 1);
    let leveled = player.give_exp(30, &mut stats);
    assert!(leveled);
    assert_eq!(player.exp, 5);
    assert_eq!(stats, CombatStats::new(12, 12, 4, 3));
}

#[test]
fn give_exp_below_threshold_only_banks() {
    let mut player = Player { active: true, exp: 10 };
    let mut stats = CombatStats::new(10, 10, 2, 1);
    let leveled = player.give_exp(5, &mut stats);
    assert!(!leveled);
    assert_eq!(player.exp, 15);
    assert_eq!(stats, CombatStats::new(10, 10, 2, 1));
}

#[test]
fn give_exp_checks_threshold_once() {
    // One huge award yields a single level-up and banks the rest.
    let mut player = Player { active: true, exp: 0 };
    let mut stats = CombatStats::new(10, 10, 2, 1);
    let leveled = player.give_exp(120, &mut stats);
    assert!(leveled);
    assert_eq!(player.exp, 70);
    assert_eq!(stats, CombatStats::new(12, 12, 4, 3));
}

#[test]
fn scenario_player_attack_then_enemy_turn() {
    // Enemy {3, 2, 1}, player attacks with 2: enemy drops to 2, the attack
    // effect plays, and after its window the enemy turn is pending.
    let mut session = fresh_session(bat_stats());
    let out = session.tick(confirm(), 16).unwrap();
    assert_eq!(session.state, CombatState::PlayerAttack);
    assert_eq!(
        session.enemy_stats,
        Some(CombatStats { health: 2, max_health: 3, attack: 2, defense: 1 })
    );
    assert_eq!(out.health_display, Some((Target::Enemy, 2)));
    assert_eq!(out.fade, None);
    assert_eq!(out.reward_display, None);

    let out2 = session.tick(idle(), 700).unwrap();
    assert_eq!(session.state, CombatState::EnemyTurnPending);
    assert_eq!(out2.enemy_visible, Some(true));
}

#[test]
fn scenario_lethal_hit_reaches_reward() {
    // Enemy health 1, player attack 3, enemy defense 1:
    // max(1 - (3 - 1), 0) == 0, so the machine routes to Reward and the
    // victory banner reads "Earned: 30 exp".
    let mut session = fresh_session(CombatStats::new(1, 1, 2, 1));
    session.player_stats.attack = 3;
    let out = session.tick(confirm(), 16).unwrap();
    assert_eq!(session.enemy_stats.unwrap().health, 0);
    assert_eq!(session.state, CombatState::Reward);
    assert_eq!(out.health_display, Some((Target::Enemy, 0)));
    assert_eq!(out.reward_display, Some(30));
    assert!(!out.level_up_display);
    assert_eq!(session.player.exp, 30);
    assert_eq!(
        combat_engine::text::reward_line(out.reward_display.unwrap() as u64),
        "Earned: 30 exp"
    );
}

#[test]
fn scenario_run_requests_exit_untouched() {
    // Selecting Run during the player's turn asks for the exit fade at
    // once: nothing is enqueued and no stats move.
    let mut session = fresh_session(bat_stats());
    let mut with_run = session;
    with_run.menu.selected = CombatMenuOption::Run;
    let out = with_run.tick(confirm(), 16).unwrap();
    assert_eq!(out.fade, Some(FadeRequest { next_state: None }));
    assert_eq!(with_run.state, CombatState::PlayerTurn);
    assert_eq!(with_run.mailbox.slot, None);
    assert_eq!(with_run.player_stats, session.player_stats);
    assert_eq!(with_run.enemy_stats, session.enemy_stats);
    assert_eq!(out.health_display, None);
    // The same exit can be picked by moving the selection right first.
    let input = CombatInput { select_left: false, select_right: true, confirm: true };
    let out2 = session.tick(input, 16).unwrap();
    assert_eq!(session.menu.selected, CombatMenuOption::Run);
    assert_eq!(out2.fade, Some(FadeRequest { next_state: None }));
}

#[test]
fn full_encounter_round_trip() {
    // Player {10, 2, 1} against the bat {3, 2, 1}: three attack rounds,
    // with the enemy striking back in between, end in victory.
    let mut session = fresh_session(bat_stats());
    let mut rounds = 0;
    loop {
        assert!(session.check_wf() && session.check_in_range());
        let _ = session.tick(confirm(), 16).unwrap();
        assert_eq!(session.state, CombatState::PlayerAttack);
        // Let the player's attack effect finish.
        session.tick(idle(), 700).unwrap();
        assert_eq!(session.state, CombatState::EnemyTurnPending);
        rounds += 1;
        if session.enemy_stats.unwrap().health == 0 {
            panic!("lethal hit should have routed to Reward");
        }
        if rounds == 3 {
            unreachable!("the bat falls on the third round");
        }
        // The enemy turn fires automatically, resolves against the
        // player, and the enemy's attack effect plays out.
        let out = session.tick(idle(), 16).unwrap();
        assert_eq!(session.state, CombatState::EnemyAttack);
        assert_eq!(out.health_display, Some((Target::Player, 10 - rounds)));
        session.tick(idle(), 700).unwrap();
        assert_eq!(session.state, CombatState::PlayerTurn);
        if rounds == 2 {
            // Third player attack is lethal: 1 - (2 - 1) == 0.
            assert_eq!(session.enemy_stats.unwrap().health, 1);
            let out = session.tick(confirm(), 16).unwrap();
            assert_eq!(session.state, CombatState::Reward);
            assert_eq!(out.reward_display, Some(30));
            break;
        }
    }
    // Confirming on the reward screen leaves combat.
    let out = session.tick(confirm(), 16).unwrap();
    assert_eq!(session.state, CombatState::Exiting);
    assert_eq!(out.fade, Some(FadeRequest { next_state: None }));
    session.despawn_enemy();
    assert_eq!(session.enemy_stats, None);
}

#[test]
fn missing_enemy_is_an_invariant_violation() {
    let mut session = fresh_session(bat_stats());
    session.despawn_enemy();
    let before = session;
    let r = session.tick(confirm(), 16);
    assert_eq!(r, Err(CombatError::InvariantViolation));
    assert_eq!(session, before);
}

#[test]
fn missing_enemy_during_enemy_turn_is_a_violation() {
    let mut session = fresh_session(bat_stats());
    session.state = CombatState::EnemyTurnPending;
    session.despawn_enemy();
    let r = session.tick(idle(), 16);
    assert_eq!(r, Err(CombatError::InvariantViolation));
    assert_eq!(session.state, CombatState::EnemyTurnPending);
}

#[test]
fn pipeline_steps_compose_one_attack() {
    let mut session = fresh_session(bat_stats());
    let fade = session.apply_commands(confirm()).unwrap();
    assert_eq!(fade, None);
    assert_eq!(
        session.mailbox.slot,
        Some(FightEvent {
            target: Target::Enemy,
            damage_amount: 2,
            next_state: CombatState::PlayerAttack,
        })
    );
    let (health_display, lethal) = session.resolve_damage().unwrap();
    assert_eq!(health_display, Some((Target::Enemy, 2)));
    assert!(!lethal);
    assert_eq!(session.mailbox.slot, None);
    assert_eq!(session.state, CombatState::PlayerAttack);
    let (enemy_visible, shake) = session.advance_effects(60).unwrap();
    assert_eq!(enemy_visible, Some(false));
    assert_eq!(shake, None);
}

#[test]
fn give_reward_awards_the_flat_exp() {
    let mut session = fresh_session(bat_stats());
    session.player.exp = 25;
    let (exp, leveled_up) = session.give_reward();
    assert_eq!(exp, 30);
    assert!(leveled_up);
    assert_eq!(session.player.exp, 5);
    assert_eq!(session.player_stats, CombatStats::new(12, 12, 4, 3));
}

#[test]
fn mailbox_keeps_the_first_event() {
    let mut mailbox = FightMailbox::new();
    let first = FightEvent {
        target: Target::Enemy,
        damage_amount: 2,
        next_state: CombatState::PlayerAttack,
    };
    let second = FightEvent {
        target: Target::Player,
        damage_amount: 9,
        next_state: CombatState::EnemyAttack,
    };
    mailbox.post(first);
    mailbox.post(second);
    assert_eq!(mailbox.take(), Some(first));
    assert_eq!(mailbox.take(), None);
}

#[test]
fn effect_timer_wraps_on_completion() {
    let mut fx = AttackEffects::new();
    assert!(!fx.tick(650));
    assert_eq!(fx.elapsed_ms, 650);
    assert!(fx.tick(100));
    assert_eq!(fx.elapsed_ms, 50);
}

#[test]
fn flash_is_a_square_wave() {
    let mut fx = AttackEffects::new();
    assert!(fx.flash_visible());
    fx.tick(40);
    assert!(fx.flash_visible());
    fx.tick(20);
    assert!(!fx.flash_visible());
    fx.tick(90);
    assert!(fx.flash_visible());
}

#[test]
fn enemy_attack_reports_shake_progress() {
    let mut session = fresh_session(bat_stats());
    session.state = CombatState::EnemyAttack;
    let out = session.tick(idle(), 210).unwrap();
    assert_eq!(out.shake_elapsed_ms, Some(210));
    assert_eq!(out.enemy_visible, None);
    let out2 = session.tick(idle(), 490).unwrap();
    assert_eq!(out2.shake_elapsed_ms, Some(700));
    assert_eq!(out2.enemy_visible, Some(true));
    assert_eq!(session.state, CombatState::PlayerTurn);
}

#[test]
fn victory_banks_exp_toward_level_up() {
    // A second victory crosses the threshold: 30 + 30 >= 50.
    let mut session = fresh_session(CombatStats::new(1, 1, 0, 0));
    session.player.exp = 30;
    let out = session.tick(confirm(), 16).unwrap();
    assert!(out.level_up_display);
    assert_eq!(session.player.exp, 10);
    assert_eq!(session.player_stats, CombatStats::new(12, 12, 4, 3));
    assert_eq!(combat_engine::text::level_up_line(), "Level up!");
}
