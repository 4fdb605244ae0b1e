use voidrun_godot::ai_melee::{
    ai_melee_combat_decision, can_attack, can_parry, choose_best_action, decide_reaction,
    evaluate_attack_option, evaluate_available_actions, evaluate_parry_option, execute_decision,
    decide_proactive, get_current_action, latest_telegraph, proactive_attack_decision, proactive_gate, react_to_incoming_attack,
    route_combat_ai, ActionOption, ActionType, AiActorView, AiDecision, AiRoute, AttackPhaseKind,
    CurrentAction, DecisionEffects, ParryChecks, ParryPhaseKind, ProactiveDecision, SkipReason,
};

fn viable_parry(attacker: u64) -> ParryChecks {
    ParryChecks {
        attacker,
        attacker_in_windup: true,
        enough_reaction_time: true,
        bodies_found: true,
        facing_attacker: true,
        within_parry_distance: true,
    }
}

fn nothing() -> DecisionEffects {
    DecisionEffects {
        cancel_attack: false,
        cancel_parry_preparation: false,
        attack_intent: false,
        parry_against: None,
    }
}

#[test]
fn current_action_precedence() {
    assert_eq!(
        get_current_action(Some(ParryPhaseKind::Windup), true, Some(AttackPhaseKind::Recovery)),
        CurrentAction::ParryWindup
    );
    assert_eq!(
        get_current_action(Some(ParryPhaseKind::Recovery), false, None),
        CurrentAction::ParryRecovery
    );
    assert_eq!(
        get_current_action(None, true, Some(AttackPhaseKind::ActiveHitbox)),
        CurrentAction::PreparingParry
    );
    assert_eq!(
        get_current_action(None, false, Some(AttackPhaseKind::Windup { interruptible: true })),
        CurrentAction::AttackWindup { interruptible: true }
    );
    assert_eq!(
        get_current_action(None, false, Some(AttackPhaseKind::ActiveParryWindow)),
        CurrentAction::AttackActive
    );
    assert_eq!(
        get_current_action(None, false, Some(AttackPhaseKind::Recovery)),
        CurrentAction::AttackRecovery
    );
    assert_eq!(get_current_action(None, false, Some(AttackPhaseKind::Idle)), CurrentAction::Idle);
    assert_eq!(get_current_action(None, false, None), CurrentAction::Idle);
}

#[test]
fn attack_and_parry_permissions() {
    assert!(can_attack(true, true, CurrentAction::Idle));
    assert!(can_attack(true, true, CurrentAction::AttackRecovery));
    assert!(can_attack(true, true, CurrentAction::AttackWindup { interruptible: true }));
    assert!(!can_attack(true, true, CurrentAction::AttackWindup { interruptible: false }));
    assert!(!can_attack(false, true, CurrentAction::Idle));
    assert!(!can_attack(true, false, CurrentAction::Idle));
    assert!(!can_attack(true, true, CurrentAction::AttackActive));
    assert!(!can_attack(true, true, CurrentAction::PreparingParry));
    assert!(can_parry(CurrentAction::Idle));
    assert!(can_parry(CurrentAction::AttackRecovery));
    assert!(can_parry(CurrentAction::AttackWindup { interruptible: true }));
    assert!(!can_parry(CurrentAction::AttackWindup { interruptible: false }));
    assert!(!can_parry(CurrentAction::ParryWindup));
    assert!(!can_parry(CurrentAction::ParryRecovery));
    assert!(!can_parry(CurrentAction::Staggered));
}

#[test]
fn attack_option_priority_is_one_of_the_strategies() {
    for _ in 0..50 {
        let option = evaluate_attack_option(9).unwrap();
        assert_eq!(option.action_type, ActionType::Attack { target: 9 });
        assert!(option.priority == 7 || option.priority == 3);
    }
}

#[test]
fn parry_option_requires_every_check() {
    assert!(evaluate_parry_option(viable_parry(4)).is_some());
    let mut c = viable_parry(4);
    c.enough_reaction_time = false;
    assert_eq!(evaluate_parry_option(c), None);
    let mut c = viable_parry(4);
    c.facing_attacker = false;
    assert_eq!(evaluate_parry_option(c), None);
    let mut c = viable_parry(4);
    c.within_parry_distance = false;
    assert_eq!(evaluate_parry_option(c), None);
    let option = evaluate_parry_option(viable_parry(4)).unwrap();
    assert_eq!(option.action_type, ActionType::Parry { attacker: 4 });
    assert!(option.priority == 8 || option.priority == 6);
}

#[test]
fn available_actions_end_with_wait() {
    let options = evaluate_available_actions(2, true, true, CurrentAction::Idle, viable_parry(3));
    assert_eq!(options.len(), 3);
    assert_eq!(options[0].action_type, ActionType::Attack { target: 2 });
    assert_eq!(options[1].action_type, ActionType::Parry { attacker: 3 });
    assert_eq!(options[2], ActionOption { action_type: ActionType::Wait, priority: 0 });
    let committed = evaluate_available_actions(2, true, true, CurrentAction::AttackActive, viable_parry(3));
    assert_eq!(committed, vec![ActionOption { action_type: ActionType::Wait, priority: 0 }]);
}

#[test]
fn best_action_is_first_of_highest_priority() {
    let options = vec![
        ActionOption { action_type: ActionType::Attack { target: 1 }, priority: 7 },
        ActionOption { action_type: ActionType::Parry { attacker: 2 }, priority: 8 },
        ActionOption { action_type: ActionType::Wait, priority: 0 },
    ];
    assert_eq!(choose_best_action(options), ActionType::Parry { attacker: 2 });
    let tie = vec![
        ActionOption { action_type: ActionType::Attack { target: 1 }, priority: 6 },
        ActionOption { action_type: ActionType::Parry { attacker: 2 }, priority: 6 },
    ];
    assert_eq!(choose_best_action(tie), ActionType::Attack { target: 1 });
    assert_eq!(choose_best_action(Vec::new()), ActionType::Wait);
}

#[test]
fn execute_cancels_conflicting_actions() {
    let interruptible = CurrentAction::AttackWindup { interruptible: true };
    let e = execute_decision(ActionType::Parry { attacker: 5 }, interruptible);
    assert!(e.cancel_attack);
    assert_eq!(e.parry_against, Some(5));
    assert!(!e.attack_intent);
    let e = execute_decision(ActionType::Wait, interruptible);
    assert_eq!(e, nothing());
    let e = execute_decision(ActionType::Attack { target: 1 }, CurrentAction::PreparingParry);
    assert!(e.cancel_parry_preparation && e.attack_intent && !e.cancel_attack);
    let e = execute_decision(ActionType::Parry { attacker: 1 }, CurrentAction::PreparingParry);
    assert!(!e.cancel_parry_preparation);
}

#[test]
fn reaction_rules_for_each_strategy() {
    // Both options available: attack wins only when aggressive and the parry is not defensive.
    let e = decide_reaction(CurrentAction::Idle, 1, true, true, viable_parry(2), true, false);
    assert!(e.attack_intent && e.parry_against.is_none());
    let e = decide_reaction(CurrentAction::Idle, 1, true, true, viable_parry(2), true, true);
    assert_eq!(e.parry_against, Some(2));
    let e = decide_reaction(CurrentAction::Idle, 1, true, true, viable_parry(2), false, false);
    assert_eq!(e.parry_against, Some(2));
    // Committed actor: nothing.
    let e = decide_reaction(CurrentAction::AttackActive, 1, true, true, viable_parry(2), true, true);
    assert_eq!(e, nothing());
    let e = decide_reaction(CurrentAction::PreparingParry, 1, true, true, viable_parry(2), true, false);
    assert_eq!(e, nothing());
    // Early windup interrupted to parry.
    let e = decide_reaction(
        CurrentAction::AttackWindup { interruptible: true },
        1,
        false,
        true,
        viable_parry(2),
        true,
        false,
    );
    assert!(e.cancel_attack);
    assert_eq!(e.parry_against, Some(2));
}

#[test]
fn random_reaction_is_attack_or_parry() {
    for _ in 0..50 {
        let e = react_to_incoming_attack(CurrentAction::Idle, 1, true, true, viable_parry(2));
        assert!(e.attack_intent != e.parry_against.is_some());
    }
    let e = react_to_incoming_attack(CurrentAction::Idle, 1, false, true, viable_parry(2));
    assert_eq!(e.parry_against, Some(2));
}

#[test]
fn proactive_gates_in_order() {
    assert_eq!(
        proactive_attack_decision(CurrentAction::ParryWindup, Some(2), 1, Some(true), true, true),
        ProactiveDecision::Skip(SkipReason::Busy)
    );
    assert_eq!(
        proactive_attack_decision(CurrentAction::Idle, None, 1, Some(true), true, true),
        ProactiveDecision::Skip(SkipReason::TargetNotActor)
    );
    assert_eq!(
        proactive_attack_decision(CurrentAction::Idle, Some(1), 1, Some(true), true, true),
        ProactiveDecision::Skip(SkipReason::FriendlyFire)
    );
    assert_eq!(
        proactive_attack_decision(CurrentAction::Idle, Some(2), 1, Some(false), true, true),
        ProactiveDecision::Skip(SkipReason::LineOfSightBlocked)
    );
    assert_eq!(
        proactive_attack_decision(CurrentAction::Idle, Some(2), 1, None, true, true),
        ProactiveDecision::Skip(SkipReason::LineOfSightUnknown)
    );
    assert_eq!(
        proactive_attack_decision(CurrentAction::AttackRecovery, Some(2), 1, Some(true), false, true),
        ProactiveDecision::Skip(SkipReason::NotEnoughStamina)
    );
    assert_eq!(
        proactive_attack_decision(CurrentAction::Idle, Some(2), 1, Some(true), true, false),
        ProactiveDecision::Skip(SkipReason::WeaponNotReady)
    );
    for _ in 0..50 {
        let d = proactive_attack_decision(CurrentAction::Idle, Some(2), 1, Some(true), true, true);
        assert!(d == ProactiveDecision::Attack || d == ProactiveDecision::WaitForOpening);
    }
}

#[test]
fn routing_and_latest_telegraph() {
    assert_eq!(route_combat_ai(false, true, false), AiRoute::Skip);
    assert_eq!(route_combat_ai(true, true, true), AiRoute::React);
    assert_eq!(route_combat_ai(true, false, true), AiRoute::Skip);
    assert_eq!(route_combat_ai(true, false, false), AiRoute::Proactive);
    let defenders = vec![4, 7, 4, 9];
    assert_eq!(latest_telegraph(&defenders, 4), Some(2));
    assert_eq!(latest_telegraph(&defenders, 9), Some(3));
    assert_eq!(latest_telegraph(&defenders, 5), None);
}

#[test]
fn decision_pass_per_actor() {
    let view = AiActorView {
        combat_target: Some(2),
        faction: 1,
        waiting_for_opening: true,
        parry: None,
        preparing_parry: false,
        attack: None,
        has_stamina: false,
        weapon_ready: true,
        telegraph: Some(viable_parry(3)),
        target_faction: Some(2),
        line_of_sight: Some(true),
    };
    match ai_melee_combat_decision(view) {
        AiDecision::Reacted(e) => assert_eq!(e.parry_against, Some(3)),
        other => panic!("unexpected {:?}", other),
    }
    let idle = AiActorView { combat_target: None, ..view };
    assert_eq!(ai_melee_combat_decision(idle), AiDecision::Skip);
    let waiting = AiActorView { telegraph: None, ..view };
    assert_eq!(ai_melee_combat_decision(waiting), AiDecision::Skip);
    let ally = AiActorView { telegraph: None, waiting_for_opening: false, target_faction: Some(1), ..view };
    assert_eq!(
        ai_melee_combat_decision(ally),
        AiDecision::Proactive(ProactiveDecision::Skip(SkipReason::FriendlyFire))
    );
}

#[test]
fn proactive_draw_decides_attack_or_wait() {
    assert_eq!(proactive_gate(CurrentAction::Idle, Some(2), 1, Some(true), true, true), None);
    assert_eq!(
        proactive_gate(CurrentAction::Idle, Some(1), 1, Some(true), true, true),
        Some(SkipReason::FriendlyFire)
    );
    assert_eq!(
        decide_proactive(CurrentAction::Idle, Some(2), 1, Some(true), true, true, true),
        ProactiveDecision::Attack
    );
    assert_eq!(
        decide_proactive(CurrentAction::AttackRecovery, Some(2), 1, Some(true), true, true, false),
        ProactiveDecision::WaitForOpening
    );
    assert_eq!(
        decide_proactive(CurrentAction::Idle, Some(2), 1, Some(false), true, true, true),
        ProactiveDecision::Skip(SkipReason::LineOfSightBlocked)
    );
}
