//! Unified AI melee combat decisions (attack, parry or wait).
//!
//! One decision pass per AI actor in combat:
//! 1. `get_current_action` reads what the actor is doing now;
//! 2. `evaluate_available_actions` lists the options with their priorities;
//! 3. `choose_best_action` picks the option of highest priority (the first one on a tie);
//! 4. `execute_decision` says which components to cancel and which intents to emit.
//!
//! Priorities are kept in tenths: an aggressive attack is worth 7, a cautious one 3,
//! a defensive parry 8, an aggressive parry 6 and waiting 0.

use vstd::prelude::*;
use crate::chance::roll_ratio;

verus! {

/// Priority (in tenths) of an attack chosen by an aggressive strategy.
pub const PRIORITY_ATTACK_AGGRESSIVE: u8 = 7;

/// Priority (in tenths) of an attack chosen by a cautious strategy.
pub const PRIORITY_ATTACK_CAUTIOUS: u8 = 3;

/// Priority (in tenths) of a parry chosen by a defensive strategy.
pub const PRIORITY_PARRY_DEFENSIVE: u8 = 8;

/// Priority (in tenths) of a parry chosen by an aggressive strategy.
pub const PRIORITY_PARRY_AGGRESSIVE: u8 = 6;

/// Priority of doing nothing.
pub const PRIORITY_WAIT: u8 = 0;

/// Phase of a melee attack as the decision logic reads it.
///
/// `interruptible` of a windup is whether less than half of the windup has elapsed.
#[derive(Clone, Copy, Debug, PartialEq, Eq, Structural)]
pub enum AttackPhaseKind {
    Idle,
    Windup { interruptible: bool },
    ActiveParryWindow,
    ActiveHitbox,
    Recovery,
}

/// Phase of a parry.
#[derive(Clone, Copy, Debug, PartialEq, Eq, Structural)]
pub enum ParryPhaseKind {
    Windup,
    Recovery,
}

/// What an AI actor is doing right now; decides which new actions are possible.
#[derive(Clone, Copy, Debug, PartialEq, Eq, Structural)]
pub enum CurrentAction {
    /// No active action.
    Idle,
    /// Attack windup; interruptible during its first half.
    AttackWindup { interruptible: bool },
    /// Attack active phase (parry window or hitbox): committed.
    AttackActive,
    /// Attack recovery: the next action can be queued.
    AttackRecovery,
    /// A parry is scheduled (its delay timer is ticking).
    PreparingParry,
    /// Parry windup: committed.
    ParryWindup,
    /// Parry recovery: committed.
    ParryRecovery,
    /// Stunned after being parried.
    Staggered,
}

/// An action the AI can take. Entities are given by their 64-bit ids.
#[derive(Clone, Copy, Debug, PartialEq, Eq, Structural)]
pub enum ActionType {
    /// Melee attack on the combat target.
    Attack { target: u64 },
    /// Parry the incoming attack of `attacker`.
    Parry { attacker: u64 },
    /// Do nothing.
    Wait,
}

/// An action with its priority (tenths).
#[derive(Clone, Copy, Debug, PartialEq, Eq, Structural)]
pub struct ActionOption {
    pub action_type: ActionType,
    pub priority: u8,
}

/// What the tactical checks found about an incoming attack.
#[derive(Clone, Copy, Debug, PartialEq, Eq, Structural)]
pub struct ParryChecks {
    /// The attacker's entity id.
    pub attacker: u64,
    /// The attacker has an attack state and it is in its windup phase.
    pub attacker_in_windup: bool,
    /// The remaining windup leaves at least the AI reaction time (0.2 s).
    pub enough_reaction_time: bool,
    /// Both the defender's and the attacker's bodies were found.
    pub bodies_found: bool,
    /// The attacker stands in the defender's front cone.
    pub facing_attacker: bool,
    /// The attacker is at most the maximal parry distance (3 m) away.
    pub within_parry_distance: bool,
}

/// What a decision does to the actor.
#[derive(Clone, Copy, Debug, PartialEq, Eq, Structural)]
pub struct DecisionEffects {
    /// Remove the actor's own melee attack state (interrupt its windup).
    pub cancel_attack: bool,
    /// Remove the actor's parry delay timer.
    pub cancel_parry_preparation: bool,
    /// Emit a normal melee attack intent for the actor.
    pub attack_intent: bool,
    /// Schedule a parry against this attacker.
    pub parry_against: Option<u64>,
}

/// Why a proactive decision did nothing.
#[derive(Clone, Copy, Debug, PartialEq, Eq, Structural)]
pub enum SkipReason {
    /// Already attacking, parrying or preparing a parry.
    Busy,
    /// The target has no actor data.
    TargetNotActor,
    /// The target belongs to the actor's own faction.
    FriendlyFire,
    /// An obstacle blocks the line of sight.
    LineOfSightBlocked,
    /// The line of sight could not be checked.
    LineOfSightUnknown,
    /// Not enough stamina for an attack.
    NotEnoughStamina,
    /// The weapon is cooling down.
    WeaponNotReady,
}

/// Outcome of the proactive path (no incoming attack).
#[derive(Clone, Copy, Debug, PartialEq, Eq, Structural)]
pub enum ProactiveDecision {
    Skip(SkipReason),
    /// Emit a melee attack intent.
    Attack,
    /// Wait for the opponent to open up (a random 0.5-2 s pause chosen by the caller).
    WaitForOpening,
}

/// Which path the decision pass takes for one AI actor.
#[derive(Clone, Copy, Debug, PartialEq, Eq, Structural)]
pub enum AiRoute {
    /// Not in combat, or waiting for an opening with no incoming attack.
    Skip,
    /// React to an incoming attack (and stop waiting for an opening).
    React,
    /// Decide whether to attack.
    Proactive,
}

// ---------------------------------------------------------------------------
// Step 1: current action
// ---------------------------------------------------------------------------

pub open spec fn current_action_spec(
    parry: Option<ParryPhaseKind>,
    preparing_parry: bool,
    attack: Option<AttackPhaseKind>,
) -> CurrentAction {
    match parry {
        Some(ParryPhaseKind::Windup) => CurrentAction::ParryWindup,
        Some(ParryPhaseKind::Recovery) => CurrentAction::ParryRecovery,
        None => if preparing_parry {
            CurrentAction::PreparingParry
        } else {
            match attack {
                Some(AttackPhaseKind::Windup { interruptible }) => CurrentAction::AttackWindup {
                    interruptible,
                },
                Some(AttackPhaseKind::ActiveParryWindow) => CurrentAction::AttackActive,
                Some(AttackPhaseKind::ActiveHitbox) => CurrentAction::AttackActive,
                Some(AttackPhaseKind::Recovery) => CurrentAction::AttackRecovery,
                _ => CurrentAction::Idle,
            }
        },
    }
}

/// The actor's current action: a parry state comes first, then a scheduled parry,
/// then the phase of its own attack; anything else is idle.
pub fn get_current_action(
    parry: Option<ParryPhaseKind>,
    preparing_parry: bool,
    attack: Option<AttackPhaseKind>,
) -> (action: CurrentAction)
    ensures
        action == current_action_spec(parry, preparing_parry, attack),
        parry == Some(ParryPhaseKind::Windup) ==> action == CurrentAction::ParryWindup,
        parry == Some(ParryPhaseKind::Recovery) ==> action == CurrentAction::ParryRecovery,
        parry is None && preparing_parry ==> action == CurrentAction::PreparingParry,
        parry is None && !preparing_parry ==> match attack {
            Some(AttackPhaseKind::Windup { interruptible }) => action == (CurrentAction::AttackWindup {
                interruptible,
            }),
            Some(AttackPhaseKind::ActiveParryWindow) | Some(AttackPhaseKind::ActiveHitbox) => action
                == CurrentAction::AttackActive,
            Some(AttackPhaseKind::Recovery) => action == CurrentAction::AttackRecovery,
            _ => action == CurrentAction::Idle,
        },
{
    match parry {
        Some(ParryPhaseKind::Windup) => return CurrentAction::ParryWindup,
        Some(ParryPhaseKind::Recovery) => return CurrentAction::ParryRecovery,
        None => {},
    }
    if preparing_parry {
        return CurrentAction::PreparingParry;
    }
    match attack {
        Some(AttackPhaseKind::Windup { interruptible }) => CurrentAction::AttackWindup {
            interruptible,
        },
        Some(AttackPhaseKind::ActiveParryWindow) => CurrentAction::AttackActive,
        Some(AttackPhaseKind::ActiveHitbox) => CurrentAction::AttackActive,
        Some(AttackPhaseKind::Recovery) => CurrentAction::AttackRecovery,
        _ => CurrentAction::Idle,
    }
}

// ---------------------------------------------------------------------------
// Step 2: available actions
// ---------------------------------------------------------------------------

/// The current action leaves room for a new action (idle, recovering from an attack,
/// or early enough in a windup to interrupt it).
pub open spec fn action_allows_new_spec(current: CurrentAction) -> bool {
    match current {
        CurrentAction::Idle => true,
        CurrentAction::AttackRecovery => true,
        CurrentAction::AttackWindup { interruptible } => interruptible,
        _ => false,
    }
}

pub open spec fn can_attack_spec(has_stamina: bool, weapon_ready: bool, current: CurrentAction) -> bool {
    has_stamina && weapon_ready && action_allows_new_spec(current)
}

/// Whether the actor can attack: enough stamina (30), weapon off cooldown, and a
/// current action that can be left or interrupted.
pub fn can_attack(has_stamina: bool, weapon_ready: bool, current: CurrentAction) -> (ok: bool)
    ensures
        ok == can_attack_spec(has_stamina, weapon_ready, current),
        ok ==> has_stamina && weapon_ready,
        has_stamina && weapon_ready ==> (ok <==> (current == CurrentAction::Idle || current
            == CurrentAction::AttackRecovery || current == (CurrentAction::AttackWindup {
            interruptible: true,
        }))),
{
    if !has_stamina {
        return false;
    }
    if !weapon_ready {
        return false;
    }
    match current {
        CurrentAction::Idle => true,
        CurrentAction::AttackRecovery => true,
        CurrentAction::AttackWindup { interruptible } => interruptible,
        _ => false,
    }
}

/// Whether the actor can start a parry: idle, recovering from an attack, or early in a windup.
pub fn can_parry(current: CurrentAction) -> (ok: bool)
    ensures
        ok == action_allows_new_spec(current),
        ok <==> (current == CurrentAction::Idle || current == CurrentAction::AttackRecovery
            || current == (CurrentAction::AttackWindup { interruptible: true })),
{
    match current {
        CurrentAction::Idle => true,
        CurrentAction::AttackWindup { interruptible } => interruptible,
        CurrentAction::AttackRecovery => true,
        _ => false,
    }
}

pub open spec fn attack_option_spec(target: u64, aggressive: bool) -> ActionOption {
    ActionOption {
        action_type: ActionType::Attack { target },
        priority: if aggressive { PRIORITY_ATTACK_AGGRESSIVE } else { PRIORITY_ATTACK_CAUTIOUS },
    }
}

pub open spec fn parry_option_spec(attacker: u64, defensive: bool) -> ActionOption {
    ActionOption {
        action_type: ActionType::Parry { attacker },
        priority: if defensive { PRIORITY_PARRY_DEFENSIVE } else { PRIORITY_PARRY_AGGRESSIVE },
    }
}

pub open spec fn wait_option_spec() -> ActionOption {
    ActionOption { action_type: ActionType::Wait, priority: PRIORITY_WAIT }
}

/// The attack option for a given strategy: worth 7 when aggressive, 3 otherwise.
pub fn attack_option_for(target: u64, aggressive: bool) -> (option: ActionOption)
    ensures
        option == attack_option_spec(target, aggressive),
{
    ActionOption {
        action_type: ActionType::Attack { target },
        priority: if aggressive { PRIORITY_ATTACK_AGGRESSIVE } else { PRIORITY_ATTACK_CAUTIOUS },
    }
}

/// The parry option for a given strategy: worth 8 when defensive, 6 otherwise.
pub fn parry_option_for(attacker: u64, defensive: bool) -> (option: ActionOption)
    ensures
        option == parry_option_spec(attacker, defensive),
{
    ActionOption {
        action_type: ActionType::Parry { attacker },
        priority: if defensive { PRIORITY_PARRY_DEFENSIVE } else { PRIORITY_PARRY_AGGRESSIVE },
    }
}

/// The attack option on the combat target; the strategy (aggressive or cautious) is a
/// fair coin flip.
pub fn evaluate_attack_option(target: u64) -> (option: Option<ActionOption>)
    ensures
        option == Some(attack_option_spec(target, true)) || option == Some(
            attack_option_spec(target, false),
        ),
{
    let aggressive = roll_ratio(1, 2);
    Some(attack_option_for(target, aggressive))
}

/// All tactical conditions for parrying the incoming attack hold.
pub open spec fn parry_viable_spec(checks: ParryChecks) -> bool {
    &&& checks.attacker_in_windup
    &&& checks.enough_reaction_time
    &&& checks.bodies_found
    &&& checks.facing_attacker
    &&& checks.within_parry_distance
}

/// The parry option against the incoming attack, when it is viable; the strategy
/// (defensive or aggressive) is a fair coin flip.
pub fn evaluate_parry_option(checks: ParryChecks) -> (option: Option<ActionOption>)
    ensures
        option is None <==> !parry_viable_spec(checks),
        option is Some <==> (checks.attacker_in_windup && checks.enough_reaction_time
            && checks.bodies_found && checks.facing_attacker && checks.within_parry_distance),
        option == Some(parry_option_spec(checks.attacker, true)) || option == Some(
            parry_option_spec(checks.attacker, false),
        ) || option is None,
{
    if !checks.attacker_in_windup {
        return None;
    }
    if !checks.enough_reaction_time {
        return None;
    }
    if !checks.bodies_found {
        return None;
    }
    if !checks.facing_attacker {
        return None;
    }
    if !checks.within_parry_distance {
        return None;
    }
    let defensive = roll_ratio(1, 2);
    Some(parry_option_for(checks.attacker, defensive))
}

/// The actor can start a parry and the incoming attack can be parried.
pub open spec fn parry_allowed_spec(current: CurrentAction, checks: ParryChecks) -> bool {
    action_allows_new_spec(current) && parry_viable_spec(checks)
}

/// The option list for given strategies: the attack option when an attack is possible,
/// then the parry option when a parry is possible and viable, then waiting.
pub open spec fn options_spec(
    target: u64,
    attack_allowed: bool,
    parry_allowed: bool,
    attacker: u64,
    aggressive: bool,
    defensive: bool,
) -> Seq<ActionOption> {
    let with_attack = if attack_allowed {
        seq![attack_option_spec(target, aggressive)]
    } else {
        Seq::empty()
    };
    let with_parry = if parry_allowed {
        with_attack.push(parry_option_spec(attacker, defensive))
    } else {
        with_attack
    };
    with_parry.push(wait_option_spec())
}

/// Lists the available actions: an attack on `target` if the actor can attack, a parry
/// against the incoming attack if the actor can parry and the parry is viable, and
/// always waiting as the last option.
pub fn evaluate_available_actions(
    target: u64,
    has_stamina: bool,
    weapon_ready: bool,
    current: CurrentAction,
    checks: ParryChecks,
) -> (options: Vec<ActionOption>)
    ensures
        exists|aggressive: bool, defensive: bool|
            options@ == #[trigger] options_spec(
                target,
                can_attack_spec(has_stamina, weapon_ready, current),
                parry_allowed_spec(current, checks),
                checks.attacker,
                aggressive,
                defensive,
            ),
{
    let mut options: Vec<ActionOption> = Vec::new();
    let ghost mut aggressive: bool = false;
    let ghost mut defensive: bool = false;
    if can_attack(has_stamina, weapon_ready, current) {
        if let Some(attack_option) = evaluate_attack_option(target) {
            proof {
                aggressive = attack_option.priority == PRIORITY_ATTACK_AGGRESSIVE;
            }
            options.push(attack_option);
        }
    }
    if can_parry(current) {
        if let Some(parry_option) = evaluate_parry_option(checks) {
            proof {
                defensive = parry_option.priority == PRIORITY_PARRY_DEFENSIVE;
            }
            options.push(parry_option);
        }
    }
    options.push(ActionOption { action_type: ActionType::Wait, priority: PRIORITY_WAIT });
    assert(options@ =~= options_spec(
        target,
        can_attack_spec(has_stamina, weapon_ready, current),
        parry_allowed_spec(current, checks),
        checks.attacker,
        aggressive,
        defensive,
    ));
    options
}

// ---------------------------------------------------------------------------
// Step 3: best action
// ---------------------------------------------------------------------------

/// Index of the first option of highest priority.
pub open spec fn best_index(options: Seq<ActionOption>) -> int
    decreases options.len(),
{
    if options.len() <= 1 {
        0
    } else {
        let previous = best_index(options.drop_last());
        if options.last().priority > options[previous].priority {
            options.len() - 1
        } else {
            previous
        }
    }
}

/// The chosen action: that of the first option of highest priority; waiting when there
/// is no option.
pub open spec fn best_action_spec(options: Seq<ActionOption>) -> ActionType {
    if options.len() == 0 {
        ActionType::Wait
    } else {
        options[best_index(options)].action_type
    }
}

/// `best_index` is the first maximum: no option has a higher priority, and every earlier
/// option has a strictly lower one.
pub proof fn lemma_best_is_first_maximum(options: Seq<ActionOption>)
    requires
        options.len() > 0,
    ensures
        0 <= best_index(options) < options.len(),
        forall|j: int|
            0 <= j < options.len() ==> (#[trigger] options[j]).priority <= options[best_index(
                options,
            )].priority,
        forall|j: int|
            0 <= j < best_index(options) ==> (#[trigger] options[j]).priority
                < options[best_index(options)].priority,
    decreases options.len(),
{
    if options.len() > 1 {
        let init = options.drop_last();
        lemma_best_is_first_maximum(init);
        assert forall|j: int| 0 <= j < init.len() implies options[j] == init[j] by {}
    }
}

/// Chooses the action of the first option of highest priority (the order of a stable
/// sort by descending priority); waiting when the list is empty.
pub fn choose_best_action(options: Vec<ActionOption>) -> (action: ActionType)
    ensures
        action == best_action_spec(options@),
        options.len() == 0 ==> action == ActionType::Wait,
        options.len() > 0 ==> exists|i: int|
            0 <= i < options.len() && action == (#[trigger] options@[i]).action_type && (forall|j: int|
                0 <= j < options.len() ==> (#[trigger] options@[j]).priority <= options@[i].priority)
                && (forall|j: int| 0 <= j < i ==> (#[trigger] options@[j]).priority < options@[i].priority),
{
    if options.len() == 0 {
        return ActionType::Wait;
    }
    let mut best: usize = 0;
    let mut k: usize = 1;
    while k < options.len()
        invariant
            1 <= k <= options.len(),
            best as int == best_index(options@.take(k as int)),
            0 <= best < k,
        decreases options.len() - k,
    {
        let ghost prefix = options@.take(k as int);
        let ghost next = options@.take(k + 1);
        assert(next.drop_last() =~= prefix);
        assert(next.last() == options@[k as int]);
        proof {
            lemma_best_is_first_maximum(prefix);
        }
        assert(prefix[best as int] == options@[best as int]);
        if options[k].priority > options[best].priority {
            best = k;
        }
        k = k + 1;
    }
    assert(options@.take(options.len() as int) =~= options@);
    proof {
        lemma_best_is_first_maximum(options@);
        assert(options@[best as int] == options@[best as int]);
    }
    options[best].action_type
}

// ---------------------------------------------------------------------------
// Step 4: execution
// ---------------------------------------------------------------------------

pub open spec fn execute_spec(decision: ActionType, current: CurrentAction) -> DecisionEffects {
    DecisionEffects {
        cancel_attack: current == (CurrentAction::AttackWindup { interruptible: true })
            && !(decision is Wait),
        cancel_parry_preparation: current == CurrentAction::PreparingParry && decision is Attack,
        attack_intent: decision is Attack,
        parry_against: match decision {
            ActionType::Parry { attacker } => Some(attacker),
            _ => None,
        },
    }
}

/// Applies a decision: an interruptible windup is cancelled for any action but waiting,
/// a scheduled parry is cancelled for an attack; then the attack intent is emitted or
/// the parry (against the given attacker) is scheduled.
pub fn execute_decision(decision: ActionType, current: CurrentAction) -> (effects: DecisionEffects)
    ensures
        effects == execute_spec(decision, current),
        effects.attack_intent <==> decision is Attack,
        decision matches ActionType::Parry { attacker } ==> effects.parry_against == Some(attacker),
        !(decision is Parry) ==> effects.parry_against is None,
        effects.cancel_attack <==> (current == (CurrentAction::AttackWindup { interruptible: true })
            && !(decision is Wait)),
        effects.cancel_parry_preparation <==> (current == CurrentAction::PreparingParry
            && decision is Attack),
{
    let mut effects = DecisionEffects {
        cancel_attack: false,
        cancel_parry_preparation: false,
        attack_intent: false,
        parry_against: None,
    };
    match current {
        CurrentAction::AttackWindup { interruptible } => {
            if interruptible && !matches!(decision, ActionType::Wait) {
                effects.cancel_attack = true;
            }
        },
        CurrentAction::PreparingParry => {
            if matches!(decision, ActionType::Attack { .. }) {
                effects.cancel_parry_preparation = true;
            }
        },
        _ => {},
    }
    match decision {
        ActionType::Attack { .. } => {
            effects.attack_intent = true;
        },
        ActionType::Parry { attacker } => {
            effects.parry_against = Some(attacker);
        },
        ActionType::Wait => {},
    }
    effects
}

// ---------------------------------------------------------------------------
// Reactive path
// ---------------------------------------------------------------------------

/// The effects of reacting to an incoming attack for given strategies.
pub open spec fn reaction_spec(
    current: CurrentAction,
    target: u64,
    has_stamina: bool,
    weapon_ready: bool,
    checks: ParryChecks,
    aggressive: bool,
    defensive: bool,
) -> DecisionEffects {
    execute_spec(
        best_action_spec(
            options_spec(
                target,
                can_attack_spec(has_stamina, weapon_ready, current),
                parry_allowed_spec(current, checks),
                checks.attacker,
                aggressive,
                defensive,
            ),
        ),
        current,
    )
}

/// Reacts to a telegraphed incoming attack: evaluates attack, parry and waiting,
/// chooses the best and says what to cancel and emit. The strategies are random; the
/// effects are those of `reaction_spec` for one of them.
pub fn react_to_incoming_attack(
    current: CurrentAction,
    target: u64,
    has_stamina: bool,
    weapon_ready: bool,
    checks: ParryChecks,
) -> (effects: DecisionEffects)
    ensures
        exists|aggressive: bool, defensive: bool|
            effects == #[trigger] reaction_spec(
                current,
                target,
                has_stamina,
                weapon_ready,
                checks,
                aggressive,
                defensive,
            ),
{
    let options = evaluate_available_actions(target, has_stamina, weapon_ready, current, checks);
    let ghost opts = options@;
    let ghost attack_allowed = can_attack_spec(has_stamina, weapon_ready, current);
    let ghost parry_allowed = parry_allowed_spec(current, checks);
    let ghost (aggressive, defensive) = choose|a: bool, d: bool|
        opts == #[trigger] options_spec(target, attack_allowed, parry_allowed, checks.attacker, a, d);
    let decision = choose_best_action(options);
    let effects = execute_decision(decision, current);
    assert(effects == reaction_spec(
        current,
        target,
        has_stamina,
        weapon_ready,
        checks,
        aggressive,
        defensive,
    ));
    effects
}

/// Reacts to an incoming attack for given strategy draws (`aggressive` for the attack
/// option, `defensive` for the parry option).
pub fn decide_reaction(
    current: CurrentAction,
    target: u64,
    has_stamina: bool,
    weapon_ready: bool,
    checks: ParryChecks,
    aggressive: bool,
    defensive: bool,
) -> (effects: DecisionEffects)
    ensures
        effects == reaction_spec(
            current,
            target,
            has_stamina,
            weapon_ready,
            checks,
            aggressive,
            defensive,
        ),
{
    let mut options: Vec<ActionOption> = Vec::new();
    if can_attack(has_stamina, weapon_ready, current) {
        options.push(attack_option_for(target, aggressive));
    }
    if can_parry(current) && checks.attacker_in_windup && checks.enough_reaction_time
        && checks.bodies_found && checks.facing_attacker && checks.within_parry_distance {
        options.push(parry_option_for(checks.attacker, defensive));
    }
    options.push(ActionOption { action_type: ActionType::Wait, priority: PRIORITY_WAIT });
    assert(options@ =~= options_spec(
        target,
        can_attack_spec(has_stamina, weapon_ready, current),
        parry_allowed_spec(current, checks),
        checks.attacker,
        aggressive,
        defensive,
    ));
    let decision = choose_best_action(options);
    execute_decision(decision, current)
}

/// No effects at all.
pub open spec fn no_effects() -> DecisionEffects {
    DecisionEffects {
        cancel_attack: false,
        cancel_parry_preparation: false,
        attack_intent: false,
        parry_against: None,
    }
}

/// Rules of the reaction to an incoming attack, for every strategy draw:
/// - a committed actor (active attack, parry, scheduled parry, late windup, stagger)
///   does nothing, and so does an actor that can neither attack nor parry;
/// - an actor never both attacks and parries;
/// - a viable parry is chosen when the parry strategy is defensive or no attack is
///   possible; an attack wins over a viable parry only when the attack strategy is
///   aggressive and the parry strategy is not;
/// - waiting is never chosen while attacking or parrying is possible;
/// - an interruptible windup is cancelled exactly when a new action is taken, and a
///   scheduled parry is never cancelled (a scheduled parry is committed).
pub proof fn lemma_reaction_rules(
    current: CurrentAction,
    target: u64,
    has_stamina: bool,
    weapon_ready: bool,
    checks: ParryChecks,
    aggressive: bool,
    defensive: bool,
)
    ensures
        ({
            let effects = reaction_spec(
                current,
                target,
                has_stamina,
                weapon_ready,
                checks,
                aggressive,
                defensive,
            );
            let attack_allowed = can_attack_spec(has_stamina, weapon_ready, current);
            let parry_allowed = parry_allowed_spec(current, checks);
            &&& !action_allows_new_spec(current) ==> effects == no_effects()
            &&& (!attack_allowed && !parry_allowed) ==> effects == no_effects()
            &&& !(effects.attack_intent && effects.parry_against is Some)
            &&& (parry_allowed && (defensive || !attack_allowed)) ==> effects.parry_against
                == Some(checks.attacker)
            &&& (attack_allowed && !parry_allowed) ==> effects.attack_intent
            &&& (attack_allowed && parry_allowed) ==> (effects.attack_intent <==> (aggressive
                && !defensive))
            &&& (attack_allowed || parry_allowed) ==> (effects.attack_intent
                || effects.parry_against is Some)
            &&& effects.cancel_attack <==> (current == (CurrentAction::AttackWindup {
                interruptible: true,
            }) && (attack_allowed || parry_allowed))
            &&& !effects.cancel_parry_preparation
        }),
{
    reveal_with_fuel(best_index, 3);
    let attack_allowed = can_attack_spec(has_stamina, weapon_ready, current);
    let parry_allowed = parry_allowed_spec(current, checks);
    let opts = options_spec(target, attack_allowed, parry_allowed, checks.attacker, aggressive, defensive);
    if attack_allowed && parry_allowed {
        assert(opts.len() == 3);
        assert(opts.drop_last().drop_last() =~= seq![attack_option_spec(target, aggressive)]);
        assert(opts.drop_last() =~= seq![
            attack_option_spec(target, aggressive),
            parry_option_spec(checks.attacker, defensive),
        ]);
    } else if attack_allowed {
        assert(opts.drop_last() =~= seq![attack_option_spec(target, aggressive)]);
    } else if parry_allowed {
        assert(opts.drop_last() =~= seq![parry_option_spec(checks.attacker, defensive)]);
    } else {
        assert(opts =~= seq![wait_option_spec()]);
    }
}

// ---------------------------------------------------------------------------
// Proactive path
// ---------------------------------------------------------------------------

/// The first reason (in the order of the checks) that keeps a proactive attack from
/// being considered, if any.
pub open spec fn proactive_gate_spec(
    current: CurrentAction,
    target_faction: Option<u64>,
    own_faction: u64,
    line_of_sight: Option<bool>,
    has_stamina: bool,
    weapon_ready: bool,
) -> Option<SkipReason> {
    if !(current == CurrentAction::Idle || current == CurrentAction::AttackRecovery) {
        Some(SkipReason::Busy)
    } else if target_faction is None {
        Some(SkipReason::TargetNotActor)
    } else if target_faction == Some(own_faction) {
        Some(SkipReason::FriendlyFire)
    } else if line_of_sight == Some(false) {
        Some(SkipReason::LineOfSightBlocked)
    } else if line_of_sight is None {
        Some(SkipReason::LineOfSightUnknown)
    } else if !has_stamina {
        Some(SkipReason::NotEnoughStamina)
    } else if !weapon_ready {
        Some(SkipReason::WeaponNotReady)
    } else {
        None
    }
}

/// The first reason that keeps a proactive attack from being considered, checked in
/// order: busy, target without actor data, ally, line of sight blocked or unknown,
/// stamina, weapon cooldown.
pub fn proactive_gate(
    current: CurrentAction,
    target_faction: Option<u64>,
    own_faction: u64,
    line_of_sight: Option<bool>,
    has_stamina: bool,
    weapon_ready: bool,
) -> (reason: Option<SkipReason>)
    ensures
        reason == proactive_gate_spec(
            current,
            target_faction,
            own_faction,
            line_of_sight,
            has_stamina,
            weapon_ready,
        ),
{
    match current {
        CurrentAction::Idle | CurrentAction::AttackRecovery => {},
        _ => return Some(SkipReason::Busy),
    }
    let target_faction_id = match target_faction {
        Some(f) => f,
        None => return Some(SkipReason::TargetNotActor),
    };
    if target_faction_id == own_faction {
        return Some(SkipReason::FriendlyFire);
    }
    match line_of_sight {
        Some(true) => {},
        Some(false) => return Some(SkipReason::LineOfSightBlocked),
        None => return Some(SkipReason::LineOfSightUnknown),
    }
    if !has_stamina {
        return Some(SkipReason::NotEnoughStamina);
    }
    if !weapon_ready {
        return Some(SkipReason::WeaponNotReady);
    }
    None
}

/// What a proactive decision is once the coin is known: skipped for the first reason
/// that applies, else an attack when `attack_draw` holds, else waiting for an opening.
pub open spec fn proactive_decision_spec(
    current: CurrentAction,
    target_faction: Option<u64>,
    own_faction: u64,
    line_of_sight: Option<bool>,
    has_stamina: bool,
    weapon_ready: bool,
    attack_draw: bool,
) -> ProactiveDecision {
    match proactive_gate_spec(current, target_faction, own_faction, line_of_sight, has_stamina, weapon_ready) {
        Some(reason) => ProactiveDecision::Skip(reason),
        None => if attack_draw {
            ProactiveDecision::Attack
        } else {
            ProactiveDecision::WaitForOpening
        },
    }
}

/// Proactive decision for a given draw of the attack-or-wait coin.
pub fn decide_proactive(
    current: CurrentAction,
    target_faction: Option<u64>,
    own_faction: u64,
    line_of_sight: Option<bool>,
    has_stamina: bool,
    weapon_ready: bool,
    attack_draw: bool,
) -> (decision: ProactiveDecision)
    ensures
        decision == proactive_decision_spec(
            current,
            target_faction,
            own_faction,
            line_of_sight,
            has_stamina,
            weapon_ready,
            attack_draw,
        ),
{
    match proactive_gate(current, target_faction, own_faction, line_of_sight, has_stamina, weapon_ready) {
        Some(reason) => ProactiveDecision::Skip(reason),
        None => if attack_draw {
            ProactiveDecision::Attack
        } else {
            ProactiveDecision::WaitForOpening
        },
    }
}

/// Proactive decision when no attack is incoming: skip when busy, when the target is
/// not an actor or is an ally, when the line of sight is blocked or unknown, or when
/// stamina or the weapon is not ready; otherwise the attack-or-wait coin (attack with
/// probability 3/5) is drawn, and only then, and decides.
pub fn proactive_attack_decision(
    current: CurrentAction,
    target_faction: Option<u64>,
    own_faction: u64,
    line_of_sight: Option<bool>,
    has_stamina: bool,
    weapon_ready: bool,
) -> (decision: ProactiveDecision)
    ensures
        exists|attack_draw: bool|
            decision == #[trigger] proactive_decision_spec(
                current,
                target_faction,
                own_faction,
                line_of_sight,
                has_stamina,
                weapon_ready,
                attack_draw,
            ),
        match proactive_gate_spec(
            current,
            target_faction,
            own_faction,
            line_of_sight,
            has_stamina,
            weapon_ready,
        ) {
            Some(reason) => decision == ProactiveDecision::Skip(reason),
            None => decision == ProactiveDecision::Attack || decision
                == ProactiveDecision::WaitForOpening,
        },
{
    match proactive_gate(current, target_faction, own_faction, line_of_sight, has_stamina, weapon_ready) {
        Some(reason) => ProactiveDecision::Skip(reason),
        None => {
            let attack_draw = roll_ratio(3, 5);
            decide_proactive(
                current,
                target_faction,
                own_faction,
                line_of_sight,
                has_stamina,
                weapon_ready,
                attack_draw,
            )
        },
    }
}

// ---------------------------------------------------------------------------
// Routing
// ---------------------------------------------------------------------------

pub open spec fn route_spec(in_combat: bool, has_telegraph: bool, waiting_for_opening: bool) -> AiRoute {
    if !in_combat {
        AiRoute::Skip
    } else if has_telegraph {
        AiRoute::React
    } else if waiting_for_opening {
        AiRoute::Skip
    } else {
        AiRoute::Proactive
    }
}

/// An actor in combat with a telegraphed attack on it always reacts to it, whether or
/// not it is waiting for an opening; without one it acts proactively exactly when it is
/// not waiting; an actor out of combat never decides; and only a telegraph leads to a
/// reaction.
pub proof fn lemma_telegraph_always_answered(in_combat: bool, has_telegraph: bool, waiting_for_opening: bool)
    ensures
        in_combat && has_telegraph ==> route_spec(in_combat, has_telegraph, waiting_for_opening)
            == AiRoute::React,
        in_combat && !has_telegraph ==> (route_spec(in_combat, has_telegraph, waiting_for_opening)
            == AiRoute::Proactive <==> !waiting_for_opening),
        !in_combat ==> route_spec(in_combat, has_telegraph, waiting_for_opening) == AiRoute::Skip,
        route_spec(in_combat, has_telegraph, waiting_for_opening) == AiRoute::React ==> has_telegraph,
{
}

/// Which path one AI actor takes: only actors in combat decide; an incoming attack is
/// reacted to even while waiting for an opening; otherwise a waiting actor does nothing.
pub fn route_combat_ai(in_combat: bool, has_telegraph: bool, waiting_for_opening: bool) -> (route: AiRoute)
    ensures
        route == route_spec(in_combat, has_telegraph, waiting_for_opening),
        !in_combat ==> route == AiRoute::Skip,
        in_combat && has_telegraph ==> route == AiRoute::React,
        in_combat && !has_telegraph ==> (route == AiRoute::Proactive <==> !waiting_for_opening),
        route == AiRoute::React ==> in_combat && has_telegraph,
{
    if !in_combat {
        AiRoute::Skip
    } else if has_telegraph {
        AiRoute::React
    } else if waiting_for_opening {
        AiRoute::Skip
    } else {
        AiRoute::Proactive
    }
}

/// What the decision pass reads about one AI actor.
#[derive(Clone, Copy, Debug, PartialEq, Eq, Structural)]
pub struct AiActorView {
    /// The actor is in combat with `target`; `None` when it is not in combat.
    pub combat_target: Option<u64>,
    /// The actor's faction.
    pub faction: u64,
    /// The actor is waiting for an opening.
    pub waiting_for_opening: bool,
    /// The actor's parry state, scheduled parry and attack phase.
    pub parry: Option<ParryPhaseKind>,
    pub preparing_parry: bool,
    pub attack: Option<AttackPhaseKind>,
    /// Enough stamina for an attack (30).
    pub has_stamina: bool,
    /// The weapon is off cooldown.
    pub weapon_ready: bool,
    /// The latest telegraphed attack on this actor, checked for a parry.
    pub telegraph: Option<ParryChecks>,
    /// The target's faction; `None` when the target has no actor data.
    pub target_faction: Option<u64>,
    /// Line of sight to the target; `None` when it could not be checked.
    pub line_of_sight: Option<bool>,
}

/// Outcome of the decision pass for one AI actor.
#[derive(Clone, Copy, Debug, PartialEq, Eq, Structural)]
pub enum AiDecision {
    /// Nothing to do.
    Skip,
    /// Reacted to an incoming attack (the actor stops waiting for an opening).
    Reacted(DecisionEffects),
    /// Proactive decision.
    Proactive(ProactiveDecision),
}

/// The decision pass for one AI actor: actors in combat react to the latest telegraphed
/// attack on them (even while waiting for an opening); without one, an actor that is
/// not waiting decides proactively whether to attack its target.
pub fn ai_melee_combat_decision(view: AiActorView) -> (decision: AiDecision)
    ensures
        view.combat_target is Some && view.telegraph is Some ==> decision is Reacted,
        view.combat_target is None ==> decision == AiDecision::Skip,
        view.combat_target is Some && view.telegraph is None ==> (decision is Proactive
            <==> !view.waiting_for_opening),
        match route_spec(view.combat_target is Some, view.telegraph is Some, view.waiting_for_opening) {
            AiRoute::Skip => decision == AiDecision::Skip,
            AiRoute::React => exists|aggressive: bool, defensive: bool|
                decision == AiDecision::Reacted(#[trigger] reaction_spec(
                    current_action_spec(view.parry, view.preparing_parry, view.attack),
                    view.combat_target->0,
                    view.has_stamina,
                    view.weapon_ready,
                    view.telegraph->0,
                    aggressive,
                    defensive,
                )),
            AiRoute::Proactive => (exists|attack_draw: bool|
                decision == AiDecision::Proactive(#[trigger] proactive_decision_spec(
                    current_action_spec(view.parry, view.preparing_parry, view.attack),
                    view.target_faction,
                    view.faction,
                    view.line_of_sight,
                    view.has_stamina,
                    view.weapon_ready,
                    attack_draw,
                ))) && match proactive_gate_spec(
                current_action_spec(view.parry, view.preparing_parry, view.attack),
                view.target_faction,
                view.faction,
                view.line_of_sight,
                view.has_stamina,
                view.weapon_ready,
            ) {
                Some(reason) => decision == AiDecision::Proactive(ProactiveDecision::Skip(reason)),
                None => decision == AiDecision::Proactive(ProactiveDecision::Attack) || decision
                    == AiDecision::Proactive(ProactiveDecision::WaitForOpening),
            },
        },
{
    let target = match view.combat_target {
        Some(t) => t,
        None => return AiDecision::Skip,
    };
    let route = route_combat_ai(true, view.telegraph.is_some(), view.waiting_for_opening);
    let current = get_current_action(view.parry, view.preparing_parry, view.attack);
    match route {
        AiRoute::Skip => AiDecision::Skip,
        AiRoute::React => {
            match view.telegraph {
                Some(checks) => {
                    let effects = react_to_incoming_attack(
                        current,
                        target,
                        view.has_stamina,
                        view.weapon_ready,
                        checks,
                    );
                    AiDecision::Reacted(effects)
                },
                None => AiDecision::Skip,
            }
        },
        AiRoute::Proactive => {
            let d = proactive_attack_decision(
                current,
                view.target_faction,
                view.faction,
                view.line_of_sight,
                view.has_stamina,
                view.weapon_ready,
            );
            AiDecision::Proactive(d)
        },
    }
}

/// A proactive attack is never launched at an ally, nor without a clear line of sight,
/// nor by a busy actor.
pub proof fn lemma_proactive_never_attacks_ally(
    current: CurrentAction,
    target_faction: Option<u64>,
    own_faction: u64,
    line_of_sight: Option<bool>,
    has_stamina: bool,
    weapon_ready: bool,
)
    ensures
        proactive_gate_spec(current, target_faction, own_faction, line_of_sight, has_stamina, weapon_ready)
            is None ==> {
            &&& target_faction is Some
            &&& target_faction != Some(own_faction)
            &&& line_of_sight == Some(true)
            &&& (current == CurrentAction::Idle || current == CurrentAction::AttackRecovery)
            &&& has_stamina && weapon_ready
        },
{
}

/// Index of the telegraph that counts for `defender`: the last one addressed to it
/// (when several attackers telegraph, the last one wins).
pub fn latest_telegraph(defenders: &Vec<u64>, defender: u64) -> (index: Option<usize>)
    ensures
        match index {
            Some(i) => i < defenders.len() && defenders@[i as int] == defender && forall|j: int|
                i < j < defenders.len() ==> defenders@[j] != defender,
            None => forall|j: int| 0 <= j < defenders.len() ==> defenders@[j] != defender,
        },
{
    let mut found: Option<usize> = None;
    let mut k: usize = 0;
    while k < defenders.len()
        invariant
            0 <= k <= defenders.len(),
            match found {
                Some(i) => i < k && defenders@[i as int] == defender && forall|j: int|
                    i < j < k ==> defenders@[j] != defender,
                None => forall|j: int| 0 <= j < k ==> defenders@[j] != defender,
            },
        decreases defenders.len() - k,
    {
        if defenders[k] == defender {
            found = Some(k);
        }
        k = k + 1;
    }
    found
}

} // verus!
