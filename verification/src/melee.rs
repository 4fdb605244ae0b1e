//! Melee combat on the tactical layer: attack intents, animation and hitbox plans per
//! attack phase, hitbox polling, and the player's attack and parry input.

use vstd::prelude::*;
use crate::ai_melee::{AttackPhaseKind, ParryPhaseKind};
use crate::selection::{closest_eligible, closest_spec};

verus! {

/// Damage of one melee hitbox hit.
pub const MELEE_HIT_DAMAGE: u32 = 20;

/// A melee hit detected by a weapon hitbox.
#[derive(Clone, Copy, Debug, PartialEq, Eq, Structural)]
pub struct MeleeHit {
    pub attacker: u64,
    pub target: u64,
    pub damage: u32,
    pub was_blocked: bool,
    pub was_parried: bool,
}

/// What happens to a melee attack intent.
#[derive(Clone, Copy, Debug, PartialEq, Eq, Structural)]
pub enum MeleeIntentOutcome {
    /// The attack starts (with the timings of the attacker's weapon).
    Started,
    /// The attacker is already attacking; the intent is ignored.
    AlreadyAttacking,
    /// The attacker has no weapon; the intent is ignored.
    NoWeapon,
}

/// Animations of the melee and defence animation players.
#[derive(Clone, Copy, Debug, PartialEq, Eq, Structural)]
pub enum MeleeAnimation {
    Windup,
    Swing,
    Recovery,
    Reset,
    Parry,
    ParryRecover,
}

/// Which duration an animation is stretched to.
#[derive(Clone, Copy, Debug, PartialEq, Eq, Structural)]
pub enum AnimationTiming {
    /// Stretched to the duration of the current phase.
    PhaseDuration,
    /// Stretched to the weapon's whole active duration (parry window and hitbox).
    WeaponAttackDuration,
    /// Played at normal speed.
    NormalSpeed,
}

/// An animation to play and the duration it is stretched to.
#[derive(Clone, Copy, Debug, PartialEq, Eq, Structural)]
pub struct AnimationCue {
    pub animation: MeleeAnimation,
    pub timing: AnimationTiming,
}

/// What the tactical layer does when an attack enters a phase.
#[derive(Clone, Copy, Debug, PartialEq, Eq, Structural)]
pub struct PhasePlan {
    /// Animation to play, with the duration it is stretched to.
    pub animation: Option<AnimationCue>,
    /// New state of the weapon hitbox; `None` leaves it as it is.
    pub hitbox: Option<bool>,
}

/// Player input for one weapon trigger.
#[derive(Clone, Copy, Debug, PartialEq, Eq, Structural)]
pub enum WeaponClass {
    Melee,
    Ranged,
    Other,
}

/// What the player's primary action does.
#[derive(Clone, Copy, Debug, PartialEq, Eq, Structural)]
pub enum PlayerAttack {
    /// Emit a normal melee attack intent.
    MeleeIntent,
    /// Ranged attacks from player input are not implemented; only logged.
    RangedNotImplemented,
    /// No weapon, or neither melee nor ranged: nothing.
    Ignored,
}

/// What the player's secondary action (parry) does.
#[derive(Clone, Copy, Debug, PartialEq, Eq, Structural)]
pub enum PlayerParry {
    /// Already parrying: ignored.
    AlreadyParrying,
    /// Attacking: a parry cannot start.
    Attacking,
    /// Emit a parry intent, aimed at the closest attacker in view if there is one.
    Intent { attacker: Option<u64> },
}

/// A visible enemy considered as the player's parry target.
#[derive(Clone, Copy, Debug, PartialEq, Eq, Structural)]
pub struct AttackerCandidate {
    /// The entity of the overlapping body, if it is an actor.
    pub entity: Option<u64>,
    /// The entity has an attack state in its windup phase.
    pub in_windup: bool,
    /// The entity's body was found.
    pub has_body: bool,
    /// The player and the entity face each other (45 degree cones).
    pub mutually_facing: bool,
    /// The entity is at most the maximal parry distance (3 m) away.
    pub within_parry_distance: bool,
    /// The entity has a weapon.
    pub has_weapon: bool,
    /// Ordering key of the distance to the player.
    pub distance_key: u32,
}

pub open spec fn melee_intent_spec(already_attacking: bool, has_weapon: bool) -> MeleeIntentOutcome {
    if already_attacking {
        MeleeIntentOutcome::AlreadyAttacking
    } else if !has_weapon {
        MeleeIntentOutcome::NoWeapon
    } else {
        MeleeIntentOutcome::Started
    }
}

/// Validates a melee attack intent: an attacker that is already attacking is ignored,
/// one without a weapon too; otherwise the attack starts.
pub fn process_melee_attack_intent(already_attacking: bool, has_weapon: bool) -> (outcome: MeleeIntentOutcome)
    ensures
        outcome == melee_intent_spec(already_attacking, has_weapon),
        outcome == MeleeIntentOutcome::Started <==> (!already_attacking && has_weapon),
        already_attacking ==> outcome == MeleeIntentOutcome::AlreadyAttacking,
{
    if already_attacking {
        MeleeIntentOutcome::AlreadyAttacking
    } else if !has_weapon {
        MeleeIntentOutcome::NoWeapon
    } else {
        MeleeIntentOutcome::Started
    }
}

pub open spec fn phase_plan_spec(phase: AttackPhaseKind) -> PhasePlan {
    match phase {
        AttackPhaseKind::Windup { .. } => PhasePlan {
            animation: Some(AnimationCue { animation: MeleeAnimation::Windup, timing: AnimationTiming::PhaseDuration }),
            hitbox: None,
        },
        AttackPhaseKind::ActiveParryWindow => PhasePlan {
            animation: Some(AnimationCue { animation: MeleeAnimation::Swing, timing: AnimationTiming::WeaponAttackDuration }),
            hitbox: Some(false),
        },
        AttackPhaseKind::ActiveHitbox => PhasePlan { animation: None, hitbox: Some(true) },
        AttackPhaseKind::Recovery => PhasePlan {
            animation: Some(AnimationCue { animation: MeleeAnimation::Recovery, timing: AnimationTiming::PhaseDuration }),
            hitbox: Some(false),
        },
        AttackPhaseKind::Idle => PhasePlan {
            animation: Some(AnimationCue { animation: MeleeAnimation::Reset, timing: AnimationTiming::NormalSpeed }),
            hitbox: None,
        },
    }
}

/// What to do when an attack enters a phase: the windup animation; the swing over the
/// whole active time with the hitbox off during the parry window; the hitbox on during
/// the hitbox phase (the swing keeps playing); the recovery animation with the hitbox
/// off; the reset pose at normal speed when idle.
pub fn melee_phase_plan(phase: AttackPhaseKind) -> (plan: PhasePlan)
    ensures
        plan == phase_plan_spec(phase),
        plan.hitbox == Some(true) <==> phase == AttackPhaseKind::ActiveHitbox,
        plan.hitbox == Some(false) <==> (phase == AttackPhaseKind::ActiveParryWindow || phase
            == AttackPhaseKind::Recovery),
        phase is Windup ==> plan.animation == Some(
            AnimationCue { animation: MeleeAnimation::Windup, timing: AnimationTiming::PhaseDuration },
        ),
        phase == AttackPhaseKind::ActiveParryWindow ==> plan.animation == Some(
            AnimationCue {
                animation: MeleeAnimation::Swing,
                timing: AnimationTiming::WeaponAttackDuration,
            },
        ),
        phase == AttackPhaseKind::ActiveHitbox ==> plan.animation is None,
        phase == AttackPhaseKind::Recovery ==> plan.animation == Some(
            AnimationCue { animation: MeleeAnimation::Recovery, timing: AnimationTiming::PhaseDuration },
        ),
        phase == AttackPhaseKind::Idle ==> plan.animation == Some(
            AnimationCue { animation: MeleeAnimation::Reset, timing: AnimationTiming::NormalSpeed },
        ),
{
    match phase {
        AttackPhaseKind::Windup { .. } => PhasePlan {
            animation: Some(AnimationCue { animation: MeleeAnimation::Windup, timing: AnimationTiming::PhaseDuration }),
            hitbox: None,
        },
        AttackPhaseKind::ActiveParryWindow => PhasePlan {
            animation: Some(AnimationCue { animation: MeleeAnimation::Swing, timing: AnimationTiming::WeaponAttackDuration }),
            hitbox: Some(false),
        },
        AttackPhaseKind::ActiveHitbox => PhasePlan { animation: None, hitbox: Some(true) },
        AttackPhaseKind::Recovery => PhasePlan {
            animation: Some(AnimationCue { animation: MeleeAnimation::Recovery, timing: AnimationTiming::PhaseDuration }),
            hitbox: Some(false),
        },
        AttackPhaseKind::Idle => PhasePlan {
            animation: Some(AnimationCue { animation: MeleeAnimation::Reset, timing: AnimationTiming::NormalSpeed }),
            hitbox: None,
        },
    }
}

/// The hitbox is switched on in the hitbox phase and in no other phase.
pub proof fn lemma_hitbox_only_in_hitbox_phase(phase: AttackPhaseKind)
    ensures
        phase_plan_spec(phase).hitbox == Some(true) <==> phase == AttackPhaseKind::ActiveHitbox,
{
}

/// The defence animation for a parry phase (stretched to the phase's duration).
pub fn parry_animation(phase: ParryPhaseKind) -> (animation: MeleeAnimation)
    ensures
        animation == (match phase {
            ParryPhaseKind::Windup => MeleeAnimation::Parry,
            ParryPhaseKind::Recovery => MeleeAnimation::ParryRecover,
        }),
{
    match phase {
        ParryPhaseKind::Windup => MeleeAnimation::Parry,
        ParryPhaseKind::Recovery => MeleeAnimation::ParryRecover,
    }
}

/// The animation player clip name of an animation.
pub fn animation_name(animation: MeleeAnimation) -> (name: &'static str)
    ensures
        name@ == (match animation {
            MeleeAnimation::Windup => "melee_windup"@,
            MeleeAnimation::Swing => "melee_swing"@,
            MeleeAnimation::Recovery => "melee_recovery"@,
            MeleeAnimation::Reset => "RESET"@,
            MeleeAnimation::Parry => "melee_parry"@,
            MeleeAnimation::ParryRecover => "melee_parry_recover"@,
        }),
{
    match animation {
        MeleeAnimation::Windup => "melee_windup",
        MeleeAnimation::Swing => "melee_swing",
        MeleeAnimation::Recovery => "melee_recovery",
        MeleeAnimation::Reset => "RESET",
        MeleeAnimation::Parry => "melee_parry",
        MeleeAnimation::ParryRecover => "melee_parry_recover",
    }
}

/// The entities hit after scanning the overlapping bodies in order: a body hits when it
/// is an actor, is not the attacker and was not hit before during this attack.
pub open spec fn hit_scan(attacker: u64, overlaps: Seq<Option<u64>>, hit: Seq<u64>) -> Seq<u64>
    decreases overlaps.len(),
{
    if overlaps.len() == 0 {
        hit
    } else {
        let previous = hit_scan(attacker, overlaps.drop_last(), hit);
        match overlaps.last() {
            Some(e) => if e != attacker && !previous.contains(e) {
                previous.push(e)
            } else {
                previous
            },
            None => previous,
        }
    }
}

pub open spec fn hit_event(attacker: u64, target: u64) -> MeleeHit {
    MeleeHit {
        attacker,
        target,
        damage: MELEE_HIT_DAMAGE,
        was_blocked: false,
        was_parried: false,
    }
}

/// Scanning only appends: the earlier hits stay, in order, at the front.
pub proof fn lemma_hit_scan_extends(attacker: u64, overlaps: Seq<Option<u64>>, hit: Seq<u64>)
    ensures
        hit_scan(attacker, overlaps, hit).len() >= hit.len(),
        hit_scan(attacker, overlaps, hit).take(hit.len() as int) == hit,
    decreases overlaps.len(),
{
    if overlaps.len() > 0 {
        lemma_hit_scan_extends(attacker, overlaps.drop_last(), hit);
        let previous = hit_scan(attacker, overlaps.drop_last(), hit);
        assert(previous.push(0).take(hit.len() as int) =~= previous.take(hit.len() as int));
        match overlaps.last() {
            Some(e) => {
                assert(previous.push(e).take(hit.len() as int) =~= previous.take(
                    hit.len() as int,
                ));
            },
            None => {},
        }
    }
}

/// No entity is hit twice during one attack and the attacker never hits itself: if the
/// recorded hits hold no duplicate and not the attacker, neither does the list after a scan.
pub proof fn lemma_hit_scan_no_duplicates(attacker: u64, overlaps: Seq<Option<u64>>, hit: Seq<u64>)
    requires
        hit.no_duplicates(),
        !hit.contains(attacker),
    ensures
        hit_scan(attacker, overlaps, hit).no_duplicates(),
        !hit_scan(attacker, overlaps, hit).contains(attacker),
    decreases overlaps.len(),
{
    if overlaps.len() > 0 {
        lemma_hit_scan_no_duplicates(attacker, overlaps.drop_last(), hit);
        let previous = hit_scan(attacker, overlaps.drop_last(), hit);
        match overlaps.last() {
            Some(e) => {
                if e != attacker && !previous.contains(e) {
                    let next = previous.push(e);
                    assert forall|i: int, j: int|
                        0 <= i < j < next.len() implies next[i] != next[j] by {
                        if j == next.len() - 1 {
                            assert(previous.contains(next[i]));
                        }
                    }
                    assert(!next.contains(attacker)) by {
                        if next.contains(attacker) {
                            let k = choose|k: int| 0 <= k < next.len() && next[k] == attacker;
                            if k < previous.len() {
                                assert(previous.contains(attacker));
                            }
                        }
                    }
                }
            },
            None => {},
        }
    }
}

/// What a scan hits: an entity is among the hits afterwards exactly when it was hit
/// before, or it is an actor other than the attacker overlapping the hitbox.
pub proof fn lemma_hit_scan_contents(attacker: u64, overlaps: Seq<Option<u64>>, hit: Seq<u64>)
    ensures
        forall|e: u64|
            #[trigger] hit_scan(attacker, overlaps, hit).contains(e) <==> (hit.contains(e) || (e
                != attacker && overlaps.contains(Some(e)))),
    decreases overlaps.len(),
{
    if overlaps.len() > 0 {
        let init = overlaps.drop_last();
        lemma_hit_scan_contents(attacker, init, hit);
        let previous = hit_scan(attacker, init, hit);
        assert forall|e: u64|
            #[trigger] hit_scan(attacker, overlaps, hit).contains(e) <==> (hit.contains(e) || (e
                != attacker && overlaps.contains(Some(e)))) by {
            assert(overlaps.contains(Some(e)) <==> (init.contains(Some(e)) || overlaps.last()
                == Some(e))) by {
                if overlaps.contains(Some(e)) {
                    let i = choose|i: int| 0 <= i < overlaps.len() && overlaps[i] == Some(e);
                    if i < init.len() {
                        assert(init[i] == Some(e));
                    }
                }
                if init.contains(Some(e)) {
                    let i = choose|i: int| 0 <= i < init.len() && init[i] == Some(e);
                    assert(overlaps[i] == Some(e));
                }
                if overlaps.last() == Some(e) {
                    assert(overlaps[overlaps.len() - 1] == Some(e));
                }
            }
            match overlaps.last() {
                Some(x) => {
                    if x != attacker && !previous.contains(x) {
                        let next = previous.push(x);
                        assert(next[next.len() - 1] == x);
                        if next.contains(e) && e != x {
                            let i = choose|i: int| 0 <= i < next.len() && next[i] == e;
                            assert(previous[i] == e);
                        }
                        if previous.contains(e) {
                            let i = choose|i: int| 0 <= i < previous.len() && previous[i] == e;
                            assert(next[i] == e);
                        }
                    }
                },
                None => {},
            }
        }
    }
}

/// Polls the bodies overlapping the weapon hitbox. Only in the hitbox phase: each
/// overlapping actor that is not the attacker and was not hit before in this attack is
/// hit (20 damage, neither blocked nor parried) and recorded, so that cleaving hits
/// several targets but none twice. In any other phase nothing happens.
pub fn poll_melee_hitbox(
    attacker: u64,
    phase: AttackPhaseKind,
    overlaps: &Vec<Option<u64>>,
    hit_entities: &mut Vec<u64>,
) -> (hits: Vec<MeleeHit>)
    ensures
        phase != AttackPhaseKind::ActiveHitbox ==> final(hit_entities)@ == old(hit_entities)@
            && hits@.len() == 0,
        phase == AttackPhaseKind::ActiveHitbox ==> final(hit_entities)@ == hit_scan(
            attacker,
            overlaps@,
            old(hit_entities)@,
        ),
        phase == AttackPhaseKind::ActiveHitbox ==> forall|e: u64|
            #[trigger] final(hit_entities)@.contains(e) <==> (old(hit_entities)@.contains(e) || (e
                != attacker && overlaps@.contains(Some(e)))),
        final(hit_entities)@.len() >= old(hit_entities)@.len(),
        final(hit_entities)@.take(old(hit_entities)@.len() as int) == old(hit_entities)@,
        old(hit_entities)@.no_duplicates() && !old(hit_entities)@.contains(attacker) ==> (final(
            hit_entities)@.no_duplicates() && !final(hit_entities)@.contains(attacker)),
        hits@.len() == final(hit_entities)@.len() - old(hit_entities)@.len(),
        forall|i: int|
            0 <= i < hits@.len() ==> #[trigger] hits@[i] == hit_event(
                attacker,
                final(hit_entities)@[old(hit_entities)@.len() + i],
            ),
{
    let mut hits: Vec<MeleeHit> = Vec::new();
    if phase != AttackPhaseKind::ActiveHitbox {
        assert(hit_entities@.take(hit_entities@.len() as int) =~= hit_entities@);
        return hits;
    }
    let ghost start = hit_entities@;
    proof {
        lemma_hit_scan_contents(attacker, overlaps@, start);
        lemma_hit_scan_extends(attacker, overlaps@, start);
        if start.no_duplicates() && !start.contains(attacker) {
            lemma_hit_scan_no_duplicates(attacker, overlaps@, start);
        }
    }
    let mut k: usize = 0;
    while k < overlaps.len()
        invariant
            0 <= k <= overlaps.len(),
            hit_entities@ == hit_scan(attacker, overlaps@.take(k as int), start),
            hit_entities@.len() >= start.len(),
            hits@.len() == hit_entities@.len() - start.len(),
            forall|i: int|
                0 <= i < hits@.len() ==> #[trigger] hits@[i] == hit_event(
                    attacker,
                    hit_entities@[start.len() + i],
                ),
        decreases overlaps.len() - k,
    {
        let ghost prefix = overlaps@.take(k as int);
        let ghost next = overlaps@.take(k + 1);
        assert(next.drop_last() =~= prefix);
        assert(next.last() == overlaps@[k as int]);
        match overlaps[k] {
            Some(target) => {
                if target != attacker {
                    let mut seen = false;
                    let mut m: usize = 0;
                    while m < hit_entities.len()
                        invariant
                            0 <= m <= hit_entities.len(),
                            seen == hit_entities@.take(m as int).contains(target),
                        decreases hit_entities.len() - m,
                    {
                        let ghost before = hit_entities@.take(m as int);
                        let ghost after = hit_entities@.take(m + 1);
                        assert(after =~= before.push(hit_entities@[m as int]));
                        if hit_entities[m] == target {
                            seen = true;
                            assert(after[m as int] == target);
                        } else {
                            assert(after.contains(target) == before.contains(target)) by {
                                if after.contains(target) {
                                    let i = choose|i: int| 0 <= i < after.len() && after[i] == target;
                                    assert(before[i] == target);
                                }
                                if before.contains(target) {
                                    let i = choose|i: int| 0 <= i < before.len() && before[i] == target;
                                    assert(after[i] == target);
                                }
                            }
                        }
                        m = m + 1;
                    }
                    assert(hit_entities@.take(hit_entities.len() as int) =~= hit_entities@);
                    if !seen {
                        hits.push(
                            MeleeHit {
                                attacker,
                                target,
                                damage: MELEE_HIT_DAMAGE,
                                was_blocked: false,
                                was_parried: false,
                            },
                        );
                        hit_entities.push(target);
                    }
                }
            },
            None => {},
        }
        k = k + 1;
    }
    assert(overlaps@.take(overlaps.len() as int) =~= overlaps@);
    hits
}

pub open spec fn player_attack_spec(weapon: Option<WeaponClass>) -> PlayerAttack {
    match weapon {
        Some(WeaponClass::Melee) => PlayerAttack::MeleeIntent,
        Some(WeaponClass::Ranged) => PlayerAttack::RangedNotImplemented,
        _ => PlayerAttack::Ignored,
    }
}

/// The player's primary action: a melee attack intent with a melee weapon, a logged
/// no-op with a ranged weapon, nothing without a weapon.
pub fn player_attack_input(weapon: Option<WeaponClass>) -> (attack: PlayerAttack)
    ensures
        attack == player_attack_spec(weapon),
{
    match weapon {
        Some(WeaponClass::Melee) => PlayerAttack::MeleeIntent,
        Some(WeaponClass::Ranged) => PlayerAttack::RangedNotImplemented,
        _ => PlayerAttack::Ignored,
    }
}

/// A candidate is a valid parry target: an actor other than the player, winding up an
/// attack, found, facing the player while the player faces it, close enough, and armed.
pub open spec fn attacker_eligible_spec(player: u64, candidate: AttackerCandidate) -> bool {
    &&& candidate.entity is Some
    &&& candidate.entity->0 != player
    &&& candidate.in_windup
    &&& candidate.has_body
    &&& candidate.mutually_facing
    &&& candidate.within_parry_distance
    &&& candidate.has_weapon
}

pub open spec fn eligibility_seq(player: u64, candidates: Seq<AttackerCandidate>) -> Seq<bool> {
    Seq::new(candidates.len(), |i: int| attacker_eligible_spec(player, candidates[i]))
}

pub open spec fn key_seq(candidates: Seq<AttackerCandidate>) -> Seq<u32> {
    Seq::new(candidates.len(), |i: int| candidates[i].distance_key)
}

/// The parry target is a real threat and the nearest one: an actor other than the
/// player, winding up, found, mutually facing, within parry distance and armed, no
/// farther than any other such candidate; and there is no target only when no candidate
/// is such a threat.
pub proof fn lemma_closest_attacker_is_valid(player: u64, candidates: Seq<AttackerCandidate>)
    ensures
        match closest_spec(eligibility_seq(player, candidates), key_seq(candidates)) {
            Some(i) => {
                let c = candidates[i];
                &&& 0 <= i < candidates.len()
                &&& c.entity is Some && c.entity != Some(player)
                &&& c.in_windup && c.has_body && c.mutually_facing
                &&& c.within_parry_distance && c.has_weapon
                &&& forall|j: int|
                    0 <= j < candidates.len() && (#[trigger] candidates[j]).entity is Some
                        && candidates[j].entity != Some(player) && candidates[j].in_windup
                        && candidates[j].has_body && candidates[j].mutually_facing
                        && candidates[j].within_parry_distance && candidates[j].has_weapon
                        ==> c.distance_key <= candidates[j].distance_key
            },
            None => forall|j: int|
                0 <= j < candidates.len() && (#[trigger] candidates[j]).entity is Some
                    && candidates[j].entity != Some(player) ==> !(candidates[j].in_windup
                    && candidates[j].has_body && candidates[j].mutually_facing
                    && candidates[j].within_parry_distance && candidates[j].has_weapon),
        },
{
    let el = eligibility_seq(player, candidates);
    let ks = key_seq(candidates);
    crate::selection::lemma_closest_is_first_minimum(el, ks);
    match closest_spec(el, ks) {
        Some(i) => {
            assert(el[i]);
            assert forall|j: int|
                0 <= j < candidates.len() && (#[trigger] candidates[j]).entity is Some
                    && candidates[j].entity != Some(player) && candidates[j].in_windup
                    && candidates[j].has_body && candidates[j].mutually_facing
                    && candidates[j].within_parry_distance && candidates[j].has_weapon
                    implies candidates[i].distance_key <= candidates[j].distance_key by {
                assert(el[j]);
                assert(ks[i] == candidates[i].distance_key && ks[j] == candidates[j].distance_key);
            }
        },
        None => {
            assert forall|j: int|
                0 <= j < candidates.len() && (#[trigger] candidates[j]).entity is Some
                    && candidates[j].entity != Some(player) implies !(candidates[j].in_windup
                    && candidates[j].has_body && candidates[j].mutually_facing
                    && candidates[j].within_parry_distance && candidates[j].has_weapon) by {
                assert(!el[j]);
            }
        },
    }
}

/// The closest valid parry target among the bodies in the player's vision cone: the
/// first of the nearest eligible candidates. Gives its entity and its index.
pub fn find_closest_attacker_in_vision(player: u64, candidates: &Vec<AttackerCandidate>) -> (found: Option<(u64, usize)>)
    ensures
        match found {
            Some((entity, i)) => closest_spec(eligibility_seq(player, candidates@), key_seq(candidates@))
                == Some(i as int) && candidates@[i as int].entity == Some(entity),
            None => closest_spec(eligibility_seq(player, candidates@), key_seq(candidates@)) is None,
        },
        match found {
            Some((entity, i)) => {
                let c = candidates@[i as int];
                &&& i < candidates.len()
                &&& c.entity == Some(entity)
                &&& entity != player
                &&& c.in_windup && c.has_body && c.mutually_facing
                &&& c.within_parry_distance && c.has_weapon
                &&& forall|j: int|
                    0 <= j < candidates.len() && (#[trigger] candidates@[j]).entity is Some
                        && candidates@[j].entity != Some(player) && candidates@[j].in_windup
                        && candidates@[j].has_body && candidates@[j].mutually_facing
                        && candidates@[j].within_parry_distance && candidates@[j].has_weapon
                        ==> c.distance_key <= candidates@[j].distance_key
            },
            None => forall|j: int|
                0 <= j < candidates.len() && (#[trigger] candidates@[j]).entity is Some
                    && candidates@[j].entity != Some(player) ==> !(candidates@[j].in_windup
                    && candidates@[j].has_body && candidates@[j].mutually_facing
                    && candidates@[j].within_parry_distance && candidates@[j].has_weapon),
        },
{
    let mut eligible: Vec<bool> = Vec::new();
    let mut keys: Vec<u32> = Vec::new();
    let mut k: usize = 0;
    while k < candidates.len()
        invariant
            0 <= k <= candidates.len(),
            eligible@ == eligibility_seq(player, candidates@).take(k as int),
            keys@ == key_seq(candidates@).take(k as int),
        decreases candidates.len() - k,
    {
        let c = candidates[k];
        let ok = match c.entity {
            Some(e) => e != player && c.in_windup && c.has_body && c.mutually_facing
                && c.within_parry_distance && c.has_weapon,
            None => false,
        };
        eligible.push(ok);
        keys.push(c.distance_key);
        assert(eligible@ =~= eligibility_seq(player, candidates@).take(k + 1));
        assert(keys@ =~= key_seq(candidates@).take(k + 1));
        k = k + 1;
    }
    assert(eligible@ =~= eligibility_seq(player, candidates@));
    assert(keys@ =~= key_seq(candidates@));
    match closest_eligible(&eligible, &keys) {
        Some(i) => {
            proof {
                crate::selection::lemma_closest_is_first_minimum(eligible@, keys@);
                lemma_closest_attacker_is_valid(player, candidates@);
                assert(closest_spec(eligibility_seq(player, candidates@), key_seq(candidates@))
                    == Some(i as int));
                let c = candidates@[i as int];
                assert(c.entity is Some && c.entity != Some(player));
                assert(c.in_windup && c.has_body && c.mutually_facing && c.within_parry_distance
                    && c.has_weapon);
            }
            match candidates[i].entity {
                Some(e) => Some((e, i)),
                None => None,
            }
        },
        None => {
            proof {
                lemma_closest_attacker_is_valid(player, candidates@);
            }
            None
        },
    }
}

/// The player's parry input: ignored while already parrying, refused while attacking,
/// otherwise a parry intent aimed at the closest attacker in view (or at nobody).
pub fn player_parry_input(already_parrying: bool, attacking: bool, closest_attacker: Option<u64>) -> (parry: PlayerParry)
    ensures
        parry == (if already_parrying {
            PlayerParry::AlreadyParrying
        } else if attacking {
            PlayerParry::Attacking
        } else {
            PlayerParry::Intent { attacker: closest_attacker }
        }),
{
    if already_parrying {
        PlayerParry::AlreadyParrying
    } else if attacking {
        PlayerParry::Attacking
    } else {
        PlayerParry::Intent { attacker: closest_attacker }
    }
}

} // verus!
