//! Ranged combat on the tactical layer: validating fire intents against distance and
//! line of sight, switching to the closest visible enemy, resolving projectile hits on
//! bodies and shields, and announcing visible melee windups.

use vstd::prelude::*;
use crate::selection::{closest_eligible, closest_spec};

verus! {

/// What the line-of-sight raycast from shooter to target hit first.
#[derive(Clone, Copy, Debug, PartialEq, Eq, Structural)]
pub enum RayHit {
    /// No collision at all.
    Nothing,
    /// A collision whose collider could not be read as a node.
    Unreadable,
    /// The target's own body.
    Target,
    /// A node that is no actor (a wall or an obstacle).
    Obstacle,
    /// Another actor's body; `faction` is `None` when it has no actor data.
    Actor { entity: u64, faction: Option<u64> },
}

/// What the tactical layer found for one fire intent.
#[derive(Clone, Copy, Debug, PartialEq, Eq, Structural)]
pub struct FireCheck {
    /// The shooter's body was found.
    pub shooter_visible: bool,
    /// The intent's target; `None` for the player's free aim.
    pub target: Option<u64>,
    /// The target's body was found.
    pub target_visible: bool,
    /// The target is farther than the weapon's maximal range.
    pub out_of_range: bool,
    /// The target is closer than 0.5 m.
    pub too_close: bool,
    /// The physics world could be queried.
    pub raycast_ready: bool,
    /// What the raycast hit first.
    pub hit: RayHit,
    /// The shooter's faction; `None` when the shooter has no actor data.
    pub shooter_faction: Option<u64>,
}

/// Why a fire intent was rejected.
#[derive(Clone, Copy, Debug, PartialEq, Eq, Structural)]
pub enum FireRejection {
    ShooterNotVisible,
    TargetNotVisible,
    OutOfRange,
    TooClose,
    RaycastUnavailable,
    NoRaycastHit,
    UnreadableHit,
    BlockedByObstacle,
    ColliderNotActor,
    ShooterNotActor,
    AllyInLineOfFire,
    EnemyInLineOfFire,
}

/// Result of validating a fire intent.
#[derive(Clone, Copy, Debug, PartialEq, Eq, Structural)]
pub enum FireDecision {
    /// The shot is fired (at the target, or freely when there is none).
    Fire { target: Option<u64> },
    Reject(FireRejection),
}

pub open spec fn fire_decision_spec(check: FireCheck) -> FireDecision {
    if !check.shooter_visible {
        FireDecision::Reject(FireRejection::ShooterNotVisible)
    } else if check.target is None {
        FireDecision::Fire { target: None }
    } else if !check.target_visible {
        FireDecision::Reject(FireRejection::TargetNotVisible)
    } else if check.out_of_range {
        FireDecision::Reject(FireRejection::OutOfRange)
    } else if check.too_close {
        FireDecision::Reject(FireRejection::TooClose)
    } else if !check.raycast_ready {
        FireDecision::Reject(FireRejection::RaycastUnavailable)
    } else {
        match check.hit {
            RayHit::Nothing => FireDecision::Reject(FireRejection::NoRaycastHit),
            RayHit::Unreadable => FireDecision::Reject(FireRejection::UnreadableHit),
            RayHit::Target => FireDecision::Fire { target: check.target },
            RayHit::Obstacle => FireDecision::Reject(FireRejection::BlockedByObstacle),
            RayHit::Actor { entity, faction } => match faction {
                None => FireDecision::Reject(FireRejection::ColliderNotActor),
                Some(f) => match check.shooter_faction {
                    None => FireDecision::Reject(FireRejection::ShooterNotActor),
                    Some(s) => if f == s {
                        FireDecision::Reject(FireRejection::AllyInLineOfFire)
                    } else {
                        FireDecision::Reject(FireRejection::EnemyInLineOfFire)
                    },
                },
            },
        }
    }
}

/// Validates a fire intent. A shot without target (player free aim) is fired as soon as
/// the shooter is found. A shot at a target needs the target found, within range and not
/// closer than 0.5 m, and a clear line of sight: the raycast must hit the target itself;
/// a wall, an ally or an enemy in the line of fire rejects the shot.
pub fn process_ranged_attack_intent(check: FireCheck) -> (decision: FireDecision)
    ensures
        decision == fire_decision_spec(check),
{
    if !check.shooter_visible {
        return FireDecision::Reject(FireRejection::ShooterNotVisible);
    }
    if check.target.is_none() {
        return FireDecision::Fire { target: None };
    }
    if !check.target_visible {
        return FireDecision::Reject(FireRejection::TargetNotVisible);
    }
    if check.out_of_range {
        return FireDecision::Reject(FireRejection::OutOfRange);
    }
    if check.too_close {
        return FireDecision::Reject(FireRejection::TooClose);
    }
    if !check.raycast_ready {
        return FireDecision::Reject(FireRejection::RaycastUnavailable);
    }
    match check.hit {
        RayHit::Nothing => FireDecision::Reject(FireRejection::NoRaycastHit),
        RayHit::Unreadable => FireDecision::Reject(FireRejection::UnreadableHit),
        RayHit::Target => FireDecision::Fire { target: check.target },
        RayHit::Obstacle => FireDecision::Reject(FireRejection::BlockedByObstacle),
        RayHit::Actor { entity: _, faction } => match faction {
            None => FireDecision::Reject(FireRejection::ColliderNotActor),
            Some(f) => match check.shooter_faction {
                None => FireDecision::Reject(FireRejection::ShooterNotActor),
                Some(s) => if f == s {
                    FireDecision::Reject(FireRejection::AllyInLineOfFire)
                } else {
                    FireDecision::Reject(FireRejection::EnemyInLineOfFire)
                },
            },
        },
    }
}

/// A shot at a target is fired only through a clear line of sight to that very target,
/// in range; in particular never through an ally.
pub proof fn lemma_fire_needs_clear_line(check: FireCheck)
    ensures
        (fire_decision_spec(check) is Fire && check.target is Some) ==> check.hit
            == RayHit::Target && check.target_visible && !check.out_of_range && !check.too_close
            && check.shooter_visible && fire_decision_spec(check) == (FireDecision::Fire {
            target: check.target,
        }),
        (check.hit matches RayHit::Actor { faction, .. } && faction is Some && faction
            == check.shooter_faction && check.target is Some) ==> !(fire_decision_spec(
            check) is Fire),
{
}

/// Where a projectile is spawned from.
#[derive(Clone, Copy, Debug, PartialEq, Eq, Structural)]
pub enum SpawnPoint {
    /// The weapon's bullet spawn marker (found by unique name or by a nested search).
    BulletSpawn,
    /// The root of the attached weapon (no bullet spawn marker).
    WeaponRoot,
    /// The right-hand attachment point (no weapon attached).
    Attachment,
    /// The right hand (no attachment point).
    RightHand,
    /// The actor's origin (no right hand either).
    ActorOrigin,
}

/// Which nodes the weapon's node tree holds.
#[derive(Clone, Copy, Debug, PartialEq, Eq, Structural)]
pub struct WeaponNodes {
    pub attachment: bool,
    pub right_hand: bool,
    pub weapon: bool,
    pub unique_bullet_spawn: bool,
    pub nested_bullet_spawn: bool,
}

pub open spec fn spawn_point_spec(nodes: WeaponNodes) -> SpawnPoint {
    if !nodes.attachment {
        if nodes.right_hand {
            SpawnPoint::RightHand
        } else {
            SpawnPoint::ActorOrigin
        }
    } else if !nodes.weapon {
        SpawnPoint::Attachment
    } else if nodes.unique_bullet_spawn || nodes.nested_bullet_spawn {
        SpawnPoint::BulletSpawn
    } else {
        SpawnPoint::WeaponRoot
    }
}

/// The spawn point of a projectile: the weapon's bullet spawn marker, else the weapon's
/// root, else the attachment point; without attachment point the right hand, else the
/// actor's origin. Every point but the actor's origin also gives the firing direction.
pub fn bullet_spawn_point(nodes: WeaponNodes) -> (point: SpawnPoint)
    ensures
        point == spawn_point_spec(nodes),
        !nodes.attachment ==> (point == SpawnPoint::RightHand <==> nodes.right_hand) && (point
            == SpawnPoint::ActorOrigin <==> !nodes.right_hand),
        nodes.attachment && !nodes.weapon ==> point == SpawnPoint::Attachment,
        nodes.attachment && nodes.weapon ==> (point == SpawnPoint::BulletSpawn <==> (
        nodes.unique_bullet_spawn || nodes.nested_bullet_spawn)) && (point == SpawnPoint::BulletSpawn
            || point == SpawnPoint::WeaponRoot),
{
    if !nodes.attachment {
        if nodes.right_hand {
            return SpawnPoint::RightHand;
        }
        return SpawnPoint::ActorOrigin;
    }
    if !nodes.weapon {
        return SpawnPoint::Attachment;
    }
    if nodes.unique_bullet_spawn || nodes.nested_bullet_spawn {
        SpawnPoint::BulletSpawn
    } else {
        SpawnPoint::WeaponRoot
    }
}

/// How the firing direction is found.
#[derive(Clone, Copy, Debug, PartialEq, Eq, Structural)]
pub enum FireDirection {
    /// The forward axis of the spawn node (the weapon models face +Z).
    SpawnNodeForward,
    /// Straight from the shooter to the target.
    TowardTarget,
    /// The default forward direction (-Z).
    DefaultForward,
}

/// The firing direction: along the spawn node when there is one (any spawn point but the
/// actor's origin); otherwise towards the target when its body is found; otherwise
/// straight ahead.
pub fn fire_direction(point: SpawnPoint, target_body_found: bool) -> (direction: FireDirection)
    ensures
        direction == (if point != SpawnPoint::ActorOrigin {
            FireDirection::SpawnNodeForward
        } else if target_body_found {
            FireDirection::TowardTarget
        } else {
            FireDirection::DefaultForward
        }),
{
    if !matches!(point, SpawnPoint::ActorOrigin) {
        FireDirection::SpawnNodeForward
    } else if target_body_found {
        FireDirection::TowardTarget
    } else {
        FireDirection::DefaultForward
    }
}

/// A spotted enemy considered as a new combat target.
#[derive(Clone, Copy, Debug, PartialEq, Eq, Structural)]
pub struct EnemyCandidate {
    pub entity: u64,
    /// The entity's faction; `None` when it has no actor data (no longer alive).
    pub faction: Option<u64>,
    /// The entity's body was found.
    pub has_body: bool,
    /// The eye-level raycast from the shooter hit this entity's body first.
    pub line_of_sight: bool,
    /// Ordering key of the distance to the shooter.
    pub distance_key: u32,
}

pub open spec fn enemy_eligible_spec(own_faction: u64, candidate: EnemyCandidate) -> bool {
    &&& candidate.faction is Some
    &&& candidate.faction->0 != own_faction
    &&& candidate.has_body
    &&& candidate.line_of_sight
}

pub open spec fn enemy_eligibility(own_faction: u64, candidates: Seq<EnemyCandidate>) -> Seq<bool> {
    Seq::new(candidates.len(), |i: int| enemy_eligible_spec(own_faction, candidates[i]))
}

pub open spec fn enemy_keys(candidates: Seq<EnemyCandidate>) -> Seq<u32> {
    Seq::new(candidates.len(), |i: int| candidates[i].distance_key)
}

pub open spec fn retarget_spec(own_faction: u64, current_target: u64, candidates: Seq<EnemyCandidate>) -> Option<u64> {
    match closest_spec(enemy_eligibility(own_faction, candidates), enemy_keys(candidates)) {
        Some(i) => if candidates[i].entity != current_target {
            Some(candidates[i].entity)
        } else {
            None
        },
        None => None,
    }
}

/// Dynamic target switching for an actor in combat: the closest visible enemy among the
/// spotted ones (alive, of another faction, found, in line of sight; the first of the
/// nearest on a tie). Gives the new target when it differs from the current one.
pub fn update_combat_target(own_faction: u64, current_target: u64, candidates: &Vec<EnemyCandidate>) -> (new_target: Option<u64>)
    ensures
        new_target == retarget_spec(own_faction, current_target, candidates@),
{
    let mut eligible: Vec<bool> = Vec::new();
    let mut keys: Vec<u32> = Vec::new();
    let mut k: usize = 0;
    while k < candidates.len()
        invariant
            0 <= k <= candidates.len(),
            eligible@ == enemy_eligibility(own_faction, candidates@).take(k as int),
            keys@ == enemy_keys(candidates@).take(k as int),
        decreases candidates.len() - k,
    {
        let c = candidates[k];
        let ok = match c.faction {
            Some(f) => f != own_faction && c.has_body && c.line_of_sight,
            None => false,
        };
        eligible.push(ok);
        keys.push(c.distance_key);
        assert(eligible@ =~= enemy_eligibility(own_faction, candidates@).take(k + 1));
        assert(keys@ =~= enemy_keys(candidates@).take(k + 1));
        k = k + 1;
    }
    assert(eligible@ =~= enemy_eligibility(own_faction, candidates@));
    assert(keys@ =~= enemy_keys(candidates@));
    match closest_eligible(&eligible, &keys) {
        Some(i) => {
            proof {
                crate::selection::lemma_closest_is_first_minimum(eligible@, keys@);
            }
            if candidates[i].entity != current_target {
                Some(candidates[i].entity)
            } else {
                None
            }
        },
        None => None,
    }
}

/// The new target is always a visible enemy of another faction, at least as close as
/// every other visible enemy, and never an ally.
pub proof fn lemma_retarget_picks_closest_enemy(
    own_faction: u64,
    current_target: u64,
    candidates: Seq<EnemyCandidate>,
)
    ensures
        retarget_spec(own_faction, current_target, candidates) is Some ==> exists|i: int|
            0 <= i < candidates.len() && #[trigger] candidates[i].entity == retarget_spec(
                own_faction,
                current_target,
                candidates,
            )->0 && enemy_eligible_spec(own_faction, candidates[i]) && forall|j: int|
                0 <= j < candidates.len() && enemy_eligible_spec(own_faction, candidates[j])
                    ==> candidates[i].distance_key <= #[trigger] candidates[j].distance_key,
{
    let eligible = enemy_eligibility(own_faction, candidates);
    let keys = enemy_keys(candidates);
    crate::selection::lemma_closest_is_first_minimum(eligible, keys);
    if let Some(i) = closest_spec(eligible, keys) {
        assert forall|j: int|
            0 <= j < candidates.len() && enemy_eligible_spec(
                own_faction,
                candidates[j],
            ) implies candidates[i].distance_key <= #[trigger] candidates[j].distance_key by {
            assert(eligible[j]);
        }
        assert(eligible[i]);
    }
}

/// What happens to a projectile that entered a body.
#[derive(Clone, Copy, Debug, PartialEq, Eq, Structural)]
pub enum BodyHitOutcome {
    /// The body belongs to no known actor: the projectile is destroyed without a hit.
    UnknownTarget,
    /// The shooter's own body: the collision is forgotten and the projectile flies on.
    SelfHit,
    /// A hit on `target` is reported and the projectile is destroyed.
    Hit { target: u64 },
}

pub open spec fn body_hit_spec(shooter: u64, target: Option<u64>) -> BodyHitOutcome {
    match target {
        None => BodyHitOutcome::UnknownTarget,
        Some(t) => if t == shooter {
            BodyHitOutcome::SelfHit
        } else {
            BodyHitOutcome::Hit { target: t }
        },
    }
}

/// Resolves a projectile's body collision: unknown bodies destroy it without a hit, the
/// shooter's own body is ignored, any other actor is hit.
pub fn resolve_projectile_body_hit(shooter: u64, target: Option<u64>) -> (outcome: BodyHitOutcome)
    ensures
        outcome == body_hit_spec(shooter, target),
        target is None <==> outcome == BodyHitOutcome::UnknownTarget,
        target == Some(shooter) <==> outcome == BodyHitOutcome::SelfHit,
        outcome matches BodyHitOutcome::Hit { target: t } ==> target == Some(t) && t != shooter,
        target matches Some(t) ==> (t != shooter ==> outcome == (BodyHitOutcome::Hit { target: t })),
{
    match target {
        None => BodyHitOutcome::UnknownTarget,
        Some(t) => if t == shooter {
            BodyHitOutcome::SelfHit
        } else {
            BodyHitOutcome::Hit { target: t }
        },
    }
}

/// What happens to a projectile that entered a shield sphere.
#[derive(Clone, Copy, Debug, PartialEq, Eq, Structural)]
pub enum ShieldHitOutcome {
    /// The shield's owner is gone: the shield collision is forgotten.
    UnknownOwner,
    /// The shooter's own shield: forgotten, the projectile flies on.
    OwnShield,
    /// The shield has no energy left: forgotten, the projectile passes through.
    Depleted,
    /// The shield stops the projectile: a shield hit on `target` is reported and the
    /// projectile is destroyed.
    Stopped { target: u64 },
}

pub open spec fn shield_hit_spec(shooter: u64, owner: Option<u64>, depleted: bool) -> ShieldHitOutcome {
    match owner {
        None => ShieldHitOutcome::UnknownOwner,
        Some(t) => if t == shooter {
            ShieldHitOutcome::OwnShield
        } else if depleted {
            ShieldHitOutcome::Depleted
        } else {
            ShieldHitOutcome::Stopped { target: t }
        },
    }
}

/// Resolves a projectile's shield collision: the shooter's own shield and a depleted
/// shield let it pass; any other shield stops it.
pub fn resolve_projectile_shield_hit(shooter: u64, owner: Option<u64>, depleted: bool) -> (outcome: ShieldHitOutcome)
    ensures
        outcome == shield_hit_spec(shooter, owner, depleted),
        owner is None <==> outcome == ShieldHitOutcome::UnknownOwner,
        owner == Some(shooter) <==> outcome == ShieldHitOutcome::OwnShield,
        outcome == ShieldHitOutcome::Depleted <==> (owner is Some && owner != Some(shooter)
            && depleted),
        outcome matches ShieldHitOutcome::Stopped { target: t } ==> owner == Some(t) && t != shooter
            && !depleted,
        owner matches Some(t) ==> (t != shooter && !depleted ==> outcome == (ShieldHitOutcome::Stopped {
            target: t,
        })),
{
    match owner {
        None => ShieldHitOutcome::UnknownOwner,
        Some(t) => if t == shooter {
            ShieldHitOutcome::OwnShield
        } else if depleted {
            ShieldHitOutcome::Depleted
        } else {
            ShieldHitOutcome::Stopped { target: t }
        },
    }
}

/// A projectile never hits its own shooter, neither its body nor its shield, and a
/// depleted shield never stops a projectile.
pub proof fn lemma_no_self_hit(shooter: u64, owner: Option<u64>, depleted: bool)
    ensures
        !(body_hit_spec(shooter, Some(shooter)) is Hit),
        !(shield_hit_spec(shooter, Some(shooter), depleted) is Stopped),
        !(shield_hit_spec(shooter, owner, true) is Stopped),
{
}

/// A spotted enemy of a winding-up attacker.
#[derive(Clone, Copy, Debug, PartialEq, Eq, Structural)]
pub struct WindupWitness {
    pub entity: u64,
    /// The entity's faction; `None` when it has no actor data.
    pub faction: Option<u64>,
    /// The entity's body was found.
    pub has_body: bool,
    /// The entity is within the attacker's weapon radius.
    pub within_attack_radius: bool,
    /// Attacker and entity face each other (35 degree cones).
    pub mutually_facing: bool,
}

pub open spec fn sees_windup_spec(attacker_faction: u64, w: WindupWitness) -> bool {
    &&& w.faction is Some
    &&& w.faction->0 != attacker_faction
    &&& w.has_body
    &&& w.within_attack_radius
    &&& w.mutually_facing
}

pub open spec fn windup_observers_spec(attacker_faction: u64, is_windup: bool, spotted: Seq<WindupWitness>) -> Seq<u64>
    decreases spotted.len(),
{
    if !is_windup || spotted.len() == 0 {
        Seq::empty()
    } else {
        let previous = windup_observers_spec(attacker_faction, is_windup, spotted.drop_last());
        if sees_windup_spec(attacker_faction, spotted.last()) {
            previous.push(spotted.last().entity)
        } else {
            previous
        }
    }
}

/// The spotted entities told of a windup are exactly those of another faction, found,
/// within the weapon radius and mutually facing the attacker, and only while it winds up.
pub proof fn lemma_windup_observers_contents(attacker_faction: u64, is_windup: bool, spotted: Seq<WindupWitness>)
    ensures
        forall|e: u64|
            #[trigger] windup_observers_spec(attacker_faction, is_windup, spotted).contains(e)
                <==> (is_windup && exists|i: int|
                0 <= i < spotted.len() && spotted[i].entity == e && spotted[i].faction is Some
                    && spotted[i].faction != Some(attacker_faction) && spotted[i].has_body
                    && spotted[i].within_attack_radius && spotted[i].mutually_facing),
    decreases spotted.len(),
{
    if is_windup && spotted.len() > 0 {
        let init = spotted.drop_last();
        lemma_windup_observers_contents(attacker_faction, is_windup, init);
        let previous = windup_observers_spec(attacker_faction, is_windup, init);
        let last = spotted.last();
        assert forall|e: u64|
            #[trigger] windup_observers_spec(attacker_faction, is_windup, spotted).contains(e)
                <==> (is_windup && exists|i: int|
                0 <= i < spotted.len() && spotted[i].entity == e && spotted[i].faction is Some
                    && spotted[i].faction != Some(attacker_faction) && spotted[i].has_body
                    && spotted[i].within_attack_radius && spotted[i].mutually_facing) by {
            let all = windup_observers_spec(attacker_faction, is_windup, spotted);
            if exists|i: int|
                0 <= i < spotted.len() && spotted[i].entity == e && spotted[i].faction is Some
                    && spotted[i].faction != Some(attacker_faction) && spotted[i].has_body
                    && spotted[i].within_attack_radius && spotted[i].mutually_facing {
                let i = choose|i: int|
                    0 <= i < spotted.len() && spotted[i].entity == e && spotted[i].faction is Some
                        && spotted[i].faction != Some(attacker_faction) && spotted[i].has_body
                        && spotted[i].within_attack_radius && spotted[i].mutually_facing;
                if i < init.len() {
                    assert(init[i] == spotted[i]);
                    assert(previous.contains(e));
                    let k = choose|k: int| 0 <= k < previous.len() && previous[k] == e;
                    if sees_windup_spec(attacker_faction, last) {
                        assert(all[k] == e);
                    }
                } else {
                    assert(sees_windup_spec(attacker_faction, last));
                    assert(all[all.len() - 1] == e);
                }
            }
            if all.contains(e) {
                let k = choose|k: int| 0 <= k < all.len() && all[k] == e;
                if k < previous.len() {
                    assert(previous[k] == e);
                    assert(previous.contains(e));
                    let i = choose|i: int|
                        0 <= i < init.len() && init[i].entity == e && init[i].faction is Some
                            && init[i].faction != Some(attacker_faction) && init[i].has_body
                            && init[i].within_attack_radius && init[i].mutually_facing;
                    assert(spotted[i] == init[i]);
                } else {
                    assert(spotted[spotted.len() - 1] == last);
                }
            }
        }
    }
}

/// The spotted enemies that see an attacker's windup, in order: only while the attacker
/// winds up, and only enemies of another faction, found, within the weapon radius and
/// facing the attacker while it faces them. Each of them is told that a windup is visible.
pub fn detect_melee_windup(attacker_faction: u64, is_windup: bool, spotted: &Vec<WindupWitness>) -> (observers: Vec<u64>)
    ensures
        observers@ == windup_observers_spec(attacker_faction, is_windup, spotted@),
        forall|e: u64|
            #[trigger] observers@.contains(e) <==> (is_windup && exists|i: int|
                0 <= i < spotted.len() && spotted@[i].entity == e && spotted@[i].faction is Some
                    && spotted@[i].faction != Some(attacker_faction) && spotted@[i].has_body
                    && spotted@[i].within_attack_radius && spotted@[i].mutually_facing),
{
    proof {
        lemma_windup_observers_contents(attacker_faction, is_windup, spotted@);
    }
    let mut observers: Vec<u64> = Vec::new();
    if !is_windup {
        return observers;
    }
    let mut k: usize = 0;
    while k < spotted.len()
        invariant
            0 <= k <= spotted.len(),
            is_windup,
            observers@ == windup_observers_spec(attacker_faction, is_windup, spotted@.take(k as int)),
        decreases spotted.len() - k,
    {
        let ghost next = spotted@.take(k + 1);
        assert(next.drop_last() =~= spotted@.take(k as int));
        assert(next.last() == spotted@[k as int]);
        let w = spotted[k];
        let sees = match w.faction {
            Some(f) => f != attacker_faction && w.has_body && w.within_attack_radius
                && w.mutually_facing,
            None => false,
        };
        if sees {
            observers.push(w.entity);
        }
        k = k + 1;
    }
    assert(spotted@.take(spotted.len() as int) =~= spotted@);
    observers
}

} // verus!
