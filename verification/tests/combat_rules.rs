use voidrun_godot::ai_melee::{AttackPhaseKind, ParryPhaseKind};
use voidrun_godot::melee::{
    animation_name, find_closest_attacker_in_vision, melee_phase_plan, parry_animation,
    player_attack_input, player_parry_input, poll_melee_hitbox, process_melee_attack_intent,
    AnimationCue, AnimationTiming, AttackerCandidate, MeleeAnimation, MeleeHit, MeleeIntentOutcome,
    PlayerAttack, PlayerParry, WeaponClass,
};
use voidrun_godot::ranged::{
    bullet_spawn_point, detect_melee_windup, fire_direction, process_ranged_attack_intent,
    resolve_projectile_body_hit, resolve_projectile_shield_hit, update_combat_target, BodyHitOutcome,
    EnemyCandidate, FireCheck, FireDecision, FireDirection, FireRejection, RayHit, ShieldHitOutcome,
    SpawnPoint, WeaponNodes, WindupWitness,
};
use voidrun_godot::selection::closest_eligible;

fn hit(attacker: u64, target: u64) -> MeleeHit {
    MeleeHit { attacker, target, damage: 20, was_blocked: false, was_parried: false }
}

#[test]
fn melee_intents() {
    assert_eq!(process_melee_attack_intent(true, true), MeleeIntentOutcome::AlreadyAttacking);
    assert_eq!(process_melee_attack_intent(true, false), MeleeIntentOutcome::AlreadyAttacking);
    assert_eq!(process_melee_attack_intent(false, false), MeleeIntentOutcome::NoWeapon);
    assert_eq!(process_melee_attack_intent(false, true), MeleeIntentOutcome::Started);
}

#[test]
fn phase_plans() {
    let windup = melee_phase_plan(AttackPhaseKind::Windup { interruptible: false });
    assert_eq!(
        windup.animation,
        Some(AnimationCue { animation: MeleeAnimation::Windup, timing: AnimationTiming::PhaseDuration })
    );
    assert_eq!(windup.hitbox, None);
    let window = melee_phase_plan(AttackPhaseKind::ActiveParryWindow);
    assert_eq!(window.hitbox, Some(false));
    assert_eq!(window.animation.unwrap().timing, AnimationTiming::WeaponAttackDuration);
    let active = melee_phase_plan(AttackPhaseKind::ActiveHitbox);
    assert_eq!(active.hitbox, Some(true));
    assert_eq!(active.animation, None);
    assert_eq!(melee_phase_plan(AttackPhaseKind::Recovery).hitbox, Some(false));
    let idle = melee_phase_plan(AttackPhaseKind::Idle);
    assert_eq!(idle.animation.unwrap().animation, MeleeAnimation::Reset);
    assert_eq!(idle.animation.unwrap().timing, AnimationTiming::NormalSpeed);
    assert_eq!(animation_name(MeleeAnimation::Swing), "melee_swing");
    assert_eq!(animation_name(MeleeAnimation::Reset), "RESET");
    assert_eq!(animation_name(parry_animation(ParryPhaseKind::Windup)), "melee_parry");
    assert_eq!(animation_name(parry_animation(ParryPhaseKind::Recovery)), "melee_parry_recover");
}

#[test]
fn hitbox_hits_each_target_once() {
    let mut hit_entities = vec![5];
    let overlaps = vec![Some(1), None, Some(5), Some(7), Some(1), Some(9), Some(7)];
    let hits = poll_melee_hitbox(1, AttackPhaseKind::ActiveHitbox, &overlaps, &mut hit_entities);
    assert_eq!(hits, vec![hit(1, 7), hit(1, 9)]);
    assert_eq!(hit_entities, vec![5, 7, 9]);
    let again = poll_melee_hitbox(1, AttackPhaseKind::ActiveHitbox, &overlaps, &mut hit_entities);
    assert!(again.is_empty());
    assert_eq!(hit_entities, vec![5, 7, 9]);
    let outside = poll_melee_hitbox(1, AttackPhaseKind::ActiveParryWindow, &vec![Some(3)], &mut hit_entities);
    assert!(outside.is_empty());
    assert_eq!(hit_entities, vec![5, 7, 9]);
}

#[test]
fn player_input_decisions() {
    assert_eq!(player_attack_input(Some(WeaponClass::Melee)), PlayerAttack::MeleeIntent);
    assert_eq!(player_attack_input(Some(WeaponClass::Ranged)), PlayerAttack::RangedNotImplemented);
    assert_eq!(player_attack_input(Some(WeaponClass::Other)), PlayerAttack::Ignored);
    assert_eq!(player_attack_input(None), PlayerAttack::Ignored);
    assert_eq!(player_parry_input(true, true, Some(3)), PlayerParry::AlreadyParrying);
    assert_eq!(player_parry_input(false, true, Some(3)), PlayerParry::Attacking);
    assert_eq!(player_parry_input(false, false, Some(3)), PlayerParry::Intent { attacker: Some(3) });
    assert_eq!(player_parry_input(false, false, None), PlayerParry::Intent { attacker: None });
}

fn candidate(entity: Option<u64>, key: u32) -> AttackerCandidate {
    AttackerCandidate {
        entity,
        in_windup: true,
        has_body: true,
        mutually_facing: true,
        within_parry_distance: true,
        has_weapon: true,
        distance_key: key,
    }
}

#[test]
fn closest_attacker_in_vision() {
    let mut far_not_winding = candidate(Some(4), 1);
    far_not_winding.in_windup = false;
    let candidates = vec![
        candidate(Some(1), 1),
        candidate(None, 2),
        far_not_winding,
        candidate(Some(6), 30),
        candidate(Some(7), 20),
        candidate(Some(8), 20),
    ];
    // The player itself (entity 1) is excluded; 7 and 8 tie, the first wins.
    assert_eq!(find_closest_attacker_in_vision(1, &candidates), Some((7, 4)));
    assert_eq!(find_closest_attacker_in_vision(1, &vec![candidate(Some(1), 0)]), None);
    assert_eq!(closest_eligible(&vec![false, true, true], &vec![0, 5, 4]), Some(2));
    assert_eq!(closest_eligible(&vec![], &vec![]), None);
}

fn clear_shot(target: Option<u64>) -> FireCheck {
    FireCheck {
        shooter_visible: true,
        target,
        target_visible: true,
        out_of_range: false,
        too_close: false,
        raycast_ready: true,
        hit: RayHit::Target,
        shooter_faction: Some(1),
    }
}

#[test]
fn fire_validation_every_outcome() {
    assert_eq!(process_ranged_attack_intent(clear_shot(Some(2))), FireDecision::Fire { target: Some(2) });
    let mut free = clear_shot(None);
    free.hit = RayHit::Nothing;
    assert_eq!(process_ranged_attack_intent(free), FireDecision::Fire { target: None });
    let cases: Vec<(Box<dyn Fn(&mut FireCheck)>, FireRejection)> = vec![
        (Box::new(|c| c.shooter_visible = false), FireRejection::ShooterNotVisible),
        (Box::new(|c| c.target_visible = false), FireRejection::TargetNotVisible),
        (Box::new(|c| c.out_of_range = true), FireRejection::OutOfRange),
        (Box::new(|c| c.too_close = true), FireRejection::TooClose),
        (Box::new(|c| c.raycast_ready = false), FireRejection::RaycastUnavailable),
        (Box::new(|c| c.hit = RayHit::Nothing), FireRejection::NoRaycastHit),
        (Box::new(|c| c.hit = RayHit::Unreadable), FireRejection::UnreadableHit),
        (Box::new(|c| c.hit = RayHit::Obstacle), FireRejection::BlockedByObstacle),
        (Box::new(|c| c.hit = RayHit::Actor { entity: 5, faction: None }), FireRejection::ColliderNotActor),
        (
            Box::new(|c| {
                c.hit = RayHit::Actor { entity: 5, faction: Some(1) };
                c.shooter_faction = None;
            }),
            FireRejection::ShooterNotActor,
        ),
        (Box::new(|c| c.hit = RayHit::Actor { entity: 5, faction: Some(1) }), FireRejection::AllyInLineOfFire),
        (Box::new(|c| c.hit = RayHit::Actor { entity: 5, faction: Some(3) }), FireRejection::EnemyInLineOfFire),
    ];
    for (change, rejection) in cases {
        let mut check = clear_shot(Some(2));
        change(&mut check);
        assert_eq!(process_ranged_attack_intent(check), FireDecision::Reject(rejection));
    }
}

#[test]
fn target_switching_picks_closest_visible_enemy() {
    let enemy = |entity: u64, faction: Option<u64>, los: bool, key: u32| EnemyCandidate {
        entity,
        faction,
        has_body: true,
        line_of_sight: los,
        distance_key: key,
    };
    let candidates = vec![
        enemy(10, Some(1), true, 1),  // ally
        enemy(11, Some(2), false, 2), // hidden
        enemy(12, None, true, 3),     // dead
        enemy(13, Some(2), true, 9),
        enemy(14, Some(3), true, 5),
    ];
    assert_eq!(update_combat_target(1, 13, &candidates), Some(14));
    assert_eq!(update_combat_target(1, 14, &candidates), None);
    assert_eq!(update_combat_target(1, 13, &vec![enemy(10, Some(1), true, 0)]), None);
}

#[test]
fn projectile_collisions() {
    assert_eq!(resolve_projectile_body_hit(3, None), BodyHitOutcome::UnknownTarget);
    assert_eq!(resolve_projectile_body_hit(3, Some(3)), BodyHitOutcome::SelfHit);
    assert_eq!(resolve_projectile_body_hit(3, Some(4)), BodyHitOutcome::Hit { target: 4 });
    assert_eq!(resolve_projectile_shield_hit(3, None, false), ShieldHitOutcome::UnknownOwner);
    assert_eq!(resolve_projectile_shield_hit(3, Some(3), false), ShieldHitOutcome::OwnShield);
    assert_eq!(resolve_projectile_shield_hit(3, Some(4), true), ShieldHitOutcome::Depleted);
    assert_eq!(resolve_projectile_shield_hit(3, Some(4), false), ShieldHitOutcome::Stopped { target: 4 });
}

#[test]
fn spawn_point_and_direction() {
    let nodes = |attachment, right_hand, weapon, unique, nested| WeaponNodes {
        attachment,
        right_hand,
        weapon,
        unique_bullet_spawn: unique,
        nested_bullet_spawn: nested,
    };
    assert_eq!(bullet_spawn_point(nodes(true, true, true, true, false)), SpawnPoint::BulletSpawn);
    assert_eq!(bullet_spawn_point(nodes(true, true, true, false, true)), SpawnPoint::BulletSpawn);
    assert_eq!(bullet_spawn_point(nodes(true, true, true, false, false)), SpawnPoint::WeaponRoot);
    assert_eq!(bullet_spawn_point(nodes(true, false, false, false, false)), SpawnPoint::Attachment);
    assert_eq!(bullet_spawn_point(nodes(false, true, true, true, true)), SpawnPoint::RightHand);
    assert_eq!(bullet_spawn_point(nodes(false, false, true, true, true)), SpawnPoint::ActorOrigin);
    assert_eq!(fire_direction(SpawnPoint::RightHand, false), FireDirection::SpawnNodeForward);
    assert_eq!(fire_direction(SpawnPoint::ActorOrigin, true), FireDirection::TowardTarget);
    assert_eq!(fire_direction(SpawnPoint::ActorOrigin, false), FireDirection::DefaultForward);
}

#[test]
fn windups_seen_by_facing_enemies_in_reach() {
    let w = |entity: u64, faction: Option<u64>, radius: bool, facing: bool| WindupWitness {
        entity,
        faction,
        has_body: true,
        within_attack_radius: radius,
        mutually_facing: facing,
    };
    let spotted = vec![
        w(1, Some(2), true, true),
        w(2, Some(1), true, true),
        w(3, Some(2), false, true),
        w(4, Some(2), true, false),
        w(5, None, true, true),
        w(6, Some(3), true, true),
    ];
    assert_eq!(detect_melee_windup(1, true, &spotted), vec![1, 6]);
    assert!(detect_melee_windup(1, false, &spotted).is_empty());
}
