//! Aiming modes of the player's ranged weapon: hip fire, aiming down sights, and the
//! transitions between them.

use vstd::prelude::*;

verus! {

/// Aiming mode without its transition data (start position and progress).
#[derive(Clone, Copy, Debug, PartialEq, Eq, Structural)]
pub enum AimPhase {
    HipFire,
    EnteringADS,
    ADS,
    ExitingADS,
}

pub open spec fn ads_toggle_spec(phase: AimPhase) -> Option<AimPhase> {
    match phase {
        AimPhase::HipFire => Some(AimPhase::EnteringADS),
        AimPhase::ADS => Some(AimPhase::ExitingADS),
        _ => None,
    }
}

/// The aim toggle: from hip fire start entering sights, from sights start leaving them;
/// a toggle during a transition is ignored (`None`).
pub fn process_ads_toggle(phase: AimPhase) -> (next: Option<AimPhase>)
    ensures
        next == ads_toggle_spec(phase),
{
    match phase {
        AimPhase::HipFire => Some(AimPhase::EnteringADS),
        AimPhase::ADS => Some(AimPhase::ExitingADS),
        _ => None,
    }
}

pub open spec fn ads_advance_spec(phase: AimPhase, transition_complete: bool) -> AimPhase {
    match phase {
        AimPhase::EnteringADS => if transition_complete {
            AimPhase::ADS
        } else {
            phase
        },
        AimPhase::ExitingADS => if transition_complete {
            AimPhase::HipFire
        } else {
            phase
        },
        _ => phase,
    }
}

/// Advances a transition: entering sights ends in sights, leaving them ends in hip fire
/// once the transition is complete; stable modes stay.
pub fn update_ads_transition(phase: AimPhase, transition_complete: bool) -> (next: AimPhase)
    ensures
        next == ads_advance_spec(phase, transition_complete),
        !transition_complete ==> next == phase,
        phase == AimPhase::HipFire || phase == AimPhase::ADS ==> next == phase,
        transition_complete && phase == AimPhase::EnteringADS ==> next == AimPhase::ADS,
        transition_complete && phase == AimPhase::ExitingADS ==> next == AimPhase::HipFire,
{
    match phase {
        AimPhase::EnteringADS => if transition_complete {
            AimPhase::ADS
        } else {
            phase
        },
        AimPhase::ExitingADS => if transition_complete {
            AimPhase::HipFire
        } else {
            phase
        },
        _ => phase,
    }
}

/// Whether the hip-fire aim (camera raycast) drives the weapon: only in hip fire.
pub fn hip_fire_aim_active(phase: AimPhase) -> (active: bool)
    ensures
        active == (phase == AimPhase::HipFire),
{
    matches!(phase, AimPhase::HipFire)
}

/// A transition in progress never ends before it is complete; a complete one ends in
/// the stable mode it was heading for (sights when entering, hip fire when leaving);
/// stable modes never move on their own.
pub proof fn lemma_transition_waits_for_completion(phase: AimPhase, transition_complete: bool)
    ensures
        !transition_complete ==> ads_advance_spec(phase, transition_complete) == phase,
        phase == AimPhase::HipFire || phase == AimPhase::ADS ==> ads_advance_spec(
            phase,
            transition_complete,
        ) == phase,
        transition_complete && phase == AimPhase::EnteringADS ==> ads_advance_spec(
            phase,
            transition_complete,
        ) == AimPhase::ADS,
        transition_complete && phase == AimPhase::ExitingADS ==> ads_advance_spec(
            phase,
            transition_complete,
        ) == AimPhase::HipFire,
{
}

/// A toggle from a stable mode followed by a completed transition lands in the other
/// stable mode, and a second toggle and completion come back; toggles during a
/// transition change nothing.
pub proof fn lemma_ads_round_trip()
    ensures
        ads_advance_spec(ads_toggle_spec(AimPhase::HipFire)->0, true) == AimPhase::ADS,
        ads_advance_spec(ads_toggle_spec(AimPhase::ADS)->0, true) == AimPhase::HipFire,
        ads_toggle_spec(AimPhase::EnteringADS) is None,
        ads_toggle_spec(AimPhase::ExitingADS) is None,
{
}

} // verus!
