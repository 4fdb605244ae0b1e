//! Player input: the events the input controller emits and the weapon hotkeys.

use vstd::prelude::*;

verus! {

/// Number of slot hotkeys (Digit1 ... Digit9, for the slots 0 ... 8).
pub const SLOT_KEY_COUNT: usize = 9;

/// Highest slot index that holds a weapon (slots 0-3); higher slots hold consumables.
pub const LAST_WEAPON_SLOT: u8 = 3;

/// Switch between the first-person and the strategic camera ([V] key).
#[derive(Clone, Copy, Debug, PartialEq, Eq, Structural)]
pub struct CameraToggleEvent;

/// Switch to the slot `slot_index` (0-8: hotkey Digit1 gives slot 0, ..., Digit9 gives slot 8).
#[derive(Clone, Copy, Debug, PartialEq, Eq, Structural)]
pub struct WeaponSwitchEvent {
    pub slot_index: u8,
}

/// Request to make `target_slot` the active weapon slot of `entity`.
#[derive(Clone, Copy, Debug, PartialEq, Eq, Structural)]
pub struct SwapActiveWeaponIntent {
    pub entity: u64,
    pub target_slot: u8,
}

/// The slot selected by the hotkeys Digit1 ... Digit9 pressed this frame, given in that
/// order: the first pressed one wins, and its position is the slot index (0-8).
pub fn select_weapon_slot(just_pressed: &Vec<bool>) -> (slot: Option<u8>)
    requires
        just_pressed.len() == SLOT_KEY_COUNT,
    ensures
        match slot {
            Some(i) => i < SLOT_KEY_COUNT && just_pressed@[i as int] && forall|j: int|
                0 <= j < i ==> !just_pressed@[j],
            None => forall|j: int| 0 <= j < SLOT_KEY_COUNT ==> !just_pressed@[j],
        },
{
    let mut k: u8 = 0;
    while k < 9
        invariant
            0 <= k <= 9,
            just_pressed.len() == SLOT_KEY_COUNT,
            forall|j: int| 0 <= j < k ==> !just_pressed@[j],
        decreases 9 - k,
    {
        if just_pressed[k as usize] {
            return Some(k);
        }
        k = k + 1;
    }
    None
}

/// Whether any player action was pressed, in which case the input event is marked as
/// handled so that the user interface does not also receive it.
pub fn input_consumed(pressed: &Vec<bool>) -> (consumed: bool)
    ensures
        consumed == pressed@.contains(true),
{
    let mut k: usize = 0;
    while k < pressed.len()
        invariant
            0 <= k <= pressed.len(),
            forall|j: int| 0 <= j < k ==> !pressed@[j],
        decreases pressed.len() - k,
    {
        if pressed[k] {
            assert(pressed@[k as int]);
            return true;
        }
        k = k + 1;
    }
    false
}

pub open spec fn weapon_swaps_spec(events: Seq<WeaponSwitchEvent>, player: u64) -> Seq<SwapActiveWeaponIntent>
    decreases events.len(),
{
    if events.len() == 0 {
        Seq::empty()
    } else {
        let previous = weapon_swaps_spec(events.drop_last(), player);
        if events.last().slot_index <= LAST_WEAPON_SLOT {
            previous.push(
                SwapActiveWeaponIntent { entity: player, target_slot: events.last().slot_index },
            )
        } else {
            previous
        }
    }
}

/// Turns the player's slot hotkeys into weapon swap requests: only weapon slots (0-3)
/// are swapped to, in the order pressed; consumable slots are left alone. Without a
/// single player nothing happens.
pub fn process_player_weapon_switch(events: &Vec<WeaponSwitchEvent>, player: Option<u64>) -> (intents: Vec<SwapActiveWeaponIntent>)
    ensures
        intents@ == (match player {
            Some(p) => weapon_swaps_spec(events@, p),
            None => Seq::empty(),
        }),
        player is None ==> intents@.len() == 0,
        player matches Some(p) ==> forall|slot: u8|
            #[trigger] intents@.contains(SwapActiveWeaponIntent { entity: p, target_slot: slot })
                <==> (slot <= LAST_WEAPON_SLOT && events@.contains(
                WeaponSwitchEvent { slot_index: slot },
            )),
        forall|i: int|
            0 <= i < intents@.len() ==> player == Some((#[trigger] intents@[i]).entity)
                && intents@[i].target_slot <= LAST_WEAPON_SLOT,
{
    proof {
        if let Some(p) = player {
            lemma_swaps_cover_weapon_slots(events@, p);
            lemma_swaps_target_weapon_slots(events@, p);
        }
    }
    let mut intents: Vec<SwapActiveWeaponIntent> = Vec::new();
    let p = match player {
        Some(p) => p,
        None => return intents,
    };
    let mut k: usize = 0;
    while k < events.len()
        invariant
            0 <= k <= events.len(),
            intents@ == weapon_swaps_spec(events@.take(k as int), p),
        decreases events.len() - k,
    {
        let ghost next = events@.take(k + 1);
        assert(next.drop_last() =~= events@.take(k as int));
        assert(next.last() == events@[k as int]);
        if events[k].slot_index <= LAST_WEAPON_SLOT {
            intents.push(SwapActiveWeaponIntent { entity: p, target_slot: events[k].slot_index });
        }
        k = k + 1;
    }
    assert(events@.take(events.len() as int) =~= events@);
    intents
}

/// Every weapon slot pressed (0-3) is swapped to, and nothing else: the requests name
/// exactly the pressed slots up to the last weapon slot, all for the player.
pub proof fn lemma_swaps_cover_weapon_slots(events: Seq<WeaponSwitchEvent>, player: u64)
    ensures
        forall|slot: u8|
            #[trigger] weapon_swaps_spec(events, player).contains(
                SwapActiveWeaponIntent { entity: player, target_slot: slot },
            ) <==> (slot <= LAST_WEAPON_SLOT && events.contains(WeaponSwitchEvent { slot_index: slot })),
        forall|i: int|
            0 <= i < weapon_swaps_spec(events, player).len() ==> (#[trigger] weapon_swaps_spec(
                events,
                player,
            )[i]).entity == player,
    decreases events.len(),
{
    lemma_swaps_target_weapon_slots(events, player);
    if events.len() > 0 {
        let init = events.drop_last();
        lemma_swaps_cover_weapon_slots(init, player);
        let previous = weapon_swaps_spec(init, player);
        let all = weapon_swaps_spec(events, player);
        assert forall|slot: u8|
            #[trigger] all.contains(SwapActiveWeaponIntent { entity: player, target_slot: slot })
                <==> (slot <= LAST_WEAPON_SLOT && events.contains(
                WeaponSwitchEvent { slot_index: slot },
            )) by {
            let x = SwapActiveWeaponIntent { entity: player, target_slot: slot };
            let ev = WeaponSwitchEvent { slot_index: slot };
            if events.contains(ev) {
                let i = choose|i: int| 0 <= i < events.len() && events[i] == ev;
                if i < init.len() {
                    assert(init[i] == ev);
                }
            }
            if init.contains(ev) {
                let i = choose|i: int| 0 <= i < init.len() && init[i] == ev;
                assert(events[i] == ev);
            }
            if all.contains(x) {
                let k = choose|k: int| 0 <= k < all.len() && all[k] == x;
                if k < previous.len() {
                    assert(previous[k] == x);
                }
            }
            if previous.contains(x) {
                let k = choose|k: int| 0 <= k < previous.len() && previous[k] == x;
                if events.last().slot_index <= LAST_WEAPON_SLOT {
                    assert(all[k] == x);
                }
            }
            if events.last() == ev && slot <= LAST_WEAPON_SLOT {
                assert(all[all.len() - 1] == x);
            }
            assert(events[events.len() - 1] == events.last());
        }
    }
}

/// Every swap request names the player and a weapon slot.
pub proof fn lemma_swaps_target_weapon_slots(events: Seq<WeaponSwitchEvent>, player: u64)
    ensures
        forall|i: int|
            0 <= i < weapon_swaps_spec(events, player).len() ==> (#[trigger] weapon_swaps_spec(
                events,
                player,
            )[i]).target_slot <= LAST_WEAPON_SLOT && weapon_swaps_spec(events, player)[i].entity
                == player,
    decreases events.len(),
{
    if events.len() > 0 {
        lemma_swaps_target_weapon_slots(events.drop_last(), player);
        let previous = weapon_swaps_spec(events.drop_last(), player);
        let all = weapon_swaps_spec(events, player);
        assert forall|i: int| 0 <= i < all.len() implies (#[trigger] all[i]).target_slot
            <= LAST_WEAPON_SLOT && all[i].entity == player by {
            if i < previous.len() {
                assert(all[i] == previous[i]);
            }
        }
    }
}

} // verus!
