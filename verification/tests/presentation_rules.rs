use voidrun_godot::camera::{
    camera_toggle_system, camera_view, rts_key_axes, rts_rotate_axis, toggled, ActiveCamera,
    CameraMode,
};
use voidrun_godot::input::{
    input_consumed, process_player_weapon_switch, select_weapon_slot, SwapActiveWeaponIntent,
    WeaponSwitchEvent,
};
use voidrun_godot::shooting::{hip_fire_aim_active, process_ads_toggle, update_ads_transition, AimPhase};
use voidrun_godot::shared::collision;
use voidrun_godot::visuals::{
    debug_overlay_visibility, faction_color, faction_tint, health_bar_visible, needs_death_cleanup,
    FactionTint, PaletteColor,
};
use voidrun_godot::collision_layers;

#[test]
fn layer_names() {
    assert_eq!(collision_layers::get_layer_name(2), "Actors");
    assert_eq!(collision_layers::get_layer_name(4), "Environment");
    assert_eq!(collision_layers::get_layer_name(8), "Projectiles");
    assert_eq!(collision_layers::get_layer_name(16), "Unknown");
    assert_eq!(collision_layers::get_layer_name(6), "Unknown");
    assert_eq!(collision::get_layer_name(16), "Shields");
    assert_eq!(collision::get_layer_name(32), "Corpses");
    assert_eq!(collision::get_layer_name(0), "Unknown");
    assert_eq!(collision::COLLISION_MASK_PROJECTILES & collision::COLLISION_LAYER_PROJECTILES, 0);
    assert_eq!(collision_layers::COLLISION_MASK_ACTORS, 6);
}

#[test]
fn shield_layers() {
    assert_eq!(collision::shield_collision_layer(true), 16);
    assert_eq!(collision::shield_collision_layer(false), 0);
    assert!(collision::is_shield_area(16));
    assert!(collision::is_shield_area(16 | 2));
    assert!(!collision::is_shield_area(2));
}

#[test]
fn weapon_hotkeys() {
    let mut pressed = vec![false; 9];
    assert_eq!(select_weapon_slot(&pressed), None);
    pressed[8] = true;
    assert_eq!(select_weapon_slot(&pressed), Some(8));
    pressed[2] = true;
    assert_eq!(select_weapon_slot(&pressed), Some(2));
    let events = vec![
        WeaponSwitchEvent { slot_index: 0 },
        WeaponSwitchEvent { slot_index: 4 },
        WeaponSwitchEvent { slot_index: 3 },
        WeaponSwitchEvent { slot_index: 8 },
    ];
    assert_eq!(
        process_player_weapon_switch(&events, Some(11)),
        vec![
            SwapActiveWeaponIntent { entity: 11, target_slot: 0 },
            SwapActiveWeaponIntent { entity: 11, target_slot: 3 },
        ]
    );
    assert!(process_player_weapon_switch(&events, None).is_empty());
    assert!(input_consumed(&vec![false, true]));
    assert!(!input_consumed(&vec![false, false]));
    assert!(!input_consumed(&vec![]));
}

#[test]
fn camera_modes() {
    assert_eq!(toggled(CameraMode::FirstPerson), CameraMode::RTS);
    assert_eq!(toggled(toggled(CameraMode::RTS)), CameraMode::RTS);
    let mut active = ActiveCamera { mode: CameraMode::FirstPerson };
    let entered = camera_toggle_system(&mut active, 3);
    assert_eq!(entered, vec![CameraMode::RTS, CameraMode::FirstPerson, CameraMode::RTS]);
    assert_eq!(active.mode, CameraMode::RTS);
    assert!(camera_toggle_system(&mut active, 0).is_empty());
    assert_eq!(active.mode, CameraMode::RTS);
    let fps = camera_view(CameraMode::FirstPerson);
    assert!(!fps.head_meshes_visible && fps.mouse_captured && fps.mouse_look);
    let rts = camera_view(CameraMode::RTS);
    assert!(rts.head_meshes_visible && !rts.mouse_captured && !rts.mouse_look);
    assert_eq!(rts_key_axes(true, false, false, true), (1, -1));
    assert_eq!(rts_key_axes(true, true, true, true), (0, 0));
    assert_eq!(rts_rotate_axis(true, false), -1);
    assert_eq!(rts_rotate_axis(true, true), 0);
}

#[test]
fn aim_down_sights_cycle() {
    let entering = process_ads_toggle(AimPhase::HipFire).unwrap();
    assert_eq!(entering, AimPhase::EnteringADS);
    assert_eq!(process_ads_toggle(entering), None);
    assert_eq!(update_ads_transition(entering, false), AimPhase::EnteringADS);
    let ads = update_ads_transition(entering, true);
    assert_eq!(ads, AimPhase::ADS);
    let exiting = process_ads_toggle(ads).unwrap();
    assert_eq!(exiting, AimPhase::ExitingADS);
    assert_eq!(update_ads_transition(exiting, true), AimPhase::HipFire);
    assert!(hip_fire_aim_active(AimPhase::HipFire));
    assert!(!hip_fire_aim_active(AimPhase::ADS));
}

#[test]
fn faction_colours_and_health() {
    assert_eq!(faction_tint(1), FactionTint::Blue);
    assert_eq!(faction_tint(2), FactionTint::Red);
    assert_eq!(faction_tint(3), FactionTint::Green);
    assert_eq!(faction_tint(0), FactionTint::Gray);
    assert_eq!(faction_color(0), PaletteColor::Red);
    assert_eq!(faction_color(1), PaletteColor::Blue);
    assert_eq!(faction_color(7), PaletteColor::Green);
    assert_eq!(faction_color(8), PaletteColor::Yellow);
    assert_eq!(faction_color(4), PaletteColor::Magenta);
    assert!(health_bar_visible(1, 100));
    assert!(!health_bar_visible(0, 100));
    assert!(health_bar_visible(0, 0));
    assert!(needs_death_cleanup(0));
    assert!(!needs_death_cleanup(5));
    assert!(!debug_overlay_visibility(true, true, true, false));
    assert!(debug_overlay_visibility(true, true, true, true));
    assert!(debug_overlay_visibility(true, false, true, false));
    assert!(debug_overlay_visibility(false, true, true, false));
}
