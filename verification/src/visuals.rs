//! Visual bookkeeping decisions: faction colours, health bars, death cleanup and the
//! debug overlay.

use vstd::prelude::*;

verus! {

/// Tint of an actor's meshes in the Godot scene.
#[derive(Clone, Copy, Debug, PartialEq, Eq, Structural)]
pub enum FactionTint {
    Blue,
    Red,
    Green,
    Gray,
}

/// Faction 1 is blue, 2 red, 3 green, every other faction gray.
pub fn faction_tint(faction_id: u64) -> (tint: FactionTint)
    ensures
        tint == (if faction_id == 1 {
            FactionTint::Blue
        } else if faction_id == 2 {
            FactionTint::Red
        } else if faction_id == 3 {
            FactionTint::Green
        } else {
            FactionTint::Gray
        }),
{
    if faction_id == 1 {
        FactionTint::Blue
    } else if faction_id == 2 {
        FactionTint::Red
    } else if faction_id == 3 {
        FactionTint::Green
    } else {
        FactionTint::Gray
    }
}

/// Colour of an actor in the standalone Bevy client (a palette of five).
#[derive(Clone, Copy, Debug, PartialEq, Eq, Structural)]
pub enum PaletteColor {
    Red,
    Blue,
    Green,
    Yellow,
    Magenta,
}

pub open spec fn palette_spec(faction_id: u64) -> PaletteColor {
    let slot = faction_id % 5;
    if slot == 0 {
        PaletteColor::Red
    } else if slot == 1 {
        PaletteColor::Blue
    } else if slot == 2 {
        PaletteColor::Green
    } else if slot == 3 {
        PaletteColor::Yellow
    } else {
        PaletteColor::Magenta
    }
}

/// The client palette cycles through five colours by faction id.
pub fn faction_color(faction_id: u64) -> (color: PaletteColor)
    ensures
        color == palette_spec(faction_id),
{
    let slot = faction_id % 5;
    if slot == 0 {
        PaletteColor::Red
    } else if slot == 1 {
        PaletteColor::Blue
    } else if slot == 2 {
        PaletteColor::Green
    } else if slot == 3 {
        PaletteColor::Yellow
    } else {
        PaletteColor::Magenta
    }
}

/// Factions five apart share a colour.
pub proof fn lemma_palette_period(faction_id: u64)
    requires
        faction_id <= u64::MAX - 5,
    ensures
        palette_spec(faction_id) == palette_spec((faction_id + 5) as u64),
{
    assert((faction_id + 5) % 5 == faction_id % 5);
}

/// Whether a health bar is shown: the health fraction `current / max` must not be at or
/// below zero. With a positive maximum that means some health left; with a zero maximum
/// the fraction is infinite or undefined and the bar stays shown.
pub fn health_bar_visible(current: u32, max: u32) -> (visible: bool)
    ensures
        visible == (current > 0 || max == 0),
{
    current > 0 || max == 0
}

/// Whether an actor whose health changed is dead and gets the full cleanup (collision
/// off, navigation off, vision removed, gray paint, despawn in 5 s).
pub fn needs_death_cleanup(health_current: u32) -> (dead: bool)
    ensures
        dead == (health_current == 0),
{
    health_current == 0
}

/// The debug overlay's visibility after a key event: a fresh (not echoed) press of F3
/// flips it, anything else leaves it.
pub fn debug_overlay_visibility(visible: bool, is_f3: bool, pressed: bool, echo: bool) -> (next: bool)
    ensures
        next == (if is_f3 && pressed && !echo {
            !visible
        } else {
            visible
        }),
{
    if is_f3 && pressed && !echo {
        !visible
    } else {
        visible
    }
}

} // verus!
