//! Physics layer bits of the full layer table (actors, environment, projectiles,
//! shields, corpses) and the layer decisions that depend on them.

use vstd::prelude::*;

verus! {

/// Layer 2: actors (players and NPCs).
pub const COLLISION_LAYER_ACTORS: u32 = 0b10;

/// Layer 3: environment (walls, obstacles, terrain).
pub const COLLISION_LAYER_ENVIRONMENT: u32 = 0b100;

/// Layer 4: projectiles.
pub const COLLISION_LAYER_PROJECTILES: u32 = 0b1000;

/// Layer 5: energy shield spheres.
pub const COLLISION_LAYER_SHIELDS: u32 = 0b10000;

/// Layer 6: corpses (dead actors lying on the ground).
pub const COLLISION_LAYER_CORPSES: u32 = 0b100000;

/// Actors collide with actors and environment.
pub const COLLISION_MASK_ACTORS: u32 = 0b110;

/// Projectiles collide with actors, environment and shields.
pub const COLLISION_MASK_PROJECTILES: u32 = 0b10110;

/// Line-of-sight raycasts see actors and environment.
pub const COLLISION_MASK_RAYCAST_LOS: u32 = 0b110;

/// Shields collide with nothing actively.
pub const COLLISION_MASK_SHIELDS: u32 = 0;

/// Corpses collide with the environment only.
pub const COLLISION_MASK_CORPSES: u32 = 0b100;

/// The debug name of a layer bit pattern.
pub open spec fn layer_name_spec(layer_bits: u32) -> Seq<char> {
    if layer_bits == COLLISION_LAYER_ACTORS {
        "Actors"@
    } else if layer_bits == COLLISION_LAYER_ENVIRONMENT {
        "Environment"@
    } else if layer_bits == COLLISION_LAYER_PROJECTILES {
        "Projectiles"@
    } else if layer_bits == COLLISION_LAYER_SHIELDS {
        "Shields"@
    } else if layer_bits == COLLISION_LAYER_CORPSES {
        "Corpses"@
    } else {
        "Unknown"@
    }
}

/// Name of a layer for debug logs ("Unknown" for anything that is not exactly one known layer).
pub fn get_layer_name(layer_bits: u32) -> (name: &'static str)
    ensures
        name@ == layer_name_spec(layer_bits),
{
    if layer_bits == COLLISION_LAYER_ACTORS {
        "Actors"
    } else if layer_bits == COLLISION_LAYER_ENVIRONMENT {
        "Environment"
    } else if layer_bits == COLLISION_LAYER_PROJECTILES {
        "Projectiles"
    } else if layer_bits == COLLISION_LAYER_SHIELDS {
        "Shields"
    } else if layer_bits == COLLISION_LAYER_CORPSES {
        "Corpses"
    } else {
        "Unknown"
    }
}

/// Collision layer of a shield sphere: the shield layer while the shield is active,
/// no layer at all (projectiles pass through) while it is not.
pub fn shield_collision_layer(is_active: bool) -> (layer: u32)
    ensures
        layer == (if is_active { COLLISION_LAYER_SHIELDS } else { 0u32 }),
{
    if is_active {
        COLLISION_LAYER_SHIELDS
    } else {
        0
    }
}

/// Whether an area that a projectile entered is a shield: its layer bits hold the shield bit.
pub fn is_shield_area(area_layer: u32) -> (shield: bool)
    ensures
        shield == (area_layer & COLLISION_LAYER_SHIELDS != 0),
{
    area_layer & COLLISION_LAYER_SHIELDS != 0
}

/// The masks are the unions of the layers they name; projectiles never collide with
/// projectiles; corpses collide with neither actors nor projectiles nor corpses; and
/// a projectile detects a shield only while the shield is active.
pub proof fn lemma_layer_table()
    ensures
        COLLISION_MASK_ACTORS == COLLISION_LAYER_ACTORS | COLLISION_LAYER_ENVIRONMENT,
        COLLISION_MASK_PROJECTILES == COLLISION_LAYER_ACTORS | COLLISION_LAYER_ENVIRONMENT
            | COLLISION_LAYER_SHIELDS,
        COLLISION_MASK_RAYCAST_LOS == COLLISION_LAYER_ACTORS | COLLISION_LAYER_ENVIRONMENT,
        COLLISION_MASK_CORPSES == COLLISION_LAYER_ENVIRONMENT,
        COLLISION_MASK_PROJECTILES & COLLISION_LAYER_PROJECTILES == 0,
        COLLISION_MASK_CORPSES & (COLLISION_LAYER_ACTORS | COLLISION_LAYER_PROJECTILES
            | COLLISION_LAYER_CORPSES) == 0,
        COLLISION_MASK_PROJECTILES & COLLISION_LAYER_SHIELDS != 0,
        COLLISION_MASK_PROJECTILES & 0u32 == 0,
{
    assert(0b110u32 == 0b10u32 | 0b100u32) by (bit_vector);
    assert(0b10110u32 == 0b10u32 | 0b100u32 | 0b10000u32) by (bit_vector);
    assert(0b10110u32 & 0b1000u32 == 0) by (bit_vector);
    assert(0b100u32 & (0b10u32 | 0b1000u32 | 0b100000u32) == 0) by (bit_vector);
    assert(0b10110u32 & 0b10000u32 != 0) by (bit_vector);
    assert(0b10110u32 & 0u32 == 0) by (bit_vector);
}

/// Distinct known layers have distinct names, and a known layer is never "Unknown".
pub proof fn lemma_layer_names_distinct(a: u32, b: u32)
    requires
        layer_name_spec(a) != "Unknown"@,
        a != b,
    ensures
        layer_name_spec(a) != layer_name_spec(b),
{
    reveal_strlit("Actors");
    reveal_strlit("Environment");
    reveal_strlit("Projectiles");
    reveal_strlit("Shields");
    reveal_strlit("Corpses");
    reveal_strlit("Unknown");
    assert("Actors"@[0] == 'A');
    assert("Environment"@[0] == 'E');
    assert("Projectiles"@[0] == 'P');
    assert("Shields"@[0] == 'S');
    assert("Corpses"@[0] == 'C');
    assert("Unknown"@[0] == 'U');
    assert(layer_name_spec(a)[0] != layer_name_spec(b)[0]);
}

} // verus!
