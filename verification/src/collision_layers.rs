//! Physics layer bits of the first layer table (actors, environment, projectiles).
//!
//! A layer is a single bit of a Godot collision bitmask; a mask is the union of the
//! layers that an object collides with.

use vstd::prelude::*;

verus! {

/// Layer 2: actors (players and NPCs).
pub const COLLISION_LAYER_ACTORS: u32 = 0b10;

/// Layer 3: environment (walls, obstacles, terrain).
pub const COLLISION_LAYER_ENVIRONMENT: u32 = 0b100;

/// Layer 4: projectiles.
pub const COLLISION_LAYER_PROJECTILES: u32 = 0b1000;

/// Actors collide with actors and environment.
pub const COLLISION_MASK_ACTORS: u32 = 0b110;

/// Projectiles collide with actors and environment, never with other projectiles.
pub const COLLISION_MASK_PROJECTILES: u32 = 0b110;

/// Line-of-sight raycasts see actors and environment.
pub const COLLISION_MASK_RAYCAST_LOS: u32 = 0b110;

/// The debug name of a layer bit pattern.
pub open spec fn layer_name_spec(layer_bits: u32) -> Seq<char> {
    if layer_bits == COLLISION_LAYER_ACTORS {
        "Actors"@
    } else if layer_bits == COLLISION_LAYER_ENVIRONMENT {
        "Environment"@
    } else if layer_bits == COLLISION_LAYER_PROJECTILES {
        "Projectiles"@
    } else {
        "Unknown"@
    }
}

/// Name of a layer for debug logs ("Unknown" for anything that is not exactly one known layer).
pub fn get_layer_name(layer_bits: u32) -> (name: &'static str)
    ensures
        name@ == layer_name_spec(layer_bits),
{
    if layer_bits == COLLISION_LAYER_ACTORS {
        "Actors"
    } else if layer_bits == COLLISION_LAYER_ENVIRONMENT {
        "Environment"
    } else if layer_bits == COLLISION_LAYER_PROJECTILES {
        "Projectiles"
    } else {
        "Unknown"
    }
}

/// The masks are the unions of the layers they name, and a projectile's mask leaves
/// out the projectile layer, so projectiles never collide with one another.
pub proof fn lemma_layer_table()
    ensures
        COLLISION_MASK_ACTORS == COLLISION_LAYER_ACTORS | COLLISION_LAYER_ENVIRONMENT,
        COLLISION_MASK_PROJECTILES == COLLISION_LAYER_ACTORS | COLLISION_LAYER_ENVIRONMENT,
        COLLISION_MASK_RAYCAST_LOS == COLLISION_LAYER_ACTORS | COLLISION_LAYER_ENVIRONMENT,
        COLLISION_MASK_PROJECTILES & COLLISION_LAYER_PROJECTILES == 0,
        COLLISION_LAYER_ACTORS & COLLISION_LAYER_ENVIRONMENT == 0,
        COLLISION_LAYER_ACTORS & COLLISION_LAYER_PROJECTILES == 0,
        COLLISION_LAYER_ENVIRONMENT & COLLISION_LAYER_PROJECTILES == 0,
{
    assert(0b110u32 == 0b10u32 | 0b100u32) by (bit_vector);
    assert(0b110u32 & 0b1000u32 == 0) by (bit_vector);
    assert(0b10u32 & 0b100u32 == 0) by (bit_vector);
    assert(0b10u32 & 0b1000u32 == 0) by (bit_vector);
    assert(0b100u32 & 0b1000u32 == 0) by (bit_vector);
}

} // verus!
