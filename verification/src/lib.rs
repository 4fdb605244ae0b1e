//! Decision logic of the Voidrun Godot tactical layer.
//!
//! The engine glue (scene nodes, physics queries, ECS plumbing) lives outside this
//! library; every rule that decides what the tactical layer does with the values it
//! reads from the engine stands here with its contract.

pub mod collision_layers;
pub mod shared;
pub mod ai_melee;
mod chance;
pub mod selection;
pub mod melee;
pub mod ranged;
pub mod vision;
pub mod movement;
pub mod schedules;
pub mod input;
pub mod camera;
pub mod shooting;
pub mod visuals;
