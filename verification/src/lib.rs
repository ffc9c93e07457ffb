//! Game rules of a turn-based dungeon crawler: the tile map and its geometry,
//! the entity components, the map generators, and the decisions that the
//! game's systems take each turn.

pub mod geometry;
pub mod map;
pub mod bracket;
pub mod ecs;
pub mod components;
pub mod sounds;
pub mod map_builder;
pub mod spawner;
pub mod systems;
pub mod laws;
