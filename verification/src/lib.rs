//! Turn-based simulation core of a small tile-grid dungeon game: a walled map,
//! a registry of entities (player, monsters, traps), and the phases of one tick.

pub mod types;
pub mod map;
pub mod registry;
pub mod state;
pub mod player;
pub mod monsters;
pub mod traps;
pub mod lifecycle;
pub mod game;
