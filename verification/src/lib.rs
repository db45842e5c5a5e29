//! Game rules of a wave-based tower defense game: the damage counter matrix,
//! the player's economy, kill combos, the tile map and its enemy path,
//! wave scheduling, tower placement, scoring and level results.
//!
//! Quantities that the game measures in floating point (positions, health,
//! timers, difficulty scales) are carried through this library as an opaque
//! scalar type parameter `F`; every decision that is made on integers,
//! booleans or enum tags is made and proved here.

pub mod kinds;
pub mod search;
pub mod economy;
pub mod counter;
pub mod combo;
pub mod grid;
pub mod layout;
pub mod path;
pub mod results;
pub mod config;
pub mod waves;
pub mod scoring;
pub mod tower;
