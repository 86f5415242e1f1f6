//! A verified core for a small tile-based game: a text-grid level loader and
//! a per-frame visibility classifier.
//!
//! The loader turns a grid of characters into a map of tiles (walls, ground,
//! pushable blocks) with fixed world positions and per-kind collision and
//! sprite facets. The classifier compares each tile's position to the
//! player's and binds the tile's lit or shadowed sprite accordingly, guarding
//! every mutation by an equality check so a repeated pass signals no change.
//! Rendering, physics and input stay with the host engine; the library works
//! on plain positions and sprite identifiers that the engine shell converts.
use vstd::prelude::*;

pub mod loader;
pub mod player;
pub mod tiles;
pub mod visibility;
pub mod world;

verus! {

/// Width in world units of one grid cell; column `c`, row `r` of the text
/// grid maps to world position `(c * CELL, r * -CELL)`.
pub const CELL: i64 = 64;

/// Radius around the player inside which a tile counts as lit.
pub const VIEW_DISTANCE: i64 = 300;

/// Largest magnitude of a world coordinate the classifier accepts; keeps the
/// squared-distance arithmetic inside `i64`.
pub const COORD_LIMIT: i64 = 1_000_000_000;

/// Largest number of rows in a level grid, and of cells in one row; keeps
/// every cell's world coordinate within `COORD_LIMIT`.
pub const MAX_GRID: usize = 15_000_000;

/// Speed, in world units per second, the movement keys give the player.
pub const PLAYER_SPEED: i64 = 256;

} // verus!
