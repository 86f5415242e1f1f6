//! The world around the map: the tracked player, the camera, and the reload
//! operation that replaces the map wholesale while both survive untouched.
use vstd::prelude::*;

use crate::loader::{grid_view, level_emits, level_origin, load_level, TileMap};
use crate::MAX_GRID;

verus! {

/// The tracked player: the one reference point the classifier reads. Its
/// coordinates are the floored world position the movement subsystem leaves.
#[derive(Clone, Copy, PartialEq, Eq, Structural, Debug)]
pub struct Player {
    pub x: i64,
    pub y: i64,
}

/// The camera entity; the core never moves it, it only survives reloads.
#[derive(Clone, Copy, PartialEq, Eq, Structural, Debug)]
pub struct Camera {
    pub x: i64,
    pub y: i64,
}

/// The game world: at most one map at a time, plus the entities that outlive
/// a reload. Holding the single map by value is what enforces the one-map
/// invariant — a reload replaces it wholesale.
pub struct World {
    pub map: TileMap,
    pub player: Player,
    pub camera: Camera,
}

impl World {
    /// Destroy the current map — and with it every tile it owns — and load
    /// the given grid in its place. Exactly the map subtree is replaced: the
    /// player and the camera come through unchanged.
    pub fn reload(&mut self, lines: &Vec<Vec<char>>)
        requires
            lines@.len() <= MAX_GRID,
            forall|r: int| 0 <= r < lines@.len() ==> (#[trigger] lines@[r])@.len() <= MAX_GRID,
        ensures
            final(self).map.tiles@ == level_emits(grid_view(lines@)),
            final(self).map.origin_x == level_origin(grid_view(lines@)).0,
            final(self).map.origin_y == level_origin(grid_view(lines@)).1,
            final(self).player == old(self).player,
            final(self).camera == old(self).camera,
    {
        self.map = load_level(lines);
    }

    /// The reload trigger: on the reload key the map is destroyed and the
    /// fixed level is loaded anew; otherwise the frame leaves the world
    /// untouched.
    pub fn reload_if_triggered(&mut self, reload_pressed: bool, lines: &Vec<Vec<char>>)
        requires
            lines@.len() <= MAX_GRID,
            forall|r: int| 0 <= r < lines@.len() ==> (#[trigger] lines@[r])@.len() <= MAX_GRID,
        ensures
            final(self).player == old(self).player,
            final(self).camera == old(self).camera,
            reload_pressed ==> {
                &&& final(self).map.tiles@ == level_emits(grid_view(lines@))
                &&& final(self).map.origin_x == level_origin(grid_view(lines@)).0
                &&& final(self).map.origin_y == level_origin(grid_view(lines@)).1
            },
            !reload_pressed ==> {
                &&& final(self).map.tiles@ == old(self).map.tiles@
                &&& final(self).map.origin_x == old(self).map.origin_x
                &&& final(self).map.origin_y == old(self).map.origin_y
            },
    {
        if reload_pressed {
            self.reload(lines);
        }
    }
}

} // verus!
