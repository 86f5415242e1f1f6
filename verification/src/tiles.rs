//! The tile data model: sprite identifiers, tile kinds, the per-kind facets,
//! and the archetype each loader rule spawns.
use vstd::prelude::*;

use crate::COORD_LIMIT;

verus! {

/// Identifies one of the sprite images the game ships. The engine shell
/// resolves an identifier to an asset path and a texture handle; the core
/// never touches the asset service itself.
#[derive(Clone, Copy, PartialEq, Eq, Structural, Debug)]
pub enum SpriteId {
    PushBlockLight,
    WallShadow,
    WallLight,
    GroundShadow,
    GroundLight,
}

impl SpriteId {
    /// The asset path this sprite is loaded from.
    pub open spec fn path_spec(self) -> Seq<char> {
        match self {
            SpriteId::PushBlockLight => "push_block.png"@,
            SpriteId::WallShadow => "wall_shadow.png"@,
            SpriteId::WallLight => "wall_light.png"@,
            SpriteId::GroundShadow => "ground_shadow.png"@,
            SpriteId::GroundLight => "ground_light.png"@,
        }
    }

    /// The asset path as the asset service takes it.
    pub fn path(self) -> (s: &'static str)
        ensures
            s@ == self.path_spec(),
    {
        match self {
            SpriteId::PushBlockLight => "push_block.png",
            SpriteId::WallShadow => "wall_shadow.png",
            SpriteId::WallLight => "wall_light.png",
            SpriteId::GroundShadow => "ground_shadow.png",
            SpriteId::GroundLight => "ground_light.png",
        }
    }
}

/// Whether a tile is currently shown or hidden.
#[derive(Clone, Copy, PartialEq, Eq, Structural, Debug)]
pub enum VisState {
    Visible,
    Hidden,
}

/// The collision body a tile carries: a fixed box for walls, a dynamic
/// (damped, rotation-locked) box for pushable blocks.
#[derive(Clone, Copy, PartialEq, Eq, Structural, Debug)]
pub enum BodyKind {
    Fixed,
    Dynamic,
}

/// The archetype of a spawned tile. The player-spawn marker spawns no tile
/// of its own: it sets the map's origin instead.
#[derive(Clone, Copy, PartialEq, Eq, Structural, Debug)]
pub enum TileKind {
    Wall,
    Ground,
    PushableBlock,
}

/// Which sprite a tile shows when lit and, optionally, when obscured. A tile
/// without a shadow sprite keeps its bound sprite when the player is far and
/// is hidden instead.
#[derive(Clone, Copy, PartialEq, Eq, Structural, Debug)]
pub struct ShadowVisibility {
    pub shadow_sprite: Option<SpriteId>,
    pub light_sprite: SpriteId,
}

/// One grid-cell entity of the level. `x` and `y` are world coordinates,
/// fixed at load time; `sprite` and `state` are the only fields the
/// classifier mutates afterwards.
#[verifier::ext_equal]
#[derive(Clone, Copy, PartialEq, Eq, Structural, Debug)]
pub struct Tile {
    pub x: i64,
    pub y: i64,
    pub kind: TileKind,
    pub body: Option<BodyKind>,
    pub shadow_vis: Option<ShadowVisibility>,
    pub sprite: SpriteId,
    pub state: VisState,
}

impl Tile {
    /// Coordinates small enough for the classifier's distance arithmetic.
    pub open spec fn coords_bounded(self) -> bool {
        &&& -COORD_LIMIT <= self.x <= COORD_LIMIT
        &&& -COORD_LIMIT <= self.y <= COORD_LIMIT
    }

    /// A tile's collision and sprite facets are fully determined by its kind.
    pub open spec fn wf(self) -> bool {
        &&& self.coords_bounded()
        &&& match self.kind {
            TileKind::Wall => {
                &&& self.body == Some(BodyKind::Fixed)
                &&& self.shadow_vis == Some(
                    ShadowVisibility {
                        shadow_sprite: Some(SpriteId::WallShadow),
                        light_sprite: SpriteId::WallLight,
                    },
                )
            },
            TileKind::Ground => {
                &&& self.body is None
                &&& self.shadow_vis == Some(
                    ShadowVisibility {
                        shadow_sprite: Some(SpriteId::GroundShadow),
                        light_sprite: SpriteId::GroundLight,
                    },
                )
            },
            TileKind::PushableBlock => {
                &&& self.body == Some(BodyKind::Dynamic)
                &&& self.shadow_vis == Some(
                    ShadowVisibility {
                        shadow_sprite: None,
                        light_sprite: SpriteId::PushBlockLight,
                    },
                )
            },
        }
    }
}

/// The tile a wall cell spawns: fixed collision box, a shadow/light sprite
/// pair, hidden with the shadow sprite bound until the first classifier pass.
pub open spec fn wall_tile(x: i64, y: i64) -> Tile {
    Tile {
        x,
        y,
        kind: TileKind::Wall,
        body: Some(BodyKind::Fixed),
        shadow_vis: Some(
            ShadowVisibility {
                shadow_sprite: Some(SpriteId::WallShadow),
                light_sprite: SpriteId::WallLight,
            },
        ),
        sprite: SpriteId::WallShadow,
        state: VisState::Hidden,
    }
}

/// The tile a ground cell spawns: no collision, a shadow/light sprite pair,
/// hidden with the shadow sprite bound until the first classifier pass.
pub open spec fn ground_tile(x: i64, y: i64) -> Tile {
    Tile {
        x,
        y,
        kind: TileKind::Ground,
        body: None,
        shadow_vis: Some(
            ShadowVisibility {
                shadow_sprite: Some(SpriteId::GroundShadow),
                light_sprite: SpriteId::GroundLight,
            },
        ),
        sprite: SpriteId::GroundShadow,
        state: VisState::Hidden,
    }
}

/// The tile a pushable-block cell spawns: dynamic collision box, no shadow
/// sprite (its light sprite stays bound at any distance), hidden at first.
pub open spec fn push_block_tile(x: i64, y: i64) -> Tile {
    Tile {
        x,
        y,
        kind: TileKind::PushableBlock,
        body: Some(BodyKind::Dynamic),
        shadow_vis: Some(
            ShadowVisibility { shadow_sprite: None, light_sprite: SpriteId::PushBlockLight },
        ),
        sprite: SpriteId::PushBlockLight,
        state: VisState::Hidden,
    }
}

/// Build the wall archetype at a world position.
pub fn make_wall_tile(x: i64, y: i64) -> (t: Tile)
    ensures
        t == wall_tile(x, y),
{
    Tile {
        x,
        y,
        kind: TileKind::Wall,
        body: Some(BodyKind::Fixed),
        shadow_vis: Some(
            ShadowVisibility {
                shadow_sprite: Some(SpriteId::WallShadow),
                light_sprite: SpriteId::WallLight,
            },
        ),
        sprite: SpriteId::WallShadow,
        state: VisState::Hidden,
    }
}

/// Build the ground archetype at a world position.
pub fn make_ground_tile(x: i64, y: i64) -> (t: Tile)
    ensures
        t == ground_tile(x, y),
{
    Tile {
        x,
        y,
        kind: TileKind::Ground,
        body: None,
        shadow_vis: Some(
            ShadowVisibility {
                shadow_sprite: Some(SpriteId::GroundShadow),
                light_sprite: SpriteId::GroundLight,
            },
        ),
        sprite: SpriteId::GroundShadow,
        state: VisState::Hidden,
    }
}

/// Build the pushable-block archetype at a world position.
pub fn make_push_block_tile(x: i64, y: i64) -> (t: Tile)
    ensures
        t == push_block_tile(x, y),
{
    Tile {
        x,
        y,
        kind: TileKind::PushableBlock,
        body: Some(BodyKind::Dynamic),
        shadow_vis: Some(
            ShadowVisibility { shadow_sprite: None, light_sprite: SpriteId::PushBlockLight },
        ),
        sprite: SpriteId::PushBlockLight,
        state: VisState::Hidden,
    }
}

/// Every archetype the loader spawns is well formed once its cell coordinates
/// are in range.
pub proof fn lemma_archetypes_wf(x: i64, y: i64)
    requires
        -COORD_LIMIT <= x <= COORD_LIMIT,
        -COORD_LIMIT <= y <= COORD_LIMIT,
    ensures
        wall_tile(x, y).wf(),
        ground_tile(x, y).wf(),
        push_block_tile(x, y).wf(),
{
}

} // verus!
