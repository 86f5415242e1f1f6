//! The visibility classifier: once per frame, every tile with a
//! shadow-visibility facet is re-judged against the player's position.
//! Within `VIEW_DISTANCE` the tile binds its light sprite and becomes
//! visible; beyond it, a tile with a shadow sprite swaps to that sprite and
//! keeps its visibility state, and a tile without one is hidden with its
//! sprite untouched. Every mutation is guarded by an equality check so a
//! second pass with unchanged positions changes nothing and signals nothing.
use vstd::prelude::*;

use crate::loader::TileMap;
use crate::tiles::{Tile, VisState};
use crate::world::Player;
use crate::{COORD_LIMIT, VIEW_DISTANCE};

verus! {

/// Whether the tile at `(tx, ty)` lies within `VIEW_DISTANCE` of the player
/// at `(px, py)`: the Euclidean comparison, taken on squares so it stays in
/// the integers.
pub open spec fn in_view(tx: i64, ty: i64, px: i64, py: i64) -> bool {
    (px - tx) * (px - tx) + (py - ty) * (py - ty) <= VIEW_DISTANCE * VIEW_DISTANCE
}

/// A coordinate pair the distance check accepts.
pub open spec fn pos_bounded(x: i64, y: i64) -> bool {
    &&& -COORD_LIMIT <= x <= COORD_LIMIT
    &&& -COORD_LIMIT <= y <= COORD_LIMIT
}

/// The distance check as the classifier runs it.
pub fn within_view_distance(tx: i64, ty: i64, px: i64, py: i64) -> (r: bool)
    requires
        pos_bounded(tx, ty),
        pos_bounded(px, py),
    ensures
        r == in_view(tx, ty, px, py),
{
    let dx: i64 = px - tx;
    let dy: i64 = py - ty;
    proof {
        assert(0 <= dx * dx <= 4_000_000_000_000_000_000) by (nonlinear_arith)
            requires
                -2_000_000_000 <= dx <= 2_000_000_000,
        ;
        assert(0 <= dy * dy <= 4_000_000_000_000_000_000) by (nonlinear_arith)
            requires
                -2_000_000_000 <= dy <= 2_000_000_000,
        ;
    }
    let dx2: i64 = dx * dx;
    let dy2: i64 = dy * dy;
    dx2 + dy2 <= VIEW_DISTANCE * VIEW_DISTANCE
}

/// What one classifier pass leaves of a tile, given the player's position.
/// A tile without a shadow-visibility facet is not touched at all.
pub open spec fn classified_tile(t: Tile, px: i64, py: i64) -> Tile {
    match t.shadow_vis {
        Some(sv) => if in_view(t.x, t.y, px, py) {
            Tile { sprite: sv.light_sprite, state: VisState::Visible, ..t }
        } else {
            match sv.shadow_sprite {
                Some(shadow) => Tile { sprite: shadow, ..t },
                None => Tile { state: VisState::Hidden, ..t },
            }
        },
        None => t,
    }
}

/// Re-judge one tile against the player's position. Each write is guarded by
/// an equality check, and the returned flag says whether anything was
/// actually written — the "changed" signal downstream consumers watch.
pub fn classify_tile(tile: &mut Tile, px: i64, py: i64) -> (changed: bool)
    requires
        old(tile).coords_bounded(),
        pos_bounded(px, py),
    ensures
        *final(tile) == classified_tile(*old(tile), px, py),
        changed == (*final(tile) != *old(tile)),
{
    let mut changed = false;
    if let Some(sv) = tile.shadow_vis {
        if within_view_distance(tile.x, tile.y, px, py) {
            if tile.sprite != sv.light_sprite {
                tile.sprite = sv.light_sprite;
                changed = true;
            }
            if tile.state != VisState::Visible {
                tile.state = VisState::Visible;
                changed = true;
            }
        } else {
            if let Some(shadow) = sv.shadow_sprite {
                if tile.sprite != shadow {
                    tile.sprite = shadow;
                    changed = true;
                }
            } else {
                if tile.state != VisState::Hidden {
                    tile.state = VisState::Hidden;
                    changed = true;
                }
            }
        }
    }
    proof {
        assert(*tile =~= classified_tile(*old(tile), px, py));
    }
    changed
}

/// The visibility rule, spelled out for every tile that carries a
/// shadow-visibility facet and every player position: within `VIEW_DISTANCE`
/// the tile ends the pass bound to its light sprite and visible; outside it,
/// a tile with a shadow sprite ends bound to that sprite with its visibility
/// state unchanged from before, and a tile without one ends hidden with its
/// bound sprite unchanged.
pub proof fn lemma_visibility_rule(t: Tile, sv: crate::tiles::ShadowVisibility, px: i64, py: i64)
    requires
        t.shadow_vis == Some(sv),
    ensures
        in_view(t.x, t.y, px, py) ==> classified_tile(t, px, py) == (Tile {
            sprite: sv.light_sprite,
            state: VisState::Visible,
            ..t
        }),
        !in_view(t.x, t.y, px, py) ==> (sv.shadow_sprite matches Some(shadow)
            ==> classified_tile(t, px, py) == (Tile { sprite: shadow, ..t })),
        !in_view(t.x, t.y, px, py) && sv.shadow_sprite is None ==> (classified_tile(t, px, py)
            == (Tile { state: VisState::Hidden, ..t })),
{
}

/// One classifier pass never moves a tile and never touches its kind or its
/// collision and sprite facets: only the bound sprite and the visibility
/// state change.
pub proof fn lemma_classifier_preserves_identity(t: Tile, px: i64, py: i64)
    ensures
        classified_tile(t, px, py).x == t.x,
        classified_tile(t, px, py).y == t.y,
        classified_tile(t, px, py).kind == t.kind,
        classified_tile(t, px, py).body == t.body,
        classified_tile(t, px, py).shadow_vis == t.shadow_vis,
{
}

/// Well-formedness survives the per-frame churn: a pass touches only the
/// bound sprite and the visibility state, so a tile whose facets match its
/// kind keeps matching it.
pub proof fn lemma_classifier_preserves_wf(t: Tile, px: i64, py: i64)
    requires
        t.wf(),
    ensures
        classified_tile(t, px, py).wf(),
{
}

/// The classifier is idempotent: with the player and the tile where they
/// were, a second pass leaves the tile exactly as the first did — so the
/// second pass's "changed" signal is silent.
pub proof fn lemma_classifier_idempotent(t: Tile, px: i64, py: i64)
    ensures
        classified_tile(classified_tile(t, px, py), px, py) == classified_tile(t, px, py),
{
    assert(classified_tile(classified_tile(t, px, py), px, py) =~= classified_tile(t, px, py));
}

/// A whole pass is idempotent too: with no intervening position change, a
/// second pass over the map's tiles leaves exactly what the first left — so
/// the second pass's map-level "changed" signal (see `run_classifier`) is
/// silent.
pub proof fn lemma_pass_idempotent(tiles: Seq<Tile>, px: i64, py: i64)
    ensures
        forall|i: int|
            0 <= i < tiles.len() ==> classified_tile(
                #[trigger] classified_tile(tiles[i], px, py),
                px,
                py,
            ) == classified_tile(tiles[i], px, py),
{
    assert forall|i: int| 0 <= i < tiles.len() implies classified_tile(
        #[trigger] classified_tile(tiles[i], px, py),
        px,
        py,
    ) == classified_tile(tiles[i], px, py) by {
        lemma_classifier_idempotent(tiles[i], px, py);
    }
}

/// Re-judge every tile of the map. Returns whether any tile changed.
pub fn run_classifier(map: &mut TileMap, px: i64, py: i64) -> (changed: bool)
    requires
        forall|i: int|
            0 <= i < old(map).tiles@.len() ==> (#[trigger] old(map).tiles@[i]).coords_bounded(),
        pos_bounded(px, py),
    ensures
        final(map).tiles@.len() == old(map).tiles@.len(),
        forall|i: int|
            0 <= i < old(map).tiles@.len() ==> final(map).tiles@[i] == classified_tile(
                #[trigger] old(map).tiles@[i],
                px,
                py,
            ),
        final(map).origin_x == old(map).origin_x,
        final(map).origin_y == old(map).origin_y,
        changed == exists|i: int|
            0 <= i < old(map).tiles@.len() && classified_tile(#[trigger] old(map).tiles@[i], px, py)
                != old(map).tiles@[i],
{
    let ghost orig = map.tiles@;
    let mut changed = false;
    let mut i: usize = 0;
    let n = map.tiles.len();
    while i < n
        invariant
            n == orig.len(),
            i <= n,
            map.tiles@.len() == orig.len(),
            map.origin_x == old(map).origin_x,
            map.origin_y == old(map).origin_y,
            orig == old(map).tiles@,
            pos_bounded(px, py),
            forall|k: int| 0 <= k < orig.len() ==> (#[trigger] orig[k]).coords_bounded(),
            forall|k: int|
                0 <= k < i ==> map.tiles@[k] == classified_tile(#[trigger] orig[k], px, py),
            forall|k: int| i <= k < orig.len() ==> map.tiles@[k] == #[trigger] orig[k],
            changed == exists|k: int|
                0 <= k < i && classified_tile(#[trigger] orig[k], px, py) != orig[k],
        decreases n - i,
    {
        let mut t = map.tiles[i];
        let tile_changed = classify_tile(&mut t, px, py);
        if tile_changed {
            map.tiles[i] = t;
            changed = true;
        }
        proof {
            if !tile_changed {
                assert(map.tiles@[i as int] == classified_tile(orig[i as int], px, py));
            }
        }
        i = i + 1;
    }
    changed
}

/// The per-frame pass: read the player's position once and re-judge every
/// tile. With no player tracked the frame is skipped whole — the map is left
/// exactly as it was and no change is signalled.
pub fn tile_visibility_pass(map: &mut TileMap, player: Option<Player>) -> (changed: bool)
    requires
        forall|i: int|
            0 <= i < old(map).tiles@.len() ==> (#[trigger] old(map).tiles@[i]).coords_bounded(),
        player matches Some(p) ==> pos_bounded(p.x, p.y),
    ensures
        final(map).tiles@.len() == old(map).tiles@.len(),
        final(map).origin_x == old(map).origin_x,
        final(map).origin_y == old(map).origin_y,
        match player {
            Some(p) => {
                &&& forall|i: int|
                    0 <= i < old(map).tiles@.len() ==> final(map).tiles@[i] == classified_tile(
                        #[trigger] old(map).tiles@[i],
                        p.x,
                        p.y,
                    )
                &&& changed == exists|i: int|
                    0 <= i < old(map).tiles@.len() && classified_tile(
                        #[trigger] old(map).tiles@[i],
                        p.x,
                        p.y,
                    ) != old(map).tiles@[i]
            },
            None => {
                &&& final(map).tiles@ == old(map).tiles@
                &&& !changed
            },
        },
{
    match player {
        Some(p) => run_classifier(map, p.x, p.y),
        None => false,
    }
}

} // verus!
