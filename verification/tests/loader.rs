use tilefog::loader::{classify_char, load_level, ShadowClass, ShapeClass};
use tilefog::tiles::{BodyKind, ShadowVisibility, SpriteId, TileKind, VisState};

fn grid(lines: &[&str]) -> Vec<Vec<char>> {
    lines.iter().map(|l| l.chars().collect()).collect()
}

#[test]
fn line_scenario_wall_empty_block_wall() {
    // "#.O#" at row 0: wall at (0,0), nothing for '.', a pushable block (and
    // the shadow rule's ground tile) at (128,0), a wall at (192,0).
    let m = load_level(&grid(&["#.O#"]));
    assert_eq!(m.tiles.len(), 4);

    assert_eq!(m.tiles[0].kind, TileKind::Wall);
    assert_eq!((m.tiles[0].x, m.tiles[0].y), (0, 0));

    assert_eq!(m.tiles[1].kind, TileKind::PushableBlock);
    assert_eq!((m.tiles[1].x, m.tiles[1].y), (128, 0));

    assert_eq!(m.tiles[2].kind, TileKind::Ground);
    assert_eq!((m.tiles[2].x, m.tiles[2].y), (128, 0));

    assert_eq!(m.tiles[3].kind, TileKind::Wall);
    assert_eq!((m.tiles[3].x, m.tiles[3].y), (192, 0));

    assert_eq!((m.origin_x, m.origin_y), (0, 0));
}

#[test]
fn wall_archetype_facets() {
    let m = load_level(&grid(&["#"]));
    assert_eq!(m.tiles.len(), 1);
    let t = m.tiles[0];
    assert_eq!(t.kind, TileKind::Wall);
    assert_eq!(t.body, Some(BodyKind::Fixed));
    assert_eq!(
        t.shadow_vis,
        Some(ShadowVisibility {
            shadow_sprite: Some(SpriteId::WallShadow),
            light_sprite: SpriteId::WallLight,
        })
    );
    assert_eq!(t.sprite, SpriteId::WallShadow);
    assert_eq!(t.state, VisState::Hidden);
}

#[test]
fn push_block_archetype_facets() {
    let m = load_level(&grid(&["O"]));
    assert_eq!(m.tiles.len(), 2);
    let b = m.tiles[0];
    assert_eq!(b.kind, TileKind::PushableBlock);
    assert_eq!(b.body, Some(BodyKind::Dynamic));
    assert_eq!(
        b.shadow_vis,
        Some(ShadowVisibility { shadow_sprite: None, light_sprite: SpriteId::PushBlockLight })
    );
    assert_eq!(b.sprite, SpriteId::PushBlockLight);
    assert_eq!(b.state, VisState::Hidden);
    // the shadow rule's fallback puts a ground tile under the block
    assert_eq!(m.tiles[1].kind, TileKind::Ground);
}

#[test]
fn ground_archetype_facets_and_unrecognized_fallback() {
    let m = load_level(&grid(&["z"]));
    assert_eq!(m.tiles.len(), 1);
    let t = m.tiles[0];
    assert_eq!(t.kind, TileKind::Ground);
    assert_eq!(t.body, None);
    assert_eq!(
        t.shadow_vis,
        Some(ShadowVisibility {
            shadow_sprite: Some(SpriteId::GroundShadow),
            light_sprite: SpriteId::GroundLight,
        })
    );
    assert_eq!(t.sprite, SpriteId::GroundShadow);
    assert_eq!(t.state, VisState::Hidden);
}

#[test]
fn row_and_column_coordinate_mapping() {
    let m = load_level(&grid(&["..", "..", "..#"]));
    // only the '#' in row 2, column 2 spawns a tile
    assert_eq!(m.tiles.len(), 1);
    assert_eq!((m.tiles[0].x, m.tiles[0].y), (128, -128));
}

#[test]
fn spawn_marker_sets_negated_origin_and_spawns_ground() {
    let m = load_level(&grid(&["...", ".X."]));
    // the marker at row 1, column 1 uses the negated mapping
    assert_eq!((m.origin_x, m.origin_y), (-64, 64));
    // the shadow rule still spawns a ground tile at the marker's cell
    assert_eq!(m.tiles.len(), 1);
    assert_eq!(m.tiles[0].kind, TileKind::Ground);
    assert_eq!((m.tiles[0].x, m.tiles[0].y), (64, -64));
}

#[test]
fn last_spawn_marker_wins() {
    let m = load_level(&grid(&["X.", ".X"]));
    assert_eq!((m.origin_x, m.origin_y), (-64, 64));
}

#[test]
fn empty_grid_loads_empty_map() {
    let m = load_level(&grid(&[]));
    assert_eq!(m.tiles.len(), 0);
    assert_eq!((m.origin_x, m.origin_y), (0, 0));
}

#[test]
fn explicit_empty_cells_spawn_nothing() {
    let m = load_level(&grid(&["...", "..."]));
    assert_eq!(m.tiles.len(), 0);
}

#[test]
fn empty_line_still_counts_as_a_row() {
    let m = load_level(&grid(&["", "#"]));
    assert_eq!(m.tiles.len(), 1);
    assert_eq!((m.tiles[0].x, m.tiles[0].y), (0, -64));
}

#[test]
fn character_table() {
    assert_eq!(classify_char('O'), (ShapeClass::PushBlock, ShadowClass::Ground));
    assert_eq!(classify_char('X'), (ShapeClass::SpawnMarker, ShadowClass::Ground));
    assert_eq!(classify_char('#'), (ShapeClass::NoShape, ShadowClass::Wall));
    assert_eq!(classify_char('.'), (ShapeClass::NoShape, ShadowClass::Empty));
    assert_eq!(classify_char('q'), (ShapeClass::NoShape, ShadowClass::Ground));
}

#[test]
fn sprite_paths() {
    assert_eq!(SpriteId::PushBlockLight.path(), "push_block.png");
    assert_eq!(SpriteId::WallShadow.path(), "wall_shadow.png");
    assert_eq!(SpriteId::WallLight.path(), "wall_light.png");
    assert_eq!(SpriteId::GroundShadow.path(), "ground_shadow.png");
    assert_eq!(SpriteId::GroundLight.path(), "ground_light.png");
}
