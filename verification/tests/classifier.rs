use tilefog::loader::{load_level, TileMap};
use tilefog::tiles::{make_ground_tile, make_push_block_tile, make_wall_tile, SpriteId, VisState};
use tilefog::visibility::{classify_tile, run_classifier, tile_visibility_pass, within_view_distance};
use tilefog::world::Player;

#[test]
fn ground_tile_near_player_becomes_lit() {
    // player at (0,0), ground tile at (0,0): within VIEW_DISTANCE = 300
    let mut t = make_ground_tile(0, 0);
    let changed = classify_tile(&mut t, 0, 0);
    assert!(changed);
    assert_eq!(t.sprite, SpriteId::GroundLight);
    assert_eq!(t.state, VisState::Visible);
}

#[test]
fn far_wall_swaps_sprite_but_keeps_state() {
    // a wall first revealed near the player...
    let mut t = make_wall_tile(0, 0);
    classify_tile(&mut t, 0, 0);
    assert_eq!(t.sprite, SpriteId::WallLight);
    assert_eq!(t.state, VisState::Visible);
    // ...then the player moves to (1000,0): the sprite becomes the shadow
    // sprite while the visibility state persists unchanged
    let changed = classify_tile(&mut t, 1000, 0);
    assert!(changed);
    assert_eq!(t.sprite, SpriteId::WallShadow);
    assert_eq!(t.state, VisState::Visible);
}

#[test]
fn far_tile_without_shadow_sprite_is_hidden() {
    let mut t = make_push_block_tile(0, 0);
    // reveal it first
    classify_tile(&mut t, 0, 0);
    assert_eq!(t.state, VisState::Visible);
    // far away: no shadow sprite, so the state flips to hidden and the
    // bound sprite stays the light sprite
    let changed = classify_tile(&mut t, 1000, 0);
    assert!(changed);
    assert_eq!(t.sprite, SpriteId::PushBlockLight);
    assert_eq!(t.state, VisState::Hidden);
}

#[test]
fn push_block_always_keeps_light_sprite() {
    // at any distance the block's bound sprite is its light sprite; only the
    // visibility flag follows the distance rule
    let mut near = make_push_block_tile(0, 0);
    classify_tile(&mut near, 100, 0);
    assert_eq!(near.sprite, SpriteId::PushBlockLight);
    assert_eq!(near.state, VisState::Visible);

    let mut far = make_push_block_tile(0, 0);
    let changed = classify_tile(&mut far, 100_000, 0);
    assert_eq!(far.sprite, SpriteId::PushBlockLight);
    assert_eq!(far.state, VisState::Hidden);
    // it was already hidden, so nothing was written
    assert!(!changed);
}

#[test]
fn classifier_is_idempotent_and_silent_the_second_time() {
    let mut t = make_wall_tile(64, -64);
    let first = classify_tile(&mut t, 0, 0);
    assert!(first);
    let after_first = t;
    let second = classify_tile(&mut t, 0, 0);
    assert_eq!(t, after_first);
    assert!(!second);
}

#[test]
fn distance_check_boundary() {
    // (180, 240) is exactly 300 away: still in view
    assert!(within_view_distance(0, 0, 180, 240));
    assert!(within_view_distance(0, 0, 300, 0));
    // one unit past the circle is out
    assert!(!within_view_distance(0, 0, 300, 1));
    assert!(!within_view_distance(0, 0, 301, 0));
}

#[test]
fn distance_check_at_coordinate_extremes() {
    // the largest coordinates the classifier accepts stay within its
    // arithmetic: opposite corners are far apart, equal corners are in view
    let limit = 1_000_000_000;
    assert!(!within_view_distance(-limit, -limit, limit, limit));
    assert!(within_view_distance(limit, limit, limit, limit));
    // a fresh ground tile is already hidden with its shadow sprite bound, so
    // a far pass rebinds nothing and signals nothing
    let mut t = make_ground_tile(limit, limit);
    let changed = classify_tile(&mut t, -limit, -limit);
    assert!(!changed);
    assert_eq!(t.sprite, SpriteId::GroundShadow);
    assert_eq!(t.state, VisState::Hidden);
}

#[test]
fn pass_without_player_skips_frame() {
    let mut m = load_level(&vec![vec!['#', 'O']]);
    let before: Vec<_> = m.tiles.clone();
    let changed = tile_visibility_pass(&mut m, None);
    assert!(!changed);
    assert_eq!(m.tiles, before);
}

#[test]
fn pass_with_player_updates_every_tile() {
    let mut m = load_level(&vec![vec!['#', '.', '#']]);
    assert_eq!(m.tiles.len(), 2);
    let changed = tile_visibility_pass(&mut m, Some(Player { x: 0, y: 0 }));
    assert!(changed);
    // the wall at (0,0) is near: lit; the wall at (128,0) is near too
    assert_eq!(m.tiles[0].sprite, SpriteId::WallLight);
    assert_eq!(m.tiles[0].state, VisState::Visible);
    assert_eq!(m.tiles[1].sprite, SpriteId::WallLight);
    assert_eq!(m.tiles[1].state, VisState::Visible);
}

#[test]
fn run_classifier_mixed_distances() {
    let mut m = TileMap {
        origin_x: 0,
        origin_y: 0,
        tiles: vec![make_wall_tile(0, 0), make_wall_tile(640, 0), make_ground_tile(64, 0)],
    };
    let changed = run_classifier(&mut m, 0, 0);
    assert!(changed);
    assert_eq!(m.tiles[0].sprite, SpriteId::WallLight);
    assert_eq!(m.tiles[0].state, VisState::Visible);
    // 640 > 300: the far wall keeps its shadow sprite and stays hidden
    assert_eq!(m.tiles[1].sprite, SpriteId::WallShadow);
    assert_eq!(m.tiles[1].state, VisState::Hidden);
    assert_eq!(m.tiles[2].sprite, SpriteId::GroundLight);
    assert_eq!(m.tiles[2].state, VisState::Visible);
    // a second pass with nothing moved changes nothing
    let again = run_classifier(&mut m, 0, 0);
    assert!(!again);
}
