//! The level loader: a text grid in, a tile map out. Each character of the
//! grid is judged by two independent rules — a shape rule (pushable block,
//! spawn marker) and a shadow rule (wall, explicit empty, ground default) —
//! so one character can spawn up to two tiles.
use vstd::prelude::*;

use crate::tiles::{
    make_ground_tile, make_push_block_tile, make_wall_tile, ground_tile, push_block_tile,
    wall_tile, Tile,
};
use crate::{CELL, COORD_LIMIT, MAX_GRID};

verus! {

/// What the loader's first, "shape" rule does for one character.
#[derive(Clone, Copy, PartialEq, Eq, Structural, Debug)]
pub enum ShapeClass {
    /// `O`: spawn a pushable block.
    PushBlock,
    /// `X`: set the map origin to the marker's (negated) cell position.
    SpawnMarker,
    /// Anything else: the shape rule spawns nothing.
    NoShape,
}

/// What the loader's second, "shadow" rule does for one character.
#[derive(Clone, Copy, PartialEq, Eq, Structural, Debug)]
pub enum ShadowClass {
    /// `#`: spawn a wall.
    Wall,
    /// `.`: explicitly empty, spawn nothing.
    Empty,
    /// Anything else, recognized or not, falls back to a ground tile.
    Ground,
}

/// The shape rule's judgement of one cell character.
pub open spec fn shape_class(ch: char) -> ShapeClass {
    if ch == 'O' {
        ShapeClass::PushBlock
    } else if ch == 'X' {
        ShapeClass::SpawnMarker
    } else {
        ShapeClass::NoShape
    }
}

/// The shadow rule's judgement of one cell character.
pub open spec fn shadow_class(ch: char) -> ShadowClass {
    if ch == '#' {
        ShadowClass::Wall
    } else if ch == '.' {
        ShadowClass::Empty
    } else {
        ShadowClass::Ground
    }
}

/// The loader's character table as a lookup: both rules' judgement of one
/// character.
pub fn classify_char(ch: char) -> (r: (ShapeClass, ShadowClass))
    ensures
        r.0 == shape_class(ch),
        r.1 == shadow_class(ch),
{
    let shape = if ch == 'O' {
        ShapeClass::PushBlock
    } else if ch == 'X' {
        ShapeClass::SpawnMarker
    } else {
        ShapeClass::NoShape
    };
    let shadow = if ch == '#' {
        ShadowClass::Wall
    } else if ch == '.' {
        ShadowClass::Empty
    } else {
        ShadowClass::Ground
    };
    (shape, shadow)
}

/// World X of the cell in column `c`.
pub open spec fn cell_x(c: int) -> i64 {
    (CELL * c) as i64
}

/// World Y of the cell in row `r`: rows grow downward in the text, Y grows
/// upward in the world.
pub open spec fn cell_y(r: int) -> i64 {
    (-(CELL * r)) as i64
}

/// Map origin X the spawn marker in column `c` sets. The marker uses the
/// negated mapping of an ordinary tile — the asymmetry is part of the
/// loader's behavior, not a slip of this module.
pub open spec fn spawn_x(c: int) -> i64 {
    (-(CELL * c)) as i64
}

/// Map origin Y the spawn marker in row `r` sets (see `spawn_x`).
pub open spec fn spawn_y(r: int) -> i64 {
    (CELL * r) as i64
}

/// The tiles one character at world position `(x, y)` spawns: whatever the
/// shape rule gives, then whatever the shadow rule gives.
pub open spec fn char_emits(ch: char, x: i64, y: i64) -> Seq<Tile> {
    (match shape_class(ch) {
        ShapeClass::PushBlock => seq![push_block_tile(x, y)],
        _ => Seq::<Tile>::empty(),
    }) + (match shadow_class(ch) {
        ShadowClass::Wall => seq![wall_tile(x, y)],
        ShadowClass::Empty => Seq::<Tile>::empty(),
        ShadowClass::Ground => seq![ground_tile(x, y)],
    })
}

/// The tiles the cells of row `r` spawn, left to right.
pub open spec fn row_emits(r: int, line: Seq<char>) -> Seq<Tile>
    decreases line.len(),
{
    if line.len() == 0 {
        Seq::<Tile>::empty()
    } else {
        row_emits(r, line.drop_last()) + char_emits(
            line.last(),
            cell_x(line.len() - 1),
            cell_y(r),
        )
    }
}

/// The tiles a whole grid spawns, row by row from the top.
pub open spec fn level_emits(lines: Seq<Seq<char>>) -> Seq<Tile>
    decreases lines.len(),
{
    if lines.len() == 0 {
        Seq::<Tile>::empty()
    } else {
        level_emits(lines.drop_last()) + row_emits(lines.len() - 1, lines.last())
    }
}

/// The map origin after the cells of row `r` are processed, starting from
/// `prev`: each spawn marker overwrites it, so the last marker wins.
pub open spec fn row_origin(r: int, line: Seq<char>, prev: (i64, i64)) -> (i64, i64)
    decreases line.len(),
{
    if line.len() == 0 {
        prev
    } else {
        if line.last() == 'X' {
            (spawn_x(line.len() - 1), spawn_y(r))
        } else {
            row_origin(r, line.drop_last(), prev)
        }
    }
}

/// The map origin a whole grid leaves: `(0, 0)` unless a spawn marker set it.
pub open spec fn level_origin(lines: Seq<Seq<char>>) -> (i64, i64)
    decreases lines.len(),
{
    if lines.len() == 0 {
        (0, 0)
    } else {
        row_origin(lines.len() - 1, lines.last(), level_origin(lines.drop_last()))
    }
}

/// The grid a vector of line character vectors denotes.
pub open spec fn grid_view(lines: Seq<Vec<char>>) -> Seq<Seq<char>> {
    lines.map_values(|l: Vec<char>| l@)
}

/// All tiles spawned from one level load, together with the map origin the
/// spawn marker set. Destroying the map destroys all its tiles; at most one
/// map exists at a time (see `crate::world`).
pub struct TileMap {
    pub origin_x: i64,
    pub origin_y: i64,
    pub tiles: Vec<Tile>,
}

/// Build the tile map a level grid describes: every character of every line
/// is judged by the shape rule and then the shadow rule, and the spawned
/// tiles are collected in row-major order. Spawn markers move the map origin;
/// the last one wins.
pub fn load_level(lines: &Vec<Vec<char>>) -> (m: TileMap)
    requires
        lines@.len() <= MAX_GRID,
        forall|r: int| 0 <= r < lines@.len() ==> (#[trigger] lines@[r])@.len() <= MAX_GRID,
    ensures
        m.tiles@ == level_emits(grid_view(lines@)),
        m.origin_x == level_origin(grid_view(lines@)).0,
        m.origin_y == level_origin(grid_view(lines@)).1,
{
    let ghost g = grid_view(lines@);
    let mut tiles: Vec<Tile> = Vec::new();
    let mut ox: i64 = 0;
    let mut oy: i64 = 0;
    let mut r: usize = 0;
    while r < lines.len()
        invariant
            g == grid_view(lines@),
            r <= lines@.len(),
            lines@.len() <= MAX_GRID,
            forall|k: int| 0 <= k < lines@.len() ==> (#[trigger] lines@[k])@.len() <= MAX_GRID,
            tiles@ == level_emits(g.take(r as int)),
            ox == level_origin(g.take(r as int)).0,
            oy == level_origin(g.take(r as int)).1,
        decreases lines@.len() - r,
    {
        let line: &Vec<char> = &lines[r];
        let mut c: usize = 0;
        while c < line.len()
            invariant
                g == grid_view(lines@),
                r < lines@.len(),
                lines@.len() <= MAX_GRID,
                forall|k: int| 0 <= k < lines@.len() ==> (#[trigger] lines@[k])@.len()
                    <= MAX_GRID,
                line@ == g[r as int],
                c <= line@.len(),
                tiles@ == level_emits(g.take(r as int)) + row_emits(
                    r as int,
                    g[r as int].take(c as int),
                ),
                ox == row_origin(r as int, g[r as int].take(c as int), level_origin(
                    g.take(r as int),
                )).0,
                oy == row_origin(r as int, g[r as int].take(c as int), level_origin(
                    g.take(r as int),
                )).1,
            decreases line@.len() - c,
        {
            let ch = line[c];
            let x: i64 = (c as i64) * CELL;
            let y: i64 = -((r as i64) * CELL);
            // The shape rule.
            if ch == 'O' {
                tiles.push(make_push_block_tile(x, y));
            } else if ch == 'X' {
                ox = -((c as i64) * CELL);
                oy = (r as i64) * CELL;
            }
            // The shadow rule.
            if ch == '#' {
                tiles.push(make_wall_tile(x, y));
            } else if ch != '.' {
                tiles.push(make_ground_tile(x, y));
            }
            proof {
                let gr = g[r as int];
                assert(gr.take(c as int + 1).drop_last() =~= gr.take(c as int));
                assert(gr.take(c as int + 1).last() == gr[c as int]);
                assert(x == cell_x(c as int));
                assert(y == cell_y(r as int));
                assert(tiles@ =~= level_emits(g.take(r as int)) + row_emits(
                    r as int,
                    gr.take(c as int + 1),
                ));
            }
            c = c + 1;
        }
        proof {
            assert(g[r as int].take(line@.len() as int) =~= g[r as int]);
            assert(g.take(r as int + 1).drop_last() =~= g.take(r as int));
            assert(g.take(r as int + 1).last() == g[r as int]);
        }
        r = r + 1;
    }
    proof {
        assert(g.take(lines@.len() as int) =~= g);
    }
    TileMap { origin_x: ox, origin_y: oy, tiles }
}

/// The loader's character table, spelled out: what each character spawns at
/// its cell's world position. `O` spawns a pushable block and, through the
/// shadow rule's fallback, a ground tile under it; `X` spawns a ground tile
/// the same way while the marker itself only moves the map origin; `#` spawns
/// a wall; `.` spawns nothing; every other character spawns a ground tile.
pub proof fn lemma_char_emits_table(ch: char, x: i64, y: i64)
    ensures
        ch == 'O' ==> char_emits(ch, x, y) == seq![push_block_tile(x, y), ground_tile(x, y)],
        ch == 'X' ==> char_emits(ch, x, y) == seq![ground_tile(x, y)],
        ch == '#' ==> char_emits(ch, x, y) == seq![wall_tile(x, y)],
        ch == '.' ==> char_emits(ch, x, y) == Seq::<Tile>::empty(),
        ch != 'O' && ch != 'X' && ch != '#' && ch != '.' ==> char_emits(ch, x, y) == seq![
            ground_tile(x, y),
        ],
{
    if ch == 'O' {
        assert(char_emits(ch, x, y) =~= seq![push_block_tile(x, y), ground_tile(x, y)]);
    } else if ch == 'X' {
        assert(char_emits(ch, x, y) =~= seq![ground_tile(x, y)]);
    } else if ch == '#' {
        assert(char_emits(ch, x, y) =~= seq![wall_tile(x, y)]);
    } else if ch == '.' {
        assert(char_emits(ch, x, y) =~= Seq::<Tile>::empty());
    } else {
        assert(char_emits(ch, x, y) =~= seq![ground_tile(x, y)]);
    }
}

/// Every tile the table gives for one cell of a row is among the row's
/// spawned tiles.
pub proof fn lemma_row_emits_cell(r: int, line: Seq<char>, c: int)
    requires
        0 <= c < line.len(),
    ensures
        forall|i: int|
            0 <= i < char_emits(line[c], cell_x(c), cell_y(r)).len() ==> row_emits(
                r,
                line,
            ).contains(#[trigger] char_emits(line[c], cell_x(c), cell_y(r))[i]),
    decreases line.len(),
{
    let emitted = char_emits(line[c], cell_x(c), cell_y(r));
    let prefix = row_emits(r, line.drop_last());
    if c == line.len() - 1 {
        assert forall|i: int| 0 <= i < emitted.len() implies row_emits(r, line).contains(
            #[trigger] emitted[i],
        ) by {
            assert(row_emits(r, line)[prefix.len() + i] == emitted[i]);
        }
    } else {
        lemma_row_emits_cell(r, line.drop_last(), c);
        assert(line.drop_last()[c] == line[c]);
        assert forall|i: int| 0 <= i < emitted.len() implies row_emits(r, line).contains(
            #[trigger] emitted[i],
        ) by {
            let j = choose|j: int| 0 <= j < prefix.len() && prefix[j] == emitted[i];
            assert(row_emits(r, line)[j] == emitted[i]);
        }
    }
}

/// The law of the loader's table over a whole grid: for every cell of the
/// grid, every tile the table gives for that cell's character — with the
/// documented archetype, collision, sprites and coordinate mapping — is among
/// the tiles the grid spawns.
pub proof fn lemma_level_emits_cell(lines: Seq<Seq<char>>, r: int, c: int)
    requires
        0 <= r < lines.len(),
        0 <= c < lines[r].len(),
    ensures
        forall|i: int|
            0 <= i < char_emits(lines[r][c], cell_x(c), cell_y(r)).len() ==> level_emits(
                lines,
            ).contains(#[trigger] char_emits(lines[r][c], cell_x(c), cell_y(r))[i]),
    decreases lines.len(),
{
    let emitted = char_emits(lines[r][c], cell_x(c), cell_y(r));
    let prefix = level_emits(lines.drop_last());
    let last_row = row_emits(lines.len() - 1, lines.last());
    if r == lines.len() - 1 {
        lemma_row_emits_cell(r, lines[r], c);
        assert forall|i: int| 0 <= i < emitted.len() implies level_emits(lines).contains(
            #[trigger] emitted[i],
        ) by {
            let j = choose|j: int| 0 <= j < last_row.len() && last_row[j] == emitted[i];
            assert(level_emits(lines)[prefix.len() + j] == emitted[i]);
        }
    } else {
        lemma_level_emits_cell(lines.drop_last(), r, c);
        assert(lines.drop_last()[r] == lines[r]);
        assert forall|i: int| 0 <= i < emitted.len() implies level_emits(lines).contains(
            #[trigger] emitted[i],
        ) by {
            let j = choose|j: int| 0 <= j < prefix.len() && prefix[j] == emitted[i];
            assert(level_emits(lines)[j] == emitted[i]);
        }
    }
}

/// Every tile one character spawns is well formed once its cell coordinates
/// are in range.
pub proof fn lemma_char_emits_wf(ch: char, x: i64, y: i64)
    requires
        -COORD_LIMIT <= x <= COORD_LIMIT,
        -COORD_LIMIT <= y <= COORD_LIMIT,
    ensures
        forall|i: int|
            0 <= i < char_emits(ch, x, y).len() ==> (#[trigger] char_emits(ch, x, y)[i]).wf(),
{
    crate::tiles::lemma_archetypes_wf(x, y);
}

/// Every tile a row spawns is well formed.
pub proof fn lemma_row_emits_wf(r: int, line: Seq<char>)
    requires
        0 <= r <= MAX_GRID,
        line.len() <= MAX_GRID,
    ensures
        forall|i: int|
            0 <= i < row_emits(r, line).len() ==> (#[trigger] row_emits(r, line)[i]).wf(),
    decreases line.len(),
{
    if line.len() > 0 {
        lemma_row_emits_wf(r, line.drop_last());
        lemma_char_emits_wf(line.last(), cell_x(line.len() - 1), cell_y(r));
        let prefix = row_emits(r, line.drop_last());
        let emitted = char_emits(line.last(), cell_x(line.len() - 1), cell_y(r));
        assert forall|i: int| 0 <= i < row_emits(r, line).len() implies (#[trigger] row_emits(
            r,
            line,
        )[i]).wf() by {
            if i < prefix.len() {
                assert(row_emits(r, line)[i] == prefix[i]);
            } else {
                assert(row_emits(r, line)[i] == emitted[i - prefix.len()]);
            }
        }
    }
}

/// Every tile a grid spawns is well formed: collision and sprite facets match
/// the tile's kind, and its coordinates are in the classifier's range.
pub proof fn lemma_level_emits_wf(lines: Seq<Seq<char>>)
    requires
        lines.len() <= MAX_GRID,
        forall|r: int| 0 <= r < lines.len() ==> (#[trigger] lines[r]).len() <= MAX_GRID,
    ensures
        forall|i: int|
            0 <= i < level_emits(lines).len() ==> (#[trigger] level_emits(lines)[i]).wf(),
    decreases lines.len(),
{
    if lines.len() > 0 {
        lemma_level_emits_wf(lines.drop_last());
        lemma_row_emits_wf(lines.len() - 1, lines.last());
        let prefix = level_emits(lines.drop_last());
        let last_row = row_emits(lines.len() - 1, lines.last());
        assert forall|i: int| 0 <= i < level_emits(lines).len() implies (#[trigger] level_emits(
            lines,
        )[i]).wf() by {
            if i < prefix.len() {
                assert(level_emits(lines)[i] == prefix[i]);
            } else {
                assert(level_emits(lines)[i] == last_row[i - prefix.len()]);
            }
        }
    }
}

} // verus!
