//! The map: a rectangle of tiles with a blocking border, and movement on it.

use vstd::prelude::*;
use crate::types::{Pos, Tile, Tint, FLOOR_GLYPH, WALL_GLYPH};

verus! {

/// The tiles of a map, column by column.
pub type TileMap = Vec<Tile>;

/// Number of columns of a map of the given size (a negative size counts as 0).
pub open spec fn grid_width(size: Pos) -> int {
    if size.x < 0 { 0 } else { size.x as int }
}

/// Number of rows of a map of the given size (a negative size counts as 0).
pub open spec fn grid_height(size: Pos) -> int {
    if size.y < 0 { 0 } else { size.y as int }
}

/// Where the tile of cell `(x, y)` stands in a map with `h` rows.
pub open spec fn cell_index(x: int, y: int, h: int) -> int {
    x * h + y
}

/// Whether cell `(x, y)` lies on the outer ring of a `w` by `h` grid.
pub open spec fn on_border(x: int, y: int, w: int, h: int) -> bool {
    x == 0 || x == w - 1 || y == 0 || y == h - 1
}

/// The tile that a generated map holds for cell `(x, y)`: a wall on the
/// outer ring, open floor inside.
pub open spec fn grid_tile(x: int, y: int, w: int, h: int) -> Tile {
    Tile {
        pos: Pos { x: x as i32, y: y as i32 },
        glyph: if on_border(x, y, w, h) { WALL_GLYPH } else { FLOOR_GLYPH },
        color: Tint::White,
        blocks: on_border(x, y, w, h),
    }
}

/// A map is the generated grid of the given size: one tile per cell, each the
/// tile that `grid_tile` describes.
pub open spec fn is_grid(map: Seq<Tile>, w: int, h: int) -> bool {
    &&& map.len() == w * h
    &&& forall|x: int, y: int|
        0 <= x < w && 0 <= y < h ==> #[trigger] map[cell_index(x, y, h)] == grid_tile(x, y, w, h)
}

/// Cells are laid out without overlap: a cell of an earlier column stands
/// before every cell of a later column.
pub proof fn lemma_cell_index_order(i: int, j: int, x: int, h: int)
    requires
        0 <= i < x,
        0 <= j < h,
    ensures
        0 <= cell_index(i, j, h) < cell_index(x, 0, h),
        cell_index(x, 0, h) + h == cell_index(x + 1, 0, h),
{
    assert(0 <= i * h && i * h + h <= x * h && x * h + h == (x + 1) * h) by (nonlinear_arith)
        requires
            0 <= i < x,
            0 <= h,
    ;
}

/// Builds the map of the given size: walls on the outer ring, floor inside.
pub fn generate_map(size: Pos) -> (map: Vec<Tile>)
    ensures
        is_grid(map@, grid_width(size), grid_height(size)),
{
    let width: i32 = if size.x < 0 { 0 } else { size.x };
    let height: i32 = if size.y < 0 { 0 } else { size.y };
    let ghost w = width as int;
    let ghost h = height as int;
    let mut map: Vec<Tile> = Vec::new();
    let mut x: i32 = 0;
    while x < width
        invariant
            0 <= x <= width,
            0 <= height,
            w == width,
            h == height,
            map@.len() == cell_index(x as int, 0, h),
            forall|i: int, j: int|
                0 <= i < x && 0 <= j < h ==> #[trigger] map@[cell_index(i, j, h)] == grid_tile(
                    i,
                    j,
                    w,
                    h,
                ),
        decreases width - x,
    {
        let mut y: i32 = 0;
        while y < height
            invariant
                0 <= x < width,
                0 <= y <= height,
                w == width,
                h == height,
                map@.len() == cell_index(x as int, y as int, h),
                forall|i: int, j: int|
                    0 <= i < x && 0 <= j < h ==> #[trigger] map@[cell_index(i, j, h)]
                        == grid_tile(i, j, w, h),
                forall|j: int|
                    0 <= j < y ==> #[trigger] map@[cell_index(x as int, j, h)] == grid_tile(
                        x as int,
                        j,
                        w,
                        h,
                    ),
            decreases height - y,
        {
            let border = x == 0 || x == width - 1 || y == 0 || y == height - 1;
            let tile = Tile {
                pos: Pos { x: x, y: y },
                glyph: if border { WALL_GLYPH } else { FLOOR_GLYPH },
                color: Tint::White,
                blocks: border,
            };
            proof {
                assert forall|i: int, j: int| 0 <= i < x && 0 <= j < h implies cell_index(i, j, h)
                    < map@.len() by {
                    lemma_cell_index_order(i, j, x as int, h);
                }
            }
            map.push(tile);
            y = y + 1;
        }
        proof {
            assert(cell_index(x as int, h, h) == cell_index(x + 1, 0, h)) by (nonlinear_arith);
            assert forall|i: int, j: int| 0 <= i < x + 1 && 0 <= j < h implies #[trigger] map@[cell_index(
                i,
                j,
                h,
            )] == grid_tile(i, j, w, h) by {
                if i == x {
                } else {
                }
            }
        }
        x = x + 1;
    }
    proof {
        assert(cell_index(w, 0, h) == w * h);
    }
    map
}

/// A tile that blocks and stands at `pos`.
pub open spec fn tile_blocks_at(tile: Tile, pos: Pos) -> bool {
    tile.blocks && tile.pos == pos
}

/// A cell is blocked when some tile of the map stands there and blocks.
pub open spec fn blocked_spec(map: Seq<Tile>, pos: Pos) -> bool {
    exists|i: int| 0 <= i < map.len() && tile_blocks_at(#[trigger] map[i], pos)
}

/// On a generated map exactly the cells of the outer ring are blocked: no
/// cell inside it, and none outside the grid.
pub proof fn lemma_grid_blocked(map: Seq<Tile>, w: int, h: int, pos: Pos)
    requires
        is_grid(map, w, h),
        0 <= w <= i32::MAX,
        0 <= h <= i32::MAX,
    ensures
        blocked_spec(map, pos) == (0 <= pos.x < w && 0 <= pos.y < h && on_border(
            pos.x as int,
            pos.y as int,
            w,
            h,
        )),
{
    if 0 <= pos.x < w && 0 <= pos.y < h && on_border(pos.x as int, pos.y as int, w, h) {
        let i = cell_index(pos.x as int, pos.y as int, h);
        lemma_cell_index_order(pos.x as int, pos.y as int, pos.x + 1, h);
        assert(cell_index(pos.x + 1, 0, h) <= w * h) by (nonlinear_arith)
            requires
                pos.x + 1 <= w,
                0 <= h,
        ;
        assert(tile_blocks_at(map[i], pos));
    }
    if blocked_spec(map, pos) {
        let i = choose|i: int| 0 <= i < map.len() && tile_blocks_at(#[trigger] map[i], pos);
        assert(h > 0 && w > 0) by (nonlinear_arith)
            requires
                0 <= i < w * h,
                0 <= w,
                0 <= h,
        ;
        let x = i / h;
        let y = i % h;
        vstd::arithmetic::div_mod::lemma_fundamental_div_mod(i, h);
        vstd::arithmetic::div_mod::lemma_mod_bound(i, h);
        assert(0 <= x < w) by (nonlinear_arith)
            requires
                0 <= i < w * h,
                h > 0,
                i == h * x + y,
                0 <= y < h,
        ;
        assert(i == cell_index(x, y, h)) by (nonlinear_arith)
            requires
                i == h * x + y,
        ;
        assert(map[cell_index(x, y, h)] == grid_tile(x, y, w, h));
    }
}

/// Whether some tile at `pos` blocks.
pub fn blocked_tile(pos: Pos, map: &Vec<Tile>) -> (r: bool)
    ensures
        r == blocked_spec(map@, pos),
{
    let mut i: usize = 0;
    while i < map.len()
        invariant
            i <= map.len(),
            forall|j: int| 0 <= j < i ==> !tile_blocks_at(#[trigger] map@[j], pos),
        decreases map.len() - i,
    {
        if map[i].blocks && map[i].pos.same(&pos) {
            return true;
        }
        i = i + 1;
    }
    false
}

/// `value` held between `min` and `max`: `min` where it is below, `max` where
/// it is above.
pub open spec fn clamp_spec(min: int, max: int, value: int) -> int {
    if value < min {
        min
    } else if value > max {
        max
    } else {
        value
    }
}

pub fn clamp(min: i64, max: i64, value: i64) -> (r: i64)
    ensures
        r == clamp_spec(min as int, max as int, value as int),
{
    if value < min {
        min
    } else if value > max {
        max
    } else {
        value
    }
}

/// Whether a coordinate can be held in a position.
pub open spec fn fits(v: int) -> bool {
    i32::MIN <= v <= i32::MAX
}

/// Where a move by `offset` from `pos` ends: at the destination, or at `pos`
/// itself where the destination is blocked or cannot be represented.
pub open spec fn attempt_move_spec(pos: Pos, offset: Pos, map: Seq<Tile>) -> Pos {
    let x = pos.x + offset.x;
    let y = pos.y + offset.y;
    if fits(x) && fits(y) && !blocked_spec(map, Pos { x: x as i32, y: y as i32 }) {
        Pos { x: x as i32, y: y as i32 }
    } else {
        pos
    }
}

/// Moves by `offset` unless the destination is blocked.
pub fn attempt_move(pos: Pos, offset: Pos, map: &Vec<Tile>) -> (r: Pos)
    ensures
        r == attempt_move_spec(pos, offset, map@),
{
    let x: i64 = pos.x as i64 + offset.x as i64;
    let y: i64 = pos.y as i64 + offset.y as i64;
    if x < -2147483648 || x > 2147483647 || y < -2147483648 || y > 2147483647 {
        return pos;
    }
    let new_pos = Pos { x: x as i32, y: y as i32 };
    if blocked_tile(new_pos, map) {
        pos
    } else {
        new_pos
    }
}

} // verus!
