//! Static board geometry: the checkerboard of tiles the game is played on,
//! the palette toggle, and the line positions of the debug helper grid.

use vstd::prelude::*;

use crate::geometry::Vec2i;

verus! {

/// Center of the first tile (lowest row, leftmost column), in world units:
/// half the board out from the origin, pulled back in by half a tile.
pub const STARTER_X: i32 = -300;

/// Center of the first tile on the vertical axis, in world units.
pub const STARTER_Y: i32 = -300;

/// Tiles along each side of the board.
pub const BOARD_TILES: usize = 16;

/// One board tile: its center in world units and which of the two
/// checkerboard colors it currently shows.
#[derive(Clone, Copy, PartialEq, Eq, Structural, Debug)]
pub struct Tile {
    pub position: Vec2i,
    pub even: bool,
}

/// The tile in row `row` and column `col` of the fresh board: centers step
/// one tile size per row and column from the first tile's center, and the
/// two colors alternate in checkerboard fashion.
pub open spec fn tile_at(row: int, col: int) -> Tile {
    Tile {
        position: Vec2i {
            x: (STARTER_X + 40 * col) as i32,
            y: (STARTER_Y + 40 * row) as i32,
        },
        even: (row + col) % 2 == 0,
    }
}

/// Builds the full board, row by row from the bottom, each row left to
/// right, so tile `row * BOARD_TILES + col` sits in row `row`, column `col`.
pub fn board_tiles() -> (tiles: Vec<Tile>)
    ensures
        tiles@.len() == 256,
        forall|r: int, c: int|
            0 <= r < 16 && 0 <= c < 16 ==> tiles@[r * 16 + c] == tile_at(r, c),
{
    let mut tiles: Vec<Tile> = Vec::new();
    let mut row: usize = 0;
    while row < 16
        invariant
            row <= 16,
            tiles@.len() == row * 16,
            forall|r: int, c: int|
                0 <= r < row && 0 <= c < 16 ==> tiles@[r * 16 + c] == tile_at(r, c),
        decreases 16 - row,
    {
        let mut col: usize = 0;
        while col < 16
            invariant
                row < 16,
                col <= 16,
                tiles@.len() == row * 16 + col,
                forall|r: int, c: int|
                    0 <= r < row && 0 <= c < 16 ==> tiles@[r * 16 + c] == tile_at(r, c),
                forall|c: int| 0 <= c < col ==> tiles@[row * 16 + c] == tile_at(row as int, c),
            decreases 16 - col,
        {
            let x: i32 = STARTER_X + 40 * (col as i32);
            let y: i32 = STARTER_Y + 40 * (row as i32);
            let even: bool = (row + col) % 2 == 0;
            tiles.push(Tile { position: Vec2i { x, y }, even });
            col += 1;
        }
        row += 1;
    }
    tiles
}

/// The two checkerboard colors, as red, green and blue channels.
pub open spec fn tile_rgb_spec(even: bool) -> (u8, u8, u8) {
    if even {
        (48u8, 61u8, 78u8)
    } else {
        (39u8, 49u8, 63u8)
    }
}

/// Color a tile currently shows, by its parity flag.
pub fn tile_rgb(even: bool) -> (c: (u8, u8, u8))
    ensures
        c == tile_rgb_spec(even),
{
    if even {
        (48, 61, 78)
    } else {
        (39, 49, 63)
    }
}

/// Swaps the two checkerboard colors across the whole board by flipping
/// every tile's parity flag; positions stay put.
pub fn toggle_tile_colors(tiles: &mut Vec<Tile>)
    ensures
        final(tiles)@.len() == old(tiles)@.len(),
        forall|k: int|
            0 <= k < old(tiles)@.len() ==> final(tiles)@[k] == (Tile {
                position: old(tiles)@[k].position,
                even: !old(tiles)@[k].even,
            }),
{
    let len = tiles.len();
    let mut k: usize = 0;
    while k < len
        invariant
            k <= len,
            tiles@.len() == len == old(tiles)@.len(),
            forall|j: int|
                0 <= j < k ==> tiles@[j] == (Tile {
                    position: old(tiles)@[j].position,
                    even: !old(tiles)@[j].even,
                }),
            forall|j: int| k <= j < len ==> tiles@[j] == old(tiles)@[j],
        decreases len - k,
    {
        let t = tiles[k];
        tiles[k] = Tile { position: t.position, even: !t.even };
        k += 1;
    }
}

/// World coordinate of line `k` of the debug helper grid: `k` cells of
/// `SQUARE_SIZE` units up from half the 400-cell grid below the origin.
pub fn helper_grid_line_position(k: u32) -> (p: i32)
    requires
        k <= 400,
    ensures
        p == 40 * k - 8000,
{
    40 * (k as i32) - 8000
}

} // verus!
