//! The tiles that show a platform.

use vstd::prelude::*;
use crate::game::platforms::{platform_tile_size, platform_world_size, Platform};
use crate::game::sprite_scaler::ScaleFactor;
use crate::generic::{Direction, ScreenInformation};

verus! {

/// One tile of a platform's outline, ready to be drawn.
#[derive(Debug, Copy, Clone, PartialEq, Eq)]
pub struct PlatformTile {
    /// Column of the tile, counted from the platform's wall.
    pub column: i32,
    /// Row of the tile, counted from the platform's top edge.
    pub row: i32,
    /// Centre of the tile in the world.
    pub x: i64,
    pub y: i64,
    /// Whether the tile shows a corner piece rather than a straight one.
    pub corner: bool,
    /// How far the piece is turned, in quarter turns counter-clockwise.
    pub quarter_turns: u8,
}

/// Whether the cell in the given column and row of a platform of the given size gets a
/// tile. Only the outline does: the top row, the bottom row and the innermost column.
pub open spec fn tile_drawn(column: int, row: int, width: int, height: int) -> bool {
    !(column < width - 1 && 0 < row < height - 1)
}

/// Whether a cell is one of the two corners at the platform's inner end.
pub open spec fn tile_is_corner(column: int, row: int, width: int, height: int) -> bool {
    column == width - 1 && (row == 0 || row == height - 1)
}

/// Which of a piece's three rotations a cell takes.
pub open spec fn tile_rotation_index(column: int, row: int, width: int, height: int) -> int {
    if column < width - 1 {
        if row == height - 1 {
            2
        } else {
            0
        }
    } else if 0 < row < height - 1 {
        1
    } else if row == 0 {
        0
    } else {
        1
    }
}

/// The rotation of a piece, in quarter turns, by side, kind and rotation index.
pub open spec fn tile_quarter_turns(side: Direction, corner: bool, rotation_index: int) -> int {
    match side {
        Direction::Left => if corner {
            if rotation_index == 0 {
                3
            } else if rotation_index == 1 {
                2
            } else {
                0
            }
        } else {
            if rotation_index == 0 {
                0
            } else if rotation_index == 1 {
                3
            } else {
                2
            }
        },
        Direction::Right => if corner {
            if rotation_index == 1 {
                1
            } else {
                0
            }
        } else {
            rotation_index
        },
    }
}

/// The tile in the given column and row of a placed platform. Tiles are laid side by
/// side from the platform's wall inward and from its top edge down.
pub open spec fn tile_at(
    platform: Platform,
    screen: ScreenInformation,
    scale_factor: ScaleFactor,
    column: int,
    row: int,
) -> PlatformTile {
    let tile_size = platform_world_size(scale_factor);
    let width = platform.dimensions[0] as int;
    let height = platform.dimensions[1] as int;
    let corner = tile_is_corner(column, row, width, height);
    PlatformTile {
        column: column as i32,
        row: row as i32,
        x: (match platform.side {
            Direction::Left => screen.wall_x(platform.side) + tile_size / 2 + tile_size * column,
            Direction::Right => screen.wall_x(platform.side) - tile_size / 2 - tile_size
                * column,
        }) as i64,
        y: (platform.hitbox[1].max - tile_size / 2 - tile_size * row) as i64,
        corner,
        quarter_turns: tile_quarter_turns(
            platform.side,
            corner,
            tile_rotation_index(column, row, width, height),
        ) as u8,
    }
}

/// Whether `tiles` holds a tile for the given column and row.
pub open spec fn has_tile(tiles: Seq<PlatformTile>, column: int, row: int) -> bool {
    exists|i: int|
        0 <= i < tiles.len() && (#[trigger] tiles[i]).column == column && tiles[i].row == row
}

/// Whether the cell `(column, row)` comes before `(other_column, other_row)` when a
/// platform is walked column by column from its wall, each column from the top.
pub open spec fn cell_before(column: int, row: int, other_column: int, other_row: int) -> bool {
    column < other_column || (column == other_column && row < other_row)
}

/// Whether `tiles` is the outline of `platform`: every tile is the one that belongs in
/// its cell, every cell of the outline has its tile, and the tiles come column by
/// column from the wall, each column from the top, so that no cell has two.
pub open spec fn is_outline(
    tiles: Seq<PlatformTile>,
    platform: Platform,
    screen: ScreenInformation,
    scale_factor: ScaleFactor,
) -> bool {
    let width = platform.dimensions[0] as int;
    let height = platform.dimensions[1] as int;
    &&& forall|i: int|
        0 <= i < tiles.len() ==> {
            let tile = #[trigger] tiles[i];
            &&& 0 <= tile.column < width
            &&& 0 <= tile.row < height
            &&& tile_drawn(tile.column as int, tile.row as int, width, height)
            &&& tile == tile_at(platform, screen, scale_factor, tile.column as int, tile.row as int)
        }
    &&& forall|column: int, row: int|
        0 <= column < width && 0 <= row < height && tile_drawn(column, row, width, height)
            ==> #[trigger] has_tile(tiles, column, row)
    &&& forall|i: int, j: int|
        0 <= i < j < tiles.len() ==> cell_before(
            (#[trigger] tiles[i]).column as int,
            tiles[i].row as int,
            (#[trigger] tiles[j]).column as int,
            tiles[j].row as int,
        )
}

/// Lists the tiles that show a placed platform.
///
/// Only the outline is drawn; cells inside it get no tile. The hitbox is the full
/// rectangle all the same.
pub fn platform_tiles(
    platform: &Platform,
    screen_information: &ScreenInformation,
    scale_factor: &ScaleFactor,
) -> (tiles: Vec<PlatformTile>)
    requires
        platform.wf(),
        screen_information.wf(),
        scale_factor.wf(),
    ensures
        is_outline(tiles@, *platform, *screen_information, *scale_factor),
{
    let tile_size: i64 = platform_tile_size(scale_factor);
    let width: i32 = platform.dimensions[0];
    let height: i32 = platform.dimensions[1];
    let wall_x: i64 = match platform.side {
        Direction::Left => screen_information.x_deadspace,
        Direction::Right => screen_information.window_width - screen_information.x_deadspace,
    };

    let mut tiles: Vec<PlatformTile> = Vec::new();
    let mut x: i32 = 0;
    while x < width
        invariant
            0 <= x,
            x <= width || x == 0,
            width == platform.dimensions[0],
            height == platform.dimensions[1],
            tile_size == platform_world_size(*scale_factor),
            0 <= tile_size <= 80_000_000,
            wall_x == screen_information.wall_x(platform.side),
            platform.wf(),
            screen_information.wf(),
            forall|i: int|
                0 <= i < tiles.len() ==> {
                    let tile = #[trigger] tiles@[i];
                    &&& 0 <= tile.column < x
                    &&& 0 <= tile.row < height
                    &&& tile_drawn(tile.column as int, tile.row as int, width as int, height as int)
                    &&& tile == tile_at(
                        *platform,
                        *screen_information,
                        *scale_factor,
                        tile.column as int,
                        tile.row as int,
                    )
                },
            forall|column: int, row: int|
                0 <= column < x && 0 <= row < height && tile_drawn(
                    column,
                    row,
                    width as int,
                    height as int,
                ) ==> #[trigger] has_tile(tiles@, column, row),
            forall|i: int, j: int|
                0 <= i < j < tiles.len() ==> cell_before(
                    (#[trigger] tiles@[i]).column as int,
                    tiles@[i].row as int,
                    (#[trigger] tiles@[j]).column as int,
                    tiles@[j].row as int,
                ),
        decreases width - x,
    {
        let mut y: i32 = 0;
        while y < height
            invariant
                0 <= x < width,
                0 <= y,
                y <= height || y == 0,
                width == platform.dimensions[0],
                height == platform.dimensions[1],
                tile_size == platform_world_size(*scale_factor),
                0 <= tile_size <= 80_000_000,
                wall_x == screen_information.wall_x(platform.side),
                platform.wf(),
                screen_information.wf(),
                forall|i: int|
                    0 <= i < tiles.len() ==> {
                        let tile = #[trigger] tiles@[i];
                        &&& 0 <= tile.column <= x
                        &&& 0 <= tile.row < height
                        &&& cell_before(tile.column as int, tile.row as int, x as int, y as int)
                        &&& tile_drawn(
                            tile.column as int,
                            tile.row as int,
                            width as int,
                            height as int,
                        )
                        &&& tile == tile_at(
                            *platform,
                            *screen_information,
                            *scale_factor,
                            tile.column as int,
                            tile.row as int,
                        )
                    },
                forall|column: int, row: int|
                    0 <= column && 0 <= row < height && cell_before(column, row, x as int, y as int)
                        && tile_drawn(column, row, width as int, height as int)
                        ==> #[trigger] has_tile(tiles@, column, row),
                forall|i: int, j: int|
                    0 <= i < j < tiles.len() ==> cell_before(
                        (#[trigger] tiles@[i]).column as int,
                        tiles@[i].row as int,
                        (#[trigger] tiles@[j]).column as int,
                        tiles@[j].row as int,
                    ),
            decreases height - y,
        {
            // Cells in the middle of the platform get no tile.
            let y_middle = y > 0 && y < height - 1;
            if !(x < width - 1 && y_middle) {
                assert(0 <= tile_size * x <= 80_000_000 * 2_147_483_647) by (nonlinear_arith)
                    requires
                        0 <= tile_size <= 80_000_000,
                        0 <= x <= 2_147_483_647,
                ;
                assert(0 <= tile_size * y <= 80_000_000 * 2_147_483_647) by (nonlinear_arith)
                    requires
                        0 <= tile_size <= 80_000_000,
                        0 <= y <= 2_147_483_647,
                ;
                let tile_x: i64 = match platform.side {
                    Direction::Left => wall_x + tile_size / 2 + tile_size * (x as i64),
                    Direction::Right => wall_x - tile_size / 2 - tile_size * (x as i64),
                };
                let tile_y: i64 = platform.hitbox[1].max - tile_size / 2 - tile_size * (y as i64);

                let corner = x == width - 1 && (y == 0 || y == height - 1);
                let rotation_index: usize = if x < width - 1 {
                    if y == height - 1 {
                        2
                    } else {
                        0
                    }
                } else if y_middle {
                    1
                } else if y == 0 {
                    0
                } else {
                    1
                };
                let quarter_turns: u8 = tile_rotation(platform.side, corner, rotation_index);

                let ghost tiles_before = tiles@;
                let tile = PlatformTile { column: x, row: y, x: tile_x, y: tile_y, corner, quarter_turns };
                tiles.push(tile);
                proof {
                    assert forall|column: int, row: int|
                        has_tile(tiles_before, column, row) implies #[trigger] has_tile(
                        tiles@,
                        column,
                        row,
                    ) by {
                        let i = choose|i: int|
                            0 <= i < tiles_before.len() && (#[trigger] tiles_before[i]).column
                                == column && tiles_before[i].row == row;
                        assert(tiles@[i] == tiles_before[i]);
                    }
                    assert(tiles@[tiles_before.len() as int] == tile);
                    assert(has_tile(tiles@, x as int, y as int));
                }
            }
            y += 1;
        }
        x += 1;
    }
    tiles
}

/// The rotation of a piece, in quarter turns, by side, kind and rotation index.
pub fn tile_rotation(side: Direction, corner: bool, rotation_index: usize) -> (quarter_turns: u8)
    requires
        rotation_index < 3,
    ensures
        quarter_turns == tile_quarter_turns(side, corner, rotation_index as int),
        quarter_turns < 4,
{
    // Straight pieces first, then corner pieces; one entry per rotation index.
    let tile_rotations: [[u8; 3]; 2] = match side {
        Direction::Left => [[0, 3, 2], [3, 2, 0]],
        Direction::Right => [[0, 1, 2], [0, 1, 0]],
    };
    let tile_index: usize = if corner {
        1
    } else {
        0
    };
    tile_rotations[tile_index][rotation_index]
}

} // verus!
