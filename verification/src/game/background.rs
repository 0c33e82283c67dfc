//! The rows of wall tiles behind the level.

use vstd::prelude::*;
use crate::art;
use crate::game::sprite_scaler::ScaleFactor;
use crate::generic::ScreenInformation;
use crate::units::WORLD_LIMIT;

verus! {

/// How many wall tiles wide the level is.
pub const LEVEL_TILE_WIDTH: usize = 4;

/// How many rows are added beyond those that fill the window when the first rows are
/// laid.
pub const SPARE_WALL_ROWS: i64 = 5;

/// Largest magnitude of the height of a wall tile that is on screen.
pub const WALL_LIMIT: i64 = 1_000_000_000_000_000_000;

/// How many rows of background walls were laid so far.
#[derive(Debug, Clone, Copy, PartialEq, Eq, Structural)]
pub struct BackgroundWallRows {
    pub rows: u32,
}

/// One wall tile: the row it belongs to and the world height of its centre.
#[derive(Debug, Clone, Copy, PartialEq, Eq, Structural)]
pub struct BackgroundWall {
    pub row: u32,
    pub y_coordinate: i64,
}

/// A wall tile that is to be put on screen, with the x coordinate of its centre.
#[derive(Debug, Clone, Copy, PartialEq, Eq, Structural)]
pub struct WallSpawn {
    pub wall: BackgroundWall,
    pub x: i64,
}

impl BackgroundWallRows {
    /// No rows yet.
    pub fn new() -> (rows: BackgroundWallRows)
        ensures
            rows.rows == 0,
    {
        BackgroundWallRows { rows: 0 }
    }
}

/// The side length of one wall tile in the world.
pub open spec fn wall_world_size(scale_factor: ScaleFactor) -> int {
    art::WALL_SPRITE_SIZE * scale_factor.current
}

/// The height of the row laid last: that of the last tile in `walls` whose row is the
/// newest of `rows` rows, or nothing if no tile of that row is on screen.
pub open spec fn last_row_y(walls: Seq<BackgroundWall>, rows: int) -> Option<i64>
    decreases walls.len(),
{
    if walls.len() == 0 {
        None
    } else if walls.last().row == rows - 1 {
        Some(walls.last().y_coordinate)
    } else {
        last_row_y(walls.drop_last(), rows)
    }
}

/// How many rows are due. With a newest row on screen, one more once that row is
/// within two tile heights of the lower end of the visible area, else none. With none
/// on screen, as many as fit the window's height and `SPARE_WALL_ROWS` more.
pub open spec fn rows_due(
    last_y: Option<i64>,
    screen: ScreenInformation,
    scale_factor: ScaleFactor,
) -> int {
    match last_y {
        Some(y) => if y > screen.y_visible_area.min - wall_world_size(scale_factor) * 2 {
            1
        } else {
            0
        },
        None => (screen.window_height as int) / wall_world_size(scale_factor) + SPARE_WALL_ROWS,
    }
}

/// The height of the first row that is due: one tile below the newest row, or, with no
/// row on screen, half a tile below the window's upper edge.
pub open spec fn first_row_y(
    last_y: Option<i64>,
    screen: ScreenInformation,
    scale_factor: ScaleFactor,
) -> int {
    match last_y {
        Some(y) => if y > screen.y_visible_area.min - wall_world_size(scale_factor) * 2 {
            y - wall_world_size(scale_factor)
        } else {
            0
        },
        None => screen.window_height - wall_world_size(scale_factor) / 2,
    }
}

/// The `n`-th of the tiles that a spawn lays: rows from the first due row downward,
/// each row `LEVEL_TILE_WIDTH` tiles side by side from the left wall.
pub open spec fn wall_spawn_at(
    n: int,
    rows_before: int,
    last_y: Option<i64>,
    screen: ScreenInformation,
    scale_factor: ScaleFactor,
) -> WallSpawn {
    let size = wall_world_size(scale_factor);
    let row = n / (LEVEL_TILE_WIDTH as int);
    let column = n % (LEVEL_TILE_WIDTH as int) + 1;
    WallSpawn {
        wall: BackgroundWall {
            row: (rows_before + row) as u32,
            y_coordinate: (first_row_y(last_y, screen, scale_factor) - size * row) as i64,
        },
        x: (column * size - size / 2 + screen.x_deadspace) as i64,
    }
}

/// Finds the height of the row laid last among the tiles on screen.
pub fn find_last_row(walls: &Vec<BackgroundWall>, rows: &BackgroundWallRows) -> (last_y: Option<
    i64,
>)
    ensures
        last_y == last_row_y(walls@, rows.rows as int),
{
    let mut last_y_coordinate: Option<i64> = None;
    let mut i: usize = 0;
    while i < walls.len()
        invariant
            i <= walls.len(),
            last_y_coordinate == last_row_y(walls@.take(i as int), rows.rows as int),
        decreases walls.len() - i,
    {
        proof {
            assert(walls@.take(i + 1).drop_last() =~= walls@.take(i as int));
        }
        if walls[i].row as u64 + 1 == rows.rows as u64 {
            last_y_coordinate = Some(walls[i].y_coordinate);
        }
        i += 1;
    }
    proof {
        assert(walls@.take(walls.len() as int) =~= walls@);
    }
    last_y_coordinate
}

/// Lays the rows of background wall that are due and counts them.
///
/// `walls` are the wall tiles on screen. Returns the tiles to put on screen, row by
/// row; `wall_spawn_at` says which tile stands where.
pub fn spawn_background_walls(
    walls: &Vec<BackgroundWall>,
    bg_walls_rows: &mut BackgroundWallRows,
    screen_information: &ScreenInformation,
    scale_factor: &ScaleFactor,
) -> (spawned: Vec<WallSpawn>)
    requires
        screen_information.wf(),
        scale_factor.wf(),
        forall|i: int|
            0 <= i < walls.len() ==> -WALL_LIMIT <= (#[trigger] walls@[i]).y_coordinate
                <= WALL_LIMIT,
        last_row_y(walls@, old(bg_walls_rows).rows as int).is_none() ==> scale_factor.current
            >= 1,
        old(bg_walls_rows).rows + rows_due(
            last_row_y(walls@, old(bg_walls_rows).rows as int),
            *screen_information,
            *scale_factor,
        ) <= u32::MAX,
    ensures
        ({
            let last_y = last_row_y(walls@, old(bg_walls_rows).rows as int);
            let due = rows_due(last_y, *screen_information, *scale_factor);
            &&& final(bg_walls_rows).rows == old(bg_walls_rows).rows + due
            &&& spawned.len() == due * LEVEL_TILE_WIDTH
            &&& forall|n: int|
                0 <= n < spawned.len() ==> #[trigger] spawned@[n] == wall_spawn_at(
                    n,
                    old(bg_walls_rows).rows as int,
                    last_y,
                    *screen_information,
                    *scale_factor,
                )
        }),
{
    let wall_size: i64 = art::WALL_SPRITE_SIZE * scale_factor.current;
    let last_y_coordinate = find_last_row(walls, bg_walls_rows);
    proof {
        lemma_last_row_is_a_wall(walls@, bg_walls_rows.rows as int);
    }

    // How many rows to lay, and where the first of them goes.
    let spawn_rows: i64;
    let init_spawn_y_coordinate: i64;
    if let Some(last_y_coordinate) = last_y_coordinate {
        // Walls are only added when the old ones are close to the bottom of the screen.
        if last_y_coordinate > screen_information.y_visible_area.min - (wall_size * 2) {
            spawn_rows = 1;
            init_spawn_y_coordinate = last_y_coordinate - wall_size;
        } else {
            spawn_rows = 0;
            init_spawn_y_coordinate = 0;
        }
        assert(0 <= spawn_rows * wall_size <= 640_000_000) by (nonlinear_arith)
            requires
                0 <= spawn_rows <= 1,
                0 <= wall_size <= 640_000_000,
        ;
    } else {
        // With no walls on screen the whole screen is filled, from the top.
        spawn_rows = screen_information.window_height / wall_size + SPARE_WALL_ROWS;
        init_spawn_y_coordinate = screen_information.window_height - (wall_size / 2);
        assert(0 <= spawn_rows * wall_size <= screen_information.window_height + 5 * wall_size)
            by (nonlinear_arith)
            requires
                spawn_rows - 5 == screen_information.window_height / wall_size,
                wall_size > 0,
                screen_information.window_height >= 0,
        ;
    }

    let ghost rows_before = bg_walls_rows.rows as int;
    let mut spawned: Vec<WallSpawn> = Vec::new();
    let mut row: i64 = 0;
    while row < spawn_rows
        invariant
            0 <= row <= spawn_rows,
            screen_information.wf(),
            scale_factor.wf(),
            wall_size == wall_world_size(*scale_factor),
            0 <= wall_size <= 640_000_000,
            spawn_rows == rows_due(last_y_coordinate, *screen_information, *scale_factor),
            init_spawn_y_coordinate == first_row_y(
                last_y_coordinate,
                *screen_information,
                *scale_factor,
            ),
            -WALL_LIMIT - 1_000_000_000_000 <= init_spawn_y_coordinate <= WALL_LIMIT,
            0 <= spawn_rows * wall_size <= 10_000_000_000_000,
            rows_before + spawn_rows <= u32::MAX,
            bg_walls_rows.rows == rows_before + row,
            spawned.len() == row * LEVEL_TILE_WIDTH,
            forall|n: int|
                0 <= n < spawned.len() ==> #[trigger] spawned@[n] == wall_spawn_at(
                    n,
                    rows_before,
                    last_y_coordinate,
                    *screen_information,
                    *scale_factor,
                ),
        decreases spawn_rows - row,
    {
        assert(0 <= wall_size * row <= spawn_rows * wall_size) by (nonlinear_arith)
            requires
                0 <= row <= spawn_rows,
                0 <= wall_size,
        ;
        let spawn_y_coordinate: i64 = init_spawn_y_coordinate - wall_size * row;

        let mut i: i64 = 1;
        while i < LEVEL_TILE_WIDTH as i64 + 1
            invariant
                1 <= i <= LEVEL_TILE_WIDTH + 1,
                0 <= row < spawn_rows,
                0 <= wall_size <= 640_000_000,
                screen_information.wf(),
                scale_factor.wf(),
                wall_size == wall_world_size(*scale_factor),
                spawn_y_coordinate == first_row_y(
                    last_y_coordinate,
                    *screen_information,
                    *scale_factor,
                ) - wall_size * row,
                rows_before + spawn_rows <= u32::MAX,
                bg_walls_rows.rows == rows_before + row,
                spawned.len() == row * LEVEL_TILE_WIDTH + (i - 1),
                forall|n: int|
                    0 <= n < spawned.len() ==> #[trigger] spawned@[n] == wall_spawn_at(
                        n,
                        rows_before,
                        last_y_coordinate,
                        *screen_information,
                        *scale_factor,
                    ),
            decreases LEVEL_TILE_WIDTH + 1 - i,
        {
            assert(0 <= i * wall_size <= 5 * 640_000_000) by (nonlinear_arith)
                requires
                    1 <= i <= 5,
                    0 <= wall_size <= 640_000_000,
            ;
            let x_pos: i64 = (i * wall_size) - (wall_size / 2)
                + screen_information.x_deadspace;
            spawned.push(
                WallSpawn {
                    wall: BackgroundWall {
                        row: bg_walls_rows.rows,
                        y_coordinate: spawn_y_coordinate,
                    },
                    x: x_pos,
                },
            );
            i += 1;
        }

        bg_walls_rows.rows += 1;
        row += 1;
    }
    spawned
}

/// The height that `last_row_y` finds is that of one of the walls.
proof fn lemma_last_row_is_a_wall(walls: Seq<BackgroundWall>, rows: int)
    ensures
        last_row_y(walls, rows) matches Some(y) ==> exists|i: int|
            0 <= i < walls.len() && (#[trigger] walls[i]).y_coordinate == y,
    decreases walls.len(),
{
    if walls.len() > 0 && walls.last().row != rows - 1 {
        lemma_last_row_is_a_wall(walls.drop_last(), rows);
        if let Some(y) = last_row_y(walls, rows) {
            let i = choose|i: int|
                0 <= i < walls.drop_last().len() && (#[trigger] walls.drop_last()[i]).y_coordinate
                    == y;
            assert(walls[i] == walls.drop_last()[i]);
        }
    } else if walls.len() > 0 {
        assert(walls[walls.len() - 1] == walls.last());
    }
}

/// Whether a wall tile has left the screen: its centre lies more than a tile above the
/// visible area.
pub open spec fn wall_gone(
    wall: BackgroundWall,
    screen: ScreenInformation,
    scale_factor: ScaleFactor,
) -> bool {
    wall.y_coordinate > screen.y_visible_area.max + wall_world_size(scale_factor)
}

/// Decides, for each wall tile on screen, whether it is to be removed.
pub fn despawn_walls(
    walls: &Vec<BackgroundWall>,
    screen_information: &ScreenInformation,
    scale_factor: &ScaleFactor,
) -> (despawned: Vec<bool>)
    requires
        screen_information.wf(),
        scale_factor.wf(),
    ensures
        despawned.len() == walls.len(),
        forall|i: int|
            0 <= i < walls.len() ==> despawned@[i] == wall_gone(
                #[trigger] walls@[i],
                *screen_information,
                *scale_factor,
            ),
{
    let wall_max_y: i64 = screen_information.y_visible_area.max + (art::WALL_SPRITE_SIZE
        * scale_factor.current);

    let mut despawned: Vec<bool> = Vec::new();
    let mut i: usize = 0;
    while i < walls.len()
        invariant
            i <= walls.len(),
            despawned.len() == i,
            wall_max_y == screen_information.y_visible_area.max + wall_world_size(*scale_factor),
            forall|j: int|
                0 <= j < i ==> despawned@[j] == wall_gone(
                    #[trigger] walls@[j],
                    *screen_information,
                    *scale_factor,
                ),
        decreases walls.len() - i,
    {
        despawned.push(walls[i].y_coordinate > wall_max_y);
        i += 1;
    }
    despawned
}

} // verus!
