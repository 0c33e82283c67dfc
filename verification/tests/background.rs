use paper_plane::game::background::{
    despawn_walls, find_last_row, spawn_background_walls, BackgroundWall, BackgroundWallRows,
    WallSpawn,
};
use paper_plane::game::sprite_scaler::ScaleFactor;
use paper_plane::generic::{Range, ScreenInformation};

fn factor() -> ScaleFactor {
    ScaleFactor { current: 2 }
}

fn view() -> ScreenInformation {
    ScreenInformation {
        x_deadspace: 384_000,
        y_visible_area: Range { min: 0, max: 720_000 },
        window_width: 1_280_000,
        window_height: 720_000,
    }
}

#[test]
fn wall_rows_start_at_zero() {
    assert_eq!(BackgroundWallRows::new(), BackgroundWallRows { rows: 0 });
}

#[test]
fn empty_screen_is_filled_from_the_top() {
    let mut rows = BackgroundWallRows::new();
    let spawned = spawn_background_walls(&vec![], &mut rows, &view(), &factor());
    // Five rows of 128000 fit into 720000, and five more are added.
    assert_eq!(rows.rows, 10);
    assert_eq!(spawned.len(), 40);
    assert_eq!(
        spawned[0],
        WallSpawn { wall: BackgroundWall { row: 0, y_coordinate: 656_000 }, x: 448_000 }
    );
    assert_eq!(
        spawned[3],
        WallSpawn { wall: BackgroundWall { row: 0, y_coordinate: 656_000 }, x: 832_000 }
    );
    assert_eq!(
        spawned[5],
        WallSpawn { wall: BackgroundWall { row: 1, y_coordinate: 528_000 }, x: 576_000 }
    );
    assert_eq!(
        spawned[39],
        WallSpawn { wall: BackgroundWall { row: 9, y_coordinate: -496_000 }, x: 832_000 }
    );
}

fn walls_on_screen() -> (Vec<BackgroundWall>, BackgroundWallRows) {
    let mut rows = BackgroundWallRows::new();
    let spawned = spawn_background_walls(&vec![], &mut rows, &view(), &factor());
    (spawned.iter().map(|spawn| spawn.wall).collect(), rows)
}

#[test]
fn last_row_is_found_among_the_walls() {
    let (walls, rows) = walls_on_screen();
    assert_eq!(find_last_row(&walls, &rows), Some(-496_000));
    assert_eq!(find_last_row(&walls, &BackgroundWallRows { rows: 3 }), Some(400_000));
    assert_eq!(find_last_row(&walls, &BackgroundWallRows { rows: 11 }), None);
    assert_eq!(find_last_row(&walls, &BackgroundWallRows { rows: 0 }), None);
    assert_eq!(find_last_row(&vec![], &rows), None);
}

#[test]
fn last_row_takes_the_last_tile_of_the_row() {
    let walls = vec![
        BackgroundWall { row: 4, y_coordinate: 10 },
        BackgroundWall { row: 3, y_coordinate: 20 },
        BackgroundWall { row: 4, y_coordinate: 30 },
        BackgroundWall { row: 2, y_coordinate: 40 },
    ];
    assert_eq!(find_last_row(&walls, &BackgroundWallRows { rows: 5 }), Some(30));
}

#[test]
fn no_row_is_added_while_the_last_one_is_far_below() {
    let (walls, mut rows) = walls_on_screen();
    let spawned = spawn_background_walls(&walls, &mut rows, &view(), &factor());
    assert!(spawned.is_empty());
    assert_eq!(rows.rows, 10);
}

#[test]
fn one_row_is_added_when_the_last_one_comes_close() {
    let (walls, mut rows) = walls_on_screen();
    let mut lower = view();
    // The last row is at -496000; a row is due once that is above the lower end of
    // the screen less two tiles.
    lower.y_visible_area = Range { min: -240_000, max: 480_000 };
    assert!(spawn_background_walls(&walls, &mut rows, &lower, &factor()).is_empty());
    lower.y_visible_area = Range { min: -240_001, max: 479_999 };
    let spawned = spawn_background_walls(&walls, &mut rows, &lower, &factor());
    assert_eq!(rows.rows, 11);
    assert_eq!(
        spawned,
        vec![
            WallSpawn { wall: BackgroundWall { row: 10, y_coordinate: -624_000 }, x: 448_000 },
            WallSpawn { wall: BackgroundWall { row: 10, y_coordinate: -624_000 }, x: 576_000 },
            WallSpawn { wall: BackgroundWall { row: 10, y_coordinate: -624_000 }, x: 704_000 },
            WallSpawn { wall: BackgroundWall { row: 10, y_coordinate: -624_000 }, x: 832_000 },
        ]
    );
}

#[test]
fn walls_leave_a_tile_above_the_screen() {
    let walls = vec![
        BackgroundWall { row: 0, y_coordinate: 848_001 },
        BackgroundWall { row: 1, y_coordinate: 848_000 },
        BackgroundWall { row: 2, y_coordinate: 0 },
    ];
    assert_eq!(despawn_walls(&walls, &view(), &factor()), vec![true, false, false]);
    assert!(despawn_walls(&vec![], &view(), &factor()).is_empty());
}
