use paper_plane::game::collisions::detect_collisions;
use paper_plane::game::platforms::{spawn_round, Platforms, SpawnDraws};
use paper_plane::game::sprite_scaler::ScaleFactor;
use paper_plane::game::{Game, GameState, Vector2};
use paper_plane::generic::{Direction, Range, ScreenInformation};

fn scale_two() -> ScaleFactor {
    ScaleFactor { current: 2 }
}

fn window() -> ScreenInformation {
    ScreenInformation {
        x_deadspace: 384_000,
        y_visible_area: Range { min: 0, max: 720_000 },
        window_width: 1_280_000,
        window_height: 720_000,
    }
}

// A platform on the left wall, x from 384000 to 624000, y from 148000 to 180000, and
// its partner on the right wall, x from 752000 to 896000.
fn pair_of_platforms() -> Platforms {
    let game = Game::new(&scale_two());
    let mut platforms = Platforms::new();
    let draws = SpawnDraws { gap: 150_000, length: -1, double_sided: 0 };
    spawn_round(&mut platforms, &window(), &game.difficulty, &scale_two(), &draws);
    assert_eq!(platforms.platforms_vec[0].hitbox[0], Range { min: 384_000, max: 624_000 });
    assert_eq!(platforms.platforms_vec[0].hitbox[1], Range { min: 148_000, max: 180_000 });
    assert_eq!(platforms.platforms_vec[1].side, Direction::Right);
    platforms
}

fn crashed(platforms: &Platforms, x: i64, y: i64) -> bool {
    detect_collisions(platforms, Some(Vector2 { x, y }), &window(), &scale_two())
        == Some(GameState::GameOver)
}

#[test]
fn plane_on_the_left_wall_does_not_crash() {
    let platforms = Platforms::new();
    // Exactly on the wall, and one pixel inside.
    assert!(!crashed(&platforms, 384_000, 360_000));
    assert!(!crashed(&platforms, 385_000, 360_000));
    // One pixel outside, and the least step outside.
    assert!(crashed(&platforms, 383_000, 360_000));
    assert!(crashed(&platforms, 383_999, 360_000));
}

#[test]
fn plane_on_the_right_wall_does_not_crash() {
    let platforms = Platforms::new();
    assert!(!crashed(&platforms, 896_000, 360_000));
    assert!(!crashed(&platforms, 895_000, 360_000));
    assert!(crashed(&platforms, 897_000, 360_000));
    assert!(crashed(&platforms, 896_001, 360_000));
}

#[test]
fn no_plane_no_crash() {
    assert_eq!(detect_collisions(&pair_of_platforms(), None, &window(), &scale_two()), None);
}

#[test]
fn result_names_the_state_to_change_to() {
    let platforms = Platforms::new();
    assert_eq!(
        detect_collisions(&platforms, Some(Vector2 { x: 0, y: 0 }), &window(), &scale_two()),
        Some(GameState::GameOver)
    );
    assert_eq!(
        detect_collisions(&platforms, Some(Vector2 { x: 640_000, y: 0 }), &window(), &scale_two()),
        None
    );
}

#[test]
fn left_platform_is_hit_up_to_the_trim_before_its_inner_end() {
    let platforms = pair_of_platforms();
    // The trim is two pixels at scale two: 4000 units before 624000.
    assert!(crashed(&platforms, 500_000, 160_000));
    assert!(crashed(&platforms, 619_999, 160_000));
    assert!(!crashed(&platforms, 620_000, 160_000));
    assert!(!crashed(&platforms, 640_000, 160_000));
}

#[test]
fn platform_is_hit_strictly_between_its_lower_and_upper_edge() {
    let platforms = pair_of_platforms();
    assert!(crashed(&platforms, 500_000, 148_001));
    assert!(crashed(&platforms, 500_000, 179_999));
    assert!(!crashed(&platforms, 500_000, 148_000));
    assert!(!crashed(&platforms, 500_000, 180_000));
    assert!(!crashed(&platforms, 500_000, 300_000));
}

#[test]
fn right_platform_is_tested_against_its_upper_x_bound() {
    let platforms = pair_of_platforms();
    // The upper bound of a platform on the right wall is the wall itself, so within
    // the walls the test never holds.
    assert!(!crashed(&platforms, 800_000, 160_000));
    assert!(!crashed(&platforms, 896_000, 160_000));
    // Beyond the wall the plane has crashed into the wall in any case.
    assert!(crashed(&platforms, 900_001, 160_000));
}

#[test]
fn any_platform_of_the_list_counts() {
    let game = Game::new(&scale_two());
    let mut platforms = Platforms::new();
    for _ in 0..3 {
        let draws = SpawnDraws { gap: 150_000, length: 0, double_sided: 99 };
        spawn_round(&mut platforms, &window(), &game.difficulty, &scale_two(), &draws);
    }
    // Left, right, left: tops at 180000, -2000 and -184000.
    let third = platforms.platforms_vec[2];
    assert_eq!(third.side, Direction::Left);
    assert_eq!(third.hitbox[1], Range { min: -216_000, max: -184_000 });
    assert!(crashed(&platforms, 400_000, -200_000));
    assert!(crashed(&platforms, 400_000, 160_000));
    assert!(!crashed(&platforms, 400_000, -20_000));
}
