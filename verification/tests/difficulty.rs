use paper_plane::game;
use paper_plane::game::sprite_scaler::{calculate_sprite_scale, ScaleFactor};
use paper_plane::game::{recalculate_difficulty, Game, GameState, Vector2};
use paper_plane::generic::Range;
use paper_plane::{change_pause_state, game_cleanup_transition, AppState, GameCleanupEvent};

fn game_at(score: i32) -> Game {
    let mut game = Game::new(&ScaleFactor { current: 1 });
    game.score = score;
    recalculate_difficulty(&mut game);
    game
}

#[test]
fn new_game_starts_at_level_one_with_the_start_values() {
    let game = Game::new(&ScaleFactor { current: 2 });
    assert_eq!(game.score, 0);
    assert_eq!(game.difficulty.level, 1);
    assert_eq!(game.difficulty.platform_height, 2);
    assert_eq!(game.difficulty.platform_gap, Range { min: 140_800, max: 172_800 });
    assert_eq!(game.difficulty.start_platform_gap, Range { min: 140_800, max: 172_800 });
    assert_eq!(game.difficulty.player_max_speed, Vector2 { x: 250_000, y: 425_000 });
    assert_eq!(game.difficulty.start_player_max_speed, Vector2 { x: 250_000, y: 425_000 });
    assert!(game.is_wf());
}

#[test]
fn new_game_at_scale_zero_has_an_empty_gap() {
    let game = Game::new(&ScaleFactor { current: 0 });
    assert_eq!(game.difficulty.platform_gap, Range { min: 0, max: 0 });
    assert!(game.is_wf());
}

#[test]
fn score_zero_is_level_one() {
    let game = game_at(0);
    assert_eq!(game.difficulty.level, 1);
    assert_eq!(game.difficulty.platform_height, 2);
    // Gap multiplier 1.05 on a start gap of 70.4 to 86.4 pixels.
    assert_eq!(game.difficulty.platform_gap, Range { min: 73_920, max: 90_720 });
    // Speed multiplier 1.07.
    assert_eq!(game.difficulty.player_max_speed, Vector2 { x: 133_750, y: 227_375 });
}

#[test]
fn score_twenty_is_level_two() {
    let game = game_at(20);
    assert_eq!(game.difficulty.level, 2);
    assert_eq!(game.difficulty.platform_height, 3);
    // Gap multiplier 1.10.
    assert_eq!(game.difficulty.platform_gap, Range { min: 77_440, max: 95_040 });
    assert_eq!(game.difficulty.player_max_speed, Vector2 { x: 142_500, y: 242_250 });
}

#[test]
fn score_one_hundred_and_forty_is_level_eight() {
    let game = game_at(140);
    assert_eq!(game.difficulty.level, 8);
    assert_eq!(game.difficulty.platform_height, 8);
    // Speed multiplier 1.56.
    assert_eq!(game.difficulty.player_max_speed, Vector2 { x: 195_000, y: 331_500 });
    // Gap multiplier 1.40.
    assert_eq!(game.difficulty.platform_gap, Range { min: 98_560, max: 120_960 });
}

#[test]
fn level_is_score_over_twenty_plus_one() {
    assert_eq!(game::level(0), 1);
    assert_eq!(game::level(19), 1);
    assert_eq!(game::level(20), 2);
    assert_eq!(game::level(39), 2);
    assert_eq!(game::level(40), 3);
    assert_eq!(game::level(i32::MAX), 107_374_183);
    let mut previous: i32 = 0;
    for score in 0..500 {
        let level: i32 = game::level(score);
        assert_eq!(level, score / 20 + 1);
        assert!(level >= previous);
        previous = level;
    }
}

#[test]
fn platform_height_rises_with_the_level_up_to_eight() {
    let mut previous: i32 = 0;
    for score in 0..400 {
        let game = game_at(score);
        let height: i32 = game.difficulty.platform_height;
        assert!(height >= previous);
        assert!(height <= 8);
        assert_eq!(height, (1 + game.difficulty.level).min(8));
        previous = height;
    }
    assert_eq!(game_at(119).difficulty.platform_height, 7);
    assert_eq!(game_at(120).difficulty.platform_height, 8);
    assert_eq!(game_at(100_000).difficulty.platform_height, 8);
}

#[test]
fn gap_grows_in_proportion_to_the_level_and_stays_ordered() {
    for score in 0..400 {
        let game = game_at(score);
        let level: i64 = game.difficulty.level as i64;
        assert_eq!(game.difficulty.platform_gap.min, 70_400 + level * 3_520);
        assert_eq!(game.difficulty.platform_gap.max, 86_400 + level * 4_320);
        assert!(game.difficulty.platform_gap.min < game.difficulty.platform_gap.max);
    }
}

#[test]
fn gap_of_neighbouring_start_values_stays_ordered() {
    let mut game = Game::new(&ScaleFactor { current: 1 });
    game.difficulty.start_platform_gap = Range { min: 1, max: 2 };
    game.score = 0;
    recalculate_difficulty(&mut game);
    // 1.05 and 2.10, each rounded down.
    assert_eq!(game.difficulty.platform_gap, Range { min: 1, max: 2 });
    game.score = 400;
    recalculate_difficulty(&mut game);
    // Level 21: 2.05 and 4.10, each rounded down.
    assert_eq!(game.difficulty.platform_gap, Range { min: 2, max: 4 });
}

#[test]
fn recalculation_starts_from_the_start_values_every_time() {
    let mut game = Game::new(&ScaleFactor { current: 3 });
    game.score = 60;
    recalculate_difficulty(&mut game);
    let once = game;
    recalculate_difficulty(&mut game);
    assert_eq!(game, once);
    assert_eq!(game.score, 60);
    assert_eq!(game.difficulty.start_platform_gap, Range { min: 211_200, max: 259_200 });
    game.score = 0;
    recalculate_difficulty(&mut game);
    assert_eq!(game.difficulty.level, 1);
    assert_eq!(game.difficulty.platform_gap, Range { min: 221_760, max: 272_160 });
}

#[test]
fn recalculation_at_the_highest_score_stays_well_formed() {
    let mut game = Game::new(&ScaleFactor { current: 10_000 });
    game.score = i32::MAX;
    recalculate_difficulty(&mut game);
    assert_eq!(game.difficulty.level, 107_374_183);
    assert_eq!(game.difficulty.platform_height, 8);
    assert_eq!(game.difficulty.player_max_speed.x, 1_250_000_000 / 100 * (100 + 7 * 107_374_183));
    assert!(game.is_wf());
}

#[test]
fn game_is_wf_rejects_a_negative_score() {
    let mut game = Game::new(&ScaleFactor { current: 1 });
    assert!(game.is_wf());
    game.score = -1;
    assert!(!game.is_wf());
    game.score = 0;
    game.difficulty.platform_height = 9;
    assert!(!game.is_wf());
}

#[test]
fn sprite_scale_fits_five_wall_tiles_into_the_window() {
    assert_eq!(calculate_sprite_scale(0), ScaleFactor { current: 0 });
    assert_eq!(calculate_sprite_scale(319_999), ScaleFactor { current: 0 });
    assert_eq!(calculate_sprite_scale(320_000), ScaleFactor { current: 1 });
    assert_eq!(calculate_sprite_scale(720_000), ScaleFactor { current: 2 });
    assert_eq!(calculate_sprite_scale(1_080_000), ScaleFactor { current: 3 });
    assert_eq!(calculate_sprite_scale(3_200_000_000), ScaleFactor { current: 10_000 });
    assert!(calculate_sprite_scale(3_200_000_000).is_wf());
    assert!(!ScaleFactor { current: 10_001 }.is_wf());
    assert!(!ScaleFactor { current: -1 }.is_wf());
}

#[test]
fn default_states() {
    assert_eq!(GameState::default(), GameState::Running);
    assert_eq!(AppState::default(), AppState::MainMenu);
}

#[test]
fn cleanup_moves_on_to_the_last_requested_stage() {
    assert_eq!(game_cleanup_transition(&vec![]), (GameState::Running, None));
    assert_eq!(
        game_cleanup_transition(&vec![GameCleanupEvent { next_state: AppState::GameSetup }]),
        (GameState::Running, Some(AppState::GameSetup))
    );
    assert_eq!(
        game_cleanup_transition(&vec![
            GameCleanupEvent { next_state: AppState::GameSetup },
            GameCleanupEvent { next_state: AppState::MainMenu },
        ]),
        (GameState::Running, Some(AppState::MainMenu))
    );
}

#[test]
fn pause_key_halts_and_resumes_the_game() {
    assert_eq!(
        change_pause_state(true, GameState::Running, AppState::Game),
        Some(GameState::Paused)
    );
    assert_eq!(
        change_pause_state(true, GameState::Paused, AppState::Game),
        Some(GameState::Running)
    );
    assert_eq!(change_pause_state(true, GameState::GameOver, AppState::Game), None);
    assert_eq!(change_pause_state(false, GameState::Running, AppState::Game), None);
    assert_eq!(change_pause_state(false, GameState::Paused, AppState::Game), None);
}

#[test]
fn game_is_set_running_outside_the_game_stage() {
    for app_state in [AppState::MainMenu, AppState::GameSetup, AppState::GameCleanup] {
        for game_state in [GameState::Running, GameState::Paused, GameState::GameOver] {
            assert_eq!(change_pause_state(true, game_state, app_state), Some(GameState::Running));
            assert_eq!(change_pause_state(false, game_state, app_state), Some(GameState::Running));
        }
    }
}
