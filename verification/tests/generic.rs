use paper_plane::game::sprite_scaler::ScaleFactor;
use paper_plane::generic;
use paper_plane::generic::{
    calculate_screen_deadspace, calculate_visible_y_area, reverse_index, update_screen_information,
    Direction, Range, ScreenInformation,
};

#[test]
fn test_map() {
    let input_range = Range { min: 200, max: 300 };

    let output_range = Range { min: -1, max: 1 };

    assert_eq!(generic::map(250, input_range, output_range), 0);
}

#[test]
fn test_reverse_index() {
    assert_eq!(reverse_index(0, 16), 15);
}

#[test]
fn test_range_zero_neg() {
    let before = Range { min: -1, max: 1 }.zero();
    let after = Range { min: 0, max: 2 };

    assert_eq!(before, after);
}

#[test]
fn test_range_zero_pos() {
    let before = Range { min: 10, max: 30 }.zero();
    let after = Range { min: 0, max: 20 };

    assert_eq!(before, after);
}

#[test]
fn range_zero_keeps_a_range_that_starts_at_zero() {
    assert_eq!(Range { min: 0, max: 7 }.zero(), Range { min: 0, max: 7 });
    assert_eq!(Range { min: 5, max: 2 }.zero(), Range { min: 0, max: -3 });
}

#[test]
fn range_new_holds_zero_alone() {
    assert_eq!(Range::<i64>::new(), Range { min: 0, max: 0 });
}

#[test]
fn range_truncate_raises_a_negative_lower_end() {
    assert_eq!(Range { min: -5, max: 9 }.truncate(), Range { min: 0, max: 9 });
    assert_eq!(Range { min: 0, max: 9 }.truncate(), Range { min: 0, max: 9 });
    assert_eq!(Range { min: 3, max: 9 }.truncate(), Range { min: 3, max: 9 });
}

#[test]
fn direction_reverse_flips_and_returns() {
    assert_eq!(Direction::Left.reverse(), Direction::Right);
    assert_eq!(Direction::Right.reverse(), Direction::Left);
    assert_eq!(Direction::Left.reverse().reverse(), Direction::Left);
}

#[test]
fn direction_to_x_is_the_sign_of_a_step() {
    assert_eq!(Direction::Left.to_x(), -1);
    assert_eq!(Direction::Right.to_x(), 1);
}

#[test]
fn direction_from_draw_reads_zero_as_left() {
    assert_eq!(Direction::from_draw(0), Direction::Left);
    assert_eq!(Direction::from_draw(1), Direction::Right);
}

#[test]
fn direction_random_gives_both_directions() {
    let mut left: u32 = 0;
    let mut right: u32 = 0;
    for _ in 0..400 {
        match Direction::random() {
            Direction::Left => left += 1,
            Direction::Right => right += 1,
        }
    }
    assert!(left > 0);
    assert!(right > 0);
    assert_eq!(left + right, 400);
}

#[test]
fn map_stretches_the_offset_and_rounds_toward_zero() {
    let unit = Range { min: 0, max: 10 };
    assert_eq!(generic::map(5, unit, Range { min: 0, max: 100 }), 50);
    assert_eq!(generic::map(3, unit, Range { min: 0, max: 5 }), 1);
    assert_eq!(generic::map(-3, unit, Range { min: 0, max: 5 }), -1);
    assert_eq!(generic::map(10, unit, Range { min: 0, max: 5 }), 5);
}

#[test]
fn map_moves_by_the_lower_output_end() {
    let input_range = Range { min: -10, max: 10 };
    // Offset 15 of 20, stretched to 40: 30; the negative lower end is added.
    assert_eq!(generic::map(5, input_range, Range { min: -20, max: 20 }), 10);
    // A positive lower end is subtracted: offset 15 of 20 stretched to 10 is 7.
    assert_eq!(generic::map(5, input_range, Range { min: 10, max: 20 }), -3);
}

#[test]
fn map_takes_the_input_length_without_sign() {
    // The input range runs backwards; its length still counts as 100.
    assert_eq!(generic::map(250, Range { min: 300, max: 200 }, Range { min: 0, max: 10 }), -5);
}

#[test]
fn reverse_index_is_the_distance_to_the_last_position() {
    assert_eq!(reverse_index(5, 6), 0);
    assert_eq!(reverse_index(0, 6), 5);
    assert_eq!(reverse_index(2, 6), 3);
    assert_eq!(reverse_index(9, 6), 4);
    assert_eq!(reverse_index(0, 1), 0);
    for index in 0..6 {
        assert_eq!(reverse_index(reverse_index(index, 6), 6), index);
    }
}

#[test]
fn screen_information_starts_at_zero() {
    let screen = ScreenInformation::new();
    assert_eq!(screen.x_deadspace, 0);
    assert_eq!(screen.y_visible_area, Range { min: 0, max: 0 });
    assert_eq!(screen.window_width, 0);
    assert_eq!(screen.window_height, 0);
    assert!(screen.is_wf());
}

#[test]
fn visible_area_is_centred_on_the_camera() {
    assert_eq!(calculate_visible_y_area(720_000, 360_000), Range { min: 0, max: 720_000 });
    assert_eq!(calculate_visible_y_area(720_000, -1_000), Range { min: -361_000, max: 359_000 });
    assert_eq!(calculate_visible_y_area(5, 0), Range { min: -2, max: 2 });
}

#[test]
fn deadspace_is_half_of_what_the_walls_leave() {
    assert_eq!(calculate_screen_deadspace(1_280_000, 128_000), 384_000);
    assert_eq!(calculate_screen_deadspace(512_000, 128_000), 0);
    assert_eq!(calculate_screen_deadspace(512_001, 128_000), 0);
    // A window narrower than the level has a negative margin, rounded down as well.
    assert_eq!(calculate_screen_deadspace(511_999, 128_000), -1);
    assert_eq!(calculate_screen_deadspace(400_000, 128_000), -56_000);
    assert_eq!(calculate_screen_deadspace(400_001, 128_000), -56_000);
    assert_eq!(calculate_screen_deadspace(0, 128_000), -256_000);
}

#[test]
fn screen_refresh_with_window_and_camera() {
    let mut screen = ScreenInformation::new();
    update_screen_information(
        &mut screen,
        Some((1_280_000, 720_000)),
        Some(360_000),
        &ScaleFactor { current: 2 },
    );
    assert_eq!(
        screen,
        ScreenInformation {
            x_deadspace: 384_000,
            y_visible_area: Range { min: 0, max: 720_000 },
            window_width: 1_280_000,
            window_height: 720_000,
        }
    );
    assert!(screen.is_wf());
}

#[test]
fn screen_refresh_without_camera_shows_the_window() {
    let mut screen = ScreenInformation::new();
    update_screen_information(&mut screen, Some((640_000, 480_000)), None, &ScaleFactor { current: 1 });
    assert_eq!(screen.y_visible_area, Range { min: 0, max: 480_000 });
    assert_eq!(screen.x_deadspace, 192_000);
}

#[test]
fn screen_refresh_without_window_changes_nothing() {
    let mut screen = ScreenInformation {
        x_deadspace: 7,
        y_visible_area: Range { min: -3, max: 11 },
        window_width: 100,
        window_height: 50,
    };
    let before = screen;
    update_screen_information(&mut screen, None, Some(12), &ScaleFactor { current: 2 });
    assert_eq!(screen, before);
}

#[test]
fn screen_is_wf_rejects_values_out_of_range() {
    let mut screen = ScreenInformation::new();
    screen.window_width = -1;
    assert!(!screen.is_wf());
    screen.window_width = 3_200_000_001;
    assert!(!screen.is_wf());
    screen.window_width = 3_200_000_000;
    assert!(screen.is_wf());
    screen.y_visible_area.min = -100_000_000_000_000_001;
    assert!(!screen.is_wf());
}
