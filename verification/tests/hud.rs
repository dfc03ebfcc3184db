use midnight_motorist::ui::{
    camera_tracking, digit_positions, lap_marker_positions, score_digits, spawn_background,
    spawn_score, update_background, update_laps, update_score, update_speed, Background, Lap,
};

#[test]
fn camera_keeps_pace_with_the_car() {
    let mut cam: i64 = 10_000;
    camera_tracking(&mut cam, 1_100_000, 16);
    assert_eq!(cam, 27_600); // 1100 px/s for 16 ms
}

#[test]
fn fresh_score_is_zero() {
    assert_eq!(spawn_score().score, 0);
}

#[test]
fn the_road_starts_with_two_strips() {
    let tiles = spawn_background(1280);
    assert_eq!(
        tiles,
        vec![
            Background { x: 0, width: 3_840_000 },
            Background { x: -1_280_000, width: 1_280_000 },
        ]
    );
}

#[test]
fn lap_marks_stand_every_ten_windows() {
    assert_eq!(
        lap_marker_positions(1280),
        vec![12_800_000, 25_600_000, 38_400_000, 51_200_000]
    );
}

#[test]
fn background_culls_behind_and_extends_ahead() {
    let mut tiles = vec![
        Background { x: -6_000_000, width: 3_840_000 }, // behind the cull line
        Background { x: -1_280_000, width: 1_280_000 },
        Background { x: 0, width: 3_840_000 },
    ];
    // Camera at 0: the cull line is -5_120_000, and no strip starts
    // strictly ahead of the camera, so a new one is laid at the next
    // multiple of three window widths.
    let spawned = update_background(&mut tiles, 0, 1280);
    assert_eq!(spawned, Some(Background { x: 3_840_000, width: 3_840_000 }));
    assert_eq!(tiles.len(), 3);
    assert_eq!(tiles[0].x, -1_280_000);
    assert_eq!(tiles[1].x, 0);
    assert_eq!(tiles[2].x, 3_840_000);

    // With a strip ahead nothing is spawned.
    let spawned = update_background(&mut tiles, 0, 1280);
    assert_eq!(spawned, None);
    assert_eq!(tiles.len(), 3);
}

#[test]
fn background_extension_rounds_down_for_a_camera_left_of_origin() {
    let mut tiles: Vec<Background> = Vec::new();
    let spawned = update_background(&mut tiles, -1, 1280);
    // floor(-1 / 3_840_000) is -1, so the next strip starts at 0.
    assert_eq!(spawned, Some(Background { x: 0, width: 3_840_000 }));
}

#[test]
fn score_digits_are_decimal() {
    assert_eq!(score_digits(0), vec![0]);
    assert_eq!(score_digits(7), vec![7]);
    assert_eq!(score_digits(90_210), vec![9, 0, 2, 1, 0]);
    assert_eq!(score_digits(1_000_000), vec![1, 0, 0, 0, 0, 0, 0]);
    assert_eq!(score_digits(u32::MAX), vec![4, 2, 9, 4, 9, 6, 7, 2, 9, 5]);
}

#[test]
fn score_digits_evaluate_back_to_the_score() {
    let digits = score_digits(90_210);
    let mut value: u32 = 0;
    for d in digits {
        assert!(d <= 9);
        value = value * 10 + d;
    }
    assert_eq!(value, 90_210);
}

#[test]
fn digit_row_ends_ten_pixels_from_the_right_edge() {
    // Three digits in a 1280 px window: each digit is 38.4 px wide
    // and the row ends at 1270 px.
    assert_eq!(digit_positions(1280, 3), vec![1_154_800, 1_193_200, 1_231_600]);
    assert_eq!(digit_positions(1280, 0), Vec::<i64>::new());
}

#[test]
fn score_readout_pairs_digits_with_positions() {
    // 90210.999 points show as the five digits of 90210.
    let (digits, xs) = update_score(90_210_999, 1280);
    assert_eq!(digits, vec![9, 0, 2, 1, 0]);
    assert_eq!(xs.len(), 5);
    assert_eq!(xs[0], 1_270_000 - 5 * 38_400);
    assert_eq!(xs[4], 1_270_000 - 38_400);
}

#[test]
fn speed_readout_shows_tens_of_pixels_per_second() {
    assert_eq!(update_speed(1_100_000), 110);
    assert_eq!(update_speed(555_555), 55);
    assert_eq!(update_speed(0), 0);
}

#[test]
fn lap_digit_refreshes_when_the_count_grows() {
    let mut lap = Lap { lap: 0 };
    assert!(update_laps(&mut lap, 12_800_000, 1280, true));
    assert_eq!(lap.lap, 1);
    assert!(!update_laps(&mut lap, 12_800_000, 1280, true));
    assert_eq!(lap.lap, 1);
    // A missing digit forces a refresh even without progress.
    assert!(update_laps(&mut lap, 12_800_000, 1280, false));
    assert_eq!(lap.lap, 1);
}
