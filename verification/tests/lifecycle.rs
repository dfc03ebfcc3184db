use midnight_motorist::car::{spawn_car, Car};
use midnight_motorist::levels::{
    despawn_level, despawn_loading_screen, game_over, lap_progress, load_level, next_level,
    Countdown, CountdownStep, Level,
};
use midnight_motorist::menu::{update_menu, GameState};

#[test]
fn escape_toggles_pause_only_while_playing() {
    assert_eq!(update_menu(GameState::Running, true), Some(GameState::Paused));
    assert_eq!(update_menu(GameState::Paused, true), Some(GameState::Running));
    assert_eq!(update_menu(GameState::Loading, true), None);
    assert_eq!(update_menu(GameState::Unloading, true), None);
    assert_eq!(update_menu(GameState::Countdown, true), None);
    assert_eq!(update_menu(GameState::LoadNextLevel, true), None);
    assert_eq!(update_menu(GameState::Running, false), None);
    assert_eq!(update_menu(GameState::Paused, false), None);
}

#[test]
fn the_level_table_has_three_levels() {
    let one = load_level(1).unwrap();
    assert_eq!(one.obstacle_width_px, 135);
    assert_eq!(one.obstacle_height_px, 105);
    assert_eq!(one.obstacle_speed_mpx_s, 100_000);
    assert_eq!(one.lane_y_mpx, [72_500, 197_500, 337_500, 447_500]);
    assert_eq!(one.car_texture, "1084.png");
    assert_eq!(one.obstacle_textures, ["1081.png", "1082.png"]);
    assert_eq!(one.background_texture, "1058.png");
    assert_eq!(one.music, "240bps.mp3");
    assert_eq!(one.lap_texture, "1077.png");

    let two = load_level(2).unwrap();
    assert_eq!(two.obstacle_width_px, 202);
    assert_eq!(two.obstacle_height_px, 291);
    assert_eq!(two.obstacle_speed_mpx_s, 0);
    assert_eq!(two.car_texture, "1145.png");
    assert_eq!(two.obstacle_textures, ["1149.png", "1149.png"]);
    assert_eq!(two.background_texture, "backroads.png");
    assert_eq!(two.music, "dui.mp3");

    let three = load_level(3).unwrap();
    assert_eq!(three.obstacle_width_px, 135);
    assert_eq!(three.obstacle_speed_mpx_s, 0);
    assert_eq!(three.car_texture, "tank.png");
    assert_eq!(three.background_texture, "rainbowroad.png");

    assert!(load_level(0).is_none());
    assert!(load_level(4).is_none());
}

#[test]
fn the_run_ends_on_exactly_the_fifth_collision() {
    let mut car = spawn_car(0);
    car.collision_counter = 4;
    assert_eq!(game_over(&car), None);
    car.collision_counter = 5;
    assert_eq!(game_over(&car), Some(GameState::Paused));
    car.collision_counter = 6;
    assert_eq!(game_over(&car), None);
}

#[test]
fn laps_are_ten_window_widths() {
    // In a 1280 px window one lap is 12_800_000 milli-pixels.
    assert_eq!(lap_progress(12_800_000, 1280), 1);
    assert_eq!(lap_progress(12_799_999, 1280), 0);
    assert_eq!(lap_progress(25_600_000, 1280), 2);
    assert_eq!(lap_progress(-5_000, 1280), 0);
    assert_eq!(lap_progress(0, 1280), 0);
}

#[test]
fn the_first_lap_finishes_the_level() {
    let mut level = Level { level: 1 };
    assert_eq!(next_level(&mut level, 12_799_999, 1280), None);
    assert_eq!(level.level, 1);
    assert_eq!(next_level(&mut level, 12_800_000, 1280), Some(GameState::Unloading));
    assert_eq!(level.level, 2);
    // Two laps are not the trigger; only crossing the first counts.
    let mut level = Level { level: 1 };
    assert_eq!(next_level(&mut level, 25_600_000, 1280), None);
    assert_eq!(level.level, 1);
}

#[test]
fn unloading_leads_to_the_next_level() {
    assert_eq!(despawn_level(), GameState::LoadNextLevel);
}

#[test]
fn the_countdown_waits_for_every_texture() {
    assert_eq!(despawn_loading_screen(true, true, true, true), Some(GameState::Countdown));
    assert_eq!(despawn_loading_screen(false, true, true, true), None);
    assert_eq!(despawn_loading_screen(true, false, true, true), None);
    assert_eq!(despawn_loading_screen(true, true, false, true), None);
    assert_eq!(despawn_loading_screen(true, true, true, false), None);
}

#[test]
fn the_countdown_steps_once_a_second_then_starts_the_game() {
    let mut cd = Countdown::new();
    assert_eq!(cd.index, 0);
    assert_eq!(cd.tick(999), CountdownStep::Waiting);
    assert_eq!(cd.index, 0);
    assert_eq!(cd.tick(1), CountdownStep::Advance { go: false });
    assert_eq!(cd.index, 1);
    assert_eq!(cd.tick(1_000), CountdownStep::Advance { go: false });
    assert_eq!(cd.index, 2);
    assert_eq!(cd.tick(1_000), CountdownStep::Advance { go: true });
    assert_eq!(cd.index, 3);
    assert_eq!(cd.tick(1_000), CountdownStep::Finished);
}
