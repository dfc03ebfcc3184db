use midnight_motorist::car::{spawn_car, Car, CarState, SteerInput};
use midnight_motorist::car::update_car;
use midnight_motorist::geom::{clamp_i64, scaled_len, travel};

fn no_keys() -> SteerInput {
    SteerInput { up: false, down: false, left: false, right: false }
}

#[test]
fn clamp_inside_below_above() {
    assert_eq!(clamp_i64(5, 0, 10), 5);
    assert_eq!(clamp_i64(-3, 0, 10), 0);
    assert_eq!(clamp_i64(42, 0, 10), 10);
}

#[test]
fn travel_scales_speed_by_time() {
    // 500 px/s for 16 ms is 8 px.
    assert_eq!(travel(500_000, 16), 8_000);
    assert_eq!(travel(-100_000, 16), -1_600);
    // Rounds toward zero in both directions.
    assert_eq!(travel(333, 10), 3);
    assert_eq!(travel(-333, 10), -3);
    assert_eq!(travel(0, 1_000), 0);
}

#[test]
fn scaled_len_in_a_720_window() {
    // 105 reference pixels in a 720-pixel-tall window: 70 pixels.
    assert_eq!(scaled_len(105, 720), 70_000);
    assert_eq!(scaled_len(135, 720), 90_000);
    assert_eq!(scaled_len(105, 1080), 105_000);
}

#[test]
fn new_car_is_centered_and_still() {
    let c = spawn_car(1_234);
    assert_eq!(c.x, 0);
    assert_eq!(c.y, 0);
    assert_eq!(c.speed_x, 0);
    assert_eq!(c.speed_y, 500_000);
    assert_eq!(c.state, CarState::Moving);
    assert_eq!(c.score, 1_234);
    assert_eq!(c.crash_elapsed_ms, 0);
    assert_eq!(c.collision_counter, 0);
}

#[test]
fn idle_frame_only_accelerates() {
    let mut c = spawn_car(0);
    update_car(&mut c, no_keys(), 16, 0, 1280, 720);
    assert_eq!(c.x, 0);
    assert_eq!(c.y, 0);
    assert_eq!(c.speed_x, 1_200); // 75 per millisecond for 16 ms
    assert_eq!(c.score, 0); // still far below the scoring speed
    assert_eq!(c.state, CarState::Moving);
}

#[test]
fn steering_up_moves_and_clamps() {
    let mut c = spawn_car(0);
    let up = SteerInput { up: true, down: false, left: false, right: false };
    update_car(&mut c, up, 16, 0, 1280, 720);
    assert_eq!(c.y, 8_000); // 500 px/s for 16 ms

    // Near the top edge the car stops at half a car height from it:
    // the window is 720 px, the scaled car 70 px, so y tops out at
    // (360 - 35) px = 325_000 milli-pixels.
    c.y = 324_000;
    update_car(&mut c, up, 16, 0, 1280, 720);
    assert_eq!(c.y, 325_000);
}

#[test]
fn steering_right_clamps_to_quarter_window_around_camera() {
    let mut c = spawn_car(0);
    let right = SteerInput { up: false, down: false, left: false, right: true };
    c.x = 319_000; // quarter of a 1280 px window is 320_000 milli-pixels
    update_car(&mut c, right, 16, 0, 1280, 720);
    assert_eq!(c.x, 320_000); // clamped, then no forward speed yet
}

#[test]
fn fast_car_earns_score_and_stops_accelerating() {
    let mut c = spawn_car(0);
    c.speed_x = 1_100_000; // at the cap
    update_car(&mut c, no_keys(), 16, 0, 1280, 720);
    assert_eq!(c.speed_x, 1_100_000); // no further acceleration
    assert_eq!(c.x, 17_600); // 1100 px/s for 16 ms
    assert_eq!(c.score, 160); // 10 points/s for 16 ms, in milli-points
}

#[test]
fn score_counts_speed_after_acceleration() {
    let mut c = spawn_car(0);
    c.speed_x = 499_000;
    update_car(&mut c, no_keys(), 16, 0, 1280, 720);
    // 499_000 + 75 * 16 = 500_200 is above the threshold, so the
    // frame scores even though the frame began below it.
    assert_eq!(c.speed_x, 500_200);
    assert_eq!(c.score, 160);
}

#[test]
fn crashed_car_limps_and_recovers_after_a_second() {
    let mut c = spawn_car(0);
    c.state = CarState::Crashed;
    c.speed_x = 900_000;
    update_car(&mut c, no_keys(), 16, 0, 1280, 720);
    assert_eq!(c.speed_x, 100_000); // pinned to the crash speed
    assert_eq!(c.x, 1_600); // 100 px/s for 16 ms
    assert_eq!(c.state, CarState::Crashed);
    assert_eq!(c.crash_elapsed_ms, 16);

    update_car(&mut c, no_keys(), 1_000, 0, 1280, 720);
    assert_eq!(c.state, CarState::Moving); // the cycle completed
    assert_eq!(c.crash_elapsed_ms, 16); // 1016 mod 1000
}
