//! The player car: spawning, steering, acceleration, scoring and the
//! crash animation cycle.

use vstd::prelude::*;

use crate::geom::{
    clamp_i64, scaled_len, spec_clamp, spec_scaled_len, spec_travel, travel, DT_LIMIT_MS,
    POS_LIMIT_MPX, SPEED_LIMIT_MPX_S, WINDOW_LIMIT_PX,
};
use vstd::arithmetic::div_mod::{lemma_div_is_ordered, lemma_div_multiples_vanish};

verus! {

/// Width of the car sprite, in reference pixels.
pub const CAR_WIDTH_PX: u32 = 135;

/// Height of the car sprite, in reference pixels.
pub const CAR_HEIGHT_PX: u32 = 105;

/// Vertical steering speed, in milli-pixels per second.
pub const Y_SPEED_MPX_S: i64 = 500_000;

/// Forward speed at which the car stops accelerating, in milli-pixels
/// per second.
pub const SPEED_CAP_MPX_S: i64 = 1_100_000;

/// Forward acceleration: milli-pixels per second gained per
/// millisecond.
pub const ACCEL_MPX_S_PER_MS: i64 = 75;

/// Forward speed while the crash animation plays, in milli-pixels per
/// second.
pub const CRASH_SPEED_MPX_S: i64 = 100_000;

/// Forward speed above which the score grows, in milli-pixels per
/// second.
pub const SCORE_SPEED_MPX_S: i64 = 500_000;

/// Score gained per millisecond spent above that speed, in
/// milli-points.
pub const SCORE_RATE_PER_MS: i64 = 10;

/// Length of one crash animation cycle, in milliseconds.
pub const CRASH_CYCLE_MS: u32 = 1_000;

/// Largest score, in milli-points, that the update functions accept.
pub const SCORE_LIMIT: i64 = 4_000_000_000_000;

#[derive(Clone, Copy, Debug, PartialEq, Eq, Structural)]
pub enum CarState {
    Moving,
    Crashed,
}

/// The player car.
#[derive(Clone, Copy, Debug, PartialEq, Eq, Structural)]
pub struct Car {
    /// On-screen position, in milli-pixels.
    pub x: i64,
    pub y: i64,
    /// Forward speed, in milli-pixels per second.
    pub speed_x: i64,
    /// Steering speed, in milli-pixels per second.
    pub speed_y: i64,
    pub state: CarState,
    /// Accumulated score, in milli-points.
    pub score: i64,
    /// Time into the crash animation cycle, in milliseconds; it
    /// advances only while the car is crashed.
    pub crash_elapsed_ms: u32,
    pub collision_counter: u8,
}

/// Bounds under which one frame update stays inside `i64`.
pub open spec fn car_wf(c: Car) -> bool {
    &&& -POS_LIMIT_MPX <= c.x <= POS_LIMIT_MPX
    &&& -POS_LIMIT_MPX <= c.y <= POS_LIMIT_MPX
    &&& 0 <= c.speed_x <= SPEED_LIMIT_MPX_S
    &&& 0 <= c.speed_y <= SPEED_LIMIT_MPX_S
    &&& 0 <= c.score <= SCORE_LIMIT
    &&& c.crash_elapsed_ms < CRASH_CYCLE_MS
}

/// The keys held down during a frame.
#[derive(Clone, Copy, Debug, PartialEq, Eq, Structural)]
pub struct SteerInput {
    pub up: bool,
    pub down: bool,
    pub left: bool,
    pub right: bool,
}

/// A freshly spawned car: centered, not yet rolling forward, with
/// the score carried over from the previous level.
pub fn spawn_car(score: i64) -> (c: Car)
    requires
        0 <= score <= SCORE_LIMIT,
    ensures
        c == (Car {
            x: 0,
            y: 0,
            speed_x: 0,
            speed_y: Y_SPEED_MPX_S,
            state: CarState::Moving,
            score: score,
            crash_elapsed_ms: 0,
            collision_counter: 0,
        }),
        car_wf(c),
{
    Car {
        x: 0,
        y: 0,
        speed_x: 0,
        speed_y: Y_SPEED_MPX_S,
        state: CarState::Moving,
        score: score,
        crash_elapsed_ms: 0,
        collision_counter: 0,
    }
}

/// Lowest y the car center may take: half a car height above the
/// bottom edge of a window `height_px` pixels tall.
pub open spec fn y_min(height_px: int) -> int {
    -(height_px * 1000 / 2) + spec_scaled_len(CAR_HEIGHT_PX as int, height_px) / 2
}

/// Highest y the car center may take.
pub open spec fn y_max(height_px: int) -> int {
    height_px * 1000 / 2 - spec_scaled_len(CAR_HEIGHT_PX as int, height_px) / 2
}

/// Leftmost x the car may steer to: a quarter window behind the
/// camera center.
pub open spec fn x_min(cam_x: int, width_px: int) -> int {
    cam_x - width_px * 1000 / 4
}

/// Rightmost x the car may steer to.
pub open spec fn x_max(cam_x: int, width_px: int) -> int {
    cam_x + width_px * 1000 / 4
}

/// Vertical position after the up and down keys acted, each clamped
/// to the window.
pub open spec fn spec_steer_y(
    y: int,
    speed_y: int,
    up: bool,
    down: bool,
    dt_ms: int,
    height_px: int,
) -> int {
    let step = spec_travel(speed_y, dt_ms);
    let y1 = if up {
        spec_clamp(y + step, y_min(height_px), y_max(height_px))
    } else {
        y
    };
    if down {
        spec_clamp(y1 - step, y_min(height_px), y_max(height_px))
    } else {
        y1
    }
}

/// Horizontal position after the right and left keys acted, each
/// clamped to a half window around the camera.  Steering moves at the
/// vertical steering speed.
pub open spec fn spec_steer_x(
    x: int,
    speed_y: int,
    left: bool,
    right: bool,
    dt_ms: int,
    cam_x: int,
    width_px: int,
) -> int {
    let step = spec_travel(speed_y, dt_ms);
    let x1 = if right {
        spec_clamp(x + step, x_min(cam_x, width_px), x_max(cam_x, width_px))
    } else {
        x
    };
    if left {
        spec_clamp(x1 - step, x_min(cam_x, width_px), x_max(cam_x, width_px))
    } else {
        x1
    }
}

/// One frame of car motion.
///
/// While the car is moving, the steering keys shift it (clamped to
/// the window), it rolls forward by its forward speed, it accelerates
/// while below the speed cap, and the score grows while the updated
/// speed is above the scoring threshold.
///
/// While the car is crashed, its forward speed is pinned to the crash
/// speed, it keeps rolling, and when the animation cycle completes it
/// goes back to moving.  The front end draws the spin from
/// `crash_elapsed_ms`.
pub fn update_car(
    car: &mut Car,
    input: SteerInput,
    dt_ms: u32,
    cam_x: i64,
    width_px: u32,
    height_px: u32,
)
    requires
        car_wf(*old(car)),
        dt_ms <= DT_LIMIT_MS,
        1 <= width_px <= WINDOW_LIMIT_PX,
        1 <= height_px <= WINDOW_LIMIT_PX,
        -POS_LIMIT_MPX <= cam_x <= POS_LIMIT_MPX,
    ensures
        old(car).state == CarState::Moving ==> {
            &&& final(car).y == spec_steer_y(
                old(car).y as int,
                old(car).speed_y as int,
                input.up,
                input.down,
                dt_ms as int,
                height_px as int,
            )
            &&& final(car).x == spec_steer_x(
                old(car).x as int,
                old(car).speed_y as int,
                input.left,
                input.right,
                dt_ms as int,
                cam_x as int,
                width_px as int,
            ) + spec_travel(old(car).speed_x as int, dt_ms as int)
            &&& final(car).speed_x == (if old(car).speed_x < SPEED_CAP_MPX_S {
                old(car).speed_x + ACCEL_MPX_S_PER_MS * dt_ms
            } else {
                old(car).speed_x as int
            })
            &&& final(car).score == (if final(car).speed_x > SCORE_SPEED_MPX_S {
                old(car).score + SCORE_RATE_PER_MS * dt_ms
            } else {
                old(car).score as int
            })
            &&& final(car).speed_y == old(car).speed_y
            &&& final(car).state == CarState::Moving
            &&& final(car).crash_elapsed_ms == old(car).crash_elapsed_ms
            &&& final(car).collision_counter == old(car).collision_counter
        },
        old(car).state == CarState::Crashed ==> {
            &&& final(car).speed_x == CRASH_SPEED_MPX_S
            &&& final(car).x == old(car).x + spec_travel(
                CRASH_SPEED_MPX_S as int,
                dt_ms as int,
            )
            &&& final(car).y == old(car).y
            &&& final(car).speed_y == old(car).speed_y
            &&& final(car).score == old(car).score
            &&& final(car).collision_counter == old(car).collision_counter
            &&& (old(car).crash_elapsed_ms + dt_ms < CRASH_CYCLE_MS ==> {
                &&& final(car).state == CarState::Crashed
                &&& final(car).crash_elapsed_ms == old(car).crash_elapsed_ms + dt_ms
            })
            &&& (old(car).crash_elapsed_ms + dt_ms >= CRASH_CYCLE_MS ==> {
                &&& final(car).state == CarState::Moving
                &&& final(car).crash_elapsed_ms == (old(car).crash_elapsed_ms
                    + dt_ms) % (CRASH_CYCLE_MS as int)
            })
        },
        final(car).crash_elapsed_ms < CRASH_CYCLE_MS,
{
    match car.state {
        CarState::Moving => {
            let step = travel(car.speed_y, dt_ms);
            let car_h = scaled_len(CAR_HEIGHT_PX, height_px);
            proof {
                lemma_div_is_ordered(
                    105 * (height_px as int) * 1000,
                    1080 * ((height_px as int) * 1000),
                    1080,
                );
                lemma_div_multiples_vanish((height_px as int) * 1000, 1080);
                lemma_div_is_ordered(car_h as int, (height_px as int) * 1000, 2);
            }
            let half_h: i64 = (((height_px as u64) * 1000) / 2) as i64;
            let half_car: i64 = ((car_h as u64) / 2) as i64;
            let y_lo = -half_h + half_car;
            let y_hi = half_h - half_car;
            let mut y = car.y;
            if input.up {
                y = clamp_i64(y + step, y_lo, y_hi);
            }
            if input.down {
                y = clamp_i64(y - step, y_lo, y_hi);
            }
            car.y = y;

            let quarter_w: i64 = (((width_px as u64) * 1000) / 4) as i64;
            let x_lo = cam_x - quarter_w;
            let x_hi = cam_x + quarter_w;
            let mut x = car.x;
            if input.right {
                x = clamp_i64(x + step, x_lo, x_hi);
            }
            if input.left {
                x = clamp_i64(x - step, x_lo, x_hi);
            }
            car.x = x + travel(car.speed_x, dt_ms);

            if car.speed_x < SPEED_CAP_MPX_S {
                car.speed_x = car.speed_x + ACCEL_MPX_S_PER_MS * (dt_ms as i64);
            }
            if car.speed_x > SCORE_SPEED_MPX_S {
                car.score = car.score + SCORE_RATE_PER_MS * (dt_ms as i64);
            }
        }
        CarState::Crashed => {
            car.speed_x = CRASH_SPEED_MPX_S;
            car.x = car.x + travel(CRASH_SPEED_MPX_S, dt_ms);
            let total = car.crash_elapsed_ms + dt_ms;
            if total >= CRASH_CYCLE_MS {
                car.state = CarState::Moving;
                car.crash_elapsed_ms = total % CRASH_CYCLE_MS;
            } else {
                car.crash_elapsed_ms = total;
            }
        }
    }
}

} // verus!
