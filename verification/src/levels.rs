//! Level lifecycle: the per-level configuration table, asset-load
//! polling, the countdown, lap progress, level completion and game
//! over.

use vstd::prelude::*;

use crate::car::Car;
use crate::geom::{DT_LIMIT_MS, POS_LIMIT_MPX, SPEED_LIMIT_MPX_S, WINDOW_LIMIT_PX};
use crate::menu::GameState;

verus! {

/// Which level is being played.
#[derive(Clone, Copy, Debug, PartialEq, Eq, Structural)]
pub struct Level {
    pub level: u8,
}

/// The number of collisions that ends a run.
pub const GAME_OVER_COLLISIONS: u8 = 5;

/// Everything that changes from one level to the next.  Lengths are
/// in reference pixels (the space of a window 1080 pixels tall);
/// lane offsets are in reference milli-pixels; textures and music are
/// asset file names the front end loads.
pub struct LevelAssets {
    pub obstacle_width_px: u32,
    pub obstacle_height_px: u32,
    /// Obstacle speed magnitude, in milli-pixels per second; oncoming
    /// traffic gets the negated value.
    pub obstacle_speed_mpx_s: i64,
    /// Lane center offsets above the road middle, in reference
    /// milli-pixels; lanes below the middle mirror them.
    pub lane_y_mpx: [i64; 4],
    pub car_texture: &'static str,
    pub obstacle_textures: [&'static str; 2],
    pub background_texture: &'static str,
    pub music: &'static str,
    pub lap_texture: &'static str,
}

/// Bounds under which the spawner and collision arithmetic stay
/// inside `i64`.
pub open spec fn level_assets_wf(cfg: LevelAssets) -> bool {
    &&& cfg.obstacle_width_px <= WINDOW_LIMIT_PX
    &&& cfg.obstacle_height_px <= WINDOW_LIMIT_PX
    &&& 0 <= cfg.obstacle_speed_mpx_s <= SPEED_LIMIT_MPX_S
    &&& forall|i: int| 0 <= i < 4 ==> 0 <= #[trigger] cfg.lane_y_mpx@[i] <= 1_000_000
}

/// The configuration table.  Levels one to three exist; any other
/// level number returns `None` and the front end keeps the previous
/// configuration.  After this the front end resets the camera to the
/// origin, starts the asset loads and enters `Loading`.
pub fn load_level(level: u8) -> (cfg: Option<LevelAssets>)
    ensures
        cfg is Some <==> 1 <= level <= 3,
        cfg matches Some(c) ==> level_assets_wf(c),
        cfg matches Some(c) ==> {
            &&& c.lane_y_mpx@[0] == 72_500
            &&& c.lane_y_mpx@[1] == 197_500
            &&& c.lane_y_mpx@[2] == 337_500
            &&& c.lane_y_mpx@[3] == 447_500
            &&& c.lap_texture@ == "1077.png"@
        },
        level == 1 ==> (cfg matches Some(c) && {
            &&& c.obstacle_width_px == 135
            &&& c.obstacle_height_px == 105
            &&& c.obstacle_speed_mpx_s == 100_000
            &&& c.car_texture@ == "1084.png"@
            &&& c.obstacle_textures@[0]@ == "1081.png"@
            &&& c.obstacle_textures@[1]@ == "1082.png"@
            &&& c.background_texture@ == "1058.png"@
            &&& c.music@ == "240bps.mp3"@
        }),
        level == 2 ==> (cfg matches Some(c) && {
            &&& c.obstacle_width_px == 202
            &&& c.obstacle_height_px == 291
            &&& c.obstacle_speed_mpx_s == 0
            &&& c.car_texture@ == "1145.png"@
            &&& c.obstacle_textures@[0]@ == "1149.png"@
            &&& c.obstacle_textures@[1]@ == "1149.png"@
            &&& c.background_texture@ == "backroads.png"@
            &&& c.music@ == "dui.mp3"@
        }),
        level == 3 ==> (cfg matches Some(c) && {
            &&& c.obstacle_width_px == 135
            &&& c.obstacle_height_px == 105
            &&& c.obstacle_speed_mpx_s == 0
            &&& c.car_texture@ == "tank.png"@
            &&& c.obstacle_textures@[0]@ == "1081.png"@
            &&& c.obstacle_textures@[1]@ == "1082.png"@
            &&& c.background_texture@ == "rainbowroad.png"@
            &&& c.music@ == "dui.mp3"@
        }),
{
    let lanes: [i64; 4] = [72_500, 197_500, 337_500, 447_500];
    match level {
        1 => Some(LevelAssets {
            obstacle_width_px: 135,
            obstacle_height_px: 105,
            obstacle_speed_mpx_s: 100_000,
            lane_y_mpx: lanes,
            car_texture: "1084.png",
            obstacle_textures: ["1081.png", "1082.png"],
            background_texture: "1058.png",
            music: "240bps.mp3",
            lap_texture: "1077.png",
        }),
        2 => Some(LevelAssets {
            obstacle_width_px: 202,
            obstacle_height_px: 291,
            obstacle_speed_mpx_s: 0,
            lane_y_mpx: lanes,
            car_texture: "1145.png",
            obstacle_textures: ["1149.png", "1149.png"],
            background_texture: "backroads.png",
            music: "dui.mp3",
            lap_texture: "1077.png",
        }),
        3 => Some(LevelAssets {
            obstacle_width_px: 135,
            obstacle_height_px: 105,
            obstacle_speed_mpx_s: 0,
            lane_y_mpx: lanes,
            car_texture: "tank.png",
            obstacle_textures: ["1081.png", "1082.png"],
            background_texture: "rainbowroad.png",
            music: "dui.mp3",
            lap_texture: "1077.png",
        }),
        _ => None,
    }
}

/// A run ends with the fifth collision: the front end shows
/// "GAME OVER" and the game pauses.
pub fn game_over(car: &Car) -> (r: Option<GameState>)
    ensures
        r == (if car.collision_counter == GAME_OVER_COLLISIONS {
            Some(GameState::Paused)
        } else {
            None::<GameState>
        }),
{
    if car.collision_counter == GAME_OVER_COLLISIONS {
        Some(GameState::Paused)
    } else {
        None
    }
}

/// Laps the car has completed: one lap is ten window widths, and a
/// car left of the start line has completed none.
pub open spec fn spec_lap_progress(x_mpx: int, width_px: int) -> int {
    if x_mpx <= 0 {
        0
    } else {
        x_mpx / (width_px * 10_000)
    }
}

pub fn lap_progress(x_mpx: i64, width_px: u32) -> (r: u64)
    requires
        1 <= width_px <= WINDOW_LIMIT_PX,
        -POS_LIMIT_MPX <= x_mpx <= POS_LIMIT_MPX,
    ensures
        r == spec_lap_progress(x_mpx as int, width_px as int),
{
    if x_mpx <= 0 {
        0
    } else {
        (x_mpx as u64) / ((width_px as u64) * 10_000)
    }
}

/// Completing the first lap ends the level: the level number goes up,
/// the front end shows "SUCCESS" and starts unloading.
pub fn next_level(level: &mut Level, car_x_mpx: i64, width_px: u32) -> (r: Option<GameState>)
    requires
        1 <= width_px <= WINDOW_LIMIT_PX,
        -POS_LIMIT_MPX <= car_x_mpx <= POS_LIMIT_MPX,
        spec_lap_progress(car_x_mpx as int, width_px as int) == 1 ==> old(level).level < 255,
    ensures
        spec_lap_progress(car_x_mpx as int, width_px as int) == 1 ==> {
            &&& final(level).level == old(level).level + 1
            &&& r == Some(GameState::Unloading)
        },
        spec_lap_progress(car_x_mpx as int, width_px as int) != 1 ==> {
            &&& *final(level) == *old(level)
            &&& r is None
        },
{
    let laps = lap_progress(car_x_mpx, width_px);
    if laps == 1 {
        level.level = level.level + 1;
        Some(GameState::Unloading)
    } else {
        None
    }
}

/// Unloading takes one frame: the front end despawns every level
/// entity and any menu text, then moves on to loading the next level.
pub fn despawn_level() -> (r: GameState)
    ensures
        r == GameState::LoadNextLevel,
{
    GameState::LoadNextLevel
}

/// The loading screen stays up until the level's four textures are
/// loaded; then the front end clears it and the countdown starts.
pub fn despawn_loading_screen(
    car_loaded: bool,
    obstacle0_loaded: bool,
    obstacle1_loaded: bool,
    background_loaded: bool,
) -> (r: Option<GameState>)
    ensures
        r == (if car_loaded && obstacle0_loaded && obstacle1_loaded && background_loaded {
            Some(GameState::Countdown)
        } else {
            None::<GameState>
        }),
{
    if car_loaded && obstacle0_loaded && obstacle1_loaded && background_loaded {
        Some(GameState::Countdown)
    } else {
        None
    }
}

/// Length of one countdown step, in milliseconds.
pub const COUNTDOWN_STEP_MS: u32 = 1_000;

/// Index of the "go" card, the last of the four countdown cards.
pub const COUNTDOWN_GO_INDEX: usize = 3;

/// The three-two-one-go card shown before a level starts.
#[derive(Clone, Copy, Debug, PartialEq, Eq, Structural)]
pub struct Countdown {
    /// Time into the current step, in milliseconds.
    pub elapsed_ms: u32,
    /// Which card is showing, from zero to the "go" card.
    pub index: usize,
}

pub open spec fn countdown_wf(c: Countdown) -> bool {
    &&& c.elapsed_ms < COUNTDOWN_STEP_MS
    &&& c.index <= COUNTDOWN_GO_INDEX
}

/// What one countdown frame asks the front end to do.
#[derive(Clone, Copy, Debug, PartialEq, Eq, Structural)]
pub enum CountdownStep {
    /// Keep showing the current card.
    Waiting,
    /// Show the next card and play a sound: the "go" sound for the
    /// last card, the tick sound otherwise.
    Advance { go: bool },
    /// The countdown is over: clear the card and start running.
    Finished,
}

impl Countdown {
    /// A countdown that was just put on screen, showing the first
    /// card; the front end plays the tick sound once as it appears.
    pub fn new() -> (c: Countdown)
        ensures
            c == (Countdown { elapsed_ms: 0, index: 0 }),
            countdown_wf(c),
    {
        Countdown { elapsed_ms: 0, index: 0 }
    }

    /// One countdown frame: after each full step the next card comes
    /// up, and a step after the "go" card the game starts.
    pub fn tick(&mut self, dt_ms: u32) -> (r: CountdownStep)
        requires
            countdown_wf(*old(self)),
            dt_ms <= DT_LIMIT_MS,
        ensures
            countdown_wf(*final(self)),
            old(self).elapsed_ms + dt_ms < COUNTDOWN_STEP_MS ==> {
                &&& r == CountdownStep::Waiting
                &&& final(self).elapsed_ms == old(self).elapsed_ms + dt_ms
                &&& final(self).index == old(self).index
            },
            old(self).elapsed_ms + dt_ms >= COUNTDOWN_STEP_MS && old(self).index
                == COUNTDOWN_GO_INDEX ==> {
                &&& r == CountdownStep::Finished
                &&& final(self).index == old(self).index
                &&& final(self).elapsed_ms == (old(self).elapsed_ms + dt_ms) % (
                COUNTDOWN_STEP_MS as int)
            },
            old(self).elapsed_ms + dt_ms >= COUNTDOWN_STEP_MS && old(self).index
                < COUNTDOWN_GO_INDEX ==> {
                &&& final(self).index == old(self).index + 1
                &&& final(self).elapsed_ms == (old(self).elapsed_ms + dt_ms) % (
                COUNTDOWN_STEP_MS as int)
                &&& r == (CountdownStep::Advance {
                    go: old(self).index + 1 == COUNTDOWN_GO_INDEX,
                })
            },
    {
        let total = self.elapsed_ms + dt_ms;
        if total < COUNTDOWN_STEP_MS {
            self.elapsed_ms = total;
            CountdownStep::Waiting
        } else if self.index == COUNTDOWN_GO_INDEX {
            self.elapsed_ms = total % COUNTDOWN_STEP_MS;
            CountdownStep::Finished
        } else {
            self.index = self.index + 1;
            self.elapsed_ms = total % COUNTDOWN_STEP_MS;
            CountdownStep::Advance { go: self.index == COUNTDOWN_GO_INDEX }
        }
    }
}

} // verus!
