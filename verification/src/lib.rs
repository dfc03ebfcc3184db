//! Core logic of a 2D arcade driving game: a player car with
//! acceleration, steering and a crash animation, procedurally spawned
//! lane obstacles, a scrolling tiled background, a camera that follows
//! the car, a HUD (score, speed, lap counter), a pause menu and a
//! multi-level lifecycle (loading, countdown, running, paused,
//! unloading).
//!
//! All geometry is fixed point so that every frame update is exact
//! integer arithmetic: positions and lengths are measured in
//! milli-pixels (thousandths of a pixel), speeds in milli-pixels per
//! second, time in milliseconds and the score in milli-points.
//! A front end owns the window, the sprites, the audio and the
//! keyboard; it hands this library plain values (frame deltas, key
//! flags, asset load flags) and applies the returned positions and
//! state changes.

pub mod car;
pub mod geom;
pub mod levels;
pub mod menu;
pub mod obstacle;
pub mod ui;
