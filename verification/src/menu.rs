//! The game lifecycle states and the pause menu.

use vstd::prelude::*;

verus! {

/// Lifecycle of the game.  The front end runs each per-frame update
/// only in the state it belongs to and switches state when an update
/// asks for it.
#[derive(Clone, Copy, Debug, PartialEq, Eq, Hash, Structural)]
pub enum GameState {
    LoadNextLevel,
    Running,
    Paused,
    Loading,
    Unloading,
    Countdown,
}

/// The state the pause key switches to from `state`, if any.
pub open spec fn spec_pause_toggle(state: GameState) -> Option<GameState> {
    match state {
        GameState::Running => Some(GameState::Paused),
        GameState::Paused => Some(GameState::Running),
        _ => None,
    }
}

/// Escape toggles between the running game and the pause menu.
///
/// Returns the state to switch to, or `None` when the key was not
/// pressed or does not act in the current state.  On a switch to
/// `Paused` the front end shows the "PAUSED" text; on a switch back
/// to `Running` it clears that text.
pub fn update_menu(state: GameState, escape_pressed: bool) -> (r: Option<GameState>)
    ensures
        escape_pressed ==> r == spec_pause_toggle(state),
        !escape_pressed ==> r is None,
{
    if !escape_pressed {
        return None;
    }
    match state {
        GameState::Running => Some(GameState::Paused),
        GameState::Paused => Some(GameState::Running),
        _ => None,
    }
}

} // verus!
