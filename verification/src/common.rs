//! The coarse modes of the application and of a play session, and the
//! events a menu can raise. The legal transitions between the modes are
//! owned by the session (see the `session` module); an illegal request is a
//! distinct, reported case rather than a silent success.

use vstd::prelude::*;

verus! {

/// Coarse UI mode.
#[derive(Clone, Copy, Debug, PartialEq, Eq, Structural, Hash)]
pub enum AppState {
    MainMenu,
    InGame,
    GameOver,
}

/// Play-session mode.
#[derive(Clone, Copy, Debug, PartialEq, Eq, Structural, Hash)]
pub enum GameState {
    Playing,
    Restarted,
    Quitted,
    Paused,
}

/// A click event raised by one of the menu screens.
#[derive(Clone, Copy, Debug, PartialEq, Eq, Structural)]
pub enum MenuButtonAction {
    StartGame,
    RestartGame,
    BackToMainMenu,
    Quit,
}

/// Why a requested transition was refused.
#[derive(Clone, Copy, Debug, PartialEq, Eq, Structural)]
pub enum StateError {
    /// The transition is not legal from the current mode.
    InvalidTransition,
}

} // verus!
