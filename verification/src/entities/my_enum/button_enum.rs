use vstd::prelude::*;

verus! {

/// What a button does when it is released.
#[derive(Clone, Copy, Debug, PartialEq, Eq, Structural)]
pub enum ButtonType {
    GameStart,
    GamePause,
    GamePlaying,
    GameRestart,
    GameBack,
    NoButton,
}

/// Whether a button is currently held down.
#[derive(Clone, Copy, Debug, PartialEq, Eq, Structural)]
pub enum ButtonStatus {
    ButtonUp,
    ButtonDown,
}

impl ButtonStatus {
    /// The animation frame shown for this status (up: 0, down: 1).
    pub open spec fn frame(self) -> usize {
        match self {
            ButtonStatus::ButtonUp => 0,
            ButtonStatus::ButtonDown => 1,
        }
    }
}

} // verus!
