//! The screens of the game.
use vstd::prelude::*;

verus! {

/// Which screen the game shows.
#[derive(Clone, Copy, PartialEq, Eq, Structural, Debug)]
pub enum GameState {
    Playing,
    Title,
    Credits,
    Info,
    Died,
    /// The game is over; the flag says whether the level was finished.
    GameOver(bool),
}

} // verus!
