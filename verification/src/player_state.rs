//! The states of the player's controller.
use vstd::prelude::*;

verus! {

/// What the player is doing. The controller starts in `Idle` and has no
/// terminal state.
#[derive(Clone, Copy, PartialEq, Eq, Structural, Debug)]
pub enum PlayerState {
    Idle,
    RunningLeft,
    RunningRight,
    RunningStop,
    Jumping,
    JumpingLeft,
    JumpingRight,
    JumpingStop,
    DashingLeft,
    DashingRight,
    ClimbingUp,
    ClimbingDown,
    ClimbingStop,
    ClimbingSideways,
    ClimbingSidewaysStop,
    ClimbingIdle,
    Falling,
    FallingLeft,
    FallingRight,
}

impl PlayerState {
    /// One of the six states on a ladder.
    pub open spec fn spec_is_climbing(self) -> bool {
        self == PlayerState::ClimbingUp || self == PlayerState::ClimbingDown || self
            == PlayerState::ClimbingStop || self == PlayerState::ClimbingIdle || self
            == PlayerState::ClimbingSideways || self == PlayerState::ClimbingSidewaysStop
    }

    /// Standing still, on the ground or on a ladder.
    pub open spec fn spec_is_idling(self) -> bool {
        self == PlayerState::Idle || self == PlayerState::ClimbingIdle
    }

    /// Any state of a jump, the cut-off one included.
    pub open spec fn spec_is_jumping(self) -> bool {
        self.spec_is_jumping_up() || self == PlayerState::JumpingStop
    }

    /// A jump that still rises.
    pub open spec fn spec_is_jumping_up(self) -> bool {
        self == PlayerState::Jumping || self == PlayerState::JumpingLeft || self
            == PlayerState::JumpingRight
    }

    /// Running, or coming to a halt from a run.
    pub open spec fn spec_is_running(self) -> bool {
        self == PlayerState::RunningLeft || self == PlayerState::RunningRight || self
            == PlayerState::RunningStop
    }

    /// One of the two dashes.
    pub open spec fn spec_is_dashing(self) -> bool {
        self == PlayerState::DashingLeft || self == PlayerState::DashingRight
    }

    /// One of the three falls.
    pub open spec fn spec_is_falling(self) -> bool {
        self == PlayerState::Falling || self == PlayerState::FallingLeft || self
            == PlayerState::FallingRight
    }

    /// Whether the state is one of the six on a ladder.
    pub fn is_climbing(&self) -> (r: bool)
        ensures
            r == self.spec_is_climbing(),
    {
        match self {
            PlayerState::ClimbingUp
            | PlayerState::ClimbingDown
            | PlayerState::ClimbingStop
            | PlayerState::ClimbingIdle
            | PlayerState::ClimbingSideways
            | PlayerState::ClimbingSidewaysStop => true,
            _ => false,
        }
    }

    /// Whether the player stands still, on the ground or on a ladder.
    pub fn is_idling(&self) -> (r: bool)
        ensures
            r == self.spec_is_idling(),
    {
        match self {
            PlayerState::Idle | PlayerState::ClimbingIdle => true,
            _ => false,
        }
    }

    /// Whether the state is one of a jump, the cut-off one included.
    pub fn is_jumping(&self) -> (r: bool)
        ensures
            r == self.spec_is_jumping(),
    {
        match self {
            PlayerState::Jumping
            | PlayerState::JumpingLeft
            | PlayerState::JumpingRight
            | PlayerState::JumpingStop => true,
            _ => false,
        }
    }

    /// Whether the state is one of a jump that still rises.
    pub fn is_jumping_up(&self) -> (r: bool)
        ensures
            r == self.spec_is_jumping_up(),
    {
        match self {
            PlayerState::Jumping | PlayerState::JumpingLeft | PlayerState::JumpingRight => true,
            _ => false,
        }
    }

    /// Whether the player runs or comes to a halt from a run.
    pub fn is_running(&self) -> (r: bool)
        ensures
            r == self.spec_is_running(),
    {
        match self {
            PlayerState::RunningLeft | PlayerState::RunningRight | PlayerState::RunningStop => true,
            _ => false,
        }
    }

    /// Whether the state is one of the two dashes.
    pub fn is_dashing(&self) -> (r: bool)
        ensures
            r == self.spec_is_dashing(),
    {
        match self {
            PlayerState::DashingLeft | PlayerState::DashingRight => true,
            _ => false,
        }
    }

    /// Whether the state is one of the three falls.
    pub fn is_falling(&self) -> (r: bool)
        ensures
            r == self.spec_is_falling(),
    {
        match self {
            PlayerState::Falling | PlayerState::FallingLeft | PlayerState::FallingRight => true,
            _ => false,
        }
    }
}

} // verus!
