//! Facing directions and the axes on which movement can be halted.
use vstd::prelude::*;

verus! {

/// Horizontal facing.
#[derive(Clone, Copy, PartialEq, Eq, Structural, Debug)]
pub enum DirectionX {
    Left,
    Right,
}

/// Vertical facing, used on ladders.
#[derive(Clone, Copy, PartialEq, Eq, Structural, Debug)]
pub enum DirectionY {
    Up,
    Down,
}

/// The axis on which a body is told to stop.
#[derive(Clone, Copy, PartialEq, Eq, Structural, Debug)]
pub enum StopDirection {
    X,
    Y,
    Both,
}

} // verus!
