//! What a tile means to the actors that touch it.
use vstd::prelude::*;
use crate::constants::COLLIDER_COUNT;

verus! {

/// The collision category of a tile.
#[derive(Clone, Copy, PartialEq, Eq, Structural, Debug)]
pub enum TileCollider {
    Climbable,
    Collectible(i32),
    Conveyor,
    Deadly,
    Exit,
    ExtraLife,
    Full,
    Vacant,
    Slippery,
    Star,
}

impl TileCollider {
    /// A tile that gives no footing: nothing, or something to pick up or
    /// to touch.
    pub open spec fn spec_is_empty(self) -> bool {
        match self {
            TileCollider::Climbable => false,
            TileCollider::Slippery => false,
            TileCollider::Conveyor => false,
            TileCollider::Full => false,
            _ => true,
        }
    }

    /// A tile that a body can move into: everything but the solid kinds.
    pub open spec fn spec_is_free(self) -> bool {
        match self {
            TileCollider::Full => false,
            TileCollider::Slippery => false,
            TileCollider::Conveyor => false,
            _ => true,
        }
    }

    /// The collider of the sprite with the given zero-based index.
    pub open spec fn of_sprite(sprite: int) -> TileCollider {
        if 3 <= sprite <= 8 {
            TileCollider::Full
        } else if sprite == 9 {
            TileCollider::Climbable
        } else if sprite == 10 {
            TileCollider::Star
        } else if sprite == 11 {
            TileCollider::ExtraLife
        } else if sprite == 12 {
            TileCollider::Exit
        } else if 14 <= sprite <= 15 {
            TileCollider::Deadly
        } else if 19 <= sprite <= 21 {
            TileCollider::Full
        } else if sprite == 22 {
            TileCollider::Deadly
        } else if sprite == 24 {
            TileCollider::Full
        } else if sprite == 25 {
            TileCollider::Slippery
        } else if 26 <= sprite <= 29 {
            TileCollider::Full
        } else if 32 <= sprite <= 33 {
            TileCollider::Full
        } else if sprite == 37 {
            TileCollider::Deadly
        } else if 38 <= sprite <= 42 {
            TileCollider::Full
        } else if 48 <= sprite <= 54 {
            TileCollider::Full
        } else if sprite == 55 {
            TileCollider::Climbable
        } else if 56 <= sprite <= 57 {
            TileCollider::Full
        } else if 58 <= sprite <= 60 {
            TileCollider::Conveyor
        } else if sprite == 61 {
            TileCollider::Exit
        } else {
            TileCollider::Vacant
        }
    }

    /// Whether the tile gives no footing.
    pub fn is_empty(&self) -> (r: bool)
        ensures
            r == self.spec_is_empty(),
    {
        match self {
            TileCollider::Climbable
            | TileCollider::Slippery
            | TileCollider::Conveyor
            | TileCollider::Full => false,
            _ => true,
        }
    }

    /// Whether a body can move into the tile.
    pub fn is_free(&self) -> (r: bool)
        ensures
            r == self.spec_is_free(),
    {
        match self {
            TileCollider::Full | TileCollider::Slippery | TileCollider::Conveyor => false,
            _ => true,
        }
    }

    /// Looks a sprite up in the collider table.
    pub fn for_sprite(sprite: i32) -> (r: TileCollider)
        requires
            0 <= sprite < COLLIDER_COUNT,
        ensures
            r == Self::of_sprite(sprite as int),
    {
        match sprite {
            3..=8 | 19..=21 | 24 | 26..=29 | 32..=33 | 38..=42 | 48..=54 | 56..=57 => {
                TileCollider::Full
            },
            9 | 55 => TileCollider::Climbable,
            10 => TileCollider::Star,
            11 => TileCollider::ExtraLife,
            12 | 61 => TileCollider::Exit,
            14..=15 | 22 | 37 => TileCollider::Deadly,
            25 => TileCollider::Slippery,
            58..=60 => TileCollider::Conveyor,
            _ => TileCollider::Vacant,
        }
    }
}

} // verus!
