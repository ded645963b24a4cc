//! The result of probing one point of the level.
use vstd::prelude::*;
use crate::point_math::Point;
use crate::tile_collider::TileCollider;

verus! {

/// A tile that was found at a probed point, with the point itself.
#[derive(Clone, Copy, PartialEq, Eq, Structural, Debug)]
pub struct Collision {
    pub tile_collider: TileCollider,
    pub position: Point,
}

} // verus!
