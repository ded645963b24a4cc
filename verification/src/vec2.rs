//! Two-dimensional fixed-point vectors.
use vstd::prelude::*;
use crate::fixed::{clip, mul64, clip64, sat_add, ONE};
use crate::point_math::Point;

verus! {

/// A velocity or a sub-pixel remainder. Both components count thousandths
/// of a pixel.
#[derive(Clone, Copy, PartialEq, Eq, Structural, Debug)]
pub struct Vec2 {
    pub x: i32,
    pub y: i32,
}

impl Vec2 {
    /// The vector with both components zero.
    pub open spec fn spec_zero() -> Vec2 {
        Vec2 { x: 0, y: 0 }
    }

    /// Both components are exactly zero.
    pub open spec fn spec_is_zero(self) -> bool {
        self.x == 0 && self.y == 0
    }

    /// The component-wise saturating sum.
    pub open spec fn spec_add(self, other: Vec2) -> Vec2 {
        Vec2 { x: clip(self.x + other.x), y: clip(self.y + other.y) }
    }

    /// A point taken as a vector of whole pixels.
    pub open spec fn of_point(p: Point) -> Vec2 {
        Vec2 { x: clip(p.x * ONE), y: clip(p.y * ONE) }
    }

    /// A vector with the given components.
    pub fn new(x: i32, y: i32) -> (r: Vec2)
        ensures
            r == (Vec2 { x, y }),
    {
        Vec2 { x, y }
    }

    /// The vector with both components zero.
    pub fn zero() -> (r: Vec2)
        ensures
            r == Self::spec_zero(),
    {
        Vec2 { x: 0, y: 0 }
    }

    /// Whether both components are exactly zero.
    pub fn is_zero(&self) -> (r: bool)
        ensures
            r == self.spec_is_zero(),
    {
        self.x == 0 && self.y == 0
    }

    /// The component-wise sum; each component saturates.
    pub fn add(&self, other: Vec2) -> (r: Vec2)
        ensures
            r == self.spec_add(other),
    {
        Vec2 { x: sat_add(self.x, other.x), y: sat_add(self.y, other.y) }
    }
}

impl Default for Vec2 {
    fn default() -> (r: Vec2)
        ensures
            r == Vec2::spec_zero(),
    {
        Vec2 { x: 0, y: 0 }
    }
}

impl From<Point> for Vec2 {
    fn from(value: Point) -> (r: Vec2) {
        Vec2 { x: clip64(mul64(value.x, ONE)), y: clip64(mul64(value.y, ONE)) }
    }
}

impl vstd::std_specs::convert::FromSpecImpl<Point> for Vec2 {
    open spec fn obeys_from_spec() -> bool {
        true
    }

    open spec fn from_spec(value: Point) -> Vec2 {
        Vec2::of_point(value)
    }
}

} // verus!
