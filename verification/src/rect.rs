//! Axis-aligned rectangles.
use vstd::prelude::*;
use crate::constants::{COORD_LIMIT, TILE_HEIGHT, TILE_WIDTH};
use crate::point_math::Point;

verus! {

/// The footprint of a body: `width` by `height` pixels with the top left
/// corner at `position`.
#[derive(Clone, Copy, PartialEq, Eq, Structural, Debug)]
pub struct Rect {
    pub position: Point,
    pub width: i32,
    pub height: i32,
}

impl Rect {
    /// The rectangle holds at least one pixel.
    pub open spec fn is_solid(self) -> bool {
        self.width >= 1 && self.height >= 1
    }

    /// The tile-sized rectangle at `position`.
    pub open spec fn at(position: Point) -> Rect {
        Rect { position, width: TILE_WIDTH, height: TILE_HEIGHT }
    }

    /// The rightmost pixel of the top row.
    pub open spec fn spec_top_right(self) -> Point {
        self.position.offset(self.width - 1, 0)
    }

    /// The leftmost pixel of the bottom row.
    pub open spec fn spec_bottom_left(self) -> Point {
        self.position.offset(0, self.height - 1)
    }

    /// The pixel of the rectangle that lies opposite its origin.
    pub open spec fn spec_bottom_right(self) -> Point {
        self.position.offset(self.width - 1, self.height - 1)
    }

    /// The pixel just below the left end of the rectangle.
    pub open spec fn spec_below_bottom_left(self) -> Point {
        self.position.offset(0, self.height as int)
    }

    /// The pixel just below the right end of the rectangle.
    pub open spec fn spec_below_bottom_right(self) -> Point {
        self.position.offset(self.width - 1, self.height as int)
    }

    /// The rectangle lies within the coordinate limit and is no larger than
    /// it.
    pub open spec fn in_bounds(self) -> bool {
        &&& self.position.in_bounds()
        &&& 0 <= self.width <= COORD_LIMIT
        &&& 0 <= self.height <= COORD_LIMIT
    }

    /// The point lies inside the rectangle, the border included.
    pub open spec fn spec_contains(self, point: Point) -> bool {
        &&& self.position.x <= point.x <= self.position.x + self.width - 1
        &&& self.position.y <= point.y <= self.position.y + self.height - 1
    }

    /// The origin of `other` or the corner opposite to it lies in this
    /// rectangle.
    pub open spec fn spec_overlaps(self, other: Rect) -> bool {
        ||| self.spec_contains(other.position)
        ||| self.spec_contains(
            Point {
                x: (other.position.x + other.width - 1) as i32,
                y: (other.position.y + other.height - 1) as i32,
            },
        )
    }

    /// The tile-sized rectangle at `position`.
    pub fn from(position: Point) -> (r: Rect)
        ensures
            r == Self::at(position),
    {
        Rect { position, width: TILE_WIDTH, height: TILE_HEIGHT }
    }

    /// A rectangle of the given size at `position`.
    pub fn new(position: Point, width: i32, height: i32) -> (r: Rect)
        ensures
            r == (Rect { position, width, height }),
    {
        Rect { position, width, height }
    }

    /// The origin of the rectangle.
    pub fn top_left(&self) -> (r: Point)
        ensures
            r == self.position,
    {
        self.position
    }

    /// The rightmost pixel of the top row.
    pub fn top_right(&self) -> (r: Point)
        requires
            self.in_bounds(),
        ensures
            r == self.spec_top_right(),
    {
        Point { x: self.position.x + self.width - 1, y: self.position.y }
    }

    /// The leftmost pixel of the bottom row.
    pub fn bottom_left(&self) -> (r: Point)
        requires
            self.in_bounds(),
        ensures
            r == self.spec_bottom_left(),
    {
        Point { x: self.position.x, y: self.position.y + self.height - 1 }
    }

    /// The corner opposite the origin.
    pub fn bottom_right(&self) -> (r: Point)
        requires
            self.in_bounds(),
        ensures
            r == self.spec_bottom_right(),
    {
        Point { x: self.position.x + self.width - 1, y: self.position.y + self.height - 1 }
    }

    /// The pixel just below the left end of the rectangle.
    pub fn below_bottom_left(&self) -> (r: Point)
        requires
            self.in_bounds(),
        ensures
            r == self.spec_below_bottom_left(),
    {
        Point { x: self.position.x, y: self.position.y + self.height }
    }

    /// The pixel just below the right end of the rectangle.
    pub fn below_bottom_right(&self) -> (r: Point)
        requires
            self.in_bounds(),
        ensures
            r == self.spec_below_bottom_right(),
    {
        Point { x: self.position.x + self.width - 1, y: self.position.y + self.height }
    }

    /// Whether `point` lies inside the rectangle, the border included.
    pub fn contains(&self, point: Point) -> (r: bool)
        ensures
            r == self.spec_contains(point),
    {
        let right: i64 = self.position.x as i64 + self.width as i64 - 1;
        let bottom: i64 = self.position.y as i64 + self.height as i64 - 1;
        point.x >= self.position.x && (point.x as i64) <= right && point.y >= self.position.y && (
        point.y as i64) <= bottom
    }

    /// Whether this rectangle holds the origin of `other` or the corner
    /// opposite to it.
    pub fn overlaps(&self, other: Rect) -> (r: bool)
        requires
            other.in_bounds(),
        ensures
            r == self.spec_overlaps(other),
    {
        self.contains(other.position) || self.contains(other.bottom_right())
    }
}

impl Default for Rect {
    /// The rectangle without a pixel at the top left corner of the screen.
    fn default() -> (r: Rect)
        ensures
            r == (Rect { position: Point { x: 0, y: 0 }, width: 0, height: 0 }),
    {
        Rect { position: Point { x: 0, y: 0 }, width: 0, height: 0 }
    }
}

/// Two rectangles that `overlaps` reports share a pixel, provided the second
/// one holds any pixel at all.
pub proof fn lemma_overlap_shares_a_pixel(a: Rect, b: Rect)
    requires
        b.is_solid(),
        b.in_bounds(),
        a.spec_overlaps(b),
    ensures
        exists|p: Point| a.spec_contains(p) && b.spec_contains(p),
{
    if a.spec_contains(b.position) {
        assert(a.spec_contains(b.position) && b.spec_contains(b.position));
    } else {
        let q = Point {
            x: (b.position.x + b.width - 1) as i32,
            y: (b.position.y + b.height - 1) as i32,
        };
        assert(a.spec_contains(q) && b.spec_contains(q));
    }
}

/// A rectangle that holds a pixel overlaps itself.
pub proof fn lemma_overlap_is_reflexive(a: Rect)
    requires
        a.is_solid(),
    ensures
        a.spec_overlaps(a),
{
}

} // verus!
