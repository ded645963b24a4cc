//! Whole-pixel points and the corners of the tile-sized footprint that is
//! anchored at a point.
use vstd::prelude::*;
use crate::constants::{
    COORD_LIMIT, LEVEL_MAX_X, PROBE_LIMIT, LEVEL_MAX_Y, LEVEL_MIN_X, LEVEL_MIN_Y, TILE_HEIGHT, TILE_WIDTH,
};

verus! {

/// A pixel of the world. `x` grows to the right and `y` grows downwards.
#[derive(Clone, Copy, PartialEq, Eq, Structural, Debug)]
pub struct Point {
    pub x: i32,
    pub y: i32,
}

impl Point {
    /// Both coordinates are at most `COORD_LIMIT` in absolute value.
    pub open spec fn in_bounds(self) -> bool {
        &&& -COORD_LIMIT <= self.x <= COORD_LIMIT
        &&& -COORD_LIMIT <= self.y <= COORD_LIMIT
    }

    /// Both coordinates are at most `PROBE_LIMIT` in absolute value.
    pub open spec fn in_reach(self) -> bool {
        &&& -PROBE_LIMIT <= self.x <= PROBE_LIMIT
        &&& -PROBE_LIMIT <= self.y <= PROBE_LIMIT
    }

    /// The point moved by `dx` to the right and `dy` down.
    pub open spec fn offset(self, dx: int, dy: int) -> Point {
        Point { x: (self.x + dx) as i32, y: (self.y + dy) as i32 }
    }

    /// The rightmost pixel of the top row of the footprint.
    pub open spec fn spec_top_right(self) -> Point {
        self.offset(TILE_WIDTH - 1, 0)
    }

    /// The middle of the top row of the footprint.
    pub open spec fn spec_top_middle(self) -> Point {
        self.offset(TILE_WIDTH / 2, 0)
    }

    /// The leftmost pixel of the bottom row of the footprint.
    pub open spec fn spec_bottom_left(self) -> Point {
        self.offset(0, TILE_HEIGHT - 1)
    }

    /// The middle of the bottom row of the footprint.
    pub open spec fn spec_bottom_middle(self) -> Point {
        self.offset(TILE_WIDTH / 2, TILE_HEIGHT - 1)
    }

    /// The rightmost pixel of the bottom row of the footprint.
    pub open spec fn spec_bottom_right(self) -> Point {
        self.offset(TILE_WIDTH - 1, TILE_HEIGHT - 1)
    }

    /// The pixel just below the left end of the footprint.
    pub open spec fn spec_below_bottom_left(self) -> Point {
        self.offset(0, TILE_HEIGHT as int)
    }

    /// The pixel half a tile below the anchor, in the anchor's column.
    pub open spec fn spec_below_bottom_middle(self) -> Point {
        self.offset(0, TILE_HEIGHT / 2)
    }

    /// The pixel just below the right end of the footprint.
    pub open spec fn spec_below_bottom_right(self) -> Point {
        self.offset(TILE_WIDTH - 1, TILE_HEIGHT as int)
    }

    /// The point moved horizontally by `addend`.
    pub open spec fn spec_addx(self, addend: int) -> Point {
        self.offset(addend, 0)
    }

    /// The point moved vertically by `addend`.
    pub open spec fn spec_addy(self, addend: int) -> Point {
        self.offset(0, addend)
    }

    /// A tile-sized body anchored here lies on the screen.
    pub open spec fn spec_is_in_screen(self) -> bool {
        &&& LEVEL_MIN_X <= self.x <= LEVEL_MAX_X
        &&& LEVEL_MIN_Y <= self.y <= LEVEL_MAX_Y
    }

    /// The point moved by `dx` to the right and `dy` down.
    pub fn shifted(&self, dx: i32, dy: i32) -> (r: Point)
        requires
            i32::MIN <= self.x + dx <= i32::MAX,
            i32::MIN <= self.y + dy <= i32::MAX,
        ensures
            r == self.offset(dx as int, dy as int),
    {
        Point { x: self.x + dx, y: self.y + dy }
    }

    /// Whether a tile-sized body anchored at the point lies on the screen.
    pub fn on_screen(&self) -> (r: bool)
        ensures
            r == self.spec_is_in_screen(),
    {
        self.x >= LEVEL_MIN_X && self.x <= LEVEL_MAX_X && self.y >= LEVEL_MIN_Y && self.y
            <= LEVEL_MAX_Y
    }

    /// A point with the given coordinates.
    pub fn new(x: i32, y: i32) -> (r: Point)
        ensures
            r == (Point { x, y }),
    {
        Point { x, y }
    }
}

impl Default for Point {
    /// The top left corner of the screen.
    fn default() -> (r: Point)
        ensures
            r == (Point { x: 0, y: 0 }),
    {
        Point { x: 0, y: 0 }
    }
}

/// Corner and offset helpers of a point. Each one asks only that its own
/// sum stays inside `i32`.
pub trait PointMath: Sized {
    /// The point that the helpers work on.
    spec fn point(&self) -> Point;

    /// The rightmost pixel of the top row of the footprint.
    fn top_right(&self) -> (r: Point)
        requires
            self.point().x + TILE_WIDTH <= i32::MAX,
        ensures
            r == self.point().spec_top_right(),
    ;

    /// The middle of the top row of the footprint.
    fn top_middle(&self) -> (r: Point)
        requires
            self.point().x + TILE_WIDTH / 2 <= i32::MAX,
        ensures
            r == self.point().spec_top_middle(),
    ;

    /// The leftmost pixel of the bottom row of the footprint.
    fn bottom_left(&self) -> (r: Point)
        requires
            self.point().y + TILE_HEIGHT <= i32::MAX,
        ensures
            r == self.point().spec_bottom_left(),
    ;

    /// The middle of the bottom row of the footprint.
    fn bottom_middle(&self) -> (r: Point)
        requires
            self.point().x + TILE_WIDTH / 2 <= i32::MAX,
            self.point().y + TILE_HEIGHT <= i32::MAX,
        ensures
            r == self.point().spec_bottom_middle(),
    ;

    /// The rightmost pixel of the bottom row of the footprint.
    fn bottom_right(&self) -> (r: Point)
        requires
            self.point().x + TILE_WIDTH <= i32::MAX,
            self.point().y + TILE_HEIGHT <= i32::MAX,
        ensures
            r == self.point().spec_bottom_right(),
    ;

    /// The pixel just below the left end of the footprint.
    fn below_bottom_left(&self) -> (r: Point)
        requires
            self.point().y + TILE_HEIGHT <= i32::MAX,
        ensures
            r == self.point().spec_below_bottom_left(),
    ;

    /// The pixel half a tile below the anchor, in the anchor's column.
    fn below_bottom_middle(&self) -> (r: Point)
        requires
            self.point().y + TILE_HEIGHT / 2 <= i32::MAX,
        ensures
            r == self.point().spec_below_bottom_middle(),
    ;

    /// The pixel just below the right end of the footprint.
    fn below_bottom_right(&self) -> (r: Point)
        requires
            self.point().x + TILE_WIDTH <= i32::MAX,
            self.point().y + TILE_HEIGHT <= i32::MAX,
        ensures
            r == self.point().spec_below_bottom_right(),
    ;

    /// The point moved horizontally by `addend`.
    fn addx(&self, addend: i32) -> (r: Point)
        requires
            i32::MIN <= self.point().x + addend <= i32::MAX,
        ensures
            r == self.point().spec_addx(addend as int),
    ;

    /// The point moved vertically by `addend`.
    fn addy(&self, addend: i32) -> (r: Point)
        requires
            i32::MIN <= self.point().y + addend <= i32::MAX,
        ensures
            r == self.point().spec_addy(addend as int),
    ;

    /// Whether a tile-sized body anchored at the point lies on the screen.
    fn is_in_screen(&self) -> (r: bool)
        ensures
            r == self.point().spec_is_in_screen(),
    ;
}

impl PointMath for Point {
    open spec fn point(&self) -> Point {
        *self
    }

    fn top_right(&self) -> (r: Point) {
        Point { x: self.x + TILE_WIDTH - 1, y: self.y }
    }

    fn top_middle(&self) -> (r: Point) {
        Point { x: self.x + TILE_WIDTH / 2, y: self.y }
    }

    fn bottom_left(&self) -> (r: Point) {
        Point { x: self.x, y: self.y + TILE_HEIGHT - 1 }
    }

    fn bottom_middle(&self) -> (r: Point) {
        Point { x: self.x + TILE_WIDTH / 2, y: self.y + TILE_HEIGHT - 1 }
    }

    fn bottom_right(&self) -> (r: Point) {
        Point { x: self.x + TILE_WIDTH - 1, y: self.y + TILE_HEIGHT - 1 }
    }

    fn below_bottom_left(&self) -> (r: Point) {
        Point { x: self.x, y: self.y + TILE_HEIGHT }
    }

    fn below_bottom_middle(&self) -> (r: Point) {
        Point { x: self.x, y: self.y + TILE_HEIGHT / 2 }
    }

    fn below_bottom_right(&self) -> (r: Point) {
        Point { x: self.x + TILE_WIDTH - 1, y: self.y + TILE_HEIGHT }
    }

    fn addx(&self, addend: i32) -> (r: Point) {
        Point { x: self.x + addend, y: self.y }
    }

    fn addy(&self, addend: i32) -> (r: Point) {
        Point { x: self.x, y: self.y + addend }
    }

    fn is_in_screen(&self) -> (r: bool) {
        self.on_screen()
    }
}

} // verus!
