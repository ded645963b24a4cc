//! Dimensions of the world and the tunable physical constants.
use vstd::prelude::*;

verus! {

/// Width of one tile in pixels.
pub const TILE_WIDTH: i32 = 8;

/// Height of one tile in pixels.
pub const TILE_HEIGHT: i32 = 8;

/// Sprites per row of the sprite sheet.
pub const SPRITES_H: i32 = 16;

/// Rows of the sprite sheet.
pub const SPRITES_V: i32 = 16;

/// Tiles per row of a level.
pub const TILES_H: i32 = 30;

/// Rows of tiles of a level.
pub const TILES_V: i32 = 20;

/// Width of the screen in pixels.
pub const WIDTH: i32 = 240;

/// Height of the screen in pixels.
pub const HEIGHT: i32 = 160;

/// Half the advance of one glyph of the font, used to centre text.
pub const HALF_FONT_WIDTH: i32 = 2;

/// Height of one glyph.
pub const FONT_HEIGHT: i32 = 6;

/// Distance from the top of a line of text to its base line.
pub const FONT_BASE_LINE: i32 = 4;

/// Distance between two lines of text.
pub const LINE_HEIGHT: i32 = 8;

/// Number of sprites that have an entry in the collider table.
pub const COLLIDER_COUNT: i32 = 256;

/// The sprite that stands in for a tile outside the grid. Its collider is
/// solid, so that an actor on the bottom row is not taken to be falling.
pub const BORDER_SPRITE: i32 = 3;

/// Largest absolute coordinate of an actor's position. Far beyond the
/// screen; it keeps the corner arithmetic inside `i32`.
pub const COORD_LIMIT: i32 = 1_000_000;

/// Largest absolute coordinate of a point that can be probed: a corner of
/// the largest footprint at the farthest position.
pub const PROBE_LIMIT: i32 = 2_000_016;

/// Downward acceleration of a falling body, in thousandths of a pixel per
/// tick and tick.
pub const GRAVITY_ACCELERATION: i32 = 500;

/// Terminal falling speed, in thousandths of a pixel per tick.
pub const GRAVITY_MAX: i32 = 2000;

/// Smallest coordinate of a position on the screen.
pub const LEVEL_MIN_X: i32 = 0;

/// Smallest coordinate of a position on the screen.
pub const LEVEL_MIN_Y: i32 = 0;

/// Largest horizontal coordinate at which a tile-sized body is on the screen.
pub const LEVEL_MAX_X: i32 = 232;

/// Largest vertical coordinate at which a tile-sized body is on the screen.
pub const LEVEL_MAX_Y: i32 = 152;

/// The sprite drawn for one life in the status line.
pub const HEART_SPRITE: i32 = 11;

} // verus!
