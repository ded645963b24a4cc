//! Tile geometry and the display list.
use vstd::prelude::*;
use vstd::string::StringSliceAdditionalSpecFns;
use crate::constants::{
    FONT_BASE_LINE, HALF_FONT_WIDTH, HEIGHT, LINE_HEIGHT, SPRITES_H, TILES_H, TILE_HEIGHT,
    TILE_WIDTH, WIDTH,
};
use crate::player_state::PlayerState;
use crate::fixed::{clip, clip128, trunc_div};
use crate::point_math::Point;

verus! {

/// The index of a sprite in the sprite sheet.
pub type Sprite = i32;

/// A colour of the palette.
#[derive(Clone, Copy, PartialEq, Eq, Structural, Debug)]
pub enum Color {
    Transparent,
    Black,
    Purple,
    Red,
    Orange,
    Yellow,
    LightGreen,
    Green,
    DarkGreen,
    DarkBlue,
    Blue,
    LightBlue,
    Cyan,
    White,
    LightGray,
    Gray,
    DarkGray,
}

/// The origin of the tile that holds `position`. Coordinates round towards
/// zero.
pub open spec fn origin_of(position: Point) -> Point {
    Point {
        x: (trunc_div(position.x as int, TILE_WIDTH as int) * TILE_WIDTH) as i32,
        y: (trunc_div(position.y as int, TILE_HEIGHT as int) * TILE_HEIGHT) as i32,
    }
}

/// The index, in the row-major tile array, of the tile that holds `point`.
/// Coordinates round towards zero, so a point just left of or above the
/// screen counts for the first column or row.
pub open spec fn tile_index(point: Point) -> int {
    trunc_div(point.y as int, TILE_WIDTH as int) * TILES_H + trunc_div(
        point.x as int,
        TILE_WIDTH as int,
    )
}

/// The origin of the tile that holds `position`.
pub fn get_origin_point_of_position(position: Point) -> (r: Point)
    ensures
        r == origin_of(position),
{
    Point { x: position.x / TILE_WIDTH * TILE_WIDTH, y: position.y / TILE_HEIGHT * TILE_HEIGHT }
}

/// The index of the tile that holds `point`.
pub fn get_tile_index(point: Point) -> (r: i32)
    requires
        point.in_reach(),
    ensures
        r == tile_index(point),
{
    let tile_x: i32 = point.x / TILE_WIDTH;
    let tile_y: i32 = point.y / TILE_WIDTH;
    tile_y * TILES_H + tile_x
}

/// What a line of text says. The host turns a label into characters.
#[derive(Clone, Copy, PartialEq, Eq, Debug)]
pub enum Label {
    /// The words themselves.
    Line(&'static str),
    /// The score.
    Points(i32),
    /// The name of a state of the player.
    State(PlayerState),
    /// A name and a whole number.
    Number(&'static str, i32),
    /// A name and a number of thousandths.
    Fraction(&'static str, i32),
    /// A name and a truth value.
    Flag(&'static str, bool),
}

/// One instruction of the display list.
#[derive(Clone, Copy, PartialEq, Eq, Debug)]
pub enum DrawCommand {
    /// Fill the screen with a colour.
    Clear(Color),
    /// Draw the title picture at the top left of the screen.
    Splash,
    /// Draw the tile-sized part of the sprite sheet that starts at `source`
    /// with its top left corner at `at`.
    Tile { source: Point, at: Point },
    /// Write a line of text with its base line starting at `position`.
    Text { label: Label, position: Point, color: Color },
}

/// Where sprite number `sprite` starts in the sprite sheet.
pub open spec fn sheet_origin(sprite: int) -> Point {
    Point {
        x: ((sprite - trunc_div(sprite, SPRITES_H as int) * SPRITES_H) * TILE_WIDTH) as i32,
        y: (trunc_div(sprite, SPRITES_H as int) * TILE_HEIGHT) as i32,
    }
}

/// The instruction that draws sprite number `sprite` at `point`.
pub open spec fn tile_command(sprite: Sprite, point: Point) -> DrawCommand {
    DrawCommand::Tile { source: sheet_origin(sprite as int), at: point }
}

/// The instruction that writes `label` at `position`.
pub open spec fn text_command(label: Label, position: Point, color: Color) -> DrawCommand {
    DrawCommand::Text { label, position, color }
}

/// The length of a line in bytes.
pub open spec fn line_length(line: &str) -> int {
    line.spec_bytes().len() as int
}

/// The row of the first of `count` lines that are centred on the screen.
pub open spec fn centered_top(count: int) -> int {
    HEIGHT / 2 + FONT_BASE_LINE - (count * LINE_HEIGHT) / 2
}

/// The instruction for line `i` of a message that is centred on the screen.
/// Coordinates saturate.
pub open spec fn centered_line(lines: Seq<&'static str>, color: Color, i: int) -> DrawCommand {
    text_command(
        Label::Line(lines[i]),
        Point {
            x: clip(WIDTH / 2 - line_length(lines[i]) * HALF_FONT_WIDTH),
            y: clip(centered_top(lines.len() as int) + i * LINE_HEIGHT),
        },
        color,
    )
}

/// The instruction for line `i` of a message at the left of the screen.
pub open spec fn left_line(lines: Seq<&'static str>, i: int) -> DrawCommand {
    text_command(
        Label::Line(lines[i]),
        Point { x: 4, y: clip(FONT_BASE_LINE + 4 + i * LINE_HEIGHT) },
        Color::Black,
    )
}

/// Adds the instruction that draws sprite number `sprite` at `point`.
pub fn draw_tile(list: &mut Vec<DrawCommand>, sprite: Sprite, point: Point)
    ensures
        final(list)@ == old(list)@.push(tile_command(sprite, point)),
{
    let row: i32 = sprite / SPRITES_H;
    let column: i32 = sprite - row * SPRITES_H;
    list.push(
        DrawCommand::Tile {
            source: Point { x: column * TILE_WIDTH, y: row * TILE_HEIGHT },
            at: point,
        },
    );
}

/// Adds a line of text in the colour `font_color` of the level.
pub fn display_text(list: &mut Vec<DrawCommand>, font_color: Color, text: Label, position: Point)
    ensures
        final(list)@ == old(list)@.push(text_command(text, position, font_color)),
{
    display_text_color(list, text, position, font_color);
}

/// Adds a line of text in the given colour.
pub fn display_text_color(
    list: &mut Vec<DrawCommand>,
    text: Label,
    position: Point,
    color: Color,
)
    ensures
        final(list)@ == old(list)@.push(text_command(text, position, color)),
{
    list.push(DrawCommand::Text { label: text, position, color });
}

/// Adds the lines of a message, each centred on the screen, in `color` or
/// else in the colour `font_color` of the level.
pub fn display_centered_message(
    list: &mut Vec<DrawCommand>,
    font_color: Color,
    color: Option<Color>,
    lines: &[&'static str],
)
    ensures
        final(list)@ == old(list)@ + Seq::new(
            lines@.len(),
            |i: int|
                centered_line(
                    lines@,
                    match color {
                        Some(c) => c,
                        None => font_color,
                    },
                    i,
                ),
        ),
{
    let color = match color {
        Some(c) => c,
        None => font_color,
    };
    let count = lines.len();
    let top: i128 = 84 - ((count as i128) * 8) / 2;
    let mut i: usize = 0;
    while i < count
        invariant
            i <= count,
            count == lines@.len(),
            top == centered_top(count as int),
            list@ == old(list)@ + Seq::new(i as nat, |k: int| centered_line(lines@, color, k)),
        decreases count - i,
    {
        let line = lines[i];
        display_text_color(
            list,
            Label::Line(line),
            Point {
                x: clip128(120 - (line.as_bytes().len() as i128) * 2),
                y: clip128(top + (i as i128) * 8),
            },
            color,
        );
        i += 1;
        assert(list@ =~= old(list)@ + Seq::new(
            i as nat,
            |k: int| centered_line(lines@, color, k),
        ));
    }
}

/// Adds the lines of a message at the left of the screen, in black.
pub fn display_left_message(list: &mut Vec<DrawCommand>, lines: &[&'static str])
    ensures
        final(list)@ == old(list)@ + Seq::new(lines@.len(), |i: int| left_line(lines@, i)),
{
    let count = lines.len();
    let mut i: usize = 0;
    while i < count
        invariant
            i <= count,
            count == lines@.len(),
            list@ == old(list)@ + Seq::new(i as nat, |k: int| left_line(lines@, k)),
        decreases count - i,
    {
        display_text_color(
            list,
            Label::Line(lines[i]),
            Point { x: 4, y: clip128(8 + (i as i128) * 8) },
            Color::Black,
        );
        i += 1;
        assert(list@ =~= old(list)@ + Seq::new(i as nat, |k: int| left_line(lines@, k)));
    }
}

} // verus!
