//! The display list of each screen.
use vstd::prelude::*;
use crate::constants::{FONT_BASE_LINE, HEART_SPRITE, TILE_WIDTH, WIDTH};
use crate::drawable::Drawable;
use crate::drawing::{
    centered_line, display_centered_message, display_left_message, display_text, draw_tile,
    left_line, text_command, tile_command, Color, DrawCommand, Label,
};
use crate::fixed::{clip, clip64};
use crate::point_math::Point;
use crate::state::State;

verus! {

/// The message of the title screen.
pub open spec fn title_lines() -> Seq<&'static str> {
    seq!["Press (E) to start!"]
}

/// The message after a death.
pub open spec fn died_lines() -> Seq<&'static str> {
    seq!["You died!", "Press (E) to restart level"]
}

/// The message after a level was finished.
pub open spec fn won_lines() -> Seq<&'static str> {
    seq!["You win!", "Press (E) to start next level!"]
}

/// The message after the last life was lost.
pub open spec fn lost_lines() -> Seq<&'static str> {
    seq!["Game Over!", "Press (E) to start again!"]
}

/// The credits.
pub open spec fn credits_lines() -> Seq<&'static str> {
    seq![
        "Credits:",
        "Programming: Olle Wreede",
        "Graphics: Olle Wreede",
        "Level design: Olle Wreede",
        "Music: Zane Little Music",
        "SFX: @Shades, Luke.RUSTLTD, sauer2",
        "",
        "Press <Y> to go back to game",
    ]
}

/// The help screen.
pub open spec fn info_lines() -> Seq<&'static str> {
    seq![
        "Controls:",
        "Press <A> to jump",
        "Press <X> to dash",
        "",
        "Press <Y> to go back to game",
    ]
}

/// The instructions of a message centred on the screen.
pub open spec fn centered(lines: Seq<&'static str>, color: Color) -> Seq<DrawCommand> {
    Seq::new(lines.len(), |i: int| centered_line(lines, color, i))
}

/// The instructions of a message at the left of the screen.
pub open spec fn left_aligned(lines: Seq<&'static str>) -> Seq<DrawCommand> {
    Seq::new(lines.len(), |i: int| left_line(lines, i))
}

/// The instruction that draws heart number `heart`, counted from the right
/// edge of the screen.
pub open spec fn heart(heart: int) -> DrawCommand {
    tile_command(
        HEART_SPRITE,
        Point { x: clip(WIDTH - heart * TILE_WIDTH - TILE_WIDTH - 3), y: 4 },
    )
}

/// The status line: the score, and one heart for each life.
pub open spec fn ui(state: &State) -> Seq<DrawCommand> {
    seq![
        text_command(
            Label::Points(state.blutti.points),
            Point { x: 4, y: (FONT_BASE_LINE + 4) as i32 },
            state.level.font_color,
        ),
    ] + Seq::new(
        if state.blutti.lives > 0 {
            state.blutti.lives as nat
        } else {
            0
        },
        |h: int| heart(h),
    )
}

/// The level, the player and the status line.
pub open spec fn scene(state: &State) -> Seq<DrawCommand> {
    state.level@.drawn() + state.blutti@.drawn(state.level@) + ui(state)
}

/// The title screen: the title picture and a message in white.
pub fn render_title() -> (r: Vec<DrawCommand>)
    ensures
        r@ == seq![DrawCommand::Splash] + centered(title_lines(), Color::White),
{
    let mut list: Vec<DrawCommand> = Vec::new();
    list.push(DrawCommand::Splash);
    let lines: [&'static str; 1] = ["Press (E) to start!"];
    assert(lines@ =~= title_lines());
    display_centered_message(&mut list, Color::White, Some(Color::White), lines.as_slice());
    list
}

/// The screen after a death: the scene and a message.
pub fn render_died(state: &State) -> (r: Vec<DrawCommand>)
    requires
        state.wf(),
    ensures
        r@ == scene(state) + centered(died_lines(), state.level.font_color),
{
    let mut list: Vec<DrawCommand> = Vec::new();
    render_scene(state, &mut list);
    let lines: [&'static str; 2] = ["You died!", "Press (E) to restart level"];
    assert(lines@ =~= died_lines());
    display_centered_message(&mut list, state.level.font_color, None, lines.as_slice());
    list
}

/// The screen at the end of a game: the scene and a message that says
/// whether the level was won.
pub fn render_gameover(state: &State, won: bool) -> (r: Vec<DrawCommand>)
    requires
        state.wf(),
    ensures
        r@ == scene(state) + centered(
            if won {
                won_lines()
            } else {
                lost_lines()
            },
            state.level.font_color,
        ),
{
    let mut list: Vec<DrawCommand> = Vec::new();
    render_scene(state, &mut list);
    if won {
        let lines: [&'static str; 2] = ["You win!", "Press (E) to start next level!"];
        assert(lines@ =~= won_lines());
        display_centered_message(&mut list, state.level.font_color, None, lines.as_slice());
    } else {
        let lines: [&'static str; 2] = ["Game Over!", "Press (E) to start again!"];
        assert(lines@ =~= lost_lines());
        display_centered_message(&mut list, state.level.font_color, None, lines.as_slice());
    }
    list
}

/// Adds the status line.
pub fn render_ui(state: &State, list: &mut Vec<DrawCommand>)
    ensures
        final(list)@ == old(list)@ + ui(state),
{
    display_text(
        list,
        state.level.font_color,
        Label::Points(state.blutti.points),
        Point { x: 4, y: FONT_BASE_LINE + 4 },
    );
    let ghost first = list@;
    let lives: i32 = state.blutti.lives;
    let mut h: i32 = 0;
    while h < lives
        invariant
            0 <= h,
            h <= lives || lives < 0,
            lives <= 0 ==> h == 0,
            lives == state.blutti.lives,
            list@ == first + Seq::new(h as nat, |k: int| heart(k)),
        decreases lives - h,
    {
        let x: i32 = clip64(
            (WIDTH as i64) - (h as i64) * (TILE_WIDTH as i64) - (TILE_WIDTH as i64) - 3,
        );
        draw_tile(list, HEART_SPRITE, Point { x, y: 4 });
        h += 1;
        assert(list@ =~= first + Seq::new(h as nat, |k: int| heart(k)));
    }
    assert(list@ =~= old(list)@ + ui(state));
}

/// The credits on white.
pub fn render_credits() -> (r: Vec<DrawCommand>)
    ensures
        r@ == seq![DrawCommand::Clear(Color::White)] + left_aligned(credits_lines()),
{
    let mut list: Vec<DrawCommand> = Vec::new();
    list.push(DrawCommand::Clear(Color::White));
    let lines: [&'static str; 8] = [
        "Credits:",
        "Programming: Olle Wreede",
        "Graphics: Olle Wreede",
        "Level design: Olle Wreede",
        "Music: Zane Little Music",
        "SFX: @Shades, Luke.RUSTLTD, sauer2",
        "",
        "Press <Y> to go back to game",
    ];
    assert(lines@ =~= credits_lines());
    display_left_message(&mut list, lines.as_slice());
    list
}

/// The help screen on white.
pub fn render_info() -> (r: Vec<DrawCommand>)
    ensures
        r@ == seq![DrawCommand::Clear(Color::White)] + left_aligned(info_lines()),
{
    let mut list: Vec<DrawCommand> = Vec::new();
    list.push(DrawCommand::Clear(Color::White));
    let lines: [&'static str; 5] = [
        "Controls:",
        "Press <A> to jump",
        "Press <X> to dash",
        "",
        "Press <Y> to go back to game",
    ];
    assert(lines@ =~= info_lines());
    display_left_message(&mut list, lines.as_slice());
    list
}

/// The screen of the running game: the level, the player, the monsters and
/// particles, and the status line.
pub fn render_playing(state: &State) -> (r: Vec<DrawCommand>)
    requires
        state.wf(),
    ensures
        r@ == state.level@.drawn() + state.blutti@.drawn(state.level@)
            + state.level@.children_drawn() + ui(state),
{
    let mut list: Vec<DrawCommand> = Vec::new();
    state.level.draw(&mut list);
    state.blutti.draw(&state.level, &mut list);
    state.level.draw_children(&mut list);
    render_ui(state, &mut list);
    assert(list@ =~= state.level@.drawn() + state.blutti@.drawn(state.level@)
        + state.level@.children_drawn() + ui(state));
    list
}

/// Adds the level, the player and the status line.
fn render_scene(state: &State, list: &mut Vec<DrawCommand>)
    requires
        state.wf(),
        old(list)@.len() == 0,
    ensures
        final(list)@ == scene(state),
{
    state.level.draw(list);
    state.blutti.draw(&state.level, list);
    render_ui(state, list);
    assert(list@ =~= scene(state));
}

} // verus!
