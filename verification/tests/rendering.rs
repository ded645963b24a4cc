use blutti::animation::Animation;
use blutti::blutti::Blutti;
use blutti::drawable::Drawable;
use blutti::drawing::{
    display_centered_message, display_left_message, display_text, display_text_color, draw_tile,
    Color, DrawCommand, Label,
};
use blutti::level::Level;
use blutti::monster::{Monster, MonsterCollision, MonsterMovement};
use blutti::particle::Particle;
use blutti::player_state::PlayerState;
use blutti::point_math::Point;
use blutti::rendering::{
    render_credits, render_died, render_gameover, render_info, render_playing, render_title,
    render_ui,
};
use blutti::state::State;
use blutti::vec2::Vec2;

fn tile(sprite_x: i32, sprite_y: i32, x: i32, y: i32) -> DrawCommand {
    DrawCommand::Tile { source: Point::new(sprite_x, sprite_y), at: Point::new(x, y) }
}

fn text(line: &'static str, x: i32, y: i32, color: Color) -> DrawCommand {
    DrawCommand::Text { label: Label::Line(line), position: Point::new(x, y), color }
}

fn state() -> State {
    let mut tiles = vec![0; 600];
    tiles[0] = 4;
    tiles[31] = 19;
    tiles[599] = 256;
    let monsters = vec![Monster::new(
        Point::new(50, 60),
        Vec2::new(-1, 0),
        MonsterMovement::Moving,
        MonsterCollision::Deadly,
        false,
        8,
        8,
        Animation::looping(vec![32, 33], 10),
        Animation::looping(vec![34, 35], 10),
    )];
    let level = Level::load_level(
        tiles,
        Color::DarkBlue,
        Color::Yellow,
        1,
        Point::new(16, 24),
        0,
        200,
        monsters,
    )
    .unwrap();
    State::new(level)
}

fn scene() -> Vec<DrawCommand> {
    vec![
        DrawCommand::Clear(Color::DarkBlue),
        tile(24, 0, 0, 0),
        tile(16, 8, 8, 8),
        tile(120, 120, 232, 152),
        tile(48, 56, 16, 24),
    ]
}

fn ui() -> Vec<DrawCommand> {
    vec![
        DrawCommand::Text {
            label: Label::Points(0),
            position: Point::new(4, 8),
            color: Color::Yellow,
        },
        tile(88, 0, 229, 4),
        tile(88, 0, 221, 4),
        tile(88, 0, 213, 4),
    ]
}

#[test]
fn a_tile_is_cut_from_the_sheet() {
    let mut list = Vec::new();
    draw_tile(&mut list, 0, Point::new(1, 2));
    draw_tile(&mut list, 18, Point::new(3, 4));
    draw_tile(&mut list, 255, Point::new(5, 6));
    assert_eq!(list, vec![tile(0, 0, 1, 2), tile(16, 8, 3, 4), tile(120, 120, 5, 6)]);
}

#[test]
fn text_takes_the_colour_it_is_given() {
    let mut list = Vec::new();
    display_text(&mut list, Color::Red, Label::Points(7), Point::new(1, 2));
    display_text_color(&mut list, Label::Line("hi"), Point::new(3, 4), Color::Green);
    assert_eq!(
        list,
        vec![
            DrawCommand::Text {
                label: Label::Points(7),
                position: Point::new(1, 2),
                color: Color::Red
            },
            text("hi", 3, 4, Color::Green),
        ]
    );
}

#[test]
fn a_centred_message() {
    let mut list = vec![DrawCommand::Splash];
    display_centered_message(&mut list, Color::Red, None, &["ab", "abcdef", ""]);
    assert_eq!(
        list,
        vec![
            DrawCommand::Splash,
            text("ab", 116, 72, Color::Red),
            text("abcdef", 108, 80, Color::Red),
            text("", 120, 88, Color::Red),
        ]
    );
    let mut other = Vec::new();
    display_centered_message(&mut other, Color::Red, Some(Color::Cyan), &["x"]);
    assert_eq!(other, vec![text("x", 118, 80, Color::Cyan)]);
    display_centered_message(&mut other, Color::Red, None, &[]);
    assert_eq!(other.len(), 1);
}

#[test]
fn a_message_at_the_left() {
    let mut list = Vec::new();
    display_left_message(&mut list, &["one", "two"]);
    assert_eq!(list, vec![text("one", 4, 8, Color::Black), text("two", 4, 16, Color::Black)]);
}

#[test]
fn the_title_screen() {
    assert_eq!(
        render_title(),
        vec![DrawCommand::Splash, text("Press (E) to start!", 82, 80, Color::White)]
    );
}

#[test]
fn the_credits_and_the_help() {
    let credits = render_credits();
    assert_eq!(credits.len(), 9);
    assert_eq!(credits[0], DrawCommand::Clear(Color::White));
    assert_eq!(credits[1], text("Credits:", 4, 8, Color::Black));
    assert_eq!(credits[8], text("Press <Y> to go back to game", 4, 64, Color::Black));
    let info = render_info();
    assert_eq!(info.len(), 6);
    assert_eq!(info[2], text("Press <A> to jump", 4, 16, Color::Black));
}

#[test]
fn the_status_line() {
    let mut s = state();
    let mut list = Vec::new();
    render_ui(&s, &mut list);
    assert_eq!(list, ui());
    s.blutti.lives = 0;
    s.blutti.points = 12;
    let mut none = Vec::new();
    render_ui(&s, &mut none);
    assert_eq!(
        none,
        vec![DrawCommand::Text {
            label: Label::Points(12),
            position: Point::new(4, 8),
            color: Color::Yellow
        }]
    );
    s.blutti.lives = -4;
    let mut negative = Vec::new();
    render_ui(&s, &mut negative);
    assert_eq!(negative.len(), 1);
}

#[test]
fn the_running_game() {
    let mut s = state();
    s.level.add_particle(Particle::stationary(Point::new(70, 80), Animation::once(vec![21], 5)));
    let mut expected = scene();
    expected.push(tile(16, 16, 50, 60));
    expected.push(tile(40, 8, 70, 80));
    expected.extend(ui());
    assert_eq!(render_playing(&s), expected);
}

#[test]
fn the_screen_after_a_death() {
    let s = state();
    let mut expected = scene();
    expected.extend(ui());
    expected.push(text("You died!", 102, 76, Color::Yellow));
    expected.push(text("Press (E) to restart level", 68, 84, Color::Yellow));
    assert_eq!(render_died(&s), expected);
}

#[test]
fn the_screen_at_the_end_of_a_game() {
    let s = state();
    let won = render_gameover(&s, true);
    let lost = render_gameover(&s, false);
    let n = won.len();
    assert_eq!(won[n - 2], text("You win!", 104, 76, Color::Yellow));
    assert_eq!(won[n - 1], text("Press (E) to start next level!", 60, 84, Color::Yellow));
    assert_eq!(lost[n - 2], text("Game Over!", 100, 76, Color::Yellow));
    assert_eq!(lost[n - 1], text("Press (E) to start again!", 70, 84, Color::Yellow));
    assert_eq!(won[..n - 2], lost[..n - 2]);
}

#[test]
fn a_finished_animation_hides_the_player() {
    let mut s = state();
    s.blutti.animation.finished = true;
    let mut list = Vec::new();
    s.blutti.draw(&s.level, &mut list);
    assert!(list.is_empty());
}

#[test]
fn the_debug_overlay() {
    let mut s = state();
    s.blutti.debug = true;
    s.blutti.position = Point::new(200, 100);
    s.blutti.state = PlayerState::FallingLeft;
    s.blutti.velocity = Vec2::new(-250, 1500);
    s.blutti.jump_timer = 3;
    let mut list = Vec::new();
    s.blutti.draw(&s.level, &mut list);
    assert_eq!(list.len(), 13);
    let line = |label: Label, y: i32| DrawCommand::Text {
        label,
        position: Point::new(192, y),
        color: Color::Yellow,
    };
    assert_eq!(list[1], line(Label::State(PlayerState::FallingLeft), 96));
    assert_eq!(list[2], line(Label::Number("Y", 100), 88));
    assert_eq!(list[3], line(Label::Number("X", 200), 80));
    assert_eq!(list[4], line(Label::Fraction("VX", -250), 72));
    assert_eq!(list[5], line(Label::Fraction("VY", 1500), 64));
    assert_eq!(list[6], line(Label::Number("JT", 3), 56));
    assert_eq!(list[10], line(Label::Flag("OnLadder", false), 24));
    assert_eq!(list[12], line(Label::Flag("Climbing", false), 8));
    let mut only = Vec::new();
    Blutti::with_start_position(Point::new(10, 50)).draw_debug(&s.level, &mut only);
    assert_eq!(only.len(), 12);
    assert_eq!(
        only[0],
        DrawCommand::Text {
            label: Label::State(PlayerState::Idle),
            position: Point::new(10, 46),
            color: Color::Yellow
        }
    );
}

#[test]
fn monsters_show_the_animation_of_their_direction() {
    let s = state();
    let mut list = Vec::new();
    s.level.draw_children(&mut list);
    assert_eq!(list, vec![tile(16, 16, 50, 60)]);
    let mut m = s.level.monsters[0].clone();
    m.velocity = Vec2::new(1, 0);
    let mut forward = Vec::new();
    m.draw(&s.level, &mut forward);
    assert_eq!(forward, vec![tile(0, 16, 50, 60)]);
    m.draw_debug(&s.level, &mut forward);
    assert_eq!(forward.len(), 1);
}
