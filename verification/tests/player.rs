use blutti::animation::Animation;
use blutti::blutti::Blutti;
use blutti::collision::Collision;
use blutti::direction::{DirectionX, DirectionY, StopDirection};
use blutti::drawing::Color;
use blutti::functions::{Badge, Outbox, Progress, Sound};
use blutti::level::Level;
use blutti::monster::{Monster, MonsterCollision, MonsterMovement};
use blutti::particle::ParticleMovement;
use blutti::player_state::PlayerState;
use blutti::point_math::Point;
use blutti::tile_collider::TileCollider;
use blutti::updateable::Updateable;
use blutti::vec2::Vec2;

const FULL: i32 = 4;
const LADDER: i32 = 10;
const STAR: i32 = 11;
const EXTRA_LIFE: i32 = 12;
const EXIT: i32 = 13;
const DEADLY: i32 = 15;
const SLIPPERY: i32 = 26;
const CONVEYOR: i32 = 59;

/// A level with a floor of the given tile in row 10 and the given extras.
fn level_on(floor: i32, placed: &[(usize, usize, i32)], monsters: Vec<Monster>) -> Level {
    let mut tiles = vec![0; 600];
    for column in 0..30 {
        tiles[10 * 30 + column] = floor;
    }
    for &(column, row, tile) in placed {
        tiles[row * 30 + column] = tile;
    }
    Level::load_level(tiles, Color::Black, Color::White, 1, Point::new(8, 8), 0, 200, monsters)
        .unwrap()
}

fn monster(x: i32, y: i32, collision: MonsterCollision) -> Monster {
    Monster::new(
        Point::new(x, y),
        Vec2::zero(),
        MonsterMovement::Moving,
        collision,
        false,
        8,
        8,
        Animation::looping(vec![32, 33], 10),
        Animation::looping(vec![34, 35], 10),
    )
}

/// A player that stands on the floor of row 10.
fn standing() -> Blutti {
    Blutti::with_start_position(Point::new(80, 72))
}

#[test]
fn a_new_player() {
    let b = Blutti::default();
    assert_eq!(b.position, Point::new(112, 144));
    assert_eq!(b.start_position, Point::new(112, 144));
    assert_eq!(b.state, PlayerState::Idle);
    assert_eq!(b.direction_x, DirectionX::Right);
    assert_eq!(b.direction_y, DirectionY::Up);
    assert_eq!(b.lives, 3);
    assert_eq!(b.points, 0);
    assert_eq!(b.stars, 0);
    assert_eq!(b.movement_modifier, 1000);
    assert_eq!(b.current_level, 1);
    assert!(!b.died && !b.finished_level && !b.iddqd && !b.debug);
    assert_eq!(b.animation.sprites, vec![118, 119]);
    assert!(b.is_alive());
    let c = Blutti::with_start_position(Point::new(8, 16));
    assert_eq!(c.position, Point::new(8, 16));
    assert_eq!(c.start_position, Point::new(8, 16));
    assert_eq!(c.lives, 3);
}

#[test]
fn a_player_for_the_next_level_keeps_points_and_lives() {
    let mut b = standing();
    b.points = 17;
    b.lives = 5;
    b.stars = 3;
    b.state = PlayerState::Falling;
    let next = b.at_new_level(Point::new(24, 32), 4);
    assert_eq!(next.points, 17);
    assert_eq!(next.lives, 5);
    assert_eq!(next.stars, 0);
    assert_eq!(next.current_level, 4);
    assert_eq!(next.position, Point::new(24, 32));
    assert_eq!(next.start_position, Point::new(24, 32));
    assert_eq!(next.state, PlayerState::Idle);
}

#[test]
fn lives_and_points_saturate() {
    let mut b = standing();
    assert_eq!(b.add_points(5), 5);
    assert_eq!(b.add_points(i32::MAX), i32::MAX);
    assert_eq!(b.add_lives(-3), 0);
    assert!(!b.is_alive());
    assert_eq!(b.add_lives(i32::MIN), i32::MIN);
}

#[test]
fn moving_right_starts_a_run() {
    let mut level = level_on(FULL, &[], vec![]);
    let out = Outbox::new();
    let mut b = standing();
    b.move_right(&mut level, &out, 500);
    assert_eq!(b.state, PlayerState::RunningRight);
    assert_eq!(b.movement_modifier, 500);
    assert_eq!(b.animation.sprites, vec![114, 115]);
    // no turn, so no dust
    assert!(level.particles.is_empty());
}

#[test]
fn turning_raises_dust() {
    let mut level = level_on(FULL, &[], vec![]);
    let out = Outbox::new();
    let mut b = standing();
    b.move_left(&mut level, &out, 1000);
    assert_eq!(b.direction_x, DirectionX::Left);
    assert_eq!(b.state, PlayerState::RunningLeft);
    assert_eq!(b.animation.sprites, vec![112, 113]);
    assert_eq!(level.particles.len(), 1);
    assert_eq!(level.particles[0].position, Point::new(80, 77));
    assert_eq!(level.particles[0].animation.sprites, vec![76, 77, 78, 79]);
    assert_eq!(level.particles[0].movement, ParticleMovement::Stationary);
    assert!(!level.particles[0].animation.looping);
    b.move_right(&mut level, &out, 1000);
    assert_eq!(level.particles.len(), 2);
    assert_eq!(level.particles[1].position, Point::new(87, 77));
    assert_eq!(level.particles[1].animation.sprites, vec![88, 89, 90, 91]);
    // a run goes on in the new direction only once it was let go
    assert_eq!(b.state, PlayerState::RunningLeft);
}

#[test]
fn moving_in_the_air_steers_the_fall_or_the_jump() {
    let mut level = level_on(FULL, &[], vec![]);
    let out = Outbox::new();
    let mut b = Blutti::with_start_position(Point::new(80, 30));
    b.state = PlayerState::Falling;
    b.move_left(&mut level, &out, 1000);
    assert_eq!(b.state, PlayerState::FallingLeft);
    b.state = PlayerState::Jumping;
    b.move_right(&mut level, &out, 1000);
    assert_eq!(b.state, PlayerState::JumpingRight);
    b.state = PlayerState::JumpingStop;
    b.move_right(&mut level, &out, 1000);
    assert_eq!(b.state, PlayerState::JumpingStop);
}

#[test]
fn a_run_accelerates_by_half_a_pixel_per_tick() {
    let mut level = level_on(FULL, &[], vec![]);
    let mut out = Outbox::new();
    let mut b = standing();
    b.move_right(&mut level, &out, 1000);
    b.update(&mut level, &mut out);
    assert_eq!(b.velocity, Vec2::new(500, 0));
    assert_eq!(b.position, Point::new(81, 72));
    assert_eq!(b.remainder, Vec2::new(-500, 0));
    b.update(&mut level, &mut out);
    assert_eq!(b.velocity, Vec2::new(1000, 0));
    assert_eq!(b.position, Point::new(82, 72));
    assert_eq!(b.state, PlayerState::RunningRight);
}

#[test]
fn the_speed_factor_scales_acceleration_and_target() {
    let level = level_on(FULL, &[], vec![]);
    let mut b = standing();
    b.state = PlayerState::RunningLeft;
    b.direction_x = DirectionX::Left;
    b.movement_modifier = 500;
    b.update_horizontal_velocity(&level);
    assert_eq!(b.velocity.x, -250);
    b.velocity.x = -900;
    b.update_horizontal_velocity(&level);
    assert_eq!(b.velocity.x, -1000);
    b.state = PlayerState::DashingRight;
    b.movement_modifier = 1000;
    b.velocity.x = 7500;
    b.update_horizontal_velocity(&level);
    assert_eq!(b.velocity.x, 8000);
    b.state = PlayerState::Idle;
    b.update_horizontal_velocity(&level);
    assert_eq!(b.velocity.x, 0);
}

#[test]
fn stopping_decelerates_without_changing_sign() {
    let level = level_on(FULL, &[], vec![]);
    let mut b = standing();
    b.state = PlayerState::RunningStop;
    b.direction_x = DirectionX::Right;
    b.velocity.x = 700;
    b.update_horizontal_velocity(&level);
    assert_eq!(b.velocity.x, 200);
    b.update_horizontal_velocity(&level);
    assert_eq!(b.velocity.x, 0);
    b.direction_x = DirectionX::Left;
    b.velocity.x = -300;
    b.update_horizontal_velocity(&level);
    assert_eq!(b.velocity.x, 0);
}

#[test]
fn vertical_velocities_of_the_states() {
    let mut b = standing();
    b.state = PlayerState::Jumping;
    b.update_vertical_velocity();
    assert_eq!(b.velocity.y, -1500);
    b.update_vertical_velocity();
    assert_eq!(b.velocity.y, -2000);
    b.state = PlayerState::JumpingStop;
    b.update_vertical_velocity();
    assert_eq!(b.velocity.y, 0);
    b.state = PlayerState::Falling;
    b.update_vertical_velocity();
    assert_eq!(b.velocity.y, 500);
    b.velocity.y = 1800;
    b.update_vertical_velocity();
    assert_eq!(b.velocity.y, 2000);
    b.state = PlayerState::ClimbingUp;
    b.velocity.y = 0;
    b.update_vertical_velocity();
    assert_eq!(b.velocity.y, -400);
    b.state = PlayerState::ClimbingDown;
    b.velocity.y = 900;
    b.update_vertical_velocity();
    assert_eq!(b.velocity.y, 1000);
    b.state = PlayerState::ClimbingStop;
    b.velocity.y = 300;
    b.update_vertical_velocity();
    assert_eq!(b.velocity.y, 100);
    b.state = PlayerState::RunningRight;
    b.update_vertical_velocity();
    assert_eq!(b.velocity.y, 0);
}

#[test]
fn letting_go_of_the_direction() {
    let level = level_on(FULL, &[], vec![]);
    let mut b = standing();
    b.state = PlayerState::RunningLeft;
    b.stop(&level);
    assert_eq!(b.state, PlayerState::RunningStop);
    assert_eq!(b.stop_timer, 4);
    b.state = PlayerState::FallingRight;
    b.stop(&level);
    assert_eq!(b.state, PlayerState::Falling);
    b.state = PlayerState::ClimbingDown;
    b.stop(&level);
    assert_eq!(b.state, PlayerState::ClimbingStop);
    b.state = PlayerState::ClimbingSideways;
    b.stop(&level);
    assert_eq!(b.state, PlayerState::ClimbingSidewaysStop);
    b.state = PlayerState::Jumping;
    b.stop(&level);
    assert_eq!(b.state, PlayerState::Jumping);
}

#[test]
fn on_a_slippery_tile_the_run_goes_on() {
    let level = level_on(SLIPPERY, &[], vec![]);
    let mut b = standing();
    b.state = PlayerState::RunningLeft;
    b.stop(&level);
    assert_eq!(b.state, PlayerState::RunningLeft);
    assert_eq!(b.stop_timer, 0);
}

#[test]
fn a_run_that_was_let_go_stops_after_four_ticks() {
    let mut level = level_on(FULL, &[], vec![]);
    let mut out = Outbox::new();
    let mut b = standing();
    b.state = PlayerState::RunningRight;
    b.velocity = Vec2::new(2000, 0);
    b.remainder = Vec2::new(100, 0);
    b.stop(&level);
    for left in [3, 2, 1, 0] {
        b.update(&mut level, &mut out);
        if b.state == PlayerState::RunningStop {
            assert_eq!(b.stop_timer, left);
        }
    }
    b.update(&mut level, &mut out);
    assert_eq!(b.state, PlayerState::Idle);
    assert_eq!(b.velocity.x, 0);
}

#[test]
fn a_jump_from_the_ground() {
    let mut level = level_on(FULL, &[], vec![]);
    let mut out = Outbox::new();
    let mut b = standing();
    b.jump_buffer_timer = 1;
    b.start_jump(&mut level, &mut out);
    assert_eq!(b.state, PlayerState::Jumping);
    assert_eq!(b.jump_max_time, 9);
    assert_eq!(b.jump_buffer_timer, 0);
    assert_eq!(out.fx, Some(Sound::Jump));
    assert_eq!(level.particles.len(), 1);
    assert_eq!(level.particles[0].position, Point::new(80, 79));
    assert_eq!(level.particles[0].animation.sprites, vec![80, 81, 82, 83]);
    assert_eq!(level.particles[0].animation.time_per_frame, 5);
}

#[test]
fn a_jump_from_a_run_keeps_the_direction() {
    let mut level = level_on(FULL, &[], vec![]);
    let mut out = Outbox::new();
    let mut b = standing();
    b.state = PlayerState::RunningLeft;
    b.direction_x = DirectionX::Left;
    b.start_jump(&mut level, &mut out);
    assert_eq!(b.state, PlayerState::JumpingLeft);
    assert_eq!(level.particles[0].animation.sprites, vec![84, 85, 86, 87]);
    let mut c = standing();
    c.state = PlayerState::RunningRight;
    c.start_jump(&mut level, &mut out);
    assert_eq!(c.state, PlayerState::JumpingRight);
}

#[test]
fn a_jump_from_a_slippery_tile_is_half_as_high() {
    let mut level = level_on(SLIPPERY, &[], vec![]);
    let mut out = Outbox::new();
    let mut b = standing();
    b.start_jump(&mut level, &mut out);
    assert_eq!(b.state, PlayerState::Jumping);
    assert_eq!(b.jump_max_time, 4);
}

#[test]
fn coyote_time_lasts_five_ticks() {
    for (fallen, jumps) in [(0, true), (4, true), (5, false), (6, false), (40, false)] {
        let mut level = level_on(FULL, &[], vec![]);
        let mut out = Outbox::new();
        let mut b = Blutti::with_start_position(Point::new(80, 30));
        b.state = PlayerState::FallingLeft;
        b.fall_timer = fallen;
        b.start_jump(&mut level, &mut out);
        if jumps {
            assert_eq!(b.state, PlayerState::Jumping);
            assert_eq!(out.fx, Some(Sound::Jump));
            assert_eq!(b.jump_buffer_timer, 0);
        } else {
            assert_eq!(b.state, PlayerState::FallingLeft);
            assert_eq!(out.fx, None);
            assert_eq!(b.jump_buffer_timer, 2);
            assert!(level.particles.is_empty());
        }
    }
}

#[test]
fn in_the_air_without_falling_the_jump_is_only_remembered() {
    let mut level = level_on(FULL, &[], vec![]);
    let mut out = Outbox::new();
    let mut b = Blutti::with_start_position(Point::new(80, 30));
    b.state = PlayerState::JumpingStop;
    b.start_jump(&mut level, &mut out);
    assert_eq!(b.state, PlayerState::JumpingStop);
    assert_eq!(b.jump_buffer_timer, 2);
}

/// A player that falls at a pixel per tick and is `height` pixels above the
/// floor of row 10 presses jump and falls on.
fn press_jump_above_the_floor(height: i32, ticks: usize) -> (Blutti, Outbox) {
    let mut level = level_on(FULL, &[], vec![]);
    let mut out = Outbox::new();
    let mut b = Blutti::with_start_position(Point::new(80, 72 - height));
    b.state = PlayerState::Falling;
    b.fall_timer = 10;
    b.velocity = Vec2::new(0, 1000);
    b.start_jump(&mut level, &mut out);
    assert_eq!(b.jump_buffer_timer, 2);
    for _ in 0..ticks {
        assert_eq!(out.fx, None);
        b.update(&mut level, &mut out);
    }
    (b, out)
}

#[test]
fn a_jump_pressed_on_the_tick_of_landing_is_made() {
    // the first tick covers two pixels
    let (b, out) = press_jump_above_the_floor(2, 1);
    assert_eq!(b.position, Point::new(80, 72));
    assert_eq!(b.state, PlayerState::Jumping);
    assert_eq!(out.fx, Some(Sound::Jump));
}

#[test]
fn a_jump_pressed_one_tick_before_landing_is_made() {
    // two pixels in each of the first two ticks
    let (b, out) = press_jump_above_the_floor(4, 2);
    assert_eq!(b.position, Point::new(80, 72));
    assert_eq!(b.state, PlayerState::Jumping);
    assert_eq!(out.fx, Some(Sound::Jump));
}

#[test]
fn a_jump_pressed_too_early_is_forgotten() {
    let (b, out) = press_jump_above_the_floor(6, 3);
    assert_eq!(b.position, Point::new(80, 72));
    assert!(b.is_standing(&level_on(FULL, &[], vec![])));
    assert_ne!(b.state, PlayerState::Jumping);
    assert_eq!(out.fx, None);
    assert!(b.jump_buffer_timer <= 0);
}

#[test]
fn letting_go_of_the_jump_button_cuts_the_jump() {
    let mut b = standing();
    b.state = PlayerState::JumpingLeft;
    b.stop_jump();
    assert_eq!(b.state, PlayerState::JumpingStop);
    b.state = PlayerState::Falling;
    b.stop_jump();
    assert_eq!(b.state, PlayerState::Falling);
}

#[test]
fn a_jump_rises_for_nine_ticks() {
    let mut level = level_on(FULL, &[], vec![]);
    let mut out = Outbox::new();
    let mut b = standing();
    b.start_jump(&mut level, &mut out);
    for tick in 1..=9 {
        b.update(&mut level, &mut out);
        assert_eq!(b.state, PlayerState::Jumping, "tick {}", tick);
        assert_eq!(b.jump_timer, tick);
    }
    b.update(&mut level, &mut out);
    assert_eq!(b.state, PlayerState::JumpingStop);
    assert!(b.position.y < 72 - 10);
}

#[test]
fn a_dash_starts_in_the_air_only() {
    let mut level = level_on(FULL, &[], vec![]);
    let mut out = Outbox::new();
    let mut b = standing();
    b.start_dash(&mut level, &mut out);
    assert_eq!(b.state, PlayerState::Idle);
    assert_eq!(out.fx, None);
    b.state = PlayerState::Jumping;
    b.start_dash(&mut level, &mut out);
    assert_eq!(b.state, PlayerState::DashingRight);
    assert_eq!(b.dash_timer, 8);
    assert_eq!(out.fx, Some(Sound::Dash));
    assert_eq!(level.particles.len(), 1);
    assert_eq!(level.particles[0].position, Point::new(72, 72));
    assert_eq!(level.particles[0].movement, ParticleMovement::Following(-8));
    assert_eq!(level.particles[0].animation.sprites, vec![96, 97, 98, 99]);
}

#[test]
fn a_dash_takes_the_direction_of_the_fall() {
    let mut level = level_on(FULL, &[], vec![]);
    let mut out = Outbox::new();
    let mut b = Blutti::with_start_position(Point::new(80, 30));
    b.state = PlayerState::FallingLeft;
    b.direction_x = DirectionX::Right;
    b.start_dash(&mut level, &mut out);
    assert_eq!(b.state, PlayerState::DashingLeft);
    let mut c = Blutti::with_start_position(Point::new(80, 30));
    c.state = PlayerState::Falling;
    c.direction_x = DirectionX::Left;
    c.start_dash(&mut level, &mut out);
    assert_eq!(c.state, PlayerState::DashingLeft);
    assert_eq!(level.particles[1].movement, ParticleMovement::Following(8));
    assert_eq!(level.particles[1].position, Point::new(88, 30));
    assert_eq!(level.particles[1].animation.sprites, vec![100, 101, 102, 103]);
}

#[test]
fn no_dash_while_waiting() {
    let mut level = level_on(FULL, &[], vec![]);
    let mut out = Outbox::new();
    let mut b = Blutti::with_start_position(Point::new(80, 30));
    b.state = PlayerState::Falling;
    b.dash_timer = -1;
    b.start_dash(&mut level, &mut out);
    assert_eq!(b.state, PlayerState::Falling);
    assert_eq!(b.dash_timer, -1);
    assert_eq!(out.fx, None);
}

#[test]
fn after_a_dash_the_player_waits() {
    let mut level = level_on(FULL, &[], vec![]);
    let mut out = Outbox::new();
    let mut b = Blutti::with_start_position(Point::new(80, 30));
    b.state = PlayerState::DashingRight;
    b.dash_timer = 2;
    b.velocity = Vec2::new(3000, 0);
    b.remainder = Vec2::new(1, 1);
    b.update(&mut level, &mut out);
    assert_eq!(b.state, PlayerState::DashingRight);
    assert_eq!(b.dash_timer, 1);
    b.update(&mut level, &mut out);
    assert_eq!(b.dash_timer, -32);
    assert_eq!(b.state, PlayerState::Falling);
    assert_eq!(b.velocity.x, 0);
    b.update(&mut level, &mut out);
    assert_eq!(b.dash_timer, -31);
}

#[test]
fn picking_up_a_star() {
    let mut level = level_on(FULL, &[(5, 5, STAR)], vec![]);
    let mut out = Outbox::new();
    let mut b = Blutti::with_start_position(Point::new(44, 41));
    b.handle_effects(&mut level, &mut out);
    assert_eq!(level.tiles[5 * 30 + 5], 0);
    assert_eq!(b.points, 1);
    assert_eq!(b.stars, 1);
    assert_eq!(out.fx, Some(Sound::Coin));
    assert_eq!(out.progress, vec![Progress { badge: Badge::Stars, amount: 1 }]);
    assert_eq!(level.particles.len(), 1);
    assert_eq!(level.particles[0].position, Point::new(40, 40));
    assert_eq!(level.particles[0].animation.sprites, vec![104, 105, 106, 107]);
    assert_eq!(level.particles[0].movement, ParticleMovement::Stationary);
    assert_eq!(level.collision(Point::new(44, 44)), TileCollider::Vacant);
    // the tile is gone and does not count again
    out.clear();
    b.handle_effects(&mut level, &mut out);
    assert_eq!(b.points, 1);
    assert_eq!(b.stars, 1);
    assert_eq!(out.fx, None);
    assert!(out.progress.is_empty());
    assert_eq!(level.particles.len(), 1);
}

#[test]
fn the_corner_probed_last_wins() {
    let mut level = level_on(FULL, &[(5, 5, STAR), (6, 6, EXTRA_LIFE)], vec![]);
    let mut out = Outbox::new();
    let mut b = Blutti::with_start_position(Point::new(44, 44));
    b.handle_effects(&mut level, &mut out);
    assert_eq!(b.lives, 4);
    assert_eq!(b.stars, 0);
    assert_eq!(out.fx, Some(Sound::Powerup));
    assert_eq!(level.tiles[6 * 30 + 6], 0);
    assert_eq!(level.tiles[5 * 30 + 5], STAR);
    assert_eq!(b.current_tile, 5 * 30 + 5);
    b.handle_effects(&mut level, &mut out);
    assert_eq!(b.stars, 1);
    assert_eq!(out.fx, Some(Sound::Coin));
}

#[test]
fn picking_up_something_worth_points() {
    let mut level = level_on(FULL, &[(5, 5, STAR)], vec![]);
    let mut out = Outbox::new();
    let mut b = Blutti::with_start_position(Point::new(40, 40));
    let collision =
        Collision { tile_collider: TileCollider::Collectible(1), position: Point::new(47, 47) };
    b.collect_collectable(&mut level, &mut out, collision, 1);
    assert_eq!(b.points, 1);
    assert_eq!(b.stars, 0);
    assert_eq!(level.tiles[5 * 30 + 5], 0);
    assert_eq!(out.fx, Some(Sound::Coin));
    assert!(out.progress.is_empty());
    assert_eq!(level.particles[0].position, Point::new(40, 40));
}

#[test]
fn an_exit_opens_with_enough_stars() {
    let mut level = level_on(FULL, &[(5, 5, EXIT)], vec![]);
    level.stars = 2;
    let mut out = Outbox::new();
    let mut b = Blutti::with_start_position(Point::new(40, 40));
    b.stars = 1;
    b.handle_effects(&mut level, &mut out);
    assert!(!b.finished_level);
    assert_eq!(out.fx, Some(Sound::Wrong));
    assert_eq!(b.current_tile, 155);
    // the player is told once per tile
    out.clear();
    b.handle_effects(&mut level, &mut out);
    assert_eq!(out.fx, None);
    b.stars = 2;
    b.direction_x = DirectionX::Left;
    b.handle_effects(&mut level, &mut out);
    assert!(b.finished_level);
    assert_eq!(out.fx, Some(Sound::Exit));
    assert_eq!(out.progress, vec![Progress { badge: Badge::Levels, amount: 1 }]);
    assert_eq!(b.animation.sprites, vec![108, 109, 110, 111]);
    assert_eq!(level.tiles[155], EXIT);
}

#[test]
fn a_deadly_tile_kills() {
    let mut level = level_on(FULL, &[(5, 5, DEADLY)], vec![monster(8, 8, MonsterCollision::Deadly)]);
    level.monsters[0].position = Point::new(200, 8);
    let mut out = Outbox::new();
    let mut b = Blutti::with_start_position(Point::new(40, 40));
    b.velocity = Vec2::new(500, 500);
    b.fall_timer = 7;
    b.handle_effects(&mut level, &mut out);
    assert!(b.died);
    assert_eq!(b.lives, 2);
    assert_eq!(b.velocity, Vec2::zero());
    assert_eq!(b.fall_timer, 0);
    assert_eq!(out.fx, Some(Sound::Death));
    assert_eq!(out.progress, vec![Progress { badge: Badge::Deaths, amount: 1 }]);
    assert_eq!(b.animation.sprites, vec![124, 125, 126, 127]);
    assert_eq!(level.monsters[0].position, Point::new(8, 8));
    assert_eq!(level.tiles[155], DEADLY);
}

#[test]
fn a_fall_of_more_than_thirty_ticks_is_fatal() {
    let mut level = level_on(FULL, &[], vec![monster(8, 8, MonsterCollision::Harmless)]);
    level.monsters[0].position = Point::new(120, 8);
    let mut out = Outbox::new();
    let mut b = standing();
    b.start_position = Point::new(16, 72);
    b.state = PlayerState::Falling;
    b.fall_timer = 31;
    b.update(&mut level, &mut out);
    assert!(b.died);
    assert_eq!(b.lives, 2);
    assert_eq!(b.state, PlayerState::Idle);
    assert_eq!(b.position, Point::new(16, 72));
    assert_eq!(b.start_position, Point::new(16, 72));
    assert_eq!(b.fall_timer, 0);
    assert_eq!(out.fx, Some(Sound::Death));
    assert_eq!(level.monsters[0].position, Point::new(8, 8));
    b.reset(&level);
    assert_eq!(b.position, Point::new(16, 72));
    assert!(!b.died);
    assert_eq!(b.lives, 2);
    assert_eq!(b.animation.sprites, vec![118, 119]);
}

#[test]
fn a_fall_of_thirty_ticks_is_survived() {
    let mut level = level_on(FULL, &[], vec![]);
    let mut out = Outbox::new();
    let mut b = standing();
    b.state = PlayerState::Falling;
    b.fall_timer = 30;
    b.update(&mut level, &mut out);
    assert!(!b.died);
    assert_eq!(b.lives, 3);
    assert_eq!(b.fall_timer, 0);
    assert_eq!(b.state, PlayerState::Idle);
}

#[test]
fn a_falling_player_counts_the_ticks() {
    let mut level = level_on(FULL, &[], vec![]);
    let mut out = Outbox::new();
    let mut b = Blutti::with_start_position(Point::new(80, 16));
    b.update(&mut level, &mut out);
    assert_eq!(b.state, PlayerState::Falling);
    assert_eq!(b.fall_timer, 0);
    b.update(&mut level, &mut out);
    assert_eq!(b.fall_timer, 1);
    assert_eq!(b.velocity.y, 500);
    b.update(&mut level, &mut out);
    assert_eq!(b.fall_timer, 2);
    assert_eq!(b.velocity.y, 1000);
    assert_eq!(b.position.y, 18);
}

#[test]
fn who_cannot_die_does_not() {
    let mut level = level_on(FULL, &[], vec![]);
    let mut out = Outbox::new();
    let mut b = standing();
    b.iddqd = true;
    b.die(&mut level, &mut out);
    assert!(!b.died);
    assert_eq!(b.lives, 3);
    assert_eq!(out.fx, None);
}

#[test]
fn the_bottom_of_the_screen_is_fatal() {
    let mut level = level_on(0, &[], vec![]);
    let mut out = Outbox::new();
    let mut b = Blutti::with_start_position(Point::new(80, 152));
    b.update(&mut level, &mut out);
    assert!(b.died);
    assert_eq!(b.lives, 2);
}

#[test]
fn a_deadly_monster_is_fatal() {
    let mut level = level_on(FULL, &[], vec![monster(84, 74, MonsterCollision::Deadly)]);
    let mut out = Outbox::new();
    let mut b = standing();
    b.update(&mut level, &mut out);
    assert!(b.died);
    // only two corners of the player are probed
    let mut missed = level_on(FULL, &[], vec![monster(84, 70, MonsterCollision::Deadly)]);
    let mut a = standing();
    a.update(&mut missed, &mut out);
    assert!(!a.died);
    let mut calm = level_on(FULL, &[], vec![monster(84, 74, MonsterCollision::Harmless)]);
    let mut c = Blutti::with_start_position(Point::new(20, 72));
    c.update(&mut calm, &mut out);
    assert!(!c.died);
}

#[test]
fn a_conveyor_moves_a_player_that_stands_still() {
    let mut level = level_on(CONVEYOR, &[], vec![]);
    let mut out = Outbox::new();
    let mut b = standing();
    b.update(&mut level, &mut out);
    assert_eq!(b.state, PlayerState::Idle);
    assert_eq!(b.velocity, Vec2::new(200, 0));
    assert_eq!(b.position, Point::new(80, 72));
    b.update(&mut level, &mut out);
    assert_eq!(b.velocity, Vec2::new(400, 0));
    assert_eq!(b.position, Point::new(81, 72));
    b.update(&mut level, &mut out);
    assert_eq!(b.velocity, Vec2::new(600, 0));
    let mut x = b.position.x;
    for _ in 0..10 {
        b.update(&mut level, &mut out);
        assert!(b.velocity.x > 0);
        assert!(b.position.x >= x);
        x = b.position.x;
    }
    assert!(x > 85);
}

#[test]
fn a_conveyor_speeds_a_run_up() {
    let level = level_on(CONVEYOR, &[], vec![]);
    let mut b = standing();
    b.state = PlayerState::RunningRight;
    b.velocity.x = 3900;
    b.update_horizontal_velocity(&level);
    assert_eq!(b.velocity.x, 4000);
    b.state = PlayerState::RunningLeft;
    b.velocity.x = -3900;
    b.update_horizontal_velocity(&level);
    assert_eq!(b.velocity.x, -4000);
    b.velocity.x = 0;
    b.update_horizontal_velocity(&level);
    assert_eq!(b.velocity.x, -300);
}

#[test]
fn standing_needs_something_under_a_foot() {
    let level = level_on(0, &[(10, 10, FULL), (12, 10, LADDER)], vec![
        monster(120, 80, MonsterCollision::Blocking),
        monster(160, 80, MonsterCollision::Deadly),
    ]);
    let at = |x: i32| Blutti::with_start_position(Point::new(x, 72));
    assert!(at(80).is_standing(&level));
    assert!(at(73).is_standing(&level));
    assert!(at(87).is_standing(&level));
    assert!(!at(72).is_standing(&level));
    assert!(!at(88).is_standing(&level));
    assert!(at(96).is_standing(&level));
    assert!(at(96).is_standing_on(&level, TileCollider::Climbable));
    assert!(!at(96).is_standing_on(&level, TileCollider::Full));
    assert!(at(120).is_standing(&level));
    assert!(!at(160).is_standing(&level));
    assert!(!Blutti::with_start_position(Point::new(80, 71)).is_standing(&level));
}

#[test]
fn climbing_needs_a_ladder() {
    let level = level_on(FULL, &[(10, 9, LADDER), (10, 8, LADDER), (10, 7, LADDER)], vec![]);
    let mut b = Blutti::with_start_position(Point::new(80, 72));
    assert!(b.is_on_ladder(&level));
    assert!(b.can_climb(&level));
    b.velocity = Vec2::new(700, 0);
    b.move_up(&level, 500);
    assert_eq!(b.state, PlayerState::ClimbingUp);
    assert_eq!(b.velocity.x, 0);
    assert_eq!(b.movement_modifier, 500);
    assert_eq!(b.animation.sprites, vec![120, 121]);
    let mut c = Blutti::with_start_position(Point::new(40, 72));
    assert!(!c.is_on_ladder(&level));
    c.move_up(&level, 1000);
    assert_eq!(c.state, PlayerState::Idle);
    assert_eq!(c.direction_y, DirectionY::Up);
    // facing right the player grips with its right half
    assert!(Blutti::with_start_position(Point::new(77, 72)).is_on_ladder(&level));
    assert!(!Blutti::with_start_position(Point::new(72, 72)).is_on_ladder(&level));
    assert!(Blutti::with_start_position(Point::new(84, 72)).is_on_ladder(&level));
    assert!(!Blutti::with_start_position(Point::new(85, 72)).is_on_ladder(&level));
}

#[test]
fn climbing_down_needs_a_ladder_below() {
    let level = level_on(FULL, &[(10, 10, LADDER), (10, 11, LADDER)], vec![]);
    let mut b = Blutti::with_start_position(Point::new(80, 72));
    assert!(!b.is_on_ladder(&level));
    b.move_down(&level, 1000);
    assert_eq!(b.direction_y, DirectionY::Down);
    assert_eq!(b.state, PlayerState::ClimbingDown);
    let mut c = Blutti::with_start_position(Point::new(40, 72));
    c.move_down(&level, 1000);
    assert_eq!(c.state, PlayerState::Idle);
}

#[test]
fn on_a_ladder_the_player_moves_sideways_climbing() {
    let mut level = level_on(FULL, &[(10, 9, LADDER)], vec![]);
    let out = Outbox::new();
    let mut b = Blutti::with_start_position(Point::new(80, 72));
    b.velocity = Vec2::new(0, -300);
    b.move_right(&mut level, &out, 1000);
    assert_eq!(b.state, PlayerState::ClimbingSideways);
    assert_eq!(b.velocity.y, 0);
}

#[test]
fn being_pushed_adds_to_the_remainder() {
    let mut b = standing();
    b.remainder = Vec2::new(100, -100);
    b.force_move(Vec2::new(1000, 50));
    assert_eq!(b.remainder, Vec2::new(1100, -50));
}

#[test]
fn stopping_on_one_axis() {
    let level = level_on(FULL, &[], vec![]);
    let mut b = standing();
    b.state = PlayerState::RunningRight;
    b.velocity = Vec2::new(1500, 700);
    b.remainder = Vec2::new(3, 4);
    b.jump_timer = 5;
    b.dash_timer = -9;
    b.fall_timer = 12;
    b.movement_modifier = 500;
    b.stop_movement(&level, StopDirection::X);
    assert_eq!(b.velocity, Vec2::new(0, 700));
    assert_eq!(b.remainder, Vec2::zero());
    assert_eq!((b.jump_timer, b.dash_timer, b.fall_timer), (0, 0, 12));
    assert_eq!(b.movement_modifier, 1000);
    assert_eq!(b.state, PlayerState::Idle);
    b.velocity = Vec2::new(1500, 700);
    b.stop_movement(&level, StopDirection::Y);
    assert_eq!(b.velocity, Vec2::new(1500, 0));
    assert_eq!(b.fall_timer, 12);
    b.stop_movement(&level, StopDirection::Both);
    assert_eq!(b.velocity, Vec2::zero());
    // the count of the fall ends on the ground, not here
    assert_eq!(b.fall_timer, 12);
    let mut air = Blutti::with_start_position(Point::new(80, 30));
    air.stop_movement(&level, StopDirection::Both);
    assert_eq!(air.state, PlayerState::Falling);
}

#[test]
fn the_debug_overlay_toggles() {
    let mut b = standing();
    b.toggle_debug();
    assert!(b.debug);
    b.toggle_debug();
    assert!(!b.debug);
}

#[test]
fn the_footprint_of_the_player() {
    let b = standing();
    assert_eq!(b.position(), Point::new(80, 72));
    assert_eq!(b.rect().position, Point::new(80, 72));
    assert_eq!((b.rect().width, b.rect().height), (8, 8));
    assert!(b.overlaps(blutti::rect::Rect::from(Point::new(84, 76))));
}

#[test]
fn dying_puts_the_player_back_at_its_start() {
    let mut level = level_on(FULL, &[], vec![monster(8, 8, MonsterCollision::Deadly)]);
    level.monsters[0].position = Point::new(200, 8);
    let mut out = Outbox::new();
    let mut b = Blutti::with_start_position(Point::new(16, 72));
    b.position = Point::new(120, 40);
    b.velocity = Vec2::new(900, -700);
    b.remainder = Vec2::new(-3, 4);
    b.state = PlayerState::JumpingLeft;
    b.fall_timer = 9;
    b.lives = 5;
    b.die(&mut level, &mut out);
    assert!(b.died);
    assert_eq!(b.position, Point::new(16, 72));
    assert_eq!(b.start_position, Point::new(16, 72));
    assert_eq!(b.lives, 4);
    assert_eq!(b.velocity, Vec2::zero());
    assert_eq!(b.remainder, Vec2::zero());
    assert_eq!(b.fall_timer, 0);
    assert_eq!(b.state, PlayerState::Idle);
    assert_eq!(level.monsters[0].position, Point::new(8, 8));
    assert_eq!(out.fx, Some(Sound::Death));
}

#[test]
fn a_landing_after_a_long_fall_kills_whatever_the_remainder() {
    for remainder in [Vec2::zero(), Vec2::new(0, -500), Vec2::new(7, 0)] {
        for state in [
            PlayerState::Falling,
            PlayerState::FallingLeft,
            PlayerState::Idle,
            PlayerState::RunningRight,
        ] {
            let mut level = level_on(FULL, &[], vec![]);
            let mut out = Outbox::new();
            let mut b = Blutti::with_start_position(Point::new(16, 72));
            b.position = Point::new(80, 72);
            b.state = state;
            b.remainder = remainder;
            b.velocity = Vec2::new(0, 1500);
            b.fall_timer = 31;
            b.update_states(&mut level, &mut out);
            assert!(b.died, "{:?} {:?}", state, remainder);
            assert_eq!(b.lives, 2);
            assert_eq!(b.position, Point::new(16, 72));
        }
    }
    // the tick of the landing counts
    let mut level = level_on(FULL, &[], vec![]);
    let mut out = Outbox::new();
    let mut b = standing();
    b.state = PlayerState::Falling;
    b.fall_timer = 30;
    b.update_states(&mut level, &mut out);
    assert!(b.died);
    let mut c = standing();
    c.state = PlayerState::Falling;
    c.fall_timer = 29;
    c.update_states(&mut level, &mut out);
    assert!(!c.died);
    assert_eq!(c.fall_timer, 0);
}

#[test]
fn an_idle_player_on_a_ladder_does_not_lose_the_count() {
    let mut level = level_on(LADDER, &[(10, 9, LADDER)], vec![]);
    let mut out = Outbox::new();
    let mut b = standing();
    assert!(b.is_on_ladder(&level));
    b.fall_timer = 31;
    b.update_states(&mut level, &mut out);
    assert!(b.died);
    assert_eq!(b.lives, 2);
}

#[test]
fn a_fall_from_high_up_is_fatal() {
    let mut level = level_on(FULL, &[], vec![]);
    let mut out = Outbox::new();
    let mut b = Blutti::with_start_position(Point::new(16, 72));
    b.position = Point::new(80, 0);
    let mut fastest = 0;
    let mut ticks = 0;
    while !b.died && ticks < 100 {
        b.update(&mut level, &mut out);
        fastest = fastest.max(b.velocity.y);
        ticks += 1;
    }
    assert!(b.died);
    assert!(ticks > 31);
    // the fall reaches its top speed
    assert_eq!(fastest, 2000);
    assert_eq!(b.lives, 2);
    assert_eq!(b.position, Point::new(16, 72));
    assert_eq!(out.fx, Some(Sound::Death));
}

#[test]
fn a_fall_from_low_is_survived() {
    let mut level = level_on(FULL, &[], vec![]);
    let mut out = Outbox::new();
    let mut b = Blutti::with_start_position(Point::new(80, 40));
    let mut longest = 0;
    for _ in 0..40 {
        b.update(&mut level, &mut out);
        longest = longest.max(b.fall_timer);
    }
    assert!(!b.died);
    assert_eq!(b.lives, 3);
    assert_eq!(b.position, Point::new(80, 72));
    assert_eq!(b.state, PlayerState::Idle);
    assert_eq!(b.fall_timer, 0);
    assert!(longest > 10 && longest <= 30);
}

#[test]
fn the_player_dies_once_in_a_tick() {
    // at the bottom of the screen, with a deadly monster on it, after a long
    // fall
    let mut tiles = vec![0; 600];
    for column in 0..30 {
        tiles[19 * 30 + column] = FULL;
    }
    let mut level = Level::load_level(
        tiles,
        Color::Black,
        Color::White,
        1,
        Point::new(80, 152),
        0,
        200,
        vec![monster(80, 152, MonsterCollision::Deadly)],
    )
    .unwrap();
    let mut out = Outbox::new();
    let mut b = Blutti::with_start_position(Point::new(80, 152));
    b.fall_timer = 31;
    b.update_states(&mut level, &mut out);
    assert!(b.died);
    assert_eq!(b.lives, 2);
    assert_eq!(out.progress, vec![Progress { badge: Badge::Deaths, amount: 1 }]);
}
