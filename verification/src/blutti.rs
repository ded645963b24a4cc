//! The player: a character controller with a state per kind of movement.
use vstd::prelude::*;
use crate::animation::{
    climb_left_sprites, climb_right_sprites, death_sprites, exit_left_sprites, exit_right_sprites,
    idle_left_sprites, idle_right_sprites, running_left_sprites, running_right_sprites, Animation,
    AnimationView, LOOP_FRAME_TIME, ONCE_FRAME_TIME,
};
use crate::constants::{GRAVITY_ACCELERATION, GRAVITY_MAX, TILE_HEIGHT, TILE_WIDTH};
use crate::direction::{DirectionX, DirectionY, StopDirection};
use crate::fixed::{accelerate, approach, clip, sat_add, sat_sub, scale_by, scaled, ONE};
use crate::collision::Collision;
use crate::constants::HEIGHT;
use crate::drawing::{get_origin_point_of_position, get_tile_index, origin_of, tile_index, Sprite};
use crate::functions::{play_sound, Badge, Outbox, OutboxView, Sound};
use crate::level::{Level, LevelNumber, LevelView};
use crate::particle::{Particle, ParticleMovement, ParticleView};
use crate::monster::MonsterCollision;
use crate::player_state::PlayerState;
use crate::point_math::Point;
use crate::rect::Rect;
use crate::tile_collider::TileCollider;
use crate::fixed::round_half_up;
use crate::updateable::{
    lemma_collision_halts_motion_x, lemma_collision_halts_motion_y, resolve_x, resolve_y,
    spec_movement_to_step, Updateable,
};
use crate::vec2::Vec2;

verus! {

/// Acceleration of a run, in thousandths of a pixel per tick and tick.
pub const RUNNING_ACCELERATION: i32 = 500;

/// Ticks that a run goes on after the direction was let go.
pub const RUNNING_STOP_TIME: i32 = 4;

/// Top speed of a run, in thousandths of a pixel per tick.
pub const MAX_VELOCITY: i32 = 2000;

/// Deceleration of a run or a sideways climb that was let go.
pub const STOP_ACCELERATION: i32 = 500;

/// Sideways acceleration in a fall.
pub const FALLING_X_ACCELERATION: i32 = 100;

/// Top sideways speed in a fall.
pub const MAX_FALLING_VELOCITY: i32 = 800;

/// Sideways acceleration in a jump.
pub const JUMP_ACCELERATION: i32 = 600;

/// Top sideways speed in a jump.
pub const JUMP_VELOCITY: i32 = 2500;

/// Ticks that a jump rises.
pub const JUMP_TIME: i32 = 9;

/// Ticks for which a jump that was asked for in the air is remembered.
pub const JUMP_BUFFER: i32 = 2;

/// Ticks of a fall in which the player can still jump.
pub const COYOTE_THRESHOLD: i32 = 5;

/// Top speed of a dash.
pub const DASH_VELOCITY: i32 = 8000;

/// Acceleration of a dash.
pub const DASH_ACCELERATION: i32 = 1200;

/// Ticks that a dash lasts.
pub const DASH_TIME: i32 = 8;

/// Ticks between the end of a dash and the next one.
pub const DASH_WAIT_TIME: i32 = 32;

/// Acceleration that a conveyor adds.
pub const CONVEYOR_ACCELERATION: i32 = 200;

/// Speed by which a conveyor moves the target velocity away from zero.
pub const CONVEYOR_SPEED: i32 = 2000;

/// Ticks of a fall that the player survives.
pub const MAX_FALL_HEIGHT: i32 = 30;

/// Sideways acceleration on a ladder.
pub const CLIMB_SIDEWAYS_ACCELERATION: i32 = 300;

/// Top sideways speed on a ladder.
pub const CLIMB_SIDEWAYS_VELOCITY: i32 = 1500;

/// Upward acceleration of a jump.
pub const RISE_ACCELERATION: i32 = 1500;

/// Top upward speed of a jump.
pub const RISE_VELOCITY: i32 = 2000;

/// Downward acceleration of a jump that was cut off.
pub const JUMP_STOP_ACCELERATION: i32 = 2000;

/// Top downward speed of a jump that was cut off.
pub const JUMP_STOP_VELOCITY: i32 = 5000;

/// Acceleration of a climb.
pub const CLIMB_ACCELERATION: i32 = 400;

/// Top speed of a climb.
pub const CLIMB_VELOCITY: i32 = 1000;

/// Upward acceleration of a climb that was let go.
pub const CLIMB_STOP_ACCELERATION: i32 = 200;

/// Column at which the player starts when the level does not say.
pub const START_X: i32 = 112;

/// Row at which the player starts when the level does not say.
pub const START_Y: i32 = 144;

/// Lives at the start of a game.
pub const START_LIVES: i32 = 3;

/// The player.
#[derive(Debug)]
pub struct Blutti {
    pub position: Point,
    pub start_position: Point,
    /// Ticks of the current jump; counts down once the jump is cut off.
    pub jump_timer: i32,
    /// Ticks left of the current dash; below zero, ticks until the next
    /// dash is allowed, negated.
    pub dash_timer: i32,
    /// Ticks that the player has fallen since it last stood.
    pub fall_timer: i32,
    /// Ticks left until a run that was let go comes to a halt.
    pub stop_timer: i32,
    /// Ticks that the current jump may rise.
    pub jump_max_time: i32,
    /// Ticks for which a jump that was asked for in the air is remembered.
    pub jump_buffer_timer: i32,
    pub direction_x: DirectionX,
    pub direction_y: DirectionY,
    pub state: PlayerState,
    pub velocity: Vec2,
    pub remainder: Vec2,
    /// The factor, in thousandths, by which acceleration and target speed
    /// are scaled.
    pub movement_modifier: i32,
    pub points: i32,
    pub stars: i32,
    pub lives: i32,
    /// While set, nothing kills the player.
    pub iddqd: bool,
    pub died: bool,
    pub finished_level: bool,
    pub current_level: LevelNumber,
    /// The tile on which the player was last told that the exit is shut.
    pub current_tile: i32,
    pub animation: Animation,
    pub debug: bool,
}

/// The mathematical value of a [`Blutti`].
pub struct BluttiView {
    pub position: Point,
    pub start_position: Point,
    pub jump_timer: i32,
    pub dash_timer: i32,
    pub fall_timer: i32,
    pub stop_timer: i32,
    pub jump_max_time: i32,
    pub jump_buffer_timer: i32,
    pub direction_x: DirectionX,
    pub direction_y: DirectionY,
    pub state: PlayerState,
    pub velocity: Vec2,
    pub remainder: Vec2,
    pub movement_modifier: i32,
    pub points: i32,
    pub stars: i32,
    pub lives: i32,
    pub iddqd: bool,
    pub died: bool,
    pub finished_level: bool,
    pub current_level: LevelNumber,
    pub current_tile: i32,
    pub animation: AnimationView,
    pub debug: bool,
}

impl View for Blutti {
    type V = BluttiView;

    open spec fn view(&self) -> BluttiView {
        BluttiView {
            position: self.position,
            start_position: self.start_position,
            jump_timer: self.jump_timer,
            dash_timer: self.dash_timer,
            fall_timer: self.fall_timer,
            stop_timer: self.stop_timer,
            jump_max_time: self.jump_max_time,
            jump_buffer_timer: self.jump_buffer_timer,
            direction_x: self.direction_x,
            direction_y: self.direction_y,
            state: self.state,
            velocity: self.velocity,
            remainder: self.remainder,
            movement_modifier: self.movement_modifier,
            points: self.points,
            stars: self.stars,
            lives: self.lives,
            iddqd: self.iddqd,
            died: self.died,
            finished_level: self.finished_level,
            current_level: self.current_level,
            current_tile: self.current_tile,
            animation: self.animation@,
            debug: self.debug,
        }
    }
}

impl BluttiView {
    /// The player lies within the coordinate limit and its animation is
    /// well-formed.
    pub open spec fn wf(self) -> bool {
        &&& self.position.in_bounds()
        &&& self.start_position.in_bounds()
        &&& self.animation.wf()
    }

    /// A new player at the default start.
    pub open spec fn fresh() -> Self {
        BluttiView {
            position: Point { x: START_X, y: START_Y },
            start_position: Point { x: START_X, y: START_Y },
            jump_timer: 0,
            dash_timer: 0,
            fall_timer: 0,
            stop_timer: 0,
            jump_max_time: 0,
            jump_buffer_timer: 0,
            direction_x: DirectionX::Right,
            direction_y: DirectionY::Up,
            state: PlayerState::Idle,
            velocity: Vec2::spec_zero(),
            remainder: Vec2::spec_zero(),
            movement_modifier: ONE,
            points: 0,
            stars: 0,
            lives: START_LIVES,
            iddqd: false,
            died: false,
            finished_level: false,
            current_level: 1,
            current_tile: 0,
            animation: AnimationView::fresh(idle_right_sprites(), LOOP_FRAME_TIME, true),
            debug: false,
        }
    }

    /// The footprint of the player.
    pub open spec fn rect(self) -> Rect {
        Rect::at(self.position)
    }

    /// Neither a solid tile nor a blocking monster is at `position`.
    pub open spec fn is_position_free(level: LevelView, position: Point) -> bool {
        level.is_tile_free(position) && !level.monster_blocks(position, MonsterCollision::Blocking)
    }

    /// A tile of the kind `collider` lies under one of the player's feet.
    pub open spec fn is_standing_on(self, level: LevelView, collider: TileCollider) -> bool {
        ||| level.collider_at(self.position.spec_below_bottom_left()) == collider
        ||| level.collider_at(self.position.spec_below_bottom_right()) == collider
    }

    /// The player has a ladder, a solid tile or a blocking monster under one
    /// of its feet.
    pub open spec fn is_standing(self, level: LevelView) -> bool {
        self.is_standing_on(level, TileCollider::Climbable) || !(Self::is_position_free(
            level,
            self.position.spec_below_bottom_left(),
        ) && Self::is_position_free(level, self.position.spec_below_bottom_right()))
    }

    /// The horizontal offsets of the two columns in which the player probes
    /// for a ladder: the player grips with the side it faces.
    pub open spec fn grip(self) -> (int, int) {
        if self.direction_x == DirectionX::Left {
            (0, TILE_WIDTH - 1 - 3)
        } else {
            (3, TILE_WIDTH - 1)
        }
    }

    /// A ladder is under the player's feet.
    pub open spec fn is_on_ladder_below(self, level: LevelView) -> bool {
        let (left, right) = self.grip();
        ||| level.collider_at(self.position.offset(left, TILE_HEIGHT as int))
            == TileCollider::Climbable
        ||| level.collider_at(self.position.offset(right, TILE_HEIGHT as int))
            == TileCollider::Climbable
    }

    /// A ladder is at the player's feet; under them, when the player faces
    /// down.
    pub open spec fn is_on_ladder(self, level: LevelView) -> bool {
        if self.direction_y == DirectionY::Down {
            self.is_on_ladder_below(level)
        } else {
            let (left, right) = self.grip();
            ||| level.collider_at(self.position.offset(left, TILE_HEIGHT - 1))
                == TileCollider::Climbable
            ||| level.collider_at(self.position.offset(right, TILE_HEIGHT - 1))
                == TileCollider::Climbable
        }
    }

    /// A ladder is where the player wants to climb.
    pub open spec fn can_climb(self, level: LevelView) -> bool {
        match self.direction_y {
            DirectionY::Up => self.is_on_ladder(level),
            DirectionY::Down => self.is_on_ladder_below(level),
        }
    }

    /// The player has both a velocity and a remainder.
    pub open spec fn is_moving(self) -> bool {
        !self.velocity.spec_is_zero() && !self.remainder.spec_is_zero()
    }

    /// The horizontal offsets of the two columns in which the player probes
    /// for obstacles. The body is narrower than a tile, and narrower still
    /// on a ladder.
    pub open spec fn span(self) -> (int, int) {
        if self.state.spec_is_climbing() {
            if self.direction_x == DirectionX::Left {
                (3, TILE_WIDTH - 1 - 4)
            } else {
                (4, TILE_WIDTH - 1 - 3)
            }
        } else {
            if self.direction_x == DirectionX::Left {
                (0, TILE_WIDTH - 1 - 3)
            } else {
                (3, TILE_WIDTH - 1)
            }
        }
    }

    /// The player would collide at `position`: one of the four corners of
    /// its body is not free.
    pub open spec fn blocked_at(self, level: LevelView, position: Point) -> bool {
        let (left, right) = self.span();
        !(Self::is_position_free(level, position.offset(left, 0)) && Self::is_position_free(
            level,
            position.offset(right, 0),
        ) && Self::is_position_free(level, position.offset(left, TILE_HEIGHT - 1))
            && Self::is_position_free(level, position.offset(right, TILE_HEIGHT - 1)))
    }

    /// The player with a fresh animation: of the sprites `left` if it looks left,
    /// else of the sprites `right`.
    pub open spec fn with_animation(self, left: Seq<i32>, right: Seq<i32>, time: i32, looping: bool)
        -> Self {
        BluttiView {
            animation: AnimationView::fresh(
                if self.direction_x == DirectionX::Left {
                    left
                } else {
                    right
                },
                time,
                looping,
            ),
            ..self
        }
    }

    /// The player shown standing.
    pub open spec fn add_idle_animation(self) -> Self {
        self.with_animation(idle_left_sprites(), idle_right_sprites(), LOOP_FRAME_TIME, true)
    }

    /// The player shown running.
    pub open spec fn add_running_animation(self) -> Self {
        self.with_animation(running_left_sprites(), running_right_sprites(), LOOP_FRAME_TIME, true)
    }

    /// The player shown on a ladder.
    pub open spec fn add_climbing_animation(self) -> Self {
        self.with_animation(climb_left_sprites(), climb_right_sprites(), LOOP_FRAME_TIME, true)
    }

    /// The player shown leaving through an exit.
    pub open spec fn add_exit_animation(self) -> Self {
        self.with_animation(exit_left_sprites(), exit_right_sprites(), ONCE_FRAME_TIME, false)
    }

    /// The player shown dying.
    pub open spec fn add_death_animation(self) -> Self {
        self.with_animation(death_sprites(), death_sprites(), ONCE_FRAME_TIME, false)
    }

    /// The player at rest: idle on a ladder, falling in the air, and idle on
    /// the ground.
    #[verifier::opaque]
    pub open spec fn start_idling(self, level: LevelView) -> Self {
        if self.is_on_ladder(level) {
            if self.state != PlayerState::ClimbingIdle {
                (BluttiView { state: PlayerState::ClimbingIdle, ..self }).add_climbing_animation()
            } else {
                self
            }
        } else if !self.is_standing(level) {
            BluttiView { state: PlayerState::Falling, ..self }
        } else if self.state != PlayerState::Idle {
            (BluttiView { state: PlayerState::Idle, ..self }).add_idle_animation()
        } else {
            self
        }
    }

    /// The player after it was stopped on `direction`. Jump and dash are
    /// over, the speed factor is back at one and the remainder is dropped;
    /// the velocity on the axis is zero, and the player comes to rest. The
    /// count of the fall stays: it ends on the ground or with a death, not
    /// when the player is stopped.
    #[verifier::opaque]
    pub open spec fn stop_movement(self, level: LevelView, direction: StopDirection) -> Self {
        (BluttiView {
            jump_timer: 0,
            dash_timer: 0,
            movement_modifier: ONE,
            remainder: Vec2::spec_zero(),
            velocity: match direction {
                StopDirection::X => Vec2 { x: 0, y: self.velocity.y },
                StopDirection::Y => Vec2 { x: self.velocity.x, y: 0 },
                StopDirection::Both => Vec2::spec_zero(),
            },
            ..self
        }).start_idling(level)
    }

    /// The state with which the player follows its wish to move sideways.
    #[verifier::opaque]
    pub open spec fn start_moving(self, level: LevelView) -> Self {
        let right = self.direction_x == DirectionX::Right;
        if self.is_on_ladder(level) {
            if self.state != PlayerState::ClimbingSideways {
                BluttiView {
                    velocity: Vec2 { x: self.velocity.x, y: 0 },
                    state: PlayerState::ClimbingSideways,
                    ..self
                }
            } else {
                self
            }
        } else if self.state.spec_is_falling() {
            BluttiView {
                state: if right {
                    PlayerState::FallingRight
                } else {
                    PlayerState::FallingLeft
                },
                ..self
            }
        } else if self.state.spec_is_jumping_up() {
            BluttiView {
                state: if right {
                    PlayerState::JumpingRight
                } else {
                    PlayerState::JumpingLeft
                },
                ..self
            }
        } else if self.is_standing(level) && !self.state.spec_is_running() {
            BluttiView {
                state: if right {
                    PlayerState::RunningRight
                } else {
                    PlayerState::RunningLeft
                },
                ..self.add_running_animation()
            }
        } else {
            self
        }
    }

    /// The state with which the player follows its wish to climb: it climbs
    /// if there is a ladder where it wants to go and it does not climb yet.
    #[verifier::opaque]
    pub open spec fn start_climbing(self, level: LevelView) -> Self {
        if self.can_climb(level) && self.state != PlayerState::ClimbingUp && self.state
            != PlayerState::ClimbingDown {
            let halted = BluttiView { velocity: Vec2 { x: 0, y: self.velocity.y }, ..self };
            let shown = if !self.state.spec_is_climbing() {
                halted.add_climbing_animation()
            } else {
                halted
            };
            BluttiView {
                state: if self.direction_y == DirectionY::Up {
                    PlayerState::ClimbingUp
                } else {
                    PlayerState::ClimbingDown
                },
                ..shown
            }
        } else {
            self
        }
    }

    /// The player told to go up at `speed`.
    pub open spec fn move_up(self, level: LevelView, speed: i32) -> Self {
        (BluttiView {
            movement_modifier: speed,
            direction_y: DirectionY::Up,
            ..self
        }).start_climbing(level)
    }

    /// The player told to go down at `speed`.
    pub open spec fn move_down(self, level: LevelView, speed: i32) -> Self {
        (BluttiView {
            movement_modifier: speed,
            direction_y: DirectionY::Down,
            ..self
        }).start_climbing(level)
    }

    /// The player after the direction was let go. On a slippery tile nothing
    /// changes.
    #[verifier::opaque]
    pub open spec fn stop(self, level: LevelView) -> Self {
        if self.is_standing_on(level, TileCollider::Slippery) {
            self
        } else {
            match self.state {
                PlayerState::RunningLeft | PlayerState::RunningRight => BluttiView {
                    stop_timer: RUNNING_STOP_TIME,
                    state: PlayerState::RunningStop,
                    ..self
                },
                PlayerState::FallingLeft | PlayerState::FallingRight => BluttiView {
                    state: PlayerState::Falling,
                    ..self
                },
                PlayerState::ClimbingUp | PlayerState::ClimbingDown => BluttiView {
                    state: PlayerState::ClimbingStop,
                    ..self
                },
                PlayerState::ClimbingSideways => BluttiView {
                    state: PlayerState::ClimbingSidewaysStop,
                    ..self
                },
                _ => self,
            }
        }
    }

    /// The player after the jump button was let go: a jump is cut off.
    pub open spec fn stop_jump(self) -> Self {
        if self.state.spec_is_jumping() {
            BluttiView { state: PlayerState::JumpingStop, ..self }
        } else {
            self
        }
    }

    /// The player pushed by `velocity`: it is added to the remainder.
    pub open spec fn force_move(self, velocity: Vec2) -> Self {
        BluttiView { remainder: self.remainder.spec_add(velocity), ..self }
    }

    /// The player with `lives` more lives; the count saturates.
    pub open spec fn add_lives(self, lives: i32) -> Self {
        BluttiView { lives: clip(self.lives + lives), ..self }
    }

    /// The player with `points` more points; the score saturates.
    pub open spec fn add_points(self, points: i32) -> Self {
        BluttiView { points: clip(self.points + points), ..self }
    }

    /// The horizontal acceleration and target velocity of the state, before
    /// the speed factor and the conveyor.
    pub open spec fn horizontal_profile(self) -> (int, int) {
        let moving_left = self.direction_x == DirectionX::Left;
        match self.state {
            PlayerState::RunningLeft => (-RUNNING_ACCELERATION, -MAX_VELOCITY),
            PlayerState::RunningRight => (RUNNING_ACCELERATION as int, MAX_VELOCITY as int),
            PlayerState::RunningStop | PlayerState::ClimbingSidewaysStop => if moving_left {
                (STOP_ACCELERATION as int, 0)
            } else {
                (-STOP_ACCELERATION, 0)
            },
            PlayerState::JumpingLeft => (-JUMP_ACCELERATION, -JUMP_VELOCITY),
            PlayerState::JumpingRight => (JUMP_ACCELERATION as int, JUMP_VELOCITY as int),
            PlayerState::JumpingStop => if self.velocity.x > 0 {
                (JUMP_ACCELERATION as int, JUMP_VELOCITY as int)
            } else if self.velocity.x < 0 {
                (-JUMP_ACCELERATION, -JUMP_VELOCITY)
            } else {
                (0, 0)
            },
            PlayerState::DashingLeft => (-DASH_ACCELERATION, -DASH_VELOCITY),
            PlayerState::DashingRight => (DASH_ACCELERATION as int, DASH_VELOCITY as int),
            PlayerState::ClimbingSideways => if moving_left {
                (-CLIMB_SIDEWAYS_ACCELERATION, -CLIMB_SIDEWAYS_VELOCITY)
            } else {
                (CLIMB_SIDEWAYS_ACCELERATION as int, CLIMB_SIDEWAYS_VELOCITY as int)
            },
            PlayerState::FallingLeft => (-FALLING_X_ACCELERATION, -MAX_FALLING_VELOCITY),
            PlayerState::FallingRight => (
                FALLING_X_ACCELERATION as int,
                MAX_FALLING_VELOCITY as int,
            ),
            _ => (0, 0),
        }
    }

    /// The vertical acceleration and target velocity of the state, before
    /// the speed factor.
    pub open spec fn vertical_profile(self) -> (int, int) {
        match self.state {
            PlayerState::Jumping | PlayerState::JumpingLeft | PlayerState::JumpingRight => (
                -RISE_ACCELERATION,
                -RISE_VELOCITY,
            ),
            PlayerState::JumpingStop => (JUMP_STOP_ACCELERATION as int, JUMP_STOP_VELOCITY as int),
            PlayerState::ClimbingUp => (-CLIMB_ACCELERATION, -CLIMB_VELOCITY),
            PlayerState::ClimbingDown => (CLIMB_ACCELERATION as int, CLIMB_VELOCITY as int),
            PlayerState::ClimbingStop => (-CLIMB_STOP_ACCELERATION, 0),
            PlayerState::Falling | PlayerState::FallingLeft | PlayerState::FallingRight => (
                GRAVITY_ACCELERATION as int,
                GRAVITY_MAX as int,
            ),
            _ => (0, 0),
        }
    }

    /// The horizontal acceleration of this tick: that of the state, scaled
    /// by the speed factor, plus the pull of a conveyor under the player.
    pub open spec fn horizontal_acceleration(self, level: LevelView) -> i32 {
        let base = clip(scaled(self.horizontal_profile().0, self.movement_modifier as int));
        if self.is_standing_on(level, TileCollider::Conveyor) {
            clip(base + CONVEYOR_ACCELERATION)
        } else {
            base
        }
    }

    /// The horizontal target velocity of this tick: that of the state,
    /// scaled by the speed factor; a conveyor under the player moves it
    /// further from zero, and from zero to the left.
    pub open spec fn horizontal_target(self, level: LevelView) -> i32 {
        let base = clip(scaled(self.horizontal_profile().1, self.movement_modifier as int));
        if self.is_standing_on(level, TileCollider::Conveyor) {
            if base > 0 {
                clip(base + CONVEYOR_SPEED)
            } else {
                clip(base - CONVEYOR_SPEED)
            }
        } else {
            base
        }
    }

    /// The player with the horizontal velocity of the next tick.
    #[verifier::opaque]
    pub open spec fn update_horizontal_velocity(self, level: LevelView) -> Self {
        BluttiView {
            velocity: Vec2 {
                x: clip(
                    approach(
                        self.velocity.x as int,
                        self.horizontal_acceleration(level) as int,
                        self.horizontal_target(level) as int,
                    ),
                ),
                y: self.velocity.y,
            },
            ..self
        }
    }

    /// The player with the vertical velocity of the next tick.
    #[verifier::opaque]
    pub open spec fn update_vertical_velocity(self) -> Self {
        BluttiView {
            velocity: Vec2 {
                x: self.velocity.x,
                y: clip(
                    approach(
                        self.velocity.y as int,
                        clip(
                            scaled(self.vertical_profile().0, self.movement_modifier as int),
                        ) as int,
                        clip(
                            scaled(self.vertical_profile().1, self.movement_modifier as int),
                        ) as int,
                    ),
                ),
            },
            ..self
        }
    }

    /// The player after the horizontal movement of one tick. If it ran into
    /// something, it was stopped on the horizontal axis where it stood
    /// before; position and remainder are those of the movement.
    #[verifier::opaque]
    pub open spec fn move_horizontally(self, level: LevelView) -> Self {
        let outcome = resolve_x(
            |p: Point| self.blocked_at(level, p),
            self.position,
            self.velocity,
            self.remainder,
        );
        let body = if outcome.blocked {
            self.stop_movement(level, StopDirection::X)
        } else {
            self
        };
        BluttiView { position: outcome.position, remainder: outcome.remainder, ..body }
    }

    /// The player after the vertical movement of one tick.
    #[verifier::opaque]
    pub open spec fn move_vertically(self, level: LevelView) -> Self {
        let outcome = resolve_y(
            |p: Point| self.blocked_at(level, p),
            self.position,
            self.velocity,
            self.remainder,
        );
        let body = if outcome.blocked {
            self.stop_movement(level, StopDirection::Y)
        } else {
            self
        };
        BluttiView { position: outcome.position, remainder: outcome.remainder, ..body }
    }

    /// The player back at its start, looking right, at rest, with no fall
    /// counted.
    #[verifier::opaque]
    pub open spec fn reset(self, level: LevelView) -> Self {
        let placed = BluttiView {
            died: false,
            direction_x: DirectionX::Right,
            direction_y: DirectionY::Up,
            position: self.start_position,
            fall_timer: 0,
            ..self
        };
        BluttiView {
            current_tile: 0,
            ..placed.stop_movement(level, StopDirection::Both).add_idle_animation()
        }
    }
}

impl Updateable for Blutti {
    open spec fn body_wf(&self) -> bool {
        self@.wf()
    }

    open spec fn place(&self) -> Point {
        self.position
    }

    open spec fn obstacle(&self, level: &Level) -> spec_fn(Point) -> bool {
        |p: Point| self@.blocked_at(level@, p)
    }

    open spec fn halted(&self, level: &Level, direction: StopDirection, after: &Self) -> bool {
        after@ == self@.stop_movement(level@, direction)
    }

    fn position(&self) -> (r: Point) {
        self.position
    }

    fn collision_at(&self, level: &Level, position: Point) -> (r: bool) {
        let (left, right): (i32, i32) = if self.state.is_climbing() {
            if self.direction_x == DirectionX::Left {
                (3, TILE_WIDTH - 1 - 4)
            } else {
                (4, TILE_WIDTH - 1 - 3)
            }
        } else {
            if self.direction_x == DirectionX::Left {
                (0, TILE_WIDTH - 1 - 3)
            } else {
                (3, TILE_WIDTH - 1)
            }
        };
        !(Self::is_position_free(level, position.shifted(left, 0)) && Self::is_position_free(
            level,
            position.shifted(right, 0),
        ) && Self::is_position_free(level, position.shifted(left, TILE_HEIGHT - 1))
            && Self::is_position_free(level, position.shifted(right, TILE_HEIGHT - 1)))
    }

    fn stop_movement(&mut self, level: &Level, direction: StopDirection) {
        proof {
            reveal(BluttiView::stop_movement);
        }
        self.jump_timer = 0;
        self.dash_timer = 0;
        self.movement_modifier = ONE;
        self.remainder = Vec2::zero();
        match direction {
            StopDirection::X => self.velocity.x = 0,
            StopDirection::Y => self.velocity.y = 0,
            StopDirection::Both => self.velocity = Vec2::zero(),
        };
        self.start_idling(level);
    }
}

impl Blutti {
    /// See [`BluttiView::wf`].
    pub open spec fn wf(&self) -> bool {
        self@.wf()
    }

    /// Whether the player is well-formed.
    pub fn is_wf(&self) -> (r: bool)
        ensures
            r == self.wf(),
    {
        let limit: i32 = crate::constants::COORD_LIMIT;
        -limit <= self.position.x && self.position.x <= limit && -limit <= self.position.y
            && self.position.y <= limit && -limit <= self.start_position.x
            && self.start_position.x <= limit && -limit <= self.start_position.y
            && self.start_position.y <= limit && self.animation.is_wf()
    }

    /// Whether neither a solid tile nor a blocking monster is at `position`.
    pub fn is_position_free(level: &Level, position: Point) -> (r: bool)
        requires
            level.wf(),
            position.in_reach(),
        ensures
            r == BluttiView::is_position_free(level@, position),
    {
        level.is_tile_free(position) && !level.is_blocked_by_monster(
            position,
            MonsterCollision::Blocking,
        )
    }

    /// The footprint of the player.
    pub fn rect(&self) -> (r: Rect)
        ensures
            r == self@.rect(),
    {
        Rect::from(self.position)
    }

    /// Whether the footprint holds the origin of `other` or the corner
    /// opposite to it.
    pub fn overlaps(&self, other: Rect) -> (r: bool)
        requires
            other.in_bounds(),
        ensures
            r == self@.rect().spec_overlaps(other),
    {
        self.rect().overlaps(other)
    }

    /// Whether a tile of the kind `collider` lies under one of the feet.
    pub fn is_standing_on(&self, level: &Level, collider: TileCollider) -> (r: bool)
        requires
            self.wf(),
            level.wf(),
        ensures
            r == self@.is_standing_on(level@, collider),
    {
        level.collision(self.position.shifted(0, TILE_HEIGHT)) == collider || level.collision(
            self.position.shifted(TILE_WIDTH - 1, TILE_HEIGHT),
        ) == collider
    }

    /// Whether the player has something to stand on.
    pub fn is_standing(&self, level: &Level) -> (r: bool)
        requires
            self.wf(),
            level.wf(),
        ensures
            r == self@.is_standing(level@),
    {
        if self.is_standing_on(level, TileCollider::Climbable) {
            return true;
        }
        !(Self::is_position_free(level, self.position.shifted(0, TILE_HEIGHT))
            && Self::is_position_free(level, self.position.shifted(TILE_WIDTH - 1, TILE_HEIGHT)))
    }

    fn grip(&self) -> (r: (i32, i32))
        ensures
            r.0 == self@.grip().0,
            r.1 == self@.grip().1,
    {
        if self.direction_x == DirectionX::Left {
            (0, TILE_WIDTH - 1 - 3)
        } else {
            (3, TILE_WIDTH - 1)
        }
    }

    fn is_on_ladder_below(&self, level: &Level) -> (r: bool)
        requires
            self.wf(),
            level.wf(),
        ensures
            r == self@.is_on_ladder_below(level@),
    {
        let (left, right) = self.grip();
        level.collision(self.position.shifted(left, TILE_HEIGHT)) == TileCollider::Climbable
            || level.collision(self.position.shifted(right, TILE_HEIGHT))
            == TileCollider::Climbable
    }

    /// Whether a ladder is at the player's feet.
    pub fn is_on_ladder(&self, level: &Level) -> (r: bool)
        requires
            self.wf(),
            level.wf(),
        ensures
            r == self@.is_on_ladder(level@),
    {
        if self.direction_y == DirectionY::Down {
            self.is_on_ladder_below(level)
        } else {
            let (left, right) = self.grip();
            level.collision(self.position.shifted(left, TILE_HEIGHT - 1))
                == TileCollider::Climbable || level.collision(
                self.position.shifted(right, TILE_HEIGHT - 1),
            ) == TileCollider::Climbable
        }
    }

    /// Whether a ladder is where the player wants to climb.
    pub fn can_climb(&self, level: &Level) -> (r: bool)
        requires
            self.wf(),
            level.wf(),
        ensures
            r == self@.can_climb(level@),
    {
        match self.direction_y {
            DirectionY::Up => self.is_on_ladder(level),
            DirectionY::Down => self.is_on_ladder_below(level),
        }
    }

    fn is_moving(&self) -> (r: bool)
        ensures
            r == self@.is_moving(),
    {
        !self.velocity.is_zero() && !self.remainder.is_zero()
    }

    fn add_idle_animation(&mut self)
        ensures
            final(self)@ == old(self)@.add_idle_animation(),
            final(self).animation.wf(),
    {
        self.animation = match self.direction_x {
            DirectionX::Left => Animation::animation_idle_left(),
            DirectionX::Right => Animation::animation_idle_right(),
        }
    }

    fn add_running_animation(&mut self)
        ensures
            final(self)@ == old(self)@.add_running_animation(),
            final(self).animation.wf(),
    {
        self.animation = match self.direction_x {
            DirectionX::Left => Animation::animation_running_left(),
            DirectionX::Right => Animation::animation_running_right(),
        }
    }

    fn add_death_animation(&mut self)
        ensures
            final(self)@ == old(self)@.add_death_animation(),
            final(self).animation.wf(),
    {
        self.animation = Animation::animation_death()
    }

    fn add_exit_animation(&mut self)
        ensures
            final(self)@ == old(self)@.add_exit_animation(),
            final(self).animation.wf(),
    {
        self.animation = match self.direction_x {
            DirectionX::Left => Animation::animation_exit_left(),
            DirectionX::Right => Animation::animation_exit_right(),
        }
    }

    fn add_climbing_animation(&mut self)
        ensures
            final(self)@ == old(self)@.add_climbing_animation(),
            final(self).animation.wf(),
    {
        self.animation = match self.direction_x {
            DirectionX::Right => Animation::animation_climb_right(),
            DirectionX::Left => Animation::animation_climb_left(),
        }
    }

    fn start_idling(&mut self, level: &Level)
        requires
            old(self).wf(),
            level.wf(),
        ensures
            final(self)@ == old(self)@.start_idling(level@),
            final(self).wf(),
    {
        proof {
            reveal(BluttiView::start_idling);
        }
        if self.is_on_ladder(level) {
            if self.state != PlayerState::ClimbingIdle {
                self.state = PlayerState::ClimbingIdle;
                self.add_climbing_animation();
            }
        } else if !self.is_standing(level) {
            self.state = PlayerState::Falling;
        } else if self.state != PlayerState::Idle {
            self.state = PlayerState::Idle;
            self.add_idle_animation();
        }
    }

    fn start_moving(&mut self, level: &Level)
        requires
            old(self).wf(),
            level.wf(),
        ensures
            final(self)@ == old(self)@.start_moving(level@),
            final(self).wf(),
    {
        proof {
            reveal(BluttiView::start_moving);
        }
        if self.is_on_ladder(level) {
            if self.state != PlayerState::ClimbingSideways {
                self.velocity.y = 0;
                self.state = PlayerState::ClimbingSideways;
            }
        } else if self.state.is_falling() {
            self.state = if self.direction_x == DirectionX::Right {
                PlayerState::FallingRight
            } else {
                PlayerState::FallingLeft
            };
        } else if self.state.is_jumping_up() {
            self.state = if self.direction_x == DirectionX::Right {
                PlayerState::JumpingRight
            } else {
                PlayerState::JumpingLeft
            };
        } else if self.is_standing(level) {
            if !self.state.is_running() {
                self.add_running_animation();
                self.state = if self.direction_x == DirectionX::Right {
                    PlayerState::RunningRight
                } else {
                    PlayerState::RunningLeft
                };
            }
        }
    }

    fn start_climbing(&mut self, level: &Level)
        requires
            old(self).wf(),
            level.wf(),
        ensures
            final(self)@ == old(self)@.start_climbing(level@),
            final(self).wf(),
    {
        proof {
            reveal(BluttiView::start_climbing);
        }
        if self.can_climb(level) && !(self.state == PlayerState::ClimbingUp || self.state
            == PlayerState::ClimbingDown) {
            self.velocity.x = 0;
            if !self.state.is_climbing() {
                self.add_climbing_animation();
            }
            if self.direction_y == DirectionY::Up {
                self.state = PlayerState::ClimbingUp;
            } else {
                self.state = PlayerState::ClimbingDown;
            }
        }
    }

    /// Pushes the player by `velocity`.
    pub fn force_move(&mut self, velocity: Vec2)
        ensures
            final(self)@ == old(self)@.force_move(velocity),
    {
        self.remainder = self.remainder.add(velocity);
    }

    /// Tells the player to go up at `speed`, a factor in thousandths.
    pub fn move_up(&mut self, level: &Level, speed: i32)
        requires
            old(self).wf(),
            level.wf(),
        ensures
            final(self)@ == old(self)@.move_up(level@, speed),
            final(self).wf(),
    {
        self.movement_modifier = speed;
        if self.direction_y != DirectionY::Up {
            self.direction_y = DirectionY::Up;
        }
        self.start_climbing(level);
    }

    /// Tells the player to go down at `speed`, a factor in thousandths.
    pub fn move_down(&mut self, level: &Level, speed: i32)
        requires
            old(self).wf(),
            level.wf(),
        ensures
            final(self)@ == old(self)@.move_down(level@, speed),
            final(self).wf(),
    {
        self.movement_modifier = speed;
        if self.direction_y != DirectionY::Down {
            self.direction_y = DirectionY::Down;
        }
        self.start_climbing(level);
    }

    /// Tells the player that the direction was let go.
    pub fn stop(&mut self, level: &Level)
        requires
            old(self).wf(),
            level.wf(),
        ensures
            final(self)@ == old(self)@.stop(level@),
            final(self).wf(),
    {
        proof {
            reveal(BluttiView::stop);
        }
        if self.is_standing_on(level, TileCollider::Slippery) {
            return ;
        }
        match self.state {
            PlayerState::RunningLeft | PlayerState::RunningRight => {
                self.stop_timer = RUNNING_STOP_TIME;
                self.state = PlayerState::RunningStop
            },
            PlayerState::FallingLeft | PlayerState::FallingRight => {
                self.state = PlayerState::Falling;
            },
            PlayerState::ClimbingUp | PlayerState::ClimbingDown => {
                self.state = PlayerState::ClimbingStop
            },
            PlayerState::ClimbingSideways => self.state = PlayerState::ClimbingSidewaysStop,
            _ => (),
        }
    }

    /// Switches the debug overlay on or off.
    pub fn toggle_debug(&mut self)
        ensures
            final(self)@ == (BluttiView { debug: !old(self).debug, ..old(self)@ }),
    {
        self.debug = !self.debug
    }

    /// Tells the player that the jump button was let go.
    pub fn stop_jump(&mut self)
        ensures
            final(self)@ == old(self)@.stop_jump(),
    {
        if self.state.is_jumping() {
            self.state = PlayerState::JumpingStop
        }
    }

    /// Adds lives, or takes them when `lives` is negative, and hands back
    /// the new count.
    pub fn add_lives(&mut self, lives: i32) -> (r: i32)
        ensures
            final(self)@ == old(self)@.add_lives(lives),
            r == final(self).lives,
    {
        self.lives = sat_add(self.lives, lives);
        self.lives
    }

    /// Adds points and hands back the new score.
    pub fn add_points(&mut self, points: i32) -> (r: i32)
        ensures
            final(self)@ == old(self)@.add_points(points),
            r == final(self).points,
    {
        self.points = sat_add(self.points, points);
        self.points
    }

    /// Whether the player has a life left.
    pub fn is_alive(&self) -> (r: bool)
        ensures
            r == (self.lives > 0),
    {
        self.lives > 0
    }

    /// Puts the player back at its start after a death.
    pub fn reset(&mut self, level: &Level)
        requires
            old(self).wf(),
            level.wf(),
        ensures
            final(self)@ == old(self)@.reset(level@),
            final(self).wf(),
    {
        proof {
            reveal(BluttiView::reset);
        }
        self.died = false;
        self.direction_x = DirectionX::Right;
        self.direction_y = DirectionY::Up;
        self.position = self.start_position;
        self.fall_timer = 0;
        self.stop_movement(level, StopDirection::Both);
        self.add_idle_animation();
        self.current_tile = 0;
    }

    fn horizontal_profile(&self) -> (r: (i32, i32))
        ensures
            r.0 == self@.horizontal_profile().0,
            r.1 == self@.horizontal_profile().1,
    {
        let moving_left = self.direction_x == DirectionX::Left;
        match self.state {
            PlayerState::RunningLeft => (-RUNNING_ACCELERATION, -MAX_VELOCITY),
            PlayerState::RunningRight => (RUNNING_ACCELERATION, MAX_VELOCITY),
            PlayerState::RunningStop | PlayerState::ClimbingSidewaysStop => if moving_left {
                (STOP_ACCELERATION, 0)
            } else {
                (-STOP_ACCELERATION, 0)
            },
            PlayerState::JumpingLeft => (-JUMP_ACCELERATION, -JUMP_VELOCITY),
            PlayerState::JumpingRight => (JUMP_ACCELERATION, JUMP_VELOCITY),
            PlayerState::JumpingStop => {
                if self.velocity.x > 0 {
                    (JUMP_ACCELERATION, JUMP_VELOCITY)
                } else if self.velocity.x < 0 {
                    (-JUMP_ACCELERATION, -JUMP_VELOCITY)
                } else {
                    (0, 0)
                }
            },
            PlayerState::DashingLeft => (-DASH_ACCELERATION, -DASH_VELOCITY),
            PlayerState::DashingRight => (DASH_ACCELERATION, DASH_VELOCITY),
            PlayerState::ClimbingSideways => if moving_left {
                (-CLIMB_SIDEWAYS_ACCELERATION, -CLIMB_SIDEWAYS_VELOCITY)
            } else {
                (CLIMB_SIDEWAYS_ACCELERATION, CLIMB_SIDEWAYS_VELOCITY)
            },
            PlayerState::FallingLeft => (-FALLING_X_ACCELERATION, -MAX_FALLING_VELOCITY),
            PlayerState::FallingRight => (FALLING_X_ACCELERATION, MAX_FALLING_VELOCITY),
            _ => (0, 0),
        }
    }

    fn vertical_profile(&self) -> (r: (i32, i32))
        ensures
            r.0 == self@.vertical_profile().0,
            r.1 == self@.vertical_profile().1,
    {
        match self.state {
            PlayerState::Jumping | PlayerState::JumpingLeft | PlayerState::JumpingRight => {
                (-RISE_ACCELERATION, -RISE_VELOCITY)
            },
            PlayerState::JumpingStop => (JUMP_STOP_ACCELERATION, JUMP_STOP_VELOCITY),
            PlayerState::ClimbingUp => (-CLIMB_ACCELERATION, -CLIMB_VELOCITY),
            PlayerState::ClimbingDown => (CLIMB_ACCELERATION, CLIMB_VELOCITY),
            PlayerState::ClimbingStop => (-CLIMB_STOP_ACCELERATION, 0),
            PlayerState::Falling | PlayerState::FallingLeft | PlayerState::FallingRight => {
                (GRAVITY_ACCELERATION, GRAVITY_MAX)
            },
            _ => (0, 0),
        }
    }

    /// Sets the horizontal velocity of the next tick.
    pub fn update_horizontal_velocity(&mut self, level: &Level)
        requires
            old(self).wf(),
            level.wf(),
        ensures
            final(self)@ == old(self)@.update_horizontal_velocity(level@),
            final(self).wf(),
    {
        proof {
            reveal(BluttiView::update_horizontal_velocity);
        }
        let (base_acceleration, base_target) = self.horizontal_profile();
        let mut acceleration: i32 = scale_by(base_acceleration, self.movement_modifier);
        let mut target_velocity: i32 = scale_by(base_target, self.movement_modifier);
        if self.is_standing_on(level, TileCollider::Conveyor) {
            acceleration = sat_add(acceleration, CONVEYOR_ACCELERATION);
            if target_velocity > 0 {
                target_velocity = sat_add(target_velocity, CONVEYOR_SPEED);
            } else {
                target_velocity = sat_sub(target_velocity, CONVEYOR_SPEED);
            }
        }
        self.velocity.x = accelerate(self.velocity.x, acceleration, target_velocity);
    }

    /// Sets the vertical velocity of the next tick.
    pub fn update_vertical_velocity(&mut self)
        requires
            old(self).wf(),
        ensures
            final(self)@ == old(self)@.update_vertical_velocity(),
            final(self).wf(),
    {
        proof {
            reveal(BluttiView::update_vertical_velocity);
        }
        let (base_acceleration, base_target) = self.vertical_profile();
        let acceleration: i32 = scale_by(base_acceleration, self.movement_modifier);
        let target_velocity: i32 = scale_by(base_target, self.movement_modifier);
        self.velocity.y = accelerate(self.velocity.y, acceleration, target_velocity);
    }
}

/// The sprites of the dust that a jump to the right raises.
pub open spec fn jump_right_sprites() -> Seq<Sprite> {
    seq![80i32, 81i32, 82i32, 83i32]
}

/// The sprites of the dust that a jump to the left raises.
pub open spec fn jump_left_sprites() -> Seq<Sprite> {
    seq![84i32, 85i32, 86i32, 87i32]
}

/// The sprites of the afterimage of a dash to the right.
pub open spec fn dash_right_sprites() -> Seq<Sprite> {
    seq![96i32, 97i32, 98i32, 99i32]
}

/// The sprites of the afterimage of a dash to the left.
pub open spec fn dash_left_sprites() -> Seq<Sprite> {
    seq![100i32, 101i32, 102i32, 103i32]
}

/// The sprites of the dust that a turn to the right raises.
pub open spec fn turn_right_sprites() -> Seq<Sprite> {
    seq![88i32, 89i32, 90i32, 91i32]
}

/// The sprites of the dust that a turn to the left raises.
pub open spec fn turn_left_sprites() -> Seq<Sprite> {
    seq![76i32, 77i32, 78i32, 79i32]
}

/// The sprites of the sparkle that a pick-up leaves.
pub open spec fn collection_sprites() -> Seq<Sprite> {
    seq![104i32, 105i32, 106i32, 107i32]
}

/// The player, the level it is in and the outbox, taken together: what a
/// step of the player can change.
pub struct World {
    pub blutti: BluttiView,
    pub level: LevelView,
    pub out: OutboxView,
}

/// The world made of the values of a player, a level and an outbox.
pub open spec fn world(blutti: Blutti, level: Level, out: Outbox) -> World {
    World { blutti: blutti@, level: level@, out: out@ }
}

impl World {
    /// The player and the level are well-formed.
    pub open spec fn wf(self) -> bool {
        self.blutti.wf() && self.level.wf()
    }

    /// The world with `blutti` as its player.
    pub open spec fn with_blutti(self, blutti: BluttiView) -> World {
        World { blutti, ..self }
    }

    /// The world with `sound` as the next effect.
    pub open spec fn play_sound(self, sound: Sound) -> World {
        World { out: self.out.play_sound(sound), ..self }
    }

    /// The world with one more request for a counter.
    pub open spec fn add_progress(self, badge: Badge, amount: i32) -> World {
        World { out: self.out.add_progress(badge, amount), ..self }
    }

    /// The world with a one-shot particle of the given sprites at
    /// `position`.
    pub open spec fn add_particle(self, position: Point, sprites: Seq<Sprite>) -> World {
        World {
            level: self.level.add_particle(
                ParticleView {
                    position,
                    animation: AnimationView::fresh(sprites, ONCE_FRAME_TIME, false),
                    movement: ParticleMovement::Stationary,
                },
            ),
            ..self
        }
    }

    /// The world with a one-shot particle that follows the player at a
    /// distance of `offset_x`.
    pub open spec fn add_dash_particle(self, sprites: Seq<Sprite>, offset_x: i32) -> World {
        World {
            level: self.level.add_particle(
                ParticleView {
                    position: self.blutti.position.offset(offset_x as int, 0),
                    animation: AnimationView::fresh(sprites, ONCE_FRAME_TIME, false),
                    movement: ParticleMovement::Following(offset_x),
                },
            ),
            ..self
        }
    }

    /// Dust at the player's feet.
    pub open spec fn add_jump_animation(self) -> World {
        self.add_particle(
            self.blutti.position.spec_bottom_left(),
            if self.blutti.direction_x == DirectionX::Left {
                jump_left_sprites()
            } else {
                jump_right_sprites()
            },
        )
    }

    /// An afterimage one tile behind the player.
    pub open spec fn add_dash_animation(self) -> World {
        if self.blutti.direction_x == DirectionX::Left {
            self.add_dash_particle(dash_left_sprites(), TILE_WIDTH)
        } else {
            self.add_dash_particle(dash_right_sprites(), (-TILE_WIDTH) as i32)
        }
    }

    /// Dust at the foot on the side to which the player turned.
    pub open spec fn add_turn_animation(self) -> World {
        if self.blutti.direction_x == DirectionX::Left {
            self.add_particle(
                self.blutti.position.offset(0, TILE_HEIGHT - 1 - 2),
                turn_left_sprites(),
            )
        } else {
            self.add_particle(
                self.blutti.position.offset(TILE_WIDTH - 1, TILE_HEIGHT - 1 - 2),
                turn_right_sprites(),
            )
        }
    }

    /// The player facing `direction`; a change of the facing raises dust and
    /// shows the run.
    #[verifier::opaque]
    pub open spec fn turn(self, direction: DirectionX) -> World {
        if self.blutti.direction_x != direction {
            let turned = self.with_blutti(
                BluttiView { direction_x: direction, ..self.blutti },
            ).add_turn_animation();
            turned.with_blutti(turned.blutti.add_running_animation())
        } else {
            self
        }
    }

    /// The player told to go in `direction` at `speed`.
    #[verifier::opaque]
    pub open spec fn move_sideways(self, direction: DirectionX, speed: i32) -> World {
        let turned = self.with_blutti(
            BluttiView { movement_modifier: speed, ..self.blutti },
        ).turn(direction);
        turned.with_blutti(turned.blutti.start_moving(turned.level))
    }

    /// The player taking off. A jump from a run keeps the direction of the
    /// run; a jump from a slippery tile may rise for half the time only.
    #[verifier::opaque]
    pub open spec fn jump(self) -> World {
        let b = self.blutti;
        self.play_sound(Sound::Jump).with_blutti(
            BluttiView {
                state: match b.state {
                    PlayerState::RunningLeft => PlayerState::JumpingLeft,
                    PlayerState::RunningRight => PlayerState::JumpingRight,
                    _ => PlayerState::Jumping,
                },
                jump_max_time: if b.is_standing_on(self.level, TileCollider::Slippery) {
                    (JUMP_TIME / 2) as i32
                } else {
                    JUMP_TIME
                },
                jump_buffer_timer: 0,
                ..b
            },
        ).add_jump_animation()
    }

    /// The jump button was pressed: the player jumps if it stands, or if it
    /// has fallen for less than `COYOTE_THRESHOLD` ticks; else the wish is
    /// remembered for `JUMP_BUFFER` ticks.
    #[verifier::opaque]
    pub open spec fn start_jump(self) -> World {
        let b = self.blutti;
        if b.is_standing(self.level) || (b.state.spec_is_falling() && b.fall_timer
            < COYOTE_THRESHOLD) {
            self.jump()
        } else {
            self.with_blutti(BluttiView { jump_buffer_timer: JUMP_BUFFER, ..b })
        }
    }

    /// The dash button was pressed: in the air, and unless it has to wait,
    /// the player dashes the way it jumps or falls, else the way it looks.
    #[verifier::opaque]
    pub open spec fn start_dash(self) -> World {
        let b = self.blutti;
        if b.dash_timer < 0 || !(b.state.spec_is_jumping() || b.state.spec_is_falling()) {
            self
        } else {
            let left = match b.state {
                PlayerState::JumpingLeft | PlayerState::FallingLeft => true,
                PlayerState::JumpingRight | PlayerState::FallingRight => false,
                _ => b.direction_x == DirectionX::Left,
            };
            self.with_blutti(
                BluttiView {
                    state: if left {
                        PlayerState::DashingLeft
                    } else {
                        PlayerState::DashingRight
                    },
                    dash_timer: DASH_TIME,
                    ..b
                },
            ).add_dash_animation().play_sound(Sound::Dash)
        }
    }

    /// The player dies, unless it cannot: the monsters go back to where
    /// they started, and the player is back at its start, at rest, with no
    /// fall counted and one life less.
    #[verifier::opaque]
    pub open spec fn die(self) -> World {
        if self.blutti.iddqd {
            self
        } else {
            let level = self.level.reset();
            let stopped = (BluttiView {
                position: self.blutti.start_position,
                fall_timer: 0,
                ..self.blutti
            }).stop_movement(level, StopDirection::Both);
            let dead = (BluttiView {
                state: PlayerState::Idle,
                ..stopped
            }).add_death_animation().add_lives(-1i32);
            World {
                blutti: BluttiView { died: true, ..dead },
                level,
                out: self.out.add_progress(Badge::Deaths, 1).play_sound(Sound::Death),
            }
        }
    }

    /// The player leaves the level.
    #[verifier::opaque]
    pub open spec fn finish_level(self) -> World {
        self.play_sound(Sound::Exit).with_blutti(
            (BluttiView { finished_level: true, ..self.blutti }).add_exit_animation(),
        ).add_progress(Badge::Levels, 1)
    }

    /// The player touches an exit: with enough stars it leaves; else it is
    /// told so, once per tile.
    #[verifier::opaque]
    pub open spec fn exit(self) -> World {
        let b = self.blutti;
        if b.stars >= self.level.stars {
            self.finish_level()
        } else {
            let tile = tile_index(b.position) as i32;
            if tile != b.current_tile {
                self.play_sound(Sound::Wrong).with_blutti(BluttiView { current_tile: tile, ..b })
            } else {
                self
            }
        }
    }

    /// The tile of `collision` is taken away and leaves a sparkle.
    #[verifier::opaque]
    pub open spec fn handle_collection(self, collision: Collision) -> World {
        (World { level: self.level.remove_tile(collision.position), ..self }).add_particle(
            origin_of(collision.position),
            collection_sprites(),
        )
    }

    /// The player picks up a star: the tile is taken, a point and a star are
    /// counted.
    #[verifier::opaque]
    pub open spec fn collect_star(self, collision: Collision) -> World {
        let taken = self.handle_collection(collision);
        let b = taken.blutti.add_points(1);
        taken.with_blutti(BluttiView { stars: clip(b.stars + 1), ..b }).add_progress(
            Badge::Stars,
            1,
        ).play_sound(Sound::Coin)
    }

    /// The player picks up something worth `points`.
    #[verifier::opaque]
    pub open spec fn collect_collectable(self, collision: Collision, points: i32) -> World {
        let taken = self.handle_collection(collision);
        taken.with_blutti(taken.blutti.add_points(points)).play_sound(Sound::Coin)
    }

    /// The player picks up an extra life.
    #[verifier::opaque]
    pub open spec fn collect_extra_life(self, collision: Collision) -> World {
        let taken = self.handle_collection(collision);
        taken.with_blutti(taken.blutti.add_lives(1)).play_sound(Sound::Powerup)
    }

    /// What the tile of `collision` does to the player.
    #[verifier::opaque]
    pub open spec fn apply_collision(self, collision: Collision) -> World {
        match collision.tile_collider {
            TileCollider::Collectible(points) => self.collect_collectable(collision, points),
            TileCollider::Deadly => self.die(),
            TileCollider::Exit => self.exit(),
            TileCollider::ExtraLife => self.collect_extra_life(collision),
            TileCollider::Star => self.collect_star(collision),
            _ => self,
        }
    }

    /// The effect of the tiles under the player: that of the tile found last
    /// among the four corners of its footprint. The player then remembers
    /// the tile it is on.
    #[verifier::opaque]
    pub open spec fn handle_effects(self) -> World {
        let touched = match self.level.last_collision_at_rect(self.blutti.position) {
            Some(collision) => self.apply_collision(collision),
            None => self,
        };
        touched.with_blutti(
            BluttiView {
                current_tile: tile_index(touched.blutti.position) as i32,
                ..touched.blutti
            },
        )
    }

    /// A jump that was asked for in the air is made as soon as the player
    /// stands.
    #[verifier::opaque]
    pub open spec fn buffered_jump(self) -> World {
        if self.blutti.is_standing(self.level) && self.blutti.jump_buffer_timer > 0 {
            self.jump()
        } else {
            self
        }
    }

    /// On the ground a fall of more than `MAX_FALL_HEIGHT` ticks kills and
    /// a shorter one is forgotten; a player that has lost the ground and
    /// neither jumps, dashes nor falls yet is stopped vertically and so
    /// begins to fall.
    #[verifier::opaque]
    pub open spec fn check_fall(self) -> World {
        let b = self.blutti;
        if b.is_standing(self.level) {
            if b.fall_timer > MAX_FALL_HEIGHT {
                self.die()
            } else {
                self.with_blutti(BluttiView { fall_timer: 0, ..b })
            }
        } else if !b.state.spec_is_jumping() && !b.state.spec_is_dashing()
            && !b.state.spec_is_falling() {
            self.with_blutti(b.stop_movement(self.level, StopDirection::Y))
        } else {
            self
        }
    }

    /// A player in the bottom row of the screen dies.
    #[verifier::opaque]
    pub open spec fn check_bottom(self) -> World {
        if self.blutti.position.y >= HEIGHT - TILE_HEIGHT {
            self.die()
        } else {
            self
        }
    }

    /// A player that a deadly monster overlaps dies.
    #[verifier::opaque]
    pub open spec fn check_monsters(self) -> World {
        if self.level.deadly_overlap(self.blutti.rect()) {
            self.die()
        } else {
            self
        }
    }

    /// The player stands after a fall of more than `MAX_FALL_HEIGHT` ticks.
    pub open spec fn falls_to_death(self) -> bool {
        self.blutti.is_standing(self.level) && self.blutti.fall_timer > MAX_FALL_HEIGHT
    }

    /// The player is in the bottom row of the screen.
    pub open spec fn is_sunk(self) -> bool {
        self.blutti.position.y >= HEIGHT - TILE_HEIGHT
    }

    /// The dangers of a tick, in their order: the landing after a fall, the
    /// bottom of the screen, and the deadly monsters. The first that kills is
    /// the last that is looked at, so that the player dies at most once.
    #[verifier::opaque]
    pub open spec fn perils(self) -> World {
        let fell = self.check_fall();
        if self.falls_to_death() {
            fell
        } else if fell.is_sunk() {
            fell.check_bottom()
        } else {
            fell.check_monsters()
        }
    }

    /// The transitions that the surroundings force on the player in one
    /// tick, in their order.
    #[verifier::opaque]
    pub open spec fn update_states(self) -> World {
        let counted = self.with_blutti(self.blutti.count_fall()).buffered_jump();
        let b = counted.blutti.tick_jump_buffer().settle(counted.level).tick_running_stop(
            counted.level,
        ).tick_jump(counted.level).tick_dash(counted.level);
        counted.with_blutti(b).perils()
    }

    /// One tick of the player: animation, velocities, movement on both
    /// axes, then the forced transitions.
    #[verifier::opaque]
    pub open spec fn update(self) -> World {
        let b = self.blutti;
        let moved = (BluttiView {
            animation: b.animation.update(),
            ..b
        }).update_horizontal_velocity(self.level).update_vertical_velocity().move_horizontally(
            self.level,
        ).move_vertically(self.level);
        self.with_blutti(moved).update_states()
    }
}

impl BluttiView {
    /// A falling player counts the tick.
    pub open spec fn count_fall(self) -> Self {
        if self.state.spec_is_falling() {
            BluttiView { fall_timer: clip(self.fall_timer + 1), ..self }
        } else {
            self
        }
    }

    /// In the air the remembered wish to jump fades by one tick.
    pub open spec fn tick_jump_buffer(self) -> Self {
        if self.state.spec_is_falling() || self.state.spec_is_jumping() {
            BluttiView { jump_buffer_timer: clip(self.jump_buffer_timer - 1), ..self }
        } else {
            self
        }
    }

    /// A player whose state no longer fits is stopped on both axes: one
    /// that neither moves, idles, jumps nor falls, one that climbs without a
    /// ladder, and one that idles on a ladder.
    #[verifier::opaque]
    pub open spec fn settle(self, level: LevelView) -> Self {
        let on_ladder = self.is_on_ladder(level);
        if (!self.is_moving() && !self.state.spec_is_idling() && !self.state.spec_is_jumping()
            && !self.state.spec_is_falling()) || (self.state.spec_is_climbing() && !on_ladder)
            || (self.state == PlayerState::Idle && on_ladder) {
            self.stop_movement(level, StopDirection::Both)
        } else {
            self
        }
    }

    /// A run that was let go lasts `RUNNING_STOP_TIME` ticks more and then
    /// stops.
    #[verifier::opaque]
    pub open spec fn tick_running_stop(self, level: LevelView) -> Self {
        if self.state == PlayerState::RunningStop {
            if self.stop_timer > 0 {
                BluttiView { stop_timer: (self.stop_timer - 1) as i32, ..self }
            } else {
                self.stop_movement(level, StopDirection::X)
            }
        } else {
            self
        }
    }

    /// A jump rises for `jump_max_time` ticks and is then cut off; a jump
    /// that was cut off runs its count back down and then stops vertically.
    #[verifier::opaque]
    pub open spec fn tick_jump(self, level: LevelView) -> Self {
        if !self.state.spec_is_jumping() {
            self
        } else if self.state == PlayerState::JumpingStop {
            let counted = BluttiView { jump_timer: clip(self.jump_timer - 1), ..self };
            if counted.jump_timer <= 0 {
                counted.stop_movement(level, StopDirection::Y)
            } else {
                counted
            }
        } else {
            let counted = BluttiView { jump_timer: clip(self.jump_timer + 1), ..self };
            if counted.jump_timer > counted.jump_max_time {
                BluttiView { state: PlayerState::JumpingStop, ..counted }
            } else {
                counted
            }
        }
    }

    /// A dash lasts until its count is down; then the player stops
    /// horizontally and has to wait `DASH_WAIT_TIME` ticks. The wait counts
    /// back up to zero while the player does not dash.
    #[verifier::opaque]
    pub open spec fn tick_dash(self, level: LevelView) -> Self {
        if self.state.spec_is_dashing() {
            let counted = BluttiView { dash_timer: clip(self.dash_timer - 1), ..self };
            if counted.dash_timer == 0 {
                BluttiView {
                    dash_timer: (-DASH_WAIT_TIME) as i32,
                    ..counted.stop_movement(level, StopDirection::X)
                }
            } else {
                counted
            }
        } else if self.dash_timer < 0 {
            BluttiView { dash_timer: (self.dash_timer + 1) as i32, ..self }
        } else {
            self
        }
    }
}

impl Default for Blutti {
    fn default() -> (r: Self)
        ensures
            r@ == BluttiView::fresh(),
            r.wf(),
    {
        Blutti {
            position: Point { x: START_X, y: START_Y },
            start_position: Point { x: START_X, y: START_Y },
            jump_timer: 0,
            dash_timer: 0,
            fall_timer: 0,
            stop_timer: 0,
            jump_max_time: 0,
            jump_buffer_timer: 0,
            direction_x: DirectionX::Right,
            direction_y: DirectionY::Up,
            state: PlayerState::Idle,
            velocity: Vec2::zero(),
            remainder: Vec2::zero(),
            movement_modifier: ONE,
            points: 0,
            stars: 0,
            lives: START_LIVES,
            iddqd: false,
            died: false,
            finished_level: false,
            current_level: 1,
            current_tile: 0,
            animation: Animation::animation_idle_right(),
            debug: false,
        }
    }
}

impl Blutti {
    /// A new player that starts at `start_position`.
    pub open spec fn with_start_position_spec(start_position: Point) -> BluttiView {
        BluttiView { position: start_position, start_position, ..BluttiView::fresh() }
    }

    /// A new player that starts at `start_position`.
    pub fn with_start_position(start_position: Point) -> (r: Self)
        ensures
            r@ == Self::with_start_position_spec(start_position),
            start_position.in_bounds() ==> r.wf(),
    {
        let mut blutti = Blutti::default();
        blutti.position = start_position;
        blutti.start_position = start_position;
        blutti
    }

    /// A new player for the level `current_level` that keeps the points and
    /// lives of this one.
    pub fn at_new_level(&self, start_position: Point, current_level: LevelNumber) -> (r: Self)
        ensures
            r@ == (BluttiView {
                position: start_position,
                start_position,
                points: self.points,
                lives: self.lives,
                current_level,
                ..BluttiView::fresh()
            }),
            start_position.in_bounds() ==> r.wf(),
    {
        let mut blutti = Blutti::default();
        blutti.position = start_position;
        blutti.start_position = start_position;
        blutti.points = self.points;
        blutti.lives = self.lives;
        blutti.current_level = current_level;
        blutti
    }

    fn add_particle(&self, level: &mut Level, out: &Outbox, position: Point, sprites: Vec<Sprite>)
        requires
            old(level).wf(),
            0 < sprites@.len() <= i32::MAX,
        ensures
            world(*self, *final(level), *out) == world(*self, *old(level), *out).add_particle(
                position,
                sprites@,
            ),
            final(level).wf(),
    {
        let anim = Animation::once(sprites, ONCE_FRAME_TIME);
        let particle = Particle::stationary(position, anim);
        level.add_particle(particle);
    }

    fn add_dash_particle(&self, level: &mut Level, out: &Outbox, sprites: Vec<Sprite>, offset_x: i32)
        requires
            self.wf(),
            old(level).wf(),
            0 < sprites@.len() <= i32::MAX,
            -TILE_WIDTH <= offset_x <= TILE_WIDTH,
        ensures
            world(*self, *final(level), *out) == world(*self, *old(level), *out).add_dash_particle(
                sprites@,
                offset_x,
            ),
            final(level).wf(),
    {
        let anim = Animation::once(sprites, ONCE_FRAME_TIME);
        let position = self.position.shifted(offset_x, 0);
        let particle = Particle::following(position, anim, offset_x);
        level.add_particle(particle);
    }

    fn add_jump_animation(&self, level: &mut Level, out: &Outbox)
        requires
            self.wf(),
            old(level).wf(),
        ensures
            world(*self, *final(level), *out) == world(
                *self,
                *old(level),
                *out,
            ).add_jump_animation(),
            final(level).wf(),
    {
        let sprites: Vec<Sprite> = match self.direction_x {
            DirectionX::Left => vec![84, 85, 86, 87],
            DirectionX::Right => vec![80, 81, 82, 83],
        };
        proof {
            assert(self.direction_x == DirectionX::Left ==> sprites@ =~= jump_left_sprites());
            assert(self.direction_x == DirectionX::Right ==> sprites@ =~= jump_right_sprites());
        }
        self.add_particle(level, out, self.position.shifted(0, TILE_HEIGHT - 1), sprites);
    }

    fn add_dash_animation(&self, level: &mut Level, out: &Outbox)
        requires
            self.wf(),
            old(level).wf(),
        ensures
            world(*self, *final(level), *out) == world(
                *self,
                *old(level),
                *out,
            ).add_dash_animation(),
            final(level).wf(),
    {
        match self.direction_x {
            DirectionX::Left => {
                let sprites: Vec<Sprite> = vec![100, 101, 102, 103];
                assert(sprites@ =~= dash_left_sprites());
                self.add_dash_particle(level, out, sprites, TILE_WIDTH)
            },
            DirectionX::Right => {
                let sprites: Vec<Sprite> = vec![96, 97, 98, 99];
                assert(sprites@ =~= dash_right_sprites());
                self.add_dash_particle(level, out, sprites, -TILE_WIDTH)
            },
        }
    }

    fn add_turn_animation(&self, level: &mut Level, out: &Outbox)
        requires
            self.wf(),
            old(level).wf(),
        ensures
            world(*self, *final(level), *out) == world(
                *self,
                *old(level),
                *out,
            ).add_turn_animation(),
            final(level).wf(),
    {
        match self.direction_x {
            DirectionX::Left => {
                let sprites: Vec<Sprite> = vec![76, 77, 78, 79];
                assert(sprites@ =~= turn_left_sprites());
                self.add_particle(
                    level,
                    out,
                    self.position.shifted(0, TILE_HEIGHT - 1 - 2),
                    sprites,
                )
            },
            DirectionX::Right => {
                let sprites: Vec<Sprite> = vec![88, 89, 90, 91];
                assert(sprites@ =~= turn_right_sprites());
                self.add_particle(
                    level,
                    out,
                    self.position.shifted(TILE_WIDTH - 1, TILE_HEIGHT - 1 - 2),
                    sprites,
                )
            },
        }
    }

    fn turn(&mut self, level: &mut Level, out: &Outbox, new_direction: DirectionX)
        requires
            old(self).wf(),
            old(level).wf(),
        ensures
            world(*final(self), *final(level), *out) == world(*old(self), *old(level), *out).turn(
                new_direction,
            ),
            final(self).wf(),
            final(level).wf(),
    {
        proof {
            reveal(World::turn);
        }
        if self.direction_x != new_direction {
            self.direction_x = new_direction;
            self.add_turn_animation(level, out);
            self.add_running_animation();
        }
    }

    /// Tells the player to go left at `speed`, a factor in thousandths.
    pub fn move_left(&mut self, level: &mut Level, out: &Outbox, speed: i32)
        requires
            old(self).wf(),
            old(level).wf(),
        ensures
            world(*final(self), *final(level), *out) == world(
                *old(self),
                *old(level),
                *out,
            ).move_sideways(DirectionX::Left, speed),
            final(self).wf(),
            final(level).wf(),
    {
        proof {
            reveal(World::move_sideways);
        }
        self.movement_modifier = speed;
        self.turn(level, out, DirectionX::Left);
        self.start_moving(level);
    }

    /// Tells the player to go right at `speed`, a factor in thousandths.
    pub fn move_right(&mut self, level: &mut Level, out: &Outbox, speed: i32)
        requires
            old(self).wf(),
            old(level).wf(),
        ensures
            world(*final(self), *final(level), *out) == world(
                *old(self),
                *old(level),
                *out,
            ).move_sideways(DirectionX::Right, speed),
            final(self).wf(),
            final(level).wf(),
    {
        proof {
            reveal(World::move_sideways);
        }
        self.movement_modifier = speed;
        self.turn(level, out, DirectionX::Right);
        self.start_moving(level);
    }

    fn jump(&mut self, level: &mut Level, out: &mut Outbox)
        requires
            old(self).wf(),
            old(level).wf(),
        ensures
            world(*final(self), *final(level), *final(out)) == world(
                *old(self),
                *old(level),
                *old(out),
            ).jump(),
            final(self).wf(),
            final(level).wf(),
    {
        proof {
            reveal(World::jump);
        }
        play_sound(out, Sound::Jump);
        match self.state {
            PlayerState::RunningLeft => self.state = PlayerState::JumpingLeft,
            PlayerState::RunningRight => self.state = PlayerState::JumpingRight,
            _ => self.state = PlayerState::Jumping,
        };
        self.jump_max_time = if self.is_standing_on(level, TileCollider::Slippery) {
            JUMP_TIME / 2
        } else {
            JUMP_TIME
        };
        self.jump_buffer_timer = 0;
        self.add_jump_animation(level, out);
    }

    /// Tells the player that the jump button was pressed.
    pub fn start_jump(&mut self, level: &mut Level, out: &mut Outbox)
        requires
            old(self).wf(),
            old(level).wf(),
        ensures
            world(*final(self), *final(level), *final(out)) == world(
                *old(self),
                *old(level),
                *old(out),
            ).start_jump(),
            final(self).wf(),
            final(level).wf(),
    {
        proof {
            reveal(World::start_jump);
        }
        if self.is_standing(level) || self.state.is_falling() && self.fall_timer
            < COYOTE_THRESHOLD {
            self.jump(level, out);
        } else {
            self.jump_buffer_timer = JUMP_BUFFER;
        }
    }

    /// Tells the player that the dash button was pressed.
    pub fn start_dash(&mut self, level: &mut Level, out: &mut Outbox)
        requires
            old(self).wf(),
            old(level).wf(),
        ensures
            world(*final(self), *final(level), *final(out)) == world(
                *old(self),
                *old(level),
                *old(out),
            ).start_dash(),
            final(self).wf(),
            final(level).wf(),
    {
        proof {
            reveal(World::start_dash);
        }
        if self.dash_timer < 0 {
            return ;
        }
        if self.state.is_jumping() || self.state.is_falling() {
            match self.state {
                PlayerState::JumpingLeft | PlayerState::FallingLeft => {
                    self.state = PlayerState::DashingLeft
                },
                PlayerState::JumpingRight | PlayerState::FallingRight => {
                    self.state = PlayerState::DashingRight
                },
                _ => {
                    if self.direction_x == DirectionX::Left {
                        self.state = PlayerState::DashingLeft
                    } else {
                        self.state = PlayerState::DashingRight
                    }
                },
            }
            self.dash_timer = DASH_TIME;
            self.add_dash_animation(level, out);
            play_sound(out, Sound::Dash);
        }
    }

    /// Kills the player, unless it cannot die: the monsters go back to
    /// where they started and the player goes back to its start with one
    /// life less.
    pub fn die(&mut self, level: &mut Level, out: &mut Outbox)
        requires
            old(self).wf(),
            old(level).wf(),
        ensures
            world(*final(self), *final(level), *final(out)) == world(
                *old(self),
                *old(level),
                *old(out),
            ).die(),
            old(self).iddqd ==> final(self)@ == old(self)@ && final(level)@ == old(level)@
                && final(out)@ == old(out)@,
            !old(self).iddqd ==> {
                &&& final(self).died
                &&& final(self).position == old(self).start_position
                &&& final(self).start_position == old(self).start_position
                &&& final(self).lives == clip(old(self).lives - 1)
                &&& final(self).fall_timer == 0
                &&& final(self).velocity == Vec2::spec_zero()
                &&& final(self).state == PlayerState::Idle
                &&& final(level)@ == old(level)@.reset()
                &&& final(out)@.fx == Some(Sound::Death)
            },
            final(self).wf(),
            final(level).wf(),
    {
        proof {
            reveal(World::die);
            lemma_death(world(*self, *level, *out));
        }
        if self.iddqd {
            return ;
        }
        level.reset();
        self.position = self.start_position;
        self.fall_timer = 0;
        self.stop_movement(level, StopDirection::Both);
        self.state = PlayerState::Idle;
        self.add_death_animation();
        self.add_lives(-1);
        out.add_progress(Badge::Deaths, 1);
        self.died = true;
        play_sound(out, Sound::Death);
    }

    fn finish_level(&mut self, out: &mut Outbox)
        requires
            old(self).wf(),
        ensures
            final(self)@ == (BluttiView {
                finished_level: true,
                ..old(self)@
            }).add_exit_animation(),
            final(out)@ == old(out)@.play_sound(Sound::Exit).add_progress(Badge::Levels, 1),
            final(self).wf(),
    {
        play_sound(out, Sound::Exit);
        self.finished_level = true;
        self.add_exit_animation();
        out.add_progress(Badge::Levels, 1);
    }

    fn exit(&mut self, level: &Level, out: &mut Outbox)
        requires
            old(self).wf(),
            level.wf(),
        ensures
            world(*final(self), *level, *final(out)) == world(*old(self), *level, *old(out)).exit(),
            final(self).wf(),
    {
        proof {
            reveal(World::exit);
            reveal(World::finish_level);
        }
        if self.stars >= level.stars {
            self.finish_level(out);
        } else {
            let tile_pos: i32 = get_tile_index(self.position);
            if tile_pos != self.current_tile {
                play_sound(out, Sound::Wrong);
                self.current_tile = tile_pos;
            }
        }
    }

    fn handle_collection(&self, level: &mut Level, out: &Outbox, collision: Collision)
        requires
            old(level).wf(),
            collision.position.in_reach(),
            0 <= tile_index(collision.position) < old(level).tiles@.len(),
        ensures
            world(*self, *final(level), *out) == world(*self, *old(level), *out).handle_collection(
                collision,
            ),
            final(level).wf(),
    {
        proof {
            reveal(World::handle_collection);
        }
        level.remove_tile(collision.position);
        let particle_position = get_origin_point_of_position(collision.position);
        let sprites: Vec<Sprite> = vec![104, 105, 106, 107];
        assert(sprites@ =~= collection_sprites());
        self.add_particle(level, out, particle_position, sprites);
    }

    /// Picks up the star at `collision`.
    pub fn collect_star(&mut self, level: &mut Level, out: &mut Outbox, collision: Collision)
        requires
            old(self).wf(),
            old(level).wf(),
            collision.position.in_reach(),
            0 <= tile_index(collision.position) < old(level).tiles@.len(),
        ensures
            world(*final(self), *final(level), *final(out)) == world(
                *old(self),
                *old(level),
                *old(out),
            ).collect_star(collision),
            final(self).wf(),
            final(level).wf(),
    {
        proof {
            reveal(World::collect_star);
        }
        self.handle_collection(level, out, collision);
        self.add_points(1);
        self.stars = sat_add(self.stars, 1);
        out.add_progress(Badge::Stars, 1);
        play_sound(out, Sound::Coin);
    }

    /// Picks up the thing at `collision` that is worth `points`.
    pub fn collect_collectable(
        &mut self,
        level: &mut Level,
        out: &mut Outbox,
        collision: Collision,
        points: i32,
    )
        requires
            old(self).wf(),
            old(level).wf(),
            collision.position.in_reach(),
            0 <= tile_index(collision.position) < old(level).tiles@.len(),
        ensures
            world(*final(self), *final(level), *final(out)) == world(
                *old(self),
                *old(level),
                *old(out),
            ).collect_collectable(collision, points),
            final(self).wf(),
            final(level).wf(),
    {
        proof {
            reveal(World::collect_collectable);
        }
        self.handle_collection(level, out, collision);
        self.add_points(points);
        play_sound(out, Sound::Coin);
    }

    /// Picks up the extra life at `collision`.
    pub fn collect_extra_life(&mut self, level: &mut Level, out: &mut Outbox, collision: Collision)
        requires
            old(self).wf(),
            old(level).wf(),
            collision.position.in_reach(),
            0 <= tile_index(collision.position) < old(level).tiles@.len(),
        ensures
            world(*final(self), *final(level), *final(out)) == world(
                *old(self),
                *old(level),
                *old(out),
            ).collect_extra_life(collision),
            final(self).wf(),
            final(level).wf(),
    {
        proof {
            reveal(World::collect_extra_life);
        }
        self.handle_collection(level, out, collision);
        self.add_lives(1);
        play_sound(out, Sound::Powerup);
    }

    fn apply_collision(&mut self, level: &mut Level, out: &mut Outbox, collision: Collision)
        requires
            old(self).wf(),
            old(level).wf(),
            collision.position.in_reach(),
            old(level)@.collision_at_position(collision.position) == Some(collision),
        ensures
            world(*final(self), *final(level), *final(out)) == world(
                *old(self),
                *old(level),
                *old(out),
            ).apply_collision(collision),
            final(self).wf(),
            final(level).wf(),
    {
        proof {
            reveal(World::apply_collision);
        }
        match collision.tile_collider {
            TileCollider::Collectible(points) => self.collect_collectable(
                level,
                out,
                collision,
                points,
            ),
            TileCollider::Deadly => {
                self.die(level, out);
            },
            TileCollider::Exit => self.exit(level, out),
            TileCollider::ExtraLife => self.collect_extra_life(level, out, collision),
            TileCollider::Star => self.collect_star(level, out, collision),
            _ => (),
        }
    }

    /// Applies the effect of the tiles under the player.
    pub fn handle_effects(&mut self, level: &mut Level, out: &mut Outbox)
        requires
            old(self).wf(),
            old(level).wf(),
        ensures
            world(*final(self), *final(level), *final(out)) == world(
                *old(self),
                *old(level),
                *old(out),
            ).handle_effects(),
            final(self).wf(),
            final(level).wf(),
    {
        proof {
            reveal(World::handle_effects);
        }
        let last: Option<Collision> = level.last_collision_at_rect(self.position);
        if let Some(collision) = last {
            self.apply_collision(level, out, collision);
        }
        self.current_tile = get_tile_index(self.position);
    }

    fn count_fall(&mut self)
        ensures
            final(self)@ == old(self)@.count_fall(),
    {
        if self.state.is_falling() {
            self.fall_timer = sat_add(self.fall_timer, 1);
        }
    }

    fn tick_jump_buffer(&mut self)
        ensures
            final(self)@ == old(self)@.tick_jump_buffer(),
    {
        if self.state.is_falling() || self.state.is_jumping() {
            self.jump_buffer_timer = sat_sub(self.jump_buffer_timer, 1);
        }
    }

    fn settle(&mut self, level: &Level)
        requires
            old(self).wf(),
            level.wf(),
        ensures
            final(self)@ == old(self)@.settle(level@),
            final(self).wf(),
    {
        proof {
            reveal(BluttiView::settle);
        }
        let on_ladder = self.is_on_ladder(level);
        if !self.is_moving() && !self.state.is_idling() && !self.state.is_jumping()
            && !self.state.is_falling() || self.state.is_climbing() && !on_ladder || self.state
            == PlayerState::Idle && on_ladder {
            self.stop_movement(level, StopDirection::Both);
        }
    }

    fn tick_running_stop(&mut self, level: &Level)
        requires
            old(self).wf(),
            level.wf(),
        ensures
            final(self)@ == old(self)@.tick_running_stop(level@),
            final(self).wf(),
    {
        proof {
            reveal(BluttiView::tick_running_stop);
        }
        if self.state == PlayerState::RunningStop {
            if self.stop_timer > 0 {
                self.stop_timer -= 1;
            } else {
                self.stop_movement(level, StopDirection::X);
            }
        }
    }

    fn tick_jump(&mut self, level: &Level)
        requires
            old(self).wf(),
            level.wf(),
        ensures
            final(self)@ == old(self)@.tick_jump(level@),
            final(self).wf(),
    {
        proof {
            reveal(BluttiView::tick_jump);
        }
        if self.state.is_jumping() {
            if self.state == PlayerState::JumpingStop {
                self.jump_timer = sat_sub(self.jump_timer, 1);
                if self.jump_timer <= 0 {
                    self.stop_movement(level, StopDirection::Y);
                }
            } else {
                self.jump_timer = sat_add(self.jump_timer, 1);
                if self.jump_timer > self.jump_max_time {
                    self.state = PlayerState::JumpingStop;
                }
            }
        }
    }

    fn tick_dash(&mut self, level: &Level)
        requires
            old(self).wf(),
            level.wf(),
        ensures
            final(self)@ == old(self)@.tick_dash(level@),
            final(self).wf(),
    {
        proof {
            reveal(BluttiView::tick_dash);
        }
        if self.state.is_dashing() {
            self.dash_timer = sat_sub(self.dash_timer, 1);
            if self.dash_timer == 0 {
                self.stop_movement(level, StopDirection::X);
                self.dash_timer = -DASH_WAIT_TIME;
            }
        } else if self.dash_timer < 0 {
            self.dash_timer += 1;
        }
    }

    fn check_fall(&mut self, level: &mut Level, out: &mut Outbox)
        requires
            old(self).wf(),
            old(level).wf(),
        ensures
            world(*final(self), *final(level), *final(out)) == world(
                *old(self),
                *old(level),
                *old(out),
            ).check_fall(),
            final(self).wf(),
            final(level).wf(),
    {
        proof {
            reveal(World::check_fall);
        }
        if self.is_standing(level) {
            if self.fall_timer > MAX_FALL_HEIGHT {
                self.die(level, out);
            } else {
                self.fall_timer = 0;
            }
        } else if !self.state.is_jumping() && !self.state.is_dashing()
            && !self.state.is_falling() {
            self.stop_movement(level, StopDirection::Y);
        }
    }

    /// Makes the transitions that the surroundings force on the player. A
    /// player that can die and stands after more than `MAX_FALL_HEIGHT`
    /// ticks of fall, this tick counted, is dead afterwards, back at its
    /// start, with one life less.
    pub fn update_states(&mut self, level: &mut Level, out: &mut Outbox)
        requires
            old(self).wf(),
            old(level).wf(),
        ensures
            world(*final(self), *final(level), *final(out)) == world(
                *old(self),
                *old(level),
                *old(out),
            ).update_states(),
            !old(self).iddqd && old(self)@.is_standing(old(level)@)
                && old(self)@.count_fall().fall_timer > MAX_FALL_HEIGHT ==> {
                &&& final(self).died
                &&& final(self).lives == clip(old(self).lives - 1)
                &&& final(self).position == old(self).start_position
                &&& final(self).start_position == old(self).start_position
            },
            final(self).lives == old(self).lives || final(self).lives == clip(
                old(self).lives - 1,
            ),
            final(self).wf(),
            final(level).wf(),
    {
        proof {
            reveal(World::update_states);
            let w = world(*self, *level, *out);
            if !w.blutti.iddqd && w.blutti.is_standing(w.level) && w.blutti.count_fall().fall_timer
                > MAX_FALL_HEIGHT {
                lemma_fatal_landing(w);
            }
            lemma_one_death_per_tick(w);
        }
        let ghost start = world(*self, *level, *out);
        self.count_fall();
        self.buffered_jump(level, out);
        let ghost counted = world(*self, *level, *out);
        assert(counted == start.with_blutti(start.blutti.count_fall()).buffered_jump());
        self.tick_jump_buffer();
        self.settle(level);
        self.tick_running_stop(level);
        self.tick_jump(level);
        self.tick_dash(level);
        let ghost ticked = world(*self, *level, *out);
        assert(ticked == counted.with_blutti(
            counted.blutti.tick_jump_buffer().settle(counted.level).tick_running_stop(
                counted.level,
            ).tick_jump(counted.level).tick_dash(counted.level),
        ));
        self.perils(level, out);
    }

    fn perils(&mut self, level: &mut Level, out: &mut Outbox)
        requires
            old(self).wf(),
            old(level).wf(),
        ensures
            world(*final(self), *final(level), *final(out)) == world(
                *old(self),
                *old(level),
                *old(out),
            ).perils(),
            final(self).wf(),
            final(level).wf(),
    {
        proof {
            reveal(World::perils);
        }
        let fatal = self.is_standing(level) && self.fall_timer > MAX_FALL_HEIGHT;
        self.check_fall(level, out);
        if !fatal {
            if self.position.y >= HEIGHT - TILE_HEIGHT {
                self.check_bottom(level, out);
            } else {
                self.check_monsters(level, out);
            }
        }
    }

    fn buffered_jump(&mut self, level: &mut Level, out: &mut Outbox)
        requires
            old(self).wf(),
            old(level).wf(),
        ensures
            world(*final(self), *final(level), *final(out)) == world(
                *old(self),
                *old(level),
                *old(out),
            ).buffered_jump(),
            final(self).wf(),
            final(level).wf(),
    {
        proof {
            reveal(World::buffered_jump);
        }
        if self.is_standing(level) && self.jump_buffer_timer > 0 {
            self.jump(level, out);
        }
    }

    fn check_bottom(&mut self, level: &mut Level, out: &mut Outbox)
        requires
            old(self).wf(),
            old(level).wf(),
        ensures
            world(*final(self), *final(level), *final(out)) == world(
                *old(self),
                *old(level),
                *old(out),
            ).check_bottom(),
            final(self).wf(),
            final(level).wf(),
    {
        proof {
            reveal(World::check_bottom);
        }
        if self.position.y >= HEIGHT - TILE_HEIGHT {
            self.die(level, out);
        }
    }

    fn check_monsters(&mut self, level: &mut Level, out: &mut Outbox)
        requires
            old(self).wf(),
            old(level).wf(),
        ensures
            world(*final(self), *final(level), *final(out)) == world(
                *old(self),
                *old(level),
                *old(out),
            ).check_monsters(),
            final(self).wf(),
            final(level).wf(),
    {
        proof {
            reveal(World::check_monsters);
        }
        if level.deadly_monsters_overlapping_rect(self.rect()) {
            self.die(level, out);
        }
    }

    fn move_x(&mut self, level: &Level)
        requires
            old(self).wf(),
            level.wf(),
        ensures
            final(self)@ == old(self)@.move_horizontally(level@),
            final(self).wf(),
    {
        proof {
            reveal(BluttiView::move_horizontally);
        }
        let ghost before = self@;
        assert(self.obstacle(level) =~= (|p: Point| before.blocked_at(level@, p)));
        let (position, remainder) = self.move_horizontally(
            level,
            self.position,
            self.velocity,
            self.remainder,
        );
        self.position = position;
        self.remainder = remainder;
    }

    fn move_y(&mut self, level: &Level)
        requires
            old(self).wf(),
            level.wf(),
        ensures
            final(self)@ == old(self)@.move_vertically(level@),
            final(self).wf(),
    {
        proof {
            reveal(BluttiView::move_vertically);
        }
        let ghost before = self@;
        assert(self.obstacle(level) =~= (|p: Point| before.blocked_at(level@, p)));
        let (position, remainder) = self.move_vertically(
            level,
            self.position,
            self.velocity,
            self.remainder,
        );
        self.position = position;
        self.remainder = remainder;
    }

    /// Advances the player by one tick.
    pub fn update(&mut self, level: &mut Level, out: &mut Outbox)
        requires
            old(self).wf(),
            old(level).wf(),
        ensures
            world(*final(self), *final(level), *final(out)) == world(
                *old(self),
                *old(level),
                *old(out),
            ).update(),
            final(self).wf(),
            final(level).wf(),
    {
        proof {
            reveal(World::update);
        }
        self.animation.update();
        self.update_horizontal_velocity(level);
        self.update_vertical_velocity();
        self.move_x(level);
        self.move_y(level);
        self.update_states(level, out);
    }
}


impl BluttiView {
    /// The player after `ticks` ticks in which only the remembered wish to
    /// jump fades.
    pub open spec fn fade(self, ticks: nat) -> Self
        decreases ticks,
    {
        if ticks == 0 {
            self
        } else {
            self.fade((ticks - 1) as nat).tick_jump_buffer()
        }
    }
}

/// The horizontal velocity that a tick gives the player never lies beyond
/// the target of the tick, and towards a target of zero it does not change
/// its sign.
pub proof fn lemma_player_velocity_is_clamped(player: BluttiView, level: LevelView)
    ensures
        ({
            let target = player.horizontal_target(level);
            let next = player.update_horizontal_velocity(level).velocity.x;
            &&& target > 0 ==> next <= target
            &&& target < 0 ==> next >= target
            &&& target == 0 && player.velocity.x >= 0 ==> next >= 0
            &&& target == 0 && player.velocity.x <= 0 ==> next <= 0
        }),
{
    reveal(BluttiView::update_horizontal_velocity);
}

/// A player that stands still on a conveyor is accelerated by the conveyor
/// in every tick.
pub proof fn lemma_conveyor_drifts(player: BluttiView, level: LevelView)
    requires
        player.state == PlayerState::Idle,
        player.movement_modifier == ONE,
        player.is_standing_on(level, TileCollider::Conveyor),
        -CONVEYOR_SPEED <= player.velocity.x <= i32::MAX - CONVEYOR_ACCELERATION,
    ensures
        player.update_horizontal_velocity(level).velocity.x == player.velocity.x
            + CONVEYOR_ACCELERATION,
{
    reveal(BluttiView::update_horizontal_velocity);
    assert(scaled(0, ONE as int) == 0);
}

/// Coyote time: a falling player that has fallen for fewer than
/// `COYOTE_THRESHOLD` ticks jumps when the button is pressed, as a standing
/// one does. Any other player in the air only remembers the wish, for
/// `JUMP_BUFFER` ticks.
pub proof fn lemma_coyote_time(w: World)
    ensures
        w.blutti.is_standing(w.level) || (w.blutti.state.spec_is_falling() && w.blutti.fall_timer
            < COYOTE_THRESHOLD) ==> w.start_jump() == w.jump(),
        !w.blutti.is_standing(w.level) && !(w.blutti.state.spec_is_falling()
            && w.blutti.fall_timer < COYOTE_THRESHOLD) ==> w.start_jump() == w.with_blutti(
            BluttiView { jump_buffer_timer: JUMP_BUFFER, ..w.blutti },
        ),
        w.jump().out.fx == Some(Sound::Jump),
        w.jump().blutti.state.spec_is_jumping_up(),
{
    reveal(World::start_jump);
    reveal(World::jump);
}

/// Jump buffering: a wish to jump that was remembered in the air fades by
/// one with each tick in the air. A player that lands makes the jump if it
/// lands in one of the first `JUMP_BUFFER` ticks after the button, the tick
/// of the button counted; later the wish is gone.
pub proof fn lemma_jump_buffer_window(w: World, airborne: BluttiView, ticks: nat)
    requires
        airborne.state.spec_is_falling(),
        airborne.jump_buffer_timer == JUMP_BUFFER,
        ticks <= i32::MAX,
        w.blutti == airborne.fade(ticks),
        w.blutti.is_standing(w.level),
    ensures
        airborne.fade(ticks).jump_buffer_timer == JUMP_BUFFER - ticks,
        airborne.fade(ticks).state == airborne.state,
        ticks < JUMP_BUFFER ==> w.buffered_jump() == w.jump(),
        ticks >= JUMP_BUFFER ==> w.buffered_jump() == w,
    decreases ticks,
{
    reveal(World::buffered_jump);
    lemma_fade(airborne, ticks);
}

/// In the air the remembered wish to jump fades by one per tick and nothing
/// else changes.
pub proof fn lemma_fade(airborne: BluttiView, ticks: nat)
    requires
        airborne.state.spec_is_falling() || airborne.state.spec_is_jumping(),
        i32::MIN <= airborne.jump_buffer_timer - ticks,
    ensures
        airborne.fade(ticks) == (BluttiView {
            jump_buffer_timer: (airborne.jump_buffer_timer - ticks) as i32,
            ..airborne
        }),
    decreases ticks,
{
    if ticks > 0 {
        lemma_fade(airborne, (ticks - 1) as nat);
    }
}

/// What a step of the player leaves alone unless the player dies in it:
/// where it is and where it starts, its lives, the fall it has counted, and
/// whether it can die.
pub open spec fn same_vitals(before: BluttiView, after: BluttiView) -> bool {
    &&& after.position == before.position
    &&& after.start_position == before.start_position
    &&& after.lives == before.lives
    &&& after.fall_timer == before.fall_timer
    &&& after.iddqd == before.iddqd
    &&& after.died == before.died
}

/// What decides whether the player stands: the tiles and the monsters.
pub open spec fn same_ground(before: LevelView, after: LevelView) -> bool {
    &&& after.tiles == before.tiles
    &&& after.monsters == before.monsters
    &&& after.original_monsters == before.original_monsters
}

/// Stopping the player leaves its vitals alone.
pub proof fn lemma_stop_keeps_vitals(b: BluttiView, level: LevelView, direction: StopDirection)
    ensures
        same_vitals(b, b.stop_movement(level, direction)),
        same_vitals(b, b.start_idling(level)),
{
    reveal(BluttiView::stop_movement);
    reveal(BluttiView::start_idling);
}

/// The steps of a tick that only the player's own state drives leave its
/// vitals alone.
pub proof fn lemma_inner_steps_keep_vitals(b: BluttiView, level: LevelView)
    ensures
        same_vitals(
            b,
            b.tick_jump_buffer().settle(level).tick_running_stop(level).tick_jump(level).tick_dash(
                level,
            ),
        ),
{
    let b1 = b.tick_jump_buffer();
    let b2 = b1.settle(level);
    let b3 = b2.tick_running_stop(level);
    let b4 = b3.tick_jump(level);
    assert(same_vitals(b1, b2)) by {
        reveal(BluttiView::settle);
        lemma_stop_keeps_vitals(b1, level, StopDirection::Both);
    }
    assert(same_vitals(b2, b3)) by {
        reveal(BluttiView::tick_running_stop);
        lemma_stop_keeps_vitals(b2, level, StopDirection::X);
    }
    assert(same_vitals(b3, b4)) by {
        reveal(BluttiView::tick_jump);
        lemma_stop_keeps_vitals(
            BluttiView { jump_timer: clip(b3.jump_timer - 1), ..b3 },
            level,
            StopDirection::Y,
        );
    }
    assert(same_vitals(b4, b4.tick_dash(level))) by {
        reveal(BluttiView::tick_dash);
        lemma_stop_keeps_vitals(
            BluttiView { dash_timer: clip(b4.dash_timer - 1), ..b4 },
            level,
            StopDirection::X,
        );
    }
}

/// A jump leaves the vitals of the player and the ground alone.
pub proof fn lemma_jump_keeps_vitals(w: World)
    ensures
        same_vitals(w.blutti, w.jump().blutti),
        same_ground(w.level, w.jump().level),
        same_vitals(w.blutti, w.buffered_jump().blutti),
        same_ground(w.level, w.buffered_jump().level),
{
    reveal(World::jump);
    reveal(World::buffered_jump);
}

/// Whether the player stands depends on where it is and on the ground
/// alone.
pub proof fn lemma_standing_depends_on_ground(
    a: BluttiView,
    b: BluttiView,
    ground: LevelView,
    other: LevelView,
)
    requires
        a.position == b.position,
        same_ground(ground, other),
    ensures
        a.is_standing(ground) == b.is_standing(other),
{
    let left = a.position.spec_below_bottom_left();
    let right = a.position.spec_below_bottom_right();
    assert(ground.monster_blocks(left, MonsterCollision::Blocking) == other.monster_blocks(
        left,
        MonsterCollision::Blocking,
    )) by {
        assert forall|i: int| ground.monster_holds(i, left, MonsterCollision::Blocking)
            == other.monster_holds(i, left, MonsterCollision::Blocking) by {}
    }
    assert(ground.monster_blocks(right, MonsterCollision::Blocking) == other.monster_blocks(
        right,
        MonsterCollision::Blocking,
    )) by {
        assert forall|i: int| ground.monster_holds(i, right, MonsterCollision::Blocking)
            == other.monster_holds(i, right, MonsterCollision::Blocking) by {}
    }
}

/// What a death does: a player that can die is dead, back at its start, at
/// rest with no fall counted, and has one life less; the monsters are back
/// where they started. A player that cannot die is left alone.
pub proof fn lemma_death(w: World)
    ensures
        w.blutti.iddqd ==> w.die() == w,
        !w.blutti.iddqd ==> ({
            let dead = w.die();
            &&& dead.blutti.died
            &&& dead.blutti.position == w.blutti.start_position
            &&& dead.blutti.start_position == w.blutti.start_position
            &&& dead.blutti.lives == clip(w.blutti.lives - 1)
            &&& dead.blutti.fall_timer == 0
            &&& dead.blutti.velocity == Vec2::spec_zero()
            &&& dead.blutti.remainder == Vec2::spec_zero()
            &&& dead.blutti.state == PlayerState::Idle
            &&& !dead.blutti.iddqd
            &&& dead.level == w.level.reset()
            &&& dead.level.monsters == w.level.original_monsters
            &&& dead.out.fx == Some(Sound::Death)
        }),
{
    reveal(World::die);
    reveal(BluttiView::stop_movement);
    reveal(BluttiView::start_idling);
}

/// The fall is fatal exactly when a standing player has counted more than
/// `MAX_FALL_HEIGHT` ticks of it; a standing player that has counted fewer
/// forgets them. The dead player is back at its start with one life less.
pub proof fn lemma_fatal_fall(w: World)
    requires
        w.blutti.is_standing(w.level),
    ensures
        w.blutti.fall_timer > MAX_FALL_HEIGHT ==> w.check_fall() == w.die(),
        w.blutti.fall_timer <= MAX_FALL_HEIGHT ==> w.check_fall() == w.with_blutti(
            BluttiView { fall_timer: 0, ..w.blutti },
        ),
        !w.blutti.iddqd ==> w.die().blutti.lives == clip(w.blutti.lives - 1) && w.die().blutti.died
            && w.die().blutti.position == w.blutti.start_position
            && w.die().blutti.start_position == w.blutti.start_position
            && w.die().level.monsters == w.level.original_monsters,
{
    reveal(World::check_fall);
    lemma_death(w);
}

/// The dangers of a tick kill at most once.
pub proof fn lemma_perils_kill_once(w: World)
    ensures
        w.perils().blutti.lives == w.blutti.lives || w.perils().blutti.lives == clip(
            w.blutti.lives - 1,
        ),
        w.falls_to_death() ==> w.perils() == w.die(),
{
    reveal(World::perils);
    reveal(World::check_fall);
    reveal(World::check_bottom);
    reveal(World::check_monsters);
    let fell = w.check_fall();
    lemma_death(w);
    lemma_death(fell);
    lemma_stop_keeps_vitals(w.blutti, w.level, StopDirection::Y);
}

/// A landing after a long fall is fatal: a player that can die and stands
/// at the end of a tick in which its count of the fall is above
/// `MAX_FALL_HEIGHT` leaves the tick dead, back at its start, with exactly
/// one life less, whatever its state, its velocity and its remainder are.
pub proof fn lemma_fatal_landing(w: World)
    requires
        !w.blutti.iddqd,
        w.blutti.is_standing(w.level),
        w.blutti.count_fall().fall_timer > MAX_FALL_HEIGHT,
    ensures
        w.update_states().blutti.died,
        w.update_states().blutti.lives == clip(w.blutti.lives - 1),
        w.update_states().blutti.position == w.blutti.start_position,
        w.update_states().blutti.start_position == w.blutti.start_position,
        w.update_states().blutti.fall_timer == 0,
        w.update_states().level.monsters == w.level.original_monsters,
{
    reveal(World::update_states);
    let first = w.with_blutti(w.blutti.count_fall());
    let counted = first.buffered_jump();
    let b = counted.blutti.tick_jump_buffer().settle(counted.level).tick_running_stop(
        counted.level,
    ).tick_jump(counted.level).tick_dash(counted.level);
    let ready = counted.with_blutti(b);
    lemma_jump_keeps_vitals(first);
    lemma_inner_steps_keep_vitals(counted.blutti, counted.level);
    lemma_standing_depends_on_ground(w.blutti, b, w.level, ready.level);
    assert(ready.falls_to_death());
    lemma_perils_kill_once(ready);
    lemma_death(ready);
}

/// The player dies at most once in the forced transitions of a tick.
pub proof fn lemma_one_death_per_tick(w: World)
    ensures
        w.update_states().blutti.lives == w.blutti.lives || w.update_states().blutti.lives
            == clip(w.blutti.lives - 1),
{
    reveal(World::update_states);
    let first = w.with_blutti(w.blutti.count_fall());
    let counted = first.buffered_jump();
    let b = counted.blutti.tick_jump_buffer().settle(counted.level).tick_running_stop(
        counted.level,
    ).tick_jump(counted.level).tick_dash(counted.level);
    let ready = counted.with_blutti(b);
    lemma_jump_keeps_vitals(first);
    lemma_inner_steps_keep_vitals(counted.blutti, counted.level);
    lemma_perils_kill_once(ready);
}

/// A solid tile at one of the four corners of the player's body blocks the
/// player.
pub proof fn lemma_full_tile_blocks_player(player: BluttiView, level: LevelView, position: Point)
    requires
        ({
            let (left, right) = player.span();
            ||| level.collider_at(position.offset(left, 0)) == TileCollider::Full
            ||| level.collider_at(position.offset(right, 0)) == TileCollider::Full
            ||| level.collider_at(position.offset(left, TILE_HEIGHT - 1)) == TileCollider::Full
            ||| level.collider_at(position.offset(right, TILE_HEIGHT - 1)) == TileCollider::Full
        }),
    ensures
        player.blocked_at(level, position),
{
}

/// A solid tile ahead halts the player: if a tile at a bottom corner of its
/// body, one pixel further in the direction of a vertical movement of a
/// pixel or more, is solid, the player stays where it is and is stopped once
/// on the vertical axis.
pub proof fn lemma_solid_tile_halts_player_y(player: BluttiView, level: LevelView)
    requires
        round_half_up(player.remainder.y + player.velocity.y) != 0,
        ({
            let step = spec_movement_to_step(
                round_half_up(player.remainder.y + player.velocity.y),
            );
            let ahead = player.position.spec_addy(step);
            let (left, right) = player.span();
            ||| level.collider_at(ahead.offset(left, TILE_HEIGHT - 1)) == TileCollider::Full
            ||| level.collider_at(ahead.offset(right, TILE_HEIGHT - 1)) == TileCollider::Full
        }),
    ensures
        player.move_vertically(level) == (BluttiView {
            remainder: resolve_y(
                |p: Point| player.blocked_at(level, p),
                player.position,
                player.velocity,
                player.remainder,
            ).remainder,
            ..player.stop_movement(level, StopDirection::Y)
        }),
        player.move_vertically(level).position == player.position,
        player.move_vertically(level).velocity.y == 0,
{
    reveal(BluttiView::move_vertically);
    reveal(BluttiView::stop_movement);
    reveal(BluttiView::start_idling);
    let blocked = |p: Point| player.blocked_at(level, p);
    let step = spec_movement_to_step(round_half_up(player.remainder.y + player.velocity.y));
    lemma_full_tile_blocks_player(player, level, player.position.spec_addy(step));
    assert(blocked(player.position.spec_addy(step)));
    lemma_collision_halts_motion_y(blocked, player.position, player.velocity, player.remainder);
}

/// A solid wall ahead halts the player: if the tile at a top corner of its
/// body is solid both one pixel further in the direction of a horizontal
/// movement of a pixel or more and one pixel above that, the player stays
/// where it is and is stopped once on the horizontal axis.
pub proof fn lemma_solid_tile_halts_player_x(player: BluttiView, level: LevelView)
    requires
        round_half_up(player.remainder.x + player.velocity.x) != 0,
        ({
            let step = spec_movement_to_step(
                round_half_up(player.remainder.x + player.velocity.x),
            );
            let ahead = player.position.spec_addx(step);
            let (left, right) = player.span();
            &&& level.collider_at(ahead.offset(left, 0)) == TileCollider::Full
                || level.collider_at(ahead.offset(right, 0)) == TileCollider::Full
            &&& level.collider_at(ahead.spec_addy(-1).offset(left, 0)) == TileCollider::Full
                || level.collider_at(ahead.spec_addy(-1).offset(right, 0)) == TileCollider::Full
        }),
    ensures
        player.move_horizontally(level).position == player.position,
        player.move_horizontally(level).velocity.x == 0,
        player.move_horizontally(level).velocity.y == player.velocity.y,
{
    reveal(BluttiView::move_horizontally);
    reveal(BluttiView::stop_movement);
    reveal(BluttiView::start_idling);
    let blocked = |p: Point| player.blocked_at(level, p);
    let step = spec_movement_to_step(round_half_up(player.remainder.x + player.velocity.x));
    let ahead = player.position.spec_addx(step);
    lemma_full_tile_blocks_player(player, level, ahead);
    lemma_full_tile_blocks_player(player, level, ahead.spec_addy(-1));
    assert(blocked(ahead));
    assert(blocked(ahead.spec_addy(-1)));
    lemma_collision_halts_motion_x(blocked, player.position, player.velocity, player.remainder);
}

} // verus!
