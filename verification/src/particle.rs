//! Short-lived decorations: dust, afterimages and drifting flakes.
use vstd::prelude::*;
use crate::animation::{Animation, AnimationView};
use crate::constants::{HEIGHT, WIDTH};
use crate::drawing::Sprite;
use crate::fixed::{clip, sat_add, sat_sub};
use crate::functions::{random_value, spec_random_value};
use crate::point_math::Point;

verus! {

/// How a particle moves.
#[derive(Clone, Copy, PartialEq, Eq, Structural, Debug)]
pub enum ParticleMovement {
    /// It stays where it was put.
    Stationary,
    /// It sinks and drifts at random.
    Falling,
    /// It keeps the given horizontal distance from the player.
    Following(i32),
}

/// A decoration with an animation of its own. It takes no part in
/// collisions.
#[derive(Debug)]
pub struct Particle {
    pub position: Point,
    pub animation: Animation,
    pub movement: ParticleMovement,
}

/// The mathematical value of a [`Particle`].
pub struct ParticleView {
    pub position: Point,
    pub animation: AnimationView,
    pub movement: ParticleMovement,
}

/// Pixels that a falling particle moves in one tick.
pub const PARTICLE_SPEED: i32 = 1;

/// Ticks for which a drifting particle holds a frame, less one.
pub const FLAKE_FRAME_TIME: i32 = 15;

/// The horizontal range in which drifting particles appear reaches this far
/// beyond the right edge of the screen.
pub const FLAKE_MARGIN: i32 = 64;

/// The row in which drifting particles appear.
pub const FLAKE_START_Y: i32 = -3;

/// Where a falling particle goes horizontally for a random value out of
/// `0..=100`: right from 90, left from 60, else nowhere.
pub open spec fn drift_x(x: i32, value: int) -> i32 {
    if value >= 90 {
        clip(x + PARTICLE_SPEED)
    } else if value >= 60 {
        clip(x - PARTICLE_SPEED)
    } else {
        x
    }
}

/// Where a falling particle goes vertically for a random value out of
/// `0..=100`: up from 90, down from 40, else nowhere.
pub open spec fn drift_y(y: i32, value: int) -> i32 {
    if value >= 90 {
        clip(y - PARTICLE_SPEED)
    } else if value >= 40 {
        clip(y + PARTICLE_SPEED)
    } else {
        y
    }
}

impl ParticleView {
    /// The animation of the particle is well-formed.
    pub open spec fn wf(self) -> bool {
        self.animation.wf()
    }

    /// A drifting particle that shows `sprite` and the sprite after it. It
    /// appears above the screen at a column chosen by `roll`.
    pub open spec fn random(sprite: Sprite, roll: u32) -> Self {
        ParticleView {
            position: Point {
                x: spec_random_value(roll as int, WIDTH + FLAKE_MARGIN) as i32,
                y: FLAKE_START_Y,
            },
            animation: AnimationView::fresh(
                seq![sprite, (sprite + 1) as i32],
                FLAKE_FRAME_TIME,
                true,
            ),
            movement: ParticleMovement::Falling,
        }
    }

    /// The particle after it moved for one tick. A falling particle drifts
    /// by the two random words, a following one goes to its place beside the
    /// player.
    pub open spec fn update_movement(self, player: Point, roll_x: u32, roll_y: u32) -> Self {
        match self.movement {
            ParticleMovement::Falling => ParticleView {
                position: Point {
                    x: drift_x(self.position.x, spec_random_value(roll_x as int, 100)),
                    y: drift_y(self.position.y, spec_random_value(roll_y as int, 100)),
                },
                ..self
            },
            ParticleMovement::Following(offset_x) => ParticleView {
                position: Point { x: clip(player.x + offset_x), y: player.y },
                ..self
            },
            ParticleMovement::Stationary => self,
        }
    }

    /// The particle one tick later.
    pub open spec fn update(self, player: Point, roll_x: u32, roll_y: u32) -> Self {
        (ParticleView { animation: self.animation.update(), ..self }).update_movement(
            player,
            roll_x,
            roll_y,
        )
    }

    /// The particle has played its animation or has sunk below the screen.
    pub open spec fn should_be_removed(self) -> bool {
        self.animation.finished || self.position.y > HEIGHT
    }
}

impl View for Particle {
    type V = ParticleView;

    open spec fn view(&self) -> ParticleView {
        ParticleView {
            position: self.position,
            animation: self.animation@,
            movement: self.movement,
        }
    }
}

impl Clone for Particle {
    fn clone(&self) -> (r: Self)
        ensures
            r@ == self@,
    {
        Particle {
            position: self.position,
            animation: self.animation.clone(),
            movement: self.movement,
        }
    }
}

impl Particle {
    /// See [`ParticleView::wf`].
    pub open spec fn wf(&self) -> bool {
        self@.wf()
    }

    /// A particle at `position` with the given animation and movement.
    pub fn new(position: Point, animation: Animation, movement: ParticleMovement) -> (r: Self)
        ensures
            r@ == (ParticleView { position, animation: animation@, movement }),
    {
        Particle { position, animation, movement }
    }

    /// A particle that stays at `position`.
    pub fn stationary(position: Point, animation: Animation) -> (r: Self)
        ensures
            r@ == (ParticleView {
                position,
                animation: animation@,
                movement: ParticleMovement::Stationary,
            }),
    {
        Self::new(position, animation, ParticleMovement::Stationary)
    }

    /// A particle that keeps `offset_x` pixels beside the player.
    pub fn following(position: Point, animation: Animation, offset_x: i32) -> (r: Self)
        ensures
            r@ == (ParticleView {
                position,
                animation: animation@,
                movement: ParticleMovement::Following(offset_x),
            }),
    {
        Self::new(position, animation, ParticleMovement::Following(offset_x))
    }

    /// A drifting particle at a column chosen by the random word `roll`.
    pub fn random(sprite: Sprite, roll: u32) -> (r: Self)
        requires
            sprite < i32::MAX,
        ensures
            r@ == ParticleView::random(sprite, roll),
            r.wf(),
    {
        let sprites: Vec<Sprite> = vec![sprite, sprite + 1];
        assert(sprites@ =~= seq![sprite, (sprite + 1) as i32]);
        Particle {
            position: Point { x: random_value(roll, WIDTH + FLAKE_MARGIN), y: FLAKE_START_Y },
            animation: Animation::looping(sprites, FLAKE_FRAME_TIME),
            movement: ParticleMovement::Falling,
        }
    }

    /// Advances the particle by one tick. `player` is the position of the
    /// player; the two random words steer a falling particle.
    pub fn update(&mut self, player: Point, roll_x: u32, roll_y: u32)
        requires
            old(self).wf(),
        ensures
            final(self)@ == old(self)@.update(player, roll_x, roll_y),
            final(self).wf(),
    {
        self.animation.update();
        self.update_movement(player, roll_x, roll_y);
    }

    /// Whether the particle is done and can be dropped.
    pub fn should_be_removed(&self) -> (r: bool)
        ensures
            r == self@.should_be_removed(),
    {
        self.animation.finished || self.position.y > HEIGHT
    }

    fn update_movement(&mut self, player: Point, roll_x: u32, roll_y: u32)
        ensures
            final(self)@ == old(self)@.update_movement(player, roll_x, roll_y),
    {
        match self.movement {
            ParticleMovement::Falling => {
                let value_x: i32 = random_value(roll_x, 100);
                let new_x: i32 = if value_x >= 90 {
                    sat_add(self.position.x, PARTICLE_SPEED)
                } else if value_x >= 60 {
                    sat_sub(self.position.x, PARTICLE_SPEED)
                } else {
                    self.position.x
                };
                let value_y: i32 = random_value(roll_y, 100);
                let new_y: i32 = if value_y >= 90 {
                    sat_sub(self.position.y, PARTICLE_SPEED)
                } else if value_y >= 40 {
                    sat_add(self.position.y, PARTICLE_SPEED)
                } else {
                    self.position.y
                };
                self.position = Point { x: new_x, y: new_y };
            },
            ParticleMovement::Following(offset_x) => {
                self.position = Point { x: sat_add(player.x, offset_x), y: player.y };
            },
            ParticleMovement::Stationary => (),
        }
    }
}

} // verus!
