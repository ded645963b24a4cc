//! Autonomous actors.
use vstd::prelude::*;
use crate::animation::{Animation, AnimationView};
use crate::blutti::{Blutti, BluttiView};
use crate::constants::{COORD_LIMIT, GRAVITY_ACCELERATION, GRAVITY_MAX, TILE_HEIGHT, TILE_WIDTH};
use crate::direction::StopDirection;
use crate::drawing::Sprite;
use crate::fixed::{accelerate, approach, clip, sat_sub};
use crate::level::{Level, LevelView};
use crate::tile_collider::TileCollider;
use crate::fixed::round_half_up;
use crate::updateable::{
    lemma_collision_halts_motion_x, lemma_collision_halts_motion_y, resolve_x, resolve_y,
    spec_movement_to_step, Updateable,
};
use crate::point_math::Point;
use crate::rect::Rect;
use crate::vec2::Vec2;

verus! {

/// How a monster moves.
#[derive(Clone, Copy, PartialEq, Eq, Structural, Debug)]
pub enum MonsterMovement {
    /// Moves on both axes whether it has ground under it or not, and is not
    /// subject to gravity.
    Flying,
    /// Moves horizontally while it has ground under it.
    FollowsPlayer,
    /// Moves horizontally while it has ground under it.
    Moving,
    /// As `Moving`, and turns around at the edge of its platform.
    TurnsAtEdge,
}

/// What a monster is to the bodies that meet it.
#[derive(Clone, Copy, PartialEq, Eq, Structural, Debug)]
pub enum MonsterCollision {
    /// Solid for the player, who can stand and ride on it.
    Blocking,
    /// Solid for other monsters, not for the player.
    BlockingMonster,
    /// Kills the player on contact.
    Deadly,
    /// Mere decoration.
    Harmless,
}

/// Ticks for which a monster holds a frame, less one.
pub const MONSTER_FRAME_TIME: i32 = 10;

/// An autonomous actor of a level.
#[derive(Debug)]
pub struct Monster {
    pub position: Point,
    pub velocity: Vec2,
    pub remainder: Vec2,
    pub movement: MonsterMovement,
    pub collision: MonsterCollision,
    pub gravity: bool,
    pub width: i32,
    pub height: i32,
    /// Shown while the monster moves right or down, or rests.
    pub animation: Animation,
    /// Shown while the monster moves left, or straight up.
    pub reverse_animation: Animation,
}

/// The mathematical value of a [`Monster`].
pub struct MonsterView {
    pub position: Point,
    pub velocity: Vec2,
    pub remainder: Vec2,
    pub movement: MonsterMovement,
    pub collision: MonsterCollision,
    pub gravity: bool,
    pub width: i32,
    pub height: i32,
    pub animation: AnimationView,
    pub reverse_animation: AnimationView,
}

impl MonsterView {
    /// The monster lies within the coordinate limit, has a footprint of at
    /// least one pixel, and its animations are well-formed.
    pub open spec fn wf(self) -> bool {
        &&& self.position.in_bounds()
        &&& 1 <= self.width <= COORD_LIMIT
        &&& 1 <= self.height <= COORD_LIMIT
        &&& self.animation.wf()
        &&& self.reverse_animation.wf()
    }

    /// The footprint of the monster.
    pub open spec fn rect(self) -> Rect {
        Rect { position: self.position, width: self.width, height: self.height }
    }

    /// The monster moves left, or straight up.
    pub open spec fn faces_backward(self) -> bool {
        self.velocity.x < 0 || (self.velocity.x == 0 && self.velocity.y < 0)
    }

    /// The animation that is shown.
    pub open spec fn current_animation(self) -> AnimationView {
        if self.faces_backward() {
            self.reverse_animation
        } else {
            self.animation
        }
    }
}

impl View for Monster {
    type V = MonsterView;

    open spec fn view(&self) -> MonsterView {
        MonsterView {
            position: self.position,
            velocity: self.velocity,
            remainder: self.remainder,
            movement: self.movement,
            collision: self.collision,
            gravity: self.gravity,
            width: self.width,
            height: self.height,
            animation: self.animation@,
            reverse_animation: self.reverse_animation@,
        }
    }
}

impl Default for Monster {
    /// A monster that does nothing, at the top left corner of the screen. It
    /// has no animations and no footprint and is not well-formed.
    fn default() -> (r: Monster)
        ensures
            r@ == (MonsterView {
                position: Point { x: 0, y: 0 },
                velocity: Vec2::spec_zero(),
                remainder: Vec2::spec_zero(),
                movement: MonsterMovement::Moving,
                collision: MonsterCollision::Harmless,
                gravity: false,
                width: 0,
                height: 0,
                animation: AnimationView::fresh(Seq::empty(), 0, false),
                reverse_animation: AnimationView::fresh(Seq::empty(), 0, false),
            }),
    {
        Monster {
            position: Point { x: 0, y: 0 },
            velocity: Vec2::zero(),
            remainder: Vec2::zero(),
            movement: MonsterMovement::Moving,
            collision: MonsterCollision::Harmless,
            gravity: false,
            width: 0,
            height: 0,
            animation: Animation::default(),
            reverse_animation: Animation::default(),
        }
    }
}

impl Clone for Monster {
    fn clone(&self) -> (r: Self)
        ensures
            r@ == self@,
    {
        Monster {
            position: self.position,
            velocity: self.velocity,
            remainder: self.remainder,
            movement: self.movement,
            collision: self.collision,
            gravity: self.gravity,
            width: self.width,
            height: self.height,
            animation: self.animation.clone(),
            reverse_animation: self.reverse_animation.clone(),
        }
    }
}

/// The values of a sequence of monsters.
pub open spec fn monster_views(monsters: Seq<Monster>) -> Seq<MonsterView> {
    Seq::new(monsters.len(), |i: int| monsters[i]@)
}

impl Monster {
    /// See [`MonsterView::wf`].
    pub open spec fn wf(&self) -> bool {
        self@.wf()
    }

    /// A monster at rest at `position` with the given policies, footprint
    /// and animations.
    pub fn new(
        position: Point,
        velocity: Vec2,
        movement: MonsterMovement,
        collision: MonsterCollision,
        gravity: bool,
        width: i32,
        height: i32,
        animation: Animation,
        reverse_animation: Animation,
    ) -> (r: Self)
        ensures
            r@ == (MonsterView {
                position,
                velocity,
                remainder: Vec2::spec_zero(),
                movement,
                collision,
                gravity,
                width,
                height,
                animation: animation@,
                reverse_animation: reverse_animation@,
            }),
    {
        Monster {
            position,
            velocity,
            remainder: Vec2::zero(),
            movement,
            collision,
            gravity,
            width,
            height,
            animation,
            reverse_animation,
        }
    }

    /// The two animations of a monster whose sprites start at `sprite` in the
    /// sheet: the forward one shows the third and fourth sprite, the reverse
    /// one the first and second.
    pub fn animations_for(sprite: Sprite) -> (r: (Animation, Animation))
        requires
            sprite <= i32::MAX - 3,
        ensures
            r.0@ == AnimationView::fresh(
                seq![(sprite + 2) as i32, (sprite + 3) as i32],
                MONSTER_FRAME_TIME,
                true,
            ),
            r.1@ == AnimationView::fresh(
                seq![sprite, (sprite + 1) as i32],
                MONSTER_FRAME_TIME,
                true,
            ),
            r.0.wf(),
            r.1.wf(),
    {
        let forward: Vec<Sprite> = vec![sprite + 2, sprite + 3];
        let reverse: Vec<Sprite> = vec![sprite, sprite + 1];
        assert(forward@ =~= seq![(sprite + 2) as i32, (sprite + 3) as i32]);
        assert(reverse@ =~= seq![sprite, (sprite + 1) as i32]);
        (
            Animation::looping(forward, MONSTER_FRAME_TIME),
            Animation::looping(reverse, MONSTER_FRAME_TIME),
        )
    }

    /// The footprint of the monster.
    pub fn rect(&self) -> (r: Rect)
        ensures
            r == self@.rect(),
    {
        Rect::new(self.position, self.width, self.height)
    }

    /// Whether the footprint holds the origin of `other` or the corner
    /// opposite to it.
    pub fn overlaps(&self, other: Rect) -> (r: bool)
        requires
            other.in_bounds(),
        ensures
            r == self@.rect().spec_overlaps(other),
    {
        self.rect().overlaps(other)
    }

    /// Whether the monster shows its reverse animation.
    pub fn faces_backward(&self) -> (r: bool)
        ensures
            r == self@.faces_backward(),
    {
        self.velocity.x < 0 || (self.velocity.x == 0 && self.velocity.y < 0)
    }

    /// The sprite that the monster shows.
    pub fn current_sprite(&self) -> (r: i32)
        requires
            self.wf(),
        ensures
            r == self@.current_animation().current_sprite(),
    {
        if self.faces_backward() {
            self.reverse_animation.current_sprite()
        } else {
            self.animation.current_sprite()
        }
    }
}

/// Copies a list of monsters.
pub fn clone_monsters(monsters: &Vec<Monster>) -> (r: Vec<Monster>)
    ensures
        monster_views(r@) == monster_views(monsters@),
{
    let mut out: Vec<Monster> = Vec::new();
    let mut i: usize = 0;
    while i < monsters.len()
        invariant
            i <= monsters@.len(),
            out@.len() == i,
            forall|j: int| 0 <= j < i ==> (#[trigger] out@[j])@ == monsters@[j]@,
        decreases monsters@.len() - i,
    {
        out.push(monsters[i].clone());
        i += 1;
    }
    assert(monster_views(out@) =~= monster_views(monsters@));
    out
}

impl MonsterView {
    /// Neither a solid tile nor a monster that blocks monsters is at
    /// `position`.
    pub open spec fn is_open(level: LevelView, position: Point) -> bool {
        level.is_tile_free(position) && !level.monster_blocks(
            position,
            MonsterCollision::BlockingMonster,
        )
    }

    /// A monster that turns at edges has nothing to walk on ahead: the tile
    /// under the leading bottom corner of the footprint at `position` is
    /// free.
    pub open spec fn at_cliff(self, level: LevelView, position: Point) -> bool {
        if self.movement != MonsterMovement::TurnsAtEdge {
            false
        } else if self.velocity.x < 0 {
            level.is_tile_free(position.offset(0, self.height as int))
        } else if self.velocity.x > 0 {
            level.is_tile_free(position.offset(self.width - 1, self.height as int))
        } else {
            false
        }
    }

    /// The monster would collide at `position`: a corner of its footprint is
    /// not open, or it would stand at a cliff.
    pub open spec fn blocked_at(self, level: LevelView, position: Point) -> bool {
        let right = self.width - 1;
        let bottom = self.height - 1;
        !(Self::is_open(level, position) && Self::is_open(level, position.offset(right, 0))
            && Self::is_open(level, position.offset(0, bottom)) && Self::is_open(
            level,
            position.offset(right, bottom),
        ) && !self.at_cliff(level, position))
    }

    /// A tile that gives footing lies under one of the bottom corners of the
    /// footprint.
    pub open spec fn is_standing(self, level: LevelView) -> bool {
        !(level.is_tile_empty(self.position.offset(0, self.height as int)) && level.is_tile_empty(
            self.position.offset(self.width - 1, self.height as int),
        ))
    }

    /// The monster turned around on `direction`: the velocity on that axis
    /// changes its sign, and the animation that now shows starts over.
    #[verifier::opaque]
    pub open spec fn stop_movement(self, direction: StopDirection) -> Self {
        let turned = MonsterView {
            velocity: match direction {
                StopDirection::X => Vec2 { x: clip(-self.velocity.x), y: self.velocity.y },
                StopDirection::Y => Vec2 { x: self.velocity.x, y: clip(-self.velocity.y) },
                StopDirection::Both => Vec2 {
                    x: clip(-self.velocity.x),
                    y: clip(-self.velocity.y),
                },
            },
            ..self
        };
        if turned.faces_backward() {
            MonsterView { reverse_animation: turned.reverse_animation.reset(), ..turned }
        } else {
            MonsterView { animation: turned.animation.reset(), ..turned }
        }
    }

    /// The monster with the animation that shows advanced by one tick.
    pub open spec fn animate(self) -> Self {
        if self.faces_backward() {
            MonsterView { reverse_animation: self.reverse_animation.update(), ..self }
        } else {
            MonsterView { animation: self.animation.update(), ..self }
        }
    }

    /// The monster under gravity: on the ground its vertical velocity is
    /// zero, in the air it grows as that of the falling player does. A
    /// flying monster and one without gravity keep their velocity.
    pub open spec fn fall(self, level: LevelView) -> Self {
        if self.gravity && self.movement != MonsterMovement::Flying {
            MonsterView {
                velocity: Vec2 {
                    x: self.velocity.x,
                    y: if self.is_standing(level) {
                        0
                    } else {
                        clip(
                            approach(
                                self.velocity.y as int,
                                GRAVITY_ACCELERATION as int,
                                GRAVITY_MAX as int,
                            ),
                        )
                    },
                },
                ..self
            }
        } else {
            self
        }
    }

    /// The player stands on the monster: the pixel under one of its feet
    /// lies in the footprint.
    pub open spec fn carries(self, blutti: BluttiView) -> bool {
        self.collision == MonsterCollision::Blocking && (self.rect().spec_contains(
            blutti.position.spec_below_bottom_left(),
        ) || self.rect().spec_contains(blutti.position.spec_below_bottom_right()))
    }

    /// The monster moves horizontally in this tick: it flies, or it stands.
    pub open spec fn walks(self, level: LevelView) -> bool {
        self.movement == MonsterMovement::Flying || self.is_standing(level)
    }

    /// The monster after the horizontal movement of one tick.
    #[verifier::opaque]
    pub open spec fn move_horizontally(self, level: LevelView) -> Self {
        let outcome = resolve_x(
            |p: Point| self.blocked_at(level, p),
            self.position,
            self.velocity,
            self.remainder,
        );
        let body = if outcome.blocked {
            self.stop_movement(StopDirection::X)
        } else {
            self
        };
        MonsterView { position: outcome.position, remainder: outcome.remainder, ..body }
    }

    /// The monster after the vertical movement of one tick.
    #[verifier::opaque]
    pub open spec fn move_vertically(self, level: LevelView) -> Self {
        let outcome = resolve_y(
            |p: Point| self.blocked_at(level, p),
            self.position,
            self.velocity,
            self.remainder,
        );
        let body = if outcome.blocked {
            self.stop_movement(StopDirection::Y)
        } else {
            self
        };
        MonsterView { position: outcome.position, remainder: outcome.remainder, ..body }
    }

    /// The monster one tick later, in a level that holds the other
    /// monsters.
    pub open spec fn update(self, level: LevelView, blutti: BluttiView) -> Self {
        let ready = self.animate().fall(level);
        let walked = if ready.walks(level) {
            ready.move_horizontally(level)
        } else {
            ready
        };
        walked.move_vertically(level)
    }

    /// The player after the monster's tick: a blocking monster under the
    /// player's feet pushes the player by its own velocity.
    pub open spec fn push(self, level: LevelView, blutti: BluttiView) -> BluttiView {
        let ready = self.animate().fall(level);
        if ready.carries(blutti) {
            blutti.force_move(ready.velocity)
        } else {
            blutti
        }
    }
}

impl Updateable for Monster {
    open spec fn body_wf(&self) -> bool {
        self@.wf()
    }

    open spec fn place(&self) -> Point {
        self.position
    }

    open spec fn obstacle(&self, level: &Level) -> spec_fn(Point) -> bool {
        |p: Point| self@.blocked_at(level@, p)
    }

    open spec fn halted(&self, level: &Level, direction: StopDirection, after: &Self) -> bool {
        after@ == self@.stop_movement(direction)
    }

    fn position(&self) -> (r: Point) {
        self.position
    }

    fn collision_at(&self, level: &Level, position: Point) -> (r: bool) {
        let right: i32 = self.width - 1;
        let bottom: i32 = self.height - 1;
        let cliff = if !(self.movement == MonsterMovement::TurnsAtEdge) {
            false
        } else if self.velocity.x < 0 {
            level.is_tile_free(position.shifted(0, self.height))
        } else if self.velocity.x > 0 {
            level.is_tile_free(position.shifted(right, self.height))
        } else {
            false
        };
        !(Self::is_open(level, position) && Self::is_open(level, position.shifted(right, 0))
            && Self::is_open(level, position.shifted(0, bottom)) && Self::is_open(
            level,
            position.shifted(right, bottom),
        ) && !cliff)
    }

    fn stop_movement(&mut self, level: &Level, direction: StopDirection) {
        proof {
            reveal(MonsterView::stop_movement);
        }
        match direction {
            StopDirection::X => self.velocity.x = sat_sub(0, self.velocity.x),
            StopDirection::Y => self.velocity.y = sat_sub(0, self.velocity.y),
            StopDirection::Both => {
                self.velocity.x = sat_sub(0, self.velocity.x);
                self.velocity.y = sat_sub(0, self.velocity.y);
            },
        };
        if self.faces_backward() {
            self.reverse_animation.reset();
        } else {
            self.animation.reset();
        }
    }
}

impl Monster {
    /// Whether neither a solid tile nor a monster that blocks monsters is at
    /// `position`.
    pub fn is_open(level: &Level, position: Point) -> (r: bool)
        requires
            level.wf(),
            position.in_reach(),
        ensures
            r == MonsterView::is_open(level@, position),
    {
        level.is_tile_free(position) && !level.is_blocked_by_monster(
            position,
            MonsterCollision::BlockingMonster,
        )
    }

    /// Whether the monster has ground under it.
    pub fn is_standing(&self, level: &Level) -> (r: bool)
        requires
            self.wf(),
            level.wf(),
        ensures
            r == self@.is_standing(level@),
    {
        !(level.is_tile_empty(self.position.shifted(0, self.height)) && level.is_tile_empty(
            self.position.shifted(self.width - 1, self.height),
        ))
    }

    fn animate(&mut self)
        requires
            old(self).wf(),
        ensures
            final(self)@ == old(self)@.animate(),
            final(self).wf(),
    {
        if self.faces_backward() {
            self.reverse_animation.update();
        } else {
            self.animation.update();
        }
    }

    fn fall(&mut self, level: &Level)
        requires
            old(self).wf(),
            level.wf(),
        ensures
            final(self)@ == old(self)@.fall(level@),
            final(self).wf(),
    {
        if self.gravity && !(self.movement == MonsterMovement::Flying) {
            if self.is_standing(level) {
                self.velocity.y = 0;
            } else {
                self.velocity.y = accelerate(self.velocity.y, GRAVITY_ACCELERATION, GRAVITY_MAX);
            }
        }
    }

    fn carries(&self, blutti: &Blutti) -> (r: bool)
        requires
            blutti.wf(),
        ensures
            r == self@.carries(blutti@),
    {
        self.collision == MonsterCollision::Blocking && (self.rect().contains(
            blutti.position.shifted(0, TILE_HEIGHT),
        ) || self.rect().contains(blutti.position.shifted(TILE_WIDTH - 1, TILE_HEIGHT)))
    }

    fn move_x(&mut self, level: &Level)
        requires
            old(self).wf(),
            level.wf(),
        ensures
            final(self)@ == old(self)@.move_horizontally(level@),
            final(self).wf(),
    {
        proof {
            reveal(MonsterView::move_horizontally);
        }
        let ghost before = self@;
        assert(self.obstacle(level) =~= (|p: Point| before.blocked_at(level@, p)));
        let (position, remainder) = self.move_horizontally(
            level,
            self.position,
            self.velocity,
            self.remainder,
        );
        self.position = position;
        self.remainder = remainder;
    }

    fn move_y(&mut self, level: &Level)
        requires
            old(self).wf(),
            level.wf(),
        ensures
            final(self)@ == old(self)@.move_vertically(level@),
            final(self).wf(),
    {
        proof {
            reveal(MonsterView::move_vertically);
        }
        let ghost before = self@;
        assert(self.obstacle(level) =~= (|p: Point| before.blocked_at(level@, p)));
        let (position, remainder) = self.move_vertically(
            level,
            self.position,
            self.velocity,
            self.remainder,
        );
        self.position = position;
        self.remainder = remainder;
    }

    /// Advances the monster by one tick. `level` holds the other monsters
    /// of the level, and the player is pushed if it rides on this one.
    pub fn update(&mut self, level: &Level, blutti: &mut Blutti)
        requires
            old(self).wf(),
            level.wf(),
            old(blutti).wf(),
        ensures
            final(self)@ == old(self)@.update(level@, old(blutti)@),
            final(blutti)@ == old(self)@.push(level@, old(blutti)@),
            final(self).wf(),
            final(blutti).wf(),
    {
        self.animate();
        self.fall(level);
        if self.carries(blutti) {
            blutti.force_move(self.velocity);
        }
        if self.movement == MonsterMovement::Flying || self.is_standing(level) {
            self.move_x(level);
        }
        self.move_y(level);
    }
}

/// A solid tile at one of the four corners of where a monster would be
/// blocks it there.
pub proof fn lemma_full_tile_blocks_monster(monster: MonsterView, level: LevelView, position: Point)
    requires
        ({
            let right = monster.width - 1;
            let bottom = monster.height - 1;
            ||| level.collider_at(position) == TileCollider::Full
            ||| level.collider_at(position.offset(right, 0)) == TileCollider::Full
            ||| level.collider_at(position.offset(0, bottom)) == TileCollider::Full
            ||| level.collider_at(position.offset(right, bottom)) == TileCollider::Full
        }),
    ensures
        monster.blocked_at(level, position),
{
}

/// A monster that turns at edges is blocked where the tile under its leading
/// bottom corner is free, and a blocked step on the horizontal axis turns it
/// around.
pub proof fn lemma_edge_turns_monster(monster: MonsterView, level: LevelView, position: Point)
    requires
        monster.movement == MonsterMovement::TurnsAtEdge,
        monster.velocity.x > 0,
        level.is_tile_free(position.offset(monster.width - 1, monster.height as int)),
    ensures
        monster.blocked_at(level, position),
        monster.stop_movement(StopDirection::X).velocity.x == -monster.velocity.x,
        monster.stop_movement(StopDirection::X).velocity.y == monster.velocity.y,
{
    reveal(MonsterView::stop_movement);
}

/// A solid tile ahead halts a monster: if a tile at a corner of its
/// footprint, one pixel further in the direction of a vertical movement of a
/// pixel or more, is solid, the monster stays where it is and turns around
/// once on the vertical axis.
pub proof fn lemma_solid_tile_halts_monster_y(monster: MonsterView, level: LevelView)
    requires
        round_half_up(monster.remainder.y + monster.velocity.y) != 0,
        ({
            let step = spec_movement_to_step(
                round_half_up(monster.remainder.y + monster.velocity.y),
            );
            let ahead = monster.position.spec_addy(step);
            let right = monster.width - 1;
            let bottom = monster.height - 1;
            ||| level.collider_at(ahead) == TileCollider::Full
            ||| level.collider_at(ahead.offset(right, 0)) == TileCollider::Full
            ||| level.collider_at(ahead.offset(0, bottom)) == TileCollider::Full
            ||| level.collider_at(ahead.offset(right, bottom)) == TileCollider::Full
        }),
    ensures
        monster.move_vertically(level).position == monster.position,
        monster.move_vertically(level).velocity.y == clip(-monster.velocity.y),
        monster.move_vertically(level).velocity.x == monster.velocity.x,
{
    reveal(MonsterView::move_vertically);
    reveal(MonsterView::stop_movement);
    let blocked = |p: Point| monster.blocked_at(level, p);
    let step = spec_movement_to_step(round_half_up(monster.remainder.y + monster.velocity.y));
    lemma_full_tile_blocks_monster(monster, level, monster.position.spec_addy(step));
    assert(blocked(monster.position.spec_addy(step)));
    lemma_collision_halts_motion_y(blocked, monster.position, monster.velocity, monster.remainder);
}

/// A solid wall ahead halts a monster: if the tile at a corner of its
/// footprint is solid both one pixel further in the direction of a
/// horizontal movement of a pixel or more and one pixel above that, the
/// monster stays where it is and turns around once on the horizontal axis.
pub proof fn lemma_solid_tile_halts_monster_x(monster: MonsterView, level: LevelView)
    requires
        round_half_up(monster.remainder.x + monster.velocity.x) != 0,
        ({
            let step = spec_movement_to_step(
                round_half_up(monster.remainder.x + monster.velocity.x),
            );
            let ahead = monster.position.spec_addx(step);
            let above = ahead.spec_addy(-1);
            let right = monster.width - 1;
            &&& level.collider_at(ahead) == TileCollider::Full || level.collider_at(
                ahead.offset(right, 0),
            ) == TileCollider::Full
            &&& level.collider_at(above) == TileCollider::Full || level.collider_at(
                above.offset(right, 0),
            ) == TileCollider::Full
        }),
    ensures
        monster.move_horizontally(level).position == monster.position,
        monster.move_horizontally(level).velocity.x == clip(-monster.velocity.x),
        monster.move_horizontally(level).velocity.y == monster.velocity.y,
{
    reveal(MonsterView::move_horizontally);
    reveal(MonsterView::stop_movement);
    let blocked = |p: Point| monster.blocked_at(level, p);
    let step = spec_movement_to_step(round_half_up(monster.remainder.x + monster.velocity.x));
    let ahead = monster.position.spec_addx(step);
    lemma_full_tile_blocks_monster(monster, level, ahead);
    lemma_full_tile_blocks_monster(monster, level, ahead.spec_addy(-1));
    assert(blocked(ahead));
    assert(blocked(ahead.spec_addy(-1)));
    lemma_collision_halts_motion_x(blocked, monster.position, monster.velocity, monster.remainder);
}

} // verus!
