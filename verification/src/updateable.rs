//! Movement in whole pixels with collision tests, shared by every body
//! that moves.
use vstd::arithmetic::div_mod::lemma_fundamental_div_mod;
use vstd::prelude::*;
use crate::constants::HEIGHT;
use crate::direction::StopDirection;
use crate::fixed::{
    carried, carry, lemma_accumulator_round_trip, round_half_up, total, travelled, HALF, ONE,
};
use crate::level::Level;
use crate::point_math::Point;
use crate::vec2::Vec2;

verus! {

/// The direction of a movement of `amount` pixels: 1, -1 or 0.
pub open spec fn spec_movement_to_step(amount: int) -> int {
    if amount > 0 {
        1
    } else if amount < 0 {
        -1
    } else {
        0
    }
}

/// The direction of a movement of `amount` pixels: 1, -1 or 0.
pub fn movement_to_step(amount: i32) -> (r: i32)
    ensures
        r == spec_movement_to_step(amount as int),
{
    if amount > 0 {
        1
    } else if amount < 0 {
        -1
    } else {
        0
    }
}

/// The number of steps of a movement of `amount` pixels.
pub open spec fn step_count(amount: int) -> nat {
    if amount >= 0 {
        amount as nat
    } else {
        (-amount) as nat
    }
}

/// Where one horizontal step of `step` pixels leads from `position`: to the
/// pixel beside it if that is on the screen and not blocked; else to the
/// pixel above that one, under the same conditions; else nowhere.
pub open spec fn step_x(blocked: spec_fn(Point) -> bool, position: Point, step: int) -> Option<
    Point,
> {
    let test = position.spec_addx(step);
    let nudge = test.spec_addy(-1);
    if test.spec_is_in_screen() && !blocked(test) {
        Some(test)
    } else if nudge.spec_is_in_screen() && !blocked(nudge) {
        Some(nudge)
    } else {
        None
    }
}

/// Where one vertical step of `step` pixels leads from `position`: to the
/// pixel above or below if its row is on the screen and it is not blocked,
/// else nowhere.
pub open spec fn step_y(blocked: spec_fn(Point) -> bool, position: Point, step: int) -> Option<
    Point,
> {
    let test = position.spec_addy(step);
    if 0 <= test.y < HEIGHT && !blocked(test) {
        Some(test)
    } else {
        None
    }
}

/// Where `count` horizontal steps lead, and whether a step was refused.
/// The walk ends at the first step that is refused.
pub open spec fn walk_x(blocked: spec_fn(Point) -> bool, position: Point, step: int, count: nat)
    -> (Point, bool)
    decreases count,
{
    if count == 0 {
        (position, false)
    } else {
        match step_x(blocked, position, step) {
            Some(next) => walk_x(blocked, next, step, (count - 1) as nat),
            None => (position, true),
        }
    }
}

/// Where `count` vertical steps lead, and whether a step was refused.
pub open spec fn walk_y(blocked: spec_fn(Point) -> bool, position: Point, step: int, count: nat)
    -> (Point, bool)
    decreases count,
{
    if count == 0 {
        (position, false)
    } else {
        match step_y(blocked, position, step) {
            Some(next) => walk_y(blocked, next, step, (count - 1) as nat),
            None => (position, true),
        }
    }
}

/// The outcome of moving a body along one axis: where it ends, the
/// remainder it carries on, and whether it ran into something.
pub struct Movement {
    pub position: Point,
    pub remainder: Vec2,
    pub blocked: bool,
}

/// The horizontal movement of one tick. The velocity is added to the
/// remainder; the sum, rounded to the nearest pixel, is walked step by step,
/// and what is left of it is carried on.
pub open spec fn resolve_x(
    blocked: spec_fn(Point) -> bool,
    position: Point,
    velocity: Vec2,
    remainder: Vec2,
) -> Movement {
    let sum = remainder.x + velocity.x;
    let amount = round_half_up(sum);
    let path = walk_x(blocked, position, spec_movement_to_step(amount), step_count(amount));
    Movement {
        position: path.0,
        remainder: Vec2 { x: (sum - ONE * amount) as i32, y: remainder.y },
        blocked: path.1,
    }
}

/// The vertical movement of one tick.
pub open spec fn resolve_y(
    blocked: spec_fn(Point) -> bool,
    position: Point,
    velocity: Vec2,
    remainder: Vec2,
) -> Movement {
    let sum = remainder.y + velocity.y;
    let amount = round_half_up(sum);
    let path = walk_y(blocked, position, spec_movement_to_step(amount), step_count(amount));
    Movement {
        position: path.0,
        remainder: Vec2 { x: remainder.x, y: (sum - ONE * amount) as i32 },
        blocked: path.1,
    }
}

/// A body that moves through a level: it says where it cannot be and what
/// it does when it runs into something.
pub trait Updateable: Sized {
    /// The body is well-formed.
    spec fn body_wf(&self) -> bool;

    /// Where the body is.
    spec fn place(&self) -> Point;

    /// The places at which the body would collide.
    spec fn obstacle(&self, level: &Level) -> spec_fn(Point) -> bool;

    /// `after` is this body after it was told once to stop on `direction`.
    spec fn halted(&self, level: &Level, direction: StopDirection, after: &Self) -> bool;

    /// Where the body is.
    fn position(&self) -> (r: Point)
        ensures
            r == self.place(),
    ;

    /// Whether the body would collide at `position`.
    fn collision_at(&self, level: &Level, position: Point) -> (r: bool)
        requires
            self.body_wf(),
            level.wf(),
            position.in_bounds(),
        ensures
            r == (self.obstacle(level))(position),
    ;

    /// Tells the body that it ran into something on `direction`.
    fn stop_movement(&mut self, level: &Level, direction: StopDirection)
        requires
            old(self).body_wf(),
            level.wf(),
        ensures
            old(self).halted(level, direction, final(self)),
            final(self).body_wf(),
    ;

    /// Moves horizontally from `position` for one tick and hands back the
    /// new position and remainder. At the first step that is refused the
    /// movement ends and the body is told once to stop on the horizontal
    /// axis; otherwise the body is left as it was.
    fn move_horizontally(
        &mut self,
        level: &Level,
        position: Point,
        velocity: Vec2,
        remainder: Vec2,
    ) -> (r: (Point, Vec2))
        requires
            old(self).body_wf(),
            level.wf(),
            position.in_bounds(),
        ensures
            final(self).body_wf(),
            r.0.in_bounds(),
            ({
                let outcome = resolve_x(old(self).obstacle(level), position, velocity, remainder);
                &&& r.0 == outcome.position
                &&& r.1 == outcome.remainder
                &&& outcome.blocked ==> old(self).halted(level, StopDirection::X, final(self))
                &&& !outcome.blocked ==> *final(self) == *old(self)
            }),
    {
        let ghost blocked = self.obstacle(level);
        let ghost start = position;
        let mut position = position;
        let mut remainder = remainder;
        let (amount, rest) = carry(remainder.x, velocity.x);
        remainder.x = rest;
        let step: i32 = movement_to_step(amount);
        let count: i32 = if amount >= 0 { amount } else { -amount };
        let mut done: i32 = 0;
        let mut ran_into: bool = false;
        while done < count
            invariant
                0 <= done <= count,
                -1 <= step <= 1,
                level.wf(),
                position.in_bounds(),
                !ran_into ==> *self == *old(self),
                !ran_into ==> self.body_wf(),
                blocked == old(self).obstacle(level),
                ran_into ==> done == count,
                !ran_into ==> walk_x(blocked, position, step as int, (count - done) as nat)
                    == walk_x(blocked, start, step as int, count as nat),
                ran_into ==> walk_x(blocked, start, step as int, count as nat) == (position, true)
                    && old(self).halted(level, StopDirection::X, self) && self.body_wf(),
            decreases count - done,
        {
            let test_pos = position.shifted(step, 0);
            let nudge_pos = test_pos.shifted(0, -1);
            if test_pos.on_screen() && !self.collision_at(level, test_pos) {
                position = test_pos;
                done += 1;
            } else if nudge_pos.on_screen() && !self.collision_at(level, nudge_pos) {
                position = nudge_pos;
                done += 1;
            } else {
                self.stop_movement(level, StopDirection::X);
                ran_into = true;
                done = count;
            }
        }
        (position, remainder)
    }

    /// Moves vertically from `position` for one tick and hands back the new
    /// position and remainder. At the first step that is refused the
    /// movement ends and the body is told once to stop on the vertical axis;
    /// otherwise the body is left as it was.
    fn move_vertically(
        &mut self,
        level: &Level,
        position: Point,
        velocity: Vec2,
        remainder: Vec2,
    ) -> (r: (Point, Vec2))
        requires
            old(self).body_wf(),
            level.wf(),
            position.in_bounds(),
        ensures
            final(self).body_wf(),
            r.0.in_bounds(),
            ({
                let outcome = resolve_y(old(self).obstacle(level), position, velocity, remainder);
                &&& r.0 == outcome.position
                &&& r.1 == outcome.remainder
                &&& outcome.blocked ==> old(self).halted(level, StopDirection::Y, final(self))
                &&& !outcome.blocked ==> *final(self) == *old(self)
            }),
    {
        let ghost blocked = self.obstacle(level);
        let ghost start = position;
        let mut position = position;
        let mut remainder = remainder;
        let (amount, rest) = carry(remainder.y, velocity.y);
        remainder.y = rest;
        let step: i32 = movement_to_step(amount);
        let count: i32 = if amount >= 0 { amount } else { -amount };
        let mut done: i32 = 0;
        let mut ran_into: bool = false;
        while done < count
            invariant
                0 <= done <= count,
                -1 <= step <= 1,
                level.wf(),
                position.in_bounds(),
                !ran_into ==> *self == *old(self),
                !ran_into ==> self.body_wf(),
                blocked == old(self).obstacle(level),
                ran_into ==> done == count,
                !ran_into ==> walk_y(blocked, position, step as int, (count - done) as nat)
                    == walk_y(blocked, start, step as int, count as nat),
                ran_into ==> walk_y(blocked, start, step as int, count as nat) == (position, true)
                    && old(self).halted(level, StopDirection::Y, self) && self.body_wf(),
            decreases count - done,
        {
            let test_pos = position.shifted(0, step);
            if test_pos.y >= 0 && test_pos.y < HEIGHT && !self.collision_at(level, test_pos) {
                position = Point { x: position.x, y: position.y + step };
                done += 1;
            } else {
                self.stop_movement(level, StopDirection::Y);
                ran_into = true;
                done = count;
            }
        }
        (position, remainder)
    }
}

/// The signed distance of `count` steps in the direction `step`.
pub open spec fn travel(step: int, count: nat) -> int {
    if step > 0 {
        count as int
    } else if step < 0 {
        -(count as int)
    } else {
        0
    }
}

/// Pixel number `k` of a horizontal walk from `position` can be entered: it
/// is on the screen and the body does not collide there.
pub open spec fn enters_x(blocked: spec_fn(Point) -> bool, position: Point, step: int, k: nat)
    -> bool {
    let p = position.spec_addx(travel(step, k));
    p.spec_is_in_screen() && !blocked(p)
}

/// Pixel number `k` of a vertical walk from `position` can be entered: its
/// row is on the screen and the body does not collide there.
pub open spec fn enters_y(blocked: spec_fn(Point) -> bool, position: Point, step: int, k: nat)
    -> bool {
    let p = position.spec_addy(travel(step, k));
    0 <= p.y < HEIGHT && !blocked(p)
}

/// Every pixel that a horizontal walk of `count` steps tests can be
/// entered.
pub open spec fn free_way_x(
    blocked: spec_fn(Point) -> bool,
    position: Point,
    step: int,
    count: nat,
) -> bool {
    forall|k: nat| 1 <= k <= count ==> #[trigger] enters_x(blocked, position, step, k)
}

/// Every pixel that a vertical walk of `count` steps tests can be entered.
pub open spec fn free_way_y(
    blocked: spec_fn(Point) -> bool,
    position: Point,
    step: int,
    count: nat,
) -> bool {
    forall|k: nat| 1 <= k <= count ==> #[trigger] enters_y(blocked, position, step, k)
}

/// The pixels that the horizontal movement of one tick tests can all be
/// entered.
pub open spec fn free_tick_x(
    blocked: spec_fn(Point) -> bool,
    position: Point,
    velocity: Vec2,
    remainder: Vec2,
) -> bool {
    let amount = round_half_up(remainder.x + velocity.x);
    free_way_x(blocked, position, spec_movement_to_step(amount), step_count(amount))
}

/// The pixels that the vertical movement of one tick tests can all be
/// entered.
pub open spec fn free_tick_y(
    blocked: spec_fn(Point) -> bool,
    position: Point,
    velocity: Vec2,
    remainder: Vec2,
) -> bool {
    let amount = round_half_up(remainder.y + velocity.y);
    free_way_y(blocked, position, spec_movement_to_step(amount), step_count(amount))
}

/// Where every pixel that it tests can be entered, a horizontal walk covers
/// all its steps on its row.
pub proof fn lemma_free_walk_x_arrives(
    blocked: spec_fn(Point) -> bool,
    position: Point,
    step: int,
    count: nat,
)
    requires
        position.in_bounds(),
        -1 <= step <= 1,
        free_way_x(blocked, position, step, count),
    ensures
        walk_x(blocked, position, step, count) == (position.spec_addx(travel(step, count)), false),
        count > 0 ==> position.spec_addx(travel(step, count)).spec_is_in_screen(),
    decreases count,
{
    if count > 0 {
        let next = position.spec_addx(step);
        assert(enters_x(blocked, position, step, 1));
        assert(travel(step, 1) == step);
        assert(step_x(blocked, position, step) == Some(next));
        assert forall|k: nat| 1 <= k <= count - 1 implies #[trigger] enters_x(
            blocked,
            next,
            step,
            k,
        ) by {
            assert(enters_x(blocked, position, step, (k + 1) as nat));
            assert(travel(step, (k + 1) as nat) == travel(step, k) + step);
        }
        assert(travel(step, count) == travel(step, (count - 1) as nat) + step);
        assert(enters_x(blocked, position, step, count));
        lemma_free_walk_x_arrives(blocked, next, step, (count - 1) as nat);
    }
}

/// Where every pixel that it tests can be entered, a vertical walk covers
/// all its steps in its column.
pub proof fn lemma_free_walk_y_arrives(
    blocked: spec_fn(Point) -> bool,
    position: Point,
    step: int,
    count: nat,
)
    requires
        position.in_bounds(),
        -1 <= step <= 1,
        free_way_y(blocked, position, step, count),
    ensures
        walk_y(blocked, position, step, count) == (position.spec_addy(travel(step, count)), false),
        count > 0 ==> 0 <= position.spec_addy(travel(step, count)).y < HEIGHT,
    decreases count,
{
    if count > 0 {
        let next = position.spec_addy(step);
        assert(enters_y(blocked, position, step, 1));
        assert(travel(step, 1) == step);
        assert(step_y(blocked, position, step) == Some(next));
        assert forall|k: nat| 1 <= k <= count - 1 implies #[trigger] enters_y(
            blocked,
            next,
            step,
            k,
        ) by {
            assert(enters_y(blocked, position, step, (k + 1) as nat));
            assert(travel(step, (k + 1) as nat) == travel(step, k) + step);
        }
        assert(travel(step, count) == travel(step, (count - 1) as nat) + step);
        assert(enters_y(blocked, position, step, count));
        lemma_free_walk_y_arrives(blocked, next, step, (count - 1) as nat);
    }
}

/// The whole pixels of one tick are at most some four million, whatever the
/// velocity and the remainder.
pub proof fn lemma_amount_is_small(remainder: i32, velocity: i32)
    ensures
        -4294968 <= round_half_up(remainder + velocity) <= 4294968,
{
    lemma_fundamental_div_mod(remainder + velocity + HALF, ONE as int);
}

/// If no pixel that it tests collides or leaves the screen, the horizontal
/// movement of one tick ends exactly where the rounded sum of remainder and
/// velocity says, and the body is not told to stop. The remainder that is
/// carried on is the rounding error.
pub proof fn lemma_unobstructed_resolve_x(
    blocked: spec_fn(Point) -> bool,
    position: Point,
    velocity: Vec2,
    remainder: Vec2,
)
    requires
        position.in_bounds(),
        free_tick_x(blocked, position, velocity, remainder),
    ensures
        ({
            let amount = round_half_up(remainder.x + velocity.x);
            let outcome = resolve_x(blocked, position, velocity, remainder);
            &&& outcome.position.x == position.x + amount
            &&& outcome.position.y == position.y
            &&& outcome.position.in_bounds()
            &&& !outcome.blocked
            &&& ONE * amount + outcome.remainder.x == remainder.x + velocity.x
            &&& -HALF <= outcome.remainder.x < HALF
            &&& outcome.remainder.y == remainder.y
        }),
{
    let amount = round_half_up(remainder.x + velocity.x);
    let step = spec_movement_to_step(amount);
    let count = step_count(amount);
    assert(travel(step, count) == amount);
    lemma_amount_is_small(remainder.x, velocity.x);
    lemma_fundamental_div_mod(remainder.x + velocity.x + HALF, ONE as int);
    lemma_free_walk_x_arrives(blocked, position, step, count);
}

/// If no pixel that it tests collides or leaves the screen, the vertical
/// movement of one tick ends exactly where the rounded sum of remainder and
/// velocity says, and the body is not told to stop.
pub proof fn lemma_unobstructed_resolve_y(
    blocked: spec_fn(Point) -> bool,
    position: Point,
    velocity: Vec2,
    remainder: Vec2,
)
    requires
        position.in_bounds(),
        free_tick_y(blocked, position, velocity, remainder),
    ensures
        ({
            let amount = round_half_up(remainder.y + velocity.y);
            let outcome = resolve_y(blocked, position, velocity, remainder);
            &&& outcome.position.y == position.y + amount
            &&& outcome.position.x == position.x
            &&& outcome.position.in_bounds()
            &&& !outcome.blocked
            &&& ONE * amount + outcome.remainder.y == remainder.y + velocity.y
            &&& -HALF <= outcome.remainder.y < HALF
            &&& outcome.remainder.x == remainder.x
        }),
{
    let amount = round_half_up(remainder.y + velocity.y);
    let step = spec_movement_to_step(amount);
    let count = step_count(amount);
    assert(travel(step, count) == amount);
    lemma_amount_is_small(remainder.y, velocity.y);
    lemma_fundamental_div_mod(remainder.y + velocity.y + HALF, ONE as int);
    lemma_free_walk_y_arrives(blocked, position, step, count);
}

/// The horizontal components of a sequence of velocities.
pub open spec fn horizontal(velocities: Seq<Vec2>) -> Seq<int> {
    Seq::new(velocities.len(), |i: int| velocities[i].x as int)
}

/// The vertical components of a sequence of velocities.
pub open spec fn vertical(velocities: Seq<Vec2>) -> Seq<int> {
    Seq::new(velocities.len(), |i: int| velocities[i].y as int)
}

/// The outcome of moving horizontally for one tick after the other, with one
/// velocity per tick: each tick starts from the position and the remainder
/// that the tick before handed back. It is blocked if any of the ticks was.
pub open spec fn glide_x(
    blocked: spec_fn(Point) -> bool,
    position: Point,
    remainder: Vec2,
    velocities: Seq<Vec2>,
) -> Movement
    decreases velocities.len(),
{
    if velocities.len() == 0 {
        Movement { position, remainder, blocked: false }
    } else {
        let before = glide_x(blocked, position, remainder, velocities.drop_last());
        let last = resolve_x(blocked, before.position, velocities.last(), before.remainder);
        Movement { blocked: before.blocked || last.blocked, ..last }
    }
}

/// The outcome of moving vertically for one tick after the other.
pub open spec fn glide_y(
    blocked: spec_fn(Point) -> bool,
    position: Point,
    remainder: Vec2,
    velocities: Seq<Vec2>,
) -> Movement
    decreases velocities.len(),
{
    if velocities.len() == 0 {
        Movement { position, remainder, blocked: false }
    } else {
        let before = glide_y(blocked, position, remainder, velocities.drop_last());
        let last = resolve_y(blocked, before.position, velocities.last(), before.remainder);
        Movement { blocked: before.blocked || last.blocked, ..last }
    }
}

/// In none of the ticks of a horizontal glide does a pixel that is tested
/// collide or leave the screen.
pub open spec fn clear_x(
    blocked: spec_fn(Point) -> bool,
    position: Point,
    remainder: Vec2,
    velocities: Seq<Vec2>,
) -> bool
    decreases velocities.len(),
{
    if velocities.len() == 0 {
        true
    } else {
        let before = glide_x(blocked, position, remainder, velocities.drop_last());
        clear_x(blocked, position, remainder, velocities.drop_last()) && free_tick_x(
            blocked,
            before.position,
            velocities.last(),
            before.remainder,
        )
    }
}

/// In none of the ticks of a vertical glide does a pixel that is tested
/// collide or leave the screen.
pub open spec fn clear_y(
    blocked: spec_fn(Point) -> bool,
    position: Point,
    remainder: Vec2,
    velocities: Seq<Vec2>,
) -> bool
    decreases velocities.len(),
{
    if velocities.len() == 0 {
        true
    } else {
        let before = glide_y(blocked, position, remainder, velocities.drop_last());
        clear_y(blocked, position, remainder, velocities.drop_last()) && free_tick_y(
            blocked,
            before.position,
            velocities.last(),
            before.remainder,
        )
    }
}

/// The round trip of the movement: over any number of ticks in which no
/// tested pixel collides or leaves the screen, the distance covered is what
/// the accumulator of whole pixels hands out. Together with the remainder
/// still carried it is the sum of the velocities; from a remainder of less
/// than half a pixel it is that sum, with the remainder, rounded to the
/// nearest pixel, so that the position is never off by more than half a
/// pixel; and from no remainder it is the rounded sum of the velocities.
pub proof fn lemma_unobstructed_glide_x(
    blocked: spec_fn(Point) -> bool,
    position: Point,
    remainder: Vec2,
    velocities: Seq<Vec2>,
)
    requires
        position.in_bounds(),
        clear_x(blocked, position, remainder, velocities),
    ensures
        ({
            let end = glide_x(blocked, position, remainder, velocities);
            let fed = horizontal(velocities);
            &&& !end.blocked
            &&& end.position.in_bounds()
            &&& end.position.x == position.x + travelled(remainder.x as int, fed)
            &&& end.position.y == position.y
            &&& end.remainder.x == carried(remainder.x as int, fed)
            &&& end.remainder.y == remainder.y
            &&& ONE * (end.position.x - position.x) + end.remainder.x == remainder.x + total(fed)
            &&& -HALF <= remainder.x < HALF ==> end.position.x - position.x == round_half_up(
                remainder.x + total(fed),
            ) && -HALF <= end.remainder.x < HALF
            &&& remainder.x == 0 ==> end.position.x - position.x == round_half_up(total(fed))
        }),
    decreases velocities.len(),
{
    let fed = horizontal(velocities);
    lemma_accumulator_round_trip(remainder.x as int, fed);
    if velocities.len() > 0 {
        let shorter = velocities.drop_last();
        assert(horizontal(shorter) =~= fed.drop_last());
        lemma_unobstructed_glide_x(blocked, position, remainder, shorter);
        let before = glide_x(blocked, position, remainder, shorter);
        assert(fed.last() == velocities.last().x);
        lemma_unobstructed_resolve_x(blocked, before.position, velocities.last(), before.remainder);
    }
}

/// The round trip of the vertical movement, as that of the horizontal one.
pub proof fn lemma_unobstructed_glide_y(
    blocked: spec_fn(Point) -> bool,
    position: Point,
    remainder: Vec2,
    velocities: Seq<Vec2>,
)
    requires
        position.in_bounds(),
        clear_y(blocked, position, remainder, velocities),
    ensures
        ({
            let end = glide_y(blocked, position, remainder, velocities);
            let fed = vertical(velocities);
            &&& !end.blocked
            &&& end.position.in_bounds()
            &&& end.position.y == position.y + travelled(remainder.y as int, fed)
            &&& end.position.x == position.x
            &&& end.remainder.y == carried(remainder.y as int, fed)
            &&& end.remainder.x == remainder.x
            &&& ONE * (end.position.y - position.y) + end.remainder.y == remainder.y + total(fed)
            &&& -HALF <= remainder.y < HALF ==> end.position.y - position.y == round_half_up(
                remainder.y + total(fed),
            ) && -HALF <= end.remainder.y < HALF
            &&& remainder.y == 0 ==> end.position.y - position.y == round_half_up(total(fed))
        }),
    decreases velocities.len(),
{
    let fed = vertical(velocities);
    lemma_accumulator_round_trip(remainder.y as int, fed);
    if velocities.len() > 0 {
        let shorter = velocities.drop_last();
        assert(vertical(shorter) =~= fed.drop_last());
        lemma_unobstructed_glide_y(blocked, position, remainder, shorter);
        let before = glide_y(blocked, position, remainder, shorter);
        assert(fed.last() == velocities.last().y);
        lemma_unobstructed_resolve_y(blocked, before.position, velocities.last(), before.remainder);
    }
}

/// A collision halts the movement: if the pixel ahead refuses the body, and
/// the pixel above it too, a horizontal movement of at least one pixel
/// leaves the body where it is and reports the collision, so that the body
/// is told once to stop.
pub proof fn lemma_collision_halts_motion_x(
    blocked: spec_fn(Point) -> bool,
    position: Point,
    velocity: Vec2,
    remainder: Vec2,
)
    requires
        round_half_up(remainder.x + velocity.x) != 0,
        ({
            let step = spec_movement_to_step(round_half_up(remainder.x + velocity.x));
            &&& blocked(position.spec_addx(step))
            &&& blocked(position.spec_addx(step).spec_addy(-1))
        }),
    ensures
        resolve_x(blocked, position, velocity, remainder).position == position,
        resolve_x(blocked, position, velocity, remainder).blocked,
{
}

/// A collision halts the movement: if the pixel ahead refuses the body, a
/// vertical movement of at least one pixel leaves the body where it is and
/// reports the collision, so that the body is told once to stop.
pub proof fn lemma_collision_halts_motion_y(
    blocked: spec_fn(Point) -> bool,
    position: Point,
    velocity: Vec2,
    remainder: Vec2,
)
    requires
        round_half_up(remainder.y + velocity.y) != 0,
        blocked(
            position.spec_addy(spec_movement_to_step(round_half_up(remainder.y + velocity.y))),
        ),
    ensures
        resolve_y(blocked, position, velocity, remainder).position == position,
        resolve_y(blocked, position, velocity, remainder).blocked,
{
}

} // verus!
