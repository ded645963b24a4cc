//! How the actors put themselves on the display list.
use vstd::prelude::*;
use crate::blutti::{Blutti, BluttiView};
use crate::drawing::{
    display_text, draw_tile, text_command, tile_command, DrawCommand, Label, Sprite,
};
use crate::fixed::clip;
use crate::level::{Level, LevelView};
use crate::monster::{Monster, MonsterView};
use crate::particle::{Particle, ParticleView};
use crate::point_math::Point;
use crate::constants::{TILES_H, TILE_HEIGHT, TILE_WIDTH};

verus! {

/// An actor that can be drawn.
pub trait Drawable {
    /// The actor is fit to be drawn in `level`.
    spec fn can_draw(&self, level: &Level) -> bool;

    /// The instructions that draw the actor.
    spec fn drawn(&self, level: &Level) -> Seq<DrawCommand>;

    /// The instructions that write out what the actor is doing.
    spec fn drawn_debug(&self, level: &Level) -> Seq<DrawCommand>;

    /// Adds the instructions that draw the actor.
    fn draw(&self, level: &Level, list: &mut Vec<DrawCommand>)
        requires
            self.can_draw(level),
        ensures
            final(list)@ == old(list)@ + self.drawn(level),
    ;

    /// Adds the instructions that write out what the actor is doing.
    fn draw_debug(&self, level: &Level, list: &mut Vec<DrawCommand>)
        requires
            self.can_draw(level),
        ensures
            final(list)@ == old(list)@ + self.drawn_debug(level),
    ;
}

/// The largest column at which the debug overlay starts.
pub const DEBUG_MAX_X: i32 = 192;

/// The number of lines of the debug overlay.
pub const DEBUG_LINES: i32 = 12;

impl MonsterView {
    /// The instruction that draws the monster.
    pub open spec fn drawn(self) -> DrawCommand {
        tile_command(self.current_animation().current_sprite(), self.position)
    }
}

impl ParticleView {
    /// The instruction that draws the particle.
    pub open spec fn drawn(self) -> DrawCommand {
        tile_command(self.animation.current_sprite(), self.position)
    }
}

impl BluttiView {
    /// What line `k` of the debug overlay says.
    pub open spec fn debug_label(self, level: LevelView, k: int) -> Label {
        if k == 0 {
            Label::State(self.state)
        } else if k == 1 {
            Label::Number("Y", self.position.y)
        } else if k == 2 {
            Label::Number("X", self.position.x)
        } else if k == 3 {
            Label::Fraction("VX", self.velocity.x)
        } else if k == 4 {
            Label::Fraction("VY", self.velocity.y)
        } else if k == 5 {
            Label::Number("JT", self.jump_timer)
        } else if k == 6 {
            Label::Number("JB", self.jump_buffer_timer)
        } else if k == 7 {
            Label::Number("FT", self.fall_timer)
        } else if k == 8 {
            Label::Number("DT", self.dash_timer)
        } else if k == 9 {
            Label::Flag("OnLadder", self.is_on_ladder(level))
        } else if k == 10 {
            Label::Flag("CanClimb", self.can_climb(level))
        } else {
            Label::Flag("Climbing", self.state.spec_is_climbing())
        }
    }

    /// Line `k` of the debug overlay: the lines stand above the player, the
    /// first one lowest.
    pub open spec fn debug_line(self, level: LevelView, k: int) -> DrawCommand {
        text_command(
            self.debug_label(level, k),
            Point {
                x: if self.position.x < DEBUG_MAX_X {
                    self.position.x
                } else {
                    DEBUG_MAX_X
                },
                y: (self.position.y - 4 - 8 * k) as i32,
            },
            level.font_color,
        )
    }

    /// The debug overlay.
    pub open spec fn drawn_debug(self, level: LevelView) -> Seq<DrawCommand> {
        Seq::new(DEBUG_LINES as nat, |k: int| self.debug_line(level, k))
    }

    /// The instructions that draw the player: its sprite unless its
    /// animation is finished, and the debug overlay if that is switched on.
    pub open spec fn drawn(self, level: LevelView) -> Seq<DrawCommand> {
        let body = if self.animation.finished {
            Seq::<DrawCommand>::empty()
        } else {
            seq![tile_command(self.animation.current_sprite(), self.position)]
        };
        if self.debug {
            body + self.drawn_debug(level)
        } else {
            body
        }
    }
}

impl LevelView {
    /// Where tile number `i` of the grid is drawn.
    pub open spec fn tile_origin(i: int) -> Point {
        Point { x: ((i % (TILES_H as int)) * TILE_WIDTH) as i32, y: ((i / (TILES_H as int))
            * TILE_HEIGHT) as i32 }
    }

    /// The instructions that draw the first `count` tiles: one for each tile
    /// that is not empty.
    pub open spec fn tiles_drawn(self, count: nat) -> Seq<DrawCommand>
        decreases count,
    {
        if count == 0 {
            Seq::empty()
        } else {
            let before = self.tiles_drawn((count - 1) as nat);
            let tile = self.tiles[count - 1];
            if tile > 0 {
                before.push(tile_command((tile - 1) as i32, Self::tile_origin(count - 1)))
            } else {
                before
            }
        }
    }

    /// The instructions that draw the level: the background, then the
    /// tiles.
    pub open spec fn drawn(self) -> Seq<DrawCommand> {
        seq![DrawCommand::Clear(self.background_color)] + self.tiles_drawn(self.tiles.len())
    }

    /// The instructions that draw what lives in the level: the monsters,
    /// then the particles.
    pub open spec fn children_drawn(self) -> Seq<DrawCommand> {
        Seq::new(self.monsters.len(), |i: int| self.monsters[i].drawn()) + Seq::new(
            self.particles.len(),
            |i: int| self.particles[i].drawn(),
        )
    }
}

impl Drawable for Monster {
    open spec fn can_draw(&self, level: &Level) -> bool {
        self.wf()
    }

    open spec fn drawn(&self, level: &Level) -> Seq<DrawCommand> {
        seq![self@.drawn()]
    }

    open spec fn drawn_debug(&self, level: &Level) -> Seq<DrawCommand> {
        Seq::empty()
    }

    fn draw(&self, level: &Level, list: &mut Vec<DrawCommand>) {
        draw_tile(list, self.current_sprite(), self.position);
        assert(list@ =~= old(list)@ + seq![self@.drawn()]);
    }

    fn draw_debug(&self, level: &Level, list: &mut Vec<DrawCommand>) {
        assert(list@ =~= old(list)@ + Seq::<DrawCommand>::empty());
    }
}

impl Drawable for Particle {
    open spec fn can_draw(&self, level: &Level) -> bool {
        self.wf()
    }

    open spec fn drawn(&self, level: &Level) -> Seq<DrawCommand> {
        seq![self@.drawn()]
    }

    open spec fn drawn_debug(&self, level: &Level) -> Seq<DrawCommand> {
        Seq::empty()
    }

    fn draw(&self, level: &Level, list: &mut Vec<DrawCommand>) {
        draw_tile(list, self.animation.current_sprite(), self.position);
        assert(list@ =~= old(list)@ + seq![self@.drawn()]);
    }

    fn draw_debug(&self, level: &Level, list: &mut Vec<DrawCommand>) {
        assert(list@ =~= old(list)@ + Seq::<DrawCommand>::empty());
    }
}

impl Drawable for Blutti {
    open spec fn can_draw(&self, level: &Level) -> bool {
        self.wf() && level.wf()
    }

    open spec fn drawn(&self, level: &Level) -> Seq<DrawCommand> {
        self@.drawn(level@)
    }

    open spec fn drawn_debug(&self, level: &Level) -> Seq<DrawCommand> {
        self@.drawn_debug(level@)
    }

    fn draw(&self, level: &Level, list: &mut Vec<DrawCommand>) {
        if !self.animation.finished {
            let tile: Sprite = self.animation.current_sprite();
            draw_tile(list, tile, self.position);
        }
        let ghost body = list@;
        assert(body =~= old(list)@ + if self.animation.finished {
            Seq::<DrawCommand>::empty()
        } else {
            seq![tile_command(self@.animation.current_sprite(), self.position)]
        });
        if self.debug {
            self.draw_debug(level, list);
        }
        assert(list@ =~= old(list)@ + self@.drawn(level@));
    }

    fn draw_debug(&self, level: &Level, list: &mut Vec<DrawCommand>) {
        let x: i32 = if self.position.x < DEBUG_MAX_X {
            self.position.x
        } else {
            DEBUG_MAX_X
        };
        let on_ladder = self.is_on_ladder(level);
        let can_climb = self.can_climb(level);
        let climbing = self.state.is_climbing();
        let mut k: i32 = 0;
        while k < DEBUG_LINES
            invariant
                0 <= k <= DEBUG_LINES,
                self.wf(),
                x == if self.position.x < DEBUG_MAX_X {
                    self.position.x
                } else {
                    DEBUG_MAX_X
                },
                on_ladder == self@.is_on_ladder(level@),
                can_climb == self@.can_climb(level@),
                climbing == self@.state.spec_is_climbing(),
                list@ == old(list)@ + Seq::new(k as nat, |j: int| self@.debug_line(level@, j)),
            decreases DEBUG_LINES - k,
        {
            let label = if k == 0 {
                Label::State(self.state)
            } else if k == 1 {
                Label::Number("Y", self.position.y)
            } else if k == 2 {
                Label::Number("X", self.position.x)
            } else if k == 3 {
                Label::Fraction("VX", self.velocity.x)
            } else if k == 4 {
                Label::Fraction("VY", self.velocity.y)
            } else if k == 5 {
                Label::Number("JT", self.jump_timer)
            } else if k == 6 {
                Label::Number("JB", self.jump_buffer_timer)
            } else if k == 7 {
                Label::Number("FT", self.fall_timer)
            } else if k == 8 {
                Label::Number("DT", self.dash_timer)
            } else if k == 9 {
                Label::Flag("OnLadder", on_ladder)
            } else if k == 10 {
                Label::Flag("CanClimb", can_climb)
            } else {
                Label::Flag("Climbing", climbing)
            };
            display_text(
                list,
                level.font_color,
                label,
                Point { x, y: self.position.y - 4 - 8 * k },
            );
            k += 1;
            assert(list@ =~= old(list)@ + Seq::new(
                k as nat,
                |j: int| self@.debug_line(level@, j),
            ));
        }
    }
}

impl Level {
    /// Adds the instructions that draw the background and the tiles.
    pub fn draw(&self, list: &mut Vec<DrawCommand>)
        requires
            self.wf(),
        ensures
            final(list)@ == old(list)@ + self@.drawn(),
    {
        list.push(DrawCommand::Clear(self.background_color));
        let n = self.tiles.len();
        let mut i: usize = 0;
        while i < n
            invariant
                i <= n,
                n == self.tiles@.len(),
                self.wf(),
                list@ == old(list)@ + (seq![DrawCommand::Clear(self.background_color)]
                    + self@.tiles_drawn(i as nat)),
            decreases n - i,
        {
            let tile: Sprite = self.tiles[i];
            if tile > 0 {
                assert(0 <= self@.tiles[i as int] <= crate::constants::COLLIDER_COUNT);
                let index: i32 = i as i32;
                let point = Point {
                    x: (index % TILES_H) * TILE_WIDTH,
                    y: (index / TILES_H) * TILE_HEIGHT,
                };
                draw_tile(list, tile - 1, point);
            }
            i += 1;
            assert(list@ =~= old(list)@ + (seq![DrawCommand::Clear(self.background_color)]
                + self@.tiles_drawn(i as nat)));
        }
        assert(list@ =~= old(list)@ + self@.drawn());
    }

    /// Adds the instructions that draw the monsters and the particles.
    pub fn draw_children(&self, list: &mut Vec<DrawCommand>)
        requires
            self.wf(),
        ensures
            final(list)@ == old(list)@ + self@.children_drawn(),
    {
        let n = self.monsters.len();
        let mut i: usize = 0;
        while i < n
            invariant
                i <= n,
                n == self.monsters@.len(),
                self.wf(),
                list@ == old(list)@ + Seq::new(i as nat, |j: int| self@.monsters[j].drawn()),
            decreases n - i,
        {
            assert(self@.monsters[i as int].wf());
            self.monsters[i].draw(self, list);
            i += 1;
            assert(list@ =~= old(list)@ + Seq::new(
                i as nat,
                |j: int| self@.monsters[j].drawn(),
            ));
        }
        let ghost middle = list@;
        let m = self.particles.len();
        let mut k: usize = 0;
        while k < m
            invariant
                k <= m,
                m == self.particles@.len(),
                self.wf(),
                list@ == middle + Seq::new(k as nat, |j: int| self@.particles[j].drawn()),
            decreases m - k,
        {
            assert(self@.particles[k as int].wf());
            self.particles[k].draw(self, list);
            k += 1;
            assert(list@ =~= middle + Seq::new(k as nat, |j: int| self@.particles[j].drawn()));
        }
        assert(list@ =~= old(list)@ + self@.children_drawn());
    }
}

} // verus!
