//! The tile grid of a level and what lives in it.
use vstd::prelude::*;
use crate::blutti::{Blutti, BluttiView};
use crate::collision::Collision;
use crate::functions::{random_value, spec_random_value};
use crate::game_state::GameState;
use crate::state::State;
use crate::constants::{BORDER_SPRITE, COLLIDER_COUNT, COORD_LIMIT};
use crate::drawing::{get_tile_index, tile_index, Color, Sprite};
use crate::monster::{clone_monsters, monster_views, Monster, MonsterCollision, MonsterView};
use crate::particle::{Particle, ParticleView};
use crate::point_math::{Point, PointMath};
use crate::rect::Rect;
use crate::tile_collider::TileCollider;

verus! {

/// The number of a level.
pub type LevelNumber = i32;

/// The level that a new game starts with. Level 0 is kept for trials.
pub const START_LEVEL: LevelNumber = 1;

/// A level: the grid of tiles, where the player starts, how many stars open
/// the exit, and the monsters and particles that move in it.
#[derive(Debug)]
pub struct Level {
    /// One sprite number per tile, row by row; 0 is an empty tile and `n`
    /// stands for the sprite `n - 1`.
    pub tiles: Vec<Sprite>,
    pub background_color: Color,
    pub font_color: Color,
    pub stars: i32,
    pub start_position: Point,
    /// Chance, in percent per tick, that a drifting particle appears.
    pub particle_chance: i32,
    pub particle_sprite: i32,
    pub monsters: Vec<Monster>,
    pub particles: Vec<Particle>,
    /// The monsters as they were when the level was loaded.
    pub original_monsters: Vec<Monster>,
}

/// The mathematical value of a [`Level`].
pub struct LevelView {
    pub tiles: Seq<Sprite>,
    pub background_color: Color,
    pub font_color: Color,
    pub stars: i32,
    pub start_position: Point,
    pub particle_chance: i32,
    pub particle_sprite: i32,
    pub monsters: Seq<MonsterView>,
    pub particles: Seq<ParticleView>,
    pub original_monsters: Seq<MonsterView>,
}

/// The values of a sequence of particles.
pub open spec fn particle_views(particles: Seq<Particle>) -> Seq<ParticleView> {
    Seq::new(particles.len(), |i: int| particles[i]@)
}

impl LevelView {
    /// Every tile names a sprite of the collider table or is empty, and
    /// every monster and particle is well-formed.
    pub open spec fn wf(self) -> bool {
        &&& self.tiles.len() <= i32::MAX
        &&& forall|i: int|
            0 <= i < self.tiles.len() ==> 0 <= #[trigger] self.tiles[i] <= COLLIDER_COUNT
        &&& forall|i: int| 0 <= i < self.monsters.len() ==> (#[trigger] self.monsters[i]).wf()
        &&& forall|i: int|
            0 <= i < self.original_monsters.len() ==> (#[trigger] self.original_monsters[i]).wf()
        &&& forall|i: int| 0 <= i < self.particles.len() ==> (#[trigger] self.particles[i]).wf()
        &&& self.start_position.in_bounds()
        &&& self.particle_sprite < i32::MAX
    }

    /// The zero-based sprite of the tile that holds `point`: -1 for an empty
    /// tile, and the solid border sprite for a point outside the grid.
    pub open spec fn sprite_at(self, point: Point) -> int {
        let index = tile_index(point);
        if 0 <= index < self.tiles.len() {
            self.tiles[index] - 1
        } else {
            BORDER_SPRITE as int
        }
    }

    /// The tile at `position`, if there is one.
    pub open spec fn collision_at_position(self, position: Point) -> Option<Collision> {
        let sprite = self.sprite_at(position);
        if sprite >= 0 {
            Some(Collision { tile_collider: TileCollider::of_sprite(sprite), position })
        } else {
            None
        }
    }

    /// The collider at `position`; `Vacant` where there is no tile.
    pub open spec fn collider_at(self, position: Point) -> TileCollider {
        match self.collision_at_position(position) {
            Some(collision) => collision.tile_collider,
            None => TileCollider::Vacant,
        }
    }

    /// The tile at `position` gives no footing.
    pub open spec fn is_tile_empty(self, position: Point) -> bool {
        self.collider_at(position).spec_is_empty()
    }

    /// A body can move into the tile at `position`.
    pub open spec fn is_tile_free(self, position: Point) -> bool {
        self.collider_at(position).spec_is_free()
    }

    /// The four corners of the tile-sized footprint at `position`, probed in
    /// the order top left, top right, bottom left, bottom right.
    pub open spec fn all_collisions_at_rect(self, position: Point) -> Seq<Option<Collision>> {
        seq![
            self.collision_at_position(position),
            self.collision_at_position(position.spec_top_right()),
            self.collision_at_position(position.spec_bottom_left()),
            self.collision_at_position(position.spec_bottom_right()),
        ]
    }

    /// The tile found last among the four corners of the footprint: the
    /// bottom right corner wins over the bottom left, and so on.
    pub open spec fn last_collision_at_rect(self, position: Point) -> Option<Collision> {
        let found = self.all_collisions_at_rect(position);
        if found[3].is_some() {
            found[3]
        } else if found[2].is_some() {
            found[2]
        } else if found[1].is_some() {
            found[1]
        } else {
            found[0]
        }
    }

    /// Monster `i` is of the kind `kind` and its footprint holds `position`.
    pub open spec fn monster_holds(self, i: int, position: Point, kind: MonsterCollision) -> bool {
        self.monsters[i].collision == kind && self.monsters[i].rect().spec_contains(position)
    }

    /// Some monster of the kind `kind` holds `position` in its footprint.
    pub open spec fn monster_blocks(self, position: Point, kind: MonsterCollision) -> bool {
        exists|i: int|
            0 <= i < self.monsters.len() && #[trigger] self.monster_holds(i, position, kind)
    }

    /// Monster `i` is deadly and overlaps `rect`.
    pub open spec fn monster_threatens(self, i: int, rect: Rect) -> bool {
        self.monsters[i].collision == MonsterCollision::Deadly
            && self.monsters[i].rect().spec_overlaps(rect)
    }

    /// Some deadly monster overlaps `rect`.
    pub open spec fn deadly_overlap(self, rect: Rect) -> bool {
        exists|i: int| 0 <= i < self.monsters.len() && #[trigger] self.monster_threatens(i, rect)
    }

    /// The level with the tile that holds `position` emptied.
    pub open spec fn remove_tile(self, position: Point) -> Self {
        LevelView { tiles: self.tiles.update(tile_index(position), 0), ..self }
    }

    /// The level with its monsters as they were when it was loaded.
    pub open spec fn reset(self) -> Self {
        LevelView { monsters: self.original_monsters, ..self }
    }

    /// The level with one more particle.
    pub open spec fn add_particle(self, particle: ParticleView) -> Self {
        LevelView { particles: self.particles.push(particle), ..self }
    }

    /// The level as monster `i` sees it: without that monster.
    pub open spec fn without_monster(self, i: int) -> Self {
        LevelView { monsters: self.monsters.remove(i), ..self }
    }

    /// The level and the player after the monsters from number `from` on
    /// had their tick, one after the other. Each monster sees the others as
    /// they are when its turn comes.
    pub open spec fn update_monsters(self, blutti: BluttiView, from: nat) -> (LevelView, BluttiView)
        decreases self.monsters.len() - from,
    {
        if from >= self.monsters.len() {
            (self, blutti)
        } else {
            let others = self.without_monster(from as int);
            let monster = self.monsters[from as int];
            (LevelView {
                monsters: self.monsters.update(from as int, monster.update(others, blutti)),
                ..self
            }).update_monsters(monster.push(others, blutti), from + 1)
        }
    }

    /// The level after the chance of a new drifting particle was taken. The
    /// first random word decides whether one appears, the second where.
    pub open spec fn spawn(self, rolls: Seq<u32>) -> Self {
        if spec_random_value(word(rolls, 0) as int, 100) < self.particle_chance {
            self.add_particle(ParticleView::random(self.particle_sprite, word(rolls, 1)))
        } else {
            self
        }
    }

    /// The level after every particle had its tick. Particle `k` is steered
    /// by the random words `2 + 2 * k` and `3 + 2 * k`.
    pub open spec fn update_particles(self, player: Point, rolls: Seq<u32>) -> Self {
        LevelView {
            particles: Seq::new(
                self.particles.len(),
                |k: int|
                    self.particles[k].update(
                        player,
                        word(rolls, 2 + 2 * k),
                        word(rolls, 3 + 2 * k),
                    ),
            ),
            ..self
        }
    }

    /// The level without the particles that are done.
    pub open spec fn cull(self) -> Self {
        LevelView { particles: self.particles.filter(|p: ParticleView| stays(p)), ..self }
    }

    /// The number of random words with which a tick of the level uses no
    /// word twice.
    pub open spec fn rolls_needed(self) -> nat {
        2 * self.particles.len() + 4
    }

    /// The level and the player one tick later: the monsters move, a
    /// drifting particle may appear, the particles move, and those that are
    /// done are dropped.
    pub open spec fn update(self, blutti: BluttiView, rolls: Seq<u32>) -> (LevelView, BluttiView) {
        let (level, pushed) = self.update_monsters(blutti, 0);
        (level.spawn(rolls).update_particles(pushed.position, rolls).cull(), pushed)
    }
}

/// Random word number `j` of the pool `rolls`. A pool that is too short is
/// used again from its start.
pub open spec fn word(rolls: Seq<u32>, j: int) -> u32 {
    rolls[j % (rolls.len() as int)]
}

/// Random word number `j` of the pool `rolls`.
pub fn pick(rolls: &Vec<u32>, j: u128) -> (r: u32)
    requires
        rolls@.len() > 0,
    ensures
        r == word(rolls@, j as int),
{
    rolls[(j % (rolls.len() as u128)) as usize]
}

/// The particle is not done yet.
pub open spec fn stays(particle: ParticleView) -> bool {
    !particle.should_be_removed()
}

/// Filtering keeps a sequence whose every element passes.
pub proof fn lemma_filter_keeps_all<A>(s: Seq<A>, pred: spec_fn(A) -> bool)
    requires
        forall|i: int| 0 <= i < s.len() ==> pred(#[trigger] s[i]),
    ensures
        s.filter(pred) == s,
    decreases s.len(),
{
    reveal(Seq::filter);
    if s.len() > 0 {
        lemma_filter_keeps_all(s.drop_last(), pred);
        assert(s.drop_last().push(s.last()) =~= s);
    }
}

/// Taking out an element that does not pass changes nothing of what the
/// filter keeps.
pub proof fn lemma_filter_ignores_removed<A>(s: Seq<A>, pred: spec_fn(A) -> bool, k: int)
    requires
        0 <= k < s.len(),
        !pred(s[k]),
    ensures
        s.remove(k).filter(pred) == s.filter(pred),
{
    let head = s.take(k);
    let one = seq![s[k]];
    let tail = s.skip(k + 1);
    assert(s =~= head + one + tail);
    assert(s.remove(k) =~= head + tail);
    Seq::filter_distributes_over_add(head + one, tail, pred);
    Seq::filter_distributes_over_add(head, one, pred);
    Seq::filter_distributes_over_add(head, tail, pred);
    assert(one.filter(pred) =~= Seq::<A>::empty()) by {
        reveal_with_fuel(Seq::filter, 2);
        assert(one.drop_last() =~= Seq::<A>::empty());
    }
    assert(head.filter(pred) + Seq::<A>::empty() =~= head.filter(pred));
}

impl View for Level {
    type V = LevelView;

    open spec fn view(&self) -> LevelView {
        LevelView {
            tiles: self.tiles@,
            background_color: self.background_color,
            font_color: self.font_color,
            stars: self.stars,
            start_position: self.start_position,
            particle_chance: self.particle_chance,
            particle_sprite: self.particle_sprite,
            monsters: monster_views(self.monsters@),
            particles: particle_views(self.particles@),
            original_monsters: monster_views(self.original_monsters@),
        }
    }
}

/// Copies a list of particles.
pub fn clone_particles(particles: &Vec<Particle>) -> (r: Vec<Particle>)
    ensures
        particle_views(r@) == particle_views(particles@),
{
    let mut out: Vec<Particle> = Vec::new();
    let mut i: usize = 0;
    while i < particles.len()
        invariant
            i <= particles@.len(),
            out@.len() == i,
            forall|j: int| 0 <= j < i ==> (#[trigger] out@[j])@ == particles@[j]@,
        decreases particles@.len() - i,
    {
        out.push(particles[i].clone());
        i += 1;
    }
    assert(particle_views(out@) =~= particle_views(particles@));
    out
}

impl Clone for Level {
    fn clone(&self) -> (r: Self)
        ensures
            r@ == self@,
    {
        let tiles = self.tiles.clone();
        assert(tiles@ =~= self.tiles@);
        Level {
            tiles,
            background_color: self.background_color,
            font_color: self.font_color,
            stars: self.stars,
            start_position: self.start_position,
            particle_chance: self.particle_chance,
            particle_sprite: self.particle_sprite,
            monsters: clone_monsters(&self.monsters),
            particles: clone_particles(&self.particles),
            original_monsters: clone_monsters(&self.original_monsters),
        }
    }
}

impl Level {
    /// See [`LevelView::wf`].
    pub open spec fn wf(&self) -> bool {
        self@.wf()
    }

    /// Whether the parts of a level are fit to be one: the tiles name
    /// sprites of the collider table, the start lies within the coordinate
    /// limit, and the monsters are well-formed.
    pub open spec fn fits(
        tiles: Seq<Sprite>,
        start_position: Point,
        particle_sprite: i32,
        monsters: Seq<MonsterView>,
    ) -> bool {
        &&& tiles.len() <= i32::MAX
        &&& forall|i: int| 0 <= i < tiles.len() ==> 0 <= #[trigger] tiles[i] <= COLLIDER_COUNT
        &&& forall|i: int| 0 <= i < monsters.len() ==> (#[trigger] monsters[i]).wf()
        &&& start_position.in_bounds()
        &&& particle_sprite < i32::MAX
    }

    /// Builds a level from its parts and keeps a copy of the monsters for
    /// `reset`. Hands the parts back as `None` unless they fit.
    pub fn load_level(
        tiles: Vec<Sprite>,
        background_color: Color,
        font_color: Color,
        stars: i32,
        start_position: Point,
        particle_chance: i32,
        particle_sprite: i32,
        monsters: Vec<Monster>,
    ) -> (r: Option<Level>)
        ensures
            r.is_some() <==> Self::fits(
                tiles@,
                start_position,
                particle_sprite,
                monster_views(monsters@),
            ),
            r.is_some() ==> r.unwrap().wf() && r.unwrap()@ == (LevelView {
                tiles: tiles@,
                background_color,
                font_color,
                stars,
                start_position,
                particle_chance,
                particle_sprite,
                monsters: monster_views(monsters@),
                particles: Seq::empty(),
                original_monsters: monster_views(monsters@),
            }),
    {
        if tiles.len() > 0x7fff_ffff || !tiles_fit(&tiles) || !monsters_fit(&monsters) || !in_bounds(start_position)
            || particle_sprite == i32::MAX {
            return None;
        }
        let original_monsters = clone_monsters(&monsters);
        let level = Level {
            tiles,
            background_color,
            font_color,
            stars,
            start_position,
            particle_chance,
            particle_sprite,
            monsters,
            particles: Vec::new(),
            original_monsters,
        };
        assert(level@.particles =~= Seq::empty());
        Some(level)
    }

    /// Whether the level is well-formed.
    pub fn is_wf(&self) -> (r: bool)
        ensures
            r == self.wf(),
    {
        let short = self.tiles.len() <= 0x7fff_ffff;
        let tiles = tiles_fit(&self.tiles);
        let monsters = monsters_fit(&self.monsters);
        let originals = monsters_fit(&self.original_monsters);
        let particles = particles_fit(&self.particles);
        let start = in_bounds(self.start_position);
        proof {
            let v = self@;
            assert(v.tiles == self.tiles@);
            assert(v.monsters == monster_views(self.monsters@));
            assert(v.original_monsters == monster_views(self.original_monsters@));
            assert(v.particles == particle_views(self.particles@));
            assert(tiles <==> forall|i: int|
                0 <= i < v.tiles.len() ==> 0 <= #[trigger] v.tiles[i] <= COLLIDER_COUNT);
            assert(monsters <==> forall|i: int|
                0 <= i < v.monsters.len() ==> (#[trigger] v.monsters[i]).wf());
            assert(originals <==> forall|i: int|
                0 <= i < v.original_monsters.len() ==> (#[trigger] v.original_monsters[i]).wf());
            assert(particles <==> forall|i: int|
                0 <= i < v.particles.len() ==> (#[trigger] v.particles[i]).wf());
        }
        short && tiles && monsters && originals && particles && start && self.particle_sprite
            < i32::MAX
    }

    /// The zero-based sprite of the tile that holds `point`.
    fn sprite_at_position(&self, point: Point) -> (r: Sprite)
        requires
            self.wf(),
            point.in_reach(),
        ensures
            r == self@.sprite_at(point),
            -1 <= r < COLLIDER_COUNT,
    {
        let tile_pos: i32 = get_tile_index(point);
        if tile_pos >= 0 && (tile_pos as usize) < self.tiles.len() {
            assert(0 <= self@.tiles[tile_pos as int] <= COLLIDER_COUNT);
            self.tiles[tile_pos as usize] - 1
        } else {
            BORDER_SPRITE
        }
    }

    /// The tile at `position`, if there is one.
    pub fn collision_at_position(&self, position: Point) -> (r: Option<Collision>)
        requires
            self.wf(),
            position.in_reach(),
        ensures
            r == self@.collision_at_position(position),
    {
        let sprite: Sprite = self.sprite_at_position(position);
        if sprite >= 0 {
            Some(Collision { tile_collider: TileCollider::for_sprite(sprite), position })
        } else {
            None
        }
    }

    /// The collider at `position`; `Vacant` where there is no tile.
    pub fn collision(&self, position: Point) -> (r: TileCollider)
        requires
            self.wf(),
            position.in_reach(),
        ensures
            r == self@.collider_at(position),
    {
        match self.collision_at_position(position) {
            Some(collision) => collision.tile_collider,
            None => TileCollider::Vacant,
        }
    }

    /// Whether the tile at `position` gives no footing.
    pub fn is_tile_empty(&self, position: Point) -> (r: bool)
        requires
            self.wf(),
            position.in_reach(),
        ensures
            r == self@.is_tile_empty(position),
    {
        self.collision(position).is_empty()
    }

    /// Whether a body can move into the tile at `position`.
    pub fn is_tile_free(&self, position: Point) -> (r: bool)
        requires
            self.wf(),
            position.in_reach(),
        ensures
            r == self@.is_tile_free(position),
    {
        self.collision(position).is_free()
    }

    /// Probes the four corners of the tile-sized footprint at `position`.
    pub fn all_collisions_at_rect(&self, position: Point) -> (r: [Option<Collision>; 4])
        requires
            self.wf(),
            position.in_bounds(),
        ensures
            r@ == self@.all_collisions_at_rect(position),
    {
        let found = [
            self.collision_at_position(position),
            self.collision_at_position(position.top_right()),
            self.collision_at_position(position.bottom_left()),
            self.collision_at_position(position.bottom_right()),
        ];
        assert(found@ =~= self@.all_collisions_at_rect(position));
        found
    }

    /// The tile found last among the four corners of the tile-sized
    /// footprint at `position`.
    pub fn last_collision_at_rect(&self, position: Point) -> (r: Option<Collision>)
        requires
            self.wf(),
            position.in_bounds(),
        ensures
            r == self@.last_collision_at_rect(position),
            r.is_some() ==> r.unwrap().position.in_reach() && self@.collision_at_position(
                r.unwrap().position,
            ) == r,
    {
        let found = self.all_collisions_at_rect(position);
        if found[3].is_some() {
            found[3]
        } else if found[2].is_some() {
            found[2]
        } else if found[1].is_some() {
            found[1]
        } else {
            found[0]
        }
    }

    /// Empties the tile that holds `position`.
    pub fn remove_tile(&mut self, position: Point)
        requires
            old(self).wf(),
            position.in_reach(),
            0 <= tile_index(position) < old(self).tiles@.len(),
        ensures
            final(self)@ == old(self)@.remove_tile(position),
            final(self).wf(),
    {
        let tile_pos: i32 = get_tile_index(position);
        self.tiles[tile_pos as usize] = 0;
    }

    /// The monsters whose footprint holds `position`, in their order.
    pub fn monsters_at_position(&self, position: Point) -> (r: Vec<&Monster>)
        ensures
            r@.map_values(|m: &Monster| *m) == self.monsters@.filter(
                |m: Monster| m@.rect().spec_contains(position),
            ),
    {
        let mut found: Vec<&Monster> = Vec::new();
        let mut i: usize = 0;
        let ghost holds = |m: Monster| m@.rect().spec_contains(position);
        assert(self.monsters@.take(0).filter(holds) =~= Seq::empty()) by {
            reveal(Seq::filter);
        }
        while i < self.monsters.len()
            invariant
                i <= self.monsters@.len(),
                holds == |m: Monster| m@.rect().spec_contains(position),
                found@.map_values(|m: &Monster| *m) =~= self.monsters@.take(i as int).filter(holds),
            decreases self.monsters@.len() - i,
        {
            proof {
                let next = self.monsters@.take(i as int + 1);
                assert(next.drop_last() =~= self.monsters@.take(i as int));
                assert(next.last() == self.monsters@[i as int]);
                reveal(Seq::filter);
            }
            if self.monsters[i].rect().contains(position) {
                found.push(&self.monsters[i]);
            }
            i += 1;
        }
        assert(self.monsters@.take(i as int) =~= self.monsters@);
        found
    }

    /// Whether some monster of the kind `kind` holds `position` in its
    /// footprint.
    pub fn is_blocked_by_monster(&self, position: Point, kind: MonsterCollision) -> (r: bool)
        ensures
            r == self@.monster_blocks(position, kind),
    {
        let mut i: usize = 0;
        while i < self.monsters.len()
            invariant
                i <= self.monsters@.len(),
                forall|j: int| 0 <= j < i ==> !#[trigger] self@.monster_holds(j, position, kind),
            decreases self.monsters@.len() - i,
        {
            if self.monsters[i].collision == kind && self.monsters[i].rect().contains(position) {
                assert(self@.monster_holds(i as int, position, kind));
                return true;
            }
            i += 1;
        }
        false
    }

    /// Whether some deadly monster overlaps `rect`.
    pub fn deadly_monsters_overlapping_rect(&self, rect: Rect) -> (r: bool)
        requires
            rect.in_bounds(),
        ensures
            r == self@.deadly_overlap(rect),
    {
        let mut i: usize = 0;
        while i < self.monsters.len()
            invariant
                i <= self.monsters@.len(),
                rect.in_bounds(),
                forall|j: int| 0 <= j < i ==> !#[trigger] self@.monster_threatens(j, rect),
            decreases self.monsters@.len() - i,
        {
            if self.monsters[i].collision == MonsterCollision::Deadly && self.monsters[i].overlaps(
                rect,
            ) {
                assert(self@.monster_threatens(i as int, rect));
                return true;
            }
            i += 1;
        }
        false
    }

    /// Puts the monsters back to where they were when the level was loaded.
    /// Tiles and particles stay as they are.
    pub fn reset(&mut self)
        ensures
            final(self)@ == old(self)@.reset(),
            old(self).wf() ==> final(self).wf(),
    {
        self.monsters = clone_monsters(&self.original_monsters);
    }

    /// Adds a particle to the level.
    pub fn add_particle(&mut self, particle: Particle)
        ensures
            final(self)@ == old(self)@.add_particle(particle@),
            final(self).particles@.len() == old(self).particles@.len() + 1,
            old(self).wf() && particle.wf() ==> final(self).wf(),
    {
        self.particles.push(particle);
        assert(final(self)@.particles =~= old(self)@.particles.push(particle@));
    }
}

impl Level {
    /// The number of random words with which `update` uses no word twice,
    /// or `usize::MAX` where that number is out of range.
    pub fn rolls_needed(&self) -> (r: usize)
        ensures
            r >= self@.rolls_needed() || r == usize::MAX,
            self@.rolls_needed() <= usize::MAX ==> r == self@.rolls_needed(),
    {
        let n = self.particles.len();
        if n > (usize::MAX - 4) / 2 {
            usize::MAX
        } else {
            2 * n + 4
        }
    }

    fn update_monsters(&mut self, blutti: &mut Blutti)
        requires
            old(self).wf(),
            old(blutti).wf(),
        ensures
            (final(self)@, final(blutti)@) == old(self)@.update_monsters(old(blutti)@, 0),
            final(self).wf(),
            final(blutti).wf(),
            final(self).particles@.len() == old(self).particles@.len(),
    {
        let n = self.monsters.len();
        let mut i: usize = 0;
        while i < n
            invariant
                i <= n,
                n == self.monsters@.len(),
                self.wf(),
                blutti.wf(),
                self.particles@.len() == old(self).particles@.len(),
                self@.update_monsters(blutti@, i as nat) == old(self)@.update_monsters(
                    old(blutti)@,
                    0,
                ),
            decreases n - i,
        {
            let ghost before = self@;
            let ghost rider = blutti@;
            let mut monster = self.monsters.remove(i);
            proof {
                assert(self@.monsters =~= before.monsters.remove(i as int));
                assert(self@ == before.without_monster(i as int));
                assert(monster@ == before.monsters[i as int]);
                assert forall|j: int| 0 <= j < self@.monsters.len() implies (
                #[trigger] self@.monsters[j]).wf() by {
                    if j < i {
                        assert(before.monsters[j].wf());
                    } else {
                        assert(before.monsters[j + 1].wf());
                    }
                }
            }
            let ghost others = self@;
            monster.update(self, blutti);
            let ghost moved = monster@;
            self.monsters.insert(i, monster);
            proof {
                assert(self@.monsters =~= before.monsters.update(i as int, moved));
                assert(self@ == (LevelView {
                    monsters: before.monsters.update(i as int, moved),
                    ..before
                }));
                assert forall|j: int| 0 <= j < self@.monsters.len() implies (
                #[trigger] self@.monsters[j]).wf() by {
                    if j != i {
                        assert(before.monsters[j].wf());
                    }
                }
            }
            i += 1;
        }
    }

    fn spawn(&mut self, rolls: &Vec<u32>)
        requires
            old(self).wf(),
            rolls@.len() > 0,
        ensures
            final(self)@ == old(self)@.spawn(rolls@),
            final(self).wf(),
            final(self).particles@.len() <= old(self).particles@.len() + 1,
    {
        if random_value(pick(rolls, 0), 100) < self.particle_chance {
            let particle = Particle::random(self.particle_sprite, pick(rolls, 1));
            self.add_particle(particle);
        }
    }

    fn update_particles(&mut self, player: Point, rolls: &Vec<u32>)
        requires
            old(self).wf(),
            rolls@.len() > 0,
        ensures
            final(self)@ == old(self)@.update_particles(player, rolls@),
            final(self).wf(),
    {
        let n = self.particles.len();
        let mut k: usize = 0;
        while k < n
            invariant
                k <= n,
                n == self.particles@.len(),
                n == old(self).particles@.len(),
                rolls@.len() > 0,
                old(self).wf(),
                self.tiles == old(self).tiles,
                self.monsters == old(self).monsters,
                self.original_monsters == old(self).original_monsters,
                self.background_color == old(self).background_color,
                self.font_color == old(self).font_color,
                self.stars == old(self).stars,
                self.start_position == old(self).start_position,
                self.particle_chance == old(self).particle_chance,
                self.particle_sprite == old(self).particle_sprite,
                forall|j: int|
                    0 <= j < k ==> (#[trigger] self.particles@[j])@ == old(
                        self,
                    ).particles@[j]@.update(
                        player,
                        word(rolls@, 2 + 2 * j),
                        word(rolls@, 3 + 2 * j),
                    )
                        && self.particles@[j].wf(),
                forall|j: int|
                    k <= j < n ==> (#[trigger] self.particles@[j]) == old(self).particles@[j],
            decreases n - k,
        {
            assert(old(self)@.particles[k as int].wf());
            let roll_x: u32 = pick(rolls, 2 + 2 * (k as u128));
            let roll_y: u32 = pick(rolls, 3 + 2 * (k as u128));
            self.particles[k].update(player, roll_x, roll_y);
            k += 1;
        }
        assert(self@.particles =~= old(self)@.update_particles(player, rolls@).particles);
    }

    fn cull(&mut self)
        requires
            old(self).wf(),
        ensures
            final(self)@ == old(self)@.cull(),
            final(self).wf(),
    {
        let ghost keep = |p: ParticleView| stays(p);
        let mut k: usize = 0;
        while k < self.particles.len()
            invariant
                k <= self.particles@.len(),
                self.wf(),
                keep == |p: ParticleView| stays(p),
                self@.particles.filter(keep) == old(self)@.particles.filter(keep),
                forall|j: int| 0 <= j < k ==> stays(#[trigger] self@.particles[j]),
                self@ == (LevelView { particles: self@.particles, ..old(self)@ }),
            decreases self.particles@.len() - k,
        {
            let ghost before = self@;
            if self.particles[k].should_be_removed() {
                self.particles.remove(k);
                proof {
                    assert(self@.particles =~= before.particles.remove(k as int));
                    assert(self@ == (LevelView { particles: self@.particles, ..before }));
                    lemma_filter_ignores_removed(before.particles, keep, k as int);
                    assert forall|j: int| 0 <= j < self@.particles.len() implies (
                    #[trigger] self@.particles[j]).wf() by {
                        if j < k {
                            assert(before.particles[j].wf());
                        } else {
                            assert(before.particles[j + 1].wf());
                        }
                    }
                    assert forall|j: int| 0 <= j < k implies stays(
                        #[trigger] self@.particles[j],
                    ) by {
                        assert(stays(before.particles[j]));
                    }
                }
            } else {
                k += 1;
            }
        }
        proof {
            lemma_filter_keeps_all(self@.particles, keep);
        }
    }

    /// Advances the level by one tick: the monsters, then the particles.
    /// `rolls` is the pool of random words of this tick; with
    /// `rolls_needed` words or more no word is used twice.
    pub fn update(&mut self, blutti: &mut Blutti, rolls: &Vec<u32>)
        requires
            old(self).wf(),
            old(blutti).wf(),
            rolls@.len() > 0,
        ensures
            (final(self)@, final(blutti)@) == old(self)@.update(old(blutti)@, rolls@),
            final(self).wf(),
            final(blutti).wf(),
    {
        self.update_monsters(blutti);
        self.spawn(rolls);
        self.update_particles(blutti.position, rolls);
        self.cull();
    }
}

/// The level that is loaded when level `level` is asked for and there are
/// `count` levels: past the last level the game starts over.
pub open spec fn spec_number_to_load(level: LevelNumber, count: LevelNumber) -> LevelNumber {
    if level >= count {
        START_LEVEL
    } else {
        level
    }
}

impl Level {
    /// The number of the level to load when `level` is asked for and there
    /// are `count` levels.
    pub fn number_to_load(level: LevelNumber, count: LevelNumber) -> (r: LevelNumber)
        ensures
            r == spec_number_to_load(level, count),
    {
        if level >= count {
            START_LEVEL
        } else {
            level
        }
    }

    /// Goes on with the level `loaded`, which has the number `level`. After
    /// a level that was won the player keeps its points and lives and the
    /// game runs; else there is a new player, the monsters are put in
    /// place and the title shows.
    pub fn restart(state: &mut State, loaded: Level, level: LevelNumber, won: bool) -> (r:
        LevelNumber)
        requires
            loaded.wf(),
        ensures
            r == level,
            final(state).wf(),
            final(state).out == old(state).out,
            final(state).buttons == old(state).buttons,
            won ==> final(state).level@ == loaded@ && final(state).game_state == GameState::Playing
                && final(state).blutti@ == (BluttiView {
                position: loaded.start_position,
                start_position: loaded.start_position,
                points: old(state).blutti.points,
                lives: old(state).blutti.lives,
                current_level: level,
                ..BluttiView::fresh()
            }),
            !won ==> final(state).level@ == loaded@.reset() && final(state).game_state
                == GameState::Title && final(state).blutti@ == Blutti::with_start_position_spec(
                loaded.start_position,
            ),
    {
        state.level = loaded;
        if won {
            state.blutti = state.blutti.at_new_level(state.level.start_position, level);
            state.game_state = GameState::Playing;
        } else {
            state.blutti = Blutti::with_start_position(state.level.start_position);
            state.level.reset();
            state.game_state = GameState::Title;
        }
        level
    }
}

/// Whether every tile names a sprite of the collider table or is empty.
fn tiles_fit(tiles: &Vec<Sprite>) -> (r: bool)
    ensures
        r <==> forall|i: int| 0 <= i < tiles@.len() ==> 0 <= #[trigger] tiles@[i] <= COLLIDER_COUNT,
{
    let mut i: usize = 0;
    while i < tiles.len()
        invariant
            i <= tiles@.len(),
            forall|j: int| 0 <= j < i ==> 0 <= #[trigger] tiles@[j] <= COLLIDER_COUNT,
        decreases tiles@.len() - i,
    {
        if tiles[i] < 0 || tiles[i] > COLLIDER_COUNT {
            return false;
        }
        i += 1;
    }
    true
}

/// Whether a point lies within the coordinate limit.
fn in_bounds(point: Point) -> (r: bool)
    ensures
        r == point.in_bounds(),
{
    -COORD_LIMIT <= point.x && point.x <= COORD_LIMIT && -COORD_LIMIT <= point.y && point.y
        <= COORD_LIMIT
}

/// Whether every particle of the list is well-formed.
fn particles_fit(particles: &Vec<Particle>) -> (r: bool)
    ensures
        r <==> forall|i: int|
            0 <= i < particles@.len() ==> (#[trigger] particle_views(particles@)[i]).wf(),
{
    let mut i: usize = 0;
    while i < particles.len()
        invariant
            i <= particles@.len(),
            forall|j: int| 0 <= j < i ==> (#[trigger] particle_views(particles@)[j]).wf(),
        decreases particles@.len() - i,
    {
        if !particles[i].animation.is_wf() {
            assert(!particle_views(particles@)[i as int].wf());
            return false;
        }
        i += 1;
    }
    true
}

/// Whether every monster of the list is well-formed.
fn monsters_fit(monsters: &Vec<Monster>) -> (r: bool)
    ensures
        r <==> forall|i: int|
            0 <= i < monsters@.len() ==> (#[trigger] monster_views(monsters@)[i]).wf(),
{
    let mut i: usize = 0;
    while i < monsters.len()
        invariant
            i <= monsters@.len(),
            forall|j: int| 0 <= j < i ==> (#[trigger] monster_views(monsters@)[j]).wf(),
        decreases monsters@.len() - i,
    {
        let m = &monsters[i];
        let fit = in_bounds(m.position) && 1 <= m.width && m.width <= COORD_LIMIT && 1 <= m.height
            && m.height <= COORD_LIMIT && m.animation.is_wf() && m.reverse_animation.is_wf();
        if !fit {
            assert(!monster_views(monsters@)[i as int].wf());
            return false;
        }
        i += 1;
    }
    true
}

} // verus!
