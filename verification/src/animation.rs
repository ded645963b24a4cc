//! Sprite animations that advance once per tick.
use vstd::prelude::*;
use vstd::arithmetic::div_mod::lemma_fundamental_div_mod;
use crate::drawing::Sprite;

verus! {

/// The index of a frame of an animation.
pub type Frame = i32;

/// A sequence of sprites shown one after the other, each for
/// `time_per_frame + 1` ticks. A looping animation starts over after its
/// last frame; a one-shot animation is `finished` from then on and shows
/// its first frame.
#[derive(Debug)]
pub struct Animation {
    pub sprites: Vec<Sprite>,
    pub current_frame: Frame,
    pub time_per_frame: i32,
    pub frame_timer: i32,
    pub looping: bool,
    pub finished: bool,
}

/// The mathematical value of an [`Animation`].
pub struct AnimationView {
    pub sprites: Seq<Sprite>,
    pub current_frame: Frame,
    pub time_per_frame: i32,
    pub frame_timer: i32,
    pub looping: bool,
    pub finished: bool,
}

impl AnimationView {
    /// The animation has a frame, shows one of its frames, and its timer has
    /// not run past the time of a frame.
    pub open spec fn wf(self) -> bool {
        &&& 0 < self.sprites.len() <= i32::MAX
        &&& 0 <= self.current_frame < self.sprites.len()
        &&& self.time_per_frame < i32::MAX
        &&& 0 <= self.frame_timer
        &&& self.frame_timer == 0 || self.frame_timer <= self.time_per_frame
    }

    /// An animation at the start of its first frame.
    pub open spec fn fresh(sprites: Seq<Sprite>, time_per_frame: i32, looping: bool) -> Self {
        AnimationView {
            sprites,
            current_frame: 0,
            time_per_frame,
            frame_timer: 0,
            looping,
            finished: false,
        }
    }

    /// The sprite of the frame that is shown.
    pub open spec fn current_sprite(self) -> Sprite {
        self.sprites[self.current_frame as int]
    }

    /// The animation at the start of the frame that follows. After the last
    /// frame comes the first, and a one-shot animation is finished.
    pub open spec fn next_frame(self) -> Self {
        if self.current_frame + 1 >= self.sprites.len() {
            AnimationView {
                frame_timer: 0,
                current_frame: 0,
                finished: self.finished || !self.looping,
                ..self
            }
        } else {
            AnimationView {
                frame_timer: 0,
                current_frame: (self.current_frame + 1) as i32,
                ..self
            }
        }
    }

    /// The animation one tick later.
    pub open spec fn update(self) -> Self {
        if self.frame_timer + 1 > self.time_per_frame {
            self.next_frame()
        } else {
            AnimationView { frame_timer: (self.frame_timer + 1) as i32, ..self }
        }
    }

    /// The animation `ticks` ticks later.
    pub open spec fn after(self, ticks: nat) -> Self
        decreases ticks,
    {
        if ticks == 0 {
            self
        } else {
            self.after((ticks - 1) as nat).update()
        }
    }

    /// The animation back at the start of its first frame, not finished.
    pub open spec fn reset(self) -> Self {
        AnimationView { frame_timer: 0, current_frame: 0, finished: false, ..self }
    }
}

impl View for Animation {
    type V = AnimationView;

    open spec fn view(&self) -> AnimationView {
        AnimationView {
            sprites: self.sprites@,
            current_frame: self.current_frame,
            time_per_frame: self.time_per_frame,
            frame_timer: self.frame_timer,
            looping: self.looping,
            finished: self.finished,
        }
    }
}

/// The sprites of the player standing and looking left.
pub open spec fn idle_left_sprites() -> Seq<Sprite> {
    seq![116i32, 117i32]
}

/// The sprites of the player standing and looking right.
pub open spec fn idle_right_sprites() -> Seq<Sprite> {
    seq![118i32, 119i32]
}

/// The sprites of the player running left.
pub open spec fn running_left_sprites() -> Seq<Sprite> {
    seq![112i32, 113i32]
}

/// The sprites of the player running right.
pub open spec fn running_right_sprites() -> Seq<Sprite> {
    seq![114i32, 115i32]
}

/// The sprites of the player on a ladder, looking left.
pub open spec fn climb_left_sprites() -> Seq<Sprite> {
    seq![122i32, 123i32]
}

/// The sprites of the player on a ladder, looking right.
pub open spec fn climb_right_sprites() -> Seq<Sprite> {
    seq![120i32, 121i32]
}

/// The sprites of the dying player.
pub open spec fn death_sprites() -> Seq<Sprite> {
    seq![124i32, 125i32, 126i32, 127i32]
}

/// The sprites of the player leaving through an exit on the left.
pub open spec fn exit_left_sprites() -> Seq<Sprite> {
    seq![108i32, 109i32, 110i32, 111i32]
}

/// The sprites of the player leaving through an exit on the right.
pub open spec fn exit_right_sprites() -> Seq<Sprite> {
    seq![92i32, 93i32, 94i32, 95i32]
}

/// Ticks for which a looping animation of the player holds a frame, less one.
pub const LOOP_FRAME_TIME: i32 = 10;

/// Ticks for which a one-shot animation holds a frame, less one.
pub const ONCE_FRAME_TIME: i32 = 5;

impl Animation {
    /// See [`AnimationView::wf`].
    pub open spec fn wf(&self) -> bool {
        self@.wf()
    }

    /// Whether the animation is well-formed.
    pub fn is_wf(&self) -> (r: bool)
        ensures
            r == self.wf(),
    {
        0 < self.sprites.len() && self.sprites.len() <= 0x7fff_ffff && 0 <= self.current_frame && (
        self.current_frame as usize) < self.sprites.len() && self.time_per_frame < i32::MAX && 0
            <= self.frame_timer && (self.frame_timer == 0 || self.frame_timer
            <= self.time_per_frame)
    }

    /// An animation at the start of its first frame. It needs at least one
    /// sprite.
    pub fn new(sprites: Vec<Sprite>, time_per_frame: i32, looping: bool) -> (r: Self)
        requires
            0 < sprites@.len() <= i32::MAX,
            time_per_frame < i32::MAX,
        ensures
            r@ == AnimationView::fresh(sprites@, time_per_frame, looping),
            r.wf(),
    {
        Self { sprites, current_frame: 0, time_per_frame, frame_timer: 0, looping, finished: false }
    }

    /// The player standing and looking left.
    pub fn animation_idle_left() -> (r: Animation)
        ensures
            r@ == AnimationView::fresh(idle_left_sprites(), LOOP_FRAME_TIME, true),
            r.wf(),
    {
        Animation::looping(vec![116, 117], LOOP_FRAME_TIME)
    }

    /// The player standing and looking right.
    pub fn animation_idle_right() -> (r: Animation)
        ensures
            r@ == AnimationView::fresh(idle_right_sprites(), LOOP_FRAME_TIME, true),
            r.wf(),
    {
        Animation::looping(vec![118, 119], LOOP_FRAME_TIME)
    }

    /// The player running left.
    pub fn animation_running_left() -> (r: Animation)
        ensures
            r@ == AnimationView::fresh(running_left_sprites(), LOOP_FRAME_TIME, true),
            r.wf(),
    {
        Animation::looping(vec![112, 113], LOOP_FRAME_TIME)
    }

    /// The player running right.
    pub fn animation_running_right() -> (r: Animation)
        ensures
            r@ == AnimationView::fresh(running_right_sprites(), LOOP_FRAME_TIME, true),
            r.wf(),
    {
        Animation::looping(vec![114, 115], LOOP_FRAME_TIME)
    }

    /// The player on a ladder, looking left.
    pub fn animation_climb_left() -> (r: Animation)
        ensures
            r@ == AnimationView::fresh(climb_left_sprites(), LOOP_FRAME_TIME, true),
            r.wf(),
    {
        Animation::looping(vec![122, 123], LOOP_FRAME_TIME)
    }

    /// The player on a ladder, looking right.
    pub fn animation_climb_right() -> (r: Animation)
        ensures
            r@ == AnimationView::fresh(climb_right_sprites(), LOOP_FRAME_TIME, true),
            r.wf(),
    {
        Animation::looping(vec![120, 121], LOOP_FRAME_TIME)
    }

    /// The dying player; plays once.
    pub fn animation_death() -> (r: Animation)
        ensures
            r@ == AnimationView::fresh(death_sprites(), ONCE_FRAME_TIME, false),
            r.wf(),
    {
        Animation::once(vec![124, 125, 126, 127], ONCE_FRAME_TIME)
    }

    /// The player leaving through an exit on the left; plays once.
    pub fn animation_exit_left() -> (r: Animation)
        ensures
            r@ == AnimationView::fresh(exit_left_sprites(), ONCE_FRAME_TIME, false),
            r.wf(),
    {
        Animation::once(vec![108, 109, 110, 111], ONCE_FRAME_TIME)
    }

    /// The player leaving through an exit on the right; plays once.
    pub fn animation_exit_right() -> (r: Animation)
        ensures
            r@ == AnimationView::fresh(exit_right_sprites(), ONCE_FRAME_TIME, false),
            r.wf(),
    {
        Animation::once(vec![92, 93, 94, 95], ONCE_FRAME_TIME)
    }

    /// An animation that plays once and is then finished.
    pub fn once(sprites: Vec<Sprite>, time_per_frame: i32) -> (r: Self)
        requires
            0 < sprites@.len() <= i32::MAX,
            time_per_frame < i32::MAX,
        ensures
            r@ == AnimationView::fresh(sprites@, time_per_frame, false),
            r.wf(),
    {
        Self::new(sprites, time_per_frame, false)
    }

    /// An animation that starts over after its last frame.
    pub fn looping(sprites: Vec<Sprite>, time_per_frame: i32) -> (r: Self)
        requires
            0 < sprites@.len() <= i32::MAX,
            time_per_frame < i32::MAX,
        ensures
            r@ == AnimationView::fresh(sprites@, time_per_frame, true),
            r.wf(),
    {
        Self::new(sprites, time_per_frame, true)
    }

    /// The sprite of the frame that is shown.
    pub fn current_sprite(&self) -> (r: Sprite)
        requires
            self.wf(),
        ensures
            r == self@.current_sprite(),
    {
        self.sprites[self.current_frame as usize]
    }

    /// Advances the animation by one tick.
    pub fn update(&mut self)
        requires
            old(self).wf(),
        ensures
            final(self)@ == old(self)@.update(),
            final(self).wf(),
    {
        self.frame_timer += 1;
        if self.frame_timer > self.time_per_frame {
            self.next_frame();
        }
    }

    /// Puts the animation back to the start of its first frame.
    pub fn reset(&mut self)
        ensures
            final(self)@ == old(self)@.reset(),
            old(self).wf() ==> final(self).wf(),
    {
        self.frame_timer = 0;
        self.current_frame = 0;
        self.finished = false;
    }

    fn next_frame(&mut self)
        requires
            0 < old(self).sprites@.len() <= i32::MAX,
            0 <= old(self).current_frame < old(self).sprites@.len(),
        ensures
            final(self)@ == old(self)@.next_frame(),
    {
        self.frame_timer = 0;
        self.current_frame += 1;
        if self.current_frame as usize >= self.sprites.len() {
            self.current_frame = 0;
            if !self.looping {
                self.finished = true;
            }
        }
    }
}

impl Default for Animation {
    /// An animation without a frame. It is not well-formed and cannot be
    /// shown.
    fn default() -> (r: Animation)
        ensures
            r@ == AnimationView::fresh(Seq::empty(), 0, false),
    {
        Animation {
            sprites: Vec::new(),
            current_frame: 0,
            time_per_frame: 0,
            frame_timer: 0,
            looping: false,
            finished: false,
        }
    }
}

impl Clone for Animation {
    fn clone(&self) -> (r: Self)
        ensures
            r@ == self@,
    {
        let sprites = self.sprites.clone();
        assert(sprites@ =~= self.sprites@);
        Animation {
            sprites,
            current_frame: self.current_frame,
            time_per_frame: self.time_per_frame,
            frame_timer: self.frame_timer,
            looping: self.looping,
            finished: self.finished,
        }
    }
}

/// Several animations that run side by side.
#[derive(Debug)]
pub struct Animations {
    pub animations: Vec<Animation>,
}

impl Default for Animations {
    /// The empty set.
    fn default() -> (r: Animations)
        ensures
            r.animations@.len() == 0,
    {
        Animations { animations: Vec::new() }
    }
}

impl Clone for Animations {
    fn clone(&self) -> (r: Self)
        ensures
            r.animations@.len() == self.animations@.len(),
            forall|i: int|
                0 <= i < self.animations@.len() ==> (#[trigger] r.animations@[i])@
                    == self.animations@[i]@,
    {
        let mut animations: Vec<Animation> = Vec::new();
        let mut i: usize = 0;
        while i < self.animations.len()
            invariant
                i <= self.animations@.len(),
                animations@.len() == i,
                forall|j: int| 0 <= j < i ==> (#[trigger] animations@[j])@ == self.animations@[j]@,
            decreases self.animations@.len() - i,
        {
            animations.push(self.animations[i].clone());
            i += 1;
        }
        Animations { animations }
    }
}

impl Animations {
    /// Every animation of the set is well-formed.
    pub open spec fn wf(&self) -> bool {
        forall|i: int| 0 <= i < self.animations@.len() ==> (#[trigger] self.animations@[i]).wf()
    }

    /// A set of the given animations.
    pub fn new(animations: Vec<Animation>) -> (r: Self)
        ensures
            r.animations == animations,
    {
        Animations { animations }
    }

    /// Advances every animation by one tick.
    pub fn update(&mut self)
        requires
            old(self).wf(),
        ensures
            final(self).wf(),
            final(self).animations@.len() == old(self).animations@.len(),
            forall|i: int|
                0 <= i < old(self).animations@.len() ==> (#[trigger] final(self).animations@[i])@
                    == old(self).animations@[i]@.update(),
    {
        let n = self.animations.len();
        let mut i: usize = 0;
        while i < n
            invariant
                i <= n,
                n == self.animations@.len(),
                n == old(self).animations@.len(),
                old(self).wf(),
                forall|j: int|
                    0 <= j < i ==> (#[trigger] self.animations@[j])@ == old(
                        self,
                    ).animations@[j]@.update() && self.animations@[j].wf(),
                forall|j: int|
                    i <= j < n ==> (#[trigger] self.animations@[j]) == old(self).animations@[j],
            decreases n - i,
        {
            self.animations[i].update();
            i += 1;
        }
    }

    /// Puts every animation back to its start.
    pub fn reset(&mut self)
        ensures
            final(self).animations@.len() == old(self).animations@.len(),
            forall|i: int|
                0 <= i < old(self).animations@.len() ==> (#[trigger] final(self).animations@[i])@
                    == old(self).animations@[i]@.reset(),
            old(self).wf() ==> final(self).wf(),
    {
        let n = self.animations.len();
        let mut i: usize = 0;
        while i < n
            invariant
                i <= n,
                n == self.animations@.len(),
                n == old(self).animations@.len(),
                forall|j: int|
                    0 <= j < i ==> (#[trigger] self.animations@[j])@ == old(
                        self,
                    ).animations@[j]@.reset(),
                forall|j: int|
                    i <= j < n ==> (#[trigger] self.animations@[j]) == old(self).animations@[j],
            decreases n - i,
        {
            self.animations[i].reset();
            i += 1;
        }
        proof {
            if old(self).wf() {
                assert forall|j: int| 0 <= j < n implies (#[trigger] self.animations@[j]).wf() by {
                    assert(old(self).animations@[j].wf());
                }
            }
        }
    }

    /// The sprite that each animation shows, in order.
    pub fn current_sprites(&self) -> (r: Vec<Sprite>)
        requires
            self.wf(),
        ensures
            r@.len() == self.animations@.len(),
            forall|i: int|
                0 <= i < r@.len() ==> #[trigger] r@[i] == self.animations@[i]@.current_sprite(),
    {
        let mut sprites: Vec<Sprite> = Vec::new();
        let mut i: usize = 0;
        while i < self.animations.len()
            invariant
                i <= self.animations@.len(),
                self.wf(),
                sprites@.len() == i,
                forall|j: int|
                    0 <= j < i ==> #[trigger] sprites@[j] == self.animations@[j]@.current_sprite(),
            decreases self.animations@.len() - i,
        {
            sprites.push(self.animations[i].current_sprite());
            i += 1;
        }
        sprites
    }
}

/// Once an animation is finished it stays finished, and a well-formed
/// animation stays well-formed.
pub proof fn lemma_update_keeps_finished(a: AnimationView, ticks: nat)
    requires
        a.wf(),
    ensures
        a.after(ticks).wf(),
        a.after(ticks).sprites == a.sprites,
        a.after(ticks).time_per_frame == a.time_per_frame,
        a.after(ticks).looping == a.looping,
        a.finished ==> a.after(ticks).finished,
        a.looping && !a.finished ==> !a.after(ticks).finished,
    decreases ticks,
{
    if ticks > 0 {
        lemma_update_keeps_finished(a, (ticks - 1) as nat);
    }
}

/// Running an animation for `m + n` ticks is running it for `m` ticks and
/// then for `n` more.
pub proof fn lemma_after_adds(a: AnimationView, m: nat, n: nat)
    ensures
        a.after(m + n) == a.after(m).after(n),
    decreases n,
{
    if n > 0 {
        lemma_after_adds(a, m, (n - 1) as nat);
        assert((m + n - 1) as nat == m + (n - 1) as nat);
    }
}

/// While a fresh one-shot animation plays, `frame * (time + 1) + timer`
/// ticks after its start it shows frame `frame` with its timer at `timer`.
proof fn lemma_one_shot_progress(sprites: Seq<Sprite>, time: i32, frame: nat, timer: nat)
    requires
        0 < sprites.len() <= i32::MAX,
        0 <= time < i32::MAX,
        frame < sprites.len(),
        timer <= time,
    ensures
        AnimationView::fresh(sprites, time, false).after(frame * ((time + 1) as nat) + timer)
            == (AnimationView {
            current_frame: frame as i32,
            frame_timer: timer as i32,
            ..AnimationView::fresh(sprites, time, false)
        }),
    decreases frame, timer,
{
    let start = AnimationView::fresh(sprites, time, false);
    let period = (time + 1) as nat;
    if timer > 0 {
        lemma_one_shot_progress(sprites, time, frame, (timer - 1) as nat);
        assert((frame * period + timer - 1) as nat == frame * period + (timer - 1) as nat);
    } else if frame > 0 {
        lemma_one_shot_progress(sprites, time, (frame - 1) as nat, time as nat);
        let f = frame as int;
        let p = period as int;
        assert(f * p == (f - 1) * p + p) by (nonlinear_arith);
        assert((f - 1) * p >= 0) by (nonlinear_arith)
            requires
                f >= 1,
                p >= 0,
        ;
        assert((frame * period - 1) as nat == (frame - 1) as nat * period + time as nat);
    } else {
        assert(frame * period + timer == 0) by (nonlinear_arith)
            requires
                frame == 0,
                timer == 0,
        ;
    }
}

/// A one-shot animation of `k` frames that holds each frame for `t + 1`
/// ticks is finished after exactly `k * (t + 1)` updates: not after fewer,
/// and after every larger number.
pub proof fn lemma_one_shot_completion(sprites: Seq<Sprite>, time: i32, ticks: nat)
    requires
        0 < sprites.len() <= i32::MAX,
        0 <= time < i32::MAX,
    ensures
        AnimationView::fresh(sprites, time, false).after(ticks).finished <==> ticks
            >= sprites.len() * (time + 1),
{
    let start = AnimationView::fresh(sprites, time, false);
    let k = sprites.len();
    let period = (time + 1) as nat;
    let end = k * period;
    if ticks < end {
        let frame = (ticks as int / period as int) as nat;
        let timer = (ticks as int % period as int) as nat;
        lemma_fundamental_div_mod(ticks as int, period as int);
        assert(frame < k) by (nonlinear_arith)
            requires
                ticks < k * period,
                ticks == period * frame + timer,
                period > 0,
        ;
        assert(frame * period + timer == ticks) by (nonlinear_arith)
            requires
                ticks == period * frame + timer,
        ;
        lemma_one_shot_progress(sprites, time, frame, timer);
    } else {
        lemma_one_shot_progress(sprites, time, (k - 1) as nat, time as nat);
        let f = k as int;
        let p = period as int;
        assert(f * p == (f - 1) * p + p) by (nonlinear_arith);
        assert((f - 1) * p >= 0) by (nonlinear_arith)
            requires
                f >= 1,
                p >= 0,
        ;
        let last = ((k - 1) as nat * period + time as nat) as nat;
        assert(start.after(end) == start.after(last).update());
        assert(start.after(end).finished);
        lemma_update_keeps_finished(start, end);
        lemma_after_adds(start, end, (ticks - end) as nat);
        assert(end + (ticks - end) as nat == ticks);
        lemma_update_keeps_finished(start.after(end), (ticks - end) as nat);
    }
}

} // verus!
