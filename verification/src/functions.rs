//! Input scaling, random values and the side effects that the core asks for.
use vstd::prelude::*;
use crate::fixed::{clip, clip64, floor_div, HALF, ONE};

verus! {

/// A named sound cue.
#[derive(Clone, Copy, PartialEq, Eq, Structural, Debug)]
pub enum Sound {
    Jump,
    Dash,
    Coin,
    Powerup,
    Wrong,
    Exit,
    Death,
    Theme,
}

/// A named progress counter.
#[derive(Clone, Copy, PartialEq, Eq, Structural, Debug)]
pub enum Badge {
    Stars,
    Levels,
    Deaths,
}

/// A request to add `amount` to a progress counter.
#[derive(Clone, Copy, PartialEq, Eq, Structural, Debug)]
pub struct Progress {
    pub badge: Badge,
    pub amount: i32,
}

/// What the core asks its host to do. `fx` and `theme` each hold the cue
/// that the channel is to play next, in place of whatever it played;
/// `progress` holds the counters to raise, oldest first. The host empties
/// the outbox when it has served it.
#[derive(Debug)]
pub struct Outbox {
    pub fx: Option<Sound>,
    pub theme: Option<Sound>,
    pub progress: Vec<Progress>,
}

/// The mathematical value of an [`Outbox`].
pub struct OutboxView {
    pub fx: Option<Sound>,
    pub theme: Option<Sound>,
    pub progress: Seq<Progress>,
}

impl OutboxView {
    /// The outbox with `sound` as the next effect.
    pub open spec fn play_sound(self, sound: Sound) -> Self {
        OutboxView { fx: Some(sound), ..self }
    }

    /// The outbox with `sound` as the next music.
    pub open spec fn play_music(self, sound: Sound) -> Self {
        OutboxView { theme: Some(sound), ..self }
    }

    /// The outbox with one more request for a counter.
    pub open spec fn add_progress(self, badge: Badge, amount: i32) -> Self {
        OutboxView { progress: self.progress.push(Progress { badge, amount }), ..self }
    }

    /// The outbox with nothing in it.
    pub open spec fn empty() -> Self {
        OutboxView { fx: None, theme: None, progress: Seq::empty() }
    }
}

impl View for Outbox {
    type V = OutboxView;

    open spec fn view(&self) -> OutboxView {
        OutboxView { fx: self.fx, theme: self.theme, progress: self.progress@ }
    }
}

impl Outbox {
    /// An outbox with nothing in it.
    pub fn new() -> (r: Outbox)
        ensures
            r@ == OutboxView::empty(),
    {
        Outbox { fx: None, theme: None, progress: Vec::new() }
    }

    /// Asks the host to add `amount` to the counter `badge`.
    pub fn add_progress(&mut self, badge: Badge, amount: i32)
        ensures
            final(self)@ == old(self)@.add_progress(badge, amount),
    {
        self.progress.push(Progress { badge, amount });
    }

    /// Forgets everything that was asked for.
    pub fn clear(&mut self)
        ensures
            final(self)@ == OutboxView::empty(),
    {
        self.fx = None;
        self.theme = None;
        self.progress = Vec::new();
    }
}

impl Badge {
    /// The number under which the host knows the counter.
    pub fn id(&self) -> (r: u8)
        ensures
            r == match *self {
                Badge::Stars => 1u8,
                Badge::Levels => 2u8,
                Badge::Deaths => 3u8,
            },
    {
        match self {
            Badge::Stars => 1,
            Badge::Levels => 2,
            Badge::Deaths => 3,
        }
    }
}

/// The speed factor for a reading of an analogue axis: full speed beyond
/// 400 in either direction, half speed otherwise.
pub open spec fn spec_axis_to_speed(x: int) -> i32 {
    if x > 400 || x < -400 {
        ONE
    } else {
        HALF
    }
}

/// The speed factor for a reading of an analogue axis.
pub fn axis_to_speed(x: i32) -> (r: i32)
    ensures
        r == spec_axis_to_speed(x as int),
{
    if x > 400 || x < -400 {
        ONE
    } else {
        HALF
    }
}

/// Makes `sound` the next effect, in place of whatever the channel played.
pub fn play_sound(out: &mut Outbox, sound: Sound)
    ensures
        final(out)@ == old(out)@.play_sound(sound),
{
    out.fx = Some(sound);
}

/// Makes `sound` the next music, in place of whatever the channel played.
pub fn play_music(out: &mut Outbox, sound: Sound)
    ensures
        final(out)@ == old(out)@.play_music(sound),
{
    out.theme = Some(sound);
}

/// Where `value` lies between `min` and `max`, in thousandths, rounded
/// down: 0 at `min` and 1000 at `max`.
pub open spec fn spec_scale(min: int, max: int, value: int) -> int {
    if max > min {
        ((value - min) * ONE) / (max - min)
    } else {
        ((min - value) * ONE) / (min - max)
    }
}

/// Scales `value` between `min` and `max` into thousandths of the range.
pub fn scale(min: u32, max: u32, value: u32) -> (r: i32)
    requires
        min != max,
    ensures
        r == clip(spec_scale(min as int, max as int, value as int)),
{
    let low: i64 = min as i64;
    let high: i64 = max as i64;
    let v: i64 = value as i64;
    if high > low {
        clip64(floor_div((v - low) * 1000, high - low))
    } else {
        clip64(floor_div((low - v) * 1000, low - high))
    }
}

/// The random word `random` scaled into `0..=max`: the largest whole number
/// that is at most `random / u32::MAX * max`.
pub open spec fn spec_random_value(random: int, max: int) -> int {
    (random * max) / 0xffff_ffff
}

/// Scales a random word into the range from 0 to `max`.
pub fn random_value(random: u32, max: i32) -> (r: i32)
    ensures
        r == spec_random_value(random as int, max as int),
        max >= 0 ==> 0 <= r <= max,
        max <= 0 ==> max <= r <= 0,
{
    let word: i64 = random as i64;
    let limit: i64 = max as i64;
    proof {
        assert(-0x8000_0000 * 0xffff_ffff <= word * limit <= 0x7fff_ffff * 0xffff_ffff)
            by (nonlinear_arith)
            requires
                0 <= word <= 0xffff_ffff,
                -0x8000_0000 <= limit <= 0x7fff_ffff,
        ;
        lemma_random_value_range(random as int, max as int);
    }
    floor_div(word * limit, 0xffff_ffff) as i32
}

/// A scaled random word lies between 0 and `max`.
pub proof fn lemma_random_value_range(random: int, max: int)
    requires
        0 <= random <= 0xffff_ffff,
    ensures
        max >= 0 ==> 0 <= spec_random_value(random, max) <= max,
        max <= 0 ==> max <= spec_random_value(random, max) <= 0,
{
    let product = random * max;
    let q = product / 0xffff_ffff;
    vstd::arithmetic::div_mod::lemma_fundamental_div_mod(product, 0xffff_ffff);
    if max >= 0 {
        assert(0 <= product <= 0xffff_ffff * max) by (nonlinear_arith)
            requires
                product == random * max,
                0 <= random <= 0xffff_ffff,
                max >= 0,
        ;
    } else {
        assert(0xffff_ffff * max <= product <= 0) by (nonlinear_arith)
            requires
                product == random * max,
                0 <= random <= 0xffff_ffff,
                max <= 0,
        ;
    }
}

} // verus!
