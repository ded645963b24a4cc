//! The buttons and the touch pad, and what changed since the last tick.
use vstd::prelude::*;

verus! {

/// Which buttons are down.
#[derive(Clone, Copy, PartialEq, Eq, Structural, Debug)]
pub struct Buttons {
    /// South: jump.
    pub s: bool,
    /// East: confirm.
    pub e: bool,
    /// West: dash.
    pub w: bool,
    /// North: back, and the debug overlay.
    pub n: bool,
    /// The menu button.
    pub menu: bool,
}

/// Where the finger is on the touch pad. Both axes run from -1000 to 1000,
/// to the right and upwards.
#[derive(Clone, Copy, PartialEq, Eq, Structural, Debug)]
pub struct Pad {
    pub x: i32,
    pub y: i32,
}

/// What the player's hands did since the last tick.
#[derive(Clone, Copy, PartialEq, Eq, Structural, Debug)]
pub struct Input {
    pub axis_x: i32,
    pub axis_y: i32,
    pub jump_pressed: bool,
    pub jump_released: bool,
    pub dash_pressed: bool,
    pub debug_pressed: bool,
    pub confirm_pressed: bool,
    pub back_pressed: bool,
}

/// An axis counts as pushed when its reading is beyond this, either way.
pub const AXIS_THRESHOLD: i32 = 100;

impl Buttons {
    /// No button is down.
    pub open spec fn spec_released() -> Buttons {
        Buttons { s: false, e: false, w: false, n: false, menu: false }
    }

    /// The buttons that are down in `self` and are not in `old`.
    pub open spec fn went_down(self, old: Buttons) -> Buttons {
        Buttons {
            s: self.s && !old.s,
            e: self.e && !old.e,
            w: self.w && !old.w,
            n: self.n && !old.n,
            menu: self.menu && !old.menu,
        }
    }

    /// The buttons that are not down in `self` and are in `old`.
    pub open spec fn went_up(self, old: Buttons) -> Buttons {
        Buttons {
            s: !self.s && old.s,
            e: !self.e && old.e,
            w: !self.w && old.w,
            n: !self.n && old.n,
            menu: !self.menu && old.menu,
        }
    }

    /// No button is down.
    pub fn released() -> (r: Buttons)
        ensures
            r == Self::spec_released(),
    {
        Buttons { s: false, e: false, w: false, n: false, menu: false }
    }
}

impl Input {
    /// No axis is pushed.
    pub open spec fn is_centred(self) -> bool {
        -AXIS_THRESHOLD <= self.axis_x <= AXIS_THRESHOLD && -AXIS_THRESHOLD <= self.axis_y
            <= AXIS_THRESHOLD
    }

    /// What the hands did between the reading `old` and the reading
    /// `buttons`, with the finger at `pad` or off the pad.
    pub open spec fn spec_read(old: Buttons, buttons: Buttons, pad: Option<Pad>) -> Input {
        let down = buttons.went_down(old);
        let up = buttons.went_up(old);
        Input {
            axis_x: match pad {
                Some(p) => p.x,
                None => 0,
            },
            axis_y: match pad {
                Some(p) => p.y,
                None => 0,
            },
            jump_pressed: down.s,
            jump_released: up.s,
            dash_pressed: down.w,
            debug_pressed: down.n,
            confirm_pressed: down.e,
            back_pressed: down.n,
        }
    }

    /// What the hands did between two readings of the buttons.
    pub fn read(old: Buttons, buttons: Buttons, pad: Option<Pad>) -> (r: Input)
        ensures
            r == Self::spec_read(old, buttons, pad),
    {
        let down = just_pressed(buttons, old);
        let up = just_released(buttons, old);
        let (axis_x, axis_y) = match pad {
            Some(p) => (p.x, p.y),
            None => (0, 0),
        };
        Input {
            axis_x,
            axis_y,
            jump_pressed: down.s,
            jump_released: up.s,
            dash_pressed: down.w,
            debug_pressed: down.n,
            confirm_pressed: down.e,
            back_pressed: down.n,
        }
    }
}

/// `firefly_rust::Buttons::just_pressed`, called on the console's own button
/// type. Taken on trust: a button is in the result exactly if it is down in
/// `now` and is not in `old`.
#[verifier::external_body]
fn just_pressed(now: Buttons, old: Buttons) -> (r: Buttons)
    ensures
        r == now.went_down(old),
{
    let a = firefly_rust::Buttons { s: now.s, e: now.e, w: now.w, n: now.n, menu: now.menu };
    let b = firefly_rust::Buttons { s: old.s, e: old.e, w: old.w, n: old.n, menu: old.menu };
    let r = a.just_pressed(&b);
    Buttons { s: r.s, e: r.e, w: r.w, n: r.n, menu: r.menu }
}

/// `firefly_rust::Buttons::just_released`, called on the console's own
/// button type. Taken on trust: a button is in the result exactly if it is
/// not down in `now` and is in `old`.
#[verifier::external_body]
fn just_released(now: Buttons, old: Buttons) -> (r: Buttons)
    ensures
        r == now.went_up(old),
{
    let a = firefly_rust::Buttons { s: now.s, e: now.e, w: now.w, n: now.n, menu: now.menu };
    let b = firefly_rust::Buttons { s: old.s, e: old.e, w: old.w, n: old.n, menu: old.menu };
    let r = a.just_released(&b);
    Buttons { s: r.s, e: r.e, w: r.w, n: r.n, menu: r.menu }
}

} // verus!
