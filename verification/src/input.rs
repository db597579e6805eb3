//! The key-input state the render loop keeps between frames.

use vstd::prelude::*;
use crate::events::Key;

verus! {

/// Which of the four directional keys are held down right now.
#[derive(Clone, Copy, Debug, PartialEq, Eq, Structural)]
pub struct Input {
    pub a: bool,
    pub d: bool,
    pub w: bool,
    pub s: bool,
}

/// `i` after a key changed state: the field of a directional key follows the
/// key; any other key leaves the state alone.
pub open spec fn apply_key(i: Input, key: Key, pressed: bool) -> Input {
    match key {
        Key::A => Input { a: pressed, ..i },
        Key::D => Input { d: pressed, ..i },
        Key::W => Input { w: pressed, ..i },
        Key::S => Input { s: pressed, ..i },
        _ => i,
    }
}

impl Input {
    /// No key is held at the start.
    pub fn new() -> (r: Input)
        ensures
            !r.a && !r.d && !r.w && !r.s,
    {
        Input { a: false, d: false, w: false, s: false }
    }

    /// Record that `key` is now pressed or released.
    pub fn set_key(&mut self, key: Key, pressed: bool)
        ensures
            *final(self) == apply_key(*old(self), key, pressed),
    {
        match key {
            Key::A => {
                self.a = pressed;
            }
            Key::D => {
                self.d = pressed;
            }
            Key::W => {
                self.w = pressed;
            }
            Key::S => {
                self.s = pressed;
            }
            _ => (),
        }
    }

    /// True while any directional key is held.
    pub open spec fn any_held(self) -> bool {
        self.a || self.d || self.w || self.s
    }
}

} // verus!
