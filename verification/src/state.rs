//! The state the render loop carries from frame to frame, and every decision
//! it takes: how a window event changes the state, when the loop exits, when
//! the surface is reconfigured, and how the held keys move the camera offset.

use vstd::prelude::*;
use crate::events::{Key, Reaction, WindowEvent};
use crate::input::{apply_key, Input};

verus! {

/// The offset uniform the vertex shader reads, kept exactly: the offset is
/// always a whole number of steps along each axis, so `pos` counts steps.
/// The float the GPU sees is `pos[k]` times the step size.
#[derive(Clone, Copy, Debug, PartialEq, Eq)]
pub struct Uniform {
    pub pos: [i64; 2],
}

/// Everything the render loop remembers between events: the held keys, the
/// camera offset, the surface's configured size and the window's last size.
#[derive(Clone, Copy, Debug, PartialEq, Eq)]
pub struct State {
    pub input: Input,
    pub uniform: Uniform,
    pub config_width: u32,
    pub config_height: u32,
    pub size_width: u32,
    pub size_height: u32,
}

/// The step count `p` moved by one frame's worth of held keys: each held key
/// adds or subtracts one step on its axis, opposite keys cancelling.
pub open spec fn stepped(p: [i64; 2], i: Input) -> [i64; 2] {
    [
        (p[0] + (if i.a {
            1int
        } else {
            0int
        }) - (if i.d {
            1int
        } else {
            0int
        })) as i64,
        (p[1] + (if i.s {
            1int
        } else {
            0int
        }) - (if i.w {
            1int
        } else {
            0int
        })) as i64,
    ]
}

impl State {
    /// The state at startup, for a window of the given size: no key held, the
    /// camera at the origin, the surface configured at the window's size.
    pub fn new(width: u32, height: u32) -> (s: State)
        ensures
            !s.input.any_held(),
            s.uniform.pos[0] == 0 && s.uniform.pos[1] == 0,
            s.config_width == width && s.config_height == height,
            s.size_width == width && s.size_height == height,
    {
        State {
            input: Input::new(),
            uniform: Uniform { pos: [0, 0] },
            config_width: width,
            config_height: height,
            size_width: width,
            size_height: height,
        }
    }

    /// Adopt a new window size: a size with a zero side is ignored; otherwise
    /// the remembered size and the surface configuration follow it, and the
    /// caller must reconfigure the surface. Returns whether it must.
    pub fn resize(&mut self, width: u32, height: u32) -> (applied: bool)
        ensures
            applied == (width > 0 && height > 0),
            applied ==> *final(self) == (State {
                config_width: width,
                config_height: height,
                size_width: width,
                size_height: height,
                ..*old(self)
            }),
            !applied ==> *final(self) == *old(self),
    {
        if width > 0 && height > 0 {
            self.size_width = width;
            self.size_height = height;
            self.config_width = width;
            self.config_height = height;
            true
        } else {
            false
        }
    }

    /// Record what a keyboard event says of the four directional keys. The
    /// event is never consumed: the render loop still reads it afterwards.
    pub fn input(&mut self, event: &WindowEvent) -> (consumed: bool)
        ensures
            !consumed,
            *final(self) == (State {
                input: match *event {
                    WindowEvent::KeyInput { key, pressed } => apply_key(
                        old(self).input,
                        key,
                        pressed,
                    ),
                    _ => old(self).input,
                },
                ..*old(self)
            }),
    {
        match event {
            WindowEvent::KeyInput { key, pressed } => {
                self.input.set_key(*key, *pressed);
            }
            _ => (),
        }
        false
    }

    /// React to one window event, as the render loop does: directional keys
    /// update the input state; a close request or a pressed escape key exits;
    /// a new window size is adopted and, when valid, the surface reconfigured.
    pub fn handle_window_event(&mut self, event: &WindowEvent) -> (r: Reaction)
        ensures
            final(self).uniform == old(self).uniform,
            final(self).input == (match *event {
                WindowEvent::KeyInput { key, pressed } => apply_key(old(self).input, key, pressed),
                _ => old(self).input,
            }),
            match *event {
                WindowEvent::CloseRequested => r == Reaction::Exit,
                WindowEvent::KeyInput { key, pressed } => r == (if key == Key::Escape && pressed {
                    Reaction::Exit
                } else {
                    Reaction::Proceed
                }),
                WindowEvent::Resized { width, height } | WindowEvent::ScaleFactorChanged {
                    width,
                    height,
                } => {
                    &&& r == (if width > 0 && height > 0 {
                        Reaction::Reconfigure
                    } else {
                        Reaction::Proceed
                    })
                    &&& (width > 0 && height > 0) ==> final(self).config_width == width
                        && final(self).config_height == height && final(self).size_width == width
                        && final(self).size_height == height
                    &&& !(width > 0 && height > 0) ==> *final(self) == *old(self)
                },
                _ => r == Reaction::Proceed,
            },
            (match *event {
                WindowEvent::Resized { .. } | WindowEvent::ScaleFactorChanged { .. } => false,
                _ => true,
            }) ==> final(self).config_width == old(self).config_width && final(self).config_height
                == old(self).config_height && final(self).size_width == old(self).size_width
                && final(self).size_height == old(self).size_height,
    {
        let consumed = self.input(event);
        if !consumed {
            match event {
                WindowEvent::CloseRequested => Reaction::Exit,
                WindowEvent::KeyInput { key, pressed } => {
                    if *key == Key::Escape && *pressed {
                        Reaction::Exit
                    } else {
                        Reaction::Proceed
                    }
                }
                WindowEvent::Resized { width, height } => {
                    if self.resize(*width, *height) {
                        Reaction::Reconfigure
                    } else {
                        Reaction::Proceed
                    }
                }
                WindowEvent::ScaleFactorChanged { width, height } => {
                    if self.resize(*width, *height) {
                        Reaction::Reconfigure
                    } else {
                        Reaction::Proceed
                    }
                }
                WindowEvent::Other => Reaction::Proceed,
            }
        } else {
            Reaction::Proceed
        }
    }

    /// Advance the camera offset by one frame's worth of held keys, and say
    /// whether the uniform buffer on the GPU must be rewritten: it must
    /// exactly when some directional key is held.
    pub fn update(&mut self) -> (dirty: bool)
        requires
            i64::MIN < old(self).uniform.pos[0] < i64::MAX,
            i64::MIN < old(self).uniform.pos[1] < i64::MAX,
        ensures
            dirty == old(self).input.any_held(),
            *final(self) == (State {
                uniform: Uniform { pos: stepped(old(self).uniform.pos, old(self).input) },
                ..*old(self)
            }),
    {
        let mut dirty = false;
        if self.input.a {
            self.uniform.pos[0] = self.uniform.pos[0] + 1;
            dirty = true;
        }
        if self.input.d {
            self.uniform.pos[0] = self.uniform.pos[0] - 1;
            dirty = true;
        }
        if self.input.w {
            self.uniform.pos[1] = self.uniform.pos[1] - 1;
            dirty = true;
        }
        if self.input.s {
            self.uniform.pos[1] = self.uniform.pos[1] + 1;
            dirty = true;
        }
        assert(self.uniform.pos =~= stepped(old(self).uniform.pos, old(self).input));
        dirty
    }
}

} // verus!
