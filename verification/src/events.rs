//! The window events the demo reacts to, and its reactions.
//!
//! The windowing layer hands the library one value of `WindowEvent` per event;
//! the library answers with the `Reaction` the render loop must take.

use vstd::prelude::*;

verus! {

/// The keys the demo distinguishes. Every other key is `Other`.
#[derive(Clone, Copy, Debug, PartialEq, Eq, Structural)]
pub enum Key {
    A,
    D,
    W,
    S,
    Escape,
    Other,
}

/// A window event, reduced to what the demo reads of it.
#[derive(Clone, Copy, Debug, PartialEq, Eq, Structural)]
pub enum WindowEvent {
    /// The user asked to close the window.
    CloseRequested,
    /// A key changed state. `pressed` is true on press, false on release.
    KeyInput { key: Key, pressed: bool },
    /// The window was resized to `width` by `height` pixels.
    Resized { width: u32, height: u32 },
    /// The scale factor changed; the window is now `width` by `height` pixels.
    ScaleFactorChanged { width: u32, height: u32 },
    /// Any event the demo ignores.
    Other,
}

/// What the render loop must do after a window event.
#[derive(Clone, Copy, Debug, PartialEq, Eq, Structural)]
pub enum Reaction {
    /// Nothing to do; keep running.
    Proceed,
    /// Leave the event loop.
    Exit,
    /// The drawable size changed: reconfigure the surface.
    Reconfigure,
}

/// A surface error reported when acquiring a frame, reduced to its kind.
#[derive(Clone, Copy, Debug, PartialEq, Eq, Structural)]
pub enum SurfaceError {
    /// The frame took too long to become available.
    Timeout,
    /// The surface no longer matches the window and must be reconfigured.
    Outdated,
    /// The surface was lost and must be recreated.
    Lost,
    /// There is no more memory to allocate a frame.
    OutOfMemory,
}

/// How the render loop answers a surface error.
#[derive(Clone, Copy, Debug, PartialEq, Eq, Structural)]
pub enum Recovery {
    /// Reconfigure the surface at the current size, then go on.
    Reconfigure,
    /// Leave the event loop.
    Exit,
    /// Skip this frame; the next one resolves the error.
    Skip,
}

/// The recovery the demo takes for each surface error: a lost surface is
/// reconfigured, memory exhaustion ends the program, and the rest resolve
/// themselves by the next frame.
pub open spec fn recovery_of(e: SurfaceError) -> Recovery {
    match e {
        SurfaceError::Lost => Recovery::Reconfigure,
        SurfaceError::OutOfMemory => Recovery::Exit,
        _ => Recovery::Skip,
    }
}

/// Decide how the render loop answers a surface error.
pub fn recover(e: &SurfaceError) -> (r: Recovery)
    ensures
        r == recovery_of(*e),
{
    match e {
        SurfaceError::Lost => Recovery::Reconfigure,
        SurfaceError::OutOfMemory => Recovery::Exit,
        SurfaceError::Timeout => Recovery::Skip,
        SurfaceError::Outdated => Recovery::Skip,
    }
}

/// Index of the surface format the demo renders to, among the formats the
/// surface supports: the first sRGB one, or the first of all if none is sRGB.
/// `srgb[i]` says whether the `i`-th supported format is sRGB.
pub fn choose_format(srgb: &Vec<bool>) -> (i: usize)
    requires
        srgb@.len() > 0,
    ensures
        i < srgb@.len(),
        srgb@[i as int] ==> (forall|j: int| 0 <= j < i ==> !srgb@[j]),
        !srgb@[i as int] ==> i == 0 && (forall|j: int| 0 <= j < srgb@.len() ==> !srgb@[j]),
{
    let mut k: usize = 0;
    while k < srgb.len()
        invariant
            k <= srgb@.len(),
            forall|j: int| 0 <= j < k ==> !srgb@[j],
        decreases srgb@.len() - k,
    {
        if srgb[k] {
            return k;
        }
        k = k + 1;
    }
    0
}

} // verus!
