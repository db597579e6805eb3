//! An alternate, unwired variant of the demo's data: a camera with three axes
//! and a window-size uniform, and an input state with three more keys. The
//! render loop does not use it; it is kept as the demo's second variant.

use vstd::prelude::*;
use crate::vertex::VertexLayout;

verus! {

/// The uniform block of the alternate variant: a camera position (in steps
/// along each of three axes, as in the active variant) and the window size in
/// pixels, both read by the shaders as floats.
#[derive(Clone, Copy, Debug, PartialEq, Eq)]
pub struct Uniform {
    pub cam_pos: [i64; 3],
    pub win_size: [u32; 2],
}

/// One vertex of the alternate variant: the same position and color of unit
/// coordinates as the active one.
#[derive(Clone, Copy, Debug, PartialEq, Eq)]
pub struct Vertex {
    pub position: [i8; 3],
    pub color: [i8; 3],
}

impl Vertex {
    /// The alternate vertex lies in its buffer exactly as the active one
    /// does: 24 bytes per vertex, position at offset 0 feeding shader
    /// location 0, color right after it feeding shader location 1.
    pub fn desc() -> (r: VertexLayout)
        ensures
            r.array_stride == 24,
            r.position_offset == 0,
            r.position_location == 0,
            r.color_offset == 12,
            r.color_location == 1,
    {
        VertexLayout {
            array_stride: 24,
            position_offset: 0,
            position_location: 0,
            color_offset: 12,
            color_location: 1,
        }
    }
}

/// The keys the alternate variant tracks: the four directional keys and
/// space, shift and c.
#[derive(Clone, Copy, Debug, PartialEq, Eq, Structural)]
pub struct Input {
    pub a: bool,
    pub d: bool,
    pub w: bool,
    pub s: bool,
    pub space: bool,
    pub shift: bool,
    pub c: bool,
}

impl Input {
    /// No key is held at the start.
    pub fn new() -> (r: Input)
        ensures
            !r.a && !r.d && !r.w && !r.s,
            !r.space && !r.shift && !r.c,
    {
        Input {
            a: false,
            d: false,
            w: false,
            s: false,
            space: false,
            shift: false,
            c: false,
        }
    }
}

/// The six quad vertices of the alternate variant: the same two triangles,
/// with the same colors at the corners, as the active one.
pub fn vertices() -> (v: Vec<Vertex>)
    ensures
        v@.len() == 6,
        v@[0] == (Vertex { position: [-1i8, 1i8, 0i8], color: [1i8, 0i8, 0i8] }),
        v@[1] == (Vertex { position: [-1i8, -1i8, 0i8], color: [0i8, 1i8, 0i8] }),
        v@[2] == (Vertex { position: [1i8, -1i8, 0i8], color: [0i8, 0i8, 1i8] }),
        v@[3] == (Vertex { position: [1i8, -1i8, 0i8], color: [0i8, 0i8, 1i8] }),
        v@[4] == (Vertex { position: [1i8, 1i8, 0i8], color: [0i8, 1i8, 0i8] }),
        v@[5] == (Vertex { position: [-1i8, 1i8, 0i8], color: [1i8, 0i8, 0i8] }),
{
    let mut v: Vec<Vertex> = Vec::new();
    v.push(Vertex { position: [-1, 1, 0], color: [1, 0, 0] });
    v.push(Vertex { position: [-1, -1, 0], color: [0, 1, 0] });
    v.push(Vertex { position: [1, -1, 0], color: [0, 0, 1] });
    v.push(Vertex { position: [1, -1, 0], color: [0, 0, 1] });
    v.push(Vertex { position: [1, 1, 0], color: [0, 1, 0] });
    v.push(Vertex { position: [-1, 1, 0], color: [1, 0, 0] });
    v
}

} // verus!
