//! The fixed quad geometry and its layout in the vertex buffer.
//!
//! The demo draws one screen-filling quad as two triangles, six vertices in
//! all. Every coordinate of every vertex is -1, 0 or 1, so the buffer's byte
//! image is pinned down exactly from the unit bit patterns in `encode`.

use vstd::prelude::*;
use crate::encode::{le_bytes32, push_le32, unit_f32_bits, unit_to_bits};

verus! {

/// One vertex: a position and a color, each of three unit coordinates that
/// the GPU reads as single-precision floats.
#[derive(Clone, Copy, Debug, PartialEq, Eq)]
pub struct Vertex {
    pub position: [i8; 3],
    pub color: [i8; 3],
}

impl Vertex {
    /// Every coordinate is a unit coordinate: -1, 0 or 1.
    pub open spec fn wf(self) -> bool {
        &&& forall|k: int| 0 <= k < 3 ==> -1 <= #[trigger] self.position[k] <= 1
        &&& forall|k: int| 0 <= k < 3 ==> -1 <= #[trigger] self.color[k] <= 1
    }

    /// How a vertex lies in the vertex buffer: 24 bytes per vertex, the
    /// position's three floats at offset 0 feeding shader location 0, the
    /// color's three floats right after them feeding shader location 1.
    pub fn desc() -> (r: VertexLayout)
        ensures
            r.array_stride == 24,
            r.position_offset == 0,
            r.position_location == 0,
            r.color_offset == 12,
            r.color_location == 1,
    {
        VertexLayout {
            array_stride: 24,
            position_offset: 0,
            position_location: 0,
            color_offset: 12,
            color_location: 1,
        }
    }
}

/// The vertex buffer's layout in plain numbers: the stride from one vertex to
/// the next and, for each of the two three-float attributes, its byte offset
/// and the shader location it feeds.
#[derive(Clone, Copy, Debug, PartialEq, Eq, Structural)]
pub struct VertexLayout {
    pub array_stride: u64,
    pub position_offset: u64,
    pub position_location: u32,
    pub color_offset: u64,
    pub color_location: u32,
}

/// The 24 bytes of one vertex in the buffer: its six coordinates as
/// little-endian single-precision bit patterns, position first, then color.
pub open spec fn vertex_le_bytes(v: Vertex) -> Seq<u8> {
    le_bytes32(unit_f32_bits(v.position[0] as int)) + le_bytes32(
        unit_f32_bits(v.position[1] as int),
    ) + le_bytes32(unit_f32_bits(v.position[2] as int)) + le_bytes32(
        unit_f32_bits(v.color[0] as int),
    ) + le_bytes32(unit_f32_bits(v.color[1] as int)) + le_bytes32(
        unit_f32_bits(v.color[2] as int),
    )
}

/// Append the 24-byte image of one vertex to `out`.
fn push_vertex(out: &mut Vec<u8>, v: &Vertex)
    requires
        v.wf(),
    ensures
        final(out)@ == old(out)@ + vertex_le_bytes(*v),
{
    push_le32(out, unit_to_bits(v.position[0]));
    push_le32(out, unit_to_bits(v.position[1]));
    push_le32(out, unit_to_bits(v.position[2]));
    push_le32(out, unit_to_bits(v.color[0]));
    push_le32(out, unit_to_bits(v.color[1]));
    push_le32(out, unit_to_bits(v.color[2]));
    assert(out@ =~= old(out)@ + vertex_le_bytes(*v));
}

/// The byte image of a whole vertex buffer: 24 bytes per vertex, the `i`-th
/// vertex at offset `24 * i`.
pub fn vertex_bytes(vs: &Vec<Vertex>) -> (r: Vec<u8>)
    requires
        forall|i: int| 0 <= i < vs@.len() ==> (#[trigger] vs@[i]).wf(),
        vs@.len() * 24 <= usize::MAX,
    ensures
        r@.len() == vs@.len() * 24,
        forall|i: int|
            0 <= i < vs@.len() ==> r@.subrange(24 * i, 24 * i + 24) == vertex_le_bytes(
                #[trigger] vs@[i],
            ),
{
    let mut out: Vec<u8> = Vec::new();
    let mut i: usize = 0;
    while i < vs.len()
        invariant
            i <= vs@.len(),
            vs@.len() * 24 <= usize::MAX,
            forall|k: int| 0 <= k < vs@.len() ==> (#[trigger] vs@[k]).wf(),
            out@.len() == i * 24,
            forall|k: int|
                0 <= k < i ==> out@.subrange(24 * k, 24 * k + 24) == vertex_le_bytes(
                    #[trigger] vs@[k],
                ),
        decreases vs@.len() - i,
    {
        let ghost before = out@;
        push_vertex(&mut out, &vs[i]);
        proof {
            assert forall|k: int|
                0 <= k < i + 1 implies out@.subrange(24 * k, 24 * k + 24) == vertex_le_bytes(
                vs@[k],
            ) by {
                if k < i {
                    assert(out@.subrange(24 * k, 24 * k + 24) =~= before.subrange(
                        24 * k,
                        24 * k + 24,
                    ));
                } else {
                    assert(out@.subrange(24 * k, 24 * k + 24) =~= vertex_le_bytes(vs@[k]));
                }
            }
        }
        i = i + 1;
    }
    out
}

/// The six vertices of the demo's quad: two counter-clockwise triangles that
/// together cover the square from -1 to 1, red, green and blue at its corners.
pub fn quad_vertices() -> (v: Vec<Vertex>)
    ensures
        v@.len() == 6,
        v@[0] == (Vertex { position: [-1i8, 1i8, 0i8], color: [1i8, 0i8, 0i8] }),
        v@[1] == (Vertex { position: [-1i8, -1i8, 0i8], color: [0i8, 1i8, 0i8] }),
        v@[2] == (Vertex { position: [1i8, -1i8, 0i8], color: [0i8, 0i8, 1i8] }),
        v@[3] == (Vertex { position: [1i8, -1i8, 0i8], color: [0i8, 0i8, 1i8] }),
        v@[4] == (Vertex { position: [1i8, 1i8, 0i8], color: [0i8, 1i8, 0i8] }),
        v@[5] == (Vertex { position: [-1i8, 1i8, 0i8], color: [1i8, 0i8, 0i8] }),
        forall|i: int| 0 <= i < v@.len() ==> (#[trigger] v@[i]).wf(),
{
    let mut v: Vec<Vertex> = Vec::new();
    v.push(Vertex { position: [-1, 1, 0], color: [1, 0, 0] });
    v.push(Vertex { position: [-1, -1, 0], color: [0, 1, 0] });
    v.push(Vertex { position: [1, -1, 0], color: [0, 0, 1] });
    v.push(Vertex { position: [1, -1, 0], color: [0, 0, 1] });
    v.push(Vertex { position: [1, 1, 0], color: [0, 1, 0] });
    v.push(Vertex { position: [-1, 1, 0], color: [1, 0, 0] });
    v
}

} // verus!
