//! Byte images of the GPU-visible data blocks.
//!
//! The shaders read 32-bit floats; the host writes them into buffers as
//! little-endian 32-bit words. Positions in this demo are exact multiples of
//! the step size, and every vertex coordinate is -1, 0 or 1, so the bit
//! patterns that reach the GPU are pinned down exactly.

use vstd::prelude::*;

verus! {

/// The four bytes of a 32-bit word in little-endian order.
pub open spec fn le_bytes32(w: u32) -> Seq<u8> {
    seq![
        (w & 0xff) as u8,
        ((w >> 8) & 0xff) as u8,
        ((w >> 16) & 0xff) as u8,
        ((w >> 24) & 0xff) as u8,
    ]
}

/// Append one 32-bit word to `out` in little-endian order.
pub fn push_le32(out: &mut Vec<u8>, w: u32)
    ensures
        final(out)@ == old(out)@ + le_bytes32(w),
{
    out.push((w & 0xff) as u8);
    out.push(((w >> 8) & 0xff) as u8);
    out.push(((w >> 16) & 0xff) as u8);
    out.push(((w >> 24) & 0xff) as u8);
    assert(out@ =~= old(out)@ + le_bytes32(w));
}

/// The IEEE 754 single-precision bit pattern of a coordinate that is
/// -1, 0 or 1.
pub open spec fn unit_f32_bits(c: int) -> u32 {
    if c == 1 {
        0x3f80_0000u32
    } else if c == -1 {
        0xbf80_0000u32
    } else {
        0u32
    }
}

/// Bit pattern of a unit coordinate as a single-precision float.
pub fn unit_to_bits(c: i8) -> (r: u32)
    requires
        -1 <= c <= 1,
    ensures
        r == unit_f32_bits(c as int),
{
    if c == 1 {
        0x3f80_0000u32
    } else if c == -1 {
        0xbf80_0000u32
    } else {
        0u32
    }
}

/// The eight bytes that the offset uniform occupies on the GPU: the two
/// 32-bit words of its components, each little-endian, x first.
pub fn uniform_bytes(x_bits: u32, y_bits: u32) -> (r: Vec<u8>)
    ensures
        r@ == le_bytes32(x_bits) + le_bytes32(y_bits),
        r@.len() == 8,
{
    let mut out: Vec<u8> = Vec::new();
    push_le32(&mut out, x_bits);
    push_le32(&mut out, y_bits);
    assert(out@ =~= le_bytes32(x_bits) + le_bytes32(y_bits));
    out
}

} // verus!
