//! The boot-time framebuffer check: a white diagonal drawn from the top-left corner.
use vstd::prelude::*;

verus! {

/// Pixels on the diagonal.
pub const DIAGONAL_PIXELS: u64 = 100;

/// Byte offset of the `i`-th pixel of the diagonal: `i` scanlines of `pitch` bytes down and `i`
/// 4-byte pixels across; `None` where that does not fit in 64 bits.
pub fn diagonal_pixel_offset(i: u64, pitch: u64) -> (r: Option<u64>)
    ensures
        i * pitch + i * 4 <= u64::MAX ==> r == Some((i * pitch + i * 4) as u64),
        i * pitch + i * 4 > u64::MAX ==> r is None,
{
    match i.checked_mul(pitch) {
        Some(down) => match i.checked_mul(4) {
            Some(across) => down.checked_add(across),
            None => None,
        },
        None => {
            assert(i * 4 >= 0) by (nonlinear_arith);
            None
        },
    }
}

} // verus!
