//! Frame dimensions and the size of a tightly packed frame.

use vstd::prelude::*;

verus! {

/// Bytes per pixel of every frame that passes through the slot.
pub const BYTES_PER_PIXEL: u32 = 4;

/// Number of bytes of a tightly packed, row-major frame of `width` by
/// `height` pixels, four bytes to the pixel.
pub open spec fn frame_bytes(width: u32, height: u32) -> nat {
    (width as nat) * (height as nat) * 4
}

/// Both dimensions are positive: the size can be rendered to.
pub open spec fn renderable(width: u32, height: u32) -> bool {
    width > 0 && height > 0
}

/// A frame of `u32` dimensions never needs more than 2^66 bytes.
pub proof fn lemma_frame_bytes_bound(width: u32, height: u32)
    ensures
        frame_bytes(width, height) <= 0xffff_ffff * 0xffff_ffff * 4,
{
    assert((width as nat) * (height as nat) <= 0xffff_ffff * 0xffff_ffff) by (nonlinear_arith)
        requires
            width <= 0xffff_ffff,
            height <= 0xffff_ffff,
    ;
}

/// Number of bytes of one tightly packed row of `width` pixels, where a
/// `u32` can hold it.
pub fn row_bytes(width: u32) -> (bytes: Option<u32>)
    ensures
        bytes == (if width * 4 <= u32::MAX {
            Some((width * 4) as u32)
        } else {
            None::<u32>
        }),
{
    width.checked_mul(BYTES_PER_PIXEL)
}

/// Whether a buffer of `len` bytes holds exactly one frame of the given
/// dimensions.
pub fn holds_frame(len: usize, width: u32, height: u32) -> (fits: bool)
    ensures
        fits == (len == frame_bytes(width, height)),
{
    proof {
        lemma_frame_bytes_bound(width, height);
    }
    let pixels: u128 = (width as u128) * (height as u128);
    let bytes: u128 = pixels * 4;
    (len as u128) == bytes
}

} // verus!
