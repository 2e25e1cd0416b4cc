//! What can go wrong when a frame is made from a buffer.

use vstd::prelude::*;

verus! {

/// The buffer that a frame was to be backed by does not have the length that
/// the frame's size and pixel format ask for, `width * height * channel_width`.
#[derive(Clone, Copy, Debug, PartialEq, Eq)]
pub struct LengthMismatch {
    /// The width that was asked for, in pixels.
    pub width: usize,
    /// The height that was asked for, in pixels.
    pub height: usize,
    /// The number of bytes in each pixel.
    pub channel_width: usize,
    /// The length of the buffer that was given.
    pub actual: usize,
}

/// The number of bytes that a frame of the given size takes, where a `usize`
/// can hold it.
pub fn buffer_len(width: usize, height: usize, channel_width: usize) -> (len: Option<usize>)
    ensures
        match len {
            Some(n) => n == width * height * channel_width,
            None => width * height * channel_width > usize::MAX,
        },
{
    if channel_width == 0 {
        assert(width * height * channel_width == 0) by (nonlinear_arith)
            requires
                channel_width == 0,
        ;
        return Some(0);
    }
    match width.checked_mul(height) {
        Some(pixels) => pixels.checked_mul(channel_width),
        None => {
            assert(width * height * channel_width >= width * height) by (nonlinear_arith)
                requires
                    channel_width >= 1,
                    width * height >= 0,
            ;
            None
        },
    }
}

} // verus!
