//! Frames of video: frames in shared, immutable buffers.

use crate::formats::AsBytes;
use crate::image::{deterministic, Image};
use crate::layout::{is_chunky, is_planar, lemma_chunky_pixel, lemma_planar_pixel};
use vstd::prelude::*;

pub mod chunky;
pub mod pixels;
pub mod planar;

pub use crate::formats::{Rgba, Yuv};
pub use crate::function::Function;
pub use chunky::ChunkyFrame;
pub use pixels::pixels;
pub use planar::PlanarFrame;

verus! {

/// A `VideoFrame` is just a still image: every [`Image`] is one.
///
/// This is the name under which the video frames ask for the frame that they
/// are filled from.
pub trait VideoFrame: Image {

}

impl<T: Image> VideoFrame for T {

}

/// Describes a kind of pixel that is made up of a finite number of channels,
/// each one byte long: every pixel format that is [`AsBytes`] is one.
///
/// This is the name under which the video frames ask for their pixel format.
pub trait ByteChannels: AsBytes {

}

impl<T: AsBytes> ByteChannels for T {

}

/// A chunky frame and a planar frame that were filled from one source hold
/// at every coordinate a pixel that the source shows there. Where the source
/// shows one pixel at each coordinate, the two hold the same pixel.
pub proof fn lemma_frames_agree<T: ByteChannels, F: Image<Pixel = T>>(
    chunky: ChunkyFrame<T>,
    planar: PlanarFrame<T>,
    source: &F,
    x: int,
    y: int,
)
    requires
        chunky.spec_width() == source.spec_width(),
        is_chunky(source, chunky.data()),
        planar.spec_width() == source.spec_width(),
        planar.spec_height() == source.spec_height(),
        is_planar(source, planar.data()),
        0 <= x < source.spec_width(),
        0 <= y < source.spec_height(),
    ensures
        source.yields(x, y, chunky.pixel_at(x, y)),
        source.yields(x, y, planar.pixel_at(x, y)),
        deterministic(source) ==> chunky.pixel_at(x, y) == planar.pixel_at(x, y),
{
    lemma_chunky_pixel(source, chunky.data(), x, y);
    lemma_planar_pixel(source, planar.data(), x, y);
}

} // verus!
