//! One-byte pixels that hold an intensity.

use super::{AsBytes, Rgba};
use crate::clamp::{clamp, clamped};
use vstd::prelude::*;
use vstd::std_specs::convert::FromSpecImpl;

verus! {

/// A pixel that is one byte long and has just an intensity channel.
#[derive(Clone, Copy, Debug, Eq, PartialEq, Hash)]
pub struct Grayscale<T>(pub T);

/// The intensity of a colour: `0.2126 r + 0.7152 g + 0.0722 b`, clamped to the
/// range from 0 to 255, with the fraction cut off. The sum is taken exactly,
/// in ten-thousandths.
pub open spec fn luma(r: int, g: int, b: int) -> int {
    clamped(0, 2126 * r + 7152 * g + 722 * b, 2_550_000) / 10_000
}

/// The intensity of a colour as a pixel; the alpha channel is dropped.
pub open spec fn to_grayscale(pixel: Rgba<u8>) -> Grayscale<u8> {
    Grayscale(luma(pixel.0 as int, pixel.1 as int, pixel.2 as int) as u8)
}

/// An intensity as a colour: red, green and blue are the intensity, and the
/// alpha channel is 255.
pub open spec fn from_grayscale(pixel: Grayscale<u8>) -> Rgba<u8> {
    Rgba(pixel.0, pixel.0, pixel.0, 255)
}

impl From<Rgba<u8>> for Grayscale<u8> {
    /// Takes the intensity of the colour; the alpha channel is dropped.
    fn from(pixel: Rgba<u8>) -> (out: Self) {
        let Rgba(r, g, b, _) = pixel;
        let sum: i32 = 2126 * (r as i32) + 7152 * (g as i32) + 722 * (b as i32);
        Grayscale((clamp(0, sum, 2_550_000) / 10_000) as u8)
    }
}

impl FromSpecImpl<Rgba<u8>> for Grayscale<u8> {
    open spec fn obeys_from_spec() -> bool {
        true
    }

    open spec fn from_spec(pixel: Rgba<u8>) -> Self {
        to_grayscale(pixel)
    }
}

impl From<Grayscale<u8>> for Rgba<u8> {
    /// Gives the red, green and blue channels the intensity, and the alpha
    /// channel 255.
    fn from(pixel: Grayscale<u8>) -> (out: Self) {
        let Grayscale(l) = pixel;
        Rgba(l, l, l, 255)
    }
}

impl FromSpecImpl<Grayscale<u8>> for Rgba<u8> {
    open spec fn obeys_from_spec() -> bool {
        true
    }

    open spec fn from_spec(pixel: Grayscale<u8>) -> Self {
        from_grayscale(pixel)
    }
}

/// Turning a colour into an intensity and back gives the intensity in the
/// red, green and blue channels, and an alpha channel of 255.
pub proof fn lemma_grayscale_round_trip(pixel: Rgba<u8>)
    ensures
        0 <= luma(pixel.0 as int, pixel.1 as int, pixel.2 as int) <= 255,
        from_grayscale(to_grayscale(pixel)) == Rgba(
            luma(pixel.0 as int, pixel.1 as int, pixel.2 as int) as u8,
            luma(pixel.0 as int, pixel.1 as int, pixel.2 as int) as u8,
            luma(pixel.0 as int, pixel.1 as int, pixel.2 as int) as u8,
            255u8,
        ),
{
}

impl From<[u8; 1]> for Grayscale<u8> {
    /// Reads the channels from the bytes, in order.
    fn from(bytes: [u8; 1]) -> (out: Self) {
        Grayscale(bytes[0])
    }
}

impl FromSpecImpl<[u8; 1]> for Grayscale<u8> {
    open spec fn obeys_from_spec() -> bool {
        true
    }

    open spec fn from_spec(bytes: [u8; 1]) -> Self {
        Grayscale(bytes@[0])
    }
}

impl From<Grayscale<u8>> for [u8; 1] {
    /// Lays the channels out as bytes, in order.
    fn from(pixel: Grayscale<u8>) -> (out: Self) {
        [pixel.0]
    }
}

impl FromSpecImpl<Grayscale<u8>> for [u8; 1] {
    open spec fn obeys_from_spec() -> bool {
        true
    }

    open spec fn from_spec(pixel: Grayscale<u8>) -> Self {
        [pixel.0]
    }
}

impl AsBytes for Grayscale<u8> {
    open spec fn spec_width() -> nat {
        1
    }

    open spec fn encoded(self) -> Seq<u8> {
        seq![self.0]
    }

    open spec fn decoded(bytes: Seq<u8>) -> Self {
        Grayscale(bytes[0])
    }

    proof fn lemma_width_positive() {
    }

    proof fn lemma_encoded_len(self) {
    }

    proof fn lemma_decode_encode(self) {
    }

    proof fn lemma_encode_decode(bytes: Seq<u8>) {
        assert(Self::decoded(bytes).encoded() =~= bytes);
    }

    fn width() -> (n: usize) {
        1
    }

    fn encode(&self, out: &mut [u8]) {
        out[0] = self.0;
        assert(out@ =~= self.encoded());
    }

    fn decode(bytes: &[u8], start: usize, stride: usize) -> (pixel: Self) {
        assert(start + 0 * stride == start);
        Grayscale(bytes[start])
    }
}

} // verus!
