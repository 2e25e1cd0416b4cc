//! Three-byte pixels in the Y'CbCr format.

use super::{lemma_strided_in_bounds, AsBytes, Rgba};
use crate::clamp::{clamp, clamped};
use vstd::prelude::*;
use vstd::std_specs::convert::FromSpecImpl;

verus! {

/// A three-byte long pixel in the Y'CbCr format.
///
/// Conversion to and from RGBA follows the BT.709 standard for 8-bit digital
/// representation of Y'CbCr encoded pixels. The sums are taken exactly, in
/// thousandths, and the fraction of the result is cut off.
#[derive(Clone, Copy, Debug, Eq, PartialEq, Hash)]
pub struct Yuv(pub u8, pub u8, pub u8);

/// The luma of a colour: `0.183 r + 0.614 g + 0.062 b + 16`.
pub open spec fn yuv_y(r: int, g: int, b: int) -> int {
    (183 * r + 614 * g + 62 * b + 16_000) / 1000
}

/// The blue-difference chroma of a colour:
/// `-0.101 r - 0.339 g + 0.439 b + 128`.
pub open spec fn yuv_u(r: int, g: int, b: int) -> int {
    (-101 * r - 339 * g + 439 * b + 128_000) / 1000
}

/// The red-difference chroma of a colour:
/// `0.439 r - 0.399 g - 0.040 b + 128`.
pub open spec fn yuv_v(r: int, g: int, b: int) -> int {
    (439 * r - 399 * g - 40 * b + 128_000) / 1000
}

/// A sum in thousandths as a channel: clamped to the range from 0 to 255,
/// with the fraction cut off.
pub open spec fn channel(thousandths: int) -> int {
    clamped(0, thousandths, 255_000) / 1000
}

/// The red channel of a Y'CbCr pixel: `1.164 (y - 16) + 1.793 (v - 128)`.
pub open spec fn yuv_red(y: int, u: int, v: int) -> int {
    channel(1164 * (y - 16) + 1793 * (v - 128))
}

/// The green channel of a Y'CbCr pixel:
/// `1.164 (y - 16) - 0.213 (u - 128) - 0.533 (v - 128)`.
pub open spec fn yuv_green(y: int, u: int, v: int) -> int {
    channel(1164 * (y - 16) - 213 * (u - 128) - 533 * (v - 128))
}

/// The blue channel of a Y'CbCr pixel: `1.164 (y - 16) + 2.112 (u - 128)`.
pub open spec fn yuv_blue(y: int, u: int, v: int) -> int {
    channel(1164 * (y - 16) + 2112 * (u - 128))
}

/// A colour in the Y'CbCr format; the alpha channel is dropped.
pub open spec fn to_yuv(pixel: Rgba<u8>) -> Yuv {
    Yuv(
        yuv_y(pixel.0 as int, pixel.1 as int, pixel.2 as int) as u8,
        yuv_u(pixel.0 as int, pixel.1 as int, pixel.2 as int) as u8,
        yuv_v(pixel.0 as int, pixel.1 as int, pixel.2 as int) as u8,
    )
}

/// A Y'CbCr pixel as a colour with an alpha channel of 255.
pub open spec fn from_yuv(pixel: Yuv) -> Rgba<u8> {
    Rgba(
        yuv_red(pixel.0 as int, pixel.1 as int, pixel.2 as int) as u8,
        yuv_green(pixel.0 as int, pixel.1 as int, pixel.2 as int) as u8,
        yuv_blue(pixel.0 as int, pixel.1 as int, pixel.2 as int) as u8,
        255u8,
    )
}

/// Clamps a sum in thousandths and cuts its fraction off.
fn to_channel(thousandths: i32) -> (out: u8)
    ensures
        out == channel(thousandths as int),
{
    (clamp(0, thousandths, 255_000) / 1000) as u8
}

impl From<Rgba<u8>> for Yuv {
    /// Converts a colour; the alpha channel is dropped.
    fn from(pixel: Rgba<u8>) -> (out: Self) {
        let Rgba(r, g, b, _) = pixel;
        let (r, g, b) = (r as i32, g as i32, b as i32);
        let y: i32 = 183 * r + 614 * g + 62 * b + 16_000;
        let u: i32 = 128_000 + 439 * b - 101 * r - 339 * g;
        let v: i32 = 128_000 + 439 * r - 399 * g - 40 * b;
        Yuv((y / 1000) as u8, (u / 1000) as u8, (v / 1000) as u8)
    }
}

impl FromSpecImpl<Rgba<u8>> for Yuv {
    open spec fn obeys_from_spec() -> bool {
        true
    }

    open spec fn from_spec(pixel: Rgba<u8>) -> Self {
        to_yuv(pixel)
    }
}

impl From<Yuv> for Rgba<u8> {
    /// Converts to a colour with an alpha channel of 255.
    fn from(pixel: Yuv) -> (out: Self) {
        let Yuv(y, u, v) = pixel;
        let (y, u, v) = (y as i32 - 16, u as i32 - 128, v as i32 - 128);
        Rgba(
            to_channel(1164 * y + 1793 * v),
            to_channel(1164 * y - 213 * u - 533 * v),
            to_channel(1164 * y + 2112 * u),
            255,
        )
    }
}

impl FromSpecImpl<Yuv> for Rgba<u8> {
    open spec fn obeys_from_spec() -> bool {
        true
    }

    open spec fn from_spec(pixel: Yuv) -> Self {
        from_yuv(pixel)
    }
}

/// The three channels of a converted colour fit in a byte each.
pub proof fn lemma_yuv_in_range(r: int, g: int, b: int)
    requires
        0 <= r <= 255,
        0 <= g <= 255,
        0 <= b <= 255,
    ensures
        16 <= yuv_y(r, g, b) <= 235,
        15 <= yuv_u(r, g, b) <= 239,
        16 <= yuv_v(r, g, b) <= 239,
{
}

/// Turning an opaque colour into Y'CbCr and back changes no channel by more
/// than 4, and gives an opaque colour again.
pub proof fn lemma_yuv_round_trip(pixel: Rgba<u8>)
    ensures
        ({
            let back = from_yuv(to_yuv(pixel));
            &&& -4 <= back.0 - pixel.0 <= 4
            &&& -4 <= back.1 - pixel.1 <= 4
            &&& -4 <= back.2 - pixel.2 <= 4
            &&& back.3 == 255
        }),
{
    let (r, g, b) = (pixel.0 as int, pixel.1 as int, pixel.2 as int);
    lemma_yuv_in_range(r, g, b);
}

impl From<[u8; 3]> for Yuv {
    /// Reads the channels from the bytes, in order.
    fn from(bytes: [u8; 3]) -> (out: Self) {
        Yuv(bytes[0], bytes[1], bytes[2])
    }
}

impl FromSpecImpl<[u8; 3]> for Yuv {
    open spec fn obeys_from_spec() -> bool {
        true
    }

    open spec fn from_spec(bytes: [u8; 3]) -> Self {
        Yuv(bytes@[0], bytes@[1], bytes@[2])
    }
}

impl From<Yuv> for [u8; 3] {
    /// Lays the channels out as bytes, in order.
    fn from(pixel: Yuv) -> (out: Self) {
        [pixel.0, pixel.1, pixel.2]
    }
}

impl FromSpecImpl<Yuv> for [u8; 3] {
    open spec fn obeys_from_spec() -> bool {
        true
    }

    open spec fn from_spec(pixel: Yuv) -> Self {
        [pixel.0, pixel.1, pixel.2]
    }
}

impl AsBytes for Yuv {
    open spec fn spec_width() -> nat {
        3
    }

    open spec fn encoded(self) -> Seq<u8> {
        seq![self.0, self.1, self.2]
    }

    open spec fn decoded(bytes: Seq<u8>) -> Self {
        Yuv(bytes[0], bytes[1], bytes[2])
    }

    proof fn lemma_width_positive() {
    }

    proof fn lemma_encoded_len(self) {
    }

    proof fn lemma_decode_encode(self) {
    }

    proof fn lemma_encode_decode(bytes: Seq<u8>) {
        assert(Self::decoded(bytes).encoded() =~= bytes);
    }

    fn width() -> (n: usize) {
        3
    }

    fn encode(&self, out: &mut [u8]) {
        out[0] = self.0;
        out[1] = self.1;
        out[2] = self.2;
        assert(out@ =~= self.encoded());
    }

    fn decode(bytes: &[u8], start: usize, stride: usize) -> (pixel: Self) {
        proof {
            let len = bytes@.len() as int;
            lemma_strided_in_bounds(start as int, stride as int, 3, 1, len);
            lemma_strided_in_bounds(start as int, stride as int, 3, 2, len);
        }
        Yuv(bytes[start], bytes[start + stride], bytes[start + 2 * stride])
    }
}

} // verus!
