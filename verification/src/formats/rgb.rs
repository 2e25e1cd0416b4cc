//! Three-byte pixels without an alpha channel.

use super::{lemma_strided_in_bounds, AsBytes, Rgba};
use vstd::prelude::*;
use vstd::std_specs::convert::FromSpecImpl;

verus! {

/// A pixel that is three bytes long and is made of a red, green and blue
/// channel, in that order.
#[derive(Clone, Copy, Debug, Eq, PartialEq, Hash)]
pub struct Rgb<T>(pub T, pub T, pub T);

/// A pixel that is three bytes long and is made of a blue, green and red
/// channel, in that order.
#[derive(Clone, Copy, Debug, Eq, PartialEq, Hash)]
pub struct Bgr<T>(pub T, pub T, pub T);

impl<T> From<Rgba<T>> for Rgb<T> {
    /// Drops the alpha channel.
    fn from(pixel: Rgba<T>) -> (out: Self) {
        let Rgba(r, g, b, _) = pixel;
        Rgb(r, g, b)
    }
}

impl<T> FromSpecImpl<Rgba<T>> for Rgb<T> {
    open spec fn obeys_from_spec() -> bool {
        true
    }

    open spec fn from_spec(pixel: Rgba<T>) -> Self {
        Rgb(pixel.0, pixel.1, pixel.2)
    }
}

impl<T> From<Rgba<T>> for Bgr<T> {
    /// Drops the alpha channel and reorders the others.
    fn from(pixel: Rgba<T>) -> (out: Self) {
        let Rgba(r, g, b, _) = pixel;
        Bgr(b, g, r)
    }
}

impl<T> FromSpecImpl<Rgba<T>> for Bgr<T> {
    open spec fn obeys_from_spec() -> bool {
        true
    }

    open spec fn from_spec(pixel: Rgba<T>) -> Self {
        Bgr(pixel.2, pixel.1, pixel.0)
    }
}

impl From<Rgb<u8>> for Rgba<u8> {
    /// Adds an alpha channel of 255.
    fn from(pixel: Rgb<u8>) -> (out: Self) {
        let Rgb(r, g, b) = pixel;
        Rgba(r, g, b, 255)
    }
}

impl FromSpecImpl<Rgb<u8>> for Rgba<u8> {
    open spec fn obeys_from_spec() -> bool {
        true
    }

    open spec fn from_spec(pixel: Rgb<u8>) -> Self {
        Rgba(pixel.0, pixel.1, pixel.2, 255)
    }
}

impl From<Bgr<u8>> for Rgba<u8> {
    /// Reorders the channels and adds an alpha channel of 255.
    fn from(pixel: Bgr<u8>) -> (out: Self) {
        let Bgr(b, g, r) = pixel;
        Rgba(r, g, b, 255)
    }
}

impl FromSpecImpl<Bgr<u8>> for Rgba<u8> {
    open spec fn obeys_from_spec() -> bool {
        true
    }

    open spec fn from_spec(pixel: Bgr<u8>) -> Self {
        Rgba(pixel.2, pixel.1, pixel.0, 255)
    }
}

impl From<[u8; 3]> for Rgb<u8> {
    /// Reads the channels from the bytes, in order.
    fn from(bytes: [u8; 3]) -> (out: Self) {
        Rgb(bytes[0], bytes[1], bytes[2])
    }
}

impl FromSpecImpl<[u8; 3]> for Rgb<u8> {
    open spec fn obeys_from_spec() -> bool {
        true
    }

    open spec fn from_spec(bytes: [u8; 3]) -> Self {
        Rgb(bytes@[0], bytes@[1], bytes@[2])
    }
}

impl From<Rgb<u8>> for [u8; 3] {
    /// Lays the channels out as bytes, in order.
    fn from(pixel: Rgb<u8>) -> (out: Self) {
        [pixel.0, pixel.1, pixel.2]
    }
}

impl FromSpecImpl<Rgb<u8>> for [u8; 3] {
    open spec fn obeys_from_spec() -> bool {
        true
    }

    open spec fn from_spec(pixel: Rgb<u8>) -> Self {
        [pixel.0, pixel.1, pixel.2]
    }
}

impl AsBytes for Rgb<u8> {
    open spec fn spec_width() -> nat {
        3
    }

    open spec fn encoded(self) -> Seq<u8> {
        seq![self.0, self.1, self.2]
    }

    open spec fn decoded(bytes: Seq<u8>) -> Self {
        Rgb(bytes[0], bytes[1], bytes[2])
    }

    proof fn lemma_width_positive() {
    }

    proof fn lemma_encoded_len(self) {
    }

    proof fn lemma_decode_encode(self) {
    }

    proof fn lemma_encode_decode(bytes: Seq<u8>) {
        assert(Self::decoded(bytes).encoded() =~= bytes);
    }

    fn width() -> (n: usize) {
        3
    }

    fn encode(&self, out: &mut [u8]) {
        out[0] = self.0;
        out[1] = self.1;
        out[2] = self.2;
        assert(out@ =~= self.encoded());
    }

    fn decode(bytes: &[u8], start: usize, stride: usize) -> (pixel: Self) {
        proof {
            let len = bytes@.len() as int;
            lemma_strided_in_bounds(start as int, stride as int, 3, 1, len);
            lemma_strided_in_bounds(start as int, stride as int, 3, 2, len);
        }
        Rgb(bytes[start], bytes[start + stride], bytes[start + 2 * stride])
    }
}

impl From<[u8; 3]> for Bgr<u8> {
    /// Reads the channels from the bytes, in order.
    fn from(bytes: [u8; 3]) -> (out: Self) {
        Bgr(bytes[0], bytes[1], bytes[2])
    }
}

impl FromSpecImpl<[u8; 3]> for Bgr<u8> {
    open spec fn obeys_from_spec() -> bool {
        true
    }

    open spec fn from_spec(bytes: [u8; 3]) -> Self {
        Bgr(bytes@[0], bytes@[1], bytes@[2])
    }
}

impl From<Bgr<u8>> for [u8; 3] {
    /// Lays the channels out as bytes, in order.
    fn from(pixel: Bgr<u8>) -> (out: Self) {
        [pixel.0, pixel.1, pixel.2]
    }
}

impl FromSpecImpl<Bgr<u8>> for [u8; 3] {
    open spec fn obeys_from_spec() -> bool {
        true
    }

    open spec fn from_spec(pixel: Bgr<u8>) -> Self {
        [pixel.0, pixel.1, pixel.2]
    }
}

impl AsBytes for Bgr<u8> {
    open spec fn spec_width() -> nat {
        3
    }

    open spec fn encoded(self) -> Seq<u8> {
        seq![self.0, self.1, self.2]
    }

    open spec fn decoded(bytes: Seq<u8>) -> Self {
        Bgr(bytes[0], bytes[1], bytes[2])
    }

    proof fn lemma_width_positive() {
    }

    proof fn lemma_encoded_len(self) {
    }

    proof fn lemma_decode_encode(self) {
    }

    proof fn lemma_encode_decode(bytes: Seq<u8>) {
        assert(Self::decoded(bytes).encoded() =~= bytes);
    }

    fn width() -> (n: usize) {
        3
    }

    fn encode(&self, out: &mut [u8]) {
        out[0] = self.0;
        out[1] = self.1;
        out[2] = self.2;
        assert(out@ =~= self.encoded());
    }

    fn decode(bytes: &[u8], start: usize, stride: usize) -> (pixel: Self) {
        proof {
            let len = bytes@.len() as int;
            lemma_strided_in_bounds(start as int, stride as int, 3, 1, len);
            lemma_strided_in_bounds(start as int, stride as int, 3, 2, len);
        }
        Bgr(bytes[start], bytes[start + stride], bytes[start + 2 * stride])
    }
}

} // verus!
