//! Four-byte pixels with an alpha channel.

use super::{lemma_strided_in_bounds, AsBytes};
use vstd::prelude::*;
use vstd::std_specs::convert::FromSpecImpl;

verus! {

/// A pixel that is four bytes long and is made of a red, green, blue and alpha
/// channel, in that order.
#[derive(Clone, Copy, Debug, Eq, PartialEq, Hash)]
pub struct Rgba<T>(pub T, pub T, pub T, pub T);

/// A pixel that is four bytes long and is made of a blue, green, red and alpha
/// channel, in that order.
#[derive(Clone, Copy, Debug, Eq, PartialEq, Hash)]
pub struct Bgra<T>(pub T, pub T, pub T, pub T);

impl<T> From<Bgra<T>> for Rgba<T> {
    /// Reorders the channels; the alpha channel is kept.
    fn from(pixel: Bgra<T>) -> (out: Self) {
        let Bgra(b, g, r, a) = pixel;
        Rgba(r, g, b, a)
    }
}

impl<T> FromSpecImpl<Bgra<T>> for Rgba<T> {
    open spec fn obeys_from_spec() -> bool {
        true
    }

    open spec fn from_spec(pixel: Bgra<T>) -> Self {
        Rgba(pixel.2, pixel.1, pixel.0, pixel.3)
    }
}

impl<T> From<Rgba<T>> for Bgra<T> {
    /// Reorders the channels; the alpha channel is kept.
    fn from(pixel: Rgba<T>) -> (out: Self) {
        let Rgba(r, g, b, a) = pixel;
        Bgra(b, g, r, a)
    }
}

impl<T> FromSpecImpl<Rgba<T>> for Bgra<T> {
    open spec fn obeys_from_spec() -> bool {
        true
    }

    open spec fn from_spec(pixel: Rgba<T>) -> Self {
        Bgra(pixel.2, pixel.1, pixel.0, pixel.3)
    }
}

impl From<[u8; 4]> for Rgba<u8> {
    /// Reads the channels from the bytes, in order.
    fn from(bytes: [u8; 4]) -> (out: Self) {
        Rgba(bytes[0], bytes[1], bytes[2], bytes[3])
    }
}

impl FromSpecImpl<[u8; 4]> for Rgba<u8> {
    open spec fn obeys_from_spec() -> bool {
        true
    }

    open spec fn from_spec(bytes: [u8; 4]) -> Self {
        Rgba(bytes@[0], bytes@[1], bytes@[2], bytes@[3])
    }
}

impl From<Rgba<u8>> for [u8; 4] {
    /// Lays the channels out as bytes, in order.
    fn from(pixel: Rgba<u8>) -> (out: Self) {
        [pixel.0, pixel.1, pixel.2, pixel.3]
    }
}

impl FromSpecImpl<Rgba<u8>> for [u8; 4] {
    open spec fn obeys_from_spec() -> bool {
        true
    }

    open spec fn from_spec(pixel: Rgba<u8>) -> Self {
        [pixel.0, pixel.1, pixel.2, pixel.3]
    }
}

impl AsBytes for Rgba<u8> {
    open spec fn spec_width() -> nat {
        4
    }

    open spec fn encoded(self) -> Seq<u8> {
        seq![self.0, self.1, self.2, self.3]
    }

    open spec fn decoded(bytes: Seq<u8>) -> Self {
        Rgba(bytes[0], bytes[1], bytes[2], bytes[3])
    }

    proof fn lemma_width_positive() {
    }

    proof fn lemma_encoded_len(self) {
    }

    proof fn lemma_decode_encode(self) {
    }

    proof fn lemma_encode_decode(bytes: Seq<u8>) {
        assert(Self::decoded(bytes).encoded() =~= bytes);
    }

    fn width() -> (n: usize) {
        4
    }

    fn encode(&self, out: &mut [u8]) {
        out[0] = self.0;
        out[1] = self.1;
        out[2] = self.2;
        out[3] = self.3;
        assert(out@ =~= self.encoded());
    }

    fn decode(bytes: &[u8], start: usize, stride: usize) -> (pixel: Self) {
        proof {
            let len = bytes@.len() as int;
            lemma_strided_in_bounds(start as int, stride as int, 4, 1, len);
            lemma_strided_in_bounds(start as int, stride as int, 4, 2, len);
            lemma_strided_in_bounds(start as int, stride as int, 4, 3, len);
        }
        Rgba(
            bytes[start],
            bytes[start + stride],
            bytes[start + 2 * stride],
            bytes[start + 3 * stride],
        )
    }
}

impl From<[u8; 4]> for Bgra<u8> {
    /// Reads the channels from the bytes, in order.
    fn from(bytes: [u8; 4]) -> (out: Self) {
        Bgra(bytes[0], bytes[1], bytes[2], bytes[3])
    }
}

impl FromSpecImpl<[u8; 4]> for Bgra<u8> {
    open spec fn obeys_from_spec() -> bool {
        true
    }

    open spec fn from_spec(bytes: [u8; 4]) -> Self {
        Bgra(bytes@[0], bytes@[1], bytes@[2], bytes@[3])
    }
}

impl From<Bgra<u8>> for [u8; 4] {
    /// Lays the channels out as bytes, in order.
    fn from(pixel: Bgra<u8>) -> (out: Self) {
        [pixel.0, pixel.1, pixel.2, pixel.3]
    }
}

impl FromSpecImpl<Bgra<u8>> for [u8; 4] {
    open spec fn obeys_from_spec() -> bool {
        true
    }

    open spec fn from_spec(pixel: Bgra<u8>) -> Self {
        [pixel.0, pixel.1, pixel.2, pixel.3]
    }
}

impl AsBytes for Bgra<u8> {
    open spec fn spec_width() -> nat {
        4
    }

    open spec fn encoded(self) -> Seq<u8> {
        seq![self.0, self.1, self.2, self.3]
    }

    open spec fn decoded(bytes: Seq<u8>) -> Self {
        Bgra(bytes[0], bytes[1], bytes[2], bytes[3])
    }

    proof fn lemma_width_positive() {
    }

    proof fn lemma_encoded_len(self) {
    }

    proof fn lemma_decode_encode(self) {
    }

    proof fn lemma_encode_decode(bytes: Seq<u8>) {
        assert(Self::decoded(bytes).encoded() =~= bytes);
    }

    fn width() -> (n: usize) {
        4
    }

    fn encode(&self, out: &mut [u8]) {
        out[0] = self.0;
        out[1] = self.1;
        out[2] = self.2;
        out[3] = self.3;
        assert(out@ =~= self.encoded());
    }

    fn decode(bytes: &[u8], start: usize, stride: usize) -> (pixel: Self) {
        proof {
            let len = bytes@.len() as int;
            lemma_strided_in_bounds(start as int, stride as int, 4, 1, len);
            lemma_strided_in_bounds(start as int, stride as int, 4, 2, len);
            lemma_strided_in_bounds(start as int, stride as int, 4, 3, len);
        }
        Bgra(
            bytes[start],
            bytes[start + stride],
            bytes[start + 2 * stride],
            bytes[start + 3 * stride],
        )
    }
}

} // verus!
