//! Pixel formats: kinds of pixel that are stored as a fixed number of bytes.

use vstd::prelude::*;

pub mod grayscale;
pub mod rgb;
pub mod rgba;
pub mod yuv;

pub use grayscale::Grayscale;
pub use rgb::{Bgr, Rgb};
pub use rgba::{Bgra, Rgba};
pub use yuv::Yuv;

verus! {

/// The `n` bytes of `data` found at `start`, `start + stride`,
/// `start + 2 * stride`, and so on.
pub open spec fn strided(data: Seq<u8>, start: int, stride: int, n: nat) -> Seq<u8> {
    Seq::new(n, |c: int| data[start + c * stride])
}

/// The channels of a pixel that lies within a buffer all lie within it.
pub proof fn lemma_strided_in_bounds(start: int, stride: int, n: int, c: int, len: int)
    requires
        0 <= start,
        0 <= stride,
        0 <= c < n,
        start + (n - 1) * stride < len,
    ensures
        0 <= c * stride,
        start + c * stride < len,
{
    assert(0 <= c * stride <= (n - 1) * stride) by (nonlinear_arith)
        requires
            0 <= c <= n - 1,
            0 <= stride,
    ;
}

/// Describes a kind of pixel that is made up of a fixed number of bytes.
///
/// The model of a format is its channel width and a pair of functions between
/// pixels and byte sequences of exactly that length. The two are inverses of
/// each other, which every implementation has to prove.
pub trait AsBytes: Sized {
    /// The number of bytes in each pixel.
    spec fn spec_width() -> nat;

    /// The bytes that stand for a pixel, in channel order.
    spec fn encoded(self) -> Seq<u8>;

    /// The pixel that a sequence of `spec_width()` bytes stands for.
    spec fn decoded(bytes: Seq<u8>) -> Self;

    /// A pixel takes at least one byte.
    proof fn lemma_width_positive()
        ensures
            Self::spec_width() > 0,
    ;

    /// Every pixel is encoded in exactly `spec_width()` bytes.
    proof fn lemma_encoded_len(self)
        ensures
            self.encoded().len() == Self::spec_width(),
    ;

    /// Decoding the bytes of a pixel gives the pixel back.
    proof fn lemma_decode_encode(self)
        ensures
            Self::decoded(self.encoded()) == self,
    ;

    /// Encoding the pixel that some bytes stand for gives the bytes back.
    proof fn lemma_encode_decode(bytes: Seq<u8>)
        requires
            bytes.len() == Self::spec_width(),
        ensures
            Self::decoded(bytes).encoded() == bytes,
    ;

    /// The number of bytes in each pixel.
    ///
    /// For example, `Rgb` has three bytes per pixel, and `Rgba` has four.
    fn width() -> (n: usize)
        ensures
            n == Self::spec_width(),
    ;

    /// Writes the bytes of the pixel into `out`.
    fn encode(&self, out: &mut [u8])
        requires
            old(out)@.len() == Self::spec_width(),
        ensures
            final(out)@ == self.encoded(),
    ;

    /// Reads the pixel whose channels lie `stride` bytes apart in `bytes`,
    /// the first of them at `start`.
    fn decode(bytes: &[u8], start: usize, stride: usize) -> (pixel: Self)
        requires
            start + (Self::spec_width() - 1) * stride < bytes@.len(),
        ensures
            pixel == Self::decoded(strided(bytes@, start as int, stride as int, Self::spec_width())),
    ;
}

} // verus!
