//! Planar frames in shared buffers.

use crate::buffer::{bytes_as_slice, bytes_clone, bytes_contents, bytes_from_vec};
use crate::error::{buffer_len, LengthMismatch};
use crate::image::{readable_everywhere, Image};
use crate::layout::{
    fill_planar, is_planar, layout_len, lemma_coordinate_place, lemma_planar_offset,
    lemma_planar_pixel, planar_pixel,
};
use crate::video::{ByteChannels, VideoFrame};
use bytes::Bytes;
use core::marker::PhantomData;
use vstd::prelude::*;

verus! {

/// A [planar frame](https://en.wikipedia.org/wiki/Planar_(computer_graphics)).
///
/// Each plane is made up of one-byte subpixels, and the planes are stored
/// contiguously in memory, in the order specified by the pixel itself. So, for
/// example, a BGRA planar frame would have all the B bytes in order, then all
/// the G bytes, then the R bytes, and finally the A bytes, with each plane
/// covering the entire image in row-major order.
///
/// The buffer of a frame always has `width * height * channel_width` bytes.
#[derive(Debug)]
pub struct PlanarFrame<T: ByteChannels> {
    bytes: Bytes,
    width: usize,
    height: usize,
    pixel: PhantomData<T>,
}

impl<T: ByteChannels> PlanarFrame<T> {
    #[verifier::type_invariant]
    spec fn well_formed(self) -> bool {
        bytes_contents(self.bytes).len() == self.width * self.height * T::spec_width()
    }

    /// The bytes of the frame's buffer.
    pub closed spec fn data(&self) -> Seq<u8> {
        bytes_contents(self.bytes)
    }

    /// The pixel at the given coordinates: what the bytes at `y * width + x`
    /// of each plane decode to.
    pub open spec fn pixel_at(&self, x: int, y: int) -> T {
        planar_pixel::<T>(self.data(), self.spec_width(), self.spec_height(), x, y)
    }

    /// Creates a new frame backed by the provided byte source.
    ///
    /// Fails if the length of the buffer is not
    /// `width * height * bytes_per_pixel`.
    pub fn from_bytes(width: usize, height: usize, bytes: Bytes) -> (result: Result<
        Self,
        LengthMismatch,
    >)
        ensures
            match result {
                Ok(frame) => {
                    &&& bytes_contents(bytes).len() == width * height * T::spec_width()
                    &&& frame.spec_width() == width
                    &&& frame.spec_height() == height
                    &&& frame.data() == bytes_contents(bytes)
                },
                Err(error) => {
                    &&& bytes_contents(bytes).len() != width * height * T::spec_width()
                    &&& error == (LengthMismatch {
                        width,
                        height,
                        channel_width: T::spec_width() as usize,
                        actual: bytes_contents(bytes).len() as usize,
                    })
                },
            },
    {
        let actual = bytes_as_slice(&bytes).len();
        let channel_width = T::width();
        if buffer_len(width, height, channel_width) == Some(actual) {
            Ok(Self { bytes, width, height, pixel: PhantomData })
        } else {
            Err(LengthMismatch { width, height, channel_width, actual })
        }
    }

    /// Returns a read-only view into the frame's byte source.
    ///
    /// This function is not as slow as you'd expect, because `Bytes` is
    /// actually reference-counted.
    pub fn bytes(&self) -> (bytes: Bytes)
        ensures
            bytes_contents(bytes) == self.data(),
            self.data().len() == self.spec_width() * self.spec_height() * T::spec_width(),
    {
        proof {
            use_type_invariant(self);
        }
        bytes_clone(&self.bytes)
    }

    /// Creates a new frame using the given frame to fill the buffer.
    /// It is guaranteed that the pixel of the given frame will be asked for
    /// **exactly once** for each of the coordinates in the range
    /// `[0, width) * [0, height)`.
    pub fn new<U>(frame: U) -> (planar: Self) where U: VideoFrame<Pixel = T> + Sync
        requires
            layout_len(&frame) <= usize::MAX,
            readable_everywhere(&frame),
        ensures
            planar.spec_width() == frame.spec_width(),
            planar.spec_height() == frame.spec_height(),
            is_planar(&frame, planar.data()),
            forall|x: int, y: int|
                0 <= x < frame.spec_width() && 0 <= y < frame.spec_height() ==> frame.yields(
                    x,
                    y,
                    #[trigger] planar.pixel_at(x, y),
                ),
    {
        let (width, height) = (frame.width(), frame.height());
        let n = T::width();
        proof {
            T::lemma_width_positive();
            assert(width * height <= width * height * n) by (nonlinear_arith)
                requires
                    n >= 1,
            ;
        }
        let mut bytes = vec![0u8; width * height * n];
        fill_planar(bytes.as_mut_slice(), &frame);
        let planar = Self { bytes: bytes_from_vec(bytes), width, height, pixel: PhantomData };
        proof {
            assert forall|x: int, y: int|
                0 <= x < frame.spec_width() && 0 <= y < frame.spec_height() implies frame.yields(
                x,
                y,
                #[trigger] planar.pixel_at(x, y),
            ) by {
                lemma_planar_pixel(&frame, planar.data(), x, y);
            }
        }
        planar
    }
}

impl<T: ByteChannels> Clone for PlanarFrame<T> {
    /// A second handle on the same buffer.
    fn clone(&self) -> (copy: Self)
        ensures
            copy.spec_width() == self.spec_width(),
            copy.spec_height() == self.spec_height(),
            copy.data() == self.data(),
    {
        proof {
            use_type_invariant(self);
        }
        Self {
            bytes: bytes_clone(&self.bytes),
            width: self.width,
            height: self.height,
            pixel: PhantomData,
        }
    }
}

impl<T: ByteChannels> Image for PlanarFrame<T> {
    type Pixel = T;

    closed spec fn spec_width(&self) -> nat {
        self.width as nat
    }

    closed spec fn spec_height(&self) -> nat {
        self.height as nat
    }

    open spec fn readable(&self, x: int, y: int) -> bool {
        true
    }

    open spec fn yields(&self, x: int, y: int, p: T) -> bool {
        p == self.pixel_at(x, y)
    }

    fn width(&self) -> (w: usize) {
        self.width
    }

    fn height(&self) -> (h: usize) {
        self.height
    }

    fn pixel(&self, x: usize, y: usize) -> (p: T) {
        let bytes = bytes_as_slice(&self.bytes);
        proof {
            use_type_invariant(self);
            let len = bytes.len();
            let n = T::spec_width() as int;
            T::lemma_width_positive();
            lemma_coordinate_place(x as int, y as int, self.width as int, self.height as int);
            lemma_planar_offset(n, y * self.width + x, n - 1, self.width * self.height);
            assert(y * self.width >= 0) by (nonlinear_arith);
            assert(self.width * self.height <= self.width * self.height * n) by (nonlinear_arith)
                requires
                    n >= 1,
            ;
        }
        T::decode(bytes, y * self.width + x, self.width * self.height)
    }
}

} // verus!
