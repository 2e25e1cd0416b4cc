//! Chunky frames in shared buffers.

use crate::buffer::{bytes_as_slice, bytes_clone, bytes_contents, bytes_from_vec};
use crate::error::{buffer_len, LengthMismatch};
use crate::function::{may_yield, Function};
use crate::image::Image;
use crate::layout::{
    chunky_pixel, fill_chunky, is_chunky, lemma_chunky_offset, lemma_chunky_pixel,
    lemma_coordinate_place,
};
use crate::video::ByteChannels;
use bytes::Bytes;
use core::marker::PhantomData;
use vstd::prelude::*;

verus! {

/// A [chunky frame](https://en.wikipedia.org/wiki/Packed_pixel).
///
/// In this format, each pixel is stored contiguously, and the entire image is
/// stored in row-major order. For example, this means that an RGBA image would
/// store the RGBA values of the top-left pixel, then each of the RGBA values of
/// the pixel immediately to the right, and so on, moving down through each row.
///
/// The buffer of a frame always has `width * height * channel_width` bytes.
#[derive(Debug)]
pub struct ChunkyFrame<T: ByteChannels> {
    bytes: Bytes,
    width: usize,
    height: usize,
    pixel: PhantomData<T>,
}

impl<T: ByteChannels> ChunkyFrame<T> {
    #[verifier::type_invariant]
    spec fn well_formed(self) -> bool {
        bytes_contents(self.bytes).len() == self.width * self.height * T::spec_width()
    }

    /// The bytes of the frame's buffer.
    pub closed spec fn data(&self) -> Seq<u8> {
        bytes_contents(self.bytes)
    }

    /// The pixel at the given coordinates: what the bytes at
    /// `channel_width * (y * width + x)` decode to.
    pub open spec fn pixel_at(&self, x: int, y: int) -> T {
        chunky_pixel::<T>(self.data(), self.spec_width(), x, y)
    }

    /// Creates a new frame backed by the provided byte source.
    ///
    /// Fails if the length of the buffer is not
    /// `width * height * bytes_per_pixel`.
    pub fn from_bytes(width: usize, height: usize, bytes: Bytes) -> (result: Result<
        Self,
        LengthMismatch,
    >)
        ensures
            match result {
                Ok(frame) => {
                    &&& bytes_contents(bytes).len() == width * height * T::spec_width()
                    &&& frame.spec_width() == width
                    &&& frame.spec_height() == height
                    &&& frame.data() == bytes_contents(bytes)
                },
                Err(error) => {
                    &&& bytes_contents(bytes).len() != width * height * T::spec_width()
                    &&& error == (LengthMismatch {
                        width,
                        height,
                        channel_width: T::spec_width() as usize,
                        actual: bytes_contents(bytes).len() as usize,
                    })
                },
            },
    {
        let actual = bytes_as_slice(&bytes).len();
        let channel_width = T::width();
        if buffer_len(width, height, channel_width) == Some(actual) {
            Ok(Self { bytes, width, height, pixel: PhantomData })
        } else {
            Err(LengthMismatch { width, height, channel_width, actual })
        }
    }

    /// Returns a read-only view into the frame's byte source.
    ///
    /// This function is not as slow as you'd expect, because `Bytes` is
    /// actually reference-counted.
    pub fn bytes(&self) -> (bytes: Bytes)
        ensures
            bytes_contents(bytes) == self.data(),
            self.data().len() == self.spec_width() * self.spec_height() * T::spec_width(),
    {
        proof {
            use_type_invariant(self);
        }
        bytes_clone(&self.bytes)
    }

    /// Creates a new frame using the given function to fill the buffer.
    /// It is guaranteed that the mapping will be called **exactly once** for
    /// each of the integers in the range `[0, width) * [0, height)`.
    pub fn new<F: Fn(usize, usize) -> T + Sync>(width: usize, height: usize, map: F) -> (frame:
        Self)
        requires
            width * height * T::spec_width() <= usize::MAX,
            forall|x: usize, y: usize| x < width && y < height ==> call_requires(map, (x, y)),
        ensures
            frame.spec_width() == width,
            frame.spec_height() == height,
            is_chunky(&Function::spec_new(width, height, map), frame.data()),
            forall|x: int, y: int|
                0 <= x < width && 0 <= y < height ==> may_yield(
                    map,
                    x,
                    y,
                    #[trigger] frame.pixel_at(x, y),
                ),
    {
        let source = Function::new(width, height, map);
        let n = T::width();
        proof {
            T::lemma_width_positive();
            assert(width * height <= width * height * n) by (nonlinear_arith)
                requires
                    n >= 1,
            ;
        }
        let mut bytes = vec![0u8; width * height * n];
        fill_chunky(bytes.as_mut_slice(), &source);
        let frame = Self { bytes: bytes_from_vec(bytes), width, height, pixel: PhantomData };
        proof {
            assert forall|x: int, y: int| 0 <= x < width && 0 <= y < height implies may_yield(
                map,
                x,
                y,
                #[trigger] frame.pixel_at(x, y),
            ) by {
                lemma_chunky_pixel(&source, frame.data(), x, y);
            }
        }
        frame
    }
}

impl<T: ByteChannels> Clone for ChunkyFrame<T> {
    /// A second handle on the same buffer.
    fn clone(&self) -> (copy: Self)
        ensures
            copy.spec_width() == self.spec_width(),
            copy.spec_height() == self.spec_height(),
            copy.data() == self.data(),
    {
        proof {
            use_type_invariant(self);
        }
        Self {
            bytes: bytes_clone(&self.bytes),
            width: self.width,
            height: self.height,
            pixel: PhantomData,
        }
    }
}

impl<T: ByteChannels> Image for ChunkyFrame<T> {
    type Pixel = T;

    closed spec fn spec_width(&self) -> nat {
        self.width as nat
    }

    closed spec fn spec_height(&self) -> nat {
        self.height as nat
    }

    open spec fn readable(&self, x: int, y: int) -> bool {
        true
    }

    open spec fn yields(&self, x: int, y: int, p: T) -> bool {
        p == self.pixel_at(x, y)
    }

    fn width(&self) -> (w: usize) {
        self.width
    }

    fn height(&self) -> (h: usize) {
        self.height
    }

    fn pixel(&self, x: usize, y: usize) -> (p: T) {
        let bytes = bytes_as_slice(&self.bytes);
        let n = T::width();
        proof {
            use_type_invariant(self);
            let len = bytes.len();
            T::lemma_width_positive();
            lemma_coordinate_place(x as int, y as int, self.width as int, self.height as int);
            lemma_chunky_offset(
                n as int,
                y * self.width + x,
                n - 1,
                self.width * self.height,
            );
            lemma_chunky_offset(n as int, y * self.width + x, 0, self.width * self.height);
            assert(y * self.width >= 0) by (nonlinear_arith);
            assert(y * self.width + x <= n * (y * self.width + x)) by (nonlinear_arith)
                requires
                    n >= 1,
                    y * self.width + x >= 0,
            ;
        }
        T::decode(bytes, n * (y * self.width + x), 1)
    }
}

} // verus!
