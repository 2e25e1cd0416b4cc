//! Chunky frames over any byte source.

use crate::buffer::{Buffer, BufferMut};
use crate::error::{buffer_len, LengthMismatch};
use crate::formats::AsBytes;
use crate::image::{readable_everywhere, Image};
use crate::layout::{
    chunky_pixel, fill_chunky, is_chunky, layout_len, lemma_chunky_offset, lemma_chunky_pixel,
    lemma_coordinate_place,
};
use core::marker::PhantomData;
use vstd::prelude::*;

verus! {

/// A [chunky frame](https://en.wikipedia.org/wiki/Packed_pixel).
///
/// In this format, each pixel is stored contiguously, and the entire image is
/// stored in row-major order. For example, this means that an RGBA image would
/// store the RGBA values of the top-left pixel, then each of the RGBA values of
/// the pixel immediately to the right, and so on, moving down through each row.
///
/// A frame is well-formed when its byte source holds
/// `width * height * channel_width` bytes. Every constructor makes a
/// well-formed frame, and a well-formed frame can tell all of its pixels.
#[derive(Debug)]
pub struct Chunky<T, V> {
    bytes: V,
    width: usize,
    height: usize,
    pixel: PhantomData<T>,
}

impl<T: AsBytes, V: Buffer> Chunky<T, V> {
    /// The byte source of the frame.
    pub closed spec fn source(&self) -> V {
        self.bytes
    }

    /// The bytes that the frame's byte source holds.
    pub open spec fn data(&self) -> Seq<u8> {
        self.source().contents()
    }

    /// The pixel at the given coordinates: what the bytes at
    /// `channel_width * (y * width + x)` decode to.
    pub open spec fn pixel_at(&self, x: int, y: int) -> T {
        chunky_pixel::<T>(self.data(), self.spec_width(), x, y)
    }

    /// Whether the byte source has the length that the size of the frame and
    /// its pixel format ask for.
    pub open spec fn well_formed(&self) -> bool {
        self.data().len() == self.spec_width() * self.spec_height() * T::spec_width()
    }

    /// Creates a new frame backed by the provided byte source.
    ///
    /// Fails if the length of the buffer is not
    /// `width * height * bytes_per_pixel`.
    pub fn from_bytes(width: usize, height: usize, bytes: V) -> (result: Result<
        Self,
        LengthMismatch,
    >)
        ensures
            match result {
                Ok(frame) => {
                    &&& bytes.contents().len() == width * height * T::spec_width()
                    &&& frame.spec_width() == width
                    &&& frame.spec_height() == height
                    &&& frame.source() == bytes
                    &&& frame.well_formed()
                },
                Err(error) => {
                    &&& bytes.contents().len() != width * height * T::spec_width()
                    &&& error == (LengthMismatch {
                        width,
                        height,
                        channel_width: T::spec_width() as usize,
                        actual: bytes.contents().len() as usize,
                    })
                },
            },
    {
        let actual = bytes.as_slice().len();
        let channel_width = T::width();
        if buffer_len(width, height, channel_width) == Some(actual) {
            Ok(Self { bytes, width, height, pixel: PhantomData })
        } else {
            Err(LengthMismatch { width, height, channel_width, actual })
        }
    }

    /// Returns a read-only view into the frame's byte source.
    pub fn bytes(&self) -> (bytes: &V)
        ensures
            *bytes == self.source(),
    {
        &self.bytes
    }

    /// Recovers the byte source.
    pub fn into_bytes(self) -> (bytes: V)
        ensures
            bytes == self.source(),
    {
        self.bytes
    }

    /// Returns a mutable view into the frame's byte source.
    ///
    /// The frame keeps its size, and holds afterwards what was written to the
    /// view.
    pub fn bytes_mut(&mut self) -> (bytes: &mut [u8]) where V: BufferMut
        ensures
            bytes@ == old(self).data(),
            final(self).data() == final(bytes)@,
            final(self).spec_width() == old(self).spec_width(),
            final(self).spec_height() == old(self).spec_height(),
    {
        self.bytes.as_mut_slice()
    }

    /// Set the frame's contents to that of the given frame.
    ///
    /// The width and height of the given frame must be exactly the same as
    /// the width and height of the chunky frame.
    pub fn copy_from<U>(&mut self, frame: U) where U: Image<Pixel = T> + Sync, V: BufferMut
        requires
            old(self).well_formed(),
            frame.spec_width() == old(self).spec_width(),
            frame.spec_height() == old(self).spec_height(),
            readable_everywhere(&frame),
        ensures
            final(self).spec_width() == old(self).spec_width(),
            final(self).spec_height() == old(self).spec_height(),
            final(self).well_formed(),
            is_chunky(&frame, final(self).data()),
            forall|x: int, y: int|
                0 <= x < frame.spec_width() && 0 <= y < frame.spec_height() ==> frame.yields(
                    x,
                    y,
                    #[trigger] final(self).pixel_at(x, y),
                ),
    {
        fill_chunky(self.bytes.as_mut_slice(), &frame);
        proof {
            assert forall|x: int, y: int|
                0 <= x < frame.spec_width() && 0 <= y < frame.spec_height() implies frame.yields(
                x,
                y,
                #[trigger] self.pixel_at(x, y),
            ) by {
                lemma_chunky_pixel(&frame, self.data(), x, y);
            }
        }
    }
}

impl<T: AsBytes> Chunky<T, Vec<u8>> {
    /// Creates a new frame using the given frame to fill the buffer.
    /// It is guaranteed that the pixel of the given frame will be asked for
    /// **exactly once** for each of the coordinates in the range
    /// `[0, width) * [0, height)`.
    pub fn new<U>(frame: U) -> (chunky: Self) where U: Image<Pixel = T> + Sync
        requires
            layout_len(&frame) <= usize::MAX,
            readable_everywhere(&frame),
        ensures
            chunky.spec_width() == frame.spec_width(),
            chunky.spec_height() == frame.spec_height(),
            chunky.well_formed(),
            is_chunky(&frame, chunky.data()),
            forall|x: int, y: int|
                0 <= x < frame.spec_width() && 0 <= y < frame.spec_height() ==> frame.yields(
                    x,
                    y,
                    #[trigger] chunky.pixel_at(x, y),
                ),
    {
        let (width, height) = (frame.width(), frame.height());
        let n = T::width();
        proof {
            T::lemma_width_positive();
            assert(width * height <= width * height * n) by (nonlinear_arith)
                requires
                    n >= 1,
            ;
        }
        let bytes = vec![0u8; width * height * n];
        let mut chunky = Self { bytes, width, height, pixel: PhantomData };
        chunky.copy_from(frame);
        chunky
    }
}

impl<T: AsBytes, V: Buffer + Clone> Clone for Chunky<T, V> {
    /// A frame of the same size over a clone of the byte source.
    fn clone(&self) -> (copy: Self)
        ensures
            copy.spec_width() == self.spec_width(),
            copy.spec_height() == self.spec_height(),
            call_ensures(V::clone, (&self.source(),), copy.source()),
    {
        Self {
            bytes: self.bytes.clone(),
            width: self.width,
            height: self.height,
            pixel: PhantomData,
        }
    }
}

impl<T: AsBytes, V: Buffer> Image for Chunky<T, V> {
    type Pixel = T;

    closed spec fn spec_width(&self) -> nat {
        self.width as nat
    }

    closed spec fn spec_height(&self) -> nat {
        self.height as nat
    }

    open spec fn readable(&self, x: int, y: int) -> bool {
        self.well_formed()
    }

    open spec fn yields(&self, x: int, y: int, p: T) -> bool {
        p == self.pixel_at(x, y)
    }

    fn width(&self) -> (w: usize) {
        self.width
    }

    fn height(&self) -> (h: usize) {
        self.height
    }

    fn pixel(&self, x: usize, y: usize) -> (p: T) {
        let bytes = self.bytes.as_slice();
        let n = T::width();
        proof {
            let len = bytes.len();
            T::lemma_width_positive();
            lemma_coordinate_place(x as int, y as int, self.width as int, self.height as int);
            lemma_chunky_offset(
                n as int,
                y * self.width + x,
                n - 1,
                self.width * self.height,
            );
            assert(y * self.width >= 0) by (nonlinear_arith);
            assert(y * self.width + x <= n * (y * self.width + x)) by (nonlinear_arith)
                requires
                    n >= 1,
                    y * self.width + x >= 0,
            ;
        }
        T::decode(bytes, n * (y * self.width + x), 1)
    }
}

} // verus!
