//! Cropping.

use crate::image::Image;
use vstd::prelude::*;

verus! {

/// Crops the given frame to the given rectangle.
///
/// The rectangle is not held against the size of the frame here: the result
/// can tell the pixels of the rectangle that lie within the frame.
pub fn crop<T: Image>(start: (usize, usize), size: (usize, usize), frame: T) -> (view: Crop<T>)
    ensures
        view.start() == start,
        view.size() == size,
        view.source() == frame,
        view.spec_width() == size.0,
        view.spec_height() == size.1,
        forall|x: int, y: int| #[trigger]
            view.readable(x, y) <==> {
                &&& x + start.0 < frame.spec_width()
                &&& y + start.1 < frame.spec_height()
                &&& frame.readable(x + start.0, y + start.1)
            },
        forall|x: int, y: int, p: T::Pixel| #[trigger]
            view.yields(x, y, p) <==> frame.yields(x + start.0, y + start.1, p),
{
    Crop { start, size, frame }
}

/// A frame cropped to a rectangle.
pub struct Crop<T> {
    start: (usize, usize),
    size: (usize, usize),
    frame: T,
}

impl<T> Crop<T> {
    /// The coordinates in the source of the pixel at `(0, 0)`.
    pub closed spec fn start(&self) -> (usize, usize) {
        self.start
    }

    /// The width and height of the rectangle.
    pub closed spec fn size(&self) -> (usize, usize) {
        self.size
    }

    /// The frame that is cropped.
    pub closed spec fn source(&self) -> T {
        self.frame
    }
}

/// The pixel of a cropped frame at `(x, y)` is the pixel of the source at
/// `(x + x0, y + y0)`, where `(x0, y0)` is the start of the rectangle.
pub proof fn lemma_crop_pixel<T: Image>(view: Crop<T>, x: int, y: int, p: T::Pixel)
    ensures
        view.yields(x, y, p) <==> view.source().yields(
            x + view.start().0,
            y + view.start().1,
            p,
        ),
{
}

impl<T: Image> Image for Crop<T> {
    type Pixel = T::Pixel;

    open spec fn spec_width(&self) -> nat {
        self.size().0 as nat
    }

    open spec fn spec_height(&self) -> nat {
        self.size().1 as nat
    }

    open spec fn readable(&self, x: int, y: int) -> bool {
        &&& x + self.start().0 < self.source().spec_width()
        &&& y + self.start().1 < self.source().spec_height()
        &&& self.source().readable(x + self.start().0, y + self.start().1)
    }

    open spec fn yields(&self, x: int, y: int, p: T::Pixel) -> bool {
        self.source().yields(x + self.start().0, y + self.start().1, p)
    }

    fn width(&self) -> (w: usize) {
        self.size.0
    }

    fn height(&self) -> (h: usize) {
        self.size.1
    }

    fn pixel(&self, x: usize, y: usize) -> (p: T::Pixel) {
        let (x0, y0) = self.start;
        let (width, height) = (self.frame.width(), self.frame.height());
        self.frame.pixel(x + x0, y + y0)
    }
}

} // verus!
