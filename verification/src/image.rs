//! The frame interface.

use vstd::prelude::*;

verus! {

/// An `Image` is just a still image.
///
/// Frames are made up of a number of pixels arranged in a dense and finite 2D
/// grid. The pixels can be any type, but are usually RGBA or YUV values. A
/// frame is usually backed by either a (potentially foreign) buffer or by
/// another frame, which it transforms in some way, such as by cropping or
/// padding it.
///
/// The model of a frame is its width, its height, and for every coordinate
/// the pixels that the frame may show there. A frame backed by a buffer shows
/// exactly one pixel at each coordinate; a frame backed by a function shows
/// what the function may give. None of these changes while the frame lives.
pub trait Image {
    /// The kind of pixel that the frame is made of.
    type Pixel;

    /// The width of the frame in pixels.
    spec fn spec_width(&self) -> nat;

    /// The height of the frame in pixels.
    spec fn spec_height(&self) -> nat;

    /// Whether the frame can tell the pixel at the given coordinates.
    ///
    /// A buffer of the right length can tell all of them. A frame that
    /// transforms another can tell those for which the other frame can tell
    /// the pixel that is needed.
    spec fn readable(&self, x: int, y: int) -> bool;

    /// Whether `p` is a pixel that the frame may show at the given
    /// zero-indexed coordinates.
    spec fn yields(&self, x: int, y: int, p: Self::Pixel) -> bool;

    /// The width of the frame in pixels.
    fn width(&self) -> (w: usize)
        ensures
            w == self.spec_width(),
    ;

    /// The height of the frame in pixels.
    fn height(&self) -> (h: usize)
        ensures
            h == self.spec_height(),
    ;

    /// Gets the pixel at the specified zero-indexed coordinates.
    ///
    /// The caller must ensure that `x < width` and `y < height`, and that the
    /// frame is able to tell the pixel there.
    fn pixel(&self, x: usize, y: usize) -> (p: Self::Pixel)
        requires
            x < self.spec_width(),
            y < self.spec_height(),
            self.readable(x as int, y as int),
        ensures
            self.yields(x as int, y as int, p),
    ;
}

/// Whether the frame can tell the pixel at every coordinate within its bounds.
pub open spec fn readable_everywhere<F: Image>(frame: &F) -> bool {
    forall|x: int, y: int|
        0 <= x < frame.spec_width() && 0 <= y < frame.spec_height() ==> #[trigger] frame.readable(
            x,
            y,
        )
}

/// Whether the frame shows at most one pixel at every coordinate.
pub open spec fn deterministic<F: Image>(frame: &F) -> bool {
    forall|x: int, y: int, p: F::Pixel, q: F::Pixel|
        #[trigger] frame.yields(x, y, p) && #[trigger] frame.yields(x, y, q) ==> p == q
}

/// Gets the pixel at the specified coordinates, or nothing where they lie
/// outside the frame.
pub fn pixel_checked<F: Image>(frame: &F, x: usize, y: usize) -> (out: Option<F::Pixel>)
    requires
        x < frame.spec_width() && y < frame.spec_height() ==> frame.readable(x as int, y as int),
    ensures
        match out {
            Some(p) => x < frame.spec_width() && y < frame.spec_height() && frame.yields(
                x as int,
                y as int,
                p,
            ),
            None => x >= frame.spec_width() || y >= frame.spec_height(),
        },
{
    if x < frame.width() && y < frame.height() {
        Some(frame.pixel(x, y))
    } else {
        None
    }
}

impl<'a, T: Image> Image for &'a T {
    type Pixel = T::Pixel;

    open spec fn spec_width(&self) -> nat {
        (**self).spec_width()
    }

    open spec fn spec_height(&self) -> nat {
        (**self).spec_height()
    }

    open spec fn readable(&self, x: int, y: int) -> bool {
        (**self).readable(x, y)
    }

    open spec fn yields(&self, x: int, y: int, p: T::Pixel) -> bool {
        (**self).yields(x, y, p)
    }

    fn width(&self) -> (w: usize) {
        (**self).width()
    }

    fn height(&self) -> (h: usize) {
        (**self).height()
    }

    fn pixel(&self, x: usize, y: usize) -> (p: T::Pixel) {
        (**self).pixel(x, y)
    }
}

impl<T: Image> Image for Box<T> {
    type Pixel = T::Pixel;

    open spec fn spec_width(&self) -> nat {
        (**self).spec_width()
    }

    open spec fn spec_height(&self) -> nat {
        (**self).spec_height()
    }

    open spec fn readable(&self, x: int, y: int) -> bool {
        (**self).readable(x, y)
    }

    open spec fn yields(&self, x: int, y: int, p: T::Pixel) -> bool {
        (**self).yields(x, y, p)
    }

    fn width(&self) -> (w: usize) {
        (**self).width()
    }

    fn height(&self) -> (h: usize) {
        (**self).height()
    }

    fn pixel(&self, x: usize, y: usize) -> (p: T::Pixel) {
        (**self).pixel(x, y)
    }
}

impl<T: Image> Image for std::rc::Rc<T> {
    type Pixel = T::Pixel;

    open spec fn spec_width(&self) -> nat {
        (**self).spec_width()
    }

    open spec fn spec_height(&self) -> nat {
        (**self).spec_height()
    }

    open spec fn readable(&self, x: int, y: int) -> bool {
        (**self).readable(x, y)
    }

    open spec fn yields(&self, x: int, y: int, p: T::Pixel) -> bool {
        (**self).yields(x, y, p)
    }

    fn width(&self) -> (w: usize) {
        (**self).width()
    }

    fn height(&self) -> (h: usize) {
        (**self).height()
    }

    fn pixel(&self, x: usize, y: usize) -> (p: T::Pixel) {
        (**self).pixel(x, y)
    }
}

impl<T: Image> Image for std::sync::Arc<T> {
    type Pixel = T::Pixel;

    open spec fn spec_width(&self) -> nat {
        (**self).spec_width()
    }

    open spec fn spec_height(&self) -> nat {
        (**self).spec_height()
    }

    open spec fn readable(&self, x: int, y: int) -> bool {
        (**self).readable(x, y)
    }

    open spec fn yields(&self, x: int, y: int, p: T::Pixel) -> bool {
        (**self).yields(x, y, p)
    }

    fn width(&self) -> (w: usize) {
        (**self).width()
    }

    fn height(&self) -> (h: usize) {
        (**self).height()
    }

    fn pixel(&self, x: usize, y: usize) -> (p: T::Pixel) {
        (**self).pixel(x, y)
    }
}

} // verus!
