//! Padding.

use crate::image::Image;
use vstd::prelude::*;

verus! {

/// Uses the given pixel to pad a frame.
///
/// The result will have a width of `left + frame.width + right` and a height of
/// `top + frame.height + bottom`, both of which have to fit in a `usize`.
pub fn pad<T: Image>(
    top: usize,
    bottom: usize,
    left: usize,
    right: usize,
    padding: T::Pixel,
    frame: T,
) -> (view: Pad<T>) where T::Pixel: Copy
    requires
        left + frame.spec_width() + right <= usize::MAX,
        top + frame.spec_height() + bottom <= usize::MAX,
    ensures
        view.top() == top,
        view.bottom() == bottom,
        view.left() == left,
        view.right() == right,
        view.padding() == padding,
        view.source() == frame,
        view.spec_width() == left + frame.spec_width() + right,
        view.spec_height() == top + frame.spec_height() + bottom,
        forall|x: int, y: int| #[trigger]
            view.readable(x, y) <==> (left <= x < left + frame.spec_width() && top <= y < top
                + frame.spec_height() ==> frame.readable(x - left, y - top)),
        forall|x: int, y: int, p: T::Pixel| #[trigger]
            view.yields(x, y, p) <==> (if left <= x < left + frame.spec_width() && top <= y < top
                + frame.spec_height() {
                frame.yields(x - left, y - top, p)
            } else {
                p == padding
            }),
{
    Pad { top, bottom, left, right, padding, frame }
}

/// A frame with a border of one pixel value around it.
///
/// The width and the height of a padded frame always fit in a `usize`.
pub struct Pad<T: Image> {
    top: usize,
    bottom: usize,
    left: usize,
    right: usize,
    padding: T::Pixel,
    frame: T,
}

impl<T: Image> Pad<T> {
    #[verifier::type_invariant]
    spec fn fits(self) -> bool {
        &&& self.left + self.frame.spec_width() + self.right <= usize::MAX
        &&& self.top + self.frame.spec_height() + self.bottom <= usize::MAX
    }

    /// The number of rows above the source.
    pub closed spec fn top(&self) -> usize {
        self.top
    }

    /// The number of rows below the source.
    pub closed spec fn bottom(&self) -> usize {
        self.bottom
    }

    /// The number of columns to the left of the source.
    pub closed spec fn left(&self) -> usize {
        self.left
    }

    /// The number of columns to the right of the source.
    pub closed spec fn right(&self) -> usize {
        self.right
    }

    /// The pixel that the border is made of.
    pub closed spec fn padding(&self) -> T::Pixel {
        self.padding
    }

    /// The frame that is padded.
    pub closed spec fn source(&self) -> T {
        self.frame
    }

    /// Whether the coordinates lie in the border, not over the source.
    pub open spec fn in_border(&self, x: int, y: int) -> bool {
        ||| x < self.left()
        ||| y < self.top()
        ||| x >= self.left() + self.source().spec_width()
        ||| y >= self.top() + self.source().spec_height()
    }
}

/// The pixel of a padded frame is the padding pixel to the left of, to the
/// right of, above and below the source, and over the source it is the pixel
/// of the source at `(x - left, y - top)`.
pub proof fn lemma_pad_pixel<T: Image>(view: Pad<T>, x: int, y: int, p: T::Pixel) where
    T::Pixel: Copy,

    ensures
        x < view.left() || y < view.top() || x >= view.left() + view.source().spec_width() || y
            >= view.top() + view.source().spec_height() ==> (view.yields(x, y, p) <==> p
            == view.padding()),
        view.left() <= x < view.left() + view.source().spec_width() && view.top() <= y
            < view.top() + view.source().spec_height() ==> (view.yields(x, y, p)
            <==> view.source().yields(x - view.left(), y - view.top(), p)),
{
}

impl<T: Image> Image for Pad<T> where T::Pixel: Copy {
    type Pixel = T::Pixel;

    open spec fn spec_width(&self) -> nat {
        (self.left() + self.source().spec_width() + self.right()) as nat
    }

    open spec fn spec_height(&self) -> nat {
        (self.top() + self.source().spec_height() + self.bottom()) as nat
    }

    open spec fn readable(&self, x: int, y: int) -> bool {
        !self.in_border(x, y) ==> self.source().readable(x - self.left(), y - self.top())
    }

    open spec fn yields(&self, x: int, y: int, p: T::Pixel) -> bool {
        if self.in_border(x, y) {
            p == self.padding()
        } else {
            self.source().yields(x - self.left(), y - self.top(), p)
        }
    }

    fn width(&self) -> (w: usize) {
        proof {
            use_type_invariant(self);
        }
        self.left + self.frame.width() + self.right
    }

    fn height(&self) -> (h: usize) {
        proof {
            use_type_invariant(self);
        }
        self.top + self.frame.height() + self.bottom
    }

    fn pixel(&self, x: usize, y: usize) -> (p: T::Pixel) {
        if x < self.left || y < self.top {
            self.padding
        } else {
            let (x, y) = (x - self.left, y - self.top);
            if x < self.frame.width() && y < self.frame.height() {
                self.frame.pixel(x, y)
            } else {
                self.padding
            }
        }
    }
}

} // verus!
