//! Scaling.

use crate::image::Image;
use vstd::prelude::*;

verus! {

/// Scales a frame to the given size, using nearest-neighbor interpolation.
///
/// A frame that is scaled to a width or a height of zero has no pixels, and
/// a frame can tell the pixels of a scaled empty frame nowhere.
pub fn scale<T: Image>(width: usize, height: usize, frame: T) -> (view: Scale<T>)
    ensures
        view.target() == (width, height),
        view.source() == frame,
        view.spec_width() == width,
        view.spec_height() == height,
        forall|x: int, y: int| #[trigger]
            view.readable(x, y) <==> {
                &&& frame.spec_width() > 0
                &&& frame.spec_height() > 0
                &&& frame.readable(
                    nearest(x, frame.spec_width() as int, width as int),
                    nearest(y, frame.spec_height() as int, height as int),
                )
            },
        forall|x: int, y: int, p: T::Pixel| #[trigger]
            view.yields(x, y, p) <==> frame.yields(
                nearest(x, frame.spec_width() as int, width as int),
                nearest(y, frame.spec_height() as int, height as int),
                p,
            ),
{
    Scale { width, height, frame }
}

/// A frame scaled to another size.
pub struct Scale<T> {
    width: usize,
    height: usize,
    frame: T,
}

/// The coordinate in a source of `source` pixels that a coordinate in a target
/// of `target` pixels takes its pixel from: `at * source / target`, rounded
/// down.
pub open spec fn nearest(at: int, source: int, target: int) -> int {
    at * source / target
}

/// The nearest coordinate lies in the source, if the source is not empty.
pub proof fn lemma_nearest_in_source(at: int, source: int, target: int)
    requires
        0 <= at < target,
        0 < source,
    ensures
        0 <= nearest(at, source, target) < source,
{
    assert(0 <= at * source && at * source < source * target) by (nonlinear_arith)
        requires
            0 <= at < target,
            0 < source,
    ;
    assert(0 <= (at * source) / target < source) by (nonlinear_arith)
        requires
            0 <= at * source < source * target,
            0 < target,
    ;
}

/// Computes `nearest` without overflow, whatever the sizes.
fn nearest_coordinate(at: usize, source: usize, target: usize) -> (out: usize)
    requires
        at < target,
        0 < source,
    ensures
        out == nearest(at as int, source as int, target as int),
        out < source,
{
    proof {
        lemma_nearest_in_source(at as int, source as int, target as int);
        assert(at * source <= 0xffff_ffff_ffff_ffff * 0xffff_ffff_ffff_ffff) by (nonlinear_arith)
            requires
                0 <= at <= 0xffff_ffff_ffff_ffff,
                0 <= source <= 0xffff_ffff_ffff_ffff,
        ;
    }
    let product: u128 = (at as u128) * (source as u128);
    (product / (target as u128)) as usize
}

impl<T> Scale<T> {
    /// The width and height that the source is scaled to.
    pub closed spec fn target(&self) -> (usize, usize) {
        (self.width, self.height)
    }

    /// The frame that is scaled.
    pub closed spec fn source(&self) -> T {
        self.frame
    }
}

/// The pixel of a scaled frame at `(x, y)` is the pixel of the source at
/// `(x * source_width / width, y * source_height / height)`, both rounded
/// down, and that coordinate lies in the source.
pub proof fn lemma_scale_pixel<T: Image>(view: Scale<T>, x: int, y: int, p: T::Pixel)
    requires
        0 <= x < view.spec_width(),
        0 <= y < view.spec_height(),
    ensures
        view.yields(x, y, p) <==> view.source().yields(
            x * view.source().spec_width() / (view.spec_width() as int),
            y * view.source().spec_height() / (view.spec_height() as int),
            p,
        ),
        view.source().spec_width() > 0 ==> 0 <= x * view.source().spec_width() / (
        view.spec_width() as int) < view.source().spec_width(),
        view.source().spec_height() > 0 ==> 0 <= y * view.source().spec_height() / (
        view.spec_height() as int) < view.source().spec_height(),
{
    if view.source().spec_width() > 0 {
        lemma_nearest_in_source(x, view.source().spec_width() as int, view.spec_width() as int);
    }
    if view.source().spec_height() > 0 {
        lemma_nearest_in_source(y, view.source().spec_height() as int, view.spec_height() as int);
    }
}

impl<T: Image> Image for Scale<T> {
    type Pixel = T::Pixel;

    open spec fn spec_width(&self) -> nat {
        self.target().0 as nat
    }

    open spec fn spec_height(&self) -> nat {
        self.target().1 as nat
    }

    open spec fn readable(&self, x: int, y: int) -> bool {
        &&& self.source().spec_width() > 0
        &&& self.source().spec_height() > 0
        &&& self.source().readable(
            nearest(x, self.source().spec_width() as int, self.target().0 as int),
            nearest(y, self.source().spec_height() as int, self.target().1 as int),
        )
    }

    open spec fn yields(&self, x: int, y: int, p: T::Pixel) -> bool {
        self.source().yields(
            nearest(x, self.source().spec_width() as int, self.target().0 as int),
            nearest(y, self.source().spec_height() as int, self.target().1 as int),
            p,
        )
    }

    fn width(&self) -> (w: usize) {
        self.width
    }

    fn height(&self) -> (h: usize) {
        self.height
    }

    fn pixel(&self, x: usize, y: usize) -> (p: T::Pixel) {
        self.frame.pixel(
            nearest_coordinate(x, self.frame.width(), self.width),
            nearest_coordinate(y, self.frame.height(), self.height),
        )
    }
}

} // verus!
