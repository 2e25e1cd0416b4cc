//! Pointwise mapping.

use crate::image::Image;
use vstd::prelude::*;

verus! {

/// Whether `q` is a value that `map` may give for the pixel `p`.
pub open spec fn may_map<P, U, F: Fn(P) -> U>(map: F, p: P, q: U) -> bool {
    call_ensures(map, (p,), q)
}

/// Constructs a pointwise mapping over a frame.
///
/// You can use this to, for example, convert between pixel formats, or invert
/// all the colors.
pub fn map<T: Image, F: Fn(T::Pixel) -> U, U>(mapping: F, frame: T) -> (view: Mapped<T, F, U>)
    ensures
        view.mapping() == mapping,
        view.source() == frame,
        view.spec_width() == frame.spec_width(),
        view.spec_height() == frame.spec_height(),
        forall|x: int, y: int| #[trigger]
            view.readable(x, y) <==> {
                &&& frame.readable(x, y)
                &&& forall|p: T::Pixel| #[trigger]
                    frame.yields(x, y, p) ==> call_requires(mapping, (p,))
            },
        forall|x: int, y: int, q: U| #[trigger]
            view.yields(x, y, q) <==> exists|p: T::Pixel| #[trigger]
                frame.yields(x, y, p) && may_map(mapping, p, q),
{
    Mapped { map: mapping, frame }
}

/// A frame whose pixels are those of another frame, each put through a
/// function.
///
/// The frame can tell the pixel at a coordinate if the source can, and the
/// function accepts every pixel that the source may show there.
#[verifier::reject_recursive_types(U)]
pub struct Mapped<T, F, U> where T: Image, F: Fn(T::Pixel) -> U {
    map: F,
    frame: T,
}

impl<T, F, U> Mapped<T, F, U> where T: Image, F: Fn(T::Pixel) -> U {
    /// The function that the pixels are put through.
    pub closed spec fn mapping(&self) -> F {
        self.map
    }

    /// The frame that is mapped.
    pub closed spec fn source(&self) -> T {
        self.frame
    }
}

/// The pixel of a mapped frame at `(x, y)` is what the function gives for the
/// pixel of the source at `(x, y)`.
pub proof fn lemma_map_pixel<T: Image, F: Fn(T::Pixel) -> U, U>(
    view: Mapped<T, F, U>,
    x: int,
    y: int,
    q: U,
)
    ensures
        view.yields(x, y, q) <==> exists|p: T::Pixel| #[trigger]
            view.source().yields(x, y, p) && may_map(view.mapping(), p, q),
{
}

impl<T, F, U> Image for Mapped<T, F, U> where T: Image, F: Fn(T::Pixel) -> U {
    type Pixel = U;

    open spec fn spec_width(&self) -> nat {
        self.source().spec_width()
    }

    open spec fn spec_height(&self) -> nat {
        self.source().spec_height()
    }

    open spec fn readable(&self, x: int, y: int) -> bool {
        &&& self.source().readable(x, y)
        &&& forall|p: T::Pixel| #[trigger]
            self.source().yields(x, y, p) ==> call_requires(self.mapping(), (p,))
    }

    open spec fn yields(&self, x: int, y: int, q: U) -> bool {
        exists|p: T::Pixel| #[trigger]
            self.source().yields(x, y, p) && may_map(self.mapping(), p, q)
    }

    fn width(&self) -> (w: usize) {
        self.frame.width()
    }

    fn height(&self) -> (h: usize) {
        self.frame.height()
    }

    fn pixel(&self, x: usize, y: usize) -> (q: U) {
        let p = self.frame.pixel(x, y);
        let ghost seen = p;
        let q = (self.map)(p);
        assert(self.source().yields(x as int, y as int, seen) && may_map(self.mapping(), seen, q));
        q
    }
}

} // verus!
