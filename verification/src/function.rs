//! Frames backed by a function.

use crate::image::Image;
use vstd::prelude::*;

verus! {

/// Whether `p` is a value that `func` may give for the coordinates `(x, y)`.
pub open spec fn may_yield<T, F: Fn(usize, usize) -> T>(func: F, x: int, y: int, p: T) -> bool {
    call_ensures(func, (x as usize, y as usize), p)
}

/// A frame backed by a function.
///
/// This might be useful if you just wanted to hack together a fractal renderer,
/// or wanted to wrap an image coming from a C library. Using `move` closures
/// with this struct essentially lets you build anonymous frames.
///
/// The frame can tell the pixel at a coordinate if the function accepts the
/// coordinate, and shows there what the function may give for it.
#[derive(Clone, Debug)]
#[verifier::reject_recursive_types(T)]
pub struct Function<T, F: Fn(usize, usize) -> T> {
    width: usize,
    height: usize,
    func: F,
}

impl<T, F: Fn(usize, usize) -> T> Function<T, F> {
    /// The function that the frame was made with.
    pub closed spec fn func(&self) -> F {
        self.func
    }

    /// The frame of the given size that is backed by the given function.
    pub closed spec fn spec_new(width: usize, height: usize, func: F) -> Self {
        Self { width, height, func }
    }

    /// A frame has the size and the function that it was made with.
    pub proof fn lemma_spec_new(width: usize, height: usize, func: F)
        ensures
            Self::spec_new(width, height, func).spec_width() == width,
            Self::spec_new(width, height, func).spec_height() == height,
            Self::spec_new(width, height, func).func() == func,
    {
    }

    /// Creates a new frame.
    ///
    /// The frame can tell the pixels for whose coordinates the function may
    /// be called, and shows there what the function may give.
    pub fn new(width: usize, height: usize, func: F) -> (frame: Self)
        ensures
            frame == Self::spec_new(width, height, func),
            frame.spec_width() == width,
            frame.spec_height() == height,
            frame.func() == func,
            forall|x: int, y: int| #[trigger]
                frame.readable(x, y) <==> call_requires(func, (x as usize, y as usize)),
            forall|x: int, y: int, p: T| #[trigger]
                frame.yields(x, y, p) <==> may_yield(func, x, y, p),
    {
        Self { width, height, func }
    }
}

impl<T, F: Fn(usize, usize) -> T> Image for Function<T, F> {
    type Pixel = T;

    closed spec fn spec_width(&self) -> nat {
        self.width as nat
    }

    closed spec fn spec_height(&self) -> nat {
        self.height as nat
    }

    open spec fn readable(&self, x: int, y: int) -> bool {
        call_requires(self.func(), (x as usize, y as usize))
    }

    open spec fn yields(&self, x: int, y: int, p: T) -> bool {
        may_yield(self.func(), x, y, p)
    }

    fn width(&self) -> (w: usize) {
        self.width
    }

    fn height(&self) -> (h: usize) {
        self.height
    }

    fn pixel(&self, x: usize, y: usize) -> (p: T) {
        (self.func)(x, y)
    }
}

} // verus!
