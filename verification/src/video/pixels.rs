//! The pixels of a frame as a list.

use crate::image::{readable_everywhere, Image};
use crate::layout::{lemma_place_splits, yields_at};
use crate::parallel::par_map_range;
use vstd::prelude::*;

verus! {

/// Whether `list` holds the pixels of a frame, each exactly once, left to
/// right and top to bottom.
pub open spec fn lists_pixels<T: Image>(frame: &T, list: Seq<T::Pixel>) -> bool {
    &&& list.len() == frame.spec_width() * frame.spec_height()
    &&& forall|i: int| 0 <= i < list.len() ==> yields_at(frame, i, #[trigger] list[i])
}

/// Lists the pixels of a frame in parallel: each pixel exactly once. The
/// pixels are read by a pool of workers, in no particular order, and listed
/// left to right and top to bottom.
pub fn pixels<T>(frame: &T) -> (out: Vec<T::Pixel>) where T: Image + Sync, T::Pixel: Send
    requires
        frame.spec_width() * frame.spec_height() <= usize::MAX,
        readable_everywhere(frame),
    ensures
        lists_pixels(frame, out@),
{
    let (w, h) = (frame.width(), frame.height());
    let n = w * h;
    let read = |i: usize| -> (out: T::Pixel)
        requires
            i < n,
        ensures
            yields_at(frame, i as int, out),
        {
            proof {
                if w == 0 {
                    assert(w * h == 0) by (nonlinear_arith)
                        requires
                            w == 0,
                    ;
                }
                lemma_place_splits(i as int, w as int, h as int);
            }
            frame.pixel(i % w, i / w)
        };
    par_map_range(n, read)
}

} // verus!
