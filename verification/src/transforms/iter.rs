//! Enumeration of the pixels of a frame.

use crate::image::{readable_everywhere, Image};
use crate::layout::{lemma_coordinate_place, lemma_place_splits};
use crate::parallel::par_map_range;
use vstd::prelude::*;

verus! {

/// Whether `entries` lists the pixels of a frame with their coordinates, each
/// exactly once, left to right and top to bottom.
pub open spec fn is_enumeration<T: Image>(
    frame: &T,
    entries: Seq<(usize, usize, T::Pixel)>,
) -> bool {
    let w = frame.spec_width() as int;
    &&& entries.len() == frame.spec_width() * frame.spec_height()
    &&& forall|i: int| 0 <= i < entries.len() ==> is_entry(frame, i, #[trigger] entries[i])
}

/// Whether `entry` holds the coordinates of place `i` and a pixel that the
/// frame may show there.
pub open spec fn is_entry<T: Image>(frame: &T, i: int, entry: (usize, usize, T::Pixel)) -> bool {
    let w = frame.spec_width() as int;
    &&& entry.0 == i % w
    &&& entry.1 == i / w
    &&& frame.yields(i % w, i / w, entry.2)
}

/// An enumeration holds every coordinate of the frame exactly once: the entry
/// for `(x, y)` stands at place `y * width + x`, and nowhere else.
pub proof fn lemma_enumeration_covers<T: Image>(
    frame: &T,
    entries: Seq<(usize, usize, T::Pixel)>,
    x: int,
    y: int,
)
    requires
        is_enumeration(frame, entries),
        0 <= x < frame.spec_width(),
        0 <= y < frame.spec_height(),
    ensures
        0 <= y * frame.spec_width() + x < entries.len(),
        entries[y * frame.spec_width() + x].0 == x,
        entries[y * frame.spec_width() + x].1 == y,
        frame.yields(x, y, entries[y * frame.spec_width() + x].2),
        forall|i: int|
            0 <= i < entries.len() && (#[trigger] entries[i]).0 == x && entries[i].1 == y ==> i == y
                * frame.spec_width() + x,
{
    let w = frame.spec_width() as int;
    lemma_coordinate_place(x, y, w, frame.spec_height() as int);
    assert(is_entry(frame, y * w + x, entries[y * w + x]));
    assert forall|i: int|
        0 <= i < entries.len() && (#[trigger] entries[i]).0 == x && entries[i].1 == y implies i == y
        * w + x by {
        assert(is_entry(frame, i, entries[i]));
        lemma_place_splits(i, w, frame.spec_height() as int);
    }
}

/// Reads the pixel that comes at place `i`, with its coordinates.
fn entry<T: Image>(frame: &T, width: usize, i: usize) -> (out: (usize, usize, T::Pixel))
    requires
        width == frame.spec_width(),
        i < frame.spec_width() * frame.spec_height(),
        readable_everywhere(frame),
    ensures
        is_entry(frame, i as int, out),
{
    proof {
        if width == 0 {
            assert(frame.spec_width() * frame.spec_height() == 0) by (nonlinear_arith)
                requires
                    frame.spec_width() == 0,
            ;
        }
        lemma_place_splits(i as int, width as int, frame.spec_height() as int);
    }
    let (x, y) = (i % width, i / width);
    (x, y, frame.pixel(x, y))
}

/// Lists the pixels of a frame sequentially: each pixel exactly once, with
/// its coordinates, left to right and top to bottom.
pub fn iter<T: Image>(frame: &T) -> (out: Vec<(usize, usize, T::Pixel)>)
    requires
        frame.spec_width() * frame.spec_height() <= usize::MAX,
        readable_everywhere(frame),
    ensures
        is_enumeration(frame, out@),
{
    let (w, h) = (frame.width(), frame.height());
    let n = w * h;
    let mut out = Vec::with_capacity(n);
    let mut i: usize = 0;
    while i < n
        invariant
            w == frame.spec_width(),
            n == frame.spec_width() * frame.spec_height(),
            readable_everywhere(frame),
            i <= n,
            out@.len() == i,
            forall|j: int| 0 <= j < i ==> is_entry(frame, j, #[trigger] out@[j]),
        decreases n - i,
    {
        out.push(entry(frame, w, i));
        i += 1;
    }
    out
}

/// Lists the pixels of a frame in parallel: each pixel exactly once, with its
/// coordinates. The pixels are read by a pool of workers, in no particular
/// order, and listed left to right and top to bottom.
pub fn par_iter<T>(frame: &T) -> (out: Vec<(usize, usize, T::Pixel)>) where
    T: Image + Sync,
    T::Pixel: Send,

    requires
        frame.spec_width() * frame.spec_height() <= usize::MAX,
        readable_everywhere(frame),
    ensures
        is_enumeration(frame, out@),
{
    let (w, h) = (frame.width(), frame.height());
    let n = w * h;
    let read = |i: usize| -> (out: (usize, usize, T::Pixel))
        requires
            i < n,
        ensures
            is_entry(frame, i as int, out),
        { entry(frame, w, i) };
    par_map_range(n, read)
}

} // verus!
