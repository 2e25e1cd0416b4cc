//! The two byte layouts of a frame, and how a frame is written out in them.
//!
//! In the chunky layout the bytes of one pixel lie next to each other, and
//! the pixels follow each other in row-major order. In the planar layout
//! each channel forms a plane of its own, row-major, and the planes follow
//! each other in the order of the channels.

use crate::formats::{strided, AsBytes};
use crate::image::{deterministic, readable_everywhere, Image};
use crate::parallel::{par_write_chunks, ChunkWriter};
use vstd::arithmetic::div_mod::{
    lemma_fundamental_div_mod, lemma_fundamental_div_mod_converse, lemma_mod_bound,
};
use vstd::prelude::*;

verus! {

/// Whether `p` is a pixel that the frame may show at place `i`, counted in
/// row-major order.
pub open spec fn yields_at<F: Image>(frame: &F, i: int, p: F::Pixel) -> bool {
    frame.yields(i % (frame.spec_width() as int), i / (frame.spec_width() as int), p)
}

/// Whether `block` is the encoding of a pixel that the frame may show at
/// place `i`.
pub open spec fn encodes_pixel<F: Image>(frame: &F, i: int, block: Seq<u8>) -> bool where
    F::Pixel: AsBytes,
 {
    exists|p: F::Pixel| #[trigger] yields_at(frame, i, p) && block == p.encoded()
}

/// The number of bytes that a frame takes in either layout.
pub open spec fn layout_len<F: Image>(frame: &F) -> nat where F::Pixel: AsBytes {
    frame.spec_width() * frame.spec_height() * <F::Pixel as AsBytes>::spec_width()
}

/// The bytes in a chunky buffer of the pixel at place `i`: byte `c` of the
/// pixel is byte `n * i + c` of the buffer, where `n` is the channel width.
pub open spec fn chunky_block(data: Seq<u8>, n: nat, i: int) -> Seq<u8> {
    strided(data, n * i, 1, n)
}

/// The bytes in a planar buffer of `len` pixels of the pixel at place `i`:
/// byte `c` of the pixel is byte `c * len + i` of the buffer.
pub open spec fn planar_block(data: Seq<u8>, n: nat, len: nat, i: int) -> Seq<u8> {
    strided(data, i, len as int, n)
}

/// Whether `data` holds the frame in the chunky layout.
pub open spec fn is_chunky<F: Image>(frame: &F, data: Seq<u8>) -> bool where F::Pixel: AsBytes {
    let n = <F::Pixel as AsBytes>::spec_width();
    &&& data.len() == layout_len(frame)
    &&& forall|i: int|
        0 <= i < frame.spec_width() * frame.spec_height() ==> encodes_pixel(
            frame,
            i,
            #[trigger] chunky_block(data, n, i),
        )
}

/// Whether `data` holds the frame in the planar layout.
pub open spec fn is_planar<F: Image>(frame: &F, data: Seq<u8>) -> bool where F::Pixel: AsBytes {
    let n = <F::Pixel as AsBytes>::spec_width();
    let len = frame.spec_width() * frame.spec_height();
    &&& data.len() == layout_len(frame)
    &&& forall|i: int|
        0 <= i < len ==> encodes_pixel(frame, i, #[trigger] planar_block(data, n, len, i))
}

/// The pixel at `(x, y)` of a chunky buffer that holds rows of `width` pixels.
pub open spec fn chunky_pixel<T: AsBytes>(data: Seq<u8>, width: nat, x: int, y: int) -> T {
    T::decoded(chunky_block(data, T::spec_width(), y * width + x))
}

/// The pixel at `(x, y)` of a planar buffer whose planes hold `height` rows of
/// `width` bytes.
pub open spec fn planar_pixel<T: AsBytes>(data: Seq<u8>, width: nat, height: nat, x: int, y: int) -> T {
    T::decoded(planar_block(data, T::spec_width(), width * height, y * width + x))
}

/// A place below `w * h` splits into a column below `w` and a row below `h`.
pub proof fn lemma_place_splits(i: int, w: int, h: int)
    requires
        0 <= i < w * h,
        0 < w,
    ensures
        0 <= i % w < w,
        0 <= i / w < h,
        i == w * (i / w) + i % w,
{
    lemma_fundamental_div_mod(i, w);
    lemma_mod_bound(i, w);
    assert(0 <= i / w < h) by (nonlinear_arith)
        requires
            0 <= i < w * h,
            0 < w,
            i == w * (i / w) + i % w,
            0 <= i % w < w,
    ;
}

/// A coordinate within a frame of `w` columns and `h` rows comes at the place
/// `y * w + x`, which is below `w * h` and splits back into `x` and `y`.
pub proof fn lemma_coordinate_place(x: int, y: int, w: int, h: int)
    requires
        0 <= x < w,
        0 <= y < h,
    ensures
        0 <= y * w + x < w * h,
        (y * w + x) % w == x,
        (y * w + x) / w == y,
{
    assert(0 <= y * w && y * w + w <= w * h) by (nonlinear_arith)
        requires
            0 <= y < h,
            0 < w,
    ;
    lemma_fundamental_div_mod_converse(y * w + x, w, y, x);
}

/// Byte `c` of the block of `n` bytes at place `i` is byte `n * i + c`, which
/// lies in no other block and is below `n * len` for a place below `len`.
pub proof fn lemma_chunky_offset(n: int, i: int, c: int, len: int)
    requires
        0 <= c < n,
        0 <= i < len,
    ensures
        0 <= n * i + c < len * n,
        (n * i + c) / n == i,
        (n * i + c) % n == c,
{
    assert(0 <= n * i && n * i + n <= len * n && n * i == i * n) by (nonlinear_arith)
        requires
            0 <= i < len,
            0 < n,
    ;
    lemma_fundamental_div_mod_converse(n * i + c, n, i, c);
}

/// Byte `i` of plane `c` is byte `c * len + i`, which lies in no other plane
/// and is below `len * n` for a plane below `n`.
pub proof fn lemma_planar_offset(n: int, i: int, c: int, len: int)
    requires
        0 <= c < n,
        0 <= i < len,
    ensures
        0 <= c * len + i < len * n,
        (c * len + i) / len == c,
        (c * len + i) % len == i,
{
    assert(0 <= c * len && c * len + len <= len * n) by (nonlinear_arith)
        requires
            0 <= c < n,
            0 < len,
    ;
    lemma_fundamental_div_mod_converse(c * len + i, len, c, i);
}

/// In the chunky layout the bytes of two different pixels never share an
/// address: this is what allows workers to write them without a lock.
pub proof fn lemma_chunky_disjoint(n: int, i: int, j: int, c: int, d: int)
    requires
        0 <= c < n,
        0 <= d < n,
        0 <= i,
        0 <= j,
        i != j,
    ensures
        n * i + c != n * j + d,
{
    lemma_chunky_offset(n, i, c, i + 1);
    lemma_chunky_offset(n, j, d, j + 1);
}

/// In the planar layout the bytes of two different pixels never share an
/// address, whichever channels they belong to.
pub proof fn lemma_planar_disjoint(len: int, i: int, j: int, c: int, d: int)
    requires
        0 <= i < len,
        0 <= j < len,
        0 <= c,
        0 <= d,
        i != j,
    ensures
        c * len + i != d * len + j,
{
    lemma_planar_offset(c + 1, i, c, len);
    lemma_planar_offset(d + 1, j, d, len);
}

/// Decoding the pixel at `(x, y)` from a buffer that holds a frame in the
/// chunky layout gives a pixel that the frame shows there.
pub proof fn lemma_chunky_pixel<F: Image>(frame: &F, data: Seq<u8>, x: int, y: int) where
    F::Pixel: AsBytes,

    requires
        is_chunky(frame, data),
        0 <= x < frame.spec_width(),
        0 <= y < frame.spec_height(),
    ensures
        frame.yields(x, y, chunky_pixel::<F::Pixel>(data, frame.spec_width(), x, y)),
{
    let n = <F::Pixel as AsBytes>::spec_width();
    let w = frame.spec_width() as int;
    let i = y * w + x;
    lemma_coordinate_place(x, y, w, frame.spec_height() as int);
    let block = chunky_block(data, n, i);
    assert(encodes_pixel(frame, i, block));
    let p = choose|p: F::Pixel| #[trigger] yields_at(frame, i, p) && block == p.encoded();
    p.lemma_decode_encode();
}

/// Decoding the pixel at `(x, y)` from a buffer that holds a frame in the
/// planar layout gives a pixel that the frame shows there.
pub proof fn lemma_planar_pixel<F: Image>(frame: &F, data: Seq<u8>, x: int, y: int) where
    F::Pixel: AsBytes,

    requires
        is_planar(frame, data),
        0 <= x < frame.spec_width(),
        0 <= y < frame.spec_height(),
    ensures
        frame.yields(
            x,
            y,
            planar_pixel::<F::Pixel>(data, frame.spec_width(), frame.spec_height(), x, y),
        ),
{
    let n = <F::Pixel as AsBytes>::spec_width();
    let w = frame.spec_width() as int;
    let len = frame.spec_width() * frame.spec_height();
    let i = y * w + x;
    lemma_coordinate_place(x, y, w, frame.spec_height() as int);
    let block = planar_block(data, n, len, i);
    assert(encodes_pixel(frame, i, block));
    let p = choose|p: F::Pixel| #[trigger] yields_at(frame, i, p) && block == p.encoded();
    p.lemma_decode_encode();
}

/// The two layouts of a frame that shows one pixel at each coordinate hold
/// the same pixel at every coordinate.
pub proof fn lemma_layouts_agree<F: Image>(
    frame: &F,
    chunky: Seq<u8>,
    planar: Seq<u8>,
    x: int,
    y: int,
) where F::Pixel: AsBytes
    requires
        deterministic(frame),
        is_chunky(frame, chunky),
        is_planar(frame, planar),
        0 <= x < frame.spec_width(),
        0 <= y < frame.spec_height(),
    ensures
        chunky_pixel::<F::Pixel>(chunky, frame.spec_width(), x, y) == planar_pixel::<F::Pixel>(
            planar,
            frame.spec_width(),
            frame.spec_height(),
            x,
            y,
        ),
{
    lemma_chunky_pixel(frame, chunky, x, y);
    lemma_planar_pixel(frame, planar, x, y);
}

/// The bytes of a pixel in a chunky buffer are a run of the buffer.
pub proof fn lemma_chunky_block_is_run(data: Seq<u8>, n: nat, i: int, len: int)
    requires
        0 <= i < len,
        data.len() == len * n,
    ensures
        0 <= i * n,
        i * n + n <= data.len(),
        chunky_block(data, n, i) == data.subrange(i * n, i * n + n),
{
    assert(0 <= i * n && i * n + n <= len * n && n * i == i * n) by (nonlinear_arith)
        requires
            0 <= i < len,
            0 <= n,
    ;
    assert(chunky_block(data, n, i) =~= data.subrange(i * n, i * n + n));
}

/// Writes the pixel at place `i` of a frame into chunk `i`.
struct PixelWriter<'a, F> {
    frame: &'a F,
    width: usize,
}

impl<'a, F: Image> ChunkWriter for PixelWriter<'a, F> where F::Pixel: AsBytes {
    closed spec fn chunk_len(&self) -> nat {
        <F::Pixel as AsBytes>::spec_width()
    }

    closed spec fn chunks(&self) -> nat {
        self.frame.spec_width() * self.frame.spec_height()
    }

    closed spec fn ready(&self) -> bool {
        &&& self.width == self.frame.spec_width()
        &&& readable_everywhere(self.frame)
    }

    closed spec fn fills(&self, i: int, bytes: Seq<u8>) -> bool {
        encodes_pixel(self.frame, i, bytes)
    }

    fn write(&self, i: usize, out: &mut [u8]) {
        let width = self.width;
        proof {
            if width == 0 {
                assert(self.frame.spec_width() * self.frame.spec_height() == 0) by (nonlinear_arith)
                    requires
                        self.frame.spec_width() == 0,
                ;
            }
            lemma_place_splits(i as int, width as int, self.frame.spec_height() as int);
        }
        let (x, y) = (i % width, i / width);
        let pixel = self.frame.pixel(x, y);
        pixel.encode(out);
        assert(yields_at(self.frame, i as int, pixel) && out@ == pixel.encoded());
    }
}

/// Writes channel `c` of every pixel of a chunky buffer into chunk `c`.
struct PlaneWriter<'a> {
    chunky: &'a [u8],
    channels: usize,
    len: usize,
}

impl<'a> ChunkWriter for PlaneWriter<'a> {
    closed spec fn chunk_len(&self) -> nat {
        self.len as nat
    }

    closed spec fn chunks(&self) -> nat {
        self.channels as nat
    }

    closed spec fn ready(&self) -> bool {
        self.chunky@.len() == self.len * self.channels <= usize::MAX
    }

    closed spec fn fills(&self, c: int, bytes: Seq<u8>) -> bool {
        bytes == Seq::new(self.len as nat, |i: int| self.chunky@[self.channels * i + c])
    }

    fn write(&self, c: usize, out: &mut [u8]) {
        let mut i: usize = 0;
        while i < self.len
            invariant
                i <= self.len,
                c < self.channels,
                out@.len() == self.len,
                self.chunky@.len() == self.len * self.channels <= usize::MAX,
                forall|j: int| 0 <= j < i ==> out@[j] == self.chunky@[self.channels * j + c],
            decreases self.len - i,
        {
            proof {
                lemma_chunky_offset(self.channels as int, i as int, c as int, self.len as int);
            }
            out[i] = self.chunky[self.channels * i + c];
            i += 1;
        }
        assert(out@ =~= Seq::new(self.len as nat, |i: int| self.chunky@[self.channels * i + c]));
    }
}

/// Fills the buffer with the frame in the chunky layout.
///
/// The pixels are read and encoded by a pool of workers. The pixel at each
/// place is read exactly once, and written to the block of bytes that belongs
/// to that place and to no other.
pub fn fill_chunky<F: Image + Sync>(out: &mut [u8], frame: &F) where F::Pixel: AsBytes
    requires
        old(out)@.len() == layout_len(frame),
        readable_everywhere(frame),
    ensures
        is_chunky(frame, final(out)@),
{
    let n = <F::Pixel as AsBytes>::width();
    proof {
        <F::Pixel as AsBytes>::lemma_width_positive();
    }
    let writer = PixelWriter { frame, width: frame.width() };
    par_write_chunks(out, n, &writer);
    proof {
        let len = frame.spec_width() * frame.spec_height();
        assert forall|i: int| 0 <= i < len implies encodes_pixel(
            frame,
            i,
            #[trigger] chunky_block(out@, n as nat, i),
        ) by {
            lemma_chunky_block_is_run(out@, n as nat, i, len as int);
            assert(writer.fills(i, out@.subrange(i * n, i * n + n)));
        }
    }
}

/// Fills the buffer with the frame in the planar layout.
///
/// The pixels are first read and encoded by a pool of workers, each exactly
/// once, and then each plane is written by one worker.
pub fn fill_planar<F: Image + Sync>(out: &mut [u8], frame: &F) where F::Pixel: AsBytes
    requires
        old(out)@.len() == layout_len(frame),
        readable_everywhere(frame),
    ensures
        is_planar(frame, final(out)@),
{
    let n = <F::Pixel as AsBytes>::width();
    let size = out.len();
    let (width, height) = (frame.width(), frame.height());
    proof {
        <F::Pixel as AsBytes>::lemma_width_positive();
        assert(width * height <= width * height * n && width * height * n == n * (width * height))
            by (nonlinear_arith)
            requires
                n >= 1,
        ;
    }
    let len = width * height;
    if len == 0 {
        return ;
    }
    let mut chunky = vec![0u8; size];
    fill_chunky(chunky.as_mut_slice(), frame);
    let writer = PlaneWriter { chunky: chunky.as_slice(), channels: n, len };
    par_write_chunks(out, len, &writer);
    proof {
        assert forall|i: int| 0 <= i < len implies encodes_pixel(
            frame,
            i,
            #[trigger] planar_block(out@, n as nat, len as nat, i),
        ) by {
            let planar = planar_block(out@, n as nat, len as nat, i);
            let block = chunky_block(chunky@, n as nat, i);
            assert(encodes_pixel(frame, i, block));
            assert forall|c: int| 0 <= c < n implies planar[c] == block[c] by {
                lemma_planar_offset(n as int, i, c, len as int);
                lemma_chunky_offset(n as int, i, c, len as int);
                assert(0 <= c * len && c * len + len <= len * n) by (nonlinear_arith)
                    requires
                        0 <= c < n,
                        0 < len,
                ;
                let plane = out@.subrange(c * len, c * len + len);
                assert(writer.fills(c, plane));
                assert(plane[i] == out@[c * len + i]);
                assert(c * len == len * c) by (nonlinear_arith);
            }
            assert(planar =~= block);
        }
    }
}

} // verus!
