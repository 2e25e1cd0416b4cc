//! Work that is spread over a pool of worker threads.

use rayon::iter::{IndexedParallelIterator, IntoParallelIterator, ParallelIterator};
use rayon::slice::ParallelSliceMut;
use vstd::prelude::*;

verus! {

/// Something that can fill any one of a number of equally long, numbered
/// chunks of bytes, each independently of the others.
pub(crate) trait ChunkWriter {
    /// The length of each chunk.
    spec fn chunk_len(&self) -> nat;

    /// The number of chunks.
    spec fn chunks(&self) -> nat;

    /// Whether the writer is able to fill its chunks.
    spec fn ready(&self) -> bool;

    /// Whether `bytes` is something that the chunk of the given number may
    /// be filled with.
    spec fn fills(&self, i: int, bytes: Seq<u8>) -> bool;

    /// Fills the chunk of the given number.
    fn write(&self, i: usize, out: &mut [u8])
        requires
            self.ready(),
            i < self.chunks(),
            old(out)@.len() == self.chunk_len(),
        ensures
            self.fills(i as int, final(out)@),
    ;
}

/// `ParallelSliceMut::par_chunks_mut`, then `enumerate` and `for_each`, of
/// rayon: the buffer is cut into consecutive chunks of `size` bytes that do
/// not overlap, and `write` is called once for each, with the chunk and its
/// number, on some worker thread. The call returns when all of them have
/// returned. So the bytes from `i * size` up to `(i + 1) * size` of the
/// buffer are afterwards what `write` left in chunk `i`.
#[verifier::external_body]
pub(crate) fn par_write_chunks<W: ChunkWriter + Sync>(buffer: &mut [u8], size: usize, writer: &W)
    requires
        size > 0,
        size == writer.chunk_len(),
        old(buffer)@.len() == writer.chunks() * size,
        writer.ready(),
    ensures
        final(buffer)@.len() == old(buffer)@.len(),
        forall|i: int|
            0 <= i < writer.chunks() ==> writer.fills(
                i,
                #[trigger] final(buffer)@.subrange(i * size, i * size + size),
            ),
{
    buffer.par_chunks_mut(size).enumerate().for_each(|(i, chunk)| writer.write(i, chunk));
}

/// `into_par_iter` on a range, then `map` and `collect` into a `Vec`, of
/// rayon: `op` is called once for each number below `n`, on some worker
/// thread, and the results are collected in the order of the numbers.
#[verifier::external_body]
pub(crate) fn par_map_range<R: Send, F: Fn(usize) -> R + Sync + Send>(n: usize, op: F) -> (out: Vec<R>)
    requires
        forall|i: usize| i < n ==> call_requires(op, (i,)),
    ensures
        out@.len() == n,
        forall|i: int| 0 <= i < n ==> call_ensures(op, (i as usize,), #[trigger] out@[i]),
{
    (0..n).into_par_iter().map(op).collect()
}

} // verus!
