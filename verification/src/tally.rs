//! Counting what arrives: how many chunks, and how many bytes in all.

use vstd::prelude::*;
use bytes::Bytes;
use crate::buffer;
use crate::buffer::count_bytes;

verus! {

/// Chunks and bytes received so far.
#[derive(Clone, Copy, Debug, PartialEq, Eq, Structural)]
pub struct Tally {
    pub chunks: usize,
    pub bytes: usize,
}

/// The number of bytes in some chunks.
pub open spec fn total_len(parts: Seq<Seq<u8>>) -> nat
    decreases parts.len(),
{
    if parts.len() == 0 {
        0
    } else {
        total_len(parts.drop_last()) + parts.last().len()
    }
}

/// The count of some chunks is the length of all that they hold.
pub proof fn lemma_total_len_is_joined_len(parts: Seq<Seq<u8>>)
    ensures
        total_len(parts) == buffer::joined(parts).len(),
    decreases parts.len(),
{
    if parts.len() > 0 {
        lemma_total_len_is_joined_len(parts.drop_last());
    }
}

/// The count of chunks that are all of one size.
pub proof fn lemma_total_len_of_equal_chunks(parts: Seq<Seq<u8>>, size: nat)
    requires
        forall|i: int| 0 <= i < parts.len() ==> (#[trigger] parts[i]).len() == size,
    ensures
        total_len(parts) == parts.len() * size,
    decreases parts.len(),
{
    if parts.len() > 0 {
        let front = parts.drop_last();
        assert forall|i: int| 0 <= i < front.len() implies (#[trigger] front[i]).len() == size by {
            assert(front[i] == parts[i]);
        }
        lemma_total_len_of_equal_chunks(front, size);
        assert(parts.len() * size == front.len() * size + size) by (nonlinear_arith)
            requires
                parts.len() == front.len() + 1,
        ;
    } else {
        assert(parts.len() * size == 0) by (nonlinear_arith)
            requires
                parts.len() == 0,
        ;
    }
}

impl Tally {
    /// Nothing received.
    pub open spec fn zero() -> Tally {
        Tally { chunks: 0, bytes: 0 }
    }

    /// Whether one more chunk of `len` bytes still fits the counters.
    pub open spec fn has_room(self, len: nat) -> bool {
        &&& self.chunks < usize::MAX
        &&& self.bytes + len <= usize::MAX
    }

    /// This count and one more chunk of `len` bytes.
    pub open spec fn plus(self, len: nat) -> Tally {
        Tally { chunks: (self.chunks + 1) as usize, bytes: (self.bytes + len) as usize }
    }

    /// Starts a count.
    pub fn new() -> (tally: Tally)
        ensures
            tally == Tally::zero(),
    {
        Tally { chunks: 0, bytes: 0 }
    }

    /// Whether [`Tally::add`] and [`Tally::add_len`] can count `len` more bytes.
    pub fn fits(&self, len: usize) -> (fits: bool)
        ensures
            fits == self.has_room(len as nat),
    {
        self.chunks < usize::MAX && len <= usize::MAX - self.bytes
    }

    /// Reads one chunk to its end and counts it.
    pub fn add(&mut self, chunk: Bytes)
        requires
            old(self).has_room(buffer::content(chunk).len()),
        ensures
            *final(self) == old(self).plus(buffer::content(chunk).len()),
    {
        let bytes: usize = count_bytes(self.bytes, chunk);
        self.bytes = bytes;
        self.chunks = self.chunks + 1;
    }

    /// Counts one chunk of `len` bytes.
    pub fn add_len(&mut self, len: usize)
        requires
            old(self).has_room(len as nat),
        ensures
            *final(self) == old(self).plus(len as nat),
    {
        self.bytes = self.bytes + len;
        self.chunks = self.chunks + 1;
    }
}

/// One more chunk is one chunk and its bytes more, and it is counted whenever
/// the machine has such numbers.
pub proof fn law_chunk_adds_its_bytes(tally: Tally, len: nat)
    ensures
        tally.has_room(len) <==> tally.chunks + 1 <= usize::MAX && tally.bytes + len <= usize::MAX,
        tally.has_room(len) ==> tally.plus(len).chunks == tally.chunks + 1,
        tally.has_room(len) ==> tally.plus(len).bytes == tally.bytes + len,
        Tally::zero().chunks == 0 && Tally::zero().bytes == 0,
{
}

} // verus!
