//! The two plane buffers and their division into synchronized chunk-pairs.

use vstd::prelude::*;
use crate::sprite::{CPairChunk, CPAIR_CHUNK_WIDTH, sprite_of};

verus! {

/// Number of chunk-pairs in planes of lengths `odd_len` and `even_len`: the
/// number of whole chunks in the shorter plane.
pub open spec fn chunk_count(odd_len: nat, even_len: nat) -> nat {
    if odd_len <= even_len {
        odd_len / CPAIR_CHUNK_WIDTH as nat
    } else {
        even_len / CPAIR_CHUNK_WIDTH as nat
    }
}

/// The `i`-th 64-byte chunk of `plane`.
pub open spec fn chunk_of(plane: Seq<u8>, i: int) -> Seq<u8> {
    plane.subrange(i * CPAIR_CHUNK_WIDTH, (i + 1) * CPAIR_CHUNK_WIDTH)
}

/// The sprites decoded from every chunk-pair of the planes, in chunk order.
pub open spec fn decoded_sprites(odd: Seq<u8>, even: Seq<u8>) -> Seq<Seq<u8>> {
    Seq::new(
        chunk_count(odd.len(), even.len()),
        |i: int| sprite_of(chunk_of(odd, i), chunk_of(even, i)),
    )
}

/// The odd-plane and even-plane bytes of a sprite set.
pub struct CPair {
    pub even: Vec<u8>,
    pub odd: Vec<u8>,
}

impl Default for CPair {
    fn default() -> (r: CPair)
        ensures
            r.even@.len() == 0,
            r.odd@.len() == 0,
    {
        CPair { even: Vec::new(), odd: Vec::new() }
    }
}

/// `chunk * 64 + 64 <= len` exactly when `chunk` is below the number of whole
/// chunks in `len` bytes.
proof fn lemma_chunk_fits(chunk: int, len: int)
    requires
        0 <= chunk,
        0 <= len,
    ensures
        chunk * 64 + 64 <= len <==> chunk < len / 64,
{
    assert(chunk * 64 + 64 <= len <==> chunk < len / 64) by (nonlinear_arith)
        requires
            0 <= chunk,
            0 <= len,
    ;
}

impl CPair {
    /// A fresh sequence of the chunk-pairs of both planes, from the first.
    pub fn chunks(&self) -> (r: CPairChunkIterator<'_>)
        ensures
            r.odd_plane() == self.odd@,
            r.even_plane() == self.even@,
            r.position() == 0,
    {
        CPairChunkIterator { cpair: self, index: 0 }
    }

    /// Decodes every chunk-pair, in chunk order.
    pub fn sprites(&self) -> (r: Vec<[u8; 256]>)
        ensures
            r@.len() == chunk_count(self.odd@.len(), self.even@.len()),
            forall|i: int|
                0 <= i < r@.len() ==> #[trigger] r@[i]@ == decoded_sprites(self.odd@, self.even@)[i],
    {
        let mut it = self.chunks();
        let mut out: Vec<[u8; 256]> = Vec::new();
        loop
            invariant
                it.odd_plane() == self.odd@,
                it.even_plane() == self.even@,
                it.position() == out@.len(),
                out@.len() <= chunk_count(self.odd@.len(), self.even@.len()),
                forall|i: int|
                    0 <= i < out@.len() ==> #[trigger] out@[i]@ == decoded_sprites(
                        self.odd@,
                        self.even@,
                    )[i],
            ensures
                out@.len() == chunk_count(self.odd@.len(), self.even@.len()),
                forall|i: int|
                    0 <= i < out@.len() ==> #[trigger] out@[i]@ == decoded_sprites(
                        self.odd@,
                        self.even@,
                    )[i],
            decreases chunk_count(self.odd@.len(), self.even@.len()) - it.position(),
        {
            match it.next() {
                Some(chunk) => {
                    let sprite = chunk.parse_sprite();
                    out.push(sprite);
                },
                None => break,
            }
        }
        out
    }
}

/// A cursor over the chunk-pairs of a `CPair`.
pub struct CPairChunkIterator<'a> {
    cpair: &'a CPair,
    index: usize,
}

impl<'a> CPairChunkIterator<'a> {
    /// The odd plane being walked.
    pub closed spec fn odd_plane(self) -> Seq<u8> {
        self.cpair.odd@
    }

    /// The even plane being walked.
    pub closed spec fn even_plane(self) -> Seq<u8> {
        self.cpair.even@
    }

    /// Index of the chunk-pair that `next` hands out.
    pub closed spec fn position(self) -> nat {
        self.index as nat
    }

    /// The chunk-pair at the cursor, which then moves on; `None`, with the
    /// cursor left in place, once a whole chunk no longer fits in either plane.
    pub fn next(&mut self) -> (r: Option<CPairChunk<'a>>)
        ensures
            final(self).odd_plane() == old(self).odd_plane(),
            final(self).even_plane() == old(self).even_plane(),
            old(self).position() < chunk_count(
                old(self).odd_plane().len(),
                old(self).even_plane().len(),
            ) ==> {
                &&& r matches Some(c)
                &&& c.odd_bytes() == chunk_of(old(self).odd_plane(), old(self).position() as int)
                &&& c.even_bytes() == chunk_of(old(self).even_plane(), old(self).position() as int)
                &&& final(self).position() == old(self).position() + 1
            },
            old(self).position() >= chunk_count(
                old(self).odd_plane().len(),
                old(self).even_plane().len(),
            ) ==> r is None && final(self).position() == old(self).position(),
    {
        let odd_len = self.cpair.odd.len();
        let even_len = self.cpair.even.len();
        proof {
            lemma_chunk_fits(self.index as int, odd_len as int);
            lemma_chunk_fits(self.index as int, even_len as int);
        }
        let start = match self.index.checked_mul(CPAIR_CHUNK_WIDTH) {
            Some(start) => start,
            None => {
                return None;
            },
        };
        if start >= odd_len || odd_len - start < CPAIR_CHUNK_WIDTH || start >= even_len
            || even_len - start < CPAIR_CHUNK_WIDTH {
            return None;
        }
        let end = start + CPAIR_CHUNK_WIDTH;
        let odd = vstd::slice::slice_subrange(self.cpair.odd.as_slice(), start, end);
        let even = vstd::slice::slice_subrange(self.cpair.even.as_slice(), start, end);
        let next = CPairChunk::new(odd, even);
        self.index += 1;
        next
    }
}

} // verus!
