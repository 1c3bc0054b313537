//! Properties of the decoding pipeline, proved over its specifications.

use vstd::prelude::*;
use crate::planes::{chunk_count, chunk_of, decoded_sprites};
use crate::sprite::{CPAIR_CHUNK_WIDTH, SPRITE_PIXELS, sprite_of, bit_of};

verus! {

/// A bit of a byte is 0 or 1.
proof fn lemma_bit_of_small(b: u8, k: u8)
    requires
        k < 8,
    ensures
        bit_of(b, k) <= 1,
{
    assert((b >> k) & 1 <= 1) by (bit_vector);
}

/// Decoding is total: any 64 + 64 bytes give exactly 256 palette indices,
/// each in 0..16.
pub proof fn lemma_decode_total(odd: Seq<u8>, even: Seq<u8>)
    requires
        odd.len() == CPAIR_CHUNK_WIDTH,
        even.len() == CPAIR_CHUNK_WIDTH,
    ensures
        sprite_of(odd, even).len() == SPRITE_PIXELS,
        forall|pos: int| 0 <= pos < SPRITE_PIXELS ==> #[trigger] sprite_of(odd, even)[pos] < 16,
{
    assert forall|pos: int| 0 <= pos < SPRITE_PIXELS implies #[trigger] sprite_of(odd, even)[pos]
        < 16 by {
        let i = pos / 8;
        let k = (pos % 8) as u8;
        lemma_bit_of_small(odd[2 * i], k);
        lemma_bit_of_small(odd[2 * i + 1], k);
        lemma_bit_of_small(even[2 * i], k);
        lemma_bit_of_small(even[2 * i + 1], k);
    }
}

/// Decoding is deterministic: the same chunk-pair bytes always decode to the
/// same sprite.
pub proof fn lemma_decode_deterministic(odd1: Seq<u8>, even1: Seq<u8>, odd2: Seq<u8>, even2: Seq<u8>)
    requires
        odd1 == odd2,
        even1 == even2,
    ensures
        sprite_of(odd1, even1) == sprite_of(odd2, even2),
{
}

/// For planes whose lengths are multiples of 64, the number of chunk-pairs
/// is the length of the shorter plane divided by 64.
pub proof fn lemma_sequence_length(odd: Seq<u8>, even: Seq<u8>)
    requires
        odd.len() % CPAIR_CHUNK_WIDTH as nat == 0,
        even.len() % CPAIR_CHUNK_WIDTH as nat == 0,
    ensures
        decoded_sprites(odd, even).len() == (if odd.len() <= even.len() {
            odd.len()
        } else {
            even.len()
        }) / CPAIR_CHUNK_WIDTH as nat,
{
}

/// A plane shorter than one chunk yields no chunk-pair at all.
pub proof fn lemma_short_plane_empty(odd: Seq<u8>, even: Seq<u8>)
    requires
        odd.len() < CPAIR_CHUNK_WIDTH || even.len() < CPAIR_CHUNK_WIDTH,
    ensures
        chunk_count(odd.len(), even.len()) == 0,
        decoded_sprites(odd, even).len() == 0,
{
}

/// Running the whole pipeline twice over the same planes gives the same
/// sprites in the same order, the `i`-th decoded from the `i`-th chunk-pair.
pub proof fn lemma_pipeline_repeatable(
    odd: Seq<u8>,
    even: Seq<u8>,
    first: Seq<Seq<u8>>,
    second: Seq<Seq<u8>>,
)
    requires
        first == decoded_sprites(odd, even),
        second == decoded_sprites(odd, even),
    ensures
        first == second,
        forall|i: int|
            0 <= i < first.len() ==> #[trigger] first[i] == sprite_of(
                chunk_of(odd, i),
                chunk_of(even, i),
            ),
{
}

} // verus!
