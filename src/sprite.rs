//! One chunk-pair (64 bytes of the odd plane, 64 of the even plane) and its
//! decoding into a 16x16 grid of 4-bit palette indices.

use vstd::prelude::*;

verus! {

/// Width in bytes of one chunk of a plane.
pub const CPAIR_CHUNK_WIDTH: usize = 64;

/// Number of pixels in one decoded sprite (16 rows of 16).
pub const SPRITE_PIXELS: usize = 256;

/// Bit `k` (0 = least significant) of byte `b`, as 0 or 1.
pub open spec fn bit_of(b: u8, k: u8) -> u8 {
    (b >> k) & 1
}

/// The palette index at flat position `pos` of the sprite decoded from the
/// chunks `odd` and `even`: position `8 * i + k` takes bit `k` of
/// `odd[2i]`, `odd[2i + 1]`, `even[2i]`, `even[2i + 1]` as its bits 0 to 3.
pub open spec fn pixel_at(odd: Seq<u8>, even: Seq<u8>, pos: int) -> u8 {
    let i = pos / 8;
    let k = (pos % 8) as u8;
    (bit_of(odd[2 * i], k) + 2 * bit_of(odd[2 * i + 1], k) + 4 * bit_of(even[2 * i], k) + 8
        * bit_of(even[2 * i + 1], k)) as u8
}

/// The 256 palette indices, row-major, decoded from the chunks `odd` and `even`.
pub open spec fn sprite_of(odd: Seq<u8>, even: Seq<u8>) -> Seq<u8> {
    Seq::new(SPRITE_PIXELS as nat, |pos: int| pixel_at(odd, even, pos))
}

/// Or-ing the four shifted bits together is the same as adding them up, and
/// the result is a 4-bit value.
proof fn lemma_compose_bits(b0: u8, b1: u8, b2: u8, b3: u8, k: u8)
    by (bit_vector)
    requires
        k < 8,
    ensures
        ((b0 >> k) & 1) | (((b1 >> k) & 1) << 1u8) | (((b2 >> k) & 1) << 2u8) | (((b3 >> k) & 1)
            << 3u8) == ((b0 >> k) & 1) + 2 * ((b1 >> k) & 1) + 4 * ((b2 >> k) & 1) + 8 * ((b3
            >> k) & 1),
        ((b0 >> k) & 1) + 2 * ((b1 >> k) & 1) + 4 * ((b2 >> k) & 1) + 8 * ((b3 >> k) & 1) < 16,
{
}

/// A view of one 64-byte chunk of each plane, at the same chunk index.
pub struct CPairChunk<'a> {
    even: &'a [u8],
    odd: &'a [u8],
}

impl<'a> CPairChunk<'a> {
    #[verifier::type_invariant]
    spec fn chunk_widths(self) -> bool {
        &&& self.odd@.len() == CPAIR_CHUNK_WIDTH
        &&& self.even@.len() == CPAIR_CHUNK_WIDTH
    }

    /// The 64 bytes of the odd plane.
    pub closed spec fn odd_bytes(self) -> Seq<u8> {
        self.odd@
    }

    /// The 64 bytes of the even plane.
    pub closed spec fn even_bytes(self) -> Seq<u8> {
        self.even@
    }

    /// Pairs two chunks; `None` unless both are exactly 64 bytes long.
    pub fn new(odd: &'a [u8], even: &'a [u8]) -> (r: Option<CPairChunk<'a>>)
        ensures
            r is Some <==> (odd@.len() == CPAIR_CHUNK_WIDTH && even@.len() == CPAIR_CHUNK_WIDTH),
            r matches Some(c) ==> c.odd_bytes() == odd@ && c.even_bytes() == even@,
    {
        if odd.len() == CPAIR_CHUNK_WIDTH && even.len() == CPAIR_CHUNK_WIDTH {
            Some(CPairChunk { even, odd })
        } else {
            None
        }
    }

    /// Decodes the chunk-pair into 256 palette indices, each below 16, stored
    /// in flat row-major order (row `pos / 16`, column `pos % 16`).
    pub fn parse_sprite(&self) -> (pixels: [u8; 256])
        ensures
            pixels@ == sprite_of(self.odd_bytes(), self.even_bytes()),
            forall|pos: int| 0 <= pos < SPRITE_PIXELS ==> #[trigger] pixels@[pos] < 16,
    {
        proof {
            use_type_invariant(self);
        }
        let mut pixels: [u8; 256] = [0u8; 256];
        let mut i: usize = 0;
        while i < 32
            invariant
                0 <= i <= 32,
                self.odd@.len() == CPAIR_CHUNK_WIDTH,
                self.even@.len() == CPAIR_CHUNK_WIDTH,
                pixels@.len() == SPRITE_PIXELS,
                forall|pos: int|
                    0 <= pos < 8 * i ==> #[trigger] pixels@[pos] == pixel_at(
                        self.odd@,
                        self.even@,
                        pos,
                    ),
            decreases 32 - i,
        {
            let bp0 = self.odd[i * 2];
            let bp1 = self.odd[i * 2 + 1];
            let bp2 = self.even[i * 2];
            let bp3 = self.even[i * 2 + 1];

            let mut bit: u8 = 0;
            while bit < 8
                invariant
                    0 <= i < 32,
                    0 <= bit <= 8,
                    self.odd@.len() == CPAIR_CHUNK_WIDTH,
                    self.even@.len() == CPAIR_CHUNK_WIDTH,
                    bp0 == self.odd@[2 * i as int],
                    bp1 == self.odd@[2 * i + 1],
                    bp2 == self.even@[2 * i as int],
                    bp3 == self.even@[2 * i + 1],
                    pixels@.len() == SPRITE_PIXELS,
                    forall|pos: int|
                        0 <= pos < 8 * i + bit ==> #[trigger] pixels@[pos] == pixel_at(
                            self.odd@,
                            self.even@,
                            pos,
                        ),
                decreases 8 - bit,
            {
                let mut index: u8 = 0;
                index |= (bp0 >> bit) & 1;
                index |= ((bp1 >> bit) & 1) << 1u8;
                index |= ((bp2 >> bit) & 1) << 2u8;
                index |= ((bp3 >> bit) & 1) << 3u8;
                proof {
                    lemma_compose_bits(bp0, bp1, bp2, bp3, bit);
                    assert(0u8 | ((bp0 >> bit) & 1) == (bp0 >> bit) & 1) by (bit_vector);
                    let pos = 8 * i + bit;
                    assert(pos / 8 == i && pos % 8 == bit) by (nonlinear_arith)
                        requires
                            pos == 8 * i + bit,
                            bit < 8,
                    ;
                }
                pixels[i * 8 + bit as usize] = index;
                bit += 1;
            }
            i += 1;
        }
        proof {
            assert(pixels@ =~= sprite_of(self.odd@, self.even@));
            assert forall|pos: int| 0 <= pos < SPRITE_PIXELS implies #[trigger] pixels@[pos]
                < 16 by {
                let i = pos / 8;
                let k = (pos % 8) as u8;
                lemma_compose_bits(
                    self.odd@[2 * i],
                    self.odd@[2 * i + 1],
                    self.even@[2 * i],
                    self.even@[2 * i + 1],
                    k,
                );
            }
        }
        pixels
    }
}

} // verus!
