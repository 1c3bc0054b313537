//! The 16-entry color table and the rendering of a decoded sprite to RGB.

use vstd::prelude::*;
use image::{ImageBuffer, RgbImage};
use crate::sprite::SPRITE_PIXELS;

verus! {

/// A 16x16 RGB image of one sprite. Verus cannot declare `ImageBuffer`
/// (its `Pixel` bound is refused), so the image is held here, unseen by the
/// proofs, and described by `sprite_image_bytes`.
#[verifier::external_body]
pub struct SpriteImage {
    pub image: RgbImage,
}

/// Side of the square raster of one sprite, in pixels.
pub const SPRITE_SIDE: u32 = 16;

/// Bytes in the RGB raster of one sprite (three channels per pixel).
pub const RASTER_BYTES: usize = 768;

/// An RGB color with 8-bit channels.
#[derive(Clone, Copy, Debug, PartialEq, Eq, Structural)]
pub struct Rgb8 {
    pub r: u8,
    pub g: u8,
    pub b: u8,
}

/// Channel `c` (0 red, 1 green, 2 blue) of `color`.
pub open spec fn channel(color: Rgb8, c: int) -> u8 {
    if c == 0 {
        color.r
    } else if c == 1 {
        color.g
    } else {
        color.b
    }
}

/// The row-major RGB bytes of a sprite whose palette indices are `sprite`,
/// colored through `colors`: byte `3 * pos + c` is channel `c` of the color
/// of the pixel at flat position `pos` (row `pos / 16`, column `pos % 16`).
pub open spec fn raster_of(sprite: Seq<u8>, colors: Seq<Rgb8>) -> Seq<u8> {
    Seq::new(RASTER_BYTES as nat, |i: int| channel(colors[sprite[i / 3] as int], i % 3))
}

/// The channel bytes that a sprite's RGB image holds, row-major.
pub uninterp spec fn sprite_image_bytes(img: SpriteImage) -> Seq<u8>;

/// Width and height, in pixels, of a sprite's RGB image.
pub uninterp spec fn sprite_image_size(img: SpriteImage) -> (u32, u32);

/// Relies on `ImageBuffer::from_raw`: it returns an image exactly when
/// `3 * width` and then `3 * width * height` fit in `usize` and the buffer
/// holds at least that many bytes; the image then has the given size and
/// holds the buffer as its data.
#[verifier::external_body]
fn rgb_image_from_raw(width: u32, height: u32, buf: Vec<u8>) -> (r: Option<SpriteImage>)
    ensures
        r is Some <==> (3 * width <= usize::MAX && 3 * width * height <= usize::MAX && 3 * width
            * height <= buf@.len()),
        r matches Some(img) ==> sprite_image_bytes(img) == buf@ && sprite_image_size(img) == (
            width,
            height,
        ),
{
    ImageBuffer::from_raw(width, height, buf).map(|image| SpriteImage { image })
}

/// A fixed table of 16 colors, one for each 4-bit palette index.
pub struct Palette {
    pub colors: [Rgb8; 16],
}

impl Palette {
    /// The table holding `colors`, in order.
    pub fn new(colors: [Rgb8; 16]) -> (r: Palette)
        ensures
            r.colors@ == colors@,
    {
        Palette { colors }
    }

    /// The color of palette index `index`; every index below 16 has one.
    pub fn color_of(&self, index: u8) -> (r: Rgb8)
        requires
            index < 16,
        ensures
            r == self.colors@[index as int],
    {
        self.colors[index as usize]
    }

    /// The row-major RGB bytes of `sprite` colored through this palette.
    pub fn raster(&self, sprite: &[u8; 256]) -> (r: Vec<u8>)
        requires
            forall|pos: int| 0 <= pos < SPRITE_PIXELS ==> #[trigger] sprite@[pos] < 16,
        ensures
            r@ == raster_of(sprite@, self.colors@),
    {
        let mut out: Vec<u8> = Vec::with_capacity(RASTER_BYTES);
        let mut pos: usize = 0;
        while pos < SPRITE_PIXELS
            invariant
                pos <= SPRITE_PIXELS,
                sprite@.len() == SPRITE_PIXELS,
                self.colors@.len() == 16,
                forall|p: int| 0 <= p < SPRITE_PIXELS ==> #[trigger] sprite@[p] < 16,
                out@.len() == 3 * pos,
                forall|i: int|
                    0 <= i < 3 * pos ==> #[trigger] out@[i] == channel(
                        self.colors@[sprite@[i / 3] as int],
                        i % 3,
                    ),
            decreases SPRITE_PIXELS - pos,
        {
            let color = self.color_of(sprite[pos]);
            out.push(color.r);
            out.push(color.g);
            out.push(color.b);
            pos += 1;
        }
        assert(out@ =~= raster_of(sprite@, self.colors@));
        out
    }

    /// The 16x16 RGB image of `sprite` colored through this palette.
    pub fn sprite_image(&self, sprite: &[u8; 256]) -> (r: SpriteImage)
        requires
            forall|pos: int| 0 <= pos < SPRITE_PIXELS ==> #[trigger] sprite@[pos] < 16,
        ensures
            sprite_image_bytes(r) == raster_of(sprite@, self.colors@),
            sprite_image_size(r) == (SPRITE_SIDE, SPRITE_SIDE),
    {
        let raster = self.raster(sprite);
        let img = rgb_image_from_raw(SPRITE_SIDE, SPRITE_SIDE, raster);
        img.unwrap()
    }
}

} // verus!
