//! Decoding of two-plane, bit-packed 16x16 sprites into 4-bit palette indices.

pub mod laws;
pub mod palette;
pub mod planes;
pub mod routing;
pub mod sprite;
