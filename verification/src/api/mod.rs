//! API — the palette contract, and the plain values the C bridge marshals.

pub mod bridge;
pub mod palette;

pub use palette::{Palette, PaletteSeed};
