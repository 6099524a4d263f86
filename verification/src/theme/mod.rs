//! THEME — the colors a theme declares, read from its `colors.toml`.

pub mod colors;
pub mod document;
pub mod error;
pub mod mode;
pub mod reader;
pub mod rgb;
pub mod text;

pub use colors::{Family, Shades, Theme, ThemeColors};
pub use error::ThemeError;
pub use mode::Mode;
pub use rgb::Rgb;
