//! Colors for Omarchy applications, inherited from the system's active theme.

pub mod api;
pub mod color;
pub mod modes;
pub mod theme;

pub use api::{Palette, PaletteSeed};
pub use color::{Deposit, Level, Role, State, Styled};
pub use modes::{Treatment, represent};
pub use theme::{Mode, Rgb, Theme, ThemeColors, ThemeError};
