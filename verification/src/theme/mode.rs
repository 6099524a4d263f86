//! Whether a theme is drawn on a dark ground or a light one.

use vstd::prelude::*;

use super::error::ThemeError;
use super::text::is_word;

verus! {

/// The polarity a theme declares under its `mode` key.
#[derive(Debug, Clone, Copy, PartialEq, Eq, Hash, Structural)]
pub enum Mode {
    Dark,
    Light,
}

/// The mode a `mode` value names, if it names one: `dark` or `light`, exactly.
pub open spec fn mode_named(text: Seq<char>) -> Option<Mode> {
    if text == "dark"@ {
        Some(Mode::Dark)
    } else if text == "light"@ {
        Some(Mode::Light)
    } else {
        None
    }
}

impl Mode {
    /// Reads the value of a theme's `mode` key.
    pub fn parse(text: &str) -> (res: Result<Mode, ThemeError>)
        ensures
            mode_named(text@) matches Some(m) ==> res == Ok::<Mode, ThemeError>(m),
            mode_named(text@) is None ==> (res matches Err(ThemeError::InvalidMode(v)) && v@
                == text@),
    {
        if is_word(text, "dark") {
            Ok(Mode::Dark)
        } else if is_word(text, "light") {
            Ok(Mode::Light)
        } else {
            Err(ThemeError::InvalidMode(text.to_owned()))
        }
    }

    /// Whether the theme is drawn on a dark ground.
    pub fn is_dark(&self) -> (dark: bool)
        ensures
            dark == (*self == Mode::Dark),
    {
        match self {
            Mode::Dark => true,
            Mode::Light => false,
        }
    }
}

} // verus!
