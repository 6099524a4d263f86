//! Why a theme could not be read.

use vstd::prelude::*;
use vstd::string::*;

verus! {

/// Why reading a theme failed. Paths are carried as text, and every cause as the message its
/// source gave, so the error holds nothing but plain values.
#[derive(Debug, PartialEq, Eq)]
pub enum ThemeError {
    /// No file at the path.
    NotFound(String),
    /// The path exists but could not be read as a theme file; the second field says why.
    Unreadable(String, String),
    /// The file is larger than a theme can be; the second field is its size in bytes.
    TooLarge(String, u64),
    /// The file is not valid TOML; the second field is the parser's cause, without the quoted line.
    InvalidToml(String, String),
    /// A key every theme has to declare is absent.
    MissingKey(&'static str),
    /// The `mode` key holds something other than `dark` or `light`.
    InvalidMode(String),
    /// A color key holds something that is not a `#rrggbb` color.
    InvalidColor(&'static str, String),
}

/// The sentence a [`ThemeError`] reads as. An invalid TOML file is reported by its path and the
/// parser's cause alone, never by quoting the file.
pub open spec fn described(error: ThemeError) -> Seq<char> {
    match error {
        ThemeError::NotFound(path) => "no theme found at "@ + path@,
        ThemeError::Unreadable(path, cause) => "could not read "@ + path@ + ": "@ + cause@,
        ThemeError::TooLarge(path, _) => path@ + " is larger than a theme can be"@,
        ThemeError::InvalidToml(path, cause) => "invalid TOML in "@ + path@ + ": "@ + cause@,
        ThemeError::MissingKey(key) => "the theme does not declare `"@ + key@ + "`"@,
        ThemeError::InvalidMode(value) => "invalid mode `"@ + value@
            + "`: expected `dark` or `light`"@,
        ThemeError::InvalidColor(key, value) => "invalid color for `"@ + key@ + "`: `"@ + value@
            + "`"@,
    }
}

impl ThemeError {
    /// The sentence this error reads as, for a consumer to display.
    pub fn message(&self) -> (text: String)
        ensures
            text@ == described(*self),
    {
        match self {
            ThemeError::NotFound(path) => {
                let mut text = String::from_str("no theme found at ");
                text.append(path.as_str());
                text
            },
            ThemeError::Unreadable(path, cause) => {
                let mut text = String::from_str("could not read ");
                text.append(path.as_str());
                text.append(": ");
                text.append(cause.as_str());
                text
            },
            ThemeError::TooLarge(path, _) => {
                let mut text = String::from_str(path.as_str());
                text.append(" is larger than a theme can be");
                text
            },
            ThemeError::InvalidToml(path, cause) => {
                let mut text = String::from_str("invalid TOML in ");
                text.append(path.as_str());
                text.append(": ");
                text.append(cause.as_str());
                text
            },
            ThemeError::MissingKey(key) => {
                let mut text = String::from_str("the theme does not declare `");
                text.append(key);
                text.append("`");
                text
            },
            ThemeError::InvalidMode(value) => {
                let mut text = String::from_str("invalid mode `");
                text.append(value.as_str());
                text.append("`: expected `dark` or `light`");
                text
            },
            ThemeError::InvalidColor(key, value) => {
                let mut text = String::from_str("invalid color for `");
                text.append(key);
                text.append("`: `");
                text.append(value.as_str());
                text.append("`");
                text
            },
        }
    }
}

} // verus!
