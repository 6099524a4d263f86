//! A color as a theme declares it: one byte per channel, written `#rrggbb`.

use vstd::prelude::*;
use vstd::string::*;

use super::error::ThemeError;

verus! {

/// An RGB color, one byte per channel — the precision `colors.toml` declares.
#[derive(Debug, Clone, Copy, PartialEq, Eq, Hash, Structural)]
pub struct Rgb {
    pub red: u8,
    pub green: u8,
    pub blue: u8,
}

/// The value of one hexadecimal digit, either case.
pub open spec fn hex_digit(c: char) -> Option<u8> {
    if '0' <= c && c <= '9' {
        Some((c as u32 - '0' as u32) as u8)
    } else if 'a' <= c && c <= 'f' {
        Some((c as u32 - 'a' as u32 + 10) as u8)
    } else if 'A' <= c && c <= 'F' {
        Some((c as u32 - 'A' as u32 + 10) as u8)
    } else {
        None
    }
}

/// The byte two hexadecimal digits spell, high digit first.
pub open spec fn hex_byte(high: char, low: char) -> Option<u8> {
    match (hex_digit(high), hex_digit(low)) {
        (Some(h), Some(l)) => Some((h * 16 + l) as u8),
        _ => None,
    }
}

/// The color `text` spells when it is `#` followed by exactly six hexadecimal digits.
pub open spec fn hex_color(text: Seq<char>) -> Option<Rgb> {
    if text.len() == 7 && text[0] == '#' {
        match (hex_byte(text[1], text[2]), hex_byte(text[3], text[4]), hex_byte(text[5], text[6])) {
            (Some(red), Some(green), Some(blue)) => Some(Rgb { red, green, blue }),
            _ => None,
        }
    } else {
        None
    }
}

fn digit(c: char) -> (value: Option<u8>)
    ensures
        value == hex_digit(c),
        value matches Some(v) ==> v < 16,
{
    if '0' <= c && c <= '9' {
        Some((c as u32 - '0' as u32) as u8)
    } else if 'a' <= c && c <= 'f' {
        Some((c as u32 - 'a' as u32 + 10) as u8)
    } else if 'A' <= c && c <= 'F' {
        Some((c as u32 - 'A' as u32 + 10) as u8)
    } else {
        None
    }
}

fn byte(high: char, low: char) -> (value: Option<u8>)
    ensures
        value == hex_byte(high, low),
{
    match (digit(high), digit(low)) {
        (Some(h), Some(l)) => Some(h * 16 + l),
        _ => None,
    }
}

impl Rgb {
    /// Reads the color declared under `key`: `#` and six hexadecimal digits, either case.
    /// Anything else is an [`InvalidColor`](ThemeError::InvalidColor) naming the key and the text.
    pub fn parse(key: &'static str, text: &str) -> (res: Result<Rgb, ThemeError>)
        ensures
            hex_color(text@) matches Some(c) ==> res == Ok::<Rgb, ThemeError>(c),
            hex_color(text@) is None ==> (res matches Err(ThemeError::InvalidColor(k, v)) && k
                == key && v@ == text@),
    {
        let invalid = ThemeError::InvalidColor(key, text.to_owned());
        if text.unicode_len() != 7 || text.get_char(0) != '#' {
            return Err(invalid);
        }
        let red = byte(text.get_char(1), text.get_char(2));
        let green = byte(text.get_char(3), text.get_char(4));
        let blue = byte(text.get_char(5), text.get_char(6));
        match (red, green, blue) {
            (Some(red), Some(green), Some(blue)) => Ok(Rgb { red, green, blue }),
            _ => Err(invalid),
        }
    }
}

} // verus!
