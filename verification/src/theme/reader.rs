//! Reading a theme: every decision between the bytes on disk and the values a `Theme` is built
//! from. Opening the file and asking for its metadata stay with the caller; what to make of what
//! came back is decided here.

use vstd::prelude::*;
use vstd::utf8::*;

use super::document::{
    Entry, EntryView, entry, parse_document, table_entries, toml_cause, toml_document,
};
use super::error::ThemeError;
use super::colors::{Theme, ThemeColors};
use super::mode::{Mode, mode_named};
use super::rgb::{Rgb, hex_color};

verus! {

/// A theme is a handful of keys; anything past this is not one. The cap bounds the read so a huge
/// file, or a symlink to an endless source, can't exhaust the host process.
pub const MAX_THEME_BYTES: u64 = 65536;

/// What `String::from_utf8`'s error reports through its `Display` for `bytes` that are not UTF-8.
pub uninterp spec fn utf8_cause(bytes: Seq<u8>) -> Seq<char>;

/// Turns the bytes read into text with `String::from_utf8`; a failure is carried as the text its
/// error displays. Claimed, as std documents it: the conversion succeeds exactly when the bytes
/// are valid UTF-8, and then yields the text they encode; a failure's text depends on the bytes
/// alone.
#[verifier::external_body]
fn utf8_text(bytes: Vec<u8>) -> (text: Result<String, String>)
    ensures
        text is Ok <==> valid_utf8(bytes@),
        text matches Ok(t) ==> t@ == decode_utf8(bytes@),
        text matches Err(cause) ==> cause@ == utf8_cause(bytes@),
{
    String::from_utf8(bytes).map_err(|error| error.to_string())
}

/// What the metadata of `path` allows: a regular file no larger than [`MAX_THEME_BYTES`]. A path
/// that is not a regular file is unreadable; a larger file is too large, with its size.
pub fn admit_metadata(path: &str, is_file: bool, len: u64) -> (admitted: Result<(), ThemeError>)
    ensures
        admitted is Ok <==> is_file && len <= MAX_THEME_BYTES,
        !is_file ==> (admitted matches Err(ThemeError::Unreadable(p, cause)) && p@ == path@
            && cause@ == "not a regular file"@),
        is_file && len > MAX_THEME_BYTES ==> (admitted matches Err(ThemeError::TooLarge(p, size))
            && p@ == path@ && size == len),
{
    if !is_file {
        return Err(ThemeError::Unreadable(path.to_owned(), "not a regular file".to_owned()));
    }
    if len > MAX_THEME_BYTES {
        return Err(ThemeError::TooLarge(path.to_owned(), len));
    }
    Ok(())
}

/// What the bytes read from `path` amount to: more than [`MAX_THEME_BYTES`] is too large, whatever
/// the metadata said; otherwise they have to be UTF-8, and are the theme's text.
pub fn admit_bytes(path: &str, bytes: Vec<u8>) -> (text: Result<String, ThemeError>)
    ensures
        bytes@.len() > MAX_THEME_BYTES ==> (text matches Err(ThemeError::TooLarge(p, size)) && p@
            == path@ && size == bytes@.len()),
        bytes@.len() <= MAX_THEME_BYTES && !valid_utf8(bytes@) ==> (text matches Err(
            ThemeError::Unreadable(p, cause),
        ) && p@ == path@ && cause@ == utf8_cause(bytes@)),
        bytes@.len() <= MAX_THEME_BYTES && valid_utf8(bytes@) ==> (text matches Ok(t) && t@
            == decode_utf8(bytes@)),
{
    let len = bytes.len();
    if len as u64 > MAX_THEME_BYTES {
        return Err(ThemeError::TooLarge(path.to_owned(), len as u64));
    }
    match utf8_text(bytes) {
        Ok(text) => Ok(text),
        Err(cause) => Err(ThemeError::Unreadable(path.to_owned(), cause)),
    }
}

/// The error a failed open or stat of `path` amounts to: a missing file is not found, anything
/// else unreadable with its cause.
pub fn read_error(path: &str, not_found: bool, cause: String) -> (error: ThemeError)
    ensures
        not_found ==> (error matches ThemeError::NotFound(p) && p@ == path@),
        !not_found ==> (error matches ThemeError::Unreadable(p, c) && p@ == path@ && c@ == cause@),
{
    if not_found {
        ThemeError::NotFound(path.to_owned())
    } else {
        ThemeError::Unreadable(path.to_owned(), cause)
    }
}

/// Parses the text of the theme at `path` as a TOML table. A document that is not TOML is
/// invalid, and the error carries the parser's cause without quoting the file.
pub fn parse_table(path: &str, text: &str) -> (table: Result<toml::Table, ThemeError>)
    ensures
        table is Ok <==> toml_document(text@) is Some,
        table matches Ok(t) ==> table_entries(t) == toml_document(text@).unwrap(),
        table matches Err(e) ==> (e matches ThemeError::InvalidToml(p, cause) && p@ == path@
            && cause@ == toml_cause(text@)),
{
    match parse_document(text) {
        Ok(table) => Ok(table),
        Err(cause) => Err(ThemeError::InvalidToml(path.to_owned(), cause)),
    }
}

/// What a theme's `mode` entry amounts to: no entry is a missing key; a value that is not a string
/// is an invalid mode, reported as the TOML it renders as; a string is read by [`Mode::parse`].
pub open spec fn mode_of(entries: Map<Seq<char>, EntryView>) -> Option<Mode> {
    if entries.contains_key("mode"@) {
        match entries["mode"@] {
            EntryView::Text(text) => mode_named(text),
            EntryView::Other(_) => None,
        }
    } else {
        None
    }
}

/// `error` is what reading the `mode` entry of `entries` reports when it does not name a mode: a
/// missing key, or the invalid value — its text, or the TOML it renders as when it is not a
/// string.
pub open spec fn mode_error(entries: Map<Seq<char>, EntryView>, error: ThemeError) -> bool {
    if !entries.contains_key("mode"@) {
        error == ThemeError::MissingKey("mode")
    } else {
        error matches ThemeError::InvalidMode(v) && (match entries["mode"@] {
            EntryView::Text(t) => v@ == t,
            EntryView::Other(r) => v@ == r,
        })
    }
}

/// Reads the mode a theme declares under its `mode` key.
pub fn read_mode(table: &toml::Table) -> (mode: Result<Mode, ThemeError>)
    ensures
        mode_of(table_entries(*table)) matches Some(m) ==> mode == Ok::<Mode, ThemeError>(m),
        mode_of(table_entries(*table)) is None ==> (mode matches Err(e) && mode_error(
            table_entries(*table),
            e,
        )),
{
    match entry(table, "mode") {
        None => Err(ThemeError::MissingKey("mode")),
        Some(Entry::Other(rendered)) => Err(ThemeError::InvalidMode(rendered)),
        Some(Entry::Text(text)) => Mode::parse(text.as_str()),
    }
}

/// How many color keys the theme contract holds.
pub const COLOR_KEY_COUNT: usize = 29;

/// The color key at `index`, in the order a theme's colors are read: the grounds and the text
/// first, then the surfaces, then each hue with its dark and bright shades.
pub open spec fn color_key(index: int) -> Seq<char> {
    if index == 0 {
        "background"@
    } else if index == 1 {
        "foreground"@
    } else if index == 2 {
        "accent"@
    } else if index == 3 {
        "selection"@
    } else if index == 4 {
        "muted"@
    } else if index == 5 {
        "dark_background"@
    } else if index == 6 {
        "darker_background"@
    } else if index == 7 {
        "lighter_background"@
    } else if index == 8 {
        "dark_foreground"@
    } else if index == 9 {
        "light_foreground"@
    } else if index == 10 {
        "bright_foreground"@
    } else if index == 11 {
        "red"@
    } else if index == 12 {
        "dark_red"@
    } else if index == 13 {
        "bright_red"@
    } else if index == 14 {
        "yellow"@
    } else if index == 15 {
        "dark_yellow"@
    } else if index == 16 {
        "bright_yellow"@
    } else if index == 17 {
        "green"@
    } else if index == 18 {
        "dark_green"@
    } else if index == 19 {
        "bright_green"@
    } else if index == 20 {
        "cyan"@
    } else if index == 21 {
        "dark_cyan"@
    } else if index == 22 {
        "bright_cyan"@
    } else if index == 23 {
        "blue"@
    } else if index == 24 {
        "dark_blue"@
    } else if index == 25 {
        "bright_blue"@
    } else if index == 26 {
        "magenta"@
    } else if index == 27 {
        "dark_magenta"@
    } else {
        "bright_magenta"@
    }
}

/// The color key at `index`, as [`color_key`] orders them.
pub fn color_key_at(index: usize) -> (key: &'static str)
    requires
        index < COLOR_KEY_COUNT,
    ensures
        key@ == color_key(index as int),
{
    match index {
        0 => "background",
        1 => "foreground",
        2 => "accent",
        3 => "selection",
        4 => "muted",
        5 => "dark_background",
        6 => "darker_background",
        7 => "lighter_background",
        8 => "dark_foreground",
        9 => "light_foreground",
        10 => "bright_foreground",
        11 => "red",
        12 => "dark_red",
        13 => "bright_red",
        14 => "yellow",
        15 => "dark_yellow",
        16 => "bright_yellow",
        17 => "green",
        18 => "dark_green",
        19 => "bright_green",
        20 => "cyan",
        21 => "dark_cyan",
        22 => "bright_cyan",
        23 => "blue",
        24 => "dark_blue",
        25 => "bright_blue",
        26 => "magenta",
        27 => "dark_magenta",
        _ => "bright_magenta",
    }
}

/// The color declared under `key`, when `key` holds a `#rrggbb` string.
pub open spec fn color_at(entries: Map<Seq<char>, EntryView>, key: Seq<char>) -> Option<Rgb> {
    if entries.contains_key(key) {
        match entries[key] {
            EntryView::Text(t) => hex_color(t),
            EntryView::Other(_) => None,
        }
    } else {
        None
    }
}

/// `error` is what reading the color key `key` of `entries` reports when it holds no color: a
/// missing key, or an invalid color carrying the key and the value — its text, or the TOML it
/// renders as when it is not a string.
pub open spec fn color_error(
    entries: Map<Seq<char>, EntryView>,
    key: Seq<char>,
    error: ThemeError,
) -> bool {
    if !entries.contains_key(key) {
        error matches ThemeError::MissingKey(k) && k@ == key
    } else {
        error matches ThemeError::InvalidColor(k, v) && k@ == key && (match entries[key] {
            EntryView::Text(t) => v@ == t,
            EntryView::Other(r) => v@ == r,
        })
    }
}

/// Every color key of the contract holds a color.
pub open spec fn all_colors_declared(entries: Map<Seq<char>, EntryView>) -> bool {
    forall|i: int| 0 <= i < 29 ==> (#[trigger] color_at(entries, color_key(i))) is Some
}

/// The key at `index` is the first one, in reading order, that holds no color.
pub open spec fn first_missing_color(entries: Map<Seq<char>, EntryView>, index: int) -> bool {
    &&& 0 <= index < 29
    &&& color_at(entries, color_key(index)) is None
    &&& forall|j: int| 0 <= j < index ==> (#[trigger] color_at(entries, color_key(j))) is Some
}

/// The colors a theme's entries declare, when every key of the contract holds a `#rrggbb` string.
/// Keys outside the contract are ignored.
pub open spec fn colors_of(entries: Map<Seq<char>, EntryView>) -> Option<ThemeColors> {
    if all_colors_declared(entries) {
        Some(
            ThemeColors {
                background: color_at(entries, "background"@).unwrap(),
                foreground: color_at(entries, "foreground"@).unwrap(),
                accent: color_at(entries, "accent"@).unwrap(),
                selection: color_at(entries, "selection"@).unwrap(),
                muted: color_at(entries, "muted"@).unwrap(),
                dark_background: color_at(entries, "dark_background"@).unwrap(),
                darker_background: color_at(entries, "darker_background"@).unwrap(),
                lighter_background: color_at(entries, "lighter_background"@).unwrap(),
                dark_foreground: color_at(entries, "dark_foreground"@).unwrap(),
                light_foreground: color_at(entries, "light_foreground"@).unwrap(),
                bright_foreground: color_at(entries, "bright_foreground"@).unwrap(),
                red: color_at(entries, "red"@).unwrap(),
                dark_red: color_at(entries, "dark_red"@).unwrap(),
                bright_red: color_at(entries, "bright_red"@).unwrap(),
                yellow: color_at(entries, "yellow"@).unwrap(),
                dark_yellow: color_at(entries, "dark_yellow"@).unwrap(),
                bright_yellow: color_at(entries, "bright_yellow"@).unwrap(),
                green: color_at(entries, "green"@).unwrap(),
                dark_green: color_at(entries, "dark_green"@).unwrap(),
                bright_green: color_at(entries, "bright_green"@).unwrap(),
                cyan: color_at(entries, "cyan"@).unwrap(),
                dark_cyan: color_at(entries, "dark_cyan"@).unwrap(),
                bright_cyan: color_at(entries, "bright_cyan"@).unwrap(),
                blue: color_at(entries, "blue"@).unwrap(),
                dark_blue: color_at(entries, "dark_blue"@).unwrap(),
                bright_blue: color_at(entries, "bright_blue"@).unwrap(),
                magenta: color_at(entries, "magenta"@).unwrap(),
                dark_magenta: color_at(entries, "dark_magenta"@).unwrap(),
                bright_magenta: color_at(entries, "bright_magenta"@).unwrap(),
            },
        )
    } else {
        None
    }
}

/// Each color of a theme is the one declared under its own key: the green hue is what `green`
/// holds, the yellow hue what `yellow` holds, and so for every key of the contract. No color is
/// ever read from another key.
pub proof fn colors_are_read_under_their_own_keys(entries: Map<Seq<char>, EntryView>)
    requires
        colors_of(entries) is Some,
    ensures
        colors_of(entries).unwrap().background == color_at(entries, "background"@).unwrap(),
        colors_of(entries).unwrap().foreground == color_at(entries, "foreground"@).unwrap(),
        colors_of(entries).unwrap().accent == color_at(entries, "accent"@).unwrap(),
        colors_of(entries).unwrap().selection == color_at(entries, "selection"@).unwrap(),
        colors_of(entries).unwrap().muted == color_at(entries, "muted"@).unwrap(),
        colors_of(entries).unwrap().dark_background == color_at(entries, "dark_background"@).unwrap(),
        colors_of(entries).unwrap().darker_background == color_at(entries, "darker_background"@).unwrap(),
        colors_of(entries).unwrap().lighter_background == color_at(entries, "lighter_background"@).unwrap(),
        colors_of(entries).unwrap().dark_foreground == color_at(entries, "dark_foreground"@).unwrap(),
        colors_of(entries).unwrap().light_foreground == color_at(entries, "light_foreground"@).unwrap(),
        colors_of(entries).unwrap().bright_foreground == color_at(entries, "bright_foreground"@).unwrap(),
        colors_of(entries).unwrap().red == color_at(entries, "red"@).unwrap(),
        colors_of(entries).unwrap().dark_red == color_at(entries, "dark_red"@).unwrap(),
        colors_of(entries).unwrap().bright_red == color_at(entries, "bright_red"@).unwrap(),
        colors_of(entries).unwrap().yellow == color_at(entries, "yellow"@).unwrap(),
        colors_of(entries).unwrap().dark_yellow == color_at(entries, "dark_yellow"@).unwrap(),
        colors_of(entries).unwrap().bright_yellow == color_at(entries, "bright_yellow"@).unwrap(),
        colors_of(entries).unwrap().green == color_at(entries, "green"@).unwrap(),
        colors_of(entries).unwrap().dark_green == color_at(entries, "dark_green"@).unwrap(),
        colors_of(entries).unwrap().bright_green == color_at(entries, "bright_green"@).unwrap(),
        colors_of(entries).unwrap().cyan == color_at(entries, "cyan"@).unwrap(),
        colors_of(entries).unwrap().dark_cyan == color_at(entries, "dark_cyan"@).unwrap(),
        colors_of(entries).unwrap().bright_cyan == color_at(entries, "bright_cyan"@).unwrap(),
        colors_of(entries).unwrap().blue == color_at(entries, "blue"@).unwrap(),
        colors_of(entries).unwrap().dark_blue == color_at(entries, "dark_blue"@).unwrap(),
        colors_of(entries).unwrap().bright_blue == color_at(entries, "bright_blue"@).unwrap(),
        colors_of(entries).unwrap().magenta == color_at(entries, "magenta"@).unwrap(),
        colors_of(entries).unwrap().dark_magenta == color_at(entries, "dark_magenta"@).unwrap(),
        colors_of(entries).unwrap().bright_magenta == color_at(entries, "bright_magenta"@).unwrap(),
{
}

/// Reads the color declared under `key`.
pub fn read_color(table: &toml::Table, key: &'static str) -> (color: Result<Rgb, ThemeError>)
    ensures
        color_at(table_entries(*table), key@) matches Some(c) ==> color == Ok::<Rgb, ThemeError>(
            c,
        ),
        color_at(table_entries(*table), key@) is None ==> (color matches Err(e) && color_error(
            table_entries(*table),
            key@,
            e,
        )),
{
    match entry(table, key) {
        None => Err(ThemeError::MissingKey(key)),
        Some(Entry::Other(rendered)) => Err(ThemeError::InvalidColor(key, rendered)),
        Some(Entry::Text(text)) => Rgb::parse(key, text.as_str()),
    }
}

/// Reads every color of the theme contract from `table`, in the order [`color_key`] gives. The
/// first key that holds no color is the one reported.
pub fn read_colors(table: &toml::Table) -> (colors: Result<ThemeColors, ThemeError>)
    ensures
        colors_of(table_entries(*table)) matches Some(c) ==> colors == Ok::<
            ThemeColors,
            ThemeError,
        >(c),
        colors_of(table_entries(*table)) is None ==> colors is Err,
        forall|i: int|
            #![trigger color_key(i)]
            first_missing_color(table_entries(*table), i) ==> (colors matches Err(e)
                && color_error(table_entries(*table), color_key(i), e)),
{
    let ghost entries = table_entries(*table);
    let mut read: Vec<Rgb> = Vec::new();
    let mut i: usize = 0;
    while i < COLOR_KEY_COUNT
        invariant
            entries == table_entries(*table),
            i <= COLOR_KEY_COUNT,
            read@.len() == i,
            forall|j: int| 0 <= j < i ==> color_at(entries, #[trigger] color_key(j)) == Some(
                read@[j],
            ),
        decreases COLOR_KEY_COUNT - i,
    {
        let key = color_key_at(i);
        match read_color(table, key) {
            Ok(color) => {
                read.push(color);
            },
            Err(error) => {
                assert forall|k: int|
                    #![trigger color_key(k)]
                    first_missing_color(entries, k) implies k == i as int by {
                    if k < i {
                        assert(color_at(entries, color_key(k)) is Some);
                    } else if k > i {
                        assert(color_at(entries, color_key(i as int)) is Some);
                    }
                }
                assert(!all_colors_declared(entries)) by {
                    assert(color_at(entries, color_key(i as int)) is None);
                }
                return Err(error);
            },
        }
        i = i + 1;
    }
    assert(all_colors_declared(entries));
    assert forall|k: int| #![trigger color_key(k)] !first_missing_color(entries, k) by {
        if 0 <= k < 29 {
            assert(color_at(entries, color_key(k)) is Some);
        }
    }
    let colors = ThemeColors {
        background: read[0],
        foreground: read[1],
        accent: read[2],
        selection: read[3],
        muted: read[4],
        dark_background: read[5],
        darker_background: read[6],
        lighter_background: read[7],
        dark_foreground: read[8],
        light_foreground: read[9],
        bright_foreground: read[10],
        red: read[11],
        dark_red: read[12],
        bright_red: read[13],
        yellow: read[14],
        dark_yellow: read[15],
        bright_yellow: read[16],
        green: read[17],
        dark_green: read[18],
        bright_green: read[19],
        cyan: read[20],
        dark_cyan: read[21],
        bright_cyan: read[22],
        blue: read[23],
        dark_blue: read[24],
        bright_blue: read[25],
        magenta: read[26],
        dark_magenta: read[27],
        bright_magenta: read[28],
    };
    assert(colors_of(entries) == Some(colors)) by {
        assert(color_at(entries, color_key(0)) == Some(read@[0]));
        assert(color_at(entries, color_key(1)) == Some(read@[1]));
        assert(color_at(entries, color_key(2)) == Some(read@[2]));
        assert(color_at(entries, color_key(3)) == Some(read@[3]));
        assert(color_at(entries, color_key(4)) == Some(read@[4]));
        assert(color_at(entries, color_key(5)) == Some(read@[5]));
        assert(color_at(entries, color_key(6)) == Some(read@[6]));
        assert(color_at(entries, color_key(7)) == Some(read@[7]));
        assert(color_at(entries, color_key(8)) == Some(read@[8]));
        assert(color_at(entries, color_key(9)) == Some(read@[9]));
        assert(color_at(entries, color_key(10)) == Some(read@[10]));
        assert(color_at(entries, color_key(11)) == Some(read@[11]));
        assert(color_at(entries, color_key(12)) == Some(read@[12]));
        assert(color_at(entries, color_key(13)) == Some(read@[13]));
        assert(color_at(entries, color_key(14)) == Some(read@[14]));
        assert(color_at(entries, color_key(15)) == Some(read@[15]));
        assert(color_at(entries, color_key(16)) == Some(read@[16]));
        assert(color_at(entries, color_key(17)) == Some(read@[17]));
        assert(color_at(entries, color_key(18)) == Some(read@[18]));
        assert(color_at(entries, color_key(19)) == Some(read@[19]));
        assert(color_at(entries, color_key(20)) == Some(read@[20]));
        assert(color_at(entries, color_key(21)) == Some(read@[21]));
        assert(color_at(entries, color_key(22)) == Some(read@[22]));
        assert(color_at(entries, color_key(23)) == Some(read@[23]));
        assert(color_at(entries, color_key(24)) == Some(read@[24]));
        assert(color_at(entries, color_key(25)) == Some(read@[25]));
        assert(color_at(entries, color_key(26)) == Some(read@[26]));
        assert(color_at(entries, color_key(27)) == Some(read@[27]));
        assert(color_at(entries, color_key(28)) == Some(read@[28]));
    }
    Ok(colors)
}

/// Reads a theme from the text of its file at `path`: the TOML document, then its mode, then its
/// colors. A text that is not TOML is invalid; a bad mode is reported before any color.
pub fn theme_from_text(path: &str, text: &str) -> (theme: Result<Theme, ThemeError>)
    ensures
        toml_document(text@) is None ==> (theme matches Err(ThemeError::InvalidToml(p, cause))
            && p@ == path@ && cause@ == toml_cause(text@)),
        toml_document(text@) matches Some(d) ==> {
            &&& theme is Ok <==> mode_of(d) is Some && colors_of(d) is Some
            &&& theme matches Ok(t) ==> t.mode == mode_of(d).unwrap() && t.colors == colors_of(
                d,
            ).unwrap()
            &&& mode_of(d) is None ==> (theme matches Err(e) && mode_error(d, e))
            &&& mode_of(d) is Some ==> forall|i: int|
                #![trigger color_key(i)]
                first_missing_color(d, i) ==> (theme matches Err(e) && color_error(
                    d,
                    color_key(i),
                    e,
                ))
        },
{
    let table = parse_table(path, text)?;
    let mode = read_mode(&table)?;
    let colors = read_colors(&table)?;
    Ok(Theme { mode, colors })
}

} // verus!
