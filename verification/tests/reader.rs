use omarchy_lib_theme::theme::reader::{
    MAX_THEME_BYTES, admit_bytes, admit_metadata, parse_table, read_colors, read_error, read_mode,
    theme_from_text,
};
use omarchy_lib_theme::{Mode, Rgb, Theme, ThemeError};

const EVERFOREST: &str = r##"
# Everforest
mode = "dark"

background = "#2d353b"
dark_background = "#232a2e"
darker_background = "#1e2326"
lighter_background = "#343f44"
foreground = "#d3c6aa"
dark_foreground = "#9da9a0"
light_foreground = "#e6dcc4"
bright_foreground = "#fdf6e3"
accent = "#7fbbb3"
selection = "#3d484d"
muted = "#859289"

red = "#e67e80"
dark_red = "#c55a5c"
bright_red = "#f29c9e"
yellow = "#dbbc7f"
dark_yellow = "#bf9d5b"
bright_yellow = "#ecd39f"
green = "#a7c080"
dark_green = "#87a060"
bright_green = "#c3d9a0"
cyan = "#83c092"
dark_cyan = "#63a072"
bright_cyan = "#a3dcb1"
blue = "#7fbbb3"
dark_blue = "#5f9b93"
bright_blue = "#9fd7cf"
magenta = "#d699b6"
dark_magenta = "#b67996"
bright_magenta = "#efb5d2"

orange = "#e69875"
brown = "#8a6e55"
"##;

const FLEXOKI_LIGHT: &str = r##"
mode = "light"

background = "#fffcf0"
dark_background = "#f2f0e5"
darker_background = "#e6e4d9"
lighter_background = "#ffffff"
foreground = "#100f0f"
dark_foreground = "#403e3c"
light_foreground = "#282726"
bright_foreground = "#000000"
accent = "#205ea6"
selection = "#cecdc3"
muted = "#6f6e69"

red = "#af3029"
dark_red = "#942822"
bright_red = "#d14d41"
yellow = "#ad8301"
dark_yellow = "#8e6b01"
bright_yellow = "#d0a215"
green = "#66800b"
dark_green = "#536907"
bright_green = "#879a39"
cyan = "#24837b"
dark_cyan = "#1c6c66"
bright_cyan = "#3aa99f"
blue = "#205ea6"
dark_blue = "#1a4f8c"
bright_blue = "#4385be"
magenta = "#a02f6f"
dark_magenta = "#87285e"
bright_magenta = "#ce5d97"
"##;

fn rgb(hex: &str) -> Rgb {
    Rgb::parse("k", hex).unwrap()
}

fn read(name: &str, text: &str) -> Result<Theme, ThemeError> {
    theme_from_text(name, text)
}

/// `text` with the line declaring `key` taken out.
fn without(text: &str, key: &str) -> String {
    text.lines()
        .filter(|line| !line.starts_with(&format!("{key} =")))
        .map(|line| format!("{line}\n"))
        .collect()
}

/// `text` with the line declaring `key` replaced by `line`.
fn replaced(text: &str, key: &str, line: &str) -> String {
    text.lines()
        .map(|current| {
            if current.starts_with(&format!("{key} =")) {
                format!("{line}\n")
            } else {
                format!("{current}\n")
            }
        })
        .collect()
}

fn mode_of(text: &str) -> Result<Mode, ThemeError> {
    read_mode(&parse_table("colors.toml", text).unwrap())
}

#[test]
fn reads_a_complete_dark_theme() {
    let theme = read("everforest.toml", EVERFOREST).unwrap();

    assert_eq!(theme.mode, Mode::Dark);
    assert_eq!(theme.colors.background, rgb("#2d353b"));
    assert_eq!(theme.colors.foreground, rgb("#d3c6aa"));
    assert_eq!(theme.colors.accent, rgb("#7fbbb3"));
    assert_eq!(theme.colors.selection, rgb("#3d484d"));
}

#[test]
fn reads_every_color_under_its_own_key() {
    let colors = read("everforest.toml", EVERFOREST).unwrap().colors;

    assert_eq!(colors.dark_background, rgb("#232a2e"));
    assert_eq!(colors.darker_background, rgb("#1e2326"));
    assert_eq!(colors.lighter_background, rgb("#343f44"));
    assert_eq!(colors.bright_foreground, rgb("#fdf6e3"));
    assert_eq!(colors.muted, rgb("#859289"));
    assert_eq!(colors.dark_red, rgb("#c55a5c"));
    assert_eq!(colors.bright_yellow, rgb("#ecd39f"));
    assert_eq!(colors.cyan, rgb("#83c092"));
    assert_eq!(colors.bright_magenta, rgb("#efb5d2"));
}

#[test]
fn reads_a_light_theme() {
    let theme = read("flexoki-light.toml", FLEXOKI_LIGHT).unwrap();

    assert_eq!(theme.mode, Mode::Light);
    assert!(!theme.mode.is_dark());
}

/// `orange` and `brown` are outside the color contract: the theme declares both, and reading it
/// still succeeds, with nothing in `ThemeColors` carrying them.
#[test]
fn ignores_orange_and_brown() {
    let theme = read("everforest.toml", EVERFOREST).unwrap();

    assert_eq!(theme.colors.background, rgb("#2d353b"));
}

#[test]
fn ignores_keys_meant_for_other_applications() {
    let text = format!("{EVERFOREST}\ncursor = \"#d3c6aa\"\n[waybar]\nfont = \"mono\"\n");
    let theme = read("with-extra-keys.toml", &text).unwrap();

    assert_eq!(theme.colors.background, rgb("#2d353b"));
}

#[test]
fn tells_a_missing_theme_from_an_invalid_file() {
    let cause = std::io::Error::from(std::io::ErrorKind::NotFound);
    let missing = read_error(
        "does-not-exist.toml",
        cause.kind() == std::io::ErrorKind::NotFound,
        cause.to_string(),
    );
    assert!(matches!(missing, ThemeError::NotFound(_)));

    let invalid = read("malformed.toml", "[[[\nmode = ").unwrap_err();
    assert!(matches!(invalid, ThemeError::InvalidToml(_, _)));
}

#[test]
fn the_invalid_toml_message_leaves_out_the_quoted_line() {
    let error = read("malformed.toml", "[[[\nmode = ").unwrap_err();
    let message = error.message();

    assert!(message.contains("invalid TOML in"));
    let ThemeError::InvalidToml(_, cause) = &error else {
        panic!("not an invalid TOML error");
    };
    assert!(!cause.is_empty());
    assert!(message.ends_with(cause.as_str()));
    assert!(
        !message.contains("[[["),
        "the message quoted the file: {message}"
    );
}

#[test]
fn reports_the_missing_key() {
    let error = read("missing-background.toml", &without(EVERFOREST, "background")).unwrap_err();
    assert!(matches!(error, ThemeError::MissingKey("background")));
}

#[test]
fn reports_the_first_missing_key_in_reading_order() {
    let text = without(&without(EVERFOREST, "bright_magenta"), "muted");
    let error = read("colors.toml", &text).unwrap_err();
    assert!(matches!(error, ThemeError::MissingKey("muted")));
}

#[test]
fn reports_the_invalid_mode() {
    let text = replaced(EVERFOREST, "mode", "mode = \"sepia\"");
    let error = read("invalid-mode.toml", &text).unwrap_err();
    assert!(matches!(error, ThemeError::InvalidMode(value) if value == "sepia"));
}

#[test]
fn reports_the_mode_before_any_color() {
    let text = replaced(&without(EVERFOREST, "background"), "mode", "mode = \"sepia\"");
    let error = read("colors.toml", &text).unwrap_err();
    assert!(matches!(error, ThemeError::InvalidMode(value) if value == "sepia"));
}

#[test]
fn reports_the_invalid_color_with_its_key() {
    let text = replaced(EVERFOREST, "accent", "accent = \"rgb(1e1e1e)\"");
    let error = read("invalid-color.toml", &text).unwrap_err();
    assert!(
        matches!(error, ThemeError::InvalidColor("accent", value) if value == "rgb(1e1e1e)")
    );
}

#[test]
fn reports_a_color_that_is_not_a_string_as_it_reads() {
    let table = parse_table("colors.toml", &replaced(EVERFOREST, "red", "red = 12")).unwrap();
    let error = read_colors(&table).unwrap_err();
    assert!(matches!(error, ThemeError::InvalidColor("red", value) if value == "12"));
}

#[test]
fn reads_a_dark_and_a_light_mode() {
    assert_eq!(mode_of("mode = \"dark\"\nbackground = \"#2d353b\"\n").unwrap(), Mode::Dark);
    assert_eq!(mode_of("mode = \"light\"\n").unwrap(), Mode::Light);
}

#[test]
fn reports_a_mode_that_is_not_a_string_as_it_reads() {
    let error = mode_of("mode = 1\n").unwrap_err();
    assert!(matches!(error, ThemeError::InvalidMode(value) if value == "1"));
}

#[test]
fn reports_a_missing_mode() {
    let error = read("colors.toml", &without(EVERFOREST, "mode")).unwrap_err();
    assert!(matches!(error, ThemeError::MissingKey("mode")));
}

#[test]
fn rejects_a_theme_larger_than_the_cap() {
    let error = admit_metadata("oversized.toml", true, 64 * 1024 + 1).unwrap_err();
    assert!(matches!(error, ThemeError::TooLarge(_, size) if size > 64 * 1024));

    let bytes = vec![b'#'; MAX_THEME_BYTES as usize + 1];
    let error = admit_bytes("oversized.toml", bytes).unwrap_err();
    assert!(matches!(error, ThemeError::TooLarge(_, size) if size == 64 * 1024 + 1));
}

#[test]
fn admits_a_theme_at_the_cap() {
    assert!(admit_metadata("colors.toml", true, MAX_THEME_BYTES).is_ok());
    let bytes = vec![b' '; MAX_THEME_BYTES as usize];
    assert_eq!(admit_bytes("colors.toml", bytes).unwrap().len(), 65536);
}

#[test]
fn rejects_a_path_that_is_not_a_regular_file() {
    let error = admit_metadata("/", false, 0).unwrap_err();
    assert!(matches!(error, ThemeError::Unreadable(_, ref cause) if cause == "not a regular file"));
}

#[test]
fn rejects_bytes_that_are_not_text() {
    let error = admit_bytes("colors.toml", vec![0xff, 0xfe, b'a']).unwrap_err();
    assert!(matches!(error, ThemeError::Unreadable(ref path, ref cause) if path == "colors.toml" && cause.contains("utf-8")));
    assert_eq!(
        admit_bytes("colors.toml", EVERFOREST.as_bytes().to_vec()).unwrap(),
        EVERFOREST
    );
}

#[test]
fn reports_an_unreadable_file_with_its_cause() {
    let error = read_error("colors.toml", false, "permission denied".to_string());
    assert!(matches!(error, ThemeError::Unreadable(path, cause) if path == "colors.toml" && cause == "permission denied"));
}

#[test]
fn describes_each_error_in_a_sentence() {
    assert_eq!(
        ThemeError::NotFound("a.toml".to_string()).message(),
        "no theme found at a.toml"
    );
    assert_eq!(
        ThemeError::MissingKey("background").message(),
        "the theme does not declare `background`"
    );
    assert_eq!(
        ThemeError::InvalidColor("accent", "rgb(1e1e1e)".to_string()).message(),
        "invalid color for `accent`: `rgb(1e1e1e)`"
    );
    assert_eq!(
        ThemeError::TooLarge("big.toml".to_string(), 70000).message(),
        "big.toml is larger than a theme can be"
    );
}
