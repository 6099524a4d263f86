use omarchy_lib_theme::api::bridge::{ResolvedRole, snapshot, to_color};
use omarchy_lib_theme::theme::Shades;
use omarchy_lib_theme::theme::reader::theme_from_text;
use omarchy_lib_theme::api::palette::Derived;
use omarchy_lib_theme::{Mode, Palette, PaletteSeed, Rgb, Theme, Treatment, represent};

fn rgb(hex: &str) -> Rgb {
    Rgb::parse("k", hex).unwrap()
}

const EVERFOREST: &str = r##"
# Everforest
mode = "dark"

background = "#2d353b"
dark_background = "#232a2e"
darker_background = "#1e2326"
lighter_background = "#343f44"
foreground = "#d3c6aa"
dark_foreground = "#9da9a0"
light_foreground = "#e6dcc4"
bright_foreground = "#fdf6e3"
accent = "#7fbbb3"
selection = "#3d484d"
muted = "#859289"

red = "#e67e80"
dark_red = "#c55a5c"
bright_red = "#f29c9e"
yellow = "#dbbc7f"
dark_yellow = "#bf9d5b"
bright_yellow = "#ecd39f"
green = "#a7c080"
dark_green = "#87a060"
bright_green = "#c3d9a0"
cyan = "#83c092"
dark_cyan = "#63a072"
bright_cyan = "#a3dcb1"
blue = "#7fbbb3"
dark_blue = "#5f9b93"
bright_blue = "#9fd7cf"
magenta = "#d699b6"
dark_magenta = "#b67996"
bright_magenta = "#efb5d2"

orange = "#e69875"
brown = "#8a6e55"
"##;

const FLEXOKI_LIGHT: &str = r##"
mode = "light"

background = "#fffcf0"
dark_background = "#f2f0e5"
darker_background = "#e6e4d9"
lighter_background = "#ffffff"
foreground = "#100f0f"
dark_foreground = "#403e3c"
light_foreground = "#282726"
bright_foreground = "#000000"
accent = "#205ea6"
selection = "#cecdc3"
muted = "#6f6e69"

red = "#af3029"
dark_red = "#942822"
bright_red = "#d14d41"
yellow = "#ad8301"
dark_yellow = "#8e6b01"
bright_yellow = "#d0a215"
green = "#66800b"
dark_green = "#536907"
bright_green = "#879a39"
cyan = "#24837b"
dark_cyan = "#1c6c66"
bright_cyan = "#3aa99f"
blue = "#205ea6"
dark_blue = "#1a4f8c"
bright_blue = "#4385be"
magenta = "#a02f6f"
dark_magenta = "#87285e"
bright_magenta = "#ce5d97"
"##;

/// Everforest, a dark theme.
fn everforest() -> Theme {
    theme_from_text("everforest.toml", EVERFOREST).unwrap()
}

/// Flexoki Light, a light theme.
fn flexoki_light() -> Theme {
    theme_from_text("flexoki-light.toml", FLEXOKI_LIGHT).unwrap()
}

fn palette(theme: Theme) -> Palette {
    PaletteSeed::from_theme(&theme).extend()
}

/// The snapshot of `palette`. The theme it reads is its source taken through its treatment, with
/// the source's colors standing in for the ones a treatment restates, and the theme's declared
/// colors stand in for the roles' resolved ones: what the snapshot says of the mode, and under
/// `Original` of the hue families, does not depend on them.
fn snapshot_of(palette: &Palette) -> omarchy_lib_theme::api::bridge::OmarchyLibThemeSnapshot {
    let source = palette.source_theme();
    let theme = represent(&source, palette.current_treatment(), |t: &Theme, _: Treatment| {
        t.colors
    });
    let c = &theme.colors;
    let role = |color: Rgb| ResolvedRole {
        color,
        main: c.foreground,
        secondary: c.muted,
        disabled: c.muted,
    };
    let roles = [
        c.background,
        c.lighter_background,
        c.dark_background,
        c.selection,
        c.accent,
        c.selection,
        c.muted,
        c.red,
        c.accent,
        c.muted,
    ]
    .map(role);
    let contents = [[c.background; 3]; 6];
    snapshot(palette, &theme, &roles, &contents)
}

#[test]
fn carries_the_theme_mode() {
    assert!(snapshot_of(&palette(everforest())).dark);
    assert!(!snapshot_of(&palette(flexoki_light())).dark);
}

#[test]
fn applies_the_requested_treatment() {
    let dark = palette(everforest());

    // Inverted flips the mode; Original leaves it as declared.
    assert!(!snapshot_of(&dark.represented(Treatment::Inverted)).dark);
    assert!(snapshot_of(&dark.represented(Treatment::Original)).dark);
}

#[test]
fn original_changes_nothing() {
    let palette = palette(everforest());

    assert_eq!(palette.represented(Treatment::Original), palette);
}

#[test]
fn represented_never_stacks() {
    let palette = palette(everforest());

    assert_eq!(
        palette
            .represented(Treatment::Inverted)
            .represented(Treatment::HighContrast),
        palette.represented(Treatment::HighContrast)
    );
}

#[test]
fn print_and_sepia_always_read_as_light() {
    for theme in [everforest(), flexoki_light()] {
        let palette = palette(theme);
        assert!(!palette.represented(Treatment::Print).dark());
        assert!(!palette.represented(Treatment::Sepia).dark());
    }
}

#[test]
fn inverted_flips_and_the_rest_keep_the_mode() {
    let dark = palette(everforest());
    let light = palette(flexoki_light());

    assert!(!dark.represented(Treatment::Inverted).dark());
    assert!(light.represented(Treatment::Inverted).dark());
    for treatment in [Treatment::Original, Treatment::HighContrast, Treatment::Mono] {
        assert!(dark.represented(treatment).dark());
        assert!(!light.represented(treatment).dark());
    }
}

#[test]
fn extend_keeps_the_whole_theme() {
    let theme = everforest();
    let palette = PaletteSeed::from_theme(&theme).extend();

    assert_eq!(palette.source_theme(), theme);
    assert_eq!(palette.current_treatment(), Treatment::Original);
}

#[test]
fn builders_overwrite_one_key_at_a_time() {
    let theme = everforest();
    let white = rgb("#ffffff");
    let black = rgb("#000000");

    let seed = PaletteSeed::from_theme(&theme)
        .with_selection(white)
        .with_muted(black)
        .with_surface_light(rgb("#101010"))
        .with_surface_dark(rgb("#202020"))
        .with_mode(Mode::Light)
        .with_error(Shades {
            color: rgb("#e5484d"),
            dark: rgb("#a03030"),
            bright: rgb("#ff7070"),
        });
    let source = seed.extend().source_theme();

    assert_eq!(source.mode, Mode::Light);
    assert_eq!(source.colors.selection, white);
    assert_eq!(source.colors.muted, black);
    assert_eq!(source.colors.lighter_background, rgb("#101010"));
    assert_eq!(source.colors.dark_background, rgb("#202020"));
    assert_eq!(source.colors.red, rgb("#e5484d"));
    assert_eq!(source.colors.dark_red, rgb("#a03030"));
    assert_eq!(source.colors.bright_red, rgb("#ff7070"));
    assert_eq!(source.colors.background, theme.colors.background);
    assert_eq!(source.colors.accent, theme.colors.accent);
    assert_eq!(source.colors.green, theme.colors.green);
}

#[test]
fn carries_the_colors_the_theme_declares() {
    let theme = everforest();
    let snapshot = snapshot_of(&palette(theme));

    let red = snapshot.colors[0];
    assert_eq!(red.original.color, to_color(theme.colors.red));
    assert_eq!(red.dark.color, to_color(theme.colors.dark_red));
    assert_eq!(red.bright.color, to_color(theme.colors.bright_red));
    assert!(snapshot.colors.iter().all(|family| family.declared));
}

#[test]
fn a_seed_built_by_the_application_fills_in_its_defaults() {
    let background = rgb("#1e1e2e");
    let foreground = rgb("#cdd6f4");
    let accent = rgb("#89b4fa");
    let derived = Derived {
        mode: Mode::Dark,
        dark_background: rgb("#11111b"),
        darker_background: rgb("#08080c"),
        lighter_background: rgb("#313244"),
        dark_error: rgb("#b03035"),
        bright_error: rgb("#f07075"),
    };
    let theme = PaletteSeed::new(background, foreground, accent, derived)
        .extend()
        .source_theme();
    let colors = theme.colors;

    assert_eq!(theme.mode, Mode::Dark);
    assert_eq!(colors.background, background);
    assert_eq!(colors.accent, accent);
    assert_eq!(colors.selection, accent);
    assert_eq!(colors.muted, foreground);
    assert_eq!(colors.dark_background, rgb("#11111b"));
    assert_eq!(colors.darker_background, rgb("#08080c"));
    assert_eq!(colors.lighter_background, rgb("#313244"));
    assert_eq!(colors.bright_foreground, foreground);
    assert_eq!(colors.red, rgb("#e5484d"));
    assert_eq!(colors.dark_red, rgb("#b03035"));
    assert_eq!(colors.bright_red, rgb("#f07075"));
    assert_eq!(colors.green, foreground);
    assert_eq!(colors.bright_magenta, foreground);
}

#[test]
fn the_defaults_yield_to_what_the_application_states() {
    let derived = Derived {
        mode: Mode::Light,
        dark_background: rgb("#eeeeee"),
        darker_background: rgb("#dddddd"),
        lighter_background: rgb("#ffffff"),
        dark_error: rgb("#b03035"),
        bright_error: rgb("#f07075"),
    };
    let colors = PaletteSeed::new(rgb("#fafafa"), rgb("#101010"), rgb("#0055aa"), derived)
        .with_selection(rgb("#c0d0e0"))
        .with_muted(rgb("#707070"))
        .extend()
        .source_theme()
        .colors;

    assert_eq!(colors.selection, rgb("#c0d0e0"));
    assert_eq!(colors.muted, rgb("#707070"));
    assert_eq!(colors.accent, rgb("#0055aa"));
}
