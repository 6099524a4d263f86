//! The palette contract: basic in, extended and readable out.

use vstd::prelude::*;

use crate::modes::{Treatment, treated_mode};
use crate::theme::{Mode, Rgb, Shades, Theme, ThemeColors};

verus! {

/// The error color a basic palette gets when the application does not state one. Red, distinct
/// from the accent, so a failing element reads as such no matter the theme.
pub open spec fn default_error() -> Rgb {
    Rgb { red: 229, green: 72, blue: 77 }
}

/// What a basic palette built by the application derives from its background's tone and from the
/// default error color: the mode the background reads as, the background's recessed, deeper and
/// raised steps, and the dark and bright shades of [`default_error`].
#[derive(Debug, Clone, Copy, PartialEq, Eq, Structural)]
pub struct Derived {
    pub mode: Mode,
    pub dark_background: Rgb,
    pub darker_background: Rgb,
    pub lighter_background: Rgb,
    pub dark_error: Rgb,
    pub bright_error: Rgb,
}

/// The full theme an application-built seed reads as: every key [`PaletteSeed::new`] leaves
/// unstated gets its default here, once — the selection is the accent, the muted content and every
/// foreground variant and hue are the foreground, the error is [`default_error`], and what depends
/// on the background's tone comes from `derived`.
pub open spec fn completed(background: Rgb, foreground: Rgb, accent: Rgb, derived: Derived) -> Theme {
    Theme {
        mode: derived.mode,
        colors: ThemeColors {
            accent,
            selection: accent,
            muted: foreground,
            background,
            dark_background: derived.dark_background,
            darker_background: derived.darker_background,
            lighter_background: derived.lighter_background,
            foreground,
            dark_foreground: foreground,
            light_foreground: foreground,
            bright_foreground: foreground,
            red: default_error(),
            dark_red: derived.dark_error,
            bright_red: derived.bright_error,
            yellow: foreground,
            dark_yellow: foreground,
            bright_yellow: foreground,
            green: foreground,
            dark_green: foreground,
            bright_green: foreground,
            cyan: foreground,
            dark_cyan: foreground,
            bright_cyan: foreground,
            blue: foreground,
            dark_blue: foreground,
            bright_blue: foreground,
            magenta: foreground,
            dark_magenta: foreground,
            bright_magenta: foreground,
        },
    }
}

/// The palette an application or the theme reader starts from. This is the one loading surface:
/// both the active Omarchy theme and an application-built palette enter through it, and
/// [`from_theme`](Self::from_theme) carries the whole [`Theme`] across, unchanged.
#[derive(Debug, Clone, Copy, PartialEq, Eq, Structural)]
pub struct PaletteSeed {
    theme: Theme,
}

impl PaletteSeed {
    /// The theme this seed reads as.
    pub closed spec fn theme(&self) -> Theme {
        self.theme
    }

    /// The basic palette of a [`Theme`] already read. Lossless: every key `theme` carries survives
    /// into [`extend`](Self::extend) untouched.
    pub fn from_theme(theme: &Theme) -> (seed: PaletteSeed)
        ensures
            seed.theme() == *theme,
    {
        PaletteSeed { theme: *theme }
    }

    /// A basic palette built by the application itself, from the three colors it owns. Every other
    /// key gets its default: the selection is the accent, the muted content is the foreground, the
    /// error is [`default_error`], and the rest as [`completed`] lists; the mode, the surfaces and
    /// the error's shades are the ones `derived` gives.
    pub fn new(background: Rgb, foreground: Rgb, accent: Rgb, derived: Derived) -> (seed:
        PaletteSeed)
        ensures
            seed.theme() == completed(background, foreground, accent, derived),
    {
        PaletteSeed {
            theme: Theme {
                mode: derived.mode,
                colors: ThemeColors {
                    accent,
                    selection: accent,
                    muted: foreground,
                    background,
                    dark_background: derived.dark_background,
                    darker_background: derived.darker_background,
                    lighter_background: derived.lighter_background,
                    foreground,
                    dark_foreground: foreground,
                    light_foreground: foreground,
                    bright_foreground: foreground,
                    red: Rgb { red: 229, green: 72, blue: 77 },
                    dark_red: derived.dark_error,
                    bright_red: derived.bright_error,
                    yellow: foreground,
                    dark_yellow: foreground,
                    bright_yellow: foreground,
                    green: foreground,
                    dark_green: foreground,
                    bright_green: foreground,
                    cyan: foreground,
                    dark_cyan: foreground,
                    bright_cyan: foreground,
                    blue: foreground,
                    dark_blue: foreground,
                    bright_blue: foreground,
                    magenta: foreground,
                    dark_magenta: foreground,
                    bright_magenta: foreground,
                },
            },
        }
    }

    /// The ground behind selected content. Defaults to the accent.
    pub fn with_selection(self, color: Rgb) -> (seed: PaletteSeed)
        ensures
            seed.theme() == (Theme {
                colors: ThemeColors { selection: color, ..self.theme().colors },
                ..self.theme()
            }),
    {
        let mut seed = self;
        seed.theme.colors.selection = color;
        seed
    }

    /// De-emphasized content. Defaults to the foreground.
    pub fn with_muted(self, color: Rgb) -> (seed: PaletteSeed)
        ensures
            seed.theme() == (Theme {
                colors: ThemeColors { muted: color, ..self.theme().colors },
                ..self.theme()
            }),
    {
        let mut seed = self;
        seed.theme.colors.muted = color;
        seed
    }

    /// The color that signals something went wrong — [`default_error`] unless stated — as the family of three it reads as: the
    /// color itself, and the dark and bright shades derived from it the same way a theme's own
    /// declared shades are.
    pub fn with_error(self, error: Shades) -> (seed: PaletteSeed)
        ensures
            seed.theme() == (Theme {
                colors: ThemeColors {
                    red: error.color,
                    dark_red: error.dark,
                    bright_red: error.bright,
                    ..self.theme().colors
                },
                ..self.theme()
            }),
    {
        let mut seed = self;
        seed.theme.colors.red = error.color;
        seed.theme.colors.dark_red = error.dark;
        seed.theme.colors.bright_red = error.bright;
        seed
    }

    /// The raised surface.
    pub fn with_surface_light(self, color: Rgb) -> (seed: PaletteSeed)
        ensures
            seed.theme() == (Theme {
                colors: ThemeColors { lighter_background: color, ..self.theme().colors },
                ..self.theme()
            }),
    {
        let mut seed = self;
        seed.theme.colors.lighter_background = color;
        seed
    }

    /// The recessed surface.
    pub fn with_surface_dark(self, color: Rgb) -> (seed: PaletteSeed)
        ensures
            seed.theme() == (Theme {
                colors: ThemeColors { dark_background: color, ..self.theme().colors },
                ..self.theme()
            }),
    {
        let mut seed = self;
        seed.theme.colors.dark_background = color;
        seed
    }

    /// The mode the palette reads as, instead of the one inferred from the background's tone.
    pub fn with_mode(self, mode: Mode) -> (seed: PaletteSeed)
        ensures
            seed.theme() == (Theme { mode, ..self.theme() }),
    {
        let mut seed = self;
        seed.theme.mode = mode;
        seed
    }

    /// The palette this seed extends to: its theme, as declared.
    pub closed spec fn extended(&self) -> Palette {
        Palette { source: self.theme, treatment: Treatment::Original }
    }

    /// The extended legible palette this basic one reads as: the seed's theme under the
    /// `Original` treatment.
    pub fn extend(&self) -> (palette: Palette)
        ensures
            palette == self.extended(),
            palette.source() == self.theme(),
            palette.treatment() == Treatment::Original,
    {
        Palette { source: self.theme, treatment: Treatment::Original }
    }
}

/// The extended legible palette: what an application draws with. It is fixed by the theme it was
/// resolved from and the treatment it is read through; every color it resolves follows from
/// those two.
#[derive(Debug, Clone, Copy, PartialEq, Eq, Structural)]
pub struct Palette {
    source: Theme,
    treatment: Treatment,
}

impl Palette {
    /// The theme the palette was resolved from, before any treatment.
    pub closed spec fn source(&self) -> Theme {
        self.source
    }

    /// The treatment the palette is read through.
    pub closed spec fn treatment(&self) -> Treatment {
        self.treatment
    }

    /// The same palette's source, read through `treatment` instead.
    pub closed spec fn represented_as(&self, treatment: Treatment) -> Palette {
        Palette { source: self.source, treatment }
    }

    /// The theme the palette was resolved from.
    pub fn source_theme(&self) -> (theme: Theme)
        ensures
            theme == self.source(),
    {
        self.source
    }

    /// The treatment the palette is read through.
    pub fn current_treatment(&self) -> (treatment: Treatment)
        ensures
            treatment == self.treatment(),
    {
        self.treatment
    }

    /// Whether the palette is built on a dark ground: the source's mode, as the treatment
    /// resolves it.
    pub fn dark(&self) -> (dark: bool)
        ensures
            dark == (treated_mode(self.treatment(), self.source().mode) == Mode::Dark),
    {
        self.treatment.applied_to(self.source.mode).is_dark()
    }

    /// The same palette, taken through `treatment` instead — always re-resolved from the original
    /// source, never stacked on top of the current one.
    pub fn represented(&self, treatment: Treatment) -> (palette: Palette)
        ensures
            palette == self.represented_as(treatment),
            palette.source() == self.source(),
            palette.treatment() == treatment,
    {
        Palette { source: self.source, treatment }
    }
}

/// What an application-built seed reads as, key by key: its background, foreground and accent
/// where it stated them; the accent as the selection; the foreground as the muted content, as every
/// foreground variant and as every hue but red; red as the default error color with the shades
/// `derived` gives; and the mode and surfaces `derived` gives.
pub proof fn application_seed_defaults(
    background: Rgb,
    foreground: Rgb,
    accent: Rgb,
    derived: Derived,
)
    ensures
        completed(background, foreground, accent, derived).mode == derived.mode,
        completed(background, foreground, accent, derived).colors.background == background,
        completed(background, foreground, accent, derived).colors.foreground == foreground,
        completed(background, foreground, accent, derived).colors.accent == accent,
        completed(background, foreground, accent, derived).colors.selection == accent,
        completed(background, foreground, accent, derived).colors.muted == foreground,
        completed(background, foreground, accent, derived).colors.dark_foreground == foreground,
        completed(background, foreground, accent, derived).colors.light_foreground == foreground,
        completed(background, foreground, accent, derived).colors.bright_foreground == foreground,
        completed(background, foreground, accent, derived).colors.dark_background
            == derived.dark_background,
        completed(background, foreground, accent, derived).colors.darker_background
            == derived.darker_background,
        completed(background, foreground, accent, derived).colors.lighter_background
            == derived.lighter_background,
        completed(background, foreground, accent, derived).colors.red == (Rgb {
            red: 229,
            green: 72,
            blue: 77,
        }),
        completed(background, foreground, accent, derived).colors.dark_red == derived.dark_error,
        completed(background, foreground, accent, derived).colors.bright_red
            == derived.bright_error,
        completed(background, foreground, accent, derived).colors.yellow == foreground,
        completed(background, foreground, accent, derived).colors.dark_yellow == foreground,
        completed(background, foreground, accent, derived).colors.bright_yellow == foreground,
        completed(background, foreground, accent, derived).colors.green == foreground,
        completed(background, foreground, accent, derived).colors.dark_green == foreground,
        completed(background, foreground, accent, derived).colors.bright_green == foreground,
        completed(background, foreground, accent, derived).colors.cyan == foreground,
        completed(background, foreground, accent, derived).colors.dark_cyan == foreground,
        completed(background, foreground, accent, derived).colors.bright_cyan == foreground,
        completed(background, foreground, accent, derived).colors.blue == foreground,
        completed(background, foreground, accent, derived).colors.dark_blue == foreground,
        completed(background, foreground, accent, derived).colors.bright_blue == foreground,
        completed(background, foreground, accent, derived).colors.magenta == foreground,
        completed(background, foreground, accent, derived).colors.dark_magenta == foreground,
        completed(background, foreground, accent, derived).colors.bright_magenta == foreground,
{
}

/// Taking a treatment of a treatment is the same as taking the second treatment directly, never a
/// stack of the two.
pub proof fn represented_never_stacks(palette: Palette, first: Treatment, second: Treatment)
    ensures
        palette.represented_as(first).represented_as(second) == palette.represented_as(second),
{
}

/// Reading an extended palette through `Original` changes nothing.
pub proof fn original_changes_nothing(seed: PaletteSeed)
    ensures
        seed.extended().represented_as(Treatment::Original) == seed.extended(),
{
}

/// A seed built from a theme extends to a palette that keeps that theme whole as its source.
pub proof fn extend_is_lossless(seed: PaletteSeed)
    ensures
        seed.extended().source() == seed.theme(),
{
}

} // verus!
