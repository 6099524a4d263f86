//! MODES — the same theme, taken through a different treatment before COLOR resolves it.

use vstd::prelude::*;

use crate::theme::{Mode, Rgb, Theme, ThemeColors};

verus! {

/// A way of taking the theme's raw colors before the roles see them. Each variant yields a full
/// theme, so every guarantee the roles make is recomputed from the transformed base.
///
/// A treatment applies on top of the [`Mode`] a theme already resolves to; it is not a peer of
/// `Mode`, it is an operation that runs after one is settled. Three variants change the resulting
/// mode by design: [`Inverted`](Self::Inverted) restates the same theme for the opposite ground,
/// and [`Print`](Self::Print) and [`Sepia`](Self::Sepia) always force [`Light`](Mode::Light)
/// because paper is light. The other three leave the mode untouched.
#[derive(Debug, Clone, Copy, PartialEq, Eq, Hash, Structural)]
pub enum Treatment {
    /// The theme as declared, untouched.
    Original,
    /// The same theme restated for the opposite ground, keeping its identity. Flips the mode.
    Inverted,
    /// Every color pushed further from the background than it already stood.
    HighContrast,
    /// Every color desaturated: same tone, no hue.
    Mono,
    /// Forced onto a page: white behind, black in front, and every color as its own grey.
    Print,
    /// Forced onto aged paper: a warm ground behind, dark brown in front, and every color a shade
    /// of that one brown.
    Sepia,
}

impl Treatment {
    pub const ALL: [Treatment; 6] = [
        Treatment::Original,
        Treatment::Inverted,
        Treatment::HighContrast,
        Treatment::Mono,
        Treatment::Print,
        Treatment::Sepia,
    ];
}

/// The opposite polarity.
pub open spec fn flipped(mode: Mode) -> Mode {
    match mode {
        Mode::Dark => Mode::Light,
        Mode::Light => Mode::Dark,
    }
}

/// The mode a theme declared as `mode` resolves to once taken through `treatment`.
pub open spec fn treated_mode(treatment: Treatment, mode: Mode) -> Mode {
    match treatment {
        Treatment::Inverted => flipped(mode),
        Treatment::Print | Treatment::Sepia => Mode::Light,
        Treatment::Original | Treatment::HighContrast | Treatment::Mono => mode,
    }
}

impl Treatment {
    /// The mode a theme declared as `mode` resolves to under this treatment: Inverted flips it,
    /// Print and Sepia force a light page, and the other three keep it as declared.
    pub fn applied_to(self, mode: Mode) -> (resolved: Mode)
        ensures
            resolved == treated_mode(self, mode),
    {
        match self {
            Treatment::Inverted => match mode {
                Mode::Dark => Mode::Light,
                Mode::Light => Mode::Dark,
            },
            Treatment::Print | Treatment::Sepia => Mode::Light,
            Treatment::Original | Treatment::HighContrast | Treatment::Mono => mode,
        }
    }
}

/// `f` took `before` to `after`.
pub open spec fn maps_to<F: Fn(Rgb) -> Rgb>(f: F, before: Rgb, after: Rgb) -> bool {
    call_ensures(f, (before,), after)
}

/// `f` may be applied to any color.
pub open spec fn total<F: Fn(Rgb) -> Rgb>(f: F) -> bool {
    forall|c: Rgb| #[trigger] call_requires(f, (c,))
}

/// Every color that carries the page — grounds, text and the surfaces the roles rest on — went
/// from `before` to `after` through `f`.
pub open spec fn structure_mapped<F: Fn(Rgb) -> Rgb>(
    f: F,
    before: ThemeColors,
    after: ThemeColors,
) -> bool {
    &&& maps_to(f, before.selection, after.selection)
    &&& maps_to(f, before.muted, after.muted)
    &&& maps_to(f, before.background, after.background)
    &&& maps_to(f, before.dark_background, after.dark_background)
    &&& maps_to(f, before.darker_background, after.darker_background)
    &&& maps_to(f, before.lighter_background, after.lighter_background)
    &&& maps_to(f, before.foreground, after.foreground)
    &&& maps_to(f, before.dark_foreground, after.dark_foreground)
    &&& maps_to(f, before.light_foreground, after.light_foreground)
    &&& maps_to(f, before.bright_foreground, after.bright_foreground)
}

/// Every color that accents the page — the accent and the six hue families — went from `before`
/// to `after` through `f`.
pub open spec fn accents_mapped<F: Fn(Rgb) -> Rgb>(
    f: F,
    before: ThemeColors,
    after: ThemeColors,
) -> bool {
    &&& maps_to(f, before.accent, after.accent)
    &&& maps_to(f, before.red, after.red)
    &&& maps_to(f, before.dark_red, after.dark_red)
    &&& maps_to(f, before.bright_red, after.bright_red)
    &&& maps_to(f, before.yellow, after.yellow)
    &&& maps_to(f, before.dark_yellow, after.dark_yellow)
    &&& maps_to(f, before.bright_yellow, after.bright_yellow)
    &&& maps_to(f, before.green, after.green)
    &&& maps_to(f, before.dark_green, after.dark_green)
    &&& maps_to(f, before.bright_green, after.bright_green)
    &&& maps_to(f, before.cyan, after.cyan)
    &&& maps_to(f, before.dark_cyan, after.dark_cyan)
    &&& maps_to(f, before.bright_cyan, after.bright_cyan)
    &&& maps_to(f, before.blue, after.blue)
    &&& maps_to(f, before.dark_blue, after.dark_blue)
    &&& maps_to(f, before.bright_blue, after.bright_blue)
    &&& maps_to(f, before.magenta, after.magenta)
    &&& maps_to(f, before.dark_magenta, after.dark_magenta)
    &&& maps_to(f, before.bright_magenta, after.bright_magenta)
}

/// Applies `f` to every color the theme declares.
pub fn map_colors<F: Fn(Rgb) -> Rgb>(colors: &ThemeColors, f: F) -> (mapped: ThemeColors)
    requires
        total(f),
    ensures
        structure_mapped(f, *colors, mapped),
        accents_mapped(f, *colors, mapped),
{
    map_split(colors, &f, &f)
}

/// Applies `structure` to the colors that carry the page — the grounds, the text, and the surfaces
/// the roles rest on — and `accent` to the ones that accent it. The split a treatment needs
/// whenever the two cannot take the same transform.
pub fn map_split<S: Fn(Rgb) -> Rgb, A: Fn(Rgb) -> Rgb>(
    colors: &ThemeColors,
    structure: S,
    accent: A,
) -> (mapped: ThemeColors)
    requires
        total(structure),
        total(accent),
    ensures
        structure_mapped(structure, *colors, mapped),
        accents_mapped(accent, *colors, mapped),
{
    ThemeColors {
        accent: accent(colors.accent),
        selection: structure(colors.selection),
        muted: structure(colors.muted),
        background: structure(colors.background),
        dark_background: structure(colors.dark_background),
        darker_background: structure(colors.darker_background),
        lighter_background: structure(colors.lighter_background),
        foreground: structure(colors.foreground),
        dark_foreground: structure(colors.dark_foreground),
        light_foreground: structure(colors.light_foreground),
        bright_foreground: structure(colors.bright_foreground),
        red: accent(colors.red),
        dark_red: accent(colors.dark_red),
        bright_red: accent(colors.bright_red),
        yellow: accent(colors.yellow),
        dark_yellow: accent(colors.dark_yellow),
        bright_yellow: accent(colors.bright_yellow),
        green: accent(colors.green),
        dark_green: accent(colors.dark_green),
        bright_green: accent(colors.bright_green),
        cyan: accent(colors.cyan),
        dark_cyan: accent(colors.dark_cyan),
        bright_cyan: accent(colors.bright_cyan),
        blue: accent(colors.blue),
        dark_blue: accent(colors.dark_blue),
        bright_blue: accent(colors.bright_blue),
        magenta: accent(colors.magenta),
        dark_magenta: accent(colors.dark_magenta),
        bright_magenta: accent(colors.bright_magenta),
    }
}

/// White, the page a printed theme is forced onto.
pub open spec fn white() -> Rgb {
    Rgb { red: 255, green: 255, blue: 255 }
}

/// Black, the ink a printed theme's text is forced to.
pub open spec fn black() -> Rgb {
    Rgb { red: 0, green: 0, blue: 0 }
}

/// `colors` forced onto a page: the four grounds white, the four foregrounds black, every other
/// color as it was.
pub open spec fn on_paper(colors: ThemeColors) -> ThemeColors {
    ThemeColors {
        background: white(),
        dark_background: white(),
        darker_background: white(),
        lighter_background: white(),
        foreground: black(),
        dark_foreground: black(),
        light_foreground: black(),
        bright_foreground: black(),
        ..colors
    }
}

/// Takes `theme` through `treatment`, returning a full theme the roles can resolve as usual.
///
/// `Original` is the theme exactly as declared. Every other treatment restates the colors —
/// `recolor` is what restates them, given the theme and the treatment — and resolves the mode the
/// way [`Treatment::applied_to`] says: Inverted flips it, Print and Sepia force a light page,
/// HighContrast and Mono keep it. Print also forces the page itself: white behind, black in front,
/// whatever `recolor` gave the grounds and the text.
pub fn represent<F: Fn(&Theme, Treatment) -> ThemeColors>(
    theme: &Theme,
    treatment: Treatment,
    recolor: F,
) -> (represented: Theme)
    requires
        forall|t: &Theme, u: Treatment| #[trigger] call_requires(recolor, (t, u)),
    ensures
        treatment == Treatment::Original ==> represented == *theme,
        represented.mode == treated_mode(treatment, theme.mode),
        treatment != Treatment::Original && treatment != Treatment::Print ==> call_ensures(
            recolor,
            (theme, treatment),
            represented.colors,
        ),
        treatment == Treatment::Print ==> exists|restated: ThemeColors|
            #[trigger] call_ensures(recolor, (theme, treatment), restated) && represented.colors
                == on_paper(restated),
{
    match treatment {
        Treatment::Original => *theme,
        Treatment::Print => {
            let white = Rgb { red: 255, green: 255, blue: 255 };
            let black = Rgb { red: 0, green: 0, blue: 0 };
            let restated = recolor(theme, treatment);
            let mut colors = restated;
            colors.background = white;
            colors.dark_background = white;
            colors.darker_background = white;
            colors.lighter_background = white;
            colors.foreground = black;
            colors.dark_foreground = black;
            colors.light_foreground = black;
            colors.bright_foreground = black;
            assert(colors == on_paper(restated));
            Theme { mode: treatment.applied_to(theme.mode), colors }
        },
        _ => Theme { mode: treatment.applied_to(theme.mode), colors: recolor(theme, treatment) },
    }
}

/// How each treatment relates to the mode a theme declares: Inverted always lands on the opposite
/// ground, Print and Sepia always on a light page whatever the theme was, and Original,
/// HighContrast and Mono on the mode as declared.
pub proof fn treatments_settle_the_mode(mode: Mode)
    ensures
        treated_mode(Treatment::Inverted, mode) != mode,
        treated_mode(Treatment::Print, mode) == Mode::Light,
        treated_mode(Treatment::Sepia, mode) == Mode::Light,
        treated_mode(Treatment::Original, mode) == mode,
        treated_mode(Treatment::HighContrast, mode) == mode,
        treated_mode(Treatment::Mono, mode) == mode,
{
}

/// Print forces the page and only the page, whatever the treatment's recoloring gave: every
/// ground white and every foreground black; the accent, the selection, the muted content and every
/// hue shade stay as restated.
pub proof fn print_forces_the_page(colors: ThemeColors)
    ensures
        on_paper(colors).background == (Rgb { red: 255, green: 255, blue: 255 }),
        on_paper(colors).dark_background == (Rgb { red: 255, green: 255, blue: 255 }),
        on_paper(colors).darker_background == (Rgb { red: 255, green: 255, blue: 255 }),
        on_paper(colors).lighter_background == (Rgb { red: 255, green: 255, blue: 255 }),
        on_paper(colors).foreground == (Rgb { red: 0, green: 0, blue: 0 }),
        on_paper(colors).dark_foreground == (Rgb { red: 0, green: 0, blue: 0 }),
        on_paper(colors).light_foreground == (Rgb { red: 0, green: 0, blue: 0 }),
        on_paper(colors).bright_foreground == (Rgb { red: 0, green: 0, blue: 0 }),
        on_paper(colors).accent == colors.accent,
        on_paper(colors).selection == colors.selection,
        on_paper(colors).muted == colors.muted,
        on_paper(colors).red == colors.red,
        on_paper(colors).dark_red == colors.dark_red,
        on_paper(colors).bright_red == colors.bright_red,
        on_paper(colors).yellow == colors.yellow,
        on_paper(colors).dark_yellow == colors.dark_yellow,
        on_paper(colors).bright_yellow == colors.bright_yellow,
        on_paper(colors).green == colors.green,
        on_paper(colors).dark_green == colors.dark_green,
        on_paper(colors).bright_green == colors.bright_green,
        on_paper(colors).cyan == colors.cyan,
        on_paper(colors).dark_cyan == colors.dark_cyan,
        on_paper(colors).bright_cyan == colors.bright_cyan,
        on_paper(colors).blue == colors.blue,
        on_paper(colors).dark_blue == colors.dark_blue,
        on_paper(colors).bright_blue == colors.bright_blue,
        on_paper(colors).magenta == colors.magenta,
        on_paper(colors).dark_magenta == colors.dark_magenta,
        on_paper(colors).bright_magenta == colors.bright_magenta,
{
}

} // verus!
