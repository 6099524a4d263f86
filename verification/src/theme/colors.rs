//! The colors a theme declares, and the families of three shades its hues read as.

use vstd::prelude::*;

use super::mode::Mode;
use super::rgb::Rgb;

verus! {

/// Every color of the theme contract: the grounds, the text, the surfaces the roles rest on, and
/// six hues, each as its color, its dark shade and its bright one.
#[derive(Debug, Clone, Copy, PartialEq, Eq, Hash, Structural)]
pub struct ThemeColors {
    pub accent: Rgb,
    pub selection: Rgb,
    pub muted: Rgb,
    pub background: Rgb,
    pub dark_background: Rgb,
    pub darker_background: Rgb,
    pub lighter_background: Rgb,
    pub foreground: Rgb,
    pub dark_foreground: Rgb,
    pub light_foreground: Rgb,
    pub bright_foreground: Rgb,
    pub red: Rgb,
    pub dark_red: Rgb,
    pub bright_red: Rgb,
    pub yellow: Rgb,
    pub dark_yellow: Rgb,
    pub bright_yellow: Rgb,
    pub green: Rgb,
    pub dark_green: Rgb,
    pub bright_green: Rgb,
    pub cyan: Rgb,
    pub dark_cyan: Rgb,
    pub bright_cyan: Rgb,
    pub blue: Rgb,
    pub dark_blue: Rgb,
    pub bright_blue: Rgb,
    pub magenta: Rgb,
    pub dark_magenta: Rgb,
    pub bright_magenta: Rgb,
}

/// A theme as read: the mode it declares and its colors.
#[derive(Debug, Clone, Copy, PartialEq, Eq, Hash, Structural)]
pub struct Theme {
    pub mode: Mode,
    pub colors: ThemeColors,
}

/// One of the six hues a theme declares as a family of three shades.
#[derive(Debug, Clone, Copy, PartialEq, Eq, Hash, Structural)]
pub enum Family {
    Red,
    Green,
    Yellow,
    Blue,
    Cyan,
    Magenta,
}

/// One hue's color with its dark and bright shades.
#[derive(Debug, Clone, Copy, PartialEq, Eq, Hash, Structural)]
pub struct Shades {
    pub color: Rgb,
    pub dark: Rgb,
    pub bright: Rgb,
}

impl Family {
    /// The families in the fixed order the bridge names them.
    pub const ALL: [Family; 6] = [
        Family::Red,
        Family::Green,
        Family::Yellow,
        Family::Blue,
        Family::Cyan,
        Family::Magenta,
    ];
}

/// The three shades of `family` among `colors`.
pub open spec fn shades_of(colors: ThemeColors, family: Family) -> Shades {
    match family {
        Family::Red => Shades { color: colors.red, dark: colors.dark_red, bright: colors.bright_red },
        Family::Green => Shades {
            color: colors.green,
            dark: colors.dark_green,
            bright: colors.bright_green,
        },
        Family::Yellow => Shades {
            color: colors.yellow,
            dark: colors.dark_yellow,
            bright: colors.bright_yellow,
        },
        Family::Blue => Shades {
            color: colors.blue,
            dark: colors.dark_blue,
            bright: colors.bright_blue,
        },
        Family::Cyan => Shades {
            color: colors.cyan,
            dark: colors.dark_cyan,
            bright: colors.bright_cyan,
        },
        Family::Magenta => Shades {
            color: colors.magenta,
            dark: colors.dark_magenta,
            bright: colors.bright_magenta,
        },
    }
}

/// Each family holds its own hue's shades and no other's: the green family is `green`,
/// `dark_green` and `bright_green`, in that order, and so for every family.
pub proof fn each_family_holds_its_own_shades(colors: ThemeColors)
    ensures
        shades_of(colors, Family::Red).color == colors.red,
        shades_of(colors, Family::Red).dark == colors.dark_red,
        shades_of(colors, Family::Red).bright == colors.bright_red,
        shades_of(colors, Family::Green).color == colors.green,
        shades_of(colors, Family::Green).dark == colors.dark_green,
        shades_of(colors, Family::Green).bright == colors.bright_green,
        shades_of(colors, Family::Yellow).color == colors.yellow,
        shades_of(colors, Family::Yellow).dark == colors.dark_yellow,
        shades_of(colors, Family::Yellow).bright == colors.bright_yellow,
        shades_of(colors, Family::Blue).color == colors.blue,
        shades_of(colors, Family::Blue).dark == colors.dark_blue,
        shades_of(colors, Family::Blue).bright == colors.bright_blue,
        shades_of(colors, Family::Cyan).color == colors.cyan,
        shades_of(colors, Family::Cyan).dark == colors.dark_cyan,
        shades_of(colors, Family::Cyan).bright == colors.bright_cyan,
        shades_of(colors, Family::Magenta).color == colors.magenta,
        shades_of(colors, Family::Magenta).dark == colors.dark_magenta,
        shades_of(colors, Family::Magenta).bright == colors.bright_magenta,
{
}

impl ThemeColors {
    /// The color and shades of one hue family.
    pub fn family(&self, family: Family) -> (shades: Shades)
        ensures
            shades == shades_of(*self, family),
    {
        match family {
            Family::Red => Shades { color: self.red, dark: self.dark_red, bright: self.bright_red },
            Family::Green => Shades {
                color: self.green,
                dark: self.dark_green,
                bright: self.bright_green,
            },
            Family::Yellow => Shades {
                color: self.yellow,
                dark: self.dark_yellow,
                bright: self.bright_yellow,
            },
            Family::Blue => Shades {
                color: self.blue,
                dark: self.dark_blue,
                bright: self.bright_blue,
            },
            Family::Cyan => Shades {
                color: self.cyan,
                dark: self.dark_cyan,
                bright: self.bright_cyan,
            },
            Family::Magenta => Shades {
                color: self.magenta,
                dark: self.dark_magenta,
                bright: self.bright_magenta,
            },
        }
    }
}

} // verus!
