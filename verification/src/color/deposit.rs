//! How a role's color sits on a piece of interface, and in what situation that piece is.

use vstd::prelude::*;

use crate::theme::Rgb;

use super::role::Level;

verus! {

/// The way a color is deposited on a piece. None of these names a widget.
#[derive(Debug, Clone, Copy, PartialEq, Eq, Hash, Structural)]
pub enum Deposit {
    /// A filled piece, such as a primary button.
    Fill,
    /// A line around a piece, such as a ghost button.
    Outline,
    /// A line under a piece, such as an active tab.
    Underline,
    /// Marked text, such as a selection inside a paragraph.
    Highlight,
    /// A track and the indicator that travels it, such as a progress bar.
    Track,
}

impl Deposit {
    pub const ALL: [Deposit; 5] = [
        Deposit::Fill,
        Deposit::Outline,
        Deposit::Underline,
        Deposit::Highlight,
        Deposit::Track,
    ];
}

/// The situation a piece is in. Composes with [`Deposit`]; neither replaces the other.
#[derive(Debug, Clone, Copy, PartialEq, Eq, Hash, Structural)]
pub enum State {
    /// The piece at rest.
    Rest,
    /// The pointer is over the piece.
    Hover,
    /// The piece is being pressed.
    Pressed,
    /// The piece cannot be interacted with.
    Disabled,
    /// The piece holds keyboard focus.
    Focused,
}

impl State {
    pub const ALL: [State; 5] = [
        State::Rest,
        State::Hover,
        State::Pressed,
        State::Disabled,
        State::Focused,
    ];
}

/// The two colors a deposit needs to draw.
///
/// What each field holds depends on the deposit:
/// - [`Deposit::Fill`] and [`Deposit::Highlight`]: `ground` is the fill, `mark` is the content that
///   reads on it.
/// - [`Deposit::Outline`] and [`Deposit::Underline`]: `ground` is the line, `mark` is the content
///   that already reads on the canvas.
/// - [`Deposit::Track`]: `ground` is the track, `mark` is the indicator.
#[derive(Debug, Clone, Copy, PartialEq, Eq, Hash, Structural)]
pub struct Styled {
    pub ground: Rgb,
    pub mark: Rgb,
}

/// The weight of canvas content a line deposit carries in `state`: disabled content for a
/// disabled piece, main content otherwise.
pub fn content_level(state: State) -> (level: Level)
    ensures
        level == (if state == State::Disabled {
            Level::Disabled
        } else {
            Level::Primary
        }),
{
    if state == State::Disabled {
        Level::Disabled
    } else {
        Level::Primary
    }
}

} // verus!
