//! The semantic roles a palette resolves, and the weights of content that read on them.

use vstd::prelude::*;

verus! {

/// The part a color plays in an interface, rather than how it was produced.
#[derive(Debug, Clone, Copy, PartialEq, Eq, Hash, Structural)]
pub enum Role {
    Background,
    Elevated,
    Recessed,
    Border,
    Primary,
    Selection,
    Muted,
    Error,
    Focus,
    Disabled,
}

impl Role {
    /// Every role, in the fixed order the bridge names them.
    pub const ALL: [Role; 10] = [
        Role::Background,
        Role::Elevated,
        Role::Recessed,
        Role::Border,
        Role::Primary,
        Role::Selection,
        Role::Muted,
        Role::Error,
        Role::Focus,
        Role::Disabled,
    ];
}

/// How much weight a piece of content carries on its ground.
#[derive(Debug, Clone, Copy, PartialEq, Eq, Hash, Structural)]
pub enum Level {
    Primary,
    Secondary,
    Disabled,
}

} // verus!
