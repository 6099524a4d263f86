//! COLOR — the parts an interface plays, and how a part's color sits on a piece.

pub mod deposit;
pub mod role;

pub use deposit::{Deposit, State, Styled, content_level};
pub use role::{Level, Role};
