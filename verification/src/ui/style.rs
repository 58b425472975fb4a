//! The colours that the panes are drawn in.

use vstd::prelude::*;

verus! {

/// A colour of the terminal.
#[derive(Debug, Clone, Copy, PartialEq, Eq, Structural)]
pub enum Color {
    White,
    Yellow,
    LightRed,
    LightGreen,
    LightBlue,
}

} // verus!
