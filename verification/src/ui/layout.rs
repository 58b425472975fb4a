//! Places on the screen.

use vstd::prelude::*;

verus! {

/// A rectangle of cells of the terminal: its top left corner and its size.
#[derive(Debug, Clone, Copy, PartialEq, Eq, Structural)]
pub struct Rect {
    pub x: u16,
    pub y: u16,
    pub width: u16,
    pub height: u16,
}

/// A cell of the terminal.
#[derive(Debug, Clone, Copy, PartialEq, Eq, Structural)]
pub struct Position {
    pub x: u16,
    pub y: u16,
}

/// The cell `right` columns to the right of and `down` rows below the top
/// left corner of `area`, or the nearest cell that a terminal can have.
pub open spec fn cell_at(area: Rect, right: nat, down: nat) -> Position {
    Position {
        x: if area.x + right <= u16::MAX {
            (area.x + right) as u16
        } else {
            u16::MAX
        },
        y: if area.y + down <= u16::MAX {
            (area.y + down) as u16
        } else {
            u16::MAX
        },
    }
}

/// Where each part of the screen is drawn.
#[derive(Debug, Clone, Copy, PartialEq, Eq, Structural)]
pub struct ScreenAreas {
    pub messages: Rect,
    pub input: Rect,
    pub conversations: Rect,
    /// Where the developer console is laid over the others while it is
    /// open.
    pub popup: Rect,
}

} // verus!
