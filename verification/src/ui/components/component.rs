//! What every part of the user interface offers.

use vstd::prelude::*;

use crate::state::state::State;
use crate::ui::keys::{KeyEvent, KeyOutcome};

verus! {

/// A part of the user interface that is made from a snapshot, follows later
/// snapshots and handles keys.
pub trait Component: Sized {
    /// The component as it starts, showing `state`.
    fn new(state: &State) -> Self;

    /// The component showing `state`, with everything else as it was.
    fn move_with_state(self, state: &State) -> Self;

    /// The title of the component.
    fn name(&self) -> &str;

    /// Handles one key event, and says what is to be done about it.
    fn handle_key_event(&mut self, key: KeyEvent) -> KeyOutcome;
}

/// A part of the user interface that can say what is to be drawn for it.
pub trait ComponentRender<Props, Drawing> {
    /// What is to be drawn, given what the parent decided.
    fn render(&self, props: Props) -> Drawing;
}

} // verus!
