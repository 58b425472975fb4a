//! The panes of the screen.

use vstd::prelude::*;

use crate::ui::components::component::Component;

pub mod conversations_pane;
pub mod dev_console;
pub mod input_pane;
pub mod messages_pane;

pub use self::conversations_pane::{ConversationsPane, ConversationsView};
pub use self::dev_console::{Commands, CommandsView, DevConsole};
pub use self::input_pane::InputPane;
pub use self::messages_pane::MessagesPane;

verus! {

/// A component that can have the focus of the keyboard.
pub trait Pane: Component {
    /// Tells the pane that it has got the focus.
    fn focus(&mut self)
        default_ensures
            *final(self) == *old(self),
    {
        // Default Implementation does nothing
    }

    /// Tells the pane that it has lost the focus.
    fn unfocus(&mut self)
        default_ensures
            *final(self) == *old(self),
    {
        // Default Implementation does nothing
    }
}

} // verus!
