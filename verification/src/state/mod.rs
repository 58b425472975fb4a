//! The canonical application state and the actor that is its only writer.

pub mod action;
pub mod clock;
pub mod state;
pub mod store;

pub use self::action::{Action, ActionView};
pub use self::store::{StartupError, StateStore, StoreStep};
pub use self::state::{
    Chat, ChatView, Contact, ContactView, ConversationList, Message, MessageDirection,
    MessageView, State, StateView, Timestamp,
};
