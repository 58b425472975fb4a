//! What the user interface may ask of the state actor.

use vstd::prelude::*;

use crate::state::state::{Contact, ContactView, MessageDirection};

verus! {

/// An [`Action`] as plain values.
pub ghost enum ActionView {
    Exit,
    SendMessage(Seq<char>),
    FocusConversation(ContactView),
    Inject { contact: ContactView, content: Seq<char>, direction: MessageDirection },
}

/// An intent that the state actor applies, one at a time.
#[derive(Debug)]
pub enum Action {
    /// Shut the program down.
    Exit,
    /// Send this text to the contact of the conversation in focus.
    SendMessage(String),
    /// Put the conversation with this contact in focus.
    FocusConversation(Contact),
    /// Hand the provider a message to or from any contact, as the developer
    /// console asks.
    Inject { contact: Contact, content: String, direction: MessageDirection },
}

impl View for Action {
    type V = ActionView;

    open spec fn view(&self) -> ActionView {
        match *self {
            Action::Exit => ActionView::Exit,
            Action::SendMessage(content) => ActionView::SendMessage(content@),
            Action::FocusConversation(contact) => ActionView::FocusConversation(contact@),
            Action::Inject { contact, content, direction } => ActionView::Inject {
                contact: contact@,
                content: content@,
                direction,
            },
        }
    }
}

impl DeepView for Action {
    type V = ActionView;

    open spec fn deep_view(&self) -> ActionView {
        self@
    }
}

impl Clone for Action {
    fn clone(&self) -> (copy: Action)
        ensures
            copy@ == self@,
    {
        match self {
            Action::Exit => Action::Exit,
            Action::SendMessage(content) => Action::SendMessage(content.clone()),
            Action::FocusConversation(contact) => Action::FocusConversation(contact.clone()),
            Action::Inject { contact, content, direction } => Action::Inject {
                contact: contact.clone(),
                content: content.clone(),
                direction: *direction,
            },
        }
    }
}

} // verus!
