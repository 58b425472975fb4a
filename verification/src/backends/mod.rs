//! The messaging provider: what the state actor asks of it, and two
//! providers that keep no connection to the outside.

use vstd::prelude::*;

use crate::state::state::{distinct_contacts, Contact, ContactView, Message, MessageView};

pub mod mac;
pub mod mock;

pub use self::mac::MacBackend;
pub use self::mock::MockBackend;

verus! {

/// Why a provider did not take a message.
#[derive(Debug)]
pub struct SendError {
    pub reason: String,
}

/// The newest `n` of `messages`, or all of them where no cap is given or
/// there are no more than `n`.
pub open spec fn newest(messages: Seq<MessageView>, n: Option<u8>) -> Seq<MessageView> {
    match n {
        Some(cap) if messages.len() > cap => messages.skip(messages.len() - cap),
        _ => messages,
    }
}

/// A source and sink of messages.
///
/// The three spec functions describe a provider to its callers: what it
/// lists in a given state, and which states a send may lead to.
pub trait MsgBackend: Sized {
    /// What `get_recent_contacts` returns in this state of the provider.
    spec fn recent_contacts(&self) -> Seq<ContactView>;

    /// What `get_messages` returns in this state of the provider.
    spec fn messages_for(&self, contact: ContactView, n: Option<u8>) -> Seq<MessageView>;

    /// Whether handing `message` to the provider in this state can leave it
    /// in the state `after`, having taken the message (`accepted`) or not.
    spec fn delivers(&self, message: MessageView, after: &Self, accepted: bool) -> bool;

    /// Hands a message to the provider, which reports whether it took it.
    fn send_message(&mut self, message: Message) -> (result: Result<(), SendError>)
        ensures
            old(self).delivers(message@, final(self), result is Ok),
    ;

    /// The messages exchanged with `contact`, oldest first, and no more of
    /// them than `n` where a cap is given.
    fn get_messages(&self, contact: &Contact, n: Option<u8>) -> (messages: Vec<Message>)
        ensures
            messages.deep_view() == self.messages_for(contact@, n),
            n matches Some(cap) ==> messages.len() <= cap,
            forall|i: int|
                0 <= i < messages.len() ==> (#[trigger] messages[i])@.contact.same_as(contact@),
    ;

    /// The known contacts, each of them once, in the order in which the
    /// provider ranks its conversations.
    fn get_recent_contacts(&self) -> (contacts: Vec<Contact>)
        ensures
            contacts.deep_view() == self.recent_contacts(),
            distinct_contacts(contacts.deep_view()),
    ;
}

} // verus!
