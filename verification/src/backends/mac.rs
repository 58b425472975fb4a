//! A stand-in for the provider of the desktop messaging application.

use vstd::prelude::*;
use vstd::string::*;

use crate::backends::{newest, MsgBackend, SendError};
use crate::state::state::{
    sample_contacts, Contact, ContactView, Message, MessageDirection, MessageView, Timestamp,
};

verus! {

/// The three sample messages, as exchanged with `contact`.
pub open spec fn sample_messages(contact: ContactView) -> Seq<MessageView> {
    seq![
        MessageView {
            contact,
            content: "hey"@,
            timestamp: Timestamp { secs: 1724895116, nanos: 0 },
            direction: MessageDirection::To,
        },
        MessageView {
            contact,
            content: "hi"@,
            timestamp: Timestamp { secs: 1724895126, nanos: 0 },
            direction: MessageDirection::From,
        },
        MessageView {
            contact,
            content: "hello"@,
            timestamp: Timestamp { secs: 1724895136, nanos: 0 },
            direction: MessageDirection::From,
        },
    ]
}

/// A provider that answers with the same sample data whatever it is asked,
/// and forgets what it is sent.
#[derive(Debug)]
pub struct MacBackend {}

impl MsgBackend for MacBackend {
    open spec fn recent_contacts(&self) -> Seq<ContactView> {
        sample_contacts()
    }

    open spec fn messages_for(&self, contact: ContactView, n: Option<u8>) -> Seq<MessageView> {
        newest(sample_messages(contact), n)
    }

    open spec fn delivers(&self, message: MessageView, after: &Self, accepted: bool) -> bool {
        accepted && *after == *self
    }

    /// Takes the message and drops it.
    fn send_message(&mut self, _message: Message) -> (result: Result<(), SendError>) {
        Ok(())
    }

    fn get_messages(&self, contact: &Contact, n: Option<u8>) -> (messages: Vec<Message>) {
        let mut messages: Vec<Message> = Vec::new();
        messages.push(
            Message::new(
                contact.clone(),
                String::from_str("hey"),
                Timestamp { secs: 1724895116, nanos: 0 },
                MessageDirection::To,
            ),
        );
        messages.push(
            Message::new(
                contact.clone(),
                String::from_str("hi"),
                Timestamp { secs: 1724895126, nanos: 0 },
                MessageDirection::From,
            ),
        );
        messages.push(
            Message::new(
                contact.clone(),
                String::from_str("hello"),
                Timestamp { secs: 1724895136, nanos: 0 },
                MessageDirection::From,
            ),
        );
        assert(messages.deep_view() =~= sample_messages(contact@));
        match n {
            Some(cap) if messages.len() > cap as usize => {
                let ghost all = messages.deep_view();
                let newest = messages.split_off(messages.len() - cap as usize);
                assert(newest.deep_view() =~= all.skip(all.len() - cap));
                newest
            },
            _ => messages,
        }
    }

    fn get_recent_contacts(&self) -> (contacts: Vec<Contact>) {
        let mut contacts: Vec<Contact> = Vec::new();
        contacts.push(Contact::new(String::from_str("Joe Smith"), String::from_str("111-222-3344")));
        contacts.push(Contact::new(String::from_str("Ben Boy"), String::from_str("123-456-7890")));
        contacts.push(Contact::new(String::from_str("Becky Sue"), String::from_str("321-123-3354")));
        assert(contacts.deep_view() =~= sample_contacts());
        proof {
            crate::state::state::lemma_sample_contacts_are_distinct();
        }
        contacts
    }
}

} // verus!
