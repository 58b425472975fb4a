//! A provider that keeps its messages in memory.

use itertools::Itertools;
use vstd::prelude::*;
use vstd::string::*;

use crate::backends::{newest, MsgBackend, SendError};
use crate::state::state::{
    distinct_contacts, lists_contact, Contact, ContactView, Message, MessageDirection,
    MessageView, Timestamp,
};

verus! {

/// Those of `log` that were exchanged with `contact`, in their order.
pub open spec fn conversation(log: Seq<MessageView>, contact: ContactView) -> Seq<MessageView>
    decreases log.len(),
{
    if log.len() == 0 {
        Seq::empty()
    } else if log.last().contact.same_as(contact) {
        conversation(log.drop_last(), contact).push(log.last())
    } else {
        conversation(log.drop_last(), contact)
    }
}

/// Whether a message of `log` was exchanged with `contact`.
pub open spec fn mentions(log: Seq<MessageView>, contact: ContactView) -> bool {
    exists|i: int| 0 <= i < log.len() && (#[trigger] log[i]).contact.same_as(contact)
}

/// The contacts of `log`, each as the first message with that person has
/// it, in the order of those first messages.
pub open spec fn first_contacts(log: Seq<MessageView>) -> Seq<ContactView>
    decreases log.len(),
{
    if log.len() == 0 {
        Seq::empty()
    } else if mentions(log.drop_last(), log.last().contact) {
        first_contacts(log.drop_last())
    } else {
        first_contacts(log.drop_last()).push(log.last().contact)
    }
}

/// The three messages that a new [`MockBackend`] holds.
pub open spec fn seeded_messages() -> Seq<MessageView> {
    seq![
        MessageView {
            contact: ContactView { name: "Joe Smith"@, phone: "111-111-1111"@, has_unread: false },
            content: "hey from joe smith"@,
            timestamp: Timestamp { secs: 1724895116, nanos: 0 },
            direction: MessageDirection::From,
        },
        MessageView {
            contact: ContactView { name: "Ben Boy"@, phone: "222-222-2222"@, has_unread: false },
            content: "hi it is benny boy"@,
            timestamp: Timestamp { secs: 1724895126, nanos: 0 },
            direction: MessageDirection::From,
        },
        MessageView {
            contact: ContactView { name: "Becky Sue"@, phone: "333-333-3333"@, has_unread: false },
            content: "how do you do its becky sue"@,
            timestamp: Timestamp { secs: 1724895136, nanos: 0 },
            direction: MessageDirection::From,
        },
    ]
}

/// Every contact of `first_contacts(log)` is the contact of a message of `log`.
proof fn lemma_first_contacts_are_mentioned(log: Seq<MessageView>)
    ensures
        forall|k: int|
            0 <= k < first_contacts(log).len() ==> mentions(log, #[trigger] first_contacts(log)[k]),
    decreases log.len(),
{
    if log.len() > 0 {
        let earlier = log.drop_last();
        lemma_first_contacts_are_mentioned(earlier);
        assert forall|k: int| 0 <= k < first_contacts(log).len() implies mentions(
            log,
            #[trigger] first_contacts(log)[k],
        ) by {
            let contact = first_contacts(log)[k];
            if k < first_contacts(earlier).len() {
                assert(mentions(earlier, contact));
                let i = choose|i: int| 0 <= i < earlier.len() && (#[trigger] earlier[i]).contact.same_as(contact);
                assert(log[i] == earlier[i]);
            } else {
                assert(log[log.len() - 1].contact.same_as(contact));
            }
        }
    }
}

/// No person occurs twice among the first contacts of a log.
pub proof fn lemma_first_contacts_are_distinct(log: Seq<MessageView>)
    ensures
        distinct_contacts(first_contacts(log)),
    decreases log.len(),
{
    if log.len() > 0 {
        let earlier = log.drop_last();
        lemma_first_contacts_are_distinct(earlier);
        lemma_first_contacts_are_mentioned(earlier);
        let contacts = first_contacts(log);
        assert forall|i: int, j: int|
            #![trigger contacts[i], contacts[j]]
            0 <= i < j < contacts.len() implies !contacts[i].same_as(contacts[j]) by {
            if j == first_contacts(earlier).len() {
                assert(mentions(earlier, first_contacts(earlier)[i]));
                if contacts[i].same_as(contacts[j]) {
                    let k = choose|k: int|
                        0 <= k < earlier.len() && (#[trigger] earlier[k]).contact.same_as(
                            first_contacts(earlier)[i],
                        );
                    assert(earlier[k].contact.same_as(log.last().contact));
                    assert(mentions(earlier, log.last().contact));
                }
            }
        }
    }
}

/// Every contact that a log mentions is among its first contacts.
pub proof fn lemma_mentioned_contacts_are_listed(log: Seq<MessageView>, contact: ContactView)
    requires
        mentions(log, contact),
    ensures
        lists_contact(first_contacts(log), contact),
    decreases log.len(),
{
    let i = choose|i: int| 0 <= i < log.len() && (#[trigger] log[i]).contact.same_as(contact);
    let earlier = log.drop_last();
    let contacts = first_contacts(log);
    if i < log.len() - 1 {
        assert(earlier[i].contact.same_as(contact));
        lemma_mentioned_contacts_are_listed(earlier, contact);
        let k = choose|k: int|
            0 <= k < first_contacts(earlier).len() && (#[trigger] first_contacts(
                earlier,
            )[k]).same_as(contact);
        assert(contacts[k].same_as(contact));
    } else if mentions(earlier, log.last().contact) {
        let j = choose|j: int|
            0 <= j < earlier.len() && (#[trigger] earlier[j]).contact.same_as(log.last().contact);
        assert(earlier[j].contact.same_as(contact));
        lemma_mentioned_contacts_are_listed(earlier, contact);
        let k = choose|k: int|
            0 <= k < first_contacts(earlier).len() && (#[trigger] first_contacts(
                earlier,
            )[k]).same_as(contact);
        assert(contacts[k].same_as(contact));
    } else {
        assert(contacts[contacts.len() - 1].same_as(contact));
    }
}

/// A contact that is listed stays listed when a message is appended to the
/// log, and the contact of that message is listed then: a conversation
/// that is in focus and listed remains so whatever is sent.
pub proof fn lemma_appending_keeps_contacts_listed(
    log: Seq<MessageView>,
    message: MessageView,
    contact: ContactView,
)
    ensures
        lists_contact(first_contacts(log), contact) ==> lists_contact(
            first_contacts(log.push(message)),
            contact,
        ),
        lists_contact(first_contacts(log.push(message)), message.contact),
{
    let longer = log.push(message);
    assert(longer.drop_last() =~= log);
    assert(longer[longer.len() - 1].contact.same_as(message.contact));
    lemma_mentioned_contacts_are_listed(longer, message.contact);
    if lists_contact(first_contacts(log), contact) {
        let k = choose|k: int|
            0 <= k < first_contacts(log).len() && (#[trigger] first_contacts(log)[k]).same_as(
                contact,
            );
        assert(first_contacts(longer)[k].same_as(contact));
    }
}

/// A message that is appended to a log is the last of the conversation with
/// its contact, and the last of the newest of them under any cap but zero.
pub proof fn lemma_appended_message_is_listed_last(
    log: Seq<MessageView>,
    message: MessageView,
    n: Option<u8>,
)
    requires
        n != Some(0u8),
    ensures
        newest(conversation(log.push(message), message.contact), n).len() > 0,
        newest(conversation(log.push(message), message.contact), n).last() == message,
{
    assert(log.push(message).drop_last() =~= log);
}

/// A provider that keeps the messages it is sent, in the order in which they
/// came, after three that it starts with.
#[derive(Debug)]
pub struct MockBackend {
    messages: Vec<Message>,
}

impl View for MockBackend {
    type V = Seq<MessageView>;

    /// All messages that the provider holds, oldest first.
    closed spec fn view(&self) -> Seq<MessageView> {
        self.messages.deep_view()
    }
}

/// The contacts of the messages whose contact no earlier message has, by
/// `Itertools::unique_by` keyed by name and phone: the adaptor yields the
/// items whose key no earlier item had, in their order, and of items with
/// one key the first.
#[verifier::external_body]
fn unique_contacts(messages: &Vec<Message>) -> (contacts: Vec<Contact>)
    ensures
        contacts.deep_view() == first_contacts(messages.deep_view()),
{
    messages
        .iter()
        .unique_by(|message| (&message.contact.name, &message.contact.phone))
        .map(|message| message.contact.clone())
        .collect()
}

impl MockBackend {
    /// A provider that starts with `messages`, oldest first.
    pub fn with_messages(messages: Vec<Message>) -> (backend: MockBackend)
        ensures
            backend@ == messages.deep_view(),
    {
        MockBackend { messages }
    }
}

impl Default for MockBackend {
    fn default() -> (backend: MockBackend)
        ensures
            backend@ == seeded_messages(),
    {
        let mut messages: Vec<Message> = Vec::new();
        messages.push(
            Message::new(
                Contact::new(String::from_str("Joe Smith"), String::from_str("111-111-1111")),
                String::from_str("hey from joe smith"),
                Timestamp { secs: 1724895116, nanos: 0 },
                MessageDirection::From,
            ),
        );
        messages.push(
            Message::new(
                Contact::new(String::from_str("Ben Boy"), String::from_str("222-222-2222")),
                String::from_str("hi it is benny boy"),
                Timestamp { secs: 1724895126, nanos: 0 },
                MessageDirection::From,
            ),
        );
        messages.push(
            Message::new(
                Contact::new(String::from_str("Becky Sue"), String::from_str("333-333-3333")),
                String::from_str("how do you do its becky sue"),
                Timestamp { secs: 1724895136, nanos: 0 },
                MessageDirection::From,
            ),
        );
        let backend = MockBackend { messages };
        assert(backend@ =~= seeded_messages());
        backend
    }
}

impl MsgBackend for MockBackend {
    open spec fn recent_contacts(&self) -> Seq<ContactView> {
        first_contacts(self@)
    }

    open spec fn messages_for(&self, contact: ContactView, n: Option<u8>) -> Seq<MessageView> {
        newest(conversation(self@, contact), n)
    }

    open spec fn delivers(&self, message: MessageView, after: &Self, accepted: bool) -> bool {
        accepted && after@ == self@.push(message)
    }

    /// Keeps the message after all that it holds. This never fails.
    fn send_message(&mut self, message: Message) -> (result: Result<(), SendError>) {
        self.messages.push(message);
        assert(self@ =~= old(self)@.push(message@));
        Ok(())
    }

    fn get_messages(&self, contact: &Contact, n: Option<u8>) -> (messages: Vec<Message>) {
        let mut found: Vec<Message> = Vec::new();
        let mut i: usize = 0;
        assert(self@.take(0) =~= Seq::empty());
        while i < self.messages.len()
            invariant
                i <= self.messages.len(),
                found.deep_view() =~= conversation(self@.take(i as int), contact@),
                forall|k: int| 0 <= k < found.len() ==> (#[trigger] found[k])@.contact.same_as(contact@),
            decreases self.messages.len() - i,
        {
            assert(self@.take(i + 1).drop_last() =~= self@.take(i as int));
            assert(self@.take(i + 1).last() == self.messages[i as int]@);
            if contact.eq(&self.messages[i].contact) {
                found.push(self.messages[i].clone());
            }
            i += 1;
        }
        assert(self@.take(i as int) =~= self@);
        match n {
            Some(cap) if found.len() > cap as usize => {
                let ghost all = found.deep_view();
                let newest = found.split_off(found.len() - cap as usize);
                assert(newest.deep_view() =~= all.skip(all.len() - cap));
                newest
            },
            _ => found,
        }
    }

    fn get_recent_contacts(&self) -> (contacts: Vec<Contact>) {
        proof {
            lemma_first_contacts_are_distinct(self@);
        }
        unique_contacts(&self.messages)
    }
}

} // verus!
