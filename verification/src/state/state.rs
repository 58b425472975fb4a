//! The data model: contacts, messages, and the snapshot made of them.
//!
//! Each type has a view that holds its texts as sequences of characters and
//! its lists as sequences; the contracts of the crate speak of those.

use vstd::prelude::*;
use vstd::std_specs::cmp::PartialEqSpecImpl;
use vstd::string::*;

verus! {

/// A [`Contact`] as plain values.
pub ghost struct ContactView {
    pub name: Seq<char>,
    pub phone: Seq<char>,
    pub has_unread: bool,
}

impl ContactView {
    /// Whether two contacts are the same person: a contact is identified by
    /// its name and phone number together, whatever its unread flag says.
    pub open spec fn same_as(self, other: ContactView) -> bool {
        self.name == other.name && self.phone == other.phone
    }
}

/// A person that messages are exchanged with.
#[derive(Debug)]
pub struct Contact {
    pub name: String,
    pub phone: String,
    pub has_unread: bool,
}

impl View for Contact {
    type V = ContactView;

    open spec fn view(&self) -> ContactView {
        ContactView { name: self.name@, phone: self.phone@, has_unread: self.has_unread }
    }
}

impl DeepView for Contact {
    type V = ContactView;

    open spec fn deep_view(&self) -> ContactView {
        self@
    }
}

impl Contact {
    /// A contact with nothing unread.
    pub fn new(name: String, phone: String) -> (contact: Contact)
        ensures
            contact@ == (ContactView { name: name@, phone: phone@, has_unread: false }),
    {
        Contact { name, phone, has_unread: false }
    }

    /// Whether `other` is the same person.
    pub fn eq(&self, other: &Contact) -> (same: bool)
        ensures
            same == self@.same_as(other@),
    {
        self.name == other.name && self.phone == other.phone
    }
}

impl Clone for Contact {
    fn clone(&self) -> (copy: Contact)
        ensures
            copy@ == self@,
    {
        Contact { name: self.name.clone(), phone: self.phone.clone(), has_unread: self.has_unread }
    }
}

impl PartialEq for Contact {
    fn eq(&self, other: &Contact) -> (same: bool) {
        self.name == other.name && self.phone == other.phone
    }
}

impl PartialEqSpecImpl for Contact {
    open spec fn obeys_eq_spec() -> bool {
        true
    }

    open spec fn eq_spec(&self, other: &Contact) -> bool {
        self.name@ == other.name@ && self.phone@ == other.phone@
    }
}

/// Whether no two contacts at different places of the list are the same person.
pub open spec fn distinct_contacts(contacts: Seq<ContactView>) -> bool {
    forall|i: int, j: int|
        #![trigger contacts[i], contacts[j]]
        0 <= i < j < contacts.len() ==> !contacts[i].same_as(contacts[j])
}

/// Whether the list holds `contact`, or the same person under another flag.
pub open spec fn lists_contact(contacts: Seq<ContactView>, contact: ContactView) -> bool {
    exists|i: int| 0 <= i < contacts.len() && (#[trigger] contacts[i]).same_as(contact)
}

/// The three sample contacts of [`ConversationList::default`].
pub open spec fn sample_contacts() -> Seq<ContactView> {
    seq![
        ContactView { name: "Joe Smith"@, phone: "111-222-3344"@, has_unread: false },
        ContactView { name: "Ben Boy"@, phone: "123-456-7890"@, has_unread: false },
        ContactView { name: "Becky Sue"@, phone: "321-123-3354"@, has_unread: false },
    ]
}

/// The three sample contacts are three persons.
pub proof fn lemma_sample_contacts_are_distinct()
    ensures
        distinct_contacts(sample_contacts()),
{
    reveal_strlit("Joe Smith");
    reveal_strlit("Ben Boy");
    reveal_strlit("Becky Sue");
    assert("Joe Smith"@.len() != "Ben Boy"@.len());
    assert("Becky Sue"@.len() != "Ben Boy"@.len());
    assert("Joe Smith"@[0] != "Becky Sue"@[0]);
}

/// The known contacts, in the order in which the provider lists them.
#[derive(Debug)]
pub struct ConversationList {
    pub contacts: Vec<Contact>,
}

impl View for ConversationList {
    type V = Seq<ContactView>;

    open spec fn view(&self) -> Seq<ContactView> {
        self.contacts.deep_view()
    }
}

impl ConversationList {
    pub fn new(contacts: Vec<Contact>) -> (list: ConversationList)
        ensures
            list@ == contacts.deep_view(),
    {
        ConversationList { contacts }
    }
}

impl Clone for ConversationList {
    fn clone(&self) -> (copy: ConversationList)
        ensures
            copy@ == self@,
    {
        let copy = ConversationList { contacts: self.contacts.clone() };
        assert(copy@ =~= self@);
        copy
    }
}

impl Default for ConversationList {
    /// The three sample contacts.
    fn default() -> (list: ConversationList)
        ensures
            list@ == sample_contacts(),
    {
        let mut contacts: Vec<Contact> = Vec::new();
        contacts.push(Contact::new(String::from_str("Joe Smith"), String::from_str("111-222-3344")));
        contacts.push(Contact::new(String::from_str("Ben Boy"), String::from_str("123-456-7890")));
        contacts.push(Contact::new(String::from_str("Becky Sue"), String::from_str("321-123-3354")));
        let list = ConversationList { contacts };
        assert(list@ =~= sample_contacts());
        list
    }
}

/// Who wrote a message.
#[derive(Debug, Clone, Copy, PartialEq, Eq, Structural)]
pub enum MessageDirection {
    /// Sent by the local user to the contact.
    To,
    /// Received from the contact.
    From,
}

/// A point in time: whole seconds since 1970-01-01 00:00:00 on the local
/// wall clock, and the nanoseconds after that second.
#[derive(Debug, Clone, Copy, PartialEq, Eq, Structural)]
pub struct Timestamp {
    pub secs: i64,
    pub nanos: u32,
}

/// A [`Message`] as plain values.
pub ghost struct MessageView {
    pub contact: ContactView,
    pub content: Seq<char>,
    pub timestamp: Timestamp,
    pub direction: MessageDirection,
}

/// One message of a conversation.
#[derive(Debug)]
pub struct Message {
    pub contact: Contact,
    pub content: String,
    pub timestamp: Timestamp,
    pub direction: MessageDirection,
}

impl View for Message {
    type V = MessageView;

    open spec fn view(&self) -> MessageView {
        MessageView {
            contact: self.contact@,
            content: self.content@,
            timestamp: self.timestamp,
            direction: self.direction,
        }
    }
}

impl DeepView for Message {
    type V = MessageView;

    open spec fn deep_view(&self) -> MessageView {
        self@
    }
}

impl Message {
    pub fn new(
        contact: Contact,
        content: String,
        timestamp: Timestamp,
        direction: MessageDirection,
    ) -> (message: Message)
        ensures
            message@ == (MessageView {
                contact: contact@,
                content: content@,
                timestamp,
                direction,
            }),
    {
        Message { contact, content, timestamp, direction }
    }

    /// Whether the local user wrote this message.
    pub fn sent_by_me(self) -> (mine: bool)
        ensures
            mine == (self.direction == MessageDirection::To),
    {
        self.direction == MessageDirection::To
    }
}

impl Clone for Message {
    fn clone(&self) -> (copy: Message)
        ensures
            copy@ == self@,
    {
        Message {
            contact: self.contact.clone(),
            content: self.content.clone(),
            timestamp: self.timestamp,
            direction: self.direction,
        }
    }
}

/// A [`Chat`] as plain values.
pub ghost struct ChatView {
    pub contact: ContactView,
    pub messages: Seq<MessageView>,
}

/// The conversation that the user is looking at.
#[derive(Debug)]
pub struct Chat {
    pub contact: Contact,
    pub messages: Vec<Message>,
}

impl View for Chat {
    type V = ChatView;

    open spec fn view(&self) -> ChatView {
        ChatView { contact: self.contact@, messages: self.messages.deep_view() }
    }
}

impl Chat {
    /// A conversation with `contact` in which nothing has been said yet.
    pub fn new(contact: Contact) -> (chat: Chat)
        ensures
            chat@ == (ChatView { contact: contact@, messages: Seq::empty() }),
    {
        let chat = Chat { contact, messages: Vec::new() };
        assert(chat@.messages =~= Seq::empty());
        chat
    }
}

impl Clone for Chat {
    fn clone(&self) -> (copy: Chat)
        ensures
            copy@ == self@,
    {
        let copy = Chat { contact: self.contact.clone(), messages: self.messages.clone() };
        assert(copy@.messages =~= self@.messages);
        copy
    }
}

/// A [`State`] as plain values.
pub ghost struct StateView {
    pub chat: ChatView,
    pub conversations: Seq<ContactView>,
}

impl StateView {
    /// Whether the contact in focus is one of the listed contacts.
    pub open spec fn focus_is_listed(self) -> bool {
        lists_contact(self.conversations, self.chat.contact)
    }
}

/// One snapshot of everything the user interface shows.
#[derive(Debug)]
pub struct State {
    pub chat: Chat,
    pub conversations: ConversationList,
}

impl View for State {
    type V = StateView;

    open spec fn view(&self) -> StateView {
        StateView { chat: self.chat@, conversations: self.conversations@ }
    }
}

impl State {
    pub fn new(chat: Chat, conversations: ConversationList) -> (state: State)
        ensures
            state@ == (StateView { chat: chat@, conversations: conversations@ }),
    {
        State { chat, conversations }
    }
}

impl Clone for State {
    fn clone(&self) -> (copy: State)
        ensures
            copy@ == self@,
    {
        State { chat: self.chat.clone(), conversations: self.conversations.clone() }
    }
}

impl Default for State {
    /// The sample contacts, and an empty conversation with the first of them.
    fn default() -> (state: State)
        ensures
            state@ == (StateView {
                chat: ChatView { contact: sample_contacts()[0], messages: Seq::empty() },
                conversations: sample_contacts(),
            }),
    {
        let conversations = ConversationList::default();
        assert(conversations@.len() == 3);
        let first = conversations.contacts[0].clone();
        assert(first@ == conversations@[0]);
        State { chat: Chat::new(first), conversations }
    }
}

} // verus!
