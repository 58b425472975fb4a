use chatty::state::{Action, Chat, Contact, ConversationList, Message, MessageDirection, State, Timestamp};

fn contact(name: &str, phone: &str) -> Contact {
    Contact::new(String::from(name), String::from(phone))
}

#[test]
fn new_contact_has_nothing_unread() {
    let joe = contact("Joe Smith", "111-111-1111");
    assert_eq!(joe.name, "Joe Smith");
    assert_eq!(joe.phone, "111-111-1111");
    assert!(!joe.has_unread);
}

#[test]
fn contacts_are_equal_when_name_and_phone_match() {
    let joe = contact("Joe", "111");
    assert!(joe.eq(&contact("Joe", "111")));
    assert!(joe == contact("Joe", "111"));
    assert!(!joe.eq(&contact("Joe", "222")));
    assert!(!joe.eq(&contact("Ben", "111")));
    assert!(joe != contact("Ben", "111"));
}

#[test]
fn a_phone_that_equals_the_name_is_no_match() {
    let odd = contact("111", "111");
    let joe = contact("111", "222");
    assert!(!odd.eq(&joe));
    assert!(!joe.eq(&odd));
}

#[test]
fn unread_flag_is_not_part_of_the_identity() {
    let joe = contact("Joe", "111");
    let mut unread = contact("Joe", "111");
    unread.has_unread = true;
    assert!(joe.eq(&unread));
    assert_eq!(joe, unread);
}

#[test]
fn contact_clone_keeps_every_field() {
    let mut joe = contact("Joe", "111");
    joe.has_unread = true;
    let copy = joe.clone();
    assert_eq!(copy.name, "Joe");
    assert_eq!(copy.phone, "111");
    assert!(copy.has_unread);
}

#[test]
fn default_conversation_list_has_three_sample_contacts() {
    let list = ConversationList::default();
    let shown: Vec<(String, String, bool)> = list
        .contacts
        .iter()
        .map(|c| (c.name.clone(), c.phone.clone(), c.has_unread))
        .collect();
    assert_eq!(
        shown,
        vec![
            (String::from("Joe Smith"), String::from("111-222-3344"), false),
            (String::from("Ben Boy"), String::from("123-456-7890"), false),
            (String::from("Becky Sue"), String::from("321-123-3354"), false),
        ]
    );
}

#[test]
fn conversation_list_new_keeps_order() {
    let list = ConversationList::new(vec![contact("B", "2"), contact("A", "1")]);
    assert_eq!(list.contacts.len(), 2);
    assert_eq!(list.contacts[0].name, "B");
    assert_eq!(list.contacts[1].name, "A");
    let copy = list.clone();
    assert_eq!(copy.contacts, list.contacts);
}

#[test]
fn message_new_keeps_its_parts() {
    let at = Timestamp { secs: 1724895116, nanos: 7 };
    let message = Message::new(contact("Joe", "111"), String::from("hey"), at, MessageDirection::From);
    assert_eq!(message.contact, contact("Joe", "111"));
    assert_eq!(message.content, "hey");
    assert_eq!(message.timestamp, at);
    assert_eq!(message.direction, MessageDirection::From);
    let copy = message.clone();
    assert_eq!(copy.content, "hey");
    assert_eq!(copy.timestamp, at);
    assert_eq!(copy.direction, MessageDirection::From);
    assert_eq!(copy.contact, contact("Joe", "111"));
}

#[test]
fn sent_by_me_tells_the_direction() {
    let at = Timestamp { secs: 0, nanos: 0 };
    let to = Message::new(contact("Joe", "111"), String::from("a"), at, MessageDirection::To);
    let from = Message::new(contact("Joe", "111"), String::from("b"), at, MessageDirection::From);
    assert!(to.sent_by_me());
    assert!(!from.sent_by_me());
}

#[test]
fn new_chat_is_empty() {
    let chat = Chat::new(contact("Joe", "111"));
    assert_eq!(chat.contact, contact("Joe", "111"));
    assert!(chat.messages.is_empty());
}

#[test]
fn default_state_focuses_first_sample_contact() {
    let state = State::default();
    assert_eq!(state.chat.contact, contact("Joe Smith", "111-222-3344"));
    assert!(state.chat.messages.is_empty());
    assert_eq!(state.conversations.contacts.len(), 3);
    assert_eq!(state.conversations.contacts[0], state.chat.contact);
}

#[test]
fn state_new_and_clone_keep_chat_and_conversations() {
    let mut chat = Chat::new(contact("Ben", "222"));
    chat.messages.push(Message::new(
        contact("Ben", "222"),
        String::from("hi"),
        Timestamp { secs: 1, nanos: 2 },
        MessageDirection::From,
    ));
    let state = State::new(chat, ConversationList::new(vec![contact("Joe", "111"), contact("Ben", "222")]));
    let copy = state.clone();
    assert_eq!(copy.chat.contact, contact("Ben", "222"));
    assert_eq!(copy.chat.messages.len(), 1);
    assert_eq!(copy.chat.messages[0].content, "hi");
    assert_eq!(copy.conversations.contacts, state.conversations.contacts);
}

#[test]
fn action_clone_keeps_the_variant_and_its_payload() {
    match Action::SendMessage(String::from("yo")).clone() {
        Action::SendMessage(content) => assert_eq!(content, "yo"),
        other => panic!("unexpected {:?}", other),
    }
    match Action::FocusConversation(contact("Ben", "222")).clone() {
        Action::FocusConversation(c) => assert_eq!(c, contact("Ben", "222")),
        other => panic!("unexpected {:?}", other),
    }
    assert!(matches!(Action::Exit.clone(), Action::Exit));
    let inject = Action::Inject {
        contact: contact("Joe", "111"),
        content: String::from("x"),
        direction: MessageDirection::From,
    };
    match inject.clone() {
        Action::Inject { contact: c, content, direction } => {
            assert_eq!(c, contact("Joe", "111"));
            assert_eq!(content, "x");
            assert_eq!(direction, MessageDirection::From);
        }
        other => panic!("unexpected {:?}", other),
    }
}
