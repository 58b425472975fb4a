use chatty::state::{
    Action, Chat, Contact, ConversationList, Message, MessageDirection, State, Timestamp,
};
use chatty::ui::components::{Component, ComponentRender};
use chatty::ui::panes::messages_pane::MessageLine;
use chatty::ui::panes::{conversations_pane, input_pane, messages_pane};
use chatty::ui::panes::{ConversationsPane, InputPane, MessagesPane, Pane};
use chatty::ui::{Color, KeyCode, KeyEvent, KeyEventKind, KeyModifiers, KeyOutcome, Position, Rect};

const AREA: Rect = Rect { x: 2, y: 3, width: 40, height: 10 };

fn contact(name: &str, phone: &str) -> Contact {
    Contact::new(String::from(name), String::from(phone))
}

fn state_with(names: &[&str]) -> State {
    let contacts: Vec<Contact> = names.iter().map(|n| contact(n, "000")).collect();
    let first = contacts.first().cloned().unwrap_or_else(|| contact("nobody", "000"));
    State::new(Chat::new(first), ConversationList::new(contacts))
}

fn press(pane: &mut ConversationsPane, code: KeyCode) -> KeyOutcome {
    pane.handle_key_event(KeyEvent::press(code))
}

#[test]
fn conversations_pane_starts_without_selection_or_focus() {
    let pane = ConversationsPane::new(&state_with(&["a", "b"]));
    assert_eq!(pane.selected(), None);
    assert!(!pane.is_focused());
    assert_eq!(pane.contacts().len(), 2);
    assert_eq!(pane.name(), "Conversations");
}

#[test]
fn focus_selects_the_first_contact() {
    let mut pane = ConversationsPane::new(&state_with(&["a", "b", "c"]));
    press(&mut pane, KeyCode::Char('j'));
    press(&mut pane, KeyCode::Char('j'));
    assert_eq!(pane.selected(), Some(1));
    pane.focus();
    assert!(pane.is_focused());
    assert_eq!(pane.selected(), Some(0));
    pane.unfocus();
    assert!(!pane.is_focused());
    assert_eq!(pane.selected(), Some(0));
}

#[test]
fn focus_on_an_empty_list_selects_nothing() {
    let mut pane = ConversationsPane::new(&state_with(&[]));
    pane.focus();
    assert!(pane.is_focused());
    assert_eq!(pane.selected(), None);
    press(&mut pane, KeyCode::Char('j'));
    assert_eq!(pane.selected(), None);
    press(&mut pane, KeyCode::Char('k'));
    assert_eq!(pane.selected(), None);
    assert!(matches!(press(&mut pane, KeyCode::Enter), KeyOutcome::Idle));
}

#[test]
fn selection_moves_down_and_stops_at_the_last_contact() {
    let mut pane = ConversationsPane::new(&state_with(&["a", "b", "c"]));
    pane.focus();
    for expected in [1usize, 2, 2, 2, 2] {
        assert!(matches!(press(&mut pane, KeyCode::Char('j')), KeyOutcome::Idle));
        assert_eq!(pane.selected(), Some(expected));
    }
}

#[test]
fn selection_moves_up_and_stops_at_the_first_contact() {
    let mut pane = ConversationsPane::new(&state_with(&["a", "b", "c"]));
    pane.focus();
    press(&mut pane, KeyCode::Char('j'));
    press(&mut pane, KeyCode::Char('j'));
    for expected in [1usize, 0, 0, 0] {
        assert!(matches!(press(&mut pane, KeyCode::Char('k')), KeyOutcome::Idle));
        assert_eq!(pane.selected(), Some(expected));
    }
}

#[test]
fn without_selection_down_selects_the_first_and_up_the_last() {
    let mut down = ConversationsPane::new(&state_with(&["a", "b", "c"]));
    press(&mut down, KeyCode::Char('j'));
    assert_eq!(down.selected(), Some(0));
    let mut up = ConversationsPane::new(&state_with(&["a", "b", "c"]));
    press(&mut up, KeyCode::Char('k'));
    assert_eq!(up.selected(), Some(2));
}

#[test]
fn selection_never_leaves_the_list_however_often_keys_repeat() {
    for len in 0..4usize {
        let names: Vec<String> = (0..len).map(|i| format!("c{}", i)).collect();
        let refs: Vec<&str> = names.iter().map(|s| s.as_str()).collect();
        let mut pane = ConversationsPane::new(&state_with(&refs));
        let keys = ['k', 'j', 'j', 'j', 'j', 'j', 'k', 'k', 'k', 'k', 'k', 'k', 'j', 'x'];
        for round in 0..50 {
            for key in keys {
                press(&mut pane, KeyCode::Char(key));
                match pane.selected() {
                    Some(i) => assert!(i < len, "len {} round {}", len, round),
                    None => assert_eq!(len, 0),
                }
            }
        }
    }
}

#[test]
fn enter_asks_for_the_selected_conversation() {
    let mut pane = ConversationsPane::new(&state_with(&["a", "b", "c"]));
    assert!(matches!(press(&mut pane, KeyCode::Enter), KeyOutcome::Idle));
    pane.focus();
    press(&mut pane, KeyCode::Char('j'));
    match press(&mut pane, KeyCode::Enter) {
        KeyOutcome::Emit(Action::FocusConversation(c)) => assert_eq!(c, contact("b", "000")),
        other => panic!("unexpected {:?}", other),
    }
    assert_eq!(pane.selected(), Some(1));
}

#[test]
fn conversations_pane_reads_presses_only() {
    let mut pane = ConversationsPane::new(&state_with(&["a", "b"]));
    pane.focus();
    for kind in [KeyEventKind::Release, KeyEventKind::Repeat] {
        for code in [KeyCode::Char('j'), KeyCode::Enter] {
            let key = KeyEvent { code, modifiers: KeyModifiers { control: false }, kind };
            assert!(matches!(pane.handle_key_event(key), KeyOutcome::Idle));
            assert_eq!(pane.selected(), Some(0));
        }
    }
}

#[test]
fn a_shorter_list_pulls_the_selection_back() {
    let mut pane = ConversationsPane::new(&state_with(&["a", "b", "c"]));
    pane.focus();
    press(&mut pane, KeyCode::Char('j'));
    press(&mut pane, KeyCode::Char('j'));
    assert_eq!(pane.selected(), Some(2));
    let pane = pane.move_with_state(&state_with(&["x", "y"]));
    assert_eq!(pane.selected(), Some(1));
    assert!(pane.is_focused());
    assert_eq!(pane.contacts()[0].name, "x");
    let pane = pane.move_with_state(&state_with(&["x", "y", "z", "w"]));
    assert_eq!(pane.selected(), Some(1));
    let pane = pane.move_with_state(&state_with(&[]));
    assert_eq!(pane.selected(), None);
    let pane = pane.move_with_state(&state_with(&["q"]));
    assert_eq!(pane.selected(), None);
}

#[test]
fn conversations_drawing_marks_the_selection_while_in_focus() {
    let mut pane = ConversationsPane::new(&state_with(&["a", "b"]));
    let props = conversations_pane::RenderProps { area: AREA, border_color: Color::White };
    let drawing = pane.render(props);
    assert_eq!(drawing.title, "Conversations");
    assert_eq!(drawing.area, AREA);
    assert_eq!(drawing.names, vec!["a", "b"]);
    assert_eq!(drawing.highlight_symbol, ">");
    assert_eq!(drawing.highlighted, None);
    assert_eq!(drawing.border_color, Color::White);
    pane.focus();
    press(&mut pane, KeyCode::Char('j'));
    let drawing =
        pane.render(conversations_pane::RenderProps { area: AREA, border_color: Color::LightRed });
    assert_eq!(drawing.highlighted, Some(1));
    assert_eq!(drawing.border_color, Color::LightRed);
    pane.unfocus();
    assert_eq!(pane.render(props).highlighted, None);
}

#[test]
fn input_pane_sends_its_text_on_enter() {
    let mut pane = InputPane::new(&State::default());
    assert_eq!(pane.name(), "Message Input");
    for c in "hi".chars() {
        assert!(matches!(pane.handle_key_event(KeyEvent::press(KeyCode::Char(c))), KeyOutcome::Idle));
    }
    assert_eq!(pane.text(), "hi");
    assert_eq!(pane.cursor_position(), 2);
    match pane.handle_key_event(KeyEvent::press(KeyCode::Enter)) {
        KeyOutcome::Emit(Action::SendMessage(content)) => assert_eq!(content, "hi"),
        other => panic!("unexpected {:?}", other),
    }
    assert_eq!(pane.text(), "");
    assert_eq!(pane.cursor_position(), 0);
}

#[test]
fn input_pane_ignores_a_released_enter() {
    let mut pane = InputPane::new(&State::default());
    pane.handle_key_event(KeyEvent::press(KeyCode::Char('a')));
    let release = KeyEvent {
        code: KeyCode::Enter,
        modifiers: KeyModifiers { control: false },
        kind: KeyEventKind::Release,
    };
    assert!(matches!(pane.handle_key_event(release), KeyOutcome::Idle));
    assert_eq!(pane.text(), "a");
}

#[test]
fn input_pane_keeps_its_text_over_snapshots_and_focus_changes() {
    let mut pane = InputPane::new(&State::default());
    pane.handle_key_event(KeyEvent::press(KeyCode::Char('a')));
    pane.focus();
    pane.unfocus();
    let pane = pane.move_with_state(&state_with(&["x"]));
    assert_eq!(pane.text(), "a");
    assert_eq!(pane.cursor_position(), 1);
}

#[test]
fn input_pane_drawing_has_its_title() {
    let mut pane = InputPane::new(&State::default());
    pane.handle_key_event(KeyEvent::press(KeyCode::Char('a')));
    let drawing = pane.render(input_pane::RenderProps {
        area: AREA,
        border_color: Color::LightRed,
        show_cursor: true,
    });
    assert_eq!(drawing.title, "Message Input");
    assert_eq!(drawing.area, AREA);
    assert_eq!(drawing.text, "a");
    assert_eq!(drawing.cursor, Some(Position { x: 4, y: 4 }));
    assert_eq!(drawing.border_color, Color::LightRed);
    let drawing = pane.render(input_pane::RenderProps {
        area: AREA,
        border_color: Color::White,
        show_cursor: false,
    });
    assert_eq!(drawing.cursor, None);
}

fn chat_state() -> State {
    let joe = contact("Joe", "111");
    let mut chat = Chat::new(joe.clone());
    chat.messages.push(Message::new(
        joe.clone(),
        String::from("hello"),
        Timestamp { secs: 10, nanos: 0 },
        MessageDirection::From,
    ));
    chat.messages.push(Message::new(
        joe.clone(),
        String::from("hi joe"),
        Timestamp { secs: 20, nanos: 3 },
        MessageDirection::To,
    ));
    State::new(chat, ConversationList::new(vec![joe]))
}

#[test]
fn messages_pane_follows_the_snapshot() {
    let pane = MessagesPane::new(&State::default());
    assert_eq!(pane.name(), "Messages");
    assert!(pane.messages().is_empty());
    let mut pane = pane.move_with_state(&chat_state());
    assert_eq!(pane.messages().len(), 2);
    assert_eq!(pane.messages()[0].content, "hello");
    assert_eq!(pane.messages()[1].content, "hi joe");
    assert!(matches!(pane.handle_key_event(KeyEvent::press(KeyCode::Enter)), KeyOutcome::Idle));
    assert!(matches!(pane.handle_key_event(KeyEvent::press(KeyCode::Char('j'))), KeyOutcome::Idle));
    pane.focus();
    pane.unfocus();
    assert_eq!(pane.messages().len(), 2);
    let pane = pane.move_with_state(&State::default());
    assert!(pane.messages().is_empty());
}

#[test]
fn message_line_names_the_sender() {
    let state = chat_state();
    let from = MessageLine::from(&state.chat.messages[0]);
    assert_eq!(from.sender, "Joe:");
    assert_eq!(from.sender_color, Color::LightGreen);
    assert_eq!(from.content, "hello");
    assert_eq!(from.time, "00:00:10");
    let to = MessageLine::from(&state.chat.messages[1]);
    assert_eq!(to.sender, "Me:");
    assert_eq!(to.sender_color, Color::LightBlue);
    assert_eq!(to.content, "hi joe");
    assert_eq!(to.time, "00:00:20");
}

#[test]
fn message_line_tells_the_time_of_day() {
    let line = |secs: i64, nanos: u32| {
        MessageLine::from(&Message::new(
            contact("Joe", "111"),
            String::from("x"),
            Timestamp { secs, nanos },
            MessageDirection::From,
        ))
        .time
    };
    assert_eq!(line(1724895116, 0), "01:31:56");
    assert_eq!(line(1724895126, 999_999_999), "01:32:06");
    assert_eq!(line(0, 0), "00:00:00");
    assert_eq!(line(86_399, 0), "23:59:59");
    assert_eq!(line(86_400, 0), "00:00:00");
    assert_eq!(line(-1, 0), "23:59:59");
    assert_eq!(line(45_296, 0), "12:34:56");
    assert_eq!(line(i64::MAX, 0), "--:--:--");
    assert_eq!(line(i64::MIN, 0), "--:--:--");
    assert_eq!(line(0, 2_000_000_000), "--:--:--");
}

#[test]
fn message_line_with_a_given_time() {
    let message = Message::new(
        contact("Joe", "111"),
        String::from("x"),
        Timestamp { secs: 5, nanos: 0 },
        MessageDirection::To,
    );
    let line = MessageLine::with_time(&message, Some(String::from("noon")));
    assert_eq!(line.time, "noon");
    assert_eq!(line.sender, "Me:");
    assert_eq!(line.content, "x");
    let line = MessageLine::with_time(&message, None);
    assert_eq!(line.time, "--:--:--");
}

#[test]
fn messages_drawing_has_a_line_for_each_message() {
    let pane = MessagesPane::new(&chat_state());
    let drawing = pane.render(messages_pane::RenderProps { area: AREA, border_color: Color::LightRed });
    assert_eq!(drawing.title, "Messages");
    assert_eq!(drawing.area, AREA);
    assert_eq!(drawing.border_color, Color::LightRed);
    let shown: Vec<(String, String)> =
        drawing.lines.iter().map(|l| (l.sender.clone(), l.content.clone())).collect();
    assert_eq!(
        shown,
        vec![
            (String::from("Joe:"), String::from("hello")),
            (String::from("Me:"), String::from("hi joe")),
        ]
    );
}
