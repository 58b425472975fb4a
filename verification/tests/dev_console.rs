use chatty::state::{Action, MessageDirection, State};
use chatty::ui::components::{Component, ComponentRender};
use chatty::ui::panes::dev_console::{parse_command, run_words, RenderProps};
use chatty::ui::panes::{Commands, DevConsole};
use chatty::ui::{Color, KeyCode, KeyEvent, KeyOutcome, Position, Rect};

fn words(list: &[&str]) -> Vec<String> {
    list.iter().map(|w| String::from(*w)).collect()
}

fn console_with(line: &str) -> DevConsole {
    let mut console = DevConsole::new(&State::default());
    for c in line.chars() {
        assert!(matches!(console.handle_key_event(KeyEvent::press(KeyCode::Char(c))), KeyOutcome::Idle));
    }
    console
}

fn enter(console: &mut DevConsole) -> KeyOutcome {
    console.handle_key_event(KeyEvent::press(KeyCode::Enter))
}

fn the_command() -> clap::Command {
    let values = |name: &'static str| {
        clap::Command::new(name)
            .arg(clap::Arg::new("contact_name").required(true))
            .arg(clap::Arg::new("phone_number").required(true))
            .arg(clap::Arg::new("message").required(true))
    };
    clap::Command::new("console")
        .multicall(true)
        .subcommand_required(true)
        .arg_required_else_help(true)
        .subcommand(values("send-to"))
        .subcommand(values("send-from"))
        .subcommand(clap::Command::new("panic"))
}

/// What clap reads from the words: the name of the command and its values.
fn by_clap(list: &[&str]) -> Option<(String, Vec<String>)> {
    let matches = the_command().try_get_matches_from(list.iter().copied()).ok()?;
    let (name, sub) = matches.subcommand()?;
    let mut values = Vec::new();
    if name != "panic" {
        for id in ["contact_name", "phone_number", "message"] {
            values.push(sub.get_one::<String>(id)?.clone());
        }
    }
    Some((String::from(name), values))
}

fn by_library(list: &[&str]) -> Option<(String, Vec<String>)> {
    match parse_command(&words(list))? {
        Commands::SendTo { contact_name, phone_number, message } => {
            Some((String::from("send-to"), vec![contact_name, phone_number, message]))
        }
        Commands::SendFrom { contact_name, phone_number, message } => {
            Some((String::from("send-from"), vec![contact_name, phone_number, message]))
        }
        Commands::Panic => Some((String::from("panic"), Vec::new())),
    }
}

#[test]
fn parse_reads_send_to() {
    match parse_command(&words(&["send-to", "Joe", "111", "hello there"])) {
        Some(Commands::SendTo { contact_name, phone_number, message }) => {
            assert_eq!(contact_name, "Joe");
            assert_eq!(phone_number, "111");
            assert_eq!(message, "hello there");
        }
        other => panic!("unexpected {:?}", other),
    }
}

#[test]
fn parse_reads_send_from() {
    match parse_command(&words(&["send-from", "Ben Boy", "222-222", "yo"])) {
        Some(Commands::SendFrom { contact_name, phone_number, message }) => {
            assert_eq!(contact_name, "Ben Boy");
            assert_eq!(phone_number, "222-222");
            assert_eq!(message, "yo");
        }
        other => panic!("unexpected {:?}", other),
    }
}

#[test]
fn parse_reads_panic() {
    assert!(matches!(parse_command(&words(&["panic"])), Some(Commands::Panic)));
    assert!(matches!(parse_command(&words(&["panic", "--"])), Some(Commands::Panic)));
}

#[test]
fn parse_rejects_what_is_no_command() {
    let rejected: [&[&str]; 16] = [
        &[],
        &["help"],
        &["send"],
        &["Send-To", "a", "b", "c"],
        &["send-to"],
        &["send-to", "a"],
        &["send-to", "a", "b"],
        &["send-to", "a", "b", "c", "d"],
        &["send-from", "a", "b"],
        &["panic", "now"],
        &["send-to", "a", "b", "-c"],
        &["send-to", "--help"],
        &["send-to", "-h"],
        &["send-to", "a", "b", "--", "c", "d"],
        &["--", "send-to", "a", "b", "c"],
        &["panic", "-x"],
    ];
    for list in rejected {
        assert!(parse_command(&words(list)).is_none(), "{:?}", list);
    }
}

#[test]
fn parse_takes_a_lone_hyphen_and_escaped_words_as_values() {
    assert_eq!(
        by_library(&["send-to", "-", "", "x"]),
        Some((String::from("send-to"), words(&["-", "", "x"])))
    );
    assert_eq!(
        by_library(&["send-to", "a", "--", "-b", "--c"]),
        Some((String::from("send-to"), words(&["a", "-b", "--c"])))
    );
    assert_eq!(
        by_library(&["send-from", "--", "--", "-", "--"]),
        Some((String::from("send-from"), words(&["--", "-", "--"])))
    );
}

/// clap takes the first word for the path of a program and goes by its
/// file stem; the console goes by the word itself. For words that are
/// their own file stem the two read every line alike.
#[test]
fn parse_agrees_with_clap() {
    let pool = ["send-to", "panic", "a", "b c", "", "-", "--", "-x", "--help", "-1"];
    let mut checked = 0;
    for first in ["send-to", "send-from", "panic", "help", "a", "--", "-h", "-"] {
        assert_eq!(by_library(&[first]), by_clap(&[first]), "{:?}", [first]);
        for a in pool {
            let list = [first, a];
            assert_eq!(by_library(&list), by_clap(&list), "{:?}", list);
            for b in pool {
                let list = [first, a, b];
                assert_eq!(by_library(&list), by_clap(&list), "{:?}", list);
                for c in pool {
                    let list = [first, a, b, c];
                    assert_eq!(by_library(&list), by_clap(&list), "{:?}", list);
                    checked += 1;
                    for d in ["a", "--", "-x"] {
                        let list = [first, a, b, c, d];
                        assert_eq!(by_library(&list), by_clap(&list), "{:?}", list);
                    }
                }
            }
        }
    }
    for list in [
        &["send-to", "a", "--", "b", "--", "c"][..],
        &["send-from", "--", "a", "b", "c", "d"][..],
        &["send-to", "-", "-", "-", "--"][..],
        &["send-to", "a", "b", "--", "c", "-x"][..],
        &["panic", "--", "--"][..],
    ] {
        assert_eq!(by_library(list), by_clap(list), "{:?}", list);
    }
    assert_eq!(by_library(&[]), by_clap(&[]));
    assert_eq!(checked, 8 * 10 * 10 * 10);
}

#[test]
fn run_words_turns_commands_into_actions() {
    match run_words(Some(words(&["send-to", "Joe", "111", "hi"]))) {
        KeyOutcome::Emit(Action::Inject { contact, content, direction }) => {
            assert_eq!(contact.name, "Joe");
            assert_eq!(contact.phone, "111");
            assert!(!contact.has_unread);
            assert_eq!(content, "hi");
            assert_eq!(direction, MessageDirection::To);
        }
        other => panic!("unexpected {:?}", other),
    }
    match run_words(Some(words(&["send-from", "Ben", "222", "yo"]))) {
        KeyOutcome::Emit(Action::Inject { contact, content, direction }) => {
            assert_eq!(contact.name, "Ben");
            assert_eq!(contact.phone, "222");
            assert_eq!(content, "yo");
            assert_eq!(direction, MessageDirection::From);
        }
        other => panic!("unexpected {:?}", other),
    }
    assert!(matches!(run_words(Some(words(&["panic"]))), KeyOutcome::Panic));
    assert!(matches!(run_words(Some(words(&["nonsense"]))), KeyOutcome::Idle));
    assert!(matches!(run_words(Some(Vec::new())), KeyOutcome::Idle));
    assert!(matches!(run_words(None), KeyOutcome::Idle));
}

#[test]
fn console_splits_the_line_like_a_shell() {
    let mut console = console_with("send-from 'Ben Boy' 222-222-2222 \"how are you\"");
    match enter(&mut console) {
        KeyOutcome::Emit(Action::Inject { contact, content, direction }) => {
            assert_eq!(contact.name, "Ben Boy");
            assert_eq!(contact.phone, "222-222-2222");
            assert_eq!(content, "how are you");
            assert_eq!(direction, MessageDirection::From);
        }
        other => panic!("unexpected {:?}", other),
    }
    assert_eq!(console.text(), "");
    assert_eq!(console.cursor_position(), 0);
}

#[test]
fn console_sends_to_a_contact() {
    let mut console = console_with("send-to Joe 111 hi\\ there");
    match enter(&mut console) {
        KeyOutcome::Emit(Action::Inject { contact, content, direction }) => {
            assert_eq!(contact.name, "Joe");
            assert_eq!(contact.phone, "111");
            assert_eq!(content, "hi there");
            assert_eq!(direction, MessageDirection::To);
        }
        other => panic!("unexpected {:?}", other),
    }
}

#[test]
fn console_asks_for_a_panic() {
    let mut console = console_with("  panic  ");
    assert!(matches!(enter(&mut console), KeyOutcome::Panic));
    assert_eq!(console.text(), "");
}

#[test]
fn console_discards_a_line_with_an_open_quote() {
    let mut console = console_with("send-to Joe 111 \"unfinished");
    assert!(matches!(enter(&mut console), KeyOutcome::Idle));
    assert_eq!(console.text(), "");
    assert_eq!(console.cursor_position(), 0);
}

#[test]
fn console_discards_a_line_that_is_no_command() {
    for line in ["", "send-to Joe", "send-to a b c d", "hello", "panic now", "send-to a b -c", "# panic"] {
        let mut console = console_with(line);
        assert!(matches!(enter(&mut console), KeyOutcome::Idle), "{:?}", line);
        assert_eq!(console.text(), "");
        assert_eq!(console.cursor_position(), 0);
    }
}

#[test]
fn console_edits_its_line_like_an_input_box() {
    let mut console = console_with("panix");
    console.handle_key_event(KeyEvent::press(KeyCode::Backspace));
    console.handle_key_event(KeyEvent::press(KeyCode::Char('c')));
    console.handle_key_event(KeyEvent::press(KeyCode::Left));
    console.handle_key_event(KeyEvent::press(KeyCode::Left));
    console.handle_key_event(KeyEvent::press(KeyCode::Right));
    assert_eq!(console.text(), "panic");
    assert_eq!(console.cursor_position(), 4);
    assert!(matches!(enter(&mut console), KeyOutcome::Panic));
}

#[test]
fn console_name_and_drawing() {
    let console = console_with("ab");
    assert_eq!(console.name(), "Message Input");
    let area = Rect { x: 4, y: 5, width: 20, height: 3 };
    let drawing = console.render(RenderProps { area, border_color: Color::LightGreen });
    assert_eq!(drawing.title, "Dev Console");
    assert_eq!(drawing.area, area);
    assert_eq!(drawing.text, "ab");
    assert_eq!(drawing.border_color, Color::LightGreen);
    assert_eq!(drawing.text_color, Color::Yellow);
    assert_eq!(drawing.cursor, Some(Position { x: 7, y: 6 }));
}
