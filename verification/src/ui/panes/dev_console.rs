//! The developer console: a command line laid over the screen.
//!
//! A line is split into words as a POSIX shell would split it. The first
//! word names the command, the others are its values:
//!
//! ```text
//! send-to <contact-name> <phone-number> <message>
//! send-from <contact-name> <phone-number> <message>
//! panic
//! ```
//!
//! A word of two or more characters that begins with `-` is an option, and
//! no command has one; after a word `--` every word is a value.

use vstd::prelude::*;
use vstd::string::*;

use crate::state::action::{Action, ActionView};
use crate::state::state::{Contact, ContactView, MessageDirection, State};
use crate::ui::components::component::{Component, ComponentRender};
use crate::ui::components::input_box::{self, InputBox, InputBoxDrawing, InputBoxView};
use crate::ui::keys::{KeyCode, KeyEvent, KeyEventKind, KeyOutcome, KeyOutcomeView};
use crate::ui::layout::Rect;
use crate::ui::panes::Pane;
use crate::ui::style::Color;

verus! {

/// The words that `shlex::split` makes of a line, or `None` where it finds
/// the line erroneous.
pub uninterp spec fn shlex_split(line: Seq<char>) -> Option<Seq<Seq<char>>>;

/// Splits a line into words with `shlex::split`. The result depends on
/// the characters of the line alone.
#[verifier::external_body]
fn split_words(line: &str) -> (words: Option<Vec<String>>)
    ensures
        words.deep_view() == shlex_split(line@),
{
    shlex::split(line)
}

/// A [`Commands`] as plain values.
pub ghost enum CommandsView {
    SendTo { contact_name: Seq<char>, phone_number: Seq<char>, message: Seq<char> },
    SendFrom { contact_name: Seq<char>, phone_number: Seq<char>, message: Seq<char> },
    Panic,
}

/// A command of the developer console.
#[derive(Debug)]
pub enum Commands {
    /// Have a message sent to a contact.
    SendTo { contact_name: String, phone_number: String, message: String },
    /// Have a message arrive from a contact.
    SendFrom { contact_name: String, phone_number: String, message: String },
    /// Crash the program.
    Panic,
}

impl View for Commands {
    type V = CommandsView;

    open spec fn view(&self) -> CommandsView {
        match *self {
            Commands::SendTo { contact_name, phone_number, message } => CommandsView::SendTo {
                contact_name: contact_name@,
                phone_number: phone_number@,
                message: message@,
            },
            Commands::SendFrom { contact_name, phone_number, message } => CommandsView::SendFrom {
                contact_name: contact_name@,
                phone_number: phone_number@,
                message: message@,
            },
            Commands::Panic => CommandsView::Panic,
        }
    }
}

impl DeepView for Commands {
    type V = CommandsView;

    open spec fn deep_view(&self) -> CommandsView {
        self@
    }
}

/// Whether a word reads as an option: it begins with `-` and is longer than
/// that one character.
pub open spec fn is_option(word: Seq<char>) -> bool {
    word.len() >= 2 && word[0] == '-'
}

/// The values among the words after the command name: every word up to the
/// first `--`, and every word after it. `None` where one of the words
/// before the first `--` reads as an option.
pub open spec fn values(words: Seq<Seq<char>>) -> Option<Seq<Seq<char>>>
    decreases words.len(),
{
    if words.len() == 0 {
        Some(Seq::empty())
    } else if words[0] == "--"@ {
        Some(words.skip(1))
    } else if is_option(words[0]) {
        None
    } else {
        match values(words.skip(1)) {
            Some(rest) => Some(seq![words[0]] + rest),
            None => None,
        }
    }
}

/// The command that the words of a line spell, if they spell one: the name
/// of a command, and as many values as it takes.
pub open spec fn parsed(words: Seq<Seq<char>>) -> Option<CommandsView> {
    if words.len() == 0 {
        None
    } else {
        match values(words.skip(1)) {
            Some(given) => if words[0] == "send-to"@ && given.len() == 3 {
                Some(
                    CommandsView::SendTo {
                        contact_name: given[0],
                        phone_number: given[1],
                        message: given[2],
                    },
                )
            } else if words[0] == "send-from"@ && given.len() == 3 {
                Some(
                    CommandsView::SendFrom {
                        contact_name: given[0],
                        phone_number: given[1],
                        message: given[2],
                    },
                )
            } else if words[0] == "panic"@ && given.len() == 0 {
                Some(CommandsView::Panic)
            } else {
                None
            },
            None => None,
        }
    }
}

/// What is to be done about a command.
pub open spec fn outcome_of(command: CommandsView) -> KeyOutcomeView {
    match command {
        CommandsView::SendTo { contact_name, phone_number, message } => KeyOutcomeView::Emit(
            ActionView::Inject {
                contact: ContactView { name: contact_name, phone: phone_number, has_unread: false },
                content: message,
                direction: MessageDirection::To,
            },
        ),
        CommandsView::SendFrom { contact_name, phone_number, message } => KeyOutcomeView::Emit(
            ActionView::Inject {
                contact: ContactView { name: contact_name, phone: phone_number, has_unread: false },
                content: message,
                direction: MessageDirection::From,
            },
        ),
        CommandsView::Panic => KeyOutcomeView::Panic,
    }
}

/// What is to be done about a line that was split into `words`: nothing
/// where the split failed or the words spell no command.
pub open spec fn outcome_of_words(words: Option<Seq<Seq<char>>>) -> KeyOutcomeView {
    match words {
        Some(words) => match parsed(words) {
            Some(command) => outcome_of(command),
            None => KeyOutcomeView::Idle,
        },
        None => KeyOutcomeView::Idle,
    }
}

/// What the console answers to the key event `key` while it holds `line`:
/// on a press of Enter what the line asks for, on anything else nothing.
pub open spec fn console_answer(line: Seq<char>, key: KeyEvent) -> KeyOutcomeView {
    if key.kind == KeyEventKind::Press && key.code == KeyCode::Enter {
        outcome_of_words(shlex_split(line))
    } else {
        KeyOutcomeView::Idle
    }
}

fn word_is_option(word: &String) -> (option: bool)
    ensures
        option == is_option(word@),
{
    let word = word.as_str();
    word.unicode_len() >= 2 && word.get_char(0) == '-'
}

fn word_is(word: &String, literal: &str) -> (same: bool)
    ensures
        same == (word@ == literal@),
{
    *word == String::from_str(literal)
}

/// The values among `words` from the place `from` on.
fn values_of(words: &Vec<String>, from: usize) -> (given: Option<Vec<String>>)
    requires
        from <= words.len(),
    ensures
        given.deep_view() == values(words.deep_view().skip(from as int)),
{
    let ghost all = words.deep_view();
    let mut given: Vec<String> = Vec::new();
    let mut i: usize = from;
    let mut escaped = false;
    assert(given.deep_view() =~= Seq::empty());
    while i < words.len()
        invariant
            from <= i <= words.len(),
            all == words.deep_view(),
            escaped ==> values(all.skip(from as int)) == Some(given.deep_view() + all.skip(i as int)),
            !escaped ==> values(all.skip(from as int)) == match values(all.skip(i as int)) {
                Some(rest) => Some(given.deep_view() + rest),
                None => None,
            },
        decreases words.len() - i,
    {
        let ghost before = given.deep_view();
        let ghost rest = all.skip(i as int);
        assert(rest[0] == words[i as int]@);
        assert(rest.skip(1) =~= all.skip(i + 1));
        if escaped {
            given.push(words[i].clone());
            assert(given.deep_view() =~= before.push(rest[0]));
            assert(before + rest =~= before.push(rest[0]) + rest.skip(1));
        } else if word_is(&words[i], "--") {
            escaped = true;
        } else if word_is_option(&words[i]) {
            return None;
        } else {
            given.push(words[i].clone());
            assert(given.deep_view() =~= before.push(rest[0]));
            proof {
                match values(rest.skip(1)) {
                    Some(tail) => {
                        assert(before + (seq![rest[0]] + tail) =~= before.push(rest[0]) + tail);
                    },
                    None => {},
                }
            }
        }
        i += 1;
    }
    assert(all.skip(i as int) =~= Seq::empty());
    assert(given.deep_view() + Seq::<Seq<char>>::empty() =~= given.deep_view());
    Some(given)
}

/// Reads a command from the words of a line.
pub fn parse_command(words: &Vec<String>) -> (command: Option<Commands>)
    ensures
        command.deep_view() == parsed(words.deep_view()),
{
    if words.len() == 0 {
        return None;
    }
    let given = match values_of(words, 1) {
        Some(given) => given,
        None => {
            return None;
        },
    };
    assert(words.deep_view()[0] == words[0]@);
    if word_is(&words[0], "send-to") && given.len() == 3 {
        Some(
            Commands::SendTo {
                contact_name: given[0].clone(),
                phone_number: given[1].clone(),
                message: given[2].clone(),
            },
        )
    } else if word_is(&words[0], "send-from") && given.len() == 3 {
        Some(
            Commands::SendFrom {
                contact_name: given[0].clone(),
                phone_number: given[1].clone(),
                message: given[2].clone(),
            },
        )
    } else if word_is(&words[0], "panic") && given.len() == 0 {
        Some(Commands::Panic)
    } else {
        None
    }
}

/// What is to be done about a line, given the words that it was split into.
pub fn run_words(words: Option<Vec<String>>) -> (outcome: KeyOutcome)
    ensures
        outcome@ == outcome_of_words(words.deep_view()),
{
    let words = match words {
        Some(words) => words,
        None => {
            return KeyOutcome::Idle;
        },
    };
    match parse_command(&words) {
        Some(Commands::SendFrom { contact_name, phone_number, message }) => KeyOutcome::Emit(
            Action::Inject {
                contact: Contact::new(contact_name, phone_number),
                content: message,
                direction: MessageDirection::From,
            },
        ),
        Some(Commands::SendTo { contact_name, phone_number, message }) => KeyOutcome::Emit(
            Action::Inject {
                contact: Contact::new(contact_name, phone_number),
                content: message,
                direction: MessageDirection::To,
            },
        ),
        Some(Commands::Panic) => KeyOutcome::Panic,
        None => KeyOutcome::Idle,
    }
}

/// An input box whose line is run as a command on Enter.
#[derive(Debug)]
pub struct DevConsole {
    input_box: InputBox,
}

impl View for DevConsole {
    type V = InputBoxView;

    closed spec fn view(&self) -> InputBoxView {
        self.input_box@
    }
}

impl DevConsole {
    /// Runs the line as a command and empties the box, whether the line
    /// spelled a command or not.
    fn handle_command(&mut self) -> (outcome: KeyOutcome)
        ensures
            old(self)@.wf(),
            final(self)@ == InputBoxView::empty(),
            outcome@ == outcome_of_words(shlex_split(old(self)@.text)),
    {
        let words = split_words(self.input_box.text());
        self.input_box.reset();
        run_words(words)
    }

    /// The line as it stands.
    pub fn text(&self) -> (text: &str)
        ensures
            text@ == self@.text,
            self@.wf(),
    {
        self.input_box.text()
    }

    /// How many characters of the line stand before the cursor.
    pub fn cursor_position(&self) -> (cursor: usize)
        ensures
            cursor == self@.cursor,
            self@.wf(),
    {
        self.input_box.cursor_position()
    }
}

impl Pane for DevConsole {

}

impl Component for DevConsole {
    /// The console with an empty line.
    fn new(state: &State) -> (console: DevConsole)
        ensures
            console@ == InputBoxView::empty(),
    {
        DevConsole { input_box: InputBox::new(state) }
    }

    fn name(&self) -> (name: &str)
        ensures
            name@ == "Message Input"@,
    {
        "Message Input"
    }

    /// The console as it is: it shows nothing of the state.
    fn move_with_state(self, _state: &State) -> (console: DevConsole)
        ensures
            console@ == self@,
    {
        self
    }

    /// On a press of Enter, runs the line as a command and empties the
    /// box; leaves every other key to the box.
    fn handle_key_event(&mut self, key: KeyEvent) -> (outcome: KeyOutcome)
        ensures
            final(self)@ == old(self)@.after_key(key),
            outcome@ == console_answer(old(self)@.text, key),
            old(self)@.wf(),
            final(self)@.wf(),
    {
        match key.code {
            KeyCode::Enter if key.kind == KeyEventKind::Press => self.handle_command(),
            _ => self.input_box.handle_key_event(key),
        }
    }
}

/// What the router decides of the looks of the developer console.
#[derive(Debug, Clone, Copy, PartialEq, Eq, Structural)]
pub struct RenderProps {
    pub area: Rect,
    pub border_color: Color,
}

impl ComponentRender<RenderProps, InputBoxDrawing> for DevConsole {
    /// The console is drawn over whatever lies beneath its area, always
    /// with its cursor.
    fn render(&self, props: RenderProps) -> (drawing: InputBoxDrawing)
        ensures
            drawing@ == self@.drawn("Dev Console"@, props.area, props.border_color, true),
    {
        self.input_box.render(
            input_box::RenderProps {
                title: String::from_str("Dev Console"),
                area: props.area,
                border_color: props.border_color,
                show_cursor: true,
            },
        )
    }
}

} // verus!
