//! A one-line text input with a cursor.

use vstd::prelude::*;
use vstd::string::*;

use crate::state::action::{Action, ActionView};
use crate::state::state::State;
use crate::ui::components::component::{Component, ComponentRender};
use crate::ui::keys::{KeyCode, KeyEvent, KeyEventKind, KeyOutcome, KeyOutcomeView};
use crate::ui::layout::{cell_at, Position, Rect};
use crate::ui::style::Color;

verus! {

/// An [`InputBox`] as plain values: its characters, and how many of them
/// stand before the cursor.
pub ghost struct InputBoxView {
    pub text: Seq<char>,
    pub cursor: nat,
}

impl InputBoxView {
    /// Whether the cursor stands within the text or right after it.
    pub open spec fn wf(self) -> bool {
        self.cursor <= self.text.len()
    }

    /// The box without text.
    pub open spec fn empty() -> InputBoxView {
        InputBoxView { text: Seq::empty(), cursor: 0 }
    }

    /// The box holding `text`, with the cursor after it.
    pub open spec fn holding(text: Seq<char>) -> InputBoxView {
        InputBoxView { text, cursor: text.len() }
    }

    /// The box with the cursor one character to the left, if there is one.
    pub open spec fn moved_left(self) -> InputBoxView {
        InputBoxView { cursor: if self.cursor > 0 { (self.cursor - 1) as nat } else { 0 }, ..self }
    }

    /// The box with the cursor one character to the right, if there is one.
    pub open spec fn moved_right(self) -> InputBoxView {
        InputBoxView {
            cursor: if self.cursor < self.text.len() { self.cursor + 1 } else { self.text.len() },
            ..self
        }
    }

    /// The box with `c` put in at the cursor, and the cursor after it.
    pub open spec fn entered(self, c: char) -> InputBoxView {
        InputBoxView { text: self.text.insert(self.cursor as int, c), cursor: self.cursor + 1 }
    }

    /// The box without the character before the cursor, and the cursor in
    /// its place. With the cursor at the start, the box as it is.
    pub open spec fn deleted(self) -> InputBoxView {
        if self.cursor == 0 {
            self
        } else {
            InputBoxView {
                text: self.text.remove(self.cursor - 1),
                cursor: (self.cursor - 1) as nat,
            }
        }
    }

    /// The box after the key event `key`.
    pub open spec fn after_key(self, key: KeyEvent) -> InputBoxView {
        if key.kind != KeyEventKind::Press {
            self
        } else {
            match key.code {
                KeyCode::Char(c) => self.entered(c),
                KeyCode::Backspace => self.deleted(),
                KeyCode::Left => self.moved_left(),
                KeyCode::Right => self.moved_right(),
                KeyCode::Enter => InputBoxView::empty(),
                _ => self,
            }
        }
    }

    /// What the box answers to the key event `key`: on a press of Enter it
    /// sends its text, on anything else nothing.
    pub open spec fn answer_to(self, key: KeyEvent) -> KeyOutcomeView {
        if key.kind == KeyEventKind::Press && key.code == KeyCode::Enter {
            KeyOutcomeView::Emit(ActionView::SendMessage(self.text))
        } else {
            KeyOutcomeView::Idle
        }
    }
}

/// `String::push` puts the character at the end of the string.
pub assume_specification[ String::push ](text: &mut String, c: char)
    ensures
        final(text)@ == old(text)@.push(c),
;

/// A line of text that is edited at a cursor. The cursor counts characters
/// and never leaves the text.
#[derive(Debug)]
pub struct InputBox {
    /// Current value of the input box.
    text: String,
    /// How many characters stand before the cursor.
    cursor_position: usize,
}

impl View for InputBox {
    type V = InputBoxView;

    closed spec fn view(&self) -> InputBoxView {
        InputBoxView { text: self.text@, cursor: self.cursor_position as nat }
    }
}

impl InputBox {
    #[verifier::type_invariant]
    spec fn cursor_in_text(&self) -> bool {
        self.cursor_position <= self.text@.len()
    }

    /// The text as it stands.
    pub fn text(&self) -> (text: &str)
        ensures
            text@ == self@.text,
            self@.wf(),
    {
        proof {
            use_type_invariant(self);
        }
        self.text.as_str()
    }

    /// How many characters stand before the cursor.
    pub fn cursor_position(&self) -> (cursor: usize)
        ensures
            cursor == self@.cursor,
            self@.wf(),
    {
        proof {
            use_type_invariant(self);
        }
        self.cursor_position
    }

    /// Replaces the text and puts the cursor after it.
    pub fn set_text(&mut self, new_text: &str)
        ensures
            final(self)@ == InputBoxView::holding(new_text@),
    {
        self.cursor_position = 0;
        self.text = String::from_str(new_text);
        self.cursor_position = new_text.unicode_len();
    }

    /// Empties the box.
    pub fn reset(&mut self)
        ensures
            final(self)@ == InputBoxView::empty(),
    {
        self.cursor_position = 0;
        self.text = String::new();
    }

    /// Whether the box holds no text.
    pub fn is_empty(&self) -> (empty: bool)
        ensures
            empty == (self@.text.len() == 0),
    {
        self.text.as_str().is_empty()
    }

    fn move_cursor_left(&mut self)
        ensures
            final(self)@ == old(self)@.moved_left(),
            final(self)@.wf(),
    {
        proof {
            use_type_invariant(&*self);
        }
        let cursor_moved_left = self.cursor_position.saturating_sub(1);
        self.cursor_position = self.clamp_cursor(cursor_moved_left);
    }

    fn move_cursor_right(&mut self)
        ensures
            final(self)@ == old(self)@.moved_right(),
            final(self)@.wf(),
    {
        proof {
            use_type_invariant(&*self);
        }
        let cursor_moved_right = self.cursor_position.saturating_add(1);
        self.cursor_position = self.clamp_cursor(cursor_moved_right);
    }

    fn enter_char(&mut self, new_char: char)
        ensures
            final(self)@ == old(self)@.entered(new_char),
            final(self)@.wf(),
    {
        proof {
            use_type_invariant(&*self);
        }
        let length = self.text.as_str().unicode_len();
        let mut text = String::from_str(self.text.as_str().substring_char(0, self.cursor_position));
        text.push(new_char);
        text.append(self.text.as_str().substring_char(self.cursor_position, length));
        assert(text@ =~= old(self)@.text.insert(old(self)@.cursor as int, new_char));
        self.text = text;
        self.move_cursor_right();
    }

    fn delete_char(&mut self)
        ensures
            final(self)@ == old(self)@.deleted(),
            final(self)@.wf(),
    {
        proof {
            use_type_invariant(&*self);
        }
        let is_not_cursor_leftmost = self.cursor_position != 0;
        if is_not_cursor_leftmost {
            let length = self.text.as_str().unicode_len();
            let current_index = self.cursor_position;
            let from_left_to_current_index = current_index - 1;
            let mut text = String::from_str(
                self.text.as_str().substring_char(0, from_left_to_current_index),
            );
            text.append(self.text.as_str().substring_char(current_index, length));
            assert(text@ =~= old(self)@.text.remove(old(self)@.cursor - 1));
            self.move_cursor_left();
            self.text = text;
        }
    }

    fn send_message(&mut self) -> (outcome: KeyOutcome)
        ensures
            outcome@ == KeyOutcomeView::Emit(ActionView::SendMessage(old(self)@.text)),
            final(self)@ == InputBoxView::empty(),
    {
        let content = self.text.clone();
        self.reset();
        KeyOutcome::Emit(Action::SendMessage(content))
    }

    fn clamp_cursor(&self, new_cursor_pos: usize) -> (cursor: usize)
        ensures
            cursor == if new_cursor_pos <= self@.text.len() {
                new_cursor_pos as nat
            } else {
                self@.text.len()
            },
            self@.text.len() <= usize::MAX,
    {
        let length = self.text.as_str().unicode_len();
        if new_cursor_pos > length {
            length
        } else {
            new_cursor_pos
        }
    }
}

impl Component for InputBox {
    /// An empty box, whatever the state.
    fn new(_state: &State) -> (input_box: InputBox)
        ensures
            input_box@ == InputBoxView::empty(),
    {
        InputBox { text: String::new(), cursor_position: 0 }
    }

    fn name(&self) -> (name: &str)
        ensures
            name@ == "Input"@,
    {
        "Input"
    }

    /// The box as it is: it shows nothing of the state.
    fn move_with_state(self, _state: &State) -> (input_box: InputBox)
        ensures
            input_box@ == self@,
    {
        self
    }

    /// Edits the text on a press of a character, of Backspace or of an
    /// arrow, and on a press of Enter sends the text and empties the box.
    fn handle_key_event(&mut self, key: KeyEvent) -> (outcome: KeyOutcome)
        ensures
            final(self)@ == old(self)@.after_key(key),
            outcome@ == old(self)@.answer_to(key),
            old(self)@.wf(),
            final(self)@.wf(),
    {
        proof {
            use_type_invariant(&*self);
        }
        if key.kind != KeyEventKind::Press {
            return KeyOutcome::Idle;
        }
        match key.code {
            KeyCode::Char(to_insert) => {
                self.enter_char(to_insert);
                KeyOutcome::Idle
            },
            KeyCode::Backspace => {
                self.delete_char();
                KeyOutcome::Idle
            },
            KeyCode::Left => {
                self.move_cursor_left();
                KeyOutcome::Idle
            },
            KeyCode::Right => {
                self.move_cursor_right();
                KeyOutcome::Idle
            },
            KeyCode::Enter => self.send_message(),
            _ => KeyOutcome::Idle,
        }
    }
}

/// What the parent of an input box decides of its looks.
#[derive(Debug)]
pub struct RenderProps {
    pub title: String,
    pub area: Rect,
    pub border_color: Color,
    pub show_cursor: bool,
}

/// An [`InputBoxDrawing`] as plain values.
pub ghost struct InputBoxDrawingView {
    pub title: Seq<char>,
    pub area: Rect,
    pub text: Seq<char>,
    pub text_color: Color,
    pub border_color: Color,
    pub cursor: Option<Position>,
}

/// What is to be drawn for an input box: a bordered line of text.
#[derive(Debug)]
pub struct InputBoxDrawing {
    pub title: String,
    pub area: Rect,
    pub text: String,
    pub text_color: Color,
    pub border_color: Color,
    /// The cell of the cursor, where the cursor is to be shown.
    pub cursor: Option<Position>,
}

impl View for InputBoxDrawing {
    type V = InputBoxDrawingView;

    open spec fn view(&self) -> InputBoxDrawingView {
        InputBoxDrawingView {
            title: self.title@,
            area: self.area,
            text: self.text@,
            text_color: self.text_color,
            border_color: self.border_color,
            cursor: self.cursor,
        }
    }
}

impl InputBoxView {
    /// The cell of the cursor in a box drawn at `area`: the border takes
    /// one row and one column, and each character before the cursor one
    /// column more.
    pub open spec fn cursor_cell(self, area: Rect) -> Position {
        cell_at(area, self.cursor + 1, 1)
    }

    /// What is to be drawn for the box: its text in yellow, at the place,
    /// under the title and within the border that the parent decided, and
    /// the cursor where the parent wants it shown.
    pub open spec fn drawn(
        self,
        title: Seq<char>,
        area: Rect,
        border_color: Color,
        show_cursor: bool,
    ) -> InputBoxDrawingView {
        InputBoxDrawingView {
            title,
            area,
            text: self.text,
            text_color: Color::Yellow,
            border_color,
            cursor: if show_cursor {
                Some(self.cursor_cell(area))
            } else {
                None
            },
        }
    }
}

impl ComponentRender<RenderProps, InputBoxDrawing> for InputBox {
    fn render(&self, props: RenderProps) -> (drawing: InputBoxDrawing)
        ensures
            drawing@ == self@.drawn(props.title@, props.area, props.border_color, props.show_cursor),
    {
        let cursor = if props.show_cursor {
            // Draw the cursor at the current position in the input field,
            // one column right of and one line down from the border.
            let right: u16 = if self.cursor_position < 0xffff {
                (self.cursor_position + 1) as u16
            } else {
                0xffff
            };
            Some(
                Position {
                    x: if props.area.x <= 0xffff - right {
                        props.area.x + right
                    } else {
                        0xffff
                    },
                    y: if props.area.y < 0xffff {
                        props.area.y + 1
                    } else {
                        0xffff
                    },
                },
            )
        } else {
            None
        };
        InputBoxDrawing {
            title: props.title,
            area: props.area,
            text: self.text.clone(),
            text_color: Color::Yellow,
            border_color: props.border_color,
            cursor,
        }
    }
}

/// Every edit keeps the cursor within the text: if it stands there before
/// a key event, it stands there after it.
pub proof fn lemma_cursor_stays_in_text(input_box: InputBoxView, key: KeyEvent)
    requires
        input_box.wf(),
    ensures
        input_box.after_key(key).wf(),
        0 <= input_box.after_key(key).cursor <= input_box.after_key(key).text.len(),
{
}

/// Deleting with the cursor at the start changes nothing.
pub proof fn lemma_delete_at_start_is_noop(input_box: InputBoxView)
    requires
        input_box.cursor == 0,
    ensures
        input_box.deleted() == input_box,
{
}

/// Entering a character at a cursor within the text makes the text one
/// longer and moves the cursor one to the right; the character stands where
/// the cursor was, and the others keep their order.
pub proof fn lemma_enter_grows_by_one(input_box: InputBoxView, c: char)
    requires
        input_box.wf(),
    ensures
        input_box.entered(c).text.len() == input_box.text.len() + 1,
        input_box.entered(c).cursor == input_box.cursor + 1,
        input_box.entered(c).text[input_box.cursor as int] == c,
        input_box.entered(c).text.remove(input_box.cursor as int) == input_box.text,
        input_box.entered(c).deleted() == input_box,
{
    let grown = input_box.entered(c);
    assert(grown.text.remove(input_box.cursor as int) =~= input_box.text);
}

} // verus!
