//! The pane in which the user writes a message.

use vstd::prelude::*;
use vstd::string::*;

use crate::state::state::State;
use crate::ui::components::component::{Component, ComponentRender};
use crate::ui::components::input_box::{self, InputBox, InputBoxDrawing, InputBoxView};
use crate::ui::keys::{KeyCode, KeyEvent, KeyEventKind, KeyModifiers, KeyOutcome};
use crate::ui::layout::Rect;
use crate::ui::panes::Pane;
use crate::ui::style::Color;

verus! {

/// An input box whose text is sent as a message on Enter.
#[derive(Debug)]
pub struct InputPane {
    input_box: InputBox,
}

impl View for InputPane {
    type V = InputBoxView;

    closed spec fn view(&self) -> InputBoxView {
        self.input_box@
    }
}

impl Pane for InputPane {
    // Doesn't have to override anything
}

impl InputPane {
    /// The text as it stands.
    pub fn text(&self) -> (text: &str)
        ensures
            text@ == self@.text,
            self@.wf(),
    {
        self.input_box.text()
    }

    /// How many characters of the text stand before the cursor.
    pub fn cursor_position(&self) -> (cursor: usize)
        ensures
            cursor == self@.cursor,
            self@.wf(),
    {
        self.input_box.cursor_position()
    }

    fn send_message(&mut self) -> (outcome: KeyOutcome)
        ensures
            old(self)@.wf(),
            final(self)@ == InputBoxView::empty(),
            outcome@ == old(self)@.answer_to(KeyEvent { code: KeyCode::Enter, modifiers: KeyModifiers { control: false }, kind: KeyEventKind::Press }),
    {
        self.input_box.handle_key_event(KeyEvent::press(KeyCode::Enter))
    }
}

impl Component for InputPane {
    /// The pane with an empty box.
    fn new(state: &State) -> (pane: InputPane)
        ensures
            pane@ == InputBoxView::empty(),
    {
        InputPane { input_box: InputBox::new(state) }
    }

    fn name(&self) -> (name: &str)
        ensures
            name@ == "Message Input"@,
    {
        "Message Input"
    }

    /// The pane as it is: it shows nothing of the state.
    fn move_with_state(self, _state: &State) -> (pane: InputPane)
        ensures
            pane@ == self@,
    {
        self
    }

    /// On a press of Enter, sends the text as a message and empties the
    /// box; leaves every other key to the box.
    fn handle_key_event(&mut self, key: KeyEvent) -> (outcome: KeyOutcome)
        ensures
            final(self)@ == old(self)@.after_key(key),
            outcome@ == old(self)@.answer_to(key),
            old(self)@.wf(),
            final(self)@.wf(),
    {
        match key.code {
            KeyCode::Enter if key.kind == KeyEventKind::Press => self.send_message(),
            _ => self.input_box.handle_key_event(key),
        }
    }
}

/// What the router decides of the looks of the input pane.
#[derive(Debug, Clone, Copy, PartialEq, Eq, Structural)]
pub struct RenderProps {
    pub area: Rect,
    pub border_color: Color,
    pub show_cursor: bool,
}

impl ComponentRender<RenderProps, InputBoxDrawing> for InputPane {
    fn render(&self, props: RenderProps) -> (drawing: InputBoxDrawing)
        ensures
            drawing@ == self@.drawn(
                "Message Input"@,
                props.area,
                props.border_color,
                props.show_cursor,
            ),
    {
        self.input_box.render(
            input_box::RenderProps {
                title: String::from_str("Message Input"),
                area: props.area,
                border_color: props.border_color,
                show_cursor: props.show_cursor,
            },
        )
    }
}

} // verus!
