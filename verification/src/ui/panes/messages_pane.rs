//! The pane that lists the messages of the conversation in focus.

use vstd::prelude::*;
use vstd::string::*;

use crate::state::state::{Message, MessageDirection, MessageView, State};
use crate::ui::components::component::{Component, ComponentRender};
use crate::ui::keys::{KeyEvent, KeyOutcome, KeyOutcomeView};
use crate::ui::layout::Rect;
use crate::ui::panes::Pane;
use crate::ui::style::Color;

verus! {

struct Props {
    messages: Vec<Message>,
}

impl Props {
    fn from(state: &State) -> (props: Props)
        ensures
            props.messages.deep_view() == state@.chat.messages,
    {
        let props = Props { messages: state.chat.messages.clone() };
        assert(props.messages.deep_view() =~= state@.chat.messages);
        props
    }
}

/// The messages of the latest snapshot, oldest first.
pub struct MessagesPane {
    props: Props,
}

impl View for MessagesPane {
    type V = Seq<MessageView>;

    closed spec fn view(&self) -> Seq<MessageView> {
        self.props.messages.deep_view()
    }
}

impl Pane for MessagesPane {

}

impl MessagesPane {
    /// The messages that the pane shows.
    pub fn messages(&self) -> (messages: &Vec<Message>)
        ensures
            messages.deep_view() == self@,
    {
        &self.props.messages
    }
}

impl Component for MessagesPane {
    /// The pane showing the messages of `state`.
    fn new(state: &State) -> (pane: MessagesPane)
        ensures
            pane@ == state@.chat.messages,
    {
        MessagesPane { props: Props::from(state) }
    }

    fn name(&self) -> (name: &str)
        ensures
            name@ == "Messages"@,
    {
        "Messages"
    }

    /// The pane showing the messages of `state`, and none of those it
    /// showed before.
    fn move_with_state(self, state: &State) -> (pane: MessagesPane)
        ensures
            pane@ == state@.chat.messages,
    {
        MessagesPane { props: Props::from(state) }
    }

    /// Does nothing: the pane reads no key.
    fn handle_key_event(&mut self, key: KeyEvent) -> (outcome: KeyOutcome)
        ensures
            final(self)@ == old(self)@,
            outcome@ == KeyOutcomeView::Idle,
    {
        KeyOutcome::Idle
    }
}

/// What the router decides of the looks of the messages pane.
#[derive(Debug, Clone, Copy, PartialEq, Eq, Structural)]
pub struct RenderProps {
    pub area: Rect,
    pub border_color: Color,
}

/// The time of day of a timestamp as `chrono` writes it with the format
/// `%H:%M:%S`, or `None` where `chrono` has no date for the timestamp.
pub uninterp spec fn clock_text(secs: int, nanos: int) -> Option<Seq<char>>;

/// Writes the time of day of a timestamp, hours, minutes and seconds, with
/// `chrono::DateTime::from_timestamp` and `DateTime::format`. The result
/// depends on the two numbers alone: the time is taken as it stands, with
/// no time zone and no locale applied.
#[verifier::external_body]
fn format_clock(secs: i64, nanos: u32) -> (text: Option<String>)
    ensures
        text.deep_view() == clock_text(secs as int, nanos as int),
{
    match chrono::DateTime::from_timestamp(secs, nanos) {
        Some(time) => Some(time.format("%H:%M:%S").to_string()),
        None => None,
    }
}

/// A [`MessageLine`] as plain values.
pub ghost struct MessageLineView {
    pub time: Seq<char>,
    pub sender: Seq<char>,
    pub sender_color: Color,
    pub content: Seq<char>,
}

/// The line that is drawn for one message: when it was written, by whom,
/// and what it says.
#[derive(Debug)]
pub struct MessageLine {
    /// The time of day, or dashes in its place where it cannot be told.
    pub time: String,
    pub sender: String,
    pub sender_color: Color,
    pub content: String,
}

impl View for MessageLine {
    type V = MessageLineView;

    open spec fn view(&self) -> MessageLineView {
        MessageLineView {
            time: self.time@,
            sender: self.sender@,
            sender_color: self.sender_color,
            content: self.content@,
        }
    }
}

impl DeepView for MessageLine {
    type V = MessageLineView;

    open spec fn deep_view(&self) -> MessageLineView {
        self@
    }
}

/// The line for `message`, given the text of its time of day: the user's
/// own messages are marked `Me:` in light blue, the others with the name
/// of the contact in light green.
pub open spec fn line_with_time(message: MessageView, time: Option<Seq<char>>) -> MessageLineView {
    MessageLineView {
        time: match time {
            Some(time) => time,
            None => "--:--:--"@,
        },
        sender: match message.direction {
            MessageDirection::To => "Me:"@,
            MessageDirection::From => message.contact.name + ":"@,
        },
        sender_color: match message.direction {
            MessageDirection::To => Color::LightBlue,
            MessageDirection::From => Color::LightGreen,
        },
        content: message.content,
    }
}

/// The line for `message`.
pub open spec fn line_of(message: MessageView) -> MessageLineView {
    line_with_time(
        message,
        clock_text(message.timestamp.secs as int, message.timestamp.nanos as int),
    )
}

impl MessageLine {
    /// The line that is drawn for `message`.
    pub fn from(message: &Message) -> (line: MessageLine)
        ensures
            line@ == line_of(message@),
    {
        MessageLine::with_time(
            message,
            format_clock(message.timestamp.secs, message.timestamp.nanos),
        )
    }

    /// The line that is drawn for `message`, given the text of its time of
    /// day.
    pub fn with_time(message: &Message, time: Option<String>) -> (line: MessageLine)
        ensures
            line@ == line_with_time(message@, time.deep_view()),
    {
        let time = match time {
            Some(time) => time,
            None => String::from_str("--:--:--"),
        };
        let sender = match message.direction {
            MessageDirection::To => String::from_str("Me:"),
            MessageDirection::From => message.contact.name.clone().concat(":"),
        };
        let color = match message.direction {
            MessageDirection::To => Color::LightBlue,
            MessageDirection::From => Color::LightGreen,
        };
        MessageLine {
            time,
            sender,
            sender_color: color,
            content: message.content.clone(),
        }
    }
}

/// A [`MessagesDrawing`] as plain values.
pub ghost struct MessagesDrawingView {
    pub title: Seq<char>,
    pub area: Rect,
    pub border_color: Color,
    pub lines: Seq<MessageLineView>,
}

/// What is to be drawn for the messages pane: a bordered list of lines.
#[derive(Debug)]
pub struct MessagesDrawing {
    pub title: String,
    pub area: Rect,
    pub border_color: Color,
    pub lines: Vec<MessageLine>,
}

impl View for MessagesDrawing {
    type V = MessagesDrawingView;

    open spec fn view(&self) -> MessagesDrawingView {
        MessagesDrawingView {
            title: self.title@,
            area: self.area,
            border_color: self.border_color,
            lines: self.lines.deep_view(),
        }
    }
}

/// What is to be drawn for a pane that shows `messages`: one line for each
/// of them, in their order.
pub open spec fn messages_drawn(
    messages: Seq<MessageView>,
    area: Rect,
    border_color: Color,
) -> MessagesDrawingView {
    MessagesDrawingView {
        title: "Messages"@,
        area,
        border_color,
        lines: messages.map_values(|message: MessageView| line_of(message)),
    }
}

impl ComponentRender<RenderProps, MessagesDrawing> for MessagesPane {
    fn render(&self, props: RenderProps) -> (drawing: MessagesDrawing)
        ensures
            drawing@ == messages_drawn(self@, props.area, props.border_color),
    {
        let mut lines: Vec<MessageLine> = Vec::new();
        let mut i: usize = 0;
        while i < self.props.messages.len()
            invariant
                i <= self.props.messages.len(),
                lines.len() == i,
                forall|k: int| 0 <= k < i ==> (#[trigger] lines[k])@ == line_of(self@[k]),
            decreases self.props.messages.len() - i,
        {
            lines.push(MessageLine::from(&self.props.messages[i]));
            i += 1;
        }
        let drawing = MessagesDrawing {
            title: String::from_str(self.name()),
            area: props.area,
            border_color: props.border_color,
            lines,
        };
        assert(drawing@.lines =~= messages_drawn(self@, props.area, props.border_color).lines);
        drawing
    }
}

} // verus!
