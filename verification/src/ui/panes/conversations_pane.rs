//! The pane that lists the contacts and lets the user pick one.

use vstd::prelude::*;
use vstd::string::*;

use crate::state::action::{Action, ActionView};
use crate::state::state::{Contact, ContactView, State};
use crate::ui::components::component::{Component, ComponentRender};
use crate::ui::keys::{KeyCode, KeyEvent, KeyEventKind, KeyOutcome, KeyOutcomeView};
use crate::ui::layout::Rect;
use crate::ui::panes::Pane;
use crate::ui::style::Color;

verus! {

/// A [`ConversationsPane`] as plain values.
pub ghost struct ConversationsView {
    /// The contacts of the latest snapshot, in its order.
    pub contacts: Seq<ContactView>,
    /// The place of the selected contact in that list, if one is selected.
    pub selected: Option<nat>,
    /// Whether the pane has the focus.
    pub is_focused: bool,
}

/// The selection `selected`, brought back into a list of `len` contacts: a
/// selection past the end becomes the last contact, and an empty list has
/// no selection.
pub open spec fn clamped(selected: Option<nat>, len: nat) -> Option<nat> {
    match selected {
        Some(i) if len == 0 => None,
        Some(i) if i >= len => Some((len - 1) as nat),
        _ => selected,
    }
}

impl ConversationsView {
    /// Whether the selection, if there is one, is a place of the list.
    pub open spec fn wf(self) -> bool {
        self.selected matches Some(i) ==> i < self.contacts.len()
    }

    /// The pane showing `contacts`, with nothing selected and no focus.
    pub open spec fn showing(contacts: Seq<ContactView>) -> ConversationsView {
        ConversationsView { contacts, selected: None, is_focused: false }
    }

    /// The pane after it got the focus: the first contact is selected.
    pub open spec fn focused(self) -> ConversationsView {
        ConversationsView { selected: clamped(Some(0), self.contacts.len()), is_focused: true, ..self }
    }

    /// The pane after it lost the focus.
    pub open spec fn unfocused(self) -> ConversationsView {
        ConversationsView { is_focused: false, ..self }
    }

    /// The pane showing `contacts` in place of its own, with the selection
    /// brought back into the new list.
    pub open spec fn moved_to(self, contacts: Seq<ContactView>) -> ConversationsView {
        ConversationsView { contacts, selected: clamped(self.selected, contacts.len()), ..self }
    }

    /// The selection one down: the next contact, or the same at the end of
    /// the list; the first contact where none was selected.
    pub open spec fn selected_below(self) -> Option<nat> {
        match self.selected {
            Some(i) => if i + 1 < self.contacts.len() {
                Some(i + 1)
            } else {
                Some(i)
            },
            None => clamped(Some(0), self.contacts.len()),
        }
    }

    /// The selection one up: the contact before, or the same at the start
    /// of the list; the last contact where none was selected.
    pub open spec fn selected_above(self) -> Option<nat> {
        match self.selected {
            Some(i) => if i > 0 {
                Some((i - 1) as nat)
            } else {
                Some(i)
            },
            None => if self.contacts.len() > 0 {
                Some((self.contacts.len() - 1) as nat)
            } else {
                None
            },
        }
    }

    /// The pane after the key event `key`.
    pub open spec fn after_key(self, key: KeyEvent) -> ConversationsView {
        if key.kind != KeyEventKind::Press {
            self
        } else {
            match key.code {
                KeyCode::Char('j') => ConversationsView { selected: self.selected_below(), ..self },
                KeyCode::Char('k') => ConversationsView { selected: self.selected_above(), ..self },
                _ => self,
            }
        }
    }

    /// What the pane answers to the key event `key`: on a press of Enter
    /// with a contact selected it asks for the conversation with that
    /// contact, on anything else for nothing.
    pub open spec fn answer_to(self, key: KeyEvent) -> KeyOutcomeView {
        if key.kind == KeyEventKind::Press && key.code == KeyCode::Enter && self.selected is Some {
            KeyOutcomeView::Emit(
                ActionView::FocusConversation(self.contacts[self.selected->Some_0 as int]),
            )
        } else {
            KeyOutcomeView::Idle
        }
    }

    /// The pane after all of `keys` in their order.
    pub open spec fn after_keys(self, keys: Seq<KeyEvent>) -> ConversationsView
        decreases keys.len(),
    {
        if keys.len() == 0 {
            self
        } else {
            self.after_keys(keys.drop_last()).after_key(keys.last())
        }
    }
}

struct Props {
    conversations: Vec<Contact>,
}

impl Props {
    fn from(state: &State) -> (props: Props)
        ensures
            props.conversations.deep_view() == state@.conversations,
    {
        let props = Props { conversations: state.conversations.contacts.clone() };
        assert(props.conversations.deep_view() =~= state@.conversations);
        props
    }
}

/// The list of contacts with at most one of them selected. The selection
/// never leaves the list.
pub struct ConversationsPane {
    props: Props,
    selected: Option<usize>,
    is_focused: bool,
}

impl View for ConversationsPane {
    type V = ConversationsView;

    closed spec fn view(&self) -> ConversationsView {
        ConversationsView {
            contacts: self.props.conversations.deep_view(),
            selected: match self.selected {
                Some(i) => Some(i as nat),
                None => None,
            },
            is_focused: self.is_focused,
        }
    }
}

impl ConversationsPane {
    #[verifier::type_invariant]
    spec fn selection_in_list(&self) -> bool {
        self.selected matches Some(i) ==> i < self.props.conversations.len()
    }

    /// The contacts that the pane shows.
    pub fn contacts(&self) -> (contacts: &Vec<Contact>)
        ensures
            contacts.deep_view() == self@.contacts,
    {
        &self.props.conversations
    }

    /// The place of the selected contact in the list, if one is selected.
    pub fn selected(&self) -> (selected: Option<usize>)
        ensures
            self@.wf(),
            selected is Some == self@.selected is Some,
            selected matches Some(i) ==> self@.selected == Some(i as nat),
    {
        proof {
            use_type_invariant(self);
        }
        self.selected
    }

    /// Whether the pane has the focus.
    pub fn is_focused(&self) -> (focused: bool)
        ensures
            focused == self@.is_focused,
    {
        self.is_focused
    }
}

impl Pane for ConversationsPane {
    /// Takes the focus and selects the first contact.
    fn focus(&mut self)
        ensures
            final(self)@ == old(self)@.focused(),
            final(self)@.wf(),
    {
        proof {
            use_type_invariant(&*self);
        }
        self.is_focused = true;
        self.selected = if self.props.conversations.len() > 0 {
            Some(0)
        } else {
            None
        };
    }

    /// Gives up the focus and keeps the selection.
    fn unfocus(&mut self)
        ensures
            final(self)@ == old(self)@.unfocused(),
            final(self)@.wf(),
    {
        proof {
            use_type_invariant(&*self);
        }
        self.is_focused = false;
    }
}

impl Component for ConversationsPane {
    /// The pane showing the contacts of `state`, with nothing selected.
    fn new(state: &State) -> (pane: ConversationsPane)
        ensures
            pane@ == ConversationsView::showing(state@.conversations),
    {
        ConversationsPane { props: Props::from(state), selected: None, is_focused: false }
    }

    fn name(&self) -> (name: &str)
        ensures
            name@ == "Conversations"@,
    {
        "Conversations"
    }

    /// The pane showing the contacts of `state`. A selection stays at its
    /// place in the list, or at the last contact where the list got shorter.
    fn move_with_state(self, state: &State) -> (pane: ConversationsPane)
        ensures
            pane@ == self@.moved_to(state@.conversations),
            pane@.wf(),
    {
        proof {
            use_type_invariant(&self);
        }
        let props = Props::from(state);
        let len = props.conversations.len();
        let selected = match self.selected {
            Some(i) => if len == 0 {
                None
            } else if i >= len {
                Some(len - 1)
            } else {
                Some(i)
            },
            None => None,
        };
        ConversationsPane { props, selected, is_focused: self.is_focused }
    }

    /// Moves the selection down on a press of `j` and up on a press of `k`,
    /// stopping at the ends of the list; on a press of Enter asks for the
    /// conversation with the selected contact.
    fn handle_key_event(&mut self, key: KeyEvent) -> (outcome: KeyOutcome)
        ensures
            final(self)@ == old(self)@.after_key(key),
            outcome@ == old(self)@.answer_to(key),
            old(self)@.wf(),
            final(self)@.wf(),
    {
        proof {
            use_type_invariant(&*self);
        }
        if key.kind != KeyEventKind::Press {
            return KeyOutcome::Idle;
        }
        let len = self.props.conversations.len();
        match key.code {
            KeyCode::Char('j') => {
                self.selected = match self.selected {
                    Some(i) => if i + 1 < len {
                        Some(i + 1)
                    } else {
                        Some(i)
                    },
                    None => if len > 0 {
                        Some(0)
                    } else {
                        None
                    },
                };
                KeyOutcome::Idle
            },
            KeyCode::Char('k') => {
                self.selected = match self.selected {
                    Some(i) => Some(i.saturating_sub(1)),
                    None => if len > 0 {
                        Some(len - 1)
                    } else {
                        None
                    },
                };
                KeyOutcome::Idle
            },
            KeyCode::Enter => match self.selected {
                Some(i) => {
                    let selected_conversation = self.props.conversations[i].clone();
                    KeyOutcome::Emit(Action::FocusConversation(selected_conversation))
                },
                None => KeyOutcome::Idle,
            },
            _ => KeyOutcome::Idle,
        }
    }
}

/// What the router decides of the looks of the conversations pane.
#[derive(Debug, Clone, Copy, PartialEq, Eq, Structural)]
pub struct RenderProps {
    pub area: Rect,
    pub border_color: Color,
}

/// A [`ConversationsDrawing`] as plain values.
pub ghost struct ConversationsDrawingView {
    pub title: Seq<char>,
    pub area: Rect,
    pub border_color: Color,
    pub names: Seq<Seq<char>>,
    pub highlight_symbol: Seq<char>,
    pub highlighted: Option<nat>,
}

/// What is to be drawn for the conversations pane: a bordered list of
/// names, one of which may be marked.
#[derive(Debug)]
pub struct ConversationsDrawing {
    pub title: String,
    pub area: Rect,
    pub border_color: Color,
    pub names: Vec<String>,
    /// What stands before the marked name.
    pub highlight_symbol: String,
    /// The place of the name to mark, if one is to be marked.
    pub highlighted: Option<usize>,
}

impl View for ConversationsDrawing {
    type V = ConversationsDrawingView;

    open spec fn view(&self) -> ConversationsDrawingView {
        ConversationsDrawingView {
            title: self.title@,
            area: self.area,
            border_color: self.border_color,
            names: self.names.deep_view(),
            highlight_symbol: self.highlight_symbol@,
            highlighted: match self.highlighted {
                Some(i) => Some(i as nat),
                None => None,
            },
        }
    }
}

impl ConversationsView {
    /// What is to be drawn for the pane: the names of its contacts in
    /// their order, and the selection marked while the pane has the focus.
    pub open spec fn drawn(self, area: Rect, border_color: Color) -> ConversationsDrawingView {
        ConversationsDrawingView {
            title: "Conversations"@,
            area,
            border_color,
            names: self.contacts.map_values(|contact: ContactView| contact.name),
            highlight_symbol: ">"@,
            highlighted: if self.is_focused {
                self.selected
            } else {
                None
            },
        }
    }
}

impl ComponentRender<RenderProps, ConversationsDrawing> for ConversationsPane {
    fn render(&self, props: RenderProps) -> (drawing: ConversationsDrawing)
        ensures
            drawing@ == self@.drawn(props.area, props.border_color),
    {
        let mut names: Vec<String> = Vec::new();
        let mut i: usize = 0;
        while i < self.props.conversations.len()
            invariant
                i <= self.props.conversations.len(),
                names.len() == i,
                forall|k: int| 0 <= k < i ==> (#[trigger] names[k])@ == self@.contacts[k].name,
            decreases self.props.conversations.len() - i,
        {
            names.push(self.props.conversations[i].name.clone());
            i += 1;
        }
        let drawing = ConversationsDrawing {
            title: String::from_str(self.name()),
            area: props.area,
            border_color: props.border_color,
            names,
            highlight_symbol: String::from_str(">"),
            highlighted: if self.is_focused {
                self.selected
            } else {
                None
            },
        };
        assert(drawing@.names =~= self@.drawn(props.area, props.border_color).names);
        drawing
    }
}

/// A key event keeps the selection within the list.
pub proof fn lemma_key_keeps_selection_in_list(pane: ConversationsView, key: KeyEvent)
    requires
        pane.wf(),
    ensures
        pane.after_key(key).wf(),
        pane.after_key(key).contacts == pane.contacts,
{
}

/// However many key events come, and whichever, the selection stays within
/// the list: it is never past the last contact.
pub proof fn lemma_keys_keep_selection_in_list(pane: ConversationsView, keys: Seq<KeyEvent>)
    requires
        pane.wf(),
    ensures
        pane.after_keys(keys).wf(),
        pane.after_keys(keys).contacts == pane.contacts,
        pane.after_keys(keys).selected matches Some(i) ==> 0 <= i <= pane.contacts.len() - 1,
    decreases keys.len(),
{
    if keys.len() > 0 {
        lemma_keys_keep_selection_in_list(pane, keys.drop_last());
        lemma_key_keeps_selection_in_list(pane.after_keys(keys.drop_last()), keys.last());
    }
}

/// Taking or losing the focus, and following a new snapshot, keep the
/// selection within the list.
pub proof fn lemma_focus_and_snapshot_keep_selection_in_list(
    pane: ConversationsView,
    contacts: Seq<ContactView>,
)
    ensures
        pane.focused().wf(),
        pane.wf() ==> pane.unfocused().wf(),
        pane.moved_to(contacts).wf(),
        ConversationsView::showing(contacts).wf(),
{
}

} // verus!
