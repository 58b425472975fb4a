//! The router: which pane has the focus, and where a key goes.
//!
//! The focus moves between the input, the messages and the contacts, and
//! the developer console can be laid over any of them. Keys that move the
//! focus are read first; every other key goes to the pane in focus.

use vstd::prelude::*;

use crate::state::action::{Action, ActionView};
use crate::state::state::{MessageView, State, StateView};
use crate::ui::components::component::{Component, ComponentRender};
use crate::ui::components::input_box::{InputBoxDrawing, InputBoxDrawingView, InputBoxView};
use crate::ui::keys::{KeyCode, KeyEvent, KeyEventKind, KeyOutcome, KeyOutcomeView};
use crate::ui::panes::conversations_pane::{
    self, ConversationsDrawing, ConversationsDrawingView, ConversationsPane, ConversationsView,
};
use crate::ui::panes::dev_console::{self, console_answer, DevConsole};
use crate::ui::panes::input_pane::{self, InputPane};
use crate::ui::panes::messages_pane::{
    self, messages_drawn, MessagesDrawing, MessagesDrawingView, MessagesPane,
};
use crate::ui::layout::ScreenAreas;
use crate::ui::panes::Pane;
use crate::ui::style::Color;

verus! {

/// The pane that has the focus.
#[derive(Clone, Copy, Debug, PartialEq, Eq, Structural)]
pub enum ActivePane {
    Input,
    Messages,
    Contacts,
    /// The developer console, laid over the others.
    Popup,
}

/// An [`AppRouter`] as plain values.
pub ghost struct RouterView {
    pub active_pane: ActivePane,
    /// The pane that had the focus when the console was opened last.
    pub pre_popup_active_pane: ActivePane,
    pub input_pane: InputBoxView,
    pub messages_pane: Seq<MessageView>,
    pub conversations_pane: ConversationsView,
    pub dev_console: InputBoxView,
}

impl RouterView {
    /// Whether each pane is as it should be, and the pane to go back to
    /// from the console is not the console.
    pub open spec fn wf(self) -> bool {
        &&& self.pre_popup_active_pane != ActivePane::Popup
        &&& self.input_pane.wf()
        &&& self.conversations_pane.wf()
        &&& self.dev_console.wf()
    }

    /// The router as it starts on the snapshot `state`: the focus is on the
    /// input.
    pub open spec fn starting(state: StateView) -> RouterView {
        RouterView {
            active_pane: ActivePane::Input,
            pre_popup_active_pane: ActivePane::Input,
            input_pane: InputBoxView::empty(),
            messages_pane: state.chat.messages,
            conversations_pane: ConversationsView::showing(state.conversations),
            dev_console: InputBoxView::empty(),
        }
    }

    /// The router showing the snapshot `state`, with the focus where it was.
    pub open spec fn moved_to(self, state: StateView) -> RouterView {
        RouterView {
            messages_pane: state.chat.messages,
            conversations_pane: self.conversations_pane.moved_to(state.conversations),
            ..self
        }
    }

    /// The router after the focus moved to `pane`: the pane that had the
    /// focus is told that it lost it, and `pane` that it got it. Nothing
    /// happens where `pane` has the focus already.
    pub open spec fn focused_on(self, pane: ActivePane) -> RouterView {
        if self.active_pane == pane {
            self
        } else {
            RouterView {
                active_pane: pane,
                conversations_pane: if self.active_pane == ActivePane::Contacts {
                    self.conversations_pane.unfocused()
                } else if pane == ActivePane::Contacts {
                    self.conversations_pane.focused()
                } else {
                    self.conversations_pane
                },
                ..self
            }
        }
    }

    /// The router after the pane in focus has handled `key`.
    pub open spec fn forwarded(self, key: KeyEvent) -> RouterView {
        match self.active_pane {
            ActivePane::Input => RouterView { input_pane: self.input_pane.after_key(key), ..self },
            ActivePane::Messages => self,
            ActivePane::Contacts => RouterView {
                conversations_pane: self.conversations_pane.after_key(key),
                ..self
            },
            ActivePane::Popup => RouterView { dev_console: self.dev_console.after_key(key), ..self },
        }
    }

    /// What the pane in focus answers to `key`.
    pub open spec fn forwarded_answer(self, key: KeyEvent) -> KeyOutcomeView {
        match self.active_pane {
            ActivePane::Input => self.input_pane.answer_to(key),
            ActivePane::Messages => KeyOutcomeView::Idle,
            ActivePane::Contacts => self.conversations_pane.answer_to(key),
            ActivePane::Popup => console_answer(self.dev_console.text, key),
        }
    }

    /// Whether the router reads `key` itself and hands it to no pane.
    pub open spec fn is_bound(self, key: KeyEvent) -> bool {
        ||| key.is_control('q')
        ||| key.is_control('j')
        ||| key.is_control('k')
        ||| key.is_control('h')
        ||| key.is_control('l')
        ||| key.is_control('d') && self.active_pane != ActivePane::Popup
        ||| key.kind == KeyEventKind::Press && key.code == KeyCode::Esc && self.active_pane
            == ActivePane::Popup
    }

    /// The router after the key event `key`.
    pub open spec fn after_key(self, key: KeyEvent) -> RouterView {
        if key.kind != KeyEventKind::Press {
            self
        } else if key.is_control('q') {
            self
        } else if key.is_control('j') {
            if self.active_pane == ActivePane::Messages {
                self.focused_on(ActivePane::Input)
            } else {
                self
            }
        } else if key.is_control('k') {
            if self.active_pane == ActivePane::Input {
                self.focused_on(ActivePane::Messages)
            } else {
                self
            }
        } else if key.is_control('h') {
            if self.active_pane == ActivePane::Contacts {
                self.focused_on(ActivePane::Messages)
            } else {
                self
            }
        } else if key.is_control('l') {
            self.focused_on(ActivePane::Contacts)
        } else if key.is_control('d') && self.active_pane != ActivePane::Popup {
            (RouterView { pre_popup_active_pane: self.active_pane, ..self }).focused_on(
                ActivePane::Popup,
            )
        } else if key.code == KeyCode::Esc && self.active_pane == ActivePane::Popup {
            self.focused_on(self.pre_popup_active_pane)
        } else {
            self.forwarded(key)
        }
    }

    /// What is to be done about the key event `key`.
    pub open spec fn answer_to(self, key: KeyEvent) -> KeyOutcomeView {
        if key.kind != KeyEventKind::Press {
            KeyOutcomeView::Idle
        } else if key.is_control('q') {
            KeyOutcomeView::Emit(ActionView::Exit)
        } else if self.is_bound(key) {
            KeyOutcomeView::Idle
        } else {
            self.forwarded_answer(key)
        }
    }

    /// The router after all of `keys` in their order.
    pub open spec fn after_keys(self, keys: Seq<KeyEvent>) -> RouterView
        decreases keys.len(),
    {
        if keys.len() == 0 {
            self
        } else {
            self.after_keys(keys.drop_last()).after_key(keys.last())
        }
    }
}

/// Whether `key` takes the focus away from the developer console: a press
/// of Esc, which closes it, or of `l` with the control key, which goes to
/// the contacts from anywhere.
pub open spec fn leaves_popup(key: KeyEvent) -> bool {
    key.kind == KeyEventKind::Press && (key.code == KeyCode::Esc || key.is_control('l'))
}

/// Where the focus is, and where it goes when the developer console
/// closes. That is never the console itself.
struct Focus {
    active_pane: ActivePane,
    pre_popup_active_pane: ActivePane,
}

impl Focus {
    #[verifier::type_invariant]
    spec fn popup_closes_to_a_pane(&self) -> bool {
        self.pre_popup_active_pane != ActivePane::Popup
    }

    fn new() -> (focus: Focus)
        ensures
            focus.active_pane == ActivePane::Input,
            focus.pre_popup_active_pane == ActivePane::Input,
    {
        Focus { active_pane: ActivePane::Input, pre_popup_active_pane: ActivePane::Input }
    }

    fn active_pane(&self) -> (pane: ActivePane)
        ensures
            pane == self.active_pane,
    {
        self.active_pane
    }

    fn pre_popup_active_pane(&self) -> (pane: ActivePane)
        ensures
            pane == self.pre_popup_active_pane,
            pane != ActivePane::Popup,
    {
        proof {
            use_type_invariant(self);
        }
        self.pre_popup_active_pane
    }

    fn set_active_pane(&mut self, pane: ActivePane)
        ensures
            final(self).active_pane == pane,
            final(self).pre_popup_active_pane == old(self).pre_popup_active_pane,
    {
        proof {
            use_type_invariant(&*self);
        }
        self.active_pane = pane;
    }

    /// Records the pane in focus as the one to go back to.
    fn record_active_pane(&mut self)
        requires
            old(self).active_pane != ActivePane::Popup,
        ensures
            final(self).active_pane == old(self).active_pane,
            final(self).pre_popup_active_pane == old(self).active_pane,
    {
        self.pre_popup_active_pane = self.active_pane;
    }
}

/// The panes of the screen and the focus among them.
pub struct AppRouter {
    focus: Focus,
    input_pane: InputPane,
    messages_pane: MessagesPane,
    conversations_pane: ConversationsPane,
    dev_console: DevConsole,
}

impl View for AppRouter {
    type V = RouterView;

    closed spec fn view(&self) -> RouterView {
        RouterView {
            active_pane: self.focus.active_pane,
            pre_popup_active_pane: self.focus.pre_popup_active_pane,
            input_pane: self.input_pane@,
            messages_pane: self.messages_pane@,
            conversations_pane: self.conversations_pane@,
            dev_console: self.dev_console@,
        }
    }
}

impl AppRouter {
    /// The pane that has the focus.
    pub fn active_pane(&self) -> (pane: ActivePane)
        ensures
            pane == self@.active_pane,
    {
        self.focus.active_pane()
    }

    /// The pane that gets the focus when the developer console closes.
    pub fn pre_popup_active_pane(&self) -> (pane: ActivePane)
        ensures
            pane == self@.pre_popup_active_pane,
            pane != ActivePane::Popup,
    {
        self.focus.pre_popup_active_pane()
    }

    pub fn input_pane(&self) -> (pane: &InputPane)
        ensures
            pane@ == self@.input_pane,
    {
        &self.input_pane
    }

    pub fn messages_pane(&self) -> (pane: &MessagesPane)
        ensures
            pane@ == self@.messages_pane,
    {
        &self.messages_pane
    }

    pub fn conversations_pane(&self) -> (pane: &ConversationsPane)
        ensures
            pane@ == self@.conversations_pane,
    {
        &self.conversations_pane
    }

    pub fn dev_console(&self) -> (pane: &DevConsole)
        ensures
            pane@ == self@.dev_console,
    {
        &self.dev_console
    }

    /// Gathers what the focus and each pane keep true of themselves.
    pub(crate) fn gather_invariants(&self)
        ensures
            self@.wf(),
    {
        let _ = self.focus.pre_popup_active_pane();
        let _ = self.input_pane.cursor_position();
        let _ = self.dev_console.cursor_position();
        let _ = self.conversations_pane.selected();
    }

    /// Moves the focus to `pane`, telling the pane that loses it and the
    /// pane that gets it.
    fn focus(&mut self, pane: ActivePane)
        requires
            old(self)@.conversations_pane.wf(),
        ensures
            final(self)@ == old(self)@.focused_on(pane),
            final(self)@.conversations_pane.wf(),
    {
        if self.focus.active_pane() == pane {
            return ;
        }
        match self.focus.active_pane() {
            ActivePane::Input => self.input_pane.unfocus(),
            ActivePane::Messages => self.messages_pane.unfocus(),
            ActivePane::Contacts => self.conversations_pane.unfocus(),
            ActivePane::Popup => self.dev_console.unfocus(),
        }
        self.focus.set_active_pane(pane);
        match pane {
            ActivePane::Input => self.input_pane.focus(),
            ActivePane::Messages => self.messages_pane.focus(),
            ActivePane::Contacts => self.conversations_pane.focus(),
            ActivePane::Popup => self.dev_console.focus(),
        }
    }

    /// Hands `key` to the pane in focus.
    fn forward(&mut self, key: KeyEvent) -> (outcome: KeyOutcome)
        ensures
            final(self)@ == old(self)@.forwarded(key),
            outcome@ == old(self)@.forwarded_answer(key),
            final(self)@.wf(),
    {
        self.gather_invariants();
        match self.focus.active_pane() {
            ActivePane::Input => self.input_pane.handle_key_event(key),
            ActivePane::Messages => self.messages_pane.handle_key_event(key),
            ActivePane::Contacts => self.conversations_pane.handle_key_event(key),
            ActivePane::Popup => self.dev_console.handle_key_event(key),
        }
    }
}

impl Component for AppRouter {
    /// The router as it starts: every pane shows `state`, and the input has
    /// the focus.
    fn new(state: &State) -> (router: AppRouter)
        ensures
            router@ == RouterView::starting(state@),
            router@.wf(),
    {
        AppRouter {
            focus: Focus::new(),
            input_pane: InputPane::new(state),
            messages_pane: MessagesPane::new(state),
            conversations_pane: ConversationsPane::new(state),
            dev_console: DevConsole::new(state),
        }
    }

    /// The title of the pane in focus.
    fn name(&self) -> (name: &str)
        ensures
            name@ == match self@.active_pane {
                ActivePane::Input => "Message Input"@,
                ActivePane::Messages => "Messages"@,
                ActivePane::Contacts => "Conversations"@,
                ActivePane::Popup => "Message Input"@,
            },
    {
        match self.focus.active_pane() {
            ActivePane::Input => self.input_pane.name(),
            ActivePane::Messages => self.messages_pane.name(),
            ActivePane::Contacts => self.conversations_pane.name(),
            ActivePane::Popup => self.dev_console.name(),
        }
    }

    /// The router with every pane showing `state`, and the focus where it
    /// was.
    fn move_with_state(self, state: &State) -> (router: AppRouter)
        ensures
            router@ == self@.moved_to(state@),
            router@.wf(),
    {
        let router = AppRouter {
            focus: self.focus,
            input_pane: self.input_pane.move_with_state(state),
            messages_pane: self.messages_pane.move_with_state(state),
            conversations_pane: self.conversations_pane.move_with_state(state),
            dev_console: self.dev_console.move_with_state(state),
        };
        router.gather_invariants();
        router
    }

    /// Handles one key event. Only presses count. With the control key,
    /// `q` asks the program to exit, `j`, `k`, `h` and `l` move the focus
    /// between the input, the messages and the contacts, and `d` opens the
    /// developer console; Esc closes the console and gives the focus back
    /// to the pane that had it. Every other key goes to the pane in focus.
    fn handle_key_event(&mut self, key: KeyEvent) -> (outcome: KeyOutcome)
        ensures
            final(self)@ == old(self)@.after_key(key),
            outcome@ == old(self)@.answer_to(key),
            old(self)@.wf(),
            final(self)@.wf(),
    {
        self.gather_invariants();
        if key.kind != KeyEventKind::Press {
            return KeyOutcome::Idle;
        }
        // Handle top-level key-binds regardless of active pane, otherwise send
        // to the active pane
        let control = key.modifiers.control;
        let active_pane = self.focus.active_pane();
        match key.code {
            KeyCode::Char('q') if control => KeyOutcome::Emit(Action::Exit),
            KeyCode::Char('j') if control => {
                if active_pane == ActivePane::Messages {
                    self.focus(ActivePane::Input);
                }
                KeyOutcome::Idle
            },
            KeyCode::Char('k') if control => {
                if active_pane == ActivePane::Input {
                    self.focus(ActivePane::Messages);
                }
                KeyOutcome::Idle
            },
            KeyCode::Char('h') if control => {
                if active_pane == ActivePane::Contacts {
                    self.focus(ActivePane::Messages);
                }
                KeyOutcome::Idle
            },
            KeyCode::Char('l') if control => {
                if active_pane != ActivePane::Contacts {
                    self.focus(ActivePane::Contacts);
                }
                KeyOutcome::Idle
            },
            KeyCode::Char('d') if control && active_pane != ActivePane::Popup => {
                self.focus.record_active_pane();
                self.focus(ActivePane::Popup);
                KeyOutcome::Idle
            },
            KeyCode::Esc if active_pane == ActivePane::Popup => {
                let back = self.focus.pre_popup_active_pane();
                self.focus(back);
                KeyOutcome::Idle
            },
            _ => self.forward(key),
        }
    }
}

/// A [`ScreenDrawing`] as plain values.
pub ghost struct ScreenDrawingView {
    pub input: InputBoxDrawingView,
    pub messages: MessagesDrawingView,
    pub conversations: ConversationsDrawingView,
    pub popup: Option<InputBoxDrawingView>,
}

/// What is to be drawn for the whole screen: the three panes, and the
/// developer console over them while it has the focus.
#[derive(Debug)]
pub struct ScreenDrawing {
    pub input: InputBoxDrawing,
    pub messages: MessagesDrawing,
    pub conversations: ConversationsDrawing,
    pub popup: Option<InputBoxDrawing>,
}

impl View for ScreenDrawing {
    type V = ScreenDrawingView;

    open spec fn view(&self) -> ScreenDrawingView {
        ScreenDrawingView {
            input: self.input@,
            messages: self.messages@,
            conversations: self.conversations@,
            popup: match self.popup {
                Some(popup) => Some(popup@),
                None => None,
            },
        }
    }
}

/// The colour of the border of `pane` while `active_pane` has the focus:
/// the pane in focus stands out in light red.
pub open spec fn border_color(active_pane: ActivePane, pane: ActivePane) -> Color {
    if active_pane == pane {
        Color::LightRed
    } else {
        Color::White
    }
}

impl RouterView {
    /// What is to be drawn for the screen: every pane at its place, with
    /// the border that tells whether it has the focus, the cursor of the
    /// input while it has the focus, and the developer console, in light
    /// green and with its cursor, while it has the focus.
    pub open spec fn drawn(self, areas: ScreenAreas) -> ScreenDrawingView {
        ScreenDrawingView {
            input: self.input_pane.drawn(
                "Message Input"@,
                areas.input,
                border_color(self.active_pane, ActivePane::Input),
                self.active_pane == ActivePane::Input,
            ),
            messages: messages_drawn(
                self.messages_pane,
                areas.messages,
                border_color(self.active_pane, ActivePane::Messages),
            ),
            conversations: self.conversations_pane.drawn(
                areas.conversations,
                border_color(self.active_pane, ActivePane::Contacts),
            ),
            popup: if self.active_pane == ActivePane::Popup {
                Some(self.dev_console.drawn("Dev Console"@, areas.popup, Color::LightGreen, true))
            } else {
                None
            },
        }
    }
}

impl ComponentRender<ScreenAreas, ScreenDrawing> for AppRouter {
    /// The popup, where there is one, is to be drawn last, over a cleared
    /// area.
    fn render(&self, props: ScreenAreas) -> (drawing: ScreenDrawing)
        ensures
            drawing@ == self@.drawn(props),
    {
        let active_pane = self.focus.active_pane();
        let input = self.input_pane.render(
            input_pane::RenderProps {
                area: props.input,
                border_color: if active_pane == ActivePane::Input {
                    Color::LightRed
                } else {
                    Color::White
                },
                show_cursor: active_pane == ActivePane::Input,
            },
        );
        let messages = self.messages_pane.render(
            messages_pane::RenderProps {
                area: props.messages,
                border_color: if active_pane == ActivePane::Messages {
                    Color::LightRed
                } else {
                    Color::White
                },
            },
        );
        let conversations = self.conversations_pane.render(
            conversations_pane::RenderProps {
                area: props.conversations,
                border_color: if active_pane == ActivePane::Contacts {
                    Color::LightRed
                } else {
                    Color::White
                },
            },
        );
        let popup = if active_pane == ActivePane::Popup {
            Some(
                self.dev_console.render(
                    dev_console::RenderProps { area: props.popup, border_color: Color::LightGreen },
                ),
            )
        } else {
            None
        };
        ScreenDrawing { input, messages, conversations, popup }
    }
}

/// A key event leaves the router as it should be.
pub proof fn lemma_key_keeps_router_wf(router: RouterView, key: KeyEvent)
    requires
        router.wf(),
    ensures
        router.after_key(key).wf(),
{
}

/// Opening the developer console records the pane that had the focus.
pub proof fn lemma_popup_records_active_pane(router: RouterView)
    requires
        router.active_pane != ActivePane::Popup,
    ensures
        router.after_key(KeyEvent {
            code: KeyCode::Char('d'),
            modifiers: crate::ui::keys::KeyModifiers { control: true },
            kind: KeyEventKind::Press,
        }).active_pane == ActivePane::Popup,
        router.after_key(KeyEvent {
            code: KeyCode::Char('d'),
            modifiers: crate::ui::keys::KeyModifiers { control: true },
            kind: KeyEventKind::Press,
        }).pre_popup_active_pane == router.active_pane,
{
}

/// While the developer console has the focus, a key that is neither a
/// press of Esc nor of `l` with the control key leaves the focus on the
/// console and the recorded pane as it is; a press of Esc gives the focus
/// to the recorded pane.
pub proof fn lemma_popup_step(router: RouterView, key: KeyEvent)
    requires
        router.active_pane == ActivePane::Popup,
        router.pre_popup_active_pane != ActivePane::Popup,
    ensures
        !leaves_popup(key) ==> router.after_key(key).active_pane == ActivePane::Popup
            && router.after_key(key).pre_popup_active_pane == router.pre_popup_active_pane,
        key.kind == KeyEventKind::Press && key.code == KeyCode::Esc ==> router.after_key(
            key,
        ).active_pane == router.pre_popup_active_pane,
        router.after_key(key).active_pane != ActivePane::Popup ==> leaves_popup(key),
{
}

/// From the developer console the focus always goes back to the pane that
/// had it when the console was opened: open the console from a pane, type
/// any keys that do not take the focus away from it, press Esc, and that
/// pane has the focus again.
pub proof fn lemma_popup_returns_to_prior_pane(
    router: RouterView,
    keys: Seq<KeyEvent>,
    esc: KeyEvent,
)
    requires
        router.active_pane != ActivePane::Popup,
        forall|i: int| 0 <= i < keys.len() ==> !leaves_popup(#[trigger] keys[i]),
        esc.kind == KeyEventKind::Press && esc.code == KeyCode::Esc,
    ensures
        router.after_key(
            KeyEvent {
                code: KeyCode::Char('d'),
                modifiers: crate::ui::keys::KeyModifiers { control: true },
                kind: KeyEventKind::Press,
            },
        ).after_keys(keys).after_key(esc).active_pane == router.active_pane,
{
    let opened = router.after_key(
        KeyEvent {
            code: KeyCode::Char('d'),
            modifiers: crate::ui::keys::KeyModifiers { control: true },
            kind: KeyEventKind::Press,
        },
    );
    lemma_popup_stays_open(opened, keys);
    lemma_popup_step(opened.after_keys(keys), esc);
}

/// Keys that do not take the focus away from the developer console leave
/// it there, however many they are, and leave the recorded pane as it is.
pub proof fn lemma_popup_stays_open(router: RouterView, keys: Seq<KeyEvent>)
    requires
        router.active_pane == ActivePane::Popup,
        router.pre_popup_active_pane != ActivePane::Popup,
        forall|i: int| 0 <= i < keys.len() ==> !leaves_popup(#[trigger] keys[i]),
    ensures
        router.after_keys(keys).active_pane == ActivePane::Popup,
        router.after_keys(keys).pre_popup_active_pane == router.pre_popup_active_pane,
    decreases keys.len(),
{
    if keys.len() > 0 {
        lemma_popup_stays_open(router, keys.drop_last());
        lemma_popup_step(router.after_keys(keys.drop_last()), keys.last());
    }
}

/// However many key events come, and whichever, the cursor of each box
/// stays within its text and the selection within the list of contacts.
pub proof fn lemma_keys_keep_router_wf(router: RouterView, keys: Seq<KeyEvent>)
    requires
        router.wf(),
    ensures
        router.after_keys(keys).wf(),
    decreases keys.len(),
{
    if keys.len() > 0 {
        lemma_keys_keep_router_wf(router, keys.drop_last());
        lemma_key_keeps_router_wf(router.after_keys(keys.drop_last()), keys.last());
    }
}

} // verus!
