//! The state actor: the only writer of the state and the only caller of the
//! provider.
//!
//! The actor is a step function. The loop around it waits for the next
//! action or for the shutdown signal, hands it in, and publishes the
//! snapshot that comes back.

use vstd::prelude::*;

use crate::backends::mock::lemma_appended_message_is_listed_last;
use crate::backends::{MockBackend, MsgBackend, SendError};
use crate::state::action::{Action, ActionView};
use crate::state::clock::now_local;
use crate::state::state::{
    distinct_contacts, Chat, ChatView, ContactView, ConversationList, Message, MessageDirection,
    MessageView, State, StateView, Timestamp,
};
use crate::termination::{signaled, Interrupted, Terminator};

verus! {

/// How many messages of a conversation the actor asks the provider for.
pub const MESSAGE_CAP: u8 = 100;

/// Why the actor could not start.
#[derive(Debug, Clone, Copy, PartialEq, Eq, Structural)]
pub enum StartupError {
    /// The provider knows no contact, so there is no conversation to show.
    NoContacts,
}

/// What the loop around the actor has to do after a step.
#[derive(Debug)]
pub enum StoreStep {
    /// Publish the snapshot and go on. Where the provider refused a
    /// message, its error comes along to be reported.
    Publish { snapshot: State, send_error: Option<SendError> },
    /// Publish nothing more and end the loop with this reason.
    Stop(Interrupted),
}

/// The state that shows the conversation with `contact` as `backend` has it.
pub open spec fn refreshed<B: MsgBackend>(contact: ContactView, backend: &B) -> StateView {
    StateView {
        chat: ChatView { contact, messages: backend.messages_for(contact, Some(MESSAGE_CAP)) },
        conversations: backend.recent_contacts(),
    }
}

/// What holds of every state of the actor: no contact is listed twice, and
/// the conversation holds no more messages than the actor asks for, each of
/// them exchanged with the contact in focus.
pub open spec fn well_formed(state: StateView) -> bool {
    &&& distinct_contacts(state.conversations)
    &&& state.chat.messages.len() <= MESSAGE_CAP
    &&& forall|i: int|
        0 <= i < state.chat.messages.len() ==> (#[trigger] state.chat.messages[i]).contact.same_as(
            state.chat.contact,
        )
}

/// The contact in focus after `action`, where it was `contact` before.
pub open spec fn focus_after(contact: ContactView, action: ActionView) -> ContactView {
    match action {
        ActionView::FocusConversation(next) => next,
        _ => contact,
    }
}

/// The contact in focus after all of `actions` in their order.
pub open spec fn focus_after_all(contact: ContactView, actions: Seq<ActionView>) -> ContactView
    decreases actions.len(),
{
    if actions.len() == 0 {
        contact
    } else {
        focus_after(focus_after_all(contact, actions.drop_last()), actions.last())
    }
}

/// The message that `action` hands to the provider at the time `now`, while
/// the conversation with `contact` is in focus, if it hands over any.
pub open spec fn outgoing(contact: ContactView, action: ActionView, now: Timestamp) -> Option<
    MessageView,
> {
    match action {
        ActionView::SendMessage(content) => Some(
            MessageView { contact, content, timestamp: now, direction: MessageDirection::To },
        ),
        ActionView::Inject { contact: other, content, direction } => Some(
            MessageView { contact: other, content, timestamp: now, direction },
        ),
        _ => None,
    }
}

/// What one step of the actor does: how the state, the provider and the
/// shutdown signal after `action` at the time `now` relate to those before
/// it, and what the step returns.
pub open spec fn action_applied<B: MsgBackend>(
    before: StateView,
    backend_before: &B,
    signal_before: Option<Interrupted>,
    action: ActionView,
    now: Timestamp,
    after: StateView,
    backend_after: &B,
    signal_after: Option<Interrupted>,
    step: StoreStep,
) -> bool {
    if action is Exit {
        &&& step matches StoreStep::Stop(reason)
        &&& reason == Interrupted::UserInt
        &&& after == before
        &&& *backend_after == *backend_before
        &&& signal_after == signaled(signal_before, Interrupted::UserInt).0
    } else {
        &&& step matches StoreStep::Publish { snapshot, send_error }
        &&& match outgoing(before.chat.contact, action, now) {
            Some(message) => backend_before.delivers(message, backend_after, send_error is None),
            None => send_error is None && *backend_after == *backend_before,
        }
        &&& after == refreshed(focus_after(before.chat.contact, action), backend_after)
        &&& well_formed(after)
        &&& snapshot@ == after
        &&& signal_after == signal_before
    }
}

/// The owner of the canonical state.
#[derive(Debug)]
pub struct StateStore {
    state: State,
}

impl View for StateStore {
    type V = StateView;

    /// The state as it stands.
    closed spec fn view(&self) -> StateView {
        self.state@
    }
}

impl StateStore {
    #[verifier::type_invariant]
    spec fn state_is_well_formed(&self) -> bool {
        well_formed(self.state@)
    }

    /// Seeds the state from the provider: its contacts, and the
    /// conversation with the first of them. A provider without contacts is
    /// an error, and no state comes to be.
    pub fn new<B: MsgBackend>(backend: &B) -> (started: Result<StateStore, StartupError>)
        ensures
            backend.recent_contacts().len() == 0 ==> started == Err::<StateStore, StartupError>(
                StartupError::NoContacts,
            ),
            backend.recent_contacts().len() > 0 ==> started is Ok && started->Ok_0@ == refreshed(
                backend.recent_contacts()[0],
                backend,
            ),
            started matches Ok(store) ==> well_formed(store@) && store@.focus_is_listed(),
    {
        let contacts = backend.get_recent_contacts();
        if contacts.len() == 0 {
            return Err(StartupError::NoContacts);
        }
        let first = contacts[0].clone();
        assert(contacts.deep_view()[0].same_as(first@));
        let messages = backend.get_messages(&first, Some(MESSAGE_CAP));
        let mut chat = Chat::new(first);
        chat.messages = messages;
        Ok(StateStore { state: State::new(chat, ConversationList::new(contacts)) })
    }

    /// A copy of the state as it stands.
    pub fn snapshot(&self) -> (snapshot: State)
        ensures
            snapshot@ == self@,
            well_formed(self@),
    {
        proof {
            use_type_invariant(self);
        }
        self.state.clone()
    }

    /// Applies one action at the time `now`.
    ///
    /// `Exit` signals the shutdown as requested by the user and stops; that
    /// the signal was given before changes nothing of this. Every other
    /// action ends with the state refreshed from the provider and a
    /// snapshot to publish: a send hands the provider a message to the
    /// contact in focus, a change of focus replaces that contact, and a
    /// provider that refuses a message does not stop the actor.
    pub fn apply_action<B: MsgBackend>(
        &mut self,
        backend: &mut B,
        terminator: &mut Terminator,
        action: Action,
        now: Timestamp,
    ) -> (step: StoreStep)
        ensures
            action_applied(
                old(self)@,
                old(backend),
                old(terminator).reason(),
                action@,
                now,
                final(self)@,
                final(backend),
                final(terminator).reason(),
                step,
            ),
            well_formed(old(self)@),
            well_formed(final(self)@),
    {
        proof {
            use_type_invariant(&*self);
        }
        let mut send_error: Option<SendError> = None;
        let contact = match action {
            Action::Exit => {
                let _ = terminator.terminate(Interrupted::UserInt);
                return StoreStep::Stop(Interrupted::UserInt);
            },
            Action::SendMessage(content) => {
                let message = Message::new(
                    self.state.chat.contact.clone(),
                    content,
                    now,
                    MessageDirection::To,
                );
                if let Err(error) = backend.send_message(message) {
                    send_error = Some(error);
                }
                self.state.chat.contact.clone()
            },
            Action::FocusConversation(contact) => contact,
            Action::Inject { contact, content, direction } => {
                let message = Message::new(contact, content, now, direction);
                if let Err(error) = backend.send_message(message) {
                    send_error = Some(error);
                }
                self.state.chat.contact.clone()
            },
        };
        // Update state from backend
        let mut chat = Chat::new(contact);
        chat.messages = backend.get_messages(&chat.contact, Some(MESSAGE_CAP));
        let conversations = ConversationList::new(backend.get_recent_contacts());
        self.state = State::new(chat, conversations);
        StoreStep::Publish { snapshot: self.state.clone(), send_error }
    }

    /// Applies one action at the time that the wall clock shows.
    pub fn handle_action<B: MsgBackend>(
        &mut self,
        backend: &mut B,
        terminator: &mut Terminator,
        action: Action,
    ) -> (step: StoreStep)
        ensures
            exists|now: Timestamp|
                action_applied(
                    old(self)@,
                    old(backend),
                    old(terminator).reason(),
                    action@,
                    now,
                    final(self)@,
                    final(backend),
                    final(terminator).reason(),
                    step,
                ),
            well_formed(old(self)@),
            well_formed(final(self)@),
    {
        let now = now_local();
        self.apply_action(backend, terminator, action, now)
    }

    /// Takes the shutdown signal from elsewhere: the loop ends with its
    /// reason, and nothing more is published.
    pub fn handle_interrupt(&self, reason: Interrupted) -> (step: StoreStep)
        ensures
            step matches StoreStep::Stop(given) && given == reason,
    {
        StoreStep::Stop(reason)
    }
}

/// The state that the actor starts with has the first contact of the
/// provider in focus, which is one of the listed contacts.
pub proof fn lemma_first_focus_is_listed<B: MsgBackend>(backend: &B)
    requires
        backend.recent_contacts().len() > 0,
    ensures
        refreshed(backend.recent_contacts()[0], backend).chat.contact == backend.recent_contacts()[0],
        refreshed(backend.recent_contacts()[0], backend).focus_is_listed(),
{
    assert(backend.recent_contacts()[0].same_as(backend.recent_contacts()[0]));
}

/// After any run of actions that ends in a change of focus, the contact of
/// that last action is the one in focus.
pub proof fn lemma_last_focus_wins(contact: ContactView, actions: Seq<ActionView>)
    requires
        actions.len() > 0,
        actions.last() is FocusConversation,
    ensures
        focus_after_all(contact, actions) == actions.last()->FocusConversation_0,
{
}

/// A step that is not `Exit` leaves in focus what [`focus_after`] says, so
/// a change of focus to `contact` leaves `contact` in focus, whatever the
/// provider and the clock do.
pub proof fn lemma_step_follows_focus<B: MsgBackend>(
    before: StateView,
    backend_before: &B,
    signal_before: Option<Interrupted>,
    action: ActionView,
    now: Timestamp,
    after: StateView,
    backend_after: &B,
    signal_after: Option<Interrupted>,
    step: StoreStep,
)
    requires
        action_applied(
            before,
            backend_before,
            signal_before,
            action,
            now,
            after,
            backend_after,
            signal_after,
            step,
        ),
    ensures
        after.chat.contact == focus_after(before.chat.contact, action),
        action matches ActionView::FocusConversation(contact) ==> after.chat.contact == contact,
{
}

/// `Exit` always stops with the user's request as the reason, and the
/// signal holds a reason afterwards: the user's, or the one that stood.
pub proof fn lemma_exit_always_stops<B: MsgBackend>(
    before: StateView,
    backend_before: &B,
    signal_before: Option<Interrupted>,
    now: Timestamp,
    after: StateView,
    backend_after: &B,
    signal_after: Option<Interrupted>,
    step: StoreStep,
)
    requires
        action_applied(
            before,
            backend_before,
            signal_before,
            ActionView::Exit,
            now,
            after,
            backend_after,
            signal_after,
            step,
        ),
    ensures
        step matches StoreStep::Stop(reason) && reason == Interrupted::UserInt,
        signal_after is Some,
        signal_before is Some ==> signal_after == signal_before,
        signal_before is None ==> signal_after == Some(Interrupted::UserInt),
{
}

/// What a snapshot shows after a send is what the provider lists: once the
/// provider lists the message for the contact in focus, the snapshot holds
/// it.
pub proof fn lemma_snapshot_shows_what_provider_lists<B: MsgBackend>(
    before: StateView,
    backend_before: &B,
    signal_before: Option<Interrupted>,
    content: Seq<char>,
    now: Timestamp,
    after: StateView,
    backend_after: &B,
    signal_after: Option<Interrupted>,
    step: StoreStep,
)
    requires
        action_applied(
            before,
            backend_before,
            signal_before,
            ActionView::SendMessage(content),
            now,
            after,
            backend_after,
            signal_after,
            step,
        ),
    ensures
        step matches StoreStep::Publish { snapshot, .. } && snapshot@.chat.contact
            == before.chat.contact && snapshot@.chat.messages == backend_after.messages_for(
            before.chat.contact,
            Some(MESSAGE_CAP),
        ),
        backend_after.messages_for(before.chat.contact, Some(MESSAGE_CAP)).contains(
            MessageView {
                contact: before.chat.contact,
                content,
                timestamp: now,
                direction: MessageDirection::To,
            },
        ) ==> (step->Publish_snapshot)@.chat.messages.contains(
            MessageView {
                contact: before.chat.contact,
                content,
                timestamp: now,
                direction: MessageDirection::To,
            },
        ),
{
}

/// With the provider that keeps its messages in memory, the snapshot after
/// a send still shows the conversation that was in focus, and its last
/// message is the one that was sent: to that contact, with that text, from
/// the local user, at the time of the step.
pub proof fn lemma_mock_snapshot_ends_with_sent_message(
    before: StateView,
    backend_before: &MockBackend,
    signal_before: Option<Interrupted>,
    content: Seq<char>,
    now: Timestamp,
    after: StateView,
    backend_after: &MockBackend,
    signal_after: Option<Interrupted>,
    step: StoreStep,
)
    requires
        action_applied(
            before,
            backend_before,
            signal_before,
            ActionView::SendMessage(content),
            now,
            after,
            backend_after,
            signal_after,
            step,
        ),
    ensures
        step matches StoreStep::Publish { snapshot, send_error } && send_error is None
            && snapshot@ == after,
        after.chat.contact == before.chat.contact,
        after.chat.messages.len() > 0,
        after.chat.messages.last() == (MessageView {
            contact: before.chat.contact,
            content,
            timestamp: now,
            direction: MessageDirection::To,
        }),
{
    lemma_appended_message_is_listed_last(
        backend_before@,
        MessageView {
            contact: before.chat.contact,
            content,
            timestamp: now,
            direction: MessageDirection::To,
        },
        Some(MESSAGE_CAP),
    );
}

} // verus!
