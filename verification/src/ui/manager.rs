//! The loop of the user interface, one event at a time.
//!
//! The loop around the manager waits for the next tick of the clock, event
//! of the terminal, snapshot or shutdown signal, hands it in, and draws the
//! screen again unless it is told to stop.

use vstd::prelude::*;

use crate::state::state::{State, StateView};
use crate::termination::Interrupted;
use crate::ui::components::component::Component;
use crate::ui::keys::{KeyEvent, KeyOutcome, KeyOutcomeView};
use crate::ui::router::{AppRouter, RouterView};

verus! {

/// What the loop of the user interface waits for.
#[derive(Debug)]
pub enum UiEvent {
    /// The time to draw the screen again has come.
    Tick,
    /// A key event came from the terminal.
    Key(KeyEvent),
    /// Something else came from the terminal.
    OtherInput,
    /// The terminal has no more input to give.
    InputEnded,
    /// The state actor published a snapshot.
    Snapshot(State),
    /// The shutdown was signaled.
    Interrupt(Interrupted),
}

/// A [`UiEvent`] as plain values.
pub ghost enum UiEventView {
    Tick,
    Key(KeyEvent),
    OtherInput,
    InputEnded,
    Snapshot(StateView),
    Interrupt(Interrupted),
}

impl View for UiEvent {
    type V = UiEventView;

    open spec fn view(&self) -> UiEventView {
        match *self {
            UiEvent::Tick => UiEventView::Tick,
            UiEvent::Key(key) => UiEventView::Key(key),
            UiEvent::OtherInput => UiEventView::OtherInput,
            UiEvent::InputEnded => UiEventView::InputEnded,
            UiEvent::Snapshot(state) => UiEventView::Snapshot(state@),
            UiEvent::Interrupt(reason) => UiEventView::Interrupt(reason),
        }
    }
}

/// What the loop of the user interface has to do after an event.
#[derive(Debug)]
pub enum UiStep {
    /// Do what the panes ask for, draw the screen again and go on.
    Render(KeyOutcome),
    /// Give the terminal back and end the loop with this reason.
    Stop(Interrupted),
}

/// A [`UiStep`] as plain values.
pub ghost enum UiStepView {
    Render(KeyOutcomeView),
    Stop(Interrupted),
}

impl View for UiStep {
    type V = UiStepView;

    open spec fn view(&self) -> UiStepView {
        match *self {
            UiStep::Render(outcome) => UiStepView::Render(outcome@),
            UiStep::Stop(reason) => UiStepView::Stop(reason),
        }
    }
}

/// The router after `event`.
pub open spec fn router_after(router: RouterView, event: UiEventView) -> RouterView {
    match event {
        UiEventView::Key(key) => router.after_key(key),
        UiEventView::Snapshot(state) => router.moved_to(state),
        _ => router,
    }
}

/// What is to be done after `event`: the end of the input is a request of
/// the user to shut down, and the shutdown signal ends the loop with its
/// reason; after everything else the screen is drawn again.
pub open spec fn step_after(router: RouterView, event: UiEventView) -> UiStepView {
    match event {
        UiEventView::Key(key) => UiStepView::Render(router.answer_to(key)),
        UiEventView::InputEnded => UiStepView::Stop(Interrupted::UserInt),
        UiEventView::Interrupt(reason) => UiStepView::Stop(reason),
        _ => UiStepView::Render(KeyOutcomeView::Idle),
    }
}

/// The owner of the router.
pub struct UiManager {
    router: AppRouter,
}

impl View for UiManager {
    type V = RouterView;

    closed spec fn view(&self) -> RouterView {
        self.router@
    }
}

impl UiManager {
    /// The manager of a screen that shows the first snapshot.
    pub fn new(state: &State) -> (manager: UiManager)
        ensures
            manager@ == RouterView::starting(state@),
            manager@.wf(),
    {
        UiManager { router: AppRouter::new(state) }
    }

    /// The router, to draw the screen from.
    pub fn router(&self) -> (router: &AppRouter)
        ensures
            router@ == self@,
            self@.wf(),
    {
        self.router.gather_invariants();
        &self.router
    }

    /// Takes one event. A key goes to the router, and a snapshot to every
    /// pane; a tick and any other input of the terminal change nothing.
    pub fn handle_event(self, event: UiEvent) -> (next: (UiManager, UiStep))
        ensures
            next.0@ == router_after(self@, event@),
            next.1@ == step_after(self@, event@),
            self@.wf(),
            next.0@.wf(),
    {
        let mut router = self.router;
        router.gather_invariants();
        match event {
            UiEvent::Tick => (UiManager { router }, UiStep::Render(KeyOutcome::Idle)),
            UiEvent::Key(key) => {
                let outcome = router.handle_key_event(key);
                (UiManager { router }, UiStep::Render(outcome))
            },
            UiEvent::OtherInput => (UiManager { router }, UiStep::Render(KeyOutcome::Idle)),
            UiEvent::InputEnded => (UiManager { router }, UiStep::Stop(Interrupted::UserInt)),
            UiEvent::Snapshot(state) => {
                let router = router.move_with_state(&state);
                (UiManager { router }, UiStep::Render(KeyOutcome::Idle))
            },
            UiEvent::Interrupt(reason) => (UiManager { router }, UiStep::Stop(reason)),
        }
    }
}

} // verus!
