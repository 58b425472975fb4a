//! Key events as the panes read them, and what a pane answers.

use vstd::prelude::*;

use crate::state::action::{Action, ActionView};

verus! {

/// The key that an event is about.
#[derive(Debug, Clone, Copy, PartialEq, Eq, Structural)]
pub enum KeyCode {
    Char(char),
    Backspace,
    Enter,
    Left,
    Right,
    Esc,
    /// Any key that no pane reads.
    Other,
}

/// The modifier keys that were held, as far as any pane reads them.
#[derive(Debug, Clone, Copy, PartialEq, Eq, Structural)]
pub struct KeyModifiers {
    pub control: bool,
}

/// What happened to the key.
#[derive(Debug, Clone, Copy, PartialEq, Eq, Structural)]
pub enum KeyEventKind {
    Press,
    Repeat,
    Release,
}

/// One event of the keyboard.
#[derive(Debug, Clone, Copy, PartialEq, Eq, Structural)]
pub struct KeyEvent {
    pub code: KeyCode,
    pub modifiers: KeyModifiers,
    pub kind: KeyEventKind,
}

impl KeyEvent {
    /// Whether this is a press of the character `c` with the control key held.
    pub open spec fn is_control(self, c: char) -> bool {
        self.kind == KeyEventKind::Press && self.code == KeyCode::Char(c) && self.modifiers.control
    }

    /// A press of `code` with no modifier held.
    pub fn press(code: KeyCode) -> (key: KeyEvent)
        ensures
            key == (KeyEvent {
                code,
                modifiers: KeyModifiers { control: false },
                kind: KeyEventKind::Press,
            }),
    {
        KeyEvent { code, modifiers: KeyModifiers { control: false }, kind: KeyEventKind::Press }
    }

    /// A press of the character `c` with the control key held.
    pub fn control(c: char) -> (key: KeyEvent)
        ensures
            key == (KeyEvent {
                code: KeyCode::Char(c),
                modifiers: KeyModifiers { control: true },
                kind: KeyEventKind::Press,
            }),
            key.is_control(c),
    {
        KeyEvent {
            code: KeyCode::Char(c),
            modifiers: KeyModifiers { control: true },
            kind: KeyEventKind::Press,
        }
    }
}

/// A [`KeyOutcome`] as plain values.
pub ghost enum KeyOutcomeView {
    Idle,
    Emit(ActionView),
    Panic,
}

/// What is to be done after a pane has handled a key.
#[derive(Debug)]
pub enum KeyOutcome {
    /// Nothing.
    Idle,
    /// Hand this action to the state actor.
    Emit(Action),
    /// Panic: the developer console was told to crash the program.
    Panic,
}

impl View for KeyOutcome {
    type V = KeyOutcomeView;

    open spec fn view(&self) -> KeyOutcomeView {
        match *self {
            KeyOutcome::Idle => KeyOutcomeView::Idle,
            KeyOutcome::Emit(action) => KeyOutcomeView::Emit(action@),
            KeyOutcome::Panic => KeyOutcomeView::Panic,
        }
    }
}

} // verus!
