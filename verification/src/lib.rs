//! Core of a terminal chat client: the state actor that owns the canonical
//! application state, the shutdown signal shared by the loops, and the
//! focus and key routing of the user interface.
//!
//! Everything here is synchronous and free of terminal or channel handles:
//! each loop of the program is a step function from the current state and
//! one event to the next state and what has to be done about it.

pub mod backends;
pub mod state;
pub mod termination;
pub mod ui;
