//! The user interface without a terminal: which pane has the focus, where
//! a key goes, and what each pane does with it.

pub mod components;
pub mod keys;
pub mod layout;
pub mod manager;
pub mod panes;
pub mod router;
pub mod style;

pub use self::keys::{KeyCode, KeyEvent, KeyEventKind, KeyModifiers, KeyOutcome, KeyOutcomeView};
pub use self::router::{ActivePane, AppRouter, RouterView};
pub use self::style::Color;
pub use self::manager::{UiEvent, UiManager, UiStep};
pub use self::layout::{Position, Rect, ScreenAreas};
