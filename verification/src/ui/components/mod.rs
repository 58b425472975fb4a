//! What every part of the user interface offers, and the text input box.

pub mod component;
pub mod input_box;

pub use self::component::{Component, ComponentRender};
pub use self::input_box::{InputBox, InputBoxView};
