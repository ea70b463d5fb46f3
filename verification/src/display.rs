//! The interactive session: the text editor, the wizard, the line wrapper and
//! the state that the keys act on.

pub mod add;
pub mod keys;
pub mod quick_actions;
pub mod render;
pub mod text;
pub mod theme;
pub mod tui;
pub mod ui;
pub mod wrap;
pub mod laws;
