//! A personal task tracker: the data-entry wizard, the in-place text editor,
//! the line wrapper that places the cursor, and the filtered and sorted task
//! list, each with a machine-checked contract.

pub mod backend;
pub mod display;
pub mod strings;
