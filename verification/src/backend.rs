//! Tasks and what is kept about them between sessions.

pub mod config;
pub mod database;
pub mod tags;
pub mod task;
pub mod wipe;
