//! A personal todo list: its records and their line format, the modal editor
//! that works on the list, the screen the editor shows, and the one-shot
//! commands.

pub mod app;
pub mod commands;
pub mod keys;
pub mod laws;
pub mod record;
pub mod store;
pub mod text;
pub mod timestamp;
pub mod ui;
