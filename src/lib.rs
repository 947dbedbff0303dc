//! A terminal list browser for a directory of notes: a navigation state that
//! keeps the selection inside a scrolling viewport, a chord-aware key
//! dispatcher, and a table renderer that sizes its columns from the data.

pub mod config;
pub mod keys;
pub mod naming;
pub mod navigation_state;
pub mod note_entry;
pub mod order;
pub mod render;
pub mod terminal;
pub mod text;
