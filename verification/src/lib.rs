//! The editing core of a task manager for the terminal: a text area with a
//! cursor and vim-like motions, a composer that turns chords of keys into
//! commands, and what the panels around them decide. Every function is
//! verified against a contract over a mathematical model of its data.

pub mod assoc;
pub mod command;
pub mod editor;
pub mod key;
pub mod store;
pub mod strings;
pub mod ui;
