//! Keyboard events from a tokenized terminal input stream.
//!
//! A tokenizer for escape sequences reports what it decoded through the
//! callbacks of [`event::Perform`]. The adapter made by [`event::new`] takes
//! those callbacks and tells an [`event::Handler`] which keys were meant:
//! `Esc O` and a character is a function key, `Esc [ [` and a character is a
//! function key of the Linux console, and DEL is the Backspace key.
//!
//! [`model`] says for every state and callback what the adapter does, and
//! [`trace`] proves what follows for runs of callbacks.

pub mod event;
pub mod model;
pub mod params;
pub mod state;
pub mod trace;
