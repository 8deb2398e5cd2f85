//! A single-line editor for a terminal prompt.
//!
//! The line is kept as two adjoining spans whose join is the cursor. Key
//! events are mapped to edits of that line and to the terminal operations
//! that bring the screen back in step with it. Nothing here touches the
//! terminal: every function takes plain values and hands plain values back.

pub mod currentline;
pub mod debug;
pub mod keys;
pub mod model;
pub mod my_parser;
pub mod position;
pub mod screen;
pub mod text;
pub mod words;
