//! A minimal terminal text editor, as a library.
//!
//! The library holds the editor's state and rules: the caret and how keys move
//! it, the line buffer, and the commands that draw a frame. It never touches the
//! terminal itself. Commands are queued in a [`editor::terminal::Terminal`] and
//! handed out in batches; the program around the library carries them out and
//! feeds key events back in.

pub mod editor;
