//! A small modal text editor core: a line buffer, a cursor kept in both
//! document and screen coordinates, a two-mode key dispatcher and a frame
//! renderer. Every function here is a pure transformation of editor state;
//! reading keys, querying the terminal and touching the disk are left to the
//! program around it.

pub mod app;
pub mod args;
pub mod banner;
pub mod cursor;
pub mod edit_terminal;
pub mod error;
pub mod escape;
pub mod file;
pub mod input;
pub mod output;
pub mod text;
