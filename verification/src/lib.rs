//! The core of a small terminal editor with emacs-style keys: the text as
//! lines in gap buffers, the cursor and the window over the text, the editing
//! commands, and the table from key presses to commands.
//!
//! The library does no input or output. A front end hands it the terminal's
//! events and paints what it hands back.

pub mod buf;
pub mod config;
pub mod display;
pub mod editor;
pub mod keys;
pub mod laws;
pub mod list;
pub mod model;
pub mod text;
pub mod vector;
