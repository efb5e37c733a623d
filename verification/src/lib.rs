//! Core of a terminal text editor: lines of Unicode grapheme fragments,
//! a buffer of lines, and a viewport that keeps the cursor visible.

pub mod buffer;
pub mod charclass;
pub mod line;
pub mod position;
pub mod size;
pub mod text;
pub mod unicode;
pub mod view;
