//! A modal, line-oriented terminal text editor engine: text buffers with a
//! grapheme-aware cursor and a scrolling viewport, and an incremental
//! `[count]motion` command grammar.
pub mod buffer;
pub mod driver;
pub mod editor;
pub mod keyboard;
pub mod objects;
pub mod vex_editor;
