//! Typed, content-addressed storage of files: classification of a byte buffer
//! into an image or a text block, identifier parsing, and a small metadata tree.
pub mod classify;
pub mod content;
pub mod identifier;
pub mod meta;
