//! Backend rules of a desktop markdown editor.
//!
//! The crate holds the two operations that the editor's front end invokes:
//! turning markdown text into HTML, and describing the secondary editor
//! window that the host runtime is asked to open. Talking to the host
//! runtime itself is left to the program that embeds this library.

pub mod convert;
pub mod menu;
pub mod window;
