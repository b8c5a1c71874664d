//! A small native shell that hosts web-rendered content in top-level windows.
//!
//! The library holds the logic of that shell: parsing command-line options
//! and geometry strings, interpreting the one-line control messages that the
//! hosted page sends, and the window-lifecycle coordinator that owns the
//! table of open windows and decides every native action.  The surrounding
//! binary performs the native calls (window creation, visibility changes,
//! output) that the coordinator asks for.

pub mod coordinator;
pub mod factory;
pub mod geometry;
pub mod json;
pub mod laws;
pub mod message;
pub mod options;
pub mod text;
