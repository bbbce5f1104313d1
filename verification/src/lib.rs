//! Decisions of an editor plugin that starts the Dart language server.
//!
//! The plugin receives initialization options as JSON, works out the server's
//! executable and arguments, asks the host to look the executable up, and then
//! either has the server started or tells the user what is wrong. This crate
//! holds the decisions; talking to the host is left to the caller.

pub mod address;
pub mod json;
pub mod launch;
pub mod settings;
pub mod text;
