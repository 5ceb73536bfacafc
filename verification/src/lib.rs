//! Operator console for a distributed key-value cache.
//!
//! The crate holds the decisions of the console: how a line of input becomes a
//! command, which cache operation a command asks for, how the answer becomes
//! text for the operator, when the session ends, and how cache events become
//! log lines. Reading input, talking to the cache and writing output are left
//! to the program that drives a [`session::Session`].

pub mod cache;
pub mod command;
pub mod error;
pub mod events;
pub mod handler;
pub mod json;
pub mod logging;
pub mod prompt;
pub mod router;
pub mod session;
pub mod table;
pub mod text;
pub mod views;
pub mod words;
