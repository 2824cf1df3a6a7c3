//! Core logic of the `last_port` serial terminal: port configuration and its
//! validation, error reporting, the single-session manager, port listing,
//! the reader and pump decisions, and the startup helpers.

pub mod commands;
pub mod serial;
pub mod startup;
pub mod text;
