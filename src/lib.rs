//! Akasio: an HTTP redirect service driven by a JSON redirect table.
//!
//! The table text is parsed anew for every request, the request path is looked
//! up in it, and the outcome is mapped to a response and a log line.

pub mod config;
pub mod laws;
pub mod response;
pub mod table;

