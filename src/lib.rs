//! Clipboard-driven Japanese input helper: incremental conversion, candidate
//! cycling and the protocol spoken with an isolated conversion worker.

pub mod text;
pub mod diff;
pub mod processing;
pub mod session;
pub mod ipc;
pub mod config;
pub mod handler;
pub mod tsf;
