//! Core logic of a live-preview companion for a document compiler: it watches
//! a source file, lets an external compiler rewrite the served artifact, and
//! pushes a refresh signal to any number of connected browser tabs.
//!
//! This crate holds the decision logic of that pipeline, verified: the
//! debounce filter over raw file events, the broadcast wakeup protocol, the
//! shutdown state machine and artifact lifecycle, the compiler supervision
//! decision, the listen-port scan and the startup validation. The surrounding
//! process (filesystem notifications, the HTTP server, the child process) runs
//! in an ordinary binary that calls into these functions.

pub mod debounce;
pub mod hub;
pub mod ports;
pub mod routes;
pub mod scratch;
pub mod session;
pub mod shutdown;
pub mod startup;
pub mod supervisor;
pub mod watcher;
