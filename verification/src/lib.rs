//! Task execution engine for a maintenance runner: which tasks run, in which
//! order and under which concurrency bound, how elevated privilege is
//! negotiated without ever blocking on a prompt, and how each outcome is
//! classified and reported.
//!
//! The library performs no process, terminal or network I/O itself. Every
//! flow that alternates decisions with such work is a state machine here:
//! the caller performs the action a state asks for and reports what came
//! back.
pub mod cli;
pub mod config;
pub mod dispatcher;
pub mod error;
pub mod executor;
pub mod keychain;
pub mod logger;
pub mod negotiator;
pub mod notifications;
pub mod paths;
pub mod report;
pub mod text;
pub mod ui;
