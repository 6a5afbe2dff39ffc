//! Core of a terminal-session manager: incremental decoding and batching of
//! pseudo-terminal output, the session registry, and the rules that decide
//! how sessions are created, reported and torn down.
//!
//! The library opens no pseudo-terminal and starts no thread. Its caller owns
//! the pseudo-terminals, the threads and the lock around the registry; it
//! tells the library what happened and carries out what the library answers.
//!
//! [`hub`] and [`hub_report`] hold the requests to the council hub and the
//! reports made of its answers.

pub mod clock;
pub mod commands;
pub mod error;
pub mod events;
pub mod exit;
pub mod hub;
pub mod hub_report;
pub mod launch;
pub mod path_utils;
pub mod pump;
pub mod registry;
pub mod shell;
pub mod text;
pub mod utf8_stream;
