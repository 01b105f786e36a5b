//! Verified core of a scripting-language host's command-line front end.
//!
//! The crate models the command dispatcher, the shared execution pipeline
//! that all run-like subcommands drive, the progress-reporting sink, the
//! unified error type with its exit contract, and the log-record filter.
//! Engine calls, I/O and the cooperative executor live outside the library;
//! the library decides what to run, in what order, and what to print.

pub mod ansi;
pub mod dispatch;
pub mod errors;
pub mod info;
pub mod logging;
pub mod pipeline;
pub mod progress;
pub mod state;
pub mod text;
