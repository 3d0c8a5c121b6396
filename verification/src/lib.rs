//! Client-side core of a display-management CLI.
//!
//! A typed subcommand, together with an optional target screen and free-form
//! trailing arguments, is encoded into a single request line; the line is
//! exchanged with the daemon over a request/reply socket, and the first frame
//! of the reply envelope is decoded as UTF-8 text for display.  The encoding
//! grammar, the reply decoding, and the session state machine live here; the
//! socket itself, argument parsing and log sinks are left to the binary.

pub mod command;
pub mod errors;
pub mod reply;
pub mod session;
