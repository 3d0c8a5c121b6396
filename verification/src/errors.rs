use vstd::prelude::*;
use vstd::string::StringExecFns;

verus! {

/// The error taxonomy of a single client invocation: transport failures
/// (connect, send or receive), reply-decoding failures (the first frame of
/// the reply is not valid UTF-8), expiry of the receive time bound, and
/// failures to set up the log sinks.  Each variant carries a human-readable
/// detail string.
#[derive(Debug)]
pub enum CliError {
    Transport(String),
    Decoding(String),
    Timeout(String),
    LoggingInit(String),
}

/// The exact text reported to the operator for an error: a fixed prefix
/// naming the error class, followed by the detail string.
pub open spec fn message_spec(e: CliError) -> Seq<char> {
    match e {
        CliError::Transport(d) => "Socket error: "@ + d@,
        CliError::Decoding(d) => "UTF-8 error: "@ + d@,
        CliError::Timeout(d) => "Timeout error: "@ + d@,
        CliError::LoggingInit(d) => "Log error: "@ + d@,
    }
}

impl CliError {
    /// Renders the error for the operator's error stream.
    pub fn message(&self) -> (r: String)
        ensures
            r@ == message_spec(*self),
    {
        match self {
            CliError::Transport(d) => {
                let mut s = String::from_str("Socket error: ");
                s.append(d.as_str());
                s
            },
            CliError::Decoding(d) => {
                let mut s = String::from_str("UTF-8 error: ");
                s.append(d.as_str());
                s
            },
            CliError::Timeout(d) => {
                let mut s = String::from_str("Timeout error: ");
                s.append(d.as_str());
                s
            },
            CliError::LoggingInit(d) => {
                let mut s = String::from_str("Log error: ");
                s.append(d.as_str());
                s
            },
        }
    }
}

} // verus!
