//! Error kinds surfaced by the outlet control logic.

use vstd::prelude::*;
use vstd::string::StringExecFns;

verus! {

/// What can go wrong in an outlet operation or at startup.
///
/// `Transport` carries the rendered description of a transport-layer
/// failure as reported by the device channel; the other variants are
/// produced by the library itself.
#[derive(Debug, Clone, PartialEq, Eq)]
pub enum Error {
    /// The device channel failed; the payload is its own description.
    Transport(String),
    /// The channel ended before yielding any response batch.
    TransportClosed,
    /// No message decoded into a complete data point set, or a required
    /// field was absent.
    DecodeIncomplete,
    /// Startup configuration lists had mismatched lengths.
    ConfigurationMismatch,
}

/// The human-readable description of an error, as a sequence of characters.
pub open spec fn error_text(e: Error) -> Seq<char> {
    match e {
        Error::Transport(s) => s@,
        Error::TransportClosed => "Bad read from TcpStream"@,
        Error::DecodeIncomplete => (
            "Data was incomplete. Error while parsing the received data"@
        ),
        Error::ConfigurationMismatch => (
            "Must be same number of local keys, device ids, and addresses"@
        ),
    }
}

impl Error {
    /// Renders the error as a human-readable description.
    pub fn describe(&self) -> (r: String)
        ensures
            r@ == error_text(*self),
    {
        match self {
            Error::Transport(s) => s.clone(),
            Error::TransportClosed => String::from_str("Bad read from TcpStream"),
            Error::DecodeIncomplete => String::from_str(
                "Data was incomplete. Error while parsing the received data",
            ),
            Error::ConfigurationMismatch => String::from_str(
                "Must be same number of local keys, device ids, and addresses",
            ),
        }
    }
}

} // verus!
