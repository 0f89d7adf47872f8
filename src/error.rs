//! Failures of the terminal.
use vstd::prelude::*;

verus! {

/// What went wrong. None of these is recovered from beyond the gateway's own
/// retries; each ends the session.
#[derive(Clone, Debug, PartialEq, Eq)]
pub enum IcmtError {
    /// Setting up a connection, or the network, failed.
    Transport(String),
    /// An update call did not succeed within its retry window.
    Timeout,
    /// A response did not have the expected shape.
    Decoding(String),
    /// A view response did not hold exactly one outcome; this is how many it held.
    ProtocolViolation(usize),
    /// Startup input was malformed.
    Configuration(String),
    /// A pipeline's channel closed.
    Channel(String),
}

pub type IcmtResult<X> = Result<X, IcmtError>;

} // verus!
