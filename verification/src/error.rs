use vstd::prelude::*;

verus! {

/// Which required configuration input is absent or empty.
#[derive(Debug, Clone, Copy, PartialEq, Eq)]
pub enum ConfigField {
    SearchStr,
    Token,
    OutputPath,
}

/// Everything that can make a run fail.
///
/// Every kind halts pagination immediately; none is retried or swallowed.
#[derive(Debug, Clone, PartialEq, Eq)]
pub enum FetchError {
    /// A required configuration input is absent or empty.
    /// Surfaced before any network activity.
    Configuration(ConfigField),
    /// The request could not be sent or no response was received.
    /// Carries a description of the failure.
    Transport(String),
    /// The server answered with a non-success status.
    /// Carries the status code and the response body text.
    Protocol(u16, String),
    /// The response body could not be read as a page: a required field is
    /// missing or has the wrong shape.
    Decode,
}

} // verus!
