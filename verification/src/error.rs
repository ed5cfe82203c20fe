//! The error taxonomy of the discovery layer.
use vstd::prelude::*;

verus! {

/// Everything that can go wrong while talking to a device or running a
/// discovery pass.
///
/// - `Transport`: a socket could not be bound, or a send/receive failed.
/// - `Protocol`: a response did not parse, or did not match the shape
///   expected for the command that was sent.
/// - `Config`: a configured address or connection parameter is malformed.
/// - `Discovery`: an integration could not even begin its discovery pass.
#[derive(Debug, Clone, Copy, PartialEq, Eq, Structural)]
pub enum LightError {
    Transport,
    Protocol,
    Config,
    Discovery,
}

impl LightError {
    /// A short human-readable description for diagnostics.
    pub fn describe(&self) -> (s: &'static str)
        ensures
            *self is Transport ==> s@ == "transport failure"@,
            *self is Protocol ==> s@ == "malformed or unexpected response"@,
            *self is Config ==> s@ == "malformed configuration"@,
            *self is Discovery ==> s@ == "discovery could not start"@,
    {
        match self {
            LightError::Transport => "transport failure",
            LightError::Protocol => "malformed or unexpected response",
            LightError::Config => "malformed configuration",
            LightError::Discovery => "discovery could not start",
        }
    }
}

} // verus!
