//! Errors that end a ZMTP connection.

use vstd::prelude::*;

verus! {

/// Why a handshake was abandoned.
#[derive(Debug, Clone, Copy, PartialEq, Eq, Structural)]
pub enum ZmtpError {
    /// The peer broke the protocol.
    Protocol,
    /// The peer was not authorised.
    AuthenticationFailed,
}

} // verus!
