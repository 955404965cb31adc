//! Errors of the CURVE mechanism.

use vstd::prelude::*;

verus! {

/// The standard library's input/output error.
#[verifier::external_type_specification]
#[verifier::external_body]
pub struct ExIoError(std::io::Error);

/// CURVE-specific errors
#[derive(Debug)]
pub enum CurveError {
    /// Symmetric encryption failed.
    EncryptionFailed,
    /// Symmetric decryption or authentication-tag verification failed.
    DecryptionFailed,
    /// A key did not have the expected length.
    InvalidKeySize,
    /// A nonce had an unexpected format or length.
    InvalidNonce,
    /// The peer violated the CurveZMQ protocol.
    ProtocolViolation,
    /// The peer's identity could not be verified.
    AuthenticationFailed,
    /// An underlying I/O error occurred.
    Io(std::io::Error),
}

impl From<std::io::Error> for CurveError {
    fn from(error: std::io::Error) -> (result: CurveError)
        ensures
            result == CurveError::Io(error),
    {
        CurveError::Io(error)
    }
}

impl vstd::std_specs::convert::FromSpecImpl<std::io::Error> for CurveError {
    open spec fn obeys_from_spec() -> bool {
        true
    }

    open spec fn from_spec(error: std::io::Error) -> CurveError {
        CurveError::Io(error)
    }
}

} // verus!
