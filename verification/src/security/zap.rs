//! Requests to and replies from a ZAP authentication handler.

use bytes::Bytes;
use vstd::prelude::*;

verus! {

/// The security mechanism that a ZAP request is about.
#[derive(Debug, Clone, Copy, PartialEq, Eq, Structural)]
pub enum ZapMechanism {
    /// No security.
    Null,
    /// User name and password.
    Plain,
    /// CURVE public keys.
    Curve,
}

/// The verdict in a ZAP reply.
#[derive(Debug, Clone, Copy, PartialEq, Eq, Structural)]
pub enum ZapStatus {
    /// The client may connect.
    Success,
    /// The handler could not decide for now.
    TemporaryError,
    /// The client may not connect.
    AuthenticationFailure,
    /// The handler failed.
    InternalError,
}

/// A question to the ZAP handler: may this client connect?
pub struct ZapRequest {
    /// Tells this request from others.
    pub request_id: String,
    /// Authentication domain.
    pub domain: String,
    /// Address of the client.
    pub address: String,
    /// Identity that the client claims.
    pub identity: Bytes,
    /// Mechanism that the credentials belong to.
    pub mechanism: ZapMechanism,
    /// Credentials of the client.
    pub credentials: Vec<Bytes>,
}

impl ZapRequest {
    /// Create a request
    pub fn new<R: Into<String>, D: Into<String>, A: Into<String>>(
        request_id: R,
        domain: D,
        address: A,
        identity: Bytes,
        mechanism: ZapMechanism,
        credentials: Vec<Bytes>,
    ) -> (request: Self)
        ensures
            call_ensures(R::into, (request_id,), request.request_id),
            call_ensures(D::into, (domain,), request.domain),
            call_ensures(A::into, (address,), request.address),
            request.identity == identity,
            request.mechanism == mechanism,
            request.credentials == credentials,
    {
        ZapRequest {
            request_id: request_id.into(),
            domain: domain.into(),
            address: address.into(),
            identity,
            mechanism,
            credentials,
        }
    }
}

/// What the ZAP handler replied.
pub struct ZapResponse {
    /// The verdict.
    pub status_code: ZapStatus,
    /// Why, in words.
    pub status_text: String,
}

} // verus!
