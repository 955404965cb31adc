//! Authorising a client by its CURVE public key.

use crate::buffers::{bytes_content, bytes_mut_content};
use crate::codec::ZmtpError;
use crate::security::curve::keys::CurvePublicKey;
use crate::security::curve::server::{CurveServer, ServerStep};
use crate::security::curve::step::HandshakeAction;
use crate::security::zap::{ZapMechanism, ZapRequest, ZapResponse, ZapStatus};
use bytes::{Bytes, BytesMut};
use vstd::prelude::*;
use vstd::slice::slice_subrange;
use vstd::utf8::encode_utf8;

verus! {

/// The command name `"\x05ERROR"`.
pub const ZMTP_ERROR: [u8; 6] = [5, 69, 82, 82, 79, 82];

/// The frame flag of a command.
pub const ZMTP_COMMAND_FLAG: u8 = 4;

/// The most bytes of a reason that an ERROR command carries: with 7 more for the command
/// name and the length of the reason, the length of the body fits in one byte.
pub const ZMTP_REASON_SIZE: usize = 248;

/// How many bytes of a reason an ERROR command carries.
pub open spec fn reason_len(reason: Seq<u8>) -> nat {
    if reason.len() > ZMTP_REASON_SIZE {
        ZMTP_REASON_SIZE as nat
    } else {
        reason.len()
    }
}

/// The frame of an ERROR command: the command flag, the length of the body, and the body,
/// which is the command name, the length of the reason and the reason.
pub open spec fn error_frame(reason: Seq<u8>) -> Seq<u8> {
    let len = reason_len(reason);
    seq![ZMTP_COMMAND_FLAG, (7 + len) as u8] + ZMTP_ERROR@ + seq![len as u8] + reason.take(
        len as int,
    )
}

/// The frame of an ERROR command is the command flag, the length of the rest, `\x05ERROR`,
/// the length of what follows, and the reason: all of it, or its first 248 bytes.
pub proof fn law_error_frame_is_well_formed(reason: Seq<u8>)
    ensures
        error_frame(reason)[0] == 4,
        error_frame(reason)[0] == ZMTP_COMMAND_FLAG,
        error_frame(reason)[1] == error_frame(reason).len() - 2,
        error_frame(reason).subrange(2, 8) == seq![5u8, 69, 82, 82, 79, 82],
        error_frame(reason).subrange(2, 8) == ZMTP_ERROR@,
        error_frame(reason)[8] == error_frame(reason).len() - 9,
        error_frame(reason).skip(9) == reason.take(reason_len(reason) as int),
        reason.len() <= 248 ==> error_frame(reason).skip(9) == reason,
        reason.len() > 248 ==> error_frame(reason).skip(9) == reason.take(248),
{
    let len = reason_len(reason) as int;
    assert(error_frame(reason).subrange(2, 8) =~= ZMTP_ERROR@);
    assert(ZMTP_ERROR@ =~= seq![5u8, 69, 82, 82, 79, 82]);
    assert(error_frame(reason).skip(9) =~= reason.take(len));
    assert(reason.len() <= 248 ==> reason.take(len) =~= reason);
}

/// Make the frame of a ZMTP ERROR command.
///
/// A reason that does not fit is cut short.
pub fn zmtp_error_frame(reason: &str) -> (frame: Bytes)
    ensures
        bytes_content(frame) == error_frame(encode_utf8(reason@)),
{
    let reason_bytes = reason.as_bytes();
    let reason_len: usize = if reason_bytes.len() > ZMTP_REASON_SIZE {
        ZMTP_REASON_SIZE
    } else {
        reason_bytes.len()
    };
    let length_byte: [u8; 1] = [reason_len as u8];
    let mut body = BytesMut::new();
    body.extend_from_slice(&ZMTP_ERROR);
    body.extend_from_slice(&length_byte);
    body.extend_from_slice(slice_subrange(reason_bytes, 0, reason_len));

    let body_len: usize = body.len();
    let header: [u8; 2] = [ZMTP_COMMAND_FLAG, body_len as u8];
    let mut frame = BytesMut::new();
    frame.extend_from_slice(&header);
    frame.extend_from_slice(&body);
    assert(bytes_mut_content(frame) =~= error_frame(encode_utf8(reason@)));
    frame.freeze()
}

/// Create a ZAP request for CURVE authentication
pub fn create_curve_zap_request<R: Into<String>, D: Into<String>, A: Into<String>>(
    request_id: R,
    domain: D,
    address: A,
    identity: Bytes,
    client_public_key: &CurvePublicKey,
) -> (request: ZapRequest)
    ensures
        call_ensures(R::into, (request_id,), request.request_id),
        call_ensures(D::into, (domain,), request.domain),
        call_ensures(A::into, (address,), request.address),
        request.identity == identity,
        request.mechanism == ZapMechanism::Curve,
        request.credentials@.len() == 1,
        bytes_content(request.credentials@[0]) == client_public_key@,
{
    let mut credentials: Vec<Bytes> = Vec::new();
    credentials.push(Bytes::copy_from_slice(client_public_key.as_bytes()));
    ZapRequest::new(
        request_id,
        domain,
        address,
        identity,
        ZapMechanism::Curve,
        credentials,
    )
}

/// How a client that completed the handshake is turned away.
pub struct ZapRefusal {
    /// The error to report.
    pub error: ZmtpError,
    /// The frame of the ERROR command to send to the client before closing.
    pub frame: Bytes,
}

/// The reason that a client is given where the ZAP handler gave none.
pub open spec fn default_reason() -> Seq<char> {
    "Authentication failed"@
}

/// How long to wait for the ZAP handler where nothing else was asked for, in seconds.
pub const ZAP_DEFAULT_TIMEOUT_SECS: u64 = 5;

/// How long to wait for the ZAP handler, in seconds and nanoseconds: as long as for the
/// connection, or the default where that has no limit.
pub fn zap_timeout(timeout: Option<(u64, u32)>) -> (used: (u64, u32))
    ensures
        match timeout {
            Some(given) => used == given,
            None => used == (5u64, 0u32),
        },
{
    match timeout {
        Some(given) => given,
        None => (ZAP_DEFAULT_TIMEOUT_SECS, 0),
    }
}

/// What happened last in a ZAP-authenticated handshake.
pub enum ZapEvent {
    /// An action of the CURVE handshake was performed.
    Performed {
        /// The action.
        step: ServerStep,
        /// What it read.
        received: Vec<u8>,
    },
    /// The ZAP handler was asked about a client.
    Replied {
        /// The client's long-term public key.
        client_public: CurvePublicKey,
        /// What the handler said, or nothing if it could not be reached.
        reply: Option<ZapResponse>,
    },
}

/// What to do next in a ZAP-authenticated handshake.
pub enum ZapAction {
    /// Write all of these bytes.
    Write {
        /// The bytes.
        command: Vec<u8>,
        /// The step that this performs.
        next: ServerStep,
    },
    /// Read exactly this many bytes.
    Read {
        /// How many.
        len: usize,
        /// The step that this performs.
        next: ServerStep,
    },
    /// Ask the ZAP handler about the client.
    Ask {
        /// The client's long-term public key.
        client_public: CurvePublicKey,
    },
    /// Let the client in.
    Accept {
        /// The client's long-term public key.
        client_public: CurvePublicKey,
    },
    /// Turn the client away.
    Refuse(ZapRefusal),
}

/// What follows on a step of the CURVE handshake: the same action, until it finishes; then
/// the ZAP handler is asked about the client.
pub open spec fn zap_follows(
    handshake: Result<(ServerStep, HandshakeAction<CurvePublicKey>), ZmtpError>,
) -> Result<ZapAction, ZmtpError> {
    match handshake {
        Ok((next, HandshakeAction::Write(command))) => Ok(ZapAction::Write { command, next }),
        Ok((next, HandshakeAction::Read(len))) => Ok(ZapAction::Read { len, next }),
        Ok((_, HandshakeAction::Finish(client_public))) => Ok(ZapAction::Ask { client_public }),
        Err(error) => Err(error),
    }
}

/// `action` turns the client away with an ERROR command that gives this reason.
pub open spec fn zap_refuses(reason: Seq<char>, action: ZapAction) -> bool {
    action matches ZapAction::Refuse(refusal) && refusal.error == ZmtpError::AuthenticationFailed
        && bytes_content(refusal.frame) == error_frame(encode_utf8(reason))
}

/// `action` is what the reply of the ZAP handler calls for: only an explicit success lets
/// the client in, and any other client is told why not.
pub open spec fn zap_decides(
    client_public: CurvePublicKey,
    reply: Option<ZapResponse>,
    action: ZapAction,
) -> bool {
    match reply {
        Some(response) => if response.status_code == ZapStatus::Success {
            action == ZapAction::Accept { client_public }
        } else {
            zap_refuses(response.status_text@, action)
        },
        None => zap_refuses(default_reason(), action),
    }
}

/// What one step of a ZAP-authenticated handshake returns and leaves behind.
pub open spec fn zap_step(
    before: CurveServer,
    event: ZapEvent,
    after: CurveServer,
    result: Result<ZapAction, ZmtpError>,
) -> bool {
    match event {
        ZapEvent::Performed { step, received } => exists|
            handshake: Result<(ServerStep, HandshakeAction<CurvePublicKey>), ZmtpError>,
        |
            {
                &&& #[trigger] before.handshake_step(step, received@, after, handshake)
                &&& result == zap_follows(handshake)
            },
        ZapEvent::Replied { client_public, reply } => after == before && (result matches Ok(action)
            && zap_decides(client_public, reply, action)),
    }
}

/// Perform one step of the CURVE server handshake with ZAP authentication
///
/// After the CURVE handshake the ZAP handler is asked about the client's public key, and
/// decides whether the client is let in. A client that is not let in is sent an ERROR
/// command, also where the handler could not be reached.
pub fn curve_server_handshake_zap(curve_server: &mut CurveServer, event: ZapEvent) -> (result:
    Result<ZapAction, ZmtpError>)
    ensures
        zap_step(*old(curve_server), event, *final(curve_server), result),
        result matches Err(error) ==> event is Performed && error == ZmtpError::Protocol,
{
    match event {
        ZapEvent::Performed { step, received } => {
            let handshake = curve_server.handshake(step, &received);
            match handshake {
                Ok((next, HandshakeAction::Write(command))) => Ok(
                    ZapAction::Write { command, next },
                ),
                Ok((next, HandshakeAction::Read(len))) => Ok(ZapAction::Read { len, next }),
                Ok((_, HandshakeAction::Finish(client_public))) => Ok(
                    ZapAction::Ask { client_public },
                ),
                Err(error) => Err(error),
            }
        },
        ZapEvent::Replied { client_public, reply } => Ok(zap_decision(client_public, reply)),
    }
}

/// Decide on a client by the reply of the ZAP handler
fn zap_decision(client_public: CurvePublicKey, reply: Option<ZapResponse>) -> (action: ZapAction)
    ensures
        zap_decides(client_public, reply, action),
{
    let frame = match reply {
        Some(response) => {
            if matches!(response.status_code, ZapStatus::Success) {
                return ZapAction::Accept { client_public };
            }
            zmtp_error_frame(response.status_text.as_str())
        },
        None => zmtp_error_frame("Authentication failed"),
    };
    ZapAction::Refuse(ZapRefusal { error: ZmtpError::AuthenticationFailed, frame })
}

/// `frame` ends in as much of `reason` as one byte can count, after the 9 bytes that start
/// every ERROR command.
pub open spec fn refused_for(reason: Seq<u8>, frame: Seq<u8>) -> bool {
    &&& frame.len() == 9 + if reason.len() < 248 {
        reason.len()
    } else {
        248
    }
    &&& forall|i: int| 9 <= i < frame.len() ==> #[trigger] frame[i] == reason[i - 9]
}

/// No client is let in unless the ZAP handler said success about that client.
pub proof fn law_only_success_lets_a_client_in(
    client_public: CurvePublicKey,
    reply: Option<ZapResponse>,
    action: ZapAction,
)
    requires
        zap_decides(client_public, reply, action),
    ensures
        action is Accept <==> (reply matches Some(response) && response.status_code
            == ZapStatus::Success),
        action matches ZapAction::Accept { client_public: accepted } ==> accepted == client_public,
        action !is Accept ==> action is Refuse,
{
}

/// A client that is not let in is told why: by the text that the ZAP handler gave, or that
/// authentication failed where the handler said nothing.
pub proof fn law_refused_clients_are_told_why(
    client_public: CurvePublicKey,
    reply: Option<ZapResponse>,
    action: ZapAction,
)
    requires
        zap_decides(client_public, reply, action),
        action is Refuse,
    ensures
        ({
            let refusal = action->Refuse_0;
            let reason = encode_utf8(
                match reply {
                    Some(response) => response.status_text@,
                    None => "Authentication failed"@,
                },
            );
            let frame = bytes_content(refusal.frame);
            &&& refusal.error == ZmtpError::AuthenticationFailed
            &&& reply matches Some(response) ==> response.status_code != ZapStatus::Success
            &&& frame.take(2) == seq![4u8, (frame.len() - 2) as u8]
            &&& frame.len() <= 257
            &&& frame.subrange(2, 8) == seq![5u8, 69, 82, 82, 79, 82]
            &&& frame.skip(9) == if reason.len() <= 248 {
                reason
            } else {
                reason.take(248)
            }
        }),
{
    let reason = encode_utf8(
        match reply {
            Some(response) => response.status_text@,
            None => "Authentication failed"@,
        },
    );
    law_error_frame_is_well_formed(reason);
    let frame = bytes_content(action->Refuse_0.frame);
    assert(frame == error_frame(reason));
    assert(frame.take(2) =~= seq![4u8, (frame.len() - 2) as u8]);
}

/// While the CURVE handshake goes on, its actions are passed on as they are, and a failure
/// ends everything. Only when it finishes with a key is the ZAP handler asked, about that
/// key. Nothing is decided before the handler replied.
pub proof fn law_zap_follows_the_handshake(
    before: CurveServer,
    step: ServerStep,
    received: Vec<u8>,
    after: CurveServer,
    result: Result<ZapAction, ZmtpError>,
)
    requires
        zap_step(before, ZapEvent::Performed { step, received }, after, result),
    ensures
        exists|handshake: Result<(ServerStep, HandshakeAction<CurvePublicKey>), ZmtpError>|
            {
                &&& #[trigger] before.handshake_step(step, received@, after, handshake)
                &&& match result {
                    Ok(ZapAction::Write { command, next }) => handshake matches Ok(
                        (after_step, HandshakeAction::Write(written)),
                    ) && after_step == next && written == command,
                    Ok(ZapAction::Read { len, next }) => handshake matches Ok(
                        (after_step, HandshakeAction::Read(wanted)),
                    ) && after_step == next && wanted == len,
                    Ok(ZapAction::Ask { client_public }) => handshake matches Ok(
                        (_, HandshakeAction::Finish(key)),
                    ) && key == client_public,
                    Ok(_) => false,
                    Err(error) => handshake matches Err(failure) && failure == error && error
                        == ZmtpError::Protocol,
                }
            },
{
}

/// A reply of the ZAP handler settles the matter, and leaves the server as it is: an explicit
/// success lets in the client that the handler was asked about, and anything else turns it
/// away with an ERROR command that gives the handler's reason.
pub proof fn law_zap_reply_settles(
    before: CurveServer,
    client_public: CurvePublicKey,
    reply: Option<ZapResponse>,
    after: CurveServer,
    result: Result<ZapAction, ZmtpError>,
)
    requires
        zap_step(before, ZapEvent::Replied { client_public, reply }, after, result),
    ensures
        after == before,
        result == Ok::<ZapAction, ZmtpError>(ZapAction::Accept { client_public }) <==> (
        reply matches Some(response) && response.status_code == ZapStatus::Success),
        reply matches Some(response) ==> response.status_code == ZapStatus::Success || (
        result matches Ok(ZapAction::Refuse(refusal)) && refusal.error
            == ZmtpError::AuthenticationFailed && refused_for(
            encode_utf8(response.status_text@),
            bytes_content(refusal.frame),
        )),
        reply is None ==> (result matches Ok(ZapAction::Refuse(refusal)) && refusal.error
            == ZmtpError::AuthenticationFailed && refused_for(
            encode_utf8("Authentication failed"@),
            bytes_content(refusal.frame),
        )),
{
    match reply {
        Some(response) => law_error_frame_is_well_formed(encode_utf8(response.status_text@)),
        None => law_error_frame_is_well_formed(encode_utf8("Authentication failed"@)),
    }
}

/// `event` reports on the action that `result` asked for. Nothing follows on an error, or
/// once a client was let in or turned away.
pub open spec fn zap_reports(result: Result<ZapAction, ZmtpError>, event: ZapEvent) -> bool {
    match result {
        Ok(ZapAction::Write { next, .. }) => event matches ZapEvent::Performed { step, .. } && step
            == next,
        Ok(ZapAction::Read { next, .. }) => event matches ZapEvent::Performed { step, .. } && step
            == next,
        Ok(ZapAction::Ask { client_public: asked }) => event matches ZapEvent::Replied {
            client_public,
            ..
        } && client_public == asked,
        _ => false,
    }
}

/// A run of a ZAP-authenticated handshake from its start: the server's states, what
/// happened between them, and what was asked for each time.
pub struct ZapRun {
    /// The states, one more than there are events.
    pub servers: Seq<CurveServer>,
    /// The events.
    pub events: Seq<ZapEvent>,
    /// The result of each event.
    pub results: Seq<Result<ZapAction, ZmtpError>>,
}

impl ZapRun {
    /// The run starts at the start of the handshake, each event leads to the next state, and
    /// reports on the action that was asked for last.
    pub open spec fn valid(self) -> bool {
        &&& self.servers.len() == self.events.len() + 1
        &&& self.results.len() == self.events.len()
        &&& self.events.len() > 0 ==> (self.events[0] matches ZapEvent::Performed { step, .. }
            && step is Start)
        &&& forall|i: int|
            0 <= i < self.events.len() ==> zap_step(
                self.servers[i],
                #[trigger] self.events[i],
                self.servers[i + 1],
                self.results[i],
            )
        &&& forall|i: int|
            0 < i < self.events.len() ==> zap_reports(
                self.results[i - 1],
                #[trigger] self.events[i],
            )
    }

    /// At event `i` the server accepted an INITIATE command with this client key.
    pub open spec fn initiated(self, i: int, client_public: Seq<u8>) -> bool {
        &&& 0 <= i < self.events.len()
        &&& self.events[i] matches ZapEvent::Performed { step, received } && (step matches
            ServerStep::InitiateBox { cookie, nonce } && self.servers[i].reads_initiate(
            cookie@,
            nonce@,
            received@,
        ) == Some(client_public))
    }
}

/// Only a client that completed the handshake is let in: in any run from the start, where a
/// key is let in, the server accepted an INITIATE command with that key, the handshake
/// finished with that key, the server still holds it, and the ZAP handler said success
/// about it.
pub proof fn law_only_authenticated_clients_are_let_in(
    run: ZapRun,
    i: int,
    client_public: CurvePublicKey,
)
    requires
        run.valid(),
        0 <= i < run.events.len(),
        run.results[i] == Ok::<ZapAction, ZmtpError>(ZapAction::Accept { client_public }),
    ensures
        i >= 3,
        run.initiated(i - 2, client_public@),
        run.results[i - 1] == Ok::<ZapAction, ZmtpError>(ZapAction::Ask { client_public }),
        run.servers[i + 1].client_public == Some(client_public),
        run.servers[i + 1].session_cipher is Some,
        run.events[i] matches ZapEvent::Replied { reply: Some(response), .. }
            && response.status_code == ZapStatus::Success,
{
    let servers = run.servers;
    let events = run.events;
    let results = run.results;
    assert(zap_step(servers[i], events[i], servers[i + 1], results[i]));
    assert(events[i] is Replied);
    assert(zap_reports(results[i - 1], events[i]));
    assert(zap_step(servers[i - 1], events[i - 1], servers[i], results[i - 1]));
    assert(zap_reports(results[i - 2], events[i - 1]));
    assert(zap_step(servers[i - 2], events[i - 2], servers[i - 1], results[i - 2]));
}

} // verus!
