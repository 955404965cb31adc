//! Authorising clients and telling them why not.

use bytes::Bytes;
use monocoque_zmtp::codec::ZmtpError;
use monocoque_zmtp::security::curve::auth::{
    zap_timeout, zmtp_error_frame, ZapAction, ZapEvent,
};
use monocoque_zmtp::security::curve::client::ClientStep;
use monocoque_zmtp::security::curve::server::ServerStep;
use monocoque_zmtp::security::curve::step::HandshakeAction;
use monocoque_zmtp::security::curve::{
    create_curve_zap_request, curve_server_handshake_zap, CurveClient, CurveKeyPair,
    CurvePublicKey, CurveServer,
};
use monocoque_zmtp::security::protocol::read_command_prefix;
use monocoque_zmtp::security::zap::{ZapMechanism, ZapRequest, ZapResponse, ZapStatus};

#[test]
fn error_frame_spells_the_reason() {
    assert_eq!(
        zmtp_error_frame("No access").as_ref(),
        b"\x04\x10\x05ERROR\x09No access"
    );
    assert_eq!(zmtp_error_frame("").as_ref(), b"\x04\x07\x05ERROR\x00");
}

#[test]
fn error_frame_states_its_length_up_to_248_bytes() {
    let reason = "r".repeat(248);
    let frame = zmtp_error_frame(&reason);
    assert_eq!(frame[0], 4);
    assert_eq!(frame[1], 255);
    assert_eq!(frame.len(), 2 + 255);
    assert_eq!(frame[8], 248);
    assert_eq!(&frame[9..], reason.as_bytes());
}

#[test]
fn error_frame_cuts_reasons_that_do_not_fit() {
    for len in [249, 255, 256, 1000] {
        let frame = zmtp_error_frame(&"r".repeat(len));
        assert_eq!(frame[1] as usize, frame.len() - 2);
        assert_eq!((frame[1], frame[8], frame.len()), (255, 248, 2 + 255));
        assert_eq!(&frame[9..], "r".repeat(248).as_bytes());
    }
}

#[test]
fn error_frame_counts_bytes_not_characters() {
    let frame = zmtp_error_frame("\u{e9}");
    assert_eq!(frame.as_ref(), b"\x04\x09\x05ERROR\x02\xc3\xa9");
}

/// Tell a server what the ZAP handler said about a client.
fn decide(client_public: CurvePublicKey, reply: Option<ZapResponse>) -> ZapAction {
    let mut server = CurveServer::new(CurveKeyPair::generate());
    curve_server_handshake_zap(
        &mut server,
        ZapEvent::Replied {
            client_public,
            reply,
        },
    )
    .unwrap()
}

#[test]
fn only_success_lets_a_client_in() {
    let key = CurvePublicKey::from_bytes([7u8; 32]);
    let reply = |status_code| {
        Some(ZapResponse {
            status_code,
            status_text: String::from("because"),
        })
    };
    assert!(matches!(
        decide(key, reply(ZapStatus::Success)),
        ZapAction::Accept { client_public } if client_public == key
    ));
    for status in [
        ZapStatus::TemporaryError,
        ZapStatus::AuthenticationFailure,
        ZapStatus::InternalError,
    ] {
        match decide(key, reply(status)) {
            ZapAction::Refuse(refusal) => {
                assert_eq!(refusal.error, ZmtpError::AuthenticationFailed);
                assert_eq!(refusal.frame, zmtp_error_frame("because"));
            }
            _ => panic!("only success lets a client in"),
        }
    }
}

#[test]
fn an_unreachable_handler_lets_nobody_in_and_the_client_is_told() {
    let key = CurvePublicKey::from_bytes([7u8; 32]);
    match decide(key, None) {
        ZapAction::Refuse(refusal) => {
            assert_eq!(refusal.error, ZmtpError::AuthenticationFailed);
            assert_eq!(
                refusal.frame.as_ref(),
                b"\x04\x1c\x05ERROR\x15Authentication failed"
            );
        }
        _ => panic!("nobody vouched for the client"),
    }
}

#[test]
fn the_handler_is_asked_about_the_client_that_completed_the_handshake() {
    let server_keypair = CurveKeyPair::generate();
    let client_keypair = CurveKeyPair::generate();
    let mut client = CurveClient::new(client_keypair.clone(), server_keypair.public);
    let mut server = CurveServer::new(server_keypair);

    let mut client_step = ClientStep::Start;
    let mut client_received = Vec::new();
    let mut asked = false;
    let mut to_client: Vec<u8> = Vec::new();
    let mut to_server: Vec<u8> = Vec::new();
    let mut event = ZapEvent::Performed {
        step: ServerStep::Start,
        received: Vec::new(),
    };
    loop {
        event = match curve_server_handshake_zap(&mut server, event).unwrap() {
            ZapAction::Write { command, next } => {
                to_client.extend(command);
                ZapEvent::Performed {
                    step: next,
                    received: Vec::new(),
                }
            }
            ZapAction::Read { len, next } => {
                while to_server.len() < len {
                    let (step, action) = client.handshake(client_step, &client_received).unwrap();
                    client_step = step;
                    client_received = Vec::new();
                    match action {
                        HandshakeAction::Write(command) => to_server.extend(command),
                        HandshakeAction::Read(wanted) => {
                            client_received = to_client.drain(..wanted).collect();
                        }
                        HandshakeAction::Finish(()) => panic!("the client cannot be done yet"),
                    }
                }
                ZapEvent::Performed {
                    step: next,
                    received: to_server.drain(..len).collect(),
                }
            }
            ZapAction::Ask { client_public } => {
                assert_eq!(client_public, client_keypair.public);
                assert_eq!(server.client_public, Some(client_public));
                asked = true;
                ZapEvent::Replied {
                    client_public,
                    reply: Some(ZapResponse {
                        status_code: ZapStatus::Success,
                        status_text: String::from("OK"),
                    }),
                }
            }
            ZapAction::Accept { client_public } => {
                assert!(asked);
                assert_eq!(server.client_public, Some(client_public));
                assert!(server.session_cipher.is_some());
                break;
            }
            ZapAction::Refuse(_) => panic!("the handler said success"),
        };
    }
}

#[test]
fn a_failed_handshake_ends_before_the_handler_is_asked() {
    let mut server = CurveServer::new(CurveKeyPair::generate());
    let result = curve_server_handshake_zap(
        &mut server,
        ZapEvent::Performed {
            step: ServerStep::HelloName,
            received: b"\x05HELLP".to_vec(),
        },
    );
    assert!(matches!(result, Err(ZmtpError::Protocol)));
}

#[test]
fn zap_request_carries_what_it_was_given() {
    let key = CurvePublicKey::from_bytes([7u8; 32]);
    let request = create_curve_zap_request(
        "id",
        String::from("domain"),
        "address",
        Bytes::from_static(b"identity"),
        &key,
    );
    assert_eq!(request.request_id, "id");
    assert_eq!(request.domain, "domain");
    assert_eq!(request.address, "address");
    assert_eq!(request.identity.as_ref(), b"identity");
    assert_eq!(request.credentials, vec![Bytes::copy_from_slice(&[7u8; 32])]);

    let plain = ZapRequest::new(
        "id",
        "domain",
        "address",
        Bytes::new(),
        ZapMechanism::Plain,
        vec![Bytes::from_static(b"user"), Bytes::from_static(b"password")],
    );
    assert_eq!(plain.mechanism, ZapMechanism::Plain);
    assert_eq!(plain.credentials.len(), 2);
}

#[test]
fn the_handler_gets_as_long_as_the_connection_or_five_seconds() {
    assert_eq!(zap_timeout(None), (5, 0));
    assert_eq!(zap_timeout(Some((0, 250_000_000))), (0, 250_000_000));
    assert_eq!(zap_timeout(Some((30, 0))), (30, 0));
}

#[test]
fn command_names_must_match_exactly() {
    assert_eq!(read_command_prefix(b"\x05HELLO", b"\x05HELLO"), Ok(()));
    assert_eq!(
        read_command_prefix(b"\x05HELL0", b"\x05HELLO"),
        Err(ZmtpError::Protocol)
    );
    assert_eq!(
        read_command_prefix(b"\x05HELL", b"\x05HELLO"),
        Err(ZmtpError::Protocol)
    );
}
