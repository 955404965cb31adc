//! The CURVE mechanism.

use bytes::{Bytes, BytesMut};
use monocoque_zmtp::codec::ZmtpError;
use monocoque_zmtp::security::curve::cipher::CurveBox;
use monocoque_zmtp::security::curve::client::ClientStep;
use monocoque_zmtp::security::curve::message::CurveSessionCipher;
use monocoque_zmtp::security::curve::server::ServerStep;
use monocoque_zmtp::security::curve::step::HandshakeAction;
use monocoque_zmtp::security::curve::wire::{
    CURVE_HELLO, CURVE_INITIATE, CURVE_MESSAGE, CURVE_READY,
};
use monocoque_zmtp::security::curve::{
    create_curve_zap_request, CurveClient, CurveError, CurveKeyPair, CurvePublicKey,
    CurveSecretKey, CurveServer, CurveSharedSecret, CURVE_BOX_OVERHEAD, CURVE_KEY_SIZE,
    CURVE_NONCE_SIZE,
};
use monocoque_zmtp::security::zap::ZapMechanism;
use std::collections::VecDeque;

fn rfc_curve_hello(version: [u8; 2], client_short_public: &[u8; CURVE_KEY_SIZE]) -> Vec<u8> {
    let mut hello = Vec::new();
    hello.extend_from_slice(&CURVE_HELLO);
    hello.extend_from_slice(&version);
    hello.extend_from_slice(&[0u8; 72]);
    hello.extend_from_slice(client_short_public);
    hello.extend_from_slice(&[0u8; 8]);
    hello.extend_from_slice(&[0u8; 80]);
    hello
}

/// Let a fresh server read `command` until it answers or fails.
fn server_recv_hello_result(command: Vec<u8>) -> Result<(), ZmtpError> {
    let mut server = CurveServer::new(CurveKeyPair::generate());
    let (step, action) = server.handshake(ServerStep::Start, &[])?;
    let name_len = match action {
        HandshakeAction::Read(len) => len,
        _ => panic!("a server starts by reading"),
    };
    let (step, action) = server.handshake(step, &command[..name_len])?;
    let body_len = match action {
        HandshakeAction::Read(len) => len,
        _ => panic!("a server reads all of HELLO"),
    };
    assert_eq!(name_len + body_len, command.len());
    server.handshake(step, &command[name_len..])?;
    Ok(())
}

fn rfc_curve_initiate() -> Vec<u8> {
    let mut initiate = Vec::new();
    initiate.extend_from_slice(&CURVE_INITIATE);
    initiate.extend_from_slice(&[0u8; 96]);
    initiate.extend_from_slice(&[0u8; 8]);
    initiate.extend_from_slice(&[0u8; 144]);
    initiate
}

fn server_recv_initiate_result(command: Vec<u8>, hello_completed: bool) -> Result<(), ZmtpError> {
    let mut server = CurveServer::new(CurveKeyPair::generate());
    if hello_completed {
        server.client_short_public = Some(CurveKeyPair::generate().public);
    }
    assert_eq!(command[..9], CURVE_INITIATE);
    server.recv_initiate(&command[9..105], &command[105..113], &command[113..])
}

fn curve_box(shared_secret: [u8; CURVE_KEY_SIZE]) -> CurveBox {
    let shared_secret = CurveSharedSecret::from_bytes(shared_secret);
    CurveBox::new(&shared_secret)
}

fn client_session_cipher(shared_secret: &[u8; CURVE_KEY_SIZE]) -> CurveSessionCipher {
    CurveSessionCipher::new(
        CurveSharedSecret::from_bytes(*shared_secret),
        *b"CurveZMQMESSAGEC",
        *b"CurveZMQMESSAGES",
    )
}

fn server_session_cipher(shared_secret: &[u8; CURVE_KEY_SIZE]) -> CurveSessionCipher {
    CurveSessionCipher::new(
        CurveSharedSecret::from_bytes(*shared_secret),
        *b"CurveZMQMESSAGES",
        *b"CurveZMQMESSAGEC",
    )
}

/// How one side of a handshake ended; nothing if it was left waiting for the other.
type Ending<T> = Option<Result<T, ZmtpError>>;

/// Run a handshake between two sides over two in-memory pipes.
fn run_handshake(
    client: &mut CurveClient,
    server: &mut CurveServer,
) -> (Ending<()>, Ending<CurvePublicKey>) {
    let mut to_server: VecDeque<u8> = VecDeque::new();
    let mut to_client: VecDeque<u8> = VecDeque::new();
    let mut client_end: Ending<()> = None;
    let mut server_end: Ending<CurvePublicKey> = None;
    let mut client_state = Some((ClientStep::Start, 0usize));
    let mut server_state = Some((ServerStep::Start, 0usize));

    loop {
        let mut progress = false;
        if let Some((step, wanted)) = client_state.take() {
            if to_client.len() < wanted {
                client_state = Some((step, wanted));
            } else {
                progress = true;
                let received: Vec<u8> = to_client.drain(..wanted).collect();
                match client.handshake(step, &received) {
                    Ok((next, HandshakeAction::Write(command))) => {
                        to_server.extend(command);
                        client_state = Some((next, 0));
                    }
                    Ok((next, HandshakeAction::Read(len))) => client_state = Some((next, len)),
                    Ok((_, HandshakeAction::Finish(()))) => client_end = Some(Ok(())),
                    Err(error) => client_end = Some(Err(error)),
                }
            }
        }
        if let Some((step, wanted)) = server_state.take() {
            if to_server.len() < wanted {
                server_state = Some((step, wanted));
            } else {
                progress = true;
                let received: Vec<u8> = to_server.drain(..wanted).collect();
                match server.handshake(step, &received) {
                    Ok((next, HandshakeAction::Write(command))) => {
                        to_client.extend(command);
                        server_state = Some((next, 0));
                    }
                    Ok((next, HandshakeAction::Read(len))) => server_state = Some((next, len)),
                    Ok((_, HandshakeAction::Finish(key))) => server_end = Some(Ok(key)),
                    Err(error) => server_end = Some(Err(error)),
                }
            }
        }
        if !progress {
            return (client_end, server_end);
        }
    }
}

#[test]
fn test_keypair_generation() {
    let keypair = CurveKeyPair::generate();
    assert_eq!(keypair.public.as_bytes().len(), CURVE_KEY_SIZE);

    // Verify public key matches secret key
    let derived_public = keypair.secret.public_key();
    assert_eq!(keypair.public, derived_public);
}

#[test]
fn curve_keypair_rejects_public_key_that_does_not_match_secret_key() {
    let public = CurveKeyPair::generate().public;
    let secret = CurveSecretKey::generate();
    let keypair = CurveKeyPair::from_keys(public, secret);

    assert_eq!(
        keypair.public,
        keypair.secret.public_key(),
        "CURVE keypair accepted a public key that does not match its secret key"
    );
}

#[test]
fn test_diffie_hellman() {
    let alice = CurveKeyPair::generate();
    let bob = CurveKeyPair::generate();

    let alice_shared = alice.secret.diffie_hellman(&bob.public).unwrap();
    let bob_shared = bob.secret.diffie_hellman(&alice.public).unwrap();

    assert_eq!(alice_shared.as_bytes(), bob_shared.as_bytes());
}

#[test]
fn diffie_hellman_rejects_non_contributory_peer_public_key() {
    let secret = CurveSecretKey::generate();
    let low_order_public = CurvePublicKey::from_bytes([0u8; CURVE_KEY_SIZE]);

    let shared = secret.diffie_hellman(&low_order_public);

    assert!(
        shared.is_err(),
        "CURVE accepted a non-contributory X25519 peer key and produced an all-zero shared secret"
    );
}

#[test]
fn test_curve_box_encrypt_decrypt() {
    let box_ = curve_box([42u8; CURVE_KEY_SIZE]);

    let plaintext = b"Hello, CURVE!";
    let nonce = [1u8; CURVE_NONCE_SIZE];

    let ciphertext = box_.encrypt(plaintext, &nonce).unwrap();
    let decrypted = box_.decrypt(&ciphertext, &nonce).unwrap();

    assert_eq!(plaintext, decrypted.as_slice());
}

#[test]
fn curve_box_uses_message_counter_bytes_in_aead_nonce() {
    let box_ = curve_box([42u8; CURVE_KEY_SIZE]);
    let plaintext = b"same plaintext";

    let mut nonce_one = [0u8; CURVE_NONCE_SIZE];
    nonce_one[..16].copy_from_slice(b"CurveZMQMESSAGEC");
    nonce_one[16..].copy_from_slice(&1u64.to_be_bytes());

    let mut nonce_two = [0u8; CURVE_NONCE_SIZE];
    nonce_two[..16].copy_from_slice(b"CurveZMQMESSAGEC");
    nonce_two[16..].copy_from_slice(&2u64.to_be_bytes());

    let ciphertext_one = box_.encrypt(plaintext, &nonce_one).unwrap();
    let ciphertext_two = box_.encrypt(plaintext, &nonce_two).unwrap();

    assert_ne!(
        ciphertext_one, ciphertext_two,
        "CURVE encryption ignored the message counter bytes and reused the AEAD nonce"
    );
}

#[test]
fn curve_server_rejects_hello_with_unsupported_version() {
    let client_short = CurveKeyPair::generate();
    let hello = rfc_curve_hello([2, 0], client_short.public.as_bytes());
    let result = server_recv_hello_result(hello);
    assert!(
        result.is_err(),
        "CURVE server accepted a HELLO command with an unsupported version byte"
    );
}

#[test]
fn curve_server_rejects_hello_with_all_zero_client_short_key() {
    let hello = rfc_curve_hello([1, 0], &[0u8; CURVE_KEY_SIZE]);
    let result = server_recv_hello_result(hello);
    assert!(
        result.is_err(),
        "CURVE server accepted an all-zero client short-term public key in HELLO"
    );
}

#[test]
fn curve_server_rejects_hello_without_client_proof() {
    let client_short = CurveKeyPair::generate();
    let hello = rfc_curve_hello([1, 0], client_short.public.as_bytes());
    let result = server_recv_hello_result(hello);
    assert!(
        result.is_err(),
        "CURVE server accepted a HELLO command with an all-zero unauthenticated client proof"
    );
}

#[test]
fn curve_server_rejects_initiate_without_client_proof() {
    let initiate = rfc_curve_initiate();
    let result = server_recv_initiate_result(initiate, true);
    assert!(
        result.is_err(),
        "CURVE server accepted an INITIATE command with an all-zero unauthenticated client proof"
    );
}

#[test]
fn curve_server_rejects_initiate_before_hello() {
    let initiate = rfc_curve_initiate();
    let result = server_recv_initiate_result(initiate, false);
    assert!(
        result.is_err(),
        "CURVE server accepted INITIATE before a HELLO established the client short-term key"
    );
}

#[test]
fn client_decrypt_message_accepts_valid_curve_message_command_header() {
    let box_ = curve_box([42u8; CURVE_KEY_SIZE]);

    let mut nonce = [0u8; CURVE_NONCE_SIZE];
    nonce[..16].copy_from_slice(b"CurveZMQMESSAGES");
    nonce[16..].copy_from_slice(&1u64.to_be_bytes());

    let ciphertext = box_.encrypt(b"server message", &nonce).unwrap();
    let mut frame = BytesMut::new();
    frame.extend_from_slice(&CURVE_MESSAGE);
    frame.extend_from_slice(&nonce[16..]);
    frame.extend_from_slice(&ciphertext);

    let client_keypair = CurveKeyPair::generate();
    let server_public = CurveKeyPair::generate().public;
    let mut client = CurveClient::new(client_keypair, server_public);
    client.session_cipher = Some(client_session_cipher(&[42u8; CURVE_KEY_SIZE]));

    let plaintext = client.decrypt_message(&frame).unwrap();

    assert_eq!(plaintext.as_ref(), b"server message");
}

#[test]
fn decrypt_message_rejects_replayed_message_counter() {
    let box_ = curve_box([42u8; CURVE_KEY_SIZE]);

    let mut nonce = [0u8; CURVE_NONCE_SIZE];
    nonce[..16].copy_from_slice(b"CurveZMQMESSAGES");
    nonce[16..].copy_from_slice(&1u64.to_be_bytes());

    let ciphertext = box_.encrypt(b"server message", &nonce).unwrap();
    let mut frame = BytesMut::new();
    frame.extend_from_slice(&CURVE_MESSAGE);
    frame.extend_from_slice(&nonce[16..]);
    frame.extend_from_slice(&ciphertext);

    let client_keypair = CurveKeyPair::generate();
    let server_public = CurveKeyPair::generate().public;
    let mut client = CurveClient::new(client_keypair, server_public);
    client.session_cipher = Some(client_session_cipher(&[42u8; CURVE_KEY_SIZE]));

    client.decrypt_message(&frame).unwrap();
    let replay_result = client.decrypt_message(&frame);

    assert!(
        replay_result.is_err(),
        "CURVE accepted the same encrypted MESSAGE counter twice"
    );
}

#[test]
fn curve_client_rejects_handshake_from_unconfigured_server_key() {
    let expected_server = CurveKeyPair::generate();
    let attacker_server = CurveKeyPair::generate();
    let client_keypair = CurveKeyPair::generate();

    let mut server = CurveServer::new(attacker_server);
    let mut client = CurveClient::new(client_keypair, expected_server.public);
    let (client_end, server_end) = run_handshake(&mut client, &mut server);

    assert!(
        !matches!(client_end, Some(Ok(()))),
        "CURVE client completed a handshake with a server whose key did not match the configured server public key"
    );
    assert!(client.session_cipher.is_none());
    assert_eq!(server_end, Some(Err(ZmtpError::Protocol)));
}

#[test]
fn curve_client_server_handshake_completes_with_expected_server_key() {
    let server_keypair = CurveKeyPair::generate();
    let expected_server_public = server_keypair.public;
    let client_keypair = CurveKeyPair::generate();

    let mut server = CurveServer::new(server_keypair);
    let mut client = CurveClient::new(client_keypair.clone(), expected_server_public);
    let (client_end, server_end) = run_handshake(&mut client, &mut server);

    client_end
        .expect("client should not be left waiting")
        .expect("client should complete CURVE handshake with the expected server key");
    let client_public = server_end
        .expect("server should not be left waiting")
        .expect("server should complete CURVE handshake");
    assert_eq!(client_public, client_keypair.public);
}

#[test]
fn curve_client_rejects_ready_without_server_proof() {
    let client_keypair = CurveKeyPair::generate();
    let server_keypair = CurveKeyPair::generate();
    let mut client = CurveClient::new(client_keypair, server_keypair.public);
    client.server_short_public = Some(server_keypair.public);

    let (step, action) = client
        .handshake(ClientStep::InitiateWritten, &[])
        .unwrap();
    assert!(matches!(action, HandshakeAction::Read(6)));
    let (step, action) = client.handshake(step, &CURVE_READY).unwrap();
    assert!(matches!(action, HandshakeAction::Read(8)));
    // The connection ends here: there is no nonce to hand over.
    let result = client.handshake(step, &[]);

    assert!(
        result.is_err(),
        "CURVE client accepted a bare READY command without authenticated server proof"
    );
    assert!(client.session_cipher.is_none());
}

#[test]
fn server_decrypt_message_accepts_valid_curve_message_command_header() {
    let box_ = curve_box([43u8; CURVE_KEY_SIZE]);

    let mut nonce = [0u8; CURVE_NONCE_SIZE];
    nonce[..16].copy_from_slice(b"CurveZMQMESSAGEC");
    nonce[16..].copy_from_slice(&2u64.to_be_bytes());

    let ciphertext = box_.encrypt(b"client message", &nonce).unwrap();
    let mut frame = BytesMut::new();
    frame.extend_from_slice(&CURVE_MESSAGE);
    frame.extend_from_slice(&nonce[16..]);
    frame.extend_from_slice(&ciphertext);

    let server_keypair = CurveKeyPair::generate();
    let mut server = CurveServer::new(server_keypair);
    server.session_cipher = Some(server_session_cipher(&[43u8; CURVE_KEY_SIZE]));

    let plaintext = server.decrypt_message(&frame).unwrap();

    assert_eq!(plaintext.as_ref(), b"client message");
}

#[test]
fn decrypt_message_rejects_invalid_curve_message_command_header() {
    let client_keypair = CurveKeyPair::generate();
    let server_public = CurveKeyPair::generate().public;
    let mut client = CurveClient::new(client_keypair, server_public);
    client.session_cipher = Some(client_session_cipher(&[42u8; CURVE_KEY_SIZE]));

    let mut frame = BytesMut::new();
    frame.extend_from_slice(b"\x05READY");
    frame.extend_from_slice(&1u64.to_be_bytes());
    frame.extend_from_slice(&[0u8; CURVE_BOX_OVERHEAD]);

    assert!(matches!(
        client.decrypt_message(&frame),
        Err(CurveError::ProtocolViolation)
    ));
}

#[test]
fn decrypt_message_rejects_missing_curve_message_nonce() {
    let client_keypair = CurveKeyPair::generate();
    let server_public = CurveKeyPair::generate().public;
    let mut client = CurveClient::new(client_keypair, server_public);
    client.session_cipher = Some(client_session_cipher(&[42u8; CURVE_KEY_SIZE]));

    assert!(matches!(
        client.decrypt_message(&CURVE_MESSAGE),
        Err(CurveError::ProtocolViolation)
    ));
}

#[test]
fn test_curve_zap_request() {
    let keypair = CurveKeyPair::generate();
    let request = create_curve_zap_request(
        "req123",
        "production",
        "192.168.1.100:5555",
        Bytes::from("client1"),
        &keypair.public,
    );

    assert_eq!(request.mechanism, ZapMechanism::Curve);
    assert_eq!(request.credentials.len(), 1);
    assert_eq!(request.credentials[0].len(), CURVE_KEY_SIZE);
}
