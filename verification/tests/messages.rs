//! MESSAGE commands after the handshake.

use monocoque_zmtp::security::curve::cipher::CurveBox;
use monocoque_zmtp::security::curve::error::CurveError;
use monocoque_zmtp::security::curve::message::{
    is_receivable, is_sendable, CurveMessageFrame, CurveSessionCipher,
};
use monocoque_zmtp::security::curve::{CurveClient, CurveKeyPair, CurveServer, CurveSharedSecret};

const KEY: [u8; 32] = [42u8; 32];

fn client() -> CurveSessionCipher {
    CurveSessionCipher::new(
        CurveSharedSecret::from_bytes(KEY),
        *b"CurveZMQMESSAGEC",
        *b"CurveZMQMESSAGES",
    )
}

fn server() -> CurveSessionCipher {
    CurveSessionCipher::new(
        CurveSharedSecret::from_bytes(KEY),
        *b"CurveZMQMESSAGES",
        *b"CurveZMQMESSAGEC",
    )
}

/// A MESSAGE command from the client with a counter of choice.
fn command(counter: u64, plaintext: &[u8]) -> Vec<u8> {
    let mut nonce = [0u8; 24];
    nonce[..16].copy_from_slice(b"CurveZMQMESSAGEC");
    nonce[16..].copy_from_slice(&counter.to_be_bytes());
    let sealed = CurveBox::new(&CurveSharedSecret::from_bytes(KEY))
        .encrypt(plaintext, &nonce)
        .unwrap();
    let mut command = b"\x07MESSAGE".to_vec();
    command.extend_from_slice(&counter.to_be_bytes());
    command.extend_from_slice(&sealed);
    command
}

#[test]
fn commands_count_up_from_zero() {
    let mut sender = client();
    for counter in 0..300u64 {
        let sent = sender.encrypt_message(b"tick").unwrap();
        assert_eq!(sent.as_ref(), command(counter, b"tick"));
        assert_eq!(sent.len(), 8 + 8 + 4 + 16);
    }
    // 299 in big-endian order.
    let last = command(299, b"tick");
    assert_eq!(last[8..16], [0, 0, 0, 0, 0, 0, 1, 43]);
}

#[test]
fn messages_are_read_back_in_both_directions() {
    let mut left = client();
    let mut right = server();
    for text in [b"".as_slice(), b"one", b"another"] {
        let sent = left.encrypt_message(text).unwrap();
        assert_eq!(right.decrypt_message(&sent).unwrap().as_ref(), text);
        let answer = right.encrypt_message(text).unwrap();
        assert_eq!(left.decrypt_message(&answer).unwrap().as_ref(), text);
    }
}

#[test]
fn lost_messages_do_not_stop_later_ones() {
    let mut receiver = server();
    assert_eq!(receiver.decrypt_message(&command(3, b"c")).unwrap().as_ref(), b"c");
    assert_eq!(receiver.decrypt_message(&command(9, b"i")).unwrap().as_ref(), b"i");
    assert_eq!(receiver.decrypt_message(&command(10, b"j")).unwrap().as_ref(), b"j");
}

#[test]
fn replayed_and_late_messages_are_violations() {
    let mut receiver = server();
    let replayed = command(4, b"d");
    receiver.decrypt_message(&replayed).unwrap();
    receiver.decrypt_message(&command(8, b"h")).unwrap();
    for late in [replayed, command(7, b"g"), command(8, b"h")] {
        assert!(matches!(
            receiver.decrypt_message(&late),
            Err(CurveError::ProtocolViolation)
        ));
    }
}

#[test]
fn sends_in_between_do_not_weaken_replay_protection() {
    let mut left = client();
    let mut right = server();
    let replayed = left.encrypt_message(b"first").unwrap();
    assert_eq!(right.decrypt_message(&replayed).unwrap().as_ref(), b"first");
    for _ in 0..5 {
        let answer = right.encrypt_message(b"answer").unwrap();
        assert!(matches!(
            right.decrypt_message(&replayed),
            Err(CurveError::ProtocolViolation)
        ));
        assert_eq!(left.decrypt_message(&answer).unwrap().as_ref(), b"answer");
        let _lost = left.encrypt_message(b"lost").unwrap();
        let next = left.encrypt_message(b"next").unwrap();
        assert_eq!(right.decrypt_message(&next).unwrap().as_ref(), b"next");
    }
}

#[test]
fn a_forged_command_with_a_huge_counter_blocks_nothing() {
    let mut receiver = server();
    let mut forged = command(u64::MAX - 1, b"forged");
    forged[16] ^= 1;
    assert!(matches!(
        receiver.decrypt_message(&forged),
        Err(CurveError::DecryptionFailed)
    ));
    assert_eq!(receiver.decrypt_message(&command(0, b"a")).unwrap().as_ref(), b"a");
}

#[test]
fn refused_commands_leave_the_session_as_it_was() {
    let mut receiver = server();
    let mut tampered = command(5, b"e");
    let last = tampered.len() - 1;
    tampered[last] ^= 1;
    assert!(matches!(
        receiver.decrypt_message(&tampered),
        Err(CurveError::DecryptionFailed)
    ));
    assert!(matches!(
        receiver.decrypt_message(b"\x07MESSAGF........"),
        Err(CurveError::ProtocolViolation)
    ));
    assert_eq!(receiver.decrypt_message(&command(0, b"a")).unwrap().as_ref(), b"a");
}

#[test]
fn the_last_counter_is_never_accepted() {
    let mut receiver = server();
    assert!(matches!(
        receiver.decrypt_message(&command(u64::MAX, b"end")),
        Err(CurveError::ProtocolViolation)
    ));
    let before_last = command(u64::MAX - 1, b"end");
    assert_eq!(receiver.decrypt_message(&before_last).unwrap().as_ref(), b"end");
}

#[test]
fn a_message_does_not_pass_for_one_of_the_other_direction() {
    let mut left = client();
    let mut also_left = client();
    let sent = left.encrypt_message(b"mine").unwrap();
    assert!(matches!(
        also_left.decrypt_message(&sent),
        Err(CurveError::DecryptionFailed)
    ));
}

#[test]
fn frames_are_split_after_the_counter() {
    let bytes = b"\x07MESSAGE\x01\x02\x03\x04\x05\x06\x07\x08sealed";
    let frame = CurveMessageFrame::parse(bytes).unwrap();
    assert_eq!(frame.counter, 0x0102_0304_0506_0708);
    assert_eq!(frame.ciphertext, b"sealed");

    let empty = CurveMessageFrame::parse(&bytes[..16]).unwrap();
    assert!(empty.ciphertext.is_empty());
    assert!(matches!(
        CurveMessageFrame::parse(&bytes[..15]),
        Err(CurveError::ProtocolViolation)
    ));
    let mut wrong = bytes.to_vec();
    wrong[0] = 8;
    assert!(matches!(
        CurveMessageFrame::parse(&wrong),
        Err(CurveError::ProtocolViolation)
    ));
}

#[test]
fn nothing_is_sealed_or_opened_before_the_handshake() {
    let mut fresh_client =
        CurveClient::new(CurveKeyPair::generate(), CurveKeyPair::generate().public);
    let mut fresh_server = CurveServer::new(CurveKeyPair::generate());
    assert!(matches!(
        fresh_client.encrypt_message(b"early"),
        Err(CurveError::ProtocolViolation)
    ));
    assert!(matches!(
        fresh_client.decrypt_message(&command(0, b"early")),
        Err(CurveError::ProtocolViolation)
    ));
    assert!(matches!(
        fresh_server.encrypt_message(b"early"),
        Err(CurveError::ProtocolViolation)
    ));
    assert!(matches!(
        fresh_server.decrypt_message(&command(0, b"early")),
        Err(CurveError::ProtocolViolation)
    ));
}

#[test]
fn length_limits() {
    assert!(is_sendable(0));
    assert!(is_sendable(1 << 20));
    assert!(!is_sendable(usize::MAX));
    assert!(is_receivable(0));
    assert!(is_receivable(1 << 20));
    if usize::BITS == 64 {
        assert!(is_sendable(0x3f_ffff_ff80));
        assert!(!is_sendable(0x3f_ffff_ff81));
        assert!(!is_sendable(0x3f_ffff_ffbf));
        assert!(is_sendable(0x3f_ffff_ffc0));
        assert!(is_receivable(0x3f_ffff_ffa0));
        assert!(!is_receivable(0x3f_ffff_ffa1));
        assert!(!is_receivable(0x3f_ffff_ffdf));
        assert!(is_receivable(0x3f_ffff_ffe0));
    }
}
