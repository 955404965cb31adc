//! Keys, boxes and nonces.

use chacha20poly1305::aead::{Aead, KeyInit};
use chacha20poly1305::{ChaCha20Poly1305, Nonce};
use monocoque_zmtp::security::curve::cipher::{is_decryptable, is_encryptable, CurveBox};
use monocoque_zmtp::security::curve::error::CurveError;
use monocoque_zmtp::security::curve::wire::{
    all_zero, counter_from_bytes, counter_to_bytes, full_nonce, random_nonce, same_bytes, to_array, CURVE_CLIENT_MESSAGE_PREFIX,
    CURVE_COOKIE_NONCE_PREFIX, CURVE_HELLO, CURVE_HELLO_NONCE_PREFIX, CURVE_INITIATE,
    CURVE_INITIATE_NONCE_PREFIX, CURVE_MESSAGE, CURVE_READY, CURVE_READY_NONCE_PREFIX,
    CURVE_SERVER_MESSAGE_PREFIX, CURVE_VOUCH_NONCE_PREFIX, CURVE_WELCOME,
    CURVE_WELCOME_NONCE_PREFIX,
};
use monocoque_zmtp::security::curve::{
    CurveKeyPair, CurvePublicKey, CurveSecretKey, CurveSharedSecret, CURVE_BOX_OVERHEAD,
    CURVE_KEY_SIZE, CURVE_NONCE_SIZE,
};
use x25519_dalek::{x25519, PublicKey, X25519_BASEPOINT_BYTES};

#[test]
fn sizes_are_those_of_the_protocol() {
    assert_eq!(CURVE_KEY_SIZE, 32);
    assert_eq!(CURVE_NONCE_SIZE, 24);
    assert_eq!(CURVE_BOX_OVERHEAD, 16);
}

#[test]
fn names_and_prefixes_spell_what_they_should() {
    assert_eq!(&CURVE_HELLO, b"\x05HELLO");
    assert_eq!(&CURVE_WELCOME, b"\x07WELCOME");
    assert_eq!(&CURVE_INITIATE, b"\x08INITIATE");
    assert_eq!(&CURVE_READY, b"\x05READY");
    assert_eq!(&CURVE_MESSAGE, b"\x07MESSAGE");
    assert_eq!(&CURVE_HELLO_NONCE_PREFIX, b"CurveZMQHELLO---");
    assert_eq!(&CURVE_WELCOME_NONCE_PREFIX, b"WELCOME-");
    assert_eq!(&CURVE_COOKIE_NONCE_PREFIX, b"COOKIE--");
    assert_eq!(&CURVE_INITIATE_NONCE_PREFIX, b"CurveZMQINITIATE");
    assert_eq!(&CURVE_VOUCH_NONCE_PREFIX, b"VOUCH---");
    assert_eq!(&CURVE_READY_NONCE_PREFIX, b"CurveZMQREADY---");
    assert_eq!(&CURVE_CLIENT_MESSAGE_PREFIX, b"CurveZMQMESSAGEC");
    assert_eq!(&CURVE_SERVER_MESSAGE_PREFIX, b"CurveZMQMESSAGES");
}

#[test]
fn public_key_is_the_x25519_public_key() {
    let secret = [7u8; 32];
    let expected = x25519(secret, X25519_BASEPOINT_BYTES);
    assert_ne!(expected, secret);
    assert_eq!(
        CurveSecretKey::from_bytes(secret).public_key().as_bytes(),
        &expected
    );
}

#[test]
fn diffie_hellman_is_x25519() {
    let peer = CurveSecretKey::from_bytes([9u8; 32]).public_key();
    let shared = CurveSecretKey::from_bytes([7u8; 32])
        .diffie_hellman(&peer)
        .unwrap();
    assert_eq!(shared.as_bytes(), &x25519([7u8; 32], *peer.as_bytes()));
}

#[test]
fn diffie_hellman_refuses_low_order_keys_as_a_violation() {
    // The point of order two, and one of order four.
    let mut order_four = [0u8; 32];
    order_four[0] = 1;
    for low in [[0u8; 32], order_four] {
        let result = CurveSecretKey::generate().diffie_hellman(&CurvePublicKey::from_bytes(low));
        assert!(matches!(result, Err(CurveError::ProtocolViolation)));
    }
}

#[test]
fn public_keys_convert_and_compare_by_their_bytes() {
    let bytes = [3u8; 32];
    let key = CurvePublicKey::from_bytes(bytes);
    assert_eq!(key.as_bytes(), &bytes);
    assert_eq!(key.as_ref(), &bytes);
    assert_eq!(CurvePublicKey::from(bytes), key);
    assert_eq!(key.to_x25519(), PublicKey::from(bytes));
    assert_eq!(CurvePublicKey::from(PublicKey::from(bytes)), key);
    let mut other = bytes;
    other[31] = 4;
    assert_ne!(CurvePublicKey::from_bytes(other), key);
}

#[test]
fn from_keys_ignores_the_given_public_key() {
    let secret = CurveSecretKey::from_bytes([5u8; 32]);
    let pair = CurveKeyPair::from_keys(CurvePublicKey::from_bytes([0u8; 32]), secret.clone());
    assert_eq!(pair.public, secret.public_key());
    assert_eq!(pair.clone().public, pair.public);
    assert_eq!(pair.clone().secret.public_key(), pair.public);
}

#[test]
fn generated_keys_differ() {
    assert_ne!(
        CurveKeyPair::generate().public,
        CurveKeyPair::generate().public
    );
}

#[test]
fn secrets_do_not_show() {
    assert_eq!(
        CurveSecretKey::generate().redacted(),
        "CurveSecretKey([REDACTED])"
    );
    let shared = CurveSharedSecret::from_bytes([1u8; 32]);
    assert_eq!(shared.redacted(), "CurveSharedSecret([REDACTED])");
    assert_eq!(shared.clone().as_bytes(), &[1u8; 32]);
}

#[test]
fn io_errors_are_wrapped() {
    let error = CurveError::from(std::io::Error::new(std::io::ErrorKind::TimedOut, "late"));
    assert!(matches!(error, CurveError::Io(inner) if inner.kind() == std::io::ErrorKind::TimedOut));
}

#[test]
fn box_is_chacha20poly1305_under_the_last_twelve_nonce_bytes() {
    let key = [42u8; 32];
    let mut nonce = [0u8; 24];
    for (i, byte) in nonce.iter_mut().enumerate() {
        *byte = i as u8;
    }
    let sealed = CurveBox::new(&CurveSharedSecret::from_bytes(key))
        .encrypt(b"plain", &nonce)
        .unwrap();
    let expected = ChaCha20Poly1305::new(&key.into())
        .encrypt(Nonce::from_slice(&nonce[12..]), b"plain".as_slice())
        .unwrap();
    assert_eq!(sealed, expected);
    assert_eq!(sealed.len(), 5 + CURVE_BOX_OVERHEAD);
}

#[test]
fn box_opens_only_what_was_sealed() {
    let nonce = [1u8; 24];
    let cipher = CurveBox::new(&CurveSharedSecret::from_bytes([42u8; 32]));
    let mut sealed = cipher.encrypt(b"plain", &nonce).unwrap();
    assert_eq!(cipher.decrypt(&sealed, &nonce).unwrap(), b"plain");

    let other_key = CurveBox::new(&CurveSharedSecret::from_bytes([43u8; 32]));
    assert!(matches!(
        other_key.decrypt(&sealed, &nonce),
        Err(CurveError::DecryptionFailed)
    ));
    assert!(matches!(
        cipher.decrypt(&sealed, &[2u8; 24]),
        Err(CurveError::DecryptionFailed)
    ));
    assert!(matches!(
        cipher.decrypt(&[0u8; 15], &nonce),
        Err(CurveError::DecryptionFailed)
    ));
    sealed[0] ^= 1;
    assert!(matches!(
        cipher.decrypt(&sealed, &nonce),
        Err(CurveError::DecryptionFailed)
    ));
}

#[test]
fn the_first_half_of_a_nonce_does_not_count() {
    let cipher = CurveBox::new(&CurveSharedSecret::from_bytes([42u8; 32]));
    let seal_nonce = [1u8; 24];
    let mut open_nonce = [2u8; 24];
    open_nonce[12..].copy_from_slice(&seal_nonce[12..]);
    let sealed = cipher.encrypt(b"plain", &seal_nonce).unwrap();
    assert_eq!(cipher.decrypt(&sealed, &open_nonce).unwrap(), b"plain");
}

#[test]
fn box_length_limits() {
    assert!(is_encryptable(0));
    assert!(!is_encryptable(usize::MAX));
    assert!(is_decryptable(0));
    if usize::BITS == 64 {
        assert!(is_encryptable(0x3f_ffff_ff80));
        assert!(!is_encryptable(0x3f_ffff_ff81));
        assert!(!is_encryptable(0x3f_ffff_ffbf));
        assert!(is_encryptable(0x3f_ffff_ffc0));
        assert!(is_decryptable(0x3f_ffff_ff90));
        assert!(!is_decryptable(0x3f_ffff_ff91));
        assert!(!is_decryptable(0x3f_ffff_ffcf));
        assert!(is_decryptable(0x3f_ffff_ffd0));
    }
}

#[test]
fn boxes_for_different_purposes_never_share_a_nonce() {
    let cipher = CurveBox::new(&CurveSharedSecret::from_bytes([42u8; 32]));
    let suffix = 7u64.to_be_bytes();
    let prefixes = [
        CURVE_CLIENT_MESSAGE_PREFIX,
        CURVE_SERVER_MESSAGE_PREFIX,
        CURVE_INITIATE_NONCE_PREFIX,
        CURVE_READY_NONCE_PREFIX,
    ];
    let boxes: Vec<Vec<u8>> = prefixes
        .iter()
        .map(|prefix| cipher.encrypt(b"", &full_nonce(prefix, &suffix)).unwrap())
        .collect();
    for i in 0..boxes.len() {
        for j in 0..i {
            assert_ne!(boxes[i], boxes[j]);
        }
    }
}

#[test]
fn random_nonce_follows_its_prefix() {
    let (suffix, nonce) = random_nonce::<8>(&CURVE_READY_NONCE_PREFIX);
    assert_eq!(nonce[..16], CURVE_READY_NONCE_PREFIX);
    assert_eq!(nonce[16..], suffix);
    let (long_suffix, long_nonce) = random_nonce::<16>(&CURVE_VOUCH_NONCE_PREFIX);
    assert_eq!(long_nonce[..8], CURVE_VOUCH_NONCE_PREFIX);
    assert_eq!(long_nonce[8..], long_suffix);
    let (other_suffix, _) = random_nonce::<16>(&CURVE_VOUCH_NONCE_PREFIX);
    assert_ne!(long_suffix, other_suffix);
}

#[test]
fn counters_are_spelled_in_big_endian_order() {
    for number in [0, 1, 255, 256, 0x0102_0304_0506_0708, u64::MAX - 1, u64::MAX] {
        assert_eq!(counter_to_bytes(number), number.to_be_bytes());
        assert_eq!(counter_from_bytes(number.to_be_bytes()), number);
    }
}

#[test]
fn byte_helpers() {
    assert!(same_bytes(b"abc", b"abc"));
    assert!(!same_bytes(b"abc", b"abd"));
    assert!(!same_bytes(b"abc", b"ab"));
    assert!(all_zero(&[0u8; 5]));
    assert!(all_zero(&[]));
    assert!(!all_zero(&[0, 0, 1]));
    assert_eq!(to_array::<3>(&[1, 2, 3]), [1, 2, 3]);
}
