//! Specifications of the cryptographic crates that CURVE is built on.
//!
//! Key agreement is X25519 as `x25519-dalek` computes it, sealing is
//! ChaCha20-Poly1305 as the `chacha20poly1305` crate computes it, and random bytes
//! come from `rand` and from the operating system. Everything in this file but the
//! spec functions with a body is trusted.

use crate::security::curve::drawn::{drawn_bytes, drawn_secret};
use crate::security::curve::wire::zeros;
use chacha20poly1305::aead::{Aead, KeyInit, OsRng};
use chacha20poly1305::{ChaCha20Poly1305, Error};
use rand::RngCore;
use vstd::prelude::*;
use x25519_dalek::{PublicKey, StaticSecret};

verus! {

/// The secret key `x25519_dalek::StaticSecret`.
#[verifier::external_type_specification]
#[verifier::external_body]
pub struct ExStaticSecret(StaticSecret);

/// The public key `x25519_dalek::PublicKey`.
#[verifier::external_type_specification]
#[verifier::external_body]
pub struct ExPublicKey(PublicKey);

/// The error `chacha20poly1305::Error`, which says only that sealing or opening failed.
#[verifier::external_type_specification]
#[verifier::external_body]
pub struct ExAeadError(Error);

/// What `StaticSecret::from` makes of 32 bytes.
pub uninterp spec fn x25519_secret(bytes: Seq<u8>) -> StaticSecret;

/// What `PublicKey::from` makes of 32 bytes.
pub uninterp spec fn x25519_public_key(bytes: Seq<u8>) -> PublicKey;

/// The public key that `PublicKey::from(&StaticSecret)` derives from a secret key, as bytes.
pub uninterp spec fn x25519_public(secret: Seq<u8>) -> Seq<u8>;

/// What `StaticSecret::diffie_hellman` computes from a secret and a public key, as bytes.
pub uninterp spec fn x25519_shared(secret: Seq<u8>, public: Seq<u8>) -> Seq<u8>;

/// What `Aead::encrypt` of ChaCha20-Poly1305 returns, without associated data.
pub uninterp spec fn aead_seal(key: Seq<u8>, nonce: Seq<u8>, plaintext: Seq<u8>) -> Option<
    Seq<u8>,
>;

/// What `Aead::decrypt` of ChaCha20-Poly1305 returns, without associated data.
pub uninterp spec fn aead_open(key: Seq<u8>, nonce: Seq<u8>, ciphertext: Seq<u8>) -> Option<
    Seq<u8>,
>;

/// The 32 bytes of a secret key.
pub open spec fn secret_bytes(secret: StaticSecret) -> Seq<u8> {
    choose|bytes: Seq<u8>| bytes.len() == 32 && #[trigger] x25519_secret(bytes) == secret
}

/// The 32 bytes of a public key.
pub open spec fn public_key_bytes(key: PublicKey) -> Seq<u8> {
    choose|bytes: Seq<u8>| bytes.len() == 32 && #[trigger] x25519_public_key(bytes) == key
}

/// `public` is the public key of `secret`, it is not all zero, and key agreement with any
/// other key pair gives both sides the same bytes, which are not all zero.
pub open spec fn key_pair_agrees(secret: Seq<u8>, public: Seq<u8>) -> bool {
    &&& secret.len() == 32
    &&& public.len() == 32
    &&& public == x25519_public(secret)
    &&& public != zeros(32)
    &&& forall|other: Seq<u8>|
        other.len() == 32 ==> {
            let shared = x25519_shared(secret, #[trigger] x25519_public(other));
            shared == x25519_shared(other, public) && shared != zeros(32)
        }
}

/// `ciphertext` is `plaintext` sealed under `key` and `nonce`, and opens to it again.
pub open spec fn sealed(
    key: Seq<u8>,
    nonce: Seq<u8>,
    plaintext: Seq<u8>,
    ciphertext: Seq<u8>,
) -> bool {
    &&& aead_seal(key, nonce, plaintext) == Some(ciphertext)
    &&& aead_open(key, nonce, ciphertext) == Some(plaintext)
    &&& ciphertext.len() == plaintext.len() + 16
}

/// From this many bytes on the cipher refuses a plaintext: one more block than its
/// 32-bit block counter can number.
pub const AEAD_REFUSED_LEN: u64 = 0x3f_ffff_ffc0;

/// Up to this many bytes the cipher seals a plaintext.
pub const AEAD_SEALED_LEN: u64 = 0x3f_ffff_ff80;

/// A plaintext length on which the cipher neither seals nor refuses but panics, because
/// its block counter runs out on the way.
pub open spec fn keystream_runs_out(len: int) -> bool {
    AEAD_SEALED_LEN < len < AEAD_REFUSED_LEN
}

/// A plaintext length on which `Aead::encrypt` returns.
pub open spec fn encryptable_len(len: int) -> bool {
    len + 16 <= isize::MAX && !keystream_runs_out(len)
}

/// A ciphertext length on which `Aead::decrypt` returns.
pub open spec fn decryptable_len(len: int) -> bool {
    !keystream_runs_out(len - 16)
}

/// `StaticSecret::clone` copies the secret key.
pub assume_specification[ <StaticSecret as Clone>::clone ](secret: &StaticSecret) -> (copy:
    StaticSecret)
    ensures
        copy == *secret,
;

/// `StaticSecret::from` keeps the 32 bytes as they are.
#[verifier::external_body]
pub(crate) fn secret_from_bytes(bytes: [u8; 32]) -> (secret: StaticSecret)
    ensures
        secret == x25519_secret(bytes@),
        secret_bytes(secret) == bytes@,
{
    StaticSecret::from(bytes)
}

/// `StaticSecret::to_bytes` gives back the bytes that the secret key was made of.
#[verifier::external_body]
pub(crate) fn secret_to_bytes(secret: &StaticSecret) -> (bytes: [u8; 32])
    ensures
        *secret == x25519_secret(bytes@),
        bytes@ == secret_bytes(*secret),
{
    secret.to_bytes()
}

/// `StaticSecret::random_from_rng` with the operating system's generator makes a secret
/// key of 32 random bytes. Of these it is said only that they were drawn, which
/// `drawn_secret` says of any bytes. Where the operating system has no randomness to give,
/// the generator panics.
#[verifier::external_body]
pub(crate) fn random_secret() -> (secret: StaticSecret)
    ensures
        secret_bytes(secret).len() == 32,
        drawn_secret(secret_bytes(secret)),
{
    StaticSecret::random_from_rng(OsRng)
}

/// `PublicKey::from` keeps the 32 bytes as they are.
#[verifier::external_body]
pub(crate) fn public_key_from_bytes(bytes: [u8; 32]) -> (key: PublicKey)
    ensures
        key == x25519_public_key(bytes@),
        public_key_bytes(key) == bytes@,
{
    PublicKey::from(bytes)
}

/// `PublicKey::as_bytes` gives back the bytes of the public key.
#[verifier::external_body]
pub(crate) fn public_key_to_bytes(key: &PublicKey) -> (bytes: [u8; 32])
    ensures
        *key == x25519_public_key(bytes@),
        bytes@ == public_key_bytes(*key),
{
    *key.as_bytes()
}

/// `PublicKey::from(&StaticSecret)` derives the public key. Two parties that combine
/// their secret key with the other's public key obtain the same shared secret. Clamping
/// makes every secret key eight times a number between zero and the prime order of the
/// base point, so neither a derived public key nor an agreement between two derived
/// public keys is the point that all-zero bytes stand for.
#[verifier::external_body]
pub(crate) fn public_key_of_secret(secret: &StaticSecret) -> (key: PublicKey)
    ensures
        public_key_bytes(key) == x25519_public(secret_bytes(*secret)),
        key_pair_agrees(secret_bytes(*secret), public_key_bytes(key)),
{
    PublicKey::from(secret)
}

/// `StaticSecret::diffie_hellman`, whose outcome `SharedSecret::as_bytes` shows, depends on
/// the two keys alone. The all-zero public key contributes nothing: whatever the secret
/// key, the outcome is all zero.
#[verifier::external_body]
pub(crate) fn shared_secret_bytes(secret: &StaticSecret, public: &PublicKey) -> (shared: [u8; 32])
    ensures
        shared@ == x25519_shared(secret_bytes(*secret), public_key_bytes(*public)),
        public_key_bytes(*public) == zeros(32) ==> shared@ == zeros(32),
{
    *secret.diffie_hellman(public).as_bytes()
}

/// `Aead::encrypt` of ChaCha20-Poly1305 under the key that `KeyInit::new` takes, without
/// associated data: the ciphertext is 16 bytes longer than the
/// plaintext and opens to it again; only an overlong plaintext is refused.
#[verifier::external_body]
pub(crate) fn aead_encrypt(key: &[u8; 32], nonce: &[u8; 12], plaintext: &[u8]) -> (result: Result<
    Vec<u8>,
    Error,
>)
    requires
        encryptable_len(plaintext@.len() as int),
    ensures
        result is Ok <==> plaintext@.len() < AEAD_REFUSED_LEN,
        match result {
            Ok(ciphertext) => sealed(key@, nonce@, plaintext@, ciphertext@),
            Err(_) => aead_seal(key@, nonce@, plaintext@) is None,
        },
{
    ChaCha20Poly1305::new(key.into()).encrypt(nonce.into(), plaintext)
}

/// `Aead::decrypt` of ChaCha20-Poly1305 under the key that `KeyInit::new` takes, without
/// associated data: it accepts only a ciphertext that sealing the
/// returned plaintext would produce.
#[verifier::external_body]
pub(crate) fn aead_decrypt(key: &[u8; 32], nonce: &[u8; 12], ciphertext: &[u8]) -> (result: Result<
    Vec<u8>,
    Error,
>)
    requires
        decryptable_len(ciphertext@.len() as int),
    ensures
        match result {
            Ok(plaintext) => sealed(key@, nonce@, plaintext@, ciphertext@),
            Err(_) => aead_open(key@, nonce@, ciphertext@) is None,
        },
{
    ChaCha20Poly1305::new(key.into()).decrypt(nonce.into(), ciphertext)
}

/// `RngCore::fill_bytes` of the thread's generator. Of the bytes it is said only that they
/// were drawn, which `drawn_bytes` says of any bytes. Where the operating system has no
/// randomness to seed it with, it panics.
#[verifier::external_body]
pub(crate) fn random_bytes<const N: usize>() -> (bytes: [u8; N])
    ensures
        drawn_bytes(bytes@),
{
    let mut bytes = [0u8; N];
    rand::thread_rng().fill_bytes(&mut bytes);
    bytes
}

} // verus!
