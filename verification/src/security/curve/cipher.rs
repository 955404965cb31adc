//! The CURVE box: authenticated encryption under a shared secret.

use crate::security::curve::error::CurveError;
use crate::security::curve::keys::CurveSharedSecret;
use crate::security::curve::primitives::{
    aead_decrypt, aead_encrypt, aead_seal, decryptable_len, encryptable_len, AEAD_REFUSED_LEN,
    AEAD_SEALED_LEN,
};
use crate::security::curve::wire::{
    aead_nonce, boxed, to_array, unboxed, CURVE_KEY_SIZE, CURVE_NONCE_SIZE,
};
use vstd::prelude::*;
use vstd::slice::slice_subrange;

verus! {

/// CURVE encryption box (ChaCha20-Poly1305)
pub struct CurveBox {
    key: [u8; CURVE_KEY_SIZE],
}

impl View for CurveBox {
    type V = Seq<u8>;

    /// The key of the box.
    closed spec fn view(&self) -> Seq<u8> {
        self.key@
    }
}

/// The last 12 bytes of a CURVE nonce. ChaCha20-Poly1305 uses 12-byte nonces; the suffix
/// bears the counter, so each message uses a distinct one.
fn nonce_suffix(nonce: &[u8; CURVE_NONCE_SIZE]) -> (suffix: [u8; 12])
    ensures
        suffix@ == aead_nonce(nonce@),
{
    to_array::<12>(slice_subrange(nonce.as_slice(), 12, CURVE_NONCE_SIZE))
}

/// Whether `CurveBox::encrypt` takes a plaintext of this length.
pub fn is_encryptable(len: usize) -> (encryptable: bool)
    ensures
        encryptable == encryptable_len(len as int),
{
    let wide_len: u64 = len as u64;
    len <= isize::MAX as usize - 16 && !(AEAD_SEALED_LEN < wide_len && wide_len < AEAD_REFUSED_LEN)
}

/// Whether `CurveBox::decrypt` takes a ciphertext of this length.
pub fn is_decryptable(len: usize) -> (decryptable: bool)
    ensures
        decryptable == decryptable_len(len as int),
{
    let wide_len: u64 = len as u64;
    !(AEAD_SEALED_LEN + 16 < wide_len && wide_len < AEAD_REFUSED_LEN + 16)
}

impl CurveBox {
    /// Create new box from shared secret
    pub fn new(shared_secret: &CurveSharedSecret) -> (created: Self)
        ensures
            created@ == shared_secret@,
    {
        CurveBox { key: *shared_secret.as_bytes() }
    }

    /// Encrypt message with nonce
    pub fn encrypt(&self, plaintext: &[u8], nonce: &[u8; CURVE_NONCE_SIZE]) -> (result: Result<
        Vec<u8>,
        CurveError,
    >)
        requires
            encryptable_len(plaintext@.len() as int),
        ensures
            result is Ok <==> plaintext@.len() < AEAD_REFUSED_LEN,
            match result {
                Ok(ciphertext) => boxed(self@, nonce@, plaintext@, ciphertext@),
                Err(error) => error is EncryptionFailed && aead_seal(
                    self@,
                    aead_nonce(nonce@),
                    plaintext@,
                ) is None,
            },
    {
        match aead_encrypt(&self.key, &nonce_suffix(nonce), plaintext) {
            Ok(ciphertext) => Ok(ciphertext),
            Err(_) => Err(CurveError::EncryptionFailed),
        }
    }

    /// Decrypt message with nonce
    pub fn decrypt(&self, ciphertext: &[u8], nonce: &[u8; CURVE_NONCE_SIZE]) -> (result: Result<
        Vec<u8>,
        CurveError,
    >)
        requires
            decryptable_len(ciphertext@.len() as int),
        ensures
            match result {
                Ok(plaintext) => boxed(self@, nonce@, plaintext@, ciphertext@) && unboxed(
                    self@,
                    nonce@,
                    ciphertext@,
                ) == Some(plaintext@),
                Err(error) => error is DecryptionFailed && unboxed(
                    self@,
                    nonce@,
                    ciphertext@,
                ) is None,
            },
            ciphertext@.len() < 16 ==> result is Err,
    {
        match aead_decrypt(&self.key, &nonce_suffix(nonce), ciphertext) {
            Ok(plaintext) => Ok(plaintext),
            Err(_) => Err(CurveError::DecryptionFailed),
        }
    }
}

} // verus!
