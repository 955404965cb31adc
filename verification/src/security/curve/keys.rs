//! Key types of the CURVE mechanism.

use crate::security::curve::drawn::drawn_secret;
use crate::security::curve::error::CurveError;
use crate::security::curve::primitives::{
    key_pair_agrees, public_key_bytes, public_key_from_bytes, public_key_of_secret,
    public_key_to_bytes, random_secret, secret_bytes, secret_from_bytes, secret_to_bytes,
    shared_secret_bytes, x25519_public, x25519_public_key, x25519_shared,
};
use crate::security::curve::wire::{all_zero, same_bytes, zeros, CURVE_KEY_SIZE};
use vstd::prelude::*;
use x25519_dalek::{PublicKey, StaticSecret};

verus! {

/// The secret that two keys agree on, or nothing where it would be all zero: a peer's
/// public key of low order contributes nothing to the agreement.
pub open spec fn agreed_secret(secret: Seq<u8>, public: Seq<u8>) -> Option<Seq<u8>> {
    if x25519_shared(secret, public) == zeros(32) {
        None
    } else {
        Some(x25519_shared(secret, public))
    }
}

/// The public key with the given 32 bytes.
pub open spec fn key_with_bytes(bytes: Seq<u8>) -> CurvePublicKey {
    choose|key: CurvePublicKey| key@ == bytes
}

/// CURVE public key (32 bytes)
#[derive(Debug, Clone, Copy, Eq)]
pub struct CurvePublicKey([u8; CURVE_KEY_SIZE]);

impl View for CurvePublicKey {
    type V = Seq<u8>;

    closed spec fn view(&self) -> Seq<u8> {
        self.0@
    }
}

impl CurvePublicKey {
    /// Every public key has 32 bytes.
    pub broadcast proof fn lemma_len(self)
        ensures
            #[trigger] self@.len() == 32,
    {
    }

    /// A public key is determined by its bytes.
    pub proof fn lemma_determined(self, other: CurvePublicKey)
        ensures
            self@ == other@ <==> self == other,
    {
        if self@ == other@ {
            assert forall|i: int| 0 <= i < 32 implies self.0[i] == other.0[i] by {
                assert(self.0@[i] == other.0@[i]);
            }
            assert(self.0 =~= other.0);
        }
    }

    /// Create from bytes
    pub fn from_bytes(bytes: [u8; CURVE_KEY_SIZE]) -> (key: Self)
        ensures
            key@ == bytes@,
    {
        CurvePublicKey(bytes)
    }

    /// Get raw bytes
    pub fn as_bytes(&self) -> (bytes: &[u8; CURVE_KEY_SIZE])
        ensures
            bytes@ == self@,
    {
        &self.0
    }

    /// Convert to X25519 public key
    pub fn to_x25519(&self) -> (key: PublicKey)
        ensures
            key == x25519_public_key(self@),
            public_key_bytes(key) == self@,
    {
        public_key_from_bytes(self.0)
    }
}

impl PartialEq for CurvePublicKey {
    fn eq(&self, other: &CurvePublicKey) -> (equal: bool) {
        same_bytes(&self.0, &other.0)
    }
}

impl vstd::std_specs::cmp::PartialEqSpecImpl for CurvePublicKey {
    open spec fn obeys_eq_spec() -> bool {
        true
    }

    open spec fn eq_spec(&self, other: &CurvePublicKey) -> bool {
        self@ == other@
    }
}

impl From<[u8; CURVE_KEY_SIZE]> for CurvePublicKey {
    fn from(bytes: [u8; CURVE_KEY_SIZE]) -> (key: CurvePublicKey)
        ensures
            key@ == bytes@,
    {
        CurvePublicKey(bytes)
    }
}

impl vstd::std_specs::convert::FromSpecImpl<[u8; CURVE_KEY_SIZE]> for CurvePublicKey {
    open spec fn obeys_from_spec() -> bool {
        true
    }

    closed spec fn from_spec(bytes: [u8; CURVE_KEY_SIZE]) -> CurvePublicKey {
        CurvePublicKey(bytes)
    }
}

impl From<PublicKey> for CurvePublicKey {
    fn from(x25519: PublicKey) -> (key: CurvePublicKey)
        ensures
            key@ == public_key_bytes(x25519),
    {
        let key = CurvePublicKey(public_key_to_bytes(&x25519));
        proof {
            key.lemma_determined(key_with_bytes(public_key_bytes(x25519)));
        }
        key
    }
}

impl vstd::std_specs::convert::FromSpecImpl<PublicKey> for CurvePublicKey {
    open spec fn obeys_from_spec() -> bool {
        true
    }

    open spec fn from_spec(x25519: PublicKey) -> CurvePublicKey {
        key_with_bytes(public_key_bytes(x25519))
    }
}

impl AsRef<[u8]> for CurvePublicKey {
    fn as_ref(&self) -> (bytes: &[u8])
        ensures
            bytes@ == self@,
    {
        &self.0
    }
}

/// CURVE secret key (32 bytes)
pub struct CurveSecretKey(StaticSecret);

impl View for CurveSecretKey {
    type V = Seq<u8>;

    closed spec fn view(&self) -> Seq<u8> {
        secret_bytes(self.0)
    }
}

impl CurveSecretKey {
    /// Generate a new random secret key
    pub fn generate() -> (key: Self)
        ensures
            key@.len() == 32,
            drawn_secret(key@),
    {
        CurveSecretKey(random_secret())
    }

    /// Create from bytes
    pub fn from_bytes(bytes: [u8; CURVE_KEY_SIZE]) -> (key: Self)
        ensures
            key@ == bytes@,
    {
        CurveSecretKey(secret_from_bytes(bytes))
    }

    /// Get the secret bytes, for sealing them into the server's cookie
    pub(crate) fn to_bytes(&self) -> (bytes: [u8; CURVE_KEY_SIZE])
        ensures
            bytes@ == self@,
    {
        secret_to_bytes(&self.0)
    }

    /// Get public key
    pub fn public_key(&self) -> (key: CurvePublicKey)
        ensures
            key@ == x25519_public(self@),
            key_pair_agrees(self@, key@),
    {
        CurvePublicKey::from(public_key_of_secret(&self.0))
    }

    /// Compute shared secret via ECDH
    pub fn diffie_hellman(&self, peer_public: &CurvePublicKey) -> (result: Result<
        CurveSharedSecret,
        CurveError,
    >)
        ensures
            match result {
                Ok(shared) => agreed_secret(self@, peer_public@) == Some(shared@),
                Err(error) => error is ProtocolViolation && agreed_secret(
                    self@,
                    peer_public@,
                ) is None,
            },
            peer_public@ == zeros(32) ==> result is Err,
            result matches Ok(shared) ==> shared@ == x25519_shared(self@, peer_public@),
            result is Err <==> (forall|i: int|
                0 <= i < 32 ==> #[trigger] x25519_shared(self@, peer_public@)[i] == 0),
            (forall|i: int| 0 <= i < 32 ==> #[trigger] peer_public@[i] == 0) ==> result is Err,
    {
        broadcast use CurvePublicKey::lemma_len;

        let shared = shared_secret_bytes(&self.0, &peer_public.to_x25519());
        proof {
            if forall|i: int| 0 <= i < 32 ==> #[trigger] peer_public@[i] == 0 {
                assert(peer_public@ =~= zeros(32));
            }
            if forall|i: int| 0 <= i < 32 ==> #[trigger] shared@[i] == 0 {
                assert(shared@ =~= zeros(32));
            }
        }
        if all_zero(&shared) {
            assert(forall|i: int| 0 <= i < 32 ==> zeros(32)[i] == 0);
            return Err(CurveError::ProtocolViolation);
        }
        Ok(CurveSharedSecret::from_bytes(shared))
    }

    /// What a debug print shows of a secret key
    pub fn redacted(&self) -> (text: &'static str)
        ensures
            text@ == "CurveSecretKey([REDACTED])"@,
    {
        "CurveSecretKey([REDACTED])"
    }
}

impl Clone for CurveSecretKey {
    fn clone(&self) -> (copy: CurveSecretKey)
        ensures
            copy == *self,
    {
        CurveSecretKey(self.0.clone())
    }
}

/// CURVE shared secret (32 bytes).
pub struct CurveSharedSecret([u8; CURVE_KEY_SIZE]);

impl View for CurveSharedSecret {
    type V = Seq<u8>;

    closed spec fn view(&self) -> Seq<u8> {
        self.0@
    }
}

impl CurveSharedSecret {
    /// Create from bytes.
    pub fn from_bytes(bytes: [u8; CURVE_KEY_SIZE]) -> (secret: Self)
        ensures
            secret@ == bytes@,
    {
        CurveSharedSecret(bytes)
    }

    /// Get raw bytes.
    pub fn as_bytes(&self) -> (bytes: &[u8; CURVE_KEY_SIZE])
        ensures
            bytes@ == self@,
    {
        &self.0
    }

    /// What a debug print shows of a shared secret
    pub fn redacted(&self) -> (text: &'static str)
        ensures
            text@ == "CurveSharedSecret([REDACTED])"@,
    {
        "CurveSharedSecret([REDACTED])"
    }
}

impl Clone for CurveSharedSecret {
    fn clone(&self) -> (copy: CurveSharedSecret)
        ensures
            copy == *self,
    {
        CurveSharedSecret(self.0)
    }
}

/// The two halves of a key pair, as bytes.
pub struct KeyPair {
    /// Public half.
    pub public: Seq<u8>,
    /// Secret half.
    pub secret: Seq<u8>,
}

impl KeyPair {
    /// The halves belong together.
    pub open spec fn valid(self) -> bool {
        key_pair_agrees(self.secret, self.public)
    }
}

/// CURVE key pair (public + secret)
pub struct CurveKeyPair {
    /// Long-term public key.
    pub public: CurvePublicKey,
    /// Long-term secret key.
    pub secret: CurveSecretKey,
}

impl View for CurveKeyPair {
    type V = KeyPair;

    open spec fn view(&self) -> KeyPair {
        KeyPair { public: self.public@, secret: self.secret@ }
    }
}

impl CurveKeyPair {
    /// Generate a new random key pair
    pub fn generate() -> (pair: Self)
        ensures
            pair@.valid(),
            drawn_secret(pair.secret@),
            pair.public@ == x25519_public(pair.secret@),
    {
        let secret = CurveSecretKey::generate();
        let public = secret.public_key();
        CurveKeyPair { public, secret }
    }

    /// Create from existing keys. The public key is derived from the secret key, whatever
    /// public key is given.
    pub fn from_keys(_public: CurvePublicKey, secret: CurveSecretKey) -> (pair: Self)
        ensures
            pair.secret == secret,
            pair.public@ == x25519_public(secret@),
            pair@.valid(),
    {
        let public = secret.public_key();
        CurveKeyPair { public, secret }
    }
}

impl Clone for CurveKeyPair {
    fn clone(&self) -> (copy: CurveKeyPair)
        ensures
            copy == *self,
    {
        CurveKeyPair { public: self.public, secret: self.secret.clone() }
    }
}

} // verus!
