//! HELLO: the client shows that it holds its short-term key and knows the server's key.

use crate::buffers::bytes_mut_content;
use crate::codec::ZmtpError;
use crate::security::curve::cipher::CurveBox;
use crate::security::curve::keys::{agreed_secret, CurveKeyPair, CurvePublicKey, KeyPair};
use crate::security::curve::wire::{
    all_zero, boxed, full_nonce, same_bytes, to_array, unboxed, zeros, CURVE_HELLO,
    CURVE_HELLO_NONCE_PREFIX,
};
use bytes::BytesMut;
use vstd::prelude::*;
use vstd::slice::{slice_subrange, slice_to_vec};

verus! {

/// Length of a HELLO command without its name.
pub const HELLO_BODY_SIZE: usize = 194;

/// The client's short-term public key in a HELLO body, if a server with this secret key
/// accepts the body.
///
/// The body is the version 1.0, 72 zero bytes, the key, an 8-byte nonce and a box of 64
/// zero bytes under the secret that the key and the server's key agree on.
pub open spec fn hello_read(body: Seq<u8>, server_secret: Seq<u8>) -> Option<Seq<u8>> {
    let key = body.subrange(74, 106);
    let nonce = CURVE_HELLO_NONCE_PREFIX@ + body.subrange(106, 114);
    if body.len() != 194 || body.subrange(0, 2) != seq![1u8, 0u8] || body.subrange(2, 74) != zeros(
        72,
    ) || key == zeros(32) {
        None
    } else {
        match agreed_secret(server_secret, key) {
            Some(shared) => if unboxed(shared, nonce, body.subrange(114, 194)) == Some(zeros(64)) {
                Some(key)
            } else {
                None
            },
            None => None,
        }
    }
}

/// `command` is a HELLO command from a client with this short-term key pair to a server
/// with this public key.
pub open spec fn hello_sent(
    command: Seq<u8>,
    client_short: KeyPair,
    server_public: Seq<u8>,
) -> bool {
    &&& command.len() == 200
    &&& command.subrange(0, 6) == CURVE_HELLO@
    &&& command.subrange(6, 8) == seq![1u8, 0u8]
    &&& command.subrange(8, 80) == zeros(72)
    &&& command.subrange(80, 112) == client_short.public
    &&& agreed_secret(client_short.secret, server_public) is Some
    &&& boxed(
        agreed_secret(client_short.secret, server_public)->Some_0,
        CURVE_HELLO_NONCE_PREFIX@ + command.subrange(112, 120),
        zeros(64),
        command.subrange(120, 200),
    )
}

/// A HELLO command that the server accepted.
pub struct CurveHello {
    /// The client's short-term public key.
    pub client_short_public: CurvePublicKey,
}

impl CurveHello {
    /// Check the body of a HELLO command.
    pub fn read_from(body: &[u8], server_keypair: &CurveKeyPair) -> (result: Result<
        Self,
        ZmtpError,
    >)
        ensures
            match result {
                Ok(hello) => hello_read(body@, server_keypair.secret@) == Some(
                    hello.client_short_public@,
                ) && boxed(
                    agreed_secret(server_keypair.secret@, hello.client_short_public@)->Some_0,
                    CURVE_HELLO_NONCE_PREFIX@ + body@.subrange(106, 114),
                    zeros(64),
                    body@.subrange(114, 194),
                ),
                Err(error) => error == ZmtpError::Protocol && hello_read(
                    body@,
                    server_keypair.secret@,
                ) is None,
            },
    {
        if body.len() != HELLO_BODY_SIZE {
            return Err(ZmtpError::Protocol);
        }
        let version: [u8; 2] = [1, 0];
        assert(version@ =~= seq![1u8, 0u8]);
        if !same_bytes(slice_subrange(body, 0, 2), &version) {
            return Err(ZmtpError::Protocol);
        }
        if !all_zero(slice_subrange(body, 2, 74)) {
            return Err(ZmtpError::Protocol);
        }
        let key_bytes = slice_subrange(body, 74, 106);
        if all_zero(key_bytes) {
            return Err(ZmtpError::Protocol);
        }
        let client_short_public = CurvePublicKey::from_bytes(to_array::<32>(key_bytes));
        let nonce = full_nonce(&CURVE_HELLO_NONCE_PREFIX, slice_subrange(body, 106, 114));

        let shared_secret = match server_keypair.secret.diffie_hellman(&client_short_public) {
            Ok(shared_secret) => shared_secret,
            Err(_) => return Err(ZmtpError::Protocol),
        };
        let proof_text = match CurveBox::new(&shared_secret).decrypt(
            slice_subrange(body, 114, HELLO_BODY_SIZE),
            &nonce,
        ) {
            Ok(proof_text) => proof_text,
            Err(_) => return Err(ZmtpError::Protocol),
        };
        if proof_text.len() != 64 || !all_zero(&proof_text) {
            return Err(ZmtpError::Protocol);
        }
        Ok(CurveHello { client_short_public })
    }
}

/// Build a HELLO command with the given nonce suffix.
pub fn hello_command(
    client_short_keypair: &CurveKeyPair,
    server_public: &CurvePublicKey,
    short_nonce: [u8; 8],
) -> (result: Result<Vec<u8>, ZmtpError>)
    ensures
        match result {
            Ok(command) => hello_sent(command@, client_short_keypair@, server_public@)
                && command@.subrange(112, 120) == short_nonce@,
            Err(error) => error == ZmtpError::Protocol && agreed_secret(
                client_short_keypair.secret@,
                server_public@,
            ) is None,
        },
{
    broadcast use CurvePublicKey::lemma_len;

    let version: [u8; 2] = [1, 0];
    let padding = [0u8; 72];
    let proof_text = [0u8; 64];
    let mut hello = BytesMut::new();
    hello.extend_from_slice(&CURVE_HELLO);
    hello.extend_from_slice(&version);
    hello.extend_from_slice(&padding);
    hello.extend_from_slice(client_short_keypair.public.as_bytes());

    let nonce = full_nonce(&CURVE_HELLO_NONCE_PREFIX, &short_nonce);
    hello.extend_from_slice(&short_nonce);

    let shared_secret = match client_short_keypair.secret.diffie_hellman(server_public) {
        Ok(shared_secret) => shared_secret,
        Err(_) => return Err(ZmtpError::Protocol),
    };
    let proof_box = match CurveBox::new(&shared_secret).encrypt(&proof_text, &nonce) {
        Ok(proof_box) => proof_box,
        Err(_) => return Err(ZmtpError::Protocol),
    };
    assert(proof_text@ =~= zeros(64));
    assert(padding@ =~= zeros(72));
    assert(version@ =~= seq![1u8, 0u8]);
    hello.extend_from_slice(&proof_box);
    proof {
        let content = bytes_mut_content(hello);
        assert(content.subrange(0, 6) =~= CURVE_HELLO@);
        assert(content.subrange(6, 8) =~= version@);
        assert(content.subrange(8, 80) =~= padding@);
        assert(content.subrange(80, 112) =~= client_short_keypair.public@);
        assert(content.subrange(112, 120) =~= short_nonce@);
        assert(content.subrange(120, 200) =~= proof_box@);
    }
    Ok(slice_to_vec(&*hello.freeze()))
}

} // verus!
