//! READY: the server confirms the handshake with its short-term key.

use crate::buffers::bytes_mut_content;
use crate::codec::ZmtpError;
use crate::security::curve::cipher::CurveBox;
use crate::security::curve::keys::{agreed_secret, CurveKeyPair, CurvePublicKey, CurveSharedSecret};
use crate::security::curve::wire::{
    boxed, full_nonce, unboxed, CURVE_READY, CURVE_READY_NONCE_PREFIX,
};
use bytes::BytesMut;
use vstd::prelude::*;
use vstd::slice::slice_to_vec;

verus! {

/// Length of the nonce suffix in a READY command.
pub const READY_NONCE_SIZE: usize = 8;

/// Length of the box in a READY command.
pub const READY_BOX_SIZE: usize = 16;

/// Whether a client with this short-term secret key accepts a READY command: an empty box
/// under the secret that the two short-term keys agree on.
pub open spec fn ready_read(
    short_nonce: Seq<u8>,
    ready_box: Seq<u8>,
    client_short_secret: Seq<u8>,
    server_short_public: Seq<u8>,
) -> bool {
    &&& short_nonce.len() == 8
    &&& ready_box.len() == 16
    &&& agreed_secret(client_short_secret, server_short_public) matches Some(shared) && unboxed(
        shared,
        CURVE_READY_NONCE_PREFIX@ + short_nonce,
        ready_box,
    ) == Some(Seq::<u8>::empty())
}

/// `command` is a READY command under this shared secret.
pub open spec fn ready_sent(command: Seq<u8>, shared: Seq<u8>) -> bool {
    &&& command.len() == 30
    &&& command.subrange(0, 6) == CURVE_READY@
    &&& boxed(
        shared,
        CURVE_READY_NONCE_PREFIX@ + command.subrange(6, 14),
        Seq::<u8>::empty(),
        command.subrange(14, 30),
    )
}

/// A READY command that the client accepted.
pub struct CurveReady;

impl CurveReady {
    /// Check the nonce and the box of a READY command.
    pub fn read_from(
        ready_nonce: &[u8],
        ready_box: &[u8],
        client_short_keypair: &CurveKeyPair,
        server_short_public: &CurvePublicKey,
    ) -> (result: Result<Self, ZmtpError>)
        ensures
            match result {
                Ok(_) => ready_read(
                    ready_nonce@,
                    ready_box@,
                    client_short_keypair.secret@,
                    server_short_public@,
                ) && boxed(
                    agreed_secret(client_short_keypair.secret@, server_short_public@)->Some_0,
                    CURVE_READY_NONCE_PREFIX@ + ready_nonce@,
                    Seq::<u8>::empty(),
                    ready_box@,
                ),
                Err(error) => error == ZmtpError::Protocol && !ready_read(
                    ready_nonce@,
                    ready_box@,
                    client_short_keypair.secret@,
                    server_short_public@,
                ),
            },
    {
        if ready_nonce.len() != READY_NONCE_SIZE || ready_box.len() != READY_BOX_SIZE {
            return Err(ZmtpError::Protocol);
        }
        let shared_secret = match client_short_keypair.secret.diffie_hellman(server_short_public) {
            Ok(shared_secret) => shared_secret,
            Err(_) => return Err(ZmtpError::Protocol),
        };
        let nonce = full_nonce(&CURVE_READY_NONCE_PREFIX, ready_nonce);
        let metadata = match CurveBox::new(&shared_secret).decrypt(ready_box, &nonce) {
            Ok(metadata) => metadata,
            Err(_) => return Err(ZmtpError::Protocol),
        };
        if metadata.len() != 0 {
            return Err(ZmtpError::Protocol);
        }
        assert(metadata@ =~= Seq::<u8>::empty());
        Ok(CurveReady)
    }
}

/// Build a READY command with the given nonce suffix.
pub fn ready_command(shared_secret: &CurveSharedSecret, ready_short_nonce: [u8; 8]) -> (result:
    Result<Vec<u8>, ZmtpError>)
    ensures
        result matches Ok(command) && ready_sent(command@, shared_secret@) && command@.subrange(
            6,
            14,
        ) == ready_short_nonce@,
{
    let ready_nonce = full_nonce(&CURVE_READY_NONCE_PREFIX, &ready_short_nonce);
    let empty: [u8; 0] = [];
    assert(empty@ =~= Seq::<u8>::empty());
    let ready_box = match CurveBox::new(shared_secret).encrypt(&empty, &ready_nonce) {
        Ok(ready_box) => ready_box,
        Err(_) => return Err(ZmtpError::Protocol),
    };
    let mut ready = BytesMut::new();
    ready.extend_from_slice(&CURVE_READY);
    ready.extend_from_slice(&ready_short_nonce);
    ready.extend_from_slice(&ready_box);
    proof {
        let content = bytes_mut_content(ready);
        assert(content.subrange(0, 6) =~= CURVE_READY@);
        assert(content.subrange(6, 14) =~= ready_short_nonce@);
        assert(content.subrange(14, 30) =~= ready_box@);
    }
    Ok(slice_to_vec(&*ready.freeze()))
}

} // verus!
