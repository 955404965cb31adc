//! WELCOME: the server shows that it holds its long-term key and hands out its short-term
//! key together with a cookie.

use crate::buffers::bytes_mut_content;
use crate::codec::ZmtpError;
use crate::security::curve::cipher::CurveBox;
use crate::security::curve::keys::{
    agreed_secret, CurveKeyPair, CurvePublicKey, CurveSharedSecret, KeyPair,
};
use crate::security::curve::wire::{
    all_zero, boxed, full_nonce, to_array, unboxed, zeros, CURVE_COOKIE_NONCE_PREFIX,
    CURVE_COOKIE_SIZE, CURVE_KEY_SIZE, CURVE_WELCOME, CURVE_WELCOME_NONCE_PREFIX,
};
use bytes::BytesMut;
use vstd::prelude::*;
use vstd::slice::{slice_subrange, slice_to_vec};

verus! {

/// Length of the nonce suffix in a WELCOME command.
pub const WELCOME_NONCE_SIZE: usize = 16;

/// Length of the box in a WELCOME command.
pub const WELCOME_BOX_SIZE: usize = 144;

/// The server's short-term public key and cookie in a WELCOME command, if a client with
/// this short-term secret key that expects this server key accepts it.
pub open spec fn welcome_read(
    short_nonce: Seq<u8>,
    welcome_box: Seq<u8>,
    client_short_secret: Seq<u8>,
    server_public: Seq<u8>,
) -> Option<(Seq<u8>, Seq<u8>)> {
    if short_nonce.len() != 16 || welcome_box.len() != 144 {
        None
    } else {
        match agreed_secret(client_short_secret, server_public) {
            Some(shared) => match unboxed(
                shared,
                CURVE_WELCOME_NONCE_PREFIX@ + short_nonce,
                welcome_box,
            ) {
                Some(plaintext) => if plaintext.len() != 128 || plaintext.subrange(0, 32) == zeros(
                    32,
                ) {
                    None
                } else {
                    Some((plaintext.subrange(0, 32), plaintext.subrange(32, 128)))
                },
                None => None,
            },
            None => None,
        }
    }
}

/// `cookie` seals the client's short-term public key and the server's short-term secret
/// key under the cookie key.
pub open spec fn cookie_baked(
    cookie: Seq<u8>,
    cookie_key: Seq<u8>,
    client_short_public: Seq<u8>,
    server_short_secret: Seq<u8>,
) -> bool {
    &&& cookie.len() == 96
    &&& boxed(
        cookie_key,
        CURVE_COOKIE_NONCE_PREFIX@ + cookie.subrange(0, 16),
        client_short_public + server_short_secret,
        cookie.subrange(16, 96),
    )
}

/// `command` is a WELCOME command with this cookie from a server with these key pairs to a
/// client with this short-term public key.
pub open spec fn welcome_sent(
    command: Seq<u8>,
    cookie: Seq<u8>,
    server: KeyPair,
    server_short_public: Seq<u8>,
    client_short_public: Seq<u8>,
) -> bool {
    &&& command.len() == 168
    &&& command.subrange(0, 8) == CURVE_WELCOME@
    &&& agreed_secret(server.secret, client_short_public) is Some
    &&& boxed(
        agreed_secret(server.secret, client_short_public)->Some_0,
        CURVE_WELCOME_NONCE_PREFIX@ + command.subrange(8, 24),
        server_short_public + cookie,
        command.subrange(24, 168),
    )
}

/// A WELCOME command that the client accepted.
pub struct CurveWelcome {
    /// The server's short-term public key.
    pub server_short_public: CurvePublicKey,
    /// The cookie to return in INITIATE.
    pub cookie: [u8; CURVE_COOKIE_SIZE],
}

impl CurveWelcome {
    /// Check the nonce and the box of a WELCOME command.
    pub fn read_from(
        welcome_nonce: &[u8],
        welcome_box: &[u8],
        client_short_keypair: &CurveKeyPair,
        server_public: &CurvePublicKey,
    ) -> (result: Result<Self, ZmtpError>)
        ensures
            match result {
                Ok(welcome) => welcome_read(
                    welcome_nonce@,
                    welcome_box@,
                    client_short_keypair.secret@,
                    server_public@,
                ) == Some((welcome.server_short_public@, welcome.cookie@)) && boxed(
                    agreed_secret(client_short_keypair.secret@, server_public@)->Some_0,
                    CURVE_WELCOME_NONCE_PREFIX@ + welcome_nonce@,
                    welcome.server_short_public@ + welcome.cookie@,
                    welcome_box@,
                ),
                Err(error) => error == ZmtpError::Protocol && welcome_read(
                    welcome_nonce@,
                    welcome_box@,
                    client_short_keypair.secret@,
                    server_public@,
                ) is None,
            },
    {
        if welcome_nonce.len() != WELCOME_NONCE_SIZE || welcome_box.len() != WELCOME_BOX_SIZE {
            return Err(ZmtpError::Protocol);
        }
        let shared_secret = match client_short_keypair.secret.diffie_hellman(server_public) {
            Ok(shared_secret) => shared_secret,
            Err(_) => return Err(ZmtpError::Protocol),
        };
        let nonce = full_nonce(&CURVE_WELCOME_NONCE_PREFIX, welcome_nonce);
        let plaintext = match CurveBox::new(&shared_secret).decrypt(welcome_box, &nonce) {
            Ok(plaintext) => plaintext,
            Err(_) => return Err(ZmtpError::Protocol),
        };
        if plaintext.len() != CURVE_KEY_SIZE + CURVE_COOKIE_SIZE {
            return Err(ZmtpError::Protocol);
        }
        let server_short_public = to_array::<32>(slice_subrange(&plaintext, 0, CURVE_KEY_SIZE));
        let cookie = to_array::<96>(slice_subrange(&plaintext, CURVE_KEY_SIZE, plaintext.len()));
        if all_zero(&server_short_public) {
            return Err(ZmtpError::Protocol);
        }
        assert(server_short_public@ + cookie@ =~= plaintext@);
        Ok(
            CurveWelcome {
                server_short_public: CurvePublicKey::from_bytes(server_short_public),
                cookie,
            },
        )
    }
}

/// Seal the state that the server wants back into a cookie.
pub fn bake_cookie(
    client_short_public: &CurvePublicKey,
    server_short_keypair: &CurveKeyPair,
    cookie_short_nonce: [u8; 16],
    cookie_key: [u8; CURVE_KEY_SIZE],
) -> (result: Result<Vec<u8>, ZmtpError>)
    ensures
        result matches Ok(cookie) && cookie_baked(
            cookie@,
            cookie_key@,
            client_short_public@,
            server_short_keypair.secret@,
        ) && cookie@.subrange(0, 16) == cookie_short_nonce@,
{
    broadcast use CurvePublicKey::lemma_len;

    let server_short_secret = server_short_keypair.secret.to_bytes();
    let mut cookie_plaintext = BytesMut::new();
    cookie_plaintext.extend_from_slice(client_short_public.as_bytes());
    cookie_plaintext.extend_from_slice(&server_short_secret);
    assert(bytes_mut_content(cookie_plaintext) =~= client_short_public@
        + server_short_keypair.secret@);

    let cookie_nonce = full_nonce(&CURVE_COOKIE_NONCE_PREFIX, &cookie_short_nonce);
    let cookie_shared = CurveSharedSecret::from_bytes(cookie_key);
    let cookie_box = match CurveBox::new(&cookie_shared).encrypt(&cookie_plaintext, &cookie_nonce) {
        Ok(cookie_box) => cookie_box,
        Err(_) => return Err(ZmtpError::Protocol),
    };
    let mut cookie = BytesMut::new();
    cookie.extend_from_slice(&cookie_short_nonce);
    cookie.extend_from_slice(&cookie_box);
    proof {
        let content = bytes_mut_content(cookie);
        assert(content.subrange(0, 16) =~= cookie_short_nonce@);
        assert(content.subrange(16, 96) =~= cookie_box@);
    }
    Ok(slice_to_vec(&*cookie.freeze()))
}

/// Build a WELCOME command with the given nonce suffixes and cookie key.
pub fn welcome_command(
    server_keypair: &CurveKeyPair,
    server_short_keypair: &CurveKeyPair,
    client_short_public: &CurvePublicKey,
    welcome_short_nonce: [u8; 16],
    cookie_short_nonce: [u8; 16],
    cookie_key: [u8; CURVE_KEY_SIZE],
) -> (result: Result<Vec<u8>, ZmtpError>)
    ensures
        match result {
            Ok(command) => command@.subrange(8, 24) == welcome_short_nonce@ && exists|
                cookie: Seq<u8>,
            |
                {
                    &&& #[trigger] cookie_baked(
                        cookie,
                        cookie_key@,
                        client_short_public@,
                        server_short_keypair.secret@,
                    )
                    &&& cookie.subrange(0, 16) == cookie_short_nonce@
                    &&& welcome_sent(
                        command@,
                        cookie,
                        server_keypair@,
                        server_short_keypair.public@,
                        client_short_public@,
                    )
                },
            Err(error) => error == ZmtpError::Protocol && agreed_secret(
                server_keypair.secret@,
                client_short_public@,
            ) is None,
        },
{
    broadcast use CurvePublicKey::lemma_len;

    let welcome_nonce = full_nonce(&CURVE_WELCOME_NONCE_PREFIX, &welcome_short_nonce);
    let cookie = match bake_cookie(
        client_short_public,
        server_short_keypair,
        cookie_short_nonce,
        cookie_key,
    ) {
        Ok(cookie) => cookie,
        Err(error) => return Err(error),
    };
    let mut welcome_plaintext = BytesMut::new();
    welcome_plaintext.extend_from_slice(server_short_keypair.public.as_bytes());
    welcome_plaintext.extend_from_slice(&cookie);
    assert(bytes_mut_content(welcome_plaintext) =~= server_short_keypair.public@ + cookie@);

    let welcome_shared = match server_keypair.secret.diffie_hellman(client_short_public) {
        Ok(welcome_shared) => welcome_shared,
        Err(_) => return Err(ZmtpError::Protocol),
    };
    let welcome_box = match CurveBox::new(&welcome_shared).encrypt(
        &welcome_plaintext,
        &welcome_nonce,
    ) {
        Ok(welcome_box) => welcome_box,
        Err(_) => return Err(ZmtpError::Protocol),
    };
    let mut welcome = BytesMut::new();
    welcome.extend_from_slice(&CURVE_WELCOME);
    welcome.extend_from_slice(&welcome_short_nonce);
    welcome.extend_from_slice(&welcome_box);
    proof {
        let content = bytes_mut_content(welcome);
        assert(content.subrange(0, 8) =~= CURVE_WELCOME@);
        assert(content.subrange(8, 24) =~= welcome_short_nonce@);
        assert(content.subrange(24, 168) =~= welcome_box@);
        assert(cookie_baked(
            cookie@,
            cookie_key@,
            client_short_public@,
            server_short_keypair.secret@,
        ));
    }
    Ok(slice_to_vec(&*welcome.freeze()))
}

} // verus!
