//! INITIATE: the client returns the cookie and vouches for its short-term key with its
//! long-term key.

use crate::buffers::bytes_mut_content;
use crate::codec::ZmtpError;
use crate::security::curve::cipher::CurveBox;
use crate::security::curve::keys::{
    agreed_secret, CurveKeyPair, CurvePublicKey, CurveSecretKey, CurveSharedSecret, KeyPair,
};
use crate::security::curve::primitives::x25519_public;
use crate::security::curve::wire::{
    boxed, full_nonce, same_bytes, to_array, unboxed, CURVE_COOKIE_NONCE_PREFIX,
    CURVE_COOKIE_SIZE, CURVE_INITIATE, CURVE_INITIATE_NONCE_PREFIX, CURVE_KEY_SIZE,
    CURVE_VOUCH_NONCE_PREFIX,
};
use bytes::BytesMut;
use vstd::prelude::*;
use vstd::slice::{slice_subrange, slice_to_vec};

verus! {

/// Length of the nonce suffix in an INITIATE command.
pub const INITIATE_NONCE_SIZE: usize = 8;

/// Length of the box in an INITIATE command.
pub const INITIATE_BOX_SIZE: usize = 144;

/// The variable parts of an INITIATE command.
pub struct InitiateParts {
    /// The returned cookie.
    pub cookie: Seq<u8>,
    /// The nonce suffix of the box.
    pub nonce: Seq<u8>,
    /// The box.
    pub boxed: Seq<u8>,
}

/// What a server knows when an INITIATE command arrives.
pub struct InitiateContext {
    /// The server's long-term key pair.
    pub server: KeyPair,
    /// The server's short-term key pair.
    pub server_short: KeyPair,
    /// The client's short-term public key from HELLO.
    pub client_short_public: Seq<u8>,
    /// The key that sealed the cookie.
    pub cookie_key: Seq<u8>,
}

/// Whether a vouch binds a client's long-term key to this connection: under the secret
/// that it and the server's short-term key agree on, the vouch holds the client's
/// short-term key and the server's long-term key.
pub open spec fn vouch_valid(
    vouch: Seq<u8>,
    client_public: Seq<u8>,
    client_short_public: Seq<u8>,
    server_public: Seq<u8>,
    server_short_secret: Seq<u8>,
) -> bool {
    match agreed_secret(server_short_secret, client_public) {
        Some(shared) => unboxed(
            shared,
            CURVE_VOUCH_NONCE_PREFIX@ + vouch.subrange(0, 16),
            vouch.subrange(16, 96),
        ) == Some(client_short_public + server_public),
        None => false,
    }
}

/// Whether a cookie is one that this server made for this client: it holds the client's
/// short-term public key and a secret key that belongs to the server's short-term public
/// key.
pub open spec fn cookie_valid(
    cookie: Seq<u8>,
    cookie_key: Seq<u8>,
    client_short_public: Seq<u8>,
    server_short_public: Seq<u8>,
) -> bool {
    match unboxed(
        cookie_key,
        CURVE_COOKIE_NONCE_PREFIX@ + cookie.subrange(0, 16),
        cookie.subrange(16, 96),
    ) {
        Some(plaintext) => plaintext.len() == 64 && plaintext.subrange(0, 32)
            == client_short_public && x25519_public(plaintext.subrange(32, 64))
            == server_short_public,
        None => false,
    }
}

impl InitiateContext {
    /// What the box of an INITIATE command holds, if it opens under the secret that the two
    /// short-term keys agree on.
    pub open spec fn opened(self, parts: InitiateParts) -> Option<Seq<u8>> {
        match agreed_secret(self.server_short.secret, self.client_short_public) {
            Some(shared) => unboxed(
                shared,
                CURVE_INITIATE_NONCE_PREFIX@ + parts.nonce,
                parts.boxed,
            ),
            None => None,
        }
    }

    /// The client's long-term public key in an INITIATE command, if the server accepts it.
    ///
    /// The box starts with the client's long-term public key and a vouch.
    pub open spec fn read(self, parts: InitiateParts) -> Option<Seq<u8>> {
        if parts.cookie.len() != 96 || parts.nonce.len() != 8 || parts.boxed.len() != 144 {
            None
        } else {
            match self.opened(parts) {
                Some(plaintext) => if plaintext.len() >= 128 && vouch_valid(
                    plaintext.subrange(32, 128),
                    plaintext.subrange(0, 32),
                    self.client_short_public,
                    self.server.public,
                    self.server_short.secret,
                ) && cookie_valid(
                    parts.cookie,
                    self.cookie_key,
                    self.client_short_public,
                    self.server_short.public,
                ) {
                    Some(plaintext.subrange(0, 32))
                } else {
                    None
                },
                None => None,
            }
        }
    }

    /// The box, the vouch inside it and the cookie were each sealed under the key that the
    /// server opened them with.
    pub open spec fn sealed(self, parts: InitiateParts) -> bool {
        let plaintext = self.opened(parts)->Some_0;
        let vouch = plaintext.subrange(32, 128);
        let cookie_nonce = CURVE_COOKIE_NONCE_PREFIX@ + parts.cookie.subrange(0, 16);
        let cookie_box = parts.cookie.subrange(16, 96);
        &&& boxed(
            agreed_secret(self.server_short.secret, self.client_short_public)->Some_0,
            CURVE_INITIATE_NONCE_PREFIX@ + parts.nonce,
            plaintext,
            parts.boxed,
        )
        &&& boxed(
            agreed_secret(self.server_short.secret, plaintext.subrange(0, 32))->Some_0,
            CURVE_VOUCH_NONCE_PREFIX@ + vouch.subrange(0, 16),
            self.client_short_public + self.server.public,
            vouch.subrange(16, 96),
        )
        &&& boxed(
            self.cookie_key,
            cookie_nonce,
            unboxed(self.cookie_key, cookie_nonce, cookie_box)->Some_0,
            cookie_box,
        )
    }
}

/// `vouch` is a vouch by the client's long-term key for its short-term key towards this
/// server.
pub open spec fn vouch_made(
    vouch: Seq<u8>,
    client: KeyPair,
    client_short_public: Seq<u8>,
    server_public: Seq<u8>,
    server_short_public: Seq<u8>,
) -> bool {
    &&& vouch.len() == 96
    &&& agreed_secret(client.secret, server_short_public) is Some
    &&& boxed(
        agreed_secret(client.secret, server_short_public)->Some_0,
        CURVE_VOUCH_NONCE_PREFIX@ + vouch.subrange(0, 16),
        client_short_public + server_public,
        vouch.subrange(16, 96),
    )
}

/// `command` is an INITIATE command with this cookie and this vouch from a client with
/// this long-term public key and this short-term key pair.
pub open spec fn initiate_sent(
    command: Seq<u8>,
    cookie: Seq<u8>,
    vouch: Seq<u8>,
    client_public: Seq<u8>,
    client_short: KeyPair,
    server_short_public: Seq<u8>,
) -> bool {
    &&& command.len() == 257
    &&& command.subrange(0, 9) == CURVE_INITIATE@
    &&& command.subrange(9, 105) == cookie
    &&& agreed_secret(client_short.secret, server_short_public) is Some
    &&& boxed(
        agreed_secret(client_short.secret, server_short_public)->Some_0,
        CURVE_INITIATE_NONCE_PREFIX@ + command.subrange(105, 113),
        client_public + vouch,
        command.subrange(113, 257),
    )
}

/// An INITIATE command that the server accepted.
pub struct CurveInitiate {
    /// The client's long-term public key.
    pub client_public: CurvePublicKey,
}

/// Check a vouch that came with a client's long-term public key.
pub fn check_vouch(
    vouch: &[u8],
    client_public: &CurvePublicKey,
    server_keypair: &CurveKeyPair,
    server_short_keypair: &CurveKeyPair,
    client_short_public: &CurvePublicKey,
) -> (result: Result<(), ZmtpError>)
    requires
        vouch@.len() == 96,
    ensures
        match result {
            Ok(_) => vouch_valid(
                vouch@,
                client_public@,
                client_short_public@,
                server_keypair.public@,
                server_short_keypair.secret@,
            ) && boxed(
                agreed_secret(server_short_keypair.secret@, client_public@)->Some_0,
                CURVE_VOUCH_NONCE_PREFIX@ + vouch@.subrange(0, 16),
                client_short_public@ + server_keypair.public@,
                vouch@.subrange(16, 96),
            ),
            Err(error) => error == ZmtpError::Protocol && !vouch_valid(
                vouch@,
                client_public@,
                client_short_public@,
                server_keypair.public@,
                server_short_keypair.secret@,
            ),
        },
{
    broadcast use CurvePublicKey::lemma_len;

    let vouch_nonce = full_nonce(&CURVE_VOUCH_NONCE_PREFIX, slice_subrange(vouch, 0, 16));
    let vouch_shared = match server_short_keypair.secret.diffie_hellman(client_public) {
        Ok(vouch_shared) => vouch_shared,
        Err(_) => return Err(ZmtpError::Protocol),
    };
    let vouch_plaintext = match CurveBox::new(&vouch_shared).decrypt(
        slice_subrange(vouch, 16, 96),
        &vouch_nonce,
    ) {
        Ok(vouch_plaintext) => vouch_plaintext,
        Err(_) => return Err(ZmtpError::Protocol),
    };
    if vouch_plaintext.len() != CURVE_KEY_SIZE * 2 {
        return Err(ZmtpError::Protocol);
    }
    let vouch_client_short = slice_subrange(&vouch_plaintext, 0, CURVE_KEY_SIZE);
    let vouch_server_public = slice_subrange(
        &vouch_plaintext,
        CURVE_KEY_SIZE,
        vouch_plaintext.len(),
    );
    proof {
        let expected = client_short_public@ + server_keypair.public@;
        assert(expected.subrange(0, 32) =~= client_short_public@);
        assert(expected.subrange(32, 64) =~= server_keypair.public@);
        assert(vouch_plaintext@ =~= vouch_client_short@ + vouch_server_public@);
    }
    if !same_bytes(vouch_client_short, client_short_public.as_bytes()) || !same_bytes(
        vouch_server_public,
        server_keypair.public.as_bytes(),
    ) {
        return Err(ZmtpError::Protocol);
    }
    Ok(())
}

/// Check a cookie that a client returned.
pub fn check_cookie(
    cookie: &[u8],
    server_short_keypair: &CurveKeyPair,
    client_short_public: &CurvePublicKey,
    cookie_key: &[u8; CURVE_KEY_SIZE],
) -> (result: Result<(), ZmtpError>)
    requires
        cookie@.len() == 96,
    ensures
        ({
            let nonce = CURVE_COOKIE_NONCE_PREFIX@ + cookie@.subrange(0, 16);
            let cookie_box = cookie@.subrange(16, 96);
            match result {
                Ok(_) => cookie_valid(
                    cookie@,
                    cookie_key@,
                    client_short_public@,
                    server_short_keypair.public@,
                ) && boxed(
                    cookie_key@,
                    nonce,
                    unboxed(cookie_key@, nonce, cookie_box)->Some_0,
                    cookie_box,
                ),
                Err(error) => error == ZmtpError::Protocol && !cookie_valid(
                    cookie@,
                    cookie_key@,
                    client_short_public@,
                    server_short_keypair.public@,
                ),
            }
        }),
{
    let cookie_nonce = full_nonce(&CURVE_COOKIE_NONCE_PREFIX, slice_subrange(cookie, 0, 16));
    let cookie_shared = CurveSharedSecret::from_bytes(*cookie_key);
    let cookie_plaintext = match CurveBox::new(&cookie_shared).decrypt(
        slice_subrange(cookie, 16, CURVE_COOKIE_SIZE),
        &cookie_nonce,
    ) {
        Ok(cookie_plaintext) => cookie_plaintext,
        Err(_) => return Err(ZmtpError::Protocol),
    };
    if cookie_plaintext.len() != CURVE_KEY_SIZE * 2 {
        return Err(ZmtpError::Protocol);
    }
    if !same_bytes(
        slice_subrange(&cookie_plaintext, 0, CURVE_KEY_SIZE),
        client_short_public.as_bytes(),
    ) {
        return Err(ZmtpError::Protocol);
    }
    let cookie_server_secret = CurveSecretKey::from_bytes(
        to_array::<32>(
            slice_subrange(&cookie_plaintext, CURVE_KEY_SIZE, cookie_plaintext.len()),
        ),
    );
    if cookie_server_secret.public_key() != server_short_keypair.public {
        return Err(ZmtpError::Protocol);
    }
    Ok(())
}

impl CurveInitiate {
    /// Check the cookie, the nonce and the box of an INITIATE command.
    pub fn read_from(
        cookie: &[u8],
        initiate_nonce: &[u8],
        initiate_box: &[u8],
        server_keypair: &CurveKeyPair,
        server_short_keypair: &CurveKeyPair,
        client_short_public: &CurvePublicKey,
        cookie_key: &[u8; CURVE_KEY_SIZE],
    ) -> (result: Result<Self, ZmtpError>)
        ensures
            ({
                let context = InitiateContext {
                    server: server_keypair@,
                    server_short: server_short_keypair@,
                    client_short_public: client_short_public@,
                    cookie_key: cookie_key@,
                };
                let parts = InitiateParts {
                    cookie: cookie@,
                    nonce: initiate_nonce@,
                    boxed: initiate_box@,
                };
                match result {
                    Ok(initiate) => context.read(parts) == Some(initiate.client_public@)
                        && context.sealed(parts),
                    Err(error) => error == ZmtpError::Protocol && context.read(parts) is None,
                }
            }),
    {
        if cookie.len() != CURVE_COOKIE_SIZE || initiate_nonce.len() != INITIATE_NONCE_SIZE
            || initiate_box.len() != INITIATE_BOX_SIZE {
            return Err(ZmtpError::Protocol);
        }
        let initiate_shared = match server_short_keypair.secret.diffie_hellman(
            client_short_public,
        ) {
            Ok(initiate_shared) => initiate_shared,
            Err(_) => return Err(ZmtpError::Protocol),
        };
        let nonce = full_nonce(&CURVE_INITIATE_NONCE_PREFIX, initiate_nonce);
        let initiate_plaintext = match CurveBox::new(&initiate_shared).decrypt(
            initiate_box,
            &nonce,
        ) {
            Ok(initiate_plaintext) => initiate_plaintext,
            Err(_) => return Err(ZmtpError::Protocol),
        };
        if initiate_plaintext.len() < CURVE_KEY_SIZE + CURVE_COOKIE_SIZE {
            return Err(ZmtpError::Protocol);
        }
        let client_public = CurvePublicKey::from_bytes(
            to_array::<32>(slice_subrange(&initiate_plaintext, 0, CURVE_KEY_SIZE)),
        );
        match check_vouch(
            slice_subrange(&initiate_plaintext, CURVE_KEY_SIZE, CURVE_KEY_SIZE + 96),
            &client_public,
            server_keypair,
            server_short_keypair,
            client_short_public,
        ) {
            Ok(_) => {},
            Err(error) => return Err(error),
        }
        match check_cookie(cookie, server_short_keypair, client_short_public, cookie_key) {
            Ok(_) => {},
            Err(error) => return Err(error),
        }
        Ok(CurveInitiate { client_public })
    }
}

/// Vouch for the client's short-term key, with the given nonce suffix.
pub fn make_vouch(
    client_keypair: &CurveKeyPair,
    client_short_public: &CurvePublicKey,
    server_public: &CurvePublicKey,
    server_short_public: &CurvePublicKey,
    vouch_short_nonce: [u8; 16],
) -> (result: Result<Vec<u8>, ZmtpError>)
    ensures
        match result {
            Ok(vouch) => vouch_made(
                vouch@,
                client_keypair@,
                client_short_public@,
                server_public@,
                server_short_public@,
            ) && vouch@.subrange(0, 16) == vouch_short_nonce@,
            Err(error) => error == ZmtpError::Protocol && agreed_secret(
                client_keypair.secret@,
                server_short_public@,
            ) is None,
        },
{
    broadcast use CurvePublicKey::lemma_len;

    let vouch_nonce = full_nonce(&CURVE_VOUCH_NONCE_PREFIX, &vouch_short_nonce);
    let vouch_shared = match client_keypair.secret.diffie_hellman(server_short_public) {
        Ok(vouch_shared) => vouch_shared,
        Err(_) => return Err(ZmtpError::Protocol),
    };
    let mut vouch_plaintext = BytesMut::new();
    vouch_plaintext.extend_from_slice(client_short_public.as_bytes());
    vouch_plaintext.extend_from_slice(server_public.as_bytes());
    assert(bytes_mut_content(vouch_plaintext) =~= client_short_public@ + server_public@);
    let vouch_box = match CurveBox::new(&vouch_shared).encrypt(&vouch_plaintext, &vouch_nonce) {
        Ok(vouch_box) => vouch_box,
        Err(_) => return Err(ZmtpError::Protocol),
    };
    let mut vouch = BytesMut::new();
    vouch.extend_from_slice(&vouch_short_nonce);
    vouch.extend_from_slice(&vouch_box);
    proof {
        let content = bytes_mut_content(vouch);
        assert(content.subrange(0, 16) =~= vouch_short_nonce@);
        assert(content.subrange(16, 96) =~= vouch_box@);
    }
    Ok(slice_to_vec(&*vouch.freeze()))
}

/// Build an INITIATE command with the given nonce suffixes.
pub fn initiate_command(
    client_keypair: &CurveKeyPair,
    client_short_keypair: &CurveKeyPair,
    server_public: &CurvePublicKey,
    server_short_public: &CurvePublicKey,
    cookie: &[u8; CURVE_COOKIE_SIZE],
    vouch_short_nonce: [u8; 16],
    initiate_short_nonce: [u8; 8],
) -> (result: Result<Vec<u8>, ZmtpError>)
    ensures
        match result {
            Ok(command) => command@.subrange(105, 113) == initiate_short_nonce@ && exists|
                vouch: Seq<u8>,
            |
                {
                    &&& #[trigger] vouch_made(
                        vouch,
                        client_keypair@,
                        client_short_keypair.public@,
                        server_public@,
                        server_short_public@,
                    )
                    &&& vouch.subrange(0, 16) == vouch_short_nonce@
                    &&& initiate_sent(
                        command@,
                        cookie@,
                        vouch,
                        client_keypair.public@,
                        client_short_keypair@,
                        server_short_public@,
                    )
                },
            Err(error) => error == ZmtpError::Protocol && (agreed_secret(
                client_keypair.secret@,
                server_short_public@,
            ) is None || agreed_secret(
                client_short_keypair.secret@,
                server_short_public@,
            ) is None),
        },
{
    broadcast use CurvePublicKey::lemma_len;

    let vouch = match make_vouch(
        client_keypair,
        &client_short_keypair.public,
        server_public,
        server_short_public,
        vouch_short_nonce,
    ) {
        Ok(vouch) => vouch,
        Err(error) => return Err(error),
    };
    let mut initiate_plaintext = BytesMut::new();
    initiate_plaintext.extend_from_slice(client_keypair.public.as_bytes());
    initiate_plaintext.extend_from_slice(&vouch);
    assert(bytes_mut_content(initiate_plaintext) =~= client_keypair.public@ + vouch@);

    let initiate_nonce = full_nonce(&CURVE_INITIATE_NONCE_PREFIX, &initiate_short_nonce);
    let initiate_shared = match client_short_keypair.secret.diffie_hellman(server_short_public) {
        Ok(initiate_shared) => initiate_shared,
        Err(_) => return Err(ZmtpError::Protocol),
    };
    let initiate_box = match CurveBox::new(&initiate_shared).encrypt(
        &initiate_plaintext,
        &initiate_nonce,
    ) {
        Ok(initiate_box) => initiate_box,
        Err(_) => return Err(ZmtpError::Protocol),
    };
    let mut initiate = BytesMut::new();
    initiate.extend_from_slice(&CURVE_INITIATE);
    initiate.extend_from_slice(cookie);
    initiate.extend_from_slice(&initiate_short_nonce);
    initiate.extend_from_slice(&initiate_box);
    proof {
        let content = bytes_mut_content(initiate);
        assert(content.subrange(0, 9) =~= CURVE_INITIATE@);
        assert(content.subrange(9, 105) =~= cookie@);
        assert(content.subrange(105, 113) =~= initiate_short_nonce@);
        assert(content.subrange(113, 257) =~= initiate_box@);
        assert(vouch_made(
            vouch@,
            client_keypair@,
            client_short_keypair.public@,
            server_public@,
            server_short_public@,
        ));
    }
    Ok(slice_to_vec(&*initiate.freeze()))
}

} // verus!
