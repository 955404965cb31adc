//! What the keys, boxes, commands and messages are, byte by byte, in terms of X25519 and of
//! ChaCha20-Poly1305 alone.

use crate::buffers::bytes_content;
use crate::security::curve::error::CurveError;
use crate::security::curve::hello::{hello_read, hello_sent};
use crate::security::curve::initiate::{initiate_sent, vouch_made, InitiateContext, InitiateParts};
use crate::security::curve::keys::{agreed_secret, CurvePublicKey, KeyPair};
use crate::security::curve::message::{
    decrypt_outcome, encrypt_outcome, receivable_len, sendable_len, Session,
};
use crate::security::curve::primitives::{
    aead_open, aead_seal, decryptable_len, encryptable_len, x25519_public, x25519_shared,
};
use crate::security::curve::ready::{ready_read, ready_sent};
use crate::security::curve::welcome::{cookie_baked, welcome_read, welcome_sent};
use crate::security::curve::wire::{
    aead_nonce, be_value, boxed, unboxed, zeros, CURVE_CLIENT_MESSAGE_PREFIX,
    CURVE_COOKIE_NONCE_PREFIX, CURVE_HELLO_NONCE_PREFIX, CURVE_INITIATE_NONCE_PREFIX,
    CURVE_MESSAGE, CURVE_READY_NONCE_PREFIX, CURVE_SERVER_MESSAGE_PREFIX,
    CURVE_VOUCH_NONCE_PREFIX, CURVE_WELCOME_NONCE_PREFIX,
};
use bytes::Bytes;
use vstd::prelude::*;

verus! {

/// Some byte is not zero.
pub open spec fn not_all_zero(bytes: Seq<u8>) -> bool {
    exists|i: int| 0 <= i < bytes.len() && #[trigger] bytes[i] != 0
}

/// The number that 8 bytes spell, the first one counting most.
pub open spec fn counter_number(bytes: Seq<u8>) -> int {
    bytes[0] * 0x100_0000_0000_0000 + bytes[1] * 0x1_0000_0000_0000 + bytes[2] * 0x100_0000_0000
        + bytes[3] * 0x1_0000_0000 + bytes[4] * 0x100_0000 + bytes[5] * 0x1_0000 + bytes[6] * 0x100
        + bytes[7]
}

/// A counter is spelled with its most significant byte first.
pub proof fn law_counters_are_big_endian(bytes: Seq<u8>)
    requires
        bytes.len() == 8,
    ensures
        be_value(bytes) == counter_number(bytes),
{
    reveal_with_fuel(be_value, 9);
    let b7 = bytes.drop_last();
    let b6 = b7.drop_last();
    let b5 = b6.drop_last();
    let b4 = b5.drop_last();
    let b3 = b4.drop_last();
    let b2 = b3.drop_last();
    let b1 = b2.drop_last();
    assert(be_value(b1.drop_last()) == 0);
    assert(be_value(b1) == bytes[0]);
    assert(be_value(b2) == be_value(b1) * 256 + bytes[1]);
    assert(be_value(b3) == be_value(b2) * 256 + bytes[2]);
    assert(be_value(b4) == be_value(b3) * 256 + bytes[3]);
    assert(be_value(b5) == be_value(b4) * 256 + bytes[4]);
    assert(be_value(b6) == be_value(b5) * 256 + bytes[5]);
    assert(be_value(b7) == be_value(b6) * 256 + bytes[6]);
    assert(be_value(bytes) == be_value(b7) * 256 + bytes[7]);
}

/// A run of zeros has its length and nothing but zeros.
pub proof fn law_zeros_are_zeros(len: nat)
    ensures
        zeros(len).len() == len,
        forall|i: int| 0 <= i < len ==> #[trigger] zeros(len)[i] == 0,
        !not_all_zero(zeros(len)),
{
}

/// Bytes of the same length as a run of zeros equal it unless some byte is not zero.
proof fn lemma_zeros_or_not(bytes: Seq<u8>)
    ensures
        bytes == zeros(bytes.len()) <==> !not_all_zero(bytes),
{
    if !not_all_zero(bytes) {
        assert(bytes =~= zeros(bytes.len()));
    }
}

/// The secret that two keys agree on is the X25519 output, all of it; only an all-zero
/// output is refused.
pub proof fn law_agreed_secret_is_x25519(secret: Seq<u8>, public: Seq<u8>)
    requires
        x25519_shared(secret, public).len() == 32,
    ensures
        agreed_secret(secret, public) matches Some(shared) ==> shared == x25519_shared(
            secret,
            public,
        ),
        agreed_secret(secret, public) is Some <==> not_all_zero(x25519_shared(secret, public)),
        agreed_secret(secret, public) is None <==> (forall|i: int|
            0 <= i < 32 ==> #[trigger] x25519_shared(secret, public)[i] == 0),
{
    lemma_zeros_or_not(x25519_shared(secret, public));
}

/// Public keys are equal if and only if all their bytes are.
pub proof fn law_key_equality_is_by_bytes(a: CurvePublicKey, b: CurvePublicKey)
    ensures
        vstd::std_specs::cmp::PartialEqSpec::eq_spec(&a, &b) <==> a@ == b@,
        vstd::std_specs::cmp::PartialEqSpec::eq_spec(&a, &b) <==> a == b,
{
    a.lemma_determined(b);
}

/// A box is the cipher's output under the last 12 bytes of the nonce, for the whole
/// plaintext.
pub proof fn law_box_is_the_cipher(
    key: Seq<u8>,
    nonce: Seq<u8>,
    plaintext: Seq<u8>,
    ciphertext: Seq<u8>,
)
    requires
        nonce.len() == 24,
    ensures
        boxed(key, nonce, plaintext, ciphertext) ==> aead_seal(
            key,
            nonce.subrange(12, 24),
            plaintext,
        ) == Some(ciphertext) && ciphertext.len() == plaintext.len() + 16,
        unboxed(key, nonce, ciphertext) == aead_open(key, nonce.subrange(12, 24), ciphertext),
{
}

/// The lengths that can be sealed and opened are all but those on which the cipher's block
/// counter runs out, or that no buffer can hold.
pub proof fn law_lengths(len: int)
    requires
        0 <= len,
    ensures
        sendable_len(len) <==> 2 * (len + 32) <= isize::MAX && (len <= 0x3f_ffff_ff80 || len
            >= 0x3f_ffff_ffc0),
        receivable_len(len) <==> len - 32 <= 0x3f_ffff_ff80 || len - 32 >= 0x3f_ffff_ffc0,
        encryptable_len(len) <==> len + 16 <= isize::MAX && (len <= 0x3f_ffff_ff80 || len
            >= 0x3f_ffff_ffc0),
        decryptable_len(len) <==> len - 16 <= 0x3f_ffff_ff80 || len - 16 >= 0x3f_ffff_ffc0,
{
}

/// The cipher nonce of a 16-byte prefix and an 8-byte suffix: the last 4 bytes of the prefix
/// and the suffix.
proof fn lemma_long_prefix(prefix: Seq<u8>, suffix: Seq<u8>)
    requires
        prefix.len() == 16,
        suffix.len() == 8,
    ensures
        aead_nonce(prefix + suffix) == prefix.subrange(12, 16) + suffix,
{
    assert(aead_nonce(prefix + suffix) =~= prefix.subrange(12, 16) + suffix);
}

/// The cipher nonce of an 8-byte prefix and a 16-byte suffix: the last 12 bytes of the
/// suffix.
proof fn lemma_short_prefix(prefix: Seq<u8>, suffix: Seq<u8>)
    requires
        prefix.len() == 8,
        suffix.len() == 16,
    ensures
        aead_nonce(prefix + suffix) == suffix.subrange(4, 16),
{
    assert(aead_nonce(prefix + suffix) =~= suffix.subrange(4, 16));
}

/// A HELLO command is `\x05HELLO`, version 1.0, 72 zeros, the client's short-term public
/// key, an 8-byte nonce and 64 zeros sealed for the server.
pub proof fn law_hello_bytes(command: Seq<u8>, client_short: KeyPair, server_public: Seq<u8>)
    requires
        hello_sent(command, client_short, server_public),
    ensures
        command.len() == 200,
        command.subrange(0, 8) == seq![5u8, 72, 69, 76, 76, 79, 1, 0],
        forall|i: int| 8 <= i < 80 ==> #[trigger] command[i] == 0,
        command.subrange(80, 112) == client_short.public,
        aead_seal(
            x25519_shared(client_short.secret, server_public),
            seq![79u8, 45, 45, 45] + command.subrange(112, 120),
            Seq::new(64, |i: int| 0u8),
        ) == Some(command.subrange(120, 200)),
{
    assert forall|i: int| 8 <= i < 80 implies #[trigger] command[i] == 0 by {
        assert(command.subrange(8, 80)[i - 8] == zeros(72)[i - 8]);
    }
    assert(command.subrange(0, 8) =~= command.subrange(0, 6) + command.subrange(6, 8));
    let prefix = CURVE_HELLO_NONCE_PREFIX@;
    lemma_long_prefix(prefix, command.subrange(112, 120));
    assert(prefix.subrange(12, 16) =~= seq![79u8, 45, 45, 45]);
    assert(zeros(64) =~= Seq::new(64, |i: int| 0u8));
}

/// A server accepts a HELLO body if and only if it has the right length, version and
/// padding, its key and the X25519 output with that key are not all zero, and its box opens
/// under that output to 64 zeros.
pub proof fn law_hello_acceptance(body: Seq<u8>, server_secret: Seq<u8>, key: Seq<u8>)
    requires
        x25519_shared(server_secret, body.subrange(74, 106)).len() == 32,
    ensures
        hello_read(body, server_secret) == Some(key) <==> {
            &&& body.len() == 194
            &&& body[0] == 1
            &&& body[1] == 0
            &&& forall|i: int| 2 <= i < 74 ==> #[trigger] body[i] == 0
            &&& key == body.subrange(74, 106)
            &&& not_all_zero(key)
            &&& not_all_zero(x25519_shared(server_secret, key))
            &&& aead_open(
                x25519_shared(server_secret, key),
                seq![79u8, 45, 45, 45] + body.subrange(106, 114),
                body.subrange(114, 194),
            ) == Some(Seq::new(64, |i: int| 0u8))
        },
{
    if body.len() == 194 {
        let found = body.subrange(74, 106);
        law_agreed_secret_is_x25519(server_secret, found);
        lemma_zeros_or_not(found);
        let prefix = CURVE_HELLO_NONCE_PREFIX@;
        lemma_long_prefix(prefix, body.subrange(106, 114));
        assert(prefix.subrange(12, 16) =~= seq![79u8, 45, 45, 45]);
        assert(zeros(64) =~= Seq::new(64, |i: int| 0u8));
        if body[0] == 1 && body[1] == 0 {
            assert(body.subrange(0, 2) =~= seq![1u8, 0u8]);
        } else {
            assert(body.subrange(0, 2)[0] == body[0] && body.subrange(0, 2)[1] == body[1]);
        }
        if forall|i: int| 2 <= i < 74 ==> #[trigger] body[i] == 0 {
            assert(body.subrange(2, 74) =~= zeros(72));
        } else {
            let i = choose|i: int| 2 <= i < 74 && #[trigger] body[i] != 0;
            assert(body.subrange(2, 74)[i - 2] != zeros(72)[i - 2]);
        }
    }
}

/// A cookie is a 16-byte nonce and, sealed under the cookie key, the client's short-term
/// public key and the server's short-term secret key.
pub proof fn law_cookie_bytes(
    cookie: Seq<u8>,
    cookie_key: Seq<u8>,
    client_short_public: Seq<u8>,
    server_short_secret: Seq<u8>,
)
    requires
        cookie_baked(cookie, cookie_key, client_short_public, server_short_secret),
    ensures
        cookie.len() == 96,
        aead_seal(
            cookie_key,
            cookie.subrange(4, 16),
            client_short_public + server_short_secret,
        ) == Some(cookie.subrange(16, 96)),
{
    let prefix = CURVE_COOKIE_NONCE_PREFIX@;
    lemma_short_prefix(prefix, cookie.subrange(0, 16));
    assert(cookie.subrange(0, 16).subrange(4, 16) =~= cookie.subrange(4, 16));
}

/// A WELCOME command is `\x07WELCOME`, a 16-byte nonce and, sealed for the client, the
/// server's short-term public key and the cookie.
pub proof fn law_welcome_bytes(
    command: Seq<u8>,
    cookie: Seq<u8>,
    server: KeyPair,
    server_short_public: Seq<u8>,
    client_short_public: Seq<u8>,
)
    requires
        welcome_sent(command, cookie, server, server_short_public, client_short_public),
    ensures
        command.len() == 168,
        command.subrange(0, 8) == seq![7u8, 87, 69, 76, 67, 79, 77, 69],
        aead_seal(
            x25519_shared(server.secret, client_short_public),
            command.subrange(12, 24),
            server_short_public + cookie,
        ) == Some(command.subrange(24, 168)),
{
    let prefix = CURVE_WELCOME_NONCE_PREFIX@;
    assert(command.subrange(0, 8) =~= seq![7u8, 87, 69, 76, 67, 79, 77, 69]);
    lemma_short_prefix(prefix, command.subrange(8, 24));
    assert(command.subrange(8, 24).subrange(4, 16) =~= command.subrange(12, 24));
}

/// A client accepts a WELCOME command if and only if it has the right lengths, the X25519
/// output with the server's key is not all zero, and the box opens under it to a short-term
/// key that is not all zero and 96 bytes of cookie.
pub proof fn law_welcome_acceptance(
    nonce: Seq<u8>,
    welcome_box: Seq<u8>,
    client_short_secret: Seq<u8>,
    server_public: Seq<u8>,
    key: Seq<u8>,
    cookie: Seq<u8>,
)
    requires
        x25519_shared(client_short_secret, server_public).len() == 32,
    ensures
        welcome_read(nonce, welcome_box, client_short_secret, server_public) == Some((key, cookie))
            <==> {
            &&& nonce.len() == 16
            &&& welcome_box.len() == 144
            &&& key.len() == 32
            &&& cookie.len() == 96
            &&& not_all_zero(key)
            &&& not_all_zero(x25519_shared(client_short_secret, server_public))
            &&& aead_open(
                x25519_shared(client_short_secret, server_public),
                nonce.subrange(4, 16),
                welcome_box,
            ) == Some(key + cookie)
        },
{
    if nonce.len() == 16 {
        let prefix = CURVE_WELCOME_NONCE_PREFIX@;
        lemma_short_prefix(prefix, nonce);
        law_agreed_secret_is_x25519(client_short_secret, server_public);
        if key.len() == 32 && cookie.len() == 96 {
            lemma_zeros_or_not(key);
            assert((key + cookie).subrange(0, 32) =~= key);
            assert((key + cookie).subrange(32, 128) =~= cookie);
        }
        match welcome_read(nonce, welcome_box, client_short_secret, server_public) {
            Some((read_key, read_cookie)) => {
                let plaintext = aead_open(
                    x25519_shared(client_short_secret, server_public),
                    nonce.subrange(4, 16),
                    welcome_box,
                )->Some_0;
                assert(plaintext =~= read_key + read_cookie);
            },
            None => {},
        }
    }
}

/// A vouch is a 16-byte nonce and, sealed by the client's long-term key for the server's
/// short-term key, the client's short-term and the server's long-term public key.
pub proof fn law_vouch_bytes(
    vouch: Seq<u8>,
    client: KeyPair,
    client_short_public: Seq<u8>,
    server_public: Seq<u8>,
    server_short_public: Seq<u8>,
)
    requires
        vouch_made(vouch, client, client_short_public, server_public, server_short_public),
    ensures
        vouch.len() == 96,
        aead_seal(
            x25519_shared(client.secret, server_short_public),
            vouch.subrange(4, 16),
            client_short_public + server_public,
        ) == Some(vouch.subrange(16, 96)),
{
    let prefix = CURVE_VOUCH_NONCE_PREFIX@;
    lemma_short_prefix(prefix, vouch.subrange(0, 16));
    assert(vouch.subrange(0, 16).subrange(4, 16) =~= vouch.subrange(4, 16));
}

/// An INITIATE command is `\x08INITIATE`, the cookie, an 8-byte nonce and, sealed between
/// the short-term keys, the client's long-term public key and the vouch.
pub proof fn law_initiate_bytes(
    command: Seq<u8>,
    cookie: Seq<u8>,
    vouch: Seq<u8>,
    client_public: Seq<u8>,
    client_short: KeyPair,
    server_short_public: Seq<u8>,
)
    requires
        initiate_sent(command, cookie, vouch, client_public, client_short, server_short_public),
    ensures
        command.len() == 257,
        command.subrange(0, 9) == seq![8u8, 73, 78, 73, 84, 73, 65, 84, 69],
        command.subrange(9, 105) == cookie,
        aead_seal(
            x25519_shared(client_short.secret, server_short_public),
            seq![73u8, 65, 84, 69] + command.subrange(105, 113),
            client_public + vouch,
        ) == Some(command.subrange(113, 257)),
{
    let prefix = CURVE_INITIATE_NONCE_PREFIX@;
    assert(command.subrange(0, 9) =~= seq![8u8, 73, 78, 73, 84, 73, 65, 84, 69]);
    lemma_long_prefix(prefix, command.subrange(105, 113));
    assert(prefix.subrange(12, 16) =~= seq![73u8, 65, 84, 69]);
}

/// A server accepts an INITIATE command if and only if the box opens under the X25519 output
/// of the short-term keys to a long-term public key and a vouch, the vouch opens under the
/// output with that key to the client's short-term and the server's long-term public key,
/// and the cookie opens under the cookie key to the client's short-term public key and a
/// secret key that belongs to the server's short-term public key; no output is all zero.
pub proof fn law_initiate_acceptance(
    context: InitiateContext,
    parts: InitiateParts,
    client_public: Seq<u8>,
)
    requires
        x25519_shared(context.server_short.secret, context.client_short_public).len() == 32,
        x25519_shared(context.server_short.secret, client_public).len() == 32,
    ensures
        context.read(parts) == Some(client_public) <==> {
            let shared = x25519_shared(context.server_short.secret, context.client_short_public);
            let opened = aead_open(shared, seq![73u8, 65, 84, 69] + parts.nonce, parts.boxed);
            let vouch = opened->Some_0.subrange(32, 128);
            let vouch_shared = x25519_shared(context.server_short.secret, client_public);
            let cookie_text = aead_open(
                context.cookie_key,
                parts.cookie.subrange(4, 16),
                parts.cookie.subrange(16, 96),
            );
            &&& parts.cookie.len() == 96
            &&& parts.nonce.len() == 8
            &&& parts.boxed.len() == 144
            &&& not_all_zero(shared)
            &&& opened is Some
            &&& opened->Some_0.len() >= 128
            &&& client_public == opened->Some_0.subrange(0, 32)
            &&& not_all_zero(vouch_shared)
            &&& aead_open(vouch_shared, vouch.subrange(4, 16), vouch.subrange(16, 96)) == Some(
                context.client_short_public + context.server.public,
            )
            &&& cookie_text is Some
            &&& cookie_text->Some_0.len() == 64
            &&& cookie_text->Some_0.subrange(0, 32) == context.client_short_public
            &&& x25519_public(cookie_text->Some_0.subrange(32, 64)) == context.server_short.public
        },
{
    if parts.cookie.len() == 96 && parts.nonce.len() == 8 && parts.boxed.len() == 144 {
        let prefix = CURVE_INITIATE_NONCE_PREFIX@;
        lemma_long_prefix(prefix, parts.nonce);
        assert(prefix.subrange(12, 16) =~= seq![73u8, 65, 84, 69]);
        law_agreed_secret_is_x25519(context.server_short.secret, context.client_short_public);
        let shared = x25519_shared(context.server_short.secret, context.client_short_public);
        let opened = aead_open(shared, seq![73u8, 65, 84, 69] + parts.nonce, parts.boxed);
        let cookie_prefix = CURVE_COOKIE_NONCE_PREFIX@;
        lemma_short_prefix(cookie_prefix, parts.cookie.subrange(0, 16));
        assert(parts.cookie.subrange(0, 16).subrange(4, 16) =~= parts.cookie.subrange(4, 16));
        if opened is Some && opened->Some_0.len() >= 128 {
            let found = opened->Some_0.subrange(0, 32);
            let vouch = opened->Some_0.subrange(32, 128);
            if found == client_public {
                law_agreed_secret_is_x25519(context.server_short.secret, found);
            }
            let vouch_prefix = CURVE_VOUCH_NONCE_PREFIX@;
            lemma_short_prefix(vouch_prefix, vouch.subrange(0, 16));
            assert(vouch.subrange(0, 16).subrange(4, 16) =~= vouch.subrange(4, 16));
        }
    }
}

/// A READY command is `\x05READY`, an 8-byte nonce and nothing, sealed.
pub proof fn law_ready_bytes(command: Seq<u8>, shared: Seq<u8>)
    requires
        ready_sent(command, shared),
    ensures
        command.len() == 30,
        command.subrange(0, 6) == seq![5u8, 82, 69, 65, 68, 89],
        aead_seal(
            shared,
            seq![89u8, 45, 45, 45] + command.subrange(6, 14),
            Seq::<u8>::empty(),
        ) == Some(command.subrange(14, 30)),
{
    let prefix = CURVE_READY_NONCE_PREFIX@;
    assert(command.subrange(0, 6) =~= seq![5u8, 82, 69, 65, 68, 89]);
    lemma_long_prefix(prefix, command.subrange(6, 14));
    assert(prefix.subrange(12, 16) =~= seq![89u8, 45, 45, 45]);
}

/// A client accepts a READY command if and only if it has the right lengths, the X25519
/// output of the short-term keys is not all zero, and the box opens under it to nothing.
pub proof fn law_ready_acceptance(
    nonce: Seq<u8>,
    ready_box: Seq<u8>,
    client_short_secret: Seq<u8>,
    server_short_public: Seq<u8>,
)
    requires
        x25519_shared(client_short_secret, server_short_public).len() == 32,
    ensures
        ready_read(nonce, ready_box, client_short_secret, server_short_public) <==> {
            &&& nonce.len() == 8
            &&& ready_box.len() == 16
            &&& not_all_zero(x25519_shared(client_short_secret, server_short_public))
            &&& aead_open(
                x25519_shared(client_short_secret, server_short_public),
                seq![89u8, 45, 45, 45] + nonce,
                ready_box,
            ) == Some(Seq::<u8>::empty())
        },
{
    if nonce.len() == 8 {
        let prefix = CURVE_READY_NONCE_PREFIX@;
        lemma_long_prefix(prefix, nonce);
        assert(prefix.subrange(12, 16) =~= seq![89u8, 45, 45, 45]);
        law_agreed_secret_is_x25519(client_short_secret, server_short_public);
    }
}

/// A client sends under `CurveZMQMESSAGEC` and receives under `CurveZMQMESSAGES`, a server
/// the other way round, both from counter zero.
pub proof fn law_session_start(key: Seq<u8>)
    ensures
        Session::client(key).key == key,
        Session::server(key).key == key,
        Session::client(key).send_nonce == 0,
        Session::client(key).recv_nonce == 0,
        Session::server(key).send_nonce == 0,
        Session::server(key).recv_nonce == 0,
        Session::client(key).send_prefix == seq![
            67u8, 117, 114, 118, 101, 90, 77, 81, 77, 69, 83, 83, 65, 71, 69, 67,
        ],
        Session::client(key).recv_prefix == seq![
            67u8, 117, 114, 118, 101, 90, 77, 81, 77, 69, 83, 83, 65, 71, 69, 83,
        ],
        Session::server(key).send_prefix == Session::client(key).recv_prefix,
        Session::server(key).recv_prefix == Session::client(key).send_prefix,
{
    assert(CURVE_CLIENT_MESSAGE_PREFIX@ =~= seq![
        67u8, 117, 114, 118, 101, 90, 77, 81, 77, 69, 83, 83, 65, 71, 69, 67,
    ]);
    assert(CURVE_SERVER_MESSAGE_PREFIX@ =~= seq![
        67u8, 117, 114, 118, 101, 90, 77, 81, 77, 69, 83, 83, 65, 71, 69, 83,
    ]);
}

/// The fields of a session other than its two counters are the same.
pub open spec fn same_setup(before: Session, after: Session) -> bool {
    &&& after.key == before.key
    &&& after.send_prefix == before.send_prefix
    &&& after.recv_prefix == before.recv_prefix
}

/// What sealing a message does: unless the counter is exhausted or the plaintext too long,
/// it returns `\x07MESSAGE`, the counter and the whole plaintext sealed under the session's
/// key and the cipher nonce of its prefix and that counter. The counter is used up.
pub proof fn law_encrypted_message(
    before: Session,
    plaintext: Seq<u8>,
    result: Result<Bytes, CurveError>,
    after: Session,
)
    requires
        encrypt_outcome(before, plaintext, result, after),
        before.send_prefix.len() == 16,
    ensures
        result is Ok <==> before.send_nonce < u64::MAX && plaintext.len() < 0x3f_ffff_ffc0,
        result matches Ok(message) ==> {
            let bytes = bytes_content(message);
            &&& bytes.len() == plaintext.len() + 32
            &&& bytes.subrange(0, 8) == seq![7u8, 77, 69, 83, 83, 65, 71, 69]
            &&& counter_number(bytes.subrange(8, 16)) == before.send_nonce
            &&& aead_seal(
                before.key,
                before.send_prefix.subrange(12, 16) + bytes.subrange(8, 16),
                plaintext,
            ) == Some(bytes.skip(16))
        },
        result matches Err(error) ==> if before.send_nonce == u64::MAX {
            error is ProtocolViolation
        } else {
            error is EncryptionFailed
        },
        before.send_nonce < u64::MAX ==> after.send_nonce == before.send_nonce + 1,
        before.send_nonce == u64::MAX ==> after.send_nonce == u64::MAX,
        after.recv_nonce == before.recv_nonce,
        same_setup(before, after),
{
    if result is Ok {
        let bytes = bytes_content(result->Ok_0);
        law_counters_are_big_endian(bytes.subrange(8, 16));
        lemma_long_prefix(before.send_prefix, bytes.subrange(8, 16));
        assert(bytes.subrange(0, 8) =~= seq![7u8, 77, 69, 83, 83, 65, 71, 69]);
        assert(bytes.skip(16) =~= bytes.subrange(16, bytes.len() as int));
    }
}

/// What opening a received command does: it is a violation unless it starts with
/// `\x07MESSAGE` and a counter that is neither below what is still accepted nor the last
/// one. Otherwise the result is what the box opens to, all of it, or a failed decryption if
/// it does not open. Only success moves the counter, to one past that of the command.
pub proof fn law_decrypted_message(
    before: Session,
    message: Seq<u8>,
    result: Result<Bytes, CurveError>,
    after: Session,
)
    requires
        decrypt_outcome(before, message, result, after),
        before.recv_prefix.len() == 16,
    ensures
        ({
            let counter = counter_number(message.subrange(8, 16));
            let acceptable = message.len() >= 16 && message.subrange(0, 8) == seq![
                7u8, 77, 69, 83, 83, 65, 71, 69,
            ] && before.recv_nonce <= counter < u64::MAX;
            let opened = aead_open(
                before.key,
                before.recv_prefix.subrange(12, 16) + message.subrange(8, 16),
                message.skip(16),
            );
            &&& !acceptable ==> (result matches Err(error) && error is ProtocolViolation)
            &&& acceptable ==> match opened {
                Some(content) => result matches Ok(plaintext) && bytes_content(plaintext)
                    == content,
                None => result matches Err(error) && error is DecryptionFailed,
            }
            &&& result is Ok ==> after.recv_nonce == counter + 1
            &&& result is Err ==> after.recv_nonce == before.recv_nonce
            &&& after.send_nonce == before.send_nonce
            &&& same_setup(before, after)
        }),
{
    if message.len() >= 16 {
        law_counters_are_big_endian(message.subrange(8, 16));
        lemma_long_prefix(before.recv_prefix, message.subrange(8, 16));
        let name = CURVE_MESSAGE@;
        assert(name =~= seq![7u8, 77, 69, 83, 83, 65, 71, 69]);
        assert(message.skip(16) =~= message.subrange(16, message.len() as int));
    }
}

/// What one end seals, the other reads back, all of it: same key, the sender's prefix is the
/// one that the receiver expects, and the receiver is not ahead of the message.
pub proof fn law_encrypt_then_decrypt(
    sender: Session,
    plaintext: Seq<u8>,
    sent: Result<Bytes, CurveError>,
    sender_after: Session,
    receiver: Session,
    received: Result<Bytes, CurveError>,
    receiver_after: Session,
)
    requires
        encrypt_outcome(sender, plaintext, sent, sender_after),
        sent is Ok,
        decrypt_outcome(receiver, bytes_content(sent->Ok_0), received, receiver_after),
        sender.key == receiver.key,
        sender.send_prefix == receiver.recv_prefix,
        sender.send_prefix.len() == 16,
        receiver.recv_nonce <= sender.send_nonce,
    ensures
        received matches Ok(content) && bytes_content(content) == plaintext,
        bytes_content(sent->Ok_0).len() == plaintext.len() + 32,
        receiver_after.recv_nonce == sender_after.send_nonce,
{
    let message = bytes_content(sent->Ok_0);
    law_encrypted_message(sender, plaintext, sent, sender_after);
    law_decrypted_message(receiver, message, received, receiver_after);
    assert(message.skip(16) =~= message.subrange(16, message.len() as int));
    lemma_long_prefix(sender.send_prefix, message.subrange(8, 16));
}

/// A command that was opened once is a violation the second time.
pub proof fn law_decrypt_twice(
    receiver: Session,
    message: Seq<u8>,
    first: Result<Bytes, CurveError>,
    between: Session,
    second: Result<Bytes, CurveError>,
    after: Session,
)
    requires
        decrypt_outcome(receiver, message, first, between),
        first is Ok,
        decrypt_outcome(between, message, second, after),
        receiver.recv_prefix.len() == 16,
    ensures
        second matches Err(error) && error is ProtocolViolation,
{
    law_decrypted_message(receiver, message, first, between);
    law_decrypted_message(between, message, second, after);
}

} // verus!
