//! What holds of the commands of the CURVE handshake: those of an honest peer are accepted,
//! and together they complete the handshake.

use crate::security::curve::client::CurveClient;
use crate::security::curve::hello::{hello_read, hello_sent};
use crate::security::curve::initiate::{
    cookie_valid, initiate_sent, vouch_made, vouch_valid, InitiateContext, InitiateParts,
};
use crate::security::curve::keys::{agreed_secret, KeyPair};
use crate::security::curve::message::Session;
use crate::security::curve::primitives::{x25519_public, x25519_shared};
use crate::security::curve::ready::{ready_read, ready_sent};
use crate::security::curve::server::CurveServer;
use crate::security::curve::welcome::{cookie_baked, welcome_read, welcome_sent};
use crate::security::curve::wire::zeros;
use vstd::prelude::*;

verus! {

/// Two key pairs agree on one secret, whichever side computes it, and it is never refused.
pub proof fn law_agreement(a: KeyPair, b: KeyPair)
    requires
        a.valid(),
        b.valid(),
    ensures
        agreed_secret(a.secret, b.public) is Some,
        agreed_secret(a.secret, b.public) == agreed_secret(b.secret, a.public),
{
    assert(x25519_shared(a.secret, x25519_public(b.secret)) == x25519_shared(b.secret, a.public));
}

/// A server accepts the HELLO command of a client that knows the server's public key, and
/// learns the client's short-term public key.
pub proof fn law_hello_accepted(command: Seq<u8>, client_short: KeyPair, server: KeyPair)
    requires
        client_short.valid(),
        server.valid(),
        hello_sent(command, client_short, server.public),
    ensures
        hello_read(command.subrange(6, 200), server.secret) == Some(client_short.public),
{
    let body = command.subrange(6, 200);
    law_agreement(client_short, server);
    assert(body.subrange(0, 2) =~= command.subrange(6, 8));
    assert(body.subrange(2, 74) =~= command.subrange(8, 80));
    assert(body.subrange(74, 106) =~= command.subrange(80, 112));
    assert(body.subrange(106, 114) =~= command.subrange(112, 120));
    assert(body.subrange(114, 194) =~= command.subrange(120, 200));
}

/// No server accepts a HELLO command with another version than 1.0 or with an all-zero
/// client key.
pub proof fn law_hello_refused(body: Seq<u8>, server_secret: Seq<u8>)
    requires
        body.subrange(0, 2) != seq![1u8, 0u8] || body.subrange(74, 106) == zeros(32),
    ensures
        hello_read(body, server_secret) is None,
{
}

/// A client accepts the WELCOME command of the server whose public key it knows, and learns
/// the server's short-term public key and the cookie.
pub proof fn law_welcome_accepted(
    command: Seq<u8>,
    cookie: Seq<u8>,
    server: KeyPair,
    server_short: KeyPair,
    client_short: KeyPair,
)
    requires
        server.valid(),
        server_short.valid(),
        client_short.valid(),
        cookie.len() == 96,
        welcome_sent(command, cookie, server, server_short.public, client_short.public),
    ensures
        welcome_read(
            command.subrange(8, 24),
            command.subrange(24, 168),
            client_short.secret,
            server.public,
        ) == Some((server_short.public, cookie)),
{
    law_agreement(client_short, server);
    let plaintext = server_short.public + cookie;
    assert(plaintext.subrange(0, 32) =~= server_short.public);
    assert(plaintext.subrange(32, 128) =~= cookie);
}

/// A server accepts an INITIATE command that returns its cookie and vouches for the
/// client's short-term key, and learns the client's long-term public key.
pub proof fn law_initiate_accepted(
    command: Seq<u8>,
    cookie: Seq<u8>,
    vouch: Seq<u8>,
    cookie_key: Seq<u8>,
    client: KeyPair,
    client_short: KeyPair,
    server: KeyPair,
    server_short: KeyPair,
)
    requires
        client.valid(),
        client_short.valid(),
        server.valid(),
        server_short.valid(),
        cookie_baked(cookie, cookie_key, client_short.public, server_short.secret),
        vouch_made(vouch, client, client_short.public, server.public, server_short.public),
        initiate_sent(
            command,
            cookie,
            vouch,
            client.public,
            client_short,
            server_short.public,
        ),
    ensures
        (InitiateContext {
            server,
            server_short,
            client_short_public: client_short.public,
            cookie_key,
        }).read(
            InitiateParts {
                cookie: command.subrange(9, 105),
                nonce: command.subrange(105, 113),
                boxed: command.subrange(113, 257),
            },
        ) == Some(client.public),
{
    law_agreement(client_short, server_short);
    law_agreement(client, server_short);
    let plaintext = client.public + vouch;
    assert(plaintext.subrange(0, 32) =~= client.public);
    assert(plaintext.subrange(32, 128) =~= vouch);
    assert(vouch_valid(
        vouch,
        client.public,
        client_short.public,
        server.public,
        server_short.secret,
    ));
    let cookie_text = client_short.public + server_short.secret;
    assert(cookie_text.subrange(0, 32) =~= client_short.public);
    assert(cookie_text.subrange(32, 64) =~= server_short.secret);
    assert(cookie_valid(cookie, cookie_key, client_short.public, server_short.public));
}

/// A client accepts the READY command of the server whose short-term key it learned.
pub proof fn law_ready_accepted(
    command: Seq<u8>,
    shared: Seq<u8>,
    client_short: KeyPair,
    server_short: KeyPair,
)
    requires
        client_short.valid(),
        server_short.valid(),
        agreed_secret(server_short.secret, client_short.public) == Some(shared),
        ready_sent(command, shared),
    ensures
        ready_read(
            command.subrange(6, 14),
            command.subrange(14, 30),
            client_short.secret,
            server_short.public,
        ),
        agreed_secret(client_short.secret, server_short.public) == Some(shared),
{
    law_agreement(client_short, server_short);
}

/// Between a client and the server whose public key it was given, every command of the
/// handshake can be made and is accepted. At the end the server knows the client's
/// long-term public key and both hold a session under the same secret.
///
/// The parameters are the four commands and the states in between, each related to the one
/// before by what the methods of the two state machines promise.
pub proof fn law_handshake_completes(
    client: CurveClient,
    server: CurveServer,
    hello: Seq<u8>,
    greeted: CurveServer,
    baked: CurveServer,
    welcome: Seq<u8>,
    welcomed: CurveClient,
    initiate: Seq<u8>,
    initiated: CurveServer,
    ready: Seq<u8>,
    client_done: CurveClient,
    server_done: CurveServer,
)
    requires
        client.client_keypair@.valid(),
        client.client_short_keypair@.valid(),
        server.server_keypair@.valid(),
        server.server_short_keypair@.valid(),
        client.server_public@ == server.server_keypair.public@,
        hello_sent(hello, client.client_short_keypair@, client.server_public@),
        server.took_hello(client.client_short_keypair.public@, greeted),
        greeted.drew_cookie_key(baked),
        baked.welcomes(welcome),
        client.reads_welcome(welcome.subrange(8, 24), welcome.subrange(24, 168)) matches Some(
            (key, cookie),
        ) ==> client.took_welcome(key, cookie, welcomed),
        welcomed.initiates(initiate),
        baked.took_initiate(client.client_keypair.public@, initiated),
        initiated.session_secret() matches Some(shared) ==> ready_sent(ready, shared)
            && initiated.started_session(shared, server_done),
        welcomed.without_cookie().took_ready(client_done),
    ensures
        agreed_secret(client.client_short_keypair.secret@, client.server_public@) is Some,
        hello_read(hello.subrange(6, 200), server.server_keypair.secret@) == Some(
            client.client_short_keypair.public@,
        ),
        greeted.can_welcome(),
        client.reads_welcome(welcome.subrange(8, 24), welcome.subrange(24, 168)) matches Some(
            (key, cookie),
        ) && key == server.server_short_keypair.public@,
        welcomed.can_initiate(),
        baked.reads_initiate(
            initiate.subrange(9, 105),
            initiate.subrange(105, 113),
            initiate.subrange(113, 257),
        ) == Some(client.client_keypair.public@),
        initiated.session_secret() is Some,
        welcomed.without_cookie().accepts_ready(ready.subrange(6, 14), ready.subrange(14, 30)),
        server_done.client_public->Some_0@ == client.client_keypair.public@,
        exists|shared: Seq<u8>|
            client_done.session_cipher->Some_0@ == #[trigger] Session::client(shared)
                && server_done.session_cipher->Some_0@ == Session::server(shared),
{
    let client_long = client.client_keypair@;
    let client_short = client.client_short_keypair@;
    let server_long = server.server_keypair@;
    let server_short = server.server_short_keypair@;

    law_agreement(client_short, server_long);
    law_agreement(client_long, server_short);
    law_agreement(client_short, server_short);
    law_hello_accepted(hello, client_short, server_long);

    let cookie_key = baked.cookie_key->Some_0@;
    let cookie = choose|cookie: Seq<u8>|
        #[trigger] cookie_baked(
            cookie,
            cookie_key,
            client_short.public,
            server_short.secret,
        ) && welcome_sent(welcome, cookie, server_long, server_short.public, client_short.public);
    law_welcome_accepted(welcome, cookie, server_long, server_short, client_short);

    let vouch = choose|vouch: Seq<u8>|
        #[trigger] vouch_made(
            vouch,
            client_long,
            client_short.public,
            server_long.public,
            server_short.public,
        ) && initiate_sent(
            initiate,
            cookie,
            vouch,
            client_long.public,
            client_short,
            server_short.public,
        );
    law_initiate_accepted(
        initiate,
        cookie,
        vouch,
        cookie_key,
        client_long,
        client_short,
        server_long,
        server_short,
    );

    let shared = initiated.session_secret()->Some_0;
    law_ready_accepted(ready, shared, client_short, server_short);
    assert(client_done.session_cipher->Some_0@ == Session::client(shared));
}

/// No server accepts an INITIATE command before HELLO told it the client's short-term key.
pub proof fn law_initiate_needs_hello(
    server: CurveServer,
    cookie: Seq<u8>,
    nonce: Seq<u8>,
    initiate_box: Seq<u8>,
)
    requires
        server.client_short_public is None,
    ensures
        server.reads_initiate(cookie, nonce, initiate_box) is None,
{
}

/// A server that accepted an INITIATE command accepts no second one, whatever it holds: its
/// cookie key is gone.
pub proof fn law_cookie_accepted_once(
    server: CurveServer,
    client_public: Seq<u8>,
    after: CurveServer,
    cookie: Seq<u8>,
    nonce: Seq<u8>,
    initiate_box: Seq<u8>,
)
    requires
        server.took_initiate(client_public, after),
    ensures
        after.reads_initiate(cookie, nonce, initiate_box) is None,
{
}

/// A client returns a cookie only once: after INITIATE it can make no second one until it
/// accepts another WELCOME.
pub proof fn law_cookie_returned_once(client: CurveClient)
    ensures
        !client.without_cookie().can_initiate(),
{
}

} // verus!
