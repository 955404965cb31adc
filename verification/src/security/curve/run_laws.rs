//! What holds of whole runs of the CURVE handshake: connected honest peers complete it, and
//! nobody else ends up with a session.

use crate::codec::ZmtpError;
use crate::security::curve::client::{ClientStep, CurveClient};
use crate::security::curve::hello::{hello_read, hello_sent};
use crate::security::curve::initiate::{initiate_sent, vouch_made};
use crate::security::curve::keys::{agreed_secret, CurvePublicKey};
use crate::security::curve::laws::{
    law_agreement, law_hello_accepted, law_initiate_accepted, law_ready_accepted,
    law_welcome_accepted,
};
use crate::security::curve::message::{message_formed, Session, Verdict};
use crate::security::curve::ready::ready_sent;
use crate::security::curve::server::{CurveServer, ServerStep};
use crate::security::curve::session_laws::{
    law_message_read_back, law_sessions_move_forward, SessionEvent,
};
use crate::security::curve::step::HandshakeAction;
use crate::security::curve::welcome::{cookie_baked, welcome_sent};
use vstd::prelude::*;

verus! {

/// A run of a client's handshake: its states, the steps that it was told of, what each of
/// them read, and what it answered.
pub struct ClientRun {
    /// The states, one more than there are steps.
    pub clients: Seq<CurveClient>,
    /// The steps.
    pub steps: Seq<ClientStep>,
    /// What each step read.
    pub received: Seq<Seq<u8>>,
    /// The answer to each step.
    pub results: Seq<Result<(ClientStep, HandshakeAction<()>), ZmtpError>>,
}

impl ClientRun {
    /// Each step leads to the next state.
    pub open spec fn valid(self) -> bool {
        &&& self.clients.len() == self.steps.len() + 1
        &&& self.received.len() == self.steps.len()
        &&& self.results.len() == self.steps.len()
        &&& forall|i: int|
            0 <= i < self.steps.len() ==> self.clients[i].handshake_step(
                #[trigger] self.steps[i],
                self.received[i],
                self.clients[i + 1],
                self.results[i],
            )
    }

    /// The run starts at the start, and each step is the one that was answered last.
    pub open spec fn in_order(self) -> bool {
        &&& self.steps.len() > 0 ==> self.steps[0] is Start
        &&& forall|i: int|
            0 < i < self.steps.len() ==> self.results[i - 1] is Ok && #[trigger] self.steps[i]
                == self.results[i - 1]->Ok_0.0
    }

    /// At step `i` the client accepted a WELCOME command with this short-term key. Its box
    /// was sealed under the secret that the client's short-term key and the server's
    /// long-term key agree on.
    pub open spec fn welcomed_at(self, i: int, server_short_public: Seq<u8>) -> bool {
        &&& 0 <= i < self.steps.len()
        &&& self.steps[i] matches ClientStep::WelcomeBox { nonce } && (
        self.clients[i].reads_welcome(nonce@, self.received[i]) matches Some((key, cookie)) && key
            == server_short_public && self.clients[i].welcome_sealed(
            nonce@,
            self.received[i],
            key,
            cookie,
        ))
    }

    /// At step `i` the client accepted a READY command. Its box was sealed under the secret
    /// that the client's short-term key and this short-term key of the server agree on.
    pub open spec fn readied_at(self, i: int, server_short_public: Seq<u8>) -> bool {
        &&& 0 <= i < self.steps.len()
        &&& self.clients[i].server_short_public matches Some(key) && key@ == server_short_public
        &&& self.steps[i] matches ClientStep::ReadyBox { nonce } && self.clients[i].accepts_ready(
            nonce@,
            self.received[i],
        ) && self.clients[i].ready_sealed(nonce@, self.received[i])
    }
}

/// In any run of a client the keys that it started with stay.
pub proof fn law_client_keeps_its_keys(run: ClientRun, i: int)
    requires
        run.valid(),
        0 <= i <= run.steps.len(),
    ensures
        run.clients[i].client_keypair == run.clients[0].client_keypair,
        run.clients[i].client_short_keypair == run.clients[0].client_short_keypair,
        run.clients[i].server_public == run.clients[0].server_public,
    decreases i,
{
    if i > 0 {
        law_client_keeps_its_keys(run, i - 1);
        assert(run.clients[i - 1].handshake_step(
            run.steps[i - 1],
            run.received[i - 1],
            run.clients[i],
            run.results[i - 1],
        ));
    }
}

/// A client knows a short-term key of the server only from a WELCOME command that it
/// accepted.
proof fn lemma_short_key_from_welcome(run: ClientRun, n: int) -> (j: int)
    requires
        run.valid(),
        run.clients[0].server_short_public is None,
        0 <= n <= run.steps.len(),
        run.clients[n].server_short_public is Some,
    ensures
        0 <= j < n,
        run.welcomed_at(j, run.clients[n].server_short_public->Some_0@),
    decreases n,
{
    let i = n - 1;
    assert(run.clients[i].handshake_step(
        run.steps[i],
        run.received[i],
        run.clients[n],
        run.results[i],
    ));
    if run.welcomed_at(i, run.clients[n].server_short_public->Some_0@) {
        i
    } else {
        assert(run.clients[i].server_short_public == run.clients[n].server_short_public);
        lemma_short_key_from_welcome(run, i)
    }
}

/// The server's key is verified by the client: from a fresh client, in any run of handshake
/// steps, a session exists only if the client accepted a WELCOME command that was sealed
/// under the secret with the server's public key, and later a READY command under the
/// short-term key from that WELCOME. The session is the one under the secret with that
/// short-term key.
pub proof fn law_session_needs_the_server(run: ClientRun)
    requires
        run.valid(),
        run.clients[0].server_short_public is None,
        run.clients[0].session_cipher is None,
        run.clients.last().session_cipher is Some,
    ensures
        exists|j: int, k: int, key: Seq<u8>|
            {
                &&& 0 <= j < k < run.steps.len()
                &&& #[trigger] run.welcomed_at(j, key)
                &&& #[trigger] run.readied_at(k, key)
                &&& run.clients.last().session_cipher->Some_0@ == Session::client(
                    agreed_secret(run.clients[0].client_short_keypair.secret@, key)->Some_0,
                )
                &&& run.clients[j].server_public == run.clients[0].server_public
            },
{
    let (j, k) = lemma_session_from_ready(run, run.steps.len() as int);
    law_client_keeps_its_keys(run, j);
    let key = run.clients[k].server_short_public->Some_0@;
    assert(run.welcomed_at(j, key) && run.readied_at(k, key));
}

/// A client has a session only from a READY command that it accepted after a WELCOME.
proof fn lemma_session_from_ready(run: ClientRun, n: int) -> (indices: (int, int))
    requires
        run.valid(),
        run.clients[0].server_short_public is None,
        run.clients[0].session_cipher is None,
        0 <= n <= run.steps.len(),
        run.clients[n].session_cipher is Some,
    ensures
        0 <= indices.0 < indices.1 < n,
        run.welcomed_at(indices.0, run.clients[indices.1].server_short_public->Some_0@),
        run.readied_at(indices.1, run.clients[indices.1].server_short_public->Some_0@),
        run.clients[n].session_cipher->Some_0@ == Session::client(
            agreed_secret(
                run.clients[0].client_short_keypair.secret@,
                run.clients[indices.1].server_short_public->Some_0@,
            )->Some_0,
        ),
    decreases n,
{
    let i = n - 1;
    assert(run.clients[i].handshake_step(
        run.steps[i],
        run.received[i],
        run.clients[n],
        run.results[i],
    ));
    law_client_keeps_its_keys(run, i);
    if run.clients[i].server_short_public is Some && run.readied_at(
        i,
        run.clients[i].server_short_public->Some_0@,
    ) {
        let j = lemma_short_key_from_welcome(run, i);
        (j, i)
    } else {
        assert(run.clients[i].session_cipher == run.clients[n].session_cipher);
        lemma_session_from_ready(run, i)
    }
}

/// A run of a server's handshake: its states, the steps that it was told of, what each of
/// them read, and what it answered.
pub struct ServerRun {
    /// The states, one more than there are steps.
    pub servers: Seq<CurveServer>,
    /// The steps.
    pub steps: Seq<ServerStep>,
    /// What each step read.
    pub received: Seq<Seq<u8>>,
    /// The answer to each step.
    pub results: Seq<Result<(ServerStep, HandshakeAction<CurvePublicKey>), ZmtpError>>,
}

impl ServerRun {
    /// Each step leads to the next state.
    pub open spec fn valid(self) -> bool {
        &&& self.servers.len() == self.steps.len() + 1
        &&& self.received.len() == self.steps.len()
        &&& self.results.len() == self.steps.len()
        &&& forall|i: int|
            0 <= i < self.steps.len() ==> self.servers[i].handshake_step(
                #[trigger] self.steps[i],
                self.received[i],
                self.servers[i + 1],
                self.results[i],
            )
    }

    /// The run starts at the start, and each step is the one that was answered last.
    pub open spec fn in_order(self) -> bool {
        &&& self.steps.len() > 0 ==> self.steps[0] is Start
        &&& forall|i: int|
            0 < i < self.steps.len() ==> self.results[i - 1] is Ok && #[trigger] self.steps[i]
                == self.results[i - 1]->Ok_0.0
    }

    /// At step `i` the server accepted a HELLO command with this short-term key of the
    /// client.
    pub open spec fn greeted_at(self, i: int, client_short_public: Seq<u8>) -> bool {
        &&& 0 <= i < self.steps.len()
        &&& self.steps[i] is HelloBody
        &&& hello_read(self.received[i], self.servers[i].server_keypair.secret@) == Some(
            client_short_public,
        )
        &&& self.servers[i].hello_sealed(self.received[i], client_short_public)
    }

    /// At step `i` the server accepted an INITIATE command with this long-term key of the
    /// client. Its box, vouch and cookie were sealed under the keys that the server opened
    /// them with.
    pub open spec fn initiated_at(self, i: int, client_public: Seq<u8>) -> bool {
        &&& 0 <= i < self.steps.len()
        &&& self.steps[i] matches ServerStep::InitiateBox { cookie, nonce }
            && self.servers[i].reads_initiate(cookie@, nonce@, self.received[i]) == Some(
            client_public,
        ) && self.servers[i].initiate_sealed(cookie@, nonce@, self.received[i])
    }
}

/// In any run of a server the keys that it started with stay.
pub proof fn law_server_keeps_its_keys(run: ServerRun, i: int)
    requires
        run.valid(),
        0 <= i <= run.steps.len(),
    ensures
        run.servers[i].server_keypair == run.servers[0].server_keypair,
        run.servers[i].server_short_keypair == run.servers[0].server_short_keypair,
    decreases i,
{
    if i > 0 {
        law_server_keeps_its_keys(run, i - 1);
        assert(run.servers[i - 1].handshake_step(
            run.steps[i - 1],
            run.received[i - 1],
            run.servers[i],
            run.results[i - 1],
        ));
    }
}

/// A server knows a client's short-term key only from a HELLO command that it accepted.
proof fn lemma_short_key_from_hello(run: ServerRun, n: int) -> (h: int)
    requires
        run.valid(),
        run.servers[0].client_short_public is None,
        0 <= n <= run.steps.len(),
        run.servers[n].client_short_public is Some,
    ensures
        0 <= h < n,
        run.greeted_at(h, run.servers[n].client_short_public->Some_0@),
    decreases n,
{
    let i = n - 1;
    assert(run.servers[i].handshake_step(
        run.steps[i],
        run.received[i],
        run.servers[n],
        run.results[i],
    ));
    if run.greeted_at(i, run.servers[n].client_short_public->Some_0@) {
        i
    } else {
        assert(run.servers[i].client_short_public == run.servers[n].client_short_public);
        lemma_short_key_from_hello(run, i)
    }
}

/// Where a run in order has come to its end, INITIATE was accepted with the key that the
/// server holds.
proof fn lemma_done_from_initiate(run: ServerRun, n: int) -> (k: int)
    requires
        run.valid(),
        run.in_order(),
        0 <= n < run.steps.len(),
        run.steps[n] is ReadyWritten || run.steps[n] is Done,
    ensures
        0 <= k < n,
        run.servers[n].client_public is Some,
        run.initiated_at(k, run.servers[n].client_public->Some_0@),
        run.steps[n] matches ServerStep::Done { client_public } ==> run.servers[n].client_public
            == Some(client_public) && run.servers[n].session_cipher is Some,
    decreases n,
{
    let i = n - 1;
    assert(run.steps[n] == run.results[i]->Ok_0.0);
    assert(run.servers[i].handshake_step(
        run.steps[i],
        run.received[i],
        run.servers[n],
        run.results[i],
    ));
    if run.steps[i] is InitiateBox {
        i
    } else {
        assert(run.steps[i] is ReadyWritten || run.steps[i] is Done);
        lemma_done_from_initiate(run, i)
    }
}

/// From a fresh server, in any run of the handshake in order, the server finishes with a key
/// only if it accepted an INITIATE command with that key, under the client's short-term key
/// from a HELLO command that it accepted before. It then holds that key and a session.
pub proof fn law_server_finishes_with_the_vouched_key(
    run: ServerRun,
    i: int,
    client_public: CurvePublicKey,
)
    requires
        run.valid(),
        run.in_order(),
        run.servers[0].client_short_public is None,
        0 <= i < run.steps.len(),
        run.results[i] matches Ok((_, HandshakeAction::Finish(key))) && key == client_public,
    ensures
        run.servers[i + 1].client_public == Some(client_public),
        run.servers[i + 1].session_cipher is Some,
        exists|h: int, k: int|
            {
                &&& 0 <= h < k < i
                &&& run.servers[k].client_short_public is Some
                &&& #[trigger] run.greeted_at(h, run.servers[k].client_short_public->Some_0@)
                &&& #[trigger] run.initiated_at(k, client_public@)
            },
{
    assert(run.servers[i].handshake_step(
        run.steps[i],
        run.received[i],
        run.servers[i + 1],
        run.results[i],
    ));
    let k = lemma_done_from_initiate(run, i);
    let h = lemma_short_key_from_hello(run, k);
    assert(run.greeted_at(h, run.servers[k].client_short_public->Some_0@));
    assert(run.initiated_at(k, client_public@));
}

/// The command that an answer asks to write.
pub open spec fn written<T, U>(result: Result<(T, HandshakeAction<U>), ZmtpError>) -> Seq<u8> {
    match result {
        Ok((_, HandshakeAction::Write(command))) => command@,
        _ => Seq::empty(),
    }
}

/// Two runs are connected: what one side reads is what the other wrote, piece by piece.
pub open spec fn connected(c: ClientRun, s: ServerRun) -> bool {
    let hello = written(c.results[0]);
    let welcome = written(s.results[2]);
    let initiate = written(c.results[4]);
    let ready = written(s.results[7]);
    &&& s.steps.len() > 1 ==> c.steps.len() > 0 && s.received[1] == hello.subrange(0, 6)
    &&& s.steps.len() > 2 ==> s.received[2] == hello.subrange(6, 200)
    &&& c.steps.len() > 2 ==> s.steps.len() > 2 && c.received[2] == welcome.subrange(0, 8)
    &&& c.steps.len() > 3 ==> c.received[3] == welcome.subrange(8, 24)
    &&& c.steps.len() > 4 ==> c.received[4] == welcome.subrange(24, 168)
    &&& s.steps.len() > 4 ==> c.steps.len() > 4 && s.received[4] == initiate.subrange(0, 9)
    &&& s.steps.len() > 5 ==> s.received[5] == initiate.subrange(9, 105)
    &&& s.steps.len() > 6 ==> s.received[6] == initiate.subrange(105, 113)
    &&& s.steps.len() > 7 ==> s.received[7] == initiate.subrange(113, 257)
    &&& c.steps.len() > 6 ==> s.steps.len() > 7 && c.received[6] == ready.subrange(0, 6)
    &&& c.steps.len() > 7 ==> c.received[7] == ready.subrange(6, 14)
    &&& c.steps.len() > 8 ==> c.received[8] == ready.subrange(14, 30)
}

/// The two ends of a connection before the handshake: all four key pairs are in order, and
/// the client was given the server's public key.
pub open spec fn acquainted(client: CurveClient, server: CurveServer) -> bool {
    &&& client.client_keypair@.valid()
    &&& client.client_short_keypair@.valid()
    &&& server.server_keypair@.valid()
    &&& server.server_short_keypair@.valid()
    &&& client.server_public@ == server.server_keypair.public@
}

/// Two runs in order between acquainted ends of one connection, up to the end of the
/// handshake.
pub open spec fn shaking_hands(c: ClientRun, s: ServerRun) -> bool {
    &&& c.valid() && c.in_order() && c.steps.len() <= 9
    &&& s.valid() && s.in_order() && s.steps.len() <= 9
    &&& connected(c, s)
    &&& acquainted(c.clients[0], s.servers[0])
}

/// The client starts.
proof fn lemma_hello_goes_out(c: ClientRun, s: ServerRun)
    requires
        shaking_hands(c, s),
    ensures
        c.steps.len() > 0 ==> c.results[0] is Ok && c.clients[1] == c.clients[0] && hello_sent(
            written(c.results[0]),
            c.clients[0].client_short_keypair@,
            s.servers[0].server_keypair.public@,
        ),
        c.steps.len() > 1 ==> c.results[1] is Ok && c.clients[2] == c.clients[0],
        c.steps.len() > 2 ==> c.steps[2] is WelcomeName,
{
    let client = c.clients[0];
    law_agreement(client.client_short_keypair@, s.servers[0].server_keypair@);
    if c.steps.len() > 0 {
        assert(client.handshake_step(c.steps[0], c.received[0], c.clients[1], c.results[0]));
    }
    if c.steps.len() > 1 {
        assert(c.steps[1] is HelloWritten);
        assert(c.clients[1].handshake_step(
            c.steps[1],
            c.received[1],
            c.clients[2],
            c.results[1],
        ));
    }
    if c.steps.len() > 2 {
        assert(c.steps[2] is WelcomeName);
    }
}

/// The server answers HELLO.
proof fn lemma_welcome_goes_out(c: ClientRun, s: ServerRun)
    requires
        shaking_hands(c, s),
    ensures
        s.steps.len() > 0 ==> s.results[0] is Ok,
        s.steps.len() > 1 ==> s.results[1] is Ok,
        s.steps.len() > 2 ==> s.results[2] is Ok && s.servers[3].welcomes(written(s.results[2]))
            && s.servers[3].awaits_initiate() && s.servers[3].client_short_public->Some_0@
            == c.clients[0].client_short_keypair.public@,
        s.steps.len() > 3 ==> s.results[3] is Ok && s.servers[4] == s.servers[3],
        s.steps.len() > 4 ==> s.steps[4] is InitiateName,
{
    let client_short = c.clients[0].client_short_keypair@;
    let server_long = s.servers[0].server_keypair@;
    let hello = written(c.results[0]);
    lemma_hello_goes_out(c, s);
    law_agreement(client_short, server_long);
    if s.steps.len() > 0 {
        assert(s.servers[0].handshake_step(
            s.steps[0],
            s.received[0],
            s.servers[1],
            s.results[0],
        ));
    }
    if s.steps.len() > 1 {
        assert(s.steps[1] is HelloName);
        assert(s.servers[1].handshake_step(
            s.steps[1],
            s.received[1],
            s.servers[2],
            s.results[1],
        ));
    }
    if s.steps.len() > 2 {
        law_hello_accepted(hello, client_short, server_long);
        assert(s.steps[2] is HelloBody);
        assert(s.servers[2].handshake_step(
            s.steps[2],
            s.received[2],
            s.servers[3],
            s.results[2],
        ));
    }
    if s.steps.len() > 3 {
        assert(s.steps[3] is WelcomeWritten);
        assert(s.servers[3].handshake_step(
            s.steps[3],
            s.received[3],
            s.servers[4],
            s.results[3],
        ));
    }
    if s.steps.len() > 4 {
        assert(s.steps[4] is InitiateName);
    }
}

/// `initiate` returns a cookie that the server made, with a vouch for the client's
/// short-term key.
pub open spec fn initiate_fits(
    initiate: Seq<u8>,
    client: CurveClient,
    server: CurveServer,
) -> bool {
    exists|cookie: Seq<u8>, vouch: Seq<u8>|
        {
            &&& #[trigger] cookie_baked(
                cookie,
                server.cookie_key->Some_0@,
                client.client_short_keypair.public@,
                server.server_short_keypair.secret@,
            )
            &&& #[trigger] vouch_made(
                vouch,
                client.client_keypair@,
                client.client_short_keypair.public@,
                server.server_keypair.public@,
                server.server_short_keypair.public@,
            )
            &&& initiate_sent(
                initiate,
                cookie,
                vouch,
                client.client_keypair.public@,
                client.client_short_keypair@,
                server.server_short_keypair.public@,
            )
        }
}

/// The client answers WELCOME.
proof fn lemma_initiate_goes_out(c: ClientRun, s: ServerRun)
    requires
        shaking_hands(c, s),
    ensures
        c.steps.len() > 2 ==> c.results[2] is Ok,
        c.steps.len() > 3 ==> c.results[3] is Ok,
        c.steps.len() > 4 ==> c.results[4] is Ok && initiate_fits(
            written(c.results[4]),
            c.clients[0],
            s.servers[3],
        ) && (c.clients[5].server_short_public matches Some(key) && key@
            == s.servers[0].server_short_keypair.public@),
        c.steps.len() > 5 ==> c.results[5] is Ok && c.clients[6] == c.clients[5],
        c.steps.len() > 6 ==> c.steps[6] is ReadyName,
{
    let client = c.clients[0];
    let client_long = client.client_keypair@;
    let client_short = client.client_short_keypair@;
    let server_long = s.servers[0].server_keypair@;
    let server_short = s.servers[0].server_short_keypair@;
    let welcome = written(s.results[2]);
    lemma_hello_goes_out(c, s);
    lemma_welcome_goes_out(c, s);
    law_agreement(client_long, server_short);
    law_agreement(client_short, server_short);
    if c.steps.len() > 2 {
        law_server_keeps_its_keys(s, 3);
        assert(c.clients[2].handshake_step(
            c.steps[2],
            c.received[2],
            c.clients[3],
            c.results[2],
        ));
        assert(exists|cookie: Seq<u8>|
            #[trigger] cookie_baked(
                cookie,
                s.servers[3].cookie_key->Some_0@,
                client_short.public,
                server_short.secret,
            ) && welcome_sent(
                welcome,
                cookie,
                server_long,
                server_short.public,
                client_short.public,
            ));
        let cookie = choose|cookie: Seq<u8>|
            #[trigger] cookie_baked(
                cookie,
                s.servers[3].cookie_key->Some_0@,
                client_short.public,
                server_short.secret,
            ) && welcome_sent(
                welcome,
                cookie,
                server_long,
                server_short.public,
                client_short.public,
            );
        law_welcome_accepted(welcome, cookie, server_long, server_short, client_short);
        if c.steps.len() > 3 {
            assert(c.steps[3] is WelcomeNonce);
            assert(c.clients[3].handshake_step(
                c.steps[3],
                c.received[3],
                c.clients[4],
                c.results[3],
            ));
        }
        if c.steps.len() > 4 {
            assert(c.steps[4] is WelcomeBox);
            assert(c.clients[4].handshake_step(
                c.steps[4],
                c.received[4],
                c.clients[5],
                c.results[4],
            ));
            let welcomed = choose|welcomed: CurveClient|
                #[trigger] c.clients[4].took_welcome(server_short.public, cookie, welcomed)
                    && c.clients[5] == welcomed.without_cookie() && (c.results[4] is Ok
                    ==> welcomed.initiates(written(c.results[4]))) && (c.results[4] is Err
                    ==> !welcomed.can_initiate());
            assert(welcomed.can_initiate());
            let vouch = choose|vouch: Seq<u8>|
                #[trigger] vouch_made(
                    vouch,
                    client_long,
                    client_short.public,
                    server_long.public,
                    server_short.public,
                ) && initiate_sent(
                    written(c.results[4]),
                    cookie,
                    vouch,
                    client_long.public,
                    client_short,
                    server_short.public,
                );
            assert(cookie_baked(
                cookie,
                s.servers[3].cookie_key->Some_0@,
                client.client_short_keypair.public@,
                s.servers[3].server_short_keypair.secret@,
            ) && vouch_made(
                vouch,
                client.client_keypair@,
                client.client_short_keypair.public@,
                s.servers[3].server_keypair.public@,
                s.servers[3].server_short_keypair.public@,
            ));
        }
        if c.steps.len() > 5 {
            assert(c.steps[5] is InitiateWritten);
            assert(c.clients[5].handshake_step(
                c.steps[5],
                c.received[5],
                c.clients[6],
                c.results[5],
            ));
        }
        if c.steps.len() > 6 {
            assert(c.steps[6] is ReadyName);
        }
    }
}

/// The server answers INITIATE, and finishes.
proof fn lemma_ready_goes_out(c: ClientRun, s: ServerRun)
    requires
        shaking_hands(c, s),
    ensures
        s.steps.len() > 4 ==> s.results[4] is Ok,
        s.steps.len() > 5 ==> s.results[5] is Ok,
        s.steps.len() > 6 ==> s.results[6] is Ok,
        s.steps.len() > 7 ==> s.results[7] is Ok && ready_sent(
            written(s.results[7]),
            session_secret(c, s),
        ),
        s.steps.len() > 8 ==> {
            &&& s.results[8] matches Ok((next, HandshakeAction::Finish(key))) && next is Done
                && key@ == c.clients[0].client_keypair.public@
            &&& s.servers[9].session_cipher matches Some(session) && session@ == Session::server(
                session_secret(c, s),
            )
        },
{
    let client = c.clients[0];
    let client_long = client.client_keypair@;
    let client_short = client.client_short_keypair@;
    let server_long = s.servers[0].server_keypair@;
    let server_short = s.servers[0].server_short_keypair@;
    let initiate = written(c.results[4]);
    lemma_welcome_goes_out(c, s);
    lemma_initiate_goes_out(c, s);
    law_agreement(client_short, server_short);
    if s.steps.len() > 4 {
        law_server_keeps_its_keys(s, 3);
        let cookie_key = s.servers[3].cookie_key->Some_0@;
        let (cookie, vouch) = choose|cookie: Seq<u8>, vouch: Seq<u8>|
            {
                &&& #[trigger] cookie_baked(
                    cookie,
                    cookie_key,
                    client_short.public,
                    server_short.secret,
                )
                &&& #[trigger] vouch_made(
                    vouch,
                    client_long,
                    client_short.public,
                    server_long.public,
                    server_short.public,
                )
                &&& initiate_sent(
                    initiate,
                    cookie,
                    vouch,
                    client_long.public,
                    client_short,
                    server_short.public,
                )
            };
        law_initiate_accepted(
            initiate,
            cookie,
            vouch,
            cookie_key,
            client_long,
            client_short,
            server_long,
            server_short,
        );
        assert(s.servers[4].handshake_step(
            s.steps[4],
            s.received[4],
            s.servers[5],
            s.results[4],
        ));
    }
    if s.steps.len() > 5 {
        assert(s.steps[5] is InitiateCookie);
        assert(s.servers[5].handshake_step(
            s.steps[5],
            s.received[5],
            s.servers[6],
            s.results[5],
        ));
    }
    if s.steps.len() > 6 {
        assert(s.steps[6] is InitiateNonce);
        assert(s.servers[6].handshake_step(
            s.steps[6],
            s.received[6],
            s.servers[7],
            s.results[6],
        ));
    }
    if s.steps.len() > 7 {
        assert(s.steps[7] is InitiateBox);
        assert(s.servers[7].handshake_step(
            s.steps[7],
            s.received[7],
            s.servers[8],
            s.results[7],
        ));
    }
    if s.steps.len() > 8 {
        assert(s.steps[8] is ReadyWritten);
        assert(s.servers[8].handshake_step(
            s.steps[8],
            s.received[8],
            s.servers[9],
            s.results[8],
        ));
    }
}

/// The secret that the two short-term keys agree on.
pub open spec fn session_secret(c: ClientRun, s: ServerRun) -> Seq<u8> {
    agreed_secret(
        c.clients[0].client_short_keypair.secret@,
        s.servers[0].server_short_keypair.public@,
    )->Some_0
}

/// Between a client and the server whose public key it was given, connected to each other,
/// no step of either handshake fails. When both are through, the server has finished with
/// the client's long-term public key, and both hold the session that starts under the secret
/// of their short-term keys.
pub proof fn law_connected_handshakes_complete(c: ClientRun, s: ServerRun)
    requires
        shaking_hands(c, s),
    ensures
        forall|i: int| 0 <= i < c.steps.len() ==> #[trigger] c.results[i] is Ok,
        forall|i: int| 0 <= i < s.steps.len() ==> #[trigger] s.results[i] is Ok,
        c.steps.len() == 9 ==> {
            &&& c.results[8] matches Ok((next, HandshakeAction::Finish(_))) && next is Done
            &&& c.clients[9].session_cipher matches Some(session) && session@ == Session::client(
                session_secret(c, s),
            )
        },
        s.steps.len() == 9 ==> {
            &&& s.results[8] matches Ok((next, HandshakeAction::Finish(key))) && next is Done
                && key@ == c.clients[0].client_keypair.public@
            &&& s.servers[9].session_cipher matches Some(session) && session@ == Session::server(
                session_secret(c, s),
            )
        },
{
    let client_short = c.clients[0].client_short_keypair@;
    let server_short = s.servers[0].server_short_keypair@;
    lemma_hello_goes_out(c, s);
    lemma_welcome_goes_out(c, s);
    lemma_initiate_goes_out(c, s);
    lemma_ready_goes_out(c, s);
    law_agreement(client_short, server_short);
    if c.steps.len() > 6 {
        let ready = written(s.results[7]);
        law_ready_accepted(ready, session_secret(c, s), client_short, server_short);
        law_client_keeps_its_keys(c, 6);
        assert(c.clients[6].handshake_step(
            c.steps[6],
            c.received[6],
            c.clients[7],
            c.results[6],
        ));
        if c.steps.len() > 7 {
            assert(c.steps[7] is ReadyNonce);
            assert(c.clients[7].handshake_step(
                c.steps[7],
                c.received[7],
                c.clients[8],
                c.results[7],
            ));
        }
        if c.steps.len() > 8 {
            assert(c.steps[8] is ReadyBox);
            assert(c.clients[8].handshake_step(
                c.steps[8],
                c.received[8],
                c.clients[9],
                c.results[8],
            ));
        }
    }
    assert forall|i: int| 0 <= i < c.steps.len() implies #[trigger] c.results[i] is Ok by {
        assert(i == 0 || i == 1 || i == 2 || i == 3 || i == 4 || i == 5 || i == 6 || i == 7 || i
            == 8);
    }
    assert forall|i: int| 0 <= i < s.steps.len() implies #[trigger] s.results[i] is Ok by {
        assert(i == 0 || i == 1 || i == 2 || i == 3 || i == 4 || i == 5 || i == 6 || i == 7 || i
            == 8);
    }
}

/// From then on either end reads back what the other seals, after any sends and receives on
/// both ends, unless the reader is ahead of the message.
pub proof fn law_connected_peers_read_each_other(
    c: ClientRun,
    s: ServerRun,
    client_events: Seq<SessionEvent>,
    server_events: Seq<SessionEvent>,
    message: Seq<u8>,
    plaintext: Seq<u8>,
)
    requires
        shaking_hands(c, s),
        c.steps.len() == 9,
        s.steps.len() == 9,
    ensures
        ({
            let client = c.clients[9].session_cipher->Some_0@.run(client_events);
            let server = s.servers[9].session_cipher->Some_0@.run(server_events);
            &&& reads_back(client, server, message, plaintext)
            &&& reads_back(server, client, message, plaintext)
        }),
{
    law_connected_handshakes_complete(c, s);
    let key = session_secret(c, s);
    let client = Session::client(key);
    let server = Session::server(key);
    law_sessions_move_forward(client, client_events);
    law_sessions_move_forward(server, server_events);
    if seals(client.run(client_events), server.run(server_events), message, plaintext) {
        law_message_read_back(
            client.run(client_events),
            server.run(server_events),
            message,
            plaintext,
        );
    }
    if seals(server.run(server_events), client.run(client_events), message, plaintext) {
        law_message_read_back(
            server.run(server_events),
            client.run(client_events),
            message,
            plaintext,
        );
    }
}

/// `message` is what the sender seals `plaintext` into next, and the receiver is not ahead
/// of it.
pub open spec fn seals(
    sender: Session,
    receiver: Session,
    message: Seq<u8>,
    plaintext: Seq<u8>,
) -> bool {
    &&& receiver.recv_nonce <= sender.send_nonce < u64::MAX
    &&& message_formed(
        message,
        sender.key,
        sender.send_prefix,
        sender.send_nonce as nat,
        plaintext,
    )
}

/// If `message` is what the sender seals `plaintext` into next, the receiver accepts it with
/// that content.
pub open spec fn reads_back(
    sender: Session,
    receiver: Session,
    message: Seq<u8>,
    plaintext: Seq<u8>,
) -> bool {
    seals(sender, receiver, message, plaintext) ==> receiver.verdict(message)
        == Verdict::Accepted(plaintext)
}

} // verus!
