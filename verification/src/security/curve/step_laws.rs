//! What each step of the handshake does to the two state machines, and what it asks for.

use crate::codec::ZmtpError;
use crate::security::curve::byte_laws::{law_agreed_secret_is_x25519, not_all_zero};
use crate::security::curve::client::{ClientStep, CurveClient};
use crate::security::curve::drawn::{drawn_bytes, drawn_secret};
use crate::security::curve::hello::{hello_read, hello_sent};
use crate::security::curve::initiate::{
    initiate_sent, vouch_made, InitiateContext, InitiateParts,
};
use crate::security::curve::keys::CurvePublicKey;
use crate::security::curve::message::Session;
use crate::security::curve::primitives::{x25519_public, x25519_shared};
use crate::security::curve::ready::{ready_read, ready_sent};
use crate::security::curve::run_laws::{law_client_keeps_its_keys, written, ClientRun};
use crate::security::curve::server::{CurveServer, ServerStep};
use crate::security::curve::step::HandshakeAction;
use crate::security::curve::welcome::{cookie_baked, welcome_read, welcome_sent};
use crate::security::curve::wire::{
    drawn_suffix, CURVE_COOKIE_NONCE_PREFIX, CURVE_HELLO, CURVE_HELLO_NONCE_PREFIX, CURVE_INITIATE,
    CURVE_INITIATE_NONCE_PREFIX, CURVE_READY, CURVE_READY_NONCE_PREFIX, CURVE_VOUCH_NONCE_PREFIX,
    CURVE_WELCOME, CURVE_WELCOME_NONCE_PREFIX,
};
use vstd::prelude::*;

verus! {

/// The answer to a client's step.
pub type ClientAnswer = Result<(ClientStep, HandshakeAction<()>), ZmtpError>;

/// The answer to a server's step.
pub type ServerAnswer = Result<(ServerStep, HandshakeAction<CurvePublicKey>), ZmtpError>;

/// A step of the client's handshake fails only as a protocol error, never changes a key, and
/// leaves the session alone unless it accepts READY.
pub proof fn law_client_step_frame(
    before: CurveClient,
    step: ClientStep,
    received: Seq<u8>,
    after: CurveClient,
    answer: ClientAnswer,
)
    requires
        before.handshake_step(step, received, after, answer),
    ensures
        answer matches Err(error) ==> error == ZmtpError::Protocol,
        after.client_keypair == before.client_keypair,
        after.client_short_keypair == before.client_short_keypair,
        after.server_public == before.server_public,
        step !is WelcomeBox ==> after.server_short_public == before.server_short_public,
        step !is WelcomeBox ==> after.welcome_cookie == before.welcome_cookie,
        step !is ReadyBox || answer is Err ==> after.session_cipher == before.session_cipher,
{
}

/// A client starts with a HELLO command for the server's key with a drawn nonce, unless the
/// X25519 output with that key is all zero; then it reads the 8 bytes of a name.
pub proof fn law_client_starts(
    before: CurveClient,
    step: ClientStep,
    received: Seq<u8>,
    after: CurveClient,
    answer: ClientAnswer,
)
    requires
        before.handshake_step(step, received, after, answer),
        x25519_shared(before.client_short_keypair.secret@, before.server_public@).len() == 32,
    ensures
        step is Start ==> (answer is Ok <==> not_all_zero(
            x25519_shared(before.client_short_keypair.secret@, before.server_public@),
        )),
        step is Start && answer is Ok ==> {
            &&& answer->Ok_0.0 is HelloWritten
            &&& answer->Ok_0.1 matches HandshakeAction::Write(command) && hello_sent(
                command@,
                before.client_short_keypair@,
                before.server_public@,
            ) && drawn_suffix(CURVE_HELLO_NONCE_PREFIX@, command@.subrange(112, 120))
        },
        step is HelloWritten ==> (answer matches Ok((next, HandshakeAction::Read(len))) && next is
            WelcomeName && len == 8),
{
    law_agreed_secret_is_x25519(before.client_short_keypair.secret@, before.server_public@);
}

/// A client gets past the names of WELCOME and READY only with exactly those names, and past
/// their nonces only with all bytes of them, which it keeps. It asks for the 16 bytes of the
/// nonce and the 144 of the box of WELCOME, and for the 8 and 16 of READY.
pub proof fn law_client_reads_exactly(
    before: CurveClient,
    step: ClientStep,
    received: Seq<u8>,
    after: CurveClient,
    answer: ClientAnswer,
)
    requires
        before.handshake_step(step, received, after, answer),
    ensures
        step is WelcomeName ==> (answer is Ok <==> received == seq![
            7u8, 87, 69, 76, 67, 79, 77, 69,
        ]),
        step is WelcomeName && answer is Ok ==> (answer matches Ok(
            (next, HandshakeAction::Read(len)),
        ) && next is WelcomeNonce && len == 16),
        step is WelcomeNonce ==> (answer is Ok <==> received.len() == 16),
        step is WelcomeNonce && answer is Ok ==> (answer matches Ok(
            (ClientStep::WelcomeBox { nonce }, HandshakeAction::Read(len)),
        ) && nonce@ == received && len == 144),
        step is InitiateWritten ==> (answer is Ok <==> before.server_short_public is Some),
        step is InitiateWritten && answer is Ok ==> (answer matches Ok(
            (next, HandshakeAction::Read(len)),
        ) && next is ReadyName && len == 6),
        step is ReadyName ==> (answer is Ok <==> received == seq![5u8, 82, 69, 65, 68, 89]),
        step is ReadyName && answer is Ok ==> (answer matches Ok((next, HandshakeAction::Read(len)))
            && next is ReadyNonce && len == 8),
        step is ReadyNonce ==> (answer is Ok <==> received.len() == 8),
        step is ReadyNonce && answer is Ok ==> (answer matches Ok(
            (ClientStep::ReadyBox { nonce }, HandshakeAction::Read(len)),
        ) && nonce@ == received && len == 16),
        step is Done ==> after == before && (answer matches Ok((next, HandshakeAction::Finish(_)))
            && next is Done),
{
    assert(CURVE_WELCOME@ =~= seq![7u8, 87, 69, 76, 67, 79, 77, 69]);
    assert(CURVE_READY@ =~= seq![5u8, 82, 69, 65, 68, 89]);
}

/// A client takes the server's short-term key from a WELCOME command that it can read, and
/// answers at once with an INITIATE command that returns the cookie and vouches for its own
/// short-term key, keeping no cookie. It fails where it cannot read the command, and then
/// learns nothing, or where an X25519 output with the new key is all zero.
pub proof fn law_client_answers_welcome(
    before: CurveClient,
    nonce: Vec<u8>,
    received: Seq<u8>,
    after: CurveClient,
    answer: ClientAnswer,
    key: Seq<u8>,
    cookie: Seq<u8>,
)
    requires
        before.handshake_step(ClientStep::WelcomeBox { nonce }, received, after, answer),
        x25519_shared(before.client_keypair.secret@, key).len() == 32,
        x25519_shared(before.client_short_keypair.secret@, key).len() == 32,
    ensures
        ({
            let read = welcome_read(
                nonce@,
                received,
                before.client_short_keypair.secret@,
                before.server_public@,
            );
            &&& read is None ==> answer is Err && after == before
            &&& read == Some((key, cookie)) ==> {
                &&& after.server_short_public matches Some(kept) && kept@ == key
                &&& after.welcome_cookie is None
                &&& answer is Ok <==> not_all_zero(
                    x25519_shared(before.client_keypair.secret@, key),
                ) && not_all_zero(x25519_shared(before.client_short_keypair.secret@, key))
                &&& answer is Ok ==> {
                    &&& answer->Ok_0.0 is InitiateWritten
                    &&& answer->Ok_0.1 matches HandshakeAction::Write(command) && drawn_suffix(
                        CURVE_INITIATE_NONCE_PREFIX@,
                        command@.subrange(105, 113),
                    ) && exists|vouch: Seq<u8>|
                        {
                            &&& #[trigger] vouch_made(
                                vouch,
                                before.client_keypair@,
                                before.client_short_keypair.public@,
                                before.server_public@,
                                key,
                            )
                            &&& drawn_suffix(CURVE_VOUCH_NONCE_PREFIX@, vouch.subrange(0, 16))
                            &&& initiate_sent(
                                command@,
                                cookie,
                                vouch,
                                before.client_keypair.public@,
                                before.client_short_keypair@,
                                key,
                            )
                        }
                }
            }
        }),
{
    law_agreed_secret_is_x25519(before.client_keypair.secret@, key);
    law_agreed_secret_is_x25519(before.client_short_keypair.secret@, key);
    let read = welcome_read(
        nonce@,
        received,
        before.client_short_keypair.secret@,
        before.server_public@,
    );
    if read == Some((key, cookie)) {
        let welcomed = choose|welcomed: CurveClient|
            {
                &&& #[trigger] before.took_welcome(key, cookie, welcomed)
                &&& after == welcomed.without_cookie()
                &&& match answer {
                    Ok((next, action)) => next is InitiateWritten && (action matches
                        HandshakeAction::Write(command) && welcomed.initiates(command@)
                        && welcomed.initiate_nonces_drawn(command@)),
                    Err(_) => !welcomed.can_initiate(),
                }
            };
        assert(welcomed.client_keypair == before.client_keypair);
        assert(welcomed.client_short_keypair == before.client_short_keypair);
        assert(welcomed.server_public == before.server_public);
    }
}

/// A client finishes, with a session under the X25519 output of the short-term keys, if and
/// only if it knows the server's short-term key and accepts READY under it.
pub proof fn law_client_finishes(
    before: CurveClient,
    nonce: Vec<u8>,
    received: Seq<u8>,
    after: CurveClient,
    answer: ClientAnswer,
)
    requires
        before.handshake_step(ClientStep::ReadyBox { nonce }, received, after, answer),
        before.server_short_public matches Some(key) ==> x25519_shared(
            before.client_short_keypair.secret@,
            key@,
        ).len() == 32,
    ensures
        answer is Ok <==> (before.server_short_public matches Some(key) && ready_read(
            nonce@,
            received,
            before.client_short_keypair.secret@,
            key@,
        )),
        answer is Ok ==> {
            &&& answer matches Ok((next, HandshakeAction::Finish(_))) && next is Done
            &&& after.session_cipher matches Some(session) && session@ == Session::client(
                x25519_shared(
                    before.client_short_keypair.secret@,
                    before.server_short_public->Some_0@,
                ),
            )
        },
        answer is Err ==> after == before,
{
    if before.server_short_public is Some {
        law_agreed_secret_is_x25519(
            before.client_short_keypair.secret@,
            before.server_short_public->Some_0@,
        );
    }
}

/// Every HELLO command that a client sends, in any run, carries the public key of a secret
/// that was drawn for that client, if the client started with one.
pub proof fn law_hello_carries_a_drawn_key(run: ClientRun, i: int)
    requires
        run.valid(),
        drawn_secret(run.clients[0].client_short_keypair.secret@),
        run.clients[0].client_short_keypair@.valid(),
        0 <= i < run.steps.len(),
        run.steps[i] is Start,
        run.results[i] is Ok,
    ensures
        exists|secret: Seq<u8>| #[trigger]
            drawn_secret(secret) && written(run.results[i]).subrange(80, 112) == x25519_public(
                secret,
            ),
{
    law_client_keeps_its_keys(run, i);
    assert(run.clients[i].handshake_step(
        run.steps[i],
        run.received[i],
        run.clients[i + 1],
        run.results[i],
    ));
}

/// A step of the server's handshake fails only as a protocol error, never changes its keys,
/// and touches each of the other fields only at one step.
pub proof fn law_server_step_frame(
    before: CurveServer,
    step: ServerStep,
    received: Seq<u8>,
    after: CurveServer,
    answer: ServerAnswer,
)
    requires
        before.handshake_step(step, received, after, answer),
    ensures
        answer matches Err(error) ==> error == ZmtpError::Protocol,
        after.server_keypair == before.server_keypair,
        after.server_short_keypair == before.server_short_keypair,
        step !is HelloBody ==> after.client_short_public == before.client_short_public,
        step !is InitiateBox ==> after.client_public == before.client_public,
        step !is HelloBody && step !is InitiateBox ==> after.cookie_key == before.cookie_key,
        step !is ReadyWritten ==> after.session_cipher == before.session_cipher,
{
}

/// A server gets past the names of HELLO and INITIATE only with exactly those names, and
/// past the cookie and the nonce only with all bytes of them, which it keeps. It asks for
/// each piece of a command by its length.
pub proof fn law_server_reads_exactly(
    before: CurveServer,
    step: ServerStep,
    received: Seq<u8>,
    after: CurveServer,
    answer: ServerAnswer,
)
    requires
        before.handshake_step(step, received, after, answer),
    ensures
        step is Start ==> (answer matches Ok((next, HandshakeAction::Read(len))) && next is
            HelloName && len == 6),
        step is HelloName ==> (answer is Ok <==> received == seq![5u8, 72, 69, 76, 76, 79]),
        step is HelloName && answer is Ok ==> (answer matches Ok((next, HandshakeAction::Read(len)))
            && next is HelloBody && len == 194),
        step is WelcomeWritten ==> (answer is Ok <==> before.client_short_public is Some
            && before.cookie_key is Some),
        step is WelcomeWritten && answer is Ok ==> (answer matches Ok(
            (next, HandshakeAction::Read(len)),
        ) && next is InitiateName && len == 9),
        step is InitiateName ==> (answer is Ok <==> received == seq![
            8u8, 73, 78, 73, 84, 73, 65, 84, 69,
        ]),
        step is InitiateName && answer is Ok ==> (answer matches Ok(
            (next, HandshakeAction::Read(len)),
        ) && next is InitiateCookie && len == 96),
        step is InitiateCookie ==> (answer is Ok <==> received.len() == 96),
        step is InitiateCookie && answer is Ok ==> (answer matches Ok(
            (ServerStep::InitiateNonce { cookie }, HandshakeAction::Read(len)),
        ) && cookie@ == received && len == 8),
        step matches ServerStep::InitiateNonce { cookie: kept } ==> (answer is Ok
            <==> received.len() == 8) && (answer is Ok ==> (answer matches Ok(
            (ServerStep::InitiateBox { cookie, nonce }, HandshakeAction::Read(len)),
        ) && cookie == kept && nonce@ == received && len == 144)),
{
    assert(CURVE_HELLO@ =~= seq![5u8, 72, 69, 76, 76, 79]);
    assert(CURVE_INITIATE@ =~= seq![8u8, 73, 78, 73, 84, 73, 65, 84, 69]);
}

/// A server takes the client's short-term key from a HELLO command that it can read, draws a
/// cookie key and answers at once with a WELCOME command whose cookie is sealed under it. It
/// fails where it cannot read the command, and then learns nothing, or where the X25519
/// output with the client's key is all zero.
pub proof fn law_server_answers_hello(
    before: CurveServer,
    received: Seq<u8>,
    after: CurveServer,
    answer: ServerAnswer,
    key: Seq<u8>,
)
    requires
        before.handshake_step(ServerStep::HelloBody, received, after, answer),
        x25519_shared(before.server_keypair.secret@, key).len() == 32,
    ensures
        ({
            let read = hello_read(received, before.server_keypair.secret@);
            &&& read is None ==> answer is Err && after == before
            &&& read == Some(key) ==> {
                &&& after.client_short_public matches Some(kept) && kept@ == key
                &&& after.cookie_key matches Some(drawn) && drawn_bytes(drawn@)
                &&& after.client_public == before.client_public
                &&& answer is Ok <==> not_all_zero(
                    x25519_shared(before.server_keypair.secret@, key),
                )
                &&& answer is Ok ==> {
                    &&& answer->Ok_0.0 is WelcomeWritten
                    &&& answer->Ok_0.1 matches HandshakeAction::Write(command) && drawn_suffix(
                        CURVE_WELCOME_NONCE_PREFIX@,
                        command@.subrange(8, 24),
                    ) && exists|cookie: Seq<u8>|
                        {
                            &&& #[trigger] cookie_baked(
                                cookie,
                                after.cookie_key->Some_0@,
                                key,
                                before.server_short_keypair.secret@,
                            )
                            &&& drawn_suffix(CURVE_COOKIE_NONCE_PREFIX@, cookie.subrange(0, 16))
                            &&& welcome_sent(
                                command@,
                                cookie,
                                before.server_keypair@,
                                before.server_short_keypair.public@,
                                key,
                            )
                        }
                }
            }
        }),
{
    law_agreed_secret_is_x25519(before.server_keypair.secret@, key);
}

/// A server takes the client's long-term key from an INITIATE command that it accepts for
/// the keys and the cookie key that it holds, gives up the cookie key, and answers at once
/// with a READY command under the X25519 output of the short-term keys. It fails where it
/// does not accept the command, and then changes nothing.
pub proof fn law_server_answers_initiate(
    before: CurveServer,
    cookie: Vec<u8>,
    nonce: Vec<u8>,
    received: Seq<u8>,
    after: CurveServer,
    answer: ServerAnswer,
)
    requires
        before.handshake_step(ServerStep::InitiateBox { cookie, nonce }, received, after, answer),
        before.client_short_public matches Some(key) ==> x25519_shared(
            before.server_short_keypair.secret@,
            key@,
        ).len() == 32,
    ensures
        ({
            let context = InitiateContext {
                server: before.server_keypair@,
                server_short: before.server_short_keypair@,
                client_short_public: before.client_short_public->Some_0@,
                cookie_key: before.cookie_key->Some_0@,
            };
            let parts = InitiateParts { cookie: cookie@, nonce: nonce@, boxed: received };
            let accepted = before.client_short_public is Some && before.cookie_key is Some
                && context.read(parts) is Some;
            let shared = x25519_shared(
                before.server_short_keypair.secret@,
                before.client_short_public->Some_0@,
            );
            &&& answer is Ok <==> accepted
            &&& !accepted ==> after == before
            &&& accepted ==> {
                &&& after.client_public matches Some(key) && context.read(parts) == Some(key@)
                &&& after.cookie_key is None
                &&& answer matches Ok(
                    (ServerStep::ReadyWritten { shared_secret }, HandshakeAction::Write(command)),
                ) && shared_secret@ == shared && ready_sent(command@, shared) && drawn_suffix(
                    CURVE_READY_NONCE_PREFIX@,
                    command@.subrange(6, 14),
                )
            }
        }),
{
    if before.client_short_public is Some {
        law_agreed_secret_is_x25519(
            before.server_short_keypair.secret@,
            before.client_short_public->Some_0@,
        );
    }
}

/// Once READY was written, a server has the session under the secret that READY was sealed
/// with, and finishes with the client's long-term key that it holds.
pub proof fn law_server_finishes(
    before: CurveServer,
    step: ServerStep,
    received: Seq<u8>,
    after: CurveServer,
    answer: ServerAnswer,
)
    requires
        before.handshake_step(step, received, after, answer),
    ensures
        step matches ServerStep::ReadyWritten { shared_secret } ==> {
            &&& after.session_cipher matches Some(session) && session@ == Session::server(
                shared_secret@,
            )
            &&& answer is Ok <==> before.client_public is Some
            &&& answer is Ok ==> (answer matches Ok(
                (ServerStep::Done { client_public }, HandshakeAction::Finish(key)),
            ) && before.client_public == Some(key) && client_public == key)
        },
        step matches ServerStep::Done { client_public: kept } ==> after == before && (answer matches
            Ok((ServerStep::Done { client_public }, HandshakeAction::Finish(key))) && client_public
            == kept && key == kept),
{
}

} // verus!
