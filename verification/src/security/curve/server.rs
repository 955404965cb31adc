//! The server's side of the CURVE handshake.

use crate::codec::ZmtpError;
use crate::security::curve::drawn::{drawn_bytes, drawn_secret};
use crate::security::curve::error::CurveError;
use crate::security::curve::hello::{hello_read, CurveHello, HELLO_BODY_SIZE};
use crate::security::curve::initiate::{
    CurveInitiate, InitiateContext, InitiateParts, INITIATE_BOX_SIZE, INITIATE_NONCE_SIZE,
};
use crate::security::curve::keys::{
    agreed_secret, CurveKeyPair, CurvePublicKey, CurveSharedSecret,
};
use crate::security::curve::message::{
    decrypt_outcome, encrypt_outcome, receivable_len, sendable_len, CurveSessionCipher, Session,
};
use crate::security::curve::primitives::random_bytes;
use crate::security::curve::ready::{ready_command, ready_sent};
use crate::security::curve::step::HandshakeAction;
use crate::security::curve::welcome::{cookie_baked, welcome_command, welcome_sent};
use crate::security::curve::wire::{
    boxed, drawn_suffix, random_nonce, zeros, CURVE_CLIENT_MESSAGE_PREFIX,
    CURVE_COOKIE_NONCE_PREFIX, CURVE_COOKIE_SIZE, CURVE_HELLO, CURVE_HELLO_NONCE_PREFIX,
    CURVE_INITIATE, CURVE_KEY_SIZE, CURVE_READY_NONCE_PREFIX, CURVE_SERVER_MESSAGE_PREFIX,
    CURVE_WELCOME_NONCE_PREFIX,
};
use crate::security::protocol::read_command_prefix;
use bytes::Bytes;
use vstd::prelude::*;
use vstd::slice::slice_to_vec;

verus! {

/// CURVE server state machine
pub struct CurveServer {
    /// Server's long-term key pair.
    pub server_keypair: CurveKeyPair,
    /// Server's short-term (ephemeral) key pair
    pub server_short_keypair: CurveKeyPair,
    /// Cookie key used to authenticate the server's transient key pair.
    pub cookie_key: Option<[u8; CURVE_KEY_SIZE]>,
    /// Client's short-term public key (received in HELLO)
    pub client_short_public: Option<CurvePublicKey>,
    /// Client's long-term public key (received in INITIATE)
    pub client_public: Option<CurvePublicKey>,
    /// Message cipher (after READY)
    pub session_cipher: Option<CurveSessionCipher>,
}

/// How far a server's handshake has come: the action that was performed last.
pub enum ServerStep {
    /// Nothing was done yet.
    Start,
    /// The name of HELLO was read.
    HelloName,
    /// The body of HELLO was read.
    HelloBody,
    /// WELCOME was written.
    WelcomeWritten,
    /// The name of INITIATE was read.
    InitiateName,
    /// The cookie of INITIATE was read.
    InitiateCookie,
    /// The nonce of INITIATE was read.
    InitiateNonce {
        /// The cookie that was read before it.
        cookie: Vec<u8>,
    },
    /// The box of INITIATE was read.
    InitiateBox {
        /// The cookie that was read first.
        cookie: Vec<u8>,
        /// The nonce that was read before it.
        nonce: Vec<u8>,
    },
    /// READY was written.
    ReadyWritten {
        /// The secret that the message session starts with.
        shared_secret: CurveSharedSecret,
    },
    /// The handshake is complete.
    Done {
        /// The client's long-term public key.
        client_public: CurvePublicKey,
    },
}

impl ServerStep {
    /// The number of actions performed so far.
    pub open spec fn progress(self) -> nat {
        match self {
            ServerStep::Start => 0,
            ServerStep::HelloName => 1,
            ServerStep::HelloBody => 2,
            ServerStep::WelcomeWritten => 3,
            ServerStep::InitiateName => 4,
            ServerStep::InitiateCookie => 5,
            ServerStep::InitiateNonce { .. } => 6,
            ServerStep::InitiateBox { .. } => 7,
            ServerStep::ReadyWritten { .. } => 8,
            ServerStep::Done { .. } => 9,
        }
    }
}

/// A handshake step went well, and this is the next step and the action to perform for it.
pub open spec fn server_asks(
    result: Result<(ServerStep, HandshakeAction<CurvePublicKey>), ZmtpError>,
    next: ServerStep,
    action: HandshakeAction<CurvePublicKey>,
) -> bool {
    result == Ok::<(ServerStep, HandshakeAction<CurvePublicKey>), ZmtpError>((next, action))
}

impl CurveServer {
    /// `after` is this server once it accepted a HELLO command with this client key.
    pub open spec fn took_hello(self, client_short_public: Seq<u8>, after: CurveServer) -> bool {
        &&& after == (CurveServer { client_short_public: after.client_short_public, ..self })
        &&& after.client_short_public matches Some(key) && key@ == client_short_public
    }

    /// The proof in a HELLO body was sealed under the secret that this server's long-term
    /// key and the client's short-term key agree on.
    pub open spec fn hello_sealed(self, body: Seq<u8>, client_short_public: Seq<u8>) -> bool {
        boxed(
            agreed_secret(self.server_keypair.secret@, client_short_public)->Some_0,
            CURVE_HELLO_NONCE_PREFIX@ + body.subrange(106, 114),
            zeros(64),
            body.subrange(114, 194),
        )
    }

    /// This server can seal a WELCOME command: it knows the client's short-term key, and
    /// its own long-term key agrees on a secret with that key.
    pub open spec fn can_welcome(self) -> bool {
        self.client_short_public matches Some(key) && agreed_secret(
            self.server_keypair.secret@,
            key@,
        ) is Some
    }

    /// `after` is this server with some fresh cookie key.
    pub open spec fn drew_cookie_key(self, after: CurveServer) -> bool {
        &&& after == (CurveServer { cookie_key: after.cookie_key, ..self })
        &&& after.cookie_key matches Some(key) && drawn_bytes(key@)
    }

    /// `command` is a WELCOME command of this server, with a cookie under its cookie key.
    pub open spec fn welcomes(self, command: Seq<u8>) -> bool {
        exists|cookie: Seq<u8>|
            {
                &&& #[trigger] cookie_baked(
                    cookie,
                    self.cookie_key->Some_0@,
                    self.client_short_public->Some_0@,
                    self.server_short_keypair.secret@,
                )
                &&& welcome_sent(
                    command,
                    cookie,
                    self.server_keypair@,
                    self.server_short_keypair.public@,
                    self.client_short_public->Some_0@,
                )
            }
    }

    /// The nonce suffixes of a WELCOME command of this server were drawn: that of the box,
    /// and that of a cookie which the box holds.
    pub open spec fn welcome_nonces_drawn(self, command: Seq<u8>) -> bool {
        &&& drawn_suffix(CURVE_WELCOME_NONCE_PREFIX@, command.subrange(8, 24))
        &&& exists|cookie: Seq<u8>|
            {
                &&& #[trigger] cookie_baked(
                    cookie,
                    self.cookie_key->Some_0@,
                    self.client_short_public->Some_0@,
                    self.server_short_keypair.secret@,
                )
                &&& drawn_suffix(CURVE_COOKIE_NONCE_PREFIX@, cookie.subrange(0, 16))
                &&& welcome_sent(
                    command,
                    cookie,
                    self.server_keypair@,
                    self.server_short_keypair.public@,
                    self.client_short_public->Some_0@,
                )
            }
    }

    /// This server waits for an INITIATE command: it took in HELLO and holds a cookie key.
    pub open spec fn awaits_initiate(self) -> bool {
        self.client_short_public is Some && self.cookie_key is Some
    }

    /// What this server checks an INITIATE command against.
    pub open spec fn initiate_context(self) -> InitiateContext {
        InitiateContext {
            server: self.server_keypair@,
            server_short: self.server_short_keypair@,
            client_short_public: self.client_short_public->Some_0@,
            cookie_key: self.cookie_key->Some_0@,
        }
    }

    /// The client's long-term public key in an INITIATE command, if this server accepts it.
    pub open spec fn reads_initiate(
        self,
        cookie: Seq<u8>,
        nonce: Seq<u8>,
        initiate_box: Seq<u8>,
    ) -> Option<Seq<u8>> {
        if self.awaits_initiate() {
            self.initiate_context().read(InitiateParts { cookie, nonce, boxed: initiate_box })
        } else {
            None
        }
    }

    /// The box of an INITIATE command, the vouch in it and the cookie were each sealed under
    /// the key that this server opens them with.
    pub open spec fn initiate_sealed(
        self,
        cookie: Seq<u8>,
        nonce: Seq<u8>,
        initiate_box: Seq<u8>,
    ) -> bool {
        self.initiate_context().sealed(InitiateParts { cookie, nonce, boxed: initiate_box })
    }

    /// `after` is this server once it accepted an INITIATE command with this client key.
    /// Its cookie key is gone, so no cookie is accepted twice.
    pub open spec fn took_initiate(self, client_public: Seq<u8>, after: CurveServer) -> bool {
        &&& after == (CurveServer {
            client_public: after.client_public,
            cookie_key: None,
            ..self
        })
        &&& after.client_public matches Some(key) && key@ == client_public
    }

    /// The secret that this server's short-term key and the client's agree on.
    pub open spec fn session_secret(self) -> Option<Seq<u8>> {
        match self.client_short_public {
            Some(key) => agreed_secret(self.server_short_keypair.secret@, key@),
            None => None,
        }
    }

    /// `after` is this server at the start of a message session under `key`.
    pub open spec fn started_session(self, key: Seq<u8>, after: CurveServer) -> bool {
        &&& after == (CurveServer { session_cipher: after.session_cipher, ..self })
        &&& after.session_cipher matches Some(session) && session@ == Session::server(key)
    }

    /// What one step of the handshake returns and leaves behind: `step` is the action
    /// performed last and `received` what it read.
    pub open spec fn handshake_step(
        self,
        step: ServerStep,
        received: Seq<u8>,
        after: CurveServer,
        result: Result<(ServerStep, HandshakeAction<CurvePublicKey>), ZmtpError>,
    ) -> bool {
        &&& (result matches Err(error) ==> error == ZmtpError::Protocol)
        &&& match step {
            ServerStep::Start => after == self && server_asks(
                result,
                ServerStep::HelloName,
                HandshakeAction::Read(6),
            ),
            ServerStep::HelloName => after == self && if received == CURVE_HELLO@ {
                server_asks(result, ServerStep::HelloBody, HandshakeAction::Read(194))
            } else {
                result is Err
            },
            ServerStep::HelloBody => match hello_read(
                received,
                self.server_keypair.secret@,
            ) {
                Some(client_short_public) => exists|greeted: CurveServer|
                    {
                        &&& #[trigger] self.took_hello(client_short_public, greeted)
                        &&& self.hello_sealed(received, client_short_public)
                        &&& greeted.drew_cookie_key(after)
                        &&& match result {
                            Ok((next, action)) => next is WelcomeWritten && (action matches
                                HandshakeAction::Write(command) && after.welcomes(command@)
                                && after.welcome_nonces_drawn(command@)),
                            Err(_) => !greeted.can_welcome(),
                        }
                    },
                None => after == self && result is Err,
            },
            ServerStep::WelcomeWritten => after == self && if self.awaits_initiate() {
                server_asks(result, ServerStep::InitiateName, HandshakeAction::Read(9))
            } else {
                result is Err
            },
            ServerStep::InitiateName => after == self && if received == CURVE_INITIATE@ {
                server_asks(result, ServerStep::InitiateCookie, HandshakeAction::Read(96))
            } else {
                result is Err
            },
            ServerStep::InitiateCookie => after == self && if received.len() == 96 {
                result matches Ok((next, action)) && (next matches ServerStep::InitiateNonce {
                    cookie,
                } && cookie@ == received) && action == HandshakeAction::<CurvePublicKey>::Read(
                    8,
                )
            } else {
                result is Err
            },
            ServerStep::InitiateNonce { cookie } => after == self && if received.len() == 8 {
                result matches Ok((next, action)) && (next matches ServerStep::InitiateBox {
                    cookie: kept,
                    nonce,
                } && kept == cookie && nonce@ == received) && action
                    == HandshakeAction::<CurvePublicKey>::Read(144)
            } else {
                result is Err
            },
            ServerStep::InitiateBox { cookie, nonce } => match self.reads_initiate(
                cookie@,
                nonce@,
                received,
            ) {
                Some(client_public) => self.took_initiate(client_public, after)
                    && self.initiate_sealed(cookie@, nonce@, received) && match result {
                    Ok((next, action)) => (next matches ServerStep::ReadyWritten {
                        shared_secret,
                    } && after.session_secret() == Some(shared_secret@) && (
                    action matches HandshakeAction::Write(command) && ready_sent(
                        command@,
                        shared_secret@,
                    ) && drawn_suffix(
                        CURVE_READY_NONCE_PREFIX@,
                        command@.subrange(6, 14),
                    ))),
                    Err(_) => after.session_secret() is None,
                },
                None => after == self && result is Err,
            },
            ServerStep::ReadyWritten { shared_secret } => self.started_session(
                shared_secret@,
                after,
            ) && match self.client_public {
                Some(client_public) => server_asks(
                    result,
                    ServerStep::Done { client_public },
                    HandshakeAction::Finish(client_public),
                ),
                None => result is Err,
            },
            ServerStep::Done { client_public } => after == self && server_asks(
                result,
                ServerStep::Done { client_public },
                HandshakeAction::Finish(client_public),
            ),
        }
    }

    /// Create new CURVE server
    pub fn new(server_keypair: CurveKeyPair) -> (server: Self)
        ensures
            server.server_keypair == server_keypair,
            server.server_short_keypair@.valid(),
            drawn_secret(server.server_short_keypair.secret@),
            server.cookie_key is None,
            server.client_short_public is None,
            server.client_public is None,
            server.session_cipher is None,
    {
        CurveServer {
            server_keypair,
            server_short_keypair: CurveKeyPair::generate(),
            cookie_key: None,
            client_short_public: None,
            client_public: None,
            session_cipher: None,
        }
    }

    /// Take in the body of a HELLO command
    pub fn recv_hello(&mut self, body: &[u8]) -> (result: Result<(), ZmtpError>)
        ensures
            match hello_read(body@, old(self).server_keypair.secret@) {
                Some(client_short_public) => result is Ok && old(self).took_hello(
                    client_short_public,
                    *final(self),
                ) && old(self).hello_sealed(body@, client_short_public),
                None => result == Err::<(), _>(ZmtpError::Protocol) && *final(self) == *old(self),
            },
    {
        let hello = match CurveHello::read_from(body, &self.server_keypair) {
            Ok(hello) => hello,
            Err(error) => return Err(error),
        };
        self.client_short_public = Some(hello.client_short_public);
        Ok(())
    }

    /// Make the WELCOME command
    ///
    /// A fresh cookie key is kept even where the command cannot be made, unless no HELLO
    /// was taken in yet.
    pub fn send_welcome(&mut self) -> (result: Result<Vec<u8>, ZmtpError>)
        ensures
            if old(self).client_short_public is Some {
                old(self).drew_cookie_key(*final(self))
            } else {
                *final(self) == *old(self)
            },
            match result {
                Ok(command) => old(self).can_welcome() && final(self).welcomes(command@)
                    && final(self).welcome_nonces_drawn(command@),
                Err(error) => error == ZmtpError::Protocol && !old(self).can_welcome(),
            },
    {
        let client_short_public = match self.client_short_public {
            Some(client_short_public) => client_short_public,
            None => return Err(ZmtpError::Protocol),
        };
        let (welcome_short_nonce, _) = random_nonce::<16>(&CURVE_WELCOME_NONCE_PREFIX);
        let (cookie_short_nonce, _) = random_nonce::<16>(&CURVE_COOKIE_NONCE_PREFIX);
        let cookie_key: [u8; CURVE_KEY_SIZE] = random_bytes::<32>();
        self.cookie_key = Some(cookie_key);
        let result = welcome_command(
            &self.server_keypair,
            &self.server_short_keypair,
            &client_short_public,
            welcome_short_nonce,
            cookie_short_nonce,
            cookie_key,
        );
        proof {
            if result is Ok {
                let command = result->Ok_0@;
                let cookie = choose|cookie: Seq<u8>|
                    #[trigger] cookie_baked(
                        cookie,
                        cookie_key@,
                        client_short_public@,
                        self.server_short_keypair.secret@,
                    ) && cookie.subrange(0, 16) == cookie_short_nonce@ && welcome_sent(
                        command,
                        cookie,
                        self.server_keypair@,
                        self.server_short_keypair.public@,
                        client_short_public@,
                    );
                assert(cookie_baked(
                    cookie,
                    self.cookie_key->Some_0@,
                    self.client_short_public->Some_0@,
                    self.server_short_keypair.secret@,
                ));
            }
        }
        result
    }

    /// Take in the cookie, the nonce and the box of an INITIATE command
    pub fn recv_initiate(
        &mut self,
        cookie: &[u8],
        initiate_nonce: &[u8],
        initiate_box: &[u8],
    ) -> (result: Result<(), ZmtpError>)
        ensures
            match old(self).reads_initiate(cookie@, initiate_nonce@, initiate_box@) {
                Some(client_public) => result is Ok && old(self).took_initiate(
                    client_public,
                    *final(self),
                ) && old(self).initiate_sealed(cookie@, initiate_nonce@, initiate_box@),
                None => result == Err::<(), _>(ZmtpError::Protocol) && *final(self) == *old(self),
            },
    {
        let client_short_public = match self.client_short_public {
            Some(client_short_public) => client_short_public,
            None => return Err(ZmtpError::Protocol),
        };
        let cookie_key: [u8; CURVE_KEY_SIZE] = match self.cookie_key {
            Some(cookie_key) => cookie_key,
            None => return Err(ZmtpError::Protocol),
        };
        let initiate = match CurveInitiate::read_from(
            cookie,
            initiate_nonce,
            initiate_box,
            &self.server_keypair,
            &self.server_short_keypair,
            &client_short_public,
            &cookie_key,
        ) {
            Ok(initiate) => initiate,
            Err(error) => return Err(error),
        };
        self.client_public = Some(initiate.client_public);
        self.cookie_key = None;
        Ok(())
    }

    /// Make the READY command, and the secret that the message session will start with
    pub fn send_ready(&self) -> (result: Result<(Vec<u8>, CurveSharedSecret), ZmtpError>)
        ensures
            match result {
                Ok((command, shared_secret)) => self.session_secret() == Some(shared_secret@)
                    && ready_sent(command@, shared_secret@) && drawn_suffix(
                    CURVE_READY_NONCE_PREFIX@,
                    command@.subrange(6, 14),
                ),
                Err(error) => error == ZmtpError::Protocol && self.session_secret() is None,
            },
    {
        let client_short_public = match self.client_short_public {
            Some(client_short_public) => client_short_public,
            None => return Err(ZmtpError::Protocol),
        };
        let (ready_short_nonce, _) = random_nonce::<8>(&CURVE_READY_NONCE_PREFIX);
        let shared_secret = match self.server_short_keypair.secret.diffie_hellman(
            &client_short_public,
        ) {
            Ok(shared_secret) => shared_secret,
            Err(_) => return Err(ZmtpError::Protocol),
        };
        match ready_command(&shared_secret, ready_short_nonce) {
            Ok(command) => Ok((command, shared_secret)),
            Err(error) => Err(error),
        }
    }

    /// Start the message session, once READY was written
    pub fn start_session(&mut self, shared_secret: CurveSharedSecret)
        ensures
            old(self).started_session(shared_secret@, *final(self)),
    {
        self.session_cipher = Some(
            CurveSessionCipher::new(
                shared_secret,
                CURVE_SERVER_MESSAGE_PREFIX,
                CURVE_CLIENT_MESSAGE_PREFIX,
            ),
        );
    }

    /// Perform one step of the server handshake
    ///
    /// `step` is the action performed last and `received` what it read. The result is the
    /// next step and the action to perform for it; the handshake finishes with the client's
    /// public key, for authentication.
    pub fn handshake(&mut self, step: ServerStep, received: &[u8]) -> (result: Result<
        (ServerStep, HandshakeAction<CurvePublicKey>),
        ZmtpError,
    >)
        ensures
            match result {
                Ok((next, _)) => next.progress() == step.progress() + 1 || (step is Done && next
                    is Done),
                Err(error) => error == ZmtpError::Protocol,
            },
            final(self).server_keypair == old(self).server_keypair,
            final(self).server_short_keypair == old(self).server_short_keypair,
            step !is ReadyWritten ==> final(self).session_cipher == old(self).session_cipher,
            old(self).handshake_step(step, received@, *final(self), result),
    {
        match step {
            ServerStep::Start => Ok(
                (ServerStep::HelloName, HandshakeAction::Read(CURVE_HELLO.len())),
            ),
            ServerStep::HelloName => match read_command_prefix(received, &CURVE_HELLO) {
                Ok(_) => Ok((ServerStep::HelloBody, HandshakeAction::Read(HELLO_BODY_SIZE))),
                Err(error) => Err(error),
            },
            ServerStep::HelloBody => {
                match self.recv_hello(received) {
                    Ok(_) => {},
                    Err(error) => return Err(error),
                }
                match self.send_welcome() {
                    Ok(command) => Ok(
                        (ServerStep::WelcomeWritten, HandshakeAction::Write(command)),
                    ),
                    Err(error) => Err(error),
                }
            },
            ServerStep::WelcomeWritten => {
                if self.client_short_public.is_none() || self.cookie_key.is_none() {
                    return Err(ZmtpError::Protocol);
                }
                Ok((ServerStep::InitiateName, HandshakeAction::Read(CURVE_INITIATE.len())))
            },
            ServerStep::InitiateName => match read_command_prefix(received, &CURVE_INITIATE) {
                Ok(_) => Ok((ServerStep::InitiateCookie, HandshakeAction::Read(CURVE_COOKIE_SIZE))),
                Err(error) => Err(error),
            },
            ServerStep::InitiateCookie => {
                if received.len() != CURVE_COOKIE_SIZE {
                    return Err(ZmtpError::Protocol);
                }
                let cookie = slice_to_vec(received);
                Ok(
                    (
                        ServerStep::InitiateNonce { cookie },
                        HandshakeAction::Read(INITIATE_NONCE_SIZE),
                    ),
                )
            },
            ServerStep::InitiateNonce { cookie } => {
                if received.len() != INITIATE_NONCE_SIZE {
                    return Err(ZmtpError::Protocol);
                }
                let nonce = slice_to_vec(received);
                Ok(
                    (
                        ServerStep::InitiateBox { cookie, nonce },
                        HandshakeAction::Read(INITIATE_BOX_SIZE),
                    ),
                )
            },
            ServerStep::InitiateBox { cookie, nonce } => {
                match self.recv_initiate(&cookie, &nonce, received) {
                    Ok(_) => {},
                    Err(error) => return Err(error),
                }
                match self.send_ready() {
                    Ok((command, shared_secret)) => Ok(
                        (
                            ServerStep::ReadyWritten { shared_secret },
                            HandshakeAction::Write(command),
                        ),
                    ),
                    Err(error) => Err(error),
                }
            },
            ServerStep::ReadyWritten { shared_secret } => {
                self.start_session(shared_secret);
                match self.client_public {
                    Some(client_public) => Ok(
                        (
                            ServerStep::Done { client_public },
                            HandshakeAction::Finish(client_public),
                        ),
                    ),
                    None => Err(ZmtpError::Protocol),
                }
            },
            ServerStep::Done { client_public } => Ok(
                (ServerStep::Done { client_public }, HandshakeAction::Finish(client_public)),
            ),
        }
    }

    /// Encrypt a message
    pub fn encrypt_message(&mut self, plaintext: &[u8]) -> (result: Result<Bytes, CurveError>)
        requires
            sendable_len(plaintext@.len() as int),
        ensures
            *final(self) == (CurveServer {
                session_cipher: final(self).session_cipher,
                ..*old(self)
            }),
            match (old(self).session_cipher, final(self).session_cipher) {
                (Some(before), Some(after)) => encrypt_outcome(
                    before@,
                    plaintext@,
                    result,
                    after@,
                ),
                (None, None) => result matches Err(error) && error is ProtocolViolation,
                _ => false,
            },
    {
        match &mut self.session_cipher {
            Some(cipher) => cipher.encrypt_message(plaintext),
            None => Err(CurveError::ProtocolViolation),
        }
    }

    /// Decrypt a message
    pub fn decrypt_message(&mut self, message: &[u8]) -> (result: Result<Bytes, CurveError>)
        requires
            receivable_len(message@.len() as int),
        ensures
            *final(self) == (CurveServer {
                session_cipher: final(self).session_cipher,
                ..*old(self)
            }),
            match (old(self).session_cipher, final(self).session_cipher) {
                (Some(before), Some(after)) => decrypt_outcome(
                    before@,
                    message@,
                    result,
                    after@,
                ),
                (None, None) => result matches Err(error) && error is ProtocolViolation,
                _ => false,
            },
    {
        match &mut self.session_cipher {
            Some(cipher) => cipher.decrypt_message(message),
            None => Err(CurveError::ProtocolViolation),
        }
    }
}

} // verus!
