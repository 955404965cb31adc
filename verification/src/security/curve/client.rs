//! The client's side of the CURVE handshake.

use crate::codec::ZmtpError;
use crate::security::curve::drawn::drawn_secret;
use crate::security::curve::error::CurveError;
use crate::security::curve::hello::{hello_command, hello_sent};
use crate::security::curve::initiate::{initiate_command, initiate_sent, vouch_made};
use crate::security::curve::keys::{agreed_secret, CurveKeyPair, CurvePublicKey};
use crate::security::curve::message::{
    decrypt_outcome, encrypt_outcome, receivable_len, sendable_len, CurveSessionCipher, Session,
};
use crate::security::curve::ready::{ready_read, CurveReady, READY_BOX_SIZE, READY_NONCE_SIZE};
use crate::security::curve::step::HandshakeAction;
use crate::security::curve::welcome::{
    welcome_read, CurveWelcome, WELCOME_BOX_SIZE, WELCOME_NONCE_SIZE,
};
use crate::security::curve::wire::{
    boxed, drawn_suffix, random_nonce, CURVE_CLIENT_MESSAGE_PREFIX, CURVE_COOKIE_SIZE,
    CURVE_HELLO_NONCE_PREFIX, CURVE_INITIATE_NONCE_PREFIX, CURVE_READY, CURVE_READY_NONCE_PREFIX,
    CURVE_SERVER_MESSAGE_PREFIX, CURVE_VOUCH_NONCE_PREFIX, CURVE_WELCOME,
    CURVE_WELCOME_NONCE_PREFIX,
};
use crate::security::protocol::read_command_prefix;
use bytes::Bytes;
use vstd::prelude::*;
use vstd::slice::slice_to_vec;

verus! {

/// CURVE client state machine
pub struct CurveClient {
    /// Client's long-term key pair
    pub client_keypair: CurveKeyPair,
    /// Server's long-term public key.
    pub server_public: CurvePublicKey,
    /// Client's short-term (ephemeral) key pair
    pub client_short_keypair: CurveKeyPair,
    /// Server's short-term public key (received in WELCOME)
    pub server_short_public: Option<CurvePublicKey>,
    /// Server cookie received in WELCOME.
    pub welcome_cookie: Option<[u8; CURVE_COOKIE_SIZE]>,
    /// Message cipher (after READY)
    pub session_cipher: Option<CurveSessionCipher>,
}

/// How far a client's handshake has come: the action that was performed last.
pub enum ClientStep {
    /// Nothing was done yet.
    Start,
    /// HELLO was written.
    HelloWritten,
    /// The name of WELCOME was read.
    WelcomeName,
    /// The nonce of WELCOME was read.
    WelcomeNonce,
    /// The box of WELCOME was read.
    WelcomeBox {
        /// The nonce that was read before it.
        nonce: Vec<u8>,
    },
    /// INITIATE was written.
    InitiateWritten,
    /// The name of READY was read.
    ReadyName,
    /// The nonce of READY was read.
    ReadyNonce,
    /// The box of READY was read.
    ReadyBox {
        /// The nonce that was read before it.
        nonce: Vec<u8>,
    },
    /// The handshake is complete.
    Done,
}

impl ClientStep {
    /// The number of actions performed so far.
    pub open spec fn progress(self) -> nat {
        match self {
            ClientStep::Start => 0,
            ClientStep::HelloWritten => 1,
            ClientStep::WelcomeName => 2,
            ClientStep::WelcomeNonce => 3,
            ClientStep::WelcomeBox { .. } => 4,
            ClientStep::InitiateWritten => 5,
            ClientStep::ReadyName => 6,
            ClientStep::ReadyNonce => 7,
            ClientStep::ReadyBox { .. } => 8,
            ClientStep::Done => 9,
        }
    }
}

/// A handshake step went well, and this is the next step and the action to perform for it.
pub open spec fn client_asks(
    result: Result<(ClientStep, HandshakeAction<()>), ZmtpError>,
    next: ClientStep,
    action: HandshakeAction<()>,
) -> bool {
    result == Ok::<(ClientStep, HandshakeAction<()>), ZmtpError>((next, action))
}

impl CurveClient {
    /// The client after it accepted a WELCOME command.
    pub open spec fn welcomed(
        self,
        server_short_public: Option<CurvePublicKey>,
        cookie: Option<[u8; CURVE_COOKIE_SIZE]>,
    ) -> CurveClient {
        CurveClient { server_short_public, welcome_cookie: cookie, ..self }
    }

    /// The client without its cookie, which it returns only once.
    pub open spec fn without_cookie(self) -> CurveClient {
        CurveClient { welcome_cookie: None, ..self }
    }

    /// What this client reads in a WELCOME command.
    pub open spec fn reads_welcome(self, nonce: Seq<u8>, welcome_box: Seq<u8>) -> Option<
        (Seq<u8>, Seq<u8>),
    > {
        welcome_read(nonce, welcome_box, self.client_short_keypair.secret@, self.server_public@)
    }

    /// A WELCOME box with these contents was sealed under the secret that this client's
    /// short-term key and the server's long-term key agree on.
    pub open spec fn welcome_sealed(
        self,
        nonce: Seq<u8>,
        welcome_box: Seq<u8>,
        server_short_public: Seq<u8>,
        cookie: Seq<u8>,
    ) -> bool {
        boxed(
            agreed_secret(self.client_short_keypair.secret@, self.server_public@)->Some_0,
            CURVE_WELCOME_NONCE_PREFIX@ + nonce,
            server_short_public + cookie,
            welcome_box,
        )
    }

    /// `after` is this client once it accepted a WELCOME command with these contents.
    pub open spec fn took_welcome(
        self,
        server_short_public: Seq<u8>,
        cookie: Seq<u8>,
        after: CurveClient,
    ) -> bool {
        &&& after == self.welcomed(after.server_short_public, after.welcome_cookie)
        &&& after.server_short_public matches Some(key) && key@ == server_short_public
        &&& after.welcome_cookie matches Some(kept) && kept@ == cookie
    }

    /// This client can seal an INITIATE command: it has a short-term key of the server and
    /// a cookie, and both of its own keys agree on a secret with that key.
    pub open spec fn can_initiate(self) -> bool {
        &&& self.welcome_cookie is Some
        &&& self.server_short_public matches Some(key) && agreed_secret(
            self.client_keypair.secret@,
            key@,
        ) is Some && agreed_secret(self.client_short_keypair.secret@, key@) is Some
    }

    /// `command` is an INITIATE command of this client.
    pub open spec fn initiates(self, command: Seq<u8>) -> bool {
        exists|vouch: Seq<u8>|
            {
                &&& #[trigger] vouch_made(
                    vouch,
                    self.client_keypair@,
                    self.client_short_keypair.public@,
                    self.server_public@,
                    self.server_short_public->Some_0@,
                )
                &&& initiate_sent(
                    command,
                    self.welcome_cookie->Some_0@,
                    vouch,
                    self.client_keypair.public@,
                    self.client_short_keypair@,
                    self.server_short_public->Some_0@,
                )
            }
    }

    /// The nonce suffixes of an INITIATE command of this client were drawn: that of the box,
    /// and that of a vouch which the box holds.
    pub open spec fn initiate_nonces_drawn(self, command: Seq<u8>) -> bool {
        &&& drawn_suffix(CURVE_INITIATE_NONCE_PREFIX@, command.subrange(105, 113))
        &&& exists|vouch: Seq<u8>|
            {
                &&& #[trigger] vouch_made(
                    vouch,
                    self.client_keypair@,
                    self.client_short_keypair.public@,
                    self.server_public@,
                    self.server_short_public->Some_0@,
                )
                &&& drawn_suffix(CURVE_VOUCH_NONCE_PREFIX@, vouch.subrange(0, 16))
                &&& initiate_sent(
                    command,
                    self.welcome_cookie->Some_0@,
                    vouch,
                    self.client_keypair.public@,
                    self.client_short_keypair@,
                    self.server_short_public->Some_0@,
                )
            }
    }

    /// This client accepts a READY command.
    pub open spec fn accepts_ready(self, nonce: Seq<u8>, ready_box: Seq<u8>) -> bool {
        self.server_short_public matches Some(key) && ready_read(
            nonce,
            ready_box,
            self.client_short_keypair.secret@,
            key@,
        )
    }

    /// A READY box was sealed, empty, under the secret that the two short-term keys agree on.
    pub open spec fn ready_sealed(self, nonce: Seq<u8>, ready_box: Seq<u8>) -> bool {
        boxed(
            agreed_secret(
                self.client_short_keypair.secret@,
                self.server_short_public->Some_0@,
            )->Some_0,
            CURVE_READY_NONCE_PREFIX@ + nonce,
            Seq::<u8>::empty(),
            ready_box,
        )
    }

    /// `after` is this client at the start of a message session.
    pub open spec fn took_ready(self, after: CurveClient) -> bool {
        &&& after == (CurveClient { session_cipher: after.session_cipher, ..self })
        &&& after.session_cipher matches Some(session) && session@ == Session::client(
            agreed_secret(
                self.client_short_keypair.secret@,
                self.server_short_public->Some_0@,
            )->Some_0,
        )
    }

    /// What one step of the handshake returns and leaves behind: `step` is the action
    /// performed last and `received` what it read.
    pub open spec fn handshake_step(
        self,
        step: ClientStep,
        received: Seq<u8>,
        after: CurveClient,
        result: Result<(ClientStep, HandshakeAction<()>), ZmtpError>,
    ) -> bool {
        &&& (result matches Err(error) ==> error == ZmtpError::Protocol)
        &&& match step {
            ClientStep::Start => after == self && match result {
                Ok((next, action)) => next is HelloWritten && (action matches
                    HandshakeAction::Write(command) && hello_sent(
                    command@,
                    self.client_short_keypair@,
                    self.server_public@,
                ) && drawn_suffix(CURVE_HELLO_NONCE_PREFIX@, command@.subrange(112, 120))),
                Err(_) => agreed_secret(
                    self.client_short_keypair.secret@,
                    self.server_public@,
                ) is None,
            },
            ClientStep::HelloWritten => after == self && client_asks(
                result,
                ClientStep::WelcomeName,
                HandshakeAction::Read(8),
            ),
            ClientStep::WelcomeName => after == self && if received == CURVE_WELCOME@ {
                client_asks(result, ClientStep::WelcomeNonce, HandshakeAction::Read(16))
            } else {
                result is Err
            },
            ClientStep::WelcomeNonce => after == self && if received.len() == 16 {
                result matches Ok((next, action)) && (next matches ClientStep::WelcomeBox {
                    nonce,
                } && nonce@ == received) && action == HandshakeAction::<()>::Read(144)
            } else {
                result is Err
            },
            ClientStep::WelcomeBox { nonce } => match self.reads_welcome(
                nonce@,
                received,
            ) {
                Some((server_short_public, cookie)) => exists|welcomed: CurveClient|
                    {
                        &&& #[trigger] self.took_welcome(
                            server_short_public,
                            cookie,
                            welcomed,
                        )
                        &&& self.welcome_sealed(
                            nonce@,
                            received,
                            server_short_public,
                            cookie,
                        )
                        &&& after == welcomed.without_cookie()
                        &&& match result {
                            Ok((next, action)) => next is InitiateWritten && (action matches
                                HandshakeAction::Write(command) && welcomed.initiates(command@)
                                && welcomed.initiate_nonces_drawn(command@)),
                            Err(_) => !welcomed.can_initiate(),
                        }
                    },
                None => after == self && result is Err,
            },
            ClientStep::InitiateWritten => after == self && if self.server_short_public is Some {
                client_asks(result, ClientStep::ReadyName, HandshakeAction::Read(6))
            } else {
                result is Err
            },
            ClientStep::ReadyName => after == self && if received == CURVE_READY@ {
                client_asks(result, ClientStep::ReadyNonce, HandshakeAction::Read(8))
            } else {
                result is Err
            },
            ClientStep::ReadyNonce => after == self && if received.len() == 8 {
                result matches Ok((next, action)) && (next matches ClientStep::ReadyBox {
                    nonce,
                } && nonce@ == received) && action == HandshakeAction::<()>::Read(16)
            } else {
                result is Err
            },
            ClientStep::ReadyBox { nonce } => if self.accepts_ready(nonce@, received) {
                client_asks(result, ClientStep::Done, HandshakeAction::Finish(()))
                    && self.took_ready(after) && self.ready_sealed(
                    nonce@,
                    received,
                )
            } else {
                result is Err && after == self
            },
            ClientStep::Done => after == self && client_asks(
                result,
                ClientStep::Done,
                HandshakeAction::Finish(()),
            ),
        }
    }

    /// Create new CURVE client
    pub fn new(client_keypair: CurveKeyPair, server_public: CurvePublicKey) -> (client: Self)
        ensures
            client.client_keypair == client_keypair,
            client.server_public == server_public,
            client.client_short_keypair@.valid(),
            drawn_secret(client.client_short_keypair.secret@),
            client.server_short_public is None,
            client.welcome_cookie is None,
            client.session_cipher is None,
    {
        CurveClient {
            client_keypair,
            server_public,
            client_short_keypair: CurveKeyPair::generate(),
            server_short_public: None,
            welcome_cookie: None,
            session_cipher: None,
        }
    }

    /// Make the HELLO command
    pub fn send_hello(&self) -> (result: Result<Vec<u8>, ZmtpError>)
        ensures
            match result {
                Ok(command) => hello_sent(
                    command@,
                    self.client_short_keypair@,
                    self.server_public@,
                ) && drawn_suffix(CURVE_HELLO_NONCE_PREFIX@, command@.subrange(112, 120)),
                Err(error) => error == ZmtpError::Protocol && agreed_secret(
                    self.client_short_keypair.secret@,
                    self.server_public@,
                ) is None,
            },
    {
        let (short_nonce, _) = random_nonce::<8>(&CURVE_HELLO_NONCE_PREFIX);
        hello_command(&self.client_short_keypair, &self.server_public, short_nonce)
    }

    /// Take in the nonce and the box of a WELCOME command
    pub fn recv_welcome(&mut self, welcome_nonce: &[u8], welcome_box: &[u8]) -> (result: Result<
        (),
        ZmtpError,
    >)
        ensures
            match old(self).reads_welcome(welcome_nonce@, welcome_box@) {
                Some((server_short_public, cookie)) => result is Ok && old(self).took_welcome(
                    server_short_public,
                    cookie,
                    *final(self),
                ) && old(self).welcome_sealed(
                    welcome_nonce@,
                    welcome_box@,
                    server_short_public,
                    cookie,
                ),
                None => result == Err::<(), _>(ZmtpError::Protocol) && *final(self) == *old(self),
            },
    {
        let welcome = match CurveWelcome::read_from(
            welcome_nonce,
            welcome_box,
            &self.client_short_keypair,
            &self.server_public,
        ) {
            Ok(welcome) => welcome,
            Err(error) => return Err(error),
        };
        self.server_short_public = Some(welcome.server_short_public);
        self.welcome_cookie = Some(welcome.cookie);
        Ok(())
    }

    /// Make the INITIATE command
    ///
    /// The cookie is given up even where the command cannot be made, unless no WELCOME was
    /// taken in yet.
    pub fn send_initiate(&mut self) -> (result: Result<Vec<u8>, ZmtpError>)
        ensures
            *final(self) == if old(self).server_short_public is Some {
                old(self).without_cookie()
            } else {
                *old(self)
            },
            match result {
                Ok(command) => old(self).can_initiate() && old(self).initiates(command@)
                    && old(self).initiate_nonces_drawn(command@),
                Err(error) => error == ZmtpError::Protocol && !old(self).can_initiate(),
            },
    {
        let server_short_public = match self.server_short_public {
            Some(server_short_public) => server_short_public,
            None => return Err(ZmtpError::Protocol),
        };
        let cookie = match self.welcome_cookie.take() {
            Some(cookie) => cookie,
            None => return Err(ZmtpError::Protocol),
        };
        let (vouch_short_nonce, _) = random_nonce::<16>(&CURVE_VOUCH_NONCE_PREFIX);
        let (initiate_short_nonce, _) = random_nonce::<8>(&CURVE_INITIATE_NONCE_PREFIX);
        initiate_command(
            &self.client_keypair,
            &self.client_short_keypair,
            &self.server_public,
            &server_short_public,
            &cookie,
            vouch_short_nonce,
            initiate_short_nonce,
        )
    }

    /// Take in the nonce and the box of a READY command
    pub fn recv_ready(&mut self, ready_nonce: &[u8], ready_box: &[u8]) -> (result: Result<
        (),
        ZmtpError,
    >)
        ensures
            if old(self).accepts_ready(ready_nonce@, ready_box@) {
                result is Ok && old(self).took_ready(*final(self)) && old(self).ready_sealed(
                    ready_nonce@,
                    ready_box@,
                )
            } else {
                result == Err::<(), _>(ZmtpError::Protocol) && *final(self) == *old(self)
            },
    {
        let server_short_public = match self.server_short_public {
            Some(server_short_public) => server_short_public,
            None => return Err(ZmtpError::Protocol),
        };
        match CurveReady::read_from(
            ready_nonce,
            ready_box,
            &self.client_short_keypair,
            &server_short_public,
        ) {
            Ok(_) => {},
            Err(error) => return Err(error),
        }
        let shared_secret = match self.client_short_keypair.secret.diffie_hellman(
            &server_short_public,
        ) {
            Ok(shared_secret) => shared_secret,
            Err(_) => return Err(ZmtpError::Protocol),
        };
        self.session_cipher = Some(
            CurveSessionCipher::new(
                shared_secret,
                CURVE_CLIENT_MESSAGE_PREFIX,
                CURVE_SERVER_MESSAGE_PREFIX,
            ),
        );
        Ok(())
    }

    /// Perform one step of the client handshake
    ///
    /// `step` is the action performed last and `received` what it read. The result is the
    /// next step and the action to perform for it.
    pub fn handshake(&mut self, step: ClientStep, received: &[u8]) -> (result: Result<
        (ClientStep, HandshakeAction<()>),
        ZmtpError,
    >)
        ensures
            match result {
                Ok((next, _)) => next.progress() == step.progress() + 1 || (step is Done && next
                    is Done),
                Err(error) => error == ZmtpError::Protocol,
            },
            final(self).client_keypair == old(self).client_keypair,
            final(self).server_public == old(self).server_public,
            final(self).client_short_keypair == old(self).client_short_keypair,
            step !is ReadyBox || result is Err ==> final(self).session_cipher == old(
                self,
            ).session_cipher,
            old(self).handshake_step(step, received@, *final(self), result),
    {
        match step {
            ClientStep::Start => match self.send_hello() {
                Ok(command) => Ok((ClientStep::HelloWritten, HandshakeAction::Write(command))),
                Err(error) => Err(error),
            },
            ClientStep::HelloWritten => Ok(
                (ClientStep::WelcomeName, HandshakeAction::Read(CURVE_WELCOME.len())),
            ),
            ClientStep::WelcomeName => match read_command_prefix(received, &CURVE_WELCOME) {
                Ok(_) => Ok((ClientStep::WelcomeNonce, HandshakeAction::Read(WELCOME_NONCE_SIZE))),
                Err(error) => Err(error),
            },
            ClientStep::WelcomeNonce => {
                if received.len() != WELCOME_NONCE_SIZE {
                    return Err(ZmtpError::Protocol);
                }
                let nonce = slice_to_vec(received);
                Ok((ClientStep::WelcomeBox { nonce }, HandshakeAction::Read(WELCOME_BOX_SIZE)))
            },
            ClientStep::WelcomeBox { nonce } => {
                match self.recv_welcome(&nonce, received) {
                    Ok(_) => {},
                    Err(error) => return Err(error),
                }
                match self.send_initiate() {
                    Ok(command) => Ok(
                        (ClientStep::InitiateWritten, HandshakeAction::Write(command)),
                    ),
                    Err(error) => Err(error),
                }
            },
            ClientStep::InitiateWritten => match self.server_short_public {
                Some(_) => Ok((ClientStep::ReadyName, HandshakeAction::Read(CURVE_READY.len()))),
                None => Err(ZmtpError::Protocol),
            },
            ClientStep::ReadyName => match read_command_prefix(received, &CURVE_READY) {
                Ok(_) => Ok((ClientStep::ReadyNonce, HandshakeAction::Read(READY_NONCE_SIZE))),
                Err(error) => Err(error),
            },
            ClientStep::ReadyNonce => {
                if received.len() != READY_NONCE_SIZE {
                    return Err(ZmtpError::Protocol);
                }
                let nonce = slice_to_vec(received);
                Ok((ClientStep::ReadyBox { nonce }, HandshakeAction::Read(READY_BOX_SIZE)))
            },
            ClientStep::ReadyBox { nonce } => match self.recv_ready(&nonce, received) {
                Ok(_) => Ok((ClientStep::Done, HandshakeAction::Finish(()))),
                Err(error) => Err(error),
            },
            ClientStep::Done => Ok((ClientStep::Done, HandshakeAction::Finish(()))),
        }
    }

    /// Encrypt a message
    pub fn encrypt_message(&mut self, plaintext: &[u8]) -> (result: Result<Bytes, CurveError>)
        requires
            sendable_len(plaintext@.len() as int),
        ensures
            *final(self) == (CurveClient {
                session_cipher: final(self).session_cipher,
                ..*old(self)
            }),
            match (old(self).session_cipher, final(self).session_cipher) {
                (Some(before), Some(after)) => encrypt_outcome(
                    before@,
                    plaintext@,
                    result,
                    after@,
                ),
                (None, None) => result matches Err(error) && error is ProtocolViolation,
                _ => false,
            },
    {
        match &mut self.session_cipher {
            Some(cipher) => cipher.encrypt_message(plaintext),
            None => Err(CurveError::ProtocolViolation),
        }
    }

    /// Decrypt a message
    pub fn decrypt_message(&mut self, message: &[u8]) -> (result: Result<Bytes, CurveError>)
        requires
            receivable_len(message@.len() as int),
        ensures
            *final(self) == (CurveClient {
                session_cipher: final(self).session_cipher,
                ..*old(self)
            }),
            match (old(self).session_cipher, final(self).session_cipher) {
                (Some(before), Some(after)) => decrypt_outcome(
                    before@,
                    message@,
                    result,
                    after@,
                ),
                (None, None) => result matches Err(error) && error is ProtocolViolation,
                _ => false,
            },
    {
        match &mut self.session_cipher {
            Some(cipher) => cipher.decrypt_message(message),
            None => Err(CurveError::ProtocolViolation),
        }
    }
}

} // verus!
