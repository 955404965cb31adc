//! MESSAGE commands: framing, sealing and replay protection after the handshake.

use crate::buffers::{bytes_content, bytes_mut_content};
use crate::security::curve::cipher::CurveBox;
use crate::security::curve::error::CurveError;
use crate::security::curve::keys::CurveSharedSecret;
use crate::security::curve::primitives::{
    keystream_runs_out, AEAD_REFUSED_LEN, AEAD_SEALED_LEN,
};
use crate::security::curve::wire::{
    be_value, boxed, counter_from_bytes, counter_to_bytes, full_nonce, same_bytes, to_array,
    unboxed, CURVE_CLIENT_MESSAGE_PREFIX, CURVE_MESSAGE, CURVE_MESSAGE_NONCE_SIZE,
    CURVE_SERVER_MESSAGE_PREFIX,
};
use bytes::{Bytes, BytesMut};
use vstd::prelude::*;
use vstd::slice::slice_subrange;

verus! {

/// Whether bytes have the shape of a MESSAGE command: the name, an 8-byte counter, and a
/// box of any length.
pub open spec fn is_message(message: Seq<u8>) -> bool {
    message.len() >= 16 && message.subrange(0, 8) == CURVE_MESSAGE@
}

/// The counter bytes of a MESSAGE command.
pub open spec fn message_counter_bytes(message: Seq<u8>) -> Seq<u8> {
    message.subrange(8, 16)
}

/// The counter of a MESSAGE command.
pub open spec fn message_counter(message: Seq<u8>) -> nat {
    be_value(message_counter_bytes(message))
}

/// The box of a MESSAGE command.
pub open spec fn message_box(message: Seq<u8>) -> Seq<u8> {
    message.subrange(16, message.len() as int)
}

/// A plaintext length that `encrypt_message` handles: the command is 32 bytes longer, and
/// its buffer may need twice that.
pub open spec fn sendable_len(len: int) -> bool {
    2 * (len + 32) <= isize::MAX && !keystream_runs_out(len)
}

/// A command length that `decrypt_message` handles.
pub open spec fn receivable_len(len: int) -> bool {
    !keystream_runs_out(len - 32)
}

/// A parsed MESSAGE command.
pub struct CurveMessageFrame<'a> {
    /// The sender's message counter.
    pub counter: u64,
    /// The sealed message.
    pub ciphertext: &'a [u8],
}

impl<'a> CurveMessageFrame<'a> {
    /// Split a MESSAGE command into its counter and its box.
    pub fn parse(message: &'a [u8]) -> (result: Result<Self, CurveError>)
        ensures
            match result {
                Ok(frame) => is_message(message@) && frame.counter == message_counter(message@)
                    && frame.ciphertext@ == message_box(message@),
                Err(error) => error is ProtocolViolation && !is_message(message@),
            },
    {
        let command_len: usize = CURVE_MESSAGE.len();
        if message.len() < command_len + CURVE_MESSAGE_NONCE_SIZE {
            return Err(CurveError::ProtocolViolation);
        }
        if !same_bytes(slice_subrange(message, 0, command_len), &CURVE_MESSAGE) {
            return Err(CurveError::ProtocolViolation);
        }
        let counter: u64 = counter_from_bytes(
            to_array::<8>(
                slice_subrange(message, command_len, command_len + CURVE_MESSAGE_NONCE_SIZE),
            ),
        );
        Ok(
            CurveMessageFrame {
                counter,
                ciphertext: slice_subrange(
                    message,
                    command_len + CURVE_MESSAGE_NONCE_SIZE,
                    message.len(),
                ),
            },
        )
    }
}

/// The state of one direction-aware message session.
pub struct Session {
    /// Key of all boxes.
    pub key: Seq<u8>,
    /// Counter of the next message to send.
    pub send_nonce: u64,
    /// Smallest counter that is still accepted.
    pub recv_nonce: u64,
    /// Nonce prefix of messages sent.
    pub send_prefix: Seq<u8>,
    /// Nonce prefix of messages received.
    pub recv_prefix: Seq<u8>,
}

/// What becomes of a received command.
pub enum Verdict {
    /// It is authentic and new, and this is its content.
    Accepted(Seq<u8>),
    /// It is malformed, a replay, or its counter is exhausted.
    Violation,
    /// Its box does not open.
    Unauthentic,
}

/// `message` is the MESSAGE command with this counter that boxes `plaintext` under `key`
/// and the sender's nonce prefix.
pub open spec fn message_formed(
    message: Seq<u8>,
    key: Seq<u8>,
    prefix: Seq<u8>,
    counter: nat,
    plaintext: Seq<u8>,
) -> bool {
    &&& is_message(message)
    &&& message_counter(message) == counter
    &&& boxed(key, prefix + message_counter_bytes(message), plaintext, message_box(message))
}

impl Session {
    /// The state when a session starts.
    pub open spec fn starting(key: Seq<u8>, send_prefix: Seq<u8>, recv_prefix: Seq<u8>) -> Session {
        Session { key, send_nonce: 0, recv_nonce: 0, send_prefix, recv_prefix }
    }

    /// A client's state when a session under `key` starts.
    pub open spec fn client(key: Seq<u8>) -> Session {
        Session::starting(key, CURVE_CLIENT_MESSAGE_PREFIX@, CURVE_SERVER_MESSAGE_PREFIX@)
    }

    /// A server's state when a session under `key` starts.
    pub open spec fn server(key: Seq<u8>) -> Session {
        Session::starting(key, CURVE_SERVER_MESSAGE_PREFIX@, CURVE_CLIENT_MESSAGE_PREFIX@)
    }

    /// The state after one more message was sealed.
    pub open spec fn sent(self) -> Session {
        Session { send_nonce: (self.send_nonce + 1) as u64, ..self }
    }

    /// What this state makes of a received command.
    pub open spec fn verdict(self, message: Seq<u8>) -> Verdict {
        if !is_message(message) || message_counter(message) < self.recv_nonce || message_counter(
            message,
        ) >= u64::MAX {
            Verdict::Violation
        } else {
            match unboxed(
                self.key,
                self.recv_prefix + message_counter_bytes(message),
                message_box(message),
            ) {
                Some(plaintext) => Verdict::Accepted(plaintext),
                None => Verdict::Unauthentic,
            }
        }
    }

    /// The state after a command was received.
    pub open spec fn received(self, message: Seq<u8>) -> Session {
        if self.verdict(message) is Accepted {
            Session { recv_nonce: (message_counter(message) + 1) as u64, ..self }
        } else {
            self
        }
    }
}

/// What sealing `plaintext` returns and leaves behind. The counter is used up even where
/// sealing fails, and the last counter is never used.
pub open spec fn encrypt_outcome(
    before: Session,
    plaintext: Seq<u8>,
    result: Result<Bytes, CurveError>,
    after: Session,
) -> bool {
    if before.send_nonce == u64::MAX {
        &&& after == before
        &&& result matches Err(error) && error is ProtocolViolation
    } else {
        &&& after == before.sent()
        &&& match result {
            Ok(message) => plaintext.len() < AEAD_REFUSED_LEN && message_formed(
                bytes_content(message),
                before.key,
                before.send_prefix,
                before.send_nonce as nat,
                plaintext,
            ),
            Err(error) => plaintext.len() >= AEAD_REFUSED_LEN && error is EncryptionFailed,
        }
    }
}

/// What opening `message` returns and leaves behind.
pub open spec fn decrypt_outcome(
    before: Session,
    message: Seq<u8>,
    result: Result<Bytes, CurveError>,
    after: Session,
) -> bool {
    &&& after == before.received(message)
    &&& match result {
        Ok(plaintext) => before.verdict(message) == Verdict::Accepted(bytes_content(plaintext))
            && message_formed(
            message,
            before.key,
            before.recv_prefix,
            message_counter(message),
            bytes_content(plaintext),
        ),
        Err(error) => {
            ||| error is ProtocolViolation && before.verdict(message) is Violation
            ||| error is DecryptionFailed && before.verdict(message) is Unauthentic
        },
    }
}

/// Whether `encrypt_message` takes a plaintext of this length.
pub fn is_sendable(len: usize) -> (sendable: bool)
    ensures
        sendable == sendable_len(len as int),
{
    let sealed_len: u64 = AEAD_SEALED_LEN;
    let wide_len: u64 = len as u64;
    len <= isize::MAX as usize / 2 - 32 && !(sealed_len < wide_len && wide_len < AEAD_REFUSED_LEN)
}

/// Whether `decrypt_message` takes a command of this length.
pub fn is_receivable(len: usize) -> (receivable: bool)
    ensures
        receivable == receivable_len(len as int),
{
    let wide_len: u64 = len as u64;
    !(AEAD_SEALED_LEN + 32 < wide_len && wide_len < AEAD_REFUSED_LEN + 32)
}

/// Seals and opens the messages of one connection.
pub struct CurveSessionCipher {
    cipher: CurveBox,
    send_nonce: u64,
    recv_nonce: u64,
    send_prefix: [u8; 16],
    recv_prefix: [u8; 16],
}

impl View for CurveSessionCipher {
    type V = Session;

    closed spec fn view(&self) -> Session {
        Session {
            key: self.cipher@,
            send_nonce: self.send_nonce,
            recv_nonce: self.recv_nonce,
            send_prefix: self.send_prefix@,
            recv_prefix: self.recv_prefix@,
        }
    }
}

impl CurveSessionCipher {
    /// Start a session at counter zero in both directions.
    pub fn new(
        shared_secret: CurveSharedSecret,
        send_prefix: [u8; 16],
        recv_prefix: [u8; 16],
    ) -> (session: Self)
        ensures
            session@ == Session::starting(shared_secret@, send_prefix@, recv_prefix@),
    {
        CurveSessionCipher {
            cipher: CurveBox::new(&shared_secret),
            send_nonce: 0,
            recv_nonce: 0,
            send_prefix,
            recv_prefix,
        }
    }

    /// Seal a message under the next counter.
    pub fn encrypt_message(&mut self, plaintext: &[u8]) -> (result: Result<Bytes, CurveError>)
        requires
            sendable_len(plaintext@.len() as int),
        ensures
            encrypt_outcome(old(self)@, plaintext@, result, final(self)@),
    {
        let counter: u64 = self.send_nonce;
        self.send_nonce =
        match self.send_nonce.checked_add(1) {
            Some(next) => next,
            None => return Err(CurveError::ProtocolViolation),
        };
        let counter_bytes: [u8; 8] = counter_to_bytes(counter);
        let nonce = full_nonce(&self.send_prefix, &counter_bytes);

        let ciphertext = match self.cipher.encrypt(plaintext, &nonce) {
            Ok(ciphertext) => ciphertext,
            Err(error) => return Err(error),
        };
        let mut message = BytesMut::new();
        message.extend_from_slice(&CURVE_MESSAGE);
        message.extend_from_slice(&counter_bytes);
        message.extend_from_slice(&ciphertext);
        proof {
            let content = bytes_mut_content(message);
            assert(content.subrange(0, 8) =~= CURVE_MESSAGE@);
            assert(message_counter_bytes(content) =~= counter_bytes@);
            assert(message_box(content) =~= ciphertext@);
        }
        Ok(message.freeze())
    }

    /// Open a received MESSAGE command, unless its counter was seen before.
    pub fn decrypt_message(&mut self, message: &[u8]) -> (result: Result<Bytes, CurveError>)
        requires
            receivable_len(message@.len() as int),
        ensures
            decrypt_outcome(old(self)@, message@, result, final(self)@),
    {
        let frame = match CurveMessageFrame::parse(message) {
            Ok(frame) => frame,
            Err(error) => return Err(error),
        };
        if frame.counter < self.recv_nonce {
            return Err(CurveError::ProtocolViolation);
        }
        let next_recv_nonce: u64 = match frame.counter.checked_add(1) {
            Some(next) => next,
            None => return Err(CurveError::ProtocolViolation),
        };
        let nonce = full_nonce(&self.recv_prefix, slice_subrange(message, 8, 16));
        let plaintext = match self.cipher.decrypt(frame.ciphertext, &nonce) {
            Ok(plaintext) => plaintext,
            Err(error) => return Err(error),
        };
        self.recv_nonce = next_recv_nonce;
        Ok(Bytes::from(plaintext))
    }
}

} // verus!
