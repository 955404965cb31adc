//! What a handshake asks of the code that owns the connection.

use vstd::prelude::*;

verus! {

/// The next thing to do for a handshake.
pub enum HandshakeAction<T> {
    /// Write all of these bytes.
    Write(Vec<u8>),
    /// Read exactly this many bytes.
    Read(usize),
    /// Nothing more: the handshake is complete, with this outcome.
    Finish(T),
}

} // verus!
