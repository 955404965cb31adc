//! Framing that the security mechanisms share.

use crate::codec::ZmtpError;
use crate::security::curve::wire::same_bytes;
use vstd::prelude::*;

verus! {

/// Check the command name that a peer sent against the one that is expected next.
pub fn read_command_prefix(received: &[u8], expected: &[u8]) -> (result: Result<(), ZmtpError>)
    ensures
        match result {
            Ok(_) => received@ == expected@,
            Err(error) => error == ZmtpError::Protocol && received@ != expected@,
        },
{
    if same_bytes(received, expected) {
        Ok(())
    } else {
        Err(ZmtpError::Protocol)
    }
}

} // verus!
