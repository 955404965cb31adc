//! Constants and byte layouts of the CURVE commands.

use crate::security::curve::byte_laws::law_counters_are_big_endian;
use crate::security::curve::drawn::drawn_bytes;
use crate::security::curve::primitives::{aead_open, random_bytes, sealed};
use vstd::prelude::*;

verus! {

/// Size of a CURVE key in bytes.
pub const CURVE_KEY_SIZE: usize = 32;

/// Size of a CURVE nonce in bytes.
pub const CURVE_NONCE_SIZE: usize = 24;

/// Overhead added by the Poly1305 authentication tag.
pub const CURVE_BOX_OVERHEAD: usize = 16;

/// Size of the server's cookie in bytes.
pub const CURVE_COOKIE_SIZE: usize = 96;

/// Size of the counter in a MESSAGE command, in bytes.
pub const CURVE_MESSAGE_NONCE_SIZE: usize = 8;

/// The command name `"\x05HELLO"`.
pub const CURVE_HELLO: [u8; 6] = [5, 72, 69, 76, 76, 79];

/// The command name `"\x07WELCOME"`.
pub const CURVE_WELCOME: [u8; 8] = [7, 87, 69, 76, 67, 79, 77, 69];

/// The command name `"\x08INITIATE"`.
pub const CURVE_INITIATE: [u8; 9] = [8, 73, 78, 73, 84, 73, 65, 84, 69];

/// The command name `"\x05READY"`.
pub const CURVE_READY: [u8; 6] = [5, 82, 69, 65, 68, 89];

/// The command name `"\x07MESSAGE"`.
pub const CURVE_MESSAGE: [u8; 8] = [7, 77, 69, 83, 83, 65, 71, 69];

/// The nonce prefix `"CurveZMQHELLO---"`.
pub const CURVE_HELLO_NONCE_PREFIX: [u8; 16] = [
    67, 117, 114, 118, 101, 90, 77, 81, 72, 69, 76, 76, 79, 45, 45, 45,
];

/// The nonce prefix `"WELCOME-"`.
pub const CURVE_WELCOME_NONCE_PREFIX: [u8; 8] = [87, 69, 76, 67, 79, 77, 69, 45];

/// The nonce prefix `"COOKIE--"`.
pub const CURVE_COOKIE_NONCE_PREFIX: [u8; 8] = [67, 79, 79, 75, 73, 69, 45, 45];

/// The nonce prefix `"CurveZMQINITIATE"`.
pub const CURVE_INITIATE_NONCE_PREFIX: [u8; 16] = [
    67, 117, 114, 118, 101, 90, 77, 81, 73, 78, 73, 84, 73, 65, 84, 69,
];

/// The nonce prefix `"VOUCH---"`.
pub const CURVE_VOUCH_NONCE_PREFIX: [u8; 8] = [86, 79, 85, 67, 72, 45, 45, 45];

/// The nonce prefix `"CurveZMQREADY---"`.
pub const CURVE_READY_NONCE_PREFIX: [u8; 16] = [
    67, 117, 114, 118, 101, 90, 77, 81, 82, 69, 65, 68, 89, 45, 45, 45,
];

/// The nonce prefix `"CurveZMQMESSAGEC"` of messages from the client.
pub const CURVE_CLIENT_MESSAGE_PREFIX: [u8; 16] = [
    67, 117, 114, 118, 101, 90, 77, 81, 77, 69, 83, 83, 65, 71, 69, 67,
];

/// The nonce prefix `"CurveZMQMESSAGES"` of messages from the server.
pub const CURVE_SERVER_MESSAGE_PREFIX: [u8; 16] = [
    67, 117, 114, 118, 101, 90, 77, 81, 77, 69, 83, 83, 65, 71, 69, 83,
];

/// A run of zero bytes.
pub open spec fn zeros(len: nat) -> Seq<u8> {
    Seq::new(len, |i: int| 0u8)
}

/// The part of a 24-byte CURVE nonce that the cipher uses: its last 12 bytes, which hold
/// the counter or the random suffix.
pub open spec fn aead_nonce(nonce: Seq<u8>) -> Seq<u8> {
    nonce.subrange(12, 24)
}

/// `ciphertext` is `plaintext` boxed under `key` and the 24-byte `nonce`.
pub open spec fn boxed(
    key: Seq<u8>,
    nonce: Seq<u8>,
    plaintext: Seq<u8>,
    ciphertext: Seq<u8>,
) -> bool {
    sealed(key, aead_nonce(nonce), plaintext, ciphertext)
}

/// What a box holds, if it opens under `key` and the 24-byte `nonce`.
pub open spec fn unboxed(key: Seq<u8>, nonce: Seq<u8>, ciphertext: Seq<u8>) -> Option<Seq<u8>> {
    aead_open(key, aead_nonce(nonce), ciphertext)
}

/// The number that bytes spell in big-endian order.
pub open spec fn be_value(bytes: Seq<u8>) -> nat
    decreases bytes.len(),
{
    if bytes.len() == 0 {
        0
    } else {
        be_value(bytes.drop_last()) * 256 + bytes.last() as nat
    }
}

/// How many numbers can be spelled with this many bytes.
pub open spec fn byte_span(len: nat) -> nat
    decreases len,
{
    if len == 0 {
        1
    } else {
        byte_span((len - 1) as nat) * 256
    }
}

/// Bytes spell a number below their span.
proof fn lemma_be_value_bounded(bytes: Seq<u8>)
    ensures
        be_value(bytes) < byte_span(bytes.len()),
    decreases bytes.len(),
{
    if bytes.len() > 0 {
        lemma_be_value_bounded(bytes.drop_last());
    }
}

/// Spells a number in big-endian order, in `len` bytes.
fn spell(number: u64, len: usize) -> (bytes: Vec<u8>)
    requires
        number < byte_span(len as nat),
    ensures
        bytes@.len() == len,
        be_value(bytes@) == number,
    decreases len,
{
    if len == 0 {
        return Vec::new();
    }
    let mut bytes = spell(number / 256, len - 1);
    let ghost leading = bytes@;
    bytes.push((number % 256) as u8);
    assert(bytes@.drop_last() =~= leading);
    bytes
}

/// The 8 bytes that spell a counter in big-endian order
pub fn counter_to_bytes(number: u64) -> (bytes: [u8; 8])
    ensures
        be_value(bytes@) == number,
        number == bytes@[0] * 0x100_0000_0000_0000 + bytes@[1] * 0x1_0000_0000_0000 + bytes@[2]
            * 0x100_0000_0000 + bytes@[3] * 0x1_0000_0000 + bytes@[4] * 0x100_0000 + bytes@[5]
            * 0x1_0000 + bytes@[6] * 0x100 + bytes@[7],
{
    proof {
        reveal_with_fuel(byte_span, 9);
    }
    let bytes = to_array::<8>(&spell(number, 8));
    proof {
        law_counters_are_big_endian(bytes@);
    }
    bytes
}

/// The counter that 8 bytes spell in big-endian order
pub fn counter_from_bytes(bytes: [u8; 8]) -> (number: u64)
    ensures
        number == be_value(bytes@),
        number == bytes@[0] * 0x100_0000_0000_0000 + bytes@[1] * 0x1_0000_0000_0000 + bytes@[2]
            * 0x100_0000_0000 + bytes@[3] * 0x1_0000_0000 + bytes@[4] * 0x100_0000 + bytes@[5]
            * 0x1_0000 + bytes@[6] * 0x100 + bytes@[7],
{
    proof {
        law_counters_are_big_endian(bytes@);
    }
    let mut number: u64 = 0;
    let mut i: usize = 0;
    assert(bytes@.take(0) =~= Seq::<u8>::empty());
    while i < 8
        invariant
            i <= 8,
            number == be_value(bytes@.take(i as int)),
        decreases 8 - i,
    {
        proof {
            assert(bytes@.take(i + 1).drop_last() =~= bytes@.take(i as int));
            lemma_be_value_bounded(bytes@.take(i + 1));
            assert(byte_span((i + 1) as nat) <= 0x1_0000_0000_0000_0000) by {
                reveal_with_fuel(byte_span, 9);
            }
        }
        number = number * 256 + bytes[i] as u64;
        i += 1;
    }
    assert(bytes@.take(8) =~= bytes@);
    number
}

/// Whether two slices hold the same bytes.
pub fn same_bytes(left: &[u8], right: &[u8]) -> (same: bool)
    ensures
        same == (left@ == right@),
{
    if left.len() != right.len() {
        return false;
    }
    let mut i: usize = 0;
    while i < left.len()
        invariant
            i <= left@.len(),
            left@.len() == right@.len(),
            forall|j: int| 0 <= j < i ==> left@[j] == right@[j],
        decreases left@.len() - i,
    {
        if left[i] != right[i] {
            return false;
        }
        i += 1;
    }
    assert(left@ =~= right@);
    true
}

/// Whether a slice holds nothing but zero bytes.
pub fn all_zero(bytes: &[u8]) -> (zero: bool)
    ensures
        zero == (bytes@ == zeros(bytes@.len())),
{
    let mut i: usize = 0;
    while i < bytes.len()
        invariant
            i <= bytes@.len(),
            forall|j: int| 0 <= j < i ==> bytes@[j] == 0,
        decreases bytes@.len() - i,
    {
        if bytes[i] != 0 {
            assert(bytes@[i as int] != zeros(bytes@.len())[i as int]);
            return false;
        }
        i += 1;
    }
    assert(bytes@ =~= zeros(bytes@.len()));
    true
}

/// Copies a slice into an array of its length.
pub fn to_array<const N: usize>(bytes: &[u8]) -> (array: [u8; N])
    requires
        bytes@.len() == N,
    ensures
        array@ == bytes@,
{
    let mut array = [0u8; N];
    let mut i: usize = 0;
    while i < N
        invariant
            i <= N,
            bytes@.len() == N,
            forall|j: int| 0 <= j < i ==> array@[j] == bytes@[j],
        decreases N - i,
    {
        array[i] = bytes[i];
        i += 1;
    }
    assert(array@ =~= bytes@);
    array
}

/// Joins a nonce prefix and a suffix to a full nonce.
pub fn full_nonce(prefix: &[u8], suffix: &[u8]) -> (nonce: [u8; CURVE_NONCE_SIZE])
    requires
        prefix@.len() + suffix@.len() == CURVE_NONCE_SIZE,
    ensures
        nonce@ == prefix@ + suffix@,
{
    let mut nonce = [0u8; CURVE_NONCE_SIZE];
    let mut i: usize = 0;
    while i < CURVE_NONCE_SIZE
        invariant
            i <= CURVE_NONCE_SIZE,
            prefix@.len() + suffix@.len() == CURVE_NONCE_SIZE,
            forall|j: int| 0 <= j < i ==> nonce@[j] == (prefix@ + suffix@)[j],
        decreases CURVE_NONCE_SIZE - i,
    {
        if i < prefix.len() {
            nonce[i] = prefix[i];
        } else {
            nonce[i] = suffix[i - prefix.len()];
        }
        i += 1;
    }
    assert(nonce@ =~= prefix@ + suffix@);
    nonce
}

/// This suffix was drawn for a nonce with this prefix: it comes from `random_nonce` with the
/// prefix, and was not taken over from a nonce with another one.
pub closed spec fn drawn_suffix(prefix: Seq<u8>, suffix: Seq<u8>) -> bool {
    &&& prefix.len() + suffix.len() == CURVE_NONCE_SIZE
    &&& drawn_bytes(suffix)
}

/// A suffix that was drawn for a prefix was drawn, and fills the nonce.
pub proof fn law_drawn_suffixes_are_drawn(prefix: Seq<u8>, suffix: Seq<u8>)
    requires
        drawn_suffix(prefix, suffix),
    ensures
        drawn_bytes(suffix),
        prefix.len() + suffix.len() == 24,
{
}

/// Draws a random suffix and joins it to a nonce prefix.
pub fn random_nonce<const N: usize>(prefix: &[u8]) -> (result: ([u8; N], [u8; CURVE_NONCE_SIZE]))
    requires
        prefix@.len() + N == CURVE_NONCE_SIZE,
    ensures
        result.1@ == prefix@ + result.0@,
        drawn_bytes(result.0@),
        drawn_suffix(prefix@, result.0@),
{
    let suffix: [u8; N] = random_bytes::<N>();
    let nonce = full_nonce(prefix, &suffix);
    (suffix, nonce)
}

} // verus!
