//! Specifications of the byte containers of the `bytes` crate.
//!
//! A `Bytes` or a `BytesMut` is modelled by the sequence of bytes it holds. The declared
//! types, the two names and the `assume_specification` items are trusted: they state what
//! the `bytes` crate does. The spec functions with a body are definitions, and
//! `copy_message` is verified.

use bytes::{Bytes, BytesMut};
use std::ops::Deref;
use vstd::prelude::*;

verus! {

/// The shared byte buffer `bytes::Bytes`.
#[verifier::external_type_specification]
#[verifier::external_body]
pub struct ExBytes(Bytes);

/// The growable byte buffer `bytes::BytesMut`.
#[verifier::external_type_specification]
#[verifier::external_body]
pub struct ExBytesMut(BytesMut);

/// The bytes that a `Bytes` holds.
pub uninterp spec fn bytes_content(buffer: Bytes) -> Seq<u8>;

/// The bytes that a `BytesMut` holds.
pub uninterp spec fn bytes_mut_content(buffer: BytesMut) -> Seq<u8>;

/// `BytesMut::new` makes an empty buffer.
pub assume_specification[ BytesMut::new ]() -> (buffer: BytesMut)
    ensures
        bytes_mut_content(buffer) == Seq::<u8>::empty(),
;

/// `BytesMut::extend_from_slice` appends the slice.
///
/// The buffer grows as a `Vec` does, possibly to twice its capacity, and a capacity
/// beyond `isize::MAX` makes it panic; hence the bound on the length.
pub assume_specification[ BytesMut::extend_from_slice ](buffer: &mut BytesMut, extend: &[u8])
    requires
        2 * (bytes_mut_content(*old(buffer)).len() + extend@.len()) <= isize::MAX,
    ensures
        bytes_mut_content(*final(buffer)) == bytes_mut_content(*old(buffer)) + extend@,
;

/// `BytesMut::len` counts the bytes.
pub assume_specification[ BytesMut::len ](buffer: &BytesMut) -> (len: usize)
    ensures
        len == bytes_mut_content(*buffer).len(),
;

/// `BytesMut::freeze` keeps the contents.
pub assume_specification[ BytesMut::freeze ](buffer: BytesMut) -> (frozen: Bytes)
    ensures
        bytes_content(frozen) == bytes_mut_content(buffer),
;

/// `BytesMut::deref` views the contents as a slice.
pub assume_specification[ <BytesMut as Deref>::deref ](buffer: &BytesMut) -> (slice: &[u8])
    ensures
        slice@ == bytes_mut_content(*buffer),
;

/// `Bytes::deref` views the contents as a slice.
pub assume_specification[ <Bytes as Deref>::deref ](buffer: &Bytes) -> (slice: &[u8])
    ensures
        slice@ == bytes_content(*buffer),
;

/// `Bytes::from` takes over the contents of a vector.
pub assume_specification[ <Bytes as From<Vec<u8>>>::from ](vec: Vec<u8>) -> (buffer: Bytes)
    ensures
        bytes_content(buffer) == vec@,
;

/// `Bytes::copy_from_slice` holds a copy of the slice.
pub assume_specification[ Bytes::copy_from_slice ](data: &[u8]) -> (buffer: Bytes)
    ensures
        bytes_content(buffer) == data@,
;

/// `Bytes::clone` makes a second handle on the same contents.
pub assume_specification[ <Bytes as Clone>::clone ](buffer: &Bytes) -> (copy: Bytes)
    ensures
        bytes_content(copy) == bytes_content(*buffer),
;

/// The contents of each frame of a multipart message.
pub open spec fn message_content(frames: Seq<Bytes>) -> Seq<Seq<u8>> {
    frames.map_values(|frame: Bytes| bytes_content(frame))
}

/// The contents of a staged message, if there is one.
pub open spec fn staged_content(message: Option<Vec<Bytes>>) -> Option<Seq<Seq<u8>>> {
    match message {
        Some(frames) => Some(message_content(frames@)),
        None => None,
    }
}

/// Copies a multipart message: same frames, same order, same contents.
pub fn copy_message(message: &Vec<Bytes>) -> (copy: Vec<Bytes>)
    ensures
        message_content(copy@) == message_content(message@),
{
    let copy: Vec<Bytes> = message.clone();
    proof {
        assert(message_content(copy@) =~= message_content(message@));
    }
    copy
}

} // verus!
