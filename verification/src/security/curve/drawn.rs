//! Where random bytes come from.
//!
//! Any bytes can come out of a random generator, so of the bytes alone there is nothing to
//! say. The two predicates below therefore hold of all bytes. They are closed, and nothing
//! here shows them: outside this file the only way to know that bytes were drawn is to have
//! them from a function that draws them.

use vstd::prelude::*;

verus! {

/// These are the bytes of a secret key that the operating system's generator drew.
pub closed spec fn drawn_secret(bytes: Seq<u8>) -> bool {
    true
}

/// These bytes, all of them and in this order, are one draw from the thread's generator.
pub closed spec fn drawn_bytes(bytes: Seq<u8>) -> bool {
    true
}

} // verus!
