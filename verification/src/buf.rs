//! The byte buffer of the `bytes` crate, as the verified code sees it.
//!
//! Nothing in this file is proved: each item states what the `bytes` crate
//! does, and the rest of the library is verified against these statements.

use bytes::Bytes;
use vstd::prelude::*;

verus! {

/// `bytes::Bytes`, taken as a whole: of a value of it the verified code
/// knows what `bytes_view` and the items below say, and nothing else.
#[verifier::external_type_specification]
#[verifier::external_body]
pub struct ExBytes(Bytes);

/// The bytes that a `Bytes` buffer holds, in order.
pub uninterp spec fn bytes_view(b: Bytes) -> Seq<u8>;

/// `Bytes::new` creates a buffer that holds no bytes.
pub assume_specification[ Bytes::new ]() -> (b: Bytes)
    ensures
        bytes_view(b) == Seq::<u8>::empty(),
;

/// `Bytes::len` returns the number of bytes that the buffer holds.
pub assume_specification[ Bytes::len ](b: &Bytes) -> (n: usize)
    ensures
        n == bytes_view(*b).len(),
;

/// `Bytes::is_empty` tells whether the buffer holds no bytes.
pub assume_specification[ Bytes::is_empty ](b: &Bytes) -> (e: bool)
    ensures
        e == (bytes_view(*b).len() == 0),
;

/// `Bytes::clone` hands out a second handle on the same bytes.
pub assume_specification[ <Bytes as Clone>::clone ](b: &Bytes) -> (c: Bytes)
    ensures
        bytes_view(c) == bytes_view(*b),
;

/// `Bytes::from(Vec<u8>)` takes the vector over: the buffer holds the
/// vector's bytes in the same order.
#[verifier::external_body]
pub(crate) fn bytes_from_vec(v: Vec<u8>) -> (b: Bytes)
    ensures
        bytes_view(b) == v@,
{
    Bytes::from(v)
}

/// `AsRef<[u8]>::as_ref` on a `Bytes` lends the bytes it holds, in order.
#[verifier::external_body]
pub(crate) fn bytes_as_slice(b: &Bytes) -> (s: &[u8])
    ensures
        s@ == bytes_view(*b),
{
    b.as_ref()
}

} // verus!
