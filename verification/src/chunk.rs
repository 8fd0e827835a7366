//! A chunk: the unit that goes on the wire.

use crate::buf::{bytes_from_vec, bytes_view};
use bytes::Bytes;
use vstd::prelude::*;

verus! {

/// The longest payload that one chunk can frame: its length is written as a
/// signed 32-bit number.
pub const MAX_CHUNK_LEN: usize = 0x7fff_ffff;

/// A payload that cannot be framed as a chunk.
#[derive(Debug, Clone, Copy, PartialEq, Eq, Structural)]
pub enum EncodingError {
    /// The payload is longer than `MAX_CHUNK_LEN`; `len` is its length.
    TooLarge { len: usize },
}

impl EncodingError {
    /// What went wrong, in words.
    pub fn message(&self) -> (m: String)
        ensures
            m@ == "chunk too large"@,
    {
        "chunk too large".to_owned()
    }
}

/// An immutable byte buffer. The chunk of length zero marks the end of a part.
#[derive(Debug, PartialEq, Eq)]
pub struct Chunk {
    data: Bytes,
}

impl View for Chunk {
    type V = Seq<u8>;

    closed spec fn view(&self) -> Seq<u8> {
        bytes_view(self.data)
    }
}

impl Clone for Chunk {
    fn clone(&self) -> (c: Chunk)
        ensures
            c@ == self@,
    {
        Chunk { data: self.data.clone() }
    }
}

impl Chunk {
    /// Frames `data` as a chunk, unless it is too long.
    pub fn new(data: Bytes) -> (r: Result<Chunk, EncodingError>)
        ensures
            bytes_view(data).len() <= MAX_CHUNK_LEN ==> r is Ok && r->Ok_0@ == bytes_view(data),
            bytes_view(data).len() > MAX_CHUNK_LEN ==> r == Err::<Chunk, EncodingError>(
                EncodingError::TooLarge { len: bytes_view(data).len() as usize },
            ),
    {
        let len = data.len();
        if len > MAX_CHUNK_LEN {
            Err(EncodingError::TooLarge { len })
        } else {
            Ok(Chunk { data })
        }
    }

    /// The chunk that holds `data`. A chunk made this way may be longer than
    /// one frame can say.
    pub(crate) fn from_vec(data: Vec<u8>) -> (c: Chunk)
        ensures
            c@ == data@,
    {
        Chunk { data: bytes_from_vec(data) }
    }

    /// The chunk that marks the end of a part.
    pub fn empty() -> (c: Chunk)
        ensures
            c@ == Seq::<u8>::empty(),
            c.is_terminator(),
    {
        Chunk { data: Bytes::new() }
    }

    /// Whether a chunk with these contents marks the end of a part.
    pub open spec fn is_terminator(&self) -> bool {
        self@.len() == 0
    }

    /// Whether this chunk marks the end of a part.
    pub fn is_empty(&self) -> (e: bool)
        ensures
            e == self.is_terminator(),
    {
        self.data.is_empty()
    }

    /// The number of payload bytes.
    pub fn len(&self) -> (n: usize)
        ensures
            n == self@.len(),
    {
        self.data.len()
    }

    /// The payload.
    pub fn into_bytes(self) -> (b: Bytes)
        ensures
            bytes_view(b) == self@,
    {
        self.data
    }
}

} // verus!
