//! What one poll can answer, of a payload stream or of a part, and how a
//! payload that arrives late becomes a chunk.

use crate::buf::bytes_view;
use crate::chunk::Chunk;
use bytes::Bytes;
use vstd::prelude::*;

verus! {

/// `anyhow::Error`, taken as a whole: the verified code hands such errors on
/// and never looks inside.
#[verifier::external_type_specification]
#[verifier::external_body]
pub struct ExError(anyhow::Error);

/// The answer to one poll, of a payload stream or of a part.
#[derive(Debug)]
pub enum Pull {
    /// The next chunk.
    Item(Chunk),
    /// There is nothing more to come.
    End,
    /// Nothing yet: ask again later.
    NotReady,
    /// The payload stream failed.
    Failed(anyhow::Error),
}

/// An answer as plain values: a chunk is its bytes.
pub enum PullView {
    Item(Seq<u8>),
    End,
    NotReady,
    Failed(anyhow::Error),
}

impl View for Pull {
    type V = PullView;

    open spec fn view(&self) -> PullView {
        match *self {
            Pull::Item(c) => PullView::Item(c@),
            Pull::End => PullView::End,
            Pull::NotReady => PullView::NotReady,
            Pull::Failed(e) => PullView::Failed(e),
        }
    }
}

/// Whether an answer can come out of a payload stream: it hands out no chunk
/// without bytes.
pub open spec fn filtered(answer: PullView) -> bool {
    answer matches PullView::Item(bytes) ==> bytes.len() > 0
}

/// Makes a chunk of what a payload future resolved to; a payload that no
/// chunk can frame becomes the failure of the stream.
pub fn chunk_of_bytes(data: Bytes) -> (r: Result<Chunk, anyhow::Error>)
    ensures
        bytes_view(data).len() <= crate::chunk::MAX_CHUNK_LEN ==> r is Ok && r->Ok_0@
            == bytes_view(data),
        bytes_view(data).len() > crate::chunk::MAX_CHUNK_LEN ==> r is Err,
{
    match Chunk::new(data) {
        Ok(chunk) => Ok(chunk),
        Err(e) => Err(failure(e.message())),
    }
}

/// `anyhow::Error::msg` makes an error that displays as `message`.
#[verifier::external_body]
fn failure(message: String) -> anyhow::Error {
    anyhow::Error::msg(message)
}

} // verus!
