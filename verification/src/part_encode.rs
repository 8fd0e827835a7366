//! Encoding of one part: a builder that collects the header and the payload,
//! and the encoder that hands out the part chunk by chunk.

use crate::buf::bytes_view;
use crate::chunk::{Chunk, EncodingError, MAX_CHUNK_LEN};
use crate::generation::{answer_of, step, PayloadView, StateView};
use crate::part_header::{
    has_key, ConfigError, PartHeader, PartHeaderBuilder, PartHeaderType, PartId,
};
use crate::stream::{chunk_of_bytes, filtered, Pull};
use bytes::Bytes;
use futures::{Future, Stream};
use vstd::prelude::*;

verus! {

/// A stream of chunks produced while the part is sent, without the chunks
/// that hold no bytes.
///
/// The stream is the caller's code, boxed. Verus cannot look at a boxed
/// stream, so it sees this type as a whole and nothing of what is inside.
#[verifier::external_body]
pub struct ChunkStream(Box<dyn Stream<Item = Chunk, Error = anyhow::Error> + Send>);

impl ChunkStream {
    /// `Stream::poll` on the boxed stream: the answer is the stream's own.
    /// Every `ChunkStream` is made by `Stream::filter`, which lets no chunk
    /// without bytes through. A stream that has reported its end must not
    /// be polled again, so it is not handed back.
    #[verifier::external_body]
    fn poll(self) -> (r: (Pull, Option<ChunkStream>))
        ensures
            filtered(r.0@),
            r.0@ is End <==> r.1 is None,
    {
        let mut stream = self;
        match stream.0.poll() {
            Ok(futures::Async::Ready(Some(chunk))) => (Pull::Item(chunk), Some(stream)),
            Ok(futures::Async::Ready(None)) => (Pull::End, None),
            Ok(futures::Async::NotReady) => (Pull::NotReady, Some(stream)),
            Err(e) => (Pull::Failed(e), Some(stream)),
        }
    }
}

/// The payload of a part.
pub enum PartEncodeData {
    /// No payload.
    Empty,
    /// One chunk.
    Fixed(Chunk),
    /// The chunks of a stream, as they come.
    Generated(ChunkStream),
}

impl View for PartEncodeData {
    type V = PayloadView;

    open spec fn view(&self) -> PayloadView {
        match *self {
            PartEncodeData::Empty => PayloadView::Empty,
            PartEncodeData::Fixed(chunk) => PayloadView::Fixed(chunk@),
            PartEncodeData::Generated(_) => PayloadView::Generated,
        }
    }
}

/// Collects what one part is made of: the header but for the part id, and the
/// payload.
pub struct PartEncodeBuilder {
    headerb: PartHeaderBuilder,
    data: PartEncodeData,
}

impl PartEncodeBuilder {
    /// The header collected so far.
    pub closed spec fn headerb(&self) -> PartHeaderBuilder {
        self.headerb
    }

    /// The payload chosen last, or none.
    pub closed spec fn payload(&self) -> PayloadView {
        self.data@
    }

    /// No key was added twice to the parameters of one kind.
    pub open spec fn wf(&self) -> bool {
        self.headerb().wf()
    }

    /// A builder that holds the type of the part and nothing else.
    pub open spec fn is_new(&self, part_type: PartHeaderType, mandatory: bool) -> bool {
        &&& self.wf()
        &&& self.headerb().part_type() == part_type
        &&& self.headerb().mandatory() == mandatory
        &&& self.headerb().mparams() == Seq::<(Seq<char>, Seq<u8>)>::empty()
        &&& self.headerb().aparams() == Seq::<(Seq<char>, Seq<u8>)>::empty()
        &&& self.payload() == PayloadView::Empty
    }

    /// Starts a part that a receiver must understand.
    pub fn mandatory(part_type: PartHeaderType) -> (r: Result<Self, ConfigError>)
        ensures
            r is Ok,
            r->Ok_0.is_new(part_type, true),
    {
        match PartHeaderBuilder::new(part_type, true) {
            Ok(headerb) => Ok(PartEncodeBuilder { headerb, data: PartEncodeData::Empty }),
            Err(e) => Err(e),
        }
    }

    /// Starts a part that a receiver may skip.
    pub fn advisory(part_type: PartHeaderType) -> (r: Result<Self, ConfigError>)
        ensures
            r is Ok,
            r->Ok_0.is_new(part_type, false),
    {
        match PartHeaderBuilder::new(part_type, false) {
            Ok(headerb) => Ok(PartEncodeBuilder { headerb, data: PartEncodeData::Empty }),
            Err(e) => Err(e),
        }
    }

    /// Adds a mandatory parameter. A key that is already among the mandatory
    /// parameters is refused, and the builder stays as it was.
    pub fn add_mparam(&mut self, key: String, val: Bytes) -> (r: Result<&mut Self, ConfigError>)
        requires
            old(self).wf(),
        ensures
            has_key(old(self).headerb().mparams(), key@) ==> r is Err && r->Err_0
                == ConfigError::DuplicateMandatoryParam && *final(self) == *old(self),
            !has_key(old(self).headerb().mparams(), key@) ==> r is Ok && *final(self) == *final(r->Ok_0)
                && {
                let b = *r->Ok_0;
                &&& b.wf()
                &&& b.payload() == old(self).payload()
                &&& b.headerb().part_type() == old(self).headerb().part_type()
                &&& b.headerb().mandatory() == old(self).headerb().mandatory()
                &&& b.headerb().mparams() == old(self).headerb().mparams().push(
                    (key@, bytes_view(val)),
                )
                &&& b.headerb().aparams() == old(self).headerb().aparams()
            },
    {
        match self.headerb.add_mparam(key, val) {
            Ok(_) => Ok(self),
            Err(e) => Err(e),
        }
    }

    /// Adds an advisory parameter. A key that is already among the advisory
    /// parameters is refused, and the builder stays as it was.
    pub fn add_aparam(&mut self, key: String, val: Bytes) -> (r: Result<&mut Self, ConfigError>)
        requires
            old(self).wf(),
        ensures
            has_key(old(self).headerb().aparams(), key@) ==> r is Err && r->Err_0
                == ConfigError::DuplicateAdvisoryParam && *final(self) == *old(self),
            !has_key(old(self).headerb().aparams(), key@) ==> r is Ok && *final(self) == *final(r->Ok_0)
                && {
                let b = *r->Ok_0;
                &&& b.wf()
                &&& b.payload() == old(self).payload()
                &&& b.headerb().part_type() == old(self).headerb().part_type()
                &&& b.headerb().mandatory() == old(self).headerb().mandatory()
                &&& b.headerb().aparams() == old(self).headerb().aparams().push(
                    (key@, bytes_view(val)),
                )
                &&& b.headerb().mparams() == old(self).headerb().mparams()
            },
    {
        match self.headerb.add_aparam(key, val) {
            Ok(_) => Ok(self),
            Err(e) => Err(e),
        }
    }

    /// Makes `data` the payload, in place of any payload chosen before.
    pub fn set_data_fixed(&mut self, data: Chunk) -> (r: &mut Self)
        ensures
            *final(self) == *final(r),
            r.headerb() == old(self).headerb(),
            r.payload() == PayloadView::Fixed(data@),
    {
        self.data = PartEncodeData::Fixed(data);
        self
    }

    /// Makes `data` the payload, in place of any payload chosen before,
    /// unless it is too long for one chunk: then the builder stays as it was.
    pub fn set_data_bytes(&mut self, data: Bytes) -> (r: Result<&mut Self, EncodingError>)
        ensures
            bytes_view(data).len() > MAX_CHUNK_LEN ==> r is Err && r->Err_0
                == (EncodingError::TooLarge { len: bytes_view(data).len() as usize })
                && *final(self) == *old(self),
            bytes_view(data).len() <= MAX_CHUNK_LEN ==> r is Ok && *final(self) == *final(r->Ok_0)
                && r->Ok_0.headerb() == old(self).headerb() && r->Ok_0.payload()
                == PayloadView::Fixed(bytes_view(data)),
    {
        match Chunk::new(data) {
            Ok(chunk) => {
                self.data = PartEncodeData::Fixed(chunk);
                Ok(self)
            },
            Err(e) => Err(e),
        }
    }

    /// Makes what `future` resolves to the payload, in place of any payload
    /// chosen before: one chunk, no chunk if it resolves to no bytes, or
    /// the failure of the future.
    ///
    /// Not proved. `Future::and_then` hands what the future resolved to,
    /// turned into `Bytes`, to `chunk_of_bytes`; `Future::into_stream` makes
    /// of the outcome a stream of at most one item; `Stream::filter` keeps
    /// the chunks that hold bytes, and `Stream::boxed` boxes the result.
    #[verifier::external_body]
    #[allow(deprecated)]
    pub fn set_data_future<T>(&mut self, future: T) -> (r: &mut Self) where
        T: Future<Error = anyhow::Error> + Send + 'static,
        T::Item: Into<Bytes>,

        ensures
            *final(self) == *final(r),
            r.headerb() == old(self).headerb(),
            r.payload() == PayloadView::Generated,
    {
        let stream = future.and_then(|data| chunk_of_bytes(data.into())).into_stream();
        let stream = stream.filter(|chunk| !chunk.is_empty()).boxed();
        self.data = PartEncodeData::Generated(ChunkStream(stream));
        self
    }

    /// Makes the chunks of `stream` the payload, in place of any payload
    /// chosen before. The chunks without bytes are left out of it.
    ///
    /// Not proved. `Stream::filter` keeps the items for which the closure
    /// answers `true`, here the chunks that hold bytes, and `Stream::boxed`
    /// boxes the result.
    #[verifier::external_body]
    #[allow(deprecated)]
    pub fn set_data_generated<S>(&mut self, stream: S) -> (r: &mut Self) where
        S: 'static + Stream<Item = Chunk, Error = anyhow::Error> + Send,

        ensures
            *final(self) == *final(r),
            r.headerb() == old(self).headerb(),
            r.payload() == PayloadView::Generated,
    {
        let stream = stream.filter(|chunk| !chunk.is_empty()).boxed();
        self.data = PartEncodeData::Generated(ChunkStream(stream));
        self
    }

    /// Finishes the part: the header gets its id, and the encoder starts
    /// with nothing sent.
    pub fn build(self, part_id: PartId) -> (part: PartEncode)
        requires
            self.wf(),
        ensures
            part.wf(),
            part.state() == StateView::NotStarted(self.headerb().header(part_id), self.payload()),
    {
        PartEncode { state: GenerationState::NotStarted(self.headerb.build(part_id), self.data) }
    }
}

/// Where the generation of a part stands, with what is still to be sent.
enum GenerationState {
    NotStarted(PartHeader, PartEncodeData),
    Fixed(Chunk),
    Generating(ChunkStream),
    EmptyChunk,
    Done,
    Invalid,
}

impl View for GenerationState {
    type V = StateView;

    closed spec fn view(&self) -> StateView {
        match *self {
            GenerationState::NotStarted(header, data) => StateView::NotStarted(header@, data@),
            GenerationState::Fixed(chunk) => StateView::Fixed(chunk@),
            GenerationState::Generating(_) => StateView::Generating,
            GenerationState::EmptyChunk => StateView::EmptyChunk,
            GenerationState::Done => StateView::Done,
            GenerationState::Invalid => StateView::Invalid,
        }
    }
}

impl GenerationState {
    /// Takes the state out and leaves `Invalid` in its place.
    fn take(&mut self) -> (taken: Self)
        ensures
            taken == *old(self),
            *final(self) == GenerationState::Invalid,
    {
        let mut taken = GenerationState::Invalid;
        std::mem::swap(self, &mut taken);
        taken
    }
}

/// The encoder of one part: a sequence of chunks that is handed out once,
/// poll by poll.
pub struct PartEncode {
    state: GenerationState,
}

impl PartEncode {
    /// Where the generation stands.
    pub closed spec fn state(&self) -> StateView {
        self.state@
    }

    /// Between two polls the state is never the one that stands in during a
    /// transition.
    pub open spec fn wf(&self) -> bool {
        !(self.state() is Invalid)
    }

    /// What a generating part answers when its payload stream answered
    /// `answer`: a chunk, a failure and "not ready" are handed on, and the
    /// end of the stream becomes the chunk that ends the part.
    pub fn relay(answer: Pull) -> (output: Pull)
        ensures
            output@ == step(StateView::Generating, answer@).0,
    {
        match answer {
            Pull::Item(chunk) => Pull::Item(chunk),
            Pull::End => Pull::Item(Chunk::empty()),
            Pull::NotReady => Pull::NotReady,
            Pull::Failed(e) => Pull::Failed(e),
        }
    }

    /// One transition: the answer to a poll in `state`, and the next state.
    /// A part has three sections: the header in one chunk, the payload in
    /// any number of chunks, and the empty chunk that ends it. `Invalid` is
    /// no state to be polled in: it is found only where an earlier poll did
    /// not come back.
    fn poll_next(state: GenerationState) -> (r: (Pull, GenerationState))
        requires
            !(state@ is Invalid),
        ensures
            (r.0@, r.1@) == step(state@, answer_of(r.0@)),
            !(r.1@ is Invalid),
    {
        match state {
            GenerationState::NotStarted(header, data) => {
                let header_chunk = header.encode();
                let next_state = match data {
                    PartEncodeData::Fixed(chunk) => GenerationState::Fixed(chunk),
                    PartEncodeData::Empty => GenerationState::EmptyChunk,
                    PartEncodeData::Generated(stream) => GenerationState::Generating(stream),
                };
                (Pull::Item(header_chunk), next_state)
            },
            GenerationState::Generating(stream) => {
                let (answer, stream) = stream.poll();
                let output = Self::relay(answer);
                match stream {
                    Some(stream) => (output, GenerationState::Generating(stream)),
                    None => (output, GenerationState::Done),
                }
            },
            GenerationState::Fixed(chunk) => (Pull::Item(chunk), GenerationState::EmptyChunk),
            GenerationState::EmptyChunk => (Pull::Item(Chunk::empty()), GenerationState::Done),
            GenerationState::Done => (Pull::End, GenerationState::Done),
            GenerationState::Invalid => unreached(),
        }
    }

    /// Hands out the next chunk of the part, or says why there is none.
    /// While the payload is generated the answer is that of the payload
    /// stream, which `answer_of` reads back from what came out.
    pub fn poll(&mut self) -> (r: Pull)
        requires
            old(self).wf(),
        ensures
            final(self).wf(),
            (r@, final(self).state()) == step(old(self).state(), answer_of(r@)),
    {
        let (ret, next_state) = Self::poll_next(self.state.take());
        self.state = next_state;
        ret
    }
}

} // verus!
