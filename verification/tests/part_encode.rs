use bundle_parts::chunk::Chunk;
use bundle_parts::part_encode::{PartEncode, PartEncodeBuilder};
use bundle_parts::part_header::{PartHeaderBuilder, PartHeaderType};
use bundle_parts::stream::Pull;
use bytes::Bytes;
use futures::{Async, Poll, Stream};
use std::collections::VecDeque;

fn chunk(bytes: &[u8]) -> Chunk {
    Chunk::new(Bytes::copy_from_slice(bytes)).unwrap()
}

fn header_chunk(part_type: PartHeaderType, mandatory: bool, part_id: u32) -> Vec<u8> {
    let header = PartHeaderBuilder::new(part_type, mandatory).unwrap().build(part_id);
    header.encode().into_bytes().to_vec()
}

/// What one poll answered, in a form that can be compared.
#[derive(Debug, PartialEq)]
enum Seen {
    Item(Vec<u8>),
    End,
    NotReady,
    Failed(String),
}

fn see(pull: Pull) -> Seen {
    match pull {
        Pull::Item(c) => Seen::Item(c.into_bytes().to_vec()),
        Pull::End => Seen::End,
        Pull::NotReady => Seen::NotReady,
        Pull::Failed(e) => Seen::Failed(e.to_string()),
    }
}

fn polls(part: &mut PartEncode, n: usize) -> Vec<Seen> {
    (0..n).map(|_| see(part.poll())).collect()
}

/// A stream that answers what it was told to, one answer for each poll.
struct Scripted {
    answers: VecDeque<Poll<Option<Chunk>, anyhow::Error>>,
    polled: std::sync::Arc<std::sync::atomic::AtomicUsize>,
}

impl Stream for Scripted {
    type Item = Chunk;
    type Error = anyhow::Error;

    fn poll(&mut self) -> Poll<Option<Chunk>, anyhow::Error> {
        self.polled.fetch_add(1, std::sync::atomic::Ordering::SeqCst);
        self.answers.pop_front().unwrap_or(Ok(Async::Ready(None)))
    }
}

fn scripted(answers: Vec<Poll<Option<Chunk>, anyhow::Error>>) -> Scripted {
    Scripted { answers: answers.into(), polled: Default::default() }
}

#[test]
fn no_payload_yields_header_then_terminator() {
    let builder = PartEncodeBuilder::mandatory(PartHeaderType::Changegroup).unwrap();
    let mut part = builder.build(7);
    assert_eq!(
        polls(&mut part, 3),
        vec![
            Seen::Item(header_chunk(PartHeaderType::Changegroup, true, 7)),
            Seen::Item(vec![]),
            Seen::End,
        ]
    );
}

#[test]
fn fixed_payload_yields_header_payload_terminator() {
    let mut builder = PartEncodeBuilder::advisory(PartHeaderType::Listkeys).unwrap();
    builder.set_data_bytes(Bytes::from(vec![1u8, 2, 3])).unwrap();
    let mut part = builder.build(0);
    assert_eq!(
        polls(&mut part, 4),
        vec![
            Seen::Item(header_chunk(PartHeaderType::Listkeys, false, 0)),
            Seen::Item(vec![1, 2, 3]),
            Seen::Item(vec![]),
            Seen::End,
        ]
    );
}

#[test]
fn fixed_chunk_payload() {
    let mut builder = PartEncodeBuilder::mandatory(PartHeaderType::Pushkey).unwrap();
    builder.set_data_fixed(chunk(&[8, 9]));
    let mut part = builder.build(3);
    assert_eq!(
        polls(&mut part, 4),
        vec![
            Seen::Item(header_chunk(PartHeaderType::Pushkey, true, 3)),
            Seen::Item(vec![8, 9]),
            Seen::Item(vec![]),
            Seen::End,
        ]
    );
}

#[test]
fn generated_payload_drops_embedded_empty_chunks() {
    let stream = futures::stream::iter_ok::<_, anyhow::Error>(vec![
        chunk(&[9]),
        chunk(&[]),
        chunk(&[7, 7]),
    ]);
    let mut builder = PartEncodeBuilder::mandatory(PartHeaderType::Changegroup).unwrap();
    builder.set_data_generated(stream);
    let mut part = builder.build(1);
    assert_eq!(
        polls(&mut part, 5),
        vec![
            Seen::Item(header_chunk(PartHeaderType::Changegroup, true, 1)),
            Seen::Item(vec![9]),
            Seen::Item(vec![7, 7]),
            Seen::Item(vec![]),
            Seen::End,
        ]
    );
}

#[test]
fn header_comes_first_for_every_payload() {
    let expected = Seen::Item(header_chunk(PartHeaderType::Bookmarks, false, 42));

    let mut part = PartEncodeBuilder::advisory(PartHeaderType::Bookmarks).unwrap().build(42);
    assert_eq!(see(part.poll()), expected);

    let mut builder = PartEncodeBuilder::advisory(PartHeaderType::Bookmarks).unwrap();
    builder.set_data_fixed(chunk(&[5]));
    let mut part = builder.build(42);
    assert_eq!(see(part.poll()), expected);

    let mut builder = PartEncodeBuilder::advisory(PartHeaderType::Bookmarks).unwrap();
    builder.set_data_generated(scripted(vec![Ok(Async::NotReady)]));
    let mut part = builder.build(42);
    assert_eq!(see(part.poll()), expected);
}

#[test]
fn exhaustion_is_idempotent() {
    let mut part = PartEncodeBuilder::mandatory(PartHeaderType::Replycaps).unwrap().build(2);
    polls(&mut part, 2);
    for _ in 0..10 {
        assert_eq!(see(part.poll()), Seen::End);
    }
}

#[test]
fn exhausted_stream_is_not_polled_again() {
    let stream = scripted(vec![Ok(Async::Ready(Some(chunk(&[1]))))]);
    let polled = stream.polled.clone();
    let mut builder = PartEncodeBuilder::mandatory(PartHeaderType::Changegroup).unwrap();
    builder.set_data_generated(stream);
    let mut part = builder.build(1);
    let seen = polls(&mut part, 6);
    assert_eq!(seen[1], Seen::Item(vec![1]));
    assert_eq!(seen[2], Seen::Item(vec![]));
    assert_eq!(&seen[3..], &[Seen::End, Seen::End, Seen::End]);
    // the header costs no poll; one for the chunk, one for the end
    assert_eq!(polled.load(std::sync::atomic::Ordering::SeqCst), 2);
}

#[test]
fn not_ready_is_passed_on_without_losing_chunks() {
    let stream = scripted(vec![
        Ok(Async::NotReady),
        Ok(Async::NotReady),
        Ok(Async::NotReady),
        Ok(Async::Ready(Some(chunk(&[4, 5])))),
        Ok(Async::NotReady),
        Ok(Async::Ready(Some(chunk(&[6])))),
        Ok(Async::Ready(None)),
    ]);
    let mut builder = PartEncodeBuilder::mandatory(PartHeaderType::Changegroup).unwrap();
    builder.set_data_generated(stream);
    let mut part = builder.build(1);
    assert_eq!(
        polls(&mut part, 9)[1..],
        [
            Seen::NotReady,
            Seen::NotReady,
            Seen::NotReady,
            Seen::Item(vec![4, 5]),
            Seen::NotReady,
            Seen::Item(vec![6]),
            Seen::Item(vec![]),
            Seen::End,
        ]
    );
}

#[test]
fn stream_error_is_surfaced_and_generation_goes_on() {
    let stream = scripted(vec![
        Ok(Async::Ready(Some(chunk(&[1])))),
        Err(anyhow::Error::msg("boom")),
        Ok(Async::Ready(Some(chunk(&[2])))),
        Ok(Async::Ready(None)),
    ]);
    let mut builder = PartEncodeBuilder::mandatory(PartHeaderType::Changegroup).unwrap();
    builder.set_data_generated(stream);
    let mut part = builder.build(1);
    assert_eq!(
        polls(&mut part, 6)[1..],
        [
            Seen::Item(vec![1]),
            Seen::Failed("boom".to_string()),
            Seen::Item(vec![2]),
            Seen::Item(vec![]),
            Seen::End,
        ]
    );
}

#[test]
fn exactly_one_terminator_and_it_is_last() {
    let stream = futures::stream::iter_ok::<_, anyhow::Error>(vec![
        chunk(&[]),
        chunk(&[1]),
        chunk(&[]),
        chunk(&[]),
        chunk(&[2, 3]),
        chunk(&[]),
    ]);
    let mut builder = PartEncodeBuilder::mandatory(PartHeaderType::Changegroup).unwrap();
    builder.set_data_generated(stream);
    let mut part = builder.build(9);
    let mut items = Vec::new();
    loop {
        match see(part.poll()) {
            Seen::Item(bytes) => items.push(bytes),
            Seen::End => break,
            other => panic!("unexpected {:?}", other),
        }
    }
    assert_eq!(items.iter().filter(|bytes| bytes.is_empty()).count(), 1);
    assert_eq!(items.last(), Some(&vec![]));
    assert_eq!(items.len(), 4);
}

#[test]
fn later_payload_replaces_earlier() {
    let mut builder = PartEncodeBuilder::mandatory(PartHeaderType::Changegroup).unwrap();
    builder.set_data_fixed(chunk(&[1]));
    builder.set_data_generated(futures::stream::iter_ok::<_, anyhow::Error>(vec![chunk(&[2])]));
    builder.set_data_bytes(Bytes::from(vec![3u8])).unwrap();
    let mut part = builder.build(1);
    assert_eq!(
        polls(&mut part, 4)[1..],
        [Seen::Item(vec![3]), Seen::Item(vec![]), Seen::End]
    );
}

#[test]
fn future_payload_becomes_one_chunk() {
    let mut builder = PartEncodeBuilder::mandatory(PartHeaderType::Changegroup).unwrap();
    builder.set_data_future(futures::future::ok::<Vec<u8>, anyhow::Error>(vec![1, 2]));
    let mut part = builder.build(1);
    assert_eq!(
        polls(&mut part, 4)[1..],
        [Seen::Item(vec![1, 2]), Seen::Item(vec![]), Seen::End]
    );
}

#[test]
fn empty_future_payload_is_dropped() {
    let mut builder = PartEncodeBuilder::mandatory(PartHeaderType::Changegroup).unwrap();
    builder.set_data_future(futures::future::ok::<Vec<u8>, anyhow::Error>(vec![]));
    let mut part = builder.build(1);
    assert_eq!(polls(&mut part, 3)[1..], [Seen::Item(vec![]), Seen::End]);
}

#[test]
fn failed_future_is_surfaced() {
    let mut builder = PartEncodeBuilder::mandatory(PartHeaderType::Changegroup).unwrap();
    builder.set_data_future(futures::future::err::<Vec<u8>, anyhow::Error>(anyhow::Error::msg(
        "no payload",
    )));
    let mut part = builder.build(1);
    assert_eq!(
        polls(&mut part, 4)[1..],
        [Seen::Failed("no payload".to_string()), Seen::Item(vec![]), Seen::End]
    );
}

#[test]
fn empty_fixed_payload_looks_like_a_second_terminator() {
    let mut builder = PartEncodeBuilder::mandatory(PartHeaderType::Changegroup).unwrap();
    builder.set_data_bytes(Bytes::new()).unwrap();
    let mut part = builder.build(1);
    assert_eq!(
        polls(&mut part, 4)[1..],
        [Seen::Item(vec![]), Seen::Item(vec![]), Seen::End]
    );
}

#[test]
fn payload_that_is_too_long_is_refused_and_the_builder_keeps_its_payload() {
    let mut builder = PartEncodeBuilder::mandatory(PartHeaderType::Changegroup).unwrap();
    builder.set_data_fixed(chunk(&[1]));
    let too_long = Bytes::from(vec![0u8; bundle_parts::chunk::MAX_CHUNK_LEN + 1]);
    assert_eq!(
        builder.set_data_bytes(too_long).err(),
        Some(bundle_parts::chunk::EncodingError::TooLarge {
            len: bundle_parts::chunk::MAX_CHUNK_LEN + 1
        })
    );
    let mut part = builder.build(1);
    assert_eq!(
        polls(&mut part, 4)[1..],
        [Seen::Item(vec![1]), Seen::Item(vec![]), Seen::End]
    );
}

#[test]
fn relay_hands_on_what_the_stream_answered() {
    assert_eq!(see(PartEncode::relay(Pull::Item(chunk(&[1, 2])))), Seen::Item(vec![1, 2]));
    assert_eq!(see(PartEncode::relay(Pull::End)), Seen::Item(vec![]));
    assert_eq!(see(PartEncode::relay(Pull::NotReady)), Seen::NotReady);
    assert_eq!(
        see(PartEncode::relay(Pull::Failed(anyhow::Error::msg("x")))),
        Seen::Failed("x".to_string())
    );
}
