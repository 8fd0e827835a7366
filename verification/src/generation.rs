//! The generation of a part as a state machine over plain values, and what
//! holds of every run of it.
//!
//! One poll of the encoder is one `step`. The payload stream is the caller's:
//! the model takes its answers as given, one for each poll, and uses an
//! answer only when the encoder has to ask the stream.

use crate::part_header::{header_bytes, header_bytes_nonempty, HeaderView};
use crate::stream::{filtered, PullView};
use vstd::prelude::*;

verus! {

/// The payload of a part that is not started yet.
pub enum PayloadView {
    /// No payload.
    Empty,
    /// One chunk with these bytes.
    Fixed(Seq<u8>),
    /// The chunks of a payload stream.
    Generated,
}

/// Where the generation of a part stands.
pub enum StateView {
    /// Nothing is sent yet.
    NotStarted(HeaderView, PayloadView),
    /// The header is sent; the one chunk of the payload comes next.
    Fixed(Seq<u8>),
    /// The header is sent; the payload stream is asked for the next chunk.
    Generating,
    /// The payload is sent; the chunk that ends the part comes next.
    EmptyChunk,
    /// The part is sent.
    Done,
    /// The state was taken out for a transition and not put back.
    Invalid,
}

/// The chunk that ends a part.
pub open spec fn terminator() -> PullView {
    PullView::Item(Seq::<u8>::empty())
}

/// Whether an answer is a chunk that looks like the end of a part.
pub open spec fn is_terminator(answer: PullView) -> bool {
    answer matches PullView::Item(bytes) && bytes.len() == 0
}

/// One poll: what the encoder answers in state `s` and the state it is in
/// then. `inner` is what the payload stream answers if it is asked, which
/// happens in `Generating` only. Of `Invalid` nothing is said: the encoder
/// is never polled in it.
pub open spec fn step(s: StateView, inner: PullView) -> (PullView, StateView) {
    match s {
        StateView::NotStarted(header, payload) => (
            PullView::Item(header_bytes(header)),
            match payload {
                PayloadView::Empty => StateView::EmptyChunk,
                PayloadView::Fixed(bytes) => StateView::Fixed(bytes),
                PayloadView::Generated => StateView::Generating,
            },
        ),
        StateView::Fixed(bytes) => (PullView::Item(bytes), StateView::EmptyChunk),
        StateView::Generating => match inner {
            PullView::Item(bytes) => (PullView::Item(bytes), StateView::Generating),
            PullView::End => (terminator(), StateView::Done),
            PullView::NotReady => (PullView::NotReady, StateView::Generating),
            PullView::Failed(e) => (PullView::Failed(e), StateView::Generating),
        },
        StateView::EmptyChunk => (terminator(), StateView::Done),
        StateView::Done => (PullView::End, StateView::Done),
        StateView::Invalid => (PullView::End, StateView::Invalid),
    }
}

/// What the payload stream must have answered for a generating encoder to
/// answer `output`: the chunk that ends the part stands for the end of the
/// stream, everything else is handed on as it came.
pub open spec fn answer_of(output: PullView) -> PullView {
    if is_terminator(output) {
        PullView::End
    } else {
        output
    }
}

/// What is read back from an answer of the encoder is an answer that a
/// stream without empty chunks can give.
pub proof fn answer_of_is_filtered(output: PullView)
    ensures
        filtered(answer_of(output)),
{
}

/// The state after one poll for each of `answers`.
pub open spec fn state_after(s: StateView, answers: Seq<PullView>) -> StateView
    decreases answers.len(),
{
    if answers.len() == 0 {
        s
    } else {
        state_after(step(s, answers.first()).1, answers.drop_first())
    }
}

/// What the encoder answers to one poll for each of `answers`.
pub open spec fn run(s: StateView, answers: Seq<PullView>) -> Seq<PullView>
    decreases answers.len(),
{
    if answers.len() == 0 {
        Seq::<PullView>::empty()
    } else {
        seq![step(s, answers.first()).0] + run(step(s, answers.first()).1, answers.drop_first())
    }
}

/// Every answer of the payload stream is one that a stream without empty
/// chunks can give.
pub open spec fn all_filtered(answers: Seq<PullView>) -> bool {
    forall|i: int| 0 <= i < answers.len() ==> filtered(#[trigger] answers[i])
}

/// A state from which no chunk that ends a part has been sent, and from
/// which none can be sent but the one that does end it.
pub open spec fn fresh(s: StateView) -> bool {
    match s {
        StateView::NotStarted(_, PayloadView::Fixed(bytes)) => bytes.len() > 0,
        StateView::NotStarted(_, _) => true,
        StateView::Fixed(bytes) => bytes.len() > 0,
        StateView::Generating => true,
        StateView::EmptyChunk => true,
        StateView::Done => false,
        StateView::Invalid => false,
    }
}

/// There is one answer for each poll.
pub proof fn run_len(s: StateView, answers: Seq<PullView>)
    ensures
        run(s, answers).len() == answers.len(),
    decreases answers.len(),
{
    if answers.len() > 0 {
        run_len(step(s, answers.first()).1, answers.drop_first());
    }
}

/// The answer to poll `i + 1` is the answer to poll `i` of the run that
/// starts after the first poll.
pub proof fn run_unfold(s: StateView, answers: Seq<PullView>, i: int)
    requires
        0 <= i < answers.len(),
    ensures
        run(s, answers).len() == answers.len(),
        run(s, answers)[0] == step(s, answers[0]).0,
        i > 0 ==> run(s, answers)[i] == run(step(s, answers[0]).1, answers.drop_first())[i - 1],
{
    run_len(s, answers);
    run_len(step(s, answers.first()).1, answers.drop_first());
}

/// Outside `Generating` the payload stream is not asked: whatever it would
/// answer, the step is the same.
pub proof fn step_asks_only_while_generating(s: StateView, a: PullView, b: PullView)
    requires
        !(s is Generating),
    ensures
        step(s, a) == step(s, b),
{
}

/// The header comes first: whatever the payload is, the first poll of a part
/// answers the chunk of its header.
pub proof fn header_first(header: HeaderView, payload: PayloadView, answers: Seq<PullView>)
    requires
        answers.len() > 0,
    ensures
        run(StateView::NotStarted(header, payload), answers)[0] == PullView::Item(
            header_bytes(header),
        ),
        !is_terminator(run(StateView::NotStarted(header, payload), answers)[0]),
{
    run_unfold(StateView::NotStarted(header, payload), answers, 0);
    header_bytes_nonempty(header);
}

/// Once the part is sent, every further poll answers that there is nothing
/// more, and the part stays sent.
pub proof fn done_is_absorbing(answers: Seq<PullView>)
    ensures
        state_after(StateView::Done, answers) == StateView::Done,
        run(StateView::Done, answers).len() == answers.len(),
        forall|i: int|
            0 <= i < answers.len() ==> #[trigger] run(StateView::Done, answers)[i] == PullView::End,
    decreases answers.len(),
{
    run_len(StateView::Done, answers);
    if answers.len() > 0 {
        done_is_absorbing(answers.drop_first());
        assert forall|i: int| 0 <= i < answers.len() implies #[trigger] run(
            StateView::Done,
            answers,
        )[i] == PullView::End by {
            run_unfold(StateView::Done, answers, i);
        }
    }
}

/// From a fresh state, and with a payload stream that hands out no empty
/// chunk: after a chunk that looks like the end of the part nothing but
/// "no more" is answered, and "no more" is answered only after such a chunk.
/// So a run that reaches "no more" has sent exactly one such chunk, as its
/// last one.
pub proof fn one_terminator_from(s: StateView, answers: Seq<PullView>)
    requires
        fresh(s),
        all_filtered(answers),
    ensures
        run(s, answers).len() == answers.len(),
        forall|i: int, j: int|
            0 <= i < j < answers.len() && is_terminator(#[trigger] run(s, answers)[i])
                ==> #[trigger] run(s, answers)[j] == PullView::End,
        forall|j: int|
            0 <= j < answers.len() && #[trigger] run(s, answers)[j] == PullView::End ==> exists|
                i: int,
            |
                0 <= i < j && is_terminator(#[trigger] run(s, answers)[i]),
        state_after(s, answers) is Done || fresh(state_after(s, answers)),
        state_after(s, answers) is Done <==> exists|i: int|
            0 <= i < answers.len() && is_terminator(#[trigger] run(s, answers)[i]),
    decreases answers.len(),
{
    run_len(s, answers);
    if answers.len() > 0 {
        let out = run(s, answers);
        let first = step(s, answers[0]);
        let rest = answers.drop_first();
        let tail = run(first.1, rest);
        assert(filtered(answers[0]));
        assert(all_filtered(rest)) by {
            assert forall|i: int| 0 <= i < rest.len() implies filtered(#[trigger] rest[i]) by {
                assert(rest[i] == answers[i + 1]);
            }
        }
        run_unfold(s, answers, 0);
        assert forall|i: int| 0 < i < answers.len() implies #[trigger] out[i] == tail[i - 1] by {
            run_unfold(s, answers, i);
        }
        assert(first.0 != PullView::End);
        if let StateView::NotStarted(header, _) = s {
            header_bytes_nonempty(header);
        }
        if first.1 is Done {
            assert(is_terminator(out[0]));
            done_is_absorbing(rest);
            assert forall|i: int, j: int|
                0 <= i < j < answers.len() && is_terminator(
                    #[trigger] out[i],
                ) implies #[trigger] out[j] == PullView::End by {
                assert(out[j] == tail[j - 1]);
            }
            assert forall|j: int|
                0 <= j < answers.len() && #[trigger] out[j] == PullView::End implies exists|i: int|
                0 <= i < j && is_terminator(#[trigger] out[i]) by {
                assert(j > 0);
                assert(is_terminator(out[0]));
            }
        } else {
            assert(fresh(first.1));
            assert(!is_terminator(out[0]));
            one_terminator_from(first.1, rest);
            assert forall|i: int, j: int|
                0 <= i < j < answers.len() && is_terminator(
                    #[trigger] out[i],
                ) implies #[trigger] out[j] == PullView::End by {
                assert(i > 0);
                assert(out[i] == tail[i - 1]);
                assert(out[j] == tail[j - 1]);
            }
            assert forall|j: int|
                0 <= j < answers.len() && #[trigger] out[j] == PullView::End implies exists|i: int|
                0 <= i < j && is_terminator(#[trigger] out[i]) by {
                assert(j > 0);
                assert(tail[j - 1] == PullView::End);
                let k = choose|k: int| 0 <= k < j - 1 && is_terminator(#[trigger] tail[k]);
                assert(out[k + 1] == tail[k]);
                assert(is_terminator(out[k + 1]));
            }
            if state_after(s, answers) is Done {
                let k = choose|k: int| 0 <= k < rest.len() && is_terminator(#[trigger] tail[k]);
                assert(out[k + 1] == tail[k]);
                assert(is_terminator(out[k + 1]));
            }
            if exists|i: int| 0 <= i < answers.len() && is_terminator(#[trigger] out[i]) {
                let i = choose|i: int| 0 <= i < answers.len() && is_terminator(#[trigger] out[i]);
                assert(out[i] == tail[i - 1]);
                assert(is_terminator(tail[i - 1]));
            }
        }
    }
}

/// Exactly one chunk ends a part: in every run of a part whose fixed payload,
/// if it has one, holds bytes, a chunk that looks like the end of the part is
/// followed by "no more" only, and "no more" is answered only after one.
pub proof fn exactly_one_terminator(
    header: HeaderView,
    payload: PayloadView,
    answers: Seq<PullView>,
)
    requires
        payload matches PayloadView::Fixed(bytes) ==> bytes.len() > 0,
        all_filtered(answers),
    ensures
        forall|i: int, j: int|
            0 <= i < j < answers.len() && is_terminator(
                #[trigger] run(StateView::NotStarted(header, payload), answers)[i],
            ) ==> #[trigger] run(StateView::NotStarted(header, payload), answers)[j]
                == PullView::End,
        forall|j: int|
            0 <= j < answers.len() && #[trigger] run(
                StateView::NotStarted(header, payload),
                answers,
            )[j] == PullView::End ==> exists|i: int|
                0 <= i < j && is_terminator(
                    #[trigger] run(StateView::NotStarted(header, payload), answers)[i],
                ),
{
    one_terminator_from(StateView::NotStarted(header, payload), answers);
}

/// Poll `k` is one step from the state that the polls before it led to.
pub proof fn run_at(s: StateView, answers: Seq<PullView>, k: int)
    requires
        0 <= k < answers.len(),
    ensures
        run(s, answers).len() == answers.len(),
        run(s, answers)[k] == step(state_after(s, answers.take(k)), answers[k]).0,
        state_after(s, answers.take(k + 1)) == step(
            state_after(s, answers.take(k)),
            answers[k],
        ).1,
    decreases k,
{
    run_len(s, answers);
    run_unfold(s, answers, k);
    let next = step(s, answers[0]).1;
    let rest = answers.drop_first();
    assert(answers.take(k + 1).first() == answers[0]);
    assert(answers.take(k + 1).drop_first() =~= rest.take(k));
    if k == 0 {
        assert(answers.take(0) =~= Seq::<PullView>::empty());
        assert(rest.take(0) =~= Seq::<PullView>::empty());
    } else {
        run_at(next, rest, k - 1);
        assert(answers.take(k).first() == answers[0]);
        assert(answers.take(k).drop_first() =~= rest.take(k - 1));
        assert(rest[k - 1] == answers[k]);
    }
}

/// One more poll adds one answer to the run: the step from the state that
/// the run so far led to. So the answers of any number of polls of an
/// encoder are a run, with `answer_of` each answer in the place of what the
/// payload stream said.
pub proof fn run_push(s: StateView, answers: Seq<PullView>, inner: PullView)
    ensures
        run(s, answers.push(inner)) == run(s, answers).push(
            step(state_after(s, answers), inner).0,
        ),
        state_after(s, answers.push(inner)) == step(state_after(s, answers), inner).1,
{
    let more = answers.push(inner);
    let k = answers.len() as int;
    run_len(s, answers);
    run_len(s, more);
    assert(more.take(k) =~= answers);
    assert(more.take(k + 1) =~= more);
    run_at(s, more, k);
    assert forall|i: int| 0 <= i < k implies run(s, more)[i] == run(s, answers)[i] by {
        run_at(s, more, i);
        run_at(s, answers, i);
        assert(more.take(i) =~= answers.take(i));
    }
    assert(run(s, more) =~= run(s, answers).push(step(state_after(s, answers), inner).0));
}

/// A part without payload costs two chunks: its header and the chunk that
/// ends it. After them there is nothing more.
pub proof fn no_payload_run(header: HeaderView, answers: Seq<PullView>)
    requires
        answers.len() >= 2,
    ensures
        run(StateView::NotStarted(header, PayloadView::Empty), answers).len() == answers.len(),
        run(StateView::NotStarted(header, PayloadView::Empty), answers)[0] == PullView::Item(
            header_bytes(header),
        ),
        run(StateView::NotStarted(header, PayloadView::Empty), answers)[1] == terminator(),
        forall|i: int|
            2 <= i < answers.len() ==> #[trigger] run(
                StateView::NotStarted(header, PayloadView::Empty),
                answers,
            )[i] == PullView::End,
{
    let s = StateView::NotStarted(header, PayloadView::Empty);
    run_at(s, answers, 0);
    run_at(s, answers, 1);
    assert(state_after(s, answers.take(2)) == StateView::Done);
    assert forall|i: int| 2 <= i < answers.len() implies #[trigger] run(s, answers)[i]
        == PullView::End by {
        stays_done(s, answers, 2, i);
    }
}

/// A part with a fixed payload costs three chunks: its header, the payload
/// and the chunk that ends it. After them there is nothing more.
pub proof fn fixed_payload_run(header: HeaderView, bytes: Seq<u8>, answers: Seq<PullView>)
    requires
        answers.len() >= 3,
    ensures
        run(StateView::NotStarted(header, PayloadView::Fixed(bytes)), answers).len()
            == answers.len(),
        run(StateView::NotStarted(header, PayloadView::Fixed(bytes)), answers)[0]
            == PullView::Item(header_bytes(header)),
        run(StateView::NotStarted(header, PayloadView::Fixed(bytes)), answers)[1]
            == PullView::Item(bytes),
        run(StateView::NotStarted(header, PayloadView::Fixed(bytes)), answers)[2] == terminator(),
        forall|i: int|
            3 <= i < answers.len() ==> #[trigger] run(
                StateView::NotStarted(header, PayloadView::Fixed(bytes)),
                answers,
            )[i] == PullView::End,
{
    let s = StateView::NotStarted(header, PayloadView::Fixed(bytes));
    run_at(s, answers, 0);
    run_at(s, answers, 1);
    run_at(s, answers, 2);
    assert(state_after(s, answers.take(3)) == StateView::Done);
    assert forall|i: int| 3 <= i < answers.len() implies #[trigger] run(s, answers)[i]
        == PullView::End by {
        stays_done(s, answers, 3, i);
    }
}

/// A part that is done after `k` polls is done after any later poll, and
/// every poll from `k` on answers "no more".
pub proof fn stays_done(s: StateView, answers: Seq<PullView>, k: int, i: int)
    requires
        0 <= k <= i < answers.len(),
        state_after(s, answers.take(k)) is Done,
    ensures
        run(s, answers)[i] == PullView::End,
        state_after(s, answers.take(i + 1)) is Done,
    decreases i - k,
{
    if k < i {
        run_at(s, answers, k);
        stays_done(s, answers, k + 1, i);
    } else {
        run_at(s, answers, i);
    }
}

/// While the payload stream is not ready the encoder says so and stays where
/// it is: it asks the stream again at the next poll, and hands on what the
/// stream answers then.
pub proof fn not_ready_is_transparent(answers: Seq<PullView>, k: int)
    requires
        0 <= k < answers.len(),
        forall|i: int| 0 <= i < k ==> #[trigger] answers[i] == PullView::NotReady,
    ensures
        forall|i: int|
            0 <= i < k ==> #[trigger] run(StateView::Generating, answers)[i] == PullView::NotReady,
        state_after(StateView::Generating, answers.take(k)) == StateView::Generating,
        run(StateView::Generating, answers)[k] == step(StateView::Generating, answers[k]).0,
        answers[k] matches PullView::Item(bytes) ==> run(StateView::Generating, answers)[k]
            == PullView::Item(bytes),
    decreases k,
{
    run_at(StateView::Generating, answers, k);
    if k > 0 {
        not_ready_is_transparent(answers, k - 1);
        run_at(StateView::Generating, answers, k - 1);
        assert forall|i: int| 0 <= i < k implies #[trigger] run(StateView::Generating, answers)[i]
            == PullView::NotReady by {
            if i == k - 1 {
            }
        }
    } else {
        assert(answers.take(0) =~= Seq::<PullView>::empty());
    }
}

/// A failure of the payload stream comes out as it is, at the poll at which
/// the stream reported it, and the encoder goes on generating: it does not
/// end the part on its own.
pub proof fn failure_is_surfaced(s: StateView, answers: Seq<PullView>, k: int, e: anyhow::Error)
    requires
        0 <= k < answers.len(),
        state_after(s, answers.take(k)) is Generating,
        answers[k] == PullView::Failed(e),
    ensures
        run(s, answers)[k] == PullView::Failed(e),
        state_after(s, answers.take(k + 1)) is Generating,
{
    run_at(s, answers, k);
}

} // verus!
