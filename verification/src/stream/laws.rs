//! What the contracts of the adapters add up to.

use vstd::prelude::*;

use core::convert::Infallible;

use super::io::{Cursor, Read};
use super::source::{read_answer, read_from, read_result, read_with_room};
use super::IoError;
use crate::cha::{update_output, CipherState};

verus! {

/// What a stream has accepted after the chunks `chunks` were written through
/// a sink whose context was in `state`, one `write_all` each: what the cipher
/// wrote for the first chunk, then what it wrote for the second in the state
/// that the first left behind, and so on.
pub open spec fn written_through(state: CipherState, chunks: Seq<Seq<u8>>) -> Seq<u8>
    decreases chunks.len(),
{
    if chunks.len() == 0 {
        Seq::<u8>::empty()
    } else {
        update_output(state, chunks[0]) + written_through(
            state.after_chunk(chunks[0]),
            chunks.skip(1),
        )
    }
}

/// Writing one more chunk adds what the cipher writes for it in the state
/// that the chunks before have left behind.
pub proof fn lemma_written_through_step(state: CipherState, chunk: Seq<u8>, rest: Seq<Seq<u8>>)
    ensures
        written_through(state, seq![chunk] + rest) == update_output(state, chunk)
            + written_through(state.after_chunk(chunk), rest),
{
    assert((seq![chunk] + rest).skip(1) =~= rest);
}

/// A payload that is written as a single chunk reaches the stream as the
/// same bytes whether it is written by `write_all` or by a `write` of which
/// the stream takes everything: both hand on what the cipher wrote for it,
/// whatever the scratch buffer held or how long it was.
///
/// Of a payload split into several chunks this does not hold: each chunk goes
/// through `update` and `finalize`, and the cipher answers the next chunk in
/// the state that `finalize` has left.
pub proof fn lemma_single_chunk_invariance(
    state: CipherState,
    payload: Seq<u8>,
    before: Seq<u8>,
    taken: nat,
)
    requires
        taken == update_output(state, payload).len(),
    ensures
        before + update_output(state, payload).take(taken as int) == before + written_through(
            state,
            seq![payload],
        ),
{
    let out = update_output(state, payload);
    lemma_written_through_step(state, payload, Seq::<Seq<u8>>::empty());
    assert(seq![payload] + Seq::<Seq<u8>>::empty() =~= seq![payload]);
    assert(written_through(state.after_chunk(payload), Seq::<Seq<u8>>::empty())
        =~= Seq::<u8>::empty());
    assert(out + Seq::<u8>::empty() =~= out);
    assert(out.take(taken as int) =~= out);
}

/// A source that keeps its buffer and a source that finds scratch space for
/// each call give the same bytes: where both start from contexts in the same
/// state and their streams hand out the same raw bytes, two successful reads
/// return the same count, leave the same transformed bytes at the front of
/// the callers' buffers, and leave the contexts in the same state.
pub proof fn lemma_buffer_strategy_equivalence<E1, E2>(
    state: CipherState,
    delivered_a: Seq<u8>,
    delivered_b: Seq<u8>,
    buf_a: Seq<u8>,
    buf_b: Seq<u8>,
    r_a: Result<usize, IoError<E1>>,
    r_b: Result<usize, IoError<E2>>,
    state_a: CipherState,
    state_b: CipherState,
    delivered_after_a: Seq<u8>,
    delivered_after_b: Seq<u8>,
    buf_after_a: Seq<u8>,
    buf_after_b: Seq<u8>,
)
    requires
        read_result(state, delivered_a, buf_a, r_a, state_a, delivered_after_a, buf_after_a),
        read_result(state, delivered_b, buf_b, r_b, state_b, delivered_after_b, buf_after_b),
        delivered_after_a.skip(delivered_a.len() as int) == delivered_after_b.skip(
            delivered_b.len() as int,
        ),
        r_a is Ok,
        r_b is Ok,
    ensures
        r_a->Ok_0 == r_b->Ok_0,
        buf_after_a.take(r_a->Ok_0 as int) == buf_after_b.take(r_b->Ok_0 as int),
        state_a == state_b,
{
}

/// What a cursor has left to give when it is offered room for `room` bytes.
pub open spec fn cursor_chunk(cursor: &Cursor, room: nat) -> Seq<u8> {
    let count = vstd::math::min(room as int, cursor.data().len() - cursor.consumed());
    cursor.data().subrange(cursor.consumed() as int, cursor.consumed() + count)
}

/// A read from a source over a cursor takes from the cursor as much of what
/// is left as the caller's buffer has room for, and never fails on the
/// cursor's account. Where it succeeds, the front of the caller's buffer
/// holds what the cipher wrote for exactly those bytes.
pub proof fn lemma_cursor_read(
    state: CipherState,
    before: &Cursor,
    buf_before: Seq<u8>,
    r: Result<usize, IoError<Infallible>>,
    state_after: CipherState,
    after: &Cursor,
    buf_after: Seq<u8>,
)
    requires
        before.consumed() <= before.data().len(),
        read_result(
            state,
            before.delivered(),
            buf_before,
            r,
            state_after,
            after.delivered(),
            buf_after,
        ),
        read_with_room(before, buf_before.len(), r, after),
    ensures
        after.data() == before.data(),
        after.consumed() == before.consumed() + cursor_chunk(before, buf_before.len()).len(),
        !(r matches Err(IoError::Stream(_))),
        r matches Ok(n) ==> {
            let raw = cursor_chunk(before, buf_before.len());
            &&& n == update_output(state, raw).len()
            &&& buf_after.take(n as int) == update_output(state, raw)
            &&& state_after == state.after_chunk(raw)
        },
{
    let offered = choose|offered: Seq<u8>|
        offered.len() == buf_before.len() && #[trigger] read_from(before, offered, r, after);
    let (filled, inner) = choose|filled: Seq<u8>, inner: Result<usize, Infallible>| #[trigger]
        read_answer(before, offered, filled, inner, r, after);
    let raw = cursor_chunk(before, buf_before.len());
    let read = inner->Ok_0;
    assert(filled.take(read as int) =~= raw);
    assert((before.delivered() + raw).skip(before.delivered().len() as int) =~= raw);
}

/// A source that keeps its buffer and a source that finds scratch space for
/// each call give the same bytes from the same input: where both read from
/// cursors that stand at the same place in the same data, into buffers of
/// the same length, with contexts in the same state, two successful reads
/// return the same count, leave the same bytes at the front of the callers'
/// buffers, leave the cursors at the same place and the contexts in the same
/// state.
pub proof fn lemma_buffer_strategies_agree_on_cursors(
    state: CipherState,
    before_a: &Cursor,
    before_b: &Cursor,
    buf_a: Seq<u8>,
    buf_b: Seq<u8>,
    r_a: Result<usize, IoError<Infallible>>,
    r_b: Result<usize, IoError<Infallible>>,
    state_a: CipherState,
    state_b: CipherState,
    after_a: &Cursor,
    after_b: &Cursor,
    buf_after_a: Seq<u8>,
    buf_after_b: Seq<u8>,
)
    requires
        before_a.consumed() <= before_a.data().len(),
        before_a.data() == before_b.data(),
        before_a.consumed() == before_b.consumed(),
        buf_a.len() == buf_b.len(),
        read_result(
            state,
            before_a.delivered(),
            buf_a,
            r_a,
            state_a,
            after_a.delivered(),
            buf_after_a,
        ),
        read_with_room(before_a, buf_a.len(), r_a, after_a),
        read_result(
            state,
            before_b.delivered(),
            buf_b,
            r_b,
            state_b,
            after_b.delivered(),
            buf_after_b,
        ),
        read_with_room(before_b, buf_b.len(), r_b, after_b),
        r_a is Ok,
        r_b is Ok,
    ensures
        r_a->Ok_0 == r_b->Ok_0,
        buf_after_a.take(r_a->Ok_0 as int) == buf_after_b.take(r_b->Ok_0 as int),
        after_a.consumed() == after_b.consumed(),
        state_a == state_b,
{
    lemma_cursor_read(state, before_a, buf_a, r_a, state_a, after_a, buf_after_a);
    lemma_cursor_read(state, before_b, buf_b, r_b, state_b, after_b, buf_after_b);
}

/// The read side and the write side apply the same transform: a source over
/// a cursor at the start of `payload`, read into a buffer as long as
/// `payload`, leaves in the buffer what a sink with a context in the same
/// state hands to its stream on `write_all(payload)`.
pub proof fn lemma_read_matches_write_all(
    state: CipherState,
    before: &Cursor,
    buf_before: Seq<u8>,
    n: usize,
    state_after: CipherState,
    after: &Cursor,
    buf_after: Seq<u8>,
)
    requires
        before.consumed() == 0,
        buf_before.len() == before.data().len(),
        read_result(
            state,
            before.delivered(),
            buf_before,
            Ok::<usize, IoError<Infallible>>(n),
            state_after,
            after.delivered(),
            buf_after,
        ),
        read_with_room(before, buf_before.len(), Ok::<usize, IoError<Infallible>>(n), after),
    ensures
        buf_after.take(n as int) == written_through(state, seq![before.data()]),
        state_after == state.after_chunk(before.data()),
{
    let r = Ok::<usize, IoError<Infallible>>(n);
    lemma_cursor_read(state, before, buf_before, r, state_after, after, buf_after);
    let payload = before.data();
    assert(cursor_chunk(before, buf_before.len()) =~= payload);
    lemma_single_chunk_invariance(state, payload, Seq::<u8>::empty(), update_output(state, payload).len());
    assert(Seq::<u8>::empty() + written_through(state, seq![payload]) =~= written_through(
        state,
        seq![payload],
    ));
    assert(Seq::<u8>::empty() + update_output(state, payload).take(
        update_output(state, payload).len() as int,
    ) =~= update_output(state, payload));
}

} // verus!
