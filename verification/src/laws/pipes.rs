//! Bytes that are written to a pipe are what is read from it.
use vstd::prelude::*;
use crate::ids::IdCounter;
use crate::laws::answers;
use crate::laws::host_exec as starting;
use crate::laws::numbers;
use crate::pipes;
use crate::pipes::buffers;
use crate::pipes::buffers::{PipeAnswer, PipeBuffer, PipeBuffers};
use crate::pipes::{PipeError, SimplePipe, SimplePipeRx, SimplePipeTx, WaitOutcome, Writing};
use crate::tasks::scheduler::{Action, SchedulerState, SharedState};
use crate::tasks::scheduler_message::SchedulerMessage;

verus! {

// ---------------------------------------------------------------------------
// One pipe
// ---------------------------------------------------------------------------

/// Whether bytes are the oldest of those that were there, as many as there are
/// or as many as a read takes, whichever is less, and the others are still
/// there, in order.
pub open spec fn took_oldest(there: Seq<u8>, max_len: u32, taken: Seq<u8>, left: Seq<u8>) -> bool {
    &&& there.len() <= max_len ==> taken.len() == there.len()
    &&& there.len() > max_len ==> taken.len() == max_len
    &&& left.len() == there.len() - taken.len()
    &&& forall|i: int| 0 <= i < taken.len() ==> #[trigger] taken[i] == there[i]
    &&& forall|i: int| 0 <= i < left.len() ==> #[trigger] left[i] == there[taken.len() + i]
}

/// Whether a pipe was read by a worker that takes so many bytes: it got the
/// oldest bytes, or learned of the end, or waits.
pub open spec fn was_read(
    before: PipeBuffer,
    after: PipeBuffer,
    worker_id: u32,
    max_len: u32,
    answer: Option<PipeAnswer>,
) -> bool {
    &&& after.closed == before.closed
    &&& before.data@.len() > 0 ==> {
        &&& answer is Some
        &&& answer->0.worker_id == worker_id
        &&& answer->0.data is Some
        &&& took_oldest(before.data@, max_len, answer->0.data->0@, after.data@)
        &&& after.pending_read == before.pending_read
    }
    &&& before.data@.len() == 0 && before.closed ==> {
        &&& answer is Some
        &&& answer->0.worker_id == worker_id
        &&& answer->0.data is None
        &&& after.data@.len() == 0
        &&& after.pending_read == before.pending_read
    }
    &&& before.data@.len() == 0 && !before.closed ==> {
        &&& answer is None
        &&& after.data@.len() == 0
        &&& after.pending_read == Some((worker_id, max_len))
    }
}

/// Whether bytes were written to a pipe: they come after those that were there,
/// and a read that waits gets as many as it takes.
pub open spec fn was_written(
    before: PipeBuffer,
    after: PipeBuffer,
    bytes: Seq<u8>,
    answer: Option<PipeAnswer>,
) -> bool {
    &&& after.closed == before.closed
    &&& after.pending_read is None
    &&& before.pending_read is None ==> {
        &&& answer is None
        &&& after.data@ == before.data@ + bytes
    }
    &&& before.pending_read is Some ==> {
        &&& answer is Some
        &&& answer->0.worker_id == (before.pending_read->0).0
        &&& answer->0.data is Some
        &&& took_oldest(
            before.data@ + bytes,
            (before.pending_read->0).1,
            answer->0.data->0@,
            after.data@,
        )
    }
}

/// Whether the write end of a pipe was closed: what was written stays to be
/// read, and a read that waits learns of the end.
pub open spec fn was_closed(
    before: PipeBuffer,
    after: PipeBuffer,
    answer: Option<PipeAnswer>,
) -> bool {
    &&& after.closed
    &&& after.pending_read is None
    &&& after.data@ == before.data@
    &&& before.pending_read is None ==> answer is None
    &&& before.pending_read is Some ==> {
        &&& answer is Some
        &&& answer->0.worker_id == (before.pending_read->0).0
        &&& answer->0.data is None
    }
}

proof fn lemma_read(
    before: PipeBuffer,
    after: PipeBuffer,
    worker_id: u32,
    max_len: u32,
    answer: Option<PipeAnswer>,
)
    requires
        (after@, buffers::optional_answer(answer)) == before@.after_read(worker_id, max_len),
    ensures
        was_read(before, after, worker_id, max_len, answer),
{
}

proof fn lemma_written(
    before: PipeBuffer,
    after: PipeBuffer,
    bytes: Seq<u8>,
    answer: Option<PipeAnswer>,
)
    requires
        (after@, buffers::optional_answer(answer)) == before@.after_write(bytes),
    ensures
        was_written(before, after, bytes, answer),
{
}

proof fn lemma_closed(before: PipeBuffer, after: PipeBuffer, answer: Option<PipeAnswer>)
    requires
        (after@, buffers::optional_answer(answer)) == before@.after_close(),
    ensures
        was_closed(before, after, answer),
{
}

/// A pipe starts open and empty, with nobody waiting. Reading it gives as many
/// of its oldest bytes as are there and as the reader takes, never none where
/// there are some and the reader takes some. A reader that waits gets them as soon
/// as something is written.
pub proof fn law_pipes_give_their_oldest_bytes(
    fresh: PipeBuffer,
    reading: &mut PipeBuffer,
    worker_id: u32,
    max_len: u32,
    read: Option<PipeAnswer>,
    writing: &mut PipeBuffer,
    bytes: Vec<u8>,
    written: Option<PipeAnswer>,
    closing: &mut PipeBuffer,
    closed: Option<PipeAnswer>,
)
    requires
        call_ensures(PipeBuffer::new, (), fresh),
        call_ensures(PipeBuffer::read, (reading, worker_id, max_len), read),
        call_ensures(PipeBuffer::write, (writing, bytes), written),
        call_ensures(PipeBuffer::close, (closing,), closed),
    ensures
        fresh.data@.len() == 0 && !fresh.closed && fresh.pending_read is None,
        was_read(*old(reading), *final(reading), worker_id, max_len, read),
        old(reading).data@.len() > 0 && max_len > 0 ==> read->0.data->0@.len() > 0,
        was_written(*old(writing), *final(writing), bytes@, written),
        (old(writing).pending_read matches Some((_, takes)) && takes > 0 && bytes@.len() > 0)
            ==> written->0.data->0@.len() > 0,
        was_closed(*old(closing), *final(closing), closed),
{
    lemma_read(*reading, *final(reading), worker_id, max_len, read);
    lemma_written(*writing, *final(writing), bytes@, written);
    lemma_closed(*closing, *final(closing), closed);
}

// ---------------------------------------------------------------------------
// All pipes
// ---------------------------------------------------------------------------

/// Whether two pipes are the same.
pub open spec fn same_pipe(a: PipeBuffer, b: PipeBuffer) -> bool {
    a.data@ == b.data@ && a.closed == b.closed && a.pending_read == b.pending_read
}

/// Whether all pipes but one are the same.
pub open spec fn other_pipes_kept(before: PipeBuffers, after: PipeBuffers, pipe_id: u64) -> bool {
    forall|other: u64|
        #![trigger after.buffers@.contains_key(other)]
        other != pipe_id ==> {
            &&& after.buffers@.contains_key(other) == before.buffers@.contains_key(other)
            &&& before.buffers@.contains_key(other) ==> same_pipe(
                before.buffers@[other],
                after.buffers@[other],
            )
        }
}

/// Whether all pipes are the same.
pub open spec fn pipes_kept(before: PipeBuffers, after: PipeBuffers) -> bool {
    forall|other: u64|
        #![trigger after.buffers@.contains_key(other)]
        {
            &&& after.buffers@.contains_key(other) == before.buffers@.contains_key(other)
            &&& before.buffers@.contains_key(other) ==> same_pipe(
                before.buffers@[other],
                after.buffers@[other],
            )
        }
}

proof fn lemma_other_pipes(before: PipeBuffers, after: PipeBuffers, pipe_id: u64)
    requires
        forall|other: u64|
            #![trigger after@.contains_key(other)]
            other != pipe_id ==> {
                &&& after@.contains_key(other) == before@.contains_key(other)
                &&& before@.contains_key(other) ==> after@[other] == before@[other]
            },
    ensures
        other_pipes_kept(before, after, pipe_id),
{
    assert forall|other: u64|
        #![trigger after.buffers@.contains_key(other)]
        other != pipe_id implies {
        &&& after.buffers@.contains_key(other) == before.buffers@.contains_key(other)
        &&& before.buffers@.contains_key(other) ==> same_pipe(
            before.buffers@[other],
            after.buffers@[other],
        )
    } by {
        assert(after@.contains_key(other) == after.buffers@.contains_key(other));
        assert(before@.contains_key(other) == before.buffers@.contains_key(other));
        if before.buffers@.contains_key(other) {
            assert(after@[other] == after.buffers@[other]@);
            assert(before@[other] == before.buffers@[other]@);
        }
    }
}

pub proof fn lemma_pipes_kept(before: PipeBuffers, after: PipeBuffers)
    requires
        after@ == before@,
    ensures
        pipes_kept(before, after),
{
    assert forall|other: u64|
        #![trigger after.buffers@.contains_key(other)]
        {
            &&& after.buffers@.contains_key(other) == before.buffers@.contains_key(other)
            &&& before.buffers@.contains_key(other) ==> same_pipe(
                before.buffers@[other],
                after.buffers@[other],
            )
        } by {
        assert(after@.contains_key(other) == after.buffers@.contains_key(other));
        assert(before@.contains_key(other) == before.buffers@.contains_key(other));
        if before.buffers@.contains_key(other) {
            assert(after@[other] == after.buffers@[other]@);
            assert(before@[other] == before.buffers@[other]@);
        }
    }
}

/// What happens to a pipe happens to the one with the given id and to no other.
/// A pipe that does not exist is neither read, written nor closed.
pub proof fn law_pipes_are_known_by_their_ids(
    pipe_id: u64,
    creating: &mut PipeBuffers,
    reading: &mut PipeBuffers,
    worker_id: u32,
    max_len: u32,
    read: Option<PipeAnswer>,
    writing: &mut PipeBuffers,
    bytes: Vec<u8>,
    written: Option<PipeAnswer>,
    closing: &mut PipeBuffers,
    closed: Option<PipeAnswer>,
)
    requires
        call_ensures(PipeBuffers::create, (creating, pipe_id), ()),
        call_ensures(PipeBuffers::read, (reading, pipe_id, worker_id, max_len), read),
        call_ensures(PipeBuffers::write, (writing, pipe_id, bytes), written),
        call_ensures(PipeBuffers::close, (closing, pipe_id), closed),
    ensures
        final(creating).buffers@.contains_key(pipe_id),
        ({
            let pipe = final(creating).buffers@[pipe_id];
            pipe.data@.len() == 0 && !pipe.closed && pipe.pending_read is None
        }),
        other_pipes_kept(*old(creating), *final(creating), pipe_id),
        old(reading).buffers@.contains_key(pipe_id) ==> {
            &&& final(reading).buffers@.contains_key(pipe_id)
            &&& was_read(
                old(reading).buffers@[pipe_id],
                final(reading).buffers@[pipe_id],
                worker_id,
                max_len,
                read,
            )
            &&& other_pipes_kept(*old(reading), *final(reading), pipe_id)
        },
        !old(reading).buffers@.contains_key(pipe_id) ==> read is None && pipes_kept(
            *old(reading),
            *final(reading),
        ),
        old(writing).buffers@.contains_key(pipe_id) ==> {
            &&& final(writing).buffers@.contains_key(pipe_id)
            &&& was_written(
                old(writing).buffers@[pipe_id],
                final(writing).buffers@[pipe_id],
                bytes@,
                written,
            )
            &&& other_pipes_kept(*old(writing), *final(writing), pipe_id)
        },
        !old(writing).buffers@.contains_key(pipe_id) ==> written is None && pipes_kept(
            *old(writing),
            *final(writing),
        ),
        old(closing).buffers@.contains_key(pipe_id) ==> {
            &&& final(closing).buffers@.contains_key(pipe_id)
            &&& was_closed(
                old(closing).buffers@[pipe_id],
                final(closing).buffers@[pipe_id],
                closed,
            )
            &&& other_pipes_kept(*old(closing), *final(closing), pipe_id)
        },
        !old(closing).buffers@.contains_key(pipe_id) ==> closed is None && pipes_kept(
            *old(closing),
            *final(closing),
        ),
{
    assert(final(creating)@.contains_key(pipe_id));
    assert(final(creating)@[pipe_id] == final(creating).buffers@[pipe_id]@);
    lemma_other_pipes(*creating, *final(creating), pipe_id);
    assert(reading@.contains_key(pipe_id) == reading.buffers@.contains_key(pipe_id));
    if reading.buffers@.contains_key(pipe_id) {
        let before = reading.buffers@[pipe_id];
        let after = final(reading).buffers@[pipe_id];
        assert(reading@[pipe_id] == before@);
        assert(final(reading)@ == reading@.insert(pipe_id, before@.after_read(worker_id, max_len).0));
        assert(final(reading)@.contains_key(pipe_id));
        assert(final(reading).buffers@.contains_key(pipe_id));
        assert(final(reading)@[pipe_id] == after@);
        lemma_read(before, after, worker_id, max_len, read);
        lemma_other_pipes(*reading, *final(reading), pipe_id);
    } else {
        lemma_pipes_kept(*reading, *final(reading));
    }
    assert(writing@.contains_key(pipe_id) == writing.buffers@.contains_key(pipe_id));
    if writing.buffers@.contains_key(pipe_id) {
        let before = writing.buffers@[pipe_id];
        let after = final(writing).buffers@[pipe_id];
        assert(writing@[pipe_id] == before@);
        assert(final(writing)@ == writing@.insert(pipe_id, before@.after_write(bytes@).0));
        assert(final(writing)@.contains_key(pipe_id));
        assert(final(writing).buffers@.contains_key(pipe_id));
        assert(final(writing)@[pipe_id] == after@);
        lemma_written(before, after, bytes@, written);
        lemma_other_pipes(*writing, *final(writing), pipe_id);
    } else {
        lemma_pipes_kept(*writing, *final(writing));
    }
    assert(closing@.contains_key(pipe_id) == closing.buffers@.contains_key(pipe_id));
    if closing.buffers@.contains_key(pipe_id) {
        let before = closing.buffers@[pipe_id];
        let after = final(closing).buffers@[pipe_id];
        assert(closing@[pipe_id] == before@);
        assert(final(closing)@ == closing@.insert(pipe_id, before@.after_close().0));
        assert(final(closing)@.contains_key(pipe_id));
        assert(final(closing).buffers@.contains_key(pipe_id));
        assert(final(closing)@[pipe_id] == after@);
        lemma_closed(before, after, closed);
        lemma_other_pipes(*closing, *final(closing), pipe_id);
    } else {
        lemma_pipes_kept(*closing, *final(closing));
    }
}

// ---------------------------------------------------------------------------
// From end to end
// ---------------------------------------------------------------------------

/// A worker that reads a pipe with bytes in it gets the oldest of them at the
/// front of its buffer, as many as are there and fit, and the pipe loses just
/// those. At the end of the file it gets none, and where there is nothing yet it
/// waits. This is for reads of less than two gigabytes that fit into the shared
/// buffer.
pub proof fn law_readers_get_the_oldest_bytes(
    rx: &SimplePipeRx,
    worker_id: u32,
    capacity: usize,
    request: Result<SchedulerMessage, PipeError>,
    state: &mut SchedulerState,
    shared: &mut SharedState,
    action: Action,
    before: Seq<u8>,
    buffer: &[u8],
    buf: &mut [u8],
    read: Result<usize, PipeError>,
)
    requires
        call_ensures(SimplePipeRx::read_request, (rx, Some(worker_id), capacity), request),
        starting::has_worker(state, worker_id),
        shared.pipes.buffers@.contains_key(rx.pipe_id),
        call_ensures(SchedulerState::execute, (state, shared, request->Ok_0), action),
        capacity < 0x8000_0000,
        buf@.len() == capacity,
        before.len() >= 64 + capacity,
        buffer@ == answers::all_carried_out(before, action->stores@),
        call_ensures(SimplePipeRx::read_blocking, (rx, WaitOutcome::Woken(buffer), buf), read),
    ensures
        request is Ok,
        ({
            let pipe = old(shared).pipes.buffers@[rx.pipe_id];
            let left = final(shared).pipes.buffers@[rx.pipe_id];
            &&& final(shared).pipes.buffers@.contains_key(rx.pipe_id)
            &&& other_pipes_kept(old(shared).pipes, final(shared).pipes, rx.pipe_id)
            &&& final(state)@ == old(state)@
            &&& pipe.data@.len() > 0 ==> {
                &&& action is Store && action->Store_worker_id == worker_id
                &&& read is Ok
                &&& read->Ok_0 <= capacity
                &&& took_oldest(
                    pipe.data@,
                    capacity as u32,
                    final(buf)@.take(read->Ok_0 as int),
                    left.data@,
                )
                &&& forall|i: int|
                    read->Ok_0 <= i < capacity ==> #[trigger] final(buf)@[i] == old(buf)@[i]
            }
            &&& pipe.data@.len() == 0 && pipe.closed ==> {
                &&& action is Store && action->Store_worker_id == worker_id
                &&& read == Ok::<usize, PipeError>(0)
                &&& final(buf)@ == old(buf)@
            }
            &&& pipe.data@.len() == 0 && !pipe.closed ==> {
                &&& action is Done
                &&& left.pending_read == Some((worker_id, capacity as u32))
            }
        }),
{
    let pipe = shared.pipes.buffers@[rx.pipe_id];
    let left = final(shared).pipes.buffers@[rx.pipe_id];
    starting::lemma_has_worker(state, worker_id);
    assert(shared.pipes@.contains_key(rx.pipe_id));
    assert(shared.pipes@[rx.pipe_id] == pipe@);
    assert(final(shared).pipes@.contains_key(rx.pipe_id));
    assert(final(shared).pipes@[rx.pipe_id] == left@);
    lemma_other_pipes(shared.pipes, final(shared).pipes, rx.pipe_id);
    answers::lemma_all_carried_out(before, action->stores@);
    if pipe.data@.len() > 0 {
        let data = pipe@.taken(capacity as u32);
        pipes::law_reader_gets_what_the_scheduler_sends(
            before,
            buffer,
            Some(data),
            capacity as nat,
        );
        assert(final(buf)@.take(read->Ok_0 as int) =~= data);
    } else if pipe.closed {
        pipes::law_reader_gets_what_the_scheduler_sends(before, buffer, None, capacity as nat);
        assert(final(buf)@ =~= buf@);
    }
}

/// A worker that writes sends all of its bytes, and they come after those that
/// are in the pipe. A read that waits gets as many as it takes, at once.
pub proof fn law_writers_append_all_their_bytes(
    tx: &SimplePipeTx,
    worker_id: Option<u32>,
    data: &[u8],
    writing: Writing,
    state: &mut SchedulerState,
    shared: &mut SharedState,
    action: Action,
    before: Seq<u8>,
    buffer: &[u8],
    rx: &SimplePipeRx,
    buf: &mut [u8],
    read: Result<usize, PipeError>,
)
    requires
        call_ensures(SimplePipeTx::write_data, (tx, worker_id, data), writing),
        data@.len() > 0,
        shared.pipes.buffers@.contains_key(tx.pipe_id),
        call_ensures(SchedulerState::execute, (state, shared, writing->Emit_0), action),
        shared.pipes.buffers@[tx.pipe_id].pending_read matches Some((reader, max_len)) ==> {
            &&& starting::has_worker(state, reader)
            &&& max_len < 0x8000_0000
            &&& buf@.len() == max_len
            &&& before.len() >= 64 + max_len
        },
        buffer@ == answers::all_carried_out(before, action->stores@),
        buffer@.len() >= 8,
        call_ensures(SimplePipeRx::read_blocking, (rx, WaitOutcome::Woken(buffer), buf), read),
    ensures
        writing is Emit,
        ({
            let pipe = old(shared).pipes.buffers@[tx.pipe_id];
            let after = final(shared).pipes.buffers@[tx.pipe_id];
            &&& final(shared).pipes.buffers@.contains_key(tx.pipe_id)
            &&& other_pipes_kept(old(shared).pipes, final(shared).pipes, tx.pipe_id)
            &&& final(state)@ == old(state)@
            &&& after.closed == pipe.closed
            &&& after.pending_read is None
            &&& pipe.pending_read is None ==> {
                &&& action is Done
                &&& after.data@ == pipe.data@ + data@
            }
            &&& pipe.pending_read is Some ==> {
                &&& action is Store && action->Store_worker_id == (pipe.pending_read->0).0
                &&& read is Ok
                &&& read->Ok_0 <= old(buf)@.len()
                &&& took_oldest(
                    pipe.data@ + data@,
                    (pipe.pending_read->0).1,
                    final(buf)@.take(read->Ok_0 as int),
                    after.data@,
                )
            }
        }),
{
    let pipe = shared.pipes.buffers@[tx.pipe_id];
    let after = final(shared).pipes.buffers@[tx.pipe_id];
    assert(shared.pipes@.contains_key(tx.pipe_id));
    assert(shared.pipes@[tx.pipe_id] == pipe@);
    assert(final(shared).pipes@.contains_key(tx.pipe_id));
    assert(final(shared).pipes@[tx.pipe_id] == after@);
    lemma_other_pipes(shared.pipes, final(shared).pipes, tx.pipe_id);
    answers::lemma_all_carried_out(before, action->stores@);
    if let Some((reader, max_len)) = pipe.pending_read {
        starting::lemma_has_worker(state, reader);
        let all = buffers::PipeView { data: pipe.data@ + data@, pending_read: None, ..pipe@ };
        let taken = all.taken(max_len);
        pipes::law_reader_gets_what_the_scheduler_sends(
            before,
            buffer,
            Some(taken),
            max_len as nat,
        );
        assert(final(buf)@.take(read->Ok_0 as int) =~= taken);
    }
}

/// Creating a pipe registers it under an id of its own, open and empty; both of
/// its ends have that id. Closing it keeps what was written, and a read that
/// waits learns of the end.
pub proof fn law_pipes_are_created_and_closed(
    counter: &mut IdCounter,
    worker_id: Option<u32>,
    made: (SimplePipe, SchedulerMessage),
    ends: (SimplePipeTx, SimplePipeRx),
    state: &mut SchedulerState,
    shared: &mut SharedState,
    created: Action,
    tx: &SimplePipeTx,
    close: SchedulerMessage,
    closing: &mut SharedState,
    closed: Action,
    before: Seq<u8>,
    buffer: &[u8],
    buf: &mut [u8],
    read: Result<usize, PipeError>,
)
    requires
        call_ensures(SimplePipe::new, (counter, worker_id), made),
        call_ensures(SimplePipe::split, (made.0,), ends),
        call_ensures(SchedulerState::execute, (state, shared, made.1), created),
        call_ensures(SimplePipeTx::close, (tx, worker_id), close),
        closing.pipes.buffers@.contains_key(tx.pipe_id),
        call_ensures(SchedulerState::execute, (state, closing, close), closed),
        closing.pipes.buffers@[tx.pipe_id].pending_read matches Some((reader, _)) ==>
            starting::has_worker(state, reader) && before.len() >= 64,
        buffer@ == answers::all_carried_out(before, closed->stores@),
        buffer@.len() >= 8,
        call_ensures(
            SimplePipeRx::read_blocking,
            (&ends.1, WaitOutcome::Woken(buffer), buf),
            read,
        ),
    ensures
        made.0.pipe_id == old(counter).next,
        ends.0.pipe_id == made.0.pipe_id && ends.1.pipe_id == made.0.pipe_id,
        created is Done,
        final(shared).pipes.buffers@.contains_key(made.0.pipe_id),
        ({
            let pipe = final(shared).pipes.buffers@[made.0.pipe_id];
            pipe.data@.len() == 0 && !pipe.closed && pipe.pending_read is None
        }),
        other_pipes_kept(old(shared).pipes, final(shared).pipes, made.0.pipe_id),
        ({
            let pipe = old(closing).pipes.buffers@[tx.pipe_id];
            let after = final(closing).pipes.buffers@[tx.pipe_id];
            &&& final(closing).pipes.buffers@.contains_key(tx.pipe_id)
            &&& other_pipes_kept(old(closing).pipes, final(closing).pipes, tx.pipe_id)
            &&& after.closed
            &&& after.data@ == pipe.data@
            &&& after.pending_read is None
            &&& pipe.pending_read is None ==> closed is Done
            &&& pipe.pending_read is Some ==> {
                &&& closed is Store && closed->Store_worker_id == (pipe.pending_read->0).0
                &&& read == Ok::<usize, PipeError>(0)
                &&& final(buf)@ == old(buf)@
            }
        }),
{
    let pipe = closing.pipes.buffers@[tx.pipe_id];
    let after = final(closing).pipes.buffers@[tx.pipe_id];
    assert(final(shared).pipes@.contains_key(made.0.pipe_id));
    assert(final(shared).pipes@[made.0.pipe_id] == final(
        shared).pipes.buffers@[made.0.pipe_id]@);
    lemma_other_pipes(shared.pipes, final(shared).pipes, made.0.pipe_id);
    assert(closing.pipes@.contains_key(tx.pipe_id));
    assert(closing.pipes@[tx.pipe_id] == pipe@);
    assert(final(closing).pipes@.contains_key(tx.pipe_id));
    assert(final(closing).pipes@[tx.pipe_id] == after@);
    lemma_other_pipes(closing.pipes, final(closing).pipes, tx.pipe_id);
    answers::lemma_all_carried_out(before, closed->stores@);
    if let Some((reader, _)) = pipe.pending_read {
        starting::lemma_has_worker(state, reader);
        pipes::law_reader_gets_what_the_scheduler_sends(before, buffer, None, buf@.len());
        assert(final(buf)@ =~= buf@);
    }
}

/// Messages about pipes name their sender, or 0 where there is no worker, and the
/// pipe that they concern. Only a worker can read, and no bytes are not sent.
pub proof fn law_pipe_messages_name_pipe_and_sender(
    counter: &mut IdCounter,
    tx: &SimplePipeTx,
    rx: &SimplePipeRx,
    worker_id: Option<u32>,
    data: &[u8],
    capacity: usize,
    made: (SimplePipe, SchedulerMessage),
    writing: Writing,
    close: SchedulerMessage,
    request: Result<SchedulerMessage, PipeError>,
)
    requires
        call_ensures(SimplePipe::new, (counter, worker_id), made),
        call_ensures(SimplePipeTx::write_data, (tx, worker_id, data), writing),
        call_ensures(SimplePipeTx::close, (tx, worker_id), close),
        call_ensures(SimplePipeRx::read_request, (rx, worker_id, capacity), request),
    ensures
        ({
            let sender: u32 = match worker_id {
                Some(worker_id) => worker_id,
                None => 0,
            };
            &&& made.1 == (SchedulerMessage::PipeCreate {
                pipe_id: made.0.pipe_id,
                worker_id: sender,
            })
            &&& close == (SchedulerMessage::PipeClose { pipe_id: tx.pipe_id, worker_id: sender })
            &&& data@.len() == 0 ==> writing is Done
            &&& data@.len() > 0 ==> (writing matches Writing::Emit(
                SchedulerMessage::PipeWrite { pipe_id, worker_id: from, data: sent },
            ) && pipe_id == tx.pipe_id && from == sender && sent@ == data@)
        }),
        worker_id is Some ==> (request matches Ok(
            SchedulerMessage::PipeRead { pipe_id, worker_id: from, max_len },
        ) && pipe_id == rx.pipe_id && from == worker_id->0 && numbers::same_word(
            max_len as int,
            capacity as int,
        )),
        worker_id is None ==> (request matches Err(e) && e.kind is Other && e.message@
            == "Worker ID not set"@),
        final(counter).next == (if old(counter).next == u64::MAX {
            0
        } else {
            old(counter).next + 1
        }),
{
}

/// A write reports all of its bytes as written if its message was sent, and that
/// the pipe is broken if it was not. Failed reads say what failed and leave the
/// reader's buffer as it is.
pub proof fn law_failures_of_pipes_are_reported(
    tx: &SimplePipeTx,
    len: usize,
    cause: String,
    sent: Result<usize, PipeError>,
    unsent: Result<usize, PipeError>,
    rx: &SimplePipeRx,
    buf: &mut [u8],
    unread: Result<usize, PipeError>,
    no_buf: &mut [u8],
    unset: Result<usize, PipeError>,
    bad_buf: &mut [u8],
    unusable: Result<usize, PipeError>,
    odd: &[u8],
    odd_buf: &mut [u8],
    strange: Result<usize, PipeError>,
)
    requires
        call_ensures(SimplePipeTx::written, (tx, len, Ok(())), sent),
        call_ensures(SimplePipeTx::written, (tx, len, Err(cause)), unsent),
        call_ensures(SimplePipeRx::read_blocking, (rx, WaitOutcome::NotSent(cause), buf), unread),
        call_ensures(SimplePipeRx::read_blocking, (rx, WaitOutcome::NoBuffer, no_buf), unset),
        call_ensures(
            SimplePipeRx::read_blocking,
            (rx, WaitOutcome::BufferFailed(cause), bad_buf),
            unusable,
        ),
        odd@.len() >= 8,
        numbers::word_of(odd@, 0) != 1 && numbers::word_of(odd@, 0) != 2,
        call_ensures(SimplePipeRx::read_blocking, (rx, WaitOutcome::Woken(odd), odd_buf), strange),
    ensures
        sent == Ok::<usize, PipeError>(len),
        unsent matches Err(e) && e.kind is BrokenPipe && e.message@ == cause@,
        unread matches Err(e) && e.kind is BrokenPipe && e.message@ == cause@,
        unset matches Err(e) && e.kind is Other && e.message@ == "Host exec buffer not initialized"@,
        unusable matches Err(e) && e.kind is Other && e.message@ == cause@,
        strange matches Err(e) && e.kind is BrokenPipe && e.message@ == "Pipe error"@,
        final(buf)@ == old(buf)@,
        final(no_buf)@ == old(no_buf)@,
        final(bad_buf)@ == old(bad_buf)@,
        final(odd_buf)@ == old(odd_buf)@,
{
    answers::lemma_word_at(odd@, 0);
    assert(final(buf)@ =~= buf@);
    assert(final(no_buf)@ =~= no_buf@);
    assert(final(bad_buf)@ =~= bad_buf@);
    assert(final(odd_buf)@ =~= odd_buf@);
}

/// A handle on a pipe and its ends all name the same pipe, however they are
/// made.
pub proof fn law_ends_name_their_pipe(
    pipe_id: u64,
    pipe: SimplePipe,
    id: u64,
    tx: SimplePipeTx,
    rx: SimplePipeRx,
    given_tx: SimplePipeTx,
    given_rx: SimplePipeRx,
    tx_id: u64,
    rx_id: u64,
)
    requires
        call_ensures(SimplePipe::from_id, (pipe_id,), pipe),
        call_ensures(SimplePipe::id, (&pipe,), id),
        call_ensures(SimplePipe::tx, (&pipe,), tx),
        call_ensures(SimplePipe::rx, (&pipe,), rx),
        call_ensures(SimplePipeTx::from_id, (pipe_id,), given_tx),
        call_ensures(SimplePipeRx::from_id, (pipe_id,), given_rx),
        call_ensures(SimplePipeTx::id, (&tx,), tx_id),
        call_ensures(SimplePipeRx::id, (&rx,), rx_id),
    ensures
        id == pipe_id,
        tx.pipe_id == pipe_id && rx.pipe_id == pipe_id,
        given_tx.pipe_id == pipe_id && given_rx.pipe_id == pipe_id,
        tx_id == pipe_id && rx_id == pipe_id,
{
}

} // verus!
