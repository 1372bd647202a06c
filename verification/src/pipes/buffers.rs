//! The bytes that are on their way through pipes, as the scheduler keeps them.
//!
//! All pipe traffic goes through the scheduler. Workers hold nothing but the
//! id of a pipe; its bytes wait here until they are read.
use std::collections::{HashMap, VecDeque};
use vstd::prelude::*;

verus! {

broadcast use vstd::std_specs::hash::group_hash_axioms;

/// One pipe.
#[derive(Debug)]
pub struct PipeBuffer {
    /// Bytes that have been written and not read, oldest first.
    pub data: VecDeque<u8>,
    /// Whether the write end has been closed.
    pub closed: bool,
    /// The read that waits for data: its worker and the most it takes.
    pub pending_read: Option<(u32, u32)>,
}

/// What a [`PipeBuffer`] says.
#[verifier::ext_equal]
pub struct PipeView {
    pub data: Seq<u8>,
    pub closed: bool,
    pub pending_read: Option<(u32, u32)>,
}

impl View for PipeBuffer {
    type V = PipeView;

    open spec fn view(&self) -> PipeView {
        PipeView { data: self.data@, closed: self.closed, pending_read: self.pending_read }
    }
}

/// The answer to a read: data, or the end of the file.
#[derive(Debug)]
pub struct PipeAnswer {
    pub worker_id: u32,
    pub data: Option<Vec<u8>>,
}

/// What a [`PipeAnswer`] says.
pub struct AnswerView {
    pub worker_id: u32,
    pub data: Option<Seq<u8>>,
}

impl View for PipeAnswer {
    type V = AnswerView;

    open spec fn view(&self) -> AnswerView {
        AnswerView {
            worker_id: self.worker_id,
            data: match self.data {
                Some(data) => Some(data@),
                None => None,
            },
        }
    }
}

/// What an optional [`PipeAnswer`] says.
pub open spec fn optional_answer(answer: Option<PipeAnswer>) -> Option<AnswerView> {
    match answer {
        Some(answer) => Some(answer@),
        None => None,
    }
}

/// How many of `len` bytes a read gets that takes at most `max_len`.
pub open spec fn taken_len(len: nat, max_len: u32) -> int {
    if len <= max_len {
        len as int
    } else {
        max_len as int
    }
}

impl PipeView {
    /// A pipe that has just been created.
    pub open spec fn fresh() -> PipeView {
        PipeView { data: Seq::empty(), closed: false, pending_read: None }
    }

    /// A read waits only while the pipe is open and empty.
    pub open spec fn well_formed(self) -> bool {
        self.pending_read is Some ==> self.data.len() == 0 && !self.closed
    }

    /// The pipe without the bytes that a read takes.
    pub open spec fn drained(self, max_len: u32) -> PipeView {
        PipeView { data: self.data.skip(taken_len(self.data.len(), max_len)), ..self }
    }

    /// The bytes that a read takes.
    pub open spec fn taken(self, max_len: u32) -> Seq<u8> {
        self.data.take(taken_len(self.data.len(), max_len))
    }

    /// Bytes are written: they are kept, and a waiting read gets what it takes.
    pub open spec fn after_write(self, bytes: Seq<u8>) -> (PipeView, Option<AnswerView>) {
        let written = PipeView { data: self.data + bytes, pending_read: None, ..self };
        match self.pending_read {
            Some((worker_id, max_len)) => (
                written.drained(max_len),
                Some(AnswerView { worker_id, data: Some(written.taken(max_len)) }),
            ),
            None => (written, None),
        }
    }

    /// A worker reads: it gets bytes, or the end of the file, or it waits.
    pub open spec fn after_read(self, worker_id: u32, max_len: u32) -> (
        PipeView,
        Option<AnswerView>,
    ) {
        if self.data.len() > 0 {
            (
                self.drained(max_len),
                Some(AnswerView { worker_id, data: Some(self.taken(max_len)) }),
            )
        } else if self.closed {
            (self, Some(AnswerView { worker_id, data: None }))
        } else {
            (PipeView { pending_read: Some((worker_id, max_len)), ..self }, None)
        }
    }

    /// The write end is closed: a waiting read gets the end of the file.
    pub open spec fn after_close(self) -> (PipeView, Option<AnswerView>) {
        (
            PipeView { closed: true, pending_read: None, ..self },
            match self.pending_read {
                Some((worker_id, _)) => Some(AnswerView { worker_id, data: None }),
                None => None,
            },
        )
    }
}

/// Takes up to `max_len` bytes from the front of a queue.
fn drain(data: &mut VecDeque<u8>, max_len: u32) -> (r: Vec<u8>)
    ensures
        r@ == old(data)@.take(taken_len(old(data)@.len(), max_len)),
        final(data)@ == old(data)@.skip(taken_len(old(data)@.len(), max_len)),
{
    let ghost before = data@;
    let n: usize = if data.len() <= max_len as usize {
        data.len()
    } else {
        max_len as usize
    };
    let mut taken: Vec<u8> = Vec::new();
    assert(before.take(0) =~= Seq::empty());
    assert(before.skip(0) =~= before);
    while taken.len() < n
        invariant
            n == taken_len(before.len(), max_len),
            taken@.len() <= n <= before.len(),
            taken@ == before.take(taken@.len() as int),
            data@ == before.skip(taken@.len() as int),
        decreases n - taken@.len(),
    {
        let ghost done = taken@.len() as int;
        if let Some(byte) = data.pop_front() {
            taken.push(byte);
        }
        assert(taken@ =~= before.take(done + 1));
        assert(data@ =~= before.skip(done + 1));
    }
    taken
}

impl PipeBuffer {
    /// A pipe that has just been created.
    pub fn new() -> (r: PipeBuffer)
        ensures
            r@ == PipeView::fresh(),
    {
        PipeBuffer { data: VecDeque::new(), closed: false, pending_read: None }
    }

    /// Writes bytes.
    pub fn write(&mut self, bytes: Vec<u8>) -> (r: Option<PipeAnswer>)
        ensures
            (final(self)@, optional_answer(r)) == old(self)@.after_write(bytes@),
    {
        let mut i: usize = 0;
        assert(bytes@.take(0) =~= Seq::empty());
        while i < bytes.len()
            invariant
                i <= bytes@.len(),
                self.data@ == old(self).data@ + bytes@.take(i as int),
                self.closed == old(self).closed,
                self.pending_read == old(self).pending_read,
            decreases bytes@.len() - i,
        {
            self.data.push_back(bytes[i]);
            assert(bytes@.take(i as int).push(bytes@[i as int]) =~= bytes@.take(i + 1));
            i = i + 1;
        }
        assert(bytes@.take(i as int) =~= bytes@);
        match self.pending_read {
            Some((worker_id, max_len)) => {
                self.pending_read = None;
                let taken = drain(&mut self.data, max_len);
                Some(PipeAnswer { worker_id, data: Some(taken) })
            },
            None => None,
        }
    }

    /// Reads bytes.
    pub fn read(&mut self, worker_id: u32, max_len: u32) -> (r: Option<PipeAnswer>)
        ensures
            (final(self)@, optional_answer(r)) == old(self)@.after_read(worker_id, max_len),
    {
        if self.data.len() > 0 {
            let taken = drain(&mut self.data, max_len);
            Some(PipeAnswer { worker_id, data: Some(taken) })
        } else if self.closed {
            Some(PipeAnswer { worker_id, data: None })
        } else {
            self.pending_read = Some((worker_id, max_len));
            None
        }
    }

    /// Closes the write end.
    pub fn close(&mut self) -> (r: Option<PipeAnswer>)
        ensures
            (final(self)@, optional_answer(r)) == old(self)@.after_close(),
    {
        self.closed = true;
        match self.pending_read {
            Some((worker_id, _)) => {
                self.pending_read = None;
                Some(PipeAnswer { worker_id, data: None })
            },
            None => None,
        }
    }
}

/// All pipes, by id.
#[derive(Debug)]
pub struct PipeBuffers {
    pub buffers: HashMap<u64, PipeBuffer>,
}

/// What [`PipeBuffers`] hold.
pub type PipesView = Map<u64, PipeView>;

impl View for PipeBuffers {
    type V = PipesView;

    open spec fn view(&self) -> PipesView {
        self.buffers@.map_values(|buffer: PipeBuffer| buffer@)
    }
}

/// The pipes after a write. Nothing is written to a pipe that does not exist.
pub open spec fn pipes_after_write(pipes: PipesView, pipe_id: u64, bytes: Seq<u8>) -> (
    PipesView,
    Option<AnswerView>,
) {
    if pipes.contains_key(pipe_id) {
        let (pipe, answer) = pipes[pipe_id].after_write(bytes);
        (pipes.insert(pipe_id, pipe), answer)
    } else {
        (pipes, None)
    }
}

/// The pipes after a read. A read from a pipe that does not exist is not
/// answered.
pub open spec fn pipes_after_read(
    pipes: PipesView,
    pipe_id: u64,
    worker_id: u32,
    max_len: u32,
) -> (PipesView, Option<AnswerView>) {
    if pipes.contains_key(pipe_id) {
        let (pipe, answer) = pipes[pipe_id].after_read(worker_id, max_len);
        (pipes.insert(pipe_id, pipe), answer)
    } else {
        (pipes, None)
    }
}

/// The pipes after a close. A pipe that does not exist is not closed.
pub open spec fn pipes_after_close(pipes: PipesView, pipe_id: u64) -> (
    PipesView,
    Option<AnswerView>,
) {
    if pipes.contains_key(pipe_id) {
        let (pipe, answer) = pipes[pipe_id].after_close();
        (pipes.insert(pipe_id, pipe), answer)
    } else {
        (pipes, None)
    }
}

impl PipeBuffers {
    /// No pipes.
    pub fn new() -> (r: PipeBuffers)
        ensures
            r@ == Map::<u64, PipeView>::empty(),
    {
        let r = PipeBuffers { buffers: HashMap::new() };
        assert(r@ =~= Map::<u64, PipeView>::empty());
        r
    }

    /// Creates a pipe. One with the same id is replaced.
    pub fn create(&mut self, pipe_id: u64)
        ensures
            final(self)@ == old(self)@.insert(pipe_id, PipeView::fresh()),
    {
        self.buffers.insert(pipe_id, PipeBuffer::new());
        assert(self@ =~= old(self)@.insert(pipe_id, PipeView::fresh()));
    }

    /// Writes bytes to a pipe.
    pub fn write(&mut self, pipe_id: u64, bytes: Vec<u8>) -> (r: Option<PipeAnswer>)
        ensures
            (final(self)@, optional_answer(r)) == pipes_after_write(old(self)@, pipe_id, bytes@),
    {
        match self.buffers.remove(&pipe_id) {
            Some(buffer) => {
                let mut buffer = buffer;
                let answer = buffer.write(bytes);
                self.buffers.insert(pipe_id, buffer);
                assert(self@ =~= pipes_after_write(old(self)@, pipe_id, bytes@).0);
                answer
            },
            None => {
                assert(self.buffers@ =~= old(self).buffers@);
                None
            },
        }
    }

    /// Reads bytes from a pipe.
    pub fn read(&mut self, pipe_id: u64, worker_id: u32, max_len: u32) -> (r: Option<PipeAnswer>)
        ensures
            (final(self)@, optional_answer(r)) == pipes_after_read(
                old(self)@,
                pipe_id,
                worker_id,
                max_len,
            ),
    {
        match self.buffers.remove(&pipe_id) {
            Some(buffer) => {
                let mut buffer = buffer;
                let answer = buffer.read(worker_id, max_len);
                self.buffers.insert(pipe_id, buffer);
                assert(self@ =~= pipes_after_read(old(self)@, pipe_id, worker_id, max_len).0);
                answer
            },
            None => {
                assert(self.buffers@ =~= old(self).buffers@);
                None
            },
        }
    }

    /// Closes the write end of a pipe.
    pub fn close(&mut self, pipe_id: u64) -> (r: Option<PipeAnswer>)
        ensures
            (final(self)@, optional_answer(r)) == pipes_after_close(old(self)@, pipe_id),
    {
        match self.buffers.remove(&pipe_id) {
            Some(buffer) => {
                let mut buffer = buffer;
                let answer = buffer.close();
                self.buffers.insert(pipe_id, buffer);
                assert(self@ =~= pipes_after_close(old(self)@, pipe_id).0);
                answer
            },
            None => {
                assert(self.buffers@ =~= old(self).buffers@);
                None
            },
        }
    }
}

// ---------------------------------------------------------------------------
// Laws
// ---------------------------------------------------------------------------

/// One thing that happens to a pipe.
pub enum PipeEvent {
    Write { bytes: Seq<u8> },
    Read { worker_id: u32, max_len: u32 },
    Close,
}

/// A pipe after an event, and the answer that the event gives.
pub open spec fn after_event(pipe: PipeView, event: PipeEvent) -> (PipeView, Option<AnswerView>) {
    match event {
        PipeEvent::Write { bytes } => pipe.after_write(bytes),
        PipeEvent::Read { worker_id, max_len } => pipe.after_read(worker_id, max_len),
        PipeEvent::Close => pipe.after_close(),
    }
}

/// A pipe after a run of events that starts with its creation.
pub open spec fn after_events(events: Seq<PipeEvent>) -> PipeView
    decreases events.len(),
{
    if events.len() == 0 {
        PipeView::fresh()
    } else {
        after_event(after_events(events.drop_last()), events.last()).0
    }
}

/// All bytes that were written in a run of events.
pub open spec fn written(events: Seq<PipeEvent>) -> Seq<u8>
    decreases events.len(),
{
    if events.len() == 0 {
        Seq::empty()
    } else {
        written(events.drop_last()) + (match events.last() {
            PipeEvent::Write { bytes } => bytes,
            _ => Seq::empty(),
        })
    }
}

/// The bytes in an answer.
pub open spec fn answered_bytes(answer: Option<AnswerView>) -> Seq<u8> {
    match answer {
        Some(AnswerView { data: Some(data), .. }) => data,
        _ => Seq::empty(),
    }
}

/// All bytes that were read in a run of events.
pub open spec fn delivered(events: Seq<PipeEvent>) -> Seq<u8>
    decreases events.len(),
{
    if events.len() == 0 {
        Seq::empty()
    } else {
        delivered(events.drop_last()) + answered_bytes(
            after_event(after_events(events.drop_last()), events.last()).1,
        )
    }
}

/// Reads wait only while the pipe is open and empty, whatever happens.
pub proof fn law_reads_wait_only_on_an_open_empty_pipe(events: Seq<PipeEvent>)
    ensures
        after_events(events).well_formed(),
    decreases events.len(),
{
    if events.len() > 0 {
        law_reads_wait_only_on_an_open_empty_pipe(events.drop_last());
    }
}

/// No byte is lost, duplicated or reordered: in any run of events, what was
/// read followed by what is still buffered is everything that was written.
pub proof fn law_pipe_is_first_in_first_out(events: Seq<PipeEvent>)
    ensures
        delivered(events) + after_events(events).data == written(events),
    decreases events.len(),
{
    if events.len() > 0 {
        let rest = events.drop_last();
        let before = after_events(rest);
        let (after, answer) = after_event(before, events.last());
        law_pipe_is_first_in_first_out(rest);
        let added = match events.last() {
            PipeEvent::Write { bytes } => bytes,
            _ => Seq::empty(),
        };
        assert(answered_bytes(answer) + after.data =~= before.data + added);
        assert(delivered(events) + after.data =~= delivered(rest) + (answered_bytes(answer)
            + after.data));
        assert(written(events) =~= (delivered(rest) + before.data) + added);
    } else {
        assert(delivered(events) + after_events(events).data =~= written(events));
    }
}

/// A reader is told of the end of the file only when the write end is closed
/// and every byte that was written has been read.
pub proof fn law_end_of_file_follows_all_bytes(events: Seq<PipeEvent>, event: PipeEvent)
    requires
        ({
            let answer = after_event(after_events(events), event).1;
            answer is Some && answer->0.data is None
        }),
    ensures
        delivered(events) == written(events),
        after_event(after_events(events), event).0.closed,
{
    law_pipe_is_first_in_first_out(events);
    law_reads_wait_only_on_an_open_empty_pipe(events);
    assert(delivered(events) + Seq::<u8>::empty() =~= delivered(events));
    assert(after_events(events).data =~= Seq::empty());
}

/// No read gets more than it takes.
pub proof fn law_reads_are_bounded(pipe: PipeView, worker_id: u32, max_len: u32, bytes: Seq<u8>)
    ensures
        answered_bytes(pipe.after_read(worker_id, max_len).1).len() <= max_len,
        pipe.pending_read == Some((worker_id, max_len)) ==> answered_bytes(
            pipe.after_write(bytes).1,
        ).len() <= max_len,
{
}

/// What happens to one pipe leaves the others alone.
pub proof fn law_pipes_are_independent(
    pipes: PipesView,
    pipe_id: u64,
    other: u64,
    bytes: Seq<u8>,
    worker_id: u32,
    max_len: u32,
)
    requires
        pipe_id != other,
    ensures
        pipes_after_write(pipes, pipe_id, bytes).0.contains_key(other) == pipes.contains_key(other),
        pipes_after_write(pipes, pipe_id, bytes).0[other] == pipes[other],
        pipes_after_read(pipes, pipe_id, worker_id, max_len).0.contains_key(other)
            == pipes.contains_key(other),
        pipes_after_read(pipes, pipe_id, worker_id, max_len).0[other] == pipes[other],
        pipes_after_close(pipes, pipe_id).0.contains_key(other) == pipes.contains_key(other),
        pipes_after_close(pipes, pipe_id).0[other] == pipes[other],
{
}

} // verus!
