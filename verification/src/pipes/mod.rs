//! Pipes between programs on different workers.
//!
//! All pipe traffic is routed through the scheduler. This trades some latency
//! for simplicity and correctness: a worker holds nothing of a pipe but its id.
pub mod buffers;
pub mod extract;
pub mod pool;

use vstd::prelude::*;
use crate::ids;
use crate::ids::IdCounter;
use crate::response;
use crate::tasks::scheduler_message::{MessageView, SchedulerMessage};

verus! {

/// A pipe that routes all traffic through the scheduler.
#[derive(Debug)]
pub struct SimplePipe {
    pub pipe_id: u64,
}

/// The write end of a [`SimplePipe`].
#[derive(Debug)]
pub struct SimplePipeTx {
    pub pipe_id: u64,
}

impl Clone for SimplePipeTx {
    fn clone(&self) -> (r: SimplePipeTx)
        ensures
            r == *self,
    {
        SimplePipeTx { pipe_id: self.pipe_id }
    }
}

/// The read end of a [`SimplePipe`].
#[derive(Debug)]
pub struct SimplePipeRx {
    pub pipe_id: u64,
}

impl Clone for SimplePipeRx {
    fn clone(&self) -> (r: SimplePipeRx)
        ensures
            r == *self,
    {
        SimplePipeRx { pipe_id: self.pipe_id }
    }
}

/// The sort of a [`PipeError`].
#[derive(Debug, Clone, Copy, PartialEq, Eq)]
pub enum PipeErrorKind {
    BrokenPipe,
    InvalidInput,
    Other,
}

/// Why an operation on a pipe failed.
#[derive(Debug)]
pub struct PipeError {
    pub kind: PipeErrorKind,
    pub message: String,
}

/// What a [`PipeError`] says.
pub struct PipeErrorView {
    pub kind: PipeErrorKind,
    pub message: Seq<char>,
}

impl View for PipeError {
    type V = PipeErrorView;

    open spec fn view(&self) -> PipeErrorView {
        PipeErrorView { kind: self.kind, message: self.message@ }
    }
}

/// What the result of an operation on a pipe says.
pub open spec fn result_view<T>(result: Result<T, PipeError>) -> Result<T, PipeErrorView> {
    match result {
        Ok(value) => Ok(value),
        Err(error) => Err(error@),
    }
}

/// What to do about a write.
#[derive(Debug)]
pub enum Writing {
    /// Nothing: there are no bytes to write.
    Done,
    /// Send the scheduler a message. The outcome goes to
    /// [`SimplePipeTx::written`].
    Emit(SchedulerMessage),
}

/// The worker that messages name as their sender: 0 outside of a worker.
pub open spec fn sender(worker_id: Option<u32>) -> u32 {
    match worker_id {
        Some(worker_id) => worker_id,
        None => 0,
    }
}

fn sender_of(worker_id: Option<u32>) -> (r: u32)
    ensures
        r == sender(worker_id),
{
    match worker_id {
        Some(worker_id) => worker_id,
        None => 0,
    }
}

impl SimplePipe {
    /// A new pipe with an id of its own, and the message that registers it with
    /// the scheduler.
    pub fn new(pipe_ids: &mut IdCounter, worker_id: Option<u32>) -> (r: (
        SimplePipe,
        SchedulerMessage,
    ))
        ensures
            r.0.pipe_id == old(pipe_ids).next,
            final(pipe_ids).next == ids::nth_id(old(pipe_ids).next, 1),
            old(pipe_ids).next < u64::MAX ==> r.0.pipe_id < final(pipe_ids).next,
            r.1@ == (MessageView::PipeCreate {
                pipe_id: r.0.pipe_id,
                worker_id: sender(worker_id),
            }),
    {
        let pipe_id = pipe_ids.allocate();
        (
            SimplePipe { pipe_id },
            SchedulerMessage::PipeCreate { pipe_id, worker_id: sender_of(worker_id) },
        )
    }

    /// A handle on a pipe that exists.
    pub fn from_id(pipe_id: u64) -> (r: SimplePipe)
        ensures
            r.pipe_id == pipe_id,
    {
        SimplePipe { pipe_id }
    }

    /// The pipe's id.
    pub fn id(&self) -> (r: u64)
        ensures
            r == self.pipe_id,
    {
        self.pipe_id
    }

    /// Both ends of the pipe.
    pub fn split(self) -> (r: (SimplePipeTx, SimplePipeRx))
        ensures
            r.0.pipe_id == self.pipe_id,
            r.1.pipe_id == self.pipe_id,
    {
        (SimplePipeTx { pipe_id: self.pipe_id }, SimplePipeRx { pipe_id: self.pipe_id })
    }

    /// The write end.
    pub fn tx(&self) -> (r: SimplePipeTx)
        ensures
            r.pipe_id == self.pipe_id,
    {
        SimplePipeTx { pipe_id: self.pipe_id }
    }

    /// The read end.
    pub fn rx(&self) -> (r: SimplePipeRx)
        ensures
            r.pipe_id == self.pipe_id,
    {
        SimplePipeRx { pipe_id: self.pipe_id }
    }
}

impl SimplePipeTx {
    /// The pipe's id.
    pub fn id(&self) -> (r: u64)
        ensures
            r == self.pipe_id,
    {
        self.pipe_id
    }

    /// The write end of a pipe that exists.
    pub fn from_id(pipe_id: u64) -> (r: SimplePipeTx)
        ensures
            r.pipe_id == pipe_id,
    {
        SimplePipeTx { pipe_id }
    }

    /// Writes bytes, all of them at once. Where there are none, the scheduler
    /// is not troubled.
    pub fn write_data(&self, worker_id: Option<u32>, data: &[u8]) -> (r: Writing)
        ensures
            match r {
                Writing::Done => data@.len() == 0,
                Writing::Emit(message) => data@.len() > 0 && message@ == (MessageView::PipeWrite {
                    pipe_id: self.pipe_id,
                    worker_id: sender(worker_id),
                    data: data@,
                }),
            },
    {
        if data.len() == 0 {
            return Writing::Done;
        }
        Writing::Emit(
            SchedulerMessage::PipeWrite {
                pipe_id: self.pipe_id,
                worker_id: sender_of(worker_id),
                data: vstd::slice::slice_to_vec(data),
            },
        )
    }

    /// The result of a write of `len` bytes, from whether its message could be
    /// sent.
    pub fn written(&self, len: usize, emitted: Result<(), String>) -> (r: Result<usize, PipeError>)
        ensures
            result_view(r) == (match emitted {
                Ok(_) => Ok(len),
                Err(e) => Err(PipeErrorView { kind: PipeErrorKind::BrokenPipe, message: e@ }),
            }),
    {
        match emitted {
            Ok(_) => Ok(len),
            Err(message) => Err(PipeError { kind: PipeErrorKind::BrokenPipe, message }),
        }
    }

    /// Closes the pipe: its readers get the end of the file once they have read
    /// everything.
    pub fn close(&self, worker_id: Option<u32>) -> (r: SchedulerMessage)
        ensures
            r@ == (MessageView::PipeClose {
                pipe_id: self.pipe_id,
                worker_id: sender(worker_id),
            }),
    {
        SchedulerMessage::PipeClose { pipe_id: self.pipe_id, worker_id: sender_of(worker_id) }
    }

    /// A write end cannot be read.
    pub fn poll_read(&self) -> (r: PipeError)
        ensures
            r@ == (PipeErrorView {
                kind: PipeErrorKind::InvalidInput,
                message: "Write-only pipe"@,
            }),
    {
        PipeError { kind: PipeErrorKind::InvalidInput, message: "Write-only pipe".to_owned() }
    }

    /// A write end never becomes readable.
    pub fn poll_read_ready(&self) -> (r: Result<usize, PipeError>)
        ensures
            result_view(r) == Err::<usize, PipeErrorView>(
                PipeErrorView { kind: PipeErrorKind::InvalidInput, message: "Write-only"@ },
            ),
    {
        Err(PipeError { kind: PipeErrorKind::InvalidInput, message: "Write-only".to_owned() })
    }

    /// A write end always takes more.
    pub fn poll_write_ready(&self) -> (r: Result<usize, PipeError>)
        ensures
            result_view(r) == Ok::<usize, PipeErrorView>(65536),
    {
        Ok(65536)
    }

    /// When a pipe was last read is not kept.
    pub fn last_accessed(&self) -> (r: u64)
        ensures
            r == 0,
    {
        0
    }

    /// When a pipe was last written is not kept.
    pub fn last_modified(&self) -> (r: u64)
        ensures
            r == 0,
    {
        0
    }

    /// When a pipe was created is not kept.
    pub fn created_time(&self) -> (r: u64)
        ensures
            r == 0,
    {
        0
    }

    /// A pipe has no size.
    pub fn size(&self) -> (r: u64)
        ensures
            r == 0,
    {
        0
    }

    /// A pipe end counts as open as long as it is there.
    pub fn is_open(&self) -> (r: bool)
        ensures
            r,
    {
        true
    }

    /// A pipe has no positions: seeking stays at the start.
    pub fn seek(&self) -> (r: u64)
        ensures
            r == 0,
    {
        0
    }
}

/// What came of asking the scheduler for data and waiting for it.
#[derive(Debug)]
pub enum WaitOutcome<'a> {
    /// The message could not be sent.
    NotSent(String),
    /// This thread has no shared buffer.
    NoBuffer,
    /// The shared buffer could not be used.
    BufferFailed(String),
    /// The wait is over; the shared buffer holds these bytes.
    Woken(&'a [u8]),
}

/// What a read gives, from what came of waiting for data.
pub open spec fn read_result(outcome: WaitOutcome, capacity: nat) -> Result<nat, PipeErrorView> {
    match outcome {
        WaitOutcome::NotSent(e) => Err(
            PipeErrorView { kind: PipeErrorKind::BrokenPipe, message: e@ },
        ),
        WaitOutcome::NoBuffer => Err(
            PipeErrorView {
                kind: PipeErrorKind::Other,
                message: "Host exec buffer not initialized"@,
            },
        ),
        WaitOutcome::BufferFailed(e) => Err(
            PipeErrorView { kind: PipeErrorKind::Other, message: e@ },
        ),
        WaitOutcome::Woken(buffer) => if response::word_at(buffer@, 0) == 1 {
            Ok(response::pipe_copied(buffer@, capacity))
        } else if response::word_at(buffer@, 0) == 2 {
            Ok(0)
        } else {
            Err(PipeErrorView { kind: PipeErrorKind::BrokenPipe, message: "Pipe error"@ })
        },
    }
}

/// The bytes that a read gives.
pub open spec fn read_bytes(outcome: WaitOutcome, capacity: nat) -> Seq<u8> {
    match outcome {
        WaitOutcome::Woken(buffer) => if response::word_at(buffer@, 0) == 1 {
            response::bytes_at(
                buffer@,
                response::PIPE_DATA_OFFSET as int,
                response::pipe_copied(buffer@, capacity),
            )
        } else {
            Seq::empty()
        },
        _ => Seq::empty(),
    }
}

impl SimplePipeRx {
    /// The pipe's id.
    pub fn id(&self) -> (r: u64)
        ensures
            r == self.pipe_id,
    {
        self.pipe_id
    }

    /// The read end of a pipe that exists.
    pub fn from_id(pipe_id: u64) -> (r: SimplePipeRx)
        ensures
            r.pipe_id == pipe_id,
    {
        SimplePipeRx { pipe_id }
    }

    /// The message that asks for up to `capacity` bytes. Only a worker can
    /// wait for them.
    pub fn read_request(&self, worker_id: Option<u32>, capacity: usize) -> (r: Result<
        SchedulerMessage,
        PipeError,
    >)
        ensures
            match (worker_id, r) {
                (Some(worker_id), Ok(message)) => message@ == (MessageView::PipeRead {
                    pipe_id: self.pipe_id,
                    worker_id,
                    max_len: (capacity as int % 0x1_0000_0000) as u32,
                }),
                (None, Err(e)) => e@ == (PipeErrorView {
                    kind: PipeErrorKind::Other,
                    message: "Worker ID not set"@,
                }),
                _ => false,
            },
    {
        match worker_id {
            Some(worker_id) => Ok(
                SchedulerMessage::PipeRead {
                    pipe_id: self.pipe_id,
                    worker_id,
                    max_len: (capacity as u64 % 0x1_0000_0000) as u32,
                },
            ),
            None => Err(
                PipeError {
                    kind: PipeErrorKind::Other,
                    message: "Worker ID not set".to_owned(),
                },
            ),
        }
    }

    /// Ends a read: puts the bytes that came at the front of `buf` and says how
    /// many they are. None at the end of the file.
    pub fn read_blocking(&self, outcome: WaitOutcome<'_>, buf: &mut [u8]) -> (r: Result<
        usize,
        PipeError,
    >)
        requires
            outcome matches WaitOutcome::Woken(buffer) ==> buffer@.len() >= 8,
        ensures
            match (r, read_result(outcome, old(buf)@.len())) {
                (Ok(n), Ok(m)) => n == m,
                (Err(e), Err(f)) => e@ == f,
                _ => false,
            },
            ({
                let bytes = read_bytes(outcome, old(buf)@.len());
                final(buf)@ == bytes + old(buf)@.skip(bytes.len() as int)
            }),
    {
        assert(buf@ =~= Seq::<u8>::empty() + buf@.skip(0));
        match outcome {
            WaitOutcome::NotSent(message) => Err(
                PipeError { kind: PipeErrorKind::BrokenPipe, message },
            ),
            WaitOutcome::NoBuffer => Err(
                PipeError {
                    kind: PipeErrorKind::Other,
                    message: "Host exec buffer not initialized".to_owned(),
                },
            ),
            WaitOutcome::BufferFailed(message) => Err(
                PipeError { kind: PipeErrorKind::Other, message },
            ),
            WaitOutcome::Woken(buffer) => match response::load_pipe_response(buffer, buf) {
                Some(n) => Ok(n),
                None => Err(
                    PipeError {
                        kind: PipeErrorKind::BrokenPipe,
                        message: "Pipe error".to_owned(),
                    },
                ),
            },
        }
    }

    /// A read end cannot be written.
    pub fn poll_write(&self) -> (r: PipeError)
        ensures
            r@ == (PipeErrorView {
                kind: PipeErrorKind::InvalidInput,
                message: "Read-only pipe"@,
            }),
    {
        PipeError { kind: PipeErrorKind::InvalidInput, message: "Read-only pipe".to_owned() }
    }

    /// A read end always claims to be readable; a read that comes too early
    /// waits.
    pub fn poll_read_ready(&self) -> (r: Result<usize, PipeError>)
        ensures
            result_view(r) == Ok::<usize, PipeErrorView>(1),
    {
        Ok(1)
    }

    /// A read end never becomes writable.
    pub fn poll_write_ready(&self) -> (r: Result<usize, PipeError>)
        ensures
            result_view(r) == Err::<usize, PipeErrorView>(
                PipeErrorView { kind: PipeErrorKind::InvalidInput, message: "Read-only"@ },
            ),
    {
        Err(PipeError { kind: PipeErrorKind::InvalidInput, message: "Read-only".to_owned() })
    }

    /// When a pipe was last read is not kept.
    pub fn last_accessed(&self) -> (r: u64)
        ensures
            r == 0,
    {
        0
    }

    /// When a pipe was last written is not kept.
    pub fn last_modified(&self) -> (r: u64)
        ensures
            r == 0,
    {
        0
    }

    /// When a pipe was created is not kept.
    pub fn created_time(&self) -> (r: u64)
        ensures
            r == 0,
    {
        0
    }

    /// A pipe has no size.
    pub fn size(&self) -> (r: u64)
        ensures
            r == 0,
    {
        0
    }

    /// A pipe end counts as open as long as it is there.
    pub fn is_open(&self) -> (r: bool)
        ensures
            r,
    {
        true
    }

    /// A pipe has no positions: seeking stays at the start.
    pub fn seek(&self) -> (r: u64)
        ensures
            r == 0,
    {
        0
    }
}

/// Any two pipes that are created with one counter have different ids: the
/// ids are at least 1, and a pipe that is created later has the larger one. This
/// holds for the first `u64::MAX` pipes.
pub proof fn law_pipes_have_different_ids(
    earlier: SimplePipe,
    later: SimplePipe,
    before_earlier: nat,
    before_later: nat,
)
    requires
        before_earlier < before_later < u64::MAX,
        earlier.pipe_id == ids::nth_pipe_id(before_earlier),
        later.pipe_id == ids::nth_pipe_id(before_later),
    ensures
        1 <= earlier.pipe_id < later.pipe_id,
{
    ids::law_pipe_ids_increase(before_earlier, before_later);
}

/// Bytes that the scheduler sends to a reader, and that fit, are what the
/// reader gets; the end of the file is read as no bytes.
pub proof fn law_reader_gets_what_the_scheduler_sends(
    before: Seq<u8>,
    buffer: &[u8],
    data: Option<Seq<u8>>,
    capacity: nat,
)
    requires
        buffer@ == response::stored_all(before, response::pipe_response_stores(data)),
        before.len() >= response::PIPE_DATA_OFFSET,
        data is Some ==> data->0.len() < 0x8000_0000 && data->0.len() <= capacity
            && response::PIPE_DATA_OFFSET + data->0.len() <= before.len(),
    ensures
        ({
            let sent = match data {
                Some(data) => data,
                None => Seq::empty(),
            };
            let outcome = WaitOutcome::Woken(buffer);
            &&& read_result(outcome, capacity) == Ok::<nat, PipeErrorView>(sent.len())
            &&& read_bytes(outcome, capacity) == sent
        }),
{
    match data {
        Some(data) => {
            response::law_pipe_data_is_read_back(before, data, capacity);
        },
        None => {
            response::law_pipe_end_is_read_back(before);
        },
    }
}

} // verus!
