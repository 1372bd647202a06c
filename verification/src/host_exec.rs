//! Executing programs on the host, as a worker sees it.
//!
//! Every call is a message to the scheduler. Calls that have an answer then
//! wait until the scheduler has written it into the worker's shared buffer.
use vstd::prelude::*;
use crate::ids;
use crate::ids::IdCounter;
use crate::response;
use crate::response::{HostExecOutput, OutputView, ResponseError};
use crate::tasks::scheduler_message::{MessageView, SchedulerMessage};
use crate::text;

verus! {

/// Executes programs on the host.
#[derive(Debug)]
pub struct HostExecImpl {
    /// Hands out the ids of sessions and requests.
    pub next_session_id: IdCounter,
}

/// Why a call failed.
#[derive(Debug)]
pub struct HostExecError {
    pub message: String,
}

impl View for HostExecError {
    type V = Seq<char>;

    open spec fn view(&self) -> Seq<char> {
        self.message@
    }
}

/// The calls.
#[derive(Debug, Clone, Copy, PartialEq, Eq)]
pub enum HostExecCall {
    Start,
    Read,
    Write,
    CloseStdin,
    TryRead,
    Poll,
    Signal,
    ChildOutput,
}

/// The name of a call.
pub open spec fn call_name(call: HostExecCall) -> Seq<char> {
    match call {
        HostExecCall::Start => "host_exec_start"@,
        HostExecCall::Read => "host_exec_read"@,
        HostExecCall::Write => "host_exec_write"@,
        HostExecCall::CloseStdin => "host_exec_close_stdin"@,
        HostExecCall::TryRead => "host_exec_try_read"@,
        HostExecCall::Poll => "host_exec_poll"@,
        HostExecCall::Signal => "host_exec_signal"@,
        HostExecCall::ChildOutput => "host_exec_child_output"@,
    }
}

/// What is said of a call that was not made on a worker.
pub open spec fn outside_text(call: HostExecCall) -> Seq<char> {
    call_name(call) + " called outside of worker thread"@
}

/// What is said of a call whose message could not be sent.
pub open spec fn unsent_text(call: HostExecCall, cause: Seq<char>) -> Seq<char> {
    "Failed to send "@ + (if call == HostExecCall::Start {
        "host_exec request"@
    } else {
        call_name(call)
    }) + ": "@ + cause
}

impl HostExecCall {
    /// The name of the call.
    pub fn name(self) -> (r: &'static str)
        ensures
            r@ == call_name(self),
    {
        match self {
            HostExecCall::Start => "host_exec_start",
            HostExecCall::Read => "host_exec_read",
            HostExecCall::Write => "host_exec_write",
            HostExecCall::CloseStdin => "host_exec_close_stdin",
            HostExecCall::TryRead => "host_exec_try_read",
            HostExecCall::Poll => "host_exec_poll",
            HostExecCall::Signal => "host_exec_signal",
            HostExecCall::ChildOutput => "host_exec_child_output",
        }
    }

    /// The result of sending the call's message.
    pub fn sent(self, emitted: Result<(), String>) -> (r: Result<(), HostExecError>)
        ensures
            match (emitted, r) {
                (Ok(_), Ok(_)) => true,
                (Err(cause), Err(e)) => e@ == unsent_text(self, cause@),
                _ => false,
            },
    {
        match emitted {
            Ok(_) => Ok(()),
            Err(cause) => {
                let subject = match self {
                    HostExecCall::Start => "host_exec request",
                    call => call.name(),
                };
                let opening = text::joined("Failed to send ", subject);
                let opening = text::joined(opening.as_str(), ": ");
                Err(HostExecError { message: text::joined(opening.as_str(), cause.as_str()) })
            },
        }
    }
}

/// Whether the message of a call is right, or its error is.
pub open spec fn made(
    r: Result<SchedulerMessage, HostExecError>,
    call: HostExecCall,
    worker_id: Option<u32>,
    message: MessageView,
) -> bool {
    match r {
        Ok(m) => worker_id is Some && m@ == message,
        Err(e) => worker_id is None && e@ == outside_text(call),
    }
}

/// The id that is handed out next after a call that takes one only on a worker.
pub open spec fn next_after(next: u64, worker_id: Option<u32>) -> u64 {
    if worker_id is Some {
        ids::nth_id(next, 1)
    } else {
        next
    }
}

impl Default for HostExecImpl {
    fn default() -> (r: HostExecImpl)
        ensures
            r.next_session_id.next == 0,
    {
        HostExecImpl::new()
    }
}

impl HostExecImpl {
    /// No sessions yet. The first gets id 0.
    pub fn new() -> (r: HostExecImpl)
        ensures
            r.next_session_id.next == 0,
    {
        HostExecImpl { next_session_id: IdCounter::starting_at(0) }
    }

    /// The worker that makes a call.
    fn caller(call: HostExecCall, worker_id: Option<u32>) -> (r: Result<u32, HostExecError>)
        ensures
            match (worker_id, r) {
                (Some(id), Ok(got)) => got == id,
                (None, Err(e)) => e@ == outside_text(call),
                _ => false,
            },
    {
        match worker_id {
            Some(worker_id) => Ok(worker_id),
            None => Err(
                HostExecError {
                    message: text::joined(call.name(), " called outside of worker thread"),
                },
            ),
        }
    }

    /// Starts a program. The request comes as JSON, or as the reason why it
    /// could not be written as such. Returns the session's id, which is used up
    /// in any case, and the message that starts it.
    pub fn host_exec_start(
        &mut self,
        worker_id: Option<u32>,
        request_json: Result<Vec<u8>, String>,
    ) -> (r: (u64, Result<SchedulerMessage, HostExecError>))
        ensures
            r.0 == old(self).next_session_id.next,
            final(self).next_session_id.next == ids::nth_id(old(self).next_session_id.next, 1),
            match (worker_id, request_json, r.1) {
                (None, _, Err(e)) => e@ == outside_text(HostExecCall::Start),
                (Some(_), Err(cause), Err(e)) => e@ == "Failed to serialize request: "@ + cause@,
                (Some(worker_id), Ok(json), Ok(message)) => message@
                    == (MessageView::HostExecStart {
                    worker_id,
                    request_id: r.0,
                    request_json: json@,
                }),
                _ => false,
            },
    {
        let session_id = self.next_session_id.allocate();
        let worker_id = match HostExecImpl::caller(HostExecCall::Start, worker_id) {
            Ok(worker_id) => worker_id,
            Err(e) => return (session_id, Err(e)),
        };
        match request_json {
            Ok(request_json) => (
                session_id,
                Ok(
                    SchedulerMessage::HostExecStart {
                        worker_id,
                        request_id: session_id,
                        request_json,
                    },
                ),
            ),
            Err(cause) => (
                session_id,
                Err(
                    HostExecError {
                        message: text::joined("Failed to serialize request: ", cause.as_str()),
                    },
                ),
            ),
        }
    }

    /// Asks for output of a program, to wait for it.
    pub fn host_exec_read(
        &mut self,
        worker_id: Option<u32>,
        session: u64,
    ) -> (r: Result<SchedulerMessage, HostExecError>)
        ensures
            made(
                r,
                HostExecCall::Read,
                worker_id,
                (MessageView::HostExecRead {
                    worker_id: worker_id->0,
                    request_id: old(self).next_session_id.next,
                    session_id: session,
                }),
            ),
            final(self).next_session_id.next == next_after(
                old(self).next_session_id.next,
                worker_id,
            ),
    {
        match HostExecImpl::caller(HostExecCall::Read, worker_id) {
            Ok(worker_id) => {
                let request_id = self.next_session_id.allocate();
                Ok(SchedulerMessage::HostExecRead { worker_id, request_id, session_id: session })
            },
            Err(e) => Err(e),
        }
    }

    /// Writes to a program's standard input.
    pub fn host_exec_write(
        &mut self,
        worker_id: Option<u32>,
        session: u64,
        data: Vec<u8>,
    ) -> (r: Result<SchedulerMessage, HostExecError>)
        ensures
            made(
                r,
                HostExecCall::Write,
                worker_id,
                (MessageView::HostExecWrite {
                    worker_id: worker_id->0,
                    request_id: old(self).next_session_id.next,
                    session_id: session,
                    data: data@,
                }),
            ),
            final(self).next_session_id.next == next_after(
                old(self).next_session_id.next,
                worker_id,
            ),
    {
        match HostExecImpl::caller(HostExecCall::Write, worker_id) {
            Ok(worker_id) => {
                let request_id = self.next_session_id.allocate();
                Ok(SchedulerMessage::HostExecWrite { worker_id, request_id, session_id: session, data })
            },
            Err(e) => Err(e),
        }
    }

    /// Closes a program's standard input.
    pub fn host_exec_close_stdin(
        &mut self,
        worker_id: Option<u32>,
        session: u64,
    ) -> (r: Result<SchedulerMessage, HostExecError>)
        ensures
            made(
                r,
                HostExecCall::CloseStdin,
                worker_id,
                (MessageView::HostExecCloseStdin {
                    worker_id: worker_id->0,
                    request_id: old(self).next_session_id.next,
                    session_id: session,
                }),
            ),
            final(self).next_session_id.next == next_after(
                old(self).next_session_id.next,
                worker_id,
            ),
    {
        match HostExecImpl::caller(HostExecCall::CloseStdin, worker_id) {
            Ok(worker_id) => {
                let request_id = self.next_session_id.allocate();
                Ok(SchedulerMessage::HostExecCloseStdin { worker_id, request_id, session_id: session })
            },
            Err(e) => Err(e),
        }
    }

    /// Asks for output of a program, if there is any.
    pub fn host_exec_try_read(
        &mut self,
        worker_id: Option<u32>,
        session: u64,
    ) -> (r: Result<SchedulerMessage, HostExecError>)
        ensures
            made(
                r,
                HostExecCall::TryRead,
                worker_id,
                (MessageView::HostExecTryRead {
                    worker_id: worker_id->0,
                    request_id: old(self).next_session_id.next,
                    session_id: session,
                }),
            ),
            final(self).next_session_id.next == next_after(
                old(self).next_session_id.next,
                worker_id,
            ),
    {
        match HostExecImpl::caller(HostExecCall::TryRead, worker_id) {
            Ok(worker_id) => {
                let request_id = self.next_session_id.allocate();
                Ok(SchedulerMessage::HostExecTryRead { worker_id, request_id, session_id: session })
            },
            Err(e) => Err(e),
        }
    }

    /// Asks whether there is output of a program.
    pub fn host_exec_poll(
        &mut self,
        worker_id: Option<u32>,
        session: u64,
    ) -> (r: Result<SchedulerMessage, HostExecError>)
        ensures
            made(
                r,
                HostExecCall::Poll,
                worker_id,
                (MessageView::HostExecPoll {
                    worker_id: worker_id->0,
                    request_id: old(self).next_session_id.next,
                    session_id: session,
                }),
            ),
            final(self).next_session_id.next == next_after(
                old(self).next_session_id.next,
                worker_id,
            ),
    {
        match HostExecImpl::caller(HostExecCall::Poll, worker_id) {
            Ok(worker_id) => {
                let request_id = self.next_session_id.allocate();
                Ok(SchedulerMessage::HostExecPoll { worker_id, request_id, session_id: session })
            },
            Err(e) => Err(e),
        }
    }

    /// Signals a program.
    pub fn host_exec_signal(
        &mut self,
        worker_id: Option<u32>,
        session: u64,
        signal: u32,
    ) -> (r: Result<SchedulerMessage, HostExecError>)
        ensures
            made(
                r,
                HostExecCall::Signal,
                worker_id,
                (MessageView::HostExecSignal {
                    worker_id: worker_id->0,
                    request_id: old(self).next_session_id.next,
                    session_id: session,
                    signal,
                }),
            ),
            final(self).next_session_id.next == next_after(
                old(self).next_session_id.next,
                worker_id,
            ),
    {
        match HostExecImpl::caller(HostExecCall::Signal, worker_id) {
            Ok(worker_id) => {
                let request_id = self.next_session_id.allocate();
                Ok(SchedulerMessage::HostExecSignal { worker_id, request_id, session_id: session, signal })
            },
            Err(e) => Err(e),
        }
    }

    /// Hands the output of a child to the host.
    pub fn host_exec_child_output(
        &mut self,
        worker_id: Option<u32>,
        session: u64,
        child_id: u64,
        msg_type: u32,
        data: Vec<u8>,
    ) -> (r: Result<SchedulerMessage, HostExecError>)
        ensures
            made(
                r,
                HostExecCall::ChildOutput,
                worker_id,
                (MessageView::HostExecChildOutput {
                    worker_id: worker_id->0,
                    request_id: old(self).next_session_id.next,
                    session_id: session,
                    child_id,
                    msg_type,
                    data: data@,
                }),
            ),
            final(self).next_session_id.next == next_after(
                old(self).next_session_id.next,
                worker_id,
            ),
    {
        match HostExecImpl::caller(HostExecCall::ChildOutput, worker_id) {
            Ok(worker_id) => {
                let request_id = self.next_session_id.allocate();
                Ok(SchedulerMessage::HostExecChildOutput { worker_id, request_id, session_id: session, child_id, msg_type, data })
            },
            Err(e) => Err(e),
        }
    }
}

/// An operation on the shared buffer.
#[derive(Debug, Clone, Copy, PartialEq, Eq)]
pub enum AtomicsOperation {
    Store,
    Wait,
    Load,
}

/// What came of waiting for an answer.
#[derive(Debug)]
pub enum BufferOutcome<'a> {
    /// This thread has no shared buffer.
    Missing,
    /// An operation on the shared buffer failed.
    Failed { operation: AtomicsOperation, cause: String },
    /// The wait is over; the shared buffer holds these bytes.
    Woken(&'a [u8]),
}

/// What is said of a failed operation on the shared buffer.
pub open spec fn operation_text(operation: AtomicsOperation, cause: Seq<char>) -> Seq<char> {
    (match operation {
        AtomicsOperation::Store => "Atomics::store failed: "@,
        AtomicsOperation::Wait => "Atomics::wait failed: "@,
        AtomicsOperation::Load => "Atomics::load failed: "@,
    }) + cause
}

/// What is said of an answer that belongs to another session.
pub open spec fn mismatch_text(expected: u64, got: u64) -> Seq<char> {
    "session mismatch: expected "@ + text::decimal(expected as nat) + ", got "@ + text::decimal(
        got as nat,
    )
}

/// The bytes of the shared buffer, or why there are none.
pub open spec fn woken(outcome: BufferOutcome) -> Result<Seq<u8>, Seq<char>> {
    match outcome {
        BufferOutcome::Missing => Err("host_exec buffer not initialized"@),
        BufferOutcome::Failed { operation, cause } => Err(operation_text(operation, cause@)),
        BufferOutcome::Woken(buffer) => Ok(buffer@),
    }
}

/// What a read gives.
pub open spec fn read_answer(outcome: BufferOutcome, session: u64) -> Result<
    OutputView,
    Seq<char>,
> {
    match woken(outcome) {
        Err(e) => Err(e),
        Ok(buffer) => if response::session_at(buffer) != session {
            Err(mismatch_text(session, response::session_at(buffer)))
        } else {
            Ok(response::output_at(buffer))
        },
    }
}

/// What a read gives that does not wait for output.
pub open spec fn try_read_answer(outcome: BufferOutcome) -> Result<Option<OutputView>, Seq<char>> {
    match woken(outcome) {
        Err(e) => Err(e),
        Ok(buffer) => if response::word_at(buffer, 0) == 2 {
            Ok(None)
        } else {
            Ok(Some(response::output_at(buffer)))
        },
    }
}

/// What a poll gives.
pub open spec fn poll_answer(outcome: BufferOutcome) -> Result<bool, Seq<char>> {
    match woken(outcome) {
        Err(e) => Err(e),
        Ok(buffer) => Ok(response::word_at(buffer, 0) == 1),
    }
}

/// Finds the bytes of the shared buffer.
fn awakened<'a>(outcome: BufferOutcome<'a>) -> (r: Result<&'a [u8], HostExecError>)
    ensures
        match (woken(outcome), r) {
            (Ok(expected), Ok(buffer)) => buffer@ == expected,
            (Err(e), Err(f)) => f@ == e,
            _ => false,
        },
        outcome matches BufferOutcome::Woken(buffer) ==> r matches Ok(b) && b == buffer,
{
    match outcome {
        BufferOutcome::Missing => Err(
            HostExecError { message: "host_exec buffer not initialized".to_owned() },
        ),
        BufferOutcome::Failed { operation, cause } => {
            let opening = match operation {
                AtomicsOperation::Store => "Atomics::store failed: ",
                AtomicsOperation::Wait => "Atomics::wait failed: ",
                AtomicsOperation::Load => "Atomics::load failed: ",
            };
            Err(HostExecError { message: text::joined(opening, cause.as_str()) })
        },
        BufferOutcome::Woken(buffer) => Ok(buffer),
    }
}

impl ResponseError {
    /// The error as text.
    pub fn to_text(&self) -> (r: String)
        ensures
            r@ == (match *self {
                ResponseError::SessionMismatch { expected, got } => mismatch_text(expected, got),
            }),
    {
        match self {
            ResponseError::SessionMismatch { expected, got } => {
                let expected = text::to_decimal(*expected);
                let got = text::to_decimal(*got);
                let opening = text::joined("session mismatch: expected ", expected.as_str());
                let opening = text::joined(opening.as_str(), ", got ");
                text::joined(opening.as_str(), got.as_str())
            },
        }
    }
}

/// Ends a read.
pub fn finish_read(outcome: BufferOutcome<'_>, session: u64) -> (r: Result<
    HostExecOutput,
    HostExecError,
>)
    requires
        outcome matches BufferOutcome::Woken(buffer) ==> buffer@.len()
            >= response::HOST_DATA_OFFSET && (response::session_at(buffer@) == session
            ==> response::has_readable_length(buffer@)),
    ensures
        match (read_answer(outcome, session), r) {
            (Ok(expected), Ok(output)) => output@ == expected,
            (Err(e), Err(f)) => f@ == e,
            _ => false,
        },
{
    let buffer = match awakened(outcome) {
        Ok(buffer) => buffer,
        Err(e) => return Err(e),
    };
    match response::load_read_response(buffer, session) {
        Ok(output) => Ok(output),
        Err(e) => Err(HostExecError { message: e.to_text() }),
    }
}

/// Ends a read that does not wait for output.
pub fn finish_try_read(outcome: BufferOutcome<'_>) -> (r: Result<
    Option<HostExecOutput>,
    HostExecError,
>)
    requires
        outcome matches BufferOutcome::Woken(buffer) ==> buffer@.len()
            >= response::HOST_DATA_OFFSET && (response::word_at(buffer@, 0) != 2
            ==> response::has_readable_length(buffer@)),
    ensures
        match (try_read_answer(outcome), r) {
            (Ok(None), Ok(None)) => true,
            (Ok(Some(expected)), Ok(Some(output))) => output@ == expected,
            (Err(e), Err(f)) => f@ == e,
            _ => false,
        },
{
    match awakened(outcome) {
        Ok(buffer) => Ok(response::load_try_read_response(buffer)),
        Err(e) => Err(e),
    }
}

/// Ends a poll.
pub fn finish_poll(outcome: BufferOutcome<'_>) -> (r: Result<bool, HostExecError>)
    requires
        outcome matches BufferOutcome::Woken(buffer) ==> buffer@.len()
            >= response::HOST_DATA_OFFSET,
    ensures
        match (poll_answer(outcome), r) {
            (Ok(expected), Ok(ready)) => ready == expected,
            (Err(e), Err(f)) => f@ == e,
            _ => false,
        },
{
    match awakened(outcome) {
        Ok(buffer) => Ok(response::load_poll_response(buffer)),
        Err(e) => Err(e),
    }
}

/// What the scheduler answers to a read is what the read gives: output byte for
/// byte, provided that it fits. Session ids from 2^31 up to
/// the last 2^31 of the range are cut short on the way and are left out.
pub proof fn law_read_gives_what_the_scheduler_answered(
    before: Seq<u8>,
    buffer: &[u8],
    session: u64,
    msg_type: u32,
    data: Seq<u8>,
)
    requires
        buffer@ == response::stored_all(
            before,
            response::data_response_stores(session, msg_type, data),
        ),
        session < 0x8000_0000 || session >= 0xffff_ffff_8000_0000,
        msg_type != response::MSG_TYPE_EXIT,
        data.len() < 0x8000_0000,
        response::HOST_DATA_OFFSET + data.len() <= before.len(),
    ensures
        ({
            let output = response::data_output(msg_type, data);
            let outcome = BufferOutcome::Woken(buffer);
            &&& read_answer(outcome, session) == Ok::<OutputView, Seq<char>>(output)
            &&& try_read_answer(outcome) == Ok::<Option<OutputView>, Seq<char>>(Some(output))
        }),
{
    response::law_data_response_is_read_back(before, session, msg_type, data);
    response::law_response_names_its_session(
        before,
        session,
        msg_type,
        crate::words::low_word(data.len() as int),
        Some(data),
    );
}

/// The exit code that the scheduler answers with is what a read gives. A read
/// that checks its session leaves out the session ids that are cut short on the
/// way.
pub proof fn law_read_gives_the_exit_code_answered(
    before: Seq<u8>,
    buffer: &[u8],
    session: u64,
    exit_code: i32,
)
    requires
        buffer@ == response::stored_all(
            before,
            response::exit_response_stores(session, exit_code),
        ),
        before.len() >= response::HOST_DATA_OFFSET,
    ensures
        ({
            let output = OutputView::Exit(exit_code);
            let outcome = BufferOutcome::Woken(buffer);
            &&& session < 0x8000_0000 || session >= 0xffff_ffff_8000_0000 ==> read_answer(
                outcome,
                session,
            ) == Ok::<OutputView, Seq<char>>(output)
            &&& try_read_answer(outcome) == Ok::<Option<OutputView>, Seq<char>>(Some(output))
        }),
{
    response::law_exit_response_is_read_back(before, session, exit_code);
    if session < 0x8000_0000 || session >= 0xffff_ffff_8000_0000 {
        response::law_response_names_its_session(
            before,
            session,
            response::MSG_TYPE_EXIT,
            exit_code,
            None,
        );
    }
}

/// What the scheduler answers to a poll is what the poll gives, and a read that
/// does not wait learns that there is nothing.
pub proof fn law_poll_gives_what_the_scheduler_answered(
    before: Seq<u8>,
    buffer: &[u8],
    session: u64,
    is_ready: bool,
)
    requires
        buffer@ == response::stored_all(
            before,
            response::status_response_stores(
                session,
                if is_ready {
                    1
                } else {
                    2
                },
            ),
        ),
        before.len() >= response::HOST_DATA_OFFSET,
    ensures
        poll_answer(BufferOutcome::Woken(buffer)) == Ok::<bool, Seq<char>>(is_ready),
        !is_ready ==> try_read_answer(BufferOutcome::Woken(buffer)) == Ok::<
            Option<OutputView>,
            Seq<char>,
        >(None),
{
    response::law_status_response_is_read_back(
        before,
        session,
        if is_ready {
            1
        } else {
            2
        },
    );
}

} // verus!
