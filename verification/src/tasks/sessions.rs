//! Host execution sessions, as the scheduler keeps them.
//!
//! A session is one process that the host runs for a WebAssembly program. Its
//! output waits in a queue until a worker reads it; a worker that finds nothing
//! to read waits, and is answered as soon as there is something. JavaScript
//! functions are held by handle.
use std::collections::{HashMap, VecDeque};
use vstd::prelude::*;
use crate::response;
use crate::tasks::host_exec_context::Callback;
use crate::tasks::scheduler_message::{MessageView, SchedulerMessage};
use crate::words;

verus! {

broadcast use vstd::std_specs::hash::group_hash_axioms;

/// Everything the scheduler knows of host execution sessions.
#[derive(Debug)]
pub struct HostExecSessions {
    /// Exit codes of processes that have ended, by session.
    pub results: HashMap<u64, i32>,
    /// Waiting reads, by session: the worker that waits, and the session.
    pub pending_reads: HashMap<u64, (u32, u64)>,
    /// Output that has not been read, by session: message types and data.
    pub output_queues: HashMap<u64, VecDeque<(u32, Vec<u8>)>>,
    /// Functions that write to and close standard input, by session.
    pub stdin_writers: HashMap<u64, (u64, u64)>,
    /// Functions that signal the process, by session.
    pub signal_handlers: HashMap<u64, u64>,
    /// Functions that take a child's standard output, standard error and exit
    /// code, by child.
    pub child_output_handlers: HashMap<u64, (u64, u64, u64)>,
}

/// What [`HostExecSessions`] say.
#[verifier::ext_equal]
pub struct SessionsView {
    pub results: Map<u64, i32>,
    pub pending_reads: Map<u64, (u32, u64)>,
    pub output_queues: Map<u64, Seq<(u32, Seq<u8>)>>,
    pub stdin_writers: Map<u64, (u64, u64)>,
    pub signal_handlers: Map<u64, u64>,
    pub child_output_handlers: Map<u64, (u64, u64, u64)>,
}

/// What a queue holds.
pub open spec fn queue_view(queue: Seq<(u32, Vec<u8>)>) -> Seq<(u32, Seq<u8>)> {
    queue.map_values(|item: (u32, Vec<u8>)| (item.0, item.1@))
}

impl View for HostExecSessions {
    type V = SessionsView;

    open spec fn view(&self) -> SessionsView {
        SessionsView {
            results: self.results@,
            pending_reads: self.pending_reads@,
            output_queues: self.output_queues@.map_values(
                |queue: VecDeque<(u32, Vec<u8>)>| queue_view(queue@),
            ),
            stdin_writers: self.stdin_writers@,
            signal_handlers: self.signal_handlers@,
            child_output_handlers: self.child_output_handlers@,
        }
    }
}

/// What a read finds.
#[derive(Debug)]
pub enum Reading {
    /// Output, the oldest that has not been read.
    Data { msg_type: u32, data: Vec<u8> },
    /// All output has been read and the process has ended.
    Exit(i32),
    /// There is nothing to read yet.
    Nothing,
}

/// What a [`Reading`] says.
pub enum ReadingView {
    Data { msg_type: u32, data: Seq<u8> },
    Exit(i32),
    Nothing,
}

impl View for Reading {
    type V = ReadingView;

    open spec fn view(&self) -> ReadingView {
        match *self {
            Reading::Data { msg_type, data } => ReadingView::Data { msg_type, data: data@ },
            Reading::Exit(exit_code) => ReadingView::Exit(exit_code),
            Reading::Nothing => ReadingView::Nothing,
        }
    }
}

/// The message that answers a waiting read.
pub open spec fn read_complete(waiting: (u32, u64), msg_type: u32, data: Seq<u8>) -> MessageView {
    MessageView::HostExecReadComplete {
        worker_id: waiting.0,
        request_id: waiting.1,
        msg_type,
        data,
    }
}

/// What an optional message says.
pub open spec fn optional_message(message: Option<SchedulerMessage>) -> Option<MessageView> {
    match message {
        Some(message) => Some(message@),
        None => None,
    }
}

/// The child that a request of the host names. A child that is not named by a
/// number counts as 0.
pub open spec fn named_child(child_id: Option<u64>) -> u64 {
    match child_id {
        Some(child_id) => child_id,
        None => 0,
    }
}

/// The signal that a request of the host names. One that is not a number counts
/// as 15, which asks a process to terminate.
pub open spec fn named_signal(signal: Option<u32>) -> u32 {
    match signal {
        Some(signal) => signal,
        None => 15,
    }
}

/// How a handler's promise was settled.
#[derive(Debug, Clone, Copy, PartialEq, Eq)]
pub enum Settlement {
    /// It was fulfilled, with an exit code if it was a number.
    Fulfilled(Option<i32>),
    /// It was rejected.
    Rejected,
}

/// The exit code of a process from how its promise was settled.
pub open spec fn settled_code(settlement: Settlement) -> i32 {
    match settlement {
        Settlement::Fulfilled(Some(exit_code)) => exit_code,
        Settlement::Fulfilled(None) => 0,
        Settlement::Rejected => 1,
    }
}

/// Finds the child that a request of the host names.
pub fn child_named(child_id: Option<u64>) -> (r: u64)
    ensures
        r == named_child(child_id),
{
    match child_id {
        Some(child_id) => child_id,
        None => 0,
    }
}

impl SessionsView {
    /// No sessions.
    pub open spec fn empty() -> SessionsView {
        SessionsView {
            results: Map::empty(),
            pending_reads: Map::empty(),
            output_queues: Map::empty(),
            stdin_writers: Map::empty(),
            signal_handlers: Map::empty(),
            child_output_handlers: Map::empty(),
        }
    }

    /// The output of a session that has not been read, oldest first.
    pub open spec fn queued(self, session_id: u64) -> Seq<(u32, Seq<u8>)> {
        if self.output_queues.contains_key(session_id) {
            self.output_queues[session_id]
        } else {
            Seq::empty()
        }
    }

    pub open spec fn with_queue(
        self,
        session_id: u64,
        queue: Seq<(u32, Seq<u8>)>,
    ) -> SessionsView {
        SessionsView { output_queues: self.output_queues.insert(session_id, queue), ..self }
    }

    pub open spec fn with_pending(self, session_id: u64, waiting: (u32, u64)) -> SessionsView {
        SessionsView { pending_reads: self.pending_reads.insert(session_id, waiting), ..self }
    }

    pub open spec fn without_pending(self, session_id: u64) -> SessionsView {
        SessionsView { pending_reads: self.pending_reads.remove(session_id), ..self }
    }

    /// A read waits only where there is nothing to read, and remembers its own
    /// session.
    pub open spec fn well_formed(self) -> bool {
        forall|session_id: u64| #[trigger]
            self.pending_reads.contains_key(session_id) ==> {
                &&& self.pending_reads[session_id].1 == session_id
                &&& self.queued(session_id).len() == 0
                &&& !self.results.contains_key(session_id)
            }
    }

    /// A process wrote output: a waiting read gets it, or it is queued.
    pub open spec fn after_output(self, session_id: u64, msg_type: u32, data: Seq<u8>) -> (
        SessionsView,
        Option<MessageView>,
    ) {
        if self.pending_reads.contains_key(session_id) {
            (
                self.without_pending(session_id),
                Some(read_complete(self.pending_reads[session_id], msg_type, data)),
            )
        } else {
            (
                self.with_queue(session_id, self.queued(session_id).push((msg_type, data))),
                None,
            )
        }
    }

    /// The host asks something of a child: the request is queued, and a waiting
    /// read gets the oldest entry of the queue.
    pub open spec fn after_request(self, session_id: u64, msg_type: u32, data: Seq<u8>) -> (
        SessionsView,
        Option<MessageView>,
    ) {
        let queue = self.queued(session_id).push((msg_type, data));
        if self.pending_reads.contains_key(session_id) {
            (
                self.with_queue(session_id, queue.skip(1)).without_pending(session_id),
                Some(read_complete(self.pending_reads[session_id], queue[0].0, queue[0].1)),
            )
        } else {
            (self.with_queue(session_id, queue), None)
        }
    }

    /// A process has ended: its exit code is kept, and a waiting read gets it
    /// too.
    pub open spec fn after_exit(self, session_id: u64, exit_code: i32) -> (
        SessionsView,
        Option<MessageView>,
    ) {
        let ended = SessionsView { results: self.results.insert(session_id, exit_code), ..self };
        if self.pending_reads.contains_key(session_id) {
            (
                ended.without_pending(session_id),
                Some(
                    read_complete(
                        self.pending_reads[session_id],
                        response::MSG_TYPE_EXIT,
                        words::le_bytes_i32(exit_code),
                    ),
                ),
            )
        } else {
            (ended, None)
        }
    }

    /// What a read finds: queued output first, then the exit code, which ends
    /// the session's queue.
    pub open spec fn after_taking(self, session_id: u64) -> (SessionsView, ReadingView) {
        let queue = self.queued(session_id);
        if queue.len() > 0 {
            (
                self.with_queue(session_id, queue.skip(1)),
                ReadingView::Data { msg_type: queue[0].0, data: queue[0].1 },
            )
        } else if self.results.contains_key(session_id) {
            (
                SessionsView {
                    results: self.results.remove(session_id),
                    output_queues: self.output_queues.remove(session_id),
                    ..self
                },
                ReadingView::Exit(self.results[session_id]),
            )
        } else {
            (self, ReadingView::Nothing)
        }
    }

    /// What a read finds that waits where there is nothing.
    pub open spec fn after_read(self, worker_id: u32, session_id: u64) -> (
        SessionsView,
        ReadingView,
    ) {
        let (taken, reading) = self.after_taking(session_id);
        match reading {
            ReadingView::Nothing => (
                self.with_pending(session_id, (worker_id, session_id)),
                reading,
            ),
            _ => (taken, reading),
        }
    }

    /// Whether a read would find something.
    pub open spec fn ready(self, session_id: u64) -> bool {
        self.queued(session_id).len() > 0 || self.results.contains_key(session_id)
    }
}

impl HostExecSessions {
    /// No sessions.
    pub fn new() -> (r: HostExecSessions)
        ensures
            r@ == SessionsView::empty(),
            r@.well_formed(),
    {
        let r = HostExecSessions {
            results: HashMap::new(),
            pending_reads: HashMap::new(),
            output_queues: HashMap::new(),
            stdin_writers: HashMap::new(),
            signal_handlers: HashMap::new(),
            child_output_handlers: HashMap::new(),
        };
        assert(r@ =~= SessionsView::empty());
        r
    }

    /// Adds an entry at the back of a session's queue.
    fn push(&mut self, session_id: u64, msg_type: u32, data: Vec<u8>)
        ensures
            final(self)@ == old(self)@.with_queue(
                session_id,
                old(self)@.queued(session_id).push((msg_type, data@)),
            ),
    {
        let mut queue = match self.output_queues.remove(&session_id) {
            Some(queue) => queue,
            None => VecDeque::new(),
        };
        assert(queue_view(queue@) =~= old(self)@.queued(session_id));
        let ghost before = queue@;
        queue.push_back((msg_type, data));
        assert(queue_view(queue@) =~= queue_view(before).push((msg_type, data@)));
        self.output_queues.insert(session_id, queue);
        assert(self@ =~= old(self)@.with_queue(
            session_id,
            old(self)@.queued(session_id).push((msg_type, data@)),
        ));
    }

    /// Takes the entry at the front of a session's queue.
    fn pop(&mut self, session_id: u64) -> (r: Option<(u32, Vec<u8>)>)
        ensures
            match r {
                Some((msg_type, data)) => {
                    let queue = old(self)@.queued(session_id);
                    &&& queue.len() > 0
                    &&& queue[0] == (msg_type, data@)
                    &&& final(self)@ == old(self)@.with_queue(session_id, queue.skip(1))
                },
                None => old(self)@.queued(session_id).len() == 0 && final(self)@ == old(self)@,
            },
    {
        match self.output_queues.remove(&session_id) {
            Some(queue) => {
                let mut queue = queue;
                let ghost before = queue@;
                let item = queue.pop_front();
                self.output_queues.insert(session_id, queue);
                proof {
                    if before.len() > 0 {
                        assert(queue_view(before).skip(1) =~= queue_view(queue@));
                        assert(self@ =~= old(self)@.with_queue(
                            session_id,
                            queue_view(before).skip(1),
                        ));
                    } else {
                        assert(queue@ =~= before);
                        assert(self@.output_queues =~= old(self)@.output_queues);
                    }
                }
                item
            },
            None => {
                assert(self.output_queues@ =~= old(self).output_queues@);
                None
            },
        }
    }

    /// Takes the waiting read of a session.
    fn take_pending(&mut self, session_id: u64) -> (r: Option<(u32, u64)>)
        ensures
            match r {
                Some(waiting) => old(self)@.pending_reads.contains_key(session_id) && waiting
                    == old(self)@.pending_reads[session_id],
                None => !old(self)@.pending_reads.contains_key(session_id),
            },
            final(self)@ == old(self)@.without_pending(session_id),
    {
        let waiting = self.pending_reads.remove(&session_id);
        assert(self@ =~= old(self)@.without_pending(session_id));
        waiting
    }

    /// Output of a process. Data that is not bytes is dropped.
    pub fn output(&mut self, session_id: u64, msg_type: u32, data: Option<Vec<u8>>) -> (r: Option<
        SchedulerMessage,
    >)
        ensures
            match data {
                Some(bytes) => (final(self)@, optional_message(r)) == old(self)@.after_output(
                    session_id,
                    msg_type,
                    bytes@,
                ),
                None => final(self)@ == old(self)@ && r is None,
            },
            old(self)@.well_formed() ==> final(self)@.well_formed(),
    {
        let data = match data {
            Some(data) => data,
            None => return None,
        };
        match self.take_pending(session_id) {
            Some((worker_id, request_id)) => Some(
                SchedulerMessage::HostExecReadComplete { worker_id, request_id, msg_type, data },
            ),
            None => {
                assert(self@ =~= old(self)@);
                self.push(session_id, msg_type, data);
                None
            },
        }
    }

    /// The host writes to standard output.
    pub fn on_stdout(&mut self, session_id: u64, data: Option<Vec<u8>>) -> (r: Option<
        SchedulerMessage,
    >)
        ensures
            match data {
                Some(bytes) => (final(self)@, optional_message(r)) == old(self)@.after_output(
                    session_id,
                    response::MSG_TYPE_STDOUT,
                    bytes@,
                ),
                None => final(self)@ == old(self)@ && r is None,
            },
            old(self)@.well_formed() ==> final(self)@.well_formed(),
    {
        self.output(session_id, response::MSG_TYPE_STDOUT, data)
    }

    /// The host writes to standard error.
    pub fn on_stderr(&mut self, session_id: u64, data: Option<Vec<u8>>) -> (r: Option<
        SchedulerMessage,
    >)
        ensures
            match data {
                Some(bytes) => (final(self)@, optional_message(r)) == old(self)@.after_output(
                    session_id,
                    response::MSG_TYPE_STDERR,
                    bytes@,
                ),
                None => final(self)@ == old(self)@ && r is None,
            },
            old(self)@.well_formed() ==> final(self)@.well_formed(),
    {
        self.output(session_id, response::MSG_TYPE_STDERR, data)
    }

    /// A request of the host that concerns a child.
    fn request(&mut self, session_id: u64, msg_type: u32, data: Vec<u8>) -> (r: Option<
        SchedulerMessage,
    >)
        ensures
            (final(self)@, optional_message(r)) == old(self)@.after_request(
                session_id,
                msg_type,
                data@,
            ),
            old(self)@.well_formed() ==> final(self)@.well_formed(),
    {
        self.push(session_id, msg_type, data);
        let ghost pushed = self@;
        match self.take_pending(session_id) {
            Some((worker_id, request_id)) => match self.pop(session_id) {
                Some((msg_type, data)) => {
                    assert(self@ =~= old(self)@.after_request(
                        session_id,
                        pushed.queued(session_id).last().0,
                        pushed.queued(session_id).last().1,
                    ).0);
                    Some(
                        SchedulerMessage::HostExecReadComplete {
                            worker_id,
                            request_id,
                            msg_type,
                            data,
                        },
                    )
                },
                None => None,
            },
            None => {
                assert(self@ =~= pushed);
                None
            },
        }
    }

    /// The host asks for a child to be spawned. The child's output goes to the
    /// three given functions, provided that all of them are functions.
    pub fn request_spawn(
        &mut self,
        session_id: u64,
        child_id: Option<u64>,
        request_json: Vec<u8>,
        on_stdout: Option<u64>,
        on_stderr: Option<u64>,
        on_exit: Option<u64>,
    ) -> (r: Option<SchedulerMessage>)
        ensures
            (final(self)@, optional_message(r)) == old(self)@.with_child_handlers(
                named_child(child_id),
                on_stdout,
                on_stderr,
                on_exit,
            ).after_request(session_id, response::MSG_TYPE_SPAWN_REQUEST, request_json@),
            old(self)@.well_formed() ==> final(self)@.well_formed(),
    {
        self.set_child_output_handlers(child_named(child_id), on_stdout, on_stderr, on_exit);
        self.request(session_id, response::MSG_TYPE_SPAWN_REQUEST, request_json)
    }

    /// The host writes to a child's standard input. Data that is not bytes is
    /// dropped.
    pub fn spawn_write_stdin(
        &mut self,
        session_id: u64,
        child_id: Option<u64>,
        data: Option<Vec<u8>>,
    ) -> (r: Option<SchedulerMessage>)
        ensures
            match data {
                Some(bytes) => (final(self)@, optional_message(r)) == old(self)@.after_request(
                    session_id,
                    response::MSG_TYPE_SPAWN_STDIN,
                    words::le_bytes_u64(named_child(child_id)) + bytes@,
                ),
                None => final(self)@ == old(self)@ && r is None,
            },
            old(self)@.well_formed() ==> final(self)@.well_formed(),
    {
        let mut data = match data {
            Some(data) => data,
            None => return None,
        };
        let mut bytes = words::u64_to_le(child_named(child_id));
        bytes.append(&mut data);
        self.request(session_id, response::MSG_TYPE_SPAWN_STDIN, bytes)
    }

    /// The host closes a child's standard input.
    pub fn spawn_close_stdin(&mut self, session_id: u64, child_id: Option<u64>) -> (r: Option<
        SchedulerMessage,
    >)
        ensures
            (final(self)@, optional_message(r)) == old(self)@.after_request(
                session_id,
                response::MSG_TYPE_SPAWN_CLOSE_STDIN,
                words::le_bytes_u64(named_child(child_id)),
            ),
            old(self)@.well_formed() ==> final(self)@.well_formed(),
    {
        let bytes = words::u64_to_le(child_named(child_id));
        self.request(session_id, response::MSG_TYPE_SPAWN_CLOSE_STDIN, bytes)
    }

    /// The host signals a child.
    pub fn spawn_kill(
        &mut self,
        session_id: u64,
        child_id: Option<u64>,
        signal: Option<u32>,
    ) -> (r: Option<SchedulerMessage>)
        ensures
            (final(self)@, optional_message(r)) == old(self)@.after_request(
                session_id,
                response::MSG_TYPE_SPAWN_KILL,
                words::le_bytes_u64(named_child(child_id)) + words::le_bytes_u32(named_signal(signal)),
            ),
            old(self)@.well_formed() ==> final(self)@.well_formed(),
    {
        let mut bytes = words::u64_to_le(child_named(child_id));
        let signal: u32 = match signal {
            Some(signal) => signal,
            None => 15,
        };
        let mut signal_bytes = words::u32_to_le(signal);
        bytes.append(&mut signal_bytes);
        self.request(session_id, response::MSG_TYPE_SPAWN_KILL, bytes)
    }

    /// The handler's promise is settled, which ends the process.
    pub fn promise_settled(&mut self, session_id: u64, settlement: Settlement) -> (r: Option<
        SchedulerMessage,
    >)
        ensures
            (final(self)@, optional_message(r)) == old(self)@.after_exit(
                session_id,
                settled_code(settlement),
            ),
            old(self)@.well_formed() ==> final(self)@.well_formed(),
    {
        let exit_code: i32 = match settlement {
            Settlement::Fulfilled(Some(exit_code)) => exit_code,
            Settlement::Fulfilled(None) => 0,
            Settlement::Rejected => 1,
        };
        self.results.insert(session_id, exit_code);
        let ghost ended = self@;
        assert(ended =~= (SessionsView {
            results: old(self)@.results.insert(session_id, exit_code),
            ..old(self)@
        }));
        match self.take_pending(session_id) {
            Some((worker_id, request_id)) => Some(
                SchedulerMessage::HostExecReadComplete {
                    worker_id,
                    request_id,
                    msg_type: response::MSG_TYPE_EXIT,
                    data: words::i32_to_le(exit_code),
                },
            ),
            None => {
                assert(self@ =~= ended);
                None
            },
        }
    }

    /// Takes what a read that does not wait finds.
    pub fn try_read(&mut self, session_id: u64) -> (r: Reading)
        ensures
            (final(self)@, r@) == old(self)@.after_taking(session_id),
            old(self)@.well_formed() ==> final(self)@.well_formed(),
    {
        if let Some((msg_type, data)) = self.pop(session_id) {
            return Reading::Data { msg_type, data };
        }
        match self.results.remove(&session_id) {
            Some(exit_code) => {
                self.output_queues.remove(&session_id);
                assert(self@ =~= old(self)@.after_taking(session_id).0);
                Reading::Exit(exit_code)
            },
            None => {
                assert(self@ =~= old(self)@);
                Reading::Nothing
            },
        }
    }

    /// Takes what a read finds; where there is nothing, the read waits.
    pub fn read(&mut self, worker_id: u32, session_id: u64) -> (r: Reading)
        ensures
            (final(self)@, r@) == old(self)@.after_read(worker_id, session_id),
            old(self)@.well_formed() ==> final(self)@.well_formed(),
    {
        match self.try_read(session_id) {
            Reading::Nothing => {
                self.pending_reads.insert(session_id, (worker_id, session_id));
                assert(self@ =~= old(self)@.with_pending(session_id, (worker_id, session_id)));
                Reading::Nothing
            },
            reading => reading,
        }
    }

    /// Whether a read would find something.
    pub fn poll(&self, session_id: u64) -> (r: bool)
        ensures
            r == self@.ready(session_id),
    {
        let has_queued_data = match self.output_queues.get(&session_id) {
            Some(queue) => queue.len() > 0,
            None => false,
        };
        has_queued_data || self.results.contains_key(&session_id)
    }
}

impl SessionsView {
    /// The functions that take a child's output, set if all three are given.
    pub open spec fn with_child_handlers(
        self,
        child_id: u64,
        on_stdout: Option<u64>,
        on_stderr: Option<u64>,
        on_exit: Option<u64>,
    ) -> SessionsView {
        match (on_stdout, on_stderr, on_exit) {
            (Some(stdout), Some(stderr), Some(exit)) => SessionsView {
                child_output_handlers: self.child_output_handlers.insert(
                    child_id,
                    (stdout, stderr, exit),
                ),
                ..self
            },
            _ => self,
        }
    }

    /// The functions that write to and close standard input, set if both are
    /// given.
    pub open spec fn with_stdin_writer(
        self,
        session_id: u64,
        writer: Option<u64>,
        closer: Option<u64>,
    ) -> SessionsView {
        match (writer, closer) {
            (Some(writer), Some(closer)) => SessionsView {
                stdin_writers: self.stdin_writers.insert(session_id, (writer, closer)),
                ..self
            },
            _ => self,
        }
    }

    /// The function that signals the process, set if it is given.
    pub open spec fn with_kill_function(self, session_id: u64, kill: Option<u64>) -> SessionsView {
        match kill {
            Some(kill) => SessionsView {
                signal_handlers: self.signal_handlers.insert(session_id, kill),
                ..self
            },
            None => self,
        }
    }
}

impl HostExecSessions {
    /// Sets the functions that take a child's output, provided that all three
    /// are functions.
    pub fn set_child_output_handlers(
        &mut self,
        child_id: u64,
        on_stdout: Option<u64>,
        on_stderr: Option<u64>,
        on_exit: Option<u64>,
    )
        ensures
            final(self)@ == old(self)@.with_child_handlers(child_id, on_stdout, on_stderr, on_exit),
            old(self)@.well_formed() ==> final(self)@.well_formed(),
    {
        if let (Some(stdout), Some(stderr), Some(exit)) = (on_stdout, on_stderr, on_exit) {
            self.child_output_handlers.insert(child_id, (stdout, stderr, exit));
            assert(self@ =~= old(self)@.with_child_handlers(
                child_id,
                on_stdout,
                on_stderr,
                on_exit,
            ));
        }
    }

    /// Sets the functions that write to and close a process's standard input,
    /// provided that both are functions.
    pub fn set_stdin_writer(&mut self, session_id: u64, writer: Option<u64>, closer: Option<u64>)
        ensures
            final(self)@ == old(self)@.with_stdin_writer(session_id, writer, closer),
            old(self)@.well_formed() ==> final(self)@.well_formed(),
    {
        if let (Some(w), Some(c)) = (writer, closer) {
            self.stdin_writers.insert(session_id, (w, c));
            assert(self@ =~= old(self)@.with_stdin_writer(session_id, writer, closer));
        }
    }

    /// Sets the function that signals a process, provided that it is one.
    pub fn set_kill_function(&mut self, session_id: u64, kill: Option<u64>)
        ensures
            final(self)@ == old(self)@.with_kill_function(session_id, kill),
            old(self)@.well_formed() ==> final(self)@.well_formed(),
    {
        if let Some(k) = kill {
            self.signal_handlers.insert(session_id, k);
            assert(self@ =~= old(self)@.with_kill_function(session_id, kill));
        }
    }

    /// Finds the function that writes to a process's standard input.
    pub fn stdin_writer(&self, session_id: u64) -> (r: Option<u64>)
        ensures
            r == (if self@.stdin_writers.contains_key(session_id) {
                Some(self@.stdin_writers[session_id].0)
            } else {
                None
            }),
    {
        match self.stdin_writers.get(&session_id) {
            Some((writer, _)) => Some(*writer),
            None => None,
        }
    }

    /// Takes the function that closes a process's standard input. From then on
    /// nothing can be written to it.
    pub fn take_stdin_closer(&mut self, session_id: u64) -> (r: Option<u64>)
        ensures
            r == (if old(self)@.stdin_writers.contains_key(session_id) {
                Some(old(self)@.stdin_writers[session_id].1)
            } else {
                None
            }),
            final(self)@ == (SessionsView {
                stdin_writers: old(self)@.stdin_writers.remove(session_id),
                ..old(self)@
            }),
            old(self)@.well_formed() ==> final(self)@.well_formed(),
    {
        let functions = self.stdin_writers.remove(&session_id);
        assert(self@ =~= (SessionsView {
            stdin_writers: old(self)@.stdin_writers.remove(session_id),
            ..old(self)@
        }));
        match functions {
            Some((_, closer)) => Some(closer),
            None => None,
        }
    }

    /// Finds the function that signals a process.
    pub fn kill_function(&self, session_id: u64) -> (r: Option<u64>)
        ensures
            r == (if self@.signal_handlers.contains_key(session_id) {
                Some(self@.signal_handlers[session_id])
            } else {
                None
            }),
    {
        match self.signal_handlers.get(&session_id) {
            Some(kill) => Some(*kill),
            None => None,
        }
    }

    /// Finds the functions that take a child's output.
    pub fn child_output(&self, child_id: u64) -> (r: Option<(u64, u64, u64)>)
        ensures
            r == (if self@.child_output_handlers.contains_key(child_id) {
                Some(self@.child_output_handlers[child_id])
            } else {
                None
            }),
    {
        match self.child_output_handlers.get(&child_id) {
            Some(functions) => Some(*functions),
            None => None,
        }
    }
}

/// An argument that the host gives to a callback.
#[derive(Debug)]
pub enum HostValue {
    /// A byte array.
    Bytes(Vec<u8>),
    /// A function, by handle.
    Function(u64),
    /// A number, as a 64-bit and as a 32-bit unsigned integer.
    Number { long: u64, word: u32 },
    /// Anything else; `undefined` among them.
    Other,
}

/// What a [`HostValue`] says.
pub enum HostValueView {
    Bytes(Seq<u8>),
    Function(u64),
    Number { long: u64, word: u32 },
    Other,
}

impl View for HostValue {
    type V = HostValueView;

    open spec fn view(&self) -> HostValueView {
        match *self {
            HostValue::Bytes(bytes) => HostValueView::Bytes(bytes@),
            HostValue::Function(function) => HostValueView::Function(function),
            HostValue::Number { long, word } => HostValueView::Number { long, word },
            HostValue::Other => HostValueView::Other,
        }
    }
}

/// What the arguments of a callback say.
pub open spec fn arguments_view(arguments: Seq<HostValue>) -> Seq<HostValueView> {
    arguments.map_values(|argument: HostValue| argument@)
}

/// The argument at a position. One that is not given is nothing in particular.
pub open spec fn argument_at(arguments: Seq<HostValueView>, position: int) -> HostValueView {
    if position < arguments.len() {
        arguments[position]
    } else {
        HostValueView::Other
    }
}

/// The bytes at a position, if it holds a byte array.
pub open spec fn bytes_given(arguments: Seq<HostValueView>, position: int) -> Option<Seq<u8>> {
    match argument_at(arguments, position) {
        HostValueView::Bytes(bytes) => Some(bytes),
        _ => None,
    }
}

/// The function at a position, if it holds one.
pub open spec fn function_given(arguments: Seq<HostValueView>, position: int) -> Option<u64> {
    match argument_at(arguments, position) {
        HostValueView::Function(function) => Some(function),
        _ => None,
    }
}

/// The child that a position names, if it holds a number.
pub open spec fn child_given(arguments: Seq<HostValueView>, position: int) -> Option<u64> {
    match argument_at(arguments, position) {
        HostValueView::Number { long, .. } => Some(long),
        _ => None,
    }
}

/// The signal that a position names, if it holds a number.
pub open spec fn signal_given(arguments: Seq<HostValueView>, position: int) -> Option<u32> {
    match argument_at(arguments, position) {
        HostValueView::Number { word, .. } => Some(word),
        _ => None,
    }
}

impl SessionsView {
    /// What a callback does when the host calls it. `request_json` is what it
    /// asks for when it asks for a child.
    pub open spec fn after_callback(
        self,
        session_id: u64,
        callback: Callback,
        arguments: Seq<HostValueView>,
        request_json: Seq<u8>,
    ) -> (SessionsView, Option<MessageView>) {
        match callback {
            Callback::OnStdout => match bytes_given(arguments, 0) {
                Some(data) => self.after_output(session_id, response::MSG_TYPE_STDOUT, data),
                None => (self, None),
            },
            Callback::OnStderr => match bytes_given(arguments, 0) {
                Some(data) => self.after_output(session_id, response::MSG_TYPE_STDERR, data),
                None => (self, None),
            },
            Callback::SetStdinWriter => (
                self.with_stdin_writer(
                    session_id,
                    function_given(arguments, 0),
                    function_given(arguments, 1),
                ),
                None,
            ),
            Callback::SetKillFunction => (
                self.with_kill_function(session_id, function_given(arguments, 0)),
                None,
            ),
            Callback::RequestSpawn => self.with_child_handlers(
                named_child(child_given(arguments, 0)),
                function_given(arguments, 5),
                function_given(arguments, 6),
                function_given(arguments, 7),
            ).after_request(session_id, response::MSG_TYPE_SPAWN_REQUEST, request_json),
            Callback::SpawnWriteStdin => match bytes_given(arguments, 1) {
                Some(data) => self.after_request(
                    session_id,
                    response::MSG_TYPE_SPAWN_STDIN,
                    words::le_bytes_u64(named_child(child_given(arguments, 0))) + data,
                ),
                None => (self, None),
            },
            Callback::SpawnCloseStdin => self.after_request(
                session_id,
                response::MSG_TYPE_SPAWN_CLOSE_STDIN,
                words::le_bytes_u64(named_child(child_given(arguments, 0))),
            ),
            Callback::SpawnKill => self.after_request(
                session_id,
                response::MSG_TYPE_SPAWN_KILL,
                words::le_bytes_u64(named_child(child_given(arguments, 0)))
                    + words::le_bytes_u32(named_signal(signal_given(arguments, 1))),
            ),
            Callback::SetChildOutputHandlers => (
                self.with_child_handlers(
                    session_id,
                    function_given(arguments, 0),
                    function_given(arguments, 1),
                    function_given(arguments, 2),
                ),
                None,
            ),
        }
    }
}

fn bytes_argument(arguments: &Vec<HostValue>, position: usize) -> (r: Option<Vec<u8>>)
    ensures
        response::optional_bytes(r) == bytes_given(arguments_view(arguments@), position as int),
{
    if position < arguments.len() {
        match &arguments[position] {
            HostValue::Bytes(bytes) => Some(vstd::slice::slice_to_vec(bytes.as_slice())),
            _ => None,
        }
    } else {
        None
    }
}

fn function_argument(arguments: &Vec<HostValue>, position: usize) -> (r: Option<u64>)
    ensures
        r == function_given(arguments_view(arguments@), position as int),
{
    if position < arguments.len() {
        match &arguments[position] {
            HostValue::Function(function) => Some(*function),
            _ => None,
        }
    } else {
        None
    }
}

fn child_argument(arguments: &Vec<HostValue>, position: usize) -> (r: Option<u64>)
    ensures
        r == child_given(arguments_view(arguments@), position as int),
{
    if position < arguments.len() {
        match &arguments[position] {
            HostValue::Number { long, .. } => Some(*long),
            _ => None,
        }
    } else {
        None
    }
}

fn signal_argument(arguments: &Vec<HostValue>, position: usize) -> (r: Option<u32>)
    ensures
        r == signal_given(arguments_view(arguments@), position as int),
{
    if position < arguments.len() {
        match &arguments[position] {
            HostValue::Number { word, .. } => Some(*word),
            _ => None,
        }
    } else {
        None
    }
}

impl HostExecSessions {
    /// The host calls a callback of a session. `request_json` is what it asks
    /// for when it asks for a child. The message that comes back, if any, is for
    /// the scheduler.
    pub fn called(
        &mut self,
        session_id: u64,
        callback: Callback,
        arguments: &Vec<HostValue>,
        request_json: Vec<u8>,
    ) -> (r: Option<SchedulerMessage>)
        ensures
            (final(self)@, optional_message(r)) == old(self)@.after_callback(
                session_id,
                callback,
                arguments_view(arguments@),
                request_json@,
            ),
            old(self)@.well_formed() ==> final(self)@.well_formed(),
    {
        match callback {
            Callback::OnStdout => self.on_stdout(session_id, bytes_argument(arguments, 0)),
            Callback::OnStderr => self.on_stderr(session_id, bytes_argument(arguments, 0)),
            Callback::SetStdinWriter => {
                self.set_stdin_writer(
                    session_id,
                    function_argument(arguments, 0),
                    function_argument(arguments, 1),
                );
                None
            },
            Callback::SetKillFunction => {
                self.set_kill_function(session_id, function_argument(arguments, 0));
                None
            },
            Callback::RequestSpawn => self.request_spawn(
                session_id,
                child_argument(arguments, 0),
                request_json,
                function_argument(arguments, 5),
                function_argument(arguments, 6),
                function_argument(arguments, 7),
            ),
            Callback::SpawnWriteStdin => self.spawn_write_stdin(
                session_id,
                child_argument(arguments, 0),
                bytes_argument(arguments, 1),
            ),
            Callback::SpawnCloseStdin => self.spawn_close_stdin(
                session_id,
                child_argument(arguments, 0),
            ),
            Callback::SpawnKill => self.spawn_kill(
                session_id,
                child_argument(arguments, 0),
                signal_argument(arguments, 1),
            ),
            Callback::SetChildOutputHandlers => {
                self.set_child_output_handlers(
                    session_id,
                    function_argument(arguments, 0),
                    function_argument(arguments, 1),
                    function_argument(arguments, 2),
                );
                None
            },
        }
    }
}

// ---------------------------------------------------------------------------
// Laws
// ---------------------------------------------------------------------------

/// One thing that happens to sessions.
pub enum SessionEvent {
    Output { session_id: u64, msg_type: u32, data: Seq<u8> },
    Request { session_id: u64, msg_type: u32, data: Seq<u8> },
    Exit { session_id: u64, exit_code: i32 },
    Read { worker_id: u32, session_id: u64 },
    TryRead { session_id: u64 },
}

/// The session that an event concerns.
pub open spec fn event_session(event: SessionEvent) -> u64 {
    match event {
        SessionEvent::Output { session_id, .. } => session_id,
        SessionEvent::Request { session_id, .. } => session_id,
        SessionEvent::Exit { session_id, .. } => session_id,
        SessionEvent::Read { session_id, .. } => session_id,
        SessionEvent::TryRead { session_id } => session_id,
    }
}

/// The sessions after an event.
pub open spec fn after_event(sessions: SessionsView, event: SessionEvent) -> SessionsView {
    match event {
        SessionEvent::Output { session_id, msg_type, data } => sessions.after_output(
            session_id,
            msg_type,
            data,
        ).0,
        SessionEvent::Request { session_id, msg_type, data } => sessions.after_request(
            session_id,
            msg_type,
            data,
        ).0,
        SessionEvent::Exit { session_id, exit_code } => sessions.after_exit(
            session_id,
            exit_code,
        ).0,
        SessionEvent::Read { worker_id, session_id } => sessions.after_read(
            worker_id,
            session_id,
        ).0,
        SessionEvent::TryRead { session_id } => sessions.after_taking(session_id).0,
    }
}

/// What an event adds to a session's output.
pub open spec fn produced_by(event: SessionEvent, session_id: u64) -> Seq<(u32, Seq<u8>)> {
    if event_session(event) != session_id {
        Seq::empty()
    } else {
        match event {
            SessionEvent::Output { msg_type, data, .. } => seq![(msg_type, data)],
            SessionEvent::Request { msg_type, data, .. } => seq![(msg_type, data)],
            _ => Seq::empty(),
        }
    }
}

/// The output in the answer to a waiting read.
pub open spec fn answered_with(message: Option<MessageView>) -> Seq<(u32, Seq<u8>)> {
    match message {
        Some(MessageView::HostExecReadComplete { msg_type, data, .. }) => seq![(msg_type, data)],
        _ => Seq::empty(),
    }
}

/// The output in what a read finds.
pub open spec fn found_in(reading: ReadingView) -> Seq<(u32, Seq<u8>)> {
    match reading {
        ReadingView::Data { msg_type, data } => seq![(msg_type, data)],
        _ => Seq::empty(),
    }
}

/// The output of a session that an event hands to a worker.
pub open spec fn delivered_by(
    sessions: SessionsView,
    event: SessionEvent,
    session_id: u64,
) -> Seq<(u32, Seq<u8>)> {
    if event_session(event) != session_id {
        Seq::empty()
    } else {
        match event {
            SessionEvent::Output { msg_type, data, .. } => answered_with(
                sessions.after_output(session_id, msg_type, data).1,
            ),
            SessionEvent::Request { msg_type, data, .. } => answered_with(
                sessions.after_request(session_id, msg_type, data).1,
            ),
            SessionEvent::Exit { .. } => Seq::empty(),
            SessionEvent::Read { worker_id, .. } => found_in(
                sessions.after_read(worker_id, session_id).1,
            ),
            SessionEvent::TryRead { .. } => found_in(sessions.after_taking(session_id).1),
        }
    }
}

/// Whether an event tells a worker that a session's process has ended.
pub open spec fn announces_exit(
    sessions: SessionsView,
    event: SessionEvent,
    session_id: u64,
) -> bool {
    event_session(event) == session_id && match event {
        SessionEvent::Exit { exit_code, .. } => sessions.after_exit(
            session_id,
            exit_code,
        ).1 is Some,
        SessionEvent::Read { worker_id, .. } => sessions.after_read(
            worker_id,
            session_id,
        ).1 is Exit,
        SessionEvent::TryRead { .. } => sessions.after_taking(session_id).1 is Exit,
        _ => false,
    }
}

/// The sessions after a run of events that starts with none.
pub open spec fn after_events(events: Seq<SessionEvent>) -> SessionsView
    decreases events.len(),
{
    if events.len() == 0 {
        SessionsView::empty()
    } else {
        after_event(after_events(events.drop_last()), events.last())
    }
}

/// All output of a session in a run of events.
pub open spec fn produced(events: Seq<SessionEvent>, session_id: u64) -> Seq<(u32, Seq<u8>)>
    decreases events.len(),
{
    if events.len() == 0 {
        Seq::empty()
    } else {
        produced(events.drop_last(), session_id) + produced_by(events.last(), session_id)
    }
}

/// All output of a session that workers got in a run of events.
pub open spec fn delivered(events: Seq<SessionEvent>, session_id: u64) -> Seq<(u32, Seq<u8>)>
    decreases events.len(),
{
    if events.len() == 0 {
        Seq::empty()
    } else {
        delivered(events.drop_last(), session_id) + delivered_by(
            after_events(events.drop_last()),
            events.last(),
            session_id,
        )
    }
}

/// Reads wait only where there is nothing to read, whatever happens.
pub proof fn law_reads_wait_only_for_something_new(events: Seq<SessionEvent>)
    ensures
        after_events(events).well_formed(),
    decreases events.len(),
{
    if events.len() > 0 {
        law_reads_wait_only_for_something_new(events.drop_last());
    }
}

/// No output is lost, duplicated or reordered: in any run of events, what
/// workers got of a session followed by what is still queued is everything that
/// the session produced, in order.
pub proof fn law_output_is_delivered_in_order(events: Seq<SessionEvent>, session_id: u64)
    ensures
        delivered(events, session_id) + after_events(events).queued(session_id) == produced(
            events,
            session_id,
        ),
    decreases events.len(),
{
    if events.len() > 0 {
        let before = after_events(events.drop_last());
        let event = events.last();
        law_output_is_delivered_in_order(events.drop_last(), session_id);
        law_reads_wait_only_for_something_new(events.drop_last());
        let queue = before.queued(session_id);
        let step = delivered_by(before, event, session_id);
        let after = after_event(before, event).queued(session_id);
        if event_session(event) != session_id {
            assert(after == queue);
            assert(step =~= Seq::empty());
        } else if before.pending_reads.contains_key(session_id) {
            assert(queue.len() == 0);
        }
        assert(step + after =~= queue + produced_by(event, session_id));
        assert(delivered(events, session_id) + after =~= delivered(events.drop_last(), session_id)
            + (step + after));
        assert(produced(events, session_id) =~= (delivered(events.drop_last(), session_id) + queue)
            + produced_by(event, session_id));
    } else {
        assert(delivered(events, session_id) + after_events(events).queued(session_id)
            =~= produced(events, session_id));
    }
}

/// A worker learns that a process has ended only after all of its output has
/// been handed out.
pub proof fn law_exit_follows_all_output(
    events: Seq<SessionEvent>,
    event: SessionEvent,
    session_id: u64,
)
    requires
        announces_exit(after_events(events), event, session_id),
    ensures
        delivered(events, session_id) == produced(events, session_id),
{
    law_output_is_delivered_in_order(events, session_id);
    law_reads_wait_only_for_something_new(events);
    assert(after_events(events).queued(session_id) =~= Seq::empty());
    assert(delivered(events, session_id) + Seq::<(u32, Seq<u8>)>::empty() =~= delivered(
        events,
        session_id,
    ));
}

/// A waiting read is answered by the next output, request or exit of its
/// session, with exactly what came.
pub proof fn law_waiting_read_is_answered(
    sessions: SessionsView,
    session_id: u64,
    msg_type: u32,
    data: Seq<u8>,
    exit_code: i32,
)
    requires
        sessions.well_formed(),
        sessions.pending_reads.contains_key(session_id),
    ensures
        ({
            let waiting = (sessions.pending_reads[session_id].0, session_id);
            let answer = Some(read_complete(waiting, msg_type, data));
            &&& sessions.after_output(session_id, msg_type, data).1 == answer
            &&& sessions.after_request(session_id, msg_type, data).1 == answer
            &&& sessions.after_exit(session_id, exit_code).1 == Some(
                read_complete(
                    waiting,
                    response::MSG_TYPE_EXIT,
                    words::le_bytes_i32(exit_code),
                ),
            )
        }),
{
}

/// A poll says whether a read would find something.
pub proof fn law_poll_predicts_read(sessions: SessionsView, session_id: u64)
    ensures
        sessions.ready(session_id) <==> !(sessions.after_taking(session_id).1 is Nothing),
{
}

/// Events of one session leave the others alone.
pub proof fn law_sessions_are_independent(
    sessions: SessionsView,
    event: SessionEvent,
    other: u64,
)
    requires
        event_session(event) != other,
    ensures
        ({
            let after = after_event(sessions, event);
            &&& after.queued(other) == sessions.queued(other)
            &&& after.results.contains_key(other) == sessions.results.contains_key(other)
            &&& after.results[other] == sessions.results[other]
            &&& after.pending_reads.contains_key(other) == sessions.pending_reads.contains_key(
                other,
            )
            &&& after.pending_reads[other] == sessions.pending_reads[other]
        }),
{
}

} // verus!
