//! The scheduler, which hands work to the workers of a pool and answers their
//! requests.
//!
//! The scheduler's state is a value. [`SchedulerState::execute`] takes a
//! message and says what is to be done about it as an [`Action`]; whoever runs
//! the scheduler carries the action out and, where the outcome matters, hands
//! it back.
use std::collections::VecDeque;
use tokio::sync::mpsc::UnboundedSender;
use vstd::prelude::*;
use crate::ids;
use crate::ids::WorkerIdCounter;
use crate::pipes;
use crate::pipes::buffers;
use crate::pipes::buffers::{AnswerView, PipeAnswer, PipeBuffers, PipesView};
use crate::pipes::{PipeErrorView, WaitOutcome};
use crate::response;
use crate::response::{BufferStore, StoreView};
use crate::tasks::host_exec_context;
use crate::tasks::host_exec_context::{
    HostExecContext, HostExecContextView, HostExecRequest, RequestView,
};
use crate::tasks::module_cache;
use crate::tasks::module_cache::{CachedModule, CachedView, ModuleCache};
use crate::tasks::module_hash::{HashView, ModuleHash};
use crate::tasks::post_message_payload;
use crate::tasks::post_message_payload::{
    AsyncJob, BlockingJob, PayloadView, PostMessagePayload,
};
use crate::tasks::scheduler_message::{MessageView, SchedulerMessage};
use crate::tasks::sessions::{HostExecSessions, Reading, ReadingView, SessionsView};
use crate::text;
use crate::words;

verus! {

// ---------------------------------------------------------------------------
// The handle
// ---------------------------------------------------------------------------

/// `tokio::sync::mpsc::UnboundedSender`, the sending half of a channel.
#[verifier::external_type_specification]
#[verifier::external_body]
#[verifier::reject_recursive_types(T)]
pub struct ExUnboundedSender<T>(UnboundedSender<T>);

/// Calls `tokio::sync::mpsc::UnboundedSender::send`. A message that cannot be
/// sent, because the receiving half is gone, comes back. Nothing is said about
/// whether it can be sent: the receiving half may be dropped at any time.
#[verifier::external_body]
fn channel_send(channel: &UnboundedSender<SchedulerMessage>, message: SchedulerMessage) -> (r: Result<
    (),
    SchedulerMessage,
>)
    ensures
        match r {
            Ok(_) => true,
            Err(returned) => returned == message,
        },
{
    match channel.send(message) {
        Ok(()) => Ok(()),
        Err(tokio::sync::mpsc::error::SendError(message)) => Err(message),
    }
}

/// Calls `tokio::sync::mpsc::UnboundedSender::is_closed`, which says whether the
/// receiving half is gone. It may go at any time, so nothing is said about the
/// result.
#[verifier::external_body]
fn channel_is_closed(channel: &UnboundedSender<SchedulerMessage>) -> (r: bool) {
    channel.is_closed()
}

/// `tokio::sync::mpsc::UnboundedSender::clone` gives another sending half of the
/// same channel. A sending half is opaque, so nothing is said about the result.
pub assume_specification<T>[ <UnboundedSender<T> as Clone>::clone ](
    channel: &UnboundedSender<T>,
) -> (r: UnboundedSender<T>)
;

/// A handle for sending messages to the scheduler.
#[derive(Debug)]
pub struct Scheduler {
    pub scheduler_thread_id: u32,
    pub channel: UnboundedSender<SchedulerMessage>,
}

impl Clone for Scheduler {
    fn clone(&self) -> (r: Scheduler)
        ensures
            r.scheduler_thread_id == self.scheduler_thread_id,
    {
        Scheduler {
            scheduler_thread_id: self.scheduler_thread_id,
            channel: self.channel.clone(),
        }
    }
}

/// How a message gets to the scheduler.
#[derive(Debug)]
pub enum Route {
    /// Through the channel, on the scheduler's own thread.
    Channel(SchedulerMessage),
    /// By `postMessage()`, from a worker; the worker's handle forwards it.
    Post(SchedulerMessage),
}

/// What is left to do after a message was given to a handle.
#[derive(Debug)]
pub enum Sending {
    /// The message is in the channel.
    Sent,
    /// The message is still to be posted.
    Post(SchedulerMessage),
    /// There is no scheduler any more.
    Failed(SchedulerError),
}

impl Scheduler {
    /// Whether handing `message` to this handle's channel can come out as
    /// `outcome`: sent, or given back. A call that has been made is the only
    /// way to know.
    pub closed spec fn handed_over(
        &self,
        message: SchedulerMessage,
        outcome: Result<(), SchedulerMessage>,
    ) -> bool {
        call_ensures(channel_send, (&self.channel, message), outcome)
    }

    /// Whether asking this handle's channel if its receiving half is gone can
    /// come out as `closed`. A call that has been made is the only way to know.
    pub closed spec fn reported_closed(&self, closed: bool) -> bool {
        call_ensures(channel_is_closed, (&self.channel,), closed)
    }

    /// A handle on a scheduler that runs on the given thread.
    pub fn new(channel: UnboundedSender<SchedulerMessage>, scheduler_thread_id: u32) -> (r:
        Scheduler)
        ensures
            r.scheduler_thread_id == scheduler_thread_id,
            r.channel == channel,
    {
        Scheduler { scheduler_thread_id, channel }
    }

    /// Decides how a message gets to the scheduler. Messages hold values that
    /// must not change threads, so only the scheduler's own thread uses the
    /// channel.
    pub fn route(&self, current_thread_id: u32, message: SchedulerMessage) -> (r: Route)
        ensures
            r == (if current_thread_id == self.scheduler_thread_id {
                Route::Channel(message)
            } else {
                Route::Post(message)
            }),
    {
        if current_thread_id == self.scheduler_thread_id {
            Route::Channel(message)
        } else {
            Route::Post(message)
        }
    }

    /// Sends a message to the scheduler, or hands it back to be posted.
    pub fn send(&self, current_thread_id: u32, message: SchedulerMessage) -> (r: Sending)
        ensures
            current_thread_id != self.scheduler_thread_id ==> r == Sending::Post(message),
            current_thread_id == self.scheduler_thread_id ==> exists|
                outcome: Result<(), SchedulerMessage>,
            | #[trigger]
                self.handed_over(message, outcome) && r == (match send_result(outcome) {
                    Ok(_) => Sending::Sent,
                    Err(error) => Sending::Failed(error),
                }),
    {
        match self.route(current_thread_id, message) {
            Route::Channel(message) => {
                let outcome = channel_send(&self.channel, message);
                assert(self.handed_over(message, outcome));
                match sent(outcome) {
                    Ok(_) => Sending::Sent,
                    Err(error) => Sending::Failed(error),
                }
            },
            Route::Post(message) => Sending::Post(message),
        }
    }

    /// Tells the scheduler to stop, by handing it the message to close through
    /// the channel. Fails if it already has stopped.
    pub fn close(&self) -> (r: Result<(), SchedulerError>)
        ensures
            exists|outcome: Result<(), SchedulerMessage>| #[trigger]
                self.handed_over(SchedulerMessage::Close, outcome) && r == send_result(outcome),
    {
        let outcome = channel_send(&self.channel, SchedulerMessage::Close);
        assert(self.handed_over(SchedulerMessage::Close, outcome));
        sent(outcome)
    }

    /// Whether the scheduler has stopped: what the channel says of its receiving
    /// half.
    pub fn is_closed(&self) -> (r: bool)
        ensures
            self.reported_closed(r),
    {
        channel_is_closed(&self.channel)
    }
}

/// What handing a message to the channel means to the sender: a message that is
/// given back was not taken, because there is no scheduler any more.
pub open spec fn send_result(outcome: Result<(), SchedulerMessage>) -> Result<(), SchedulerError> {
    match outcome {
        Ok(_) => Ok(()),
        Err(_) => Err(SchedulerError::Dead),
    }
}

/// Turns the outcome of handing a message to the channel into a result.
pub fn sent(outcome: Result<(), SchedulerMessage>) -> (r: Result<(), SchedulerError>)
    ensures
        r == send_result(outcome),
{
    match outcome {
        Ok(_) => Ok(()),
        Err(_) => Err(SchedulerError::Dead),
    }
}

/// Decides whether the scheduler goes on: it stops when the channel has ended
/// or when it is told to close, and carries out any other message.
pub fn next_to_execute(received: Option<SchedulerMessage>) -> (r: Option<SchedulerMessage>)
    ensures
        r == (if received == Some(SchedulerMessage::Close) {
            None
        } else {
            received
        }),
{
    match received {
        Some(SchedulerMessage::Close) => None,
        received => received,
    }
}

// ---------------------------------------------------------------------------
// Errors
// ---------------------------------------------------------------------------

/// Why a message could not be carried out.
#[derive(Debug)]
pub enum SchedulerError {
    /// No worker has this id.
    WorkerNotFound(u32),
    /// A worker could not be sent its message.
    Unsendable { worker_id: u32, cause: String },
    /// A worker could not be started.
    Unstartable(String),
    /// There is no scheduler any more.
    Dead,
}

/// What a [`SchedulerError`] says.
pub enum ErrorView {
    WorkerNotFound(u32),
    Unsendable { worker_id: u32, cause: Seq<char> },
    Unstartable(Seq<char>),
    Dead,
}

impl View for SchedulerError {
    type V = ErrorView;

    open spec fn view(&self) -> ErrorView {
        match *self {
            SchedulerError::WorkerNotFound(worker_id) => ErrorView::WorkerNotFound(worker_id),
            SchedulerError::Unsendable { worker_id, cause } => ErrorView::Unsendable {
                worker_id,
                cause: cause@,
            },
            SchedulerError::Unstartable(cause) => ErrorView::Unstartable(cause@),
            SchedulerError::Dead => ErrorView::Dead,
        }
    }
}

/// The text of an error.
pub open spec fn error_text(error: ErrorView) -> Seq<char> {
    match error {
        ErrorView::WorkerNotFound(worker_id) => "Worker "@ + text::decimal(worker_id as nat)
            + " not found"@,
        ErrorView::Unsendable { worker_id, .. } => "Unable to send a message to worker "@
            + text::decimal(worker_id as nat),
        ErrorView::Unstartable(cause) => cause,
        ErrorView::Dead => "Scheduler is dead"@,
    }
}

impl SchedulerError {
    /// The error as text.
    pub fn to_text(&self) -> (r: String)
        ensures
            r@ == error_text(self@),
    {
        match self {
            SchedulerError::WorkerNotFound(worker_id) => {
                let number = text::to_decimal(*worker_id as u64);
                let opening = text::joined("Worker ", number.as_str());
                text::joined(opening.as_str(), " not found")
            },
            SchedulerError::Unsendable { worker_id, .. } => {
                let number = text::to_decimal(*worker_id as u64);
                text::joined("Unable to send a message to worker ", number.as_str())
            },
            SchedulerError::Unstartable(cause) => cause.clone(),
            SchedulerError::Dead => "Scheduler is dead".to_owned(),
        }
    }
}

// ---------------------------------------------------------------------------
// State
// ---------------------------------------------------------------------------

/// A worker of the pool, by id.
#[derive(Debug, Clone, Copy, PartialEq, Eq)]
pub struct WorkerHandle {
    pub id: u32,
}

/// The ids of workers.
pub open spec fn worker_ids(workers: Seq<WorkerHandle>) -> Seq<u32> {
    workers.map_values(|worker: WorkerHandle| worker.id)
}

/// The state of the scheduler.
#[derive(Debug)]
pub struct SchedulerState {
    /// Workers that can take work, the next to get some first.
    pub idle: VecDeque<WorkerHandle>,
    /// Workers that are blocked and cannot take work.
    pub busy: VecDeque<WorkerHandle>,
    /// A handle on this scheduler.
    pub mailbox: Scheduler,
    /// The modules that every worker is told about.
    pub cached_modules: ModuleCache,
}

/// What a [`SchedulerState`] says.
#[verifier::ext_equal]
pub struct StateView {
    pub idle: Seq<u32>,
    pub busy: Seq<u32>,
    pub cached: Seq<CachedView>,
}

impl View for SchedulerState {
    type V = StateView;

    open spec fn view(&self) -> StateView {
        StateView {
            idle: worker_ids(self.idle@),
            busy: worker_ids(self.busy@),
            cached: self.cached_modules@,
        }
    }
}

/// What the scheduler shares with the callbacks that it hands out.
#[derive(Debug)]
pub struct SharedState {
    /// Hands out the ids of workers.
    pub worker_ids: WorkerIdCounter,
    pub sessions: HostExecSessions,
    pub pipes: PipeBuffers,
    /// The function that executes programs on the host, by handle.
    pub host_exec_handler: Option<u64>,
}

/// What a [`SharedState`] says.
#[verifier::ext_equal]
pub struct SharedView {
    pub next_worker_id: u32,
    pub sessions: SessionsView,
    pub pipes: PipesView,
    pub host_exec_handler: Option<u64>,
}

impl View for SharedState {
    type V = SharedView;

    open spec fn view(&self) -> SharedView {
        SharedView {
            next_worker_id: self.worker_ids.next,
            sessions: self.sessions@,
            pipes: self.pipes@,
            host_exec_handler: self.host_exec_handler,
        }
    }
}

impl SharedState {
    /// Nothing shared yet. The first worker gets id 1.
    pub fn new() -> (r: SharedState)
        ensures
            r@.next_worker_id == 1,
            r@.sessions == SessionsView::empty(),
            r@.pipes == Map::<u64, buffers::PipeView>::empty(),
            r@.host_exec_handler is None,
    {
        SharedState {
            worker_ids: WorkerIdCounter::starting_at(1),
            sessions: HostExecSessions::new(),
            pipes: PipeBuffers::new(),
            host_exec_handler: None,
        }
    }
}

impl StateView {
    /// All workers, idle ones first.
    pub open spec fn workers(self) -> Seq<u32> {
        self.idle + self.busy
    }
}

/// Where an id first stands in a list; its length if it does not.
pub open spec fn first_position(workers: Seq<u32>, id: u32) -> int
    decreases workers.len(),
{
    if workers.len() == 0 || workers[0] == id {
        0
    } else {
        1 + first_position(workers.skip(1), id)
    }
}

/// Two lists of workers after the first worker with an id has gone from the
/// first list to the end of the second.
pub open spec fn moved(worker_id: u32, from: Seq<u32>, to: Seq<u32>) -> (Seq<u32>, Seq<u32>) {
    let position = first_position(from, worker_id);
    if position < from.len() {
        (from.remove(position), to.push(worker_id))
    } else {
        (from, to)
    }
}

// ---------------------------------------------------------------------------
// Actions
// ---------------------------------------------------------------------------

/// What a function of the host is called with.
#[derive(Debug)]
pub enum CallArgument {
    Nothing,
    Bytes(Vec<u8>),
    Signal(u32),
    ExitCode(i32),
}

/// What is to be done about a message.
#[derive(Debug)]
pub enum Action {
    /// Nothing.
    Done,
    /// The message has failed.
    Fail(SchedulerError),
    /// Send a worker some work. A worker that does not exist yet is first
    /// started and told about the modules in `start`, in order. The outcome
    /// goes to [`SchedulerState::posted`].
    Post {
        worker: WorkerHandle,
        start: Option<Vec<CachedModule>>,
        payload: PostMessagePayload,
        would_block: bool,
    },
    /// Tell workers about a module, in order, up to the first that cannot be
    /// told.
    Broadcast { workers: Vec<u32>, hash: ModuleHash, module: u64 },
    /// Send a worker a message.
    Send { worker_id: u32, payload: PostMessagePayload },
    /// Write into a worker's shared buffer.
    Store { worker_id: u32, stores: Vec<BufferStore> },
    /// Parse a request. The outcome goes to
    /// [`SchedulerState::request_parsed`].
    ParseRequest { worker_id: u32, request_id: u64, request_json: Vec<u8> },
    /// Call the host execution handler. The outcome goes to
    /// [`SchedulerState::handler_returned`].
    CallHandler { worker_id: u32, request_id: u64, handler: u64, context: HostExecContext },
    /// Call a function of the host. Whether it fails does not matter.
    Call { function: u64, argument: CallArgument },
}

/// What a [`CallArgument`] says.
pub enum ArgumentView {
    Nothing,
    Bytes(Seq<u8>),
    Signal(u32),
    ExitCode(i32),
}

impl View for CallArgument {
    type V = ArgumentView;

    open spec fn view(&self) -> ArgumentView {
        match *self {
            CallArgument::Nothing => ArgumentView::Nothing,
            CallArgument::Bytes(bytes) => ArgumentView::Bytes(bytes@),
            CallArgument::Signal(signal) => ArgumentView::Signal(signal),
            CallArgument::ExitCode(exit_code) => ArgumentView::ExitCode(exit_code),
        }
    }
}

/// What an [`Action`] says.
#[allow(inconsistent_fields)]
pub enum ActionView {
    Done,
    Fail(ErrorView),
    Post { worker: u32, start: Option<Seq<CachedView>>, payload: PayloadView, would_block: bool },
    Broadcast { workers: Seq<u32>, hash: HashView, module: u64 },
    Send { worker_id: u32, payload: PayloadView },
    Store { worker_id: u32, stores: Seq<StoreView> },
    ParseRequest { worker_id: u32, request_id: u64, request_json: Seq<u8> },
    CallHandler { worker_id: u32, request_id: u64, handler: u64, context: HostExecContextView },
    Call { function: u64, argument: ArgumentView },
}

/// What a list of cached modules says.
pub open spec fn modules_view(modules: Seq<CachedModule>) -> Seq<CachedView> {
    modules.map_values(|module: CachedModule| module@)
}

impl View for Action {
    type V = ActionView;

    open spec fn view(&self) -> ActionView {
        match *self {
            Action::Done => ActionView::Done,
            Action::Fail(error) => ActionView::Fail(error@),
            Action::Post { worker, start, payload, would_block } => ActionView::Post {
                worker: worker.id,
                start: match start {
                    Some(modules) => Some(modules_view(modules@)),
                    None => None,
                },
                payload: payload@,
                would_block,
            },
            Action::Broadcast { workers, hash, module } => ActionView::Broadcast {
                workers: workers@,
                hash: hash@,
                module,
            },
            Action::Send { worker_id, payload } => ActionView::Send {
                worker_id,
                payload: payload@,
            },
            Action::Store { worker_id, stores } => ActionView::Store {
                worker_id,
                stores: response::stores_view(stores@),
            },
            Action::ParseRequest { worker_id, request_id, request_json } => {
                ActionView::ParseRequest { worker_id, request_id, request_json: request_json@ }
            },
            Action::CallHandler { worker_id, request_id, handler, context } => {
                ActionView::CallHandler { worker_id, request_id, handler, context: context@ }
            },
            Action::Call { function, argument } => ActionView::Call {
                function,
                argument: argument@,
            },
        }
    }
}

// ---------------------------------------------------------------------------
// What each message does
// ---------------------------------------------------------------------------

impl StateView {
    /// Writing into the buffer of a worker, which fails if there is none.
    pub open spec fn storing(self, worker_id: u32, stores: Seq<StoreView>) -> ActionView {
        if self.workers().contains(worker_id) {
            ActionView::Store { worker_id, stores }
        } else {
            ActionView::Fail(ErrorView::WorkerNotFound(worker_id))
        }
    }

    /// Sending a message to a worker, which fails if there is none.
    pub open spec fn sending(self, worker_id: u32, payload: PayloadView) -> ActionView {
        if self.workers().contains(worker_id) {
            ActionView::Send { worker_id, payload }
        } else {
            ActionView::Fail(ErrorView::WorkerNotFound(worker_id))
        }
    }

    /// Answering a pipe read, if there is an answer.
    pub open spec fn answering(self, answer: Option<AnswerView>) -> ActionView {
        match answer {
            Some(answer) => self.storing(
                answer.worker_id,
                response::pipe_response_stores(answer.data),
            ),
            None => ActionView::Done,
        }
    }

    /// Handing out work: to the first idle worker, or to a new one.
    pub open spec fn posting(self, shared: SharedView, payload: PayloadView) -> (
        StateView,
        SharedView,
        ActionView,
    ) {
        let would_block = post_message_payload::blocks(payload);
        if self.idle.len() > 0 {
            (
                StateView { idle: self.idle.skip(1), ..self },
                shared,
                ActionView::Post { worker: self.idle[0], start: None, payload, would_block },
            )
        } else {
            (
                self,
                SharedView {
                    next_worker_id: ids::nth_worker_id(shared.next_worker_id, 1),
                    ..shared
                },
                ActionView::Post {
                    worker: shared.next_worker_id,
                    start: Some(self.cached),
                    payload,
                    would_block,
                },
            )
        }
    }

    /// What answers a read, from what it found.
    pub open spec fn reading(self, worker_id: u32, session_id: u64, reading: ReadingView) -> ActionView {
        match reading {
            ReadingView::Data { msg_type, data } => self.storing(
                worker_id,
                response::data_response_stores(session_id, msg_type, data),
            ),
            ReadingView::Exit(exit_code) => self.storing(
                worker_id,
                response::exit_response_stores(session_id, exit_code),
            ),
            ReadingView::Nothing => ActionView::Done,
        }
    }

    /// What completes a read that waited.
    pub open spec fn completing(
        self,
        worker_id: u32,
        session_id: u64,
        msg_type: u32,
        data: Seq<u8>,
    ) -> ActionView {
        if msg_type == response::MSG_TYPE_EXIT && data.len() >= 4 {
            self.storing(
                worker_id,
                response::exit_response_stores(session_id, words::i32_from_le(data.subrange(0, 4))),
            )
        } else {
            self.storing(worker_id, response::data_response_stores(session_id, msg_type, data))
        }
    }

    /// What a worker is told about the start of a host execution.
    pub open spec fn start_answered(
        self,
        worker_id: u32,
        request_id: u64,
        result: Result<u64, Seq<char>>,
    ) -> ActionView {
        self.sending(worker_id, PayloadView::HostExecStartResponse { request_id, result })
    }

    /// What a parsed request leads to.
    pub open spec fn parsed(
        self,
        shared: SharedView,
        worker_id: u32,
        request_id: u64,
        request: Result<RequestView, Seq<char>>,
    ) -> ActionView {
        match (request, shared.host_exec_handler) {
            (Err(e), _) => self.start_answered(
                worker_id,
                request_id,
                Err("Failed to parse request: "@ + e),
            ),
            (Ok(_), None) => self.start_answered(
                worker_id,
                request_id,
                Err("host_exec handler not registered"@),
            ),
            (Ok(request), Some(handler)) => ActionView::CallHandler {
                worker_id,
                request_id,
                handler,
                context: host_exec_context::context_of(request, request_id),
            },
        }
    }
}

/// What to do with a child's output.
pub open spec fn child_output(
    sessions: SessionsView,
    child_id: u64,
    msg_type: u32,
    data: Seq<u8>,
) -> ActionView {
    if !sessions.child_output_handlers.contains_key(child_id) {
        ActionView::Done
    } else {
        let (stdout, stderr, exit) = sessions.child_output_handlers[child_id];
        if msg_type == response::MSG_TYPE_CHILD_STDOUT {
            ActionView::Call { function: stdout, argument: ArgumentView::Bytes(data) }
        } else if msg_type == response::MSG_TYPE_CHILD_STDERR {
            ActionView::Call { function: stderr, argument: ArgumentView::Bytes(data) }
        } else if msg_type == response::MSG_TYPE_CHILD_EXIT {
            ActionView::Call {
                function: exit,
                argument: ArgumentView::ExitCode(
                    if data.len() >= 4 {
                        words::i32_from_le(data.subrange(0, 4))
                    } else {
                        0
                    },
                ),
            }
        } else {
            ActionView::Done
        }
    }
}

/// What a message does to the scheduler and what is to be done about it.
pub open spec fn step(state: StateView, shared: SharedView, message: MessageView) -> (
    StateView,
    SharedView,
    ActionView,
) {
    match message {
        MessageView::Close => (
            StateView { idle: Seq::empty(), ..state },
            shared,
            ActionView::Done,
        ),
        MessageView::SpawnAsync(task) => state.posting(shared, PayloadView::AsyncThunk(task)),
        MessageView::SpawnBlocking(task) => state.posting(shared, PayloadView::BlockingThunk(task)),
        MessageView::CacheModule { hash, module } => (
            StateView { cached: module_cache::with_module(state.cached, hash, module), ..state },
            shared,
            ActionView::Broadcast { workers: state.workers(), hash, module },
        ),
        MessageView::SpawnWithModule { module, task } => state.posting(
            shared,
            PayloadView::SpawnWithModule { module, task },
        ),
        MessageView::SpawnWithModuleAndMemory {
            module,
            memory,
            spawn_wasm,
            subprocess_stdio,
            fork_pipes,
        } => state.posting(
            shared,
            PayloadView::SpawnWithModuleAndMemory {
                module,
                memory,
                spawn_wasm,
                subprocess_stdio,
                fork_pipes,
            },
        ),
        MessageView::WorkerBusy { worker_id } => {
            let (idle, busy) = moved(worker_id, state.idle, state.busy);
            (StateView { idle, busy, ..state }, shared, ActionView::Done)
        },
        MessageView::WorkerIdle { worker_id } => {
            let (busy, idle) = moved(worker_id, state.busy, state.idle);
            (StateView { idle, busy, ..state }, shared, ActionView::Done)
        },
        MessageView::HostExecStart { worker_id, request_id, request_json } => (
            state,
            shared,
            ActionView::ParseRequest { worker_id, request_id, request_json },
        ),
        MessageView::HostExecRead { worker_id, session_id, .. } => {
            let (sessions, reading) = shared.sessions.after_read(worker_id, session_id);
            (
                state,
                SharedView { sessions, ..shared },
                state.reading(worker_id, session_id, reading),
            )
        },
        MessageView::HostExecReadComplete { worker_id, request_id, msg_type, data } => (
            state,
            shared,
            state.completing(worker_id, request_id, msg_type, data),
        ),
        MessageView::HostExecWrite { session_id, data, .. } => (
            state,
            shared,
            if shared.sessions.stdin_writers.contains_key(session_id) {
                ActionView::Call {
                    function: shared.sessions.stdin_writers[session_id].0,
                    argument: ArgumentView::Bytes(data),
                }
            } else {
                ActionView::Done
            },
        ),
        MessageView::HostExecCloseStdin { session_id, .. } => (
            state,
            SharedView {
                sessions: SessionsView {
                    stdin_writers: shared.sessions.stdin_writers.remove(session_id),
                    ..shared.sessions
                },
                ..shared
            },
            if shared.sessions.stdin_writers.contains_key(session_id) {
                ActionView::Call {
                    function: shared.sessions.stdin_writers[session_id].1,
                    argument: ArgumentView::Nothing,
                }
            } else {
                ActionView::Done
            },
        ),
        MessageView::HostExecTryRead { worker_id, session_id, .. } => {
            let (sessions, reading) = shared.sessions.after_taking(session_id);
            (
                state,
                SharedView { sessions, ..shared },
                match reading {
                    ReadingView::Nothing => state.storing(
                        worker_id,
                        response::status_response_stores(session_id, 2),
                    ),
                    _ => state.reading(worker_id, session_id, reading),
                },
            )
        },
        MessageView::HostExecPoll { worker_id, session_id, .. } => (
            state,
            shared,
            state.storing(
                worker_id,
                response::status_response_stores(
                    session_id,
                    if shared.sessions.ready(session_id) {
                        1
                    } else {
                        2
                    },
                ),
            ),
        ),
        MessageView::HostExecSignal { session_id, signal, .. } => (
            state,
            shared,
            if shared.sessions.signal_handlers.contains_key(session_id) {
                ActionView::Call {
                    function: shared.sessions.signal_handlers[session_id],
                    argument: ArgumentView::Signal(signal),
                }
            } else {
                ActionView::Done
            },
        ),
        MessageView::HostExecChildOutput { child_id, msg_type, data, .. } => (
            state,
            shared,
            child_output(shared.sessions, child_id, msg_type, data),
        ),
        MessageView::PipeCreate { pipe_id, .. } => (
            state,
            SharedView {
                pipes: shared.pipes.insert(pipe_id, buffers::PipeView::fresh()),
                ..shared
            },
            ActionView::Done,
        ),
        MessageView::PipeWrite { pipe_id, data, .. } => {
            let (pipes, answer) = buffers::pipes_after_write(shared.pipes, pipe_id, data);
            (state, SharedView { pipes, ..shared }, state.answering(answer))
        },
        MessageView::PipeRead { pipe_id, worker_id, max_len } => {
            let (pipes, answer) = buffers::pipes_after_read(
                shared.pipes,
                pipe_id,
                worker_id,
                max_len,
            );
            (state, SharedView { pipes, ..shared }, state.answering(answer))
        },
        MessageView::PipeClose { pipe_id, .. } => {
            let (pipes, answer) = buffers::pipes_after_close(shared.pipes, pipe_id);
            (state, SharedView { pipes, ..shared }, state.answering(answer))
        },
    }
}

/// How sending work to a worker went.
#[derive(Debug)]
pub enum PostOutcome {
    Sent,
    /// The worker could not be started or told about the cached modules.
    NotStarted(String),
    /// The work could not be sent.
    NotSent(String),
}

/// What a [`PostOutcome`] says.
pub enum OutcomeView {
    Sent,
    NotStarted(Seq<char>),
    NotSent(Seq<char>),
}

impl View for PostOutcome {
    type V = OutcomeView;

    open spec fn view(&self) -> OutcomeView {
        match *self {
            PostOutcome::Sent => OutcomeView::Sent,
            PostOutcome::NotStarted(cause) => OutcomeView::NotStarted(cause@),
            PostOutcome::NotSent(cause) => OutcomeView::NotSent(cause@),
        }
    }
}

/// The scheduler after work was sent: the worker joins the busy or the idle
/// ones. Where it was not sent, the worker is given up.
pub open spec fn after_post(
    state: StateView,
    worker: u32,
    would_block: bool,
    outcome: OutcomeView,
) -> (StateView, Result<(), ErrorView>) {
    match outcome {
        OutcomeView::Sent => (
            if would_block {
                StateView { busy: state.busy.push(worker), ..state }
            } else {
                StateView { idle: state.idle.push(worker), ..state }
            },
            Ok(()),
        ),
        OutcomeView::NotStarted(cause) => (state, Err(ErrorView::Unstartable(cause))),
        OutcomeView::NotSent(cause) => (
            state,
            Err(ErrorView::Unsendable { worker_id: worker, cause }),
        ),
    }
}

/// How calling the host execution handler went.
#[derive(Debug)]
pub enum HandlerOutcome {
    /// It returned a promise, whose result goes to
    /// [`HostExecSessions::promise_settled`].
    Promise,
    /// It returned something else.
    NotAPromise,
    /// It threw.
    Failed(String),
}

/// What a worker is told about the start of a host execution, from how calling
/// the handler went. A session has the id of the request that started it.
pub open spec fn handler_result(request_id: u64, outcome: HandlerOutcome) -> Result<
    u64,
    Seq<char>,
> {
    match outcome {
        HandlerOutcome::Promise => Ok(request_id),
        HandlerOutcome::NotAPromise => Err("Handler did not return a Promise"@),
        HandlerOutcome::Failed(e) => Err("Handler failed: "@ + e@),
    }
}

// ---------------------------------------------------------------------------
// Carrying out messages
// ---------------------------------------------------------------------------

/// Finds where an id first stands in a list.
fn find_worker(workers: &VecDeque<WorkerHandle>, worker_id: u32) -> (r: Option<usize>)
    ensures
        match r {
            Some(position) => position == first_position(worker_ids(workers@), worker_id)
                && position < workers@.len() && workers@[position as int].id == worker_id,
            None => first_position(worker_ids(workers@), worker_id) == workers@.len()
                && !worker_ids(workers@).contains(worker_id),
        },
{
    let ghost all = worker_ids(workers@);
    let mut i: usize = 0;
    assert(all.skip(0) =~= all);
    while i < workers.len()
        invariant
            all == worker_ids(workers@),
            i <= workers@.len(),
            first_position(all, worker_id) == i + first_position(all.skip(i as int), worker_id),
            forall|j: int| 0 <= j < i ==> all[j] != worker_id,
        decreases workers@.len() - i,
    {
        let ghost rest = all.skip(i as int);
        assert(rest[0] == workers@[i as int].id);
        if workers[i].id == worker_id {
            return Some(i);
        }
        assert(rest.skip(1) =~= all.skip(i + 1));
        i = i + 1;
    }
    None
}

/// Moves the first worker with an id from one list to the end of another.
pub fn move_worker(
    worker_id: u32,
    from: &mut VecDeque<WorkerHandle>,
    to: &mut VecDeque<WorkerHandle>,
)
    ensures
        (worker_ids(final(from)@), worker_ids(final(to)@)) == moved(
            worker_id,
            worker_ids(old(from)@),
            worker_ids(old(to)@),
        ),
{
    if let Some(position) = find_worker(from, worker_id) {
        if let Some(worker) = from.remove(position) {
            to.push_back(worker);
        }
        assert(worker_ids(from@) =~= worker_ids(old(from)@).remove(position as int));
        assert(worker_ids(to@) =~= worker_ids(old(to)@).push(worker_id));
    }
}

/// Copies a list of cached modules.
fn copy_modules(modules: &Vec<CachedModule>) -> (r: Vec<CachedModule>)
    ensures
        r@ == modules@,
{
    let mut copy: Vec<CachedModule> = Vec::new();
    let mut i: usize = 0;
    while i < modules.len()
        invariant
            i <= modules@.len(),
            copy@ == modules@.take(i as int),
        decreases modules@.len() - i,
    {
        copy.push(modules[i]);
        i = i + 1;
        assert(copy@ =~= modules@.take(i as int));
    }
    assert(modules@.take(i as int) =~= modules@);
    copy
}

/// Adds the ids of workers to a list.
fn push_ids(ids: &mut Vec<u32>, workers: &VecDeque<WorkerHandle>)
    ensures
        final(ids)@ == old(ids)@ + worker_ids(workers@),
{
    let mut i: usize = 0;
    assert(ids@ =~= old(ids)@ + worker_ids(workers@).take(0));
    while i < workers.len()
        invariant
            i <= workers@.len(),
            ids@ == old(ids)@ + worker_ids(workers@).take(i as int),
        decreases workers@.len() - i,
    {
        ids.push(workers[i].id);
        i = i + 1;
        assert(ids@ =~= old(ids)@ + worker_ids(workers@).take(i as int));
    }
    assert(worker_ids(workers@).take(i as int) =~= worker_ids(workers@));
}

impl SchedulerState {
    /// A scheduler without workers.
    pub fn new(mailbox: Scheduler) -> (r: SchedulerState)
        ensures
            r@.idle == Seq::<u32>::empty(),
            r@.busy == Seq::<u32>::empty(),
            r@.cached == Seq::<CachedView>::empty(),
            r.mailbox == mailbox,
    {
        let r = SchedulerState {
            idle: VecDeque::new(),
            busy: VecDeque::new(),
            mailbox,
            cached_modules: ModuleCache::new(),
        };
        assert(r@.idle =~= Seq::<u32>::empty());
        assert(r@.busy =~= Seq::<u32>::empty());
        r
    }

    /// Whether there is a worker with an id.
    fn has_worker(&self, worker_id: u32) -> (r: bool)
        ensures
            r == self@.workers().contains(worker_id),
    {
        let in_idle = find_worker(&self.idle, worker_id);
        let in_busy = find_worker(&self.busy, worker_id);
        proof {
            let n = self@.idle.len() as int;
            match in_idle {
                Some(i) => {
                    assert(self@.workers()[i as int] == worker_id);
                },
                None => match in_busy {
                    Some(i) => {
                        assert(self@.workers()[n + i] == worker_id);
                    },
                    None => {
                        if self@.workers().contains(worker_id) {
                            let j = self@.workers().index_of(worker_id);
                            if j < n {
                                assert(self@.idle[j] == worker_id);
                            } else {
                                assert(self@.busy[j - n] == worker_id);
                            }
                        }
                    },
                },
            }
        }
        in_idle.is_some() || in_busy.is_some()
    }

    /// Writes into the buffer of a worker.
    fn store_for(&self, worker_id: u32, stores: Vec<BufferStore>) -> (r: Action)
        ensures
            r@ == self@.storing(worker_id, response::stores_view(stores@)),
    {
        if self.has_worker(worker_id) {
            Action::Store { worker_id, stores }
        } else {
            Action::Fail(SchedulerError::WorkerNotFound(worker_id))
        }
    }

    /// Answers a read with data.
    pub fn send_host_exec_read_response(
        &self,
        worker_id: u32,
        session_id: u64,
        msg_type: u32,
        data: Vec<u8>,
    ) -> (r: Action)
        ensures
            r@ == self@.storing(
                worker_id,
                response::data_response_stores(session_id, msg_type, data@),
            ),
    {
        self.store_for(worker_id, response::data_response(session_id, msg_type, data))
    }

    /// Answers a read with an exit code.
    pub fn send_host_exec_exit_response(&self, worker_id: u32, session_id: u64, exit_code: i32) -> (r:
        Action)
        ensures
            r@ == self@.storing(worker_id, response::exit_response_stores(session_id, exit_code)),
    {
        self.store_for(worker_id, response::exit_response(session_id, exit_code))
    }

    /// Answers a read that does not wait when there is nothing to read.
    pub fn send_host_exec_try_read_no_data(&self, worker_id: u32, session_id: u64) -> (r: Action)
        ensures
            r@ == self@.storing(worker_id, response::status_response_stores(session_id, 2)),
    {
        self.store_for(worker_id, response::no_data_response(session_id))
    }

    /// Answers a poll.
    pub fn send_host_exec_poll_response(&self, worker_id: u32, session_id: u64, is_ready: bool) -> (r:
        Action)
        ensures
            r@ == self@.storing(
                worker_id,
                response::status_response_stores(
                    session_id,
                    if is_ready {
                        1
                    } else {
                        2
                    },
                ),
            ),
    {
        self.store_for(worker_id, response::poll_response(session_id, is_ready))
    }

    /// Answers a pipe read, if there is an answer.
    pub fn send_pipe_read_response(&self, answer: Option<PipeAnswer>) -> (r: Action)
        ensures
            r@ == self@.answering(buffers::optional_answer(answer)),
    {
        match answer {
            Some(PipeAnswer { worker_id, data }) => {
                self.store_for(worker_id, response::pipe_response(data))
            },
            None => Action::Done,
        }
    }

    /// Sends a message to a worker.
    pub fn send_to_worker(&self, worker_id: u32, payload: PostMessagePayload) -> (r: Action)
        ensures
            r@ == self@.sending(worker_id, payload@),
    {
        if self.has_worker(worker_id) {
            Action::Send { worker_id, payload }
        } else {
            Action::Fail(SchedulerError::WorkerNotFound(worker_id))
        }
    }

    /// Tells a worker about the start of a host execution.
    pub fn send_host_exec_start_response(
        &self,
        worker_id: u32,
        request_id: u64,
        result: Result<u64, String>,
    ) -> (r: Action)
        ensures
            r@ == self@.start_answered(
                worker_id,
                request_id,
                match result {
                    Ok(session_id) => Ok(session_id),
                    Err(error) => Err(error@),
                },
            ),
    {
        self.send_to_worker(
            worker_id,
            PostMessagePayload::HostExecStartResponse { request_id, result },
        )
    }

    /// Takes the worker that gets the next work: the first idle one, or else a
    /// new one, which is to be told about all cached modules.
    pub fn next_available_worker(&mut self, shared: &mut SharedState) -> (r: (
        WorkerHandle,
        Option<Vec<CachedModule>>,
    ))
        ensures
            forall|payload: PayloadView| #[trigger]
                old(self)@.posting(old(shared)@, payload) == (
                    final(self)@,
                    final(shared)@,
                    ActionView::Post {
                        worker: r.0.id,
                        start: match r.1 {
                            Some(modules) => Some(modules_view(modules@)),
                            None => None,
                        },
                        payload,
                        would_block: post_message_payload::blocks(payload),
                    },
                ),
            match r.1 {
                None => {
                    &&& old(self)@.idle.len() > 0
                    &&& r.0.id == old(self)@.idle[0]
                    &&& final(self)@ == (StateView {
                        idle: old(self)@.idle.skip(1),
                        ..old(self)@
                    })
                    &&& final(shared)@ == old(shared)@
                },
                Some(modules) => {
                    &&& old(self)@.idle.len() == 0
                    &&& r.0.id == old(shared)@.next_worker_id
                    &&& modules_view(modules@) == old(self)@.cached
                    &&& final(self)@ == old(self)@
                    &&& final(shared)@ == (SharedView {
                        next_worker_id: ids::nth_worker_id(old(shared)@.next_worker_id, 1),
                        ..old(shared)@
                    })
                },
            },
            final(self).mailbox == old(self).mailbox,
    {
        match self.idle.pop_front() {
            Some(worker) => {
                assert(self@.idle =~= old(self)@.idle.skip(1));
                (worker, None)
            },
            None => self.start_worker(shared),
        }
    }

    /// Starts a worker: gives it an id, and finds what it is to be told.
    pub fn start_worker(&self, shared: &mut SharedState) -> (r: (
        WorkerHandle,
        Option<Vec<CachedModule>>,
    ))
        ensures
            r.0.id == old(shared)@.next_worker_id,
            r.1 is Some && modules_view(r.1->0@) == self@.cached,
            final(shared)@ == (SharedView {
                next_worker_id: ids::nth_worker_id(old(shared)@.next_worker_id, 1),
                ..old(shared)@
            }),
    {
        let id = shared.worker_ids.allocate();
        let modules = copy_modules(&self.cached_modules.entries);
        (WorkerHandle { id }, Some(modules))
    }

    /// Hands out work, preferring workers that are not blocked.
    pub fn post_message(&mut self, shared: &mut SharedState, payload: PostMessagePayload) -> (r:
        Action)
        ensures
            (final(self)@, final(shared)@, r@) == old(self)@.posting(old(shared)@, payload@),
            final(self).mailbox == old(self).mailbox,
    {
        let would_block = payload.would_block();
        let (worker, start) = self.next_available_worker(shared);
        Action::Post { worker, start, payload, would_block }
    }

    /// Takes note of how sending work went.
    pub fn posted(&mut self, worker: WorkerHandle, would_block: bool, outcome: PostOutcome) -> (r:
        Result<(), SchedulerError>)
        ensures
            ({
                let (state, result) = after_post(old(self)@, worker.id, would_block, outcome@);
                &&& final(self)@ == state
                &&& match (r, result) {
                    (Ok(_), Ok(_)) => true,
                    (Err(e), Err(f)) => e@ == f,
                    _ => false,
                }
            }),
            final(self).mailbox == old(self).mailbox,
    {
        match outcome {
            PostOutcome::Sent => {
                if would_block {
                    self.busy.push_back(worker);
                    assert(self@.busy =~= old(self)@.busy.push(worker.id));
                } else {
                    self.idle.push_back(worker);
                    assert(self@.idle =~= old(self)@.idle.push(worker.id));
                }
                Ok(())
            },
            PostOutcome::NotStarted(cause) => Err(SchedulerError::Unstartable(cause)),
            PostOutcome::NotSent(cause) => Err(
                SchedulerError::Unsendable { worker_id: worker.id, cause },
            ),
        }
    }

    /// Answers a read with what it found.
    fn answer_read(&self, worker_id: u32, session_id: u64, reading: Reading) -> (r: Action)
        ensures
            r@ == self@.reading(worker_id, session_id, reading@),
    {
        match reading {
            Reading::Data { msg_type, data } => self.send_host_exec_read_response(
                worker_id,
                session_id,
                msg_type,
                data,
            ),
            Reading::Exit(exit_code) => self.send_host_exec_exit_response(
                worker_id,
                session_id,
                exit_code,
            ),
            Reading::Nothing => Action::Done,
        }
    }

    /// Completes a read that waited. An exit code comes as bytes.
    fn complete_read(&self, worker_id: u32, session_id: u64, msg_type: u32, data: Vec<u8>) -> (r:
        Action)
        ensures
            r@ == self@.completing(worker_id, session_id, msg_type, data@),
    {
        if msg_type == response::MSG_TYPE_EXIT && data.len() >= 4 {
            let exit_code = words::read_i32_le(data.as_slice(), 0);
            self.send_host_exec_exit_response(worker_id, session_id, exit_code)
        } else {
            self.send_host_exec_read_response(worker_id, session_id, msg_type, data)
        }
    }

    /// Takes note of a parsed request, or of why it could not be parsed.
    pub fn request_parsed(
        &self,
        shared: &SharedState,
        worker_id: u32,
        request_id: u64,
        request: Result<HostExecRequest, String>,
    ) -> (r: Action)
        ensures
            r@ == self@.parsed(
                shared@,
                worker_id,
                request_id,
                match request {
                    Ok(request) => Ok(request@),
                    Err(e) => Err(e@),
                },
            ),
    {
        let request = match request {
            Ok(request) => request,
            Err(e) => {
                let error = text::joined("Failed to parse request: ", e.as_str());
                return self.send_host_exec_start_response(worker_id, request_id, Err(error));
            },
        };
        match shared.host_exec_handler {
            Some(handler) => Action::CallHandler {
                worker_id,
                request_id,
                handler,
                context: host_exec_context::create_host_exec_context(&request, request_id),
            },
            None => self.send_host_exec_start_response(
                worker_id,
                request_id,
                Err("host_exec handler not registered".to_owned()),
            ),
        }
    }

    /// Takes note of how calling the host execution handler went.
    pub fn handler_returned(&self, worker_id: u32, request_id: u64, outcome: HandlerOutcome) -> (r:
        Action)
        ensures
            r@ == self@.start_answered(
                worker_id,
                request_id,
                handler_result(request_id, outcome),
            ),
    {
        let result = match outcome {
            HandlerOutcome::Promise => Ok(request_id),
            HandlerOutcome::NotAPromise => Err("Handler did not return a Promise".to_owned()),
            HandlerOutcome::Failed(e) => Err(text::joined("Handler failed: ", e.as_str())),
        };
        self.send_host_exec_start_response(worker_id, request_id, result)
    }

    /// Carries out a message as far as the scheduler's state goes, and says
    /// what is to be done about it.
    pub fn execute(&mut self, shared: &mut SharedState, message: SchedulerMessage) -> (r: Action)
        ensures
            (final(self)@, final(shared)@, r@) == step(old(self)@, old(shared)@, message@),
            final(self).mailbox == old(self).mailbox,
            old(shared)@.sessions.well_formed() ==> final(shared)@.sessions.well_formed(),
            module_cache::ascending(old(self)@.cached) ==> module_cache::ascending(
                final(self)@.cached,
            ),
    {
        match message {
            SchedulerMessage::Close => {
                self.idle.clear();
                assert(self@.idle =~= Seq::<u32>::empty());
                Action::Done
            },
            SchedulerMessage::SpawnAsync(task) => self.post_message(
                shared,
                PostMessagePayload::Async(AsyncJob::Thunk(task)),
            ),
            SchedulerMessage::SpawnBlocking(task) => self.post_message(
                shared,
                PostMessagePayload::Blocking(BlockingJob::Thunk(task)),
            ),
            SchedulerMessage::CacheModule { hash, module } => {
                self.cached_modules.insert(hash, module);
                let mut workers: Vec<u32> = Vec::new();
                push_ids(&mut workers, &self.idle);
                push_ids(&mut workers, &self.busy);
                assert(workers@ =~= self@.workers());
                Action::Broadcast { workers, hash, module }
            },
            SchedulerMessage::SpawnWithModule { module, task } => self.post_message(
                shared,
                PostMessagePayload::Blocking(BlockingJob::SpawnWithModule { module, task }),
            ),
            SchedulerMessage::SpawnWithModuleAndMemory {
                module,
                memory,
                spawn_wasm,
                subprocess_stdio,
                fork_pipes,
            } => self.post_message(
                shared,
                PostMessagePayload::Blocking(
                    BlockingJob::SpawnWithModuleAndMemory {
                        module,
                        memory,
                        spawn_wasm,
                        subprocess_stdio,
                        fork_pipes,
                    },
                ),
            ),
            SchedulerMessage::WorkerBusy { worker_id } => {
                move_worker(worker_id, &mut self.idle, &mut self.busy);
                Action::Done
            },
            SchedulerMessage::WorkerIdle { worker_id } => {
                move_worker(worker_id, &mut self.busy, &mut self.idle);
                Action::Done
            },
            SchedulerMessage::HostExecStart { worker_id, request_id, request_json } => {
                Action::ParseRequest { worker_id, request_id, request_json }
            },
            SchedulerMessage::HostExecRead { worker_id, request_id: _, session_id } => {
                let reading = shared.sessions.read(worker_id, session_id);
                self.answer_read(worker_id, session_id, reading)
            },
            SchedulerMessage::HostExecReadComplete { worker_id, request_id, msg_type, data } => {
                self.complete_read(worker_id, request_id, msg_type, data)
            },
            SchedulerMessage::HostExecWrite { worker_id: _, request_id: _, session_id, data } => {
                match shared.sessions.stdin_writer(session_id) {
                    Some(function) => Action::Call {
                        function,
                        argument: CallArgument::Bytes(data),
                    },
                    None => Action::Done,
                }
            },
            SchedulerMessage::HostExecCloseStdin { worker_id: _, request_id: _, session_id } => {
                match shared.sessions.take_stdin_closer(session_id) {
                    Some(function) => Action::Call { function, argument: CallArgument::Nothing },
                    None => Action::Done,
                }
            },
            SchedulerMessage::HostExecTryRead { worker_id, request_id: _, session_id } => {
                match shared.sessions.try_read(session_id) {
                    Reading::Nothing => self.send_host_exec_try_read_no_data(worker_id, session_id),
                    reading => self.answer_read(worker_id, session_id, reading),
                }
            },
            SchedulerMessage::HostExecPoll { worker_id, request_id: _, session_id } => {
                let is_ready = shared.sessions.poll(session_id);
                self.send_host_exec_poll_response(worker_id, session_id, is_ready)
            },
            SchedulerMessage::HostExecSignal {
                worker_id: _,
                request_id: _,
                session_id,
                signal,
            } => match shared.sessions.kill_function(session_id) {
                Some(function) => Action::Call {
                    function,
                    argument: CallArgument::Signal(signal),
                },
                None => Action::Done,
            },
            SchedulerMessage::HostExecChildOutput {
                worker_id: _,
                request_id: _,
                session_id: _,
                child_id,
                msg_type,
                data,
            } => deliver_child_output(&shared.sessions, child_id, msg_type, data),
            SchedulerMessage::PipeCreate { pipe_id, worker_id: _ } => {
                shared.pipes.create(pipe_id);
                Action::Done
            },
            SchedulerMessage::PipeWrite { pipe_id, worker_id: _, data } => {
                let answer = shared.pipes.write(pipe_id, data);
                self.send_pipe_read_response(answer)
            },
            SchedulerMessage::PipeRead { pipe_id, worker_id, max_len } => {
                let answer = shared.pipes.read(pipe_id, worker_id, max_len);
                self.send_pipe_read_response(answer)
            },
            SchedulerMessage::PipeClose { pipe_id, worker_id: _ } => {
                let answer = shared.pipes.close(pipe_id);
                self.send_pipe_read_response(answer)
            },
        }
    }
}

/// Finds the function of the host that takes a child's output. An exit code
/// comes as bytes and counts as 0 where there are too few.
pub fn deliver_child_output(
    sessions: &HostExecSessions,
    child_id: u64,
    msg_type: u32,
    data: Vec<u8>,
) -> (r: Action)
    ensures
        r@ == child_output(sessions@, child_id, msg_type, data@),
{
    match sessions.child_output(child_id) {
        Some((stdout, stderr, exit)) => {
            if msg_type == response::MSG_TYPE_CHILD_STDOUT {
                Action::Call { function: stdout, argument: CallArgument::Bytes(data) }
            } else if msg_type == response::MSG_TYPE_CHILD_STDERR {
                Action::Call { function: stderr, argument: CallArgument::Bytes(data) }
            } else if msg_type == response::MSG_TYPE_CHILD_EXIT {
                let exit_code: i32 = if data.len() >= 4 {
                    words::read_i32_le(data.as_slice(), 0)
                } else {
                    0
                };
                Action::Call { function: exit, argument: CallArgument::ExitCode(exit_code) }
            } else {
                Action::Done
            }
        },
        None => Action::Done,
    }
}

// ---------------------------------------------------------------------------
// Carrying out work and news, step by step
// ---------------------------------------------------------------------------

/// One step of sending work to a worker.
#[derive(Debug, Clone, Copy)]
pub enum PostStep {
    /// Start the worker.
    Start,
    /// Tell the worker about a module.
    Prime(CachedModule),
    /// Send the work.
    Work,
}

/// What a [`PostStep`] says.
pub enum PostStepView {
    Start,
    Prime(CachedView),
    Work,
}

impl View for PostStep {
    type V = PostStepView;

    open spec fn view(&self) -> PostStepView {
        match *self {
            PostStep::Start => PostStepView::Start,
            PostStep::Prime(module) => PostStepView::Prime(module@),
            PostStep::Work => PostStepView::Work,
        }
    }
}

/// The steps of sending work. A new worker is started and told about all
/// modules first.
pub open spec fn post_steps(start: Option<Seq<CachedView>>) -> Seq<PostStepView> {
    match start {
        Some(modules) => seq![PostStepView::Start] + modules.map_values(
            |module: CachedView| PostStepView::Prime(module),
        ) + seq![PostStepView::Work],
        None => seq![PostStepView::Work],
    }
}

/// What comes next in sending work.
#[derive(Debug)]
pub enum PostProgress {
    Perform(PostStep),
    Finished(PostOutcome),
}

/// What a [`PostProgress`] says.
pub enum PostProgressView {
    Perform(PostStepView),
    Finished(OutcomeView),
}

impl View for PostProgress {
    type V = PostProgressView;

    open spec fn view(&self) -> PostProgressView {
        match *self {
            PostProgress::Perform(step) => PostProgressView::Perform(step@),
            PostProgress::Finished(outcome) => PostProgressView::Finished(outcome@),
        }
    }
}

/// What comes next after `tried` steps, of which all but the last have
/// succeeded. The first failure ends it.
pub open spec fn post_progress_of(
    start: Option<Seq<CachedView>>,
    tried: int,
    last: Result<(), Seq<char>>,
) -> PostProgressView {
    let steps = post_steps(start);
    match last {
        Err(cause) => PostProgressView::Finished(
            if steps[tried - 1] == PostStepView::Work {
                OutcomeView::NotSent(cause)
            } else {
                OutcomeView::NotStarted(cause)
            },
        ),
        Ok(_) => if tried < steps.len() {
            PostProgressView::Perform(steps[tried])
        } else {
            PostProgressView::Finished(OutcomeView::Sent)
        },
    }
}

/// What the list of modules in an action says.
pub open spec fn start_view(start: Option<Vec<CachedModule>>) -> Option<Seq<CachedView>> {
    match start {
        Some(modules) => Some(modules_view(modules@)),
        None => None,
    }
}

/// What the outcome of a step says.
pub open spec fn failure_view(last: Result<(), String>) -> Result<(), Seq<char>> {
    match last {
        Ok(_) => Ok(()),
        Err(cause) => Err(cause@),
    }
}

/// Finds what comes next in sending work, after `tried` steps.
pub fn post_progress(
    start: &Option<Vec<CachedModule>>,
    tried: usize,
    last: Result<(), String>,
) -> (r: PostProgress)
    requires
        last is Err ==> 0 < tried <= post_steps(start_view(*start)).len(),
    ensures
        r@ == post_progress_of(start_view(*start), tried as int, failure_view(last)),
{
    let ghost steps = post_steps(start_view(*start));
    match last {
        Err(cause) => {
            let at_work = match start {
                Some(modules) => {
                    assert(steps.len() == modules@.len() + 2);
                    tried - 1 > modules.len()
                },
                None => true,
            };
            PostProgress::Finished(
                if at_work {
                    PostOutcome::NotSent(cause)
                } else {
                    PostOutcome::NotStarted(cause)
                },
            )
        },
        Ok(_) => match start {
            Some(modules) => {
                if tried == 0 {
                    PostProgress::Perform(PostStep::Start)
                } else if tried - 1 < modules.len() {
                    PostProgress::Perform(PostStep::Prime(modules[tried - 1]))
                } else if tried - 1 == modules.len() {
                    PostProgress::Perform(PostStep::Work)
                } else {
                    PostProgress::Finished(PostOutcome::Sent)
                }
            },
            None => {
                if tried == 0 {
                    PostProgress::Perform(PostStep::Work)
                } else {
                    PostProgress::Finished(PostOutcome::Sent)
                }
            },
        },
    }
}

/// What comes next in telling workers about a module.
#[derive(Debug)]
pub enum BroadcastProgress {
    /// Tell this worker.
    Tell(u32),
    /// All have been told.
    Finished,
    /// One could not be told, so the rest are not.
    Failed(String),
}

/// What a [`BroadcastProgress`] says.
pub enum BroadcastView {
    Tell(u32),
    Finished,
    Failed(Seq<char>),
}

impl View for BroadcastProgress {
    type V = BroadcastView;

    open spec fn view(&self) -> BroadcastView {
        match *self {
            BroadcastProgress::Tell(worker_id) => BroadcastView::Tell(worker_id),
            BroadcastProgress::Finished => BroadcastView::Finished,
            BroadcastProgress::Failed(cause) => BroadcastView::Failed(cause@),
        }
    }
}

/// Finds what comes next after `tried` workers, of which all but the last have
/// been told. The first failure ends it.
pub fn broadcast_progress(workers: &Vec<u32>, tried: usize, last: Result<(), String>) -> (r:
    BroadcastProgress)
    ensures
        r@ == (match last {
            Err(cause) => BroadcastView::Failed(cause@),
            Ok(_) => if tried < workers@.len() {
                BroadcastView::Tell(workers@[tried as int])
            } else {
                BroadcastView::Finished
            },
        }),
{
    match last {
        Err(cause) => BroadcastProgress::Failed(cause),
        Ok(_) => if tried < workers.len() {
            BroadcastProgress::Tell(workers[tried])
        } else {
            BroadcastProgress::Finished
        },
    }
}

// ---------------------------------------------------------------------------
// Laws
// ---------------------------------------------------------------------------

/// Whether the scheduler's workers are told apart by their ids, and no future
/// worker gets an id that is in use.
pub open spec fn well_formed(state: StateView, shared: SharedView) -> bool {
    &&& state.workers().no_duplicates()
    &&& forall|i: int|
        0 <= i < state.workers().len() ==> #[trigger] state.workers()[i] < shared.next_worker_id
    &&& module_cache::ascending(state.cached)
    &&& shared.sessions.well_formed()
    &&& forall|pipe_id: u64| #[trigger]
        shared.pipes.contains_key(pipe_id) ==> shared.pipes[pipe_id].well_formed()
}

/// The scheduler after a message has been carried out, the sending of work
/// included.
pub open spec fn settled(
    state: StateView,
    shared: SharedView,
    message: MessageView,
    outcome: OutcomeView,
) -> (StateView, SharedView) {
    let (after, after_shared, action) = step(state, shared, message);
    match action {
        ActionView::Post { worker, would_block, .. } => (
            after_post(after, worker, would_block, outcome).0,
            after_shared,
        ),
        _ => (after, after_shared),
    }
}

proof fn lemma_first_position(workers: Seq<u32>, id: u32)
    ensures
        ({
            let position = first_position(workers, id);
            &&& 0 <= position <= workers.len()
            &&& position < workers.len() ==> workers[position] == id
            &&& position == workers.len() ==> !workers.contains(id)
        }),
    decreases workers.len(),
{
    if workers.len() > 0 && workers[0] != id {
        let rest = workers.skip(1);
        lemma_first_position(rest, id);
        if first_position(rest, id) == rest.len() && workers.contains(id) {
            let j = workers.index_of(id);
            assert(rest[j - 1] == id);
        }
    }
}

/// Marking a worker moves it between the lists and does nothing else: the same
/// workers are there afterwards, each as often as before.
pub proof fn law_marking_keeps_all_workers(worker_id: u32, from: Seq<u32>, to: Seq<u32>)
    ensures
        ({
            let (after_from, after_to) = moved(worker_id, from, to);
            (after_from + after_to).to_multiset() == (from + to).to_multiset()
        }),
{
    broadcast use vstd::seq_lib::group_to_multiset_ensures;

    lemma_first_position(from, worker_id);
    let position = first_position(from, worker_id);
    if position < from.len() {
        let (after_from, after_to) = moved(worker_id, from, to);
        vstd::seq_lib::lemma_multiset_commutative(from, to);
        vstd::seq_lib::lemma_multiset_commutative(after_from, after_to);
        assert(after_from.to_multiset() =~= from.to_multiset().remove(worker_id));
        assert(after_to.to_multiset() =~= to.to_multiset().insert(worker_id));
        assert(from.to_multiset().count(worker_id) > 0) by {
            assert(from.contains(worker_id));
        }
        assert((after_from + after_to).to_multiset() =~= (from + to).to_multiset());
    }
}

/// Where a list of distinct workers keeps the same workers, they stay distinct.
proof fn lemma_moved_distinct(worker_id: u32, from: Seq<u32>, to: Seq<u32>)
    requires
        (from + to).no_duplicates(),
    ensures
        ({
            let (after_from, after_to) = moved(worker_id, from, to);
            &&& (after_from + after_to).no_duplicates()
            &&& (after_to + after_from).no_duplicates()
            &&& forall|x: u32| (after_from + after_to).contains(x) ==> (from + to).contains(x)
            &&& forall|x: u32| (after_to + after_from).contains(x) ==> (from + to).contains(x)
        }),
{
    lemma_first_position(from, worker_id);
    let (after_from, after_to) = moved(worker_id, from, to);
    let position = first_position(from, worker_id);
    let n = from.len() as int;
    let all = from + to;
    // Where each worker of the new lists stood before.
    let origin_from = |i: int|
        if position < n && i >= position {
            i + 1
        } else {
            i
        };
    let origin_to = |i: int|
        if i < to.len() {
            n + i
        } else {
            position
        };
    assert forall|i: int| 0 <= i < after_from.len() implies #[trigger] after_from[i]
        == all[origin_from(i)] && 0 <= origin_from(i) < n && (position < n ==> origin_from(i)
        != position) by {}
    assert forall|i: int| 0 <= i < after_to.len() implies #[trigger] after_to[i]
        == all[origin_to(i)] && 0 <= origin_to(i) < all.len() by {}
    let k = after_from.len() as int;
    let joined = after_from + after_to;
    assert forall|i: int, j: int| 0 <= i < joined.len() && 0 <= j < joined.len() && i
        != j implies joined[i] != joined[j] by {
        if i < k {
            assert(joined[i] == after_from[i]);
        } else {
            assert(joined[i] == after_to[i - k]);
        }
        if j < k {
            assert(joined[j] == after_from[j]);
        } else {
            assert(joined[j] == after_to[j - k]);
        }
    }
    let m = after_to.len() as int;
    let swapped = after_to + after_from;
    assert forall|i: int, j: int| 0 <= i < swapped.len() && 0 <= j < swapped.len() && i
        != j implies swapped[i] != swapped[j] by {
        if i < m {
            assert(swapped[i] == joined[k + i]);
        } else {
            assert(swapped[i] == joined[i - m]);
        }
        if j < m {
            assert(swapped[j] == joined[k + j]);
        } else {
            assert(swapped[j] == joined[j - m]);
        }
    }
    assert forall|x: u32| joined.contains(x) implies all.contains(x) by {
        let i = joined.index_of(x);
        if i < k {
            assert(all[origin_from(i)] == after_from[i]);
        } else {
            assert(all[origin_to(i - k)] == after_to[i - k]);
        }
    }
    assert forall|x: u32| swapped.contains(x) implies all.contains(x) by {
        let i = swapped.index_of(x);
        if i < m {
            assert(all[origin_to(i)] == after_to[i]);
        } else {
            assert(all[origin_from(i - m)] == after_from[i - m]);
        }
    }
}

/// Joining lists in either order makes no difference to distinctness.
proof fn lemma_swapped_distinct(a: Seq<u32>, b: Seq<u32>)
    requires
        (a + b).no_duplicates(),
    ensures
        (b + a).no_duplicates(),
        forall|x: u32| (b + a).contains(x) <==> (a + b).contains(x),
{
    let n = a.len() as int;
    let m = b.len() as int;
    let ab = a + b;
    let ba = b + a;
    assert forall|i: int, j: int| 0 <= i < ba.len() && 0 <= j < ba.len() && i != j implies ba[i]
        != ba[j] by {
        if i < m {
            assert(ba[i] == ab[n + i]);
        } else {
            assert(ba[i] == ab[i - m]);
        }
        if j < m {
            assert(ba[j] == ab[n + j]);
        } else {
            assert(ba[j] == ab[j - m]);
        }
    }
    assert forall|x: u32| ba.contains(x) <==> ab.contains(x) by {
        if ba.contains(x) {
            let i = ba.index_of(x);
            if i < m {
                assert(ab[n + i] == x);
            } else {
                assert(ab[i - m] == x);
            }
        }
        if ab.contains(x) {
            let i = ab.index_of(x);
            if i < n {
                assert(ba[m + i] == x);
            } else {
                assert(ba[i - n] == x);
            }
        }
    }
}

/// Whether no worker of `after` is new.
spec fn only_known(before: Seq<u32>, after: Seq<u32>) -> bool {
    forall|x: u32| after.contains(x) ==> before.contains(x)
}

proof fn lemma_known_below(before: Seq<u32>, after: Seq<u32>, bound: u32)
    requires
        only_known(before, after),
        forall|i: int| 0 <= i < before.len() ==> #[trigger] before[i] < bound,
    ensures
        forall|i: int| 0 <= i < after.len() ==> #[trigger] after[i] < bound,
{
    assert forall|i: int| 0 <= i < after.len() implies #[trigger] after[i] < bound by {
        assert(after.contains(after[i]));
        assert(before.contains(after[i]));
        let j = before.index_of(after[i]);
        assert(before[j] < bound);
    }
}

/// Whatever message comes and however the sending of work turns out, workers
/// keep distinct ids, the module cache stays in order, and reads of sessions and
/// pipes wait only where there is nothing to read. This holds until worker ids
/// run out.
pub proof fn law_scheduler_stays_well_formed(
    state: StateView,
    shared: SharedView,
    message: MessageView,
    outcome: OutcomeView,
)
    requires
        well_formed(state, shared),
        shared.next_worker_id < u32::MAX,
        message matches MessageView::CacheModule { hash, .. } ==> hash.well_formed(),
    ensures
        ({
            let (after, after_shared) = settled(state, shared, message, outcome);
            well_formed(after, after_shared)
        }),
{
    let (middle, middle_shared, action) = step(state, shared, message);
    let (after, after_shared) = settled(state, shared, message, outcome);
    let all = state.workers();
    match message {
        MessageView::CacheModule { hash, module } => {
            module_cache::law_cache_stays_ascending(state.cached, hash, module);
        },
        MessageView::WorkerBusy { worker_id } => {
            lemma_moved_distinct(worker_id, state.idle, state.busy);
            lemma_known_below(all, after.workers(), shared.next_worker_id);
        },
        MessageView::WorkerIdle { worker_id } => {
            lemma_swapped_distinct(state.idle, state.busy);
            lemma_moved_distinct(worker_id, state.busy, state.idle);
            lemma_known_below(all, after.workers(), shared.next_worker_id);
        },
        MessageView::Close => {
            let n = state.idle.len() as int;
            assert forall|i: int| 0 <= i < after.workers().len() implies after.workers()[i]
                == #[trigger] all[n + i] by {}
            assert forall|i: int, j: int|
                0 <= i < after.workers().len() && 0 <= j < after.workers().len() && i
                    != j implies after.workers()[i] != after.workers()[j] by {
                assert(all[n + i] != all[n + j]);
            }
            assert forall|i: int| 0 <= i < after.workers().len() implies #[trigger] after.workers()[i]
                < shared.next_worker_id by {
                assert(all[n + i] < shared.next_worker_id);
            }
        },
        _ => {
            if action is Post {
                lemma_post_well_formed(state, shared, message, outcome);
            }
        },
    }
}

/// Handing out work keeps workers distinct.
proof fn lemma_post_well_formed(
    state: StateView,
    shared: SharedView,
    message: MessageView,
    outcome: OutcomeView,
)
    requires
        well_formed(state, shared),
        shared.next_worker_id < u32::MAX,
        step(state, shared, message).2 is Post,
    ensures
        ({
            let (after, after_shared) = settled(state, shared, message, outcome);
            well_formed(after, after_shared)
        }),
{
    let (middle, middle_shared, action) = step(state, shared, message);
    let (after, after_shared) = settled(state, shared, message, outcome);
    let all = state.workers();
    let worker = action->worker;
    let would_block = action->would_block;
    let n = state.idle.len() as int;
    let reused = n > 0;
    if reused {
        assert(worker == all[0]);
        assert forall|i: int| 0 <= i < middle.workers().len() implies #[trigger] middle.workers()[i]
            == all[i + 1] by {}
    } else {
        assert(middle.workers() =~= all);
        assert forall|i: int| 0 <= i < all.len() implies #[trigger] all[i] != worker by {}
    }
    let offset: int = if reused {
        1
    } else {
        0
    };
    assert forall|i: int| 0 <= i < middle.workers().len() implies #[trigger] middle.workers()[i]
        == all[i + offset] && middle.workers()[i] != worker by {
        if reused {
            assert(all[i + 1] != all[0]);
        }
    }
    assert forall|i: int, j: int|
        0 <= i < middle.workers().len() && 0 <= j < middle.workers().len() && i
            != j implies middle.workers()[i] != middle.workers()[j] by {
        assert(all[i + offset] != all[j + offset]);
    }
    assert(worker < middle_shared.next_worker_id);
    assert forall|i: int| 0 <= i < middle.workers().len() implies #[trigger] middle.workers()[i]
        < middle_shared.next_worker_id by {
        assert(all[i + offset] < shared.next_worker_id);
    }
    if outcome is Sent {
        // Where the worker has joined, and where the others stand now.
        let at: int = if would_block {
            after.workers().len() - 1
        } else {
            middle.idle.len() as int
        };
        assert(after.workers()[at] == worker);
        assert forall|i: int| 0 <= i < after.workers().len() && i != at implies #[trigger] after.workers()[i]
            == middle.workers()[if i < at {
            i
        } else {
            i - 1
        }] by {}
        assert forall|i: int, j: int|
            0 <= i < after.workers().len() && 0 <= j < after.workers().len() && i
                != j implies after.workers()[i] != after.workers()[j] by {
            let a = if i < at {
                i
            } else {
                i - 1
            };
            let b = if j < at {
                j
            } else {
                j - 1
            };
            if i != at && j != at {
                assert(middle.workers()[a] != middle.workers()[b]);
            } else if i == at {
                assert(middle.workers()[b] != worker);
            } else {
                assert(middle.workers()[a] != worker);
            }
        }
        assert forall|i: int| 0 <= i < after.workers().len() implies #[trigger] after.workers()[i]
            < after_shared.next_worker_id by {
            if i != at {
                let a = if i < at {
                    i
                } else {
                    i - 1
                };
                assert(middle.workers()[a] < middle_shared.next_worker_id);
            }
        }
    }
}

/// Work never goes to a worker that is blocked, and a worker is started only
/// when none is idle. A new worker is told about every cached module, in order
/// of their hashes.
pub proof fn law_work_goes_to_workers_that_can_take_it(
    state: StateView,
    shared: SharedView,
    message: MessageView,
)
    requires
        well_formed(state, shared),
        step(state, shared, message).2 is Post,
    ensures
        ({
            let action = step(state, shared, message).2;
            &&& !state.busy.contains(action->worker)
            &&& action->start is Some <==> state.idle.len() == 0
            &&& action->start is Some ==> action->start->0 == state.cached
                && module_cache::ascending(action->start->0) && !state.workers().contains(
                action->worker,
            )
        }),
{
    let action = step(state, shared, message).2;
    let all = state.workers();
    let n = state.idle.len() as int;
    if state.busy.contains(action->worker) {
        let i = state.busy.index_of(action->worker);
        assert(all[n + i] == action->worker);
        if n > 0 {
            assert(all[0] == action->worker);
        }
    }
    if n == 0 && all.contains(action->worker) {
        let i = all.index_of(action->worker);
        assert(all[i] < shared.next_worker_id);
    }
}

/// A worker that was sent blocking work is busy, and one that was sent other
/// work is last among the idle ones.
pub proof fn law_only_blocking_work_makes_a_worker_busy(
    state: StateView,
    shared: SharedView,
    message: MessageView,
)
    requires
        step(state, shared, message).2 is Post,
    ensures
        ({
            let action = step(state, shared, message).2;
            let after = settled(state, shared, message, OutcomeView::Sent).0;
            &&& action->would_block ==> after.busy.last() == action->worker
            &&& !action->would_block ==> after.idle.last() == action->worker && after.busy
                == state.busy
            &&& action->would_block <==> !(message is SpawnAsync)
        }),
{
}

/// A read by a worker of the pool gives it the oldest output of the session
/// that has not been read, byte for byte.
pub proof fn law_read_gives_the_oldest_output(
    state: StateView,
    shared: SharedView,
    buffer: Seq<u8>,
    worker_id: u32,
    request_id: u64,
    session_id: u64,
)
    requires
        state.workers().contains(worker_id),
        shared.sessions.queued(session_id).len() > 0,
        shared.sessions.queued(session_id)[0].0 != response::MSG_TYPE_EXIT,
        shared.sessions.queued(session_id)[0].1.len() < 0x8000_0000,
        response::HOST_DATA_OFFSET + shared.sessions.queued(session_id)[0].1.len() <= buffer.len(),
    ensures
        ({
            let (msg_type, data) = shared.sessions.queued(session_id)[0];
            let read = step(
                state,
                shared,
                MessageView::HostExecRead { worker_id, request_id, session_id },
            ).2;
            let try_read = step(
                state,
                shared,
                MessageView::HostExecTryRead { worker_id, request_id, session_id },
            ).2;
            let after = response::stored_all(buffer, read->stores);
            &&& read is Store && read == try_read
            &&& response::word_at(after, 0) == 1
            &&& response::has_readable_length(after)
            &&& response::output_at(after) == response::data_output(msg_type, data)
        }),
{
    let (msg_type, data) = shared.sessions.queued(session_id)[0];
    response::law_data_response_is_read_back(buffer, session_id, msg_type, data);
}

/// A read that had to wait is completed with what the process then wrote, byte
/// for byte.
pub proof fn law_waiting_read_gets_the_next_output(
    state: StateView,
    shared: SharedView,
    buffer: Seq<u8>,
    session_id: u64,
    msg_type: u32,
    data: Seq<u8>,
)
    requires
        shared.sessions.pending_reads.contains_key(session_id),
        state.workers().contains(shared.sessions.pending_reads[session_id].0),
        msg_type != response::MSG_TYPE_EXIT,
        data.len() < 0x8000_0000,
        response::HOST_DATA_OFFSET + data.len() <= buffer.len(),
    ensures
        ({
            let completion = shared.sessions.after_output(session_id, msg_type, data).1;
            let action = step(state, shared, completion->0).2;
            let after = response::stored_all(buffer, action->stores);
            &&& completion is Some
            &&& action is Store
            &&& action->Store_worker_id == shared.sessions.pending_reads[session_id].0
            &&& response::word_at(after, 0) == 1
            &&& response::has_readable_length(after)
            &&& response::output_at(after) == response::data_output(msg_type, data)
        }),
{
    let waiting = shared.sessions.pending_reads[session_id];
    response::law_data_response_is_read_back(buffer, waiting.1, msg_type, data);
}

/// The exit code of a process reaches the worker that reads it, whether the
/// read had to wait for it or not.
pub proof fn law_exit_code_is_read(
    state: StateView,
    shared: SharedView,
    buffer: Seq<u8>,
    session_id: u64,
    exit_code: i32,
    worker_id: u32,
    request_id: u64,
)
    requires
        buffer.len() >= response::HOST_DATA_OFFSET,
        state.workers().contains(worker_id),
        shared.sessions.queued(session_id).len() == 0,
        shared.sessions.pending_reads.contains_key(session_id)
            ==> shared.sessions.pending_reads[session_id].0 == worker_id,
    ensures
        ({
            let (sessions, completion) = shared.sessions.after_exit(session_id, exit_code);
            let ended = SharedView { sessions, ..shared };
            let action = match completion {
                Some(message) => step(state, ended, message).2,
                None => step(
                    state,
                    ended,
                    MessageView::HostExecRead { worker_id, request_id, session_id },
                ).2,
            };
            let after = response::stored_all(buffer, action->stores);
            &&& action is Store && action->Store_worker_id == worker_id
            &&& response::word_at(after, 0) == 1
            &&& response::output_at(after) == response::OutputView::Exit(exit_code)
        }),
{
    words::lemma_le_i32_round_trip(exit_code);
    let bytes = words::le_bytes_i32(exit_code);
    assert(bytes.subrange(0, 4) =~= bytes);
    response::law_exit_response_is_read_back(buffer, session_id, exit_code);
    if shared.sessions.pending_reads.contains_key(session_id) {
        response::law_exit_response_is_read_back(
            buffer,
            shared.sessions.pending_reads[session_id].1,
            exit_code,
        );
    }
}

/// Whether an action tells a worker that a request for a host execution was
/// refused.
pub open spec fn tells_refusal(action: ActionView, worker_id: u32, request_id: u64) -> bool {
    &&& action is Send && action->Send_worker_id == worker_id
    &&& action->Send_payload is HostExecStartResponse
    &&& action->Send_payload->HostExecStartResponse_request_id == request_id
    &&& action->Send_payload->HostExecStartResponse_result is Err
}

/// A refused host execution is answered: where a request cannot be parsed, or
/// there is no handler, or the handler fails or gives no promise, the worker
/// that asked is told so, under its request id, if it is there.
pub proof fn law_refused_executions_are_answered(
    state: StateView,
    shared: SharedView,
    worker_id: u32,
    request_id: u64,
    request: Result<RequestView, Seq<char>>,
    outcome: HandlerOutcome,
)
    requires
        state.workers().contains(worker_id),
    ensures
        request is Err || shared.host_exec_handler is None ==> tells_refusal(
            state.parsed(shared, worker_id, request_id, request),
            worker_id,
            request_id,
        ),
        !(outcome is Promise) ==> tells_refusal(
            state.start_answered(worker_id, request_id, handler_result(request_id, outcome)),
            worker_id,
            request_id,
        ),
{
}

/// A pipe read by a worker of the pool gives it the oldest bytes of the pipe,
/// as many as it takes.
pub proof fn law_pipe_read_gives_the_oldest_bytes(
    state: StateView,
    shared: SharedView,
    buffer: Seq<u8>,
    pipe_id: u64,
    worker_id: u32,
    max_len: u32,
)
    requires
        state.workers().contains(worker_id),
        shared.pipes.contains_key(pipe_id),
        shared.pipes[pipe_id].data.len() > 0,
        max_len < 0x8000_0000,
        response::PIPE_DATA_OFFSET + max_len <= buffer.len(),
    ensures
        ({
            let bytes = shared.pipes[pipe_id].taken(max_len);
            let action = step(
                state,
                shared,
                MessageView::PipeRead { pipe_id, worker_id, max_len },
            ).2;
            let after = response::stored_all(buffer, action->stores);
            &&& action is Store && action->Store_worker_id == worker_id
            &&& response::word_at(after, 0) == 1
            &&& response::pipe_copied(after, max_len as nat) == bytes.len()
            &&& response::bytes_at(after, response::PIPE_DATA_OFFSET as int, bytes.len()) == bytes
        }),
{
    response::law_pipe_data_is_read_back(
        buffer,
        shared.pipes[pipe_id].taken(max_len),
        max_len as nat,
    );
}

/// Bytes that are written to an empty pipe on which nobody waits are what the
/// next read gives, provided that it takes as many.
pub proof fn law_pipe_read_gives_what_was_written(
    state: StateView,
    shared: SharedView,
    buffer: &[u8],
    before: Seq<u8>,
    pipe_id: u64,
    writer: u32,
    reader: u32,
    data: Seq<u8>,
    max_len: u32,
)
    requires
        state.workers().contains(reader),
        shared.pipes.contains_key(pipe_id),
        shared.pipes[pipe_id].data.len() == 0,
        shared.pipes[pipe_id].pending_read is None,
        0 < data.len() <= max_len < 0x8000_0000,
        response::PIPE_DATA_OFFSET + max_len <= before.len(),
        ({
            let (_, written, _) = step(
                state,
                shared,
                MessageView::PipeWrite { pipe_id, worker_id: writer, data },
            );
            let answer = step(
                state,
                written,
                MessageView::PipeRead { pipe_id, worker_id: reader, max_len },
            ).2;
            buffer@ == response::stored_all(before, answer->stores)
        }),
    ensures
        ({
            let (_, written, first) = step(
                state,
                shared,
                MessageView::PipeWrite { pipe_id, worker_id: writer, data },
            );
            let answer = step(
                state,
                written,
                MessageView::PipeRead { pipe_id, worker_id: reader, max_len },
            ).2;
            let outcome = WaitOutcome::Woken(buffer);
            &&& first is Done
            &&& answer is Store && answer->Store_worker_id == reader
            &&& pipes::read_result(outcome, max_len as nat) == Ok::<nat, PipeErrorView>(data.len())
            &&& pipes::read_bytes(outcome, max_len as nat) == data
        }),
{
    let pipe = shared.pipes[pipe_id].after_write(data).0;
    assert(pipe.data =~= data);
    assert(pipe.taken(max_len) =~= data);
    pipes::law_reader_gets_what_the_scheduler_sends(
        before,
        buffer,
        Some(data),
        max_len as nat,
    );
}

/// The session that a worker is given is the one that the handler's callbacks
/// concern: both are the id of the request.
pub proof fn law_session_is_the_request(
    state: StateView,
    shared: SharedView,
    worker_id: u32,
    request_id: u64,
    request: RequestView,
)
    requires
        shared.host_exec_handler is Some,
    ensures
        state.parsed(shared, worker_id, request_id, Ok(request)) is CallHandler,
        state.parsed(
            shared,
            worker_id,
            request_id,
            Ok(request),
        )->CallHandler_context.session_id == request_id,
        state.parsed(
            shared,
            worker_id,
            request_id,
            Ok(request),
        )->CallHandler_request_id == request_id,
{
}

} // verus!
