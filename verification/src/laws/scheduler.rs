//! The scheduler's handle, its first state and the parts that it works with.
use std::collections::VecDeque;
use tokio::sync::mpsc::UnboundedSender;
use vstd::prelude::*;
use crate::host_exec;
use crate::host_exec::{BufferOutcome, HostExecError};
use crate::ids::{IdCounter, WorkerIdCounter};
use crate::laws::answers;
use crate::laws::host_exec as starting;
use crate::laws::pipes as piping;
use crate::laws::sessions;
use crate::laws::work;
use crate::pipes::buffers::{PipeAnswer, PipeBuffers};
use crate::pipes::{PipeError, SimplePipeRx, SimplePipeTx, WaitOutcome};
use crate::response;
use crate::response::{HostExecOutput, ResponseError};
use crate::tasks::module_cache::{CachedModule, ModuleCache};
use crate::tasks::post_message_payload::PostMessagePayload;
use crate::tasks::scheduler;
use crate::tasks::scheduler::{
    Action, Route, Scheduler, SchedulerError, SchedulerState, Sending, SharedState, WorkerHandle,
};
use crate::tasks::scheduler_message::SchedulerMessage;
use crate::tasks::sessions::HostExecSessions;
use crate::text;

verus! {

/// On the scheduler's own thread a message goes into the channel, and on any
/// other it is handed back whole to be posted. A message that the channel does
/// not take means that there is no scheduler any more.
pub proof fn law_handles_send_on_their_thread(
    channel: UnboundedSender<SchedulerMessage>,
    thread_id: u32,
    made: Scheduler,
    copied: Scheduler,
    handle: &Scheduler,
    current: u32,
    message: SchedulerMessage,
    route: Route,
    sending: Sending,
    closing: Result<(), SchedulerError>,
    taken: Result<(), SchedulerError>,
    returned: Result<(), SchedulerError>,
)
    requires
        call_ensures(Scheduler::new, (channel, thread_id), made),
        call_ensures(<Scheduler as Clone>::clone, (handle,), copied),
        call_ensures(Scheduler::route, (handle, current, message), route),
        call_ensures(Scheduler::send, (handle, current, message), sending),
        call_ensures(Scheduler::close, (handle,), closing),
        call_ensures(scheduler::sent, (Ok(()),), taken),
        call_ensures(scheduler::sent, (Err(message),), returned),
    ensures
        made.scheduler_thread_id == thread_id && made.channel == channel,
        copied.scheduler_thread_id == handle.scheduler_thread_id,
        current == handle.scheduler_thread_id ==> {
            &&& route == Route::Channel(message)
            &&& sending is Sent || sending == Sending::Failed(SchedulerError::Dead)
            &&& sending is Sent ==> exists|outcome: Result<(), SchedulerMessage>|
                outcome is Ok && #[trigger] handle.handed_over(message, outcome)
        },
        current != handle.scheduler_thread_id ==> {
            &&& route == Route::Post(message)
            &&& sending == Sending::Post(message)
        },
        closing is Ok || closing == Err::<(), SchedulerError>(SchedulerError::Dead),
        closing is Ok ==> exists|outcome: Result<(), SchedulerMessage>|
            outcome is Ok && #[trigger] handle.handed_over(SchedulerMessage::Close, outcome),
        taken is Ok,
        returned == Err::<(), SchedulerError>(SchedulerError::Dead),
{
}

/// Errors tell what failed, with numbers in decimal.
pub proof fn law_errors_tell_what_failed(
    worker_id: u32,
    worker: String,
    cause: String,
    missing: String,
    unsendable: String,
    unstartable: String,
    dead: String,
    expected: u64,
    got: u64,
    expected_number: String,
    got_number: String,
    mismatch: String,
)
    requires
        call_ensures(text::to_decimal, (worker_id as u64,), worker),
        call_ensures(
            SchedulerError::to_text,
            (&SchedulerError::WorkerNotFound(worker_id),),
            missing,
        ),
        call_ensures(
            SchedulerError::to_text,
            (&SchedulerError::Unsendable { worker_id, cause },),
            unsendable,
        ),
        call_ensures(SchedulerError::to_text, (&SchedulerError::Unstartable(cause),), unstartable),
        call_ensures(SchedulerError::to_text, (&SchedulerError::Dead,), dead),
        call_ensures(text::to_decimal, (expected,), expected_number),
        call_ensures(text::to_decimal, (got,), got_number),
        call_ensures(
            ResponseError::to_text,
            (&ResponseError::SessionMismatch { expected, got },),
            mismatch,
        ),
    ensures
        missing@ == "Worker "@ + worker@ + " not found"@,
        unsendable@ == "Unable to send a message to worker "@ + worker@,
        unstartable@ == cause@,
        dead@ == "Scheduler is dead"@,
        mismatch@ == "session mismatch: expected "@ + expected_number@ + ", got "@ + got_number@,
{
}

/// A scheduler starts without workers and modules, and shares neither sessions
/// nor pipes nor a handler. The first worker gets id 1, and so does the first
/// pipe.
pub proof fn law_schedulers_start_with_nothing(
    mailbox: Scheduler,
    state: SchedulerState,
    shared: SharedState,
    all_sessions: HostExecSessions,
    pipes: PipeBuffers,
    modules: ModuleCache,
    pipe_ids: IdCounter,
    session_id: u64,
    pipe_id: u64,
)
    requires
        call_ensures(SchedulerState::new, (mailbox,), state),
        call_ensures(SharedState::new, (), shared),
        call_ensures(HostExecSessions::new, (), all_sessions),
        call_ensures(PipeBuffers::new, (), pipes),
        call_ensures(ModuleCache::new, (), modules),
        call_ensures(IdCounter::for_pipes, (), pipe_ids),
    ensures
        state.idle@.len() == 0 && state.busy@.len() == 0,
        state.cached_modules.entries@.len() == 0,
        state.mailbox == mailbox,
        shared.worker_ids.next == 1,
        shared.host_exec_handler is None,
        knows_nothing_of(shared.sessions, session_id),
        !shared.pipes.buffers@.contains_key(pipe_id),
        knows_nothing_of(all_sessions, session_id),
        !pipes.buffers@.contains_key(pipe_id),
        modules.entries@.len() == 0,
        pipe_ids.next == 1,
{
    assert(state@.idle.len() == state.idle@.len());
    assert(state@.busy.len() == state.busy@.len());
    assert(state@.cached.len() == state.cached_modules.entries@.len());
    assert(modules@.len() == modules.entries@.len());
    assert(pipes@.contains_key(pipe_id) == pipes.buffers@.contains_key(pipe_id));
    assert(shared.pipes@.contains_key(pipe_id) == shared.pipes.buffers@.contains_key(pipe_id));
    lemma_knows_nothing(shared.sessions, session_id);
    lemma_knows_nothing(all_sessions, session_id);
}

/// Whether nothing is known of a session, nor of a child with its id.
pub open spec fn knows_nothing_of(all: HostExecSessions, session_id: u64) -> bool {
    &&& !all.results@.contains_key(session_id)
    &&& !all.pending_reads@.contains_key(session_id)
    &&& !all.output_queues@.contains_key(session_id)
    &&& !all.stdin_writers@.contains_key(session_id)
    &&& !all.signal_handlers@.contains_key(session_id)
    &&& !all.child_output_handlers@.contains_key(session_id)
}

proof fn lemma_knows_nothing(all: HostExecSessions, session_id: u64)
    requires
        all@ == crate::tasks::sessions::SessionsView::empty(),
    ensures
        knows_nothing_of(all, session_id),
{
    assert(all@.results.contains_key(session_id) == all.results@.contains_key(session_id));
    assert(all@.pending_reads.contains_key(session_id) == all.pending_reads@.contains_key(
        session_id,
    ));
    assert(all@.output_queues.contains_key(session_id) == all.output_queues@.contains_key(
        session_id,
    ));
    assert(all@.stdin_writers.contains_key(session_id) == all.stdin_writers@.contains_key(
        session_id,
    ));
    assert(all@.signal_handlers.contains_key(session_id) == all.signal_handlers@.contains_key(
        session_id,
    ));
    assert(all@.child_output_handlers.contains_key(session_id)
        == all.child_output_handlers@.contains_key(session_id));
}

/// Whether a worker was taken: the first idle one, if there is one, or else a
/// new one with the next id, which is to be told about all cached modules.
pub open spec fn was_taken(
    before: SchedulerState,
    after: SchedulerState,
    ids_before: WorkerIdCounter,
    ids_after: WorkerIdCounter,
    worker: WorkerHandle,
    start: Option<Vec<CachedModule>>,
) -> bool {
    &&& work::same_workers(before.busy@, after.busy@)
    &&& after.cached_modules@ == before.cached_modules@
    &&& before.idle@.len() > 0 ==> {
        &&& worker.id == before.idle@[0].id
        &&& start is None
        &&& work::left_by(before.idle@, after.idle@, 0)
        &&& ids_after.next == ids_before.next
    }
    &&& before.idle@.len() == 0 ==> {
        &&& worker.id == ids_before.next
        &&& start is Some
        &&& scheduler::modules_view(start->0@) == before.cached_modules@
        &&& after.idle@.len() == 0
        &&& ids_after.next == (if ids_before.next == u32::MAX {
            0
        } else {
            ids_before.next + 1
        })
    }
}

proof fn lemma_taken(
    before: SchedulerState,
    after: SchedulerState,
    ids_before: WorkerIdCounter,
    ids_after: WorkerIdCounter,
    worker: WorkerHandle,
    start: Option<Vec<CachedModule>>,
)
    requires
        scheduler::worker_ids(after.busy@) == scheduler::worker_ids(before.busy@),
        after.cached_modules@ == before.cached_modules@,
        before.idle@.len() > 0 ==> worker.id == before.idle@[0].id && start is None
            && scheduler::worker_ids(after.idle@) == scheduler::worker_ids(before.idle@).skip(1)
            && ids_after.next == ids_before.next,
        before.idle@.len() == 0 ==> worker.id == ids_before.next && start is Some
            && scheduler::modules_view(start->0@) == before.cached_modules@
            && scheduler::worker_ids(after.idle@) == scheduler::worker_ids(before.idle@)
            && ids_after.next == (if ids_before.next == u32::MAX {
            0
        } else {
            ids_before.next + 1
        }),
    ensures
        was_taken(before, after, ids_before, ids_after, worker, start),
{
    let had = scheduler::worker_ids(before.busy@);
    let has = scheduler::worker_ids(after.busy@);
    assert(had.len() == before.busy@.len() && has.len() == after.busy@.len());
    assert forall|i: int| 0 <= i < before.busy@.len() implies (#[trigger] after.busy@[i]).id
        == before.busy@[i].id by {
        assert(has[i] == after.busy@[i].id);
        assert(had[i] == before.busy@[i].id);
    }
    let first = scheduler::worker_ids(before.idle@);
    let rest = scheduler::worker_ids(after.idle@);
    assert(first.len() == before.idle@.len() && rest.len() == after.idle@.len());
    if before.idle@.len() > 0 {
        assert forall|i: int| 0 <= i < after.idle@.len() implies (#[trigger] after.idle@[i]).id
            == before.idle@[i + 1].id by {
            assert(rest[i] == after.idle@[i].id);
            assert(first[i + 1] == before.idle@[i + 1].id);
        }
    }
}

/// The worker that gets the next work is the one that has been idle longest, or
/// else a new one. What is posted to it is the payload as it was given.
pub proof fn law_the_next_worker_is_the_first_idle_one(
    taking: &mut SchedulerState,
    taking_shared: &mut SharedState,
    taken: (WorkerHandle, Option<Vec<CachedModule>>),
    posting: &mut SchedulerState,
    posting_shared: &mut SharedState,
    payload: PostMessagePayload,
    blocks: bool,
    action: Action,
    state: &SchedulerState,
    starting_shared: &mut SharedState,
    started: (WorkerHandle, Option<Vec<CachedModule>>),
)
    requires
        call_ensures(SchedulerState::next_available_worker, (taking, taking_shared), taken),
        call_ensures(SchedulerState::post_message, (posting, posting_shared, payload), action),
        call_ensures(PostMessagePayload::would_block, (&payload,), blocks),
        call_ensures(SchedulerState::start_worker, (state, starting_shared), started),
    ensures
        was_taken(
            *old(taking),
            *final(taking),
            old(taking_shared).worker_ids,
            final(taking_shared).worker_ids,
            taken.0,
            taken.1,
        ),
        final(taking_shared).sessions@ == old(taking_shared).sessions@,
        final(taking_shared).pipes@ == old(taking_shared).pipes@,
        final(taking_shared).host_exec_handler == old(taking_shared).host_exec_handler,
        action is Post,
        was_taken(
            *old(posting),
            *final(posting),
            old(posting_shared).worker_ids,
            final(posting_shared).worker_ids,
            action->worker,
            action->start,
        ),
        action->Post_payload@ == payload@,
        action->would_block == blocks,
        started.0.id == old(starting_shared).worker_ids.next,
        started.1 is Some && scheduler::modules_view(started.1->0@) == state.cached_modules@,
{
    assert(scheduler::worker_ids(taking.idle@).len() == taking.idle@.len());
    if taking.idle@.len() > 0 {
        assert(scheduler::worker_ids(taking.idle@)[0] == taking.idle@[0].id);
    }
    lemma_taken(
        *taking,
        *final(taking),
        taking_shared.worker_ids,
        final(taking_shared).worker_ids,
        taken.0,
        taken.1,
    );
    assert(scheduler::worker_ids(posting.idle@).len() == posting.idle@.len());
    if posting.idle@.len() > 0 {
        assert(scheduler::worker_ids(posting.idle@)[0] == posting.idle@[0].id);
    }
    lemma_taken(
        *posting,
        *final(posting),
        posting_shared.worker_ids,
        final(posting_shared).worker_ids,
        action->worker,
        action->start,
    );
}

/// Moving a worker takes the first one with its id out of one list and puts it
/// at the end of another.
pub proof fn law_workers_are_moved(
    worker_id: u32,
    from: &mut VecDeque<WorkerHandle>,
    to: &mut VecDeque<WorkerHandle>,
)
    requires
        call_ensures(scheduler::move_worker, (worker_id, from, to), ()),
    ensures
        work::has_gone_over(worker_id, old(from)@, old(to)@, final(from)@, final(to)@),
{
    work::lemma_moved(worker_id, from@, to@, final(from)@, final(to)@);
}

/// What is sent to a worker is sent to it alone and as it was given; where there
/// is no such worker, sending fails.
pub proof fn law_messages_go_to_their_worker(
    state: &SchedulerState,
    worker_id: u32,
    payload: PostMessagePayload,
    sent: Action,
    request_id: u64,
    session_id: u64,
    cause: String,
    started: Action,
    unstarted: Action,
)
    requires
        call_ensures(SchedulerState::send_to_worker, (state, worker_id, payload), sent),
        call_ensures(
            SchedulerState::send_host_exec_start_response,
            (state, worker_id, request_id, Ok(session_id)),
            started,
        ),
        call_ensures(
            SchedulerState::send_host_exec_start_response,
            (state, worker_id, request_id, Err(cause)),
            unstarted,
        ),
    ensures
        starting::has_worker(state, worker_id) ==> {
            &&& sent is Send && sent->Send_worker_id == worker_id
            &&& sent->Send_payload@ == payload@
            &&& started is Send && started->Send_worker_id == worker_id
            &&& started->Send_payload is HostExecStartResponse
            &&& started->Send_payload->HostExecStartResponse_request_id == request_id
            &&& started->Send_payload->HostExecStartResponse_result == Ok::<u64, String>(
                session_id,
            )
        },
        !starting::has_worker(state, worker_id) ==> {
            &&& sessions::fails_without_worker(sent, worker_id)
            &&& sessions::fails_without_worker(started, worker_id)
        },
        starting::tells_failure(state, unstarted, worker_id, request_id, cause@),
{
    starting::lemma_has_worker(state, worker_id);
}

/// A poll that is answered tells its worker whether there is something to read,
/// and a read that does not wait learns that there is nothing.
pub proof fn law_statuses_go_to_their_worker(
    state: &SchedulerState,
    worker_id: u32,
    session_id: u64,
    is_ready: bool,
    poll: Action,
    poll_before: Seq<u8>,
    poll_buffer: &[u8],
    polled: Result<bool, HostExecError>,
    nothing: Action,
    before: Seq<u8>,
    buffer: &[u8],
    tried: Result<Option<HostExecOutput>, HostExecError>,
)
    requires
        starting::has_worker(state, worker_id),
        call_ensures(
            SchedulerState::send_host_exec_poll_response,
            (state, worker_id, session_id, is_ready),
            poll,
        ),
        poll_before.len() >= 16,
        poll_buffer@ == answers::all_carried_out(poll_before, poll->stores@),
        call_ensures(host_exec::finish_poll, (BufferOutcome::Woken(poll_buffer),), polled),
        call_ensures(
            SchedulerState::send_host_exec_try_read_no_data,
            (state, worker_id, session_id),
            nothing,
        ),
        before.len() >= 16,
        buffer@ == answers::all_carried_out(before, nothing->stores@),
        call_ensures(host_exec::finish_try_read, (BufferOutcome::Woken(buffer),), tried),
    ensures
        poll is Store && poll->Store_worker_id == worker_id,
        polled == Ok::<bool, HostExecError>(is_ready),
        nothing is Store && nothing->Store_worker_id == worker_id,
        tried is Ok && tried->Ok_0 is None,
{
    starting::lemma_has_worker(state, worker_id);
    answers::lemma_all_carried_out(poll_before, poll->stores@);
    answers::lemma_all_carried_out(before, nothing->stores@);
    host_exec::law_poll_gives_what_the_scheduler_answered(
        poll_before,
        poll_buffer,
        session_id,
        is_ready,
    );
    response::law_status_response_is_read_back(before, session_id, 2);
}

/// Answers to a worker that is not there fail, naming it.
pub proof fn law_answers_to_missing_workers_fail(
    state: &SchedulerState,
    worker_id: u32,
    session_id: u64,
    is_ready: bool,
    poll: Action,
    nothing: Action,
    data: Option<Vec<u8>>,
    pipe: Action,
    unanswered: Action,
)
    requires
        !starting::has_worker(state, worker_id),
        call_ensures(
            SchedulerState::send_host_exec_poll_response,
            (state, worker_id, session_id, is_ready),
            poll,
        ),
        call_ensures(
            SchedulerState::send_host_exec_try_read_no_data,
            (state, worker_id, session_id),
            nothing,
        ),
        call_ensures(
            SchedulerState::send_pipe_read_response,
            (state, Some(PipeAnswer { worker_id, data })),
            pipe,
        ),
        call_ensures(SchedulerState::send_pipe_read_response, (state, None), unanswered),
    ensures
        sessions::fails_without_worker(poll, worker_id),
        sessions::fails_without_worker(nothing, worker_id),
        sessions::fails_without_worker(pipe, worker_id),
        unanswered is Done,
{
    starting::lemma_has_worker(state, worker_id);
}

/// Bytes that answer a pipe read reach their worker whole, up to what its buffer
/// holds.
pub proof fn law_pipe_answers_go_to_their_worker(
    state: &SchedulerState,
    worker_id: u32,
    data: Vec<u8>,
    action: Action,
    before: Seq<u8>,
    buffer: &[u8],
    rx: &SimplePipeRx,
    buf: &mut [u8],
    read: Result<usize, PipeError>,
)
    requires
        starting::has_worker(state, worker_id),
        call_ensures(
            SchedulerState::send_pipe_read_response,
            (state, Some(PipeAnswer { worker_id, data: Some(data) })),
            action,
        ),
        data@.len() < 0x8000_0000,
        before.len() >= 64 + data@.len(),
        buffer@ == answers::all_carried_out(before, action->stores@),
        buf@.len() >= data@.len(),
        call_ensures(SimplePipeRx::read_blocking, (rx, WaitOutcome::Woken(buffer), buf), read),
    ensures
        action is Store && action->Store_worker_id == worker_id,
        read == Ok::<usize, PipeError>(data@.len() as usize),
        final(buf)@.len() == old(buf)@.len(),
        forall|i: int| 0 <= i < data@.len() ==> #[trigger] final(buf)@[i] == data@[i],
        forall|i: int|
            data@.len() <= i < old(buf)@.len() ==> #[trigger] final(buf)@[i] == old(buf)@[i],
{
    starting::lemma_has_worker(state, worker_id);
    answers::lemma_all_carried_out(before, action->stores@);
    crate::pipes::law_reader_gets_what_the_scheduler_sends(
        before,
        buffer,
        Some(data@),
        buf@.len(),
    );
}

/// Pipe ends that a program takes for files have neither size, times nor
/// positions and are open. A write end takes much at a time and is never
/// readable; a read end is always worth a try and never writable.
pub proof fn law_pipe_ends_look_like_files(
    tx: &SimplePipeTx,
    rx: &SimplePipeRx,
    unreadable: PipeError,
    never_readable: Result<usize, PipeError>,
    writable: Result<usize, PipeError>,
    unwritable: PipeError,
    readable: Result<usize, PipeError>,
    never_writable: Result<usize, PipeError>,
    tx_times: (u64, u64, u64),
    rx_times: (u64, u64, u64),
    sizes: (u64, u64),
    positions: (u64, u64),
    open: (bool, bool),
)
    requires
        call_ensures(SimplePipeTx::poll_read, (tx,), unreadable),
        call_ensures(SimplePipeTx::poll_read_ready, (tx,), never_readable),
        call_ensures(SimplePipeTx::poll_write_ready, (tx,), writable),
        call_ensures(SimplePipeRx::poll_write, (rx,), unwritable),
        call_ensures(SimplePipeRx::poll_read_ready, (rx,), readable),
        call_ensures(SimplePipeRx::poll_write_ready, (rx,), never_writable),
        call_ensures(SimplePipeTx::last_accessed, (tx,), tx_times.0),
        call_ensures(SimplePipeTx::last_modified, (tx,), tx_times.1),
        call_ensures(SimplePipeTx::created_time, (tx,), tx_times.2),
        call_ensures(SimplePipeRx::last_accessed, (rx,), rx_times.0),
        call_ensures(SimplePipeRx::last_modified, (rx,), rx_times.1),
        call_ensures(SimplePipeRx::created_time, (rx,), rx_times.2),
        call_ensures(SimplePipeTx::size, (tx,), sizes.0),
        call_ensures(SimplePipeRx::size, (rx,), sizes.1),
        call_ensures(SimplePipeTx::seek, (tx,), positions.0),
        call_ensures(SimplePipeRx::seek, (rx,), positions.1),
        call_ensures(SimplePipeTx::is_open, (tx,), open.0),
        call_ensures(SimplePipeRx::is_open, (rx,), open.1),
    ensures
        unreadable.kind is InvalidInput && unreadable.message@ == "Write-only pipe"@,
        never_readable is Err && never_readable->Err_0.kind is InvalidInput
            && never_readable->Err_0.message@ == "Write-only"@,
        writable == Ok::<usize, PipeError>(65536),
        unwritable.kind is InvalidInput && unwritable.message@ == "Read-only pipe"@,
        readable == Ok::<usize, PipeError>(1),
        never_writable is Err && never_writable->Err_0.kind is InvalidInput
            && never_writable->Err_0.message@ == "Read-only"@,
        tx_times == (0u64, 0u64, 0u64) && rx_times == (0u64, 0u64, 0u64),
        sizes == (0u64, 0u64) && positions == (0u64, 0u64),
        open == (true, true),
{
}

// ---------------------------------------------------------------------------
// What messages leave alone
// ---------------------------------------------------------------------------

/// Whether a message is about the workers or the modules that they know.
pub open spec fn is_about_workers(message: SchedulerMessage) -> bool {
    ||| work::asks_for_work(message)
    ||| message is SpawnWithModuleAndMemory
    ||| message is CacheModule
    ||| message is WorkerBusy
    ||| message is WorkerIdle
    ||| message is Close
}

/// Whether a message takes something from a session.
pub open spec fn takes_from_session(message: SchedulerMessage) -> bool {
    message is HostExecRead || message is HostExecTryRead || message is HostExecCloseStdin
}

/// Whether a message is about a pipe.
pub open spec fn is_about_pipes(message: SchedulerMessage) -> bool {
    message is PipeCreate || message is PipeWrite || message is PipeRead || message is PipeClose
}

/// A message changes only what it is about: workers and modules, what sessions
/// hold, or pipes. Ids of workers are used up only by work, and the handler stays
/// the same.
pub proof fn law_messages_change_only_what_they_are_about(
    state: &mut SchedulerState,
    shared: &mut SharedState,
    message: SchedulerMessage,
    action: Action,
)
    requires
        call_ensures(SchedulerState::execute, (state, shared, message), action),
    ensures
        final(state).mailbox == old(state).mailbox,
        !is_about_workers(message) ==> {
            &&& work::same_workers(old(state).idle@, final(state).idle@)
            &&& work::same_workers(old(state).busy@, final(state).busy@)
            &&& final(state).cached_modules@ == old(state).cached_modules@
            &&& final(shared).worker_ids.next == old(shared).worker_ids.next
        },
        !takes_from_session(message) ==> {
            &&& final(shared).sessions.results@ == old(shared).sessions.results@
            &&& final(shared).sessions.pending_reads@ == old(shared).sessions.pending_reads@
            &&& final(shared).sessions@.output_queues == old(shared).sessions@.output_queues
            &&& final(shared).sessions.stdin_writers@ == old(shared).sessions.stdin_writers@
        },
        final(shared).sessions.signal_handlers@ == old(shared).sessions.signal_handlers@,
        final(shared).sessions.child_output_handlers@ == old(
            shared,
        ).sessions.child_output_handlers@,
        !is_about_pipes(message) ==> piping::pipes_kept(
            old(shared).pipes,
            final(shared).pipes,
        ),
        final(shared).host_exec_handler == old(shared).host_exec_handler,
{
    if !is_about_workers(message) {
        work::lemma_same_ids(state.idle@, final(state).idle@);
        work::lemma_same_ids(state.busy@, final(state).busy@);
    }
    if !is_about_pipes(message) {
        piping::lemma_pipes_kept(shared.pipes, final(shared).pipes);
    }
}

/// A worker that is not there is told nothing: what it asks for fails, naming it,
/// where it would have been answered.
pub proof fn law_requests_of_missing_workers_fail(
    state: &mut SchedulerState,
    worker_id: u32,
    request_id: u64,
    session_id: u64,
    polling: &mut SharedState,
    polled: Action,
    completing: &mut SharedState,
    msg_type: u32,
    data: Vec<u8>,
    completed: Action,
    trying: &mut SharedState,
    tried: Action,
)
    requires
        !starting::has_worker(state, worker_id),
        call_ensures(
            SchedulerState::execute,
            (state, polling, SchedulerMessage::HostExecPoll { worker_id, request_id, session_id }),
            polled,
        ),
        call_ensures(
            SchedulerState::execute,
            (
                state,
                completing,
                SchedulerMessage::HostExecReadComplete { worker_id, request_id, msg_type, data },
            ),
            completed,
        ),
        call_ensures(
            SchedulerState::execute,
            (
                state,
                trying,
                SchedulerMessage::HostExecTryRead { worker_id, request_id, session_id },
            ),
            tried,
        ),
    ensures
        sessions::fails_without_worker(polled, worker_id),
        sessions::fails_without_worker(completed, worker_id),
        sessions::fails_without_worker(tried, worker_id),
{
    starting::lemma_has_worker(state, worker_id);
}

/// Messages about pipes do to the pipe that they name what the pipes themselves
/// do, and answer whom they answer.
pub proof fn law_pipe_messages_act_on_their_pipe(
    state: &mut SchedulerState,
    pipe_id: u64,
    worker_id: u32,
    reading: &mut SharedState,
    max_len: u32,
    read: Action,
    read_pipes: &mut PipeBuffers,
    read_answer: Option<PipeAnswer>,
    read_direct: Action,
    writing: &mut SharedState,
    data: Vec<u8>,
    written: Action,
    written_pipes: &mut PipeBuffers,
    written_answer: Option<PipeAnswer>,
    written_direct: Action,
    closing: &mut SharedState,
    closed: Action,
    closed_pipes: &mut PipeBuffers,
    closed_answer: Option<PipeAnswer>,
    closed_direct: Action,
)
    requires
        call_ensures(
            SchedulerState::execute,
            (state, reading, SchedulerMessage::PipeRead { pipe_id, worker_id, max_len }),
            read,
        ),
        reading.pipes == *read_pipes,
        call_ensures(PipeBuffers::read, (read_pipes, pipe_id, worker_id, max_len), read_answer),
        call_ensures(
            SchedulerState::send_pipe_read_response,
            (&*state, read_answer),
            read_direct,
        ),
        call_ensures(
            SchedulerState::execute,
            (state, writing, SchedulerMessage::PipeWrite { pipe_id, worker_id, data }),
            written,
        ),
        writing.pipes == *written_pipes,
        call_ensures(PipeBuffers::write, (written_pipes, pipe_id, data), written_answer),
        call_ensures(
            SchedulerState::send_pipe_read_response,
            (&*state, written_answer),
            written_direct,
        ),
        call_ensures(
            SchedulerState::execute,
            (state, closing, SchedulerMessage::PipeClose { pipe_id, worker_id }),
            closed,
        ),
        closing.pipes == *closed_pipes,
        call_ensures(PipeBuffers::close, (closed_pipes, pipe_id), closed_answer),
        call_ensures(
            SchedulerState::send_pipe_read_response,
            (&*state, closed_answer),
            closed_direct,
        ),
    ensures
        piping::pipes_kept(*final(read_pipes), final(reading).pipes),
        read@ == read_direct@,
        piping::pipes_kept(*final(written_pipes), final(writing).pipes),
        written@ == written_direct@,
        piping::pipes_kept(*final(closed_pipes), final(closing).pipes),
        closed@ == closed_direct@,
{
    piping::lemma_pipes_kept(*final(read_pipes), final(reading).pipes);
    piping::lemma_pipes_kept(*final(written_pipes), final(writing).pipes);
    piping::lemma_pipes_kept(*final(closed_pipes), final(closing).pipes);
}

} // verus!
