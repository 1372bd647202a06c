//! What a host process writes is what its worker reads, and what a worker asks
//! of it reaches the functions that its handler gave.
use vstd::prelude::*;
use crate::host_exec;
use crate::host_exec::{BufferOutcome, HostExecError};
use crate::laws::answers;
use crate::laws::host_exec as starting;
use crate::laws::numbers;
use crate::response;
use crate::response::HostExecOutput;
use crate::tasks::host_exec_context;
use crate::tasks::host_exec_context::{Callback, HostExecContext, HostExecRequest, SpawnValue};
use crate::tasks::scheduler;
use crate::tasks::scheduler::{Action, CallArgument, SchedulerError, SchedulerState, SharedState};
use crate::tasks::scheduler_message::SchedulerMessage;
use crate::tasks::sessions;
use crate::tasks::sessions::{HostExecSessions, HostValue, Settlement};
use crate::words;

verus! {

// ---------------------------------------------------------------------------
// Output of a process
// ---------------------------------------------------------------------------

/// The output of a session that has not been read, oldest first.
pub open spec fn queue(sessions: HostExecSessions, session_id: u64) -> Seq<(u32, Vec<u8>)> {
    if sessions.output_queues@.contains_key(session_id) {
        sessions.output_queues@[session_id]@
    } else {
        Seq::empty()
    }
}

/// Whether two queues hold the same.
pub open spec fn same_items(a: Seq<(u32, Vec<u8>)>, b: Seq<(u32, Vec<u8>)>) -> bool {
    &&& a.len() == b.len()
    &&& forall|i: int| 0 <= i < a.len() ==> (#[trigger] a[i]).0 == b[i].0 && a[i].1@ == b[i].1@
}

pub proof fn lemma_queue(sessions: HostExecSessions, session_id: u64)
    ensures
        sessions@.queued(session_id).len() == queue(sessions, session_id).len(),
        forall|i: int|
            0 <= i < queue(sessions, session_id).len() ==> {
                let item = #[trigger] queue(sessions, session_id)[i];
                sessions@.queued(session_id)[i] == (item.0, item.1@)
            },
{
    if sessions.output_queues@.contains_key(session_id) {
        assert(sessions@.output_queues[session_id] == sessions::queue_view(
            sessions.output_queues@[session_id]@,
        ));
    }
}

pub proof fn lemma_same_queues(
    before: HostExecSessions,
    after: HostExecSessions,
    session_id: u64,
)
    requires
        before@.queued(session_id) == after@.queued(session_id),
    ensures
        same_items(queue(before, session_id), queue(after, session_id)),
{
    lemma_queue(before, session_id);
    lemma_queue(after, session_id);
    let a = queue(before, session_id);
    let b = queue(after, session_id);
    assert forall|i: int| 0 <= i < a.len() implies (#[trigger] a[i]).0 == b[i].0 && a[i].1@
        == b[i].1@ by {
        assert(before@.queued(session_id)[i] == (a[i].0, a[i].1@));
        assert(after@.queued(session_id)[i] == (b[i].0, b[i].1@));
    }
}

/// Whether what happened to one session left the output and the waiting reads of
/// the others alone.
pub open spec fn others_kept(
    before: HostExecSessions,
    after: HostExecSessions,
    session_id: u64,
) -> bool {
    forall|other: u64|
        #![trigger queue(after, other)]
        other != session_id ==> {
            &&& same_items(queue(before, other), queue(after, other))
            &&& after.pending_reads@.contains_key(other) == before.pending_reads@.contains_key(
                other,
            )
            &&& after.pending_reads@[other] == before.pending_reads@[other]
            &&& after.results@.contains_key(other) == before.results@.contains_key(other)
            &&& after.results@[other] == before.results@[other]
        }
}

pub proof fn lemma_others(before: HostExecSessions, after: HostExecSessions, session_id: u64)
    requires
        forall|other: u64|
            other != session_id ==> #[trigger] after@.queued(other) == before@.queued(other),
        forall|other: u64|
            other != session_id ==> {
                &&& #[trigger] after.pending_reads@.contains_key(other)
                    == before.pending_reads@.contains_key(other)
                &&& after.pending_reads@[other] == before.pending_reads@[other]
            },
        forall|other: u64|
            other != session_id ==> {
                &&& #[trigger] after.results@.contains_key(other) == before.results@.contains_key(
                    other,
                )
                &&& after.results@[other] == before.results@[other]
            },
    ensures
        others_kept(before, after, session_id),
{
    assert forall|other: u64|
        #![trigger queue(after, other)]
        other != session_id implies same_items(queue(before, other), queue(after, other)) by {
        assert(after@.queued(other) == before@.queued(other));
        lemma_same_queues(before, after, other);
    }
}

/// Whether the functions that a handler gave are the same.
pub open spec fn functions_kept(before: HostExecSessions, after: HostExecSessions) -> bool {
    &&& after.stdin_writers@ == before.stdin_writers@
    &&& after.signal_handlers@ == before.signal_handlers@
    &&& after.child_output_handlers@ == before.child_output_handlers@
}

/// Whether a session has got one more piece of output: a read that waits for it
/// is answered with it, and otherwise it is last in the session's queue.
pub open spec fn got(
    before: HostExecSessions,
    after: HostExecSessions,
    session_id: u64,
    msg_type: u32,
    data: Seq<u8>,
    message: Option<SchedulerMessage>,
) -> bool {
    let old_queue = queue(before, session_id);
    let new_queue = queue(after, session_id);
    &&& !after.pending_reads@.contains_key(session_id)
    &&& after.results@.contains_key(session_id) == before.results@.contains_key(session_id)
    &&& after.results@[session_id] == before.results@[session_id]
    &&& others_kept(before, after, session_id)
    &&& if before.pending_reads@.contains_key(session_id) {
        &&& (message matches Some(
            SchedulerMessage::HostExecReadComplete { worker_id, request_id, msg_type: ty, data: d },
        ) && (worker_id, request_id) == before.pending_reads@[session_id] && ty == msg_type && d@
            == data)
        &&& same_items(old_queue, new_queue)
    } else {
        &&& message is None
        &&& new_queue.len() == old_queue.len() + 1
        &&& new_queue.last().0 == msg_type && new_queue.last().1@ == data
        &&& same_items(old_queue, new_queue.drop_last())
    }
}

/// Reads wait only where there is nothing to read.
pub open spec fn waits_for_something_new(sessions: HostExecSessions, session_id: u64) -> bool {
    sessions.pending_reads@.contains_key(session_id) ==> queue(sessions, session_id).len() == 0
}

proof fn lemma_got_output(
    before: HostExecSessions,
    after: HostExecSessions,
    session_id: u64,
    msg_type: u32,
    data: Seq<u8>,
    message: Option<SchedulerMessage>,
)
    requires
        (after@, sessions::optional_message(message)) == before@.after_output(
            session_id,
            msg_type,
            data,
        ),
    ensures
        got(before, after, session_id, msg_type, data, message),
        functions_kept(before, after),
{
    lemma_queue(before, session_id);
    lemma_queue(after, session_id);
    lemma_others(before, after, session_id);
    let old_queue = queue(before, session_id);
    let new_queue = queue(after, session_id);
    if before.pending_reads@.contains_key(session_id) {
        lemma_same_queues(before, after, session_id);
    } else {
        let said = after@.queued(session_id);
        assert(said == before@.queued(session_id).push((msg_type, data)));
        let n = old_queue.len() as int;
        assert(said[n] == (new_queue[n].0, new_queue[n].1@));
        assert forall|i: int| 0 <= i < n implies (#[trigger] old_queue[i]).0
            == new_queue.drop_last()[i].0 && old_queue[i].1@ == new_queue.drop_last()[i].1@ by {
            assert(said[i] == (new_queue[i].0, new_queue[i].1@));
            assert(before@.queued(session_id)[i] == (old_queue[i].0, old_queue[i].1@));
        }
    }
}

proof fn lemma_got_request(
    before: HostExecSessions,
    after: HostExecSessions,
    session_id: u64,
    msg_type: u32,
    data: Seq<u8>,
    message: Option<SchedulerMessage>,
)
    requires
        waits_for_something_new(before, session_id),
        (after@, sessions::optional_message(message)) == before@.after_request(
            session_id,
            msg_type,
            data,
        ),
    ensures
        got(before, after, session_id, msg_type, data, message),
        functions_kept(before, after),
{
    lemma_queue(before, session_id);
    lemma_queue(after, session_id);
    lemma_others(before, after, session_id);
    let old_queue = queue(before, session_id);
    let new_queue = queue(after, session_id);
    if before.pending_reads@.contains_key(session_id) {
        assert(before@.queued(session_id).push((msg_type, data)).skip(1) =~= Seq::empty());
        assert(before@.queued(session_id) =~= after@.queued(session_id));
        lemma_same_queues(before, after, session_id);
    } else {
        let said = after@.queued(session_id);
        assert(said == before@.queued(session_id).push((msg_type, data)));
        let n = old_queue.len() as int;
        assert(said[n] == (new_queue[n].0, new_queue[n].1@));
        assert forall|i: int| 0 <= i < n implies (#[trigger] old_queue[i]).0
            == new_queue.drop_last()[i].0 && old_queue[i].1@ == new_queue.drop_last()[i].1@ by {
            assert(said[i] == (new_queue[i].0, new_queue[i].1@));
            assert(before@.queued(session_id)[i] == (old_queue[i].0, old_queue[i].1@));
        }
    }
}

/// Whether two sessions' states are the same.
pub open spec fn all_kept(before: HostExecSessions, after: HostExecSessions) -> bool {
    after@ == before@
}

/// The callback for standard output hands bytes on as such, and the one for
/// standard error as such. What is not bytes is dropped.
pub proof fn law_output_callbacks_hand_bytes_on(
    session_id: u64,
    arguments: Vec<HostValue>,
    json: Vec<u8>,
    out: &mut HostExecSessions,
    out_message: Option<SchedulerMessage>,
    err: &mut HostExecSessions,
    err_message: Option<SchedulerMessage>,
)
    requires
        call_ensures(
            HostExecSessions::called,
            (out, session_id, Callback::OnStdout, &arguments, json),
            out_message,
        ),
        call_ensures(
            HostExecSessions::called,
            (err, session_id, Callback::OnStderr, &arguments, json),
            err_message,
        ),
    ensures
        arguments@.len() > 0 && arguments@[0] is Bytes ==> {
            let data = arguments@[0]->Bytes_0@;
            &&& got(*old(out), *final(out), session_id, 1, data, out_message)
            &&& functions_kept(*old(out), *final(out))
            &&& got(*old(err), *final(err), session_id, 2, data, err_message)
            &&& functions_kept(*old(err), *final(err))
        },
        arguments@.len() == 0 || !(arguments@[0] is Bytes) ==> {
            &&& all_kept(*old(out), *final(out)) && out_message is None
            &&& all_kept(*old(err), *final(err)) && err_message is None
        },
{
    let said = sessions::arguments_view(arguments@);
    if arguments@.len() > 0 {
        assert(said[0] == arguments@[0]@);
        if arguments@[0] is Bytes {
            let data = arguments@[0]->Bytes_0@;
            lemma_got_output(*out, *final(out), session_id, 1, data, out_message);
            lemma_got_output(*err, *final(err), session_id, 2, data, err_message);
        }
    }
}

/// What a handler finds under the name for standard output hands bytes on as
/// standard output of its session, and what it finds under the name for standard
/// error hands them on as standard error.
pub proof fn law_names_lead_to_their_streams(
    request: HostExecRequest,
    session_id: u64,
    context: HostExecContext,
    i: int,
    j: int,
    arguments: Vec<HostValue>,
    json: Vec<u8>,
    out: &mut HostExecSessions,
    out_message: Option<SchedulerMessage>,
    err: &mut HostExecSessions,
    err_message: Option<SchedulerMessage>,
)
    requires
        call_ensures(
            host_exec_context::create_host_exec_context,
            (&request, session_id),
            context,
        ),
        0 <= i < context.entries@.len() && context.entries@[i].0@ == "onStdout"@,
        0 <= j < context.entries@.len() && context.entries@[j].0@ == "onStderr"@,
        arguments@.len() > 0 && arguments@[0] is Bytes,
        call_ensures(
            HostExecSessions::called,
            (out, context.session_id, context.entries@[i].1->Callback_0, &arguments, json),
            out_message,
        ),
        call_ensures(
            HostExecSessions::called,
            (err, context.session_id, context.entries@[j].1->Callback_0, &arguments, json),
            err_message,
        ),
    ensures
        context.entries@[i].1 is Callback && context.entries@[j].1 is Callback,
        got(*old(out), *final(out), session_id, 1, arguments@[0]->Bytes_0@, out_message),
        got(*old(err), *final(err), session_id, 2, arguments@[0]->Bytes_0@, err_message),
        functions_kept(*old(out), *final(out)),
        functions_kept(*old(err), *final(err)),
{
    starting::law_handlers_are_given_the_request(request, session_id, context);
    assert(starting::entry_is_right(context.entries@[i].0@, context.entries@[i].1, request));
    assert(starting::entry_is_right(context.entries@[j].0@, context.entries@[j].1, request));
    let said = sessions::arguments_view(arguments@);
    assert(said[0] == arguments@[0]@);
    let data = arguments@[0]->Bytes_0@;
    lemma_got_output(*out, *final(out), session_id, 1, data, out_message);
    lemma_got_output(*err, *final(err), session_id, 2, data, err_message);
}

/// The same holds where the host's bytes are handed over directly.
pub proof fn law_output_is_handed_on(
    session_id: u64,
    data: Vec<u8>,
    out: &mut HostExecSessions,
    out_message: Option<SchedulerMessage>,
    err: &mut HostExecSessions,
    err_message: Option<SchedulerMessage>,
    any: &mut HostExecSessions,
    msg_type: u32,
    any_message: Option<SchedulerMessage>,
    not_bytes: &mut HostExecSessions,
    no_message: Option<SchedulerMessage>,
)
    requires
        call_ensures(HostExecSessions::on_stdout, (out, session_id, Some(data)), out_message),
        call_ensures(HostExecSessions::on_stderr, (err, session_id, Some(data)), err_message),
        call_ensures(HostExecSessions::output, (any, session_id, msg_type, Some(data)), any_message),
        call_ensures(HostExecSessions::output, (not_bytes, session_id, msg_type, None), no_message),
    ensures
        got(*old(out), *final(out), session_id, 1, data@, out_message),
        got(*old(err), *final(err), session_id, 2, data@, err_message),
        got(*old(any), *final(any), session_id, msg_type, data@, any_message),
        all_kept(*old(not_bytes), *final(not_bytes)) && no_message is None,
{
    lemma_got_output(*out, *final(out), session_id, 1, data@, out_message);
    lemma_got_output(*err, *final(err), session_id, 2, data@, err_message);
    lemma_got_output(*any, *final(any), session_id, msg_type, data@, any_message);
}

/// A process ends with the number that its promise gives; with 0 if that gives
/// none, and with 1 if it is rejected. A read that waits is told at once, and the
/// code is kept for a later read.
pub proof fn law_promises_end_processes(
    sessions: &mut HostExecSessions,
    session_id: u64,
    settlement: Settlement,
    message: Option<SchedulerMessage>,
)
    requires
        call_ensures(
            HostExecSessions::promise_settled,
            (sessions, session_id, settlement),
            message,
        ),
    ensures
        ({
            let code: i32 = match settlement {
                Settlement::Fulfilled(Some(code)) => code,
                Settlement::Fulfilled(None) => 0,
                Settlement::Rejected => 1,
            };
            &&& final(sessions).results@ == old(sessions).results@.insert(session_id, code)
            &&& !final(sessions).pending_reads@.contains_key(session_id)
            &&& old(sessions).pending_reads@.contains_key(session_id) ==> (message matches Some(
                SchedulerMessage::HostExecReadComplete { worker_id, request_id, msg_type, data },
            ) && (worker_id, request_id) == old(sessions).pending_reads@[session_id] && msg_type
                == 3 && data@.len() == 4 && numbers::same_word(
                numbers::word_of(data@, 0),
                code as int,
            ))
            &&& !old(sessions).pending_reads@.contains_key(session_id) ==> message is None
        }),
        same_items(queue(*old(sessions), session_id), queue(*final(sessions), session_id)),
        others_kept(*old(sessions), *final(sessions), session_id),
        functions_kept(*old(sessions), *final(sessions)),
{
    let code = sessions::settled_code(settlement);
    numbers::lemma_bytes_of_a_word(words::unsigned_word(code));
    lemma_same_queues(*sessions, *final(sessions), session_id);
    lemma_others(*sessions, *final(sessions), session_id);
}

// ---------------------------------------------------------------------------
// Reads
// ---------------------------------------------------------------------------

/// Whether a queue has lost its oldest entry.
pub open spec fn lost_oldest(before: Seq<(u32, Vec<u8>)>, after: Seq<(u32, Vec<u8>)>) -> bool {
    &&& before.len() > 0
    &&& same_items(before.skip(1), after)
}

/// Whether an action answers a worker with data: once its stores are carried
/// out, whoever reads the buffer for that session gets the data under its type.
pub open spec fn answers_with_data(
    action: Action,
    worker_id: u32,
    session_id: u64,
    msg_type: u32,
    data: Seq<u8>,
) -> bool {
    &&& action is Store
    &&& action->Store_worker_id == worker_id
    &&& forall|before: Seq<u8>, buffer: &[u8], read: Result<HostExecOutput, HostExecError>|
        #![trigger answers::all_carried_out(before, action->stores@), call_ensures(
            host_exec::finish_read,
            (BufferOutcome::Woken(buffer), session_id),
            read,
        )]
        buffer@ == answers::all_carried_out(before, action->stores@) && before.len() >= 16
            + data.len() && data.len() < 0x8000_0000 && msg_type != 3 && session_id < 0x8000_0000
            && call_ensures(
            host_exec::finish_read,
            (BufferOutcome::Woken(buffer), session_id),
            read,
        ) ==> read is Ok && answers::output_is(read->Ok_0, msg_type, data)
    &&& forall|
        before: Seq<u8>,
        buffer: &[u8],
        read: Result<Option<HostExecOutput>, HostExecError>,
    |
        #![trigger answers::all_carried_out(before, action->stores@), call_ensures(
            host_exec::finish_try_read,
            (BufferOutcome::Woken(buffer),),
            read,
        )]
        buffer@ == answers::all_carried_out(before, action->stores@) && before.len() >= 16
            + data.len() && data.len() < 0x8000_0000 && msg_type != 3 && call_ensures(
            host_exec::finish_try_read,
            (BufferOutcome::Woken(buffer),),
            read,
        ) ==> read is Ok && read->Ok_0 is Some && answers::output_is(
            read->Ok_0->0,
            msg_type,
            data,
        )
}

proof fn lemma_answers_with_data(
    action: Action,
    worker_id: u32,
    session_id: u64,
    msg_type: u32,
    data: Seq<u8>,
)
    requires
        action is Store,
        action->Store_worker_id == worker_id,
        response::stores_view(action->stores@) == response::data_response_stores(
            session_id,
            msg_type,
            data,
        ),
    ensures
        answers_with_data(action, worker_id, session_id, msg_type, data),
{
    assert forall|before: Seq<u8>, buffer: &[u8], read: Result<HostExecOutput, HostExecError>|
        #![trigger answers::all_carried_out(before, action->stores@), call_ensures(
            host_exec::finish_read,
            (BufferOutcome::Woken(buffer), session_id),
            read,
        )]
        buffer@ == answers::all_carried_out(before, action->stores@) && before.len() >= 16
            + data.len() && data.len() < 0x8000_0000 && msg_type != 3 && session_id < 0x8000_0000
            && call_ensures(
            host_exec::finish_read,
            (BufferOutcome::Woken(buffer), session_id),
            read,
        ) implies read is Ok && answers::output_is(read->Ok_0, msg_type, data) by {
        answers::lemma_all_carried_out(before, action->stores@);
        host_exec::law_read_gives_what_the_scheduler_answered(
            before,
            buffer,
            session_id,
            msg_type,
            data,
        );
    }
    assert forall|
        before: Seq<u8>,
        buffer: &[u8],
        read: Result<Option<HostExecOutput>, HostExecError>,
    |
        #![trigger answers::all_carried_out(before, action->stores@), call_ensures(
            host_exec::finish_try_read,
            (BufferOutcome::Woken(buffer),),
            read,
        )]
        buffer@ == answers::all_carried_out(before, action->stores@) && before.len() >= 16
            + data.len() && data.len() < 0x8000_0000 && msg_type != 3 && call_ensures(
            host_exec::finish_try_read,
            (BufferOutcome::Woken(buffer),),
            read,
        ) implies read is Ok && read->Ok_0 is Some && answers::output_is(
        read->Ok_0->0,
        msg_type,
        data,
    ) by {
        answers::lemma_all_carried_out(before, action->stores@);
        response::law_data_response_is_read_back(before, session_id, msg_type, data);
    }
}

/// Whether an action answers a worker with an exit code.
pub open spec fn answers_with_exit(
    action: Action,
    worker_id: u32,
    session_id: u64,
    exit_code: i32,
) -> bool {
    &&& action is Store
    &&& action->Store_worker_id == worker_id
    &&& forall|before: Seq<u8>, buffer: &[u8], read: Result<HostExecOutput, HostExecError>|
        #![trigger answers::all_carried_out(before, action->stores@), call_ensures(
            host_exec::finish_read,
            (BufferOutcome::Woken(buffer), session_id),
            read,
        )]
        buffer@ == answers::all_carried_out(before, action->stores@) && before.len() >= 16
            && session_id < 0x8000_0000 && call_ensures(
            host_exec::finish_read,
            (BufferOutcome::Woken(buffer), session_id),
            read,
        ) ==> read == Ok::<HostExecOutput, HostExecError>(HostExecOutput::Exit(exit_code))
    &&& forall|
        before: Seq<u8>,
        buffer: &[u8],
        read: Result<Option<HostExecOutput>, HostExecError>,
    |
        #![trigger answers::all_carried_out(before, action->stores@), call_ensures(
            host_exec::finish_try_read,
            (BufferOutcome::Woken(buffer),),
            read,
        )]
        buffer@ == answers::all_carried_out(before, action->stores@) && before.len() >= 16
            && call_ensures(
            host_exec::finish_try_read,
            (BufferOutcome::Woken(buffer),),
            read,
        ) ==> read == Ok::<Option<HostExecOutput>, HostExecError>(
            Some(HostExecOutput::Exit(exit_code)),
        )
}

proof fn lemma_answers_with_exit(
    action: Action,
    worker_id: u32,
    session_id: u64,
    exit_code: i32,
)
    requires
        action is Store,
        action->Store_worker_id == worker_id,
        response::stores_view(action->stores@) == response::exit_response_stores(
            session_id,
            exit_code,
        ),
    ensures
        answers_with_exit(action, worker_id, session_id, exit_code),
{
    assert forall|before: Seq<u8>, buffer: &[u8], read: Result<HostExecOutput, HostExecError>|
        #![trigger answers::all_carried_out(before, action->stores@), call_ensures(
            host_exec::finish_read,
            (BufferOutcome::Woken(buffer), session_id),
            read,
        )]
        buffer@ == answers::all_carried_out(before, action->stores@) && before.len() >= 16
            && session_id < 0x8000_0000 && call_ensures(
            host_exec::finish_read,
            (BufferOutcome::Woken(buffer), session_id),
            read,
        ) implies read == Ok::<HostExecOutput, HostExecError>(HostExecOutput::Exit(exit_code)) by {
        answers::lemma_all_carried_out(before, action->stores@);
        host_exec::law_read_gives_the_exit_code_answered(before, buffer, session_id, exit_code);
    }
    assert forall|
        before: Seq<u8>,
        buffer: &[u8],
        read: Result<Option<HostExecOutput>, HostExecError>,
    |
        #![trigger answers::all_carried_out(before, action->stores@), call_ensures(
            host_exec::finish_try_read,
            (BufferOutcome::Woken(buffer),),
            read,
        )]
        buffer@ == answers::all_carried_out(before, action->stores@) && before.len() >= 16
            && call_ensures(
            host_exec::finish_try_read,
            (BufferOutcome::Woken(buffer),),
            read,
        ) implies read == Ok::<Option<HostExecOutput>, HostExecError>(
        Some(HostExecOutput::Exit(exit_code)),
    ) by {
        answers::lemma_all_carried_out(before, action->stores@);
        host_exec::law_read_gives_the_exit_code_answered(before, buffer, session_id, exit_code);
    }
}

/// Whether an action says that a worker is not there.
pub open spec fn fails_without_worker(action: Action, worker_id: u32) -> bool {
    action == Action::Fail(SchedulerError::WorkerNotFound(worker_id))
}

/// A read by a worker of the pool gives the oldest output that has not been
/// read, and takes it. Where all output has been read and the process has ended,
/// it gives the exit code, once. Where there is nothing, the read waits in the
/// name of the worker.
pub proof fn law_reads_give_the_oldest_output(
    state: &mut SchedulerState,
    shared: &mut SharedState,
    worker_id: u32,
    request_id: u64,
    session_id: u64,
    action: Action,
)
    requires
        call_ensures(
            SchedulerState::execute,
            (state, shared, SchedulerMessage::HostExecRead { worker_id, request_id, session_id }),
            action,
        ),
    ensures
        ({
            let before = old(shared).sessions;
            let after = final(shared).sessions;
            let waiting = queue(before, session_id);
            &&& final(state)@ == old(state)@
            &&& functions_kept(before, after)
            &&& others_kept(before, after, session_id)
            &&& waiting.len() > 0 ==> {
                &&& starting::has_worker(old(state), worker_id) ==> answers_with_data(
                    action,
                    worker_id,
                    session_id,
                    waiting[0].0,
                    waiting[0].1@,
                )
                &&& lost_oldest(waiting, queue(after, session_id))
                &&& after.results@ == before.results@
                &&& after.pending_reads@ == before.pending_reads@
            }
            &&& waiting.len() == 0 && before.results@.contains_key(session_id) ==> {
                &&& starting::has_worker(old(state), worker_id) ==> answers_with_exit(
                    action,
                    worker_id,
                    session_id,
                    before.results@[session_id],
                )
                &&& after.results@ == before.results@.remove(session_id)
                &&& queue(after, session_id).len() == 0
                &&& after.pending_reads@ == before.pending_reads@
            }
            &&& waiting.len() == 0 && !before.results@.contains_key(session_id) ==> {
                &&& action is Done
                &&& after.pending_reads@ == before.pending_reads@.insert(
                    session_id,
                    (worker_id, session_id),
                )
                &&& after.results@ == before.results@
                &&& queue(after, session_id).len() == 0
            }
            &&& !starting::has_worker(old(state), worker_id) && !(action is Done)
                ==> fails_without_worker(action, worker_id)
        }),
{
    let before = shared.sessions;
    let after = final(shared).sessions;
    starting::lemma_has_worker(state, worker_id);
    lemma_queue(before, session_id);
    lemma_queue(after, session_id);
    lemma_others(before, after, session_id);
    let waiting = queue(before, session_id);
    if waiting.len() > 0 {
        assert(before@.queued(session_id)[0] == (waiting[0].0, waiting[0].1@));
        if starting::has_worker(state, worker_id) {
            lemma_answers_with_data(action, worker_id, session_id, waiting[0].0, waiting[0].1@);
        }
        lemma_skipped(before, after, session_id);
    } else if before.results@.contains_key(session_id) {
        if starting::has_worker(state, worker_id) {
            lemma_answers_with_exit(action, worker_id, session_id, before.results@[session_id]);
        }
    }
}

proof fn lemma_skipped(before: HostExecSessions, after: HostExecSessions, session_id: u64)
    requires
        before@.queued(session_id).len() > 0,
        after@.queued(session_id) == before@.queued(session_id).skip(1),
    ensures
        lost_oldest(queue(before, session_id), queue(after, session_id)),
{
    lemma_queue(before, session_id);
    lemma_queue(after, session_id);
    let a = queue(before, session_id);
    let b = queue(after, session_id);
    assert forall|i: int| 0 <= i < a.skip(1).len() implies (#[trigger] a.skip(1)[i]).0 == b[i].0
        && a.skip(1)[i].1@ == b[i].1@ by {
        assert(before@.queued(session_id)[i + 1] == (a[i + 1].0, a[i + 1].1@));
        assert(after@.queued(session_id)[i] == (b[i].0, b[i].1@));
    }
}

/// A read that does not wait gives the same as one that does, but says that there
/// is nothing where the other would wait.
pub proof fn law_reads_that_do_not_wait_say_so(
    state: &mut SchedulerState,
    shared: &mut SharedState,
    worker_id: u32,
    request_id: u64,
    session_id: u64,
    action: Action,
    before: Seq<u8>,
    buffer: &[u8],
    read: Result<Option<HostExecOutput>, HostExecError>,
)
    requires
        starting::has_worker(state, worker_id),
        call_ensures(
            SchedulerState::execute,
            (
                state,
                shared,
                SchedulerMessage::HostExecTryRead { worker_id, request_id, session_id },
            ),
            action,
        ),
        before.len() >= 16,
        buffer@ == answers::all_carried_out(before, action->stores@),
        call_ensures(host_exec::finish_try_read, (BufferOutcome::Woken(buffer),), read),
    ensures
        ({
            let sessions = old(shared).sessions;
            let after = final(shared).sessions;
            let waiting = queue(sessions, session_id);
            &&& action is Store && action->Store_worker_id == worker_id
            &&& final(state)@ == old(state)@
            &&& functions_kept(sessions, after)
            &&& others_kept(sessions, after, session_id)
            &&& after.pending_reads@ == sessions.pending_reads@
            &&& waiting.len() > 0 ==> {
                &&& answers_with_data(
                    action,
                    worker_id,
                    session_id,
                    waiting[0].0,
                    waiting[0].1@,
                )
                &&& lost_oldest(waiting, queue(after, session_id))
                &&& after.results@ == sessions.results@
            }
            &&& waiting.len() == 0 && sessions.results@.contains_key(session_id) ==> {
                &&& answers_with_exit(
                    action,
                    worker_id,
                    session_id,
                    sessions.results@[session_id],
                )
                &&& after.results@ == sessions.results@.remove(session_id)
                &&& queue(after, session_id).len() == 0
            }
            &&& waiting.len() == 0 && !sessions.results@.contains_key(session_id) ==> {
                &&& read == Ok::<Option<HostExecOutput>, HostExecError>(None)
                &&& after@ == sessions@
            }
        }),
{
    let sessions = shared.sessions;
    let after = final(shared).sessions;
    starting::lemma_has_worker(state, worker_id);
    lemma_queue(sessions, session_id);
    lemma_queue(after, session_id);
    lemma_others(sessions, after, session_id);
    answers::lemma_all_carried_out(before, action->stores@);
    let waiting = queue(sessions, session_id);
    if waiting.len() > 0 {
        assert(sessions@.queued(session_id)[0] == (waiting[0].0, waiting[0].1@));
        lemma_answers_with_data(action, worker_id, session_id, waiting[0].0, waiting[0].1@);
        lemma_skipped(sessions, after, session_id);
    } else if sessions.results@.contains_key(session_id) {
        lemma_answers_with_exit(action, worker_id, session_id, sessions.results@[session_id]);
    } else {
        host_exec::law_poll_gives_what_the_scheduler_answered(before, buffer, session_id, false);
    }
}

/// A poll says whether there is output to read or an exit code, and takes
/// nothing.
pub proof fn law_polls_say_whether_there_is_something(
    state: &mut SchedulerState,
    shared: &mut SharedState,
    worker_id: u32,
    request_id: u64,
    session_id: u64,
    action: Action,
    before: Seq<u8>,
    buffer: &[u8],
    polled: Result<bool, HostExecError>,
)
    requires
        starting::has_worker(state, worker_id),
        call_ensures(
            SchedulerState::execute,
            (state, shared, SchedulerMessage::HostExecPoll { worker_id, request_id, session_id }),
            action,
        ),
        before.len() >= 16,
        buffer@ == answers::all_carried_out(before, action->stores@),
        call_ensures(host_exec::finish_poll, (BufferOutcome::Woken(buffer),), polled),
    ensures
        action is Store && action->Store_worker_id == worker_id,
        final(state)@ == old(state)@,
        final(shared)@ == old(shared)@,
        polled == Ok::<bool, HostExecError>(
            queue(old(shared).sessions, session_id).len() > 0 || old(
                shared,
            ).sessions.results@.contains_key(session_id),
        ),
{
    starting::lemma_has_worker(state, worker_id);
    lemma_queue(shared.sessions, session_id);
    answers::lemma_all_carried_out(before, action->stores@);
    let ready = shared@.sessions.ready(session_id);
    host_exec::law_poll_gives_what_the_scheduler_answered(before, buffer, session_id, ready);
}

/// What answers a read that waited reaches its worker: an exit code as such, and
/// anything else as output.
pub proof fn law_waiting_reads_are_completed(
    state: &mut SchedulerState,
    shared: &mut SharedState,
    worker_id: u32,
    session_id: u64,
    msg_type: u32,
    data: Vec<u8>,
    exit_code: i32,
    action: Action,
)
    requires
        starting::has_worker(state, worker_id),
        call_ensures(
            SchedulerState::execute,
            (
                state,
                shared,
                SchedulerMessage::HostExecReadComplete {
                    worker_id,
                    request_id: session_id,
                    msg_type,
                    data,
                },
            ),
            action,
        ),
    ensures
        final(state)@ == old(state)@,
        final(shared)@ == old(shared)@,
        msg_type != 3 ==> answers_with_data(action, worker_id, session_id, msg_type, data@),
        msg_type == 3 && data@.len() >= 4 && numbers::same_word(
            numbers::word_of(data@, 0),
            exit_code as int,
        ) ==> answers_with_exit(action, worker_id, session_id, exit_code),
{
    starting::lemma_has_worker(state, worker_id);
    if msg_type != 3 {
        lemma_answers_with_data(action, worker_id, session_id, msg_type, data@);
    } else if data@.len() >= 4 && numbers::same_word(
        numbers::word_of(data@, 0),
        exit_code as int,
    ) {
        let s = data@.subrange(0, 4);
        assert(numbers::word_of(s, 0) == numbers::word_of(data@, 0));
        assert(words::i32_from_le(s) == exit_code);
        lemma_answers_with_exit(action, worker_id, session_id, exit_code);
    }
}

/// The scheduler's answers are those of the buffer's layout, for the worker that
/// is named, and fail where it is not there.
pub proof fn law_answers_go_to_their_worker(
    state: &SchedulerState,
    worker_id: u32,
    session_id: u64,
    msg_type: u32,
    data: Vec<u8>,
    exit_code: i32,
    with_data: Action,
    with_exit: Action,
)
    requires
        call_ensures(
            SchedulerState::send_host_exec_read_response,
            (state, worker_id, session_id, msg_type, data),
            with_data,
        ),
        call_ensures(
            SchedulerState::send_host_exec_exit_response,
            (state, worker_id, session_id, exit_code),
            with_exit,
        ),
    ensures
        starting::has_worker(state, worker_id) ==> {
            &&& answers_with_data(with_data, worker_id, session_id, msg_type, data@)
            &&& answers_with_exit(with_exit, worker_id, session_id, exit_code)
        },
        !starting::has_worker(state, worker_id) ==> {
            &&& fails_without_worker(with_data, worker_id)
            &&& fails_without_worker(with_exit, worker_id)
        },
{
    starting::lemma_has_worker(state, worker_id);
    if starting::has_worker(state, worker_id) {
        lemma_answers_with_data(with_data, worker_id, session_id, msg_type, data@);
        lemma_answers_with_exit(with_exit, worker_id, session_id, exit_code);
    }
}

// ---------------------------------------------------------------------------
// Functions of the handler
// ---------------------------------------------------------------------------

/// Whether everything but the functions that a handler gave is the same.
pub open spec fn output_kept(before: HostExecSessions, after: HostExecSessions) -> bool {
    &&& after@.output_queues == before@.output_queues
    &&& after.results@ == before.results@
    &&& after.pending_reads@ == before.pending_reads@
}

/// What a worker writes goes to the writer that the handler has set for the
/// session, whole, and closing calls the closer and takes both away.
pub proof fn law_standard_input_reaches_the_handler(
    sessions: &mut HostExecSessions,
    session_id: u64,
    arguments: Vec<HostValue>,
    writer: u64,
    closer: u64,
    json: Vec<u8>,
    message: Option<SchedulerMessage>,
    state: &mut SchedulerState,
    shared: &mut SharedState,
    worker_id: u32,
    request_id: u64,
    data: Vec<u8>,
    write: Action,
    closing: &mut SharedState,
    close: Action,
)
    requires
        arguments@.len() >= 2,
        arguments@[0] == HostValue::Function(writer),
        arguments@[1] == HostValue::Function(closer),
        call_ensures(
            HostExecSessions::called,
            (sessions, session_id, Callback::SetStdinWriter, &arguments, json),
            message,
        ),
        shared.sessions == *final(sessions),
        call_ensures(
            SchedulerState::execute,
            (
                state,
                shared,
                SchedulerMessage::HostExecWrite { worker_id, request_id, session_id, data },
            ),
            write,
        ),
        closing.sessions == *final(sessions),
        call_ensures(
            SchedulerState::execute,
            (
                state,
                closing,
                SchedulerMessage::HostExecCloseStdin { worker_id, request_id, session_id },
            ),
            close,
        ),
    ensures
        message is None,
        output_kept(*old(sessions), *final(sessions)),
        final(sessions).signal_handlers@ == old(sessions).signal_handlers@,
        final(sessions).child_output_handlers@ == old(sessions).child_output_handlers@,
        final(sessions).stdin_writers@ == old(sessions).stdin_writers@.insert(
            session_id,
            (writer, closer),
        ),
        write is Call,
        write->function == writer,
        (write->argument matches CallArgument::Bytes(bytes) && bytes@ == data@),
        final(shared)@ == old(shared)@,
        close == (Action::Call { function: closer, argument: CallArgument::Nothing }),
        final(closing).sessions.stdin_writers@ == old(closing).sessions.stdin_writers@.remove(
            session_id,
        ),
        output_kept(old(closing).sessions, final(closing).sessions),
        final(closing)@.pipes == old(closing)@.pipes,
{
    let said = sessions::arguments_view(arguments@);
    assert(said[0] == arguments@[0]@ && said[1] == arguments@[1]@);
}

/// Nothing is called for a session whose handler has set no functions.
pub proof fn law_sessions_without_functions_are_left_alone(
    state: &mut SchedulerState,
    shared: &mut SharedState,
    closing: &mut SharedState,
    signalling: &mut SharedState,
    worker_id: u32,
    request_id: u64,
    session_id: u64,
    data: Vec<u8>,
    signal: u32,
    write: Action,
    close: Action,
    signalled: Action,
)
    requires
        !shared.sessions.stdin_writers@.contains_key(session_id),
        !closing.sessions.stdin_writers@.contains_key(session_id),
        !signalling.sessions.signal_handlers@.contains_key(session_id),
        call_ensures(
            SchedulerState::execute,
            (
                state,
                shared,
                SchedulerMessage::HostExecWrite { worker_id, request_id, session_id, data },
            ),
            write,
        ),
        call_ensures(
            SchedulerState::execute,
            (
                state,
                closing,
                SchedulerMessage::HostExecCloseStdin { worker_id, request_id, session_id },
            ),
            close,
        ),
        call_ensures(
            SchedulerState::execute,
            (
                state,
                signalling,
                SchedulerMessage::HostExecSignal { worker_id, request_id, session_id, signal },
            ),
            signalled,
        ),
    ensures
        write is Done,
        close is Done,
        signalled is Done,
        final(shared)@ == old(shared)@,
        final(closing)@ == old(closing)@,
        final(signalling)@ == old(signalling)@,
{
    let before = closing@.sessions;
    assert(before.stdin_writers.remove(session_id) =~= before.stdin_writers);
}

/// A signal goes to the function that the handler has set for the session, as it
/// was sent.
pub proof fn law_signals_reach_the_handler(
    sessions: &mut HostExecSessions,
    session_id: u64,
    arguments: Vec<HostValue>,
    kill: u64,
    json: Vec<u8>,
    message: Option<SchedulerMessage>,
    state: &mut SchedulerState,
    shared: &mut SharedState,
    worker_id: u32,
    request_id: u64,
    signal: u32,
    action: Action,
)
    requires
        arguments@.len() >= 1,
        arguments@[0] == HostValue::Function(kill),
        call_ensures(
            HostExecSessions::called,
            (sessions, session_id, Callback::SetKillFunction, &arguments, json),
            message,
        ),
        shared.sessions == *final(sessions),
        call_ensures(
            SchedulerState::execute,
            (
                state,
                shared,
                SchedulerMessage::HostExecSignal { worker_id, request_id, session_id, signal },
            ),
            action,
        ),
    ensures
        message is None,
        output_kept(*old(sessions), *final(sessions)),
        final(sessions).stdin_writers@ == old(sessions).stdin_writers@,
        final(sessions).child_output_handlers@ == old(sessions).child_output_handlers@,
        final(sessions).signal_handlers@ == old(sessions).signal_handlers@.insert(
            session_id,
            kill,
        ),
        action == (Action::Call { function: kill, argument: CallArgument::Signal(signal) }),
        final(shared)@ == old(shared)@,
{
    let said = sessions::arguments_view(arguments@);
    assert(said[0] == arguments@[0]@);
}

/// Whether an argument is a function.
pub open spec fn is_function(arguments: Seq<HostValue>, position: int) -> bool {
    position < arguments.len() && arguments[position] is Function
}

/// Functions are set only if all that belong together are functions.
pub proof fn law_functions_are_set_together(
    sessions: &mut HostExecSessions,
    session_id: u64,
    callback: Callback,
    arguments: Vec<HostValue>,
    json: Vec<u8>,
    message: Option<SchedulerMessage>,
)
    requires
        call_ensures(
            HostExecSessions::called,
            (sessions, session_id, callback, &arguments, json),
            message,
        ),
        (callback is SetStdinWriter && !(is_function(arguments@, 0) && is_function(
            arguments@,
            1,
        ))) || (callback is SetKillFunction && !is_function(arguments@, 0)) || (
        callback is SetChildOutputHandlers && !(is_function(arguments@, 0) && is_function(
            arguments@,
            1,
        ) && is_function(arguments@, 2))),
    ensures
        message is None,
        all_kept(*old(sessions), *final(sessions)),
{
    let said = sessions::arguments_view(arguments@);
    assert(said.len() == arguments@.len());
    assert(forall|i: int| 0 <= i < said.len() ==> #[trigger] said[i] == arguments@[i]@);
}

// ---------------------------------------------------------------------------
// Children
// ---------------------------------------------------------------------------

/// The child that an argument names: 0 if it is no number.
pub open spec fn child_of(arguments: Seq<HostValue>) -> u64 {
    if arguments.len() > 0 && arguments[0] is Number {
        arguments[0]->long
    } else {
        0
    }
}

/// The signal that an argument names: 15 if it is no number.
pub open spec fn signal_of(arguments: Seq<HostValue>) -> u32 {
    if arguments.len() > 1 && arguments[1] is Number {
        arguments[1]->word
    } else {
        15
    }
}

/// A request of the host for a child is handed to the program of its session as
/// it was made. The child's output then goes to the three functions that came
/// with it, if all of them are functions.
pub proof fn law_spawn_requests_reach_the_program(
    sessions: &mut HostExecSessions,
    session_id: u64,
    arguments: Vec<HostValue>,
    json: Vec<u8>,
    message: Option<SchedulerMessage>,
)
    requires
        waits_for_something_new(*sessions, session_id),
        call_ensures(
            HostExecSessions::called,
            (sessions, session_id, Callback::RequestSpawn, &arguments, json),
            message,
        ),
    ensures
        got(*old(sessions), *final(sessions), session_id, 10, json@, message),
        final(sessions).stdin_writers@ == old(sessions).stdin_writers@,
        final(sessions).signal_handlers@ == old(sessions).signal_handlers@,
        final(sessions).child_output_handlers@ == (if is_function(arguments@, 5) && is_function(
            arguments@,
            6,
        ) && is_function(arguments@, 7) {
            old(sessions).child_output_handlers@.insert(
                child_of(arguments@),
                (
                    arguments@[5]->Function_0,
                    arguments@[6]->Function_0,
                    arguments@[7]->Function_0,
                ),
            )
        } else {
            old(sessions).child_output_handlers@
        }),
{
    let said = sessions::arguments_view(arguments@);
    assert(said.len() == arguments@.len());
    assert(forall|i: int| 0 <= i < said.len() ==> #[trigger] said[i] == arguments@[i]@);
    let before = *sessions;
    let after = *final(sessions);
    let set = before@.with_child_handlers(
        sessions::named_child(sessions::child_given(said, 0)),
        sessions::function_given(said, 5),
        sessions::function_given(said, 6),
        sessions::function_given(said, 7),
    );
    assert(set.queued(session_id) == before@.queued(session_id));
    lemma_got_beside(before, after, set, session_id, 10, json@, message);
}

/// A request is got also where other functions were set before it.
proof fn lemma_got_beside(
    before: HostExecSessions,
    after: HostExecSessions,
    set: sessions::SessionsView,
    session_id: u64,
    msg_type: u32,
    data: Seq<u8>,
    message: Option<SchedulerMessage>,
)
    requires
        waits_for_something_new(before, session_id),
        set.output_queues == before@.output_queues,
        set.pending_reads == before@.pending_reads,
        set.results == before@.results,
        (after@, sessions::optional_message(message)) == set.after_request(
            session_id,
            msg_type,
            data,
        ),
    ensures
        got(before, after, session_id, msg_type, data, message),
{
    lemma_queue(before, session_id);
    lemma_queue(after, session_id);
    assert forall|other: u64| other != session_id implies #[trigger] after@.queued(other)
        == before@.queued(other) by {}
    lemma_others(before, after, session_id);
    let old_queue = queue(before, session_id);
    let new_queue = queue(after, session_id);
    assert(set.queued(session_id) == before@.queued(session_id));
    if before.pending_reads@.contains_key(session_id) {
        assert(before@.queued(session_id).push((msg_type, data)).skip(1) =~= Seq::empty());
        assert(before@.queued(session_id) =~= after@.queued(session_id));
        lemma_same_queues(before, after, session_id);
    } else {
        let said = after@.queued(session_id);
        assert(said == before@.queued(session_id).push((msg_type, data)));
        let n = old_queue.len() as int;
        assert(said[n] == (new_queue[n].0, new_queue[n].1@));
        assert forall|i: int| 0 <= i < n implies (#[trigger] old_queue[i]).0
            == new_queue.drop_last()[i].0 && old_queue[i].1@ == new_queue.drop_last()[i].1@ by {
            assert(said[i] == (new_queue[i].0, new_queue[i].1@));
            assert(before@.queued(session_id)[i] == (old_queue[i].0, old_queue[i].1@));
        }
    }
}

/// Whether bytes name a child and go on with data.
pub open spec fn names_child(bytes: Seq<u8>, child_id: u64, data: Seq<u8>) -> bool {
    &&& bytes.len() == 8 + data.len()
    &&& numbers::long_of(bytes, 0) == child_id
    &&& forall|i: int| 0 <= i < data.len() ==> bytes[8 + i] == #[trigger] data[i]
}

proof fn lemma_names_child(child_id: u64, data: Seq<u8>)
    ensures
        names_child(words::le_bytes_u64(child_id) + data, child_id, data),
{
    numbers::lemma_bytes_of_a_long(child_id);
    let head = words::le_bytes_u64(child_id);
    let bytes = head + data;
    assert(forall|i: int| 0 <= i < 8 ==> bytes[i] == #[trigger] head[i]);
    assert(bytes[0] == head[0] && bytes[1] == head[1] && bytes[2] == head[2] && bytes[3] == head[3]
        && bytes[4] == head[4] && bytes[5] == head[5] && bytes[6] == head[6] && bytes[7]
        == head[7]);
}

/// Whether a session has got one more piece of output of a type, for some bytes
/// that name a child and go on with data.
pub open spec fn got_for_child(
    before: HostExecSessions,
    after: HostExecSessions,
    session_id: u64,
    msg_type: u32,
    child_id: u64,
    data: Seq<u8>,
    message: Option<SchedulerMessage>,
) -> bool {
    exists|bytes: Seq<u8>| #[trigger]
        got(before, after, session_id, msg_type, bytes, message) && names_child(
            bytes,
            child_id,
            data,
        )
}

/// What the host asks of a child is handed to the program of its session, after
/// eight bytes that name the child: bytes for its standard input as they are, the
/// closing of its standard input, and a signal as four bytes.
pub proof fn law_requests_about_children_reach_the_program(
    session_id: u64,
    arguments: Vec<HostValue>,
    json: Vec<u8>,
    writing: &mut HostExecSessions,
    written: Option<SchedulerMessage>,
    closing: &mut HostExecSessions,
    closed: Option<SchedulerMessage>,
    killing: &mut HostExecSessions,
    killed: Option<SchedulerMessage>,
)
    requires
        waits_for_something_new(*writing, session_id),
        waits_for_something_new(*closing, session_id),
        waits_for_something_new(*killing, session_id),
        call_ensures(
            HostExecSessions::called,
            (writing, session_id, Callback::SpawnWriteStdin, &arguments, json),
            written,
        ),
        call_ensures(
            HostExecSessions::called,
            (closing, session_id, Callback::SpawnCloseStdin, &arguments, json),
            closed,
        ),
        call_ensures(
            HostExecSessions::called,
            (killing, session_id, Callback::SpawnKill, &arguments, json),
            killed,
        ),
    ensures
        arguments@.len() > 1 && arguments@[1] is Bytes ==> got_for_child(
            *old(writing),
            *final(writing),
            session_id,
            11,
            child_of(arguments@),
            arguments@[1]->Bytes_0@,
            written,
        ),
        arguments@.len() <= 1 || !(arguments@[1] is Bytes) ==> all_kept(
            *old(writing),
            *final(writing),
        ) && written is None,
        got_for_child(
            *old(closing),
            *final(closing),
            session_id,
            12,
            child_of(arguments@),
            Seq::empty(),
            closed,
        ),
        exists|data: Seq<u8>| #[trigger]
            got_for_child(
                *old(killing),
                *final(killing),
                session_id,
                13,
                child_of(arguments@),
                data,
                killed,
            ) && data.len() == 4 && numbers::word_of(data, 0) == signal_of(arguments@),
        functions_kept(*old(writing), *final(writing)),
        functions_kept(*old(closing), *final(closing)),
        functions_kept(*old(killing), *final(killing)),
{
    let said = sessions::arguments_view(arguments@);
    assert(said.len() == arguments@.len());
    assert(forall|i: int| 0 <= i < said.len() ==> #[trigger] said[i] == arguments@[i]@);
    let child = child_of(arguments@);
    let head = words::le_bytes_u64(child);
    if arguments@.len() > 1 && arguments@[1] is Bytes {
        let data = arguments@[1]->Bytes_0@;
        lemma_got_request(*writing, *final(writing), session_id, 11, head + data, written);
        lemma_names_child(child, data);
    }
    lemma_got_request(*closing, *final(closing), session_id, 12, head, closed);
    lemma_names_child(child, Seq::empty());
    assert(head + Seq::<u8>::empty() =~= head);
    let signal = signal_of(arguments@);
    let data = words::le_bytes_u32(signal);
    lemma_got_request(*killing, *final(killing), session_id, 13, head + data, killed);
    lemma_names_child(child, data);
    numbers::lemma_bytes_of_a_word(signal);
    assert(got_for_child(*killing, *final(killing), session_id, 13, child, data, killed));
}

/// Whether a request has got in line behind older output that a read waited for:
/// the read gets the oldest, and the request is last.
pub open spec fn got_in_line(
    before: HostExecSessions,
    after: HostExecSessions,
    session_id: u64,
    msg_type: u32,
    data: Seq<u8>,
    message: Option<SchedulerMessage>,
) -> bool {
    let old_queue = queue(before, session_id);
    let new_queue = queue(after, session_id);
    &&& !after.pending_reads@.contains_key(session_id)
    &&& (message matches Some(
        SchedulerMessage::HostExecReadComplete { worker_id, request_id, msg_type: ty, data: d },
    ) && (worker_id, request_id) == before.pending_reads@[session_id] && ty == old_queue[0].0
        && d@ == old_queue[0].1@)
    &&& new_queue.len() == old_queue.len()
    &&& new_queue.last().0 == msg_type && new_queue.last().1@ == data
    &&& forall|i: int|
        0 <= i < old_queue.len() - 1 ==> (#[trigger] new_queue[i]).0 == old_queue[i + 1].0
            && new_queue[i].1@ == old_queue[i + 1].1@
}

proof fn lemma_got_in_line(
    before: HostExecSessions,
    after: HostExecSessions,
    session_id: u64,
    msg_type: u32,
    data: Seq<u8>,
    message: Option<SchedulerMessage>,
)
    requires
        before.pending_reads@.contains_key(session_id),
        queue(before, session_id).len() > 0,
        after@.output_queues == before@.after_request(session_id, msg_type, data).0.output_queues,
        after@.pending_reads == before@.after_request(session_id, msg_type, data).0.pending_reads,
        sessions::optional_message(message) == before@.after_request(
            session_id,
            msg_type,
            data,
        ).1,
    ensures
        got_in_line(before, after, session_id, msg_type, data, message),
{
    lemma_queue(before, session_id);
    lemma_queue(after, session_id);
    let old_queue = queue(before, session_id);
    let new_queue = queue(after, session_id);
    let had = before@.queued(session_id);
    let said = after@.queued(session_id);
    let n = old_queue.len() as int;
    assert(said == had.push((msg_type, data)).skip(1));
    assert(had[0] == (old_queue[0].0, old_queue[0].1@));
    assert(said[n - 1] == (new_queue[n - 1].0, new_queue[n - 1].1@));
    assert forall|i: int| 0 <= i < n - 1 implies (#[trigger] new_queue[i]).0 == old_queue[i + 1].0
        && new_queue[i].1@ == old_queue[i + 1].1@ by {
        assert(said[i] == (new_queue[i].0, new_queue[i].1@));
        assert(had[i + 1] == (old_queue[i + 1].0, old_queue[i + 1].1@));
    }
}

/// Where a read waits although there is older output, requests of the host get in
/// line behind it and the read gets the oldest.
pub proof fn law_requests_get_in_line(
    session_id: u64,
    child_id: Option<u64>,
    json: Vec<u8>,
    functions: (Option<u64>, Option<u64>, Option<u64>),
    spawning: &mut HostExecSessions,
    spawned: Option<SchedulerMessage>,
    data: Vec<u8>,
    writing: &mut HostExecSessions,
    written: Option<SchedulerMessage>,
    closing: &mut HostExecSessions,
    closed: Option<SchedulerMessage>,
    signal: Option<u32>,
    killing: &mut HostExecSessions,
    killed: Option<SchedulerMessage>,
)
    requires
        call_ensures(
            HostExecSessions::request_spawn,
            (spawning, session_id, child_id, json, functions.0, functions.1, functions.2),
            spawned,
        ),
        call_ensures(
            HostExecSessions::spawn_write_stdin,
            (writing, session_id, child_id, Some(data)),
            written,
        ),
        call_ensures(HostExecSessions::spawn_close_stdin, (closing, session_id, child_id), closed),
        call_ensures(HostExecSessions::spawn_kill, (killing, session_id, child_id, signal), killed),
        spawning.pending_reads@.contains_key(session_id) && queue(*spawning, session_id).len() > 0,
        writing.pending_reads@.contains_key(session_id) && queue(*writing, session_id).len() > 0,
        closing.pending_reads@.contains_key(session_id) && queue(*closing, session_id).len() > 0,
        killing.pending_reads@.contains_key(session_id) && queue(*killing, session_id).len() > 0,
    ensures
        got_in_line(*old(spawning), *final(spawning), session_id, 10, json@, spawned),
        exists|bytes: Seq<u8>| #[trigger]
            got_in_line(*old(writing), *final(writing), session_id, 11, bytes, written)
                && names_child(bytes, named(child_id), data@),
        exists|bytes: Seq<u8>| #[trigger]
            got_in_line(*old(closing), *final(closing), session_id, 12, bytes, closed)
                && names_child(bytes, named(child_id), Seq::empty()),
        exists|bytes: Seq<u8>| #[trigger]
            got_in_line(*old(killing), *final(killing), session_id, 13, bytes, killed)
                && bytes.len() == 12 && numbers::long_of(bytes, 0) == named(child_id)
                && numbers::word_of(bytes, 8) == (match signal {
                Some(signal) => signal,
                None => 15,
            }),
{
    let child = named(child_id);
    let head = words::le_bytes_u64(child);
    lemma_got_in_line(*spawning, *final(spawning), session_id, 10, json@, spawned);
    lemma_got_in_line(*writing, *final(writing), session_id, 11, head + data@, written);
    lemma_names_child(child, data@);
    lemma_got_in_line(*closing, *final(closing), session_id, 12, head, closed);
    lemma_names_child(child, Seq::empty());
    assert(head + Seq::<u8>::empty() =~= head);
    let number: u32 = match signal {
        Some(signal) => signal,
        None => 15,
    };
    let tail = words::le_bytes_u32(number);
    let bytes = head + tail;
    lemma_got_in_line(*killing, *final(killing), session_id, 13, bytes, killed);
    lemma_names_child(child, tail);
    numbers::lemma_bytes_of_a_word(number);
    assert(bytes[8] == tail[0] && bytes[9] == tail[1] && bytes[10] == tail[2] && bytes[11]
        == tail[3]);
}

/// The child that the host names; one that it does not name counts as 0.
pub open spec fn named(child_id: Option<u64>) -> u64 {
    match child_id {
        Some(child_id) => child_id,
        None => 0,
    }
}

/// The functions that take a child's output can also be set by themselves, for
/// the session's own id.
pub proof fn law_output_functions_are_set_for_the_session(
    sessions: &mut HostExecSessions,
    session_id: u64,
    arguments: Vec<HostValue>,
    json: Vec<u8>,
    message: Option<SchedulerMessage>,
)
    requires
        is_function(arguments@, 0) && is_function(arguments@, 1) && is_function(arguments@, 2),
        call_ensures(
            HostExecSessions::called,
            (sessions, session_id, Callback::SetChildOutputHandlers, &arguments, json),
            message,
        ),
    ensures
        message is None,
        final(sessions).child_output_handlers@ == old(sessions).child_output_handlers@.insert(
            session_id,
            (arguments@[0]->Function_0, arguments@[1]->Function_0, arguments@[2]->Function_0),
        ),
        output_kept(*old(sessions), *final(sessions)),
        final(sessions).stdin_writers@ == old(sessions).stdin_writers@,
        final(sessions).signal_handlers@ == old(sessions).signal_handlers@,
{
    let said = sessions::arguments_view(arguments@);
    assert(said[0] == arguments@[0]@ && said[1] == arguments@[1]@ && said[2] == arguments@[2]@);
}

/// Whether an action calls a function with bytes.
pub open spec fn calls_with_bytes(action: Action, function: u64, bytes: Seq<u8>) -> bool {
    &&& action is Call
    &&& action->function == function
    &&& (action->argument matches CallArgument::Bytes(given) && given@ == bytes)
}

/// Whether an action is what the output of a child leads to: standard output and
/// standard error go to their functions byte for byte, and an exit code of any
/// value, which comes as four bytes, to the third function as that value. Fewer
/// bytes count as 0, and nothing else is called.
pub open spec fn delivers(
    action: Action,
    functions: Option<(u64, u64, u64)>,
    msg_type: u32,
    data: Seq<u8>,
) -> bool {
    match functions {
        Some((stdout, stderr, exit)) => {
            &&& msg_type == 20 ==> calls_with_bytes(action, stdout, data)
            &&& msg_type == 21 ==> calls_with_bytes(action, stderr, data)
            &&& msg_type == 22 ==> {
                &&& action is Call
                &&& action->function == exit
                &&& (action->argument matches CallArgument::ExitCode(code) && (if data.len() >= 4 {
                    numbers::same_word(numbers::word_of(data, 0), code as int)
                } else {
                    code == 0
                }))
            }
            &&& msg_type != 20 && msg_type != 21 && msg_type != 22 ==> action is Done
        },
        None => action is Done,
    }
}

proof fn lemma_delivers(
    action: Action,
    sessions: HostExecSessions,
    child_id: u64,
    msg_type: u32,
    data: Seq<u8>,
)
    requires
        action@ == scheduler::child_output(sessions@, child_id, msg_type, data),
    ensures
        delivers(
            action,
            if sessions.child_output_handlers@.contains_key(child_id) {
                Some(sessions.child_output_handlers@[child_id])
            } else {
                None
            },
            msg_type,
            data,
        ),
{
    if data.len() >= 4 {
        let s = data.subrange(0, 4);
        assert(s[0] == data[0] && s[1] == data[1] && s[2] == data[2] && s[3] == data[3]);
    }
}

/// The output and the exit code of a child reach the functions that were set for
/// it, and no others.
pub proof fn law_childrens_output_reaches_the_host(
    sessions: &HostExecSessions,
    state: &mut SchedulerState,
    shared: &mut SharedState,
    worker_id: u32,
    request_id: u64,
    session_id: u64,
    child_id: u64,
    msg_type: u32,
    data: Vec<u8>,
    direct: Action,
    action: Action,
    code: i32,
)
    requires
        call_ensures(
            scheduler::deliver_child_output,
            (sessions, child_id, msg_type, data),
            direct,
        ),
        call_ensures(
            SchedulerState::execute,
            (
                state,
                shared,
                SchedulerMessage::HostExecChildOutput {
                    worker_id,
                    request_id,
                    session_id,
                    child_id,
                    msg_type,
                    data,
                },
            ),
            action,
        ),
    ensures
        delivers(
            direct,
            if sessions.child_output_handlers@.contains_key(child_id) {
                Some(sessions.child_output_handlers@[child_id])
            } else {
                None
            },
            msg_type,
            data@,
        ),
        delivers(
            action,
            if old(shared).sessions.child_output_handlers@.contains_key(child_id) {
                Some(old(shared).sessions.child_output_handlers@[child_id])
            } else {
                None
            },
            msg_type,
            data@,
        ),
        final(state)@ == old(state)@,
        final(shared)@ == old(shared)@,
        msg_type == 22 && data@.len() == 4 && numbers::same_word(
            numbers::word_of(data@, 0),
            code as int,
        ) && sessions.child_output_handlers@.contains_key(child_id) ==> direct == (Action::Call {
            function: sessions.child_output_handlers@[child_id].2,
            argument: CallArgument::ExitCode(code),
        }),
{
    lemma_delivers(direct, *sessions, child_id, msg_type, data@);
    lemma_delivers(action, shared.sessions, child_id, msg_type, data@);
}

/// Functions that were set are found again, each as what it was set for.
pub proof fn law_functions_are_found_as_set(
    sessions: &HostExecSessions,
    session_id: u64,
    writer: Option<u64>,
    kill: Option<u64>,
    child: Option<(u64, u64, u64)>,
    ready: bool,
)
    requires
        call_ensures(HostExecSessions::stdin_writer, (sessions, session_id), writer),
        call_ensures(HostExecSessions::kill_function, (sessions, session_id), kill),
        call_ensures(HostExecSessions::child_output, (sessions, session_id), child),
        call_ensures(HostExecSessions::poll, (sessions, session_id), ready),
    ensures
        writer is Some <==> sessions.stdin_writers@.contains_key(session_id),
        writer is Some ==> writer->0 == sessions.stdin_writers@[session_id].0,
        kill is Some <==> sessions.signal_handlers@.contains_key(session_id),
        kill is Some ==> kill->0 == sessions.signal_handlers@[session_id],
        child is Some <==> sessions.child_output_handlers@.contains_key(session_id),
        child is Some ==> child->0 == sessions.child_output_handlers@[session_id],
        ready <==> queue(*sessions, session_id).len() > 0 || sessions.results@.contains_key(
            session_id,
        ),
{
    lemma_queue(*sessions, session_id);
}

/// The entries of a spawn request are the values that the host gave, by their
/// names. Arguments and environment are there only if they could be parsed.
pub proof fn law_spawn_requests_hold_what_was_given(
    child_id: Option<u64>,
    command: u64,
    args: Option<u64>,
    env: Option<u64>,
    cwd: u64,
    entries: Vec<(String, SpawnValue)>,
)
    requires
        call_ensures(
            host_exec_context::create_spawn_request,
            (child_id, command, args, env, cwd),
            entries,
        ),
    ensures
        ({
            let a: int = if args is Some {
                1
            } else {
                0
            };
            let e: int = if env is Some {
                1
            } else {
                0
            };
            &&& entries@.len() == 3 + a + e
            &&& is_entry(
                entries@[0],
                "child_id"@,
                SpawnValue::ChildId(
                    if child_id is Some {
                        child_id->0
                    } else {
                        0
                    },
                ),
            )
            &&& is_entry(entries@[1], "command"@, SpawnValue::Given(command))
            &&& args is Some ==> is_entry(entries@[2], "args"@, SpawnValue::Given(args->0))
            &&& env is Some ==> is_entry(entries@[2 + a], "env"@, SpawnValue::Given(env->0))
            &&& is_entry(entries@[2 + a + e], "cwd"@, SpawnValue::Given(cwd))
        }),
{
    let said = entries@.map_values(|entry: (String, SpawnValue)| (entry.0@, entry.1));
    assert(said.len() == entries@.len());
    assert(forall|i: int|
        0 <= i < entries@.len() ==> said[i] == ((#[trigger] entries@[i]).0@, entries@[i].1));
    let last = entries@.len() - 1;
    assert(said[0] == (entries@[0].0@, entries@[0].1));
    assert(said[1] == (entries@[1].0@, entries@[1].1));
    assert(said[2] == (entries@[2].0@, entries@[2].1));
    assert(said[last] == (entries@[last].0@, entries@[last].1));
    assert(said[last - 1] == (entries@[last - 1].0@, entries@[last - 1].1));
}

/// Whether an entry has a name and a value.
pub open spec fn is_entry(
    entry: (String, SpawnValue),
    name: Seq<char>,
    value: SpawnValue,
) -> bool {
    entry.0@ == name && entry.1 == value
}

} // verus!
