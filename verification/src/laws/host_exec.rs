//! A program that is executed on the host is asked for, answered and ended as
//! its worker and its handler say.
use vstd::prelude::*;
use crate::host_exec;
use crate::host_exec::{AtomicsOperation, BufferOutcome, HostExecCall, HostExecError, HostExecImpl};
use crate::laws::answers;
use crate::laws::numbers;
use crate::response;
use crate::response::{HostExecOutput, ResponseError};
use crate::tasks::host_exec_context;
use crate::tasks::host_exec_context::{Callback, ContextValue, HostExecContext, HostExecRequest};
use crate::tasks::post_message_payload::PostMessagePayload;
use crate::tasks::scheduler;
use crate::tasks::scheduler::{Action, HandlerOutcome, SchedulerError, SchedulerState, SharedState};
use crate::tasks::scheduler_message::SchedulerMessage;
use crate::text;

verus! {

// ---------------------------------------------------------------------------
// Calls of a worker
// ---------------------------------------------------------------------------

/// Whether a counter has moved on by one id.
pub open spec fn moved_on(before: u64, after: u64) -> bool {
    after == (if before == u64::MAX {
        0
    } else {
        before + 1
    })
}

/// Whether a call failed because it was not made on a worker.
pub open spec fn failed_outside(
    r: Result<SchedulerMessage, HostExecError>,
    name: Seq<char>,
) -> bool {
    r matches Err(e) && e.message@ == name + " called outside of worker thread"@
}

/// Starting a program asks for it under a new id, which is the session's, with
/// the request as it was written. The id is used up even where that fails.
pub proof fn law_starting_asks_for_the_request(
    host_exec: &mut HostExecImpl,
    worker_id: Option<u32>,
    json: Vec<u8>,
    cause: String,
    r: (u64, Result<SchedulerMessage, HostExecError>),
    unwritten: &mut HostExecImpl,
    failed: (u64, Result<SchedulerMessage, HostExecError>),
)
    requires
        call_ensures(HostExecImpl::host_exec_start, (host_exec, worker_id, Ok(json)), r),
        call_ensures(HostExecImpl::host_exec_start, (unwritten, worker_id, Err(cause)), failed),
    ensures
        r.0 == old(host_exec).next_session_id.next,
        moved_on(old(host_exec).next_session_id.next, final(host_exec).next_session_id.next),
        worker_id is None ==> failed_outside(r.1, "host_exec_start"@),
        worker_id is Some ==> (r.1 matches Ok(
            SchedulerMessage::HostExecStart { worker_id: sender, request_id, request_json },
        ) && sender == worker_id->0 && request_id == r.0 && request_json@ == json@),
        moved_on(old(unwritten).next_session_id.next, final(unwritten).next_session_id.next),
        worker_id is Some ==> (failed.1 matches Err(e) && e.message@
            == "Failed to serialize request: "@ + cause@),
{
}

/// Reads, polls and the closing of standard input ask for the session that they
/// are given, in the name of the worker that makes the call, and each under a new
/// request id.
pub proof fn law_requests_name_their_session(
    host_exec: &mut HostExecImpl,
    trying: &mut HostExecImpl,
    polling: &mut HostExecImpl,
    closing: &mut HostExecImpl,
    worker_id: Option<u32>,
    session: u64,
    read: Result<SchedulerMessage, HostExecError>,
    try_read: Result<SchedulerMessage, HostExecError>,
    poll: Result<SchedulerMessage, HostExecError>,
    close: Result<SchedulerMessage, HostExecError>,
)
    requires
        call_ensures(HostExecImpl::host_exec_read, (host_exec, worker_id, session), read),
        call_ensures(HostExecImpl::host_exec_try_read, (trying, worker_id, session), try_read),
        call_ensures(HostExecImpl::host_exec_poll, (polling, worker_id, session), poll),
        call_ensures(HostExecImpl::host_exec_close_stdin, (closing, worker_id, session), close),
    ensures
        worker_id is None ==> {
            &&& failed_outside(read, "host_exec_read"@)
            &&& failed_outside(try_read, "host_exec_try_read"@)
            &&& failed_outside(poll, "host_exec_poll"@)
            &&& failed_outside(close, "host_exec_close_stdin"@)
            &&& final(host_exec).next_session_id.next == old(host_exec).next_session_id.next
            &&& final(trying).next_session_id.next == old(trying).next_session_id.next
            &&& final(polling).next_session_id.next == old(polling).next_session_id.next
            &&& final(closing).next_session_id.next == old(closing).next_session_id.next
        },
        worker_id is Some ==> {
            &&& read == Ok::<SchedulerMessage, HostExecError>(
                SchedulerMessage::HostExecRead {
                    worker_id: worker_id->0,
                    request_id: old(host_exec).next_session_id.next,
                    session_id: session,
                },
            )
            &&& try_read == Ok::<SchedulerMessage, HostExecError>(
                SchedulerMessage::HostExecTryRead {
                    worker_id: worker_id->0,
                    request_id: old(trying).next_session_id.next,
                    session_id: session,
                },
            )
            &&& poll == Ok::<SchedulerMessage, HostExecError>(
                SchedulerMessage::HostExecPoll {
                    worker_id: worker_id->0,
                    request_id: old(polling).next_session_id.next,
                    session_id: session,
                },
            )
            &&& close == Ok::<SchedulerMessage, HostExecError>(
                SchedulerMessage::HostExecCloseStdin {
                    worker_id: worker_id->0,
                    request_id: old(closing).next_session_id.next,
                    session_id: session,
                },
            )
            &&& moved_on(
                old(host_exec).next_session_id.next,
                final(host_exec).next_session_id.next,
            )
            &&& moved_on(old(trying).next_session_id.next, final(trying).next_session_id.next)
            &&& moved_on(old(polling).next_session_id.next, final(polling).next_session_id.next)
            &&& moved_on(old(closing).next_session_id.next, final(closing).next_session_id.next)
        },
{
}

/// Writes, signals and the output of children reach the scheduler whole.
pub proof fn law_what_is_written_is_sent_whole(
    host_exec: &mut HostExecImpl,
    signalling: &mut HostExecImpl,
    handing: &mut HostExecImpl,
    worker_id: Option<u32>,
    session: u64,
    data: Vec<u8>,
    signal: u32,
    child_id: u64,
    msg_type: u32,
    output: Vec<u8>,
    write: Result<SchedulerMessage, HostExecError>,
    signalled: Result<SchedulerMessage, HostExecError>,
    handed: Result<SchedulerMessage, HostExecError>,
)
    requires
        call_ensures(HostExecImpl::host_exec_write, (host_exec, worker_id, session, data), write),
        call_ensures(
            HostExecImpl::host_exec_signal,
            (signalling, worker_id, session, signal),
            signalled,
        ),
        call_ensures(
            HostExecImpl::host_exec_child_output,
            (handing, worker_id, session, child_id, msg_type, output),
            handed,
        ),
    ensures
        worker_id is None ==> {
            &&& failed_outside(write, "host_exec_write"@)
            &&& failed_outside(signalled, "host_exec_signal"@)
            &&& failed_outside(handed, "host_exec_child_output"@)
            &&& final(host_exec).next_session_id.next == old(host_exec).next_session_id.next
        },
        worker_id is Some ==> {
            &&& (write matches Ok(
                SchedulerMessage::HostExecWrite {
                    worker_id: sender,
                    request_id,
                    session_id,
                    data: sent,
                },
            ) && sender == worker_id->0 && request_id == old(host_exec).next_session_id.next
                && session_id == session && sent@ == data@)
            &&& signalled == Ok::<SchedulerMessage, HostExecError>(
                SchedulerMessage::HostExecSignal {
                    worker_id: worker_id->0,
                    request_id: old(signalling).next_session_id.next,
                    session_id: session,
                    signal,
                },
            )
            &&& (handed matches Ok(
                SchedulerMessage::HostExecChildOutput {
                    worker_id: sender,
                    request_id,
                    session_id,
                    child_id: child,
                    msg_type: ty,
                    data: sent,
                },
            ) && sender == worker_id->0 && request_id == old(handing).next_session_id.next
                && session_id == session && child == child_id && ty == msg_type && sent@
                == output@)
            &&& moved_on(
                old(host_exec).next_session_id.next,
                final(host_exec).next_session_id.next,
            )
        },
{
}

/// The first session of a process has id 0.
pub proof fn law_sessions_start_at_zero(new: HostExecImpl, usual: HostExecImpl)
    requires
        call_ensures(HostExecImpl::new, (), new),
        call_ensures(<HostExecImpl as Default>::default, (), usual),
    ensures
        new.next_session_id.next == 0,
        usual.next_session_id.next == 0,
{
}

/// A call whose message was sent succeeds, and one whose message was not names
/// itself and the cause.
pub proof fn law_unsent_calls_name_themselves(
    call: HostExecCall,
    cause: String,
    name: &'static str,
    sent: Result<(), HostExecError>,
    unsent: Result<(), HostExecError>,
)
    requires
        call_ensures(HostExecCall::name, (call,), name),
        call_ensures(HostExecCall::sent, (call, Ok(())), sent),
        call_ensures(HostExecCall::sent, (call, Err(cause)), unsent),
    ensures
        sent is Ok,
        unsent is Err,
        call is Start ==> unsent->Err_0.message@ == "Failed to send "@ + "host_exec request"@ + ": "@
            + cause@,
        !(call is Start) ==> unsent->Err_0.message@ == "Failed to send "@ + name@ + ": "@ + cause@,
        name@ == (match call {
            HostExecCall::Start => "host_exec_start"@,
            HostExecCall::Read => "host_exec_read"@,
            HostExecCall::Write => "host_exec_write"@,
            HostExecCall::CloseStdin => "host_exec_close_stdin"@,
            HostExecCall::TryRead => "host_exec_try_read"@,
            HostExecCall::Poll => "host_exec_poll"@,
            HostExecCall::Signal => "host_exec_signal"@,
            HostExecCall::ChildOutput => "host_exec_child_output"@,
        }),
{
}

/// Where waiting for an answer fails, every call that waited fails, and says
/// why.
pub proof fn law_failed_waits_are_reported(
    session: u64,
    operation: AtomicsOperation,
    cause: String,
    no_read: Result<HostExecOutput, HostExecError>,
    no_try: Result<Option<HostExecOutput>, HostExecError>,
    no_poll: Result<bool, HostExecError>,
    read: Result<HostExecOutput, HostExecError>,
    try_read: Result<Option<HostExecOutput>, HostExecError>,
    poll: Result<bool, HostExecError>,
)
    requires
        call_ensures(host_exec::finish_read, (BufferOutcome::Missing, session), no_read),
        call_ensures(host_exec::finish_try_read, (BufferOutcome::Missing,), no_try),
        call_ensures(host_exec::finish_poll, (BufferOutcome::Missing,), no_poll),
        call_ensures(
            host_exec::finish_read,
            (BufferOutcome::Failed { operation, cause }, session),
            read,
        ),
        call_ensures(
            host_exec::finish_try_read,
            (BufferOutcome::Failed { operation, cause },),
            try_read,
        ),
        call_ensures(host_exec::finish_poll, (BufferOutcome::Failed { operation, cause },), poll),
    ensures
        ({
            let said = "host_exec buffer not initialized"@;
            &&& no_read is Err && no_read->Err_0.message@ == said
            &&& no_try is Err && no_try->Err_0.message@ == said
            &&& no_poll is Err && no_poll->Err_0.message@ == said
        }),
        ({
            let said = (match operation {
                AtomicsOperation::Store => "Atomics::store failed: "@,
                AtomicsOperation::Wait => "Atomics::wait failed: "@,
                AtomicsOperation::Load => "Atomics::load failed: "@,
            }) + cause@;
            &&& read is Err && read->Err_0.message@ == said
            &&& try_read is Err && try_read->Err_0.message@ == said
            &&& poll is Err && poll->Err_0.message@ == said
        }),
{
}

/// A read takes an answer exactly if the answer names its session, and then
/// gives what stands in the buffer; otherwise it names both sessions. Reads that do not wait and polls take any
/// answer.
pub proof fn law_reads_check_their_session(
    buffer: &[u8],
    session: u64,
    answers: bool,
    output: HostExecOutput,
    read: Result<HostExecOutput, HostExecError>,
    got: u64,
    mismatch: String,
    try_read: Result<Option<HostExecOutput>, HostExecError>,
    poll: Result<bool, HostExecError>,
)
    requires
        buffer@.len() >= 16,
        numbers::word_of(buffer@, 4) == 3 || numbers::word_of(buffer@, 8) < 0x8000_0000,
        call_ensures(response::answers_session, (buffer, session), answers),
        call_ensures(response::load_output, (buffer,), output),
        call_ensures(host_exec::finish_read, (BufferOutcome::Woken(buffer), session), read),
        got == answers::session_named(buffer@),
        call_ensures(
            ResponseError::to_text,
            (&ResponseError::SessionMismatch { expected: session, got },),
            mismatch,
        ),
        call_ensures(host_exec::finish_try_read, (BufferOutcome::Woken(buffer),), try_read),
        call_ensures(host_exec::finish_poll, (BufferOutcome::Woken(buffer),), poll),
    ensures
        read is Ok <==> answers,
        answers <==> session == got,
        read is Ok ==> answers::same_output(read->Ok_0, output),
        read is Err ==> read->Err_0.message@ == mismatch@,
        try_read is Ok,
        try_read->Ok_0 is None <==> numbers::word_of(buffer@, 0) == 2,
        try_read->Ok_0 is Some ==> answers::same_output(try_read->Ok_0->0, output),
        poll == Ok::<bool, HostExecError>(numbers::word_of(buffer@, 0) == 1),
{
    answers::lemma_word_at(buffer@, 0);
    answers::lemma_word_at(buffer@, 1);
    answers::lemma_word_at(buffer@, 2);
    answers::lemma_word_at(buffer@, 3);
}

// ---------------------------------------------------------------------------
// What a handler is given
// ---------------------------------------------------------------------------

/// Whether texts are the same, one by one.
pub open spec fn same_texts(a: Seq<String>, b: Seq<String>) -> bool {
    &&& a.len() == b.len()
    &&& forall|i: int| 0 <= i < a.len() ==> (#[trigger] a[i])@ == b[i]@
}

/// Whether named texts are the same, one by one.
pub open spec fn same_pairs(a: Seq<(String, String)>, b: Seq<(String, String)>) -> bool {
    &&& a.len() == b.len()
    &&& forall|i: int| 0 <= i < a.len() ==> (#[trigger] a[i]).0@ == b[i].0@ && a[i].1@ == b[i].1@
}

/// Whether the entry of a name is what a request asks for: the request's own
/// command, arguments, environment, directory and terminal, and the callbacks by
/// their names.
pub open spec fn entry_is_right(
    name: Seq<char>,
    value: ContextValue,
    request: HostExecRequest,
) -> bool {
    &&& name == "command"@ ==> (value matches ContextValue::Text(text) && text@ == request.command@)
    &&& name == "args"@ ==> (value matches ContextValue::List(texts) && same_texts(
        texts@,
        request.args@,
    ))
    &&& name == "env"@ ==> (value matches ContextValue::Record(pairs) && same_pairs(
        pairs@,
        request.env@,
    ))
    &&& name == "cwd"@ ==> (value matches ContextValue::Text(text) && text@ == request.cwd@)
    &&& name == "stdin"@ || name == "stdout"@ || name == "stderr"@ ==> value is Null
    &&& name == "terminal"@ ==> (value matches ContextValue::Terminal(terminal)
        && request.terminal is Some && terminal.term@ == request.terminal->0.term@ && terminal.cols
        == request.terminal->0.cols && terminal.rows == request.terminal->0.rows)
    &&& name == "onStdout"@ ==> value == ContextValue::Callback(Callback::OnStdout)
    &&& name == "onStderr"@ ==> value == ContextValue::Callback(Callback::OnStderr)
    &&& name == "setStdinWriter"@ ==> value == ContextValue::Callback(Callback::SetStdinWriter)
    &&& name == "setKillFunction"@ ==> value == ContextValue::Callback(Callback::SetKillFunction)
    &&& name == "requestSpawn"@ ==> value == ContextValue::Callback(Callback::RequestSpawn)
    &&& name == "spawnWriteStdin"@ ==> value == ContextValue::Callback(Callback::SpawnWriteStdin)
    &&& name == "spawnCloseStdin"@ ==> value == ContextValue::Callback(Callback::SpawnCloseStdin)
    &&& name == "spawnKill"@ ==> value == ContextValue::Callback(Callback::SpawnKill)
    &&& name == "setChildOutputHandlers"@ ==> value == ContextValue::Callback(
        Callback::SetChildOutputHandlers,
    )
}

/// Whether a context has an entry of a name.
pub open spec fn has_entry(context: HostExecContext, name: Seq<char>) -> bool {
    exists|i: int| 0 <= i < context.entries@.len() && (#[trigger] context.entries@[i]).0@ == name
}

/// What a list of texts says is what each of its texts says.
proof fn lemma_texts(a: Seq<String>, b: Seq<String>)
    requires
        host_exec_context::texts_view(a) == host_exec_context::texts_view(b),
    ensures
        same_texts(a, b),
{
    let x = host_exec_context::texts_view(a);
    let y = host_exec_context::texts_view(b);
    assert(x.len() == a.len() && y.len() == b.len());
    assert forall|i: int| 0 <= i < a.len() implies (#[trigger] a[i])@ == b[i]@ by {
        assert(x[i] == a[i]@ && y[i] == b[i]@);
    }
}

proof fn lemma_pairs(a: Seq<(String, String)>, b: Seq<(String, String)>)
    requires
        host_exec_context::pairs_view(a) == host_exec_context::pairs_view(b),
    ensures
        same_pairs(a, b),
{
    let x = host_exec_context::pairs_view(a);
    let y = host_exec_context::pairs_view(b);
    assert(x.len() == a.len() && y.len() == b.len());
    assert forall|i: int| 0 <= i < a.len() implies (#[trigger] a[i]).0@ == b[i].0@ && a[i].1@
        == b[i].1@ by {
        assert(x[i] == (a[i].0@, a[i].1@) && y[i] == (b[i].0@, b[i].1@));
    }
}

/// Whether a context is what a handler is to be given for a request: the
/// request's own command, arguments, environment, directory and terminal, and
/// under each name the callback that belongs to it, for the session. No name is
/// there twice, and the terminal is there only if the request has one.
pub open spec fn context_is_right(
    context: HostExecContext,
    request: HostExecRequest,
    session_id: u64,
) -> bool {
    &&& context.session_id == session_id
    &&& forall|i: int, j: int|
        0 <= i < j < context.entries@.len() ==> (#[trigger] context.entries@[i]).0@ != (
        #[trigger] context.entries@[j]).0@
    &&& forall|i: int|
        0 <= i < context.entries@.len() ==> entry_is_right(
            (#[trigger] context.entries@[i]).0@,
            context.entries@[i].1,
            request,
        )
    &&& has_entry(context, "command"@)
    &&& has_entry(context, "args"@)
    &&& has_entry(context, "env"@)
    &&& has_entry(context, "cwd"@)
    &&& has_entry(context, "stdin"@)
    &&& has_entry(context, "stdout"@)
    &&& has_entry(context, "stderr"@)
    &&& has_entry(context, "onStdout"@)
    &&& has_entry(context, "onStderr"@)
    &&& has_entry(context, "setStdinWriter"@)
    &&& has_entry(context, "setKillFunction"@)
    &&& has_entry(context, "terminal"@) <==> request.terminal is Some
    &&& has_entry(context, "requestSpawn"@)
    &&& has_entry(context, "spawnWriteStdin"@)
    &&& has_entry(context, "spawnCloseStdin"@)
    &&& has_entry(context, "spawnKill"@)
    &&& has_entry(context, "setChildOutputHandlers"@)
}

proof fn lemma_context(context: HostExecContext, request: HostExecRequest, session_id: u64)
    requires
        context@ == host_exec_context::context_of(request@, session_id),
    ensures
        context_is_right(context, request, session_id),
{
    let said = host_exec_context::context_of(request@, session_id).entries;
    let n = context.entries@.len() as int;
    assert(context@.entries == said);
    assert(context@.entries.len() == n);
    assert forall|k: int| 0 <= k < n implies said[k].0 == (#[trigger] context.entries@[k]).0@
        && said[k].1 == context.entries@[k].1@ by {
        assert(context@.entries[k] == (context.entries@[k].0@, context.entries@[k].1@));
    }
    assert forall|i: int, j: int| 0 <= i < j < n implies (#[trigger] context.entries@[i]).0@ != (
    #[trigger] context.entries@[j]).0@ by {
        host_exec_context::law_context_entries_are_distinct(request@, session_id, i, j);
    }
    let t: int = if request.terminal is Some {
        1
    } else {
        0
    };
    assert(n == 16 + t);
    assert(context.entries@[0].0@ == "command"@);
    assert(context.entries@[1].0@ == "args"@);
    assert(context.entries@[2].0@ == "env"@);
    assert(context.entries@[3].0@ == "cwd"@);
    assert(context.entries@[4].0@ == "stdin"@);
    assert(context.entries@[5].0@ == "stdout"@);
    assert(context.entries@[6].0@ == "stderr"@);
    assert(context.entries@[7].0@ == "onStdout"@);
    assert(context.entries@[8].0@ == "onStderr"@);
    assert(context.entries@[9].0@ == "setStdinWriter"@);
    assert(context.entries@[10].0@ == "setKillFunction"@);
    if request.terminal is Some {
        assert(context.entries@[11].0@ == "terminal"@);
    }
    assert(context.entries@[11 + t].0@ == "requestSpawn"@);
    assert(context.entries@[12 + t].0@ == "spawnWriteStdin"@);
    assert(context.entries@[13 + t].0@ == "spawnCloseStdin"@);
    assert(context.entries@[14 + t].0@ == "spawnKill"@);
    assert(context.entries@[15 + t].0@ == "setChildOutputHandlers"@);
    lemma_entry_names();
    assert forall|k: int| 0 <= k < n implies entry_is_right(
        (#[trigger] context.entries@[k]).0@,
        context.entries@[k].1,
        request,
    ) by {
        if k == 1 {
            lemma_texts(context.entries@[1].1->List_0@, request.args@);
        }
        if k == 2 {
            lemma_pairs(context.entries@[2].1->Record_0@, request.env@);
        }
    }
    if request.terminal is None && has_entry(context, "terminal"@) {
        let k = choose|k: int| 0 <= k < n && (#[trigger] context.entries@[k]).0@ == "terminal"@;
        assert(said[k].0 == "terminal"@);
    }
}

/// A handler is given the request as it was made.
pub proof fn law_handlers_are_given_the_request(
    request: HostExecRequest,
    session_id: u64,
    context: HostExecContext,
)
    requires
        call_ensures(
            host_exec_context::create_host_exec_context,
            (&request, session_id),
            context,
        ),
    ensures
        context_is_right(context, request, session_id),
{
    lemma_context(context, request, session_id);
}

/// A request that could be parsed is handed to the handler, for the session that
/// has the request's id. Where there is no handler, or where the request could
/// not be parsed, the worker that asked is told.
pub proof fn law_requests_go_to_the_handler(
    state: &SchedulerState,
    shared: &SharedState,
    worker_id: u32,
    request_id: u64,
    request: HostExecRequest,
    cause: String,
    action: Action,
    failed: Action,
)
    requires
        call_ensures(
            SchedulerState::request_parsed,
            (state, shared, worker_id, request_id, Ok(request)),
            action,
        ),
        call_ensures(
            SchedulerState::request_parsed,
            (state, shared, worker_id, request_id, Err(cause)),
            failed,
        ),
    ensures
        shared.host_exec_handler is Some ==> {
            &&& action is CallHandler
            &&& action->CallHandler_worker_id == worker_id
            &&& action->CallHandler_request_id == request_id
            &&& action->handler == shared.host_exec_handler->0
            &&& context_is_right(action->context, request, request_id)
        },
        shared.host_exec_handler is None ==> tells_failure(
            state,
            action,
            worker_id,
            request_id,
            "host_exec handler not registered"@,
        ),
        tells_failure(
            state,
            failed,
            worker_id,
            request_id,
            "Failed to parse request: "@ + cause@,
        ),
{
    lemma_has_worker(state, worker_id);
    if shared.host_exec_handler is Some {
        lemma_context(action->context, request, request_id);
    }
}

/// Whether a scheduler has a worker, idle or busy.
pub open spec fn has_worker(state: &SchedulerState, worker_id: u32) -> bool {
    ||| exists|i: int| 0 <= i < state.idle@.len() && (#[trigger] state.idle@[i]).id == worker_id
    ||| exists|i: int| 0 <= i < state.busy@.len() && (#[trigger] state.busy@[i]).id == worker_id
}

pub proof fn lemma_has_worker(state: &SchedulerState, worker_id: u32)
    ensures
        has_worker(state, worker_id) <==> state@.workers().contains(worker_id),
{
    let idle = scheduler::worker_ids(state.idle@);
    let busy = scheduler::worker_ids(state.busy@);
    let all = state@.workers();
    let n = idle.len() as int;
    assert(all == idle + busy);
    if exists|i: int| 0 <= i < state.idle@.len() && (#[trigger] state.idle@[i]).id == worker_id {
        let i = choose|i: int|
            0 <= i < state.idle@.len() && (#[trigger] state.idle@[i]).id == worker_id;
        assert(all[i] == worker_id);
    }
    if exists|i: int| 0 <= i < state.busy@.len() && (#[trigger] state.busy@[i]).id == worker_id {
        let i = choose|i: int|
            0 <= i < state.busy@.len() && (#[trigger] state.busy@[i]).id == worker_id;
        assert(all[n + i] == worker_id);
    }
    if all.contains(worker_id) {
        let k = all.index_of(worker_id);
        if k < n {
            assert(state.idle@[k].id == worker_id);
        } else {
            assert(state.busy@[k - n].id == worker_id);
        }
    }
}

/// Whether an action tells a worker, if it is there, that its request has failed.
pub open spec fn tells_failure(
    state: &SchedulerState,
    action: Action,
    worker_id: u32,
    request_id: u64,
    cause: Seq<char>,
) -> bool {
    if has_worker(state, worker_id) {
        &&& action is Send
        &&& action->Send_worker_id == worker_id
        &&& action->Send_payload is HostExecStartResponse
        &&& action->Send_payload->HostExecStartResponse_request_id == request_id
        &&& (action->Send_payload->HostExecStartResponse_result matches Err(e) && e@ == cause)
    } else {
        action == Action::Fail(SchedulerError::WorkerNotFound(worker_id))
    }
}

/// A handler that returned a promise has started a session with the id of the
/// request; one that did not, or that threw, has failed.
pub proof fn law_handlers_start_sessions(
    state: &SchedulerState,
    worker_id: u32,
    request_id: u64,
    cause: String,
    started: Action,
    unpromising: Action,
    failed: Action,
)
    requires
        call_ensures(
            SchedulerState::handler_returned,
            (state, worker_id, request_id, HandlerOutcome::Promise),
            started,
        ),
        call_ensures(
            SchedulerState::handler_returned,
            (state, worker_id, request_id, HandlerOutcome::NotAPromise),
            unpromising,
        ),
        call_ensures(
            SchedulerState::handler_returned,
            (state, worker_id, request_id, HandlerOutcome::Failed(cause)),
            failed,
        ),
    ensures
        has_worker(state, worker_id) ==> started == (Action::Send {
            worker_id,
            payload: PostMessagePayload::HostExecStartResponse {
                request_id,
                result: Ok(request_id),
            },
        }),
        !has_worker(state, worker_id) ==> started == Action::Fail(
            SchedulerError::WorkerNotFound(worker_id),
        ),
        tells_failure(
            state,
            unpromising,
            worker_id,
            request_id,
            "Handler did not return a Promise"@,
        ),
        tells_failure(state, failed, worker_id, request_id, "Handler failed: "@ + cause@),
{
    lemma_has_worker(state, worker_id);
}

/// A request to start is parsed as it was sent, and changes nothing yet.
pub proof fn law_requests_are_parsed_as_sent(
    state: &mut SchedulerState,
    shared: &mut SharedState,
    worker_id: u32,
    request_id: u64,
    request_json: Vec<u8>,
    action: Action,
)
    requires
        call_ensures(
            SchedulerState::execute,
            (state, shared, SchedulerMessage::HostExecStart { worker_id, request_id, request_json }),
            action,
        ),
    ensures
        action is ParseRequest,
        action->ParseRequest_worker_id == worker_id,
        action->ParseRequest_request_id == request_id,
        action->request_json@ == request_json@,
        final(state)@ == old(state)@,
        final(shared)@ == old(shared)@,
{
}

/// The names of entries are told apart by their lengths and letters.
proof fn lemma_entry_names()
    ensures
        "command"@.len() == 7,
        "args"@.len() == 4,
        "env"@.len() == 3 && "env"@[0] == 'e',
        "cwd"@.len() == 3 && "cwd"@[0] == 'c',
        "stdin"@.len() == 5,
        "stdout"@.len() == 6 && "stdout"@[3] == 'o',
        "stderr"@.len() == 6 && "stderr"@[3] == 'e',
        "onStdout"@.len() == 8 && "onStdout"@[5] == 'o',
        "onStderr"@.len() == 8 && "onStderr"@[5] == 'e',
        "terminal"@.len() == 8 && "terminal"@[5] == 'n',
        "setStdinWriter"@.len() == 14,
        "setKillFunction"@.len() == 15 && "setKillFunction"@[5] == 'l',
        "requestSpawn"@.len() == 12,
        "spawnWriteStdin"@.len() == 15 && "spawnWriteStdin"@[5] == 'W',
        "spawnCloseStdin"@.len() == 15 && "spawnCloseStdin"@[5] == 'C',
        "spawnKill"@.len() == 9,
        "setChildOutputHandlers"@.len() == 22,
{
    reveal_strlit("command");
    reveal_strlit("args");
    reveal_strlit("env");
    reveal_strlit("cwd");
    reveal_strlit("stdin");
    reveal_strlit("stdout");
    reveal_strlit("stderr");
    reveal_strlit("onStdout");
    reveal_strlit("onStderr");
    reveal_strlit("setStdinWriter");
    reveal_strlit("setKillFunction");
    reveal_strlit("terminal");
    reveal_strlit("requestSpawn");
    reveal_strlit("spawnWriteStdin");
    reveal_strlit("spawnCloseStdin");
    reveal_strlit("spawnKill");
    reveal_strlit("setChildOutputHandlers");
}

} // verus!
