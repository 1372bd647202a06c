//! Messages arrive as they were sent, in fields of known names.
use vstd::prelude::*;
use crate::tasks::module_hash;
use crate::tasks::module_hash::{HashError, ModuleHash};
use crate::tasks::post_message_payload;
use crate::tasks::post_message_payload::{
    AsyncJob, BlockingJob, ForkPipeBuffers, Notification, PayloadKind, PostMessagePayload,
    SubprocessStdioBuffers,
};
use crate::tasks::scheduler_message;
use crate::tasks::scheduler_message::{MemoryUse, MessageKind, SchedulerMessage};
use crate::tasks::wire;
use crate::tasks::wire::{WireError, WireFault, WireObject, WireValue, WireView};
use crate::text;

verus! {

// ---------------------------------------------------------------------------
// Fields
// ---------------------------------------------------------------------------

/// A field that is set is found, under its own name only, and a later value
/// takes the place of an earlier one.
pub proof fn law_fields_that_are_set_are_found(
    object: &mut WireObject,
    name: &str,
    value: WireValue,
    found: Option<&WireValue>,
    other_name: &str,
    before: Option<&WireValue>,
    after: Option<&WireValue>,
)
    requires
        call_ensures(WireObject::set, (object, name, value), ()),
        call_ensures(WireObject::get, (final(object), name), found),
        other_name@ != name@,
        call_ensures(WireObject::get, (object, other_name), before),
        call_ensures(WireObject::get, (final(object), other_name), after),
    ensures
        found is Some,
        same_value(*found->0, value),
        before is Some <==> after is Some,
        before is Some ==> same_value(*before->0, *after->0),
{
}

/// Whether two values are the same.
pub open spec fn same_value(a: WireValue, b: WireValue) -> bool {
    match (a, b) {
        (WireValue::Number(x), WireValue::Number(y)) => x == y,
        (WireValue::BigInt(x), WireValue::BigInt(y)) => x == y,
        (WireValue::Bool(x), WireValue::Bool(y)) => x == y,
        (WireValue::Text(x), WireValue::Text(y)) => x@ == y@,
        (WireValue::Bytes(x), WireValue::Bytes(y)) => x@ == y@,
        (WireValue::Module(x), WireValue::Module(y)) => x == y,
        (WireValue::Memory(x), WireValue::Memory(y)) => x == y,
        (WireValue::Other, WireValue::Other) => true,
        _ => false,
    }
}

/// Each way of reading a field takes the values of its own sort and no others. A
/// 32-bit number must fit, and a 64-bit number may come as either sort of number.
pub proof fn law_fields_are_read_by_their_sort(
    object: &WireObject,
    name: &str,
    found: Option<&WireValue>,
    word: Result<u32, WireError>,
    number: Result<u64, WireError>,
    truth: Result<bool, WireError>,
    boxed: Result<u64, WireError>,
    module: Result<u64, WireError>,
    memory: Result<u64, WireError>,
)
    requires
        call_ensures(WireObject::get, (object, name), found),
        call_ensures(WireObject::read_u32, (object, name), word),
        call_ensures(WireObject::read_u64, (object, name), number),
        call_ensures(WireObject::read_bool, (object, name), truth),
        call_ensures(WireObject::read_boxed, (object, name), boxed),
        call_ensures(WireObject::read_module, (object, name), module),
        call_ensures(WireObject::read_memory, (object, name), memory),
    ensures
        match word {
            Ok(n) => found is Some && *found->0 == WireValue::Number(n as u64),
            Err(e) => e is Field && e->Field_0@ == name@ && (found is None || !(*found->0 is Number)
                || (*found->0)->Number_0 > u32::MAX),
        },
        match number {
            Ok(n) => found is Some && (*found->0 == WireValue::Number(n) || *found->0
                == WireValue::BigInt(n)),
            Err(e) => e is Field && e->Field_0@ == name@ && (found is None || !(*found->0 is Number
                || *found->0 is BigInt)),
        },
        match truth {
            Ok(b) => found is Some && *found->0 == WireValue::Bool(b),
            Err(e) => e is Field && e->Field_0@ == name@ && (found is None
                || !(*found->0 is Bool)),
        },
        match boxed {
            Ok(n) => found is Some && *found->0 == WireValue::BigInt(n),
            Err(e) => e is Field && e->Field_0@ == name@ && (found is None
                || !(*found->0 is BigInt)),
        },
        match module {
            Ok(n) => found is Some && *found->0 == WireValue::Module(n),
            Err(e) => e is Field && e->Field_0@ == name@ && (found is None
                || !(*found->0 is Module)),
        },
        match memory {
            Ok(n) => found is Some && *found->0 == WireValue::Memory(n),
            Err(e) => e is Field && e->Field_0@ == name@ && (found is None
                || !(*found->0 is Memory)),
        },
{
}

/// Text and bytes are read whole.
pub proof fn law_text_and_bytes_are_read_whole(
    object: &WireObject,
    name: &str,
    found: Option<&WireValue>,
    text: Result<String, WireError>,
    bytes: Result<Vec<u8>, WireError>,
)
    requires
        call_ensures(WireObject::get, (object, name), found),
        call_ensures(WireObject::read_text, (object, name), text),
        call_ensures(WireObject::read_bytes, (object, name), bytes),
    ensures
        match text {
            Ok(t) => found is Some && *found->0 is Text && (*found->0)->Text_0@ == t@,
            Err(e) => e is Field && e->Field_0@ == name@ && (found is None
                || !(*found->0 is Text)),
        },
        match bytes {
            Ok(b) => found is Some && *found->0 is Bytes && (*found->0)->Bytes_0@ == b@,
            Err(e) => e is Field && e->Field_0@ == name@ && (found is None
                || !(*found->0 is Bytes)),
        },
{
}

// ---------------------------------------------------------------------------
// Messages to the scheduler
// ---------------------------------------------------------------------------

/// Whether two lists of inherited pipes name the same ends.
pub open spec fn same_pipes(a: Option<ForkPipeBuffers>, b: Option<ForkPipeBuffers>) -> bool {
    match (a, b) {
        (Some(x), Some(y)) => x.buffers@ == y.buffers@,
        (None, None) => true,
        _ => false,
    }
}

/// Whether two hashes are the same, of the same kind and byte for byte.
pub open spec fn same_hash(a: ModuleHash, b: ModuleHash) -> bool {
    match (a, b) {
        (ModuleHash::XXHash(x), ModuleHash::XXHash(y)) => x@ == y@,
        (ModuleHash::Sha256(x), ModuleHash::Sha256(y)) => x@ == y@,
        _ => false,
    }
}

/// Whether two messages say the same, but for the debugging text of inherited
/// pipes.
pub open spec fn same_message(a: SchedulerMessage, b: SchedulerMessage) -> bool {
    match (a, b) {
        (SchedulerMessage::Close, SchedulerMessage::Close) => true,
        (SchedulerMessage::SpawnAsync(x), SchedulerMessage::SpawnAsync(y)) => x == y,
        (SchedulerMessage::SpawnBlocking(x), SchedulerMessage::SpawnBlocking(y)) => x == y,
        (
            SchedulerMessage::WorkerIdle { worker_id: x },
            SchedulerMessage::WorkerIdle { worker_id: y },
        ) => x == y,
        (
            SchedulerMessage::WorkerBusy { worker_id: x },
            SchedulerMessage::WorkerBusy { worker_id: y },
        ) => x == y,
        (
            SchedulerMessage::HostExecStart { worker_id: w, request_id: r, request_json: x },
            SchedulerMessage::HostExecStart { worker_id: v, request_id: q, request_json: y },
        ) => w == v && r == q && x@ == y@,
        (
            SchedulerMessage::HostExecRead { worker_id: w, request_id: r, session_id: s },
            SchedulerMessage::HostExecRead { worker_id: v, request_id: q, session_id: t },
        ) => w == v && r == q && s == t,
        (
            SchedulerMessage::HostExecWrite { worker_id: w, request_id: r, session_id: s, data: x },
            SchedulerMessage::HostExecWrite { worker_id: v, request_id: q, session_id: t, data: y },
        ) => w == v && r == q && s == t && x@ == y@,
        (
            SchedulerMessage::HostExecCloseStdin { worker_id: w, request_id: r, session_id: s },
            SchedulerMessage::HostExecCloseStdin { worker_id: v, request_id: q, session_id: t },
        ) => w == v && r == q && s == t,
        (
            SchedulerMessage::HostExecTryRead { worker_id: w, request_id: r, session_id: s },
            SchedulerMessage::HostExecTryRead { worker_id: v, request_id: q, session_id: t },
        ) => w == v && r == q && s == t,
        (
            SchedulerMessage::HostExecPoll { worker_id: w, request_id: r, session_id: s },
            SchedulerMessage::HostExecPoll { worker_id: v, request_id: q, session_id: t },
        ) => w == v && r == q && s == t,
        (
            SchedulerMessage::HostExecSignal { worker_id: w, request_id: r, session_id: s, signal: x },
            SchedulerMessage::HostExecSignal { worker_id: v, request_id: q, session_id: t, signal: y },
        ) => w == v && r == q && s == t && x == y,
        (
            SchedulerMessage::HostExecChildOutput {
                worker_id: w,
                request_id: r,
                session_id: s,
                child_id: c,
                msg_type: m,
                data: x,
            },
            SchedulerMessage::HostExecChildOutput {
                worker_id: v,
                request_id: q,
                session_id: t,
                child_id: d,
                msg_type: n,
                data: y,
            },
        ) => w == v && r == q && s == t && c == d && m == n && x@ == y@,
        (
            SchedulerMessage::HostExecReadComplete { worker_id: w, request_id: r, msg_type: m, data: x },
            SchedulerMessage::HostExecReadComplete { worker_id: v, request_id: q, msg_type: n, data: y },
        ) => w == v && r == q && m == n && x@ == y@,
        (
            SchedulerMessage::CacheModule { hash: h, module: x },
            SchedulerMessage::CacheModule { hash: k, module: y },
        ) => same_hash(h, k) && x == y,
        (
            SchedulerMessage::SpawnWithModule { module: x, task: t },
            SchedulerMessage::SpawnWithModule { module: y, task: u },
        ) => x == y && t == u,
        (
            SchedulerMessage::SpawnWithModuleAndMemory {
                module: x,
                memory: m,
                spawn_wasm: s,
                subprocess_stdio: i,
                fork_pipes: f,
            },
            SchedulerMessage::SpawnWithModuleAndMemory {
                module: y,
                memory: n,
                spawn_wasm: t,
                subprocess_stdio: j,
                fork_pipes: g,
            },
        ) => x == y && m == n && s == t && i == j && same_pipes(f, g),
        (
            SchedulerMessage::PipeCreate { pipe_id: p, worker_id: w },
            SchedulerMessage::PipeCreate { pipe_id: q, worker_id: v },
        ) => p == q && w == v,
        (
            SchedulerMessage::PipeWrite { pipe_id: p, worker_id: w, data: x },
            SchedulerMessage::PipeWrite { pipe_id: q, worker_id: v, data: y },
        ) => p == q && w == v && x@ == y@,
        (
            SchedulerMessage::PipeRead { pipe_id: p, worker_id: w, max_len: m },
            SchedulerMessage::PipeRead { pipe_id: q, worker_id: v, max_len: n },
        ) => p == q && w == v && m == n,
        (
            SchedulerMessage::PipeClose { pipe_id: p, worker_id: w },
            SchedulerMessage::PipeClose { pipe_id: q, worker_id: v },
        ) => p == q && w == v,
        _ => false,
    }
}

/// Whether a field holds a value.
pub open spec fn holds(fields: wire::Fields, name: Seq<char>, value: WireView) -> bool {
    fields.contains_key(name) && fields[name] == value
}

/// Whether a field holds a number, of either sort.
pub open spec fn holds_number(fields: wire::Fields, name: Seq<char>, n: u64) -> bool {
    holds(fields, name, WireView::Number(n)) || holds(fields, name, WireView::BigInt(n))
}

/// Whether a field holds a number of 32 bits.
pub open spec fn holds_word(fields: wire::Fields, name: Seq<char>, n: u32) -> bool {
    holds(fields, name, WireView::Number(n as u64))
}

/// Whether an object has a type.
pub open spec fn has_type(fields: wire::Fields, ty: Seq<char>) -> bool {
    holds(fields, "type"@, WireView::Text(ty))
}

/// Whether fields hold the places of standard streams; where there are none, at
/// least one place is missing.
pub open spec fn holds_stdio(
    fields: wire::Fields,
    stdio: Option<SubprocessStdioBuffers>,
) -> bool {
    match stdio {
        Some(stdio) => holds_places(fields, stdio),
        None => !(exists|some: SubprocessStdioBuffers| #[trigger] holds_places(fields, some)),
    }
}

/// Whether fields hold all places of standard streams.
pub open spec fn holds_places(fields: wire::Fields, stdio: SubprocessStdioBuffers) -> bool {
    &&& holds_word(fields, "subprocess-stdin-offset"@, stdio.stdin_offset)
    &&& holds_word(fields, "subprocess-stdin-size"@, stdio.stdin_size)
    &&& holds_word(fields, "subprocess-stdout-offset"@, stdio.stdout_offset)
    &&& holds_word(fields, "subprocess-stdout-size"@, stdio.stdout_size)
    &&& holds_word(fields, "subprocess-stderr-offset"@, stdio.stderr_offset)
    &&& holds_word(fields, "subprocess-stderr-size"@, stdio.stderr_size)
}

/// Whether fields hold inherited pipes: their number, and for each its file
/// descriptor, its direction, and its place. Where there are none, no number is
/// given.
pub open spec fn holds_pipes(fields: wire::Fields, pipes: Option<ForkPipeBuffers>) -> bool {
    match pipes {
        Some(pipes) => {
            &&& pipes.buffers@.len() <= u32::MAX
            &&& holds_word(fields, "fork-pipe-count"@, pipes.buffers@.len() as u32)
            &&& forall|i: int|
                0 <= i < pipes.buffers@.len() ==> #[trigger] holds_pipe(
                    fields,
                    i as nat,
                    pipes.buffers@[i],
                )
        },
        None => !(exists|n: u32| #[trigger] holds_word(fields, "fork-pipe-count"@, n)),
    }
}

/// Whether fields hold the `i`-th inherited pipe.
pub open spec fn holds_pipe(fields: wire::Fields, i: nat, pipe: (u32, bool, u32, u32)) -> bool {
    &&& holds_word(fields, "fork-pipe-fd-"@ + text::decimal(i), pipe.0)
    &&& holds(fields, "fork-pipe-is-tx-"@ + text::decimal(i), WireView::Bool(pipe.1))
    &&& holds_word(fields, "fork-pipe-offset-"@ + text::decimal(i), pipe.2)
    &&& holds_word(fields, "fork-pipe-size-"@ + text::decimal(i), pipe.3)
}

/// Whether a field holds the text of a hash.
pub open spec fn holds_hash(fields: wire::Fields, hash: ModuleHash) -> bool {
    &&& fields.contains_key("module-hash"@)
    &&& fields["module-hash"@] is Text
    &&& module_hash::parsed_hash(fields["module-hash"@]->Text_0) == Ok::<
        module_hash::HashView,
        HashError,
    >(hash@)
}

/// Whether fields name a worker, a request and a session.
pub open spec fn holds_session(
    fields: wire::Fields,
    worker_id: u32,
    request_id: u64,
    session_id: u64,
) -> bool {
    &&& holds_word(fields, "worker-id"@, worker_id)
    &&& holds_number(fields, "request-id"@, request_id)
    &&& holds_number(fields, "session-id"@, session_id)
}

/// Whether the fields of an object carry a message to a scheduler that knows
/// this of its memory.
pub open spec fn carries(
    fields: wire::Fields,
    message: SchedulerMessage,
    memory_use: MemoryUse,
) -> bool {
    match message {
        SchedulerMessage::Close => false,
        SchedulerMessage::HostExecReadComplete { .. } => false,
        SchedulerMessage::SpawnAsync(task) => has_type(fields, "spawn-async"@) && holds(
            fields,
            "ptr"@,
            WireView::BigInt(task),
        ),
        SchedulerMessage::SpawnBlocking(task) => has_type(fields, "spawn-blocking"@) && holds(
            fields,
            "ptr"@,
            WireView::BigInt(task),
        ),
        SchedulerMessage::WorkerIdle { worker_id } => has_type(fields, "worker-idle"@)
            && holds_word(fields, "worker-id"@, worker_id),
        SchedulerMessage::WorkerBusy { worker_id } => has_type(fields, "worker-busy"@)
            && holds_word(fields, "worker-id"@, worker_id),
        SchedulerMessage::HostExecStart { worker_id, request_id, request_json } => {
            &&& has_type(fields, "host-exec-start"@)
            &&& holds_word(fields, "worker-id"@, worker_id)
            &&& holds_number(fields, "request-id"@, request_id)
            &&& holds(fields, "request-json"@, WireView::Bytes(request_json@))
        },
        SchedulerMessage::HostExecRead { worker_id, request_id, session_id } => has_type(
            fields,
            "host-exec-read"@,
        ) && holds_session(fields, worker_id, request_id, session_id),
        SchedulerMessage::HostExecWrite { worker_id, request_id, session_id, data } => {
            &&& has_type(fields, "host-exec-write"@)
            &&& holds_session(fields, worker_id, request_id, session_id)
            &&& holds(fields, "data"@, WireView::Bytes(data@))
        },
        SchedulerMessage::HostExecCloseStdin { worker_id, request_id, session_id } => has_type(
            fields,
            "host-exec-close-stdin"@,
        ) && holds_session(fields, worker_id, request_id, session_id),
        SchedulerMessage::HostExecTryRead { worker_id, request_id, session_id } => has_type(
            fields,
            "host-exec-try-read"@,
        ) && holds_session(fields, worker_id, request_id, session_id),
        SchedulerMessage::HostExecPoll { worker_id, request_id, session_id } => has_type(
            fields,
            "host-exec-poll"@,
        ) && holds_session(fields, worker_id, request_id, session_id),
        SchedulerMessage::HostExecSignal { worker_id, request_id, session_id, signal } => {
            &&& has_type(fields, "host-exec-signal"@)
            &&& holds_session(fields, worker_id, request_id, session_id)
            &&& holds_word(fields, "signal"@, signal)
        },
        SchedulerMessage::HostExecChildOutput {
            worker_id,
            request_id,
            session_id,
            child_id,
            msg_type,
            data,
        } => {
            &&& has_type(fields, "host-exec-child-output"@)
            &&& holds_session(fields, worker_id, request_id, session_id)
            &&& holds_number(fields, "child-id"@, child_id)
            &&& holds_word(fields, "msg-type"@, msg_type)
            &&& holds(fields, "data"@, WireView::Bytes(data@))
        },
        SchedulerMessage::CacheModule { hash, module } => {
            &&& has_type(fields, "cache-module"@)
            &&& holds_hash(fields, hash)
            &&& holds(fields, "module"@, WireView::Module(module))
        },
        SchedulerMessage::SpawnWithModule { module, task } => {
            &&& has_type(fields, "spawn-with-module"@)
            &&& holds(fields, "module"@, WireView::Module(module))
            &&& holds(fields, "ptr"@, WireView::BigInt(task))
        },
        SchedulerMessage::SpawnWithModuleAndMemory {
            module,
            memory,
            spawn_wasm,
            subprocess_stdio,
            fork_pipes,
        } => {
            &&& has_type(fields, "spawn-with-module-and-memory"@)
            &&& holds(fields, "module"@, WireView::Module(module))
            &&& holds(fields, "ptr"@, WireView::BigInt(spawn_wasm))
            &&& match memory {
                Some(memory) => holds(fields, "memory"@, WireView::Memory(memory)) && memory_use
                    == MemoryUse::Shared { loads: true },
                None => memory_use != (MemoryUse::Shared { loads: true })
                    || !fields.contains_key("memory"@) || !(fields["memory"@] is Memory),
            }
            &&& holds_stdio(fields, subprocess_stdio)
            &&& holds_pipes(fields, fork_pipes)
        },
        SchedulerMessage::PipeCreate { pipe_id, worker_id } => {
            &&& has_type(fields, "pipe-create"@)
            &&& holds_number(fields, "pipe-id"@, pipe_id)
            &&& holds_word(fields, "worker-id"@, worker_id)
        },
        SchedulerMessage::PipeWrite { pipe_id, worker_id, data } => {
            &&& has_type(fields, "pipe-write"@)
            &&& holds_number(fields, "pipe-id"@, pipe_id)
            &&& holds_word(fields, "worker-id"@, worker_id)
            &&& holds(fields, "data"@, WireView::Bytes(data@))
        },
        SchedulerMessage::PipeRead { pipe_id, worker_id, max_len } => {
            &&& has_type(fields, "pipe-read"@)
            &&& holds_number(fields, "pipe-id"@, pipe_id)
            &&& holds_word(fields, "worker-id"@, worker_id)
            &&& holds_word(fields, "max-len"@, max_len)
        },
        SchedulerMessage::PipeClose { pipe_id, worker_id } => {
            &&& has_type(fields, "pipe-close"@)
            &&& holds_number(fields, "pipe-id"@, pipe_id)
            &&& holds_word(fields, "worker-id"@, worker_id)
        },
    }
}

/// Pipes that are found together are each found in their own fields.
proof fn lemma_pipes_are_held(fields: wire::Fields, n: nat)
    requires
        post_message_payload::first_pipes_in(fields, n) is Ok,
    ensures
        ({
            let pipes = post_message_payload::first_pipes_in(fields, n)->Ok_0;
            &&& pipes.len() == n
            &&& forall|i: int|
                0 <= i < n ==> #[trigger] holds_pipe(fields, i as nat, pipes[i])
        }),
    decreases n,
{
    if n > 0 {
        let last = (n - 1) as nat;
        lemma_pipes_are_held(fields, last);
        let pipe = post_message_payload::pipe_in(fields, last)->Ok_0;
        assert(holds_pipe(fields, last, pipe));
        let before = post_message_payload::first_pipes_in(fields, last)->Ok_0;
        let pipes = post_message_payload::first_pipes_in(fields, n)->Ok_0;
        assert forall|i: int| 0 <= i < n implies #[trigger] holds_pipe(
            fields,
            i as nat,
            pipes[i],
        ) by {
            if i < last {
                assert(holds_pipe(fields, i as nat, before[i]));
            }
        }
    }
}

/// Pipes that each stand in their own fields are found together.
proof fn lemma_held_pipes_are_found(
    fields: wire::Fields,
    buffers: Seq<(u32, bool, u32, u32)>,
    n: nat,
)
    requires
        n <= buffers.len(),
        forall|i: int| 0 <= i < buffers.len() ==> #[trigger] holds_pipe(fields, i as nat, buffers[i]),
    ensures
        post_message_payload::first_pipes_in(fields, n) == Ok::<
            Seq<(u32, bool, u32, u32)>,
            WireFault,
        >(buffers.take(n as int)),
    decreases n,
{
    if n > 0 {
        let last = (n - 1) as nat;
        lemma_held_pipes_are_found(fields, buffers, last);
        assert(holds_pipe(fields, last as int as nat, buffers[last as int]));
        assert(buffers.take(last as int).push(buffers[last as int]) =~= buffers.take(n as int));
    } else {
        assert(buffers.take(0) =~= Seq::empty());
    }
}

proof fn lemma_stdio_is_held(fields: wire::Fields)
    ensures
        holds_stdio(fields, post_message_payload::stdio_in(fields)),
{
    if exists|some: SubprocessStdioBuffers| #[trigger] holds_places(fields, some) {
        let some = choose|some: SubprocessStdioBuffers| #[trigger] holds_places(fields, some);
        assert(post_message_payload::stdio_in(fields) == Some(some));
    }
}

proof fn lemma_held_stdio_is_found(
    fields: wire::Fields,
    stdio: Option<SubprocessStdioBuffers>,
)
    requires
        holds_stdio(fields, stdio),
    ensures
        post_message_payload::stdio_in(fields) == stdio,
{
    if post_message_payload::stdio_in(fields) is Some {
        assert(holds_places(fields, post_message_payload::stdio_in(fields)->0));
    }
}

proof fn lemma_held_pipes(fields: wire::Fields, pipes: Option<ForkPipeBuffers>)
    requires
        holds_pipes(fields, pipes),
    ensures
        ({
            let found = post_message_payload::fork_pipes_in(fields);
            &&& found is Ok
            &&& found->Ok_0 is Some <==> pipes is Some
            &&& pipes is Some ==> found->Ok_0->0.buffers == pipes->0.buffers@
        }),
{
    match pipes {
        Some(pipes) => {
            let buffers = pipes.buffers@;
            lemma_held_pipes_are_found(fields, buffers, buffers.len());
            assert(buffers.take(buffers.len() as int) =~= buffers);
        },
        None => {
            if wire::u32_field(fields, "fork-pipe-count"@) is Ok {
                let n = wire::u32_field(fields, "fork-pipe-count"@)->Ok_0;
                assert(holds_word(fields, "fork-pipe-count"@, n));
            }
        },
    }
}

/// A message that an object carries is what is read from it, whatever other
/// fields the object has.
pub proof fn law_carried_messages_are_read(
    object: &WireObject,
    memory_use: MemoryUse,
    message: SchedulerMessage,
    read: Result<SchedulerMessage, WireError>,
)
    requires
        carries(object@, message, memory_use),
        call_ensures(SchedulerMessage::try_from_js, (object, memory_use), read),
    ensures
        read is Ok,
        same_message(read->Ok_0, message),
{
    let fields = object@;
    match message {
        SchedulerMessage::SpawnAsync(_) => {
            scheduler_message::lemma_message_types(MessageKind::SpawnAsync);
        },
        SchedulerMessage::SpawnBlocking(_) => {
            scheduler_message::lemma_message_types(MessageKind::SpawnBlocking);
        },
        SchedulerMessage::WorkerIdle { .. } => {
            scheduler_message::lemma_message_types(MessageKind::WorkerIdle);
        },
        SchedulerMessage::WorkerBusy { .. } => {
            scheduler_message::lemma_message_types(MessageKind::WorkerBusy);
        },
        SchedulerMessage::CacheModule { .. } => {
            scheduler_message::lemma_message_types(MessageKind::CacheModule);
        },
        SchedulerMessage::SpawnWithModule { .. } => {
            scheduler_message::lemma_message_types(MessageKind::SpawnWithModule);
        },
        SchedulerMessage::SpawnWithModuleAndMemory { subprocess_stdio, fork_pipes, .. } => {
            scheduler_message::lemma_message_types(MessageKind::SpawnWithModuleAndMemory);
            lemma_held_stdio_is_found(fields, subprocess_stdio);
            lemma_held_pipes(fields, fork_pipes);
        },
        SchedulerMessage::HostExecStart { .. } => {
            scheduler_message::lemma_message_types(MessageKind::HostExecStart);
        },
        SchedulerMessage::HostExecRead { .. } => {
            scheduler_message::lemma_message_types(MessageKind::HostExecRead);
        },
        SchedulerMessage::HostExecWrite { .. } => {
            scheduler_message::lemma_message_types(MessageKind::HostExecWrite);
        },
        SchedulerMessage::HostExecCloseStdin { .. } => {
            scheduler_message::lemma_message_types(MessageKind::HostExecCloseStdin);
        },
        SchedulerMessage::HostExecTryRead { .. } => {
            scheduler_message::lemma_message_types(MessageKind::HostExecTryRead);
        },
        SchedulerMessage::HostExecPoll { .. } => {
            scheduler_message::lemma_message_types(MessageKind::HostExecPoll);
        },
        SchedulerMessage::HostExecSignal { .. } => {
            scheduler_message::lemma_message_types(MessageKind::HostExecSignal);
        },
        SchedulerMessage::HostExecChildOutput { .. } => {
            scheduler_message::lemma_message_types(MessageKind::HostExecChildOutput);
        },
        SchedulerMessage::PipeCreate { .. } => {
            scheduler_message::lemma_message_types(MessageKind::PipeCreate);
        },
        SchedulerMessage::PipeWrite { .. } => {
            scheduler_message::lemma_message_types(MessageKind::PipeWrite);
        },
        SchedulerMessage::PipeRead { .. } => {
            scheduler_message::lemma_message_types(MessageKind::PipeRead);
        },
        SchedulerMessage::PipeClose { .. } => {
            scheduler_message::lemma_message_types(MessageKind::PipeClose);
        },
        _ => {},
    }
}

/// Whatever message is read from an object, the object carries it: nothing is
/// made up.
pub proof fn law_read_messages_were_carried(
    object: &WireObject,
    memory_use: MemoryUse,
    read: Result<SchedulerMessage, WireError>,
)
    requires
        call_ensures(SchedulerMessage::try_from_js, (object, memory_use), read),
    ensures
        read is Ok ==> carries(object@, read->Ok_0, memory_use),
{
    let fields = object@;
    if let Ok(message) = read {
        if message is SpawnWithModuleAndMemory {
            lemma_stdio_is_held(fields);
            if wire::u32_field(fields, "fork-pipe-count"@) is Ok {
                let n = wire::u32_field(fields, "fork-pipe-count"@)->Ok_0;
                lemma_pipes_are_held(fields, n as nat);
            }
        }
    }
}

/// Every message that a worker sends arrives at the scheduler as it was sent.
/// Closing the scheduler is not understood there, the answer to a waiting read
/// never travels, and a memory arrives only where it is shared and can be taken
/// over.
pub proof fn law_messages_arrive_as_sent(
    message: SchedulerMessage,
    object: WireObject,
    memory_use: MemoryUse,
    read: Result<SchedulerMessage, WireError>,
)
    requires
        call_ensures(SchedulerMessage::into_js, (message,), object),
        call_ensures(SchedulerMessage::try_from_js, (&object, memory_use), read),
        !(message is Close) && !(message is HostExecReadComplete),
        message matches SchedulerMessage::SpawnWithModuleAndMemory { memory, fork_pipes, .. } ==> {
            &&& memory is Some ==> memory_use == MemoryUse::Shared { loads: true }
            &&& fork_pipes is Some ==> fork_pipes->0.buffers@.len() <= u32::MAX
        },
    ensures
        read is Ok,
        same_message(read->Ok_0, message),
        carries(object@, message, memory_use),
{
    scheduler_message::law_message_round_trip(message@, memory_use);
    law_read_messages_were_carried(&object, memory_use, read);
}

/// A memory that is not shared, or that cannot be taken over, stays behind: the
/// message arrives without it and otherwise as it was sent.
pub proof fn law_memories_that_cannot_be_used_stay_behind(
    message: SchedulerMessage,
    without: SchedulerMessage,
    object: WireObject,
    memory_use: MemoryUse,
    read: Result<SchedulerMessage, WireError>,
)
    requires
        message is SpawnWithModuleAndMemory,
        without is SpawnWithModuleAndMemory,
        without->SpawnWithModuleAndMemory_memory is None,
        without->SpawnWithModuleAndMemory_module == message->SpawnWithModuleAndMemory_module,
        without->SpawnWithModuleAndMemory_spawn_wasm
            == message->SpawnWithModuleAndMemory_spawn_wasm,
        without->SpawnWithModuleAndMemory_subprocess_stdio
            == message->SpawnWithModuleAndMemory_subprocess_stdio,
        without->SpawnWithModuleAndMemory_fork_pipes
            == message->SpawnWithModuleAndMemory_fork_pipes,
        message->SpawnWithModuleAndMemory_fork_pipes is Some
            ==> message->SpawnWithModuleAndMemory_fork_pipes->0.buffers@.len() <= u32::MAX,
        call_ensures(SchedulerMessage::into_js, (message,), object),
        call_ensures(SchedulerMessage::try_from_js, (&object, memory_use), read),
        memory_use != (MemoryUse::Shared { loads: true }),
    ensures
        read is Ok,
        same_message(read->Ok_0, without),
{
    let shared = MemoryUse::Shared { loads: true };
    scheduler_message::law_message_round_trip(message@, shared);
    let arrived = scheduler_message::decoded(object@, shared)->Ok_0;
    let left = scheduler_message::decoded(object@, memory_use)->Ok_0;
    assert(scheduler_message::decoded(object@, memory_use) is Ok);
    assert(left->SpawnWithModuleAndMemory_memory is None);
    assert(left->SpawnWithModuleAndMemory_module == arrived->SpawnWithModuleAndMemory_module);
}

/// A new object holds its type and nothing else, and an empty one holds nothing.
pub proof fn law_objects_start_with_their_type(
    ty: &str,
    object: WireObject,
    empty: WireObject,
    name: Seq<char>,
)
    requires
        call_ensures(WireObject::new, (ty,), object),
        call_ensures(WireObject::empty, (), empty),
    ensures
        has_type(object@, ty@),
        name != "type"@ ==> !object@.contains_key(name),
        !empty@.contains_key(name),
{
}

/// The message that closes the scheduler is sent as such.
pub proof fn law_closing_is_sent_as_such(object: WireObject)
    requires
        call_ensures(SchedulerMessage::into_js, (SchedulerMessage::Close,), object),
    ensures
        has_type(object@, "close"@),
{
}

// ---------------------------------------------------------------------------
// Messages to a worker
// ---------------------------------------------------------------------------

/// Whether two messages to a worker say the same, but for the debugging text of
/// inherited pipes.
pub open spec fn same_payload(a: PostMessagePayload, b: PostMessagePayload) -> bool {
    match (a, b) {
        (
            PostMessagePayload::Async(AsyncJob::Thunk(x)),
            PostMessagePayload::Async(AsyncJob::Thunk(y)),
        ) => x == y,
        (PostMessagePayload::Blocking(x), PostMessagePayload::Blocking(y)) => same_job(x, y),
        (
            PostMessagePayload::Notification(Notification::CacheModule { hash: h, module: x }),
            PostMessagePayload::Notification(Notification::CacheModule { hash: k, module: y }),
        ) => same_hash(h, k) && x == y,
        (
            PostMessagePayload::HostExecStartResponse { request_id: r, result: x },
            PostMessagePayload::HostExecStartResponse { request_id: q, result: y },
        ) => r == q && match (x, y) {
            (Ok(m), Ok(n)) => m == n,
            (Err(e), Err(f)) => e@ == f@,
            _ => false,
        },
        (
            PostMessagePayload::HostExecReadResponse { request_id: r, result: x },
            PostMessagePayload::HostExecReadResponse { request_id: q, result: y },
        ) => r == q && match (x, y) {
            (Ok(m), Ok(n)) => m.0 == n.0 && m.1@ == n.1@,
            (Err(e), Err(f)) => e@ == f@,
            _ => false,
        },
        _ => false,
    }
}

/// Whether two jobs are the same, but for the debugging text of inherited pipes.
pub open spec fn same_job(a: BlockingJob, b: BlockingJob) -> bool {
    match (a, b) {
        (BlockingJob::Thunk(x), BlockingJob::Thunk(y)) => x == y,
        (
            BlockingJob::SpawnWithModule { module: x, task: t },
            BlockingJob::SpawnWithModule { module: y, task: u },
        ) => x == y && t == u,
        (
            BlockingJob::SpawnWithModuleAndMemory {
                module: x,
                memory: m,
                spawn_wasm: s,
                subprocess_stdio: i,
                fork_pipes: f,
            },
            BlockingJob::SpawnWithModuleAndMemory {
                module: y,
                memory: n,
                spawn_wasm: t,
                subprocess_stdio: j,
                fork_pipes: g,
            },
        ) => x == y && m == n && s == t && i == j && same_pipes(f, g),
        _ => false,
    }
}

/// Whether a field holds a number of either sort, whichever it is.
pub open spec fn holds_some_number(fields: wire::Fields, name: Seq<char>) -> bool {
    fields.contains_key(name) && (fields[name] is Number || fields[name] is BigInt)
}

/// Whether a field holds a number of 32 bits, whichever it is.
pub open spec fn holds_some_word(fields: wire::Fields, name: Seq<char>) -> bool {
    fields.contains_key(name) && fields[name] is Number && fields[name]->Number_0 <= u32::MAX
}

/// Whether the fields of an object carry a message to a worker. A result is an
/// error only where the fields of a success are missing.
pub open spec fn carries_payload(fields: wire::Fields, payload: PostMessagePayload) -> bool {
    match payload {
        PostMessagePayload::Async(AsyncJob::Thunk(task)) => has_type(fields, "spawn-async"@)
            && holds(fields, "ptr"@, WireView::BigInt(task)),
        PostMessagePayload::Blocking(BlockingJob::Thunk(task)) => has_type(
            fields,
            "spawn-blocking"@,
        ) && holds(fields, "ptr"@, WireView::BigInt(task)),
        PostMessagePayload::Blocking(BlockingJob::SpawnWithModule { module, task }) => {
            &&& has_type(fields, "spawn-with-module"@)
            &&& holds(fields, "ptr"@, WireView::BigInt(task))
            &&& holds(fields, "module"@, WireView::Module(module))
        },
        PostMessagePayload::Blocking(
            BlockingJob::SpawnWithModuleAndMemory {
                module,
                memory,
                spawn_wasm,
                subprocess_stdio,
                fork_pipes,
            },
        ) => {
            &&& has_type(fields, "spawn-with-module-and-memory"@)
            &&& holds(fields, "ptr"@, WireView::BigInt(spawn_wasm))
            &&& holds(fields, "module"@, WireView::Module(module))
            &&& match memory {
                Some(memory) => holds(fields, "memory"@, WireView::Memory(memory)),
                None => !fields.contains_key("memory"@) || !(fields["memory"@] is Memory),
            }
            &&& holds_stdio(fields, subprocess_stdio)
            &&& holds_pipes(fields, fork_pipes)
        },
        PostMessagePayload::Notification(Notification::CacheModule { hash, module }) => {
            &&& has_type(fields, "cache-module"@)
            &&& holds_hash(fields, hash)
            &&& holds(fields, "module"@, WireView::Module(module))
        },
        PostMessagePayload::HostExecStartResponse { request_id, result } => {
            &&& has_type(fields, "host-exec-start-response"@)
            &&& holds_number(fields, "request-id"@, request_id)
            &&& match result {
                Ok(session_id) => holds_number(fields, "session-id"@, session_id),
                Err(error) => holds(fields, "error"@, WireView::Text(error@))
                    && !holds_some_number(fields, "session-id"@),
            }
        },
        PostMessagePayload::HostExecReadResponse { request_id, result } => {
            &&& has_type(fields, "host-exec-read-response"@)
            &&& holds_number(fields, "request-id"@, request_id)
            &&& match result {
                Ok((msg_type, data)) => holds_word(fields, "msg-type"@, msg_type) && holds(
                    fields,
                    "data"@,
                    WireView::Bytes(data@),
                ),
                Err(error) => holds(fields, "error"@, WireView::Text(error@))
                    && !holds_some_word(fields, "msg-type"@),
            }
        },
    }
}

/// A message to a worker that an object carries is what is read from it,
/// whatever other fields the object has.
pub proof fn law_carried_payloads_are_read(
    object: &WireObject,
    payload: PostMessagePayload,
    read: Result<PostMessagePayload, WireError>,
)
    requires
        carries_payload(object@, payload),
        call_ensures(PostMessagePayload::try_from_js, (object,), read),
    ensures
        read is Ok,
        same_payload(read->Ok_0, payload),
{
    let fields = object@;
    match payload {
        PostMessagePayload::Async(_) => {
            post_message_payload::lemma_payload_types(PayloadKind::SpawnAsync);
        },
        PostMessagePayload::Blocking(BlockingJob::Thunk(_)) => {
            post_message_payload::lemma_payload_types(PayloadKind::SpawnBlocking);
        },
        PostMessagePayload::Blocking(BlockingJob::SpawnWithModule { .. }) => {
            post_message_payload::lemma_payload_types(PayloadKind::SpawnWithModule);
        },
        PostMessagePayload::Blocking(
            BlockingJob::SpawnWithModuleAndMemory { subprocess_stdio, fork_pipes, .. },
        ) => {
            post_message_payload::lemma_payload_types(PayloadKind::SpawnWithModuleAndMemory);
            lemma_held_stdio_is_found(fields, subprocess_stdio);
            lemma_held_pipes(fields, fork_pipes);
        },
        PostMessagePayload::Notification(_) => {
            post_message_payload::lemma_payload_types(PayloadKind::CacheModule);
        },
        PostMessagePayload::HostExecStartResponse { .. } => {
            post_message_payload::lemma_payload_types(PayloadKind::HostExecStartResponse);
        },
        PostMessagePayload::HostExecReadResponse { .. } => {
            post_message_payload::lemma_payload_types(PayloadKind::HostExecReadResponse);
        },
    }
}

/// Whatever message to a worker is read from an object, the object carries it:
/// nothing is made up.
pub proof fn law_read_payloads_were_carried(
    object: &WireObject,
    read: Result<PostMessagePayload, WireError>,
)
    requires
        call_ensures(PostMessagePayload::try_from_js, (object,), read),
    ensures
        read is Ok ==> carries_payload(object@, read->Ok_0),
{
    let fields = object@;
    if let Ok(PostMessagePayload::Blocking(job)) = read {
        if job is SpawnWithModuleAndMemory {
            lemma_stdio_is_held(fields);
            if wire::u32_field(fields, "fork-pipe-count"@) is Ok {
                let n = wire::u32_field(fields, "fork-pipe-count"@)->Ok_0;
                lemma_pipes_are_held(fields, n as nat);
            }
        }
    }
}

/// Every message that the scheduler sends arrives at the worker as it was sent,
/// in fields of known names.
pub proof fn law_payloads_arrive_as_sent(
    payload: PostMessagePayload,
    object: WireObject,
    read: Result<PostMessagePayload, WireError>,
)
    requires
        call_ensures(PostMessagePayload::into_js, (payload,), object),
        call_ensures(PostMessagePayload::try_from_js, (&object,), read),
        payload matches PostMessagePayload::Blocking(
            BlockingJob::SpawnWithModuleAndMemory { fork_pipes: Some(pipes), .. },
        ) ==> pipes.buffers@.len() <= u32::MAX,
    ensures
        read is Ok,
        same_payload(read->Ok_0, payload),
        carries_payload(object@, payload),
{
    post_message_payload::law_payload_round_trip(payload@);
    law_read_payloads_were_carried(&object, read);
}

/// An object without a type, or with a type that nobody knows, is refused by
/// both sides, and so is a message to close the scheduler that comes from
/// elsewhere.
pub proof fn law_unknown_objects_are_refused(
    object: &WireObject,
    memory_use: MemoryUse,
    message: Result<SchedulerMessage, WireError>,
    payload: Result<PostMessagePayload, WireError>,
)
    requires
        call_ensures(SchedulerMessage::try_from_js, (object, memory_use), message),
        call_ensures(PostMessagePayload::try_from_js, (object,), payload),
    ensures
        !object@.contains_key("type"@) || !(object@["type"@] is Text) ==> {
            &&& message matches Err(WireError::Field(name)) && name@ == "type"@
            &&& payload matches Err(WireError::Field(name)) && name@ == "type"@
        },
        has_type(object@, "close"@) ==> message is Err && payload is Err,
        message matches Err(WireError::UnknownType(text)) ==> text@
            == "Unknown message type, \""@ + object@["type"@]->Text_0 + "\""@,
        payload matches Err(WireError::UnknownType(text)) ==> text@
            == "Unknown message type: "@ + object@["type"@]->Text_0,
{
    reveal_strlit("close");
    assert("close"@.len() == 5);
    lemma_type_lengths();
    if wire::u32_field(object@, "fork-pipe-count"@) is Ok {
        let n = wire::u32_field(object@, "fork-pipe-count"@)->Ok_0;
        lemma_pipe_faults(object@, n as nat);
    }
}

/// What is wrong with inherited pipes is wrong with one of their fields.
proof fn lemma_pipe_faults(fields: wire::Fields, n: nat)
    ensures
        post_message_payload::first_pipes_in(fields, n) matches Err(fault) ==> fault is Field,
    decreases n,
{
    if n > 0 {
        lemma_pipe_faults(fields, (n - 1) as nat);
    }
}

proof fn lemma_type_lengths()
    ensures
        "spawn-async"@.len() > 5,
        "spawn-blocking"@.len() > 5,
        "worker-idle"@.len() > 5,
        "worker-busy"@.len() > 5,
        "cache-module"@.len() > 5,
        "spawn-with-module"@.len() > 5,
        "spawn-with-module-and-memory"@.len() > 5,
        "host-exec-start"@.len() > 5,
        "host-exec-read"@.len() > 5,
        "host-exec-write"@.len() > 5,
        "host-exec-close-stdin"@.len() > 5,
        "host-exec-try-read"@.len() > 5,
        "host-exec-poll"@.len() > 5,
        "host-exec-signal"@.len() > 5,
        "host-exec-child-output"@.len() > 5,
        "host-exec-start-response"@.len() > 5,
        "host-exec-read-response"@.len() > 5,
        "pipe-create"@.len() > 5,
        "pipe-write"@.len() > 5,
        "pipe-read"@.len() > 5,
        "pipe-close"@.len() > 5,
{
    reveal_strlit("spawn-async");
    reveal_strlit("spawn-blocking");
    reveal_strlit("worker-idle");
    reveal_strlit("worker-busy");
    reveal_strlit("cache-module");
    reveal_strlit("spawn-with-module");
    reveal_strlit("spawn-with-module-and-memory");
    reveal_strlit("host-exec-start");
    reveal_strlit("host-exec-read");
    reveal_strlit("host-exec-write");
    reveal_strlit("host-exec-close-stdin");
    reveal_strlit("host-exec-try-read");
    reveal_strlit("host-exec-poll");
    reveal_strlit("host-exec-signal");
    reveal_strlit("host-exec-child-output");
    reveal_strlit("host-exec-start-response");
    reveal_strlit("host-exec-read-response");
    reveal_strlit("pipe-create");
    reveal_strlit("pipe-write");
    reveal_strlit("pipe-read");
    reveal_strlit("pipe-close");
}

// ---------------------------------------------------------------------------
// Hashes
// ---------------------------------------------------------------------------

/// A hash is read back from its own text, byte for byte and as the same kind.
pub proof fn law_hashes_are_read_from_their_text(
    hash: &ModuleHash,
    written: String,
    text: &str,
    read: Result<ModuleHash, HashError>,
)
    requires
        call_ensures(ModuleHash::to_text, (hash,), written),
        text@ == written@,
        call_ensures(ModuleHash::parse, (text,), read),
    ensures
        read is Ok,
        same_hash(read->Ok_0, *hash),
        written@.len() == (match *hash {
            ModuleHash::XXHash(_) => 16int,
            ModuleHash::Sha256(_) => 64int,
        }),
{
    module_hash::law_hash_text_round_trip(hash@);
}

/// The number that a byte stands for as a hexadecimal digit of either case.
pub open spec fn digit_value(c: u8) -> Option<int> {
    if '0' as u8 <= c <= '9' as u8 {
        Some(c - '0' as u8)
    } else if 'A' as u8 <= c <= 'F' as u8 {
        Some(10 + c - 'A' as u8)
    } else if 'a' as u8 <= c <= 'f' as u8 {
        Some(10 + c - 'a' as u8)
    } else {
        None
    }
}

/// Whether a character is the upper-case digit of a number.
pub open spec fn is_digit_of(c: char, value: int) -> bool {
    &&& c as u32 <= 'F' as u32
    &&& c as u32 <= '9' as u32 || c as u32 >= 'A' as u32
    &&& digit_value(c as u8) == Some(value)
}

/// Whether digits, two by two, stand for bytes.
pub open spec fn digits_are(digits: Seq<u8>, bytes: Seq<u8>) -> bool {
    &&& digits.len() == 2 * bytes.len()
    &&& forall|i: int|
        0 <= i < bytes.len() ==> {
            &&& digit_value(digits[2 * i]) is Some
            &&& digit_value(digits[2 * i + 1]) is Some
            &&& #[trigger] bytes[i] == 16 * digit_value(digits[2 * i])->0 + digit_value(
                digits[2 * i + 1],
            )->0
        }
}

/// Each byte of a hash is written as two upper-case digits.
pub proof fn law_hashes_are_written_in_upper_case_digits(
    hash: &ModuleHash,
    written: String,
    i: int,
)
    requires
        call_ensures(ModuleHash::to_text, (hash,), written),
        0 <= i < (match *hash {
            ModuleHash::XXHash(_) => 8int,
            ModuleHash::Sha256(_) => 32int,
        }),
    ensures
        ({
            let byte = match *hash {
                ModuleHash::XXHash(bytes) => bytes@[i],
                ModuleHash::Sha256(bytes) => bytes@[i],
            };
            &&& is_digit_of(written@[2 * i], byte as int / 16)
            &&& is_digit_of(written@[2 * i + 1], byte as int % 16)
        }),
{
    assert((2 * i) / 2 == i && (2 * i + 1) / 2 == i);
    assert((2 * i) % 2 == 0 && (2 * i + 1) % 2 == 1);
}

proof fn lemma_digits(digits: Seq<u8>)
    ensures
        module_hash::leading_hex_digits(digits) <= digits.len(),
        forall|i: int|
            0 <= i < module_hash::leading_hex_digits(digits) ==> digit_value(
                #[trigger] digits[i],
            ) is Some,
        module_hash::leading_hex_digits(digits) < digits.len() ==> digit_value(
            digits[module_hash::leading_hex_digits(digits) as int],
        ) is None,
    decreases digits.len(),
{
    if digits.len() > 0 && module_hash::is_hex_digit(digits[0]) {
        let rest = digits.skip(1);
        lemma_digits(rest);
        let n = module_hash::leading_hex_digits(rest) as int;
        assert forall|i: int| 0 <= i < n + 1 implies digit_value(#[trigger] digits[i]) is Some by {
            if i > 0 {
                assert(rest[i - 1] == digits[i]);
            }
        }
        if n < rest.len() {
            assert(rest[n] == digits[n + 1]);
        }
    }
}

/// Sixty-four digits are read as a SHA-256 hash and sixteen as an xxHash. Any
/// other text is refused: an odd number of bytes as such, a wrong number of bytes
/// as such, and sixteen bytes of which one is no digit with the first of those.
pub proof fn law_texts_are_read_as_hashes_by_their_length(
    text: &str,
    read: Result<ModuleHash, HashError>,
    k: int,
)
    requires
        call_ensures(ModuleHash::parse, (text,), read),
    ensures
        ({
            let digits = vstd::utf8::encode_utf8(text@);
            let all_digits = forall|i: int|
                0 <= i < digits.len() ==> digit_value(#[trigger] digits[i]) is Some;
            &&& digits.len() % 2 == 1 ==> read == Err::<ModuleHash, HashError>(HashError::OddLength)
            &&& digits.len() % 2 == 0 && digits.len() != 16 && !(digits.len() == 64 && all_digits)
                ==> read == Err::<ModuleHash, HashError>(HashError::InvalidStringLength)
            &&& digits.len() == 64 && all_digits ==> (read matches Ok(ModuleHash::Sha256(bytes))
                && digits_are(digits, bytes@))
            &&& digits.len() == 16 && all_digits ==> (read matches Ok(ModuleHash::XXHash(bytes))
                && digits_are(digits, bytes@))
            &&& digits.len() == 16 && 0 <= k < 16 && digit_value(digits[k]) is None && (forall|
                i: int,
            |
                0 <= i < k ==> digit_value(#[trigger] digits[i]) is Some) ==> read == Err::<
                ModuleHash,
                HashError,
            >(HashError::InvalidHexCharacter { c: digits[k] as char, index: k as usize })
        }),
{
    let digits = vstd::utf8::encode_utf8(text@);
    lemma_digits(digits);
    let n = module_hash::leading_hex_digits(digits) as int;
    if n < digits.len() {
        assert(digit_value(digits[n]) is None);
    }
    if n == digits.len() && (digits.len() == 64 || digits.len() == 16) {
        let size: nat = digits.len() / 2;
        let decoded = module_hash::hex_decoded(digits, size)->Ok_0;
        assert forall|i: int| 0 <= i < decoded.len() implies {
            &&& digit_value(digits[2 * i]) is Some
            &&& digit_value(digits[2 * i + 1]) is Some
            &&& #[trigger] decoded[i] == 16 * digit_value(digits[2 * i])->0 + digit_value(
                digits[2 * i + 1],
            )->0
        } by {
            assert(digit_value(digits[2 * i]) is Some);
            assert(digit_value(digits[2 * i + 1]) is Some);
        }
        assert(digits_are(digits, decoded));
    }
    if digits.len() == 16 && 0 <= k < 16 && digit_value(digits[k]) is None && (forall|i: int|
        0 <= i < k ==> digit_value(#[trigger] digits[i]) is Some) {
        assert(n == k) by {
            if n < k {
                assert(digit_value(digits[n]) is Some);
            }
            if k < n {
                assert(digit_value(digits[k]) is Some);
            }
        }
    }
}

} // verus!
