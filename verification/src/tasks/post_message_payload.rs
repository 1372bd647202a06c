//! Messages from the scheduler to a worker.
use vstd::prelude::*;
use crate::tasks::module_hash;
use crate::tasks::module_hash::{HashView, ModuleHash};
use crate::tasks::wire;
use crate::tasks::wire::{WireError, WireFault, WireObject, WireValue, WireView};
use crate::text;

verus! {

/// Where the standard streams of a subprocess lie in the shared pipe pool.
#[derive(Debug, Clone, Copy, PartialEq, Eq)]
pub struct SubprocessStdioBuffers {
    pub stdin_offset: u32,
    pub stdin_size: u32,
    pub stdout_offset: u32,
    pub stdout_size: u32,
    pub stderr_offset: u32,
    pub stderr_size: u32,
}

/// The pipes that a process inherits in a fork.
#[derive(Debug, Default)]
pub struct ForkPipeBuffers {
    /// For each pipe end: file descriptor, whether it is the write end, offset
    /// into the shared pipe pool, and size of the buffer with its header.
    pub buffers: Vec<(u32, bool, u32, u32)>,
    /// All file descriptors and their kinds, for debugging. This does not
    /// travel.
    pub all_fds_debug: String,
}

/// What [`ForkPipeBuffers`] say.
pub struct ForkPipesView {
    pub buffers: Seq<(u32, bool, u32, u32)>,
    pub all_fds_debug: Seq<char>,
}

impl View for ForkPipeBuffers {
    type V = ForkPipesView;

    open spec fn view(&self) -> ForkPipesView {
        ForkPipesView { buffers: self.buffers@, all_fds_debug: self.all_fds_debug@ }
    }
}

/// What optional [`ForkPipeBuffers`] say.
pub open spec fn optional_fork_pipes(pipes: Option<ForkPipeBuffers>) -> Option<ForkPipesView> {
    match pipes {
        Some(pipes) => Some(pipes@),
        None => None,
    }
}

/// Fork pipes as they arrive: without their debugging text.
pub open spec fn received_fork_pipes(pipes: Option<ForkPipesView>) -> Option<ForkPipesView> {
    match pipes {
        Some(pipes) => Some(
            ForkPipesView { buffers: pipes.buffers, all_fds_debug: Seq::empty() },
        ),
        None => None,
    }
}

/// Work that does not block its worker. Tasks are held by handle.
#[derive(Debug)]
pub enum AsyncJob {
    Thunk(u64),
}

/// Work that blocks its worker. Tasks, modules and memories are held by handle.
#[derive(Debug)]
pub enum BlockingJob {
    Thunk(u64),
    SpawnWithModule { module: u64, task: u64 },
    SpawnWithModuleAndMemory {
        module: u64,
        /// A linear memory that has already been created.
        memory: Option<u64>,
        spawn_wasm: u64,
        /// Pipes that the child uses for its standard streams.
        subprocess_stdio: Option<SubprocessStdioBuffers>,
        /// Pipes that are reconnected once the child's environment is set up.
        fork_pipes: Option<ForkPipeBuffers>,
    },
}

/// News that asks for no work.
#[derive(Debug)]
pub enum Notification {
    CacheModule { hash: ModuleHash, module: u64 },
}

/// A message from the scheduler to a worker.
#[derive(Debug)]
#[allow(inconsistent_fields)]
pub enum PostMessagePayload {
    Async(AsyncJob),
    Blocking(BlockingJob),
    Notification(Notification),
    /// The answer to the start of a host execution: the session's id, or what
    /// went wrong.
    HostExecStartResponse { request_id: u64, result: Result<u64, String> },
    /// The answer to a host execution read: a message type and data, or what
    /// went wrong.
    HostExecReadResponse { request_id: u64, result: Result<(u32, Vec<u8>), String> },
}

/// What a [`PostMessagePayload`] says.
#[allow(inconsistent_fields)]
pub enum PayloadView {
    AsyncThunk(u64),
    BlockingThunk(u64),
    SpawnWithModule { module: u64, task: u64 },
    SpawnWithModuleAndMemory {
        module: u64,
        memory: Option<u64>,
        spawn_wasm: u64,
        subprocess_stdio: Option<SubprocessStdioBuffers>,
        fork_pipes: Option<ForkPipesView>,
    },
    CacheModule { hash: HashView, module: u64 },
    HostExecStartResponse { request_id: u64, result: Result<u64, Seq<char>> },
    HostExecReadResponse { request_id: u64, result: Result<(u32, Seq<u8>), Seq<char>> },
}

impl View for PostMessagePayload {
    type V = PayloadView;

    open spec fn view(&self) -> PayloadView {
        match *self {
            PostMessagePayload::Async(AsyncJob::Thunk(task)) => PayloadView::AsyncThunk(task),
            PostMessagePayload::Blocking(BlockingJob::Thunk(task)) => PayloadView::BlockingThunk(
                task,
            ),
            PostMessagePayload::Blocking(BlockingJob::SpawnWithModule { module, task }) => {
                PayloadView::SpawnWithModule { module, task }
            },
            PostMessagePayload::Blocking(
                BlockingJob::SpawnWithModuleAndMemory {
                    module,
                    memory,
                    spawn_wasm,
                    subprocess_stdio,
                    fork_pipes,
                },
            ) => PayloadView::SpawnWithModuleAndMemory {
                module,
                memory,
                spawn_wasm,
                subprocess_stdio,
                fork_pipes: optional_fork_pipes(fork_pipes),
            },
            PostMessagePayload::Notification(Notification::CacheModule { hash, module }) => {
                PayloadView::CacheModule { hash: hash@, module }
            },
            PostMessagePayload::HostExecStartResponse { request_id, result } => {
                PayloadView::HostExecStartResponse {
                    request_id,
                    result: match result {
                        Ok(session_id) => Ok(session_id),
                        Err(error) => Err(error@),
                    },
                }
            },
            PostMessagePayload::HostExecReadResponse { request_id, result } => {
                PayloadView::HostExecReadResponse {
                    request_id,
                    result: match result {
                        Ok((msg_type, data)) => Ok((msg_type, data@)),
                        Err(error) => Err(error@),
                    },
                }
            },
        }
    }
}

/// Whether a message keeps its worker busy: it does if it is blocking work.
pub open spec fn blocks(payload: PayloadView) -> bool {
    payload is BlockingThunk || payload is SpawnWithModule || payload is SpawnWithModuleAndMemory
}

// ---------------------------------------------------------------------------
// Subprocess streams and inherited pipes
// ---------------------------------------------------------------------------

/// The fields with the places of a subprocess's standard streams added.
pub open spec fn with_stdio(
    fields: wire::Fields,
    stdio: Option<SubprocessStdioBuffers>,
) -> wire::Fields {
    match stdio {
        Some(stdio) => fields.insert(
            "subprocess-stdin-offset"@,
            WireView::Number(stdio.stdin_offset as u64),
        ).insert("subprocess-stdin-size"@, WireView::Number(stdio.stdin_size as u64)).insert(
            "subprocess-stdout-offset"@,
            WireView::Number(stdio.stdout_offset as u64),
        ).insert("subprocess-stdout-size"@, WireView::Number(stdio.stdout_size as u64)).insert(
            "subprocess-stderr-offset"@,
            WireView::Number(stdio.stderr_offset as u64),
        ).insert("subprocess-stderr-size"@, WireView::Number(stdio.stderr_size as u64)),
        None => fields,
    }
}

/// The places of a subprocess's standard streams, if all of them are given.
pub open spec fn stdio_in(fields: wire::Fields) -> Option<SubprocessStdioBuffers> {
    match (
        wire::u32_field(fields, "subprocess-stdin-offset"@),
        wire::u32_field(fields, "subprocess-stdin-size"@),
        wire::u32_field(fields, "subprocess-stdout-offset"@),
        wire::u32_field(fields, "subprocess-stdout-size"@),
        wire::u32_field(fields, "subprocess-stderr-offset"@),
        wire::u32_field(fields, "subprocess-stderr-size"@),
    ) {
        (
            Ok(stdin_offset),
            Ok(stdin_size),
            Ok(stdout_offset),
            Ok(stdout_size),
            Ok(stderr_offset),
            Ok(stderr_size),
        ) => Some(
            SubprocessStdioBuffers {
                stdin_offset,
                stdin_size,
                stdout_offset,
                stdout_size,
                stderr_offset,
                stderr_size,
            },
        ),
        _ => None,
    }
}

/// The name of the field that holds one thing about the `i`-th inherited pipe.
pub open spec fn indexed(prefix: Seq<char>, i: nat) -> Seq<char> {
    prefix + text::decimal(i)
}

/// The fields with the first `n` inherited pipes added.
pub open spec fn with_first_pipes(
    fields: wire::Fields,
    buffers: Seq<(u32, bool, u32, u32)>,
    n: nat,
) -> wire::Fields
    decreases n,
{
    if n == 0 {
        fields
    } else {
        let i = (n - 1) as nat;
        let pipe = buffers[i as int];
        with_first_pipes(fields, buffers, i).insert(
            indexed("fork-pipe-fd-"@, i),
            WireView::Number(pipe.0 as u64),
        ).insert(indexed("fork-pipe-is-tx-"@, i), WireView::Bool(pipe.1)).insert(
            indexed("fork-pipe-offset-"@, i),
            WireView::Number(pipe.2 as u64),
        ).insert(indexed("fork-pipe-size-"@, i), WireView::Number(pipe.3 as u64))
    }
}

/// The fields with the inherited pipes and their number added.
pub open spec fn with_fork_pipes(
    fields: wire::Fields,
    pipes: Option<ForkPipesView>,
) -> wire::Fields {
    match pipes {
        Some(pipes) => with_first_pipes(
            fields.insert(
                "fork-pipe-count"@,
                WireView::Number((pipes.buffers.len() % 0x1_0000_0000) as u64),
            ),
            pipes.buffers,
            pipes.buffers.len(),
        ),
        None => fields,
    }
}

/// The `i`-th inherited pipe.
pub open spec fn pipe_in(fields: wire::Fields, i: nat) -> Result<(u32, bool, u32, u32), WireFault> {
    match wire::u32_field(fields, indexed("fork-pipe-fd-"@, i)) {
        Err(e) => Err(e),
        Ok(fd) => match wire::bool_field(fields, indexed("fork-pipe-is-tx-"@, i)) {
            Err(e) => Err(e),
            Ok(is_tx) => match wire::u32_field(fields, indexed("fork-pipe-offset-"@, i)) {
                Err(e) => Err(e),
                Ok(pool_offset) => match wire::u32_field(
                    fields,
                    indexed("fork-pipe-size-"@, i),
                ) {
                    Err(e) => Err(e),
                    Ok(buffer_size) => Ok((fd, is_tx, pool_offset, buffer_size)),
                },
            },
        },
    }
}

/// The first `n` inherited pipes, or the first fault among their fields.
pub open spec fn first_pipes_in(fields: wire::Fields, n: nat) -> Result<
    Seq<(u32, bool, u32, u32)>,
    WireFault,
>
    decreases n,
{
    if n == 0 {
        Ok(Seq::empty())
    } else {
        match first_pipes_in(fields, (n - 1) as nat) {
            Err(e) => Err(e),
            Ok(pipes) => match pipe_in(fields, (n - 1) as nat) {
                Err(e) => Err(e),
                Ok(pipe) => Ok(pipes.push(pipe)),
            },
        }
    }
}

/// The inherited pipes, if their number is given.
pub open spec fn fork_pipes_in(fields: wire::Fields) -> Result<Option<ForkPipesView>, WireFault> {
    match wire::u32_field(fields, "fork-pipe-count"@) {
        Err(_) => Ok(None),
        Ok(count) => match first_pipes_in(fields, count as nat) {
            Err(e) => Err(e),
            Ok(buffers) => Ok(Some(ForkPipesView { buffers, all_fds_debug: Seq::empty() })),
        },
    }
}

/// Adds the places of a subprocess's standard streams.
pub fn set_stdio(object: &mut WireObject, stdio: Option<SubprocessStdioBuffers>)
    ensures
        final(object)@ == with_stdio(old(object)@, stdio),
{
    if let Some(stdio) = stdio {
        object.set("subprocess-stdin-offset", WireValue::Number(stdio.stdin_offset as u64));
        object.set("subprocess-stdin-size", WireValue::Number(stdio.stdin_size as u64));
        object.set("subprocess-stdout-offset", WireValue::Number(stdio.stdout_offset as u64));
        object.set("subprocess-stdout-size", WireValue::Number(stdio.stdout_size as u64));
        object.set("subprocess-stderr-offset", WireValue::Number(stdio.stderr_offset as u64));
        object.set("subprocess-stderr-size", WireValue::Number(stdio.stderr_size as u64));
    }
}

/// Reads the places of a subprocess's standard streams.
pub fn read_stdio(object: &WireObject) -> (r: Option<SubprocessStdioBuffers>)
    ensures
        r == stdio_in(object@),
{
    match (
        object.read_u32("subprocess-stdin-offset"),
        object.read_u32("subprocess-stdin-size"),
        object.read_u32("subprocess-stdout-offset"),
        object.read_u32("subprocess-stdout-size"),
        object.read_u32("subprocess-stderr-offset"),
        object.read_u32("subprocess-stderr-size"),
    ) {
        (
            Ok(stdin_offset),
            Ok(stdin_size),
            Ok(stdout_offset),
            Ok(stdout_size),
            Ok(stderr_offset),
            Ok(stderr_size),
        ) => Some(
            SubprocessStdioBuffers {
                stdin_offset,
                stdin_size,
                stdout_offset,
                stdout_size,
                stderr_offset,
                stderr_size,
            },
        ),
        _ => None,
    }
}

/// The name of the field that holds one thing about the `i`-th inherited pipe.
fn indexed_name(prefix: &str, i: usize) -> (r: String)
    ensures
        r@ == indexed(prefix@, i as nat),
{
    let number = text::to_decimal(i as u64);
    text::joined(prefix, number.as_str())
}

/// Adds the inherited pipes.
pub fn set_fork_pipes(object: &mut WireObject, pipes: Option<ForkPipeBuffers>)
    ensures
        final(object)@ == with_fork_pipes(old(object)@, optional_fork_pipes(pipes)),
{
    if let Some(pipes) = pipes {
        let count: u64 = pipes.buffers.len() as u64 % 0x1_0000_0000;
        object.set("fork-pipe-count", WireValue::Number(count));
        let ghost fields = object@;
        let mut i: usize = 0;
        while i < pipes.buffers.len()
            invariant
                i <= pipes.buffers@.len(),
                object@ == with_first_pipes(fields, pipes.buffers@, i as nat),
            decreases pipes.buffers@.len() - i,
        {
            let (fd, is_tx, pool_offset, buffer_size) = pipes.buffers[i];
            object.set(
                indexed_name("fork-pipe-fd-", i).as_str(),
                WireValue::Number(fd as u64),
            );
            object.set(indexed_name("fork-pipe-is-tx-", i).as_str(), WireValue::Bool(is_tx));
            object.set(
                indexed_name("fork-pipe-offset-", i).as_str(),
                WireValue::Number(pool_offset as u64),
            );
            object.set(
                indexed_name("fork-pipe-size-", i).as_str(),
                WireValue::Number(buffer_size as u64),
            );
            i = i + 1;
        }
    }
}

/// Reads the `i`-th inherited pipe.
fn read_pipe(object: &WireObject, i: usize) -> (r: Result<(u32, bool, u32, u32), WireError>)
    ensures
        wire::agrees(r, pipe_in(object@, i as nat)),
{
    let fd = match object.read_u32(indexed_name("fork-pipe-fd-", i).as_str()) {
        Ok(fd) => fd,
        Err(e) => return Err(e),
    };
    let is_tx = match object.read_bool(indexed_name("fork-pipe-is-tx-", i).as_str()) {
        Ok(is_tx) => is_tx,
        Err(e) => return Err(e),
    };
    let pool_offset = match object.read_u32(indexed_name("fork-pipe-offset-", i).as_str()) {
        Ok(pool_offset) => pool_offset,
        Err(e) => return Err(e),
    };
    let buffer_size = match object.read_u32(indexed_name("fork-pipe-size-", i).as_str()) {
        Ok(buffer_size) => buffer_size,
        Err(e) => return Err(e),
    };
    Ok((fd, is_tx, pool_offset, buffer_size))
}

/// Reads the inherited pipes.
pub fn read_fork_pipes(object: &WireObject) -> (r: Result<Option<ForkPipeBuffers>, WireError>)
    ensures
        match (fork_pipes_in(object@), r) {
            (Ok(expected), Ok(pipes)) => optional_fork_pipes(pipes) == expected,
            (Err(e), Err(f)) => f@ == e,
            _ => false,
        },
{
    let count = match object.read_u32("fork-pipe-count") {
        Ok(count) => count,
        Err(_) => return Ok(None),
    };
    let mut buffers: Vec<(u32, bool, u32, u32)> = Vec::new();
    let mut i: usize = 0;
    while i < count as usize
        invariant
            i <= count,
            first_pipes_in(object@, i as nat) == Ok::<Seq<(u32, bool, u32, u32)>, WireFault>(
                buffers@,
            ),
            wire::u32_field(object@, "fork-pipe-count"@) == Ok::<u32, WireFault>(count),
        decreases count - i,
    {
        match read_pipe(object, i) {
            Ok(pipe) => buffers.push(pipe),
            Err(e) => {
                proof {
                    lemma_first_fault_stays(object@, (i + 1) as nat, count as nat);
                }
                return Err(e);
            },
        }
        i = i + 1;
    }
    let r = ForkPipeBuffers { buffers, all_fds_debug: String::new() };
    assert(r@.all_fds_debug =~= Seq::<char>::empty());
    Ok(Some(r))
}

/// A fault among the first pipes is the fault of all of them.
proof fn lemma_first_fault_stays(fields: wire::Fields, n: nat, m: nat)
    requires
        n <= m,
        first_pipes_in(fields, n) is Err,
    ensures
        first_pipes_in(fields, m) == first_pipes_in(fields, n),
    decreases m,
{
    if n < m {
        lemma_first_fault_stays(fields, n, (m - 1) as nat);
    }
}

// ---------------------------------------------------------------------------
// Encoding
// ---------------------------------------------------------------------------

/// The types of the messages that a worker understands.
#[derive(Debug, Clone, Copy)]
pub enum PayloadKind {
    SpawnAsync,
    SpawnBlocking,
    CacheModule,
    SpawnWithModule,
    SpawnWithModuleAndMemory,
    HostExecStartResponse,
    HostExecReadResponse,
}

/// The text of a message type.
pub open spec fn payload_type(kind: PayloadKind) -> Seq<char> {
    match kind {
        PayloadKind::SpawnAsync => "spawn-async"@,
        PayloadKind::SpawnBlocking => "spawn-blocking"@,
        PayloadKind::CacheModule => "cache-module"@,
        PayloadKind::SpawnWithModule => "spawn-with-module"@,
        PayloadKind::SpawnWithModuleAndMemory => "spawn-with-module-and-memory"@,
        PayloadKind::HostExecStartResponse => "host-exec-start-response"@,
        PayloadKind::HostExecReadResponse => "host-exec-read-response"@,
    }
}

/// The message type that a text names.
pub open spec fn payload_kind(ty: Seq<char>) -> Option<PayloadKind> {
    if ty == "spawn-async"@ {
        Some(PayloadKind::SpawnAsync)
    } else if ty == "spawn-blocking"@ {
        Some(PayloadKind::SpawnBlocking)
    } else if ty == "cache-module"@ {
        Some(PayloadKind::CacheModule)
    } else if ty == "spawn-with-module"@ {
        Some(PayloadKind::SpawnWithModule)
    } else if ty == "spawn-with-module-and-memory"@ {
        Some(PayloadKind::SpawnWithModuleAndMemory)
    } else if ty == "host-exec-start-response"@ {
        Some(PayloadKind::HostExecStartResponse)
    } else if ty == "host-exec-read-response"@ {
        Some(PayloadKind::HostExecReadResponse)
    } else {
        None
    }
}

/// The object that a message travels in.
pub open spec fn encoded(payload: PayloadView) -> wire::Fields {
    match payload {
        PayloadView::AsyncThunk(task) => wire::typed("spawn-async"@).insert(
            "ptr"@,
            WireView::BigInt(task),
        ),
        PayloadView::BlockingThunk(task) => wire::typed("spawn-blocking"@).insert(
            "ptr"@,
            WireView::BigInt(task),
        ),
        PayloadView::SpawnWithModule { module, task } => wire::typed("spawn-with-module"@).insert(
            "ptr"@,
            WireView::BigInt(task),
        ).insert("module"@, WireView::Module(module)),
        PayloadView::SpawnWithModuleAndMemory {
            module,
            memory,
            spawn_wasm,
            subprocess_stdio,
            fork_pipes,
        } => with_fork_pipes(
            with_stdio(
                wire::typed("spawn-with-module-and-memory"@).insert(
                    "ptr"@,
                    WireView::BigInt(spawn_wasm),
                ).insert("module"@, WireView::Module(module)).insert(
                    "memory"@,
                    match memory {
                        Some(memory) => WireView::Memory(memory),
                        None => WireView::Other,
                    },
                ),
                subprocess_stdio,
            ),
            fork_pipes,
        ),
        PayloadView::CacheModule { hash, module } => wire::typed("cache-module"@).insert(
            "module-hash"@,
            WireView::Text(module_hash::hex_encoded(hash.bytes())),
        ).insert("module"@, WireView::Module(module)),
        PayloadView::HostExecStartResponse { request_id, result } => {
            let fields = wire::typed("host-exec-start-response"@).insert(
                "request-id"@,
                WireView::BigInt(request_id),
            );
            match result {
                Ok(session_id) => fields.insert("session-id"@, WireView::BigInt(session_id)),
                Err(error) => fields.insert("error"@, WireView::Text(error)),
            }
        },
        PayloadView::HostExecReadResponse { request_id, result } => {
            let fields = wire::typed("host-exec-read-response"@).insert(
                "request-id"@,
                WireView::BigInt(request_id),
            );
            match result {
                Ok((msg_type, data)) => fields.insert(
                    "msg-type"@,
                    WireView::Number(msg_type as u64),
                ).insert("data"@, WireView::Bytes(data)),
                Err(error) => fields.insert("error"@, WireView::Text(error)),
            }
        },
    }
}

/// The module hash in an object.
pub open spec fn hash_in(fields: wire::Fields) -> Result<HashView, WireFault> {
    match wire::text_field(fields, "module-hash"@) {
        Err(e) => Err(e),
        Ok(text) => match module_hash::parsed_hash(text) {
            Err(e) => Err(WireFault::Hash(e)),
            Ok(hash) => Ok(hash),
        },
    }
}

/// The message of a known type in an object.
pub open spec fn decoded_as(kind: PayloadKind, fields: wire::Fields) -> Result<
    PayloadView,
    WireFault,
> {
    match kind {
        PayloadKind::SpawnAsync => match wire::boxed_field(fields, "ptr"@) {
            Err(e) => Err(e),
            Ok(task) => Ok(PayloadView::AsyncThunk(task)),
        },
        PayloadKind::SpawnBlocking => match wire::boxed_field(fields, "ptr"@) {
            Err(e) => Err(e),
            Ok(task) => Ok(PayloadView::BlockingThunk(task)),
        },
        PayloadKind::CacheModule => match wire::module_field(fields, "module"@) {
            Err(e) => Err(e),
            Ok(module) => match hash_in(fields) {
                Err(e) => Err(e),
                Ok(hash) => Ok(PayloadView::CacheModule { hash, module }),
            },
        },
        PayloadKind::SpawnWithModule => match wire::boxed_field(fields, "ptr"@) {
            Err(e) => Err(e),
            Ok(task) => match wire::module_field(fields, "module"@) {
                Err(e) => Err(e),
                Ok(module) => Ok(PayloadView::SpawnWithModule { module, task }),
            },
        },
        PayloadKind::SpawnWithModuleAndMemory => match wire::module_field(fields, "module"@) {
            Err(e) => Err(e),
            Ok(module) => match wire::boxed_field(fields, "ptr"@) {
                Err(e) => Err(e),
                Ok(spawn_wasm) => match fork_pipes_in(fields) {
                    Err(e) => Err(e),
                    Ok(fork_pipes) => Ok(
                        PayloadView::SpawnWithModuleAndMemory {
                            module,
                            memory: match wire::memory_field(fields, "memory"@) {
                                Ok(memory) => Some(memory),
                                Err(_) => None,
                            },
                            spawn_wasm,
                            subprocess_stdio: stdio_in(fields),
                            fork_pipes,
                        },
                    ),
                },
            },
        },
        PayloadKind::HostExecStartResponse => match wire::u64_field(fields, "request-id"@) {
            Err(e) => Err(e),
            Ok(request_id) => match wire::u64_field(fields, "session-id"@) {
                Ok(session_id) => Ok(
                    PayloadView::HostExecStartResponse { request_id, result: Ok(session_id) },
                ),
                Err(_) => match wire::text_field(fields, "error"@) {
                    Err(e) => Err(e),
                    Ok(error) => Ok(
                        PayloadView::HostExecStartResponse { request_id, result: Err(error) },
                    ),
                },
            },
        },
        PayloadKind::HostExecReadResponse => match wire::u64_field(fields, "request-id"@) {
            Err(e) => Err(e),
            Ok(request_id) => match wire::u32_field(fields, "msg-type"@) {
                Ok(msg_type) => match wire::bytes_field(fields, "data"@) {
                    Err(e) => Err(e),
                    Ok(data) => Ok(
                        PayloadView::HostExecReadResponse {
                            request_id,
                            result: Ok((msg_type, data)),
                        },
                    ),
                },
                Err(_) => match wire::text_field(fields, "error"@) {
                    Err(e) => Err(e),
                    Ok(error) => Ok(
                        PayloadView::HostExecReadResponse { request_id, result: Err(error) },
                    ),
                },
            },
        },
    }
}

/// The message in an object, or why there is none.
pub open spec fn decoded(fields: wire::Fields) -> Result<PayloadView, WireFault> {
    match wire::text_field(fields, "type"@) {
        Err(e) => Err(e),
        Ok(ty) => match payload_kind(ty) {
            None => Err(WireFault::UnknownType("Unknown message type: "@ + ty)),
            Some(kind) => decoded_as(kind, fields),
        },
    }
}

impl PayloadKind {
    /// Finds the message type that a text names.
    pub fn parse(ty: &str) -> (r: Option<PayloadKind>)
        ensures
            r == payload_kind(ty@),
    {
        if text::same_text(ty, "spawn-async") {
            Some(PayloadKind::SpawnAsync)
        } else if text::same_text(ty, "spawn-blocking") {
            Some(PayloadKind::SpawnBlocking)
        } else if text::same_text(ty, "cache-module") {
            Some(PayloadKind::CacheModule)
        } else if text::same_text(ty, "spawn-with-module") {
            Some(PayloadKind::SpawnWithModule)
        } else if text::same_text(ty, "spawn-with-module-and-memory") {
            Some(PayloadKind::SpawnWithModuleAndMemory)
        } else if text::same_text(ty, "host-exec-start-response") {
            Some(PayloadKind::HostExecStartResponse)
        } else if text::same_text(ty, "host-exec-read-response") {
            Some(PayloadKind::HostExecReadResponse)
        } else {
            None
        }
    }
}

/// Reads the module hash of an object.
pub fn read_hash(object: &WireObject) -> (r: Result<ModuleHash, WireError>)
    ensures
        match (hash_in(object@), r) {
            (Ok(hash), Ok(h)) => h@ == hash,
            (Err(e), Err(f)) => f@ == e,
            _ => false,
        },
{
    let text = match object.read_text("module-hash") {
        Ok(text) => text,
        Err(e) => return Err(e),
    };
    match ModuleHash::parse(text.as_str()) {
        Ok(hash) => Ok(hash),
        Err(e) => Err(WireError::Hash(e)),
    }
}

impl PostMessagePayload {
    /// Whether this keeps the worker that gets it busy.
    pub fn would_block(&self) -> (r: bool)
        ensures
            r == blocks(self@),
    {
        matches!(self, PostMessagePayload::Blocking(_))
    }

    /// Turns a message into the object that it travels in.
    pub fn into_js(self) -> (r: WireObject)
        ensures
            r@ == encoded(self@),
    {
        match self {
            PostMessagePayload::Async(AsyncJob::Thunk(task)) => {
                let mut object = WireObject::new("spawn-async");
                object.set("ptr", WireValue::BigInt(task));
                object
            },
            PostMessagePayload::Blocking(BlockingJob::Thunk(task)) => {
                let mut object = WireObject::new("spawn-blocking");
                object.set("ptr", WireValue::BigInt(task));
                object
            },
            PostMessagePayload::Blocking(BlockingJob::SpawnWithModule { module, task }) => {
                let mut object = WireObject::new("spawn-with-module");
                object.set("ptr", WireValue::BigInt(task));
                object.set("module", WireValue::Module(module));
                object
            },
            PostMessagePayload::Blocking(
                BlockingJob::SpawnWithModuleAndMemory {
                    module,
                    memory,
                    spawn_wasm,
                    subprocess_stdio,
                    fork_pipes,
                },
            ) => {
                let mut object = WireObject::new("spawn-with-module-and-memory");
                object.set("ptr", WireValue::BigInt(spawn_wasm));
                object.set("module", WireValue::Module(module));
                object.set(
                    "memory",
                    match memory {
                        Some(memory) => WireValue::Memory(memory),
                        None => WireValue::Other,
                    },
                );
                set_stdio(&mut object, subprocess_stdio);
                set_fork_pipes(&mut object, fork_pipes);
                object
            },
            PostMessagePayload::Notification(Notification::CacheModule { hash, module }) => {
                let mut object = WireObject::new("cache-module");
                object.set("module-hash", WireValue::Text(hash.to_text()));
                object.set("module", WireValue::Module(module));
                object
            },
            PostMessagePayload::HostExecStartResponse { request_id, result } => {
                let mut object = WireObject::new("host-exec-start-response");
                object.set("request-id", WireValue::BigInt(request_id));
                match result {
                    Ok(session_id) => object.set("session-id", WireValue::BigInt(session_id)),
                    Err(error) => object.set("error", WireValue::Text(error)),
                }
                object
            },
            PostMessagePayload::HostExecReadResponse { request_id, result } => {
                let mut object = WireObject::new("host-exec-read-response");
                object.set("request-id", WireValue::BigInt(request_id));
                match result {
                    Ok((msg_type, data)) => {
                        object.set("msg-type", WireValue::Number(msg_type as u64));
                        object.set("data", WireValue::Bytes(data));
                    },
                    Err(error) => object.set("error", WireValue::Text(error)),
                }
                object
            },
        }
    }

    /// Reads a message of a known type out of an object.
    fn read_as(kind: PayloadKind, object: &WireObject) -> (r: Result<
        PostMessagePayload,
        WireError,
    >)
        ensures
            match (decoded_as(kind, object@), r) {
                (Ok(payload), Ok(p)) => p@ == payload,
                (Err(e), Err(f)) => f@ == e,
                _ => false,
            },
    {
        match kind {
            PayloadKind::SpawnAsync => match object.read_boxed("ptr") {
                Ok(task) => Ok(PostMessagePayload::Async(AsyncJob::Thunk(task))),
                Err(e) => Err(e),
            },
            PayloadKind::SpawnBlocking => match object.read_boxed("ptr") {
                Ok(task) => Ok(PostMessagePayload::Blocking(BlockingJob::Thunk(task))),
                Err(e) => Err(e),
            },
            PayloadKind::CacheModule => {
                let module = match object.read_module("module") {
                    Ok(module) => module,
                    Err(e) => return Err(e),
                };
                match read_hash(object) {
                    Ok(hash) => Ok(
                        PostMessagePayload::Notification(
                            Notification::CacheModule { hash, module },
                        ),
                    ),
                    Err(e) => Err(e),
                }
            },
            PayloadKind::SpawnWithModule => {
                let task = match object.read_boxed("ptr") {
                    Ok(task) => task,
                    Err(e) => return Err(e),
                };
                match object.read_module("module") {
                    Ok(module) => Ok(
                        PostMessagePayload::Blocking(
                            BlockingJob::SpawnWithModule { module, task },
                        ),
                    ),
                    Err(e) => Err(e),
                }
            },
            PayloadKind::SpawnWithModuleAndMemory => {
                let module = match object.read_module("module") {
                    Ok(module) => module,
                    Err(e) => return Err(e),
                };
                let memory = match object.read_memory("memory") {
                    Ok(memory) => Some(memory),
                    Err(_) => None,
                };
                let spawn_wasm = match object.read_boxed("ptr") {
                    Ok(spawn_wasm) => spawn_wasm,
                    Err(e) => return Err(e),
                };
                let subprocess_stdio = read_stdio(object);
                match read_fork_pipes(object) {
                    Ok(fork_pipes) => Ok(
                        PostMessagePayload::Blocking(
                            BlockingJob::SpawnWithModuleAndMemory {
                                module,
                                memory,
                                spawn_wasm,
                                subprocess_stdio,
                                fork_pipes,
                            },
                        ),
                    ),
                    Err(e) => Err(e),
                }
            },
            PayloadKind::HostExecStartResponse => {
                let request_id = match object.read_u64("request-id") {
                    Ok(request_id) => request_id,
                    Err(e) => return Err(e),
                };
                let result = match object.read_u64("session-id") {
                    Ok(session_id) => Ok(session_id),
                    Err(_) => match object.read_text("error") {
                        Ok(error) => Err(error),
                        Err(e) => return Err(e),
                    },
                };
                Ok(PostMessagePayload::HostExecStartResponse { request_id, result })
            },
            PayloadKind::HostExecReadResponse => {
                let request_id = match object.read_u64("request-id") {
                    Ok(request_id) => request_id,
                    Err(e) => return Err(e),
                };
                let result = match object.read_u32("msg-type") {
                    Ok(msg_type) => match object.read_bytes("data") {
                        Ok(data) => Ok((msg_type, data)),
                        Err(e) => return Err(e),
                    },
                    Err(_) => match object.read_text("error") {
                        Ok(error) => Err(error),
                        Err(e) => return Err(e),
                    },
                };
                Ok(PostMessagePayload::HostExecReadResponse { request_id, result })
            },
        }
    }

    /// Reads the message that travelled in an object.
    pub fn try_from_js(object: &WireObject) -> (r: Result<PostMessagePayload, WireError>)
        ensures
            match (decoded(object@), r) {
                (Ok(payload), Ok(p)) => p@ == payload,
                (Err(e), Err(f)) => f@ == e,
                _ => false,
            },
    {
        let ty = match object.read_text("type") {
            Ok(ty) => ty,
            Err(e) => return Err(e),
        };
        match PayloadKind::parse(ty.as_str()) {
            Some(kind) => PostMessagePayload::read_as(kind, object),
            None => Err(
                WireError::UnknownType(text::joined("Unknown message type: ", ty.as_str())),
            ),
        }
    }
}

// ---------------------------------------------------------------------------
// Laws
// ---------------------------------------------------------------------------

/// Every message type is recognised by its own text.
pub proof fn lemma_payload_types(kind: PayloadKind)
    ensures
        payload_kind(payload_type(kind)) == Some(kind),
{
    reveal_strlit("spawn-async");
    assert("spawn-async"@.len() == 11);
    reveal_strlit("spawn-blocking");
    assert("spawn-blocking"@.len() == 14);
    reveal_strlit("cache-module");
    assert("cache-module"@.len() == 12);
    reveal_strlit("spawn-with-module");
    assert("spawn-with-module"@.len() == 17);
    reveal_strlit("spawn-with-module-and-memory");
    assert("spawn-with-module-and-memory"@.len() == 28);
    reveal_strlit("host-exec-start-response");
    assert("host-exec-start-response"@.len() == 24);
    reveal_strlit("host-exec-read-response");
    assert("host-exec-read-response"@.len() == 23);
    assert("host-exec-start-response"@[10] != "host-exec-read-response"@[10]);
}

/// The names of the fields about inherited pipes differ from one another.
proof fn lemma_pipe_names(i: nat, j: nat)
    ensures
        indexed("fork-pipe-fd-"@, i) == indexed("fork-pipe-fd-"@, j) ==> i == j,
        indexed("fork-pipe-is-tx-"@, i) == indexed("fork-pipe-is-tx-"@, j) ==> i == j,
        indexed("fork-pipe-offset-"@, i) == indexed("fork-pipe-offset-"@, j) ==> i == j,
        indexed("fork-pipe-size-"@, i) == indexed("fork-pipe-size-"@, j) ==> i == j,
        indexed("fork-pipe-fd-"@, i)[0] == 'f' && indexed("fork-pipe-fd-"@, i)[10] == 'f',
        indexed("fork-pipe-is-tx-"@, i)[0] == 'f' && indexed("fork-pipe-is-tx-"@, i)[10] == 'i',
        indexed("fork-pipe-offset-"@, i)[0] == 'f' && indexed("fork-pipe-offset-"@, i)[10] == 'o',
        indexed("fork-pipe-size-"@, i)[0] == 'f' && indexed("fork-pipe-size-"@, i)[10] == 's',
        "fork-pipe-count"@[0] == 'f' && "fork-pipe-count"@[10] == 'c',
{
    reveal_strlit("fork-pipe-fd-");
    assert("fork-pipe-fd-"@.len() == 13);
    reveal_strlit("fork-pipe-is-tx-");
    assert("fork-pipe-is-tx-"@.len() == 16);
    reveal_strlit("fork-pipe-offset-");
    assert("fork-pipe-offset-"@.len() == 17);
    reveal_strlit("fork-pipe-size-");
    assert("fork-pipe-size-"@.len() == 15);
    reveal_strlit("fork-pipe-count");
    assert("fork-pipe-count"@.len() == 15);
    lemma_indexed_injective("fork-pipe-fd-"@, i, j);
    lemma_indexed_injective("fork-pipe-is-tx-"@, i, j);
    lemma_indexed_injective("fork-pipe-offset-"@, i, j);
    lemma_indexed_injective("fork-pipe-size-"@, i, j);
}

proof fn lemma_indexed_injective(prefix: Seq<char>, i: nat, j: nat)
    ensures
        indexed(prefix, i) == indexed(prefix, j) ==> i == j,
{
    if indexed(prefix, i) == indexed(prefix, j) {
        assert(indexed(prefix, i).skip(prefix.len() as int) =~= text::decimal(i));
        assert(indexed(prefix, j).skip(prefix.len() as int) =~= text::decimal(j));
        text::lemma_decimal_injective(i, j);
    }
}

/// Inherited pipes are found where they were put, and no other field changes.
proof fn lemma_first_pipes_found(
    fields: wire::Fields,
    buffers: Seq<(u32, bool, u32, u32)>,
    n: nat,
)
    requires
        n <= buffers.len(),
    ensures
        forall|i: nat|
            i < n ==> #[trigger] pipe_in(with_first_pipes(fields, buffers, n), i) == Ok::<
                (u32, bool, u32, u32),
                WireFault,
            >(buffers[i as int]),
        forall|name: Seq<char>|
            #![trigger with_first_pipes(fields, buffers, n).contains_key(name)]
            name[0] != 'f' || name[10] == 'c' ==> {
                let after = with_first_pipes(fields, buffers, n);
                &&& after.contains_key(name) == fields.contains_key(name)
                &&& after[name] == fields[name]
            },
    decreases n,
{
    if n > 0 {
        let last = (n - 1) as nat;
        let before = with_first_pipes(fields, buffers, last);
        let after = with_first_pipes(fields, buffers, n);
        lemma_first_pipes_found(fields, buffers, last);
        lemma_pipe_names(last, last);
        assert forall|i: nat| i < n implies #[trigger] pipe_in(after, i) == Ok::<
            (u32, bool, u32, u32),
            WireFault,
        >(buffers[i as int]) by {
            lemma_pipe_names(i, last);
            if i < last {
                assert(pipe_in(before, i) == Ok::<(u32, bool, u32, u32), WireFault>(
                    buffers[i as int],
                ));
                assert(after[indexed("fork-pipe-fd-"@, i)] == before[indexed("fork-pipe-fd-"@, i)]);
                assert(after[indexed("fork-pipe-is-tx-"@, i)] == before[indexed(
                    "fork-pipe-is-tx-"@,
                    i,
                )]);
                assert(after[indexed("fork-pipe-offset-"@, i)] == before[indexed(
                    "fork-pipe-offset-"@,
                    i,
                )]);
                assert(after[indexed("fork-pipe-size-"@, i)] == before[indexed(
                    "fork-pipe-size-"@,
                    i,
                )]);
            }
        }
    }
}

/// Pipes that are each found are found together.
proof fn lemma_pipes_collected(
    fields: wire::Fields,
    buffers: Seq<(u32, bool, u32, u32)>,
    n: nat,
)
    requires
        n <= buffers.len(),
        forall|i: nat|
            i < n ==> #[trigger] pipe_in(fields, i) == Ok::<(u32, bool, u32, u32), WireFault>(
                buffers[i as int],
            ),
    ensures
        first_pipes_in(fields, n) == Ok::<Seq<(u32, bool, u32, u32)>, WireFault>(
            buffers.take(n as int),
        ),
    decreases n,
{
    if n > 0 {
        let last = (n - 1) as nat;
        lemma_pipes_collected(fields, buffers, last);
        assert(pipe_in(fields, last) == Ok::<(u32, bool, u32, u32), WireFault>(
            buffers[last as int],
        ));
        assert(buffers.take(last as int).push(buffers[last as int]) =~= buffers.take(n as int));
    } else {
        assert(buffers.take(0) =~= Seq::empty());
    }
}

/// A subprocess's streams and inherited pipes are read back as they were
/// written, next to the fields that were there before. Only the debugging text
/// of the pipes is lost.
pub proof fn lemma_spawn_fields_round_trip(
    fields: wire::Fields,
    stdio: Option<SubprocessStdioBuffers>,
    pipes: Option<ForkPipesView>,
    name: Seq<char>,
)
    requires
        forall|n: Seq<char>|
            #[trigger] fields.contains_key(n) ==> n.len() > 0 && n[0] != 'f' && n[0] != 's',
        pipes is Some ==> pipes->0.buffers.len() <= u32::MAX,
        name.len() > 0 && name[0] != 'f' && name[0] != 's',
    ensures
        ({
            let after = with_fork_pipes(with_stdio(fields, stdio), pipes);
            &&& stdio_in(after) == stdio
            &&& fork_pipes_in(after) == Ok::<Option<ForkPipesView>, WireFault>(
                received_fork_pipes(pipes),
            )
            &&& after.contains_key(name) == fields.contains_key(name)
            &&& after[name] == fields[name]
        }),
{
    reveal_strlit("subprocess-stdin-offset");
    assert("subprocess-stdin-offset"@.len() == 23);
    reveal_strlit("subprocess-stdin-size");
    assert("subprocess-stdin-size"@.len() == 21);
    reveal_strlit("subprocess-stdout-offset");
    assert("subprocess-stdout-offset"@.len() == 24);
    reveal_strlit("subprocess-stdout-size");
    assert("subprocess-stdout-size"@.len() == 22);
    reveal_strlit("subprocess-stderr-offset");
    assert("subprocess-stderr-offset"@.len() == 24);
    reveal_strlit("subprocess-stderr-size");
    assert("subprocess-stderr-size"@.len() == 22);
    assert("subprocess-stdout-offset"@[14] != "subprocess-stderr-offset"@[14]);
    assert("subprocess-stdout-size"@[14] != "subprocess-stderr-size"@[14]);
    lemma_pipe_names(0, 0);
    let middle = with_stdio(fields, stdio);
    let after = with_fork_pipes(middle, pipes);
    assert(stdio_in(middle) == stdio);
    assert(!middle.contains_key("fork-pipe-count"@));
    if pipes is Some {
        let buffers = pipes->0.buffers;
        let counted = middle.insert(
            "fork-pipe-count"@,
            WireView::Number((buffers.len() % 0x1_0000_0000) as u64),
        );
        lemma_first_pipes_found(counted, buffers, buffers.len());
        lemma_pipes_collected(after, buffers, buffers.len());
        assert(buffers.take(buffers.len() as int) =~= buffers);
        assert(after.contains_key("fork-pipe-count"@));
        assert(after.contains_key("subprocess-stdin-offset"@) == counted.contains_key(
            "subprocess-stdin-offset"@,
        ));
        assert(after.contains_key("subprocess-stdin-size"@) == counted.contains_key(
            "subprocess-stdin-size"@,
        ));
        assert(after.contains_key("subprocess-stdout-offset"@) == counted.contains_key(
            "subprocess-stdout-offset"@,
        ));
        assert(after.contains_key("subprocess-stdout-size"@) == counted.contains_key(
            "subprocess-stdout-size"@,
        ));
        assert(after.contains_key("subprocess-stderr-offset"@) == counted.contains_key(
            "subprocess-stderr-offset"@,
        ));
        assert(after.contains_key("subprocess-stderr-size"@) == counted.contains_key(
            "subprocess-stderr-size"@,
        ));
        assert(after.contains_key(name) == counted.contains_key(name));
    }
}

/// A message as it arrives: all of it but the debugging text of inherited
/// pipes.
pub open spec fn received(payload: PayloadView) -> PayloadView {
    match payload {
        PayloadView::SpawnWithModuleAndMemory {
            module,
            memory,
            spawn_wasm,
            subprocess_stdio,
            fork_pipes,
        } => PayloadView::SpawnWithModuleAndMemory {
            module,
            memory,
            spawn_wasm,
            subprocess_stdio,
            fork_pipes: received_fork_pipes(fork_pipes),
        },
        _ => payload,
    }
}

/// Whether a message can be sent whole: its hash has the length of its kind,
/// and its pipes can be counted in 32 bits.
pub open spec fn sendable(payload: PayloadView) -> bool {
    match payload {
        PayloadView::CacheModule { hash, .. } => hash.well_formed(),
        PayloadView::SpawnWithModuleAndMemory { fork_pipes, .. } => fork_pipes is Some
            ==> fork_pipes->0.buffers.len() <= u32::MAX,
        _ => true,
    }
}

/// Every message from the scheduler is read back by the worker as it was sent.
pub proof fn law_payload_round_trip(payload: PayloadView)
    requires
        sendable(payload),
    ensures
        decoded(encoded(payload)) == Ok::<PayloadView, WireFault>(received(payload)),
{
    reveal_strlit("type");
    assert("type"@.len() == 4);
    reveal_strlit("ptr");
    assert("ptr"@.len() == 3);
    reveal_strlit("module");
    assert("module"@.len() == 6);
    reveal_strlit("memory");
    assert("memory"@.len() == 6);
    reveal_strlit("module-hash");
    assert("module-hash"@.len() == 11);
    reveal_strlit("request-id");
    assert("request-id"@.len() == 10);
    reveal_strlit("session-id");
    assert("session-id"@.len() == 10);
    reveal_strlit("error");
    assert("error"@.len() == 5);
    reveal_strlit("msg-type");
    assert("msg-type"@.len() == 8);
    reveal_strlit("data");
    assert("data"@.len() == 4);
    assert("request-id"@[0] != "session-id"@[0]);
    assert("module"@[1] != "memory"@[1]);
    assert("type"@[0] != "data"@[0]);
    match payload {
        PayloadView::AsyncThunk(_) => {
            lemma_payload_types(PayloadKind::SpawnAsync);
        },
        PayloadView::BlockingThunk(_) => {
            lemma_payload_types(PayloadKind::SpawnBlocking);
        },
        PayloadView::SpawnWithModule { .. } => {
            lemma_payload_types(PayloadKind::SpawnWithModule);
        },
        PayloadView::SpawnWithModuleAndMemory {
            module,
            memory,
            spawn_wasm,
            subprocess_stdio,
            fork_pipes,
        } => {
            lemma_payload_types(PayloadKind::SpawnWithModuleAndMemory);
            let fields = wire::typed("spawn-with-module-and-memory"@).insert(
                "ptr"@,
                WireView::BigInt(spawn_wasm),
            ).insert("module"@, WireView::Module(module)).insert(
                "memory"@,
                match memory {
                    Some(memory) => WireView::Memory(memory),
                    None => WireView::Other,
                },
            );
            lemma_spawn_fields_round_trip(fields, subprocess_stdio, fork_pipes, "type"@);
            lemma_spawn_fields_round_trip(fields, subprocess_stdio, fork_pipes, "ptr"@);
            lemma_spawn_fields_round_trip(fields, subprocess_stdio, fork_pipes, "module"@);
            lemma_spawn_fields_round_trip(fields, subprocess_stdio, fork_pipes, "memory"@);
        },
        PayloadView::CacheModule { hash, .. } => {
            lemma_payload_types(PayloadKind::CacheModule);
            module_hash::law_hash_text_round_trip(hash);
        },
        PayloadView::HostExecStartResponse { .. } => {
            lemma_payload_types(PayloadKind::HostExecStartResponse);
        },
        PayloadView::HostExecReadResponse { .. } => {
            lemma_payload_types(PayloadKind::HostExecReadResponse);
        },
    }
}

} // verus!
