//! Messages to the scheduler.
use vstd::prelude::*;
use crate::tasks::module_hash;
use crate::tasks::module_hash::{HashView, ModuleHash};
use crate::tasks::post_message_payload;
use crate::tasks::post_message_payload::{ForkPipeBuffers, ForkPipesView, SubprocessStdioBuffers};
use crate::tasks::wire;
use crate::tasks::wire::{WireError, WireFault, WireObject, WireValue, WireView};
use crate::text;

verus! {

/// A message to the scheduler. Tasks, modules and memories are held by handle.
#[derive(Debug)]
pub enum SchedulerMessage {
    /// Close the scheduler.
    Close,
    /// Run a promise on a worker.
    SpawnAsync(u64),
    /// Run a blocking operation on a worker.
    SpawnBlocking(u64),
    /// Mark a worker as idle.
    WorkerIdle { worker_id: u32 },
    /// Mark a worker as busy.
    WorkerBusy { worker_id: u32 },
    /// Start a host execution.
    HostExecStart { worker_id: u32, request_id: u64, request_json: Vec<u8> },
    /// Read what a host process wrote, waiting for it.
    HostExecRead { worker_id: u32, request_id: u64, session_id: u64 },
    /// Write to the standard input of a host process.
    HostExecWrite { worker_id: u32, request_id: u64, session_id: u64, data: Vec<u8> },
    /// Close the standard input of a host process.
    HostExecCloseStdin { worker_id: u32, request_id: u64, session_id: u64 },
    /// Read what a host process wrote, without waiting.
    HostExecTryRead { worker_id: u32, request_id: u64, session_id: u64 },
    /// Ask whether there is something to read.
    HostExecPoll { worker_id: u32, request_id: u64, session_id: u64 },
    /// Signal a host process.
    HostExecSignal { worker_id: u32, request_id: u64, session_id: u64, signal: u32 },
    /// Hand the output of a child process to the host.
    HostExecChildOutput {
        worker_id: u32,
        request_id: u64,
        session_id: u64,
        child_id: u64,
        msg_type: u32,
        data: Vec<u8>,
    },
    /// A waiting read has its answer. The request id is the session's id. This
    /// stays within the scheduler's thread.
    HostExecReadComplete { worker_id: u32, request_id: u64, msg_type: u32, data: Vec<u8> },
    /// Tell all workers about a compiled module.
    CacheModule { hash: ModuleHash, module: u64 },
    /// Run a task with a module that is handed to the worker.
    SpawnWithModule { module: u64, task: u64 },
    /// Run a WebAssembly program with a module, and a memory where there is
    /// one, that are handed to the worker.
    SpawnWithModuleAndMemory {
        module: u64,
        memory: Option<u64>,
        spawn_wasm: u64,
        subprocess_stdio: Option<SubprocessStdioBuffers>,
        fork_pipes: Option<ForkPipeBuffers>,
    },
    /// Register a new pipe.
    PipeCreate { pipe_id: u64, worker_id: u32 },
    /// Write to a pipe.
    PipeWrite { pipe_id: u64, worker_id: u32, data: Vec<u8> },
    /// Read from a pipe, waiting for data.
    PipeRead { pipe_id: u64, worker_id: u32, max_len: u32 },
    /// Close the write end of a pipe.
    PipeClose { pipe_id: u64, worker_id: u32 },
}

/// What a [`SchedulerMessage`] says.
pub enum MessageView {
    Close,
    SpawnAsync(u64),
    SpawnBlocking(u64),
    WorkerIdle { worker_id: u32 },
    WorkerBusy { worker_id: u32 },
    HostExecStart { worker_id: u32, request_id: u64, request_json: Seq<u8> },
    HostExecRead { worker_id: u32, request_id: u64, session_id: u64 },
    HostExecWrite { worker_id: u32, request_id: u64, session_id: u64, data: Seq<u8> },
    HostExecCloseStdin { worker_id: u32, request_id: u64, session_id: u64 },
    HostExecTryRead { worker_id: u32, request_id: u64, session_id: u64 },
    HostExecPoll { worker_id: u32, request_id: u64, session_id: u64 },
    HostExecSignal { worker_id: u32, request_id: u64, session_id: u64, signal: u32 },
    HostExecChildOutput {
        worker_id: u32,
        request_id: u64,
        session_id: u64,
        child_id: u64,
        msg_type: u32,
        data: Seq<u8>,
    },
    HostExecReadComplete { worker_id: u32, request_id: u64, msg_type: u32, data: Seq<u8> },
    CacheModule { hash: HashView, module: u64 },
    SpawnWithModule { module: u64, task: u64 },
    SpawnWithModuleAndMemory {
        module: u64,
        memory: Option<u64>,
        spawn_wasm: u64,
        subprocess_stdio: Option<SubprocessStdioBuffers>,
        fork_pipes: Option<ForkPipesView>,
    },
    PipeCreate { pipe_id: u64, worker_id: u32 },
    PipeWrite { pipe_id: u64, worker_id: u32, data: Seq<u8> },
    PipeRead { pipe_id: u64, worker_id: u32, max_len: u32 },
    PipeClose { pipe_id: u64, worker_id: u32 },
}

impl View for SchedulerMessage {
    type V = MessageView;

    open spec fn view(&self) -> MessageView {
        match *self {
            SchedulerMessage::Close => MessageView::Close,
            SchedulerMessage::SpawnAsync(task) => MessageView::SpawnAsync(task),
            SchedulerMessage::SpawnBlocking(task) => MessageView::SpawnBlocking(task),
            SchedulerMessage::WorkerIdle { worker_id } => MessageView::WorkerIdle { worker_id },
            SchedulerMessage::WorkerBusy { worker_id } => MessageView::WorkerBusy { worker_id },
            SchedulerMessage::HostExecStart { worker_id, request_id, request_json } => {
                MessageView::HostExecStart { worker_id, request_id, request_json: request_json@ }
            },
            SchedulerMessage::HostExecRead { worker_id, request_id, session_id } => {
                MessageView::HostExecRead { worker_id, request_id, session_id }
            },
            SchedulerMessage::HostExecWrite { worker_id, request_id, session_id, data } => {
                MessageView::HostExecWrite { worker_id, request_id, session_id, data: data@ }
            },
            SchedulerMessage::HostExecCloseStdin { worker_id, request_id, session_id } => {
                MessageView::HostExecCloseStdin { worker_id, request_id, session_id }
            },
            SchedulerMessage::HostExecTryRead { worker_id, request_id, session_id } => {
                MessageView::HostExecTryRead { worker_id, request_id, session_id }
            },
            SchedulerMessage::HostExecPoll { worker_id, request_id, session_id } => {
                MessageView::HostExecPoll { worker_id, request_id, session_id }
            },
            SchedulerMessage::HostExecSignal { worker_id, request_id, session_id, signal } => {
                MessageView::HostExecSignal { worker_id, request_id, session_id, signal }
            },
            SchedulerMessage::HostExecChildOutput {
                worker_id,
                request_id,
                session_id,
                child_id,
                msg_type,
                data,
            } => MessageView::HostExecChildOutput {
                worker_id,
                request_id,
                session_id,
                child_id,
                msg_type,
                data: data@,
            },
            SchedulerMessage::HostExecReadComplete { worker_id, request_id, msg_type, data } => {
                MessageView::HostExecReadComplete { worker_id, request_id, msg_type, data: data@ }
            },
            SchedulerMessage::CacheModule { hash, module } => MessageView::CacheModule {
                hash: hash@,
                module,
            },
            SchedulerMessage::SpawnWithModule { module, task } => MessageView::SpawnWithModule {
                module,
                task,
            },
            SchedulerMessage::SpawnWithModuleAndMemory {
                module,
                memory,
                spawn_wasm,
                subprocess_stdio,
                fork_pipes,
            } => MessageView::SpawnWithModuleAndMemory {
                module,
                memory,
                spawn_wasm,
                subprocess_stdio,
                fork_pipes: post_message_payload::optional_fork_pipes(fork_pipes),
            },
            SchedulerMessage::PipeCreate { pipe_id, worker_id } => MessageView::PipeCreate {
                pipe_id,
                worker_id,
            },
            SchedulerMessage::PipeWrite { pipe_id, worker_id, data } => MessageView::PipeWrite {
                pipe_id,
                worker_id,
                data: data@,
            },
            SchedulerMessage::PipeRead { pipe_id, worker_id, max_len } => MessageView::PipeRead {
                pipe_id,
                worker_id,
                max_len,
            },
            SchedulerMessage::PipeClose { pipe_id, worker_id } => MessageView::PipeClose {
                pipe_id,
                worker_id,
            },
        }
    }
}

/// The types of the messages that the scheduler understands.
#[derive(Debug, Clone, Copy)]
pub enum MessageKind {
    SpawnAsync,
    SpawnBlocking,
    WorkerIdle,
    WorkerBusy,
    CacheModule,
    SpawnWithModule,
    SpawnWithModuleAndMemory,
    HostExecStart,
    HostExecRead,
    HostExecWrite,
    HostExecCloseStdin,
    HostExecTryRead,
    HostExecPoll,
    HostExecSignal,
    HostExecChildOutput,
    PipeCreate,
    PipeWrite,
    PipeRead,
    PipeClose,
}

/// The text of a message type.
pub open spec fn message_type(kind: MessageKind) -> Seq<char> {
    match kind {
        MessageKind::SpawnAsync => "spawn-async"@,
        MessageKind::SpawnBlocking => "spawn-blocking"@,
        MessageKind::WorkerIdle => "worker-idle"@,
        MessageKind::WorkerBusy => "worker-busy"@,
        MessageKind::CacheModule => "cache-module"@,
        MessageKind::SpawnWithModule => "spawn-with-module"@,
        MessageKind::SpawnWithModuleAndMemory => "spawn-with-module-and-memory"@,
        MessageKind::HostExecStart => "host-exec-start"@,
        MessageKind::HostExecRead => "host-exec-read"@,
        MessageKind::HostExecWrite => "host-exec-write"@,
        MessageKind::HostExecCloseStdin => "host-exec-close-stdin"@,
        MessageKind::HostExecTryRead => "host-exec-try-read"@,
        MessageKind::HostExecPoll => "host-exec-poll"@,
        MessageKind::HostExecSignal => "host-exec-signal"@,
        MessageKind::HostExecChildOutput => "host-exec-child-output"@,
        MessageKind::PipeCreate => "pipe-create"@,
        MessageKind::PipeWrite => "pipe-write"@,
        MessageKind::PipeRead => "pipe-read"@,
        MessageKind::PipeClose => "pipe-close"@,
    }
}

/// The message type that a text names.
pub open spec fn message_kind(ty: Seq<char>) -> Option<MessageKind> {
    if ty == "spawn-async"@ {
        Some(MessageKind::SpawnAsync)
    } else if ty == "spawn-blocking"@ {
        Some(MessageKind::SpawnBlocking)
    } else if ty == "worker-idle"@ {
        Some(MessageKind::WorkerIdle)
    } else if ty == "worker-busy"@ {
        Some(MessageKind::WorkerBusy)
    } else if ty == "cache-module"@ {
        Some(MessageKind::CacheModule)
    } else if ty == "spawn-with-module"@ {
        Some(MessageKind::SpawnWithModule)
    } else if ty == "spawn-with-module-and-memory"@ {
        Some(MessageKind::SpawnWithModuleAndMemory)
    } else if ty == "host-exec-start"@ {
        Some(MessageKind::HostExecStart)
    } else if ty == "host-exec-read"@ {
        Some(MessageKind::HostExecRead)
    } else if ty == "host-exec-write"@ {
        Some(MessageKind::HostExecWrite)
    } else if ty == "host-exec-close-stdin"@ {
        Some(MessageKind::HostExecCloseStdin)
    } else if ty == "host-exec-try-read"@ {
        Some(MessageKind::HostExecTryRead)
    } else if ty == "host-exec-poll"@ {
        Some(MessageKind::HostExecPoll)
    } else if ty == "host-exec-signal"@ {
        Some(MessageKind::HostExecSignal)
    } else if ty == "host-exec-child-output"@ {
        Some(MessageKind::HostExecChildOutput)
    } else if ty == "pipe-create"@ {
        Some(MessageKind::PipeCreate)
    } else if ty == "pipe-write"@ {
        Some(MessageKind::PipeWrite)
    } else if ty == "pipe-read"@ {
        Some(MessageKind::PipeRead)
    } else if ty == "pipe-close"@ {
        Some(MessageKind::PipeClose)
    } else {
        None
    }
}

/// The fields that every request about a host execution has.
pub open spec fn with_request(fields: wire::Fields, worker_id: u32, request_id: u64) -> wire::Fields {
    fields.insert("worker-id"@, WireView::Number(worker_id as u64)).insert(
        "request-id"@,
        WireView::BigInt(request_id),
    )
}

/// The fields that every request about a running host execution has.
pub open spec fn with_session(
    fields: wire::Fields,
    worker_id: u32,
    request_id: u64,
    session_id: u64,
) -> wire::Fields {
    with_request(fields, worker_id, request_id).insert("session-id"@, WireView::BigInt(session_id))
}

/// The fields that every request about a pipe has.
pub open spec fn with_pipe(fields: wire::Fields, pipe_id: u64, worker_id: u32) -> wire::Fields {
    fields.insert("pipe-id"@, WireView::BigInt(pipe_id)).insert(
        "worker-id"@,
        WireView::Number(worker_id as u64),
    )
}

/// The object that a message travels in. The answer to a waiting read does not
/// travel.
pub open spec fn encoded(message: MessageView) -> wire::Fields
    recommends
        !(message is HostExecReadComplete),
{
    match message {
        MessageView::Close => wire::typed("close"@),
        MessageView::SpawnAsync(task) => wire::typed("spawn-async"@).insert(
            "ptr"@,
            WireView::BigInt(task),
        ),
        MessageView::SpawnBlocking(task) => wire::typed("spawn-blocking"@).insert(
            "ptr"@,
            WireView::BigInt(task),
        ),
        MessageView::WorkerIdle { worker_id } => wire::typed("worker-idle"@).insert(
            "worker-id"@,
            WireView::Number(worker_id as u64),
        ),
        MessageView::WorkerBusy { worker_id } => wire::typed("worker-busy"@).insert(
            "worker-id"@,
            WireView::Number(worker_id as u64),
        ),
        MessageView::HostExecStart { worker_id, request_id, request_json } => with_request(
            wire::typed("host-exec-start"@),
            worker_id,
            request_id,
        ).insert("request-json"@, WireView::Bytes(request_json)),
        MessageView::HostExecRead { worker_id, request_id, session_id } => with_session(
            wire::typed("host-exec-read"@),
            worker_id,
            request_id,
            session_id,
        ),
        MessageView::HostExecWrite { worker_id, request_id, session_id, data } => with_session(
            wire::typed("host-exec-write"@),
            worker_id,
            request_id,
            session_id,
        ).insert("data"@, WireView::Bytes(data)),
        MessageView::HostExecCloseStdin { worker_id, request_id, session_id } => with_session(
            wire::typed("host-exec-close-stdin"@),
            worker_id,
            request_id,
            session_id,
        ),
        MessageView::HostExecTryRead { worker_id, request_id, session_id } => with_session(
            wire::typed("host-exec-try-read"@),
            worker_id,
            request_id,
            session_id,
        ),
        MessageView::HostExecPoll { worker_id, request_id, session_id } => with_session(
            wire::typed("host-exec-poll"@),
            worker_id,
            request_id,
            session_id,
        ),
        MessageView::HostExecSignal { worker_id, request_id, session_id, signal } => with_session(
            wire::typed("host-exec-signal"@),
            worker_id,
            request_id,
            session_id,
        ).insert("signal"@, WireView::Number(signal as u64)),
        MessageView::HostExecChildOutput {
            worker_id,
            request_id,
            session_id,
            child_id,
            msg_type,
            data,
        } => with_session(
            wire::typed("host-exec-child-output"@),
            worker_id,
            request_id,
            session_id,
        ).insert("child-id"@, WireView::BigInt(child_id)).insert(
            "msg-type"@,
            WireView::Number(msg_type as u64),
        ).insert("data"@, WireView::Bytes(data)),
        MessageView::HostExecReadComplete { .. } => Map::empty(),
        MessageView::CacheModule { hash, module } => wire::typed("cache-module"@).insert(
            "module-hash"@,
            WireView::Text(module_hash::hex_encoded(hash.bytes())),
        ).insert("module"@, WireView::Module(module)),
        MessageView::SpawnWithModule { module, task } => wire::typed("spawn-with-module"@).insert(
            "module"@,
            WireView::Module(module),
        ).insert("ptr"@, WireView::BigInt(task)),
        MessageView::SpawnWithModuleAndMemory {
            module,
            memory,
            spawn_wasm,
            subprocess_stdio,
            fork_pipes,
        } => {
            let fields = wire::typed("spawn-with-module-and-memory"@).insert(
                "module"@,
                WireView::Module(module),
            ).insert("ptr"@, WireView::BigInt(spawn_wasm));
            post_message_payload::with_fork_pipes(
                post_message_payload::with_stdio(
                    match memory {
                        Some(memory) => fields.insert("memory"@, WireView::Memory(memory)),
                        None => fields,
                    },
                    subprocess_stdio,
                ),
                fork_pipes,
            )
        },
        MessageView::PipeCreate { pipe_id, worker_id } => with_pipe(
            wire::typed("pipe-create"@),
            pipe_id,
            worker_id,
        ),
        MessageView::PipeWrite { pipe_id, worker_id, data } => with_pipe(
            wire::typed("pipe-write"@),
            pipe_id,
            worker_id,
        ).insert("data"@, WireView::Bytes(data)),
        MessageView::PipeRead { pipe_id, worker_id, max_len } => with_pipe(
            wire::typed("pipe-read"@),
            pipe_id,
            worker_id,
        ).insert("max-len"@, WireView::Number(max_len as u64)),
        MessageView::PipeClose { pipe_id, worker_id } => with_pipe(
            wire::typed("pipe-close"@),
            pipe_id,
            worker_id,
        ),
    }
}

/// What is known of the memory that a program asks for when its message
/// arrives.
#[derive(Debug, Clone, Copy)]
pub enum MemoryUse {
    /// The program does not share a memory.
    Unshared,
    /// The program shares a memory; `loads` says whether the one in its message
    /// can be taken over.
    Shared { loads: bool },
}

/// The memory that comes with a program.
pub open spec fn memory_in(fields: wire::Fields, memory_use: MemoryUse) -> Option<u64> {
    match memory_use {
        MemoryUse::Unshared => None,
        MemoryUse::Shared { loads } => match wire::memory_field(fields, "memory"@) {
            Ok(memory) => if loads {
                Some(memory)
            } else {
                None
            },
            Err(_) => None,
        },
    }
}

/// The worker and the request that a message names.
pub open spec fn request_in(fields: wire::Fields) -> Result<(u32, u64), WireFault> {
    match wire::u32_field(fields, "worker-id"@) {
        Err(e) => Err(e),
        Ok(worker_id) => match wire::u64_field(fields, "request-id"@) {
            Err(e) => Err(e),
            Ok(request_id) => Ok((worker_id, request_id)),
        },
    }
}

/// The worker, the request and the session that a message names.
pub open spec fn session_in(fields: wire::Fields) -> Result<(u32, u64, u64), WireFault> {
    match request_in(fields) {
        Err(e) => Err(e),
        Ok((worker_id, request_id)) => match wire::u64_field(fields, "session-id"@) {
            Err(e) => Err(e),
            Ok(session_id) => Ok((worker_id, request_id, session_id)),
        },
    }
}

/// The pipe and the worker that a message names.
pub open spec fn pipe_in(fields: wire::Fields) -> Result<(u64, u32), WireFault> {
    match wire::u64_field(fields, "pipe-id"@) {
        Err(e) => Err(e),
        Ok(pipe_id) => match wire::u32_field(fields, "worker-id"@) {
            Err(e) => Err(e),
            Ok(worker_id) => Ok((pipe_id, worker_id)),
        },
    }
}

/// The message of a known type in an object.
pub open spec fn decoded_as(
    kind: MessageKind,
    fields: wire::Fields,
    memory_use: MemoryUse,
) -> Result<MessageView, WireFault> {
    match kind {
        MessageKind::SpawnAsync => match wire::boxed_field(fields, "ptr"@) {
            Err(e) => Err(e),
            Ok(task) => Ok(MessageView::SpawnAsync(task)),
        },
        MessageKind::SpawnBlocking => match wire::boxed_field(fields, "ptr"@) {
            Err(e) => Err(e),
            Ok(task) => Ok(MessageView::SpawnBlocking(task)),
        },
        MessageKind::WorkerIdle => match wire::u32_field(fields, "worker-id"@) {
            Err(e) => Err(e),
            Ok(worker_id) => Ok(MessageView::WorkerIdle { worker_id }),
        },
        MessageKind::WorkerBusy => match wire::u32_field(fields, "worker-id"@) {
            Err(e) => Err(e),
            Ok(worker_id) => Ok(MessageView::WorkerBusy { worker_id }),
        },
        MessageKind::CacheModule => match post_message_payload::hash_in(fields) {
            Err(e) => Err(e),
            Ok(hash) => match wire::module_field(fields, "module"@) {
                Err(e) => Err(e),
                Ok(module) => Ok(MessageView::CacheModule { hash, module }),
            },
        },
        MessageKind::SpawnWithModule => match wire::module_field(fields, "module"@) {
            Err(e) => Err(e),
            Ok(module) => match wire::boxed_field(fields, "ptr"@) {
                Err(e) => Err(e),
                Ok(task) => Ok(MessageView::SpawnWithModule { module, task }),
            },
        },
        MessageKind::SpawnWithModuleAndMemory => match wire::boxed_field(fields, "ptr"@) {
            Err(e) => Err(e),
            Ok(spawn_wasm) => match wire::module_field(fields, "module"@) {
                Err(e) => Err(e),
                Ok(module) => match post_message_payload::fork_pipes_in(fields) {
                    Err(e) => Err(e),
                    Ok(fork_pipes) => Ok(
                        MessageView::SpawnWithModuleAndMemory {
                            module,
                            memory: memory_in(fields, memory_use),
                            spawn_wasm,
                            subprocess_stdio: post_message_payload::stdio_in(fields),
                            fork_pipes,
                        },
                    ),
                },
            },
        },
        MessageKind::HostExecStart => match request_in(fields) {
            Err(e) => Err(e),
            Ok((worker_id, request_id)) => match wire::bytes_field(fields, "request-json"@) {
                Err(e) => Err(e),
                Ok(request_json) => Ok(
                    MessageView::HostExecStart { worker_id, request_id, request_json },
                ),
            },
        },
        MessageKind::HostExecRead => match session_in(fields) {
            Err(e) => Err(e),
            Ok((worker_id, request_id, session_id)) => Ok(
                MessageView::HostExecRead { worker_id, request_id, session_id },
            ),
        },
        MessageKind::HostExecWrite => match session_in(fields) {
            Err(e) => Err(e),
            Ok((worker_id, request_id, session_id)) => match wire::bytes_field(fields, "data"@) {
                Err(e) => Err(e),
                Ok(data) => Ok(
                    MessageView::HostExecWrite { worker_id, request_id, session_id, data },
                ),
            },
        },
        MessageKind::HostExecCloseStdin => match session_in(fields) {
            Err(e) => Err(e),
            Ok((worker_id, request_id, session_id)) => Ok(
                MessageView::HostExecCloseStdin { worker_id, request_id, session_id },
            ),
        },
        MessageKind::HostExecTryRead => match session_in(fields) {
            Err(e) => Err(e),
            Ok((worker_id, request_id, session_id)) => Ok(
                MessageView::HostExecTryRead { worker_id, request_id, session_id },
            ),
        },
        MessageKind::HostExecPoll => match session_in(fields) {
            Err(e) => Err(e),
            Ok((worker_id, request_id, session_id)) => Ok(
                MessageView::HostExecPoll { worker_id, request_id, session_id },
            ),
        },
        MessageKind::HostExecSignal => match session_in(fields) {
            Err(e) => Err(e),
            Ok((worker_id, request_id, session_id)) => match wire::u32_field(fields, "signal"@) {
                Err(e) => Err(e),
                Ok(signal) => Ok(
                    MessageView::HostExecSignal { worker_id, request_id, session_id, signal },
                ),
            },
        },
        MessageKind::HostExecChildOutput => match session_in(fields) {
            Err(e) => Err(e),
            Ok((worker_id, request_id, session_id)) => match wire::u64_field(fields, "child-id"@) {
                Err(e) => Err(e),
                Ok(child_id) => match wire::u32_field(fields, "msg-type"@) {
                    Err(e) => Err(e),
                    Ok(msg_type) => match wire::bytes_field(fields, "data"@) {
                        Err(e) => Err(e),
                        Ok(data) => Ok(
                            MessageView::HostExecChildOutput {
                                worker_id,
                                request_id,
                                session_id,
                                child_id,
                                msg_type,
                                data,
                            },
                        ),
                    },
                },
            },
        },
        MessageKind::PipeCreate => match pipe_in(fields) {
            Err(e) => Err(e),
            Ok((pipe_id, worker_id)) => Ok(MessageView::PipeCreate { pipe_id, worker_id }),
        },
        MessageKind::PipeWrite => match pipe_in(fields) {
            Err(e) => Err(e),
            Ok((pipe_id, worker_id)) => match wire::bytes_field(fields, "data"@) {
                Err(e) => Err(e),
                Ok(data) => Ok(MessageView::PipeWrite { pipe_id, worker_id, data }),
            },
        },
        MessageKind::PipeRead => match pipe_in(fields) {
            Err(e) => Err(e),
            Ok((pipe_id, worker_id)) => match wire::u32_field(fields, "max-len"@) {
                Err(e) => Err(e),
                Ok(max_len) => Ok(MessageView::PipeRead { pipe_id, worker_id, max_len }),
            },
        },
        MessageKind::PipeClose => match pipe_in(fields) {
            Err(e) => Err(e),
            Ok((pipe_id, worker_id)) => Ok(MessageView::PipeClose { pipe_id, worker_id }),
        },
    }
}

/// The error's text for a type that is none of those known.
pub open spec fn unknown_type_text(ty: Seq<char>) -> Seq<char> {
    "Unknown message type, \""@ + ty + "\""@
}

/// The message in an object, or why there is none. A message to close the
/// scheduler is not among those that are understood.
pub open spec fn decoded(fields: wire::Fields, memory_use: MemoryUse) -> Result<
    MessageView,
    WireFault,
> {
    match wire::text_field(fields, "type"@) {
        Err(e) => Err(e),
        Ok(ty) => match message_kind(ty) {
            None => Err(WireFault::UnknownType(unknown_type_text(ty))),
            Some(kind) => decoded_as(kind, fields, memory_use),
        },
    }
}

impl MessageKind {
    /// Finds the message type that a text names.
    pub fn parse(ty: &str) -> (r: Option<MessageKind>)
        ensures
            r == message_kind(ty@),
    {
        if text::same_text(ty, "spawn-async") {
            Some(MessageKind::SpawnAsync)
        } else if text::same_text(ty, "spawn-blocking") {
            Some(MessageKind::SpawnBlocking)
        } else if text::same_text(ty, "worker-idle") {
            Some(MessageKind::WorkerIdle)
        } else if text::same_text(ty, "worker-busy") {
            Some(MessageKind::WorkerBusy)
        } else if text::same_text(ty, "cache-module") {
            Some(MessageKind::CacheModule)
        } else if text::same_text(ty, "spawn-with-module") {
            Some(MessageKind::SpawnWithModule)
        } else if text::same_text(ty, "spawn-with-module-and-memory") {
            Some(MessageKind::SpawnWithModuleAndMemory)
        } else if text::same_text(ty, "host-exec-start") {
            Some(MessageKind::HostExecStart)
        } else if text::same_text(ty, "host-exec-read") {
            Some(MessageKind::HostExecRead)
        } else if text::same_text(ty, "host-exec-write") {
            Some(MessageKind::HostExecWrite)
        } else if text::same_text(ty, "host-exec-close-stdin") {
            Some(MessageKind::HostExecCloseStdin)
        } else if text::same_text(ty, "host-exec-try-read") {
            Some(MessageKind::HostExecTryRead)
        } else if text::same_text(ty, "host-exec-poll") {
            Some(MessageKind::HostExecPoll)
        } else if text::same_text(ty, "host-exec-signal") {
            Some(MessageKind::HostExecSignal)
        } else if text::same_text(ty, "host-exec-child-output") {
            Some(MessageKind::HostExecChildOutput)
        } else if text::same_text(ty, "pipe-create") {
            Some(MessageKind::PipeCreate)
        } else if text::same_text(ty, "pipe-write") {
            Some(MessageKind::PipeWrite)
        } else if text::same_text(ty, "pipe-read") {
            Some(MessageKind::PipeRead)
        } else if text::same_text(ty, "pipe-close") {
            Some(MessageKind::PipeClose)
        } else {
            None
        }
    }
}

fn set_request(object: &mut WireObject, worker_id: u32, request_id: u64)
    ensures
        final(object)@ == with_request(old(object)@, worker_id, request_id),
{
    object.set("worker-id", WireValue::Number(worker_id as u64));
    object.set("request-id", WireValue::BigInt(request_id));
}

fn set_session(object: &mut WireObject, worker_id: u32, request_id: u64, session_id: u64)
    ensures
        final(object)@ == with_session(old(object)@, worker_id, request_id, session_id),
{
    set_request(object, worker_id, request_id);
    object.set("session-id", WireValue::BigInt(session_id));
}

fn set_pipe(object: &mut WireObject, pipe_id: u64, worker_id: u32)
    ensures
        final(object)@ == with_pipe(old(object)@, pipe_id, worker_id),
{
    object.set("pipe-id", WireValue::BigInt(pipe_id));
    object.set("worker-id", WireValue::Number(worker_id as u64));
}

fn read_request(object: &WireObject) -> (r: Result<(u32, u64), WireError>)
    ensures
        wire::agrees(r, request_in(object@)),
{
    let worker_id = match object.read_u32("worker-id") {
        Ok(worker_id) => worker_id,
        Err(e) => return Err(e),
    };
    match object.read_u64("request-id") {
        Ok(request_id) => Ok((worker_id, request_id)),
        Err(e) => Err(e),
    }
}

fn read_session(object: &WireObject) -> (r: Result<(u32, u64, u64), WireError>)
    ensures
        wire::agrees(r, session_in(object@)),
{
    let (worker_id, request_id) = match read_request(object) {
        Ok(request) => request,
        Err(e) => return Err(e),
    };
    match object.read_u64("session-id") {
        Ok(session_id) => Ok((worker_id, request_id, session_id)),
        Err(e) => Err(e),
    }
}

fn read_pipe(object: &WireObject) -> (r: Result<(u64, u32), WireError>)
    ensures
        wire::agrees(r, pipe_in(object@)),
{
    let pipe_id = match object.read_u64("pipe-id") {
        Ok(pipe_id) => pipe_id,
        Err(e) => return Err(e),
    };
    match object.read_u32("worker-id") {
        Ok(worker_id) => Ok((pipe_id, worker_id)),
        Err(e) => Err(e),
    }
}

impl SchedulerMessage {
    /// Turns a message into the object that it travels in. The answer to a
    /// waiting read never leaves the scheduler's thread, so it has none.
    pub fn into_js(self) -> (r: WireObject)
        requires
            !(self is HostExecReadComplete),
        ensures
            r@ == encoded(self@),
    {
        match self {
            SchedulerMessage::Close => WireObject::new("close"),
            SchedulerMessage::SpawnAsync(task) => {
                let mut object = WireObject::new("spawn-async");
                object.set("ptr", WireValue::BigInt(task));
                object
            },
            SchedulerMessage::SpawnBlocking(task) => {
                let mut object = WireObject::new("spawn-blocking");
                object.set("ptr", WireValue::BigInt(task));
                object
            },
            SchedulerMessage::WorkerIdle { worker_id } => {
                let mut object = WireObject::new("worker-idle");
                object.set("worker-id", WireValue::Number(worker_id as u64));
                object
            },
            SchedulerMessage::WorkerBusy { worker_id } => {
                let mut object = WireObject::new("worker-busy");
                object.set("worker-id", WireValue::Number(worker_id as u64));
                object
            },
            SchedulerMessage::CacheModule { hash, module } => {
                let mut object = WireObject::new("cache-module");
                object.set("module-hash", WireValue::Text(hash.to_text()));
                object.set("module", WireValue::Module(module));
                object
            },
            SchedulerMessage::SpawnWithModule { module, task } => {
                let mut object = WireObject::new("spawn-with-module");
                object.set("module", WireValue::Module(module));
                object.set("ptr", WireValue::BigInt(task));
                object
            },
            SchedulerMessage::SpawnWithModuleAndMemory {
                module,
                memory,
                spawn_wasm,
                subprocess_stdio,
                fork_pipes,
            } => {
                let mut object = WireObject::new("spawn-with-module-and-memory");
                object.set("module", WireValue::Module(module));
                object.set("ptr", WireValue::BigInt(spawn_wasm));
                if let Some(memory) = memory {
                    object.set("memory", WireValue::Memory(memory));
                }
                post_message_payload::set_stdio(&mut object, subprocess_stdio);
                post_message_payload::set_fork_pipes(&mut object, fork_pipes);
                object
            },
            SchedulerMessage::HostExecStart { worker_id, request_id, request_json } => {
                let mut object = WireObject::new("host-exec-start");
                set_request(&mut object, worker_id, request_id);
                object.set("request-json", WireValue::Bytes(request_json));
                object
            },
            SchedulerMessage::HostExecRead { worker_id, request_id, session_id } => {
                let mut object = WireObject::new("host-exec-read");
                set_session(&mut object, worker_id, request_id, session_id);
                object
            },
            SchedulerMessage::HostExecWrite { worker_id, request_id, session_id, data } => {
                let mut object = WireObject::new("host-exec-write");
                set_session(&mut object, worker_id, request_id, session_id);
                object.set("data", WireValue::Bytes(data));
                object
            },
            SchedulerMessage::HostExecCloseStdin { worker_id, request_id, session_id } => {
                let mut object = WireObject::new("host-exec-close-stdin");
                set_session(&mut object, worker_id, request_id, session_id);
                object
            },
            SchedulerMessage::HostExecTryRead { worker_id, request_id, session_id } => {
                let mut object = WireObject::new("host-exec-try-read");
                set_session(&mut object, worker_id, request_id, session_id);
                object
            },
            SchedulerMessage::HostExecPoll { worker_id, request_id, session_id } => {
                let mut object = WireObject::new("host-exec-poll");
                set_session(&mut object, worker_id, request_id, session_id);
                object
            },
            SchedulerMessage::HostExecSignal { worker_id, request_id, session_id, signal } => {
                let mut object = WireObject::new("host-exec-signal");
                set_session(&mut object, worker_id, request_id, session_id);
                object.set("signal", WireValue::Number(signal as u64));
                object
            },
            SchedulerMessage::HostExecChildOutput {
                worker_id,
                request_id,
                session_id,
                child_id,
                msg_type,
                data,
            } => {
                let mut object = WireObject::new("host-exec-child-output");
                set_session(&mut object, worker_id, request_id, session_id);
                object.set("child-id", WireValue::BigInt(child_id));
                object.set("msg-type", WireValue::Number(msg_type as u64));
                object.set("data", WireValue::Bytes(data));
                object
            },
            SchedulerMessage::HostExecReadComplete { .. } => WireObject::empty(),
            SchedulerMessage::PipeCreate { pipe_id, worker_id } => {
                let mut object = WireObject::new("pipe-create");
                set_pipe(&mut object, pipe_id, worker_id);
                object
            },
            SchedulerMessage::PipeWrite { pipe_id, worker_id, data } => {
                let mut object = WireObject::new("pipe-write");
                set_pipe(&mut object, pipe_id, worker_id);
                object.set("data", WireValue::Bytes(data));
                object
            },
            SchedulerMessage::PipeRead { pipe_id, worker_id, max_len } => {
                let mut object = WireObject::new("pipe-read");
                set_pipe(&mut object, pipe_id, worker_id);
                object.set("max-len", WireValue::Number(max_len as u64));
                object
            },
            SchedulerMessage::PipeClose { pipe_id, worker_id } => {
                let mut object = WireObject::new("pipe-close");
                set_pipe(&mut object, pipe_id, worker_id);
                object
            },
        }
    }

    /// Reads a message of a known type out of an object.
    fn read_as(kind: MessageKind, object: &WireObject, memory_use: MemoryUse) -> (r: Result<
        SchedulerMessage,
        WireError,
    >)
        ensures
            match (decoded_as(kind, object@, memory_use), r) {
                (Ok(message), Ok(m)) => m@ == message,
                (Err(e), Err(f)) => f@ == e,
                _ => false,
            },
    {
        match kind {
            MessageKind::SpawnAsync => match object.read_boxed("ptr") {
                Ok(task) => Ok(SchedulerMessage::SpawnAsync(task)),
                Err(e) => Err(e),
            },
            MessageKind::SpawnBlocking => match object.read_boxed("ptr") {
                Ok(task) => Ok(SchedulerMessage::SpawnBlocking(task)),
                Err(e) => Err(e),
            },
            MessageKind::WorkerIdle => match object.read_u32("worker-id") {
                Ok(worker_id) => Ok(SchedulerMessage::WorkerIdle { worker_id }),
                Err(e) => Err(e),
            },
            MessageKind::WorkerBusy => match object.read_u32("worker-id") {
                Ok(worker_id) => Ok(SchedulerMessage::WorkerBusy { worker_id }),
                Err(e) => Err(e),
            },
            MessageKind::CacheModule => {
                let hash = match post_message_payload::read_hash(object) {
                    Ok(hash) => hash,
                    Err(e) => return Err(e),
                };
                match object.read_module("module") {
                    Ok(module) => Ok(SchedulerMessage::CacheModule { hash, module }),
                    Err(e) => Err(e),
                }
            },
            MessageKind::SpawnWithModule => {
                let module = match object.read_module("module") {
                    Ok(module) => module,
                    Err(e) => return Err(e),
                };
                match object.read_boxed("ptr") {
                    Ok(task) => Ok(SchedulerMessage::SpawnWithModule { module, task }),
                    Err(e) => Err(e),
                }
            },
            MessageKind::SpawnWithModuleAndMemory => {
                let spawn_wasm = match object.read_boxed("ptr") {
                    Ok(spawn_wasm) => spawn_wasm,
                    Err(e) => return Err(e),
                };
                let module = match object.read_module("module") {
                    Ok(module) => module,
                    Err(e) => return Err(e),
                };
                let memory = match memory_use {
                    MemoryUse::Shared { loads: true } => match object.read_memory("memory") {
                        Ok(memory) => Some(memory),
                        Err(_) => None,
                    },
                    _ => None,
                };
                let subprocess_stdio = post_message_payload::read_stdio(object);
                match post_message_payload::read_fork_pipes(object) {
                    Ok(fork_pipes) => Ok(
                        SchedulerMessage::SpawnWithModuleAndMemory {
                            module,
                            memory,
                            spawn_wasm,
                            subprocess_stdio,
                            fork_pipes,
                        },
                    ),
                    Err(e) => Err(e),
                }
            },
            MessageKind::HostExecStart => {
                let (worker_id, request_id) = match read_request(object) {
                    Ok(request) => request,
                    Err(e) => return Err(e),
                };
                match object.read_bytes("request-json") {
                    Ok(request_json) => Ok(
                        SchedulerMessage::HostExecStart { worker_id, request_id, request_json },
                    ),
                    Err(e) => Err(e),
                }
            },
            MessageKind::HostExecRead => match read_session(object) {
                Ok((worker_id, request_id, session_id)) => Ok(
                    SchedulerMessage::HostExecRead { worker_id, request_id, session_id },
                ),
                Err(e) => Err(e),
            },
            MessageKind::HostExecWrite => {
                let (worker_id, request_id, session_id) = match read_session(object) {
                    Ok(session) => session,
                    Err(e) => return Err(e),
                };
                match object.read_bytes("data") {
                    Ok(data) => Ok(
                        SchedulerMessage::HostExecWrite { worker_id, request_id, session_id, data },
                    ),
                    Err(e) => Err(e),
                }
            },
            MessageKind::HostExecCloseStdin => match read_session(object) {
                Ok((worker_id, request_id, session_id)) => Ok(
                    SchedulerMessage::HostExecCloseStdin { worker_id, request_id, session_id },
                ),
                Err(e) => Err(e),
            },
            MessageKind::HostExecTryRead => match read_session(object) {
                Ok((worker_id, request_id, session_id)) => Ok(
                    SchedulerMessage::HostExecTryRead { worker_id, request_id, session_id },
                ),
                Err(e) => Err(e),
            },
            MessageKind::HostExecPoll => match read_session(object) {
                Ok((worker_id, request_id, session_id)) => Ok(
                    SchedulerMessage::HostExecPoll { worker_id, request_id, session_id },
                ),
                Err(e) => Err(e),
            },
            MessageKind::HostExecSignal => {
                let (worker_id, request_id, session_id) = match read_session(object) {
                    Ok(session) => session,
                    Err(e) => return Err(e),
                };
                match object.read_u32("signal") {
                    Ok(signal) => Ok(
                        SchedulerMessage::HostExecSignal {
                            worker_id,
                            request_id,
                            session_id,
                            signal,
                        },
                    ),
                    Err(e) => Err(e),
                }
            },
            MessageKind::HostExecChildOutput => {
                let (worker_id, request_id, session_id) = match read_session(object) {
                    Ok(session) => session,
                    Err(e) => return Err(e),
                };
                let child_id = match object.read_u64("child-id") {
                    Ok(child_id) => child_id,
                    Err(e) => return Err(e),
                };
                let msg_type = match object.read_u32("msg-type") {
                    Ok(msg_type) => msg_type,
                    Err(e) => return Err(e),
                };
                match object.read_bytes("data") {
                    Ok(data) => Ok(
                        SchedulerMessage::HostExecChildOutput {
                            worker_id,
                            request_id,
                            session_id,
                            child_id,
                            msg_type,
                            data,
                        },
                    ),
                    Err(e) => Err(e),
                }
            },
            MessageKind::PipeCreate => match read_pipe(object) {
                Ok((pipe_id, worker_id)) => Ok(SchedulerMessage::PipeCreate { pipe_id, worker_id }),
                Err(e) => Err(e),
            },
            MessageKind::PipeWrite => {
                let (pipe_id, worker_id) = match read_pipe(object) {
                    Ok(pipe) => pipe,
                    Err(e) => return Err(e),
                };
                match object.read_bytes("data") {
                    Ok(data) => Ok(SchedulerMessage::PipeWrite { pipe_id, worker_id, data }),
                    Err(e) => Err(e),
                }
            },
            MessageKind::PipeRead => {
                let (pipe_id, worker_id) = match read_pipe(object) {
                    Ok(pipe) => pipe,
                    Err(e) => return Err(e),
                };
                match object.read_u32("max-len") {
                    Ok(max_len) => Ok(SchedulerMessage::PipeRead { pipe_id, worker_id, max_len }),
                    Err(e) => Err(e),
                }
            },
            MessageKind::PipeClose => match read_pipe(object) {
                Ok((pipe_id, worker_id)) => Ok(SchedulerMessage::PipeClose { pipe_id, worker_id }),
                Err(e) => Err(e),
            },
        }
    }

    /// Reads the message that travelled in an object.
    pub fn try_from_js(object: &WireObject, memory_use: MemoryUse) -> (r: Result<
        SchedulerMessage,
        WireError,
    >)
        ensures
            match (decoded(object@, memory_use), r) {
                (Ok(message), Ok(m)) => m@ == message,
                (Err(e), Err(f)) => f@ == e,
                _ => false,
            },
    {
        let ty = match object.read_text("type") {
            Ok(ty) => ty,
            Err(e) => return Err(e),
        };
        match MessageKind::parse(ty.as_str()) {
            Some(kind) => SchedulerMessage::read_as(kind, object, memory_use),
            None => {
                let opening = text::joined("Unknown message type, \"", ty.as_str());
                Err(WireError::UnknownType(text::joined(opening.as_str(), "\"")))
            },
        }
    }
}

// ---------------------------------------------------------------------------
// Laws
// ---------------------------------------------------------------------------

/// Every message type is recognised by its own text.
pub proof fn lemma_message_types(kind: MessageKind)
    ensures
        message_kind(message_type(kind)) == Some(kind),
{
    reveal_strlit("spawn-async");
    reveal_strlit("spawn-blocking");
    reveal_strlit("worker-idle");
    reveal_strlit("worker-busy");
    reveal_strlit("cache-module");
    reveal_strlit("spawn-with-module");
    reveal_strlit("spawn-with-module-and-memory");
    reveal_strlit("host-exec-start");
    reveal_strlit("host-exec-read");
    reveal_strlit("host-exec-write");
    reveal_strlit("host-exec-close-stdin");
    reveal_strlit("host-exec-try-read");
    reveal_strlit("host-exec-poll");
    reveal_strlit("host-exec-signal");
    reveal_strlit("host-exec-child-output");
    reveal_strlit("pipe-create");
    reveal_strlit("pipe-write");
    reveal_strlit("pipe-read");
    reveal_strlit("pipe-close");
    assert("spawn-async"@.len() == 11);
    assert("spawn-blocking"@.len() == 14);
    assert("worker-idle"@.len() == 11);
    assert("worker-busy"@.len() == 11);
    assert("cache-module"@.len() == 12);
    assert("spawn-with-module"@.len() == 17);
    assert("spawn-with-module-and-memory"@.len() == 28);
    assert("host-exec-start"@.len() == 15);
    assert("host-exec-read"@.len() == 14);
    assert("host-exec-write"@.len() == 15);
    assert("host-exec-close-stdin"@.len() == 21);
    assert("host-exec-try-read"@.len() == 18);
    assert("host-exec-poll"@.len() == 14);
    assert("host-exec-signal"@.len() == 16);
    assert("host-exec-child-output"@.len() == 22);
    assert("pipe-create"@.len() == 11);
    assert("pipe-write"@.len() == 10);
    assert("pipe-read"@.len() == 9);
    assert("pipe-close"@.len() == 10);
    assert("spawn-async"@[0] != "worker-idle"@[0]);
    assert("spawn-async"@[0] != "worker-busy"@[0]);
    assert("spawn-async"@[0] != "pipe-create"@[0]);
    assert("spawn-blocking"@[0] != "host-exec-read"@[0]);
    assert("spawn-blocking"@[0] != "host-exec-poll"@[0]);
    assert("worker-idle"@[7] != "worker-busy"@[7]);
    assert("worker-idle"@[0] != "pipe-create"@[0]);
    assert("worker-busy"@[0] != "pipe-create"@[0]);
    assert("host-exec-start"@[10] != "host-exec-write"@[10]);
    assert("host-exec-read"@[10] != "host-exec-poll"@[10]);
    assert("pipe-write"@[5] != "pipe-close"@[5]);
}

/// A message as it arrives: all of it but the debugging text of inherited
/// pipes.
pub open spec fn received(message: MessageView) -> MessageView {
    match message {
        MessageView::SpawnWithModuleAndMemory {
            module,
            memory,
            spawn_wasm,
            subprocess_stdio,
            fork_pipes,
        } => MessageView::SpawnWithModuleAndMemory {
            module,
            memory,
            spawn_wasm,
            subprocess_stdio,
            fork_pipes: post_message_payload::received_fork_pipes(fork_pipes),
        },
        _ => message,
    }
}

/// Whether a message can be sent whole to a scheduler that knows this of its
/// memory. Closing the scheduler is not understood there, and the answer to a
/// waiting read never travels.
pub open spec fn sendable(message: MessageView, memory_use: MemoryUse) -> bool {
    match message {
        MessageView::Close => false,
        MessageView::HostExecReadComplete { .. } => false,
        MessageView::CacheModule { hash, .. } => hash.well_formed(),
        MessageView::SpawnWithModuleAndMemory { memory, fork_pipes, .. } => {
            &&& memory is Some ==> memory_use == MemoryUse::Shared { loads: true }
            &&& fork_pipes is Some ==> fork_pipes->0.buffers.len() <= u32::MAX
        },
        _ => true,
    }
}

/// Every message that a worker sends is read back by the scheduler as it was
/// sent.
pub proof fn law_message_round_trip(message: MessageView, memory_use: MemoryUse)
    requires
        sendable(message, memory_use),
    ensures
        decoded(encoded(message), memory_use) == Ok::<MessageView, WireFault>(received(message)),
{
    reveal_strlit("type");
    reveal_strlit("ptr");
    reveal_strlit("module");
    reveal_strlit("memory");
    reveal_strlit("module-hash");
    reveal_strlit("worker-id");
    reveal_strlit("request-id");
    reveal_strlit("request-json");
    reveal_strlit("session-id");
    reveal_strlit("data");
    reveal_strlit("signal");
    reveal_strlit("child-id");
    reveal_strlit("msg-type");
    reveal_strlit("pipe-id");
    reveal_strlit("max-len");
    assert("type"@.len() == 4);
    assert("ptr"@.len() == 3);
    assert("module"@.len() == 6);
    assert("memory"@.len() == 6);
    assert("module-hash"@.len() == 11);
    assert("worker-id"@.len() == 9);
    assert("request-id"@.len() == 10);
    assert("request-json"@.len() == 12);
    assert("session-id"@.len() == 10);
    assert("data"@.len() == 4);
    assert("signal"@.len() == 6);
    assert("child-id"@.len() == 8);
    assert("msg-type"@.len() == 8);
    assert("pipe-id"@.len() == 7);
    assert("max-len"@.len() == 7);
    assert("type"@[0] != "data"@[0]);
    assert("module"@[1] != "memory"@[1]);
    assert("module"@[0] != "signal"@[0]);
    assert("memory"@[0] != "signal"@[0]);
    assert("request-id"@[0] != "session-id"@[0]);
    assert("child-id"@[0] != "msg-type"@[0]);
    assert("pipe-id"@[0] != "max-len"@[0]);
    match message {
        MessageView::SpawnAsync(_) => {
            lemma_message_types(MessageKind::SpawnAsync);
        },
        MessageView::SpawnBlocking(_) => {
            lemma_message_types(MessageKind::SpawnBlocking);
        },
        MessageView::WorkerIdle { .. } => {
            lemma_message_types(MessageKind::WorkerIdle);
        },
        MessageView::WorkerBusy { .. } => {
            lemma_message_types(MessageKind::WorkerBusy);
        },
        MessageView::CacheModule { hash, .. } => {
            lemma_message_types(MessageKind::CacheModule);
            module_hash::law_hash_text_round_trip(hash);
        },
        MessageView::SpawnWithModule { .. } => {
            lemma_message_types(MessageKind::SpawnWithModule);
        },
        MessageView::SpawnWithModuleAndMemory {
            module,
            memory,
            spawn_wasm,
            subprocess_stdio,
            fork_pipes,
        } => {
            lemma_message_types(MessageKind::SpawnWithModuleAndMemory);
            let bare = wire::typed("spawn-with-module-and-memory"@).insert(
                "module"@,
                WireView::Module(module),
            ).insert("ptr"@, WireView::BigInt(spawn_wasm));
            let fields = match memory {
                Some(memory) => bare.insert("memory"@, WireView::Memory(memory)),
                None => bare,
            };
            post_message_payload::lemma_spawn_fields_round_trip(
                fields,
                subprocess_stdio,
                fork_pipes,
                "type"@,
            );
            post_message_payload::lemma_spawn_fields_round_trip(
                fields,
                subprocess_stdio,
                fork_pipes,
                "ptr"@,
            );
            post_message_payload::lemma_spawn_fields_round_trip(
                fields,
                subprocess_stdio,
                fork_pipes,
                "module"@,
            );
            post_message_payload::lemma_spawn_fields_round_trip(
                fields,
                subprocess_stdio,
                fork_pipes,
                "memory"@,
            );
        },
        MessageView::HostExecStart { .. } => {
            lemma_message_types(MessageKind::HostExecStart);
        },
        MessageView::HostExecRead { .. } => {
            lemma_message_types(MessageKind::HostExecRead);
        },
        MessageView::HostExecWrite { .. } => {
            lemma_message_types(MessageKind::HostExecWrite);
        },
        MessageView::HostExecCloseStdin { .. } => {
            lemma_message_types(MessageKind::HostExecCloseStdin);
        },
        MessageView::HostExecTryRead { .. } => {
            lemma_message_types(MessageKind::HostExecTryRead);
        },
        MessageView::HostExecPoll { .. } => {
            lemma_message_types(MessageKind::HostExecPoll);
        },
        MessageView::HostExecSignal { .. } => {
            lemma_message_types(MessageKind::HostExecSignal);
        },
        MessageView::HostExecChildOutput { .. } => {
            lemma_message_types(MessageKind::HostExecChildOutput);
        },
        MessageView::PipeCreate { .. } => {
            lemma_message_types(MessageKind::PipeCreate);
        },
        MessageView::PipeWrite { .. } => {
            lemma_message_types(MessageKind::PipeWrite);
        },
        MessageView::PipeRead { .. } => {
            lemma_message_types(MessageKind::PipeRead);
        },
        MessageView::PipeClose { .. } => {
            lemma_message_types(MessageKind::PipeClose);
        },
        MessageView::Close => {},
        MessageView::HostExecReadComplete { .. } => {},
    }
}

} // verus!
