use wasmer_js_tasks::tasks::module_hash::{HashError, ModuleHash};
use wasmer_js_tasks::tasks::post_message_payload::{
    AsyncJob, BlockingJob, ForkPipeBuffers, Notification, PostMessagePayload,
    SubprocessStdioBuffers,
};
use wasmer_js_tasks::tasks::scheduler_message::{MemoryUse, SchedulerMessage};
use wasmer_js_tasks::tasks::thread_pool_worker::{
    must_mark_idle, ThreadPoolWorker, WorkerStep, WorkerThread,
};
use wasmer_js_tasks::tasks::wire::{WireError, WireObject, WireValue};

fn stdio() -> SubprocessStdioBuffers {
    SubprocessStdioBuffers {
        stdin_offset: 4,
        stdin_size: 5,
        stdout_offset: 6,
        stdout_size: 7,
        stderr_offset: 8,
        stderr_size: u32::MAX,
    }
}

fn pipes(n: u32) -> ForkPipeBuffers {
    ForkPipeBuffers {
        buffers: (0..n).map(|i| (i, i % 2 == 0, 100 * i, 7 + i)).collect(),
        all_fds_debug: "0=stdin".to_string(),
    }
}

fn round_tripped(message: PostMessagePayload) -> PostMessagePayload {
    PostMessagePayload::try_from_js(&message.into_js()).unwrap()
}

#[test]
fn round_trip_spawn_blocking() {
    let message = PostMessagePayload::Blocking(BlockingJob::Thunk(u64::MAX));
    match round_tripped(message) {
        PostMessagePayload::Blocking(BlockingJob::Thunk(task)) => assert_eq!(task, u64::MAX),
        _ => unreachable!(),
    }
}

#[test]
fn round_trip_spawn_async() {
    let message = PostMessagePayload::Async(AsyncJob::Thunk(12));
    match round_tripped(message) {
        PostMessagePayload::Async(AsyncJob::Thunk(task)) => assert_eq!(task, 12),
        _ => unreachable!(),
    }
}

#[test]
fn round_trip_spawn_with_module() {
    let message =
        PostMessagePayload::Blocking(BlockingJob::SpawnWithModule { module: 3, task: 4 });
    match round_tripped(message) {
        PostMessagePayload::Blocking(BlockingJob::SpawnWithModule { module, task }) => {
            assert_eq!((module, task), (3, 4));
        }
        _ => unreachable!(),
    }
}

fn xxhash(wasm: &[u8]) -> ModuleHash {
    match wasmer_types::ModuleHash::xxhash(wasm) {
        wasmer_types::ModuleHash::XXHash(bytes) => ModuleHash::XXHash(bytes),
        wasmer_types::ModuleHash::Sha256(bytes) => ModuleHash::Sha256(bytes),
    }
}

#[test]
fn round_trip_cache_module() {
    let wasm: &[u8] = b"\0asm\x01\0\0\0";
    let message = PostMessagePayload::Notification(Notification::CacheModule {
        hash: xxhash(wasm),
        module: 9,
    });
    match round_tripped(message) {
        PostMessagePayload::Notification(Notification::CacheModule { hash, module }) => {
            assert_eq!(hash, xxhash(wasm));
            assert_eq!(module, 9);
        }
        _ => unreachable!(),
    }
}

#[test]
fn round_trip_spawn_with_module_and_memory() {
    for (memory, subprocess_stdio, count) in
        [(None, None, None), (Some(8), Some(stdio()), Some(0)), (Some(8), None, Some(12))]
    {
        let message = PostMessagePayload::Blocking(BlockingJob::SpawnWithModuleAndMemory {
            module: 1,
            memory,
            spawn_wasm: 2,
            subprocess_stdio,
            fork_pipes: count.map(pipes),
        });
        match round_tripped(message) {
            PostMessagePayload::Blocking(BlockingJob::SpawnWithModuleAndMemory {
                module: 1,
                memory: m,
                spawn_wasm: 2,
                subprocess_stdio: s,
                fork_pipes,
            }) => {
                assert_eq!(m, memory);
                assert_eq!(s, subprocess_stdio);
                assert_eq!(
                    fork_pipes.as_ref().map(|p| p.buffers.clone()),
                    count.map(|n| pipes(n).buffers)
                );
                if let Some(received) = fork_pipes {
                    assert_eq!(received.all_fds_debug, "");
                }
            }
            other => panic!("{other:?}"),
        }
    }
}

#[test]
fn round_trip_host_exec_responses() {
    for result in [Ok(u64::MAX), Err("no".to_string())] {
        let message =
            PostMessagePayload::HostExecStartResponse { request_id: 1, result: result.clone() };
        match round_tripped(message) {
            PostMessagePayload::HostExecStartResponse { request_id: 1, result: received } => {
                assert_eq!(received, result);
            }
            other => panic!("{other:?}"),
        }
    }
    for result in [Ok((2, vec![1, 2, 3])), Err("no".to_string())] {
        let message =
            PostMessagePayload::HostExecReadResponse { request_id: 1, result: result.clone() };
        match round_tripped(message) {
            PostMessagePayload::HostExecReadResponse { request_id: 1, result: received } => {
                assert_eq!(received, result);
            }
            other => panic!("{other:?}"),
        }
    }
}

#[test]
fn payloads_have_their_fields() {
    let message = PostMessagePayload::Blocking(BlockingJob::SpawnWithModuleAndMemory {
        module: 1,
        memory: None,
        spawn_wasm: 2,
        subprocess_stdio: Some(stdio()),
        fork_pipes: Some(pipes(11)),
    });
    assert!(message.would_block());
    let object = message.into_js();
    assert!(matches!(
        object.get("type"),
        Some(WireValue::Text(ty)) if ty == "spawn-with-module-and-memory"
    ));
    assert!(matches!(object.get("memory"), Some(WireValue::Other)));
    assert!(matches!(object.get("subprocess-stdout-size"), Some(WireValue::Number(7))));
    assert!(matches!(object.get("fork-pipe-count"), Some(WireValue::Number(11))));
    assert!(matches!(object.get("fork-pipe-offset-10"), Some(WireValue::Number(1000))));
    assert!(matches!(object.get("fork-pipe-is-tx-10"), Some(WireValue::Bool(true))));
    assert!(object.get("fork-pipe-fd-11").is_none());
    assert!(!PostMessagePayload::Async(AsyncJob::Thunk(1)).would_block());
}

#[test]
fn bad_payloads_are_rejected() {
    let fault = |object: &WireObject| PostMessagePayload::try_from_js(object).unwrap_err();
    assert!(matches!(fault(&WireObject::empty()), WireError::Field(name) if name == "type"));
    assert!(matches!(
        fault(&WireObject::new("nope")),
        WireError::UnknownType(text) if text == "Unknown message type: nope"
    ));
    assert!(matches!(
        fault(&WireObject::new("spawn-async")),
        WireError::Field(name) if name == "ptr"
    ));
    let mut object = WireObject::new("cache-module");
    object.set("module", WireValue::Module(1));
    object.set("module-hash", WireValue::Text("00".to_string()));
    assert!(matches!(fault(&object), WireError::Hash(HashError::InvalidStringLength)));
    let mut object = WireObject::new("spawn-with-module-and-memory");
    object.set("module", WireValue::Module(1));
    object.set("ptr", WireValue::BigInt(2));
    object.set("fork-pipe-count", WireValue::Number(1));
    object.set("fork-pipe-fd-0", WireValue::Number(3));
    assert!(matches!(fault(&object), WireError::Field(name) if name == "fork-pipe-is-tx-0"));
    // Streams count only if all of them are there.
    let mut object = WireObject::new("spawn-with-module-and-memory");
    object.set("module", WireValue::Module(1));
    object.set("ptr", WireValue::BigInt(2));
    object.set("subprocess-stdin-offset", WireValue::Number(3));
    assert!(matches!(
        PostMessagePayload::try_from_js(&object),
        Ok(PostMessagePayload::Blocking(BlockingJob::SpawnWithModuleAndMemory {
            subprocess_stdio: None,
            fork_pipes: None,
            memory: None,
            ..
        }))
    ));
}

#[test]
fn wire_fields_are_read_by_their_types() {
    let mut object = WireObject::new("x");
    object.set("n", WireValue::Number(1 << 32));
    assert!(object.read_u32("n").is_err());
    assert_eq!(object.read_u64("n").unwrap(), 1 << 32);
    object.set("n", WireValue::Number(5));
    assert_eq!(object.read_u32("n").unwrap(), 5);
    assert!(object.read_boxed("n").is_err());
    object.set("b", WireValue::BigInt(6));
    assert_eq!(object.read_boxed("b").unwrap(), 6);
    assert_eq!(object.read_u64("b").unwrap(), 6);
    assert!(object.read_u32("b").is_err());
    assert!(object.read_bool("b").is_err());
    assert!(object.read_module("b").is_err());
    assert!(object.read_memory("b").is_err());
    assert!(object.read_bytes("b").is_err());
    assert!(object.read_text("missing").is_err());
}

fn sent(message: SchedulerMessage) -> SchedulerMessage {
    let memory_use = MemoryUse::Shared { loads: true };
    SchedulerMessage::try_from_js(&message.into_js(), memory_use).unwrap()
}

#[test]
fn scheduler_messages_round_trip() {
    let messages: Vec<fn() -> SchedulerMessage> = vec![
        || SchedulerMessage::SpawnAsync(1),
        || SchedulerMessage::SpawnBlocking(2),
        || SchedulerMessage::WorkerIdle { worker_id: 3 },
        || SchedulerMessage::WorkerBusy { worker_id: u32::MAX },
        || SchedulerMessage::HostExecStart {
            worker_id: 1,
            request_id: u64::MAX,
            request_json: b"{}".to_vec(),
        },
        || SchedulerMessage::HostExecRead { worker_id: 1, request_id: 2, session_id: 3 },
        || SchedulerMessage::HostExecWrite {
            worker_id: 1,
            request_id: 2,
            session_id: 3,
            data: vec![4],
        },
        || SchedulerMessage::HostExecCloseStdin { worker_id: 1, request_id: 2, session_id: 3 },
        || SchedulerMessage::HostExecTryRead { worker_id: 1, request_id: 2, session_id: 3 },
        || SchedulerMessage::HostExecPoll { worker_id: 1, request_id: 2, session_id: 3 },
        || SchedulerMessage::HostExecSignal {
            worker_id: 1,
            request_id: 2,
            session_id: 3,
            signal: 15,
        },
        || SchedulerMessage::HostExecChildOutput {
            worker_id: 1,
            request_id: 2,
            session_id: 3,
            child_id: 4,
            msg_type: 20,
            data: vec![],
        },
        || SchedulerMessage::CacheModule { hash: ModuleHash::Sha256([0xab; 32]), module: 5 },
        || SchedulerMessage::SpawnWithModule { module: 6, task: 7 },
        || SchedulerMessage::SpawnWithModuleAndMemory {
            module: 1,
            memory: Some(2),
            spawn_wasm: 3,
            subprocess_stdio: Some(stdio()),
            fork_pipes: None,
        },
        || SchedulerMessage::PipeCreate { pipe_id: 1, worker_id: 2 },
        || SchedulerMessage::PipeWrite { pipe_id: 1, worker_id: 2, data: vec![0, 255] },
        || SchedulerMessage::PipeRead { pipe_id: 1, worker_id: 2, max_len: 3 },
        || SchedulerMessage::PipeClose { pipe_id: 1, worker_id: 2 },
    ];
    for message in messages {
        assert_eq!(format!("{:?}", sent(message())), format!("{:?}", message()));
    }
}

#[test]
fn memories_are_taken_over_only_where_shared() {
    let message = || SchedulerMessage::SpawnWithModuleAndMemory {
        module: 1,
        memory: Some(2),
        spawn_wasm: 3,
        subprocess_stdio: None,
        fork_pipes: Some(pipes(2)),
    };
    let memory = |memory_use: MemoryUse| {
        match SchedulerMessage::try_from_js(&message().into_js(), memory_use).unwrap() {
            SchedulerMessage::SpawnWithModuleAndMemory { memory, .. } => memory,
            _ => unreachable!(),
        }
    };
    assert_eq!(memory(MemoryUse::Shared { loads: true }), Some(2));
    assert_eq!(memory(MemoryUse::Shared { loads: false }), None);
    assert_eq!(memory(MemoryUse::Unshared), None);
}

#[test]
fn bad_scheduler_messages_are_rejected() {
    let fault = |object: &WireObject| {
        SchedulerMessage::try_from_js(object, MemoryUse::Unshared).unwrap_err()
    };
    assert!(matches!(
        fault(&SchedulerMessage::Close.into_js()),
        WireError::UnknownType(text) if text == "Unknown message type, \"close\""
    ));
    assert!(matches!(
        fault(&WireObject::new("host-exec-read")),
        WireError::Field(name) if name == "worker-id"
    ));
    let mut object = WireObject::new("cache-module");
    object.set("module-hash", WireValue::Text("zz".repeat(8)));
    assert!(matches!(
        fault(&object),
        WireError::Hash(HashError::InvalidHexCharacter { c: 'z', index: 0 })
    ));
}

#[test]
fn hashes_are_written_and_read() {
    let hash = ModuleHash::XXHash([0x01, 0x23, 0x45, 0x67, 0x89, 0xab, 0xcd, 0xef]);
    assert_eq!(hash.to_text(), "0123456789ABCDEF");
    assert_eq!(ModuleHash::parse("0123456789ABCDEF"), Ok(hash));
    assert_eq!(ModuleHash::parse("0123456789abcdef"), Ok(hash));
    let long = ModuleHash::Sha256([0xf0; 32]);
    assert_eq!(long.to_text(), "F0".repeat(32));
    assert_eq!(ModuleHash::parse(&"f0".repeat(32)), Ok(long));
    assert_eq!(ModuleHash::parse("123"), Err(HashError::OddLength));
    assert_eq!(ModuleHash::parse("1234"), Err(HashError::InvalidStringLength));
    assert_eq!(
        ModuleHash::parse("0123456789abcdxf"),
        Err(HashError::InvalidHexCharacter { c: 'x', index: 14 })
    );
    let umlaut = "0123456789abcd\u{e4}";
    assert_eq!(
        ModuleHash::parse(umlaut),
        Err(HashError::InvalidHexCharacter { c: '\u{c3}', index: 14 })
    );
}

#[test]
fn workers_follow_their_messages() {
    let mut thread = WorkerThread { worker_id: None, host_exec_buffer: None };
    let worker = ThreadPoolWorker::new(&mut thread, 4, 99);
    assert_eq!(worker.id, 4);
    assert_eq!(thread.worker_id, Some(4));
    assert_eq!(thread.host_exec_buffer, Some(99));
    let steps = worker
        .js_handle(&PostMessagePayload::Async(AsyncJob::Thunk(1)).into_js())
        .unwrap();
    assert_eq!(format!("{steps:?}"), "[RunAsync(1)]");
    let steps = worker
        .handle(&PostMessagePayload::Blocking(BlockingJob::Thunk(2)).into_js())
        .unwrap();
    assert_eq!(format!("{steps:?}"), "[MarkBusy, RunBlocking(2), MarkIdle]");
    assert!(!must_mark_idle(&steps, 0));
    assert!(must_mark_idle(&steps, 1));
    assert!(must_mark_idle(&steps, 2));
    assert!(!must_mark_idle(&steps, 3));
    let message = PostMessagePayload::Blocking(BlockingJob::SpawnWithModuleAndMemory {
        module: 1,
        memory: Some(2),
        spawn_wasm: 3,
        subprocess_stdio: Some(stdio()),
        fork_pipes: Some(pipes(1)),
    });
    let steps = worker.handle(&message.into_js()).unwrap();
    assert_eq!(steps.len(), 6);
    assert!(matches!(&steps[0], WorkerStep::InjectStdio { spawn_wasm: 3, buffers } if *buffers == stdio()));
    assert!(matches!(steps[1], WorkerStep::Begin { spawn_wasm: 3 }));
    assert!(matches!(&steps[2], WorkerStep::ReconnectPipes { pipes, .. } if pipes.buffers.len() == 1));
    assert!(matches!(steps[3], WorkerStep::MarkBusy));
    assert!(matches!(
        steps[4],
        WorkerStep::Execute { spawn_wasm: 3, module: 1, memory: Some(2) }
    ));
    assert!(matches!(steps[5], WorkerStep::MarkIdle));
    let ignored = PostMessagePayload::HostExecStartResponse { request_id: 1, result: Ok(1) };
    assert!(worker.handle(&ignored.into_js()).unwrap().is_empty());
    assert!(worker.handle(&WireObject::new("nope")).is_err());
}
