use tokio::sync::mpsc;
use wasmer_js_tasks::response::BufferStore;
use wasmer_js_tasks::tasks::host_exec_context::{
    create_host_exec_context, create_spawn_request, Callback, ContextValue, HostExecRequest,
    HostExecTerminal, SpawnValue,
};
use wasmer_js_tasks::tasks::module_cache::{order_hashes, CachedModule, ModuleCache, Position};
use wasmer_js_tasks::tasks::module_hash::ModuleHash;
use wasmer_js_tasks::tasks::post_message_payload::{
    AsyncJob, BlockingJob, PostMessagePayload,
};
use wasmer_js_tasks::tasks::scheduler::{
    broadcast_progress, next_to_execute, post_progress, sent, Action, BroadcastProgress,
    CallArgument, HandlerOutcome, PostOutcome, PostProgress, PostStep, Route, Scheduler,
    SchedulerError, SchedulerState, Sending, SharedState, WorkerHandle,
};
use wasmer_js_tasks::tasks::scheduler_message::SchedulerMessage;
use wasmer_js_tasks::tasks::sessions::Settlement;

fn new_scheduler() -> (SchedulerState, SharedState) {
    let (tx, _) = mpsc::unbounded_channel();
    (SchedulerState::new(Scheduler::new(tx, 1)), SharedState::new())
}

fn post(state: &mut SchedulerState, shared: &mut SharedState, message: SchedulerMessage) -> u32 {
    match state.execute(shared, message) {
        Action::Post { worker, would_block, .. } => {
            state.posted(worker, would_block, PostOutcome::Sent).unwrap();
            worker.id
        }
        other => panic!("{other:?}"),
    }
}

fn ids(state: &SchedulerState) -> (Vec<u32>, Vec<u32>) {
    (
        state.idle.iter().map(|w| w.id).collect(),
        state.busy.iter().map(|w| w.id).collect(),
    )
}

#[test]
fn spawn_an_async_function() {
    let (mut scheduler, mut shared) = new_scheduler();

    // we start off with no workers
    assert_eq!(scheduler.idle.len(), 0);
    assert_eq!(scheduler.busy.len(), 0);

    let action = scheduler.execute(&mut shared, SchedulerMessage::SpawnAsync(42));
    let Action::Post { worker, start, payload, would_block } = action else {
        panic!("expected work for a worker");
    };
    assert_eq!(start.map(|modules| modules.len()), Some(0));
    assert!(!would_block);
    assert!(matches!(payload, PostMessagePayload::Async(AsyncJob::Thunk(42))));
    scheduler.posted(worker, would_block, PostOutcome::Sent).unwrap();

    // One worker should have been created and added to the "ready" queue
    // because it's just handling async workloads.
    assert_eq!(scheduler.idle.len(), 1);
    assert_eq!(scheduler.busy.len(), 0);
}

#[test]
fn blocking_work_keeps_workers_busy() {
    let (mut state, mut shared) = new_scheduler();
    assert_eq!(post(&mut state, &mut shared, SchedulerMessage::SpawnBlocking(1)), 1);
    assert_eq!(post(&mut state, &mut shared, SchedulerMessage::SpawnBlocking(2)), 2);
    assert_eq!(ids(&state), (vec![], vec![1, 2]));
    state.execute(&mut shared, SchedulerMessage::WorkerIdle { worker_id: 2 });
    state.execute(&mut shared, SchedulerMessage::WorkerIdle { worker_id: 1 });
    assert_eq!(ids(&state), (vec![2, 1], vec![]));
    assert_eq!(post(&mut state, &mut shared, SchedulerMessage::SpawnAsync(3)), 2);
    assert_eq!(ids(&state), (vec![1, 2], vec![]));
    state.execute(&mut shared, SchedulerMessage::WorkerBusy { worker_id: 2 });
    assert_eq!(ids(&state), (vec![1], vec![2]));
    state.execute(&mut shared, SchedulerMessage::WorkerBusy { worker_id: 9 });
    assert_eq!(ids(&state), (vec![1], vec![2]));
    let module = SchedulerMessage::SpawnWithModule { module: 5, task: 6 };
    assert_eq!(post(&mut state, &mut shared, module), 1);
    assert_eq!(ids(&state), (vec![], vec![2, 1]));
    let program = SchedulerMessage::SpawnWithModuleAndMemory {
        module: 5,
        memory: Some(7),
        spawn_wasm: 8,
        subprocess_stdio: None,
        fork_pipes: None,
    };
    let Action::Post { worker, payload, would_block, .. } = state.execute(&mut shared, program)
    else {
        panic!("expected work for a worker");
    };
    assert_eq!(worker.id, 3);
    assert!(would_block);
    assert!(matches!(
        payload,
        PostMessagePayload::Blocking(BlockingJob::SpawnWithModuleAndMemory {
            module: 5,
            memory: Some(7),
            spawn_wasm: 8,
            subprocess_stdio: None,
            fork_pipes: None,
        })
    ));
}

#[test]
fn failed_sends_lose_the_worker() {
    let (mut state, mut shared) = new_scheduler();
    post(&mut state, &mut shared, SchedulerMessage::SpawnAsync(1));
    let Action::Post { worker, would_block, .. } =
        state.execute(&mut shared, SchedulerMessage::SpawnAsync(2))
    else {
        panic!("expected work for a worker");
    };
    let error = state
        .posted(worker, would_block, PostOutcome::NotSent("closed".to_string()))
        .unwrap_err();
    assert_eq!(error.to_text(), "Unable to send a message to worker 1");
    assert!(matches!(
        &error,
        SchedulerError::Unsendable { worker_id: 1, cause } if cause == "closed"
    ));
    assert_eq!(ids(&state), (vec![], vec![]));
    let error = state
        .posted(WorkerHandle { id: 2 }, true, PostOutcome::NotStarted("no threads".to_string()))
        .unwrap_err();
    assert_eq!(error.to_text(), "no threads");
    assert_eq!(ids(&state), (vec![], vec![]));
}

#[test]
fn close_forgets_idle_workers() {
    let (mut state, mut shared) = new_scheduler();
    post(&mut state, &mut shared, SchedulerMessage::SpawnBlocking(1));
    post(&mut state, &mut shared, SchedulerMessage::SpawnAsync(2));
    assert!(matches!(state.execute(&mut shared, SchedulerMessage::Close), Action::Done));
    assert_eq!(ids(&state), (vec![], vec![1]));
}

#[test]
fn modules_are_broadcast_and_prime_new_workers() {
    let (mut state, mut shared) = new_scheduler();
    post(&mut state, &mut shared, SchedulerMessage::SpawnBlocking(1));
    post(&mut state, &mut shared, SchedulerMessage::SpawnAsync(2));
    let big = ModuleHash::Sha256([0; 32]);
    let small = ModuleHash::XXHash([9; 8]);
    let action = state.execute(&mut shared, SchedulerMessage::CacheModule { hash: big, module: 10 });
    assert!(matches!(
        &action,
        Action::Broadcast { workers, module: 10, .. } if *workers == vec![2, 1]
    ));
    state.execute(&mut shared, SchedulerMessage::CacheModule { hash: small, module: 11 });
    state.execute(&mut shared, SchedulerMessage::CacheModule { hash: big, module: 12 });
    state.execute(&mut shared, SchedulerMessage::WorkerBusy { worker_id: 2 });
    let Action::Post { worker, start: Some(modules), .. } =
        state.execute(&mut shared, SchedulerMessage::SpawnAsync(3))
    else {
        panic!("expected a new worker");
    };
    assert_eq!(worker.id, 3);
    let told: Vec<(ModuleHash, u64)> = modules.iter().map(|m| (m.hash, m.module)).collect();
    assert_eq!(told, vec![(small, 11), (big, 12)]);
}

#[test]
fn module_cache_is_ordered_by_hash() {
    let mut cache = ModuleCache::new();
    let mut a = [1; 8];
    a[7] = 2;
    for (hash, module) in [
        (ModuleHash::Sha256([1; 32]), 1),
        (ModuleHash::XXHash(a), 2),
        (ModuleHash::XXHash([1; 8]), 3),
        (ModuleHash::Sha256([0; 32]), 4),
        (ModuleHash::XXHash([1; 8]), 5),
    ] {
        cache.insert(hash, module);
    }
    let modules: Vec<u64> = cache.entries.iter().map(|e| e.module).collect();
    assert_eq!(modules, vec![5, 2, 4, 1]);
    assert_eq!(
        order_hashes(&ModuleHash::XXHash([255; 8]), &ModuleHash::Sha256([0; 32])),
        Position::Before
    );
    assert_eq!(
        order_hashes(&ModuleHash::XXHash(a), &ModuleHash::XXHash([1; 8])),
        Position::After
    );
    assert_eq!(order_hashes(&ModuleHash::XXHash(a), &ModuleHash::XXHash(a)), Position::Same);
}

#[test]
fn reads_are_answered_in_order() {
    let (mut state, mut shared) = new_scheduler();
    post(&mut state, &mut shared, SchedulerMessage::SpawnBlocking(1));
    assert!(shared.sessions.on_stdout(7, Some(b"one".to_vec())).is_none());
    assert!(shared.sessions.on_stderr(7, Some(b"two".to_vec())).is_none());
    let read = || SchedulerMessage::HostExecRead { worker_id: 1, request_id: 0, session_id: 7 };
    let Action::Store { worker_id, stores } = state.execute(&mut shared, read()) else {
        panic!("expected an answer");
    };
    assert_eq!(worker_id, 1);
    assert_eq!(stores.len(), 6);
    assert!(matches!(stores[0], BufferStore::Word { index: 1, value: 1 }));
    assert!(matches!(stores[1], BufferStore::Word { index: 2, value: 3 }));
    assert!(matches!(stores[2], BufferStore::Word { index: 3, value: 7 }));
    assert!(matches!(&stores[3], BufferStore::Bytes { offset: 16, data } if data == b"one"));
    assert!(matches!(stores[4], BufferStore::Word { index: 0, value: 1 }));
    assert!(matches!(stores[5], BufferStore::Notify { index: 0 }));
    let Action::Store { stores, .. } = state.execute(&mut shared, read()) else {
        panic!("expected an answer");
    };
    assert!(matches!(stores[0], BufferStore::Word { index: 1, value: 2 }));
    // Nothing is left, so the read waits and is completed by the next output.
    assert!(matches!(state.execute(&mut shared, read()), Action::Done));
    let completion = shared.sessions.on_stdout(7, Some(b"three".to_vec())).unwrap();
    let Action::Store { worker_id: 1, stores } = state.execute(&mut shared, completion) else {
        panic!("expected an answer");
    };
    assert!(matches!(&stores[3], BufferStore::Bytes { offset: 16, data } if data == b"three"));
}

#[test]
fn exit_codes_reach_the_reader() {
    let (mut state, mut shared) = new_scheduler();
    post(&mut state, &mut shared, SchedulerMessage::SpawnBlocking(1));
    let read = SchedulerMessage::HostExecRead { worker_id: 1, request_id: 0, session_id: 7 };
    assert!(matches!(state.execute(&mut shared, read), Action::Done));
    let completion =
        shared.sessions.promise_settled(7, Settlement::Fulfilled(Some(-2))).unwrap();
    let Action::Store { stores, .. } = state.execute(&mut shared, completion) else {
        panic!("expected an answer");
    };
    assert!(matches!(stores[0], BufferStore::Word { index: 1, value: 3 }));
    assert!(matches!(stores[1], BufferStore::Word { index: 2, value: -2 }));
    assert_eq!(stores.len(), 5);
    // A message that is too short to hold an exit code is passed on as data.
    let short = SchedulerMessage::HostExecReadComplete {
        worker_id: 1,
        request_id: 7,
        msg_type: 3,
        data: vec![1, 2],
    };
    let Action::Store { stores, .. } = state.execute(&mut shared, short) else {
        panic!("expected an answer");
    };
    assert!(matches!(stores[1], BufferStore::Word { index: 2, value: 2 }));
    assert!(matches!(&stores[3], BufferStore::Bytes { data, .. } if *data == vec![1, 2]));
}

#[test]
fn try_reads_and_polls_do_not_wait() {
    let (mut state, mut shared) = new_scheduler();
    post(&mut state, &mut shared, SchedulerMessage::SpawnBlocking(1));
    let poll = || SchedulerMessage::HostExecPoll { worker_id: 1, request_id: 0, session_id: 7 };
    let try_read =
        || SchedulerMessage::HostExecTryRead { worker_id: 1, request_id: 0, session_id: 7 };
    let Action::Store { stores, .. } = state.execute(&mut shared, poll()) else {
        panic!("expected an answer");
    };
    assert_eq!(stores.len(), 3);
    assert!(matches!(stores[0], BufferStore::Word { index: 3, value: 7 }));
    assert!(matches!(stores[1], BufferStore::Word { index: 0, value: 2 }));
    let Action::Store { stores, .. } = state.execute(&mut shared, try_read()) else {
        panic!("expected an answer");
    };
    assert!(matches!(stores[1], BufferStore::Word { index: 0, value: 2 }));
    assert!(shared.sessions.pending_reads.is_empty());
    shared.sessions.on_stdout(7, Some(vec![1]));
    let Action::Store { stores, .. } = state.execute(&mut shared, poll()) else {
        panic!("expected an answer");
    };
    assert!(matches!(stores[1], BufferStore::Word { index: 0, value: 1 }));
    let Action::Store { stores, .. } = state.execute(&mut shared, try_read()) else {
        panic!("expected an answer");
    };
    assert!(matches!(&stores[3], BufferStore::Bytes { data, .. } if *data == vec![1]));
}

#[test]
fn unknown_workers_are_reported() {
    let (mut state, mut shared) = new_scheduler();
    let poll = SchedulerMessage::HostExecPoll { worker_id: 12, request_id: 0, session_id: 7 };
    let Action::Fail(error) = state.execute(&mut shared, poll) else {
        panic!("expected a failure");
    };
    assert_eq!(error.to_text(), "Worker 12 not found");
    let Action::Fail(error) = state.handler_returned(3, 4, HandlerOutcome::Promise) else {
        panic!("expected a failure");
    };
    assert!(matches!(error, SchedulerError::WorkerNotFound(3)));
}

#[test]
fn registered_functions_are_called() {
    let (mut state, mut shared) = new_scheduler();
    let write = || SchedulerMessage::HostExecWrite {
        worker_id: 1,
        request_id: 0,
        session_id: 7,
        data: vec![1, 2],
    };
    let close =
        || SchedulerMessage::HostExecCloseStdin { worker_id: 1, request_id: 0, session_id: 7 };
    let signal = || SchedulerMessage::HostExecSignal {
        worker_id: 1,
        request_id: 0,
        session_id: 7,
        signal: 9,
    };
    assert!(matches!(state.execute(&mut shared, write()), Action::Done));
    assert!(matches!(state.execute(&mut shared, close()), Action::Done));
    assert!(matches!(state.execute(&mut shared, signal()), Action::Done));
    shared.sessions.set_stdin_writer(7, Some(100), None);
    assert!(matches!(state.execute(&mut shared, write()), Action::Done));
    shared.sessions.set_stdin_writer(7, Some(100), Some(101));
    shared.sessions.set_kill_function(7, None);
    shared.sessions.set_kill_function(7, Some(102));
    assert!(matches!(
        state.execute(&mut shared, write()),
        Action::Call { function: 100, argument: CallArgument::Bytes(data) } if data == vec![1, 2]
    ));
    assert!(matches!(
        state.execute(&mut shared, close()),
        Action::Call { function: 101, argument: CallArgument::Nothing }
    ));
    assert!(matches!(state.execute(&mut shared, write()), Action::Done));
    assert!(matches!(
        state.execute(&mut shared, signal()),
        Action::Call { function: 102, argument: CallArgument::Signal(9) }
    ));
}

#[test]
fn child_output_goes_to_the_childs_functions() {
    let (mut state, mut shared) = new_scheduler();
    let output = |msg_type: u32, data: Vec<u8>| SchedulerMessage::HostExecChildOutput {
        worker_id: 1,
        request_id: 0,
        session_id: 7,
        child_id: 3,
        msg_type,
        data,
    };
    assert!(matches!(state.execute(&mut shared, output(20, vec![1])), Action::Done));
    shared.sessions.set_child_output_handlers(3, Some(30), Some(31), Some(32));
    assert!(matches!(
        state.execute(&mut shared, output(20, vec![1])),
        Action::Call { function: 30, argument: CallArgument::Bytes(data) } if data == vec![1]
    ));
    assert!(matches!(
        state.execute(&mut shared, output(21, vec![2])),
        Action::Call { function: 31, argument: CallArgument::Bytes(data) } if data == vec![2]
    ));
    assert!(matches!(
        state.execute(&mut shared, output(22, vec![0xfe, 0xff, 0xff, 0xff, 9])),
        Action::Call { function: 32, argument: CallArgument::ExitCode(-2) }
    ));
    assert!(matches!(
        state.execute(&mut shared, output(22, vec![1, 2, 3])),
        Action::Call { function: 32, argument: CallArgument::ExitCode(0) }
    ));
    assert!(matches!(state.execute(&mut shared, output(23, vec![])), Action::Done));
}

fn request() -> HostExecRequest {
    HostExecRequest {
        command: "ls".to_string(),
        args: vec!["-l".to_string(), "/".to_string()],
        env: vec![("HOME".to_string(), "/root".to_string())],
        cwd: "/tmp".to_string(),
        terminal: None,
    }
}

#[test]
fn host_executions_start() {
    let (mut state, mut shared) = new_scheduler();
    post(&mut state, &mut shared, SchedulerMessage::SpawnBlocking(1));
    let start = SchedulerMessage::HostExecStart {
        worker_id: 1,
        request_id: 6,
        request_json: b"{}".to_vec(),
    };
    assert!(matches!(
        state.execute(&mut shared, start),
        Action::ParseRequest { worker_id: 1, request_id: 6, request_json } if request_json == b"{}"
    ));
    let answer = |action: Action| match action {
        Action::Send {
            worker_id: 1,
            payload: PostMessagePayload::HostExecStartResponse { request_id: 6, result },
        } => result,
        other => panic!("{other:?}"),
    };
    assert_eq!(
        answer(state.request_parsed(&shared, 1, 6, Err("EOF".to_string()))),
        Err("Failed to parse request: EOF".to_string())
    );
    assert_eq!(
        answer(state.request_parsed(&shared, 1, 6, Ok(request()))),
        Err("host_exec handler not registered".to_string())
    );
    shared.host_exec_handler = Some(77);
    let Action::CallHandler { worker_id: 1, request_id: 6, handler: 77, context } =
        state.request_parsed(&shared, 1, 6, Ok(request()))
    else {
        panic!("expected a call of the handler");
    };
    assert_eq!(context.session_id, 6);
    assert_eq!(answer(state.handler_returned(1, 6, HandlerOutcome::Promise)), Ok(6));
    assert_eq!(
        answer(state.handler_returned(1, 6, HandlerOutcome::NotAPromise)),
        Err("Handler did not return a Promise".to_string())
    );
    assert_eq!(
        answer(state.handler_returned(1, 6, HandlerOutcome::Failed("boom".to_string()))),
        Err("Handler failed: boom".to_string())
    );
}

#[test]
fn contexts_describe_the_request() {
    let names = |context: &wasmer_js_tasks::tasks::host_exec_context::HostExecContext| {
        context.entries.iter().map(|(name, _)| name.clone()).collect::<Vec<String>>()
    };
    let context = create_host_exec_context(&request(), 9);
    assert_eq!(
        names(&context),
        vec![
            "command",
            "args",
            "env",
            "cwd",
            "stdin",
            "stdout",
            "stderr",
            "onStdout",
            "onStderr",
            "setStdinWriter",
            "setKillFunction",
            "requestSpawn",
            "spawnWriteStdin",
            "spawnCloseStdin",
            "spawnKill",
            "setChildOutputHandlers",
        ]
    );
    assert!(matches!(&context.entries[0].1, ContextValue::Text(text) if text == "ls"));
    assert!(matches!(&context.entries[1].1, ContextValue::List(args) if args.len() == 2));
    assert!(matches!(
        &context.entries[2].1,
        ContextValue::Record(env) if env[0] == ("HOME".to_string(), "/root".to_string())
    ));
    assert!(matches!(context.entries[4].1, ContextValue::Null));
    assert!(matches!(context.entries[14].1, ContextValue::Callback(Callback::SpawnKill)));
    let mut with_terminal = request();
    with_terminal.terminal =
        Some(HostExecTerminal { term: "xterm".to_string(), cols: 80, rows: 24 });
    let context = create_host_exec_context(&with_terminal, 9);
    assert_eq!(context.entries.len(), 17);
    assert_eq!(context.entries[11].0, "terminal");
    assert!(matches!(
        &context.entries[11].1,
        ContextValue::Terminal(terminal)
            if terminal.term == "xterm" && terminal.cols == 80 && terminal.rows == 24
    ));
    let request = create_spawn_request(Some(5), 1, Some(2), None, 3);
    assert_eq!(
        request,
        vec![
            ("child_id".to_string(), SpawnValue::ChildId(5)),
            ("command".to_string(), SpawnValue::Given(1)),
            ("args".to_string(), SpawnValue::Given(2)),
            ("cwd".to_string(), SpawnValue::Given(3)),
        ]
    );
    assert_eq!(create_spawn_request(None, 1, None, None, 3)[0].1, SpawnValue::ChildId(0));
}

#[test]
fn pipes_go_through_the_scheduler() {
    let (mut state, mut shared) = new_scheduler();
    post(&mut state, &mut shared, SchedulerMessage::SpawnBlocking(1));
    let read =
        |max_len: u32| SchedulerMessage::PipeRead { pipe_id: 4, worker_id: 1, max_len };
    let write = |data: &[u8]| SchedulerMessage::PipeWrite {
        pipe_id: 4,
        worker_id: 1,
        data: data.to_vec(),
    };
    // Nothing happens to a pipe that does not exist.
    assert!(matches!(state.execute(&mut shared, read(3)), Action::Done));
    assert!(matches!(state.execute(&mut shared, write(b"x")), Action::Done));
    state.execute(&mut shared, SchedulerMessage::PipeCreate { pipe_id: 4, worker_id: 1 });
    assert!(matches!(state.execute(&mut shared, write(b"hello")), Action::Done));
    let Action::Store { worker_id: 1, stores } = state.execute(&mut shared, read(3)) else {
        panic!("expected an answer");
    };
    assert_eq!(stores.len(), 4);
    assert!(matches!(stores[0], BufferStore::Word { index: 1, value: 3 }));
    assert!(matches!(&stores[1], BufferStore::Bytes { offset: 64, data } if data == b"hel"));
    assert!(matches!(stores[2], BufferStore::Word { index: 0, value: 1 }));
    assert!(matches!(stores[3], BufferStore::Notify { index: 0 }));
    state.execute(&mut shared, read(9));
    assert!(matches!(state.execute(&mut shared, read(2)), Action::Done));
    let Action::Store { stores, .. } = state.execute(&mut shared, write(b"world")) else {
        panic!("expected an answer");
    };
    assert!(matches!(&stores[1], BufferStore::Bytes { data, .. } if data == b"wo"));
    let close = || SchedulerMessage::PipeClose { pipe_id: 4, worker_id: 1 };
    assert!(matches!(state.execute(&mut shared, close()), Action::Done));
    let Action::Store { stores, .. } = state.execute(&mut shared, read(9)) else {
        panic!("expected an answer");
    };
    assert!(matches!(&stores[1], BufferStore::Bytes { data, .. } if data == b"rld"));
    let Action::Store { stores, .. } = state.execute(&mut shared, read(9)) else {
        panic!("expected an answer");
    };
    assert_eq!(stores.len(), 2);
    assert!(matches!(stores[0], BufferStore::Word { index: 0, value: 2 }));
}

#[test]
fn handles_send_on_their_own_thread_only() {
    let (tx, mut rx) = mpsc::unbounded_channel();
    let scheduler = Scheduler::new(tx, 1);
    assert!(!scheduler.is_closed());
    assert!(matches!(scheduler.send(1, SchedulerMessage::SpawnAsync(5)), Sending::Sent));
    assert!(matches!(rx.try_recv(), Ok(SchedulerMessage::SpawnAsync(5))));
    assert!(matches!(
        scheduler.send(2, SchedulerMessage::SpawnAsync(6)),
        Sending::Post(SchedulerMessage::SpawnAsync(6))
    ));
    assert!(rx.try_recv().is_err());
    assert!(matches!(
        scheduler.route(2, SchedulerMessage::SpawnAsync(6)),
        Route::Post(SchedulerMessage::SpawnAsync(6))
    ));
    let copy = scheduler.clone();
    assert!(copy.close().is_ok());
    assert!(matches!(rx.try_recv(), Ok(SchedulerMessage::Close)));
    drop(rx);
    assert!(scheduler.is_closed());
    let Sending::Failed(error) = scheduler.send(1, SchedulerMessage::SpawnAsync(7)) else {
        panic!("expected a failure");
    };
    assert_eq!(error.to_text(), "Scheduler is dead");
    assert!(matches!(scheduler.close(), Err(SchedulerError::Dead)));
    assert!(sent(Ok(())).is_ok());
    assert!(matches!(sent(Err(SchedulerMessage::Close)), Err(SchedulerError::Dead)));
}

#[test]
fn close_stops_the_scheduler() {
    assert!(next_to_execute(None).is_none());
    assert!(next_to_execute(Some(SchedulerMessage::Close)).is_none());
    assert!(matches!(
        next_to_execute(Some(SchedulerMessage::SpawnBlocking(3))),
        Some(SchedulerMessage::SpawnBlocking(3))
    ));
}

#[test]
fn new_workers_are_told_about_modules_first() {
    let modules = vec![
        CachedModule { hash: ModuleHash::XXHash([1; 8]), module: 7 },
        CachedModule { hash: ModuleHash::XXHash([2; 8]), module: 8 },
    ];
    let start = Some(modules);
    let step = |tried: usize| post_progress(&start, tried, Ok(()));
    assert!(matches!(step(0), PostProgress::Perform(PostStep::Start)));
    assert!(matches!(step(1), PostProgress::Perform(PostStep::Prime(m)) if m.module == 7));
    assert!(matches!(step(2), PostProgress::Perform(PostStep::Prime(m)) if m.module == 8));
    assert!(matches!(step(3), PostProgress::Perform(PostStep::Work)));
    assert!(matches!(step(4), PostProgress::Finished(PostOutcome::Sent)));
    let failed = |tried: usize| post_progress(&start, tried, Err("x".to_string()));
    for tried in 1..4 {
        assert!(matches!(
            failed(tried),
            PostProgress::Finished(PostOutcome::NotStarted(e)) if e == "x"
        ));
    }
    assert!(matches!(failed(4), PostProgress::Finished(PostOutcome::NotSent(e)) if e == "x"));
    assert!(matches!(
        post_progress(&None, 0, Ok(())),
        PostProgress::Perform(PostStep::Work)
    ));
    assert!(matches!(
        post_progress(&None, 1, Err("x".to_string())),
        PostProgress::Finished(PostOutcome::NotSent(_))
    ));
    assert!(matches!(
        post_progress(&None, 1, Ok(())),
        PostProgress::Finished(PostOutcome::Sent)
    ));
}

#[test]
fn news_stop_at_the_first_worker_that_cannot_be_told() {
    let workers = vec![4, 2];
    let next = |tried: usize| broadcast_progress(&workers, tried, Ok(()));
    assert!(matches!(next(0), BroadcastProgress::Tell(4)));
    assert!(matches!(next(1), BroadcastProgress::Tell(2)));
    assert!(matches!(next(2), BroadcastProgress::Finished));
    assert!(matches!(
        broadcast_progress(&workers, 1, Err("x".to_string())),
        BroadcastProgress::Failed(e) if e == "x"
    ));
}
