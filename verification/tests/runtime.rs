use std::sync::Arc;
use wasmer_js_tasks::host_exec::{
    finish_poll, finish_read, finish_try_read, AtomicsOperation, BufferOutcome, HostExecCall,
    HostExecImpl,
};
use wasmer_js_tasks::ids::IdCounter;
use wasmer_js_tasks::response::{
    data_response, exit_response, is_readable, no_data_response, poll_response, BufferStore,
    HostExecOutput,
};
use wasmer_js_tasks::runtime::{
    Networking, Runtime, SharedRuntime, Tty, TtyOptions, WasiTtyState,
};
use wasmer_js_tasks::tasks::scheduler::SharedState;
use wasmer_js_tasks::tasks::scheduler_message::SchedulerMessage;

const TTY_OPTIONS: TtyOptions =
    TtyOptions { cols: 80, rows: 25, echo: true, line_buffering: true, line_feeds: true };

fn answered(stores: Vec<BufferStore>) -> Vec<u8> {
    let mut buffer = vec![0u8; 64];
    for store in stores {
        match store {
            BufferStore::Word { index, value } => {
                let at = 4 * index as usize;
                buffer[at..at + 4].copy_from_slice(&value.to_le_bytes());
            }
            BufferStore::Bytes { offset, data } => {
                let at = offset as usize;
                buffer[at..at + data.len()].copy_from_slice(&data);
            }
            BufferStore::Notify { .. } => {}
        }
    }
    buffer
}

#[test]
fn answers_are_read_back() {
    let buffer = answered(data_response(7, 1, b"out".to_vec()));
    assert!(is_readable(&buffer));
    assert!(matches!(
        finish_read(BufferOutcome::Woken(&buffer), 7),
        Ok(HostExecOutput::Stdout(data)) if data == b"out"
    ));
    assert!(matches!(
        finish_try_read(BufferOutcome::Woken(&buffer)),
        Ok(Some(HostExecOutput::Stdout(data))) if data == b"out"
    ));
    let buffer = answered(data_response(7, 2, b"err".to_vec()));
    assert!(matches!(
        finish_read(BufferOutcome::Woken(&buffer), 7),
        Ok(HostExecOutput::Stderr(data)) if data == b"err"
    ));
    let buffer = answered(data_response(7, 10, b"{}".to_vec()));
    assert!(matches!(
        finish_read(BufferOutcome::Woken(&buffer), 7),
        Ok(HostExecOutput::Raw { msg_type: 10, data }) if data == b"{}"
    ));
    let buffer = answered(exit_response(7, -3));
    assert!(matches!(
        finish_read(BufferOutcome::Woken(&buffer), 7),
        Ok(HostExecOutput::Exit(-3))
    ));
    assert!(matches!(
        finish_try_read(BufferOutcome::Woken(&buffer)),
        Ok(Some(HostExecOutput::Exit(-3)))
    ));
    let buffer = answered(no_data_response(7));
    assert!(matches!(finish_try_read(BufferOutcome::Woken(&buffer)), Ok(None)));
    for ready in [true, false] {
        let buffer = answered(poll_response(7, ready));
        assert_eq!(finish_poll(BufferOutcome::Woken(&buffer)).unwrap(), ready);
    }
    let mut buffer = answered(data_response(7, 1, b"out".to_vec()));
    buffer[8..12].copy_from_slice(&(-1i32).to_le_bytes());
    assert!(!is_readable(&buffer));
}

#[test]
fn answers_name_their_session() {
    let buffer = answered(data_response(7, 1, vec![]));
    let error = finish_read(BufferOutcome::Woken(&buffer), 8).unwrap_err();
    assert_eq!(error.message, "session mismatch: expected 8, got 7");
    // Only 32 bits of the session's id are sent, and they come back signed.
    let buffer = answered(data_response(1 << 31, 1, vec![]));
    let error = finish_read(BufferOutcome::Woken(&buffer), 1 << 31).unwrap_err();
    assert_eq!(
        error.message,
        "session mismatch: expected 2147483648, got 18446744071562067968"
    );
}

#[test]
fn unusable_buffers_are_reported() {
    assert_eq!(
        finish_poll(BufferOutcome::Missing).unwrap_err().message,
        "host_exec buffer not initialized"
    );
    let failed = |operation: AtomicsOperation| {
        finish_try_read(BufferOutcome::Failed { operation, cause: "x".to_string() })
            .unwrap_err()
            .message
    };
    assert_eq!(failed(AtomicsOperation::Store), "Atomics::store failed: x");
    assert_eq!(failed(AtomicsOperation::Wait), "Atomics::wait failed: x");
    assert_eq!(failed(AtomicsOperation::Load), "Atomics::load failed: x");
}

#[test]
fn calls_become_messages() {
    let mut host_exec = HostExecImpl::new();
    let (session, message) = host_exec.host_exec_start(Some(3), Ok(b"{}".to_vec()));
    assert_eq!(session, 0);
    assert!(matches!(
        message,
        Ok(SchedulerMessage::HostExecStart { worker_id: 3, request_id: 0, request_json })
            if request_json == b"{}"
    ));
    assert!(matches!(
        host_exec.host_exec_read(Some(3), 0),
        Ok(SchedulerMessage::HostExecRead { worker_id: 3, request_id: 1, session_id: 0 })
    ));
    assert!(matches!(
        host_exec.host_exec_write(Some(3), 0, vec![1]),
        Ok(SchedulerMessage::HostExecWrite { request_id: 2, data, .. }) if data == vec![1]
    ));
    assert!(matches!(
        host_exec.host_exec_close_stdin(Some(3), 0),
        Ok(SchedulerMessage::HostExecCloseStdin { request_id: 3, .. })
    ));
    assert!(matches!(
        host_exec.host_exec_try_read(Some(3), 0),
        Ok(SchedulerMessage::HostExecTryRead { request_id: 4, .. })
    ));
    assert!(matches!(
        host_exec.host_exec_poll(Some(3), 0),
        Ok(SchedulerMessage::HostExecPoll { request_id: 5, .. })
    ));
    assert!(matches!(
        host_exec.host_exec_signal(Some(3), 0, 9),
        Ok(SchedulerMessage::HostExecSignal { request_id: 6, signal: 9, .. })
    ));
    assert!(matches!(
        host_exec.host_exec_child_output(Some(3), 0, 8, 20, vec![2]),
        Ok(SchedulerMessage::HostExecChildOutput {
            request_id: 7,
            child_id: 8,
            msg_type: 20,
            data,
            ..
        }) if data == vec![2]
    ));
}

#[test]
fn calls_outside_of_workers_fail() {
    let mut host_exec = HostExecImpl::new();
    assert_eq!(
        host_exec.host_exec_read(None, 0).unwrap_err().message,
        "host_exec_read called outside of worker thread"
    );
    assert_eq!(host_exec.next_session_id.next, 0);
    // Starting a program uses up an id in any case.
    let (session, result) = host_exec.host_exec_start(None, Ok(vec![]));
    assert_eq!(session, 0);
    assert_eq!(
        result.unwrap_err().message,
        "host_exec_start called outside of worker thread"
    );
    assert_eq!(host_exec.next_session_id.next, 1);
    let (_, result) = host_exec.host_exec_start(Some(1), Err("bad".to_string()));
    assert_eq!(result.unwrap_err().message, "Failed to serialize request: bad");
    assert_eq!(
        host_exec.host_exec_child_output(None, 0, 0, 0, vec![]).unwrap_err().message,
        "host_exec_child_output called outside of worker thread"
    );
}

#[test]
fn unsent_calls_say_why() {
    let unsent = |call: HostExecCall| call.sent(Err("x".to_string())).unwrap_err().message;
    assert_eq!(unsent(HostExecCall::Start), "Failed to send host_exec request: x");
    assert_eq!(unsent(HostExecCall::TryRead), "Failed to send host_exec_try_read: x");
    assert_eq!(unsent(HostExecCall::CloseStdin), "Failed to send host_exec_close_stdin: x");
    assert!(HostExecCall::Poll.sent(Ok(())).is_ok());
}

#[test]
fn registries_are_urls() {
    let mut runtime = Runtime::new();
    assert!(runtime.source().is_none());
    let error = runtime.set_registry("registry.wasmer.io", None).unwrap_err();
    assert_eq!(error.message, "relative URL without a base");
    assert!(runtime.source().is_none());
    runtime.set_registry("HTTPS://Registry.wasmer.io/graphql", Some("abc")).unwrap();
    let source = runtime.source().unwrap();
    assert_eq!(source.url, "https://registry.wasmer.io/graphql");
    assert_eq!(source.token.as_deref(), Some("abc"));
    assert!(runtime.set_registry("http://[", None).is_err());
    assert_eq!(runtime.source().unwrap().token.as_deref(), Some("abc"));
    runtime.set_parsed_registry(Ok("https://x/".to_string()), None).unwrap();
    assert_eq!(runtime.source().unwrap().url, "https://x/");
    assert!(runtime.source().unwrap().token.is_none());
}

#[test]
fn runtimes_are_configured() {
    let mut runtime = Runtime::with_defaults("https://registry.wasmer.io/graphql").unwrap();
    assert!(Runtime::with_defaults("").is_err());
    assert!(runtime.task_manager.is_none());
    assert!(matches!(runtime.networking, Networking::Unsupported));
    runtime.set_network_gateway("wss://gateway".to_string());
    let pooled = runtime.with_default_pool(6);
    assert_eq!(pooled.task_manager(), 6);
    assert_eq!(runtime.with_task_manager(7).task_manager(), 7);
    assert!(matches!(&pooled.networking, Networking::Gateway(url) if url == "wss://gateway"));
    assert_eq!(pooled.source().unwrap().url, "https://registry.wasmer.io/graphql");
    let mut scheduler = SharedState::new();
    runtime.set_host_exec_handler(&mut scheduler, 12);
    assert_eq!(scheduler.host_exec_handler, Some(12));
    let shared = SharedRuntime::new(TTY_OPTIONS);
    assert_eq!(runtime.host_exec_impl(&shared).next_session_id.next, 0);
    let mut ids = IdCounter::for_pipes();
    let (tx, rx, message) = runtime.create_pipe(&mut ids, Some(2));
    assert_eq!((tx.id(), rx.id()), (1, 1));
    assert!(matches!(message, SchedulerMessage::PipeCreate { pipe_id: 1, worker_id: 2 }));
}

#[test]
fn terminals_keep_what_is_set() {
    let mut tty = Tty::new(TTY_OPTIONS);
    assert_eq!(tty.tty_options().cols, 80);
    let state = tty.tty_get();
    assert_eq!((state.cols, state.rows, state.width, state.height), (80, 25, 800, 600));
    assert!(!state.stdin_tty && !state.stdout_tty && !state.stderr_tty);
    assert!(state.echo && state.line_buffered && state.line_feeds);
    tty.tty_set(WasiTtyState {
        cols: 100,
        rows: 40,
        width: 1,
        height: 2,
        stdin_tty: false,
        stdout_tty: true,
        stderr_tty: false,
        echo: false,
        line_buffered: false,
        line_feeds: false,
    });
    let state = tty.tty_get();
    assert_eq!((state.cols, state.rows, state.width, state.height), (100, 40, 800, 600));
    assert!(state.stdin_tty && state.stdout_tty && state.stderr_tty);
    assert!(!state.echo && !state.line_buffered && !state.line_feeds);
    tty.reset();
    let state = tty.tty_get();
    assert_eq!((state.cols, state.rows), (100, 40));
    assert!(!state.stdin_tty && state.echo && state.line_buffered && state.line_feeds);
}

#[test]
fn copies_of_a_runtime_say_the_same() {
    let mut runtime = Runtime::new().with_task_manager(4);
    runtime.set_registry("https://x/", Some("abc")).unwrap();
    runtime.set_network_gateway("wss://gateway".to_string());
    let copy = runtime.clone();
    runtime.set_network_gateway("wss://other".to_string());
    assert_eq!(copy.task_manager(), 4);
    assert_eq!(copy.source().unwrap().url, "https://x/");
    assert_eq!(copy.source().unwrap().token.as_deref(), Some("abc"));
    assert!(matches!(&copy.networking, Networking::Gateway(url) if url == "wss://gateway"));
}

#[test]
fn one_runtime_is_global() {
    let first = Runtime::lazily_initialized(None, "https://x").unwrap();
    assert_eq!(first.source().unwrap().url, "https://x/");
    let again = Runtime::lazily_initialized(Some(Arc::clone(&first)), "not a URL").unwrap();
    assert!(Arc::ptr_eq(&first, &again));
    let error = Runtime::lazily_initialized(None, "not a URL").unwrap_err();
    assert_eq!(error.message, "relative URL without a base");
}

#[test]
fn host_execution_starts_with_session_zero() {
    let mut host_exec = HostExecImpl::default();
    assert_eq!(host_exec.next_session_id.next, HostExecImpl::new().next_session_id.next);
    assert_eq!(host_exec.host_exec_start(Some(1), Ok(vec![])).0, 0);
    assert_eq!(host_exec.host_exec_start(Some(1), Ok(vec![])).0, 1);
}
