use wasmer_js_tasks::tasks::host_exec_context::Callback;
use wasmer_js_tasks::tasks::scheduler_message::SchedulerMessage;
use wasmer_js_tasks::tasks::sessions::{HostExecSessions, HostValue, Reading, Settlement};

fn completed(message: Option<SchedulerMessage>) -> (u32, u64, u32, Vec<u8>) {
    match message {
        Some(SchedulerMessage::HostExecReadComplete { worker_id, request_id, msg_type, data }) => {
            (worker_id, request_id, msg_type, data)
        }
        other => panic!("{other:?}"),
    }
}

fn taken(reading: Reading) -> (u32, Vec<u8>) {
    match reading {
        Reading::Data { msg_type, data } => (msg_type, data),
        other => panic!("{other:?}"),
    }
}

#[test]
fn output_is_read_before_the_exit_code() {
    let mut sessions = HostExecSessions::new();
    assert!(sessions.on_stdout(1, Some(vec![1])).is_none());
    assert!(sessions.on_stderr(1, Some(vec![2])).is_none());
    assert!(sessions.on_stdout(1, None).is_none());
    assert!(sessions.promise_settled(1, Settlement::Fulfilled(Some(3))).is_none());
    assert!(sessions.poll(1));
    assert_eq!(taken(sessions.try_read(1)), (1, vec![1]));
    assert_eq!(taken(sessions.read(9, 1)), (2, vec![2]));
    assert!(sessions.poll(1));
    assert!(matches!(sessions.read(9, 1), Reading::Exit(3)));
    assert!(!sessions.poll(1));
    assert!(matches!(sessions.try_read(1), Reading::Nothing));
    assert!(sessions.pending_reads.is_empty());
}

#[test]
fn waiting_reads_get_what_comes() {
    let mut sessions = HostExecSessions::new();
    assert!(matches!(sessions.read(5, 1), Reading::Nothing));
    assert_eq!(completed(sessions.on_stdout(1, Some(vec![7]))), (5, 1, 1, vec![7]));
    assert!(matches!(sessions.try_read(1), Reading::Nothing));
    assert!(matches!(sessions.read(6, 1), Reading::Nothing));
    assert!(sessions.on_stderr(2, Some(vec![8])).is_none());
    assert_eq!(completed(sessions.on_stderr(1, Some(vec![9]))), (6, 1, 2, vec![9]));
    assert!(matches!(sessions.read(6, 1), Reading::Nothing));
    assert_eq!(
        completed(sessions.promise_settled(1, Settlement::Rejected)),
        (6, 1, 3, vec![1, 0, 0, 0])
    );
    // The exit code is kept for a later read as well.
    assert!(matches!(sessions.try_read(1), Reading::Exit(1)));
}

#[test]
fn promises_that_give_no_number_exit_with_zero() {
    let mut sessions = HostExecSessions::new();
    sessions.promise_settled(1, Settlement::Fulfilled(None));
    assert!(matches!(sessions.try_read(1), Reading::Exit(0)));
}

#[test]
fn requests_for_children_are_queued() {
    let mut sessions = HostExecSessions::new();
    assert!(sessions.request_spawn(1, Some(4), b"{}".to_vec(), Some(1), Some(2), None).is_none());
    assert_eq!(sessions.child_output(4), None);
    assert!(sessions.request_spawn(1, Some(4), b"[]".to_vec(), Some(1), Some(2), Some(3)).is_none());
    assert_eq!(sessions.child_output(4), Some((1, 2, 3)));
    assert!(sessions.spawn_write_stdin(1, Some(0x0102), Some(vec![9])).is_none());
    assert!(sessions.spawn_write_stdin(1, Some(1), None).is_none());
    assert!(sessions.spawn_close_stdin(1, None).is_none());
    assert!(sessions.spawn_kill(1, Some(1), None).is_none());
    assert_eq!(taken(sessions.try_read(1)), (10, b"{}".to_vec()));
    assert_eq!(taken(sessions.try_read(1)), (10, b"[]".to_vec()));
    assert_eq!(taken(sessions.try_read(1)), (11, vec![2, 1, 0, 0, 0, 0, 0, 0, 9]));
    assert_eq!(taken(sessions.try_read(1)), (12, vec![0; 8]));
    assert_eq!(
        taken(sessions.try_read(1)),
        (13, vec![1, 0, 0, 0, 0, 0, 0, 0, 15, 0, 0, 0])
    );
    assert!(matches!(sessions.read(3, 1), Reading::Nothing));
    assert_eq!(
        completed(sessions.spawn_kill(1, Some(1), Some(9))),
        (3, 1, 13, vec![1, 0, 0, 0, 0, 0, 0, 0, 9, 0, 0, 0])
    );
    assert!(!sessions.poll(1));
}

fn number(long: u64) -> HostValue {
    HostValue::Number { long, word: long as u32 }
}

#[test]
fn callbacks_write_output() {
    let mut sessions = HostExecSessions::new();
    let data = vec![HostValue::Bytes(vec![1, 2])];
    assert!(sessions.called(5, Callback::OnStdout, &data, vec![]).is_none());
    assert!(sessions.called(5, Callback::OnStderr, &data, vec![]).is_none());
    assert_eq!(taken(sessions.try_read(5)), (1, vec![1, 2]));
    assert_eq!(taken(sessions.try_read(5)), (2, vec![1, 2]));
    // What is no byte array is no output.
    assert!(sessions.called(5, Callback::OnStdout, &vec![number(1)], vec![]).is_none());
    assert!(sessions.called(5, Callback::OnStderr, &vec![], vec![]).is_none());
    assert!(!sessions.poll(5));
    assert!(matches!(sessions.read(8, 5), Reading::Nothing));
    let message = sessions.called(5, Callback::OnStdout, &data, vec![]);
    assert_eq!(completed(message), (8, 5, 1, vec![1, 2]));
}

#[test]
fn callbacks_keep_functions() {
    let mut sessions = HostExecSessions::new();
    let functions =
        vec![HostValue::Function(11), HostValue::Function(12), HostValue::Function(13)];
    assert!(sessions.called(5, Callback::SetStdinWriter, &functions, vec![]).is_none());
    assert_eq!(sessions.stdin_writer(5), Some(11));
    assert_eq!(sessions.take_stdin_closer(5), Some(12));
    assert!(sessions.called(5, Callback::SetKillFunction, &functions, vec![]).is_none());
    assert_eq!(sessions.kill_function(5), Some(11));
    assert!(sessions.called(5, Callback::SetChildOutputHandlers, &functions, vec![]).is_none());
    assert_eq!(sessions.child_output(5), Some((11, 12, 13)));
    assert!(sessions.called(6, Callback::SetKillFunction, &vec![HostValue::Other], vec![]).is_none());
    assert_eq!(sessions.kill_function(6), None);
}

#[test]
fn callbacks_ask_for_children() {
    let mut sessions = HostExecSessions::new();
    let request = vec![
        number(4),
        HostValue::Other,
        HostValue::Other,
        HostValue::Other,
        HostValue::Other,
        HostValue::Function(1),
        HostValue::Function(2),
        HostValue::Function(3),
    ];
    assert!(sessions.called(5, Callback::RequestSpawn, &request, b"{}".to_vec()).is_none());
    assert_eq!(sessions.child_output(4), Some((1, 2, 3)));
    let data = vec![number(4), HostValue::Bytes(vec![9])];
    assert!(sessions.called(5, Callback::SpawnWriteStdin, &data, vec![]).is_none());
    assert!(sessions.called(5, Callback::SpawnCloseStdin, &vec![], vec![]).is_none());
    assert!(sessions.called(5, Callback::SpawnKill, &vec![number(4), number(9)], vec![]).is_none());
    assert!(sessions.called(5, Callback::SpawnKill, &vec![number(4)], vec![]).is_none());
    assert_eq!(taken(sessions.try_read(5)), (10, b"{}".to_vec()));
    assert_eq!(taken(sessions.try_read(5)), (11, vec![4, 0, 0, 0, 0, 0, 0, 0, 9]));
    assert_eq!(taken(sessions.try_read(5)), (12, vec![0; 8]));
    assert_eq!(taken(sessions.try_read(5)), (13, vec![4, 0, 0, 0, 0, 0, 0, 0, 9, 0, 0, 0]));
    assert_eq!(taken(sessions.try_read(5)), (13, vec![4, 0, 0, 0, 0, 0, 0, 0, 15, 0, 0, 0]));
}
