use std::collections::HashMap;
use wasmer_js_tasks::ids::{IdCounter, WorkerIdCounter};
use wasmer_js_tasks::pipes::buffers::PipeBuffers;
use wasmer_js_tasks::pipes::extract::{
    extract_pipe_buffers, reconnect_in_order, reconnect_pipe_buffers, FdKind, FileTable,
    PipeBufferMap, PipeEnd,
};
use wasmer_js_tasks::pipes::pool::{
    allocate_from_pool, create_pipe_pool, get_pipe_pool, get_pool_int32_view, get_pool_uint8_view,
    init_pipe_pool, is_pipe_pool_initialized, AllocationEvent, AllocationStep, PipePool,
    SharedBuffer, PIPE_POOL_SIZE,
};
use wasmer_js_tasks::pipes::{
    PipeErrorKind, SimplePipe, SimplePipeRx, SimplePipeTx, WaitOutcome, Writing,
};
use wasmer_js_tasks::response::{pipe_response, BufferStore};
use wasmer_js_tasks::tasks::scheduler_message::SchedulerMessage;

#[test]
fn test_empty_env() {
    assert!(extract_pipe_buffers(Some(&FileTable::default())).is_empty());
    assert!(extract_pipe_buffers(None).is_empty());
}

fn apply(buffer: &mut [u8], stores: Vec<BufferStore>) {
    for store in stores {
        match store {
            BufferStore::Word { index, value } => {
                let at = 4 * index as usize;
                buffer[at..at + 4].copy_from_slice(&value.to_le_bytes());
            }
            BufferStore::Bytes { offset, data } => {
                let at = offset as usize;
                buffer[at..at + data.len()].copy_from_slice(&data);
            }
            BufferStore::Notify { .. } => {}
        }
    }
}

fn pool() -> PipePool {
    let mut slot = PipePool::new();
    init_pipe_pool(&mut slot, SharedBuffer { handle: 5, byte_length: PIPE_POOL_SIZE });
    slot
}

#[test]
fn ids_start_over_after_the_last() {
    let mut ids = IdCounter::starting_at(u64::MAX - 1);
    assert_eq!([ids.allocate(), ids.allocate(), ids.allocate()], [u64::MAX - 1, u64::MAX, 0]);
    let mut ids = WorkerIdCounter::starting_at(u32::MAX);
    assert_eq!([ids.allocate(), ids.allocate()], [u32::MAX, 0]);
}

#[test]
fn pipes_have_ids_of_their_own() {
    let mut ids = IdCounter::for_pipes();
    let (first, message) = SimplePipe::new(&mut ids, Some(3));
    assert!(matches!(message, SchedulerMessage::PipeCreate { pipe_id: 1, worker_id: 3 }));
    let (second, message) = SimplePipe::new(&mut ids, None);
    assert!(matches!(message, SchedulerMessage::PipeCreate { pipe_id: 2, worker_id: 0 }));
    assert_eq!((first.id(), second.id()), (1, 2));
    assert_eq!((first.tx().id(), first.rx().id()), (1, 1));
    let (tx, rx) = second.split();
    assert_eq!((tx.id(), rx.id()), (2, 2));
    assert_eq!(SimplePipe::from_id(8).id(), 8);
    assert_eq!(SimplePipeTx::from_id(9).clone().id(), 9);
    assert_eq!(SimplePipeRx::from_id(10).clone().id(), 10);
}

#[test]
fn writes_are_sent() {
    let tx = SimplePipeTx::from_id(4);
    assert!(matches!(tx.write_data(Some(1), b""), Writing::Done));
    assert!(matches!(
        tx.write_data(Some(1), b"hi"),
        Writing::Emit(SchedulerMessage::PipeWrite { pipe_id: 4, worker_id: 1, data }) if data == b"hi"
    ));
    assert_eq!(tx.written(2, Ok(())).unwrap(), 2);
    let error = tx.written(2, Err("gone".to_string())).unwrap_err();
    assert_eq!((error.kind, error.message.as_str()), (PipeErrorKind::BrokenPipe, "gone"));
    assert!(matches!(
        tx.close(None),
        SchedulerMessage::PipeClose { pipe_id: 4, worker_id: 0 }
    ));
}

#[test]
fn reads_ask_and_receive() {
    let rx = SimplePipeRx::from_id(4);
    let error = rx.read_request(None, 3).unwrap_err();
    assert_eq!((error.kind, error.message.as_str()), (PipeErrorKind::Other, "Worker ID not set"));
    assert!(matches!(
        rx.read_request(Some(2), 3),
        Ok(SchedulerMessage::PipeRead { pipe_id: 4, worker_id: 2, max_len: 3 })
    ));
    let mut shared = vec![0u8; 96];
    apply(&mut shared, pipe_response(Some(b"hello".to_vec())));
    let mut buf = *b"-------";
    assert_eq!(rx.read_blocking(WaitOutcome::Woken(&shared), &mut buf).unwrap(), 5);
    assert_eq!(&buf, b"hello--");
    let mut small = [0u8; 3];
    assert_eq!(rx.read_blocking(WaitOutcome::Woken(&shared), &mut small).unwrap(), 3);
    assert_eq!(&small, b"hel");
    apply(&mut shared, pipe_response(None));
    assert_eq!(rx.read_blocking(WaitOutcome::Woken(&shared), &mut buf).unwrap(), 0);
    assert_eq!(&buf, b"hello--");
}

#[test]
fn failed_reads_say_why() {
    let rx = SimplePipeRx::from_id(4);
    let mut buf = [0u8; 4];
    let mut fail = |outcome: WaitOutcome<'_>| {
        let error = rx.read_blocking(outcome, &mut buf).unwrap_err();
        (error.kind, error.message)
    };
    assert_eq!(
        fail(WaitOutcome::NotSent("a".to_string())),
        (PipeErrorKind::BrokenPipe, "a".to_string())
    );
    assert_eq!(
        fail(WaitOutcome::NoBuffer),
        (PipeErrorKind::Other, "Host exec buffer not initialized".to_string())
    );
    assert_eq!(
        fail(WaitOutcome::BufferFailed("b".to_string())),
        (PipeErrorKind::Other, "b".to_string())
    );
    assert_eq!(
        fail(WaitOutcome::Woken(&[0; 8])),
        (PipeErrorKind::BrokenPipe, "Pipe error".to_string())
    );
}

#[test]
fn ends_refuse_the_wrong_direction() {
    let tx = SimplePipeTx::from_id(1);
    let rx = SimplePipeRx::from_id(1);
    assert_eq!(tx.poll_read().message, "Write-only pipe");
    assert_eq!(rx.poll_write().message, "Read-only pipe");
    assert_eq!(tx.poll_read_ready().unwrap_err().message, "Write-only");
    assert_eq!(rx.poll_write_ready().unwrap_err().kind, PipeErrorKind::InvalidInput);
    assert_eq!(rx.poll_write_ready().unwrap_err().message, "Read-only");
    assert_eq!(tx.poll_write_ready().unwrap(), 65536);
    assert_eq!(rx.poll_read_ready().unwrap(), 1);
    assert!(tx.is_open() && rx.is_open());
    assert_eq!(
        [tx.last_accessed(), tx.last_modified(), tx.created_time(), tx.size(), tx.seek()],
        [0; 5]
    );
    assert_eq!(
        [rx.last_accessed(), rx.last_modified(), rx.created_time(), rx.size(), rx.seek()],
        [0; 5]
    );
}

#[test]
fn pipe_bytes_come_out_in_order() {
    let mut pipes = PipeBuffers::new();
    pipes.create(1);
    pipes.create(2);
    assert!(pipes.write(1, vec![1, 2, 3]).is_none());
    assert!(pipes.write(2, vec![9]).is_none());
    assert!(pipes.write(1, vec![4]).is_none());
    let answer = pipes.read(1, 7, 2).unwrap();
    assert_eq!((answer.worker_id, answer.data), (7, Some(vec![1, 2])));
    assert!(pipes.close(1).is_none());
    assert_eq!(pipes.read(1, 7, 9).unwrap().data, Some(vec![3, 4]));
    assert_eq!(pipes.read(1, 7, 9).unwrap().data, None);
    assert_eq!(pipes.read(2, 7, 9).unwrap().data, Some(vec![9]));
    assert!(pipes.read(2, 8, 9).is_none());
    let answer = pipes.close(2).unwrap();
    assert_eq!((answer.worker_id, answer.data), (8, None));
    assert!(pipes.close(3).is_none());
    // Creating a pipe again empties it.
    pipes.create(1);
    assert!(pipes.read(1, 7, 9).is_none());
    assert_eq!(pipes.write(1, vec![]).unwrap().data, Some(vec![]));
}

#[test]
fn pools_are_known_once_initialized() {
    let mut slot = PipePool::new();
    assert!(!is_pipe_pool_initialized(&slot));
    assert_eq!(allocate_from_pool(&slot, 8, AllocationEvent::Begin), AllocationStep::Refused);
    let buffer = SharedBuffer { handle: 5, byte_length: 64 };
    init_pipe_pool(&mut slot, buffer);
    assert!(is_pipe_pool_initialized(&slot));
    assert_eq!(get_pipe_pool(&slot), buffer);
    let view = get_pool_uint8_view(&slot, 3, 5).unwrap();
    assert_eq!((view.handle, view.offset, view.length), (5, 3, 5));
    let view = get_pool_int32_view(&slot, 8, 2).unwrap();
    assert_eq!((view.handle, view.offset, view.length), (5, 8, 2));
    let (size, store) = create_pipe_pool();
    assert_eq!(size, 16 * 1024 * 1024);
    assert!(matches!(store, BufferStore::Word { index: 0, value: 4 }));
}

#[test]
fn allocations_claim_the_first_free_bytes() {
    let slot = pool();
    let step = |size: u32, event: AllocationEvent| allocate_from_pool(&slot, size, event);
    assert_eq!(step(100, AllocationEvent::Begin), AllocationStep::Load);
    assert_eq!(
        step(100, AllocationEvent::Loaded(Some(4))),
        AllocationStep::Exchange { expected: 4, replacement: 104 }
    );
    assert_eq!(
        step(100, AllocationEvent::Exchanged { expected: 4, found: Some(4) }),
        AllocationStep::Allocated(4)
    );
    assert_eq!(
        step(100, AllocationEvent::Exchanged { expected: 4, found: Some(104) }),
        AllocationStep::Load
    );
    assert_eq!(
        step(100, AllocationEvent::Exchanged { expected: 4, found: None }),
        AllocationStep::Load
    );
    assert_eq!(
        step(PIPE_POOL_SIZE - 4, AllocationEvent::Loaded(None)),
        AllocationStep::Exchange { expected: 4, replacement: PIPE_POOL_SIZE as i32 }
    );
    assert_eq!(
        step(PIPE_POOL_SIZE - 3, AllocationEvent::Loaded(None)),
        AllocationStep::Refused
    );
    assert_eq!(step(u32::MAX, AllocationEvent::Loaded(Some(4))), AllocationStep::Refused);
    assert_eq!(step(0, AllocationEvent::Loaded(Some(-1))), AllocationStep::Refused);
}

fn tx(pool_offset: u32) -> PipeEnd {
    PipeEnd::SharedTx { pool_offset, buffer_size: 64 }
}

fn rx(pool_offset: u32) -> PipeEnd {
    PipeEnd::SharedRx { pool_offset, buffer_size: 64 }
}

#[test]
fn forks_share_their_parents_pipes() {
    let fds = HashMap::from([
        (0, 100),
        (3, 103),
        (4, 104),
        (5, 105),
        (6, 106),
        (7, 107),
        (8, 108),
        (9, 109),
    ]);
    let inodes = HashMap::from([
        (100, FdKind::Other),
        (103, FdKind::PipeTx(13)),
        (104, FdKind::PipeRx(14)),
        (105, FdKind::PipeRx(15)),
        (106, FdKind::PipeTx(16)),
        (107, FdKind::Poisoned),
        (108, FdKind::PipeTx(18)),
        (109, FdKind::PipeTx(19)),
    ]);
    let parent = FileTable {
        fds: fds.clone(),
        inodes: inodes.clone(),
        ends: HashMap::from([
            (13, tx(4)),
            (14, rx(68)),
            (15, PipeEnd::Foreign),
            (16, PipeEnd::Poisoned),
            (18, tx(132)),
            (19, tx(196)),
        ]),
    };
    let buffers = extract_pipe_buffers(Some(&parent));
    assert!(!buffers.is_empty());
    assert_eq!(buffers.all_fds_debug, "");
    let mut list = extract_pipe_buffers(Some(&parent)).into_vec();
    list.sort();
    assert_eq!(
        list,
        vec![(3, true, 4, 64), (4, false, 68, 64), (8, true, 132, 64), (9, true, 196, 64)]
    );
    let mut child = FileTable {
        fds: fds.clone(),
        inodes: inodes.clone(),
        ends: HashMap::from([
            (13, PipeEnd::Foreign),
            (14, rx(1000)),
            (15, PipeEnd::Foreign),
            (16, tx(8)),
            (18, PipeEnd::Foreign),
            (19, PipeEnd::Poisoned),
        ]),
    };
    // An end of the other direction is left alone.
    child.inodes.insert(108, FdKind::PipeRx(18));
    reconnect_pipe_buffers(&pool(), &mut child, buffers);
    assert_eq!(
        child.ends,
        HashMap::from([
            (13, tx(4)),
            (14, rx(68)),
            (15, PipeEnd::Foreign),
            (16, tx(8)),
            (18, PipeEnd::Foreign),
            (19, PipeEnd::Poisoned),
        ])
    );
    assert_eq!(child.fds, fds);
    assert_eq!(child.inodes.len(), inodes.len());
    assert_eq!(child.inodes[&103], FdKind::PipeTx(13));
    assert!(PipeBufferMap::new().into_vec().is_empty());
}

#[test]
fn descriptors_that_share_an_end_are_reconnected_together() {
    let mut table = FileTable {
        fds: HashMap::from([(1, 100), (3, 100), (5, 101), (6, 102)]),
        inodes: HashMap::from([
            (100, FdKind::PipeTx(10)),
            (101, FdKind::PipeTx(10)),
            (102, FdKind::PipeRx(11)),
        ]),
        ends: HashMap::from([(10, PipeEnd::Foreign), (11, rx(500))]),
    };
    // Only one of the three descriptors is listed.
    reconnect_pipe_buffers(
        &pool(),
        &mut table,
        PipeBufferMap::from_vec(vec![(3, true, 4, 64)], String::new()),
    );
    for fd in [1, 3, 5] {
        assert_eq!(table.end_of(fd, true), Some(10));
        assert_eq!(table.connection(fd), Some((true, 4, 64)));
    }
    assert_eq!(table.connection(6), Some((false, 500, 64)));
    assert_eq!(table.connection(7), None);
    // The last one that is reconnected counts.
    reconnect_in_order(&pool(), &mut table, &vec![(1, true, 68, 64), (5, true, 132, 64)]);
    assert_eq!(table.connection(3), Some((true, 132, 64)));
    reconnect_in_order(&pool(), &mut table, &vec![(5, true, 132, 64), (1, true, 68, 64)]);
    assert_eq!(table.connection(3), Some((true, 68, 64)));
}

#[test]
fn reconnecting_to_own_pipes_changes_nothing() {
    let mut table = FileTable {
        fds: HashMap::from([(1, 100), (2, 100), (3, 101)]),
        inodes: HashMap::from([(100, FdKind::PipeTx(10)), (101, FdKind::PipeRx(11))]),
        ends: HashMap::from([(10, tx(4)), (11, tx(68))]),
    };
    // A read end that holds a write end has no connection.
    assert_eq!(table.connection(3), None);
    let own = extract_pipe_buffers(Some(&table));
    assert_eq!(own.buffers, HashMap::from([(1, (true, 4, 64)), (2, (true, 4, 64))]));
    reconnect_pipe_buffers(&pool(), &mut table, own);
    assert_eq!(table.ends, HashMap::from([(10, tx(4)), (11, tx(68))]));
}

#[test]
fn pipe_ids_increase_from_one() {
    let mut ids = IdCounter::for_pipes();
    let created: Vec<u64> =
        (0..4).map(|_| SimplePipe::new(&mut ids, Some(1)).0.split().0.id()).collect();
    assert_eq!(created, [1, 2, 3, 4]);
}

#[test]
fn threads_that_race_for_the_pool_get_different_bytes() {
    let slot = pool();
    let mut word: i32 = 4;
    // Both threads see the same first free byte; the second one loses.
    let first = allocate_from_pool(&slot, 100, AllocationEvent::Loaded(Some(word)));
    let second = allocate_from_pool(&slot, 50, AllocationEvent::Loaded(Some(word)));
    let mut exchange = |size: u32, step: AllocationStep| {
        let AllocationStep::Exchange { expected, replacement } = step else {
            panic!("{step:?}");
        };
        let found = word;
        if found == expected {
            word = replacement;
        }
        allocate_from_pool(&slot, size, AllocationEvent::Exchanged { expected, found: Some(found) })
    };
    assert_eq!(exchange(100, first), AllocationStep::Allocated(4));
    assert_eq!(exchange(50, second), AllocationStep::Load);
    let second = allocate_from_pool(&slot, 50, AllocationEvent::Loaded(Some(104)));
    assert_eq!(exchange(50, second), AllocationStep::Allocated(104));
}

#[test]
fn lists_of_buffers_become_maps_again() {
    let list = vec![(3, true, 4, 64), (4, false, 68, 64)];
    let map = PipeBufferMap::from_vec(list.clone(), "fds".to_string());
    assert_eq!(map.all_fds_debug, "fds");
    assert_eq!(map.buffers, HashMap::from([(3, (true, 4, 64)), (4, (false, 68, 64))]));
    let mut back = map.into_vec();
    back.sort();
    assert_eq!(back, list);
    // The last entry of a file descriptor counts.
    let map = PipeBufferMap::from_vec(vec![(3, true, 4, 64), (3, false, 8, 16)], String::new());
    assert_eq!(map.buffers, HashMap::from([(3, (false, 8, 16))]));
}
