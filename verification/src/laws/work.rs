//! Work is handed to a worker and runs there as it was asked for.
use vstd::prelude::*;
use crate::laws::messages;
use crate::tasks::module_cache;
use crate::tasks::module_cache::{CachedModule, CachedView, Position};
use crate::tasks::module_hash::{HashView, ModuleHash};
use crate::tasks::post_message_payload;
use crate::tasks::post_message_payload::PostMessagePayload;
use crate::tasks::scheduler;
use crate::tasks::scheduler::{
    Action, BroadcastProgress, PostOutcome, PostProgress, PostStep, SchedulerError, SchedulerState,
    SharedState, WorkerHandle,
};
use crate::tasks::scheduler_message::SchedulerMessage;
use crate::tasks::thread_pool_worker;
use crate::tasks::thread_pool_worker::{StepView, ThreadPoolWorker, WorkerStep, WorkerThread};
use crate::tasks::wire::{WireError, WireObject};

verus! {

/// Whether a message asks for work that can be sent to a worker: inherited
/// pipes are counted in 32 bits.
pub open spec fn asks_for_work(message: SchedulerMessage) -> bool {
    match message {
        SchedulerMessage::SpawnAsync(_) => true,
        SchedulerMessage::SpawnBlocking(_) => true,
        SchedulerMessage::SpawnWithModule { .. } => true,
        SchedulerMessage::SpawnWithModuleAndMemory { fork_pipes, .. } => fork_pipes is Some
            ==> fork_pipes->0.buffers@.len() <= u32::MAX,
        _ => false,
    }
}

/// Whether steps run what a message asks for, and run nothing else.
pub open spec fn run_what_is_asked(steps: Seq<WorkerStep>, message: SchedulerMessage) -> bool {
    let n = steps.len() as int;
    match message {
        SchedulerMessage::SpawnAsync(task) => {
            &&& n == 1
            &&& steps[0] == WorkerStep::RunAsync(task)
        },
        SchedulerMessage::SpawnBlocking(task) => {
            &&& n == 3
            &&& steps[0] is MarkBusy
            &&& steps[1] == WorkerStep::RunBlocking(task)
            &&& steps[2] is MarkIdle
        },
        SchedulerMessage::SpawnWithModule { module, task } => {
            &&& n == 3
            &&& steps[0] is MarkBusy
            &&& steps[1] == (WorkerStep::RunWithModule { module, task })
            &&& steps[2] is MarkIdle
        },
        SchedulerMessage::SpawnWithModuleAndMemory {
            module,
            memory,
            spawn_wasm,
            subprocess_stdio,
            fork_pipes,
        } => {
            let begin: int = if subprocess_stdio is Some {
                1
            } else {
                0
            };
            &&& n == 4 + begin + (if fork_pipes is Some {
                1int
            } else {
                0
            })
            &&& subprocess_stdio is Some ==> steps[0] == (WorkerStep::InjectStdio {
                spawn_wasm,
                buffers: subprocess_stdio->0,
            })
            &&& steps[begin] == (WorkerStep::Begin { spawn_wasm })
            &&& fork_pipes is Some ==> {
                &&& steps[begin + 1] is ReconnectPipes
                &&& steps[begin + 1]->ReconnectPipes_spawn_wasm == spawn_wasm
                &&& steps[begin + 1]->pipes.buffers@ == fork_pipes->0.buffers@
            }
            &&& steps[n - 3] is MarkBusy
            &&& steps[n - 2] == (WorkerStep::Execute { spawn_wasm, module, memory })
            &&& steps[n - 1] is MarkIdle
        },
        _ => false,
    }
}

/// The steps that say the same as the expected ones.
proof fn lemma_steps(steps: Seq<WorkerStep>)
    ensures
        thread_pool_worker::steps_view(steps).len() == steps.len(),
        forall|i: int|
            0 <= i < steps.len() ==> #[trigger] thread_pool_worker::steps_view(steps)[i]
                == steps[i]@,
{
}

/// A worker runs what a message to the scheduler asked for: the task, module,
/// memory, standard streams and pipes that the message holds, each in one step,
/// and the steps are the same whether the payload is handed over as it is or
/// travels as an object.
pub proof fn law_worker_runs_what_was_asked(
    state: &mut SchedulerState,
    shared: &mut SharedState,
    message: SchedulerMessage,
    action: Action,
    object: WireObject,
    worker: &ThreadPoolWorker,
    local: Vec<WorkerStep>,
    remote: Result<Vec<WorkerStep>, WireError>,
)
    requires
        asks_for_work(message),
        call_ensures(SchedulerState::execute, (state, shared, message), action),
        call_ensures(ThreadPoolWorker::steps, (worker, action->Post_payload), local),
        call_ensures(PostMessagePayload::into_js, (action->Post_payload,), object),
        call_ensures(ThreadPoolWorker::handle, (worker, &object), remote),
    ensures
        action is Post,
        run_what_is_asked(local@, message),
        remote is Ok,
        run_what_is_asked(remote->Ok_0@, message),
{
    let payload = action->Post_payload;
    post_message_payload::law_payload_round_trip(payload@);
    lemma_steps(local@);
    lemma_steps(remote->Ok_0@);
    let said = thread_pool_worker::steps_view(local@);
    let heard = thread_pool_worker::steps_view(remote->Ok_0@);
    let n = said.len() as int;
    assert(forall|i: int| 0 <= i < n ==> #[trigger] said[i] == local@[i]@);
    assert(forall|i: int| 0 <= i < heard.len() ==> #[trigger] heard[i] == (remote->Ok_0@)[i]@);
    match message {
        SchedulerMessage::SpawnWithModuleAndMemory { subprocess_stdio, fork_pipes, .. } => {
            let begin: int = if subprocess_stdio is Some {
                1
            } else {
                0
            };
            assert(said[0] == local@[0]@ && said[begin] == local@[begin]@ && said[begin + 1]
                == local@[begin + 1]@);
            assert(said[n - 3] == local@[n - 3]@ && said[n - 2] == local@[n - 2]@ && said[n - 1]
                == local@[n - 1]@);
            let r = remote->Ok_0@;
            assert(heard[0] == r[0]@ && heard[begin] == r[begin]@ && heard[begin + 1]
                == r[begin + 1]@);
            assert(heard[n - 3] == r[n - 3]@ && heard[n - 2] == r[n - 2]@ && heard[n - 1]
                == r[n - 1]@);
        },
        _ => {
            assert(said[0] == local@[0]@);
            assert(heard[0] == (remote->Ok_0@)[0]@);
            if n == 3 {
                assert(said[1] == local@[1]@ && said[2] == local@[2]@);
                assert(heard[1] == (remote->Ok_0@)[1]@ && heard[2] == (remote->Ok_0@)[2]@);
            }
        },
    }
}

/// Work goes to the worker that has been idle longest. Only when none is idle
/// a worker is started: it gets the next id and is told about every cached
/// module. Nothing else changes until it is known whether the work was sent.
pub proof fn law_work_goes_to_the_first_idle_worker(
    state: &mut SchedulerState,
    shared: &mut SharedState,
    message: SchedulerMessage,
    action: Action,
)
    requires
        asks_for_work(message),
        call_ensures(SchedulerState::execute, (state, shared, message), action),
    ensures
        action is Post,
        action->would_block == !(message is SpawnAsync),
        scheduler::worker_ids(final(state).busy@) == scheduler::worker_ids(old(state).busy@),
        final(state).cached_modules@ == old(state).cached_modules@,
        old(state).idle@.len() > 0 ==> {
            &&& action->worker.id == old(state).idle@[0].id
            &&& action->start is None
            &&& final(state).idle@.len() == old(state).idle@.len() - 1
            &&& forall|i: int|
                0 <= i < old(state).idle@.len() - 1 ==> (#[trigger] final(state).idle@[i]).id
                    == old(state).idle@[i + 1].id
            &&& final(shared).worker_ids.next == old(shared).worker_ids.next
        },
        old(state).idle@.len() == 0 ==> {
            &&& action->worker.id == old(shared).worker_ids.next
            &&& action->start is Some
            &&& scheduler::modules_view(action->start->0@) == scheduler::modules_view(
                old(state).cached_modules.entries@,
            )
            &&& final(state).idle@.len() == 0
            &&& old(shared).worker_ids.next < u32::MAX ==> final(shared).worker_ids.next
                == old(shared).worker_ids.next + 1
        },
        final(shared)@.sessions == old(shared)@.sessions,
        final(shared)@.pipes == old(shared)@.pipes,
        final(shared)@.host_exec_handler == old(shared)@.host_exec_handler,
{
    let before = scheduler::worker_ids(state.idle@);
    let after = scheduler::worker_ids(final(state).idle@);
    assert(before.len() == state.idle@.len() && after.len() == final(state).idle@.len());
    if state.idle@.len() > 0 {
        assert(before[0] == state.idle@[0].id);
        assert forall|i: int| 0 <= i < state.idle@.len() - 1 implies (#[trigger] final(state).idle@[i]).id
            == state.idle@[i + 1].id by {
            assert(after[i] == final(state).idle@[i].id);
            assert(before[i + 1] == state.idle@[i + 1].id);
        }
    }
}

/// Whether the second list of workers is the first one with one more at its end.
pub open spec fn joined_by(before: Seq<WorkerHandle>, after: Seq<WorkerHandle>, id: u32) -> bool {
    &&& after.len() == before.len() + 1
    &&& after.last().id == id
    &&& forall|i: int| 0 <= i < before.len() ==> (#[trigger] after[i]).id == before[i].id
}

/// Whether two lists hold the same workers in the same order.
pub open spec fn same_workers(before: Seq<WorkerHandle>, after: Seq<WorkerHandle>) -> bool {
    &&& after.len() == before.len()
    &&& forall|i: int| 0 <= i < before.len() ==> (#[trigger] after[i]).id == before[i].id
}

/// Whether the second list is the first one without its entry at a position.
pub open spec fn left_by(
    before: Seq<WorkerHandle>,
    after: Seq<WorkerHandle>,
    position: int,
) -> bool {
    &&& 0 <= position < before.len()
    &&& after.len() == before.len() - 1
    &&& forall|i: int| 0 <= i < position ==> (#[trigger] after[i]).id == before[i].id
    &&& forall|i: int| position <= i < after.len() ==> (#[trigger] after[i]).id == before[i + 1].id
}

proof fn lemma_ids(workers: Seq<WorkerHandle>)
    ensures
        scheduler::worker_ids(workers).len() == workers.len(),
        forall|i: int|
            0 <= i < workers.len() ==> scheduler::worker_ids(workers)[i] == (
            #[trigger] workers[i]).id,
{
}

pub proof fn lemma_same_ids(before: Seq<WorkerHandle>, after: Seq<WorkerHandle>)
    requires
        scheduler::worker_ids(after) == scheduler::worker_ids(before),
    ensures
        same_workers(before, after),
{
    lemma_ids(before);
    lemma_ids(after);
    assert forall|i: int| 0 <= i < before.len() implies (#[trigger] after[i]).id
        == before[i].id by {
        assert(scheduler::worker_ids(after)[i] == scheduler::worker_ids(before)[i]);
    }
}

proof fn lemma_pushed_id(before: Seq<WorkerHandle>, after: Seq<WorkerHandle>, id: u32)
    requires
        scheduler::worker_ids(after) == scheduler::worker_ids(before).push(id),
    ensures
        joined_by(before, after, id),
{
    lemma_ids(before);
    lemma_ids(after);
    let ids = scheduler::worker_ids(after);
    assert(ids[before.len() as int] == after[before.len() as int].id);
    assert forall|i: int| 0 <= i < before.len() implies (#[trigger] after[i]).id
        == before[i].id by {
        assert(ids[i] == scheduler::worker_ids(before)[i]);
    }
}

/// Once work was sent, its worker is last among the busy ones if the work
/// blocks, and last among the idle ones if it does not. A worker that could not
/// be started or sent its work is in neither list.
pub proof fn law_workers_join_where_they_belong(
    state: &mut SchedulerState,
    worker: WorkerHandle,
    would_block: bool,
    outcome: PostOutcome,
    r: Result<(), SchedulerError>,
)
    requires
        call_ensures(SchedulerState::posted, (state, worker, would_block, outcome), r),
    ensures
        final(state).cached_modules@ == old(state).cached_modules@,
        match outcome {
            PostOutcome::Sent => {
                &&& r is Ok
                &&& would_block ==> joined_by(
                    old(state).busy@,
                    final(state).busy@,
                    worker.id,
                ) && same_workers(old(state).idle@, final(state).idle@)
                &&& !would_block ==> joined_by(
                    old(state).idle@,
                    final(state).idle@,
                    worker.id,
                ) && same_workers(old(state).busy@, final(state).busy@)
            },
            PostOutcome::NotStarted(cause) => {
                &&& (r matches Err(SchedulerError::Unstartable(said)) && said@ == cause@)
                &&& same_workers(old(state).idle@, final(state).idle@)
                &&& same_workers(old(state).busy@, final(state).busy@)
            },
            PostOutcome::NotSent(cause) => {
                &&& (r matches Err(SchedulerError::Unsendable { worker_id, cause: said })
                    && worker_id == worker.id && said@ == cause@)
                &&& same_workers(old(state).idle@, final(state).idle@)
                &&& same_workers(old(state).busy@, final(state).busy@)
            },
        },
{
    if outcome is Sent && would_block {
        lemma_pushed_id(state.busy@, final(state).busy@, worker.id);
        lemma_same_ids(state.idle@, final(state).idle@);
    } else if outcome is Sent {
        lemma_pushed_id(state.idle@, final(state).idle@, worker.id);
        lemma_same_ids(state.busy@, final(state).busy@);
    } else {
        lemma_same_ids(state.idle@, final(state).idle@);
        lemma_same_ids(state.busy@, final(state).busy@);
    }
}

/// Where an id first stands.
proof fn lemma_first_position(ids: Seq<u32>, id: u32)
    ensures
        ({
            let position = scheduler::first_position(ids, id);
            &&& 0 <= position <= ids.len()
            &&& position < ids.len() ==> ids[position] == id
            &&& forall|i: int| 0 <= i < position ==> #[trigger] ids[i] != id
        }),
    decreases ids.len(),
{
    if ids.len() > 0 && ids[0] != id {
        let rest = ids.skip(1);
        lemma_first_position(rest, id);
        let position = scheduler::first_position(ids, id);
        assert forall|i: int| 0 <= i < position implies #[trigger] ids[i] != id by {
            if i > 0 {
                assert(rest[i - 1] == ids[i]);
            }
        }
        if position < ids.len() {
            assert(rest[position - 1] == ids[position]);
        }
    }
}

/// Whether a worker has gone from one list to the end of another: the first one
/// with its id has, and where there is none, nothing has changed.
pub open spec fn has_gone_over(
    id: u32,
    from: Seq<WorkerHandle>,
    to: Seq<WorkerHandle>,
    after_from: Seq<WorkerHandle>,
    after_to: Seq<WorkerHandle>,
) -> bool {
    if exists|i: int| 0 <= i < from.len() && (#[trigger] from[i]).id == id {
        &&& joined_by(to, after_to, id)
        &&& exists|position: int|
            #![trigger from[position]]
            left_by(from, after_from, position) && from[position].id == id && forall|i: int|
                0 <= i < position ==> (#[trigger] from[i]).id != id
    } else {
        same_workers(from, after_from) && same_workers(to, after_to)
    }
}

pub proof fn lemma_moved(
    id: u32,
    from: Seq<WorkerHandle>,
    to: Seq<WorkerHandle>,
    after_from: Seq<WorkerHandle>,
    after_to: Seq<WorkerHandle>,
)
    requires
        (scheduler::worker_ids(after_from), scheduler::worker_ids(after_to)) == scheduler::moved(
            id,
            scheduler::worker_ids(from),
            scheduler::worker_ids(to),
        ),
    ensures
        has_gone_over(id, from, to, after_from, after_to),
{
    let ids = scheduler::worker_ids(from);
    lemma_ids(from);
    lemma_ids(after_from);
    lemma_first_position(ids, id);
    let position = scheduler::first_position(ids, id);
    if position < ids.len() {
        assert(from[position].id == id);
        lemma_pushed_id(to, after_to, id);
        let left = scheduler::worker_ids(after_from);
        assert(left == ids.remove(position));
        assert forall|i: int| 0 <= i < position implies (#[trigger] after_from[i]).id
            == from[i].id by {
            assert(left[i] == ids[i]);
        }
        assert forall|i: int| position <= i < after_from.len() implies (
        #[trigger] after_from[i]).id == from[i + 1].id by {
            assert(left[i] == ids[i + 1]);
        }
        assert forall|i: int| 0 <= i < position implies (#[trigger] from[i]).id != id by {
            assert(ids[i] == from[i].id);
        }
        assert(left_by(from, after_from, position));
    } else {
        assert forall|i: int| 0 <= i < from.len() implies (#[trigger] from[i]).id != id by {
            assert(ids[i] == from[i].id);
        }
        lemma_same_ids(from, after_from);
        lemma_same_ids(to, after_to);
    }
}

/// A worker that says it is busy goes from the idle ones to the busy ones, and
/// one that says it is idle goes back, last in line. Nothing else changes.
pub proof fn law_marked_workers_change_sides(
    state: &mut SchedulerState,
    shared: &mut SharedState,
    message: SchedulerMessage,
    action: Action,
)
    requires
        message is WorkerBusy || message is WorkerIdle,
        call_ensures(SchedulerState::execute, (state, shared, message), action),
    ensures
        action is Done,
        final(shared)@ == old(shared)@,
        final(state).cached_modules@ == old(state).cached_modules@,
        message matches SchedulerMessage::WorkerBusy { worker_id } ==> has_gone_over(
            worker_id,
            old(state).idle@,
            old(state).busy@,
            final(state).idle@,
            final(state).busy@,
        ),
        message matches SchedulerMessage::WorkerIdle { worker_id } ==> has_gone_over(
            worker_id,
            old(state).busy@,
            old(state).idle@,
            final(state).busy@,
            final(state).idle@,
        ),
{
    match message {
        SchedulerMessage::WorkerBusy { worker_id } => {
            lemma_moved(
                worker_id,
                state.idle@,
                state.busy@,
                final(state).idle@,
                final(state).busy@,
            );
        },
        SchedulerMessage::WorkerIdle { worker_id } => {
            lemma_moved(
                worker_id,
                state.busy@,
                state.idle@,
                final(state).busy@,
                final(state).idle@,
            );
        },
        _ => {},
    }
}

/// Closing lets go of the idle workers and of nothing else.
pub proof fn law_closing_lets_go_of_idle_workers(
    state: &mut SchedulerState,
    shared: &mut SharedState,
    action: Action,
)
    requires
        call_ensures(SchedulerState::execute, (state, shared, SchedulerMessage::Close), action),
    ensures
        action is Done,
        final(state).idle@.len() == 0,
        same_workers(old(state).busy@, final(state).busy@),
        final(state).cached_modules@ == old(state).cached_modules@,
        final(shared)@ == old(shared)@,
{
    lemma_ids(final(state).idle@);
    lemma_same_ids(state.busy@, final(state).busy@);
}

/// The scheduler carries out every message that it gets, except that it stops
/// when it is told to close or when nothing more can come.
pub proof fn law_scheduler_goes_on_until_closed(
    received: Option<SchedulerMessage>,
    next: Option<SchedulerMessage>,
)
    requires
        call_ensures(scheduler::next_to_execute, (received,), next),
    ensures
        next is None <==> received is None || received->0 is Close,
        next is Some ==> next == received,
{
}

/// A module that is cached is told to every worker there is, idle or busy, under
/// its hash, and is found in the cache from then on. What was cached under
/// other hashes stays.
pub proof fn law_cached_modules_are_told_to_all_workers(
    state: &mut SchedulerState,
    shared: &mut SharedState,
    hash: ModuleHash,
    module: u64,
    action: Action,
    other: CachedView,
)
    requires
        module_cache::ascending(state.cached_modules@),
        call_ensures(
            SchedulerState::execute,
            (state, shared, SchedulerMessage::CacheModule { hash, module }),
            action,
        ),
    ensures
        action is Broadcast,
        messages::same_hash(action->Broadcast_hash, hash),
        action->Broadcast_module == module,
        action->workers@.len() == old(state).idle@.len() + old(state).busy@.len(),
        forall|i: int|
            0 <= i < old(state).idle@.len() ==> action->workers@[i] == (
            #[trigger] old(state).idle@[i]).id,
        forall|i: int|
            0 <= i < old(state).busy@.len() ==> action->workers@[old(state).idle@.len() + i] == (
            #[trigger] old(state).busy@[i]).id,
        same_workers(old(state).idle@, final(state).idle@),
        same_workers(old(state).busy@, final(state).busy@),
        final(shared)@ == old(shared)@,
        final(state).cached_modules@.contains(CachedView { hash: hash@, module }),
        other.hash != hash@ ==> (final(state).cached_modules@.contains(other) <==> old(state).cached_modules@.contains(other)),
        other.hash == hash@ && final(state).cached_modules@.contains(other) ==> other.module
            == module,
        module_cache::ascending(final(state).cached_modules@),
{
    lemma_ids(state.idle@);
    lemma_ids(state.busy@);
    lemma_same_ids(state.idle@, final(state).idle@);
    lemma_same_ids(state.busy@, final(state).busy@);
    let told = scheduler::worker_ids(state.idle@) + scheduler::worker_ids(state.busy@);
    assert(action->workers@ == told);
    assert forall|i: int| 0 <= i < state.busy@.len() implies told[state.idle@.len() + i] == (
    #[trigger] state.busy@[i]).id by {}
    lemma_cache_with_module(state.cached_modules@, hash@, module, other);
}

/// What the cache holds after a module was added.
proof fn lemma_cache_with_module(
    entries: Seq<CachedView>,
    hash: HashView,
    module: u64,
    other: CachedView,
)
    requires
        module_cache::ascending(entries),
        hash.well_formed(),
    ensures
        ({
            let after = module_cache::with_module(entries, hash, module);
            &&& after.contains(CachedView { hash, module })
            &&& other.hash != hash ==> (after.contains(other) <==> entries.contains(other))
            &&& other.hash == hash && after.contains(other) ==> other.module == module
            &&& module_cache::ascending(after)
        }),
{
    module_cache::law_cache_stays_ascending(entries, hash, module);
    let after = module_cache::with_module(entries, hash, module);
    let at = module_cache::entries_before(entries, hash) as int;
    lemma_entries_before(entries, hash);
    let rest = if at < entries.len() && entries[at].hash == hash {
        at + 1
    } else {
        at
    };
    assert(after[at] == CachedView { hash, module });
    assert forall|i: int| 0 <= i < at implies after[i] == entries[i] by {}
    assert forall|i: int| at < i < after.len() implies after[i] == entries[i - at - 1 + rest] by {}
    if other.hash != hash {
        if entries.contains(other) {
            let i = entries.index_of(other);
            if i < at {
                assert(after[i] == other);
            } else {
                assert(i >= rest);
                assert(after[i - rest + at + 1] == other);
            }
        }
        if after.contains(other) {
            let i = after.index_of(other);
            if i < at {
                assert(entries[i] == other);
            } else {
                assert(entries[i - at - 1 + rest] == other);
            }
        }
    } else if after.contains(other) {
        let i = after.index_of(other);
        if i < at {
            module_cache::law_hash_order_is_total(after[i].hash, after[at].hash, hash);
            assert(module_cache::hash_before(after[i].hash, after[at].hash));
        } else if i > at {
            module_cache::law_hash_order_is_total(after[at].hash, after[i].hash, hash);
            assert(module_cache::hash_before(after[at].hash, after[i].hash));
        }
    }
}

proof fn lemma_entries_before(entries: Seq<CachedView>, hash: HashView)
    ensures
        module_cache::entries_before(entries, hash) <= entries.len(),
    decreases entries.len(),
{
    if entries.len() > 0 {
        lemma_entries_before(entries.skip(1), hash);
    }
}

/// Where an xxHash and a SHA-256 hash meet, the xxHash comes first; hashes of one
/// kind come in the order of the first byte in which they differ.
pub proof fn law_hashes_are_ordered_by_kind_and_bytes(
    a: &ModuleHash,
    b: &ModuleHash,
    position: Position,
    k: int,
)
    requires
        call_ensures(module_cache::order_hashes, (a, b), position),
    ensures
        *a is XXHash && *b is Sha256 ==> position is Before,
        *a is Sha256 && *b is XXHash ==> position is After,
        messages::same_hash(*a, *b) <==> position is Same,
        a@.bytes().len() == b@.bytes().len() && 0 <= k < a@.bytes().len() && (forall|i: int|
            0 <= i < k ==> #[trigger] a@.bytes()[i] == b@.bytes()[i]) ==> {
            &&& a@.bytes()[k] < b@.bytes()[k] ==> position is Before
            &&& a@.bytes()[k] > b@.bytes()[k] ==> position is After
        },
{
    let x = a@.bytes();
    let y = b@.bytes();
    if x.len() == y.len() && 0 <= k < x.len() && (forall|i: int|
        0 <= i < k ==> #[trigger] x[i] == y[i]) {
        assert(x.take(k) =~= y.take(k));
        if x[k] < y[k] {
            assert(module_cache::bytes_before(x, y));
        }
        if y[k] < x[k] {
            assert(module_cache::bytes_before(y, x));
        }
    }
}

/// Whether a worker is to be started next.
pub open spec fn performs_start(next: PostProgress) -> bool {
    next matches PostProgress::Perform(PostStep::Start)
}

/// Whether a worker is to be told about a module next.
pub open spec fn tells_about(next: PostProgress, module: CachedModule) -> bool {
    next matches PostProgress::Perform(PostStep::Prime(told)) && told.module == module.module
        && messages::same_hash(told.hash, module.hash)
}

/// Whether the work is to be sent next.
pub open spec fn performs_work(next: PostProgress) -> bool {
    next matches PostProgress::Perform(PostStep::Work)
}

/// Whether all is sent.
pub open spec fn is_sent(next: PostProgress) -> bool {
    next matches PostProgress::Finished(PostOutcome::Sent)
}

/// Whether the worker could not be started, for a cause.
pub open spec fn is_unstarted(next: PostProgress, cause: Seq<char>) -> bool {
    next matches PostProgress::Finished(PostOutcome::NotStarted(e)) && e@ == cause
}

/// Whether the work could not be sent, for a cause.
pub open spec fn is_unsent(next: PostProgress, cause: Seq<char>) -> bool {
    next matches PostProgress::Finished(PostOutcome::NotSent(e)) && e@ == cause
}

/// Work is sent in this order: a new worker is started, then told about each
/// module in turn, and then gets the work; a worker that is already there gets
/// the work at once. The first failure ends it, and only a failure of the last
/// step counts as unsent work.
pub proof fn law_new_workers_are_told_about_modules_before_their_work(
    start: Option<Vec<CachedModule>>,
    tried: usize,
    cause: String,
    next: PostProgress,
    ended: PostProgress,
)
    requires
        call_ensures(scheduler::post_progress, (&start, tried, Ok(())), next),
        call_ensures(scheduler::post_progress, (&start, tried, Err(cause)), ended),
    ensures
        start is None ==> {
            &&& tried == 0 ==> performs_work(next)
            &&& tried >= 1 ==> is_sent(next)
            &&& tried == 1 ==> is_unsent(ended, cause@)
        },
        start is Some ==> {
            let modules = start->0@;
            let n = modules.len();
            &&& tried == 0 ==> performs_start(next)
            &&& 1 <= tried <= n ==> tells_about(next, modules[tried - 1])
            &&& tried == n + 1 ==> performs_work(next)
            &&& tried > n + 1 ==> is_sent(next)
            &&& 1 <= tried <= n + 1 ==> is_unstarted(ended, cause@)
            &&& tried == n + 2 ==> is_unsent(ended, cause@)
        },
{
    let steps = scheduler::post_steps(scheduler::start_view(start));
    if let Some(modules) = start {
        let n = modules@.len() as int;
        let said = scheduler::modules_view(modules@);
        assert(steps.len() == n + 2);
        assert(steps[0] is Start && steps[n + 1] is Work);
        assert forall|i: int| 0 <= i < n implies #[trigger] steps[i + 1]
            == scheduler::PostStepView::Prime(modules@[i]@) by {
            assert(said[i] == modules@[i]@);
        }
        if 1 <= tried <= n {
            assert(steps[tried - 1 + 1] == scheduler::PostStepView::Prime(modules@[tried - 1]@));
        }
        if 2 <= tried <= n + 1 {
            assert(steps[tried - 2 + 1] == scheduler::PostStepView::Prime(modules@[tried - 2]@));
        }
    }
}

/// Workers are told one after the other, until all have been or one cannot be.
pub proof fn law_workers_are_told_in_turn(
    workers: Vec<u32>,
    tried: usize,
    cause: String,
    next: BroadcastProgress,
    ended: BroadcastProgress,
)
    requires
        call_ensures(scheduler::broadcast_progress, (&workers, tried, Ok(())), next),
        call_ensures(scheduler::broadcast_progress, (&workers, tried, Err(cause)), ended),
    ensures
        tried < workers@.len() ==> next == BroadcastProgress::Tell(workers@[tried as int]),
        tried >= workers@.len() ==> next is Finished,
        ended matches BroadcastProgress::Failed(e) && e@ == cause@,
{
}

/// A worker that fails at a step has to say that it is idle exactly if it is at
/// the work that it said it was busy with.
pub proof fn law_failed_workers_become_idle_again(
    worker: &ThreadPoolWorker,
    payload: PostMessagePayload,
    steps: Vec<WorkerStep>,
    failed: usize,
    owes: bool,
)
    requires
        call_ensures(ThreadPoolWorker::steps, (worker, payload), steps),
        failed < steps@.len(),
        call_ensures(thread_pool_worker::must_mark_idle, (&steps, failed), owes),
    ensures
        owes <==> failed > 0 && (steps@[failed - 1] is MarkBusy || (failed > 1
            && steps@[failed - 2] is MarkBusy)),
{
    let all = thread_pool_worker::steps_view(steps@);
    let n = all.len() as int;
    lemma_steps(steps@);
    assert(forall|i: int|
        0 <= i < n ==> (#[trigger] all[i] == StepView::MarkBusy <==> steps@[i] is MarkBusy));
    if failed > 0 {
        assert(all[failed - 1] == steps@[failed - 1]@);
    }
    if failed > 1 {
        assert(all[failed - 2] == steps@[failed - 2]@);
    }
    if n > 1 {
        assert(all[n - 3] == StepView::MarkBusy && all[n - 1] == StepView::MarkIdle);
        assert forall|i: int| 0 <= i < n && i != n - 3 implies #[trigger] all[i]
            != StepView::MarkBusy by {}
        assert forall|i: int| 0 <= i < n && i != n - 1 implies #[trigger] all[i]
            != StepView::MarkIdle by {}
    }
    if failed > 0 && (all[failed - 1] == StepView::MarkBusy || (failed > 1 && all[failed - 2]
        == StepView::MarkBusy)) {
        assert(thread_pool_worker::owes_idle(all, failed as int));
    }
}

/// A worker and its thread know the id and the buffer that they were set up
/// with.
pub proof fn law_workers_know_themselves(
    thread: &mut WorkerThread,
    id: u32,
    buffer: u64,
    worker: ThreadPoolWorker,
)
    requires
        call_ensures(ThreadPoolWorker::new, (thread, id, buffer), worker),
    ensures
        worker.id == id,
        final(thread).worker_id == Some(id),
        final(thread).host_exec_buffer == Some(buffer),
{
}

/// Answers and news that come to a worker as messages ask for no steps.
pub proof fn law_answers_ask_for_no_steps(
    worker: &ThreadPoolWorker,
    payload: PostMessagePayload,
    steps: Vec<WorkerStep>,
    blocks: bool,
)
    requires
        call_ensures(ThreadPoolWorker::steps, (worker, payload), steps),
        call_ensures(PostMessagePayload::would_block, (&payload,), blocks),
    ensures
        steps@.len() == 0 <==> !(payload is Async || payload is Blocking),
        blocks <==> payload is Blocking,
{
    lemma_steps(steps@);
}

/// A worker takes the same steps for an object whichever way it is handed over.
pub proof fn law_objects_are_handled_alike(
    worker: &ThreadPoolWorker,
    object: &WireObject,
    handled: Result<Vec<WorkerStep>, WireError>,
    handed_over: Result<Vec<WorkerStep>, WireError>,
)
    requires
        call_ensures(ThreadPoolWorker::handle, (worker, object), handled),
        call_ensures(ThreadPoolWorker::js_handle, (worker, object), handed_over),
    ensures
        handled is Ok <==> handed_over is Ok,
        handled is Ok ==> {
            &&& handed_over->Ok_0@.len() == handled->Ok_0@.len()
            &&& forall|i: int|
                0 <= i < handled->Ok_0@.len() ==> (#[trigger] handed_over->Ok_0@[i])@
                    == handled->Ok_0@[i]@
        },
        handled is Err ==> handed_over->Err_0@ == handled->Err_0@,
{
    if handled is Ok {
        lemma_steps(handled->Ok_0@);
        lemma_steps(handed_over->Ok_0@);
        let a = thread_pool_worker::steps_view(handled->Ok_0@);
        let b = thread_pool_worker::steps_view(handed_over->Ok_0@);
        assert forall|i: int| 0 <= i < handled->Ok_0@.len() implies (
        #[trigger] handed_over->Ok_0@[i])@ == handled->Ok_0@[i]@ by {
            assert(a[i] == handled->Ok_0@[i]@ && b[i] == handed_over->Ok_0@[i]@);
        }
    }
}

} // verus!
