//! What a worker does with the messages that it gets.
use vstd::prelude::*;
use crate::tasks::post_message_payload;
use crate::tasks::post_message_payload::{
    AsyncJob, BlockingJob, ForkPipeBuffers, ForkPipesView, PayloadView, PostMessagePayload,
    SubprocessStdioBuffers,
};
use crate::tasks::wire::{WireError, WireObject};

verus! {

/// What a worker's thread knows of itself. Its shared buffer is held by handle.
#[derive(Debug, Clone, Copy)]
pub struct WorkerThread {
    pub worker_id: Option<u32>,
    pub host_exec_buffer: Option<u64>,
}

/// A worker of the pool.
#[derive(Debug)]
pub struct ThreadPoolWorker {
    pub id: u32,
}

/// One step of what a worker does. Tasks, modules and memories are held by
/// handle.
#[derive(Debug)]
pub enum WorkerStep {
    /// Tell the scheduler that this worker is busy.
    MarkBusy,
    /// Tell the scheduler that this worker is idle.
    MarkIdle,
    /// Run a promise.
    RunAsync(u64),
    /// Run a blocking task.
    RunBlocking(u64),
    /// Run a blocking task with a module.
    RunWithModule { module: u64, task: u64 },
    /// Give a program pipes for its standard streams.
    InjectStdio { spawn_wasm: u64, buffers: SubprocessStdioBuffers },
    /// Set up a program's environment.
    Begin { spawn_wasm: u64 },
    /// Reconnect the pipes that a program inherited.
    ReconnectPipes { spawn_wasm: u64, pipes: ForkPipeBuffers },
    /// Run a program.
    Execute { spawn_wasm: u64, module: u64, memory: Option<u64> },
}

/// What a [`WorkerStep`] says.
pub enum StepView {
    MarkBusy,
    MarkIdle,
    RunAsync(u64),
    RunBlocking(u64),
    RunWithModule { module: u64, task: u64 },
    InjectStdio { spawn_wasm: u64, buffers: SubprocessStdioBuffers },
    Begin { spawn_wasm: u64 },
    ReconnectPipes { spawn_wasm: u64, pipes: ForkPipesView },
    Execute { spawn_wasm: u64, module: u64, memory: Option<u64> },
}

impl View for WorkerStep {
    type V = StepView;

    open spec fn view(&self) -> StepView {
        match *self {
            WorkerStep::MarkBusy => StepView::MarkBusy,
            WorkerStep::MarkIdle => StepView::MarkIdle,
            WorkerStep::RunAsync(task) => StepView::RunAsync(task),
            WorkerStep::RunBlocking(task) => StepView::RunBlocking(task),
            WorkerStep::RunWithModule { module, task } => StepView::RunWithModule { module, task },
            WorkerStep::InjectStdio { spawn_wasm, buffers } => StepView::InjectStdio {
                spawn_wasm,
                buffers,
            },
            WorkerStep::Begin { spawn_wasm } => StepView::Begin { spawn_wasm },
            WorkerStep::ReconnectPipes { spawn_wasm, pipes } => StepView::ReconnectPipes {
                spawn_wasm,
                pipes: pipes@,
            },
            WorkerStep::Execute { spawn_wasm, module, memory } => StepView::Execute {
                spawn_wasm,
                module,
                memory,
            },
        }
    }
}

/// What a list of steps says.
pub open spec fn steps_view(steps: Seq<WorkerStep>) -> Seq<StepView> {
    steps.map_values(|step: WorkerStep| step@)
}

/// A step during which the worker is busy.
pub open spec fn while_busy(step: StepView) -> Seq<StepView> {
    seq![StepView::MarkBusy, step, StepView::MarkIdle]
}

/// What a worker does about a message. Answers to requests about host
/// executions come through the shared buffer, so those that come as messages
/// are ignored, as are cached modules.
pub open spec fn steps_for(payload: PayloadView) -> Seq<StepView> {
    match payload {
        PayloadView::AsyncThunk(task) => seq![StepView::RunAsync(task)],
        PayloadView::BlockingThunk(task) => while_busy(StepView::RunBlocking(task)),
        PayloadView::SpawnWithModule { module, task } => while_busy(
            StepView::RunWithModule { module, task },
        ),
        PayloadView::SpawnWithModuleAndMemory {
            module,
            memory,
            spawn_wasm,
            subprocess_stdio,
            fork_pipes,
        } => (match subprocess_stdio {
            Some(buffers) => seq![StepView::InjectStdio { spawn_wasm, buffers }],
            None => Seq::empty(),
        }) + seq![StepView::Begin { spawn_wasm }] + (match fork_pipes {
            Some(pipes) => seq![StepView::ReconnectPipes { spawn_wasm, pipes }],
            None => Seq::empty(),
        }) + while_busy(StepView::Execute { spawn_wasm, module, memory }),
        _ => Seq::empty(),
    }
}

impl ThreadPoolWorker {
    /// Sets up a worker on its own thread.
    pub fn new(thread: &mut WorkerThread, id: u32, host_exec_buffer: u64) -> (r: ThreadPoolWorker)
        ensures
            r.id == id,
            final(thread).worker_id == Some(id),
            final(thread).host_exec_buffer == Some(host_exec_buffer),
    {
        thread.worker_id = Some(id);
        thread.host_exec_buffer = Some(host_exec_buffer);
        ThreadPoolWorker { id }
    }

    /// Adds a step during which the worker is busy.
    fn busy(&self, steps: &mut Vec<WorkerStep>, step: WorkerStep)
        ensures
            steps_view(final(steps)@) == steps_view(old(steps)@) + while_busy(step@),
    {
        steps.push(WorkerStep::MarkBusy);
        steps.push(step);
        steps.push(WorkerStep::MarkIdle);
        assert(steps_view(steps@) =~= steps_view(old(steps)@) + while_busy(step@));
    }

    /// The steps of work that does not block.
    fn execute_async(&self, job: AsyncJob) -> (r: Vec<WorkerStep>)
        ensures
            steps_view(r@) == steps_for(PostMessagePayload::Async(job)@),
    {
        match job {
            AsyncJob::Thunk(task) => {
                let mut steps: Vec<WorkerStep> = Vec::new();
                steps.push(WorkerStep::RunAsync(task));
                assert(steps_view(steps@) =~= seq![StepView::RunAsync(task)]);
                steps
            },
        }
    }

    /// The steps of work that blocks.
    fn execute_blocking(&self, job: BlockingJob) -> (r: Vec<WorkerStep>)
        ensures
            steps_view(r@) == steps_for(PostMessagePayload::Blocking(job)@),
    {
        let mut steps: Vec<WorkerStep> = Vec::new();
        let ghost expected = steps_for(PostMessagePayload::Blocking(job)@);
        match job {
            BlockingJob::Thunk(task) => self.busy(&mut steps, WorkerStep::RunBlocking(task)),
            BlockingJob::SpawnWithModule { module, task } => self.busy(
                &mut steps,
                WorkerStep::RunWithModule { module, task },
            ),
            BlockingJob::SpawnWithModuleAndMemory {
                module,
                memory,
                spawn_wasm,
                subprocess_stdio,
                fork_pipes,
            } => {
                if let Some(buffers) = subprocess_stdio {
                    steps.push(WorkerStep::InjectStdio { spawn_wasm, buffers });
                }
                steps.push(WorkerStep::Begin { spawn_wasm });
                if let Some(pipes) = fork_pipes {
                    steps.push(WorkerStep::ReconnectPipes { spawn_wasm, pipes });
                }
                self.busy(&mut steps, WorkerStep::Execute { spawn_wasm, module, memory });
            },
        }
        assert(steps_view(steps@) =~= expected);
        steps
    }

    /// The steps that a message asks for.
    pub fn steps(&self, payload: PostMessagePayload) -> (r: Vec<WorkerStep>)
        ensures
            steps_view(r@) == steps_for(payload@),
    {
        match payload {
            PostMessagePayload::Async(job) => self.execute_async(job),
            PostMessagePayload::Blocking(job) => self.execute_blocking(job),
            _ => {
                let steps: Vec<WorkerStep> = Vec::new();
                assert(steps_view(steps@) =~= Seq::empty());
                steps
            },
        }
    }

    /// Reads a message and finds the steps that it asks for.
    pub fn handle(&self, object: &WireObject) -> (r: Result<Vec<WorkerStep>, WireError>)
        ensures
            match (post_message_payload::decoded(object@), r) {
                (Ok(payload), Ok(steps)) => steps_view(steps@) == steps_for(payload),
                (Err(e), Err(f)) => f@ == e,
                _ => false,
            },
    {
        match PostMessagePayload::try_from_js(object) {
            Ok(payload) => Ok(self.steps(payload)),
            Err(e) => Err(e),
        }
    }

    /// Reads a message and finds the steps that it asks for.
    pub fn js_handle(&self, object: &WireObject) -> (r: Result<Vec<WorkerStep>, WireError>)
        ensures
            match (post_message_payload::decoded(object@), r) {
                (Ok(payload), Ok(steps)) => steps_view(steps@) == steps_for(payload),
                (Err(e), Err(f)) => f@ == e,
                _ => false,
            },
    {
        self.handle(object)
    }
}

/// Whether a worker that failed at a step still has to say that it is idle: it
/// has, if it has said that it is busy and not taken it back.
pub open spec fn owes_idle(steps: Seq<StepView>, failed: int) -> bool {
    exists|i: int|
        0 <= i < failed && #[trigger] steps[i] == StepView::MarkBusy && forall|j: int|
            i < j < failed ==> #[trigger] steps[j] != StepView::MarkIdle
}

/// Finds whether a worker that failed at a step still has to say that it is
/// idle.
pub fn must_mark_idle(steps: &Vec<WorkerStep>, failed: usize) -> (r: bool)
    requires
        failed <= steps@.len(),
    ensures
        r == owes_idle(steps_view(steps@), failed as int),
{
    let ghost all = steps_view(steps@);
    let mut owes = false;
    let mut i: usize = 0;
    while i < failed
        invariant
            i <= failed <= steps@.len(),
            all == steps_view(steps@),
            owes == owes_idle(all, i as int),
        decreases failed - i,
    {
        let ghost before = owes;
        assert(all[i as int] == steps@[i as int]@);
        match &steps[i] {
            WorkerStep::MarkBusy => {
                owes = true;
            },
            WorkerStep::MarkIdle => {
                owes = false;
            },
            _ => {},
        }
        proof {
            let n = i as int;
            if all[n] == StepView::MarkBusy {
                assert(owes_idle(all, n + 1));
            } else if all[n] == StepView::MarkIdle {
                assert(!owes_idle(all, n + 1));
            } else {
                if owes_idle(all, n) {
                    let k = choose|k: int|
                        0 <= k < n && #[trigger] all[k] == StepView::MarkBusy && forall|j: int|
                            k < j < n ==> #[trigger] all[j] != StepView::MarkIdle;
                    assert(all[k] == StepView::MarkBusy);
                    assert(owes_idle(all, n + 1));
                }
                if owes_idle(all, n + 1) {
                    let k = choose|k: int|
                        0 <= k < n + 1 && #[trigger] all[k] == StepView::MarkBusy && forall|j: int|
                            k < j < n + 1 ==> #[trigger] all[j] != StepView::MarkIdle;
                    assert(all[k] == StepView::MarkBusy);
                    assert(owes_idle(all, n));
                }
            }
        }
        i = i + 1;
    }
    owes
}

/// A worker that has done all steps of a message owes nothing: every time it
/// said that it was busy, it has said that it is idle again.
pub proof fn law_worker_ends_idle(payload: PayloadView)
    ensures
        !owes_idle(steps_for(payload), steps_for(payload).len() as int),
{
    let steps = steps_for(payload);
    if steps.len() > 0 && !(payload is AsyncThunk) {
        assert(steps.last() == StepView::MarkIdle);
    }
}

/// A worker says that it is busy exactly for the messages that the scheduler
/// takes to keep it busy.
pub proof fn law_blocking_messages_mark_the_worker_busy(payload: PayloadView)
    ensures
        post_message_payload::blocks(payload) <==> steps_for(payload).contains(StepView::MarkBusy),
{
    let steps = steps_for(payload);
    if post_message_payload::blocks(payload) {
        assert(steps[steps.len() - 3] == StepView::MarkBusy);
    }
}

/// A message that the scheduler sends leads to the same steps on the worker as
/// if it had not travelled, but for the debugging text of inherited pipes.
pub proof fn law_sent_messages_are_handled(payload: PayloadView)
    requires
        post_message_payload::sendable(payload),
    ensures
        post_message_payload::decoded(post_message_payload::encoded(payload)) is Ok,
        steps_for(
            post_message_payload::decoded(post_message_payload::encoded(payload))->Ok_0,
        ) == steps_for(post_message_payload::received(payload)),
{
    post_message_payload::law_payload_round_trip(payload);
}

} // verus!
