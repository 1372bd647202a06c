//! The shared pool from which pipe buffers are allocated.
//!
//! The pool is one shared buffer that every worker sees. Its first word holds
//! the offset of the first free byte; an allocation moves that offset up with
//! an atomic exchange. Nothing is ever freed.
use vstd::prelude::*;
use crate::response::{BufferStore, StoreView};
use crate::words;

verus! {

/// The size of the pool, in bytes.
pub const PIPE_POOL_SIZE: u32 = 16_777_216;

/// The size of the pool's header, which holds the allocation offset.
pub const POOL_HEADER_SIZE: u32 = 4;

/// The pool as one thread knows it. The buffer is held by handle.
#[derive(Debug, Clone, Copy)]
pub struct PipePool {
    pub pool: Option<SharedBuffer>,
}

/// A shared buffer, by handle, and its length in bytes.
#[derive(Debug, Clone, Copy, PartialEq, Eq)]
pub struct SharedBuffer {
    pub handle: u64,
    pub byte_length: u32,
}

/// A part of a shared buffer, in bytes or in words.
#[derive(Debug, Clone, Copy, PartialEq, Eq)]
pub struct PoolRegion {
    pub handle: u64,
    pub offset: u32,
    pub length: u32,
}

impl PipePool {
    /// Whether this thread knows the pool.
    pub open spec fn is_initialized(self) -> bool {
        self.pool is Some
    }

    /// A thread that does not know the pool yet.
    pub fn new() -> (r: PipePool)
        ensures
            r.pool is None,
    {
        PipePool { pool: None }
    }
}

/// Makes the pool known to this thread.
pub fn init_pipe_pool(slot: &mut PipePool, pool: SharedBuffer)
    ensures
        final(slot).pool == Some(pool),
{
    slot.pool = Some(pool);
}

/// Whether the pool is known to this thread.
pub fn is_pipe_pool_initialized(slot: &PipePool) -> (r: bool)
    ensures
        r == slot.is_initialized(),
{
    slot.pool.is_some()
}

/// The pool. It must be known to this thread.
pub fn get_pipe_pool(slot: &PipePool) -> (r: SharedBuffer)
    requires
        slot.is_initialized(),
    ensures
        Some(r) == slot.pool,
{
    slot.pool.unwrap()
}

/// How large a new pool is, and what is to be stored in it: its first free byte
/// comes right after the header.
pub fn create_pipe_pool() -> (r: (u32, BufferStore))
    ensures
        r.0 == PIPE_POOL_SIZE,
        r.1@ == (StoreView::Word { index: 0, value: POOL_HEADER_SIZE as i32 }),
{
    (PIPE_POOL_SIZE, BufferStore::Word { index: 0, value: POOL_HEADER_SIZE as i32 })
}

/// The bytes of the pool from an offset on. They must lie within the pool.
pub fn get_pool_uint8_view(slot: &PipePool, offset: u32, length: u32) -> (r: Option<PoolRegion>)
    requires
        slot.is_initialized(),
        offset + length <= slot.pool->0.byte_length,
    ensures
        r == Some(PoolRegion { handle: slot.pool->0.handle, offset, length }),
{
    let pool = get_pipe_pool(slot);
    Some(PoolRegion { handle: pool.handle, offset, length })
}

/// The words of the pool from an offset on. They must lie within the pool, and
/// the offset must be that of a word.
pub fn get_pool_int32_view(slot: &PipePool, offset: u32, length: u32) -> (r: Option<PoolRegion>)
    requires
        slot.is_initialized(),
        offset % 4 == 0,
        offset + 4 * length <= slot.pool->0.byte_length,
    ensures
        r == Some(PoolRegion { handle: slot.pool->0.handle, offset, length }),
{
    let pool = get_pipe_pool(slot);
    Some(PoolRegion { handle: pool.handle, offset, length })
}

/// What has happened in the course of an allocation.
#[derive(Debug, Clone, Copy, PartialEq, Eq)]
pub enum AllocationEvent {
    /// An allocation begins.
    Begin,
    /// The first word was loaded; `None` if that failed.
    Loaded(Option<i32>),
    /// An exchange was tried. `found` is what the first word held; `None` if
    /// the exchange failed.
    Exchanged { expected: i32, found: Option<i32> },
}

/// What is to be done next in the course of an allocation.
#[derive(Debug, Clone, Copy, PartialEq, Eq)]
pub enum AllocationStep {
    /// Load the first word.
    Load,
    /// If the first word holds `expected`, replace it.
    Exchange { expected: i32, replacement: i32 },
    /// The bytes from here on have been allocated.
    Allocated(u32),
    /// There is no pool, or not enough room in it.
    Refused,
}

/// The exchange that allocates `size` bytes when the first word holds `word`.
pub open spec fn claim(word: i32, size: u32) -> Option<(i32, i32)> {
    let offset = words::unsigned_word(word);
    if offset + size <= PIPE_POOL_SIZE {
        Some((word, (offset + size) as i32))
    } else {
        None
    }
}

/// What comes next in an allocation.
pub open spec fn allocation_step(
    slot: PipePool,
    size: u32,
    event: AllocationEvent,
) -> AllocationStep {
    if !slot.is_initialized() {
        AllocationStep::Refused
    } else {
        match event {
            AllocationEvent::Begin => AllocationStep::Load,
            AllocationEvent::Loaded(word) => match claim(
                match word {
                    Some(word) => word,
                    None => POOL_HEADER_SIZE as i32,
                },
                size,
            ) {
                Some((expected, replacement)) => AllocationStep::Exchange {
                    expected,
                    replacement,
                },
                None => AllocationStep::Refused,
            },
            AllocationEvent::Exchanged { expected, found } => if found == Some(expected) {
                AllocationStep::Allocated(words::unsigned_word(expected))
            } else {
                AllocationStep::Load
            },
        }
    }
}

/// Takes an allocation one step further. Where another thread was faster, the
/// first word is loaded again.
pub fn allocate_from_pool(slot: &PipePool, size: u32, event: AllocationEvent) -> (r:
    AllocationStep)
    ensures
        r == allocation_step(*slot, size, event),
{
    if !is_pipe_pool_initialized(slot) {
        return AllocationStep::Refused;
    }
    match event {
        AllocationEvent::Begin => AllocationStep::Load,
        AllocationEvent::Loaded(word) => {
            let word: i32 = match word {
                Some(word) => word,
                None => POOL_HEADER_SIZE as i32,
            };
            match words::to_unsigned_word(word).checked_add(size) {
                Some(offset) => if offset <= PIPE_POOL_SIZE {
                    AllocationStep::Exchange { expected: word, replacement: offset as i32 }
                } else {
                    AllocationStep::Refused
                },
                None => AllocationStep::Refused,
            }
        },
        AllocationEvent::Exchanged { expected, found } => match found {
            Some(found) => if found == expected {
                AllocationStep::Allocated(words::to_unsigned_word(expected))
            } else {
                AllocationStep::Load
            },
            None => AllocationStep::Load,
        },
    }
}

// ---------------------------------------------------------------------------
// Laws
// ---------------------------------------------------------------------------

/// What the first word holds after allocations of the given sizes, those that
/// do not fit left out.
pub open spec fn word_after(sizes: Seq<u32>) -> i32
    decreases sizes.len(),
{
    if sizes.len() == 0 {
        POOL_HEADER_SIZE as i32
    } else {
        let word = word_after(sizes.drop_last());
        match claim(word, sizes.last()) {
            Some((_, replacement)) => replacement,
            None => word,
        }
    }
}

/// Where the `i`-th of a run of allocations lies, if it fitted.
pub open spec fn allocated_at(sizes: Seq<u32>, i: int) -> Option<u32> {
    let word = word_after(sizes.take(i));
    match claim(word, sizes[i]) {
        Some(_) => Some(words::unsigned_word(word)),
        None => None,
    }
}

proof fn lemma_word_in_range(sizes: Seq<u32>)
    ensures
        POOL_HEADER_SIZE <= word_after(sizes) <= PIPE_POOL_SIZE,
    decreases sizes.len(),
{
    if sizes.len() > 0 {
        lemma_word_in_range(sizes.drop_last());
    }
}

proof fn lemma_word_grows(sizes: Seq<u32>, i: int, j: int)
    requires
        0 <= i <= j <= sizes.len(),
    ensures
        word_after(sizes.take(i)) <= word_after(sizes.take(j)),
    decreases j - i,
{
    if i < j {
        lemma_word_grows(sizes, i, j - 1);
        lemma_word_in_range(sizes.take(j - 1));
        assert(sizes.take(j).drop_last() =~= sizes.take(j - 1));
    }
}

/// Every allocation lies within the pool and clear of its header.
pub proof fn law_allocations_lie_within_the_pool(sizes: Seq<u32>, i: int)
    requires
        0 <= i < sizes.len(),
        allocated_at(sizes, i) is Some,
    ensures
        POOL_HEADER_SIZE <= allocated_at(sizes, i)->0,
        allocated_at(sizes, i)->0 + sizes[i] <= PIPE_POOL_SIZE,
{
    lemma_word_in_range(sizes.take(i));
}

/// No two allocations overlap: each one lies behind all earlier ones.
pub proof fn law_allocations_are_disjoint(sizes: Seq<u32>, i: int, j: int)
    requires
        0 <= i < j < sizes.len(),
        allocated_at(sizes, i) is Some,
        allocated_at(sizes, j) is Some,
    ensures
        allocated_at(sizes, i)->0 + sizes[i] <= allocated_at(sizes, j)->0,
{
    lemma_word_in_range(sizes.take(i));
    lemma_word_in_range(sizes.take(j));
    assert(sizes.take(i + 1).drop_last() =~= sizes.take(i));
    assert(sizes.take(i + 1).last() == sizes[i]);
    lemma_word_grows(sizes, i + 1, j);
}

/// An allocation is refused only where the pool has no room for it.
pub proof fn law_allocations_are_refused_only_when_full(sizes: Seq<u32>, i: int)
    requires
        0 <= i < sizes.len(),
    ensures
        allocated_at(sizes, i) is None <==> word_after(sizes.take(i)) + sizes[i] > PIPE_POOL_SIZE,
{
    lemma_word_in_range(sizes.take(i));
}

/// As long as all sizes are whole words, every allocation starts at a word.
pub proof fn law_allocations_are_aligned(sizes: Seq<u32>)
    requires
        forall|i: int| 0 <= i < sizes.len() ==> #[trigger] sizes[i] % 4 == 0,
    ensures
        word_after(sizes) % 4 == 0,
    decreases sizes.len(),
{
    if sizes.len() > 0 {
        let rest = sizes.drop_last();
        assert forall|i: int| 0 <= i < rest.len() implies #[trigger] rest[i] % 4 == 0 by {
            assert(rest[i] == sizes[i]);
        }
        law_allocations_are_aligned(rest);
        lemma_word_in_range(rest);
        assert(sizes.last() % 4 == 0);
    }
}

/// An allocation that a thread has under way.
pub struct Pending {
    pub slot: PipePool,
    pub size: u32,
    pub step: AllocationStep,
}

/// The pool's first word, what each thread has under way, and which bytes have
/// been allocated: offsets and sizes, in the order in which they were.
pub struct PoolRun {
    pub word: i32,
    pub threads: Map<nat, Pending>,
    pub allocated: Seq<(u32, u32)>,
}

/// One move of one thread.
pub enum PoolMove {
    /// Begins an allocation.
    Begin { thread: nat, slot: PipePool, size: u32 },
    /// Does what is next.
    Advance { thread: nat },
    /// Does what is next, and fails in it.
    Fail { thread: nat },
}

/// A pool that has just been created.
pub open spec fn new_run() -> PoolRun {
    PoolRun { word: POOL_HEADER_SIZE as i32, threads: Map::empty(), allocated: Seq::empty() }
}

/// What a thread learns from what it does. A load finds what the first word
/// holds, and so does an exchange.
pub open spec fn learned(step: AllocationStep, word: i32, fails: bool) -> Option<AllocationEvent> {
    let found = if fails {
        None
    } else {
        Some(word)
    };
    match step {
        AllocationStep::Load => Some(AllocationEvent::Loaded(found)),
        AllocationStep::Exchange { expected, .. } => Some(
            AllocationEvent::Exchanged { expected, found },
        ),
        _ => None,
    }
}

/// What the first word holds after a thread has done what is next. Only an
/// exchange that finds what it expects replaces it.
pub open spec fn word_left(step: AllocationStep, word: i32, fails: bool) -> i32 {
    match step {
        AllocationStep::Exchange { expected, replacement } => if !fails && word == expected {
            replacement
        } else {
            word
        },
        _ => word,
    }
}

/// The run after a thread has done what is next.
pub open spec fn after_step(run: PoolRun, thread: nat, fails: bool) -> PoolRun {
    if !run.threads.contains_key(thread) {
        run
    } else {
        let pending = run.threads[thread];
        match learned(pending.step, run.word, fails) {
            None => run,
            Some(event) => {
                let step = allocation_step(pending.slot, pending.size, event);
                PoolRun {
                    word: word_left(pending.step, run.word, fails),
                    threads: run.threads.insert(thread, Pending { step, ..pending }),
                    allocated: match step {
                        AllocationStep::Allocated(offset) => run.allocated.push(
                            (offset, pending.size),
                        ),
                        _ => run.allocated,
                    },
                }
            },
        }
    }
}

/// The run after a move.
pub open spec fn after_move(run: PoolRun, next: PoolMove) -> PoolRun {
    match next {
        PoolMove::Begin { thread, slot, size } => PoolRun {
            threads: run.threads.insert(
                thread,
                Pending { slot, size, step: allocation_step(slot, size, AllocationEvent::Begin) },
            ),
            ..run
        },
        PoolMove::Advance { thread } => after_step(run, thread, false),
        PoolMove::Fail { thread } => after_step(run, thread, true),
    }
}

/// The run after moves of any number of threads, in any order.
pub open spec fn after_moves(moves: Seq<PoolMove>) -> PoolRun
    decreases moves.len(),
{
    if moves.len() == 0 {
        new_run()
    } else {
        after_move(after_moves(moves.drop_last()), moves.last())
    }
}

/// What holds throughout a run: each exchange under way claims bytes from where
/// it expects the first word, and what has been allocated lies in order between
/// the header and the first word.
spec fn run_in_order(run: PoolRun) -> bool {
    &&& POOL_HEADER_SIZE <= run.word <= PIPE_POOL_SIZE
    &&& forall|thread: nat| #[trigger]
        run.threads.contains_key(thread) ==> match run.threads[thread].step {
            AllocationStep::Exchange { expected, replacement } => claim(
                expected,
                run.threads[thread].size,
            ) == Some((expected, replacement)),
            _ => true,
        }
    &&& forall|i: int|
        0 <= i < run.allocated.len() ==> {
            let (offset, size) = #[trigger] run.allocated[i];
            POOL_HEADER_SIZE <= offset && offset + size <= run.word
        }
    &&& forall|i: int, j: int|
        0 <= i < j < run.allocated.len() ==> (#[trigger] run.allocated[i]).0 + run.allocated[i].1
            <= (#[trigger] run.allocated[j]).0
}

proof fn lemma_step_in_order(run: PoolRun, thread: nat, fails: bool)
    requires
        run_in_order(run),
    ensures
        run_in_order(after_step(run, thread, fails)),
{
    let after = after_step(run, thread, fails);
    if run.threads.contains_key(thread) {
        let pending = run.threads[thread];
        let n = run.allocated.len() as int;
        if after.allocated.len() > n {
            assert(pending.step is Exchange);
            assert(after.allocated[n] == (words::unsigned_word(run.word), pending.size));
            assert forall|i: int| 0 <= i < n implies #[trigger] after.allocated[i]
                == run.allocated[i] by {}
        }
    }
}

proof fn lemma_run_in_order(moves: Seq<PoolMove>)
    ensures
        run_in_order(after_moves(moves)),
    decreases moves.len(),
{
    if moves.len() > 0 {
        lemma_run_in_order(moves.drop_last());
        let run = after_moves(moves.drop_last());
        match moves.last() {
            PoolMove::Begin { .. } => {},
            PoolMove::Advance { thread } => {
                lemma_step_in_order(run, thread, false);
            },
            PoolMove::Fail { thread } => {
                lemma_step_in_order(run, thread, true);
            },
        }
    }
}

/// However the steps of any number of threads interleave, no two allocations
/// overlap: each one lies behind all that were made before it, within the pool
/// and clear of its header.
pub proof fn law_concurrent_allocations_are_disjoint(moves: Seq<PoolMove>, i: int, j: int)
    requires
        0 <= i < j < after_moves(moves).allocated.len(),
    ensures
        ({
            let (first, first_size) = after_moves(moves).allocated[i];
            let (second, second_size) = after_moves(moves).allocated[j];
            POOL_HEADER_SIZE <= first && first + first_size <= second && second + second_size
                <= PIPE_POOL_SIZE
        }),
{
    lemma_run_in_order(moves);
}

/// However the steps interleave, a thread that knows the pool is refused only
/// when what is left of it is too small.
pub proof fn law_concurrent_allocations_are_refused_only_when_full(
    moves: Seq<PoolMove>,
    thread: nat,
    fails: bool,
)
    requires
        after_moves(moves).threads.contains_key(thread),
        after_moves(moves).threads[thread].slot.is_initialized(),
        !(after_moves(moves).threads[thread].step is Refused),
        after_step(after_moves(moves), thread, fails).threads[thread].step is Refused,
    ensures
        after_moves(moves).word + after_moves(moves).threads[thread].size > PIPE_POOL_SIZE,
{
    lemma_run_in_order(moves);
}

/// A thread is told that it has allocated bytes exactly when they are entered
/// among those that have been allocated.
pub proof fn law_allocated_bytes_are_told(run: PoolRun, thread: nat, fails: bool)
    requires
        run.threads.contains_key(thread),
        run.threads[thread].step is Load || run.threads[thread].step is Exchange,
    ensures
        ({
            let after = after_step(run, thread, fails);
            match after.threads[thread].step {
                AllocationStep::Allocated(offset) => after.allocated == run.allocated.push(
                    (offset, run.threads[thread].size),
                ),
                _ => after.allocated == run.allocated,
            }
        }),
{
}

} // verus!
