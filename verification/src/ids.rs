//! Counters that hand out identifiers.
use vstd::prelude::*;

verus! {

/// Hands out 64-bit ids one after another. After the largest it starts over at
/// zero.
#[derive(Debug)]
pub struct IdCounter {
    pub next: u64,
}

/// Hands out 32-bit ids one after another. After the largest it starts over at
/// zero.
#[derive(Debug)]
pub struct WorkerIdCounter {
    pub next: u32,
}

/// The `n`-th id that a 64-bit counter hands out, counted from zero, when the
/// next one is `next`.
pub open spec fn nth_id(next: u64, n: nat) -> u64 {
    ((next + n) % 0x1_0000_0000_0000_0000) as u64
}

/// The `n`-th id that a 32-bit counter hands out, counted from zero, when the
/// next one is `next`.
pub open spec fn nth_worker_id(next: u32, n: nat) -> u32 {
    ((next + n) % 0x1_0000_0000) as u32
}

impl IdCounter {
    /// The counter of a process's pipes. The first pipe gets id 1.
    pub fn for_pipes() -> (r: IdCounter)
        ensures
            r.next == 1,
    {
        IdCounter::starting_at(1)
    }

    /// A counter whose first id is `first`.
    pub fn starting_at(first: u64) -> (r: IdCounter)
        ensures
            r.next == first,
    {
        IdCounter { next: first }
    }

    /// Hands out the next id.
    pub fn allocate(&mut self) -> (id: u64)
        ensures
            id == old(self).next,
            final(self).next == nth_id(old(self).next, 1),
    {
        let id = self.next;
        self.next = if id == u64::MAX {
            0
        } else {
            id + 1
        };
        id
    }
}

impl WorkerIdCounter {
    /// A counter whose first id is `first`.
    pub fn starting_at(first: u32) -> (r: WorkerIdCounter)
        ensures
            r.next == first,
    {
        WorkerIdCounter { next: first }
    }

    /// Hands out the next id.
    pub fn allocate(&mut self) -> (id: u32)
        ensures
            id == old(self).next,
            final(self).next == nth_worker_id(old(self).next, 1),
    {
        let id = self.next;
        self.next = if id == u32::MAX {
            0
        } else {
            id + 1
        };
        id
    }
}

/// Handing out one id moves the rest of a counter's ids up by one.
pub proof fn law_ids_are_consecutive(next: u64, worker_next: u32, n: nat)
    ensures
        nth_id(next, 0) == next,
        nth_id(nth_id(next, 1), n) == nth_id(next, n + 1),
        nth_worker_id(worker_next, 0) == worker_next,
        nth_worker_id(nth_worker_id(worker_next, 1), n) == nth_worker_id(worker_next, n + 1),
{
}

/// Any two ids that a counter hands out within one turn of its range differ.
pub proof fn law_ids_are_unique(next: u64, i: nat, j: nat)
    requires
        i < j < i + 0x1_0000_0000_0000_0000,
    ensures
        nth_id(next, i) != nth_id(next, j),
{
}

/// Any two worker ids that a counter hands out within one turn of its range
/// differ.
pub proof fn law_worker_ids_are_unique(next: u32, i: nat, j: nat)
    requires
        i < j < i + 0x1_0000_0000,
    ensures
        nth_worker_id(next, i) != nth_worker_id(next, j),
{
}

/// The `n`-th id that a counter of pipes hands out, counted from zero: it starts
/// at the first one and takes one id after another.
pub open spec fn nth_pipe_id(n: nat) -> u64
    decreases n,
{
    if n == 0 {
        1
    } else {
        nth_id(nth_pipe_id((n - 1) as nat), 1)
    }
}

proof fn lemma_nth_pipe_id(n: nat)
    ensures
        nth_pipe_id(n) == nth_id(1, n),
    decreases n,
{
    if n > 0 {
        lemma_nth_pipe_id((n - 1) as nat);
        law_ids_are_consecutive(1, 1, n);
    }
}

/// As long as fewer than `u64::MAX` pipes have been created, the next one gets
/// an id that is at least 1 and larger than that of every earlier pipe.
pub proof fn law_pipe_ids_increase(earlier: nat, later: nat)
    requires
        earlier < later < u64::MAX,
    ensures
        1 <= nth_pipe_id(earlier) < nth_pipe_id(later),
{
    lemma_nth_pipe_id(earlier);
    lemma_nth_pipe_id(later);
}

} // verus!
