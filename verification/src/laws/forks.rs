//! Pipes in the shared pool, and how forks come by them.
use vstd::prelude::*;
use crate::pipes::extract;
use crate::pipes::extract::{FdKind, FileTable, FileTableView, PipeBufferMap, PipeEnd};
use crate::pipes::pool;
use crate::pipes::pool::{AllocationEvent, AllocationStep, PipePool, PoolRegion, SharedBuffer};
use crate::response::BufferStore;

verus! {

// ---------------------------------------------------------------------------
// The pool
// ---------------------------------------------------------------------------

/// An allocation first reads where the free bytes begin, taking a failure to
/// read for a new pool. It then tries to move that place up by as many bytes as
/// it needs, unless it would leave the pool, whose size is sixteen megabytes. The
/// bytes are its own only if the place had not moved in between; if it had, the
/// allocation reads it anew.
pub proof fn law_allocations_move_the_free_bytes_up(
    known: &PipePool,
    unknown: &PipePool,
    size: u32,
    event: AllocationEvent,
    refused: AllocationStep,
    begun: AllocationStep,
    word: i32,
    loaded: AllocationStep,
    unloaded: AllocationStep,
    found: i32,
    exchanged: AllocationStep,
    failed: AllocationStep,
)
    requires
        known.pool is Some,
        unknown.pool is None,
        call_ensures(pool::allocate_from_pool, (unknown, size, event), refused),
        call_ensures(pool::allocate_from_pool, (known, size, AllocationEvent::Begin), begun),
        call_ensures(
            pool::allocate_from_pool,
            (known, size, AllocationEvent::Loaded(Some(word))),
            loaded,
        ),
        call_ensures(
            pool::allocate_from_pool,
            (known, size, AllocationEvent::Loaded(None)),
            unloaded,
        ),
        call_ensures(
            pool::allocate_from_pool,
            (known, size, AllocationEvent::Exchanged { expected: word, found: Some(found) }),
            exchanged,
        ),
        call_ensures(
            pool::allocate_from_pool,
            (known, size, AllocationEvent::Exchanged { expected: word, found: None }),
            failed,
        ),
    ensures
        refused is Refused,
        begun is Load,
        word >= 0 && word + size <= 0x100_0000 ==> {
            &&& loaded is Exchange
            &&& loaded->expected == word
            &&& loaded->replacement == word + size
        },
        word < 0 || word + size > 0x100_0000 ==> loaded is Refused,
        4 + size <= 0x100_0000 ==> {
            &&& unloaded is Exchange
            &&& unloaded->expected == 4
            &&& unloaded->replacement == 4 + size
        },
        4 + size > 0x100_0000 ==> unloaded is Refused,
        found == word && word >= 0 ==> exchanged == AllocationStep::Allocated(word as u32),
        found != word ==> exchanged is Load,
        failed is Load,
{
}

/// A new pool is sixteen megabytes large, and its free bytes begin after the
/// word that says where they begin. A thread knows the pool once it was told of
/// it, and sees the part of it that it asks for.
pub proof fn law_the_pool_is_the_one_that_was_set(
    created: (u32, BufferStore),
    fresh: PipePool,
    slot: &mut PipePool,
    buffer: SharedBuffer,
    known: &PipePool,
    is_known: bool,
    got: SharedBuffer,
    offset: u32,
    length: u32,
    bytes: Option<PoolRegion>,
    words: Option<PoolRegion>,
    unknown: &PipePool,
    is_unknown: bool,
)
    requires
        call_ensures(pool::create_pipe_pool, (), created),
        call_ensures(PipePool::new, (), fresh),
        call_ensures(pool::init_pipe_pool, (slot, buffer), ()),
        *known == *final(slot),
        call_ensures(pool::is_pipe_pool_initialized, (known,), is_known),
        call_ensures(pool::get_pipe_pool, (known,), got),
        call_ensures(pool::get_pool_uint8_view, (known, offset, length), bytes),
        call_ensures(pool::get_pool_int32_view, (known, offset, length), words),
        unknown.pool is None,
        call_ensures(pool::is_pipe_pool_initialized, (unknown,), is_unknown),
    ensures
        created.0 == 0x100_0000,
        created.1 == (BufferStore::Word { index: 0, value: 4 }),
        fresh.pool is None,
        is_known && !is_unknown,
        got == buffer,
        bytes == Some(PoolRegion { handle: buffer.handle, offset, length }),
        words == Some(PoolRegion { handle: buffer.handle, offset, length }),
{
}

// ---------------------------------------------------------------------------
// File descriptors
// ---------------------------------------------------------------------------

/// Whether a file descriptor refers to a pipe end, which is a write end or a
/// read end.
pub open spec fn refers_to(table: FileTable, fd: u32, is_tx: bool, end: u64) -> bool {
    &&& table.fds@.contains_key(fd)
    &&& table.inodes@.contains_key(table.fds@[fd])
    &&& is_tx ==> table.inodes@[table.fds@[fd]] == FdKind::PipeTx(end)
    &&& !is_tx ==> table.inodes@[table.fds@[fd]] == FdKind::PipeRx(end)
    &&& table.ends@.contains_key(end)
}

/// Whether a file descriptor writes to a place in the pool, or reads from it.
pub open spec fn lies_at(table: FileTable, fd: u32, is_tx: bool, offset: u32, size: u32) -> bool {
    exists|end: u64| #[trigger]
        refers_to(table, fd, is_tx, end) && is_at(table.ends@[end], is_tx, offset, size)
}

/// Whether a pipe end writes to a place in the pool, or reads from it.
pub open spec fn is_at(end: PipeEnd, is_tx: bool, offset: u32, size: u32) -> bool {
    match end {
        PipeEnd::SharedTx { pool_offset, buffer_size } => is_tx && pool_offset == offset
            && buffer_size == size,
        PipeEnd::SharedRx { pool_offset, buffer_size } => !is_tx && pool_offset == offset
            && buffer_size == size,
        _ => false,
    }
}

proof fn lemma_refers_to(table: FileTable, fd: u32, is_tx: bool, end: u64)
    ensures
        refers_to(table, fd, is_tx, end) <==> table@.end_of(fd, is_tx) == Some(end),
{
}

proof fn lemma_lies_at(table: FileTable, fd: u32, is_tx: bool, offset: u32, size: u32)
    ensures
        lies_at(table, fd, is_tx, offset, size) <==> table@.connection(fd) == Some(
            (is_tx, offset, size),
        ),
{
    if let Some(end) = table@.end_of(fd, is_tx) {
        lemma_refers_to(table, fd, is_tx, end);
    }
    if lies_at(table, fd, is_tx, offset, size) {
        let end = choose|end: u64| #[trigger]
            refers_to(table, fd, is_tx, end) && is_at(table.ends@[end], is_tx, offset, size);
        lemma_refers_to(table, fd, is_tx, end);
    }
}

/// What is handed to a fork are the file descriptors that lie in the pool, with
/// their direction and place, and no others.
pub proof fn law_pipes_in_the_pool_are_handed_over(
    table: &FileTable,
    found: PipeBufferMap,
    unread: PipeBufferMap,
    fd: u32,
    is_tx: bool,
    offset: u32,
    size: u32,
    end: u64,
    named: Option<u64>,
    connection: Option<(bool, u32, u32)>,
)
    requires
        call_ensures(extract::extract_pipe_buffers, (Some(table),), found),
        call_ensures(extract::extract_pipe_buffers, (None,), unread),
        call_ensures(FileTable::end_of, (table, fd, is_tx), named),
        call_ensures(FileTable::connection, (table, fd), connection),
    ensures
        (found.buffers@.contains_key(fd) && found.buffers@[fd] == (is_tx, offset, size))
            <==> lies_at(*table, fd, is_tx, offset, size),
        found.all_fds_debug@.len() == 0,
        !unread.buffers@.contains_key(fd),
        named == Some(end) <==> refers_to(*table, fd, is_tx, end),
        connection == Some((is_tx, offset, size)) <==> lies_at(*table, fd, is_tx, offset, size),
{
    lemma_refers_to(*table, fd, is_tx, end);
    lemma_lies_at(*table, fd, is_tx, offset, size);
}

/// A map of buffers that travels as a list arrives as it was sent. An empty map
/// says that it is.
pub proof fn law_buffer_maps_travel_as_lists(
    map: PipeBufferMap,
    list: Vec<(u32, bool, u32, u32)>,
    debug: String,
    arrived: PipeBufferMap,
    fd: u32,
    is_empty: bool,
    fresh: PipeBufferMap,
)
    requires
        call_ensures(PipeBufferMap::into_vec, (map,), list),
        call_ensures(PipeBufferMap::from_vec, (list, debug), arrived),
        call_ensures(PipeBufferMap::is_empty, (&map,), is_empty),
        call_ensures(PipeBufferMap::new, (), fresh),
    ensures
        arrived.buffers@.contains_key(fd) <==> map.buffers@.contains_key(fd),
        map.buffers@.contains_key(fd) ==> arrived.buffers@[fd] == map.buffers@[fd],
        arrived.all_fds_debug@ == debug@,
        is_empty <==> (forall|k: u32| !#[trigger] map.buffers@.contains_key(k)),
        !fresh.buffers@.contains_key(fd),
        fresh.all_fds_debug@.len() == 0,
{
    extract::law_listing_a_map_is_undone(list@, map.buffers@);
    if forall|k: u32| !#[trigger] map.buffers@.contains_key(k) {
        assert(map.buffers@ =~= Map::empty());
    }
}

/// An entry of a list stands in the map that is made of it, unless a later one
/// is about the same file descriptor.
pub proof fn law_lists_are_read_entry_by_entry(
    list: Vec<(u32, bool, u32, u32)>,
    debug: String,
    map: PipeBufferMap,
    i: int,
    absent: u32,
)
    requires
        call_ensures(PipeBufferMap::from_vec, (list, debug), map),
        0 <= i < list@.len(),
        forall|j: int| i < j < list@.len() ==> (#[trigger] list@[j]).0 != list@[i].0,
        forall|j: int| 0 <= j < list@.len() ==> (#[trigger] list@[j]).0 != absent,
    ensures
        map.buffers@.contains_key(list@[i].0),
        map.buffers@[list@[i].0] == (list@[i].1, list@[i].2, list@[i].3),
        !map.buffers@.contains_key(absent),
{
    lemma_listed(list@, i, absent);
}

proof fn lemma_listed(list: Seq<(u32, bool, u32, u32)>, i: int, absent: u32)
    requires
        forall|j: int| i < j < list.len() ==> (#[trigger] list[j]).0 != list[i].0,
        forall|j: int| 0 <= j < list.len() ==> (#[trigger] list[j]).0 != absent,
    ensures
        0 <= i < list.len() ==> {
            &&& extract::listed(list).contains_key(list[i].0)
            &&& extract::listed(list)[list[i].0] == (list[i].1, list[i].2, list[i].3)
        },
        !extract::listed(list).contains_key(absent),
    decreases list.len(),
{
    if list.len() > 0 {
        let rest = list.drop_last();
        assert forall|j: int| 0 <= j < rest.len() implies (#[trigger] rest[j]).0 != absent by {
            assert(rest[j] == list[j]);
        }
        if 0 <= i < rest.len() {
            assert forall|j: int| i < j < rest.len() implies (#[trigger] rest[j]).0
                != rest[i].0 by {
                assert(rest[j] == list[j]);
            }
            lemma_listed(rest, i, absent);
            assert(list[list.len() - 1].0 != list[i].0);
        } else {
            lemma_listed(rest, rest.len() as int, absent);
        }
        assert(list[list.len() - 1].0 != absent);
    }
}

proof fn lemma_last_entry(
    table: FileTableView,
    list: Seq<(u32, bool, u32, u32)>,
    end: u64,
    i: int,
)
    requires
        0 <= i < list.len() ==> extract::reaches(table, list[i], end),
        -1 <= i < list.len(),
        forall|j: int| i < j < list.len() ==> !extract::reaches(table, #[trigger] list[j], end),
    ensures
        i >= 0 ==> extract::last_entry(table, list, end) == Some(list[i]),
        i < 0 ==> extract::last_entry(table, list, end) is None,
    decreases list.len(),
{
    if list.len() > 0 {
        let n = list.len() - 1;
        if i < n {
            let rest = list.drop_last();
            assert(!extract::reaches(table, list[n], end));
            assert forall|j: int| i < j < rest.len() implies !extract::reaches(
                table,
                #[trigger] rest[j],
                end,
            ) by {
                assert(rest[j] == list[j]);
            }
            lemma_last_entry(table, rest, end, i);
        }
    }
}

/// A sound pipe end is connected to where the last entry about it says, as a
/// write end or a read end. Ends that no entry is about stay as they are, and so
/// do those with a poisoned lock. No file descriptor comes to refer to another
/// end.
pub proof fn law_pipe_ends_are_reconnected(
    pool: &PipePool,
    table: &mut FileTable,
    list: &Vec<(u32, bool, u32, u32)>,
    i: int,
    end: u64,
    other: u64,
)
    requires
        call_ensures(extract::reconnect_in_order, (pool, table, list), ()),
        0 <= i < list@.len(),
        refers_to(*table, list@[i].0, list@[i].1, end),
        !(table.ends@[end] is Poisoned),
        forall|j: int|
            i < j < list@.len() ==> !refers_to(
                *table,
                (#[trigger] list@[j]).0,
                list@[j].1,
                end,
            ),
        table.ends@.contains_key(other),
        table.ends@[other] is Poisoned || forall|j: int|
            0 <= j < list@.len() ==> !refers_to(
                *table,
                (#[trigger] list@[j]).0,
                list@[j].1,
                other,
            ),
    ensures
        final(table).fds@ == old(table).fds@,
        final(table).inodes@ == old(table).inodes@,
        final(table).ends@.dom() == old(table).ends@.dom(),
        is_at(final(table).ends@[end], list@[i].1, list@[i].2, list@[i].3),
        final(table).ends@[other] == old(table).ends@[other],
{
    extract::law_reconnecting_keeps_what_is_shared(table@, list@);
    extract::law_reconnecting_follows_the_last_entry(table@, list@, end);
    extract::law_reconnecting_follows_the_last_entry(table@, list@, other);
    lemma_refers_to(*table, list@[i].0, list@[i].1, end);
    assert forall|j: int| i < j < list@.len() implies !extract::reaches(
        table@,
        #[trigger] list@[j],
        end,
    ) by {
        lemma_refers_to(*table, list@[j].0, list@[j].1, end);
    }
    lemma_last_entry(table@, list@, end, i);
    if !(table.ends@[other] is Poisoned) {
        assert forall|j: int| -1 < j < list@.len() implies !extract::reaches(
            table@,
            #[trigger] list@[j],
            other,
        ) by {
            lemma_refers_to(*table, list@[j].0, list@[j].1, other);
        }
        lemma_last_entry(table@, list@, other, -1);
    }
}

/// A fork that has a pipe end where its parent has one in the pool is connected
/// to the same place in the same direction, if its end is sound and the parent
/// has all file descriptors that refer to this end at one place.
pub proof fn law_forks_get_their_parents_pipes(
    parent: &FileTable,
    found: PipeBufferMap,
    pool: &PipePool,
    child: &mut FileTable,
    fd: u32,
    is_tx: bool,
    offset: u32,
    size: u32,
    end: u64,
)
    requires
        call_ensures(extract::extract_pipe_buffers, (Some(parent),), found),
        call_ensures(extract::reconnect_pipe_buffers, (pool, child, found), ()),
        lies_at(*parent, fd, is_tx, offset, size),
        refers_to(*child, fd, is_tx, end),
        !(child.ends@[end] is Poisoned),
        forall|k: u32, tx: bool, o: u32, s: u32| #[trigger]
            lies_at(*parent, k, tx, o, s) && refers_to(*child, k, tx, end) ==> tx == is_tx && o
                == offset && s == size,
    ensures
        lies_at(*final(child), fd, is_tx, offset, size),
        final(child).fds@ == old(child).fds@,
        final(child).inodes@ == old(child).inodes@,
        final(child).ends@.dom() == old(child).ends@.dom(),
{
    let list = choose|list: Seq<(u32, bool, u32, u32)>| #[trigger]
        extract::lists(list, found.buffers@) && final(child)@ == extract::reconnected(
            child@,
            list,
        );
    extract::law_reconnecting_keeps_what_is_shared(child@, list);
    lemma_lies_at(*parent, fd, is_tx, offset, size);
    lemma_refers_to(*child, fd, is_tx, end);
    assert forall|k: u32|
        (#[trigger] parent@.connection(k)) is Some && child@.end_of(k, (parent@.connection(k)->0).0)
            == Some(end) implies parent@.connection(k) == parent@.connection(fd) by {
        let (tx, o, s) = parent@.connection(k)->0;
        lemma_lies_at(*parent, k, tx, o, s);
        lemma_refers_to(*child, k, tx, end);
    }
    extract::law_fork_shares_its_parents_pipes(parent@, child@, list, fd, end);
    lemma_lies_at(*final(child), fd, is_tx, offset, size);
}

} // verus!
