//! Handing the pipes of a process to a worker that runs its fork.
//!
//! When a process forks onto another worker, its pipe ends lie in the shared
//! pipe pool, which both workers see. What travels is where in the pool each
//! end lies; the other worker reconnects its own file descriptors to the same
//! places.
use std::collections::HashMap;
use vstd::prelude::*;
use crate::pipes::pool::PipePool;

verus! {

broadcast use vstd::std_specs::hash::group_hash_axioms;

/// One end of a pipe. Several inodes may hold the same one.
#[derive(Debug, Clone, Copy, PartialEq, Eq)]
pub enum PipeEnd {
    /// The write end of a pipe in the shared pool.
    SharedTx { pool_offset: u32, buffer_size: u32 },
    /// The read end of a pipe in the shared pool.
    SharedRx { pool_offset: u32, buffer_size: u32 },
    /// An end of a pipe of another sort.
    Foreign,
    /// The end's lock is poisoned.
    Poisoned,
}

/// What an inode stands for. Pipe ends are held by id.
#[derive(Debug, Clone, Copy, PartialEq, Eq)]
pub enum FdKind {
    /// The write end of a pipe.
    PipeTx(u64),
    /// The read end of a pipe.
    PipeRx(u64),
    /// Anything else.
    Other,
    /// The inode's lock is poisoned.
    Poisoned,
}

/// The open files of a process. Several file descriptors may share an inode,
/// and several inodes a pipe end.
#[derive(Debug, Default)]
pub struct FileTable {
    /// The inodes of the file descriptors.
    pub fds: HashMap<u32, u64>,
    /// What the inodes stand for.
    pub inodes: HashMap<u64, FdKind>,
    /// The pipe ends that the inodes hold.
    pub ends: HashMap<u64, PipeEnd>,
}

/// What a [`FileTable`] says.
#[verifier::ext_equal]
pub struct FileTableView {
    pub fds: Map<u32, u64>,
    pub inodes: Map<u64, FdKind>,
    pub ends: Map<u64, PipeEnd>,
}

impl View for FileTable {
    type V = FileTableView;

    open spec fn view(&self) -> FileTableView {
        FileTableView { fds: self.fds@, inodes: self.inodes@, ends: self.ends@ }
    }
}

impl FileTableView {
    /// What a file descriptor refers to.
    pub open spec fn kind(self, fd: u32) -> Option<FdKind> {
        if self.fds.contains_key(fd) && self.inodes.contains_key(self.fds[fd]) {
            Some(self.inodes[self.fds[fd]])
        } else {
            None
        }
    }

    /// The pipe end that a file descriptor refers to, if it is one of the given
    /// direction.
    pub open spec fn end_of(self, fd: u32, is_tx: bool) -> Option<u64> {
        let end = match self.kind(fd) {
            Some(FdKind::PipeTx(end)) => if is_tx {
                Some(end)
            } else {
                None
            },
            Some(FdKind::PipeRx(end)) => if is_tx {
                None
            } else {
                Some(end)
            },
            _ => None,
        };
        if end is Some && self.ends.contains_key(end->0) {
            end
        } else {
            None
        }
    }

    /// Where in the pool a file descriptor is connected to.
    pub open spec fn connection(self, fd: u32) -> Option<(bool, u32, u32)> {
        match (self.end_of(fd, true), self.end_of(fd, false)) {
            (Some(end), _) => match self.ends[end] {
                PipeEnd::SharedTx { pool_offset, buffer_size } => Some(
                    (true, pool_offset, buffer_size),
                ),
                _ => None,
            },
            (None, Some(end)) => match self.ends[end] {
                PipeEnd::SharedRx { pool_offset, buffer_size } => Some(
                    (false, pool_offset, buffer_size),
                ),
                _ => None,
            },
            (None, None) => None,
        }
    }
}

impl FileTable {
    /// Finds the pipe end that a file descriptor refers to, if it is one of the
    /// given direction.
    pub fn end_of(&self, fd: u32, is_tx: bool) -> (r: Option<u64>)
        ensures
            r == self@.end_of(fd, is_tx),
    {
        let inode = match self.fds.get(&fd) {
            Some(inode) => *inode,
            None => return None,
        };
        let end = match self.inodes.get(&inode) {
            Some(FdKind::PipeTx(end)) => if is_tx {
                *end
            } else {
                return None;
            },
            Some(FdKind::PipeRx(end)) => if is_tx {
                return None;
            } else {
                *end
            },
            _ => return None,
        };
        if self.ends.contains_key(&end) {
            Some(end)
        } else {
            None
        }
    }

    /// Finds where in the pool a file descriptor is connected to.
    pub fn connection(&self, fd: u32) -> (r: Option<(bool, u32, u32)>)
        ensures
            r == self@.connection(fd),
    {
        if let Some(end) = self.end_of(fd, true) {
            return match self.ends.get(&end) {
                Some(PipeEnd::SharedTx { pool_offset, buffer_size }) => Some(
                    (true, *pool_offset, *buffer_size),
                ),
                _ => None,
            };
        }
        if let Some(end) = self.end_of(fd, false) {
            return match self.ends.get(&end) {
                Some(PipeEnd::SharedRx { pool_offset, buffer_size }) => Some(
                    (false, *pool_offset, *buffer_size),
                ),
                _ => None,
            };
        }
        None
    }
}

/// Which places of the pool file descriptors are connected to.
#[derive(Debug, Default)]
pub struct PipeBufferMap {
    /// By file descriptor: whether it is a write end, offset into the pool, and
    /// size of the buffer.
    pub buffers: HashMap<u32, (bool, u32, u32)>,
    /// All file descriptors and their kinds, for debugging.
    pub all_fds_debug: String,
}

/// Whether a list holds each entry of a map exactly once.
pub open spec fn lists(
    list: Seq<(u32, bool, u32, u32)>,
    buffers: Map<u32, (bool, u32, u32)>,
) -> bool {
    &&& list.len() == buffers.dom().len()
    &&& forall|i: int|
        0 <= i < list.len() ==> {
            let (fd, is_tx, offset, size) = #[trigger] list[i];
            buffers.contains_key(fd) && buffers[fd] == (is_tx, offset, size)
        }
    &&& forall|i: int, j: int|
        0 <= i < j < list.len() ==> (#[trigger] list[i]).0 != (#[trigger] list[j]).0
    &&& forall|fd: u32| #[trigger]
        buffers.contains_key(fd) ==> exists|i: int|
            0 <= i < list.len() && (#[trigger] list[i]).0 == fd
}

/// The map that a list of buffers stands for. Where a file descriptor occurs
/// twice, the last entry counts.
pub open spec fn listed(list: Seq<(u32, bool, u32, u32)>) -> Map<u32, (bool, u32, u32)>
    decreases list.len(),
{
    if list.len() == 0 {
        Map::empty()
    } else {
        let (fd, is_tx, offset, size) = list.last();
        listed(list.drop_last()).insert(fd, (is_tx, offset, size))
    }
}

impl PipeBufferMap {
    /// The map that a list of buffers stands for.
    pub fn from_vec(list: Vec<(u32, bool, u32, u32)>, all_fds_debug: String) -> (r: PipeBufferMap)
        ensures
            r.buffers@ == listed(list@),
            r.all_fds_debug@ == all_fds_debug@,
    {
        let mut buffers: HashMap<u32, (bool, u32, u32)> = HashMap::new();
        let mut i: usize = 0;
        assert(list@.take(0) =~= Seq::empty());
        while i < list.len()
            invariant
                i <= list@.len(),
                buffers@ == listed(list@.take(i as int)),
            decreases list@.len() - i,
        {
            let (fd, is_tx, offset, size) = list[i];
            buffers.insert(fd, (is_tx, offset, size));
            assert(list@.take(i + 1).drop_last() =~= list@.take(i as int));
            i = i + 1;
        }
        assert(list@.take(i as int) =~= list@);
        PipeBufferMap { buffers, all_fds_debug }
    }

    /// A map without buffers.
    pub fn new() -> (r: PipeBufferMap)
        ensures
            r.buffers@ == Map::<u32, (bool, u32, u32)>::empty(),
            r.all_fds_debug@ == Seq::<char>::empty(),
    {
        let r = PipeBufferMap { buffers: HashMap::new(), all_fds_debug: String::new() };
        assert(r.all_fds_debug@ =~= Seq::<char>::empty());
        r
    }

    /// Whether there is nothing to hand over.
    pub fn is_empty(&self) -> (r: bool)
        ensures
            r == self.buffers@.is_empty(),
    {
        let r = self.buffers.is_empty();
        assert(self.buffers@.dom().finite());
        r
    }

    /// The buffers as a list, in no particular order.
    pub fn into_vec(self) -> (r: Vec<(u32, bool, u32, u32)>)
        ensures
            lists(r@, self.buffers@),
    {
        let ghost map = self.buffers@;
        let mut list: Vec<(u32, bool, u32, u32)> = Vec::new();
        for fd in fds: self.buffers.keys()
            invariant
                map == self.buffers@,
                fds.seq().unref().to_set() == map.dom(),
                fds.seq().no_duplicates(),
                fds.seq().len() == map.dom().len(),
                list@.len() == fds.index(),
                forall|i: int|
                    0 <= i < list@.len() ==> {
                        let (k, is_tx, offset, size) = #[trigger] list@[i];
                        &&& k == *fds.seq()[i]
                        &&& map.contains_key(k)
                        &&& map[k] == (is_tx, offset, size)
                    },
        {
            proof {
                assert(fds.seq().unref()[fds.index() as int] == *fd);
                assert(fds.seq().unref().to_set().contains(*fd));
            }
            if let Some(entry) = self.buffers.get(fd) {
                list.push((*fd, entry.0, entry.1, entry.2));
            }
        }
        proof {
            let keys = vstd::std_specs::iter::IteratorSpec::remaining(&self.buffers.keys());
            assert forall|k: u32| #[trigger] map.contains_key(k) implies exists|i: int|
                0 <= i < list@.len() && (#[trigger] list@[i]).0 == k by {
                assert(keys.unref().to_set().contains(k));
                let i = keys.unref().index_of(k);
                assert(list@[i].0 == k);
            }
            assert forall|i: int, j: int| 0 <= i < j < list@.len() implies (#[trigger] list@[i]).0
                != (#[trigger] list@[j]).0 by {
                assert(keys[i] != keys[j]);
            }
        }
        list
    }
}

/// The connections of all file descriptors that have one.
pub open spec fn extracted(table: FileTableView) -> Map<u32, (bool, u32, u32)> {
    Map::new(
        |fd: u32| table.connection(fd) is Some,
        |fd: u32| table.connection(fd)->0,
    )
}

/// Finds where in the pool the pipe ends of a process lie. `None` stands for
/// file descriptors whose lock is poisoned: then nothing is found.
pub fn extract_pipe_buffers(table: Option<&FileTable>) -> (r: PipeBufferMap)
    ensures
        r.buffers@ == (match table {
            Some(table) => extracted(table@),
            None => Map::empty(),
        }),
        r.all_fds_debug@ == Seq::<char>::empty(),
{
    let mut result = PipeBufferMap::new();
    let table = match table {
        Some(table) => table,
        None => return result,
    };
    for fd in keys: table.fds.keys()
        invariant
            keys.seq().unref().to_set() == table.fds@.dom(),
            result.all_fds_debug@ == Seq::<char>::empty(),
            forall|k: u32| #[trigger]
                result.buffers@.contains_key(k) <==> (table@.connection(k) is Some && exists|i: int|
                    0 <= i < keys.index() && *#[trigger] keys.seq()[i] == k),
            forall|k: u32| #[trigger]
                result.buffers@.contains_key(k) ==> result.buffers@[k] == table@.connection(k)->0,
    {
        let ghost before = result.buffers@;
        if let Some(connection) = table.connection(*fd) {
            result.buffers.insert(*fd, connection);
        }
        proof {
            let n = keys.index() as int;
            assert(*keys.seq()[n] == *fd);
            assert forall|k: u32| #[trigger]
                result.buffers@.contains_key(k) <==> (table@.connection(k) is Some && exists|i: int|
                    0 <= i < n + 1 && *#[trigger] keys.seq()[i] == k) by {
                if k != *fd {
                    assert(result.buffers@.contains_key(k) == before.contains_key(k));
                    if exists|i: int| 0 <= i < n + 1 && *#[trigger] keys.seq()[i] == k {
                        let i = choose|i: int| 0 <= i < n + 1 && *#[trigger] keys.seq()[i] == k;
                        assert(i != n);
                    }
                }
            }
        }
    }
    proof {
        let all = vstd::std_specs::iter::IteratorSpec::remaining(&table.fds.keys());
        assert forall|k: u32| table.fds@.contains_key(k) implies exists|i: int|
            0 <= i < all.len() && *#[trigger] all[i] == k by {
            assert(all.unref().to_set().contains(k));
            let i = all.unref().index_of(k);
            assert(*all[i] == k);
        }
        assert(result.buffers@ =~= extracted(table@));
    }
    result
}

/// The pipe end that lies at a place of the pool.
pub open spec fn pool_end(is_tx: bool, pool_offset: u32, buffer_size: u32) -> PipeEnd {
    if is_tx {
        PipeEnd::SharedTx { pool_offset, buffer_size }
    } else {
        PipeEnd::SharedRx { pool_offset, buffer_size }
    }
}

/// The files after one file descriptor was reconnected. Only a pipe end of the
/// same direction, with its locks sound, is; all that share it see that.
pub open spec fn reconnected_once(
    table: FileTableView,
    entry: (u32, bool, u32, u32),
) -> FileTableView {
    let (fd, is_tx, pool_offset, buffer_size) = entry;
    match table.end_of(fd, is_tx) {
        Some(end) => if table.ends[end] != PipeEnd::Poisoned {
            FileTableView {
                ends: table.ends.insert(end, pool_end(is_tx, pool_offset, buffer_size)),
                ..table
            }
        } else {
            table
        },
        None => table,
    }
}

/// The files after file descriptors were reconnected, one after the other.
pub open spec fn reconnected(
    table: FileTableView,
    list: Seq<(u32, bool, u32, u32)>,
) -> FileTableView
    decreases list.len(),
{
    if list.len() == 0 {
        table
    } else {
        reconnected_once(reconnected(table, list.drop_last()), list.last())
    }
}

/// Reconnects one file descriptor.
fn reconnect_one(
    table: &mut FileTable,
    fd: u32,
    is_tx: bool,
    pool_offset: u32,
    buffer_size: u32,
)
    ensures
        final(table)@ == reconnected_once(old(table)@, (fd, is_tx, pool_offset, buffer_size)),
{
    let end = match table.end_of(fd, is_tx) {
        Some(end) => end,
        None => return,
    };
    let poisoned = match table.ends.get(&end) {
        Some(PipeEnd::Poisoned) => true,
        _ => false,
    };
    if !poisoned {
        table.ends.insert(
            end,
            if is_tx {
                PipeEnd::SharedTx { pool_offset, buffer_size }
            } else {
                PipeEnd::SharedRx { pool_offset, buffer_size }
            },
        );
    }
}

/// Reconnects the file descriptors of a fork to the listed places of the pool,
/// in the order of the list. The pool must have been set up on this worker.
pub fn reconnect_in_order(
    pool: &PipePool,
    table: &mut FileTable,
    list: &Vec<(u32, bool, u32, u32)>,
)
    requires
        pool.is_initialized(),
    ensures
        final(table)@ == reconnected(old(table)@, list@),
{
    let ghost before = table@;
    let mut n: usize = 0;
    assert(list@.take(0) =~= Seq::empty());
    while n < list.len()
        invariant
            n <= list@.len(),
            table@ == reconnected(before, list@.take(n as int)),
        decreases list@.len() - n,
    {
        let (fd, is_tx, pool_offset, buffer_size) = list[n];
        reconnect_one(table, fd, is_tx, pool_offset, buffer_size);
        assert(list@.take(n + 1).drop_last() =~= list@.take(n as int));
        n = n + 1;
    }
    assert(list@.take(n as int) =~= list@);
}

/// Reconnects the file descriptors of a fork to the pipe ends that it
/// inherited, in no particular order. The pool must have been set up on this
/// worker.
pub fn reconnect_pipe_buffers(pool: &PipePool, table: &mut FileTable, buffers: PipeBufferMap)
    requires
        pool.is_initialized(),
    ensures
        exists|list: Seq<(u32, bool, u32, u32)>| #[trigger]
            lists(list, buffers.buffers@) && final(table)@ == reconnected(old(table)@, list),
{
    let ghost before = table@;
    let ghost map = buffers.buffers@;
    let list = buffers.into_vec();
    reconnect_in_order(pool, table, &list);
    assert(lists(list@, map) && table@ == reconnected(before, list@));
}

/// What a list of buffers holds is what its map holds.
proof fn lemma_listed(list: Seq<(u32, bool, u32, u32)>)
    requires
        forall|i: int, j: int|
            0 <= i < j < list.len() ==> (#[trigger] list[i]).0 != (#[trigger] list[j]).0,
    ensures
        listed(list).dom().finite(),
        listed(list).dom().len() == list.len(),
        forall|i: int|
            0 <= i < list.len() ==> {
                let (fd, is_tx, offset, size) = #[trigger] list[i];
                listed(list).contains_key(fd) && listed(list)[fd] == (is_tx, offset, size)
            },
        forall|fd: u32| #[trigger]
            listed(list).contains_key(fd) ==> exists|i: int|
                0 <= i < list.len() && (#[trigger] list[i]).0 == fd,
    decreases list.len(),
{
    if list.len() > 0 {
        let rest = list.drop_last();
        let n = rest.len() as int;
        assert forall|i: int, j: int| 0 <= i < j < rest.len() implies (#[trigger] rest[i]).0
            != (#[trigger] rest[j]).0 by {
            assert(rest[i] == list[i] && rest[j] == list[j]);
        }
        lemma_listed(rest);
        let fd = list.last().0;
        assert(!listed(rest).contains_key(fd)) by {
            if listed(rest).contains_key(fd) {
                let i = choose|i: int| 0 <= i < rest.len() && (#[trigger] rest[i]).0 == fd;
                assert(list[i].0 != list[n].0);
            }
        }
        assert forall|i: int| 0 <= i < list.len() implies {
            let (k, is_tx, offset, size) = #[trigger] list[i];
            listed(list).contains_key(k) && listed(list)[k] == (is_tx, offset, size)
        } by {
            if i < n {
                assert(rest[i] == list[i]);
                assert(list[i].0 != list[n].0);
            }
        }
        assert forall|k: u32| #[trigger] listed(list).contains_key(k) implies exists|i: int|
            0 <= i < list.len() && (#[trigger] list[i]).0 == k by {
            if k == fd {
                assert(list[n].0 == k);
            } else {
                let i = choose|i: int| 0 <= i < rest.len() && (#[trigger] rest[i]).0 == k;
                assert(list[i].0 == k);
            }
        }
        assert(listed(list).dom() =~= listed(rest).dom().insert(fd));
    }
}

/// Turning a map into a list and back gives the same map.
pub proof fn law_listing_a_map_is_undone(
    list: Seq<(u32, bool, u32, u32)>,
    buffers: Map<u32, (bool, u32, u32)>,
)
    requires
        lists(list, buffers),
    ensures
        listed(list) == buffers,
{
    lemma_listed(list);
    assert forall|fd: u32| listed(list).contains_key(fd) <==> buffers.contains_key(fd) by {
        if listed(list).contains_key(fd) {
            let i = choose|i: int| 0 <= i < list.len() && (#[trigger] list[i]).0 == fd;
            assert(list[i].0 == fd);
        }
        if buffers.contains_key(fd) {
            let i = choose|i: int| 0 <= i < list.len() && (#[trigger] list[i]).0 == fd;
            assert(list[i].0 == fd);
        }
    }
    assert forall|fd: u32| buffers.contains_key(fd) implies listed(list)[fd] == buffers[fd] by {
        let i = choose|i: int| 0 <= i < list.len() && (#[trigger] list[i]).0 == fd;
        assert(list[i].0 == fd);
    }
    assert(listed(list) =~= buffers);
}

/// Turning a list into a map and back gives the same entries, in some order, as
/// long as no file descriptor occurs twice.
pub proof fn law_mapping_a_list_is_undone(
    list: Seq<(u32, bool, u32, u32)>,
    back: Seq<(u32, bool, u32, u32)>,
    entry: (u32, bool, u32, u32),
)
    requires
        forall|i: int, j: int|
            0 <= i < j < list.len() ==> (#[trigger] list[i]).0 != (#[trigger] list[j]).0,
        lists(back, listed(list)),
    ensures
        back.len() == list.len(),
        back.contains(entry) <==> list.contains(entry),
{
    lemma_listed(list);
    if back.contains(entry) {
        let i = back.index_of(entry);
        assert(listed(list).contains_key(back[i].0));
        let j = choose|j: int| 0 <= j < list.len() && (#[trigger] list[j]).0 == entry.0;
        assert(list[j] == entry);
    }
    if list.contains(entry) {
        let i = list.index_of(entry);
        assert(listed(list).contains_key(list[i].0));
        let j = choose|j: int| 0 <= j < back.len() && (#[trigger] back[j]).0 == entry.0;
        assert(back[j] == entry);
    }
}

/// Whether an entry of a list reaches a pipe end.
pub open spec fn reaches(table: FileTableView, entry: (u32, bool, u32, u32), end: u64) -> bool {
    table.end_of(entry.0, entry.1) == Some(end)
}

/// The last entry of a list that reaches a pipe end.
pub open spec fn last_entry(
    table: FileTableView,
    list: Seq<(u32, bool, u32, u32)>,
    end: u64,
) -> Option<(u32, bool, u32, u32)>
    decreases list.len(),
{
    if list.len() == 0 {
        None
    } else if reaches(table, list.last(), end) {
        Some(list.last())
    } else {
        last_entry(table, list.drop_last(), end)
    }
}

proof fn lemma_last_entry(table: FileTableView, list: Seq<(u32, bool, u32, u32)>, end: u64)
    ensures
        match last_entry(table, list, end) {
            Some(entry) => list.contains(entry) && reaches(table, entry, end),
            None => forall|i: int| 0 <= i < list.len() ==> !reaches(table, #[trigger] list[i], end),
        },
    decreases list.len(),
{
    if list.len() > 0 {
        let rest = list.drop_last();
        let n = rest.len() as int;
        lemma_last_entry(table, rest, end);
        if reaches(table, list[n], end) {
            assert(list.contains(list[n]));
        } else {
            match last_entry(table, rest, end) {
                Some(entry) => {
                    let i = rest.index_of(entry);
                    assert(list[i] == entry);
                },
                None => {
                    assert forall|i: int| 0 <= i < list.len() implies !reaches(
                        table,
                        #[trigger] list[i],
                        end,
                    ) by {
                        if i < n {
                            assert(rest[i] == list[i]);
                        }
                    }
                },
            }
        }
    }
}

/// Reconnecting leaves it as it is which file descriptors share which inodes and
/// pipe ends.
pub proof fn law_reconnecting_keeps_what_is_shared(
    table: FileTableView,
    list: Seq<(u32, bool, u32, u32)>,
)
    ensures
        reconnected(table, list).fds == table.fds,
        reconnected(table, list).inodes == table.inodes,
        reconnected(table, list).ends.dom() == table.ends.dom(),
        forall|fd: u32, is_tx: bool| #[trigger]
            reconnected(table, list).end_of(fd, is_tx) == table.end_of(fd, is_tx),
    decreases list.len(),
{
    if list.len() > 0 {
        law_reconnecting_keeps_what_is_shared(table, list.drop_last());
        assert(reconnected(table, list).ends.dom() =~= table.ends.dom());
    }
    let after = reconnected(table, list);
    assert forall|fd: u32, is_tx: bool| #[trigger] after.end_of(fd, is_tx) == table.end_of(
        fd,
        is_tx,
    ) by {
        assert(after.kind(fd) == table.kind(fd));
        assert(forall|end: u64|
            after.ends.dom().contains(end) == #[trigger] table.ends.dom().contains(end));
    }
}

/// A pipe end whose lock is sound becomes what the last entry that reaches it
/// says. Any other end stays as it is.
pub proof fn law_reconnecting_follows_the_last_entry(
    table: FileTableView,
    list: Seq<(u32, bool, u32, u32)>,
    end: u64,
)
    requires
        table.ends.contains_key(end),
    ensures
        reconnected(table, list).ends[end] == (match last_entry(table, list, end) {
            Some((_, is_tx, pool_offset, buffer_size)) => if table.ends[end] != PipeEnd::Poisoned {
                pool_end(is_tx, pool_offset, buffer_size)
            } else {
                PipeEnd::Poisoned
            },
            None => table.ends[end],
        }),
    decreases list.len(),
{
    if list.len() > 0 {
        law_reconnecting_follows_the_last_entry(table, list.drop_last(), end);
        law_reconnecting_keeps_what_is_shared(table, list.drop_last());
    }
}

/// Where all entries that reach a pipe end name the same place, the order of
/// the list does not matter to it: the end lies at that place.
pub proof fn law_reconnecting_needs_no_order(
    table: FileTableView,
    list: Seq<(u32, bool, u32, u32)>,
    end: u64,
    entry: (u32, bool, u32, u32),
)
    requires
        table.ends.contains_key(end),
        table.ends[end] != PipeEnd::Poisoned,
        list.contains(entry),
        reaches(table, entry, end),
        forall|i: int|
            0 <= i < list.len() && reaches(table, #[trigger] list[i], end) ==> list[i].1 == entry.1
                && list[i].2 == entry.2 && list[i].3 == entry.3,
    ensures
        reconnected(table, list).ends[end] == pool_end(entry.1, entry.2, entry.3),
{
    law_reconnecting_follows_the_last_entry(table, list, end);
    lemma_last_entry(table, list, end);
    let i = list.index_of(entry);
    assert(reaches(table, list[i], end));
    let last = last_entry(table, list, end)->0;
    let j = list.index_of(last);
    assert(reaches(table, list[j], end));
}

/// A fork ends up with the same pipes as its parent, in whatever order it is
/// reconnected: where the parent has an end in the pool and the fork an end of
/// the same direction, whose lock is sound, the fork's end is the parent's. The
/// file descriptors that share this end in the fork must lie at one place in
/// the parent, as those do that share it there too.
pub proof fn law_fork_shares_its_parents_pipes(
    parent: FileTableView,
    child: FileTableView,
    list: Seq<(u32, bool, u32, u32)>,
    fd: u32,
    end: u64,
)
    requires
        lists(list, extracted(parent)),
        parent.connection(fd) is Some,
        child.end_of(fd, (parent.connection(fd)->0).0) == Some(end),
        child.ends[end] != PipeEnd::Poisoned,
        forall|other: u32|
            (#[trigger] parent.connection(other)) is Some && child.end_of(
                other,
                (parent.connection(other)->0).0,
            ) == Some(end) ==> parent.connection(other) == parent.connection(fd),
    ensures
        reconnected(child, list).connection(fd) == parent.connection(fd),
{
    assert(extracted(parent).contains_key(fd));
    let some = choose|i: int| 0 <= i < list.len() && (#[trigger] list[i]).0 == fd;
    assert forall|i: int| 0 <= i < list.len() && reaches(child, #[trigger] list[i], end) implies (
    list[i].1 == list[some].1 && list[i].2 == list[some].2 && list[i].3 == list[some].3) by {
        assert(extracted(parent).contains_key(list[i].0));
        assert(parent.connection(list[i].0) is Some);
    }
    assert(list.contains(list[some]));
    law_reconnecting_needs_no_order(child, list, end, list[some]);
    law_reconnecting_keeps_what_is_shared(child, list);
}

/// A fork whose file descriptors share inodes and pipe ends as its parent's do
/// ends up with all of its parent's pipes, if the locks of its ends are sound.
pub proof fn law_fork_of_the_same_files_shares_all_pipes(
    parent: FileTableView,
    child: FileTableView,
    list: Seq<(u32, bool, u32, u32)>,
    fd: u32,
)
    requires
        lists(list, extracted(parent)),
        child.fds == parent.fds,
        child.inodes == parent.inodes,
        child.ends.dom() == parent.ends.dom(),
        forall|end: u64| #[trigger]
            child.ends.contains_key(end) ==> child.ends[end] != PipeEnd::Poisoned,
        parent.connection(fd) is Some,
    ensures
        reconnected(child, list).connection(fd) == parent.connection(fd),
{
    assert(forall|k: u32, is_tx: bool| #[trigger]
        child.end_of(k, is_tx) == parent.end_of(k, is_tx));
    let end = child.end_of(fd, (parent.connection(fd)->0).0)->0;
    assert(child.ends.contains_key(end));
    law_fork_shares_its_parents_pipes(parent, child, list, fd, end);
}

/// A file descriptor keeps its connection where no entry reaches its pipe end.
pub proof fn law_reconnecting_changes_nothing_else(
    table: FileTableView,
    list: Seq<(u32, bool, u32, u32)>,
    fd: u32,
)
    requires
        forall|i: int|
            0 <= i < list.len() ==> {
                let end = table.end_of((#[trigger] list[i]).0, list[i].1);
                end is None || (end != table.end_of(fd, true) && end != table.end_of(fd, false))
            },
    ensures
        reconnected(table, list).connection(fd) == table.connection(fd),
{
    law_reconnecting_keeps_what_is_shared(table, list);
    if let Some(end) = table.end_of(fd, true) {
        law_reconnecting_follows_the_last_entry(table, list, end);
        lemma_last_entry(table, list, end);
    }
    if let Some(end) = table.end_of(fd, false) {
        law_reconnecting_follows_the_last_entry(table, list, end);
        lemma_last_entry(table, list, end);
    }
}

/// Reconnecting a process to its own pipes changes nothing.
pub proof fn law_reconnecting_to_own_pipes_changes_nothing(
    table: FileTableView,
    list: Seq<(u32, bool, u32, u32)>,
)
    requires
        lists(list, extracted(table)),
    ensures
        reconnected(table, list) == table,
{
    law_reconnecting_keeps_what_is_shared(table, list);
    let after = reconnected(table, list);
    assert forall|end: u64| #[trigger] table.ends.contains_key(end) implies after.ends[end]
        == table.ends[end] by {
        law_reconnecting_follows_the_last_entry(table, list, end);
        lemma_last_entry(table, list, end);
        if let Some(entry) = last_entry(table, list, end) {
            let i = list.index_of(entry);
            assert(list[i] == entry);
            assert(extracted(table).contains_key(entry.0));
        }
    }
    assert(after.ends =~= table.ends);
}

} // verus!
