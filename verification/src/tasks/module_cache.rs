//! The compiled modules that every worker is told about, in order of their
//! hashes.
use vstd::prelude::*;
use crate::tasks::module_hash::{HashView, ModuleHash};

verus! {

/// How two values stand in an order.
#[derive(Debug, Clone, Copy, PartialEq, Eq)]
pub enum Position {
    Before,
    Same,
    After,
}

/// Whether `a` comes before `b` in the order of their first differing byte.
pub open spec fn bytes_before(a: Seq<u8>, b: Seq<u8>) -> bool {
    exists|i: int|
        0 <= i < a.len() && i < b.len() && a.take(i) == b.take(i) && #[trigger] a[i] < b[i]
}

/// The order of hashes: every xxHash before every SHA-256 hash, and hashes of
/// one kind by their bytes.
pub open spec fn hash_before(a: HashView, b: HashView) -> bool {
    match (a, b) {
        (HashView::XXHash(x), HashView::XXHash(y)) => bytes_before(x, y),
        (HashView::XXHash(_), HashView::Sha256(_)) => true,
        (HashView::Sha256(_), HashView::XXHash(_)) => false,
        (HashView::Sha256(x), HashView::Sha256(y)) => bytes_before(x, y),
    }
}

/// The order of hashes is irreflexive, transitive and total.
pub proof fn law_hash_order_is_total(a: HashView, b: HashView, c: HashView)
    requires
        a.well_formed(),
        b.well_formed(),
        c.well_formed(),
    ensures
        !hash_before(a, a),
        hash_before(a, b) && hash_before(b, c) ==> hash_before(a, c),
        hash_before(a, b) || a == b || hash_before(b, a),
        !(hash_before(a, b) && hash_before(b, a)),
{
    lemma_bytes_transitive(a.bytes(), b.bytes(), c.bytes());
    lemma_bytes_transitive(a.bytes(), b.bytes(), a.bytes());
    if a.bytes().len() == b.bytes().len() {
        lemma_bytes_total(a.bytes(), b.bytes());
    }
}

proof fn lemma_bytes_transitive(a: Seq<u8>, b: Seq<u8>, c: Seq<u8>)
    ensures
        bytes_before(a, b) && bytes_before(b, c) ==> bytes_before(a, c),
        !bytes_before(a, a),
{
    if bytes_before(a, b) && bytes_before(b, c) {
        let i = choose|i: int|
            0 <= i < a.len() && i < b.len() && a.take(i) == b.take(i) && #[trigger] a[i] < b[i];
        let j = choose|j: int|
            0 <= j < b.len() && j < c.len() && b.take(j) == c.take(j) && #[trigger] b[j] < c[j];
        let k = if i < j {
            i
        } else {
            j
        };
        assert forall|x: int| 0 <= x < k implies a[x] == c[x] by {
            assert(a.take(i)[x] == b.take(i)[x]);
            assert(b.take(j)[x] == c.take(j)[x]);
        }
        if i < j {
            assert(b.take(j)[i] == c.take(j)[i]);
        }
        if j < i {
            assert(a.take(i)[j] == b.take(i)[j]);
        }
        assert(a.take(k) =~= c.take(k));
        assert(a[k] < c[k]);
    }
}

proof fn lemma_bytes_total(a: Seq<u8>, b: Seq<u8>)
    requires
        a.len() == b.len(),
    ensures
        bytes_before(a, b) || a == b || bytes_before(b, a),
{
    if a != b {
        let i = first_difference(a, b, 0);
        lemma_first_difference(a, b, 0);
        if i == a.len() {
            assert(a =~= b);
        } else {
            assert(a.take(i) =~= b.take(i));
            assert(a[i] < b[i] || b[i] < a[i]);
        }
    }
}

spec fn first_difference(a: Seq<u8>, b: Seq<u8>, from: int) -> int
    decreases a.len() - from,
{
    if 0 <= from < a.len() && a[from] == b[from] {
        first_difference(a, b, from + 1)
    } else {
        from
    }
}

proof fn lemma_first_difference(a: Seq<u8>, b: Seq<u8>, from: int)
    requires
        0 <= from <= a.len(),
        forall|x: int| 0 <= x < from ==> a[x] == b[x],
    ensures
        ({
            let i = first_difference(a, b, from);
            &&& from <= i <= a.len()
            &&& forall|x: int| 0 <= x < i ==> a[x] == b[x]
            &&& i < a.len() ==> a[i] != b[i]
        }),
    decreases a.len() - from,
{
    if from < a.len() && a[from] == b[from] {
        lemma_first_difference(a, b, from + 1);
    }
}

/// Finds how two byte strings of the same length stand.
fn order_bytes(a: &[u8], b: &[u8]) -> (r: Position)
    requires
        a@.len() == b@.len(),
    ensures
        r == Position::Before <==> bytes_before(a@, b@),
        r == Position::Same <==> a@ == b@,
        r == Position::After <==> bytes_before(b@, a@),
{
    let mut i: usize = 0;
    while i < a.len()
        invariant
            i <= a@.len() == b@.len(),
            a@.take(i as int) == b@.take(i as int),
        decreases a@.len() - i,
    {
        if a[i] != b[i] {
            proof {
                lemma_bytes_transitive(a@, b@, a@);
                assert(a@[i as int] < b@[i as int] || b@[i as int] < a@[i as int]);
            }
            return if a[i] < b[i] {
                Position::Before
            } else {
                Position::After
            };
        }
        i = i + 1;
        assert(a@.take(i as int) =~= b@.take(i as int));
    }
    proof {
        assert(a@.take(i as int) =~= a@);
        assert(b@.take(i as int) =~= b@);
        lemma_bytes_transitive(a@, a@, a@);
    }
    Position::Same
}

/// Finds how two hashes stand.
pub fn order_hashes(a: &ModuleHash, b: &ModuleHash) -> (r: Position)
    ensures
        r == Position::Before <==> hash_before(a@, b@),
        r == Position::Same <==> a@ == b@,
        r == Position::After <==> hash_before(b@, a@),
{
    match (a, b) {
        (ModuleHash::XXHash(x), ModuleHash::XXHash(y)) => order_bytes(x.as_slice(), y.as_slice()),
        (ModuleHash::XXHash(_), ModuleHash::Sha256(_)) => Position::Before,
        (ModuleHash::Sha256(_), ModuleHash::XXHash(_)) => Position::After,
        (ModuleHash::Sha256(x), ModuleHash::Sha256(y)) => order_bytes(x.as_slice(), y.as_slice()),
    }
}

/// A module that is known by its hash. Modules are held by handle.
#[derive(Debug, Clone, Copy)]
pub struct CachedModule {
    pub hash: ModuleHash,
    pub module: u64,
}

/// What a [`CachedModule`] says.
pub struct CachedView {
    pub hash: HashView,
    pub module: u64,
}

impl View for CachedModule {
    type V = CachedView;

    open spec fn view(&self) -> CachedView {
        CachedView { hash: self.hash@, module: self.module }
    }
}

/// The cached modules, in ascending order of their hashes.
#[derive(Debug)]
pub struct ModuleCache {
    pub entries: Vec<CachedModule>,
}

impl View for ModuleCache {
    type V = Seq<CachedView>;

    open spec fn view(&self) -> Seq<CachedView> {
        self.entries@.map_values(|e: CachedModule| e@)
    }
}

/// Whether cached modules stand in strictly ascending order of their hashes, so
/// that none is there twice.
pub open spec fn ascending(entries: Seq<CachedView>) -> bool {
    &&& forall|i: int| 0 <= i < entries.len() ==> (#[trigger] entries[i]).hash.well_formed()
    &&& forall|i: int, j: int|
        0 <= i < j < entries.len() ==> hash_before(
            (#[trigger] entries[i]).hash,
            (#[trigger] entries[j]).hash,
        )
}

/// How many of the first entries come before a hash.
pub open spec fn entries_before(entries: Seq<CachedView>, hash: HashView) -> nat
    decreases entries.len(),
{
    if entries.len() > 0 && hash_before(entries[0].hash, hash) {
        1 + entries_before(entries.skip(1), hash)
    } else {
        0
    }
}

/// The cache with a module added in its place, or put in place of the module
/// with the same hash.
pub open spec fn with_module(entries: Seq<CachedView>, hash: HashView, module: u64) -> Seq<
    CachedView,
> {
    let at = entries_before(entries, hash) as int;
    let rest = if at < entries.len() && entries[at].hash == hash {
        at + 1
    } else {
        at
    };
    entries.take(at).push(CachedView { hash, module }) + entries.skip(rest)
}

/// The module that is cached under a hash.
pub open spec fn cached(entries: Seq<CachedView>, hash: HashView) -> Option<u64>
    decreases entries.len(),
{
    if entries.len() == 0 {
        None
    } else if entries[0].hash == hash {
        Some(entries[0].module)
    } else {
        cached(entries.skip(1), hash)
    }
}

impl ModuleCache {
    /// An empty cache.
    pub fn new() -> (r: ModuleCache)
        ensures
            r@ == Seq::<CachedView>::empty(),
            ascending(r@),
    {
        let r = ModuleCache { entries: Vec::new() };
        assert(r@ =~= Seq::<CachedView>::empty());
        r
    }

    /// Caches a module under its hash.
    pub fn insert(&mut self, hash: ModuleHash, module: u64)
        ensures
            final(self)@ == with_module(old(self)@, hash@, module),
            ascending(old(self)@) ==> ascending(final(self)@),
    {
        let ghost before = self@;
        let mut at: usize = 0;
        assert(before.skip(0) =~= before);
        while at < self.entries.len() && matches!(
            order_hashes(&self.entries[at].hash, &hash),
            Position::Before
        )
            invariant
                at <= self.entries@.len(),
                self@ == before,
                before.len() == self.entries@.len(),
                entries_before(before, hash@) == at + entries_before(
                    before.skip(at as int),
                    hash@,
                ),
            decreases self.entries@.len() - at,
        {
            proof {
                let rest = before.skip(at as int);
                assert(rest[0] == before[at as int]);
                assert(rest.skip(1) =~= before.skip(at + 1));
            }
            at = at + 1;
        }
        proof {
            let rest = before.skip(at as int);
            if at < before.len() {
                assert(rest[0] == before[at as int]);
            }
            assert(entries_before(before, hash@) == at);
        }
        if at < self.entries.len() && matches!(
            order_hashes(&self.entries[at].hash, &hash),
            Position::Same
        ) {
            self.entries.set(at, CachedModule { hash, module });
        } else {
            self.entries.insert(at, CachedModule { hash, module });
        }
        assert(self@ =~= with_module(before, hash@, module));
        proof {
            if ascending(before) {
                law_cache_stays_ascending(before, hash@, module);
            }
        }
    }
}

proof fn lemma_entries_before(entries: Seq<CachedView>, hash: HashView)
    ensures
        ({
            let n = entries_before(entries, hash) as int;
            &&& n <= entries.len()
            &&& forall|i: int| 0 <= i < n ==> hash_before((#[trigger] entries[i]).hash, hash)
            &&& n < entries.len() ==> !hash_before(entries[n].hash, hash)
        }),
    decreases entries.len(),
{
    if entries.len() > 0 && hash_before(entries[0].hash, hash) {
        let rest = entries.skip(1);
        lemma_entries_before(rest, hash);
        let n = entries_before(entries, hash) as int;
        assert forall|i: int| 0 <= i < n implies hash_before((#[trigger] entries[i]).hash, hash) by {
            if i > 0 {
                assert(rest[i - 1] == entries[i]);
            }
        }
        if n < entries.len() {
            assert(rest[n - 1] == entries[n]);
        }
    }
}

/// Caching a module keeps the cache in ascending order, without duplicates.
pub proof fn law_cache_stays_ascending(entries: Seq<CachedView>, hash: HashView, module: u64)
    requires
        ascending(entries),
        hash.well_formed(),
    ensures
        ascending(with_module(entries, hash, module)),
{
    lemma_entries_before(entries, hash);
    let n = entries_before(entries, hash) as int;
    let after = with_module(entries, hash, module);
    let same = n < entries.len() && entries[n].hash == hash;
    assert forall|j: int| n <= j < entries.len() && entries[j].hash != hash implies hash_before(
        hash,
        (#[trigger] entries[j]).hash,
    ) by {
        law_hash_order_is_total(entries[n].hash, hash, entries[j].hash);
        law_hash_order_is_total(hash, entries[n].hash, entries[j].hash);
    }
    assert forall|j: int| same && n < j < entries.len() implies (#[trigger] entries[j]).hash
        != hash by {
        law_hash_order_is_total(hash, hash, hash);
        assert(hash_before(entries[n].hash, entries[j].hash));
    }
    assert forall|j: int| !same && n <= j < entries.len() implies (#[trigger] entries[j]).hash
        != hash by {
        if j > n && entries[j].hash == hash {
            assert(hash_before(entries[n].hash, entries[j].hash));
        }
    }
    let shift: int = if same {
        0
    } else {
        1
    };
    assert forall|j: int| n < j < after.len() implies #[trigger] after[j] == entries[j - shift] by {}
    assert forall|i: int| 0 <= i < n implies #[trigger] after[i] == entries[i] by {}
    assert(after[n].hash == hash);
    assert forall|i: int, j: int| 0 <= i < j < after.len() implies hash_before(
        (#[trigger] after[i]).hash,
        (#[trigger] after[j]).hash,
    ) by {
        if i < n && j == n {
            assert(hash_before(entries[i].hash, hash));
        } else if i == n {
            assert(entries[j - shift].hash != hash);
        }
    }
    assert forall|i: int| 0 <= i < after.len() implies (#[trigger] after[i]).hash.well_formed() by {
        if i > n {
            assert(entries[i - shift].hash.well_formed());
        } else if i < n {
            assert(entries[i].hash.well_formed());
        }
    }
}

proof fn lemma_cached_at(entries: Seq<CachedView>, hash: HashView, at: int)
    requires
        0 <= at < entries.len(),
        entries[at].hash == hash,
        forall|i: int| 0 <= i < at ==> (#[trigger] entries[i]).hash != hash,
    ensures
        cached(entries, hash) == Some(entries[at].module),
    decreases at,
{
    if at > 0 {
        let rest = entries.skip(1);
        assert(rest[at - 1] == entries[at]);
        assert forall|i: int| 0 <= i < at - 1 implies (#[trigger] rest[i]).hash != hash by {
            assert(rest[i] == entries[i + 1]);
        }
        assert(entries[0].hash != hash);
        lemma_cached_at(rest, hash, at - 1);
    }
}

proof fn lemma_not_cached(entries: Seq<CachedView>, hash: HashView)
    requires
        forall|i: int| 0 <= i < entries.len() ==> (#[trigger] entries[i]).hash != hash,
    ensures
        cached(entries, hash) is None,
    decreases entries.len(),
{
    if entries.len() > 0 {
        let rest = entries.skip(1);
        assert forall|i: int| 0 <= i < rest.len() implies (#[trigger] rest[i]).hash != hash by {
            assert(rest[i] == entries[i + 1]);
        }
        assert(entries[0].hash != hash);
        lemma_not_cached(rest, hash);
    }
}

/// Where a hash stands, or that it stands nowhere.
proof fn lemma_cached_cases(entries: Seq<CachedView>, hash: HashView) -> (at: int)
    ensures
        0 <= at <= entries.len(),
        forall|i: int| 0 <= i < at ==> (#[trigger] entries[i]).hash != hash,
        at < entries.len() ==> entries[at].hash == hash && cached(entries, hash) == Some(
            entries[at].module,
        ),
        at == entries.len() ==> cached(entries, hash) is None,
    decreases entries.len(),
{
    if entries.len() == 0 {
        0
    } else if entries[0].hash == hash {
        0
    } else {
        let rest = entries.skip(1);
        let at = lemma_cached_cases(rest, hash);
        assert forall|i: int| 0 <= i < at + 1 implies (#[trigger] entries[i]).hash != hash by {
            if i > 0 {
                assert(rest[i - 1] == entries[i]);
            }
        }
        if at < rest.len() {
            assert(rest[at] == entries[at + 1]);
        }
        at + 1
    }
}

/// After a module is cached it is found under its hash, and every other hash
/// finds what it found before.
pub proof fn law_cache_finds_the_latest_module(
    entries: Seq<CachedView>,
    hash: HashView,
    module: u64,
    other: HashView,
)
    requires
        ascending(entries),
        hash.well_formed(),
    ensures
        cached(with_module(entries, hash, module), other) == (if other == hash {
            Some(module)
        } else {
            cached(entries, other)
        }),
{
    lemma_entries_before(entries, hash);
    let n = entries_before(entries, hash) as int;
    let after = with_module(entries, hash, module);
    let same = n < entries.len() && entries[n].hash == hash;
    let shift: int = if same {
        0
    } else {
        1
    };
    assert forall|j: int| n < j < after.len() implies #[trigger] after[j] == entries[j - shift] by {}
    assert forall|i: int| 0 <= i < n implies #[trigger] after[i] == entries[i] by {}
    assert forall|i: int| 0 <= i < n implies (#[trigger] after[i]).hash != hash by {
        assert(hash_before(entries[i].hash, hash));
        law_hash_order_is_total(hash, hash, hash);
    }
    if other == hash {
        lemma_cached_at(after, hash, n);
    } else {
        let at = lemma_cached_cases(entries, other);
        let moved = if at < n {
            at
        } else {
            at + shift
        };
        assert forall|i: int| 0 <= i < moved implies (#[trigger] after[i]).hash != other by {
            if i < n {
                assert(entries[i].hash != other);
            } else if i > n {
                assert(entries[i - shift].hash != other);
            }
        }
        if at < entries.len() {
            assert(at != n || !same);
            assert(after[moved] == entries[at]);
            lemma_cached_at(after, other, moved);
        } else {
            lemma_not_cached(after, other);
        }
    }
}

} // verus!
