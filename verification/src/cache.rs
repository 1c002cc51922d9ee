//! Verdicts remembered by content digest, for a limited time.

use crate::text::same_text;
use crate::virus_total::{ScanResult, ScanResultView};
use vstd::prelude::*;

verus! {

/// How long a remembered verdict is served: 24 hours, in milliseconds.
pub const CACHE_EXPIRATION_MS: u64 = 86_400_000;

/// A verdict and the instant at which it was stored.
#[derive(Debug)]
pub struct CacheEntry {
    digest: String,
    result: ScanResult,
    inserted_at: u64,
}

/// What the contracts say of a `CacheEntry`.
pub struct CachedView {
    pub result: ScanResultView,
    pub inserted_at: u64,
}

/// The verdicts stored by digest. No digest is held twice.
#[derive(Debug)]
pub struct ResultCache {
    entries: Vec<CacheEntry>,
    expiration: u64,
}

/// What the contracts say of a `ResultCache`.
pub struct ResultCacheView {
    pub entries: Map<Seq<char>, CachedView>,
    pub expiration: u64,
}

spec fn holds(entries: Seq<CacheEntry>, digest: Seq<char>) -> bool {
    exists|i: int| 0 <= i < entries.len() && (#[trigger] entries[i]).digest@ == digest
}

spec fn position(entries: Seq<CacheEntry>, digest: Seq<char>) -> int {
    choose|i: int| 0 <= i < entries.len() && (#[trigger] entries[i]).digest@ == digest
}

spec fn cached(entry: CacheEntry) -> CachedView {
    CachedView { result: entry.result@, inserted_at: entry.inserted_at }
}

spec fn distinct(entries: Seq<CacheEntry>) -> bool {
    forall|i: int, j: int|
        0 <= i < entries.len() && 0 <= j < entries.len() && i != j ==> (#[trigger] entries[i]).digest@
            != (#[trigger] entries[j]).digest@
}

spec fn as_map(entries: Seq<CacheEntry>) -> Map<Seq<char>, CachedView> {
    Map::new(
        |digest: Seq<char>| holds(entries, digest),
        |digest: Seq<char>| cached(entries[position(entries, digest)]),
    )
}

impl View for ResultCache {
    type V = ResultCacheView;

    closed spec fn view(&self) -> ResultCacheView {
        ResultCacheView { entries: as_map(self.entries@), expiration: self.expiration }
    }
}

/// How long ago `inserted_at` lies at `now`; nothing where the clock reads
/// less than it did then.
pub open spec fn age(inserted_at: u64, now: u64) -> int {
    if now >= inserted_at {
        now - inserted_at
    } else {
        0
    }
}

/// What a lookup of `digest` at `now` returns: the stored verdict if there
/// is one younger than the expiration window.
pub open spec fn served(cache: ResultCacheView, digest: Seq<char>, now: u64) -> Option<
    ScanResultView,
> {
    if cache.entries.contains_key(digest) && age(cache.entries[digest].inserted_at, now)
        < cache.expiration {
        Some(cache.entries[digest].result)
    } else {
        None
    }
}

/// The cache after a lookup of `digest` at `now`: an entry that has reached
/// the expiration window is dropped.
pub open spec fn after_lookup(cache: ResultCacheView, digest: Seq<char>, now: u64) -> ResultCacheView {
    if cache.entries.contains_key(digest) && age(cache.entries[digest].inserted_at, now)
        >= cache.expiration {
        ResultCacheView { entries: cache.entries.remove(digest), expiration: cache.expiration }
    } else {
        cache
    }
}

/// The cache after `result` is stored under `digest` at `now`.
pub open spec fn after_store(
    cache: ResultCacheView,
    digest: Seq<char>,
    result: ScanResultView,
    now: u64,
) -> ResultCacheView {
    ResultCacheView {
        entries: cache.entries.insert(digest, CachedView { result, inserted_at: now }),
        expiration: cache.expiration,
    }
}

/// A verdict that was stored is served for its digest until it reaches the
/// expiration window.
pub proof fn lemma_stored_verdict_served(
    cache: ResultCacheView,
    digest: Seq<char>,
    result: ScanResultView,
    stored_at: u64,
    now: u64,
)
    requires
        age(stored_at, now) < cache.expiration,
    ensures
        served(after_store(cache, digest, result, stored_at), digest, now) == Some(result),
        after_lookup(after_store(cache, digest, result, stored_at), digest, now) == after_store(
            cache,
            digest,
            result,
            stored_at,
        ),
{
}

proof fn lemma_position(entries: Seq<CacheEntry>, i: int)
    requires
        distinct(entries),
        0 <= i < entries.len(),
    ensures
        holds(entries, entries[i].digest@),
        position(entries, entries[i].digest@) == i,
{
}

proof fn lemma_absent(entries: Seq<CacheEntry>, digest: Seq<char>)
    requires
        forall|j: int| 0 <= j < entries.len() ==> (#[trigger] entries[j]).digest@ != digest,
    ensures
        !holds(entries, digest),
{
}

proof fn lemma_replaced(entries: Seq<CacheEntry>, i: int, entry: CacheEntry)
    requires
        distinct(entries),
        0 <= i < entries.len(),
        entry.digest@ == entries[i].digest@,
    ensures
        distinct(entries.update(i, entry)),
        as_map(entries.update(i, entry)) == as_map(entries).insert(entry.digest@, cached(entry)),
{
    let after = entries.update(i, entry);
    assert(distinct(after)) by {
        assert forall|a: int, b: int|
            0 <= a < after.len() && 0 <= b < after.len() && a != b implies (#[trigger] after[a]).digest@
            != (#[trigger] after[b]).digest@ by {
            assert(after[a].digest@ == entries[a].digest@);
            assert(after[b].digest@ == entries[b].digest@);
        }
    }
    let expected = as_map(entries).insert(entry.digest@, cached(entry));
    assert forall|digest: Seq<char>| as_map(after).contains_key(digest) == expected.contains_key(
        digest,
    ) by {
        if holds(after, digest) {
            let a = position(after, digest);
            assert(entries[a].digest@ == digest);
        }
        if holds(entries, digest) {
            let a = position(entries, digest);
            assert(after[a].digest@ == digest);
        }
        lemma_position(after, i);
    }
    assert forall|digest: Seq<char>| as_map(after).contains_key(digest) implies as_map(after)[digest]
        == expected[digest] by {
        let a = position(after, digest);
        lemma_position(after, a);
        if digest == entry.digest@ {
            lemma_position(after, i);
        } else {
            assert(entries[a].digest@ == digest);
            lemma_position(entries, a);
        }
    }
    assert(as_map(after) =~= expected);
}

proof fn lemma_pushed(entries: Seq<CacheEntry>, entry: CacheEntry)
    requires
        distinct(entries),
        !holds(entries, entry.digest@),
    ensures
        distinct(entries.push(entry)),
        as_map(entries.push(entry)) == as_map(entries).insert(entry.digest@, cached(entry)),
{
    let after = entries.push(entry);
    let last = entries.len() as int;
    assert(distinct(after)) by {
        assert forall|a: int, b: int|
            0 <= a < after.len() && 0 <= b < after.len() && a != b implies (#[trigger] after[a]).digest@
            != (#[trigger] after[b]).digest@ by {
            if a < last {
                assert(after[a] == entries[a]);
            }
            if b < last {
                assert(after[b] == entries[b]);
            }
        }
    }
    let expected = as_map(entries).insert(entry.digest@, cached(entry));
    assert(after[last] == entry);
    assert forall|digest: Seq<char>| as_map(after).contains_key(digest) == expected.contains_key(
        digest,
    ) by {
        if holds(after, digest) {
            let a = position(after, digest);
            if a < last {
                assert(entries[a].digest@ == digest);
            }
        }
        if holds(entries, digest) {
            let a = position(entries, digest);
            assert(after[a].digest@ == digest);
        }
    }
    assert forall|digest: Seq<char>| as_map(after).contains_key(digest) implies as_map(after)[digest]
        == expected[digest] by {
        let a = position(after, digest);
        lemma_position(after, a);
        if digest == entry.digest@ {
            lemma_position(after, last);
        } else {
            assert(after[a] == entries[a]);
            lemma_position(entries, a);
        }
    }
    assert(as_map(after) =~= expected);
}

proof fn lemma_removed(entries: Seq<CacheEntry>, i: int)
    requires
        distinct(entries),
        0 <= i < entries.len(),
    ensures
        distinct(entries.remove(i)),
        as_map(entries.remove(i)) == as_map(entries).remove(entries[i].digest@),
{
    let after = entries.remove(i);
    let gone = entries[i].digest@;
    assert forall|a: int| 0 <= a < after.len() implies #[trigger] after[a] == entries[if a < i {
        a
    } else {
        a + 1
    }] by {}
    assert(distinct(after)) by {
        assert forall|a: int, b: int|
            0 <= a < after.len() && 0 <= b < after.len() && a != b implies (#[trigger] after[a]).digest@
            != (#[trigger] after[b]).digest@ by {
            let a0 = if a < i { a } else { a + 1 };
            let b0 = if b < i { b } else { b + 1 };
            assert(after[a] == entries[a0]);
            assert(after[b] == entries[b0]);
        }
    }
    let expected = as_map(entries).remove(gone);
    assert forall|digest: Seq<char>| as_map(after).contains_key(digest) == expected.contains_key(
        digest,
    ) by {
        if holds(after, digest) {
            let a = position(after, digest);
            let a0 = if a < i { a } else { a + 1 };
            assert(after[a] == entries[a0]);
            assert(entries[a0].digest@ == digest);
        }
        if holds(entries, digest) && digest != gone {
            let a0 = position(entries, digest);
            let a = if a0 < i { a0 } else { a0 - 1 };
            assert(after[a] == entries[a0]);
            assert(after[a].digest@ == digest);
        }
    }
    assert forall|digest: Seq<char>| as_map(after).contains_key(digest) implies as_map(after)[digest]
        == expected[digest] by {
        let a = position(after, digest);
        let a0 = if a < i { a } else { a + 1 };
        assert(after[a] == entries[a0]);
        lemma_position(entries, a0);
    }
    assert(as_map(after) =~= expected);
}

impl ResultCache {
    #[verifier::type_invariant]
    spec fn digests_distinct(self) -> bool {
        distinct(self.entries@)
    }

    /// An empty cache that serves a verdict for 24 hours.
    pub fn new() -> (cache: ResultCache)
        ensures
            cache@.entries == Map::<Seq<char>, CachedView>::empty(),
            cache@.expiration == CACHE_EXPIRATION_MS,
    {
        ResultCache::with_expiration(CACHE_EXPIRATION_MS)
    }

    /// An empty cache that serves a verdict for `expiration_ms`
    /// milliseconds.
    pub fn with_expiration(expiration_ms: u64) -> (cache: ResultCache)
        ensures
            cache@.entries == Map::<Seq<char>, CachedView>::empty(),
            cache@.expiration == expiration_ms,
    {
        let cache = ResultCache { entries: Vec::new(), expiration: expiration_ms };
        assert(as_map(cache.entries@) =~= Map::<Seq<char>, CachedView>::empty());
        cache
    }

    /// Where `digest` is held.
    fn find(&self, digest: &str) -> (found: Option<usize>)
        ensures
            match found {
                Some(i) => i < self.entries@.len() && self.entries@[i as int].digest@ == digest@,
                None => !holds(self.entries@, digest@),
            },
    {
        let mut i: usize = 0;
        while i < self.entries.len()
            invariant
                i <= self.entries.len(),
                forall|j: int| 0 <= j < i ==> (#[trigger] self.entries@[j]).digest@ != digest@,
            decreases self.entries.len() - i,
        {
            if same_text(self.entries[i].digest.as_str(), digest) {
                return Some(i);
            }
            i = i + 1;
        }
        proof {
            lemma_absent(self.entries@, digest@);
        }
        None
    }

    /// The number of verdicts held, served or not.
    pub fn len(&self) -> (count: usize)
        ensures
            count == self@.entries.dom().len(),
    {
        proof {
            use_type_invariant(self);
            lemma_map_size(self.entries@);
        }
        self.entries.len()
    }

    /// The verdict stored under `digest`, if it is younger at `now` than the
    /// expiration window. One that is not is dropped.
    pub fn lookup(&mut self, digest: &str, now: u64) -> (hit: Option<ScanResult>)
        ensures
            crate::virus_total::optional_result_view(hit) == served(old(self)@, digest@, now),
            final(self)@ == after_lookup(old(self)@, digest@, now),
    {
        proof {
            use_type_invariant(&*self);
        }
        match self.find(digest) {
            None => {
                assert(!self@.entries.contains_key(digest@));
                None
            },
            Some(i) => {
                proof {
                    lemma_position(self.entries@, i as int);
                    assert(self@.entries.contains_key(digest@));
                    assert(self@.entries[digest@] == cached(self.entries@[i as int]));
                }
                let at = self.entries[i].inserted_at;
                let age: u64 = if now >= at { now - at } else { 0 };
                if age < self.expiration {
                    let hit = self.entries[i].result.duplicate();
                    Some(hit)
                } else {
                    proof {
                        lemma_removed(self.entries@, i as int);
                    }
                    let mut entries: Vec<CacheEntry> = Vec::new();
                    core::mem::swap(&mut self.entries, &mut entries);
                    let _ = entries.remove(i);
                    core::mem::swap(&mut self.entries, &mut entries);
                    None
                }
            },
        }
    }

    /// Stores `result` under `digest` with `now` as its instant, in place of
    /// what was stored under that digest.
    pub fn store(&mut self, digest: String, result: ScanResult, now: u64)
        ensures
            final(self)@ == after_store(old(self)@, digest@, result@, now),
    {
        proof {
            use_type_invariant(&*self);
        }
        let found = self.find(digest.as_str());
        let entry = CacheEntry { digest, result, inserted_at: now };
        let mut entries: Vec<CacheEntry> = Vec::new();
        core::mem::swap(&mut self.entries, &mut entries);
        match found {
            Some(i) => {
                proof {
                    lemma_replaced(entries@, i as int, entry);
                }
                entries[i] = entry;
            },
            None => {
                proof {
                    lemma_pushed(entries@, entry);
                }
                entries.push(entry);
            },
        }
        core::mem::swap(&mut self.entries, &mut entries);
    }
}

proof fn lemma_map_size(entries: Seq<CacheEntry>)
    requires
        distinct(entries),
    ensures
        as_map(entries).dom().finite(),
        as_map(entries).dom().len() == entries.len(),
    decreases entries.len(),
{
    if entries.len() == 0 {
        assert(as_map(entries).dom() =~= Set::<Seq<char>>::empty());
    } else {
        let i = entries.len() - 1;
        lemma_removed(entries, i);
        lemma_map_size(entries.remove(i));
        lemma_position(entries, i);
        assert(as_map(entries).dom().remove(entries[i].digest@) =~= as_map(entries.remove(i)).dom());
        assert(as_map(entries).dom() =~= as_map(entries.remove(i)).dom().insert(entries[i].digest@));
    }
}

} // verus!
