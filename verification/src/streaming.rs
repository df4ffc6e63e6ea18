//! Streaming bookkeeping shared by the terrain meshes and the collision
//! proxy: the queue of chunks waiting to be built, and the cache of built
//! chunks that evicts the least recently used inactive entries first.

use std::collections::VecDeque;
use vstd::prelude::*;

use crate::world::{
    chunk_targets_for_center, in_square, max_int, square_fits, target_for, targets_in_serving_order,
    TerrainChunkKey, TerrainChunkTarget, TerrainLodConfig, TerrainLodLevel, WorldChunkCoord, WorldMap,
};

verus! {

/// A chunk key that code can compare.
pub trait ChunkKey: Copy {
    fn same_as(&self, other: &Self) -> (r: bool)
        ensures
            r == (*self == *other),
    ;
}

impl ChunkKey for TerrainChunkKey {
    fn same_as(&self, other: &Self) -> (r: bool) {
        *self == *other
    }
}

impl ChunkKey for WorldChunkCoord {
    fn same_as(&self, other: &Self) -> (r: bool) {
        *self == *other
    }
}

/// Something waiting to be streamed in, known by its chunk key.
pub trait StreamTarget: Copy {
    type Key: ChunkKey;

    spec fn target_key(self) -> Self::Key;

    fn key(&self) -> (k: Self::Key)
        ensures
            k == self.target_key(),
    ;
}

impl StreamTarget for TerrainChunkTarget {
    type Key = TerrainChunkKey;

    open spec fn target_key(self) -> TerrainChunkKey {
        self.key
    }

    fn key(&self) -> (k: TerrainChunkKey) {
        self.key
    }
}

impl StreamTarget for WorldChunkCoord {
    type Key = WorldChunkCoord;

    open spec fn target_key(self) -> WorldChunkCoord {
        self
    }

    fn key(&self) -> (k: WorldChunkCoord) {
        *self
    }
}

/// Some target in the list has the key.
pub open spec fn holds_key<T: StreamTarget>(targets: Seq<T>, key: T::Key) -> bool {
    exists|i: int| 0 <= i < targets.len() && (#[trigger] targets[i]).target_key() == key
}

/// No key is listed twice.
pub open spec fn keys_distinct<T: StreamTarget>(targets: Seq<T>) -> bool {
    forall|i: int, j: int|
        0 <= i < j < targets.len() ==> (#[trigger] targets[i]).target_key() != (#[trigger] targets[j]).target_key()
}

/// The queue after offering `targets` in order: a target joins at the back
/// unless its chunk already exists or its key is already queued.
pub open spec fn enqueue_spec<T: StreamTarget>(pending: Seq<T>, targets: Seq<T>, existing: Seq<T::Key>) -> Seq<T>
    decreases targets.len(),
{
    if targets.len() == 0 {
        pending
    } else {
        let before = enqueue_spec(pending, targets.drop_last(), existing);
        let target = targets.last();
        if existing.contains(target.target_key()) || holds_key(before, target.target_key()) {
            before
        } else {
            before.push(target)
        }
    }
}

/// The queue keeping, in order, only the targets whose keys are listed.
pub open spec fn retain_spec<T: StreamTarget>(pending: Seq<T>, keep: Seq<T::Key>) -> Seq<T>
    decreases pending.len(),
{
    if pending.len() == 0 {
        pending
    } else {
        let before = retain_spec(pending.drop_last(), keep);
        if keep.contains(pending.last().target_key()) {
            before.push(pending.last())
        } else {
            before
        }
    }
}

/// After offering targets, each offered key either names an existing chunk
/// or is queued.
proof fn lemma_enqueue_covers<T: StreamTarget>(pending: Seq<T>, targets: Seq<T>, existing: Seq<T::Key>)
    ensures
        forall|i: int|
            0 <= i < targets.len() ==> existing.contains((#[trigger] targets[i]).target_key()) || holds_key(
                enqueue_spec(pending, targets, existing),
                targets[i].target_key(),
            ),
    decreases targets.len(),
{
    if targets.len() > 0 {
        let prefix = targets.drop_last();
        lemma_enqueue_covers(pending, prefix, existing);
        let before = enqueue_spec(pending, prefix, existing);
        let after = enqueue_spec(pending, targets, existing);
        assert forall|i: int|
            0 <= i < targets.len() implies existing.contains((#[trigger] targets[i]).target_key()) || holds_key(
                after,
                targets[i].target_key(),
            ) by {
            if i < prefix.len() {
                assert(targets[i] == prefix[i]);
                if !existing.contains(targets[i].target_key()) {
                    assert(holds_key(before, prefix[i].target_key()));
                    let k = choose|k: int| 0 <= k < before.len() && (#[trigger] before[k]).target_key()
                        == prefix[i].target_key();
                    if after != before {
                        assert(after[k] == before[k]);
                    }
                }
            } else {
                if !existing.contains(targets.last().target_key()) && !holds_key(before, targets.last().target_key()) {
                    assert(after[before.len() as int] == targets.last());
                }
            }
        }
    }
}

/// Offering targets whose keys all exist or are already queued changes
/// nothing.
proof fn lemma_enqueue_of_covered_is_noop<T: StreamTarget>(pending: Seq<T>, targets: Seq<T>, existing: Seq<T::Key>)
    requires
        forall|i: int|
            0 <= i < targets.len() ==> existing.contains((#[trigger] targets[i]).target_key()) || holds_key(
                pending,
                targets[i].target_key(),
            ),
    ensures
        enqueue_spec(pending, targets, existing) == pending,
    decreases targets.len(),
{
    if targets.len() > 0 {
        let prefix = targets.drop_last();
        assert forall|i: int|
            0 <= i < prefix.len() implies existing.contains((#[trigger] prefix[i]).target_key()) || holds_key(
                pending,
                prefix[i].target_key(),
            ) by {
            assert(prefix[i] == targets[i]);
        }
        lemma_enqueue_of_covered_is_noop(pending, prefix, existing);
        assert(targets.last() == targets[targets.len() - 1]);
    }
}

/// Offering the same targets twice queues nothing the second time.
pub proof fn lemma_enqueue_is_idempotent<T: StreamTarget>(pending: Seq<T>, targets: Seq<T>, existing: Seq<T::Key>)
    ensures
        enqueue_spec(enqueue_spec(pending, targets, existing), targets, existing) == enqueue_spec(
            pending,
            targets,
            existing,
        ),
{
    lemma_enqueue_covers(pending, targets, existing);
    lemma_enqueue_of_covered_is_noop(enqueue_spec(pending, targets, existing), targets, existing);
}

/// Keeping only listed keys leaves a queue whose every target was queued
/// before and has a listed key.
pub proof fn lemma_retain_keeps_only_listed<T: StreamTarget>(pending: Seq<T>, keep: Seq<T::Key>)
    ensures
        forall|i: int|
            0 <= i < retain_spec(pending, keep).len() ==> keep.contains(
                (#[trigger] retain_spec(pending, keep)[i]).target_key(),
            ) && pending.contains(retain_spec(pending, keep)[i]),
    decreases pending.len(),
{
    if pending.len() > 0 {
        let prefix = pending.drop_last();
        lemma_retain_keeps_only_listed(prefix, keep);
        let before = retain_spec(prefix, keep);
        let after = retain_spec(pending, keep);
        assert forall|i: int| 0 <= i < after.len() implies keep.contains((#[trigger] after[i]).target_key())
            && pending.contains(after[i]) by {
            if i < before.len() {
                assert(after[i] == before[i]);
                let k = choose|k: int| 0 <= k < prefix.len() && prefix[k] == before[i];
                assert(pending[k] == prefix[k]);
            } else {
                assert(after[i] == pending.last());
                assert(pending[pending.len() - 1] == pending.last());
            }
        }
    }
}

/// Offering targets keeps what was queued and adds only offered targets.
proof fn lemma_enqueue_adds_only_offered<T: StreamTarget>(pending: Seq<T>, targets: Seq<T>, existing: Seq<T::Key>)
    ensures
        forall|i: int|
            0 <= i < enqueue_spec(pending, targets, existing).len() ==> pending.contains(
                #[trigger] enqueue_spec(pending, targets, existing)[i],
            ) || targets.contains(enqueue_spec(pending, targets, existing)[i]),
    decreases targets.len(),
{
    if targets.len() > 0 {
        let prefix = targets.drop_last();
        lemma_enqueue_adds_only_offered(pending, prefix, existing);
        let before = enqueue_spec(pending, prefix, existing);
        let after = enqueue_spec(pending, targets, existing);
        assert forall|i: int| 0 <= i < after.len() implies pending.contains(#[trigger] after[i]) || targets.contains(
            after[i],
        ) by {
            if i < before.len() {
                assert(after[i] == before[i]);
                if !pending.contains(before[i]) {
                    let k = choose|k: int| 0 <= k < prefix.len() && prefix[k] == before[i];
                    assert(targets[k] == prefix[k]);
                }
            } else {
                assert(after[i] == targets.last());
                assert(targets[targets.len() - 1] == targets.last());
            }
        }
    }
}

/// Offering targets never queues a key that names an existing chunk.
proof fn lemma_enqueue_skips_existing<T: StreamTarget>(pending: Seq<T>, targets: Seq<T>, existing: Seq<T::Key>, key: T::Key)
    requires
        existing.contains(key),
        !holds_key(pending, key),
    ensures
        !holds_key(enqueue_spec(pending, targets, existing), key),
    decreases targets.len(),
{
    if targets.len() > 0 {
        let prefix = targets.drop_last();
        lemma_enqueue_skips_existing(pending, prefix, existing, key);
        let before = enqueue_spec(pending, prefix, existing);
        let after = enqueue_spec(pending, targets, existing);
        if holds_key(after, key) {
            let k = choose|k: int| 0 <= k < after.len() && (#[trigger] after[k]).target_key() == key;
            if k < before.len() {
                assert(after[k] == before[k]);
            }
        }
    }
}

/// The keys of the targets, in order.
pub open spec fn keys_of<T: StreamTarget>(targets: Seq<T>) -> Seq<T::Key> {
    targets.map_values(|t: T| t.target_key())
}

/// After the queue is re-aimed at a new set of needed targets (dropping
/// what is no longer needed, then offering the needed ones), it waits only
/// for needed targets.
pub proof fn lemma_requeue_waits_only_for_needed<T: StreamTarget>(
    pending: Seq<T>,
    needed: Seq<T>,
    existing: Seq<T::Key>,
)
    ensures
        forall|i: int|
            0 <= i < enqueue_spec(retain_spec(pending, keys_of(needed)), needed, existing).len() ==> holds_key(
                needed,
                (#[trigger] enqueue_spec(retain_spec(pending, keys_of(needed)), needed, existing)[i]).target_key(),
            ),
{
    let kept = retain_spec(pending, keys_of(needed));
    let after = enqueue_spec(kept, needed, existing);
    lemma_retain_keeps_only_listed(pending, keys_of(needed));
    lemma_enqueue_adds_only_offered(kept, needed, existing);
    assert forall|i: int| 0 <= i < after.len() implies holds_key(needed, (#[trigger] after[i]).target_key()) by {
        if kept.contains(after[i]) {
            let k = choose|k: int| 0 <= k < kept.len() && kept[k] == after[i];
            assert(keys_of(needed).contains(kept[k].target_key()));
            let j = choose|j: int| 0 <= j < keys_of(needed).len() && keys_of(needed)[j] == kept[k].target_key();
            assert(needed[j].target_key() == after[i].target_key());
        } else {
            let j = choose|j: int| 0 <= j < needed.len() && needed[j] == after[i];
            assert(needed[j].target_key() == after[i].target_key());
        }
    }
}

/// Whether a key is listed.
pub fn keys_contain<K: ChunkKey>(keys: &[K], key: K) -> (r: bool)
    ensures
        r == keys@.contains(key),
{
    let mut i: usize = 0;
    while i < keys.len()
        invariant
            i <= keys@.len(),
            forall|k: int| 0 <= k < i ==> keys@[k] != key,
        decreases keys@.len() - i,
    {
        if keys[i].same_as(&key) {
            assert(keys@[i as int] == key);
            return true;
        }
        i = i + 1;
    }
    false
}

/// A first-in, first-out queue of targets waiting to be built, never
/// holding a key twice.
pub struct StreamingQueue<T: StreamTarget> {
    pending: VecDeque<T>,
}

/// The queue of terrain chunk meshes waiting to be built.
pub type TerrainStreamingQueue = StreamingQueue<TerrainChunkTarget>;

impl<T: StreamTarget> View for StreamingQueue<T> {
    type V = Seq<T>;

    closed spec fn view(&self) -> Seq<T> {
        self.pending@
    }
}

/// Whether a queued target has the key.
fn deque_holds_key<T: StreamTarget>(pending: &VecDeque<T>, key: T::Key) -> (r: bool)
    ensures
        r == holds_key(pending@, key),
{
    let mut i: usize = 0;
    while i < pending.len()
        invariant
            i <= pending@.len(),
            forall|k: int| 0 <= k < i ==> (#[trigger] pending@[k]).target_key() != key,
        decreases pending@.len() - i,
    {
        let target = pending[i];
        let target_key = target.key();
        if target_key.same_as(&key) {
            assert(pending@[i as int].target_key() == key);
            return true;
        }
        i = i + 1;
    }
    false
}

impl<T: StreamTarget> StreamingQueue<T> {
    /// An empty queue.
    pub fn new() -> (r: Self)
        ensures
            r@ == Seq::<T>::empty(),
    {
        StreamingQueue { pending: VecDeque::new() }
    }

    /// A queue of the given targets in order, each key once (the first
    /// target with a key wins).
    pub fn from_targets(targets: &[T]) -> (r: Self)
        ensures
            r@ == enqueue_spec(Seq::<T>::empty(), targets@, Seq::<T::Key>::empty()),
            keys_distinct(r@),
    {
        let mut queue = Self::new();
        let existing: Vec<T::Key> = Vec::new();
        queue.enqueue_missing(targets, existing.as_slice());
        queue
    }

    /// Offers targets in order: each joins at the back unless its chunk
    /// already exists or its key is already queued.
    pub fn enqueue_missing(&mut self, targets: &[T], existing: &[T::Key])
        ensures
            final(self)@ == enqueue_spec(old(self)@, targets@, existing@),
            keys_distinct(old(self)@) ==> keys_distinct(final(self)@),
    {
        let ghost start = self.pending@;
        let mut i: usize = 0;
        assert(targets@.take(0) == Seq::<T>::empty());
        while i < targets.len()
            invariant
                i <= targets@.len(),
                self.pending@ == enqueue_spec(start, targets@.take(i as int), existing@),
                keys_distinct(start) ==> keys_distinct(self.pending@),
            decreases targets@.len() - i,
        {
            let target = targets[i];
            let key = target.key();
            assert(targets@.take(i + 1).drop_last() == targets@.take(i as int));
            assert(targets@.take(i + 1).last() == target);
            let ghost before = self.pending@;
            if !keys_contain(existing, key) && !deque_holds_key(&self.pending, key) {
                self.pending.push_back(target);
                proof {
                    if keys_distinct(start) {
                        assert forall|a: int, b: int|
                            0 <= a < b < self.pending@.len() implies (#[trigger] self.pending@[a]).target_key()
                            != (#[trigger] self.pending@[b]).target_key() by {
                            if b == before.len() {
                                assert(self.pending@[a] == before[a]);
                            } else {
                                assert(self.pending@[a] == before[a]);
                                assert(self.pending@[b] == before[b]);
                            }
                        }
                    }
                }
            }
            i = i + 1;
        }
        assert(targets@.take(targets@.len() as int) == targets@);
    }

    /// Keeps, in order, only the targets whose keys are listed.
    pub fn retain_targets(&mut self, visible: &[T::Key])
        ensures
            final(self)@ == retain_spec(old(self)@, visible@),
            keys_distinct(old(self)@) ==> keys_distinct(final(self)@),
    {
        let ghost start = self.pending@;
        let mut kept: VecDeque<T> = VecDeque::new();
        let mut i: usize = 0;
        assert(start.take(0) == Seq::<T>::empty());
        while i < self.pending.len()
            invariant
                self.pending@ == start,
                i <= start.len(),
                kept@ == retain_spec(start.take(i as int), visible@),
                forall|k: T::Key| #[trigger] holds_key(kept@, k) ==> holds_key(start.take(i as int), k),
                keys_distinct(start) ==> keys_distinct(kept@),
            decreases start.len() - i,
        {
            let target = self.pending[i];
            let key = target.key();
            let ghost prefix = start.take(i as int);
            assert(start.take(i + 1).drop_last() == prefix);
            assert(start.take(i + 1).last() == target);
            let ghost before = kept@;
            if keys_contain(visible, key) {
                kept.push_back(target);
                proof {
                    assert forall|k: T::Key| #[trigger] holds_key(kept@, k) implies holds_key(
                        start.take(i + 1),
                        k,
                    ) by {
                        let a = choose|a: int| 0 <= a < kept@.len() && (#[trigger] kept@[a]).target_key() == k;
                        if a < before.len() {
                            assert(kept@[a] == before[a]);
                            assert(holds_key(before, k));
                            let b = choose|b: int| 0 <= b < prefix.len() && (#[trigger] prefix[b]).target_key() == k;
                            assert(start.take(i + 1)[b] == prefix[b]);
                        } else {
                            assert(start.take(i + 1)[i as int] == target);
                        }
                    }
                    if keys_distinct(start) {
                        assert(!holds_key(prefix, key)) by {
                            if holds_key(prefix, key) {
                                let b = choose|b: int| 0 <= b < prefix.len() && (#[trigger] prefix[b]).target_key() == key;
                                assert(start[b].target_key() != start[i as int].target_key());
                            }
                        }
                        assert forall|a: int, b: int|
                            0 <= a < b < kept@.len() implies (#[trigger] kept@[a]).target_key()
                            != (#[trigger] kept@[b]).target_key() by {
                            assert(kept@[a] == before[a]);
                            if b < before.len() {
                                assert(kept@[b] == before[b]);
                            } else {
                                assert(holds_key(before, before[a].target_key()));
                            }
                        }
                    }
                }
            } else {
                proof {
                    assert forall|k: T::Key| #[trigger] holds_key(kept@, k) implies holds_key(
                        start.take(i + 1),
                        k,
                    ) by {
                        let b = choose|b: int| 0 <= b < prefix.len() && (#[trigger] prefix[b]).target_key() == k;
                        assert(start.take(i + 1)[b] == prefix[b]);
                    }
                }
            }
            i = i + 1;
        }
        assert(start.take(start.len() as int) == start);
        self.pending = kept;
    }

    /// Takes the oldest queued target, if any.
    pub fn pop_next(&mut self) -> (r: Option<T>)
        ensures
            old(self)@.len() == 0 ==> r is None && final(self)@ == old(self)@,
            old(self)@.len() > 0 ==> r == Some(old(self)@[0]) && final(self)@ == old(self)@.drop_first(),
            keys_distinct(old(self)@) ==> keys_distinct(final(self)@),
    {
        let r = self.pending.pop_front();
        proof {
            if old(self)@.len() > 0 && keys_distinct(old(self)@) {
                assert forall|a: int, b: int|
                    0 <= a < b < self.pending@.len() implies (#[trigger] self.pending@[a]).target_key()
                    != (#[trigger] self.pending@[b]).target_key() by {
                    assert(self.pending@[a] == old(self)@[a + 1]);
                    assert(self.pending@[b] == old(self)@[b + 1]);
                }
            }
        }
        r
    }

    /// How many targets wait.
    pub fn len(&self) -> (r: usize)
        ensures
            r == self@.len(),
    {
        self.pending.len()
    }
}


/// A built chunk held in a cache, with the clock reading of its last use.
pub struct CacheEntry<K, V> {
    pub key: K,
    pub value: V,
    pub last_used_tick: u64,
}

/// No key is cached twice.
pub open spec fn entry_keys_distinct<K, V>(entries: Seq<CacheEntry<K, V>>) -> bool {
    forall|i: int, j: int| 0 <= i < j < entries.len() ==> (#[trigger] entries[i]).key != (#[trigger] entries[j]).key
}

/// Some entry has the key.
pub open spec fn caches_key<K, V>(entries: Seq<CacheEntry<K, V>>, key: K) -> bool {
    exists|i: int| 0 <= i < entries.len() && (#[trigger] entries[i]).key == key
}

/// The clock after one more use: it counts up and wraps around.
pub open spec fn next_tick(tick: u64) -> u64 {
    vstd::wrapping::u64_specs::wrapping_add(tick, 1)
}

/// The entries after storing `value` under `key` at clock reading `tick`:
/// the entry of the key is replaced in place, or a new entry is appended.
pub open spec fn inserted<K, V>(entries: Seq<CacheEntry<K, V>>, key: K, value: V, tick: u64) -> Seq<
    CacheEntry<K, V>,
> {
    let entry = CacheEntry { key, value, last_used_tick: tick };
    if caches_key(entries, key) {
        entries.update(choose|i: int| 0 <= i < entries.len() && (#[trigger] entries[i]).key == key, entry)
    } else {
        entries.push(entry)
    }
}

/// Reading after writing: once a value is stored under a key, the cache
/// holds that key exactly once, with the stored value and stamp, and every
/// other key keeps the entry it had.
pub proof fn lemma_cache_read_after_write<K, V>(
    entries: Seq<CacheEntry<K, V>>,
    key: K,
    value: V,
    tick: u64,
    other: K,
)
    requires
        entry_keys_distinct(entries),
    ensures
        entry_keys_distinct(inserted(entries, key, value, tick)),
        caches_key(inserted(entries, key, value, tick), key),
        forall|j: int|
            0 <= j < inserted(entries, key, value, tick).len() && (#[trigger] inserted(
                entries,
                key,
                value,
                tick,
            )[j]).key == key ==> inserted(entries, key, value, tick)[j] == (CacheEntry {
                key,
                value,
                last_used_tick: tick,
            }),
        other != key ==> (caches_key(inserted(entries, key, value, tick), other) <==> caches_key(
            entries,
            other,
        )),
        other != key ==> forall|j: int|
            0 <= j < inserted(entries, key, value, tick).len() && (#[trigger] inserted(
                entries,
                key,
                value,
                tick,
            )[j]).key == other ==> entries.contains(inserted(entries, key, value, tick)[j]),
{
    let after = inserted(entries, key, value, tick);
    let entry = CacheEntry { key, value, last_used_tick: tick };
    if caches_key(entries, key) {
        let i = choose|i: int| 0 <= i < entries.len() && (#[trigger] entries[i]).key == key;
        assert(after == entries.update(i, entry));
        assert(after[i] == entry);
        assert forall|a: int, b: int| 0 <= a < b < after.len() implies (#[trigger] after[a]).key
            != (#[trigger] after[b]).key by {
            assert(entries[a].key != entries[b].key);
        }
        assert forall|j: int| 0 <= j < after.len() && (#[trigger] after[j]).key == key implies after[j]
            == entry by {
            if j != i {
                assert(entries[j].key != entries[i].key);
            }
        }
        if other != key {
            if caches_key(entries, other) {
                let k = choose|k: int| 0 <= k < entries.len() && (#[trigger] entries[k]).key == other;
                assert(after[k] == entries[k]);
            }
            if caches_key(after, other) {
                let k = choose|k: int| 0 <= k < after.len() && (#[trigger] after[k]).key == other;
                assert(after[k] == entries[k]);
            }
            assert forall|j: int| 0 <= j < after.len() && (#[trigger] after[j]).key == other implies entries.contains(
                after[j],
            ) by {
                assert(after[j] == entries[j]);
            }
        }
    } else {
        assert(after == entries.push(entry));
        assert(after[entries.len() as int] == entry);
        assert forall|a: int, b: int| 0 <= a < b < after.len() implies (#[trigger] after[a]).key
            != (#[trigger] after[b]).key by {
            assert(after[a] == entries[a]);
            if b < entries.len() {
                assert(entries[a].key != entries[b].key);
            }
        }
        assert forall|j: int| 0 <= j < after.len() && (#[trigger] after[j]).key == key implies after[j]
            == entry by {
            if j < entries.len() {
                assert(after[j] == entries[j]);
            }
        }
        if other != key {
            if caches_key(entries, other) {
                let k = choose|k: int| 0 <= k < entries.len() && (#[trigger] entries[k]).key == other;
                assert(after[k] == entries[k]);
            }
            if caches_key(after, other) {
                let k = choose|k: int| 0 <= k < after.len() && (#[trigger] after[k]).key == other;
                assert(after[k] == entries[k]);
            }
            assert forall|j: int| 0 <= j < after.len() && (#[trigger] after[j]).key == other implies entries.contains(
                after[j],
            ) by {
                assert(after[j] == entries[j]);
            }
        }
    }
}

/// Entries with distinct keys, all of them listed as active, are no more
/// than the active list is long.
proof fn lemma_active_entries_fit<K, V>(entries: Seq<CacheEntry<K, V>>, active: Seq<K>)
    requires
        entry_keys_distinct(entries),
        forall|i: int| 0 <= i < entries.len() ==> active.contains(#[trigger] entries[i].key),
    ensures
        entries.len() <= active.len(),
{
    let keys = entries.map_values(|e: CacheEntry<K, V>| e.key);
    assert forall|i: int, j: int| 0 <= i < keys.len() && 0 <= j < keys.len() && i != j implies keys[i]
        != keys[j] by {
        if i < j {
            assert(entries[i].key != entries[j].key);
        } else {
            assert(entries[j].key != entries[i].key);
        }
    }
    assert(keys.no_duplicates());
    keys.unique_seq_to_set();
    active.lemma_cardinality_of_set();
    assert forall|k: K| keys.to_set().contains(k) implies active.to_set().contains(k) by {
        let i = choose|i: int| 0 <= i < keys.len() && keys[i] == k;
        assert(active.contains(entries[i].key));
    }
    vstd::seq_lib::seq_to_set_is_finite(active);
    vstd::set_lib::lemma_len_subset(keys.to_set(), active.to_set());
}

/// Built chunks by key, each stamped with the clock reading of its last
/// use; the clock advances on every insert and every lookup.
pub struct ChunkCache<K: ChunkKey, V> {
    entries: Vec<CacheEntry<K, V>>,
    tick: u64,
}

/// The cache of built terrain chunk meshes.
pub type TerrainChunkCache<V> = ChunkCache<TerrainChunkKey, V>;

/// Where the key is cached, if it is.
fn entry_position<K: ChunkKey, V>(entries: &Vec<CacheEntry<K, V>>, key: K) -> (r: Option<usize>)
    ensures
        match r {
            Some(i) => i < entries@.len() && entries@[i as int].key == key,
            None => !caches_key(entries@, key),
        },
{
    let mut i: usize = 0;
    while i < entries.len()
        invariant
            i <= entries@.len(),
            forall|k: int| 0 <= k < i ==> (#[trigger] entries@[k]).key != key,
        decreases entries@.len() - i,
    {
        if entries[i].key.same_as(&key) {
            return Some(i);
        }
        i = i + 1;
    }
    None
}

/// The inactive entry used longest ago (the first listed among equals), if
/// any entry is inactive.
fn oldest_inactive<K: ChunkKey, V>(entries: &Vec<CacheEntry<K, V>>, active: &[K]) -> (r: Option<usize>)
    ensures
        match r {
            Some(i) => {
                &&& i < entries@.len()
                &&& !active@.contains(entries@[i as int].key)
                &&& forall|j: int|
                    0 <= j < entries@.len() && !active@.contains(#[trigger] entries@[j].key)
                        ==> entries@[i as int].last_used_tick <= entries@[j].last_used_tick
            },
            None => forall|j: int| 0 <= j < entries@.len() ==> active@.contains(#[trigger] entries@[j].key),
        },
{
    let mut best: Option<usize> = None;
    let mut i: usize = 0;
    while i < entries.len()
        invariant
            i <= entries@.len(),
            match best {
                Some(b) => {
                    &&& b < i
                    &&& !active@.contains(entries@[b as int].key)
                    &&& forall|j: int|
                        0 <= j < i && !active@.contains(#[trigger] entries@[j].key)
                            ==> entries@[b as int].last_used_tick <= entries@[j].last_used_tick
                },
                None => forall|j: int| 0 <= j < i ==> active@.contains(#[trigger] entries@[j].key),
            },
        decreases entries@.len() - i,
    {
        if !keys_contain(active, entries[i].key) {
            match best {
                Some(b) => {
                    if entries[i].last_used_tick < entries[b].last_used_tick {
                        best = Some(i);
                    }
                },
                None => {
                    best = Some(i);
                },
            }
        }
        i = i + 1;
    }
    best
}

impl<K: ChunkKey, V> View for ChunkCache<K, V> {
    type V = Seq<CacheEntry<K, V>>;

    closed spec fn view(&self) -> Seq<CacheEntry<K, V>> {
        self.entries@
    }
}

impl<K: ChunkKey, V> ChunkCache<K, V> {
    #[verifier::type_invariant]
    closed spec fn keys_unique(self) -> bool {
        entry_keys_distinct(self.entries@)
    }

    /// The clock reading of the last insert or lookup.
    pub closed spec fn clock(&self) -> u64 {
        self.tick
    }

    /// An empty cache with the clock at zero.
    pub fn new() -> (r: Self)
        ensures
            r@ == Seq::<CacheEntry<K, V>>::empty(),
            r.clock() == 0,
    {
        ChunkCache { entries: Vec::new(), tick: 0 }
    }

    /// Stores a built chunk, replacing what was cached under its key, and
    /// stamps it with the advanced clock.
    pub fn insert(&mut self, key: K, value: V)
        ensures
            final(self).clock() == next_tick(old(self).clock()),
            entry_keys_distinct(final(self)@),
            final(self)@ == inserted(old(self)@, key, value, final(self).clock()),
    {
        proof {
            use_type_invariant(&*self);
        }
        let tick = self.tick.wrapping_add(1);
        let entry = CacheEntry { key, value, last_used_tick: tick };
        let mut entries: Vec<CacheEntry<K, V>> = Vec::new();
        std::mem::swap(&mut entries, &mut self.entries);
        let ghost before = entries@;
        match entry_position(&entries, key) {
            Some(i) => {
                entries.set(i, entry);
                assert forall|a: int, b: int| 0 <= a < b < entries@.len() implies (#[trigger] entries@[a]).key
                    != (#[trigger] entries@[b]).key by {
                    assert(before[a].key != before[b].key);
                }
            },
            None => {
                entries.push(entry);
                assert forall|a: int, b: int| 0 <= a < b < entries@.len() implies (#[trigger] entries@[a]).key
                    != (#[trigger] entries@[b]).key by {
                    assert(entries@[a] == before[a]);
                    if b < before.len() {
                        assert(before[a].key != before[b].key);
                    }
                }
            },
        }
        self.entries = entries;
        self.tick = tick;
        proof {
            if caches_key(old(self)@, key) {
                let j = choose|j: int| 0 <= j < old(self)@.len() && (#[trigger] old(self)@[j]).key == key;
                assert forall|i: int| 0 <= i < old(self)@.len() && (#[trigger] old(self)@[i]).key == key implies i
                    == j by {
                    if i != j {
                        assert(old(self)@[i].key != old(self)@[j].key);
                    }
                }
            }
        }
    }

    /// Looks a chunk up, advancing the clock; a hit is stamped with the new
    /// reading and handed out as a clone.
    pub fn get(&mut self, key: K) -> (r: Option<V>) where V: Clone
        ensures
            final(self).clock() == next_tick(old(self).clock()),
            entry_keys_distinct(final(self)@),
            forall|i: int|
                0 <= i < old(self)@.len() && (#[trigger] old(self)@[i]).key == key ==> {
                    &&& final(self)@ == old(self)@.update(
                        i,
                        CacheEntry { key, value: old(self)@[i].value, last_used_tick: final(self).clock() },
                    )
                    &&& r matches Some(v) && cloned(old(self)@[i].value, v)
                },
            !caches_key(old(self)@, key) ==> r is None && final(self)@ == old(self)@,
    {
        proof {
            use_type_invariant(&*self);
        }
        let tick = self.tick.wrapping_add(1);
        self.tick = tick;
        let mut entries: Vec<CacheEntry<K, V>> = Vec::new();
        std::mem::swap(&mut entries, &mut self.entries);
        let ghost before = entries@;
        let r = match entry_position(&entries, key) {
            Some(i) => {
                let hit = entries.remove(i);
                let value = hit.value.clone();
                entries.insert(i, CacheEntry { key: hit.key, value: hit.value, last_used_tick: tick });
                assert(entries@ == before.update(
                    i as int,
                    CacheEntry { key, value: before[i as int].value, last_used_tick: tick },
                ));
                assert forall|a: int, b: int| 0 <= a < b < entries@.len() implies (#[trigger] entries@[a]).key
                    != (#[trigger] entries@[b]).key by {
                    assert(before[a].key != before[b].key);
                }
                assert forall|j: int| 0 <= j < before.len() && (#[trigger] before[j].key) == key implies j == i by {
                    if j != i {
                        assert(before[j].key != before[i as int].key);
                    }
                }
                Some(value)
            },
            None => None,
        };
        self.entries = entries;
        r
    }

    /// Trims the cache to `capacity` entries (never below the number of
    /// active keys) by evicting inactive entries, least recently used first;
    /// hands the evicted entries back. Active entries always stay.
    pub fn evict_inactive(&mut self, capacity: usize, active: &[K]) -> (evicted: Vec<CacheEntry<K, V>>)
        ensures
            final(self).clock() == old(self).clock(),
            entry_keys_distinct(final(self)@),
            final(self)@.len() + evicted@.len() == old(self)@.len(),
            forall|e: CacheEntry<K, V>| #[trigger] final(self)@.contains(e) ==> old(self)@.contains(e),
            forall|e: CacheEntry<K, V>|
                #[trigger] evicted@.contains(e) ==> old(self)@.contains(e) && !active@.contains(e.key),
            forall|e: CacheEntry<K, V>|
                #[trigger] old(self)@.contains(e) ==> final(self)@.contains(e) || evicted@.contains(e),
            old(self)@.len() <= max_int(capacity as int, active@.len() as int) ==> final(self)@ == old(self)@,
            old(self)@.len() > max_int(capacity as int, active@.len() as int) ==> final(self)@.len() == max_int(
                capacity as int,
                active@.len() as int,
            ),
            forall|a: CacheEntry<K, V>, b: CacheEntry<K, V>|
                #[trigger] evicted@.contains(a) && #[trigger] final(self)@.contains(b) && !active@.contains(b.key)
                    ==> a.last_used_tick <= b.last_used_tick,
    {
        proof {
            use_type_invariant(&*self);
        }
        let cap = if capacity >= active.len() {
            capacity
        } else {
            active.len()
        };
        let mut entries: Vec<CacheEntry<K, V>> = Vec::new();
        std::mem::swap(&mut entries, &mut self.entries);
        let ghost start = entries@;
        let mut evicted: Vec<CacheEntry<K, V>> = Vec::new();
        while entries.len() > cap
            invariant
                cap == max_int(capacity as int, active@.len() as int),
                entry_keys_distinct(entries@),
                entries@.len() + evicted@.len() == start.len(),
                evicted@.len() == 0 ==> entries@ == start,
                start.len() > cap ==> entries@.len() >= cap,
                start.len() <= cap ==> evicted@.len() == 0,
                forall|e: CacheEntry<K, V>| #[trigger] entries@.contains(e) ==> start.contains(e),
                forall|e: CacheEntry<K, V>|
                    #[trigger] evicted@.contains(e) ==> start.contains(e) && !active@.contains(e.key),
                forall|e: CacheEntry<K, V>|
                    #[trigger] start.contains(e) ==> entries@.contains(e) || evicted@.contains(e),
                forall|a: CacheEntry<K, V>, b: CacheEntry<K, V>|
                    #[trigger] evicted@.contains(a) && #[trigger] entries@.contains(b) && !active@.contains(b.key)
                        ==> a.last_used_tick <= b.last_used_tick,
            ensures
                entries@.len() <= cap || forall|i: int|
                    0 <= i < entries@.len() ==> active@.contains(#[trigger] entries@[i].key),
            decreases entries@.len(),
        {
            match oldest_inactive(&entries, active) {
                None => {
                    break;
                },
                Some(i) => {
                    let ghost before = entries@;
                    let ghost before_evicted = evicted@;
                    let entry = entries.remove(i);
                    assert(entries@ == before.remove(i as int));
                    assert forall|a: int, b: int| 0 <= a < b < entries@.len() implies (#[trigger] entries@[a]).key
                        != (#[trigger] entries@[b]).key by {
                        if b < i {
                        } else if a < i {
                            assert(before[a].key != before[b + 1].key);
                        } else {
                            assert(before[a + 1].key != before[b + 1].key);
                        }
                    }
                    evicted.push(entry);
                    assert forall|e: CacheEntry<K, V>| #[trigger] entries@.contains(e) implies start.contains(e) by {
                        let k = choose|k: int| 0 <= k < entries@.len() && entries@[k] == e;
                        if k < i {
                            assert(before[k] == e);
                        } else {
                            assert(before[k + 1] == e);
                        }
                        assert(before.contains(e));
                    }
                    assert forall|e: CacheEntry<K, V>| #[trigger] evicted@.contains(e) implies start.contains(e)
                        && !active@.contains(e.key) by {
                        let k = choose|k: int| 0 <= k < evicted@.len() && evicted@[k] == e;
                        if k < before_evicted.len() {
                            assert(before_evicted[k] == e);
                            assert(before_evicted.contains(e));
                        } else {
                            assert(before.contains(e));
                        }
                    }
                    assert forall|e: CacheEntry<K, V>| #[trigger] start.contains(e) implies entries@.contains(e)
                        || evicted@.contains(e) by {
                        if before.contains(e) {
                            let k = choose|k: int| 0 <= k < before.len() && before[k] == e;
                            if k < i {
                                assert(entries@[k] == e);
                            } else if k > i {
                                assert(entries@[k - 1] == e);
                            } else {
                                assert(evicted@[evicted@.len() - 1] == e);
                            }
                        } else {
                            assert(before_evicted.contains(e));
                            let k = choose|k: int| 0 <= k < before_evicted.len() && before_evicted[k] == e;
                            assert(evicted@[k] == e);
                        }
                    }
                    assert forall|a: CacheEntry<K, V>, b: CacheEntry<K, V>|
                        #[trigger] evicted@.contains(a) && #[trigger] entries@.contains(b) && !active@.contains(b.key)
                            implies a.last_used_tick <= b.last_used_tick by {
                        let kb = choose|k: int| 0 <= k < entries@.len() && entries@[k] == b;
                        let jb = if kb < i { kb } else { kb + 1 };
                        assert(before[jb] == b);
                        assert(before.contains(b));
                        let ka = choose|k: int| 0 <= k < evicted@.len() && evicted@[k] == a;
                        if ka < before_evicted.len() {
                            assert(before_evicted[ka] == a);
                            assert(before_evicted.contains(a));
                        } else {
                            assert(a == before[i as int]);
                        }
                    }
                },
            }
        }
        proof {
            if start.len() > cap && entries@.len() > cap {
                lemma_active_entries_fit(entries@, active@);
            }
        }
        self.entries = entries;
        evicted
    }

    /// The cached keys, in cache order.
    pub fn keys(&self) -> (r: Vec<K>)
        ensures
            r@.len() == self@.len(),
            forall|i: int| 0 <= i < r@.len() ==> r@[i] == #[trigger] self@[i].key,
    {
        let mut keys: Vec<K> = Vec::new();
        let mut i: usize = 0;
        while i < self.entries.len()
            invariant
                i <= self.entries@.len(),
                keys@.len() == i,
                forall|k: int| 0 <= k < i ==> keys@[k] == #[trigger] self.entries@[k].key,
            decreases self.entries@.len() - i,
        {
            keys.push(self.entries[i].key);
            i = i + 1;
        }
        keys
    }

    /// How many chunks are cached.
    pub fn len(&self) -> (r: usize)
        ensures
            r == self@.len(),
            entry_keys_distinct(self@),
    {
        proof {
            use_type_invariant(self);
        }
        self.entries.len()
    }

    /// Whether a chunk is cached under the key, without using it.
    pub fn contains_key(&self, key: K) -> (r: bool)
        ensures
            r == caches_key(self@, key),
            entry_keys_distinct(self@),
    {
        proof {
            use_type_invariant(self);
        }
        entry_position(&self.entries, key).is_some()
    }
}


/// What a scheduling pass does next with its queue.
pub enum StreamAction<T, V> {
    /// The frame's budget or the in-flight cap is used up, or nothing waits.
    Idle,
    /// The next target needs nothing this frame.
    Skip(T),
    /// Respawn the next target from its cached build.
    SpawnCached(T, V),
    /// Ask a worker to build the next target.
    Request(T),
}

/// One step of the scheduling pass: while the frame's budget and the
/// in-flight cap allow, the oldest queued target is taken; a target that is
/// spawned or being built is skipped; a cached target is looked up and,
/// when drawn, looked up again and respawned from the cache, when only
/// preloaded skipped; any other target is requested.
pub fn next_stream_action<V: Clone>(
    queue: &mut TerrainStreamingQueue,
    cache: &mut ChunkCache<TerrainChunkKey, V>,
    existing: &[TerrainChunkKey],
    in_flight: &[TerrainChunkKey],
    scheduled: usize,
    budget: usize,
    max_in_flight: usize,
) -> (r: StreamAction<TerrainChunkTarget, V>)
    ensures
        !(scheduled < budget && in_flight@.len() < max_in_flight) || old(queue)@.len() == 0 ==> {
            &&& r is Idle
            &&& final(queue)@ == old(queue)@
            &&& final(cache)@ == old(cache)@
            &&& final(cache).clock() == old(cache).clock()
        },
        scheduled < budget && in_flight@.len() < max_in_flight && old(queue)@.len() > 0 ==> {
            let target = old(queue)@[0];
            let key = target.key;
            &&& final(queue)@ == old(queue)@.drop_first()
            &&& (existing@.contains(key) || in_flight@.contains(key)) ==> r == StreamAction::<TerrainChunkTarget, V>::Skip(target)
                && final(cache)@ == old(cache)@ && final(cache).clock() == old(cache).clock()
            &&& !existing@.contains(key) && !in_flight@.contains(key) && !caches_key(old(cache)@, key) ==> r
                == StreamAction::<TerrainChunkTarget, V>::Request(target) && final(cache)@ == old(cache)@ && final(cache).clock()
                == next_tick(old(cache).clock())
            &&& !existing@.contains(key) && !in_flight@.contains(key) && caches_key(old(cache)@, key)
                && !target.visible ==> r == StreamAction::<TerrainChunkTarget, V>::Skip(target) && final(cache).clock() == next_tick(
                old(cache).clock(),
            ) && forall|i: int|
                0 <= i < old(cache)@.len() && (#[trigger] old(cache)@[i]).key == key ==> final(cache)@ == old(
                cache,
            )@.update(
                i,
                CacheEntry { key, value: old(cache)@[i].value, last_used_tick: final(cache).clock() },
            )
            &&& !existing@.contains(key) && !in_flight@.contains(key) && caches_key(old(cache)@, key)
                && target.visible ==> final(cache).clock() == next_tick(next_tick(old(cache).clock())) && forall|i: int|
                0 <= i < old(cache)@.len() && (#[trigger] old(cache)@[i]).key == key ==> {
                    &&& final(cache)@ == old(cache)@.update(
                        i,
                        CacheEntry { key, value: old(cache)@[i].value, last_used_tick: final(cache).clock() },
                    )
                    &&& r matches StreamAction::SpawnCached(t, v) && t == target && cloned(old(cache)@[i].value, v)
                }
        },
{
    if !(scheduled < budget && in_flight.len() < max_in_flight) {
        return StreamAction::Idle;
    }
    let target = match queue.pop_next() {
        None => {
            return StreamAction::Idle;
        },
        Some(target) => target,
    };
    if keys_contain(existing, target.key) || keys_contain(in_flight, target.key) {
        return StreamAction::Skip(target);
    }
    let ghost start = cache@;
    let first = cache.get(target.key);
    if first.is_none() {
        return StreamAction::Request(target);
    }
    if !target.visible {
        return StreamAction::Skip(target);
    }
    let ghost middle = cache@;
    let second = cache.get(target.key);
    proof {
        let key = target.key;
        let i = choose|i: int| 0 <= i < start.len() && (#[trigger] start[i]).key == key;
        assert(middle[i].key == key);
        assert(middle[i].value == start[i].value);
        assert forall|j: int| 0 <= j < start.len() && (#[trigger] start[j]).key == key implies j == i by {
            if j != i {
                assert(middle[j] == start[j]);
                assert(middle[i].key != middle[j].key);
            }
        }
        assert(cache@ == start.update(i, CacheEntry { key, value: start[i].value, last_used_tick: cache.clock() }));
    }
    match second {
        Some(value) => StreamAction::SpawnCached(target, value),
        None => StreamAction::Skip(target),
    }
}

/// A finished chunk is spawned only while the camera still needs it and it
/// is not spawned already.
pub fn should_integrate_chunk(
    key: TerrainChunkKey,
    active_targets: &[TerrainChunkTarget],
    existing: &[TerrainChunkKey],
) -> (r: bool)
    ensures
        r == (holds_key(active_targets@, key) && !existing@.contains(key)),
{
    let mut i: usize = 0;
    let mut needed = false;
    while i < active_targets.len()
        invariant
            i <= active_targets@.len(),
            needed == holds_key(active_targets@.take(i as int), key),
        decreases active_targets@.len() - i,
    {
        let ghost prefix = active_targets@.take(i as int);
        let ghost next = active_targets@.take(i + 1);
        assert(next[i as int] == active_targets@[i as int]);
        if active_targets[i].key == key {
            needed = true;
            assert(next[i as int].target_key() == key);
        } else if needed {
            proof {
                let k = choose|k: int| 0 <= k < prefix.len() && (#[trigger] prefix[k]).target_key() == key;
                assert(next[k] == prefix[k]);
            }
        } else {
            assert forall|k: int| 0 <= k < next.len() implies (#[trigger] next[k]).target_key() != key by {
                if k < i {
                    assert(next[k] == prefix[k]);
                }
            }
        }
        i = i + 1;
    }
    assert(active_targets@.take(active_targets@.len() as int) == active_targets@);
    needed && !keys_contain(existing, key)
}

/// Terrain collision kept near the player: the chunks in range, the chunk
/// they were gathered around, the chunks waiting to be built and the cache
/// of built ones.
pub struct TerrainCollisionProxy<V> {
    pub active: Vec<WorldChunkCoord>,
    pub anchor: Option<WorldChunkCoord>,
    pub pending: StreamingQueue<WorldChunkCoord>,
    pub chunks: ChunkCache<WorldChunkCoord, V>,
}

impl<V> TerrainCollisionProxy<V> {
    /// Nothing in range, nothing queued, nothing cached.
    pub fn new() -> (r: Self)
        ensures
            r.active@ == Seq::<WorldChunkCoord>::empty(),
            r.anchor is None,
            r.pending@ == Seq::<WorldChunkCoord>::empty(),
            r.chunks@ == Seq::<CacheEntry<WorldChunkCoord, V>>::empty(),
            r.chunks.clock() == 0,
            entry_keys_distinct(r.chunks@),
    {
        TerrainCollisionProxy {
            active: Vec::new(),
            anchor: None,
            pending: StreamingQueue::new(),
            chunks: ChunkCache::new(),
        }
    }

    /// Offers chunks to build, in order, skipping built and queued ones.
    pub fn enqueue_missing(&mut self, targets: &[WorldChunkCoord], existing: &[WorldChunkCoord])
        ensures
            final(self).pending@ == enqueue_spec(old(self).pending@, targets@, existing@),
            keys_distinct(old(self).pending@) ==> keys_distinct(final(self).pending@),
            final(self).active == old(self).active,
            final(self).anchor == old(self).anchor,
            final(self).chunks == old(self).chunks,
    {
        self.pending.enqueue_missing(targets, existing);
    }

    /// Drops queued chunks that left the range.
    pub fn retain_active(&mut self, active: &[WorldChunkCoord])
        ensures
            final(self).pending@ == retain_spec(old(self).pending@, active@),
            keys_distinct(old(self).pending@) ==> keys_distinct(final(self).pending@),
            final(self).active == old(self).active,
            final(self).anchor == old(self).anchor,
            final(self).chunks == old(self).chunks,
    {
        self.pending.retain_targets(active);
    }

    /// The next chunk to build, oldest first.
    pub fn pop_next(&mut self) -> (r: Option<WorldChunkCoord>)
        ensures
            old(self).pending@.len() == 0 ==> r is None && final(self).pending@ == old(self).pending@,
            old(self).pending@.len() > 0 ==> r == Some(old(self).pending@[0]) && final(self).pending@ == old(self).pending@.drop_first(),
            final(self).active == old(self).active,
            final(self).anchor == old(self).anchor,
            final(self).chunks == old(self).chunks,
    {
        self.pending.pop_next()
    }

    /// Gathers the chunks in range of a new anchor: queued chunks out of
    /// range are dropped, chunks in range that are neither built nor queued
    /// join the queue in the given (nearest first) order, and the range
    /// becomes `targets`. Nothing changes while the anchor stays put.
    pub fn retarget(&mut self, anchor: WorldChunkCoord, targets: Vec<WorldChunkCoord>)
        ensures
            old(self).anchor == Some(anchor) ==> *final(self) == *old(self),
            old(self).anchor != Some(anchor) ==> {
                &&& final(self).anchor == Some(anchor)
                &&& final(self).active@ == targets@
                &&& final(self).chunks == old(self).chunks
                &&& final(self).pending@ == enqueue_spec(
                    retain_spec(old(self).pending@, targets@),
                    targets@,
                    old(self).chunks@.map_values(|e: CacheEntry<WorldChunkCoord, V>| e.key),
                )
            },
            keys_distinct(old(self).pending@) ==> keys_distinct(final(self).pending@),
    {
        if let Some(current) = self.anchor {
            if current == anchor {
                return;
            }
        }
        let existing = self.chunks.keys();
        assert(existing@ == self.chunks@.map_values(|e: CacheEntry<WorldChunkCoord, V>| e.key));
        self.pending.retain_targets(targets.as_slice());
        self.pending.enqueue_missing(targets.as_slice(), existing.as_slice());
        self.anchor = Some(anchor);
        self.active = targets;
    }

    /// Stores a built chunk.
    pub fn insert_chunk(&mut self, coord: WorldChunkCoord, chunk: V)
        ensures
            final(self).chunks.clock() == next_tick(old(self).chunks.clock()),
            final(self).chunks@ == inserted(old(self).chunks@, coord, chunk, final(self).chunks.clock()),
            entry_keys_distinct(final(self).chunks@),
            final(self).active == old(self).active,
            final(self).anchor == old(self).anchor,
            final(self).pending == old(self).pending,
    {
        self.chunks.insert(coord, chunk);
    }

    /// Looks a built chunk up, marking it used.
    pub fn get_chunk(&mut self, coord: WorldChunkCoord) -> (r: Option<V>) where V: Clone
        ensures
            final(self).chunks.clock() == next_tick(old(self).chunks.clock()),
            forall|i: int|
                0 <= i < old(self).chunks@.len() && (#[trigger] old(self).chunks@[i]).key == coord ==> {
                    &&& final(self).chunks@ == old(self).chunks@.update(
                        i,
                        CacheEntry {
                            key: coord,
                            value: old(self).chunks@[i].value,
                            last_used_tick: final(self).chunks.clock(),
                        },
                    )
                    &&& r matches Some(v) && cloned(old(self).chunks@[i].value, v)
                },
            !caches_key(old(self).chunks@, coord) ==> r is None && final(self).chunks@ == old(self).chunks@,
            entry_keys_distinct(final(self).chunks@),
            final(self).active == old(self).active,
            final(self).anchor == old(self).anchor,
            final(self).pending == old(self).pending,
    {
        self.chunks.get(coord)
    }

    /// Trims the built chunks to `capacity` (never below the chunks in
    /// range), least recently used out-of-range chunks first; returns how
    /// many were dropped.
    pub fn evict_inactive(&mut self, capacity: usize, active: &[WorldChunkCoord]) -> (r: usize)
        ensures
            r == old(self).chunks@.len() - final(self).chunks@.len(),
            final(self).chunks.clock() == old(self).chunks.clock(),
            forall|e: CacheEntry<WorldChunkCoord, V>| #[trigger] final(self).chunks@.contains(e) ==> old(self).chunks@.contains(e),
            forall|e: CacheEntry<WorldChunkCoord, V>|
                #[trigger] old(self).chunks@.contains(e) && active@.contains(e.key) ==> final(self).chunks@.contains(e),
            old(self).chunks@.len() <= max_int(capacity as int, active@.len() as int) ==> final(self).chunks@
                == old(self).chunks@,
            old(self).chunks@.len() > max_int(capacity as int, active@.len() as int) ==> {
                &&& final(self).chunks@.len() == max_int(capacity as int, active@.len() as int)
                &&& r == old(self).chunks@.len() - max_int(capacity as int, active@.len() as int)
            },
            entry_keys_distinct(final(self).chunks@),
            forall|a: CacheEntry<WorldChunkCoord, V>, b: CacheEntry<WorldChunkCoord, V>|
                #[trigger] old(self).chunks@.contains(a) && !final(self).chunks@.contains(a)
                    && #[trigger] final(self).chunks@.contains(b) && !active@.contains(b.key) ==> a.last_used_tick
                    <= b.last_used_tick,
            final(self).active == old(self).active,
            final(self).anchor == old(self).anchor,
            final(self).pending == old(self).pending,
    {
        let evicted = self.chunks.evict_inactive(capacity, active);
        proof {
            assert forall|e: CacheEntry<WorldChunkCoord, V>|
                #[trigger] old(self).chunks@.contains(e) && active@.contains(e.key) implies self.chunks@.contains(e) by {
                if !self.chunks@.contains(e) {
                    assert(evicted@.contains(e));
                }
            }
            assert forall|a: CacheEntry<WorldChunkCoord, V>, b: CacheEntry<WorldChunkCoord, V>|
                #[trigger] old(self).chunks@.contains(a) && !self.chunks@.contains(a)
                    && #[trigger] self.chunks@.contains(b) && !active@.contains(b.key) implies a.last_used_tick
                    <= b.last_used_tick by {
                assert(evicted@.contains(a));
            }
        }
        evicted.len()
    }

    /// Stores a finished collision chunk while it is still in range;
    /// returns whether it was stored.
    pub fn integrate_built_chunk(&mut self, coord: WorldChunkCoord, chunk: V) -> (stored: bool)
        ensures
            stored == old(self).active@.contains(coord),
            stored ==> final(self).chunks@ == inserted(old(self).chunks@, coord, chunk, final(self).chunks.clock())
                && final(self).chunks.clock() == next_tick(old(self).chunks.clock()),
            !stored ==> final(self).chunks@ == old(self).chunks@ && final(self).chunks.clock() == old(
                self,
            ).chunks.clock(),
            stored ==> entry_keys_distinct(final(self).chunks@),
            final(self).active == old(self).active,
            final(self).anchor == old(self).anchor,
            final(self).pending == old(self).pending,
    {
        if keys_contain(self.active.as_slice(), coord) {
            self.chunks.insert(coord, chunk);
            true
        } else {
            false
        }
    }

    /// One step of the collision build pass: while the frame's budget
    /// allows, the oldest queued chunk is taken and handed out for building
    /// unless it is already built or being built.
    pub fn next_build(&mut self, in_flight: &[WorldChunkCoord], scheduled: usize, budget: usize) -> (r:
        StreamAction<WorldChunkCoord, V>)
        ensures
            !(scheduled < budget) || old(self).pending@.len() == 0 ==> r is Idle && final(self).pending@ == old(
                self,
            ).pending@,
            scheduled < budget && old(self).pending@.len() > 0 ==> {
                let coord = old(self).pending@[0];
                &&& final(self).pending@ == old(self).pending@.drop_first()
                &&& (caches_key(old(self).chunks@, coord) || in_flight@.contains(coord)) ==> r
                    == StreamAction::<WorldChunkCoord, V>::Skip(coord)
                &&& !caches_key(old(self).chunks@, coord) && !in_flight@.contains(coord) ==> r
                    == StreamAction::<WorldChunkCoord, V>::Request(coord)
            },
            final(self).chunks == old(self).chunks,
            final(self).active == old(self).active,
            final(self).anchor == old(self).anchor,
    {
        if !(scheduled < budget) {
            return StreamAction::Idle;
        }
        let coord = match self.pending.pop_next() {
            None => {
                return StreamAction::Idle;
            },
            Some(coord) => coord,
        };
        if self.chunks.contains_key(coord) || keys_contain(in_flight, coord) {
            StreamAction::Skip(coord)
        } else {
            StreamAction::Request(coord)
        }
    }

    /// How many built chunks are cached.
    pub fn len(&self) -> (r: usize)
        ensures
            r == self.chunks@.len(),
            entry_keys_distinct(self.chunks@),
    {
        self.chunks.len()
    }
}


/// The chunk keys already built before streaming starts: the high-detail
/// chunk under the player's starting point, when that point lies on the map.
pub open spec fn boot_keys(boot_coord: Option<WorldChunkCoord>) -> Seq<TerrainChunkKey> {
    match boot_coord {
        Some(coord) => seq![TerrainChunkKey { coord, lod: TerrainLodLevel::High }],
        None => seq![],
    }
}

/// The first queue of terrain chunks to build: the targets in order, each
/// key once, leaving out the high-detail chunk under the starting point,
/// which is built before the first frame.
pub fn boot_stream_queue(targets: &[TerrainChunkTarget], boot_coord: Option<WorldChunkCoord>) -> (r:
    TerrainStreamingQueue)
    ensures
        r@ == enqueue_spec(Seq::<TerrainChunkTarget>::empty(), targets@, boot_keys(boot_coord)),
        keys_distinct(r@),
        boot_coord matches Some(coord) ==> !holds_key(r@, TerrainChunkKey { coord, lod: TerrainLodLevel::High }),
{
    let mut built: Vec<TerrainChunkKey> = Vec::new();
    match boot_coord {
        Some(coord) => {
            built.push(TerrainChunkKey { coord, lod: TerrainLodLevel::High });
        },
        None => {},
    }
    assert(built@ == boot_keys(boot_coord));
    let mut queue = StreamingQueue::new();
    queue.enqueue_missing(targets, built.as_slice());
    proof {
        if let Some(coord) = boot_coord {
            let key = TerrainChunkKey { coord, lod: TerrainLodLevel::High };
            assert(built@[0] == key);
            lemma_enqueue_skips_existing(Seq::<TerrainChunkTarget>::empty(), targets@, built@, key);
        }
    }
    queue
}

/// The keys of the targets, in order.
pub fn target_keys(targets: &[TerrainChunkTarget]) -> (r: Vec<TerrainChunkKey>)
    ensures
        r@.len() == targets@.len(),
        forall|i: int| 0 <= i < r@.len() ==> r@[i] == (#[trigger] targets@[i]).key,
{
    let mut keys: Vec<TerrainChunkKey> = Vec::new();
    let mut i: usize = 0;
    while i < targets.len()
        invariant
            i <= targets@.len(),
            keys@.len() == i,
            forall|k: int| 0 <= k < i ==> keys@[k] == (#[trigger] targets@[k]).key,
        decreases targets@.len() - i,
    {
        keys.push(targets[i].key);
        i = i + 1;
    }
    keys
}

/// The terrain chunks the camera needs, and the chunk they were gathered
/// around.
pub struct ChunkVisibilityState {
    pub active: Vec<TerrainChunkTarget>,
    pub center: Option<WorldChunkCoord>,
}

impl ChunkVisibilityState {
    /// Nothing needed yet.
    pub fn new() -> (r: Self)
        ensures
            r.active@ == Seq::<TerrainChunkTarget>::empty(),
            r.center is None,
    {
        ChunkVisibilityState { active: Vec::new(), center: None }
    }

    /// Follows the camera to a new chunk: the needed chunks are gathered
    /// around it, queued chunks no longer needed are dropped, and needed
    /// chunks that are neither spawned nor queued join the queue nearest
    /// first. Returns whether anything changed; nothing does while the
    /// camera stays in its chunk.
    pub fn follow_camera(
        &mut self,
        world_map: &WorldMap,
        center: WorldChunkCoord,
        lod_config: TerrainLodConfig,
        queue: &mut TerrainStreamingQueue,
        spawned_keys: &[TerrainChunkKey],
    ) -> (changed: bool)
        requires
            square_fits(center, lod_config.preload_radius as int),
        ensures
            changed == (old(self).center != Some(center)),
            !changed ==> final(self).active@ == old(self).active@ && final(self).center == old(self).center
                && final(queue)@ == old(queue)@,
            changed ==> {
                &&& final(self).center == Some(center)
                &&& targets_in_serving_order(final(self).active@, center)
                &&& forall|i: int|
                    0 <= i < final(self).active@.len() ==> {
                        &&& #[trigger] final(self).active@[i] == target_for(
                            final(self).active@[i].key.coord,
                            center,
                            lod_config,
                        )
                        &&& in_square(final(self).active@[i].key.coord, center, lod_config.preload_radius as int)
                        &&& world_map.chunk_bounds(final(self).active@[i].key.coord) is Some
                    }
                &&& forall|coord: WorldChunkCoord|
                    in_square(coord, center, lod_config.preload_radius as int) && (
                    #[trigger] world_map.chunk_bounds(coord)) is Some ==> final(self).active@.contains(
                        target_for(coord, center, lod_config),
                    )
                &&& final(queue)@ == enqueue_spec(
                    retain_spec(old(queue)@, keys_of(final(self).active@)),
                    final(self).active@,
                    spawned_keys@,
                )
            },
            keys_distinct(old(queue)@) ==> keys_distinct(final(queue)@),
    {
        if let Some(current) = self.center {
            if current == center {
                return false;
            }
        }
        let targets = chunk_targets_for_center(world_map, center, lod_config);
        let visible = target_keys(targets.as_slice());
        assert(visible@ == keys_of(targets@));
        queue.retain_targets(visible.as_slice());
        queue.enqueue_missing(targets.as_slice(), spawned_keys);
        self.active = targets;
        self.center = Some(center);
        true
    }
}

} // verus!
