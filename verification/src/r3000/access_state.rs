use vstd::prelude::*;
use hashbrown::DefaultHashBuilder;
use lru::LruCache;
use std::num::NonZeroUsize;

verus! {

#[verifier::external_type_specification]
#[verifier::external_body]
#[verifier::reject_recursive_types(K)]
#[verifier::reject_recursive_types(V)]
#[verifier::reject_recursive_types(S)]
pub struct ExLruCache<K, V, S>(LruCache<K, V, S>);

#[verifier::external_type_specification]
#[verifier::external_body]
pub struct ExDefaultHashBuilder(DefaultHashBuilder);

/// The entries of an LRU cache of counters, least recently used first.
pub uninterp spec fn lru_entries(cache: LruCache<u32, usize, DefaultHashBuilder>) -> Seq<(u32, usize)>;

/// The number of entries an LRU cache of counters was made to hold.
pub uninterp spec fn lru_capacity(cache: LruCache<u32, usize, DefaultHashBuilder>) -> nat;

/// No key occurs twice.
pub open spec fn unique_keys(entries: Seq<(u32, usize)>) -> bool {
    forall|i: int, j: int| 0 <= i < j < entries.len() ==> entries[i].0 != entries[j].0
}

/// Whether `key` has an entry.
pub open spec fn has_key(entries: Seq<(u32, usize)>, key: u32) -> bool {
    exists|i: int| 0 <= i < entries.len() && entries[i].0 == key
}

/// Creates an empty cache that holds at most `capacity` entries
/// (`LruCache::with_hasher` with the default hash builder).
#[verifier::external_body]
fn lru_with_capacity(capacity: usize) -> (c: LruCache<u32, usize, DefaultHashBuilder>)
    requires
        capacity > 0,
    ensures
        lru_entries(c) == Seq::<(u32, usize)>::empty(),
        lru_capacity(c) == capacity,
{
    LruCache::with_hasher(NonZeroUsize::new(capacity).unwrap(), DefaultHashBuilder::default())
}

/// Looks `key` up (`LruCache::get_mut`): its value, and the entry becomes the
/// most recently used; no change when absent.
#[verifier::external_body]
fn lru_get(cache: &mut LruCache<u32, usize, DefaultHashBuilder>, key: u32) -> (r: Option<usize>)
    requires
        unique_keys(lru_entries(*old(cache))),
    ensures
        lru_capacity(*final(cache)) == lru_capacity(*old(cache)),
        !has_key(lru_entries(*old(cache)), key) ==> r is None && lru_entries(*final(cache)) == lru_entries(*old(cache)),
        forall|i: int|
            0 <= i < lru_entries(*old(cache)).len() && #[trigger] lru_entries(*old(cache))[i].0 == key ==> r == Some(
                lru_entries(*old(cache))[i].1,
            ) && lru_entries(*final(cache)) == lru_entries(*old(cache)).remove(i).push(lru_entries(*old(cache))[i]),
{
    cache.get_mut(&key).copied()
}

/// Stores `value` under `key` (`LruCache::put`) as the most recently used
/// entry: an existing entry is replaced and its old value returned; otherwise,
/// when the cache is full, the least recently used entry is dropped.
#[verifier::external_body]
fn lru_put(cache: &mut LruCache<u32, usize, DefaultHashBuilder>, key: u32, value: usize) -> (r: Option<usize>)
    requires
        unique_keys(lru_entries(*old(cache))),
        lru_entries(*old(cache)).len() <= lru_capacity(*old(cache)),
    ensures
        lru_capacity(*final(cache)) == lru_capacity(*old(cache)),
        forall|i: int|
            0 <= i < lru_entries(*old(cache)).len() && #[trigger] lru_entries(*old(cache))[i].0 == key ==> r == Some(
                lru_entries(*old(cache))[i].1,
            ) && lru_entries(*final(cache)) == lru_entries(*old(cache)).remove(i).push((key, value)),
        !has_key(lru_entries(*old(cache)), key) && lru_entries(*old(cache)).len() == lru_capacity(*old(cache)) ==> r is None
            && lru_entries(*final(cache)) == lru_entries(*old(cache)).drop_first().push((key, value)),
        !has_key(lru_entries(*old(cache)), key) && lru_entries(*old(cache)).len() < lru_capacity(*old(cache)) ==> r is None
            && lru_entries(*final(cache)) == lru_entries(*old(cache)).push((key, value)),
{
    cache.put(key, value)
}

/// Removes the entry of `key` (`LruCache::pop`) and returns its value; no change when absent.
#[verifier::external_body]
fn lru_pop(cache: &mut LruCache<u32, usize, DefaultHashBuilder>, key: u32) -> (r: Option<usize>)
    requires
        unique_keys(lru_entries(*old(cache))),
    ensures
        lru_capacity(*final(cache)) == lru_capacity(*old(cache)),
        !has_key(lru_entries(*old(cache)), key) ==> r is None && lru_entries(*final(cache)) == lru_entries(*old(cache)),
        forall|i: int|
            0 <= i < lru_entries(*old(cache)).len() && #[trigger] lru_entries(*old(cache))[i].0 == key ==> r == Some(
                lru_entries(*old(cache))[i].1,
            ) && lru_entries(*final(cache)) == lru_entries(*old(cache)).remove(i),
{
    cache.pop(&key)
}

proof fn lemma_unique_replace(s: Seq<(u32, usize)>, i: int, x: (u32, usize))
    requires
        unique_keys(s),
        0 <= i < s.len(),
        s[i].0 == x.0,
    ensures
        unique_keys(s.remove(i).push(x)),
        !has_key(s.remove(i), x.0),
{
    let t = s.remove(i);
    assert forall|a: int, b: int| 0 <= a < b < t.push(x).len() implies t.push(x)[a].0 != t.push(x)[b].0 by {
        let sa = if a < i { a } else { a + 1 };
        if b == t.len() {
            assert(t[a] == s[sa]);
        } else {
            let sb = if b < i { b } else { b + 1 };
            assert(t[a] == s[sa] && t[b] == s[sb]);
        }
    }
    assert forall|a: int| 0 <= a < t.len() implies t[a].0 != x.0 by {
        let sa = if a < i { a } else { a + 1 };
        assert(t[a] == s[sa]);
    }
}

proof fn lemma_unique_insert(s: Seq<(u32, usize)>, x: (u32, usize))
    requires
        unique_keys(s),
        !has_key(s, x.0),
    ensures
        unique_keys(s.push(x)),
        s.len() > 0 ==> unique_keys(s.drop_first().push(x)),
{
    assert forall|a: int, b: int| 0 <= a < b < s.push(x).len() implies s.push(x)[a].0 != s.push(x)[b].0 by {
        if b == s.len() {
            assert(s.push(x)[a] == s[a]);
        }
    }
    if s.len() > 0 {
        let t = s.drop_first();
        assert forall|a: int, b: int| 0 <= a < b < t.push(x).len() implies t.push(x)[a].0 != t.push(x)[b].0 by {
            assert(t.push(x)[a] == s[a + 1]);
            if b < t.len() {
                assert(t.push(x)[b] == s[b + 1]);
            }
        }
    }
}

proof fn lemma_unique_remove(s: Seq<(u32, usize)>, i: int)
    requires
        unique_keys(s),
        0 <= i < s.len(),
    ensures
        unique_keys(s.remove(i)),
{
    let t = s.remove(i);
    assert forall|a: int, b: int| 0 <= a < b < t.len() implies t[a].0 != t[b].0 by {
        let sa = if a < i { a } else { a + 1 };
        let sb = if b < i { b } else { b + 1 };
        assert(t[a] == s[sa] && t[b] == s[sb]);
    }
}

/// Number of addresses whose accesses are counted at once.
pub const TRACKED_ADDRESSES: usize = 32;

/// Access counters for recently used addresses; the least recently used
/// address is forgotten when a new one arrives and all are in use.
pub struct AccessState {
    cache: LruCache<u32, usize, DefaultHashBuilder>,
}

impl AccessState {
    /// The counters, least recently used address first.
    pub closed spec fn counters(&self) -> Seq<(u32, usize)> {
        lru_entries(self.cache)
    }

    pub closed spec fn wf(&self) -> bool {
        &&& unique_keys(lru_entries(self.cache))
        &&& lru_capacity(self.cache) == TRACKED_ADDRESSES
        &&& lru_entries(self.cache).len() <= TRACKED_ADDRESSES
    }

    pub fn new() -> (s: AccessState)
        ensures
            s.wf(),
            s.counters() == Seq::<(u32, usize)>::empty(),
    {
        AccessState { cache: lru_with_capacity(TRACKED_ADDRESSES) }
    }

    /// Counts one more access to `address`, which becomes the most recently
    /// used address, and returns its count. A new address starts at 1 and,
    /// when every counter is in use, replaces the least recently used one.
    pub fn update(&mut self, address: u32) -> (count: usize)
        requires
            old(self).wf(),
        ensures
            final(self).wf(),
            forall|i: int|
                0 <= i < old(self).counters().len() && #[trigger] old(self).counters()[i].0 == address
                    ==> count == old(self).counters()[i].1.wrapping_add(1)
                    && final(self).counters() == old(self).counters().remove(i).push((address, count)),
            !has_key(old(self).counters(), address) && old(self).counters().len() == TRACKED_ADDRESSES
                ==> count == 1 && final(self).counters() == old(self).counters().drop_first().push((address, 1usize)),
            !has_key(old(self).counters(), address) && old(self).counters().len() < TRACKED_ADDRESSES
                ==> count == 1 && final(self).counters() == old(self).counters().push((address, 1usize)),
    {
        let ghost before = lru_entries(self.cache);
        match lru_get(&mut self.cache, address) {
            None => {
                proof {
                    lemma_unique_insert(before, (address, 1usize));
                }
                let _ = lru_put(&mut self.cache, address, 1);
                1
            },
            Some(count) => {
                let ghost i = choose|i: int| 0 <= i < before.len() && before[i].0 == address;
                let ghost moved = lru_entries(self.cache);
                let next = count.wrapping_add(1);
                proof {
                    lemma_unique_replace(before, i, before[i]);
                    assert(moved == before.remove(i).push(before[i]));
                    assert(moved[moved.len() - 1].0 == address);
                    lemma_unique_replace(moved, moved.len() - 1, (address, next));
                    lemma_unique_replace(before, i, (address, next));
                    assert(moved.remove(moved.len() - 1) =~= before.remove(i));
                }
                let _ = lru_put(&mut self.cache, address, next);
                proof {
                    assert forall|j: int| 0 <= j < before.len() && #[trigger] before[j].0 == address implies j == i by {
                        if j != i {
                            assert(unique_keys(before));
                        }
                    }
                }
                next
            },
        }
    }

    /// Forgets the counter of `address`, which must be counted.
    pub fn clear(&mut self, address: u32)
        requires
            old(self).wf(),
            has_key(old(self).counters(), address),
        ensures
            final(self).wf(),
            forall|i: int|
                0 <= i < old(self).counters().len() && #[trigger] old(self).counters()[i].0 == address
                    ==> final(self).counters() == old(self).counters().remove(i),
    {
        let ghost before = lru_entries(self.cache);
        let _ = lru_pop(&mut self.cache, address);
        proof {
            let i = choose|i: int| 0 <= i < before.len() && before[i].0 == address;
            lemma_unique_remove(before, i);
        }
    }
}

} // verus!
