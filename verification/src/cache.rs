//! In-memory cache with time-to-live and least-recently-used eviction.
//!
//! Times are readings of a monotonic clock, in nanoseconds; the caller
//! passes the current reading to every operation that depends on it.  A
//! cache is modelled as a map from keys to entries; its size never exceeds
//! its capacity (or one, for a cache of capacity zero).

use vstd::prelude::*;
use crate::error::{WebError, WebResult};
use crate::digest::{hex_lower, push_hex, sha256, sha256_digest};
use crate::strings::{concat, concat3, owned, str_eq};
use crate::time::{instant_now, nanos_since};
use vstd::utf8::encode_utf8;

verus! {

/// A cached value with its bookkeeping.
#[derive(Debug)]
pub struct CacheEntry<T> {
    pub value: T,
    pub created_at: u64,
    pub expires_at: Option<u64>,
    pub access_count: u64,
    pub last_accessed: u64,
}

/// The expiry time of an entry made at `now` with time-to-live `ttl`.
pub open spec fn expiry(now: u64, ttl: Option<u64>) -> Option<u64> {
    match ttl {
        Some(d) => Some((now + d) as u64),
        None => None,
    }
}

/// `now + ttl` is a valid clock reading.
pub open spec fn ttl_fits(now: u64, ttl: Option<u64>) -> bool {
    ttl matches Some(d) ==> now + d <= u64::MAX
}

/// One more access, as a 64-bit counter that wraps around.
pub open spec fn next_count(c: u64) -> u64 {
    if c == u64::MAX {
        0
    } else {
        (c + 1) as u64
    }
}

/// The entry a fresh write of `value` creates.
pub open spec fn fresh_entry<T>(value: T, ttl: Option<u64>, now: u64) -> CacheEntry<T> {
    CacheEntry {
        value,
        created_at: now,
        expires_at: expiry(now, ttl),
        access_count: 0,
        last_accessed: now,
    }
}

/// The entry `e` after one more access at `now`.
pub open spec fn touched<T>(e: CacheEntry<T>, now: u64) -> CacheEntry<T> {
    CacheEntry {
        value: e.value,
        created_at: e.created_at,
        expires_at: e.expires_at,
        access_count: next_count(e.access_count),
        last_accessed: now,
    }
}

impl<T> CacheEntry<T> {
    /// The entry has expired at time `now`.
    pub open spec fn expired_at(&self, now: u64) -> bool {
        match self.expires_at {
            Some(e) => now > e,
            None => false,
        }
    }

    /// A fresh entry for `value`, made at `now`, that lives for `ttl`.
    pub fn new(value: T, ttl: Option<u64>, now: u64) -> (e: Self)
        requires
            ttl_fits(now, ttl),
        ensures
            e == fresh_entry(value, ttl, now),
    {
        let expires_at = match ttl {
            Some(d) => Some(now + d),
            None => None,
        };
        CacheEntry { value, created_at: now, expires_at, access_count: 0, last_accessed: now }
    }

    /// Whether the entry has expired at time `now`.
    pub fn is_expired(&self, now: u64) -> (b: bool)
        ensures
            b == self.expired_at(now),
    {
        match self.expires_at {
            Some(e) => now > e,
            None => false,
        }
    }

    /// Records an access at time `now` and returns the value.
    pub fn access(&mut self, now: u64) -> (v: &T)
        ensures
            *final(self) == touched(*old(self), now),
            *v == old(self).value,
    {
        self.access_count = if self.access_count == u64::MAX {
            0
        } else {
            self.access_count + 1
        };
        self.last_accessed = now;
        &self.value
    }
}

/// Cache statistics.
#[derive(Debug)]
pub struct CacheStats {
    pub total_entries: usize,
    pub expired_entries: usize,
    pub total_access_count: u64,
    pub max_size: usize,
}

/// A key with its entry.
#[derive(Debug)]
pub struct CacheSlot<V> {
    pub key: String,
    pub entry: CacheEntry<V>,
}

/// No key occurs twice.
pub open spec fn keys_unique<V>(s: Seq<CacheSlot<V>>) -> bool {
    forall|i: int, j: int| 0 <= i < j < s.len() ==> s[i].key@ != s[j].key@
}

/// The map that a sequence of slots denotes.
pub open spec fn map_of<V>(s: Seq<CacheSlot<V>>) -> Map<Seq<char>, CacheEntry<V>>
    decreases s.len(),
{
    if s.len() == 0 {
        Map::empty()
    } else {
        map_of(s.drop_last()).insert(s.last().key@, s.last().entry)
    }
}

/// The most entries a cache of capacity `max_size` holds.
pub open spec fn size_bound(max_size: usize) -> nat {
    if max_size == 0 {
        1
    } else {
        max_size as nat
    }
}

/// `k` is a least recently used key of `m`.
pub open spec fn is_lru<T>(m: Map<Seq<char>, CacheEntry<T>>, k: Seq<char>) -> bool {
    &&& m.contains_key(k)
    &&& forall|k2: Seq<char>|
        #[trigger] m.contains_key(k2) ==> m[k].last_accessed <= m[k2].last_accessed
}

/// The entries of `m` that have not expired at `now`.
pub open spec fn unexpired<T>(m: Map<Seq<char>, CacheEntry<T>>, now: u64) -> Map<
    Seq<char>,
    CacheEntry<T>,
> {
    Map::new(|k: Seq<char>| m.contains_key(k) && !m[k].expired_at(now), |k: Seq<char>| m[k])
}

/// How many of the slots have expired at `now`.
pub open spec fn count_expired<V>(s: Seq<CacheSlot<V>>, now: u64) -> nat
    decreases s.len(),
{
    if s.len() == 0 {
        0
    } else {
        count_expired(s.drop_last(), now) + if s.last().entry.expired_at(now) {
            1nat
        } else {
            0nat
        }
    }
}

/// The sum of the slots' access counts, as a 64-bit counter that wraps.
pub open spec fn sum_accesses<V>(s: Seq<CacheSlot<V>>) -> u64
    decreases s.len(),
{
    if s.len() == 0 {
        0
    } else {
        vstd::wrapping::u64_specs::wrapping_add(sum_accesses(s.drop_last()), s.last().entry.access_count)
    }
}

/// The time-to-live a write uses: its own, else the cache's default.
pub open spec fn effective_ttl(ttl: Option<u64>, default_ttl: Option<u64>) -> Option<u64> {
    match ttl {
        Some(d) => Some(d),
        None => default_ttl,
    }
}

/// `after` is what a cache of capacity `capacity` holding `before` holds
/// once `entry` has been written under `key`: a new key in a full cache
/// first evicts one least recently used entry.
pub open spec fn set_result<T>(
    before: Map<Seq<char>, CacheEntry<T>>,
    capacity: usize,
    key: Seq<char>,
    entry: CacheEntry<T>,
    after: Map<Seq<char>, CacheEntry<T>>,
) -> bool {
    if !before.contains_key(key) && before.len() >= capacity && before.len() > 0 {
        exists|k: Seq<char>| is_lru(before, k) && after == before.remove(k).insert(key, entry)
    } else {
        after == before.insert(key, entry)
    }
}

/// What the slots of a uniquely keyed sequence denote.
pub proof fn lemma_map_of<V>(s: Seq<CacheSlot<V>>)
    requires
        keys_unique(s),
    ensures
        map_of(s).dom().finite(),
        map_of(s).len() == s.len(),
        forall|k: Seq<char>|
            #[trigger] map_of(s).contains_key(k) <==> exists|i: int|
                0 <= i < s.len() && (#[trigger] s[i]).key@ == k,
        forall|i: int| 0 <= i < s.len() ==> map_of(s)[(#[trigger] s[i]).key@] == s[i].entry,
    decreases s.len(),
{
    if s.len() > 0 {
        let t = s.drop_last();
        assert(keys_unique(t));
        lemma_map_of(t);
        let n = s.len() - 1;
        let k = s.last().key@;
        assert(s[n] == s.last());
        if map_of(t).contains_key(k) {
            let i = choose|i: int| 0 <= i < t.len() && (#[trigger] t[i]).key@ == k;
            assert(s[i] == t[i]);
        }
        assert forall|k2: Seq<char>|
            #[trigger] map_of(s).contains_key(k2) <==> exists|i: int|
                0 <= i < s.len() && (#[trigger] s[i]).key@ == k2 by {
            if map_of(s).contains_key(k2) {
                if k2 == k {
                    assert(s[n].key@ == k2);
                } else {
                    let i = choose|i: int| 0 <= i < t.len() && (#[trigger] t[i]).key@ == k2;
                    assert(s[i] == t[i]);
                }
            }
            if exists|i: int| 0 <= i < s.len() && (#[trigger] s[i]).key@ == k2 {
                let i = choose|i: int| 0 <= i < s.len() && (#[trigger] s[i]).key@ == k2;
                if i < n {
                    assert(t[i] == s[i]);
                }
            }
        }
        assert forall|i: int| 0 <= i < s.len() implies map_of(s)[(#[trigger] s[i]).key@]
            == s[i].entry by {
            if i < n {
                assert(t[i] == s[i]);
                assert(s[i].key@ != k);
            }
        }
    }
}

/// The keys of `m` whose entries have expired at `now`.
pub open spec fn expired_keys<T>(m: Map<Seq<char>, CacheEntry<T>>, now: u64) -> Set<Seq<char>> {
    m.dom().filter(|k: Seq<char>| m[k].expired_at(now))
}

/// The sum of the access counts of the entries of `m`, as a 64-bit
/// counter that wraps.
pub open spec fn access_sum<T>(m: Map<Seq<char>, CacheEntry<T>>) -> u64
    decreases m.dom().len(),
    when m.dom().finite()
{
    if m.dom().len() == 0 {
        0
    } else {
        let k = m.dom().choose();
        vstd::wrapping::u64_specs::wrapping_add(access_sum(m.remove(k)), m[k].access_count)
    }
}

/// An empty cache has no expired entries and no accesses.
pub proof fn lemma_empty_stats<T>(now: u64)
    ensures
        expired_keys(Map::<Seq<char>, CacheEntry<T>>::empty(), now).len() == 0,
        access_sum(Map::<Seq<char>, CacheEntry<T>>::empty()) == 0,
{
    broadcast use vstd::set::group_set_axioms;

    assert(expired_keys(Map::<Seq<char>, CacheEntry<T>>::empty(), now) =~= Set::<Seq<char>>::empty());
    assert(Map::<Seq<char>, CacheEntry<T>>::empty().dom() =~= Set::<Seq<char>>::empty());
}

/// Adding two counts to a wrapping counter gives the same in either order.
proof fn lemma_wrapping_add_swap(x: u64, a: u64, b: u64)
    ensures
        vstd::wrapping::u64_specs::wrapping_add(vstd::wrapping::u64_specs::wrapping_add(x, a), b)
            == vstd::wrapping::u64_specs::wrapping_add(vstd::wrapping::u64_specs::wrapping_add(x, b), a),
{
}

/// The access sum of a map is that of the map without any one of its
/// keys, plus that key's count.
pub proof fn lemma_access_sum_remove<T>(m: Map<Seq<char>, CacheEntry<T>>, k: Seq<char>)
    requires
        m.dom().finite(),
        m.contains_key(k),
    ensures
        access_sum(m) == vstd::wrapping::u64_specs::wrapping_add(access_sum(m.remove(k)), m[k].access_count),
    decreases m.dom().len(),
{
    broadcast use vstd::set::group_set_axioms;

    assert(m.dom().len() != 0);
    let c = m.dom().choose();
    assert(m.dom().contains(c));
    if c != k {
        lemma_access_sum_remove(m.remove(c), k);
        lemma_access_sum_remove(m.remove(k), c);
        assert(m.remove(c).remove(k) =~= m.remove(k).remove(c));
        lemma_wrapping_add_swap(access_sum(m.remove(c).remove(k)), m[k].access_count, m[c].access_count);
    }
}

/// Uniquely keyed slots: no key before the last is the last one's.
proof fn lemma_last_key_new<V>(s: Seq<CacheSlot<V>>)
    requires
        keys_unique(s),
        s.len() > 0,
    ensures
        !map_of(s.drop_last()).contains_key(s.last().key@),
        map_of(s) == map_of(s.drop_last()).insert(s.last().key@, s.last().entry),
{
    let t = s.drop_last();
    assert(keys_unique(t));
    lemma_map_of(t);
    if map_of(t).contains_key(s.last().key@) {
        let i = choose|i: int| 0 <= i < t.len() && (#[trigger] t[i]).key@ == s.last().key@;
        assert(s[i] == t[i]);
        assert(s[s.len() - 1] == s.last());
    }
}

/// The slots' access sum is the sum over the entries they denote.
proof fn lemma_sum_accesses_map<V>(s: Seq<CacheSlot<V>>)
    requires
        keys_unique(s),
    ensures
        sum_accesses(s) == access_sum(map_of(s)),
    decreases s.len(),
{
    broadcast use vstd::set::group_set_axioms;

    lemma_map_of(s);
    if s.len() == 0 {
        assert(map_of(s).dom() =~= Set::<Seq<char>>::empty());
    } else {
        let t = s.drop_last();
        assert(keys_unique(t));
        lemma_sum_accesses_map(t);
        lemma_last_key_new(s);
        let k = s.last().key@;
        lemma_access_sum_remove(map_of(s), k);
        assert(map_of(s).remove(k) =~= map_of(t));
    }
}

/// The slots' count of expired entries is the number of expired keys of
/// the entries they denote.
proof fn lemma_count_expired_map<V>(s: Seq<CacheSlot<V>>, now: u64)
    requires
        keys_unique(s),
    ensures
        expired_keys(map_of(s), now).finite(),
        count_expired(s, now) == expired_keys(map_of(s), now).len(),
    decreases s.len(),
{
    broadcast use vstd::set::group_set_axioms;

    lemma_map_of(s);
    if s.len() == 0 {
        assert(expired_keys(map_of(s), now) =~= Set::<Seq<char>>::empty());
    } else {
        let t = s.drop_last();
        assert(keys_unique(t));
        lemma_count_expired_map(t, now);
        lemma_last_key_new(s);
        let k = s.last().key@;
        if s.last().entry.expired_at(now) {
            assert(expired_keys(map_of(s), now) =~= expired_keys(map_of(t), now).insert(k));
        } else {
            assert(expired_keys(map_of(s), now) =~= expired_keys(map_of(t), now));
        }
    }
}

/// What a read of `key` at `now` answers and leaves: nothing for a
/// missing key; nothing, and the entry gone, for an expired one; otherwise
/// a clone of the value, and the entry records the access.
pub open spec fn read_outcome<V: Clone>(
    before: Map<Seq<char>, CacheEntry<V>>,
    after: Map<Seq<char>, CacheEntry<V>>,
    key: Seq<char>,
    now: u64,
    r: Option<V>,
) -> bool {
    if !before.contains_key(key) {
        r is None && after == before
    } else if before[key].expired_at(now) {
        r is None && after == before.remove(key)
    } else {
        &&& r matches Some(v) && cloned(before[key].value, v)
        &&& after == before.insert(key, touched(before[key], now))
    }
}

/// In-memory cache with time-to-live and least-recently-used eviction.
#[derive(Debug)]
pub struct MemoryCache<V> {
    slots: Vec<CacheSlot<V>>,
    max_size: usize,
    default_ttl: Option<u64>,
    origin: std::time::Instant,
}

impl<V> View for MemoryCache<V> {
    type V = Map<Seq<char>, CacheEntry<V>>;

    closed spec fn view(&self) -> Map<Seq<char>, CacheEntry<V>> {
        map_of(self.slots@)
    }
}

impl<V> MemoryCache<V> {
    /// Keys are unique and the size is within the capacity.
    pub closed spec fn wf(&self) -> bool {
        keys_unique(self.slots@) && self.slots@.len() <= size_bound(self.max_size)
    }

    /// The capacity the cache was made with.
    pub closed spec fn capacity(&self) -> usize {
        self.max_size
    }

    /// The time-to-live used when a write names none.
    pub closed spec fn ttl_default(&self) -> Option<u64> {
        self.default_ttl
    }

    /// A well-formed cache holds at most its capacity (at least one).
    pub proof fn lemma_size_bound(&self)
        requires
            self.wf(),
        ensures
            self@.len() <= size_bound(self.capacity()),
            self@.dom().finite(),
    {
        lemma_map_of(self.slots@);
    }

    /// An empty cache of capacity `max_size` whose writes live for
    /// `default_ttl` unless they name a time-to-live of their own.
    pub fn new(max_size: usize, default_ttl: Option<u64>) -> (c: Self)
        ensures
            c.wf(),
            c@ == Map::<Seq<char>, CacheEntry<V>>::empty(),
            c.capacity() == max_size,
            c.ttl_default() == default_ttl,
    {
        MemoryCache { slots: Vec::new(), max_size, default_ttl, origin: instant_now() }
    }

    /// The position of `key`, if it is cached.
    fn find(&self, key: &str) -> (r: Option<usize>)
        requires
            self.wf(),
        ensures
            match r {
                Some(i) => i < self.slots@.len() && self.slots@[i as int].key@ == key@,
                None => !self@.contains_key(key@),
            },
    {
        proof {
            lemma_map_of(self.slots@);
        }
        let mut i: usize = 0;
        while i < self.slots.len()
            invariant
                i <= self.slots@.len(),
                forall|j: int| 0 <= j < i ==> (#[trigger] self.slots@[j]).key@ != key@,
            decreases self.slots@.len() - i,
        {
            if str_eq(self.slots[i].key.as_str(), key) {
                return Some(i);
            }
            i = i + 1;
        }
        None
    }

    /// The cached value for `key`: `None` if it is missing or has expired
    /// at `now` (an expired entry is removed); otherwise a clone of the
    /// value, and the entry records the access.
    pub fn get_at(&mut self, key: &str, now: u64) -> (r: Option<V>) where V: Clone
        requires
            old(self).wf(),
        ensures
            final(self).wf(),
            final(self).capacity() == old(self).capacity(),
            final(self).ttl_default() == old(self).ttl_default(),
            !old(self)@.contains_key(key@) ==> r is None && final(self)@ == old(self)@,
            old(self)@.contains_key(key@) && old(self)@[key@].expired_at(now) ==> r is None
                && final(self)@ == old(self)@.remove(key@),
            old(self)@.contains_key(key@) && !old(self)@[key@].expired_at(now) ==> {
                &&& r matches Some(v) && cloned(old(self)@[key@].value, v)
                &&& final(self)@ == old(self)@.insert(key@, touched(old(self)@[key@], now))
            },
    {
        proof {
            lemma_map_of(self.slots@);
        }
        match self.find(key) {
            None => None,
            Some(i) => {
                let ghost old_slots = self.slots@;
                let mut slot = self.slots.remove(i);
                if slot.entry.is_expired(now) {
                    proof {
                        self.lemma_remove_at(old_slots, i as int);
                    }
                    None
                } else {
                    let v = slot.entry.access(now).clone();
                    self.slots.insert(i, slot);
                    proof {
                        self.lemma_update_at(old_slots, i as int);
                    }
                    Some(v)
                }
            }
        }
    }

    /// Removing the slot at `i` removes its key.
    proof fn lemma_remove_at(&self, old_slots: Seq<CacheSlot<V>>, i: int)
        requires
            keys_unique(old_slots),
            0 <= i < old_slots.len(),
            self.slots@ == old_slots.remove(i),
        ensures
            keys_unique(self.slots@),
            map_of(self.slots@) == map_of(old_slots).remove(old_slots[i].key@),
    {
        let s = self.slots@;
        assert(keys_unique(s)) by {
            assert forall|a: int, b: int| 0 <= a < b < s.len() implies s[a].key@ != s[b].key@ by {
                let oa = if a < i { a } else { a + 1 };
                let ob = if b < i { b } else { b + 1 };
                assert(s[a] == old_slots[oa]);
                assert(s[b] == old_slots[ob]);
            }
        }
        lemma_map_of(old_slots);
        lemma_map_of(s);
        let k = old_slots[i].key@;
        assert(map_of(s) =~= map_of(old_slots).remove(k)) by {
            assert forall|k2: Seq<char>| #[trigger] map_of(s).contains_key(k2) <==> map_of(
                old_slots,
            ).remove(k).contains_key(k2) by {
                if map_of(s).contains_key(k2) {
                    let a = choose|a: int| 0 <= a < s.len() && (#[trigger] s[a]).key@ == k2;
                    let oa = if a < i { a } else { a + 1 };
                    assert(s[a] == old_slots[oa]);
                }
                if map_of(old_slots).remove(k).contains_key(k2) {
                    let oa = choose|oa: int|
                        0 <= oa < old_slots.len() && (#[trigger] old_slots[oa]).key@ == k2;
                    assert(oa != i);
                    let a = if oa < i { oa } else { oa - 1 };
                    assert(s[a] == old_slots[oa]);
                }
            }
            assert forall|k2: Seq<char>| #[trigger] map_of(s).contains_key(k2) implies map_of(
                s,
            )[k2] == map_of(old_slots).remove(k)[k2] by {
                let a = choose|a: int| 0 <= a < s.len() && (#[trigger] s[a]).key@ == k2;
                let oa = if a < i { a } else { a + 1 };
                assert(s[a] == old_slots[oa]);
            }
        }
    }

    /// Putting back at `i` a slot with the same key updates that key's entry.
    proof fn lemma_update_at(&self, old_slots: Seq<CacheSlot<V>>, i: int)
        requires
            keys_unique(old_slots),
            0 <= i < old_slots.len(),
            self.slots@.len() == old_slots.len(),
            self.slots@[i].key@ == old_slots[i].key@,
            forall|j: int| 0 <= j < old_slots.len() && j != i ==> self.slots@[j] == old_slots[j],
        ensures
            keys_unique(self.slots@),
            map_of(self.slots@) == map_of(old_slots).insert(
                old_slots[i].key@,
                self.slots@[i].entry,
            ),
    {
        let s = self.slots@;
        assert(keys_unique(s)) by {
            assert forall|a: int, b: int| 0 <= a < b < s.len() implies s[a].key@ != s[b].key@ by {
                assert(s[a].key@ == old_slots[a].key@);
                assert(s[b].key@ == old_slots[b].key@);
            }
        }
        lemma_map_of(old_slots);
        lemma_map_of(s);
        let k = old_slots[i].key@;
        let m = map_of(old_slots).insert(k, s[i].entry);
        assert(map_of(s) =~= m) by {
            assert forall|k2: Seq<char>| #[trigger] map_of(s).contains_key(k2) <==> m.contains_key(
                k2,
            ) by {
                if map_of(s).contains_key(k2) {
                    let a = choose|a: int| 0 <= a < s.len() && (#[trigger] s[a]).key@ == k2;
                    assert(old_slots[a].key@ == k2);
                }
                if map_of(old_slots).contains_key(k2) {
                    let a = choose|a: int|
                        0 <= a < old_slots.len() && (#[trigger] old_slots[a]).key@ == k2;
                    assert(s[a].key@ == k2);
                }
                assert(s[i].key@ == k);
            }
            assert forall|k2: Seq<char>| #[trigger] map_of(s).contains_key(k2) implies map_of(
                s,
            )[k2] == m[k2] by {
                let a = choose|a: int| 0 <= a < s.len() && (#[trigger] s[a]).key@ == k2;
                if a != i {
                    assert(s[a] == old_slots[a]);
                    assert(k2 != k);
                }
            }
        }
    }

    /// Removes `key` and returns its value, if it was cached.
    pub fn remove(&mut self, key: &str) -> (r: Option<V>)
        requires
            old(self).wf(),
        ensures
            final(self).wf(),
            final(self).capacity() == old(self).capacity(),
            final(self).ttl_default() == old(self).ttl_default(),
            final(self)@ == old(self)@.remove(key@),
            r == (if old(self)@.contains_key(key@) {
                Some(old(self)@[key@].value)
            } else {
                None
            }),
    {
        proof {
            lemma_map_of(self.slots@);
        }
        match self.find(key) {
            None => {
                assert(self@ =~= self@.remove(key@));
                None
            },
            Some(i) => {
                let ghost old_slots = self.slots@;
                let slot = self.slots.remove(i);
                proof {
                    self.lemma_remove_at(old_slots, i as int);
                }
                Some(slot.entry.value)
            },
        }
    }

    /// Removes every entry.
    pub fn clear(&mut self)
        requires
            old(self).wf(),
        ensures
            final(self).wf(),
            final(self).capacity() == old(self).capacity(),
            final(self).ttl_default() == old(self).ttl_default(),
            final(self)@ == Map::<Seq<char>, CacheEntry<V>>::empty(),
    {
        self.slots.clear();
        assert(self@ =~= Map::<Seq<char>, CacheEntry<V>>::empty());
    }

    /// The number of cached entries.
    pub fn size(&self) -> (n: usize)
        requires
            self.wf(),
        ensures
            n == self@.len(),
    {
        proof {
            lemma_map_of(self.slots@);
        }
        self.slots.len()
    }

    /// Counts of entries, expired entries and accesses at time `now`.
    pub fn stats_at(&self, now: u64) -> (st: CacheStats)
        requires
            self.wf(),
        ensures
            st.total_entries == self@.len(),
            st.expired_entries == expired_keys(self@, now).len(),
            st.total_access_count == access_sum(self@),
            st.max_size == self.capacity(),
    {
        proof {
            lemma_map_of(self.slots@);
            lemma_count_expired_map(self.slots@, now);
            lemma_sum_accesses_map(self.slots@);
        }
        let mut total_access_count: u64 = 0;
        let mut expired_count: usize = 0;
        let mut i: usize = 0;
        while i < self.slots.len()
            invariant
                i <= self.slots@.len(),
                total_access_count == sum_accesses(self.slots@.take(i as int)),
                expired_count == count_expired(self.slots@.take(i as int), now),
                expired_count <= i,
            decreases self.slots@.len() - i,
        {
            let e = &self.slots[i].entry;
            assert(self.slots@.take(i + 1).drop_last() =~= self.slots@.take(i as int));
            total_access_count = total_access_count.wrapping_add(e.access_count);
            if e.is_expired(now) {
                expired_count = expired_count + 1;
            }
            i = i + 1;
        }
        assert(self.slots@.take(self.slots@.len() as int) =~= self.slots@);
        CacheStats {
            total_entries: self.slots.len(),
            expired_entries: expired_count,
            total_access_count,
            max_size: self.max_size,
        }
    }

    /// Removes one least recently used entry, if there is any.
    fn evict_lru(&mut self)
        requires
            old(self).wf(),
        ensures
            final(self).wf(),
            final(self).capacity() == old(self).capacity(),
            final(self).ttl_default() == old(self).ttl_default(),
            old(self)@.len() == 0 ==> final(self)@ == old(self)@,
            old(self)@.len() > 0 ==> exists|k: Seq<char>|
                is_lru(old(self)@, k) && final(self)@ == old(self)@.remove(k),
            final(self).slots@.len() == if old(self).slots@.len() == 0 {
                0
            } else {
                old(self).slots@.len() - 1
            },
    {
        proof {
            lemma_map_of(self.slots@);
        }
        if self.slots.len() == 0 {
            return;
        }
        let mut best: usize = 0;
        let mut i: usize = 1;
        while i < self.slots.len()
            invariant
                1 <= i <= self.slots@.len(),
                best < i,
                forall|j: int|
                    0 <= j < i ==> self.slots@[best as int].entry.last_accessed <= (#[trigger] self.slots@[j]).entry.last_accessed,
            decreases self.slots@.len() - i,
        {
            if self.slots[i].entry.last_accessed < self.slots[best].entry.last_accessed {
                best = i;
            }
            i = i + 1;
        }
        let ghost old_slots = self.slots@;
        let ghost old_map = self@;
        let ghost k = old_slots[best as int].key@;
        proof {
            assert forall|k2: Seq<char>| #[trigger] old_map.contains_key(k2) implies old_map[k].last_accessed
                <= old_map[k2].last_accessed by {
                let j = choose|j: int| 0 <= j < old_slots.len() && (#[trigger] old_slots[j]).key@ == k2;
                assert(old_map[old_slots[j].key@] == old_slots[j].entry);
                assert(old_map[old_slots[best as int].key@] == old_slots[best as int].entry);
            }
            assert(old_map.contains_key(k)) by {
                assert(old_slots[best as int].key@ == k);
            }
        }
        let _slot = self.slots.remove(best);
        proof {
            self.lemma_remove_at(old_slots, best as int);
            assert(is_lru(old_map, k));
        }
    }

    /// Stores `value` under `key` for `ttl` (or the default time-to-live).
    /// A new key in a full cache first evicts a least recently used entry.
    pub fn set_at(&mut self, key: String, value: V, ttl: Option<u64>, now: u64) -> (r: WebResult<()>)
        requires
            old(self).wf(),
            ttl_fits(now, effective_ttl(ttl, old(self).ttl_default())),
        ensures
            r is Ok,
            final(self).wf(),
            final(self).capacity() == old(self).capacity(),
            final(self).ttl_default() == old(self).ttl_default(),
            set_result(
                old(self)@,
                old(self).capacity(),
                key@,
                fresh_entry(value, effective_ttl(ttl, old(self).ttl_default()), now),
                final(self)@,
            ),
    {
        proof {
            lemma_map_of(self.slots@);
        }
        let ghost old_map = self@;
        let pos = self.find(key.as_str());
        if pos.is_none() && self.slots.len() >= self.max_size {
            self.evict_lru();
        }
        let effective = match ttl {
            Some(d) => Some(d),
            None => self.default_ttl,
        };
        let entry = CacheEntry::new(value, effective, now);
        let ghost mid_map = self@;
        let ghost mid_slots = self.slots@;
        proof {
            lemma_map_of(mid_slots);
        }
        match pos {
            Some(i) => {
                let _old = self.slots.remove(i);
                self.slots.insert(i, CacheSlot { key, entry });
                proof {
                    self.lemma_update_at(mid_slots, i as int);
                }
            },
            None => {
                let ghost kv = key@;
                self.slots.push(CacheSlot { key, entry });
                proof {
                    assert(!mid_map.contains_key(kv));
                    assert(self.slots@.drop_last() =~= mid_slots);
                    assert(keys_unique(self.slots@)) by {
                        assert forall|a: int, b: int|
                            0 <= a < b < self.slots@.len() implies self.slots@[a].key@
                            != self.slots@[b].key@ by {
                            if b == mid_slots.len() {
                                assert(self.slots@[a] == mid_slots[a]);
                            } else {
                                assert(self.slots@[a] == mid_slots[a]);
                                assert(self.slots@[b] == mid_slots[b]);
                            }
                        }
                    }
                }
            },
        }
        Ok(())
    }

    /// Removes every entry that has expired at `now`; returns how many.
    pub fn remove_expired_at(&mut self, now: u64) -> (removed: usize)
        requires
            old(self).wf(),
        ensures
            final(self).wf(),
            final(self).capacity() == old(self).capacity(),
            final(self).ttl_default() == old(self).ttl_default(),
            final(self)@ == unexpired(old(self)@, now),
            removed == old(self)@.len() - final(self)@.len(),
    {
        proof {
            lemma_map_of(self.slots@);
        }
        let ghost old_map = self@;
        let old_len = self.slots.len();
        let mut i: usize = 0;
        while i < self.slots.len()
            invariant
                self.wf(),
                self.max_size == old(self).max_size,
                self.default_ttl == old(self).default_ttl,
                i <= self.slots@.len(),
                self.slots@.len() <= old_len,
                forall|j: int| 0 <= j < i ==> !(#[trigger] self.slots@[j]).entry.expired_at(now),
                unexpired(self@, now) == unexpired(old_map, now),
                forall|k: Seq<char>| #[trigger] self@.contains_key(k) ==> old_map.contains_key(k) && self@[k] == old_map[k],
                forall|k: Seq<char>| #[trigger] old_map.contains_key(k) && !old_map[k].expired_at(now) ==> self@.contains_key(k),
            decreases self.slots@.len() - i,
        {
            if self.slots[i].entry.is_expired(now) {
                let ghost before = self.slots@;
                let ghost before_map = self@;
                let _gone = self.slots.remove(i);
                proof {
                    self.lemma_remove_at(before, i as int);
                    lemma_map_of(before);
                    let k = before[i as int].key@;
                    assert(before_map[k] == before[i as int].entry);
                    assert(unexpired(self@, now) =~= unexpired(before_map, now));
                    assert forall|j: int| 0 <= j < i implies !(#[trigger] self.slots@[j]).entry.expired_at(now) by {
                        assert(self.slots@[j] == before[j]);
                    }
                }
            } else {
                i = i + 1;
            }
        }
        proof {
            lemma_map_of(self.slots@);
            assert(self@ =~= unexpired(old_map, now)) by {
                assert forall|k: Seq<char>| #[trigger] self@.contains_key(k) implies !self@[k].expired_at(now) by {
                    let j = choose|j: int| 0 <= j < self.slots@.len() && (#[trigger] self.slots@[j]).key@ == k;
                    assert(self@[self.slots@[j].key@] == self.slots@[j].entry);
                }
            }
            lemma_map_of(old(self).slots@);
        }
        old_len - self.slots.len()
    }

    /// The cache's clock: nanoseconds since the cache was made.
    fn clock(&self) -> u64 {
        nanos_since(&self.origin)
    }

    /// The cached value for `key` now (as `get_at` with the cache's
    /// clock).
    pub fn get(&mut self, key: &str) -> (r: Option<V>) where V: Clone
        requires
            old(self).wf(),
        ensures
            final(self).wf(),
            final(self).capacity() == old(self).capacity(),
            final(self).ttl_default() == old(self).ttl_default(),
            exists|now: u64| read_outcome(old(self)@, final(self)@, key@, now, r),
    {
        let now = self.clock();
        let r = self.get_at(key, now);
        assert(read_outcome(old(self)@, self@, key@, now, r));
        r
    }

    /// Stores `value` under `key` now (as `set_at` with the cache's clock).
    /// A time-to-live that would run past the clock's range is refused,
    /// and nothing changes.
    pub fn set(&mut self, key: String, value: V, ttl: Option<u64>) -> (r: WebResult<()>)
        requires
            old(self).wf(),
        ensures
            final(self).wf(),
            final(self).capacity() == old(self).capacity(),
            final(self).ttl_default() == old(self).ttl_default(),
            exists|now: u64|
                {
                    &&& ttl_fits(now, effective_ttl(ttl, old(self).ttl_default())) ==> r is Ok && set_result(
                        old(self)@,
                        old(self).capacity(),
                        key@,
                        fresh_entry(value, effective_ttl(ttl, old(self).ttl_default()), now),
                        final(self)@,
                    )
                    &&& !ttl_fits(now, effective_ttl(ttl, old(self).ttl_default())) ==> r is Err
                        && final(self)@ == old(self)@
                },
    {
        let now = self.clock();
        let effective = match ttl {
            Some(d) => Some(d),
            None => self.default_ttl,
        };
        match effective {
            Some(d) => {
                if d > u64::MAX - now {
                    assert(!ttl_fits(now, effective_ttl(ttl, old(self).ttl_default())));
                    return Err(WebError::Internal(owned("time-to-live out of range")));
                }
            },
            None => {},
        }
        let ghost k = key@;
        let ghost entry = fresh_entry(value, effective_ttl(ttl, old(self).ttl_default()), now);
        let r = self.set_at(key, value, ttl, now);
        assert(set_result(old(self)@, old(self).capacity(), k, entry, self@));
        r
    }

    /// Counts of entries, expired entries and accesses now (as `stats_at`
    /// with the cache's clock).
    pub fn stats(&self) -> (st: CacheStats)
        requires
            self.wf(),
        ensures
            st.total_entries == self@.len(),
            exists|now: u64| st.expired_entries == expired_keys(self@, now).len(),
            st.total_access_count == access_sum(self@),
            st.max_size == self.capacity(),
    {
        let now = self.clock();
        let st = self.stats_at(now);
        assert(st.expired_entries == expired_keys(self@, now).len());
        st
    }

    /// Removes every entry that has expired now (as `remove_expired_at`
    /// with the cache's clock); returns how many.
    pub fn remove_expired(&mut self) -> (removed: usize)
        requires
            old(self).wf(),
        ensures
            final(self).wf(),
            final(self).capacity() == old(self).capacity(),
            final(self).ttl_default() == old(self).ttl_default(),
            exists|now: u64| final(self)@ == unexpired(old(self)@, now),
            removed == old(self)@.len() - final(self)@.len(),
    {
        let now = self.clock();
        let removed = self.remove_expired_at(now);
        assert(self@ == unexpired(old(self)@, now));
        removed
    }
}

/// `st` are the statistics of `c` at some reading of its clock.
pub open spec fn describes<V>(st: CacheStats, c: MemoryCache<V>) -> bool {
    &&& st.total_entries == c@.len()
    &&& exists|now: u64| st.expired_entries == expired_keys(c@, now).len()
    &&& st.total_access_count == access_sum(c@)
    &&& st.max_size == c.capacity()
}

/// Application-specific cache manager.  `R` is the repository information
/// the application layer provides and `W` the wiki content it stores.
#[derive(Debug)]
pub struct CacheManager<R, W> {
    /// Cache for repository information
    pub repositories: MemoryCache<R>,
    /// Cache for chat responses
    pub chat_responses: MemoryCache<String>,
    /// Cache for wiki content
    pub wiki_content: MemoryCache<W>,
    /// Cache for file content
    pub file_content: MemoryCache<String>,
}

/// Nanoseconds in one second.
pub const NANOS_PER_SECOND: u64 = 1_000_000_000;

impl<R, W> CacheManager<R, W> {
    /// All four caches are well formed.
    pub open spec fn wf(&self) -> bool {
        &&& self.repositories.wf()
        &&& self.chat_responses.wf()
        &&& self.wiki_content.wf()
        &&& self.file_content.wf()
    }

    /// Empty caches: repositories (100 entries, one hour), chat responses
    /// (1000, thirty minutes), wiki content (50, two hours) and file content
    /// (500, ten minutes).
    pub fn new() -> (m: Self)
        ensures
            m.wf(),
            m.repositories@.len() == 0 && m.repositories.capacity() == 100
                && m.repositories.ttl_default() == Some((3600 * NANOS_PER_SECOND) as u64),
            m.chat_responses@.len() == 0 && m.chat_responses.capacity() == 1000
                && m.chat_responses.ttl_default() == Some((1800 * NANOS_PER_SECOND) as u64),
            m.wiki_content@.len() == 0 && m.wiki_content.capacity() == 50
                && m.wiki_content.ttl_default() == Some((7200 * NANOS_PER_SECOND) as u64),
            m.file_content@.len() == 0 && m.file_content.capacity() == 500
                && m.file_content.ttl_default() == Some((600 * NANOS_PER_SECOND) as u64),
    {
        CacheManager {
            repositories: MemoryCache::new(100, Some(3600 * NANOS_PER_SECOND)),
            chat_responses: MemoryCache::new(1000, Some(1800 * NANOS_PER_SECOND)),
            wiki_content: MemoryCache::new(50, Some(7200 * NANOS_PER_SECOND)),
            file_content: MemoryCache::new(500, Some(600 * NANOS_PER_SECOND)),
        }
    }

    /// The statistics of each cache, under its name.
    pub fn get_overall_stats(&self) -> (stats: Vec<(String, CacheStats)>)
        requires
            self.wf(),
        ensures
            stats@.len() == 4,
            stats@[0].0@ == "repositories"@ && describes(stats@[0].1, self.repositories),
            stats@[1].0@ == "chat_responses"@ && describes(stats@[1].1, self.chat_responses),
            stats@[2].0@ == "wiki_content"@ && describes(stats@[2].1, self.wiki_content),
            stats@[3].0@ == "file_content"@ && describes(stats@[3].1, self.file_content),
    {
        let mut stats: Vec<(String, CacheStats)> = Vec::new();
        stats.push((owned("repositories"), self.repositories.stats()));
        stats.push((owned("chat_responses"), self.chat_responses.stats()));
        stats.push((owned("wiki_content"), self.wiki_content.stats()));
        stats.push((owned("file_content"), self.file_content.stats()));
        stats
    }

    /// Empties every cache.
    pub fn clear_all(&mut self)
        requires
            old(self).wf(),
        ensures
            final(self).wf(),
            final(self).repositories@.len() == 0,
            final(self).chat_responses@.len() == 0,
            final(self).wiki_content@.len() == 0,
            final(self).file_content@.len() == 0,
    {
        self.repositories.clear();
        self.chat_responses.clear();
        self.wiki_content.clear();
        self.file_content.clear();
    }
}


// ---------------------------------------------------------------------
// Laws
// ---------------------------------------------------------------------

/// A value written under a key is what that key holds afterwards, and a
/// read finds it until the write's time-to-live has passed.
pub proof fn law_read_after_write<T>(
    before: Map<Seq<char>, CacheEntry<T>>,
    capacity: usize,
    key: Seq<char>,
    value: T,
    ttl: Option<u64>,
    now: u64,
    after: Map<Seq<char>, CacheEntry<T>>,
    later: u64,
)
    requires
        set_result(before, capacity, key, fresh_entry(value, ttl, now), after),
        !fresh_entry(value, ttl, now).expired_at(later),
    ensures
        after.contains_key(key),
        after[key].value == value,
        !after[key].expired_at(later),
{
}

/// A write never makes a cache hold more than its capacity (or one entry,
/// for a cache of capacity zero).
pub proof fn law_capacity_respected<T>(
    before: Map<Seq<char>, CacheEntry<T>>,
    capacity: usize,
    key: Seq<char>,
    entry: CacheEntry<T>,
    after: Map<Seq<char>, CacheEntry<T>>,
)
    requires
        before.dom().finite(),
        before.len() <= size_bound(capacity),
        set_result(before, capacity, key, entry, after),
    ensures
        after.dom().finite(),
        after.len() <= size_bound(capacity),
{
    if !before.contains_key(key) && before.len() >= capacity && before.len() > 0 {
        let k = choose|k: Seq<char>| is_lru(before, k) && after == before.remove(k).insert(key, entry);
        assert(before.remove(k).len() == before.len() - 1);
        assert(!before.remove(k).contains_key(key));
        assert(after.len() == before.remove(k).len() + 1);
    } else if before.contains_key(key) {
        assert(after.dom() =~= before.dom());
    } else {
        assert(after.len() == before.len() + 1);
    }
}

/// The only entry a write ever drops is a least recently used one.
pub proof fn law_only_lru_evicted<T>(
    before: Map<Seq<char>, CacheEntry<T>>,
    capacity: usize,
    key: Seq<char>,
    entry: CacheEntry<T>,
    after: Map<Seq<char>, CacheEntry<T>>,
    k: Seq<char>,
)
    requires
        set_result(before, capacity, key, entry, after),
        before.contains_key(k),
        !after.contains_key(k),
    ensures
        is_lru(before, k),
{
    if !before.contains_key(key) && before.len() >= capacity && before.len() > 0 {
        let k2 = choose|k2: Seq<char>| is_lru(before, k2) && after == before.remove(k2).insert(key, entry);
        assert(k == k2);
    }
}

/// A removed key is not found again.
pub proof fn law_remove_then_miss<T>(m: Map<Seq<char>, CacheEntry<T>>, key: Seq<char>)
    ensures
        !m.remove(key).contains_key(key),
{
}

/// Removing expired entries keeps exactly the entries that are still live.
pub proof fn law_cleanup_keeps_live<T>(m: Map<Seq<char>, CacheEntry<T>>, now: u64, key: Seq<char>)
    ensures
        unexpired(m, now).contains_key(key) <==> (m.contains_key(key) && !m[key].expired_at(now)),
        unexpired(m, now).contains_key(key) ==> unexpired(m, now)[key] == m[key],
{
}


// ---------------------------------------------------------------------
// Cache key generators
// ---------------------------------------------------------------------

/// The key for a repository's information: `repo:<url>`.
pub fn repository_key(repo_url: &str) -> (k: String)
    ensures
        k@ == "repo:"@ + repo_url@,
{
    concat("repo:", repo_url)
}

/// The key for a chat answer: `chat:` and the hex SHA-256 digest of
/// `<session_id>:<question>` in UTF-8.
pub fn chat_key(session_id: &str, question: &str) -> (k: String)
    ensures
        k@ == "chat:"@ + hex_lower(sha256(encode_utf8(session_id@ + ":"@ + question@))),
{
    let joined = concat3(session_id, ":", question);
    let digest = sha256_digest(joined.as_str().as_bytes());
    let mut k = owned("chat:");
    push_hex(&mut k, digest.as_slice());
    k
}

/// The key for generated wiki content: `wiki:<session_id>:<config_hash>`.
pub fn wiki_key(session_id: &str, config_hash: &str) -> (k: String)
    ensures
        k@ == "wiki:"@ + session_id@ + ":"@ + config_hash@,
{
    let head = concat3("wiki:", session_id, ":");
    concat(head.as_str(), config_hash)
}

/// The key for file content: `file:` and the hex SHA-256 digest of
/// `<repo_path>:<file_path>` in UTF-8.
pub fn file_key(repo_path: &str, file_path: &str) -> (k: String)
    ensures
        k@ == "file:"@ + hex_lower(sha256(encode_utf8(repo_path@ + ":"@ + file_path@))),
{
    let joined = concat3(repo_path, ":", file_path);
    let digest = sha256_digest(joined.as_str().as_bytes());
    let mut k = owned("file:");
    push_hex(&mut k, digest.as_slice());
    k
}

/// A write that names its own time-to-live `d` stores an entry that
/// expires at the write's time plus `d`, whatever the cache's default: the
/// entry is live at every later time up to `now + d` and expired after it.
/// Only a write with no time-to-live of its own takes the default (and an
/// entry with neither never expires).
pub proof fn law_write_uses_its_own_ttl<T>(
    before: Map<Seq<char>, CacheEntry<T>>,
    capacity: usize,
    key: Seq<char>,
    value: T,
    ttl: Option<u64>,
    default_ttl: Option<u64>,
    now: u64,
    after: Map<Seq<char>, CacheEntry<T>>,
)
    requires
        set_result(before, capacity, key, fresh_entry(value, effective_ttl(ttl, default_ttl), now), after),
    ensures
        after.contains_key(key),
        after[key].value == value,
        after[key].created_at == now,
        ttl matches Some(d) ==> after[key].expires_at == Some((now + d) as u64),
        forall|t: u64|
            ttl is Some && now + ttl->0 <= u64::MAX ==> (#[trigger] after[key].expired_at(t) <==> t
                > now + ttl->0),
        ttl is None ==> after[key].expires_at == match default_ttl {
            Some(d) => Some((now + d) as u64),
            None => None::<u64>,
        },
        ttl is None && default_ttl is None ==> forall|t: u64| !#[trigger] after[key].expired_at(t),
{
    let entry = fresh_entry(value, effective_ttl(ttl, default_ttl), now);
    if !before.contains_key(key) && before.len() >= capacity && before.len() > 0 {
        let k = choose|k: Seq<char>| is_lru(before, k) && after == before.remove(k).insert(key, entry);
        assert(after == before.remove(k).insert(key, entry));
    }
    assert(after[key] == entry);
}

} // verus!
