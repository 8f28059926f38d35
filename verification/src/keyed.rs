//! A map from strings to values, kept as a list of distinct keys with their
//! values.  It is the storage of the in-memory stores: its view is a `Map`
//! and its items can also be visited in order.

use vstd::prelude::*;
use crate::strings::str_eq;

verus! {

/// No key occurs twice.
pub open spec fn unique_keys<V>(s: Seq<(String, V)>) -> bool {
    forall|i: int, j: int| 0 <= i < j < s.len() ==> s[i].0@ != s[j].0@
}

/// The map that a list of keyed items denotes.
pub open spec fn keyed_map<V>(s: Seq<(String, V)>) -> Map<Seq<char>, V>
    decreases s.len(),
{
    if s.len() == 0 {
        Map::empty()
    } else {
        keyed_map(s.drop_last()).insert(s.last().0@, s.last().1)
    }
}

/// What the items of a uniquely keyed list denote.
pub proof fn lemma_keyed_map<V>(s: Seq<(String, V)>)
    requires
        unique_keys(s),
    ensures
        keyed_map(s).dom().finite(),
        keyed_map(s).len() == s.len(),
        forall|k: Seq<char>|
            #[trigger] keyed_map(s).contains_key(k) <==> exists|i: int|
                0 <= i < s.len() && (#[trigger] s[i]).0@ == k,
        forall|i: int| 0 <= i < s.len() ==> keyed_map(s)[(#[trigger] s[i]).0@] == s[i].1,
    decreases s.len(),
{
    if s.len() > 0 {
        let t = s.drop_last();
        assert(unique_keys(t));
        lemma_keyed_map(t);
        let n = s.len() - 1;
        let k = s.last().0@;
        assert(s[n] == s.last());
        if keyed_map(t).contains_key(k) {
            let i = choose|i: int| 0 <= i < t.len() && (#[trigger] t[i]).0@ == k;
            assert(s[i] == t[i]);
        }
        assert forall|k2: Seq<char>|
            #[trigger] keyed_map(s).contains_key(k2) <==> exists|i: int|
                0 <= i < s.len() && (#[trigger] s[i]).0@ == k2 by {
            if keyed_map(s).contains_key(k2) {
                if k2 == k {
                    assert(s[n].0@ == k2);
                } else {
                    let i = choose|i: int| 0 <= i < t.len() && (#[trigger] t[i]).0@ == k2;
                    assert(s[i] == t[i]);
                }
            }
            if exists|i: int| 0 <= i < s.len() && (#[trigger] s[i]).0@ == k2 {
                let i = choose|i: int| 0 <= i < s.len() && (#[trigger] s[i]).0@ == k2;
                if i < n {
                    assert(t[i] == s[i]);
                }
            }
        }
        assert forall|i: int| 0 <= i < s.len() implies keyed_map(s)[(#[trigger] s[i]).0@]
            == s[i].1 by {
            if i < n {
                assert(t[i] == s[i]);
                assert(s[i].0@ != k);
            }
        }
    }
}

/// Removing the item at `i` removes its key.
pub proof fn lemma_keyed_remove<V>(s: Seq<(String, V)>, i: int)
    requires
        unique_keys(s),
        0 <= i < s.len(),
    ensures
        unique_keys(s.remove(i)),
        keyed_map(s.remove(i)) == keyed_map(s).remove(s[i].0@),
{
    let r = s.remove(i);
    assert(unique_keys(r)) by {
        assert forall|a: int, b: int| 0 <= a < b < r.len() implies r[a].0@ != r[b].0@ by {
            let oa = if a < i { a } else { a + 1 };
            let ob = if b < i { b } else { b + 1 };
            assert(r[a] == s[oa]);
            assert(r[b] == s[ob]);
        }
    }
    lemma_keyed_map(s);
    lemma_keyed_map(r);
    let k = s[i].0@;
    assert(keyed_map(r) =~= keyed_map(s).remove(k)) by {
        assert forall|k2: Seq<char>| #[trigger] keyed_map(r).contains_key(k2) <==> keyed_map(
            s,
        ).remove(k).contains_key(k2) by {
            if keyed_map(r).contains_key(k2) {
                let a = choose|a: int| 0 <= a < r.len() && (#[trigger] r[a]).0@ == k2;
                let oa = if a < i { a } else { a + 1 };
                assert(r[a] == s[oa]);
            }
            if keyed_map(s).remove(k).contains_key(k2) {
                let oa = choose|oa: int| 0 <= oa < s.len() && (#[trigger] s[oa]).0@ == k2;
                assert(oa != i);
                let a = if oa < i { oa } else { oa - 1 };
                assert(r[a] == s[oa]);
            }
        }
        assert forall|k2: Seq<char>| #[trigger] keyed_map(r).contains_key(k2) implies keyed_map(
            r,
        )[k2] == keyed_map(s).remove(k)[k2] by {
            let a = choose|a: int| 0 <= a < r.len() && (#[trigger] r[a]).0@ == k2;
            let oa = if a < i { a } else { a + 1 };
            assert(r[a] == s[oa]);
        }
    }
}

/// Replacing the item at `i` by one with the same key updates its value.
pub proof fn lemma_keyed_update<V>(s: Seq<(String, V)>, i: int, item: (String, V))
    requires
        unique_keys(s),
        0 <= i < s.len(),
        item.0@ == s[i].0@,
    ensures
        unique_keys(s.update(i, item)),
        keyed_map(s.update(i, item)) == keyed_map(s).insert(item.0@, item.1),
{
    let r = s.update(i, item);
    assert(unique_keys(r)) by {
        assert forall|a: int, b: int| 0 <= a < b < r.len() implies r[a].0@ != r[b].0@ by {
            assert(r[a].0@ == s[a].0@);
            assert(r[b].0@ == s[b].0@);
        }
    }
    lemma_keyed_map(s);
    lemma_keyed_map(r);
    let k = item.0@;
    let m = keyed_map(s).insert(k, item.1);
    assert(keyed_map(r) =~= m) by {
        assert forall|k2: Seq<char>| #[trigger] keyed_map(r).contains_key(k2) <==> m.contains_key(
            k2,
        ) by {
            if keyed_map(r).contains_key(k2) {
                let a = choose|a: int| 0 <= a < r.len() && (#[trigger] r[a]).0@ == k2;
                assert(s[a].0@ == k2);
            }
            if keyed_map(s).contains_key(k2) {
                let a = choose|a: int| 0 <= a < s.len() && (#[trigger] s[a]).0@ == k2;
                assert(r[a].0@ == k2);
            }
            assert(r[i].0@ == k);
        }
        assert forall|k2: Seq<char>| #[trigger] keyed_map(r).contains_key(k2) implies keyed_map(
            r,
        )[k2] == m[k2] by {
            let a = choose|a: int| 0 <= a < r.len() && (#[trigger] r[a]).0@ == k2;
            if a != i {
                assert(r[a] == s[a]);
                assert(k2 != k);
            }
        }
    }
}

/// Adding an item with a new key adds that key.
pub proof fn lemma_keyed_push<V>(s: Seq<(String, V)>, item: (String, V))
    requires
        unique_keys(s),
        !keyed_map(s).contains_key(item.0@),
    ensures
        unique_keys(s.push(item)),
        keyed_map(s.push(item)) == keyed_map(s).insert(item.0@, item.1),
{
    let r = s.push(item);
    lemma_keyed_map(s);
    assert(r.drop_last() =~= s);
    assert(unique_keys(r)) by {
        assert forall|a: int, b: int| 0 <= a < b < r.len() implies r[a].0@ != r[b].0@ by {
            assert(r[a] == s[a]);
            if b < s.len() {
                assert(r[b] == s[b]);
            }
        }
    }
}

/// A map from strings to values, kept as a list of distinct keys.
#[derive(Debug)]
pub struct KeyedList<V> {
    items: Vec<(String, V)>,
}

impl<V> View for KeyedList<V> {
    type V = Map<Seq<char>, V>;

    closed spec fn view(&self) -> Map<Seq<char>, V> {
        keyed_map(self.items@)
    }
}

impl<V> KeyedList<V> {
    /// The keys are distinct.
    pub closed spec fn wf(&self) -> bool {
        unique_keys(self.items@)
    }

    /// The items, in order.
    pub closed spec fn items(&self) -> Seq<(String, V)> {
        self.items@
    }

    /// The items are what the map holds, each key once.
    pub proof fn lemma_items(&self)
        requires
            self.wf(),
        ensures
            self@.dom().finite(),
            self@.len() == self.items().len(),
            unique_keys(self.items()),
            forall|k: Seq<char>|
                #[trigger] self@.contains_key(k) <==> exists|i: int|
                    0 <= i < self.items().len() && (#[trigger] self.items()[i]).0@ == k,
            forall|i: int|
                0 <= i < self.items().len() ==> self@[(#[trigger] self.items()[i]).0@]
                    == self.items()[i].1,
    {
        lemma_keyed_map(self.items@);
    }

    /// An empty map.
    pub fn new() -> (l: Self)
        ensures
            l.wf(),
            l@ == Map::<Seq<char>, V>::empty(),
            l.items().len() == 0,
    {
        KeyedList { items: Vec::new() }
    }

    /// The number of keys.
    pub fn len(&self) -> (n: usize)
        requires
            self.wf(),
        ensures
            n == self@.len(),
            n == self.items().len(),
    {
        proof {
            lemma_keyed_map(self.items@);
        }
        self.items.len()
    }

    /// The position of `key`, if present.
    pub fn find(&self, key: &str) -> (r: Option<usize>)
        requires
            self.wf(),
        ensures
            match r {
                Some(i) => i < self.items().len() && self.items()[i as int].0@ == key@,
                None => !self@.contains_key(key@),
            },
    {
        proof {
            lemma_keyed_map(self.items@);
        }
        let mut i: usize = 0;
        while i < self.items.len()
            invariant
                i <= self.items@.len(),
                forall|j: int| 0 <= j < i ==> (#[trigger] self.items@[j]).0@ != key@,
            decreases self.items@.len() - i,
        {
            if str_eq(self.items[i].0.as_str(), key) {
                return Some(i);
            }
            i = i + 1;
        }
        None
    }

    /// The item at position `i`.
    pub fn item_at(&self, i: usize) -> (r: &(String, V))
        requires
            i < self.items().len(),
        ensures
            *r == self.items()[i as int],
    {
        &self.items[i]
    }

    /// Whether `key` is present.
    pub fn contains_key(&self, key: &str) -> (b: bool)
        requires
            self.wf(),
        ensures
            b == self@.contains_key(key@),
    {
        proof {
            lemma_keyed_map(self.items@);
        }
        match self.find(key) {
            Some(i) => {
                assert(self.items@[i as int].0@ == key@);
                true
            },
            None => false,
        }
    }

    /// The value of `key`, if present.
    pub fn get(&self, key: &str) -> (r: Option<&V>)
        requires
            self.wf(),
        ensures
            match r {
                Some(v) => self@.contains_key(key@) && *v == self@[key@],
                None => !self@.contains_key(key@),
            },
    {
        proof {
            lemma_keyed_map(self.items@);
        }
        match self.find(key) {
            Some(i) => {
                assert(self.items@[i as int].0@ == key@);
                Some(&self.items[i].1)
            },
            None => None,
        }
    }

    /// Sets the value of `key`.
    pub fn insert(&mut self, key: String, value: V)
        requires
            old(self).wf(),
        ensures
            final(self).wf(),
            final(self)@ == old(self)@.insert(key@, value),
    {
        proof {
            lemma_keyed_map(self.items@);
        }
        match self.find(key.as_str()) {
            Some(i) => {
                let ghost before = self.items@;
                let ghost kv = key@;
                let _old = self.items.remove(i);
                self.items.insert(i, (key, value));
                proof {
                    assert(self.items@ =~= before.update(i as int, self.items@[i as int]));
                    lemma_keyed_update(before, i as int, self.items@[i as int]);
                }
            },
            None => {
                let ghost before = self.items@;
                self.items.push((key, value));
                proof {
                    lemma_keyed_push(before, self.items@.last());
                    assert(self.items@ =~= before.push(self.items@.last()));
                }
            },
        }
    }

    /// Removes `key` and returns its value, if it was present.
    pub fn remove(&mut self, key: &str) -> (r: Option<V>)
        requires
            old(self).wf(),
        ensures
            final(self).wf(),
            final(self)@ == old(self)@.remove(key@),
            r == (if old(self)@.contains_key(key@) {
                Some(old(self)@[key@])
            } else {
                None
            }),
    {
        proof {
            lemma_keyed_map(self.items@);
        }
        match self.find(key) {
            Some(i) => {
                let ghost before = self.items@;
                let item = self.items.remove(i);
                proof {
                    lemma_keyed_remove(before, i as int);
                }
                Some(item.1)
            },
            None => {
                assert(self@ =~= self@.remove(key@));
                None
            },
        }
    }

    /// Removes every key.
    pub fn clear(&mut self)
        ensures
            final(self).wf(),
            final(self)@ == Map::<Seq<char>, V>::empty(),
    {
        self.items.clear();
        assert(self@ =~= Map::<Seq<char>, V>::empty());
    }
}

} // verus!
