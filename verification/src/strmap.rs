//! A small map from text keys to values, kept as a list of entries with
//! distinct keys.

use vstd::prelude::*;

verus! {

/// Whether some entry of `entries` has the key `k`.
pub open spec fn has_key<V>(entries: Seq<(String, V)>, k: Seq<char>) -> bool {
    exists|i: int| 0 <= i < entries.len() && (#[trigger] entries[i]).0@ == k
}

/// The position of an entry with the key `k`.
pub open spec fn position_of<V>(entries: Seq<(String, V)>, k: Seq<char>) -> int {
    choose|i: int| 0 <= i < entries.len() && (#[trigger] entries[i]).0@ == k
}

/// Whether no two entries share a key.
pub open spec fn keys_distinct<V>(entries: Seq<(String, V)>) -> bool {
    forall|i: int, j: int|
        0 <= i < entries.len() && 0 <= j < entries.len() && (#[trigger] entries[i]).0@ == (
        #[trigger] entries[j]).0@ ==> i == j
}

/// The map that a list of entries with distinct keys stands for.
pub open spec fn map_of<V>(entries: Seq<(String, V)>) -> Map<Seq<char>, V> {
    Map::new(|k: Seq<char>| has_key(entries, k), |k: Seq<char>| entries[position_of(entries, k)].1)
}

/// A list of entries with distinct keys stands for a map with as many keys
/// as the list has entries.
pub proof fn lemma_keys_counted<V>(entries: Seq<(String, V)>)
    requires
        keys_distinct(entries),
    ensures
        map_of(entries).dom().finite(),
        map_of(entries).dom().len() == entries.len(),
    decreases entries.len(),
{
    if entries.len() == 0 {
        assert(map_of(entries).dom() =~= Set::<Seq<char>>::empty());
    } else {
        let rest = entries.drop_last();
        let last = entries.len() - 1;
        let k = entries[last].0@;
        assert(keys_distinct(rest)) by {
            assert forall|i: int, j: int|
                0 <= i < rest.len() && 0 <= j < rest.len() && (#[trigger] rest[i]).0@ == (
                #[trigger] rest[j]).0@ implies i == j by {
                assert(rest[i] == entries[i]);
                assert(rest[j] == entries[j]);
            }
        }
        lemma_keys_counted(rest);
        assert(!has_key(rest, k)) by {
            if has_key(rest, k) {
                let p = position_of(rest, k);
                assert(rest[p] == entries[p]);
                assert(entries[p].0@ == entries[last].0@);
            }
        }
        assert(map_of(entries).dom() =~= map_of(rest).dom().insert(k)) by {
            assert forall|key: Seq<char>| has_key(entries, key) <==> (has_key(rest, key) || key
                == k) by {
                if has_key(entries, key) {
                    let p = position_of(entries, key);
                    if p < last {
                        assert(rest[p].0@ == key);
                    }
                }
                if has_key(rest, key) {
                    let p = position_of(rest, key);
                    assert(entries[p].0@ == key);
                }
                if key == k {
                    assert(entries[last].0@ == key);
                }
            }
        }
    }
}

/// A map keyed by text. Each key occurs once; an insertion under a key that
/// is present replaces the value and keeps the entry's place.
#[derive(Debug)]
pub struct StrMap<V> {
    entries: Vec<(String, V)>,
}

impl<V> View for StrMap<V> {
    type V = Map<Seq<char>, V>;

    closed spec fn view(&self) -> Map<Seq<char>, V> {
        map_of(self.entries@)
    }
}

impl<V: Clone> Clone for StrMap<V> {
    /// A map with the same keys in the same order, each value a clone of
    /// the value under that key.
    fn clone(&self) -> (r: Self)
        ensures
            r@.dom() == self@.dom(),
            forall|k: Seq<char>| #[trigger] self@.contains_key(k) ==> cloned(self@[k], r@[k]),
            r.entries_view().len() == self.entries_view().len(),
            forall|i: int|
                0 <= i < self.entries_view().len() ==> (#[trigger] r.entries_view()[i]).0@
                    == self.entries_view()[i].0@,
    {
        proof {
            use_type_invariant(self);
        }
        let mut out: Vec<(String, V)> = Vec::new();
        let n: usize = self.entries.len();
        let mut i: usize = 0;
        while i < n
            invariant
                n == self.entries@.len(),
                i <= n,
                out@.len() == i,
                forall|j: int|
                    0 <= j < i ==> (#[trigger] out@[j]).0@ == self.entries@[j].0@ && cloned(
                        self.entries@[j].1,
                        out@[j].1,
                    ),
            decreases n - i,
        {
            let key = self.entries[i].0.clone();
            let value = self.entries[i].1.clone();
            out.push((key, value));
            i = i + 1;
        }
        proof {
            let src = self.entries@;
            let dst = out@;
            assert(keys_distinct(dst)) by {
                assert forall|a: int, b: int|
                    0 <= a < dst.len() && 0 <= b < dst.len() && (#[trigger] dst[a]).0@ == (
                    #[trigger] dst[b]).0@ implies a == b by {
                    assert(src[a].0@ == dst[a].0@);
                    assert(src[b].0@ == dst[b].0@);
                }
            }
            assert forall|k: Seq<char>| has_key(dst, k) <==> has_key(src, k) by {
                if has_key(dst, k) {
                    let p = position_of(dst, k);
                    assert(src[p].0@ == k);
                }
                if has_key(src, k) {
                    let p = position_of(src, k);
                    assert(dst[p].0@ == k);
                }
            }
            assert(map_of(dst).dom() =~= map_of(src).dom());
            assert forall|k: Seq<char>| #[trigger] map_of(src).contains_key(k) implies cloned(
                map_of(src)[k],
                map_of(dst)[k],
            ) by {
                let p = position_of(src, k);
                let q = position_of(dst, k);
                assert(src[q].0@ == dst[q].0@);
                assert(p == q);
                assert(dst[p].0@ == src[p].0@);
            }
        }
        StrMap { entries: out }
    }
}

impl<V> StrMap<V> {
    #[verifier::type_invariant]
    closed spec fn distinct(&self) -> bool {
        keys_distinct(self.entries@)
    }

    /// The entries in the order in which their keys were first inserted.
    pub closed spec fn entries_view(&self) -> Seq<(String, V)> {
        self.entries@
    }

    /// The map without entries.
    pub fn new() -> (m: Self)
        ensures
            m@ == Map::<Seq<char>, V>::empty(),
            m.entries_view().len() == 0,
    {
        let m = StrMap { entries: Vec::new() };
        assert(m@ =~= Map::<Seq<char>, V>::empty());
        m
    }

    /// The number of keys.
    pub fn len(&self) -> (n: usize)
        ensures
            n == self.entries_view().len(),
            self@.dom().finite(),
            n == self@.dom().len(),
    {
        proof {
            use_type_invariant(self);
            lemma_keys_counted(self.entries@);
        }
        self.entries.len()
    }

    /// The entries in the order in which their keys were first inserted.
    pub fn entries(&self) -> (e: &Vec<(String, V)>)
        ensures
            e@ == self.entries_view(),
            keys_distinct(e@),
            self@ == map_of(e@),
    {
        proof {
            use_type_invariant(self);
        }
        &self.entries
    }

    /// The value under `key`, if the key is present.
    pub fn get(&self, key: &str) -> (r: Option<&V>)
        ensures
            match r {
                Some(v) => self@.contains_key(key@) && *v == self@[key@],
                None => !self@.contains_key(key@),
            },
    {
        proof {
            use_type_invariant(self);
        }
        let wanted: String = key.to_owned();
        let n: usize = self.entries.len();
        let mut i: usize = 0;
        while i < n
            invariant
                n == self.entries@.len(),
                wanted@ == key@,
                keys_distinct(self.entries@),
                i <= n,
                forall|j: int| 0 <= j < i ==> (#[trigger] self.entries@[j]).0@ != key@,
            decreases n - i,
        {
            if self.entries[i].0 == wanted {
                proof {
                    let p = position_of(self.entries@, key@);
                    assert(self.entries@[i as int].0@ == key@);
                    assert(p == i);
                }
                return Some(&self.entries[i].1);
            }
            i = i + 1;
        }
        None
    }

    /// Binds `key` to `value`, replacing the value of a key that is present.
    pub fn insert(&mut self, key: String, value: V)
        ensures
            final(self)@ == old(self)@.insert(key@, value),
    {
        proof {
            use_type_invariant(&*self);
        }
        let ghost before = self.entries@;
        let n: usize = self.entries.len();
        let mut i: usize = 0;
        let mut found: bool = false;
        while i < n && !found
            invariant
                n == self.entries@.len(),
                self.entries@ == before,
                i <= n,
                forall|j: int| 0 <= j < i ==> (#[trigger] self.entries@[j]).0@ != key@,
                found ==> i < n && self.entries@[i as int].0@ == key@,
            decreases n - i + (if found { 0int } else { 1int }),
        {
            if self.entries[i].0 == key {
                found = true;
            } else {
                i = i + 1;
            }
        }
        let mut entries: Vec<(String, V)> = Vec::new();
        std::mem::swap(&mut entries, &mut self.entries);
        if i < n {
            entries.set(i, (key, value));
            proof {
                let after = entries@;
                assert(keys_distinct(after)) by {
                    assert forall|a: int, b: int|
                        0 <= a < after.len() && 0 <= b < after.len() && (#[trigger] after[a]).0@
                            == (#[trigger] after[b]).0@ implies a == b by {
                        assert(after[a].0@ == before[a].0@);
                        assert(after[b].0@ == before[b].0@);
                    }
                }
                assert(map_of(after) =~= map_of(before).insert(key@, value)) by {
                    assert forall|k: Seq<char>| has_key(after, k) <==> (has_key(before, k) || k
                        == key@) by {
                        if has_key(after, k) {
                            let p = position_of(after, k);
                            assert(before[p].0@ == k);
                        }
                        if has_key(before, k) {
                            let p = position_of(before, k);
                            assert(after[p].0@ == k);
                        }
                        if k == key@ {
                            assert(after[i as int].0@ == k);
                        }
                    }
                    assert forall|k: Seq<char>| has_key(after, k) implies map_of(after)[k]
                        == map_of(before).insert(key@, value)[k] by {
                        let p = position_of(after, k);
                        assert(before[p].0@ == k);
                        if k == key@ {
                            assert(before[i as int].0@ == k);
                            assert(p == i);
                        } else {
                            let q = position_of(before, k);
                            assert(p == q);
                        }
                    }
                }
            }
        } else {
            entries.push((key, value));
            proof {
                let after = entries@;
                assert(keys_distinct(after)) by {
                    assert forall|a: int, b: int|
                        0 <= a < after.len() && 0 <= b < after.len() && (#[trigger] after[a]).0@
                            == (#[trigger] after[b]).0@ implies a == b by {
                        if a < n {
                            assert(after[a] == before[a]);
                        }
                        if b < n {
                            assert(after[b] == before[b]);
                        }
                    }
                }
                assert(map_of(after) =~= map_of(before).insert(key@, value)) by {
                    assert forall|k: Seq<char>| has_key(after, k) <==> (has_key(before, k) || k
                        == key@) by {
                        if has_key(after, k) {
                            let p = position_of(after, k);
                            if p < n {
                                assert(before[p].0@ == k);
                            }
                        }
                        if has_key(before, k) {
                            let p = position_of(before, k);
                            assert(after[p].0@ == k);
                        }
                        if k == key@ {
                            assert(after[n as int].0@ == k);
                        }
                    }
                    assert forall|k: Seq<char>| has_key(after, k) implies map_of(after)[k]
                        == map_of(before).insert(key@, value)[k] by {
                        let p = position_of(after, k);
                        if k == key@ {
                            assert(after[n as int].0@ == k);
                            assert(p == n);
                        } else {
                            assert(before[p].0@ == k);
                            let q = position_of(before, k);
                            assert(after[q].0@ == k);
                            assert(p == q);
                        }
                    }
                }
            }
        }
        self.entries = entries;
    }
}

} // verus!
