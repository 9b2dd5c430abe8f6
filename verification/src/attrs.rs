//! The attribute map of a UI node: string keys to string values.

use vstd::prelude::*;
use crate::text::text_eq;

verus! {

/// The value stored under `k` in a list of key/value pairs (the last pair with that key).
pub open spec fn lookup(pairs: Seq<(Seq<char>, Seq<char>)>, k: Seq<char>) -> Option<Seq<char>>
    decreases pairs.len(),
{
    if pairs.len() == 0 {
        None
    } else if pairs.last().0 == k {
        Some(pairs.last().1)
    } else {
        lookup(pairs.drop_last(), k)
    }
}

/// No key occurs twice in a list of pairs.
pub open spec fn keys_distinct(pairs: Seq<(Seq<char>, Seq<char>)>) -> bool {
    forall|i: int, j: int| 0 <= i < pairs.len() && 0 <= j < pairs.len() && i != j
        ==> #[trigger] pairs[i].0 != #[trigger] pairs[j].0
}

proof fn lemma_lookup_absent(pairs: Seq<(Seq<char>, Seq<char>)>, k: Seq<char>)
    requires
        forall|i: int| 0 <= i < pairs.len() ==> #[trigger] pairs[i].0 != k,
    ensures
        lookup(pairs, k) is None,
    decreases pairs.len(),
{
    if pairs.len() > 0 {
        assert(pairs[pairs.len() - 1].0 != k);
        lemma_lookup_absent(pairs.drop_last(), k);
    }
}

proof fn lemma_lookup_at(pairs: Seq<(Seq<char>, Seq<char>)>, i: int)
    requires
        keys_distinct(pairs),
        0 <= i < pairs.len(),
    ensures
        lookup(pairs, pairs[i].0) == Some(pairs[i].1),
    decreases pairs.len(),
{
    if i != pairs.len() - 1 {
        assert(pairs[pairs.len() - 1].0 != pairs[i].0);
        let rest = pairs.drop_last();
        assert(rest[i] == pairs[i]);
        assert(keys_distinct(rest)) by {
            assert forall|a: int, b: int| 0 <= a < rest.len() && 0 <= b < rest.len() && a != b
                implies #[trigger] rest[a].0 != #[trigger] rest[b].0 by {
                assert(rest[a] == pairs[a] && rest[b] == pairs[b]);
            }
        }
        lemma_lookup_at(rest, i);
    }
}

/// The characters of each key and value.
pub open spec fn entry_views(entries: Seq<(String, String)>) -> Seq<(Seq<char>, Seq<char>)> {
    Seq::new(entries.len(), |i: int| (entries[i].0@, entries[i].1@))
}

/// Attribute map: each key occurs at most once.
pub struct Attrs {
    entries: Vec<(String, String)>,
}

impl View for Attrs {
    type V = Map<Seq<char>, Seq<char>>;

    closed spec fn view(&self) -> Map<Seq<char>, Seq<char>> {
        Map::new(
            |k: Seq<char>| lookup(entry_views(self.entries@), k) is Some,
            |k: Seq<char>| lookup(entry_views(self.entries@), k)->0,
        )
    }
}

impl Attrs {
    #[verifier::type_invariant]
    spec fn distinct(&self) -> bool {
        keys_distinct(entry_views(self.entries@))
    }

    proof fn lemma_view(&self, k: Seq<char>)
        requires
            self.distinct(),
        ensures
            self@.contains_key(k) <==> exists|i: int| 0 <= i < self.entries@.len() && #[trigger] self.entries@[i].0@ == k,
            forall|i: int| 0 <= i < self.entries@.len() && #[trigger] self.entries@[i].0@ == k
                ==> self@[k] == self.entries@[i].1@,
    {
        let ps = entry_views(self.entries@);
        assert forall|i: int| 0 <= i < self.entries@.len() && #[trigger] self.entries@[i].0@ == k
            implies self@.contains_key(k) && self@[k] == self.entries@[i].1@ by {
            assert(ps[i] == (self.entries@[i].0@, self.entries@[i].1@));
            lemma_lookup_at(ps, i);
        }
        if !(exists|i: int| 0 <= i < self.entries@.len() && #[trigger] self.entries@[i].0@ == k) {
            assert forall|i: int| 0 <= i < ps.len() implies #[trigger] ps[i].0 != k by {
                assert(ps[i].0 == self.entries@[i].0@);
            }
            lemma_lookup_absent(ps, k);
        }
    }

    /// An empty map.
    pub fn new() -> (a: Self)
        ensures
            a@ == Map::<Seq<char>, Seq<char>>::empty(),
    {
        let a = Attrs { entries: Vec::new() };
        assert(a@ =~= Map::<Seq<char>, Seq<char>>::empty());
        a
    }

    fn position(&self, key: &str) -> (r: Option<usize>)
        ensures
            match r {
                Some(i) => i < self.entries@.len() && self.entries@[i as int].0@ == key@,
                None => forall|i: int| 0 <= i < self.entries@.len() ==> #[trigger] self.entries@[i].0@ != key@,
            },
    {
        let mut i: usize = 0;
        while i < self.entries.len()
            invariant
                i <= self.entries@.len(),
                forall|j: int| 0 <= j < i ==> #[trigger] self.entries@[j].0@ != key@,
            decreases self.entries@.len() - i,
        {
            if text_eq(self.entries[i].0.as_str(), key) {
                return Some(i);
            }
            i = i + 1;
        }
        None
    }

    /// The value stored under `key`, if any.
    pub fn get(&self, key: &str) -> (r: Option<&String>)
        ensures
            match r {
                Some(v) => self@.contains_key(key@) && self@[key@] == v@,
                None => !self@.contains_key(key@),
            },
    {
        proof {
            use_type_invariant(self);
            self.lemma_view(key@);
        }
        match self.position(key) {
            Some(i) => Some(&self.entries[i].1),
            None => None,
        }
    }

    /// Stores `value` under `key`, returning the value it replaces.
    pub fn insert(&mut self, key: String, value: String) -> (r: Option<String>)
        ensures
            final(self)@ == old(self)@.insert(key@, value@),
            match r {
                Some(v) => old(self)@.contains_key(key@) && old(self)@[key@] == v@,
                None => !old(self)@.contains_key(key@),
            },
    {
        proof {
            use_type_invariant(&*self);
            self.lemma_view(key@);
        }
        let ghost old_entries = self.entries@;
        match self.position(key.as_str()) {
            Some(i) => {
                let previous = self.entries[i].1.clone();
                let ghost k = key@;
                let ghost v = value@;
                let mut entries: Vec<(String, String)> = Vec::new();
                std::mem::swap(&mut entries, &mut self.entries);
                entries.set(i, (key, value));
                proof {
                    assert(entry_views(entries@) =~= entry_views(old_entries).update(i as int, (k, v)));
                    assert forall|a: int, b: int| 0 <= a < entries@.len() && 0 <= b < entries@.len() && a != b
                        implies #[trigger] entry_views(entries@)[a].0 != #[trigger] entry_views(entries@)[b].0 by {
                        assert(entry_views(old_entries)[a].0 == entry_views(entries@)[a].0);
                        assert(entry_views(old_entries)[b].0 == entry_views(entries@)[b].0);
                    }
                }
                self.entries = entries;
                proof {
                    assert(entry_views(self.entries@) =~= entry_views(old_entries).update(i as int, (k, v)));
                    assert forall|q: Seq<char>| true implies #[trigger] self@.contains_key(q) == old(self)@.insert(k, v).contains_key(q)
                        && (self@.contains_key(q) ==> self@[q] == old(self)@.insert(k, v)[q]) by {
                        self.lemma_view(q);
                        old(self).lemma_view(q);
                        if q != k {
                            if exists|j: int| 0 <= j < self.entries@.len() && #[trigger] self.entries@[j].0@ == q {
                                let j = choose|j: int| 0 <= j < self.entries@.len() && #[trigger] self.entries@[j].0@ == q;
                                assert(j != i);
                                assert(old_entries[j] == self.entries@[j]);
                            }
                            if exists|j: int| 0 <= j < old_entries.len() && #[trigger] old_entries[j].0@ == q {
                                let j = choose|j: int| 0 <= j < old_entries.len() && #[trigger] old_entries[j].0@ == q;
                                assert(j != i);
                                assert(old_entries[j] == self.entries@[j]);
                            }
                        } else {
                            assert(self.entries@[i as int].0@ == q);
                        }
                    }
                    assert(self@ =~= old(self)@.insert(k, v));
                }
                Some(previous)
            },
            None => {
                let ghost k = key@;
                let ghost v = value@;
                let mut entries: Vec<(String, String)> = Vec::new();
                std::mem::swap(&mut entries, &mut self.entries);
                entries.push((key, value));
                proof {
                    assert(entry_views(entries@) =~= entry_views(old_entries).push((k, v)));
                    assert forall|a: int, b: int| 0 <= a < entries@.len() && 0 <= b < entries@.len() && a != b
                        implies #[trigger] entry_views(entries@)[a].0 != #[trigger] entry_views(entries@)[b].0 by {
                        if a < old_entries.len() {
                            assert(entry_views(old_entries)[a].0 == entry_views(entries@)[a].0);
                        }
                        if b < old_entries.len() {
                            assert(entry_views(old_entries)[b].0 == entry_views(entries@)[b].0);
                        }
                    }
                }
                self.entries = entries;
                proof {
                    let n = old_entries.len() as int;
                    assert(entry_views(self.entries@) =~= entry_views(old_entries).push((k, v)));
                    assert forall|q: Seq<char>| true implies #[trigger] self@.contains_key(q) == old(self)@.insert(k, v).contains_key(q)
                        && (self@.contains_key(q) ==> self@[q] == old(self)@.insert(k, v)[q]) by {
                        self.lemma_view(q);
                        old(self).lemma_view(q);
                        if q != k {
                            if exists|j: int| 0 <= j < self.entries@.len() && #[trigger] self.entries@[j].0@ == q {
                                let j = choose|j: int| 0 <= j < self.entries@.len() && #[trigger] self.entries@[j].0@ == q;
                                assert(j != n);
                                assert(old_entries[j] == self.entries@[j]);
                            }
                            if exists|j: int| 0 <= j < old_entries.len() && #[trigger] old_entries[j].0@ == q {
                                let j = choose|j: int| 0 <= j < old_entries.len() && #[trigger] old_entries[j].0@ == q;
                                assert(old_entries[j] == self.entries@[j]);
                            }
                        } else {
                            assert(self.entries@[n].0@ == q);
                        }
                    }
                    assert(self@ =~= old(self)@.insert(k, v));
                }
                None
            },
        }
    }
}

/// Reading back a write: after `insert(k, v)` the map holds `v` under `k`, and
/// every other key holds what it held before (or is still absent).
pub proof fn insert_then_get(before: Attrs, after: Attrs, k: Seq<char>, v: Seq<char>, other: Seq<char>)
    requires
        after@ == before@.insert(k, v),
    ensures
        after@.contains_key(k),
        after@[k] == v,
        other != k ==> (after@.contains_key(other) == before@.contains_key(other)),
        other != k && before@.contains_key(other) ==> after@[other] == before@[other],
{
}

} // verus!
