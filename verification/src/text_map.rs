//! A map from text keys to text values kept sorted by key, as a `BTreeMap<String, String>`
//! keeps it.

use vstd::prelude::*;
use vstd::string::*;

use crate::order::{lemma_text_lt_irreflexive, lemma_text_lt_transitive, lemma_text_lt_trichotomy, text_less, text_lt};
use crate::text::str_eq;

verus! {

/// The entries' keys strictly increase.
pub open spec fn sorted_entries(es: Seq<(String, String)>) -> bool {
    forall|i: int, j: int| 0 <= i < j < es.len() ==> text_lt(#[trigger] es[i].0@, #[trigger] es[j].0@)
}

/// No key occurs twice.
pub open spec fn distinct_keys(es: Seq<(String, String)>) -> bool {
    forall|i: int, j: int| 0 <= i < j < es.len() ==> #[trigger] es[i].0@ != #[trigger] es[j].0@
}

/// The value stored under `k`, the last entry for `k` winning.
pub open spec fn lookup(es: Seq<(String, String)>, k: Seq<char>) -> Option<Seq<char>>
    decreases es.len(),
{
    if es.len() == 0 {
        None
    } else if es.last().0@ == k {
        Some(es.last().1@)
    } else {
        lookup(es.drop_last(), k)
    }
}

/// The keys in order.
pub open spec fn key_seq(es: Seq<(String, String)>) -> Seq<Seq<char>> {
    Seq::new(es.len(), |i: int| es[i].0@)
}

/// The values in key order.
pub open spec fn value_seq(es: Seq<(String, String)>) -> Seq<Seq<char>> {
    Seq::new(es.len(), |i: int| es[i].1@)
}

/// The map the entries denote.
pub open spec fn entries_view(es: Seq<(String, String)>) -> Map<Seq<char>, Seq<char>> {
    Map::new(
        |k: Seq<char>| lookup(es, k) is Some,
        |k: Seq<char>|
            match lookup(es, k) {
                Some(v) => v,
                None => Seq::empty(),
            },
    )
}

pub proof fn lemma_sorted_distinct(es: Seq<(String, String)>)
    requires
        sorted_entries(es),
    ensures
        distinct_keys(es),
{
    assert forall|i: int, j: int| 0 <= i < j < es.len() implies #[trigger] es[i].0@ != #[trigger] es[j].0@ by {
        if es[i].0@ == es[j].0@ {
            lemma_text_lt_irreflexive(es[i].0@);
        }
    }
}

/// A key absent from every entry has no value.
pub proof fn lemma_lookup_absent(es: Seq<(String, String)>, k: Seq<char>)
    ensures
        lookup(es, k) is None <==> (forall|i: int| 0 <= i < es.len() ==> #[trigger] es[i].0@ != k),
    decreases es.len(),
{
    if es.len() > 0 {
        lemma_lookup_absent(es.drop_last(), k);
        if lookup(es, k) is None {
            assert forall|i: int| 0 <= i < es.len() implies #[trigger] es[i].0@ != k by {
                if i < es.len() - 1 {
                    assert(es.drop_last()[i] == es[i]);
                }
            }
        } else {
            if es.last().0@ != k {
                let i = choose|i: int| 0 <= i < es.drop_last().len() && #[trigger] es.drop_last()[i].0@ == k;
                assert(es[i] == es.drop_last()[i]);
            }
        }
    }
}

/// With distinct keys, the entry holding `k` gives its value.
pub proof fn lemma_lookup_at(es: Seq<(String, String)>, k: Seq<char>, i: int)
    requires
        distinct_keys(es),
        0 <= i < es.len(),
        es[i].0@ == k,
    ensures
        lookup(es, k) == Some(es[i].1@),
    decreases es.len(),
{
    if i < es.len() - 1 {
        let p = es.drop_last();
        assert(es.last() == es[es.len() - 1]);
        assert(es.last().0@ != k);
        assert forall|a: int, b: int| 0 <= a < b < p.len() implies #[trigger] p[a].0@ != #[trigger] p[b].0@ by {
            assert(p[a] == es[a] && p[b] == es[b]);
        }
        assert(p[i] == es[i]);
        lemma_lookup_at(p, k, i);
    }
}

/// A sorted map from text keys to text values.
#[derive(Debug)]
pub struct TextMap {
    entries: Vec<(String, String)>,
}

impl View for TextMap {
    type V = Map<Seq<char>, Seq<char>>;

    closed spec fn view(&self) -> Map<Seq<char>, Seq<char>> {
        entries_view(self.entries@)
    }
}

impl TextMap {
    #[verifier::type_invariant]
    spec fn sorted(self) -> bool {
        sorted_entries(self.entries@)
    }

    /// The keys in increasing order.
    pub closed spec fn keys(self) -> Seq<Seq<char>> {
        key_seq(self.entries@)
    }

    /// The values, in the order of their keys.
    pub closed spec fn values(self) -> Seq<Seq<char>> {
        value_seq(self.entries@)
    }

    /// The key-value pairs in increasing key order; the map holds exactly these pairs.
    pub fn pairs(&self) -> (r: Vec<(String, String)>)
        ensures
            r@.len() == self.keys().len(),
            self.values().len() == self.keys().len(),
            forall|i: int| #![trigger r@[i]] 0 <= i < r@.len() ==> r@[i].0@ == self.keys()[i] && r@[i].1@ == self.values()[i],
            forall|i: int, j: int| 0 <= i < j < self.keys().len() ==> text_lt(#[trigger] self.keys()[i], #[trigger] self.keys()[j]),
            forall|k: Seq<char>| #[trigger] self@.contains_key(k) <==> self.keys().contains(k),
            forall|i: int| 0 <= i < self.keys().len() ==> #[trigger] self@[self.keys()[i]] == self.values()[i],
    {
        proof {
            use_type_invariant(self);
            let es = self.entries@;
            lemma_sorted_distinct(es);
            assert forall|k: Seq<char>| #[trigger] self@.contains_key(k) <==> self.keys().contains(k) by {
                lemma_lookup_absent(es, k);
                if self.keys().contains(k) {
                    let i = choose|i: int| 0 <= i < self.keys().len() && self.keys()[i] == k;
                    assert(es[i].0@ == k);
                }
                if self@.contains_key(k) {
                    let i = choose|i: int| 0 <= i < es.len() && #[trigger] es[i].0@ != k == false;
                    assert(self.keys()[i] == k);
                }
            }
            assert forall|i: int| 0 <= i < self.keys().len() implies #[trigger] self@[self.keys()[i]] == self.values()[i] by {
                lemma_lookup_at(es, es[i].0@, i);
            }
        }
        let mut r: Vec<(String, String)> = Vec::new();
        let mut i: usize = 0;
        while i < self.entries.len()
            invariant
                i <= self.entries@.len(),
                r@.len() == i,
                forall|j: int| 0 <= j < i ==> #[trigger] r@[j].0@ == self.entries@[j].0@ && r@[j].1@ == self.entries@[j].1@,
            decreases self.entries@.len() - i,
        {
            let e = &self.entries[i];
            r.push((e.0.clone(), e.1.clone()));
            i += 1;
        }
        r
    }

    /// A copy with the same contents.
    pub fn copy(&self) -> (r: TextMap)
        ensures
            r@ == self@,
            r.keys() == self.keys(),
            r.values() == self.values(),
    {
        proof {
            use_type_invariant(self);
            lemma_sorted_distinct(self.entries@);
        }
        let es = self.pairs();
        proof {
            let old_es = self.entries@;
            let ns = es@;
            assert forall|i: int| #![trigger ns[i]] 0 <= i < ns.len() implies ns[i].0@ == old_es[i].0@ && ns[i].1@ == old_es[i].1@ by {
                assert(key_seq(old_es)[i] == old_es[i].0@);
                assert(value_seq(old_es)[i] == old_es[i].1@);
            }
            assert(sorted_entries(ns));
            lemma_sorted_distinct(ns);
            assert forall|q: Seq<char>| #[trigger] lookup(ns, q) == lookup(old_es, q) by {
                lemma_lookup_absent(ns, q);
                lemma_lookup_absent(old_es, q);
                if lookup(old_es, q) is Some {
                    let j = choose|j: int| 0 <= j < old_es.len() && #[trigger] old_es[j].0@ != q == false;
                    lemma_lookup_at(old_es, q, j);
                    lemma_lookup_at(ns, q, j);
                }
            }
            assert(entries_view(ns) =~= entries_view(old_es));
            assert(key_seq(ns) =~= key_seq(old_es));
            assert(value_seq(ns) =~= value_seq(old_es));
        }
        TextMap { entries: es }
    }

    /// The empty map.
    pub fn new() -> (r: TextMap)
        ensures
            r@ == Map::<Seq<char>, Seq<char>>::empty(),
            r.keys().len() == 0,
            r.values().len() == 0,
    {
        let r = TextMap { entries: Vec::new() };
        assert(r@ =~= Map::<Seq<char>, Seq<char>>::empty());
        r
    }

    /// The number of keys.
    pub fn len(&self) -> (n: usize)
        ensures
            n == self.keys().len(),
    {
        self.entries.len()
    }

    /// The value stored under `key`.
    pub fn get(&self, key: &str) -> (r: Option<&String>)
        ensures
            match r {
                Some(v) => self@.contains_key(key@) && self@[key@] == v@,
                None => !self@.contains_key(key@),
            },
    {
        proof {
            use_type_invariant(self);
            lemma_sorted_distinct(self.entries@);
        }
        let mut i: usize = 0;
        while i < self.entries.len()
            invariant
                i <= self.entries@.len(),
                distinct_keys(self.entries@),
                forall|j: int| 0 <= j < i ==> #[trigger] self.entries@[j].0@ != key@,
            decreases self.entries@.len() - i,
        {
            if str_eq(self.entries[i].0.as_str(), key) {
                proof {
                    lemma_lookup_at(self.entries@, key@, i as int);
                }
                return Some(&self.entries[i].1);
            }
            i += 1;
        }
        proof {
            lemma_lookup_absent(self.entries@, key@);
        }
        None
    }

    /// Stores `value` under `key`, replacing what was there.
    pub fn insert(&mut self, key: String, value: String)
        ensures
            final(self)@ == old(self)@.insert(key@, value@),
    {
        proof {
            use_type_invariant(&*self);
        }
        let mut es: Vec<(String, String)> = Vec::new();
        std::mem::swap(&mut es, &mut self.entries);
        let ghost old_es = es@;
        assert(old_es == old(self).entries@);
        let mut i: usize = 0;
        while i < es.len() && text_less(es[i].0.as_str(), key.as_str())
            invariant
                es@ == old_es,
                i <= es@.len(),
                forall|j: int| 0 <= j < i ==> text_lt(#[trigger] es@[j].0@, key@),
            decreases es@.len() - i,
        {
            i += 1;
        }
        proof {
            lemma_sorted_distinct(old_es);
        }
        let ghost k = key@;
        let ghost v = value@;
        if i < es.len() && str_eq(es[i].0.as_str(), key.as_str()) {
            es.set(i, (key, value));
            proof {
                let ns = es@;
                assert forall|a: int, b: int| 0 <= a < b < ns.len() implies text_lt(#[trigger] ns[a].0@, #[trigger] ns[b].0@) by {
                    assert(old_es[a].0@ == ns[a].0@ || a == i);
                    assert(old_es[b].0@ == ns[b].0@ || b == i);
                }
                lemma_sorted_distinct(ns);
                assert forall|q: Seq<char>| #[trigger] lookup(ns, q) == (if q == k { Some(v) } else { lookup(old_es, q) }) by {
                    lemma_lookup_absent(ns, q);
                    lemma_lookup_absent(old_es, q);
                    if q == k {
                        lemma_lookup_at(ns, q, i as int);
                    } else if lookup(old_es, q) is Some {
                        let j = choose|j: int| 0 <= j < old_es.len() && #[trigger] old_es[j].0@ != q == false;
                        lemma_lookup_at(old_es, q, j);
                        lemma_lookup_at(ns, q, j);
                    } else {
                        assert forall|j: int| 0 <= j < ns.len() implies #[trigger] ns[j].0@ != q by {
                            if j != i {
                                assert(ns[j] == old_es[j]);
                            }
                        }
                    }
                }
                assert(entries_view(ns) =~= entries_view(old_es).insert(k, v));
            }
        } else {
            proof {
                if i < es@.len() {
                    lemma_text_lt_trichotomy(es@[i as int].0@, k);
                }
            }
            es.insert(i, (key, value));
            proof {
                let ns = es@;
                assert forall|a: int, b: int| 0 <= a < b < ns.len() implies text_lt(#[trigger] ns[a].0@, #[trigger] ns[b].0@) by {
                    if b < i {
                        assert(ns[a] == old_es[a] && ns[b] == old_es[b]);
                    } else if b == i {
                        assert(ns[a] == old_es[a]);
                    } else if a == i {
                        assert(ns[b] == old_es[b - 1]);
                        if b - 1 > i {
                            lemma_text_lt_transitive(k, old_es[i as int].0@, old_es[b - 1].0@);
                        }
                    } else if a < i {
                        assert(ns[a] == old_es[a] && ns[b] == old_es[b - 1]);
                    } else {
                        assert(ns[a] == old_es[a - 1] && ns[b] == old_es[b - 1]);
                    }
                }
                lemma_sorted_distinct(ns);
                assert forall|q: Seq<char>| #[trigger] lookup(ns, q) == (if q == k { Some(v) } else { lookup(old_es, q) }) by {
                    lemma_lookup_absent(ns, q);
                    lemma_lookup_absent(old_es, q);
                    if q == k {
                        lemma_lookup_at(ns, q, i as int);
                    } else if lookup(old_es, q) is Some {
                        let j = choose|j: int| 0 <= j < old_es.len() && #[trigger] old_es[j].0@ != q == false;
                        lemma_lookup_at(old_es, q, j);
                        if j < i {
                            assert(ns[j] == old_es[j]);
                            lemma_lookup_at(ns, q, j);
                        } else {
                            assert(ns[j + 1] == old_es[j]);
                            lemma_lookup_at(ns, q, j + 1);
                        }
                    } else {
                        assert forall|j: int| 0 <= j < ns.len() implies #[trigger] ns[j].0@ != q by {
                            if j < i {
                                assert(ns[j] == old_es[j]);
                            } else if j > i {
                                assert(ns[j] == old_es[j - 1]);
                            }
                        }
                    }
                }
                assert(entries_view(ns) =~= entries_view(old_es).insert(k, v));
            }
        }
        self.entries = es;
    }
}

} // verus!
