//! A small map from text keys to values, each key held once.

use vstd::prelude::*;
use vstd::string::*;

use crate::text::str_eq;

verus! {

/// No key occurs twice.
pub open spec fn unique_keys<V>(es: Seq<(String, V)>) -> bool {
    forall|i: int, j: int| 0 <= i < j < es.len() ==> #[trigger] es[i].0@ != #[trigger] es[j].0@
}

/// The index of the entry for `k`, if any: the last one.
pub open spec fn index_of_key<V>(es: Seq<(String, V)>, k: Seq<char>) -> int
    decreases es.len(),
{
    if es.len() == 0 {
        -1
    } else if es.last().0@ == k {
        es.len() - 1
    } else {
        index_of_key(es.drop_last(), k)
    }
}

/// The map the entries denote.
pub open spec fn keyed_view<V>(es: Seq<(String, V)>) -> Map<Seq<char>, V> {
    Map::new(
        |k: Seq<char>| index_of_key(es, k) >= 0,
        |k: Seq<char>| es[index_of_key(es, k)].1,
    )
}

pub proof fn lemma_index_of_key<V>(es: Seq<(String, V)>, k: Seq<char>)
    requires
        unique_keys(es),
    ensures
        -1 <= index_of_key(es, k) < es.len(),
        index_of_key(es, k) >= 0 ==> es[index_of_key(es, k)].0@ == k,
        index_of_key(es, k) < 0 <==> (forall|i: int| 0 <= i < es.len() ==> #[trigger] es[i].0@ != k),
        forall|i: int| 0 <= i < es.len() && #[trigger] es[i].0@ == k ==> index_of_key(es, k) == i,
    decreases es.len(),
{
    if es.len() > 0 {
        let p = es.drop_last();
        assert forall|a: int, b: int| 0 <= a < b < p.len() implies #[trigger] p[a].0@ != #[trigger] p[b].0@ by {
            assert(p[a] == es[a] && p[b] == es[b]);
        }
        lemma_index_of_key(p, k);
        assert forall|i: int| 0 <= i < p.len() implies #[trigger] p[i] == es[i] by {}
        if es.last().0@ == k {
            assert forall|i: int| 0 <= i < es.len() && #[trigger] es[i].0@ == k implies i == es.len() - 1 by {
                if i < es.len() - 1 {
                    assert(es[i].0@ != es[es.len() - 1].0@);
                }
            }
        } else {
            assert forall|i: int| 0 <= i < es.len() && #[trigger] es[i].0@ == k implies index_of_key(es, k) == i by {
                assert(p[i] == es[i]);
            }
            if index_of_key(es, k) < 0 {
                assert forall|i: int| 0 <= i < es.len() implies #[trigger] es[i].0@ != k by {
                    if i < es.len() - 1 {
                        assert(p[i] == es[i]);
                    }
                }
            }
        }
    }
}

/// A map from text keys to values, each key held once.
#[derive(Debug)]
pub struct Keyed<V> {
    entries: Vec<(String, V)>,
}

impl<V> View for Keyed<V> {
    type V = Map<Seq<char>, V>;

    closed spec fn view(&self) -> Map<Seq<char>, V> {
        keyed_view(self.entries@)
    }
}

impl<V> Keyed<V> {
    #[verifier::type_invariant]
    spec fn unique(self) -> bool {
        unique_keys(self.entries@)
    }

    /// The empty map.
    pub fn new() -> (r: Keyed<V>)
        ensures
            r@ == Map::<Seq<char>, V>::empty(),
    {
        let r = Keyed { entries: Vec::new() };
        assert(r@ =~= Map::<Seq<char>, V>::empty());
        r
    }

    /// Whether no key has a value.
    pub fn is_empty(&self) -> (r: bool)
        ensures
            r == (self@ == Map::<Seq<char>, V>::empty()),
    {
        proof {
            use_type_invariant(self);
            lemma_index_of_key(self.entries@, Seq::<char>::empty());
        }
        if self.entries.len() == 0 {
            assert(self@ =~= Map::<Seq<char>, V>::empty());
            true
        } else {
            proof {
                let k = self.entries@[0].0@;
                lemma_index_of_key(self.entries@, k);
                assert(self@.contains_key(k));
            }
            false
        }
    }

    fn find(&self, key: &str) -> (r: Option<usize>)
        ensures
            match r {
                Some(i) => i < self.entries@.len() && self.entries@[i as int].0@ == key@
                    && index_of_key(self.entries@, key@) == i,
                None => index_of_key(self.entries@, key@) < 0,
            },
    {
        proof {
            use_type_invariant(self);
            lemma_index_of_key(self.entries@, key@);
        }
        let mut i: usize = 0;
        while i < self.entries.len()
            invariant
                i <= self.entries@.len(),
                unique_keys(self.entries@),
                forall|j: int| 0 <= j < i ==> #[trigger] self.entries@[j].0@ != key@,
            decreases self.entries@.len() - i,
        {
            if str_eq(self.entries[i].0.as_str(), key) {
                proof {
                    lemma_index_of_key(self.entries@, key@);
                }
                return Some(i);
            }
            i += 1;
        }
        None
    }

    /// Whether `key` has a value.
    pub fn contains(&self, key: &str) -> (r: bool)
        ensures
            r == self@.contains_key(key@),
    {
        self.find(key).is_some()
    }

    /// The value held under `key`.
    pub fn get(&self, key: &str) -> (r: Option<&V>)
        ensures
            match r {
                Some(v) => self@.contains_key(key@) && self@[key@] == *v,
                None => !self@.contains_key(key@),
            },
    {
        match self.find(key) {
            Some(i) => Some(&self.entries[i].1),
            None => None,
        }
    }

    /// Stores `value` under `key`, replacing what was there.
    pub fn insert(&mut self, key: String, value: V)
        ensures
            final(self)@ == old(self)@.insert(key@, value),
    {
        let found = self.find(key.as_str());
        proof {
            use_type_invariant(&*self);
        }
        let mut es: Vec<(String, V)> = Vec::new();
        std::mem::swap(&mut es, &mut self.entries);
        let ghost old_es = es@;
        let ghost k = key@;
        let ghost v = value;
        proof {
            lemma_index_of_key(old_es, k);
        }
        match found {
            Some(i) => {
                let ghost kv = (key, value);
                es.set(i, (key, value));
                proof {
                    let ns = es@;
                    assert(ns == old_es.update(i as int, kv));
                    assert(ns[i as int].0@ == k && ns[i as int].1 == v);
                    assert forall|a: int, b: int| 0 <= a < b < ns.len() implies #[trigger] ns[a].0@ != #[trigger] ns[b].0@ by {
                        assert(ns[a].0@ == old_es[a].0@ && ns[b].0@ == old_es[b].0@);
                    }
                    assert forall|q: Seq<char>| #![trigger index_of_key(ns, q)]
                        (index_of_key(ns, q) >= 0) == (q == k || index_of_key(old_es, q) >= 0)
                        && (index_of_key(ns, q) >= 0 ==> ns[index_of_key(ns, q)].1 == (if q == k { v } else { old_es[index_of_key(old_es, q)].1 })) by {
                        lemma_index_of_key(ns, q);
                        lemma_index_of_key(old_es, q);
                        if q == k {
                            assert(index_of_key(ns, q) == i);
                        }
                        if q != k && index_of_key(old_es, q) >= 0 {
                            let j = index_of_key(old_es, q);
                            assert(j != i);
                            assert(ns[j] == old_es[j]);
                        }
                        if q != k && index_of_key(ns, q) >= 0 {
                            let j = index_of_key(ns, q);
                            assert(j != i);
                            assert(ns[j] == old_es[j]);
                        }
                    }
                    assert(keyed_view(ns) =~= keyed_view(old_es).insert(k, v));
                }
            },
            None => {
                es.push((key, value));
                proof {
                    let ns = es@;
                    assert forall|a: int, b: int| 0 <= a < b < ns.len() implies #[trigger] ns[a].0@ != #[trigger] ns[b].0@ by {
                        assert(ns[a] == old_es[a]);
                        if b < old_es.len() {
                            assert(ns[b] == old_es[b]);
                        }
                    }
                    assert forall|q: Seq<char>| #![trigger index_of_key(ns, q)]
                        (index_of_key(ns, q) >= 0) == (q == k || index_of_key(old_es, q) >= 0)
                        && (index_of_key(ns, q) >= 0 ==> ns[index_of_key(ns, q)].1 == (if q == k { v } else { old_es[index_of_key(old_es, q)].1 })) by {
                        lemma_index_of_key(ns, q);
                        lemma_index_of_key(old_es, q);
                        if q != k && index_of_key(old_es, q) >= 0 {
                            let j = index_of_key(old_es, q);
                            assert(ns[j] == old_es[j]);
                        }
                        if q != k && index_of_key(ns, q) >= 0 {
                            let j = index_of_key(ns, q);
                            if j < old_es.len() {
                                assert(ns[j] == old_es[j]);
                            }
                        }
                    }
                    assert(keyed_view(ns) =~= keyed_view(old_es).insert(k, v));
                }
            },
        }
        self.entries = es;
    }

    /// Takes out the value held under `key`.
    pub fn remove(&mut self, key: &str) -> (r: Option<V>)
        ensures
            final(self)@ == old(self)@.remove(key@),
            match r {
                Some(v) => old(self)@.contains_key(key@) && old(self)@[key@] == v,
                None => !old(self)@.contains_key(key@),
            },
    {
        let found = self.find(key);
        proof {
            use_type_invariant(&*self);
        }
        match found {
            None => {
                assert(old(self)@.remove(key@) =~= old(self)@);
                None
            },
            Some(i) => {
                let mut es: Vec<(String, V)> = Vec::new();
                std::mem::swap(&mut es, &mut self.entries);
                let ghost old_es = es@;
                let ghost k = key@;
                proof {
                    lemma_index_of_key(old_es, k);
                }
                let (_, v) = es.remove(i);
                proof {
                    let ns = es@;
                    assert forall|a: int| 0 <= a < ns.len() implies #[trigger] ns[a] == (if a < i { old_es[a] } else { old_es[a + 1] }) by {}
                    assert forall|a: int, b: int| 0 <= a < b < ns.len() implies #[trigger] ns[a].0@ != #[trigger] ns[b].0@ by {
                        assert(ns[a] == (if a < i { old_es[a] } else { old_es[a + 1] }));
                        assert(ns[b] == (if b < i { old_es[b] } else { old_es[b + 1] }));
                    }
                    assert forall|q: Seq<char>| #![trigger index_of_key(ns, q)]
                        (index_of_key(ns, q) >= 0) == (q != k && index_of_key(old_es, q) >= 0)
                        && (index_of_key(ns, q) >= 0 ==> ns[index_of_key(ns, q)].1 == old_es[index_of_key(old_es, q)].1) by {
                        lemma_index_of_key(ns, q);
                        lemma_index_of_key(old_es, q);
                        if q != k && index_of_key(old_es, q) >= 0 {
                            let j = index_of_key(old_es, q);
                            assert(j != i);
                            if j < i {
                                assert(ns[j] == old_es[j]);
                            } else {
                                assert(ns[j - 1] == old_es[j]);
                            }
                        }
                        if index_of_key(ns, q) >= 0 {
                            let j = index_of_key(ns, q);
                            if j < i {
                                assert(ns[j] == old_es[j]);
                            } else {
                                assert(ns[j] == old_es[j + 1]);
                            }
                        }
                    }
                    assert(keyed_view(ns) =~= keyed_view(old_es).remove(k));
                }
                self.entries = es;
                Some(v)
            },
        }
    }
}


impl Keyed<u64> {
    /// Keeps only the entries whose value is greater than `bound`.
    pub fn retain_above(&mut self, bound: u64)
        ensures
            final(self)@ == Map::new(
                |k: Seq<char>| old(self)@.contains_key(k) && old(self)@[k] > bound,
                |k: Seq<char>| old(self)@[k],
            ),
    {
        proof {
            use_type_invariant(&*self);
        }
        let mut es: Vec<(String, u64)> = Vec::new();
        std::mem::swap(&mut es, &mut self.entries);
        let ghost old_es = es@;
        let mut kept: Vec<(String, u64)> = Vec::new();
        let ghost mut origin: Seq<int> = Seq::empty();
        let mut i: usize = 0;
        while i < es.len()
            invariant
                es@ == old_es,
                unique_keys(old_es),
                i <= old_es.len(),
                origin.len() == kept@.len(),
                forall|a: int| 0 <= a < kept@.len() ==> 0 <= #[trigger] origin[a] < i && kept@[a] == old_es[origin[a]]
                    && old_es[origin[a]].1 > bound,
                forall|a: int, b: int| 0 <= a < b < kept@.len() ==> #[trigger] origin[a] < #[trigger] origin[b],
                forall|j: int| 0 <= j < i && #[trigger] old_es[j].1 > bound ==> exists|a: int| 0 <= a < kept@.len() && origin[a] == j,
            decreases old_es.len() - i,
        {
            if es[i].1 > bound {
                let e = (es[i].0.clone(), es[i].1);
                kept.push(e);
                proof {
                    let prev = origin;
                    origin = origin.push(i as int);
                    assert forall|a: int| 0 <= a < prev.len() implies #[trigger] origin[a] == prev[a] by {}
                    assert(kept@[kept@.len() - 1] == old_es[i as int]);
                    assert forall|j: int| 0 <= j < i + 1 && #[trigger] old_es[j].1 > bound implies exists|a: int| 0 <= a < kept@.len() && origin[a] == j by {
                        if j == i {
                            assert(origin[origin.len() - 1] == j);
                        } else {
                            let a = choose|a: int| 0 <= a < prev.len() && prev[a] == j;
                            assert(origin[a] == j);
                        }
                    }
                }
            }
            i += 1;
        }
        proof {
            let ns = kept@;
            assert forall|a: int, b: int| 0 <= a < b < ns.len() implies #[trigger] ns[a].0@ != #[trigger] ns[b].0@ by {
                assert(origin[a] < origin[b]);
            }
            lemma_index_of_key(old_es, Seq::<char>::empty());
            let want = Map::new(
                |k: Seq<char>| keyed_view(old_es).contains_key(k) && keyed_view(old_es)[k] > bound,
                |k: Seq<char>| keyed_view(old_es)[k],
            );
            assert forall|q: Seq<char>| #![trigger index_of_key(ns, q)]
                (index_of_key(ns, q) >= 0) == want.contains_key(q)
                && (index_of_key(ns, q) >= 0 ==> ns[index_of_key(ns, q)].1 == want[q]) by {
                lemma_index_of_key(ns, q);
                lemma_index_of_key(old_es, q);
                if index_of_key(ns, q) >= 0 {
                    let a = index_of_key(ns, q);
                    assert(old_es[origin[a]].0@ == q);
                }
                if want.contains_key(q) {
                    let j = index_of_key(old_es, q);
                    assert(old_es[j].1 > bound);
                    let a = choose|a: int| 0 <= a < kept@.len() && origin[a] == j;
                    assert(ns[a].0@ == q);
                }
            }
            assert(keyed_view(ns) =~= want);
        }
        self.entries = kept;
    }
}

} // verus!
