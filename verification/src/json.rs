//! JSON values and the difference between two of them: what changed from one state document to
//! the next, as a JSON value of its own.

use vstd::prelude::*;
use vstd::string::*;

verus! {

/// A JSON value. A number is held as the text it is written as; an object as its entries, each
/// key at most once.
#[derive(Debug, PartialEq, Eq)]
pub enum Json {
    Null,
    Bool(bool),
    Number(String),
    Text(String),
    Array(Vec<Json>),
    Object(Vec<(String, Json)>),
}

/// What a JSON value is: an object is a map from keys to values, so two objects with the same
/// entries in another order are the same value.
pub enum JsonView {
    Null,
    Bool(bool),
    Number(Seq<char>),
    Text(Seq<char>),
    Array(Seq<JsonView>),
    Object(Map<Seq<char>, JsonView>),
}

/// Some entry has key `k`.
pub open spec fn has_key(es: Seq<(String, Json)>, k: Seq<char>) -> bool {
    exists|i: int| 0 <= i < es.len() && (#[trigger] es[i]).0@ == k
}

/// The position of an entry with key `k`.
pub open spec fn key_index(es: Seq<(String, Json)>, k: Seq<char>) -> int {
    choose|i: int| 0 <= i < es.len() && (#[trigger] es[i]).0@ == k
}

/// No key occurs twice among the entries.
pub open spec fn distinct_keys(es: Seq<(String, Json)>) -> bool {
    forall|i: int, j: int| 0 <= i < es.len() && 0 <= j < es.len() && i != j ==> (#[trigger] es[i]).0@ != (#[trigger] es[j]).0@
}

/// What a JSON value is.
pub open spec fn json_view(j: Json) -> JsonView
    decreases j,
{
    match j {
        Json::Null => JsonView::Null,
        Json::Bool(b) => JsonView::Bool(b),
        Json::Number(s) => JsonView::Number(s@),
        Json::Text(s) => JsonView::Text(s@),
        Json::Array(v) => JsonView::Array(
            Seq::new(
                v@.len(),
                |i: int|
                    if 0 <= i < v@.len() {
                        json_view(v@[i])
                    } else {
                        JsonView::Null
                    },
            ),
        ),
        Json::Object(es) => JsonView::Object(
            Map::new(
                |k: Seq<char>| has_key(es@, k),
                |k: Seq<char>|
                    if has_key(es@, k) {
                        json_view(es@[key_index(es@, k)].1)
                    } else {
                        JsonView::Null
                    },
            ),
        ),
    }
}

/// Every object in the value, at any depth, has each key at most once.
pub open spec fn json_wf(j: Json) -> bool
    decreases j,
{
    match j {
        Json::Array(v) => forall|i: int| 0 <= i < v@.len() ==> json_wf(#[trigger] v@[i]),
        Json::Object(es) => distinct_keys(es@) && forall|i: int|
            0 <= i < es@.len() ==> json_wf((#[trigger] es@[i]).1),
        _ => true,
    }
}

/// With each key at most once, the entry at `i` is the one found by its key.
pub proof fn lemma_key_at(es: Seq<(String, Json)>, i: int)
    requires
        distinct_keys(es),
        0 <= i < es.len(),
    ensures
        has_key(es, es[i].0@),
        key_index(es, es[i].0@) == i,
{
    let k = es[i].0@;
    assert(es[i].0@ == k);
    let j = key_index(es, k);
    assert(0 <= j < es.len() && es[j].0@ == k);
    if j != i {
        assert(es[i].0@ != es[j].0@);
    }
}

/// A copy of a JSON value.
pub fn clone_json(j: &Json) -> (r: Json)
    requires
        json_wf(*j),
    ensures
        json_view(r) == json_view(*j),
        json_wf(r),
    decreases j,
{
    match j {
        Json::Null => Json::Null,
        Json::Bool(b) => Json::Bool(*b),
        Json::Number(s) => Json::Number(s.clone()),
        Json::Text(s) => Json::Text(s.clone()),
        Json::Array(v) => {
            let mut out: Vec<Json> = Vec::new();
            let mut i: usize = 0;
            while i < v.len()
                invariant
                    i <= v@.len(),
                    *j == Json::Array(*v),
                    forall|t: int| 0 <= t < v@.len() ==> json_wf(#[trigger] v@[t]),
                    out@.len() == i,
                    forall|t: int| 0 <= t < i ==> json_view(#[trigger] out@[t]) == json_view(v@[t]),
                    forall|t: int| 0 <= t < i ==> json_wf(#[trigger] out@[t]),
                decreases v@.len() - i,
            {
                proof {
                    assert(decreases_to!(*j => (*j)->Array_0));
                    assert(decreases_to!((*j)->Array_0 => (*j)->Array_0@));
                    assert(decreases_to!((*j)->Array_0@ => (*j)->Array_0@[i as int]));
                }
                let c = clone_json(&v[i]);
                out.push(c);
                i += 1;
            }
            let r = Json::Array(out);
            proof {
                assert(json_view(r)->Array_0 =~= json_view(*j)->Array_0);
            }
            r
        },
        Json::Object(es) => {
            let mut out: Vec<(String, Json)> = Vec::new();
            let mut i: usize = 0;
            while i < es.len()
                invariant
                    i <= es@.len(),
                    *j == Json::Object(*es),
                    forall|t: int| 0 <= t < es@.len() ==> json_wf((#[trigger] es@[t]).1),
                    out@.len() == i,
                    forall|t: int| 0 <= t < i ==> (#[trigger] out@[t]).0@ == es@[t].0@,
                    forall|t: int| 0 <= t < i ==> json_view((#[trigger] out@[t]).1) == json_view(es@[t].1),
                    forall|t: int| 0 <= t < i ==> json_wf((#[trigger] out@[t]).1),
                decreases es@.len() - i,
            {
                let k = es[i].0.clone();
                proof {
                    assert(decreases_to!(*j => (*j)->Object_0));
                    assert(decreases_to!((*j)->Object_0 => (*j)->Object_0@));
                    assert(decreases_to!((*j)->Object_0@ => (*j)->Object_0@[i as int]));
                    assert(decreases_to!((*j)->Object_0@[i as int] => (*j)->Object_0@[i as int].1));
                }
                let c = clone_json(&es[i].1);
                out.push((k, c));
                i += 1;
            }
            let r = Json::Object(out);
            proof {
                assert forall|k: Seq<char>| has_key(out@, k) == has_key(es@, k) by {
                    if has_key(out@, k) {
                        let t = key_index(out@, k);
                        assert(es@[t].0@ == k);
                    }
                    if has_key(es@, k) {
                        let t = key_index(es@, k);
                        assert(out@[t].0@ == k);
                    }
                }
                assert(distinct_keys(out@));
                let mo = json_view(r)->Object_0;
                let me = json_view(*j)->Object_0;
                assert forall|k: Seq<char>| #[trigger] mo.contains_key(k) implies mo[k] == me[k] by {
                    let t = key_index(out@, k);
                    lemma_key_at(out@, t);
                    lemma_key_at(es@, t);
                }
                assert(mo =~= me);
            }
            r
        },
    }
}

/// The position of the entry with key `k`, if some entry has it.
fn find_key(es: &Vec<(String, Json)>, k: &String) -> (r: Option<usize>)
    ensures
        match r {
            Some(i) => i < es@.len() && es@[i as int].0@ == k@,
            None => !has_key(es@, k@),
        },
{
    let mut i: usize = 0;
    while i < es.len()
        invariant
            i <= es@.len(),
            forall|t: int| 0 <= t < i ==> (#[trigger] es@[t]).0@ != k@,
        decreases es@.len() - i,
    {
        if es[i].0 == *k {
            return Some(i);
        }
        i += 1;
    }
    None
}

/// Whether two JSON values are equal; objects are equal when they have the same keys with equal
/// values, in whatever order.
pub fn json_equal(a: &Json, b: &Json) -> (r: bool)
    requires
        json_wf(*a),
        json_wf(*b),
    ensures
        r == (json_view(*a) == json_view(*b)),
    decreases a,
{
    match (a, b) {
        (Json::Null, Json::Null) => true,
        (Json::Bool(x), Json::Bool(y)) => *x == *y,
        (Json::Number(x), Json::Number(y)) => *x == *y,
        (Json::Text(x), Json::Text(y)) => *x == *y,
        (Json::Array(xs), Json::Array(ys)) => {
            if xs.len() != ys.len() {
                proof {
                    assert(json_view(*a)->Array_0.len() != json_view(*b)->Array_0.len());
                }
                return false;
            }
            let mut i: usize = 0;
            while i < xs.len()
                invariant
                    *a == Json::Array(*xs),
                    *b == Json::Array(*ys),
                    xs@.len() == ys@.len(),
                    i <= xs@.len(),
                    forall|t: int| 0 <= t < xs@.len() ==> json_wf(#[trigger] xs@[t]),
                    forall|t: int| 0 <= t < ys@.len() ==> json_wf(#[trigger] ys@[t]),
                    forall|t: int| 0 <= t < i ==> json_view(#[trigger] xs@[t]) == json_view(ys@[t]),
                decreases xs@.len() - i,
            {
                proof {
                    assert(decreases_to!(*a => (*a)->Array_0));
                    assert(decreases_to!((*a)->Array_0 => (*a)->Array_0@));
                    assert(decreases_to!((*a)->Array_0@ => (*a)->Array_0@[i as int]));
                }
                if !json_equal(&xs[i], &ys[i]) {
                    proof {
                        assert(json_view(*a)->Array_0[i as int] != json_view(*b)->Array_0[i as int]);
                    }
                    return false;
                }
                i += 1;
            }
            proof {
                assert(json_view(*a)->Array_0 =~= json_view(*b)->Array_0);
            }
            true
        },
        (Json::Object(xs), Json::Object(ys)) => {
            let mut i: usize = 0;
            while i < xs.len()
                invariant
                    *a == Json::Object(*xs),
                    *b == Json::Object(*ys),
                    i <= xs@.len(),
                    distinct_keys(xs@),
                    distinct_keys(ys@),
                    forall|t: int| 0 <= t < xs@.len() ==> json_wf((#[trigger] xs@[t]).1),
                    forall|t: int| 0 <= t < ys@.len() ==> json_wf((#[trigger] ys@[t]).1),
                    forall|t: int|
                        0 <= t < i ==> has_key(ys@, (#[trigger] xs@[t]).0@) && json_view(xs@[t].1)
                            == json_view(ys@[key_index(ys@, xs@[t].0@)].1),
                decreases xs@.len() - i,
            {
                proof {
                    lemma_key_at(xs@, i as int);
                }
                match find_key(ys, &xs[i].0) {
                    None => {
                        proof {
                            assert(json_view(*a)->Object_0.contains_key(xs@[i as int].0@));
                        }
                        return false;
                    },
                    Some(j) => {
                        proof {
                            lemma_key_at(ys@, j as int);
                            assert(decreases_to!(*a => (*a)->Object_0));
                            assert(decreases_to!((*a)->Object_0 => (*a)->Object_0@));
                            assert(decreases_to!((*a)->Object_0@ => (*a)->Object_0@[i as int]));
                            assert(decreases_to!((*a)->Object_0@[i as int] => (*a)->Object_0@[i as int].1));
                        }
                        if !json_equal(&xs[i].1, &ys[j].1) {
                            proof {
                                let k = xs@[i as int].0@;
                                assert(json_view(*a)->Object_0[k] != json_view(*b)->Object_0[k]);
                            }
                            return false;
                        }
                    },
                }
                i += 1;
            }
            let mut j: usize = 0;
            while j < ys.len()
                invariant
                    *a == Json::Object(*xs),
                    *b == Json::Object(*ys),
                    j <= ys@.len(),
                    forall|t: int| 0 <= t < j ==> has_key(xs@, (#[trigger] ys@[t]).0@),
                decreases ys@.len() - j,
            {
                if find_key(xs, &ys[j].0).is_none() {
                    proof {
                        assert(ys@[j as int].0@ == ys@[j as int].0@);
                        assert(json_view(*b)->Object_0.contains_key(ys@[j as int].0@));
                    }
                    return false;
                }
                j += 1;
            }
            proof {
                let ma = json_view(*a)->Object_0;
                let mb = json_view(*b)->Object_0;
                assert forall|k: Seq<char>| #[trigger] ma.contains_key(k) implies mb.contains_key(k) && ma[k] == mb[k] by {
                    let t = key_index(xs@, k);
                    lemma_key_at(xs@, t);
                }
                assert forall|k: Seq<char>| #[trigger] mb.contains_key(k) implies ma.contains_key(k) by {
                    let t = key_index(ys@, k);
                    assert(has_key(xs@, ys@[t].0@));
                }
                assert(ma =~= mb);
            }
            true
        },
        _ => false,
    }
}

/// The difference from `a` to `b`: nothing when they are equal; for two different objects, an
/// object with the keys whose values changed (their difference), the keys added (their new value)
/// and the keys removed (null); otherwise `b` itself.
pub open spec fn json_diff_spec(a: JsonView, b: JsonView) -> Option<JsonView>
    decreases a,
{
    if a == b {
        None
    } else {
        match (a, b) {
            (JsonView::Object(ma), JsonView::Object(mb)) => Some(
                JsonView::Object(
                    Map::new(
                        |k: Seq<char>|
                            (mb.contains_key(k) && (!ma.contains_key(k) || json_diff_spec(ma[k], mb[k]) is Some))
                                || (ma.contains_key(k) && !mb.contains_key(k)),
                        |k: Seq<char>|
                            if !ma.contains_key(k) {
                                mb[k]
                            } else if !mb.contains_key(k) {
                                JsonView::Null
                            } else {
                                json_diff_spec(ma[k], mb[k])->0
                            },
                    ),
                ),
            ),
            _ => Some(b),
        }
    }
}

/// Key `k` appears in the difference of two objects: it was added, removed, or its value changed.
pub open spec fn diff_key(ma: Map<Seq<char>, JsonView>, mb: Map<Seq<char>, JsonView>, k: Seq<char>) -> bool {
    (mb.contains_key(k) && (!ma.contains_key(k) || json_diff_spec(ma[k], mb[k]) is Some))
        || (ma.contains_key(k) && !mb.contains_key(k))
}

/// What the difference of two objects holds at key `k`: the new value of an added key, null for
/// a removed key, the difference of the values of a changed key.
pub open spec fn diff_value(ma: Map<Seq<char>, JsonView>, mb: Map<Seq<char>, JsonView>, k: Seq<char>) -> JsonView {
    if !ma.contains_key(k) {
        mb[k]
    } else if !mb.contains_key(k) {
        JsonView::Null
    } else {
        json_diff_spec(ma[k], mb[k])->0
    }
}

/// The difference of two different objects is an object holding exactly the keys that were
/// added, removed or changed, each with its `diff_value`; and at least one key qualifies.
proof fn lemma_object_diff(ma: Map<Seq<char>, JsonView>, mb: Map<Seq<char>, JsonView>)
    requires
        ma != mb,
    ensures
        ({
            let r = json_diff_spec(JsonView::Object(ma), JsonView::Object(mb));
            &&& r is Some
            &&& r->0 is Object
            &&& forall|k: Seq<char>| #[trigger] r->0->Object_0.contains_key(k) == diff_key(ma, mb, k)
            &&& forall|k: Seq<char>| diff_key(ma, mb, k) ==> #[trigger] r->0->Object_0[k] == diff_value(ma, mb, k)
            &&& exists|k: Seq<char>| diff_key(ma, mb, k)
        }),
{
    if forall|k: Seq<char>| !diff_key(ma, mb, k) {
        assert forall|k: Seq<char>| #[trigger] ma.contains_key(k) implies mb.contains_key(k) && ma[k] == mb[k] by {
            assert(!diff_key(ma, mb, k));
        }
        assert forall|k: Seq<char>| #[trigger] mb.contains_key(k) implies ma.contains_key(k) by {
            assert(!diff_key(ma, mb, k));
        }
        assert(ma =~= mb);
    }
}

/// An entry added at the end keeps every key found before and is found by its own key.
proof fn lemma_has_key_push(es: Seq<(String, Json)>, e: (String, Json))
    ensures
        has_key(es.push(e), e.0@),
        forall|k: Seq<char>| has_key(es, k) ==> #[trigger] has_key(es.push(e), k),
{
    assert(es.push(e)[es.len() as int] == e);
    assert forall|k: Seq<char>| has_key(es, k) implies #[trigger] has_key(es.push(e), k) by {
        let t = key_index(es, k);
        assert(es.push(e)[t] == es[t]);
    }
}

/// The difference from `a` to `b` (see `json_diff_spec`): `None` when nothing changed.
pub fn json_diff(a: &Json, b: &Json) -> (r: Option<Json>)
    requires
        json_wf(*a),
        json_wf(*b),
    ensures
        match r {
            None => json_diff_spec(json_view(*a), json_view(*b)) is None,
            Some(d) => json_wf(d) && json_diff_spec(json_view(*a), json_view(*b)) == Some(json_view(d)),
        },
    decreases a,
{
    if json_equal(a, b) {
        return None;
    }
    match (a, b) {
        (Json::Object(xs), Json::Object(ys)) => {
            let ghost ma = json_view(*a)->Object_0;
            let ghost mb = json_view(*b)->Object_0;
            proof {
                lemma_object_diff(ma, mb);
            }
            let mut out: Vec<(String, Json)> = Vec::new();
            let mut j: usize = 0;
            while j < ys.len()
                invariant
                    *a == Json::Object(*xs),
                    *b == Json::Object(*ys),
                    ma == json_view(*a)->Object_0,
                    mb == json_view(*b)->Object_0,
                    j <= ys@.len(),
                    distinct_keys(xs@),
                    distinct_keys(ys@),
                    forall|t: int| 0 <= t < xs@.len() ==> json_wf((#[trigger] xs@[t]).1),
                    forall|t: int| 0 <= t < ys@.len() ==> json_wf((#[trigger] ys@[t]).1),
                    distinct_keys(out@),
                    forall|t: int| 0 <= t < out@.len() ==> {
                        let k = (#[trigger] out@[t]).0@;
                        &&& has_key(ys@, k)
                        &&& key_index(ys@, k) < j
                        &&& diff_key(ma, mb, k)
                        &&& json_view(out@[t].1) == diff_value(ma, mb, k)
                        &&& json_wf(out@[t].1)
                    },
                    forall|u: int| 0 <= u < j && diff_key(ma, mb, (#[trigger] ys@[u]).0@) ==> has_key(out@, ys@[u].0@),
                decreases ys@.len() - j,
            {
                proof {
                    lemma_key_at(ys@, j as int);
                }
                let k = ys[j].0.clone();
                match find_key(xs, &ys[j].0) {
                    Some(i) => {
                        proof {
                            lemma_key_at(xs@, i as int);
                            assert(decreases_to!(*a => (*a)->Object_0));
                            assert(decreases_to!((*a)->Object_0 => (*a)->Object_0@));
                            assert(decreases_to!((*a)->Object_0@ => (*a)->Object_0@[i as int]));
                            assert(decreases_to!((*a)->Object_0@[i as int] => (*a)->Object_0@[i as int].1));
                        }
                        match json_diff(&xs[i].1, &ys[j].1) {
                            Some(d) => {
                                proof {
                                    assert forall|t: int| 0 <= t < out@.len() implies (#[trigger] out@[t]).0@ != k@ by {
                                        lemma_key_at(ys@, key_index(ys@, out@[t].0@));
                                    }
                                }
                                proof {
                                    lemma_has_key_push(out@, (k, d));
                                }
                                out.push((k, d));
                            },
                            None => {},
                        }
                    },
                    None => {
                        let c = clone_json(&ys[j].1);
                        proof {
                            assert forall|t: int| 0 <= t < out@.len() implies (#[trigger] out@[t]).0@ != k@ by {
                                lemma_key_at(ys@, key_index(ys@, out@[t].0@));
                            }
                        }
                        proof {
                            lemma_has_key_push(out@, (k, c));
                        }
                        out.push((k, c));
                    },
                }
                j += 1;
            }
            let mut i: usize = 0;
            while i < xs.len()
                invariant
                    *a == Json::Object(*xs),
                    *b == Json::Object(*ys),
                    ma == json_view(*a)->Object_0,
                    mb == json_view(*b)->Object_0,
                    i <= xs@.len(),
                    distinct_keys(xs@),
                    distinct_keys(ys@),
                    distinct_keys(out@),
                    forall|t: int| 0 <= t < out@.len() ==> {
                        let k = (#[trigger] out@[t]).0@;
                        &&& has_key(ys@, k) || (has_key(xs@, k) && key_index(xs@, k) < i)
                        &&& diff_key(ma, mb, k)
                        &&& json_view(out@[t].1) == diff_value(ma, mb, k)
                        &&& json_wf(out@[t].1)
                    },
                    forall|u: int| 0 <= u < ys@.len() && diff_key(ma, mb, (#[trigger] ys@[u]).0@) ==> has_key(out@, ys@[u].0@),
                    forall|u: int| 0 <= u < i && !has_key(ys@, (#[trigger] xs@[u]).0@) ==> has_key(out@, xs@[u].0@),
                decreases xs@.len() - i,
            {
                proof {
                    lemma_key_at(xs@, i as int);
                }
                if find_key(ys, &xs[i].0).is_none() {
                    let k = xs[i].0.clone();
                    proof {
                        assert forall|t: int| 0 <= t < out@.len() implies (#[trigger] out@[t]).0@ != k@ by {
                            if !has_key(ys@, out@[t].0@) {
                                lemma_key_at(xs@, key_index(xs@, out@[t].0@));
                            }
                        }
                    }
                    proof {
                        lemma_has_key_push(out@, (k, Json::Null));
                    }
                    out.push((k, Json::Null));
                    proof {
                        assert(json_view(Json::Null) == JsonView::Null);
                    }
                }
                i += 1;
            }
            if out.len() == 0 {
                proof {
                    assert forall|k: Seq<char>| !diff_key(ma, mb, k) by {
                        if diff_key(ma, mb, k) {
                            if mb.contains_key(k) {
                                let u = key_index(ys@, k);
                                assert(has_key(out@, ys@[u].0@));
                            } else {
                                let u = key_index(xs@, k);
                                assert(has_key(out@, xs@[u].0@));
                            }
                        }
                    }
                }
                return None;
            }
            let r = Json::Object(out);
            proof {
                let dr = json_diff_spec(json_view(*a), json_view(*b));
                lemma_object_diff(ma, mb);
                let mo = json_view(r)->Object_0;
                assert forall|k: Seq<char>| #[trigger] mo.contains_key(k) == dr->0->Object_0.contains_key(k) by {
                    if diff_key(ma, mb, k) {
                        if mb.contains_key(k) {
                            let u = key_index(ys@, k);
                            assert(has_key(out@, ys@[u].0@));
                        } else {
                            let u = key_index(xs@, k);
                            assert(has_key(out@, xs@[u].0@));
                        }
                    }
                    if mo.contains_key(k) {
                        let t = key_index(out@, k);
                        assert(diff_key(ma, mb, out@[t].0@));
                    }
                }
                assert forall|k: Seq<char>| #[trigger] mo.contains_key(k) implies mo[k] == dr->0->Object_0[k] by {
                    let t = key_index(out@, k);
                    lemma_key_at(out@, t);
                }
                assert(mo =~= dr->0->Object_0);
                assert forall|t: int| 0 <= t < out@.len() implies json_wf((#[trigger] out@[t]).1) by {}
            }
            Some(r)
        },
        _ => {
            let c = clone_json(b);
            Some(c)
        },
    }
}

/// A difference is nothing exactly when the two values are equal: two different values, objects
/// included, always have a difference.
pub proof fn lemma_diff_none_iff_equal(a: JsonView, b: JsonView)
    ensures
        json_diff_spec(a, b) is None <==> a == b,
{
    if a != b {
        if let (JsonView::Object(ma), JsonView::Object(mb)) = (a, b) {
            lemma_object_diff(ma, mb);
        }
    }
}

} // verus!
