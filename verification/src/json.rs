//! A JSON value as the logging code sees it, and the rule by which a second
//! value is folded into a key that already holds one.
use vstd::prelude::*;

verus! {

/// A JSON value. Numbers are held as their JSON text; an object is a list of
/// entries, in the order in which they were first added.
#[derive(Debug, PartialEq)]
pub enum JsonValue {
    Null,
    Bool(bool),
    Number(String),
    String(String),
    Array(Vec<JsonValue>),
    Object(Vec<(String, JsonValue)>),
}

/// `es[i]` is the first entry with key `k`.
pub open spec fn first_key_at(es: Seq<(String, JsonValue)>, k: Seq<char>, i: int) -> bool {
    &&& 0 <= i < es.len()
    &&& es[i].0@ == k
    &&& forall|t: int| 0 <= t < i ==> (#[trigger] es[t]).0@ != k
}

/// The position of the first entry with key `k`, or -1 when there is none.
pub open spec fn key_index(es: Seq<(String, JsonValue)>, k: Seq<char>) -> int {
    if exists|i: int| first_key_at(es, k, i) {
        choose|i: int| first_key_at(es, k, i)
    } else {
        -1
    }
}

/// Sets the entry `e` in an object: its value replaces the entry with the same
/// key, or it is added at the end when the key is new.
pub open spec fn upsert(es: Seq<(String, JsonValue)>, e: (String, JsonValue)) -> Seq<
    (String, JsonValue),
> {
    let i = key_index(es, e.0@);
    if i < 0 {
        es.push(e)
    } else {
        es.update(i, e)
    }
}

/// The entries of `es` after the entries of `new` are set in it, one after
/// another.
pub open spec fn merged(es: Seq<(String, JsonValue)>, new: Seq<(String, JsonValue)>) -> Seq<
    (String, JsonValue),
>
    decreases new.len(),
{
    if new.len() == 0 {
        es
    } else {
        upsert(merged(es, new.drop_last()), new.last())
    }
}

/// What an object's entries map each key to; of two entries with one key the
/// later one counts.
pub open spec fn entries_map(es: Seq<(String, JsonValue)>) -> Map<Seq<char>, JsonValue>
    decreases es.len(),
{
    if es.len() == 0 {
        Map::empty()
    } else {
        entries_map(es.drop_last()).insert(es.last().0@, es.last().1)
    }
}

/// No key occurs twice among the entries.
pub open spec fn distinct_keys(es: Seq<(String, JsonValue)>) -> bool {
    forall|a: int, b: int|
        0 <= a < b < es.len() ==> (#[trigger] es[a]).0@ != (#[trigger] es[b]).0@
}

/// `result` is what folding `incoming` into `slot` gives: two objects merge,
/// the later value winning for a key they share; an array collects the
/// incoming value at its end; anything else becomes an array of the two
/// values. Nothing is dropped.
pub open spec fn combines_to(slot: JsonValue, incoming: JsonValue, result: JsonValue) -> bool {
    match (slot, incoming) {
        (JsonValue::Object(current), JsonValue::Object(new)) => result matches JsonValue::Object(
            r,
        ) && r@ == merged(current@, new@),
        (JsonValue::Array(items), _) => result matches JsonValue::Array(r) && r@ == items@.push(
            incoming,
        ),
        _ => result matches JsonValue::Array(r) && r@ == seq![slot, incoming],
    }
}

proof fn lemma_first_key_unique(es: Seq<(String, JsonValue)>, k: Seq<char>, i: int, j: int)
    requires
        first_key_at(es, k, i),
        first_key_at(es, k, j),
    ensures
        i == j,
{
    if i < j {
        assert(es[i].0@ != k);
    } else if j < i {
        assert(es[j].0@ != k);
    }
}

/// The position of the first entry of `es` with key `k`, if any.
pub fn find_key(es: &Vec<(String, JsonValue)>, k: &str) -> (r: Option<usize>)
    ensures
        match r {
            Some(i) => first_key_at(es@, k@, i as int) && key_index(es@, k@) == i,
            None => key_index(es@, k@) == -1,
        },
{
    let mut i: usize = 0;
    while i < es.len()
        invariant
            i <= es.len(),
            forall|t: int| 0 <= t < i ==> (#[trigger] es@[t]).0@ != k@,
        decreases es.len() - i,
    {
        if crate::text::text_eq(es[i].0.as_str(), k) {
            proof {
                assert(first_key_at(es@, k@, i as int));
                let c = choose|c: int| first_key_at(es@, k@, c);
                lemma_first_key_unique(es@, k@, i as int, c);
            }
            return Some(i);
        }
        i = i + 1;
    }
    proof {
        if exists|c: int| first_key_at(es@, k@, c) {
            let c = choose|c: int| first_key_at(es@, k@, c);
            assert(es@[c].0@ != k@);
        }
    }
    None
}

/// Sets each entry of `new` in `current`, in order.
pub fn merge_entries(current: &mut Vec<(String, JsonValue)>, new: Vec<(String, JsonValue)>)
    ensures
        final(current)@ == merged(old(current)@, new@),
{
    let ghost all_new = new@;
    let ghost start = current@;
    let mut rest = new;
    let ghost mut t: int = 0;
    while rest.len() > 0
        invariant
            0 <= t <= all_new.len(),
            rest@ == all_new.skip(t),
            current@ == merged(start, all_new.take(t)),
        decreases rest.len(),
    {
        let e = rest.remove(0);
        proof {
            assert(e == all_new[t]);
            assert(all_new.take(t + 1).drop_last() =~= all_new.take(t));
            assert(all_new.take(t + 1).last() == all_new[t]);
        }
        match find_key(current, e.0.as_str()) {
            Some(i) => {
                current.set(i, e);
            },
            None => {
                current.push(e);
            },
        }
        proof {
            t = t + 1;
            assert(rest@ =~= all_new.skip(t));
        }
    }
    proof {
        assert(all_new.take(t) =~= all_new);
    }
}

/// Folds a second value into a key that is already present.
///
/// Objects merge, so several layers can each contribute fields to one subject.
/// Anything else collects into an array. Nothing is dropped.
pub fn combine(slot: &mut JsonValue, incoming: JsonValue)
    ensures
        combines_to(*old(slot), incoming, *final(slot)),
{
    let mut previous = JsonValue::Null;
    std::mem::swap(&mut previous, slot);
    match previous {
        JsonValue::Object(mut current) => {
            match incoming {
                JsonValue::Object(new) => {
                    merge_entries(&mut current, new);
                    *slot = JsonValue::Object(current);
                },
                other => {
                    let items = vec![JsonValue::Object(current), other];
                    *slot = JsonValue::Array(items);
                },
            }
        },
        JsonValue::Array(mut items) => {
            items.push(incoming);
            *slot = JsonValue::Array(items);
        },
        other => {
            let items = vec![other, incoming];
            *slot = JsonValue::Array(items);
        },
    }
}

// ---------------------------------------------------------------------------
// What a merge means for the keys of an object
// ---------------------------------------------------------------------------

proof fn lemma_entries_map_update(es: Seq<(String, JsonValue)>, i: int, e: (String, JsonValue))
    requires
        distinct_keys(es),
        0 <= i < es.len(),
        es[i].0@ == e.0@,
    ensures
        entries_map(es.update(i, e)) == entries_map(es).insert(e.0@, e.1),
        distinct_keys(es.update(i, e)),
    decreases es.len(),
{
    let u = es.update(i, e);
    if i == es.len() - 1 {
        assert(u.drop_last() =~= es.drop_last());
        assert(entries_map(u) == entries_map(es.drop_last()).insert(e.0@, e.1));
        assert(entries_map(es).insert(e.0@, e.1) =~= entries_map(es.drop_last()).insert(e.0@, e.1));
    } else {
        let d = es.drop_last();
        assert(u.drop_last() =~= d.update(i, e));
        assert(distinct_keys(d));
        lemma_entries_map_update(d, i, e);
        assert(es.last().0@ != e.0@) by {
            assert(es[es.len() - 1].0@ != es[i].0@);
        }
        assert(u.last() == es.last());
        assert(entries_map(u) =~= entries_map(es).insert(e.0@, e.1));
    }
    assert forall|a: int, b: int| 0 <= a < b < u.len() implies (#[trigger] u[a]).0@ != (
    #[trigger] u[b]).0@ by {
        assert(es[a].0@ != es[b].0@);
    }
}

proof fn lemma_entries_map_push(es: Seq<(String, JsonValue)>, e: (String, JsonValue))
    requires
        distinct_keys(es),
        key_index(es, e.0@) == -1,
    ensures
        entries_map(es.push(e)) == entries_map(es).insert(e.0@, e.1),
        distinct_keys(es.push(e)),
{
    assert(es.push(e).drop_last() =~= es);
    let p = es.push(e);
    assert forall|a: int, b: int| 0 <= a < b < p.len() implies (#[trigger] p[a]).0@ != (
    #[trigger] p[b]).0@ by {
        if b == es.len() {
            if es[a].0@ == e.0@ {
                lemma_exists_first(es, e.0@, a);
            }
        } else {
            assert(es[a].0@ != es[b].0@);
        }
    }
}

/// A key present in the entries has a first position.
proof fn lemma_exists_first(es: Seq<(String, JsonValue)>, k: Seq<char>, a: int)
    requires
        0 <= a < es.len(),
        es[a].0@ == k,
    ensures
        key_index(es, k) >= 0,
    decreases a,
{
    if forall|t: int| 0 <= t < a ==> (#[trigger] es[t]).0@ != k {
        assert(first_key_at(es, k, a));
        let c = choose|c: int| first_key_at(es, k, c);
    } else {
        let b = choose|t: int| 0 <= t < a && (#[trigger] es[t]).0@ == k;
        lemma_exists_first(es, k, b);
    }
}

proof fn lemma_upsert_map(es: Seq<(String, JsonValue)>, e: (String, JsonValue))
    requires
        distinct_keys(es),
    ensures
        entries_map(upsert(es, e)) == entries_map(es).insert(e.0@, e.1),
        distinct_keys(upsert(es, e)),
{
    let i = key_index(es, e.0@);
    if i < 0 {
        lemma_entries_map_push(es, e);
    } else {
        let c = choose|c: int| first_key_at(es, e.0@, c);
        assert(first_key_at(es, e.0@, i));
        lemma_entries_map_update(es, i, e);
    }
}

/// Objects merge key by key: after the merge, a key maps to the incoming
/// value where the incoming object has it, and to its old value otherwise.
/// A repeated field takes the later value, and no key is lost.
pub proof fn law_merge_is_union_prefer_incoming(
    current: Seq<(String, JsonValue)>,
    new: Seq<(String, JsonValue)>,
)
    requires
        distinct_keys(current),
    ensures
        entries_map(merged(current, new)) == entries_map(current).union_prefer_right(
            entries_map(new),
        ),
        distinct_keys(merged(current, new)),
    decreases new.len(),
{
    if new.len() == 0 {
        assert(entries_map(current).union_prefer_right(entries_map(new)) =~= entries_map(
            current,
        ));
    } else {
        law_merge_is_union_prefer_incoming(current, new.drop_last());
        lemma_upsert_map(merged(current, new.drop_last()), new.last());
        assert(entries_map(merged(current, new)) =~= entries_map(current).union_prefer_right(
            entries_map(new),
        ));
    }
}

/// Folding a value into a key drops nothing: two objects merge key by key
/// with the incoming value winning; anything else collects into an array
/// that ends with the incoming value and still holds what was there (the
/// old items of an array in order, or the old value itself).
pub proof fn law_combining_drops_nothing(slot: JsonValue, incoming: JsonValue, result: JsonValue)
    requires
        combines_to(slot, incoming, result),
        slot matches JsonValue::Object(cur) ==> distinct_keys(cur@),
    ensures
        match (slot, incoming, result) {
            (JsonValue::Object(cur), JsonValue::Object(new), JsonValue::Object(r)) => entries_map(r@)
                == entries_map(cur@).union_prefer_right(entries_map(new@)),
            (JsonValue::Object(_), JsonValue::Object(_), _) => false,
            (JsonValue::Array(items), _, JsonValue::Array(r)) => r@.len() == items@.len() + 1
                && r@.last() == incoming && r@.take(items@.len() as int) == items@,
            (_, _, JsonValue::Array(r)) => !(slot is Array) && r@.len() == 2 && r@[0] == slot
                && r@.last() == incoming,
            _ => false,
        },
{
    if let (JsonValue::Object(cur), JsonValue::Object(new)) = (slot, incoming) {
        law_merge_is_union_prefer_incoming(cur@, new@);
    }
    if let (JsonValue::Array(items), JsonValue::Array(r)) = (slot, result) {
        assert(r@.take(items@.len() as int) =~= items@);
    }
}

} // verus!
