//! One request in, one structured log line out.
//!
//! This module holds what the log line is built from and the rules that fill
//! it: which request id a request is logged under, how a query string is
//! reduced to its shape, how context added by several layers is combined, and
//! at which level the line is written. Reading the request and writing the
//! line are left to the caller.
use vstd::prelude::*;

pub mod context_key;

pub use crate::json::{JsonValue, combine};

use crate::ids::{is_lower_hex_digit, new_request_id};
use crate::json::{combines_to, find_key, key_index};
use crate::text::{
    chars_of, compare_spans, join_commas, lemma_lex_total, lemma_lex_transitive, lemma_sorted_unique,
    lex_lt, strictly_sorted,
};

verus! {

// ---------------------------------------------------------------------------
// Query shape
// ---------------------------------------------------------------------------

/// `q[i..j]` is the key of one `&`-separated pair of the query: it starts a
/// pair and runs up to the first `=` or `&` (or the end).
pub open spec fn is_key_span(q: Seq<char>, i: int, j: int) -> bool {
    &&& 0 <= i < j <= q.len()
    &&& (i == 0 || q[i - 1] == '&')
    &&& forall|p: int| i <= p < j ==> q[p] != '&' && q[p] != '='
    &&& (j == q.len() || q[j] == '&' || q[j] == '=')
}

/// The non-empty keys of the pairs of `q` that start before position `start`.
pub open spec fn keys_before(q: Seq<char>, start: int) -> Set<Seq<char>> {
    Set::new(
        |k: Seq<char>|
            exists|i: int, j: int| #[trigger] is_key_span(q, i, j) && i < start && k == q.subrange(i, j),
    )
}

/// The set of non-empty key names of the query `q`.
pub open spec fn query_keys(q: Seq<char>) -> Set<Seq<char>> {
    keys_before(q, q.len() as int + 1)
}

/// `ks` lists the key names of `q`, sorted and without repetition.
pub open spec fn is_shape_of(q: Seq<char>, ks: Seq<Seq<char>>) -> bool {
    strictly_sorted(ks) && ks.to_set() == query_keys(q)
}

/// The elements of `keys` in increasing order, each once.
pub open spec fn sorted_form(keys: Set<Seq<char>>) -> Seq<Seq<char>> {
    choose|ks: Seq<Seq<char>>| strictly_sorted(ks) && ks.to_set() == keys
}

/// The sorted, deduplicated key names of `q`.
pub open spec fn query_shape_keys(q: Seq<char>) -> Seq<Seq<char>> {
    sorted_form(query_keys(q))
}

/// The shape depends only on which keys a query has: reordering its pairs,
/// repeating a key or changing the values leaves it as it is.
pub proof fn law_shape_depends_only_on_key_names(q1: Seq<char>, q2: Seq<char>)
    requires
        query_keys(q1) == query_keys(q2),
    ensures
        spec_query_shape(q1) == spec_query_shape(q2),
{
}

/// The query's key names, sorted, deduplicated and joined by commas.
pub open spec fn spec_query_shape(q: Seq<char>) -> Seq<char> {
    join_commas(query_shape_keys(q))
}

/// The pieces `q[i..j]` of `q` that end at or before `n`.
pub open spec fn pieces_up_to(q: Seq<char>, n: int) -> Set<Seq<char>> {
    Set::new(
        |k: Seq<char>| exists|i: int, j: int| 0 <= i <= j <= n && #[trigger] q.subrange(i, j) == k,
    )
}

proof fn lemma_pieces_finite(q: Seq<char>, n: int)
    requires
        0 <= n <= q.len(),
    ensures
        pieces_up_to(q, n).finite(),
    decreases n,
{
    if n == 0 {
        let e = Seq::<char>::empty();
        assert(pieces_up_to(q, 0) =~= set![e]) by {
            assert(q.subrange(0, 0) =~= e);
            assert forall|k: Seq<char>| pieces_up_to(q, 0).contains(k) implies k == e by {
                let (i, j) = choose|i: int, j: int| 0 <= i <= j <= 0 && #[trigger] q.subrange(i, j) == k;
                assert(k =~= e);
            }
        }
    } else {
        lemma_pieces_finite(q, n - 1);
        let ends = vstd::set_lib::set_int_range(0, n + 1).map(|i: int| q.subrange(i, n));
        vstd::set_lib::lemma_int_range(0, n + 1);
        vstd::set_lib::set_int_range(0, n + 1).lemma_map_finite(|i: int| q.subrange(i, n));
        assert(pieces_up_to(q, n) =~= pieces_up_to(q, n - 1).union(ends)) by {
            assert forall|k: Seq<char>| pieces_up_to(q, n).contains(k) implies pieces_up_to(
                q,
                n - 1,
            ).union(ends).contains(k) by {
                let (i, j) = choose|i: int, j: int| 0 <= i <= j <= n && #[trigger] q.subrange(i, j) == k;
                if j < n {
                    assert(pieces_up_to(q, n - 1).contains(k));
                } else {
                    assert(vstd::set_lib::set_int_range(0, n + 1).contains(i));
                    assert(ends.contains(k));
                }
            }
            assert forall|k: Seq<char>| pieces_up_to(q, n - 1).union(ends).contains(k) implies pieces_up_to(
                q,
                n,
            ).contains(k) by {
                if pieces_up_to(q, n - 1).contains(k) {
                    let (i, j) = choose|i: int, j: int|
                        0 <= i <= j <= n - 1 && #[trigger] q.subrange(i, j) == k;
                    assert(0 <= i <= j <= n && q.subrange(i, j) == k);
                } else {
                    let i = choose|i: int| vstd::set_lib::set_int_range(0, n + 1).contains(i) && q.subrange(i, n) == k;
                    assert(0 <= i <= n && q.subrange(i, n) == k);
                }
            }
        }
        vstd::set_lib::lemma_set_union_finite_iff(pieces_up_to(q, n - 1), ends);
    }
}

/// A query has finitely many key names.
pub proof fn lemma_query_keys_finite(q: Seq<char>)
    ensures
        query_keys(q).finite(),
{
    lemma_pieces_finite(q, q.len() as int);
    assert forall|k: Seq<char>| query_keys(q).contains(k) implies pieces_up_to(q, q.len() as int).contains(
        k,
    ) by {
        let (i, j) = choose|i: int, j: int|
            #[trigger] is_key_span(q, i, j) && i < q.len() + 1 && k == q.subrange(i, j);
        assert(0 <= i <= j <= q.len() && q.subrange(i, j) == k);
    }
    vstd::set_lib::lemma_set_subset_finite(pieces_up_to(q, q.len() as int), query_keys(q));
}

/// Every query has a shape: its key names, sorted and each once.
pub proof fn law_every_query_has_a_shape(q: Seq<char>)
    ensures
        is_shape_of(q, query_shape_keys(q)),
{
    lemma_query_keys_finite(q);
    crate::text::lemma_sorted_form_exists(query_keys(q));
}

/// Every character of a joined list is a comma or a character of one of the
/// joined texts.
proof fn lemma_join_chars(ks: Seq<Seq<char>>, p: int)
    requires
        0 <= p < join_commas(ks).len(),
    ensures
        join_commas(ks)[p] == ',' || exists|t: int, u: int|
            0 <= t < ks.len() && 0 <= u < ks[t].len() && #[trigger] ks[t][u] == join_commas(ks)[p],
    decreases ks.len(),
{
    if ks.len() == 1 {
        assert(ks[0][p] == join_commas(ks)[p]);
    } else if ks.len() > 1 {
        let front = join_commas(ks.drop_last());
        if p < front.len() {
            lemma_join_chars(ks.drop_last(), p);
            if join_commas(ks)[p] != ',' {
                let (t, u) = choose|t: int, u: int|
                    0 <= t < ks.drop_last().len() && 0 <= u < ks.drop_last()[t].len()
                        && #[trigger] ks.drop_last()[t][u] == front[p];
                assert(ks[t][u] == join_commas(ks)[p]);
            }
        } else if p > front.len() {
            let u = p - front.len() - 1;
            assert(ks[ks.len() - 1][u] == join_commas(ks)[p]);
        }
    }
}

/// Values stay out of the logs: the shape holds key names and the commas
/// between them, never a `=` or a `&` of the query.
pub proof fn law_shape_holds_no_separator(q: Seq<char>, p: int)
    requires
        0 <= p < spec_query_shape(q).len(),
    ensures
        spec_query_shape(q)[p] != '=',
        spec_query_shape(q)[p] != '&',
{
    law_every_query_has_a_shape(q);
    let ks = query_shape_keys(q);
    lemma_join_chars(ks, p);
    if spec_query_shape(q)[p] != ',' {
        let (t, u) = choose|t: int, u: int|
            0 <= t < ks.len() && 0 <= u < ks[t].len() && #[trigger] ks[t][u] == spec_query_shape(q)[p];
        assert(ks.to_set().contains(ks[t]));
        assert(query_keys(q).contains(ks[t]));
        let (i, j) = choose|i: int, j: int|
            #[trigger] is_key_span(q, i, j) && i < q.len() + 1 && ks[t] == q.subrange(i, j);
        assert(q[i + u] == ks[t][u]);
    }
}

/// The keys of a query are those of its pairs: a key followed by `=` and a
/// value (with no `&` in it) has exactly that key, whatever the value, and a
/// bare key is a key too.
pub proof fn law_a_pair_has_its_key(k: Seq<char>, v: Seq<char>)
    requires
        k.len() > 0,
        !k.contains('&'),
        !k.contains('='),
        !v.contains('&'),
    ensures
        query_keys(k + seq!['='] + v) == set![k],
        query_keys(k) == set![k],
{
    let q = k + seq!['='] + v;
    assert(q.subrange(0, k.len() as int) =~= k);
    assert forall|p: int| 0 <= p < k.len() implies q[p] != '&' && q[p] != '=' by {
        assert(q[p] == k[p]);
        if q[p] == '&' || q[p] == '=' {
            assert(k.contains(q[p]));
        }
    }
    assert(is_key_span(q, 0, k.len() as int));
    assert forall|x: Seq<char>| query_keys(q).contains(x) <==> set![k].contains(x) by {
        if query_keys(q).contains(x) {
            let (i, j) = choose|i: int, j: int|
                #[trigger] is_key_span(q, i, j) && i < q.len() + 1 && x == q.subrange(i, j);
            if i > 0 {
                if i - 1 < k.len() {
                    assert(k[i - 1] == q[i - 1]);
                    assert(k.contains('&'));
                } else if i - 1 > k.len() {
                    assert(v[i - 1 - k.len() - 1] == q[i - 1]);
                    assert(v.contains('&'));
                }
            }
            assert(i == 0);
            if j > k.len() {
                assert(q[k.len() as int] == '=');
            }
            if j < k.len() {
                assert(k[j] == q[j]);
                if q[j] == '&' || q[j] == '=' {
                    assert(k.contains(q[j]));
                }
            }
            assert(j == k.len());
            assert(x =~= k);
        }
        if x == k {
            assert(is_key_span(q, 0, k.len() as int) && 0 < q.len() + 1 && x == q.subrange(0, k.len() as int));
        }
    }
    assert(query_keys(q) =~= set![k]);
    assert(k.subrange(0, k.len() as int) =~= k);
    assert(is_key_span(k, 0, k.len() as int));
    assert forall|x: Seq<char>| query_keys(k).contains(x) <==> set![k].contains(x) by {
        if query_keys(k).contains(x) {
            let (i, j) = choose|i: int, j: int|
                #[trigger] is_key_span(k, i, j) && i < k.len() + 1 && x == k.subrange(i, j);
            if i > 0 {
                assert(k.contains('&'));
            }
            if j < k.len() {
                assert(k.contains(k[j]));
            }
            assert(x =~= k);
        }
        if x == k {
            assert(is_key_span(k, 0, k.len() as int) && 0 < k.len() + 1 && x == k.subrange(0, k.len() as int));
        }
    }
    assert(query_keys(k) =~= set![k]);
}

/// Joining two queries with `&` joins their keys: the keys of
/// `q1&q2` are those of `q1` together with those of `q2`, and an empty query
/// has none.
pub proof fn law_joined_queries_join_their_keys(q1: Seq<char>, q2: Seq<char>)
    ensures
        query_keys(q1 + seq!['&'] + q2) == query_keys(q1).union(query_keys(q2)),
        query_keys(Seq::empty()) == Set::<Seq<char>>::empty(),
{
    let q = q1 + seq!['&'] + q2;
    let n1 = q1.len() as int;
    let off = n1 + 1;
    assert(q[n1] == '&');
    assert forall|x: Seq<char>| query_keys(q).contains(x) implies query_keys(q1).union(query_keys(q2)).contains(x) by {
        let (i, j) = choose|i: int, j: int|
            #[trigger] is_key_span(q, i, j) && i < q.len() + 1 && x == q.subrange(i, j);
        assert(q[i] != '&');
        if i < n1 {
            if j > n1 {
                assert(q[n1] != '&');
            }
            assert forall|p: int| i <= p < j implies q1[p] != '&' && q1[p] != '=' by {
                assert(q1[p] == q[p]);
            }
            if i > 0 {
                assert(q1[i - 1] == q[i - 1]);
            }
            if j < n1 {
                assert(q1[j] == q[j]);
            }
            assert(is_key_span(q1, i, j));
            assert(x =~= q1.subrange(i, j));
            assert(is_key_span(q1, i, j) && i < q1.len() + 1 && x == q1.subrange(i, j));
        } else {
            assert(i != n1);
            assert(i >= off);
            assert forall|p: int| i - off <= p < j - off implies q2[p] != '&' && q2[p] != '=' by {
                assert(q2[p] == q[p + off]);
            }
            if i - off > 0 {
                assert(q2[i - off - 1] == q[i - 1]);
            }
            if j - off < q2.len() {
                assert(q2[j - off] == q[j]);
            }
            assert(is_key_span(q2, i - off, j - off));
            assert(x =~= q2.subrange(i - off, j - off));
            assert(is_key_span(q2, i - off, j - off) && i - off < q2.len() + 1 && x == q2.subrange(
                i - off,
                j - off,
            ));
        }
    }
    assert forall|x: Seq<char>| query_keys(q1).union(query_keys(q2)).contains(x) implies query_keys(q).contains(x) by {
        if query_keys(q1).contains(x) {
            let (i, j) = choose|i: int, j: int|
                #[trigger] is_key_span(q1, i, j) && i < q1.len() + 1 && x == q1.subrange(i, j);
            assert forall|p: int| i <= p < j implies q[p] != '&' && q[p] != '=' by {
                assert(q1[p] == q[p]);
            }
            if i > 0 {
                assert(q1[i - 1] == q[i - 1]);
            }
            if j < n1 {
                assert(q1[j] == q[j]);
            }
            assert(is_key_span(q, i, j));
            assert(x =~= q.subrange(i, j));
            assert(is_key_span(q, i, j) && i < q.len() + 1 && x == q.subrange(i, j));
        } else {
            let (i, j) = choose|i: int, j: int|
                #[trigger] is_key_span(q2, i, j) && i < q2.len() + 1 && x == q2.subrange(i, j);
            assert forall|p: int| i + off <= p < j + off implies q[p] != '&' && q[p] != '=' by {
                assert(q2[p - off] == q[p]);
            }
            if i > 0 {
                assert(q2[i - 1] == q[i + off - 1]);
            }
            if j < q2.len() {
                assert(q2[j] == q[j + off]);
            }
            assert(is_key_span(q, i + off, j + off));
            assert(x =~= q.subrange(i + off, j + off));
            assert(is_key_span(q, i + off, j + off) && i + off < q.len() + 1 && x == q.subrange(
                i + off,
                j + off,
            ));
        }
    }
    assert(query_keys(q) =~= query_keys(q1).union(query_keys(q2)));
    assert(query_keys(Seq::<char>::empty()) =~= Set::<Seq<char>>::empty());
}

/// The texts that a list of spans of `q` stands for.
pub open spec fn span_texts(q: Seq<char>, spans: Seq<(usize, usize)>) -> Seq<Seq<char>> {
    spans.map_values(|sp: (usize, usize)| q.subrange(sp.0 as int, sp.1 as int))
}

pub open spec fn spans_within(spans: Seq<(usize, usize)>, n: int) -> bool {
    forall|t: int| 0 <= t < spans.len() ==> #[trigger] spans[t].0 <= spans[t].1 <= n
}

/// Processing the pair that starts at `start` (key up to `j`, pair up to `e`)
/// adds exactly its key, when that is non-empty, to the keys found so far.
proof fn lemma_keys_step(q: Seq<char>, start: int, j: int, e: int)
    requires
        0 <= start <= j <= e <= q.len(),
        start == 0 || q[start - 1] == '&',
        forall|p: int| start <= p < j ==> q[p] != '&' && q[p] != '=',
        j == q.len() || q[j] == '&' || q[j] == '=',
        forall|p: int| j <= p < e ==> q[p] != '&',
        e == q.len() || q[e] == '&',
    ensures
        keys_before(q, e + 1) == (if j > start {
            keys_before(q, start).insert(q.subrange(start, j))
        } else {
            keys_before(q, start)
        }),
{
    let lhs = keys_before(q, e + 1);
    let rhs = if j > start {
        keys_before(q, start).insert(q.subrange(start, j))
    } else {
        keys_before(q, start)
    };
    assert forall|k: Seq<char>| lhs.contains(k) implies rhs.contains(k) by {
        let (i, jj) = choose|i: int, jj: int|
            #[trigger] is_key_span(q, i, jj) && i < e + 1 && k == q.subrange(i, jj);
        if i < start {
            assert(keys_before(q, start).contains(k));
        } else if i == start {
            if jj < j {
                assert(q[jj] != '&' && q[jj] != '=');
            } else if jj > j {
                assert(q[j] != '&' && q[j] != '=');
            }
            assert(jj == j);
        } else {
            let p = i - 1;
            if p < j {
                assert(q[p] != '&');
            } else {
                assert(q[p] != '&');
            }
        }
    }
    assert forall|k: Seq<char>| rhs.contains(k) implies lhs.contains(k) by {
        if keys_before(q, start).contains(k) {
            let (i, jj) = choose|i: int, jj: int|
                #[trigger] is_key_span(q, i, jj) && i < start && k == q.subrange(i, jj);
            assert(is_key_span(q, i, jj) && i < e + 1);
        } else {
            assert(is_key_span(q, start, j));
        }
    }
    assert(lhs =~= rhs);
}

/// Adds the text `chars[s..e]` to a strictly sorted list of spans, unless it
/// is already there.
fn insert_span(spans: &mut Vec<(usize, usize)>, chars: &Vec<char>, s: usize, e: usize)
    requires
        s <= e <= chars.len(),
        spans_within(old(spans)@, chars.len() as int),
        strictly_sorted(span_texts(chars@, old(spans)@)),
    ensures
        spans_within(final(spans)@, chars.len() as int),
        strictly_sorted(span_texts(chars@, final(spans)@)),
        span_texts(chars@, final(spans)@).to_set() == span_texts(chars@, old(spans)@).to_set().insert(
            chars@.subrange(s as int, e as int),
        ),
{
    let ghost texts = span_texts(chars@, spans@);
    let ghost item = chars@.subrange(s as int, e as int);
    let mut i: usize = 0;
    while i < spans.len() && compare_spans(chars, spans[i].0, spans[i].1, chars, s, e) < 0
        invariant
            i <= spans.len(),
            spans@ == old(spans)@,
            texts == span_texts(chars@, spans@),
            spans_within(spans@, chars.len() as int),
            s <= e <= chars.len(),
            item == chars@.subrange(s as int, e as int),
            forall|t: int| 0 <= t < i ==> lex_lt(#[trigger] texts[t], item),
        decreases spans.len() - i,
    {
        assert(spans@[i as int].0 <= spans@[i as int].1 <= chars.len());
        i = i + 1;
    }
    if i < spans.len() {
        assert(spans@[i as int].0 <= spans@[i as int].1 <= chars.len());
        if compare_spans(chars, spans[i].0, spans[i].1, chars, s, e) == 0 {
            assert(texts[i as int] == item);
            assert(texts.to_set().insert(item) =~= texts.to_set());
            return;
        }
    }
    spans.insert(i, (s, e));
    proof {
        let nt = span_texts(chars@, spans@);
        assert(nt =~= texts.insert(i as int, item));
        if i < texts.len() {
            assert(!lex_lt(texts[i as int], item));
            assert(texts[i as int] != item);
            lemma_lex_total(texts[i as int], item);
        }
        assert forall|a: int, b: int| 0 <= a < b < nt.len() implies lex_lt(
            #[trigger] nt[a],
            #[trigger] nt[b],
        ) by {
            if b < i {
                assert(lex_lt(texts[a], texts[b]));
            } else if b == i {
                assert(lex_lt(texts[a], item));
            } else if a < i {
                assert(lex_lt(texts[a], item));
                assert(lex_lt(item, texts[i as int]));
                lemma_lex_transitive(texts[a], item, texts[i as int]);
                if b - 1 > i {
                    assert(lex_lt(texts[i as int], texts[b - 1]));
                    lemma_lex_transitive(texts[a], texts[i as int], texts[b - 1]);
                }
            } else if a == i {
                assert(lex_lt(item, texts[i as int]));
                if b - 1 > i {
                    assert(lex_lt(texts[i as int], texts[b - 1]));
                    lemma_lex_transitive(item, texts[i as int], texts[b - 1]);
                }
            } else {
                assert(lex_lt(texts[a - 1], texts[b - 1]));
            }
        }
        assert(nt.to_set() =~= texts.to_set().insert(item)) by {
            assert forall|x: Seq<char>| nt.to_set().contains(x) implies texts.to_set().insert(
                item,
            ).contains(x) by {
                let p = choose|p: int| 0 <= p < nt.len() && nt[p] == x;
                if p < i {
                    assert(texts[p] == x);
                } else if p > i {
                    assert(texts[p - 1] == x);
                }
            }
            assert forall|x: Seq<char>| texts.to_set().insert(item).contains(x) implies nt.to_set().contains(
                x,
            ) by {
                if x == item {
                    assert(nt[i as int] == x);
                } else {
                    let p = choose|p: int| 0 <= p < texts.len() && texts[p] == x;
                    if p < i {
                        assert(nt[p] == x);
                    } else {
                        assert(nt[p + 1] == x);
                    }
                }
            }
        }
        assert forall|t: int| 0 <= t < spans@.len() implies #[trigger] spans@[t].0 <= spans@[t].1
            <= chars.len() by {
            if t < i {
                assert(spans@[t] == old(spans)@[t]);
            } else if t > i {
                assert(spans@[t] == old(spans)@[t - 1]);
            }
        }
    }
}

/// The query's sorted, deduplicated key names, joined by commas. Values stay
/// out of the logs.
pub fn query_shape(query: &str) -> (shape: String)
    ensures
        shape@ == spec_query_shape(query@),
        is_shape_of(query@, query_shape_keys(query@)),
{
    let chars = chars_of(query);
    let n = chars.len();
    let ghost q = query@;
    let mut spans: Vec<(usize, usize)> = Vec::new();
    let mut start: usize = 0;
    let mut done = false;
    proof {
        assert(keys_before(q, 0) =~= Set::empty());
        assert(span_texts(chars@, spans@) =~= Seq::empty());
        assert(Seq::<Seq<char>>::empty().to_set() =~= Set::empty());
    }
    while !done
        invariant
            n == chars.len(),
            chars@ == q,
            q == query@,
            start <= n,
            start == 0 || q[start - 1] == '&',
            spans_within(spans@, n as int),
            strictly_sorted(span_texts(q, spans@)),
            done ==> span_texts(q, spans@).to_set() == query_keys(q),
            !done ==> span_texts(q, spans@).to_set() == keys_before(q, start as int),
        decreases n - start, if done { 0int } else { 1int },
    {
        let mut j: usize = start;
        while j < n && chars[j] != '&' && chars[j] != '='
            invariant
                n == chars.len(),
                chars@ == q,
                start <= j <= n,
                forall|p: int| start <= p < j ==> q[p] != '&' && q[p] != '=',
            decreases n - j,
        {
            j = j + 1;
        }
        let ghost before = span_texts(q, spans@).to_set();
        if j > start {
            insert_span(&mut spans, &chars, start, j);
        }
        let mut e: usize = j;
        while e < n && chars[e] != '&'
            invariant
                n == chars.len(),
                chars@ == q,
                j <= e <= n,
                forall|p: int| j <= p < e ==> q[p] != '&',
            decreases n - e,
        {
            e = e + 1;
        }
        proof {
            lemma_keys_step(q, start as int, j as int, e as int);
        }
        if e == n {
            done = true;
        } else {
            start = e + 1;
        }
    }
    let ghost ks = span_texts(q, spans@);
    let mut out = String::new();
    let mut t: usize = 0;
    proof {
        reveal_strlit(",");
    }
    while t < spans.len()
        invariant
            ks == span_texts(q, spans@),
            spans_within(spans@, n as int),
            n == q.len(),
            q == query@,
            t <= spans.len(),
            out@ == join_commas(ks.take(t as int)),
            ","@ == seq![','],
        decreases spans.len() - t,
    {
        let a = spans[t].0;
        let b = spans[t].1;
        assert(spans@[t as int].0 <= spans@[t as int].1 <= n);
        if t > 0 {
            out.append(",");
        }
        let piece = query.substring_char(a, b);
        out.append(piece);
        proof {
            assert(ks[t as int] == q.subrange(a as int, b as int));
            assert(ks.take(t + 1).drop_last() =~= ks.take(t as int));
            if t == 0 {
                assert(out@ =~= ks.take(1)[0]);
            }
        }
        t = t + 1;
    }
    proof {
        assert(ks.take(ks.len() as int) =~= ks);
        assert(is_shape_of(q, ks));
        let chosen = query_shape_keys(q);
        assert(is_shape_of(q, chosen));
        lemma_sorted_unique(ks, chosen);
    }
    out
}


// ---------------------------------------------------------------------------
// The record of one request
// ---------------------------------------------------------------------------

/// What the log line is built from.
pub struct RequestEventFields {
    pub request_id: String,
    pub method: String,
    pub route: String,
    pub path: String,
    pub query_shape: String,
    pub user_agent: String,
    pub remote_addr: String,
    pub user_id: Option<String>,
    pub context: Vec<(String, JsonValue)>,
}

/// The text of an optional header or address, empty when it is absent.
pub open spec fn text_or_empty(v: Option<String>) -> Seq<char> {
    match v {
        Some(s) => s@,
        None => Seq::empty(),
    }
}

impl RequestEventFields {
    /// Builds the record of a request from what was read off it: the inbound
    /// `request-id` header, the method, the matched route pattern, the path,
    /// the raw query string, the `user-agent` header and the peer's address.
    ///
    /// An inbound id is reused, so a request through a proxy keeps one id end
    /// to end; otherwise a fresh time-ordered one is made. The route falls
    /// back to the path for requests that matched no route.
    pub fn extract(
        inbound_request_id: Option<String>,
        method: String,
        match_pattern: Option<String>,
        path: String,
        query: &str,
        user_agent: Option<String>,
        peer_ip: Option<String>,
    ) -> (fields: RequestEventFields)
        ensures
            (inbound_request_id matches Some(v) && v@.len() > 0) ==> fields.request_id@
                == inbound_request_id->0@,
            !(inbound_request_id matches Some(v) && v@.len() > 0) ==> {
                &&& fields.request_id@.len() == 32
                &&& forall|i: int|
                    0 <= i < 32 ==> is_lower_hex_digit(#[trigger] fields.request_id@[i])
                &&& fields.request_id@[12] == '7'
            },
            fields.method@ == method@,
            fields.route@ == (match match_pattern {
                Some(p) => p@,
                None => path@,
            }),
            fields.path@ == path@,
            fields.query_shape@ == spec_query_shape(query@),
            fields.user_agent@ == text_or_empty(user_agent),
            fields.remote_addr@ == text_or_empty(peer_ip),
            fields.user_id is None,
            fields.context@.len() == 0,
    {
        let request_id = match inbound_request_id {
            Some(v) => {
                if v.as_str().is_empty() {
                    new_request_id()
                } else {
                    v
                }
            },
            None => new_request_id(),
        };
        let route = match match_pattern {
            Some(p) => p,
            None => path.clone(),
        };
        let user_agent = match user_agent {
            Some(u) => u,
            None => String::new(),
        };
        let remote_addr = match peer_ip {
            Some(a) => a,
            None => String::new(),
        };
        RequestEventFields {
            request_id,
            method,
            route,
            path,
            query_shape: query_shape(query),
            user_agent,
            remote_addr,
            user_id: None,
            context: Vec::new(),
        }
    }
}

/// Records who the caller is.
///
/// The id only. Email and username are personal data, and the id looks either
/// up when there is a reason to.
pub fn set_user_id(fields: &mut RequestEventFields, id: &str)
    ensures
        final(fields).user_id matches Some(u) && u@ == id@,
        final(fields).request_id == old(fields).request_id,
        final(fields).method == old(fields).method,
        final(fields).route == old(fields).route,
        final(fields).path == old(fields).path,
        final(fields).query_shape == old(fields).query_shape,
        final(fields).user_agent == old(fields).user_agent,
        final(fields).remote_addr == old(fields).remote_addr,
        final(fields).context == old(fields).context,
{
    fields.user_id = Some(id.to_owned());
}

/// Adds context under `key`, combining with whatever is already there (see
/// `combine`).
pub fn add_context(fields: &mut RequestEventFields, key: &str, value: JsonValue)
    ensures
        key_index(old(fields).context@, key@) >= 0 ==> {
            let i = key_index(old(fields).context@, key@);
            &&& final(fields).context@.len() == old(fields).context@.len()
            &&& final(fields).context@[i].0 == old(fields).context@[i].0
            &&& combines_to(old(fields).context@[i].1, value, final(fields).context@[i].1)
            &&& forall|t: int|
                0 <= t < old(fields).context@.len() && t != i ==> #[trigger] final(fields).context@[t]
                    == old(fields).context@[t]
        },
        key_index(old(fields).context@, key@) < 0 ==> {
            &&& final(fields).context@.len() == old(fields).context@.len() + 1
            &&& final(fields).context@.drop_last() == old(fields).context@
            &&& final(fields).context@.last().0@ == key@
            &&& final(fields).context@.last().1 == value
        },
        final(fields).request_id == old(fields).request_id,
        final(fields).method == old(fields).method,
        final(fields).route == old(fields).route,
        final(fields).path == old(fields).path,
        final(fields).query_shape == old(fields).query_shape,
        final(fields).user_agent == old(fields).user_agent,
        final(fields).remote_addr == old(fields).remote_addr,
        final(fields).user_id == old(fields).user_id,
{
    match find_key(&fields.context, key) {
        Some(i) => {
            let (k, mut slot) = fields.context.remove(i);
            combine(&mut slot, value);
            fields.context.insert(i, (k, slot));
        },
        None => {
            fields.context.push((key.to_owned(), value));
        },
    }
}

/// The id the request whose record is `current` is logged under, or nothing
/// when there is no request in scope.
pub fn request_id(current: Option<&RequestEventFields>) -> (id: Option<String>)
    ensures
        match current {
            Some(f) => id matches Some(s) && s@ == f.request_id@,
            None => id is None,
        },
{
    match current {
        Some(f) => Some(f.request_id.clone()),
        None => None,
    }
}

/// The request id, readable by a handler through the request extensions.
#[derive(Clone, Debug, PartialEq, Eq)]
pub struct RequestId(pub String);

// ---------------------------------------------------------------------------
// The line
// ---------------------------------------------------------------------------

/// The level a request's line is written at.
#[derive(Debug, Clone, Copy, PartialEq, Eq)]
pub enum LogLevel {
    Error,
    Warn,
    Info,
}

/// Server errors are logged as errors, client errors as warnings, the rest
/// as information.
pub fn log_level(status: u16) -> (level: LogLevel)
    ensures
        500 <= status <= 599 ==> level == LogLevel::Error,
        400 <= status <= 499 ==> level == LogLevel::Warn,
        !(400 <= status <= 599) ==> level == LogLevel::Info,
{
    if 500 <= status && status <= 599 {
        LogLevel::Error
    } else if 400 <= status && status <= 499 {
        LogLevel::Warn
    } else {
        LogLevel::Info
    }
}

/// The message of the line at each level.
pub fn line_message(level: LogLevel) -> (m: &'static str)
    ensures
        m@ == (match level {
            LogLevel::Error => "request failed"@,
            LogLevel::Warn => "request rejected"@,
            LogLevel::Info => "request completed"@,
        }),
{
    match level {
        LogLevel::Error => "request failed",
        LogLevel::Warn => "request rejected",
        LogLevel::Info => "request completed",
    }
}

} // verus!
