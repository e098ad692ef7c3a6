//! Character-level helpers shared by the request validators and the logging
//! code: equality, counting, ordering and joining of character sequences.
use vstd::prelude::*;

verus! {

/// Strict lexicographic order on character sequences, comparing characters
/// by code point. This is the order in which Rust compares `str` values (UTF-8
/// byte order and code point order agree).
pub open spec fn lex_lt(a: Seq<char>, b: Seq<char>) -> bool
    decreases a.len(),
{
    if a.len() == 0 {
        b.len() > 0
    } else if b.len() == 0 {
        false
    } else if a[0] != b[0] {
        a[0] < b[0]
    } else {
        lex_lt(a.drop_first(), b.drop_first())
    }
}

/// `ks` is strictly increasing in lexicographic order, so it holds no
/// element twice.
pub open spec fn strictly_sorted(ks: Seq<Seq<char>>) -> bool {
    forall|a: int, b: int| 0 <= a < b < ks.len() ==> lex_lt(#[trigger] ks[a], #[trigger] ks[b])
}

/// The elements of `ks` written one after another with a comma between two
/// neighbours.
pub open spec fn join_commas(ks: Seq<Seq<char>>) -> Seq<char>
    decreases ks.len(),
{
    if ks.len() == 0 {
        Seq::empty()
    } else if ks.len() == 1 {
        ks[0]
    } else {
        join_commas(ks.drop_last()) + seq![','] + ks.last()
    }
}

/// How often `c` occurs in `s`.
pub open spec fn count_char(s: Seq<char>, c: char) -> nat
    decreases s.len(),
{
    if s.len() == 0 {
        0
    } else {
        count_char(s.drop_last(), c) + if s.last() == c {
            1nat
        } else {
            0nat
        }
    }
}

/// `c` is counted at least once exactly when it occurs.
pub proof fn lemma_count_char_positive_iff_contains(s: Seq<char>, c: char)
    ensures
        count_char(s, c) > 0 <==> s.contains(c),
    decreases s.len(),
{
    if s.len() > 0 {
        lemma_count_char_positive_iff_contains(s.drop_last(), c);
        if s.drop_last().contains(c) {
            let i = choose|i: int| 0 <= i < s.drop_last().len() && s.drop_last()[i] == c;
            assert(s[i] == c);
        }
        if s.contains(c) && s.last() != c {
            let i = choose|i: int| 0 <= i < s.len() && s[i] == c;
            assert(i != s.len() - 1);
            assert(s.drop_last()[i] == c);
        }
        if s.last() == c {
            assert(s[s.len() - 1] == c);
        }
    }
}

pub proof fn lemma_lex_irreflexive(a: Seq<char>)
    ensures
        !lex_lt(a, a),
    decreases a.len(),
{
    if a.len() > 0 {
        lemma_lex_irreflexive(a.drop_first());
    }
}

pub proof fn lemma_lex_transitive(a: Seq<char>, b: Seq<char>, c: Seq<char>)
    requires
        lex_lt(a, b),
        lex_lt(b, c),
    ensures
        lex_lt(a, c),
    decreases a.len(),
{
    if a.len() > 0 && b.len() > 0 && c.len() > 0 {
        if a[0] == b[0] && b[0] == c[0] {
            lemma_lex_transitive(a.drop_first(), b.drop_first(), c.drop_first());
        }
    }
}

pub proof fn lemma_lex_total(a: Seq<char>, b: Seq<char>)
    requires
        a != b,
    ensures
        lex_lt(a, b) || lex_lt(b, a),
    decreases a.len(),
{
    if a.len() > 0 && b.len() > 0 && a[0] == b[0] {
        if a.drop_first() == b.drop_first() {
            assert(a =~= seq![a[0]] + a.drop_first());
            assert(b =~= seq![b[0]] + b.drop_first());
        }
        lemma_lex_total(a.drop_first(), b.drop_first());
    } else if a.len() == 0 && b.len() == 0 {
        assert(a =~= b);
    }
}

pub proof fn lemma_lex_asymmetric(a: Seq<char>, b: Seq<char>)
    requires
        lex_lt(a, b),
    ensures
        !lex_lt(b, a),
{
    if lex_lt(b, a) {
        lemma_lex_transitive(a, b, a);
        lemma_lex_irreflexive(a);
    }
}

/// Dropping a common prefix does not change the order of two sequences.
pub proof fn lemma_lex_common_prefix(a: Seq<char>, b: Seq<char>, i: int)
    requires
        0 <= i <= a.len(),
        i <= b.len(),
        a.take(i) == b.take(i),
    ensures
        lex_lt(a, b) == lex_lt(a.skip(i), b.skip(i)),
    decreases i,
{
    if i > 0 {
        assert(a[0] == a.take(i)[0]);
        assert(b[0] == b.take(i)[0]);
        assert(a.drop_first().take(i - 1) =~= a.take(i).drop_first());
        assert(b.drop_first().take(i - 1) =~= b.take(i).drop_first());
        lemma_lex_common_prefix(a.drop_first(), b.drop_first(), i - 1);
        assert(a.drop_first().skip(i - 1) =~= a.skip(i));
        assert(b.drop_first().skip(i - 1) =~= b.skip(i));
    } else {
        assert(a.skip(0) =~= a);
        assert(b.skip(0) =~= b);
    }
}

/// Two strictly sorted sequences with the same elements are the same
/// sequence: the sorted, deduplicated form of a set is unique.
pub proof fn lemma_sorted_unique(a: Seq<Seq<char>>, b: Seq<Seq<char>>)
    requires
        strictly_sorted(a),
        strictly_sorted(b),
        a.to_set() == b.to_set(),
    ensures
        a == b,
    decreases a.len(),
{
    if a.len() == 0 {
        if b.len() > 0 {
            assert(a.to_set().contains(b[0]));
        }
        assert(a =~= b);
    } else {
        assert(b.to_set().contains(a[0]));
        assert(b.len() > 0);
        assert(a.to_set().contains(b[0]));
        let j = choose|j: int| 0 <= j < b.len() && b[j] == a[0];
        let i = choose|i: int| 0 <= i < a.len() && a[i] == b[0];
        if a[0] != b[0] {
            assert(i > 0);
            assert(j > 0);
            assert(lex_lt(a[0], a[i]));
            assert(lex_lt(b[0], b[j]));
            lemma_lex_asymmetric(a[0], b[0]);
        }
        let ra = a.drop_first();
        let rb = b.drop_first();
        assert forall|x: Seq<char>| ra.to_set().contains(x) implies rb.to_set().contains(x) by {
            let p = choose|p: int| 0 <= p < ra.len() && ra[p] == x;
            assert(a[p + 1] == x);
            assert(lex_lt(a[0], a[p + 1]));
            lemma_lex_irreflexive(x);
            assert(b.to_set().contains(x));
            let q = choose|q: int| 0 <= q < b.len() && b[q] == x;
            assert(q != 0);
            assert(rb[q - 1] == x);
        }
        assert forall|x: Seq<char>| rb.to_set().contains(x) implies ra.to_set().contains(x) by {
            let p = choose|p: int| 0 <= p < rb.len() && rb[p] == x;
            assert(b[p + 1] == x);
            assert(lex_lt(b[0], b[p + 1]));
            lemma_lex_irreflexive(x);
            assert(a.to_set().contains(x));
            let q = choose|q: int| 0 <= q < a.len() && a[q] == x;
            assert(q != 0);
            assert(ra[q - 1] == x);
        }
        assert(ra.to_set() =~= rb.to_set());
        assert forall|x: int, y: int| 0 <= x < y < ra.len() implies lex_lt(
            #[trigger] ra[x],
            #[trigger] ra[y],
        ) by {
            assert(lex_lt(a[x + 1], a[y + 1]));
        }
        assert forall|x: int, y: int| 0 <= x < y < rb.len() implies lex_lt(
            #[trigger] rb[x],
            #[trigger] rb[y],
        ) by {
            assert(lex_lt(b[x + 1], b[y + 1]));
        }
        lemma_sorted_unique(ra, rb);
        assert(a =~= seq![a[0]] + ra);
        assert(b =~= seq![b[0]] + rb);
    }
}

/// The characters of `s`, one by one.
pub fn chars_of(s: &str) -> (out: Vec<char>)
    ensures
        out@ == s@,
{
    let n = s.unicode_len();
    let mut out: Vec<char> = Vec::new();
    let mut i: usize = 0;
    while i < n
        invariant
            n == s@.len(),
            i <= n,
            out@ == s@.take(i as int),
        decreases n - i,
    {
        let c = s.get_char(i);
        out.push(c);
        i = i + 1;
        assert(out@ =~= s@.take(i as int));
    }
    assert(out@ =~= s@);
    out
}

/// Whether two texts hold the same characters.
pub fn text_eq(a: &str, b: &str) -> (r: bool)
    ensures
        r == (a@ == b@),
{
    let n = a.unicode_len();
    let m = b.unicode_len();
    if n != m {
        return false;
    }
    let mut i: usize = 0;
    while i < n
        invariant
            n == a@.len(),
            m == b@.len(),
            n == m,
            i <= n,
            forall|k: int| 0 <= k < i ==> a@[k] == b@[k],
        decreases n - i,
    {
        if a.get_char(i) != b.get_char(i) {
            return false;
        }
        i = i + 1;
    }
    assert(a@ =~= b@);
    true
}

/// How often `c` occurs in `s`.
pub fn count_occurrences(s: &str, c: char) -> (r: usize)
    ensures
        r == count_char(s@, c),
{
    let n = s.unicode_len();
    let mut i: usize = 0;
    let mut k: usize = 0;
    while i < n
        invariant
            n == s@.len(),
            i <= n,
            k == count_char(s@.take(i as int), c),
            k <= i,
        decreases n - i,
    {
        let d = s.get_char(i);
        assert(s@.take(i + 1).drop_last() =~= s@.take(i as int));
        if d == c {
            k = k + 1;
        }
        i = i + 1;
    }
    assert(s@.take(n as int) =~= s@);
    k
}

/// Whether `c` occurs anywhere in `s`.
pub fn contains_char(s: &str, c: char) -> (r: bool)
    ensures
        r == s@.contains(c),
{
    let n = s.unicode_len();
    let mut i: usize = 0;
    while i < n
        invariant
            n == s@.len(),
            i <= n,
            forall|k: int| 0 <= k < i ==> s@[k] != c,
        decreases n - i,
    {
        if s.get_char(i) == c {
            assert(s@[i as int] == c);
            return true;
        }
        i = i + 1;
    }
    false
}

/// Lexicographic comparison of `a[a_from..a_to]` and `b[b_from..b_to]`:
/// negative, zero or positive as the first is smaller, equal or greater.
pub fn compare_spans(
    a: &Vec<char>,
    a_from: usize,
    a_to: usize,
    b: &Vec<char>,
    b_from: usize,
    b_to: usize,
) -> (r: i8)
    requires
        a_from <= a_to <= a.len(),
        b_from <= b_to <= b.len(),
    ensures
        (r < 0) == lex_lt(a@.subrange(a_from as int, a_to as int), b@.subrange(b_from as int, b_to as int)),
        (r == 0) == (a@.subrange(a_from as int, a_to as int) == b@.subrange(b_from as int, b_to as int)),
        (r > 0) == lex_lt(b@.subrange(b_from as int, b_to as int), a@.subrange(a_from as int, a_to as int)),
{
    let ghost x = a@.subrange(a_from as int, a_to as int);
    let ghost y = b@.subrange(b_from as int, b_to as int);
    let la = a_to - a_from;
    let lb = b_to - b_from;
    let mut i: usize = 0;
    while i < la && i < lb
        invariant
            la == x.len(),
            lb == y.len(),
            a_to == a_from + la,
            b_to == b_from + lb,
            a_to <= a.len(),
            b_to <= b.len(),
            x == a@.subrange(a_from as int, a_to as int),
            y == b@.subrange(b_from as int, b_to as int),
            i <= la,
            i <= lb,
            x.take(i as int) == y.take(i as int),
        decreases la - i,
    {
        let c = a[a_from + i];
        let d = b[b_from + i];
        assert(c == x[i as int]);
        assert(d == y[i as int]);
        if c != d {
            proof {
                lemma_lex_common_prefix(x, y, i as int);
                lemma_lex_common_prefix(y, x, i as int);
                assert(x.skip(i as int)[0] == c);
                assert(y.skip(i as int)[0] == d);
                lemma_lex_irreflexive(x);
            }
            if c < d {
                return -1;
            } else {
                return 1;
            }
        }
        assert(x.take(i + 1) =~= x.take(i as int).push(c));
        assert(y.take(i + 1) =~= y.take(i as int).push(d));
        i = i + 1;
    }
    proof {
        lemma_lex_common_prefix(x, y, i as int);
        lemma_lex_common_prefix(y, x, i as int);
        lemma_lex_irreflexive(x);
        if la == lb {
            assert(x =~= x.take(i as int));
            assert(y =~= y.take(i as int));
        }
    }
    if la < lb {
        assert(x.skip(i as int).len() == 0);
        -1
    } else if la == lb {
        0
    } else {
        assert(y.skip(i as int).len() == 0);
        1
    }
}


/// `a`, then `b`, then `c`, as one text.
pub fn concat3(a: &str, b: &str, c: &str) -> (s: String)
    ensures
        s@ == a@ + b@ + c@,
{
    let mut s = String::from_str(a);
    s.append(b);
    s.append(c);
    s
}

/// `a`, then `b`, then `c`, then `d`, as one text.
pub fn concat4(a: &str, b: &str, c: &str, d: &str) -> (s: String)
    ensures
        s@ == a@ + b@ + c@ + d@,
{
    let mut s = String::from_str(a);
    s.append(b);
    s.append(c);
    s.append(d);
    s
}


/// `a`, then `b`, as one text.
pub fn concat2(a: &str, b: &str) -> (s: String)
    ensures
        s@ == a@ + b@,
{
    let mut s = String::from_str(a);
    s.append(b);
    s
}


/// Inserting an element into a strictly sorted sequence at its place keeps it
/// strictly sorted and adds just that element.
pub proof fn lemma_insert_sorted(ks: Seq<Seq<char>>, x: Seq<char>) -> (r: Seq<Seq<char>>)
    requires
        strictly_sorted(ks),
    ensures
        strictly_sorted(r),
        r.to_set() == ks.to_set().insert(x),
        r.len() > 0 && (r[0] == x || (ks.len() > 0 && r[0] == ks[0])),
    decreases ks.len(),
{
    if ks.len() == 0 {
        let r = seq![x];
        assert(r.to_set() =~= ks.to_set().insert(x)) by {
            assert(r[0] == x);
        }
        r
    } else if ks[0] == x {
        assert(ks.to_set().insert(x) =~= ks.to_set()) by {
            assert(ks.to_set().contains(x)) by {
                assert(ks[0] == x);
            }
        }
        ks
    } else if lex_lt(x, ks[0]) {
        let r = seq![x] + ks;
        assert forall|a: int, b: int| 0 <= a < b < r.len() implies lex_lt(
            #[trigger] r[a],
            #[trigger] r[b],
        ) by {
            if a == 0 {
                if b > 1 {
                    assert(lex_lt(ks[0], ks[b - 1]));
                    lemma_lex_transitive(x, ks[0], ks[b - 1]);
                }
            } else {
                assert(lex_lt(ks[a - 1], ks[b - 1]));
            }
        }
        assert(r.to_set() =~= ks.to_set().insert(x)) by {
            assert forall|y: Seq<char>| r.to_set().contains(y) implies ks.to_set().insert(
                x,
            ).contains(y) by {
                let p = choose|p: int| 0 <= p < r.len() && r[p] == y;
                if p > 0 {
                    assert(ks[p - 1] == y);
                }
            }
            assert forall|y: Seq<char>| ks.to_set().insert(x).contains(y) implies r.to_set().contains(
                y,
            ) by {
                if y == x {
                    assert(r[0] == y);
                } else {
                    let p = choose|p: int| 0 <= p < ks.len() && ks[p] == y;
                    assert(r[p + 1] == y);
                }
            }
        }
        r
    } else {
        lemma_lex_total(x, ks[0]);
        let rest = ks.drop_first();
        assert forall|a: int, b: int| 0 <= a < b < rest.len() implies lex_lt(
            #[trigger] rest[a],
            #[trigger] rest[b],
        ) by {
            assert(lex_lt(ks[a + 1], ks[b + 1]));
        }
        let t = lemma_insert_sorted(rest, x);
        let r = seq![ks[0]] + t;
        assert forall|a: int, b: int| 0 <= a < b < r.len() implies lex_lt(
            #[trigger] r[a],
            #[trigger] r[b],
        ) by {
            if a == 0 {
                let y = r[b];
                assert(t.to_set().contains(y)) by {
                    assert(t[b - 1] == y);
                }
                if y == x {
                } else {
                    assert(rest.to_set().contains(y));
                    let p = choose|p: int| 0 <= p < rest.len() && rest[p] == y;
                    assert(lex_lt(ks[0], ks[p + 1]));
                }
            } else {
                assert(lex_lt(t[a - 1], t[b - 1]));
            }
        }
        assert(r.to_set() =~= ks.to_set().insert(x)) by {
            assert forall|y: Seq<char>| r.to_set().contains(y) implies ks.to_set().insert(
                x,
            ).contains(y) by {
                let p = choose|p: int| 0 <= p < r.len() && r[p] == y;
                if p > 0 {
                    assert(t[p - 1] == y);
                    assert(t.to_set().contains(y));
                    if y != x {
                        let q = choose|q: int| 0 <= q < rest.len() && rest[q] == y;
                        assert(ks[q + 1] == y);
                    }
                }
            }
            assert forall|y: Seq<char>| ks.to_set().insert(x).contains(y) implies r.to_set().contains(
                y,
            ) by {
                if y == ks[0] {
                    assert(r[0] == y);
                } else {
                    if y != x {
                        let p = choose|p: int| 0 <= p < ks.len() && ks[p] == y;
                        assert(p != 0);
                        assert(rest[p - 1] == y);
                        assert(rest.to_set().contains(y));
                    }
                    assert(t.to_set().contains(y));
                    let q = choose|q: int| 0 <= q < t.len() && t[q] == y;
                    assert(r[q + 1] == y);
                }
            }
        }
        r
    }
}

/// Every finite set of character sequences has a sorted form: a strictly
/// sorted sequence holding exactly its elements.
pub proof fn lemma_sorted_form_exists(s: Set<Seq<char>>)
    requires
        s.finite(),
    ensures
        exists|ks: Seq<Seq<char>>| strictly_sorted(ks) && ks.to_set() == s,
    decreases s.len(),
{
    if s.len() == 0 {
        let ks = Seq::<Seq<char>>::empty();
        assert(ks.to_set() =~= s) by {
            if exists|y: Seq<char>| s.contains(y) {
                let y = choose|y: Seq<char>| s.contains(y);
                assert(s.remove(y).len() < s.len());
            }
        }
        assert(strictly_sorted(ks));
    } else {
        let x = s.choose();
        assert(s.contains(x)) by {
            if !s.contains(x) {
                assert(s =~= Set::empty()) by {
                    assert forall|y: Seq<char>| !s.contains(y) by {}
                }
            }
        }
        let rest = s.remove(x);
        lemma_sorted_form_exists(rest);
        let ks = choose|ks: Seq<Seq<char>>| strictly_sorted(ks) && ks.to_set() == rest;
        let r = lemma_insert_sorted(ks, x);
        assert(r.to_set() =~= s);
    }
}

} // verus!
