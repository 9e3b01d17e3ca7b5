use vstd::prelude::*;

verus! {

/// Strict lexicographic order on character sequences, by code point.
pub open spec fn lex_lt(a: Seq<char>, b: Seq<char>) -> bool
    decreases a.len(),
{
    if a.len() == 0 {
        b.len() > 0
    } else if b.len() == 0 {
        false
    } else if a[0] != b[0] {
        a[0] < b[0]
    } else {
        lex_lt(a.drop_first(), b.drop_first())
    }
}

/// `s` is in strictly ascending lexicographic order (and so holds no duplicates).
pub open spec fn strictly_sorted(s: Seq<Seq<char>>) -> bool {
    forall|i: int, j: int| 0 <= i < j < s.len() ==> lex_lt(s[i], s[j])
}

/// The character sequences that the vectors of `v` hold, in order.
pub open spec fn views_of(v: Seq<Vec<char>>) -> Seq<Seq<char>> {
    v.map_values(|e: Vec<char>| e@)
}

/// `x` begins with `p`.
pub open spec fn starts_with(x: Seq<char>, p: Seq<char>) -> bool {
    p.len() <= x.len() && x.take(p.len() as int) == p
}

pub proof fn lemma_lex_irreflexive(a: Seq<char>)
    ensures
        !lex_lt(a, a),
    decreases a.len(),
{
    if a.len() > 0 {
        lemma_lex_irreflexive(a.drop_first());
    }
}

pub proof fn lemma_lex_transitive(a: Seq<char>, b: Seq<char>, c: Seq<char>)
    requires
        lex_lt(a, b),
        lex_lt(b, c),
    ensures
        lex_lt(a, c),
    decreases a.len(),
{
    if a.len() > 0 && b.len() > 0 && c.len() > 0 && a[0] == b[0] && b[0] == c[0] {
        lemma_lex_transitive(a.drop_first(), b.drop_first(), c.drop_first());
    }
}

pub proof fn lemma_lex_total(a: Seq<char>, b: Seq<char>)
    requires
        a != b,
    ensures
        lex_lt(a, b) || lex_lt(b, a),
    decreases a.len(),
{
    if a.len() > 0 && b.len() > 0 && a[0] == b[0] {
        if a.drop_first() == b.drop_first() {
            assert(a =~= seq![a[0]] + a.drop_first());
            assert(b =~= seq![b[0]] + b.drop_first());
        }
        lemma_lex_total(a.drop_first(), b.drop_first());
    } else if a.len() > 0 && b.len() > 0 {
    } else if a.len() == 0 && b.len() == 0 {
        assert(a =~= b);
    }
}

/// Whether `a` comes strictly before `b`.
pub fn chars_lt(a: &[char], b: &[char]) -> (r: bool)
    ensures
        r == lex_lt(a@, b@),
{
    let mut k: usize = 0;
    assert(a@.skip(0) =~= a@ && b@.skip(0) =~= b@);
    while k < a.len() && k < b.len() && a[k] == b[k]
        invariant
            k <= a.len(),
            k <= b.len(),
            lex_lt(a@, b@) == lex_lt(a@.skip(k as int), b@.skip(k as int)),
        decreases a.len() - k,
    {
        proof {
            assert(a@.skip(k as int).drop_first() =~= a@.skip(k + 1));
            assert(b@.skip(k as int).drop_first() =~= b@.skip(k + 1));
        }
        k = k + 1;
    }
    if k == a.len() {
        k < b.len()
    } else if k == b.len() {
        false
    } else {
        a[k] < b[k]
    }
}

/// Whether `x` begins with `p`.
pub fn chars_start_with(x: &[char], p: &[char]) -> (r: bool)
    ensures
        r == starts_with(x@, p@),
{
    if p.len() > x.len() {
        return false;
    }
    let mut k: usize = 0;
    while k < p.len()
        invariant
            k <= p.len() <= x.len(),
            forall|m: int| 0 <= m < k ==> x@[m] == p@[m],
        decreases p.len() - k,
    {
        if x[k] != p[k] {
            assert(x@.take(p.len() as int)[k as int] != p@[k as int]);
            return false;
        }
        k = k + 1;
    }
    assert(x@.take(p.len() as int) =~= p@);
    true
}

/// Inserts `x` into the strictly sorted `v` unless it is already there.
pub fn insert_sorted(v: &mut Vec<Vec<char>>, x: Vec<char>)
    requires
        strictly_sorted(views_of(old(v)@)),
    ensures
        strictly_sorted(views_of(final(v)@)),
        forall|y: Seq<char>|
            views_of(final(v)@).contains(y) <==> (views_of(old(v)@).contains(y) || y == x@),
{
    let ghost before = views_of(v@);
    let mut lo: usize = 0;
    let mut hi: usize = v.len();
    while lo < hi
        invariant
            lo <= hi <= v.len(),
            views_of(v@) == before,
            strictly_sorted(before),
            forall|i: int| 0 <= i < lo ==> lex_lt(#[trigger] before[i], x@),
            forall|i: int| hi <= i < before.len() ==> !lex_lt(#[trigger] before[i], x@),
        decreases hi - lo,
    {
        let mid = lo + (hi - lo) / 2;
        if chars_lt(v[mid].as_slice(), x.as_slice()) {
            proof {
                assert forall|i: int| 0 <= i < mid + 1 implies lex_lt(#[trigger] before[i], x@) by {
                    if i < mid {
                        lemma_lex_transitive(before[i], before[mid as int], x@);
                    }
                }
            }
            lo = mid + 1;
        } else {
            proof {
                assert forall|i: int| mid <= i < before.len() implies !lex_lt(#[trigger] before[i], x@) by {
                    if i > mid {
                        if before[mid as int] != x@ {
                            lemma_lex_total(before[mid as int], x@);
                            lemma_lex_transitive(x@, before[mid as int], before[i]);
                        }
                        if lex_lt(before[i], x@) {
                            lemma_lex_transitive(x@, before[i], x@);
                            lemma_lex_irreflexive(x@);
                        }
                    }
                }
            }
            hi = mid;
        }
    }
    let p = lo;
    if p < v.len() && !chars_lt(x.as_slice(), v[p].as_slice()) {
        proof {
            if before[p as int] != x@ {
                lemma_lex_total(before[p as int], x@);
            }
        }
        return;
    }
    let ghost xv = x@;
    proof {
        if p < v.len() {
            assert(before[p as int] != xv);
            lemma_lex_total(before[p as int], xv);
        }
    }
    v.insert(p, x);
    proof {
        let after = views_of(v@);
        assert(after =~= before.insert(p as int, xv));
        assert forall|i: int, j: int| 0 <= i < j < after.len() implies lex_lt(after[i], after[j]) by {
            if j < p {
            } else if j == p {
            } else if i < p {
                if j - 1 > p {
                    lemma_lex_transitive(xv, before[p as int], before[j - 1]);
                }
                lemma_lex_transitive(before[i], xv, before[j - 1]);
            } else if i == p {
                if j - 1 > p {
                    lemma_lex_transitive(xv, before[p as int], before[j - 1]);
                }
            } else {
            }
        }
        assert forall|y: Seq<char>| after.contains(y) <==> (before.contains(y) || y == xv) by {
            if after.contains(y) {
                let m = choose|m: int| 0 <= m < after.len() && after[m] == y;
                if m < p {
                    assert(before[m] == y);
                } else if m > p {
                    assert(before[m - 1] == y);
                }
            }
            if before.contains(y) {
                let m = choose|m: int| 0 <= m < before.len() && before[m] == y;
                if m < p {
                    assert(after[m] == y);
                } else {
                    assert(after[m + 1] == y);
                }
            }
            if y == xv {
                assert(after[p as int] == y);
            }
        }
    }
}

} // verus!
