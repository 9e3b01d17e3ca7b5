use vstd::prelude::*;

use crate::context::is_quote;

verus! {

/// Index just past the first `*/` at or after `j`.
pub open spec fn comment_close(s: Seq<char>, j: int) -> Option<int>
    decreases s.len() - j,
{
    if j < 0 || j + 1 >= s.len() {
        None
    } else if s[j] == '*' && s[j + 1] == '/' {
        Some(j + 2)
    } else {
        comment_close(s, j + 1)
    }
}

/// `s` from index `i` on, with each complete `/* … */` comment replaced by one space.
pub open spec fn strip_comments(s: Seq<char>, i: int) -> Seq<char>
    decreases s.len() - i,
{
    if i < 0 || i >= s.len() {
        Seq::empty()
    } else if i + 1 < s.len() && s[i] == '/' && s[i + 1] == '*' && comment_close(s, i + 2) is Some
        && comment_close(s, i + 2)->0 > i && comment_close(s, i + 2)->0 <= s.len() {
        seq![' '] + strip_comments(s, comment_close(s, i + 2)->0)
    } else {
        seq![s[i]] + strip_comments(s, i + 1)
    }
}

/// Index just past the quote `q` that closes a string literal whose body starts at `j`;
/// a backslash escapes the character after it.
pub open spec fn string_close(s: Seq<char>, j: int, q: char) -> Option<int>
    decreases s.len() - j,
{
    if j < 0 || j >= s.len() {
        None
    } else if s[j] == q {
        Some(j + 1)
    } else if s[j] == '\\' {
        if j + 1 < s.len() { string_close(s, j + 2, q) } else { None }
    } else {
        string_close(s, j + 1, q)
    }
}

/// `s` from index `i` on, with each complete quoted string literal replaced by one space.
pub open spec fn strip_strings(s: Seq<char>, i: int) -> Seq<char>
    decreases s.len() - i,
{
    if i < 0 || i >= s.len() {
        Seq::empty()
    } else if is_quote(s[i]) && string_close(s, i + 1, s[i]) is Some && string_close(
        s,
        i + 1,
        s[i],
    )->0 > i && string_close(s, i + 1, s[i])->0 <= s.len() {
        seq![' '] + strip_strings(s, string_close(s, i + 1, s[i])->0)
    } else {
        seq![s[i]] + strip_strings(s, i + 1)
    }
}

pub open spec fn is_ident_start(c: char) -> bool {
    ('a' <= c && c <= 'z') || ('A' <= c && c <= 'Z') || c == '_'
}

pub open spec fn is_ident_char(c: char) -> bool {
    is_ident_start(c) || ('0' <= c && c <= '9') || c == '-'
}

/// First index at or after `j` that does not hold an identifier character.
pub open spec fn ident_end(s: Seq<char>, j: int) -> int
    decreases s.len() - j,
{
    if 0 <= j < s.len() && is_ident_char(s[j]) { ident_end(s, j + 1) } else { j }
}

/// Start of the name of a class selector `.name` or `.-name` at index `i`, if there is one.
pub open spec fn selector_name_start(s: Seq<char>, i: int) -> Option<int> {
    if 0 <= i && i + 1 < s.len() && s[i] == '.' {
        if s[i + 1] == '-' && i + 2 < s.len() && is_ident_start(s[i + 2]) {
            Some(i + 3)
        } else if is_ident_start(s[i + 1]) {
            Some(i + 2)
        } else {
            None
        }
    } else {
        None
    }
}

/// Class selector names of `s` from index `i` on, in order of appearance.
pub open spec fn selector_names(s: Seq<char>, i: int) -> Seq<Seq<char>>
    decreases s.len() - i,
{
    if i < 0 || i >= s.len() {
        Seq::empty()
    } else if selector_name_start(s, i) is Some && ident_end(s, selector_name_start(s, i)->0) > i
        && ident_end(s, selector_name_start(s, i)->0) <= s.len() {
        seq![s.subrange(i + 1, ident_end(s, selector_name_start(s, i)->0))] + selector_names(
            s,
            ident_end(s, selector_name_start(s, i)->0),
        )
    } else {
        selector_names(s, i + 1)
    }
}

/// Class names defined by stylesheet text `css`, comments and string literals ignored.
pub open spec fn stylesheet_classes(css: Seq<char>) -> Seq<Seq<char>> {
    selector_names(strip_strings(strip_comments(css, 0), 0), 0)
}

proof fn lemma_string_close_bounds(s: Seq<char>, j: int, q: char)
    ensures
        string_close(s, j, q) is Some ==> j < string_close(s, j, q)->0 <= s.len(),
    decreases s.len() - j,
{
    if 0 <= j < s.len() && s[j] != q {
        if s[j] == '\\' {
            if j + 1 < s.len() {
                lemma_string_close_bounds(s, j + 2, q);
            }
        } else {
            lemma_string_close_bounds(s, j + 1, q);
        }
    }
}

proof fn lemma_ident_end_ge(s: Seq<char>, j: int)
    ensures
        ident_end(s, j) >= j,
        j <= s.len() ==> ident_end(s, j) <= s.len(),
    decreases s.len() - j,
{
    if 0 <= j < s.len() && is_ident_char(s[j]) {
        lemma_ident_end_ge(s, j + 1);
    }
}

fn strip_comments_exec(s: &[char]) -> (r: Vec<char>)
    ensures
        r@ == strip_comments(s@, 0),
{
    let mut out: Vec<char> = Vec::new();
    let mut i: usize = 0;
    while i < s.len()
        invariant
            i <= s.len(),
            out@ + strip_comments(s@, i as int) == strip_comments(s@, 0),
        decreases s.len() - i,
    {
        let mut close: Option<usize> = None;
        if s.len() - i >= 2 && s[i] == '/' && s[i + 1] == '*' {
            let mut j = i + 2;
            while j < s.len() - 1 && !(s[j] == '*' && s[j + 1] == '/')
                invariant
                    i + 2 <= j <= s.len(),
                    comment_close(s@, j as int) == comment_close(s@, i + 2),
                decreases s.len() - j,
            {
                j = j + 1;
            }
            if j < s.len() - 1 {
                close = Some(j + 2);
            }
        }
        match close {
            Some(e) => {
                out.push(' ');
                proof {
                    assert(seq![' '] + strip_comments(s@, e as int) =~= strip_comments(s@, i as int));
                    assert(out@ + strip_comments(s@, e as int) =~= out@.drop_last() + strip_comments(s@, i as int));
                }
                i = e;
            },
            None => {
                out.push(s[i]);
                proof {
                    assert(out@ + strip_comments(s@, i + 1) =~= out@.drop_last() + strip_comments(s@, i as int));
                }
                i = i + 1;
            },
        }
    }
    assert(out@ =~= out@ + strip_comments(s@, i as int));
    out
}

fn strip_strings_exec(s: &[char]) -> (r: Vec<char>)
    ensures
        r@ == strip_strings(s@, 0),
{
    let mut out: Vec<char> = Vec::new();
    let mut i: usize = 0;
    while i < s.len()
        invariant
            i <= s.len(),
            out@ + strip_strings(s@, i as int) == strip_strings(s@, 0),
        decreases s.len() - i,
    {
        let mut close: Option<usize> = None;
        let q = s[i];
        if q == '"' || q == '\'' {
            let mut j = i + 1;
            loop
                invariant_except_break
                    close is None,
                invariant
                    i + 1 <= j <= s.len(),
                    i < s.len(),
                    q == s[i as int],
                    string_close(s@, j as int, q) == string_close(s@, i + 1, q),
                ensures
                    close is Some ==> string_close(s@, i + 1, q) == Some(close->0 as int),
                    close is None ==> string_close(s@, i + 1, q) is None,
                decreases s.len() - j,
            {
                if j >= s.len() {
                    break;
                }
                if s[j] == q {
                    close = Some(j + 1);
                    break;
                }
                if s[j] == '\\' {
                    if j < s.len() - 1 {
                        j = j + 2;
                    } else {
                        break;
                    }
                } else {
                    j = j + 1;
                }
            }
        }
        match close {
            Some(e) => {
                out.push(' ');
                proof {
                    lemma_string_close_bounds(s@, i + 1, q);
                    assert(seq![' '] + strip_strings(s@, e as int) =~= strip_strings(s@, i as int));
                    assert(out@ + strip_strings(s@, e as int) =~= out@.drop_last() + strip_strings(s@, i as int));
                }
                i = e;
            },
            None => {
                out.push(s[i]);
                proof {
                    assert(out@ + strip_strings(s@, i + 1) =~= out@.drop_last() + strip_strings(s@, i as int));
                }
                i = i + 1;
            },
        }
    }
    assert(out@ =~= out@ + strip_strings(s@, i as int));
    out
}

proof fn lemma_comment_close_shift(p: Seq<char>, y: Seq<char>, j: int)
    requires
        0 <= j,
    ensures
        comment_close(p + y, p.len() + j) == match comment_close(y, j) {
            Some(e) => Some(p.len() + e),
            None => None,
        },
    decreases y.len() - j,
{
    let s = p + y;
    if j + 1 < y.len() {
        assert(s[p.len() + j] == y[j] && s[p.len() + j + 1] == y[j + 1]);
        if !(y[j] == '*' && y[j + 1] == '/') {
            lemma_comment_close_shift(p, y, j + 1);
        }
    }
}

proof fn lemma_strip_comments_shift(p: Seq<char>, y: Seq<char>, i: int)
    requires
        0 <= i,
    ensures
        strip_comments(p + y, p.len() + i) == strip_comments(y, i),
    decreases y.len() - i,
{
    let s = p + y;
    let n = p.len() as int;
    if i < y.len() {
        assert(s[n + i] == y[i]);
        if i + 1 < y.len() {
            assert(s[n + i + 1] == y[i + 1]);
        }
        lemma_comment_close_shift(p, y, i + 2);
        if i + 1 < y.len() && y[i] == '/' && y[i + 1] == '*' && comment_close(y, i + 2) is Some
            && comment_close(y, i + 2)->0 > i && comment_close(y, i + 2)->0 <= y.len() {
            lemma_strip_comments_shift(p, y, comment_close(y, i + 2)->0);
        } else {
            lemma_strip_comments_shift(p, y, i + 1);
        }
    }
}

proof fn lemma_string_close_shift(p: Seq<char>, y: Seq<char>, j: int, q: char)
    requires
        0 <= j,
    ensures
        string_close(p + y, p.len() + j, q) == match string_close(y, j, q) {
            Some(e) => Some(p.len() + e),
            None => None,
        },
    decreases y.len() - j,
{
    let s = p + y;
    if j < y.len() {
        assert(s[p.len() + j] == y[j]);
        if y[j] != q {
            if y[j] == '\\' {
                if j + 1 < y.len() {
                    lemma_string_close_shift(p, y, j + 2, q);
                }
            } else {
                lemma_string_close_shift(p, y, j + 1, q);
            }
        }
    }
}

proof fn lemma_strip_strings_shift(p: Seq<char>, y: Seq<char>, i: int)
    requires
        0 <= i,
    ensures
        strip_strings(p + y, p.len() + i) == strip_strings(y, i),
    decreases y.len() - i,
{
    let s = p + y;
    let n = p.len() as int;
    if i < y.len() {
        assert(s[n + i] == y[i]);
        lemma_string_close_shift(p, y, i + 1, y[i]);
        if is_quote(y[i]) && string_close(y, i + 1, y[i]) is Some && string_close(y, i + 1, y[i])->0 > i
            && string_close(y, i + 1, y[i])->0 <= y.len() {
            lemma_strip_strings_shift(p, y, string_close(y, i + 1, y[i])->0);
        } else {
            lemma_strip_strings_shift(p, y, i + 1);
        }
    }
}

proof fn lemma_ident_end_shift(p: Seq<char>, y: Seq<char>, j: int)
    requires
        0 <= j,
    ensures
        ident_end(p + y, p.len() + j) == p.len() + ident_end(y, j),
    decreases y.len() - j,
{
    if j < y.len() {
        assert((p + y)[p.len() + j] == y[j]);
        if is_ident_char(y[j]) {
            lemma_ident_end_shift(p, y, j + 1);
        }
    }
}

proof fn lemma_selector_names_shift(p: Seq<char>, y: Seq<char>, i: int)
    requires
        0 <= i,
    ensures
        selector_names(p + y, p.len() + i) == selector_names(y, i),
    decreases y.len() - i,
{
    let s = p + y;
    let n = p.len() as int;
    if i < y.len() {
        assert(s[n + i] == y[i]);
        if i + 1 < y.len() {
            assert(s[n + i + 1] == y[i + 1]);
        }
        if i + 2 < y.len() {
            assert(s[n + i + 2] == y[i + 2]);
        }
        assert(selector_name_start(s, n + i) == match selector_name_start(y, i) {
            Some(a) => Some(n + a),
            None => None,
        });
        match selector_name_start(y, i) {
            Some(a) => {
                lemma_ident_end_shift(p, y, a);
                let e = ident_end(y, a);
                if e > i && e <= y.len() {
                    assert(s.subrange(n + i + 1, n + e) =~= y.subrange(i + 1, e));
                    lemma_selector_names_shift(p, y, e);
                } else {
                    lemma_selector_names_shift(p, y, i + 1);
                }
            },
            None => {
                lemma_selector_names_shift(p, y, i + 1);
            },
        }
    }
}

/// A block comment contributes no class names: wherever a complete `/* … */` comment
/// stands after text `a` in which no comment opens, replacing it by one space leaves the
/// classes unchanged.
pub proof fn lemma_comment_ignored(a: Seq<char>, x: Seq<char>, y: Seq<char>)
    requires
        forall|k: int| 0 <= k < a.len() - 1 ==> !(#[trigger] a[k] == '/' && a[k + 1] == '*'),
        forall|k: int| 0 <= k < x.len() - 1 ==> !(#[trigger] x[k] == '*' && x[k + 1] == '/'),
    ensures
        stylesheet_classes(a + seq!['/', '*'] + x + seq!['*', '/'] + y) == stylesheet_classes(
            a + seq![' '] + y,
        ),
{
    let n = a.len() as int;
    let p = a + seq!['/', '*'] + x + seq!['*', '/'];
    let s = p + y;
    let m = p.len() as int;
    assert(a + seq!['/', '*'] + x + seq!['*', '/'] + y == s);
    assert forall|k: int| 0 <= k < n implies !(k + 1 < s.len() && #[trigger] s[k] == '/' && s[k + 1] == '*') by {
        assert(s[k] == a[k]);
        if k + 1 < n {
            assert(s[k + 1] == a[k + 1]);
        } else {
            assert(s[k + 1] == '/');
        }
    }
    lemma_strip_comments_keeps(s, 0, n);
    assert(s[n] == '/' && s[n + 1] == '*');
    assert forall|j: int| n + 2 <= j < m - 2 implies !(#[trigger] s[j] == '*' && s[j + 1] == '/') by {
        assert(s[j] == x[j - n - 2]);
        if j + 1 < m - 2 {
            assert(s[j + 1] == x[j - n - 1]);
        } else {
            assert(s[j + 1] == '*');
        }
    }
    lemma_comment_close_prefix(s, n + 2, m - 2);
    assert(s[m - 2] == '*' && s[m - 1] == '/');
    assert(comment_close(s, n + 2) == Some(m));
    lemma_strip_comments_shift(p, y, 0);
    assert(strip_comments(s, n) == seq![' '] + strip_comments(y, 0));
    let q = a + seq![' '];
    let r = q + y;
    assert(a + seq![' '] + y == r);
    assert forall|k: int| 0 <= k < n implies !(k + 1 < r.len() && #[trigger] r[k] == '/' && r[k + 1] == '*') by {
        assert(r[k] == a[k]);
        if k + 1 < n {
            assert(r[k + 1] == a[k + 1]);
        }
    }
    lemma_strip_comments_keeps(r, 0, n);
    assert(r[n] == ' ');
    lemma_strip_comments_shift(q, y, 0);
    assert(strip_comments(r, n) == seq![' '] + strip_comments(y, 0));
    assert(s.subrange(0, n) =~= a && r.subrange(0, n) =~= a);
    assert(strip_comments(s, 0) == strip_comments(r, 0));
}

/// A quoted string contributes no class names: wherever a complete string literal stands
/// after text `a` that holds no quote, and no comment opens in `a` or in the literal (whose
/// body holds no backslash), replacing the literal by one space leaves the classes unchanged.
pub proof fn lemma_string_ignored(a: Seq<char>, q: char, x: Seq<char>, y: Seq<char>)
    requires
        is_quote(q),
        forall|k: int| 0 <= k < a.len() ==> !is_quote(#[trigger] a[k]),
        forall|k: int| 0 <= k < a.len() - 1 ==> !(#[trigger] a[k] == '/' && a[k + 1] == '*'),
        forall|k: int| 0 <= k < x.len() ==> #[trigger] x[k] != q && x[k] != '\\',
        forall|k: int| 0 <= k < x.len() - 1 ==> !(#[trigger] x[k] == '/' && x[k + 1] == '*'),
    ensures
        stylesheet_classes(a + seq![q] + x + seq![q] + y) == stylesheet_classes(a + seq![' '] + y),
{
    let n = a.len() as int;
    let p = a + seq![q] + x + seq![q];
    let s = p + y;
    let m = p.len() as int;
    assert(a + seq![q] + x + seq![q] + y == s);
    assert forall|k: int| 0 <= k < m implies !(k + 1 < s.len() && #[trigger] s[k] == '/' && s[k + 1] == '*') by {
        if k < n {
            assert(s[k] == a[k]);
            if k + 1 < n {
                assert(s[k + 1] == a[k + 1]);
            } else {
                assert(s[k + 1] == q);
            }
        } else if k == n || k == m - 1 {
            assert(s[k] == q);
        } else {
            assert(s[k] == x[k - n - 1]);
            if k + 1 < m - 1 {
                assert(s[k + 1] == x[k - n]);
            } else {
                assert(s[k + 1] == q);
            }
        }
    }
    lemma_strip_comments_keeps(s, 0, m);
    lemma_strip_comments_shift(p, y, 0);
    let w = strip_comments(y, 0);
    assert(s.subrange(0, m) =~= p);
    let s2 = p + w;
    assert(strip_comments(s, 0) == s2);
    let r = a + seq![' '] + y;
    let q2 = a + seq![' '];
    assert(q2 + y == r);
    assert forall|k: int| 0 <= k < n + 1 implies !(k + 1 < r.len() && #[trigger] r[k] == '/' && r[k + 1] == '*') by {
        if k < n {
            assert(r[k] == a[k]);
            if k + 1 < n {
                assert(r[k + 1] == a[k + 1]);
            }
        }
    }
    lemma_strip_comments_keeps(r, 0, n + 1);
    lemma_strip_comments_shift(q2, y, 0);
    assert(r.subrange(0, n + 1) =~= q2);
    let r2 = q2 + w;
    assert(strip_comments(r, 0) == r2);
    // the string pass
    assert forall|k: int| 0 <= k < n implies !is_quote(#[trigger] s2[k]) by {
        assert(s2[k] == a[k]);
    }
    lemma_strip_strings_keeps(s2, 0, n);
    assert forall|j: int| n + 1 <= j < m - 1 implies #[trigger] s2[j] != q && s2[j] != '\\' by {
        assert(s2[j] == x[j - n - 1]);
    }
    lemma_string_close_run(s2, n + 1, m - 1, q);
    assert(s2[m - 1] == q && s2[n] == q);
    assert(string_close(s2, n + 1, q) == Some(m));
    lemma_strip_strings_shift(p, w, 0);
    assert(strip_strings(s2, n) == seq![' '] + strip_strings(w, 0));
    assert forall|k: int| 0 <= k < n implies !is_quote(#[trigger] r2[k]) by {
        assert(r2[k] == a[k]);
    }
    lemma_strip_strings_keeps(r2, 0, n);
    assert(r2[n] == ' ');
    lemma_strip_strings_shift(q2, w, 0);
    assert(strip_strings(r2, n) == seq![' '] + strip_strings(w, 0));
    assert(s2.subrange(0, n) =~= a && r2.subrange(0, n) =~= a);
}

proof fn lemma_comment_close_prefix(s: Seq<char>, j: int, k: int)
    requires
        0 <= j <= k,
        k + 1 < s.len(),
        forall|m: int| j <= m < k ==> !(#[trigger] s[m] == '*' && s[m + 1] == '/'),
    ensures
        comment_close(s, j) == comment_close(s, k),
    decreases k - j,
{
    if j < k {
        lemma_comment_close_prefix(s, j + 1, k);
    }
}

proof fn lemma_string_close_run(s: Seq<char>, j: int, k: int, q: char)
    requires
        0 <= j <= k < s.len(),
        forall|m: int| j <= m < k ==> s[m] != q && s[m] != '\\',
    ensures
        string_close(s, j, q) == string_close(s, k, q),
    decreases k - j,
{
    if j < k {
        lemma_string_close_run(s, j + 1, k, q);
    }
}

/// The comment pass copies `s[i..n]` unchanged where no comment opens in it.
proof fn lemma_strip_comments_keeps(s: Seq<char>, i: int, n: int)
    requires
        0 <= i <= n <= s.len(),
        forall|k: int| i <= k < n ==> !(k + 1 < s.len() && #[trigger] s[k] == '/' && s[k + 1] == '*'),
    ensures
        strip_comments(s, i) == s.subrange(i, n) + strip_comments(s, n),
    decreases n - i,
{
    if i == n {
        assert(s.subrange(i, n) + strip_comments(s, n) =~= strip_comments(s, n));
    } else {
        lemma_strip_comments_keeps(s, i + 1, n);
        assert(s.subrange(i, n) =~= seq![s[i]] + s.subrange(i + 1, n));
    }
}

/// The string pass copies `s[i..n]` unchanged where it holds no quote.
proof fn lemma_strip_strings_keeps(s: Seq<char>, i: int, n: int)
    requires
        0 <= i <= n <= s.len(),
        forall|k: int| i <= k < n ==> !is_quote(#[trigger] s[k]),
    ensures
        strip_strings(s, i) == s.subrange(i, n) + strip_strings(s, n),
    decreases n - i,
{
    if i == n {
        assert(s.subrange(i, n) + strip_strings(s, n) =~= strip_strings(s, n));
    } else {
        lemma_strip_strings_keeps(s, i + 1, n);
        assert(s.subrange(i, n) =~= seq![s[i]] + s.subrange(i + 1, n));
    }
}

/// The character sequences that the strings of `v` hold, in order.
pub open spec fn names_of(v: Seq<String>) -> Seq<Seq<char>> {
    v.map_values(|x: String| x@)
}

/// Whether `v` holds a string equal to `n`.
pub fn contains_name(v: &Vec<String>, n: &String) -> (r: bool)
    ensures
        r == names_of(v@).contains(n@),
{
    let mut k: usize = 0;
    while k < v.len()
        invariant
            k <= v.len(),
            forall|m: int| 0 <= m < k ==> v@[m]@ != n@,
        decreases v.len() - k,
    {
        if v[k] == *n {
            assert(names_of(v@)[k as int] == n@);
            return true;
        }
        k = k + 1;
    }
    proof {
        if names_of(v@).contains(n@) {
            let m = choose|m: int| 0 <= m < names_of(v@).len() && names_of(v@)[m] == n@;
            assert(v@[m]@ == n@);
        }
    }
    false
}

fn ident_char(c: char) -> (r: bool)
    ensures
        r == is_ident_char(c),
{
    ('a' <= c && c <= 'z') || ('A' <= c && c <= 'Z') || c == '_' || ('0' <= c && c <= '9') || c
        == '-'
}

fn ident_start(c: char) -> (r: bool)
    ensures
        r == is_ident_start(c),
{
    ('a' <= c && c <= 'z') || ('A' <= c && c <= 'Z') || c == '_'
}

fn selector_name_start_at(s: &[char], i: usize) -> (r: Option<usize>)
    requires
        i < s.len(),
    ensures
        match r {
            Some(a) => selector_name_start(s@, i as int) == Some(a as int) && a <= s.len(),
            None => selector_name_start(s@, i as int) is None,
        },
{
    if i < s.len() - 1 && s[i] == '.' {
        if s[i + 1] == '-' && i < s.len() - 2 && ident_start(s[i + 2]) {
            Some(i + 3)
        } else if ident_start(s[i + 1]) {
            Some(i + 2)
        } else {
            None
        }
    } else {
        None
    }
}

fn ident_end_at(s: &[char], j: usize) -> (r: usize)
    requires
        j <= s.len(),
    ensures
        r as int == ident_end(s@, j as int),
        j <= r <= s.len(),
{
    let mut k = j;
    while k < s.len() && ident_char(s[k])
        invariant
            j <= k <= s.len(),
            ident_end(s@, k as int) == ident_end(s@, j as int),
        decreases s.len() - k,
    {
        k = k + 1;
    }
    k
}

/// The class selector names of `t`, in order of appearance.
fn selector_name_list(t: &[char]) -> (r: Vec<String>)
    ensures
        names_of(r@) == selector_names(t@, 0),
{
    let mut out: Vec<String> = Vec::new();
    let mut i: usize = 0;
    while i < t.len()
        invariant
            i <= t.len(),
            names_of(out@) + selector_names(t@, i as int) == selector_names(t@, 0),
        decreases t.len() - i,
    {
        match selector_name_start_at(t, i) {
            Some(a) => {
                let e = ident_end_at(t, a);
                let name = crate::text::string_of(vstd::slice::slice_subrange(t, i + 1, e));
                let ghost o0 = names_of(out@);
                out.push(name);
                proof {
                    let tok = t@.subrange(i + 1, e as int);
                    let rest = selector_names(t@, e as int);
                    assert(selector_names(t@, i as int) == seq![tok] + rest);
                    assert(names_of(out@) =~= o0.push(tok));
                    assert(o0.push(tok) + rest =~= o0 + (seq![tok] + rest));
                }
                i = e;
            },
            None => {
                i = i + 1;
            },
        }
    }
    assert(names_of(out@) =~= names_of(out@) + selector_names(t@, i as int));
    out
}

/// The names of `v` with repeats removed, in order of first appearance.
pub fn distinct(v: Vec<String>) -> (r: Vec<String>)
    ensures
        names_of(r@).no_duplicates(),
        forall|x: Seq<char>| names_of(r@).contains(x) <==> names_of(v@).contains(x),
{
    let mut out: Vec<String> = Vec::new();
    let mut k: usize = 0;
    while k < v.len()
        invariant
            k <= v.len(),
            names_of(out@).no_duplicates(),
            forall|x: Seq<char>| names_of(out@).contains(x) <==> names_of(v@).take(k as int).contains(x),
        decreases v.len() - k,
    {
        let ghost o0 = names_of(out@);
        let ghost t1 = names_of(v@).take(k as int);
        let ghost t2 = names_of(v@).take(k + 1);
        let ghost nm = v@[k as int]@;
        proof {
            assert(t2 =~= t1.push(nm));
        }
        let present = contains_name(&out, &v[k]);
        if !present {
            out.push(v[k].clone());
            proof {
                assert(names_of(out@) =~= o0.push(nm));
            }
        }
        proof {
            assert forall|x: Seq<char>| names_of(out@).contains(x) <==> t2.contains(x) by {
                assert(o0.contains(x) <==> t1.contains(x));
                if t1.contains(x) {
                    let j = choose|j: int| 0 <= j < t1.len() && t1[j] == x;
                    assert(t2[j] == x);
                }
                if t2.contains(x) && x != nm {
                    let j = choose|j: int| 0 <= j < t2.len() && t2[j] == x;
                    assert(t1[j] == x);
                }
                if x == nm {
                    assert(t2[k as int] == x);
                    if !present {
                        assert(names_of(out@)[o0.len() as int] == x);
                    }
                }
                if !present && names_of(out@).contains(x) && !o0.contains(x) {
                    let j = choose|j: int| 0 <= j < names_of(out@).len() && names_of(out@)[j] == x;
                    assert(j == o0.len());
                }
                if !present && o0.contains(x) {
                    let j = choose|j: int| 0 <= j < o0.len() && o0[j] == x;
                    assert(names_of(out@)[j] == x);
                }
            }
        }
        k = k + 1;
    }
    assert(names_of(v@).take(k as int) =~= names_of(v@));
    out
}

/// The distinct class names that stylesheet text `css` defines, with block comments and
/// quoted string literals ignored.
pub fn extract_classes(css: &str) -> (r: Vec<String>)
    ensures
        names_of(r@).no_duplicates(),
        forall|x: Seq<char>| names_of(r@).contains(x) <==> stylesheet_classes(css@).contains(x),
{
    let cs = crate::text::chars_of(css);
    let a = strip_comments_exec(cs.as_slice());
    let b = strip_strings_exec(a.as_slice());
    distinct(selector_name_list(b.as_slice()))
}

} // verus!
