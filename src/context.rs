use vstd::prelude::*;

use crate::position::{offset_at, offset_in, Position};

verus! {

/// Unicode `White_Space`: the characters that `char::is_whitespace` accepts.
pub open spec fn is_white_space(c: char) -> bool {
    let u = c as u32;
    (0x9 <= u && u <= 0xd) || u == 0x20 || u == 0x85 || u == 0xa0 || u == 0x1680 || (0x2000 <= u
        && u <= 0x200a) || u == 0x2028 || u == 0x2029 || u == 0x202f || u == 0x205f || u == 0x3000
}

pub fn white_space(c: char) -> (r: bool)
    ensures
        r == is_white_space(c),
{
    let u = c as u32;
    (0x9 <= u && u <= 0xd) || u == 0x20 || u == 0x85 || u == 0xa0 || u == 0x1680 || (0x2000 <= u
        && u <= 0x200a) || u == 0x2028 || u == 0x2029 || u == 0x202f || u == 0x205f || u == 0x3000
}

/// Non-ASCII Unicode word characters, as the regex `\w` class has them: `Alphabetic`, marks,
/// decimal digits, connector punctuation and `Join_Control`.
pub uninterp spec fn is_unicode_word_char(c: char) -> bool;

/// ASCII word characters: letters, digits and the underscore.
pub open spec fn is_ascii_word_char(c: char) -> bool {
    ('a' <= c && c <= 'z') || ('A' <= c && c <= 'Z') || ('0' <= c && c <= '9') || c == '_'
}

/// Unicode word characters (the regex `\w` class), which on ASCII are letters, digits and the
/// underscore.
pub open spec fn is_word_char(c: char) -> bool {
    if (c as u32) < 0x80 { is_ascii_word_char(c) } else { is_unicode_word_char(c) }
}

pub open spec fn is_quote(c: char) -> bool {
    c == '"' || c == '\''
}

/// `w` occurs in `s` starting at index `i`.
pub open spec fn has_at(s: Seq<char>, i: int, w: Seq<char>) -> bool {
    0 <= i && i + w.len() <= s.len() && s.subrange(i, i + w.len()) == w
}

pub open spec fn word_class() -> Seq<char> {
    seq!['c', 'l', 'a', 's', 's']
}

pub open spec fn word_name() -> Seq<char> {
    seq!['N', 'a', 'm', 'e']
}

/// First index at or after `i` that does not hold white space.
pub open spec fn skip_ws(s: Seq<char>, i: int) -> int
    decreases s.len() - i,
{
    if 0 <= i < s.len() && is_white_space(s[i]) { skip_ws(s, i + 1) } else { i }
}

/// End (just past the quote) of an attribute opener that starts at index `p`, if one does:
/// the word `class` (not preceded by a word character), optionally `Name`, optional white
/// space, `=`, optional white space, and a quote.
pub open spec fn opener_end(s: Seq<char>, p: int) -> Option<int> {
    if !has_at(s, p, word_class()) || (p > 0 && is_word_char(s[p - 1])) {
        None
    } else {
        let q = if has_at(s, p + 5, word_name()) { p + 9 } else { p + 5 };
        let a = skip_ws(s, q);
        if a < s.len() && s[a] == '=' {
            let b = skip_ws(s, a + 1);
            if b < s.len() && is_quote(s[b]) { Some(b + 1) } else { None }
        } else {
            None
        }
    }
}

/// End of the opener with the greatest start below `n`.
pub open spec fn last_opener_before(s: Seq<char>, n: int) -> Option<int>
    decreases n,
{
    if n <= 0 {
        None
    } else {
        match opener_end(s, n - 1) {
            Some(e) => Some(e),
            None => last_opener_before(s, n - 1),
        }
    }
}

/// The text `s` before a cursor ends inside an attribute value whose opener was the last one
/// and whose quote has not been seen again.
pub open spec fn in_class_value(s: Seq<char>) -> bool {
    match last_opener_before(s, s.len() as int) {
        Some(e) => !s.subrange(e, s.len() as int).contains(s[e - 1]),
        None => false,
    }
}

pub open spec fn is_token_boundary(c: char) -> bool {
    is_white_space(c) || is_quote(c)
}

/// Index just past the last white space or quote of `s`, or 0 where there is none.
pub open spec fn prefix_start(s: Seq<char>) -> int
    decreases s.len(),
{
    if s.len() == 0 {
        0
    } else if is_token_boundary(s.last()) {
        s.len() as int
    } else {
        prefix_start(s.drop_last())
    }
}

/// The partial token that `s` ends with.
pub open spec fn word_prefix(s: Seq<char>) -> Seq<char> {
    s.subrange(prefix_start(s), s.len() as int)
}

proof fn lemma_skip_ws_run(s: Seq<char>, i: int)
    requires
        0 <= i,
    ensures
        i <= skip_ws(s, i),
        skip_ws(s, i) <= s.len() || skip_ws(s, i) == i,
        forall|k: int| i <= k < skip_ws(s, i) ==> 0 <= k < s.len() && is_white_space(#[trigger] s[k]),
    decreases s.len() - i,
{
    if 0 <= i < s.len() && is_white_space(s[i]) {
        lemma_skip_ws_run(s, i + 1);
        assert(skip_ws(s, i) == skip_ws(s, i + 1));
        assert forall|k: int| i <= k < skip_ws(s, i) implies 0 <= k < s.len() && is_white_space(s[k]) by {
            if k > i {
                assert(i + 1 <= k < skip_ws(s, i + 1));
                assert(is_white_space(s[k]));
            }
        }
    }
}

/// Inside an attribute opener no other opener starts.
proof fn lemma_no_opener_inside(s: Seq<char>, p: int, e: int, p2: int)
    requires
        opener_end(s, p) == Some(e),
        p < p2 < e,
    ensures
        opener_end(s, p2) is None,
{
    let q = if has_at(s, p + 5, word_name()) { p + 9 } else { p + 5 };
    let a = skip_ws(s, q);
    let b = skip_ws(s, a + 1);
    lemma_skip_ws_run(s, q);
    lemma_skip_ws_run(s, a + 1);
    if has_at(s, p2, word_class()) {
        assert(s.subrange(p2, p2 + 5)[0] == 'c');
        assert(s[p2] == 'c');
        if p2 < p + 5 {
            assert(s.subrange(p, p + 5)[p2 - p] == s[p2]);
        } else if p2 < q {
            assert(s.subrange(p + 5, p + 9)[p2 - p - 5] == s[p2]);
        }
    }
}

proof fn lemma_last_opener_skip(s: Seq<char>, lo: int, n: int)
    requires
        0 <= lo <= n,
        forall|p2: int| lo <= p2 < n ==> opener_end(s, p2) is None,
    ensures
        last_opener_before(s, n) == last_opener_before(s, lo),
    decreases n - lo,
{
    if n > lo {
        lemma_last_opener_skip(s, lo, n - 1);
    }
}

/// After an attribute opener, with no opener following it, the cursor is inside the value
/// exactly while the opener's quote has not appeared again. Right after the quote the cursor
/// is inside; once the same quote closes the value it is outside; and earlier attributes in
/// the text make no difference, as the nearest opener decides.
pub proof fn lemma_nearest_opener_decides(s: Seq<char>, p: int, e: int)
    requires
        opener_end(s, p) == Some(e),
        forall|p2: int| e <= p2 < s.len() ==> opener_end(s, p2) is None,
    ensures
        in_class_value(s) == !s.subrange(e, s.len() as int).contains(s[e - 1]),
{
    let q = if has_at(s, p + 5, word_name()) { p + 9 } else { p + 5 };
    lemma_skip_ws_run(s, q);
    lemma_skip_ws_run(s, skip_ws(s, q) + 1);
    assert forall|p2: int| p + 1 <= p2 < s.len() implies opener_end(s, p2) is None by {
        if p2 < e {
            lemma_no_opener_inside(s, p, e, p2);
        }
    }
    lemma_last_opener_skip(s, p + 1, s.len() as int);
}

fn skip_ws_at(s: &[char], i: usize) -> (r: usize)
    requires
        i <= s.len(),
    ensures
        r as int == skip_ws(s@, i as int),
        i <= r <= s.len(),
{
    let mut j = i;
    while j < s.len() && white_space(s[j])
        invariant
            i <= j <= s.len(),
            skip_ws(s@, j as int) == skip_ws(s@, i as int),
        decreases s.len() - j,
    {
        j = j + 1;
    }
    j
}

fn class_at(s: &[char], p: usize) -> (r: bool)
    requires
        p <= s.len(),
    ensures
        r == has_at(s@, p as int, word_class()),
{
    if s.len() - p >= 5 && s[p] == 'c' && s[p + 1] == 'l' && s[p + 2] == 'a' && s[p + 3] == 's'
        && s[p + 4] == 's' {
        assert(s@.subrange(p as int, p + 5) =~= word_class());
        true
    } else {
        proof {
            if has_at(s@, p as int, word_class()) {
                assert(s@.subrange(p as int, p + 5)[0] == 'c');
                assert(s@.subrange(p as int, p + 5)[1] == 'l');
                assert(s@.subrange(p as int, p + 5)[2] == 'a');
                assert(s@.subrange(p as int, p + 5)[3] == 's');
                assert(s@.subrange(p as int, p + 5)[4] == 's');
            }
        }
        false
    }
}

fn name_at(s: &[char], p: usize) -> (r: bool)
    requires
        p <= s.len(),
    ensures
        r == has_at(s@, p as int, word_name()),
{
    if s.len() - p >= 4 && s[p] == 'N' && s[p + 1] == 'a' && s[p + 2] == 'm' && s[p + 3] == 'e' {
        assert(s@.subrange(p as int, p + 4) =~= word_name());
        true
    } else {
        proof {
            if has_at(s@, p as int, word_name()) {
                assert(s@.subrange(p as int, p + 4)[0] == 'N');
                assert(s@.subrange(p as int, p + 4)[1] == 'a');
                assert(s@.subrange(p as int, p + 4)[2] == 'm');
                assert(s@.subrange(p as int, p + 4)[3] == 'e');
            }
        }
        false
    }
}

/// Relies on `regex::Regex::is_match` with the pattern `\A\w\z`: whether the one character
/// `c` is a Unicode word character; the answer depends on `c` alone. On ASCII, `\w` is
/// `[0-9A-Za-z_]`, as the regex documentation gives for `[[:word:]]`.
#[verifier::external_body]
fn word_char(c: char) -> (r: bool)
    ensures
        (c as u32) < 0x80 ==> r == is_ascii_word_char(c),
        (c as u32) >= 0x80 ==> r == is_unicode_word_char(c),
{
    let mut buf = [0u8; 4];
    regex::Regex::new(r"\A\w\z").map_or(false, |re| re.is_match(c.encode_utf8(&mut buf)))
}

fn opener_end_at(s: &[char], p: usize) -> (r: Option<usize>)
    requires
        p < s.len(),
    ensures
        match r {
            Some(e) => opener_end(s@, p as int) == Some(e as int) && p < e <= s.len(),
            None => opener_end(s@, p as int) is None,
        },
{
    if !class_at(s, p) || (p > 0 && word_char(s[p - 1])) {
        return None;
    }
    let q = if name_at(s, p + 5) { p + 9 } else { p + 5 };
    let a = skip_ws_at(s, q);
    if a < s.len() && s[a] == '=' {
        let b = skip_ws_at(s, a + 1);
        if b < s.len() && (s[b] == '"' || s[b] == '\'') {
            Some(b + 1)
        } else {
            None
        }
    } else {
        None
    }
}

/// Whether the text before `cursor` ends inside an open class attribute value.
pub fn in_class_value_at(t: &[char], cursor: usize) -> (r: bool)
    requires
        cursor <= t.len(),
    ensures
        r == in_class_value(t@.take(cursor as int)),
{
    let ghost s = t@.take(cursor as int);
    let before = vstd::slice::slice_subrange(t, 0, cursor);
    assert(before@ =~= s);
    let mut n = cursor;
    while n > 0
        invariant
            n <= cursor,
            before@ == s,
            s == t@.take(cursor as int),
            before.len() == cursor,
            last_opener_before(s, cursor as int) == last_opener_before(s, n as int),
        decreases n,
    {
        match opener_end_at(before, n - 1) {
            Some(e) => {
                assert(last_opener_before(s, n as int) == Some(e as int));
                let qc = before[e - 1];
                let mut k = e;
                while k < before.len()
                    invariant
                        e <= k <= before.len(),
                        before@ == s,
                        s == t@.take(cursor as int),
                        before.len() == cursor,
                        1 <= e <= cursor,
                        s.len() == cursor,
                        last_opener_before(s, cursor as int) == Some(e as int),
                        qc == s[e - 1],
                        forall|m: int| e <= m < k ==> s[m] != qc,
                    decreases before.len() - k,
                {
                    if before[k] == qc {
                        assert(s.subrange(e as int, cursor as int)[k - e] == qc);
                        return false;
                    }
                    k = k + 1;
                }
                proof {
                    if s.subrange(e as int, cursor as int).contains(qc) {
                        let m = choose|m: int|
                            0 <= m < s.subrange(e as int, cursor as int).len()
                                && s.subrange(e as int, cursor as int)[m] == qc;
                        assert(s[e + m] == qc);
                    }
                }
                return true;
            },
            None => {},
        }
        n = n - 1;
    }
    false
}

/// The partial token between the last white space or quote before `cursor` and `cursor`.
pub fn word_prefix_at(t: &[char], cursor: usize) -> (r: Vec<char>)
    requires
        cursor <= t.len(),
    ensures
        r@ == word_prefix(t@.take(cursor as int)),
{
    let ghost s = t@.take(cursor as int);
    assert(s.take(cursor as int) =~= s);
    let mut n = cursor;
    while n > 0 && !(white_space(t[n - 1]) || t[n - 1] == '"' || t[n - 1] == '\'')
        invariant
            n <= cursor <= t.len(),
            s == t@.take(cursor as int),
            prefix_start(s) == prefix_start(s.take(n as int)),
        decreases n,
    {
        proof {
            assert(s.take(n as int).drop_last() =~= s.take(n - 1));
        }
        n = n - 1;
    }
    proof {
        if n > 0 {
            assert(s.take(n as int).last() == t@[n - 1]);
        } else {
            assert(s.take(0) =~= Seq::<char>::empty());
        }
    }
    let mut out: Vec<char> = Vec::new();
    let mut k = n;
    while k < cursor
        invariant
            n <= k <= cursor <= t.len(),
            out@ == t@.subrange(n as int, k as int),
        decreases cursor - k,
    {
        out.push(t[k]);
        k = k + 1;
        assert(out@ =~= t@.subrange(n as int, k as int));
    }
    assert(out@ =~= s.subrange(n as int, cursor as int));
    out
}

proof fn lemma_prefix_start_bounds(s: Seq<char>)
    ensures
        0 <= prefix_start(s) <= s.len(),
    decreases s.len(),
{
    if s.len() > 0 && !is_token_boundary(s.last()) {
        lemma_prefix_start_bounds(s.drop_last());
    }
}

/// The word prefix is whatever follows the last white space or quote: empty right after one,
/// and the whole run of other characters otherwise.
pub proof fn lemma_word_prefix_run(u: Seq<char>, v: Seq<char>)
    requires
        u.len() == 0 || is_token_boundary(u.last()),
        forall|k: int| 0 <= k < v.len() ==> !is_token_boundary(v[k]),
    ensures
        word_prefix(u + v) == v,
    decreases v.len(),
{
    if v.len() == 0 {
        assert(u + v =~= u);
        if u.len() > 0 {
            assert(u.subrange(u.len() as int, u.len() as int) =~= v);
        } else {
            assert(u.subrange(0, 0) =~= v);
        }
    } else {
        let w = v.drop_last();
        lemma_word_prefix_run(u, w);
        lemma_prefix_start_bounds(u + w);
        assert((u + w).subrange(prefix_start(u + w), (u + w).len() as int).len() == w.len());
        assert(prefix_start(u + w) == u.len());
        assert((u + v).drop_last() =~= u + w);
        assert((u + v).last() == v[v.len() - 1]);
        assert(prefix_start(u + v) == prefix_start(u + w));
        assert((u + v).subrange(prefix_start(u + v), (u + v).len() as int) =~= v);
    }
}

/// Whether the cursor at `pos` sits inside a `class="…"` or `className='…'` attribute value.
pub fn is_in_class_attribute(text: &str, pos: Position) -> (r: bool)
    ensures
        r == match offset_at(text@, pos.line as nat, pos.character as nat) {
            Some(o) => in_class_value(text@.take(o)),
            None => false,
        },
{
    let t = crate::text::chars_of(text);
    match offset_in(t.as_slice(), pos.line, pos.character) {
        Some(o) => in_class_value_at(t.as_slice(), o),
        None => false,
    }
}

/// The partial class name typed before the cursor at `pos`: everything after the last
/// white space or quote.
pub fn get_word_prefix(text: &str, pos: Position) -> (r: String)
    ensures
        r@ == match offset_at(text@, pos.line as nat, pos.character as nat) {
            Some(o) => word_prefix(text@.take(o)),
            None => Seq::<char>::empty(),
        },
{
    let t = crate::text::chars_of(text);
    match offset_in(t.as_slice(), pos.line, pos.character) {
        Some(o) => {
            let p = word_prefix_at(t.as_slice(), o);
            crate::text::string_of(p.as_slice())
        },
        None => String::new(),
    }
}

} // verus!
