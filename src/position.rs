use vstd::prelude::*;

verus! {

/// A cursor location: a zero-based line and a column counted in UTF-16 code units.
#[derive(Clone, Copy, Debug, PartialEq, Eq, Structural)]
pub struct Position {
    pub line: u32,
    pub character: u32,
}

/// Number of UTF-16 code units that encode `c`.
pub open spec fn utf16_width(c: char) -> nat {
    if (c as u32) < 0x10000 { 1 } else { 2 }
}

/// Total UTF-16 width of a character sequence.
pub open spec fn utf16_len(s: Seq<char>) -> nat
    decreases s.len(),
{
    if s.len() == 0 { 0 } else { utf16_len(s.drop_last()) + utf16_width(s.last()) }
}

/// Number of line terminators among the first `o` characters.
pub open spec fn newlines_before(t: Seq<char>, o: int) -> nat
    decreases o,
{
    if o <= 0 { 0 } else {
        newlines_before(t, o - 1) + if t[o - 1] == '\n' { 1nat } else { 0nat }
    }
}

/// Index at which the line holding offset `o` starts.
pub open spec fn line_start(t: Seq<char>, o: int) -> int
    decreases o,
{
    if o <= 0 { 0 } else if t[o - 1] == '\n' { o } else { line_start(t, o - 1) }
}

/// Zero-based line of offset `o`.
pub open spec fn line_of(t: Seq<char>, o: int) -> nat {
    newlines_before(t, o)
}

/// UTF-16 column of offset `o` within its line.
pub open spec fn column_of(t: Seq<char>, o: int) -> nat {
    utf16_len(t.subrange(line_start(t, o), o))
}

/// Offset `o` (a character index, possibly the end of the text) sits at `line`, `col`.
pub open spec fn is_position_of(t: Seq<char>, o: int, line: nat, col: nat) -> bool {
    0 <= o <= t.len() && line_of(t, o) == line && column_of(t, o) == col
}

/// The offset at `line`, `col`, if one exists.
pub open spec fn offset_at(t: Seq<char>, line: nat, col: nat) -> Option<int> {
    if exists|o: int| is_position_of(t, o, line, col) {
        Some(choose|o: int| is_position_of(t, o, line, col))
    } else {
        None
    }
}

pub(crate) fn char_utf16_width(c: char) -> (r: u64)
    ensures
        r == utf16_width(c),
{
    if (c as u32) < 0x10000 { 1 } else { 2 }
}

proof fn lemma_utf16_len_push(s: Seq<char>, c: char)
    ensures
        utf16_len(s.push(c)) == utf16_len(s) + utf16_width(c),
{
    assert(s.push(c).drop_last() =~= s);
}

proof fn lemma_line_start_bounds(t: Seq<char>, o: int)
    requires
        0 <= o <= t.len(),
    ensures
        0 <= line_start(t, o) <= o,
        newlines_before(t, line_start(t, o)) == newlines_before(t, o),
        forall|j: int| line_start(t, o) <= j < o ==> t[j] != '\n',
        line_start(t, o) == 0 || t[line_start(t, o) - 1] == '\n',
    decreases o,
{
    if o > 0 && t[o - 1] != '\n' {
        lemma_line_start_bounds(t, o - 1);
    }
}

proof fn lemma_newlines_monotone(t: Seq<char>, a: int, b: int)
    requires
        0 <= a <= b <= t.len(),
    ensures
        newlines_before(t, a) <= newlines_before(t, b),
        (exists|j: int| a <= j < b && t[j] == '\n') ==> newlines_before(t, a) < newlines_before(t, b),
    decreases b - a,
{
    if a < b {
        lemma_newlines_monotone(t, a, b - 1);
    }
}

proof fn lemma_utf16_len_sub_strict(t: Seq<char>, s: int, a: int, b: int)
    requires
        0 <= s <= a < b <= t.len(),
    ensures
        utf16_len(t.subrange(s, a)) < utf16_len(t.subrange(s, b)),
    decreases b - a,
{
    assert(t.subrange(s, b) =~= t.subrange(s, b - 1).push(t[b - 1]));
    lemma_utf16_len_push(t.subrange(s, b - 1), t[b - 1]);
    if a < b - 1 {
        lemma_utf16_len_sub_strict(t, s, a, b - 1);
    }
}

/// Two offsets on the same line share its start.
proof fn lemma_same_line_same_start(t: Seq<char>, a: int, b: int)
    requires
        0 <= a <= b <= t.len(),
        line_of(t, a) == line_of(t, b),
    ensures
        line_start(t, a) == line_start(t, b),
        forall|j: int| line_start(t, b) <= j < b ==> t[j] != '\n',
    decreases b - a,
{
    lemma_line_start_bounds(t, b);
    if a < b {
        if t[b - 1] == '\n' {
            lemma_newlines_monotone(t, a, b);
            assert(false);
        } else {
            lemma_newlines_monotone(t, a, b - 1);
            lemma_newlines_monotone(t, b - 1, b);
            lemma_same_line_same_start(t, a, b - 1);
        }
    }
}

/// At most one offset sits at a given line and column.
pub proof fn lemma_position_unique(t: Seq<char>, a: int, b: int, line: nat, col: nat)
    requires
        is_position_of(t, a, line, col),
        is_position_of(t, b, line, col),
    ensures
        a == b,
{
    if a < b {
        lemma_same_line_same_start(t, a, b);
        lemma_line_start_bounds(t, a);
        lemma_utf16_len_sub_strict(t, line_start(t, a), a, b);
    } else if b < a {
        lemma_same_line_same_start(t, b, a);
        lemma_line_start_bounds(t, b);
        lemma_utf16_len_sub_strict(t, line_start(t, b), b, a);
    }
}


/// A run of characters without a line terminator, starting at a line start, stays on that line.
proof fn lemma_line_run(t: Seq<char>, s: int, j: int)
    requires
        0 <= s <= j <= t.len(),
        s == 0 || t[s - 1] == '\n',
        forall|k: int| s <= k < j ==> t[k] != '\n',
    ensures
        line_start(t, j) == s,
        newlines_before(t, j) == newlines_before(t, s),
    decreases j - s,
{
    if j > s {
        lemma_line_run(t, s, j - 1);
    }
}

/// Every offset on the line that starts at `s` lies at or after `s`.
proof fn lemma_on_line(t: Seq<char>, s: int, o: int)
    requires
        0 <= s <= t.len(),
        0 <= o <= t.len(),
        s == 0 || t[s - 1] == '\n',
        line_of(t, o) == line_of(t, s),
    ensures
        s <= o,
        line_start(t, o) == s,
{
    if o < s {
        lemma_newlines_monotone(t, o, s);
        assert(t[s - 1] == '\n');
    } else {
        lemma_same_line_same_start(t, s, o);
        lemma_line_start_bounds(t, s);
        if s > 0 {
            assert(line_start(t, s) == s);
        }
    }
}

proof fn lemma_offset_at_is(t: Seq<char>, o: int, line: nat, col: nat)
    requires
        is_position_of(t, o, line, col),
    ensures
        offset_at(t, line, col) == Some(o),
{
    let c = choose|x: int| is_position_of(t, x, line, col);
    lemma_position_unique(t, o, c, line, col);
}

/// Character offset of `line`, `col` in `t`, or `None` where no character boundary sits there.
pub fn offset_in(t: &[char], line: u32, col: u32) -> (r: Option<usize>)
    ensures
        match r {
            Some(o) => offset_at(t@, line as nat, col as nat) == Some(o as int),
            None => offset_at(t@, line as nat, col as nat) is None,
        },
{
    let ghost ts = t@;
    let mut i: usize = 0;
    let mut cur: u32 = 0;
    while cur < line
        invariant
            ts == t@,
            i <= t.len(),
            cur <= line,
            newlines_before(ts, i as int) == cur,
            cur == line ==> (i == 0 || ts[i - 1] == '\n'),
        decreases t.len() - i + (line - cur),
    {
        if i >= t.len() {
            proof {
                assert forall|o: int| !is_position_of(ts, o, line as nat, col as nat) by {
                    if 0 <= o <= ts.len() {
                        lemma_newlines_monotone(ts, o, ts.len() as int);
                    }
                }
            }
            return None;
        }
        if t[i] == '\n' {
            cur = cur + 1;
        }
        i = i + 1;
    }
    let s = i;
    let mut j: usize = s;
    let mut acc: u64 = 0;
    proof {
        lemma_line_run(ts, s as int, s as int);
    }
    loop
        invariant
            ts == t@,
            s <= j <= t.len(),
            s == 0 || ts[s - 1] == '\n',
            newlines_before(ts, s as int) == line,
            forall|k: int| s <= k < j ==> ts[k] != '\n',
            acc == utf16_len(ts.subrange(s as int, j as int)),
            acc <= col,
        decreases t.len() - j,
    {
        proof {
            lemma_line_run(ts, s as int, j as int);
        }
        if acc == col as u64 {
            proof {
                lemma_offset_at_is(ts, j as int, line as nat, col as nat);
            }
            return Some(j);
        }
        if j == t.len() || t[j] == '\n' {
            proof {
                assert forall|o: int| !is_position_of(ts, o, line as nat, col as nat) by {
                    if is_position_of(ts, o, line as nat, col as nat) {
                        lemma_on_line(ts, s as int, o);
                        if o < j {
                            lemma_utf16_len_sub_strict(ts, s as int, o, j as int);
                        } else if o > j {
                            lemma_newlines_monotone(ts, j as int, o);
                            lemma_line_run(ts, s as int, j as int);
                        }
                    }
                }
            }
            return None;
        }
        let w = char_utf16_width(t[j]);
        proof {
            assert(ts.subrange(s as int, j + 1) =~= ts.subrange(s as int, j as int).push(ts[j as int]));
            lemma_utf16_len_push(ts.subrange(s as int, j as int), ts[j as int]);
        }
        if acc + w > col as u64 {
            proof {
                assert forall|o: int| !is_position_of(ts, o, line as nat, col as nat) by {
                    if is_position_of(ts, o, line as nat, col as nat) {
                        lemma_on_line(ts, s as int, o);
                        if o <= j {
                            if o < j {
                                lemma_utf16_len_sub_strict(ts, s as int, o, j as int);
                            }
                        } else if o > j + 1 {
                            lemma_utf16_len_sub_strict(ts, s as int, j + 1, o);
                        }
                    }
                }
            }
            return None;
        }
        acc = acc + w;
        j = j + 1;
    }
}

/// Every offset of a text maps back to itself: the line and column derived from it
/// lead to that same offset.
pub proof fn lemma_position_round_trip(t: Seq<char>, o: int)
    requires
        0 <= o <= t.len(),
    ensures
        offset_at(t, line_of(t, o), column_of(t, o)) == Some(o),
{
    lemma_offset_at_is(t, o, line_of(t, o), column_of(t, o));
}

/// A column past the UTF-16 width of its line has no offset: for the line that starts at
/// `s` and ends at `e` (a terminator or the end of the text), any column beyond the width of
/// `t[s..e]` is unresolvable.
pub proof fn lemma_column_past_line_end(t: Seq<char>, s: int, e: int, col: nat)
    requires
        0 <= s <= e <= t.len(),
        s == 0 || t[s - 1] == '\n',
        e == t.len() || t[e] == '\n',
        forall|k: int| s <= k < e ==> t[k] != '\n',
        col > utf16_len(t.subrange(s, e)),
    ensures
        offset_at(t, line_of(t, s), col) is None,
{
    assert forall|o: int| !is_position_of(t, o, line_of(t, s), col) by {
        if is_position_of(t, o, line_of(t, s), col) {
            lemma_on_line(t, s, o);
            if o < e {
                lemma_utf16_len_sub_strict(t, s, o, e);
            } else if o > e {
                lemma_line_run(t, s, e);
                lemma_newlines_monotone(t, e, o);
            }
        }
    }
}

/// Converts a cursor `pos` into a character offset within `text`.
pub fn position_to_offset(text: &str, pos: Position) -> (r: Option<usize>)
    ensures
        match r {
            Some(o) => offset_at(text@, pos.line as nat, pos.character as nat) == Some(o as int),
            None => offset_at(text@, pos.line as nat, pos.character as nat) is None,
        },
{
    let t = crate::text::chars_of(text);
    offset_in(t.as_slice(), pos.line, pos.character)
}

} // verus!
