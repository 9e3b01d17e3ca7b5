use vstd::prelude::*;

use crate::context::{in_class_value, in_class_value_at, word_prefix, word_prefix_at};
use crate::index::{indexed_classes, ClassIndex};
use crate::order::{chars_start_with, insert_sorted, starts_with, strictly_sorted, views_of};
use crate::position::{offset_at, offset_in, Position};
use crate::scanner::names_of;

verus! {

/// `s` from index `i` on, with each `\r\n` and each remaining `\r` turned into `\n`.
pub open spec fn normalize_newlines(s: Seq<char>, i: int) -> Seq<char>
    decreases s.len() - i,
{
    if i < 0 || i >= s.len() {
        Seq::empty()
    } else if s[i] == '\r' && i + 1 < s.len() && s[i + 1] == '\n' {
        seq!['\n'] + normalize_newlines(s, i + 2)
    } else if s[i] == '\r' {
        seq!['\n'] + normalize_newlines(s, i + 1)
    } else {
        seq![s[i]] + normalize_newlines(s, i + 1)
    }
}

/// A name offered for completion: from the fixed vocabulary or from an indexed file.
pub open spec fn is_candidate(
    vocabulary: Seq<Seq<char>>,
    index: Map<Seq<char>, Seq<Seq<char>>>,
    x: Seq<char>,
) -> bool {
    vocabulary.contains(x) || indexed_classes(index).contains(x)
}

/// What completion offers for the text `s` before the cursor: nothing outside a class
/// attribute value, else every candidate that starts with the partial token.
pub open spec fn completion_matches(
    r: Option<Seq<Seq<char>>>,
    s: Seq<char>,
    vocabulary: Seq<Seq<char>>,
    index: Map<Seq<char>, Seq<Seq<char>>>,
) -> bool {
    match r {
        None => !in_class_value(s),
        Some(v) => in_class_value(s) && strictly_sorted(v) && forall|x: Seq<char>|
            #[trigger] v.contains(x) <==> (is_candidate(vocabulary, index, x) && starts_with(
                x,
                word_prefix(s),
            )),
    }
}

/// Once a stylesheet leaves the index, a name is a candidate exactly when the vocabulary or
/// one of the remaining files supplies it: the removed file's names go unless another source
/// has them, and every other file's names stay.
pub proof fn lemma_removed_file_leaves_candidates(
    vocabulary: Seq<Seq<char>>,
    index: Map<Seq<char>, Seq<Seq<char>>>,
    uri: Seq<char>,
    x: Seq<char>,
)
    ensures
        is_candidate(vocabulary, index.remove(uri), x) <==> (vocabulary.contains(x) || exists|u: Seq<char>|
            u != uri && index.contains_key(u) && index[u].contains(x)),
{
    let m = index.remove(uri);
    if indexed_classes(m).contains(x) {
        let u = choose|u: Seq<char>| m.contains_key(u) && m[u].contains(x);
        assert(u != uri && index.contains_key(u) && index[u].contains(x));
    }
    if exists|u: Seq<char>| u != uri && index.contains_key(u) && index[u].contains(x) {
        let u = choose|u: Seq<char>| u != uri && index.contains_key(u) && index[u].contains(x);
        assert(m.contains_key(u) && m[u].contains(x));
        assert(indexed_classes(m).contains(x));
    }
}

fn normalize_newlines_exec(s: &[char]) -> (r: Vec<char>)
    ensures
        r@ == normalize_newlines(s@, 0),
{
    let mut out: Vec<char> = Vec::new();
    let mut i: usize = 0;
    while i < s.len()
        invariant
            i <= s.len(),
            out@ + normalize_newlines(s@, i as int) == normalize_newlines(s@, 0),
        decreases s.len() - i,
    {
        let ghost o0 = out@;
        if s[i] == '\r' && i < s.len() - 1 && s[i + 1] == '\n' {
            out.push('\n');
            proof {
                assert(out@ + normalize_newlines(s@, i + 2) =~= o0 + normalize_newlines(s@, i as int));
            }
            i = i + 2;
        } else {
            if s[i] == '\r' {
                out.push('\n');
            } else {
                out.push(s[i]);
            }
            proof {
                assert(out@ + normalize_newlines(s@, i + 1) =~= o0 + normalize_newlines(s@, i as int));
            }
            i = i + 1;
        }
    }
    assert(out@ =~= out@ + normalize_newlines(s@, i as int));
    out
}

/// Adds to the sorted `out` each name of `names` that starts with `prefix`.
fn add_matching(out: &mut Vec<Vec<char>>, names: &Vec<String>, prefix: &[char])
    requires
        strictly_sorted(views_of(old(out)@)),
    ensures
        strictly_sorted(views_of(final(out)@)),
        forall|x: Seq<char>|
            #[trigger] views_of(final(out)@).contains(x) <==> (views_of(old(out)@).contains(x) || (
            names_of(names@).contains(x) && starts_with(x, prefix@))),
{
    let ghost o0 = views_of(out@);
    let mut k: usize = 0;
    while k < names.len()
        invariant
            k <= names.len(),
            strictly_sorted(views_of(out@)),
            forall|x: Seq<char>|
                #[trigger] views_of(out@).contains(x) <==> (o0.contains(x) || (names_of(
                    names@,
                ).take(k as int).contains(x) && starts_with(x, prefix@))),
        decreases names.len() - k,
    {
        let cs = crate::text::chars_of(names[k].as_str());
        let ghost o1 = views_of(out@);
        let ghost t1 = names_of(names@).take(k as int);
        let ghost t2 = names_of(names@).take(k + 1);
        proof {
            assert(t2 =~= t1.push(names@[k as int]@));
        }
        if chars_start_with(cs.as_slice(), prefix) {
            insert_sorted(out, cs);
        }
        proof {
            assert forall|x: Seq<char>|
                #[trigger] views_of(out@).contains(x) <==> (o0.contains(x) || (t2.contains(x)
                    && starts_with(x, prefix@))) by {
                assert(o1.contains(x) <==> (o0.contains(x) || (t1.contains(x) && starts_with(x, prefix@))));
                if t1.contains(x) {
                    let j = choose|j: int| 0 <= j < t1.len() && t1[j] == x;
                    assert(t2[j] == x);
                }
                if t2.contains(x) && x != names@[k as int]@ {
                    let j = choose|j: int| 0 <= j < t2.len() && t2[j] == x;
                    assert(t1[j] == x);
                }
                if x == names@[k as int]@ {
                    assert(t2[k as int] == x);
                }
            }
        }
        k = k + 1;
    }
    proof {
        assert(names_of(names@).take(names.len() as int) =~= names_of(names@));
    }
}

fn to_strings(v: &Vec<Vec<char>>) -> (r: Vec<String>)
    ensures
        names_of(r@) == views_of(v@),
{
    let mut out: Vec<String> = Vec::new();
    let mut k: usize = 0;
    while k < v.len()
        invariant
            k <= v.len(),
            names_of(out@) == views_of(v@).take(k as int),
        decreases v.len() - k,
    {
        let s = crate::text::string_of(v[k].as_slice());
        let ghost o0 = out@;
        out.push(s);
        proof {
            assert(out@ == o0.push(s));
            assert(s@ == v@[k as int]@);
            assert(views_of(v@).take(k + 1) =~= views_of(v@).take(k as int).push(v@[k as int]@));
            assert(names_of(o0.push(s)) =~= names_of(o0).push(s@));
            assert(names_of(out@) =~= views_of(v@).take(k + 1));
        }
        k = k + 1;
    }
    assert(views_of(v@).take(k as int) =~= views_of(v@));
    out
}

/// Completion candidates for a cursor at character offset `cursor` of `t`: `None` outside a
/// class attribute value, else the names of `vocabulary` and `index` that start with the
/// partial token before the cursor, in ascending order and without repeats.
pub fn complete_at(t: &[char], cursor: usize, vocabulary: &Vec<String>, index: &ClassIndex) -> (r:
    Option<Vec<String>>)
    requires
        cursor <= t.len(),
        index.wf(),
    ensures
        completion_matches(
            match r {
                Some(v) => Some(names_of(v@)),
                None => None,
            },
            t@.take(cursor as int),
            names_of(vocabulary@),
            index@,
        ),
{
    if !in_class_value_at(t, cursor) {
        return None;
    }
    let prefix = word_prefix_at(t, cursor);
    let mut out: Vec<Vec<char>> = Vec::new();
    add_matching(&mut out, vocabulary, prefix.as_slice());
    let dynamic = index.all_classes();
    add_matching(&mut out, &dynamic, prefix.as_slice());
    let r = to_strings(&out);
    proof {
        let s = t@.take(cursor as int);
        assert forall|x: Seq<char>|
            #[trigger] names_of(r@).contains(x) <==> (is_candidate(names_of(vocabulary@), index@, x)
                && starts_with(x, word_prefix(s))) by {
            assert(names_of(dynamic@).contains(x) <==> indexed_classes(index@).contains(x));
            assert(names_of(r@).contains(x) <==> views_of(out@).contains(x));
        }
    }
    Some(r)
}

/// Completion candidates for the cursor at `pos` in `text`, whose line endings may be
/// `\r\n`, `\r` or `\n`: `None` where the position does not resolve or lies outside a class
/// attribute value, else the matching names in ascending order.
pub fn complete(text: &str, pos: Position, vocabulary: &Vec<String>, index: &ClassIndex) -> (r:
    Option<Vec<String>>)
    requires
        index.wf(),
    ensures
        match offset_at(normalize_newlines(text@, 0), pos.line as nat, pos.character as nat) {
            None => r is None,
            Some(o) => completion_matches(
                match r {
                    Some(v) => Some(names_of(v@)),
                    None => None,
                },
                normalize_newlines(text@, 0).take(o),
                names_of(vocabulary@),
                index@,
            ),
        },
{
    let raw = crate::text::chars_of(text);
    let t = normalize_newlines_exec(raw.as_slice());
    match offset_in(t.as_slice(), pos.line, pos.character) {
        Some(o) => complete_at(t.as_slice(), o, vocabulary, index),
        None => None,
    }
}

} // verus!
