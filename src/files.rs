use vstd::prelude::*;

use crate::index::ClassIndex;
use crate::scanner::{extract_classes, names_of, stylesheet_classes};

verus! {

pub open spec fn lit_css() -> Seq<char> {
    seq!['c', 's', 's']
}

pub open spec fn lit_scss() -> Seq<char> {
    seq!['s', 'c', 's', 's']
}

pub open spec fn lit_sass() -> Seq<char> {
    seq!['s', 'a', 's', 's']
}

pub open spec fn lit_less() -> Seq<char> {
    seq!['l', 'e', 's', 's']
}

/// One of the four stylesheet extensions.
pub open spec fn is_stylesheet_ext(e: Seq<char>) -> bool {
    e == lit_css() || e == lit_scss() || e == lit_sass() || e == lit_less()
}

/// A directory whose contents are never indexed: dependencies, build output, version control.
pub open spec fn is_skipped_dir_name(n: Seq<char>) -> bool {
    n == seq!['n', 'o', 'd', 'e', '_', 'm', 'o', 'd', 'u', 'l', 'e', 's'] || n == seq!['.', 'g', 'i', 't']
        || n == seq!['.', 'n', 'e', 'x', 't'] || n == seq!['t', 'a', 'r', 'g', 'e', 't']
}

/// Index just past the last `c` in `s`, or 0 where there is none.
pub open spec fn after_last(s: Seq<char>, c: char) -> int
    decreases s.len(),
{
    if s.len() == 0 {
        0
    } else if s.last() == c {
        s.len() as int
    } else {
        after_last(s.drop_last(), c)
    }
}

/// The part of `s` after its last `c`; all of `s` where there is none.
pub open spec fn tail_after(s: Seq<char>, c: char) -> Seq<char> {
    s.subrange(after_last(s, c), s.len() as int)
}

/// The separator of relative paths. A backslash is an ordinary file-name character.
pub open spec fn is_separator(c: char) -> bool {
    c == '/'
}

/// Whether `a` and `b` hold the same characters.
pub fn same_chars(a: &[char], b: &[char]) -> (r: bool)
    ensures
        r == (a@ == b@),
{
    if a.len() != b.len() {
        return false;
    }
    let mut k: usize = 0;
    while k < a.len()
        invariant
            k <= a.len() == b.len(),
            forall|m: int| 0 <= m < k ==> a@[m] == b@[m],
        decreases a.len() - k,
    {
        if a[k] != b[k] {
            return false;
        }
        k = k + 1;
    }
    assert(a@ =~= b@);
    true
}

fn stylesheet_ext(e: &[char]) -> (r: bool)
    ensures
        r == is_stylesheet_ext(e@),
{
    let css = ['c', 's', 's'];
    let scss = ['s', 'c', 's', 's'];
    let sass = ['s', 'a', 's', 's'];
    let less = ['l', 'e', 's', 's'];
    assert(css@ =~= lit_css() && scss@ =~= lit_scss() && sass@ =~= lit_sass() && less@ =~= lit_less());
    same_chars(e, &css) || same_chars(e, &scss) || same_chars(e, &sass) || same_chars(e, &less)
}

fn skipped_dir_name(n: &[char]) -> (r: bool)
    ensures
        r == is_skipped_dir_name(n@),
{
    let a = ['n', 'o', 'd', 'e', '_', 'm', 'o', 'd', 'u', 'l', 'e', 's'];
    let b = ['.', 'g', 'i', 't'];
    let c = ['.', 'n', 'e', 'x', 't'];
    let d = ['t', 'a', 'r', 'g', 'e', 't'];
    assert(a@ =~= seq!['n', 'o', 'd', 'e', '_', 'm', 'o', 'd', 'u', 'l', 'e', 's']);
    assert(b@ =~= seq!['.', 'g', 'i', 't'] && c@ =~= seq!['.', 'n', 'e', 'x', 't']);
    assert(d@ =~= seq!['t', 'a', 'r', 'g', 'e', 't']);
    same_chars(n, &a) || same_chars(n, &b) || same_chars(n, &c) || same_chars(n, &d)
}

fn after_last_at(s: &[char], c: char) -> (r: usize)
    ensures
        r as int == after_last(s@, c),
        r <= s.len(),
{
    let mut n = s.len();
    assert(s@.take(n as int) =~= s@);
    while n > 0 && s[n - 1] != c
        invariant
            n <= s.len(),
            after_last(s@, c) == after_last(s@.take(n as int), c),
        decreases n,
    {
        assert(s@.take(n as int).drop_last() =~= s@.take(n - 1));
        n = n - 1;
    }
    proof {
        if n == 0 {
            assert(s@.take(0) =~= Seq::<char>::empty());
        }
    }
    n
}

/// Whether a directory of this name is left out of a workspace scan.
pub fn is_skipped_dir(name: &str) -> (r: bool)
    ensures
        r == is_skipped_dir_name(name@),
{
    let n = crate::text::chars_of(name);
    skipped_dir_name(n.as_slice())
}

/// Whether a document path names a stylesheet: the text after its last `.` (all of it where
/// there is none) is `css`, `scss`, `sass` or `less`.
pub fn is_stylesheet_uri(path: &str) -> (r: bool)
    ensures
        r == is_stylesheet_ext(tail_after(path@, '.')),
{
    let p = crate::text::chars_of(path);
    let k = after_last_at(p.as_slice(), '.');
    let e = vstd::slice::slice_subrange(p.as_slice(), k, p.len());
    stylesheet_ext(e)
}

/// The file name `n` has a stylesheet extension: a `.` that is not its first character,
/// followed by one of the four extensions.
pub open spec fn is_stylesheet_file_name(n: Seq<char>) -> bool {
    after_last(n, '.') >= 2 && is_stylesheet_ext(tail_after(n, '.'))
}

/// Whether a file of this name is a stylesheet (by its extension).
pub fn is_stylesheet_file(name: &str) -> (r: bool)
    ensures
        r == is_stylesheet_file_name(name@),
{
    let n = crate::text::chars_of(name);
    let k = after_last_at(n.as_slice(), '.');
    if k < 2 {
        return false;
    }
    let e = vstd::slice::slice_subrange(n.as_slice(), k, n.len());
    stylesheet_ext(e)
}

/// A relative path `p` is indexed by a scan: no directory on it is skipped, and its file
/// name is a stylesheet.
pub open spec fn is_indexed_path(p: Seq<char>) -> bool {
    &&& forall|i: int, j: int|
        0 <= i <= j < p.len() && (i == 0 || is_separator(p[i - 1])) && is_separator(p[j]) && (forall|
            k: int,
        | i <= k < j ==> !is_separator(p[k])) ==> !is_skipped_dir_name(#[trigger] p.subrange(i, j))
    &&& is_stylesheet_file_name(p.subrange(after_last_sep(p), p.len() as int))
}

/// Index just past the last separator of `p`, or 0 where there is none.
pub open spec fn after_last_sep(p: Seq<char>) -> int
    decreases p.len(),
{
    if p.len() == 0 {
        0
    } else if is_separator(p.last()) {
        p.len() as int
    } else {
        after_last_sep(p.drop_last())
    }
}

proof fn lemma_after_last_sep_run(p: Seq<char>, s: int, j: int)
    requires
        0 <= s <= j <= p.len(),
        s == 0 || is_separator(p[s - 1]),
        forall|k: int| s <= k < j ==> !is_separator(p[k]),
    ensures
        after_last_sep(p.take(j)) == s,
    decreases j - s,
{
    if j > s {
        assert(p.take(j).drop_last() =~= p.take(j - 1));
        lemma_after_last_sep_run(p, s, j - 1);
    } else if s > 0 {
        assert(p.take(j).last() == p[s - 1]);
    } else {
        assert(p.take(0) =~= Seq::<char>::empty());
    }
}

fn separator(c: char) -> (r: bool)
    ensures
        r == is_separator(c),
{
    c == '/'
}

/// Whether a scan indexes the file at relative path `path`: no directory on the path is
/// skipped, and the file name has a stylesheet extension.
pub fn indexed_path(path: &str) -> (r: bool)
    ensures
        r == is_indexed_path(path@),
{
    let p = crate::text::chars_of(path);
    let ghost ps = p@;
    let mut start: usize = 0;
    let mut j: usize = 0;
    while j < p.len()
        invariant
            ps == p@,
            ps == path@,
            start <= j <= p.len(),
            start == 0 || is_separator(ps[start - 1]),
            forall|k: int| start <= k < j ==> !is_separator(ps[k]),
            forall|i: int, j2: int|
                0 <= i <= j2 < j && (i == 0 || is_separator(ps[i - 1])) && is_separator(ps[j2])
                    && (forall|k: int| i <= k < j2 ==> !is_separator(ps[k])) ==> !is_skipped_dir_name(
                    #[trigger] ps.subrange(i, j2),
                ),
        decreases p.len() - j,
    {
        if separator(p[j]) {
            let comp = vstd::slice::slice_subrange(p.as_slice(), start, j);
            if skipped_dir_name(comp) {
                assert(comp@ == ps.subrange(start as int, j as int));
                assert(!is_indexed_path(ps));
                return false;
            }
            proof {
                assert forall|i: int, j2: int|
                    0 <= i <= j2 < j + 1 && (i == 0 || is_separator(ps[i - 1])) && is_separator(ps[j2])
                        && (forall|k: int| i <= k < j2 ==> !is_separator(ps[k])) implies !is_skipped_dir_name(
                    #[trigger] ps.subrange(i, j2),
                ) by {
                    if j2 == j {
                        if i < start {
                            assert(!is_separator(ps[start - 1]));
                        } else if i > start {
                            assert(!is_separator(ps[i - 1]));
                        }
                    }
                }
            }
            start = j + 1;
        }
        j = j + 1;
    }
    proof {
        lemma_after_last_sep_run(ps, start as int, ps.len() as int);
        assert(ps.take(ps.len() as int) =~= ps);
    }
    let name = vstd::slice::slice_subrange(p.as_slice(), start, p.len());
    let k = after_last_at(name, '.');
    if k < 2 {
        return false;
    }
    let e = vstd::slice::slice_subrange(name, k, name.len());
    stylesheet_ext(e)
}

/// A directory on the skip list hides everything beneath it: a path through it is never
/// indexed, whatever stands before or after it.
pub proof fn lemma_skipped_directory_not_indexed(a: Seq<char>, d: Seq<char>, b: Seq<char>)
    requires
        is_skipped_dir_name(d),
        a.len() == 0 || a.last() == '/',
        forall|k: int| 0 <= k < d.len() ==> d[k] != '/',
    ensures
        !is_indexed_path(a + d + seq!['/'] + b),
{
    let p = a + d + seq!['/'] + b;
    let i = a.len() as int;
    let j = i + d.len();
    assert(p.subrange(i, j) =~= d);
    assert(p[j] == '/');
    if i > 0 {
        assert(p[i - 1] == a.last());
    }
    assert forall|k: int| i <= k < j implies !is_separator(p[k]) by {
        assert(p[k] == d[k - i]);
    }
}

/// A stylesheet at the root of the workspace is indexed: a file name without separators and
/// with a stylesheet extension.
pub proof fn lemma_root_stylesheet_indexed(n: Seq<char>)
    requires
        forall|k: int| 0 <= k < n.len() ==> n[k] != '/',
        is_stylesheet_file_name(n),
    ensures
        is_indexed_path(n),
{
    lemma_after_last_sep_run(n, 0, n.len() as int);
    assert(n.take(n.len() as int) =~= n);
    assert(n.subrange(0, n.len() as int) =~= n);
}

/// Builds the index of a workspace from its files, each given as URI, path relative to the
/// workspace root (its parts joined by `/`), and content: each URI whose relative path is indexed maps to the classes
/// of its content (of its last occurrence).
pub fn scan_files(files: &Vec<(String, String, String)>) -> (r: ClassIndex)
    ensures
        r.wf(),
        forall|u: Seq<char>|
            r@.contains_key(u) <==> exists|i: int|
                0 <= i < files.len() && #[trigger] files@[i].0@ == u && is_indexed_path(files@[i].1@),
        forall|i: int|
            0 <= i < files.len() && is_indexed_path(files@[i].1@) && (forall|j: int|
                i < j < files.len() && is_indexed_path(files@[j].1@) ==> files@[j].0@ != files@[i].0@)
                ==> forall|x: Seq<char>|
                r@[files@[i].0@].contains(x) <==> stylesheet_classes(files@[i].2@).contains(x),
{
    let mut idx = ClassIndex::new();
    let mut k: usize = 0;
    while k < files.len()
        invariant
            k <= files.len(),
            idx.wf(),
            forall|u: Seq<char>|
                idx@.contains_key(u) <==> exists|i: int|
                    0 <= i < k && #[trigger] files@[i].0@ == u && is_indexed_path(files@[i].1@),
            forall|i: int|
                0 <= i < k && is_indexed_path(files@[i].1@) && (forall|j: int|
                    i < j < k && is_indexed_path(files@[j].1@) ==> files@[j].0@ != files@[i].0@)
                    ==> forall|x: Seq<char>|
                    idx@[files@[i].0@].contains(x) <==> stylesheet_classes(files@[i].2@).contains(x),
        decreases files.len() - k,
    {
        let ghost m0 = idx@;
        let ghost uk = files@[k as int].0@;
        let ghost ok = is_indexed_path(files@[k as int].1@);
        if indexed_path(files[k].1.as_str()) {
            let classes = extract_classes(files[k].2.as_str());
            idx.upsert(files[k].0.clone(), classes);
        }
        proof {
            assert forall|u: Seq<char>|
                idx@.contains_key(u) <==> exists|i: int|
                    0 <= i < k + 1 && #[trigger] files@[i].0@ == u && is_indexed_path(files@[i].1@) by {
                if exists|i: int| 0 <= i < k + 1 && #[trigger] files@[i].0@ == u && is_indexed_path(files@[i].1@) {
                    let i = choose|i: int| 0 <= i < k + 1 && #[trigger] files@[i].0@ == u && is_indexed_path(files@[i].1@);
                    if i < k {
                        assert(m0.contains_key(u));
                    }
                }
                if m0.contains_key(u) {
                    let i = choose|i: int| 0 <= i < k && #[trigger] files@[i].0@ == u && is_indexed_path(files@[i].1@);
                    assert(0 <= i < k + 1);
                }
                if ok && u == uk {
                    assert(files@[k as int].0@ == u);
                }
            }
            assert forall|i: int|
                0 <= i < k + 1 && is_indexed_path(files@[i].1@) && (forall|j: int|
                    i < j < k + 1 && is_indexed_path(files@[j].1@) ==> files@[j].0@ != files@[i].0@)
                    implies forall|x: Seq<char>|
                    idx@[files@[i].0@].contains(x) <==> stylesheet_classes(files@[i].2@).contains(x) by {
                if i < k {
                    assert(ok ==> files@[k as int].0@ != files@[i].0@);
                    assert(m0.contains_key(files@[i].0@));
                }
            }
        }
        k = k + 1;
    }
    idx
}

} // verus!
