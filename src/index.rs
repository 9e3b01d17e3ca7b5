use vstd::prelude::*;

use crate::scanner::{extract_classes, names_of, stylesheet_classes};

verus! {

/// The class names that one stylesheet defines.
pub struct FileClasses {
    pub uri: String,
    pub classes: Vec<String>,
}

/// Maps each tracked stylesheet, by URI, to the class names it defines.
pub struct ClassIndex {
    entries: Vec<FileClasses>,
}

/// No URI occurs twice.
pub open spec fn uris_unique(e: Seq<FileClasses>) -> bool {
    forall|i: int, j: int| 0 <= i < e.len() && 0 <= j < e.len() && i != j ==> e[i].uri@ != e[j].uri@
}

pub open spec fn has_uri(e: Seq<FileClasses>, u: Seq<char>) -> bool {
    exists|i: int| 0 <= i < e.len() && e[i].uri@ == u
}

/// The mapping that a list of entries with distinct URIs stands for.
pub open spec fn entries_map(e: Seq<FileClasses>) -> Map<Seq<char>, Seq<Seq<char>>> {
    Map::new(
        |u: Seq<char>| has_uri(e, u),
        |u: Seq<char>| names_of(e[choose|i: int| 0 <= i < e.len() && e[i].uri@ == u].classes@),
    )
}

/// Every class name that some file of `m` defines.
pub open spec fn indexed_classes(m: Map<Seq<char>, Seq<Seq<char>>>) -> Set<Seq<char>> {
    Set::new(|x: Seq<char>| exists|u: Seq<char>| m.contains_key(u) && m[u].contains(x))
}

proof fn lemma_entry_value(e: Seq<FileClasses>, i: int)
    requires
        uris_unique(e),
        0 <= i < e.len(),
    ensures
        entries_map(e).contains_key(e[i].uri@),
        entries_map(e)[e[i].uri@] == names_of(e[i].classes@),
{
    let u = e[i].uri@;
    assert(has_uri(e, u));
    let c = choose|k: int| 0 <= k < e.len() && e[k].uri@ == u;
    assert(c == i);
}

proof fn lemma_entries_map_push(e: Seq<FileClasses>, k: int)
    requires
        uris_unique(e),
        0 <= k < e.len(),
    ensures
        entries_map(e.take(k + 1)) == entries_map(e.take(k)).insert(e[k].uri@, names_of(e[k].classes@)),
{
    let a = e.take(k);
    let b = e.take(k + 1);
    assert(uris_unique(b));
    assert(uris_unique(a));
    let m = entries_map(a).insert(e[k].uri@, names_of(e[k].classes@));
    assert forall|u: Seq<char>| #[trigger] entries_map(b).contains_key(u) == m.contains_key(u) by {
        if has_uri(b, u) && u != e[k].uri@ {
            let i = choose|i: int| 0 <= i < b.len() && b[i].uri@ == u;
            assert(a[i] == b[i]);
        }
        if has_uri(a, u) {
            let i = choose|i: int| 0 <= i < a.len() && a[i].uri@ == u;
            assert(b[i] == a[i]);
        }
        if u == e[k].uri@ {
            assert(b[k].uri@ == u);
        }
    }
    assert forall|u: Seq<char>| entries_map(b).contains_key(u) implies #[trigger] entries_map(b)[u] == m[u] by {
        let i = choose|i: int| 0 <= i < b.len() && b[i].uri@ == u;
        lemma_entry_value(b, i);
        if i < k {
            assert(a[i] == b[i]);
            lemma_entry_value(a, i);
        }
    }
    assert(entries_map(b) =~= m);
}

/// The strings of `v`, copied.
fn copy_names(v: &Vec<String>) -> (r: Vec<String>)
    ensures
        names_of(r@) == names_of(v@),
{
    let mut out: Vec<String> = Vec::new();
    let mut k: usize = 0;
    while k < v.len()
        invariant
            k <= v.len(),
            names_of(out@) == names_of(v@).take(k as int),
        decreases v.len() - k,
    {
        let ghost o0 = names_of(out@);
        out.push(v[k].clone());
        proof {
            assert(names_of(out@) =~= o0.push(v@[k as int]@));
            assert(names_of(v@).take(k + 1) =~= names_of(v@).take(k as int).push(v@[k as int]@));
        }
        k = k + 1;
    }
    assert(names_of(v@).take(k as int) =~= names_of(v@));
    out
}

impl View for ClassIndex {
    type V = Map<Seq<char>, Seq<Seq<char>>>;

    closed spec fn view(&self) -> Self::V {
        entries_map(self.entries@)
    }
}

impl ClassIndex {
    /// The index is well formed: each URI has one entry.
    pub closed spec fn wf(&self) -> bool {
        uris_unique(self.entries@)
    }

    /// An empty index.
    pub fn new() -> (r: ClassIndex)
        ensures
            r.wf(),
            r@ == Map::<Seq<char>, Seq<Seq<char>>>::empty(),
    {
        let r = ClassIndex { entries: Vec::new() };
        assert(r@ =~= Map::<Seq<char>, Seq<Seq<char>>>::empty());
        r
    }

    fn find(&self, uri: &String) -> (r: Option<usize>)
        ensures
            match r {
                Some(k) => k < self.entries.len() && self.entries@[k as int].uri@ == uri@,
                None => !has_uri(self.entries@, uri@),
            },
    {
        let mut k: usize = 0;
        while k < self.entries.len()
            invariant
                k <= self.entries.len(),
                forall|m: int| 0 <= m < k ==> self.entries@[m].uri@ != uri@,
            decreases self.entries.len() - k,
        {
            if self.entries[k].uri == *uri {
                return Some(k);
            }
            k = k + 1;
        }
        None
    }

    /// Whether `uri` is tracked.
    pub fn contains(&self, uri: &String) -> (r: bool)
        requires
            self.wf(),
        ensures
            r == self@.contains_key(uri@),
    {
        self.find(uri).is_some()
    }

    /// Stops tracking `uri`; other files keep their classes.
    pub fn remove(&mut self, uri: &String)
        requires
            old(self).wf(),
        ensures
            final(self).wf(),
            final(self)@ == old(self)@.remove(uri@),
    {
        let ghost e0 = self.entries@;
        match self.find(uri) {
            Some(k) => {
                self.entries.remove(k);
                proof {
                    let e1 = self.entries@;
                    assert(e1 =~= e0.remove(k as int));
                    assert forall|i: int, j: int|
                        0 <= i < e1.len() && 0 <= j < e1.len() && i != j implies e1[i].uri@
                        != e1[j].uri@ by {
                        let a = if i < k { i } else { i + 1 };
                        let b = if j < k { j } else { j + 1 };
                        assert(e1[i] == e0[a] && e1[j] == e0[b]);
                    }
                    assert forall|u: Seq<char>| #[trigger]
                        entries_map(e1).contains_key(u) == entries_map(e0).remove(uri@).contains_key(u)
                        by {
                        if has_uri(e1, u) {
                            let i = choose|i: int| 0 <= i < e1.len() && e1[i].uri@ == u;
                            let a = if i < k { i } else { i + 1 };
                            assert(e1[i] == e0[a]);
                        }
                        if has_uri(e0, u) && u != uri@ {
                            let a = choose|a: int| 0 <= a < e0.len() && e0[a].uri@ == u;
                            let i = if a < k { a } else { a - 1 };
                            assert(e1[i] == e0[a]);
                        }
                    }
                    assert forall|u: Seq<char>| entries_map(e1).contains_key(u) implies
                        #[trigger] entries_map(e1)[u] == entries_map(e0)[u] by {
                        let i = choose|i: int| 0 <= i < e1.len() && e1[i].uri@ == u;
                        let a = if i < k { i } else { i + 1 };
                        assert(e1[i] == e0[a]);
                        lemma_entry_value(e1, i);
                        lemma_entry_value(e0, a);
                    }
                    assert(entries_map(e1) =~= entries_map(e0).remove(uri@));
                }
            },
            None => {
                assert(entries_map(e0) =~= entries_map(e0).remove(uri@));
            },
        }
    }

    /// Records `classes` as what `uri` defines, replacing what it defined before.
    pub fn upsert(&mut self, uri: String, classes: Vec<String>)
        requires
            old(self).wf(),
        ensures
            final(self).wf(),
            final(self)@ == old(self)@.insert(uri@, names_of(classes@)),
    {
        self.remove(&uri);
        let ghost e0 = self.entries@;
        let ghost u0 = uri@;
        let ghost c0 = names_of(classes@);
        self.entries.push(FileClasses { uri, classes });
        proof {
            let e1 = self.entries@;
            assert(e1 =~= e0.push(e1[e0.len() as int]));
            assert(!entries_map(e0).contains_key(u0));
            assert forall|i: int, j: int|
                0 <= i < e1.len() && 0 <= j < e1.len() && i != j implies e1[i].uri@ != e1[j].uri@ by {
                if i == e0.len() {
                    assert(!has_uri(e0, u0));
                    assert(e0[j].uri@ != u0);
                } else if j == e0.len() {
                    assert(e0[i].uri@ != u0);
                }
            }
            assert forall|u: Seq<char>| #[trigger]
                entries_map(e1).contains_key(u) == entries_map(e0).insert(u0, c0).contains_key(u) by {
                if has_uri(e1, u) && u != u0 {
                    let i = choose|i: int| 0 <= i < e1.len() && e1[i].uri@ == u;
                    assert(e1[i] == e0[i]);
                }
                if has_uri(e0, u) {
                    let a = choose|a: int| 0 <= a < e0.len() && e0[a].uri@ == u;
                    assert(e1[a] == e0[a]);
                }
                if u == u0 {
                    assert(e1[e0.len() as int].uri@ == u0);
                }
            }
            assert forall|u: Seq<char>| entries_map(e1).contains_key(u) implies #[trigger]
                entries_map(e1)[u] == entries_map(e0).insert(u0, c0)[u] by {
                let i = choose|i: int| 0 <= i < e1.len() && e1[i].uri@ == u;
                lemma_entry_value(e1, i);
                if i < e0.len() {
                    assert(e1[i] == e0[i]);
                    lemma_entry_value(e0, i);
                }
            }
            assert(entries_map(e1) =~= entries_map(e0).insert(u0, c0));
        }
    }

    /// Records the classes that stylesheet text `text` defines as those of `uri`, replacing
    /// what `uri` defined before; other files keep their classes.
    pub fn record_stylesheet(&mut self, uri: String, text: &str)
        requires
            old(self).wf(),
        ensures
            final(self).wf(),
            final(self)@.dom() == old(self)@.dom().insert(uri@),
            forall|u: Seq<char>| u != uri@ && old(self)@.contains_key(u) ==> final(self)@[u] == old(self)@[u],
            forall|x: Seq<char>| final(self)@[uri@].contains(x) <==> stylesheet_classes(text@).contains(x),
    {
        let classes = extract_classes(text);
        let ghost u = uri@;
        self.upsert(uri, classes);
        assert(self@.dom() =~= old(self)@.dom().insert(u));
    }

    /// Adds every entry of `other`, replacing this index's entry for the same URI.
    pub fn merge(&mut self, other: &ClassIndex)
        requires
            old(self).wf(),
            other.wf(),
        ensures
            final(self).wf(),
            final(self)@ == old(self)@.union_prefer_right(other@),
    {
        let ghost m0 = self@;
        let ghost e = other.entries@;
        let mut k: usize = 0;
        proof {
            assert(e.take(0) =~= Seq::<FileClasses>::empty());
            assert(m0.union_prefer_right(entries_map(e.take(0))) =~= m0);
        }
        while k < other.entries.len()
            invariant
                k <= other.entries.len(),
                e == other.entries@,
                uris_unique(e),
                self.wf(),
                self@ == m0.union_prefer_right(entries_map(e.take(k as int))),
            decreases other.entries.len() - k,
        {
            let u = other.entries[k].uri.clone();
            let c = copy_names(&other.entries[k].classes);
            let ghost before = self@;
            self.upsert(u, c);
            proof {
                lemma_entries_map_push(e, k as int);
                let mk = entries_map(e.take(k as int));
                assert(m0.union_prefer_right(mk.insert(e[k as int].uri@, names_of(e[k as int].classes@)))
                    =~= before.insert(e[k as int].uri@, names_of(e[k as int].classes@)));
            }
            k = k + 1;
        }
        assert(e.take(k as int) =~= e);
    }

    /// Every class name that some tracked file defines, possibly with repeats.
    pub fn all_classes(&self) -> (r: Vec<String>)
        requires
            self.wf(),
        ensures
            forall|x: Seq<char>| names_of(r@).contains(x) <==> indexed_classes(self@).contains(x),
    {
        let mut out: Vec<String> = Vec::new();
        let mut k: usize = 0;
        while k < self.entries.len()
            invariant
                k <= self.entries.len(),
                uris_unique(self.entries@),
                forall|x: Seq<char>|
                    names_of(out@).contains(x) <==> exists|i: int|
                        0 <= i < k && #[trigger] names_of(self.entries@[i].classes@).contains(x),
            decreases self.entries.len() - k,
        {
            let cs = &self.entries[k].classes;
            let ghost o0 = names_of(out@);
            let mut m: usize = 0;
            while m < cs.len()
                invariant
                    k < self.entries.len(),
                    cs == &self.entries@[k as int].classes,
                    m <= cs.len(),
                    forall|x: Seq<char>|
                        o0.contains(x) <==> exists|i: int|
                            0 <= i < k && #[trigger] names_of(self.entries@[i].classes@).contains(x),
                    forall|x: Seq<char>|
                        names_of(out@).contains(x) <==> (o0.contains(x) || names_of(cs@).take(
                            m as int,
                        ).contains(x)),
                decreases cs.len() - m,
            {
                let ghost o1 = names_of(out@);
                assert(forall|x: Seq<char>| #[trigger] o1.contains(x) <==> (o0.contains(x) || names_of(cs@).take(m as int).contains(x)));
                out.push(cs[m].clone());
                proof {
                    let o2 = names_of(out@);
                    assert(o2 =~= o1.push(cs@[m as int]@));
                    let t1 = names_of(cs@).take(m as int);
                    let t2 = names_of(cs@).take(m + 1);
                    assert(t2 =~= t1.push(cs@[m as int]@));
                    assert(t2[m as int] == cs@[m as int]@);
                    assert(o2[o1.len() as int] == cs@[m as int]@);
                    assert forall|x: Seq<char>| o2.contains(x) <==> (o0.contains(x) || t2.contains(x)) by {
                        if o2.contains(x) {
                            let j = choose|j: int| 0 <= j < o2.len() && o2[j] == x;
                            if j < o1.len() {
                                assert(o1[j] == x);
                                assert(o1.contains(x));
                                if t1.contains(x) {
                                    let j1 = choose|j1: int| 0 <= j1 < t1.len() && t1[j1] == x;
                                    assert(t2[j1] == x);
                                }
                            } else {
                                assert(t2[m as int] == x);
                            }
                        }
                        if t2.contains(x) {
                            let j = choose|j: int| 0 <= j < t2.len() && t2[j] == x;
                            if j < m {
                                assert(t1[j] == x);
                            } else {
                                assert(o2[o1.len() as int] == x);
                            }
                        }
                        if o1.contains(x) {
                            let j = choose|j: int| 0 <= j < o1.len() && o1[j] == x;
                            assert(o2[j] == x);
                        }
                        if t1.contains(x) {
                            let j = choose|j: int| 0 <= j < t1.len() && t1[j] == x;
                            assert(t2[j] == x);
                        }
                    }
                }
                m = m + 1;
            }
            proof {
                assert(names_of(cs@).take(cs.len() as int) =~= names_of(cs@));
                assert forall|x: Seq<char>| names_of(out@).contains(x) <==> exists|i: int|
                    0 <= i < k + 1 && #[trigger] names_of(self.entries@[i].classes@).contains(x) by {
                        if names_of(cs@).contains(x) {
                        assert(names_of(self.entries@[k as int].classes@).contains(x));
                    }
                    if o0.contains(x) {
                        let i = choose|i: int| 0 <= i < k && #[trigger] names_of(self.entries@[i].classes@).contains(x);
                        assert(0 <= i < k + 1);
                    }
                    if exists|i: int| 0 <= i < k + 1 && #[trigger] names_of(self.entries@[i].classes@).contains(x) {
                        let i = choose|i: int| 0 <= i < k + 1 && #[trigger] names_of(self.entries@[i].classes@).contains(x);
                        if i == k {
                            assert(names_of(cs@).contains(x));
                        }
                    }
                }
            }
            k = k + 1;
        }
        proof {
            let e = self.entries@;
            assert forall|x: Seq<char>| names_of(out@).contains(x) <==> indexed_classes(self@).contains(x) by {
                if names_of(out@).contains(x) {
                    let i = choose|i: int| 0 <= i < e.len() && #[trigger] names_of(e[i].classes@).contains(x);
                    lemma_entry_value(e, i);
                    assert(self@.contains_key(e[i].uri@) && self@[e[i].uri@].contains(x));
                    assert(indexed_classes(self@).contains(x));
                }
                if indexed_classes(self@).contains(x) {
                    let u = choose|u: Seq<char>| self@.contains_key(u) && self@[u].contains(x);
                    assert(has_uri(e, u));
                    let i = choose|i: int| 0 <= i < e.len() && e[i].uri@ == u;
                    lemma_entry_value(e, i);
                    assert(names_of(e[i].classes@).contains(x));
                    assert(names_of(out@).contains(x));
                }
            }
        }
        out
    }
}

} // verus!
