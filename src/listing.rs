//! The order in which `list-directory` shows a directory's entries.
use vstd::prelude::*;

use crate::text::{push_char, texts};

verus! {

broadcast use vstd::seq_lib::to_multiset_insert;

/// `a` comes before `b` in the order of strings: character codes compared in
/// turn, a proper prefix first.
pub open spec fn text_lt(a: Seq<char>, b: Seq<char>) -> bool
    decreases a.len(),
{
    if a.len() == 0 {
        b.len() > 0
    } else if b.len() == 0 {
        false
    } else if a[0] != b[0] {
        a[0] < b[0]
    } else {
        text_lt(a.drop_first(), b.drop_first())
    }
}

/// `a` comes before `b`, or is `b`.
pub open spec fn text_le(a: Seq<char>, b: Seq<char>) -> bool {
    a == b || text_lt(a, b)
}

/// The texts are in order.
pub open spec fn sorted(s: Seq<Seq<char>>) -> bool {
    forall|i: int, j: int| 0 <= i < j < s.len() ==> text_le(s[i], s[j])
}

proof fn lemma_lt_trans(a: Seq<char>, b: Seq<char>, c: Seq<char>)
    requires
        text_lt(a, b),
        text_lt(b, c),
    ensures
        text_lt(a, c),
    decreases a.len(),
{
    if a.len() > 0 && b.len() > 0 && c.len() > 0 && a[0] == b[0] && b[0] == c[0] {
        lemma_lt_trans(a.drop_first(), b.drop_first(), c.drop_first());
    }
}

proof fn lemma_lt_total(a: Seq<char>, b: Seq<char>)
    ensures
        text_lt(a, b) || a == b || text_lt(b, a),
    decreases a.len(),
{
    if a.len() > 0 && b.len() > 0 && a[0] == b[0] {
        lemma_lt_total(a.drop_first(), b.drop_first());
        if a.drop_first() == b.drop_first() {
            assert(a =~= seq![a[0]] + a.drop_first());
            assert(b =~= seq![b[0]] + b.drop_first());
        }
    } else if a.len() == 0 && b.len() == 0 {
        assert(a =~= b);
    }
}

proof fn lemma_lt_irreflexive(a: Seq<char>)
    ensures
        !text_lt(a, a),
    decreases a.len(),
{
    if a.len() > 0 {
        lemma_lt_irreflexive(a.drop_first());
    }
}

/// Whether `a` comes before `b` in the order of strings.
pub fn text_less(a: &str, b: &str) -> (r: bool)
    ensures
        r == text_lt(a@, b@),
{
    let n = a.unicode_len();
    let m = b.unicode_len();
    let mut i: usize = 0;
    assert(a@.skip(0) =~= a@);
    assert(b@.skip(0) =~= b@);
    while i < n && i < m
        invariant
            n == a@.len(),
            m == b@.len(),
            i <= n,
            i <= m,
            text_lt(a@, b@) == text_lt(a@.skip(i as int), b@.skip(i as int)),
        decreases n - i,
    {
        let x = a.get_char(i);
        let y = b.get_char(i);
        proof {
            assert(a@.skip(i as int)[0] == x);
            assert(b@.skip(i as int)[0] == y);
            assert(a@.skip(i as int).drop_first() =~= a@.skip(i + 1));
            assert(b@.skip(i as int).drop_first() =~= b@.skip(i + 1));
        }
        if x != y {
            return x < y;
        }
        i = i + 1;
    }
    i == n && i < m
}

/// Puts `x` into the sorted vector after the entries that do not come after it.
fn insert_sorted(v: &mut Vec<String>, x: String)
    requires
        sorted(texts(old(v)@)),
    ensures
        sorted(texts(final(v)@)),
        texts(final(v)@).to_multiset() == texts(old(v)@).to_multiset().insert(x@),
{
    let ghost s = texts(v@);
    let mut p: usize = 0;
    while p < v.len() && !text_less(x.as_str(), v[p].as_str())
        invariant
            p <= v@.len(),
            s == texts(v@),
            sorted(s),
            forall|k: int| 0 <= k < p ==> !text_lt(x@, #[trigger] s[k]),
        decreases v.len() - p,
    {
        p = p + 1;
    }
    let ghost xv = x@;
    v.insert(p, x);
    proof {
        let t = texts(v@);
        assert(t =~= s.insert(p as int, xv));
        assert forall|i: int, j: int| 0 <= i < j < t.len() implies text_le(t[i], t[j]) by {
            if j < p {
            } else if j == p {
                lemma_lt_total(xv, s[i]);
            } else if i == p {
                lemma_lt_irreflexive(xv);
                if j - 1 > p {
                    assert(text_le(s[p as int], s[j - 1]));
                    if s[p as int] != s[j - 1] {
                        lemma_lt_trans(xv, s[p as int], s[j - 1]);
                    }
                }
            }
        }
    }
}

/// Sorts texts into the order of strings.
pub fn sort_texts(v: Vec<String>) -> (r: Vec<String>)
    ensures
        sorted(texts(r@)),
        texts(r@).to_multiset() == texts(v@).to_multiset(),
{
    let mut r: Vec<String> = Vec::new();
    let mut i: usize = 0;
    assert(texts(r@) =~= texts(v@.take(0)));
    while i < v.len()
        invariant
            i <= v@.len(),
            sorted(texts(r@)),
            texts(r@).to_multiset() == texts(v@.take(i as int)).to_multiset(),
        decreases v.len() - i,
    {
        let x = v[i].clone();
        insert_sorted(&mut r, x);
        proof {
            assert(texts(v@.take(i + 1)) =~= texts(v@.take(i as int)).push(v@[i as int]@));
            vstd::seq_lib::to_multiset_build(texts(v@.take(i as int)), v@[i as int]@);
        }
        i = i + 1;
    }
    assert(v@.take(v@.len() as int) =~= v@);
    r
}

/// An entry of a directory, as read from the filesystem.
pub struct DirEntry {
    pub name: String,
    pub is_dir: bool,
}

/// The entry is hidden: its name starts with '.'.
pub open spec fn hidden(e: DirEntry) -> bool {
    e.name@.len() > 0 && e.name@[0] == '.'
}

/// The lines shown for the directories among the entries, in the entries'
/// order: each name followed by '/'.
pub open spec fn directory_lines(es: Seq<DirEntry>, show_hidden: bool) -> Seq<Seq<char>>
    decreases es.len(),
{
    if es.len() == 0 {
        seq![]
    } else {
        let rest = directory_lines(es.drop_last(), show_hidden);
        let e = es.last();
        if e.is_dir && (show_hidden || !hidden(e)) {
            rest.push(e.name@.push('/'))
        } else {
            rest
        }
    }
}

/// The lines shown for the other entries, in the entries' order.
pub open spec fn file_lines(es: Seq<DirEntry>, show_hidden: bool) -> Seq<Seq<char>>
    decreases es.len(),
{
    if es.len() == 0 {
        seq![]
    } else {
        let rest = file_lines(es.drop_last(), show_hidden);
        let e = es.last();
        if !e.is_dir && (show_hidden || !hidden(e)) {
            rest.push(e.name@)
        } else {
            rest
        }
    }
}

/// The lines that `list-directory` shows: the directories, each followed by
/// '/', in order, then the other entries in order; hidden entries only when
/// asked for.
pub fn listing(entries: &Vec<DirEntry>, show_hidden: bool) -> (r: Vec<String>)
    ensures
        r@.len() == directory_lines(entries@, show_hidden).len() + file_lines(
            entries@,
            show_hidden,
        ).len(),
        sorted(texts(r@).take(directory_lines(entries@, show_hidden).len() as int)),
        texts(r@).take(directory_lines(entries@, show_hidden).len() as int).to_multiset()
            == directory_lines(entries@, show_hidden).to_multiset(),
        sorted(texts(r@).skip(directory_lines(entries@, show_hidden).len() as int)),
        texts(r@).skip(directory_lines(entries@, show_hidden).len() as int).to_multiset()
            == file_lines(entries@, show_hidden).to_multiset(),
{
    let mut dirs: Vec<String> = Vec::new();
    let mut files: Vec<String> = Vec::new();
    let mut i: usize = 0;
    while i < entries.len()
        invariant
            i <= entries@.len(),
            texts(dirs@) == directory_lines(entries@.take(i as int), show_hidden),
            texts(files@) == file_lines(entries@.take(i as int), show_hidden),
        decreases entries.len() - i,
    {
        let e = &entries[i];
        proof {
            assert(entries@.take(i + 1).drop_last() =~= entries@.take(i as int));
            assert(entries@.take(i + 1).last() == *e);
        }
        let is_hidden = !e.name.as_str().is_empty() && e.name.as_str().get_char(0) == '.';
        if show_hidden || !is_hidden {
            if e.is_dir {
                let mut d = e.name.clone();
                push_char(&mut d, '/');
                dirs.push(d);
                assert(texts(dirs@) =~= directory_lines(entries@.take(i + 1), show_hidden));
            } else {
                files.push(e.name.clone());
                assert(texts(files@) =~= file_lines(entries@.take(i + 1), show_hidden));
            }
        }
        i = i + 1;
    }
    assert(entries@.take(entries@.len() as int) =~= entries@);
    let dirs = sort_texts(dirs);
    let files = sort_texts(files);
    let ghost k = dirs@.len();
    let mut r = dirs;
    let mut j: usize = 0;
    while j < files.len()
        invariant
            j <= files@.len(),
            r@.len() == k + j,
            r@.take(k as int) == dirs@,
            r@.skip(k as int) == files@.take(j as int),
        decreases files.len() - j,
    {
        r.push(files[j].clone());
        assert(r@.take(k as int) =~= dirs@);
        assert(r@.skip(k as int) =~= files@.take(j + 1));
        j = j + 1;
    }
    assert(files@.take(files@.len() as int) =~= files@);
    assert(texts(r@).take(k as int) =~= texts(dirs@));
    assert(texts(r@).skip(k as int) =~= texts(files@));
    proof {
        vstd::seq_lib::to_multiset_len(texts(dirs@));
        vstd::seq_lib::to_multiset_len(directory_lines(entries@, show_hidden));
        vstd::seq_lib::to_multiset_len(texts(files@));
        vstd::seq_lib::to_multiset_len(file_lines(entries@, show_hidden));
    }
    r
}

} // verus!
