//! The walk behind the ignore preview: which directory entries it records,
//! which directories it enters, when it stops, and the order of what it
//! found. The caller reads the directories and hands each entry, as its
//! symbolic-link metadata describes it, to these decisions.

use vstd::prelude::*;

use crate::chars::same_str;
use crate::namespaces::{
    lemma_name_lt_asymmetric, lemma_name_lt_irreflexive, lemma_name_lt_total, lemma_name_lt_transitive, name_less,
    name_lt,
};
use crate::paths::{parts_of, PathKey};
use crate::screens::ignore::PREVIEW_LIMIT;

verus! {

/// How many directory levels the preview walk reads below the source.
pub const PREVIEW_DEPTH: usize = 3;

/// One directory entry met by the walk, as its symbolic-link metadata
/// describes it (a link to a directory is a link, not a directory).
#[derive(Debug)]
pub struct WalkEntry {
    /// The entry's file name.
    pub name: String,
    pub is_dir: bool,
    pub is_symlink: bool,
}

/// What the walk does with one entry.
#[derive(Debug, Clone, Copy, PartialEq, Eq, Structural)]
pub struct WalkStep {
    /// The entry joins the results.
    pub record: bool,
    /// The walk reads the entry's directory next, one level deeper.
    pub descend: bool,
    /// The walk has found enough and reads no further entry.
    pub stop: bool,
}

/// Whether the walk reads a directory with `depth_left` levels still
/// allowed, after finding `found` entries.
pub fn walk_enters(depth_left: usize, found: usize) -> (r: bool)
    ensures
        r == (depth_left > 0 && found < PREVIEW_LIMIT),
{
    depth_left > 0 && found < PREVIEW_LIMIT
}

/// The walk's decision on one entry after finding `found` entries: a `.git`
/// directory is passed over; anything else is recorded; a directory that is
/// not a symbolic link is entered; the walk stops once it has found
/// `PREVIEW_LIMIT` entries.
pub fn walk_step(e: &WalkEntry, found: usize) -> (s: WalkStep)
    requires
        found < PREVIEW_LIMIT,
    ensures
        s.record == !(e.is_dir && e.name@ == ".git"@),
        s.descend == (s.record && e.is_dir && !e.is_symlink),
        s.stop == (s.record && found + 1 >= PREVIEW_LIMIT),
{
    if e.is_dir && same_str(e.name.as_str(), ".git") {
        return WalkStep { record: false, descend: false, stop: false };
    }
    WalkStep { record: true, descend: e.is_dir && !e.is_symlink, stop: found + 1 >= PREVIEW_LIMIT }
}

/// `a` comes before `b` as paths: component by component, each compared by
/// its characters, a path before the paths below it.
pub open spec fn path_lt(a: Seq<Seq<char>>, b: Seq<Seq<char>>) -> bool
    decreases a.len(),
{
    if a.len() == 0 {
        b.len() > 0
    } else if b.len() == 0 {
        false
    } else if a[0] != b[0] {
        name_lt(a[0], b[0])
    } else {
        path_lt(a.drop_first(), b.drop_first())
    }
}

proof fn lemma_path_lt_asymmetric(a: Seq<Seq<char>>, b: Seq<Seq<char>>)
    requires
        path_lt(a, b),
    ensures
        !path_lt(b, a),
    decreases a.len(),
{
    if a.len() > 0 && b.len() > 0 {
        if a[0] == b[0] {
            lemma_path_lt_asymmetric(a.drop_first(), b.drop_first());
        } else {
            lemma_name_lt_asymmetric(a[0], b[0]);
        }
    }
}

proof fn lemma_path_lt_transitive(a: Seq<Seq<char>>, b: Seq<Seq<char>>, c: Seq<Seq<char>>)
    requires
        path_lt(a, b),
        path_lt(b, c),
    ensures
        path_lt(a, c),
    decreases a.len(),
{
    if a.len() > 0 && b.len() > 0 && c.len() > 0 {
        if a[0] == b[0] && b[0] == c[0] {
            lemma_path_lt_transitive(a.drop_first(), b.drop_first(), c.drop_first());
        } else if a[0] == b[0] {
            if a[0] == c[0] {
                lemma_name_lt_irreflexive(c[0]);
            }
        } else if b[0] == c[0] {
            if a[0] == c[0] {
                lemma_name_lt_irreflexive(c[0]);
            }
        } else {
            lemma_name_lt_transitive(a[0], b[0], c[0]);
            if a[0] == c[0] {
                lemma_name_lt_asymmetric(a[0], b[0]);
            }
        }
    }
}

proof fn lemma_path_lt_total(a: Seq<Seq<char>>, b: Seq<Seq<char>>)
    requires
        a != b,
    ensures
        path_lt(a, b) || path_lt(b, a),
    decreases a.len(),
{
    if a.len() == 0 && b.len() == 0 {
        assert(a =~= b);
    }
    if a.len() > 0 && b.len() > 0 {
        if a[0] == b[0] {
            if a.drop_first() == b.drop_first() {
                assert(a =~= seq![a[0]] + a.drop_first());
                assert(b =~= seq![b[0]] + b.drop_first());
            }
            lemma_path_lt_total(a.drop_first(), b.drop_first());
        } else {
            lemma_name_lt_total(a[0], b[0]);
        }
    }
}

/// Whether path `a` comes before path `b`.
pub fn path_less(a: &PathKey, b: &PathKey) -> (r: bool)
    ensures
        r == path_lt(parts_of(*a), parts_of(*b)),
{
    let mut i: usize = 0;
    assert(parts_of(*a).skip(0) =~= parts_of(*a));
    assert(parts_of(*b).skip(0) =~= parts_of(*b));
    while i < a.parts.len() && i < b.parts.len() && same_str(a.parts[i].as_str(), b.parts[i].as_str())
        invariant
            i <= a.parts.len(),
            i <= b.parts.len(),
            path_lt(parts_of(*a), parts_of(*b)) == path_lt(parts_of(*a).skip(i as int), parts_of(*b).skip(i as int)),
        decreases a.parts.len() - i,
    {
        assert(parts_of(*a).skip(i as int).drop_first() =~= parts_of(*a).skip(i + 1));
        assert(parts_of(*b).skip(i as int).drop_first() =~= parts_of(*b).skip(i + 1));
        i = i + 1;
    }
    if i == a.parts.len() {
        i < b.parts.len()
    } else if i == b.parts.len() {
        false
    } else {
        assert(parts_of(*a).skip(i as int)[0] == a.parts@[i as int]@);
        assert(parts_of(*b).skip(i as int)[0] == b.parts@[i as int]@);
        name_less(a.parts[i].as_str(), b.parts[i].as_str())
    }
}

/// The paths in order, equal paths allowed.
pub open spec fn paths_sorted(ps: Seq<PathKey>) -> bool {
    forall|i: int, j: int| 0 <= i < j < ps.len() ==> !path_lt(parts_of(#[trigger] ps[j]), parts_of(#[trigger] ps[i]))
}

/// The paths by their components.
pub open spec fn path_views(ps: Seq<PathKey>) -> Seq<Seq<Seq<char>>> {
    ps.map_values(|p: PathKey| parts_of(p))
}

proof fn lemma_insert_sorted(ps: Seq<PathKey>, p: int, x: PathKey)
    requires
        paths_sorted(ps),
        0 <= p <= ps.len(),
        forall|k: int| 0 <= k < p ==> !path_lt(parts_of(x), parts_of(#[trigger] ps[k])),
        p < ps.len() ==> path_lt(parts_of(x), parts_of(ps[p])),
    ensures
        paths_sorted(ps.insert(p, x)),
{
    let t = ps.insert(p, x);
    assert forall|k: int| p <= k < ps.len() implies path_lt(parts_of(x), parts_of(#[trigger] ps[k])) by {
        if k > p {
            if parts_of(ps[k]) != parts_of(ps[p]) {
                lemma_path_lt_total(parts_of(ps[k]), parts_of(ps[p]));
                lemma_path_lt_transitive(parts_of(x), parts_of(ps[p]), parts_of(ps[k]));
            }
        }
    }
    assert forall|i: int, j: int| 0 <= i < j < t.len() implies !path_lt(parts_of(#[trigger] t[j]), parts_of(#[trigger] t[i])) by {
        if i == p {
            assert(t[j] == ps[j - 1]);
            lemma_path_lt_asymmetric(parts_of(x), parts_of(ps[j - 1]));
        } else if j == p {
            assert(t[i] == ps[i]);
        } else {
            let a = if i < p { i } else { i - 1 };
            let b = if j < p { j } else { j - 1 };
            assert(t[i] == ps[a]);
            assert(t[j] == ps[b]);
        }
    }
}

/// The paths the walk found, in path order: the order the preview lists
/// them in.
pub fn preview_order(found: Vec<PathKey>) -> (r: Vec<PathKey>)
    ensures
        paths_sorted(r@),
        path_views(r@).to_multiset() == path_views(found@).to_multiset(),
{
    let mut r: Vec<PathKey> = Vec::new();
    let mut rest = found;
    let ghost all = path_views(rest@);
    let mut i: usize = 0;
    assert(all.take(0) =~= Seq::<Seq<Seq<char>>>::empty());
    assert(path_views(r@) =~= Seq::<Seq<Seq<char>>>::empty());
    while i < rest.len()
        invariant
            i <= rest.len(),
            all == path_views(rest@),
            paths_sorted(r@),
            path_views(r@).to_multiset() == all.take(i as int).to_multiset(),
        decreases rest.len() - i,
    {
        let x = crate::selection::copy_path(&rest[i]);
        let ghost before = r@;
        let mut p: usize = 0;
        while p < r.len() && !path_less(&x, &r[p])
            invariant
                r@ == before,
                p <= r.len(),
                forall|k: int| 0 <= k < p ==> !path_lt(parts_of(x), parts_of(#[trigger] r@[k])),
            decreases r.len() - p,
        {
            p = p + 1;
        }
        proof {
            lemma_insert_sorted(before, p as int, x);
        }
        r.insert(p, x);
        proof {
            assert(path_views(r@) =~= path_views(before).insert(p as int, parts_of(x)));
            vstd::seq_lib::to_multiset_insert(path_views(before), p as int, parts_of(x));
            assert(all.take(i + 1) =~= all.take(i as int).insert(i as int, all[i as int]));
            vstd::seq_lib::to_multiset_insert(all.take(i as int), i as int, all[i as int]);
            assert(all[i as int] == parts_of(x));
        }
        i = i + 1;
    }
    assert(all.take(rest.len() as int) =~= all);
    r
}

} // verus!
