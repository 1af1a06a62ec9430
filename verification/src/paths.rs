//! Absolute paths as sequences of components.
//!
//! A path is held by its normal components: `/home/me/.config/` is
//! `["home", "me", ".config"]`. Two paths are equal when their components
//! are, as for `std::path::Path`; trailing separators, repeated separators
//! and `.` components do not count.

use vstd::prelude::*;

use crate::chars::{chars_of, push_char, push_str, string_from_chars};

verus! {

/// An absolute path, by its components.
#[derive(Debug, Clone)]
pub struct PathKey {
    pub parts: Vec<String>,
}

/// Components of a path, by their characters.
pub open spec fn parts_of(p: PathKey) -> Seq<Seq<char>> {
    Seq::new(p.parts.len() as nat, |i: int| p.parts[i]@)
}

/// Whether `a` is a (not necessarily proper) prefix of `b`.
pub open spec fn is_prefix_seq<A>(a: Seq<A>, b: Seq<A>) -> bool {
    a.len() <= b.len() && b.take(a.len() as int) == a
}

/// The pieces of `s` between occurrences of `sep`.
pub open spec fn split_on(s: Seq<char>, sep: char) -> Seq<Seq<char>>
    decreases s.len(),
{
    if s.len() == 0 {
        seq![Seq::<char>::empty()]
    } else {
        let ps = split_on(s.drop_last(), sep);
        if s.last() == sep {
            ps.push(Seq::<char>::empty())
        } else {
            ps.update(ps.len() - 1, ps.last().push(s.last()))
        }
    }
}

/// Pieces that name a component: not empty and not `.`.
pub open spec fn is_component(piece: Seq<char>) -> bool {
    piece.len() > 0 && piece != seq!['.']
}

/// The pieces that name components, in order.
pub open spec fn keep_components(ps: Seq<Seq<char>>) -> Seq<Seq<char>>
    decreases ps.len(),
{
    if ps.len() == 0 {
        ps
    } else if is_component(ps.last()) {
        keep_components(ps.drop_last()).push(ps.last())
    } else {
        keep_components(ps.drop_last())
    }
}

/// Components of a path written with `/` separators.
pub open spec fn components(s: Seq<char>) -> Seq<Seq<char>> {
    keep_components(split_on(s, '/'))
}

/// `base` joined with the path `rel`: an absolute `rel` replaces the base.
pub open spec fn joined_path(base: Seq<Seq<char>>, rel: Seq<char>) -> Seq<Seq<char>> {
    if rel.len() > 0 && rel[0] == '/' {
        components(rel)
    } else {
        base + components(rel)
    }
}

/// Components written with `/` between them.
pub open spec fn join_slash(parts: Seq<Seq<char>>) -> Seq<char>
    decreases parts.len(),
{
    if parts.len() == 0 {
        Seq::empty()
    } else if parts.len() == 1 {
        parts[0]
    } else {
        join_slash(parts.drop_last()) + seq!['/'] + parts.last()
    }
}

/// Whether `s` ends with `/`.
pub open spec fn ends_with_slash(s: Seq<char>) -> bool {
    s.len() > 0 && s.last() == '/'
}

pub proof fn lemma_split_on_nonempty(s: Seq<char>, sep: char)
    ensures
        split_on(s, sep).len() >= 1,
    decreases s.len(),
{
    if s.len() > 0 {
        lemma_split_on_nonempty(s.drop_last(), sep);
    }
}

/// Whether two strings hold the same text.
pub fn same_text(a: &String, b: &String) -> (r: bool)
    ensures
        r == (a@ == b@),
{
    a.eq(b)
}

/// Whether two paths are the same.
pub fn same_path(a: &PathKey, b: &PathKey) -> (r: bool)
    ensures
        r == (parts_of(*a) == parts_of(*b)),
{
    if a.parts.len() != b.parts.len() {
        assert(parts_of(*a).len() != parts_of(*b).len());
        return false;
    }
    let mut i: usize = 0;
    while i < a.parts.len()
        invariant
            a.parts.len() == b.parts.len(),
            i <= a.parts.len(),
            forall|k: int| 0 <= k < i ==> a.parts@[k]@ == b.parts@[k]@,
        decreases a.parts.len() - i,
    {
        if !same_text(&a.parts[i], &b.parts[i]) {
            assert(parts_of(*a)[i as int] != parts_of(*b)[i as int]);
            return false;
        }
        i = i + 1;
    }
    assert(parts_of(*a) =~= parts_of(*b));
    true
}

/// Whether the first `n` components of `path` are those of `anc`.
pub fn has_prefix(path: &PathKey, anc: &PathKey) -> (r: bool)
    ensures
        r == is_prefix_seq(parts_of(*anc), parts_of(*path)),
{
    if anc.parts.len() > path.parts.len() {
        return false;
    }
    let mut i: usize = 0;
    while i < anc.parts.len()
        invariant
            anc.parts.len() <= path.parts.len(),
            i <= anc.parts.len(),
            forall|k: int| 0 <= k < i ==> path.parts@[k]@ == anc.parts@[k]@,
        decreases anc.parts.len() - i,
    {
        if !same_text(&path.parts[i], &anc.parts[i]) {
            assert(parts_of(*path).take(anc.parts.len() as int)[i as int] != parts_of(*anc)[i as int]);
            return false;
        }
        i = i + 1;
    }
    assert(parts_of(*path).take(anc.parts.len() as int) =~= parts_of(*anc));
    true
}

/// The first `n` components of `path`.
pub fn path_prefix(path: &PathKey, n: usize) -> (r: PathKey)
    requires
        n <= path.parts.len(),
    ensures
        parts_of(r) == parts_of(*path).take(n as int),
{
    let mut parts: Vec<String> = Vec::new();
    let mut i: usize = 0;
    while i < n
        invariant
            n <= path.parts.len(),
            i <= n,
            parts.len() == i,
            forall|k: int| 0 <= k < i ==> parts@[k]@ == path.parts@[k]@,
        decreases n - i,
    {
        parts.push(path.parts[i].clone());
        i = i + 1;
    }
    let r = PathKey { parts };
    assert(parts_of(r) =~= parts_of(*path).take(n as int));
    r
}

/// Components `from..` of `path` written with `/` separators.
pub fn join_from(path: &PathKey, from: usize) -> (r: String)
    requires
        from <= path.parts.len(),
    ensures
        r@ == join_slash(parts_of(*path).skip(from as int)),
{
    let mut r = String::new();
    let mut i = from;
    let ghost ps = parts_of(*path);
    assert(ps.subrange(from as int, from as int) =~= Seq::<Seq<char>>::empty());
    while i < path.parts.len()
        invariant
            ps == parts_of(*path),
            from <= i <= path.parts.len(),
            r@ == join_slash(ps.subrange(from as int, i as int)),
        decreases path.parts.len() - i,
    {
        let ghost before = ps.subrange(from as int, i as int);
        let ghost after = ps.subrange(from as int, i + 1);
        assert(after.drop_last() =~= before);
        assert(after.last() == path.parts@[i as int]@);
        if i > from {
            push_char(&mut r, '/');
        }
        push_str(&mut r, path.parts[i].as_str());
        if i == from {
            assert(after.len() == 1);
            assert(r@ =~= after[0]);
        } else {
            assert(r@ =~= join_slash(before) + seq!['/'] + after.last());
        }
        i = i + 1;
    }
    assert(ps.subrange(from as int, path.parts.len() as int) =~= ps.skip(from as int));
    r
}

/// Components of `s`, a path written with `/` separators.
pub fn split_components(s: &str) -> (r: Vec<String>)
    ensures
        r.len() == components(s@).len(),
        forall|i: int| 0 <= i < r.len() ==> #[trigger] r@[i]@ == components(s@)[i],
{
    let chars = chars_of(s);
    let mut out: Vec<String> = Vec::new();
    let mut piece: Vec<char> = Vec::new();
    let mut i: usize = 0;
    assert(chars@.take(0) =~= Seq::<char>::empty());
    assert(keep_components(split_on(chars@.take(0), '/').drop_last()) =~= Seq::<Seq<char>>::empty());
    while i < chars.len()
        invariant
            chars@ == s@,
            i <= chars.len(),
            ({
                let ps = split_on(chars@.take(i as int), '/');
                &&& out.len() == keep_components(ps.drop_last()).len()
                &&& forall|k: int| 0 <= k < out.len() ==> #[trigger] out@[k]@ == keep_components(
                    ps.drop_last(),
                )[k]
                &&& piece@ == ps.last()
            }),
        decreases chars.len() - i,
    {
        let c = chars[i];
        let ghost ps = split_on(chars@.take(i as int), '/');
        proof {
            lemma_split_on_nonempty(chars@.take(i as int), '/');
        }
        assert(chars@.take(i + 1).drop_last() =~= chars@.take(i as int));
        assert(chars@.take(i + 1).last() == c);
        if c == '/' {
            let ghost ps2 = ps.push(Seq::<char>::empty());
            assert(ps2.drop_last() =~= ps);
            assert(ps =~= ps.drop_last().push(ps.last()));
            if keep_piece(&piece) {
                let ghost before = out@;
                out.push(string_from_chars(piece.as_slice()));
                assert(keep_components(ps) == keep_components(ps.drop_last()).push(ps.last()));
            } else {
                assert(keep_components(ps) == keep_components(ps.drop_last()));
            }
            piece = Vec::new();
        } else {
            piece.push(c);
            let ghost ps2 = ps.update(ps.len() - 1, ps.last().push(c));
            assert(ps2.drop_last() =~= ps.drop_last());
        }
        i = i + 1;
    }
    proof {
        lemma_split_on_nonempty(chars@, '/');
    }
    assert(chars@.take(chars.len() as int) =~= chars@);
    let ghost ps = split_on(chars@, '/');
    assert(ps =~= ps.drop_last().push(ps.last()));
    if keep_piece(&piece) {
        out.push(string_from_chars(piece.as_slice()));
        assert(keep_components(ps) == keep_components(ps.drop_last()).push(ps.last()));
    } else {
        assert(keep_components(ps) == keep_components(ps.drop_last()));
    }
    out
}

fn keep_piece(piece: &Vec<char>) -> (r: bool)
    ensures
        r == is_component(piece@),
{
    if piece.len() == 0 {
        false
    } else if piece.len() == 1 && piece[0] == '.' {
        assert(piece@ =~= seq!['.']);
        false
    } else {
        assert(piece@.len() != 1 ==> piece@ != seq!['.']);
        true
    }
}

/// `base` joined with `rel` (an absolute `rel` replaces `base`).
pub fn join_path(base: &PathKey, rel: &str) -> (r: PathKey)
    ensures
        parts_of(r) == joined_path(parts_of(*base), rel@),
{
    let chars = chars_of(rel);
    let rel_parts = split_components(rel);
    if chars.len() > 0 && chars[0] == '/' {
        let r = PathKey { parts: rel_parts };
        assert(parts_of(r) =~= components(rel@));
        return r;
    }
    let mut parts: Vec<String> = Vec::new();
    let mut i: usize = 0;
    while i < base.parts.len()
        invariant
            i <= base.parts.len(),
            parts.len() == i,
            forall|k: int| 0 <= k < i ==> parts@[k]@ == base.parts@[k]@,
        decreases base.parts.len() - i,
    {
        parts.push(base.parts[i].clone());
        i = i + 1;
    }
    let mut j: usize = 0;
    while j < rel_parts.len()
        invariant
            j <= rel_parts.len(),
            parts.len() == base.parts.len() + j,
            rel_parts.len() == components(rel@).len(),
            forall|k: int| 0 <= k < rel_parts.len() ==> #[trigger] rel_parts@[k]@ == components(rel@)[k],
            forall|k: int| 0 <= k < base.parts.len() ==> parts@[k]@ == base.parts@[k]@,
            forall|k: int| 0 <= k < j ==> parts@[base.parts.len() + k]@ == rel_parts@[k]@,
        decreases rel_parts.len() - j,
    {
        parts.push(rel_parts[j].clone());
        j = j + 1;
    }
    let r = PathKey { parts };
    assert forall|k: int| 0 <= k < parts_of(r).len() implies #[trigger] parts_of(r)[k] == (parts_of(
        *base,
    ) + components(rel@))[k] by {
        if k < base.parts.len() {
        } else {
            let m = k - base.parts.len();
            assert(parts@[base.parts.len() + m]@ == rel_parts@[m]@);
        }
    }
    assert(parts_of(r) =~= parts_of(*base) + components(rel@));
    r
}

/// Whether `s` starts with `p`.
pub fn text_starts_with(s: &String, p: &String) -> (r: bool)
    ensures
        r == is_prefix_seq(p@, s@),
{
    let sv = chars_of(s.as_str());
    let pv = chars_of(p.as_str());
    if pv.len() > sv.len() {
        return false;
    }
    let mut i: usize = 0;
    while i < pv.len()
        invariant
            sv@ == s@,
            pv@ == p@,
            pv.len() <= sv.len(),
            i <= pv.len(),
            forall|k: int| 0 <= k < i ==> sv@[k] == pv@[k],
        decreases pv.len() - i,
    {
        if sv[i] != pv[i] {
            assert(s@.take(p@.len() as int)[i as int] != p@[i as int]);
            return false;
        }
        i = i + 1;
    }
    assert(s@.take(p@.len() as int) =~= p@);
    true
}

/// Whether `s` ends with `/`.
pub fn text_ends_with_slash(s: &String) -> (r: bool)
    ensures
        r == ends_with_slash(s@),
{
    let v = chars_of(s.as_str());
    v.len() > 0 && v[v.len() - 1] == '/'
}

} // verus!
