//! Multi-select state model for the source browser.
//!
//! Tracks which filesystem paths are selected as sources, which are inherited
//! from a parent folder source, and which have been explicitly deselected
//! (creating ignore rule candidates). Operates on absolute paths internally
//! and converts to/from home-relative config paths at the boundaries.

use vstd::prelude::*;

use crate::chars::{owned, push_char, push_str};
use crate::paths::{
    ends_with_slash, has_prefix, is_prefix_seq, join_from, join_path, join_slash, joined_path,
    parts_of, path_prefix, same_path, same_text, text_ends_with_slash, text_starts_with, PathKey,
};

verus! {

/// Path components, by their characters.
pub type Parts = Seq<Seq<char>>;

/// One configured source: a home-relative path and its ignore rules.
#[derive(Debug, Clone)]
pub struct SourceConfig {
    pub path: String,
    pub ignore: Vec<String>,
}

/// Visual and logical state of a path in the multi-select browser.
#[derive(Debug, Clone, Copy, PartialEq, Eq, Structural)]
pub enum CheckState {
    /// The path is explicitly selected as a source.
    Explicit,
    /// The path is inside a selected folder source (auto-selected).
    Inherited,
    /// The path is not selected.
    Unchecked,
}

/// New ignore rules for one source.
#[derive(Debug, Clone)]
pub struct SourceRules {
    /// The source path (home-relative).
    pub source: String,
    /// Anchored relative rules (e.g. `/subfolder/`).
    pub rules: Vec<String>,
}

/// The result of diffing the current selection against the persisted config.
#[derive(Debug, Clone)]
pub struct SelectionDiff {
    /// New source paths to add (home-relative).
    pub additions: Vec<String>,
    /// Existing source paths to remove (home-relative).
    pub removals: Vec<String>,
    /// New ignore rules to append, per source path (home-relative) they
    /// belong to.
    pub ignore_rules: Vec<SourceRules>,
}

/// The relative paths deselected inside one selected folder source.
#[derive(Debug, Clone)]
pub struct Deselected {
    pub ancestor: PathKey,
    pub entries: Vec<String>,
}

/// Multi-selection state for the source browser.
///
/// All paths stored internally are absolute. Conversion to/from home-relative
/// strings happens at load and diff boundaries. Every value is well formed
/// (`selection_wf`): the type keeps that as its invariant.
#[derive(Debug)]
pub struct SourceSelection {
    state: SelectionState,
}

/// The fields of a selection, which its operations rework step by step.
#[derive(Debug)]
struct SelectionState {
    /// Paths explicitly selected as sources, without repetition.
    selected: Vec<PathKey>,
    /// For each selected folder source, the relative paths (within that
    /// source) that have been explicitly deselected: the ignore candidates.
    deselected: Vec<Deselected>,
    /// The home directory root used for path resolution.
    home: PathKey,
}

/// Abstract selection: selected paths in selection order, the deselected
/// lists keyed by their source, and the home directory.
pub struct SelectionModel {
    pub selected: Seq<Parts>,
    pub deselected: Seq<(Parts, Seq<Seq<char>>)>,
    pub home: Parts,
}

pub open spec fn strings_of(v: Seq<String>) -> Seq<Seq<char>> {
    Seq::new(v.len(), |i: int| v[i]@)
}

pub open spec fn paths_of(v: Seq<PathKey>) -> Seq<Parts> {
    Seq::new(v.len(), |i: int| parts_of(v[i]))
}

pub open spec fn desel_of(v: Seq<Deselected>) -> Seq<(Parts, Seq<Seq<char>>)> {
    Seq::new(v.len(), |i: int| (parts_of(v[i].ancestor), strings_of(v[i].entries@)))
}

impl View for SourceSelection {
    type V = SelectionModel;

    closed spec fn view(&self) -> SelectionModel {
        self.state@
    }
}

impl View for SelectionState {
    type V = SelectionModel;

    closed spec fn view(&self) -> SelectionModel {
        SelectionModel {
            selected: paths_of(self.selected@),
            deselected: desel_of(self.deselected@),
            home: parts_of(self.home),
        }
    }
}

/// Whether a sequence has no repeated element.
pub open spec fn no_dups<A>(s: Seq<A>) -> bool {
    forall|i: int, j: int| 0 <= i < j < s.len() ==> s[i] != s[j]
}

/// Index of the entry for `key`, if any.
pub open spec fn find_key(d: Seq<(Parts, Seq<Seq<char>>)>, key: Parts) -> Option<int>
    decreases d.len(),
{
    if d.len() == 0 {
        None
    } else if d.last().0 == key {
        Some(d.len() - 1)
    } else {
        find_key(d.drop_last(), key)
    }
}

/// No two entries share a key.
pub open spec fn unique_keys<K, V>(d: Seq<(K, V)>) -> bool {
    forall|i: int, j: int| 0 <= i < j < d.len() ==> (#[trigger] d[i]).0 != (#[trigger] d[j]).0
}

/// Well-formed selections: no path selected twice, one deselected list per
/// source, only selected sources have deselected lists, and those lists are
/// never empty.
pub open spec fn selection_wf(m: SelectionModel) -> bool {
    &&& no_dups(m.selected)
    &&& unique_keys(m.deselected)
    &&& forall|i: int| 0 <= i < m.deselected.len() ==> m.selected.contains(#[trigger] m.deselected[i].0)
    &&& forall|i: int| 0 <= i < m.deselected.len() ==> (#[trigger] m.deselected[i]).1.len() > 0
}

/// Searching ancestors from `path.take(j)` upward for a selected one; the
/// search stops after the home directory.
pub open spec fn ancestor_from(sel: Seq<Parts>, home: Parts, path: Parts, j: int) -> Option<int>
    decreases j + 1,
{
    if j < 0 {
        None
    } else if sel.contains(path.take(j)) {
        Some(j)
    } else if path.take(j) == home {
        None
    } else {
        ancestor_from(sel, home, path, j - 1)
    }
}

/// Length of the nearest selected proper ancestor of `path`.
pub open spec fn nearest_ancestor(m: SelectionModel, path: Parts) -> Option<int> {
    ancestor_from(m.selected, m.home, path, path.len() - 1)
}

/// `path` relative to its ancestor of length `j`.
pub open spec fn rel_from(path: Parts, j: int) -> Seq<char> {
    join_slash(path.skip(j))
}

/// Whether a deselected list excludes `rel`: as a file or directory entry,
/// or by a deselected directory (an entry ending in `/`) that contains it.
pub open spec fn excluded_by(list: Seq<Seq<char>>, rel: Seq<char>) -> bool {
    ||| list.contains(rel)
    ||| list.contains(rel.push('/'))
    ||| exists|k: int| 0 <= k < list.len() && ends_with_slash(list[k]) && is_prefix_seq(#[trigger] list[k], rel)
}

/// The check state of `path`.
pub open spec fn check_state(m: SelectionModel, path: Parts) -> CheckState {
    if m.selected.contains(path) {
        CheckState::Explicit
    } else {
        match nearest_ancestor(m, path) {
            None => CheckState::Unchecked,
            Some(j) => match find_key(m.deselected, path.take(j)) {
                None => CheckState::Inherited,
                Some(i) => if excluded_by(m.deselected[i].1, rel_from(path, j)) {
                    CheckState::Unchecked
                } else {
                    CheckState::Inherited
                },
            },
        }
    }
}

/// Whether a deselected entry names `rel`, as a file or as a directory.
pub open spec fn names(entry: Seq<char>, rel: Seq<char>) -> bool {
    entry == rel || entry == rel.push('/')
}

/// First position in `list` naming `rel` as a file or as a directory.
pub open spec fn first_match(list: Seq<Seq<char>>, rel: Seq<char>) -> Option<int>
    decreases list.len(),
{
    if list.len() == 0 {
        None
    } else {
        match first_match(list.drop_last(), rel) {
            Some(p) => Some(p),
            None => if names(list.last(), rel) {
                Some(list.len() - 1)
            } else {
                None
            },
        }
    }
}

/// Remove `path` from a sequence (of which it is a member at most once).
pub open spec fn seq_without<A>(s: Seq<A>, x: A) -> Seq<A>
    decreases s.len(),
{
    if s.len() == 0 {
        s
    } else if s.last() == x {
        seq_without(s.drop_last(), x)
    } else {
        seq_without(s.drop_last(), x).push(s.last())
    }
}

/// Drop the deselected list of `key`.
pub open spec fn desel_without(d: Seq<(Parts, Seq<Seq<char>>)>, key: Parts) -> Seq<(Parts, Seq<Seq<char>>)>
    decreases d.len(),
{
    if d.len() == 0 {
        d
    } else if d.last().0 == key {
        desel_without(d.drop_last(), key)
    } else {
        desel_without(d.drop_last(), key).push(d.last())
    }
}

/// `m` with an inherited `path` added to the deselected list of its
/// nearest selected ancestor; a directory entry ends in `/`.
pub open spec fn deselected_under_ancestor(m: SelectionModel, path: Parts, is_dir: bool) -> SelectionModel {
    let j = nearest_ancestor(m, path)->0;
    let anc = path.take(j);
    let rel = rel_from(path, j);
    let entry = if is_dir && !ends_with_slash(rel) { rel.push('/') } else { rel };
    SelectionModel {
        selected: m.selected,
        deselected: match find_key(m.deselected, anc) {
            Some(i) => m.deselected.update(i, (anc, m.deselected[i].1.push(entry))),
            None => m.deselected.push((anc, seq![entry])),
        },
        home: m.home,
    }
}

/// `m` without `path` among the selected sources, nor its deselected list.
pub open spec fn unselected(m: SelectionModel, path: Parts) -> SelectionModel {
    SelectionModel {
        selected: seq_without(m.selected, path),
        deselected: desel_without(m.deselected, path),
        home: m.home,
    }
}

/// The state after `toggle(path, is_dir)`: an explicitly selected path
/// leaves the selection (and, inside another selected source, is
/// deselected there so that it ends up unchecked); an inherited one is
/// deselected under its ancestor; an unchecked one comes back from its
/// ancestor's deselected list, or else is selected explicitly.
pub open spec fn toggled(m: SelectionModel, path: Parts, is_dir: bool) -> SelectionModel {
    match check_state(m, path) {
        CheckState::Explicit => {
            let m1 = unselected(m, path);
            if check_state(m1, path) == CheckState::Inherited {
                deselected_under_ancestor(m1, path, is_dir)
            } else {
                m1
            }
        },
        CheckState::Inherited => deselected_under_ancestor(m, path, is_dir),
        CheckState::Unchecked => match restore_target(m, path) {
            Some((i, p)) => {
                let list = m.deselected[i].1.remove(p);
                SelectionModel {
                    selected: m.selected,
                    deselected: if list.len() == 0 {
                        m.deselected.remove(i)
                    } else {
                        m.deselected.update(i, (m.deselected[i].0, list))
                    },
                    home: m.home,
                }
            },
            None => SelectionModel {
                selected: m.selected.push(path),
                deselected: m.deselected,
                home: m.home,
            },
        },
    }
}

/// The deselected entry that toggling an unchecked `path` restores: the
/// list of its nearest selected ancestor and the first entry naming it.
pub open spec fn restore_target(m: SelectionModel, path: Parts) -> Option<(int, int)> {
    match nearest_ancestor(m, path) {
        None => None,
        Some(j) => match find_key(m.deselected, path.take(j)) {
            None => None,
            Some(i) => match first_match(m.deselected[i].1, rel_from(path, j)) {
                None => None,
                Some(p) => Some((i, p)),
            },
        },
    }
}


/// Selected paths after loading configured sources: each source's path
/// joined to the home directory, each path once.
pub open spec fn loaded(home: Parts, sources: Seq<SourceConfig>) -> Seq<Parts>
    decreases sources.len(),
{
    if sources.len() == 0 {
        Seq::empty()
    } else {
        let rest = loaded(home, sources.drop_last());
        let p = joined_path(home, sources.last().path@);
        if rest.contains(p) {
            rest
        } else {
            rest.push(p)
        }
    }
}

/// The configured source paths, joined to the home directory.
pub open spec fn config_paths(home: Parts, sources: Seq<SourceConfig>) -> Seq<Parts> {
    Seq::new(sources.len(), |i: int| joined_path(home, sources[i].path@))
}

/// `p` relative to `home`, when `home` is one of its ancestors (or itself).
pub open spec fn home_relative(home: Parts, p: Parts) -> Option<Seq<char>> {
    if is_prefix_seq(home, p) {
        Some(join_slash(p.skip(home.len() as int)))
    } else {
        None
    }
}

/// Selected paths missing from the configuration, home-relative.
pub open spec fn additions_from(sel: Seq<Parts>, home: Parts, existing: Seq<Parts>) -> Seq<Seq<char>>
    decreases sel.len(),
{
    if sel.len() == 0 {
        Seq::empty()
    } else {
        let rest = additions_from(sel.drop_last(), home, existing);
        let p = sel.last();
        if !existing.contains(p) && is_prefix_seq(home, p) {
            rest.push(join_slash(p.skip(home.len() as int)))
        } else {
            rest
        }
    }
}

/// Configured source paths that are no longer selected.
pub open spec fn removals_from(sources: Seq<SourceConfig>, home: Parts, sel: Seq<Parts>) -> Seq<Seq<char>>
    decreases sources.len(),
{
    if sources.len() == 0 {
        Seq::empty()
    } else {
        let rest = removals_from(sources.drop_last(), home, sel);
        if !sel.contains(joined_path(home, sources.last().path@)) {
            rest.push(sources.last().path@)
        } else {
            rest
        }
    }
}

/// Index of the first source whose path is written `rel`.
pub open spec fn first_source(sources: Seq<SourceConfig>, rel: Seq<char>) -> Option<int>
    decreases sources.len(),
{
    if sources.len() == 0 {
        None
    } else {
        match first_source(sources.drop_last(), rel) {
            Some(i) => Some(i),
            None => if sources.last().path@ == rel {
                Some(sources.len() - 1)
            } else {
                None
            },
        }
    }
}

/// The ignore rules already configured for the source written `rel`.
pub open spec fn existing_ignores(sources: Seq<SourceConfig>, rel: Seq<char>) -> Seq<Seq<char>> {
    match first_source(sources, rel) {
        Some(i) => strings_of(sources[i].ignore@),
        None => Seq::empty(),
    }
}

/// Deselected entries anchored with a leading `/`, without the rules that
/// already exist.
pub open spec fn anchored_rules(entries: Seq<Seq<char>>, existing: Seq<Seq<char>>) -> Seq<Seq<char>>
    decreases entries.len(),
{
    if entries.len() == 0 {
        Seq::empty()
    } else {
        let rest = anchored_rules(entries.drop_last(), existing);
        let rule = seq!['/'] + entries.last();
        if existing.contains(rule) {
            rest
        } else {
            rest.push(rule)
        }
    }
}

/// Index of the last entry keyed `key`.
pub open spec fn last_key<K, V>(d: Seq<(K, V)>, key: K) -> Option<int>
    decreases d.len(),
{
    if d.len() == 0 {
        None
    } else if d.last().0 == key {
        Some(d.len() - 1)
    } else {
        last_key(d.drop_last(), key)
    }
}

/// Map insertion: the entry for `key` takes `value`.
pub open spec fn rules_insert(
    rs: Seq<(Seq<char>, Seq<Seq<char>>)>,
    key: Seq<char>,
    value: Seq<Seq<char>>,
) -> Seq<(Seq<char>, Seq<Seq<char>>)> {
    match last_key(rs, key) {
        Some(i) => rs.update(i, (key, value)),
        None => rs.push((key, value)),
    }
}

/// New ignore rules per source: deselected entries of sources that stay
/// selected, anchored, less the rules the configuration already has.
pub open spec fn rules_from(
    d: Seq<(Parts, Seq<Seq<char>>)>,
    sel: Seq<Parts>,
    home: Parts,
    sources: Seq<SourceConfig>,
) -> Seq<(Seq<char>, Seq<Seq<char>>)>
    decreases d.len(),
{
    if d.len() == 0 {
        Seq::empty()
    } else {
        let rest = rules_from(d.drop_last(), sel, home, sources);
        let anc = d.last().0;
        if is_prefix_seq(home, anc) && sel.contains(anc) {
            let rel = join_slash(anc.skip(home.len() as int));
            let new_rules = anchored_rules(d.last().1, existing_ignores(sources, rel));
            if new_rules.len() > 0 {
                rules_insert(rest, rel, new_rules)
            } else {
                rest
            }
        } else {
            rest
        }
    }
}

/// Abstract diff: additions, removals and new rules per source.
pub struct DiffModel {
    pub additions: Seq<Seq<char>>,
    pub removals: Seq<Seq<char>>,
    pub ignore_rules: Seq<(Seq<char>, Seq<Seq<char>>)>,
}

pub open spec fn rules_view(v: Seq<SourceRules>) -> Seq<(Seq<char>, Seq<Seq<char>>)> {
    Seq::new(v.len(), |i: int| (v[i].source@, strings_of(v[i].rules@)))
}

impl View for SelectionDiff {
    type V = DiffModel;

    open spec fn view(&self) -> DiffModel {
        DiffModel {
            additions: strings_of(self.additions@),
            removals: strings_of(self.removals@),
            ignore_rules: rules_view(self.ignore_rules@),
        }
    }
}

/// The diff of a selection against the configured sources.
pub open spec fn diffed(m: SelectionModel, sources: Seq<SourceConfig>) -> DiffModel {
    DiffModel {
        additions: additions_from(m.selected, m.home, config_paths(m.home, sources)),
        removals: removals_from(sources, m.home, m.selected),
        ignore_rules: rules_from(m.deselected, m.selected, m.home, sources),
    }
}

/// Total number of deselected entries.
pub open spec fn excluded_total(d: Seq<(Parts, Seq<Seq<char>>)>) -> nat
    decreases d.len(),
{
    if d.len() == 0 {
        0
    } else {
        excluded_total(d.drop_last()) + d.last().1.len()
    }
}

pub proof fn lemma_find_key(d: Seq<(Parts, Seq<Seq<char>>)>, key: Parts)
    ensures
        match find_key(d, key) {
            Some(i) => 0 <= i < d.len() && d[i].0 == key,
            None => forall|i: int| 0 <= i < d.len() ==> (#[trigger] d[i]).0 != key,
        },
    decreases d.len(),
{
    if d.len() > 0 {
        lemma_find_key(d.drop_last(), key);
        if d.last().0 != key {
            assert forall|i: int| 0 <= i < d.len() - 1 implies (#[trigger] d[i]) == d.drop_last()[i] by {}
        }
    }
}

pub proof fn lemma_ancestor_from(sel: Seq<Parts>, home: Parts, path: Parts, j: int)
    ensures
        match ancestor_from(sel, home, path, j) {
            Some(a) => 0 <= a <= j && sel.contains(path.take(a)),
            None => true,
        },
    decreases j + 1,
{
    if j >= 0 && !sel.contains(path.take(j)) && path.take(j) != home {
        lemma_ancestor_from(sel, home, path, j - 1);
    }
}

pub proof fn lemma_first_match_none(list: Seq<Seq<char>>, rel: Seq<char>)
    requires
        forall|k: int| 0 <= k < list.len() ==> !names(#[trigger] list[k], rel),
    ensures
        first_match(list, rel) == None::<int>,
    decreases list.len(),
{
    if list.len() > 0 {
        let d = list.drop_last();
        assert forall|k: int| 0 <= k < d.len() implies !names(#[trigger] d[k], rel) by {
            assert(d[k] == list[k]);
        }
        lemma_first_match_none(d, rel);
        assert(!names(list[list.len() - 1], rel));
    }
}

pub proof fn lemma_first_match_some(list: Seq<Seq<char>>, rel: Seq<char>, p: int)
    requires
        0 <= p < list.len(),
        names(list[p], rel),
        forall|k: int| 0 <= k < p ==> !names(#[trigger] list[k], rel),
    ensures
        first_match(list, rel) == Some(p),
    decreases list.len(),
{
    let d = list.drop_last();
    if p == list.len() - 1 {
        assert forall|k: int| 0 <= k < d.len() implies !names(#[trigger] d[k], rel) by {
            assert(d[k] == list[k]);
        }
        lemma_first_match_none(d, rel);
    } else {
        assert forall|k: int| 0 <= k < p implies !names(#[trigger] d[k], rel) by {
            assert(d[k] == list[k]);
        }
        assert(d[p] == list[p]);
        lemma_first_match_some(d, rel, p);
    }
}

/// A copy of a path.
pub fn copy_path(p: &PathKey) -> (r: PathKey)
    ensures
        parts_of(r) == parts_of(*p),
{
    let r = path_prefix(p, p.parts.len());
    assert(parts_of(*p).take(p.parts.len() as int) =~= parts_of(*p));
    r
}

/// A copy of a list of strings.
pub fn copy_strings(v: &Vec<String>) -> (r: Vec<String>)
    ensures
        r@ == v@,
{
    let mut r: Vec<String> = Vec::new();
    let mut i: usize = 0;
    while i < v.len()
        invariant
            i <= v.len(),
            r@ == v@.take(i as int),
        decreases v.len() - i,
    {
        r.push(v[i].clone());
        assert(v@.take(i + 1) =~= v@.take(i as int).push(v@[i as int]));
        i = i + 1;
    }
    assert(v@.take(v.len() as int) =~= v@);
    r
}

/// A copy of a list of configured sources.
pub fn copy_sources(v: &Vec<SourceConfig>) -> (r: Vec<SourceConfig>)
    ensures
        r.len() == v.len(),
        forall|i: int| 0 <= i < v.len() ==> (#[trigger] r@[i]).path@ == v@[i].path@ && r@[i].ignore@ == v@[i].ignore@,
{
    let mut r: Vec<SourceConfig> = Vec::new();
    let mut i: usize = 0;
    while i < v.len()
        invariant
            i <= v.len(),
            r.len() == i,
            forall|k: int| 0 <= k < i ==> (#[trigger] r@[k]).path@ == v@[k].path@ && r@[k].ignore@ == v@[k].ignore@,
        decreases v.len() - i,
    {
        r.push(SourceConfig { path: v[i].path.clone(), ignore: copy_strings(&v[i].ignore) });
        i = i + 1;
    }
    r
}

fn copy_deselected(d: &Deselected) -> (r: Deselected)
    ensures
        parts_of(r.ancestor) == parts_of(d.ancestor),
        r.entries@ == d.entries@,
{
    Deselected { ancestor: copy_path(&d.ancestor), entries: copy_strings(&d.entries) }
}

/// Whether a deselected list excludes `rel`.
fn list_excludes(list: &Vec<String>, rel: &String) -> (r: bool)
    ensures
        r == excluded_by(strings_of(list@), rel@),
{
    let ghost s = strings_of(list@);
    let mut rel_dir = rel.clone();
    push_char(&mut rel_dir, '/');
    let mut i: usize = 0;
    while i < list.len()
        invariant
            s == strings_of(list@),
            i <= list.len(),
            rel_dir@ == rel@.push('/'),
            forall|k: int|
                0 <= k < i ==> #[trigger] s[k] != rel@ && s[k] != rel@.push('/') && !(ends_with_slash(s[k])
                    && is_prefix_seq(s[k], rel@)),
        decreases list.len() - i,
    {
        let e = &list[i];
        assert(s[i as int] == e@);
        if same_text(e, rel) || same_text(e, &rel_dir) || (text_ends_with_slash(e) && text_starts_with(
            rel,
            e,
        )) {
            return true;
        }
        i = i + 1;
    }
    assert(!s.contains(rel@));
    assert(!s.contains(rel@.push('/')));
    false
}

/// Position of the first entry of `list` naming `rel`.
fn first_naming(list: &Vec<String>, rel: &String) -> (r: Option<usize>)
    ensures
        match r {
            Some(p) => p < list.len() && first_match(strings_of(list@), rel@) == Some(p as int),
            None => first_match(strings_of(list@), rel@) == None::<int>,
        },
{
    let ghost s = strings_of(list@);
    let mut rel_dir = rel.clone();
    push_char(&mut rel_dir, '/');
    let mut i: usize = 0;
    while i < list.len()
        invariant
            s == strings_of(list@),
            i <= list.len(),
            rel_dir@ == rel@.push('/'),
            forall|k: int| 0 <= k < i ==> !names(#[trigger] s[k], rel@),
        decreases list.len() - i,
    {
        let e = &list[i];
        assert(s[i as int] == e@);
        if same_text(e, rel) || same_text(e, &rel_dir) {
            proof {
                lemma_first_match_some(s, rel@, i as int);
            }
            return Some(i);
        }
        i = i + 1;
    }
    proof {
        lemma_first_match_none(s, rel@);
    }
    None
}

impl SelectionState {
    /// Create an empty selection rooted at the given home directory.
    fn new(home: &PathKey) -> (s: Self)
        ensures
            selection_wf(s@),
            s@.selected.len() == 0,
            s@.deselected.len() == 0,
            s@.home == parts_of(*home),
    {
        SelectionState { selected: Vec::new(), deselected: Vec::new(), home: copy_path(home) }
    }

    fn index_of_selected(&self, path: &PathKey) -> (r: Option<usize>)
        ensures
            match r {
                Some(i) => i < self.selected.len() && self@.selected[i as int] == parts_of(*path),
                None => !self@.selected.contains(parts_of(*path)),
            },
    {
        let ghost sel = self@.selected;
        let mut i: usize = 0;
        while i < self.selected.len()
            invariant
                sel == self@.selected,
                i <= self.selected.len(),
                forall|k: int| 0 <= k < i ==> #[trigger] sel[k] != parts_of(*path),
            decreases self.selected.len() - i,
        {
            assert(sel[i as int] == parts_of(self.selected@[i as int]));
            if same_path(&self.selected[i], path) {
                return Some(i);
            }
            i = i + 1;
        }
        None
    }

    fn index_of_deselected(&self, key: &PathKey) -> (r: Option<usize>)
        ensures
            match r {
                Some(i) => i < self.deselected.len() && find_key(self@.deselected, parts_of(*key)) == Some(
                    i as int,
                ),
                None => find_key(self@.deselected, parts_of(*key)) == None::<int>,
            },
    {
        let ghost d = self@.deselected;
        let mut i = self.deselected.len();
        assert(d.take(i as int) =~= d);
        while i > 0
            invariant
                d == self@.deselected,
                i <= self.deselected.len(),
                find_key(d, parts_of(*key)) == find_key(d.take(i as int), parts_of(*key)),
            decreases i,
        {
            assert(d.take(i as int).drop_last() =~= d.take(i - 1));
            assert(d[i - 1].0 == parts_of(self.deselected@[i - 1].ancestor));
            if same_path(&self.deselected[i - 1].ancestor, key) {
                return Some(i - 1);
            }
            i = i - 1;
        }
        None
    }

    fn selected_ancestor(&self, path: &PathKey) -> (r: Option<usize>)
        ensures
            match r {
                Some(j) => j < path.parts.len() && nearest_ancestor(self@, parts_of(*path)) == Some(
                    j as int,
                ),
                None => nearest_ancestor(self@, parts_of(*path)) == None::<int>,
            },
    {
        let mut k = path.parts.len();
        while k > 0
            invariant
                k <= path.parts.len(),
                nearest_ancestor(self@, parts_of(*path)) == ancestor_from(
                    self@.selected,
                    self@.home,
                    parts_of(*path),
                    k - 1,
                ),
            decreases k,
        {
            let prefix = path_prefix(path, k - 1);
            if self.index_of_selected(&prefix).is_some() {
                return Some(k - 1);
            }
            if same_path(&prefix, &self.home) {
                return None;
            }
            k = k - 1;
        }
        None
    }

    /// Query the check state of an absolute path.
    ///
    /// Walks up the path hierarchy to detect inheritance from a selected
    /// ancestor. A path that appears in the deselected list of its ancestor
    /// is reported as `Unchecked`. If a parent directory of the path is
    /// deselected (directory rule with trailing `/`), all children beneath
    /// it are also `Unchecked`.
    fn is_selected(&self, path: &PathKey) -> (r: CheckState)
        ensures
            r == check_state(self@, parts_of(*path)),
    {
        if self.index_of_selected(path).is_some() {
            return CheckState::Explicit;
        }
        match self.selected_ancestor(path) {
            None => CheckState::Unchecked,
            Some(j) => {
                let anc = path_prefix(path, j);
                match self.index_of_deselected(&anc) {
                    None => CheckState::Inherited,
                    Some(i) => {
                        let rel = join_from(path, j);
                        if list_excludes(&self.deselected[i].entries, &rel) {
                            CheckState::Unchecked
                        } else {
                            CheckState::Inherited
                        }
                    },
                }
            },
        }
    }

    fn remove_selected(&mut self, path: &PathKey)
        ensures
            final(self)@ == (SelectionModel {
                selected: seq_without(old(self)@.selected, parts_of(*path)),
                ..old(self)@
            }),
    {
        let ghost sel = old(self)@.selected;
        let ghost p = parts_of(*path);
        let mut kept: Vec<PathKey> = Vec::new();
        let mut i: usize = 0;
        while i < self.selected.len()
            invariant
                sel == paths_of(self.selected@),
                p == parts_of(*path),
                i <= self.selected.len(),
                paths_of(kept@) == seq_without(sel.take(i as int), p),
            decreases self.selected.len() - i,
        {
            assert(sel.take(i + 1).drop_last() =~= sel.take(i as int));
            assert(sel.take(i + 1).last() == parts_of(self.selected@[i as int]));
            if !same_path(&self.selected[i], path) {
                let ghost before = kept@;
                kept.push(copy_path(&self.selected[i]));
                assert(paths_of(kept@) =~= paths_of(before).push(parts_of(self.selected@[i as int])));
                assert(seq_without(sel.take(i + 1), p) == seq_without(sel.take(i as int), p).push(
                    sel.take(i + 1).last(),
                ));
            } else {
                assert(seq_without(sel.take(i + 1), p) == seq_without(sel.take(i as int), p));
            }
            i = i + 1;
        }
        assert(sel.take(self.selected.len() as int) =~= sel);
        self.selected = kept;
    }

    fn remove_deselected(&mut self, key: &PathKey)
        ensures
            final(self)@ == (SelectionModel {
                deselected: desel_without(old(self)@.deselected, parts_of(*key)),
                ..old(self)@
            }),
    {
        let ghost d = old(self)@.deselected;
        let ghost k = parts_of(*key);
        let mut kept: Vec<Deselected> = Vec::new();
        let mut i: usize = 0;
        while i < self.deselected.len()
            invariant
                d == desel_of(self.deselected@),
                k == parts_of(*key),
                i <= self.deselected.len(),
                desel_of(kept@) == desel_without(d.take(i as int), k),
            decreases self.deselected.len() - i,
        {
            assert(d.take(i + 1).drop_last() =~= d.take(i as int));
            assert(d.take(i + 1).last() == d[i as int]);
            if !same_path(&self.deselected[i].ancestor, key) {
                let ghost before = kept@;
                kept.push(copy_deselected(&self.deselected[i]));
                assert(desel_of(kept@) =~= desel_of(before).push(d[i as int]));
                assert(desel_without(d.take(i + 1), k) == desel_without(d.take(i as int), k).push(
                    d.take(i + 1).last(),
                ));
            } else {
                assert(desel_without(d.take(i + 1), k) == desel_without(d.take(i as int), k));
            }
            i = i + 1;
        }
        assert(d.take(self.deselected.len() as int) =~= d);
        self.deselected = kept;
    }

    /// Take `path` out of its ancestor's deselected list, if it is there.
    fn restore_deselected(&mut self, path: &PathKey) -> (restored: bool)
        ensures
            match restore_target(old(self)@, parts_of(*path)) {
                Some((i, p)) => {
                    let list = old(self)@.deselected[i].1.remove(p);
                    &&& restored
                    &&& final(self)@ == (SelectionModel {
                        deselected: if list.len() == 0 {
                            old(self)@.deselected.remove(i)
                        } else {
                            old(self)@.deselected.update(i, (old(self)@.deselected[i].0, list))
                        },
                        ..old(self)@
                    })
                },
                None => !restored && final(self)@ == old(self)@,
            },
    {
        let j = match self.selected_ancestor(path) {
            None => return false,
            Some(j) => j,
        };
        let anc = path_prefix(path, j);
        let i = match self.index_of_deselected(&anc) {
            None => return false,
            Some(i) => i,
        };
        let rel = join_from(path, j);
        let pos = match first_naming(&self.deselected[i].entries, &rel) {
            None => return false,
            Some(pos) => pos,
        };
        let ghost m = self@;
        let mut entry = copy_deselected(&self.deselected[i]);
        entry.entries.remove(pos);
        assert(strings_of(entry.entries@) =~= m.deselected[i as int].1.remove(pos as int));
        if entry.entries.len() == 0 {
            self.deselected.remove(i);
            assert(desel_of(self.deselected@) =~= m.deselected.remove(i as int));
        } else {
            self.deselected.set(i, entry);
            assert(desel_of(self.deselected@) =~= m.deselected.update(
                i as int,
                (m.deselected[i as int].0, m.deselected[i as int].1.remove(pos as int)),
            ));
        }
        true
    }

    /// Toggle the selection state of an absolute path.
    ///
    /// - `Unchecked` → `Explicit` (add to selected set)
    /// - `Explicit` → `Unchecked` (remove from selected set, clear its deselected list)
    /// - `Inherited` → `Unchecked` (add to ancestor's deselected list)
    /// - `Unchecked` but in deselected list → `Inherited` (remove from deselected list)
    ///
    /// When `is_dir` is true and the path is inherited, the deselected entry
    /// gets a trailing `/` to generate a directory-matching ignore rule.
    fn toggle(&mut self, path: &PathKey, is_dir: bool)
        ensures
            final(self)@ == toggled(old(self)@, parts_of(*path), is_dir),
            selection_wf(old(self)@) ==> selection_wf(final(self)@),
            selection_wf(old(self)@) && check_state(old(self)@, parts_of(*path)) != CheckState::Unchecked
                ==> check_state(final(self)@, parts_of(*path)) == CheckState::Unchecked,
    {
        proof {
            if selection_wf(self@) {
                lemma_toggle_keeps_wf(self@, parts_of(*path), is_dir);
                if check_state(self@, parts_of(*path)) == CheckState::Explicit {
                    lemma_toggle_explicit_unchecks(self@, parts_of(*path), is_dir);
                } else if check_state(self@, parts_of(*path)) == CheckState::Inherited {
                    lemma_toggle_inherited_twice(self@, parts_of(*path), is_dir);
                }
            }
        }
        match self.is_selected(path) {
            CheckState::Explicit => {
                self.remove_selected(path);
                self.remove_deselected(path);
                match self.is_selected(path) {
                    CheckState::Inherited => self.deselect_under_ancestor(path, is_dir),
                    _ => {},
                }
            },
            CheckState::Inherited => self.deselect_under_ancestor(path, is_dir),
            CheckState::Unchecked => {
                let restored = self.restore_deselected(path);
                if !restored {
                    let ghost m = self@;
                    self.selected.push(copy_path(path));
                    assert(paths_of(self.selected@) =~= m.selected.push(parts_of(*path)));
                }
            },
        }
    }

    /// Add an inherited `path` to the deselected list of its nearest
    /// selected ancestor.
    fn deselect_under_ancestor(&mut self, path: &PathKey, is_dir: bool)
        requires
            check_state(old(self)@, parts_of(*path)) == CheckState::Inherited,
        ensures
            final(self)@ == deselected_under_ancestor(old(self)@, parts_of(*path), is_dir),
    {
        if let Some(j) = self.selected_ancestor(path) {
            let anc = path_prefix(path, j);
            let mut rel = join_from(path, j);
            if is_dir && !text_ends_with_slash(&rel) {
                push_char(&mut rel, '/');
            }
            let ghost m = self@;
            match self.index_of_deselected(&anc) {
                Some(i) => {
                    proof {
                        lemma_find_key(m.deselected, parts_of(anc));
                    }
                    let mut entry = copy_deselected(&self.deselected[i]);
                    let ghost before = entry.entries@;
                    entry.entries.push(rel);
                    assert(strings_of(entry.entries@) =~= strings_of(before).push(entry.entries@.last()@));
                    self.deselected.set(i, entry);
                    assert(desel_of(self.deselected@) =~= m.deselected.update(
                        i as int,
                        (parts_of(anc), m.deselected[i as int].1.push(entry.entries@.last()@)),
                    ));
                },
                None => {
                    let mut entries: Vec<String> = Vec::new();
                    entries.push(rel);
                    let ghost e = entries@[0]@;
                    assert(strings_of(entries@) =~= seq![e]);
                    self.deselected.push(Deselected { ancestor: anc, entries });
                    assert(desel_of(self.deselected@) =~= m.deselected.push((parts_of(anc), seq![e])));
                },
            }
        }
    }
}


/// Position of `p` in `v`, if it is there.
fn position_of(v: &Vec<PathKey>, p: &PathKey) -> (r: Option<usize>)
    ensures
        match r {
            Some(i) => i < v.len() && paths_of(v@)[i as int] == parts_of(*p),
            None => !paths_of(v@).contains(parts_of(*p)),
        },
{
    let ghost s = paths_of(v@);
    let mut i: usize = 0;
    while i < v.len()
        invariant
            s == paths_of(v@),
            i <= v.len(),
            forall|k: int| 0 <= k < i ==> #[trigger] s[k] != parts_of(*p),
        decreases v.len() - i,
    {
        assert(s[i as int] == parts_of(v@[i as int]));
        if same_path(&v[i], p) {
            return Some(i);
        }
        i = i + 1;
    }
    None
}

/// Whether `v` holds the text `t`.
pub fn holds_text(v: &Vec<String>, t: &String) -> (r: bool)
    ensures
        r == strings_of(v@).contains(t@),
{
    let ghost s = strings_of(v@);
    let mut i: usize = 0;
    while i < v.len()
        invariant
            s == strings_of(v@),
            i <= v.len(),
            forall|k: int| 0 <= k < i ==> #[trigger] s[k] != t@,
        decreases v.len() - i,
    {
        assert(s[i as int] == v@[i as int]@);
        if same_text(&v[i], t) {
            return true;
        }
        i = i + 1;
    }
    false
}

/// Index of the first source whose path is written `rel`.
fn source_index(sources: &[SourceConfig], rel: &String) -> (r: Option<usize>)
    ensures
        match r {
            Some(i) => i < sources@.len() && first_source(sources@, rel@) == Some(i as int),
            None => first_source(sources@, rel@) == None::<int>,
        },
{
    let mut i: usize = 0;
    while i < sources.len()
        invariant
            i <= sources@.len(),
            first_source(sources@.take(i as int), rel@) == None::<int>,
        decreases sources@.len() - i,
    {
        assert(sources@.take(i + 1).drop_last() =~= sources@.take(i as int));
        if same_text(&sources[i].path, rel) {
            proof {
                lemma_first_source_prefix(sources@, rel@, i as int);
            }
            return Some(i);
        }
        i = i + 1;
    }
    assert(sources@.take(sources@.len() as int) =~= sources@);
    None
}

pub proof fn lemma_first_source_prefix(sources: Seq<SourceConfig>, rel: Seq<char>, i: int)
    requires
        0 <= i < sources.len(),
        first_source(sources.take(i), rel) == None::<int>,
        sources[i].path@ == rel,
    ensures
        first_source(sources, rel) == Some(i),
    decreases sources.len(),
{
    if i == sources.len() - 1 {
        assert(sources.take(i) =~= sources.drop_last());
    } else {
        assert(sources.drop_last().take(i) =~= sources.take(i));
        lemma_first_source_prefix(sources.drop_last(), rel, i);
    }
}

/// Anchored rules for a deselected list, less those already configured.
fn anchored(entries: &Vec<String>, existing: &Vec<String>) -> (r: Vec<String>)
    ensures
        strings_of(r@) == anchored_rules(strings_of(entries@), strings_of(existing@)),
{
    let ghost es = strings_of(entries@);
    let mut out: Vec<String> = Vec::new();
    let mut i: usize = 0;
    while i < entries.len()
        invariant
            es == strings_of(entries@),
            i <= entries.len(),
            strings_of(out@) == anchored_rules(es.take(i as int), strings_of(existing@)),
        decreases entries.len() - i,
    {
        let ghost t = es.take(i + 1);
        assert(t.drop_last() =~= es.take(i as int));
        assert(t.last() == entries@[i as int]@);
        let mut rule = String::new();
        push_char(&mut rule, '/');
        push_str(&mut rule, entries[i].as_str());
        assert(rule@ =~= seq!['/'] + t.last());
        if !holds_text(existing, &rule) {
            let ghost before = out@;
            out.push(rule);
            assert(strings_of(out@) =~= strings_of(before).push(seq!['/'] + t.last()));
        }
        i = i + 1;
    }
    assert(es.take(entries.len() as int) =~= es);
    out
}

/// Sets the rules of `key` in `rs`, adding an entry when there is none.
fn insert_rules(rs: &mut Vec<SourceRules>, key: String, value: Vec<String>)
    ensures
        rules_view(final(rs)@) == rules_insert(rules_view(old(rs)@), key@, strings_of(value@)),
{
    let ghost d = rules_view(rs@);
    let mut i = rs.len();
    assert(d.take(i as int) =~= d);
    while i > 0
        invariant
            d == rules_view(rs@),
            rs@ == old(rs)@,
            i <= rs.len(),
            last_key(d, key@) == last_key(d.take(i as int), key@),
        decreases i,
    {
        assert(d.take(i as int).drop_last() =~= d.take(i - 1));
        assert(d[i - 1].0 == rs@[i - 1].source@);
        if same_text(&rs[i - 1].source, &key) {
            assert(last_key(d.take(i as int), key@) == Some(i - 1));
            let ghost kv = key@;
            let ghost vv = strings_of(value@);
            rs.set(i - 1, SourceRules { source: key, rules: value });
            assert(rules_view(rs@) =~= d.update(i - 1, (kv, vv)));
            return;
        }
        i = i - 1;
    }
    let ghost kv = key@;
    let ghost vv = strings_of(value@);
    rs.push(SourceRules { source: key, rules: value });
    assert(rules_view(rs@) =~= d.push((kv, vv)));
}

impl SelectionState {
    /// Load existing source configuration into the selection state.
    ///
    /// Each configured source becomes an explicitly selected entry.
    fn load_from_config(&mut self, sources: &[SourceConfig])
        ensures
            final(self)@.selected == loaded(old(self)@.home, sources@),
            final(self)@.deselected.len() == 0,
            final(self)@.home == old(self)@.home,
            selection_wf(final(self)@),
    {
        proof {
            lemma_loaded_no_dups(self@.home, sources@);
        }
        self.selected = Vec::new();
        self.deselected = Vec::new();
        let mut i: usize = 0;
        while i < sources.len()
            invariant
                i <= sources@.len(),
                self@.home == old(self)@.home,
                self@.deselected.len() == 0,
                self@.selected == loaded(self@.home, sources@.take(i as int)),
            decreases sources@.len() - i,
        {
            assert(sources@.take(i + 1).drop_last() =~= sources@.take(i as int));
            let abs = join_path(&self.home, sources[i].path.as_str());
            if position_of(&self.selected, &abs).is_none() {
                let ghost before = self@.selected;
                self.selected.push(abs);
                assert(self@.selected =~= before.push(parts_of(abs)));
            }
            i = i + 1;
        }
        assert(sources@.take(sources@.len() as int) =~= sources@);
    }

    /// `p` relative to the home directory.
    fn to_home_relative(&self, p: &PathKey) -> (r: Option<String>)
        ensures
            match r {
                Some(t) => home_relative(self@.home, parts_of(*p)) == Some(t@),
                None => home_relative(self@.home, parts_of(*p)) == None::<Seq<char>>,
            },
    {
        if has_prefix(p, &self.home) {
            Some(join_from(p, self.home.parts.len()))
        } else {
            None
        }
    }

    fn additions(&self, existing: &Vec<PathKey>) -> (r: Vec<String>)
        ensures
            strings_of(r@) == additions_from(self@.selected, self@.home, paths_of(existing@)),
    {
        let ghost sel = self@.selected;
        let mut out: Vec<String> = Vec::new();
        let mut i: usize = 0;
        while i < self.selected.len()
            invariant
                sel == self@.selected,
                i <= self.selected.len(),
                strings_of(out@) == additions_from(sel.take(i as int), self@.home, paths_of(existing@)),
            decreases self.selected.len() - i,
        {
            let ghost t = sel.take(i + 1);
            assert(t.drop_last() =~= sel.take(i as int));
            assert(t.last() == parts_of(self.selected@[i as int]));
            if position_of(existing, &self.selected[i]).is_none() {
                if let Some(rel) = self.to_home_relative(&self.selected[i]) {
                    let ghost before = out@;
                    out.push(rel);
                    assert(strings_of(out@) =~= strings_of(before).push(
                        join_slash(t.last().skip(self@.home.len() as int)),
                    ));
                }
            }
            i = i + 1;
        }
        assert(sel.take(self.selected.len() as int) =~= sel);
        out
    }

    fn removals(&self, sources: &[SourceConfig]) -> (r: Vec<String>)
        ensures
            strings_of(r@) == removals_from(sources@, self@.home, self@.selected),
    {
        let mut out: Vec<String> = Vec::new();
        let mut i: usize = 0;
        while i < sources.len()
            invariant
                i <= sources@.len(),
                strings_of(out@) == removals_from(sources@.take(i as int), self@.home, self@.selected),
            decreases sources@.len() - i,
        {
            let ghost t = sources@.take(i + 1);
            assert(t.drop_last() =~= sources@.take(i as int));
            let abs = join_path(&self.home, sources[i].path.as_str());
            if position_of(&self.selected, &abs).is_none() {
                let ghost before = out@;
                out.push(sources[i].path.clone());
                assert(strings_of(out@) =~= strings_of(before).push(t.last().path@));
            }
            i = i + 1;
        }
        assert(sources@.take(sources@.len() as int) =~= sources@);
        out
    }

    fn new_rules(&self, sources: &[SourceConfig]) -> (r: Vec<SourceRules>)
        ensures
            rules_view(r@) == rules_from(self@.deselected, self@.selected, self@.home, sources@),
    {
        let ghost d = self@.deselected;
        let mut out: Vec<SourceRules> = Vec::new();
        let mut i: usize = 0;
        while i < self.deselected.len()
            invariant
                d == self@.deselected,
                i <= self.deselected.len(),
                rules_view(out@) == rules_from(d.take(i as int), self@.selected, self@.home, sources@),
            decreases self.deselected.len() - i,
        {
            let ghost t = d.take(i + 1);
            assert(t.drop_last() =~= d.take(i as int));
            assert(t.last() == d[i as int]);
            let anc = &self.deselected[i].ancestor;
            if has_prefix(anc, &self.home) && position_of(&self.selected, anc).is_some() {
                let rel = join_from(anc, self.home.parts.len());
                let existing = match source_index(sources, &rel) {
                    Some(k) => copy_strings(&sources[k].ignore),
                    None => Vec::new(),
                };
                assert(strings_of(existing@) == existing_ignores(sources@, rel@));
                let rules = anchored(&self.deselected[i].entries, &existing);
                if rules.len() > 0 {
                    insert_rules(&mut out, rel, rules);
                }
            }
            i = i + 1;
        }
        assert(d.take(self.deselected.len() as int) =~= d);
        out
    }

    /// Compute the diff between the current selection state and the given config.
    ///
    /// Returns additions (new sources), removals (unchecked existing sources),
    /// and new ignore rules to append per source.
    fn diff_against_config(&self, sources: &[SourceConfig]) -> (r: SelectionDiff)
        ensures
            r@ == diffed(self@, sources@),
    {
        let mut existing: Vec<PathKey> = Vec::new();
        let mut i: usize = 0;
        while i < sources.len()
            invariant
                i <= sources@.len(),
                paths_of(existing@) == config_paths(self@.home, sources@).take(i as int),
            decreases sources@.len() - i,
        {
            let ghost before = existing@;
            let ghost cp = config_paths(self@.home, sources@);
            let abs = join_path(&self.home, sources[i].path.as_str());
            assert(parts_of(abs) == cp[i as int]);
            existing.push(abs);
            assert(paths_of(existing@) =~= paths_of(before).push(parts_of(abs)));
            assert(cp.take(i + 1) =~= cp.take(i as int).push(cp[i as int]));
            i = i + 1;
        }
        assert(config_paths(self@.home, sources@).take(sources@.len() as int) =~= config_paths(
            self@.home,
            sources@,
        ));
        let additions = self.additions(&existing);
        let removals = self.removals(sources);
        let ignore_rules = self.new_rules(sources);
        SelectionDiff { additions, removals, ignore_rules }
    }

    /// Check if the diff has any changes.
    fn has_changes(&self, sources: &[SourceConfig]) -> (r: bool)
        ensures
            r == (diffed(self@, sources@).additions.len() > 0 || diffed(self@, sources@).removals.len() > 0
                || diffed(self@, sources@).ignore_rules.len() > 0),
    {
        let diff = self.diff_against_config(sources);
        !diff.additions.is_empty() || !diff.removals.is_empty() || !diff.ignore_rules.is_empty()
    }

    /// Return a summary of the current selection state for display.
    ///
    /// Returns (selected_count, excluded_count) where selected_count is the
    /// number of explicitly selected sources and excluded_count is the total
    /// number of deselected paths across all sources.
    fn summary(&self) -> (r: (usize, usize))
        requires
            excluded_total(self@.deselected) <= usize::MAX,
        ensures
            r.0 == self@.selected.len(),
            r.1 == excluded_total(self@.deselected),
    {
        let ghost d = self@.deselected;
        let mut total: usize = 0;
        let mut i: usize = 0;
        while i < self.deselected.len()
            invariant
                d == self@.deselected,
                excluded_total(d) <= usize::MAX,
                i <= self.deselected.len(),
                total == excluded_total(d.take(i as int)),
            decreases self.deselected.len() - i,
        {
            let ghost t = d.take(i + 1);
            assert(t.drop_last() =~= d.take(i as int));
            proof {
                lemma_excluded_total_prefix(d, i + 1);
            }
            total = total + self.deselected[i].entries.len();
            i = i + 1;
        }
        assert(d.take(self.deselected.len() as int) =~= d);
        (self.selected.len(), total)
    }

    /// Get the home directory.
    fn home(&self) -> (r: &PathKey)
        ensures
            parts_of(*r) == self@.home,
    {
        &self.home
    }
}

impl SourceSelection {
    #[verifier::type_invariant]
    spec fn well_formed(self) -> bool {
        selection_wf(self.state@)
    }

    /// Create an empty selection rooted at the given home directory.
    pub fn new(home: &PathKey) -> (s: Self)
        ensures
            selection_wf(s@),
            s@.selected.len() == 0,
            s@.deselected.len() == 0,
            s@.home == parts_of(*home),
    {
        SourceSelection { state: SelectionState::new(home) }
    }

    /// Query the check state of an absolute path.
    ///
    /// Walks up the path hierarchy to detect inheritance from a selected
    /// ancestor. A path that appears in the deselected list of its ancestor
    /// is reported as `Unchecked`. If a parent directory of the path is
    /// deselected (directory rule with trailing `/`), all children beneath
    /// it are also `Unchecked`.
    pub fn is_selected(&self, path: &PathKey) -> (r: CheckState)
        ensures
            r == check_state(self@, parts_of(*path)),
            selection_wf(self@),
    {
        proof {
            use_type_invariant(self);
        }
        self.state.is_selected(path)
    }

    /// Toggle the selection state of an absolute path.
    ///
    /// - `Unchecked` → `Explicit` (add to selected set)
    /// - `Explicit` → `Unchecked` (remove from selected set, clear its deselected list)
    /// - `Inherited` → `Unchecked` (add to ancestor's deselected list)
    /// - `Unchecked` but in deselected list → `Inherited` (remove from deselected list)
    ///
    /// When `is_dir` is true and the path is inherited, the deselected entry
    /// gets a trailing `/` to generate a directory-matching ignore rule.
    pub fn toggle(&mut self, path: &PathKey, is_dir: bool)
        ensures
            final(self)@ == toggled(old(self)@, parts_of(*path), is_dir),
            selection_wf(old(self)@),
            selection_wf(final(self)@),
            check_state(old(self)@, parts_of(*path)) != CheckState::Unchecked ==> check_state(
                final(self)@,
                parts_of(*path),
            ) == CheckState::Unchecked,
    {
        proof {
            use_type_invariant(&*self);
        }
        let mut state = SelectionState::new(&self.state.home);
        std::mem::swap(&mut state, &mut self.state);
        state.toggle(path, is_dir);
        self.state = state;
    }

    /// Load existing source configuration into the selection state.
    ///
    /// Each configured source becomes an explicitly selected entry.
    pub fn load_from_config(&mut self, sources: &[SourceConfig])
        ensures
            final(self)@.selected == loaded(old(self)@.home, sources@),
            final(self)@.deselected.len() == 0,
            final(self)@.home == old(self)@.home,
            selection_wf(final(self)@),
    {
        let mut state = SelectionState::new(&self.state.home);
        std::mem::swap(&mut state, &mut self.state);
        state.load_from_config(sources);
        self.state = state;
    }

    /// Compute the diff between the current selection state and the given config.
    ///
    /// Returns additions (new sources), removals (unchecked existing sources),
    /// and new ignore rules to append per source.
    pub fn diff_against_config(&self, sources: &[SourceConfig]) -> (r: SelectionDiff)
        ensures
            r@ == diffed(self@, sources@),
            selection_wf(self@),
    {
        proof {
            use_type_invariant(self);
        }
        self.state.diff_against_config(sources)
    }

    /// Check if the diff has any changes.
    pub fn has_changes(&self, sources: &[SourceConfig]) -> (r: bool)
        ensures
            r == (diffed(self@, sources@).additions.len() > 0 || diffed(self@, sources@).removals.len() > 0
                || diffed(self@, sources@).ignore_rules.len() > 0),
    {
        self.state.has_changes(sources)
    }

    /// Return a summary of the current selection state for display.
    ///
    /// Returns (selected_count, excluded_count) where selected_count is the
    /// number of explicitly selected sources and excluded_count is the total
    /// number of deselected paths across all sources.
    pub fn summary(&self) -> (r: (usize, usize))
        requires
            excluded_total(self@.deselected) <= usize::MAX,
        ensures
            r.0 == self@.selected.len(),
            r.1 == excluded_total(self@.deselected),
    {
        self.state.summary()
    }

    /// Get the home directory.
    pub fn home(&self) -> (r: &PathKey)
        ensures
            parts_of(*r) == self@.home,
    {
        self.state.home()
    }
}

pub proof fn lemma_excluded_total_prefix(d: Seq<(Parts, Seq<Seq<char>>)>, n: int)
    requires
        0 <= n <= d.len(),
    ensures
        excluded_total(d.take(n)) <= excluded_total(d),
    decreases d.len(),
{
    if n < d.len() {
        assert(d.drop_last().take(n) =~= d.take(n));
        lemma_excluded_total_prefix(d.drop_last(), n);
    } else {
        assert(d.take(n) =~= d);
    }
}


pub proof fn lemma_push_contains<A>(s: Seq<A>, a: A)
    ensures
        forall|y: A| #[trigger] s.push(a).contains(y) <==> (s.contains(y) || y == a),
{
    assert forall|y: A| #[trigger] s.push(a).contains(y) <==> (s.contains(y) || y == a) by {
        if s.push(a).contains(y) {
            let k = choose|k: int| 0 <= k < s.push(a).len() && s.push(a)[k] == y;
            if k < s.len() {
                assert(s[k] == y);
            }
        }
        if s.contains(y) {
            let k = choose|k: int| 0 <= k < s.len() && s[k] == y;
            assert(s.push(a)[k] == y);
        }
        if y == a {
            assert(s.push(a)[s.len() as int] == y);
        }
    }
}

pub proof fn lemma_push_no_dups<A>(s: Seq<A>, a: A)
    requires
        no_dups(s),
        !s.contains(a),
    ensures
        no_dups(s.push(a)),
{
    let t = s.push(a);
    assert forall|i: int, j: int| 0 <= i < j < t.len() implies t[i] != t[j] by {
        if j == s.len() {
            if t[i] == t[j] {
                assert(s[i] == a);
            }
        } else {
            assert(t[i] == s[i] && t[j] == s[j]);
        }
    }
}

pub proof fn lemma_seq_without<A>(s: Seq<A>, x: A)
    ensures
        forall|y: A| #[trigger] seq_without(s, x).contains(y) <==> (s.contains(y) && y != x),
        no_dups(s) ==> no_dups(seq_without(s, x)),
        !s.contains(x) ==> seq_without(s, x) == s,
    decreases s.len(),
{
    if s.len() > 0 {
        let d = s.drop_last();
        let r = seq_without(d, x);
        lemma_seq_without(d, x);
        assert(s =~= d.push(s.last()));
        lemma_push_contains(d, s.last());
        lemma_push_contains(r, s.last());
        if no_dups(s) {
            assert(no_dups(d)) by {
                assert forall|i: int, j: int| 0 <= i < j < d.len() implies d[i] != d[j] by {
                    assert(s[i] == d[i] && s[j] == d[j]);
                }
            }
            if d.contains(s.last()) {
                let k = choose|k: int| 0 <= k < d.len() && d[k] == s.last();
                assert(s[k] == s[s.len() - 1]);
            }
            if s.last() != x {
                lemma_push_no_dups(r, s.last());
            }
        }
    }
}

pub proof fn lemma_push_unique_keys<K, V>(d: Seq<(K, V)>, e: (K, V))
    requires
        unique_keys(d),
        forall|i: int| 0 <= i < d.len() ==> (#[trigger] d[i]).0 != e.0,
    ensures
        unique_keys(d.push(e)),
{
    let t = d.push(e);
    assert forall|i: int, j: int| 0 <= i < j < t.len() implies (#[trigger] t[i]).0 != (#[trigger] t[j]).0 by {
        if j == d.len() {
            assert(t[i] == d[i]);
        } else {
            assert(t[i] == d[i] && t[j] == d[j]);
        }
    }
}

pub proof fn lemma_desel_without(d: Seq<(Parts, Seq<Seq<char>>)>, k: Parts)
    ensures
        forall|e: (Parts, Seq<Seq<char>>)| #[trigger] desel_without(d, k).contains(e) ==> d.contains(e) && e.0 != k,
        unique_keys(d) ==> unique_keys(desel_without(d, k)),
        (forall|i: int| 0 <= i < d.len() ==> (#[trigger] d[i]).0 != k) ==> desel_without(d, k) == d,
    decreases d.len(),
{
    if d.len() > 0 {
        let h = d.drop_last();
        let r = desel_without(h, k);
        lemma_desel_without(h, k);
        assert(d =~= h.push(d.last()));
        lemma_push_contains(h, d.last());
        lemma_push_contains(r, d.last());
        if unique_keys(d) {
            assert(unique_keys(h)) by {
                assert forall|i: int, j: int| 0 <= i < j < h.len() implies (#[trigger] h[i]).0 != (
                #[trigger] h[j]).0 by {
                    assert(d[i] == h[i] && d[j] == h[j]);
                }
            }
            if d.last().0 != k {
                assert forall|i: int| 0 <= i < r.len() implies (#[trigger] r[i]).0 != d.last().0 by {
                    assert(r.contains(r[i]));
                    let m = choose|m: int| 0 <= m < h.len() && h[m] == r[i];
                    assert(d[m] == h[m]);
                }
                lemma_push_unique_keys(r, d.last());
            }
        }
        if forall|i: int| 0 <= i < d.len() ==> (#[trigger] d[i]).0 != k {
            assert forall|i: int| 0 <= i < h.len() implies (#[trigger] h[i]).0 != k by {
                assert(d[i] == h[i]);
            }
            assert(d[d.len() - 1].0 != k);
        }
    }
}

pub proof fn lemma_first_match_bound(list: Seq<Seq<char>>, rel: Seq<char>)
    ensures
        match first_match(list, rel) {
            Some(p) => 0 <= p < list.len() && names(list[p], rel),
            None => true,
        },
    decreases list.len(),
{
    if list.len() > 0 {
        lemma_first_match_bound(list.drop_last(), rel);
    }
}

pub proof fn lemma_find_key_update(d: Seq<(Parts, Seq<Seq<char>>)>, key: Parts, i: int, v: Seq<Seq<char>>)
    requires
        find_key(d, key) == Some(i),
    ensures
        find_key(d.update(i, (key, v)), key) == Some(i),
    decreases d.len(),
{
    lemma_find_key(d, key);
    let u = d.update(i, (key, v));
    if i < d.len() - 1 {
        assert(u.drop_last() =~= d.drop_last().update(i, (key, v)));
        assert(u.last() == d.last());
        lemma_find_key_update(d.drop_last(), key, i, v);
    }
}

/// Loading leaves no path selected twice.
pub proof fn lemma_loaded_no_dups(home: Parts, sources: Seq<SourceConfig>)
    ensures
        no_dups(loaded(home, sources)),
    decreases sources.len(),
{
    if sources.len() > 0 {
        let rest = loaded(home, sources.drop_last());
        lemma_loaded_no_dups(home, sources.drop_last());
        let p = joined_path(home, sources.last().path@);
        if !rest.contains(p) {
            lemma_push_no_dups(rest, p);
        }
    }
}

/// Every toggle keeps a selection well-formed.
proof fn lemma_unselected_wf(m: SelectionModel, path: Parts)
    requires
        selection_wf(m),
    ensures
        selection_wf(unselected(m, path)),
        !unselected(m, path).selected.contains(path),
{
    let t = unselected(m, path);
    let ts = seq_without(m.selected, path);
    let td = desel_without(m.deselected, path);
    lemma_seq_without(m.selected, path);
    lemma_desel_without(m.deselected, path);
    assert forall|i: int| 0 <= i < td.len() implies ts.contains((#[trigger] td[i]).0) && td[i].1.len() > 0 by {
        assert(td.contains(td[i]));
        assert(m.deselected.contains(td[i]));
        let j = choose|j: int| 0 <= j < m.deselected.len() && m.deselected[j] == td[i];
        assert(m.selected.contains(m.deselected[j].0));
        assert(m.deselected[j].1.len() > 0);
        assert(ts.contains(m.deselected[j].0));
    }
    assert(selection_wf(t));
}

proof fn lemma_deselected_under_ancestor_wf(m: SelectionModel, path: Parts, is_dir: bool)
    requires
        selection_wf(m),
        check_state(m, path) == CheckState::Inherited,
    ensures
        selection_wf(deselected_under_ancestor(m, path, is_dir)),
{
    let t = deselected_under_ancestor(m, path, is_dir);
    let j = nearest_ancestor(m, path)->0;
    lemma_ancestor_from(m.selected, m.home, path, path.len() - 1);
    let anc = path.take(j);
    lemma_find_key(m.deselected, anc);
    match find_key(m.deselected, anc) {
        Some(i) => {
            assert forall|a: int| 0 <= a < t.deselected.len() implies (#[trigger] t.deselected[a]).0
                == m.deselected[a].0 by {}
            assert(selection_wf(t));
        },
        None => {
            let rel = rel_from(path, j);
            let entry = if is_dir && !ends_with_slash(rel) { rel.push('/') } else { rel };
            lemma_push_unique_keys(m.deselected, (anc, seq![entry]));
            assert(selection_wf(t));
        },
    }
}

pub proof fn lemma_toggle_keeps_wf(m: SelectionModel, path: Parts, is_dir: bool)
    requires
        selection_wf(m),
    ensures
        selection_wf(toggled(m, path, is_dir)),
{
    let t = toggled(m, path, is_dir);
    match check_state(m, path) {
        CheckState::Explicit => {
            lemma_unselected_wf(m, path);
            let m1 = unselected(m, path);
            if check_state(m1, path) == CheckState::Inherited {
                lemma_deselected_under_ancestor_wf(m1, path, is_dir);
            }
        },
        CheckState::Inherited => {
            lemma_deselected_under_ancestor_wf(m, path, is_dir);
        },
        CheckState::Unchecked => {
            match restore_target(m, path) {
                Some((i, p)) => {
                    let j = nearest_ancestor(m, path)->0;
                    lemma_find_key(m.deselected, path.take(j));
                    lemma_first_match_bound(m.deselected[i].1, rel_from(path, j));
                    let list = m.deselected[i].1.remove(p);
                    if list.len() == 0 {
                        let d = m.deselected;
                        let r = d.remove(i);
                        assert forall|a: int| 0 <= a < r.len() implies (#[trigger] r[a]) == (if a < i {
                            d[a]
                        } else {
                            d[a + 1]
                        }) by {}
                        assert forall|a: int, b: int| 0 <= a < b < r.len() implies (#[trigger] r[a]).0 != (
                        #[trigger] r[b]).0 by {
                            let a2 = if a < i { a } else { a + 1 };
                            let b2 = if b < i { b } else { b + 1 };
                            assert(r[a] == d[a2] && r[b] == d[b2]);
                        }
                        assert forall|a: int| 0 <= a < r.len() implies m.selected.contains(
                            #[trigger] r[a].0,
                        ) && r[a].1.len() > 0 by {
                            let a2 = if a < i { a } else { a + 1 };
                            assert(r[a] == d[a2]);
                        }
                        assert(selection_wf(t));
                    } else {
                        assert forall|a: int| 0 <= a < t.deselected.len() implies (#[trigger] t.deselected[a]).0
                            == m.deselected[a].0 by {}
                        assert(selection_wf(t));
                    }
                },
                None => {
                    lemma_push_no_dups(m.selected, path);
                    lemma_push_contains(m.selected, path);
                    assert(selection_wf(t));
                },
            }
        },
    }
}

/// Toggling an explicitly selected path leaves it unchecked, also inside
/// another selected source.
pub proof fn lemma_toggle_explicit_unchecks(m: SelectionModel, path: Parts, is_dir: bool)
    requires
        selection_wf(m),
        check_state(m, path) == CheckState::Explicit,
    ensures
        check_state(toggled(m, path, is_dir), path) == CheckState::Unchecked,
{
    lemma_unselected_wf(m, path);
    let m1 = unselected(m, path);
    if check_state(m1, path) == CheckState::Inherited {
        lemma_toggle_inherited_twice(m1, path, is_dir);
    }
}

/// Toggling an inherited path twice gives back the selection it started
/// from: the second toggle takes back the deselected entry the first added.
pub proof fn lemma_toggle_inherited_twice(m: SelectionModel, path: Parts, is_dir: bool)
    requires
        selection_wf(m),
        check_state(m, path) == CheckState::Inherited,
    ensures
        check_state(toggled(m, path, is_dir), path) == CheckState::Unchecked,
        toggled(toggled(m, path, is_dir), path, is_dir) == m,
{
    let m1 = toggled(m, path, is_dir);
    let j = nearest_ancestor(m, path)->0;
    let anc = path.take(j);
    let rel = rel_from(path, j);
    let entry = if is_dir && !ends_with_slash(rel) { rel.push('/') } else { rel };
    assert(names(entry, rel));
    assert(nearest_ancestor(m1, path) == nearest_ancestor(m, path));
    lemma_find_key(m.deselected, anc);
    match find_key(m.deselected, anc) {
        Some(i) => {
            let l = m.deselected[i].1;
            lemma_find_key_update(m.deselected, anc, i, l.push(entry));
            assert(m1.deselected[i].1 == l.push(entry));
            assert(l.push(entry)[l.len() as int] == entry);
            assert(excluded_by(l.push(entry), rel));
            assert(!excluded_by(l, rel));
            assert forall|k: int| 0 <= k < l.len() implies !names(#[trigger] l.push(entry)[k], rel) by {
                assert(l.push(entry)[k] == l[k]);
                if names(l[k], rel) {
                    assert(l.contains(l[k]));
                }
            }
            lemma_first_match_some(l.push(entry), rel, l.len() as int);
            assert(l.push(entry).remove(l.len() as int) =~= l);
            assert(check_state(m1, path) == CheckState::Unchecked);
            assert(restore_target(m1, path) == Some((i, l.len() as int)));
            assert(l.len() > 0);
            assert(m1.deselected.update(i, (anc, l)) =~= m.deselected);
        },
        None => {
            let n = m.deselected.len();
            assert(m1.deselected[n as int] == (anc, seq![entry]));
            assert(find_key(m1.deselected, anc) == Some(n as int));
            assert(seq![entry][0] == entry);
            assert(excluded_by(seq![entry], rel));
            lemma_first_match_some(seq![entry], rel, 0);
            assert(seq![entry].remove(0).len() == 0);
            assert(check_state(m1, path) == CheckState::Unchecked);
            assert(restore_target(m1, path) == Some((n as int, 0int)));
            assert(m1.deselected.remove(n as int) =~= m.deselected);
        },
    }
}

/// Toggling twice a path that is neither selected, nor inside a selected
/// source, nor deselected there, gives back the selection it started from.
pub proof fn lemma_toggle_unchecked_twice(m: SelectionModel, path: Parts, is_dir: bool)
    requires
        selection_wf(m),
        check_state(m, path) == CheckState::Unchecked,
        restore_target(m, path) is None,
    ensures
        check_state(toggled(m, path, is_dir), path) == CheckState::Explicit,
        toggled(toggled(m, path, is_dir), path, is_dir) == m,
{
    let m1 = toggled(m, path, is_dir);
    assert(m1.selected == m.selected.push(path));
    assert(m1.selected[m.selected.len() as int] == path);
    lemma_seq_without(m.selected, path);
    assert(m1.selected.drop_last() =~= m.selected);
    assert(seq_without(m1.selected, path) == seq_without(m.selected, path));
    assert forall|i: int| 0 <= i < m.deselected.len() implies (#[trigger] m.deselected[i]).0 != path by {
        assert(m.selected.contains(m.deselected[i].0));
    }
    lemma_desel_without(m.deselected, path);
}

pub proof fn lemma_loaded_members(home: Parts, sources: Seq<SourceConfig>)
    ensures
        forall|p: Parts| #[trigger] loaded(home, sources).contains(p) <==> config_paths(home, sources).contains(p),
    decreases sources.len(),
{
    if sources.len() > 0 {
        let h = sources.drop_last();
        lemma_loaded_members(home, h);
        let p = joined_path(home, sources.last().path@);
        let rest = loaded(home, h);
        lemma_push_contains(rest, p);
        assert(config_paths(home, sources) =~= config_paths(home, h).push(p));
        lemma_push_contains(config_paths(home, h), p);
    }
}

pub proof fn lemma_additions_none(sel: Seq<Parts>, home: Parts, existing: Seq<Parts>)
    requires
        forall|i: int| 0 <= i < sel.len() ==> existing.contains(#[trigger] sel[i]),
    ensures
        additions_from(sel, home, existing).len() == 0,
    decreases sel.len(),
{
    if sel.len() > 0 {
        let h = sel.drop_last();
        assert forall|i: int| 0 <= i < h.len() implies existing.contains(#[trigger] h[i]) by {
            assert(sel[i] == h[i]);
        }
        lemma_additions_none(h, home, existing);
        assert(existing.contains(sel[sel.len() - 1]));
    }
}

pub proof fn lemma_removals_none(sources: Seq<SourceConfig>, home: Parts, sel: Seq<Parts>)
    requires
        forall|i: int| 0 <= i < sources.len() ==> sel.contains(joined_path(home, #[trigger] sources[i].path@)),
    ensures
        removals_from(sources, home, sel).len() == 0,
    decreases sources.len(),
{
    if sources.len() > 0 {
        let h = sources.drop_last();
        assert forall|i: int| 0 <= i < h.len() implies sel.contains(joined_path(home, #[trigger] h[i].path@)) by {
            assert(sources[i] == h[i]);
        }
        lemma_removals_none(h, home, sel);
        assert(sel.contains(joined_path(home, sources[sources.len() - 1].path@)));
    }
}

/// A selection freshly loaded from a configuration is well-formed and has
/// nothing to change in it.
pub proof fn lemma_load_has_no_changes(home: Parts, sources: Seq<SourceConfig>)
    ensures
        ({
            let m = SelectionModel { selected: loaded(home, sources), deselected: Seq::empty(), home };
            &&& selection_wf(m)
            &&& diffed(m, sources).additions.len() == 0
            &&& diffed(m, sources).removals.len() == 0
            &&& diffed(m, sources).ignore_rules.len() == 0
        }),
{
    let sel = loaded(home, sources);
    let cp = config_paths(home, sources);
    lemma_loaded_no_dups(home, sources);
    lemma_loaded_members(home, sources);
    assert forall|i: int| 0 <= i < sel.len() implies cp.contains(#[trigger] sel[i]) by {
        assert(sel.contains(sel[i]));
    }
    lemma_additions_none(sel, home, cp);
    assert forall|i: int| 0 <= i < sources.len() implies sel.contains(joined_path(home, #[trigger] sources[i].path@)) by {
        assert(cp[i] == joined_path(home, sources[i].path@));
        assert(cp.contains(cp[i]));
    }
    lemma_removals_none(sources, home, sel);
}

/// What "selected" means for a path: explicitly selected when it is a
/// source; otherwise unchecked when no source above it (up to the home
/// directory) is selected; otherwise unchecked when that nearest source's
/// deselected list names it, or a deselected directory there holds it;
/// otherwise inherited from that source.
pub proof fn lemma_check_state_meaning(m: SelectionModel, path: Parts)
    ensures
        m.selected.contains(path) ==> check_state(m, path) == CheckState::Explicit,
        !m.selected.contains(path) && nearest_ancestor(m, path) is None ==> check_state(m, path)
            == CheckState::Unchecked,
        !m.selected.contains(path) ==> (nearest_ancestor(m, path) matches Some(j) ==> {
            let rel = rel_from(path, j);
            let listed = match find_key(m.deselected, path.take(j)) {
                Some(i) => {
                    let list = m.deselected[i].1;
                    ||| list.contains(rel)
                    ||| list.contains(rel.push('/'))
                    ||| exists|k: int|
                        0 <= k < list.len() && ends_with_slash(list[k]) && is_prefix_seq(#[trigger] list[k], rel)
                },
                None => false,
            };
            check_state(m, path) == if listed { CheckState::Unchecked } else { CheckState::Inherited }
        }),
{
}

/// Toggling twice gives back the selection it started from, for a path
/// that is inherited, or unchecked and not deselected under a source. Every
/// `SourceSelection` is well formed, as `toggle` and `is_selected` state.
pub proof fn lemma_toggle_twice(m: SelectionModel, path: Parts, is_dir: bool)
    requires
        selection_wf(m),
        check_state(m, path) == CheckState::Inherited || (check_state(m, path) == CheckState::Unchecked
            && restore_target(m, path) is None),
    ensures
        toggled(toggled(m, path, is_dir), path, is_dir) == m,
{
    if check_state(m, path) == CheckState::Inherited {
        lemma_toggle_inherited_twice(m, path, is_dir);
    } else {
        lemma_toggle_unchecked_twice(m, path, is_dir);
    }
}

/// What loading a configuration gives: every configured source is
/// selected explicitly and nothing else is; a path inside a source is
/// inherited; a path that is neither a source nor inside one is unchecked;
/// nothing is deselected, the selection is well formed and no change is
/// pending against the configuration it came from.
pub proof fn lemma_loaded_selection(home: Parts, sources: Seq<SourceConfig>, p: Parts)
    ensures
        ({
            let m = SelectionModel { selected: loaded(home, sources), deselected: Seq::empty(), home };
            let cp = config_paths(home, sources);
            &&& m.selected.contains(p) <==> cp.contains(p)
            &&& cp.contains(p) ==> check_state(m, p) == CheckState::Explicit
            &&& !cp.contains(p) && nearest_ancestor(m, p) is Some ==> check_state(m, p) == CheckState::Inherited
            &&& !cp.contains(p) && (forall|j: int| 0 <= j < p.len() ==> !cp.contains(#[trigger] p.take(j)))
                ==> check_state(m, p) == CheckState::Unchecked
            &&& selection_wf(m)
            &&& diffed(m, sources).additions.len() == 0
            &&& diffed(m, sources).removals.len() == 0
            &&& diffed(m, sources).ignore_rules.len() == 0
        }),
{
    let m = SelectionModel { selected: loaded(home, sources), deselected: Seq::empty(), home };
    lemma_loaded_members(home, sources);
    lemma_load_has_no_changes(home, sources);
    lemma_ancestor_from(m.selected, home, p, p.len() - 1);
}

/// A selected path is added when it is not configured yet and lies under
/// the home directory; it is written relative to home.
pub open spec fn added_for(sel: Seq<Parts>, home: Parts, existing: Seq<Parts>, r: Seq<char>, i: int) -> bool {
    &&& 0 <= i < sel.len()
    &&& !existing.contains(sel[i])
    &&& is_prefix_seq(home, sel[i])
    &&& r == join_slash(sel[i].skip(home.len() as int))
}

/// A configured source is removed when its path is no longer selected.
pub open spec fn removed_for(sources: Seq<SourceConfig>, home: Parts, sel: Seq<Parts>, r: Seq<char>, i: int) -> bool {
    &&& 0 <= i < sources.len()
    &&& !sel.contains(joined_path(home, sources[i].path@))
    &&& r == sources[i].path@
}

proof fn lemma_additions_members(sel: Seq<Parts>, home: Parts, existing: Seq<Parts>)
    ensures
        forall|r: Seq<char>|
            #[trigger] additions_from(sel, home, existing).contains(r) <==> exists|i: int|
                added_for(sel, home, existing, r, i),
    decreases sel.len(),
{
    if sel.len() > 0 {
        let h = sel.drop_last();
        lemma_additions_members(h, home, existing);
        let rest = additions_from(h, home, existing);
        let a = additions_from(sel, home, existing);
        assert forall|r: Seq<char>| #[trigger] a.contains(r) <==> exists|i: int| added_for(sel, home, existing, r, i) by {
            if a.contains(r) {
                let k = choose|k: int| 0 <= k < a.len() && a[k] == r;
                if k < rest.len() {
                    assert(rest.contains(r));
                    let i = choose|i: int| added_for(h, home, existing, r, i);
                    assert(added_for(sel, home, existing, r, i));
                } else {
                    assert(added_for(sel, home, existing, r, sel.len() - 1));
                }
            }
            if exists|i: int| added_for(sel, home, existing, r, i) {
                let i = choose|i: int| added_for(sel, home, existing, r, i);
                if i < h.len() {
                    assert(added_for(h, home, existing, r, i));
                    assert(rest.contains(r));
                    let k = choose|k: int| 0 <= k < rest.len() && rest[k] == r;
                    assert(a[k] == r);
                } else {
                    assert(a[a.len() - 1] == r);
                }
            }
        }
    }
}

proof fn lemma_removals_members(sources: Seq<SourceConfig>, home: Parts, sel: Seq<Parts>)
    ensures
        forall|r: Seq<char>|
            #[trigger] removals_from(sources, home, sel).contains(r) <==> exists|i: int|
                removed_for(sources, home, sel, r, i),
    decreases sources.len(),
{
    if sources.len() > 0 {
        let h = sources.drop_last();
        lemma_removals_members(h, home, sel);
        let rest = removals_from(h, home, sel);
        let a = removals_from(sources, home, sel);
        assert forall|r: Seq<char>| #[trigger] a.contains(r) <==> exists|i: int| removed_for(sources, home, sel, r, i) by {
            if a.contains(r) {
                let k = choose|k: int| 0 <= k < a.len() && a[k] == r;
                if k < rest.len() {
                    assert(rest.contains(r));
                    let i = choose|i: int| removed_for(h, home, sel, r, i);
                    assert(removed_for(sources, home, sel, r, i));
                } else {
                    assert(removed_for(sources, home, sel, r, sources.len() - 1));
                }
            }
            if exists|i: int| removed_for(sources, home, sel, r, i) {
                let i = choose|i: int| removed_for(sources, home, sel, r, i);
                if i < h.len() {
                    assert(removed_for(h, home, sel, r, i));
                    assert(rest.contains(r));
                    let k = choose|k: int| 0 <= k < rest.len() && rest[k] == r;
                    assert(a[k] == r);
                } else {
                    assert(a[a.len() - 1] == r);
                }
            }
        }
    }
}

/// What the diff against the configuration holds, as sets: an addition
/// for each selected path under home that is not configured yet (written
/// relative to home), and a removal for each configured source whose path
/// is no longer selected.
pub proof fn lemma_diff_meaning(m: SelectionModel, sources: Seq<SourceConfig>, r: Seq<char>)
    ensures
        diffed(m, sources).additions.contains(r) <==> exists|i: int|
            added_for(m.selected, m.home, config_paths(m.home, sources), r, i),
        diffed(m, sources).removals.contains(r) <==> exists|i: int| removed_for(sources, m.home, m.selected, r, i),
{
    lemma_additions_members(m.selected, m.home, config_paths(m.home, sources));
    lemma_removals_members(sources, m.home, m.selected);
}


/// The deselected entry at `j` gives new rules for the source written `k`:
/// its source lies under home and stays selected, is written `k` relative to
/// home, and has deselected paths whose anchored rules are not configured yet.
pub open spec fn rules_entry(
    d: Seq<(Parts, Seq<Seq<char>>)>,
    sel: Seq<Parts>,
    home: Parts,
    sources: Seq<SourceConfig>,
    k: Seq<char>,
    j: int,
) -> bool {
    &&& 0 <= j < d.len()
    &&& is_prefix_seq(home, d[j].0)
    &&& sel.contains(d[j].0)
    &&& join_slash(d[j].0.skip(home.len() as int)) == k
    &&& anchored_rules(d[j].1, existing_ignores(sources, k)).len() > 0
}

/// Whether some entry of `r` is keyed `k`.
pub open spec fn keyed<V>(r: Seq<(Seq<char>, V)>, k: Seq<char>) -> bool {
    exists|i: int| 0 <= i < r.len() && #[trigger] r[i].0 == k
}

/// Whether some deselected entry gives new rules for the source written `k`.
pub open spec fn gives_rules(
    d: Seq<(Parts, Seq<Seq<char>>)>,
    sel: Seq<Parts>,
    home: Parts,
    sources: Seq<SourceConfig>,
    k: Seq<char>,
) -> bool {
    exists|j: int| #[trigger] rules_entry(d, sel, home, sources, k, j)
}

/// The entry `e` of new rules comes from the last deselected entry that
/// gives rules for its source, and holds that entry's anchored rules.
pub open spec fn last_rules_for(
    d: Seq<(Parts, Seq<Seq<char>>)>,
    sel: Seq<Parts>,
    home: Parts,
    sources: Seq<SourceConfig>,
    e: (Seq<char>, Seq<Seq<char>>),
) -> bool {
    exists|j: int|
        #[trigger] rules_entry(d, sel, home, sources, e.0, j) && e.1 == anchored_rules(
            d[j].1,
            existing_ignores(sources, e.0),
        ) && forall|j2: int| j < j2 < d.len() ==> !rules_entry(d, sel, home, sources, e.0, j2)
}

proof fn lemma_last_key<K, V>(rs: Seq<(K, V)>, key: K)
    ensures
        match last_key(rs, key) {
            Some(i) => 0 <= i < rs.len() && rs[i].0 == key,
            None => forall|i: int| 0 <= i < rs.len() ==> (#[trigger] rs[i]).0 != key,
        },
    decreases rs.len(),
{
    if rs.len() > 0 && rs.last().0 != key {
        lemma_last_key(rs.drop_last(), key);
        if last_key(rs.drop_last(), key) is None {
            assert forall|i: int| 0 <= i < rs.len() implies (#[trigger] rs[i]).0 != key by {
                if i < rs.len() - 1 {
                    assert(rs[i] == rs.drop_last()[i]);
                }
            }
        }
    }
}

proof fn lemma_rules_from_entries(
    d: Seq<(Parts, Seq<Seq<char>>)>,
    sel: Seq<Parts>,
    home: Parts,
    sources: Seq<SourceConfig>,
)
    ensures
        ({
            let r = rules_from(d, sel, home, sources);
            &&& unique_keys(r)
            &&& forall|k: Seq<char>|
                #[trigger] keyed(r, k) <==> gives_rules(d, sel, home, sources, k)
            &&& forall|i: int| 0 <= i < r.len() ==> #[trigger] last_rules_for(d, sel, home, sources, r[i])
        }),
    decreases d.len(),
{
    if d.len() > 0 {
        let h = d.drop_last();
        lemma_rules_from_entries(h, sel, home, sources);
        let rest = rules_from(h, sel, home, sources);
        let r = rules_from(d, sel, home, sources);
        let jl = d.len() - 1;
        let anc = d.last().0;
        let rel = join_slash(anc.skip(home.len() as int));
        let nr = anchored_rules(d.last().1, existing_ignores(sources, rel));
        let qualifies = is_prefix_seq(home, anc) && sel.contains(anc) && nr.len() > 0;
        assert forall|k: Seq<char>, j: int| 0 <= j < jl implies #[trigger] rules_entry(d, sel, home, sources, k, j)
            == rules_entry(h, sel, home, sources, k, j) by {
            assert(d[j] == h[j]);
        }
        assert forall|k: Seq<char>| #[trigger] rules_entry(d, sel, home, sources, k, jl) <==> (qualifies && k == rel) by {
        }
        if !qualifies {
            assert(r == rest);
            assert forall|k: Seq<char>|
                #[trigger] keyed(r, k) <==> gives_rules(d, sel, home, sources, k) by {
                assert(keyed(rest, k) <==> gives_rules(h, sel, home, sources, k));
                if gives_rules(d, sel, home, sources, k) {
                    let j = choose|j: int| #[trigger] rules_entry(d, sel, home, sources, k, j);
                    assert(rules_entry(h, sel, home, sources, k, j));
                }
                if keyed(r, k) {
                    let j = choose|j: int| #[trigger] rules_entry(h, sel, home, sources, k, j);
                    assert(rules_entry(d, sel, home, sources, k, j));
                }
            }
            assert forall|i: int| 0 <= i < r.len() implies #[trigger] last_rules_for(d, sel, home, sources, r[i]) by {
                assert(last_rules_for(h, sel, home, sources, rest[i]));
                let j = choose|j: int|
                    #[trigger] rules_entry(h, sel, home, sources, rest[i].0, j) && rest[i].1 == anchored_rules(
                        h[j].1,
                        existing_ignores(sources, rest[i].0),
                    ) && forall|j2: int| j < j2 < h.len() ==> !rules_entry(h, sel, home, sources, rest[i].0, j2);
                assert(rules_entry(d, sel, home, sources, r[i].0, j));
                assert(d[j] == h[j]);
                assert forall|j2: int| j < j2 < d.len() implies !rules_entry(d, sel, home, sources, r[i].0, j2) by {
                    if j2 < jl {
                        assert(!rules_entry(h, sel, home, sources, rest[i].0, j2));
                    }
                }
            }
        } else {
            lemma_last_key(rest, rel);
            let pos = match last_key(rest, rel) {
                Some(i0) => i0,
                None => rest.len() as int,
            };
            assert(r == rules_insert(rest, rel, nr));
            assert(r.len() == if pos < rest.len() { rest.len() } else { rest.len() + 1 });
            assert(r[pos] == (rel, nr));
            assert forall|i: int| 0 <= i < r.len() && i != pos implies #[trigger] r[i] == rest[i] && rest[i].0 != rel by {
                if pos < rest.len() {
                    assert(unique_keys(rest));
                    if i < pos {
                        assert(rest[i].0 != rest[pos].0);
                    } else {
                        assert(rest[pos].0 != rest[i].0);
                    }
                }
            }
            assert(unique_keys(r)) by {
                assert forall|a: int, b: int| 0 <= a < b < r.len() implies (#[trigger] r[a]).0 != (#[trigger] r[b]).0 by {
                    if a != pos && b != pos {
                        assert(rest[a].0 != rest[b].0);
                    }
                }
            }
            assert forall|k: Seq<char>|
                #[trigger] keyed(r, k) <==> gives_rules(d, sel, home, sources, k) by {
                if k == rel {
                    assert(r[pos].0 == k);
                    assert(rules_entry(d, sel, home, sources, k, jl));
                } else {
                    assert(keyed(rest, k) <==> gives_rules(h, sel, home, sources, k));
                    if gives_rules(d, sel, home, sources, k) {
                        let j = choose|j: int| #[trigger] rules_entry(d, sel, home, sources, k, j);
                        assert(j != jl);
                        assert(rules_entry(h, sel, home, sources, k, j));
                        let i = choose|i: int| 0 <= i < rest.len() && #[trigger] rest[i].0 == k;
                        assert(i != pos);
                        assert(r[i].0 == k);
                    }
                    if keyed(r, k) {
                        let i = choose|i: int| 0 <= i < r.len() && #[trigger] r[i].0 == k;
                        assert(i != pos);
                        assert(rest[i].0 == k);
                        let j = choose|j: int| #[trigger] rules_entry(h, sel, home, sources, k, j);
                        assert(rules_entry(d, sel, home, sources, k, j));
                    }
                }
            }
            assert forall|i: int| 0 <= i < r.len() implies #[trigger] last_rules_for(d, sel, home, sources, r[i]) by {
                if i == pos {
                    assert(rules_entry(d, sel, home, sources, r[i].0, jl));
                } else {
                    let k = rest[i].0;
                    assert(last_rules_for(h, sel, home, sources, rest[i]));
                    let j = choose|j: int|
                        #[trigger] rules_entry(h, sel, home, sources, k, j) && rest[i].1 == anchored_rules(
                            h[j].1,
                            existing_ignores(sources, k),
                        ) && forall|j2: int| j < j2 < h.len() ==> !rules_entry(h, sel, home, sources, k, j2);
                    assert(rules_entry(d, sel, home, sources, k, j));
                    assert(d[j] == h[j]);
                    assert forall|j2: int| j < j2 < d.len() implies !rules_entry(d, sel, home, sources, k, j2) by {
                        if j2 < jl {
                            assert(!rules_entry(h, sel, home, sources, k, j2));
                        }
                    }
                }
            }
        }
    }
}

/// What the new ignore rules of a diff hold: one entry per source, never
/// two; a source gets an entry exactly when some deselected list of a
/// source that is still selected, under home and written that way relative
/// to home, yields rules not configured yet; and the entry holds those
/// rules (each deselected path with a leading `/`, less the rules the
/// source already has), from the last such list.
pub proof fn lemma_diff_rules_meaning(m: SelectionModel, sources: Seq<SourceConfig>)
    ensures
        ({
            let r = diffed(m, sources).ignore_rules;
            &&& unique_keys(r)
            &&& forall|k: Seq<char>|
                #[trigger] keyed(r, k) <==> gives_rules(m.deselected, m.selected, m.home, sources, k)
            &&& forall|i: int|
                0 <= i < r.len() ==> #[trigger] last_rules_for(m.deselected, m.selected, m.home, sources, r[i])
        }),
{
    lemma_rules_from_entries(m.deselected, m.selected, m.home, sources);
}


proof fn lemma_toggle_restores(m: SelectionModel, path: Parts, is_dir: bool)
    requires
        selection_wf(m),
        check_state(m, path) == CheckState::Unchecked,
        restore_target(m, path) is Some,
    ensures
        ({
            let j = nearest_ancestor(m, path)->0;
            let (i, p) = restore_target(m, path)->0;
            let list = m.deselected[i].1.remove(p);
            check_state(toggled(m, path, is_dir), path) == if excluded_by(list, rel_from(path, j)) {
                CheckState::Unchecked
            } else {
                CheckState::Inherited
            }
        }),
{
    let m1 = toggled(m, path, is_dir);
    let j = nearest_ancestor(m, path)->0;
    let anc = path.take(j);
    let (i, p) = restore_target(m, path)->0;
    let list = m.deselected[i].1.remove(p);
    lemma_find_key(m.deselected, anc);
    assert(nearest_ancestor(m1, path) == nearest_ancestor(m, path));
    assert(!m1.selected.contains(path));
    if list.len() == 0 {
        let d = m.deselected.remove(i);
        lemma_find_key(d, anc);
        if find_key(d, anc) is Some {
            let k = find_key(d, anc)->0;
            if k < i {
                assert(d[k] == m.deselected[k]);
                assert(m.deselected[k].0 != m.deselected[i].0);
            } else {
                assert(d[k] == m.deselected[k + 1]);
                assert(m.deselected[i].0 != m.deselected[k + 1].0);
            }
        }
        assert(!excluded_by(list, rel_from(path, j)));
    } else {
        lemma_find_key_update(m.deselected, anc, i, list);
        assert(m1.deselected[i].1 == list);
    }
}

/// What one toggle does to the path toggled, with `a` its nearest selected
/// ancestor (searching up to home) and `rel` the path relative to `a`: an
/// explicit path ends unchecked; an inherited one ends unchecked, with its
/// entry (`rel`, with a `/` after it for a directory) added to the end of
/// `a`'s deselected list; an unchecked one named in `a`'s list is taken out
/// of it, and ends inherited unless the rest of the list still excludes it;
/// any other unchecked path ends explicitly selected.
pub proof fn lemma_toggle_outcome(m: SelectionModel, path: Parts, is_dir: bool)
    requires
        selection_wf(m),
    ensures
        ({
            let t = toggled(m, path, is_dir);
            let j = nearest_ancestor(m, path)->0;
            let anc = path.take(j);
            let rel = rel_from(path, j);
            let entry = if is_dir && !ends_with_slash(rel) { rel.push('/') } else { rel };
            let before = match find_key(m.deselected, anc) {
                Some(i) => m.deselected[i].1,
                None => Seq::empty(),
            };
            &&& check_state(m, path) == CheckState::Explicit ==> check_state(t, path) == CheckState::Unchecked
            &&& check_state(m, path) == CheckState::Inherited ==> {
                &&& check_state(t, path) == CheckState::Unchecked
                &&& find_key(t.deselected, anc) matches Some(k) && t.deselected[k].1 == before.push(entry)
            }
            &&& check_state(m, path) == CheckState::Unchecked ==> match restore_target(m, path) {
                Some((i, p)) => {
                    &&& names(m.deselected[i].1[p], rel)
                    &&& check_state(t, path) == if excluded_by(m.deselected[i].1.remove(p), rel) {
                        CheckState::Unchecked
                    } else {
                        CheckState::Inherited
                    }
                },
                None => check_state(t, path) == CheckState::Explicit,
            }
        }),
{
    let t = toggled(m, path, is_dir);
    let j = nearest_ancestor(m, path)->0;
    let anc = path.take(j);
    match check_state(m, path) {
        CheckState::Explicit => lemma_toggle_explicit_unchecks(m, path, is_dir),
        CheckState::Inherited => {
            lemma_toggle_inherited_twice(m, path, is_dir);
            lemma_find_key(m.deselected, anc);
            match find_key(m.deselected, anc) {
                Some(i) => {
                    lemma_find_key_update(m.deselected, anc, i, m.deselected[i].1.push(
                        if is_dir && !ends_with_slash(rel_from(path, j)) {
                            rel_from(path, j).push('/')
                        } else {
                            rel_from(path, j)
                        },
                    ));
                },
                None => {
                    let n = m.deselected.len();
                    assert(t.deselected[n as int].0 == anc);
                    lemma_find_key(t.deselected, anc);
                    assert(find_key(t.deselected, anc) == Some(n as int));
                    assert(Seq::<Seq<char>>::empty().push(t.deselected[n as int].1[0]) =~= t.deselected[n as int].1);
                },
            }
        },
        CheckState::Unchecked => {
            match restore_target(m, path) {
                Some((i, p)) => {
                    lemma_find_key(m.deselected, anc);
                    lemma_first_match_bound(m.deselected[i].1, rel_from(path, j));
                    lemma_toggle_restores(m, path, is_dir);
                },
                None => lemma_toggle_unchecked_twice(m, path, is_dir),
            }
        },
    }
}


/// Loading depends on the sources' paths alone.
pub proof fn lemma_loaded_same_paths(home: Parts, a: Seq<SourceConfig>, b: Seq<SourceConfig>)
    requires
        a.len() == b.len(),
        forall|i: int| 0 <= i < a.len() ==> (#[trigger] a[i]).path@ == b[i].path@,
    ensures
        loaded(home, a) == loaded(home, b),
    decreases a.len(),
{
    if a.len() > 0 {
        assert forall|i: int| 0 <= i < a.len() - 1 implies (#[trigger] a.drop_last()[i]).path@ == b.drop_last()[i].path@ by {
            assert(a.drop_last()[i] == a[i] && b.drop_last()[i] == b[i]);
        }
        lemma_loaded_same_paths(home, a.drop_last(), b.drop_last());
        assert(a.last().path@ == b.last().path@);
    }
}

} // verus!
