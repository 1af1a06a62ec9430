//! The words of the sources screen: the selection summary under the
//! browser, the source rows and their click areas, the questions, and the
//! complete list of pending changes before they are applied.

use vstd::prelude::*;

use crate::chars::{decimal, owned, push_str};
use crate::namespaces::{name_less, name_lt};
use crate::overview::Tone;
use crate::panes::{notes_view, Note};
use crate::pointer::{line_regions, row_at, ClickAction, PointerMap, Rect, Region};
use crate::selection::{excluded_total, SelectionDiff, SourceRules, SourceSelection};
use crate::shell::{comma_joined, App};
use crate::text::truncated;

verus! {

fn note(text: String, tone: Tone) -> (n: Note)
    ensures
        n.text@ == text@,
        n.tone == tone,
{
    Note { text, tone }
}

/// What the line under the sources browser says of the selection.
pub open spec fn summary_text(sel: Option<SourceSelection>) -> Seq<char> {
    match sel {
        None => " Selection not initialized"@,
        Some(s) => if excluded_total(s@.deselected) > 0 {
            " "@ + decimal(s@.selected.len()) + " sources, "@ + decimal(excluded_total(s@.deselected))
                + " excluded"@
        } else {
            " "@ + decimal(s@.selected.len()) + " sources selected"@
        },
    }
}

pub fn selection_summary(sel: &Option<SourceSelection>) -> (r: String)
    requires
        sel matches Some(s) ==> excluded_total(s@.deselected) <= usize::MAX,
    ensures
        r@ == summary_text(*sel),
{
    match sel {
        None => owned(" Selection not initialized"),
        Some(s) => {
            let (selected, excluded) = s.summary();
            if excluded > 0 {
                let mut t = crate::shell::count_text(" ", selected, " sources, ");
                let tail = crate::shell::count_text("", excluded, " excluded");
                push_str(&mut t, tail.as_str());
                proof {
                    reveal_strlit("");
                    assert(""@ =~= Seq::<char>::empty());
                }
                assert(t@ =~= summary_text(*sel));
                t
            } else {
                crate::shell::count_text(" ", selected, " sources selected")
            }
        },
    }
}

/// What the empty source list suggests.
pub fn empty_sources_hint(configured: bool) -> (r: &'static str)
    ensures
        configured ==> r@ == "  Press a to add a source and begin backing up files."@,
        !configured ==> r@ == "  Select and validate a repository before adding sources."@,
{
    if configured {
        "  Press a to add a source and begin backing up files."
    } else {
        "  Select and validate a repository before adding sources."
    }
}

/// A configured source as its row reads.
#[derive(Debug)]
pub struct SourceRow {
    pub selected: bool,
    pub path: String,
    /// `"  (n ignore rules)"` for a source with rules.
    pub rules: Option<String>,
}

/// The source rows of the list drawn in `inner`, after three heading
/// rows; each answers clicks on its own line.
pub fn source_rows(a: &App, inner: Rect, map: &mut PointerMap) -> (r: Vec<SourceRow>)
    ensures
        match a.config {
            Some(c) => r.len() == c.sources.len() && forall|i: int|
                0 <= i < r.len() ==> {
                    &&& (#[trigger] r@[i]).selected == (i == a.sources_screen.selected)
                    &&& r@[i].path@ == c.sources@[i].path@
                    &&& (c.sources@[i].ignore.len() > 0 ==> (r@[i].rules matches Some(t) && t@ == "  ("@ + decimal(
                        c.sources@[i].ignore.len() as nat,
                    ) + " ignore rules)"@))
                    &&& (c.sources@[i].ignore.len() == 0 ==> r@[i].rules is None)
                },
            None => r.len() == 0,
        },
        final(map)@ == old(map)@ + line_regions(inner, 3, r.len() as nat, |k: int| ClickAction::Source(k as usize)),
{
    let mut rows: Vec<SourceRow> = Vec::new();
    match &a.config {
        None => {
            assert(line_regions(inner, 3, 0, |k: int| ClickAction::Source(k as usize)) =~= Seq::<Region>::empty());
            assert(map@ + Seq::<Region>::empty() =~= map@);
            rows
        },
        Some(c) => {
            let mut i: usize = 0;
            let mut y = inner.y.saturating_add(3);
            while i < c.sources.len()
                invariant
                    a.config == Some(*c),
                    i <= c.sources.len(),
                    rows.len() == i,
                    y == row_at(inner, 3 + i),
                    map@ == old(map)@ + line_regions(inner, 3, i as nat, |k: int| ClickAction::Source(k as usize)),
                    forall|k: int|
                        0 <= k < i ==> {
                            &&& (#[trigger] rows@[k]).selected == (k == a.sources_screen.selected)
                            &&& rows@[k].path@ == c.sources@[k].path@
                            &&& (c.sources@[k].ignore.len() > 0 ==> (rows@[k].rules matches Some(t) && t@ == "  ("@
                                + decimal(c.sources@[k].ignore.len() as nat) + " ignore rules)"@))
                            &&& (c.sources@[k].ignore.len() == 0 ==> rows@[k].rules is None)
                        },
                decreases c.sources.len() - i,
            {
                let ghost before = map@;
                map.click(Rect::new(inner.x, y, inner.width, 1), ClickAction::Source(i));
                assert(old(map)@ + line_regions(inner, 3, (i + 1) as nat, |k: int| ClickAction::Source(k as usize))
                    =~= map@);
                y = y.saturating_add(1);
                let src = &c.sources[i];
                let rules = if src.ignore.len() > 0 {
                    Some(crate::shell::count_text("  (", src.ignore.len(), " ignore rules)"))
                } else {
                    None
                };
                rows.push(SourceRow { selected: i == a.sources_screen.selected, path: src.path.clone(), rules });
                i = i + 1;
            }
            rows
        },
    }
}

/// The question before removing the selected source.
pub open spec fn remove_question_of(a: App) -> Seq<char> {
    "Remove source '"@ + match crate::dialogs::selected_source_path(a) {
        Some(p) => p,
        None => "?"@,
    } + "'?"@
}

pub fn remove_question(a: &App) -> (r: String)
    ensures
        r@ == remove_question_of(*a),
{
    let mut t = owned("Remove source '");
    match &a.config {
        Some(c) => if a.sources_screen.selected < c.sources.len() {
            push_str(&mut t, c.sources[a.sources_screen.selected].path.as_str());
        } else {
            push_str(&mut t, "?");
        },
        None => push_str(&mut t, "?"),
    }
    push_str(&mut t, "'?");
    t
}

/// The number of rules the changes would add.
pub open spec fn rule_count(rules: Seq<SourceRules>) -> nat
    decreases rules.len(),
{
    if rules.len() == 0 {
        0
    } else {
        rule_count(rules.drop_last()) + rules.last().rules@.len()
    }
}

/// What applying the changes does, in parts: sources added, removed, and
/// ignore rules.
pub open spec fn apply_parts(d: SelectionDiff) -> Seq<Seq<char>> {
    (if d.additions.len() > 0 { seq!["add "@ + decimal(d.additions.len() as nat)] } else { Seq::empty() }) + (if d.removals.len()
        > 0 {
        seq!["remove "@ + decimal(d.removals.len() as nat)]
    } else {
        Seq::empty()
    }) + if rule_count(d.ignore_rules@) > 0 {
        seq![decimal(rule_count(d.ignore_rules@)) + " ignore rules"@]
    } else {
        Seq::empty()
    }
}

/// The question before applying changes that remove sources.
pub open spec fn apply_question_of(d: Option<SelectionDiff>) -> Seq<char> {
    match d {
        Some(diff) => "Remove sources and apply changes ("@ + comma_joined(apply_parts(diff)) + ")?"@,
        None => "Apply changes?"@,
    }
}

fn count_rules(rules: &Vec<SourceRules>) -> (n: usize)
    requires
        rule_count(rules@) <= usize::MAX,
    ensures
        n == rule_count(rules@),
{
    let mut n: usize = 0;
    let mut i: usize = 0;
    while i < rules.len()
        invariant
            i <= rules.len(),
            n == rule_count(rules@.take(i as int)),
            rule_count(rules@) <= usize::MAX,
        decreases rules.len() - i,
    {
        assert(rules@.take(i + 1).drop_last() =~= rules@.take(i as int));
        proof {
            lemma_rule_count_prefix(rules@, i as int + 1);
        }
        n = n + rules[i].rules.len();
        i = i + 1;
    }
    assert(rules@.take(rules.len() as int) =~= rules@);
    n
}

/// A prefix holds no more rules than the whole.
proof fn lemma_rule_count_prefix(rules: Seq<SourceRules>, k: int)
    requires
        0 <= k <= rules.len(),
    ensures
        rule_count(rules.take(k)) <= rule_count(rules),
    decreases rules.len() - k,
{
    if k < rules.len() {
        lemma_rule_count_prefix(rules, k + 1);
        assert(rules.take(k + 1).drop_last() =~= rules.take(k));
    } else {
        assert(rules.take(k) =~= rules);
    }
}

pub fn apply_question(d: &Option<SelectionDiff>) -> (r: String)
    requires
        d matches Some(diff) ==> rule_count(diff.ignore_rules@) <= usize::MAX,
    ensures
        r@ == apply_question_of(*d),
{
    match d {
        None => owned("Apply changes?"),
        Some(diff) => {
            let mut parts: Vec<String> = Vec::new();
            if diff.additions.len() > 0 {
                parts.push(crate::shell::count_text("add ", diff.additions.len(), ""));
            }
            if diff.removals.len() > 0 {
                parts.push(crate::shell::count_text("remove ", diff.removals.len(), ""));
            }
            let n = count_rules(&diff.ignore_rules);
            if n > 0 {
                parts.push(crate::shell::count_text("", n, " ignore rules"));
            }
            proof {
                reveal_strlit("");
                assert(""@ =~= Seq::<char>::empty());
            }
            assert(crate::selection::strings_of(parts@) =~= apply_parts(*diff));
            let joined = crate::shell::join_with_commas(&parts);
            let mut t = owned("Remove sources and apply changes (");
            push_str(&mut t, joined.as_str());
            push_str(&mut t, ")?");
            t
        },
    }
}

/// Positions of the rule groups ordered by their source's name.
pub open spec fn orders_by_source(rules: Seq<SourceRules>, order: Seq<usize>) -> bool {
    &&& order.len() == rules.len()
    &&& forall|i: int| 0 <= i < order.len() ==> (#[trigger] order[i]) < rules.len()
    &&& forall|i: int, j: int| 0 <= i < j < order.len() ==> order[i] != order[j]
    &&& forall|i: int, j: int|
        0 <= i < j < order.len() ==> !name_lt(
            #[trigger] rules[order[j] as int].source@,
            #[trigger] rules[order[i] as int].source@,
        )
    &&& forall|i: int, j: int|
        0 <= i < j < order.len() && #[trigger] rules[order[i] as int].source@ == #[trigger] rules[order[j] as int].source@
            ==> order[i] < order[j]
}

/// The rule groups in order of their source's name, equal names keeping
/// their order.
pub fn rules_order(rules: &Vec<SourceRules>) -> (order: Vec<usize>)
    ensures
        orders_by_source(rules@, order@),
{
    let mut order: Vec<usize> = Vec::new();
    let mut k: usize = 0;
    while k < rules.len()
        invariant
            k <= rules.len(),
            order.len() == k,
            forall|i: int| 0 <= i < order.len() ==> (#[trigger] order@[i]) < k,
            forall|i: int, j: int| 0 <= i < j < order.len() ==> order@[i] != order@[j],
            forall|i: int, j: int|
                0 <= i < j < order.len() ==> !name_lt(
                    #[trigger] rules@[order@[j] as int].source@,
                    #[trigger] rules@[order@[i] as int].source@,
                ),
            forall|i: int, j: int|
                0 <= i < j < order.len() && #[trigger] rules@[order@[i] as int].source@
                    == #[trigger] rules@[order@[j] as int].source@ ==> order@[i] < order@[j],
        decreases rules.len() - k,
    {
        let name = rules[k].source.as_str();
        let mut p: usize = 0;
        while p < order.len() && !name_less(name, rules[order[p]].source.as_str())
            invariant
                p <= order.len(),
                k < rules.len(),
                name@ == rules@[k as int].source@,
                forall|i: int| 0 <= i < order.len() ==> (#[trigger] order@[i]) < k,
                forall|q: int| 0 <= q < p ==> !name_lt(rules@[k as int].source@, #[trigger] rules@[order@[q] as int].source@),
            decreases order.len() - p,
        {
            p = p + 1;
        }
        let ghost before = order@;
        proof {
            assert forall|q: int| p <= q < before.len() implies name_lt(
                rules@[k as int].source@,
                #[trigger] rules@[before[q] as int].source@,
            ) by {
                if q > p {
                    let a = rules@[before[p as int] as int].source@;
                    let b = rules@[before[q] as int].source@;
                    if a != b {
                        crate::namespaces::lemma_name_lt_total(b, a);
                        crate::namespaces::lemma_name_lt_transitive(rules@[k as int].source@, a, b);
                    }
                }
            }
        }
        order.insert(p, k);
        proof {
            assert forall|i: int, j: int| 0 <= i < j < order.len() implies !name_lt(
                #[trigger] rules@[order@[j] as int].source@,
                #[trigger] rules@[order@[i] as int].source@,
            ) by {
                if i == p {
                    assert(order@[j] == before[j - 1]);
                    crate::namespaces::lemma_name_lt_asymmetric(
                        rules@[k as int].source@,
                        rules@[before[j - 1] as int].source@,
                    );
                } else if j == p {
                    assert(order@[i] == before[i]);
                } else {
                    let a = if i < p { i } else { i - 1 };
                    let b = if j < p { j } else { j - 1 };
                    assert(order@[i] == before[a]);
                    assert(order@[j] == before[b]);
                }
            }
            assert forall|i: int, j: int| 0 <= i < j < order.len() implies order@[i] != order@[j] by {
                if i == p {
                    assert(order@[j] == before[j - 1]);
                } else if j == p {
                    assert(order@[i] == before[i]);
                } else {
                    let a = if i < p { i } else { i - 1 };
                    let b = if j < p { j } else { j - 1 };
                    assert(order@[i] == before[a]);
                    assert(order@[j] == before[b]);
                }
            }
            assert forall|i: int, j: int|
                0 <= i < j < order.len() && #[trigger] rules@[order@[i] as int].source@
                    == #[trigger] rules@[order@[j] as int].source@ implies order@[i] < order@[j] by {
                if i == p {
                    assert(order@[j] == before[j - 1]);
                    crate::namespaces::lemma_name_lt_irreflexive(rules@[k as int].source@);
                } else if j == p {
                    assert(order@[i] == before[i]);
                } else {
                    let a = if i < p { i } else { i - 1 };
                    let b = if j < p { j } else { j - 1 };
                    assert(order@[i] == before[a]);
                    assert(order@[j] == before[b]);
                }
            }
            assert forall|i: int| 0 <= i < order.len() implies (#[trigger] order@[i]) < k + 1 by {
                if i < p {
                    assert(order@[i] == before[i]);
                } else if i > p {
                    assert(order@[i] == before[i - 1]);
                }
            }
        }
        k = k + 1;
    }
    order
}

/// The lines of one source's generated rules.
pub open spec fn rule_lines(r: SourceRules, width: nat) -> Seq<(Seq<char>, Tone)> {
    Seq::new(r.rules.len() as nat, |i: int| ("    "@ + r.source@ + ": "@ + truncated(r.rules@[i]@, width), Tone::Warning))
}

/// The lines of the rule groups, in the given order.
pub open spec fn ordered_rule_lines(rules: Seq<SourceRules>, order: Seq<usize>, width: nat) -> Seq<(Seq<char>, Tone)>
    decreases order.len(),
{
    if order.len() == 0 {
        Seq::empty()
    } else {
        ordered_rule_lines(rules, order.drop_last(), width) + rule_lines(rules[order.last() as int], width)
    }
}

/// Every pending change as a line: the sources to add, the sources to
/// remove, and the generated ignore rules by source, paths cut to the pane.
pub open spec fn diff_notes(d: SelectionDiff, order: Seq<usize>, width: u16) -> Seq<(Seq<char>, Tone)> {
    let w: nat = if width >= 8 { (width - 8) as nat } else { 0 };
    (if d.additions.len() > 0 {
        seq![("  Sources to add:"@, Tone::Success)] + Seq::new(
            d.additions.len() as nat,
            |i: int| ("    + "@ + truncated(d.additions@[i]@, w), Tone::Success),
        )
    } else {
        Seq::empty()
    }) + (if d.removals.len() > 0 {
        seq![("  Sources to remove:"@, Tone::Error)] + Seq::new(
            d.removals.len() as nat,
            |i: int| ("    - "@ + truncated(d.removals@[i]@, w), Tone::Error),
        )
    } else {
        Seq::empty()
    }) + if d.ignore_rules.len() > 0 {
        seq![("  Generated ignore rules:"@, Tone::Warning)] + ordered_rule_lines(d.ignore_rules@, order, w)
    } else {
        Seq::empty()
    }
}

fn push_paths(v: &mut Vec<Note>, paths: &Vec<String>, mark: &str, width: usize, tone: Tone)
    ensures
        notes_view(final(v)@) == notes_view(old(v)@) + Seq::new(
            paths.len() as nat,
            |i: int| (mark@ + truncated(paths@[i]@, width as nat), tone),
        ),
{
    let ghost start = notes_view(v@);
    let mut i: usize = 0;
    while i < paths.len()
        invariant
            i <= paths.len(),
            notes_view(v@) == start + Seq::new(i as nat, |k: int| (mark@ + truncated(paths@[k]@, width as nat), tone)),
        decreases paths.len() - i,
    {
        let ghost prev = notes_view(v@);
        let mut t = owned(mark);
        let cut = crate::text::truncate(paths[i].as_str(), width);
        push_str(&mut t, cut.as_str());
        v.push(note(t, tone));
        assert(notes_view(v@) =~= prev.push((mark@ + truncated(paths@[i as int]@, width as nat), tone)));
        assert(start + Seq::new((i + 1) as nat, |k: int| (mark@ + truncated(paths@[k]@, width as nat), tone)) =~= (start
            + Seq::new(i as nat, |k: int| (mark@ + truncated(paths@[k]@, width as nat), tone))).push(
            (mark@ + truncated(paths@[i as int]@, width as nat), tone),
        ));
        i = i + 1;
    }
}

fn push_rules(v: &mut Vec<Note>, r: &SourceRules, width: usize)
    ensures
        notes_view(final(v)@) == notes_view(old(v)@) + rule_lines(*r, width as nat),
{
    let ghost start = notes_view(v@);
    let mut i: usize = 0;
    while i < r.rules.len()
        invariant
            i <= r.rules.len(),
            notes_view(v@) == start + rule_lines(*r, width as nat).take(i as int),
        decreases r.rules.len() - i,
    {
        let ghost prev = notes_view(v@);
        let mut t = owned("    ");
        push_str(&mut t, r.source.as_str());
        push_str(&mut t, ": ");
        let cut = crate::text::truncate(r.rules[i].as_str(), width);
        push_str(&mut t, cut.as_str());
        v.push(note(t, Tone::Warning));
        assert(rule_lines(*r, width as nat).take(i + 1) =~= rule_lines(*r, width as nat).take(i as int).push(
            rule_lines(*r, width as nat)[i as int],
        ));
        assert(notes_view(v@) =~= prev.push(rule_lines(*r, width as nat)[i as int]));
        i = i + 1;
    }
    assert(rule_lines(*r, width as nat).take(r.rules.len() as int) =~= rule_lines(*r, width as nat));
}

/// Every pending change as a line, for a pane `width` cells wide.
pub fn diff_lines(d: &SelectionDiff, width: u16) -> (r: (Vec<Note>, Vec<usize>))
    ensures
        orders_by_source(d.ignore_rules@, r.1@),
        notes_view(r.0@) == diff_notes(*d, r.1@, width),
{
    let w: usize = width.saturating_sub(8) as usize;
    let mut v: Vec<Note> = Vec::new();
    if d.additions.len() > 0 {
        v.push(note(owned("  Sources to add:"), Tone::Success));
        push_paths(&mut v, &d.additions, "    + ", w, Tone::Success);
    }
    let ghost s1 = notes_view(v@);
    let ghost w_n: nat = if width >= 8 { (width - 8) as nat } else { 0 };
    assert(w_n == w as nat);
    assert(s1 =~= (if d.additions.len() > 0 {
        seq![("  Sources to add:"@, Tone::Success)] + Seq::new(
            d.additions.len() as nat,
            |i: int| ("    + "@ + truncated(d.additions@[i]@, w_n), Tone::Success),
        )
    } else {
        Seq::empty()
    }));
    if d.removals.len() > 0 {
        v.push(note(owned("  Sources to remove:"), Tone::Error));
        push_paths(&mut v, &d.removals, "    - ", w, Tone::Error);
    }
    let ghost s2 = notes_view(v@);
    assert(s2 =~= s1 + (if d.removals.len() > 0 {
        seq![("  Sources to remove:"@, Tone::Error)] + Seq::new(
            d.removals.len() as nat,
            |i: int| ("    - "@ + truncated(d.removals@[i]@, w_n), Tone::Error),
        )
    } else {
        Seq::empty()
    }));
    let order = rules_order(&d.ignore_rules);
    if d.ignore_rules.len() > 0 {
        v.push(note(owned("  Generated ignore rules:"), Tone::Warning));
        let ghost head = notes_view(v@);
        let mut k: usize = 0;
        while k < order.len()
            invariant
                k <= order.len(),
                orders_by_source(d.ignore_rules@, order@),
                notes_view(v@) == head + ordered_rule_lines(d.ignore_rules@, order@.take(k as int), w as nat),
            decreases order.len() - k,
        {
            let ghost prev = notes_view(v@);
            let idx = order[k];
            push_rules(&mut v, &d.ignore_rules[idx], w);
            assert(order@.take(k + 1).drop_last() =~= order@.take(k as int));
            assert(notes_view(v@) =~= head + ordered_rule_lines(d.ignore_rules@, order@.take(k + 1), w as nat));
            k = k + 1;
        }
        assert(order@.take(order.len() as int) =~= order@);
    }
    assert(notes_view(v@) =~= s2 + if d.ignore_rules.len() > 0 {
        seq![("  Generated ignore rules:"@, Tone::Warning)] + ordered_rule_lines(d.ignore_rules@, order@, w_n)
    } else {
        Seq::empty()
    });
    assert(notes_view(v@) =~= diff_notes(*d, order@, width));
    (v, order)
}

} // verus!
