//! The words and click areas of the ignore editor: the source selector,
//! the file preview of a source and the pattern list.

use vstd::prelude::*;

use crate::chars::{owned, push_str};
use crate::hints::click_region;
use crate::listing::{note_shown, range_text};
use crate::overview::Tone;
use crate::pointer::{line_regions, row_at, sat_add16, ClickAction, PointerMap, Rect, Region};
use crate::screens::ignore::{ListFocus, Mode, PreviewEntry};
use crate::selection::SourceConfig;
use crate::shell::App;
use crate::task::{load_data, LoadState};
use crate::text::unicode_str_width;
use crate::viewport::min_nat;

verus! {

/// Whether the source selector has focus.
pub open spec fn selector_focused(a: App) -> bool {
    a.ignore_screen.mode == Mode::List && a.ignore_screen.list_focus == ListFocus::SourceSelector
}

/// The selector's label.
pub open spec fn selector_label(focused: bool) -> Seq<char> {
    if focused {
        "▶ Source selector [FOCUS]: "@
    } else {
        "  Source selector: "@
    }
}

/// Cells the tab of a source takes from column `x`: its path and three
/// more, cut at the far edge.
pub open spec fn tab_cells(path: Seq<char>, x: u16, inner: Rect) -> u16 {
    let w: int = if unicode_str_width(path) + 3 > u16::MAX { u16::MAX as int } else { unicode_str_width(path) + 3 };
    let right = sat_add16(inner.x, inner.width);
    let room: int = if right > x { right - x } else { 0 };
    (if w < room { w } else { room }) as u16
}

/// Click areas of the source tabs from source `i` on, laid out from `x`.
pub open spec fn tab_regions(sources: Seq<SourceConfig>, i: int, x: u16, row: u16, inner: Rect) -> Seq<Region>
    decreases sources.len() - i,
{
    if i < 0 || i >= sources.len() {
        Seq::empty()
    } else {
        let w = tab_cells(sources[i].path@, x, inner);
        click_region(Rect { x, y: row, width: w, height: 1 }, ClickAction::IgnoreSource(i as usize)) + tab_regions(
            sources,
            i + 1,
            sat_add16(x, w) as u16,
            row,
            inner,
        )
    }
}

/// The row of the selector: the first of the pane while previewing, else
/// the second.
pub open spec fn selector_row(a: App, inner: Rect) -> u16 {
    if a.ignore_screen.mode == Mode::Preview {
        inner.y
    } else {
        sat_add16(inner.y, 1) as u16
    }
}

/// The column where the tabs start, after the selector's label.
pub open spec fn tabs_start(a: App, inner: Rect) -> u16 {
    sat_add16(inner.x, if selector_focused(a) { 27 } else { 19 }) as u16
}

/// One tab of the source selector.
#[derive(Debug)]
pub struct SourceTab {
    pub selected: bool,
    /// The path with a space on each side.
    pub text: String,
}

/// The selector's label and tabs; each tab answers clicks over its cells.
pub fn source_selector(a: &App, inner: Rect, map: &mut PointerMap) -> (r: (String, Vec<SourceTab>))
    ensures
        r.0@ == selector_label(selector_focused(*a)),
        match a.config {
            Some(c) => {
                &&& r.1.len() == c.sources.len()
                &&& forall|i: int|
                    0 <= i < r.1.len() ==> (#[trigger] r.1@[i]).selected == (i == a.ignore_screen.source_idx)
                        && r.1@[i].text@ == " "@ + c.sources@[i].path@ + " "@
                &&& final(map)@ == old(map)@ + tab_regions(
                    c.sources@,
                    0,
                    tabs_start(*a, inner),
                    selector_row(*a, inner),
                    inner,
                )
            },
            None => r.1.len() == 0 && final(map)@ == old(map)@,
        },
{
    let focused = a.ignore_screen.mode == Mode::List && a.ignore_screen.list_focus == ListFocus::SourceSelector;
    let label = owned(
        if focused {
            "▶ Source selector [FOCUS]: "
        } else {
            "  Source selector: "
        },
    );
    let mut tabs: Vec<SourceTab> = Vec::new();
    match &a.config {
        None => (label, tabs),
        Some(c) => {
            let row = if a.ignore_screen.mode == Mode::Preview {
                inner.y
            } else {
                inner.y.saturating_add(1)
            };
            let mut x = inner.x.saturating_add(if focused { 27 } else { 19 });
            let right = inner.x.saturating_add(inner.width);
            let ghost target = old(map)@ + tab_regions(c.sources@, 0, x, row, inner);
            let mut i: usize = 0;
            assert(map@ + tab_regions(c.sources@, 0, x, row, inner) == target);
            while i < c.sources.len()
                invariant
                    a.config == Some(*c),
                    i <= c.sources.len(),
                    right == sat_add16(inner.x, inner.width),
                    map@ + tab_regions(c.sources@, i as int, x, row, inner) == target,
                    tabs.len() == i,
                    forall|k: int|
                        0 <= k < i ==> (#[trigger] tabs@[k]).selected == (k == a.ignore_screen.source_idx)
                            && tabs@[k].text@ == " "@ + c.sources@[k].path@ + " "@,
                decreases c.sources.len() - i,
            {
                let ghost before = map@;
                let path = c.sources[i].path.as_str();
                let full = crate::text::display_width(path);
                let w0: u16 = if full > 65532 { 65535 } else { (full + 3) as u16 };
                let room: u16 = if right > x { right - x } else { 0 };
                let w = if w0 < room { w0 } else { room };
                assert(w == tab_cells(c.sources@[i as int].path@, x, inner));
                map.click(Rect::new(x, row, w, 1), ClickAction::IgnoreSource(i));
                let next = x.saturating_add(w);
                assert(before + (click_region(Rect { x, y: row, width: w, height: 1 }, ClickAction::IgnoreSource(i))
                    + tab_regions(c.sources@, i + 1, next, row, inner)) =~= map@ + tab_regions(
                    c.sources@,
                    i + 1,
                    next,
                    row,
                    inner,
                ));
                x = next;
                let mut text = owned(" ");
                push_str(&mut text, path);
                push_str(&mut text, " ");
                tabs.push(SourceTab { selected: i == a.ignore_screen.source_idx, text });
                i = i + 1;
            }
            assert(tab_regions(c.sources@, i as int, x, row, inner) =~= Seq::<Region>::empty());
            assert(map@ + Seq::<Region>::empty() =~= map@);
            (label, tabs)
        },
    }
}

/// The rule the preview is shown for.
pub open spec fn active_rule_of(s: SourceConfig, pattern_idx: usize) -> Seq<char> {
    if pattern_idx < s.ignore.len() {
        s.ignore@[pattern_idx as int]@
    } else {
        "No selected rule"@
    }
}

pub fn active_rule(s: &SourceConfig, pattern_idx: usize) -> (r: String)
    ensures
        r@ == active_rule_of(*s, pattern_idx),
{
    if pattern_idx < s.ignore.len() {
        s.ignore[pattern_idx].clone()
    } else {
        owned("No selected rule")
    }
}

/// What the preview says of its load.
pub open spec fn preview_status_of(s: LoadState<Vec<PreviewEntry>>) -> Option<(Seq<char>, Tone)> {
    match s {
        LoadState::Loading { .. } => Some(("  Generating ignore preview..."@, Tone::Warning)),
        LoadState::Stale { .. } => Some(("  Preview is stale. Press r to refresh."@, Tone::Muted)),
        LoadState::Failed { error, .. } => Some(("  Preview failed: "@ + error@ + ". Press r to retry."@, Tone::Error)),
        LoadState::NotLoaded | LoadState::Loaded(_) => None,
    }
}

pub fn preview_status(s: &LoadState<Vec<PreviewEntry>>) -> (r: Option<(String, Tone)>)
    ensures
        match preview_status_of(*s) {
            Some((t, tone)) => r matches Some(p) && p.0@ == t && p.1 == tone,
            None => r is None,
        },
{
    match s {
        LoadState::Loading { .. } => Some((owned("  Generating ignore preview..."), Tone::Warning)),
        LoadState::Stale { .. } => Some((owned("  Preview is stale. Press r to refresh."), Tone::Muted)),
        LoadState::Failed { error, .. } => {
            let mut t = owned("  Preview failed: ");
            push_str(&mut t, error.as_str());
            push_str(&mut t, ". Press r to retry.");
            Some((t, Tone::Error))
        },
        LoadState::NotLoaded | LoadState::Loaded(_) => None,
    }
}

/// What an empty preview says.
pub open spec fn empty_preview_of(s: LoadState<Vec<PreviewEntry>>) -> Seq<char> {
    if s is Loading {
        "  Waiting for filesystem scan."@
    } else if s is NotLoaded {
        "  No preview yet. Press p to scan this source."@
    } else {
        "  No matching files found for this source."@
    }
}

pub fn empty_preview(s: &LoadState<Vec<PreviewEntry>>) -> (r: &'static str)
    ensures
        r@ == empty_preview_of(*s),
{
    match s {
        LoadState::Loading { .. } => "  Waiting for filesystem scan.",
        LoadState::NotLoaded => "  No preview yet. Press p to scan this source.",
        _ => "  No matching files found for this source.",
    }
}

/// A previewed file as its line reads.
#[derive(Debug)]
pub struct PreviewLine {
    pub ignored: bool,
    pub path: String,
    /// `"  (pattern)"` for an ignored file with the pattern that matched.
    pub matched: Option<String>,
    pub secret: bool,
}

pub open spec fn line_of(e: PreviewEntry, l: PreviewLine) -> bool {
    &&& l.ignored == e.ignored
    &&& l.path@ == e.path@
    &&& l.secret == e.secret_warning
    &&& match (e.ignored, e.matched_by) {
        (true, Some(p)) => l.matched matches Some(t) && t@ == "  ("@ + p@ + ")"@,
        _ => l.matched is None,
    }
}

/// The preview drawn in `rows` rows: the entries its viewport shows and a
/// range note when they do not all fit. Sizes the preview viewport.
pub fn preview_lines(a: &mut App, rows: usize) -> (r: (Vec<PreviewLine>, Option<String>))
    ensures
        ({
            let entries = match load_data(old(a).ignore_screen.preview_state) {
                Some(v) => v@,
                None => Seq::empty(),
            };
            let n = entries.len();
            let show = n > 0 && note_shown(rows, n as usize);
            let start = min_nat(final(a).ignore_screen.preview_viewport@.offset, n);
            &&& n == 0 ==> final(a).ignore_screen.preview_viewport@.height == 0 && r.0.len() == 0 && r.1 is None
            &&& n > 0 ==> final(a).ignore_screen.preview_viewport@.height == if show { rows - 1 } else { rows as int }
            &&& n > 0 ==> r.0.len() == min_nat(
                min_nat(start + final(a).ignore_screen.preview_viewport@.height, usize::MAX as nat),
                n,
            ) - start
            &&& forall|k: int| 0 <= k < r.0.len() ==> line_of(entries[start + k], #[trigger] r.0@[k])
            &&& (show ==> (r.1 matches Some(t) && t@ == "  "@ + range_text(
                start as usize,
                (start + r.0.len()) as usize,
                n as usize,
            )))
            &&& (!show ==> r.1 is None)
        }),
        final(a).ignore_screen.preview_state == old(a).ignore_screen.preview_state,
        final(a).ignore_screen.mode == old(a).ignore_screen.mode,
        final(a).config == old(a).config,
        final(a).ignore_screen.preview_viewport@.offset == min_nat(
            old(a).ignore_screen.preview_viewport@.offset,
            crate::viewport::max_offset_spec(
                final(a).ignore_screen.preview_viewport@.height,
                crate::screens::ignore::preview_rows(old(a).ignore_screen.preview_state),
            ),
        ),
{
    let n = match a.ignore_screen.preview() {
        Some(v) => v.len(),
        None => 0,
    };
    if n == 0 {
        a.ignore_screen.set_preview_viewport_height(0);
        return (Vec::new(), None);
    }
    let (visible, show) = crate::listing::list_rows(rows, n);
    a.ignore_screen.set_preview_viewport_height(visible);
    let range = a.ignore_screen.preview_viewport.visible_range(n);
    let mut lines: Vec<PreviewLine> = Vec::new();
    match a.ignore_screen.preview() {
        Some(entries) => {
            let mut i = range.start;
            while i < range.end
                invariant
                    range.start <= i <= range.end,
                    range.end <= n,
                    n == entries.len(),
                    lines.len() == i - range.start,
                    forall|k: int| 0 <= k < lines.len() ==> line_of(entries@[range.start + k], #[trigger] lines@[k]),
                decreases range.end - i,
            {
                let e = &entries[i];
                let matched = if e.ignored {
                    match &e.matched_by {
                        Some(p) => {
                            let mut t = owned("  (");
                            push_str(&mut t, p.as_str());
                            push_str(&mut t, ")");
                            Some(t)
                        },
                        None => None,
                    }
                } else {
                    None
                };
                lines.push(PreviewLine { ignored: e.ignored, path: e.path.clone(), matched, secret: e.secret_warning });
                i = i + 1;
            }
        },
        None => {},
    }
    let note = if show {
        Some(crate::listing::range_note("  ", range.start, range.end, n))
    } else {
        None
    };
    (lines, note)
}

/// The pattern list's label.
pub open spec fn patterns_label(focused: bool) -> Seq<char> {
    if focused {
        "▶ Pattern list [FOCUS]:"@
    } else {
        "  Pattern list:"@
    }
}

/// The pattern rows of the selected source, after four heading rows, each
/// answering clicks on its own line; `None` when the source has no
/// patterns.
pub fn pattern_rows(a: &App, inner: Rect, map: &mut PointerMap) -> (r: Option<(String, Vec<(bool, String)>)>)
    ensures
        match a.config {
            Some(c) => if a.ignore_screen.source_idx < c.sources.len() && c.sources@[a.ignore_screen.source_idx as int].ignore.len() > 0 {
                let pats = c.sources@[a.ignore_screen.source_idx as int].ignore@;
                r matches Some(p) && p.0@ == patterns_label(a.ignore_screen.list_focus == ListFocus::PatternList)
                    && p.1.len() == pats.len() && forall|i: int|
                    0 <= i < pats.len() ==> (#[trigger] p.1@[i]).0 == (i == a.ignore_screen.pattern_idx) && p.1@[i].1@
                        == pats[i]@
            } else {
                r is None
            },
            None => r is None,
        },
        final(map)@ == old(map)@ + match r {
            Some(p) => line_regions(inner, 4, p.1.len() as nat, |k: int| ClickAction::IgnorePattern(k as usize)),
            None => Seq::empty(),
        },
{
    assert(map@ + Seq::<Region>::empty() =~= map@);
    let c = match &a.config {
        Some(c) => c,
        None => {
            return None;
        },
    };
    if a.ignore_screen.source_idx >= c.sources.len() || c.sources[a.ignore_screen.source_idx].ignore.len() == 0 {
        return None;
    }
    let pats = &c.sources[a.ignore_screen.source_idx].ignore;
    let label = owned(
        if a.ignore_screen.list_focus == ListFocus::PatternList {
            "▶ Pattern list [FOCUS]:"
        } else {
            "  Pattern list:"
        },
    );
    let mut rows: Vec<(bool, String)> = Vec::new();
    let mut y = inner.y.saturating_add(4);
    let mut i: usize = 0;
    while i < pats.len()
        invariant
            i <= pats.len(),
            rows.len() == i,
            y == row_at(inner, 4 + i),
            map@ == old(map)@ + line_regions(inner, 4, i as nat, |k: int| ClickAction::IgnorePattern(k as usize)),
            forall|k: int| 0 <= k < i ==> (#[trigger] rows@[k]).0 == (k == a.ignore_screen.pattern_idx) && rows@[k].1@ == pats@[k]@,
        decreases pats.len() - i,
    {
        map.click(Rect::new(inner.x, y, inner.width, 1), ClickAction::IgnorePattern(i));
        assert(old(map)@ + line_regions(inner, 4, (i + 1) as nat, |k: int| ClickAction::IgnorePattern(k as usize))
            =~= map@);
        y = y.saturating_add(1);
        rows.push((i == a.ignore_screen.pattern_idx, pats[i].clone()));
        i = i + 1;
    }
    Some((label, rows))
}

} // verus!
