//! Scrolling lists and detail panes: how many rows a list shows, the
//! `[a-b of n]` note under a clipped list, wrapped values, and the history
//! screen's run list, run details and log view.

use vstd::prelude::*;

use crate::chars::{decimal, owned, push_str};
use crate::overview::Tone;
use crate::pointer::{sat_add16, ClickAction, PointerMap, Rect, Region};
use crate::screens::history::{
    duration_text, outcome_text, utc_time_text, valid_timestamp, HistoryScreen, RunOutcome, RunRecord,
};
use crate::text::{prefix_chars, truncated, unicode_str_width, wrapped};
use crate::viewport::min_nat;

verus! {

/// A list with `available` rows for `total` items shows a range note on
/// its last row when the items do not fit and there is room for more
/// than the note.
pub open spec fn note_shown(available: usize, total: usize) -> bool {
    total > available && available > 1
}

/// Rows left for items, and whether the range note is shown.
pub fn list_rows(available: usize, total: usize) -> (r: (usize, bool))
    ensures
        r.1 == note_shown(available, total),
        r.0 == if r.1 { available - 1 } else { available as int },
{
    let show = total > available && available > 1;
    (if show { available - 1 } else { available }, show)
}

/// `[a-b of n]` for items `start..end` of `total`, counted from one.
pub open spec fn range_text(start: usize, end: usize, total: usize) -> Seq<char> {
    "["@ + decimal(start as nat + 1) + "-"@ + decimal(end as nat) + " of "@ + decimal(total as nat) + "]"@
}

pub fn range_note(prefix: &str, start: usize, end: usize, total: usize) -> (r: String)
    requires
        start < usize::MAX,
    ensures
        r@ == prefix@ + range_text(start, end, total),
{
    let mut r = owned(prefix);
    let a = crate::shell::count_text("[", start + 1, "-");
    push_str(&mut r, a.as_str());
    let b = crate::shell::count_text("", end, " of ");
    push_str(&mut r, b.as_str());
    let c = crate::shell::count_text("", total, "]");
    push_str(&mut r, c.as_str());
    proof {
        reveal_strlit("");
        assert(""@ =~= Seq::<char>::empty());
    }
    assert(r@ =~= prefix@ + range_text(start, end, total));
    r
}

/// The width a value wraps to after a prefix of `used` cells: what is left
/// of `width`, at least one.
pub open spec fn wrap_width(width: usize, used: usize) -> usize {
    if width > used && width - used >= 1 { (width - used) as usize } else { 1 }
}

/// A value wrapped to follow a prefix on each line.
pub fn wrapped_after(prefix: &str, value: &str, width: u16) -> (r: Vec<String>)
    ensures
        r@.map_values(|s: String| s@) == wrapped(
            value@,
            wrap_width(width as usize, unicode_str_width(prefix@)) as nat,
        ),
{
    let used = crate::text::display_width(prefix);
    let w: usize = width as usize;
    let room = if w > used && w - used >= 1 { w - used } else { 1 };
    let r = crate::text::wrap(value, room);
    assert(r@.map_values(|s: String| s@) =~= wrapped(value@, room as nat));
    r
}

/// The cells left for a field's value after its label and the four cells
/// of `": "` and indent; at least one.
pub open spec fn field_wrap_width(label: Seq<char>, width: u16) -> nat {
    wrap_width(
        width as usize,
        if unicode_str_width(label) + 4 > usize::MAX {
            usize::MAX
        } else {
            (unicode_str_width(label) + 4) as usize
        },
    ) as nat
}

/// A field value wrapped after its label and the four cells of `": "`
/// and indent.
pub fn wrapped_field(label: &str, value: &str, width: u16) -> (r: Vec<String>)
    ensures
        r@.map_values(|s: String| s@) == wrapped(value@, field_wrap_width(label@, width)),
{
    let lw = crate::text::display_width(label);
    let used = lw.saturating_add(4);
    let w: usize = width as usize;
    let room = if w > used && w - used >= 1 { w - used } else { 1 };
    let r = crate::text::wrap(value, room);
    assert(r@.map_values(|s: String| s@) =~= wrapped(value@, room as nat));
    r
}

/// One run in the history list.
#[derive(Debug)]
pub struct HistoryRow {
    pub index: usize,
    pub selected: bool,
    pub time: String,
    pub namespace: String,
    pub outcome: String,
    pub tone: Tone,
}

/// The colour of an outcome.
pub open spec fn outcome_tone(o: RunOutcome) -> Tone {
    if o == RunOutcome::Failed {
        Tone::Error
    } else if o == RunOutcome::CommittedOffline {
        Tone::Warning
    } else {
        Tone::Success
    }
}

fn tone_of_outcome(o: RunOutcome) -> (t: Tone)
    ensures
        t == outcome_tone(o),
{
    if o == RunOutcome::Failed {
        Tone::Error
    } else if o == RunOutcome::CommittedOffline {
        Tone::Warning
    } else {
        Tone::Success
    }
}

/// The namespace of a run as the list shows it.
pub open spec fn listed_namespace(r: RunRecord) -> Seq<char> {
    if r.namespace@.len() == 0 {
        "unknown namespace"@
    } else {
        r.namespace@
    }
}

pub open spec fn all_valid(records: Seq<RunRecord>) -> bool {
    forall|i: int|
        0 <= i < records.len() ==> valid_timestamp((#[trigger] records[i]).started_at) && valid_timestamp(
            records[i].finished_at,
        )
}

/// The row of run `i`.
pub open spec fn row_of(records: Seq<RunRecord>, i: int, selected: usize, row: HistoryRow) -> bool {
    &&& row.index == i
    &&& row.selected == (i == selected)
    &&& row.time@ == utc_time_text(records[i].started_at.secs, records[i].started_at.nanos)
    &&& row.namespace@ == listed_namespace(records[i])
    &&& row.outcome@ == outcome_text(records[i].outcome)
    &&& row.tone == outcome_tone(records[i].outcome)
}

/// The click area of the list row `row` inside `list`, for run `i`.
pub open spec fn row_region(list: Rect, row: int, i: int) -> Region {
    Region {
        rect: Rect { x: list.x, y: sat_add16(list.y, (2 + row) as u16) as u16, width: list.width, height: 1 },
        click: Some(ClickAction::History(i as usize)),
        scroll: None,
    }
}

/// The history list drawn in `list`: two heading rows, then the runs the
/// list viewport shows, each answering clicks on its row, and a range note
/// when the runs do not fit. Sizes the list viewport to the rows.
pub fn history_list(screen: &mut HistoryScreen, records: &Vec<RunRecord>, list: Rect, map: &mut PointerMap) -> (r: (
    Vec<HistoryRow>,
    Option<String>,
))
    requires
        all_valid(records@),
    ensures
        ({
            let n = records.len();
            let available = (if list.height >= 2 { list.height - 2 } else { 0 }) as usize;
            let show = note_shown(available, n);
            let start = min_nat(final(screen).list_viewport@.offset, n as nat);
            &&& final(screen).list_viewport@.height == if show { available - 1 } else { available as int }
            &&& r.0.len() == min_nat(min_nat(start + final(screen).list_viewport@.height, usize::MAX as nat), n as nat) - start
            &&& forall|k: int|
                0 <= k < r.0.len() ==> row_of(records@, start + k, final(screen).selected, #[trigger] r.0@[k])
            &&& (show ==> (r.1 matches Some(t) && t@ == " "@ + range_text(
                start as usize,
                (start + r.0.len()) as usize,
                n,
            )))
            &&& (!show ==> r.1 is None)
            &&& list.width > 0 ==> final(map)@ == old(map)@ + Seq::new(
                r.0.len() as nat,
                |k: int| row_region(list, k, start + k),
            )
            &&& list.width == 0 ==> final(map)@ == old(map)@
        }),
        final(screen).mode == old(screen).mode,
        final(screen).selected == crate::screens::history::clamp_selection(old(screen).selected, records.len()),
        final(screen).list_viewport@ == crate::viewport::ensured(
            crate::viewport::clamped(
                crate::viewport::ViewportModel {
                    offset: old(screen).list_viewport@.offset,
                    height: final(screen).list_viewport@.height,
                },
                records.len() as nat,
            ),
            crate::screens::history::clamp_selection(old(screen).selected, records.len()) as nat,
            records.len() as nat,
        ),
{
    let n = records.len();
    let available: usize = list.height.saturating_sub(2) as usize;
    let (visible, show) = list_rows(available, n);
    screen.set_list_viewport_height(visible, n);
    let range = screen.list_viewport.visible_range(n);
    let mut rows: Vec<HistoryRow> = Vec::new();
    let mut i = range.start;
    let ghost start = range.start;
    let ghost before = map@;
    while i < range.end
        invariant
            start == range.start,
            range.start <= i <= range.end,
            range.end <= n,
            n == records.len(),
            all_valid(records@),
            rows.len() == i - start,
            forall|k: int| 0 <= k < rows.len() ==> row_of(records@, start + k, screen.selected, #[trigger] rows@[k]),
            list.width > 0 ==> map@ == before + Seq::new(rows.len() as nat, |k: int| row_region(list, k, start + k)),
            list.width == 0 ==> map@ == before,
            range.end - range.start + 2 <= list.height || range.end == range.start,
        decreases range.end - i,
    {
        let row = i - range.start;
        let y = list.y.saturating_add(2 + (row as u16));
        let ghost m0 = map@;
        map.click(Rect::new(list.x, y, list.width, 1), ClickAction::History(i));
        proof {
            if list.width > 0 {
                assert(before + Seq::new((rows.len() + 1) as nat, |k: int| row_region(list, k, start + k)) =~= m0.push(
                    row_region(list, row as int, i as int),
                ));
            }
        }
        let entry = HistoryScreen::format_entry(&records[i]);
        let namespace = match entry.namespace {
            Some(ns) => ns,
            None => owned("unknown namespace"),
        };
        rows.push(
            HistoryRow {
                index: i,
                selected: i == screen.selected,
                time: entry.time,
                namespace,
                outcome: entry.outcome,
                tone: tone_of_outcome(records[i].outcome),
            },
        );
        i = i + 1;
    }
    let note = if show {
        Some(range_note(" ", range.start, range.end, n))
    } else {
        None
    };
    (rows, note)
}

/// A labelled value: the label, `": "`, the value.
#[derive(Debug)]
pub struct Field {
    pub label: String,
    pub value: String,
}

pub open spec fn fields_view(v: Seq<Field>) -> Seq<(Seq<char>, Seq<char>)> {
    v.map_values(|f: Field| (f.label@, f.value@))
}

/// The details of a run: its fields, and its message wrapped to the pane.
#[derive(Debug)]
pub struct RunDetail {
    pub outcome_tone: Tone,
    pub fields: Vec<Field>,
    pub message: Option<Vec<String>>,
}

/// The fields of a run's details.
pub open spec fn detail_fields(r: RunRecord) -> Seq<(Seq<char>, Seq<char>)> {
    seq![
        (" Outcome"@, outcome_text(r.outcome)),
        (" Started"@, utc_time_text(r.started_at.secs, r.started_at.nanos)),
        (" Namespace"@, if r.namespace@.len() == 0 { "Unknown (legacy run)"@ } else { r.namespace@ }),
        (" Duration"@, duration_text(r.started_at, r.finished_at)),
    ] + match r.commit {
        Some(sha) => seq![(" Commit"@, prefix_chars(sha@, 8))],
        None => Seq::empty(),
    }
}

fn field(label: &str, value: String) -> (f: Field)
    ensures
        f.label@ == label@,
        f.value@ == value@,
{
    Field { label: owned(label), value }
}

/// The details of the selected run, wrapped to a pane `width` cells wide;
/// `None` when no run is selected.
pub fn history_detail(records: &Vec<RunRecord>, selected: usize, width: u16) -> (r: Option<RunDetail>)
    requires
        all_valid(records@),
    ensures
        selected >= records.len() ==> r is None,
        selected < records.len() ==> (r matches Some(d) && {
            let rec = records@[selected as int];
            &&& d.outcome_tone == outcome_tone(rec.outcome)
            &&& fields_view(d.fields@) == detail_fields(rec)
            &&& match rec.message {
                Some(m) => d.message matches Some(lines) && lines@.map_values(|s: String| s@) == wrapped(
                    m@,
                    (if width >= 3 { width - 3 } else { 0 }) as nat,
                ),
                None => d.message is None,
            }
        }),
{
    if selected >= records.len() {
        return None;
    }
    let rec = &records[selected];
    let entry = HistoryScreen::format_entry(rec);
    let mut fields: Vec<Field> = Vec::new();
    fields.push(field(" Outcome", entry.outcome));
    fields.push(field(" Started", entry.time));
    let ns = match entry.namespace {
        Some(n) => n,
        None => owned("Unknown (legacy run)"),
    };
    fields.push(field(" Namespace", ns));
    fields.push(field(" Duration", entry.duration));
    match &rec.commit {
        Some(sha) => {
            fields.push(field(" Commit", crate::text::prefix(sha.as_str(), 8)));
        },
        None => {},
    }
    assert(fields_view(fields@) =~= detail_fields(*rec));
    let message = match &rec.message {
        Some(m) => {
            let lines = crate::text::wrap(m.as_str(), width.saturating_sub(3) as usize);
            assert(lines@.map_values(|s: String| s@) =~= wrapped(m@, (if width >= 3 { width - 3 } else { 0 }) as nat));
            Some(lines)
        },
        None => None,
    };
    Some(RunDetail { outcome_tone: tone_of_outcome(rec.outcome), fields, message })
}

/// The body of the log view drawn `height` rows high: the log lines its
/// viewport shows, each cut to 200 cells, and a range note when the log
/// does not fit. Sizes the log viewport to the rows.
pub fn log_view(screen: &mut HistoryScreen, height: u16) -> (r: (Vec<String>, Option<String>))
    ensures
        ({
            let n = old(screen).log_lines.len();
            let available = (if height >= 2 { height - 2 } else { 0 }) as usize;
            let show = note_shown(available, n);
            let start = min_nat(final(screen).log_viewport@.offset, n as nat);
            &&& final(screen).log_viewport@.height == if show { available - 1 } else { available as int }
            &&& r.0.len() == min_nat(min_nat(start + final(screen).log_viewport@.height, usize::MAX as nat), n as nat) - start
            &&& forall|k: int|
                0 <= k < r.0.len() ==> (#[trigger] r.0@[k])@ == truncated(old(screen).log_lines@[start + k]@, 200)
            &&& (show ==> (r.1 matches Some(t) && t@ == "  "@ + range_text(
                start as usize,
                (start + r.0.len()) as usize,
                n,
            )))
            &&& (!show ==> r.1 is None)
        }),
        final(screen).log_lines == old(screen).log_lines,
        final(screen).selected == old(screen).selected,
        final(screen).mode == old(screen).mode,
        final(screen).log_viewport@ == crate::viewport::clamped(
            crate::viewport::ViewportModel {
                offset: old(screen).log_viewport@.offset,
                height: final(screen).log_viewport@.height,
            },
            old(screen).log_lines.len() as nat,
        ),
{
    let n = screen.log_lines.len();
    let available: usize = height.saturating_sub(2) as usize;
    let (visible, show) = list_rows(available, n);
    screen.set_log_viewport_height(visible);
    let range = screen.log_viewport.visible_range(n);
    let mut lines: Vec<String> = Vec::new();
    let mut i = range.start;
    while i < range.end
        invariant
            range.start <= i <= range.end,
            range.end <= n,
            n == screen.log_lines.len(),
            screen.log_lines == old(screen).log_lines,
            lines.len() == i - range.start,
            forall|k: int|
                0 <= k < lines.len() ==> (#[trigger] lines@[k])@ == truncated(
                    old(screen).log_lines@[range.start + k]@,
                    200,
                ),
        decreases range.end - i,
    {
        lines.push(crate::text::truncate(screen.log_lines[i].as_str(), 200));
        i = i + 1;
    }
    let note = if show {
        Some(range_note("  ", range.start, range.end, n))
    } else {
        None
    };
    (lines, note)
}

} // verus!
