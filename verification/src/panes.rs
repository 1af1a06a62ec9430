//! The words of the automation and backup-preview panes: the status of
//! their background loads, the preview's summary, and which preview
//! entries fit the pane.

use vstd::prelude::*;

use crate::chars::{decimal, owned, push_str};
use crate::listing::range_text;
use crate::overview::Tone;
use crate::screens::automation::ConfirmAction;
use crate::screens::preview::{EntryKind, PreviewData, PreviewEntry};
use crate::task::LoadState;

verus! {

/// A line of text and its colour.
#[derive(Debug)]
pub struct Note {
    pub text: String,
    pub tone: Tone,
}

pub open spec fn notes_view(v: Seq<Note>) -> Seq<(Seq<char>, Tone)> {
    v.map_values(|n: Note| (n.text@, n.tone))
}

fn note(text: String, tone: Tone) -> (n: Note)
    ensures
        n.text@ == text@,
        n.tone == tone,
{
    Note { text, tone }
}

/// "  Previous: status", after a status that is not current.
pub open spec fn previous_line(previous: Option<String>) -> Seq<(Seq<char>, Tone)> {
    match previous {
        Some(s) => seq![("  Previous: "@ + s@, Tone::Muted)],
        None => Seq::empty(),
    }
}

/// What the automation pane says of the inspected status.
pub open spec fn automation_status_notes(s: LoadState<String>) -> Seq<(Seq<char>, Tone)> {
    match s {
        LoadState::NotLoaded => seq![("  Status not loaded. Press r to check automation status."@, Tone::Muted)],
        LoadState::Loading { previous, .. } => seq![("  Checking automation status..."@, Tone::Warning)]
            + previous_line(previous),
        LoadState::Loaded(status) => seq![("  Status: "@ + status@, Tone::Muted)],
        LoadState::Stale { previous } => seq![("  Automation status is stale. Press r to refresh."@, Tone::Muted)]
            + previous_line(previous),
        LoadState::Failed { error, previous } => seq![
            ("  Status check failed: "@ + error@ + ". Press r to retry."@, Tone::Error),
        ] + previous_line(previous),
    }
}

fn push_previous(v: &mut Vec<Note>, previous: &Option<String>)
    ensures
        notes_view(final(v)@) == notes_view(old(v)@) + previous_line(*previous),
{
    let ghost before = v@;
    if let Some(s) = previous {
        let mut t = owned("  Previous: ");
        push_str(&mut t, s.as_str());
        v.push(note(t, Tone::Muted));
    }
    assert(notes_view(v@) =~= notes_view(before) + previous_line(*previous));
}

pub fn automation_status_lines(s: &LoadState<String>) -> (r: Vec<Note>)
    ensures
        notes_view(r@) == automation_status_notes(*s),
{
    let mut v: Vec<Note> = Vec::new();
    match s {
        LoadState::NotLoaded => {
            v.push(note(owned("  Status not loaded. Press r to check automation status."), Tone::Muted));
        },
        LoadState::Loading { previous, .. } => {
            v.push(note(owned("  Checking automation status..."), Tone::Warning));
            push_previous(&mut v, previous);
        },
        LoadState::Loaded(status) => {
            let mut t = owned("  Status: ");
            push_str(&mut t, status.as_str());
            v.push(note(t, Tone::Muted));
        },
        LoadState::Stale { previous } => {
            v.push(note(owned("  Automation status is stale. Press r to refresh."), Tone::Muted));
            push_previous(&mut v, previous);
        },
        LoadState::Failed { error, previous } => {
            let mut t = owned("  Status check failed: ");
            push_str(&mut t, error.as_str());
            push_str(&mut t, ". Press r to retry.");
            v.push(note(t, Tone::Error));
            push_previous(&mut v, previous);
        },
    }
    assert(notes_view(v@) =~= automation_status_notes(*s));
    v
}

/// The question the automation pane shows while one is open.
pub fn automation_question(confirm: ConfirmAction) -> (r: Option<&'static str>)
    ensures
        confirm == ConfirmAction::Install ==> r == Some("Install and enable automation?"),
        confirm == ConfirmAction::Remove ==> r == Some("Remove managed automation?"),
        confirm == ConfirmAction::Idle ==> r is None,
{
    match confirm {
        ConfirmAction::Install => Some("Install and enable automation?"),
        ConfirmAction::Remove => Some("Remove managed automation?"),
        ConfirmAction::Idle => None,
    }
}

/// What the preview pane says of its load, above the data.
pub open spec fn preview_status_of(s: LoadState<PreviewData>) -> Option<(Seq<char>, Tone)> {
    match s {
        LoadState::Loading { .. } => Some(("  Generating preview..."@, Tone::Warning)),
        LoadState::Stale { .. } => Some(("  Preview is stale. Press r to refresh."@, Tone::Muted)),
        LoadState::Failed { error, .. } => Some(("  Preview failed: "@ + error@ + ". Press r to retry."@, Tone::Error)),
        LoadState::NotLoaded | LoadState::Loaded(_) => None,
    }
}

pub fn preview_status(s: &LoadState<PreviewData>) -> (r: Option<Note>)
    ensures
        match preview_status_of(*s) {
            Some((t, tone)) => r matches Some(n) && n.text@ == t && n.tone == tone,
            None => r is None,
        },
{
    match s {
        LoadState::Loading { .. } => Some(note(owned("  Generating preview..."), Tone::Warning)),
        LoadState::Stale { .. } => Some(note(owned("  Preview is stale. Press r to refresh."), Tone::Muted)),
        LoadState::Failed { error, .. } => {
            let mut t = owned("  Preview failed: ");
            push_str(&mut t, error.as_str());
            push_str(&mut t, ". Press r to retry.");
            Some(note(t, Tone::Error))
        },
        LoadState::NotLoaded | LoadState::Loaded(_) => None,
    }
}

/// What the preview pane says when there is no data yet.
pub fn preview_waiting(loading: bool) -> (r: &'static str)
    ensures
        loading ==> r@ == "  Waiting for the backup planner."@,
        !loading ==> r@ == "  Preview has not been generated. Press r to create one."@,
{
    if loading {
        "  Waiting for the backup planner."
    } else {
        "  Preview has not been generated. Press r to create one."
    }
}

/// The preview's counts, and the number of operations they make.
pub open spec fn summary_of(d: PreviewData) -> (Seq<char>, Seq<char>) {
    (
        "Added: "@ + decimal(d.additions as nat) + "  Changed: "@ + decimal(d.modifications as nat) + "  Deleted: "@
            + decimal(d.deletions as nat) + "  Ignored: "@ + decimal(d.exclusions as nat) + "  Warning: "@ + decimal(
            d.warnings as nat,
        ),
        "  ("@ + decimal((d.additions + d.modifications + d.deletions) as nat) + " total operations)"@,
    )
}

pub fn preview_summary(d: &PreviewData) -> (r: (String, String))
    requires
        d.additions + d.modifications + d.deletions <= usize::MAX,
    ensures
        (r.0@, r.1@) == summary_of(*d),
{
    let mut counts = crate::shell::count_text("Added: ", d.additions, "  Changed: ");
    let b = crate::shell::count_text("", d.modifications, "  Deleted: ");
    push_str(&mut counts, b.as_str());
    let c = crate::shell::count_text("", d.deletions, "  Ignored: ");
    push_str(&mut counts, c.as_str());
    let e = crate::shell::count_text("", d.exclusions, "  Warning: ");
    push_str(&mut counts, e.as_str());
    let w = crate::shell::count_text("", d.warnings, "");
    push_str(&mut counts, w.as_str());
    proof {
        reveal_strlit("");
        assert(""@ =~= Seq::<char>::empty());
    }
    assert(counts@ =~= summary_of(*d).0);
    let total = crate::shell::count_text("  (", d.additions + d.modifications + d.deletions, " total operations)");
    (counts, total)
}

/// Which preview entries a pane `height` rows high shows: six rows go to
/// the headings and note, and the scroll position stops where the last
/// entries fill the rest.
pub open spec fn entry_window(len: usize, scroll: usize, height: u16) -> (usize, usize) {
    let visible: int = if height >= 6 { height - 6 } else { 0 };
    let last: int = if len >= visible { len - visible } else { 0 };
    let start: int = if scroll < last { scroll as int } else { last };
    let end: int = if start + visible < len { start + visible } else { len as int };
    (start as usize, end as usize)
}

/// The entries shown, and the range note when not all of them fit.
pub fn preview_window(len: usize, scroll: usize, height: u16) -> (r: (usize, usize, Option<String>))
    requires
        len < usize::MAX,
    ensures
        (r.0, r.1) == entry_window(len, scroll, height),
        r.0 <= r.1 <= len,
        len > (if height >= 6 { height - 6 } else { 0 }) ==> (r.2 matches Some(t) && t@ == "  "@ + range_text(
            r.0,
            r.1,
            len,
        )),
        len <= (if height >= 6 { height - 6 } else { 0 }) ==> r.2 is None,
{
    let visible: usize = height.saturating_sub(6) as usize;
    let last = len.saturating_sub(visible);
    let start = if scroll < last { scroll } else { last };
    let end = if start.saturating_add(visible) < len { start + visible } else { len };
    let note = if len > visible {
        Some(crate::listing::range_note("  ", start, end, len))
    } else {
        None
    };
    (start, end, note)
}

/// The colour of a preview entry.
pub open spec fn entry_tone(k: EntryKind) -> Tone {
    match k {
        EntryKind::Addition => Tone::Success,
        EntryKind::Modification | EntryKind::Warning => Tone::Warning,
        EntryKind::Deletion => Tone::Error,
        EntryKind::Exclusion => Tone::Muted,
    }
}

/// The mark of an entry's kind.
pub open spec fn kind_mark(k: EntryKind) -> Seq<char> {
    match k {
        EntryKind::Addition => "+"@,
        EntryKind::Modification => "~"@,
        EntryKind::Deletion => "-"@,
        EntryKind::Exclusion => "i"@,
        EntryKind::Warning => "!"@,
    }
}

/// A preview entry as a line: its mark, its path and its detail in
/// brackets.
pub fn preview_entry_line(e: &PreviewEntry) -> (r: (String, String, Option<String>, Tone))
    ensures
        r.0@ == kind_mark(e.kind) + " "@,
        r.1@ == e.path@,
        match e.detail {
            Some(d) => r.2 matches Some(t) && t@ == "  ("@ + d@ + ")"@,
            None => r.2 is None,
        },
        r.3 == entry_tone(e.kind),
{
    let mut mark = owned(e.kind.prefix());
    push_str(&mut mark, " ");
    let detail = match &e.detail {
        Some(d) => {
            let mut t = owned("  (");
            push_str(&mut t, d.as_str());
            push_str(&mut t, ")");
            Some(t)
        },
        None => None,
    };
    let tone = match e.kind {
        EntryKind::Addition => Tone::Success,
        EntryKind::Modification | EntryKind::Warning => Tone::Warning,
        EntryKind::Deletion => Tone::Error,
        EntryKind::Exclusion => Tone::Muted,
    };
    (mark, e.path.clone(), detail, tone)
}

} // verus!
