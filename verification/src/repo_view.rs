//! The words of the repository screen: the status under the browser, the
//! namespace list with its rows' click areas, and the path field's
//! validation report.

use vstd::prelude::*;

use crate::chars::{decimal, owned, push_str};
use crate::overview::Tone;
use crate::panes::{notes_view, Note};
use crate::paths::parts_of;
use crate::pointer::{sat_add16, ClickAction, PointerMap, Rect, Region};
use crate::screens::repository::{display_path, ConfirmState, NamespaceSummary, OwnershipInfo, RepoInfo};
use crate::shell::App;
use crate::task::LoadState;
use crate::text::wrapped;

verus! {

fn note(text: String, tone: Tone) -> (n: Note)
    ensures
        n.text@ == text@,
        n.tone == tone,
{
    Note { text, tone }
}

fn join2(a: &str, b: &str) -> (r: String)
    ensures
        r@ == a@ + b@,
{
    let mut r = owned(a);
    push_str(&mut r, b);
    r
}

fn joined(a: &str, b: &str, c: &str) -> (r: String)
    ensures
        r@ == a@ + b@ + c@,
{
    let mut r = owned(a);
    push_str(&mut r, b);
    push_str(&mut r, c);
    r
}

/// One line on what the validated namespace holds.
pub open spec fn ownership_note(o: OwnershipInfo) -> (Seq<char>, Tone) {
    match o {
        OwnershipInfo::New => (" New namespace"@, Tone::Success),
        OwnershipInfo::Owned { sources } => (
            " Existing manifest ("@ + decimal(sources.len() as nat) + " sources)"@,
            Tone::Warning,
        ),
        OwnershipInfo::InvalidManifest(reason) => (" ✗ Invalid manifest: "@ + reason@, Tone::Error),
        OwnershipInfo::Ambiguous(reason) => (" ✗ Ambiguous: "@ + reason@, Tone::Error),
    }
}

pub fn ownership_line(o: &OwnershipInfo) -> (n: Note)
    ensures
        (n.text@, n.tone) == ownership_note(*o),
{
    match o {
        OwnershipInfo::New => note(owned(" New namespace"), Tone::Success),
        OwnershipInfo::Owned { sources } => note(
            crate::shell::count_text(" Existing manifest (", sources.len(), " sources)"),
            Tone::Warning,
        ),
        OwnershipInfo::InvalidManifest(reason) => note(join2(" ✗ Invalid manifest: ", reason.as_str()), Tone::Error),
        OwnershipInfo::Ambiguous(reason) => note(join2(" ✗ Ambiguous: ", reason.as_str()), Tone::Error),
    }
}

/// The line an open or finished repository question adds.
pub open spec fn confirm_note(c: ConfirmState) -> Seq<(Seq<char>, Tone)> {
    match c {
        ConfirmState::AskInitialize => seq![(" Initialize this repository?"@, Tone::Warning)],
        ConfirmState::AskAttach => seq![(" Attach to this repository?"@, Tone::Warning)],
        ConfirmState::Done => seq![(" ✓ Repository configured."@, Tone::Success)],
        ConfirmState::Idle => Seq::empty(),
    }
}

fn push_confirm(v: &mut Vec<Note>, c: ConfirmState)
    ensures
        notes_view(final(v)@) == notes_view(old(v)@) + confirm_note(c),
{
    let ghost before = v@;
    match c {
        ConfirmState::AskInitialize => v.push(note(owned(" Initialize this repository?"), Tone::Warning)),
        ConfirmState::AskAttach => v.push(note(owned(" Attach to this repository?"), Tone::Warning)),
        ConfirmState::Done => v.push(note(owned(" ✓ Repository configured."), Tone::Success)),
        ConfirmState::Idle => {},
    }
    assert(notes_view(v@) =~= notes_view(before) + confirm_note(c));
}

/// The status under the repository browser: the namespace in use, a
/// failed selection, the validation and the open question.
pub open spec fn browser_status_notes(a: App) -> Seq<(Seq<char>, Tone)> {
    let r = a.repo_screen;
    seq![(
        " Namespace: "@ + match a.config {
            Some(c) => c.namespace@,
            None => r.namespace_input@,
        },
        Tone::Muted,
    )] + match r.selection_error {
        Some(e) => seq![(" ✗ "@ + e@, Tone::Error)],
        None => Seq::empty(),
    } + match r.validation {
        LoadState::Loaded(info) => seq![(" ✓ Valid repository — "@ + info.branch@, Tone::Success), ownership_note(
            info.ownership,
        )],
        LoadState::Loading { .. } => seq![(" Checking repository..."@, Tone::Warning)],
        LoadState::Failed { error, .. } => seq![(" ✗ "@ + error@ + ". Select a directory to retry."@, Tone::Error)],
        LoadState::Stale { .. } => seq![
            (" Repository validation is stale. Select a directory to validate again."@, Tone::Muted),
        ],
        LoadState::NotLoaded => seq![(" Select an existing Git worktree to validate it."@, Tone::Muted)],
    } + confirm_note(r.confirm_state)
}

pub fn browser_status(a: &App) -> (v: Vec<Note>)
    ensures
        notes_view(v@) == browser_status_notes(*a),
{
    let r = &a.repo_screen;
    let mut v: Vec<Note> = Vec::new();
    let ns = match &a.config {
        Some(c) => c.namespace.as_str(),
        None => r.namespace_input.as_str(),
    };
    v.push(note(join2(" Namespace: ", ns), Tone::Muted));
    let ghost s1 = notes_view(v@);
    if let Some(e) = &r.selection_error {
        v.push(note(join2(" ✗ ", e.as_str()), Tone::Error));
    }
    assert(notes_view(v@) =~= s1 + match r.selection_error {
        Some(e) => seq![(" ✗ "@ + e@, Tone::Error)],
        None => Seq::empty(),
    });
    let ghost s2 = notes_view(v@);
    match &r.validation {
        LoadState::Loaded(info) => {
            v.push(note(join2(" ✓ Valid repository — ", info.branch.as_str()), Tone::Success));
            v.push(ownership_line(&info.ownership));
        },
        LoadState::Loading { .. } => v.push(note(owned(" Checking repository..."), Tone::Warning)),
        LoadState::Failed { error, .. } => v.push(
            note(joined(" ✗ ", error.as_str(), ". Select a directory to retry."), Tone::Error),
        ),
        LoadState::Stale { .. } => v.push(
            note(owned(" Repository validation is stale. Select a directory to validate again."), Tone::Muted),
        ),
        LoadState::NotLoaded => v.push(note(owned(" Select an existing Git worktree to validate it."), Tone::Muted)),
    }
    assert(notes_view(v@) =~= s2 + match r.validation {
        LoadState::Loaded(info) => seq![(" ✓ Valid repository — "@ + info.branch@, Tone::Success), ownership_note(
            info.ownership,
        )],
        LoadState::Loading { .. } => seq![(" Checking repository..."@, Tone::Warning)],
        LoadState::Failed { error, .. } => seq![(" ✗ "@ + error@ + ". Select a directory to retry."@, Tone::Error)],
        LoadState::Stale { .. } => seq![
            (" Repository validation is stale. Select a directory to validate again."@, Tone::Muted),
        ],
        LoadState::NotLoaded => seq![(" Select an existing Git worktree to validate it."@, Tone::Muted)],
    });
    push_confirm(&mut v, r.confirm_state);
    v
}

/// The validation report under the typed repository path.
pub open spec fn path_report_notes(a: App) -> Seq<(Seq<char>, Tone)> {
    let r = a.repo_screen;
    (match r.validation {
        LoadState::Loaded(info) => seq![
            ("  ✓ Valid repository"@, Tone::Success),
            ("    Branch: "@ + info.branch@, Tone::Muted),
            ("    Path: "@ + display_path(parts_of(info.path)), Tone::Muted),
            (Seq::empty(), Tone::Muted),
        ] + ownership_report(info.ownership),
        LoadState::Loading { .. } => seq![("  Checking repository..."@, Tone::Warning)],
        LoadState::Failed { error, .. } => seq![("  ✗ "@ + error@ + ". Press Enter to retry."@, Tone::Error)],
        LoadState::Stale { .. } => seq![("  Validation is stale. Press Enter to retry."@, Tone::Muted)],
        LoadState::NotLoaded => seq![("  Press Enter to validate the path."@, Tone::Muted)],
    }) + confirm_note(r.confirm_state)
}

/// What the validated namespace holds, in detail: an owned one lists up to
/// five of its sources.
pub open spec fn ownership_report(o: OwnershipInfo) -> Seq<(Seq<char>, Tone)> {
    match o {
        OwnershipInfo::New => seq![("  New namespace — no existing data."@, Tone::Success)],
        OwnershipInfo::Owned { sources } => seq![
            ("  Existing manifest found."@, Tone::Warning),
            ("    Sources: "@ + decimal(sources.len() as nat), Tone::Muted),
        ] + Seq::new(
            if sources.len() < 5 { sources.len() as nat } else { 5 },
            |i: int| ("      • "@ + sources@[i]@, Tone::Muted),
        ),
        OwnershipInfo::InvalidManifest(reason) => seq![("  ✗ Invalid manifest: "@ + reason@, Tone::Error)],
        OwnershipInfo::Ambiguous(reason) => seq![("  ✗ Ambiguous: "@ + reason@, Tone::Error)],
    }
}

fn push_ownership_report(v: &mut Vec<Note>, o: &OwnershipInfo)
    ensures
        notes_view(final(v)@) == notes_view(old(v)@) + ownership_report(*o),
{
    let ghost before = notes_view(v@);
    match o {
        OwnershipInfo::New => v.push(note(owned("  New namespace — no existing data."), Tone::Success)),
        OwnershipInfo::Owned { sources } => {
            v.push(note(owned("  Existing manifest found."), Tone::Warning));
            v.push(note(crate::shell::count_text("    Sources: ", sources.len(), ""), Tone::Muted));
            proof {
                reveal_strlit("");
                assert("    Sources: "@ + decimal(sources.len() as nat) + ""@ =~= "    Sources: "@ + decimal(
                    sources.len() as nat,
                ));
            }
            let ghost head = notes_view(v@);
            let n = if sources.len() < 5 { sources.len() } else { 5 };
            let mut i: usize = 0;
            while i < n
                invariant
                    i <= n,
                    n <= sources.len(),
                    notes_view(v@) == head + Seq::new(i as nat, |k: int| ("      • "@ + sources@[k]@, Tone::Muted)),
                decreases n - i,
            {
                let ghost prev = notes_view(v@);
                v.push(note(join2("      • ", sources[i].as_str()), Tone::Muted));
                assert(notes_view(v@) =~= prev.push(("      • "@ + sources@[i as int]@, Tone::Muted)));
                assert(head + Seq::new((i + 1) as nat, |k: int| ("      • "@ + sources@[k]@, Tone::Muted)) =~= (head
                    + Seq::new(i as nat, |k: int| ("      • "@ + sources@[k]@, Tone::Muted))).push(
                    ("      • "@ + sources@[i as int]@, Tone::Muted),
                ));
                i = i + 1;
            }
        },
        OwnershipInfo::InvalidManifest(reason) => v.push(
            note(join2("  ✗ Invalid manifest: ", reason.as_str()), Tone::Error),
        ),
        OwnershipInfo::Ambiguous(reason) => v.push(note(join2("  ✗ Ambiguous: ", reason.as_str()), Tone::Error)),
    }
    assert(notes_view(v@) =~= before + ownership_report(*o));
}

pub fn path_report(a: &App) -> (v: Vec<Note>)
    ensures
        notes_view(v@) == path_report_notes(*a),
{
    let r = &a.repo_screen;
    let mut v: Vec<Note> = Vec::new();
    match &r.validation {
        LoadState::Loaded(info) => {
            v.push(note(owned("  ✓ Valid repository"), Tone::Success));
            v.push(note(join2("    Branch: ", info.branch.as_str()), Tone::Muted));
            let path = crate::screens::repository::path_text(&info.path);
            v.push(note(join2("    Path: ", path.as_str()), Tone::Muted));
            v.push(note(String::new(), Tone::Muted));
            let ghost head = notes_view(v@);
            push_ownership_report(&mut v, &info.ownership);
        },
        LoadState::Loading { .. } => v.push(note(owned("  Checking repository..."), Tone::Warning)),
        LoadState::Failed { error, .. } => v.push(note(joined("  ✗ ", error.as_str(), ". Press Enter to retry."), Tone::Error)),
        LoadState::Stale { .. } => v.push(note(owned("  Validation is stale. Press Enter to retry."), Tone::Muted)),
        LoadState::NotLoaded => v.push(note(owned("  Press Enter to validate the path."), Tone::Muted)),
    }
    let ghost mid = notes_view(v@);
    assert(mid =~= match r.validation {
        LoadState::Loaded(info) => seq![
            ("  ✓ Valid repository"@, Tone::Success),
            ("    Branch: "@ + info.branch@, Tone::Muted),
            ("    Path: "@ + display_path(parts_of(info.path)), Tone::Muted),
            (Seq::empty(), Tone::Muted),
        ] + ownership_report(info.ownership),
        LoadState::Loading { .. } => seq![("  Checking repository..."@, Tone::Warning)],
        LoadState::Failed { error, .. } => seq![("  ✗ "@ + error@ + ". Press Enter to retry."@, Tone::Error)],
        LoadState::Stale { .. } => seq![("  Validation is stale. Press Enter to retry."@, Tone::Muted)],
        LoadState::NotLoaded => seq![("  Press Enter to validate the path."@, Tone::Muted)],
    });
    push_confirm(&mut v, r.confirm_state);
    v
}

/// How a namespace row reads: its marker, name, standing and ownership.
#[derive(Debug)]
pub struct NamespaceRow {
    pub index: usize,
    pub selected: bool,
    pub name: String,
    pub standing: String,
    pub ownership: String,
    pub tone: Tone,
    /// For the selected row of an unusable namespace: the reason, wrapped.
    pub reason: Vec<String>,
}

/// How a namespace stands: the active one, a sibling of it, or one free to
/// take when nothing is configured yet.
pub open spec fn standing_of(n: NamespaceSummary, configured: bool) -> Seq<char> {
    if n.active {
        " active"@
    } else if configured {
        " sibling"@
    } else {
        " available"@
    }
}

pub open spec fn ownership_tone(o: OwnershipInfo) -> Tone {
    match o {
        OwnershipInfo::New => Tone::Warning,
        OwnershipInfo::Owned { .. } => Tone::Success,
        OwnershipInfo::InvalidManifest(_) => Tone::Error,
        OwnershipInfo::Ambiguous(_) => Tone::Warning,
    }
}

pub open spec fn ownership_label(o: OwnershipInfo) -> Seq<char> {
    match o {
        OwnershipInfo::New => "New"@,
        OwnershipInfo::Owned { .. } => "Owned"@,
        OwnershipInfo::InvalidManifest(_) => "Invalid"@,
        OwnershipInfo::Ambiguous(_) => "Ambiguous"@,
    }
}

/// The reason lines under a selected row.
pub open spec fn reason_lines(o: OwnershipInfo, width: u16) -> Seq<Seq<char>> {
    match o {
        OwnershipInfo::InvalidManifest(reason) => wrapped(reason@, (if width >= 4 { width - 4 } else { 0 }) as nat),
        OwnershipInfo::Ambiguous(reason) => wrapped(reason@, (if width >= 4 { width - 4 } else { 0 }) as nat),
        _ => Seq::empty(),
    }
}

pub open spec fn row_matches(ns: Seq<NamespaceSummary>, k: int, selected: usize, configured: bool, width: u16, row: NamespaceRow) -> bool {
    &&& row.index == k
    &&& row.selected == (k == selected)
    &&& row.name@ == ns[k].name@
    &&& row.standing@ == standing_of(ns[k], configured)
    &&& row.ownership@ == ownership_label(ns[k].ownership)
    &&& row.tone == ownership_tone(ns[k].ownership)
    &&& row.reason@.map_values(|s: String| s@) == if k == selected {
        reason_lines(ns[k].ownership, width)
    } else {
        Seq::empty()
    }
}

/// Rows between the top of the list and namespace row `k`: three heading
/// rows, the rows above it, and the reason lines of the selected row when
/// it comes before.
pub open spec fn namespace_offset(ns: Seq<NamespaceSummary>, selected: usize, width: u16, k: int) -> int {
    3 + k + if 0 <= selected < k && selected < ns.len() {
        reason_lines(ns[selected as int].ownership, width).len() as int
    } else {
        0
    }
}

/// The click areas of the first `n` namespace rows of the list in `inner`.
pub open spec fn namespace_regions(ns: Seq<NamespaceSummary>, selected: usize, inner: Rect, n: nat) -> Seq<Region> {
    if inner.width > 0 {
        Seq::new(
            n,
            |k: int|
                Region {
                    rect: Rect {
                        x: inner.x,
                        y: crate::pointer::row_at(inner, namespace_offset(ns, selected, inner.width, k)),
                        width: inner.width,
                        height: 1,
                    },
                    click: Some(ClickAction::Namespace(k as usize)),
                    scroll: None,
                },
        )
    } else {
        Seq::empty()
    }
}

/// The namespace rows of the list drawn in `inner`: three heading rows (a
/// fourth when the list is empty), then one row per namespace, each
/// answering clicks on its own line; the selected row's reason lines push
/// the rows after it down.
pub fn namespace_rows(a: &App, inner: Rect, map: &mut PointerMap) -> (r: Vec<NamespaceRow>)
    ensures
        r.len() == a.repo_screen.namespaces.len(),
        forall|k: int|
            0 <= k < r.len() ==> row_matches(
                a.repo_screen.namespaces@,
                k,
                a.repo_screen.namespace_selected,
                a.config is Some,
                inner.width,
                #[trigger] r@[k],
            ),
        final(map)@ == old(map)@ + namespace_regions(
            a.repo_screen.namespaces@,
            a.repo_screen.namespace_selected,
            inner,
            r.len() as nat,
        ),
{
    let ns = &a.repo_screen.namespaces;
    let selected = a.repo_screen.namespace_selected;
    let configured = a.config.is_some();
    let mut rows: Vec<NamespaceRow> = Vec::new();
    let mut line: u16 = if ns.len() == 0 { 4 } else { 3 };
    let mut k: usize = 0;
    while k < ns.len()
        invariant
            k <= ns.len(),
            ns == a.repo_screen.namespaces,
            selected == a.repo_screen.namespace_selected,
            configured == (a.config is Some),
            rows.len() == k,
            forall|j: int| 0 <= j < k ==> row_matches(ns@, j, selected, configured, inner.width, #[trigger] rows@[j]),
            ns.len() > 0 ==> line as int == if namespace_offset(ns@, selected, inner.width, k as int) > u16::MAX {
                u16::MAX as int
            } else {
                namespace_offset(ns@, selected, inner.width, k as int)
            },
            map@ == old(map)@ + namespace_regions(ns@, selected, inner, k as nat),
        decreases ns.len() - k,
    {
        let item = &ns[k];
        map.click(Rect::new(inner.x, inner.y.saturating_add(line), inner.width, 1), ClickAction::Namespace(k));
        assert(old(map)@ + namespace_regions(ns@, selected, inner, (k + 1) as nat) =~= map@);
        line = line.saturating_add(1);
        let standing = owned(
            if item.active {
                " active"
            } else if configured {
                " sibling"
            } else {
                " available"
            },
        );
        let tone = match item.ownership {
            OwnershipInfo::New => Tone::Warning,
            OwnershipInfo::Owned { .. } => Tone::Success,
            OwnershipInfo::InvalidManifest(_) => Tone::Error,
            OwnershipInfo::Ambiguous(_) => Tone::Warning,
        };
        let reason: Vec<String> = if k == selected {
            match &item.ownership {
                OwnershipInfo::InvalidManifest(why) | OwnershipInfo::Ambiguous(why) => {
                    let lines = crate::text::wrap(why.as_str(), inner.width.saturating_sub(4) as usize);
                    assert(lines@.map_values(|s: String| s@) =~= reason_lines(item.ownership, inner.width));
                    lines
                },
                _ => {
                    let none: Vec<String> = Vec::new();
                    assert(none@.map_values(|s: String| s@) =~= reason_lines(item.ownership, inner.width));
                    none
                },
            }
        } else {
            let none: Vec<String> = Vec::new();
            assert(none@.map_values(|s: String| s@) =~= Seq::<Seq<char>>::empty());
            none
        };
        let extra = reason.len();
        line = if extra > 65535 { 65535 } else { line.saturating_add(extra as u16) };
        rows.push(
            NamespaceRow {
                index: k,
                selected: k == selected,
                name: item.name.clone(),
                standing,
                ownership: owned(item.ownership.label()),
                tone,
                reason,
            },
        );
        k = k + 1;
    }
    rows
}

} // verus!
