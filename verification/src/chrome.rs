//! The frame around the screens: how the terminal size classes the layout,
//! which parts own the pointer, the titles that name the focused part and
//! its mode, and where clicks on the tab bar land.

use vstd::prelude::*;

use crate::chars::{byte_len, byte_length, owned, push_str};
use crate::hints::click_region;
use crate::pointer::{sat_add16, ClickAction, PointerMap, Rect, Region, ScrollAction};
use crate::screens::automation::ConfirmAction;
use crate::screens::repository::{ConfirmState, RepoMode};
use crate::shell::{screen_at, App, Focus, Screen, SCREEN_COUNT};
use crate::status::StatusKind;
use crate::keys::{KeyCode, KeyModifiers, NO_MODIFIERS};
use crate::theme::{theme_at, theme_label, ThemeId, THEME_COUNT};
use crate::task::TaskKind;
use crate::text::truncated;

verus! {

/// How much room the terminal gives.
#[derive(Debug, Clone, Copy, PartialEq, Eq, Structural)]
pub enum LayoutClass {
    Wide,
    Medium,
    Narrow,
    Short,
}

/// Fewer than 12 rows is short; otherwise the width decides: under 40
/// columns narrow, under 80 medium, else wide.
pub open spec fn class_of(area: Rect) -> LayoutClass {
    if area.height < 12 {
        LayoutClass::Short
    } else if area.width < 40 {
        LayoutClass::Narrow
    } else if area.width < 80 {
        LayoutClass::Medium
    } else {
        LayoutClass::Wide
    }
}

pub fn layout_class(area: Rect) -> (c: LayoutClass)
    ensures
        c == class_of(area),
{
    if area.height < 12 {
        LayoutClass::Short
    } else if area.width < 40 {
        LayoutClass::Narrow
    } else if area.width < 80 {
        LayoutClass::Medium
    } else {
        LayoutClass::Wide
    }
}

/// The screens whose content scrolls under the wheel.
pub open spec fn scrolls(s: Screen) -> bool {
    s == Screen::Repository || s == Screen::Sources || s == Screen::Ignore || s == Screen::Preview || s
        == Screen::History
}

pub fn screen_scrolls(a: &App) -> (r: bool)
    ensures
        r == scrolls(a.active_screen),
{
    match a.active_screen {
        Screen::Repository | Screen::Sources | Screen::Ignore | Screen::Preview | Screen::History => true,
        Screen::Dashboard | Screen::Automation => false,
    }
}

/// Whether a dialog, a text field or the theme picker owns the pointer, so
/// that only the help bar answers clicks.
pub open spec fn modal_owns(a: App) -> bool {
    if a.theme_picker is Some {
        true
    } else {
        match a.active_screen {
            Screen::Dashboard => a.dashboard_screen.detail is Some,
            Screen::Repository => a.repo_screen.namespace_confirmation is Some || a.repo_screen.confirm_state
                == ConfirmState::AskInitialize || a.repo_screen.confirm_state == ConfirmState::AskAttach
                || a.repo_screen.mode == RepoMode::TextInput || a.repo_screen.mode == RepoMode::NamespaceInput,
            Screen::Sources => a.sources_screen.mode == crate::screens::sources::Mode::AddInput
                || a.sources_screen.mode == crate::screens::sources::Mode::ConfirmDelete || a.sources_screen.mode
                == crate::screens::sources::Mode::PendingChanges || a.sources_screen.mode
                == crate::screens::sources::Mode::ConfirmApply,
            Screen::Ignore => a.ignore_screen.mode == crate::screens::ignore::Mode::AddInput,
            Screen::Automation => a.automation_screen.confirm != ConfirmAction::Idle,
            Screen::Preview | Screen::History => false,
        }
    }
}

pub fn modal_owns_pointer(a: &App) -> (r: bool)
    ensures
        r == modal_owns(*a),
{
    if a.theme_picker.is_some() {
        return true;
    }
    match a.active_screen {
        Screen::Dashboard => a.dashboard_screen.detail.is_some(),
        Screen::Repository => a.repo_screen.namespace_confirmation.is_some() || a.repo_screen.confirm_state
            == ConfirmState::AskInitialize || a.repo_screen.confirm_state == ConfirmState::AskAttach
            || a.repo_screen.mode == RepoMode::TextInput || a.repo_screen.mode == RepoMode::NamespaceInput,
        Screen::Sources => a.sources_screen.mode == crate::screens::sources::Mode::AddInput || a.sources_screen.mode
            == crate::screens::sources::Mode::ConfirmDelete || a.sources_screen.mode
            == crate::screens::sources::Mode::PendingChanges || a.sources_screen.mode
            == crate::screens::sources::Mode::ConfirmApply,
        Screen::Ignore => a.ignore_screen.mode == crate::screens::ignore::Mode::AddInput,
        Screen::Automation => a.automation_screen.confirm != ConfirmAction::Idle,
        Screen::Preview | Screen::History => false,
    }
}

/// The interaction mode that owns input on the active screen, as its
/// title shows it.
pub open spec fn mode_label(a: App) -> Seq<char> {
    match a.active_screen {
        Screen::Dashboard => if a.tasks@.active is Some {
            "Running"@
        } else {
            "Overview"@
        },
        Screen::Repository => if a.repo_screen.confirm_state == ConfirmState::AskInitialize
            || a.repo_screen.confirm_state == ConfirmState::AskAttach || a.repo_screen.namespace_confirmation is Some {
            "Confirming"@
        } else {
            match a.repo_screen.mode {
                RepoMode::Browser => "Browsing"@,
                RepoMode::Namespaces => "Managing namespaces"@,
                RepoMode::TextInput | RepoMode::NamespaceInput => "Editing"@,
            }
        },
        Screen::Sources => match a.sources_screen.mode {
            crate::screens::sources::Mode::List => "Browsing"@,
            crate::screens::sources::Mode::Browse => "Selecting"@,
            crate::screens::sources::Mode::AddInput => "Editing"@,
            crate::screens::sources::Mode::PendingChanges => "Reviewing"@,
            crate::screens::sources::Mode::ConfirmDelete | crate::screens::sources::Mode::ConfirmApply => "Confirming"@,
        },
        Screen::Ignore => match a.ignore_screen.mode {
            crate::screens::ignore::Mode::List => "Browsing"@,
            crate::screens::ignore::Mode::AddInput => "Editing"@,
            crate::screens::ignore::Mode::Preview => "Previewing"@,
        },
        Screen::Preview => if a.preview_screen.load_state is Loading {
            "Running"@
        } else {
            "Previewing"@
        },
        Screen::Automation => if a.automation_screen.confirm != ConfirmAction::Idle {
            "Confirming"@
        } else if a.automation_screen.status_state is Loading {
            "Running"@
        } else {
            "Inspecting"@
        },
        Screen::History => if a.history_screen.mode == crate::screens::history::Mode::LogView {
            "Previewing"@
        } else {
            "Browsing"@
        },
    }
}

fn mode_text(a: &App) -> (r: &'static str)
    ensures
        r@ == mode_label(*a),
{
    match a.active_screen {
        Screen::Dashboard => if a.tasks.is_busy() {
            "Running"
        } else {
            "Overview"
        },
        Screen::Repository => if a.repo_screen.confirm_state == ConfirmState::AskInitialize
            || a.repo_screen.confirm_state == ConfirmState::AskAttach || a.repo_screen.namespace_confirmation.is_some() {
            "Confirming"
        } else {
            match a.repo_screen.mode {
                RepoMode::Browser => "Browsing",
                RepoMode::Namespaces => "Managing namespaces",
                RepoMode::TextInput | RepoMode::NamespaceInput => "Editing",
            }
        },
        Screen::Sources => match a.sources_screen.mode {
            crate::screens::sources::Mode::List => "Browsing",
            crate::screens::sources::Mode::Browse => "Selecting",
            crate::screens::sources::Mode::AddInput => "Editing",
            crate::screens::sources::Mode::PendingChanges => "Reviewing",
            crate::screens::sources::Mode::ConfirmDelete | crate::screens::sources::Mode::ConfirmApply => "Confirming",
        },
        Screen::Ignore => match a.ignore_screen.mode {
            crate::screens::ignore::Mode::List => "Browsing",
            crate::screens::ignore::Mode::AddInput => "Editing",
            crate::screens::ignore::Mode::Preview => "Previewing",
        },
        Screen::Preview => if a.preview_screen.load_state.is_loading() {
            "Running"
        } else {
            "Previewing"
        },
        Screen::Automation => if a.automation_screen.confirm != ConfirmAction::Idle {
            "Confirming"
        } else if a.automation_screen.status_state.is_loading() {
            "Running"
        } else {
            "Inspecting"
        },
        Screen::History => if a.history_screen.mode == crate::screens::history::Mode::LogView {
            "Previewing"
        } else {
            "Browsing"
        },
    }
}

/// The two parts of a screen's title: which part has focus and the
/// screen's name, then the mode in brackets.
pub open spec fn title_of(a: App, screen: Seq<char>) -> (Seq<char>, Seq<char>) {
    let marker = if a.focus == Focus::Content {
        "▶ CONTENT"@
    } else {
        "  Content"@
    };
    (" "@ + marker + " · "@ + screen + " "@, "["@ + mode_label(a) + "] "@)
}

/// The title of the active screen's frame.
pub fn screen_title(a: &App, screen: &str) -> (r: (String, String))
    ensures
        (r.0@, r.1@) == title_of(*a, screen@),
{
    let mut head = owned(" ");
    if a.focus == Focus::Content {
        push_str(&mut head, "▶ CONTENT");
    } else {
        push_str(&mut head, "  Content");
    }
    push_str(&mut head, " · ");
    push_str(&mut head, screen);
    push_str(&mut head, " ");
    let mut mode = owned("[");
    push_str(&mut mode, mode_text(a));
    push_str(&mut mode, "] ");
    (head, mode)
}

/// The tab bar's title: which part has focus, then the namespace in use.
pub open spec fn tab_title_of(a: App) -> Seq<Seq<char>> {
    let marker = if a.focus == Focus::TabBar {
        " ▶ TAB FOCUS · dothoard "@
    } else {
        "   Tabs · dothoard "@
    };
    match a.config {
        Some(c) => seq![marker, "· namespace "@, c.namespace@, " "@],
        None => seq![marker],
    }
}

pub fn tab_title(a: &App) -> (r: Vec<String>)
    ensures
        r@.map_values(|s: String| s@) == tab_title_of(*a),
{
    let mut r = Vec::new();
    if a.focus == Focus::TabBar {
        r.push(owned(" ▶ TAB FOCUS · dothoard "));
    } else {
        r.push(owned("   Tabs · dothoard "));
    }
    if let Some(c) = &a.config {
        r.push(owned("· namespace "));
        r.push(c.namespace.clone());
        r.push(owned(" "));
    }
    assert(r@.map_values(|s: String| s@) =~= tab_title_of(*a));
    r
}

/// The name of a screen on its tab.
pub open spec fn label_of(s: Screen) -> Seq<char> {
    match s {
        Screen::Dashboard => "Dashboard"@,
        Screen::Repository => "Repository"@,
        Screen::Sources => "Sources"@,
        Screen::Ignore => "Ignore"@,
        Screen::Preview => "Preview"@,
        Screen::Automation => "Automation"@,
        Screen::History => "History"@,
    }
}

/// Cells of the tab at position `k` from column `x`: four in a one-row
/// bar, else its label and five more, cut at the far edge.
pub open spec fn tab_cells(k: int, x: u16, area: Rect) -> u16 {
    let w: int = if area.height <= 1 {
        4
    } else if byte_len(label_of(screen_at(k))) + 5 > u16::MAX {
        u16::MAX as int
    } else {
        (byte_len(label_of(screen_at(k))) + 5) as int
    };
    let right = sat_add16(area.x, area.width);
    let room: int = if right > x { right - x } else { 0 };
    (if w < room { w } else { room }) as u16
}

/// Click areas of the tabs from position `k` on, laid out from column `x`;
/// layout stops after the last tab or at the far edge.
pub open spec fn tab_regions_from(k: int, x: u16, area: Rect) -> Seq<Region>
    decreases SCREEN_COUNT - k,
{
    if k < 0 || k >= SCREEN_COUNT {
        Seq::empty()
    } else {
        let w = tab_cells(k, x, area);
        let next = sat_add16(x, w) as u16;
        click_region(Rect { x, y: area.y, width: w, height: area.height }, ClickAction::Tab(screen_at(k))) + if k
            + 1 == SCREEN_COUNT || next >= sat_add16(area.x, area.width) {
            Seq::empty()
        } else {
            tab_regions_from(k + 1, next, area)
        }
    }
}

/// Click areas of the tab bar: a bar under 21 columns is one area for the
/// active tab; otherwise each tab answers over its own cells.
pub open spec fn tab_regions(area: Rect, active: Screen) -> Seq<Region> {
    if area.width < 21 {
        click_region(area, ClickAction::Tab(active))
    } else {
        tab_regions_from(0, area.x, area)
    }
}

/// Record where clicks on the tab bar land.
pub fn register_tab_regions(map: &mut PointerMap, area: Rect, active: Screen)
    ensures
        final(map)@ == old(map)@ + tab_regions(area, active),
{
    if area.width < 21 {
        map.click(area, ClickAction::Tab(active));
        assert(map@ =~= old(map)@ + tab_regions(area, active));
        return;
    }
    let ghost target = old(map)@ + tab_regions(area, active);
    let right = area.x.saturating_add(area.width);
    let mut x = area.x;
    let mut k: usize = 0;
    let mut stop = false;
    while k < SCREEN_COUNT && !stop
        invariant
            area.width >= 21,
            right == sat_add16(area.x, area.width),
            target == old(map)@ + tab_regions_from(0, area.x, area),
            k <= SCREEN_COUNT,
            stop ==> map@ == target,
            !stop ==> map@ + tab_regions_from(k as int, x, area) == target,
        decreases SCREEN_COUNT - k, if stop { 0int } else { 1int },
    {
        let ghost before = map@;
        let screen = match Screen::from_index(k) {
            Some(s) => s,
            None => Screen::History,
        };
        let label = screen.label();
        assert(label@ == label_of(screen_at(k as int)));
        let full: u16 = if area.height <= 1 {
            4
        } else {
            let n = byte_length(label);
            if n > 65530 { 65535 } else { (n + 5) as u16 }
        };
        let room: u16 = if right > x { right - x } else { 0 };
        let w = if full < room { full } else { room };
        assert(w == tab_cells(k as int, x, area));
        map.click(Rect::new(x, area.y, w, area.height), ClickAction::Tab(screen));
        let next = x.saturating_add(w);
        let ghost here = click_region(Rect { x, y: area.y, width: w, height: area.height }, ClickAction::Tab(screen_at(k as int)));
        assert(map@ =~= before + here);
        if k + 1 == SCREEN_COUNT || next >= right {
            assert(map@ =~= before + (here + Seq::empty()));
            stop = true;
        } else {
            assert(before + (here + tab_regions_from(k as int + 1, next, area)) =~= map@ + tab_regions_from(
                k as int + 1,
                next,
                area,
            ));
            x = next;
            k = k + 1;
        }
    }
    if !stop {
        assert(map@ + Seq::<Region>::empty() =~= map@);
    }
}

/// A recorded scroll area, or nothing for an empty rectangle.
pub open spec fn scroll_region(rect: Rect, action: ScrollAction) -> Seq<Region> {
    if rect.width > 0 && rect.height > 0 {
        seq![Region { rect, click: None, scroll: Some(action) }]
    } else {
        Seq::empty()
    }
}

/// The click areas of one browser row: with toggles, its first four cells
/// toggle the entry and the rest select it; without, the whole row selects.
pub open spec fn picker_row_regions(index: usize, row: Rect, toggles: bool) -> Seq<Region> {
    if toggles {
        let tw: u16 = if row.width < 4 { row.width } else { 4 };
        click_region(Rect { x: row.x, y: row.y, width: tw, height: 1 }, ClickAction::PickerToggle(index)) + click_region(
            Rect { x: sat_add16(row.x, tw) as u16, y: row.y, width: (row.width - tw) as u16, height: 1 },
            ClickAction::PickerEntry(index),
        )
    } else {
        click_region(row, ClickAction::PickerEntry(index))
    }
}

pub open spec fn picker_rows_regions(rows: Seq<(usize, Rect)>, toggles: bool) -> Seq<Region>
    decreases rows.len(),
{
    if rows.len() == 0 {
        Seq::empty()
    } else {
        picker_rows_regions(rows.drop_last(), toggles) + picker_row_regions(rows.last().0, rows.last().1, toggles)
    }
}

/// Record the pointer areas of a filesystem browser: its entry pane and
/// preview pane scroll, and each visible row answers clicks.
pub fn register_picker_pointer(
    map: &mut PointerMap,
    current: Rect,
    preview: Option<Rect>,
    rows: &Vec<(usize, Rect)>,
    toggles: bool,
)
    ensures
        final(map)@ == old(map)@ + scroll_region(current, ScrollAction::PickerEntries) + match preview {
            Some(p) => scroll_region(p, ScrollAction::PickerPreview),
            None => Seq::empty(),
        } + picker_rows_regions(rows@, toggles),
{
    map.scroll(current, ScrollAction::PickerEntries);
    if let Some(p) = preview {
        map.scroll(p, ScrollAction::PickerPreview);
    }
    let ghost head = map@;
    assert(head =~= old(map)@ + scroll_region(current, ScrollAction::PickerEntries) + match preview {
        Some(p) => scroll_region(p, ScrollAction::PickerPreview),
        None => Seq::empty(),
    });
    let mut i: usize = 0;
    assert(rows@.take(0) =~= Seq::<(usize, Rect)>::empty());
    while i < rows.len()
        invariant
            i <= rows.len(),
            map@ == head + picker_rows_regions(rows@.take(i as int), toggles),
        decreases rows.len() - i,
    {
        let ghost before = map@;
        let (index, row) = rows[i];
        if toggles {
            let tw = if row.width < 4 { row.width } else { 4 };
            map.click(Rect::new(row.x, row.y, tw, 1), ClickAction::PickerToggle(index));
            map.click(Rect::new(row.x.saturating_add(tw), row.y, row.width - tw, 1), ClickAction::PickerEntry(index));
        } else {
            map.click(row, ClickAction::PickerEntry(index));
        }
        assert(map@ =~= before + picker_row_regions(index, row, toggles));
        assert(rows@.take(i + 1).drop_last() =~= rows@.take(i as int));
        assert(map@ =~= head + picker_rows_regions(rows@.take(i + 1), toggles));
        i = i + 1;
    }
    assert(rows@.take(rows.len() as int) =~= rows@);
}

pub open spec fn kind_name(k: StatusKind) -> Seq<char> {
    match k {
        StatusKind::Success => "Success"@,
        StatusKind::Running => "Running"@,
        StatusKind::Warning => "Warning"@,
        StatusKind::Error => "Error"@,
    }
}

/// What the status bar shows when no status message is published: a
/// screen's own message, else the work in progress.
pub open spec fn fallback_status(a: App) -> Option<(StatusKind, Seq<char>)> {
    if a.sources_screen.message is Some {
        let m = a.sources_screen.message->0;
        Some((
            match m.kind {
                crate::screens::sources::MessageKind::Info => StatusKind::Success,
                crate::screens::sources::MessageKind::Warning => StatusKind::Warning,
                crate::screens::sources::MessageKind::Error => StatusKind::Error,
            },
            m.text@,
        ))
    } else if a.ignore_screen.message is Some {
        let m = a.ignore_screen.message->0;
        Some((
            match m.kind {
                crate::screens::ignore::MessageKind::Success => StatusKind::Success,
                crate::screens::ignore::MessageKind::Error => StatusKind::Error,
            },
            m.text@,
        ))
    } else if a.automation_screen.message is Some {
        let m = a.automation_screen.message->0;
        Some((if m.success { StatusKind::Success } else { StatusKind::Error }, m.text@))
    } else if a.tasks@.active is Some {
        Some((
            StatusKind::Running,
            match a.tasks@.active->0 {
                TaskKind::Backup => "Backup"@,
                TaskKind::Check => "Check"@,
                TaskKind::Push => "Push"@,
            } + " in progress..."@,
        ))
    } else if a.repo_screen.validation is Loading {
        Some((StatusKind::Running, "Checking repository..."@))
    } else if a.preview_screen.load_state is Loading {
        Some((StatusKind::Running, "Generating backup preview..."@))
    } else if a.ignore_screen.preview_state is Loading {
        Some((StatusKind::Running, "Generating ignore preview..."@))
    } else if a.automation_screen.status_state is Loading {
        Some((StatusKind::Running, "Checking automation..."@))
    } else {
        None
    }
}

/// The status bar: the published message, else the fallback, as
/// `" Kind: text"` cut to the bar's width.
pub open spec fn status_line_of(a: App, width: u16) -> Option<(StatusKind, Seq<char>)> {
    let shown = match a.status_message {
        Some(m) => Some((m@.kind, m@.text)),
        None => fallback_status(a),
    };
    match shown {
        Some((kind, text)) => Some((kind, truncated(" "@ + kind_name(kind) + ": "@ + text, width as nat))),
        None => None,
    }
}

fn fallback(a: &App) -> (r: Option<(StatusKind, String)>)
    ensures
        match fallback_status(*a) {
            Some((k, t)) => r matches Some(p) && p.0 == k && p.1@ == t,
            None => r is None,
        },
{
    if let Some(m) = &a.sources_screen.message {
        let kind = match m.kind {
            crate::screens::sources::MessageKind::Info => StatusKind::Success,
            crate::screens::sources::MessageKind::Warning => StatusKind::Warning,
            crate::screens::sources::MessageKind::Error => StatusKind::Error,
        };
        Some((kind, m.text.clone()))
    } else if let Some(m) = &a.ignore_screen.message {
        let kind = match m.kind {
            crate::screens::ignore::MessageKind::Success => StatusKind::Success,
            crate::screens::ignore::MessageKind::Error => StatusKind::Error,
        };
        Some((kind, m.text.clone()))
    } else if let Some(m) = &a.automation_screen.message {
        Some((if m.success { StatusKind::Success } else { StatusKind::Error }, m.text.clone()))
    } else if let Some(kind) = a.tasks.active_task() {
        let mut t = owned(
            match kind {
                TaskKind::Backup => "Backup",
                TaskKind::Check => "Check",
                TaskKind::Push => "Push",
            },
        );
        push_str(&mut t, " in progress...");
        Some((StatusKind::Running, t))
    } else if a.repo_screen.validation.is_loading() {
        Some((StatusKind::Running, owned("Checking repository...")))
    } else if a.preview_screen.load_state.is_loading() {
        Some((StatusKind::Running, owned("Generating backup preview...")))
    } else if a.ignore_screen.preview_state.is_loading() {
        Some((StatusKind::Running, owned("Generating ignore preview...")))
    } else if a.automation_screen.status_state.is_loading() {
        Some((StatusKind::Running, owned("Checking automation...")))
    } else {
        None
    }
}

/// The status bar `width` cells wide.
pub fn status_line(a: &App, width: u16) -> (r: Option<(StatusKind, String)>)
    ensures
        match status_line_of(*a, width) {
            Some((k, t)) => r matches Some(p) && p.0 == k && p.1@ == t,
            None => r is None,
        },
{
    let shown = match &a.status_message {
        Some(m) => Some((m.kind(), owned(m.text()))),
        None => fallback(a),
    };
    match shown {
        Some((kind, text)) => {
            let mut line = owned(" ");
            push_str(&mut line, kind.label());
            push_str(&mut line, ": ");
            push_str(&mut line, text.as_str());
            Some((kind, crate::text::truncate(line.as_str(), width as usize)))
        },
        None => None,
    }
}

/// The theme picker's size inside `area`: six columns narrower, between
/// 30 and 56 wide, and tall enough for every theme and four more rows.
pub open spec fn theme_picker_size(area: Rect) -> (u16, u16) {
    let w: int = if area.width >= 6 { area.width - 6 } else { 0 };
    let width: int = if w < 30 { 30 } else if w > 56 { 56 } else { w };
    let height: int = if THEME_COUNT + 4 < area.height { THEME_COUNT + 4 } else { area.height as int };
    (width as u16, height as u16)
}

pub fn theme_picker_size_of(area: Rect) -> (r: (u16, u16))
    ensures
        r == theme_picker_size(area),
{
    let w = area.width.saturating_sub(6);
    let width = if w < 30 { 30 } else if w > 56 { 56 } else { w };
    let rows: u16 = 15;
    let height = if rows < area.height { rows } else { area.height };
    (width, height)
}

/// `s` padded with spaces to `n` characters.
pub open spec fn padded(s: Seq<char>, n: nat) -> Seq<char> {
    if s.len() >= n {
        s
    } else {
        s + Seq::new((n - s.len()) as nat, |i: int| ' ')
    }
}

fn pad(s: &str, n: usize) -> (r: String)
    ensures
        r@ == padded(s@, n as nat),
{
    let cs = crate::chars::chars_of(s);
    let mut r = owned(s);
    let mut k = cs.len();
    let ghost base = s@;
    while k < n
        invariant
            cs@ == base,
            cs.len() <= k <= n || (k == cs.len() && k >= n),
            r@ == base + Seq::new((k - cs.len()) as nat, |i: int| ' '),
        decreases n - k,
    {
        crate::chars::push_char(&mut r, ' ');
        assert(base + Seq::new((k + 1 - cs.len()) as nat, |i: int| ' ') =~= (base + Seq::new(
            (k - cs.len()) as nat,
            |i: int| ' ',
        )).push(' '));
        k = k + 1;
    }
    if cs.len() >= n {
        assert(r@ =~= base);
    }
    r
}

/// The rows of the theme picker: each theme, the selected one marked, its
/// name padded to eighteen characters.
pub fn theme_picker_rows(selected: ThemeId) -> (r: Vec<(bool, String)>)
    ensures
        r.len() == THEME_COUNT,
        forall|i: int|
            0 <= i < THEME_COUNT ==> (#[trigger] r@[i]).0 == (theme_at(i) == selected) && r@[i].1@ == padded(
                theme_label(theme_at(i)),
                18,
            ),
{
    let mut r: Vec<(bool, String)> = Vec::new();
    let mut i: usize = 0;
    while i < THEME_COUNT
        invariant
            i <= THEME_COUNT,
            r.len() == i,
            forall|k: int|
                0 <= k < i ==> (#[trigger] r@[k]).0 == (theme_at(k) == selected) && r@[k].1@ == padded(
                    theme_label(theme_at(k)),
                    18,
                ),
        decreases THEME_COUNT - i,
    {
        let id = ThemeId::from_index(i);
        r.push((id == selected, pad(id.label(), 18)));
        i = i + 1;
    }
    r
}

/// The click areas of the first `n` theme rows.
pub open spec fn theme_rows(inner: Rect, n: int) -> Seq<Region> {
    Seq::new(n as nat, |i: int| Region {
        rect: Rect { x: inner.x, y: sat_add16(inner.y, (1 + i) as u16) as u16, width: inner.width, height: 1 },
        click: Some(ClickAction::Theme(i as usize)),
        scroll: None,
    })
}

/// The click areas of the theme picker drawn in `inner`: a row per theme
/// after a blank row, then Enter and Esc in the key line.
pub open spec fn theme_picker_regions(inner: Rect) -> Seq<Region> {
    (if inner.width > 0 {
        theme_rows(inner, THEME_COUNT as int)
    } else {
        Seq::empty()
    }) + click_region(
        Rect { x: sat_add16(inner.x, 15) as u16, y: sat_add16(inner.y, 13) as u16, width: 5, height: 1 },
        ClickAction::Key(KeyCode::Enter, KeyModifiers { bits: NO_MODIFIERS }),
    ) + click_region(
        Rect { x: sat_add16(inner.x, 27) as u16, y: sat_add16(inner.y, 13) as u16, width: 3, height: 1 },
        ClickAction::Key(KeyCode::Esc, KeyModifiers { bits: NO_MODIFIERS }),
    )
}

/// Record where clicks on the theme picker land; it owns the pointer, so
/// earlier areas are dropped first.
pub fn register_theme_picker(map: &mut PointerMap, inner: Rect)
    ensures
        final(map)@ == theme_picker_regions(inner),
{
    map.clear();
    let mut i: usize = 0;
    while i < THEME_COUNT
        invariant
            i <= THEME_COUNT,
            map@ == if inner.width > 0 { theme_rows(inner, i as int) } else { Seq::empty() },
        decreases THEME_COUNT - i,
    {
        let ghost before = map@;
        map.click(Rect::new(inner.x, inner.y.saturating_add(1 + i as u16), inner.width, 1), ClickAction::Theme(i));
        assert(theme_rows(inner, i + 1) =~= theme_rows(inner, i as int).push(theme_rows(inner, i + 1)[i as int]));
        i = i + 1;
    }
    map.click(
        Rect::new(inner.x.saturating_add(15), inner.y.saturating_add(13), 5, 1),
        ClickAction::Key(KeyCode::Enter, KeyModifiers::none()),
    );
    map.click(
        Rect::new(inner.x.saturating_add(27), inner.y.saturating_add(13), 3, 1),
        ClickAction::Key(KeyCode::Esc, KeyModifiers::none()),
    );
    assert(map@ =~= theme_picker_regions(inner));
}

/// Rows of the tab bar: one unless the terminal is wide.
pub fn tab_bar_height(area: Rect) -> (h: u16)
    ensures
        h == if class_of(area) == LayoutClass::Wide { 3u16 } else { 1u16 },
{
    if layout_class(area) == LayoutClass::Wide {
        3
    } else {
        1
    }
}

/// A one-row tab bar: the tab numbers when there are 21 columns, else the
/// active tab's number and name.
#[derive(Debug)]
pub enum CompactTabs {
    /// `" n "` for each tab, the active one marked.
    Numbers(Vec<(bool, String)>),
    /// `"n/7 "` and the active tab's name cut to the rest of the row.
    Active { position: String, label: String },
}

pub fn compact_tabs(active: Screen, width: u16) -> (r: CompactTabs)
    ensures
        width >= 21 ==> (r matches CompactTabs::Numbers(v) && v.len() == SCREEN_COUNT && forall|i: int|
            0 <= i < SCREEN_COUNT ==> (#[trigger] v@[i]).0 == (screen_at(i) == active) && v@[i].1@ == " "@
                + crate::chars::decimal((i + 1) as nat) + " "@),
        width < 21 ==> (r matches CompactTabs::Active { position, label } && position@ == crate::chars::decimal(
            (crate::shell::screen_pos(active) + 1) as nat,
        ) + "/7 "@ && label@ == truncated(label_of(active), (if width >= 7 { width - 7 } else { 0 }) as nat)),
{
    if width >= 21 {
        let mut v: Vec<(bool, String)> = Vec::new();
        let mut i: usize = 0;
        while i < SCREEN_COUNT
            invariant
                i <= SCREEN_COUNT,
                v.len() == i,
                forall|k: int|
                    0 <= k < i ==> (#[trigger] v@[k]).0 == (screen_at(k) == active) && v@[k].1@ == " "@
                        + crate::chars::decimal((k + 1) as nat) + " "@,
            decreases SCREEN_COUNT - i,
        {
            let screen = match Screen::from_index(i) {
                Some(s) => s,
                None => Screen::History,
            };
            v.push((screen == active, crate::shell::count_text(" ", i + 1, " ")));
            i = i + 1;
        }
        CompactTabs::Numbers(v)
    } else {
        let position = crate::shell::count_text("", active.index() + 1, "/7 ");
        proof {
            reveal_strlit("");
            assert(""@ + crate::chars::decimal((crate::shell::screen_pos(active) + 1) as nat) + "/7 "@ =~= crate::chars::decimal(
                (crate::shell::screen_pos(active) + 1) as nat,
            ) + "/7 "@);
        }
        let label = crate::text::truncate(active.label(), width.saturating_sub(7) as usize);
        CompactTabs::Active { position, label }
    }
}

} // verus!
