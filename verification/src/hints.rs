//! The contextual help bar: which keys the focused screen offers in its
//! current mode, and where a click on one of those key names lands.

use vstd::prelude::*;

use crate::chars::{byte_len, byte_length, chars_of, owned, same_str};
use crate::keys::{KeyCode, KeyModifiers, CONTROL, NO_MODIFIERS};
use crate::pointer::{sat_add16, ClickAction, PointerMap, Rect, Region};
use crate::shell::Focus;
use crate::text::{str_width, unicode_str_width};
use crate::screens::automation::ConfirmAction;
use crate::screens::repository::{ConfirmState, RepoMode};
use crate::shell::{App, Screen};

verus! {

/// One piece of the help bar: a key name, drawn highlighted, or the plain
/// words that follow it.
#[derive(Debug, Clone)]
pub struct HelpSpan {
    pub key: bool,
    pub text: String,
}

/// The help bar as key flags and texts.
pub open spec fn spans_of(v: Seq<HelpSpan>) -> Seq<(bool, Seq<char>)> {
    v.map_values(|h: HelpSpan| (h.key, h.text@))
}

/// A key name and the words after it.
pub open spec fn hint(k: Seq<char>, t: Seq<char>) -> Seq<(bool, Seq<char>)> {
    seq![(true, k), (false, t)]
}

/// Plain words on their own.
pub open spec fn gap(t: Seq<char>) -> Seq<(bool, Seq<char>)> {
    seq![(false, t)]
}

pub open spec fn nothing() -> Seq<(bool, Seq<char>)> {
    Seq::empty()
}

/// "Tab tabs", the hint every content help bar starts with.
pub open spec fn tabs_hint() -> Seq<(bool, Seq<char>)> {
    hint("Tab"@, " tabs  "@)
}

/// The hints of a yes/no question.
pub open spec fn confirm_hints() -> Seq<(bool, Seq<char>)> {
    tabs_hint() + hint("y"@, " confirm  "@) + hint("n/Esc"@, " cancel"@)
}

/// Help while the tab bar has focus.
pub open spec fn tab_focus_hints() -> Seq<(bool, Seq<char>)> {
    hint("←→/hl"@, " tabs  "@) + hint("↓/j/Enter"@, " content  "@) + hint("1-7"@, " jump  "@) + hint(
        "Ctrl+T"@,
        " theme  "@,
    ) + hint("q"@, " quit"@)
}

/// Whether a configuration with at least one source is loaded.
pub open spec fn has_sources(a: App) -> bool {
    a.config matches Some(c) && c.sources.len() > 0
}

/// Dashboard help: the operations offer themselves when nothing runs and
/// a repository is configured; backup also needs a source.
pub open spec fn dashboard_hints(a: App) -> Seq<(bool, Seq<char>)> {
    if a.dashboard_screen.detail is Some {
        hint("Tab"@, " tabs  "@) + hint("Esc"@, " close details"@)
    } else {
        let operations = if a.tasks@.active is None && a.config is Some {
            hint("c"@, " check  "@) + hint("p"@, " push  "@) + if has_sources(a) {
                hint("b"@, " backup  "@)
            } else {
                nothing()
            }
        } else {
            nothing()
        };
        tabs_hint() + operations + hint("a"@, " automation  "@) + hint("r"@, " repository  "@) + hint(
            "d"@,
            " details  "@,
        ) + hint("q"@, " quit"@)
    }
}

/// Repository help. `locked` tells whether the browser only changes the
/// repository on request.
pub open spec fn repository_hints(a: App, locked: bool) -> Seq<(bool, Seq<char>)> {
    let r = a.repo_screen;
    if r.confirm_state == ConfirmState::AskInitialize || r.confirm_state == ConfirmState::AskAttach {
        confirm_hints()
    } else {
        match r.mode {
            RepoMode::Browser => tabs_hint() + (if locked {
                hint("c"@, " change repository  "@)
            } else {
                hint("Space"@, " select  "@)
            }) + hint("m"@, " namespaces  "@) + hint("n"@, " create  "@) + (if a.config is Some {
                hint("r"@, " rename  "@) + hint("d"@, " delete  "@)
            } else {
                nothing()
            }) + hint("↑↓←→"@, " navigate  "@) + hint("Ctrl+↑↓/jk"@, " content  "@) + (if locked {
                nothing()
            } else {
                hint(":/"@, " text input"@)
            }),
            RepoMode::Namespaces => tabs_hint() + hint("↑↓/jk"@, " select  "@) + hint("Enter"@, " use/create  "@)
                + hint("n/r/d"@, " create/rename/delete  "@) + hint("Esc"@, " back"@),
            RepoMode::NamespaceInput => if r.namespace_confirmation is Some {
                confirm_hints()
            } else {
                tabs_hint() + hint("Enter"@, " review  "@) + hint("Esc"@, " cancel  "@) + hint("Ctrl+U"@, " clear"@)
            },
            RepoMode::TextInput => tabs_hint() + hint("Enter"@, " validate  "@) + hint("Esc"@, " browser  "@)
                + hint("Ctrl+U"@, " clear"@),
        }
    }
}

/// Sources help.
pub open spec fn sources_hints(a: App) -> Seq<(bool, Seq<char>)> {
    match a.sources_screen.mode {
        crate::screens::sources::Mode::List => tabs_hint() + hint("a"@, " add"@) + if has_sources(a) {
            gap("  "@) + hint("d"@, " delete  "@) + hint("↑↓/jk"@, " navigate"@)
        } else {
            nothing()
        },
        crate::screens::sources::Mode::Browse => tabs_hint() + hint("Space"@, " toggle  "@) + hint(
            "↑↓←→"@,
            " navigate  "@,
        ) + hint("Ctrl+↑↓/jk"@, " content  "@) + hint("Esc"@, " review changes  "@) + hint(":/"@, " text"@),
        crate::screens::sources::Mode::AddInput => tabs_hint() + hint("Enter"@, " add  "@) + hint("Esc"@, " browser  "@)
            + hint("Ctrl+U"@, " clear"@),
        crate::screens::sources::Mode::ConfirmDelete => confirm_hints(),
        crate::screens::sources::Mode::PendingChanges => tabs_hint() + hint("a"@, " apply  "@) + hint(
            "d"@,
            " discard  "@,
        ) + hint("c/Esc"@, " continue editing"@),
        crate::screens::sources::Mode::ConfirmApply => tabs_hint() + hint("y"@, " remove and apply  "@) + hint(
            "n/Esc"@,
            " back to choices"@,
        ),
    }
}

/// Whether the source the ignore editor shows has patterns.
pub open spec fn has_patterns(a: App) -> bool {
    a.config matches Some(c) && a.ignore_screen.source_idx < c.sources.len()
        && c.sources@[a.ignore_screen.source_idx as int].ignore.len() > 0
}

/// Ignore-editor help.
pub open spec fn ignore_hints(a: App) -> Seq<(bool, Seq<char>)> {
    match a.ignore_screen.mode {
        crate::screens::ignore::Mode::AddInput => tabs_hint() + hint("Enter"@, " add  "@) + hint("Esc"@, " cancel  "@)
            + hint("Ctrl+U"@, " clear"@),
        crate::screens::ignore::Mode::Preview => tabs_hint() + hint("Esc"@, " back  "@) + hint("r"@, " refresh  "@)
            + hint("↑↓/jk"@, " scroll  "@) + hint("PgUp/PgDn"@, " page"@),
        crate::screens::ignore::Mode::List => if !has_sources(a) {
            hint("Tab"@, " tabs"@)
        } else {
            tabs_hint() + hint("a"@, " add  "@) + (if has_patterns(a) {
                hint("d"@, " delete  "@)
            } else {
                nothing()
            }) + hint("p"@, " preview  "@) + hint("←→/hl"@, " source  "@) + hint("↑↓/jk"@, " focus/item"@)
        },
    }
}

/// Preview help: pushing needs a repository, backing up a source too.
pub open spec fn preview_hints(a: App) -> Seq<(bool, Seq<char>)> {
    tabs_hint() + hint("r"@, " refresh  "@) + (if a.config is Some {
        hint("p"@, " push  "@) + if has_sources(a) {
            hint("b"@, " backup  "@)
        } else {
            nothing()
        }
    } else {
        nothing()
    }) + hint("↑↓/jk"@, " scroll"@)
}

/// Automation help. Installing and removing are offered for the backends
/// this application manages itself, not for an external one.
pub open spec fn automation_hints(a: App, paths_ready: bool, external_backend: bool) -> Seq<(bool, Seq<char>)> {
    if a.automation_screen.confirm == ConfirmAction::Idle {
        tabs_hint() + hint("r"@, " refresh"@) + if a.config is Some && paths_ready {
            gap("  "@) + hint("b"@, " backend"@) + if !external_backend {
                gap("  "@) + hint("i"@, " install  "@) + hint("x"@, " remove"@)
            } else {
                nothing()
            }
        } else {
            nothing()
        }
    } else {
        confirm_hints()
    }
}

/// History help; `history_len` is the number of recorded runs.
pub open spec fn history_hints(a: App, history_len: usize) -> Seq<(bool, Seq<char>)> {
    match a.history_screen.mode {
        crate::screens::history::Mode::LogView => tabs_hint() + hint("Esc"@, " back  "@) + hint(
            "↑↓/jk"@,
            " scroll  "@,
        ) + hint("PgUp/PgDn"@, " page"@),
        crate::screens::history::Mode::History => tabs_hint() + (if history_len > 0 {
            hint("↑↓/jk"@, " navigate  "@) + hint("Enter"@, " view logs  "@)
        } else {
            nothing()
        }) + hint("q"@, " quit"@),
    }
}

/// What the host knows beyond the application state when the help bar
/// is drawn.
#[derive(Debug, Clone, Copy)]
pub struct HelpContext {
    /// The application paths are resolved.
    pub paths_ready: bool,
    /// The configured automation backend is an external one.
    pub external_backend: bool,
    /// The repository browser only changes the repository on request.
    pub repository_locked: bool,
    /// Number of runs in the recorded history.
    pub history_len: usize,
}

/// Help while the content of the active screen has focus.
pub open spec fn content_focus_hints(a: App, cx: HelpContext) -> Seq<(bool, Seq<char>)> {
    match a.active_screen {
        Screen::Dashboard => dashboard_hints(a),
        Screen::Repository => repository_hints(a, cx.repository_locked),
        Screen::Sources => sources_hints(a),
        Screen::Ignore => ignore_hints(a),
        Screen::Preview => preview_hints(a),
        Screen::Automation => automation_hints(a, cx.paths_ready, cx.external_backend),
        Screen::History => history_hints(a, cx.history_len),
    }
}

fn push_gap(v: &mut Vec<HelpSpan>, t: &str)
    ensures
        spans_of(final(v)@) == spans_of(old(v)@) + gap(t@),
{
    let ghost before = v@;
    v.push(HelpSpan { key: false, text: owned(t) });
    assert(spans_of(v@) =~= spans_of(before) + gap(t@));
}

fn push_hint(v: &mut Vec<HelpSpan>, k: &str, t: &str)
    ensures
        spans_of(final(v)@) == spans_of(old(v)@) + hint(k@, t@),
{
    let ghost before = v@;
    v.push(HelpSpan { key: true, text: owned(k) });
    v.push(HelpSpan { key: false, text: owned(t) });
    assert(spans_of(v@) =~= spans_of(before) + hint(k@, t@));
}

fn starting_with(k: &str, t: &str) -> (v: Vec<HelpSpan>)
    ensures
        spans_of(v@) == hint(k@, t@),
{
    let mut v = Vec::new();
    push_hint(&mut v, k, t);
    assert(spans_of(v@) =~= hint(k@, t@));
    v
}

fn confirm_bar() -> (v: Vec<HelpSpan>)
    ensures
        spans_of(v@) == confirm_hints(),
{
    let mut v = starting_with("Tab", " tabs  ");
    push_hint(&mut v, "y", " confirm  ");
    push_hint(&mut v, "n/Esc", " cancel");
    v
}

/// Help bar while the tab bar has focus.
pub fn help_bar_tab_focus() -> (v: Vec<HelpSpan>)
    ensures
        spans_of(v@) == tab_focus_hints(),
{
    let mut v = starting_with("←→/hl", " tabs  ");
    push_hint(&mut v, "↓/j/Enter", " content  ");
    push_hint(&mut v, "1-7", " jump  ");
    push_hint(&mut v, "Ctrl+T", " theme  ");
    push_hint(&mut v, "q", " quit");
    v
}

fn config_has_sources(a: &App) -> (r: bool)
    ensures
        r == has_sources(*a),
{
    match &a.config {
        Some(c) => c.sources.len() > 0,
        None => false,
    }
}

fn dashboard_bar(a: &App) -> (v: Vec<HelpSpan>)
    ensures
        spans_of(v@) == dashboard_hints(*a),
{
    if a.dashboard_screen.detail.is_some() {
        let mut v = starting_with("Tab", " tabs  ");
        push_hint(&mut v, "Esc", " close details");
        return v;
    }
    let mut v = starting_with("Tab", " tabs  ");
    let ghost base = spans_of(v@);
    if !a.tasks.is_busy() && a.config.is_some() {
        push_hint(&mut v, "c", " check  ");
        push_hint(&mut v, "p", " push  ");
        if config_has_sources(a) {
            push_hint(&mut v, "b", " backup  ");
        }
    }
    let ghost operations = if a.tasks@.active is None && a.config is Some {
        hint("c"@, " check  "@) + hint("p"@, " push  "@) + if has_sources(*a) {
            hint("b"@, " backup  "@)
        } else {
            nothing()
        }
    } else {
        nothing()
    };
    assert(spans_of(v@) =~= base + operations);
    push_hint(&mut v, "a", " automation  ");
    push_hint(&mut v, "r", " repository  ");
    push_hint(&mut v, "d", " details  ");
    push_hint(&mut v, "q", " quit");
    v
}

/// Help bar of the repository screen.
pub fn help_bar_repository(a: &App, locked: bool) -> (v: Vec<HelpSpan>)
    ensures
        spans_of(v@) == repository_hints(*a, locked),
{
    let r = &a.repo_screen;
    if r.confirm_state == ConfirmState::AskInitialize || r.confirm_state == ConfirmState::AskAttach {
        return confirm_bar();
    }
    match r.mode {
        RepoMode::Browser => {
            let mut v = starting_with("Tab", " tabs  ");
            let ghost s0 = spans_of(v@);
            if locked {
                push_hint(&mut v, "c", " change repository  ");
            } else {
                push_hint(&mut v, "Space", " select  ");
            }
            push_hint(&mut v, "m", " namespaces  ");
            push_hint(&mut v, "n", " create  ");
            let ghost s1 = spans_of(v@);
            if a.config.is_some() {
                push_hint(&mut v, "r", " rename  ");
                push_hint(&mut v, "d", " delete  ");
            }
            assert(spans_of(v@) =~= s1 + if a.config is Some {
                hint("r"@, " rename  "@) + hint("d"@, " delete  "@)
            } else {
                nothing()
            });
            push_hint(&mut v, "↑↓←→", " navigate  ");
            push_hint(&mut v, "Ctrl+↑↓/jk", " content  ");
            let ghost s2 = spans_of(v@);
            if !locked {
                push_hint(&mut v, ":/", " text input");
            }
            assert(spans_of(v@) =~= s2 + if locked {
                nothing()
            } else {
                hint(":/"@, " text input"@)
            });
            v
        },
        RepoMode::Namespaces => {
            let mut v = starting_with("Tab", " tabs  ");
            push_hint(&mut v, "↑↓/jk", " select  ");
            push_hint(&mut v, "Enter", " use/create  ");
            push_hint(&mut v, "n/r/d", " create/rename/delete  ");
            push_hint(&mut v, "Esc", " back");
            v
        },
        RepoMode::NamespaceInput => {
            if r.namespace_confirmation.is_some() {
                return confirm_bar();
            }
            let mut v = starting_with("Tab", " tabs  ");
            push_hint(&mut v, "Enter", " review  ");
            push_hint(&mut v, "Esc", " cancel  ");
            push_hint(&mut v, "Ctrl+U", " clear");
            v
        },
        RepoMode::TextInput => {
            let mut v = starting_with("Tab", " tabs  ");
            push_hint(&mut v, "Enter", " validate  ");
            push_hint(&mut v, "Esc", " browser  ");
            push_hint(&mut v, "Ctrl+U", " clear");
            v
        },
    }
}

/// Help bar of the sources screen.
pub fn help_bar_sources(a: &App) -> (v: Vec<HelpSpan>)
    ensures
        spans_of(v@) == sources_hints(*a),
{
    match a.sources_screen.mode {
        crate::screens::sources::Mode::List => {
            let mut v = starting_with("Tab", " tabs  ");
            push_hint(&mut v, "a", " add");
            let ghost s = spans_of(v@);
            if config_has_sources(a) {
                push_gap(&mut v, "  ");
                push_hint(&mut v, "d", " delete  ");
                push_hint(&mut v, "↑↓/jk", " navigate");
            }
            assert(spans_of(v@) =~= s + if has_sources(*a) {
                gap("  "@) + hint("d"@, " delete  "@) + hint("↑↓/jk"@, " navigate"@)
            } else {
                nothing()
            });
            v
        },
        crate::screens::sources::Mode::Browse => {
            let mut v = starting_with("Tab", " tabs  ");
            push_hint(&mut v, "Space", " toggle  ");
            push_hint(&mut v, "↑↓←→", " navigate  ");
            push_hint(&mut v, "Ctrl+↑↓/jk", " content  ");
            push_hint(&mut v, "Esc", " review changes  ");
            push_hint(&mut v, ":/", " text");
            v
        },
        crate::screens::sources::Mode::AddInput => {
            let mut v = starting_with("Tab", " tabs  ");
            push_hint(&mut v, "Enter", " add  ");
            push_hint(&mut v, "Esc", " browser  ");
            push_hint(&mut v, "Ctrl+U", " clear");
            v
        },
        crate::screens::sources::Mode::ConfirmDelete => confirm_bar(),
        crate::screens::sources::Mode::PendingChanges => {
            let mut v = starting_with("Tab", " tabs  ");
            push_hint(&mut v, "a", " apply  ");
            push_hint(&mut v, "d", " discard  ");
            push_hint(&mut v, "c/Esc", " continue editing");
            v
        },
        crate::screens::sources::Mode::ConfirmApply => {
            let mut v = starting_with("Tab", " tabs  ");
            push_hint(&mut v, "y", " remove and apply  ");
            push_hint(&mut v, "n/Esc", " back to choices");
            v
        },
    }
}

/// Help bar of the ignore editor.
pub fn help_bar_ignore(a: &App) -> (v: Vec<HelpSpan>)
    ensures
        spans_of(v@) == ignore_hints(*a),
{
    match a.ignore_screen.mode {
        crate::screens::ignore::Mode::AddInput => {
            let mut v = starting_with("Tab", " tabs  ");
            push_hint(&mut v, "Enter", " add  ");
            push_hint(&mut v, "Esc", " cancel  ");
            push_hint(&mut v, "Ctrl+U", " clear");
            v
        },
        crate::screens::ignore::Mode::Preview => {
            let mut v = starting_with("Tab", " tabs  ");
            push_hint(&mut v, "Esc", " back  ");
            push_hint(&mut v, "r", " refresh  ");
            push_hint(&mut v, "↑↓/jk", " scroll  ");
            push_hint(&mut v, "PgUp/PgDn", " page");
            v
        },
        crate::screens::ignore::Mode::List => {
            if !config_has_sources(a) {
                return starting_with("Tab", " tabs");
            }
            let patterns = match &a.config {
                Some(c) => a.ignore_screen.source_idx < c.sources.len()
                    && c.sources[a.ignore_screen.source_idx].ignore.len() > 0,
                None => false,
            };
            let mut v = starting_with("Tab", " tabs  ");
            push_hint(&mut v, "a", " add  ");
            let ghost s = spans_of(v@);
            if patterns {
                push_hint(&mut v, "d", " delete  ");
            }
            assert(spans_of(v@) =~= s + if has_patterns(*a) {
                hint("d"@, " delete  "@)
            } else {
                nothing()
            });
            push_hint(&mut v, "p", " preview  ");
            push_hint(&mut v, "←→/hl", " source  ");
            push_hint(&mut v, "↑↓/jk", " focus/item");
            v
        },
    }
}

fn preview_bar(a: &App) -> (v: Vec<HelpSpan>)
    ensures
        spans_of(v@) == preview_hints(*a),
{
    let mut v = starting_with("Tab", " tabs  ");
    push_hint(&mut v, "r", " refresh  ");
    let ghost s = spans_of(v@);
    if a.config.is_some() {
        push_hint(&mut v, "p", " push  ");
        if config_has_sources(a) {
            push_hint(&mut v, "b", " backup  ");
        }
    }
    assert(spans_of(v@) =~= s + if a.config is Some {
        hint("p"@, " push  "@) + if has_sources(*a) {
            hint("b"@, " backup  "@)
        } else {
            nothing()
        }
    } else {
        nothing()
    });
    push_hint(&mut v, "↑↓/jk", " scroll");
    v
}

fn automation_bar(a: &App, paths_ready: bool, external_backend: bool) -> (v: Vec<HelpSpan>)
    ensures
        spans_of(v@) == automation_hints(*a, paths_ready, external_backend),
{
    if a.automation_screen.confirm != ConfirmAction::Idle {
        return confirm_bar();
    }
    let mut v = starting_with("Tab", " tabs  ");
    push_hint(&mut v, "r", " refresh");
    let ghost s = spans_of(v@);
    if a.config.is_some() && paths_ready {
        push_gap(&mut v, "  ");
        push_hint(&mut v, "b", " backend");
        let ghost t = spans_of(v@);
        if !external_backend {
            push_gap(&mut v, "  ");
            push_hint(&mut v, "i", " install  ");
            push_hint(&mut v, "x", " remove");
        }
        assert(spans_of(v@) =~= t + if !external_backend {
            gap("  "@) + hint("i"@, " install  "@) + hint("x"@, " remove"@)
        } else {
            nothing()
        });
    }
    assert(spans_of(v@) =~= s + if a.config is Some && paths_ready {
        gap("  "@) + hint("b"@, " backend"@) + if !external_backend {
            gap("  "@) + hint("i"@, " install  "@) + hint("x"@, " remove"@)
        } else {
            nothing()
        }
    } else {
        nothing()
    });
    v
}

/// Help bar of the history screen.
pub fn help_bar_history(a: &App, history_len: usize) -> (v: Vec<HelpSpan>)
    ensures
        spans_of(v@) == history_hints(*a, history_len),
{
    match a.history_screen.mode {
        crate::screens::history::Mode::LogView => {
            let mut v = starting_with("Tab", " tabs  ");
            push_hint(&mut v, "Esc", " back  ");
            push_hint(&mut v, "↑↓/jk", " scroll  ");
            push_hint(&mut v, "PgUp/PgDn", " page");
            v
        },
        crate::screens::history::Mode::History => {
            let mut v = starting_with("Tab", " tabs  ");
            let ghost s = spans_of(v@);
            if history_len > 0 {
                push_hint(&mut v, "↑↓/jk", " navigate  ");
                push_hint(&mut v, "Enter", " view logs  ");
            }
            assert(spans_of(v@) =~= s + if history_len > 0 {
                hint("↑↓/jk"@, " navigate  "@) + hint("Enter"@, " view logs  "@)
            } else {
                nothing()
            });
            push_hint(&mut v, "q", " quit");
            v
        },
    }
}

/// Help bar while the content of the active screen has focus.
pub fn help_bar_content_focus(a: &App, cx: HelpContext) -> (v: Vec<HelpSpan>)
    ensures
        spans_of(v@) == content_focus_hints(*a, cx),
{
    match a.active_screen {
        Screen::Dashboard => dashboard_bar(a),
        Screen::Repository => help_bar_repository(a, cx.repository_locked),
        Screen::Sources => help_bar_sources(a),
        Screen::Ignore => help_bar_ignore(a),
        Screen::Preview => preview_bar(a),
        Screen::Automation => automation_bar(a, cx.paths_ready, cx.external_backend),
        Screen::History => help_bar_history(a, cx.history_len),
    }
}

/// The help bar for the current focus.
pub open spec fn help_hints(a: App, cx: HelpContext) -> Seq<(bool, Seq<char>)> {
    match a.focus {
        Focus::TabBar => tab_focus_hints(),
        Focus::Content => content_focus_hints(a, cx),
    }
}

/// Help bar for the current focus.
pub fn help_bar(a: &App, cx: HelpContext) -> (v: Vec<HelpSpan>)
    ensures
        spans_of(v@) == help_hints(*a, cx),
{
    match a.focus {
        Focus::TabBar => help_bar_tab_focus(),
        Focus::Content => help_bar_content_focus(a, cx),
    }
}

/// The texts of the help bar's pieces.
pub open spec fn texts_of(v: Seq<HelpSpan>) -> Seq<Seq<char>> {
    v.map_values(|h: HelpSpan| h.text@)
}

pub open spec fn plain_key(code: KeyCode) -> ClickAction {
    ClickAction::Key(code, KeyModifiers { bits: NO_MODIFIERS })
}

pub open spec fn ctrl_key(c: char) -> ClickAction {
    ClickAction::Key(KeyCode::Char(c), KeyModifiers { bits: CONTROL })
}

/// The key a click on a piece of the help bar sends: named keys, the
/// cancel keys, and any one-byte text as that character.
pub open spec fn help_key(t: Seq<char>) -> Option<ClickAction> {
    if t == "Tab"@ {
        Some(plain_key(KeyCode::Tab))
    } else if t == "Enter"@ {
        Some(plain_key(KeyCode::Enter))
    } else if t == "Space"@ {
        Some(plain_key(KeyCode::Char(' ')))
    } else if t == "Esc"@ || t == "n/Esc"@ || t == "c/Esc"@ {
        Some(plain_key(KeyCode::Esc))
    } else if t == "Ctrl+T"@ {
        Some(ctrl_key('t'))
    } else if t == "Ctrl+U"@ {
        Some(ctrl_key('u'))
    } else if t == ":/"@ {
        Some(plain_key(KeyCode::Char(':')))
    } else if t.len() == 1 && byte_len(t) == 1 {
        Some(plain_key(KeyCode::Char(t[0])))
    } else {
        None
    }
}

/// The far column of the area, saturating.
pub open spec fn right_edge(area: Rect) -> int {
    sat_add16(area.x, area.width)
}

/// Cells a piece takes from column `x`: its display width, cut at the far
/// edge of the area.
pub open spec fn span_cells(t: Seq<char>, x: u16, area: Rect) -> u16 {
    let w: int = if unicode_str_width(t) > u16::MAX { u16::MAX as int } else { unicode_str_width(t) as int };
    let room: int = if right_edge(area) > x { right_edge(area) - x } else { 0 };
    (if w < room { w } else { room }) as u16
}

/// A recorded click area, or nothing for an empty rectangle.
pub open spec fn click_region(rect: Rect, action: ClickAction) -> Seq<Region> {
    if rect.width > 0 && rect.height > 0 {
        seq![Region { rect, click: Some(action), scroll: None }]
    } else {
        Seq::empty()
    }
}

/// The click areas of `n/r/d`: one cell for each of the three letters.
pub open spec fn namespace_key_regions(x: u16, area: Rect) -> Seq<Region> {
    click_region(Rect { x: sat_add16(x, 0) as u16, y: area.y, width: 1, height: area.height }, plain_key(KeyCode::Char('n')))
        + click_region(
        Rect { x: sat_add16(x, 2) as u16, y: area.y, width: 1, height: area.height },
        plain_key(KeyCode::Char('r')),
    ) + click_region(
        Rect { x: sat_add16(x, 4) as u16, y: area.y, width: 1, height: area.height },
        plain_key(KeyCode::Char('d')),
    )
}

/// The click areas of the help bar's pieces laid out from column `x`: each
/// piece that names a key answers clicks over its cells; layout stops once
/// a piece reaches the far edge.
pub open spec fn help_regions(texts: Seq<Seq<char>>, x: u16, area: Rect) -> Seq<Region>
    decreases texts.len(),
{
    if texts.len() == 0 {
        Seq::empty()
    } else {
        let t = texts[0];
        let w = span_cells(t, x, area);
        let next = sat_add16(x, w) as u16;
        if t == "n/r/d"@ {
            namespace_key_regions(x, area) + help_regions(texts.drop_first(), next, area)
        } else {
            let here = match help_key(t) {
                Some(action) => click_region(Rect { x, y: area.y, width: w, height: area.height }, action),
                None => Seq::empty(),
            };
            here + if next >= right_edge(area) {
                Seq::empty()
            } else {
                help_regions(texts.drop_first(), next, area)
            }
        }
    }
}

fn key_of_text(t: &str) -> (r: Option<ClickAction>)
    ensures
        r == help_key(t@),
{
    proof {
        reveal_strlit("Tab");
        reveal_strlit("Enter");
        reveal_strlit("Space");
        reveal_strlit("Esc");
        reveal_strlit("n/Esc");
        reveal_strlit("c/Esc");
        reveal_strlit("Ctrl+T");
        reveal_strlit("Ctrl+U");
        reveal_strlit(":/");
    }
    if same_str(t, "Tab") {
        Some(ClickAction::Key(KeyCode::Tab, KeyModifiers::none()))
    } else if same_str(t, "Enter") {
        Some(ClickAction::Key(KeyCode::Enter, KeyModifiers::none()))
    } else if same_str(t, "Space") {
        Some(ClickAction::Key(KeyCode::Char(' '), KeyModifiers::none()))
    } else if same_str(t, "Esc") || same_str(t, "n/Esc") || same_str(t, "c/Esc") {
        Some(ClickAction::Key(KeyCode::Esc, KeyModifiers::none()))
    } else if same_str(t, "Ctrl+T") {
        Some(ClickAction::Key(KeyCode::Char('t'), KeyModifiers::control()))
    } else if same_str(t, "Ctrl+U") {
        Some(ClickAction::Key(KeyCode::Char('u'), KeyModifiers::control()))
    } else if same_str(t, ":/") {
        Some(ClickAction::Key(KeyCode::Char(':'), KeyModifiers::none()))
    } else {
        let cs = chars_of(t);
        if cs.len() == 1 && byte_length(t) == 1 {
            Some(ClickAction::Key(KeyCode::Char(cs[0]), KeyModifiers::none()))
        } else {
            None
        }
    }
}

fn cells_of(t: &str, x: u16, area: Rect) -> (w: u16)
    ensures
        w == span_cells(t@, x, area),
{
    let full = str_width(t);
    let w: u16 = if full > 65535 { 65535 } else { full as u16 };
    let right = area.x.saturating_add(area.width);
    let room: u16 = if right > x { right - x } else { 0 };
    if w < room { w } else { room }
}

/// Record where clicks on the help bar land: each piece naming a key
/// sends that key when clicked, `n/r/d` one letter per cell.
pub fn register_help_clicks(map: &mut PointerMap, area: Rect, spans: &Vec<HelpSpan>)
    ensures
        final(map)@ == old(map)@ + help_regions(texts_of(spans@), area.x, area),
{
    proof {
        reveal_strlit("n/r/d");
    }
    let ghost texts = texts_of(spans@);
    let ghost target = old(map)@ + help_regions(texts, area.x, area);
    let mut x = area.x;
    let mut i: usize = 0;
    let mut stop = false;
    assert(texts.skip(0) =~= texts);
    while i < spans.len() && !stop
        invariant
            texts == texts_of(spans@),
            target == old(map)@ + help_regions(texts, area.x, area),
            i <= spans.len(),
            stop ==> map@ == target,
            !stop ==> map@ + help_regions(texts.skip(i as int), x, area) == target,
        decreases spans.len() - i, if stop { 0int } else { 1int },
    {
        let ghost before = map@;
        let ghost rest = texts.skip(i as int);
        assert(rest[0] == spans@[i as int].text@);
        assert(rest.drop_first() =~= texts.skip(i + 1));
        let text = spans[i].text.as_str();
        let w = cells_of(text, x, area);
        let next = x.saturating_add(w);
        if same_str(text, "n/r/d") {
            map.click(
                Rect::new(x.saturating_add(0), area.y, 1, area.height),
                ClickAction::Key(KeyCode::Char('n'), KeyModifiers::none()),
            );
            map.click(
                Rect::new(x.saturating_add(2), area.y, 1, area.height),
                ClickAction::Key(KeyCode::Char('r'), KeyModifiers::none()),
            );
            map.click(
                Rect::new(x.saturating_add(4), area.y, 1, area.height),
                ClickAction::Key(KeyCode::Char('d'), KeyModifiers::none()),
            );
            assert(map@ =~= before + namespace_key_regions(x, area));
            assert(before + (namespace_key_regions(x, area) + help_regions(texts.skip(i + 1), next, area)) =~= map@
                + help_regions(texts.skip(i + 1), next, area));
            x = next;
            i = i + 1;
        } else {
            match key_of_text(text) {
                Some(action) => {
                    map.click(Rect::new(x, area.y, w, area.height), action);
                },
                None => {},
            }
            let ghost here = match help_key(rest[0]) {
                Some(action) => click_region(Rect { x, y: area.y, width: w, height: area.height }, action),
                None => Seq::empty(),
            };
            assert(map@ =~= before + here);
            if next >= area.x.saturating_add(area.width) {
                assert(map@ =~= before + (here + Seq::empty()));
                stop = true;
            } else {
                assert(before + (here + help_regions(texts.skip(i + 1), next, area)) =~= map@ + help_regions(
                    texts.skip(i + 1),
                    next,
                    area,
                ));
                x = next;
                i = i + 1;
            }
        }
    }
    if !stop {
        assert(texts.skip(i as int) =~= Seq::<Seq<char>>::empty());
        assert(map@ + Seq::<Region>::empty() =~= map@);
    }
}

} // verus!
