//! Top-level interface state: tabs, focus, the theme picker, status
//! messages and the routing of finished background work.
//!
//! The caller owns the terminal, the configuration on disk and the worker
//! threads; it hands keys and received results to `App` and performs the
//! follow-up work that `App` asks for.

use vstd::prelude::*;

use crate::chars::{owned, push_str};
use crate::keys::{KeyCode, KeyEvent, CONTROL, NO_MODIFIERS, SHIFT};
use crate::paths::PathKey;
use crate::screens::automation::{AutomationScreen, ConfirmAction};
use crate::screens::dashboard::DashboardScreen;
use crate::screens::history::HistoryScreen;
use crate::screens::ignore::IgnoreScreen;
use crate::screens::preview::PreviewScreen;
use crate::screens::repository::{ConfirmState, OwnershipInfo, RepoMode, RepoScreen};
use crate::screens::sources::SourcesScreen;
use crate::selection::{copy_strings, holds_text, rules_view, strings_of, DiffModel, SourceConfig, SourceRules};
use crate::paths::same_text;
use crate::chars::{decimal, push_decimal};
use crate::status::{kind_lifetime, kind_rank, publish, publish_replaces, StatusKind, StatusMessage, StatusModel};
use crate::task::{
    identity_of, live_request, load_accepts, load_data, load_finished, loads_with, BackupResult, CheckResult,
    LoadState, LoadTaskKind, Received, TaskManager, TaskResult,
};
use crate::theme::ThemeId;

verus! {

/// Which top-level element currently receives keyboard input.
///
/// The application starts with focus on the tab bar. Down/Enter enters the
/// active tab's content. Tab/Shift+Tab from content returns to the tab bar.
#[derive(Debug, Clone, Copy, PartialEq, Eq, Structural)]
pub enum Focus {
    /// The tab bar receives navigation keys.
    TabBar,
    /// The active screen's content receives keyboard input.
    Content,
}

/// The screens available in the TUI, corresponding to tab navigation.
#[derive(Debug, Clone, Copy, PartialEq, Eq, Structural)]
pub enum Screen {
    Dashboard,
    Repository,
    Sources,
    Ignore,
    Preview,
    Automation,
    History,
}

/// Number of tabs.
pub const SCREEN_COUNT: usize = 7;

/// Position of a screen in tab order.
pub open spec fn screen_pos(s: Screen) -> int {
    match s {
        Screen::Dashboard => 0,
        Screen::Repository => 1,
        Screen::Sources => 2,
        Screen::Ignore => 3,
        Screen::Preview => 4,
        Screen::Automation => 5,
        Screen::History => 6,
    }
}

/// The screen at a position in tab order.
pub open spec fn screen_at(i: int) -> Screen {
    if i == 0 {
        Screen::Dashboard
    } else if i == 1 {
        Screen::Repository
    } else if i == 2 {
        Screen::Sources
    } else if i == 3 {
        Screen::Ignore
    } else if i == 4 {
        Screen::Preview
    } else if i == 5 {
        Screen::Automation
    } else {
        Screen::History
    }
}

/// The tab after `s`, wrapping around.
pub open spec fn screen_next(s: Screen) -> Screen {
    screen_at((screen_pos(s) + 1) % (SCREEN_COUNT as int))
}

/// The tab before `s`, wrapping around.
pub open spec fn screen_prev(s: Screen) -> Screen {
    screen_at((screen_pos(s) + SCREEN_COUNT - 1) % (SCREEN_COUNT as int))
}

impl Screen {
    /// The screen at position `i` in tab order, if there is one.
    pub fn from_index(i: usize) -> (s: Option<Screen>)
        ensures
            i < SCREEN_COUNT ==> s == Some(screen_at(i as int)),
            i >= SCREEN_COUNT ==> s is None,
    {
        match i {
            0 => Some(Screen::Dashboard),
            1 => Some(Screen::Repository),
            2 => Some(Screen::Sources),
            3 => Some(Screen::Ignore),
            4 => Some(Screen::Preview),
            5 => Some(Screen::Automation),
            6 => Some(Screen::History),
            _ => None,
        }
    }

    /// Position of this screen in tab order.
    pub fn index(self) -> (i: usize)
        ensures
            i == screen_pos(self),
            i < SCREEN_COUNT,
    {
        match self {
            Screen::Dashboard => 0,
            Screen::Repository => 1,
            Screen::Sources => 2,
            Screen::Ignore => 3,
            Screen::Preview => 4,
            Screen::Automation => 5,
            Screen::History => 6,
        }
    }

    /// Human-readable label for the tab bar.
    pub fn label(self) -> (s: &'static str)
        ensures
            s@ == match self {
                Screen::Dashboard => "Dashboard"@,
                Screen::Repository => "Repository"@,
                Screen::Sources => "Sources"@,
                Screen::Ignore => "Ignore"@,
                Screen::Preview => "Preview"@,
                Screen::Automation => "Automation"@,
                Screen::History => "History"@,
            },
    {
        match self {
            Screen::Dashboard => "Dashboard",
            Screen::Repository => "Repository",
            Screen::Sources => "Sources",
            Screen::Ignore => "Ignore",
            Screen::Preview => "Preview",
            Screen::Automation => "Automation",
            Screen::History => "History",
        }
    }

    /// Move to the next screen (wraps around).
    pub fn next(self) -> (s: Screen)
        ensures
            s == screen_at((screen_pos(self) + 1) % (SCREEN_COUNT as int)),
    {
        match Screen::from_index((self.index() + 1) % SCREEN_COUNT) {
            Some(s) => s,
            None => Screen::Dashboard,
        }
    }

    /// Move to the previous screen (wraps around).
    pub fn prev(self) -> (s: Screen)
        ensures
            s == screen_at((screen_pos(self) + SCREEN_COUNT - 1) % (SCREEN_COUNT as int)),
    {
        match Screen::from_index((self.index() + SCREEN_COUNT - 1) % SCREEN_COUNT) {
            Some(s) => s,
            None => Screen::Dashboard,
        }
    }
}

/// Tab navigation: next then previous (or previous then next) returns to
/// the same tab, and seven steps forward go all the way round.
pub proof fn lemma_tab_cycle(s: Screen, n: int)
    requires
        0 < n <= SCREEN_COUNT,
    ensures
        screen_at((screen_pos(screen_at((screen_pos(s) + 1) % 7)) + 6) % 7) == s,
        screen_at((screen_pos(screen_at((screen_pos(s) + 6) % 7)) + 1) % 7) == s,
        screen_at((screen_pos(s) + n) % 7) == s <==> n == SCREEN_COUNT,
{
}

/// State for the global theme picker overlay.
///
/// Moving the selection previews the highlighted theme immediately; Enter
/// persists it and Esc restores whatever was active before the picker
/// opened.
#[derive(Debug)]
pub struct ThemePickerState {
    /// The theme that was active before the picker opened.
    pub previous: ThemeId,
    /// The currently highlighted row.
    pub selected: ThemeId,
}

/// What a key in the theme picker asks for.
#[derive(Debug, Clone, Copy, PartialEq, Eq, Structural)]
pub enum PickerStep {
    /// Make this theme active for a preview.
    Preview(ThemeId),
    /// Close the picker and persist this theme.
    Persist(ThemeId),
    /// Close the picker and make this theme active again.
    Restore(ThemeId),
    /// Nothing happens.
    Ignore,
}

/// The theme picker's answer to a key: plain Up/Down (or k/j) move and preview, Enter persists, Esc or Ctrl+T restore.
pub open spec fn picker_answers(p: ThemePickerState, key: KeyEvent, q: ThemePickerState, step: PickerStep) -> bool {
    &&& q.previous == p.previous
    &&& key.modifiers.bits == NO_MODIFIERS && (key.code == KeyCode::Up || key.code == KeyCode::Char('k'))
        ==> q.selected == crate::theme::theme_prev(p.selected) && step == PickerStep::Preview(
        q.selected,
    )
    &&& key.modifiers.bits == NO_MODIFIERS && (key.code == KeyCode::Down || key.code == KeyCode::Char(
        'j',
    )) ==> q.selected == crate::theme::theme_next(p.selected) && step == PickerStep::Preview(
        q.selected,
    )
    &&& key.modifiers.bits == NO_MODIFIERS && key.code == KeyCode::Enter ==> step == PickerStep::Persist(
        p.selected,
    ) && q.selected == p.selected
    &&& (key.modifiers.bits == NO_MODIFIERS && key.code == KeyCode::Esc) || (key.modifiers.bits
        == CONTROL && key.code == KeyCode::Char('t')) ==> step == PickerStep::Restore(
        p.previous,
    ) && q.selected == p.selected
    &&& !(key.modifiers.bits == NO_MODIFIERS && (key.code == KeyCode::Up || key.code == KeyCode::Char(
        'k',
    ) || key.code == KeyCode::Down || key.code == KeyCode::Char('j') || key.code
        == KeyCode::Enter || key.code == KeyCode::Esc)) && !(key.modifiers.bits == CONTROL
        && key.code == KeyCode::Char('t')) ==> step == PickerStep::Ignore && q.selected
        == p.selected
}

impl ThemePickerState {
    /// A picker opened over the active theme.
    pub fn open(active: ThemeId) -> (p: Self)
        ensures
            p.selected == active,
            p.previous == active,
    {
        ThemePickerState { previous: active, selected: active }
    }

    /// The theme active before the picker opened.
    pub fn previous(&self) -> (t: ThemeId)
        ensures
            t == self.previous,
    {
        self.previous
    }

    /// Plain Up/Down (or k/j) move and preview; Enter persists; Esc or
    /// Ctrl+T restore the theme the picker opened over.
    pub fn handle_key(&mut self, key: KeyEvent) -> (step: PickerStep)
        ensures
            picker_answers(*old(self), key, *final(self), step),
    {
        if key.modifiers.bits == NO_MODIFIERS {
            match key.code {
                KeyCode::Up | KeyCode::Char('k') => {
                    self.selected = self.selected.prev();
                    return PickerStep::Preview(self.selected);
                },
                KeyCode::Down | KeyCode::Char('j') => {
                    self.selected = self.selected.next();
                    return PickerStep::Preview(self.selected);
                },
                KeyCode::Enter => return PickerStep::Persist(self.selected),
                KeyCode::Esc => return PickerStep::Restore(self.previous),
                _ => {},
            }
        }
        if key.modifiers.bits == CONTROL && key.code == KeyCode::Char('t') {
            return PickerStep::Restore(self.previous);
        }
        PickerStep::Ignore
    }
}

/// Work the caller starts when the content of a tab is entered.
#[derive(Debug, Clone, Copy, PartialEq, Eq, Structural)]
pub enum EntryWork {
    /// Open the repository browser.
    OpenRepositoryBrowser,
    /// Inspect the installed automation.
    InspectAutomation,
    /// Compute the backup preview.
    PreviewBackup,
}

/// Where a key went.
#[derive(Debug, Clone, Copy, PartialEq, Eq, Structural)]
pub enum KeyRoute {
    /// The theme picker took it.
    ThemePicker(PickerStep),
    /// Ctrl+T opened the theme picker.
    OpenedThemePicker,
    /// Ctrl+C was handled (it quits unless content owns the shortcut).
    Interrupt,
    /// The tab bar took it; entering a tab's content may ask for work.
    TabBar(Option<EntryWork>),
    /// The active screen's content should handle it.
    Content,
}

/// What the caller does after a finished background result was taken in.
#[derive(Debug)]
pub enum FollowUp {
    /// Nothing more.
    Nothing,
    /// Reload the persistent state and give its history length to
    /// `reload_state`.
    ReloadState,
    /// List the namespaces of the validated repository, with the active one.
    RefreshNamespaces { repository: PathKey, active: String },
}

/// The parts of the configuration that the interface edits; the caller
/// keeps the rest and saves the whole.
#[derive(Debug, Clone)]
pub struct Config {
    /// Repository path as configured.
    pub repository: String,
    /// The active namespace.
    pub namespace: String,
    /// Backup sources with their ignore rules.
    pub sources: Vec<SourceConfig>,
}

/// Top-level TUI application state.
pub struct App {
    /// Which level currently receives keyboard input (tab bar or content).
    pub focus: Focus,
    /// The currently active screen/tab.
    pub active_screen: Screen,
    /// Whether the user has requested to quit.
    pub should_quit: bool,
    /// Background task bookkeeping.
    pub tasks: TaskManager,
    /// Last backup result received from the background thread.
    pub last_backup: Option<BackupResult>,
    /// Last check result received from the background thread.
    pub last_check: Option<CheckResult>,
    /// The loaded configuration, if there is one.
    pub config: Option<Config>,
    /// Transient status displayed independently from contextual help.
    pub status_message: Option<StatusMessage>,
    pub dashboard_screen: DashboardScreen,
    pub repo_screen: RepoScreen,
    pub sources_screen: SourcesScreen,
    pub ignore_screen: IgnoreScreen,
    pub preview_screen: PreviewScreen,
    pub automation_screen: AutomationScreen,
    pub history_screen: HistoryScreen,
    /// Theme picker overlay state, present only while it owns input.
    pub theme_picker: Option<ThemePickerState>,
}

/// Whether the active screen's content owns Ctrl+C: a text field, a
/// question or a dialog is open there.
pub open spec fn owns_quit(a: App) -> bool {
    match a.active_screen {
        Screen::Repository => a.repo_screen.mode != RepoMode::Browser || a.repo_screen.confirm_state
            == ConfirmState::AskInitialize || a.repo_screen.confirm_state == ConfirmState::AskAttach
            || a.repo_screen.namespace_confirmation is Some,
        Screen::Sources => a.sources_screen.mode != crate::screens::sources::Mode::List
            && a.sources_screen.mode != crate::screens::sources::Mode::Browse,
        Screen::Ignore => a.ignore_screen.mode == crate::screens::ignore::Mode::AddInput,
        Screen::Automation => a.automation_screen.confirm != ConfirmAction::Idle,
        Screen::Dashboard => a.dashboard_screen.detail is Some,
        Screen::Preview | Screen::History => false,
    }
}

/// The tab a digit key jumps to: `1` to `7` in tab order.
pub open spec fn digit_tab(c: KeyCode) -> Option<int> {
    match c {
        KeyCode::Char(d) => if '1' <= d && d <= '7' {
            Some(d as int - '1' as int)
        } else {
            None
        },
        _ => None,
    }
}

/// The data of a load state needs (re)loading.
pub open spec fn needs_loading<T>(s: LoadState<T>) -> bool {
    s is NotLoaded || s is Stale
}

/// A source as text: its path and its ignore rules.
pub type SourceText = (Seq<char>, Seq<Seq<char>>);

pub open spec fn source_text(s: SourceConfig) -> SourceText {
    (s.path@, strings_of(s.ignore@))
}

pub open spec fn sources_text(v: Seq<SourceConfig>) -> Seq<SourceText> {
    Seq::new(v.len(), |i: int| source_text(v[i]))
}

/// Adding a pattern to a source and then removing that pattern, now its
/// last, gives back the sources as they were.
pub proof fn lemma_add_then_remove_pattern(s: Seq<SourceText>, i: int, p: Seq<char>)
    requires
        0 <= i < s.len(),
    ensures
        ({
            let added = s.update(i, (s[i].0, s[i].1.push(p)));
            added.update(i, (added[i].0, added[i].1.remove(s[i].1.len() as int))) == s
        }),
{
    let added = s.update(i, (s[i].0, s[i].1.push(p)));
    assert(added[i].1.remove(s[i].1.len() as int) =~= s[i].1);
    assert(added.update(i, (added[i].0, added[i].1.remove(s[i].1.len() as int))) =~= s);
}

/// Sources whose path is not among `removals`.
pub open spec fn retained(s: Seq<SourceText>, removals: Seq<Seq<char>>) -> Seq<SourceText>
    decreases s.len(),
{
    if s.len() == 0 {
        s
    } else if removals.contains(s.last().0) {
        retained(s.drop_last(), removals)
    } else {
        retained(s.drop_last(), removals).push(s.last())
    }
}

/// New sources without rules, one per addition.
pub open spec fn added_sources(additions: Seq<Seq<char>>) -> Seq<SourceText> {
    Seq::new(additions.len(), |i: int| (additions[i], Seq::<Seq<char>>::empty()))
}

/// Index of the first source written `path`.
pub open spec fn first_path(s: Seq<SourceText>, path: Seq<char>) -> Option<int>
    decreases s.len(),
{
    if s.len() == 0 {
        None
    } else {
        match first_path(s.drop_last(), path) {
            Some(i) => Some(i),
            None => if s.last().0 == path {
                Some(s.len() - 1)
            } else {
                None
            },
        }
    }
}

/// The sources with each rule list appended to the first source of its
/// path (lists for unknown paths are dropped).
pub open spec fn with_rules(s: Seq<SourceText>, rules: Seq<(Seq<char>, Seq<Seq<char>>)>) -> Seq<SourceText>
    decreases rules.len(),
{
    if rules.len() == 0 {
        s
    } else {
        let t = with_rules(s, rules.drop_last());
        match first_path(t, rules.last().0) {
            Some(i) => t.update(i, (t[i].0, t[i].1 + rules.last().1)),
            None => t,
        }
    }
}

/// How many rules `with_rules` adds.
pub open spec fn rules_added(s: Seq<SourceText>, rules: Seq<(Seq<char>, Seq<Seq<char>>)>) -> nat
    decreases rules.len(),
{
    if rules.len() == 0 {
        0
    } else {
        rules_added(s, rules.drop_last()) + if first_path(s, rules.last().0) is Some {
            rules.last().1.len()
        } else {
            0
        }
    }
}

/// The configuration's sources after a selection diff is applied.
pub open spec fn applied(s: Seq<SourceText>, d: DiffModel) -> Seq<SourceText> {
    with_rules(retained(s, d.removals) + added_sources(d.additions), d.ignore_rules)
}

/// Items joined by `, `.
pub open spec fn comma_joined(items: Seq<Seq<char>>) -> Seq<char>
    decreases items.len(),
{
    if items.len() == 0 {
        Seq::empty()
    } else if items.len() == 1 {
        items[0]
    } else {
        comma_joined(items.drop_last()) + ", "@ + items.last()
    }
}

/// Feedback after a diff was applied.
pub open spec fn applied_message(added: nat, removed: nat, ignored: nat) -> Seq<char> {
    let a: Seq<Seq<char>> = if added > 0 { seq!["Added "@ + decimal(added)] } else { Seq::empty() };
    let r: Seq<Seq<char>> = if removed > 0 { seq!["removed "@ + decimal(removed)] } else { Seq::empty() };
    let i: Seq<Seq<char>> = if ignored > 0 { seq![decimal(ignored) + " ignore rules"@] } else { Seq::empty() };
    let parts = a + r + i;
    if parts.len() == 0 {
        "No changes applied."@
    } else {
        comma_joined(parts) + "."@
    }
}

/// A list position kept inside a list of `len` items.
pub open spec fn clamp_index(idx: usize, len: usize) -> usize {
    if idx >= len && len > 0 { (len - 1) as usize } else { idx }
}

/// The ignore screen after its sources changed to `len` of them.
pub open spec fn ignore_clamped(old: IgnoreScreen, new: IgnoreScreen, len: usize) -> bool {
    if len == 0 {
        new.source_idx == 0 && new.pattern_idx == 0
    } else if old.source_idx >= len {
        new.source_idx == len - 1 && new.pattern_idx == 0
    } else {
        new.source_idx == old.source_idx && new.pattern_idx == old.pattern_idx
    }
}

fn copy_source(s: &SourceConfig) -> (r: SourceConfig)
    ensures
        source_text(r) == source_text(*s),
{
    SourceConfig { path: s.path.clone(), ignore: copy_strings(&s.ignore) }
}

/// Decimal text of a count.
pub(crate) fn count_text(prefix: &str, n: usize, suffix: &str) -> (r: String)
    ensures
        r@ == prefix@ + decimal(n as nat) + suffix@,
{
    let mut t = owned(prefix);
    push_decimal(&mut t, n as u64);
    push_str(&mut t, suffix);
    t
}

/// The texts joined by `", "`.
pub(crate) fn join_with_commas(parts: &Vec<String>) -> (out: String)
    ensures
        out@ == comma_joined(strings_of(parts@)),
{
    let mut out = String::new();
    let mut k: usize = 0;
    assert(strings_of(parts@).take(0) =~= Seq::<Seq<char>>::empty());
    while k < parts.len()
        invariant
            k <= parts.len(),
            out@ == comma_joined(strings_of(parts@).take(k as int)),
        decreases parts.len() - k,
    {
        let ghost before = strings_of(parts@).take(k as int);
        let ghost after = strings_of(parts@).take(k + 1);
        assert(after.drop_last() =~= before);
        if k > 0 {
            push_str(&mut out, ", ");
        }
        push_str(&mut out, parts[k].as_str());
        if k == 0 {
            assert(out@ =~= after[0]);
        } else {
            assert(out@ =~= comma_joined(before) + ", "@ + after.last());
        }
        k = k + 1;
    }
    assert(strings_of(parts@).take(parts.len() as int) =~= strings_of(parts@));
    out
}

fn message_text(added: usize, removed: usize, ignored: usize) -> (r: String)
    ensures
        r@ == applied_message(added as nat, removed as nat, ignored as nat),
{
    let mut parts: Vec<String> = Vec::new();
    if added > 0 {
        parts.push(count_text("Added ", added, ""));
    }
    if removed > 0 {
        parts.push(count_text("removed ", removed, ""));
    }
    if ignored > 0 {
        parts.push(count_text("", ignored, " ignore rules"));
    }
    proof {
        reveal_strlit("");
        assert(""@ =~= Seq::<char>::empty());
    }
    let ghost a: Seq<Seq<char>> = if added > 0 { seq!["Added "@ + decimal(added as nat)] } else { Seq::empty() };
    let ghost r: Seq<Seq<char>> = if removed > 0 { seq!["removed "@ + decimal(removed as nat)] } else { Seq::empty() };
    let ghost i: Seq<Seq<char>> = if ignored > 0 { seq![decimal(ignored as nat) + " ignore rules"@] } else { Seq::empty() };
    assert(strings_of(parts@) =~= a + r + i);
    if parts.len() == 0 {
        return owned("No changes applied.");
    }
    let mut out = join_with_commas(&parts);
    push_str(&mut out, ".");
    out
}

/// Sources with those written in `removals` left out.
fn retain_sources(sources: &Vec<SourceConfig>, removals: &Vec<String>) -> (r: Vec<SourceConfig>)
    ensures
        sources_text(r@) == retained(sources_text(sources@), strings_of(removals@)),
{
    let ghost st = sources_text(sources@);
    let mut out: Vec<SourceConfig> = Vec::new();
    let mut i: usize = 0;
    while i < sources.len()
        invariant
            st == sources_text(sources@),
            i <= sources.len(),
            sources_text(out@) == retained(st.take(i as int), strings_of(removals@)),
        decreases sources.len() - i,
    {
        let ghost t = st.take(i + 1);
        assert(t.drop_last() =~= st.take(i as int));
        assert(t.last() == source_text(sources@[i as int]));
        if !holds_text(removals, &sources[i].path) {
            let ghost before = out@;
            out.push(copy_source(&sources[i]));
            assert(sources_text(out@) =~= sources_text(before).push(t.last()));
        }
        i = i + 1;
    }
    assert(st.take(sources.len() as int) =~= st);
    out
}

/// Index of the first source written `path`.
fn source_position(sources: &Vec<SourceConfig>, path: &String) -> (r: Option<usize>)
    ensures
        match r {
            Some(i) => i < sources.len() && first_path(sources_text(sources@), path@) == Some(i as int),
            None => first_path(sources_text(sources@), path@) == None::<int>,
        },
{
    let ghost st = sources_text(sources@);
    let mut i: usize = 0;
    while i < sources.len()
        invariant
            st == sources_text(sources@),
            i <= sources.len(),
            first_path(st.take(i as int), path@) == None::<int>,
        decreases sources.len() - i,
    {
        assert(st.take(i + 1).drop_last() =~= st.take(i as int));
        if same_text(&sources[i].path, path) {
            proof {
                lemma_first_path_prefix(st, path@, i as int);
            }
            return Some(i);
        }
        i = i + 1;
    }
    assert(st.take(sources.len() as int) =~= st);
    None
}

pub proof fn lemma_first_path_prefix(s: Seq<SourceText>, path: Seq<char>, i: int)
    requires
        0 <= i < s.len(),
        first_path(s.take(i), path) == None::<int>,
        s[i].0 == path,
    ensures
        first_path(s, path) == Some(i),
    decreases s.len(),
{
    if i == s.len() - 1 {
        assert(s.take(i) =~= s.drop_last());
    } else {
        assert(s.drop_last().take(i) =~= s.take(i));
        lemma_first_path_prefix(s.drop_last(), path, i);
    }
}

/// Rule application keeps the paths, so the first source of a path does
/// not move.
pub proof fn lemma_with_rules_paths(s: Seq<SourceText>, rules: Seq<(Seq<char>, Seq<Seq<char>>)>)
    ensures
        with_rules(s, rules).len() == s.len(),
        forall|i: int| 0 <= i < s.len() ==> (#[trigger] with_rules(s, rules)[i]).0 == s[i].0,
    decreases rules.len(),
{
    if rules.len() > 0 {
        lemma_with_rules_paths(s, rules.drop_last());
        let t = with_rules(s, rules.drop_last());
        lemma_first_path_bound(t, rules.last().0);
    }
}

pub proof fn lemma_first_path_bound(s: Seq<SourceText>, path: Seq<char>)
    ensures
        match first_path(s, path) {
            Some(i) => 0 <= i < s.len() && s[i].0 == path,
            None => true,
        },
    decreases s.len(),
{
    if s.len() > 0 {
        lemma_first_path_bound(s.drop_last(), path);
    }
}

pub proof fn lemma_first_path_same_paths(s: Seq<SourceText>, t: Seq<SourceText>, path: Seq<char>)
    requires
        s.len() == t.len(),
        forall|i: int| 0 <= i < s.len() ==> (#[trigger] s[i]).0 == t[i].0,
    ensures
        first_path(s, path) == first_path(t, path),
    decreases s.len(),
{
    if s.len() > 0 {
        assert forall|i: int| 0 <= i < s.len() - 1 implies (#[trigger] s.drop_last()[i]).0 == t.drop_last()[i].0 by {
            assert(s[i].0 == t[i].0);
        }
        lemma_first_path_same_paths(s.drop_last(), t.drop_last(), path);
        assert(s[s.len() - 1].0 == t[t.len() - 1].0);
    }
}

pub proof fn lemma_rules_added_prefix(s: Seq<SourceText>, rules: Seq<(Seq<char>, Seq<Seq<char>>)>, n: int)
    requires
        0 <= n <= rules.len(),
    ensures
        rules_added(s, rules.take(n)) <= rules_added(s, rules),
    decreases rules.len(),
{
    if n < rules.len() {
        assert(rules.drop_last().take(n) =~= rules.take(n));
        lemma_rules_added_prefix(s, rules.drop_last(), n);
    } else {
        assert(rules.take(n) =~= rules);
    }
}

/// Append each rule list to the first source of its path.
fn apply_rules(sources: &mut Vec<SourceConfig>, rules: &Vec<SourceRules>) -> (added: usize)
    requires
        rules_added(sources_text(old(sources)@), rules_view(rules@)) <= usize::MAX,
    ensures
        sources_text(final(sources)@) == with_rules(sources_text(old(sources)@), rules_view(rules@)),
        added == rules_added(sources_text(old(sources)@), rules_view(rules@)),
{
    let ghost base = sources_text(sources@);
    let ghost rv = rules_view(rules@);
    let mut added: usize = 0;
    let mut k: usize = 0;
    while k < rules.len()
        invariant
            base == sources_text(old(sources)@),
            rv == rules_view(rules@),
            rules_added(base, rv) <= usize::MAX,
            k <= rules.len(),
            sources_text(sources@) == with_rules(base, rv.take(k as int)),
            added == rules_added(base, rv.take(k as int)),
        decreases rules.len() - k,
    {
        let ghost t = rv.take(k + 1);
        assert(t.drop_last() =~= rv.take(k as int));
        assert(t.last() == rv[k as int]);
        let ghost cur = sources_text(sources@);
        proof {
            lemma_with_rules_paths(base, rv.take(k as int));
            lemma_first_path_same_paths(cur, base, rv[k as int].0);
            lemma_rules_added_prefix(base, rv, k + 1);
        }
        let entry = &rules[k];
        match source_position(sources, &entry.source) {
            Some(i) => {
                let mut src = copy_source(&sources[i]);
                let ghost before = strings_of(src.ignore@);
                let mut j: usize = 0;
                while j < entry.rules.len()
                    invariant
                        j <= entry.rules.len(),
                        strings_of(src.ignore@) == before + strings_of(entry.rules@).take(j as int),
                        src.path@ == cur[i as int].0,
                    decreases entry.rules.len() - j,
                {
                    let ghost b2 = src.ignore@;
                    src.ignore.push(entry.rules[j].clone());
                    assert(strings_of(src.ignore@) =~= strings_of(b2).push(entry.rules@[j as int]@));
                    assert(strings_of(entry.rules@).take(j + 1) =~= strings_of(entry.rules@).take(j as int).push(
                        entry.rules@[j as int]@,
                    ));
                    j = j + 1;
                }
                assert(strings_of(entry.rules@).take(entry.rules.len() as int) =~= strings_of(entry.rules@));
                added = added + entry.rules.len();
                let ghost new_text = source_text(src);
                sources.set(i, src);
                assert(sources_text(sources@) =~= cur.update(i as int, new_text));
            },
            None => {},
        }
        k = k + 1;
    }
    assert(rv.take(rules.len() as int) =~= rv);
    added
}

/// The application state apart from the named parts stays as it was.
pub open spec fn same_except_sources(a: App, b: App) -> bool {
    &&& a.focus == b.focus
    &&& a.active_screen == b.active_screen
    &&& a.should_quit == b.should_quit
    &&& a.last_backup == b.last_backup
    &&& a.last_check == b.last_check
    &&& a.status_message == b.status_message
    &&& a.repo_screen == b.repo_screen
    &&& a.history_screen == b.history_screen
    &&& a.theme_picker == b.theme_picker
    &&& a.dashboard_screen == b.dashboard_screen
    &&& a.automation_screen == b.automation_screen
}

/// Whether applying the pending diff counts its added rules in a `usize`.
pub open spec fn diff_fits(a: App) -> bool {
    match (a.config, a.sources_screen.pending_diff) {
        (Some(c), Some(d)) => rules_added(
            retained(sources_text(c.sources@), d@.removals) + added_sources(d@.additions),
            d@.ignore_rules,
        ) <= usize::MAX,
        _ => true,
    }
}

/// `b` is `a` once the task manager took what the channel gave.
pub open spec fn polled(a: App, received: Received, b: App) -> bool {
    &&& b == (App { tasks: b.tasks, ..a })
    &&& b.tasks@.next == a.tasks@.next
    &&& match received {
        Received::Result(res) => match identity_of(res) {
            Some((kind, id)) => {
                &&& b.tasks@.active == a.tasks@.active
                &&& forall|k: LoadTaskKind| #[trigger] live_request(b.tasks@, k) == if live_request(a.tasks@, kind)
                    == Some(id) {
                    loads_with(a.tasks@, kind, None, k)
                } else {
                    live_request(a.tasks@, k)
                }
            },
            None => b.tasks@.active is None && b.tasks@.loads == a.tasks@.loads,
        },
        Received::Empty => b.tasks@ == a.tasks@,
        Received::Disconnected => b.tasks@.active is None && b.tasks@.loads == a.tasks@.loads,
    }
}

/// An error text, or `unknown error`.
pub open spec fn error_text(e: Option<String>) -> Seq<char> {
    match e {
        Some(t) => t@,
        None => "unknown error"@,
    }
}

/// The question a validated repository raises: a new one asks to be
/// initialized, one that is already in use asks to be attached.
pub open spec fn question_for(o: OwnershipInfo) -> ConfirmState {
    match o {
        OwnershipInfo::New => ConfirmState::AskInitialize,
        OwnershipInfo::Owned { .. } => ConfirmState::AskAttach,
        _ => ConfirmState::Idle,
    }
}

/// What a finished result does to the application `a`: an operation's
/// result is reported and kept; a screen-data result is taken only when it
/// answers the request its screen waits for.
pub open spec fn result_applied(a: App, result: TaskResult, b: App, f: FollowUp) -> bool {
    match result {
        TaskResult::Backup(r) => {
            &&& f is ReloadState
            &&& b.last_backup == Some(r)
            &&& if r.success {
                crate::content::announced(a.status_message, b, StatusKind::Success, "Backup completed successfully."@)
            } else {
                crate::content::announced(a.status_message, b, StatusKind::Error, "Backup failed: "@ + error_text(r.error))
            }
            &&& b.preview_screen == (PreviewScreen {
                load_state: LoadState::Stale { previous: load_data(a.preview_screen.load_state) },
                ..a.preview_screen
            })
            &&& live_request(b.tasks@, LoadTaskKind::BackupPreview) is None
            &&& forall|k: LoadTaskKind|
                k != LoadTaskKind::BackupPreview ==> #[trigger] live_request(b.tasks@, k) == live_request(a.tasks@, k)
            &&& b.tasks@.active == a.tasks@.active
            &&& b == (App {
                status_message: b.status_message,
                last_backup: b.last_backup,
                preview_screen: b.preview_screen,
                tasks: b.tasks,
                ..a
            })
        },
        TaskResult::Check(r) => {
            &&& f is Nothing
            &&& b.last_check == Some(r)
            &&& if r.healthy {
                crate::content::announced(a.status_message, b, StatusKind::Success, "All checks passed."@)
            } else {
                crate::content::announced(a.status_message, b, StatusKind::Warning, "Some checks reported issues."@)
            }
            &&& b == (App { status_message: b.status_message, last_check: b.last_check, ..a })
        },
        TaskResult::Push(r) => {
            &&& f is ReloadState
            &&& if r.success {
                crate::content::announced(a.status_message, b, StatusKind::Success, "Push completed successfully."@)
            } else {
                crate::content::announced(a.status_message, b, StatusKind::Error, "Push failed: "@ + error_text(r.error))
            }
            &&& b == (App { status_message: b.status_message, ..a })
        },
        TaskResult::RepositoryValidation { request_id, result } => {
            let s = a.repo_screen.validation;
            if !load_accepts(s, request_id) {
                f is Nothing && b == a
            } else {
                let done = RepoScreen { validation: load_finished(s, result), ..a.repo_screen };
                match result {
                    Err(_) => f is Nothing && b == (App { repo_screen: done, ..a }),
                    Ok(info) => {
                        &&& f matches FollowUp::RefreshNamespaces { repository, active }
                            && crate::paths::parts_of(repository) == crate::paths::parts_of(info.path)
                            && active@ == match a.config {
                                Some(c) => c.namespace@,
                                None => Seq::<char>::empty(),
                            }
                        &&& b == (App {
                            repo_screen: if a.config is None {
                                RepoScreen { confirm_state: ConfirmState::Idle, mode: RepoMode::Namespaces, ..done }
                            } else if crate::screens::repository::usable(info.ownership) {
                                RepoScreen { confirm_state: question_for(info.ownership), ..done }
                            } else {
                                done
                            },
                            ..a
                        })
                    },
                }
            }
        },
        TaskResult::BackupPreview { request_id, result } => f is Nothing && b == if load_accepts(
            a.preview_screen.load_state,
            request_id,
        ) {
            App { preview_screen: PreviewScreen { load_state: load_finished(a.preview_screen.load_state, result), scroll: 0 }, ..a }
        } else {
            a
        },
        TaskResult::IgnorePreview { request_id, source_idx, result } => {
            let st = load_finished(a.ignore_screen.preview_state, result);
            &&& f is Nothing
            &&& if source_idx == a.ignore_screen.source_idx && load_accepts(a.ignore_screen.preview_state, request_id) {
                &&& b == (App {
                    ignore_screen: IgnoreScreen {
                        preview_state: st,
                        preview_viewport: b.ignore_screen.preview_viewport,
                        ..a.ignore_screen
                    },
                    ..a
                })
                &&& b.ignore_screen.preview_viewport@ == crate::viewport::clamped(
                    a.ignore_screen.preview_viewport@,
                    crate::screens::ignore::preview_rows(st),
                )
            } else {
                b == a
            }
        },
        TaskResult::AutomationInspection { request_id, result } => {
            let s = a.automation_screen.status_state;
            &&& f is Nothing
            &&& b == (App {
                automation_screen: AutomationScreen {
                    status_state: if load_accepts(s, request_id) {
                        load_finished(s, result)
                    } else {
                        s
                    },
                    ..a.automation_screen
                },
                ..a
            })
        },
    }
}

/// The status shown, by its content.
pub open spec fn shown(o: Option<StatusMessage>) -> Option<StatusModel> {
    match o {
        Some(m) => Some(m@),
        None => None,
    }
}

/// What the status shows after a message of `kind` and `text` is
/// published over `prev`.
pub open spec fn shown_after(prev: Option<StatusModel>, kind: StatusKind, text: Seq<char>) -> Option<StatusModel> {
    if match prev {
        None => true,
        Some(c) => c.kind == StatusKind::Running || kind_rank(kind) >= kind_rank(c.kind),
    } {
        Some(StatusModel { kind, text, remaining: kind_lifetime(kind) })
    } else {
        prev
    }
}

/// What the status shows once the messages the sources, ignore and
/// automation screens left, in that order, are published over it.
pub open spec fn after_notes(a: App) -> Option<StatusModel> {
    let s0 = shown(a.status_message);
    let s1 = match a.sources_screen.message {
        Some(m) => shown_after(
            s0,
            match m.kind {
                crate::screens::sources::MessageKind::Info => StatusKind::Success,
                crate::screens::sources::MessageKind::Warning => StatusKind::Warning,
                crate::screens::sources::MessageKind::Error => StatusKind::Error,
            },
            m.text@,
        ),
        None => s0,
    };
    let s2 = match a.ignore_screen.message {
        Some(m) => shown_after(
            s1,
            match m.kind {
                crate::screens::ignore::MessageKind::Success => StatusKind::Success,
                crate::screens::ignore::MessageKind::Error => StatusKind::Error,
            },
            m.text@,
        ),
        None => s1,
    };
    match a.automation_screen.message {
        Some(m) => shown_after(s2, if m.success { StatusKind::Success } else { StatusKind::Error }, m.text@),
        None => s2,
    }
}

/// `a` with the screens' messages moved to the status region, which then
/// holds `status`.
pub open spec fn promoted(a: App, status: Option<StatusMessage>) -> App {
    App {
        status_message: status,
        sources_screen: SourcesScreen { message: None, ..a.sources_screen },
        ignore_screen: IgnoreScreen { message: None, ..a.ignore_screen },
        automation_screen: AutomationScreen { message: None, ..a.automation_screen },
        ..a
    }
}

/// The tab bar's answer to a key: move between tabs, jump with 1-7, enter the content (asking for the work the screen needs first), or quit.
pub open spec fn tab_bar_step(a: App, key: KeyEvent, b: App, work: Option<EntryWork>) -> bool {
    &&& b == (App {
        active_screen: b.active_screen,
        focus: b.focus,
        should_quit: b.should_quit,
        ..a
    })
    &&& ({
        let c = key.code;
        let m = key.modifiers.bits;
        let s = a.active_screen;
        if c == KeyCode::Right || c == KeyCode::Char('l') || (m == NO_MODIFIERS && c == KeyCode::Tab) {
            b.active_screen == screen_next(s) && work is None && b.focus
                == a.focus && b.should_quit == a.should_quit
        } else if c == KeyCode::Left || c == KeyCode::Char('h') || (m == SHIFT && c
            == KeyCode::BackTab) {
            b.active_screen == screen_prev(s) && work is None && b.focus
                == a.focus && b.should_quit == a.should_quit
        } else if c == KeyCode::Down || c == KeyCode::Char('j') || c == KeyCode::Enter {
            &&& b.focus == Focus::Content
            &&& b.active_screen == s
            &&& b.should_quit == a.should_quit
            &&& work == if s == Screen::Repository {
                Some(EntryWork::OpenRepositoryBrowser)
            } else if (s == Screen::Dashboard || s == Screen::Automation) && needs_loading(
                a.automation_screen.status_state,
            ) {
                Some(EntryWork::InspectAutomation)
            } else if s == Screen::Preview && needs_loading(a.preview_screen.load_state) {
                Some(EntryWork::PreviewBackup)
            } else {
                None
            }
        } else if digit_tab(c) is Some {
            b.active_screen == screen_at(digit_tab(c)->0) && work is None
                && b.focus == a.focus && b.should_quit
                == a.should_quit
        } else if c == KeyCode::Char('q') || c == KeyCode::Esc {
            b.should_quit && work is None && b.active_screen == s
                && b.focus == a.focus
        } else {
            work is None && b.active_screen == s && b.focus == a.focus
                && b.should_quit == a.should_quit
        }
    })
}

/// Where a key goes and what it does there: an open theme picker takes
/// every key (and closes when a theme is persisted or restored); Ctrl+T
/// opens the picker over the active theme; Ctrl+C quits unless an open
/// field or question owns it; otherwise the tab bar or the content gets the
/// key, as focus says.
pub open spec fn routed(a: App, key: KeyEvent, active_theme: ThemeId, b: App, r: KeyRoute) -> bool {
    let ctrl = key.modifiers.bits == CONTROL;
    match a.theme_picker {
        Some(p) => r matches KeyRoute::ThemePicker(step) && exists|q: ThemePickerState|
            #[trigger] picker_answers(p, key, q, step) && b == (App {
                theme_picker: if step is Persist || step is Restore { None } else { Some(q) },
                ..a
            }),
        None => if ctrl && key.code == KeyCode::Char('t') {
            r == KeyRoute::OpenedThemePicker && b == (App {
                theme_picker: Some(ThemePickerState { previous: active_theme, selected: active_theme }),
                ..a
            })
        } else if ctrl && key.code == KeyCode::Char('c') {
            r == KeyRoute::Interrupt && b == (App {
                should_quit: a.should_quit || a.focus == Focus::TabBar || !owns_quit(a),
                ..a
            })
        } else {
            match a.focus {
                Focus::TabBar => r matches KeyRoute::TabBar(work) && tab_bar_step(a, key, b, work),
                Focus::Content => r == KeyRoute::Content && b == a,
            }
        },
    }
}

impl App {
    /// A fresh application: with a configuration (its repository path and
    /// namespace) it opens on the dashboard's tab bar; without one it opens
    /// in the repository screen's content for first-run setup.
    pub fn new(config: Option<Config>) -> (a: Self)
        ensures
            a.config == config,
            match config {
                Some(c) => {
                    &&& a.focus == Focus::TabBar
                    &&& a.active_screen == Screen::Dashboard
                    &&& a.repo_screen.input@ == c.repository@
                    &&& a.repo_screen.namespace_input@ == c.namespace@
                },
                None => {
                    &&& a.focus == Focus::Content
                    &&& a.active_screen == Screen::Repository
                    &&& a.repo_screen.input@.len() == 0
                },
            },
            !a.should_quit,
            a.tasks@.active is None,
            a.status_message is None,
            a.theme_picker is None,
            a.last_backup is None,
            a.last_check is None,
    {
        let repo_screen = match &config {
            Some(c) => {
                let mut s = RepoScreen::with_path(c.repository.as_str());
                s.set_namespace(c.namespace.as_str());
                s
            },
            None => RepoScreen::new(),
        };
        let first_run = config.is_none();
        App {
            focus: if first_run { Focus::Content } else { Focus::TabBar },
            active_screen: if first_run { Screen::Repository } else { Screen::Dashboard },
            should_quit: false,
            tasks: TaskManager::new(),
            last_backup: None,
            last_check: None,
            config,
            status_message: None,
            dashboard_screen: DashboardScreen::new(),
            repo_screen,
            sources_screen: SourcesScreen::new(),
            ignore_screen: IgnoreScreen::new(),
            preview_screen: PreviewScreen::new(),
            automation_screen: AutomationScreen::new(),
            history_screen: HistoryScreen::new(),
            theme_picker: None,
        }
    }

    /// Publish a status message with semantic priority.
    pub fn publish_status(&mut self, message: StatusMessage)
        ensures
            publish_replaces(old(self).status_message, message) ==> final(self).status_message == Some(
                message,
            ),
            !publish_replaces(old(self).status_message, message) ==> final(self).status_message
                == old(self).status_message,
            *final(self) == (App { status_message: final(self).status_message, ..*old(self) }),
    {
        publish(&mut self.status_message, message);
    }

    /// Advance transient UI state on the periodic event-loop tick: an
    /// expired status message goes away.
    pub fn tick(&mut self)
        ensures
            match old(self).status_message {
                None => final(self).status_message is None,
                Some(m) => match m@.remaining {
                    None => final(self).status_message matches Some(n) && n@ == m@,
                    Some(r) => if r <= 1 {
                        final(self).status_message is None
                    } else {
                        final(self).status_message matches Some(n) && n@.kind == m@.kind && n@.text
                            == m@.text && n@.remaining == Some((r - 1) as u16)
                    },
                },
            },
            shown(final(self).status_message) == crate::status::after_tick(shown(old(self).status_message)),
            *final(self) == (App { status_message: final(self).status_message, ..*old(self) }),
    {
        let expired = match self.status_message.take() {
            Some(mut m) => {
                let e = m.tick();
                self.status_message = Some(m);
                e
            },
            None => false,
        };
        if expired {
            self.status_message = None;
        }
    }

    /// Whether the active screen's content owns Ctrl+C.
    pub fn content_owns_quit_shortcuts(&self) -> (r: bool)
        ensures
            r == owns_quit(*self),
    {
        match self.active_screen {
            Screen::Repository => self.repo_screen.mode != RepoMode::Browser
                || self.repo_screen.confirm_state == ConfirmState::AskInitialize
                || self.repo_screen.confirm_state == ConfirmState::AskAttach
                || self.repo_screen.namespace_confirmation.is_some(),
            Screen::Sources => match self.sources_screen.mode {
                crate::screens::sources::Mode::List | crate::screens::sources::Mode::Browse => false,
                _ => true,
            },
            Screen::Ignore => self.ignore_screen.mode == crate::screens::ignore::Mode::AddInput,
            Screen::Automation => self.automation_screen.confirm != ConfirmAction::Idle,
            Screen::Dashboard => self.dashboard_screen.detail.is_some(),
            Screen::Preview | Screen::History => false,
        }
    }

    /// Keys on the tab bar: move between tabs, jump with 1-7, enter the
    /// content, or quit.
    pub fn handle_key_tab_bar(&mut self, key: KeyEvent) -> (work: Option<EntryWork>)
        ensures
            tab_bar_step(*old(self), key, *final(self), work),
    {
        let c = key.code;
        if c == KeyCode::Right || c == KeyCode::Char('l') || (key.no_modifiers() && c == KeyCode::Tab) {
            self.active_screen = self.active_screen.next();
            return None;
        }
        if c == KeyCode::Left || c == KeyCode::Char('h') || (key.modifiers.bits == SHIFT && c
            == KeyCode::BackTab) {
            self.active_screen = self.active_screen.prev();
            return None;
        }
        if c == KeyCode::Down || c == KeyCode::Char('j') || c == KeyCode::Enter {
            self.focus = Focus::Content;
            let s = self.active_screen;
            if s == Screen::Repository {
                return Some(EntryWork::OpenRepositoryBrowser);
            }
            if (s == Screen::Dashboard || s == Screen::Automation)
                && self.automation_screen.status_state.needs_load() {
                return Some(EntryWork::InspectAutomation);
            }
            if s == Screen::Preview && self.preview_screen.load_state.needs_load() {
                return Some(EntryWork::PreviewBackup);
            }
            return None;
        }
        match c {
            KeyCode::Char(d) => {
                if '1' <= d && d <= '7' {
                    let idx = (d as u32 - '1' as u32) as usize;
                    if let Some(screen) = Screen::from_index(idx) {
                        self.active_screen = screen;
                    }
                    return None;
                }
                if d == 'q' {
                    self.should_quit = true;
                }
            },
            KeyCode::Esc => {
                self.should_quit = true;
            },
            _ => {},
        }
        None
    }

    /// Route a key: the open theme picker takes everything; Ctrl+T opens it
    /// (over `active_theme`); Ctrl+C quits unless content owns it; then the
    /// focused level.
    pub fn route_key(&mut self, key: KeyEvent, active_theme: ThemeId) -> (r: KeyRoute)
        ensures
            routed(*old(self), key, active_theme, *final(self), r),
    {
        if self.theme_picker.is_some() {
            let mut picker = self.theme_picker.take().unwrap();
            let ghost p = picker;
            let step = picker.handle_key(key);
            assert(picker_answers(p, key, picker, step));
            match step {
                PickerStep::Persist(_) | PickerStep::Restore(_) => {},
                _ => {
                    self.theme_picker = Some(picker);
                },
            }
            return KeyRoute::ThemePicker(step);
        }
        if key.modifiers.bits == CONTROL && key.code == KeyCode::Char('t') {
            self.theme_picker = Some(ThemePickerState::open(active_theme));
            return KeyRoute::OpenedThemePicker;
        }
        if key.modifiers.bits == CONTROL && key.code == KeyCode::Char('c') {
            if self.focus == Focus::TabBar || !self.content_owns_quit_shortcuts() {
                self.should_quit = true;
            }
            return KeyRoute::Interrupt;
        }
        match self.focus {
            Focus::TabBar => KeyRoute::TabBar(self.handle_key_tab_bar(key)),
            Focus::Content => KeyRoute::Content,
        }
    }

    /// Report where a chosen theme went: `saved` is `None` when there is no
    /// configuration directory, else the outcome of writing it there.
    pub fn theme_saved(&mut self, id: ThemeId, saved: Option<Result<(), String>>)
        ensures
            ({
                let label = crate::theme::theme_label(id);
                let text = match saved {
                    None => "Theme set to "@ + label + " (not saved)"@,
                    Some(Ok(())) => "Theme set to "@ + label,
                    Some(Err(e)) => "Theme set to "@ + label + " (save failed: "@ + e@ + ")"@,
                };
                let kind = match saved {
                    Some(Err(_)) => StatusKind::Warning,
                    _ => StatusKind::Success,
                };
                shown(final(self).status_message) == shown_after(shown(old(self).status_message), kind, text)
            }),
            *final(self) == (App { status_message: final(self).status_message, ..*old(self) }),
    {
        let mut text = owned("Theme set to ");
        push_str(&mut text, id.label());
        match saved {
            None => {
                push_str(&mut text, " (not saved)");
                self.publish_status(StatusMessage::success(text.as_str()));
            },
            Some(Ok(())) => {
                self.publish_status(StatusMessage::success(text.as_str()));
            },
            Some(Err(e)) => {
                push_str(&mut text, " (save failed: ");
                push_str(&mut text, e.as_str());
                push_str(&mut text, ")");
                self.publish_status(StatusMessage::warning(text.as_str()));
            },
        }
    }

    /// Move screen-local feedback into the status region.
    pub fn promote_screen_messages(&mut self)
        ensures
            *final(self) == promoted(*old(self), final(self).status_message),
            shown(final(self).status_message) == after_notes(*old(self)),
    {
        if let Some(message) = self.sources_screen.message.take() {
            let m = match message.kind {
                crate::screens::sources::MessageKind::Info => StatusMessage::success(message.text.as_str()),
                crate::screens::sources::MessageKind::Warning => StatusMessage::warning(
                    message.text.as_str(),
                ),
                crate::screens::sources::MessageKind::Error => StatusMessage::error(message.text.as_str()),
            };
            self.publish_status(m);
        }
        if let Some(message) = self.ignore_screen.message.take() {
            let m = match message.kind {
                crate::screens::ignore::MessageKind::Success => StatusMessage::success(
                    message.text.as_str(),
                ),
                crate::screens::ignore::MessageKind::Error => StatusMessage::error(message.text.as_str()),
            };
            self.publish_status(m);
        }
        if let Some(message) = self.automation_screen.message.take() {
            let m = if message.success {
                StatusMessage::success(message.text.as_str())
            } else {
                StatusMessage::error(message.text.as_str())
            };
            self.publish_status(m);
        }
    }

    /// Apply a reloaded persistent state: the history selection is clamped
    /// to its length.
    pub fn reload_state(&mut self, history_len: usize)
        ensures
            final(self).history_screen.list_viewport@ == crate::viewport::ensured(
                old(self).history_screen.list_viewport@,
                crate::screens::history::clamp_selection(old(self).history_screen.selected, history_len) as nat,
                history_len as nat,
            ),
            *final(self) == (App {
                history_screen: HistoryScreen {
                    selected: crate::screens::history::clamp_selection(old(self).history_screen.selected, history_len),
                    list_viewport: final(self).history_screen.list_viewport,
                    ..old(self).history_screen
                },
                ..*old(self)
            }),
    {
        self.history_screen.clamp_history(history_len);
    }

    /// Drop the backup preview: its request is forgotten and its data stale.
    pub fn invalidate_backup_preview(&mut self)
        ensures
            final(self).preview_screen.load_state == (LoadState::Stale {
                previous: crate::task::load_data(old(self).preview_screen.load_state),
            }),
            final(self).preview_screen.scroll == old(self).preview_screen.scroll,
            crate::task::live_request(final(self).tasks@, LoadTaskKind::BackupPreview) is None,
            forall|k: LoadTaskKind|
                k != LoadTaskKind::BackupPreview ==> #[trigger] crate::task::live_request(final(self).tasks@, k)
                    == crate::task::live_request(old(self).tasks@, k),
            final(self).tasks@.active == old(self).tasks@.active,
            *final(self) == (App {
                preview_screen: final(self).preview_screen,
                tasks: final(self).tasks,
                ..*old(self)
            }),
    {
        self.tasks.invalidate_load(LoadTaskKind::BackupPreview);
        self.preview_screen.load_state.invalidate();
    }

    /// Take in one look at the result channel. `None` means nothing was
    /// there (stop polling); otherwise the result was applied and the
    /// follow-up says what the caller does next.
    pub fn poll_tasks(&mut self, received: Received) -> (r: Option<FollowUp>)
        ensures
            match received {
                Received::Result(res) => r matches Some(f) && exists|mid: App|
                    #[trigger] polled(*old(self), received, mid) && result_applied(mid, res, *final(self), f),
                _ => r is None && polled(*old(self), received, *final(self)),
            },
    {
        let ghost received_copy = received;
        let polled_result = self.tasks.poll(received);
        let ghost mid = *self;
        assert(polled(*old(self), received_copy, mid));
        match polled_result {
            None => None,
            Some(result) => Some(self.apply_result(result)),
        }
    }

    fn backup_status(r: &BackupResult) -> (m: StatusMessage)
        ensures
            r.success ==> m@.kind == StatusKind::Success && m@.text == "Backup completed successfully."@,
            !r.success ==> m@.kind == StatusKind::Error && m@.text == "Backup failed: "@ + match r.error {
                Some(e) => e@,
                None => "unknown error"@,
            },
    {
        if r.success {
            StatusMessage::success("Backup completed successfully.")
        } else {
            let mut t = owned("Backup failed: ");
            match &r.error {
                Some(e) => push_str(&mut t, e.as_str()),
                None => push_str(&mut t, "unknown error"),
            }
            StatusMessage::error(t.as_str())
        }
    }

    /// Apply one finished result to the screens.
    pub fn apply_result(&mut self, result: TaskResult) -> (f: FollowUp)
        ensures
            result_applied(*old(self), result, *final(self), f),
    {
        match result {
            TaskResult::Backup(r) => {
                let m = App::backup_status(&r);
                self.publish_status(m);
                self.last_backup = Some(r);
                self.invalidate_backup_preview();
                FollowUp::ReloadState
            },
            TaskResult::Check(r) => {
                if r.healthy {
                    self.publish_status(StatusMessage::success("All checks passed."));
                } else {
                    self.publish_status(StatusMessage::warning("Some checks reported issues."));
                }
                self.last_check = Some(r);
                FollowUp::Nothing
            },
            TaskResult::Push(r) => {
                if r.success {
                    self.publish_status(StatusMessage::success("Push completed successfully."));
                } else {
                    let mut t = owned("Push failed: ");
                    match &r.error {
                        Some(e) => push_str(&mut t, e.as_str()),
                        None => push_str(&mut t, "unknown error"),
                    }
                    self.publish_status(StatusMessage::error(t.as_str()));
                }
                FollowUp::ReloadState
            },
            TaskResult::RepositoryValidation { request_id, result } => {
                if self.repo_screen.validation.finish(request_id, result) {
                    if let LoadState::Loaded(info) = &self.repo_screen.validation {
                        let repository = crate::selection::copy_path(&info.path);
                        let needs_confirmation = info.ownership.needs_confirmation();
                        let ask = match info.ownership {
                            OwnershipInfo::New => ConfirmState::AskInitialize,
                            OwnershipInfo::Owned { .. } => ConfirmState::AskAttach,
                            _ => ConfirmState::Idle,
                        };
                        let active = match &self.config {
                            Some(c) => c.namespace.clone(),
                            None => String::new(),
                        };
                        if self.config.is_none() {
                            self.repo_screen.confirm_state = ConfirmState::Idle;
                            self.repo_screen.mode = RepoMode::Namespaces;
                        } else if needs_confirmation {
                            self.repo_screen.confirm_state = ask;
                        }
                        return FollowUp::RefreshNamespaces { repository, active };
                    }
                }
                FollowUp::Nothing
            },
            TaskResult::BackupPreview { request_id, result } => {
                if self.preview_screen.load_state.finish(request_id, result) {
                    self.preview_screen.scroll = 0;
                }
                FollowUp::Nothing
            },
            TaskResult::IgnorePreview { request_id, source_idx, result } => {
                if source_idx == self.ignore_screen.source_idx {
                    if self.ignore_screen.preview_state.finish(request_id, result) {
                        let len = self.ignore_screen.preview_len();
                        self.ignore_screen.preview_viewport.clamp(len);
                    }
                }
                FollowUp::Nothing
            },
            TaskResult::AutomationInspection { request_id, result } => {
                self.automation_screen.status_state.finish(request_id, result);
                FollowUp::Nothing
            },
        }
    }
}


/// What applying the pending changes does: `save` when the configuration
/// changed.
pub open spec fn diff_executed(a: App, b: App, save: bool) -> bool {
    &&& match a.sources_screen.pending_diff {
        None => !save && b.sources_screen.mode == crate::screens::sources::Mode::List
            && b.config == a.config,
        Some(d) => {
            &&& b.sources_screen.mode == crate::screens::sources::Mode::List
            &&& b.sources_screen.selection is None
            &&& b.sources_screen.pending_diff is None
            &&& b.preview_screen.load_state is Stale
            &&& b.ignore_screen.preview_state is Stale
            &&& match a.config {
                Some(c) => {
                    let base = retained(sources_text(c.sources@), d@.removals) + added_sources(d@.additions);
                    let now = applied(sources_text(c.sources@), d@);
                    &&& save
                    &&& b.config matches Some(n) && n.repository == c.repository
                        && n.namespace == c.namespace && sources_text(n.sources@) == now
                    &&& b.sources_screen.message matches Some(m) && m.kind
                        == crate::screens::sources::MessageKind::Info && m.text@ == applied_message(
                        d@.additions.len(),
                        d@.removals.len(),
                        rules_added(base, d@.ignore_rules),
                    )
                    &&& b.sources_screen.selected == clamp_index(
                        a.sources_screen.selected,
                        now.len() as usize,
                    )
                    &&& ignore_clamped(a.ignore_screen, b.ignore_screen, now.len() as usize)
                },
                None => {
                    &&& !save
                    &&& b.config is None
                    &&& b.sources_screen.message matches Some(m) && m.kind
                        == crate::screens::sources::MessageKind::Info && m.text@ == "No changes applied."@
                },
            }
        },
    }
    &&& same_except_sources(a, b)
}

/// `b` is `a` with both previews marked out of date and their live
/// requests forgotten.
pub open spec fn previews_invalidated(a: App, b: App) -> bool {
    &&& b.preview_screen == (PreviewScreen {
        load_state: LoadState::Stale { previous: load_data(a.preview_screen.load_state) },
        ..a.preview_screen
    })
    &&& b.ignore_screen == (IgnoreScreen {
        preview_state: LoadState::Stale { previous: load_data(a.ignore_screen.preview_state) },
        ..a.ignore_screen
    })
    &&& forall|k: LoadTaskKind| #[trigger] live_request(b.tasks@, k) == if k == LoadTaskKind::BackupPreview
        || k == LoadTaskKind::IgnorePreview {
        None
    } else {
        live_request(a.tasks@, k)
    }
    &&& b.tasks@.active == a.tasks@.active
    &&& b == (App { ignore_screen: b.ignore_screen, preview_screen: b.preview_screen, tasks: b.tasks, ..a })
}

impl App {
    /// Drop the repository validation: its request is forgotten, its data
    /// stale and any open question closed.
    pub fn invalidate_repository_validation(&mut self)
        ensures
            final(self).repo_screen.validation == (LoadState::Stale {
                previous: crate::task::load_data(old(self).repo_screen.validation),
            }),
            final(self).repo_screen.confirm_state == ConfirmState::Idle,
            crate::task::live_request(final(self).tasks@, LoadTaskKind::RepositoryValidation) is None,
            forall|k: LoadTaskKind|
                k != LoadTaskKind::RepositoryValidation ==> #[trigger] crate::task::live_request(final(self).tasks@, k)
                    == crate::task::live_request(old(self).tasks@, k),
            final(self).tasks@.active == old(self).tasks@.active,
            final(self).repo_screen == (crate::screens::repository::RepoScreen {
                validation: final(self).repo_screen.validation,
                confirm_state: ConfirmState::Idle,
                ..old(self).repo_screen
            }),
            *final(self) == (App { repo_screen: final(self).repo_screen, tasks: final(self).tasks, ..*old(self) }),
    {
        self.tasks.invalidate_load(LoadTaskKind::RepositoryValidation);
        self.repo_screen.validation.invalidate();
        self.repo_screen.confirm_state = ConfirmState::Idle;
    }

    /// Drop the ignore preview: its request is forgotten and its data stale.
    pub fn invalidate_ignore_preview(&mut self)
        ensures
            final(self).ignore_screen == (IgnoreScreen {
                preview_state: LoadState::Stale { previous: crate::task::load_data(old(self).ignore_screen.preview_state) },
                ..old(self).ignore_screen
            }),
            crate::task::live_request(final(self).tasks@, LoadTaskKind::IgnorePreview) is None,
            forall|k: LoadTaskKind|
                k != LoadTaskKind::IgnorePreview ==> #[trigger] crate::task::live_request(final(self).tasks@, k)
                    == crate::task::live_request(old(self).tasks@, k),
            final(self).tasks@.active == old(self).tasks@.active,
            *final(self) == (App { ignore_screen: final(self).ignore_screen, tasks: final(self).tasks, ..*old(self) }),
    {
        self.tasks.invalidate_load(LoadTaskKind::IgnorePreview);
        self.ignore_screen.mark_preview_stale();
    }

    /// Drop both previews that depend on the sources.
    pub fn invalidate_dependent_previews(&mut self)
        ensures
            previews_invalidated(*old(self), *final(self)),
    {
        self.invalidate_backup_preview();
        self.invalidate_ignore_preview();
    }

    /// Keep the source list and ignore screen positions inside `len` sources.
    fn clamp_source_positions(&mut self, len: usize)
        ensures
            final(self).sources_screen.selected == clamp_index(old(self).sources_screen.selected, len),
            ignore_clamped(old(self).ignore_screen, final(self).ignore_screen, len),
            final(self).ignore_screen.mode == old(self).ignore_screen.mode,
            final(self).ignore_screen.message == old(self).ignore_screen.message,
            final(self).ignore_screen.preview_state == old(self).ignore_screen.preview_state,
            final(self).sources_screen == (SourcesScreen {
                selected: final(self).sources_screen.selected,
                ..old(self).sources_screen
            }),
            final(self).ignore_screen == (IgnoreScreen {
                source_idx: final(self).ignore_screen.source_idx,
                pattern_idx: final(self).ignore_screen.pattern_idx,
                ..old(self).ignore_screen
            }),
            *final(self) == (App {
                ignore_screen: final(self).ignore_screen,
                sources_screen: final(self).sources_screen,
                ..*old(self)
            }),
    {
        if self.sources_screen.selected >= len && len > 0 {
            self.sources_screen.selected = len - 1;
        }
        if len == 0 {
            self.ignore_screen.source_idx = 0;
            self.ignore_screen.pattern_idx = 0;
        } else if self.ignore_screen.source_idx >= len {
            self.ignore_screen.source_idx = len - 1;
            self.ignore_screen.pattern_idx = 0;
        }
    }

    /// Apply the pending selection diff to the configuration: removals
    /// first, then additions, then the new ignore rules. Returns whether
    /// the configuration changed and needs saving.
    pub fn execute_selection_diff(&mut self) -> (save: bool)
        requires
            diff_fits(*old(self)),
        ensures
            diff_executed(*old(self), *final(self), save),
    {
        let diff = match self.sources_screen.pending_diff.take() {
            Some(d) => d,
            None => {
                self.sources_screen.mode = crate::screens::sources::Mode::List;
                return false;
            },
        };
        let mut added: usize = 0;
        let mut removed: usize = 0;
        let mut ignored: usize = 0;
        let mut save = false;
        let ghost old_config = self.config;
        match self.config.take() {
            Some(mut config) => {
                let ghost c0 = sources_text(config.sources@);
                let mut sources = retain_sources(&config.sources, &diff.removals);
                removed = diff.removals.len();
                let ghost kept = sources_text(sources@);
                let mut k: usize = 0;
                while k < diff.additions.len()
                    invariant
                        k <= diff.additions.len(),
                        sources_text(sources@) == kept + added_sources(strings_of(diff.additions@)).take(k as int),
                    decreases diff.additions.len() - k,
                {
                    let ghost before = sources_text(sources@);
                    let fresh: Vec<String> = Vec::new();
                    assert(strings_of(fresh@) =~= Seq::<Seq<char>>::empty());
                    sources.push(SourceConfig { path: diff.additions[k].clone(), ignore: fresh });
                    assert(sources_text(sources@) =~= before.push((diff.additions@[k as int]@, Seq::<Seq<char>>::empty())));
                    assert(added_sources(strings_of(diff.additions@)).take(k + 1) =~= added_sources(
                        strings_of(diff.additions@),
                    ).take(k as int).push((diff.additions@[k as int]@, Seq::<Seq<char>>::empty())));
                    k = k + 1;
                }
                assert(added_sources(strings_of(diff.additions@)).take(diff.additions.len() as int) =~= added_sources(
                    strings_of(diff.additions@),
                ));
                added = diff.additions.len();
                ignored = apply_rules(&mut sources, &diff.ignore_rules);
                let len = sources.len();
                config.sources = sources;
                self.config = Some(config);
                self.clamp_source_positions(len);
                save = true;
            },
            None => {},
        }
        let text = message_text(added, removed, ignored);
        proof {
            reveal_strlit("No changes applied.");
        }
        self.sources_screen.mode = crate::screens::sources::Mode::List;
        self.sources_screen.message = Some(
            crate::screens::sources::Message { text, kind: crate::screens::sources::MessageKind::Info },
        );
        self.sources_screen.selection = None;
        self.invalidate_dependent_previews();
        save
    }
}


/// The configured sources, or none without a configuration.
pub open spec fn config_sources(c: Option<Config>) -> Seq<SourceConfig> {
    match c {
        Some(c) => c.sources@,
        None => Seq::empty(),
    }
}

/// What adding `pattern` to source `src_idx` does: `save` when the
/// configuration changed. Both previews go out of date either way.
pub open spec fn pattern_added(a: App, src_idx: usize, pattern: String, b: App, save: bool) -> bool {
    match a.config {
        Some(c) => if src_idx < c.sources.len() {
            &&& save
            &&& b.config matches Some(n) && n.repository == c.repository && n.namespace == c.namespace
                && sources_text(n.sources@) == sources_text(c.sources@).update(
                src_idx as int,
                (c.sources@[src_idx as int].path@, strings_of(c.sources@[src_idx as int].ignore@).push(pattern@)),
            )
            &&& b.ignore_screen.message matches Some(m) && m.kind == crate::screens::ignore::MessageKind::Success
                && m.text@ == "Added pattern '"@ + pattern@ + "'."@
            &&& previews_invalidated(
                App {
                    config: b.config,
                    ignore_screen: IgnoreScreen {
                        mode: crate::screens::ignore::Mode::List,
                        message: b.ignore_screen.message,
                        ..a.ignore_screen
                    },
                    ..a
                },
                b,
            )
        } else {
            !save && previews_invalidated(a, b)
        },
        None => !save && previews_invalidated(a, b),
    }
}

/// What removing pattern `pat_idx` of source `src_idx` does: `save` when
/// there is a configuration to save. Both previews go out of date either
/// way.
pub open spec fn pattern_removed(a: App, src_idx: usize, pat_idx: usize, b: App, save: bool) -> bool {
    &&& save == (a.config is Some)
    &&& match a.config {
        Some(c) => if src_idx < c.sources.len() && pat_idx < c.sources@[src_idx as int].ignore.len() {
            let left = strings_of(c.sources@[src_idx as int].ignore@).remove(pat_idx as int);
            &&& b.config matches Some(n) && n.repository == c.repository && n.namespace == c.namespace
                && sources_text(n.sources@) == sources_text(c.sources@).update(
                src_idx as int,
                (c.sources@[src_idx as int].path@, left),
            )
            &&& b.ignore_screen.message matches Some(m) && m.kind == crate::screens::ignore::MessageKind::Success
                && m.text@ == "Removed pattern '"@ + c.sources@[src_idx as int].ignore@[pat_idx as int]@ + "'."@
            &&& previews_invalidated(
                App {
                    config: b.config,
                    ignore_screen: IgnoreScreen {
                        pattern_idx: clamp_index(a.ignore_screen.pattern_idx, left.len() as usize),
                        message: b.ignore_screen.message,
                        ..a.ignore_screen
                    },
                    ..a
                },
                b,
            )
        } else {
            previews_invalidated(a, b)
        },
        None => previews_invalidated(a, b),
    }
}

/// What removing source `idx` does: `save` when the configuration changed.
pub open spec fn source_removed(a: App, idx: usize, b: App, save: bool) -> bool {
    &&& b.sources_screen.mode == crate::screens::sources::Mode::List
    &&& match a.config {
        Some(c) => if idx < c.sources.len() {
            &&& save
            &&& b.config matches Some(n) && n.repository == c.repository && n.namespace
                == c.namespace && sources_text(n.sources@) == sources_text(c.sources@).remove(idx as int)
            &&& b.sources_screen.message matches Some(m) && m.kind
                == crate::screens::sources::MessageKind::Info && m.text@ == "Removed '"@
                + c.sources@[idx as int].path@ + "'."@
            &&& b.sources_screen.selected == clamp_index(
                a.sources_screen.selected,
                (c.sources.len() - 1) as usize,
            )
            &&& ignore_clamped(a.ignore_screen, b.ignore_screen, (c.sources.len() - 1) as usize)
            &&& b.preview_screen.load_state is Stale
        } else {
            !save && b == (App { sources_screen: SourcesScreen { mode: crate::screens::sources::Mode::List, ..a.sources_screen }, ..a })
        },
        None => !save && b == (App { sources_screen: SourcesScreen { mode: crate::screens::sources::Mode::List, ..a.sources_screen }, ..a }),
    }
    &&& same_except_sources(a, b)
    &&& b.sources_screen == (SourcesScreen {
        mode: b.sources_screen.mode,
        message: b.sources_screen.message,
        selected: b.sources_screen.selected,
        ..a.sources_screen
    })
}

/// What applying the browser selection does: the differences against the
/// configuration wait for a choice, or there are none.
pub open spec fn selection_applied(a: App, b: App) -> bool {
    &&& match a.sources_screen.selection {
        Some(sel) => {
            let d = crate::selection::diffed(sel@, config_sources(a.config));
            &&& b.sources_screen.message is None
            &&& if d.additions.len() == 0 && d.removals.len() == 0 && d.ignore_rules.len() == 0 {
                &&& b.sources_screen.mode == crate::screens::sources::Mode::List
                &&& b.sources_screen.selection is None
                &&& b.sources_screen.pending_diff is None
            } else {
                &&& b.sources_screen.mode == crate::screens::sources::Mode::PendingChanges
                &&& b.sources_screen.pending_diff matches Some(p) && p@ == d
                &&& b.sources_screen.selection == a.sources_screen.selection
            }
        },
        None => b.sources_screen == (SourcesScreen { mode: crate::screens::sources::Mode::List, ..a.sources_screen }),
    }
    &&& b == (App { sources_screen: b.sources_screen, ..a })
    &&& b.sources_screen == (SourcesScreen {
        mode: b.sources_screen.mode,
        message: b.sources_screen.message,
        selection: b.sources_screen.selection,
        pending_diff: b.sources_screen.pending_diff,
        ..a.sources_screen
    })
}

/// What choosing to apply the pending changes does: removals ask first;
/// otherwise the changes apply.
pub open spec fn apply_chosen(a: App, b: App, save: bool) -> bool {
    &&& match a.sources_screen.pending_diff {
        Some(d) => if d@.removals.len() > 0 {
            !save && b == (App {
                sources_screen: SourcesScreen { mode: crate::screens::sources::Mode::ConfirmApply, ..a.sources_screen },
                ..a
            })
        } else {
            diff_executed(a, b, save)
        },
        None => !save && b == (App {
            sources_screen: SourcesScreen { mode: crate::screens::sources::Mode::Browse, ..a.sources_screen },
            ..a
        }),
    }
}

/// What discarding the pending changes does.
pub open spec fn selection_discarded(a: App, b: App) -> bool {
    &&& b.sources_screen.selection is None
    &&& b.sources_screen.pending_diff is None
    &&& b.sources_screen.mode == crate::screens::sources::Mode::List
    &&& b.sources_screen.message matches Some(m) && m.kind == crate::screens::sources::MessageKind::Info
        && m.text@ == "Source changes discarded."@
    &&& b == (App {
        sources_screen: SourcesScreen {
            selection: None,
            pending_diff: None,
            mode: crate::screens::sources::Mode::List,
            message: b.sources_screen.message,
            ..a.sources_screen
        },
        ..a
    })
}

impl App {
    fn configured_sources(&self) -> (r: &[SourceConfig])
        ensures
            r@ == config_sources(self.config),
    {
        match &self.config {
            Some(c) => c.sources.as_slice(),
            None => {
                let empty: &[SourceConfig] = &[];
                assert(empty@ =~= Seq::<SourceConfig>::empty());
                empty
            },
        }
    }

    /// Review changes when leaving the source browser: an unchanged session
    /// closes, a changed one stops at the apply/discard/continue choice.
    pub fn handle_apply_selection(&mut self)
        ensures
            selection_applied(*old(self), *final(self)),
    {
        match &self.sources_screen.selection {
            Some(sel) => {
                let diff = sel.diff_against_config(self.configured_sources());
                if diff.additions.is_empty() && diff.removals.is_empty() && diff.ignore_rules.is_empty() {
                    self.sources_screen.mode = crate::screens::sources::Mode::List;
                    self.sources_screen.selection = None;
                    self.sources_screen.pending_diff = None;
                    self.sources_screen.message = None;
                } else {
                    self.sources_screen.pending_diff = Some(diff);
                    self.sources_screen.mode = crate::screens::sources::Mode::PendingChanges;
                    self.sources_screen.message = None;
                }
            },
            None => {
                self.sources_screen.mode = crate::screens::sources::Mode::List;
            },
        }
    }

    /// Continue an explicit apply request: removals need a confirmation
    /// first. Returns whether the configuration changed.
    pub fn handle_choose_apply(&mut self) -> (save: bool)
        requires
            diff_fits(*old(self)),
        ensures
            apply_chosen(*old(self), *final(self), save),
    {
        match &self.sources_screen.pending_diff {
            Some(diff) => {
                if !diff.removals.is_empty() {
                    self.sources_screen.mode = crate::screens::sources::Mode::ConfirmApply;
                    false
                } else {
                    self.execute_selection_diff()
                }
            },
            None => {
                self.sources_screen.mode = crate::screens::sources::Mode::Browse;
                false
            },
        }
    }

    /// Discard all edits from the current source-browser session.
    pub fn handle_discard_selection(&mut self)
        ensures
            selection_discarded(*old(self), *final(self)),
    {
        self.sources_screen.selection = None;
        self.sources_screen.pending_diff = None;
        self.sources_screen.mode = crate::screens::sources::Mode::List;
        self.sources_screen.message = Some(
            crate::screens::sources::Message {
                text: owned("Source changes discarded."),
                kind: crate::screens::sources::MessageKind::Info,
            },
        );
    }

    /// Remove the source at `idx` from the configuration. Returns whether
    /// the configuration changed.
    pub fn handle_remove_source(&mut self, idx: usize) -> (save: bool)
        ensures
            source_removed(*old(self), idx, *final(self), save),
    {
        let mut save = false;
        match self.config.take() {
            Some(mut config) => {
                if idx < config.sources.len() {
                    let ghost before = config.sources@;
                    let removed = config.sources.remove(idx);
                    assert(sources_text(config.sources@) =~= sources_text(before).remove(idx as int));
                    let len = config.sources.len();
                    let mut text = owned("Removed '");
                    push_str(&mut text, removed.path.as_str());
                    push_str(&mut text, "'.");
                    self.config = Some(config);
                    self.sources_screen.message = Some(
                        crate::screens::sources::Message { text, kind: crate::screens::sources::MessageKind::Info },
                    );
                    self.clamp_source_positions(len);
                    save = true;
                } else {
                    self.config = Some(config);
                }
            },
            None => {},
        }
        if save {
            self.invalidate_dependent_previews();
        }
        self.sources_screen.mode = crate::screens::sources::Mode::List;
        save
    }

    /// Add an ignore pattern to the source at `src_idx`. Returns whether
    /// the configuration changed.
    pub fn handle_add_pattern(&mut self, src_idx: usize, pattern: String) -> (save: bool)
        ensures
            pattern_added(*old(self), src_idx, pattern, *final(self), save),
    {
        let mut save = false;
        match self.config.take() {
            Some(mut config) => {
                if src_idx < config.sources.len() {
                    let ghost before = config.sources@;
                    let mut source = copy_source(&config.sources[src_idx]);
                    let mut text = owned("Added pattern '");
                    push_str(&mut text, pattern.as_str());
                    push_str(&mut text, "'.");
                    let ghost ig = source.ignore@;
                    source.ignore.push(pattern);
                    assert(strings_of(source.ignore@) =~= strings_of(ig).push(source.ignore@.last()@));
                    let ghost new_text = source_text(source);
                    config.sources.set(src_idx, source);
                    assert(sources_text(config.sources@) =~= sources_text(before).update(src_idx as int, new_text));
                    self.config = Some(config);
                    self.ignore_screen.mode = crate::screens::ignore::Mode::List;
                    self.ignore_screen.message = Some(
                        crate::screens::ignore::Message { text, kind: crate::screens::ignore::MessageKind::Success },
                    );
                    save = true;
                } else {
                    self.config = Some(config);
                }
            },
            None => {},
        }
        self.invalidate_dependent_previews();
        save
    }

    /// Remove pattern `pat_idx` of the source at `src_idx`. Returns whether
    /// the configuration is to be saved (whenever there is one).
    pub fn handle_remove_pattern(&mut self, src_idx: usize, pat_idx: usize) -> (save: bool)
        ensures
            pattern_removed(*old(self), src_idx, pat_idx, *final(self), save),
    {
        let mut save = false;
        match self.config.take() {
            Some(mut config) => {
                if src_idx < config.sources.len() && pat_idx < config.sources[src_idx].ignore.len() {
                    let ghost before = config.sources@;
                    let mut source = copy_source(&config.sources[src_idx]);
                    assert(strings_of(source.ignore@).len() == strings_of(config.sources@[src_idx as int].ignore@).len());
                    let ghost ig = source.ignore@;
                    let removed = source.ignore.remove(pat_idx);
                    assert(strings_of(source.ignore@) =~= strings_of(ig).remove(pat_idx as int));
                    assert(removed@ == strings_of(ig)[pat_idx as int]);
                    assert(strings_of(ig) == strings_of(before[src_idx as int].ignore@));
                    assert(removed@ == before[src_idx as int].ignore@[pat_idx as int]@);
                    let left = source.ignore.len();
                    let mut text = owned("Removed pattern '");
                    push_str(&mut text, removed.as_str());
                    push_str(&mut text, "'.");
                    let ghost new_text = source_text(source);
                    config.sources.set(src_idx, source);
                    assert(sources_text(config.sources@) =~= sources_text(before).update(src_idx as int, new_text));
                    self.ignore_screen.message = Some(
                        crate::screens::ignore::Message { text, kind: crate::screens::ignore::MessageKind::Success },
                    );
                    if self.ignore_screen.pattern_idx >= left && left > 0 {
                        self.ignore_screen.pattern_idx = left - 1;
                    }
                }
                self.config = Some(config);
                save = true;
            },
            None => {},
        }
        self.invalidate_dependent_previews();
        save
    }

    /// Add a validated source: `validated` is `None` when the application
    /// paths are unknown, else the outcome of `SourcesScreen::validate_source`.
    /// Returns whether the configuration changed.
    pub fn handle_add_source(&mut self, validated: Option<Result<crate::screens::sources::SourceInfo, String>>) -> (save: bool)
        ensures
            match validated {
                None => !save && final(self).config == old(self).config && (final(self).sources_screen.message
                    matches Some(m) && m.kind == crate::screens::sources::MessageKind::Error && m.text@
                    == "Cannot add source: paths not resolved."@),
                Some(Err(e)) => !save && final(self).config == old(self).config && (final(self).sources_screen.message
                    matches Some(m) && m.kind == crate::screens::sources::MessageKind::Error && m.text == e),
                Some(Ok(info)) => {
                    &&& previews_invalidated(
                        App { config: final(self).config, sources_screen: final(self).sources_screen, ..*old(self) },
                        *final(self),
                    )
                    &&& final(self).sources_screen.mode == crate::screens::sources::Mode::List
                    &&& final(self).preview_screen.load_state is Stale
                    &&& final(self).sources_screen.message matches Some(m) && m.text@ == match info.warning {
                        Some(w) => "Added '"@ + info.path@ + "'. "@ + w@,
                        None => "Added '"@ + info.path@ + "'."@,
                    } && m.kind == if info.warning is Some {
                        crate::screens::sources::MessageKind::Warning
                    } else {
                        crate::screens::sources::MessageKind::Info
                    }
                    &&& match old(self).config {
                        Some(c) => save && (final(self).config matches Some(n) && n.repository == c.repository
                            && n.namespace == c.namespace && sources_text(n.sources@)
                            == sources_text(c.sources@).push((info.path@, Seq::<Seq<char>>::empty()))),
                        None => !save && final(self).config is None,
                    }
                },
            },
            validated is Some && validated->0 is Ok ==> final(self).sources_screen == (SourcesScreen {
                mode: final(self).sources_screen.mode,
                message: final(self).sources_screen.message,
                ..old(self).sources_screen
            }),
            validated is None || validated->0 is Err ==> *final(self) == (App {
                sources_screen: SourcesScreen { message: final(self).sources_screen.message, ..old(self).sources_screen },
                ..*old(self)
            }),
    {
        match validated {
            None => {
                self.sources_screen.message = Some(
                    crate::screens::sources::Message {
                        text: owned("Cannot add source: paths not resolved."),
                        kind: crate::screens::sources::MessageKind::Error,
                    },
                );
                false
            },
            Some(Err(e)) => {
                self.sources_screen.message = Some(
                    crate::screens::sources::Message { text: e, kind: crate::screens::sources::MessageKind::Error },
                );
                false
            },
            Some(Ok(info)) => {
                let mut save = false;
                match self.config.take() {
                    Some(mut config) => {
                        let ghost before = config.sources@;
                        let fresh: Vec<String> = Vec::new();
                        assert(strings_of(fresh@) =~= Seq::<Seq<char>>::empty());
                        config.sources.push(SourceConfig { path: info.path.clone(), ignore: fresh });
                        assert(sources_text(config.sources@) =~= sources_text(before).push(
                            (info.path@, Seq::<Seq<char>>::empty()),
                        ));
                        self.config = Some(config);
                        save = true;
                    },
                    None => {},
                }
                self.sources_screen.mode = crate::screens::sources::Mode::List;
                let mut text = owned("Added '");
                push_str(&mut text, info.path.as_str());
                let kind = match &info.warning {
                    Some(w) => {
                        push_str(&mut text, "'. ");
                        push_str(&mut text, w.as_str());
                        crate::screens::sources::MessageKind::Warning
                    },
                    None => {
                        push_str(&mut text, "'.");
                        crate::screens::sources::MessageKind::Info
                    },
                };
                self.sources_screen.message = Some(crate::screens::sources::Message { text, kind });
                self.invalidate_dependent_previews();
                save
            },
        }
    }
}


/// Keeping sources drops exactly those whose path is among the removals:
/// what is left is the sources whose path is not removed, in their order.
pub proof fn lemma_retained_drops_removed(s: Seq<SourceText>, removals: Seq<Seq<char>>)
    ensures
        retained(s, removals) == s.filter(|x: SourceText| !removals.contains(x.0)),
        forall|i: int| 0 <= i < retained(s, removals).len() ==> !removals.contains(#[trigger] retained(s, removals)[i].0),
        forall|x: SourceText| #[trigger] retained(s, removals).contains(x) <==> (s.contains(x) && !removals.contains(x.0)),
    decreases s.len(),
{
    reveal(Seq::filter);
    let f = |x: SourceText| !removals.contains(x.0);
    if s.len() > 0 {
        lemma_retained_drops_removed(s.drop_last(), removals);
        assert(s.filter(f) == if f(s.last()) {
            s.drop_last().filter(f).push(s.last())
        } else {
            s.drop_last().filter(f)
        });
    }
    let r = retained(s, removals);
    assert(r == s.filter(f));
    assert forall|i: int| 0 <= i < r.len() implies !removals.contains(#[trigger] r[i].0) by {
        s.lemma_filter_pred(f, i);
    }
    assert forall|x: SourceText| #[trigger] r.contains(x) <==> (s.contains(x) && !removals.contains(x.0)) by {
        if r.contains(x) {
            let i = choose|i: int| 0 <= i < r.len() && r[i] == x;
            s.lemma_filter_pred(f, i);
            s.lemma_filter_contains_rev(f, x);
        }
        if s.contains(x) && !removals.contains(x.0) {
            let k = choose|k: int| 0 <= k < s.len() && s[k] == x;
            assert(f(s[k]));
            s.lemma_filter_contains(f, k);
        }
    }
}

/// Applying a diff to the configured sources: no source left has a path
/// among the removals unless an addition brings it; every configured
/// source whose path is not removed keeps its path; and each addition is
/// there.
pub proof fn lemma_applied_sources(s: Seq<SourceText>, d: DiffModel)
    ensures
        forall|i: int|
            0 <= i < applied(s, d).len() && d.removals.contains(#[trigger] applied(s, d)[i].0) ==> d.additions.contains(
                applied(s, d)[i].0,
            ),
        forall|i: int|
            0 <= i < s.len() && !d.removals.contains(#[trigger] s[i].0) ==> exists|k: int|
                0 <= k < applied(s, d).len() && applied(s, d)[k].0 == s[i].0,
        forall|j: int|
            0 <= j < d.additions.len() ==> exists|k: int|
                0 <= k < applied(s, d).len() && applied(s, d)[k].0 == #[trigger] d.additions[j],
{
    let kept = retained(s, d.removals);
    let base = kept + added_sources(d.additions);
    let a = applied(s, d);
    lemma_retained_drops_removed(s, d.removals);
    lemma_with_rules_paths(base, d.ignore_rules);
    assert forall|i: int|
        0 <= i < a.len() && d.removals.contains(#[trigger] a[i].0) implies d.additions.contains(a[i].0) by {
        assert(a[i].0 == base[i].0);
        if i < kept.len() {
            assert(base[i] == kept[i]);
        } else {
            assert(base[i] == added_sources(d.additions)[i - kept.len()]);
            assert(d.additions[i - kept.len()] == a[i].0);
        }
    }
    assert forall|i: int| 0 <= i < s.len() && !d.removals.contains(#[trigger] s[i].0) implies exists|k: int|
        0 <= k < a.len() && a[k].0 == s[i].0 by {
        assert(s.contains(s[i]));
        assert(kept.contains(s[i]));
        let k = choose|k: int| 0 <= k < kept.len() && kept[k] == s[i];
        assert(base[k] == kept[k]);
        assert(a[k].0 == base[k].0);
    }
    assert forall|j: int| 0 <= j < d.additions.len() implies exists|k: int|
        0 <= k < a.len() && a[k].0 == #[trigger] d.additions[j] by {
        let k = kept.len() + j;
        assert(base[k] == added_sources(d.additions)[j]);
        assert(a[k].0 == base[k].0);
    }
}

/// After the pending diff is applied to a configuration, a configured
/// source whose path is among the removals is gone (unless an addition
/// brings it back), every source not removed is still configured, and
/// every addition is configured.
pub proof fn lemma_diff_execution_sources(a: App, b: App, save: bool)
    requires
        diff_executed(a, b, save),
        a.config is Some,
        a.sources_screen.pending_diff is Some,
    ensures
        ({
            let c = sources_text(a.config->0.sources@);
            let n = sources_text(b.config->0.sources@);
            let d = a.sources_screen.pending_diff->0@;
            &&& save && b.config is Some
            &&& forall|i: int| 0 <= i < n.len() && d.removals.contains(#[trigger] n[i].0) ==> d.additions.contains(n[i].0)
            &&& forall|i: int| 0 <= i < c.len() && !d.removals.contains(#[trigger] c[i].0) ==> exists|k: int|
                0 <= k < n.len() && n[k].0 == c[i].0
            &&& forall|j: int| 0 <= j < d.additions.len() ==> exists|k: int| 0 <= k < n.len() && n[k].0 == #[trigger] d.additions[j]
            &&& ignore_count(n) == ignore_count(retained(c, d.removals) + added_sources(d.additions)) + rules_added(
                retained(c, d.removals) + added_sources(d.additions),
                d.ignore_rules,
            )
        }),
{
    let c = sources_text(a.config->0.sources@);
    let d = a.sources_screen.pending_diff->0@;
    lemma_applied_sources(c, d);
    lemma_rules_added_counts(retained(c, d.removals) + added_sources(d.additions), d.ignore_rules);
}


proof fn lemma_first_path_meaning(s: Seq<SourceText>, path: Seq<char>)
    ensures
        match first_path(s, path) {
            Some(i) => 0 <= i < s.len() && s[i].0 == path && forall|j: int| 0 <= j < i ==> (#[trigger] s[j]).0 != path,
            None => forall|j: int| 0 <= j < s.len() ==> (#[trigger] s[j]).0 != path,
        },
    decreases s.len(),
{
    if s.len() > 0 {
        lemma_first_path_meaning(s.drop_last(), path);
        assert forall|j: int| 0 <= j < s.len() - 1 implies s[j] == s.drop_last()[j] by {}
    }
}

/// The new rules written for source `path`, in order.
pub open spec fn rules_for(rules: Seq<(Seq<char>, Seq<Seq<char>>)>, path: Seq<char>) -> Seq<Seq<char>>
    decreases rules.len(),
{
    if rules.len() == 0 {
        Seq::empty()
    } else {
        rules_for(rules.drop_last(), path) + if rules.last().0 == path {
            rules.last().1
        } else {
            Seq::empty()
        }
    }
}

/// Adding rules to the sources: no source moves or changes path; the first
/// source of each path keeps its ignore rules and gets, after them, every
/// new rule written for that path, in order; any later source with the same
/// path is left as it was.
pub proof fn lemma_with_rules_meaning(s: Seq<SourceText>, rules: Seq<(Seq<char>, Seq<Seq<char>>)>)
    ensures
        with_rules(s, rules).len() == s.len(),
        forall|i: int| 0 <= i < s.len() ==> (#[trigger] with_rules(s, rules)[i]).0 == s[i].0,
        forall|i: int|
            0 <= i < s.len() && (forall|j: int| 0 <= j < i ==> s[j].0 != s[i].0) ==> (#[trigger] with_rules(
                s,
                rules,
            )[i]).1 == s[i].1 + rules_for(rules, s[i].0),
        forall|i: int|
            0 <= i < s.len() && (exists|j: int| 0 <= j < i && s[j].0 == s[i].0) ==> #[trigger] with_rules(s, rules)[i]
                == s[i],
    decreases rules.len(),
{
    lemma_with_rules_paths(s, rules);
    if rules.len() == 0 {
        assert forall|i: int| 0 <= i < s.len() implies s[i].1 + rules_for(rules, s[i].0) == s[i].1 by {
            assert(s[i].1 + Seq::<Seq<char>>::empty() =~= s[i].1);
        }
    } else {
        let h = rules.drop_last();
        lemma_with_rules_meaning(s, h);
        lemma_with_rules_paths(s, h);
        let t = with_rules(s, h);
        let r = with_rules(s, rules);
        let p = rules.last().0;
        let v = rules.last().1;
        lemma_first_path_same_paths(s, t, p);
        lemma_first_path_meaning(s, p);
        assert forall|i: int|
            0 <= i < s.len() && (forall|j: int| 0 <= j < i ==> s[j].0 != s[i].0) implies (#[trigger] r[i]).1 == s[i].1
            + rules_for(rules, s[i].0) by {
            assert(t[i].1 == s[i].1 + rules_for(h, s[i].0));
            if s[i].0 == p {
                assert(first_path(s, p) == Some(i)) by {
                    match first_path(s, p) {
                        Some(k) => {
                            if k < i {
                                assert(s[k].0 != s[i].0);
                            } else if k > i {
                                assert(s[i].0 != p);
                            }
                        },
                        None => {
                            assert(s[i].0 != p);
                        },
                    }
                }
                assert(r[i].1 == t[i].1 + v);
                assert(rules_for(rules, s[i].0) == rules_for(h, s[i].0) + v);
                assert((s[i].1 + rules_for(h, s[i].0)) + v =~= s[i].1 + (rules_for(h, s[i].0) + v));
            } else {
                assert(rules_for(rules, s[i].0) =~= rules_for(h, s[i].0) + Seq::<Seq<char>>::empty());
                assert(rules_for(h, s[i].0) + Seq::<Seq<char>>::empty() =~= rules_for(h, s[i].0));
                if first_path(s, p) is Some {
                    let k = first_path(s, p)->0;
                    assert(k != i);
                    assert(r[i] == t[i]);
                }
            }
        }
        assert forall|i: int|
            0 <= i < s.len() && (exists|j: int| 0 <= j < i && s[j].0 == s[i].0) implies #[trigger] r[i] == s[i] by {
            assert(t[i] == s[i]);
            if first_path(s, p) is Some {
                let k = first_path(s, p)->0;
                if k == i {
                    let j = choose|j: int| 0 <= j < i && s[j].0 == s[i].0;
                    assert(s[j].0 != p);
                }
                assert(r[i] == t[i]);
            }
        }
    }
}


/// How many ignore rules the sources hold in all.
pub open spec fn ignore_count(s: Seq<SourceText>) -> nat
    decreases s.len(),
{
    if s.len() == 0 {
        0
    } else {
        ignore_count(s.drop_last()) + s.last().1.len()
    }
}

proof fn lemma_ignore_count_update(s: Seq<SourceText>, i: int, x: SourceText)
    requires
        0 <= i < s.len(),
    ensures
        ignore_count(s.update(i, x)) + s[i].1.len() == ignore_count(s) + x.1.len(),
    decreases s.len(),
{
    let u = s.update(i, x);
    if i < s.len() - 1 {
        assert(u.drop_last() =~= s.drop_last().update(i, x));
        lemma_ignore_count_update(s.drop_last(), i, x);
    } else {
        assert(u.drop_last() =~= s.drop_last());
    }
}

/// The number of ignore rules the feedback reports is the number the
/// sources gained.
pub proof fn lemma_rules_added_counts(s: Seq<SourceText>, rules: Seq<(Seq<char>, Seq<Seq<char>>)>)
    ensures
        ignore_count(with_rules(s, rules)) == ignore_count(s) + rules_added(s, rules),
    decreases rules.len(),
{
    if rules.len() > 0 {
        let h = rules.drop_last();
        lemma_rules_added_counts(s, h);
        lemma_with_rules_paths(s, h);
        let t = with_rules(s, h);
        let p = rules.last().0;
        lemma_first_path_same_paths(s, t, p);
        lemma_first_path_bound(t, p);
        if first_path(t, p) is Some {
            let i = first_path(t, p)->0;
            lemma_ignore_count_update(t, i, (t[i].0, t[i].1 + rules.last().1));
        }
    }
}

} // verus!
