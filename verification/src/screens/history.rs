//! History and error details screen state.
//!
//! Displays recent backup runs from the persistent state, with details
//! for the selected entry including outcome, commit, duration, and messages.
//! Also provides a scrollable log viewer for viewing run logs; reading the
//! log files is the caller's work.

use vstd::prelude::*;

use crate::chars::{owned, push_decimal, push_str, decimal, signed_decimal};
use crate::keys::{KeyCode, KeyEvent};
use crate::viewport::{
    clamped, ended, ensured, homed, max_offset_spec, page_of, scrolled_down, scrolled_up, Viewport, ViewportModel,
};

verus! {

/// A UTC instant: seconds since the Unix epoch and nanoseconds within the
/// second (up to two seconds' worth, for a leap second).
#[derive(Debug, Clone, Copy, PartialEq, Eq, Structural)]
pub struct Timestamp {
    pub secs: i64,
    pub nanos: u32,
}

/// Instants the calendar can represent: within about thirty million years
/// of the epoch.
pub open spec fn valid_timestamp(t: Timestamp) -> bool {
    -1_000_000_000_000_000 <= t.secs <= 1_000_000_000_000_000 && t.nanos < 2_000_000_000
}

/// Outcome of one backup run.
#[derive(Debug, Clone, Copy, PartialEq, Eq, Structural)]
pub enum RunOutcome {
    Success,
    NoChanges,
    Failed,
    CommittedOffline,
}

/// One recorded run.
#[derive(Debug, Clone)]
pub struct RunRecord {
    pub namespace: String,
    pub started_at: Timestamp,
    pub finished_at: Timestamp,
    pub outcome: RunOutcome,
    pub commit: Option<String>,
    pub message: Option<String>,
    pub log_file: Option<String>,
}

/// The display mode for the history screen.
#[derive(Debug, Clone, Copy, PartialEq, Eq, Structural)]
pub enum Mode {
    /// Normal history list view.
    History,
    /// Log viewer for the selected entry.
    LogView,
}

/// The state of the history screen.
#[derive(Debug)]
pub struct HistoryScreen {
    /// Index of the currently selected run in the history list.
    pub selected: usize,
    /// Viewport for the history list.
    pub list_viewport: Viewport,
    /// Viewport for the selected run's log.
    pub log_viewport: Viewport,
    /// Current display mode.
    pub mode: Mode,
    /// Cached log lines for the current log view.
    pub log_lines: Vec<String>,
    /// Namespace of the run whose log is displayed.
    pub log_namespace: Option<String>,
}

/// Formatted display data for a single history entry.
#[derive(Debug, Clone)]
pub struct EntryDisplay {
    /// Formatted timestamp.
    pub time: String,
    /// Namespace recorded for this run, if available in legacy state.
    pub namespace: Option<String>,
    /// Human-readable outcome.
    pub outcome: String,
    /// Duration string.
    pub duration: String,
    /// Commit SHA (if any).
    pub commit: Option<String>,
    /// Error/warning message (if any).
    pub message: Option<String>,
    /// Whether this is an error entry.
    pub is_error: bool,
    /// Whether this is a warning entry.
    pub is_warning: bool,
}

/// Actions from the history screen.
#[derive(Debug, Clone, Copy, PartialEq, Eq, Structural)]
pub enum Action {
    Consumed,
    NotConsumed,
    /// Request to view logs for the selected entry.
    ViewLogs,
    /// Request to reload history from persistent state.
    Refresh,
}

/// `"%Y-%m-%d %H:%M:%S"` rendering of a UTC instant.
pub uninterp spec fn utc_time_text(secs: i64, nanos: u32) -> Seq<char>;

/// `DateTime::<Utc>::from_timestamp(secs, nanos)` formatted with
/// `"%Y-%m-%d %H:%M:%S"`; an instant chrono cannot represent renders empty.
#[verifier::external_body]
pub(crate) fn format_utc_time(secs: i64, nanos: u32) -> (r: String)
    ensures
        r@ == utc_time_text(secs, nanos),
{
    match chrono::DateTime::from_timestamp(secs, nanos) {
        Some(t) => t.format("%Y-%m-%d %H:%M:%S").to_string(),
        None => String::new(),
    }
}

/// The instant that `str::parse::<DateTime<Utc>>` reads from a text, as
/// seconds since the epoch and nanoseconds within the second.
pub uninterp spec fn utc_parsed(s: Seq<char>) -> Option<(i64, u32)>;

/// `str::parse::<chrono::DateTime<chrono::Utc>>`, read back with
/// `timestamp` and `timestamp_subsec_nanos`; `None` when the text is not
/// an RFC 3339-like instant.
#[verifier::external_body]
fn parse_utc(s: &str) -> (r: Option<(i64, u32)>)
    ensures
        r == utc_parsed(s@),
{
    match s.parse::<chrono::DateTime<chrono::Utc>>() {
        Ok(t) => Some((t.timestamp(), t.timestamp_subsec_nanos())),
        Err(_) => None,
    }
}

/// `a` is not later than `b`.
pub open spec fn not_later(a: (i64, u32), b: (i64, u32)) -> bool {
    a.0 < b.0 || (a.0 == b.0 && a.1 <= b.1)
}

/// Whether instant `a` comes strictly before instant `b`.
pub open spec fn earlier(a: (i64, u32), b: (i64, u32)) -> bool {
    a.0 < b.0 || (a.0 == b.0 && a.1 < b.1)
}

/// Whether a parsed log time lies within the run: from its start, included,
/// up to its end, excluded.
pub open spec fn within_run(parsed: Option<(i64, u32)>, started: Timestamp, finished: Timestamp) -> bool {
    match parsed {
        Some(t) => not_later((started.secs, started.nanos), t) && earlier(t, (finished.secs, finished.nanos)),
        None => false,
    }
}

/// Whether a parsed log time lies within the run: start included, end
/// excluded.
pub fn in_run(parsed: Option<(i64, u32)>, started: Timestamp, finished: Timestamp) -> (r: bool)
    ensures
        r == within_run(parsed, started, finished),
{
    match parsed {
        Some((secs, nanos)) => (started.secs < secs || (started.secs == secs && started.nanos <= nanos)) && (secs
            < finished.secs || (secs == finished.secs && nanos < finished.nanos)),
        None => false,
    }
}

/// Position of the first space of a text.
pub open spec fn first_space(s: Seq<char>) -> Option<int>
    decreases s.len(),
{
    if s.len() == 0 {
        None
    } else {
        match first_space(s.drop_last()) {
            Some(i) => Some(i),
            None => if s.last() == ' ' { Some(s.len() - 1) } else { None },
        }
    }
}

/// A log line belongs to a run when the time before its first space lies
/// within the run.
pub open spec fn log_line_kept(line: Seq<char>, started: Timestamp, finished: Timestamp) -> bool {
    match first_space(line) {
        Some(i) => within_run(utc_parsed(line.take(i)), started, finished),
        None => false,
    }
}

/// The first space of a text, if any.
fn find_space(cs: &Vec<char>) -> (r: Option<usize>)
    ensures
        r matches Some(i) ==> i < cs.len(),
        match first_space(cs@) {
            Some(i) => 0 <= i < cs.len() && r == Some(i as usize),
            None => r is None,
        },
{
    let mut i: usize = 0;
    while i < cs.len()
        invariant
            i <= cs.len(),
            first_space(cs@.take(i as int)) is None,
        decreases cs.len() - i,
    {
        assert(cs@.take(i + 1).drop_last() =~= cs@.take(i as int));
        if cs[i] == ' ' {
            proof {
                lemma_first_space_prefix(cs@, i as int + 1);
            }
            return Some(i);
        }
        i = i + 1;
    }
    assert(cs@.take(cs.len() as int) =~= cs@);
    None
}

/// The text of the first `end` characters.
fn text_before(cs: &Vec<char>, end: usize) -> (r: String)
    requires
        end <= cs.len(),
    ensures
        r@ == cs@.take(end as int),
{
    let mut r = String::new();
    let mut i: usize = 0;
    while i < end
        invariant
            i <= end,
            end <= cs.len(),
            r@ == cs@.take(i as int),
        decreases end - i,
    {
        crate::chars::push_char(&mut r, cs[i]);
        assert(cs@.take(i + 1) =~= cs@.take(i as int).push(cs@[i as int]));
        i = i + 1;
    }
    r
}

/// A space found in a prefix is the text's first space.
proof fn lemma_first_space_prefix(s: Seq<char>, k: int)
    requires
        0 <= k <= s.len(),
        first_space(s.take(k)) is Some,
    ensures
        first_space(s) == first_space(s.take(k)),
    decreases s.len() - k,
{
    if k < s.len() {
        assert(s.take(k + 1).drop_last() =~= s.take(k));
        lemma_first_space_prefix(s, k + 1);
    } else {
        assert(s.take(k) =~= s);
    }
}

/// The log lines of a run: those whose leading time, before the first
/// space, lies from the run's start, included, to its finish, excluded.
pub fn filter_logs_by_timestamp(lines: Vec<String>, started_at: Timestamp, finished_at: Timestamp) -> (r: Vec<String>)
    ensures
        r@.map_values(|l: String| l@) == lines@.map_values(|l: String| l@).filter(
            |l: Seq<char>| log_line_kept(l, started_at, finished_at),
        ),
{
    let ghost all = lines@.map_values(|l: String| l@);
    let ghost keep = |l: Seq<char>| log_line_kept(l, started_at, finished_at);
    let mut kept: Vec<String> = Vec::new();
    let mut i: usize = 0;
    assert(all.take(0).filter(keep) =~= Seq::<Seq<char>>::empty());
    while i < lines.len()
        invariant
            i <= lines.len(),
            all == lines@.map_values(|l: String| l@),
            keep == (|l: Seq<char>| log_line_kept(l, started_at, finished_at)),
            kept@.map_values(|l: String| l@) == all.take(i as int).filter(keep),
        decreases lines.len() - i,
    {
        let cs = crate::chars::chars_of(lines[i].as_str());
        let hit = match find_space(&cs) {
            Some(end) => {
                let head = text_before(&cs, end);
                in_run(parse_utc(head.as_str()), started_at, finished_at)
            },
            None => false,
        };
        assert(all[i as int] == cs@);
        assert(hit == log_line_kept(all[i as int], started_at, finished_at));
        proof {
            assert(all.take(i + 1) =~= all.take(i as int).push(all[i as int]));
            all.take(i as int).lemma_filter_push(all[i as int], keep);
        }
        if hit {
            let ghost before = kept@;
            kept.push(lines[i].clone());
            assert(kept@.map_values(|l: String| l@) =~= before.map_values(|l: String| l@).push(all[i as int]));
        }
        i = i + 1;
    }
    assert(all.take(lines.len() as int) =~= all);
    kept
}

/// Nanoseconds from `a` to `b`.
pub open spec fn elapsed_nanos(a: Timestamp, b: Timestamp) -> int {
    (b.secs - a.secs) * 1_000_000_000 + (b.nanos - a.nanos)
}

/// Division rounding toward zero.
pub open spec fn div_toward_zero(a: int, d: int) -> int {
    if a >= 0 { a / d } else { -((-a) / d) }
}

/// How long a run took: whole milliseconds (`"..ms"`) when it took less than
/// one whole second, otherwise whole seconds (`"..s"`).
pub open spec fn duration_text(a: Timestamp, b: Timestamp) -> Seq<char> {
    let n = elapsed_nanos(a, b);
    let secs = div_toward_zero(n, 1_000_000_000);
    if secs < 1 {
        signed_decimal(div_toward_zero(n, 1_000_000)) + "ms"@
    } else {
        decimal(secs as nat) + "s"@
    }
}

/// Label of a run outcome.
pub open spec fn outcome_text(o: RunOutcome) -> Seq<char> {
    match o {
        RunOutcome::Success => "Success"@,
        RunOutcome::NoChanges => "No changes"@,
        RunOutcome::Failed => "Failed"@,
        RunOutcome::CommittedOffline => "Committed (offline)"@,
    }
}

/// Whether two optional strings hold the same text.
pub open spec fn same_opt_text(a: Option<String>, b: Option<String>) -> bool {
    match (a, b) {
        (Some(x), Some(y)) => x@ == y@,
        (None, None) => true,
        _ => false,
    }
}

fn copy_opt(s: &Option<String>) -> (r: Option<String>)
    ensures
        same_opt_text(*s, r),
{
    match s {
        Some(t) => Some(owned(t.as_str())),
        None => None,
    }
}

fn duration_string(a: Timestamp, b: Timestamp) -> (r: String)
    requires
        valid_timestamp(a),
        valid_timestamp(b),
    ensures
        r@ == duration_text(a, b),
{
    let n: i128 = (b.secs as i128 - a.secs as i128) * 1_000_000_000 + (b.nanos as i128
        - a.nanos as i128);
    assert(n == elapsed_nanos(a, b));
    let magnitude: u128 = if n < 0 { (-n) as u128 } else { n as u128 };
    let secs_mag: u128 = magnitude / 1_000_000_000;
    let ms_mag: u128 = magnitude / 1_000_000;
    let mut r = String::new();
    if n >= 0 && secs_mag >= 1 {
        push_decimal(&mut r, secs_mag as u64);
        push_str(&mut r, "s");
        assert(r@ =~= decimal(secs_mag as nat) + "s"@);
    } else {
        if n < 0 && ms_mag > 0 {
            crate::chars::push_char(&mut r, '-');
            push_decimal(&mut r, ms_mag as u64);
            assert(r@ =~= seq!['-'] + decimal(ms_mag as nat));
        } else {
            push_decimal(&mut r, ms_mag as u64);
        }
        let ghost digits = r@;
        push_str(&mut r, "ms");
        assert(r@ =~= digits + "ms"@);
    }
    r
}

/// The history screen's answer to a key over `history_len` runs: the
/// selection is first clamped to the list, then the key is handled in the
/// current mode.
pub open spec fn answers_key(s: HistoryScreen, key: KeyEvent, history_len: usize, t: HistoryScreen, action: Action) -> bool {
    let mid = clamped_screen(s, history_len);
    let vp = ensured(s.list_viewport@, clamp_selection(s.selected, history_len) as nat, history_len as nat);
    &&& s.mode == Mode::LogView ==> log_view_step(mid, t, key, action) && t.list_viewport@ == vp
    &&& s.mode == Mode::History ==> history_step(mid, vp, t, key, history_len, action)
}

impl HistoryScreen {
    pub fn new() -> (s: Self)
        ensures
            s.selected == 0,
            s.list_viewport@ == (ViewportModel { offset: 0, height: 1 }),
            s.log_viewport@ == (ViewportModel { offset: 0, height: 1 }),
            s.mode == Mode::History,
            s.log_lines.len() == 0,
            s.log_namespace is None,
    {
        HistoryScreen {
            selected: 0,
            list_viewport: Viewport::new(),
            log_viewport: Viewport::new(),
            mode: Mode::History,
            log_lines: Vec::new(),
            log_namespace: None,
        }
    }

    /// Show the log lines of `record` (read by the caller from the run's log
    /// file, or filtered from the session log).
    pub fn enter_log_view(&mut self, record: &RunRecord, log_lines: Vec<String>)
        ensures
            final(self).log_lines == log_lines,
            record.namespace@.len() == 0 ==> final(self).log_namespace is None,
            record.namespace@.len() > 0 ==> (final(self).log_namespace matches Some(n) && n@
                == record.namespace@),
            final(self).mode == Mode::LogView,
            final(self).log_viewport@ == clamped(homed(old(self).log_viewport@), log_lines.len() as nat),
            final(self).selected == old(self).selected,
            final(self).list_viewport == old(self).list_viewport,
    {
        let n = log_lines.len();
        self.log_lines = log_lines;
        self.log_namespace = if record.namespace.as_str().is_empty() {
            None
        } else {
            Some(owned(record.namespace.as_str()))
        };
        self.mode = Mode::LogView;
        self.log_viewport.home();
        self.log_viewport.clamp(n);
    }

    /// Exit log view mode and return to history list.
    pub fn exit_log_view(&mut self)
        ensures
            final(self).mode == Mode::History,
            final(self).log_lines.len() == 0,
            final(self).log_namespace is None,
            final(self).log_viewport@ == homed(old(self).log_viewport@),
            final(self).selected == old(self).selected,
            final(self).list_viewport == old(self).list_viewport,
    {
        self.mode = Mode::History;
        self.log_lines = Vec::new();
        self.log_namespace = None;
        self.log_viewport.home();
    }

    /// Clamp selection and viewport after history is reloaded or shrinks.
    pub fn clamp_history(&mut self, history_len: usize)
        ensures
            final(self).selected == clamp_selection(old(self).selected, history_len),
            final(self).list_viewport@ == ensured(
                old(self).list_viewport@,
                clamp_selection(old(self).selected, history_len) as nat,
                history_len as nat,
            ),
            final(self).mode == old(self).mode,
            final(self).log_lines == old(self).log_lines,
            final(self).log_namespace == old(self).log_namespace,
            final(self).log_viewport == old(self).log_viewport,
    {
        if history_len == 0 {
            self.selected = 0;
        } else if self.selected > history_len - 1 {
            self.selected = history_len - 1;
        }
        self.list_viewport.ensure_visible(self.selected, history_len);
    }

    /// Update the list viewport from the actual render area.
    pub fn set_list_viewport_height(&mut self, height: usize, history_len: usize)
        ensures
            final(self).selected == clamp_selection(old(self).selected, history_len),
            final(self).list_viewport@ == ensured(
                clamped(ViewportModel { offset: old(self).list_viewport@.offset, height: height as nat }, history_len as nat),
                clamp_selection(old(self).selected, history_len) as nat,
                history_len as nat,
            ),
            final(self).mode == old(self).mode,
    {
        self.list_viewport.set_height(height, history_len);
        self.clamp_history(history_len);
    }

    /// Update the log viewport from the actual render area.
    pub fn set_log_viewport_height(&mut self, height: usize)
        ensures
            final(self).log_viewport@ == clamped(
                ViewportModel { offset: old(self).log_viewport@.offset, height: height as nat },
                old(self).log_lines.len() as nat,
            ),
            final(self).selected == old(self).selected,
            final(self).mode == old(self).mode,
            final(self).log_lines == old(self).log_lines,
            final(self).log_namespace == old(self).log_namespace,
    {
        let n = self.log_lines.len();
        self.log_viewport.set_height(height, n);
    }

    fn handle_key_log_view(&mut self, key: KeyEvent) -> (action: Action)
        ensures
            log_view_step(*old(self), *final(self), key, action),
            final(self).list_viewport == old(self).list_viewport,
    {
        let n = self.log_lines.len();
        match key.code {
            KeyCode::Esc => {
                self.exit_log_view();
                Action::Consumed
            },
            KeyCode::Up | KeyCode::Char('k') => {
                self.log_viewport.scroll_up(1);
                Action::Consumed
            },
            KeyCode::Down | KeyCode::Char('j') => {
                self.log_viewport.scroll_down(1, n);
                Action::Consumed
            },
            KeyCode::PageUp => {
                let page = self.log_viewport.page_size();
                self.log_viewport.scroll_up(page);
                Action::Consumed
            },
            KeyCode::PageDown => {
                let page = self.log_viewport.page_size();
                self.log_viewport.scroll_down(page, n);
                Action::Consumed
            },
            KeyCode::Home => {
                self.log_viewport.home();
                Action::Consumed
            },
            KeyCode::End => {
                self.log_viewport.end(n);
                Action::Consumed
            },
            _ => Action::NotConsumed,
        }
    }

    fn handle_key_history(&mut self, key: KeyEvent, history_len: usize) -> (action: Action)
        ensures
            history_step(*old(self), old(self).list_viewport@, *final(self), key, history_len, action),
    {
        match key.code {
            KeyCode::Char('r') => Action::Refresh,
            KeyCode::Enter => {
                if history_len > 0 {
                    Action::ViewLogs
                } else {
                    Action::Consumed
                }
            },
            KeyCode::Up | KeyCode::Char('k') => {
                if self.selected > 0 {
                    self.selected = self.selected - 1;
                    self.list_viewport.ensure_visible(self.selected, history_len);
                    Action::Consumed
                } else {
                    Action::NotConsumed
                }
            },
            KeyCode::Down | KeyCode::Char('j') => {
                if history_len > 0 && self.selected < history_len - 1 {
                    self.selected = self.selected + 1;
                    self.list_viewport.ensure_visible(self.selected, history_len);
                }
                Action::Consumed
            },
            KeyCode::Home => {
                self.selected = 0;
                self.list_viewport.home();
                Action::Consumed
            },
            KeyCode::End => {
                if history_len > 0 {
                    self.selected = history_len - 1;
                }
                self.list_viewport.ensure_visible(self.selected, history_len);
                Action::Consumed
            },
            KeyCode::PageUp => {
                let page = self.list_viewport.page_size();
                self.selected = self.selected.saturating_sub(page);
                self.list_viewport.ensure_visible(self.selected, history_len);
                Action::Consumed
            },
            KeyCode::PageDown => {
                if history_len > 0 {
                    let page = self.list_viewport.page_size();
                    let next = self.selected.saturating_add(page);
                    self.selected = if next < history_len - 1 { next } else { history_len - 1 };
                }
                self.list_viewport.ensure_visible(self.selected, history_len);
                Action::Consumed
            },
            _ => Action::NotConsumed,
        }
    }

    /// Handle a key event: the selection is first clamped to the history,
    /// then the key goes to the log viewer or the run list.
    pub fn handle_key(&mut self, key: KeyEvent, history_len: usize) -> (action: Action)
        ensures
            answers_key(*old(self), key, history_len, *final(self), action),
    {
        self.clamp_history(history_len);
        match self.mode {
            Mode::LogView => self.handle_key_log_view(key),
            Mode::History => self.handle_key_history(key, history_len),
        }
    }

    /// Format a run record for display.
    pub fn format_entry(record: &RunRecord) -> (d: EntryDisplay)
        requires
            valid_timestamp(record.started_at),
            valid_timestamp(record.finished_at),
        ensures
            d.time@ == utc_time_text(record.started_at.secs, record.started_at.nanos),
            record.namespace@.len() == 0 ==> d.namespace is None,
            record.namespace@.len() > 0 ==> (d.namespace matches Some(n) && n@ == record.namespace@),
            d.outcome@ == outcome_text(record.outcome),
            d.duration@ == duration_text(record.started_at, record.finished_at),
            same_opt_text(record.commit, d.commit),
            same_opt_text(record.message, d.message),
            d.is_error == (record.outcome == RunOutcome::Failed),
            d.is_warning == (record.outcome == RunOutcome::CommittedOffline),
    {
        let outcome = match record.outcome {
            RunOutcome::Success => owned("Success"),
            RunOutcome::NoChanges => owned("No changes"),
            RunOutcome::Failed => owned("Failed"),
            RunOutcome::CommittedOffline => owned("Committed (offline)"),
        };
        EntryDisplay {
            time: format_utc_time(record.started_at.secs, record.started_at.nanos),
            namespace: if record.namespace.as_str().is_empty() {
                None
            } else {
                Some(owned(record.namespace.as_str()))
            },
            outcome,
            duration: duration_string(record.started_at, record.finished_at),
            commit: copy_opt(&record.commit),
            message: copy_opt(&record.message),
            is_error: record.outcome == RunOutcome::Failed,
            is_warning: record.outcome == RunOutcome::CommittedOffline,
        }
    }
}

/// The selection clamped to a history of `len` runs.
pub open spec fn clamp_selection(selected: usize, len: usize) -> usize {
    if len == 0 {
        0
    } else if selected > len - 1 {
        (len - 1) as usize
    } else {
        selected
    }
}

/// The screen after `clamp_history(len)`.
pub open spec fn clamped_screen(s: HistoryScreen, len: usize) -> HistoryScreen {
    HistoryScreen { selected: clamp_selection(s.selected, len), ..s }
}

/// Log viewer keys: Esc closes, the rest scroll.
pub open spec fn log_view_step(old: HistoryScreen, new: HistoryScreen, key: KeyEvent, action: Action) -> bool {
    let n = old.log_lines.len() as nat;
    let vp = old.log_viewport@;
    let keep = new.selected == old.selected && new.mode == old.mode && new.log_lines
        == old.log_lines && new.log_namespace == old.log_namespace;
    match key.code {
        KeyCode::Esc => action == Action::Consumed && new.mode == Mode::History
            && new.log_lines.len() == 0 && new.log_namespace is None && new.log_viewport@
            == homed(vp) && new.selected == old.selected,
        KeyCode::Up | KeyCode::Char('k') => action == Action::Consumed && keep
            && new.log_viewport@ == scrolled_up(vp, 1),
        KeyCode::Down | KeyCode::Char('j') => action == Action::Consumed && keep
            && new.log_viewport@ == scrolled_down(vp, 1, n),
        KeyCode::PageUp => action == Action::Consumed && keep && new.log_viewport@ == scrolled_up(
            vp,
            page_of(vp),
        ),
        KeyCode::PageDown => action == Action::Consumed && keep && new.log_viewport@
            == scrolled_down(vp, page_of(vp), n),
        KeyCode::Home => action == Action::Consumed && keep && new.log_viewport@ == homed(vp),
        KeyCode::End => action == Action::Consumed && keep && new.log_viewport@ == ended(vp, n),
        _ => action == Action::NotConsumed && keep && new.log_viewport == old.log_viewport,
    }
}

/// Run list keys: move the selection (keeping it visible), open a log, or
/// ask for a refresh.
pub open spec fn history_step(
    old: HistoryScreen,
    vp: ViewportModel,
    new: HistoryScreen,
    key: KeyEvent,
    len: usize,
    action: Action,
) -> bool {
    let total = len as nat;
    let same_log = new.mode == old.mode && new.log_lines == old.log_lines && new.log_namespace
        == old.log_namespace && new.log_viewport == old.log_viewport;
    let moved_to = |sel: usize|
        new.selected == sel && new.list_viewport@ == ensured(vp, sel as nat, total);
    let unchanged = new.selected == old.selected && new.list_viewport@ == vp;
    same_log && match key.code {
        KeyCode::Char('r') => action == Action::Refresh && unchanged,
        KeyCode::Enter => action == (if len > 0 { Action::ViewLogs } else { Action::Consumed })
            && unchanged,
        KeyCode::Up | KeyCode::Char('k') => if old.selected > 0 {
            action == Action::Consumed && moved_to((old.selected - 1) as usize)
        } else {
            action == Action::NotConsumed && unchanged
        },
        KeyCode::Down | KeyCode::Char('j') => action == Action::Consumed && if len > 0
            && old.selected + 1 < len {
            moved_to((old.selected + 1) as usize)
        } else {
            unchanged
        },
        KeyCode::Home => action == Action::Consumed && new.selected == 0 && new.list_viewport@
            == homed(vp),
        KeyCode::End => action == Action::Consumed && moved_to(
            if len > 0 { (len - 1) as usize } else { old.selected },
        ),
        KeyCode::PageUp => action == Action::Consumed && moved_to(
            if old.selected >= page_of(vp) { (old.selected - page_of(vp)) as usize } else { 0 },
        ),
        KeyCode::PageDown => action == Action::Consumed && moved_to(
            if len > 0 {
                let next = if old.selected + page_of(vp) > usize::MAX {
                    usize::MAX as int
                } else {
                    old.selected + page_of(vp)
                };
                if next < len - 1 { next as usize } else { (len - 1) as usize }
            } else {
                old.selected
            },
        ),
        _ => action == Action::NotConsumed && unchanged,
    }
}


/// A log line belongs to a run exactly when its leading time is one: a time
/// not before the run's start (seconds, then nanoseconds) and strictly
/// before its finish. A line without a leading time never does.
pub proof fn lemma_within_run_window(parsed: Option<(i64, u32)>, started: Timestamp, finished: Timestamp)
    ensures
        parsed is None ==> !within_run(parsed, started, finished),
        parsed matches Some(t) ==> (within_run(parsed, started, finished) <==> ((started.secs < t.0 || (
        started.secs == t.0 && started.nanos <= t.1)) && (t.0 < finished.secs || (t.0 == finished.secs && t.1
            < finished.nanos)))),
{
}


proof fn lemma_first_space_meaning(s: Seq<char>)
    ensures
        match first_space(s) {
            Some(i) => 0 <= i < s.len() && s[i] == ' ' && forall|j: int| 0 <= j < i ==> s[j] != ' ',
            None => forall|j: int| 0 <= j < s.len() ==> s[j] != ' ',
        },
    decreases s.len(),
{
    if s.len() > 0 {
        lemma_first_space_meaning(s.drop_last());
        assert forall|j: int| 0 <= j < s.len() - 1 implies s[j] == s.drop_last()[j] by {}
    }
}

/// A log line is shown for a run exactly when it has a space, and the text
/// before its first space reads as a time not before the run's start and
/// strictly before its finish.
pub proof fn lemma_log_line_kept_meaning(line: Seq<char>, started: Timestamp, finished: Timestamp)
    ensures
        log_line_kept(line, started, finished) <==> exists|i: int|
            0 <= i < line.len() && line[i] == ' ' && (forall|j: int| 0 <= j < i ==> line[j] != ' ')
                && (#[trigger] utc_parsed(line.take(i)) matches Some(t) && (started.secs < t.0 || (started.secs
                == t.0 && started.nanos <= t.1)) && (t.0 < finished.secs || (t.0 == finished.secs && t.1
                < finished.nanos))),
{
    lemma_first_space_meaning(line);
    match first_space(line) {
        Some(i) => {
            lemma_within_run_window(utc_parsed(line.take(i)), started, finished);
            assert forall|k: int|
                0 <= k < line.len() && line[k] == ' ' && (forall|j: int| 0 <= j < k ==> line[j] != ' ') implies k
                == i by {
                if k < i {
                    assert(line[k] != ' ');
                } else if k > i {
                    assert(line[i] != ' ');
                }
            }
        },
        None => {},
    }
}


/// On the run list the vi keys act as the arrows: `j` or Down selects the
/// next run (staying on the last one), and is consumed; `k` or Up selects
/// the previous run, and at the first run is not consumed and changes
/// nothing. Neither touches the log viewer.
pub proof fn lemma_history_vi_keys_move_like_arrows(
    old: HistoryScreen,
    vp: ViewportModel,
    new: HistoryScreen,
    key: KeyEvent,
    len: usize,
    action: Action,
)
    requires
        history_step(old, vp, new, key, len, action),
    ensures
        key.code == KeyCode::Char('j') || key.code == KeyCode::Down ==> {
            &&& action == Action::Consumed
            &&& old.selected + 1 < len ==> new.selected == old.selected + 1
            &&& old.selected + 1 >= len ==> new.selected == old.selected && new.list_viewport@ == vp
        },
        key.code == KeyCode::Char('k') || key.code == KeyCode::Up ==> {
            &&& old.selected > 0 ==> action == Action::Consumed && new.selected == old.selected - 1
            &&& old.selected == 0 ==> action == Action::NotConsumed && new.selected == old.selected
                && new.list_viewport@ == vp
        },
        new.mode == old.mode && new.log_lines == old.log_lines && new.log_viewport == old.log_viewport,
{
}

/// In the log viewer the vi keys scroll as the arrows do: `j` or Down moves
/// the view one line further down, until the last page shows; `k` or Up one
/// line back up, until the top. Both are consumed and keep the log open.
pub proof fn lemma_log_view_vi_keys_scroll_like_arrows(old: HistoryScreen, new: HistoryScreen, key: KeyEvent, action: Action)
    requires
        log_view_step(old, new, key, action),
    ensures
        ({
            let before = old.log_viewport@;
            let after = new.log_viewport@;
            let last = max_offset_spec(before.height, old.log_lines.len() as nat);
            &&& key.code == KeyCode::Char('j') || key.code == KeyCode::Down ==> {
                &&& action == Action::Consumed && after.height == before.height
                &&& before.offset < last ==> after.offset == before.offset + 1
                &&& before.offset >= last ==> after.offset == last
                &&& new.mode == old.mode && new.log_lines == old.log_lines
            }
            &&& key.code == KeyCode::Char('k') || key.code == KeyCode::Up ==> {
                &&& action == Action::Consumed && after.height == before.height
                &&& before.offset > 0 ==> after.offset == before.offset - 1
                &&& before.offset == 0 ==> after.offset == 0
                &&& new.mode == old.mode && new.log_lines == old.log_lines
            }
        }),
{
    let last = max_offset_spec(old.log_viewport@.height, old.log_lines.len() as nat);
    assert(last <= old.log_lines.len());
}

} // verus!
