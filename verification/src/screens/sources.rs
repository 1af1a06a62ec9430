//! Source management screen state.
//!
//! Displays the list of configured sources, allows adding new sources via
//! a filesystem browser or path entry, removing selected sources, and shows
//! validation feedback. The browser and the filesystem checks run in the
//! caller; this screen owns the interaction and the multi-selection.

use vstd::prelude::*;

use crate::chars::{byte_len, byte_length, chars_of, owned, push_str};
use crate::keys::{is_ctrl_char, is_focus_escape, KeyCode, KeyEvent, NO_MODIFIERS};
use crate::paths::{parts_of, PathKey};
use crate::picker::{EntryKind, PickerAction, Selection};
use crate::selection::{
    loaded, selection_wf, toggled, SelectionDiff, SourceConfig, SourceSelection,
};
use crate::status::{contains_chars, contains_seq};
use crate::text::{
    edit, edit_changes, edited, edited_cursor, trim_end_seq, trim_start_seq, trim_text,
};

verus! {

/// The mode the sources screen is in.
#[derive(Debug, Clone, Copy, PartialEq, Eq, Structural)]
pub enum Mode {
    /// Browsing the source list.
    List,
    /// Browsing the filesystem to select a source.
    Browse,
    /// Typing a new source path.
    AddInput,
    /// Confirming deletion of the selected source.
    ConfirmDelete,
    /// Choosing whether to apply, discard, or continue editing pending changes.
    PendingChanges,
    /// Confirming source removals before applying multi-selection changes.
    ConfirmApply,
}

/// Kind of feedback message.
#[derive(Debug, Clone, Copy, PartialEq, Eq, Structural)]
pub enum MessageKind {
    Info,
    Warning,
    Error,
}

/// A feedback message to display.
#[derive(Debug, Clone)]
pub struct Message {
    pub text: String,
    pub kind: MessageKind,
}

/// Actions resulting from key handling on the sources screen.
#[derive(Debug, Clone, PartialEq, Eq)]
pub enum Action {
    /// The event was consumed, no further action needed.
    Consumed,
    /// The event was not consumed (pass to parent handler).
    NotConsumed,
    /// Add a new source with this path (from text input mode).
    AddSource(String),
    /// Remove the source at this index.
    RemoveSource(usize),
    /// Review the multi-selection diff when leaving the browser.
    ApplySelection,
    /// Choose apply from the pending-changes prompt.
    ChooseApply,
    /// Discard the pending multi-selection edits.
    DiscardSelection,
    /// Confirm and execute a pending diff that removes sources.
    ConfirmApply,
    /// Space in the browser: the browser should hand out the entry under
    /// its cursor, for `select_outcome`.
    SelectEntry,
    /// The key belongs to the filesystem picker; its action comes back
    /// through `picker_outcome`.
    ToPicker,
}

/// Information about a validated source path.
#[derive(Debug, Clone)]
pub struct SourceInfo {
    /// The normalized home-relative path.
    pub path: String,
    /// Whether the source currently exists on disk.
    pub exists: bool,
    /// Whether the source root is a symlink.
    pub is_symlink: bool,
    /// Warning about symlink behavior.
    pub warning: Option<String>,
}

/// The state of the sources management screen.
#[derive(Debug)]
pub struct SourcesScreen {
    /// Currently selected index in the source list.
    pub selected: usize,
    /// Current mode of the screen.
    pub mode: Mode,
    /// Text input buffer for adding a new source.
    pub input: String,
    /// Cursor position in the input.
    pub cursor: usize,
    /// Validation/feedback message.
    pub message: Option<Message>,
    /// Multi-selection state for the browser (persists within session).
    pub selection: Option<SourceSelection>,
    /// Cached diff for the confirm-apply dialog.
    pub pending_diff: Option<SelectionDiff>,
}

pub open spec fn is_yes(key: KeyEvent) -> bool {
    key.code == KeyCode::Char('y') || key.code == KeyCode::Char('Y')
}

pub open spec fn is_no(key: KeyEvent) -> bool {
    key.code == KeyCode::Char('n') || key.code == KeyCode::Char('N') || key.code == KeyCode::Esc
}

pub open spec fn is_edit_key(code: KeyCode) -> bool {
    code is Char || code is Backspace || code is Delete || code is Left || code is Right || code is Home
        || code is End
}

/// The message and selection state are kept; only the named fields move.
pub open spec fn unchanged(a: SourcesScreen, b: SourcesScreen) -> bool {
    &&& a.selected == b.selected
    &&& a.mode == b.mode
    &&& a.input@ == b.input@
    &&& a.cursor == b.cursor
    &&& a.message == b.message
    &&& a.selection == b.selection
    &&& a.pending_diff == b.pending_diff
}

/// Only the mode moves, and the message is cleared.
pub open spec fn moved_to(a: SourcesScreen, b: SourcesScreen, mode: Mode) -> bool {
    &&& b.mode == mode
    &&& b.message is None
    &&& a.selected == b.selected && a.input@ == b.input@ && a.cursor == b.cursor
    &&& a.selection == b.selection && a.pending_diff == b.pending_diff
}

/// Keys on the source list.
pub open spec fn list_step(old: SourcesScreen, new: SourcesScreen, key: KeyEvent, count: usize, r: Action) -> bool {
    if key.code == KeyCode::Up || key.code == KeyCode::Char('k') {
        if old.selected > 0 {
            &&& r == Action::Consumed
            &&& new.selected == old.selected - 1 && new.message is None && new.mode == old.mode
            &&& new.input@ == old.input@ && new.cursor == old.cursor
            &&& new.selection == old.selection && new.pending_diff == old.pending_diff
        } else {
            r == Action::NotConsumed && unchanged(old, new)
        }
    } else if key.code == KeyCode::Down || key.code == KeyCode::Char('j') {
        &&& r == Action::Consumed
        &&& new.selected == if count > 0 && old.selected + 1 < count { old.selected + 1 } else { old.selected as int }
        &&& new.message is None && new.mode == old.mode
        &&& new.input@ == old.input@ && new.cursor == old.cursor
        &&& new.selection == old.selection && new.pending_diff == old.pending_diff
    } else if key.code == KeyCode::Char('a') {
        r == Action::Consumed && moved_to(old, new, Mode::Browse)
    } else if (key.code == KeyCode::Char('d') || key.code == KeyCode::Delete) && count > 0 {
        r == Action::Consumed && moved_to(old, new, Mode::ConfirmDelete)
    } else {
        r == Action::NotConsumed && unchanged(old, new)
    }
}

/// Keys in the filesystem browser.
pub open spec fn browse_step(old: SourcesScreen, new: SourcesScreen, key: KeyEvent, browser_ready: bool, r: Action) -> bool {
    if is_focus_escape(key) {
        r == Action::NotConsumed && unchanged(old, new)
    } else if key.code == KeyCode::Esc {
        r == Action::ApplySelection && unchanged(old, new)
    } else if key.code == KeyCode::Char(':') || key.code == KeyCode::Char('/') {
        &&& new.mode == Mode::AddInput && new.message is None
        &&& new.input@.len() == 0 && new.cursor == 0
        &&& new.selected == old.selected && new.selection == old.selection
        &&& new.pending_diff == old.pending_diff
        &&& r == Action::Consumed
    } else if key.code == KeyCode::Char(' ') && key.modifiers.bits == NO_MODIFIERS {
        (if browser_ready { r == Action::SelectEntry } else { r == Action::Consumed }) && unchanged(old, new)
    } else {
        (if browser_ready { r == Action::ToPicker } else { r == Action::NotConsumed }) && unchanged(old, new)
    }
}

/// Keys in the path field.
pub open spec fn add_step(old: SourcesScreen, new: SourcesScreen, key: KeyEvent, r: Action) -> bool {
    let s = old.input@;
    let c = old.cursor as nat;
    let keeps = new.selected == old.selected && new.selection == old.selection && new.pending_diff
        == old.pending_diff;
    if is_focus_escape(key) {
        r == Action::NotConsumed && unchanged(old, new)
    } else if key.code == KeyCode::Enter {
        let path = trim_end_seq(trim_start_seq(s));
        if path.len() == 0 {
            &&& r == Action::Consumed
            &&& new.message matches Some(m) && m.kind == MessageKind::Error && m.text@ == "Path cannot be empty"@
            &&& keeps && new.mode == old.mode && new.input@ == s && new.cursor == old.cursor
        } else {
            r matches Action::AddSource(p) && p@ == path && unchanged(old, new)
        }
    } else if key.code == KeyCode::Esc {
        r == Action::Consumed && moved_to(old, new, Mode::Browse)
    } else {
        &&& r == Action::Consumed
        &&& keeps && new.mode == old.mode && new.message == old.message
        &&& if is_ctrl_char(key, 'a') {
            new.input@ == s && new.cursor == 0
        } else if is_ctrl_char(key, 'e') {
            new.input@ == s && new.cursor == byte_len(s)
        } else if is_ctrl_char(key, 'u') {
            new.input@.len() == 0 && new.cursor == 0
        } else if is_edit_key(key.code) {
            new.input@ == edited(s, c, key.code) && new.cursor == edited_cursor(s, c, key.code)
        } else {
            new.input@ == s && new.cursor == old.cursor
        }
    }
}

/// Keys in the three dialogs.
pub open spec fn dialog_step(old: SourcesScreen, new: SourcesScreen, key: KeyEvent, r: Action) -> bool {
    if is_focus_escape(key) {
        r == Action::NotConsumed && unchanged(old, new)
    } else {
        match old.mode {
            Mode::ConfirmDelete => if is_yes(key) {
                r == Action::RemoveSource(old.selected) && unchanged(old, new)
            } else if is_no(key) {
                r == Action::Consumed && moved_to(old, new, Mode::List)
            } else {
                r == Action::Consumed && unchanged(old, new)
            },
            Mode::PendingChanges => if key.code == KeyCode::Char('a') || key.code == KeyCode::Char('A') {
                r == Action::ChooseApply && unchanged(old, new)
            } else if key.code == KeyCode::Char('d') || key.code == KeyCode::Char('D') {
                r == Action::DiscardSelection && unchanged(old, new)
            } else if key.code == KeyCode::Char('c') || key.code == KeyCode::Char('C') || key.code
                == KeyCode::Esc {
                &&& r == Action::Consumed
                &&& new.mode == Mode::Browse && new.message is None && new.pending_diff is None
                &&& new.selected == old.selected && new.input@ == old.input@ && new.cursor == old.cursor
                &&& new.selection == old.selection
            } else {
                r == Action::Consumed && unchanged(old, new)
            },
            _ => if is_yes(key) {
                r == Action::ConfirmApply && unchanged(old, new)
            } else if is_no(key) {
                r == Action::Consumed && moved_to(old, new, Mode::PendingChanges)
            } else {
                r == Action::Consumed && unchanged(old, new)
            },
        }
    }
}

/// The full key contract, by mode.
pub open spec fn sources_key_step(
    old: SourcesScreen,
    new: SourcesScreen,
    key: KeyEvent,
    count: usize,
    browser_ready: bool,
    r: Action,
) -> bool {
    match old.mode {
        Mode::List => list_step(old, new, key, count, r),
        Mode::Browse => browse_step(old, new, key, browser_ready, r),
        Mode::AddInput => add_step(old, new, key, r),
        _ => dialog_step(old, new, key, r),
    }
}

/// `s` without trailing `/`.
pub open spec fn trim_slashes(s: Seq<char>) -> Seq<char>
    decreases s.len(),
{
    if s.len() > 0 && s.last() == '/' {
        trim_slashes(s.drop_last())
    } else {
        s
    }
}

/// Whether some configured source is written `p` once trailing `/` go.
pub open spec fn configured(sources: Seq<SourceConfig>, p: Seq<char>) -> bool {
    exists|i: int| 0 <= i < sources.len() && trim_slashes((#[trigger] sources[i]).path@) == p
}

/// The checks a typed source path must pass before the file system is
/// consulted; a path that passes comes back without trailing `/`.
pub open spec fn checked_source(path: Seq<char>, sources: Seq<SourceConfig>) -> Result<Seq<char>, Seq<char>> {
    if path.len() == 0 {
        Err("Path cannot be empty"@)
    } else if path[0] == '/' {
        Err("Source paths must be relative to $HOME"@)
    } else if contains_seq(path, seq!['.', '.']) {
        Err("Parent traversal (..) is not allowed"@)
    } else if configured(sources, trim_slashes(path)) {
        Err("Source '"@ + trim_slashes(path) + "' is already configured"@)
    } else {
        Ok(trim_slashes(path))
    }
}

/// `s` without trailing `/`.
pub fn trim_trailing_slashes(s: &str) -> (r: String)
    ensures
        r@ == trim_slashes(s@),
{
    let v = chars_of(s);
    let mut n = v.len();
    assert(v@.take(n as int) =~= v@);
    while n > 0 && v[n - 1] == '/'
        invariant
            n <= v.len(),
            v@ == s@,
            trim_slashes(s@) == trim_slashes(v@.take(n as int)),
        decreases n,
    {
        assert(v@.take(n as int).drop_last() =~= v@.take(n - 1));
        n = n - 1;
    }
    let mut out: Vec<char> = Vec::new();
    let mut i: usize = 0;
    while i < n
        invariant
            n <= v.len(),
            i <= n,
            out@ == v@.take(i as int),
        decreases n - i,
    {
        out.push(v[i]);
        assert(v@.take(i + 1) =~= v@.take(i as int).push(v@[i as int]));
        i = i + 1;
    }
    crate::chars::string_from_chars(out.as_slice())
}

/// What the file system reported about a source candidate.
#[derive(Debug)]
pub struct SourceProbe {
    /// The first overlap between the sources (with the candidate) and the
    /// repository, when a repository is configured.
    pub overlap: Option<String>,
    /// Whether the candidate's root is a symlink.
    pub is_symlink: bool,
    /// Whether the candidate exists.
    pub exists: bool,
    /// Whether the candidate is an acceptable source path, or why not.
    pub path_check: Result<(), String>,
}

/// The validation of a source path, given what the probe found.
pub open spec fn validated_source(
    path: Seq<char>,
    sources: Seq<SourceConfig>,
    probe: SourceProbe,
) -> Result<(Seq<char>, bool, bool, bool), Seq<char>> {
    match checked_source(path, sources) {
        Err(m) => Err(m),
        Ok(p) => match probe.overlap {
            Some(o) => Err("Overlap detected: "@ + o@),
            None => match probe.path_check {
                Err(e) => Err("Invalid source: "@ + e@),
                Ok(()) => Ok((p, probe.exists, probe.is_symlink, probe.is_symlink)),
            },
        },
    }
}

impl SourcesScreen {
    /// Validate a source path before adding it, with what the file system
    /// reported (`probe`). Returns the normalized path and its state, or an
    /// error message.
    pub fn validate_source(path: &str, existing_sources: &[SourceConfig], probe: SourceProbe) -> (r: Result<
        SourceInfo,
        String,
    >)
        ensures
            match validated_source(path@, existing_sources@, probe) {
                Ok((p, exists, is_symlink, warned)) => r matches Ok(info) && info.path@ == p && info.exists
                    == exists && info.is_symlink == is_symlink && (info.warning is Some) == warned
                    && (warned ==> (info.warning matches Some(w) && w@
                    == "Source is a symlink — it will be backed up as a link, not followed."@)),
                Err(m) => r matches Err(e) && e@ == m,
            },
    {
        let normalized = match SourcesScreen::check_source_input(path, existing_sources) {
            Ok(p) => p,
            Err(e) => return Err(e),
        };
        if let Some(o) = probe.overlap {
            let mut m = owned("Overlap detected: ");
            push_str(&mut m, o.as_str());
            return Err(m);
        }
        let warning = if probe.is_symlink {
            Some(owned("Source is a symlink — it will be backed up as a link, not followed."))
        } else {
            None
        };
        if let Err(e) = probe.path_check {
            let mut m = owned("Invalid source: ");
            push_str(&mut m, e.as_str());
            return Err(m);
        }
        Ok(SourceInfo { path: normalized, exists: probe.exists, is_symlink: probe.is_symlink, warning })
    }

    pub fn new() -> (s: Self)
        ensures
            s.selected == 0,
            s.mode == Mode::List,
            s.input@.len() == 0,
            s.cursor == 0,
            s.message is None,
            s.selection is None,
            s.pending_diff is None,
    {
        SourcesScreen {
            selected: 0,
            mode: Mode::List,
            input: String::new(),
            cursor: 0,
            message: None,
            selection: None,
            pending_diff: None,
        }
    }

    /// The browser to open when none is open: rooted and starting at the
    /// home directory. `None` when `browser_open`.
    pub fn ensure_browser(&self, home: &PathKey, browser_open: bool) -> (r: Option<(PathKey, PathKey)>)
        ensures
            browser_open ==> r is None,
            !browser_open ==> (r matches Some((root, start)) && parts_of(root) == parts_of(*home) && parts_of(start)
                == parts_of(*home)),
    {
        if browser_open {
            None
        } else {
            Some((crate::selection::copy_path(home), crate::selection::copy_path(home)))
        }
    }

    /// Ensure the selection state is initialized from config.
    ///
    /// Only initializes once per session — re-entering Browse mode reuses it.
    pub fn ensure_selection(&mut self, sources: &[SourceConfig], home: &PathKey)
        ensures
            match old(self).selection {
                Some(sel) => final(self).selection == Some(sel),
                None => final(self).selection matches Some(sel) && sel@.selected == loaded(parts_of(*home), sources@)
                    && sel@.deselected.len() == 0 && sel@.home == parts_of(*home) && selection_wf(sel@),
            },
            final(self).mode == old(self).mode,
            final(self).selected == old(self).selected,
            final(self).message == old(self).message,
            *final(self) == (SourcesScreen { selection: final(self).selection, ..*old(self) }),
    {
        if self.selection.is_none() {
            let mut sel = SourceSelection::new(home);
            sel.load_from_config(sources);
            self.selection = Some(sel);
        }
    }

    /// Take the entry the browser handed out: files, directories and links
    /// toggle in the selection; anything else leaves an error.
    pub fn select_outcome(&mut self, picked: Result<Selection, String>) -> (r: Action)
        ensures
            r == Action::Consumed,
            match picked {
                Ok(e) => if e.kind == EntryKind::File || e.kind == EntryKind::Directory || e.kind
                    == EntryKind::Symlink {
                    &&& final(self).message is None
                    &&& match old(self).selection {
                        Some(sel) => final(self).selection matches Some(t) && t@ == toggled(
                            sel@,
                            parts_of(e.path),
                            e.kind == EntryKind::Directory,
                        ) && (selection_wf(sel@) ==> selection_wf(t@)),
                        None => final(self).selection is None,
                    }
                } else {
                    &&& final(self).message matches Some(m) && m.kind == MessageKind::Error && m.text@
                        == "Cannot select this file type."@
                    &&& final(self).selection == old(self).selection
                },
                Err(e) => final(self).message matches Some(m) && m.kind == MessageKind::Error && m.text == e
                    && final(self).selection == old(self).selection,
            },
            final(self).mode == old(self).mode,
            final(self).selected == old(self).selected,
            final(self).input == old(self).input,
            final(self).cursor == old(self).cursor,
    {
        match picked {
            Ok(entry) => {
                match entry.kind {
                    EntryKind::File | EntryKind::Directory | EntryKind::Symlink => {
                        let is_dir = entry.kind == EntryKind::Directory;
                        match self.selection.take() {
                            Some(mut sel) => {
                                sel.toggle(&entry.path, is_dir);
                                self.selection = Some(sel);
                            },
                            None => {},
                        }
                        self.message = None;
                    },
                    _ => {
                        self.message = Some(
                            Message { text: owned("Cannot select this file type."), kind: MessageKind::Error },
                        );
                    },
                }
            },
            Err(e) => {
                self.message = Some(Message { text: e, kind: MessageKind::Error });
            },
        }
        Action::Consumed
    }

    /// Take the picker's answer to a key in the browser.
    pub fn picker_outcome(&mut self, action: PickerAction) -> (r: Action)
        ensures
            r == match action {
                PickerAction::Consumed => Action::Consumed,
                PickerAction::Select(_) => Action::Consumed,
                PickerAction::Cancel => Action::ApplySelection,
                PickerAction::NotConsumed => Action::NotConsumed,
            },
            unchanged(*old(self), *final(self)),
    {
        match action {
            PickerAction::Consumed => Action::Consumed,
            PickerAction::Select(_) => Action::Consumed,
            PickerAction::Cancel => Action::ApplySelection,
            PickerAction::NotConsumed => Action::NotConsumed,
        }
    }

    fn handle_key_list(&mut self, key: KeyEvent, source_count: usize) -> (r: Action)
        requires
            old(self).mode == Mode::List,
        ensures
            list_step(*old(self), *final(self), key, source_count, r),
    {
        match key.code {
            KeyCode::Up | KeyCode::Char('k') => {
                if self.selected > 0 {
                    self.selected = self.selected - 1;
                    self.message = None;
                    Action::Consumed
                } else {
                    Action::NotConsumed
                }
            },
            KeyCode::Down | KeyCode::Char('j') => {
                if source_count > 0 && self.selected < source_count - 1 {
                    self.selected = self.selected + 1;
                }
                self.message = None;
                Action::Consumed
            },
            KeyCode::Char('a') => {
                self.mode = Mode::Browse;
                self.message = None;
                Action::Consumed
            },
            KeyCode::Char('d') | KeyCode::Delete => {
                if source_count > 0 {
                    self.mode = Mode::ConfirmDelete;
                    self.message = None;
                    Action::Consumed
                } else {
                    Action::NotConsumed
                }
            },
            _ => Action::NotConsumed,
        }
    }

    fn handle_key_browse(&mut self, key: KeyEvent, browser_ready: bool) -> (r: Action)
        requires
            old(self).mode == Mode::Browse,
        ensures
            browse_step(*old(self), *final(self), key, browser_ready, r),
    {
        if key.focus_escape() {
            return Action::NotConsumed;
        }
        if key.code == KeyCode::Esc {
            return Action::ApplySelection;
        }
        if key.code == KeyCode::Char(':') || key.code == KeyCode::Char('/') {
            self.mode = Mode::AddInput;
            self.input = String::new();
            self.cursor = 0;
            self.message = None;
            return Action::Consumed;
        }
        if key.code == KeyCode::Char(' ') && key.no_modifiers() {
            if browser_ready {
                Action::SelectEntry
            } else {
                Action::Consumed
            }
        } else if browser_ready {
            Action::ToPicker
        } else {
            Action::NotConsumed
        }
    }

    fn handle_key_add(&mut self, key: KeyEvent) -> (r: Action)
        requires
            old(self).mode == Mode::AddInput,
            byte_len(old(self).input@) + 4 <= usize::MAX,
        ensures
            add_step(*old(self), *final(self), key, r),
    {
        if key.focus_escape() {
            return Action::NotConsumed;
        }
        match key.code {
            KeyCode::Enter => {
                let path = trim_text(self.input.as_str());
                if path.as_str().is_empty() {
                    self.message = Some(Message { text: owned("Path cannot be empty"), kind: MessageKind::Error });
                    return Action::Consumed;
                }
                return Action::AddSource(path);
            },
            KeyCode::Esc => {
                self.mode = Mode::Browse;
                self.message = None;
                return Action::Consumed;
            },
            _ => {},
        }
        if key.ctrl_char('a') {
            self.cursor = 0;
        } else if key.ctrl_char('e') {
            self.cursor = byte_length(self.input.as_str());
        } else if key.ctrl_char('u') {
            self.input = String::new();
            self.cursor = 0;
        } else {
            match key.code {
                KeyCode::Char(_) | KeyCode::Backspace | KeyCode::Delete | KeyCode::Left | KeyCode::Right
                | KeyCode::Home | KeyCode::End => {
                    edit(&mut self.input, &mut self.cursor, key.code);
                },
                _ => {},
            }
        }
        Action::Consumed
    }

    fn handle_key_dialog(&mut self, key: KeyEvent) -> (r: Action)
        requires
            old(self).mode != Mode::List && old(self).mode != Mode::Browse && old(self).mode != Mode::AddInput,
        ensures
            dialog_step(*old(self), *final(self), key, r),
    {
        if key.focus_escape() {
            return Action::NotConsumed;
        }
        match self.mode {
            Mode::ConfirmDelete => match key.code {
                KeyCode::Char('y') | KeyCode::Char('Y') => Action::RemoveSource(self.selected),
                KeyCode::Char('n') | KeyCode::Char('N') | KeyCode::Esc => {
                    self.mode = Mode::List;
                    self.message = None;
                    Action::Consumed
                },
                _ => Action::Consumed,
            },
            Mode::PendingChanges => match key.code {
                KeyCode::Char('a') | KeyCode::Char('A') => Action::ChooseApply,
                KeyCode::Char('d') | KeyCode::Char('D') => Action::DiscardSelection,
                KeyCode::Char('c') | KeyCode::Char('C') | KeyCode::Esc => {
                    self.mode = Mode::Browse;
                    self.pending_diff = None;
                    self.message = None;
                    Action::Consumed
                },
                _ => Action::Consumed,
            },
            _ => match key.code {
                KeyCode::Char('y') | KeyCode::Char('Y') => Action::ConfirmApply,
                KeyCode::Char('n') | KeyCode::Char('N') | KeyCode::Esc => {
                    self.mode = Mode::PendingChanges;
                    self.message = None;
                    Action::Consumed
                },
                _ => Action::Consumed,
            },
        }
    }

    /// Handle a key event for this screen. `browser_ready` tells whether
    /// the filesystem browser is open; keys for it come back as
    /// `SelectEntry` or `ToPicker`.
    pub fn handle_key(&mut self, key: KeyEvent, source_count: usize, browser_ready: bool) -> (r: Action)
        requires
            byte_len(old(self).input@) + 4 <= usize::MAX,
        ensures
            sources_key_step(*old(self), *final(self), key, source_count, browser_ready, r),
    {
        match self.mode {
            Mode::List => self.handle_key_list(key, source_count),
            Mode::Browse => self.handle_key_browse(key, browser_ready),
            Mode::AddInput => self.handle_key_add(key),
            _ => self.handle_key_dialog(key),
        }
    }

    /// Check a source path before the file system is consulted: not empty,
    /// relative to the home directory, without `..`, and not configured
    /// already. The path comes back without trailing `/`.
    pub fn check_source_input(path: &str, existing_sources: &[SourceConfig]) -> (r: Result<String, String>)
        ensures
            match checked_source(path@, existing_sources@) {
                Ok(p) => r matches Ok(q) && q@ == p,
                Err(m) => r matches Err(e) && e@ == m,
            },
    {
        let chars = chars_of(path);
        if chars.len() == 0 {
            return Err(owned("Path cannot be empty"));
        }
        if chars[0] == '/' {
            return Err(owned("Source paths must be relative to $HOME"));
        }
        let mut dots: Vec<char> = Vec::new();
        dots.push('.');
        dots.push('.');
        assert(dots@ =~= seq!['.', '.']);
        if contains_chars(&chars, &dots) {
            return Err(owned("Parent traversal (..) is not allowed"));
        }
        let normalized = trim_trailing_slashes(path);
        let mut i: usize = 0;
        while i < existing_sources.len()
            invariant
                i <= existing_sources@.len(),
                normalized@ == trim_slashes(path@),
                path@.len() > 0,
                path@[0] != '/',
                !contains_seq(path@, seq!['.', '.']),
                forall|k: int| 0 <= k < i ==> trim_slashes((#[trigger] existing_sources@[k]).path@) != normalized@,
            decreases existing_sources@.len() - i,
        {
            let existing = trim_trailing_slashes(existing_sources[i].path.as_str());
            if crate::paths::same_text(&existing, &normalized) {
                assert(trim_slashes(existing_sources@[i as int].path@) == normalized@);
                assert(configured(existing_sources@, trim_slashes(path@)));
                let mut message = owned("Source '");
                push_str(&mut message, normalized.as_str());
                push_str(&mut message, "' is already configured");
                assert(message@ =~= "Source '"@ + trim_slashes(path@) + "' is already configured"@);
                return Err(message);
            }
            i = i + 1;
        }
        Ok(normalized)
    }
}


/// On the source list the vi keys act as the arrows: `j` or Down moves the
/// selection one row down (staying on the last row) and is consumed; `k` or
/// Up moves it one row up, and at the top is not consumed and changes
/// nothing. A move clears the message and touches nothing else.
pub proof fn lemma_list_vi_keys_move_like_arrows(
    old: SourcesScreen,
    new: SourcesScreen,
    key: KeyEvent,
    count: usize,
    browser_ready: bool,
    r: Action,
)
    requires
        old.mode == Mode::List,
        sources_key_step(old, new, key, count, browser_ready, r),
    ensures
        key.code == KeyCode::Char('j') || key.code == KeyCode::Down ==> {
            &&& r == Action::Consumed
            &&& old.selected + 1 < count ==> new.selected == old.selected + 1
            &&& old.selected + 1 >= count ==> new.selected == old.selected
            &&& new.message is None && new.mode == Mode::List
        },
        key.code == KeyCode::Char('k') || key.code == KeyCode::Up ==> {
            &&& old.selected > 0 ==> r == Action::Consumed && new.selected == old.selected - 1 && new.message is None
                && new.mode == Mode::List
            &&& old.selected == 0 ==> r == Action::NotConsumed && new.selected == old.selected && new.message
                == old.message && new.mode == old.mode
        },
        key.code == KeyCode::Char('j') || key.code == KeyCode::Down || key.code == KeyCode::Char('k') || key.code
            == KeyCode::Up ==> new.input@ == old.input@ && new.cursor == old.cursor && new.selection
            == old.selection && new.pending_diff == old.pending_diff,
{
}


/// The other keys of the source list: `a` opens the browser; `d` or Delete
/// asks to confirm deleting when there are sources, and is not consumed
/// (changing nothing) when there are none; both clear the message and keep
/// the selection. Any key without a binding is not consumed and changes
/// nothing.
pub proof fn lemma_list_other_keys(
    old: SourcesScreen,
    new: SourcesScreen,
    key: KeyEvent,
    count: usize,
    browser_ready: bool,
    r: Action,
)
    requires
        old.mode == Mode::List,
        sources_key_step(old, new, key, count, browser_ready, r),
    ensures
        key.code == KeyCode::Char('a') ==> r == Action::Consumed && new.mode == Mode::Browse && new.message is None
            && new.selected == old.selected,
        key.code == KeyCode::Char('d') || key.code == KeyCode::Delete ==> if count > 0 {
            r == Action::Consumed && new.mode == Mode::ConfirmDelete && new.message is None && new.selected
                == old.selected
        } else {
            r == Action::NotConsumed && unchanged(old, new)
        },
        !(key.code == KeyCode::Char('a') || key.code == KeyCode::Char('d') || key.code == KeyCode::Delete
            || key.code == KeyCode::Char('j') || key.code == KeyCode::Char('k') || key.code == KeyCode::Up
            || key.code == KeyCode::Down) ==> r == Action::NotConsumed && unchanged(old, new),
{
}


/// Dropping trailing `/` keeps the start of the text and removes only `/`
/// characters, all of them at the end.
pub proof fn lemma_trim_slashes_meaning(s: Seq<char>)
    ensures
        trim_slashes(s).len() <= s.len(),
        trim_slashes(s) == s.take(trim_slashes(s).len() as int),
        forall|i: int| trim_slashes(s).len() <= i < s.len() ==> s[i] == '/',
        trim_slashes(s).len() > 0 ==> trim_slashes(s).last() != '/',
    decreases s.len(),
{
    if s.len() > 0 && s.last() == '/' {
        lemma_trim_slashes_meaning(s.drop_last());
        let t = trim_slashes(s.drop_last());
        assert(s.drop_last().take(t.len() as int) =~= s.take(t.len() as int));
        assert forall|i: int| t.len() <= i < s.len() implies s[i] == '/' by {
            if i < s.len() - 1 {
                assert(s[i] == s.drop_last()[i]);
            }
        }
    } else {
        assert(s.take(s.len() as int) =~= s);
    }
}

/// A typed source path is accepted exactly when it is not empty, does not
/// start with `/`, holds no `..`, and no configured source names the same
/// path once trailing `/` are dropped from both; an accepted path comes back
/// without its trailing `/`.
pub proof fn lemma_checked_source_meaning(path: Seq<char>, sources: Seq<SourceConfig>)
    ensures
        checked_source(path, sources) is Ok <==> (path.len() > 0 && path[0] != '/' && !(exists|i: int|
            0 <= i && i + 1 < path.len() && #[trigger] path[i] == '.' && path[i + 1] == '.') && !(exists|k: int|
            0 <= k < sources.len() && trim_slashes((#[trigger] sources[k]).path@) == trim_slashes(path))),
        checked_source(path, sources) matches Ok(p) ==> p == trim_slashes(path),
{
    let dots = seq!['.', '.'];
    if exists|i: int| 0 <= i && i + 1 < path.len() && #[trigger] path[i] == '.' && path[i + 1] == '.' {
        let i = choose|i: int| 0 <= i && i + 1 < path.len() && #[trigger] path[i] == '.' && path[i + 1] == '.';
        assert(path.subrange(i, i + 2) =~= dots);
        assert(crate::status::occurs_at(path, dots, i));
    }
    if contains_seq(path, dots) {
        let i = choose|i: int| crate::status::occurs_at(path, dots, i);
        assert(path.subrange(i, i + 2)[0] == path[i]);
        assert(path.subrange(i, i + 2)[1] == path[i + 1]);
    }
}


/// Deleting asks first: in the delete dialog `y` (or `Y`) asks to remove the
/// selected source and changes nothing else, while `n`, `N` or Esc go back
/// to the list without removing anything. In the removal dialog of pending
/// changes, `y` asks to apply them and `n`, `N` or Esc go back to the
/// choice. Tab hands focus back without answering.
pub proof fn lemma_delete_needs_yes(
    old: SourcesScreen,
    new: SourcesScreen,
    key: KeyEvent,
    count: usize,
    browser_ready: bool,
    r: Action,
)
    requires
        old.mode == Mode::ConfirmDelete || old.mode == Mode::ConfirmApply,
        sources_key_step(old, new, key, count, browser_ready, r),
        !is_focus_escape(key),
    ensures
        old.mode == Mode::ConfirmDelete ==> {
            &&& (key.code == KeyCode::Char('y') || key.code == KeyCode::Char('Y')) ==> r == Action::RemoveSource(
                old.selected,
            ) && new.mode == old.mode && new.selected == old.selected
            &&& (key.code == KeyCode::Char('n') || key.code == KeyCode::Char('N') || key.code == KeyCode::Esc) ==> r
                == Action::Consumed && new.mode == Mode::List && new.selected == old.selected
            &&& r is RemoveSource ==> key.code == KeyCode::Char('y') || key.code == KeyCode::Char('Y')
        },
        old.mode == Mode::ConfirmApply ==> {
            &&& (key.code == KeyCode::Char('y') || key.code == KeyCode::Char('Y')) ==> r == Action::ConfirmApply
                && new.mode == old.mode
            &&& (key.code == KeyCode::Char('n') || key.code == KeyCode::Char('N') || key.code == KeyCode::Esc) ==> r
                == Action::Consumed && new.mode == Mode::PendingChanges
            &&& r is ConfirmApply ==> key.code == KeyCode::Char('y') || key.code == KeyCode::Char('Y')
        },
{
}

} // verus!
