//! Ignore rule editor screen state.
//!
//! Allows the user to select a source, view/edit its ignore patterns,
//! preview which files would be matched, and see warnings about secrets
//! or already-tracked files.

use vstd::prelude::*;

use crate::chars::{byte_len, owned, push_str};
use crate::keys::{is_ctrl_char, is_focus_escape, KeyCode, KeyEvent};
use crate::task::{load_data, LoadState};
use crate::text::{
    backspaced, backspaced_cursor, backspace, delete, deleted, insert_char, inserted,
    inserted_cursor, left_of, move_left, move_right, normalized, right_of,
};
use crate::viewport::{max_offset_spec, min_nat, Viewport};

verus! {

/// The state of the ignore editor screen.
#[derive(Debug)]
pub struct IgnoreScreen {
    /// Index of the currently selected source.
    pub source_idx: usize,
    /// Current mode.
    pub mode: Mode,
    /// Index of the selected pattern in the list.
    pub pattern_idx: usize,
    /// Which nested level has focus within List mode.
    pub list_focus: ListFocus,
    /// Text input buffer for adding/editing a pattern.
    pub input: String,
    /// Cursor position in the input.
    pub cursor: usize,
    /// Lifecycle and last usable preview of matched files.
    pub preview_state: LoadState<Vec<PreviewEntry>>,
    /// Viewport for the file preview.
    pub preview_viewport: Viewport,
    /// Feedback message promoted to the global status region.
    pub message: Option<Message>,
}

/// Within List mode, which nested control has focus.
#[derive(Debug, Clone, Copy, PartialEq, Eq, Structural)]
pub enum ListFocus {
    /// The source selector row at the top.
    SourceSelector,
    /// The pattern list below the source selector.
    PatternList,
}

/// A preview entry showing a file and its match status.
#[derive(Debug, Clone)]
pub struct PreviewEntry {
    /// Relative path from the source root.
    pub path: String,
    /// Whether this file is ignored by the current patterns.
    pub ignored: bool,
    /// The pattern that matched (if ignored).
    pub matched_by: Option<String>,
    /// Whether this file looks like a secret.
    pub secret_warning: bool,
}

/// One file found while scanning a source: its path relative to the source
/// root, the ignore pattern that matched it, and whether it looks secret.
#[derive(Debug, Clone)]
pub struct ScannedEntry {
    pub path: String,
    pub matched_by: Option<String>,
    pub secret_warning: bool,
}

/// Semantic category for ignore-editor feedback.
#[derive(Debug, Clone, Copy, PartialEq, Eq, Structural)]
pub enum MessageKind {
    Success,
    Error,
}

#[derive(Debug, Clone)]
pub struct Message {
    pub text: String,
    pub kind: MessageKind,
}

/// The mode the ignore screen is in.
#[derive(Debug, Clone, Copy, PartialEq, Eq, Structural)]
pub enum Mode {
    /// Browsing the pattern list.
    List,
    /// Adding a new pattern.
    AddInput,
    /// Viewing the file preview.
    Preview,
}

/// Actions from the ignore screen.
#[derive(Debug, Clone, PartialEq, Eq)]
pub enum Action {
    Consumed,
    NotConsumed,
    /// Add a pattern to the source at the given index.
    AddPattern(usize, String),
    /// Remove the pattern at (source_idx, pattern_idx).
    RemovePattern(usize, usize),
    /// Refresh the preview for the source at the given index.
    RefreshPreview(usize),
}

/// Number of preview rows currently available.
pub open spec fn preview_rows(s: LoadState<Vec<PreviewEntry>>) -> nat {
    match load_data(s) {
        Some(v) => v@.len(),
        None => 0,
    }
}

/// Maximum number of scanned files a preview shows.
pub const PREVIEW_LIMIT: usize = 100;

/// Whether a key is Up or `k` (any modifiers).
pub open spec fn is_up(k: KeyEvent) -> bool {
    k.code == KeyCode::Up || k.code == KeyCode::Char('k')
}

/// Whether a key is Down or `j` (any modifiers).
pub open spec fn is_down(k: KeyEvent) -> bool {
    k.code == KeyCode::Down || k.code == KeyCode::Char('j')
}

/// Whether a key is Left or `h`.
pub open spec fn is_left(k: KeyEvent) -> bool {
    k.code == KeyCode::Left || k.code == KeyCode::Char('h')
}

/// Whether a key is Right or `l`.
pub open spec fn is_right(k: KeyEvent) -> bool {
    k.code == KeyCode::Right || k.code == KeyCode::Char('l')
}

/// Fields that List-mode navigation leaves alone.
pub open spec fn same_text_state(a: IgnoreScreen, b: IgnoreScreen) -> bool {
    &&& a.input@ == b.input@
    &&& a.cursor == b.cursor
    &&& a.preview_state == b.preview_state
}

/// Selection fields unchanged.
pub open spec fn same_selection(a: IgnoreScreen, b: IgnoreScreen) -> bool {
    &&& a.source_idx == b.source_idx
    &&& a.pattern_idx == b.pattern_idx
    &&& a.list_focus == b.list_focus
}

/// Moving to the source `idx` resets the pattern cursor, focuses the source
/// selector, scrolls the preview home and marks the preview stale.
pub open spec fn switched_source(old: IgnoreScreen, new: IgnoreScreen, idx: usize) -> bool {
    &&& new.source_idx == idx
    &&& new.pattern_idx == 0
    &&& new.list_focus == ListFocus::SourceSelector
    &&& new.preview_viewport@.offset == 0
    &&& new.preview_viewport@.height == old.preview_viewport@.height
    &&& new.preview_state == (LoadState::Stale { previous: load_data(old.preview_state) })
    &&& new.mode == old.mode
    &&& new.input@ == old.input@
    &&& new.cursor == old.cursor
    &&& new.message == old.message
}

/// Everything unchanged (the text compared by content).
pub open spec fn unchanged(a: IgnoreScreen, b: IgnoreScreen) -> bool {
    &&& same_selection(a, b)
    &&& same_text_state(a, b)
    &&& a.mode == b.mode
    &&& a.preview_viewport == b.preview_viewport
    &&& a.message == b.message
}

/// List mode: navigation between the source selector and the patterns,
/// switching sources, and the add/delete/preview commands.
pub open spec fn list_step(
    old: IgnoreScreen,
    new: IgnoreScreen,
    key: KeyEvent,
    pattern_count: usize,
    source_count: usize,
    action: Action,
) -> bool {
    if is_up(key) {
        match old.list_focus {
            ListFocus::PatternList => {
                &&& action == Action::Consumed
                &&& old.pattern_idx > 0 ==> new.pattern_idx == old.pattern_idx - 1
                    && new.list_focus == ListFocus::PatternList
                &&& old.pattern_idx == 0 ==> new.pattern_idx == 0 && new.list_focus
                    == ListFocus::SourceSelector
                &&& new.source_idx == old.source_idx
                &&& same_text_state(old, new) && new.mode == old.mode
                &&& new.preview_viewport == old.preview_viewport && new.message == old.message
            },
            ListFocus::SourceSelector => action == Action::NotConsumed && unchanged(old, new),
        }
    } else if is_down(key) {
        &&& action == Action::Consumed
        &&& new.source_idx == old.source_idx
        &&& same_text_state(old, new) && new.mode == old.mode
        &&& new.preview_viewport == old.preview_viewport && new.message == old.message
        &&& match old.list_focus {
            ListFocus::SourceSelector => new.list_focus == ListFocus::PatternList
                && new.pattern_idx == old.pattern_idx,
            ListFocus::PatternList => new.list_focus == ListFocus::PatternList
                && new.pattern_idx == if pattern_count > 0 && old.pattern_idx + 1
                < pattern_count {
                old.pattern_idx + 1
            } else {
                old.pattern_idx as int
            },
        }
    } else if is_left(key) {
        &&& action == Action::Consumed
        &&& old.source_idx > 0 ==> switched_source(old, new, (old.source_idx - 1) as usize)
        &&& old.source_idx == 0 ==> unchanged(old, new)
    } else if is_right(key) {
        &&& action == Action::Consumed
        &&& source_count > 0 && old.source_idx + 1 < source_count ==> switched_source(
            old,
            new,
            (old.source_idx + 1) as usize,
        )
        &&& !(source_count > 0 && old.source_idx + 1 < source_count) ==> unchanged(old, new)
    } else if key.code == KeyCode::Char('a') {
        &&& action == Action::Consumed
        &&& new.mode == Mode::AddInput
        &&& new.input@.len() == 0 && new.cursor == 0 && new.message is None
        &&& same_selection(old, new)
        &&& new.preview_state == old.preview_state && new.preview_viewport == old.preview_viewport
    } else if (key.code == KeyCode::Char('d') || key.code == KeyCode::Delete) && pattern_count > 0 {
        action == Action::RemovePattern(old.source_idx, old.pattern_idx) && unchanged(old, new)
    } else if key.code == KeyCode::Char('p') {
        &&& action == Action::RefreshPreview(old.source_idx)
        &&& new.mode == Mode::Preview
        &&& same_selection(old, new) && same_text_state(old, new)
        &&& new.preview_viewport == old.preview_viewport && new.message == old.message
    } else {
        action == Action::NotConsumed && unchanged(old, new)
    }
}

/// Add-pattern mode: text editing, submit and cancel.
pub open spec fn add_step(old: IgnoreScreen, new: IgnoreScreen, key: KeyEvent, action: Action) -> bool {
    let s = old.input@;
    let c = old.cursor as nat;
    let keeps = same_selection(old, new) && new.preview_state == old.preview_state
        && new.preview_viewport == old.preview_viewport;
    if is_focus_escape(key) {
        action == Action::NotConsumed && unchanged(old, new)
    } else if key.code == KeyCode::Enter {
        if s.len() == 0 {
            &&& action == Action::Consumed
            &&& new.message matches Some(m) && m.kind == MessageKind::Error && m.text@
                == "Pattern cannot be empty"@
            &&& keeps && new.mode == old.mode && new.input@ == s && new.cursor == old.cursor
        } else {
            &&& action matches Action::AddPattern(i, p) && i == old.source_idx && p@ == s
            &&& unchanged(old, new)
        }
    } else if key.code == KeyCode::Esc {
        &&& action == Action::Consumed
        &&& new.mode == Mode::List && new.message is None
        &&& keeps && new.input@ == s && new.cursor == old.cursor
    } else {
        &&& action == Action::Consumed
        &&& keeps && new.mode == old.mode && new.message == old.message
        &&& if is_ctrl_char(key, 'u') {
            new.input@.len() == 0 && new.cursor == 0
        } else {
            match key.code {
                KeyCode::Char(ch) => new.input@ == inserted(s, c, ch) && new.cursor
                    == inserted_cursor(s, c, ch),
                KeyCode::Backspace => new.input@ == backspaced(s, c) && new.cursor == if s.len()
                    > 0 && crate::text::cursor_index(s, c) > 0 {
                    backspaced_cursor(s, c)
                } else {
                    normalized(s, c)
                },
                KeyCode::Delete => new.input@ == deleted(s, c) && new.cursor == normalized(s, c),
                KeyCode::Left => new.input@ == s && new.cursor == left_of(s, c),
                KeyCode::Right => new.input@ == s && new.cursor == right_of(s, c),
                KeyCode::Home => new.input@ == s && new.cursor == 0,
                KeyCode::End => new.input@ == s && new.cursor == byte_len(s),
                _ => new.input@ == s && new.cursor == old.cursor,
            }
        }
    }
}

/// Preview mode: scrolling, refresh, and leaving the preview.
pub open spec fn preview_step(old: IgnoreScreen, new: IgnoreScreen, key: KeyEvent, action: Action) -> bool {
    let rows = preview_rows(old.preview_state);
    let vp = old.preview_viewport@;
    let page = if vp.height == 0 { 1nat } else { vp.height };
    let scrolled = same_selection(old, new) && same_text_state(old, new) && new.mode == old.mode
        && new.message == old.message && new.preview_viewport@.height == vp.height;
    if is_focus_escape(key) {
        action == Action::NotConsumed && unchanged(old, new)
    } else if key.code == KeyCode::Esc || key.code == KeyCode::Char('p') {
        &&& action == Action::Consumed && new.mode == Mode::List
        &&& same_selection(old, new) && same_text_state(old, new)
        &&& new.preview_viewport == old.preview_viewport && new.message == old.message
    } else if key.code == KeyCode::Char('r') {
        action == Action::RefreshPreview(old.source_idx) && unchanged(old, new)
    } else if key.code == KeyCode::Char('q') {
        action == Action::NotConsumed && unchanged(old, new)
    } else if is_up(key) {
        action == Action::Consumed && scrolled && new.preview_viewport@.offset == if vp.offset
            >= 1 {
            (vp.offset - 1) as nat
        } else {
            0
        }
    } else if is_down(key) {
        action == Action::Consumed && scrolled && new.preview_viewport@.offset == min_nat(
            vp.offset + 1,
            max_offset_spec(vp.height, rows),
        )
    } else if key.code == KeyCode::PageUp {
        action == Action::Consumed && scrolled && new.preview_viewport@.offset == if vp.offset
            >= page {
            (vp.offset - page) as nat
        } else {
            0
        }
    } else if key.code == KeyCode::PageDown {
        action == Action::Consumed && scrolled && new.preview_viewport@.offset == min_nat(
            min_nat(vp.offset + page, usize::MAX as nat),
            max_offset_spec(vp.height, rows),
        )
    } else if key.code == KeyCode::Home {
        action == Action::Consumed && scrolled && new.preview_viewport@.offset == 0
    } else if key.code == KeyCode::End {
        action == Action::Consumed && scrolled && new.preview_viewport@.offset == max_offset_spec(
            vp.height,
            rows,
        )
    } else {
        action == Action::Consumed && unchanged(old, new)
    }
}

/// The ignore editor's answer to a key, with `pattern_count` patterns in
/// the selected source and `source_count` sources, in its current mode.
pub open spec fn answers_key(
    s: IgnoreScreen,
    key: KeyEvent,
    pattern_count: usize,
    source_count: usize,
    t: IgnoreScreen,
    action: Action,
) -> bool {
    match s.mode {
        Mode::List => list_step(s, t, key, pattern_count, source_count, action),
        Mode::AddInput => add_step(s, t, key, action),
        Mode::Preview => preview_step(s, t, key, action),
    }
}

impl IgnoreScreen {
    pub fn new() -> (s: Self)
        ensures
            s.source_idx == 0,
            s.mode == Mode::List,
            s.pattern_idx == 0,
            s.list_focus == ListFocus::SourceSelector,
            s.input@.len() == 0,
            s.cursor == 0,
            s.preview_state is NotLoaded,
            s.preview_viewport@.offset == 0,
            s.preview_viewport@.height == 1,
            s.message is None,
    {
        IgnoreScreen {
            source_idx: 0,
            mode: Mode::List,
            pattern_idx: 0,
            list_focus: ListFocus::SourceSelector,
            input: String::new(),
            cursor: 0,
            preview_state: LoadState::NotLoaded,
            preview_viewport: Viewport::new(),
            message: None,
        }
    }

    /// Replace preview data while preserving and clamping its viewport.
    pub fn replace_preview(&mut self, preview: Vec<PreviewEntry>)
        ensures
            final(self).preview_state == LoadState::Loaded(preview),
            final(self).preview_viewport@.height == old(self).preview_viewport@.height,
            final(self).preview_viewport@.offset == min_nat(
                old(self).preview_viewport@.offset,
                max_offset_spec(old(self).preview_viewport@.height, preview.len() as nat),
            ),
            final(self).mode == old(self).mode,
            same_selection(*old(self), *final(self)),
            *final(self) == (IgnoreScreen {
                preview_state: final(self).preview_state,
                preview_viewport: final(self).preview_viewport,
                ..*old(self)
            }),
    {
        let len = preview.len();
        self.preview_state = LoadState::Loaded(preview);
        self.preview_viewport.clamp(len);
    }

    /// The preview rows currently available (possibly from an earlier run).
    pub fn preview(&self) -> (r: Option<&Vec<PreviewEntry>>)
        ensures
            match (r, load_data(self.preview_state)) {
                (Some(a), Some(b)) => *a == b,
                (None, None) => true,
                _ => false,
            },
    {
        self.preview_state.data()
    }

    /// Number of preview rows currently available.
    pub fn preview_len(&self) -> (n: usize)
        ensures
            n == preview_rows(self.preview_state),
    {
        match self.preview_state.data() {
            Some(v) => v.len(),
            None => 0,
        }
    }

    pub fn mark_preview_stale(&mut self)
        ensures
            *final(self) == (IgnoreScreen {
                preview_state: LoadState::Stale { previous: load_data(old(self).preview_state) },
                ..*old(self)
            }),
            final(self).preview_viewport == old(self).preview_viewport,
            final(self).mode == old(self).mode,
            final(self).message == old(self).message,
            same_selection(*old(self), *final(self)),
            final(self).input@ == old(self).input@,
            final(self).cursor == old(self).cursor,
    {
        self.preview_state.invalidate();
    }

    /// Update the preview viewport from the actual render area.
    pub fn set_preview_viewport_height(&mut self, height: usize)
        ensures
            final(self).preview_viewport@.height == height,
            final(self).preview_viewport@.offset == min_nat(
                old(self).preview_viewport@.offset,
                max_offset_spec(height as nat, preview_rows(old(self).preview_state)),
            ),
            final(self).preview_state == old(self).preview_state,
            final(self).mode == old(self).mode,
            same_selection(*old(self), *final(self)),
            *final(self) == (IgnoreScreen { preview_viewport: final(self).preview_viewport, ..*old(self) }),
    {
        let len = self.preview_len();
        self.preview_viewport.set_height(height, len);
    }

    fn switch_source(&mut self, idx: usize)
        ensures
            switched_source(*old(self), *final(self), idx),
    {
        self.source_idx = idx;
        self.pattern_idx = 0;
        self.list_focus = ListFocus::SourceSelector;
        self.preview_viewport.home();
        self.mark_preview_stale();
    }

    fn handle_list_key(&mut self, key: KeyEvent, pattern_count: usize, source_count: usize) -> (action: Action)
        requires
            old(self).mode == Mode::List,
        ensures
            list_step(*old(self), *final(self), key, pattern_count, source_count, action),
    {
        match key.code {
            KeyCode::Up | KeyCode::Char('k') => match self.list_focus {
                ListFocus::PatternList => {
                    if self.pattern_idx > 0 {
                        self.pattern_idx = self.pattern_idx - 1;
                    } else {
                        self.list_focus = ListFocus::SourceSelector;
                    }
                    Action::Consumed
                },
                ListFocus::SourceSelector => Action::NotConsumed,
            },
            KeyCode::Down | KeyCode::Char('j') => match self.list_focus {
                ListFocus::SourceSelector => {
                    self.list_focus = ListFocus::PatternList;
                    Action::Consumed
                },
                ListFocus::PatternList => {
                    if pattern_count > 0 && self.pattern_idx < pattern_count - 1 {
                        self.pattern_idx = self.pattern_idx + 1;
                    }
                    Action::Consumed
                },
            },
            KeyCode::Left | KeyCode::Char('h') => {
                if self.source_idx > 0 {
                    let idx = self.source_idx - 1;
                    self.switch_source(idx);
                }
                Action::Consumed
            },
            KeyCode::Right | KeyCode::Char('l') => {
                if source_count > 0 && self.source_idx < source_count - 1 {
                    let idx = self.source_idx + 1;
                    self.switch_source(idx);
                }
                Action::Consumed
            },
            KeyCode::Char('a') => {
                self.mode = Mode::AddInput;
                self.input = String::new();
                self.cursor = 0;
                self.message = None;
                Action::Consumed
            },
            KeyCode::Char('d') if pattern_count > 0 => {
                Action::RemovePattern(self.source_idx, self.pattern_idx)
            },
            KeyCode::Delete if pattern_count > 0 => {
                Action::RemovePattern(self.source_idx, self.pattern_idx)
            },
            KeyCode::Char('p') => {
                self.mode = Mode::Preview;
                Action::RefreshPreview(self.source_idx)
            },
            _ => Action::NotConsumed,
        }
    }

    fn handle_add_key(&mut self, key: KeyEvent) -> (action: Action)
        requires
            old(self).mode == Mode::AddInput,
            byte_len(old(self).input@) + 4 <= usize::MAX,
        ensures
            add_step(*old(self), *final(self), key, action),
    {
        if key.focus_escape() {
            return Action::NotConsumed;
        }
        match key.code {
            KeyCode::Enter => {
                if self.input.as_str().is_empty() {
                    self.message = Some(
                        Message { text: owned("Pattern cannot be empty"), kind: MessageKind::Error },
                    );
                    Action::Consumed
                } else {
                    let pattern = self.input.clone();
                    Action::AddPattern(self.source_idx, pattern)
                }
            },
            KeyCode::Esc => {
                self.mode = Mode::List;
                self.message = None;
                Action::Consumed
            },
            _ => {
                if key.ctrl_char('u') {
                    self.input = String::new();
                    self.cursor = 0;
                    return Action::Consumed;
                }
                match key.code {
                    KeyCode::Char(c) => {
                        insert_char(&mut self.input, &mut self.cursor, c);
                    },
                    KeyCode::Backspace => {
                        backspace(&mut self.input, &mut self.cursor);
                    },
                    KeyCode::Delete => {
                        delete(&mut self.input, &mut self.cursor);
                    },
                    KeyCode::Left => {
                        move_left(self.input.as_str(), &mut self.cursor);
                    },
                    KeyCode::Right => {
                        move_right(self.input.as_str(), &mut self.cursor);
                    },
                    KeyCode::Home => {
                        self.cursor = 0;
                    },
                    KeyCode::End => {
                        self.cursor = crate::chars::byte_length(self.input.as_str());
                    },
                    _ => {},
                }
                Action::Consumed
            },
        }
    }

    fn handle_preview_key(&mut self, key: KeyEvent) -> (action: Action)
        requires
            old(self).mode == Mode::Preview,
        ensures
            preview_step(*old(self), *final(self), key, action),
    {
        if key.focus_escape() {
            return Action::NotConsumed;
        }
        match key.code {
            KeyCode::Esc | KeyCode::Char('p') => {
                self.mode = Mode::List;
                Action::Consumed
            },
            KeyCode::Char('r') => Action::RefreshPreview(self.source_idx),
            KeyCode::Char('q') => Action::NotConsumed,
            KeyCode::Up | KeyCode::Char('k') => {
                self.preview_viewport.scroll_up(1);
                Action::Consumed
            },
            KeyCode::Down | KeyCode::Char('j') => {
                let len = self.preview_len();
                self.preview_viewport.scroll_down(1, len);
                Action::Consumed
            },
            KeyCode::PageUp => {
                let page = self.preview_viewport.page_size();
                self.preview_viewport.scroll_up(page);
                Action::Consumed
            },
            KeyCode::PageDown => {
                let len = self.preview_len();
                let page = self.preview_viewport.page_size();
                self.preview_viewport.scroll_down(page, len);
                Action::Consumed
            },
            KeyCode::Home => {
                self.preview_viewport.home();
                Action::Consumed
            },
            KeyCode::End => {
                let len = self.preview_len();
                self.preview_viewport.end(len);
                Action::Consumed
            },
            _ => Action::Consumed,
        }
    }

    /// Handle a key event for this screen.
    pub fn handle_key(&mut self, key: KeyEvent, pattern_count: usize, source_count: usize) -> (action: Action)
        requires
            byte_len(old(self).input@) + 4 <= usize::MAX,
        ensures
            answers_key(*old(self), key, pattern_count, source_count, *final(self), action),
    {
        match self.mode {
            Mode::List => self.handle_list_key(key, pattern_count, source_count),
            Mode::AddInput => self.handle_add_key(key),
            Mode::Preview => self.handle_preview_key(key),
        }
    }

    /// Build the preview for a source from its scan: `None` when the source
    /// does not exist, otherwise the scanned files (at most the first
    /// `PREVIEW_LIMIT`, skipping the source root itself).
    pub fn generate_preview(source_path: &str, scan: Option<Vec<ScannedEntry>>) -> (r: Vec<PreviewEntry>)
        ensures
            match scan {
                None => r.len() == 1 && r[0].path@ == "(source '"@ + source_path@
                    + "' does not exist)"@ && !r[0].ignored && r[0].matched_by is None
                    && !r[0].secret_warning,
                Some(entries) => preview_of_scan(entries@, r@),
            },
    {
        match scan {
            None => {
                let mut path = owned("(source '");
                push_str(&mut path, source_path);
                push_str(&mut path, "' does not exist)");
                let mut r = Vec::new();
                r.push(PreviewEntry { path, ignored: false, matched_by: None, secret_warning: false });
                r
            },
            Some(entries) => {
                let n = if entries.len() < PREVIEW_LIMIT { entries.len() } else { PREVIEW_LIMIT };
                let mut r: Vec<PreviewEntry> = Vec::new();
                let mut i: usize = 0;
                while i < n
                    invariant
                        n <= entries.len(),
                        n == if entries.len() < PREVIEW_LIMIT { entries.len() } else { PREVIEW_LIMIT },
                        i <= n,
                        preview_of_scan_prefix(entries@, i as int, r@),
                    decreases n - i,
                {
                    let e = &entries[i];
                    if !e.path.as_str().is_empty() {
                        let ghost before = r@;
                        r.push(
                            PreviewEntry {
                                path: e.path.clone(),
                                ignored: e.matched_by.is_some(),
                                matched_by: e.matched_by.clone(),
                                secret_warning: e.secret_warning,
                            },
                        );
                        assert(kept_scan(entries@.take(i + 1)) =~= kept_scan(entries@.take(i as int)).push(entries@[i as int]))
                            by {
                            assert(entries@.take(i + 1).drop_last() =~= entries@.take(i as int));
                        }
                    } else {
                        assert(kept_scan(entries@.take(i + 1)) =~= kept_scan(entries@.take(i as int))) by {
                            assert(entries@.take(i + 1).drop_last() =~= entries@.take(i as int));
                        }
                    }
                    i = i + 1;
                }
                r
            },
        }
    }
}

/// The scanned entries with a non-empty path, in order.
pub open spec fn kept_scan(s: Seq<ScannedEntry>) -> Seq<ScannedEntry>
    decreases s.len(),
{
    if s.len() == 0 {
        s
    } else if s.last().path@.len() == 0 {
        kept_scan(s.drop_last())
    } else {
        kept_scan(s.drop_last()).push(s.last())
    }
}

/// Whether preview entry `p` shows scanned entry `e`.
pub open spec fn shows(e: ScannedEntry, p: PreviewEntry) -> bool {
    &&& p.path@ == e.path@
    &&& p.ignored == (e.matched_by is Some)
    &&& p.matched_by == e.matched_by
    &&& p.secret_warning == e.secret_warning
}

/// `r` shows the non-empty entries among the first `n` scanned ones.
pub open spec fn preview_of_scan_prefix(s: Seq<ScannedEntry>, n: int, r: Seq<PreviewEntry>) -> bool {
    let kept = kept_scan(s.take(n));
    &&& r.len() == kept.len()
    &&& forall|i: int| 0 <= i < r.len() ==> shows(kept[i], #[trigger] r[i])
}

/// `r` shows the non-empty entries among the first `PREVIEW_LIMIT` scanned.
pub open spec fn preview_of_scan(s: Seq<ScannedEntry>, r: Seq<PreviewEntry>) -> bool {
    preview_of_scan_prefix(
        s,
        if s.len() < PREVIEW_LIMIT { s.len() as int } else { PREVIEW_LIMIT as int },
        r,
    )
}

} // verus!
