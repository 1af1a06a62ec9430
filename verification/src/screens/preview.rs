//! Backup preview screen state.
//!
//! Shows the dry-run output of the backup planner: what would be added,
//! modified, deleted, excluded, and any warnings.

use vstd::prelude::*;

use crate::keys::{KeyCode, KeyEvent};
use crate::task::LoadState;

verus! {

/// The state of the backup preview screen.
#[derive(Debug)]
pub struct PreviewScreen {
    /// Lifecycle and last usable backup preview.
    pub load_state: LoadState<PreviewData>,
    /// Scroll offset for viewing long lists.
    pub scroll: usize,
}

/// Processed preview data ready for display.
#[derive(Debug, Clone)]
pub struct PreviewData {
    /// Summary counts.
    pub additions: usize,
    pub modifications: usize,
    pub deletions: usize,
    pub exclusions: usize,
    pub warnings: usize,
    /// Flattened list of entries for display.
    pub entries: Vec<PreviewEntry>,
}

/// A single entry in the preview display.
#[derive(Debug, Clone)]
pub struct PreviewEntry {
    /// The kind of change.
    pub kind: EntryKind,
    /// Display path (relative to repository/home/).
    pub path: String,
    /// Additional detail (e.g., "content changed", "newly ignored").
    pub detail: Option<String>,
}

/// Kind of preview entry.
#[derive(Debug, Clone, Copy, PartialEq, Eq, Structural)]
pub enum EntryKind {
    Addition,
    Modification,
    Deletion,
    Exclusion,
    Warning,
}

/// Actions from the preview screen.
#[derive(Debug, Clone, Copy, PartialEq, Eq, Structural)]
pub enum Action {
    Consumed,
    NotConsumed,
    /// Refresh the preview.
    Refresh,
    /// Execute the backup.
    RunBackup,
    /// Push pending commits to remote.
    Push,
}

impl EntryKind {
    /// Single-character prefix for display.
    pub fn prefix(self) -> (s: &'static str)
        ensures
            s@ == match self {
                EntryKind::Addition => "+"@,
                EntryKind::Modification => "~"@,
                EntryKind::Deletion => "-"@,
                EntryKind::Exclusion => "i"@,
                EntryKind::Warning => "!"@,
            },
    {
        match self {
            EntryKind::Addition => "+",
            EntryKind::Modification => "~",
            EntryKind::Deletion => "-",
            EntryKind::Exclusion => "i",
            EntryKind::Warning => "!",
        }
    }
}

impl PreviewScreen {
    pub fn new() -> (s: Self)
        ensures
            s.load_state is NotLoaded,
            s.scroll == 0,
    {
        PreviewScreen { load_state: LoadState::NotLoaded, scroll: 0 }
    }

    /// Handle a key event: `r` refreshes, `b` runs a backup, `p` pushes,
    /// and the arrows scroll (Up at the top hands focus back).
    pub fn handle_key(&mut self, key: KeyEvent) -> (action: Action)
        requires
            old(self).scroll < usize::MAX,
        ensures
            final(self).load_state == old(self).load_state,
            match key.code {
                KeyCode::Char('r') => action == Action::Refresh && final(self).scroll == old(self).scroll,
                KeyCode::Char('b') => action == Action::RunBackup && final(self).scroll
                    == old(self).scroll,
                KeyCode::Char('p') => action == Action::Push && final(self).scroll == old(self).scroll,
                KeyCode::Up | KeyCode::Char('k') => if old(self).scroll > 0 {
                    action == Action::Consumed && final(self).scroll == old(self).scroll - 1
                } else {
                    action == Action::NotConsumed && final(self).scroll == 0
                },
                KeyCode::Down | KeyCode::Char('j') => action == Action::Consumed && final(self).scroll
                    == old(self).scroll + 1,
                KeyCode::Home => action == Action::Consumed && final(self).scroll == 0,
                _ => action == Action::NotConsumed && final(self).scroll == old(self).scroll,
            },
    {
        match key.code {
            KeyCode::Char('r') => Action::Refresh,
            KeyCode::Char('b') => Action::RunBackup,
            KeyCode::Char('p') => Action::Push,
            KeyCode::Up | KeyCode::Char('k') => {
                if self.scroll > 0 {
                    self.scroll = self.scroll - 1;
                    Action::Consumed
                } else {
                    Action::NotConsumed
                }
            },
            KeyCode::Down | KeyCode::Char('j') => {
                self.scroll = self.scroll + 1;
                Action::Consumed
            },
            KeyCode::Home => {
                self.scroll = 0;
                Action::Consumed
            },
            _ => Action::NotConsumed,
        }
    }
}

} // verus!
