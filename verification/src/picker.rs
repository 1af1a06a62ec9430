//! Filesystem picker: key bindings and entry presentation.
//!
//! The picker translates keys into browser navigation commands and decides
//! how each entry is labelled. The browser performs the navigation and the
//! caller renders the panes.

use vstd::prelude::*;

use crate::keys::{is_plain, KeyCode, KeyEvent, CONTROL, NO_MODIFIERS};
use crate::paths::PathKey;
use crate::selection::CheckState;
use crate::text::{truncate, truncated};

verus! {

/// Kind of a filesystem entry in the browser.
#[derive(Debug, Clone, Copy, PartialEq, Eq, Structural)]
pub enum EntryKind {
    Directory,
    File,
    Symlink,
    Special,
    Error,
}

/// The entry the browser handed out on a select.
#[derive(Debug, Clone)]
pub struct Selection {
    /// Absolute path of the entry.
    pub path: PathKey,
    pub kind: EntryKind,
}

/// Caller-specific presentation for the shared browser.
#[derive(Debug, Clone, Copy, PartialEq, Eq)]
pub struct Presentation {
    /// Caller label identifying the selection context without duplicating footer help.
    pub label: &'static str,
    /// Render ASCII-only entry icons for limited terminals.
    pub ascii: bool,
}

impl Presentation {
    /// The repository chooser's presentation.
    pub fn repository() -> (p: Self)
        ensures
            p.label@ == "Repository"@,
            !p.ascii,
    {
        Presentation { label: "Repository", ascii: false }
    }

    /// The source chooser's presentation.
    pub fn sources() -> (p: Self)
        ensures
            p.label@ == "Sources"@,
            !p.ascii,
    {
        Presentation { label: "Sources", ascii: false }
    }

    /// The presentation of a browser without a caller label.
    pub fn standard() -> (p: Self)
        ensures
            p.label@ == "Browser"@,
            !p.ascii,
    {
        Presentation { label: "Browser", ascii: false }
    }

    /// The same presentation with ASCII-only icons.
    pub fn ascii_safe(self) -> (p: Self)
        ensures
            p.label == self.label,
            p.ascii,
    {
        Presentation { label: self.label, ascii: true }
    }
}

/// Actions that the picker can produce in response to key events.
#[derive(Debug)]
pub enum PickerAction {
    /// Key was consumed by picker navigation (no external action needed).
    Consumed,
    /// User pressed Space to select the current entry.
    Select(Result<Selection, String>),
    /// User pressed Escape to cancel/close the picker.
    Cancel,
    /// Key was not consumed by the picker.
    NotConsumed,
}

/// The browser operation a key asks for.
#[derive(Debug, Clone, Copy, PartialEq, Eq, Structural)]
pub enum BrowserCommand {
    MoveUp,
    MoveDown,
    EnterSelected,
    GoParent,
    TrySelect,
    MoveHome,
    MoveEnd,
    PageUp(usize),
    PageDown(usize),
    Refresh,
    Cancel,
    Ignore,
}

/// Rows per page when the viewport height is unknown.
pub const DEFAULT_VIEWPORT: usize = 20;

/// The browser command bound to a key: plain arrows and vi keys navigate,
/// Space selects, Ctrl+R refreshes, Escape cancels.
pub open spec fn command_for(key: KeyEvent, viewport_height: usize) -> BrowserCommand {
    let vh = if viewport_height == 0 { DEFAULT_VIEWPORT } else { viewport_height };
    if key.modifiers.bits == NO_MODIFIERS {
        match key.code {
            KeyCode::Up | KeyCode::Char('k') => BrowserCommand::MoveUp,
            KeyCode::Down | KeyCode::Char('j') => BrowserCommand::MoveDown,
            KeyCode::Right | KeyCode::Char('l') | KeyCode::Enter => BrowserCommand::EnterSelected,
            KeyCode::Left | KeyCode::Char('h') => BrowserCommand::GoParent,
            KeyCode::Char(' ') => BrowserCommand::TrySelect,
            KeyCode::Home => BrowserCommand::MoveHome,
            KeyCode::End => BrowserCommand::MoveEnd,
            KeyCode::PageUp => BrowserCommand::PageUp(vh),
            KeyCode::PageDown => BrowserCommand::PageDown(vh),
            KeyCode::Esc => BrowserCommand::Cancel,
            _ => BrowserCommand::Ignore,
        }
    } else if key.modifiers.bits == CONTROL && key.code == KeyCode::Char('r') {
        BrowserCommand::Refresh
    } else {
        BrowserCommand::Ignore
    }
}

/// Translate a key event into the browser command it asks for.
pub fn handle_key(key: KeyEvent, viewport_height: usize) -> (c: BrowserCommand)
    ensures
        c == command_for(key, viewport_height),
{
    let vh = if viewport_height == 0 { DEFAULT_VIEWPORT } else { viewport_height };
    if key.modifiers.bits == NO_MODIFIERS {
        match key.code {
            KeyCode::Up | KeyCode::Char('k') => BrowserCommand::MoveUp,
            KeyCode::Down | KeyCode::Char('j') => BrowserCommand::MoveDown,
            KeyCode::Right | KeyCode::Char('l') | KeyCode::Enter => BrowserCommand::EnterSelected,
            KeyCode::Left | KeyCode::Char('h') => BrowserCommand::GoParent,
            KeyCode::Char(' ') => BrowserCommand::TrySelect,
            KeyCode::Home => BrowserCommand::MoveHome,
            KeyCode::End => BrowserCommand::MoveEnd,
            KeyCode::PageUp => BrowserCommand::PageUp(vh),
            KeyCode::PageDown => BrowserCommand::PageDown(vh),
            KeyCode::Esc => BrowserCommand::Cancel,
            _ => BrowserCommand::Ignore,
        }
    } else if key.modifiers.bits == CONTROL && key.code == KeyCode::Char('r') {
        BrowserCommand::Refresh
    } else {
        BrowserCommand::Ignore
    }
}

/// The picker's answer once the browser has carried out `command`:
/// `moved` tells whether a move up happened (at the top it does not, and
/// the key goes to the parent), `selected` is what a select handed out.
pub fn finish_command(command: BrowserCommand, moved: bool, selected: Option<Result<Selection, String>>) -> (a: PickerAction)
    ensures
        match command {
            BrowserCommand::MoveUp => if moved { a is Consumed } else { a is NotConsumed },
            BrowserCommand::TrySelect => match selected {
                Some(r) => a == PickerAction::Select(r),
                None => a is NotConsumed,
            },
            BrowserCommand::Cancel => a is Cancel,
            BrowserCommand::Ignore => a is NotConsumed,
            _ => a is Consumed,
        },
{
    match command {
        BrowserCommand::MoveUp => if moved {
            PickerAction::Consumed
        } else {
            PickerAction::NotConsumed
        },
        BrowserCommand::TrySelect => match selected {
            Some(r) => PickerAction::Select(r),
            None => PickerAction::NotConsumed,
        },
        BrowserCommand::Cancel => PickerAction::Cancel,
        BrowserCommand::Ignore => PickerAction::NotConsumed,
        _ => PickerAction::Consumed,
    }
}

/// A short icon for an entry.
pub fn entry_icon(kind: EntryKind, executable: bool, ascii: bool) -> (s: &'static str)
    ensures
        s@ == if ascii {
            match kind {
                EntryKind::Directory => "D"@,
                EntryKind::Symlink => "L"@,
                EntryKind::File => if executable { "*"@ } else { "F"@ },
                EntryKind::Special => "!"@,
                EntryKind::Error => "x"@,
            }
        } else {
            match kind {
                EntryKind::Directory => "▸"@,
                EntryKind::Symlink => "↪"@,
                EntryKind::File => if executable { "*"@ } else { "·"@ },
                EntryKind::Special => "!"@,
                EntryKind::Error => "x"@,
            }
        },
{
    if ascii {
        match kind {
            EntryKind::Directory => "D",
            EntryKind::Symlink => "L",
            EntryKind::File => if executable { "*" } else { "F" },
            EntryKind::Special => "!",
            EntryKind::Error => "x",
        }
    } else {
        match kind {
            EntryKind::Directory => "▸",
            EntryKind::Symlink => "↪",
            EntryKind::File => if executable { "*" } else { "·" },
            EntryKind::Special => "!",
            EntryKind::Error => "x",
        }
    }
}

/// The type line of the preview pane.
pub fn kind_label(kind: EntryKind) -> (s: &'static str)
    ensures
        s@ == match kind {
            EntryKind::File => "Regular file"@,
            EntryKind::Symlink => "Symbolic link"@,
            EntryKind::Special => "Special file"@,
            EntryKind::Error => "Unreadable"@,
            EntryKind::Directory => "Directory"@,
        },
{
    match kind {
        EntryKind::File => "Regular file",
        EntryKind::Symlink => "Symbolic link",
        EntryKind::Special => "Special file",
        EntryKind::Error => "Unreadable",
        EntryKind::Directory => "Directory",
    }
}

/// The checkbox drawn before an entry of the multi-select browser.
pub fn check_indicator(state: CheckState) -> (s: &'static str)
    ensures
        s@ == match state {
            CheckState::Explicit => "[●]"@,
            CheckState::Inherited => "[◉]"@,
            CheckState::Unchecked => "[ ]"@,
        },
{
    match state {
        CheckState::Explicit => "[●]",
        CheckState::Inherited => "[◉]",
        CheckState::Unchecked => "[ ]",
    }
}

/// Truncate a name to fit within a given width.
pub fn truncate_name(name: &str, max_width: usize) -> (r: String)
    ensures
        r@ == truncated(name@, max_width as nat),
{
    truncate(name, max_width)
}

/// Widths, in percent, of the parent, current and preview panes for an
/// area `width` cells wide: three panes from 80 cells, no parent pane from
/// 40, the current pane alone below that.
pub fn pane_percentages(width: u16) -> (r: (u16, u16, u16))
    ensures
        r == if width >= 80 {
            (20u16, 50u16, 30u16)
        } else if width >= 40 {
            (0u16, 60u16, 40u16)
        } else {
            (0u16, 100u16, 0u16)
        },
        r.0 + r.1 + r.2 == 100,
{
    if width >= 80 {
        (20, 50, 30)
    } else if width >= 40 {
        (0, 60, 40)
    } else {
        (0, 100, 0)
    }
}


/// The vi keys move like the arrows: plain `j` asks for the same command as
/// Down, which moves the selection down, and plain `k` for the same as Up,
/// which moves it up; whatever the viewport height.
pub proof fn lemma_vi_keys_move_like_arrows(key: KeyEvent, viewport_height: usize)
    requires
        key.modifiers.bits == NO_MODIFIERS,
    ensures
        key.code == KeyCode::Char('j') ==> command_for(key, viewport_height) == BrowserCommand::MoveDown
            && command_for(key, viewport_height) == command_for(
            KeyEvent { code: KeyCode::Down, ..key },
            viewport_height,
        ),
        key.code == KeyCode::Char('k') ==> command_for(key, viewport_height) == BrowserCommand::MoveUp
            && command_for(key, viewport_height) == command_for(
            KeyEvent { code: KeyCode::Up, ..key },
            viewport_height,
        ),
        key.code == KeyCode::Down ==> command_for(key, viewport_height) == BrowserCommand::MoveDown,
        key.code == KeyCode::Up ==> command_for(key, viewport_height) == BrowserCommand::MoveUp,
{
}


/// The other browser keys, with their aliases: `l`, Right and Enter all
/// enter the selected entry; `h` and Left go to the parent; space tries to
/// select; Home and End jump to the ends; Page Up and Page Down move by the
/// viewport height (20 rows when it is unknown); Esc cancels; Control-R
/// refreshes.
pub proof fn lemma_picker_bindings(key: KeyEvent, viewport_height: usize)
    ensures
        ({
            let c = command_for(key, viewport_height);
            let rows = if viewport_height == 0 { 20 } else { viewport_height };
            &&& key.modifiers.bits == NO_MODIFIERS ==> {
                &&& (key.code == KeyCode::Char('l') || key.code == KeyCode::Right || key.code == KeyCode::Enter) ==> c
                    == BrowserCommand::EnterSelected
                &&& (key.code == KeyCode::Char('h') || key.code == KeyCode::Left) ==> c == BrowserCommand::GoParent
                &&& key.code == KeyCode::Char(' ') ==> c == BrowserCommand::TrySelect
                &&& key.code == KeyCode::Home ==> c == BrowserCommand::MoveHome
                &&& key.code == KeyCode::End ==> c == BrowserCommand::MoveEnd
                &&& key.code == KeyCode::PageUp ==> c == BrowserCommand::PageUp(rows)
                &&& key.code == KeyCode::PageDown ==> c == BrowserCommand::PageDown(rows)
                &&& key.code == KeyCode::Esc ==> c == BrowserCommand::Cancel
            }
            &&& key.modifiers.bits == CONTROL && key.code == KeyCode::Char('r') ==> c == BrowserCommand::Refresh
            &&& key.modifiers.bits != NO_MODIFIERS && !(key.modifiers.bits == CONTROL && key.code == KeyCode::Char('r'))
                ==> c == BrowserCommand::Ignore
        }),
{
}

} // verus!
