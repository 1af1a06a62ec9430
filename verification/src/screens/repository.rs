//! Repository selection screen state.
//!
//! Allows the user to browse the filesystem or input a repository path,
//! have it validated (git structure, ownership), and confirm initialization
//! or attachment. The filesystem browser, the git checks and the file
//! system queries run in the caller; this screen owns the interaction.

use vstd::prelude::*;

use crate::chars::{byte_len, byte_length, owned, push_char, push_str, same_str};
use crate::keys::{is_focus_escape, is_ctrl_char, KeyCode, KeyEvent, NO_MODIFIERS};
use crate::paths::{components, join_path, join_slash, joined_path, parts_of, PathKey};
use crate::picker::{EntryKind, PickerAction, Selection};
use crate::task::LoadState;
use crate::text::{edit, edited, edited_cursor, edit_changes};

verus! {

/// The interaction mode for repository selection.
#[derive(Debug, Clone, Copy, PartialEq, Eq, Structural)]
pub enum RepoMode {
    /// Browser-based filesystem navigation (default).
    Browser,
    /// Text input for direct path entry.
    TextInput,
    /// Namespace management input.
    NamespaceInput,
    /// Discovered namespace list and lifecycle controls.
    Namespaces,
}

/// Summary of ownership classification for display.
#[derive(Debug, Clone)]
pub enum OwnershipInfo {
    /// New namespace — can be initialized.
    New,
    /// Already owned — can be attached.
    Owned { sources: Vec<String> },
    /// Invalid manifest — cannot use.
    InvalidManifest(String),
    /// Ambiguous content — cannot use.
    Ambiguous(String),
}

/// Whether an ownership state lets the user go on (after confirming).
pub open spec fn usable(o: OwnershipInfo) -> bool {
    o is New || o is Owned
}

impl OwnershipInfo {
    /// Whether the user needs to confirm before proceeding.
    pub fn needs_confirmation(&self) -> (r: bool)
        ensures
            r == usable(*self),
    {
        match self {
            OwnershipInfo::New | OwnershipInfo::Owned { .. } => true,
            _ => false,
        }
    }

    /// Whether the state allows proceeding at all.
    pub fn can_proceed(&self) -> (r: bool)
        ensures
            r == usable(*self),
    {
        match self {
            OwnershipInfo::New | OwnershipInfo::Owned { .. } => true,
            _ => false,
        }
    }

    pub fn label(&self) -> (s: &'static str)
        ensures
            s@ == match *self {
                OwnershipInfo::New => "New"@,
                OwnershipInfo::Owned { .. } => "Owned"@,
                OwnershipInfo::InvalidManifest(_) => "Invalid"@,
                OwnershipInfo::Ambiguous(_) => "Ambiguous"@,
            },
    {
        match self {
            OwnershipInfo::New => "New",
            OwnershipInfo::Owned { .. } => "Owned",
            OwnershipInfo::InvalidManifest(_) => "Invalid",
            OwnershipInfo::Ambiguous(_) => "Ambiguous",
        }
    }
}

/// A namespace discovered directly beneath a repository root.
#[derive(Debug, Clone)]
pub struct NamespaceSummary {
    pub name: String,
    pub ownership: OwnershipInfo,
    pub active: bool,
}

/// Information about a validated repository.
#[derive(Debug, Clone)]
pub struct RepoInfo {
    /// Absolute path to the repository.
    pub path: PathKey,
    /// The current branch.
    pub branch: String,
    /// The ownership state description.
    pub ownership: OwnershipInfo,
}

/// State of the confirmation dialog.
#[derive(Debug, Clone, Copy, PartialEq, Eq, Structural)]
pub enum ConfirmState {
    /// No dialog active.
    Idle,
    /// Asking "Initialize this repository?"
    AskInitialize,
    /// Asking "Attach to this repository?"
    AskAttach,
    /// The user confirmed and the operation succeeded.
    Done,
}

/// The namespace operation being entered.
#[derive(Debug, Clone, Copy, PartialEq, Eq, Structural)]
pub enum NamespaceAction {
    Idle,
    SelectOrCreate,
    Rename,
    Delete,
}

/// The result of handling a key in the repo screen.
#[derive(Debug, Clone, Copy, PartialEq, Eq, Structural)]
pub enum KeyResult {
    /// The key was consumed (input edited, dialog handled).
    Consumed,
    /// The user wants to validate the current path.
    Validate,
    /// The user submitted a namespace operation.
    Namespace,
    /// The user confirmed in the dialog.
    Confirm,
    /// The key was not consumed (pass to parent handler).
    NotConsumed,
    /// Space in the browser: the browser should hand out the entry under
    /// its cursor, for `select_outcome`.
    SelectEntry,
    /// The key belongs to the filesystem picker; its action comes back
    /// through `picker_outcome`.
    ToPicker,
}

/// The state of the repository selection screen.
#[derive(Debug)]
pub struct RepoScreen {
    /// Current mode: browser or text input.
    pub mode: RepoMode,
    /// The text input buffer for the repository path.
    pub input: String,
    /// Current cursor position in the input.
    pub cursor: usize,
    /// Lifecycle and last successful repository validation.
    pub validation: LoadState<RepoInfo>,
    /// Whether a confirmation dialog is active.
    pub confirm_state: ConfirmState,
    /// Error message from a failed selection attempt.
    pub selection_error: Option<String>,
    /// User-selected namespace used by repository setup and management.
    pub namespace_input: String,
    pub namespace_cursor: usize,
    pub namespace_action: NamespaceAction,
    pub namespace_origin: String,
    pub namespace_confirmation: Option<String>,
    /// Namespaces discovered in the selected repository.
    pub namespaces: Vec<NamespaceSummary>,
    /// Selected namespace in the visible namespace list.
    pub namespace_selected: usize,
}

/// An absolute path written out: `/` and its components joined by `/`.
pub open spec fn display_path(parts: Seq<Seq<char>>) -> Seq<char> {
    seq!['/'] + join_slash(parts)
}

/// The screen as it starts, with `input` in the path field.
pub open spec fn fresh_screen(s: RepoScreen, input: Seq<char>) -> bool {
    &&& s.mode == RepoMode::Browser
    &&& s.input@ == input
    &&& s.cursor == byte_len(input)
    &&& s.validation is NotLoaded
    &&& s.confirm_state == ConfirmState::Idle
    &&& s.selection_error is None
    &&& s.namespace_input@.len() == 0
    &&& s.namespace_cursor == 0
    &&& s.namespace_action == NamespaceAction::Idle
    &&& s.namespace_origin@.len() == 0
    &&& s.namespace_confirmation is None
    &&& s.namespaces.len() == 0
    &&& s.namespace_selected == 0
}

/// Everything but the fields a step names stays as it was.
pub open spec fn same_path_field(a: RepoScreen, b: RepoScreen) -> bool {
    &&& a.input@ == b.input@
    &&& a.cursor == b.cursor
    &&& a.validation == b.validation
    &&& a.selection_error == b.selection_error
}

pub open spec fn same_namespace_field(a: RepoScreen, b: RepoScreen) -> bool {
    &&& a.namespace_input@ == b.namespace_input@
    &&& a.namespace_cursor == b.namespace_cursor
    &&& a.namespace_action == b.namespace_action
    &&& a.namespace_origin@ == b.namespace_origin@
    &&& a.namespaces@ == b.namespaces@
    &&& a.namespace_selected == b.namespace_selected
}

pub open spec fn unchanged(a: RepoScreen, b: RepoScreen) -> bool {
    &&& a.mode == b.mode
    &&& a.confirm_state == b.confirm_state
    &&& a.namespace_confirmation == b.namespace_confirmation
    &&& same_path_field(a, b)
    &&& same_namespace_field(a, b)
}

/// The key answers yes / no in a dialog.
pub open spec fn is_yes(key: KeyEvent) -> bool {
    key.code == KeyCode::Char('y') || key.code == KeyCode::Char('Y')
}

pub open spec fn is_no(key: KeyEvent) -> bool {
    key.code == KeyCode::Char('n') || key.code == KeyCode::Char('N') || key.code == KeyCode::Esc
}

/// The question asked before a namespace operation.
pub open spec fn namespace_question(action: NamespaceAction, input: Seq<char>, origin: Seq<char>) -> Seq<char> {
    match action {
        NamespaceAction::Rename => "Rename namespace to '"@ + input + "' ? y/n"@,
        NamespaceAction::Delete => "Delete '"@ + origin + "' home/manifest (replacement required)? y/n"@,
        _ => "Use namespace '"@ + input + "' (create if needed)? y/n"@,
    }
}

/// Index of the first namespace named `name`.
pub open spec fn first_named(ns: Seq<NamespaceSummary>, name: Seq<char>) -> Option<int>
    decreases ns.len(),
{
    if ns.len() == 0 {
        None
    } else {
        match first_named(ns.drop_last(), name) {
            Some(i) => Some(i),
            None => if ns.last().name@ == name {
                Some(ns.len() - 1)
            } else {
                None
            },
        }
    }
}

/// The namespace fields after `set_namespace(name)`.
pub open spec fn namespace_set(old: RepoScreen, new: RepoScreen, name: Seq<char>) -> bool {
    &&& new.namespace_input@ == name
    &&& new.namespace_cursor == byte_len(name)
    &&& new.namespace_selected == match first_named(old.namespaces@, name) {
        Some(i) => i as usize,
        None => old.namespace_selected,
    }
    &&& new.namespaces@ == old.namespaces@
}

/// The screen after `begin_namespace(action, name)`.
pub open spec fn namespace_begun(old: RepoScreen, new: RepoScreen, action: NamespaceAction, name: Seq<char>) -> bool {
    &&& namespace_set(old, new, name)
    &&& new.namespace_action == action
    &&& new.namespace_origin@ == name
    &&& new.namespace_confirmation is None
    &&& new.mode == RepoMode::NamespaceInput
    &&& new.confirm_state == old.confirm_state
    &&& same_path_field(old, new)
}

/// Keys while a namespace question is open.
pub open spec fn question_step(old: RepoScreen, new: RepoScreen, key: KeyEvent, r: KeyResult) -> bool {
    if is_focus_escape(key) {
        r == KeyResult::NotConsumed && unchanged(old, new)
    } else if is_yes(key) {
        r == KeyResult::Namespace && new == (RepoScreen { namespace_confirmation: None, ..old })
    } else if is_no(key) {
        r == KeyResult::Consumed && new == (RepoScreen { namespace_confirmation: None, ..old })
    } else {
        r == KeyResult::Consumed && unchanged(old, new)
    }
}

/// Keys while the initialize/attach dialog is open.
pub open spec fn dialog_step(old: RepoScreen, new: RepoScreen, key: KeyEvent, r: KeyResult) -> bool {
    if is_focus_escape(key) {
        r == KeyResult::NotConsumed && unchanged(old, new)
    } else if is_yes(key) {
        r == KeyResult::Confirm && unchanged(old, new)
    } else if is_no(key) {
        r == KeyResult::Consumed && new == (RepoScreen { confirm_state: ConfirmState::Idle, ..old })
    } else {
        r == KeyResult::Consumed && unchanged(old, new)
    }
}

/// Browser mode: leave for the path field, or hand the key to the browser.
pub open spec fn browser_step(old: RepoScreen, new: RepoScreen, key: KeyEvent, browser_ready: bool, r: KeyResult) -> bool {
    if is_focus_escape(key) {
        r == KeyResult::NotConsumed && unchanged(old, new)
    } else if key.code == KeyCode::Char(':') || key.code == KeyCode::Char('/') {
        r == KeyResult::Consumed && new == (RepoScreen { mode: RepoMode::TextInput, ..old })
    } else if key.code == KeyCode::Char(' ') && key.modifiers.bits == NO_MODIFIERS {
        (if browser_ready { r == KeyResult::SelectEntry } else { r == KeyResult::Consumed }) && unchanged(old, new)
    } else {
        (if browser_ready { r == KeyResult::ToPicker } else { r == KeyResult::NotConsumed }) && unchanged(old, new)
    }
}

/// The editing keys of a text field.
pub open spec fn is_edit_key(code: KeyCode) -> bool {
    code is Char || code is Backspace || code is Delete || code is Left || code is Right || code is Home
        || code is End
}

/// Path field: editing, submitting, leaving.
pub open spec fn text_step(old: RepoScreen, new: RepoScreen, key: KeyEvent, r: KeyResult) -> bool {
    let s = old.input@;
    let c = old.cursor as nat;
    if is_focus_escape(key) {
        r == KeyResult::NotConsumed && unchanged(old, new)
    } else if key.code == KeyCode::Esc {
        r == KeyResult::Consumed && new == (RepoScreen { mode: RepoMode::Browser, ..old })
    } else if key.code == KeyCode::Enter {
        r == KeyResult::Validate && unchanged(old, new)
    } else if is_ctrl_char(key, 'a') {
        r == KeyResult::Consumed && new == (RepoScreen { cursor: 0, ..old })
    } else if is_ctrl_char(key, 'e') {
        r == KeyResult::Consumed && new == (RepoScreen { cursor: byte_len(s) as usize, ..old })
    } else if is_ctrl_char(key, 'u') {
        &&& r == KeyResult::Consumed
        &&& new.input@.len() == 0 && new.cursor == 0 && new.validation is NotLoaded
        &&& new.mode == old.mode && new.confirm_state == old.confirm_state
        &&& new.selection_error == old.selection_error
        &&& new.namespace_confirmation == old.namespace_confirmation && same_namespace_field(old, new)
    } else if is_edit_key(key.code) {
        &&& r == KeyResult::Consumed
        &&& new.input@ == edited(s, c, key.code)
        &&& new.cursor == edited_cursor(s, c, key.code)
        &&& (if edit_changes(s, c, key.code) { new.validation is NotLoaded } else { new.validation == old.validation })
        &&& new.mode == old.mode && new.confirm_state == old.confirm_state
        &&& new.selection_error == old.selection_error
        &&& new.namespace_confirmation == old.namespace_confirmation && same_namespace_field(old, new)
    } else {
        r == KeyResult::NotConsumed && unchanged(old, new)
    }
}

/// Namespace field: editing, asking the question, leaving.
pub open spec fn namespace_step(old: RepoScreen, new: RepoScreen, key: KeyEvent, r: KeyResult) -> bool {
    let s = old.namespace_input@;
    let c = old.namespace_cursor as nat;
    if is_focus_escape(key) {
        r == KeyResult::NotConsumed && unchanged(old, new)
    } else if key.code == KeyCode::Esc {
        r == KeyResult::Consumed && new == (RepoScreen {
            mode: RepoMode::Browser,
            namespace_action: NamespaceAction::Idle,
            ..old
        })
    } else if key.code == KeyCode::Enter {
        &&& r == KeyResult::Consumed
        &&& new.namespace_confirmation matches Some(q) && q@ == namespace_question(
            old.namespace_action,
            s,
            old.namespace_origin@,
        )
        &&& new.mode == old.mode && new.confirm_state == old.confirm_state
        &&& same_path_field(old, new) && same_namespace_field(old, new)
    } else if is_edit_key(key.code) {
        &&& r == KeyResult::Consumed
        &&& new.namespace_input@ == edited(s, c, key.code)
        &&& new.namespace_cursor == edited_cursor(s, c, key.code)
        &&& new.mode == old.mode && new.confirm_state == old.confirm_state
        &&& new.namespace_confirmation == old.namespace_confirmation && same_path_field(old, new)
        &&& new.namespace_action == old.namespace_action && new.namespace_origin@ == old.namespace_origin@
        &&& new.namespaces@ == old.namespaces@ && new.namespace_selected == old.namespace_selected
    } else {
        r == KeyResult::Consumed && unchanged(old, new)
    }
}

/// The selected namespace, when the selection points into the list.
pub open spec fn selected_item(s: RepoScreen) -> Option<NamespaceSummary> {
    if s.namespace_selected < s.namespaces.len() {
        Some(s.namespaces@[s.namespace_selected as int])
    } else {
        None
    }
}

/// Namespace list: moving, and starting an operation on the selection.
pub open spec fn namespaces_step(old: RepoScreen, new: RepoScreen, key: KeyEvent, r: KeyResult) -> bool {
    let n = old.namespaces.len();
    let sel = selected_item(old);
    if is_focus_escape(key) {
        r == KeyResult::NotConsumed && unchanged(old, new)
    } else {
        &&& r == KeyResult::Consumed
        &&& if key.code == KeyCode::Esc {
            new == (RepoScreen { mode: RepoMode::Browser, ..old })
        } else if key.code == KeyCode::Up || key.code == KeyCode::Char('k') {
            new == (RepoScreen {
                namespace_selected: if old.namespace_selected > 0 { (old.namespace_selected - 1) as usize } else { 0 },
                ..old
            })
        } else if key.code == KeyCode::Down || key.code == KeyCode::Char('j') {
            let last = if n > 0 { n - 1 } else { 0 };
            let next = if old.namespace_selected + 1 < last { old.namespace_selected + 1 } else { last };
            new == (RepoScreen { namespace_selected: next as usize, ..old })
        } else if key.code == KeyCode::Char('n') {
            namespace_begun(old, new, NamespaceAction::SelectOrCreate, Seq::empty())
        } else if key.code == KeyCode::Enter {
            match sel {
                Some(item) => if usable(item.ownership) {
                    namespace_begun(old, new, NamespaceAction::SelectOrCreate, item.name@)
                } else {
                    unchanged(old, new)
                },
                None => unchanged(old, new),
            }
        } else if key.code == KeyCode::Char('r') || key.code == KeyCode::Char('d') {
            let action = if key.code == KeyCode::Char('r') { NamespaceAction::Rename } else { NamespaceAction::Delete };
            match sel {
                Some(item) => if item.active {
                    namespace_begun(old, new, action, item.name@)
                } else {
                    unchanged(old, new)
                },
                None => unchanged(old, new),
            }
        } else {
            unchanged(old, new)
        }
    }
}

/// The full key contract: open questions and dialogs first, then the mode.
pub open spec fn repo_key_step(old: RepoScreen, new: RepoScreen, key: KeyEvent, browser_ready: bool, r: KeyResult) -> bool {
    if old.namespace_confirmation is Some {
        question_step(old, new, key, r)
    } else if old.confirm_state == ConfirmState::AskInitialize || old.confirm_state == ConfirmState::AskAttach {
        dialog_step(old, new, key, r)
    } else {
        match old.mode {
            RepoMode::Browser => browser_step(old, new, key, browser_ready, r),
            RepoMode::TextInput => text_step(old, new, key, r),
            RepoMode::NamespaceInput => namespace_step(old, new, key, r),
            RepoMode::Namespaces => namespaces_step(old, new, key, r),
        }
    }
}

/// What a path typed into the field stands for: `~` is the home directory,
/// `~/rest` is `rest` under it, and anything else is taken as written.
pub open spec fn expanded(input: Seq<char>, home: Seq<Seq<char>>) -> (bool, Seq<Seq<char>>) {
    if input == seq!['~'] {
        (true, home)
    } else if input.len() >= 2 && input[0] == '~' && input[1] == '/' {
        (true, joined_path(home, input.skip(2)))
    } else {
        (input.len() > 0 && input[0] == '/', components(input))
    }
}

/// The checks a typed path must pass before the repository is inspected.
pub open spec fn checked_input(input: Seq<char>, home: Seq<Seq<char>>) -> Result<Seq<Seq<char>>, Seq<char>> {
    if input.len() == 0 {
        Err("Path cannot be empty"@)
    } else if !expanded(input, home).0 {
        Err("Path must be absolute or start with ~/"@)
    } else {
        Ok(expanded(input, home).1)
    }
}

/// The expanded input as a path would print it: `~` and `~/` replaced by
/// the home directory, anything else as typed.
pub open spec fn expanded_text(input: Seq<char>, home: Seq<Seq<char>>) -> Seq<char> {
    if input == seq!['~'] {
        display_path(home)
    } else if input.len() >= 2 && input[0] == '~' && input[1] == '/' {
        let rest = input.skip(2);
        if rest.len() > 0 && rest[0] == '/' {
            rest
        } else {
            display_path(home) + seq!['/'] + rest
        }
    } else {
        input
    }
}

/// What the file system and git reported about a repository candidate.
#[derive(Debug)]
pub struct RepoProbe {
    /// Whether the expanded path exists.
    pub exists: bool,
    /// The checked-out branch, or why the path is not a usable repository.
    pub repository: Result<String, String>,
    /// The ownership of the namespace in it, or why it could not be told;
    /// only consulted for a nonempty namespace.
    pub ownership: Result<OwnershipInfo, String>,
}

/// The validation of a typed repository path, given what the probe found.
pub open spec fn validated(
    input: Seq<char>,
    home: Seq<Seq<char>>,
    namespace: Seq<char>,
    probe: RepoProbe,
) -> Result<(Seq<Seq<char>>, Seq<char>, OwnershipInfo), Seq<char>> {
    match checked_input(input, home) {
        Err(m) => Err(m),
        Ok(p) => if !probe.exists {
            Err("Directory does not exist: "@ + expanded_text(input, home))
        } else {
            match probe.repository {
                Err(e) => Err("Not a valid repository: "@ + e@),
                Ok(branch) => if namespace.len() == 0 {
                    Ok((p, branch@, OwnershipInfo::New))
                } else {
                    match probe.ownership {
                        Err(e) => Err("Failed to classify ownership: "@ + e@),
                        Ok(o) => Ok((p, branch@, o)),
                    }
                },
            }
        },
    }
}

/// An absolute path written out.
pub fn path_text(p: &PathKey) -> (s: String)
    ensures
        s@ == display_path(parts_of(*p)),
{
    let mut s = owned("/");
    let rest = crate::paths::join_from(p, 0);
    push_str(&mut s, rest.as_str());
    proof {
        reveal_strlit("/");
        assert(parts_of(*p).skip(0) =~= parts_of(*p));
    }
    s
}

/// Expand a leading `~` or `~/` to the home directory; the flag tells
/// whether the result is an absolute path.
pub fn expand_tilde(path: &str, home: &PathKey) -> (r: (bool, PathKey))
    ensures
        (r.0, parts_of(r.1)) == expanded(path@, parts_of(*home)),
{
    let chars = crate::chars::chars_of(path);
    if chars.len() == 1 && chars[0] == '~' {
        assert(path@ =~= seq!['~']);
        return (true, crate::selection::copy_path(home));
    }
    if chars.len() >= 2 && chars[0] == '~' && chars[1] == '/' {
        assert(path@ != seq!['~']);
        let mut rest: Vec<char> = Vec::new();
        let mut i: usize = 2;
        while i < chars.len()
            invariant
                2 <= i <= chars.len(),
                chars@ == path@,
                rest@ == chars@.subrange(2, i as int),
            decreases chars.len() - i,
        {
            rest.push(chars[i]);
            assert(chars@.subrange(2, i + 1) =~= chars@.subrange(2, i as int).push(chars@[i as int]));
            i = i + 1;
        }
        let rest_text = crate::chars::string_from_chars(rest.as_slice());
        assert(rest_text@ =~= path@.skip(2));
        return (true, join_path(home, rest_text.as_str()));
    }
    assert(path@ != seq!['~']);
    let absolute = chars.len() > 0 && chars[0] == '/';
    let parts = crate::paths::split_components(path);
    let r = PathKey { parts };
    assert(parts_of(r) =~= components(path@));
    (absolute, r)
}

impl RepoScreen {
    /// Create a new repository screen, starting in browser mode.
    pub fn new() -> (s: Self)
        ensures
            fresh_screen(s, Seq::empty()),
    {
        proof {
            reveal_strlit("");
            assert(""@ =~= Seq::<char>::empty());
        }
        RepoScreen::with_path("")
    }

    /// Create with a pre-filled path from the existing config.
    pub fn with_path(path: &str) -> (s: Self)
        ensures
            fresh_screen(s, path@),
    {
        let cursor = byte_length(path);
        RepoScreen {
            mode: RepoMode::Browser,
            input: owned(path),
            cursor,
            validation: LoadState::NotLoaded,
            confirm_state: ConfirmState::Idle,
            selection_error: None,
            namespace_input: String::new(),
            namespace_cursor: 0,
            namespace_action: NamespaceAction::Idle,
            namespace_origin: String::new(),
            namespace_confirmation: None,
            namespaces: Vec::new(),
            namespace_selected: 0,
        }
    }

    fn namespace_index(&self, name: &str) -> (r: Option<usize>)
        ensures
            match r {
                Some(i) => first_named(self.namespaces@, name@) == Some(i as int),
                None => first_named(self.namespaces@, name@) == None::<int>,
            },
    {
        let ghost ns = self.namespaces@;
        let mut i: usize = 0;
        while i < self.namespaces.len()
            invariant
                ns == self.namespaces@,
                i <= ns.len(),
                first_named(ns.take(i as int), name@) == None::<int>,
            decreases ns.len() - i,
        {
            assert(ns.take(i + 1).drop_last() =~= ns.take(i as int));
            if same_str(self.namespaces[i].name.as_str(), name) {
                proof {
                    lemma_first_named_prefix(ns, name@, i as int);
                }
                return Some(i);
            }
            i = i + 1;
        }
        assert(ns.take(ns.len() as int) =~= ns);
        None
    }

    pub fn set_namespace(&mut self, namespace: &str)
        ensures
            namespace_set(*old(self), *final(self), namespace@),
            *final(self) == (RepoScreen {
                namespace_input: final(self).namespace_input,
                namespace_cursor: final(self).namespace_cursor,
                namespace_selected: final(self).namespace_selected,
                ..*old(self)
            }),
    {
        self.namespace_input = owned(namespace);
        self.namespace_cursor = byte_length(namespace);
        if let Some(index) = self.namespace_index(namespace) {
            self.namespace_selected = index;
        }
    }

    pub fn selected_namespace(&self) -> (r: Option<&NamespaceSummary>)
        ensures
            match selected_item(*self) {
                Some(item) => r == Some(&item),
                None => r is None,
            },
    {
        if self.namespace_selected < self.namespaces.len() {
            Some(&self.namespaces[self.namespace_selected])
        } else {
            None
        }
    }

    pub fn begin_namespace(&mut self, action: NamespaceAction, current: &str)
        ensures
            namespace_begun(*old(self), *final(self), action, current@),
    {
        self.set_namespace(current);
        self.namespace_action = action;
        self.namespace_origin = owned(current);
        self.namespace_confirmation = None;
        self.mode = RepoMode::NamespaceInput;
    }

    pub fn namespace_action_name(&self) -> (s: &'static str)
        ensures
            s@ == match self.namespace_action {
                NamespaceAction::SelectOrCreate => "select or create"@,
                NamespaceAction::Rename => "rename"@,
                NamespaceAction::Delete => "delete (type replacement)"@,
                NamespaceAction::Idle => "manage"@,
            },
    {
        match self.namespace_action {
            NamespaceAction::SelectOrCreate => "select or create",
            NamespaceAction::Rename => "rename",
            NamespaceAction::Delete => "delete (type replacement)",
            NamespaceAction::Idle => "manage",
        }
    }

    /// The browser to open when none is open: rooted at `/`, starting where
    /// `browser_start` says. `None` when `browser_open`.
    pub fn ensure_browser(&self, home: &PathKey, input_is_dir: bool, browser_open: bool) -> (r: Option<(PathKey, PathKey)>)
        ensures
            browser_open ==> r is None,
            !browser_open ==> (r matches Some((root, start)) && root.parts.len() == 0 && parts_of(start) == if self.input@.len() == 0 {
                parts_of(*home)
            } else {
                let e = expanded(self.input@, parts_of(*home)).1;
                if input_is_dir {
                    e
                } else if e.len() > 0 {
                    e.drop_last()
                } else {
                    parts_of(*home)
                }
            }),
    {
        if browser_open {
            None
        } else {
            Some((PathKey { parts: Vec::new() }, self.browser_start(home, input_is_dir)))
        }
    }

    /// Where the browser opens: the typed path when it is a directory, else
    /// its parent (or the home directory when it has none); the home
    /// directory when nothing is typed. `input_is_dir` tells whether the
    /// expanded input names a directory.
    pub fn browser_start(&self, home: &PathKey, input_is_dir: bool) -> (start: PathKey)
        ensures
            parts_of(start) == if self.input@.len() == 0 {
                parts_of(*home)
            } else {
                let e = expanded(self.input@, parts_of(*home)).1;
                if input_is_dir {
                    e
                } else if e.len() > 0 {
                    e.drop_last()
                } else {
                    parts_of(*home)
                }
            },
    {
        if self.input.as_str().is_empty() {
            return crate::selection::copy_path(home);
        }
        let (_, e) = expand_tilde(self.input.as_str(), home);
        if input_is_dir {
            e
        } else if e.parts.len() > 0 {
            let p = crate::paths::path_prefix(&e, e.parts.len() - 1);
            assert(parts_of(e).take(e.parts.len() - 1) =~= parts_of(e).drop_last());
            p
        } else {
            crate::selection::copy_path(home)
        }
    }

    /// Take the entry the browser handed out: a directory becomes the path
    /// to validate; anything else leaves an error.
    pub fn select_outcome(&mut self, picked: Result<Selection, String>) -> (r: KeyResult)
        ensures
            match picked {
                Ok(sel) => if sel.kind == EntryKind::Directory {
                    &&& r == KeyResult::Validate
                    &&& final(self).input@ == display_path(parts_of(sel.path))
                    &&& final(self).cursor == byte_len(final(self).input@)
                    &&& final(self).selection_error is None
                } else {
                    &&& r == KeyResult::Consumed
                    &&& final(self).selection_error matches Some(e) && e@
                        == "Only directories can be used as repositories."@
                    &&& final(self).input == old(self).input && final(self).cursor == old(self).cursor
                },
                Err(e) => {
                    &&& r == KeyResult::Consumed
                    &&& final(self).selection_error == Some(e)
                    &&& final(self).input == old(self).input && final(self).cursor == old(self).cursor
                },
            },
            final(self).mode == old(self).mode,
            final(self).validation == old(self).validation,
            final(self).confirm_state == old(self).confirm_state,
            final(self).namespace_confirmation == old(self).namespace_confirmation,
            same_namespace_field(*old(self), *final(self)),
    {
        match picked {
            Ok(selection) => {
                if selection.kind == EntryKind::Directory {
                    self.input = path_text(&selection.path);
                    self.cursor = byte_length(self.input.as_str());
                    self.selection_error = None;
                    KeyResult::Validate
                } else {
                    self.selection_error = Some(owned("Only directories can be used as repositories."));
                    KeyResult::Consumed
                }
            },
            Err(e) => {
                self.selection_error = Some(e);
                KeyResult::Consumed
            },
        }
    }

    /// Take the picker's answer to a key: a selection goes through
    /// `select_outcome`; cancelling hands the key to the parent.
    pub fn picker_outcome(&mut self, action: PickerAction) -> (r: KeyResult)
        ensures
            match action {
                PickerAction::Consumed => r == KeyResult::Consumed && unchanged(*old(self), *final(self)),
                PickerAction::Cancel => r == KeyResult::NotConsumed && unchanged(*old(self), *final(self)),
                PickerAction::NotConsumed => r == KeyResult::NotConsumed && unchanged(*old(self), *final(self)),
                PickerAction::Select(_) => r == KeyResult::Validate || r == KeyResult::Consumed,
            },
    {
        match action {
            PickerAction::Consumed => KeyResult::Consumed,
            PickerAction::Select(picked) => self.select_outcome(picked),
            PickerAction::Cancel => KeyResult::NotConsumed,
            PickerAction::NotConsumed => KeyResult::NotConsumed,
        }
    }

    fn handle_key_text(&mut self, key: KeyEvent) -> (r: KeyResult)
        requires
            byte_len(old(self).input@) + 4 <= usize::MAX,
        ensures
            text_step(*old(self), *final(self), key, r),
    {
        if key.focus_escape() {
            return KeyResult::NotConsumed;
        }
        match key.code {
            KeyCode::Esc => {
                self.mode = RepoMode::Browser;
                return KeyResult::Consumed;
            },
            KeyCode::Enter => return KeyResult::Validate,
            _ => {},
        }
        if key.ctrl_char('a') {
            self.cursor = 0;
            return KeyResult::Consumed;
        }
        if key.ctrl_char('e') {
            self.cursor = byte_length(self.input.as_str());
            return KeyResult::Consumed;
        }
        if key.ctrl_char('u') {
            self.input = String::new();
            self.cursor = 0;
            self.validation.reset();
            return KeyResult::Consumed;
        }
        match key.code {
            KeyCode::Char(_) | KeyCode::Backspace | KeyCode::Delete | KeyCode::Left | KeyCode::Right
            | KeyCode::Home | KeyCode::End => {
                if edit(&mut self.input, &mut self.cursor, key.code) {
                    self.validation.reset();
                }
                KeyResult::Consumed
            },
            _ => KeyResult::NotConsumed,
        }
    }

    fn handle_key_namespace(&mut self, key: KeyEvent) -> (r: KeyResult)
        requires
            byte_len(old(self).namespace_input@) + 4 <= usize::MAX,
        ensures
            namespace_step(*old(self), *final(self), key, r),
    {
        if key.focus_escape() {
            return KeyResult::NotConsumed;
        }
        match key.code {
            KeyCode::Esc => {
                self.mode = RepoMode::Browser;
                self.namespace_action = NamespaceAction::Idle;
                KeyResult::Consumed
            },
            KeyCode::Enter => {
                let question = match self.namespace_action {
                    NamespaceAction::Rename => {
                        let mut q = owned("Rename namespace to '");
                        push_str(&mut q, self.namespace_input.as_str());
                        push_str(&mut q, "' ? y/n");
                        q
                    },
                    NamespaceAction::Delete => {
                        let mut q = owned("Delete '");
                        push_str(&mut q, self.namespace_origin.as_str());
                        push_str(&mut q, "' home/manifest (replacement required)? y/n");
                        q
                    },
                    _ => {
                        let mut q = owned("Use namespace '");
                        push_str(&mut q, self.namespace_input.as_str());
                        push_str(&mut q, "' (create if needed)? y/n");
                        q
                    },
                };
                self.namespace_confirmation = Some(question);
                KeyResult::Consumed
            },
            KeyCode::Char(_) | KeyCode::Backspace | KeyCode::Delete | KeyCode::Left | KeyCode::Right
            | KeyCode::Home | KeyCode::End => {
                edit(&mut self.namespace_input, &mut self.namespace_cursor, key.code);
                KeyResult::Consumed
            },
            _ => KeyResult::Consumed,
        }
    }

    fn handle_key_namespaces(&mut self, key: KeyEvent) -> (r: KeyResult)
        ensures
            namespaces_step(*old(self), *final(self), key, r),
    {
        if key.focus_escape() {
            return KeyResult::NotConsumed;
        }
        match key.code {
            KeyCode::Esc => {
                self.mode = RepoMode::Browser;
            },
            KeyCode::Up | KeyCode::Char('k') => {
                self.namespace_selected = self.namespace_selected.saturating_sub(1);
            },
            KeyCode::Down | KeyCode::Char('j') => {
                let next = self.namespace_selected.saturating_add(1);
                let last = self.namespaces.len().saturating_sub(1);
                self.namespace_selected = if next < last { next } else { last };
            },
            KeyCode::Char('n') => {
                proof {
                    reveal_strlit("");
                    assert(""@ =~= Seq::<char>::empty());
                }
                self.begin_namespace(NamespaceAction::SelectOrCreate, "");
            },
            KeyCode::Enter => {
                if self.namespace_selected < self.namespaces.len() {
                    if self.namespaces[self.namespace_selected].ownership.can_proceed() {
                        let name = self.namespaces[self.namespace_selected].name.clone();
                        self.begin_namespace(NamespaceAction::SelectOrCreate, name.as_str());
                    }
                }
            },
            KeyCode::Char('r') | KeyCode::Char('d') => {
                let action = if key.code == KeyCode::Char('r') {
                    NamespaceAction::Rename
                } else {
                    NamespaceAction::Delete
                };
                if self.namespace_selected < self.namespaces.len() {
                    if self.namespaces[self.namespace_selected].active {
                        let name = self.namespaces[self.namespace_selected].name.clone();
                        self.begin_namespace(action, name.as_str());
                    }
                }
            },
            _ => {},
        }
        KeyResult::Consumed
    }

    /// Handle a key event for this screen. `browser_ready` tells whether
    /// the filesystem browser is open; keys for it come back as
    /// `SelectEntry` or `ToPicker`.
    pub fn handle_key(&mut self, key: KeyEvent, browser_ready: bool) -> (r: KeyResult)
        requires
            byte_len(old(self).input@) + 4 <= usize::MAX,
            byte_len(old(self).namespace_input@) + 4 <= usize::MAX,
        ensures
            repo_key_step(*old(self), *final(self), key, browser_ready, r),
    {
        if self.namespace_confirmation.is_some() {
            if key.focus_escape() {
                return KeyResult::NotConsumed;
            }
            return match key.code {
                KeyCode::Char('y') | KeyCode::Char('Y') => {
                    self.namespace_confirmation = None;
                    KeyResult::Namespace
                },
                KeyCode::Char('n') | KeyCode::Char('N') | KeyCode::Esc => {
                    self.namespace_confirmation = None;
                    KeyResult::Consumed
                },
                _ => KeyResult::Consumed,
            };
        }
        if self.confirm_state == ConfirmState::AskInitialize || self.confirm_state == ConfirmState::AskAttach {
            if key.focus_escape() {
                return KeyResult::NotConsumed;
            }
            return match key.code {
                KeyCode::Char('y') | KeyCode::Char('Y') => KeyResult::Confirm,
                KeyCode::Char('n') | KeyCode::Char('N') | KeyCode::Esc => {
                    self.confirm_state = ConfirmState::Idle;
                    KeyResult::Consumed
                },
                _ => KeyResult::Consumed,
            };
        }
        match self.mode {
            RepoMode::Browser => {
                if key.focus_escape() {
                    return KeyResult::NotConsumed;
                }
                if key.code == KeyCode::Char(':') || key.code == KeyCode::Char('/') {
                    self.mode = RepoMode::TextInput;
                    return KeyResult::Consumed;
                }
                if key.code == KeyCode::Char(' ') && key.no_modifiers() {
                    if browser_ready {
                        KeyResult::SelectEntry
                    } else {
                        KeyResult::Consumed
                    }
                } else if browser_ready {
                    KeyResult::ToPicker
                } else {
                    KeyResult::NotConsumed
                }
            },
            RepoMode::TextInput => self.handle_key_text(key),
            RepoMode::NamespaceInput => self.handle_key_namespace(key),
            RepoMode::Namespaces => self.handle_key_namespaces(key),
        }
    }

    /// The path a confirmation applies to: the repository of the current
    /// validation.
    pub fn confirm_target(&self) -> (r: Result<PathKey, String>)
        ensures
            match self.validation {
                LoadState::Loaded(info) => r matches Ok(p) && parts_of(p) == parts_of(info.path),
                _ => r matches Err(e) && e@ == "No current repository validation to confirm"@,
            },
    {
        match &self.validation {
            LoadState::Loaded(info) => Ok(crate::selection::copy_path(&info.path)),
            _ => Err(owned("No current repository validation to confirm")),
        }
    }

    /// Finish a confirmation once the repository has been initialized or
    /// attached (`outcome`): on success the dialog is done and the
    /// repository path is returned for the configuration.
    pub fn confirm(&mut self, outcome: Result<(), String>) -> (r: Result<PathKey, String>)
        ensures
            match old(self).validation {
                LoadState::Loaded(info) => match outcome {
                    Ok(()) => r matches Ok(p) && parts_of(p) == parts_of(info.path)
                        && final(self).confirm_state == ConfirmState::Done,
                    Err(e) => r == Err::<PathKey, String>(e) && final(self).confirm_state
                        == old(self).confirm_state,
                },
                _ => r matches Err(e) && e@ == "No current repository validation to confirm"@
                    && final(self).confirm_state == old(self).confirm_state,
            },
            *final(self) == (RepoScreen { confirm_state: final(self).confirm_state, ..*old(self) }),
            final(self).mode == old(self).mode,
            same_path_field(*old(self), *final(self)),
            same_namespace_field(*old(self), *final(self)),
    {
        let target = self.confirm_target();
        match target {
            Ok(path) => match outcome {
                Ok(()) => {
                    self.confirm_state = ConfirmState::Done;
                    Ok(path)
                },
                Err(e) => Err(e),
            },
            Err(e) => Err(e),
        }
    }

    /// The expanded input as a path would print it.
    pub fn expanded_display(input: &str, home: &PathKey) -> (r: String)
        ensures
            r@ == expanded_text(input@, parts_of(*home)),
    {
        let chars = crate::chars::chars_of(input);
        if chars.len() == 1 && chars[0] == '~' {
            assert(input@ =~= seq!['~']);
            return path_text(home);
        }
        if chars.len() >= 2 && chars[0] == '~' && chars[1] == '/' {
            assert(input@ != seq!['~']);
            let tail = crate::text::slice_chars(&chars, 2, chars.len());
            assert(tail@ =~= input@.skip(2));
            let rest = crate::chars::string_from_chars(tail.as_slice());
            if tail.len() > 0 && tail[0] == '/' {
                return rest;
            }
            let mut r = path_text(home);
            push_char(&mut r, '/');
            push_str(&mut r, rest.as_str());
            assert(r@ =~= display_path(parts_of(*home)) + seq!['/'] + input@.skip(2));
            return r;
        }
        assert(input@ != seq!['~']);
        owned(input)
    }

    /// Validate a typed repository path with what the file system and git
    /// reported (`probe`): it must pass `check_path_input`, exist, be a
    /// repository, and, for a nonempty namespace, have a known ownership.
    pub fn validate_path(input: &str, home: &PathKey, namespace: &str, probe: RepoProbe) -> (r: Result<
        RepoInfo,
        String,
    >)
        ensures
            match validated(input@, parts_of(*home), namespace@, probe) {
                Ok((p, branch, o)) => r matches Ok(info) && parts_of(info.path) == p && info.branch@
                    == branch && info.ownership == o,
                Err(m) => r matches Err(e) && e@ == m,
            },
    {
        let path = match RepoScreen::check_path_input(input, home) {
            Ok(p) => p,
            Err(e) => return Err(e),
        };
        if !probe.exists {
            let mut m = owned("Directory does not exist: ");
            let shown = RepoScreen::expanded_display(input, home);
            push_str(&mut m, shown.as_str());
            return Err(m);
        }
        let branch = match probe.repository {
            Err(e) => {
                let mut m = owned("Not a valid repository: ");
                push_str(&mut m, e.as_str());
                return Err(m);
            },
            Ok(b) => b,
        };
        let ownership = if namespace.is_empty() {
            OwnershipInfo::New
        } else {
            match probe.ownership {
                Err(e) => {
                    let mut m = owned("Failed to classify ownership: ");
                    push_str(&mut m, e.as_str());
                    return Err(m);
                },
                Ok(o) => o,
            }
        };
        Ok(RepoInfo { path, branch, ownership })
    }

    /// Check a typed path before the repository is inspected: it must not
    /// be empty and must be absolute once `~` is expanded.
    pub fn check_path_input(input: &str, home: &PathKey) -> (r: Result<PathKey, String>)
        ensures
            match checked_input(input@, parts_of(*home)) {
                Ok(p) => r matches Ok(q) && parts_of(q) == p,
                Err(m) => r matches Err(e) && e@ == m,
            },
    {
        if input.is_empty() {
            return Err(owned("Path cannot be empty"));
        }
        let (absolute, path) = expand_tilde(input, home);
        if !absolute {
            return Err(owned("Path must be absolute or start with ~/"));
        }
        Ok(path)
    }
}

pub proof fn lemma_first_named_prefix(ns: Seq<NamespaceSummary>, name: Seq<char>, i: int)
    requires
        0 <= i < ns.len(),
        first_named(ns.take(i), name) == None::<int>,
        ns[i].name@ == name,
    ensures
        first_named(ns, name) == Some(i),
    decreases ns.len(),
{
    if i == ns.len() - 1 {
        assert(ns.take(i) =~= ns.drop_last());
    } else {
        assert(ns.drop_last().take(i) =~= ns.take(i));
        lemma_first_named_prefix(ns.drop_last(), name, i);
    }
}

/// Setting the namespace field selects, in the list, the first namespace
/// with that name; when none has it the selection stays where it was.
pub proof fn lemma_set_namespace_selects_first(old: RepoScreen, new: RepoScreen, name: Seq<char>)
    requires
        namespace_set(old, new, name),
    ensures
        (exists|i: int| 0 <= i < old.namespaces.len() && (#[trigger] old.namespaces@[i]).name@ == name) ==> {
            &&& (new.namespace_selected as int) < new.namespaces.len()
            &&& new.namespaces@[new.namespace_selected as int].name@ == name
            &&& forall|j: int| 0 <= j < new.namespace_selected ==> (#[trigger] new.namespaces@[j]).name@ != name
        },
        (forall|i: int| 0 <= i < old.namespaces.len() ==> (#[trigger] old.namespaces@[i]).name@ != name)
            ==> new.namespace_selected == old.namespace_selected,
{
    lemma_first_named_exact(old.namespaces@, name);
}

proof fn lemma_first_named_exact(ns: Seq<NamespaceSummary>, name: Seq<char>)
    ensures
        match first_named(ns, name) {
            Some(i) => 0 <= i < ns.len() && ns[i].name@ == name && forall|j: int|
                0 <= j < i ==> (#[trigger] ns[j]).name@ != name,
            None => forall|j: int| 0 <= j < ns.len() ==> (#[trigger] ns[j]).name@ != name,
        },
    decreases ns.len(),
{
    if ns.len() > 0 {
        lemma_first_named_exact(ns.drop_last(), name);
        match first_named(ns.drop_last(), name) {
            Some(i) => {
                assert forall|j: int| 0 <= j < i implies (#[trigger] ns[j]).name@ != name by {
                    assert(ns[j] == ns.drop_last()[j]);
                }
                assert(ns[i] == ns.drop_last()[i]);
            },
            None => {
                assert forall|j: int| 0 <= j < ns.len() - 1 implies (#[trigger] ns[j]).name@ != name by {
                    assert(ns[j] == ns.drop_last()[j]);
                }
            },
        }
    }
}

} // verus!
