//! The dialog drawn over the screen while a question, a text field or a
//! detail view owns input: which one, and the words it shows.

use vstd::prelude::*;

use crate::chars::{decimal, owned, push_str};
use crate::overview::Tone;
use crate::screens::automation::ConfirmAction;
use crate::screens::repository::{ConfirmState, NamespaceAction, RepoMode};
use crate::shell::{App, Screen};
use crate::task::LoadState;

verus! {

/// A dialog and its words.
#[derive(Debug)]
pub enum Dialog {
    /// A question or a detail view: what it is about, what happens, and
    /// the keys that answer it.
    Confirm { title: String, affected: Option<String>, consequence: String, confirm: String, cancel: String },
    /// A text field with its cursor and, below it, a note.
    Input {
        title: String,
        label: String,
        text: String,
        cursor: usize,
        note: Option<(String, Tone)>,
        submit: String,
        cancel: String,
    },
}

/// Which dialog the state calls for.
#[derive(Debug, Clone, Copy, PartialEq, Eq, Structural)]
pub enum DialogKind {
    Nothing,
    Detail,
    NamespaceQuestion,
    RepositoryQuestion,
    RepositoryPath,
    NamespaceName,
    AddSource,
    RemoveSource,
    ReviewChanges,
    ApplyChanges,
    AddPattern,
    AutomationQuestion,
}

pub open spec fn dialog_kind(a: App) -> DialogKind {
    match a.active_screen {
        Screen::Dashboard => if a.dashboard_screen.detail is Some {
            DialogKind::Detail
        } else {
            DialogKind::Nothing
        },
        Screen::Repository => if a.repo_screen.namespace_confirmation is Some {
            DialogKind::NamespaceQuestion
        } else if a.repo_screen.confirm_state == ConfirmState::AskInitialize || a.repo_screen.confirm_state
            == ConfirmState::AskAttach {
            DialogKind::RepositoryQuestion
        } else {
            match a.repo_screen.mode {
                RepoMode::TextInput => DialogKind::RepositoryPath,
                RepoMode::NamespaceInput => DialogKind::NamespaceName,
                _ => DialogKind::Nothing,
            }
        },
        Screen::Sources => match a.sources_screen.mode {
            crate::screens::sources::Mode::AddInput => DialogKind::AddSource,
            crate::screens::sources::Mode::ConfirmDelete => DialogKind::RemoveSource,
            crate::screens::sources::Mode::PendingChanges => DialogKind::ReviewChanges,
            crate::screens::sources::Mode::ConfirmApply => DialogKind::ApplyChanges,
            _ => DialogKind::Nothing,
        },
        Screen::Ignore => if a.ignore_screen.mode == crate::screens::ignore::Mode::AddInput {
            DialogKind::AddPattern
        } else {
            DialogKind::Nothing
        },
        Screen::Automation => if a.automation_screen.confirm != ConfirmAction::Idle {
            DialogKind::AutomationQuestion
        } else {
            DialogKind::Nothing
        },
        Screen::Preview | Screen::History => DialogKind::Nothing,
    }
}

/// What the host knows beyond the application state when it draws a
/// dialog.
#[derive(Debug)]
pub struct DialogContext {
    /// The configured repository's directory as shown to the user; `None`
    /// without a configuration.
    pub repository_dir: Option<String>,
    /// How the automation backend in use describes itself.
    pub backend_description: String,
}

/// `dir` joined with `name` by a slash.
pub open spec fn joined(dir: Seq<char>, name: Seq<char>) -> Seq<char> {
    if dir.len() > 0 && dir.last() == '/' {
        dir + name
    } else {
        dir + "/"@ + name
    }
}

fn join_name(dir: &str, name: &str) -> (r: String)
    ensures
        r@ == joined(dir@, name@),
{
    let cs = crate::chars::chars_of(dir);
    let mut r = owned(dir);
    if !(cs.len() > 0 && cs[cs.len() - 1] == '/') {
        push_str(&mut r, "/");
    }
    push_str(&mut r, name);
    r
}

pub open spec fn opt_view(s: Option<String>) -> Option<Seq<char>> {
    match s {
        Some(t) => Some(t@),
        None => None,
    }
}

pub open spec fn note_view(n: Option<(String, Tone)>) -> Option<(Seq<char>, Tone)> {
    match n {
        Some((t, tone)) => Some((t@, tone)),
        None => None,
    }
}

/// A question dialog with these words.
pub open spec fn is_confirm(
    d: Dialog,
    title: Seq<char>,
    affected: Option<Seq<char>>,
    consequence: Seq<char>,
    confirm: Seq<char>,
    cancel: Seq<char>,
) -> bool {
    d matches Dialog::Confirm { title: t, affected: a, consequence: c, confirm: y, cancel: n } && t@ == title
        && opt_view(a) == affected && c@ == consequence && y@ == confirm && n@ == cancel
}

/// A text-field dialog with these words.
pub open spec fn is_input(
    d: Dialog,
    title: Seq<char>,
    label: Seq<char>,
    text: Seq<char>,
    cursor: usize,
    note: Option<(Seq<char>, Tone)>,
    submit: Seq<char>,
    cancel: Seq<char>,
) -> bool {
    d matches Dialog::Input { title: t, label: l, text: x, cursor: c, note: m, submit: s, cancel: n } && t@ == title
        && l@ == label && x@ == text && c == cursor && note_view(m) == note && s@ == submit && n@ == cancel
}

/// The note under the repository path: a failed validation, a running
/// one, or else a failed selection.
pub open spec fn path_note(a: App) -> Option<(Seq<char>, Tone)> {
    match a.repo_screen.validation {
        LoadState::Failed { error, .. } => Some((error@, Tone::Error)),
        LoadState::Loading { .. } => Some(("Checking repository…"@, Tone::Progress)),
        _ => match a.repo_screen.selection_error {
            Some(e) => Some((e@, Tone::Error)),
            None => None,
        },
    }
}

pub open spec fn source_note(a: App) -> Option<(Seq<char>, Tone)> {
    match a.sources_screen.message {
        Some(m) => Some((m.text@, Tone::Error)),
        None => None,
    }
}

pub open spec fn pattern_note(a: App) -> Option<(Seq<char>, Tone)> {
    match a.ignore_screen.message {
        Some(m) => Some((m.text@, Tone::Error)),
        None => None,
    }
}

/// The directory a namespace question is about: the namespace given up
/// when deleting, else the one entered.
pub open spec fn namespace_target(a: App, cx_dir: Option<Seq<char>>) -> Option<Seq<char>> {
    match cx_dir {
        Some(dir) => Some(
            joined(
                dir,
                if a.repo_screen.namespace_action == NamespaceAction::Delete {
                    a.repo_screen.namespace_origin@
                } else {
                    a.repo_screen.namespace_input@
                },
            ),
        ),
        None => None,
    }
}

/// The selected source's path, when there is one.
pub open spec fn selected_source_path(a: App) -> Option<Seq<char>> {
    match a.config {
        Some(c) => if a.sources_screen.selected < c.sources.len() {
            Some(c.sources@[a.sources_screen.selected as int].path@)
        } else {
            None
        },
        None => None,
    }
}

/// The size of the pending source changes.
pub open spec fn changes_summary(a: App) -> Option<Seq<char>> {
    match a.sources_screen.pending_diff {
        Some(d) => Some(decimal(d.additions.len() as nat) + " additions, "@ + decimal(d.removals.len() as nat)
            + " removals"@),
        None => None,
    }
}

/// The dialog the state calls for, if any.
pub fn modal_dialog(a: &App, cx: &DialogContext) -> (r: Option<Dialog>)
    ensures
        match dialog_kind(*a) {
            DialogKind::Nothing => r is None,
            DialogKind::Detail => r matches Some(d) && is_confirm(
                d,
                a.dashboard_screen.detail->0.title@,
                None,
                a.dashboard_screen.detail->0.value@,
                "d: details"@,
                "Esc: close"@,
            ),
            DialogKind::NamespaceQuestion => r matches Some(d) && is_confirm(
                d,
                "Confirm namespace change"@,
                namespace_target(*a, opt_view(cx.repository_dir)),
                a.repo_screen.namespace_confirmation->0@,
                "y: confirm"@,
                "n / Esc: cancel"@,
            ),
            DialogKind::RepositoryQuestion => {
                let initialize = a.repo_screen.confirm_state == ConfirmState::AskInitialize;
                r matches Some(d) && is_confirm(
                    d,
                    if initialize {
                        "Initialize namespace"@
                    } else {
                        "Attach namespace"@
                    },
                    if a.repo_screen.input@.len() == 0 {
                        None
                    } else {
                        Some(a.repo_screen.input@)
                    },
                    if initialize {
                        "This creates dothoard's ownership manifest only in the selected namespace."@
                    } else {
                        "This uses the existing matching ownership manifest; no sibling namespace is changed."@
                    },
                    "y: confirm"@,
                    "n / Esc: cancel"@,
                )
            },
            DialogKind::RepositoryPath => r matches Some(d) && is_input(
                d,
                "Repository path"@,
                "Existing Git worktree path"@,
                a.repo_screen.input@,
                a.repo_screen.cursor,
                path_note(*a),
                "Enter: validate"@,
                "Esc: browser"@,
            ),
            DialogKind::NamespaceName => r matches Some(d) && is_input(
                d,
                "Namespace"@,
                match a.repo_screen.namespace_action {
                    NamespaceAction::SelectOrCreate => "select or create"@,
                    NamespaceAction::Rename => "rename"@,
                    NamespaceAction::Delete => "delete (type replacement)"@,
                    NamespaceAction::Idle => "manage"@,
                },
                a.repo_screen.namespace_input@,
                a.repo_screen.namespace_cursor,
                match cx.repository_dir {
                    Some(dir) => Some((dir@, Tone::Muted)),
                    None => None,
                },
                "Enter: review"@,
                "Esc: cancel"@,
            ),
            DialogKind::AddSource => r matches Some(d) && is_input(
                d,
                "Add source"@,
                "Path relative to $HOME"@,
                a.sources_screen.input@,
                a.sources_screen.cursor,
                source_note(*a),
                "Enter: add"@,
                "Esc: browser"@,
            ),
            DialogKind::RemoveSource => r matches Some(d) && is_confirm(
                d,
                "Remove source"@,
                selected_source_path(*a),
                "This removes the source from configuration. It does not delete files from your home directory."@,
                "y: remove"@,
                "n / Esc: cancel"@,
            ),
            DialogKind::ReviewChanges => r matches Some(d) && is_confirm(
                d,
                "Review source changes"@,
                None,
                "Pending source changes require a decision. Apply them, discard them, or continue editing."@,
                "a: apply  d: discard"@,
                "c / Esc: continue editing"@,
            ),
            DialogKind::ApplyChanges => r matches Some(d) && is_confirm(
                d,
                "Apply source changes"@,
                changes_summary(*a),
                "Removing sources changes configuration and applies generated ignore rules. Existing backup data is not deleted here."@,
                "y: remove and apply"@,
                "n / Esc: back"@,
            ),
            DialogKind::AddPattern => r matches Some(d) && is_input(
                d,
                "Add ignore pattern"@,
                "Gitignore syntax"@,
                a.ignore_screen.input@,
                a.ignore_screen.cursor,
                pattern_note(*a),
                "Enter: add"@,
                "Esc: cancel"@,
            ),
            DialogKind::AutomationQuestion => {
                let removing = a.automation_screen.confirm == ConfirmAction::Remove;
                r matches Some(d) && is_confirm(
                    d,
                    if removing {
                        "Remove automation"@
                    } else {
                        "Install automation"@
                    },
                    Some(cx.backend_description@),
                    if removing {
                        "This disables and removes only dothoard's managed automation."@
                    } else {
                        "This installs and enables the selected backend using the current schedule."@
                    },
                    if removing {
                        "y: remove"@
                    } else {
                        "y: install"@
                    },
                    "n / Esc: cancel"@,
                )
            },
        },
{
    match a.active_screen {
        Screen::Dashboard => match &a.dashboard_screen.detail {
            Some(detail) => Some(
                Dialog::Confirm {
                    title: detail.title.clone(),
                    affected: None,
                    consequence: detail.value.clone(),
                    confirm: owned("d: details"),
                    cancel: owned("Esc: close"),
                },
            ),
            None => None,
        },
        Screen::Repository => repository_dialog(a, cx),
        Screen::Sources => sources_dialog(a),
        Screen::Ignore => if a.ignore_screen.mode == crate::screens::ignore::Mode::AddInput {
            let note = match &a.ignore_screen.message {
                Some(m) => Some((m.text.clone(), Tone::Error)),
                None => None,
            };
            Some(
                Dialog::Input {
                    title: owned("Add ignore pattern"),
                    label: owned("Gitignore syntax"),
                    text: a.ignore_screen.input.clone(),
                    cursor: a.ignore_screen.cursor,
                    note,
                    submit: owned("Enter: add"),
                    cancel: owned("Esc: cancel"),
                },
            )
        } else {
            None
        },
        Screen::Automation => if a.automation_screen.confirm != ConfirmAction::Idle {
            let removing = a.automation_screen.confirm == ConfirmAction::Remove;
            Some(
                Dialog::Confirm {
                    title: owned(
                        if removing {
                            "Remove automation"
                        } else {
                            "Install automation"
                        },
                    ),
                    affected: Some(cx.backend_description.clone()),
                    consequence: owned(
                        if removing {
                            "This disables and removes only dothoard's managed automation."
                        } else {
                            "This installs and enables the selected backend using the current schedule."
                        },
                    ),
                    confirm: owned(
                        if removing {
                            "y: remove"
                        } else {
                            "y: install"
                        },
                    ),
                    cancel: owned("n / Esc: cancel"),
                },
            )
        } else {
            None
        },
        Screen::Preview | Screen::History => None,
    }
}

fn repository_dialog(a: &App, cx: &DialogContext) -> (r: Option<Dialog>)
    requires
        a.active_screen == Screen::Repository,
    ensures
        match dialog_kind(*a) {
            DialogKind::Nothing => r is None,
            DialogKind::NamespaceQuestion => r matches Some(d) && is_confirm(
                d,
                "Confirm namespace change"@,
                namespace_target(*a, opt_view(cx.repository_dir)),
                a.repo_screen.namespace_confirmation->0@,
                "y: confirm"@,
                "n / Esc: cancel"@,
            ),
            DialogKind::RepositoryQuestion => {
                let initialize = a.repo_screen.confirm_state == ConfirmState::AskInitialize;
                r matches Some(d) && is_confirm(
                    d,
                    if initialize {
                        "Initialize namespace"@
                    } else {
                        "Attach namespace"@
                    },
                    if a.repo_screen.input@.len() == 0 {
                        None
                    } else {
                        Some(a.repo_screen.input@)
                    },
                    if initialize {
                        "This creates dothoard's ownership manifest only in the selected namespace."@
                    } else {
                        "This uses the existing matching ownership manifest; no sibling namespace is changed."@
                    },
                    "y: confirm"@,
                    "n / Esc: cancel"@,
                )
            },
            DialogKind::RepositoryPath => r matches Some(d) && is_input(
                d,
                "Repository path"@,
                "Existing Git worktree path"@,
                a.repo_screen.input@,
                a.repo_screen.cursor,
                path_note(*a),
                "Enter: validate"@,
                "Esc: browser"@,
            ),
            DialogKind::NamespaceName => r matches Some(d) && is_input(
                d,
                "Namespace"@,
                match a.repo_screen.namespace_action {
                    NamespaceAction::SelectOrCreate => "select or create"@,
                    NamespaceAction::Rename => "rename"@,
                    NamespaceAction::Delete => "delete (type replacement)"@,
                    NamespaceAction::Idle => "manage"@,
                },
                a.repo_screen.namespace_input@,
                a.repo_screen.namespace_cursor,
                match cx.repository_dir {
                    Some(dir) => Some((dir@, Tone::Muted)),
                    None => None,
                },
                "Enter: review"@,
                "Esc: cancel"@,
            ),
            _ => true,
        },
{
    let r = &a.repo_screen;
    if let Some(question) = &r.namespace_confirmation {
        let affected = match &cx.repository_dir {
            Some(dir) => {
                let name = if r.namespace_action == NamespaceAction::Delete {
                    r.namespace_origin.as_str()
                } else {
                    r.namespace_input.as_str()
                };
                Some(join_name(dir.as_str(), name))
            },
            None => None,
        };
        return Some(
            Dialog::Confirm {
                title: owned("Confirm namespace change"),
                affected,
                consequence: question.clone(),
                confirm: owned("y: confirm"),
                cancel: owned("n / Esc: cancel"),
            },
        );
    }
    if r.confirm_state == ConfirmState::AskInitialize || r.confirm_state == ConfirmState::AskAttach {
        let initialize = r.confirm_state == ConfirmState::AskInitialize;
        let affected = if crate::chars::chars_of(r.input.as_str()).len() == 0 {
            None
        } else {
            Some(r.input.clone())
        };
        return Some(
            Dialog::Confirm {
                title: owned(
                    if initialize {
                        "Initialize namespace"
                    } else {
                        "Attach namespace"
                    },
                ),
                affected,
                consequence: owned(
                    if initialize {
                        "This creates dothoard's ownership manifest only in the selected namespace."
                    } else {
                        "This uses the existing matching ownership manifest; no sibling namespace is changed."
                    },
                ),
                confirm: owned("y: confirm"),
                cancel: owned("n / Esc: cancel"),
            },
        );
    }
    match r.mode {
        RepoMode::TextInput => {
            let note = match &r.validation {
                LoadState::Failed { error, .. } => Some((error.clone(), Tone::Error)),
                LoadState::Loading { .. } => Some((owned("Checking repository…"), Tone::Progress)),
                _ => match &r.selection_error {
                    Some(e) => Some((e.clone(), Tone::Error)),
                    None => None,
                },
            };
            Some(
                Dialog::Input {
                    title: owned("Repository path"),
                    label: owned("Existing Git worktree path"),
                    text: r.input.clone(),
                    cursor: r.cursor,
                    note,
                    submit: owned("Enter: validate"),
                    cancel: owned("Esc: browser"),
                },
            )
        },
        RepoMode::NamespaceInput => {
            let note = match &cx.repository_dir {
                Some(dir) => Some((dir.clone(), Tone::Muted)),
                None => None,
            };
            Some(
                Dialog::Input {
                    title: owned("Namespace"),
                    label: owned(r.namespace_action_name()),
                    text: r.namespace_input.clone(),
                    cursor: r.namespace_cursor,
                    note,
                    submit: owned("Enter: review"),
                    cancel: owned("Esc: cancel"),
                },
            )
        },
        RepoMode::Browser | RepoMode::Namespaces => None,
    }
}

fn sources_dialog(a: &App) -> (r: Option<Dialog>)
    requires
        a.active_screen == Screen::Sources,
    ensures
        match dialog_kind(*a) {
            DialogKind::Nothing => r is None,
            DialogKind::AddSource => r matches Some(d) && is_input(
                d,
                "Add source"@,
                "Path relative to $HOME"@,
                a.sources_screen.input@,
                a.sources_screen.cursor,
                source_note(*a),
                "Enter: add"@,
                "Esc: browser"@,
            ),
            DialogKind::RemoveSource => r matches Some(d) && is_confirm(
                d,
                "Remove source"@,
                selected_source_path(*a),
                "This removes the source from configuration. It does not delete files from your home directory."@,
                "y: remove"@,
                "n / Esc: cancel"@,
            ),
            DialogKind::ReviewChanges => r matches Some(d) && is_confirm(
                d,
                "Review source changes"@,
                None,
                "Pending source changes require a decision. Apply them, discard them, or continue editing."@,
                "a: apply  d: discard"@,
                "c / Esc: continue editing"@,
            ),
            DialogKind::ApplyChanges => r matches Some(d) && is_confirm(
                d,
                "Apply source changes"@,
                changes_summary(*a),
                "Removing sources changes configuration and applies generated ignore rules. Existing backup data is not deleted here."@,
                "y: remove and apply"@,
                "n / Esc: back"@,
            ),
            _ => true,
        },
{
    let s = &a.sources_screen;
    match s.mode {
        crate::screens::sources::Mode::AddInput => {
            let note = match &s.message {
                Some(m) => Some((m.text.clone(), Tone::Error)),
                None => None,
            };
            Some(
                Dialog::Input {
                    title: owned("Add source"),
                    label: owned("Path relative to $HOME"),
                    text: s.input.clone(),
                    cursor: s.cursor,
                    note,
                    submit: owned("Enter: add"),
                    cancel: owned("Esc: browser"),
                },
            )
        },
        crate::screens::sources::Mode::ConfirmDelete => {
            let affected = match &a.config {
                Some(c) => if s.selected < c.sources.len() {
                    Some(c.sources[s.selected].path.clone())
                } else {
                    None
                },
                None => None,
            };
            Some(
                Dialog::Confirm {
                    title: owned("Remove source"),
                    affected,
                    consequence: owned(
                        "This removes the source from configuration. It does not delete files from your home directory.",
                    ),
                    confirm: owned("y: remove"),
                    cancel: owned("n / Esc: cancel"),
                },
            )
        },
        crate::screens::sources::Mode::PendingChanges => Some(
            Dialog::Confirm {
                title: owned("Review source changes"),
                affected: None,
                consequence: owned(
                    "Pending source changes require a decision. Apply them, discard them, or continue editing.",
                ),
                confirm: owned("a: apply  d: discard"),
                cancel: owned("c / Esc: continue editing"),
            },
        ),
        crate::screens::sources::Mode::ConfirmApply => {
            let summary = match &s.pending_diff {
                Some(d) => {
                    let mut t = crate::shell::count_text("", d.additions.len(), " additions, ");
                    let tail = crate::shell::count_text("", d.removals.len(), " removals");
                    push_str(&mut t, tail.as_str());
                    proof {
                        reveal_strlit("");
                        assert(""@ =~= Seq::<char>::empty());
                    }
                    assert(t@ =~= decimal(d.additions.len() as nat) + " additions, "@ + decimal(
                        d.removals.len() as nat,
                    ) + " removals"@);
                    Some(t)
                },
                None => None,
            };
            Some(
                Dialog::Confirm {
                    title: owned("Apply source changes"),
                    affected: summary,
                    consequence: owned(
                        "Removing sources changes configuration and applies generated ignore rules. Existing backup data is not deleted here.",
                    ),
                    confirm: owned("y: remove and apply"),
                    cancel: owned("n / Esc: back"),
                },
            )
        },
        crate::screens::sources::Mode::List | crate::screens::sources::Mode::Browse => None,
    }
}

} // verus!
