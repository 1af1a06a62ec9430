//! The words of the first-run setup: the step heading, the status of a
//! clone, the choices each step offers and the keys it takes.

use vstd::prelude::*;

use crate::chars::{decimal, owned, push_str};
use crate::overview::Tone;
use crate::screens::repository::RepoInfo;
use crate::setup::{AutomationBackend, AutomationField, CloneField, RepositoryMethod, RepositorySetupMode, SetupState, SetupStep};
use crate::task::{load_data, LoadState};
use crate::theme::{theme_at, theme_label, ThemeId, THEME_COUNT};

verus! {

/// Position of a step in the setup, from 1.
pub open spec fn step_number(step: SetupStep) -> nat {
    match step {
        SetupStep::Repository => 1,
        SetupStep::Namespace => 2,
        SetupStep::Automation => 3,
        SetupStep::Theme => 4,
    }
}

pub open spec fn step_name(step: SetupStep) -> Seq<char> {
    match step {
        SetupStep::Repository => "Repository"@,
        SetupStep::Namespace => "Namespace"@,
        SetupStep::Automation => "Automation"@,
        SetupStep::Theme => "Theme"@,
    }
}

/// The heading of a step: where it stands among the four, and its name.
pub fn step_heading(step: SetupStep) -> (r: (String, String))
    ensures
        r.0@ == "Step "@ + decimal(step_number(step)) + " of 4 · "@,
        r.1@ == step_name(step),
{
    let n: usize = match step {
        SetupStep::Repository => 1,
        SetupStep::Namespace => 2,
        SetupStep::Automation => 3,
        SetupStep::Theme => 4,
    };
    let head = crate::shell::count_text("Step ", n, " of 4 · ");
    let name = match step {
        SetupStep::Repository => owned("Repository"),
        SetupStep::Namespace => owned("Namespace"),
        SetupStep::Automation => owned("Automation"),
        SetupStep::Theme => owned("Theme"),
    };
    (head, name)
}

/// The keys the current step takes.
pub open spec fn help_of(s: SetupState) -> Seq<char> {
    match s.step {
        SetupStep::Repository => match s.repository_mode {
            RepositorySetupMode::Choose => "←→/↑↓ choose  Enter continue  Esc quit"@,
            RepositorySetupMode::Existing => "Space select repository  ↑↓←→ navigate  : type path  Esc back"@,
            RepositorySetupMode::Clone => "Tab/↑↓ switch field  Enter clone  Esc back  Ctrl+C quit"@,
        },
        SetupStep::Namespace => "↑↓ choose  Enter use  n new  Esc back"@,
        SetupStep::Automation => "←→ change backend  Tab interval  ↑↓ adjust  Enter continue  Esc back"@,
        SetupStep::Theme => "↑↓/jk live preview  Enter finish setup  Esc back"@,
    }
}

pub fn setup_help(s: &SetupState) -> (r: &'static str)
    ensures
        r@ == help_of(*s),
{
    match s.step {
        SetupStep::Repository => match s.repository_mode {
            RepositorySetupMode::Choose => "←→/↑↓ choose  Enter continue  Esc quit",
            RepositorySetupMode::Existing => "Space select repository  ↑↓←→ navigate  : type path  Esc back",
            RepositorySetupMode::Clone => "Tab/↑↓ switch field  Enter clone  Esc back  Ctrl+C quit",
        },
        SetupStep::Namespace => "↑↓ choose  Enter use  n new  Esc back",
        SetupStep::Automation => "←→ change backend  Tab interval  ↑↓ adjust  Enter continue  Esc back",
        SetupStep::Theme => "↑↓/jk live preview  Enter finish setup  Esc back",
    }
}

/// What the clone step says under its fields: a clone running, its
/// failure, the validation of a finished clone, or the rule for the
/// destination.
pub open spec fn clone_status_of(s: SetupState, validation: LoadState<RepoInfo>) -> (Seq<char>, Tone) {
    match s.clone_state {
        LoadState::Loading { .. } => ("Cloning repository…"@, Tone::Progress),
        LoadState::Failed { error, .. } => (error@, Tone::Error),
        _ => if load_data(s.clone_state) is Some {
            match validation {
                LoadState::Loading { .. } => ("Clone complete. Validating repository…"@, Tone::Progress),
                LoadState::Failed { error, .. } => (error@, Tone::Error),
                _ => ("Clone complete. Press Enter to validate again."@, Tone::Success),
            }
        } else {
            ("The destination must be a new path whose parent already exists."@, Tone::Muted)
        },
    }
}

pub fn clone_status(s: &SetupState, validation: &LoadState<RepoInfo>) -> (r: (String, Tone))
    ensures
        (r.0@, r.1) == clone_status_of(*s, *validation),
{
    if s.cloning() {
        return (owned("Cloning repository…"), Tone::Progress);
    }
    if let Some(error) = s.clone_error() {
        return (owned(error), Tone::Error);
    }
    if s.clone_state.data().is_some() {
        match validation {
            LoadState::Loading { .. } => (owned("Clone complete. Validating repository…"), Tone::Progress),
            LoadState::Failed { error, .. } => (error.clone(), Tone::Error),
            _ => (owned("Clone complete. Press Enter to validate again."), Tone::Success),
        }
    } else {
        (owned("The destination must be a new path whose parent already exists."), Tone::Muted)
    }
}

/// The mark in front of a choice: an arrow for the chosen one.
pub open spec fn marker(chosen: bool) -> Seq<char> {
    if chosen {
        "▶ "@
    } else {
        "  "@
    }
}

fn mark(chosen: bool) -> (r: String)
    ensures
        r@ == marker(chosen),
{
    owned(
        if chosen {
            "▶ "
        } else {
            "  "
        },
    )
}

/// One line of a list of choices.
#[derive(Debug)]
pub struct Choice {
    pub chosen: bool,
    pub label: String,
    pub detail: String,
}

pub open spec fn choice_view(c: Choice) -> (bool, Seq<char>, Seq<char>) {
    (c.chosen, c.label@, c.detail@)
}

pub open spec fn choices_view(v: Seq<Choice>) -> Seq<(bool, Seq<char>, Seq<char>)> {
    v.map_values(|c: Choice| choice_view(c))
}

/// How the repository can be obtained.
pub open spec fn method_choices(m: RepositoryMethod) -> Seq<(bool, Seq<char>, Seq<char>)> {
    seq![
        (m == RepositoryMethod::Existing, "Use an existing clone"@, " — browse to a dedicated Git worktree"@),
        (m == RepositoryMethod::Clone, "Clone from a Git URL"@, " — create a new local clone at a path you choose"@),
    ]
}

pub fn repository_methods(s: &SetupState) -> (r: Vec<Choice>)
    ensures
        choices_view(r@) == method_choices(s.repository_method),
{
    let mut r = Vec::new();
    r.push(
        Choice {
            chosen: s.repository_method == RepositoryMethod::Existing,
            label: owned("Use an existing clone"),
            detail: owned(" — browse to a dedicated Git worktree"),
        },
    );
    r.push(
        Choice {
            chosen: s.repository_method == RepositoryMethod::Clone,
            label: owned("Clone from a Git URL"),
            detail: owned(" — create a new local clone at a path you choose"),
        },
    );
    assert(choices_view(r@) =~= method_choices(s.repository_method));
    r
}

/// The scheduling backends, each name padded to nine columns.
pub open spec fn backend_choices(b: AutomationBackend) -> Seq<(bool, Seq<char>, Seq<char>)> {
    seq![
        (b == AutomationBackend::Systemd, "systemd  "@, " managed user timer; completion-relative scheduling"@),
        (b == AutomationBackend::Cron, "cron     "@, " managed crontab block; intervals 1–59 minutes"@),
        (b == AutomationBackend::External, "external "@, " you own scheduling; dothoard prints the command"@),
    ]
}

pub fn automation_backends(s: &SetupState) -> (r: Vec<Choice>)
    ensures
        choices_view(r@) == backend_choices(s.automation_backend),
{
    let mut r = Vec::new();
    r.push(
        Choice {
            chosen: s.automation_backend == AutomationBackend::Systemd,
            label: owned("systemd  "),
            detail: owned(" managed user timer; completion-relative scheduling"),
        },
    );
    r.push(
        Choice {
            chosen: s.automation_backend == AutomationBackend::Cron,
            label: owned("cron     "),
            detail: owned(" managed crontab block; intervals 1–59 minutes"),
        },
    );
    r.push(
        Choice {
            chosen: s.automation_backend == AutomationBackend::External,
            label: owned("external "),
            detail: owned(" you own scheduling; dothoard prints the command"),
        },
    );
    assert(choices_view(r@) =~= backend_choices(s.automation_backend));
    r
}

/// Every theme, the one being previewed chosen.
pub fn theme_choices(s: &SetupState) -> (r: Vec<Choice>)
    ensures
        r.len() == THEME_COUNT,
        forall|i: int|
            0 <= i < THEME_COUNT ==> choice_view(#[trigger] r@[i]) == (theme_at(i) == s.theme_selected, theme_label(
                theme_at(i),
            ), Seq::<char>::empty()),
{
    let mut r: Vec<Choice> = Vec::new();
    let mut i: usize = 0;
    while i < THEME_COUNT
        invariant
            i <= THEME_COUNT,
            r.len() == i,
            forall|k: int|
                0 <= k < i ==> choice_view(#[trigger] r@[k]) == (theme_at(k) == s.theme_selected, theme_label(
                    theme_at(k),
                ), Seq::<char>::empty()),
        decreases THEME_COUNT - i,
    {
        let id = ThemeId::from_index(i);
        let label = owned(id.label());
        let empty = String::new();
        r.push(Choice { chosen: id == s.theme_selected, label, detail: empty });
        i = i + 1;
    }
    r
}

/// The field labels of the clone step and the interval of the automation
/// step, marked when they have focus.
pub open spec fn field_labels(s: SetupState) -> (Seq<char>, Seq<char>, Seq<char>) {
    (
        marker(s.clone_field == CloneField::Url) + "Git URL: "@,
        marker(s.clone_field == CloneField::Destination) + "Local path: "@,
        marker(s.automation_field == AutomationField::Interval) + "Interval (minutes): "@,
    )
}

pub fn setup_field_labels(s: &SetupState) -> (r: (String, String, String))
    ensures
        (r.0@, r.1@, r.2@) == field_labels(*s),
{
    let mut url = mark(s.clone_field == CloneField::Url);
    push_str(&mut url, "Git URL: ");
    let mut dest = mark(s.clone_field == CloneField::Destination);
    push_str(&mut dest, "Local path: ");
    let mut interval = mark(s.automation_field == AutomationField::Interval);
    push_str(&mut interval, "Interval (minutes): ");
    (url, dest, interval)
}

} // verus!
