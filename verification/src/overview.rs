//! The dashboard's summaries: backup health, automation and check status,
//! the latest issue and the one action that best moves the user forward.

use vstd::prelude::*;

use crate::chars::{decimal, owned, push_decimal, push_str, same_str};
use crate::listing::{field_wrap_width, wrapped_field};
use crate::screens::history::{format_utc_time, utc_time_text, Timestamp};
use crate::shell::App;
use crate::text::wrapped;
use crate::task::{is_first_issue, CheckItem, CheckItemStatus, CheckResult, LoadState, TaskKind};

verus! {

/// How a summary is coloured.
#[derive(Debug, Clone, Copy, PartialEq, Eq, Structural)]
pub enum Tone {
    Success,
    Warning,
    Error,
    Progress,
    Muted,
}

/// What the recorded run history says, as far as the dashboard needs it.
#[derive(Debug, Clone)]
pub struct RunSummary {
    /// Error of the latest run, if it failed.
    pub latest_error: Option<String>,
    /// Warning of the latest run, if it had one.
    pub latest_warning: Option<String>,
    /// When a backup last succeeded.
    pub last_success: Option<Timestamp>,
    /// Commits wait to be pushed.
    pub pending_push: bool,
    /// When commits were last pushed.
    pub last_push: Option<Timestamp>,
}

/// The latest run failed or the last check found a problem.
pub open spec fn needs_attention(a: App, run: RunSummary) -> bool {
    run.latest_error is Some || (a.last_check matches Some(c) && !c.healthy)
}

/// The headline of backup health.
pub open spec fn health_of(a: App, run: RunSummary) -> (Seq<char>, Tone) {
    if a.config is None {
        ("UNCONFIGURED — setup required"@, Tone::Warning)
    } else if a.tasks@.active == Some(TaskKind::Backup) {
        ("RUNNING — backup in progress"@, Tone::Progress)
    } else if needs_attention(a, run) {
        ("NEEDS ATTENTION — review the latest issue"@, Tone::Error)
    } else if run.last_success is None {
        ("NO SUCCESSFUL BACKUP YET"@, Tone::Warning)
    } else {
        ("HEALTHY"@, Tone::Success)
    }
}

/// The headline of backup health.
pub fn dashboard_health(a: &App, run: &RunSummary) -> (r: (String, Tone))
    ensures
        (r.0@, r.1) == health_of(*a, *run),
{
    if a.config.is_none() {
        return (owned("UNCONFIGURED — setup required"), Tone::Warning);
    }
    if a.tasks.active_task() == Some(TaskKind::Backup) {
        return (owned("RUNNING — backup in progress"), Tone::Progress);
    }
    let unhealthy = match &a.last_check {
        Some(c) => !c.healthy,
        None => false,
    };
    if run.latest_error.is_some() || unhealthy {
        return (owned("NEEDS ATTENTION — review the latest issue"), Tone::Error);
    }
    if run.last_success.is_none() {
        return (owned("NO SUCCESSFUL BACKUP YET"), Tone::Warning);
    }
    (owned("HEALTHY"), Tone::Success)
}

/// Whether the inspected automation status reads `active`.
pub open spec fn automation_active(s: LoadState<String>) -> bool {
    s matches LoadState::Loaded(status) && status@ == "active"@
}

/// The automation summary.
pub open spec fn automation_of(s: LoadState<String>) -> (Seq<char>, Tone) {
    match s {
        LoadState::Loaded(status) => (status@, if status@ == "active"@ { Tone::Success } else { Tone::Warning }),
        LoadState::Loading { .. } => ("Checking automation status…"@, Tone::Progress),
        LoadState::Stale { previous } => match previous {
            Some(status) => ("Stale: "@ + status@, Tone::Warning),
            None => ("Unavailable — not inspected yet (press a)"@, Tone::Warning),
        },
        LoadState::NotLoaded => ("Unavailable — not inspected yet (press a)"@, Tone::Warning),
        LoadState::Failed { error, previous } => (
            match previous {
                Some(status) => "Unavailable: "@ + error@ + "; previous "@ + status@,
                None => "Unavailable: "@ + error@,
            },
            Tone::Error,
        ),
    }
}

/// The automation summary of the dashboard.
pub fn dashboard_automation(a: &App) -> (r: (String, Tone))
    ensures
        (r.0@, r.1) == automation_of(a.automation_screen.status_state),
{
    match &a.automation_screen.status_state {
        LoadState::Loaded(status) => {
            let tone = if same_str(status.as_str(), "active") {
                Tone::Success
            } else {
                Tone::Warning
            };
            (status.clone(), tone)
        },
        LoadState::Loading { .. } => (owned("Checking automation status…"), Tone::Progress),
        LoadState::Stale { previous } => match previous {
            Some(status) => {
                let mut t = owned("Stale: ");
                push_str(&mut t, status.as_str());
                (t, Tone::Warning)
            },
            None => (owned("Unavailable — not inspected yet (press a)"), Tone::Warning),
        },
        LoadState::NotLoaded => (owned("Unavailable — not inspected yet (press a)"), Tone::Warning),
        LoadState::Failed { error, previous } => {
            let mut t = owned("Unavailable: ");
            push_str(&mut t, error.as_str());
            if let Some(status) = previous {
                push_str(&mut t, "; previous ");
                push_str(&mut t, status.as_str());
            }
            (t, Tone::Error)
        },
    }
}

/// How a check item is reported: its label, then its detail.
pub open spec fn issue_text(item: CheckItem) -> Seq<char> {
    item.label@ + ": "@ + match item.detail {
        Some(d) => d@,
        None => "needs attention"@,
    }
}

/// The check's first error, or else its first warning.
pub open spec fn first_issue(c: CheckResult) -> Option<CheckItem> {
    if exists|i: int| is_first_issue(c.results@, i) {
        Some(c.results@[choose|i: int| is_first_issue(c.results@, i)])
    } else {
        None
    }
}

/// At most one item is a check's first issue.
pub proof fn lemma_first_issue_unique(items: Seq<CheckItem>, i: int, j: int)
    requires
        is_first_issue(items, i),
        is_first_issue(items, j),
    ensures
        i == j,
{
    if i < j {
        assert(items[i].status != CheckItemStatus::Passed);
    } else if j < i {
        assert(items[j].status != CheckItemStatus::Passed);
    }
}

fn issue_string(item: &CheckItem) -> (t: String)
    ensures
        t@ == issue_text(*item),
{
    let mut t = item.label.clone();
    push_str(&mut t, ": ");
    match &item.detail {
        Some(d) => push_str(&mut t, d.as_str()),
        None => push_str(&mut t, "needs attention"),
    }
    t
}

/// The first issue of a check as reported text.
fn check_issue(c: &CheckResult) -> (r: Option<String>)
    ensures
        match first_issue(*c) {
            Some(item) => r matches Some(t) && t@ == issue_text(item),
            None => r is None,
        },
{
    match crate::task::first_check_issue(c) {
        Some(item) => {
            proof {
                let i = choose|i: int| #[trigger] is_first_issue(c.results@, i) && c.results@[i] == *item;
                let k = choose|k: int| is_first_issue(c.results@, k);
                lemma_first_issue_unique(c.results@, i, k);
            }
            Some(issue_string(item))
        },
        None => {
            assert forall|i: int| !is_first_issue(c.results@, i) by {
                if is_first_issue(c.results@, i) {
                    assert(c.results@[i].status == CheckItemStatus::Passed);
                }
            }
            None
        },
    }
}

/// The latest-check summary.
pub open spec fn check_of(a: App) -> (Seq<char>, Tone) {
    if a.tasks@.active == Some(TaskKind::Check) {
        ("Checking repository…"@, Tone::Progress)
    } else {
        match a.last_check {
            None => if a.config is Some {
                ("Unavailable — run check (c)"@, Tone::Warning)
            } else {
                ("Unavailable — configure repository first"@, Tone::Warning)
            },
            Some(c) => if c.healthy {
                ("All checks passed"@, Tone::Success)
            } else {
                match first_issue(c) {
                    Some(item) => (issue_text(item), Tone::Error),
                    None => ("Checks reported an unspecified issue"@, Tone::Error),
                }
            },
        }
    }
}

/// The latest-check summary of the dashboard.
pub fn dashboard_check(a: &App) -> (r: (String, Tone))
    ensures
        (r.0@, r.1) == check_of(*a),
{
    if a.tasks.active_task() == Some(TaskKind::Check) {
        return (owned("Checking repository…"), Tone::Progress);
    }
    match &a.last_check {
        None => if a.config.is_some() {
            (owned("Unavailable — run check (c)"), Tone::Warning)
        } else {
            (owned("Unavailable — configure repository first"), Tone::Warning)
        },
        Some(c) => if c.healthy {
            (owned("All checks passed"), Tone::Success)
        } else {
            match check_issue(c) {
                Some(t) => (t, Tone::Error),
                None => (owned("Checks reported an unspecified issue"), Tone::Error),
            }
        },
    }
}

/// The latest issue: the check's first problem, else the latest run's
/// error, else its warning.
pub open spec fn issue_of(a: App, run: RunSummary) -> Option<(Seq<char>, Tone)> {
    if a.last_check matches Some(c) && first_issue(c) is Some {
        Some((issue_text(first_issue(a.last_check->0)->0), Tone::Error))
    } else {
        match run.latest_error {
            Some(e) => Some((e@, Tone::Error)),
            None => match run.latest_warning {
                Some(w) => Some((w@, Tone::Warning)),
                None => None,
            },
        }
    }
}

/// The latest issue of the dashboard, if there is one.
pub fn dashboard_issue(a: &App, run: &RunSummary) -> (r: Option<(String, Tone)>)
    ensures
        match issue_of(*a, *run) {
            Some((t, tone)) => r matches Some(p) && p.0@ == t && p.1 == tone,
            None => r is None,
        },
{
    if let Some(c) = &a.last_check {
        if let Some(t) = check_issue(c) {
            return Some((t, Tone::Error));
        }
    }
    match &run.latest_error {
        Some(e) => Some((e.clone(), Tone::Error)),
        None => match &run.latest_warning {
            Some(w) => Some((w.clone(), Tone::Warning)),
            None => None,
        },
    }
}

/// The one action that best moves the user forward.
pub open spec fn action_of(a: App, run: RunSummary) -> Seq<char> {
    if a.config is None {
        "Configure repository (r)"@
    } else if needs_attention(a, run) {
        "Run a check (c)"@
    } else if run.pending_push {
        "Push pending commits (p)"@
    } else if !automation_active(a.automation_screen.status_state) {
        "Review automation (a)"@
    } else {
        "No action needed — run backup when ready (b)"@
    }
}

/// The recommended next action of the dashboard.
pub fn dashboard_action(a: &App, run: &RunSummary) -> (r: String)
    ensures
        r@ == action_of(*a, *run),
{
    let unhealthy = match &a.last_check {
        Some(c) => !c.healthy,
        None => false,
    };
    let active = match &a.automation_screen.status_state {
        LoadState::Loaded(status) => same_str(status.as_str(), "active"),
        _ => false,
    };
    if a.config.is_none() {
        owned("Configure repository (r)")
    } else if run.latest_error.is_some() || unhealthy {
        owned("Run a check (c)")
    } else if run.pending_push {
        owned("Push pending commits (p)")
    } else if !active {
        owned("Review automation (a)")
    } else {
        owned("No action needed — run backup when ready (b)")
    }
}

/// An instant as the dashboard shows it.
pub open spec fn time_text(t: Timestamp) -> Seq<char> {
    utc_time_text(t.secs, t.nanos) + " UTC"@
}

fn format_time(t: Timestamp) -> (r: String)
    ensures
        r@ == time_text(t),
{
    let mut r = format_utc_time(t.secs, t.nanos);
    push_str(&mut r, " UTC");
    r
}

/// When a backup last succeeded, or `Never`.
pub fn last_success_text(run: &RunSummary) -> (r: String)
    ensures
        r@ == match run.last_success {
            Some(t) => time_text(t),
            None => "Never"@,
        },
{
    match run.last_success {
        Some(t) => format_time(t),
        None => owned("Never"),
    }
}

/// When commits were last pushed, if they ever were.
pub fn last_push_text(run: &RunSummary) -> (r: Option<String>)
    ensures
        match run.last_push {
            Some(t) => r matches Some(s) && s@ == time_text(t),
            None => r is None,
        },
{
    match run.last_push {
        Some(t) => Some(format_time(t)),
        None => None,
    }
}

/// What the repository-details card shows of the configuration.
#[derive(Debug)]
pub struct RepositoryDetails {
    /// The repository path, wrapped after its label.
    pub path: Vec<String>,
    pub namespace: String,
    /// The number of sources, in decimal.
    pub sources: String,
}

/// The repository details of the dashboard; `None` when nothing is
/// configured.
pub fn repository_details(a: &App, width: u16) -> (r: Option<RepositoryDetails>)
    ensures
        match a.config {
            None => r is None,
            Some(c) => r matches Some(d)
                && d.path@.map_values(|s: String| s@) == wrapped(c.repository@, field_wrap_width("  Path"@, width))
                && d.namespace@ == c.namespace@
                && d.sources@ == decimal(c.sources@.len()),
        },
{
    match &a.config {
        None => None,
        Some(c) => {
            let path = wrapped_field("  Path", c.repository.as_str(), width);
            let mut sources = String::new();
            push_decimal(&mut sources, c.sources.len() as u64);
            proof {
                assert(sources@ =~= decimal(c.sources@.len()));
            }
            Some(RepositoryDetails { path, namespace: c.namespace.clone(), sources })
        },
    }
}

/// What the remote-synchronization card says of pending commits.
pub fn pending_push_text(run: &RunSummary) -> (r: (String, Tone))
    ensures
        run.pending_push ==> r.0@ == "  Pending commits need push"@ && r.1 == Tone::Warning,
        !run.pending_push ==> r.0@ == "  No pending commits"@ && r.1 == Tone::Success,
{
    if run.pending_push {
        (owned("  Pending commits need push"), Tone::Warning)
    } else {
        (owned("  No pending commits"), Tone::Success)
    }
}

} // verus!
