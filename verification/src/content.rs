//! Key handling inside the active tab's content, and the background work
//! it starts.
//!
//! Each handler updates the screens and the configuration and says what
//! outside work, if any, the caller performs next: spawning a worker with a
//! request identity, saving the configuration, or consulting the browser.

use vstd::prelude::*;

use crate::chars::{byte_len, owned};
use crate::keys::{is_focus_escape, KeyCode, KeyEvent, NO_MODIFIERS};
use crate::paths::{parts_of, PathKey};
use crate::screens::automation::{is_no, is_yes, AutomationScreen, ConfirmAction};
use crate::screens::dashboard::DashboardScreen;
use crate::screens::history::{answers_key as history_answers, Action as HistoryAction};
use crate::screens::ignore::{answers_key as ignore_answers, Action as IgnoreAction, IgnoreScreen};
use crate::screens::repository::{
    namespace_begun, repo_key_step, ConfirmState, KeyResult, NamespaceAction, RepoMode, RepoScreen,
};
use crate::screens::sources::{
    sources_key_step as sources_answers, Action as SourcesAction, Mode as SourcesMode, SourcesScreen,
};
use crate::selection::{lemma_loaded_same_paths, loaded, selection_wf};
use crate::shell::{
    apply_chosen, diff_executed, diff_fits, needs_loading, pattern_added, pattern_removed, selection_applied,
    selection_discarded, source_removed, App, Config, Focus, Screen,
};
use crate::status::{StatusKind, StatusMessage};
use crate::task::{
    live_request, load_began, load_begun, load_data, load_is_loading, loads_with, CheckItem, CheckItemStatus,
    CheckResult, LoadState, LoadTaskKind, RequestId, TaskKind, TaskModel,
};

verus! {

/// Outside work a content key asks for.
#[derive(Debug)]
pub enum Work {
    /// Nothing more.
    Nothing,
    /// Save the configuration.
    SaveConfig,
    /// Spawn the validation of the typed repository path.
    ValidateRepository { request_id: RequestId, input: String, namespace: String },
    /// Spawn the backup preview.
    PreviewBackup { request_id: RequestId },
    /// Spawn the ignore preview of a source.
    PreviewIgnore { request_id: RequestId, source_idx: usize, source_path: String, patterns: Vec<String> },
    /// Spawn the automation inspection.
    InspectAutomation { request_id: RequestId },
    /// Spawn the user operation that was just marked running.
    RunOperation(TaskKind),
    /// Check the typed source path against the file system, then call
    /// `handle_add_source`.
    ValidateSource(String),
    /// Run the namespace operation entered on the repository screen.
    NamespaceOperation,
    /// Initialize or attach the validated repository, then call
    /// `RepoScreen::confirm`.
    ConfirmRepository,
    /// Install or remove the automation backend, then report to the
    /// automation screen.
    InstallAutomation,
    RemoveAutomation,
    /// Read the logs of the selected history entry.
    OpenLogs(usize),
    /// List the namespaces of the configured repository (the screen already
    /// shows the list).
    ListNamespaces,
    /// Open the filesystem browser (of the repository or sources screen).
    OpenBrowser,
    /// Hand the entry under the browser cursor to the screen.
    SelectEntry,
    /// Run the picker on the key and hand its action to the screen.
    PickerKey(KeyEvent),
}

/// The status shown after a content key, when it published one.
pub open spec fn shows(a: App, kind: StatusKind, text: Seq<char>) -> bool {
    a.status_message matches Some(m) && m@.kind == kind && m@.text == text
}

/// A status of `kind` with `text` was published over `prev`: it shows
/// unless `prev` is a more important message that stays.
pub open spec fn announced(prev: Option<StatusMessage>, a: App, kind: StatusKind, text: Seq<char>) -> bool {
    if match prev {
        None => true,
        Some(c) => c@.kind == StatusKind::Running || crate::status::kind_rank(kind) >= crate::status::kind_rank(
            c@.kind,
        ),
    } {
        shows(a, kind, text)
    } else {
        a.status_message == prev
    }
}

/// `b` is `a` with a status of `kind` and `text` published.
pub open spec fn told(a: App, b: App, kind: StatusKind, text: Seq<char>) -> bool {
    &&& announced(a.status_message, b, kind, text)
    &&& b == (App { status_message: b.status_message, ..a })
}

/// The user operation `kind` was marked running and announced with `text`.
pub open spec fn operation_began(a: App, b: App, w: Work, kind: TaskKind, text: Seq<char>) -> bool {
    &&& w == Work::RunOperation(kind)
    &&& b.tasks@ == (TaskModel { active: Some(kind), ..a.tasks@ })
    &&& announced(a.status_message, b, StatusKind::Running, text)
    &&& b == (App { tasks: b.tasks, status_message: b.status_message, ..a })
}

/// How the backup preview starts: not while one loads; failing without a
/// configuration or the application paths; otherwise under the next
/// request identity, unless a request is already live.
pub open spec fn backup_preview_began(a: App, paths_ready: bool, b: App, w: Work) -> bool {
    let s = a.preview_screen.load_state;
    if load_is_loading(s) {
        w is Nothing && b == a
    } else if a.config is None || !paths_ready {
        &&& w is Nothing
        &&& b == (App { preview_screen: b.preview_screen, ..a })
        &&& b.preview_screen.scroll == a.preview_screen.scroll
        &&& b.preview_screen.load_state matches LoadState::Failed { error, previous }
        &&& previous == load_data(s)
        &&& error@ == if a.config is None {
            "No configuration loaded."@
        } else {
            "Application paths are unavailable."@
        }
    } else if live_request(a.tasks@, LoadTaskKind::BackupPreview) is Some {
        w is Nothing && b.tasks@ == a.tasks@ && b == (App { tasks: b.tasks, ..a })
    } else {
        &&& w matches Work::PreviewBackup { request_id } && request_id@ == a.tasks@.next
            && b.preview_screen.load_state == load_began(s, request_id, true)
        &&& load_begun(a.tasks@, LoadTaskKind::BackupPreview, b.tasks@)
        &&& b.preview_screen.scroll == a.preview_screen.scroll
        &&& b == (App { tasks: b.tasks, preview_screen: b.preview_screen, ..a })
    }
}

/// How the automation inspection starts, in the same way as the backup
/// preview.
pub open spec fn automation_inspection_began(a: App, paths_ready: bool, b: App, w: Work) -> bool {
    let s = a.automation_screen.status_state;
    if load_is_loading(s) {
        w is Nothing && b == a
    } else if a.config is None || !paths_ready {
        &&& w is Nothing
        &&& b == (App { automation_screen: b.automation_screen, ..a })
        &&& b.automation_screen == (AutomationScreen { status_state: b.automation_screen.status_state, ..a.automation_screen })
        &&& b.automation_screen.status_state matches LoadState::Failed { error, previous }
        &&& previous == load_data(s)
        &&& error@ == if a.config is None {
            "No configuration loaded."@
        } else {
            "Application paths are unavailable."@
        }
    } else if live_request(a.tasks@, LoadTaskKind::AutomationInspection) is Some {
        w is Nothing && b.tasks@ == a.tasks@ && b == (App { tasks: b.tasks, ..a })
    } else {
        &&& w matches Work::InspectAutomation { request_id } && request_id@ == a.tasks@.next
            && b.automation_screen == (AutomationScreen { status_state: load_began(s, request_id, true), ..a.automation_screen })
        &&& load_begun(a.tasks@, LoadTaskKind::AutomationInspection, b.tasks@)
        &&& b == (App { tasks: b.tasks, automation_screen: b.automation_screen, ..a })
    }
}

/// `a` with the automation screen's confirmation set to `confirm`.
pub open spec fn confirming(a: App, confirm: ConfirmAction) -> App {
    App { automation_screen: AutomationScreen { confirm, ..a.automation_screen }, ..a }
}

/// The views of optional texts.
pub open spec fn optional_text(o: Option<&str>) -> Option<Seq<char>> {
    match o {
        Some(t) => Some(t@),
        None => None,
    }
}

/// The views of optional owned texts.
pub open spec fn optional_string(o: Option<String>) -> Option<Seq<char>> {
    match o {
        Some(t) => Some(t@),
        None => None,
    }
}

/// `i` is the first item of a check that did not pass.
pub open spec fn first_unpassed(items: Seq<CheckItem>, i: int) -> bool {
    &&& 0 <= i < items.len()
    &&& items[i].status != CheckItemStatus::Passed
    &&& forall|j: int| 0 <= j < i ==> items[j].status == CheckItemStatus::Passed
}

/// At most one item is the first that did not pass.
pub proof fn lemma_first_unpassed_unique(items: Seq<CheckItem>, i: int, j: int)
    requires
        first_unpassed(items, i),
        first_unpassed(items, j),
    ensures
        i == j,
{
    if i < j {
        assert(items[i].status == CheckItemStatus::Passed);
    } else if j < i {
        assert(items[j].status == CheckItemStatus::Passed);
    }
}

/// What `d` opens on the dashboard, as a title and a text: the first check
/// item that did not pass, else the latest run's error, else its warning.
pub open spec fn detail_of(
    check: Option<CheckResult>,
    latest_error: Option<Seq<char>>,
    latest_warning: Option<Seq<char>>,
) -> Option<(Seq<char>, Seq<char>)> {
    if check matches Some(c) && exists|i: int| first_unpassed(c.results@, i) {
        let items = check->0.results@;
        let item = items[choose|i: int| first_unpassed(items, i)];
        Some(
            (
                "Check: "@ + item.label@,
                match item.detail {
                    Some(d) => d@,
                    None => item.label@,
                },
            ),
        )
    } else {
        match latest_error {
            Some(e) => Some(("Latest backup error"@, e)),
            None => match latest_warning {
                Some(w) => Some(("Latest backup warning"@, w)),
                None => None,
            },
        }
    }
}

/// How the validation of the typed repository path starts: not while one
/// runs; failing without the application paths; otherwise under the next
/// request identity, unless a request is already live, with the path and
/// the namespace to use (the configured one, else the typed one).
pub open spec fn repository_validation_began(a: App, paths_ready: bool, b: App, w: Work) -> bool {
    let rs = a.repo_screen;
    if load_is_loading(rs.validation) {
        w is Nothing && b == a
    } else if !paths_ready {
        &&& w is Nothing
        &&& b == (App { repo_screen: RepoScreen { validation: b.repo_screen.validation, ..rs }, ..a })
        &&& b.repo_screen.validation matches LoadState::Failed { error, previous }
        &&& error@ == "Application paths are unavailable."@
        &&& previous is None
    } else if live_request(a.tasks@, LoadTaskKind::RepositoryValidation) is Some {
        w is Nothing && b.tasks@ == a.tasks@ && b == (App { tasks: b.tasks, ..a })
    } else {
        &&& w matches Work::ValidateRepository { request_id, input, namespace }
            && request_id@ == a.tasks@.next && input@ == rs.input@
            && namespace@ == match a.config {
                Some(c) => c.namespace@,
                None => rs.namespace_input@,
            }
            && b.repo_screen == (RepoScreen {
                validation: load_began(rs.validation, request_id, false),
                confirm_state: ConfirmState::Idle,
                ..rs
            })
        &&& load_begun(a.tasks@, LoadTaskKind::RepositoryValidation, b.tasks@)
        &&& b == (App { tasks: b.tasks, repo_screen: b.repo_screen, ..a })
    }
}

/// `mid` is `a` once the repository screen became `s` on a key: a changed
/// path forgets its validation, the validation's live request and any
/// confirmation.
pub open spec fn path_settled(a: App, s: RepoScreen, mid: App) -> bool {
    &&& mid == (App { repo_screen: mid.repo_screen, tasks: mid.tasks, ..a })
    &&& if s.input@ != a.repo_screen.input@ {
        &&& mid.repo_screen == (RepoScreen {
            validation: LoadState::NotLoaded,
            confirm_state: ConfirmState::Idle,
            ..s
        })
        &&& forall|k: LoadTaskKind| #[trigger] live_request(mid.tasks@, k) == loads_with(
            a.tasks@,
            LoadTaskKind::RepositoryValidation,
            None,
            k,
        )
        &&& mid.tasks@.active == a.tasks@.active
        &&& mid.tasks@.next == a.tasks@.next
    } else {
        mid.repo_screen == s && mid.tasks@ == a.tasks@
    }
}

/// What the application makes of the repository screen's answer `kr`.
pub open spec fn repository_outcome(mid: App, kr: KeyResult, key: KeyEvent, paths_ready: bool, b: App, r: (bool, Work)) -> bool {
    if kr == KeyResult::Validate {
        r.0 && repository_validation_began(mid, paths_ready, b, r.1)
    } else {
        b == mid && r == match kr {
            KeyResult::Namespace => (true, Work::NamespaceOperation),
            KeyResult::Confirm => (true, if paths_ready { Work::ConfirmRepository } else { Work::Nothing }),
            KeyResult::SelectEntry => (true, Work::SelectEntry),
            KeyResult::ToPicker => (true, Work::PickerKey(key)),
            KeyResult::NotConsumed => (false, Work::Nothing),
            _ => (true, Work::Nothing),
        }
    }
}

/// How the ignore preview of source `src_idx` starts: not while one loads;
/// failing without a configuration, such a source or the application paths;
/// otherwise under the next request identity, unless a request is already
/// live, with the source's path and patterns.
pub open spec fn ignore_preview_began(a: App, src_idx: usize, paths_ready: bool, b: App, w: Work) -> bool {
    let s = a.ignore_screen.preview_state;
    if load_is_loading(s) {
        w is Nothing && b == a
    } else if !(a.config matches Some(c) && src_idx < c.sources.len()) || !paths_ready {
        &&& w is Nothing
        &&& b == (App { ignore_screen: IgnoreScreen { preview_state: b.ignore_screen.preview_state, ..a.ignore_screen }, ..a })
        &&& b.ignore_screen.preview_state matches LoadState::Failed { error, previous }
        &&& previous == load_data(s)
        &&& error@ == if a.config is None {
            "No configuration loaded."@
        } else if src_idx >= a.config->0.sources.len() {
            "No source selected."@
        } else {
            "Application paths are unavailable."@
        }
    } else if live_request(a.tasks@, LoadTaskKind::IgnorePreview) is Some {
        w is Nothing && b.tasks@ == a.tasks@ && b == (App { tasks: b.tasks, ..a })
    } else {
        let src = a.config->0.sources@[src_idx as int];
        &&& w matches Work::PreviewIgnore { request_id, source_idx, source_path, patterns }
            && request_id@ == a.tasks@.next && source_idx == src_idx && source_path@ == src.path@
            && patterns@ == src.ignore@
            && b.ignore_screen == (IgnoreScreen { preview_state: load_began(s, request_id, true), ..a.ignore_screen })
        &&& load_begun(a.tasks@, LoadTaskKind::IgnorePreview, b.tasks@)
        &&& b == (App { tasks: b.tasks, ignore_screen: b.ignore_screen, ..a })
    }
}

/// How the preview screen answers a scrolling key at offset `scroll`:
/// whether it was consumed, and the offset after.
pub open spec fn preview_scrolled(scroll: usize, key: KeyEvent) -> (bool, int) {
    match key.code {
        KeyCode::Up | KeyCode::Char('k') => if scroll > 0 {
            (true, scroll - 1)
        } else {
            (false, 0)
        },
        KeyCode::Down | KeyCode::Char('j') => (true, scroll + 1),
        KeyCode::Home => (true, 0),
        _ => (false, scroll as int),
    }
}

impl App {
    /// Start the ignore preview of source `src_idx`.
    pub fn start_ignore_preview(&mut self, src_idx: usize, paths_ready: bool) -> (w: Work)
        ensures
            ignore_preview_began(*old(self), src_idx, paths_ready, *final(self), w),
    {
        if self.ignore_screen.preview_state.is_loading() {
            return Work::Nothing;
        }
        let (path, patterns) = match &self.config {
            None => {
                self.ignore_screen.preview_state.fail(owned("No configuration loaded."), true);
                return Work::Nothing;
            },
            Some(config) => {
                if src_idx >= config.sources.len() {
                    self.ignore_screen.preview_state.fail(owned("No source selected."), true);
                    return Work::Nothing;
                }
                (config.sources[src_idx].path.clone(), crate::selection::copy_strings(&config.sources[src_idx].ignore))
            },
        };
        if !paths_ready {
            self.ignore_screen.preview_state.fail(owned("Application paths are unavailable."), true);
            return Work::Nothing;
        }
        match self.tasks.begin_load(LoadTaskKind::IgnorePreview) {
            Some(request_id) => {
                self.ignore_screen.preview_state.begin(request_id, true);
                Work::PreviewIgnore { request_id, source_idx: src_idx, source_path: path, patterns }
            },
            None => Work::Nothing,
        }
    }

    /// Start the backup preview.
    pub fn start_backup_preview(&mut self, paths_ready: bool) -> (w: Work)
        ensures
            backup_preview_began(*old(self), paths_ready, *final(self), w),
            w is Nothing || w is PreviewBackup,
            old(self).preview_screen.load_state is Loading ==> w is Nothing && final(self).preview_screen.load_state
                == old(self).preview_screen.load_state,
            !(old(self).preview_screen.load_state is Loading) && old(self).config is None ==> w is Nothing
                && (final(self).preview_screen.load_state matches LoadState::Failed { error, .. } && error@
                == "No configuration loaded."@),
            w matches Work::PreviewBackup { request_id } ==> final(self).preview_screen.load_state == load_began(
                old(self).preview_screen.load_state,
                request_id,
                true,
            ),
            final(self).config == old(self).config,
    {
        if self.preview_screen.load_state.is_loading() {
            return Work::Nothing;
        }
        if self.config.is_none() {
            self.preview_screen.load_state.fail(owned("No configuration loaded."), true);
            return Work::Nothing;
        }
        if !paths_ready {
            self.preview_screen.load_state.fail(owned("Application paths are unavailable."), true);
            return Work::Nothing;
        }
        match self.tasks.begin_load(LoadTaskKind::BackupPreview) {
            Some(request_id) => {
                self.preview_screen.load_state.begin(request_id, true);
                Work::PreviewBackup { request_id }
            },
            None => Work::Nothing,
        }
    }

    /// Start the automation inspection.
    pub fn start_automation_inspection(&mut self, paths_ready: bool) -> (w: Work)
        ensures
            automation_inspection_began(*old(self), paths_ready, *final(self), w),
    {
        if self.automation_screen.status_state.is_loading() {
            return Work::Nothing;
        }
        if self.config.is_none() {
            self.automation_screen.status_state.fail(owned("No configuration loaded."), true);
            return Work::Nothing;
        }
        if !paths_ready {
            self.automation_screen.status_state.fail(owned("Application paths are unavailable."), true);
            return Work::Nothing;
        }
        match self.tasks.begin_load(LoadTaskKind::AutomationInspection) {
            Some(request_id) => {
                self.automation_screen.status_state.begin(request_id, true);
                Work::InspectAutomation { request_id }
            },
            None => Work::Nothing,
        }
    }

    /// Start validating the typed repository path, for the configured
    /// namespace (or the typed one before there is a configuration).
    pub fn start_repository_validation(&mut self, paths_ready: bool) -> (w: Work)
        ensures
            repository_validation_began(*old(self), paths_ready, *final(self), w),
    {
        if self.repo_screen.validation.is_loading() {
            return Work::Nothing;
        }
        if !paths_ready {
            self.repo_screen.validation.fail(owned("Application paths are unavailable."), false);
            return Work::Nothing;
        }
        let namespace = match &self.config {
            Some(c) => c.namespace.clone(),
            None => self.repo_screen.namespace_input.clone(),
        };
        match self.tasks.begin_load(LoadTaskKind::RepositoryValidation) {
            Some(request_id) => {
                self.repo_screen.validation.begin(request_id, false);
                self.repo_screen.confirm_state = crate::screens::repository::ConfirmState::Idle;
                Work::ValidateRepository { request_id, input: self.repo_screen.input.clone(), namespace }
            },
            None => Work::Nothing,
        }
    }

    /// Mark a user operation running and announce it.
    fn run_operation(&mut self, kind: TaskKind, announcement: &str) -> (w: Work)
        ensures
            old(self).tasks@.active is None ==> operation_began(*old(self), *final(self), w, kind, announcement@),
            old(self).tasks@.active is Some ==> w is Nothing && final(self).tasks@ == old(self).tasks@
                && *final(self) == (App { tasks: final(self).tasks, ..*old(self) }),
    {
        if self.tasks.begin_task(kind) {
            self.publish_status(StatusMessage::running(announcement));
            Work::RunOperation(kind)
        } else {
            Work::Nothing
        }
    }

    /// The first check issue, or else the latest backup error or warning,
    /// as a (title, text) pair.
    fn dashboard_detail(&self, latest_error: Option<&str>, latest_warning: Option<&str>) -> (r: Option<(String, String)>)
        ensures
            match detail_of(self.last_check, optional_text(latest_error), optional_text(latest_warning)) {
                Some((t, v)) => r matches Some(p) && p.0@ == t && p.1@ == v,
                None => r is None,
            },
    {
        if let Some(check) = &self.last_check {
            let mut i: usize = 0;
            while i < check.results.len()
                invariant
                    self.last_check == Some(*check),
                    i <= check.results.len(),
                    forall|k: int| 0 <= k < i ==> (#[trigger] check.results@[k]).status
                        == crate::task::CheckItemStatus::Passed,
                decreases check.results.len() - i,
            {
                let item = &check.results[i];
                if item.status != crate::task::CheckItemStatus::Passed {
                    let mut title = owned("Check: ");
                    crate::chars::push_str(&mut title, item.label.as_str());
                    let text = match &item.detail {
                        Some(d) => d.clone(),
                        None => item.label.clone(),
                    };
                    proof {
                        assert(first_unpassed(check.results@, i as int));
                        let k = choose|k: int| first_unpassed(check.results@, k);
                        lemma_first_unpassed_unique(check.results@, i as int, k);
                    }
                    return Some((title, text));
                }
                i = i + 1;
            }
            assert forall|k: int| !first_unpassed(check.results@, k) by {
                if first_unpassed(check.results@, k) {
                    assert(check.results@[k].status == crate::task::CheckItemStatus::Passed);
                }
            }
        }
        match latest_error {
            Some(e) => Some((owned("Latest backup error"), owned(e))),
            None => match latest_warning {
                Some(w) => Some((owned("Latest backup warning"), owned(w))),
                None => None,
            },
        }
    }

    /// Dashboard keys: run an operation, jump to a tab, or open details.
    pub fn handle_dashboard_key(
        &mut self,
        key: KeyEvent,
        paths_ready: bool,
        latest_error: Option<&str>,
        latest_warning: Option<&str>,
    ) -> (r: (bool, Work))
        ensures
            dashboard_key_step(
                *old(self),
                key,
                paths_ready,
                optional_text(latest_error),
                optional_text(latest_warning),
                *final(self),
                r,
            ),
    {
        if self.dashboard_screen.detail.is_some() {
            if key.code == KeyCode::Esc {
                self.dashboard_screen.close_detail();
            }
            return (true, Work::Nothing);
        }
        let busy = self.tasks.is_busy();
        match key.code {
            KeyCode::Char('b') if !busy => {
                if !paths_ready {
                    self.publish_status(StatusMessage::error("Cannot run backup: paths not resolved."));
                    return (true, Work::Nothing);
                }
                let empty = match &self.config {
                    Some(c) => c.sources.len() == 0,
                    None => true,
                };
                if empty {
                    self.publish_status(
                        StatusMessage::warning("Configure a repository and at least one source before backing up."),
                    );
                    return (true, Work::Nothing);
                }
                (true, self.run_operation(TaskKind::Backup, "Backup in progress..."))
            },
            KeyCode::Char('c') if !busy => {
                if !paths_ready {
                    self.publish_status(StatusMessage::error("Cannot run check: paths not resolved."));
                    return (true, Work::Nothing);
                }
                if self.config.is_none() {
                    self.publish_status(
                        StatusMessage::warning("Select and validate a repository before running a check."),
                    );
                    return (true, Work::Nothing);
                }
                (true, self.run_operation(TaskKind::Check, "Check in progress..."))
            },
            KeyCode::Char('p') if !busy => {
                if self.config.is_none() {
                    self.publish_status(StatusMessage::warning("Select and validate a repository before pushing."));
                    return (true, Work::Nothing);
                }
                if !paths_ready {
                    self.publish_status(StatusMessage::error("Cannot push: paths not resolved."));
                    return (true, Work::Nothing);
                }
                (true, self.run_operation(TaskKind::Push, "Push in progress..."))
            },
            KeyCode::Char('a') => {
                self.active_screen = Screen::Automation;
                if self.automation_screen.status_state.needs_load() {
                    let w = self.start_automation_inspection(paths_ready);
                    return (true, w);
                }
                (true, Work::Nothing)
            },
            KeyCode::Char('r') => {
                self.active_screen = Screen::Repository;
                (true, Work::OpenBrowser)
            },
            KeyCode::Char('d') => {
                match self.dashboard_detail(latest_error, latest_warning) {
                    Some((title, text)) => {
                        self.dashboard_screen.open_detail(title.as_str(), text.as_str());
                    },
                    None => {
                        self.publish_status(
                            StatusMessage::warning("No error, warning, or check issue is available to show."),
                        );
                    },
                }
                (true, Work::Nothing)
            },
            _ => (false, Work::Nothing),
        }
    }

    /// Preview keys: refresh, run a backup, or push.
    pub fn handle_preview_key(&mut self, key: KeyEvent, paths_ready: bool) -> (r: (bool, Work))
        requires
            old(self).preview_screen.scroll < usize::MAX,
        ensures
            preview_key_step(*old(self), key, paths_ready, *final(self), r),
    {
        match self.preview_screen.handle_key(key) {
            crate::screens::preview::Action::Consumed => (true, Work::Nothing),
            crate::screens::preview::Action::Refresh => (true, self.start_backup_preview(paths_ready)),
            crate::screens::preview::Action::RunBackup => {
                let empty = match &self.config {
                    Some(c) => c.sources.len() == 0,
                    None => true,
                };
                if empty {
                    self.publish_status(
                        StatusMessage::warning("Configure a repository and at least one source before backing up."),
                    );
                    (true, Work::Nothing)
                } else if self.tasks.is_busy() {
                    self.publish_status(StatusMessage::warning("A task is already running."));
                    (true, Work::Nothing)
                } else if paths_ready {
                    (true, self.run_operation(TaskKind::Backup, "Backup in progress..."))
                } else {
                    self.publish_status(StatusMessage::error("Cannot run backup: paths not resolved."));
                    (true, Work::Nothing)
                }
            },
            crate::screens::preview::Action::Push => {
                if self.config.is_none() {
                    self.publish_status(StatusMessage::warning("Select and validate a repository before pushing."));
                    (true, Work::Nothing)
                } else if self.tasks.is_busy() {
                    self.publish_status(StatusMessage::warning("A task is already running."));
                    (true, Work::Nothing)
                } else if paths_ready {
                    (true, self.run_operation(TaskKind::Push, "Push in progress..."))
                } else {
                    self.publish_status(StatusMessage::error("Cannot push: paths not resolved."));
                    (true, Work::Nothing)
                }
            },
            crate::screens::preview::Action::NotConsumed => (false, Work::Nothing),
        }
    }

    /// Automation keys: refresh, and install or remove once confirmed.
    pub fn handle_automation_key(&mut self, key: KeyEvent, paths_ready: bool) -> (r: (bool, Work))
        ensures
            automation_key_step(*old(self), key, paths_ready, *final(self), r),
    {
        if (key.code == KeyCode::Char('i') || key.code == KeyCode::Char('x')) && self.automation_screen.confirm
            == ConfirmAction::Idle && (self.config.is_none() || !paths_ready) {
            self.publish_status(StatusMessage::warning("Select and validate a repository before changing automation."));
            return (true, Work::Nothing);
        }
        match self.automation_screen.handle_key(key) {
            crate::screens::automation::Action::Consumed => (true, Work::Nothing),
            crate::screens::automation::Action::RefreshStatus => (true, self.start_automation_inspection(paths_ready)),
            crate::screens::automation::Action::Install => {
                if self.config.is_some() && paths_ready {
                    (true, Work::InstallAutomation)
                } else {
                    self.publish_status(StatusMessage::error("Cannot install automation without a validated repository."));
                    (true, Work::Nothing)
                }
            },
            crate::screens::automation::Action::Remove => {
                if paths_ready {
                    (true, Work::RemoveAutomation)
                } else {
                    self.publish_status(
                        StatusMessage::error("Cannot remove automation: application paths are unavailable."),
                    );
                    (true, Work::Nothing)
                }
            },
            crate::screens::automation::Action::NotConsumed => (false, Work::Nothing),
        }
    }

    /// History keys: moving, and opening the logs of the selected run.
    pub fn handle_history_key(&mut self, key: KeyEvent, history_len: usize) -> (r: (bool, Work))
        ensures
            history_key_step(*old(self), key, history_len, *final(self), r),
            r.1 matches Work::OpenLogs(i) ==> i == final(self).history_screen.selected && i < history_len,
            final(self).config == old(self).config,
    {
        let act = self.history_screen.handle_key(key, history_len);
        let r = match act {
            HistoryAction::ViewLogs => {
                if self.history_screen.selected < history_len {
                    (true, Work::OpenLogs(self.history_screen.selected))
                } else {
                    (true, Work::Nothing)
                }
            },
            HistoryAction::NotConsumed => (false, Work::Nothing),
            _ => (true, Work::Nothing),
        };
        assert(history_answers(old(self).history_screen, key, history_len, self.history_screen, act));
        r
    }

    /// The fallback of content keys: Tab and Shift+Tab return to the tab
    /// bar; a key the screen did not take backs out (Up, k, Esc) or quits (q).
    pub fn finish_content_key(&mut self, key: KeyEvent, consumed: bool)
        ensures
            *final(self) == after_screen(*old(self), key, consumed),
    {
        if !consumed {
            match key.code {
                KeyCode::Up | KeyCode::Char('k') | KeyCode::Esc => {
                    self.focus = Focus::TabBar;
                },
                KeyCode::Char('q') => {
                    self.should_quit = true;
                },
                _ => {},
            }
        }
    }

    /// Tab and Shift+Tab hand content focus back to the tab bar.
    pub fn leave_content(&mut self, key: KeyEvent) -> (left: bool)
        ensures
            left == is_focus_escape(key),
            left ==> final(self).focus == Focus::TabBar,
            !left ==> final(self).focus == old(self).focus,
            *final(self) == (App { focus: final(self).focus, ..*old(self) }),
    {
        if key.focus_escape() {
            self.focus = Focus::TabBar;
            true
        } else {
            false
        }
    }
}

/// The dashboard's answer to a key: `a` before, `b` after, `r` whether it
/// was consumed and the work asked for. An open detail owns every key (Esc
/// closes it); `b`, `c` and `p` start an operation when none runs and it
/// may; `a` and `r` go to their screens; `d` opens the detail.
pub open spec fn dashboard_key_step(
    a: App,
    key: KeyEvent,
    paths_ready: bool,
    latest_error: Option<Seq<char>>,
    latest_warning: Option<Seq<char>>,
    b: App,
    r: (bool, Work),
) -> bool {
    let idle = a.tasks@.active is None;
    let code = key.code;
    if a.dashboard_screen.detail is Some {
        r == (true, Work::Nothing) && b == if code == KeyCode::Esc {
            App { dashboard_screen: DashboardScreen { detail: None }, ..a }
        } else {
            a
        }
    } else if code == KeyCode::Char('b') && idle {
        r.0 && if !paths_ready {
            r.1 is Nothing && told(a, b, StatusKind::Error, "Cannot run backup: paths not resolved."@)
        } else if !(a.config matches Some(c) && c.sources.len() > 0) {
            r.1 is Nothing && told(
                a,
                b,
                StatusKind::Warning,
                "Configure a repository and at least one source before backing up."@,
            )
        } else {
            operation_began(a, b, r.1, TaskKind::Backup, "Backup in progress..."@)
        }
    } else if code == KeyCode::Char('c') && idle {
        r.0 && if !paths_ready {
            r.1 is Nothing && told(a, b, StatusKind::Error, "Cannot run check: paths not resolved."@)
        } else if a.config is None {
            r.1 is Nothing && told(a, b, StatusKind::Warning, "Select and validate a repository before running a check."@)
        } else {
            operation_began(a, b, r.1, TaskKind::Check, "Check in progress..."@)
        }
    } else if code == KeyCode::Char('p') && idle {
        r.0 && if a.config is None {
            r.1 is Nothing && told(a, b, StatusKind::Warning, "Select and validate a repository before pushing."@)
        } else if !paths_ready {
            r.1 is Nothing && told(a, b, StatusKind::Error, "Cannot push: paths not resolved."@)
        } else {
            operation_began(a, b, r.1, TaskKind::Push, "Push in progress..."@)
        }
    } else if code == KeyCode::Char('a') {
        let moved = App { active_screen: Screen::Automation, ..a };
        r.0 && if a.automation_screen.status_state is NotLoaded || a.automation_screen.status_state is Stale {
            automation_inspection_began(moved, paths_ready, b, r.1)
        } else {
            r.1 is Nothing && b == moved
        }
    } else if code == KeyCode::Char('r') {
        r == (true, Work::OpenBrowser) && b == (App { active_screen: Screen::Repository, ..a })
    } else if code == KeyCode::Char('d') {
        r == (true, Work::Nothing) && match detail_of(a.last_check, latest_error, latest_warning) {
            Some((t, v)) => b == (App { dashboard_screen: b.dashboard_screen, ..a })
                && (b.dashboard_screen.detail matches Some(d) && d.title@ == t && d.value@ == v),
            None => told(a, b, StatusKind::Warning, "No error, warning, or check issue is available to show."@),
        }
    } else {
        r == (false, Work::Nothing) && b == a
    }
}

/// The preview screen's answer to a key: `r` refreshes, `b` backs up and
/// `p` pushes when they may, anything else scrolls.
pub open spec fn preview_key_step(a: App, key: KeyEvent, paths_ready: bool, b: App, r: (bool, Work)) -> bool {
    let busy = a.tasks@.active is Some;
    match key.code {
        KeyCode::Char('r') => r.0 && backup_preview_began(a, paths_ready, b, r.1),
        KeyCode::Char('b') => r.0 && if !(a.config matches Some(c) && c.sources.len() > 0) {
            r.1 is Nothing && told(
                a,
                b,
                StatusKind::Warning,
                "Configure a repository and at least one source before backing up."@,
            )
        } else if busy {
            r.1 is Nothing && told(a, b, StatusKind::Warning, "A task is already running."@)
        } else if paths_ready {
            operation_began(a, b, r.1, TaskKind::Backup, "Backup in progress..."@)
        } else {
            r.1 is Nothing && told(a, b, StatusKind::Error, "Cannot run backup: paths not resolved."@)
        },
        KeyCode::Char('p') => r.0 && if a.config is None {
            r.1 is Nothing && told(a, b, StatusKind::Warning, "Select and validate a repository before pushing."@)
        } else if busy {
            r.1 is Nothing && told(a, b, StatusKind::Warning, "A task is already running."@)
        } else if paths_ready {
            operation_began(a, b, r.1, TaskKind::Push, "Push in progress..."@)
        } else {
            r.1 is Nothing && told(a, b, StatusKind::Error, "Cannot push: paths not resolved."@)
        },
        _ => {
            &&& r.0 == preview_scrolled(a.preview_screen.scroll, key).0
            &&& r.1 is Nothing
            &&& b.preview_screen.scroll == preview_scrolled(a.preview_screen.scroll, key).1
            &&& b == (App { preview_screen: b.preview_screen, ..a })
            &&& b.preview_screen.load_state == a.preview_screen.load_state
        },
    }
}

/// The automation screen's answer to a key: a pending confirmation owns
/// every key; otherwise `r` refreshes, and `i` and `x` ask to install or
/// remove once a repository is validated and the paths are known.
pub open spec fn automation_key_step(a: App, key: KeyEvent, paths_ready: bool, b: App, r: (bool, Work)) -> bool {
    let sa = a.automation_screen;
    let idle = confirming(a, ConfirmAction::Idle);
    if sa.confirm == ConfirmAction::Idle {
        if key.code == KeyCode::Char('i') || key.code == KeyCode::Char('x') {
            r.0 && r.1 is Nothing && if a.config is None || !paths_ready {
                told(a, b, StatusKind::Warning, "Select and validate a repository before changing automation."@)
            } else {
                b == confirming(
                    a,
                    if key.code == KeyCode::Char('i') {
                        ConfirmAction::Install
                    } else {
                        ConfirmAction::Remove
                    },
                )
            }
        } else if key.code == KeyCode::Char('r') {
            r.0 && automation_inspection_began(a, paths_ready, b, r.1)
        } else {
            r == (false, Work::Nothing) && b == a
        }
    } else if is_yes(key) {
        r.0 && if sa.confirm == ConfirmAction::Install {
            if a.config is Some && paths_ready {
                r.1 is InstallAutomation && b == idle
            } else {
                r.1 is Nothing && told(idle, b, StatusKind::Error, "Cannot install automation without a validated repository."@)
            }
        } else if paths_ready {
            r.1 is RemoveAutomation && b == idle
        } else {
            r.1 is Nothing && told(idle, b, StatusKind::Error, "Cannot remove automation: application paths are unavailable."@)
        }
    } else if is_no(key) {
        r == (true, Work::Nothing) && b == (App {
            automation_screen: AutomationScreen { confirm: ConfirmAction::Idle, message: None, ..sa },
            ..a
        })
    } else {
        r == (true, Work::Nothing) && b == a
    }
}

/// The history screen's answer to a key.
pub open spec fn history_key_step(a: App, key: KeyEvent, history_len: usize, b: App, r: (bool, Work)) -> bool {
    &&& b == (App { history_screen: b.history_screen, ..a })
    &&& exists|act: HistoryAction|
        #[trigger] history_answers(a.history_screen, key, history_len, b.history_screen, act)
        && r == history_outcome(act, b.history_screen.selected, history_len)
}

/// What the application makes of the history screen's action: the logs of
/// the selected run when there is one.
pub open spec fn history_outcome(act: HistoryAction, selected: usize, history_len: usize) -> (bool, Work) {
    match act {
        HistoryAction::ViewLogs => if selected < history_len {
            (true, Work::OpenLogs(selected))
        } else {
            (true, Work::Nothing)
        },
        HistoryAction::NotConsumed => (false, Work::Nothing),
        _ => (true, Work::Nothing),
    }
}

/// The sources screen's answer to a key, and what the application makes
/// of it; with no repository, `a` in the list only asks for one.
pub open spec fn sources_key_step(
    a: App,
    key: KeyEvent,
    home: Option<PathKey>,
    browser_ready: bool,
    b: App,
    r: (bool, Work),
) -> bool {
    if a.sources_screen.mode == SourcesMode::List && key.code == KeyCode::Char('a') && a.config is None {
        r == (true, Work::Nothing) && told(
            a,
            b,
            StatusKind::Warning,
            "Select and validate a repository before adding sources."@,
        )
    } else {
        exists|s: SourcesScreen, act: SourcesAction|
            #[trigger] sources_answers(a.sources_screen, s, key, source_count(a), browser_ready, act)
                && sources_outcome(App { sources_screen: s, ..a }, act, key, home, b, r)
    }
}

/// What the application makes of the sources screen's action.
pub open spec fn sources_outcome(
    mid: App,
    act: SourcesAction,
    key: KeyEvent,
    home: Option<PathKey>,
    b: App,
    r: (bool, Work),
) -> bool {
    let saved = r.1 is SaveConfig || r.1 is Nothing;
    match act {
        SourcesAction::Consumed => if mid.sources_screen.mode == SourcesMode::Browse && home is Some {
            &&& r == (true, Work::OpenBrowser)
            &&& b == (App { sources_screen: b.sources_screen, ..mid })
            &&& b.sources_screen.mode == mid.sources_screen.mode
            &&& b.sources_screen.selected == mid.sources_screen.selected
            &&& b.sources_screen.message == mid.sources_screen.message
            &&& match mid.sources_screen.selection {
                Some(sel) => b.sources_screen.selection == Some(sel),
                None => b.sources_screen.selection matches Some(sel) && sel@.home == parts_of(home->0)
                    && sel@.selected == loaded(
                    parts_of(home->0),
                    match mid.config {
                        Some(c) => c.sources@,
                        None => Seq::empty(),
                    },
                ) && sel@.deselected.len() == 0 && selection_wf(sel@),
            }
        } else {
            r == (true, Work::Nothing) && b == mid
        },
        SourcesAction::AddSource(path) => r == (true, Work::ValidateSource(path)) && b == mid,
        SourcesAction::RemoveSource(idx) => r.0 && saved && source_removed(mid, idx, b, r.1 is SaveConfig),
        SourcesAction::ApplySelection => r == (true, Work::Nothing) && selection_applied(mid, b),
        SourcesAction::ChooseApply => r.0 && saved && apply_chosen(mid, b, r.1 is SaveConfig),
        SourcesAction::DiscardSelection => r == (true, Work::Nothing) && selection_discarded(mid, b),
        SourcesAction::ConfirmApply => r.0 && saved && diff_executed(mid, b, r.1 is SaveConfig),
        SourcesAction::SelectEntry => r == (true, Work::SelectEntry) && b == mid,
        SourcesAction::ToPicker => r == (true, Work::PickerKey(key)) && b == mid,
        SourcesAction::NotConsumed => r == (false, Work::Nothing) && b == mid,
    }
}

/// The home directory a reference names.
pub open spec fn optional_path(o: Option<&PathKey>) -> Option<PathKey> {
    match o {
        Some(h) => Some(*h),
        None => None,
    }
}

/// The ignore editor's answer to a key, and what the application makes of
/// it: patterns are added to or removed from the configuration, and a
/// preview of the selected source is started.
pub open spec fn ignore_key_step(a: App, key: KeyEvent, paths_ready: bool, b: App, r: (bool, Work)) -> bool {
    exists|s: IgnoreScreen, mid: App, act: IgnoreAction|
        #![trigger ignore_answers(a.ignore_screen, key, pattern_count(a), source_count(a), s, act), source_settled(a, s, mid)]
        ignore_answers(a.ignore_screen, key, pattern_count(a), source_count(a), s, act) && source_settled(a, s, mid)
            && ignore_outcome(mid, act, paths_ready, b, r)
}

/// The number of configured sources.
pub open spec fn source_count(a: App) -> usize {
    match a.config {
        Some(c) => c.sources.len(),
        None => 0,
    }
}

/// The number of patterns of the source the ignore editor shows.
pub open spec fn pattern_count(a: App) -> usize {
    match a.config {
        Some(c) => if a.ignore_screen.source_idx < c.sources.len() {
            c.sources@[a.ignore_screen.source_idx as int].ignore.len()
        } else {
            0
        },
        None => 0,
    }
}

/// `mid` is `a` once the ignore editor became `s` on a key: moving to
/// another source forgets the live ignore preview request.
pub open spec fn source_settled(a: App, s: IgnoreScreen, mid: App) -> bool {
    &&& mid == (App { ignore_screen: s, tasks: mid.tasks, ..a })
    &&& if s.source_idx != a.ignore_screen.source_idx {
        &&& forall|k: LoadTaskKind| #[trigger] live_request(mid.tasks@, k) == loads_with(
            a.tasks@,
            LoadTaskKind::IgnorePreview,
            None,
            k,
        )
        &&& mid.tasks@.active == a.tasks@.active
        &&& mid.tasks@.next == a.tasks@.next
    } else {
        mid.tasks@ == a.tasks@
    }
}

/// What the application makes of the ignore editor's action.
pub open spec fn ignore_outcome(mid: App, act: IgnoreAction, paths_ready: bool, b: App, r: (bool, Work)) -> bool {
    match act {
        IgnoreAction::Consumed => r == (true, Work::Nothing) && b == mid,
        IgnoreAction::NotConsumed => r == (false, Work::Nothing) && b == mid,
        IgnoreAction::AddPattern(i, p) => r.0 && (r.1 is SaveConfig || r.1 is Nothing) && pattern_added(
            mid,
            i,
            p,
            b,
            r.1 is SaveConfig,
        ),
        IgnoreAction::RemovePattern(i, j) => r.0 && (r.1 is SaveConfig || r.1 is Nothing) && pattern_removed(
            mid,
            i,
            j,
            b,
            r.1 is SaveConfig,
        ),
        IgnoreAction::RefreshPreview(i) => r.0 && ignore_preview_began(mid, i, paths_ready, b, r.1),
    }
}

/// The repository screen's answer to a key: in the browser, `c` re-opens
/// it, `m` lists the namespaces and `n`, `r` and `d` begin a namespace
/// operation; any other key goes to the screen, and what it answers is
/// carried out.
pub open spec fn repository_key_step(
    a: App,
    key: KeyEvent,
    paths_ready: bool,
    browser_ready: bool,
    b: App,
    r: (bool, Work),
) -> bool {
    let rs = a.repo_screen;
    let shortcut = rs.mode == RepoMode::Browser && key.modifiers.bits == NO_MODIFIERS;
    let code = key.code;
    let current = match a.config {
        Some(c) => c.namespace@,
        None => Seq::<char>::empty(),
    };
    if shortcut && code == KeyCode::Char('c') && a.config is Some {
        r == (true, Work::OpenBrowser) && b == a
    } else if shortcut && code == KeyCode::Char('m') {
        &&& r == (true, if a.config is Some { Work::ListNamespaces } else { Work::Nothing })
        &&& b == (App { repo_screen: RepoScreen { mode: RepoMode::Namespaces, ..rs }, ..a })
    } else if shortcut && (code == KeyCode::Char('n') || ((code == KeyCode::Char('r') || code == KeyCode::Char('d'))
        && a.config is Some)) {
        &&& r == (true, Work::Nothing)
        &&& b == (App { repo_screen: b.repo_screen, ..a })
        &&& namespace_begun(
            rs,
            b.repo_screen,
            if code == KeyCode::Char('n') {
                NamespaceAction::SelectOrCreate
            } else if code == KeyCode::Char('r') {
                NamespaceAction::Rename
            } else {
                NamespaceAction::Delete
            },
            current,
        )
    } else {
        exists|s: RepoScreen, mid: App, kr: KeyResult|
            #![trigger repo_key_step(rs, s, key, browser_ready, kr), path_settled(a, s, mid)]
            repo_key_step(rs, s, key, browser_ready, kr) && path_settled(a, s, mid)
                && repository_outcome(mid, kr, key, paths_ready, b, r)
    }
}

impl App {
    /// Forget the live request of `kind` when `changed` holds.
    fn forget_load_when(&mut self, changed: bool, kind: LoadTaskKind)
        ensures
            changed ==> forall|k: LoadTaskKind| #[trigger] live_request(final(self).tasks@, k) == loads_with(
                old(self).tasks@,
                kind,
                None,
                k,
            ),
            changed ==> final(self).tasks@.active == old(self).tasks@.active && final(self).tasks@.next == old(
                self,
            ).tasks@.next,
            !changed ==> final(self).tasks@ == old(self).tasks@,
            *final(self) == (App { tasks: final(self).tasks, ..*old(self) }),
    {
        if changed {
            self.tasks.invalidate_load(kind);
        }
    }

    /// Sources keys: the screen's own handling, then the configuration
    /// changes and outside work its action asks for. `home` is the home
    /// directory when the application paths are known.
    pub fn handle_sources_key(&mut self, key: KeyEvent, home: Option<&PathKey>, browser_ready: bool) -> (r: (bool, Work))
        requires
            byte_len(old(self).sources_screen.input@) + 4 <= usize::MAX,
            diff_fits(*old(self)),
        ensures
            sources_key_step(*old(self), key, optional_path(home), browser_ready, *final(self), r),
    {
        if self.sources_screen.mode == SourcesMode::List && key.code == KeyCode::Char('a') && self.config.is_none() {
            self.publish_status(StatusMessage::warning("Select and validate a repository before adding sources."));
            return (true, Work::Nothing);
        }
        let count = match &self.config {
            Some(c) => c.sources.len(),
            None => 0,
        };
        let action = self.sources_screen.handle_key(key, count, browser_ready);
        let ghost s = self.sources_screen;
        let ghost act = action;
        let r = match action {
            SourcesAction::Consumed => {
                let mut r = (true, Work::Nothing);
                if self.sources_screen.mode == SourcesMode::Browse {
                    if let Some(h) = home {
                        let sources = match &self.config {
                            Some(c) => crate::selection::copy_sources(&c.sources),
                            None => Vec::new(),
                        };
                        self.sources_screen.ensure_selection(sources.as_slice(), h);
                        proof {
                            if self.config is Some {
                                lemma_loaded_same_paths(parts_of(*h), sources@, self.config->0.sources@);
                            }
                        }
                        r = (true, Work::OpenBrowser);
                    }
                }
                r
            },
            SourcesAction::AddSource(path) => (true, Work::ValidateSource(path)),
            SourcesAction::RemoveSource(idx) => {
                let save = self.handle_remove_source(idx);
                (true, if save { Work::SaveConfig } else { Work::Nothing })
            },
            SourcesAction::ApplySelection => {
                self.handle_apply_selection();
                (true, Work::Nothing)
            },
            SourcesAction::ChooseApply => {
                let save = self.handle_choose_apply();
                (true, if save { Work::SaveConfig } else { Work::Nothing })
            },
            SourcesAction::DiscardSelection => {
                self.handle_discard_selection();
                (true, Work::Nothing)
            },
            SourcesAction::ConfirmApply => {
                let save = self.execute_selection_diff();
                (true, if save { Work::SaveConfig } else { Work::Nothing })
            },
            SourcesAction::SelectEntry => (true, Work::SelectEntry),
            SourcesAction::ToPicker => (true, Work::PickerKey(key)),
            SourcesAction::NotConsumed => (false, Work::Nothing),
        };
        assert(count == source_count(*old(self)));
        assert(sources_answers(old(self).sources_screen, s, key, count, browser_ready, act));
        r
    }

    /// Ignore-editor keys: the screen's own handling, then the pattern
    /// edits and previews its action asks for.
    pub fn handle_ignore_key(&mut self, key: KeyEvent, paths_ready: bool) -> (r: (bool, Work))
        requires
            byte_len(old(self).ignore_screen.input@) + 4 <= usize::MAX,
        ensures
            ignore_key_step(*old(self), key, paths_ready, *final(self), r),
    {
        let previous = self.ignore_screen.source_idx;
        let (source_count, pattern_count) = match &self.config {
            Some(c) => (
                c.sources.len(),
                if previous < c.sources.len() {
                    c.sources[previous].ignore.len()
                } else {
                    0
                },
            ),
            None => (0, 0),
        };
        let action = self.ignore_screen.handle_key(key, pattern_count, source_count);
        let ghost s = self.ignore_screen;
        let ghost act = action;
        let moved = self.ignore_screen.source_idx != previous;
        self.forget_load_when(moved, LoadTaskKind::IgnorePreview);
        let ghost mid = *self;
        let r = match action {
            IgnoreAction::Consumed => (true, Work::Nothing),
            IgnoreAction::AddPattern(i, p) => {
                let save = self.handle_add_pattern(i, p);
                (true, if save { Work::SaveConfig } else { Work::Nothing })
            },
            IgnoreAction::RemovePattern(i, j) => {
                let save = self.handle_remove_pattern(i, j);
                (true, if save { Work::SaveConfig } else { Work::Nothing })
            },
            IgnoreAction::RefreshPreview(i) => (true, self.start_ignore_preview(i, paths_ready)),
            IgnoreAction::NotConsumed => (false, Work::Nothing),
        };
        assert(ignore_answers(old(self).ignore_screen, key, pattern_count, source_count, s, act));
        assert(source_settled(*old(self), s, mid));
        assert(source_count == crate::content::source_count(*old(self)));
        assert(pattern_count == crate::content::pattern_count(*old(self)));
        r
    }

    /// Repository keys: namespace shortcuts in the browser, then the
    /// screen's own handling. A changed path forgets the last validation.
    pub fn handle_repository_key(&mut self, key: KeyEvent, paths_ready: bool, browser_ready: bool) -> (r: (bool, Work))
        requires
            byte_len(old(self).repo_screen.input@) + 4 <= usize::MAX,
            byte_len(old(self).repo_screen.namespace_input@) + 4 <= usize::MAX,
        ensures
            repository_key_step(*old(self), key, paths_ready, browser_ready, *final(self), r),
            final(self).config == old(self).config,
    {
        if self.repo_screen.mode == RepoMode::Browser && key.no_modifiers() {
            match key.code {
                KeyCode::Char('c') if self.config.is_some() => return (true, Work::OpenBrowser),
                KeyCode::Char('m') => {
                    self.repo_screen.mode = RepoMode::Namespaces;
                    return (true, if self.config.is_some() { Work::ListNamespaces } else { Work::Nothing });
                },
                KeyCode::Char('n') => {
                    let current = match &self.config {
                        Some(c) => c.namespace.clone(),
                        None => String::new(),
                    };
                    self.repo_screen.begin_namespace(NamespaceAction::SelectOrCreate, current.as_str());
                    return (true, Work::Nothing);
                },
                KeyCode::Char('r') | KeyCode::Char('d') => {
                    if let Some(c) = &self.config {
                        let current = c.namespace.clone();
                        let action = if key.code == KeyCode::Char('r') {
                            NamespaceAction::Rename
                        } else {
                            NamespaceAction::Delete
                        };
                        self.repo_screen.begin_namespace(action, current.as_str());
                        return (true, Work::Nothing);
                    }
                },
                _ => {},
            }
        }
        let previous = self.repo_screen.input.clone();
        let result = self.repo_screen.handle_key(key, browser_ready);
        let ghost s = self.repo_screen;
        if !crate::paths::same_text(&self.repo_screen.input, &previous) {
            self.tasks.invalidate_load(LoadTaskKind::RepositoryValidation);
            self.repo_screen.validation.reset();
            self.repo_screen.confirm_state = ConfirmState::Idle;
        }
        let ghost mid = *self;
        let r = match result {
            KeyResult::Consumed => (true, Work::Nothing),
            KeyResult::Namespace => (true, Work::NamespaceOperation),
            KeyResult::Validate => {
                let w = self.start_repository_validation(paths_ready);
                (true, w)
            },
            KeyResult::Confirm => (true, if paths_ready { Work::ConfirmRepository } else { Work::Nothing }),
            KeyResult::SelectEntry => (true, Work::SelectEntry),
            KeyResult::ToPicker => (true, Work::PickerKey(key)),
            KeyResult::NotConsumed => (false, Work::Nothing),
        };
        assert(repo_key_step(old(self).repo_screen, s, key, browser_ready, result));
        assert(path_settled(*old(self), s, mid));
        r
    }

    /// Take the outcome of confirming the repository: the configuration
    /// points at it (a new one is made for the typed namespace), and the
    /// previews and automation status are dropped. Returns whether the
    /// configuration changed.
    pub fn finish_repository_confirm(&mut self, outcome: Result<PathKey, String>) -> (save: bool)
        ensures
            save == (outcome is Ok),
            match outcome {
                Ok(p) => {
                    &&& final(self).config matches Some(c) && c.repository@ == crate::screens::repository::display_path(
                        crate::paths::parts_of(p),
                    )
                    &&& match old(self).config {
                        Some(o) => final(self).config->0.namespace == o.namespace && final(self).config->0.sources
                            == o.sources,
                        None => final(self).config->0.namespace@ == old(self).repo_screen.namespace_input@
                            && final(self).config->0.sources.len() == 0,
                    }
                    &&& final(self).preview_screen.load_state is Stale
                    &&& final(self).automation_screen.status_state is Stale
                },
                Err(e) => final(self).config == old(self).config && final(self).repo_screen.confirm_state
                    == ConfirmState::Idle && shows(*final(self), StatusKind::Error, e@),
            },
    {
        match outcome {
            Ok(path) => {
                let text = crate::screens::repository::path_text(&path);
                match self.config.take() {
                    Some(mut c) => {
                        c.repository = text;
                        self.config = Some(c);
                    },
                    None => {
                        let namespace = self.repo_screen.namespace_input.clone();
                        self.config = Some(Config { repository: text, namespace, sources: Vec::new() });
                    },
                }
                self.invalidate_dependent_previews();
                self.tasks.invalidate_load(LoadTaskKind::AutomationInspection);
                self.automation_screen.status_state.invalidate();
                self.publish_status(StatusMessage::success("Repository configured successfully."));
                true
            },
            Err(e) => {
                self.publish_status(StatusMessage::error(e.as_str()));
                self.repo_screen.confirm_state = ConfirmState::Idle;
                false
            },
        }
    }
}

/// The active screen's answer to a key, given what the host knows.
pub open spec fn screen_step(a: App, key: KeyEvent, env: Surroundings, b: App, r: (bool, Work)) -> bool {
    match a.active_screen {
        Screen::Dashboard => dashboard_key_step(
            a,
            key,
            env.paths_ready,
            optional_string(env.latest_error),
            optional_string(env.latest_warning),
            b,
            r,
        ),
        Screen::Repository => repository_key_step(a, key, env.paths_ready, env.browser_ready, b, r),
        Screen::Sources => sources_key_step(a, key, env.home, env.browser_ready, b, r),
        Screen::Ignore => ignore_key_step(a, key, env.paths_ready, b, r),
        Screen::Preview => preview_key_step(a, key, env.paths_ready, b, r),
        Screen::Automation => automation_key_step(a, key, env.paths_ready, b, r),
        Screen::History => history_key_step(a, key, env.history_len, b, r),
    }
}

/// What a key the screen left alone still does: Up, `k` and Esc return to
/// the tab bar and `q` quits.
pub open spec fn after_screen(a: App, key: KeyEvent, consumed: bool) -> App {
    if !consumed && (key.code == KeyCode::Up || key.code == KeyCode::Char('k') || key.code == KeyCode::Esc) {
        App { focus: Focus::TabBar, ..a }
    } else if !consumed && key.code == KeyCode::Char('q') {
        App { should_quit: true, ..a }
    } else {
        a
    }
}

/// What the host knows beyond the application state when a key reaches
/// the content.
#[derive(Debug)]
pub struct Surroundings {
    /// The application paths are resolved.
    pub paths_ready: bool,
    /// The filesystem browser of the active screen is open.
    pub browser_ready: bool,
    /// The home directory, when the paths are resolved.
    pub home: Option<PathKey>,
    /// Number of runs in the recorded history.
    pub history_len: usize,
    /// Error of the latest run, if it failed.
    pub latest_error: Option<String>,
    /// Warning of the latest run, if it had one.
    pub latest_warning: Option<String>,
}

/// The lengths the text fields of the active screen may grow to.
pub open spec fn fields_fit(a: App) -> bool {
    match a.active_screen {
        Screen::Repository => byte_len(a.repo_screen.input@) + 4 <= usize::MAX && byte_len(
            a.repo_screen.namespace_input@,
        ) + 4 <= usize::MAX,
        Screen::Sources => byte_len(a.sources_screen.input@) + 4 <= usize::MAX && diff_fits(a),
        Screen::Ignore => byte_len(a.ignore_screen.input@) + 4 <= usize::MAX,
        Screen::Preview => a.preview_screen.scroll < usize::MAX,
        _ => true,
    }
}

impl App {
    /// Hand a content key to the active screen's handler. Returns whether
    /// it was consumed and the outside work it asks for.
    pub fn dispatch_to_screen(&mut self, key: KeyEvent, env: &Surroundings) -> (r: (bool, Work))
        requires
            fields_fit(*old(self)),
        ensures
            screen_step(*old(self), key, *env, *final(self), r),
    {
        match self.active_screen {
            Screen::Dashboard => self.handle_dashboard_key(
                key,
                env.paths_ready,
                match &env.latest_error {
                    Some(e) => Some(e.as_str()),
                    None => None,
                },
                match &env.latest_warning {
                    Some(w) => Some(w.as_str()),
                    None => None,
                },
            ),
            Screen::Repository => self.handle_repository_key(key, env.paths_ready, env.browser_ready),
            Screen::Sources => {
                let home = match &env.home {
                    Some(h) => Some(h),
                    None => None,
                };
                self.handle_sources_key(key, home, env.browser_ready)
            },
            Screen::Ignore => self.handle_ignore_key(key, env.paths_ready),
            Screen::Preview => self.handle_preview_key(key, env.paths_ready),
            Screen::Automation => self.handle_automation_key(key, env.paths_ready),
            Screen::History => self.handle_history_key(key, env.history_len),
        }
    }

    /// A key while the content has focus: Tab and Shift+Tab go back to the
    /// tab bar; anything else goes to the active screen, and a key it leaves
    /// alone may still leave the content or quit.
    pub fn handle_key_content(&mut self, key: KeyEvent, env: &Surroundings) -> (w: Work)
        requires
            fields_fit(*old(self)),
        ensures
            is_focus_escape(key) ==> w is Nothing && *final(self) == (App { focus: Focus::TabBar, ..*old(self) }),
            !is_focus_escape(key) ==> exists|mid: App, consumed: bool|
                #[trigger] screen_step(*old(self), key, *env, mid, (consumed, w))
                && *final(self) == after_screen(mid, key, consumed),
    {
        if self.leave_content(key) {
            return Work::Nothing;
        }
        let (consumed, work) = self.dispatch_to_screen(key, env);
        let ghost mid = *self;
        self.finish_content_key(key, consumed);
        assert(screen_step(*old(self), key, *env, mid, (consumed, work)));
        work
    }
}

} // verus!
