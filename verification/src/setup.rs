//! First-run configuration flow state.

use vstd::prelude::*;

use crate::chars::{byte_len, byte_length, decimal, push_decimal};
use crate::paths::PathKey;
use crate::task::{load_is_loading, LoadState};
use crate::theme::ThemeId;

verus! {

#[derive(Debug, Clone, Copy, PartialEq, Eq, Structural)]
pub enum SetupStep {
    Repository,
    Namespace,
    Automation,
    Theme,
}

#[derive(Debug, Clone, Copy, PartialEq, Eq, Structural)]
pub enum RepositoryMethod {
    Existing,
    Clone,
}

impl RepositoryMethod {
    pub fn toggle(self) -> (r: Self)
        ensures
            r != self,
    {
        match self {
            RepositoryMethod::Existing => RepositoryMethod::Clone,
            RepositoryMethod::Clone => RepositoryMethod::Existing,
        }
    }
}

#[derive(Debug, Clone, Copy, PartialEq, Eq, Structural)]
pub enum RepositorySetupMode {
    Choose,
    Existing,
    Clone,
}

#[derive(Debug, Clone, Copy, PartialEq, Eq, Structural)]
pub enum CloneField {
    Url,
    Destination,
}

#[derive(Debug, Clone, Copy, PartialEq, Eq, Structural)]
pub enum AutomationField {
    Backend,
    Interval,
}

/// The scheduler that runs backups unattended.
#[derive(Debug, Clone, Copy, PartialEq, Eq, Structural)]
pub enum AutomationBackend {
    Systemd,
    Cron,
    External,
}

/// The backend after `b` in the cycle Systemd, Cron, External.
pub open spec fn backend_after(b: AutomationBackend) -> AutomationBackend {
    match b {
        AutomationBackend::Systemd => AutomationBackend::Cron,
        AutomationBackend::Cron => AutomationBackend::External,
        AutomationBackend::External => AutomationBackend::Systemd,
    }
}

/// The backend before `b` in the same cycle.
pub open spec fn backend_before(b: AutomationBackend) -> AutomationBackend {
    match b {
        AutomationBackend::Systemd => AutomationBackend::External,
        AutomationBackend::Cron => AutomationBackend::Systemd,
        AutomationBackend::External => AutomationBackend::Cron,
    }
}

#[derive(Debug)]
pub struct SetupState {
    pub step: SetupStep,
    pub repository_method: RepositoryMethod,
    pub repository_mode: RepositorySetupMode,
    pub clone_field: CloneField,
    pub clone_url: String,
    pub clone_url_cursor: usize,
    pub clone_destination: String,
    pub clone_destination_cursor: usize,
    pub clone_state: LoadState<PathKey>,
    pub automation_field: AutomationField,
    pub automation_backend: AutomationBackend,
    pub interval_input: String,
    pub interval_cursor: usize,
    pub automation_error: Option<String>,
    pub theme_selected: ThemeId,
    pub theme_previous: ThemeId,
    pub theme_error: Option<String>,
}

/// The state a fresh setup flow starts in.
pub open spec fn setup_initial(s: SetupState) -> bool {
    &&& s.step == SetupStep::Repository
    &&& s.repository_method == RepositoryMethod::Existing
    &&& s.repository_mode == RepositorySetupMode::Choose
    &&& s.clone_field == CloneField::Url
    &&& s.clone_url@.len() == 0
    &&& s.clone_url_cursor == 0
    &&& s.clone_destination@.len() == 0
    &&& s.clone_destination_cursor == 0
    &&& s.clone_state is NotLoaded
    &&& s.automation_field == AutomationField::Backend
    &&& s.automation_backend == AutomationBackend::Systemd
    &&& s.interval_input@ == seq!['5']
    &&& s.interval_cursor == 1
    &&& s.automation_error is None
    &&& s.theme_selected == ThemeId::System
    &&& s.theme_previous == ThemeId::System
    &&& s.theme_error is None
}

impl Default for SetupState {
    fn default() -> (s: Self)
        ensures
            setup_initial(s),
    {
        Self::new()
    }
}

impl SetupState {
    pub fn new() -> (s: Self)
        ensures
            setup_initial(s),
    {
        let mut interval_input = String::new();
        push_decimal(&mut interval_input, 5);
        assert(decimal(5) =~= seq!['5']);
        SetupState {
            step: SetupStep::Repository,
            repository_method: RepositoryMethod::Existing,
            repository_mode: RepositorySetupMode::Choose,
            clone_field: CloneField::Url,
            clone_url: String::new(),
            clone_url_cursor: 0,
            clone_destination: String::new(),
            clone_destination_cursor: 0,
            clone_state: LoadState::NotLoaded,
            automation_field: AutomationField::Backend,
            automation_backend: AutomationBackend::Systemd,
            interval_input,
            interval_cursor: 1,
            automation_error: None,
            theme_selected: ThemeId::System,
            theme_previous: ThemeId::System,
            theme_error: None,
        }
    }

    /// Resume an interrupted setup at the automation step, with the
    /// configured backend and interval and the active theme.
    pub fn resume(automation_backend: AutomationBackend, interval_minutes: u64, theme: ThemeId) -> (s: Self)
        ensures
            s.step == SetupStep::Automation,
            s.automation_backend == automation_backend,
            s.interval_input@ == decimal(interval_minutes as nat),
            s.interval_cursor == byte_len(s.interval_input@),
            s.theme_selected == theme,
            s.theme_previous == theme,
            s.repository_method == RepositoryMethod::Existing,
            s.repository_mode == RepositorySetupMode::Choose,
            s.clone_field == CloneField::Url,
            s.clone_url@.len() == 0,
            s.clone_url_cursor == 0,
            s.clone_destination@.len() == 0,
            s.clone_destination_cursor == 0,
            s.clone_state is NotLoaded,
            s.automation_field == AutomationField::Backend,
            s.automation_error is None,
            s.theme_error is None,
    {
        let mut setup = Self::new();
        setup.step = SetupStep::Automation;
        setup.automation_backend = automation_backend;
        let mut interval_input = String::new();
        push_decimal(&mut interval_input, interval_minutes);
        setup.interval_cursor = byte_length(interval_input.as_str());
        setup.interval_input = interval_input;
        setup.theme_selected = theme;
        setup.theme_previous = theme;
        setup
    }

    pub fn next_backend(&mut self)
        ensures
            final(self).automation_backend == backend_after(old(self).automation_backend),
            final(self).automation_error is None,
            final(self).step == old(self).step,
            final(self).interval_input == old(self).interval_input,
            final(self).interval_cursor == old(self).interval_cursor,
            final(self).theme_selected == old(self).theme_selected,
            *final(self) == (SetupState {
                automation_backend: final(self).automation_backend,
                automation_error: None,
                ..*old(self)
            }),
    {
        self.automation_backend = match self.automation_backend {
            AutomationBackend::Systemd => AutomationBackend::Cron,
            AutomationBackend::Cron => AutomationBackend::External,
            AutomationBackend::External => AutomationBackend::Systemd,
        };
        self.automation_error = None;
    }

    pub fn previous_backend(&mut self)
        ensures
            final(self).automation_backend == backend_before(old(self).automation_backend),
            final(self).automation_error is None,
            final(self).step == old(self).step,
            final(self).interval_input == old(self).interval_input,
            final(self).interval_cursor == old(self).interval_cursor,
            final(self).theme_selected == old(self).theme_selected,
            *final(self) == (SetupState {
                automation_backend: final(self).automation_backend,
                automation_error: None,
                ..*old(self)
            }),
    {
        self.automation_backend = match self.automation_backend {
            AutomationBackend::Systemd => AutomationBackend::External,
            AutomationBackend::Cron => AutomationBackend::Systemd,
            AutomationBackend::External => AutomationBackend::Cron,
        };
        self.automation_error = None;
    }

    pub fn backend_label(backend: AutomationBackend) -> (s: &'static str)
        ensures
            s@ == match backend {
                AutomationBackend::Systemd => "systemd"@,
                AutomationBackend::Cron => "cron"@,
                AutomationBackend::External => "external"@,
            },
    {
        match backend {
            AutomationBackend::Systemd => "systemd",
            AutomationBackend::Cron => "cron",
            AutomationBackend::External => "external",
        }
    }

    pub fn clone_error(&self) -> (r: Option<&str>)
        ensures
            match self.clone_state {
                LoadState::Failed { error, .. } => r is Some && r->0@ == error@,
                _ => r is None,
            },
    {
        match &self.clone_state {
            LoadState::Failed { error, .. } => Some(error.as_str()),
            _ => None,
        }
    }

    pub fn cloning(&self) -> (r: bool)
        ensures
            r == load_is_loading(self.clone_state),
    {
        self.clone_state.is_loading()
    }
}

/// Stepping the backend forward then back, or back then forward, returns
/// to where it started; three steps either way make a full cycle.
pub proof fn lemma_backend_cycle(b: AutomationBackend)
    ensures
        backend_before(backend_after(b)) == b,
        backend_after(backend_before(b)) == b,
        backend_after(backend_after(backend_after(b))) == b,
        backend_after(b) != b,
{
}

} // verus!
