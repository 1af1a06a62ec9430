//! Automation controls screen state.
//!
//! Provides install, remove, and status inspection of backup automation.
//! The backend operations run in the caller; this screen owns the
//! confirmation flow and turns their outcomes into feedback.

use vstd::prelude::*;

use crate::chars::{decimal, owned, push_decimal, push_str};
use crate::keys::{KeyCode, KeyEvent};
use crate::task::LoadState;

verus! {

/// The state of the automation controls screen.
#[derive(Debug)]
pub struct AutomationScreen {
    /// Lifecycle and last usable automation status description.
    pub status_state: LoadState<String>,
    /// Feedback message from the last operation.
    pub message: Option<Message>,
    /// Active confirmation dialog.
    pub confirm: ConfirmAction,
}

/// A feedback message.
#[derive(Debug, Clone)]
pub struct Message {
    pub text: String,
    pub success: bool,
}

/// Active confirmation state.
#[derive(Debug, Clone, Copy, PartialEq, Eq, Structural)]
pub enum ConfirmAction {
    Idle,
    /// Asking to install the selected automation backend.
    Install,
    /// Asking to remove the selected automation backend.
    Remove,
}

/// Actions from the automation screen.
#[derive(Debug, Clone, Copy, PartialEq, Eq, Structural)]
pub enum Action {
    Consumed,
    NotConsumed,
    /// Refresh the status display.
    RefreshStatus,
    /// Install the selected automation backend (confirmed).
    Install,
    /// Remove the selected automation backend (confirmed).
    Remove,
}

/// Whether the key answers yes / no in a dialog.
pub open spec fn is_yes(key: KeyEvent) -> bool {
    key.code == KeyCode::Char('y') || key.code == KeyCode::Char('Y')
}

pub open spec fn is_no(key: KeyEvent) -> bool {
    key.code == KeyCode::Char('n') || key.code == KeyCode::Char('N') || key.code == KeyCode::Esc
}

impl AutomationScreen {
    pub fn new() -> (s: Self)
        ensures
            s.status_state is NotLoaded,
            s.message is None,
            s.confirm == ConfirmAction::Idle,
    {
        AutomationScreen { status_state: LoadState::NotLoaded, message: None, confirm: ConfirmAction::Idle }
    }

    /// Handle a key event: a pending confirmation owns every key; otherwise
    /// `r` refreshes, `i` asks to install and `x` asks to remove.
    pub fn handle_key(&mut self, key: KeyEvent) -> (action: Action)
        ensures
            final(self).status_state == old(self).status_state,
            old(self).confirm != ConfirmAction::Idle ==> {
                if is_yes(key) {
                    &&& action == if old(self).confirm == ConfirmAction::Install {
                        Action::Install
                    } else {
                        Action::Remove
                    }
                    &&& final(self).confirm == ConfirmAction::Idle
                    &&& final(self).message == old(self).message
                } else if is_no(key) {
                    &&& action == Action::Consumed
                    &&& final(self).confirm == ConfirmAction::Idle
                    &&& final(self).message is None
                } else {
                    action == Action::Consumed && final(self).confirm == old(self).confirm
                        && final(self).message == old(self).message
                }
            },
            old(self).confirm == ConfirmAction::Idle ==> {
                &&& final(self).message == old(self).message
                &&& key.code == KeyCode::Char('r') ==> action == Action::RefreshStatus
                    && final(self).confirm == ConfirmAction::Idle
                &&& key.code == KeyCode::Char('i') ==> action == Action::Consumed
                    && final(self).confirm == ConfirmAction::Install
                &&& key.code == KeyCode::Char('x') ==> action == Action::Consumed
                    && final(self).confirm == ConfirmAction::Remove
                &&& !(key.code == KeyCode::Char('r') || key.code == KeyCode::Char('i') || key.code
                    == KeyCode::Char('x')) ==> action == Action::NotConsumed && final(self).confirm
                    == ConfirmAction::Idle
            },
    {
        if self.confirm != ConfirmAction::Idle {
            return match key.code {
                KeyCode::Char('y') | KeyCode::Char('Y') => {
                    let action = match self.confirm {
                        ConfirmAction::Install => Action::Install,
                        ConfirmAction::Remove => Action::Remove,
                        ConfirmAction::Idle => Action::Consumed,
                    };
                    self.confirm = ConfirmAction::Idle;
                    action
                },
                KeyCode::Char('n') | KeyCode::Char('N') | KeyCode::Esc => {
                    self.confirm = ConfirmAction::Idle;
                    self.message = None;
                    Action::Consumed
                },
                _ => Action::Consumed,
            };
        }
        match key.code {
            KeyCode::Char('r') => Action::RefreshStatus,
            KeyCode::Char('i') => {
                self.confirm = ConfirmAction::Install;
                Action::Consumed
            },
            KeyCode::Char('x') => {
                self.confirm = ConfirmAction::Remove;
                Action::Consumed
            },
            _ => Action::NotConsumed,
        }
    }

    /// Record the outcome of installing automation that runs every
    /// `interval_minutes`.
    pub fn install(&mut self, interval_minutes: u32, outcome: Result<(), String>)
        ensures
            final(self).status_state == old(self).status_state,
            final(self).confirm == old(self).confirm,
            match outcome {
                Ok(()) => final(self).message matches Some(m) && m.success && m.text@
                    == "Automation installed (every "@ + decimal(interval_minutes as nat)
                    + " min)."@,
                Err(e) => final(self).message matches Some(m) && !m.success && m.text@
                    == "Install failed: "@ + e@,
            },
    {
        match outcome {
            Ok(()) => {
                let mut text = owned("Automation installed (every ");
                push_decimal(&mut text, interval_minutes as u64);
                push_str(&mut text, " min).");
                self.message = Some(Message { text, success: true });
            },
            Err(e) => {
                let mut text = owned("Install failed: ");
                push_str(&mut text, e.as_str());
                self.message = Some(Message { text, success: false });
            },
        }
    }

    /// Record the outcome of removing automation.
    pub fn remove(&mut self, outcome: Result<(), String>)
        ensures
            final(self).status_state == old(self).status_state,
            final(self).confirm == old(self).confirm,
            match outcome {
                Ok(()) => final(self).message matches Some(m) && m.success && m.text@
                    == "Automation removed."@,
                Err(e) => final(self).message matches Some(m) && !m.success && m.text@
                    == "Remove failed: "@ + e@,
            },
    {
        match outcome {
            Ok(()) => {
                self.message = Some(Message { text: owned("Automation removed."), success: true });
            },
            Err(e) => {
                let mut text = owned("Remove failed: ");
                push_str(&mut text, e.as_str());
                self.message = Some(Message { text, success: false });
            },
        }
    }
}

} // verus!
