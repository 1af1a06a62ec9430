use dothoard::keys::{KeyCode, KeyEvent, KeyModifiers};
use dothoard::paths::PathKey;
use dothoard::picker::{EntryKind, PickerAction, Selection};
use dothoard::screens::repository::{
    expand_tilde, ConfirmState, KeyResult, NamespaceAction, NamespaceSummary, OwnershipInfo, RepoMode,
    RepoScreen,
};
use dothoard::screens::sources::{Action, Mode, SourcesScreen};
use dothoard::selection::{CheckState, SourceConfig};
use dothoard::setup::{AutomationBackend, RepositoryMethod, SetupState, SetupStep};
use dothoard::theme::ThemeId;

fn key(code: KeyCode) -> KeyEvent {
    KeyEvent::new(code, KeyModifiers::none())
}

fn path(s: &str) -> PathKey {
    PathKey { parts: s.split('/').filter(|p| !p.is_empty()).map(String::from).collect() }
}

#[test]
fn repository_path_field_edits_and_validates() {
    let mut screen = RepoScreen::with_path("/srv");
    assert_eq!(screen.cursor, 4);
    assert_eq!(screen.handle_key(key(KeyCode::Char(':')), false), KeyResult::Consumed);
    assert_eq!(screen.mode, RepoMode::TextInput);
    screen.handle_key(key(KeyCode::Char('/')), false);
    screen.handle_key(key(KeyCode::Char('é')), false);
    assert_eq!(screen.input, "/srv/é");
    assert_eq!(screen.cursor, 7);
    assert_eq!(screen.handle_key(key(KeyCode::Enter), false), KeyResult::Validate);
    let ctrl_u = KeyEvent::new(KeyCode::Char('u'), KeyModifiers::control());
    screen.handle_key(ctrl_u, false);
    assert!(screen.input.is_empty());
    assert_eq!(screen.handle_key(key(KeyCode::Esc), false), KeyResult::Consumed);
    assert_eq!(screen.mode, RepoMode::Browser);
    assert_eq!(screen.handle_key(key(KeyCode::Tab), true), KeyResult::NotConsumed);
}

#[test]
fn repository_browser_keys_go_to_the_browser() {
    let mut screen = RepoScreen::new();
    assert_eq!(screen.handle_key(key(KeyCode::Char(' ')), true), KeyResult::SelectEntry);
    assert_eq!(screen.handle_key(key(KeyCode::Char(' ')), false), KeyResult::Consumed);
    assert_eq!(screen.handle_key(key(KeyCode::Down), true), KeyResult::ToPicker);
    assert_eq!(screen.handle_key(key(KeyCode::Down), false), KeyResult::NotConsumed);
    let dir = Selection { path: path("/srv/backups"), kind: EntryKind::Directory };
    assert_eq!(screen.select_outcome(Ok(dir)), KeyResult::Validate);
    assert_eq!(screen.input, "/srv/backups");
    let file = Selection { path: path("/srv/file"), kind: EntryKind::File };
    assert_eq!(screen.picker_outcome(PickerAction::Select(Ok(file))), KeyResult::Consumed);
    assert_eq!(
        screen.selection_error.as_deref(),
        Some("Only directories can be used as repositories.")
    );
    assert_eq!(screen.picker_outcome(PickerAction::Cancel), KeyResult::NotConsumed);
}

#[test]
fn repository_dialogs_and_namespace_questions() {
    let mut screen = RepoScreen::new();
    screen.confirm_state = ConfirmState::AskAttach;
    assert_eq!(screen.handle_key(key(KeyCode::Char('y')), false), KeyResult::Confirm);
    assert_eq!(screen.handle_key(key(KeyCode::Esc), false), KeyResult::Consumed);
    assert_eq!(screen.confirm_state, ConfirmState::Idle);

    screen.namespaces = vec![
        NamespaceSummary { name: "laptop".to_string(), ownership: OwnershipInfo::New, active: false },
        NamespaceSummary {
            name: "desk".to_string(),
            ownership: OwnershipInfo::Owned { sources: Vec::new() },
            active: true,
        },
    ];
    screen.mode = RepoMode::Namespaces;
    screen.handle_key(key(KeyCode::Down), false);
    assert_eq!(screen.namespace_selected, 1);
    screen.handle_key(key(KeyCode::Down), false);
    assert_eq!(screen.namespace_selected, 1);
    screen.handle_key(key(KeyCode::Char('r')), false);
    assert_eq!(screen.mode, RepoMode::NamespaceInput);
    assert_eq!(screen.namespace_action, NamespaceAction::Rename);
    assert_eq!(screen.namespace_input, "desk");
    assert_eq!(screen.namespace_action_name(), "rename");
    screen.handle_key(key(KeyCode::Char('2')), false);
    screen.handle_key(key(KeyCode::Enter), false);
    assert_eq!(screen.namespace_confirmation.as_deref(), Some("Rename namespace to 'desk2' ? y/n"));
    assert_eq!(screen.handle_key(key(KeyCode::Char('Y')), false), KeyResult::Namespace);
    assert!(screen.namespace_confirmation.is_none());
    screen.set_namespace("laptop");
    assert_eq!(screen.namespace_selected, 0);
    assert_eq!(screen.selected_namespace().unwrap().name, "laptop");
}

#[test]
fn repository_path_checks() {
    let home = path("/home/me");
    assert_eq!(RepoScreen::check_path_input("", &home).unwrap_err(), "Path cannot be empty");
    assert_eq!(
        RepoScreen::check_path_input("relative/dir", &home).unwrap_err(),
        "Path must be absolute or start with ~/"
    );
    assert_eq!(RepoScreen::check_path_input("~/repo", &home).unwrap().parts, vec!["home", "me", "repo"]);
    assert_eq!(RepoScreen::check_path_input("~", &home).unwrap().parts, vec!["home", "me"]);
    assert_eq!(RepoScreen::check_path_input("/srv//x/", &home).unwrap().parts, vec!["srv", "x"]);
    let (absolute, p) = expand_tilde("~/a/./b", &home);
    assert!(absolute);
    assert_eq!(p.parts, vec!["home", "me", "a", "b"]);
    let screen = RepoScreen::with_path("/srv/repo/missing");
    assert_eq!(screen.browser_start(&home, false).parts, vec!["srv", "repo"]);
    assert_eq!(screen.browser_start(&home, true).parts, vec!["srv", "repo", "missing"]);
    assert_eq!(RepoScreen::new().browser_start(&home, false).parts, vec!["home", "me"]);
}

#[test]
fn repository_confirmation_needs_a_validation() {
    let mut screen = RepoScreen::new();
    assert_eq!(
        screen.confirm(Ok(())).unwrap_err(),
        "No current repository validation to confirm"
    );
    screen.validation = dothoard::task::LoadState::Loaded(dothoard::screens::repository::RepoInfo {
        path: path("/srv/repo"),
        branch: "main".to_string(),
        ownership: OwnershipInfo::New,
    });
    assert_eq!(screen.confirm(Err("locked".to_string())).unwrap_err(), "locked");
    assert_eq!(screen.confirm(Ok(())).unwrap().parts, vec!["srv", "repo"]);
    assert_eq!(screen.confirm_state, ConfirmState::Done);
    assert!(OwnershipInfo::New.can_proceed());
    assert!(!OwnershipInfo::Ambiguous("x".to_string()).needs_confirmation());
    assert_eq!(OwnershipInfo::InvalidManifest("x".to_string()).label(), "Invalid");
}

#[test]
fn sources_list_and_dialog_keys() {
    let mut screen = SourcesScreen::new();
    assert_eq!(screen.handle_key(key(KeyCode::Up), 3, false), Action::NotConsumed);
    assert_eq!(screen.handle_key(key(KeyCode::Down), 3, false), Action::Consumed);
    assert_eq!(screen.selected, 1);
    assert_eq!(screen.handle_key(key(KeyCode::Char('d')), 0, false), Action::NotConsumed);
    assert_eq!(screen.handle_key(key(KeyCode::Char('d')), 3, false), Action::Consumed);
    assert_eq!(screen.mode, Mode::ConfirmDelete);
    assert_eq!(screen.handle_key(key(KeyCode::Char('y')), 3, false), Action::RemoveSource(1));
    screen.handle_key(key(KeyCode::Char('n')), 3, false);
    assert_eq!(screen.mode, Mode::List);
    screen.handle_key(key(KeyCode::Char('a')), 3, false);
    assert_eq!(screen.mode, Mode::Browse);
    assert_eq!(screen.handle_key(key(KeyCode::Esc), 3, true), Action::ApplySelection);
    screen.mode = Mode::PendingChanges;
    assert_eq!(screen.handle_key(key(KeyCode::Char('A')), 3, true), Action::ChooseApply);
    assert_eq!(screen.handle_key(key(KeyCode::Char('c')), 3, true), Action::Consumed);
    assert_eq!(screen.mode, Mode::Browse);
}

#[test]
fn sources_manual_entry_is_trimmed() {
    let mut screen = SourcesScreen::new();
    screen.mode = Mode::Browse;
    screen.handle_key(key(KeyCode::Char('/')), 0, true);
    assert_eq!(screen.mode, Mode::AddInput);
    assert_eq!(screen.handle_key(key(KeyCode::Enter), 0, true), Action::Consumed);
    assert_eq!(screen.message.as_ref().unwrap().text, "Path cannot be empty");
    for c in "  .vimrc ".chars() {
        screen.handle_key(key(KeyCode::Char(c)), 0, true);
    }
    assert_eq!(screen.handle_key(key(KeyCode::Enter), 0, true), Action::AddSource(".vimrc".to_string()));
}

#[test]
fn sources_toggle_through_the_browser() {
    let sources = vec![SourceConfig { path: ".config/fish".to_string(), ignore: Vec::new() }];
    let mut screen = SourcesScreen::new();
    screen.ensure_selection(&sources, &path("/home/me"));
    let child = path("/home/me/.config/fish/fish_variables");
    let picked = Selection { path: child.clone(), kind: EntryKind::File };
    assert_eq!(screen.select_outcome(Ok(picked)), Action::Consumed);
    assert_eq!(screen.selection.as_ref().unwrap().is_selected(&child), CheckState::Unchecked);
    let special = Selection { path: child, kind: EntryKind::Special };
    screen.select_outcome(Ok(special));
    assert_eq!(screen.message.as_ref().unwrap().text, "Cannot select this file type.");
    assert_eq!(screen.picker_outcome(PickerAction::Cancel), Action::ApplySelection);
}

#[test]
fn source_path_checks() {
    let existing = vec![SourceConfig { path: ".config/fish/".to_string(), ignore: Vec::new() }];
    assert_eq!(SourcesScreen::check_source_input("", &existing).unwrap_err(), "Path cannot be empty");
    assert_eq!(
        SourcesScreen::check_source_input("/etc", &existing).unwrap_err(),
        "Source paths must be relative to $HOME"
    );
    assert_eq!(
        SourcesScreen::check_source_input("a/../b", &existing).unwrap_err(),
        "Parent traversal (..) is not allowed"
    );
    assert_eq!(
        SourcesScreen::check_source_input(".config/fish//", &existing).unwrap_err(),
        "Source '.config/fish' is already configured"
    );
    assert_eq!(SourcesScreen::check_source_input(".vimrc/", &existing).unwrap(), ".vimrc");
}

#[test]
fn setup_flow_defaults_and_backend_cycle() {
    let mut setup = SetupState::new();
    assert_eq!(setup.step, SetupStep::Repository);
    assert_eq!(setup.interval_input, "5");
    assert_eq!(setup.interval_cursor, 1);
    setup.next_backend();
    assert_eq!(setup.automation_backend, AutomationBackend::Cron);
    setup.next_backend();
    setup.next_backend();
    assert_eq!(setup.automation_backend, AutomationBackend::Systemd);
    setup.previous_backend();
    assert_eq!(SetupState::backend_label(setup.automation_backend), "external");
    assert_eq!(RepositoryMethod::Existing.toggle(), RepositoryMethod::Clone);
    assert!(!setup.cloning());
    assert!(setup.clone_error().is_none());
    let resumed = SetupState::resume(AutomationBackend::Cron, 120, ThemeId::Nord);
    assert_eq!(resumed.step, SetupStep::Automation);
    assert_eq!(resumed.interval_input, "120");
    assert_eq!(resumed.interval_cursor, 3);
    assert_eq!(resumed.theme_previous, ThemeId::Nord);
}
