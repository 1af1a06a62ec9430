use dothoard::keys::{KeyCode, KeyEvent, KeyModifiers};
use dothoard::shell::{Config, App, EntryWork, FollowUp, Focus, KeyRoute, PickerStep, Screen, ThemePickerState};
use dothoard::status::StatusMessage;
use dothoard::content::Work;
use dothoard::paths::PathKey;
use dothoard::screens::repository::{ConfirmState, OwnershipInfo, RepoInfo};
use dothoard::task::{BackupResult, LoadState, Received, TaskResult};
use dothoard::theme::ThemeId;

fn config() -> Config {
    Config { repository: "/srv/repo".to_string(), namespace: "laptop".to_string(), sources: Vec::new() }
}

fn key(code: KeyCode) -> KeyEvent {
    KeyEvent::new(code, KeyModifiers::none())
}

#[test]
fn tabs_cycle_in_both_directions() {
    let mut s = Screen::Dashboard;
    for _ in 0..7 {
        assert_eq!(s.next().prev(), s);
        s = s.next();
    }
    assert_eq!(s, Screen::Dashboard);
    assert_eq!(Screen::Dashboard.prev(), Screen::History);
    assert_eq!(Screen::from_index(2), Some(Screen::Sources));
    assert_eq!(Screen::from_index(7), None);
    assert_eq!(Screen::Automation.label(), "Automation");
}

#[test]
fn first_run_opens_repository_content() {
    let app = App::new(None);
    assert_eq!(app.focus, Focus::Content);
    assert_eq!(app.active_screen, Screen::Repository);
    let configured = App::new(Some(config()));
    assert_eq!(configured.focus, Focus::TabBar);
    assert_eq!(configured.active_screen, Screen::Dashboard);
    assert_eq!(configured.repo_screen.input, "/srv/repo");
    assert_eq!(configured.repo_screen.namespace_input, "laptop");
}

#[test]
fn tab_bar_keys() {
    let mut app = App::new(Some(config()));
    assert_eq!(app.route_key(key(KeyCode::Right), ThemeId::System), KeyRoute::TabBar(None));
    assert_eq!(app.active_screen, Screen::Repository);
    assert_eq!(app.route_key(key(KeyCode::Char('5')), ThemeId::System), KeyRoute::TabBar(None));
    assert_eq!(app.active_screen, Screen::Preview);
    assert_eq!(
        app.route_key(key(KeyCode::Enter), ThemeId::System),
        KeyRoute::TabBar(Some(EntryWork::PreviewBackup))
    );
    assert_eq!(app.focus, Focus::Content);
    assert_eq!(app.route_key(key(KeyCode::Char('q')), ThemeId::System), KeyRoute::Content);
    assert!(!app.should_quit);
    let ctrl_c = KeyEvent::new(KeyCode::Char('c'), KeyModifiers::control());
    assert_eq!(app.route_key(ctrl_c, ThemeId::System), KeyRoute::Interrupt);
    assert!(app.should_quit);
}

#[test]
fn theme_picker_previews_and_restores() {
    let mut app = App::new(None);
    let ctrl_t = KeyEvent::new(KeyCode::Char('t'), KeyModifiers::control());
    assert_eq!(app.route_key(ctrl_t, ThemeId::Nord), KeyRoute::OpenedThemePicker);
    assert_eq!(
        app.route_key(key(KeyCode::Down), ThemeId::Nord),
        KeyRoute::ThemePicker(PickerStep::Preview(ThemeId::GruvboxDark))
    );
    assert_eq!(
        app.route_key(key(KeyCode::Esc), ThemeId::GruvboxDark),
        KeyRoute::ThemePicker(PickerStep::Restore(ThemeId::Nord))
    );
    assert!(app.theme_picker.is_none());
    let mut picker = ThemePickerState::open(ThemeId::System);
    assert_eq!(picker.handle_key(key(KeyCode::Up)), PickerStep::Preview(ThemeId::Kanagawa));
    assert_eq!(picker.handle_key(key(KeyCode::Enter)), PickerStep::Persist(ThemeId::Kanagawa));
    assert_eq!(picker.previous(), ThemeId::System);
}

#[test]
fn status_ticks_away_and_theme_saves_are_reported() {
    let mut app = App::new(None);
    app.theme_saved(ThemeId::Dracula, Some(Err("read-only".to_string())));
    assert_eq!(
        app.status_message.as_ref().unwrap().text,
        "Theme set to Dracula (save failed: read-only)"
    );
    app.status_message = Some(StatusMessage::success("ok"));
    for _ in 0..15 {
        app.tick();
    }
    assert!(app.status_message.is_some());
    app.tick();
    assert!(app.status_message.is_none());
}

#[test]
fn finished_backup_reports_and_asks_for_a_reload() {
    let mut app = App::new(Some(config()));
    assert!(app.tasks.begin_task(dothoard::task::TaskKind::Backup));
    let result = BackupResult {
        success: false,
        commit: None,
        pushed: false,
        copies: 0,
        deletions: 0,
        warnings: Vec::new(),
        error: None,
    };
    let follow = app.poll_tasks(Received::Result(TaskResult::Backup(result)));
    assert!(matches!(follow, Some(FollowUp::ReloadState)));
    assert_eq!(app.status_message.as_ref().unwrap().text, "Backup failed: unknown error");
    assert!(!app.tasks.is_busy());
    assert!(app.preview_screen.load_state.needs_load());
    assert!(app.poll_tasks(Received::Empty).is_none());
}

#[test]
fn validation_result_is_taken_only_for_the_live_request() {
    let mut app = App::new(Some(config()));
    app.repo_screen.input = "/srv/repo".to_string();
    let id = match app.start_repository_validation(true) {
        Work::ValidateRepository { request_id, input, namespace } => {
            assert_eq!(input, "/srv/repo");
            assert_eq!(namespace, "laptop");
            request_id
        },
        _ => panic!("validation did not start"),
    };
    // A second start while the first runs asks for nothing.
    assert!(matches!(app.start_repository_validation(true), Work::Nothing));

    let info = RepoInfo {
        path: PathKey { parts: vec!["srv".to_string(), "repo".to_string()] },
        branch: "main".to_string(),
        ownership: OwnershipInfo::New,
    };
    let follow = app.poll_tasks(Received::Result(TaskResult::RepositoryValidation { request_id: id, result: Ok(info) }));
    match follow {
        Some(FollowUp::RefreshNamespaces { repository, active }) => {
            assert_eq!(repository.parts, vec!["srv".to_string(), "repo".to_string()]);
            assert_eq!(active, "laptop");
        },
        _ => panic!("no namespace refresh"),
    }
    assert_eq!(app.repo_screen.confirm_state, ConfirmState::AskInitialize);

    // The same answer arriving again is stale and changes nothing.
    let late = app.poll_tasks(Received::Result(TaskResult::RepositoryValidation {
        request_id: id,
        result: Err("late".to_string()),
    }));
    assert!(matches!(late, Some(FollowUp::Nothing)));
    assert!(matches!(app.repo_screen.validation, LoadState::Loaded(_)));
}

#[test]
fn routed_keys_act_on_the_tab_bar_and_the_theme_picker() {
    let mut app = App::new(Some(config()));
    app.focus = Focus::TabBar;
    app.active_screen = Screen::Dashboard;
    assert!(matches!(app.route_key(key(KeyCode::Right), ThemeId::Dracula), KeyRoute::TabBar(None)));
    assert_eq!(app.active_screen, Screen::Repository);

    let ctrl_t = KeyEvent::new(KeyCode::Char('t'), KeyModifiers::control());
    assert!(matches!(app.route_key(ctrl_t, ThemeId::Dracula), KeyRoute::OpenedThemePicker));
    match app.route_key(key(KeyCode::Down), ThemeId::Dracula) {
        KeyRoute::ThemePicker(PickerStep::Preview(id)) => assert_eq!(id, ThemeId::Dracula.next()),
        _ => panic!("the picker did not move"),
    }
    assert!(app.theme_picker.is_some());
    match app.route_key(key(KeyCode::Esc), ThemeId::Dracula) {
        KeyRoute::ThemePicker(PickerStep::Restore(id)) => assert_eq!(id, ThemeId::Dracula),
        _ => panic!("the picker did not restore"),
    }
    assert!(app.theme_picker.is_none());
    assert_eq!(app.active_screen, Screen::Repository);
}
