use dothoard::content::{Surroundings, Work};
use dothoard::ignore_view::{pattern_rows, source_selector};
use dothoard::keys::{KeyCode, KeyEvent, KeyModifiers};
use dothoard::mouse::{MouseEvent, MouseKind, PointerStep};
use dothoard::namespaces::{name_less, NamespacePlan};
use dothoard::paths::PathKey;
use dothoard::pointer::{ClickAction, PointerMap, Rect, ScrollAction};
use dothoard::screens::history::{filter_logs_by_timestamp, in_run, Timestamp};
use dothoard::screens::ignore::ListFocus;
use dothoard::screens::repository::{NamespaceAction, NamespaceSummary, OwnershipInfo, RepoMode, RepoScreen};
use dothoard::selection::SourceConfig;
use dothoard::shell::{App, Config, Focus, Screen};
use dothoard::screens::automation::ConfirmAction;
use dothoard::status::StatusKind;
use dothoard::task::{CheckItem, CheckItemStatus, CheckResult};

fn config(sources: &[(&str, &[&str])]) -> Config {
    Config {
        repository: "/srv/repo".to_string(),
        namespace: "laptop".to_string(),
        sources: sources
            .iter()
            .map(|(p, rules)| SourceConfig { path: p.to_string(), ignore: rules.iter().map(|r| r.to_string()).collect() })
            .collect(),
    }
}

fn env() -> Surroundings {
    Surroundings {
        paths_ready: true,
        browser_ready: false,
        home: None,
        history_len: 2,
        latest_error: None,
        latest_warning: None,
    }
}

fn plain(code: KeyCode) -> KeyEvent {
    KeyEvent::new(code, KeyModifiers::none())
}

fn left(column: u16, row: u16) -> MouseEvent {
    MouseEvent { kind: MouseKind::LeftDown, column, row }
}

#[test]
fn clicks_act_on_the_topmost_area() {
    let mut app = App::new(Some(config(&[("a", &[]), ("b", &[])])));
    let mut map = PointerMap::new();
    map.click(Rect::new(0, 0, 10, 1), ClickAction::Tab(Screen::History));
    map.click(Rect::new(0, 2, 10, 1), ClickAction::Key(KeyCode::Char('q'), KeyModifiers::none()));
    map.click(Rect::new(0, 3, 10, 1), ClickAction::IgnoreSource(1));
    map.scroll(Rect::new(0, 5, 10, 5), ScrollAction::PickerPreview);

    assert_eq!(app.handle_mouse(left(3, 0), &map, 0), PointerStep::Nothing);
    assert_eq!(app.active_screen, Screen::History);
    assert_eq!(app.focus, Focus::TabBar);

    assert_eq!(app.handle_mouse(left(3, 2), &map, 0), PointerStep::Key(plain(KeyCode::Char('q'))));
    assert_eq!(app.handle_mouse(left(30, 30), &map, 0), PointerStep::Nothing);

    app.ignore_screen.list_focus = ListFocus::PatternList;
    assert_eq!(app.handle_mouse(left(1, 3), &map, 0), PointerStep::Nothing);
    assert_eq!(app.ignore_screen.source_idx, 1);
    assert_eq!(app.ignore_screen.list_focus, ListFocus::SourceSelector);
    assert_eq!(app.focus, Focus::Content);

    app.focus = Focus::TabBar;
    let down = MouseEvent { kind: MouseKind::ScrollDown, column: 2, row: 6 };
    assert_eq!(
        app.handle_mouse(down, &map, 0),
        PointerStep::ScrollKey(KeyEvent::new(KeyCode::Down, KeyModifiers::control()))
    );
    assert_eq!(app.focus, Focus::Content);
    app.finish_pointer_scroll();
    assert_eq!(app.focus, Focus::Content);
}

#[test]
fn wheel_is_ignored_while_a_dialog_owns_input() {
    let mut app = App::new(Some(config(&[])));
    app.focus = Focus::Content;
    app.active_screen = Screen::Dashboard;
    app.dashboard_screen.detail = Some(dothoard::screens::dashboard::Detail { title: "t".to_string(), value: "v".to_string() });
    let mut map = PointerMap::new();
    map.scroll(Rect::new(0, 0, 10, 10), ScrollAction::Vertical);
    let up = MouseEvent { kind: MouseKind::ScrollUp, column: 1, row: 1 };
    assert_eq!(app.handle_mouse(up, &map, 0), PointerStep::Nothing);
}

#[test]
fn namespace_names_order_by_code_point() {
    assert!(name_less("a", "b"));
    assert!(!name_less("ab", "a"));
    assert!(name_less("a", "ab"));
    assert!(!name_less("same", "same"));
    assert!(name_less("Zeta", "alpha"));
}

fn summary(name: &str, ownership: OwnershipInfo) -> NamespaceSummary {
    NamespaceSummary { name: name.to_string(), ownership, active: false }
}

#[test]
fn namespace_list_is_sorted_with_the_active_one_added() {
    let found = vec![summary("beta", OwnershipInfo::Owned { sources: Vec::new() }), summary("alpha", OwnershipInfo::New)];
    let mut screen = RepoScreen::new();
    screen.show_namespaces(found, "gamma", true);
    let names: Vec<(String, bool)> = screen.namespaces.iter().map(|n| (n.name.clone(), n.active)).collect();
    assert_eq!(
        names,
        vec![("alpha".to_string(), false), ("beta".to_string(), false), ("gamma".to_string(), true)]
    );
    assert_eq!(screen.namespace_selected, 2);

    let again = vec![summary("beta", OwnershipInfo::New), summary("alpha", OwnershipInfo::New)];
    screen.show_namespaces(again, "beta", true);
    let names: Vec<(String, bool)> = screen.namespaces.iter().map(|n| (n.name.clone(), n.active)).collect();
    assert_eq!(names, vec![("alpha".to_string(), false), ("beta".to_string(), true)]);
    assert_eq!(screen.namespace_selected, 1);

    screen.show_namespaces(vec![summary("beta", OwnershipInfo::New)], "bad/name", false);
    assert_eq!(screen.namespaces.len(), 1);
    assert_eq!(screen.namespace_selected, 0);
}

#[test]
fn namespace_operation_is_planned_and_applied() {
    let mut app = App::new(Some(config(&[])));
    app.repo_screen.namespace_action = NamespaceAction::Rename;
    app.repo_screen.namespace_input = "desk".to_string();
    match app.prepare_namespace_operation(false) {
        NamespacePlan::Refused => {},
        other => panic!("unexpected {other:?}"),
    }
    assert_eq!(app.status_message.as_ref().unwrap().text(), "Cannot manage namespace: paths not resolved.");
    match app.prepare_namespace_operation(true) {
        NamespacePlan::Run { action, requested, config } => {
            assert_eq!(action, NamespaceAction::Rename);
            assert_eq!(requested, "desk");
            assert_eq!(config.repository, "/srv/repo");
        },
        other => panic!("unexpected {other:?}"),
    }

    let mut fresh = App::new(None);
    fresh.status_message = None;
    fresh.repo_screen.namespace_action = NamespaceAction::SelectOrCreate;
    match fresh.prepare_namespace_operation(true) {
        NamespacePlan::Refused => {},
        other => panic!("unexpected {other:?}"),
    }
    assert_eq!(fresh.repo_screen.mode, RepoMode::Browser);
    assert_eq!(fresh.status_message.as_ref().unwrap().kind(), StatusKind::Warning);

    app.status_message = None;
    app.finish_namespace_operation("desk", Ok(config(&[("a", &[]), ("b", &[])])));
    assert_eq!(app.status_message.as_ref().unwrap().text(), "Active namespace: desk (2 sources active)");
    assert_eq!(app.repo_screen.namespace_input, "desk");
    assert_eq!(app.repo_screen.mode, RepoMode::Browser);
    assert_eq!(app.repo_screen.namespace_action, NamespaceAction::Idle);
    assert_eq!(app.config.as_ref().unwrap().sources.len(), 2);

    app.status_message = None;
    app.finish_namespace_operation("desk", Err("denied".to_string()));
    assert_eq!(app.status_message.as_ref().unwrap().text(), "Namespace operation failed: denied");
}

#[test]
fn content_keys_are_dispatched_to_the_active_screen() {
    let mut app = App::new(Some(config(&[])));
    app.focus = Focus::Content;
    app.active_screen = Screen::History;
    assert!(matches!(app.handle_key_content(plain(KeyCode::Enter), &env()), Work::OpenLogs(0)));
    assert!(matches!(app.handle_key_content(plain(KeyCode::Tab), &env()), Work::Nothing));
    assert_eq!(app.focus, Focus::TabBar);

    app.focus = Focus::Content;
    app.active_screen = Screen::Preview;
    assert!(matches!(app.handle_key_content(plain(KeyCode::Char('z')), &env()), Work::Nothing));
    assert!(matches!(app.handle_key_content(plain(KeyCode::Char('q')), &env()), Work::Nothing));
    assert!(app.should_quit);
}

#[test]
fn log_lines_are_kept_within_the_run() {
    let started = Timestamp { secs: 1_784_642_400, nanos: 0 };
    let finished = Timestamp { secs: 1_784_645_100, nanos: 0 };
    let lines = vec![
        "2026-07-21T14:30:00Z start".to_string(),
        "2026-07-21T15:00:00Z late".to_string(),
        "garbage".to_string(),
        "notatime x".to_string(),
        "2026-07-21T14:00:00.000000000Z edge".to_string(),
    ];
    assert_eq!(
        filter_logs_by_timestamp(lines, started, finished),
        vec!["2026-07-21T14:30:00Z start".to_string(), "2026-07-21T14:00:00.000000000Z edge".to_string()]
    );
    // The start is included, the finish is not.
    assert!(in_run(Some((1_784_642_400, 0)), started, finished));
    assert!(in_run(Some((1_784_645_099, 999_999_999)), started, finished));
    assert!(!in_run(Some((1_784_645_100, 0)), started, finished));
    assert!(!in_run(None, started, finished));
}

#[test]
fn ignore_editor_selector_and_patterns() {
    let mut app = App::new(Some(config(&[("a", &[]), ("bb", &["*.log", "tmp/"])])));
    let mut map = PointerMap::new();
    let (label, tabs) = source_selector(&app, Rect::new(0, 0, 80, 10), &mut map);
    assert_eq!(label, "▶ Source selector [FOCUS]: ");
    assert_eq!(tabs.len(), 2);
    assert!(tabs[0].selected);
    assert_eq!(tabs[1].text, " bb ");
    assert_eq!(map.click_at(27, 1), Some(ClickAction::IgnoreSource(0)));
    assert_eq!(map.click_at(31, 1), Some(ClickAction::IgnoreSource(1)));
    assert_eq!(map.click_at(36, 1), None);

    assert!(pattern_rows(&app, Rect::new(0, 0, 80, 10), &mut map).is_none());
    app.ignore_screen.source_idx = 1;
    app.ignore_screen.list_focus = ListFocus::PatternList;
    let mut rows_map = PointerMap::new();
    let (head, rows) = pattern_rows(&app, Rect::new(0, 0, 80, 10), &mut rows_map).unwrap();
    assert_eq!(head, "▶ Pattern list [FOCUS]:");
    assert_eq!(rows, vec![(true, "*.log".to_string()), (false, "tmp/".to_string())]);
    assert_eq!(rows_map.click_at(3, 5), Some(ClickAction::IgnorePattern(1)));
}

#[test]
fn adding_then_removing_a_pattern_restores_the_source() {
    let mut app = App::new(Some(config(&[("a", &["x"])])));
    assert!(app.handle_add_pattern(0, "y".to_string()));
    assert_eq!(app.config.as_ref().unwrap().sources[0].ignore, vec!["x".to_string(), "y".to_string()]);
    assert!(app.handle_remove_pattern(0, 1));
    assert_eq!(app.config.as_ref().unwrap().sources[0].ignore, vec!["x".to_string()]);
    assert_eq!(app.config.as_ref().unwrap().sources[0].path, "a");
}

#[test]
fn browsers_open_once_where_the_screens_say() {
    let home = PathKey { parts: vec!["home".to_string(), "me".to_string()] };
    let mut repo = RepoScreen::new();
    assert!(repo.ensure_browser(&home, false, true).is_none());
    let (root, start) = repo.ensure_browser(&home, false, false).unwrap();
    assert!(root.parts.is_empty());
    assert_eq!(start.parts, home.parts);
    repo.input = "~/dots/repo".to_string();
    let (_, start) = repo.ensure_browser(&home, false, false).unwrap();
    assert_eq!(start.parts, vec!["home".to_string(), "me".to_string(), "dots".to_string()]);
    let (_, start) = repo.ensure_browser(&home, true, false).unwrap();
    assert_eq!(start.parts, vec!["home".to_string(), "me".to_string(), "dots".to_string(), "repo".to_string()]);

    let sources = dothoard::screens::sources::SourcesScreen::new();
    let (root, start) = sources.ensure_browser(&home, false).unwrap();
    assert_eq!(root.parts, home.parts);
    assert_eq!(start.parts, home.parts);
    assert!(sources.ensure_browser(&home, true).is_none());
}

#[test]
fn dashboard_detail_shows_the_first_item_that_did_not_pass() {
    let mut app = App::new(Some(config(&[])));
    app.focus = Focus::Content;
    let mut with_error = env();
    with_error.latest_error = Some("disk full".to_string());
    app.dispatch_to_screen(plain(KeyCode::Char('d')), &with_error);
    let detail = app.dashboard_screen.detail.take().unwrap();
    assert_eq!((detail.title.as_str(), detail.value.as_str()), ("Latest backup error", "disk full"));

    app.last_check = Some(CheckResult {
        healthy: false,
        results: vec![
            CheckItem { label: "Lock".to_string(), status: CheckItemStatus::Passed, detail: None },
            CheckItem { label: "Remote".to_string(), status: CheckItemStatus::Warning, detail: None },
            CheckItem { label: "Disk".to_string(), status: CheckItemStatus::Error, detail: Some("full".to_string()) },
        ],
    });
    assert_eq!(app.dispatch_to_screen(plain(KeyCode::Char('d')), &with_error).0, true);
    let detail = app.dashboard_screen.detail.clone().unwrap();
    assert_eq!((detail.title.as_str(), detail.value.as_str()), ("Check: Remote", "Remote"));
    // While the detail is open every key is taken; Esc closes it.
    assert!(matches!(app.dispatch_to_screen(plain(KeyCode::Char('b')), &env()), (true, Work::Nothing)));
    assert!(app.dashboard_screen.detail.is_some());
    app.dispatch_to_screen(plain(KeyCode::Esc), &env());
    assert!(app.dashboard_screen.detail.is_none());

    let mut quiet = App::new(Some(config(&[])));
    quiet.dispatch_to_screen(plain(KeyCode::Char('d')), &env());
    assert!(quiet.dashboard_screen.detail.is_none());
    let m = quiet.status_message.as_ref().unwrap();
    assert_eq!((m.kind(), m.text()), (StatusKind::Warning, "No error, warning, or check issue is available to show."));
}

#[test]
fn automation_changes_need_a_repository_and_a_confirmation() {
    let mut app = App::new(None);
    app.active_screen = Screen::Automation;
    assert!(matches!(app.dispatch_to_screen(plain(KeyCode::Char('i')), &env()), (true, Work::Nothing)));
    assert_eq!(app.automation_screen.confirm, ConfirmAction::Idle);

    let mut app = App::new(Some(config(&[])));
    app.active_screen = Screen::Automation;
    assert!(matches!(app.dispatch_to_screen(plain(KeyCode::Char('i')), &env()), (true, Work::Nothing)));
    assert_eq!(app.automation_screen.confirm, ConfirmAction::Install);
    assert!(matches!(app.dispatch_to_screen(plain(KeyCode::Char('y')), &env()), (true, Work::InstallAutomation)));
    assert_eq!(app.automation_screen.confirm, ConfirmAction::Idle);

    assert!(matches!(app.dispatch_to_screen(plain(KeyCode::Char('x')), &env()), (true, Work::Nothing)));
    let mut no_paths = env();
    no_paths.paths_ready = false;
    assert!(matches!(app.dispatch_to_screen(plain(KeyCode::Char('y')), &no_paths), (true, Work::Nothing)));
    let m = app.status_message.as_ref().unwrap();
    assert_eq!((m.kind(), m.text()), (StatusKind::Error, "Cannot remove automation: application paths are unavailable."));
}
