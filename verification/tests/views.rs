use dothoard::chrome::{
    compact_tabs, layout_class, modal_owns_pointer, register_tab_regions, register_theme_picker, screen_title,
    status_line, tab_bar_height, tab_title, theme_picker_rows, theme_picker_size_of, CompactTabs, LayoutClass,
};
use dothoard::dialogs::{modal_dialog, Dialog, DialogContext};
use dothoard::hints::{help_bar, help_bar_content_focus, help_bar_tab_focus, register_help_clicks, HelpContext, HelpSpan};
use dothoard::keys::{KeyCode, KeyModifiers};
use dothoard::listing::{history_detail, history_list, list_rows, log_view, range_note};
use dothoard::overview::{
    dashboard_action, dashboard_automation, dashboard_check, dashboard_health, dashboard_issue, last_push_text,
    last_success_text, repository_details, RunSummary, Tone,
};
use dothoard::panes::{automation_status_lines, preview_entry_line, preview_summary, preview_window};
use dothoard::pointer::{ClickAction, PointerMap, Rect};
use dothoard::repo_view::{browser_status, ownership_line};
use dothoard::screens::dashboard::Detail;
use dothoard::screens::history::{HistoryScreen, RunOutcome, RunRecord, Timestamp};
use dothoard::screens::preview::{EntryKind, PreviewData, PreviewEntry};
use dothoard::screens::repository::{NamespaceAction, OwnershipInfo, RepoMode};
use dothoard::selection::{SelectionDiff, SourceConfig, SourceRules};
use dothoard::setup::SetupState;
use dothoard::setup_view::{automation_backends, clone_status, setup_help, step_heading};
use dothoard::shell::{App, Config, Focus, Screen, ThemePickerState};
use dothoard::sources_view::{apply_question, diff_lines, selection_summary};
use dothoard::status::{StatusKind, StatusMessage};
use dothoard::task::{CheckItem, CheckItemStatus, CheckResult, LoadState, RequestId};
use dothoard::theme::ThemeId;

fn config_with(sources: &[&str]) -> Config {
    Config {
        repository: "/srv/repo".to_string(),
        namespace: "laptop".to_string(),
        sources: sources.iter().map(|p| SourceConfig { path: p.to_string(), ignore: Vec::new() }).collect(),
    }
}

fn texts(v: &[HelpSpan]) -> Vec<(bool, String)> {
    v.iter().map(|h| (h.key, h.text.clone())).collect()
}

fn pairs(v: &[(bool, &str)]) -> Vec<(bool, String)> {
    v.iter().map(|(k, t)| (*k, t.to_string())).collect()
}

fn cx() -> HelpContext {
    HelpContext { paths_ready: true, external_backend: false, repository_locked: false, history_len: 0 }
}

#[test]
fn help_bar_lists_the_tab_bar_keys() {
    assert_eq!(
        texts(&help_bar_tab_focus()),
        pairs(&[
            (true, "←→/hl"),
            (false, " tabs  "),
            (true, "↓/j/Enter"),
            (false, " content  "),
            (true, "1-7"),
            (false, " jump  "),
            (true, "Ctrl+T"),
            (false, " theme  "),
            (true, "q"),
            (false, " quit"),
        ])
    );
    let app = App::new(Some(config_with(&[])));
    assert_eq!(app.focus, Focus::TabBar);
    assert_eq!(texts(&help_bar(&app, cx())), texts(&help_bar_tab_focus()));
}

#[test]
fn dashboard_help_offers_backup_only_with_sources() {
    let mut app = App::new(Some(config_with(&[])));
    app.focus = Focus::Content;
    assert_eq!(
        texts(&help_bar_content_focus(&app, cx())),
        pairs(&[
            (true, "Tab"),
            (false, " tabs  "),
            (true, "c"),
            (false, " check  "),
            (true, "p"),
            (false, " push  "),
            (true, "a"),
            (false, " automation  "),
            (true, "r"),
            (false, " repository  "),
            (true, "d"),
            (false, " details  "),
            (true, "q"),
            (false, " quit"),
        ])
    );
    let mut with_sources = App::new(Some(config_with(&[".config"])));
    with_sources.focus = Focus::Content;
    let spans = texts(&help_bar_content_focus(&with_sources, cx()));
    assert_eq!(spans[6], (true, "b".to_string()));
    assert_eq!(spans[7], (false, " backup  ".to_string()));
}

#[test]
fn repository_and_automation_help_follow_the_state() {
    let mut app = App::new(None);
    app.active_screen = Screen::Repository;
    app.repo_screen.mode = RepoMode::TextInput;
    assert_eq!(
        texts(&help_bar_content_focus(&app, cx())),
        pairs(&[
            (true, "Tab"),
            (false, " tabs  "),
            (true, "Enter"),
            (false, " validate  "),
            (true, "Esc"),
            (false, " browser  "),
            (true, "Ctrl+U"),
            (false, " clear"),
        ])
    );
    let mut auto = App::new(Some(config_with(&[])));
    auto.focus = Focus::Content;
    auto.active_screen = Screen::Automation;
    let external = HelpContext { external_backend: true, ..cx() };
    assert_eq!(
        texts(&help_bar_content_focus(&auto, external)),
        pairs(&[(true, "Tab"), (false, " tabs  "), (true, "r"), (false, " refresh"), (false, "  "), (true, "b"), (false, " backend")])
    );
    assert_eq!(texts(&help_bar_content_focus(&auto, cx())).len(), 12);
}

#[test]
fn help_clicks_send_the_named_keys() {
    let mut map = PointerMap::new();
    let area = Rect::new(0, 23, 80, 1);
    register_help_clicks(&mut map, area, &help_bar_tab_focus());
    assert_eq!(map.click_at(41, 23), Some(ClickAction::Key(KeyCode::Char('t'), KeyModifiers::control())));
    assert_eq!(map.click_at(55, 23), Some(ClickAction::Key(KeyCode::Char('q'), KeyModifiers::none())));
    assert_eq!(map.click_at(0, 23), None);
    assert_eq!(map.click_at(41, 22), None);

    let mut ns = PointerMap::new();
    let spans = vec![HelpSpan { key: true, text: "n/r/d".to_string() }];
    register_help_clicks(&mut ns, Rect::new(10, 0, 20, 1), &spans);
    assert_eq!(ns.click_at(10, 0), Some(ClickAction::Key(KeyCode::Char('n'), KeyModifiers::none())));
    assert_eq!(ns.click_at(12, 0), Some(ClickAction::Key(KeyCode::Char('r'), KeyModifiers::none())));
    assert_eq!(ns.click_at(14, 0), Some(ClickAction::Key(KeyCode::Char('d'), KeyModifiers::none())));
    assert_eq!(ns.click_at(11, 0), None);
}

fn run() -> RunSummary {
    RunSummary {
        latest_error: None,
        latest_warning: None,
        last_success: Some(Timestamp { secs: 1_700_000_000, nanos: 0 }),
        pending_push: false,
        last_push: None,
    }
}

#[test]
fn dashboard_health_and_next_action() {
    let unconfigured = App::new(None);
    assert_eq!(dashboard_health(&unconfigured, &run()), ("UNCONFIGURED — setup required".to_string(), Tone::Warning));
    assert_eq!(dashboard_action(&unconfigured, &run()), "Configure repository (r)");

    let mut app = App::new(Some(config_with(&[])));
    let failing = RunSummary { latest_error: Some("boom".to_string()), ..run() };
    assert_eq!(dashboard_health(&app, &failing).0, "NEEDS ATTENTION — review the latest issue");
    assert_eq!(dashboard_action(&app, &failing), "Run a check (c)");
    assert_eq!(dashboard_issue(&app, &failing), Some(("boom".to_string(), Tone::Error)));
    assert_eq!(dashboard_health(&app, &run()), ("HEALTHY".to_string(), Tone::Success));
    assert_eq!(dashboard_action(&app, &run()), "Review automation (a)");
    app.automation_screen.status_state = LoadState::Loaded("active".to_string());
    assert_eq!(dashboard_action(&app, &run()), "No action needed — run backup when ready (b)");
    let pending = RunSummary { pending_push: true, ..run() };
    assert_eq!(dashboard_action(&app, &pending), "Push pending commits (p)");
    let fresh = RunSummary { last_success: None, ..run() };
    assert_eq!(dashboard_health(&app, &fresh), ("NO SUCCESSFUL BACKUP YET".to_string(), Tone::Warning));
}

#[test]
fn dashboard_times_and_repository_details() {
    assert_eq!(last_success_text(&run()), "2023-11-14 22:13:20 UTC");
    assert_eq!(last_success_text(&RunSummary { last_success: None, ..run() }), "Never");
    assert_eq!(last_push_text(&run()), None);
    let pushed = RunSummary { last_push: Some(Timestamp { secs: 0, nanos: 0 }), ..run() };
    assert_eq!(last_push_text(&pushed), Some("1970-01-01 00:00:00 UTC".to_string()));

    assert!(repository_details(&App::new(None), 40).is_none());
    let app = App::new(Some(config_with(&["/home/u/a", "/home/u/b"])));
    let details = repository_details(&app, 40).unwrap();
    assert_eq!(details.path, vec!["/srv/repo".to_string()]);
    assert_eq!(details.namespace, "laptop");
    assert_eq!(details.sources, "2");
    // "  Path" and ": " leave four cells of a fourteen-cell pane.
    let narrow = repository_details(&app, 14).unwrap();
    assert_eq!(narrow.path, vec!["/srv".to_string(), "/rep".to_string(), "o".to_string()]);
}

#[test]
fn dashboard_automation_and_check_summaries() {
    let mut app = App::new(Some(config_with(&[])));
    app.automation_screen.status_state = LoadState::Stale { previous: Some("active".to_string()) };
    assert_eq!(dashboard_automation(&app), ("Stale: active".to_string(), Tone::Warning));
    app.automation_screen.status_state =
        LoadState::Failed { error: "x".to_string(), previous: Some("y".to_string()) };
    assert_eq!(dashboard_automation(&app), ("Unavailable: x; previous y".to_string(), Tone::Error));
    app.automation_screen.status_state = LoadState::NotLoaded;
    assert_eq!(dashboard_automation(&app).0, "Unavailable — not inspected yet (press a)");

    assert_eq!(dashboard_check(&app), ("Unavailable — run check (c)".to_string(), Tone::Warning));
    app.last_check = Some(CheckResult {
        healthy: false,
        results: vec![
            CheckItem { label: "Remote".to_string(), status: CheckItemStatus::Warning, detail: None },
            CheckItem { label: "Lock".to_string(), status: CheckItemStatus::Error, detail: Some("stale lock".to_string()) },
        ],
    });
    assert_eq!(dashboard_check(&app), ("Lock: stale lock".to_string(), Tone::Error));
    assert_eq!(dashboard_issue(&app, &run()), Some(("Lock: stale lock".to_string(), Tone::Error)));
    app.last_check = Some(CheckResult {
        healthy: false,
        results: vec![CheckItem { label: "Remote".to_string(), status: CheckItemStatus::Warning, detail: None }],
    });
    assert_eq!(dashboard_check(&app).0, "Remote: needs attention");
}

#[test]
fn frame_layout_titles_and_pointer_ownership() {
    assert_eq!(layout_class(Rect::new(0, 0, 100, 30)), LayoutClass::Wide);
    assert_eq!(layout_class(Rect::new(0, 0, 50, 30)), LayoutClass::Medium);
    assert_eq!(layout_class(Rect::new(0, 0, 30, 30)), LayoutClass::Narrow);
    assert_eq!(layout_class(Rect::new(0, 0, 100, 10)), LayoutClass::Short);
    assert_eq!(tab_bar_height(Rect::new(0, 0, 100, 30)), 3);
    assert_eq!(tab_bar_height(Rect::new(0, 0, 60, 30)), 1);

    let mut app = App::new(Some(config_with(&[])));
    assert_eq!(screen_title(&app, "Dashboard"), ("   Content · Dashboard ".to_string(), "[Overview] ".to_string()));
    assert_eq!(
        tab_title(&app),
        vec![" ▶ TAB FOCUS · dothoard ".to_string(), "· namespace ".to_string(), "laptop".to_string(), " ".to_string()]
    );
    assert!(!modal_owns_pointer(&app));
    app.theme_picker = Some(ThemePickerState::open(ThemeId::System));
    assert!(modal_owns_pointer(&app));
    app.theme_picker = None;
    app.focus = Focus::Content;
    app.active_screen = Screen::Repository;
    app.repo_screen.mode = RepoMode::Namespaces;
    assert_eq!(screen_title(&app, "Repository"), (" ▶ CONTENT · Repository ".to_string(), "[Managing namespaces] ".to_string()));
}

#[test]
fn status_bar_prefers_the_published_message() {
    let mut app = App::new(Some(config_with(&[])));
    assert_eq!(status_line(&app, 80), None);
    app.repo_screen.validation = LoadState::Loading { request_id: RequestId::for_test(1), previous: None };
    assert_eq!(status_line(&app, 80), Some((StatusKind::Running, " Running: Checking repository...".to_string())));
    app.status_message = Some(StatusMessage::error("disk full"));
    assert_eq!(status_line(&app, 80), Some((StatusKind::Error, " Error: disk full".to_string())));
    assert_eq!(status_line(&app, 10), Some((StatusKind::Error, " Error:...".to_string())));
}

#[test]
fn tab_bar_click_areas_and_compact_tabs() {
    let mut map = PointerMap::new();
    register_tab_regions(&mut map, Rect::new(0, 0, 120, 3), Screen::Dashboard);
    assert_eq!(map.click_at(0, 0), Some(ClickAction::Tab(Screen::Dashboard)));
    assert_eq!(map.click_at(13, 2), Some(ClickAction::Tab(Screen::Dashboard)));
    assert_eq!(map.click_at(14, 0), Some(ClickAction::Tab(Screen::Repository)));
    assert_eq!(map.click_at(29, 1), Some(ClickAction::Tab(Screen::Sources)));
    let mut narrow = PointerMap::new();
    register_tab_regions(&mut narrow, Rect::new(0, 0, 20, 1), Screen::Preview);
    assert_eq!(narrow.click_at(19, 0), Some(ClickAction::Tab(Screen::Preview)));

    match compact_tabs(Screen::Sources, 15) {
        CompactTabs::Active { position, label } => {
            assert_eq!(position, "3/7 ");
            assert_eq!(label, "Sources");
        },
        CompactTabs::Numbers(_) => panic!("expected the active tab"),
    }
    match compact_tabs(Screen::Sources, 30) {
        CompactTabs::Numbers(v) => {
            assert_eq!(v.len(), 7);
            assert_eq!(v[2], (true, " 3 ".to_string()));
            assert_eq!(v[0], (false, " 1 ".to_string()));
        },
        CompactTabs::Active { .. } => panic!("expected numbers"),
    }
}

#[test]
fn theme_picker_layout_rows_and_clicks() {
    assert_eq!(theme_picker_size_of(Rect::new(0, 0, 100, 40)), (56, 15));
    assert_eq!(theme_picker_size_of(Rect::new(0, 0, 20, 10)), (30, 10));
    let rows = theme_picker_rows(ThemeId::System);
    assert_eq!(rows.len(), 11);
    assert_eq!(rows[0], (true, "System (Terminal) ".to_string()));
    assert!(!rows[1].0);
    let mut map = PointerMap::new();
    map.click(Rect::new(0, 0, 100, 100), ClickAction::FocusContent);
    register_theme_picker(&mut map, Rect::new(10, 5, 40, 14));
    assert_eq!(map.click_at(12, 6), Some(ClickAction::Theme(0)));
    assert_eq!(map.click_at(12, 16), Some(ClickAction::Theme(10)));
    assert_eq!(map.click_at(26, 18), Some(ClickAction::Key(KeyCode::Enter, KeyModifiers::none())));
    assert_eq!(map.click_at(38, 18), Some(ClickAction::Key(KeyCode::Esc, KeyModifiers::none())));
    assert_eq!(map.click_at(0, 0), None);
}

#[test]
fn dialogs_follow_the_screen_that_owns_input() {
    let context = DialogContext { repository_dir: Some("/srv/repo".to_string()), backend_description: "systemd timer".to_string() };
    let mut app = App::new(Some(config_with(&[".config/nvim"])));
    assert!(modal_dialog(&app, &context).is_none());
    app.dashboard_screen.detail = Some(Detail { title: "Check: Lock".to_string(), value: "stale".to_string() });
    match modal_dialog(&app, &context) {
        Some(Dialog::Confirm { title, affected, consequence, confirm, cancel }) => {
            assert_eq!(title, "Check: Lock");
            assert_eq!(affected, None);
            assert_eq!(consequence, "stale");
            assert_eq!(confirm, "d: details");
            assert_eq!(cancel, "Esc: close");
        },
        other => panic!("unexpected {other:?}"),
    }
    app.active_screen = Screen::Sources;
    app.sources_screen.mode = dothoard::screens::sources::Mode::ConfirmDelete;
    match modal_dialog(&app, &context) {
        Some(Dialog::Confirm { title, affected, .. }) => {
            assert_eq!(title, "Remove source");
            assert_eq!(affected, Some(".config/nvim".to_string()));
        },
        other => panic!("unexpected {other:?}"),
    }
    app.active_screen = Screen::Repository;
    app.repo_screen.namespace_action = NamespaceAction::Delete;
    app.repo_screen.namespace_origin = "laptop".to_string();
    app.repo_screen.namespace_confirmation = Some("Delete laptop?".to_string());
    match modal_dialog(&app, &context) {
        Some(Dialog::Confirm { title, affected, consequence, .. }) => {
            assert_eq!(title, "Confirm namespace change");
            assert_eq!(affected, Some("/srv/repo/laptop".to_string()));
            assert_eq!(consequence, "Delete laptop?");
        },
        other => panic!("unexpected {other:?}"),
    }
    app.repo_screen.namespace_confirmation = None;
    app.repo_screen.mode = RepoMode::NamespaceInput;
    match modal_dialog(&app, &context) {
        Some(Dialog::Input { title, label, note, .. }) => {
            assert_eq!(title, "Namespace");
            assert_eq!(label, "delete (type replacement)");
            assert_eq!(note, Some(("/srv/repo".to_string(), Tone::Muted)));
        },
        other => panic!("unexpected {other:?}"),
    }
}

#[test]
fn setup_words() {
    assert_eq!(step_heading(dothoard::setup::SetupStep::Automation), ("Step 3 of 4 · ".to_string(), "Automation".to_string()));
    let s = SetupState::new();
    assert_eq!(setup_help(&s), "←→/↑↓ choose  Enter continue  Esc quit");
    assert_eq!(
        clone_status(&s, &LoadState::NotLoaded),
        ("The destination must be a new path whose parent already exists.".to_string(), Tone::Muted)
    );
    let backends = automation_backends(&s);
    assert_eq!(backends.len(), 3);
    assert_eq!(backends[1].label, "cron     ");
    assert_eq!(backends[2].detail, " you own scheduling; dothoard prints the command");
}

fn record(secs: i64, namespace: &str, outcome: RunOutcome, commit: Option<&str>, message: Option<&str>) -> RunRecord {
    RunRecord {
        namespace: namespace.to_string(),
        started_at: Timestamp { secs, nanos: 0 },
        finished_at: Timestamp { secs: secs + 2, nanos: 0 },
        outcome,
        commit: commit.map(|c| c.to_string()),
        message: message.map(|m| m.to_string()),
        log_file: None,
    }
}

#[test]
fn lists_fit_their_rows() {
    assert_eq!(list_rows(5, 10), (4, true));
    assert_eq!(list_rows(5, 3), (5, false));
    assert_eq!(list_rows(1, 10), (1, false));
    assert_eq!(range_note(" ", 0, 4, 10), " [1-4 of 10]");

    let records = vec![
        record(1_700_000_000, "", RunOutcome::Failed, None, None),
        record(1_700_000_100, "laptop", RunOutcome::Success, None, None),
        record(1_700_000_200, "laptop", RunOutcome::CommittedOffline, None, None),
    ];
    let mut screen = HistoryScreen::new();
    let mut map = PointerMap::new();
    let (rows, note) = history_list(&mut screen, &records, Rect::new(0, 0, 40, 4), &mut map);
    assert_eq!(rows.len(), 1);
    assert_eq!(rows[0].time, "2023-11-14 22:13:20");
    assert_eq!(rows[0].namespace, "unknown namespace");
    assert_eq!(rows[0].outcome, "Failed");
    assert_eq!(rows[0].tone, Tone::Error);
    assert!(rows[0].selected);
    assert_eq!(note, Some(" [1-1 of 3]".to_string()));
    assert_eq!(map.click_at(5, 2), Some(ClickAction::History(0)));
}

#[test]
fn run_details_and_log_view() {
    let records = vec![record(
        1_700_000_000,
        "laptop",
        RunOutcome::Failed,
        Some("abcdef0123456789"),
        Some("network unreachable"),
    )];
    let detail = history_detail(&records, 0, 15).unwrap();
    assert_eq!(detail.outcome_tone, Tone::Error);
    let fields: Vec<(String, String)> = detail.fields.iter().map(|f| (f.label.clone(), f.value.clone())).collect();
    assert_eq!(fields[0], (" Outcome".to_string(), "Failed".to_string()));
    assert_eq!(fields[2], (" Namespace".to_string(), "laptop".to_string()));
    assert_eq!(fields[3], (" Duration".to_string(), "2s".to_string()));
    assert_eq!(fields[4], (" Commit".to_string(), "abcdef01".to_string()));
    assert_eq!(detail.message, Some(vec!["network".to_string(), "unreachable".to_string()]));
    assert!(history_detail(&records, 1, 40).is_none());

    let mut screen = HistoryScreen::new();
    screen.log_lines = (1..=5).map(|i| format!("line {i}")).collect();
    let (lines, note) = log_view(&mut screen, 5);
    assert_eq!(lines, vec!["line 1".to_string(), "line 2".to_string()]);
    assert_eq!(note, Some("  [1-2 of 5]".to_string()));
}

#[test]
fn automation_and_preview_panes() {
    let lines = automation_status_lines(&LoadState::Failed { error: "timeout".to_string(), previous: Some("active".to_string()) });
    let view: Vec<(String, Tone)> = lines.iter().map(|n| (n.text.clone(), n.tone)).collect();
    assert_eq!(
        view,
        vec![
            ("  Status check failed: timeout. Press r to retry.".to_string(), Tone::Error),
            ("  Previous: active".to_string(), Tone::Muted),
        ]
    );
    let data = PreviewData { additions: 1, modifications: 2, deletions: 3, exclusions: 4, warnings: 5, entries: Vec::new() };
    assert_eq!(
        preview_summary(&data),
        ("Added: 1  Changed: 2  Deleted: 3  Ignored: 4  Warning: 5".to_string(), "  (6 total operations)".to_string())
    );
    assert_eq!(preview_window(10, 8, 10), (6, 10, Some("  [7-10 of 10]".to_string())));
    assert_eq!(preview_window(3, 8, 10), (0, 3, None));
    let entry = PreviewEntry { kind: EntryKind::Deletion, path: "a.txt".to_string(), detail: Some("removed".to_string()) };
    assert_eq!(
        preview_entry_line(&entry),
        ("- ".to_string(), "a.txt".to_string(), Some("  (removed)".to_string()), Tone::Error)
    );
}

#[test]
fn repository_status_words() {
    let app = App::new(Some(config_with(&[])));
    let view: Vec<String> = browser_status(&app).iter().map(|n| n.text.clone()).collect();
    assert_eq!(view, vec![" Namespace: laptop".to_string(), " Select an existing Git worktree to validate it.".to_string()]);
    let owned = ownership_line(&OwnershipInfo::Owned { sources: vec!["a".to_string(), "b".to_string(), "c".to_string()] });
    assert_eq!(owned.text, " Existing manifest (3 sources)");
    assert_eq!(owned.tone, Tone::Warning);
}

#[test]
fn pending_changes_are_listed_with_rules_by_source() {
    assert_eq!(selection_summary(&None), " Selection not initialized");
    let diff = SelectionDiff {
        additions: vec![".vim".to_string()],
        removals: vec!["old".to_string(), "older".to_string()],
        ignore_rules: vec![
            SourceRules { source: "zeta".to_string(), rules: vec!["/a/".to_string()] },
            SourceRules { source: "alpha".to_string(), rules: vec!["/b/".to_string()] },
        ],
    };
    let (lines, order) = diff_lines(&diff, 40);
    assert_eq!(order, vec![1, 0]);
    let view: Vec<String> = lines.iter().map(|n| n.text.clone()).collect();
    assert_eq!(
        view,
        vec![
            "  Sources to add:".to_string(),
            "    + .vim".to_string(),
            "  Sources to remove:".to_string(),
            "    - old".to_string(),
            "    - older".to_string(),
            "  Generated ignore rules:".to_string(),
            "    alpha: /b/".to_string(),
            "    zeta: /a/".to_string(),
        ]
    );
    assert_eq!(apply_question(&Some(diff)), "Remove sources and apply changes (add 1, remove 2, 2 ignore rules)?");
    assert_eq!(apply_question(&None), "Apply changes?");
}
