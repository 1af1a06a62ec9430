use dothoard::task::{
    BackupResult, CheckItem, CheckItemStatus, CheckResult, LoadState, LoadTaskKind, Received, RequestId,
    TaskKind, TaskManager, TaskResult, first_check_issue,
};

#[test]
fn begin_then_finish_accepts_only_the_current_request() {
    let mut state: LoadState<String> = LoadState::NotLoaded;
    state.begin(RequestId::for_test(1), false);
    assert!(state.is_loading());
    assert!(!state.finish(RequestId::for_test(2), Ok("stale".to_string())));
    assert!(state.is_loading());
    assert!(state.finish(RequestId::for_test(1), Ok("fresh".to_string())));
    assert_eq!(state.data().map(|s| s.as_str()), Some("fresh"));
}

#[test]
fn failure_preserves_previous_data() {
    let mut state: LoadState<String> = LoadState::Loaded("old".to_string());
    state.begin(RequestId::for_test(7), true);
    assert!(state.finish(RequestId::for_test(7), Err("boom".to_string())));
    assert_eq!(state.error().map(|s| s.as_str()), Some("boom"));
    assert_eq!(state.data().map(|s| s.as_str()), Some("old"));
    state.invalidate();
    assert!(state.needs_load());
    state.reset();
    assert!(state.data().is_none());
}

#[test]
fn one_live_request_per_kind_and_results_retire_them() {
    let mut tasks = TaskManager::new();
    let first = tasks.begin_load(LoadTaskKind::BackupPreview).unwrap();
    assert_eq!(first.value(), 1);
    assert!(tasks.begin_load(LoadTaskKind::BackupPreview).is_none());
    assert!(tasks.is_load_active(LoadTaskKind::BackupPreview));
    let other = tasks.begin_load(LoadTaskKind::IgnorePreview).unwrap();
    assert_eq!(other.value(), 2);

    tasks.invalidate_load(LoadTaskKind::BackupPreview);
    let second = tasks.begin_load(LoadTaskKind::BackupPreview).unwrap();
    assert_eq!(second.value(), 3);
    let stale = TaskResult::AutomationInspection { request_id: first, result: Ok(String::new()) };
    assert!(tasks.poll(Received::Result(stale)).is_some());
    assert!(tasks.is_load_active(LoadTaskKind::BackupPreview));

    let done = TaskResult::IgnorePreview { request_id: other, source_idx: 0, result: Ok(Vec::new()) };
    assert!(tasks.poll(Received::Result(done)).is_some());
    assert!(!tasks.is_load_active(LoadTaskKind::IgnorePreview));
    assert!(tasks.poll(Received::Empty).is_none());
}

#[test]
fn one_user_operation_at_a_time() {
    let mut tasks = TaskManager::new();
    assert!(tasks.begin_task(TaskKind::Backup));
    assert!(!tasks.begin_task(TaskKind::Check));
    assert_eq!(tasks.active_task(), Some(TaskKind::Backup));
    let result = BackupResult {
        success: true,
        commit: None,
        pushed: false,
        copies: 0,
        deletions: 0,
        warnings: Vec::new(),
        error: None,
    };
    assert!(tasks.poll(Received::Result(TaskResult::Backup(result))).is_some());
    assert!(!tasks.is_busy());
    assert!(tasks.begin_task(TaskKind::Push));
    assert!(tasks.poll(Received::Disconnected).is_none());
    assert!(!tasks.is_busy());
}

#[test]
fn first_issue_prefers_errors_over_warnings() {
    let item = |label: &str, status| CheckItem { label: label.to_string(), status, detail: None };
    let check = CheckResult {
        healthy: false,
        results: vec![
            item("a", CheckItemStatus::Passed),
            item("b", CheckItemStatus::Warning),
            item("c", CheckItemStatus::Error),
        ],
    };
    assert_eq!(first_check_issue(&check).unwrap().label, "c");
    let healthy = CheckResult { healthy: true, results: vec![item("a", CheckItemStatus::Passed)] };
    assert!(first_check_issue(&healthy).is_none());
}
