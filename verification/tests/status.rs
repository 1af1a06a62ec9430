use dothoard::status::{publish, StatusKind, StatusMessage, ERROR_TICKS, SUCCESS_TICKS, WARNING_TICKS};

#[test]
fn transient_message_expires_on_ticks() {
    let mut message = StatusMessage::success("saved");
    for _ in 1..SUCCESS_TICKS {
        assert!(!message.tick());
    }
    assert!(message.tick());
}

#[test]
fn running_message_does_not_expire() {
    let mut message = StatusMessage::running("working");
    for _ in 0..100 {
        assert!(!message.tick());
    }
}

#[test]
fn priority_preserves_error_but_completion_replaces_running() {
    let mut slot = Some(StatusMessage::error("failure"));
    publish(&mut slot, StatusMessage::success("saved"));
    assert_eq!(slot.unwrap().text, "failure");

    let mut slot = Some(StatusMessage::running("working"));
    publish(&mut slot, StatusMessage::success("done"));
    assert_eq!(slot.unwrap().text, "done");
}

#[test]
fn warning_and_error_lifetimes_match_their_tick_counts() {
    let mut warning = StatusMessage::warning("careful");
    for _ in 1..WARNING_TICKS {
        assert!(!warning.tick());
    }
    assert!(warning.tick());
    let mut error = StatusMessage::error("broken");
    for _ in 1..ERROR_TICKS {
        assert!(!error.tick());
    }
    assert!(error.tick());
}

#[test]
fn equal_priority_replaces_and_lower_priority_does_not() {
    let mut slot = Some(StatusMessage::warning("first"));
    publish(&mut slot, StatusMessage::warning("second"));
    assert_eq!(slot.as_ref().unwrap().text, "second");
    publish(&mut slot, StatusMessage::success("third"));
    assert_eq!(slot.as_ref().unwrap().text, "second");
    publish(&mut slot, StatusMessage::error("fourth"));
    assert_eq!(slot.as_ref().unwrap().text, "fourth");
    let mut empty = None;
    publish(&mut empty, StatusMessage::success("only"));
    assert_eq!(empty.unwrap().kind, StatusKind::Success);
}

#[test]
fn contains_searches_the_text() {
    let message = StatusMessage::error("Backup failed: disk full");
    assert!(message.contains("disk"));
    assert!(message.contains(""));
    assert!(!message.contains("network"));
}

#[test]
fn kinds_have_labels_and_ranks() {
    assert_eq!(StatusKind::Success.label(), "Success");
    assert_eq!(StatusKind::Error.label(), "Error");
    assert!(StatusKind::Error.rank() > StatusKind::Warning.rank());
    assert!(StatusKind::Warning.rank() > StatusKind::Running.rank());
    assert!(StatusKind::Running.rank() > StatusKind::Success.rank());
}
