use animated_cursor::supervisor::{panic_message, supervise, LoopOutcome, Severity};

#[test]
fn normal_completion_passes_silently() {
    let report = supervise(LoopOutcome::Completed);
    assert!(report.clean_return);
    assert!(report.notifications.is_empty());
}

#[test]
fn loop_error_notifies_once_and_returns_cleanly() {
    let report = supervise(LoopOutcome::Failed { cause: "shader compilation failed".to_owned() });
    assert!(report.clean_return);
    assert_eq!(report.notifications.len(), 1);
    let n = &report.notifications[0];
    assert_eq!(n.title, "GPU pipeline error");
    assert_eq!(n.severity, Severity::Error);
    assert_eq!(n.detail.as_deref(), Some("shader compilation failed"));
    assert!(n.persistent);
}

#[test]
fn panic_notifies_once_and_returns_cleanly() {
    let report = supervise(LoopOutcome::Panicked { message: Some("index out of range".to_owned()) });
    assert!(report.clean_return);
    assert_eq!(report.notifications.len(), 1);
    let n = &report.notifications[0];
    assert_eq!(n.title, "GPU pipeline panic");
    assert_eq!(n.severity, Severity::Error);
    assert_eq!(n.detail.as_deref(), Some("index out of range"));
    assert!(n.persistent);
}

#[test]
fn unreadable_panic_payload_gets_the_fallback() {
    let report = supervise(LoopOutcome::Panicked { message: None });
    assert!(report.clean_return);
    assert_eq!(report.notifications.len(), 1);
    assert_eq!(
        report.notifications[0].detail.as_deref(),
        Some("Caught a panic with an unknown type.")
    );
}

#[test]
fn panic_message_extraction() {
    assert_eq!(panic_message(Some("boom".to_owned())), "boom");
    assert_eq!(panic_message(None), "Caught a panic with an unknown type.");
}
