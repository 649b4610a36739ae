use tide::notifications::{preview, NotificationManager};

#[test]
fn test_notification_manager_disabled() {
    let manager = NotificationManager::new(false);
    // Nothing is due, and nothing goes wrong, when alerts are off.
    assert!(manager
        .notify_interactive_input_detected("test", "group")
        .is_none());
}

#[test]
fn disabled_manager_sends_nothing_at_all() {
    let manager = NotificationManager::new(false);
    assert!(!manager.is_enabled());
    assert!(manager.notify_task_timeout("t", "g", 5).is_none());
    assert!(manager.notify_task_failed("t", "g", "boom").is_none());
    assert!(manager.notify_sudo_required().is_none());
    assert!(manager.notify_all_tasks_complete(3, 10).is_none());
}

#[test]
fn interactive_input_notice_names_task_and_group() {
    let manager = NotificationManager::new(true);
    let n = manager
        .notify_interactive_input_detected("Update Formulae", "Homebrew")
        .unwrap();
    assert_eq!(n.summary, "🌊 Tide - Interaction Required");
    assert_eq!(
        n.body,
        "Task 'Update Formulae' (group: Homebrew) appears to be waiting for interactive input.\nCheck your terminal or consider setting 'sudo: true' in config."
    );
    assert_eq!(n.icon, "dialog-warning");
    assert_eq!(n.timeout_ms, 10000);
}

#[test]
fn timeout_notice_gives_the_seconds() {
    let manager = NotificationManager::new(true);
    let n = manager.notify_task_timeout("build", "dev", 300).unwrap();
    assert_eq!(n.summary, "⚠\u{fe0f} Tide - Task Timeout");
    assert_eq!(
        n.body,
        "Task 'build' (group: dev) timed out after 300 seconds.\nIt may be waiting for input or stuck."
    );
    assert_eq!(n.icon, "dialog-error");
    assert_eq!(n.timeout_ms, 8000);
}

#[test]
fn failed_notice_quotes_a_short_error_in_full() {
    let manager = NotificationManager::new(true);
    let n = manager
        .notify_task_failed("build", "dev", "Command failed: no")
        .unwrap();
    assert_eq!(n.summary, "❌ Tide - Task Failed");
    assert_eq!(n.body, "Task 'build' (group: dev) failed:\nCommand failed: no");
    assert_eq!(n.icon, "dialog-error");
    assert_eq!(n.timeout_ms, 8000);
}

#[test]
fn failed_notice_shortens_a_long_error() {
    let manager = NotificationManager::new(true);
    let error = "e".repeat(150);
    let n = manager.notify_task_failed("t", "g", &error).unwrap();
    let expected = format!("Task 't' (group: g) failed:\n{}...", "e".repeat(100));
    assert_eq!(n.body, expected);
}

#[test]
fn sudo_required_notice_is_fixed() {
    let manager = NotificationManager::new(true);
    let n = manager.notify_sudo_required().unwrap();
    assert_eq!(n.summary, "🔐 Tide - Sudo Password Required");
    assert_eq!(
        n.body,
        "Some tasks require sudo privileges.\nPlease check your terminal to enter your password."
    );
    assert_eq!(n.icon, "dialog-password");
    assert_eq!(n.timeout_ms, 10000);
}

#[test]
fn completion_notice_counts_tasks_and_seconds() {
    let manager = NotificationManager::new(true);
    let n = manager.notify_all_tasks_complete(7, 95).unwrap();
    assert_eq!(n.summary, "✅ Tide - All Tasks Complete");
    assert_eq!(n.body, "7 tasks completed successfully in 95 seconds.");
    assert_eq!(n.icon, "emblem-default");
    assert_eq!(n.timeout_ms, 5000);
}

#[test]
fn preview_keeps_exactly_one_hundred_bytes() {
    let exact = "x".repeat(100);
    assert_eq!(preview(&exact), exact);
    let longer = "x".repeat(101);
    assert_eq!(preview(&longer), format!("{}...", "x".repeat(100)));
    assert_eq!(preview(""), "");
}

#[test]
fn preview_never_splits_a_character() {
    // 99 one-byte characters, then a two-byte one that straddles byte 100.
    let text = format!("{}é-and-more", "a".repeat(99));
    assert_eq!(preview(&text), format!("{}...", "a".repeat(99)));
    // A four-byte character that starts at byte 97 is dropped whole.
    let text = format!("{}🌊tail", "b".repeat(97));
    assert_eq!(preview(&text), format!("{}...", "b".repeat(97)));
    // One that ends exactly at byte 100 is kept.
    let text = format!("{}🌊tail", "c".repeat(96));
    assert_eq!(preview(&text), format!("{}🌊...", "c".repeat(96)));
}
