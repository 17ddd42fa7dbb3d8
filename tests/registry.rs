use window_handoff::registry::WindowRegistry;

#[test]
fn new_registry_is_empty() {
    let reg = WindowRegistry::new();
    assert!(!reg.contains("main"));
    assert_eq!(reg.visibility(""), None);
}

#[test]
fn open_window_rejects_taken_label() {
    let mut reg = WindowRegistry::new();
    assert!(reg.open_window("main", false));
    assert!(!reg.open_window("main", true));
    assert_eq!(reg.visibility("main"), Some(false));
}

#[test]
fn set_visible_on_open_and_missing_windows() {
    let mut reg = WindowRegistry::new();
    assert!(reg.open_window("main", true));
    assert!(reg.set_visible("main", false));
    assert_eq!(reg.visibility("main"), Some(false));
    assert!(!reg.set_visible("other", true));
    assert!(!reg.contains("other"));
}

#[test]
fn close_removes_only_that_window() {
    let mut reg = WindowRegistry::new();
    assert!(reg.open_window("a", true));
    assert!(reg.open_window("b", false));
    assert!(reg.open_window("c", true));
    assert!(reg.close("b"));
    assert!(!reg.contains("b"));
    assert_eq!(reg.visibility("a"), Some(true));
    assert_eq!(reg.visibility("c"), Some(true));
    assert!(!reg.close("b"));
    assert!(reg.open_window("b", true));
    assert_eq!(reg.visibility("b"), Some(true));
}

#[test]
fn labels_are_compared_exactly() {
    let mut reg = WindowRegistry::new();
    assert!(reg.open_window("Main", false));
    assert!(!reg.contains("main"));
    assert!(!reg.contains("Main "));
    assert!(reg.contains("Main"));
}
