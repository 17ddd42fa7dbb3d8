use window_handoff::coordinator::{
    close_splash_and_show_main, perform, run_operation, show_main_window,
};
use window_handoff::handoff::{Handoff, HandoffError, Operation, Step, WindowLabel};
use window_handoff::registry::WindowRegistry;

fn registry_with(windows: &[(&str, bool)]) -> WindowRegistry {
    let mut reg = WindowRegistry::new();
    for (label, visible) in windows {
        assert!(reg.open_window(label, *visible));
    }
    reg
}

#[test]
fn scenario_close_splash_with_both_windows() {
    let mut reg = registry_with(&[("splashscreen", true), ("main", false)]);
    assert_eq!(close_splash_and_show_main(&mut reg), Ok(()));
    assert!(!reg.contains("splashscreen"));
    assert_eq!(reg.visibility("main"), Some(true));
}

#[test]
fn close_splash_with_hidden_splash() {
    let mut reg = registry_with(&[("main", false), ("splashscreen", false)]);
    assert_eq!(close_splash_and_show_main(&mut reg), Ok(()));
    assert_eq!(reg.visibility("splashscreen"), None);
    assert_eq!(reg.visibility("main"), Some(true));
}

#[test]
fn scenario_show_main_without_splash() {
    let mut reg = registry_with(&[("main", false)]);
    assert_eq!(show_main_window(&mut reg), Ok(()));
    assert_eq!(reg.visibility("main"), Some(true));
}

#[test]
fn scenario_show_main_on_empty_registry() {
    let mut reg = WindowRegistry::new();
    assert_eq!(
        show_main_window(&mut reg),
        Err(HandoffError::WindowNotFound(WindowLabel::Main))
    );
    assert!(!reg.contains("main"));
    assert!(!reg.contains("splashscreen"));
}

#[test]
fn show_main_leaves_splash_as_it_was() {
    let mut reg = registry_with(&[("splashscreen", true), ("main", false), ("about", false)]);
    assert_eq!(show_main_window(&mut reg), Ok(()));
    assert_eq!(reg.visibility("main"), Some(true));
    assert_eq!(reg.visibility("splashscreen"), Some(true));
    assert_eq!(reg.visibility("about"), Some(false));
}

#[test]
fn show_main_when_already_visible() {
    let mut reg = registry_with(&[("main", true)]);
    assert_eq!(show_main_window(&mut reg), Ok(()));
    assert_eq!(reg.visibility("main"), Some(true));
}

#[test]
fn close_splash_without_splash_changes_nothing() {
    let mut reg = registry_with(&[("main", false), ("about", true)]);
    assert_eq!(
        close_splash_and_show_main(&mut reg),
        Err(HandoffError::WindowNotFound(WindowLabel::Splashscreen))
    );
    assert_eq!(reg.visibility("main"), Some(false));
    assert_eq!(reg.visibility("about"), Some(true));
}

#[test]
fn close_splash_without_main_keeps_splash_open() {
    let mut reg = registry_with(&[("splashscreen", true)]);
    assert_eq!(
        close_splash_and_show_main(&mut reg),
        Err(HandoffError::WindowNotFound(WindowLabel::Main))
    );
    assert_eq!(reg.visibility("splashscreen"), Some(true));
}

#[test]
fn close_splash_on_empty_registry_reports_splash_first() {
    let mut reg = WindowRegistry::new();
    assert_eq!(
        close_splash_and_show_main(&mut reg),
        Err(HandoffError::WindowNotFound(WindowLabel::Splashscreen))
    );
}

#[test]
fn second_close_splash_fails_on_splash() {
    let mut reg = registry_with(&[("splashscreen", true), ("main", false)]);
    assert_eq!(close_splash_and_show_main(&mut reg), Ok(()));
    assert_eq!(
        close_splash_and_show_main(&mut reg),
        Err(HandoffError::WindowNotFound(WindowLabel::Splashscreen))
    );
    assert_eq!(reg.visibility("main"), Some(true));
    assert!(!reg.contains("splashscreen"));
}

#[test]
fn run_operation_matches_named_operations() {
    let mut reg = registry_with(&[("main", false)]);
    assert_eq!(run_operation(&mut reg, Operation::ShowMainWindow), Ok(()));
    assert_eq!(reg.visibility("main"), Some(true));
    assert_eq!(
        run_operation(&mut reg, Operation::CloseSplashAndShowMain),
        Err(HandoffError::WindowNotFound(WindowLabel::Splashscreen))
    );
}

#[test]
fn perform_each_step() {
    let mut reg = registry_with(&[("splashscreen", false), ("main", false)]);
    assert!(perform(&mut reg, Step::Resolve(WindowLabel::Main)));
    assert_eq!(reg.visibility("main"), Some(false));
    assert!(perform(&mut reg, Step::Show(WindowLabel::Main)));
    assert_eq!(reg.visibility("main"), Some(true));
    assert!(perform(&mut reg, Step::Close(WindowLabel::Splashscreen)));
    assert!(!reg.contains("splashscreen"));
    assert!(!perform(&mut reg, Step::Resolve(WindowLabel::Splashscreen)));
    assert!(!perform(&mut reg, Step::Close(WindowLabel::Splashscreen)));
    assert!(!perform(&mut reg, Step::Show(WindowLabel::Splashscreen)));
    assert!(!reg.contains("splashscreen"));
}

#[test]
fn label_names() {
    assert_eq!(WindowLabel::Splashscreen.name(), "splashscreen");
    assert_eq!(WindowLabel::Main.name(), "main");
}

#[test]
fn step_errors() {
    let s = Step::Resolve(WindowLabel::Main);
    assert_eq!(s.error(), HandoffError::WindowNotFound(WindowLabel::Main));
    assert_eq!(s.label(), WindowLabel::Main);
    let c = Step::Close(WindowLabel::Splashscreen);
    assert_eq!(c.error(), HandoffError::OperationFailed(WindowLabel::Splashscreen));
    assert_eq!(c.label(), WindowLabel::Splashscreen);
    let v = Step::Show(WindowLabel::Main);
    assert_eq!(v.error(), HandoffError::OperationFailed(WindowLabel::Main));
}

#[test]
fn machine_walks_close_splash_plan() {
    let mut h = Handoff::new(Operation::CloseSplashAndShowMain);
    assert_eq!(h.operation(), Operation::CloseSplashAndShowMain);
    assert_eq!(h.current(), Step::Resolve(WindowLabel::Splashscreen));
    assert_eq!(h.record(true), None);
    assert_eq!(h.current(), Step::Resolve(WindowLabel::Main));
    assert_eq!(h.record(true), None);
    assert_eq!(h.current(), Step::Close(WindowLabel::Splashscreen));
    assert_eq!(h.record(true), None);
    assert_eq!(h.current(), Step::Show(WindowLabel::Main));
    assert_eq!(h.record(true), Some(Ok(())));
}

#[test]
fn machine_walks_show_main_plan() {
    let mut h = Handoff::new(Operation::ShowMainWindow);
    assert_eq!(h.current(), Step::Resolve(WindowLabel::Main));
    assert_eq!(h.record(true), None);
    assert_eq!(h.current(), Step::Show(WindowLabel::Main));
    assert_eq!(h.record(true), Some(Ok(())));
}

#[test]
fn machine_reports_failed_close() {
    let mut h = Handoff::new(Operation::CloseSplashAndShowMain);
    assert_eq!(h.record(true), None);
    assert_eq!(h.record(true), None);
    assert_eq!(
        h.record(false),
        Some(Err(HandoffError::OperationFailed(WindowLabel::Splashscreen)))
    );
}

#[test]
fn machine_reports_failed_show() {
    let mut h = Handoff::new(Operation::ShowMainWindow);
    assert_eq!(h.record(true), None);
    assert_eq!(h.record(false), Some(Err(HandoffError::OperationFailed(WindowLabel::Main))));
}

#[test]
fn machine_reports_missing_window() {
    let mut h = Handoff::new(Operation::CloseSplashAndShowMain);
    assert_eq!(h.record(true), None);
    assert_eq!(h.record(false), Some(Err(HandoffError::WindowNotFound(WindowLabel::Main))));
}
