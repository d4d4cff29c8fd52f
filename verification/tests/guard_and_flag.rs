use condash::flag::ShutdownFlag;
use condash::guard::ComposeGuard;

#[test]
fn guard_runs_the_stop_operation_at_most_once() {
    let mut guard = ComposeGuard::new(String::from("/tmp/stack-ws"));
    assert!(guard.is_active());
    assert!(guard.cleanup());
    assert!(!guard.is_active());
    assert!(!guard.cleanup());
    assert!(!guard.cleanup());
}

#[test]
fn guard_keeps_its_workspace_root() {
    let mut guard = ComposeGuard::new(String::from("/tmp/stack-ws"));
    assert_eq!(guard.workspace_root().as_str(), "/tmp/stack-ws");
    guard.cleanup();
    assert_eq!(guard.workspace_root().as_str(), "/tmp/stack-ws");
}

#[test]
fn flag_starts_unset_and_stays_set() {
    let mut flag = ShutdownFlag::new();
    assert!(!flag.is_set());
    flag.trigger();
    assert!(flag.is_set());
    flag.trigger();
    assert!(flag.is_set());
    flag.trigger();
    assert!(flag.is_set());
}
