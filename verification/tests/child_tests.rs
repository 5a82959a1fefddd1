use pty_session::child::ChildGate;
use pty_session::child::ExitStatus;

#[test]
fn exit_status_success_is_code_zero_without_signal() {
    assert!(ExitStatus::with_exit_code(0).success());
    assert!(!ExitStatus::with_exit_code(1).success());
    assert!(!ExitStatus::with_signal().success());
    assert_eq!(ExitStatus::with_exit_code(7).exit_code(), 7);
}

#[test]
fn wait_twice_returns_same_status() {
    let mut gate = ChildGate::new();
    assert!(!gate.has_exited());
    let recorded = gate.record_exit(ExitStatus::with_exit_code(0));
    assert!(recorded);
    let first = gate.wait_cached();
    let second = gate.wait_cached();
    assert_eq!(first, second);
    assert!(first.success());
}

#[test]
fn kill_request_never_corrupts_recorded_status() {
    let mut gate = ChildGate::new();
    gate.record_exit(ExitStatus::with_exit_code(3));
    let already = gate.request_kill();
    assert!(already);
    assert_eq!(gate.wait_cached().exit_code(), 3);
    // asking again is just as benign
    gate.request_kill();
    assert_eq!(gate.wait_cached().exit_code(), 3);
}

#[test]
fn kill_then_wait_observes_forced_termination() {
    let mut gate = ChildGate::new();
    let already = gate.request_kill();
    assert!(!already);
    // the operating system reports the forced exit, which is cached
    let recorded = gate.record_exit(ExitStatus::with_signal());
    assert!(recorded);
    assert!(gate.has_exited());
    assert!(!gate.wait_cached().success());
}

#[test]
fn duplicate_exit_report_is_absorbed() {
    let mut gate = ChildGate::new();
    assert!(gate.record_exit(ExitStatus::with_exit_code(0)));
    assert!(!gate.record_exit(ExitStatus::with_exit_code(9)));
    // the first recorded status stands
    assert_eq!(gate.wait_cached().exit_code(), 0);
    assert!(gate.wait_cached().success());
}
