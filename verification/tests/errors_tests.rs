use pty_session::errors::SessionError;

#[test]
fn each_failure_has_its_own_description() {
    let all = [
        SessionError::Spawn,
        SessionError::ReadyTimeout,
        SessionError::IoFault,
        SessionError::Kill,
        SessionError::Shutdown,
    ];
    for (i, a) in all.iter().enumerate() {
        assert!(!a.describe().is_empty());
        for b in all.iter().skip(i + 1) {
            assert_ne!(a.describe(), b.describe());
        }
    }
}

#[test]
fn describe_is_stable() {
    assert_eq!(
        SessionError::ReadyTimeout.describe(),
        "the readiness marker was not observed in time"
    );
    assert_eq!(
        SessionError::Kill.describe(),
        "the termination request failed"
    );
}
