use aer_core::{AerError, State};
use std::io;

#[test]
fn message_of_invalid_transition() {
    let e = AerError::InvalidStateTransition { from: State::Created, to: State::Exited };
    assert_eq!(e.message(), "invalid state transition: Created \u{2192} Exited");
}

#[test]
fn message_of_plain_variants() {
    assert_eq!(AerError::TimedOut.message(), "process timed out");
    assert_eq!(AerError::Cancelled.message(), "process cancelled");
}

#[test]
fn message_carries_os_error_text() {
    let e = AerError::SpawnFailed(io::Error::new(io::ErrorKind::NotFound, "no such file"));
    assert_eq!(e.message(), "process spawn failed: no such file");
    let e = AerError::WaitFailed(io::Error::new(io::ErrorKind::Other, "interrupted"));
    assert_eq!(e.message(), "process wait failed: interrupted");
    let e = AerError::KillFailed(io::Error::new(io::ErrorKind::PermissionDenied, "denied"));
    assert_eq!(e.message(), "process tree kill failed: denied");
}

#[test]
fn source_gives_the_carried_os_error() {
    let e = AerError::WaitFailed(io::Error::new(io::ErrorKind::Other, "lost child"));
    assert_eq!(e.source().map(|s| s.to_string()), Some("lost child".to_string()));
    assert!(AerError::TimedOut.source().is_none());
    assert!(AerError::Cancelled.source().is_none());
    let t = AerError::InvalidStateTransition { from: State::Running, to: State::Created };
    assert!(t.source().is_none());
}
