use aer_core::kill::{after_kill_signal, after_terminate_signal};
use aer_core::AerError;
use std::io;

fn os_err() -> io::Error {
    io::Error::new(io::ErrorKind::PermissionDenied, "not permitted")
}

#[test]
fn terminate_failure_is_a_failed_kill() {
    assert!(after_terminate_signal(Ok(())).is_ok());
    match after_terminate_signal(Err(os_err())) {
        Err(AerError::KillFailed(e)) => assert_eq!(e.to_string(), "not permitted"),
        other => panic!("expected KillFailed, got {:?}", other),
    }
}

#[test]
fn kill_of_a_gone_tree_is_success() {
    const ESRCH: i32 = 3;
    assert!(after_kill_signal(Ok(()), None, ESRCH).is_ok());
    assert!(after_kill_signal(Err(io::Error::from_raw_os_error(ESRCH)), Some(ESRCH), ESRCH).is_ok());
    assert!(matches!(
        after_kill_signal(Err(io::Error::from_raw_os_error(1)), Some(1), ESRCH),
        Err(AerError::KillFailed(_))
    ));
    assert!(matches!(after_kill_signal(Err(os_err()), None, ESRCH), Err(AerError::KillFailed(_))));
}
