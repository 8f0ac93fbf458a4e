use aer_core::ffi::{
    c_message, exit_reason_code, format_panic, map_aer_error, run_result_code, AerErrorCode,
    AerEvent, AerTask,
};
use aer_core::{AerError, Event, ExitReason, State};
use std::io;
use std::time::Duration;

#[test]
fn error_code_values_are_stable() {
    let all = [
        (AerErrorCode::Success, 0),
        (AerErrorCode::NullPointer, 1),
        (AerErrorCode::SpawnFailed, 2),
        (AerErrorCode::WaitFailed, 3),
        (AerErrorCode::InvalidStateTransition, 4),
        (AerErrorCode::TimedOut, 5),
        (AerErrorCode::KillFailed, 6),
        (AerErrorCode::AlreadyRun, 7),
        (AerErrorCode::Panic, 8),
        (AerErrorCode::Cancelled, 9),
    ];
    for (c, v) in all {
        assert_eq!(c.value(), v);
    }
}

#[test]
fn errors_map_to_their_codes() {
    let e = || io::Error::new(io::ErrorKind::Other, "x");
    assert_eq!(map_aer_error(AerError::SpawnFailed(e())), AerErrorCode::SpawnFailed);
    assert_eq!(map_aer_error(AerError::WaitFailed(e())), AerErrorCode::WaitFailed);
    assert_eq!(map_aer_error(AerError::KillFailed(e())), AerErrorCode::KillFailed);
    assert_eq!(map_aer_error(AerError::TimedOut), AerErrorCode::TimedOut);
    assert_eq!(map_aer_error(AerError::Cancelled), AerErrorCode::Cancelled);
    assert_eq!(
        map_aer_error(AerError::InvalidStateTransition { from: State::Exited, to: State::Running }),
        AerErrorCode::InvalidStateTransition
    );
    assert_eq!(run_result_code(Ok(())), AerErrorCode::Success);
    assert_eq!(run_result_code(Err(AerError::TimedOut)), AerErrorCode::TimedOut);
}

#[test]
fn events_convert_to_interface_fields() {
    let c = AerEvent::from_event(&Event::Started { pid: 99 });
    assert_eq!((c.kind, c.pid, c.code, c.reason, c.seq, c.data_len), (0, 99, 0, 0, 0, 0));
    let c = AerEvent::from_event(&Event::Exited { code: -1, reason: ExitReason::TimedOut });
    assert_eq!((c.kind, c.pid, c.code, c.reason), (1, 0, -1, 1));
    let c = AerEvent::from_event(&Event::Exited { code: -1, reason: ExitReason::CancelRequested });
    assert_eq!(c.reason, 2);
    let c = AerEvent::from_event(&Event::StdoutChunk { seq: 4, bytes: vec![1, 2, 3] });
    assert_eq!((c.kind, c.seq, c.data_len), (2, 4, 3));
    let c = AerEvent::from_event(&Event::StderrChunk { seq: 5, bytes: vec![9] });
    assert_eq!((c.kind, c.seq, c.data_len), (3, 5, 1));
    assert_eq!(exit_reason_code(ExitReason::NaturalExit), 0);
}

#[test]
fn panic_messages() {
    assert_eq!(format_panic(Some("boom".to_string())), "panic: boom");
    assert_eq!(format_panic(None), "panic: unknown panic payload");
}

#[test]
fn c_message_drops_text_with_nul() {
    assert_eq!(c_message("spawn failed".to_string()), Some("spawn failed".to_string()));
    assert_eq!(c_message("bad\0text".to_string()), None);
    assert_eq!(c_message(String::new()), Some(String::new()));
}

#[test]
fn handle_needs_program_and_all_args() {
    assert!(AerTask::new(None, vec![]).is_none());
    assert!(AerTask::new(Some("sh".to_string()), vec![Some("-c".to_string()), None]).is_none());
    assert!(AerTask::new(Some("sh".to_string()), vec![]).is_some());
}

#[test]
fn handle_runs_once() {
    let mut h = AerTask::new(Some("sh".to_string()), vec![Some("-c".to_string()), Some("exit 0".to_string())]).unwrap();
    assert_eq!(h.with_timeout(Duration::from_millis(1000)), AerErrorCode::Success);
    assert_eq!(h.with_capture_output(true), AerErrorCode::Success);
    assert_eq!(h.begin_run(), Ok(()));
    let task = h.task().unwrap();
    assert_eq!(task.program(), "sh");
    assert_eq!(task.args(), &["-c".to_string(), "exit 0".to_string()]);
    assert_eq!(task.timeout(), Some(Duration::from_millis(1000)));
    assert!(task.capture_output());
    assert!(matches!(h.begin_run(), Err(AerErrorCode::AlreadyRun)));
    // The handle keeps its task after the run.
    assert_eq!(h.task().unwrap().program(), "sh");
    assert_eq!(h.with_timeout(Duration::from_millis(5)), AerErrorCode::AlreadyRun);
    assert_eq!(h.with_capture_output(false), AerErrorCode::AlreadyRun);
}
