use aer_core::execution::{ChunkCounter, Execution};
use aer_core::{AerError, Event, ExitReason, State, Task};

fn start(capture: bool, pid: u32) -> Execution {
    let mut ex = Execution::new(capture, true);
    let started = ex.spawned(pid).unwrap();
    assert_eq!(started, Event::Started { pid });
    assert_eq!(ex.state(), State::Running);
    ex
}

#[test]
fn natural_exit_reports_os_code() {
    let mut ex = start(false, 1234);
    let (events, result) = ex.exited(Some(0), false, false, vec![], vec![]);
    assert!(result.is_ok());
    assert_eq!(events, vec![Event::Exited { code: 0, reason: ExitReason::NaturalExit }]);
    assert_eq!(ex.state(), State::Exited);
}

#[test]
fn nonzero_exit_code_is_reported() {
    let mut ex = start(false, 7);
    let (events, result) = ex.exited(Some(42), false, false, vec![], vec![]);
    assert!(result.is_ok());
    assert_eq!(events, vec![Event::Exited { code: 42, reason: ExitReason::NaturalExit }]);
}

#[test]
fn timeout_reports_minus_one_and_timed_out() {
    let mut ex = start(false, 7);
    let (events, result) = ex.exited(Some(9), true, false, vec![], vec![]);
    assert!(matches!(result, Err(AerError::TimedOut)));
    assert_eq!(events, vec![Event::Exited { code: -1, reason: ExitReason::TimedOut }]);
}

#[test]
fn cancel_reports_minus_one_and_cancelled() {
    let mut ex = start(false, 7);
    let (events, result) = ex.exited(Some(143), false, true, vec![], vec![]);
    assert!(matches!(result, Err(AerError::Cancelled)));
    assert_eq!(events, vec![Event::Exited { code: -1, reason: ExitReason::CancelRequested }]);
}

#[test]
fn captured_chunks_come_before_exited_stdout_first() {
    let mut ex = start(true, 7);
    let stdout = vec![(0u64, b"line 1\n".to_vec()), (1u64, b"line 2\n".to_vec())];
    let stderr = vec![(0u64, b"oops\n".to_vec())];
    let (events, result) = ex.exited(Some(0), false, false, stdout, stderr);
    assert!(result.is_ok());
    assert_eq!(
        events,
        vec![
            Event::StdoutChunk { seq: 0, bytes: b"line 1\n".to_vec() },
            Event::StdoutChunk { seq: 1, bytes: b"line 2\n".to_vec() },
            Event::StderrChunk { seq: 0, bytes: b"oops\n".to_vec() },
            Event::Exited { code: 0, reason: ExitReason::NaturalExit },
        ]
    );
}

#[test]
fn chunks_are_dropped_without_capture() {
    let mut ex = start(false, 7);
    let stdout = vec![(0u64, b"ignored".to_vec())];
    let stderr = vec![(0u64, b"ignored too".to_vec())];
    let (events, result) = ex.exited(Some(0), false, false, stdout, stderr);
    assert!(result.is_ok());
    assert_eq!(events.len(), 1);
    assert!(matches!(events[0], Event::Exited { code: 0, .. }));
}

#[test]
fn execution_follows_task_capture_setting() {
    let task = Task::new("sh".to_string(), vec![]).with_capture_output(true);
    let mut ex = Execution::for_task(&task);
    ex.spawned(5).unwrap();
    let (events, _) = ex.exited(Some(0), false, false, vec![(0, vec![1, 2])], vec![]);
    assert_eq!(events.len(), 2);
    assert!(matches!(events[0], Event::StdoutChunk { seq: 0, .. }));
}

#[test]
fn second_spawn_is_refused() {
    let mut ex = start(false, 7);
    let r = ex.spawned(8);
    assert!(matches!(
        r,
        Err(AerError::InvalidStateTransition { from: State::Running, to: State::Running })
    ));
    assert_eq!(ex.state(), State::Running);
}

#[test]
fn exit_before_spawn_is_refused_and_emits_nothing() {
    let mut ex = Execution::new(true, false);
    let (events, result) = ex.exited(Some(0), false, false, vec![(0, vec![1])], vec![]);
    assert!(events.is_empty());
    assert!(matches!(
        result,
        Err(AerError::InvalidStateTransition { from: State::Created, to: State::Exited })
    ));
    assert_eq!(ex.state(), State::Created);
}

#[test]
fn nothing_follows_exited() {
    let mut ex = start(false, 7);
    ex.exited(Some(0), false, false, vec![], vec![]).1.unwrap();
    let (events, result) = ex.exited(Some(0), false, false, vec![], vec![]);
    assert!(events.is_empty());
    assert!(matches!(
        result,
        Err(AerError::InvalidStateTransition { from: State::Exited, to: State::Exited })
    ));
    assert!(ex.spawned(1).is_err());
    assert_eq!(ex.state(), State::Exited);
}

#[test]
fn stream_sequence_numbers_stay_increasing() {
    let mut ex = start(true, 7);
    let stdout: Vec<(u64, Vec<u8>)> = (0..5u64).map(|i| (i, vec![b'a'; i as usize])).collect();
    let stderr: Vec<(u64, Vec<u8>)> = (0..3u64).map(|i| (i, vec![b'e'])).collect();
    let (events, _) = ex.exited(Some(0), false, false, stdout, stderr);
    assert_eq!(events.len(), 9);
    let out_seqs: Vec<u64> = events
        .iter()
        .filter_map(|e| if let Event::StdoutChunk { seq, .. } = e { Some(*seq) } else { None })
        .collect();
    let err_seqs: Vec<u64> = events
        .iter()
        .filter_map(|e| if let Event::StderrChunk { seq, .. } = e { Some(*seq) } else { None })
        .collect();
    assert_eq!(out_seqs, vec![0, 1, 2, 3, 4]);
    assert_eq!(err_seqs, vec![0, 1, 2]);
    let first_err = events.iter().position(|e| matches!(e, Event::StderrChunk { .. })).unwrap();
    let last_out = events.iter().rposition(|e| matches!(e, Event::StdoutChunk { .. })).unwrap();
    assert!(last_out < first_err);
    assert!(matches!(events.last(), Some(Event::Exited { .. })));
}

#[test]
fn no_code_from_the_os_is_reported_as_minus_one() {
    let mut ex = start(false, 7);
    let (events, result) = ex.exited(None, false, false, vec![], vec![]);
    assert!(result.is_ok());
    assert_eq!(events, vec![Event::Exited { code: -1, reason: ExitReason::NaturalExit }]);
}

#[test]
fn without_a_timeout_a_passed_deadline_is_no_timeout() {
    let mut ex = Execution::new(false, false);
    ex.spawned(3).unwrap();
    let (events, result) = ex.exited(Some(0), true, false, vec![], vec![]);
    assert!(result.is_ok());
    assert_eq!(events, vec![Event::Exited { code: 0, reason: ExitReason::NaturalExit }]);
}

#[test]
fn kill_policy_decisions() {
    let timed = Execution::for_task(
        &Task::new("sh".to_string(), vec![]).with_timeout(std::time::Duration::from_secs(1)),
    )
    .kill_policy();
    assert_eq!(timed.decide(false, false), ExitReason::NaturalExit);
    assert_eq!(timed.decide(true, false), ExitReason::TimedOut);
    assert_eq!(timed.decide(true, true), ExitReason::CancelRequested);
    let untimed = Execution::for_task(&Task::new("sh".to_string(), vec![])).kill_policy();
    assert_eq!(untimed.decide(true, false), ExitReason::NaturalExit);
    assert_eq!(untimed.decide(false, true), ExitReason::CancelRequested);
}

#[test]
fn failed_wait_still_ends_with_exited() {
    let mut ex = start(true, 7);
    let e = std::io::Error::new(std::io::ErrorKind::Other, "wait broke");
    let (events, result) = ex.wait_failed(e, false, false);
    assert_eq!(events, vec![Event::Exited { code: -1, reason: ExitReason::NaturalExit }]);
    match result {
        Err(AerError::WaitFailed(e)) => assert_eq!(e.to_string(), "wait broke"),
        other => panic!("expected WaitFailed, got {:?}", other),
    }
    assert_eq!(ex.state(), State::Exited);
    let e = std::io::Error::new(std::io::ErrorKind::Other, "again");
    let (events, result) = ex.wait_failed(e, false, false);
    assert!(events.is_empty());
    assert!(matches!(result, Err(AerError::InvalidStateTransition { from: State::Exited, to: State::Exited })));
}

#[test]
fn failed_wait_after_a_timeout_kill_reports_timed_out() {
    let mut ex = start(false, 7);
    let e = std::io::Error::new(std::io::ErrorKind::Other, "x");
    let (events, result) = ex.wait_failed(e, true, false);
    assert_eq!(events, vec![Event::Exited { code: -1, reason: ExitReason::TimedOut }]);
    assert!(matches!(result, Err(AerError::WaitFailed(_))));
}

#[test]
fn spawn_failure_emits_nothing_and_reports_spawn_failed() {
    let mut ex = Execution::new(true, true);
    let e = std::io::Error::new(std::io::ErrorKind::NotFound, "no such program");
    let (events, result) = ex.spawn_failed(e);
    assert!(events.is_empty());
    match result {
        Err(AerError::SpawnFailed(e)) => assert_eq!(e.to_string(), "no such program"),
        other => panic!("expected SpawnFailed, got {:?}", other),
    }
    assert_eq!(ex.state(), State::Created);
    let mut ex = start(false, 1);
    let (events, result) = ex.spawn_failed(std::io::Error::new(std::io::ErrorKind::Other, "x"));
    assert!(events.is_empty());
    assert!(matches!(
        result,
        Err(AerError::InvalidStateTransition { from: State::Running, to: State::Running })
    ));
}

#[test]
fn chunk_counter_numbers_from_zero() {
    let mut c = ChunkCounter::new();
    assert_eq!(c.next_seq(), 0);
    assert_eq!(c.number(vec![1]), (0, vec![1]));
    assert_eq!(c.number(vec![2, 3]), (1, vec![2, 3]));
    assert_eq!(c.number(vec![]), (2, vec![]));
    assert_eq!(c.next_seq(), 3);
}
