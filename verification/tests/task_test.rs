use aer_core::Task;
use std::time::Duration;

#[test]
fn new_task_has_defaults() {
    let t = Task::new("sh".to_string(), vec!["-c".to_string(), "exit 0".to_string()]);
    assert_eq!(t.program(), "sh");
    assert_eq!(t.args(), &["-c".to_string(), "exit 0".to_string()]);
    assert_eq!(t.timeout(), None);
    assert!(!t.capture_output());
}

#[test]
fn builders_set_options() {
    let t = Task::new("sleep".to_string(), vec!["1".to_string()])
        .with_timeout(Duration::from_millis(1500))
        .with_capture_output(true);
    assert_eq!(t.timeout(), Some(Duration::from_millis(1500)));
    assert!(t.capture_output());
    assert_eq!(t.program(), "sleep");
    let t = t.with_capture_output(false);
    assert!(!t.capture_output());
    assert_eq!(t.timeout(), Some(Duration::from_millis(1500)));
}
