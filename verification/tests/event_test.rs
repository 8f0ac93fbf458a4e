use aer_core::decimal::u64_to_decimal;
use aer_core::{Event, ExitReason};

#[test]
fn describe_started() {
    assert_eq!(Event::Started { pid: 42 }.describe(), "Started(pid=42)");
    assert_eq!(Event::Started { pid: u32::MAX }.describe(), "Started(pid=4294967295)");
}

#[test]
fn describe_exited() {
    let e = Event::Exited { code: 0, reason: ExitReason::NaturalExit };
    assert_eq!(e.describe(), "Exited(code=0)");
    let e = Event::Exited { code: -1, reason: ExitReason::TimedOut };
    assert_eq!(e.describe(), "Exited(code=-1)");
    let e = Event::Exited { code: i32::MIN, reason: ExitReason::CancelRequested };
    assert_eq!(e.describe(), "Exited(code=-2147483648)");
    let e = Event::Exited { code: 255, reason: ExitReason::NaturalExit };
    assert_eq!(e.describe(), "Exited(code=255)");
}

#[test]
fn describe_chunks() {
    let e = Event::StdoutChunk { seq: 3, bytes: b"hello".to_vec() };
    assert_eq!(e.describe(), "StdoutChunk(seq=3, len=5)");
    let e = Event::StderrChunk { seq: 0, bytes: Vec::new() };
    assert_eq!(e.describe(), "StderrChunk(seq=0, len=0)");
}

#[test]
fn decimal_notation() {
    assert_eq!(u64_to_decimal(0), "0");
    assert_eq!(u64_to_decimal(7), "7");
    assert_eq!(u64_to_decimal(10), "10");
    assert_eq!(u64_to_decimal(1234567890), "1234567890");
    assert_eq!(u64_to_decimal(u64::MAX), "18446744073709551615");
}
