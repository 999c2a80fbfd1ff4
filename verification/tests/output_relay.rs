use sidecar_supervisor::relay::{relay_event, relay_stream, LogLevel, ProcessEvent};

#[test]
fn classifies_scripted_stream() {
    let events = vec![
        ProcessEvent::Stdout(b"a".to_vec()),
        ProcessEvent::Stderr(b"b".to_vec()),
        ProcessEvent::Terminated(0),
    ];
    let (log, consumed) = relay_stream(&events);
    assert_eq!(consumed, 3);
    assert_eq!(log.len(), 3);
    assert_eq!(log[0].level, LogLevel::Info);
    assert_eq!(log[0].message, "[sidecar] a");
    assert_eq!(log[1].level, LogLevel::Warn);
    assert_eq!(log[1].message, "[sidecar] b");
    assert_eq!(log[2].level, LogLevel::Info);
    assert_eq!(log[2].message, "[sidecar] terminated with status: 0");
}

#[test]
fn stops_at_termination_and_consumes_no_further() {
    let events = vec![
        ProcessEvent::Stdout(b"early".to_vec()),
        ProcessEvent::Terminated(1),
        ProcessEvent::Stdout(b"late".to_vec()),
        ProcessEvent::Stderr(b"later".to_vec()),
    ];
    let (log, consumed) = relay_stream(&events);
    assert_eq!(consumed, 2);
    assert_eq!(log.len(), 2);
    assert_eq!(log[1].message, "[sidecar] terminated with status: 1");
}

#[test]
fn ignores_other_events() {
    let events = vec![
        ProcessEvent::Other,
        ProcessEvent::Stdout(b"x".to_vec()),
        ProcessEvent::Other,
    ];
    let (log, consumed) = relay_stream(&events);
    assert_eq!(consumed, 3);
    assert_eq!(log.len(), 1);
    assert_eq!(log[0].message, "[sidecar] x");
}

#[test]
fn stream_closing_without_termination_ends_relay() {
    let events = vec![ProcessEvent::Stdout(b"only".to_vec())];
    let (log, consumed) = relay_stream(&events);
    assert_eq!(consumed, 1);
    assert_eq!(log.len(), 1);
}

#[test]
fn empty_stream_produces_nothing() {
    let (log, consumed) = relay_stream(&Vec::new());
    assert_eq!(consumed, 0);
    assert!(log.is_empty());
}

#[test]
fn stdout_is_info_and_keeps_consuming() {
    let (entry, keep_going) = relay_event(&ProcessEvent::Stdout(b"hello".to_vec()));
    let entry = entry.unwrap();
    assert_eq!(entry.level, LogLevel::Info);
    assert_eq!(entry.message, "[sidecar] hello");
    assert!(keep_going);
}

#[test]
fn stderr_is_warning() {
    let (entry, keep_going) = relay_event(&ProcessEvent::Stderr(b"oops".to_vec()));
    let entry = entry.unwrap();
    assert_eq!(entry.level, LogLevel::Warn);
    assert_eq!(entry.message, "[sidecar] oops");
    assert!(keep_going);
}

#[test]
fn negative_exit_status_is_rendered_signed() {
    let (entry, keep_going) = relay_event(&ProcessEvent::Terminated(-9));
    let entry = entry.unwrap();
    assert_eq!(entry.level, LogLevel::Info);
    assert_eq!(entry.message, "[sidecar] terminated with status: -9");
    assert!(!keep_going);
}

#[test]
fn invalid_utf8_is_replaced_not_dropped() {
    let (entry, _) = relay_event(&ProcessEvent::Stdout(vec![0xff, 0xfe]));
    let entry = entry.unwrap();
    assert_eq!(entry.message, "[sidecar] \u{fffd}\u{fffd}");
}

#[test]
fn empty_output_line_keeps_only_the_prefix() {
    let (entry, _) = relay_event(&ProcessEvent::Stdout(Vec::new()));
    assert_eq!(entry.unwrap().message, "[sidecar] ");
}
