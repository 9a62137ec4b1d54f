use odyssey::serial_handler::{
    run_listener, run_writer, ListenerAction, ReadOutcome, WriteOutcome, WriterAction,
};

#[test]
fn the_reader_publishes_each_line() {
    match run_listener(false, ReadOutcome::Line("ok\r\n".to_string())) {
        ListenerAction::Publish(line) => assert_eq!(line, "ok\r\n"),
        other => panic!("{:?}", other),
    }
    assert!(matches!(
        run_listener(false, ReadOutcome::Line(String::new())),
        ListenerAction::Continue
    ));
}

#[test]
fn the_reader_passes_over_timeouts_and_fails_on_errors() {
    assert!(matches!(run_listener(false, ReadOutcome::TimedOut), ListenerAction::Continue));
    assert!(matches!(run_listener(false, ReadOutcome::Failed), ListenerAction::Fail));
}

#[test]
fn the_reader_stops_when_cancelled() {
    assert!(matches!(
        run_listener(true, ReadOutcome::Line("ok".to_string())),
        ListenerAction::Stop
    ));
    assert!(matches!(run_listener(true, ReadOutcome::Failed), ListenerAction::Stop));
}

#[test]
fn the_writer_retries_interrupted_writes_and_retires_on_errors() {
    assert_eq!(run_writer(false, WriteOutcome::Written), WriterAction::Next);
    assert_eq!(run_writer(false, WriteOutcome::Interrupted), WriterAction::Retry);
    assert_eq!(run_writer(false, WriteOutcome::Failed), WriterAction::Retire);
    assert_eq!(run_writer(true, WriteOutcome::Written), WriterAction::Stop);
    assert_eq!(run_writer(true, WriteOutcome::Failed), WriterAction::Stop);
}
