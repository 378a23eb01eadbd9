use tracklock::monitor::{ControlMessage, Fatal, Monitor, Verdict};

#[test]
fn ordinary_messages_keep_the_watch_going() {
    let mut m = Monitor::new();
    assert!(!m.stopped());
    assert_eq!(m.on_message(ControlMessage::Other), Verdict::KeepWatching);
    assert_eq!(m.on_message(ControlMessage::Other), Verdict::KeepWatching);
    assert!(!m.stopped());
}

#[test]
fn error_ends_the_watch() {
    let mut m = Monitor::new();
    assert_eq!(m.on_message(ControlMessage::Other), Verdict::KeepWatching);
    assert_eq!(m.on_message(ControlMessage::Error), Verdict::Stop(Fatal::SourceError));
    assert!(m.stopped());
}

#[test]
fn end_of_stream_ends_the_watch() {
    let mut m = Monitor::new();
    assert_eq!(m.on_message(ControlMessage::EndOfStream), Verdict::Stop(Fatal::EndOfStream));
    assert!(m.stopped());
}

#[test]
fn ended_watch_stays_ended() {
    let mut m = Monitor::new();
    assert_eq!(m.on_message(ControlMessage::Error), Verdict::Stop(Fatal::SourceError));
    assert_eq!(m.on_message(ControlMessage::Other), Verdict::Ended);
    assert_eq!(m.on_message(ControlMessage::EndOfStream), Verdict::Ended);
    assert_eq!(m.on_message(ControlMessage::Error), Verdict::Ended);
    assert!(m.stopped());
}
