use lavis::log_forwarder::{
    created_topic, delivery_text, format_line, forwarded_line, is_forwarded, LineFields, LogLevel,
    LogWorker, WorkerAction, WorkerEvent, DESTINATION_RETRY, MAX_LINE_CHARS, SEND_BACKOFF,
};

#[test]
fn format_line_uses_level_emoji_and_target() {
    assert_eq!(format_line("WARN", "lavis::x", "boom"), "⚠️ lavis::x: boom");
    assert_eq!(
        format_line("ERROR", "lavis::y", "dead"),
        "❌ lavis::y: dead"
    );
    assert_eq!(format_line("INFO", "lavis::z", "no"), "❌ lavis::z: no");
}

#[test]
fn format_line_truncates_at_1000_chars() {
    let line = format_line("WARN", "t", &"x".repeat(5000));
    assert_eq!(line.chars().count(), MAX_LINE_CHARS);
    assert!(line.starts_with("⚠️ t: "));
}

#[test]
fn only_warnings_and_errors_of_others_are_forwarded() {
    assert!(is_forwarded(LogLevel::Warn, "lavis::x"));
    assert!(is_forwarded(LogLevel::Error, "lavis::x"));
    assert!(!is_forwarded(LogLevel::Info, "lavis::x"));
    assert!(!is_forwarded(LogLevel::Debug, "lavis::x"));
    assert!(!is_forwarded(LogLevel::Trace, "lavis::x"));
    assert!(!is_forwarded(LogLevel::Warn, "lavis_log_forwarder"));
    assert!(!is_forwarded(LogLevel::Error, "lavis_log_forwarder::worker"));
    assert!(is_forwarded(LogLevel::Warn, "x::lavis_log_forwarder"));
}

#[test]
fn lines_tell_the_message_and_a_few_fields() {
    let mut fields = LineFields::new();
    assert_eq!(forwarded_line(LogLevel::Warn, "t", &fields), None);
    for (name, value) in [
        ("a", "1"),
        ("message", "boom"),
        ("b", "2"),
        ("message", "again"),
        ("c", "3"),
    ] {
        fields.record(name, value.to_owned());
    }
    assert_eq!(fields.text().as_deref(), Some("boom a=1 b=2 message=again"));
    assert_eq!(
        forwarded_line(LogLevel::Error, "t", &fields).as_deref(),
        Some("❌ t: boom a=1 b=2 message=again")
    );
    assert_eq!(forwarded_line(LogLevel::Info, "t", &fields), None);
}

#[test]
fn lost_lines_are_counted_in_the_next_one() {
    assert_eq!(delivery_text(0, "x".to_owned()), "x");
    assert_eq!(
        delivery_text(3, "x".to_owned()),
        "… (и ещё 3 строк потеряно)\nx"
    );
}

#[test]
fn topics_are_taken_from_acceptable_replies_only() {
    assert_eq!(created_topic(true, 10, true, Some(5)), Some(5));
    assert_eq!(created_topic(false, 10, true, Some(5)), None);
    assert_eq!(created_topic(true, 65_537, true, Some(5)), None);
    assert_eq!(created_topic(true, 65_536, false, Some(5)), None);
    assert_eq!(created_topic(true, 10, true, None), None);
}

#[test]
fn the_worker_finds_its_destination_and_sends() {
    let mut worker = LogWorker::new();
    assert_eq!(worker.step(WorkerEvent::LineReceived), WorkerAction::LoadToken);
    assert_eq!(
        worker.step(WorkerEvent::TokenLoaded(false)),
        WorkerAction::Receive
    );
    worker.step(WorkerEvent::LineReceived);
    assert_eq!(
        worker.step(WorkerEvent::TokenLoaded(true)),
        WorkerAction::LoadChat
    );
    assert_eq!(
        worker.step(WorkerEvent::ChatLoaded(None)),
        WorkerAction::Pause {
            seconds: DESTINATION_RETRY,
            warn: false
        }
    );
    assert_eq!(worker.step(WorkerEvent::LineReceived), WorkerAction::LoadChat);
    assert_eq!(
        worker.step(WorkerEvent::ChatLoaded(Some(-100))),
        WorkerAction::LoadTopic
    );
    assert_eq!(
        worker.step(WorkerEvent::TopicLoaded(None)),
        WorkerAction::CreateTopic { chat_id: -100 }
    );
    let send = WorkerAction::Send {
        chat_id: -100,
        topic_id: 7,
    };
    assert_eq!(worker.step(WorkerEvent::TopicCreated(Some(7))), send);
    assert_eq!(worker.step(WorkerEvent::Sent), WorkerAction::Receive);
    assert_eq!(worker.step(WorkerEvent::LineReceived), send);
    assert_eq!(
        worker.step(WorkerEvent::SendFailed { rejected: false }),
        WorkerAction::Pause {
            seconds: SEND_BACKOFF,
            warn: true
        }
    );
    assert_eq!(worker.step(WorkerEvent::LineReceived), send);
    assert_eq!(
        worker.step(WorkerEvent::SendFailed { rejected: true }),
        WorkerAction::Pause {
            seconds: SEND_BACKOFF,
            warn: false
        }
    );
    assert_eq!(worker.step(WorkerEvent::LineReceived), WorkerAction::LoadToken);
}

#[test]
fn a_topic_is_created_at_most_once() {
    let mut worker = LogWorker::new();
    worker.step(WorkerEvent::LineReceived);
    worker.step(WorkerEvent::TokenLoaded(true));
    worker.step(WorkerEvent::ChatLoaded(Some(1)));
    worker.step(WorkerEvent::TopicLoaded(None));
    assert_eq!(
        worker.step(WorkerEvent::TopicCreated(None)),
        WorkerAction::WarnTopicUnavailable
    );
    for _ in 0..3 {
        assert_eq!(worker.step(WorkerEvent::LineReceived), WorkerAction::Receive);
    }
}
