use astrbot_client::api::ApiClient;
use astrbot_client::envelope::ApiError;
use astrbot_client::live_log::{
    announcement, consume, frame, LiveLog, LiveLogAction, LiveLogMessage, LiveLogState,
    StreamEvent,
};

fn message(data: &str) -> StreamEvent {
    let mut payload = serde_json::Map::new();
    payload.insert("type".to_string(), serde_json::Value::String("log".to_string()));
    payload.insert("level".to_string(), serde_json::Value::String("INFO".to_string()));
    payload.insert("time".to_string(), serde_json::Value::String("12:00".to_string()));
    payload.insert("data".to_string(), serde_json::Value::String(data.to_string()));
    StreamEvent::Message(serde_json::Value::Object(payload).to_string())
}

#[test]
fn open_then_message_writes_the_line() {
    let events = vec![StreamEvent::Open, message("log line")];
    let transcript = consume(false, &events);
    assert_eq!(transcript.output, "log line\n");
    assert!(transcript.announced);
    assert!(transcript.reports.is_empty());
    assert!(transcript.failure.is_none());
    assert_eq!(transcript.state, LiveLogState::Streaming);
    assert!(!transcript.output.contains('\u{1b}'));
    assert!(transcript.into_result().is_ok());
}

#[test]
fn client_runs_the_same_consumer() {
    let client = ApiClient::new("http://h".to_string(), "t".to_string());
    let events = vec![StreamEvent::Open, message("log line"), StreamEvent::End];
    let transcript = client.get_live_log(false, &events);
    assert_eq!(transcript.output, "log line\n");
    assert_eq!(transcript.state, LiveLogState::Closed);
    assert!(transcript.into_result().is_ok());
}

#[test]
fn flushing_clears_the_screen_before_every_line() {
    let events = vec![StreamEvent::Open, message("one"), message("two")];
    let transcript = consume(true, &events);
    assert_eq!(transcript.output, "\x1B[2J\x1B[1;1Hone\n\x1B[2J\x1B[1;1Htwo\n");
    let transcript = consume(false, &events);
    assert_eq!(transcript.output, "one\ntwo\n");
}

#[test]
fn frames() {
    assert_eq!(announcement(), "Start to print live log");
    assert_eq!(frame(false, "x"), "x\n");
    assert_eq!(frame(true, "x"), "\x1B[2J\x1B[1;1Hx\n");
    assert_eq!(frame(false, ""), "\n");
}

#[test]
fn a_failing_connection_is_reported_and_the_run_succeeds() {
    let events = vec![
        StreamEvent::Open,
        message("one"),
        StreamEvent::Failure("connection reset".to_string()),
        message("never shown"),
        StreamEvent::Open,
    ];
    let transcript = consume(false, &events);
    assert_eq!(transcript.output, "one\n");
    assert_eq!(transcript.reports, vec!["connection reset".to_string()]);
    assert_eq!(transcript.state, LiveLogState::Closed);
    assert!(transcript.failure.is_none());
    assert!(transcript.into_result().is_ok());
}

#[test]
fn a_payload_that_is_no_message_gives_the_run_up() {
    let events = vec![
        StreamEvent::Open,
        StreamEvent::Message("{\"data\":\"only data\"}".to_string()),
        message("never shown"),
    ];
    let transcript = consume(false, &events);
    assert_eq!(transcript.output, "");
    assert!(transcript.reports.is_empty());
    assert_eq!(transcript.state, LiveLogState::Closed);
    assert!(matches!(transcript.failure, Some(ApiError::Decode(_))));
    assert!(matches!(transcript.into_result(), Err(ApiError::Decode(_))));
    let events = vec![StreamEvent::Open, StreamEvent::Message("not json".to_string())];
    assert!(matches!(consume(true, &events).into_result(), Err(ApiError::Decode(_))));
}

#[test]
fn the_start_is_announced_once() {
    let mut consumer = LiveLog::new(false);
    assert_eq!(consumer.state(), LiveLogState::Connecting);
    assert!(!consumer.flush());
    assert!(matches!(consumer.on_event(&StreamEvent::Open), LiveLogAction::Announce));
    assert_eq!(consumer.state(), LiveLogState::Streaming);
    assert!(matches!(consumer.on_event(&StreamEvent::Open), LiveLogAction::Nothing));
    assert_eq!(consumer.state(), LiveLogState::Streaming);
    let transcript = consume(false, &vec![message("early")]);
    assert!(!transcript.announced);
    assert_eq!(transcript.output, "early\n");
    assert_eq!(transcript.state, LiveLogState::Connecting);
}

#[test]
fn a_closed_consumer_stays_closed() {
    let mut consumer = LiveLog::new(true);
    assert!(matches!(consumer.on_event(&StreamEvent::End), LiveLogAction::Nothing));
    assert!(consumer.is_closed());
    for event in [
        StreamEvent::Open,
        message("x"),
        StreamEvent::Message("bad".to_string()),
        StreamEvent::Failure("f".to_string()),
        StreamEvent::End,
    ] {
        assert!(matches!(consumer.on_event(&event), LiveLogAction::Nothing));
        assert!(consumer.is_closed());
    }
    let parsed = LiveLogMessage::parse(
        r#"{"type":"log","level":"INFO","time":"t","data":"late"}"#,
    );
    assert!(matches!(consumer.on_message(parsed), LiveLogAction::Nothing));
}

#[test]
fn steps_of_the_consumer() {
    let mut consumer = LiveLog::new(true);
    match consumer.on_event(&message("m")) {
        LiveLogAction::Write(text) => assert_eq!(text, "\x1B[2J\x1B[1;1Hm\n"),
        other => panic!("unexpected action: {:?}", other),
    }
    match consumer.on_event(&StreamEvent::Failure("boom".to_string())) {
        LiveLogAction::ReportAndClose(description) => assert_eq!(description, "boom"),
        other => panic!("unexpected action: {:?}", other),
    }
    assert_eq!(consumer.state(), LiveLogState::Closed);
    let mut consumer = LiveLog::new(false);
    let failure = Err(ApiError::MissingData);
    assert!(matches!(consumer.on_message(failure), LiveLogAction::Fail(ApiError::MissingData)));
    assert!(consumer.is_closed());
}

#[test]
fn live_log_messages() {
    let parsed = LiveLogMessage::parse(
        r#"{"type":"log","level":"WARN","time":"2024-01-01","data":"d","more":1}"#,
    )
    .expect("the message decodes");
    assert_eq!(parsed.typo, "log");
    assert_eq!(parsed.level, "WARN");
    assert_eq!(parsed.time, "2024-01-01");
    assert_eq!(parsed.data, "d");
    for payload in ["", "d", "{\"type\""] {
        let expected = serde_json::from_str::<serde_json::Value>(payload)
            .expect_err("the payload is no JSON")
            .to_string();
        match LiveLogMessage::parse(payload) {
            Err(ApiError::Decode(diagnostic)) => assert_eq!(diagnostic, expected),
            other => panic!("unexpected outcome: {:?}", other),
        }
    }
    let value: serde_json::Value = serde_json::from_str(r#"{"type":"log","level":"L","time":"t","data":"x"}"#)
        .expect("the test's JSON is valid");
    assert_eq!(LiveLogMessage::decode(&value).expect("the message decodes").data, "x");
    for payload in [
        r#"{"level":"WARN","time":"t","data":"d"}"#,
        r#"{"type":"log","time":"t","data":"d"}"#,
        r#"{"type":"log","level":"WARN","data":"d"}"#,
        r#"{"type":"log","level":"WARN","time":"t"}"#,
        r#"{"type":"log","level":"WARN","time":"t","data":5}"#,
        r#"{"type":"log","level":"WARN","time":"t","data":null}"#,
        r#"["log","WARN","t","d"]"#,
    ] {
        match LiveLogMessage::parse(payload) {
            Err(ApiError::Decode(diagnostic)) => {
                assert_eq!(diagnostic, "the event holds no log message", "for {}", payload)
            }
            other => panic!("unexpected outcome: {:?}", other),
        }
    }
}

#[test]
fn an_empty_run() {
    let transcript = consume(true, &Vec::new());
    assert_eq!(transcript.output, "");
    assert!(!transcript.announced);
    assert_eq!(transcript.state, LiveLogState::Connecting);
    assert!(transcript.into_result().is_ok());
}
